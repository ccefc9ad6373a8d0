use persona_pilot::desktop::pages::{log_list_params, task_list_params};
use persona_pilot::desktop::types::{DesktopLogQuery, DesktopTaskQuery};

#[test]
fn task_list_params_page_filter_and_search() {
    let p = task_list_params(DesktopTaskQuery::default());
    assert_eq!((p.page, p.page_size, p.offset), (1, 50, 0));
    assert_eq!(p.status_filter, None);
    assert_eq!(p.like_term, None);

    let p = task_list_params(DesktopTaskQuery {
        page: Some(3),
        page_size: Some(20),
        status_filter: Some(" running ".to_string()),
        search: Some("  shop ".to_string()),
    });
    assert_eq!((p.page, p.page_size, p.offset), (3, 20, 40));
    assert_eq!(p.status_filter.as_deref(), Some("running"));
    assert_eq!(p.like_term.as_deref(), Some("%shop%"));

    let p = task_list_params(DesktopTaskQuery {
        page: Some(-2),
        page_size: Some(1000),
        status_filter: Some("all".to_string()),
        search: Some("   ".to_string()),
    });
    assert_eq!((p.page, p.page_size, p.offset), (1, 200, 0));
    assert_eq!(p.status_filter, None);
    assert_eq!(p.like_term, None);
}

#[test]
fn log_list_params_default_to_a_hundred_rows() {
    let p = log_list_params(DesktopLogQuery::default());
    assert_eq!((p.page, p.page_size, p.offset), (1, 100, 0));
    let p = log_list_params(DesktopLogQuery {
        page: Some(2),
        page_size: Some(0),
        task_id_filter: Some(" task-9 ".to_string()),
        level_filter: Some("".to_string()),
        search: Some("timeout".to_string()),
    });
    assert_eq!((p.page, p.page_size, p.offset), (2, 1, 1));
    assert_eq!(p.task_id_filter.as_deref(), Some("task-9"));
    assert_eq!(p.level_filter, None);
    assert_eq!(p.like_term.as_deref(), Some("%timeout%"));
}
