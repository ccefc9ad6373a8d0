use persona_pilot::desktop::task_list::{task_item_from_row, TaskResultFields, TaskRowFields};

fn row(kind: &str) -> TaskRowFields {
    TaskRowFields {
        id: "task-1".to_string(),
        kind: kind.to_string(),
        status: "succeeded".to_string(),
        priority: 3,
        persona_id: Some("persona-a".to_string()),
        platform_id: None,
        manual_gate_request_id: None,
        error_message: None,
        created_at: "100".to_string(),
        started_at: Some("101".to_string()),
        finished_at: Some("105".to_string()),
    }
}

fn empty_result() -> TaskResultFields {
    TaskResultFields {
        title: None,
        browser_title: None,
        final_url: None,
        final_url_camel: None,
        browser_final_url: None,
        content_preview: None,
        content_preview_camel: None,
        content_nested_preview: None,
        content_kind: None,
        content_kind_camel: None,
        content_nested_kind: None,
        content_ready: None,
        content_ready_camel: None,
        content_nested_ready: None,
    }
}

#[test]
fn task_item_prefers_the_first_place_a_result_names() {
    let mut r = empty_result();
    r.browser_title = Some("Browser title".to_string());
    r.final_url_camel = Some("https://shop.example/a".to_string());
    r.browser_final_url = Some("https://shop.example/b".to_string());
    r.content_nested_kind = Some("html".to_string());
    r.content_ready_camel = Some(false);
    r.content_nested_ready = Some(true);
    let item = task_item_from_row(&row("open_page"), &Some(r));
    assert!(item.is_browser_task);
    assert_eq!(item.title.as_deref(), Some("Browser title"));
    assert_eq!(item.final_url.as_deref(), Some("https://shop.example/a"));
    assert_eq!(item.content_kind.as_deref(), Some("html"));
    assert_eq!(item.content_ready, Some(false));
    assert_eq!(item.content_preview, None);
    assert_eq!(item.id, "task-1");
    assert_eq!(item.priority, 3);
    assert_eq!(item.persona_id.as_deref(), Some("persona-a"));
    assert_eq!(item.finished_at.as_deref(), Some("105"));
}

#[test]
fn task_item_cuts_long_previews() {
    let mut r = empty_result();
    r.title = Some("Top".to_string());
    r.browser_title = Some("Ignored".to_string());
    r.content_preview = Some(format!("  {}  ", "x".repeat(200)));
    let item = task_item_from_row(&row("get_html"), &Some(r));
    assert_eq!(item.title.as_deref(), Some("Top"));
    assert_eq!(item.content_preview, Some(format!("{}...", "x".repeat(180))));

    let mut short = empty_result();
    short.content_nested_preview = Some("  hello  ".to_string());
    let item = task_item_from_row(&row("get_title"), &Some(short));
    assert_eq!(item.content_preview.as_deref(), Some("hello"));
}

#[test]
fn task_item_without_result_has_no_result_fields() {
    let item = task_item_from_row(&row("sync_profiles"), &None);
    assert!(!item.is_browser_task);
    assert_eq!(item.title, None);
    assert_eq!(item.final_url, None);
    assert_eq!(item.content_kind, None);
    assert_eq!(item.content_ready, None);
    assert_eq!(item.status, "succeeded");
}
