use persona_pilot::desktop::types::{DesktopProfileBatchActionRequest, DesktopRunTimelineEntry};
use persona_pilot::desktop::workbench::{
    build_like_term, collect_tags, derive_profile_runtime_status, derive_proxy_reachable,
    derive_store_override_readiness, is_failureish_status, is_successish_status,
    local_asset_entry_status, matches_any_filter, matches_filter, matches_search,
    normalize_filter_values, normalize_profile_batch_ids, normalized_optional_filter,
    paginate_items, parse_bool_flag, push_timeline_entry, sanitize_manifest_file_fragment,
    sanitize_page, sanitize_page_size, template_step_count, trim_preview,
    DesktopProfileBatchActionKind, ProfileBaseRecord, TemplateStepsShape,
};

fn strings(words: &[&str]) -> Vec<String> {
    words.iter().map(|w| w.to_string()).collect()
}

#[test]
fn paging_is_sanitized() {
    assert_eq!(sanitize_page(None), 1);
    assert_eq!(sanitize_page(Some(-3)), 1);
    assert_eq!(sanitize_page(Some(4)), 4);
    assert_eq!(sanitize_page_size(None, 25, 100), 25);
    assert_eq!(sanitize_page_size(Some(0), 25, 100), 1);
    assert_eq!(sanitize_page_size(Some(500), 25, 100), 100);
}

#[test]
fn pages_slice_the_list() {
    let items: Vec<i32> = (1..=7).collect();
    assert_eq!(paginate_items(&items, 1, 3), vec![1, 2, 3]);
    assert_eq!(paginate_items(&items, 3, 3), vec![7]);
    assert!(paginate_items(&items, 4, 3).is_empty());
    assert_eq!(paginate_items(&items, 0, 3), vec![1, 2, 3]);
}

#[test]
fn filters_and_search() {
    assert_eq!(normalized_optional_filter(Some(" all ".to_string())), None);
    assert_eq!(normalized_optional_filter(Some(" active ".to_string())).as_deref(), Some("active"));
    assert_eq!(build_like_term(Some(" shop ".to_string())).as_deref(), Some("%shop%"));
    assert_eq!(build_like_term(Some("  ".to_string())), None);
    let filters = normalize_filter_values(&Some(strings(&[" Active ", "ALL", "", "Paused"])));
    assert_eq!(filters, Some(strings(&["active", "paused"])));
    assert_eq!(normalize_filter_values(&Some(strings(&["all", " "]))), None);
    assert_eq!(normalize_filter_values(&None), None);
    assert!(matches_filter(" ACTIVE", &filters));
    assert!(!matches_filter("disabled", &filters));
    assert!(matches_filter("anything", &None));
    assert!(matches_any_filter(&strings(&["x", "Paused"]), &filters));
    assert!(!matches_any_filter(&strings(&["x"]), &filters));
    assert!(matches_search(&strings(&["Shop-ONE"]), &Some(" one ".to_string())));
    assert!(!matches_search(&strings(&["shop"]), &Some("two".to_string())));
    assert!(matches_search(&strings(&[]), &Some("   ".to_string())));
    assert_eq!(parse_bool_flag(Some(2)), Some(true));
    assert_eq!(parse_bool_flag(Some(0)), Some(false));
}

#[test]
fn tags_are_sorted_and_unique() {
    let tags = collect_tags(&vec![strings(&[" b ", "a", ""]), strings(&["a", "c "])]);
    assert_eq!(tags, strings(&["a", "b", "c"]));
}

#[test]
fn batch_ids_keep_first_occurrence() {
    let request = DesktopProfileBatchActionRequest { profile_ids: strings(&[" p2", "p1", "", "p2 ", "p3"]) };
    assert_eq!(normalize_profile_batch_ids(&request), strings(&["p2", "p1", "p3"]));
}

fn profile() -> ProfileBaseRecord {
    ProfileBaseRecord {
        id: "persona-1".to_string(),
        store_id: "store-a".to_string(),
        platform_id: "shopify".to_string(),
        device_family: "desktop".to_string(),
        country_anchor: "US".to_string(),
        region_anchor: None,
        locale: "en-US".to_string(),
        timezone: "America/New_York".to_string(),
        fingerprint_profile_id: "fp-1".to_string(),
        behavior_profile_id: None,
        network_policy_id: "net-1".to_string(),
        continuity_policy_id: "cont-1".to_string(),
        credential_ref: None,
        status: "active".to_string(),
        created_at: "1".to_string(),
        updated_at: "1".to_string(),
        fingerprint_tags: vec![],
        behavior_tags: vec![],
    }
}

#[test]
fn batch_action_names() {
    let kind = DesktopProfileBatchActionKind::CheckProxy;
    assert_eq!(kind.action_name(), "checkProfileProxies");
    assert_eq!(kind.task_kind(), "desktop_profile_check_proxy");
    assert_eq!(kind.task_title(), "Check profile proxy");
    assert_eq!(kind.event_type(), "desktop_profile_proxy_check");
    assert_eq!(
        kind.log_message(&profile()),
        "Desktop workbench requested proxy verification for profile persona-1 (store-a / shopify)."
    );
    assert_eq!(
        DesktopProfileBatchActionKind::Open.log_message(&profile()),
        "Desktop workbench opened profile persona-1 (store-a / shopify)."
    );
}

#[test]
fn profile_runtime_states() {
    assert_eq!(derive_profile_runtime_status("DISABLED", Some("running"), None, 3), "stopped");
    assert_eq!(derive_profile_runtime_status("active", Some("queued"), None, 0), "starting");
    assert_eq!(derive_profile_runtime_status("active", Some("running"), None, 0), "running");
    assert_eq!(derive_profile_runtime_status("active", None, Some("failed"), 2), "syncing");
    assert_eq!(derive_profile_runtime_status("active", None, Some("timed_out"), 0), "error");
    assert_eq!(derive_profile_runtime_status("active", None, Some("succeeded"), 0), "idle");
}

#[test]
fn proxy_reachability() {
    assert!(is_successish_status(" Healthy "));
    assert!(is_failureish_status("TIMED_OUT"));
    assert!(!is_successish_status("unknown"));
    assert_eq!(derive_proxy_reachable(Some(true), Some(false), None), Some(false));
    assert_eq!(derive_proxy_reachable(Some(true), None, Some("failed")), Some(true));
    assert_eq!(derive_proxy_reachable(None, None, Some("ok")), Some(true));
    assert_eq!(derive_proxy_reachable(None, None, Some("error")), Some(false));
    assert_eq!(derive_proxy_reachable(None, None, Some("pending")), None);
}

#[test]
fn store_override_readiness() {
    assert_eq!(template_step_count(TemplateStepsShape::List { len: 3 }), 3);
    assert_eq!(template_step_count(TemplateStepsShape::Object { steps_len: None }), 0);
    assert_eq!(template_step_count(TemplateStepsShape::Other), 0);
    let empty: Vec<String> = vec![];
    assert_eq!(
        derive_store_override_readiness(&empty, &empty, &empty, &empty, TemplateStepsShape::Object { steps_len: Some(2) }),
        "sample_ready"
    );
    assert_eq!(
        derive_store_override_readiness(&strings(&["/warm"]), &empty, &empty, &empty, TemplateStepsShape::Absent),
        "baseline"
    );
    assert_eq!(derive_store_override_readiness(&empty, &empty, &empty, &empty, TemplateStepsShape::Absent), "draft");
}

#[test]
fn text_helpers() {
    assert_eq!(sanitize_manifest_file_fragment("shop/one two-3_é"), "shop_one_two-3__");
    assert_eq!(trim_preview(Some("  hello world ".to_string()), 5).as_deref(), Some("hello..."));
    assert_eq!(trim_preview(Some(" hi ".to_string()), 5).as_deref(), Some("hi"));
    assert_eq!(trim_preview(None, 5), None);
    assert_eq!(local_asset_entry_status(true), "ready");
    assert_eq!(local_asset_entry_status(false), "provision_on_demand");
    let mut timeline: Vec<DesktopRunTimelineEntry> = vec![];
    push_timeline_entry(&mut timeline, "a".to_string(), "Queued".to_string(), "queued".to_string(), None, Some("1".to_string()));
    assert_eq!(timeline.len(), 1);
    assert_eq!(timeline[0].label, "Queued");
}
