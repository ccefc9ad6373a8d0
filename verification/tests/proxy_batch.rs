use persona_pilot::desktop::proxy_batch::{
    plan_proxy_batch, proxy_batch_candidate_selected, proxy_batch_options, ProxyBatchCandidate,
    ProxyBatchFilters,
};

fn candidate(id: &str, provider: Option<&str>) -> ProxyBatchCandidate {
    ProxyBatchCandidate {
        id: id.to_string(),
        provider: provider.map(String::from),
        region: Some("us-east".to_string()),
        last_verify_status: None,
        last_verify_at: None,
        last_used_at: None,
    }
}

fn no_filters() -> ProxyBatchFilters {
    ProxyBatchFilters { proxy_ids: None, providers: None, regions: None }
}

#[test]
fn options_apply_defaults_and_bounds() {
    let o = proxy_batch_options(None, None, None, None, None, None, None);
    assert_eq!(o.limit, 50);
    assert_eq!(o.stale_after_seconds, 3600);
    assert_eq!(o.task_timeout_seconds, 180);
    assert_eq!(o.recently_used_within_seconds, 0);
    assert!(!o.only_stale && !o.failed_only);
    assert_eq!(o.max_per_provider, 0);
    let o = proxy_batch_options(Some(0), Some(-5), Some(10), Some(-1), Some(true), Some(true), Some(-3));
    assert_eq!(o.limit, 1);
    assert_eq!(o.stale_after_seconds, 0);
    assert_eq!(o.task_timeout_seconds, 30);
    assert_eq!(o.recently_used_within_seconds, 0);
    assert!(o.only_stale && o.failed_only);
    assert_eq!(o.max_per_provider, 0);
    assert_eq!(proxy_batch_options(Some(999), None, None, None, None, None, None).limit, 200);
}

#[test]
fn selection_follows_filters_staleness_and_recent_use() {
    let defaults = proxy_batch_options(None, None, None, None, None, None, None);
    let c = candidate("px-1", Some("acme"));
    let ids = ProxyBatchFilters { proxy_ids: Some(vec!["px-1".to_string()]), providers: None, regions: None };
    assert!(proxy_batch_candidate_selected(&c, &ids, &defaults, 10_000));
    let other = ProxyBatchFilters { proxy_ids: Some(vec!["px-2".to_string()]), providers: None, regions: None };
    assert!(!proxy_batch_candidate_selected(&c, &other, &defaults, 10_000));
    // The provider filter is compared as given with the lowercased provider.
    let upper = ProxyBatchFilters { proxy_ids: None, providers: Some(vec!["ACME".to_string()]), regions: None };
    assert!(!proxy_batch_candidate_selected(&c, &upper, &defaults, 10_000));

    let stale_only = proxy_batch_options(None, Some(100), None, None, Some(true), None, None);
    let mut fresh = candidate("px-3", None);
    fresh.last_verify_at = Some("9950".to_string());
    assert!(!proxy_batch_candidate_selected(&fresh, &no_filters(), &stale_only, 10_000));
    fresh.last_verify_at = Some("9900".to_string());
    assert!(proxy_batch_candidate_selected(&fresh, &no_filters(), &stale_only, 10_000));
    fresh.last_verify_at = None;
    assert!(proxy_batch_candidate_selected(&fresh, &no_filters(), &stale_only, 10_000));

    let failed_only = proxy_batch_options(None, None, None, None, None, Some(true), None);
    let mut f = candidate("px-4", None);
    assert!(!proxy_batch_candidate_selected(&f, &no_filters(), &failed_only, 10_000));
    f.last_verify_status = Some("failed".to_string());
    assert!(proxy_batch_candidate_selected(&f, &no_filters(), &failed_only, 10_000));

    let not_recent = proxy_batch_options(None, None, None, Some(60), None, None, None);
    let mut used = candidate("px-5", None);
    used.last_used_at = Some("9950".to_string());
    assert!(!proxy_batch_candidate_selected(&used, &no_filters(), &not_recent, 10_000));
    used.last_used_at = Some("9939".to_string());
    assert!(proxy_batch_candidate_selected(&used, &no_filters(), &not_recent, 10_000));
}

#[test]
fn plan_counts_limit_and_provider_caps() {
    let candidates = vec![
        candidate("a1", Some("beta")),
        candidate("a2", Some("alpha")),
        candidate("a3", Some("beta")),
        candidate("a4", None),
        candidate("a5", Some("beta")),
        candidate("a6", Some("alpha")),
    ];
    let capped = proxy_batch_options(Some(4), None, None, None, None, None, Some(1));
    let plan = plan_proxy_batch(&candidates, &no_filters(), &capped, 10_000);
    assert_eq!(plan.requested_count, 6);
    // a1 beta accepted, a2 alpha accepted, a3 beta capped, a4 unassigned accepted,
    // a5 beta capped, a6 alpha capped.
    assert_eq!(plan.accepted_count, 3);
    assert_eq!(plan.skipped_count, 3);
    let summary: Vec<(&str, i64, i64)> = plan
        .provider_summary
        .iter()
        .map(|s| (s.provider.as_str(), s.accepted, s.skipped_due_to_cap))
        .collect();
    assert_eq!(summary, vec![("alpha", 1, 1), ("beta", 1, 2), ("unassigned", 1, 0)]);

    let limited = proxy_batch_options(Some(2), None, None, None, None, None, None);
    let plan = plan_proxy_batch(&candidates, &no_filters(), &limited, 10_000);
    assert_eq!(plan.requested_count, 6);
    assert_eq!(plan.accepted_count, 2);
    assert_eq!(plan.skipped_count, 4);
    let summary: Vec<(&str, i64, i64)> = plan
        .provider_summary
        .iter()
        .map(|s| (s.provider.as_str(), s.accepted, s.skipped_due_to_cap))
        .collect();
    assert_eq!(summary, vec![("alpha", 1, 0), ("beta", 1, 0)]);

    let empty = plan_proxy_batch(&Vec::new(), &no_filters(), &limited, 10_000);
    assert_eq!((empty.requested_count, empty.accepted_count, empty.skipped_count), (0, 0, 0));
    assert!(empty.provider_summary.is_empty());
}
