use persona_pilot::desktop::evidence::{attach_evidence_report_trends, build_evidence_report_history};
use persona_pilot::desktop::report::{
    evidence_report_summary_from_fields, latest_report_index, profile_browser_comparison_category_summary,
    profile_browser_comparison_summary,
    CategoryComparisonFields, EvidenceReportFields, ReportSortKey, NO_PREVIOUS_REPORT,
};

fn empty() -> EvidenceReportFields {
    EvidenceReportFields {
        generated_at: None,
        status: None,
        operator_status: None,
        failure_reason: None,
        budget_status: None,
        summary_passed: None,
        summary_expected_blocked: None,
        summary_failed: None,
        summary_budget_result_count: None,
        summary_next_action: None,
        health_summary_next_action: None,
        measured_cold_start_ms: None,
        measured_idle_rss_mb: None,
        measured_process_count: None,
        accepted_count: None,
        ready_credential_count: None,
        cross_machine_complete: None,
        items_count: None,
        fingerprint_materialized_signal_count: None,
        behavior_materialized_event_count: None,
        observed_exit_ip: None,
        observed_tls_ja3_hash: None,
        observed_tls_ja4: None,
        direct_baseline_status: None,
        direct_exit_ip_different: None,
        remote_proxy_tls_evidence_status: None,
        b1b5_transport_remote_proxy_tls: None,
        b1b5_session_portability: None,
        b1b5_provider_production_closure: None,
        real_binary_task: None,
        repeatability: None,
        action: None,
        screenshot_present: None,
        same_run_status: None,
        max_pair_age_minutes: None,
        desktop_profile_delta_minutes: None,
        desktop_signal_count: None,
        profile_browser_signal_count: None,
        comparable_category_count: None,
        category_comparison: None,
    }
}

const NEXT: &str = "Use processBreakdown and mitigationHints before claiming release performance green.";

fn release(at: &str, reason: &str, cold: i64, rss: i64, procs: i64) -> EvidenceReportFields {
    let mut f = empty();
    f.generated_at = Some(at.to_string());
    f.status = Some("warning".to_string());
    f.budget_status = Some("over_budget".to_string());
    f.failure_reason = Some(reason.to_string());
    f.measured_cold_start_ms = Some(cold);
    f.measured_idle_rss_mb = Some(rss);
    f.measured_process_count = Some(procs);
    f.health_summary_next_action = Some(NEXT.to_string());
    f
}

#[test]
fn release_performance_reports_compare_with_the_previous_one() {
    let mut m5 = empty();
    m5.generated_at = Some("2026-06-01T00:01:00Z".to_string());
    m5.status = Some("passed_with_budget_overrun".to_string());
    m5.budget_status = Some("over_budget".to_string());
    m5.summary_failed = Some(0);
    m5.summary_budget_result_count = Some(3);
    m5.summary_next_action = Some(NEXT.to_string());

    let newest_first = vec![
        evidence_report_summary_from_fields("m5_release_health", "m5-release-health-gate-test", "m5.json", "0", &m5),
        evidence_report_summary_from_fields(
            "release_performance",
            "release-performance-smoke-test",
            "new.json",
            "0",
            &release("2026-05-23T00:00:00Z", "idle_rss_target_exceeded", 9301, 411, 14),
        ),
        evidence_report_summary_from_fields(
            "release_performance",
            "release-performance-smoke-older",
            "old.json",
            "0",
            &release("2026-05-22T00:00:00Z", "cold_start_target_exceeded", 4400, 390, 9),
        ),
    ];
    assert_eq!(newest_first[1].trend_summary, NO_PREVIOUS_REPORT);
    let mut reports = newest_first;
    attach_evidence_report_trends(&mut reports);

    let report = &reports[1];
    assert_eq!(report.kind, "release_performance");
    assert_eq!(report.status, "warning");
    assert_eq!(report.failure_reason.as_deref(), Some("idle_rss_target_exceeded"));
    assert_eq!(report.failure_reason_category, "release_budget_overrun");
    assert!(report.summary.contains("411MB"));
    assert!(report.summary.contains("budget=over_budget"));
    assert_eq!(report.previous_status.as_deref(), Some("warning"));
    assert_eq!(report.previous_failure_reason.as_deref(), Some("cold_start_target_exceeded"));
    assert_eq!(report.status_trend, "status_unchanged");
    assert_eq!(report.failure_reason_trend, "failure_reason_changed");
    assert_eq!(report.previous_failure_reason_category.as_deref(), Some("release_budget_overrun"));
    assert_eq!(report.failure_reason_category_trend, "failure_reason_category_unchanged");
    assert_eq!(report.risk_level, "partial");
    assert_eq!(report.risk_score, 40);
    assert_eq!(report.previous_risk_level.as_deref(), Some("partial"));
    assert_eq!(report.previous_risk_score, Some(40));
    assert_eq!(report.risk_trend, "risk_unchanged");
    assert!(report.trend_summary.contains("status warning -> warning"));
    assert!(report.trend_summary.contains("risk partial -> partial (risk_unchanged)"));
    assert!(report.trend_summary.contains("category release_budget_overrun -> release_budget_overrun"));
    assert!(report.report_diff_summary.contains("failureReasonCategory=failure_reason_category_unchanged"));
    assert_eq!(report.report_diff_items.len(), 4);
    let category_diff = report
        .report_diff_items
        .iter()
        .find(|item| item.field == "failureReasonCategory")
        .expect("category diff item");
    assert_eq!(category_diff.previous, "release_budget_overrun");
    assert_eq!(category_diff.current, "release_budget_overrun");
    assert_eq!(category_diff.trend, "failure_reason_category_unchanged");
    assert!(report.next_action.as_deref().unwrap_or_default().contains("mitigationHints"));

    let m5 = &reports[0];
    assert_eq!(m5.status, "passed_with_budget_overrun");
    assert_eq!(m5.evidence_level, "partial");
    assert_eq!(m5.failure_reason_category, "release_budget_overrun");
    assert_eq!(m5.status_trend, "new_report_kind");
    assert_eq!(m5.failure_reason_category_trend, "new_report_kind");
    assert_eq!(m5.risk_level, "partial");
    assert_eq!(m5.risk_trend, "new_report_kind");
    assert!(m5.report_diff_items.is_empty());
    assert!(m5.summary.contains("budget=over_budget"));
    assert!(m5.next_action.as_deref().unwrap_or_default().contains("mitigationHints"));
}

#[test]
fn reports_without_status_or_time_fall_back() {
    let r = evidence_report_summary_from_fields("release_performance", "r1", "r1.json", "1700000000", &empty());
    assert_eq!(r.status, "unknown");
    assert_eq!(r.generated_at, "1700000000");
    assert_eq!(r.report_path, "r1.json");
    assert_eq!(r.report_id, "r1");
    assert!(r.failure_reason.is_none());
    assert_eq!(r.status_trend, "new_report_kind");
    assert_eq!(r.report_diff_summary, NO_PREVIOUS_REPORT);
}

#[test]
fn comparison_reports_list_the_categories_not_compared() {
    let mut f = empty();
    assert_eq!(profile_browser_comparison_category_summary(&f), (0, "missing".to_string()));
    f.category_comparison = Some(vec![
        CategoryComparisonFields { category: Some("fonts".to_string()), status: Some("comparable".to_string()) },
        CategoryComparisonFields { category: Some(" webgl ".to_string()), status: Some("mismatch".to_string()) },
        CategoryComparisonFields { category: Some("audio".to_string()), status: None },
        CategoryComparisonFields { category: None, status: Some("mismatch".to_string()) },
    ]);
    assert_eq!(
        profile_browser_comparison_category_summary(&f),
        (4, "webgl=mismatch,audio=missing".to_string())
    );
    f.same_run_status = Some("same_run".to_string());
    f.max_pair_age_minutes = Some(30);
    f.desktop_signal_count = Some(12);
    f.comparable_category_count = Some(1);
    assert_eq!(
        profile_browser_comparison_summary("passed", &f),
        "profile browser comparison passed: sameRun=same_run deltaMinutes=pending/30 desktopSignals=12 profileSignals=0 comparable=1/4 missingCategories=webgl=mismatch,audio=missing"
    );
}

#[test]
fn latest_report_prefers_rank_then_time_then_first_found() {
    let key = |rank: i32, at: &str| ReportSortKey { rank, generated_at: at.to_string() };
    assert_eq!(latest_report_index(&vec![]), None);
    assert_eq!(
        latest_report_index(&vec![key(0, "2026-05-22"), key(0, "2026-05-23"), key(0, "2026-05-01")]),
        Some(1)
    );
    assert_eq!(latest_report_index(&vec![key(0, "2026-05-23"), key(2, "2026-01-01"), key(1, "2026-06-01")]), Some(1));
    assert_eq!(latest_report_index(&vec![key(1, "2026-05-23"), key(1, "2026-05-23")]), Some(0));
}

#[test]
fn history_lists_reports_newest_first_with_path_tiebreak() {
    let at = |t: &str| {
        let mut f = empty();
        f.generated_at = Some(t.to_string());
        f.status = Some("passed".to_string());
        f
    };
    let found = vec![
        evidence_report_summary_from_fields("release_performance", "a", "reports/a.json", "0", &at("2026-05-01")),
        evidence_report_summary_from_fields("release_performance", "c", "reports/c.json", "0", &at("2026-05-03")),
        evidence_report_summary_from_fields("release_performance", "b", "reports/b.json", "0", &at("2026-05-03")),
    ];
    let history = build_evidence_report_history("1700000000".to_string(), found);
    let ids: Vec<&str> = history.reports.iter().map(|r| r.report_id.as_str()).collect();
    assert_eq!(ids, vec!["c", "b", "a"]);
    assert_eq!(history.report_count, 3);
    assert_eq!(history.summary, "Evidence report history: 3 local reports");
    assert_eq!(history.reports[0].previous_generated_at.as_deref(), Some("2026-05-03"));
    assert_eq!(history.reports[2].status_trend, "new_report_kind");
}
