use persona_pilot::desktop::audit::read_desktop_behavior_audit_contract;
use persona_pilot::desktop::evidence::{
    attach_evidence_report_trends, evidence_failure_reason_category, evidence_failure_reason_trend,
    evidence_report_kind_from_dir, evidence_risk_from_level, evidence_risk_trend,
    evidence_status_trend, optional_diff_text, risk_diff_text,
};
use persona_pilot::desktop::types::DesktopEvidenceReportSummary;

#[test]
fn behavior_audit_contract_preserves_shipped_vs_target_boundary() {
    let contract = read_desktop_behavior_audit_contract();
    assert_eq!(contract.shipped_primitive_count, 13);
    assert_eq!(contract.page_archetype_count, 8);
    assert_eq!(contract.target_event_taxonomy_label, "450+");
    assert_eq!(
        contract.target_event_taxonomy_status,
        "taxonomy_seed_not_full_replay_runtime"
    );
    assert_eq!(contract.target_event_family_count, 11);
    assert_eq!(
        contract.target_event_taxonomy_path,
        "docs/taxonomy/behavior-event-taxonomy.json"
    );
    assert!(contract
        .supported_primitives
        .contains(&"wait_for_readiness".to_string()));
    assert!(contract
        .supported_primitives
        .contains(&"soft_abort_if_budget_exceeded".to_string()));
    assert!(contract
        .coverage
        .iter()
        .any(|item| { item.id == "target_taxonomy" && item.status == "taxonomy_seed" }));
    assert_eq!(
        contract.deterministic_replay_evidence_status,
        "shipped_primitives_runtime_evidence"
    );
    assert_eq!(
        contract.replay_debugger_status,
        "behavior_trace_artifact_visible"
    );
    assert!(contract
        .warnings
        .iter()
        .any(|warning| warning.contains("13 shipped primitives are not the 450+ target taxonomy")));
}

#[test]
fn evidence_report_history_failure_reason_category_covers_known_blockers() {
    let cases = [
        (
            "provider_acceptance",
            "blocked_missing_credentials",
            None,
            "provider_credentials_missing",
        ),
        (
            "profile_browser_comparison",
            "blocked_missing_profile_browser_report",
            None,
            "profile_browser_evidence_missing",
        ),
        (
            "profile_browser_comparison",
            "blocked_stale_comparison_pair",
            None,
            "same_run_window_stale",
        ),
        (
            "profile_browser_comparison",
            "partial_comparison_only",
            None,
            "comparison_category_gap",
        ),
        (
            "session_portability",
            "local_contract_passed",
            None,
            "cross_machine_session_pending",
        ),
        (
            "runtime_adapter",
            "blocked_evidence_required",
            None,
            "runtime_adapter_evidence_required",
        ),
        (
            "external_distribution",
            "blocked_external_smoke_required",
            None,
            "external_operator_smoke_required",
        ),
        (
            "custom_gate",
            "blocked_missing_report",
            None,
            "blocked_external_or_missing_evidence",
        ),
        ("custom_gate", "warning", None, "warning_or_partial"),
        (
            "custom_gate",
            "passed",
            Some("opaque provider message"),
            "uncategorized_failure_reason",
        ),
        ("custom_gate", "passed", None, "none"),
    ];
    for (kind, status, failure_reason, expected) in cases {
        assert_eq!(
            evidence_failure_reason_category(kind, status, failure_reason),
            expected
        );
    }
}

#[test]
fn report_kind_follows_the_report_directory() {
    assert_eq!(evidence_report_kind_from_dir("release-smoke"), Some("release_performance"));
    assert_eq!(evidence_report_kind_from_dir("m4-acceptance"), Some("m4_acceptance"));
    assert_eq!(evidence_report_kind_from_dir("remote-proxy-tls"), Some("remote_proxy_tls"));
    assert_eq!(evidence_report_kind_from_dir("not-a-report-dir"), None);
}

#[test]
fn status_and_reason_trends() {
    assert_eq!(evidence_status_trend("warning", None), "new_report_kind");
    assert_eq!(evidence_status_trend("warning", Some("warning")), "status_unchanged");
    assert_eq!(evidence_status_trend("passed", Some("warning")), "status_changed_from_warning_to_passed");
    assert_eq!(evidence_failure_reason_trend(Some("a"), Some("b")), "failure_reason_changed");
    assert_eq!(evidence_failure_reason_trend(Some("a"), Some("a")), "failure_reason_unchanged");
}

#[test]
fn risk_follows_the_level_and_status_words() {
    assert_eq!(evidence_risk_from_level("failed", "failed"), ("failed".to_string(), 90));
    assert_eq!(evidence_risk_from_level("blocked", "blocked_x"), ("blocked".to_string(), 70));
    assert_eq!(evidence_risk_from_level("partial", "warning"), ("partial".to_string(), 40));
    assert_eq!(evidence_risk_from_level("observed", "passed"), ("observed".to_string(), 10));
    assert_eq!(
        evidence_risk_from_level("contract_or_not_run", "unknown"),
        ("contract_or_not_run".to_string(), 55)
    );
    assert_eq!(evidence_risk_trend(40, None), "new_report_kind");
    assert_eq!(evidence_risk_trend(10, Some(40)), "risk_improved");
    assert_eq!(evidence_risk_trend(70, Some(40)), "risk_regressed");
    assert_eq!(evidence_risk_trend(40, Some(40)), "risk_unchanged");
    assert_eq!(optional_diff_text(None), "none");
    assert_eq!(optional_diff_text(Some("x")), "x");
    assert_eq!(risk_diff_text("partial", 40), "partial:40");
    assert_eq!(risk_diff_text("partial", -5), "partial:-5");
}

fn report(kind: &str, status: &str, reason: Option<&str>, category: &str, at: &str) -> DesktopEvidenceReportSummary {
    DesktopEvidenceReportSummary {
        report_id: format!("{kind}-{at}"),
        kind: kind.to_string(),
        status: status.to_string(),
        evidence_level: "partial".to_string(),
        generated_at: at.to_string(),
        report_path: format!("/reports/{kind}-{at}.json"),
        failure_reason: reason.map(str::to_string),
        failure_reason_category: category.to_string(),
        previous_status: None,
        previous_failure_reason: None,
        previous_failure_reason_category: None,
        previous_generated_at: None,
        status_trend: "new_report_kind".to_string(),
        failure_reason_trend: "new_report_kind".to_string(),
        failure_reason_category_trend: "new_report_kind".to_string(),
        risk_level: "partial".to_string(),
        risk_score: 40,
        previous_risk_level: None,
        previous_risk_score: None,
        risk_trend: "new_report_kind".to_string(),
        trend_summary: "No previous local report for this evidence kind.".to_string(),
        report_diff_summary: "No previous local report for this evidence kind.".to_string(),
        report_diff_items: Vec::new(),
        next_action: None,
        summary: String::new(),
    }
}

#[test]
fn trends_compare_each_report_with_the_next_older_of_its_kind() {
    let mut reports = vec![
        report("release_performance", "warning", Some("idle_rss_target_exceeded"), "release_budget_overrun", "2"),
        report("m4_acceptance", "passed", None, "none", "2"),
        report("release_performance", "warning", Some("cold_start_target_exceeded"), "release_budget_overrun", "1"),
    ];
    attach_evidence_report_trends(&mut reports);
    assert_eq!(reports.len(), 3);
    assert_eq!(reports[0].previous_status.as_deref(), Some("warning"));
    assert_eq!(reports[0].status_trend, "status_unchanged");
    assert_eq!(reports[0].failure_reason_trend, "failure_reason_changed");
    assert_eq!(reports[0].failure_reason_category_trend, "failure_reason_category_unchanged");
    assert_eq!(reports[0].risk_trend, "risk_unchanged");
    assert_eq!(reports[1].status_trend, "new_report_kind");
    assert_eq!(reports[1].previous_status, None);
    assert_eq!(reports[2].status_trend, "new_report_kind");
    assert!(reports[0].trend_summary.contains("status warning -> warning"));
}
