use persona_pilot::desktop::release::{
    default_release_budgets, release_budget_rows_from_report, derive_release_budget_status, derive_release_health_status, headed_external_evidence,
    release_budget_verdict, release_health_next_action_text, release_health_summary_text,
    release_smoke_status, release_smoke_summary, release_smoke_warnings, runtime_adapter_contracts,
    select_mitigation_hints, ReleaseBudgetOutcome, RELEASE_SMOKE_NEXT_ACTION,
};
use persona_pilot::desktop::report::{
    headed_external_report_rank, latest_report_index, EvidenceReportFields, HeadedExternalResultFields,
    HeadedExternalTaskFields, ReportSortKey, SignalStatusFields,
};

fn empty() -> EvidenceReportFields {
    EvidenceReportFields {
        generated_at: None,
        status: None,
        operator_status: None,
        failure_reason: None,
        budget_status: None,
        summary_passed: None,
        summary_expected_blocked: None,
        summary_failed: None,
        summary_budget_result_count: None,
        summary_next_action: None,
        health_summary_next_action: None,
        measured_cold_start_ms: None,
        measured_idle_rss_mb: None,
        measured_process_count: None,
        accepted_count: None,
        ready_credential_count: None,
        cross_machine_complete: None,
        items_count: None,
        fingerprint_materialized_signal_count: None,
        behavior_materialized_event_count: None,
        observed_exit_ip: None,
        observed_tls_ja3_hash: None,
        observed_tls_ja4: None,
        direct_baseline_status: None,
        direct_exit_ip_different: None,
        remote_proxy_tls_evidence_status: None,
        b1b5_transport_remote_proxy_tls: None,
        b1b5_session_portability: None,
        b1b5_provider_production_closure: None,
        real_binary_task: None,
        repeatability: None,
        action: None,
        screenshot_present: None,
        same_run_status: None,
        max_pair_age_minutes: None,
        desktop_profile_delta_minutes: None,
        desktop_signal_count: None,
        profile_browser_signal_count: None,
        comparable_category_count: None,
        category_comparison: None,
    }
}


fn headed(status: &str, task_status: &str, probe: bool) -> EvidenceReportFields {
    let mut f = empty();
    f.generated_at = Some("2026-05-30T00:00:00Z".to_string());
    f.status = Some(status.to_string());
    let signal = |category: &str, status: &str| SignalStatusFields {
        category: Some(category.to_string()),
        status: Some(status.to_string()),
    };
    f.real_binary_task = Some(HeadedExternalTaskFields {
        status: Some(task_status.to_string()),
        action: None,
        final_url: Some(Some("https://example.com/".to_string())),
        validation_probe: None,
        result: if probe {
            Some(HeadedExternalResultFields {
                action: Some(Some("validation_probe".to_string())),
                final_url: None,
                validation_signals: Some(vec![
                    signal("detector", "succeeded"),
                    signal("canvas", "succeeded"),
                    signal("webrtc", "warning"),
                ]),
            })
        } else {
            None
        },
    });
    f
}

#[test]
fn headed_external_real_binary_task_is_promoted() {
    let evidence = headed_external_evidence(Some(&headed("passed_real_binary_task", "passed", false)));
    assert!(evidence.real_binary_passed);
    assert!(!evidence.validation_probe_observed);
    let contracts = runtime_adapter_contracts(false, &evidence);
    let item = contracts.iter().find(|c| c.adapter_id == "headed_external").expect("headed adapter contract");
    assert_eq!(item.status, "real_binary_task_recorded");
    assert_eq!(item.process_lifecycle_status, "passed");
    assert_eq!(item.cdp_attach_status, "passed");
    assert_eq!(item.profile_runtime_evidence, "minimal_real_binary_task_passed");
    assert!(!item.blockers.iter().any(|b| b.contains("real headed_external binary")));
    assert!(item.blockers.iter().any(|b| b.contains("full headed runtime fingerprint")));
}

#[test]
fn headed_external_validation_probe_is_promoted() {
    let evidence = headed_external_evidence(Some(&headed("passed_real_binary_task", "passed", true)));
    assert!(evidence.validation_probe_observed);
    assert_eq!(evidence.validation_signal_categories, vec!["canvas".to_string(), "detector".to_string(), "webrtc".to_string()]);
    let contracts = runtime_adapter_contracts(false, &evidence);
    let item = contracts.iter().find(|c| c.adapter_id == "headed_external").expect("headed adapter contract");
    assert_eq!(item.status, "real_binary_validation_probe_recorded");
    assert_eq!(item.profile_runtime_evidence, "profile_browser_validation_probe_observed");
    assert!(item.fingerprint_runtime_depth.contains("canvas, detector, webrtc"));
    assert!(item.blockers.iter().any(|b| b.contains("repeatability/coherence")));
}

#[test]
fn stronger_headed_external_report_outranks_a_newer_source_only_one() {
    let strong = headed("passed_real_binary_validation_probe", "passed", true);
    let mut newer = empty();
    newer.generated_at = Some("2026-05-30T17:41:35Z".to_string());
    newer.status = Some("passed_source_contract".to_string());
    newer.real_binary_task = Some(HeadedExternalTaskFields {
        status: Some("failed".to_string()),
        action: None,
        final_url: None,
        validation_probe: None,
        result: None,
    });
    let keys = vec![
        ReportSortKey { rank: headed_external_report_rank(&strong), generated_at: "2026-05-30T14:17:45Z".to_string() },
        ReportSortKey { rank: headed_external_report_rank(&newer), generated_at: "2026-05-30T17:41:35Z".to_string() },
    ];
    assert_eq!(latest_report_index(&keys), Some(0));
    let evidence = headed_external_evidence(Some(&strong));
    let contracts = runtime_adapter_contracts(false, &evidence);
    let item = contracts.iter().find(|c| c.adapter_id == "headed_external").expect("headed adapter contract");
    assert_eq!(item.status, "real_binary_validation_probe_recorded");
    assert!(item.fingerprint_runtime_depth.contains("canvas, detector, webrtc"));
}

#[test]
fn no_headed_report_proves_nothing() {
    let evidence = headed_external_evidence(None);
    assert!(!evidence.real_binary_passed && !evidence.validation_probe_observed && !evidence.repeatability_observed);
    assert!(evidence.validation_signal_categories.is_empty());
    assert_eq!(runtime_adapter_contracts(false, &evidence).len(), 4);
}

#[test]
fn budgets_grade_within_target_drift_and_over() {
    let v = release_budget_verdict(4000, Some(3900));
    assert_eq!((v.drift_target, v.status.as_str(), v.excess), (4400, "passed", Some(-100)));
    assert_eq!(release_budget_verdict(4000, Some(4400)).status, "within_10_percent_drift");
    assert_eq!(release_budget_verdict(4000, Some(4401)).status, "over_budget");
    assert_eq!(release_budget_verdict(15, Some(17)).drift_target, 17);
    let none = release_budget_verdict(300, None);
    assert_eq!((none.status.as_str(), none.excess), ("not_measured", None));
    // A negative target rounds its drift toward zero, as machine division does.
    let negative = release_budget_verdict(-15, Some(0));
    assert_eq!(negative.drift_target, -15);
    assert_eq!(negative.status, "over_budget");
    assert_eq!(negative.excess, Some(15));
}

fn outcome(status: &str, reason: bool, hint: &str) -> ReleaseBudgetOutcome {
    ReleaseBudgetOutcome { status: status.to_string(), has_drift_reason: reason, mitigation_hint: hint.to_string() }
}

#[test]
fn release_health_reads_budgets_and_report() {
    let results = vec![outcome("passed", false, "a"), outcome("within_10_percent_drift", false, "b")];
    assert_eq!(derive_release_budget_status(None, Some("warning"), &results), "within_10_percent_drift_requires_reason");
    let explained = vec![outcome("within_10_percent_drift", true, "b")];
    assert_eq!(derive_release_budget_status(None, Some("warning"), &explained), "within_10_percent_drift_recorded");
    let over = vec![outcome("over_budget", false, "c")];
    assert_eq!(derive_release_budget_status(None, Some("warning"), &over), "over_budget");
    assert_eq!(derive_release_budget_status(None, Some("failed"), &over), "failed_smoke");
    assert_eq!(derive_release_budget_status(None, Some("passed"), &over), "within_budget");
    assert_eq!(derive_release_budget_status(None, None, &over), "pending_operator_measurement");
    assert_eq!(derive_release_budget_status(Some(" custom ".to_string()), Some("failed"), &over), "custom");

    assert_eq!(derive_release_health_status(None, "within_budget"), "healthy");
    assert_eq!(derive_release_health_status(None, "over_budget"), "budget_overrun");
    assert_eq!(derive_release_health_status(None, "within_10_percent_drift_recorded"), "drift_tolerated_with_reason");
    assert_eq!(derive_release_health_status(Some("green".to_string()), "over_budget"), "green");
    assert_eq!(release_health_summary_text(None, "healthy", "within_budget"), "Release health healthy; budget=within_budget.");
    assert_eq!(release_health_next_action_text(None), RELEASE_SMOKE_NEXT_ACTION);
    assert_eq!(release_health_next_action_text(Some(" rerun ".to_string())), "rerun");

    let hints = select_mitigation_hints(None, &vec![outcome("passed", false, "a"), outcome("over_budget", false, "c"), outcome("over_budget", false, "")]);
    assert_eq!(hints, vec!["c".to_string()]);
    let own = select_mitigation_hints(Some(vec![" x ".to_string(), "  ".to_string()]), &over);
    assert_eq!(own, vec!["x".to_string()]);
}

#[test]
fn release_contract_status_and_summary() {
    assert_eq!(release_smoke_status(false), "blocked_missing_release_artifact");
    assert_eq!(release_smoke_status(true), "release_artifact_present_contract_ready");
    assert_eq!(release_smoke_warnings(true).len(), 2);
    assert_eq!(release_smoke_warnings(false)[0], "release executable artifact is missing; run pnpm desktop:release");
    assert_eq!(
        release_smoke_summary("blocked_missing_release_artifact", 4, false, "pending"),
        "Release smoke contract blocked_missing_release_artifact; adapters tracked: 4; release artifact present=false; measurement=pending."
    );
}

#[test]
fn default_release_budgets_cover_start_memory_and_processes() {
    let budgets = default_release_budgets();
    let rows: Vec<(&str, &str, i64)> =
        budgets.iter().map(|b| (b.id.as_str(), b.unit.as_str(), b.target)).collect();
    assert_eq!(rows, vec![("cold_start", "ms", 2000), ("idle_rss", "MB", 220), ("process_count", "processes", 4)]);
    assert_eq!(budgets[0].label, "Cold start");
    assert_eq!(budgets[2].mitigation_hint, "Check duplicate sidecars and stale release instances.");
}

#[test]
fn listed_budget_rows_are_read_from_the_report() {
    let report = r#"{"budgetResults":[
        {"id":" cold_start ","label":"Cold start","unit":"ms","target":2000,"driftTarget":2200,
         "measured":2100,"status":"within_10_percent_drift","excess":100,"excessPercent":5.0,
         "driftReason":" warm cache ","mitigationHint":"Delay reads."},
        {"label":"no id"},
        {"id":"rss","target":"220","status":"  "}
    ]}"#;
    let rows = release_budget_rows_from_report(report);
    assert_eq!(rows.len(), 2);
    assert_eq!((rows[0].index, rows[0].id.as_str(), rows[0].target, rows[0].drift_target), (0, "cold_start", 2000, 2200));
    assert_eq!((rows[0].measured, rows[0].excess), (Some(2100), Some(100)));
    assert_eq!(rows[0].drift_reason.as_deref(), Some("warm cache"));
    assert_eq!(rows[0].status, "within_10_percent_drift");
    assert_eq!(rows[1].index, 2);
    assert_eq!((rows[1].label.as_str(), rows[1].unit.as_str(), rows[1].target), ("Release budget", "", 0));
    assert_eq!((rows[1].status.as_str(), rows[1].mitigation_hint.as_str()), ("not_measured", ""));
    assert!(release_budget_rows_from_report("{}").is_empty());
    assert!(release_budget_rows_from_report("not json").is_empty());
}
