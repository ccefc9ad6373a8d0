use persona_pilot::desktop::report_json::{
    parse_evidence_report_fields, provider_acceptance_entry, report_text_at, report_text_parses, text_list_at,
};

const REPORT: &str = r#"{
    "generatedAt": "1700000000",
    "status": "passed",
    "summary": {"passed": 3, "failed": 0, "nextAction": "ship"},
    "items": [1, 2, 3],
    "observed": {"exitIp": "203.0.113.7"},
    "crossMachineComplete": true,
    "desktopProfileDeltaMinutes": 1.256,
    "realBinaryTask": {
        "status": "succeeded",
        "action": null,
        "validationProbe": {"signalCount": 4, "categories": ["tls", 7, "dns"]},
        "result": {"final_url": "https://example.com/", "validation_signals": [
            {"status": "ok", "category": "tls"}, "odd"
        ]}
    },
    "categoryComparison": [{"category": "tls", "status": "match"}],
    "mitigationHints": ["a", "b"],
    "healthSummary": {"status": "green"}
}"#;

#[test]
fn evidence_report_text_is_read_key_by_key() {
    assert!(report_text_parses(REPORT));
    let f = parse_evidence_report_fields(REPORT);
    assert_eq!(f.generated_at.as_deref(), Some("1700000000"));
    assert_eq!(f.status.as_deref(), Some("passed"));
    assert_eq!(f.summary_passed, Some(3));
    assert_eq!(f.summary_failed, Some(0));
    assert_eq!(f.summary_next_action.as_deref(), Some("ship"));
    assert_eq!(f.items_count, Some(3));
    assert_eq!(f.observed_exit_ip.as_deref(), Some("203.0.113.7"));
    assert_eq!(f.cross_machine_complete, Some(true));
    assert_eq!(f.desktop_profile_delta_minutes.as_deref(), Some("1.26"));
    assert_eq!(f.operator_status, None);
    let task = f.real_binary_task.expect("task");
    assert_eq!(task.status.as_deref(), Some("succeeded"));
    assert_eq!(task.action, Some(None));
    assert_eq!(task.final_url, None);
    let probe = task.validation_probe.expect("probe");
    assert_eq!(probe.signal_count, Some(4));
    assert_eq!(probe.warning_count, None);
    assert_eq!(probe.categories, Some(vec!["tls".to_string(), "dns".to_string()]));
    let result = task.result.expect("result");
    assert_eq!(result.final_url, Some(Some("https://example.com/".to_string())));
    assert_eq!(result.action, None);
    let signals = result.validation_signals.expect("signals");
    assert_eq!(signals.len(), 2);
    assert_eq!(signals[0].status.as_deref(), Some("ok"));
    assert_eq!(signals[1].category, None);
    let comparison = f.category_comparison.expect("comparison");
    assert_eq!(comparison[0].status.as_deref(), Some("match"));
    assert!(f.repeatability.is_none());
    assert_eq!(report_text_at(REPORT, "/healthSummary/status").as_deref(), Some("green"));
    assert_eq!(text_list_at(REPORT, "/mitigationHints"), Some(vec!["a".to_string(), "b".to_string()]));
}

#[test]
fn text_that_is_not_json_gives_no_fields() {
    assert!(!report_text_parses("{not json"));
    let f = parse_evidence_report_fields("{not json");
    assert_eq!(f.status, None);
    assert_eq!(f.items_count, None);
    assert!(f.real_binary_task.is_none());
}

#[test]
fn acceptance_entry_is_the_first_with_the_domain() {
    let report = r#"{"items": [
        {"domain": "sms", "providerName": "first"},
        {"domain": "email", "providerName": "mailer", "dryRunAvailable": true, "dryRunContract": ["a", 1, "b"]},
        {"domain": "email", "providerName": "second"}
    ]}"#;
    let item = provider_acceptance_entry(report, "email").expect("email entry");
    assert_eq!(item.provider_name.as_deref(), Some("mailer"));
    assert_eq!(item.dry_run_available, Some(true));
    assert_eq!(item.dry_run_contract, vec!["a".to_string(), "b".to_string()]);
    assert!(item.failure_taxonomy.is_empty());
    assert!(provider_acceptance_entry(report, "captcha").is_none());
    assert!(provider_acceptance_entry(r#"{"items": 3}"#, "sms").is_none());
}
