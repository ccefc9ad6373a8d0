use persona_pilot::desktop::fingerprint::{
    consistency_status_name, fingerprint_runtime_support, validation_issue_text, ConsistencyStatus,
};

fn strings(items: &[&str]) -> Vec<String> {
    items.iter().map(|s| s.to_string()).collect()
}

#[test]
fn runtime_support_splits_declared_fields_in_order() {
    let declared = strings(&["navigator.userAgent", "screen.width", "webgl.vendor", "navigator.language"]);
    let supported = strings(&["navigator.language", "navigator.userAgent", "timezone"]);
    let s = fingerprint_runtime_support(&declared, &supported);
    assert_eq!(s.supported_fields, strings(&["navigator.userAgent", "navigator.language"]));
    assert_eq!(s.unsupported_fields, strings(&["screen.width", "webgl.vendor"]));
    assert_eq!(s.supported_count, 2);
    assert_eq!(s.unsupported_count, 2);

    let none = fingerprint_runtime_support(&Vec::new(), &supported);
    assert_eq!(none.supported_count + none.unsupported_count, 0);
}

#[test]
fn consistency_status_names() {
    assert_eq!(consistency_status_name(ConsistencyStatus::ExactMatch), "exact_match");
    assert_eq!(consistency_status_name(ConsistencyStatus::SoftMatch), "soft_match");
    assert_eq!(consistency_status_name(ConsistencyStatus::Mismatch), "mismatch");
    assert_eq!(consistency_status_name(ConsistencyStatus::MissingContext), "missing_context");
    assert_eq!(consistency_status_name(ConsistencyStatus::SuspiciousCombination), "suspicious_combination");
}

#[test]
fn validation_issue_text_skips_blank_parts() {
    assert_eq!(
        validation_issue_text("navigator.platform", "error", "must match user agent"),
        "navigator.platform | error | must match user agent"
    );
    assert_eq!(validation_issue_text("  ", "warning", "timezone missing"), "warning | timezone missing");
    assert_eq!(validation_issue_text("screen", "", " "), "screen");
    assert_eq!(validation_issue_text("", "", ""), "");
}
