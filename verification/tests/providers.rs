use persona_pilot::desktop::providers::{
    build_provider_production_readiness, provider_readiness_item, provider_readiness_specs,
};

fn readiness_with(present: &[(&str, &str)]) -> persona_pilot::desktop::types::DesktopProviderProductionReadiness {
    let items = provider_readiness_specs()
        .iter()
        .map(|spec| {
            let names: Vec<String> = spec
                .credential_env_keys
                .iter()
                .filter(|key| present.iter().any(|(k, v)| k == key && !v.trim().is_empty()))
                .cloned()
                .collect();
            provider_readiness_item(spec, names, None)
        })
        .collect();
    build_provider_production_readiness("1700000000".to_string(), items)
}

#[test]
fn provider_production_readiness_reports_contract_blocks_without_claiming_closure() {
    let readiness = readiness_with(&[]);
    assert_eq!(readiness.status, "blocked");
    assert_eq!(readiness.ready_count, 0);
    assert_eq!(readiness.blocked_count, 3);
    assert_eq!(readiness.items.len(), 3);
    assert!(readiness.items.iter().all(|item| item.status == "blocked"));
    assert!(readiness.items.iter().all(|item| item.configured_provider_count == 0));
    assert!(readiness.items.iter().all(|item| item.dry_run_available));
    assert!(readiness.items.iter().all(|item| item.failure_taxonomy_status == "present"));
    assert!(readiness.items.iter().all(|item| !item.failure_taxonomy.is_empty()));

    let with_captcha_credential = readiness_with(&[("CAPSOLVER_API_KEY", "test-key")]);
    let captcha = with_captcha_credential
        .items
        .iter()
        .find(|item| item.domain == "captcha")
        .expect("captcha readiness item");
    assert_eq!(captcha.credential_status, "configured");
    assert_eq!(captcha.status, "configured_but_blocked");
    assert!(captcha.blockers.iter().any(|blocker| blocker.contains("production manager wiring")));
    assert_eq!(captcha.dry_run_status, "contract_available");
    assert!(captcha.failure_taxonomy.iter().any(|item| item == "token_fill_not_wired"));
    assert_eq!(with_captcha_credential.ready_count, 0);
}

#[test]
fn readiness_specs_cover_three_domains() {
    let specs = provider_readiness_specs();
    let domains: Vec<&str> = specs.iter().map(|s| s.domain.as_str()).collect();
    assert_eq!(domains, vec!["captcha", "sms", "email"]);
    assert!(specs[0].credential_env_keys.iter().any(|k| k == "CAPSOLVER_API_KEY"));
    let readiness = readiness_with(&[]);
    assert_eq!(
        readiness.summary,
        "Provider production readiness: 0 ready, 3 blocked; real provider acceptance is required before closure."
    );
}
