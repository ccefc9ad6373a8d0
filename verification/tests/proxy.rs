use persona_pilot::desktop::proxy::{
    build_proxy_residency_status, build_proxy_rotation_mode, classify_provider_response,
    derive_change_proxy_ip_status, missing_credentials_write, parse_ts_i64, plan_proxy_rotation,
    provider_method_supported, provider_rotation_config_from_source, provider_token_usable,
    requested_proxy_id, settle_proxy_rotation, status_code_text, sticky_ttl_seconds_from_expires_at,
    unsupported_method_write, unsupported_provider_config_write, ProviderResponseBody,
    ProviderRotationConfigFields, ProviderRotationConfigSource, ProxyRotationProviderConfig,
    ProxyRotationTarget, ProxySessionBindingRow, ProxyLatestBinding, proxy_usage_summary,
    provider_risk_version_status, parse_proxy_rotation_provider_config, parse_provider_response_body,
    parse_rotation_config_source,
};
use persona_pilot::desktop::types::DesktopProxyChangeIpRequest;

#[test]
fn timestamps_and_sticky_ttl() {
    assert_eq!(parse_ts_i64(Some(" 1700000000 ")), Some(1_700_000_000));
    assert_eq!(parse_ts_i64(Some("soon")), None);
    assert_eq!(parse_ts_i64(None), None);
    assert_eq!(sticky_ttl_seconds_from_expires_at(Some("1300"), 1000), Some(300));
    assert_eq!(sticky_ttl_seconds_from_expires_at(Some("1000"), 1000), None);
    assert_eq!(sticky_ttl_seconds_from_expires_at(None, 1000), None);
}

#[test]
fn residency_status_covers_each_state() {
    let r = |session: Option<&str>, expires: Option<&str>, status: Option<&str>, rp: Option<&str>, pp: Option<&str>, rr: Option<&str>, pr: Option<&str>| {
        build_proxy_residency_status(session, expires, status, rp, pp, rr, pr, 1000)
    };
    assert_eq!(r(Some("s"), None, Some("disabled"), None, None, None, None), "proxy_inactive");
    assert_eq!(r(Some("s"), None, None, None, None, None, None), "proxy_inactive");
    assert_eq!(r(None, None, Some("ACTIVE"), Some("p"), None, None, None), "provider_rotation_pending");
    assert_eq!(r(None, None, Some("active"), None, None, None, None), "stateless_rotation");
    assert_eq!(r(Some("s"), Some("999"), Some("active"), None, None, None, None), "sticky_expired");
    assert_eq!(r(Some("s"), Some("2000"), Some("active"), Some("a"), Some(" b"), None, None), "provider_override_pending");
    assert_eq!(r(Some("s"), Some("2000"), Some("active"), Some("a"), Some(" a "), Some("us"), Some("eu")), "region_override_pending");
    assert_eq!(r(Some("s"), Some("2000"), Some("active"), None, None, None, None), "sticky_active");
    assert_eq!(r(Some("s"), None, Some("active"), None, None, None, None), "sticky_unbounded");
}

#[test]
fn rotation_mode_and_status() {
    assert_eq!(build_proxy_rotation_mode(Some("custom"), Some("s"), "sticky_expired", None, None), "custom");
    assert_eq!(build_proxy_rotation_mode(None, Some("s"), "sticky_expired", None, None), "sticky_rebind");
    assert_eq!(build_proxy_rotation_mode(None, Some("s"), "sticky_active", None, None), "sticky_refresh");
    assert_eq!(build_proxy_rotation_mode(None, None, "stateless_rotation", None, Some("us")), "provider_aware_rotate");
    assert_eq!(build_proxy_rotation_mode(None, None, "stateless_rotation", None, None), "pool_rotate");
    assert_eq!(derive_change_proxy_ip_status("sticky_refresh"), "queued_sticky_rotation");
    assert_eq!(derive_change_proxy_ip_status("pool_rotate"), "queued_provider_rotation");
}

fn empty_fields() -> ProviderRotationConfigFields {
    ProviderRotationConfigFields {
        endpoint: None,
        rotation_endpoint: None,
        rotation_endpoint_snake: None,
        method: None,
        token_env: None,
        token_env_snake: None,
        auth_token_env: None,
        auth_token_env_snake: None,
        cooldown_seconds: None,
        cooldown_seconds_snake: None,
    }
}

#[test]
fn parses_provider_rotation_config_from_harvest_source_json() {
    let config = parse_proxy_rotation_provider_config(Some(
        r#"{
                "providerRotation": {
                    "endpoint": "https://provider.example/rotate",
                    "method": "POST",
                    "tokenEnv": "PROVIDER_TOKEN",
                    "cooldownSeconds": 60
                }
            }"#,
    ))
    .expect("parse provider rotation config");

    assert_eq!(config.endpoint, "https://provider.example/rotate");
    assert_eq!(config.method, "POST");
    assert_eq!(config.token_env.as_deref(), Some("PROVIDER_TOKEN"));
    assert_eq!(config.cooldown_seconds, Some(60));
}

#[test]
fn provider_config_fallbacks() {
    let mut root = empty_fields();
    root.rotation_endpoint_snake = Some(" https://p/rotate ".to_string());
    root.method = Some("put".to_string());
    root.auth_token_env_snake = Some("TOKEN".to_string());
    root.cooldown_seconds = Some(0);
    root.cooldown_seconds_snake = Some(15);
    let config = provider_rotation_config_from_source(&ProviderRotationConfigSource {
        provider_rotation: None,
        provider_rotation_snake: None,
        root,
    })
    .unwrap();
    assert_eq!(config.endpoint, "https://p/rotate");
    assert_eq!(config.method, "PUT");
    assert_eq!(config.token_env.as_deref(), Some("TOKEN"));
    assert_eq!(config.cooldown_seconds, Some(15));
    assert!(provider_rotation_config_from_source(&ProviderRotationConfigSource {
        provider_rotation: Some(empty_fields()),
        provider_rotation_snake: None,
        root: {
            let mut r = empty_fields();
            r.endpoint = Some("https://ignored".to_string());
            r
        },
    })
    .is_none());
}

fn config() -> ProxyRotationProviderConfig {
    ProxyRotationProviderConfig {
        endpoint: "https://p/rotate".to_string(),
        method: "POST".to_string(),
        token_env: None,
        cooldown_seconds: Some(30),
    }
}

fn empty_body() -> ProviderResponseBody {
    ProviderResponseBody {
        message: None,
        detail: None,
        rollback_proxy_id: None,
        rollback_proxy_id_snake: None,
        cooldown_seconds: None,
        cooldown_seconds_snake: None,
    }
}

#[test]
fn provider_answers_are_classified() {
    let mut body = empty_body();
    body.rollback_proxy_id_snake = Some(" proxy-old ".to_string());
    let ok = classify_provider_response(&config(), 200, None, &body);
    assert_eq!(ok.phase, "success");
    assert_eq!(ok.status, "committed");
    assert_eq!(ok.message, "200 OK");
    assert_eq!(ok.rollback_proxy_id.as_deref(), Some("proxy-old"));
    assert_eq!(ok.cooldown_seconds, Some(30));
    assert!(!ok.retryable);
    let mut body = empty_body();
    body.detail = Some("slow down".to_string());
    body.cooldown_seconds = Some(90);
    let limited = classify_provider_response(&config(), 429, Some(" 120 "), &body);
    assert_eq!(limited.phase, "blocked");
    assert_eq!(limited.status, "provider_retry_required");
    assert_eq!(limited.provider_write_status, "retryable_provider_error");
    assert_eq!(limited.message, "slow down");
    assert_eq!(limited.retry_after_seconds, Some(120));
    assert_eq!(limited.cooldown_seconds, Some(120));
    assert!(limited.retryable);
    let rejected = classify_provider_response(&config(), 404, Some("x"), &empty_body());
    assert_eq!(rejected.phase, "error");
    assert_eq!(rejected.status, "provider_write_rejected");
    assert_eq!(rejected.message, "404 Not Found");
    assert_eq!(rejected.cooldown_seconds, Some(30));
    assert!(!rejected.retryable);
    assert_eq!(status_code_text(599), "599 <unknown status code>");
}

#[test]
fn provider_write_refusals() {
    assert!(provider_method_supported("PATCH"));
    assert!(!provider_method_supported("GET"));
    let mut c = config();
    c.method = "GET".to_string();
    let w = unsupported_method_write(&c);
    assert_eq!(w.message, "provider rotation method GET is not supported");
    assert!(!w.retryable);
    let w = missing_credentials_write(&config(), "TOKEN");
    assert_eq!(w.phase, "blocked");
    assert_eq!(w.message, "provider rotation credential environment variable TOKEN is not set");
    assert!(provider_token_usable(Some("abc")));
    assert!(!provider_token_usable(Some("   ")));
    assert!(!provider_token_usable(None));
}

fn request(session: Option<&str>, ttl: Option<i64>) -> DesktopProxyChangeIpRequest {
    DesktopProxyChangeIpRequest {
        proxy_id: " proxy-1 ".to_string(),
        mode: None,
        session_key: session.map(str::to_string),
        requested_provider: None,
        requested_region: None,
        sticky_ttl_seconds: ttl,
    }
}

#[test]
fn change_proxy_ip_plan_blocks_unsupported_provider_config_with_retry_metadata() {
    let target = ProxyRotationTarget {
        provider: Some("provider-a".to_string()),
        region: Some("us-east".to_string()),
        status: "active".to_string(),
    };
    let req = DesktopProxyChangeIpRequest {
        proxy_id: "proxy-rotation-test".to_string(),
        mode: Some("sticky".to_string()),
        session_key: Some("session-rotation-test".to_string()),
        requested_provider: Some("provider-b".to_string()),
        requested_region: Some("us-west".to_string()),
        sticky_ttl_seconds: Some(300),
    };
    let proxy_id = requested_proxy_id(&req).unwrap();
    assert_eq!(proxy_id, "proxy-rotation-test");
    let plan = plan_proxy_rotation(&req, &target, &None, 1000);
    assert_eq!(plan.expires_at.as_deref(), Some("1300"));
    assert_eq!(plan.rotation_status, "queued_sticky_rotation");
    let settled = settle_proxy_rotation(&proxy_id, plan, false, unsupported_provider_config_write(), "task-1", 1000, "1000");
    let result = &settled.result;
    assert_eq!(result.proxy_id, "proxy-rotation-test");
    assert_eq!(result.phase, "blocked");
    assert_eq!(result.status, "unsupported_provider_config");
    assert_eq!(result.provider_config_status, "unsupported_provider_config");
    assert_eq!(result.provider_write_status, "unsupported_provider_config");
    assert_eq!(result.rotation_mode, "sticky");
    assert_eq!(result.residency_status, "provider_override_pending");
    assert_eq!(result.session_key.as_deref(), Some("session-rotation-test"));
    assert_eq!(result.requested_provider.as_deref(), Some("provider-b"));
    assert_eq!(result.requested_region.as_deref(), Some("us-west"));
    assert_eq!(result.sticky_ttl_seconds, Some(300));
    assert!(!result.rollback.available);
    assert_eq!(result.rollback.rollback_proxy_id, None);
    assert!(!result.cooldown.required);
    assert_eq!(result.cooldown.cooldown_until, None);
    assert!(result.retry.retryable);
    assert_eq!(result.retry.requires, "provider_rotation_config");
    assert!(result.message.contains("Blocked provider-aware change-IP task"));
    assert_eq!(
        result.note,
        "Prepared sticky with residency provider_override_pending; session=session-rotation-test, requested provider=provider-b, requested region=us-west."
    );
    assert_eq!(settled.task_status, "blocked");
    assert_eq!(settled.task_error_message.as_deref(), Some(result.message.as_str()));
    assert_eq!(settled.log_level, "WARN");
    assert!(!settled.committed);
}

#[test]
fn committed_rotation_with_binding() {
    let target = ProxyRotationTarget { provider: None, region: None, status: "active".to_string() };
    let binding = ProxySessionBindingRow {
        session_key: Some("bound".to_string()),
        provider: Some("p-bound".to_string()),
        region: None,
        requested_provider: None,
        requested_region: Some("eu".to_string()),
        expires_at: Some("900".to_string()),
    };
    let plan = plan_proxy_rotation(&request(None, None), &target, &Some(binding), 1000);
    assert_eq!(plan.session_key.as_deref(), Some("bound"));
    assert_eq!(plan.requested_provider.as_deref(), Some("p-bound"));
    assert_eq!(plan.requested_region.as_deref(), Some("eu"));
    assert_eq!(plan.expires_at.as_deref(), Some("900"));
    assert_eq!(plan.residency_status, "sticky_expired");
    assert_eq!(plan.rotation_mode, "sticky_rebind");
    assert_eq!(plan.sticky_ttl_seconds, None);
    let mut body = empty_body();
    body.message = Some("rotated".to_string());
    let write = classify_provider_response(&config(), 201, None, &body);
    let settled = settle_proxy_rotation("proxy-1", plan, true, write, "task-2", 1000, "1000");
    assert_eq!(settled.task_status, "succeeded");
    assert_eq!(settled.task_error_message, None);
    assert!(settled.committed);
    assert_eq!(settled.result.cooldown.cooldown_until.as_deref(), Some("1030"));
    assert!(!settled.result.cooldown.required);
    assert_eq!(settled.result.rollback.reason, "provider committed rotation without rollback handle");
    assert_eq!(settled.result.retry.requires, "none");
    assert_eq!(settled.result.message, "Committed provider-aware change-IP task task-2: rotated.");
    assert_eq!(settled.log_message, format!("change proxy IP request success; {}", settled.result.note));
}

#[test]
fn proxy_usage_summary_reads_the_latest_binding() {
    let binding = ProxyLatestBinding {
        session_key: Some("sess-1".to_string()),
        requested_region: Some("us-east".to_string()),
        requested_provider: Some("pool-a".to_string()),
        expires_at: Some("2000".to_string()),
    };
    let u = proxy_usage_summary(2, 1, Some("900".to_string()), Some(binding), "active", Some("pool-a"), Some("us-east"), 1000);
    assert_eq!(u.linked_profile_count, 2);
    assert_eq!(u.active_session_count, 1);
    assert_eq!(u.last_used_at.as_deref(), Some("900"));
    assert_eq!(u.session_key.as_deref(), Some("sess-1"));
    assert_eq!(u.residency_status.as_deref(), Some("sticky_active"));
    assert_eq!(u.rotation_mode.as_deref(), Some("sticky_refresh"));
    assert_eq!(u.sticky_ttl_seconds, Some(1000));
    assert_eq!(u.expires_at.as_deref(), Some("2000"));

    let expired = ProxyLatestBinding {
        session_key: Some("sess-2".to_string()),
        requested_region: None,
        requested_provider: None,
        expires_at: Some("500".to_string()),
    };
    let u = proxy_usage_summary(1, 0, None, Some(expired), "active", None, None, 1000);
    assert_eq!(u.residency_status.as_deref(), Some("sticky_expired"));
    assert_eq!(u.rotation_mode.as_deref(), Some("sticky_rebind"));
    assert_eq!(u.sticky_ttl_seconds, None);

    let u = proxy_usage_summary(0, 0, None, None, "active", Some("pool-a"), None, 1000);
    assert_eq!(u.residency_status.as_deref(), Some("stateless_rotation"));
    assert_eq!(u.rotation_mode.as_deref(), Some("pool_rotate"));
    assert_eq!(u.session_key, None);

    let u = proxy_usage_summary(0, 0, None, None, "disabled", None, None, 1000);
    assert_eq!(u.residency_status.as_deref(), Some("proxy_inactive"));
}

#[test]
fn provider_risk_version_reports_aligned_stale_and_not_applicable() {
    assert_eq!(provider_risk_version_status(true, Some(1), Some(1)), "aligned");
    assert_eq!(provider_risk_version_status(true, Some(2), Some(1)), "stale");
    assert_eq!(provider_risk_version_status(true, Some(2), None), "stale");
    assert_eq!(provider_risk_version_status(true, None, Some(1)), "not_applicable");
    assert_eq!(provider_risk_version_status(false, Some(1), Some(1)), "not_applicable");
}

#[test]
fn rotation_config_text_reads_snake_keys_and_root_fallback() {
    let config = parse_proxy_rotation_provider_config(Some(
        r#"{"provider_rotation": {"rotation_endpoint": " https://p/rotate ", "method": "put", "auth_token_env": "T", "cooldown_seconds": 15}}"#,
    ))
    .unwrap();
    assert_eq!(config.endpoint, "https://p/rotate");
    assert_eq!(config.method, "PUT");
    assert_eq!(config.token_env.as_deref(), Some("T"));
    assert_eq!(config.cooldown_seconds, Some(15));
    let root = parse_proxy_rotation_provider_config(Some(r#"{"endpoint": "https://root/rotate"}"#)).unwrap();
    assert_eq!(root.endpoint, "https://root/rotate");
    assert_eq!(root.method, "POST");
    assert!(parse_proxy_rotation_provider_config(Some("not json")).is_none());
    assert!(parse_proxy_rotation_provider_config(None).is_none());
    assert!(parse_proxy_rotation_provider_config(Some(r#"{"providerRotation": {}, "endpoint": "x"}"#)).is_none());
    let source = parse_rotation_config_source(r#"{"providerRotation": "bad", "cooldownSeconds": 5}"#).unwrap();
    assert!(source.provider_rotation.is_some());
    assert_eq!(source.provider_rotation.unwrap().endpoint, None);
    assert_eq!(source.root.cooldown_seconds, Some(5));
    assert!(parse_rotation_config_source("[1,2").is_none());
}

#[test]
fn provider_answer_text_is_read_key_by_key() {
    let b = parse_provider_response_body(r#"{"message": "rate limited", "rollback_proxy_id": "px-9", "cooldownSeconds": 30}"#);
    assert_eq!(b.message.as_deref(), Some("rate limited"));
    assert_eq!(b.detail, None);
    assert_eq!(b.rollback_proxy_id, None);
    assert_eq!(b.rollback_proxy_id_snake.as_deref(), Some("px-9"));
    assert_eq!(b.cooldown_seconds, Some(30));
    let empty = parse_provider_response_body("<html>oops</html>");
    assert_eq!(empty.message, None);
    assert_eq!(empty.cooldown_seconds_snake, None);
}
