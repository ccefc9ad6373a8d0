use persona_pilot::desktop::settings::{
    build_desktop_local_api_snapshot, default_desktop_browser_environment_policy,
    default_desktop_local_api_settings, default_desktop_runtime_settings, effective_browser_environment_policy_from,
    effective_local_api_settings_from, effective_runtime_settings_from, local_api_snapshot_from,
    validate_browser_environment_policy_draft,
    validate_local_api_settings_draft, validate_runtime_settings_draft, SettingsError,
};

#[test]
fn runtime_drafts_are_normalized_or_refused() {
    let mut d = default_desktop_runtime_settings();
    assert_eq!(d.runner_kind, "fake");
    d.runner_kind = " LightPanda ".to_string();
    d.reclaim_after_seconds = Some(0);
    let v = validate_runtime_settings_draft(d.clone()).unwrap();
    assert_eq!(v.runner_kind, "lightpanda");
    assert_eq!(v.reclaim_after_seconds, None);
    let mut bad = d.clone();
    bad.runner_kind = "chrome".to_string();
    assert_eq!(
        validate_runtime_settings_draft(bad).unwrap_err(),
        SettingsError::UnsupportedRunnerKind { given: "chrome".to_string() }
    );
    let mut bad = d.clone();
    bad.worker_count = 0;
    assert_eq!(validate_runtime_settings_draft(bad).unwrap_err(), SettingsError::WorkerCountZero);
    let mut bad = d.clone();
    bad.idle_backoff_min_ms = 5000;
    bad.idle_backoff_max_ms = 10;
    assert_eq!(validate_runtime_settings_draft(bad).unwrap_err(), SettingsError::IdleBackoffInverted);
    // Validating what validation returned changes nothing.
    let again = validate_runtime_settings_draft(v.clone()).unwrap();
    assert_eq!(again.runner_kind, v.runner_kind);
}

#[test]
fn local_api_drafts_stay_on_loopback() {
    let d = default_desktop_local_api_settings();
    assert!(validate_local_api_settings_draft(d.clone()).is_ok());
    let mut bad = d.clone();
    bad.host = "0.0.0.0".to_string();
    assert_eq!(validate_local_api_settings_draft(bad).unwrap_err(), SettingsError::HostNotLoopback);
    let mut bad = d.clone();
    bad.max_concurrent_sessions = 33;
    assert_eq!(validate_local_api_settings_draft(bad).unwrap_err(), SettingsError::MaxConcurrentSessionsOutOfRange);
    let mut ok = d.clone();
    ok.host = " LOCALHOST ".to_string();
    ok.auth_mode = "Loopback_Token".to_string();
    let v = validate_local_api_settings_draft(ok).unwrap();
    assert_eq!((v.host.as_str(), v.auth_mode.as_str()), ("localhost", "loopback_token"));
    let snapshot = build_desktop_local_api_snapshot(&v, "/data/control/desktop_local_api_settings.json", "17");
    assert_eq!(snapshot.base_url, "http://localhost:3000");
    assert_eq!(snapshot.health_url, "http://localhost:3000/health");
    assert_eq!(snapshot.bind_mode, "loopback_only");
}

#[test]
fn browser_policy_defaults_are_valid() {
    let d = default_desktop_browser_environment_policy();
    let v = validate_browser_environment_policy_draft(d.clone()).unwrap();
    assert_eq!(v.browser_family, "chrome");
    let mut bad = d;
    bad.default_viewport_preset = "tv_8k".to_string();
    assert!(matches!(
        validate_browser_environment_policy_draft(bad),
        Err(SettingsError::UnsupportedViewportPreset { .. })
    ));
}

#[test]
fn missing_or_invalid_settings_fall_back_to_defaults() {
    let defaults = default_desktop_runtime_settings();
    let none = effective_runtime_settings_from(None);
    assert_eq!((none.runner_kind.as_str(), none.worker_count, none.claim_retry_limit), ("fake", 1, 8));
    let mut bad = defaults.clone();
    bad.worker_count = 0;
    bad.runner_kind = "lightpanda".to_string();
    let fallback = effective_runtime_settings_from(Some(bad));
    assert_eq!((fallback.runner_kind.as_str(), fallback.worker_count), ("fake", 1));
    let mut good = defaults.clone();
    good.runner_kind = " LightPanda ".to_string();
    good.worker_count = 3;
    good.reclaim_after_seconds = Some(0);
    let kept = effective_runtime_settings_from(Some(good));
    assert_eq!((kept.runner_kind.as_str(), kept.worker_count, kept.reclaim_after_seconds), ("lightpanda", 3, None));

    let api = effective_local_api_settings_from(None);
    assert_eq!((api.host.as_str(), api.port, api.max_concurrent_sessions), ("127.0.0.1", 3000, 4));
    let mut open_host = default_desktop_local_api_settings();
    open_host.host = "0.0.0.0".to_string();
    open_host.port = 8080;
    let api = effective_local_api_settings_from(Some(open_host));
    assert_eq!((api.host.as_str(), api.port), ("127.0.0.1", 3000));

    let mut odd = default_desktop_browser_environment_policy();
    odd.browser_family = "firefox".to_string();
    odd.headless_allowed = true;
    let policy = effective_browser_environment_policy_from(Some(odd));
    assert_eq!((policy.browser_family.as_str(), policy.headless_allowed), ("chrome", false));
}

#[test]
fn applied_browser_policy_reads_back_normalized() {
    let mut draft = default_desktop_browser_environment_policy();
    draft.browser_family = " Edge ".to_string();
    draft.launch_strategy = "CLEAN_BOOTSTRAP".to_string();
    draft.profile_storage_mode = "shared_workspace ".to_string();
    draft.default_viewport_preset = "Laptop_1440".to_string();
    draft.allow_extensions = false;
    draft.headless_allowed = true;
    let applied = validate_browser_environment_policy_draft(draft).unwrap();
    let read = effective_browser_environment_policy_from(Some(applied));
    assert_eq!(read.browser_family, "edge");
    assert_eq!(read.launch_strategy, "clean_bootstrap");
    assert_eq!(read.profile_storage_mode, "shared_workspace");
    assert_eq!(read.default_viewport_preset, "laptop_1440");
    assert!(!read.allow_extensions);
    assert!(read.headless_allowed);
    assert!(read.keep_user_data_between_runs);
}

#[test]
fn local_api_snapshot_uses_file_or_defaults() {
    let snapshot = local_api_snapshot_from(None, "/data/control/desktop_local_api_settings.json", "5");
    assert_eq!(snapshot.base_url, "http://127.0.0.1:3000");
    assert_eq!(snapshot.health_url, "http://127.0.0.1:3000/health");
    assert_eq!(snapshot.config_path, "/data/control/desktop_local_api_settings.json");
    assert_eq!(snapshot.max_concurrent_sessions, 4);
    let mut draft = default_desktop_local_api_settings();
    draft.host = "LocalHost".to_string();
    draft.port = 4100;
    draft.max_concurrent_sessions = 32;
    let snapshot = local_api_snapshot_from(Some(draft.clone()), "cfg", "6");
    assert_eq!(snapshot.base_url, "http://localhost:4100");
    assert_eq!(snapshot.max_concurrent_sessions, 32);
    draft.max_concurrent_sessions = 0;
    let snapshot = local_api_snapshot_from(Some(draft), "cfg", "7");
    assert_eq!((snapshot.host.as_str(), snapshot.port, snapshot.bind_mode.as_str()), ("127.0.0.1", 3000, "loopback_only"));
}
