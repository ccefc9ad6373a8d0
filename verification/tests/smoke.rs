use persona_pilot::smoke::{
    cdp_version_endpoint, http_json_body, is_profile_browser_runtime_signal, SmokeHttpError, overall_status, parse_args, parse_local_http_url,
    runner_status, summarize_attempt, unique_categories, LocalUrlError, RunnerExecutionResult,
    RunnerOutcomeStatus, SmokeArgsError, SmokeAttempt, SmokeCommand, ValidationSignal,
};

fn signal(category: Option<&str>, detail: Option<&str>) -> ValidationSignal {
    ValidationSignal {
        category: category.map(str::to_string),
        detail: detail.map(str::to_string),
        raw: "{}".to_string(),
    }
}

#[test]
fn profile_runtime_signal_requires_runtime_scope_detail() {
    assert!(is_profile_browser_runtime_signal(&signal(
        None,
        Some("scope=profile-browser-runtime; collector=cdp-runtime-evaluate")
    )));
    assert!(!is_profile_browser_runtime_signal(&signal(
        None,
        Some("scope=fake-runner; target-profile-browser=false")
    )));
}

#[test]
fn overall_status_keeps_blocked_separate_from_passed() {
    let passed = SmokeAttempt {
        attempt: 1,
        runner: "lightpanda".to_string(),
        status: "succeeded".to_string(),
        evidence_status: "passed".to_string(),
        failure_reason: None,
        signal_count: 1,
        categories: vec!["webrtc".to_string()],
        signals: vec![],
        raw_result: None,
    };
    let blocked = SmokeAttempt {
        evidence_status: "blocked".to_string(),
        ..passed.clone()
    };
    assert_eq!(overall_status(&vec![passed.clone(), passed]), "passed");
    assert_eq!(overall_status(&vec![blocked.clone(), blocked]), "blocked");
}

#[test]
fn overall_status_mixed_attempts_warn() {
    let base = SmokeAttempt {
        attempt: 1,
        runner: "lightpanda".to_string(),
        status: "succeeded".to_string(),
        evidence_status: "passed".to_string(),
        failure_reason: None,
        signal_count: 0,
        categories: vec![],
        signals: vec![],
        raw_result: None,
    };
    let blocked = SmokeAttempt { evidence_status: "blocked".to_string(), ..base.clone() };
    assert_eq!(overall_status(&vec![base, blocked]), "warning");
    assert_eq!(overall_status(&vec![]), "passed");
}

fn args(words: &[&str]) -> Vec<String> {
    words.iter().map(|w| w.to_string()).collect()
}

#[test]
fn smoke_args_defaults_and_overrides() {
    match parse_args(vec![]) {
        Ok(SmokeCommand::Run(c)) => {
            assert_eq!(c.url, "https://example.com/");
            assert_eq!(c.repetitions, 2);
            assert_eq!(c.timeout_seconds, 20);
            assert_eq!(c.output_dir, "data/reports/validation-smoke");
            assert_eq!(c.profile_id, None);
            assert!(!c.use_wsl_lightpanda);
            assert_eq!(c.wsl_distro, "HermesUbuntu");
            assert_eq!(c.wsl_cdp_port, 9222);
        }
        other => panic!("unexpected {:?}", other),
    }
    match parse_args(args(&[
        "--use-wsl-lightpanda",
        "--url",
        "http://127.0.0.1:8080/x",
        "--repetitions",
        "3",
        "--timeout-seconds",
        "45",
        "--profile-id",
        "p1",
        "--wsl-cdp-port",
        "9333",
    ])) {
        Ok(SmokeCommand::Run(c)) => {
            assert!(c.use_wsl_lightpanda);
            assert_eq!(c.url, "http://127.0.0.1:8080/x");
            assert_eq!(c.repetitions, 3);
            assert_eq!(c.timeout_seconds, 45);
            assert_eq!(c.profile_id.as_deref(), Some("p1"));
            assert_eq!(c.wsl_cdp_port, 9333);
        }
        other => panic!("unexpected {:?}", other),
    }
}

#[test]
fn smoke_args_refusals() {
    assert!(matches!(parse_args(args(&["--url"])), Err(SmokeArgsError::MissingValue { key }) if key == "--url"));
    assert!(matches!(parse_args(args(&["--repetitions", "x"])), Err(SmokeArgsError::InvalidRepetitions)));
    assert!(matches!(parse_args(args(&["--repetitions", "11"])), Err(SmokeArgsError::RepetitionsOutOfRange)));
    assert!(matches!(parse_args(args(&["--repetitions", "0"])), Err(SmokeArgsError::RepetitionsOutOfRange)));
    assert!(matches!(parse_args(args(&["--timeout-seconds", "121"])), Err(SmokeArgsError::TimeoutOutOfRange)));
    assert!(matches!(parse_args(args(&["--timeout-seconds", "-"])), Err(SmokeArgsError::InvalidTimeoutSeconds)));
    assert!(matches!(parse_args(args(&["--wsl-cdp-port", "70000"])), Err(SmokeArgsError::InvalidWslCdpPort)));
    assert!(matches!(parse_args(args(&["--url", "ftp://x"])), Err(SmokeArgsError::UnsupportedUrlScheme)));
    assert!(matches!(parse_args(args(&["--bogus", "1"])), Err(SmokeArgsError::UnknownArgument { key }) if key == "--bogus"));
    assert!(matches!(parse_args(args(&["--help", "x"])), Ok(SmokeCommand::Help)));
    assert!(matches!(parse_args(args(&["--help"])), Err(SmokeArgsError::MissingValue { .. })));
    assert_eq!(SmokeArgsError::TimeoutOutOfRange.message(), "--timeout-seconds must be between 1 and 120");
}

#[test]
fn local_probe_url_splits_host_port_and_path() {
    let (host, port, path) = parse_local_http_url("http://127.0.0.1:9222/json/version").unwrap();
    assert_eq!(host, "127.0.0.1");
    assert_eq!(port, 9222);
    assert_eq!(path, "/json/version");
    let (host, port, path) = parse_local_http_url("http://[::1]:80").unwrap();
    assert_eq!(host, "[::1]");
    assert_eq!(port, 80);
    assert_eq!(path, "/");
    assert!(matches!(parse_local_http_url("https://a:1/"), Err(LocalUrlError::UnsupportedScheme)));
    assert!(matches!(parse_local_http_url("http://localhost/x"), Err(LocalUrlError::MissingPort)));
    assert!(matches!(parse_local_http_url("http://localhost:99999/"), Err(LocalUrlError::InvalidPort)));
}

#[test]
fn attempts_grade_their_evidence() {
    let runtime = signal(Some("webrtc"), Some("scope=profile-browser-runtime"));
    let other = signal(Some("canvas"), Some("scope=fake-runner"));
    let passed = summarize_attempt(
        1,
        "lightpanda",
        RunnerExecutionResult {
            status: RunnerOutcomeStatus::Succeeded,
            error_message: None,
            validation_signals: Some(vec![runtime.clone(), other.clone(), runtime.clone()]),
            result_json: Some("{}".to_string()),
        },
    );
    assert_eq!(passed.evidence_status, "passed");
    assert_eq!(passed.status, "succeeded");
    assert_eq!(passed.signal_count, 3);
    assert_eq!(passed.categories, vec!["canvas".to_string(), "webrtc".to_string()]);
    let blocked = summarize_attempt(
        2,
        "lightpanda",
        RunnerExecutionResult {
            status: RunnerOutcomeStatus::Failed,
            error_message: Some("cdp unreachable".to_string()),
            validation_signals: None,
            result_json: None,
        },
    );
    assert_eq!(blocked.evidence_status, "blocked");
    assert_eq!(blocked.status, "failed");
    assert_eq!(blocked.failure_reason.as_deref(), Some("cdp unreachable"));
    let warning = summarize_attempt(
        3,
        "lightpanda",
        RunnerExecutionResult {
            status: RunnerOutcomeStatus::Succeeded,
            error_message: None,
            validation_signals: Some(vec![other]),
            result_json: None,
        },
    );
    assert_eq!(warning.evidence_status, "warning");
    assert_eq!(runner_status(RunnerOutcomeStatus::TimedOut), "timed_out");
    assert_eq!(
        unique_categories(&vec![signal(Some("b"), None), signal(None, None), signal(Some("a"), None), signal(Some("b"), None)]),
        vec!["a".to_string(), "b".to_string()]
    );
}

#[test]
fn local_http_json_bodies_are_checked() {
    let ok = "HTTP/1.1 200 OK\r\nContent-Type: application/json\r\n\r\n{\"Browser\":\"Lightpanda\"}";
    assert_eq!(http_json_body(ok).unwrap(), "{\"Browser\":\"Lightpanda\"}");
    assert_eq!(http_json_body("HTTP/1.1 404 Not Found\r\n\r\n{}").unwrap_err(), SmokeHttpError::NotOk);
    assert_eq!(http_json_body("HTTP/1.0 200 OK\r\nX: y").unwrap_err(), SmokeHttpError::NoBody);
    assert_eq!(http_json_body("HTTP/1.1 200 OK\r\n\r\nnot json").unwrap_err(), SmokeHttpError::DecodeJson);
    // The body ends at the next blank line, as splitting on it does.
    assert_eq!(http_json_body("HTTP/1.1 200 OK\r\n\r\n[1]\r\n\r\ntrailer").unwrap(), "[1]");
}

#[test]
fn cdp_version_names_the_debugger_endpoint() {
    let r = "HTTP/1.1 200 OK\r\n\r\n{\"webSocketDebuggerUrl\":\"ws://127.0.0.1:9222/\"}";
    assert_eq!(cdp_version_endpoint(r).unwrap(), "ws://127.0.0.1:9222/");
    let blank = "HTTP/1.1 200 OK\r\n\r\n{\"webSocketDebuggerUrl\":\"  \"}";
    assert_eq!(cdp_version_endpoint(blank).unwrap_err(), SmokeHttpError::NoDebuggerUrl);
    assert_eq!(
        cdp_version_endpoint("HTTP/1.1 200 OK\r\n\r\n{}").unwrap_err().message(),
        "WSL Lightpanda /json/version did not expose webSocketDebuggerUrl"
    );
    assert_eq!(cdp_version_endpoint("HTTP/1.1 500 Oops\r\n\r\n{}").unwrap_err(), SmokeHttpError::NotOk);
}
