use persona_pilot::behavior::form::{
    build_form_action_summary, compile_form_action_plan, first_non_empty_with_source,
    heuristic_selector_for_role, normalize_form_input, normalize_mode, normalize_role,
    resolve_secret_alias, FormError, FormFieldInputRequest, FormFieldRoleSelector, FormInputRequest,
    FormSubmitInputRequest, FormSuccessInputRequest, RunnerExecutionIntent, SiteFormContract,
    FORM_ACTION_STATUS_BLOCKED, FORM_ACTION_STATUS_NOT_REQUESTED, FORM_ACTION_STATUS_RUNNING,
    FORM_ACTION_STATUS_SHADOW_ONLY, USERNAME_HEURISTIC_SELECTOR,
};

fn field(key: &str, role: &str) -> FormFieldInputRequest {
    FormFieldInputRequest {
        key: key.to_string(),
        role: role.to_string(),
        selector: None,
        required: None,
        sensitive: None,
        value: None,
        secret_ref: None,
        bundle_key: None,
    }
}

fn login_input() -> FormInputRequest {
    let mut user = field("user", "username");
    user.value = Some("\"alice\"".to_string());
    user.required = Some(true);
    let mut pass = field("pass", " password ");
    pass.secret_ref = Some("identity://login".to_string());
    pass.sensitive = Some(true);
    FormInputRequest {
        mode: " auth ".to_string(),
        form_selector: None,
        secret_bundle_ref: None,
        fields: vec![user, pass],
        submit: None,
        success: None,
    }
}

fn no_identity() -> RunnerExecutionIntent {
    RunnerExecutionIntent { identity_profile_id: None }
}

fn identity() -> RunnerExecutionIntent {
    RunnerExecutionIntent { identity_profile_id: Some("idp-1".to_string()) }
}

#[test]
fn modes_and_roles_are_trimmed_and_checked() {
    assert_eq!(normalize_mode(" form ").unwrap(), "form");
    assert!(matches!(normalize_mode("wizard"), Err(FormError::InvalidMode { given }) if given == "wizard"));
    assert_eq!(normalize_role("remember_me").unwrap(), "remember_me");
    assert!(matches!(normalize_role("captcha"), Err(FormError::InvalidRole { .. })));
    assert_eq!(resolve_secret_alias("identity://login").unwrap(), "login");
    assert!(matches!(resolve_secret_alias("identity://  "), Err(FormError::InvalidSecretRef)));
    assert!(matches!(resolve_secret_alias("env://x"), Err(FormError::InvalidSecretRef)));
    assert_eq!(heuristic_selector_for_role("username").as_deref(), Some(USERNAME_HEURISTIC_SELECTOR));
    assert_eq!(heuristic_selector_for_role("password"), None);
}

#[test]
fn form_input_refusals_come_in_order() {
    let mut input = login_input();
    input.fields.clear();
    assert!(matches!(normalize_form_input(&input), Err(FormError::EmptyFields)));
    let mut input = login_input();
    input.fields[0].key = "   ".to_string();
    assert!(matches!(normalize_form_input(&input), Err(FormError::MissingFieldKey)));
    let mut input = login_input();
    input.fields[1].bundle_key = Some("k".to_string());
    assert!(matches!(normalize_form_input(&input), Err(FormError::ValueSourceCount)));
    let mut input = login_input();
    input.submit = Some(FormSubmitInputRequest { selector: None, trigger: Some("enter".to_string()) });
    assert!(matches!(normalize_form_input(&input), Err(FormError::InvalidSubmitTrigger)));
    let mut input = login_input();
    input.secret_bundle_ref = Some("vault://x".to_string());
    assert!(matches!(normalize_form_input(&input), Err(FormError::InvalidSecretRef)));
    let normalized = normalize_form_input(&login_input()).unwrap();
    assert_eq!(normalized.mode, "auth");
    assert_eq!(normalized.fields[1].role, "password");
    assert!(normalized.fields[0].required);
    assert!(!normalized.fields[0].sensitive);
}

#[test]
fn no_form_input_is_not_requested() {
    let result = compile_form_action_plan("active", &no_identity(), None, None).unwrap();
    assert_eq!(result.form_action_status, FORM_ACTION_STATUS_NOT_REQUESTED);
    assert!(result.form_action_plan.is_none());
    assert!(result.inline_secret_fields.is_none());
}

#[test]
fn secret_refs_need_an_identity_profile() {
    let err = compile_form_action_plan("active", &no_identity(), Some(login_input()), None).unwrap_err();
    assert!(matches!(err, FormError::IdentityProfileRequired));
    assert_eq!(err.message(), "identity_profile_id is required when using identity:// secret refs");
}

#[test]
fn active_auth_without_contract_is_blocked() {
    let result = compile_form_action_plan("active", &identity(), Some(login_input()), None).unwrap();
    assert_eq!(result.form_action_status, FORM_ACTION_STATUS_BLOCKED);
    let plan = result.form_action_plan.unwrap();
    assert_eq!(plan.form_selector.as_deref(), Some("form"));
    assert_eq!(plan.form_selector_source, "heuristic");
    assert_eq!(plan.fields[0].selector_source, "heuristic");
    assert_eq!(plan.fields[0].value_source, "inline");
    assert_eq!(plan.fields[1].selector_source, "none");
    assert_eq!(plan.fields[1].value_source, "secret_ref");
    assert_eq!(plan.fields[1].secret_ref.as_deref(), Some("identity://login"));
    assert!(plan.submit.is_none());
    assert_eq!(
        plan.blocked_reason.as_deref(),
        Some("active auth requires an active whitelist site form contract; active auth requires an explicit password selector from task or site policy; active form action requires an explicit submit selector; active form action requires an explicit success.ready_selector")
    );
    let inline = result.inline_secret_fields.unwrap();
    assert_eq!(inline, vec![("user".to_string(), "\"alice\"".to_string())]);
    let redacted = result.form_input_redacted.unwrap();
    assert_eq!(redacted.fields[0].value_source, "inline");
    let summary = result.form_action_summary.unwrap();
    assert_eq!(summary.status, FORM_ACTION_STATUS_BLOCKED);
    assert!(!summary.site_contract_present);
    assert_eq!(summary.blocked_reason, plan.blocked_reason);
}

fn contract() -> SiteFormContract {
    SiteFormContract {
        policy_id: "policy-1".to_string(),
        policy_version: 3,
        primary_form_selector: Some("form#login".to_string()),
        field_roles: vec![
            FormFieldRoleSelector { name: "password".to_string(), selector: Some("#pw".to_string()) },
            FormFieldRoleSelector { name: "submit".to_string(), selector: Some("button[type=submit]".to_string()) },
        ],
        submit_selector: None,
        success_ready_selector: Some("#dashboard".to_string()),
        success_url_patterns: Some(vec![" /home ".to_string(), " ".to_string()]),
        success_title_contains: None,
        login_error: vec![".error".to_string()],
        field_error: vec![],
        account_locked: vec![],
    }
}

#[test]
fn active_auth_with_contract_runs() {
    let result = compile_form_action_plan("active", &identity(), Some(login_input()), Some(contract())).unwrap();
    assert_eq!(result.form_action_status, FORM_ACTION_STATUS_RUNNING);
    let plan = result.form_action_plan.unwrap();
    assert_eq!(plan.blocked_reason, None);
    assert_eq!(plan.site_policy_id.as_deref(), Some("policy-1"));
    assert_eq!(plan.site_policy_version, Some(3));
    assert_eq!(plan.form_selector.as_deref(), Some("form#login"));
    assert_eq!(plan.form_selector_source, "site_policy");
    assert_eq!(plan.fields[1].selector.as_deref(), Some("#pw"));
    assert_eq!(plan.fields[1].selector_source, "site_policy");
    let submit = plan.submit.unwrap();
    assert_eq!(submit.selector, "button[type=submit]");
    assert_eq!(submit.trigger, "click");
    let success = plan.success.unwrap();
    assert_eq!(success.ready_selector, "#dashboard");
    assert_eq!(success.url_patterns, vec!["/home".to_string()]);
    let signals = plan.error_signals.unwrap();
    assert_eq!(signals.login_error, vec![".error".to_string()]);
    let summary = result.form_action_summary.unwrap();
    assert!(summary.site_contract_present);
    assert!(summary.success_ready_selector_present);
    assert!(summary.error_signal_groups.unwrap().login_error);
}

#[test]
fn shadow_runs_are_never_blocked() {
    let result = compile_form_action_plan("shadow", &identity(), Some(login_input()), None).unwrap();
    assert_eq!(result.form_action_status, FORM_ACTION_STATUS_SHADOW_ONLY);
    assert_eq!(result.form_action_plan.unwrap().blocked_reason, None);
}

#[test]
fn success_input_is_trimmed() {
    let mut input = login_input();
    input.success = Some(FormSuccessInputRequest {
        ready_selector: Some("  #ok ".to_string()),
        url_patterns: Some(vec!["  a ".to_string(), "".to_string()]),
        title_contains: None,
    });
    let n = normalize_form_input(&input).unwrap();
    let s = n.success.unwrap();
    assert_eq!(s.ready_selector.as_deref(), Some("#ok"));
    assert_eq!(s.url_patterns, vec!["a".to_string()]);
    assert!(s.title_contains.is_empty());
}

#[test]
fn first_candidate_with_text_wins() {
    let picked = first_non_empty_with_source(vec![
        ("task".to_string(), Some("   ".to_string())),
        ("site_policy".to_string(), None),
        ("heuristic".to_string(), Some(" form ".to_string())),
    ]);
    assert_eq!(picked, Some(("heuristic".to_string(), Some(" form ".to_string()))));
    assert_eq!(first_non_empty_with_source(vec![("task".to_string(), None)]), None);
}

#[test]
fn summary_prefers_an_explicit_blocked_reason() {
    let result = compile_form_action_plan("active", &identity(), Some(login_input()), None).unwrap();
    let plan = result.form_action_plan.unwrap();
    let summary = build_form_action_summary(&plan, "failed", 2, Some("login rejected"), Some("login_error"));
    assert_eq!(summary.retry_count, 2);
    assert_eq!(summary.blocked_reason.as_deref(), Some("login rejected"));
    assert_eq!(summary.failure_signal.as_deref(), Some("login_error"));
    assert_eq!(summary.fields.len(), 2);
}

#[test]
fn repeated_inline_keys_keep_the_last_value() {
    let mut input = login_input();
    let mut note = field("note", "username");
    note.value = Some("\"n\"".to_string());
    let mut again = field("user", "username");
    again.value = Some("\"bob\"".to_string());
    input.fields.push(note);
    input.fields.push(again);
    let result = compile_form_action_plan("shadow", &identity(), Some(input), None).unwrap();
    let inline = result.inline_secret_fields.unwrap();
    assert_eq!(
        inline,
        vec![("user".to_string(), "\"bob\"".to_string()), ("note".to_string(), "\"n\"".to_string())]
    );
}
