use persona_pilot::behavior::budget::BudgetOverride;
use persona_pilot::behavior::compile::{
    choose_behavior_profile, compile_behavior_plan, prepare_behavior_site_lookup, system_default_behavior_profile,
    BehaviorCompileResult, BehaviorPolicyInput, BehaviorProfile, BehaviorProfileChoice, ResolvedBehaviorProfile,
};
use persona_pilot::behavior::compile::{should_store_raw_trace, BehaviorTraceSummary};
use persona_pilot::behavior::plan::deterministic_bucket;
use persona_pilot::behavior::{normalize_resource_status, BehaviorError, BEHAVIOR_MODE_DISABLED, SYSTEM_DEFAULT_BEHAVIOR_PROFILE_ID};

fn policy() -> BehaviorPolicyInput {
    BehaviorPolicyInput {
        behavior_profile_id: None,
        allow_site_overrides: None,
        page_archetype: None,
        mode: None,
        budget: None,
        allowed_primitives: None,
        plan_seed: None,
    }
}

fn strings(v: &[&str]) -> Vec<String> {
    v.iter().map(|s| s.to_string()).collect()
}

fn resolve(choice: BehaviorProfileChoice, stored: &[(&str, &[&str])]) -> ResolvedBehaviorProfile {
    match choice {
        BehaviorProfileChoice::Load { profile_id, source } => {
            let (_, allowed) = stored.iter().find(|(id, _)| *id == profile_id).expect("stored profile");
            ResolvedBehaviorProfile {
                profile: BehaviorProfile { id: profile_id, version: 1, allowed_primitives: strings(allowed) },
                source,
            }
        }
        BehaviorProfileChoice::SystemDefault => ResolvedBehaviorProfile {
            profile: system_default_behavior_profile(),
            source: "system_default".to_string(),
        },
    }
}

fn compile(
    url: &str,
    timeout: i64,
    p: &BehaviorPolicyInput,
    intent_profile: Option<&str>,
    site: Option<(&str, BehaviorPolicyInput)>,
    stored: &[(&str, &[&str])],
) -> BehaviorCompileResult {
    let lookup = prepare_behavior_site_lookup("open_page", Some(url), p).expect("site lookup");
    let (site_profile, site_override) = match site {
        Some((id, over)) if lookup.allow_site_overrides => (Some(id), over),
        _ => (None, policy()),
    };
    let choice = choose_behavior_profile(p.behavior_profile_id.as_deref(), intent_profile, site_profile, None);
    let resolved = resolve(choice, stored);
    compile_behavior_plan("open_page", Some(url), Some(timeout), p, intent_profile, &lookup, &site_override, &resolved)
        .expect("compile behavior plan")
}

fn primitives(r: &BehaviorCompileResult) -> Vec<String> {
    r.behavior_plan.as_ref().expect("behavior plan").steps.iter().map(|s| s.primitive.clone()).collect()
}

#[test]
fn same_explicit_seed_gives_the_same_plan() {
    let stored: &[(&str, &[&str])] =
        &[("beh-stable", &["wait_for_readiness", "idle", "scroll_progressive", "soft_abort_if_budget_exceeded"])];
    let mut p = policy();
    p.mode = Some("active".to_string());
    p.page_archetype = Some("article".to_string());
    p.plan_seed = Some("seed-stable-001".to_string());
    let url = "https://example.com/article/stable.html";
    let first = compile(url, 12, &p, Some("beh-stable"), None, stored);
    let second = compile(url, 12, &p, Some("beh-stable"), None, stored);
    assert_eq!(first.behavior_seed, Some("seed-stable-001".to_string()));
    assert_eq!(first.behavior_seed, second.behavior_seed);
    let steps = |r: &BehaviorCompileResult| {
        r.behavior_plan
            .as_ref()
            .expect("behavior plan")
            .steps
            .iter()
            .map(|s| (s.phase.clone(), s.primitive.clone(), s.detail.clone()))
            .collect::<Vec<_>>()
    };
    assert_eq!(steps(&first), steps(&second));
    assert_eq!(first.behavior_runtime_explain.applied_primitives, second.behavior_runtime_explain.applied_primitives);
    assert_eq!(first.behavior_profile_id.as_deref(), Some("beh-stable"));
}

#[test]
fn site_override_applies_when_enabled() {
    let stored: &[(&str, &[&str])] = &[(
        "beh-site-override",
        &["wait_for_readiness", "idle", "scroll_progressive", "pause_on_content", "soft_abort_if_budget_exceeded"],
    )];
    let mut over = policy();
    over.allowed_primitives = Some(strings(&["idle", "soft_abort_if_budget_exceeded"]));
    let url = "https://example.com/article/with-policy.html";
    let mut p = policy();
    p.mode = Some("active".to_string());
    p.page_archetype = Some("article".to_string());
    let with_override = compile(url, 10, &p, None, Some(("beh-site-override", over.clone())), stored);
    let mut q = p.clone();
    q.allow_site_overrides = Some(false);
    let without_override = compile(url, 10, &q, None, Some(("beh-site-override", over)), stored);
    let with_p = primitives(&with_override);
    let without_p = primitives(&without_override);
    assert!(with_p.iter().all(|item| matches!(item.as_str(), "idle" | "soft_abort_if_budget_exceeded")));
    assert!(without_p.len() > with_p.len());
    assert_eq!(with_override.behavior_profile_id.as_deref(), Some("beh-site-override"));
    assert_eq!(without_override.behavior_profile_id.as_deref(), Some(SYSTEM_DEFAULT_BEHAVIOR_PROFILE_ID));
}

#[test]
fn budget_is_clipped_to_the_timeout_window() {
    let mut p = policy();
    p.mode = Some("active".to_string());
    p.budget = Some(BudgetOverride {
        max_added_latency_ms: Some(10000),
        timeout_reserve_ms: Some(1500),
        max_step_count: Some(24),
    });
    let compiled = compile("https://example.com/article/budget.html", 2, &p, None, None, &[]);
    let budget = compiled.behavior_runtime_explain.budget.expect("behavior budget");
    assert_eq!(budget.max_added_latency_ms, 500);
    assert_eq!(budget.timeout_reserve_ms, 1500);
    assert!(compiled.behavior_runtime_explain.warnings.iter().any(|w| w.contains("clipped")));
}

#[test]
fn profile_required_without_a_profile_is_disabled() {
    let mut p = policy();
    p.mode = Some("profile_required".to_string());
    let compiled = compile("https://example.com/login", 10, &p, None, None, &[]);
    assert_eq!(compiled.behavior_execution_mode, BEHAVIOR_MODE_DISABLED);
    assert_eq!(compiled.behavior_resolution_status, "disabled");
    assert_eq!(compiled.behavior_profile_id.as_deref(), Some(SYSTEM_DEFAULT_BEHAVIOR_PROFILE_ID));
    assert!(compiled.behavior_plan.is_none());
    assert!(compiled.behavior_runtime_explain.warnings.iter().any(|w| w.contains("profile_required requested")));
}

#[test]
fn unknown_page_archetype_is_refused() {
    let mut p = policy();
    p.page_archetype = Some("spaceship".to_string());
    assert!(prepare_behavior_site_lookup("open_page", Some("https://example.com/"), &p).is_err());
}

fn trace(aborted: bool) -> BehaviorTraceSummary {
    BehaviorTraceSummary {
        planned_steps: 3,
        executed_steps: 2,
        failed_steps: 0,
        aborted,
        abort_reason: None,
        session_persisted: false,
        raw_trace_persisted: false,
        total_added_latency_ms: 120,
    }
}

#[test]
fn raw_trace_is_kept_for_traced_failures_aborts_and_one_bucket() {
    assert!(!should_store_raw_trace(None, Some(&trace(true)), "failed", "seed"));
    assert!(!should_store_raw_trace(Some("disabled"), Some(&trace(true)), "failed", "seed"));
    assert!(should_store_raw_trace(Some("shadow"), None, "timed_out", "seed"));
    assert!(should_store_raw_trace(Some("active"), None, "cancelled", "seed"));
    assert!(should_store_raw_trace(Some("active"), Some(&trace(true)), "succeeded", "seed"));
    for seed in ["task-1", "task-2", "task-3", "task-4", "task-5"] {
        assert_eq!(
            should_store_raw_trace(Some("shadow"), Some(&trace(false)), "succeeded", seed),
            deterministic_bucket(seed) == 0
        );
        assert!(deterministic_bucket(seed) < 10);
    }
}

#[test]
fn resource_status_defaults_to_draft_and_refuses_others() {
    assert_eq!(normalize_resource_status(None).unwrap(), "draft");
    assert_eq!(normalize_resource_status(Some("active")).unwrap(), "active");
    assert_eq!(normalize_resource_status(Some("disabled")).unwrap(), "disabled");
    assert_eq!(
        normalize_resource_status(Some("archived")).unwrap_err(),
        BehaviorError::InvalidResourceStatus { given: "archived".to_string() }
    );
}

#[test]
fn behavior_errors_are_reported_with_the_allowed_values() {
    assert_eq!(
        BehaviorError::InvalidResourceStatus { given: "archived".to_string() }.message(),
        "status must be one of draft|active|disabled, got archived"
    );
    assert_eq!(
        BehaviorError::InvalidBehaviorMode { given: "loud".to_string() }.message(),
        "behavior mode must be one of shadow|active|disabled|profile_required, got loud"
    );
    assert_eq!(
        BehaviorError::InvalidPageArchetype { given: "blog".to_string() }.message(),
        "page_archetype must be one of article|search_results|listing|product|form|auth|dashboard|generic, got blog"
    );
}

#[test]
fn unknown_mode_is_refused_before_unknown_archetype() {
    let lookup = prepare_behavior_site_lookup("open_page", Some("https://example.com/"), &policy()).unwrap();
    let resolved = resolve(BehaviorProfileChoice::SystemDefault, &[]);
    let mut p = policy();
    p.mode = Some("turbo".to_string());
    p.page_archetype = Some("spaceship".to_string());
    let err = compile_behavior_plan("open_page", None, Some(10), &p, None, &lookup, &policy(), &resolved).unwrap_err();
    assert!(matches!(err, BehaviorError::InvalidBehaviorMode { ref given } if given == "turbo"));
    p.mode = Some("active".to_string());
    let err = compile_behavior_plan("open_page", None, Some(10), &p, None, &lookup, &policy(), &resolved).unwrap_err();
    assert!(matches!(err, BehaviorError::InvalidPageArchetype { ref given } if given == "spaceship"));
}
