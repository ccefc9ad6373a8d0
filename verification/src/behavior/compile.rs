//! Compiling a behavior policy into a plan, its runtime explanation and trace summary.
use vstd::prelude::*;

use super::budget::{
    collect_ignored_primitives, dedup_supported, lemma_allowed_primitives_from_request, merge_budget, merge_budget_warnings,
    merged_budget, opt_strings_view, requested_primitives, resolve_allowed_primitives,
    unsupported_items, unsupported_warnings, BehaviorBudget, BudgetOverride,
};
use super::plan::{
    allowed_steps, build_behavior_plan, candidate_steps, default_step_specs, deterministic_bucket,
    estimate_added_latency_ms, latency_sum, latency_sums_fit, plan_param, planned_steps,
    primitive_default_latency, resolve_seed, resolved_seed, sample_bucket, skipped_primitives,
    step_cap, step_count, step_latency, steps_view, capped_steps, guard_step, BehaviorPlan,
    StepSpec, hash_of_strs, lemma_planned_steps_use_allowed_primitives,
};
use super::site::{infer_page_archetype, inferred_archetype, site_key_from_url, site_key_of};
use super::{
    behavior_mode_names, browser_task_kinds, materialize_behavior_mode, materialized_mode,
    normalize_behavior_mode, normalize_page_archetype, page_archetype_names,
    profile_required_downgrade_warning, requested_behavior_mode, supported_primitive_names,
    supported_primitives, BehaviorError, SYSTEM_DEFAULT_BEHAVIOR_PROFILE_ID,
    SYSTEM_DEFAULT_BEHAVIOR_PROFILE_VERSION,
};
use crate::text::{
    concat2, opt_str_view, opt_view, owned, str_eq, string_in_list, strings_view,
    lemma_strings_view_push,
};

verus! {

/// The entries of an optional list of primitives; none when there is no list.
pub open spec fn listed_primitives(v: Option<Vec<String>>) -> Seq<Seq<char>> {
    match v {
        Some(l) => strings_view(l@),
        None => seq![],
    }
}

/// Step counts and outcome of a behavior run.
#[derive(Debug, Clone)]
pub struct BehaviorTraceSummary {
    pub planned_steps: i64,
    pub executed_steps: i64,
    pub failed_steps: i64,
    pub aborted: bool,
    pub abort_reason: Option<String>,
    pub session_persisted: bool,
    pub raw_trace_persisted: bool,
    pub total_added_latency_ms: i64,
}

/// How a behavior plan was resolved, for operators.
#[derive(Debug, Clone)]
pub struct BehaviorRuntimeExplain {
    pub requested_behavior_profile_id: Option<String>,
    pub resolved_behavior_profile_id: Option<String>,
    pub resolved_version: Option<i64>,
    pub resolution_source: String,
    pub page_archetype: Option<String>,
    pub capability_status: String,
    pub applied_primitives: Vec<String>,
    pub ignored_primitives: Vec<String>,
    pub skipped_steps: Vec<String>,
    pub seed: Option<String>,
    pub budget: Option<BehaviorBudget>,
    pub total_added_latency_ms: i64,
    pub warnings: Vec<String>,
}

/// Whether the raw behavior trace of a run is kept: only for shadow or active
/// runs, always when the task did not succeed or the run aborted, otherwise for
/// one seed bucket out of ten.
pub open spec fn raw_trace_kept(
    mode: Option<Seq<char>>,
    aborted: Option<bool>,
    task_status: Seq<char>,
    sample_seed: Seq<char>,
) -> bool {
    if !(mode == Some("shadow"@) || mode == Some("active"@)) {
        false
    } else if task_status == "failed"@ || task_status == "timed_out"@ || task_status == "cancelled"@ {
        true
    } else if aborted == Some(true) {
        true
    } else {
        sample_bucket(sample_seed) == 0
    }
}

pub fn should_store_raw_trace(
    behavior_execution_mode: Option<&str>,
    trace_summary: Option<&BehaviorTraceSummary>,
    task_status: &str,
    sample_seed: &str,
) -> (keep: bool)
    ensures
        keep == raw_trace_kept(
            opt_str_view(behavior_execution_mode),
            match trace_summary {
                Some(t) => Some(t.aborted),
                None => None,
            },
            task_status@,
            sample_seed@,
        ),
{
    let traced = match behavior_execution_mode {
        Some(m) => str_eq(m, "shadow") || str_eq(m, "active"),
        None => false,
    };
    if !traced {
        return false;
    }
    if str_eq(task_status, "failed") || str_eq(task_status, "timed_out") || str_eq(task_status, "cancelled") {
        return true;
    }
    let aborted = match trace_summary {
        Some(t) => t.aborted,
        None => false,
    };
    if aborted {
        return true;
    }
    deterministic_bucket(sample_seed) == 0
}

/// The fields of a behavior policy object that the compiler reads. A field that
/// is absent or of another JSON type is `None`; `budget` is `Some` only for an
/// object and `allowed_primitives` only for an array (holding its string items).
#[derive(Debug, Clone)]
pub struct BehaviorPolicyInput {
    pub behavior_profile_id: Option<String>,
    pub allow_site_overrides: Option<bool>,
    pub page_archetype: Option<String>,
    pub mode: Option<String>,
    pub budget: Option<BudgetOverride>,
    pub allowed_primitives: Option<Vec<String>>,
    pub plan_seed: Option<String>,
}

/// A behavior profile as the compiler uses it.
#[derive(Debug, Clone)]
pub struct BehaviorProfile {
    pub id: String,
    pub version: i64,
    /// The string items of the profile's `allowed_primitives` array (empty when absent).
    pub allowed_primitives: Vec<String>,
}

/// A behavior profile together with where its resolution came from.
#[derive(Debug, Clone)]
pub struct ResolvedBehaviorProfile {
    pub profile: BehaviorProfile,
    pub source: String,
}

/// The built-in profile used when no other profile applies: it allows every
/// supported primitive.
pub fn system_default_behavior_profile() -> (profile: BehaviorProfile)
    ensures
        profile.id@ == "system-default-browser-v1"@,
        profile.version == 1,
        strings_view(profile.allowed_primitives@) == supported_primitive_names(),
{
    let names = supported_primitives();
    BehaviorProfile {
        id: owned(SYSTEM_DEFAULT_BEHAVIOR_PROFILE_ID),
        version: SYSTEM_DEFAULT_BEHAVIOR_PROFILE_VERSION,
        allowed_primitives: crate::text::owned_strings(&names),
    }
}

/// Where the behavior profile of a task comes from, in priority order.
#[derive(Debug, Clone, PartialEq, Eq)]
pub enum BehaviorProfileChoice {
    Load { profile_id: String, source: String },
    SystemDefault,
}

/// Picks the profile to load: the task policy's, else the execution intent's,
/// else the site policy's, else the identity default, else the built-in default.
pub fn choose_behavior_profile(
    policy_profile_id: Option<&str>,
    intent_profile_id: Option<&str>,
    site_profile_id: Option<&str>,
    identity_profile_id: Option<&str>,
) -> (choice: BehaviorProfileChoice)
    ensures
        match (policy_profile_id, intent_profile_id, site_profile_id, identity_profile_id) {
            (Some(p), _, _, _) => choice matches BehaviorProfileChoice::Load { profile_id, source }
                && profile_id@ == p@ && source@ == "task_policy"@,
            (None, Some(p), _, _) => choice matches BehaviorProfileChoice::Load { profile_id, source }
                && profile_id@ == p@ && source@ == "execution_intent"@,
            (None, None, Some(p), _) => choice matches BehaviorProfileChoice::Load { profile_id, source }
                && profile_id@ == p@ && source@ == "site_policy"@,
            (None, None, None, Some(p)) => choice matches BehaviorProfileChoice::Load { profile_id, source }
                && profile_id@ == p@ && source@ == "identity_default"@,
            (None, None, None, None) => choice == BehaviorProfileChoice::SystemDefault,
        },
{
    if let Some(p) = policy_profile_id {
        return BehaviorProfileChoice::Load { profile_id: owned(p), source: owned("task_policy") };
    }
    if let Some(p) = intent_profile_id {
        return BehaviorProfileChoice::Load { profile_id: owned(p), source: owned("execution_intent") };
    }
    if let Some(p) = site_profile_id {
        return BehaviorProfileChoice::Load { profile_id: owned(p), source: owned("site_policy") };
    }
    if let Some(p) = identity_profile_id {
        return BehaviorProfileChoice::Load { profile_id: owned(p), source: owned("identity_default") };
    }
    BehaviorProfileChoice::SystemDefault
}

/// What the compiler needs before it looks up a site policy.
#[derive(Debug, Clone)]
pub struct BehaviorSiteLookup {
    pub site_key: Option<String>,
    pub allow_site_overrides: bool,
    pub inferred_archetype: String,
}

/// Computes the site key, whether site overrides apply and the archetype used to
/// look up a site policy; a page archetype outside the known ones is refused.
pub fn prepare_behavior_site_lookup(
    task_kind: &str,
    url: Option<&str>,
    policy: &BehaviorPolicyInput,
) -> (result: Result<BehaviorSiteLookup, BehaviorError>)
    ensures
        match opt_view(policy.page_archetype) {
            Some(a) => !page_archetype_names().contains(a) <==> result is Err,
            None => result is Ok,
        },
        result matches Err(e) ==> (e matches BehaviorError::InvalidPageArchetype { given } && opt_view(
            policy.page_archetype,
        ) == Some(given@)),
        result matches Ok(lookup) ==> {
            &&& opt_view(lookup.site_key) == site_key_of(opt_str_view(url))
            &&& lookup.allow_site_overrides == match policy.allow_site_overrides {
                Some(b) => b,
                None => true,
            }
            &&& lookup.inferred_archetype@ == match opt_view(policy.page_archetype) {
                Some(a) => a,
                None => inferred_archetype(task_kind@, opt_str_view(url)),
            }
        },
{
    let site_key = site_key_from_url(url);
    let allow = match policy.allow_site_overrides {
        Some(b) => b,
        None => true,
    };
    let requested = match &policy.page_archetype {
        Some(a) => normalize_page_archetype(Some(a.as_str())),
        None => normalize_page_archetype(None),
    };
    let requested = match requested {
        Ok(r) => r,
        Err(e) => {
            return Err(e);
        },
    };
    let inferred = match requested {
        Some(a) => a,
        None => infer_page_archetype(task_kind, url),
    };
    Ok(BehaviorSiteLookup { site_key, allow_site_overrides: allow, inferred_archetype: inferred })
}

/// The normalized policy recorded next to a compiled plan.
#[derive(Debug, Clone)]
pub struct NormalizedBehaviorPolicy {
    pub mode: String,
    pub page_archetype: String,
    pub allow_site_overrides: bool,
    pub budget: BehaviorBudget,
    pub plan_seed: String,
    pub allowed_primitives: Vec<String>,
}

/// The outcome of compiling a behavior policy.
#[derive(Debug, Clone)]
pub struct BehaviorCompileResult {
    pub behavior_profile_id: Option<String>,
    pub behavior_profile_version: Option<i64>,
    pub behavior_resolution_status: String,
    pub behavior_execution_mode: String,
    pub page_archetype: Option<String>,
    pub behavior_seed: Option<String>,
    pub behavior_profile: Option<BehaviorProfile>,
    pub behavior_plan: Option<BehaviorPlan>,
    pub behavior_runtime_explain: BehaviorRuntimeExplain,
    pub behavior_trace_summary: BehaviorTraceSummary,
    pub normalized_policy: NormalizedBehaviorPolicy,
    pub site_key: Option<String>,
}

/// Each step adds between 0 and 2000 ms.
pub open spec fn latencies_bounded(steps: Seq<StepSpec>) -> bool {
    forall|i: int| 0 <= i < steps.len() ==> 0 <= #[trigger] step_latency(steps[i]) <= 2000
}

proof fn lemma_partial_sums(steps: Seq<StepSpec>, k: int)
    requires
        latencies_bounded(steps),
        0 <= k <= steps.len(),
    ensures
        0 <= latency_sum(steps.take(k)) <= 2000 * k,
    decreases k,
{
    if k > 0 {
        lemma_partial_sums(steps, k - 1);
        assert(steps.take(k).drop_last() =~= steps.take(k - 1));
        assert(steps.take(k).last() == steps[k - 1]);
    }
}

proof fn lemma_bounded_sums_fit(steps: Seq<StepSpec>)
    requires
        latencies_bounded(steps),
        steps.len() <= 1000,
    ensures
        latency_sums_fit(steps),
{
    assert forall|k: int| 0 <= k <= steps.len() implies i64::MIN <= #[trigger] latency_sum(steps.take(k))
        <= i64::MAX by {
        lemma_partial_sums(steps, k);
    }
}

proof fn lemma_plan_param_range(seed: Seq<char>, label: Seq<char>, min: int, max: int)
    requires
        min < max,
    ensures
        min <= plan_param(seed, label, min, max) <= max,
{
    let h = hash_of_strs(seq![seed, label]) as int;
    assert(0 <= h % (max - min + 1) < max - min + 1);
}

proof fn lemma_default_steps_bounded(archetype: Seq<char>, seed: Seq<char>)
    ensures
        latencies_bounded(default_step_specs(archetype, seed)),
        default_step_specs(archetype, seed).len() <= 7,
{
    lemma_plan_param_range(seed, "article:idle"@, 220, 900);
    lemma_plan_param_range(seed, "article:pause"@, 400, 1600);
    lemma_plan_param_range(seed, "article:stable"@, 500, 1400);
    lemma_plan_param_range(seed, "listing:idle"@, 150, 500);
    lemma_plan_param_range(seed, "listing:pause"@, 180, 600);
    lemma_plan_param_range(seed, "product:idle"@, 180, 700);
    lemma_plan_param_range(seed, "product:pause"@, 220, 1000);
    lemma_plan_param_range(seed, "form:stable"@, 350, 900);
    lemma_plan_param_range(seed, "dashboard:idle"@, 200, 600);
    lemma_plan_param_range(seed, "generic:idle"@, 180, 500);
    lemma_plan_param_range(seed, "generic:pause"@, 160, 480);
    let d = default_step_specs(archetype, seed);
    assert forall|i: int| 0 <= i < d.len() implies 0 <= #[trigger] step_latency(d[i]) <= 2000 by {
        assert(0 <= primitive_default_latency(d[i].primitive) <= 900);
    }
}

proof fn lemma_allowed_steps_bounded(steps: Seq<StepSpec>, allowed: Seq<Seq<char>>)
    requires
        latencies_bounded(steps),
    ensures
        latencies_bounded(allowed_steps(steps, allowed)),
        allowed_steps(steps, allowed).len() <= steps.len(),
    decreases steps.len(),
{
    if steps.len() > 0 {
        let prev = steps.drop_last();
        assert(latencies_bounded(prev)) by {
            assert forall|i: int| 0 <= i < prev.len() implies 0 <= #[trigger] step_latency(prev[i]) <= 2000 by {
                assert(prev[i] == steps[i]);
            }
        }
        lemma_allowed_steps_bounded(prev, allowed);
        assert(step_latency(steps[steps.len() - 1]) <= 2000);
    }
}

/// Plans built from the archetype defaults add a bounded latency, so their
/// running latency totals fit in `i64`.
pub proof fn lemma_planned_latency_fits(
    archetype: Seq<char>,
    seed: Seq<char>,
    budget: BehaviorBudget,
    allowed: Seq<Seq<char>>,
)
    ensures
        latency_sums_fit(planned_steps(archetype, seed, budget, allowed)),
        planned_steps(archetype, seed, budget, allowed).len() <= 8,
{
    lemma_default_steps_bounded(archetype, seed);
    let c = candidate_steps(archetype, seed, allowed);
    lemma_allowed_steps_bounded(default_step_specs(archetype, seed), allowed);
    let kept = capped_steps(c, step_cap(budget));
    assert(latencies_bounded(kept)) by {
        assert forall|i: int| 0 <= i < kept.len() implies 0 <= #[trigger] step_latency(kept[i]) <= 2000 by {
            assert(kept[i] == c[i]);
        }
    }
    let p = planned_steps(archetype, seed, budget, allowed);
    assert(latencies_bounded(p)) by {
        assert forall|i: int| 0 <= i < p.len() implies 0 <= #[trigger] step_latency(p[i]) <= 2000 by {
            if i < kept.len() {
                assert(p[i] == kept[i]);
            } else {
                assert(p[i] == guard_step(budget));
            }
        }
    }
    lemma_bounded_sums_fit(p);
}

/// The archetype the plan targets: the task policy's, else the site policy's.
pub open spec fn chosen_archetype(policy: BehaviorPolicyInput, site: BehaviorPolicyInput) -> Option<Seq<char>> {
    match opt_view(policy.page_archetype) {
        Some(a) => Some(a),
        None => opt_view(site.page_archetype),
    }
}

/// Whether compiling refuses the policy: an unknown mode or archetype.
pub open spec fn compile_refused(task_kind: Seq<char>, policy: BehaviorPolicyInput, site: BehaviorPolicyInput) -> bool {
    ||| !behavior_mode_names().contains(
        requested_behavior_mode(opt_view(policy.mode), opt_view(site.mode), task_kind),
    )
    ||| (chosen_archetype(policy, site) matches Some(a) && !page_archetype_names().contains(a))
}

/// The refusal compiling gives: an unknown mode first, then an unknown
/// archetype, each with the value that was asked for.
pub open spec fn compile_refusal(task_kind: Seq<char>, policy: BehaviorPolicyInput, site: BehaviorPolicyInput, e: BehaviorError) -> bool {
    let mode = requested_behavior_mode(opt_view(policy.mode), opt_view(site.mode), task_kind);
    if !behavior_mode_names().contains(mode) {
        e matches BehaviorError::InvalidBehaviorMode { given } && given@ == mode
    } else {
        e matches BehaviorError::InvalidPageArchetype { given } && chosen_archetype(policy, site) == Some(given@)
    }
}

/// The archetype a compiled plan targets.
pub open spec fn compiled_archetype(policy: BehaviorPolicyInput, site: BehaviorPolicyInput, lookup: BehaviorSiteLookup) -> Seq<char> {
    match chosen_archetype(policy, site) {
        Some(a) => a,
        None => lookup.inferred_archetype@,
    }
}

/// The mode a compiled plan runs in.
pub open spec fn compiled_mode(
    task_kind: Seq<char>,
    policy: BehaviorPolicyInput,
    site: BehaviorPolicyInput,
    profile: ResolvedBehaviorProfile,
) -> Seq<char> {
    materialized_mode(
        task_kind,
        requested_behavior_mode(opt_view(policy.mode), opt_view(site.mode), task_kind),
        Some(profile.source@),
    )
}

/// The primitives a compiled plan may use.
pub open spec fn compiled_primitives(
    policy: BehaviorPolicyInput,
    site: BehaviorPolicyInput,
    lookup: BehaviorSiteLookup,
    profile: ResolvedBehaviorProfile,
) -> Seq<Seq<char>> {
    dedup_supported(
        requested_primitives(
            compiled_archetype(policy, site, lookup),
            strings_view(profile.profile.allowed_primitives@),
            opt_strings_view(match &policy.allowed_primitives {
                Some(v) => Some(v),
                None => None,
            }),
            opt_strings_view(match &site.allowed_primitives {
                Some(v) => Some(v),
                None => None,
            }),
        ),
    )
}

/// The warnings compiling records, in order.
pub open spec fn compile_warnings(
    task_kind: Seq<char>,
    timeout_seconds: Option<i64>,
    policy: BehaviorPolicyInput,
    site: BehaviorPolicyInput,
    lookup: BehaviorSiteLookup,
    profile: ResolvedBehaviorProfile,
    skipped: Seq<Seq<char>>,
) -> Seq<Seq<char>> {
    let requested_mode = requested_behavior_mode(opt_view(policy.mode), opt_view(site.mode), task_kind);
    let downgrade: Seq<Seq<char>> = if browser_task_kinds().contains(task_kind) && requested_mode
        == "profile_required"@ && !super::explicit_profile_source(Some(profile.source@)) {
        seq![profile_required_downgrade_warning()]
    } else {
        seq![]
    };
    downgrade + merge_budget_warnings(task_kind, timeout_seconds, policy.budget, site.budget)
        + unsupported_warnings(
        requested_primitives(
            compiled_archetype(policy, site, lookup),
            strings_view(profile.profile.allowed_primitives@),
            opt_strings_view(match &policy.allowed_primitives {
                Some(v) => Some(v),
                None => None,
            }),
            opt_strings_view(match &site.allowed_primitives {
                Some(v) => Some(v),
                None => None,
            }),
        ),
    ) + Seq::new(skipped.len(), |i: int| "plan step skipped: "@ + skipped[i])
}

fn copy_opt_string(s: &Option<String>) -> (c: Option<String>)
    ensures
        opt_view(c) == opt_view(*s),
{
    match s {
        Some(v) => Some(owned(v.as_str())),
        None => None,
    }
}

/// The decisions that precede building a plan.
pub struct PlanInputs {
    pub mode: String,
    pub archetype: String,
    pub budget: BehaviorBudget,
    pub allowed: Vec<String>,
    pub seed: String,
    pub warnings: Vec<String>,
}

/// Resolves the mode, archetype, budget, primitives and seed of a plan.
#[verifier::rlimit(40)]
pub fn resolve_plan_inputs(
    task_kind: &str,
    url: Option<&str>,
    timeout_seconds: Option<i64>,
    policy: &BehaviorPolicyInput,
    lookup: &BehaviorSiteLookup,
    site_override: &BehaviorPolicyInput,
    resolved: &ResolvedBehaviorProfile,
) -> (result: Result<PlanInputs, BehaviorError>)
    ensures
        result is Err <==> compile_refused(task_kind@, *policy, *site_override),
        result matches Err(e) ==> compile_refusal(task_kind@, *policy, *site_override, e),
        result matches Ok(r) ==> {
            let archetype = compiled_archetype(*policy, *site_override, *lookup);
            &&& r.mode@ == compiled_mode(task_kind@, *policy, *site_override, *resolved)
            &&& r.archetype@ == archetype
            &&& r.budget == merged_budget(task_kind@, timeout_seconds, policy.budget, site_override.budget)
            &&& strings_view(r.allowed@) == compiled_primitives(*policy, *site_override, *lookup, *resolved)
            &&& r.seed@ == resolved_seed(
                task_kind@,
                opt_str_view(url),
                archetype,
                Some(resolved.profile.id@),
                opt_view(policy.plan_seed),
                opt_view(site_override.plan_seed),
            )
            &&& strings_view(r.warnings@) == compile_warnings(
                task_kind@,
                timeout_seconds,
                *policy,
                *site_override,
                *lookup,
                *resolved,
                seq![],
            )
        },
{
    let requested_mode = normalize_behavior_mode(
        match &policy.mode {
            Some(m) => Some(m.as_str()),
            None => None,
        },
        match &site_override.mode {
            Some(m) => Some(m.as_str()),
            None => None,
        },
        task_kind,
    );
    let requested_mode = match requested_mode {
        Ok(m) => m,
        Err(e) => {
            return Err(e);
        },
    };
    let mut warnings: Vec<String> = Vec::new();
    assert(strings_view(warnings@) =~= seq![]);
    let actual_mode = materialize_behavior_mode(
        task_kind,
        requested_mode.as_str(),
        Some(resolved.source.as_str()),
        &mut warnings,
    );
    let choice: Option<&str> = match &policy.page_archetype {
        Some(a) => Some(a.as_str()),
        None => match &site_override.page_archetype {
            Some(a) => Some(a.as_str()),
            None => None,
        },
    };
    let normalized = match normalize_page_archetype(choice) {
        Ok(n) => n,
        Err(e) => {
            return Err(e);
        },
    };
    let page_archetype: String = match normalized {
        Some(a) => a,
        None => owned(lookup.inferred_archetype.as_str()),
    };
    let budget = merge_budget(
        task_kind,
        timeout_seconds,
        match &policy.budget {
            Some(b) => Some(b),
            None => None,
        },
        match &site_override.budget {
            Some(b) => Some(b),
            None => None,
        },
        &mut warnings,
    );
    let allowed = resolve_allowed_primitives(
        page_archetype.as_str(),
        &resolved.profile.allowed_primitives,
        match &policy.allowed_primitives {
            Some(v) => Some(v),
            None => None,
        },
        match &site_override.allowed_primitives {
            Some(v) => Some(v),
            None => None,
        },
        &mut warnings,
    );
    let seed = resolve_seed(
        task_kind,
        url,
        page_archetype.as_str(),
        Some(resolved.profile.id.as_str()),
        match &policy.plan_seed {
            Some(s) => Some(s.as_str()),
            None => None,
        },
        match &site_override.plan_seed {
            Some(s) => Some(s.as_str()),
            None => None,
        },
    );
    let ghost expected = compile_warnings(task_kind@, timeout_seconds, *policy, *site_override, *lookup, *resolved, seq![]);
    assert(strings_view(warnings@) =~= expected);
    Ok(PlanInputs { mode: actual_mode, archetype: page_archetype, budget, allowed, seed, warnings })
}

/// Compiles a behavior policy against the site policy override and the resolved
/// profile. The plan runs in the materialized mode, targets the policy's (else
/// the site's, else the inferred) archetype, uses the merged budget, the
/// resolved primitives and the resolved seed.
pub fn compile_behavior_plan(
    task_kind: &str,
    url: Option<&str>,
    timeout_seconds: Option<i64>,
    policy: &BehaviorPolicyInput,
    requested_behavior_profile_id: Option<&str>,
    lookup: &BehaviorSiteLookup,
    site_override: &BehaviorPolicyInput,
    resolved: &ResolvedBehaviorProfile,
) -> (result: Result<BehaviorCompileResult, BehaviorError>)
    ensures
        result is Err <==> compile_refused(task_kind@, *policy, *site_override),
        result matches Err(e) ==> compile_refusal(task_kind@, *policy, *site_override, e),
        result matches Ok(r) ==> {
            let archetype = compiled_archetype(*policy, *site_override, *lookup);
            let mode = compiled_mode(task_kind@, *policy, *site_override, *resolved);
            let budget = merged_budget(task_kind@, timeout_seconds, policy.budget, site_override.budget);
            let allowed = compiled_primitives(*policy, *site_override, *lookup, *resolved);
            let seed = resolved_seed(
                task_kind@,
                opt_str_view(url),
                archetype,
                Some(resolved.profile.id@),
                opt_view(policy.plan_seed),
                opt_view(site_override.plan_seed),
            );
            &&& r.behavior_execution_mode@ == mode
            &&& r.behavior_resolution_status@ == if mode == "disabled"@ {
                "disabled"@
            } else {
                "resolved"@
            }
            &&& opt_view(r.page_archetype) == Some(archetype)
            &&& opt_view(r.behavior_seed) == Some(seed)
            &&& opt_view(r.behavior_profile_id) == Some(resolved.profile.id@)
            &&& r.behavior_profile_version == Some(resolved.profile.version)
            &&& opt_view(r.site_key) == opt_view(lookup.site_key)
            &&& r.normalized_policy.budget == budget
            &&& strings_view(r.normalized_policy.allowed_primitives@) == allowed
            &&& r.normalized_policy.allow_site_overrides == lookup.allow_site_overrides
            &&& (mode == "disabled"@ ==> r.behavior_plan is None)
            &&& (mode != "disabled"@ ==> (r.behavior_plan matches Some(plan) && steps_view(plan.steps@)
                == planned_steps(archetype, seed, budget, allowed)))
            &&& r.behavior_trace_summary.planned_steps == match r.behavior_plan {
                Some(plan) => plan.steps@.len() as int,
                None => 0,
            }
            &&& r.behavior_trace_summary.total_added_latency_ms == if mode == "active"@ {
                latency_sum(planned_steps(archetype, seed, budget, allowed))
            } else {
                0
            }
            &&& r.behavior_trace_summary.session_persisted == allowed.contains("persist_session_state"@)
            &&& r.behavior_runtime_explain.capability_status@ == if mode == "active"@ {
                "compiled_active"@
            } else if mode == "shadow"@ {
                "compiled_shadow"@
            } else {
                "disabled"@
            }
            &&& r.behavior_runtime_explain.resolution_source@ == resolved.source@
            &&& opt_view(r.behavior_runtime_explain.requested_behavior_profile_id) == opt_str_view(
                requested_behavior_profile_id,
            )
            &&& strings_view(r.behavior_runtime_explain.skipped_steps@) == (if mode == "disabled"@ {
                seq![]
            } else {
                skipped_primitives(candidate_steps(archetype, seed, allowed), step_cap(budget))
            })
            &&& strings_view(r.behavior_runtime_explain.warnings@) == compile_warnings(
                task_kind@,
                timeout_seconds,
                *policy,
                *site_override,
                *lookup,
                *resolved,
                strings_view(r.behavior_runtime_explain.skipped_steps@),
            )
            &&& strings_view(r.behavior_runtime_explain.applied_primitives@) == allowed
            &&& strings_view(r.behavior_runtime_explain.ignored_primitives@) == unsupported_items(
                listed_primitives(site_override.allowed_primitives),
            ) + unsupported_items(listed_primitives(policy.allowed_primitives))
            &&& opt_view(r.behavior_runtime_explain.seed) == Some(seed)
            &&& r.behavior_runtime_explain.budget == Some(budget)
            &&& r.behavior_runtime_explain.total_added_latency_ms == r.behavior_trace_summary.total_added_latency_ms
            &&& (mode != "active"@ ==> r.behavior_runtime_explain.total_added_latency_ms == 0)
            &&& opt_view(r.behavior_runtime_explain.resolved_behavior_profile_id) == opt_view(r.behavior_profile_id)
            &&& r.behavior_runtime_explain.resolved_version == r.behavior_profile_version
            &&& opt_view(r.behavior_runtime_explain.page_archetype) == opt_view(r.page_archetype)
        },
{
    let inputs = match resolve_plan_inputs(task_kind, url, timeout_seconds, policy, lookup, site_override, resolved) {
        Ok(i) => i,
        Err(e) => {
            return Err(e);
        },
    };
    let PlanInputs { mode: actual_mode, archetype: page_archetype, budget, allowed, seed, warnings } = inputs;
    let mut warnings = warnings;
    let (behavior_plan, skipped_steps) = build_behavior_plan(
        actual_mode.as_str(),
        page_archetype.as_str(),
        seed.as_str(),
        &budget,
        &allowed,
    );
    let ghost w_before_skip = strings_view(warnings@);
    assert(compile_warnings(task_kind@, timeout_seconds, *policy, *site_override, *lookup, *resolved, seq![])
        =~= w_before_skip);
    let mut i: usize = 0;
    while i < skipped_steps.len()
        invariant
            i <= skipped_steps@.len(),
            strings_view(warnings@) == w_before_skip + Seq::new(
                i as nat,
                |k: int| "plan step skipped: "@ + skipped_steps@[k]@,
            ),
        decreases skipped_steps@.len() - i,
    {
        let ghost prev = warnings@;
        let message = concat2("plan step skipped: ", skipped_steps[i].as_str());
        warnings.push(message);
        proof {
            lemma_strings_view_push(prev, message);
        }
        assert(strings_view(warnings@) =~= w_before_skip + Seq::new(
            (i + 1) as nat,
            |k: int| "plan step skipped: "@ + skipped_steps@[k]@,
        ));
        i = i + 1;
    }
    proof {
        lemma_planned_latency_fits(page_archetype@, seed@, budget, strings_view(allowed@));
    }
    let estimated: i64 = if str_eq(actual_mode.as_str(), "active") {
        proof {
            super::lemma_mode_names_distinct();
        }
        estimate_added_latency_ms(match &behavior_plan {
            Some(p) => Some(p),
            None => None,
        })
    } else {
        0
    };
    let planned: i64 = match &behavior_plan {
        Some(p) => step_count(p),
        None => 0,
    };
    let session_persisted = string_in_list("persist_session_state", &allowed);
    let capability: String = if str_eq(actual_mode.as_str(), "active") {
        owned("compiled_active")
    } else if str_eq(actual_mode.as_str(), "shadow") {
        owned("compiled_shadow")
    } else {
        owned("disabled")
    };
    let resolution_status: String = if str_eq(actual_mode.as_str(), "disabled") {
        owned("disabled")
    } else {
        owned("resolved")
    };
    let ignored = collect_ignored_primitives(
        match &policy.allowed_primitives {
            Some(v) => Some(v),
            None => None,
        },
        match &site_override.allowed_primitives {
            Some(v) => Some(v),
            None => None,
        },
    );
    let trace_summary = BehaviorTraceSummary {
        planned_steps: planned,
        executed_steps: 0,
        failed_steps: 0,
        aborted: false,
        abort_reason: None,
        session_persisted,
        raw_trace_persisted: false,
        total_added_latency_ms: estimated,
    };
    let explain = BehaviorRuntimeExplain {
        requested_behavior_profile_id: match requested_behavior_profile_id {
            Some(p) => Some(owned(p)),
            None => None,
        },
        resolved_behavior_profile_id: Some(owned(resolved.profile.id.as_str())),
        resolved_version: Some(resolved.profile.version),
        resolution_source: owned(resolved.source.as_str()),
        page_archetype: Some(owned(page_archetype.as_str())),
        capability_status: capability,
        applied_primitives: crate::text::clone_strings(&allowed),
        ignored_primitives: ignored,
        skipped_steps,
        seed: Some(owned(seed.as_str())),
        budget: Some(budget),
        total_added_latency_ms: estimated,
        warnings,
    };
    let normalized_policy = NormalizedBehaviorPolicy {
        mode: owned(actual_mode.as_str()),
        page_archetype: owned(page_archetype.as_str()),
        allow_site_overrides: lookup.allow_site_overrides,
        budget,
        plan_seed: owned(seed.as_str()),
        allowed_primitives: allowed,
    };
    Ok(BehaviorCompileResult {
        behavior_profile_id: Some(owned(resolved.profile.id.as_str())),
        behavior_profile_version: Some(resolved.profile.version),
        behavior_resolution_status: resolution_status,
        behavior_execution_mode: actual_mode,
        page_archetype: Some(page_archetype),
        behavior_seed: Some(seed),
        behavior_profile: Some(BehaviorProfile {
            id: owned(resolved.profile.id.as_str()),
            version: resolved.profile.version,
            allowed_primitives: crate::text::clone_strings(&resolved.profile.allowed_primitives),
        }),
        behavior_plan,
        behavior_runtime_explain: explain,
        behavior_trace_summary: trace_summary,
        normalized_policy,
        site_key: copy_opt_string(&lookup.site_key),
    })
}

/// A site override that lists primitives confines every step a compiled plan
/// takes to that list, whenever the task's own policy lists none.
pub proof fn lemma_site_override_confines_steps(
    policy: BehaviorPolicyInput,
    site: BehaviorPolicyInput,
    lookup: BehaviorSiteLookup,
    resolved: ResolvedBehaviorProfile,
    seed: Seq<char>,
    budget: BehaviorBudget,
)
    requires
        policy.allowed_primitives is None,
        site.allowed_primitives is Some,
    ensures
        ({
            let steps = planned_steps(
                compiled_archetype(policy, site, lookup),
                seed,
                budget,
                compiled_primitives(policy, site, lookup, resolved),
            );
            forall|i: int|
                0 <= i < steps.len() ==> strings_view(site.allowed_primitives.unwrap()@).contains(
                    #[trigger] steps[i].primitive,
                )
        }),
{
    let listed = strings_view(site.allowed_primitives.unwrap()@);
    let allowed = compiled_primitives(policy, site, lookup, resolved);
    let archetype = compiled_archetype(policy, site, lookup);
    assert(allowed == dedup_supported(listed));
    lemma_allowed_primitives_from_request(listed);
    lemma_planned_steps_use_allowed_primitives(archetype, seed, budget, allowed);
    let steps = planned_steps(archetype, seed, budget, allowed);
    assert forall|i: int| 0 <= i < steps.len() implies listed.contains(#[trigger] steps[i].primitive) by {
        assert(allowed.contains(steps[i].primitive));
        let k = choose|k: int| 0 <= k < allowed.len() && allowed[k] == steps[i].primitive;
        assert(listed.contains(allowed[k]));
    }
}

} // verus!
