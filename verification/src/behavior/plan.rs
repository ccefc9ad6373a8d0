//! Deterministic behavior plans: seeded step parameters, primitive filtering,
//! step caps and the soft-abort guard.
use std::collections::hash_map::DefaultHasher;
use std::hash::Hasher;
use vstd::prelude::*;
use vstd::std_specs::hash::DefaultHasherAdditionalSpecFns;

use super::budget::BehaviorBudget;
use crate::bindings::{hash_str_into, hasher_after_str};
use crate::numtext::{hex_digits, u64_to_prefixed_hex};
use crate::text::{concat2, owned, str_eq, string_in_list, strings_view, strs_view};

verus! {

/// The hasher's write log after hashing each string of `parts` in turn.
pub open spec fn writes_after_strs(parts: Seq<Seq<char>>) -> Seq<Seq<u8>>
    decreases parts.len(),
{
    if parts.len() == 0 {
        seq![]
    } else {
        hasher_after_str(writes_after_strs(parts.drop_last()), parts.last())
    }
}

/// What `DefaultHasher` yields after hashing each string of `parts` in turn.
pub open spec fn hash_of_strs(parts: Seq<Seq<char>>) -> u64 {
    DefaultHasher::spec_finish(writes_after_strs(parts))
}

/// Hashes the strings in order with a fresh `DefaultHasher`.
pub fn hash_strs(parts: &Vec<&str>) -> (h: u64)
    ensures
        h == hash_of_strs(strs_view(parts@)),
{
    let mut hasher = DefaultHasher::new();
    let mut i: usize = 0;
    while i < parts.len()
        invariant
            i <= parts@.len(),
            hasher@ == writes_after_strs(strs_view(parts@).subrange(0, i as int)),
        decreases parts@.len() - i,
    {
        hash_str_into(&mut hasher, parts[i]);
        let ghost sub = strs_view(parts@).subrange(0, i + 1);
        assert(sub.drop_last() =~= strs_view(parts@).subrange(0, i as int));
        i = i + 1;
    }
    assert(strs_view(parts@).subrange(0, i as int) =~= strs_view(parts@));
    hasher.finish()
}

/// A seeded value in `min..=max` derived from the seed and a label.
pub open spec fn plan_param(seed: Seq<char>, label: Seq<char>, min: int, max: int) -> int {
    if max <= min {
        min
    } else {
        min + (hash_of_strs(seq![seed, label]) as int) % (max - min + 1)
    }
}

/// A seeded value in `min..=max` derived from the seed and a label.
pub fn deterministic_i64(seed: &str, label: &str, min: i64, max: i64) -> (v: i64)
    requires
        min < max ==> max - min + 1 <= i64::MAX,
    ensures
        v == plan_param(seed@, label@, min as int, max as int),
        min < max ==> min <= v <= max,
{
    if max <= min {
        return min;
    }
    let parts = vec![seed, label];
    assert(strs_view(parts@) =~= seq![seed@, label@]);
    let bucket = hash_strs(&parts);
    let span: u64 = (max - min + 1) as u64;
    let r: u64 = bucket % span;
    min + (r as i64)
}

/// A sample bucket in `0..10` derived from a seed.
pub open spec fn sample_bucket(seed: Seq<char>) -> int {
    (hash_of_strs(seq![seed]) as int) % 10
}

pub fn deterministic_bucket(seed: &str) -> (b: u64)
    ensures
        b == sample_bucket(seed@),
        b < 10,
{
    let parts = vec![seed];
    assert(strs_view(parts@) =~= seq![seed@]);
    hash_strs(&parts) % 10
}

/// The text, or nothing when it is absent.
pub open spec fn or_empty(o: Option<Seq<char>>) -> Seq<char> {
    match o {
        Some(v) => v,
        None => Seq::empty(),
    }
}

/// The strings hashed to derive a plan seed when no seed is given.
pub open spec fn seed_hash_parts(
    task_kind: Seq<char>,
    url: Option<Seq<char>>,
    archetype: Seq<char>,
    profile_id: Option<Seq<char>>,
) -> Seq<Seq<char>> {
    seq![task_kind, or_empty(url), archetype, or_empty(profile_id)]
}

/// The plan seed: the task's, else the site's, else a hash of the task shape.
pub open spec fn resolved_seed(
    task_kind: Seq<char>,
    url: Option<Seq<char>>,
    archetype: Seq<char>,
    profile_id: Option<Seq<char>>,
    task_seed: Option<Seq<char>>,
    site_seed: Option<Seq<char>>,
) -> Seq<char> {
    match task_seed {
        Some(s) => s,
        None => match site_seed {
            Some(s) => s,
            None => "seed-0x"@ + hex_digits(
                hash_of_strs(seed_hash_parts(task_kind, url, archetype, profile_id)) as nat,
            ),
        },
    }
}

pub fn resolve_seed(
    task_kind: &str,
    url: Option<&str>,
    page_archetype: &str,
    behavior_profile_id: Option<&str>,
    task_seed: Option<&str>,
    site_seed: Option<&str>,
) -> (seed: String)
    ensures
        seed@ == resolved_seed(
            task_kind@,
            crate::text::opt_str_view(url),
            page_archetype@,
            crate::text::opt_str_view(behavior_profile_id),
            crate::text::opt_str_view(task_seed),
            crate::text::opt_str_view(site_seed),
        ),
{
    match task_seed {
        Some(s) => owned(s),
        None => match site_seed {
            Some(s) => owned(s),
            None => {
                let u: &str = match url {
                    Some(u) => u,
                    None => "",
                };
                let p: &str = match behavior_profile_id {
                    Some(p) => p,
                    None => "",
                };
                let parts = vec![task_kind, u, page_archetype, p];
                proof {
                    reveal_strlit("");
                    assert(""@ =~= Seq::<char>::empty());
                    assert(u@ == or_empty(crate::text::opt_str_view(url)));
                    assert(p@ == or_empty(crate::text::opt_str_view(behavior_profile_id)));
                }
                assert(strs_view(parts@) =~= seed_hash_parts(
                    task_kind@,
                    crate::text::opt_str_view(url),
                    page_archetype@,
                    crate::text::opt_str_view(behavior_profile_id),
                ));
                let h = hash_strs(&parts);
                let hex = u64_to_prefixed_hex(h);
                let seed = concat2("seed-", hex.as_str());
                proof {
                    reveal_strlit("seed-");
                    reveal_strlit("seed-0x");
                    assert(seed@ =~= "seed-0x"@ + hex_digits(h as nat));
                }
                seed
            },
        },
    }
}

/// The extra field that a plan step carries.
#[derive(Debug, Clone, PartialEq, Eq)]
pub enum StepDetail {
    Plain,
    DurationMs(i64),
    Segments(i64),
    Ratio(i64),
    StableWindowMs(i64),
    MaxCorrections(i64),
    Target(String),
    Profile(String),
    BudgetMs(i64),
}

/// One step of a behavior plan.
#[derive(Debug, Clone)]
pub struct BehaviorPlanStep {
    pub phase: String,
    pub primitive: String,
    pub detail: StepDetail,
}

/// The mathematical form of a step detail.
pub enum DetailSpec {
    Plain,
    DurationMs(int),
    Segments(int),
    Ratio(int),
    StableWindowMs(int),
    MaxCorrections(int),
    Target(Seq<char>),
    Profile(Seq<char>),
    BudgetMs(int),
}

/// The mathematical form of a plan step.
pub struct StepSpec {
    pub phase: Seq<char>,
    pub primitive: Seq<char>,
    pub detail: DetailSpec,
}

pub open spec fn detail_view(d: StepDetail) -> DetailSpec {
    match d {
        StepDetail::Plain => DetailSpec::Plain,
        StepDetail::DurationMs(v) => DetailSpec::DurationMs(v as int),
        StepDetail::Segments(v) => DetailSpec::Segments(v as int),
        StepDetail::Ratio(v) => DetailSpec::Ratio(v as int),
        StepDetail::StableWindowMs(v) => DetailSpec::StableWindowMs(v as int),
        StepDetail::MaxCorrections(v) => DetailSpec::MaxCorrections(v as int),
        StepDetail::Target(s) => DetailSpec::Target(s@),
        StepDetail::Profile(s) => DetailSpec::Profile(s@),
        StepDetail::BudgetMs(v) => DetailSpec::BudgetMs(v as int),
    }
}

pub open spec fn step_view(s: BehaviorPlanStep) -> StepSpec {
    StepSpec { phase: s.phase@, primitive: s.primitive@, detail: detail_view(s.detail) }
}

pub open spec fn steps_view(v: Seq<BehaviorPlanStep>) -> Seq<StepSpec> {
    Seq::new(v.len(), |i: int| step_view(v[i]))
}

/// The views of a step list after a push are the old views plus the new view.
pub proof fn lemma_steps_view_push(v: Seq<BehaviorPlanStep>, x: BehaviorPlanStep)
    ensures
        steps_view(v.push(x)) == steps_view(v).push(step_view(x)),
{
    assert(steps_view(v.push(x)) =~= steps_view(v).push(step_view(x)));
}

pub open spec fn mk_spec(phase: Seq<char>, primitive: Seq<char>, detail: DetailSpec) -> StepSpec {
    StepSpec { phase, primitive, detail }
}

fn mk_step(phase: &str, primitive: &str, detail: StepDetail) -> (s: BehaviorPlanStep)
    ensures
        step_view(s) == mk_spec(phase@, primitive@, detail_view(detail)),
{
    BehaviorPlanStep { phase: owned(phase), primitive: owned(primitive), detail }
}

/// The candidate steps for a page archetype, with seeded parameters.
pub open spec fn default_step_specs(archetype: Seq<char>, seed: Seq<char>) -> Seq<StepSpec> {
    let ready = mk_spec("readiness"@, "wait_for_readiness"@, DetailSpec::Plain);
    if archetype == "article"@ {
        seq![
            ready,
            mk_spec("settle"@, "idle"@, DetailSpec::DurationMs(plan_param(seed, "article:idle"@, 220, 900))),
            mk_spec("scan"@, "scroll_progressive"@, DetailSpec::Segments(plan_param(seed, "article:scroll"@, 2, 5))),
            mk_spec("consume"@, "pause_on_content"@, DetailSpec::DurationMs(plan_param(seed, "article:pause"@, 400, 1600))),
            mk_spec(
                "consume"@,
                "wait_for_content_stable"@,
                DetailSpec::StableWindowMs(plan_param(seed, "article:stable"@, 500, 1400)),
            ),
        ]
    } else if archetype == "search_results"@ || archetype == "listing"@ {
        seq![
            ready,
            mk_spec("settle"@, "idle"@, DetailSpec::DurationMs(plan_param(seed, "listing:idle"@, 150, 500))),
            mk_spec("scan"@, "scroll_progressive"@, DetailSpec::Segments(plan_param(seed, "listing:scroll"@, 2, 4))),
            mk_spec("scan"@, "hover_candidate"@, DetailSpec::Target("ranked-visible-item"@)),
            mk_spec("scan"@, "pause_on_content"@, DetailSpec::DurationMs(plan_param(seed, "listing:pause"@, 180, 600))),
        ]
    } else if archetype == "product"@ {
        seq![
            ready,
            mk_spec("settle"@, "idle"@, DetailSpec::DurationMs(plan_param(seed, "product:idle"@, 180, 700))),
            mk_spec("scan"@, "scroll_to_ratio"@, DetailSpec::Ratio(plan_param(seed, "product:ratio"@, 35, 88))),
            mk_spec("scan"@, "hover_candidate"@, DetailSpec::Target("primary-media"@)),
            mk_spec("consume"@, "pause_on_content"@, DetailSpec::DurationMs(plan_param(seed, "product:pause"@, 220, 1000))),
        ]
    } else if archetype == "form"@ || archetype == "auth"@ {
        seq![
            ready,
            mk_spec("focus"@, "focus_element"@, DetailSpec::Target("primary-form-field"@)),
            mk_spec("input"@, "type_with_rhythm"@, DetailSpec::Profile("human_rhythm"@)),
            mk_spec(
                "input"@,
                "clear_with_corrections"@,
                DetailSpec::MaxCorrections(plan_param(seed, "form:corrections"@, 1, 3)),
            ),
            mk_spec("settle"@, "blur_element"@, DetailSpec::Target("primary-form-field"@)),
            mk_spec(
                "settle"@,
                "wait_for_content_stable"@,
                DetailSpec::StableWindowMs(plan_param(seed, "form:stable"@, 350, 900)),
            ),
            mk_spec("persist"@, "persist_session_state"@, DetailSpec::Plain),
        ]
    } else if archetype == "dashboard"@ {
        seq![
            ready,
            mk_spec("settle"@, "idle"@, DetailSpec::DurationMs(plan_param(seed, "dashboard:idle"@, 200, 600))),
            mk_spec("scan"@, "hover_candidate"@, DetailSpec::Target("interactive-module"@)),
            mk_spec("scan"@, "scroll_progressive"@, DetailSpec::Segments(plan_param(seed, "dashboard:scroll"@, 1, 3))),
            mk_spec("persist"@, "persist_session_state"@, DetailSpec::Plain),
        ]
    } else {
        seq![
            ready,
            mk_spec("settle"@, "idle"@, DetailSpec::DurationMs(plan_param(seed, "generic:idle"@, 180, 500))),
            mk_spec("scan"@, "scroll_progressive"@, DetailSpec::Segments(plan_param(seed, "generic:scroll"@, 1, 3))),
            mk_spec("consume"@, "pause_on_content"@, DetailSpec::DurationMs(plan_param(seed, "generic:pause"@, 160, 480))),
        ]
    }
}

fn ready_step() -> (s: BehaviorPlanStep)
    ensures
        step_view(s) == mk_spec("readiness"@, "wait_for_readiness"@, DetailSpec::Plain),
{
    mk_step("readiness", "wait_for_readiness", StepDetail::Plain)
}

fn timed_step(phase: &str, primitive: &str, seed: &str, label: &str, min: i64, max: i64) -> (s: BehaviorPlanStep)
    requires
        min < max < 10000,
        0 <= min,
    ensures
        step_view(s) == mk_spec(phase@, primitive@, DetailSpec::DurationMs(plan_param(seed@, label@, min as int, max as int))),
{
    mk_step(phase, primitive, StepDetail::DurationMs(deterministic_i64(seed, label, min, max)))
}

pub fn default_plan_steps(page_archetype: &str, seed: &str) -> (steps: Vec<BehaviorPlanStep>)
    ensures
        steps_view(steps@) == default_step_specs(page_archetype@, seed@),
{
    if str_eq(page_archetype, "article") {
        let v = vec![
            ready_step(),
            timed_step("settle", "idle", seed, "article:idle", 220, 900),
            mk_step("scan", "scroll_progressive", StepDetail::Segments(deterministic_i64(seed, "article:scroll", 2, 5))),
            timed_step("consume", "pause_on_content", seed, "article:pause", 400, 1600),
            mk_step(
                "consume",
                "wait_for_content_stable",
                StepDetail::StableWindowMs(deterministic_i64(seed, "article:stable", 500, 1400)),
            ),
        ];
        assert(steps_view(v@) =~= default_step_specs(page_archetype@, seed@));
        v
    } else if str_eq(page_archetype, "search_results") || str_eq(page_archetype, "listing") {
        let v = vec![
            ready_step(),
            timed_step("settle", "idle", seed, "listing:idle", 150, 500),
            mk_step("scan", "scroll_progressive", StepDetail::Segments(deterministic_i64(seed, "listing:scroll", 2, 4))),
            mk_step("scan", "hover_candidate", StepDetail::Target(owned("ranked-visible-item"))),
            timed_step("scan", "pause_on_content", seed, "listing:pause", 180, 600),
        ];
        assert(steps_view(v@) =~= default_step_specs(page_archetype@, seed@));
        v
    } else if str_eq(page_archetype, "product") {
        let v = vec![
            ready_step(),
            timed_step("settle", "idle", seed, "product:idle", 180, 700),
            mk_step("scan", "scroll_to_ratio", StepDetail::Ratio(deterministic_i64(seed, "product:ratio", 35, 88))),
            mk_step("scan", "hover_candidate", StepDetail::Target(owned("primary-media"))),
            timed_step("consume", "pause_on_content", seed, "product:pause", 220, 1000),
        ];
        assert(steps_view(v@) =~= default_step_specs(page_archetype@, seed@));
        v
    } else if str_eq(page_archetype, "form") || str_eq(page_archetype, "auth") {
        let v = vec![
            ready_step(),
            mk_step("focus", "focus_element", StepDetail::Target(owned("primary-form-field"))),
            mk_step("input", "type_with_rhythm", StepDetail::Profile(owned("human_rhythm"))),
            mk_step(
                "input",
                "clear_with_corrections",
                StepDetail::MaxCorrections(deterministic_i64(seed, "form:corrections", 1, 3)),
            ),
            mk_step("settle", "blur_element", StepDetail::Target(owned("primary-form-field"))),
            mk_step(
                "settle",
                "wait_for_content_stable",
                StepDetail::StableWindowMs(deterministic_i64(seed, "form:stable", 350, 900)),
            ),
            mk_step("persist", "persist_session_state", StepDetail::Plain),
        ];
        assert(steps_view(v@) =~= default_step_specs(page_archetype@, seed@));
        v
    } else if str_eq(page_archetype, "dashboard") {
        let v = vec![
            ready_step(),
            timed_step("settle", "idle", seed, "dashboard:idle", 200, 600),
            mk_step("scan", "hover_candidate", StepDetail::Target(owned("interactive-module"))),
            mk_step("scan", "scroll_progressive", StepDetail::Segments(deterministic_i64(seed, "dashboard:scroll", 1, 3))),
            mk_step("persist", "persist_session_state", StepDetail::Plain),
        ];
        assert(steps_view(v@) =~= default_step_specs(page_archetype@, seed@));
        v
    } else {
        let v = vec![
            ready_step(),
            timed_step("settle", "idle", seed, "generic:idle", 180, 500),
            mk_step("scan", "scroll_progressive", StepDetail::Segments(deterministic_i64(seed, "generic:scroll", 1, 3))),
            timed_step("consume", "pause_on_content", seed, "generic:pause", 160, 480),
        ];
        assert(steps_view(v@) =~= default_step_specs(page_archetype@, seed@));
        v
    }
}

/// The steps whose primitive is in `allowed`, in order.
pub open spec fn allowed_steps(steps: Seq<StepSpec>, allowed: Seq<Seq<char>>) -> Seq<StepSpec>
    decreases steps.len(),
{
    if steps.len() == 0 {
        seq![]
    } else {
        let prev = allowed_steps(steps.drop_last(), allowed);
        if allowed.contains(steps.last().primitive) {
            prev.push(steps.last())
        } else {
            prev
        }
    }
}

/// How many steps the budget lets a plan keep (0 means no cap).
pub open spec fn step_cap(budget: BehaviorBudget) -> int {
    if budget.max_step_count <= 0 {
        0
    } else if budget.max_step_count as int <= usize::MAX as int {
        budget.max_step_count as int
    } else {
        0
    }
}

/// Whether the cap cuts the candidate list.
pub open spec fn cap_applies(candidates: Seq<StepSpec>, cap: int) -> bool {
    cap > 0 && candidates.len() > cap
}

pub open spec fn capped_steps(candidates: Seq<StepSpec>, cap: int) -> Seq<StepSpec> {
    if cap_applies(candidates, cap) {
        candidates.take(cap)
    } else {
        candidates
    }
}

/// The primitives of the steps that the cap cut off.
pub open spec fn skipped_primitives(candidates: Seq<StepSpec>, cap: int) -> Seq<Seq<char>> {
    if cap_applies(candidates, cap) {
        Seq::new((candidates.len() - cap) as nat, |i: int| candidates[cap + i].primitive)
    } else {
        seq![]
    }
}

/// Whether some step runs the primitive.
pub open spec fn has_primitive(steps: Seq<StepSpec>, primitive: Seq<char>) -> bool {
    exists|i: int| 0 <= i < steps.len() && steps[i].primitive == primitive
}

/// The soft-abort guard appended to plans that allow it.
pub open spec fn guard_step(budget: BehaviorBudget) -> StepSpec {
    mk_spec("guard"@, "soft_abort_if_budget_exceeded"@, DetailSpec::BudgetMs(budget.max_added_latency_ms as int))
}

/// The candidate steps that survive the allow-list.
pub open spec fn candidate_steps(archetype: Seq<char>, seed: Seq<char>, allowed: Seq<Seq<char>>) -> Seq<StepSpec> {
    allowed_steps(default_step_specs(archetype, seed), allowed)
}

proof fn lemma_allowed_steps_allowed(steps: Seq<StepSpec>, allowed: Seq<Seq<char>>)
    ensures
        forall|i: int| 0 <= i < allowed_steps(steps, allowed).len()
            ==> allowed.contains(#[trigger] allowed_steps(steps, allowed)[i].primitive),
    decreases steps.len(),
{
    if steps.len() > 0 {
        lemma_allowed_steps_allowed(steps.drop_last(), allowed);
        let prev = allowed_steps(steps.drop_last(), allowed);
        if allowed.contains(steps.last().primitive) {
            assert forall|i: int| 0 <= i < prev.push(steps.last()).len()
                implies allowed.contains(#[trigger] prev.push(steps.last())[i].primitive) by {
                if i < prev.len() {
                    assert(prev.push(steps.last())[i] == prev[i]);
                }
            }
        }
    }
}

/// Every step of a plan uses a primitive of the allow-list it was planned
/// with, so a compiled plan only runs primitives its explanation lists as
/// applied.
pub proof fn lemma_planned_steps_use_allowed_primitives(
    archetype: Seq<char>,
    seed: Seq<char>,
    budget: BehaviorBudget,
    allowed: Seq<Seq<char>>,
)
    ensures
        forall|i: int| 0 <= i < planned_steps(archetype, seed, budget, allowed).len()
            ==> allowed.contains(#[trigger] planned_steps(archetype, seed, budget, allowed)[i].primitive),
{
    let c = candidate_steps(archetype, seed, allowed);
    lemma_allowed_steps_allowed(default_step_specs(archetype, seed), allowed);
    let kept = capped_steps(c, step_cap(budget));
    assert forall|i: int| 0 <= i < kept.len() implies allowed.contains(#[trigger] kept[i].primitive) by {
        assert(kept[i] == c[i]);
    }
    let p = planned_steps(archetype, seed, budget, allowed);
    assert forall|i: int| 0 <= i < p.len() implies allowed.contains(#[trigger] p[i].primitive) by {
        if i < kept.len() {
            assert(p[i] == kept[i]);
        } else {
            assert(p[i] == guard_step(budget));
        }
    }
}

/// The steps of the plan: allowed candidates, capped, plus the guard when allowed and missing.
pub open spec fn planned_steps(
    archetype: Seq<char>,
    seed: Seq<char>,
    budget: BehaviorBudget,
    allowed: Seq<Seq<char>>,
) -> Seq<StepSpec> {
    let kept = capped_steps(candidate_steps(archetype, seed, allowed), step_cap(budget));
    if allowed.contains("soft_abort_if_budget_exceeded"@) && !has_primitive(
        kept,
        "soft_abort_if_budget_exceeded"@,
    ) {
        kept.push(guard_step(budget))
    } else {
        kept
    }
}

/// A compiled behavior plan.
#[derive(Debug, Clone)]
pub struct BehaviorPlan {
    pub plan_version: i64,
    pub seed: String,
    pub page_archetype: Option<String>,
    pub budget: BehaviorBudget,
    pub steps: Vec<BehaviorPlanStep>,
}

fn clone_step(step: &BehaviorPlanStep) -> (c: BehaviorPlanStep)
    ensures
        step_view(c) == step_view(*step),
{
    let detail = match &step.detail {
        StepDetail::Plain => StepDetail::Plain,
        StepDetail::DurationMs(v) => StepDetail::DurationMs(*v),
        StepDetail::Segments(v) => StepDetail::Segments(*v),
        StepDetail::Ratio(v) => StepDetail::Ratio(*v),
        StepDetail::StableWindowMs(v) => StepDetail::StableWindowMs(*v),
        StepDetail::MaxCorrections(v) => StepDetail::MaxCorrections(*v),
        StepDetail::Target(t) => StepDetail::Target(owned(t.as_str())),
        StepDetail::Profile(t) => StepDetail::Profile(owned(t.as_str())),
        StepDetail::BudgetMs(v) => StepDetail::BudgetMs(*v),
    };
    BehaviorPlanStep { phase: owned(step.phase.as_str()), primitive: owned(step.primitive.as_str()), detail }
}

/// Builds the plan for a mode, archetype, seed, budget and allow-list; a
/// disabled mode builds none. Also returns the primitives the step cap skipped.
pub fn build_behavior_plan(
    behavior_mode: &str,
    page_archetype: &str,
    seed: &str,
    budget: &BehaviorBudget,
    allowed_primitives: &Vec<String>,
) -> (result: (Option<BehaviorPlan>, Vec<String>))
    ensures
        behavior_mode@ == "disabled"@ ==> result.0 is None && result.1@.len() == 0,
        behavior_mode@ != "disabled"@ ==> {
            &&& result.0 matches Some(plan)
            &&& plan.plan_version == 1
            &&& plan.seed@ == seed@
            &&& plan.page_archetype matches Some(a) && a@ == page_archetype@
            &&& plan.budget == *budget
            &&& steps_view(plan.steps@) == planned_steps(
                page_archetype@,
                seed@,
                *budget,
                strings_view(allowed_primitives@),
            )
            &&& strings_view(result.1@) == skipped_primitives(
                candidate_steps(page_archetype@, seed@, strings_view(allowed_primitives@)),
                step_cap(*budget),
            )
        },
{
    if str_eq(behavior_mode, "disabled") {
        return (None, Vec::new());
    }
    let ghost allowed = strings_view(allowed_primitives@);
    let defaults = default_plan_steps(page_archetype, seed);
    let ghost dv = steps_view(defaults@);
    let mut candidates: Vec<BehaviorPlanStep> = Vec::new();
    let mut i: usize = 0;
    while i < defaults.len()
        invariant
            i <= defaults@.len(),
            dv == steps_view(defaults@),
            allowed == strings_view(allowed_primitives@),
            steps_view(candidates@) == allowed_steps(dv.subrange(0, i as int), allowed),
        decreases defaults@.len() - i,
    {
        let ghost sub = dv.subrange(0, i + 1);
        assert(sub.drop_last() =~= dv.subrange(0, i as int));
        assert(sub.last() == step_view(defaults@[i as int]));
        if string_in_list(defaults[i].primitive.as_str(), allowed_primitives) {
            let ghost prev = candidates@;
            candidates.push(clone_step(&defaults[i]));
            assert(steps_view(candidates@) =~= steps_view(prev).push(step_view(defaults@[i as int])));
        }
        i = i + 1;
    }
    assert(dv.subrange(0, i as int) =~= dv);
    let ghost cands = steps_view(candidates@);
    let cap: usize = if budget.max_step_count <= 0 {
        0
    } else if (budget.max_step_count as u64 as u128) <= (usize::MAX as u128) {
        budget.max_step_count as usize
    } else {
        0
    };
    assert(cap as int == step_cap(*budget));
    let mut skipped: Vec<String> = Vec::new();
    let mut kept: Vec<BehaviorPlanStep> = Vec::new();
    if cap > 0 && candidates.len() > cap {
        let mut k: usize = cap;
        while k < candidates.len()
            invariant
                cap <= k <= candidates@.len(),
                cands == steps_view(candidates@),
                strings_view(skipped@) == Seq::new((k - cap) as nat, |j: int| cands[cap + j].primitive),
            decreases candidates@.len() - k,
        {
            let ghost prev = skipped@;
            let item = owned(candidates[k].primitive.as_str());
            skipped.push(item);
            proof {
                crate::text::lemma_strings_view_push(prev, item);
                assert(cands[k as int] == step_view(candidates@[k as int]));
            }
            assert(strings_view(skipped@) =~= Seq::new((k + 1 - cap) as nat, |j: int| cands[cap + j].primitive));
            k = k + 1;
        }
        let mut j: usize = 0;
        while j < cap
            invariant
                j <= cap < candidates@.len(),
                cands == steps_view(candidates@),
                steps_view(kept@) == cands.take(j as int),
            decreases cap - j,
        {
            let ghost prev = kept@;
            let item = clone_step(&candidates[j]);
            kept.push(item);
            proof {
                lemma_steps_view_push(prev, item);
                assert(cands[j as int] == step_view(candidates@[j as int]));
            }
            assert(steps_view(kept@) =~= cands.take(j + 1));
            j = j + 1;
        }
    } else {
        let mut j: usize = 0;
        while j < candidates.len()
            invariant
                j <= candidates@.len(),
                cands == steps_view(candidates@),
                steps_view(kept@) == cands.take(j as int),
            decreases candidates@.len() - j,
        {
            let ghost prev = kept@;
            let item = clone_step(&candidates[j]);
            kept.push(item);
            proof {
                lemma_steps_view_push(prev, item);
                assert(cands[j as int] == step_view(candidates@[j as int]));
            }
            assert(steps_view(kept@) =~= cands.take(j + 1));
            j = j + 1;
        }
        assert(cands.take(j as int) =~= cands);
    }
    let ghost kv = steps_view(kept@);
    assert(kv == capped_steps(cands, cap as int));
    let guard_allowed = string_in_list("soft_abort_if_budget_exceeded", allowed_primitives);
    let mut has_guard = false;
    let mut m: usize = 0;
    while m < kept.len()
        invariant
            m <= kept@.len(),
            kv == steps_view(kept@),
            has_guard == (exists|q: int| 0 <= q < m && kv[q].primitive == "soft_abort_if_budget_exceeded"@),
        decreases kept@.len() - m,
    {
        if str_eq(kept[m].primitive.as_str(), "soft_abort_if_budget_exceeded") {
            assert(kv[m as int].primitive == "soft_abort_if_budget_exceeded"@);
            has_guard = true;
        }
        m = m + 1;
    }
    if guard_allowed && !has_guard {
        kept.push(mk_step("guard", "soft_abort_if_budget_exceeded", StepDetail::BudgetMs(budget.max_added_latency_ms)));
        assert(steps_view(kept@) =~= kv.push(guard_step(*budget)));
    }
    let plan = BehaviorPlan {
        plan_version: 1,
        seed: owned(seed),
        page_archetype: Some(owned(page_archetype)),
        budget: *budget,
        steps: kept,
    };
    (Some(plan), skipped)
}

pub fn step_count(plan: &BehaviorPlan) -> (n: i64)
    ensures
        n == if plan.steps@.len() <= i64::MAX {
            plan.steps@.len() as int
        } else {
            0
        },
{
    if (plan.steps.len() as u128) <= (i64::MAX as u128) {
        plan.steps.len() as i64
    } else {
        0
    }
}

/// The latency a primitive adds when its step names no duration.
pub open spec fn primitive_default_latency(primitive: Seq<char>) -> int {
    if primitive == "wait_for_readiness"@ {
        300
    } else if primitive == "scroll_progressive"@ {
        700
    } else if primitive == "scroll_to_ratio"@ {
        500
    } else if primitive == "hover_candidate"@ {
        180
    } else if primitive == "focus_element"@ {
        120
    } else if primitive == "blur_element"@ {
        80
    } else if primitive == "type_with_rhythm"@ {
        900
    } else if primitive == "clear_with_corrections"@ {
        500
    } else if primitive == "persist_session_state"@ {
        120
    } else if primitive == "soft_abort_if_budget_exceeded"@ {
        0
    } else {
        200
    }
}

/// The latency one step adds: its duration or stable window, else the primitive default.
pub open spec fn step_latency(step: StepSpec) -> int {
    match step.detail {
        DetailSpec::DurationMs(v) => v,
        DetailSpec::StableWindowMs(v) => v,
        _ => primitive_default_latency(step.primitive),
    }
}

/// The latency of the steps, summed.
pub open spec fn latency_sum(steps: Seq<StepSpec>) -> int
    decreases steps.len(),
{
    if steps.len() == 0 {
        0
    } else {
        latency_sum(steps.drop_last()) + step_latency(steps.last())
    }
}

/// Every running total of the step latencies fits in `i64`.
pub open spec fn latency_sums_fit(steps: Seq<StepSpec>) -> bool {
    forall|k: int| 0 <= k <= steps.len() ==> i64::MIN <= #[trigger] latency_sum(steps.take(k)) <= i64::MAX
}

fn primitive_latency(primitive: &str) -> (ms: i64)
    ensures
        ms == primitive_default_latency(primitive@),
{
    if str_eq(primitive, "wait_for_readiness") {
        300
    } else if str_eq(primitive, "scroll_progressive") {
        700
    } else if str_eq(primitive, "scroll_to_ratio") {
        500
    } else if str_eq(primitive, "hover_candidate") {
        180
    } else if str_eq(primitive, "focus_element") {
        120
    } else if str_eq(primitive, "blur_element") {
        80
    } else if str_eq(primitive, "type_with_rhythm") {
        900
    } else if str_eq(primitive, "clear_with_corrections") {
        500
    } else if str_eq(primitive, "persist_session_state") {
        120
    } else if str_eq(primitive, "soft_abort_if_budget_exceeded") {
        0
    } else {
        200
    }
}

/// The latency a plan is expected to add (0 without a plan).
pub fn estimate_added_latency_ms(plan: Option<&BehaviorPlan>) -> (ms: i64)
    requires
        plan matches Some(p) ==> latency_sums_fit(steps_view(p.steps@)),
    ensures
        ms == match plan {
            Some(p) => latency_sum(steps_view(p.steps@)),
            None => 0,
        },
{
    let p = match plan {
        Some(p) => p,
        None => {
            return 0;
        },
    };
    let ghost sv = steps_view(p.steps@);
    let mut total: i64 = 0;
    let mut i: usize = 0;
    while i < p.steps.len()
        invariant
            i <= p.steps@.len(),
            sv == steps_view(p.steps@),
            latency_sums_fit(sv),
            total == latency_sum(sv.take(i as int)),
        decreases p.steps@.len() - i,
    {
        let step = &p.steps[i];
        let ms: i64 = match &step.detail {
            StepDetail::DurationMs(v) => *v,
            StepDetail::StableWindowMs(v) => *v,
            _ => primitive_latency(step.primitive.as_str()),
        };
        assert(ms == step_latency(sv[i as int]));
        assert(sv.take(i + 1).drop_last() =~= sv.take(i as int));
        assert(i64::MIN <= latency_sum(sv.take(i + 1)) <= i64::MAX);
        total = total + ms;
        i = i + 1;
    }
    assert(sv.take(i as int) =~= sv);
    total
}


/// An explicit seed is kept as given: the task's seed first, else the site's.
/// The same explicit seed therefore yields the same plan seed whatever the
/// task, URL, archetype or profile.
pub proof fn lemma_explicit_seed_is_kept(
    task_kind: Seq<char>,
    url: Option<Seq<char>>,
    archetype: Seq<char>,
    profile_id: Option<Seq<char>>,
    task_seed: Option<Seq<char>>,
    site_seed: Option<Seq<char>>,
)
    ensures
        task_seed matches Some(s) ==> resolved_seed(task_kind, url, archetype, profile_id, task_seed, site_seed) == s,
        task_seed is None && site_seed is Some ==> resolved_seed(task_kind, url, archetype, profile_id, task_seed, site_seed)
            == site_seed->0,
{
}

} // verus!
