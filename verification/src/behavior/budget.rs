//! Latency budgets and the primitives a behavior plan may use.
use vstd::prelude::*;

use super::{
    default_primitive_names, default_primitives_for_archetype, is_browser_task_kind,
    supported_primitive_names, supported_primitives, browser_task_kinds,
};
use crate::numtext::{decimal_text, i64_to_text};
use crate::text::{clone_strings, concat2, owned, owned_strings, str_in_list, string_in_list, strings_view, strs_view};

verus! {

/// How much latency, reserve and how many steps a behavior plan may add.
#[derive(Debug, Clone, Copy, PartialEq, Eq, Structural)]
pub struct BehaviorBudget {
    pub max_added_latency_ms: i64,
    pub timeout_reserve_ms: i64,
    pub max_step_count: i64,
}

/// The integer fields of a budget override object (absent or non-integer fields are `None`).
#[derive(Debug, Clone, Copy, PartialEq, Eq, Structural)]
pub struct BudgetOverride {
    pub max_added_latency_ms: Option<i64>,
    pub timeout_reserve_ms: Option<i64>,
    pub max_step_count: Option<i64>,
}

/// The starting budget: generous for browser tasks, empty otherwise.
pub open spec fn base_budget(browser: bool) -> BehaviorBudget {
    if browser {
        BehaviorBudget { max_added_latency_ms: 12000, timeout_reserve_ms: 3000, max_step_count: 24 }
    } else {
        BehaviorBudget { max_added_latency_ms: 0, timeout_reserve_ms: 0, max_step_count: 0 }
    }
}

/// The budget after the fields that an override object sets.
pub open spec fn overridden_budget(budget: BehaviorBudget, over: Option<BudgetOverride>) -> BehaviorBudget {
    match over {
        None => budget,
        Some(o) => BehaviorBudget {
            max_added_latency_ms: match o.max_added_latency_ms {
                Some(v) => v,
                None => budget.max_added_latency_ms,
            },
            timeout_reserve_ms: match o.timeout_reserve_ms {
                Some(v) => v,
                None => budget.timeout_reserve_ms,
            },
            max_step_count: match o.max_step_count {
                Some(v) => v,
                None => budget.max_step_count,
            },
        },
    }
}

pub fn apply_budget_override(target: &mut BehaviorBudget, over: Option<&BudgetOverride>)
    ensures
        *final(target) == overridden_budget(*old(target), match over {
            Some(o) => Some(*o),
            None => None,
        }),
{
    if let Some(o) = over {
        if let Some(v) = o.max_added_latency_ms {
            target.max_added_latency_ms = v;
        }
        if let Some(v) = o.timeout_reserve_ms {
            target.timeout_reserve_ms = v;
        }
        if let Some(v) = o.max_step_count {
            target.max_step_count = v;
        }
    }
}

/// The task timeout in milliseconds, when it is given, fits in `i64` and is positive.
pub open spec fn timeout_window_ms(timeout_seconds: Option<i64>) -> Option<int> {
    match timeout_seconds {
        Some(t) => if i64::MIN <= t * 1000 <= i64::MAX && t * 1000 > 0 {
            Some(t * 1000)
        } else {
            None
        },
        None => None,
    }
}

/// `i64::saturating_sub` on mathematical integers.
pub open spec fn saturate_i64(v: int) -> int {
    if v < i64::MIN {
        i64::MIN as int
    } else if v > i64::MAX {
        i64::MAX as int
    } else {
        v
    }
}

pub open spec fn max0(v: int) -> int {
    if v < 0 {
        0
    } else {
        v
    }
}

/// The latency that fits in the timeout window after the reserve, when a window applies.
pub open spec fn available_latency(timeout_seconds: Option<i64>, budget: BehaviorBudget) -> Option<int> {
    match timeout_window_ms(timeout_seconds) {
        Some(ms) => Some(saturate_i64(ms - budget.timeout_reserve_ms)),
        None => None,
    }
}

/// Whether the timeout window forces the added latency down.
pub open spec fn latency_clipped(timeout_seconds: Option<i64>, budget: BehaviorBudget) -> bool {
    match available_latency(timeout_seconds, budget) {
        Some(avail) => budget.max_added_latency_ms > avail,
        None => false,
    }
}

/// The budget before clipping: defaults, then the site override, then the task override.
pub open spec fn layered_budget(
    task_kind: Seq<char>,
    task_budget: Option<BudgetOverride>,
    site_budget: Option<BudgetOverride>,
) -> BehaviorBudget {
    overridden_budget(
        overridden_budget(base_budget(browser_task_kinds().contains(task_kind)), site_budget),
        task_budget,
    )
}

/// The merged budget: layered, clipped to the timeout window and with negative fields raised to 0.
pub open spec fn merged_budget(
    task_kind: Seq<char>,
    timeout_seconds: Option<i64>,
    task_budget: Option<BudgetOverride>,
    site_budget: Option<BudgetOverride>,
) -> BehaviorBudget {
    let b = layered_budget(task_kind, task_budget, site_budget);
    let latency: int = if latency_clipped(timeout_seconds, b) {
        max0(available_latency(timeout_seconds, b)->0)
    } else {
        b.max_added_latency_ms as int
    };
    BehaviorBudget {
        max_added_latency_ms: max0(latency) as i64,
        timeout_reserve_ms: max0(b.timeout_reserve_ms as int) as i64,
        max_step_count: max0(b.max_step_count as int) as i64,
    }
}

/// The warning recorded when the timeout window clips the added latency.
pub open spec fn clip_warning(from: int, to: int) -> Seq<char> {
    "behavior max_added_latency_ms clipped from "@ + decimal_text(from) + " to "@ + decimal_text(to)
        + " to respect timeout budget"@
}

/// The warnings that merging a budget adds.
pub open spec fn merge_budget_warnings(
    task_kind: Seq<char>,
    timeout_seconds: Option<i64>,
    task_budget: Option<BudgetOverride>,
    site_budget: Option<BudgetOverride>,
) -> Seq<Seq<char>> {
    let b = layered_budget(task_kind, task_budget, site_budget);
    if latency_clipped(timeout_seconds, b) {
        seq![clip_warning(b.max_added_latency_ms as int, available_latency(timeout_seconds, b)->0)]
    } else {
        seq![]
    }
}

pub open spec fn opt_budget(o: Option<&BudgetOverride>) -> Option<BudgetOverride> {
    match o {
        Some(v) => Some(*v),
        None => None,
    }
}

pub fn merge_budget(
    task_kind: &str,
    timeout_seconds: Option<i64>,
    task_budget: Option<&BudgetOverride>,
    site_budget: Option<&BudgetOverride>,
    warnings: &mut Vec<String>,
) -> (budget: BehaviorBudget)
    ensures
        budget == merged_budget(task_kind@, timeout_seconds, opt_budget(task_budget), opt_budget(site_budget)),
        strings_view(final(warnings)@) == strings_view(old(warnings)@) + merge_budget_warnings(
            task_kind@,
            timeout_seconds,
            opt_budget(task_budget),
            opt_budget(site_budget),
        ),
{
    let mut budget = if is_browser_task_kind(task_kind) {
        BehaviorBudget { max_added_latency_ms: 12000, timeout_reserve_ms: 3000, max_step_count: 24 }
    } else {
        BehaviorBudget { max_added_latency_ms: 0, timeout_reserve_ms: 0, max_step_count: 0 }
    };
    apply_budget_override(&mut budget, site_budget);
    apply_budget_override(&mut budget, task_budget);
    let ghost layered = budget;
    let ghost w0 = warnings@;
    if let Some(t) = timeout_seconds {
        let ms: i128 = (t as i128) * 1000;
        if ms >= (i64::MIN as i128) && ms <= (i64::MAX as i128) && ms > 0 {
            let diff: i128 = ms - (budget.timeout_reserve_ms as i128);
            let available: i64 = if diff < (i64::MIN as i128) {
                i64::MIN
            } else if diff > (i64::MAX as i128) {
                i64::MAX
            } else {
                diff as i64
            };
            if budget.max_added_latency_ms > available {
                let from = i64_to_text(budget.max_added_latency_ms);
                let to = i64_to_text(available);
                let mut message = concat2("behavior max_added_latency_ms clipped from ", from.as_str());
                message.append(" to ");
                message.append(to.as_str());
                message.append(" to respect timeout budget");
                warnings.push(message);
                budget.max_added_latency_ms = if available < 0 {
                    0
                } else {
                    available
                };
            }
        }
    }
    if budget.max_added_latency_ms < 0 {
        budget.max_added_latency_ms = 0;
    }
    if budget.timeout_reserve_ms < 0 {
        budget.timeout_reserve_ms = 0;
    }
    if budget.max_step_count < 0 {
        budget.max_step_count = 0;
    }
    assert(strings_view(warnings@) =~= strings_view(w0) + merge_budget_warnings(
        task_kind@,
        timeout_seconds,
        opt_budget(task_budget),
        opt_budget(site_budget),
    ));
    budget
}

/// The primitives a plan asks for: the task's list, else the site's list, else
/// the profile's non-empty list, else the archetype defaults.
pub open spec fn requested_primitives(
    archetype: Seq<char>,
    profile_allowed: Seq<Seq<char>>,
    task_allowed: Option<Seq<Seq<char>>>,
    site_allowed: Option<Seq<Seq<char>>>,
) -> Seq<Seq<char>> {
    match task_allowed {
        Some(t) => t,
        None => match site_allowed {
            Some(s) => s,
            None => if profile_allowed.len() == 0 {
                default_primitive_names(archetype)
            } else {
                profile_allowed
            },
        },
    }
}

/// The supported entries of `requested`, each kept once, in first-seen order.
pub open spec fn dedup_supported(requested: Seq<Seq<char>>) -> Seq<Seq<char>>
    decreases requested.len(),
{
    if requested.len() == 0 {
        seq![]
    } else {
        let prev = dedup_supported(requested.drop_last());
        let item = requested.last();
        if supported_primitive_names().contains(item) && !prev.contains(item) {
            prev.push(item)
        } else {
            prev
        }
    }
}

/// The entries of `requested` that are not supported primitives, in order.
pub open spec fn unsupported_items(requested: Seq<Seq<char>>) -> Seq<Seq<char>>
    decreases requested.len(),
{
    if requested.len() == 0 {
        seq![]
    } else {
        let prev = unsupported_items(requested.drop_last());
        let item = requested.last();
        if supported_primitive_names().contains(item) {
            prev
        } else {
            prev.push(item)
        }
    }
}

/// One warning per unsupported entry.
pub open spec fn unsupported_warnings(requested: Seq<Seq<char>>) -> Seq<Seq<char>> {
    Seq::new(
        unsupported_items(requested).len(),
        |i: int| "unsupported primitive ignored: "@ + unsupported_items(requested)[i],
    )
}

pub open spec fn opt_strings_view(v: Option<&Vec<String>>) -> Option<Seq<Seq<char>>> {
    match v {
        Some(l) => Some(strings_view(l@)),
        None => None,
    }
}


/// Resolves the primitives a plan may use: the requested list (see
/// `requested_primitives`) restricted to supported primitives without repeats;
/// every unsupported entry adds a warning.
pub fn resolve_allowed_primitives(
    page_archetype: &str,
    profile_allowed: &Vec<String>,
    task_allowed: Option<&Vec<String>>,
    site_allowed: Option<&Vec<String>>,
    warnings: &mut Vec<String>,
) -> (allowed: Vec<String>)
    ensures
        strings_view(allowed@) == dedup_supported(
            requested_primitives(
                page_archetype@,
                strings_view(profile_allowed@),
                opt_strings_view(task_allowed),
                opt_strings_view(site_allowed),
            ),
        ),
        strings_view(final(warnings)@) == strings_view(old(warnings)@) + unsupported_warnings(
            requested_primitives(
                page_archetype@,
                strings_view(profile_allowed@),
                opt_strings_view(task_allowed),
                opt_strings_view(site_allowed),
            ),
        ),
{
    let requested: Vec<String> = match task_allowed {
        Some(t) => clone_strings(t),
        None => match site_allowed {
            Some(s) => clone_strings(s),
            None => if profile_allowed.len() == 0 {
                let d = default_primitives_for_archetype(page_archetype);
                owned_strings(&d)
            } else {
                clone_strings(profile_allowed)
            },
        },
    };
    let ghost req = strings_view(requested@);
    let ghost w0 = strings_view(warnings@);
    let supported = supported_primitives();
    let mut deduped: Vec<String> = Vec::new();
    let mut i: usize = 0;
    while i < requested.len()
        invariant
            i <= requested@.len(),
            req == strings_view(requested@),
            strs_view(supported@) == supported_primitive_names(),
            strings_view(deduped@) == dedup_supported(req.subrange(0, i as int)),
            strings_view(warnings@) == w0 + unsupported_warnings(req.subrange(0, i as int)),
        decreases requested@.len() - i,
    {
        let item = &requested[i];
        let ghost sub = req.subrange(0, i + 1);
        assert(sub.drop_last() =~= req.subrange(0, i as int));
        assert(sub.last() == item@);
        if str_in_list(item.as_str(), &supported) {
            if !string_in_list(item.as_str(), &deduped) {
                let ghost prev = deduped@;
                deduped.push(owned(item.as_str()));
                assert(strings_view(deduped@) =~= strings_view(prev).push(item@));
            }
            assert(unsupported_items(sub) == unsupported_items(req.subrange(0, i as int)));
            assert(unsupported_warnings(sub) =~= unsupported_warnings(req.subrange(0, i as int)));
        } else {
            let ghost prev_w = warnings@;
            let message = concat2("unsupported primitive ignored: ", item.as_str());
            warnings.push(message);
            assert(strings_view(warnings@) =~= strings_view(prev_w).push(message@));
            assert(unsupported_warnings(sub) =~= unsupported_warnings(req.subrange(0, i as int)).push(
                "unsupported primitive ignored: "@ + item@,
            ));
        }
        i = i + 1;
    }
    assert(req.subrange(0, i as int) =~= req);
    deduped
}

/// The unsupported entries of the site list, then those of the task list.
pub fn collect_ignored_primitives(
    task_allowed: Option<&Vec<String>>,
    site_allowed: Option<&Vec<String>>,
) -> (ignored: Vec<String>)
    ensures
        strings_view(ignored@) == unsupported_items(
            match opt_strings_view(site_allowed) {
                Some(s) => s,
                None => seq![],
            },
        ) + unsupported_items(
            match opt_strings_view(task_allowed) {
                Some(t) => t,
                None => seq![],
            },
        ),
{
    let mut ignored: Vec<String> = Vec::new();
    let empty: Vec<String> = Vec::new();
    let site: &Vec<String> = match site_allowed {
        Some(s) => s,
        None => &empty,
    };
    let task: &Vec<String> = match task_allowed {
        Some(t) => t,
        None => &empty,
    };
    append_unsupported(&mut ignored, site);
    append_unsupported(&mut ignored, task);
    assert(strings_view(empty@) =~= seq![]);
    ignored
}

fn append_unsupported(out: &mut Vec<String>, items: &Vec<String>)
    ensures
        strings_view(final(out)@) == strings_view(old(out)@) + unsupported_items(strings_view(items@)),
{
    let supported = supported_primitives();
    let ghost req = strings_view(items@);
    let ghost o0 = strings_view(out@);
    let mut i: usize = 0;
    while i < items.len()
        invariant
            i <= items@.len(),
            req == strings_view(items@),
            strs_view(supported@) == supported_primitive_names(),
            strings_view(out@) == o0 + unsupported_items(req.subrange(0, i as int)),
        decreases items@.len() - i,
    {
        let ghost sub = req.subrange(0, i + 1);
        assert(sub.drop_last() =~= req.subrange(0, i as int));
        assert(sub.last() == items@[i as int]@);
        if !str_in_list(items[i].as_str(), &supported) {
            let ghost prev = out@;
            out.push(owned(items[i].as_str()));
            assert(strings_view(out@) =~= strings_view(prev).push(items@[i as int]@));
        }
        i = i + 1;
    }
    assert(req.subrange(0, i as int) =~= req);
}


/// A merged budget never lets a plan outlast its task: with a timeout
/// window, the added latency stays within what the window leaves after the
/// reserve; and no field of a merged budget is negative.
pub proof fn lemma_merged_budget_fits_timeout(
    task_kind: Seq<char>,
    timeout_seconds: Option<i64>,
    task_budget: Option<BudgetOverride>,
    site_budget: Option<BudgetOverride>,
)
    ensures
        merged_budget(task_kind, timeout_seconds, task_budget, site_budget).max_added_latency_ms >= 0,
        merged_budget(task_kind, timeout_seconds, task_budget, site_budget).timeout_reserve_ms >= 0,
        merged_budget(task_kind, timeout_seconds, task_budget, site_budget).max_step_count >= 0,
        available_latency(timeout_seconds, layered_budget(task_kind, task_budget, site_budget)) matches Some(avail)
            ==> merged_budget(task_kind, timeout_seconds, task_budget, site_budget).max_added_latency_ms <= max0(
            avail,
        ),
{
}

/// The primitives a plan may use are supported, each listed once, and taken
/// from the list that was asked for.
pub proof fn lemma_allowed_primitives_from_request(requested: Seq<Seq<char>>)
    ensures
        forall|i: int| 0 <= i < dedup_supported(requested).len() ==> supported_primitive_names().contains(
            #[trigger] dedup_supported(requested)[i],
        ) && requested.contains(dedup_supported(requested)[i]),
        forall|i: int, j: int|
            0 <= i < j < dedup_supported(requested).len() ==> #[trigger] dedup_supported(requested)[i]
                != #[trigger] dedup_supported(requested)[j],
    decreases requested.len(),
{
    if requested.len() > 0 {
        let pre = requested.drop_last();
        lemma_allowed_primitives_from_request(pre);
        let prev = dedup_supported(pre);
        let r = dedup_supported(requested);
        assert forall|i: int| 0 <= i < r.len() implies supported_primitive_names().contains(#[trigger] r[i])
            && requested.contains(r[i]) by {
            if i < prev.len() {
                assert(r[i] == prev[i]);
                let k = choose|k: int| 0 <= k < pre.len() && pre[k] == prev[i];
                assert(requested[k] == pre[k]);
            } else {
                assert(r[i] == requested.last());
                assert(requested[requested.len() - 1] == requested.last());
            }
        }
        assert forall|i: int, j: int| 0 <= i < j < r.len() implies #[trigger] r[i] != #[trigger] r[j] by {
            if j < prev.len() {
                assert(r[i] == prev[i] && r[j] == prev[j]);
            } else {
                assert(r[j] == requested.last());
                assert(r[i] == prev[i]);
                assert(!prev.contains(requested.last()));
            }
        }
    }
}

/// The task's own budget override wins: a field it sets (to a non-negative
/// value) is that field of the merged budget, whatever the site override
/// says; a field it leaves unset takes the site override's value.
pub proof fn lemma_task_budget_overrides_site(
    task_kind: Seq<char>,
    timeout_seconds: Option<i64>,
    task_budget: Option<BudgetOverride>,
    site_budget: Option<BudgetOverride>,
)
    ensures
        ({
            let m = merged_budget(task_kind, timeout_seconds, task_budget, site_budget);
            let t = task_budget->0;
            let st = site_budget->0;
            &&& (task_budget is Some && t.max_step_count is Some && t.max_step_count->0 >= 0)
                ==> m.max_step_count == t.max_step_count->0
            &&& (task_budget is Some && t.timeout_reserve_ms is Some && t.timeout_reserve_ms->0 >= 0)
                ==> m.timeout_reserve_ms == t.timeout_reserve_ms->0
            &&& ((task_budget is None || t.max_step_count is None) && site_budget is Some && st.max_step_count is Some
                && st.max_step_count->0 >= 0) ==> m.max_step_count == st.max_step_count->0
        }),
{
}

} // verus!
