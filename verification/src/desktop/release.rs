//! The release smoke contract: how measured release metrics grade against
//! their budgets, the release health it reports, and what each runtime
//! adapter has proven so far.
use vstd::prelude::*;

use super::report::{signals_of, EvidenceReportFields, SignalStatusFields};
use super::report_json::{entry_pointer, entry_ptr, key_ptr};
use crate::bindings::{json_i64_at, json_list_len_at, json_str_at, json_text_i64_at, json_text_list_len_at, json_text_str_at};
use super::types::DesktopRuntimeAdapterContractItem;
use crate::numtext::{decimal_digits, u64_to_text};
use crate::text::{
    concat2, concat3, insert_sorted_unique, join_strings, joined, nonblank_trimmed,
    normalized_optional_text, opt_str_view, opt_view, owned, owned_strings, str_eq,
    strictly_sorted, strings_view, strs_view, trimmed_nonempty, trimmed_nonempty_items,
    lemma_strings_view_push,
};

verus! {

/// How a measured release metric grades against its target.
#[derive(Debug, Clone)]
pub struct ReleaseBudgetVerdict {
    pub drift_target: i64,
    pub status: String,
    pub excess: Option<i64>,
}

/// Integer division rounding toward zero, as machine division does.
pub open spec fn div_toward_zero(a: int, b: int) -> int {
    if a >= 0 {
        a / b
    } else {
        -((-a) / b)
    }
}

/// The drift target of a budget: the target plus ten percent, rounded up for
/// a non-negative target (the quotient is taken toward zero).
pub open spec fn drift_target_of(target: int) -> int {
    div_toward_zero(target * 110 + 99, 100)
}

/// Grades a measured metric: passed within the target, tolerated within the
/// drift target, over budget beyond it, not measured without a measurement.
pub open spec fn budget_status(target: int, measured: Option<i64>) -> Seq<char> {
    match measured {
        None => "not_measured"@,
        Some(v) => if v <= target {
            "passed"@
        } else if v <= drift_target_of(target) {
            "within_10_percent_drift"@
        } else {
            "over_budget"@
        },
    }
}

pub fn release_budget_verdict(target: i64, measured: Option<i64>) -> (r: ReleaseBudgetVerdict)
    requires
        -83848836698679780 <= target <= 83848836698679779,
        measured matches Some(m) ==> i64::MIN <= m - target <= i64::MAX,
    ensures
        r.drift_target as int == drift_target_of(target as int),
        r.status@ == budget_status(target as int, measured),
        r.excess == match measured {
            Some(m) => Some((m - target) as i64),
            None => None,
        },
{
    let drift_target = (target * 110 + 99) / 100;
    let status = match measured {
        None => owned("not_measured"),
        Some(v) => if v <= target {
            owned("passed")
        } else if v <= drift_target {
            owned("within_10_percent_drift")
        } else {
            owned("over_budget")
        },
    };
    let excess = match measured {
        Some(m) => Some(m - target),
        None => None,
    };
    ReleaseBudgetVerdict { drift_target, status, excess }
}

/// The cold start target of a release, in milliseconds.
pub const COLD_START_TARGET_MS: i64 = 2000;
/// The idle resident memory target of a release, in megabytes.
pub const IDLE_RSS_TARGET_MB: i64 = 220;
/// The process count target of a release.
pub const PROCESS_COUNT_TARGET: i64 = 4;

/// A release budget that the contract grades when the report lists none.
#[derive(Debug, Clone)]
pub struct ReleaseBudgetDefinition {
    pub id: String,
    pub label: String,
    pub unit: String,
    pub target: i64,
    pub mitigation_hint: String,
}

pub open spec fn budget_definition_view(d: ReleaseBudgetDefinition) -> (Seq<char>, Seq<char>, Seq<char>, i64, Seq<char>) {
    (d.id@, d.label@, d.unit@, d.target, d.mitigation_hint@)
}

/// The default release budgets, in order: cold start, idle RSS and process count.
pub open spec fn default_budget_rows() -> Seq<(Seq<char>, Seq<char>, Seq<char>, i64, Seq<char>)> {
    seq![
        ("cold_start"@, "Cold start"@, "ms"@, COLD_START_TARGET_MS, "Delay heavy startup reads until after first paint."@),
        ("idle_rss"@, "Idle RSS"@, "MB"@, IDLE_RSS_TARGET_MB,
            "Break down WebView2 and sidecar RSS before claiming performance green."@),
        ("process_count"@, "Process count"@, "processes"@, PROCESS_COUNT_TARGET,
            "Check duplicate sidecars and stale release instances."@),
    ]
}

fn budget_definition(id: &str, label: &str, unit: &str, target: i64, mitigation_hint: &str) -> (d: ReleaseBudgetDefinition)
    ensures
        budget_definition_view(d) == (id@, label@, unit@, target, mitigation_hint@),
{
    ReleaseBudgetDefinition {
        id: owned(id),
        label: owned(label),
        unit: owned(unit),
        target,
        mitigation_hint: owned(mitigation_hint),
    }
}

/// The budgets a release is graded against when its report lists none.
pub fn default_release_budgets() -> (v: Vec<ReleaseBudgetDefinition>)
    ensures
        v@.map_values(|d: ReleaseBudgetDefinition| budget_definition_view(d)) == default_budget_rows(),
{
    let v = vec![
        budget_definition("cold_start", "Cold start", "ms", COLD_START_TARGET_MS, "Delay heavy startup reads until after first paint."),
        budget_definition(
            "idle_rss",
            "Idle RSS",
            "MB",
            IDLE_RSS_TARGET_MB,
            "Break down WebView2 and sidecar RSS before claiming performance green.",
        ),
        budget_definition(
            "process_count",
            "Process count",
            "processes",
            PROCESS_COUNT_TARGET,
            "Check duplicate sidecars and stale release instances.",
        ),
    ];
    assert(v@.map_values(|d: ReleaseBudgetDefinition| budget_definition_view(d)) =~= default_budget_rows());
    v
}

/// A budget row that a release report lists, without its float excess
/// percentage, which stays with the caller; `index` is the row's position in
/// the report's `budgetResults` list.
#[derive(Debug, Clone)]
pub struct ReleaseBudgetRow {
    pub index: usize,
    pub id: String,
    pub label: String,
    pub unit: String,
    pub target: i64,
    pub drift_target: i64,
    pub measured: Option<i64>,
    pub status: String,
    pub excess: Option<i64>,
    pub drift_reason: Option<String>,
    pub mitigation_hint: String,
}

/// The mathematical value of a [`ReleaseBudgetRow`].
pub struct ReleaseBudgetRowView {
    pub index: int,
    pub id: Seq<char>,
    pub label: Seq<char>,
    pub unit: Seq<char>,
    pub target: i64,
    pub drift_target: i64,
    pub measured: Option<i64>,
    pub status: Seq<char>,
    pub excess: Option<i64>,
    pub drift_reason: Option<Seq<char>>,
    pub mitigation_hint: Seq<char>,
}

pub open spec fn budget_row_view(r: ReleaseBudgetRow) -> ReleaseBudgetRowView {
    ReleaseBudgetRowView {
        index: r.index as int,
        id: r.id@,
        label: r.label@,
        unit: r.unit@,
        target: r.target,
        drift_target: r.drift_target,
        measured: r.measured,
        status: r.status@,
        excess: r.excess,
        drift_reason: opt_view(r.drift_reason),
        mitigation_hint: r.mitigation_hint@,
    }
}

/// The pointer of key `k` of entry `i` of a report's `budgetResults` list.
pub open spec fn budget_key_pointer(i: nat, k: Seq<char>) -> Seq<char> {
    entry_pointer("/budgetResults"@, i) + "/"@ + k
}

/// The text under key `k` of budget entry `i`, trimmed, `None` when blank.
pub open spec fn budget_text_at(t: Seq<char>, i: nat, k: Seq<char>) -> Option<Seq<char>> {
    nonblank_trimmed(json_text_str_at(t, budget_key_pointer(i, k)))
}

pub open spec fn text_or(v: Option<Seq<char>>, default: Seq<char>) -> Seq<char> {
    match v {
        Some(x) => x,
        None => default,
    }
}

/// How budget entry `i` of the report text `t` reads: dropped without an id;
/// else labelled "Release budget", unitless, measured against 0 with status
/// "not_measured" and no hint, wherever the entry says nothing of these.
pub open spec fn budget_row_at(t: Seq<char>, i: nat) -> Option<ReleaseBudgetRowView> {
    match budget_text_at(t, i, "id"@) {
        None => None,
        Some(id) => Some(
            ReleaseBudgetRowView {
                index: i as int,
                id,
                label: text_or(budget_text_at(t, i, "label"@), "Release budget"@),
                unit: text_or(budget_text_at(t, i, "unit"@), Seq::empty()),
                target: match json_text_i64_at(t, budget_key_pointer(i, "target"@)) {
                    Some(v) => v,
                    None => 0,
                },
                drift_target: match json_text_i64_at(t, budget_key_pointer(i, "driftTarget"@)) {
                    Some(v) => v,
                    None => 0,
                },
                measured: json_text_i64_at(t, budget_key_pointer(i, "measured"@)),
                status: text_or(budget_text_at(t, i, "status"@), "not_measured"@),
                excess: json_text_i64_at(t, budget_key_pointer(i, "excess"@)),
                drift_reason: budget_text_at(t, i, "driftReason"@),
                mitigation_hint: text_or(budget_text_at(t, i, "mitigationHint"@), Seq::empty()),
            },
        ),
    }
}

/// The rows the first `n` budget entries give, in order.
pub open spec fn budget_rows_upto(t: Seq<char>, n: nat) -> Seq<ReleaseBudgetRowView>
    decreases n,
{
    if n == 0 {
        seq![]
    } else {
        let prev = budget_rows_upto(t, (n - 1) as nat);
        match budget_row_at(t, (n - 1) as nat) {
            Some(r) => prev.push(r),
            None => prev,
        }
    }
}

/// The budget rows a release report text lists: none without a
/// `budgetResults` list.
pub open spec fn budget_rows_of(t: Seq<char>) -> Seq<ReleaseBudgetRowView> {
    match json_text_list_len_at(t, "/budgetResults"@) {
        Some(n) => budget_rows_upto(t, n as nat),
        None => seq![],
    }
}

fn budget_text(t: &str, entry: &str, key: &str) -> (r: Option<String>)
    ensures
        opt_view(r) == nonblank_trimmed(json_text_str_at(t@, entry@ + "/"@ + key@)),
{
    let p = key_ptr(entry, key);
    normalized_optional_text(json_str_at(t, p.as_str()))
}

fn budget_int(t: &str, entry: &str, key: &str) -> (r: Option<i64>)
    ensures
        r == json_text_i64_at(t@, entry@ + "/"@ + key@),
{
    let p = key_ptr(entry, key);
    json_i64_at(t, p.as_str())
}

fn text_or_owned(v: Option<String>, default: &str) -> (r: String)
    ensures
        r@ == text_or(opt_view(v), default@),
{
    match v {
        Some(x) => x,
        None => owned(default),
    }
}

fn read_budget_row(t: &str, i: usize) -> (r: Option<ReleaseBudgetRow>)
    ensures
        match r {
            Some(row) => budget_row_at(t@, i as nat) == Some(budget_row_view(row)),
            None => budget_row_at(t@, i as nat) is None,
        },
{
    let entry = entry_ptr("/budgetResults", i);
    let e = entry.as_str();
    let id = match budget_text(t, e, "id") {
        Some(id) => id,
        None => return None,
    };
    let target = match budget_int(t, e, "target") {
        Some(v) => v,
        None => 0,
    };
    let drift_target = match budget_int(t, e, "driftTarget") {
        Some(v) => v,
        None => 0,
    };
    let row = ReleaseBudgetRow {
        index: i,
        id,
        label: text_or_owned(budget_text(t, e, "label"), "Release budget"),
        unit: text_or_owned(budget_text(t, e, "unit"), ""),
        target,
        drift_target,
        measured: budget_int(t, e, "measured"),
        status: text_or_owned(budget_text(t, e, "status"), "not_measured"),
        excess: budget_int(t, e, "excess"),
        drift_reason: budget_text(t, e, "driftReason"),
        mitigation_hint: text_or_owned(budget_text(t, e, "mitigationHint"), ""),
    };
    proof {
        reveal_strlit("");
        assert(""@ =~= Seq::<char>::empty());
        let v = budget_row_view(row);
        let w = budget_row_at(t@, i as nat)->0;
        assert(v.id == w.id);
        assert(v.label == w.label);
        assert(v.unit == w.unit);
        assert(v.target == w.target);
        assert(v.measured == w.measured);
        assert(v.status == w.status);
        assert(v.drift_reason == w.drift_reason);
        assert(v.mitigation_hint == w.mitigation_hint);
    }
    assert(budget_row_at(t@, i as nat) == Some(budget_row_view(row)));
    Some(row)
}

/// The budget rows a release report's text lists under `budgetResults`,
/// each entry read by the pointers of its keys (see [`budget_row_at`]).
pub fn release_budget_rows_from_report(text: &str) -> (v: Vec<ReleaseBudgetRow>)
    ensures
        v@.map_values(|r: ReleaseBudgetRow| budget_row_view(r)) == budget_rows_of(text@),
{
    let mut out: Vec<ReleaseBudgetRow> = Vec::new();
    let n = match json_list_len_at(text, "/budgetResults") {
        Some(n) => n,
        None => {
            assert(out@.map_values(|r: ReleaseBudgetRow| budget_row_view(r)) =~= seq![]);
            return out;
        },
    };
    let mut i: usize = 0;
    while i < n
        invariant
            i <= n,
            json_text_list_len_at(text@, "/budgetResults"@) == Some(n),
            out@.map_values(|r: ReleaseBudgetRow| budget_row_view(r)) == budget_rows_upto(text@, i as nat),
        decreases n - i,
    {
        let ghost prev = out@;
        match read_budget_row(text, i) {
            Some(row) => {
                out.push(row);
                assert(out@.map_values(|r: ReleaseBudgetRow| budget_row_view(r)) =~= prev.map_values(
                    |r: ReleaseBudgetRow| budget_row_view(r),
                ).push(budget_row_view(row)));
            },
            None => {},
        }
        i = i + 1;
    }
    out
}

/// A graded budget as the release contract reads it back.
#[derive(Debug, Clone)]
pub struct ReleaseBudgetOutcome {
    pub status: String,
    pub has_drift_reason: bool,
    pub mitigation_hint: String,
}

/// The budget status of a release: the report's own, else derived from the
/// latest smoke status and the graded budgets.
pub open spec fn release_budget_status(
    report_budget_status: Option<Seq<char>>,
    latest_status: Option<Seq<char>>,
    results: Seq<ReleaseBudgetOutcome>,
) -> Seq<char> {
    match nonblank_trimmed(report_budget_status) {
        Some(s) => s,
        None => if latest_status == Some("failed"@) {
            "failed_smoke"@
        } else if latest_status == Some("warning"@) {
            if exists|i: int| 0 <= i < results.len() && (#[trigger] results[i]).status@ == "over_budget"@ {
                "over_budget"@
            } else if exists|i: int|
                0 <= i < results.len() && (#[trigger] results[i]).status@ == "within_10_percent_drift"@
                    && !results[i].has_drift_reason {
                "within_10_percent_drift_requires_reason"@
            } else {
                "within_10_percent_drift_recorded"@
            }
        } else if latest_status == Some("passed"@) {
            "within_budget"@
        } else {
            "pending_operator_measurement"@
        },
    }
}

fn opt_str_is(v: Option<&str>, lit: &str) -> (r: bool)
    ensures
        r == (opt_str_view(v) == Some(lit@)),
{
    match v {
        Some(x) => str_eq(x, lit),
        None => false,
    }
}

pub fn derive_release_budget_status(
    report_budget_status: Option<String>,
    latest_status: Option<&str>,
    results: &Vec<ReleaseBudgetOutcome>,
) -> (r: String)
    ensures
        r@ == release_budget_status(opt_view(report_budget_status), opt_str_view(latest_status), results@),
{
    match normalized_optional_text(report_budget_status) {
        Some(s) => return s,
        None => {},
    }
    if opt_str_is(latest_status, "failed") {
        owned("failed_smoke")
    } else if opt_str_is(latest_status, "warning") {
        let mut over = false;
        let mut unexplained_drift = false;
        let mut i: usize = 0;
        while i < results.len()
            invariant
                i <= results@.len(),
                over == exists|k: int| 0 <= k < i && (#[trigger] results@[k]).status@ == "over_budget"@,
                unexplained_drift == exists|k: int|
                    0 <= k < i && (#[trigger] results@[k]).status@ == "within_10_percent_drift"@
                        && !results@[k].has_drift_reason,
            decreases results@.len() - i,
        {
            if str_eq(results[i].status.as_str(), "over_budget") {
                over = true;
            }
            if str_eq(results[i].status.as_str(), "within_10_percent_drift") && !results[i].has_drift_reason {
                unexplained_drift = true;
            }
            i = i + 1;
        }
        if over {
            owned("over_budget")
        } else if unexplained_drift {
            owned("within_10_percent_drift_requires_reason")
        } else {
            owned("within_10_percent_drift_recorded")
        }
    } else if opt_str_is(latest_status, "passed") {
        owned("within_budget")
    } else {
        owned("pending_operator_measurement")
    }
}

/// The release health status: the report's own, else read off the budget status.
pub open spec fn release_health_status(report_health_status: Option<Seq<char>>, budget: Seq<char>) -> Seq<char> {
    match nonblank_trimmed(report_health_status) {
        Some(s) => s,
        None => if budget == "failed_smoke"@ {
            "failed_smoke"@
        } else if budget == "within_budget"@ {
            "healthy"@
        } else if budget == "within_10_percent_drift_recorded"@ {
            "drift_tolerated_with_reason"@
        } else if budget == "within_10_percent_drift_requires_reason"@ {
            "drift_reason_required"@
        } else if budget == "pending_operator_measurement"@ {
            "pending_operator_measurement"@
        } else {
            "budget_overrun"@
        },
    }
}

pub fn derive_release_health_status(report_health_status: Option<String>, budget_status: &str) -> (r: String)
    ensures
        r@ == release_health_status(opt_view(report_health_status), budget_status@),
{
    match normalized_optional_text(report_health_status) {
        Some(s) => s,
        None => if str_eq(budget_status, "failed_smoke") {
            owned("failed_smoke")
        } else if str_eq(budget_status, "within_budget") {
            owned("healthy")
        } else if str_eq(budget_status, "within_10_percent_drift_recorded") {
            owned("drift_tolerated_with_reason")
        } else if str_eq(budget_status, "within_10_percent_drift_requires_reason") {
            owned("drift_reason_required")
        } else if str_eq(budget_status, "pending_operator_measurement") {
            owned("pending_operator_measurement")
        } else {
            owned("budget_overrun")
        },
    }
}

/// The release health summary: the report's own, else one built from the
/// health and budget statuses.
pub fn release_health_summary_text(report_summary: Option<String>, health_status: &str, budget_status: &str) -> (r: String)
    ensures
        r@ == match nonblank_trimmed(opt_view(report_summary)) {
            Some(s) => s,
            None => "Release health "@ + health_status@ + "; budget="@ + budget_status@ + "."@,
        },
{
    match normalized_optional_text(report_summary) {
        Some(s) => s,
        None => {
            let a = concat3("Release health ", health_status, "; budget=");
            concat3(a.as_str(), budget_status, ".")
        },
    }
}

pub const RELEASE_SMOKE_NEXT_ACTION: &'static str = "Run scripts/release_performance_smoke.ps1 against personal-pilot-tauri.exe and keep warning status until budgets pass.";

/// The release health's next action: the report's own, else running the smoke.
pub fn release_health_next_action_text(report_next_action: Option<String>) -> (r: String)
    ensures
        r@ == match nonblank_trimmed(opt_view(report_next_action)) {
            Some(s) => s,
            None => RELEASE_SMOKE_NEXT_ACTION@,
        },
{
    match normalized_optional_text(report_next_action) {
        Some(s) => s,
        None => owned(RELEASE_SMOKE_NEXT_ACTION),
    }
}

/// The mitigation hints of the budgets that did not pass, in order.
pub open spec fn failing_budget_hints(results: Seq<ReleaseBudgetOutcome>) -> Seq<Seq<char>>
    decreases results.len(),
{
    if results.len() == 0 {
        seq![]
    } else {
        let rest = failing_budget_hints(results.drop_last());
        let r = results.last();
        if r.status@ != "passed"@ && r.mitigation_hint@.len() > 0 {
            rest.push(r.mitigation_hint@)
        } else {
            rest
        }
    }
}

/// The mitigation hints a release contract lists: the report's own (trimmed,
/// without blanks) when it gives any, else those of the failing budgets.
pub fn select_mitigation_hints(report_hints: Option<Vec<String>>, results: &Vec<ReleaseBudgetOutcome>) -> (r: Vec<String>)
    ensures
        strings_view(r@) == match report_hints {
            Some(h) => if trimmed_nonempty(strings_view(h@)).len() > 0 {
                trimmed_nonempty(strings_view(h@))
            } else {
                failing_budget_hints(results@)
            },
            None => failing_budget_hints(results@),
        },
{
    match &report_hints {
        Some(h) => {
            let t = trimmed_nonempty_items(h);
            if t.len() > 0 {
                return t;
            }
        },
        None => {},
    }
    let mut out: Vec<String> = Vec::new();
    let mut i: usize = 0;
    while i < results.len()
        invariant
            i <= results@.len(),
            strings_view(out@) == failing_budget_hints(results@.subrange(0, i as int)),
        decreases results@.len() - i,
    {
        proof {
            let sub = results@.subrange(0, i as int + 1);
            assert(sub.drop_last() =~= results@.subrange(0, i as int));
            assert(sub.last() == results@[i as int]);
        }
        if !str_eq(results[i].status.as_str(), "passed") && !results[i].mitigation_hint.as_str().is_empty() {
            let hint = owned(results[i].mitigation_hint.as_str());
            proof {
                lemma_strings_view_push(out@, hint);
            }
            out.push(hint);
        }
        i = i + 1;
    }
    assert(results@.subrange(0, i as int) =~= results@);
    out
}

/// What the latest headed-external report proves.
#[derive(Debug, Clone)]
pub struct HeadedExternalEvidence {
    pub real_binary_passed: bool,
    pub validation_probe_observed: bool,
    pub repeatability_observed: bool,
    pub validation_signal_categories: Vec<String>,
}

/// The statuses of a headed-external report that ran the real binary.
pub open spec fn real_binary_status(status: Option<Seq<char>>) -> bool {
    status == Some("passed_real_binary_task"@) || status == Some("passed_real_binary_validation_probe"@)
        || status == Some("passed_real_binary_repeatability"@)
}

/// The categories the report's validation signals name (empty names
/// included).
pub open spec fn named_categories(s: Seq<SignalStatusFields>) -> Set<Seq<char>> {
    Set::new(|c: Seq<char>| exists|i: int| 0 <= i < s.len() && opt_view((#[trigger] s[i]).category) == Some(c))
}

/// `e` is what the report `f` proves (all false without a report).
pub open spec fn headed_evidence_of(f: Option<EvidenceReportFields>, e: HeadedExternalEvidence) -> bool {
    match f {
        None => !e.real_binary_passed && !e.validation_probe_observed && !e.repeatability_observed
            && e.validation_signal_categories@.len() == 0,
        Some(f) => {
            let task_passed = match f.real_binary_task {
                Some(t) => opt_view(t.status) == Some("passed"@),
                None => false,
            };
            let passed = real_binary_status(opt_view(f.status)) && task_passed;
            let result_action = match f.real_binary_task {
                Some(t) => match t.result {
                    Some(r) => match r.action {
                        Some(a) => opt_view(a),
                        None => None,
                    },
                    None => None,
                },
                None => None,
            };
            &&& e.real_binary_passed == passed
            &&& strictly_sorted(strings_view(e.validation_signal_categories@))
            &&& strings_view(e.validation_signal_categories@).to_set() == match signals_of(f) {
                Some(s) => named_categories(s),
                None => Set::empty(),
            }
            &&& e.validation_probe_observed == (passed && result_action == Some("validation_probe"@)
                && e.validation_signal_categories@.len() > 0)
            &&& e.repeatability_observed == (opt_view(f.status) == Some("passed_real_binary_repeatability"@)
                && match f.repeatability {
                Some(r) => opt_view(r.status) == Some("passed_repeatability_partial_coherence"@),
                None => false,
            })
        },
    }
}

fn named_category_list(s: &Vec<SignalStatusFields>) -> (r: Vec<String>)
    ensures
        strictly_sorted(strings_view(r@)),
        strings_view(r@).to_set() == named_categories(s@),
{
    let mut r: Vec<String> = Vec::new();
    let mut i: usize = 0;
    assert(strings_view(r@).to_set() =~= named_categories(s@.subrange(0, 0)));
    while i < s.len()
        invariant
            i <= s@.len(),
            strictly_sorted(strings_view(r@)),
            strings_view(r@).to_set() == named_categories(s@.subrange(0, i as int)),
        decreases s@.len() - i,
    {
        let ghost before = strings_view(r@).to_set();
        match &s[i].category {
            Some(c) => {
                insert_sorted_unique(&mut r, owned(c.as_str()));
            },
            None => {},
        }
        proof {
            let prev = s@.subrange(0, i as int);
            let next = s@.subrange(0, i as int + 1);
            assert forall|c: Seq<char>| named_categories(next).contains(c) <==> strings_view(r@).to_set().contains(c) by {
                if named_categories(next).contains(c) {
                    let k = choose|k: int| 0 <= k < next.len() && opt_view((#[trigger] next[k]).category) == Some(c);
                    if k < i {
                        assert(next[k] == prev[k]);
                        assert(named_categories(prev).contains(c));
                    } else {
                        assert(next[k] == s@[i as int]);
                    }
                }
                if before.contains(c) {
                    let k = choose|k: int| 0 <= k < prev.len() && opt_view((#[trigger] prev[k]).category) == Some(c);
                    assert(next[k] == prev[k]);
                    assert(named_categories(next).contains(c));
                }
                if opt_view(s@[i as int].category) == Some(c) {
                    assert(next[i as int] == s@[i as int]);
                    assert(named_categories(next).contains(c));
                }
            }
            assert(named_categories(next) =~= strings_view(r@).to_set());
        }
        i = i + 1;
    }
    assert(s@.subrange(0, i as int) =~= s@);
    r
}

/// What the latest headed-external report proves about the adapter.
pub fn headed_external_evidence(fields: Option<&EvidenceReportFields>) -> (e: HeadedExternalEvidence)
    ensures
        headed_evidence_of(
            match fields {
                Some(f) => Some(*f),
                None => None,
            },
            e,
        ),
{
    let f = match fields {
        Some(f) => f,
        None => {
            return HeadedExternalEvidence {
                real_binary_passed: false,
                validation_probe_observed: false,
                repeatability_observed: false,
                validation_signal_categories: Vec::new(),
            };
        },
    };
    let status_ok = match &f.status {
        Some(s) => str_eq(s.as_str(), "passed_real_binary_task") || str_eq(
            s.as_str(),
            "passed_real_binary_validation_probe",
        ) || str_eq(s.as_str(), "passed_real_binary_repeatability"),
        None => false,
    };
    let task_passed = match &f.real_binary_task {
        Some(t) => match &t.status {
            Some(s) => str_eq(s.as_str(), "passed"),
            None => false,
        },
        None => false,
    };
    let passed = status_ok && task_passed;
    let categories: Vec<String> = match &f.real_binary_task {
        Some(t) => match &t.result {
            Some(r) => match &r.validation_signals {
                Some(s) => named_category_list(s),
                None => {
                    let v: Vec<String> = Vec::new();
                    assert(strings_view(v@).to_set() =~= Set::empty());
                    v
                },
            },
            None => {
                let v: Vec<String> = Vec::new();
                assert(strings_view(v@).to_set() =~= Set::empty());
                v
            },
        },
        None => {
            let v: Vec<String> = Vec::new();
            assert(strings_view(v@).to_set() =~= Set::empty());
            v
        },
    };
    let action_is_probe = match &f.real_binary_task {
        Some(t) => match &t.result {
            Some(r) => match &r.action {
                Some(Some(a)) => str_eq(a.as_str(), "validation_probe"),
                _ => false,
            },
            None => false,
        },
        None => false,
    };
    let probe_observed = passed && action_is_probe && categories.len() > 0;
    let repeatability = match &f.status {
        Some(s) => str_eq(s.as_str(), "passed_real_binary_repeatability"),
        None => false,
    } && match &f.repeatability {
        Some(r) => match &r.status {
            Some(s) => str_eq(s.as_str(), "passed_repeatability_partial_coherence"),
            None => false,
        },
        None => false,
    };
    HeadedExternalEvidence {
        real_binary_passed: passed,
        validation_probe_observed: probe_observed,
        repeatability_observed: repeatability,
        validation_signal_categories: categories,
    }
}


/// `item` carries exactly these values.
pub open spec fn adapter_item_is(
    item: DesktopRuntimeAdapterContractItem,
    adapter_id: Seq<char>,
    status: Seq<char>,
    profile_runtime_evidence: Seq<char>,
    fingerprint_runtime_depth: Seq<char>,
    external_kernel_boundary: Seq<char>,
    process_lifecycle_status: Seq<char>,
    cdp_attach_status: Seq<char>,
    adapter_capabilities: Seq<Seq<char>>,
    evidence_requirements: Seq<Seq<char>>,
    blockers: Seq<Seq<char>>,
) -> bool {
    &&& item.adapter_id@ == adapter_id
    &&& item.status@ == status
    &&& item.runner_kind@ == adapter_id
    &&& item.profile_runtime_evidence@ == profile_runtime_evidence
    &&& item.fingerprint_runtime_depth@ == fingerprint_runtime_depth
    &&& item.external_kernel_boundary@ == external_kernel_boundary
    &&& item.process_lifecycle_status@ == process_lifecycle_status
    &&& item.cdp_attach_status@ == cdp_attach_status
    &&& strings_view(item.adapter_capabilities@) == adapter_capabilities
    &&& strings_view(item.evidence_requirements@) == evidence_requirements
    &&& strings_view(item.blockers@) == blockers
}

pub const FULL_HEADED_EVIDENCE_PENDING: &'static str = "full headed runtime fingerprint/leak/coherence evidence remains pending";
pub const VALIDATION_PROBE_DEPTH: &'static str = "profile browser validation probe exists; full 450 fingerprint coverage remains pending";

/// The task capabilities of the external browser adapters.
pub open spec fn browser_capabilities() -> Seq<Seq<char>> {
    seq![
        "open_page"@,
        "fetch"@,
        "get_html"@,
        "get_title"@,
        "get_final_url"@,
        "extract_text"@,
        "validation_probe"@,
    ]
}

/// The contract of the fake adapter.
pub open spec fn fake_adapter(item: DesktopRuntimeAdapterContractItem) -> bool {
    adapter_item_is(
        item,
        "fake"@,
        "available_for_contract_tests"@,
        "warning_stub_only"@,
        "none"@,
        "in_process_stub"@,
        "in_process"@,
        "not_applicable"@,
        seq!["contract_tests"@],
        seq!["must not be counted as browser runtime evidence"@],
        seq!["not real browser evidence"@],
    )
}

/// The contract of the Lightpanda adapter.
pub open spec fn lightpanda_adapter(item: DesktopRuntimeAdapterContractItem) -> bool {
    adapter_item_is(
        item,
        "lightpanda"@,
        "available_when_binary_and_cdp_are_configured"@,
        "validation_probe_contract"@,
        "26 projected fields; observed proof requires real Lightpanda/CDP smoke"@,
        "external_process_not_repo_fork"@,
        "external_process_contract"@,
        "validation_probe_contract"@,
        seq!["profile_runtime_probe"@, "cdp_validation_smoke"@],
        seq!["repeatable Lightpanda/CDP smoke report"@, "collector scope and failure reason metadata"@],
        seq!["real Lightpanda/CDP operator smoke not recorded in this contract"@],
    )
}

/// The contract of the Camoufox adapter, given whether its binary task passed.
pub open spec fn camoufox_adapter(item: DesktopRuntimeAdapterContractItem, binary_passed: bool) -> bool {
    adapter_item_is(
        item,
        "camoufox"@,
        "minimal_cdp_runner_source_test_backed"@,
        "minimal_cdp_actions_and_validation_probe"@,
        VALIDATION_PROBE_DEPTH@,
        "external_process_not_repo_fork"@,
        "spawn_wait_cleanup_contract"@,
        "Target.createTarget_attach_Page.navigate_contract"@,
        browser_capabilities(),
        seq![
            "PERSONA_PILOT_CAMOUFOX_CONFIG real binary task-run smoke"@,
            "timeout/cleanup process residue proof"@,
            "release performance report with Camoufox task-run metrics"@,
        ],
        if binary_passed {
            seq![FULL_HEADED_EVIDENCE_PENDING@]
        } else {
            seq!["real Camoufox binary task-run smoke not recorded in this contract"@, FULL_HEADED_EVIDENCE_PENDING@]
        },
    )
}

/// The contract of the headed-external adapter, given what its latest report proves.
pub open spec fn headed_adapter(item: DesktopRuntimeAdapterContractItem, e: HeadedExternalEvidence) -> bool {
    let cats = joined(strings_view(e.validation_signal_categories@), ", "@);
    adapter_item_is(
        item,
        "headed_external"@,
        if e.repeatability_observed {
            "real_binary_repeatability_recorded"@
        } else if e.validation_probe_observed {
            "real_binary_validation_probe_recorded"@
        } else if e.real_binary_passed {
            "real_binary_task_recorded"@
        } else {
            "minimal_cdp_runner_source_test_backed"@
        },
        if e.repeatability_observed {
            "profile_browser_validation_probe_repeatability_observed"@
        } else if e.validation_probe_observed {
            "profile_browser_validation_probe_observed"@
        } else if e.real_binary_passed {
            "minimal_real_binary_task_passed"@
        } else {
            "minimal_cdp_actions_and_validation_probe"@
        },
        if e.repeatability_observed {
            "repeatable partial headed profile-browser observed signals: "@ + cats
                + "; full 450 fingerprint coverage remains pending"@
        } else if e.validation_probe_observed {
            "partial headed profile-browser observed signals: "@ + cats
                + "; full 450 fingerprint coverage remains pending"@
        } else {
            VALIDATION_PROBE_DEPTH@
        },
        "external_process_not_repo_fork; not Chromium/Firefox fork host"@,
        if e.real_binary_passed {
            "passed"@
        } else {
            "spawn_wait_cleanup_contract"@
        },
        if e.real_binary_passed {
            "passed"@
        } else {
            "Target.createTarget_attach_Page.navigate_contract"@
        },
        browser_capabilities(),
        seq![
            "PERSONA_PILOT_HEADED_EXTERNAL_CONFIG real binary task-run smoke"@,
            "timeout/cleanup process residue proof"@,
            "profile runtime compatibility report"@,
        ],
        if e.real_binary_passed {
            if e.repeatability_observed {
                seq!["long-task headed runtime, remote proxy/TLS proof, and 450 observed coverage remain pending"@]
            } else if e.validation_probe_observed {
                seq!["complete headed runtime repeatability/coherence matrix and 450 observed coverage remain pending"@]
            } else {
                seq![FULL_HEADED_EVIDENCE_PENDING@]
            }
        } else {
            seq!["real headed_external binary task-run smoke not recorded in this contract"@, FULL_HEADED_EVIDENCE_PENDING@]
        },
    )
}

fn strings_of(list: Vec<&str>) -> (v: Vec<String>)
    ensures
        strings_view(v@) == strs_view(list@),
{
    owned_strings(&list)
}

fn browser_capability_list() -> (v: Vec<String>)
    ensures
        strings_view(v@) == browser_capabilities(),
{
    let list: Vec<&str> = vec!["open_page", "fetch", "get_html", "get_title", "get_final_url", "extract_text", "validation_probe"];
    assert(strs_view(list@) =~= browser_capabilities());
    strings_of(list)
}

fn fake_adapter_item() -> (item: DesktopRuntimeAdapterContractItem)
    ensures
        fake_adapter(item),
{
    let caps: Vec<&str> = vec!["contract_tests"];
    let reqs: Vec<&str> = vec!["must not be counted as browser runtime evidence"];
    let blockers: Vec<&str> = vec!["not real browser evidence"];
    assert(strs_view(caps@) =~= seq!["contract_tests"@]);
    assert(strs_view(reqs@) =~= seq!["must not be counted as browser runtime evidence"@]);
    assert(strs_view(blockers@) =~= seq!["not real browser evidence"@]);
    DesktopRuntimeAdapterContractItem {
        adapter_id: owned("fake"),
        status: owned("available_for_contract_tests"),
        runner_kind: owned("fake"),
        profile_runtime_evidence: owned("warning_stub_only"),
        fingerprint_runtime_depth: owned("none"),
        external_kernel_boundary: owned("in_process_stub"),
        process_lifecycle_status: owned("in_process"),
        cdp_attach_status: owned("not_applicable"),
        adapter_capabilities: strings_of(caps),
        evidence_requirements: strings_of(reqs),
        blockers: strings_of(blockers),
    }
}

fn lightpanda_adapter_item() -> (item: DesktopRuntimeAdapterContractItem)
    ensures
        lightpanda_adapter(item),
{
    let caps: Vec<&str> = vec!["profile_runtime_probe", "cdp_validation_smoke"];
    let reqs: Vec<&str> = vec!["repeatable Lightpanda/CDP smoke report", "collector scope and failure reason metadata"];
    let blockers: Vec<&str> = vec!["real Lightpanda/CDP operator smoke not recorded in this contract"];
    assert(strs_view(caps@) =~= seq!["profile_runtime_probe"@, "cdp_validation_smoke"@]);
    assert(strs_view(reqs@) =~= seq!["repeatable Lightpanda/CDP smoke report"@, "collector scope and failure reason metadata"@]);
    assert(strs_view(blockers@) =~= seq!["real Lightpanda/CDP operator smoke not recorded in this contract"@]);
    DesktopRuntimeAdapterContractItem {
        adapter_id: owned("lightpanda"),
        status: owned("available_when_binary_and_cdp_are_configured"),
        runner_kind: owned("lightpanda"),
        profile_runtime_evidence: owned("validation_probe_contract"),
        fingerprint_runtime_depth: owned("26 projected fields; observed proof requires real Lightpanda/CDP smoke"),
        external_kernel_boundary: owned("external_process_not_repo_fork"),
        process_lifecycle_status: owned("external_process_contract"),
        cdp_attach_status: owned("validation_probe_contract"),
        adapter_capabilities: strings_of(caps),
        evidence_requirements: strings_of(reqs),
        blockers: strings_of(blockers),
    }
}

fn camoufox_adapter_item(binary_passed: bool) -> (item: DesktopRuntimeAdapterContractItem)
    ensures
        camoufox_adapter(item, binary_passed),
{
    let reqs: Vec<&str> = vec![
        "PERSONA_PILOT_CAMOUFOX_CONFIG real binary task-run smoke",
        "timeout/cleanup process residue proof",
        "release performance report with Camoufox task-run metrics",
    ];
    assert(strs_view(reqs@) =~= seq![
        "PERSONA_PILOT_CAMOUFOX_CONFIG real binary task-run smoke"@,
        "timeout/cleanup process residue proof"@,
        "release performance report with Camoufox task-run metrics"@,
    ]);
    let blockers: Vec<&str> = if binary_passed {
        let b: Vec<&str> = vec![FULL_HEADED_EVIDENCE_PENDING];
        assert(strs_view(b@) =~= seq![FULL_HEADED_EVIDENCE_PENDING@]);
        b
    } else {
        let b: Vec<&str> = vec!["real Camoufox binary task-run smoke not recorded in this contract", FULL_HEADED_EVIDENCE_PENDING];
        assert(strs_view(b@) =~= seq!["real Camoufox binary task-run smoke not recorded in this contract"@, FULL_HEADED_EVIDENCE_PENDING@]);
        b
    };
    DesktopRuntimeAdapterContractItem {
        adapter_id: owned("camoufox"),
        status: owned("minimal_cdp_runner_source_test_backed"),
        runner_kind: owned("camoufox"),
        profile_runtime_evidence: owned("minimal_cdp_actions_and_validation_probe"),
        fingerprint_runtime_depth: owned(VALIDATION_PROBE_DEPTH),
        external_kernel_boundary: owned("external_process_not_repo_fork"),
        process_lifecycle_status: owned("spawn_wait_cleanup_contract"),
        cdp_attach_status: owned("Target.createTarget_attach_Page.navigate_contract"),
        adapter_capabilities: browser_capability_list(),
        evidence_requirements: strings_of(reqs),
        blockers: strings_of(blockers),
    }
}

fn headed_adapter_item(e: &HeadedExternalEvidence) -> (item: DesktopRuntimeAdapterContractItem)
    ensures
        headed_adapter(item, *e),
{
    let cats = join_strings(&e.validation_signal_categories, ", ");
    let status = if e.repeatability_observed {
        owned("real_binary_repeatability_recorded")
    } else if e.validation_probe_observed {
        owned("real_binary_validation_probe_recorded")
    } else if e.real_binary_passed {
        owned("real_binary_task_recorded")
    } else {
        owned("minimal_cdp_runner_source_test_backed")
    };
    let evidence = if e.repeatability_observed {
        owned("profile_browser_validation_probe_repeatability_observed")
    } else if e.validation_probe_observed {
        owned("profile_browser_validation_probe_observed")
    } else if e.real_binary_passed {
        owned("minimal_real_binary_task_passed")
    } else {
        owned("minimal_cdp_actions_and_validation_probe")
    };
    let depth = if e.repeatability_observed {
        concat3(
            "repeatable partial headed profile-browser observed signals: ",
            cats.as_str(),
            "; full 450 fingerprint coverage remains pending",
        )
    } else if e.validation_probe_observed {
        concat3(
            "partial headed profile-browser observed signals: ",
            cats.as_str(),
            "; full 450 fingerprint coverage remains pending",
        )
    } else {
        owned(VALIDATION_PROBE_DEPTH)
    };
    let reqs: Vec<&str> = vec![
        "PERSONA_PILOT_HEADED_EXTERNAL_CONFIG real binary task-run smoke",
        "timeout/cleanup process residue proof",
        "profile runtime compatibility report",
    ];
    assert(strs_view(reqs@) =~= seq![
        "PERSONA_PILOT_HEADED_EXTERNAL_CONFIG real binary task-run smoke"@,
        "timeout/cleanup process residue proof"@,
        "profile runtime compatibility report"@,
    ]);
    let blockers: Vec<&str> = if e.real_binary_passed {
        if e.repeatability_observed {
            let b: Vec<&str> = vec!["long-task headed runtime, remote proxy/TLS proof, and 450 observed coverage remain pending"];
            assert(strs_view(b@) =~= seq!["long-task headed runtime, remote proxy/TLS proof, and 450 observed coverage remain pending"@]);
            b
        } else if e.validation_probe_observed {
            let b: Vec<&str> = vec!["complete headed runtime repeatability/coherence matrix and 450 observed coverage remain pending"];
            assert(strs_view(b@) =~= seq!["complete headed runtime repeatability/coherence matrix and 450 observed coverage remain pending"@]);
            b
        } else {
            let b: Vec<&str> = vec![FULL_HEADED_EVIDENCE_PENDING];
            assert(strs_view(b@) =~= seq![FULL_HEADED_EVIDENCE_PENDING@]);
            b
        }
    } else {
        let b: Vec<&str> = vec!["real headed_external binary task-run smoke not recorded in this contract", FULL_HEADED_EVIDENCE_PENDING];
        assert(strs_view(b@) =~= seq!["real headed_external binary task-run smoke not recorded in this contract"@, FULL_HEADED_EVIDENCE_PENDING@]);
        b
    };
    DesktopRuntimeAdapterContractItem {
        adapter_id: owned("headed_external"),
        status,
        runner_kind: owned("headed_external"),
        profile_runtime_evidence: evidence,
        fingerprint_runtime_depth: depth,
        external_kernel_boundary: owned("external_process_not_repo_fork; not Chromium/Firefox fork host"),
        process_lifecycle_status: if e.real_binary_passed {
            owned("passed")
        } else {
            owned("spawn_wait_cleanup_contract")
        },
        cdp_attach_status: if e.real_binary_passed {
            owned("passed")
        } else {
            owned("Target.createTarget_attach_Page.navigate_contract")
        },
        adapter_capabilities: browser_capability_list(),
        evidence_requirements: strings_of(reqs),
        blockers: strings_of(blockers),
    }
}

/// The contracts of the four runtime adapters, in the order fake, Lightpanda,
/// Camoufox, headed-external.
pub fn runtime_adapter_contracts(camoufox_binary_passed: bool, headed: &HeadedExternalEvidence) -> (r: Vec<DesktopRuntimeAdapterContractItem>)
    ensures
        r@.len() == 4,
        fake_adapter(r@[0]),
        lightpanda_adapter(r@[1]),
        camoufox_adapter(r@[2], camoufox_binary_passed),
        headed_adapter(r@[3], *headed),
{
    let mut r: Vec<DesktopRuntimeAdapterContractItem> = Vec::new();
    r.push(fake_adapter_item());
    r.push(lightpanda_adapter_item());
    r.push(camoufox_adapter_item(camoufox_binary_passed));
    r.push(headed_adapter_item(headed));
    r
}

/// How far the release has been measured.
pub fn release_measurement_status(latest_status: Option<&str>) -> (r: String)
    ensures
        r@ == match opt_str_view(latest_status) {
            Some(s) => "measured_"@ + s,
            None => "pending_operator_measurement"@,
        },
{
    match latest_status {
        Some(s) => concat2("measured_", s),
        None => owned("pending_operator_measurement"),
    }
}

/// The notes every release contract carries.
pub open spec fn base_measurement_notes() -> Seq<Seq<char>> {
    seq![
        "release artifact exists check is automated; cold start, idle RSS, and process count must come from release smoke reports"@,
        "performance assessment must use release artifacts, not dev-mode metrics"@,
        "budgetStatus uses hard targets plus a 10 percent drift window; warning is still not performance green"@,
        "headed_external must remain an adapter contract and must not turn this repository into a Chromium/Firefox fork host"@,
    ]
}

/// The measurement notes: the fixed notes, then, with a release report, its
/// failure reason and the health summary.
pub fn release_measurement_notes(report_present: bool, failure_reason: Option<String>, health_summary: &str) -> (r: Vec<String>)
    ensures
        strings_view(r@) == base_measurement_notes() + if report_present {
            match nonblank_trimmed(opt_view(failure_reason)) {
                Some(reason) => seq!["latest release smoke failureReason: "@ + reason, health_summary@],
                None => seq![health_summary@],
            }
        } else {
            seq![]
        },
{
    let base: Vec<&str> = vec![
        "release artifact exists check is automated; cold start, idle RSS, and process count must come from release smoke reports",
        "performance assessment must use release artifacts, not dev-mode metrics",
        "budgetStatus uses hard targets plus a 10 percent drift window; warning is still not performance green",
        "headed_external must remain an adapter contract and must not turn this repository into a Chromium/Firefox fork host",
    ];
    assert(strs_view(base@) =~= base_measurement_notes());
    let mut notes = strings_of(base);
    if report_present {
        match normalized_optional_text(failure_reason) {
            Some(reason) => {
                let line = concat2("latest release smoke failureReason: ", reason.as_str());
                proof {
                    lemma_strings_view_push(notes@, line);
                }
                notes.push(line);
            },
            None => {},
        }
        let summary = owned(health_summary);
        proof {
            lemma_strings_view_push(notes@, summary);
        }
        notes.push(summary);
    }
    proof {
        let v = strings_view(notes@);
        if report_present {
            match nonblank_trimmed(opt_view(failure_reason)) {
                Some(reason) => {
                    assert(v =~= base_measurement_notes() + seq!["latest release smoke failureReason: "@ + reason, health_summary@]);
                },
                None => {
                    assert(v =~= base_measurement_notes() + seq![health_summary@]);
                },
            }
        } else {
            assert(v =~= base_measurement_notes() + seq![]);
        }
    }
    notes
}

/// The warnings of a release contract.
pub fn release_smoke_warnings(release_artifact_present: bool) -> (r: Vec<String>)
    ensures
        strings_view(r@) == (if release_artifact_present {
            seq![]
        } else {
            seq!["release executable artifact is missing; run pnpm desktop:release"@]
        }) + seq![
            "performance targets are contractual baselines; cold start/RSS/process counts still require measured operator smoke"@,
            "AdsPower boundary must not be refreshed until B1-B5 evidence exists"@,
        ],
{
    let list: Vec<&str> = if release_artifact_present {
        vec![
            "performance targets are contractual baselines; cold start/RSS/process counts still require measured operator smoke",
            "AdsPower boundary must not be refreshed until B1-B5 evidence exists",
        ]
    } else {
        vec![
            "release executable artifact is missing; run pnpm desktop:release",
            "performance targets are contractual baselines; cold start/RSS/process counts still require measured operator smoke",
            "AdsPower boundary must not be refreshed until B1-B5 evidence exists",
        ]
    };
    assert(strs_view(list@) =~= (if release_artifact_present {
        seq![]
    } else {
        seq!["release executable artifact is missing; run pnpm desktop:release"@]
    }) + seq![
        "performance targets are contractual baselines; cold start/RSS/process counts still require measured operator smoke"@,
        "AdsPower boundary must not be refreshed until B1-B5 evidence exists"@,
    ]);
    strings_of(list)
}

/// The overall status of a release contract.
pub fn release_smoke_status(release_artifact_present: bool) -> (r: String)
    ensures
        r@ == if release_artifact_present {
            "release_artifact_present_contract_ready"@
        } else {
            "blocked_missing_release_artifact"@
        },
{
    if release_artifact_present {
        owned("release_artifact_present_contract_ready")
    } else {
        owned("blocked_missing_release_artifact")
    }
}

/// The one-line summary of a release contract.
pub fn release_smoke_summary(status: &str, adapter_count: usize, release_artifact_present: bool, measurement_status: &str) -> (r: String)
    ensures
        r@ == "Release smoke contract "@ + status@ + "; adapters tracked: "@ + decimal_digits(adapter_count as nat)
            + "; release artifact present="@ + (if release_artifact_present {
            "true"@
        } else {
            "false"@
        }) + "; measurement="@ + measurement_status@ + "."@,
{
    let count = u64_to_text(adapter_count as u64);
    let present = if release_artifact_present {
        owned("true")
    } else {
        owned("false")
    };
    let a = concat3("Release smoke contract ", status, "; adapters tracked: ");
    let b = concat3(a.as_str(), count.as_str(), "; release artifact present=");
    let c = concat3(b.as_str(), present.as_str(), "; measurement=");
    concat3(c.as_str(), measurement_status, ".")
}

} // verus!
