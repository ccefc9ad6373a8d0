//! Reading one local evidence report: its evidence level, the next action it
//! calls for, its one-line summary, and how strong a headed-external report is.
//! A report is handed over as the values its JSON holds under the keys read
//! here.
use vstd::prelude::*;

use super::evidence::{
    evidence_failure_reason_category, evidence_risk_from_level, failure_reason_category, risk_of,
};
use super::types::DesktopEvidenceReportSummary;

use crate::numtext::{decimal_digits, decimal_text, i64_to_text, u64_to_text};
use crate::text::{
    concat2, concat3, copy_opt, insert_sorted_unique, join_strings, joined, nonblank_trimmed,
    normalized_optional_text, opt_view, owned, seq_contains, str_contains, str_eq, strictly_sorted,
    strings_view, lemma_strings_view_push,
};

verus! {

/// One entry of a signal list: its `status` and `category` texts.
#[derive(Debug, Clone)]
pub struct SignalStatusFields {
    pub status: Option<String>,
    pub category: Option<String>,
}

/// The `validationProbe` object of a headed-external task.
#[derive(Debug, Clone)]
pub struct ValidationProbeFields {
    pub signal_count: Option<i64>,
    pub warning_count: Option<i64>,
    /// The text entries of `categories`, when it is a list.
    pub categories: Option<Vec<String>>,
}

/// The `result` object of a headed-external task. An outer `Some` means the
/// key is present; the inner value is its text, when it is a text.
#[derive(Debug, Clone)]
pub struct HeadedExternalResultFields {
    pub action: Option<Option<String>>,
    pub final_url: Option<Option<String>>,
    /// The entries of `validation_signals`, when it is a list.
    pub validation_signals: Option<Vec<SignalStatusFields>>,
}

/// The `realBinaryTask` object of a headed-external report.
#[derive(Debug, Clone)]
pub struct HeadedExternalTaskFields {
    pub status: Option<String>,
    pub action: Option<Option<String>>,
    pub final_url: Option<Option<String>>,
    pub validation_probe: Option<ValidationProbeFields>,
    pub result: Option<HeadedExternalResultFields>,
}

/// The `repeatability` object of a headed-external report.
#[derive(Debug, Clone)]
pub struct RepeatabilityFields {
    pub status: Option<String>,
    pub passed_count: Option<i64>,
    pub requested_count: Option<i64>,
}

/// One entry of a comparison report's `categoryComparison` list.
#[derive(Debug, Clone)]
pub struct CategoryComparisonFields {
    pub category: Option<String>,
    pub status: Option<String>,
}

/// The values an evidence report's JSON holds under the keys read here:
/// texts, integers and flags where the key holds one, `None` otherwise.
#[derive(Debug, Clone)]
pub struct EvidenceReportFields {
    pub generated_at: Option<String>,
    pub status: Option<String>,
    pub operator_status: Option<String>,
    pub failure_reason: Option<String>,
    pub budget_status: Option<String>,
    pub summary_passed: Option<i64>,
    pub summary_expected_blocked: Option<i64>,
    pub summary_failed: Option<i64>,
    pub summary_budget_result_count: Option<i64>,
    pub summary_next_action: Option<String>,
    pub health_summary_next_action: Option<String>,
    pub measured_cold_start_ms: Option<i64>,
    pub measured_idle_rss_mb: Option<i64>,
    pub measured_process_count: Option<i64>,
    pub accepted_count: Option<i64>,
    pub ready_credential_count: Option<i64>,
    pub cross_machine_complete: Option<bool>,
    /// The length of `items`, when it is a list.
    pub items_count: Option<u64>,
    pub fingerprint_materialized_signal_count: Option<i64>,
    pub behavior_materialized_event_count: Option<i64>,
    pub observed_exit_ip: Option<String>,
    pub observed_tls_ja3_hash: Option<String>,
    pub observed_tls_ja4: Option<String>,
    pub direct_baseline_status: Option<String>,
    pub direct_exit_ip_different: Option<bool>,
    pub remote_proxy_tls_evidence_status: Option<String>,
    pub b1b5_transport_remote_proxy_tls: Option<String>,
    pub b1b5_session_portability: Option<String>,
    pub b1b5_provider_production_closure: Option<String>,
    /// `Some` when the report has a `realBinaryTask` key.
    pub real_binary_task: Option<HeadedExternalTaskFields>,
    pub repeatability: Option<RepeatabilityFields>,
    pub action: Option<String>,
    pub screenshot_present: Option<bool>,
    pub same_run_status: Option<String>,
    pub max_pair_age_minutes: Option<i64>,
    /// `desktopProfileDeltaMinutes` written with two decimals, when it is a number.
    pub desktop_profile_delta_minutes: Option<String>,
    pub desktop_signal_count: Option<i64>,
    pub profile_browser_signal_count: Option<i64>,
    pub comparable_category_count: Option<i64>,
    /// The entries of `categoryComparison`, when it is a list.
    pub category_comparison: Option<Vec<CategoryComparisonFields>>,
}

/// A text, or `fallback` when there is none.
pub open spec fn text_or(v: Option<Seq<char>>, fallback: Seq<char>) -> Seq<char> {
    match v {
        Some(x) => x,
        None => fallback,
    }
}

/// A text that is not empty, or `fallback`.
pub open spec fn nonempty_or(v: Option<Seq<char>>, fallback: Seq<char>) -> Seq<char> {
    match v {
        Some(x) => if x.len() > 0 {
            x
        } else {
            fallback
        },
        None => fallback,
    }
}

/// A number written out, or `fallback` when there is none.
pub open spec fn number_or(v: Option<i64>, fallback: Seq<char>) -> Seq<char> {
    match v {
        Some(n) => decimal_text(n as int),
        None => fallback,
    }
}

/// A number, 0 when there is none.
pub open spec fn number_or_zero(v: Option<i64>) -> int {
    match v {
        Some(n) => n as int,
        None => 0,
    }
}

/// A flag written out.
pub open spec fn bool_text(b: bool) -> Seq<char> {
    if b {
        "true"@
    } else {
        "false"@
    }
}

fn text_or_fallback(v: &Option<String>, fallback: &str) -> (r: String)
    ensures
        r@ == text_or(opt_view(*v), fallback@),
{
    match v {
        Some(x) => owned(x.as_str()),
        None => owned(fallback),
    }
}

fn nonempty_or_fallback(v: &Option<String>, fallback: &str) -> (r: String)
    ensures
        r@ == nonempty_or(opt_view(*v), fallback@),
{
    match v {
        Some(x) => if x.as_str().is_empty() {
            owned(fallback)
        } else {
            owned(x.as_str())
        },
        None => owned(fallback),
    }
}

fn number_or_fallback(v: Option<i64>, fallback: &str) -> (r: String)
    ensures
        r@ == number_or(v, fallback@),
{
    match v {
        Some(n) => i64_to_text(n),
        None => owned(fallback),
    }
}

fn number_text(v: Option<i64>) -> (r: String)
    ensures
        r@ == decimal_text(number_or_zero(v)),
{
    match v {
        Some(n) => i64_to_text(n),
        None => i64_to_text(0),
    }
}

fn bool_word(b: bool) -> (r: String)
    ensures
        r@ == bool_text(b),
{
    if b {
        owned("true")
    } else {
        owned("false")
    }
}

/// How strong the evidence of a report is.
pub open spec fn evidence_level(kind: Seq<char>, status: Seq<char>, f: EvidenceReportFields) -> Seq<char> {
    if kind == "remote_proxy_tls"@ && status == "passed_remote_proxy_tls_observed"@ {
        "remote_proxy_tls_observed"@
    } else if kind == "remote_proxy_tls"@ && status == "partial_remote_proxy_egress_observed"@ {
        "remote_proxy_egress_partial"@
    } else if kind == "remote_proxy_tls"@ && status == "blocked_remote_proxy_required"@ {
        "blocked_missing_remote_proxy"@
    } else if kind == "m4_acceptance"@ && (status == "expected_blocked"@ || status
        == "passed_with_expected_external_blockers"@) {
        "expected_external_blockers"@
    } else if kind == "m5_release_health"@ && (status == "passed_with_budget_overrun"@ || status
        == "passed_with_recorded_drift"@) {
        "partial"@
    } else if kind == "m5_release_health"@ && status == "passed"@ {
        "observed"@
    } else if kind == "headed_external_smoke"@ && status == "passed_real_binary_validation_probe"@ {
        "profile_browser_observed"@
    } else if kind == "headed_external_smoke"@ && status == "passed_real_binary_task"@ {
        "real_binary_task_observed"@
    } else if kind == "runtime_adapter"@ && status == "blocked_evidence_required"@ {
        if text_or(opt_view(f.remote_proxy_tls_evidence_status), "missing"@) == "passed"@ {
            "blocked_remaining_b1_b5_evidence"@
        } else {
            "blocked_missing_remote_proxy_or_b1_b5_evidence"@
        }
    } else if seq_contains(status, "passed"@) || seq_contains(status, "observed"@) {
        "observed"@
    } else if seq_contains(status, "blocked"@) {
        "blocked"@
    } else if seq_contains(status, "failed"@) {
        "failed"@
    } else if seq_contains(status, "warning"@) || seq_contains(status, "partial"@) {
        "partial"@
    } else {
        "contract_or_not_run"@
    }
}

pub fn evidence_level_from_report(kind: &str, status: &str, fields: &EvidenceReportFields) -> (r: String)
    ensures
        r@ == evidence_level(kind@, status@, *fields),
{
    if str_eq(kind, "remote_proxy_tls") && str_eq(status, "passed_remote_proxy_tls_observed") {
        owned("remote_proxy_tls_observed")
    } else if str_eq(kind, "remote_proxy_tls") && str_eq(status, "partial_remote_proxy_egress_observed") {
        owned("remote_proxy_egress_partial")
    } else if str_eq(kind, "remote_proxy_tls") && str_eq(status, "blocked_remote_proxy_required") {
        owned("blocked_missing_remote_proxy")
    } else if str_eq(kind, "m4_acceptance") && (str_eq(status, "expected_blocked") || str_eq(
        status,
        "passed_with_expected_external_blockers",
    )) {
        owned("expected_external_blockers")
    } else if str_eq(kind, "m5_release_health") && (str_eq(status, "passed_with_budget_overrun") || str_eq(
        status,
        "passed_with_recorded_drift",
    )) {
        owned("partial")
    } else if str_eq(kind, "m5_release_health") && str_eq(status, "passed") {
        owned("observed")
    } else if str_eq(kind, "headed_external_smoke") && str_eq(status, "passed_real_binary_validation_probe") {
        owned("profile_browser_observed")
    } else if str_eq(kind, "headed_external_smoke") && str_eq(status, "passed_real_binary_task") {
        owned("real_binary_task_observed")
    } else if str_eq(kind, "runtime_adapter") && str_eq(status, "blocked_evidence_required") {
        let remote = text_or_fallback(&fields.remote_proxy_tls_evidence_status, "missing");
        if str_eq(remote.as_str(), "passed") {
            owned("blocked_remaining_b1_b5_evidence")
        } else {
            owned("blocked_missing_remote_proxy_or_b1_b5_evidence")
        }
    } else if str_contains(status, "passed") || str_contains(status, "observed") {
        owned("observed")
    } else if str_contains(status, "blocked") {
        owned("blocked")
    } else if str_contains(status, "failed") {
        owned("failed")
    } else if str_contains(status, "warning") || str_contains(status, "partial") {
        owned("partial")
    } else {
        owned("contract_or_not_run")
    }
}

/// The key's text: the first level's when the key is present there, else the
/// second level's.
pub open spec fn key_text(first: Option<Option<String>>, second: Option<Option<String>>) -> Option<Seq<char>> {
    match first {
        Some(v) => opt_view(v),
        None => match second {
            Some(v) => opt_view(v),
            None => None,
        },
    }
}

/// How strong a headed-external report is: repeatability with partial
/// coherence over a validation probe with signals over a plain real-binary
/// task; nothing without a passed task.
pub open spec fn headed_external_rank(f: EvidenceReportFields) -> int {
    let status = text_or(opt_view(f.status), ""@);
    match f.real_binary_task {
        None => 0,
        Some(task) => if opt_view(task.status) != Some("passed"@) {
            0
        } else {
            let action = match task.result {
                Some(r) => match r.action {
                    Some(a) => text_or(opt_view(a), ""@),
                    None => ""@,
                },
                None => ""@,
            };
            let signal_count = match task.result {
                Some(r) => match r.validation_signals {
                    Some(s) => s@.len() as int,
                    None => 0,
                },
                None => 0,
            };
            let repeatability_status = match f.repeatability {
                Some(r) => text_or(opt_view(r.status), ""@),
                None => ""@,
            };
            if status == "passed_real_binary_repeatability"@ && repeatability_status
                == "passed_repeatability_partial_coherence"@ {
                30
            } else if status == "passed_real_binary_validation_probe"@ && action == "validation_probe"@
                && signal_count > 0 {
                20
            } else if status == "passed_real_binary_task"@ {
                10
            } else {
                0
            }
        },
    }
}

pub fn headed_external_report_rank(fields: &EvidenceReportFields) -> (rank: i32)
    ensures
        rank as int == headed_external_rank(*fields),
{
    let status = text_or_fallback(&fields.status, "");
    let task = match &fields.real_binary_task {
        Some(t) => t,
        None => return 0,
    };
    let passed = match &task.status {
        Some(s) => str_eq(s.as_str(), "passed"),
        None => false,
    };
    if !passed {
        return 0;
    }
    let action = match &task.result {
        Some(r) => match &r.action {
            Some(a) => text_or_fallback(a, ""),
            None => owned(""),
        },
        None => owned(""),
    };
    let signal_count: usize = match &task.result {
        Some(r) => match &r.validation_signals {
            Some(s) => s.len(),
            None => 0,
        },
        None => 0,
    };
    let repeatability_status = match &fields.repeatability {
        Some(r) => text_or_fallback(&r.status, ""),
        None => owned(""),
    };
    if str_eq(status.as_str(), "passed_real_binary_repeatability") && str_eq(
        repeatability_status.as_str(),
        "passed_repeatability_partial_coherence",
    ) {
        30
    } else if str_eq(status.as_str(), "passed_real_binary_validation_probe") && str_eq(
        action.as_str(),
        "validation_probe",
    ) && signal_count > 0 {
        20
    } else if str_eq(status.as_str(), "passed_real_binary_task") {
        10
    } else {
        0
    }
}

/// The categories a comparison could not compare, as `category=status`.
pub open spec fn missing_comparisons(items: Seq<CategoryComparisonFields>) -> Seq<Seq<char>>
    decreases items.len(),
{
    if items.len() == 0 {
        seq![]
    } else {
        let rest = missing_comparisons(items.drop_last());
        let item = items.last();
        match nonblank_trimmed(opt_view(item.category)) {
            None => rest,
            Some(category) => {
                let status = text_or(nonblank_trimmed(opt_view(item.status)), "missing"@);
                if status == "comparable"@ {
                    rest
                } else {
                    rest.push(category + "="@ + status)
                }
            },
        }
    }
}

/// How many categories a comparison report lists, and which it could not
/// compare (`none` when it compared all, `missing` without a list).
pub open spec fn category_summary(f: EvidenceReportFields) -> (int, Seq<char>) {
    match f.category_comparison {
        None => (0, "missing"@),
        Some(items) => if missing_comparisons(items@).len() == 0 {
            (items@.len() as int, "none"@)
        } else {
            (items@.len() as int, joined(missing_comparisons(items@), ","@))
        },
    }
}

pub fn profile_browser_comparison_category_summary(fields: &EvidenceReportFields) -> (r: (usize, String))
    ensures
        r.0 as int == category_summary(*fields).0,
        r.1@ == category_summary(*fields).1,
{
    let items = match &fields.category_comparison {
        Some(items) => items,
        None => return (0, owned("missing")),
    };
    let mut missing: Vec<String> = Vec::new();
    let mut i: usize = 0;
    while i < items.len()
        invariant
            i <= items@.len(),
            strings_view(missing@) == missing_comparisons(items@.subrange(0, i as int)),
        decreases items@.len() - i,
    {
        proof {
            let sub = items@.subrange(0, i as int + 1);
            assert(sub.drop_last() =~= items@.subrange(0, i as int));
            assert(sub.last() == items@[i as int]);
        }
        match normalized_optional_text(copy_opt(&items[i].category)) {
            Some(category) => {
                let status = match normalized_optional_text(copy_opt(&items[i].status)) {
                    Some(s) => s,
                    None => owned("missing"),
                };
                if !str_eq(status.as_str(), "comparable") {
                    let entry = concat3(category.as_str(), "=", status.as_str());
                    proof {
                        lemma_strings_view_push(missing@, entry);
                    }
                    missing.push(entry);
                }
            },
            None => {},
        }
        i = i + 1;
    }
    assert(items@.subrange(0, i as int) =~= items@);
    if missing.len() == 0 {
        (items.len(), owned("none"))
    } else {
        (items.len(), join_strings(&missing, ","))
    }
}

/// The one-line summary of a profile-browser comparison report.
pub open spec fn comparison_summary(status: Seq<char>, f: EvidenceReportFields) -> Seq<char> {
    "profile browser comparison "@ + status + ": sameRun="@ + text_or(
        nonblank_trimmed(opt_view(f.same_run_status)),
        "missing"@,
    ) + " deltaMinutes="@ + text_or(opt_view(f.desktop_profile_delta_minutes), "pending"@) + "/"@
        + number_or(f.max_pair_age_minutes, "unknown"@) + " desktopSignals="@ + decimal_text(
        number_or_zero(f.desktop_signal_count),
    ) + " profileSignals="@ + decimal_text(number_or_zero(f.profile_browser_signal_count))
        + " comparable="@ + decimal_text(number_or_zero(f.comparable_category_count)) + "/"@
        + decimal_digits(category_summary(f).0 as nat) + " missingCategories="@ + category_summary(f).1
}

pub fn profile_browser_comparison_summary(status: &str, fields: &EvidenceReportFields) -> (r: String)
    ensures
        r@ == comparison_summary(status@, *fields),
{
    let same_run = match normalized_optional_text(copy_opt(&fields.same_run_status)) {
        Some(s) => s,
        None => owned("missing"),
    };
    let max_pair_age = number_or_fallback(fields.max_pair_age_minutes, "unknown");
    let delta = text_or_fallback(&fields.desktop_profile_delta_minutes, "pending");
    let desktop_count = number_text(fields.desktop_signal_count);
    let profile_count = number_text(fields.profile_browser_signal_count);
    let comparable_count = number_text(fields.comparable_category_count);
    let (category_count, missing_categories) = profile_browser_comparison_category_summary(fields);
    let count_text = u64_to_text(category_count as u64);
    let a = concat3("profile browser comparison ", status, ": sameRun=");
    let b = concat3(a.as_str(), same_run.as_str(), " deltaMinutes=");
    let c = concat3(b.as_str(), delta.as_str(), "/");
    let d = concat3(c.as_str(), max_pair_age.as_str(), " desktopSignals=");
    let e = concat3(d.as_str(), desktop_count.as_str(), " profileSignals=");
    let g = concat3(e.as_str(), profile_count.as_str(), " comparable=");
    let h = concat3(g.as_str(), comparable_count.as_str(), "/");
    let k = concat3(h.as_str(), count_text.as_str(), " missingCategories=");
    concat2(k.as_str(), missing_categories.as_str())
}


pub const COMPARISON_GATE_RERUN: &'static str = ", then rerun scripts/profile_browser_comparison_gate.ps1.";

/// What an operator does next about a profile-browser comparison report.
pub open spec fn comparison_next_action(status: Seq<char>, f: EvidenceReportFields, failure_reason: Option<Seq<char>>) -> Seq<char> {
    if status == "blocked_missing_validation_report"@ {
        "Collect Desktop WebView evidence from Dashboard and refresh profile-browser validation evidence, then rerun scripts/profile_browser_comparison_gate.ps1."@
    } else if status == "blocked_missing_desktop_webview_report"@ {
        "Open the Dashboard in personal-pilot-tauri.exe, click the WebView evidence collection action, then rerun scripts/profile_browser_comparison_gate.ps1."@
    } else if status == "blocked_missing_profile_browser_report"@ {
        "Run a profile-browser validation probe such as scripts/headed_external_smoke.ps1 -Action validation_probe, then rerun scripts/profile_browser_comparison_gate.ps1."@
    } else if status == "blocked_stale_comparison_pair"@ {
        "Refresh Desktop WebView and profile-browser evidence within "@ + decimal_text(
            match f.max_pair_age_minutes {
                Some(n) => n as int,
                None => 120,
            },
        ) + " minutes"@ + COMPARISON_GATE_RERUN@
    } else if status == "partial_comparison_only"@ {
        "Add comparable Desktop WebView and profile-browser categories for "@ + category_summary(f).1
            + COMPARISON_GATE_RERUN@
    } else if status == "passed"@ {
        "Keep both same-run reports attached; rerun the comparison gate after either Desktop WebView or profile-browser evidence changes."@
    } else {
        match failure_reason {
            Some(r) => r,
            None => "Resolve sameRunStatus="@ + text_or(nonblank_trimmed(opt_view(f.same_run_status)), "missing"@)
                + COMPARISON_GATE_RERUN@,
        }
    }
}

pub fn profile_browser_comparison_next_action(
    status: &str,
    fields: &EvidenceReportFields,
    failure_reason: Option<&str>,
) -> (r: String)
    ensures
        r@ == comparison_next_action(
            status@,
            *fields,
            match failure_reason {
                Some(x) => Some(x@),
                None => None,
            },
        ),
{
    if str_eq(status, "blocked_missing_validation_report") {
        owned(
            "Collect Desktop WebView evidence from Dashboard and refresh profile-browser validation evidence, then rerun scripts/profile_browser_comparison_gate.ps1.",
        )
    } else if str_eq(status, "blocked_missing_desktop_webview_report") {
        owned(
            "Open the Dashboard in personal-pilot-tauri.exe, click the WebView evidence collection action, then rerun scripts/profile_browser_comparison_gate.ps1.",
        )
    } else if str_eq(status, "blocked_missing_profile_browser_report") {
        owned(
            "Run a profile-browser validation probe such as scripts/headed_external_smoke.ps1 -Action validation_probe, then rerun scripts/profile_browser_comparison_gate.ps1.",
        )
    } else if str_eq(status, "blocked_stale_comparison_pair") {
        let age = match fields.max_pair_age_minutes {
            Some(n) => i64_to_text(n),
            None => i64_to_text(120),
        };
        let a = concat3("Refresh Desktop WebView and profile-browser evidence within ", age.as_str(), " minutes");
        concat2(a.as_str(), COMPARISON_GATE_RERUN)
    } else if str_eq(status, "partial_comparison_only") {
        let (_, missing) = profile_browser_comparison_category_summary(fields);
        concat3(
            "Add comparable Desktop WebView and profile-browser categories for ",
            missing.as_str(),
            COMPARISON_GATE_RERUN,
        )
    } else if str_eq(status, "passed") {
        owned(
            "Keep both same-run reports attached; rerun the comparison gate after either Desktop WebView or profile-browser evidence changes.",
        )
    } else {
        match failure_reason {
            Some(r) => owned(r),
            None => {
                let same_run = match normalized_optional_text(copy_opt(&fields.same_run_status)) {
                    Some(s) => s,
                    None => owned("missing"),
                };
                concat3("Resolve sameRunStatus=", same_run.as_str(), COMPARISON_GATE_RERUN)
            },
        }
    }
}

/// The comparison statuses whose next action the comparison gate explains.
pub open spec fn comparison_status_explained(status: Seq<char>) -> bool {
    status == "blocked_missing_validation_report"@ || status == "blocked_missing_desktop_webview_report"@
        || status == "blocked_missing_profile_browser_report"@ || status == "blocked_stale_comparison_pair"@
        || status == "partial_comparison_only"@ || status == "passed"@
}

/// What an operator does next about a report, before the failure reason is
/// considered.
pub open spec fn kind_next_action(
    kind: Seq<char>,
    status: Seq<char>,
    f: EvidenceReportFields,
    failure_reason: Option<Seq<char>>,
) -> Option<Seq<char>> {
    if kind == "m4_acceptance"@ && (status == "expected_blocked"@ || status
        == "passed_with_expected_external_blockers"@) {
        Some(
            "Use this as the M4 local aggregation gate; close external blockers with provider, remote proxy, profile-browser comparison, and cross-machine reports."@,
        )
    } else if kind == "m4_acceptance"@ && status == "failed"@ {
        Some(
            "Fix live truth drift, missing reports, unreadable reports, or blocker misclassification, then rerun scripts/m4_acceptance_gate.ps1."@,
        )
    } else if kind == "m5_release_health"@ && (status == "passed_with_budget_overrun"@ || status
        == "passed_with_recorded_drift"@) {
        Some(
            text_or(
                nonblank_trimmed(opt_view(f.summary_next_action)),
                "Use scripts/release_performance_smoke.ps1 mitigation hints before claiming release performance green."@,
            ),
        )
    } else if kind == "m5_release_health"@ && status == "failed"@ {
        Some("Fix the M5 release health schema/report checks, then rerun scripts/m5_release_health_gate.ps1."@)
    } else if kind == "remote_proxy_tls"@ && status == "blocked_remote_proxy_required"@ {
        Some("Set PERSONA_PILOT_REMOTE_PROXY_URL or pass -ProxyUrl, then rerun scripts/remote_proxy_tls_probe.ps1."@)
    } else if kind == "remote_proxy_tls"@ && status == "partial_remote_proxy_egress_observed"@ {
        Some(
            "Keep the proxied egress report, then use a target that returns JA3/JA4 fields or verify ExpectedExitIp."@,
        )
    } else if kind == "remote_proxy_tls"@ && status == "passed_remote_proxy_tls_observed"@ {
        Some(
            "Rerun scripts/runtime_adapter_evidence_gate.ps1 so the AdsPower evidence gate consumes this proxy/TLS proof."@,
        )
    } else if kind == "runtime_adapter"@ && status == "blocked_evidence_required"@ {
        Some(
            "Complete B1-B5 evidence before refreshing score: remoteProxyTls="@ + text_or(
                opt_view(f.b1b5_transport_remote_proxy_tls),
                "missing"@,
            ) + ", sessionPortability="@ + text_or(opt_view(f.b1b5_session_portability), "missing"@)
                + ", providerClosure="@ + text_or(opt_view(f.b1b5_provider_production_closure), "missing"@)
                + "."@,
        )
    } else if kind == "release_performance"@ && (seq_contains(status, "warning"@) || seq_contains(
        status,
        "failed"@,
    )) {
        Some(
            text_or(
                nonblank_trimmed(opt_view(f.health_summary_next_action)),
                "Use scripts/release_performance_smoke.ps1 budgetResults/processBreakdown before claiming release performance green."@,
            ),
        )
    } else if kind == "provider_acceptance"@ && seq_contains(status, "blocked"@) {
        Some("Configure real provider credentials and rerun scripts/provider_acceptance_preflight.ps1."@)
    } else if kind == "session_portability"@ && (seq_contains(status, "local_contract"@) || seq_contains(
        status,
        "blocked"@,
    )) {
        Some("Run the SessionBundle restore smoke on a second Win11 machine and attach the resulting report."@)
    } else if kind == "external_distribution"@ && seq_contains(status, "blocked"@) {
        Some("Run the manual clean-Win11 operator smoke from docs/24-external-distribution-readiness.md."@)
    } else if kind == "profile_browser_comparison"@ && comparison_status_explained(status) {
        Some(comparison_next_action(status, f, failure_reason))
    } else {
        None
    }
}

/// What an operator does next about a report: the kind's advice, else the
/// report's failure reason.
pub open spec fn next_action(
    kind: Seq<char>,
    status: Seq<char>,
    f: EvidenceReportFields,
    failure_reason: Option<Seq<char>>,
) -> Option<Seq<char>> {
    match kind_next_action(kind, status, f, failure_reason) {
        Some(a) => Some(a),
        None => failure_reason,
    }
}

fn nonblank_or(v: &Option<String>, fallback: &str) -> (r: String)
    ensures
        r@ == text_or(nonblank_trimmed(opt_view(*v)), fallback@),
{
    match normalized_optional_text(copy_opt(v)) {
        Some(x) => x,
        None => owned(fallback),
    }
}

fn kind_next_action_text(
    kind: &str,
    status: &str,
    fields: &EvidenceReportFields,
    failure_reason: Option<&str>,
) -> (r: Option<String>)
    ensures
        opt_view(r) == kind_next_action(
            kind@,
            status@,
            *fields,
            match failure_reason {
                Some(x) => Some(x@),
                None => None,
            },
        ),
{
    if str_eq(kind, "m4_acceptance") && (str_eq(status, "expected_blocked") || str_eq(
        status,
        "passed_with_expected_external_blockers",
    )) {
        Some(
            owned(
                "Use this as the M4 local aggregation gate; close external blockers with provider, remote proxy, profile-browser comparison, and cross-machine reports.",
            ),
        )
    } else if str_eq(kind, "m4_acceptance") && str_eq(status, "failed") {
        Some(
            owned(
                "Fix live truth drift, missing reports, unreadable reports, or blocker misclassification, then rerun scripts/m4_acceptance_gate.ps1.",
            ),
        )
    } else if str_eq(kind, "m5_release_health") && (str_eq(status, "passed_with_budget_overrun") || str_eq(
        status,
        "passed_with_recorded_drift",
    )) {
        Some(
            nonblank_or(
                &fields.summary_next_action,
                "Use scripts/release_performance_smoke.ps1 mitigation hints before claiming release performance green.",
            ),
        )
    } else if str_eq(kind, "m5_release_health") && str_eq(status, "failed") {
        Some(owned("Fix the M5 release health schema/report checks, then rerun scripts/m5_release_health_gate.ps1."))
    } else if str_eq(kind, "remote_proxy_tls") && str_eq(status, "blocked_remote_proxy_required") {
        Some(owned("Set PERSONA_PILOT_REMOTE_PROXY_URL or pass -ProxyUrl, then rerun scripts/remote_proxy_tls_probe.ps1."))
    } else if str_eq(kind, "remote_proxy_tls") && str_eq(status, "partial_remote_proxy_egress_observed") {
        Some(
            owned(
                "Keep the proxied egress report, then use a target that returns JA3/JA4 fields or verify ExpectedExitIp.",
            ),
        )
    } else if str_eq(kind, "remote_proxy_tls") && str_eq(status, "passed_remote_proxy_tls_observed") {
        Some(
            owned(
                "Rerun scripts/runtime_adapter_evidence_gate.ps1 so the AdsPower evidence gate consumes this proxy/TLS proof.",
            ),
        )
    } else if str_eq(kind, "runtime_adapter") && str_eq(status, "blocked_evidence_required") {
        let remote = text_or_fallback(&fields.b1b5_transport_remote_proxy_tls, "missing");
        let session = text_or_fallback(&fields.b1b5_session_portability, "missing");
        let provider = text_or_fallback(&fields.b1b5_provider_production_closure, "missing");
        let a = concat3(
            "Complete B1-B5 evidence before refreshing score: remoteProxyTls=",
            remote.as_str(),
            ", sessionPortability=",
        );
        let b = concat3(a.as_str(), session.as_str(), ", providerClosure=");
        Some(concat3(b.as_str(), provider.as_str(), "."))
    } else if str_eq(kind, "release_performance") && (str_contains(status, "warning") || str_contains(
        status,
        "failed",
    )) {
        Some(
            nonblank_or(
                &fields.health_summary_next_action,
                "Use scripts/release_performance_smoke.ps1 budgetResults/processBreakdown before claiming release performance green.",
            ),
        )
    } else if str_eq(kind, "provider_acceptance") && str_contains(status, "blocked") {
        Some(owned("Configure real provider credentials and rerun scripts/provider_acceptance_preflight.ps1."))
    } else if str_eq(kind, "session_portability") && (str_contains(status, "local_contract") || str_contains(
        status,
        "blocked",
    )) {
        Some(owned("Run the SessionBundle restore smoke on a second Win11 machine and attach the resulting report."))
    } else if str_eq(kind, "external_distribution") && str_contains(status, "blocked") {
        Some(owned("Run the manual clean-Win11 operator smoke from docs/24-external-distribution-readiness.md."))
    } else if str_eq(kind, "profile_browser_comparison") && (str_eq(status, "blocked_missing_validation_report")
        || str_eq(status, "blocked_missing_desktop_webview_report") || str_eq(
        status,
        "blocked_missing_profile_browser_report",
    ) || str_eq(status, "blocked_stale_comparison_pair") || str_eq(status, "partial_comparison_only")
        || str_eq(status, "passed")) {
        Some(profile_browser_comparison_next_action(status, fields, failure_reason))
    } else {
        None
    }
}

/// What an operator does next about a report.
pub fn evidence_next_action(
    kind: &str,
    status: &str,
    fields: &EvidenceReportFields,
    failure_reason: Option<&str>,
) -> (r: Option<String>)
    ensures
        opt_view(r) == next_action(
            kind@,
            status@,
            *fields,
            match failure_reason {
                Some(x) => Some(x@),
                None => None,
            },
        ),
{
    match kind_next_action_text(kind, status, fields, failure_reason) {
        Some(a) => Some(a),
        None => match failure_reason {
            Some(r) => Some(owned(r)),
            None => None,
        },
    }
}


/// The result object of the task, when there is one.
pub open spec fn result_of(f: EvidenceReportFields) -> Option<HeadedExternalResultFields> {
    match f.real_binary_task {
        Some(t) => t.result,
        None => None,
    }
}

/// The validation probe of the task, when there is one.
pub open spec fn probe_of(f: EvidenceReportFields) -> Option<ValidationProbeFields> {
    match f.real_binary_task {
        Some(t) => t.validation_probe,
        None => None,
    }
}

/// The validation signals the task's result lists, when it lists them.
pub open spec fn signals_of(f: EvidenceReportFields) -> Option<Seq<SignalStatusFields>> {
    match result_of(f) {
        Some(r) => match r.validation_signals {
            Some(v) => Some(v@),
            None => None,
        },
        None => None,
    }
}

/// The action a headed-external task ran.
pub open spec fn headed_action(f: EvidenceReportFields) -> Seq<char> {
    nonempty_or(
        match f.real_binary_task {
            Some(t) => key_text(
                t.action,
                match t.result {
                    Some(r) => r.action,
                    None => None,
                },
            ),
            None => None,
        },
        "pending"@,
    )
}

/// The URL a headed-external task ended on.
pub open spec fn headed_final_url(f: EvidenceReportFields) -> Seq<char> {
    nonempty_or(
        match f.real_binary_task {
            Some(t) => key_text(
                t.final_url,
                match t.result {
                    Some(r) => r.final_url,
                    None => None,
                },
            ),
            None => None,
        },
        "pending"@,
    )
}

/// How many signals the task's result marks as warnings.
pub open spec fn warning_signals(s: Seq<SignalStatusFields>) -> int
    decreases s.len(),
{
    if s.len() == 0 {
        0
    } else {
        warning_signals(s.drop_last()) + if opt_view(s.last().status) == Some("warning"@) {
            1int
        } else {
            0int
        }
    }
}

/// How many signals a headed-external task gathered: the probe's count, else
/// the length of the result's signal list.
pub open spec fn headed_signal_count(f: EvidenceReportFields) -> Option<int> {
    match probe_of(f) {
        Some(p) if p.signal_count is Some => Some(p.signal_count->0 as int),
        _ => match signals_of(f) {
            Some(s) => Some((s.len() as i64) as int),
            None => None,
        },
    }
}

/// How many warnings a headed-external task gathered: the probe's count, else
/// those the result's signal list marks.
pub open spec fn headed_warning_count(f: EvidenceReportFields) -> Option<int> {
    match probe_of(f) {
        Some(p) if p.warning_count is Some => Some(p.warning_count->0 as int),
        _ => match signals_of(f) {
            Some(s) => Some((warning_signals(s) as i64) as int),
            None => None,
        },
    }
}

/// The entries that are not empty, in order.
pub open spec fn nonempty_items(items: Seq<Seq<char>>) -> Seq<Seq<char>>
    decreases items.len(),
{
    if items.len() == 0 {
        seq![]
    } else {
        let rest = nonempty_items(items.drop_last());
        if items.last().len() == 0 {
            rest
        } else {
            rest.push(items.last())
        }
    }
}

/// The categories the probe lists, without empties.
pub open spec fn probe_categories(f: EvidenceReportFields) -> Seq<Seq<char>> {
    match probe_of(f) {
        Some(p) => match p.categories {
            Some(c) => nonempty_items(strings_view(c@)),
            None => seq![],
        },
        None => seq![],
    }
}

/// The non-empty categories the result's signals name.
pub open spec fn signal_category_set(s: Seq<SignalStatusFields>) -> Set<Seq<char>> {
    Set::new(
        |c: Seq<char>|
            c.len() > 0 && exists|i: int| 0 <= i < s.len() && opt_view((#[trigger] s[i]).category) == Some(c),
    )
}

/// `cats` are the categories a headed-external summary lists: the probe's,
/// else the result's signal categories, sorted and each once.
pub open spec fn headed_categories(f: EvidenceReportFields, cats: Seq<Seq<char>>) -> bool {
    if probe_categories(f).len() > 0 {
        cats == probe_categories(f)
    } else {
        match signals_of(f) {
            Some(s) => strictly_sorted(cats) && cats.to_set() == signal_category_set(s),
            None => cats.len() == 0,
        }
    }
}

/// The repeatability note of a headed-external summary.
pub open spec fn repeatability_text(f: EvidenceReportFields) -> Seq<char> {
    match f.repeatability {
        Some(r) => match opt_view(r.status) {
            Some(st) => if st.len() > 0 {
                " repeatability="@ + st + " "@ + decimal_text(number_or_zero(r.passed_count)) + "/"@
                    + decimal_text(number_or_zero(r.requested_count))
            } else {
                ""@
            },
            None => ""@,
        },
        None => ""@,
    }
}

/// The one-line summary of a headed-external report listing `cats`.
pub open spec fn headed_summary(status: Seq<char>, f: EvidenceReportFields, cats: Seq<Seq<char>>) -> Seq<char> {
    let head = "headed external smoke "@ + status + ": action="@ + headed_action(f) + " finalUrl="@
        + headed_final_url(f);
    let signal_count = match headed_signal_count(f) {
        Some(n) => n,
        None => 0,
    };
    if signal_count > 0 {
        head + " signals="@ + decimal_text(signal_count) + " warnings="@ + decimal_text(
            match headed_warning_count(f) {
                Some(n) => n,
                None => 0,
            },
        ) + " categories="@ + (if cats.len() == 0 {
            "pending"@
        } else {
            joined(cats, ","@)
        }) + repeatability_text(f)
    } else {
        head + repeatability_text(f)
    }
}

fn key_text_of(first: &Option<Option<String>>, second: Option<&Option<Option<String>>>) -> (r: Option<String>)
    ensures
        opt_view(r) == key_text(
            *first,
            match second {
                Some(s) => *s,
                None => None,
            },
        ),
{
    match first {
        Some(v) => copy_opt(v),
        None => match second {
            Some(s) => match s {
                Some(v) => copy_opt(v),
                None => None,
            },
            None => None,
        },
    }
}

fn count_warning_signals(s: &Vec<SignalStatusFields>) -> (n: u64)
    ensures
        n as int == warning_signals(s@),
{
    let mut n: u64 = 0;
    let mut i: usize = 0;
    while i < s.len()
        invariant
            i <= s@.len(),
            n as int == warning_signals(s@.subrange(0, i as int)),
            n <= i,
        decreases s@.len() - i,
    {
        proof {
            let sub = s@.subrange(0, i as int + 1);
            assert(sub.drop_last() =~= s@.subrange(0, i as int));
            assert(sub.last() == s@[i as int]);
        }
        let is_warning = match &s[i].status {
            Some(st) => str_eq(st.as_str(), "warning"),
            None => false,
        };
        if is_warning {
            n = n + 1;
        }
        i = i + 1;
    }
    assert(s@.subrange(0, i as int) =~= s@);
    n
}

fn nonempty_list(items: &Vec<String>) -> (r: Vec<String>)
    ensures
        strings_view(r@) == nonempty_items(strings_view(items@)),
{
    let mut r: Vec<String> = Vec::new();
    let mut i: usize = 0;
    while i < items.len()
        invariant
            i <= items@.len(),
            strings_view(r@) == nonempty_items(strings_view(items@).subrange(0, i as int)),
        decreases items@.len() - i,
    {
        proof {
            let sub = strings_view(items@).subrange(0, i as int + 1);
            assert(sub.drop_last() =~= strings_view(items@).subrange(0, i as int));
            assert(sub.last() == items@[i as int]@);
        }
        if !items[i].as_str().is_empty() {
            let t = owned(items[i].as_str());
            proof {
                lemma_strings_view_push(r@, t);
            }
            r.push(t);
        }
        i = i + 1;
    }
    assert(strings_view(items@).subrange(0, i as int) =~= strings_view(items@));
    r
}

fn sorted_signal_categories(s: &Vec<SignalStatusFields>) -> (r: Vec<String>)
    ensures
        strictly_sorted(strings_view(r@)),
        strings_view(r@).to_set() == signal_category_set(s@),
{
    let mut r: Vec<String> = Vec::new();
    let mut i: usize = 0;
    assert(strings_view(r@).to_set() =~= signal_category_set(s@.subrange(0, 0)));
    while i < s.len()
        invariant
            i <= s@.len(),
            strictly_sorted(strings_view(r@)),
            strings_view(r@).to_set() == signal_category_set(s@.subrange(0, i as int)),
        decreases s@.len() - i,
    {
        let ghost before = strings_view(r@).to_set();
        match &s[i].category {
            Some(c) => if !c.as_str().is_empty() {
                insert_sorted_unique(&mut r, owned(c.as_str()));
            },
            None => {},
        }
        proof {
            let prev = s@.subrange(0, i as int);
            let next = s@.subrange(0, i as int + 1);
            assert forall|c: Seq<char>| signal_category_set(next).contains(c) <==> strings_view(r@).to_set().contains(c) by {
                if signal_category_set(next).contains(c) {
                    let k = choose|k: int| 0 <= k < next.len() && opt_view((#[trigger] next[k]).category) == Some(c);
                    if k < i {
                        assert(next[k] == prev[k]);
                        assert(signal_category_set(prev).contains(c));
                    } else {
                        assert(next[k] == s@[i as int]);
                    }
                }
                if before.contains(c) {
                    let k = choose|k: int| 0 <= k < prev.len() && opt_view((#[trigger] prev[k]).category) == Some(c);
                    assert(next[k] == prev[k]);
                    assert(signal_category_set(next).contains(c));
                }
                if c.len() > 0 && opt_view(s@[i as int].category) == Some(c) {
                    assert(next[i as int] == s@[i as int]);
                    assert(signal_category_set(next).contains(c));
                }
            }
            assert(signal_category_set(next) =~= strings_view(r@).to_set());
        }
        i = i + 1;
    }
    assert(s@.subrange(0, i as int) =~= s@);
    r
}

fn repeatability_note(fields: &EvidenceReportFields) -> (r: String)
    ensures
        r@ == repeatability_text(*fields),
{
    match &fields.repeatability {
        Some(rep) => match &rep.status {
            Some(st) => if st.as_str().is_empty() {
                owned("")
            } else {
                let passed = number_text(rep.passed_count);
                let requested = number_text(rep.requested_count);
                let a = concat3(" repeatability=", st.as_str(), " ");
                let b = concat3(a.as_str(), passed.as_str(), "/");
                concat2(b.as_str(), requested.as_str())
            },
            None => owned(""),
        },
        None => owned(""),
    }
}

/// The one-line summary of a headed-external report.
pub fn headed_external_summary(status: &str, fields: &EvidenceReportFields) -> (r: String)
    ensures
        exists|cats: Seq<Seq<char>>| headed_categories(*fields, cats) && r@ == headed_summary(status@, *fields, cats),
{
    let task = &fields.real_binary_task;
    let result: Option<&HeadedExternalResultFields> = match task {
        Some(t) => match &t.result {
            Some(r) => Some(r),
            None => None,
        },
        None => None,
    };
    let action_text = match task {
        Some(t) => key_text_of(
            &t.action,
            match result {
                Some(r) => Some(&r.action),
                None => None,
            },
        ),
        None => None,
    };
    let final_url_text = match task {
        Some(t) => key_text_of(
            &t.final_url,
            match result {
                Some(r) => Some(&r.final_url),
                None => None,
            },
        ),
        None => None,
    };
    let action = nonempty_or_fallback(&action_text, "pending");
    let final_url = nonempty_or_fallback(&final_url_text, "pending");
    let probe: Option<&ValidationProbeFields> = match task {
        Some(t) => match &t.validation_probe {
            Some(p) => Some(p),
            None => None,
        },
        None => None,
    };
    let signals: Option<&Vec<SignalStatusFields>> = match result {
        Some(r) => match &r.validation_signals {
            Some(v) => Some(v),
            None => None,
        },
        None => None,
    };
    let probe_signal_count: Option<i64> = match probe {
        Some(p) => p.signal_count,
        None => None,
    };
    let probe_warning_count: Option<i64> = match probe {
        Some(p) => p.warning_count,
        None => None,
    };
    let probe_categories: Vec<String> = match probe {
        Some(p) => match &p.categories {
            Some(c) => nonempty_list(c),
            None => {
                let v: Vec<String> = Vec::new();
                assert(strings_view(v@) =~= seq![]);
                v
            },
        },
        None => {
            let v: Vec<String> = Vec::new();
            assert(strings_view(v@) =~= seq![]);
            v
        },
    };
    let categories: Vec<String> = if probe_categories.len() > 0 {
        probe_categories
    } else {
        match signals {
            Some(s) => sorted_signal_categories(s),
            None => Vec::new(),
        }
    };
    let ghost cats = strings_view(categories@);
    let repeatability = repeatability_note(fields);
    let a = concat3("headed external smoke ", status, ": action=");
    let b = concat3(a.as_str(), action.as_str(), " finalUrl=");
    let head = concat2(b.as_str(), final_url.as_str());
    let signal_count: Option<i64> = match probe_signal_count {
        Some(n) => Some(n),
        None => match signals {
            Some(s) => Some(s.len() as i64),
            None => None,
        },
    };
    let r = match signal_count {
        Some(n) if n > 0 => {
            let warning_count: i64 = match probe_warning_count {
                Some(w) => w,
                None => match signals {
                    Some(s) => {
                        let w = count_warning_signals(s);
                        w as i64
                    },
                    None => 0,
                },
            };
            let category_text = if categories.len() == 0 {
                owned("pending")
            } else {
                join_strings(&categories, ",")
            };
            let sc = i64_to_text(n);
            let wc = i64_to_text(warning_count);
            let c = concat3(head.as_str(), " signals=", sc.as_str());
            let d = concat3(c.as_str(), " warnings=", wc.as_str());
            let e = concat3(d.as_str(), " categories=", category_text.as_str());
            concat2(e.as_str(), repeatability.as_str())
        },
        _ => concat2(head.as_str(), repeatability.as_str()),
    };
    assert(headed_categories(*fields, cats));
    r
}


/// The one-line summary of a report of any kind but headed-external.
pub open spec fn other_summary(kind: Seq<char>, status: Seq<char>, display_status: Seq<char>, f: EvidenceReportFields) -> Seq<char> {
    if kind == "m4_acceptance"@ {
        "M4 acceptance "@ + display_status + ": passed="@ + decimal_text(number_or_zero(f.summary_passed))
            + " expectedBlocked="@ + decimal_text(number_or_zero(f.summary_expected_blocked)) + " failed="@
            + decimal_text(number_or_zero(f.summary_failed))
    } else if kind == "m5_release_health"@ {
        "M5 release health "@ + status + ": budget="@ + text_or(opt_view(f.budget_status), "missing"@)
            + " checksFailed="@ + decimal_text(number_or_zero(f.summary_failed)) + " budgetResults="@
            + decimal_text(number_or_zero(f.summary_budget_result_count))
    } else if kind == "release_performance"@ {
        "release performance "@ + status + ": budget="@ + text_or(opt_view(f.budget_status), "legacy"@)
            + " cold_start="@ + number_or(f.measured_cold_start_ms, "pending"@) + "ms rss="@ + number_or(
            f.measured_idle_rss_mb,
            "pending"@,
        ) + "MB processes="@ + number_or(f.measured_process_count, "pending"@)
    } else if kind == "provider_acceptance"@ {
        "provider acceptance "@ + status + ": accepted="@ + decimal_text(number_or_zero(f.accepted_count))
            + " readyCredentials="@ + decimal_text(number_or_zero(f.ready_credential_count))
    } else if kind == "session_portability"@ {
        "session portability "@ + status + ": crossMachineComplete="@ + bool_text(
            f.cross_machine_complete == Some(true),
        )
    } else if kind == "taxonomy_audit"@ {
        "taxonomy audit "@ + status + ": reports="@ + decimal_digits(
            match f.items_count {
                Some(n) => n as nat,
                None => 0,
            },
        )
    } else if kind == "external_distribution"@ {
        "external distribution "@ + status
    } else if kind == "runtime_adapter"@ {
        "runtime adapter "@ + status
    } else if kind == "taxonomy_coverage"@ {
        "taxonomy coverage "@ + status + ": fingerprint="@ + number_or(
            f.fingerprint_materialized_signal_count,
            "pending"@,
        ) + " behavior="@ + number_or(f.behavior_materialized_event_count, "pending"@)
    } else if kind == "transport_binary_smoke"@ {
        "transport binary smoke "@ + status
    } else if kind == "remote_proxy_tls"@ {
        "remote proxy TLS "@ + status + ": exitIp="@ + nonempty_or(opt_view(f.observed_exit_ip), "pending"@)
            + " ja3Hash="@ + nonempty_or(opt_view(f.observed_tls_ja3_hash), "pending"@) + " ja4="@
            + nonempty_or(opt_view(f.observed_tls_ja4), "pending"@) + " directBaseline="@ + nonempty_or(
            opt_view(f.direct_baseline_status),
            "pending"@,
        ) + " directExitDiff="@ + match f.direct_exit_ip_different {
            Some(b) => bool_text(b),
            None => "pending"@,
        }
    } else if kind == "camoufox_binary_task"@ {
        "camoufox binary task "@ + status + ": action="@ + nonempty_or(opt_view(f.action), "pending"@)
            + " screenshotPresent="@ + bool_text(f.screenshot_present == Some(true))
    } else if kind == "provider_manager"@ {
        "provider manager "@ + status
    } else if kind == "profile_browser_comparison"@ {
        comparison_summary(status, f)
    } else {
        kind + " "@ + status
    }
}

fn count_text(n: Option<u64>) -> (r: String)
    ensures
        r@ == decimal_digits(
            match n {
                Some(v) => v as nat,
                None => 0,
            },
        ),
{
    match n {
        Some(v) => u64_to_text(v),
        None => u64_to_text(0),
    }
}

fn other_summary_text(kind: &str, status: &str, display_status: &str, fields: &EvidenceReportFields) -> (r: String)
    ensures
        r@ == other_summary(kind@, status@, display_status@, *fields),
{
    if str_eq(kind, "m4_acceptance") {
        let passed = number_text(fields.summary_passed);
        let expected = number_text(fields.summary_expected_blocked);
        let failed = number_text(fields.summary_failed);
        let a = concat3("M4 acceptance ", display_status, ": passed=");
        let b = concat3(a.as_str(), passed.as_str(), " expectedBlocked=");
        let c = concat3(b.as_str(), expected.as_str(), " failed=");
        concat2(c.as_str(), failed.as_str())
    } else if str_eq(kind, "m5_release_health") {
        let budget = text_or_fallback(&fields.budget_status, "missing");
        let failed = number_text(fields.summary_failed);
        let count = number_text(fields.summary_budget_result_count);
        let a = concat3("M5 release health ", status, ": budget=");
        let b = concat3(a.as_str(), budget.as_str(), " checksFailed=");
        let c = concat3(b.as_str(), failed.as_str(), " budgetResults=");
        concat2(c.as_str(), count.as_str())
    } else if str_eq(kind, "release_performance") {
        let budget = text_or_fallback(&fields.budget_status, "legacy");
        let cold = number_or_fallback(fields.measured_cold_start_ms, "pending");
        let rss = number_or_fallback(fields.measured_idle_rss_mb, "pending");
        let procs = number_or_fallback(fields.measured_process_count, "pending");
        let a = concat3("release performance ", status, ": budget=");
        let b = concat3(a.as_str(), budget.as_str(), " cold_start=");
        let c = concat3(b.as_str(), cold.as_str(), "ms rss=");
        let d = concat3(c.as_str(), rss.as_str(), "MB processes=");
        concat2(d.as_str(), procs.as_str())
    } else if str_eq(kind, "provider_acceptance") {
        let accepted = number_text(fields.accepted_count);
        let ready = number_text(fields.ready_credential_count);
        let a = concat3("provider acceptance ", status, ": accepted=");
        let b = concat3(a.as_str(), accepted.as_str(), " readyCredentials=");
        concat2(b.as_str(), ready.as_str())
    } else if str_eq(kind, "session_portability") {
        let complete = bool_word(
            match fields.cross_machine_complete {
                Some(b) => b,
                None => false,
            },
        );
        let a = concat3("session portability ", status, ": crossMachineComplete=");
        concat2(a.as_str(), complete.as_str())
    } else if str_eq(kind, "taxonomy_audit") {
        let count = count_text(fields.items_count);
        let a = concat3("taxonomy audit ", status, ": reports=");
        concat2(a.as_str(), count.as_str())
    } else if str_eq(kind, "external_distribution") {
        concat2("external distribution ", status)
    } else if str_eq(kind, "runtime_adapter") {
        concat2("runtime adapter ", status)
    } else if str_eq(kind, "taxonomy_coverage") {
        let fingerprint = number_or_fallback(fields.fingerprint_materialized_signal_count, "pending");
        let behavior = number_or_fallback(fields.behavior_materialized_event_count, "pending");
        let a = concat3("taxonomy coverage ", status, ": fingerprint=");
        let b = concat3(a.as_str(), fingerprint.as_str(), " behavior=");
        concat2(b.as_str(), behavior.as_str())
    } else if str_eq(kind, "transport_binary_smoke") {
        concat2("transport binary smoke ", status)
    } else if str_eq(kind, "remote_proxy_tls") {
        let exit_ip = nonempty_or_fallback(&fields.observed_exit_ip, "pending");
        let ja3 = nonempty_or_fallback(&fields.observed_tls_ja3_hash, "pending");
        let ja4 = nonempty_or_fallback(&fields.observed_tls_ja4, "pending");
        let direct = nonempty_or_fallback(&fields.direct_baseline_status, "pending");
        let diff = match fields.direct_exit_ip_different {
            Some(b) => bool_word(b),
            None => owned("pending"),
        };
        let a = concat3("remote proxy TLS ", status, ": exitIp=");
        let b = concat3(a.as_str(), exit_ip.as_str(), " ja3Hash=");
        let c = concat3(b.as_str(), ja3.as_str(), " ja4=");
        let d = concat3(c.as_str(), ja4.as_str(), " directBaseline=");
        let e = concat3(d.as_str(), direct.as_str(), " directExitDiff=");
        concat2(e.as_str(), diff.as_str())
    } else if str_eq(kind, "camoufox_binary_task") {
        let action = nonempty_or_fallback(&fields.action, "pending");
        let shot = bool_word(
            match fields.screenshot_present {
                Some(b) => b,
                None => false,
            },
        );
        let a = concat3("camoufox binary task ", status, ": action=");
        let b = concat3(a.as_str(), action.as_str(), " screenshotPresent=");
        concat2(b.as_str(), shot.as_str())
    } else if str_eq(kind, "provider_manager") {
        concat2("provider manager ", status)
    } else if str_eq(kind, "profile_browser_comparison") {
        profile_browser_comparison_summary(status, fields)
    } else {
        concat3(kind, " ", status)
    }
}

/// The failure reason a report gives, when it gives a non-empty one.
pub open spec fn report_failure_reason(f: EvidenceReportFields) -> Option<Seq<char>> {
    match opt_view(f.failure_reason) {
        Some(x) => if x.len() > 0 {
            Some(x)
        } else {
            None
        },
        None => None,
    }
}

pub const NO_PREVIOUS_REPORT: &'static str = "No previous local report for this evidence kind.";

/// Reads one local evidence report of `kind`, found at `report_path` and
/// named `report_id`, with `fallback_generated_at` for a report that gives no
/// time. The summary carries no trend yet: trends compare it with the
/// previous report of its kind once the history is assembled.
pub fn evidence_report_summary_from_fields(
    kind: &str,
    report_id: &str,
    report_path: &str,
    fallback_generated_at: &str,
    fields: &EvidenceReportFields,
) -> (r: DesktopEvidenceReportSummary)
    ensures
        ({
            let status = text_or(opt_view(fields.status), "unknown"@);
            let level = evidence_level(kind@, status, *fields);
            let reason = report_failure_reason(*fields);
            &&& r.report_id@ == report_id@
            &&& r.kind@ == kind@
            &&& r.status@ == status
            &&& r.evidence_level@ == level
            &&& r.generated_at@ == text_or(opt_view(fields.generated_at), fallback_generated_at@)
            &&& r.report_path@ == report_path@
            &&& opt_view(r.failure_reason) == reason
            &&& r.failure_reason_category@ == failure_reason_category(kind@, status, reason)
            &&& r.risk_level@ == risk_of(level, status).0
            &&& r.risk_score as int == risk_of(level, status).1
            &&& opt_view(r.next_action) == next_action(kind@, status, *fields, reason)
            &&& (kind@ == "headed_external_smoke"@ ==> exists|cats: Seq<Seq<char>>|
                headed_categories(*fields, cats) && r.summary@ == headed_summary(status, *fields, cats))
            &&& (kind@ != "headed_external_smoke"@ ==> r.summary@ == other_summary(
                kind@,
                status,
                text_or(opt_view(fields.operator_status), status),
                *fields,
            ))
            &&& r.previous_status is None
            &&& r.previous_failure_reason is None
            &&& r.previous_failure_reason_category is None
            &&& r.previous_generated_at is None
            &&& r.previous_risk_level is None
            &&& r.previous_risk_score is None
            &&& r.status_trend@ == "new_report_kind"@
            &&& r.failure_reason_trend@ == "new_report_kind"@
            &&& r.failure_reason_category_trend@ == "new_report_kind"@
            &&& r.risk_trend@ == "new_report_kind"@
            &&& r.trend_summary@ == NO_PREVIOUS_REPORT@
            &&& r.report_diff_summary@ == NO_PREVIOUS_REPORT@
            &&& r.report_diff_items@.len() == 0
        }),
{
    let status = text_or_fallback(&fields.status, "unknown");
    let display_status = text_or_fallback(&fields.operator_status, status.as_str());
    let failure_reason: Option<String> = match &fields.failure_reason {
        Some(x) => if x.as_str().is_empty() {
            None
        } else {
            Some(owned(x.as_str()))
        },
        None => None,
    };
    let reason_str: Option<&str> = match &failure_reason {
        Some(x) => Some(x.as_str()),
        None => None,
    };
    let failure_reason_category = evidence_failure_reason_category(kind, status.as_str(), reason_str);
    let evidence_level = evidence_level_from_report(kind, status.as_str(), fields);
    let (risk_level, risk_score) = evidence_risk_from_level(evidence_level.as_str(), status.as_str());
    let next_action = evidence_next_action(kind, status.as_str(), fields, reason_str);
    let summary = if str_eq(kind, "headed_external_smoke") {
        headed_external_summary(status.as_str(), fields)
    } else {
        other_summary_text(kind, status.as_str(), display_status.as_str(), fields)
    };
    DesktopEvidenceReportSummary {
        report_id: owned(report_id),
        kind: owned(kind),
        status,
        evidence_level,
        generated_at: text_or_fallback(&fields.generated_at, fallback_generated_at),
        report_path: owned(report_path),
        failure_reason,
        failure_reason_category,
        previous_status: None,
        previous_failure_reason: None,
        previous_failure_reason_category: None,
        previous_generated_at: None,
        status_trend: owned("new_report_kind"),
        failure_reason_trend: owned("new_report_kind"),
        failure_reason_category_trend: owned("new_report_kind"),
        risk_level,
        risk_score,
        previous_risk_level: None,
        previous_risk_score: None,
        risk_trend: owned("new_report_kind"),
        trend_summary: owned(NO_PREVIOUS_REPORT),
        report_diff_summary: owned(NO_PREVIOUS_REPORT),
        report_diff_items: Vec::new(),
        next_action,
        summary,
    }
}


/// How a stored report sorts: by rank, then by the time it was generated.
#[derive(Debug, Clone)]
pub struct ReportSortKey {
    pub rank: i32,
    pub generated_at: String,
}

/// Whether report key `a` sorts strictly after `b` (higher rank, or the same
/// rank and a later generation time).
pub open spec fn report_after(a: ReportSortKey, b: ReportSortKey) -> bool {
    a.rank > b.rank || (a.rank == b.rank && crate::text::lex_lt(b.generated_at@, a.generated_at@))
}

/// The report a reader takes among those found, in the order found: the one
/// that sorts first, the earliest found among equals; `None` when none was
/// found.
pub fn latest_report_index(keys: &Vec<ReportSortKey>) -> (r: Option<usize>)
    ensures
        keys@.len() == 0 <==> r is None,
        r matches Some(i) ==> i < keys@.len()
            && (forall|j: int| 0 <= j < i ==> report_after(keys@[i as int], #[trigger] keys@[j]))
            && (forall|j: int| i < j < keys@.len() ==> !report_after(#[trigger] keys@[j], keys@[i as int])),
{
    if keys.len() == 0 {
        return None;
    }
    let mut best: usize = 0;
    let mut i: usize = 1;
    while i < keys.len()
        invariant
            1 <= i <= keys@.len(),
            best < i,
            forall|j: int| 0 <= j < best ==> report_after(keys@[best as int], #[trigger] keys@[j]),
            forall|j: int| best < j < i ==> !report_after(#[trigger] keys@[j], keys@[best as int]),
        decreases keys@.len() - i,
    {
        let a = &keys[i];
        let b = &keys[best];
        let later = a.rank > b.rank || (a.rank == b.rank && crate::text::str_lt(
            b.generated_at.as_str(),
            a.generated_at.as_str(),
        ));
        if later {
            proof {
                assert forall|j: int| 0 <= j < i implies report_after(keys@[i as int], #[trigger] keys@[j]) by {
                    if j == best {
                    } else if j < best {
                        lemma_report_after_transitive(keys@[i as int], keys@[best as int], keys@[j]);
                    } else {
                        lemma_report_after_total(keys@[j], keys@[best as int]);
                        if !report_after(keys@[best as int], keys@[j]) {
                            lemma_report_equal_keys_after(keys@[i as int], keys@[best as int], keys@[j]);
                        } else {
                            lemma_report_after_transitive(keys@[i as int], keys@[best as int], keys@[j]);
                        }
                    }
                }
            }
            best = i;
        }
        i = i + 1;
    }
    Some(best)
}

proof fn lemma_report_after_transitive(a: ReportSortKey, b: ReportSortKey, c: ReportSortKey)
    requires
        report_after(a, b),
        report_after(b, c),
    ensures
        report_after(a, c),
{
    if a.rank == b.rank && b.rank == c.rank {
        crate::text::lemma_lex_lt_transitive(c.generated_at@, b.generated_at@, a.generated_at@);
    }
}

proof fn lemma_report_after_total(a: ReportSortKey, b: ReportSortKey)
    ensures
        report_after(a, b) || report_after(b, a) || (a.rank == b.rank && a.generated_at@ == b.generated_at@),
{
    if a.rank == b.rank && a.generated_at@ != b.generated_at@ {
        crate::text::lemma_lex_lt_total(a.generated_at@, b.generated_at@);
    }
}

proof fn lemma_report_equal_keys_after(a: ReportSortKey, b: ReportSortKey, c: ReportSortKey)
    requires
        report_after(a, b),
        !report_after(c, b),
        !report_after(b, c),
        b.rank == c.rank && b.generated_at@ == c.generated_at@,
    ensures
        report_after(a, c),
{
}

} // verus!
