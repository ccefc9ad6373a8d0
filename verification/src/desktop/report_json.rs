//! Reading an evidence report's JSON text into the fields the report logic
//! reads, each field by the JSON pointer of its key.
use vstd::prelude::*;

use super::providers::ProviderAcceptanceReportItem;
use super::report::{
    CategoryComparisonFields, EvidenceReportFields, HeadedExternalResultFields, HeadedExternalTaskFields,
    RepeatabilityFields, SignalStatusFields, ValidationProbeFields,
};
use crate::bindings::{
    json_bool_at, json_has_at, json_i64_at, json_list_len_at, json_number_2dp_at, json_str_at, json_text_bool_at,
    json_text_has, json_text_i64_at, json_text_list_len_at, json_text_number_2dp_at, json_text_shape,
    json_text_str_at, parse_json_shape,
};
use crate::numtext::{decimal_digits, u64_to_text};
use crate::text::{concat2, concat3, opt_view, strings_view};

verus! {

/// The pointer of entry `i` of the list at `p`.
pub open spec fn entry_pointer(p: Seq<char>, i: nat) -> Seq<char> {
    p + "/"@ + decimal_digits(i)
}

pub(crate) fn entry_ptr(p: &str, i: usize) -> (r: String)
    ensures
        r@ == entry_pointer(p@, i as nat),
{
    let digits = u64_to_text(i as u64);
    concat3(p, "/", digits.as_str())
}

pub(crate) fn key_ptr(p: &str, key: &str) -> (r: String)
    ensures
        r@ == p@ + "/"@ + key@,
{
    concat3(p, "/", key)
}

/// The texts among the first `n` entries of the list at `p`, in order.
pub open spec fn text_entries(t: Seq<char>, p: Seq<char>, n: nat) -> Seq<Seq<char>>
    decreases n,
{
    if n == 0 {
        Seq::empty()
    } else {
        let prev = text_entries(t, p, (n - 1) as nat);
        match json_text_str_at(t, entry_pointer(p, (n - 1) as nat)) {
            Some(s) => prev.push(s),
            None => prev,
        }
    }
}

/// The text list at `p`: its text entries, `None` where `p` holds no list.
pub open spec fn text_list_of(t: Seq<char>, p: Seq<char>) -> Option<Seq<Seq<char>>> {
    match json_text_list_len_at(t, p) {
        Some(n) => Some(text_entries(t, p, n as nat)),
        None => None,
    }
}

/// The text list at a pointer of a JSON text.
pub fn text_list_at(text: &str, p: &str) -> (r: Option<Vec<String>>)
    ensures
        match r {
            Some(v) => text_list_of(text@, p@) == Some(strings_view(v@)),
            None => text_list_of(text@, p@) is None,
        },
{
    let n = match json_list_len_at(text, p) {
        Some(n) => n,
        None => return None,
    };
    let mut out: Vec<String> = Vec::new();
    let mut i: usize = 0;
    while i < n
        invariant
            i <= n,
            strings_view(out@) == text_entries(text@, p@, i as nat),
        decreases n - i,
    {
        let ptr = entry_ptr(p, i);
        match json_str_at(text, ptr.as_str()) {
            Some(s) => {
                let ghost prev = out@;
                out.push(s);
                proof {
                    assert(strings_view(out@) =~= strings_view(prev).push(s@));
                }
            },
            None => {},
        }
        i = i + 1;
    }
    Some(out)
}

/// The two texts under keys `k1` and `k2` of each entry of a list of `n`.
pub open spec fn pair_entries(t: Seq<char>, p: Seq<char>, n: nat, k1: Seq<char>, k2: Seq<char>) -> Seq<(Option<Seq<char>>, Option<Seq<char>>)> {
    Seq::new(n, |i: int| (
        json_text_str_at(t, entry_pointer(p, i as nat) + "/"@ + k1),
        json_text_str_at(t, entry_pointer(p, i as nat) + "/"@ + k2),
    ))
}

pub open spec fn signals_view(v: Seq<SignalStatusFields>) -> Seq<(Option<Seq<char>>, Option<Seq<char>>)> {
    v.map_values(|s: SignalStatusFields| (opt_view(s.status), opt_view(s.category)))
}

pub open spec fn comparisons_view(v: Seq<CategoryComparisonFields>) -> Seq<(Option<Seq<char>>, Option<Seq<char>>)> {
    v.map_values(|c: CategoryComparisonFields| (opt_view(c.category), opt_view(c.status)))
}

fn signal_list_at(text: &str, p: &str) -> (r: Option<Vec<SignalStatusFields>>)
    ensures
        match json_text_list_len_at(text@, p@) {
            Some(n) => r matches Some(v) && signals_view(v@) == pair_entries(text@, p@, n as nat, "status"@, "category"@),
            None => r is None,
        },
{
    let n = match json_list_len_at(text, p) {
        Some(n) => n,
        None => return None,
    };
    let mut out: Vec<SignalStatusFields> = Vec::new();
    let mut i: usize = 0;
    while i < n
        invariant
            i <= n,
            signals_view(out@) == pair_entries(text@, p@, n as nat, "status"@, "category"@).take(i as int),
        decreases n - i,
    {
        let e = entry_ptr(p, i);
        let sp = key_ptr(e.as_str(), "status");
        let cp = key_ptr(e.as_str(), "category");
        let item = SignalStatusFields { status: json_str_at(text, sp.as_str()), category: json_str_at(text, cp.as_str()) };
        let ghost prev = out@;
        let ghost pair = (opt_view(item.status), opt_view(item.category));
        proof {
            let full = pair_entries(text@, p@, n as nat, "status"@, "category"@);
            assert(full[i as int] == pair);
            assert(full.take(i + 1) =~= full.take(i as int).push(pair));
        }
        out.push(item);
        proof {
            assert(signals_view(out@) =~= signals_view(prev).push(pair));
            assert(signals_view(out@) =~= pair_entries(text@, p@, n as nat, "status"@, "category"@).take(i + 1));
        }
        i = i + 1;
    }
    proof {
        assert(pair_entries(text@, p@, n as nat, "status"@, "category"@).take(n as int)
            =~= pair_entries(text@, p@, n as nat, "status"@, "category"@));
    }
    Some(out)
}

fn comparison_list_at(text: &str, p: &str) -> (r: Option<Vec<CategoryComparisonFields>>)
    ensures
        match json_text_list_len_at(text@, p@) {
            Some(n) => r matches Some(v) && comparisons_view(v@) == pair_entries(text@, p@, n as nat, "category"@, "status"@),
            None => r is None,
        },
{
    let n = match json_list_len_at(text, p) {
        Some(n) => n,
        None => return None,
    };
    let mut out: Vec<CategoryComparisonFields> = Vec::new();
    let mut i: usize = 0;
    while i < n
        invariant
            i <= n,
            comparisons_view(out@) == pair_entries(text@, p@, n as nat, "category"@, "status"@).take(i as int),
        decreases n - i,
    {
        let e = entry_ptr(p, i);
        let cp = key_ptr(e.as_str(), "category");
        let sp = key_ptr(e.as_str(), "status");
        let item = CategoryComparisonFields { category: json_str_at(text, cp.as_str()), status: json_str_at(text, sp.as_str()) };
        let ghost prev = out@;
        let ghost pair = (opt_view(item.category), opt_view(item.status));
        proof {
            let full = pair_entries(text@, p@, n as nat, "category"@, "status"@);
            assert(full[i as int] == pair);
            assert(full.take(i + 1) =~= full.take(i as int).push(pair));
        }
        out.push(item);
        proof {
            assert(comparisons_view(out@) =~= comparisons_view(prev).push(pair));
            assert(comparisons_view(out@) =~= pair_entries(text@, p@, n as nat, "category"@, "status"@).take(i + 1));
        }
        i = i + 1;
    }
    proof {
        assert(pair_entries(text@, p@, n as nat, "category"@, "status"@).take(n as int)
            =~= pair_entries(text@, p@, n as nat, "category"@, "status"@));
    }
    Some(out)
}

/// The text under a key that may be absent: `None` where the pointer reaches
/// nothing, else the text there, when it is one.
pub open spec fn present_text_of(t: Seq<char>, p: Seq<char>) -> Option<Option<Seq<char>>> {
    if json_text_has(t, p) {
        Some(json_text_str_at(t, p))
    } else {
        None
    }
}

pub open spec fn opt_opt_view(v: Option<Option<String>>) -> Option<Option<Seq<char>>> {
    match v {
        Some(Some(s)) => Some(Some(s@)),
        Some(None) => Some(None),
        None => None,
    }
}

fn present_text_at(text: &str, p: &str) -> (r: Option<Option<String>>)
    ensures
        opt_opt_view(r) == present_text_of(text@, p@),
{
    if json_has_at(text, p) {
        Some(json_str_at(text, p))
    } else {
        None
    }
}

/// Whether `task` holds what a report's `realBinaryTask` object gives.
pub open spec fn task_fields_of(task: HeadedExternalTaskFields, t: Seq<char>) -> bool {
    &&& opt_view(task.status) == json_text_str_at(t, "/realBinaryTask/status"@)
    &&& opt_opt_view(task.action) == present_text_of(t, "/realBinaryTask/action"@)
    &&& opt_opt_view(task.final_url) == present_text_of(t, "/realBinaryTask/finalUrl"@)
    &&& match task.validation_probe {
        Some(probe) => json_text_has(t, "/realBinaryTask/validationProbe"@)
            && probe.signal_count == json_text_i64_at(t, "/realBinaryTask/validationProbe/signalCount"@)
            && probe.warning_count == json_text_i64_at(t, "/realBinaryTask/validationProbe/warningCount"@)
            && match probe.categories {
                Some(c) => text_list_of(t, "/realBinaryTask/validationProbe/categories"@) == Some(strings_view(c@)),
                None => text_list_of(t, "/realBinaryTask/validationProbe/categories"@) is None,
            },
        None => !json_text_has(t, "/realBinaryTask/validationProbe"@),
    }
    &&& match task.result {
        Some(result) => json_text_has(t, "/realBinaryTask/result"@)
            && opt_opt_view(result.action) == present_text_of(t, "/realBinaryTask/result/action"@)
            && opt_opt_view(result.final_url) == present_text_of(t, "/realBinaryTask/result/final_url"@)
            && match json_text_list_len_at(t, "/realBinaryTask/result/validation_signals"@) {
                Some(n) => result.validation_signals matches Some(v) && signals_view(v@) == pair_entries(
                    t,
                    "/realBinaryTask/result/validation_signals"@,
                    n as nat,
                    "status"@,
                    "category"@,
                ),
                None => result.validation_signals is None,
            },
        None => !json_text_has(t, "/realBinaryTask/result"@),
    }
}

/// Whether `f` holds what the evidence report text `t` gives under each key
/// the report logic reads.
pub open spec fn is_report_fields_of(f: EvidenceReportFields, t: Seq<char>) -> bool {
    &&& opt_view(f.generated_at) == json_text_str_at(t, "/generatedAt"@)
    &&& opt_view(f.status) == json_text_str_at(t, "/status"@)
    &&& opt_view(f.operator_status) == json_text_str_at(t, "/operatorStatus"@)
    &&& opt_view(f.failure_reason) == json_text_str_at(t, "/failureReason"@)
    &&& opt_view(f.budget_status) == json_text_str_at(t, "/budgetStatus"@)
    &&& f.summary_passed == json_text_i64_at(t, "/summary/passed"@)
    &&& f.summary_expected_blocked == json_text_i64_at(t, "/summary/expectedBlocked"@)
    &&& f.summary_failed == json_text_i64_at(t, "/summary/failed"@)
    &&& f.summary_budget_result_count == json_text_i64_at(t, "/summary/budgetResultCount"@)
    &&& opt_view(f.summary_next_action) == json_text_str_at(t, "/summary/nextAction"@)
    &&& opt_view(f.health_summary_next_action) == json_text_str_at(t, "/healthSummary/nextAction"@)
    &&& f.measured_cold_start_ms == json_text_i64_at(t, "/measuredColdStartMs"@)
    &&& f.measured_idle_rss_mb == json_text_i64_at(t, "/measuredIdleRssMb"@)
    &&& f.measured_process_count == json_text_i64_at(t, "/measuredProcessCount"@)
    &&& f.accepted_count == json_text_i64_at(t, "/acceptedCount"@)
    &&& f.ready_credential_count == json_text_i64_at(t, "/readyCredentialCount"@)
    &&& f.cross_machine_complete == json_text_bool_at(t, "/crossMachineComplete"@)
    &&& f.fingerprint_materialized_signal_count == json_text_i64_at(t, "/fingerprint/materializedSignalCount"@)
    &&& f.behavior_materialized_event_count == json_text_i64_at(t, "/behavior/materializedEventCount"@)
    &&& opt_view(f.observed_exit_ip) == json_text_str_at(t, "/observed/exitIp"@)
    &&& opt_view(f.observed_tls_ja3_hash) == json_text_str_at(t, "/observed/tlsJa3Hash"@)
    &&& opt_view(f.observed_tls_ja4) == json_text_str_at(t, "/observed/tlsJa4"@)
    &&& opt_view(f.direct_baseline_status) == json_text_str_at(t, "/directBaseline/status"@)
    &&& f.direct_exit_ip_different == json_text_bool_at(t, "/directBaseline/exitIpDifferentFromProxied"@)
    &&& opt_view(f.remote_proxy_tls_evidence_status) == json_text_str_at(t, "/remoteProxyTlsEvidence/status"@)
    &&& opt_view(f.b1b5_transport_remote_proxy_tls) == json_text_str_at(t, "/b1b5Evidence/transportRemoteProxyTls"@)
    &&& opt_view(f.b1b5_session_portability) == json_text_str_at(t, "/b1b5Evidence/sessionPortability"@)
    &&& opt_view(f.b1b5_provider_production_closure) == json_text_str_at(t, "/b1b5Evidence/providerProductionClosure"@)
    &&& opt_view(f.action) == json_text_str_at(t, "/action"@)
    &&& f.screenshot_present == json_text_bool_at(t, "/screenshotPresent"@)
    &&& opt_view(f.same_run_status) == json_text_str_at(t, "/sameRunStatus"@)
    &&& f.max_pair_age_minutes == json_text_i64_at(t, "/maxPairAgeMinutes"@)
    &&& opt_view(f.desktop_profile_delta_minutes) == json_text_number_2dp_at(t, "/desktopProfileDeltaMinutes"@)
    &&& f.desktop_signal_count == json_text_i64_at(t, "/desktopSignalCount"@)
    &&& f.profile_browser_signal_count == json_text_i64_at(t, "/profileBrowserSignalCount"@)
    &&& f.comparable_category_count == json_text_i64_at(t, "/comparableCategoryCount"@)
    &&& f.items_count == match json_text_list_len_at(t, "/items"@) {
        Some(n) => Some(n as u64),
        None => None,
    }
    &&& match f.real_binary_task {
        Some(task) => json_text_has(t, "/realBinaryTask"@) && task_fields_of(task, t),
        None => !json_text_has(t, "/realBinaryTask"@),
    }
    &&& match f.repeatability {
        Some(r) => json_text_has(t, "/repeatability"@)
            && opt_view(r.status) == json_text_str_at(t, "/repeatability/status"@)
            && r.passed_count == json_text_i64_at(t, "/repeatability/passedCount"@)
            && r.requested_count == json_text_i64_at(t, "/repeatability/requestedCount"@),
        None => !json_text_has(t, "/repeatability"@),
    }
    &&& match json_text_list_len_at(t, "/categoryComparison"@) {
        Some(n) => f.category_comparison matches Some(v) && comparisons_view(v@) == pair_entries(
            t,
            "/categoryComparison"@,
            n as nat,
            "category"@,
            "status"@,
        ),
        None => f.category_comparison is None,
    }
}

fn real_binary_task_at(text: &str) -> (r: Option<HeadedExternalTaskFields>)
    ensures
        match r {
            Some(task) => json_text_has(text@, "/realBinaryTask"@) && task_fields_of(task, text@),
            None => !json_text_has(text@, "/realBinaryTask"@),
        },
{
    if !json_has_at(text, "/realBinaryTask") {
        return None;
    }
    let validation_probe = if json_has_at(text, "/realBinaryTask/validationProbe") {
        Some(ValidationProbeFields {
            signal_count: json_i64_at(text, "/realBinaryTask/validationProbe/signalCount"),
            warning_count: json_i64_at(text, "/realBinaryTask/validationProbe/warningCount"),
            categories: text_list_at(text, "/realBinaryTask/validationProbe/categories"),
        })
    } else {
        None
    };
    let result = if json_has_at(text, "/realBinaryTask/result") {
        Some(HeadedExternalResultFields {
            action: present_text_at(text, "/realBinaryTask/result/action"),
            final_url: present_text_at(text, "/realBinaryTask/result/final_url"),
            validation_signals: signal_list_at(text, "/realBinaryTask/result/validation_signals"),
        })
    } else {
        None
    };
    Some(HeadedExternalTaskFields {
        status: json_str_at(text, "/realBinaryTask/status"),
        action: present_text_at(text, "/realBinaryTask/action"),
        final_url: present_text_at(text, "/realBinaryTask/finalUrl"),
        validation_probe,
        result,
    })
}

/// The fields an evidence report's JSON text gives: each field is what the
/// text holds at the pointer of its key (`None` for a text that is not JSON).
pub fn parse_evidence_report_fields(text: &str) -> (f: EvidenceReportFields)
    ensures
        is_report_fields_of(f, text@),
{
    let items_count = match json_list_len_at(text, "/items") {
        Some(n) => Some(n as u64),
        None => None,
    };
    let repeatability = if json_has_at(text, "/repeatability") {
        Some(RepeatabilityFields {
            status: json_str_at(text, "/repeatability/status"),
            passed_count: json_i64_at(text, "/repeatability/passedCount"),
            requested_count: json_i64_at(text, "/repeatability/requestedCount"),
        })
    } else {
        None
    };
    EvidenceReportFields {
        generated_at: json_str_at(text, "/generatedAt"),
        status: json_str_at(text, "/status"),
        operator_status: json_str_at(text, "/operatorStatus"),
        failure_reason: json_str_at(text, "/failureReason"),
        budget_status: json_str_at(text, "/budgetStatus"),
        summary_passed: json_i64_at(text, "/summary/passed"),
        summary_expected_blocked: json_i64_at(text, "/summary/expectedBlocked"),
        summary_failed: json_i64_at(text, "/summary/failed"),
        summary_budget_result_count: json_i64_at(text, "/summary/budgetResultCount"),
        summary_next_action: json_str_at(text, "/summary/nextAction"),
        health_summary_next_action: json_str_at(text, "/healthSummary/nextAction"),
        measured_cold_start_ms: json_i64_at(text, "/measuredColdStartMs"),
        measured_idle_rss_mb: json_i64_at(text, "/measuredIdleRssMb"),
        measured_process_count: json_i64_at(text, "/measuredProcessCount"),
        accepted_count: json_i64_at(text, "/acceptedCount"),
        ready_credential_count: json_i64_at(text, "/readyCredentialCount"),
        cross_machine_complete: json_bool_at(text, "/crossMachineComplete"),
        fingerprint_materialized_signal_count: json_i64_at(text, "/fingerprint/materializedSignalCount"),
        behavior_materialized_event_count: json_i64_at(text, "/behavior/materializedEventCount"),
        observed_exit_ip: json_str_at(text, "/observed/exitIp"),
        observed_tls_ja3_hash: json_str_at(text, "/observed/tlsJa3Hash"),
        observed_tls_ja4: json_str_at(text, "/observed/tlsJa4"),
        direct_baseline_status: json_str_at(text, "/directBaseline/status"),
        direct_exit_ip_different: json_bool_at(text, "/directBaseline/exitIpDifferentFromProxied"),
        remote_proxy_tls_evidence_status: json_str_at(text, "/remoteProxyTlsEvidence/status"),
        b1b5_transport_remote_proxy_tls: json_str_at(text, "/b1b5Evidence/transportRemoteProxyTls"),
        b1b5_session_portability: json_str_at(text, "/b1b5Evidence/sessionPortability"),
        b1b5_provider_production_closure: json_str_at(text, "/b1b5Evidence/providerProductionClosure"),
        action: json_str_at(text, "/action"),
        screenshot_present: json_bool_at(text, "/screenshotPresent"),
        same_run_status: json_str_at(text, "/sameRunStatus"),
        max_pair_age_minutes: json_i64_at(text, "/maxPairAgeMinutes"),
        desktop_profile_delta_minutes: json_number_2dp_at(text, "/desktopProfileDeltaMinutes"),
        desktop_signal_count: json_i64_at(text, "/desktopSignalCount"),
        profile_browser_signal_count: json_i64_at(text, "/profileBrowserSignalCount"),
        comparable_category_count: json_i64_at(text, "/comparableCategoryCount"),
        items_count,
        real_binary_task: real_binary_task_at(text),
        repeatability,
        category_comparison: comparison_list_at(text, "/categoryComparison"),
    }
}

/// Whether a report text is JSON at all.
pub fn report_text_parses(text: &str) -> (r: bool)
    ensures
        r == json_text_shape(text@).is_some(),
{
    parse_json_shape(text).is_some()
}

pub open spec fn list_or_empty(v: Option<Seq<Seq<char>>>) -> Seq<Seq<char>> {
    match v {
        Some(l) => l,
        None => Seq::empty(),
    }
}

fn list_or_empty_vec(v: Option<Vec<String>>) -> (r: Vec<String>)
    ensures
        strings_view(r@) == list_or_empty(match v {
            Some(l) => Some(strings_view(l@)),
            None => None,
        }),
{
    match v {
        Some(l) => l,
        None => {
            let e: Vec<String> = Vec::new();
            proof {
                assert(strings_view(e@) =~= Seq::<Seq<char>>::empty());
            }
            e
        },
    }
}

/// Whether `item` holds what the JSON text `t` gives under each acceptance
/// key of the object at `p` (a missing list reads as empty).
pub open spec fn acceptance_item_at(item: ProviderAcceptanceReportItem, t: Seq<char>, p: Seq<char>) -> bool {
    &&& opt_view(item.provider_name) == json_text_str_at(t, p + "/providerName"@)
    &&& opt_view(item.manager_wiring_status) == json_text_str_at(t, p + "/managerWiringStatus"@)
    &&& opt_view(item.cdp_detect_status) == json_text_str_at(t, p + "/cdpDetectStatus"@)
    &&& opt_view(item.cdp_fill_status) == json_text_str_at(t, p + "/cdpFillStatus"@)
    &&& opt_view(item.operator_ui_status) == json_text_str_at(t, p + "/operatorUiStatus"@)
    &&& opt_view(item.dry_run_status) == json_text_str_at(t, p + "/dryRunStatus"@)
    &&& opt_view(item.failure_taxonomy_status) == json_text_str_at(t, p + "/failureTaxonomyStatus"@)
    &&& opt_view(item.real_provider_smoke_status) == json_text_str_at(t, p + "/realProviderSmokeStatus"@)
    &&& opt_view(item.failure_reason) == json_text_str_at(t, p + "/failureReason"@)
    &&& opt_view(item.dry_run_next_action) == json_text_str_at(t, p + "/dryRunNextAction"@)
    &&& item.dry_run_available == json_text_bool_at(t, p + "/dryRunAvailable"@)
    &&& strings_view(item.dry_run_contract@) == list_or_empty(text_list_of(t, p + "/dryRunContract"@))
    &&& strings_view(item.failure_taxonomy@) == list_or_empty(text_list_of(t, p + "/failureTaxonomy"@))
    &&& strings_view(item.present_credential_names@) == list_or_empty(text_list_of(t, p + "/presentCredentialNames"@))
}

fn acceptance_item_in(text: &str, p: &str) -> (item: ProviderAcceptanceReportItem)
    ensures
        acceptance_item_at(item, text@, p@),
{
    let p_provider_name = concat2(p, "/providerName");
    let p_manager_wiring_status = concat2(p, "/managerWiringStatus");
    let p_cdp_detect_status = concat2(p, "/cdpDetectStatus");
    let p_cdp_fill_status = concat2(p, "/cdpFillStatus");
    let p_operator_ui_status = concat2(p, "/operatorUiStatus");
    let p_dry_run_status = concat2(p, "/dryRunStatus");
    let p_failure_taxonomy_status = concat2(p, "/failureTaxonomyStatus");
    let p_real_provider_smoke_status = concat2(p, "/realProviderSmokeStatus");
    let p_failure_reason = concat2(p, "/failureReason");
    let p_dry_run_next_action = concat2(p, "/dryRunNextAction");
    let p_dry_run_contract = concat2(p, "/dryRunContract");
    let p_failure_taxonomy = concat2(p, "/failureTaxonomy");
    let p_present_credential_names = concat2(p, "/presentCredentialNames");
    let p_dry_run_available = concat2(p, "/dryRunAvailable");
    ProviderAcceptanceReportItem {
        provider_name: json_str_at(text, p_provider_name.as_str()),
        manager_wiring_status: json_str_at(text, p_manager_wiring_status.as_str()),
        cdp_detect_status: json_str_at(text, p_cdp_detect_status.as_str()),
        cdp_fill_status: json_str_at(text, p_cdp_fill_status.as_str()),
        operator_ui_status: json_str_at(text, p_operator_ui_status.as_str()),
        dry_run_status: json_str_at(text, p_dry_run_status.as_str()),
        failure_taxonomy_status: json_str_at(text, p_failure_taxonomy_status.as_str()),
        real_provider_smoke_status: json_str_at(text, p_real_provider_smoke_status.as_str()),
        failure_reason: json_str_at(text, p_failure_reason.as_str()),
        dry_run_next_action: json_str_at(text, p_dry_run_next_action.as_str()),
        dry_run_available: json_bool_at(text, p_dry_run_available.as_str()),
        dry_run_contract: list_or_empty_vec(text_list_at(text, p_dry_run_contract.as_str())),
        failure_taxonomy: list_or_empty_vec(text_list_at(text, p_failure_taxonomy.as_str())),
        present_credential_names: list_or_empty_vec(text_list_at(text, p_present_credential_names.as_str())),
    }
}

/// The first of the first `n` entries of `/items` whose `domain` is `domain`.
pub open spec fn first_domain_entry(t: Seq<char>, domain: Seq<char>, n: nat) -> Option<nat>
    decreases n,
{
    if n == 0 {
        None
    } else {
        match first_domain_entry(t, domain, (n - 1) as nat) {
            Some(i) => Some(i),
            None => if json_text_str_at(t, entry_pointer("/items"@, (n - 1) as nat) + "/"@ + "domain"@) == Some(domain) {
                Some((n - 1) as nat)
            } else {
                None
            },
        }
    }
}

/// The entry a provider acceptance report text gives for `domain`: the first
/// entry of its `items` list whose `domain` is `domain`, read key by key;
/// `None` where there is no list or no such entry.
pub fn provider_acceptance_entry(text: &str, domain: &str) -> (r: Option<ProviderAcceptanceReportItem>)
    ensures
        match json_text_list_len_at(text@, "/items"@) {
            Some(n) => match first_domain_entry(text@, domain@, n as nat) {
                Some(i) => r matches Some(item) && acceptance_item_at(item, text@, entry_pointer("/items"@, i)),
                None => r is None,
            },
            None => r is None,
        },
{
    let n = match json_list_len_at(text, "/items") {
        Some(n) => n,
        None => return None,
    };
    let mut i: usize = 0;
    while i < n
        invariant
            i <= n,
            first_domain_entry(text@, domain@, i as nat) is None,
            json_text_list_len_at(text@, "/items"@) == Some(n),
        decreases n - i,
    {
        let e = entry_ptr("/items", i);
        let dp = key_ptr(e.as_str(), "domain");
        let found = match json_str_at(text, dp.as_str()) {
            Some(d) => crate::text::str_eq(d.as_str(), domain),
            None => false,
        };
        if found {
            proof {
                assert(first_domain_entry(text@, domain@, (i + 1) as nat) == Some(i as nat));
                lemma_first_domain_stable(text@, domain@, (i + 1) as nat, n as nat);
            }
            return Some(acceptance_item_in(text, e.as_str()));
        }
        i = i + 1;
    }
    None
}

proof fn lemma_first_domain_stable(t: Seq<char>, domain: Seq<char>, k: nat, n: nat)
    requires
        k <= n,
        first_domain_entry(t, domain, k) is Some,
    ensures
        first_domain_entry(t, domain, n) == first_domain_entry(t, domain, k),
    decreases n - k,
{
    if k < n {
        lemma_first_domain_stable(t, domain, k, (n - 1) as nat);
    }
}

/// The text at a pointer of a report's JSON text.
pub fn report_text_at(text: &str, pointer: &str) -> (r: Option<String>)
    ensures
        opt_view(r) == json_text_str_at(text@, pointer@),
{
    json_str_at(text, pointer)
}

} // verus!
