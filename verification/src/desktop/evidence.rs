//! Evidence report history: failure reason categories, risk levels and the
//! trends between consecutive reports of the same kind.
use vstd::prelude::*;

use super::types::{DesktopEvidenceReportDiffItem, DesktopEvidenceReportHistory, DesktopEvidenceReportSummary};
use crate::bindings::{to_lowercase, unicode_lowercase};
use crate::numtext::{decimal_text, i64_to_text};
use crate::text::{
    concat3, copy_opt, nonblank_trimmed, normalized_optional_str, opt_str_view, opt_view, owned,
    seq_contains, str_contains, str_eq, trim, is_blank,
};

verus! {

/// The report kind stored under a report directory.
pub open spec fn report_kind_of_dir(dir: Seq<char>) -> Option<Seq<char>> {
    if dir == "m4-acceptance"@ {
        Some("m4_acceptance"@)
    } else if dir == "release-smoke"@ {
        Some("release_performance"@)
    } else if dir == "m5-release-health"@ {
        Some("m5_release_health"@)
    } else if dir == "provider-acceptance"@ {
        Some("provider_acceptance"@)
    } else if dir == "session-portability"@ {
        Some("session_portability"@)
    } else if dir == "taxonomy-audit"@ {
        Some("taxonomy_audit"@)
    } else if dir == "external-distribution"@ {
        Some("external_distribution"@)
    } else if dir == "runtime-adapter"@ {
        Some("runtime_adapter"@)
    } else if dir == "taxonomy-coverage"@ {
        Some("taxonomy_coverage"@)
    } else if dir == "transport-binary-smoke"@ {
        Some("transport_binary_smoke"@)
    } else if dir == "remote-proxy-tls"@ {
        Some("remote_proxy_tls"@)
    } else if dir == "headed-external-smoke"@ {
        Some("headed_external_smoke"@)
    } else if dir == "camoufox-binary-task"@ {
        Some("camoufox_binary_task"@)
    } else if dir == "provider-manager"@ {
        Some("provider_manager"@)
    } else if dir == "profile-browser-comparison"@ {
        Some("profile_browser_comparison"@)
    } else {
        None
    }
}

pub fn evidence_report_kind_from_dir(dir_name: &str) -> (kind: Option<&'static str>)
    ensures
        opt_str_view(kind) == report_kind_of_dir(dir_name@),
{
    if str_eq(dir_name, "m4-acceptance") {
        Some("m4_acceptance")
    } else if str_eq(dir_name, "release-smoke") {
        Some("release_performance")
    } else if str_eq(dir_name, "m5-release-health") {
        Some("m5_release_health")
    } else if str_eq(dir_name, "provider-acceptance") {
        Some("provider_acceptance")
    } else if str_eq(dir_name, "session-portability") {
        Some("session_portability")
    } else if str_eq(dir_name, "taxonomy-audit") {
        Some("taxonomy_audit")
    } else if str_eq(dir_name, "external-distribution") {
        Some("external_distribution")
    } else if str_eq(dir_name, "runtime-adapter") {
        Some("runtime_adapter")
    } else if str_eq(dir_name, "taxonomy-coverage") {
        Some("taxonomy_coverage")
    } else if str_eq(dir_name, "transport-binary-smoke") {
        Some("transport_binary_smoke")
    } else if str_eq(dir_name, "remote-proxy-tls") {
        Some("remote_proxy_tls")
    } else if str_eq(dir_name, "headed-external-smoke") {
        Some("headed_external_smoke")
    } else if str_eq(dir_name, "camoufox-binary-task") {
        Some("camoufox_binary_task")
    } else if str_eq(dir_name, "provider-manager") {
        Some("provider_manager")
    } else if str_eq(dir_name, "profile-browser-comparison") {
        Some("profile_browser_comparison")
    } else {
        None
    }
}

/// The category of a report's failure reason, by the first matching rule on the
/// report kind and status.
pub open spec fn failure_reason_category(kind: Seq<char>, status: Seq<char>, reason: Option<Seq<char>>) -> Seq<char> {
    let pbc = "profile_browser_comparison"@;
    if kind == "provider_acceptance"@ && seq_contains(status, "blocked_missing_credentials"@) {
        "provider_credentials_missing"@
    } else if kind == "remote_proxy_tls"@ && status == "blocked_remote_proxy_required"@ {
        "remote_proxy_missing"@
    } else if kind == pbc && status == "blocked_missing_desktop_webview_report"@ {
        "desktop_webview_evidence_missing"@
    } else if kind == pbc && status == "blocked_missing_profile_browser_report"@ {
        "profile_browser_evidence_missing"@
    } else if kind == pbc && status == "blocked_stale_comparison_pair"@ {
        "same_run_window_stale"@
    } else if kind == pbc && status == "partial_comparison_only"@ {
        "comparison_category_gap"@
    } else if kind == "session_portability"@ && (seq_contains(status, "local_contract"@) || seq_contains(
        status,
        "blocked"@,
    )) {
        "cross_machine_session_pending"@
    } else if kind == "runtime_adapter"@ && status == "blocked_evidence_required"@ {
        "runtime_adapter_evidence_required"@
    } else if kind == "external_distribution"@ && seq_contains(status, "blocked"@) {
        "external_operator_smoke_required"@
    } else if kind == "m4_acceptance"@ && (status == "expected_blocked"@ || status
        == "passed_with_expected_external_blockers"@) {
        "expected_external_blockers"@
    } else if kind == "m5_release_health"@ && (seq_contains(status, "budget_overrun"@) || seq_contains(
        status,
        "recorded_drift"@,
    )) {
        "release_budget_overrun"@
    } else if kind == "release_performance"@ && (seq_contains(status, "warning"@) || seq_contains(
        status,
        "failed"@,
    )) {
        if seq_contains(
            unicode_lowercase(
                match reason {
                    Some(r) => r,
                    None => Seq::empty(),
                },
            ),
            "target_exceeded"@,
        ) {
            "release_budget_overrun"@
        } else {
            "release_performance_warning"@
        }
    } else if seq_contains(status, "failed"@) {
        "unexpected_failure"@
    } else if seq_contains(status, "blocked"@) {
        "blocked_external_or_missing_evidence"@
    } else if seq_contains(status, "warning"@) || seq_contains(status, "partial"@) {
        "warning_or_partial"@
    } else {
        match reason {
            Some(r) => if trim(r).len() != 0 {
                "uncategorized_failure_reason"@
            } else {
                "none"@
            },
            None => "none"@,
        }
    }
}

pub fn evidence_failure_reason_category(kind: &str, status: &str, failure_reason: Option<&str>) -> (category: String)
    ensures
        category@ == failure_reason_category(kind@, status@, opt_str_view(failure_reason)),
{
    let pbc = str_eq(kind, "profile_browser_comparison");
    if str_eq(kind, "provider_acceptance") && str_contains(status, "blocked_missing_credentials") {
        owned("provider_credentials_missing")
    } else if str_eq(kind, "remote_proxy_tls") && str_eq(status, "blocked_remote_proxy_required") {
        owned("remote_proxy_missing")
    } else if pbc && str_eq(status, "blocked_missing_desktop_webview_report") {
        owned("desktop_webview_evidence_missing")
    } else if pbc && str_eq(status, "blocked_missing_profile_browser_report") {
        owned("profile_browser_evidence_missing")
    } else if pbc && str_eq(status, "blocked_stale_comparison_pair") {
        owned("same_run_window_stale")
    } else if pbc && str_eq(status, "partial_comparison_only") {
        owned("comparison_category_gap")
    } else if str_eq(kind, "session_portability") && (str_contains(status, "local_contract") || str_contains(
        status,
        "blocked",
    )) {
        owned("cross_machine_session_pending")
    } else if str_eq(kind, "runtime_adapter") && str_eq(status, "blocked_evidence_required") {
        owned("runtime_adapter_evidence_required")
    } else if str_eq(kind, "external_distribution") && str_contains(status, "blocked") {
        owned("external_operator_smoke_required")
    } else if str_eq(kind, "m4_acceptance") && (str_eq(status, "expected_blocked") || str_eq(
        status,
        "passed_with_expected_external_blockers",
    )) {
        owned("expected_external_blockers")
    } else if str_eq(kind, "m5_release_health") && (str_contains(status, "budget_overrun") || str_contains(
        status,
        "recorded_drift",
    )) {
        owned("release_budget_overrun")
    } else if str_eq(kind, "release_performance") && (str_contains(status, "warning") || str_contains(
        status,
        "failed",
    )) {
        let reason: &str = match failure_reason {
            Some(r) => r,
            None => "",
        };
        proof {
            reveal_strlit("");
            assert(""@ =~= Seq::<char>::empty());
        }
        let lower = to_lowercase(reason);
        if str_contains(lower.as_str(), "target_exceeded") {
            owned("release_budget_overrun")
        } else {
            owned("release_performance_warning")
        }
    } else if str_contains(status, "failed") {
        owned("unexpected_failure")
    } else if str_contains(status, "blocked") {
        owned("blocked_external_or_missing_evidence")
    } else if str_contains(status, "warning") || str_contains(status, "partial") {
        owned("warning_or_partial")
    } else {
        match failure_reason {
            Some(r) => if !is_blank(r) {
                owned("uncategorized_failure_reason")
            } else {
                owned("none")
            },
            None => owned("none"),
        }
    }
}

/// The trend of a report status against the previous report of its kind.
pub open spec fn status_trend(current: Seq<char>, previous: Option<Seq<char>>) -> Seq<char> {
    match previous {
        None => "new_report_kind"@,
        Some(p) => if p == current {
            "status_unchanged"@
        } else {
            "status_changed_from_"@ + p + "_to_"@ + current
        },
    }
}

pub fn evidence_status_trend(current: &str, previous: Option<&str>) -> (trend: String)
    ensures
        trend@ == status_trend(current@, opt_str_view(previous)),
{
    match previous {
        None => owned("new_report_kind"),
        Some(p) => if str_eq(p, current) {
            owned("status_unchanged")
        } else {
            let mut t = concat3("status_changed_from_", p, "_to_");
            t.append(current);
            t
        },
    }
}

/// The trend of the failure reason against the previous report of the kind.
pub open spec fn failure_reason_trend(current: Option<Seq<char>>, previous: Option<Seq<char>>) -> Seq<char> {
    match (nonblank_trimmed(current), nonblank_trimmed(previous)) {
        (None, None) => "no_failure_reason"@,
        (Some(_), None) => "new_failure_reason"@,
        (None, Some(_)) => "failure_reason_cleared"@,
        (Some(c), Some(p)) => if c == p {
            "failure_reason_unchanged"@
        } else {
            "failure_reason_changed"@
        },
    }
}

pub fn evidence_failure_reason_trend(current: Option<&str>, previous: Option<&str>) -> (trend: String)
    ensures
        trend@ == failure_reason_trend(opt_str_view(current), opt_str_view(previous)),
{
    let c = normalized_optional_str(current);
    let p = normalized_optional_str(previous);
    match (c, p) {
        (None, None) => owned("no_failure_reason"),
        (Some(_), None) => owned("new_failure_reason"),
        (None, Some(_)) => owned("failure_reason_cleared"),
        (Some(c), Some(p)) => if str_eq(c.as_str(), p.as_str()) {
            owned("failure_reason_unchanged")
        } else {
            owned("failure_reason_changed")
        },
    }
}

/// The trend of the failure reason category against the previous report of the kind.
pub open spec fn category_trend(current: Seq<char>, previous: Option<Seq<char>>) -> Seq<char> {
    match previous {
        None => "new_report_kind"@,
        Some(p) => if p == current {
            "failure_reason_category_unchanged"@
        } else {
            "failure_reason_category_changed_from_"@ + p + "_to_"@ + current
        },
    }
}

pub fn evidence_failure_reason_category_trend(current: &str, previous: Option<&str>) -> (trend: String)
    ensures
        trend@ == category_trend(current@, opt_str_view(previous)),
{
    match previous {
        None => owned("new_report_kind"),
        Some(p) => if str_eq(p, current) {
            owned("failure_reason_category_unchanged")
        } else {
            let mut t = concat3("failure_reason_category_changed_from_", p, "_to_");
            t.append(current);
            t
        },
    }
}

/// The risk level and score of a report, from its evidence level and status.
pub open spec fn risk_of(evidence_level: Seq<char>, status: Seq<char>) -> (Seq<char>, int) {
    let combined = unicode_lowercase(evidence_level + " "@ + status);
    if seq_contains(combined, "failed"@) {
        ("failed"@, 90)
    } else if seq_contains(combined, "expected_external_blockers"@) {
        ("expected_external_blocker"@, 50)
    } else if seq_contains(combined, "blocked"@) {
        ("blocked"@, 70)
    } else if seq_contains(combined, "partial"@) || seq_contains(combined, "warning"@) || seq_contains(
        combined,
        "over_budget"@,
    ) || seq_contains(combined, "drift"@) {
        ("partial"@, 40)
    } else if seq_contains(combined, "observed"@) || seq_contains(combined, "passed"@) {
        ("observed"@, 10)
    } else {
        ("contract_or_not_run"@, 55)
    }
}

pub fn evidence_risk_from_level(evidence_level: &str, status: &str) -> (risk: (String, i32))
    ensures
        risk.0@ == risk_of(evidence_level@, status@).0,
        risk.1 as int == risk_of(evidence_level@, status@).1,
{
    let joined = concat3(evidence_level, " ", status);
    let combined = to_lowercase(joined.as_str());
    let c = combined.as_str();
    if str_contains(c, "failed") {
        (owned("failed"), 90)
    } else if str_contains(c, "expected_external_blockers") {
        (owned("expected_external_blocker"), 50)
    } else if str_contains(c, "blocked") {
        (owned("blocked"), 70)
    } else if str_contains(c, "partial") || str_contains(c, "warning") || str_contains(c, "over_budget")
        || str_contains(c, "drift") {
        (owned("partial"), 40)
    } else if str_contains(c, "observed") || str_contains(c, "passed") {
        (owned("observed"), 10)
    } else {
        (owned("contract_or_not_run"), 55)
    }
}

/// The trend of the risk score against the previous report of the kind.
pub open spec fn risk_trend(current: int, previous: Option<int>) -> Seq<char> {
    match previous {
        None => "new_report_kind"@,
        Some(p) => if current < p {
            "risk_improved"@
        } else if current > p {
            "risk_regressed"@
        } else {
            "risk_unchanged"@
        },
    }
}

pub fn evidence_risk_trend(current_score: i32, previous_score: Option<i32>) -> (trend: String)
    ensures
        trend@ == risk_trend(
            current_score as int,
            match previous_score {
                Some(p) => Some(p as int),
                None => None,
            },
        ),
{
    match previous_score {
        None => owned("new_report_kind"),
        Some(p) => if current_score < p {
            owned("risk_improved")
        } else if current_score > p {
            owned("risk_regressed")
        } else {
            owned("risk_unchanged")
        },
    }
}

/// Optional text in a diff: trimmed, or `none`.
pub open spec fn optional_diff(value: Option<Seq<char>>) -> Seq<char> {
    match nonblank_trimmed(value) {
        Some(v) => v,
        None => "none"@,
    }
}

pub fn optional_diff_text(value: Option<&str>) -> (text: String)
    ensures
        text@ == optional_diff(opt_str_view(value)),
{
    match normalized_optional_str(value) {
        Some(v) => v,
        None => owned("none"),
    }
}

/// A risk in a diff: `{level}:{score}`.
pub open spec fn risk_diff(level: Seq<char>, score: int) -> Seq<char> {
    level + ":"@ + decimal_text(score)
}

pub fn risk_diff_text(level: &str, score: i32) -> (text: String)
    ensures
        text@ == risk_diff(level@, score as int),
{
    let n = i64_to_text(score as i64);
    concat3(level, ":", n.as_str())
}

/// The text, or a fallback when absent.
pub open spec fn or_text(value: Option<Seq<char>>, fallback: Seq<char>) -> Seq<char> {
    match value {
        Some(v) => v,
        None => fallback,
    }
}

fn opt_or<'a>(value: &'a Option<String>, fallback: &'a str) -> (text: &'a str)
    ensures
        text@ == or_text(opt_view(*value), fallback@),
{
    match value {
        Some(v) => v.as_str(),
        None => fallback,
    }
}

/// The operator sentence that compares a report with the previous one of its kind.
pub open spec fn trend_summary(r: DesktopEvidenceReportSummary) -> Seq<char> {
    match opt_view(r.previous_status) {
        None => "No previous local report for this evidence kind."@,
        Some(previous_status) => "Previous "@ + r.kind@ + " report at "@ + or_text(
            opt_view(r.previous_generated_at),
            "unknown time"@,
        ) + ": status "@ + previous_status + " -> "@ + r.status@ + "; failureReason trend="@
            + r.failure_reason_trend@ + "; category "@ + or_text(
            opt_view(r.previous_failure_reason_category),
            "none"@,
        ) + " -> "@ + r.failure_reason_category@ + " ("@ + r.failure_reason_category_trend@ + "); risk "@
            + or_text(opt_view(r.previous_risk_level), "unknown"@) + " -> "@ + r.risk_level@ + " ("@
            + r.risk_trend@ + ")."@,
    }
}

pub fn evidence_trend_summary(report: &DesktopEvidenceReportSummary) -> (s: String)
    ensures
        s@ == trend_summary(*report),
{
    match &report.previous_status {
        None => owned("No previous local report for this evidence kind."),
        Some(previous_status) => {
            let mut s = concat3("Previous ", report.kind.as_str(), " report at ");
            s.append(opt_or(&report.previous_generated_at, "unknown time"));
            s.append(": status ");
            s.append(previous_status.as_str());
            s.append(" -> ");
            s.append(report.status.as_str());
            s.append("; failureReason trend=");
            s.append(report.failure_reason_trend.as_str());
            s.append("; category ");
            s.append(opt_or(&report.previous_failure_reason_category, "none"));
            s.append(" -> ");
            s.append(report.failure_reason_category.as_str());
            s.append(" (");
            s.append(report.failure_reason_category_trend.as_str());
            s.append("); risk ");
            s.append(opt_or(&report.previous_risk_level, "unknown"));
            s.append(" -> ");
            s.append(report.risk_level.as_str());
            s.append(" (");
            s.append(report.risk_trend.as_str());
            s.append(").");
            s
        },
    }
}

/// The operator sentence that lists the trends of a report against the previous one.
pub open spec fn diff_summary(r: DesktopEvidenceReportSummary) -> Seq<char> {
    match opt_view(r.previous_status) {
        None => "No previous local report for this evidence kind."@,
        Some(previous_status) => "Diff vs previous "@ + r.kind@ + " report at "@ + or_text(
            opt_view(r.previous_generated_at),
            "unknown time"@,
        ) + ": status="@ + r.status_trend@ + "; failureReason="@ + r.failure_reason_trend@
            + "; failureReasonCategory="@ + r.failure_reason_category_trend@ + "; risk="@ + r.risk_trend@
            + "; previousStatus="@ + previous_status + "; currentStatus="@ + r.status@ + "."@,
    }
}

pub fn evidence_report_diff_summary(report: &DesktopEvidenceReportSummary) -> (s: String)
    ensures
        s@ == diff_summary(*report),
{
    match &report.previous_status {
        None => owned("No previous local report for this evidence kind."),
        Some(previous_status) => {
            let mut s = concat3("Diff vs previous ", report.kind.as_str(), " report at ");
            s.append(opt_or(&report.previous_generated_at, "unknown time"));
            s.append(": status=");
            s.append(report.status_trend.as_str());
            s.append("; failureReason=");
            s.append(report.failure_reason_trend.as_str());
            s.append("; failureReasonCategory=");
            s.append(report.failure_reason_category_trend.as_str());
            s.append("; risk=");
            s.append(report.risk_trend.as_str());
            s.append("; previousStatus=");
            s.append(previous_status.as_str());
            s.append("; currentStatus=");
            s.append(report.status.as_str());
            s.append(".");
            s
        },
    }
}

fn diff_item(field: &str, previous: String, current: String, trend: &str) -> (d: DesktopEvidenceReportDiffItem)
    ensures
        d.field@ == field@,
        d.previous == previous,
        d.current == current,
        d.trend@ == trend@,
{
    DesktopEvidenceReportDiffItem { field: owned(field), previous, current, trend: owned(trend) }
}

/// The diff items of a report: status, failure reason, category and risk, each
/// with the previous and current value and the trend; none without a previous report.
pub open spec fn diff_items_of(report: DesktopEvidenceReportSummary, items: Seq<DesktopEvidenceReportDiffItem>) -> bool {
    &&& report.previous_status is None ==> items.len() == 0
    &&& report.previous_status matches Some(ps) ==> {
        &&& items.len() == 4
        &&& items[0].field@ == "status"@ && items[0].previous@ == ps@ && items[0].current@ == report.status@
            && items[0].trend@ == report.status_trend@
        &&& items[1].field@ == "failureReason"@ && items[1].previous@ == optional_diff(
            opt_view(report.previous_failure_reason),
        ) && items[1].current@ == optional_diff(opt_view(report.failure_reason)) && items[1].trend@
            == report.failure_reason_trend@
        &&& items[2].field@ == "failureReasonCategory"@ && items[2].previous@ == or_text(
            opt_view(report.previous_failure_reason_category),
            "none"@,
        ) && items[2].current@ == report.failure_reason_category@ && items[2].trend@
            == report.failure_reason_category_trend@
        &&& items[3].field@ == "risk"@ && items[3].previous@ == risk_diff(
            or_text(opt_view(report.previous_risk_level), "unknown"@),
            match report.previous_risk_score {
                Some(s) => s as int,
                None => 0,
            },
        ) && items[3].current@ == risk_diff(report.risk_level@, report.risk_score as int) && items[3].trend@
            == report.risk_trend@
    }
}

/// The field-by-field diff of a report against the previous one of its kind
/// (status, failure reason, category, risk); empty without a previous report.
pub fn evidence_report_diff_items(report: &DesktopEvidenceReportSummary) -> (items: Vec<DesktopEvidenceReportDiffItem>)
    ensures
        diff_items_of(*report, items@),
{
    let previous_status = match &report.previous_status {
        Some(p) => p,
        None => {
            return Vec::new();
        },
    };
    let previous_score: i32 = match report.previous_risk_score {
        Some(s) => s,
        None => 0,
    };
    let status_item = diff_item(
        "status",
        owned(previous_status.as_str()),
        owned(report.status.as_str()),
        report.status_trend.as_str(),
    );
    let reason_item = diff_item(
        "failureReason",
        optional_diff_text(match &report.previous_failure_reason {
            Some(v) => Some(v.as_str()),
            None => None,
        }),
        optional_diff_text(match &report.failure_reason {
            Some(v) => Some(v.as_str()),
            None => None,
        }),
        report.failure_reason_trend.as_str(),
    );
    let category_item = diff_item(
        "failureReasonCategory",
        owned(opt_or(&report.previous_failure_reason_category, "none")),
        owned(report.failure_reason_category.as_str()),
        report.failure_reason_category_trend.as_str(),
    );
    let risk_item = diff_item(
        "risk",
        risk_diff_text(opt_or(&report.previous_risk_level, "unknown"), previous_score),
        risk_diff_text(report.risk_level.as_str(), report.risk_score),
        report.risk_trend.as_str(),
    );
    vec![status_item, reason_item, category_item, risk_item]
}

/// The index of the previous report of the same kind: the nearest later entry
/// of the history (the history is ordered newest first).
pub open spec fn previous_index(reports: Seq<DesktopEvidenceReportSummary>, i: int, j: int) -> bool {
    &&& i < j < reports.len()
    &&& reports[j].kind@ == reports[i].kind@
    &&& forall|k: int| i < k < j ==> #[trigger] reports[k].kind@ != reports[i].kind@
}

/// Whether no later entry of the history has the same kind.
pub open spec fn first_of_kind(reports: Seq<DesktopEvidenceReportSummary>, i: int) -> bool {
    forall|k: int| i < k < reports.len() ==> #[trigger] reports[k].kind@ != reports[i].kind@
}

/// The fields that attaching trends leaves as they were.
pub open spec fn report_core_kept(a: DesktopEvidenceReportSummary, b: DesktopEvidenceReportSummary) -> bool {
    &&& b.report_id@ == a.report_id@
    &&& b.kind@ == a.kind@
    &&& b.status@ == a.status@
    &&& b.evidence_level@ == a.evidence_level@
    &&& b.generated_at@ == a.generated_at@
    &&& b.report_path@ == a.report_path@
    &&& opt_view(b.failure_reason) == opt_view(a.failure_reason)
    &&& b.failure_reason_category@ == a.failure_reason_category@
    &&& b.risk_level@ == a.risk_level@
    &&& b.risk_score == a.risk_score
    &&& opt_view(b.next_action) == opt_view(a.next_action)
    &&& b.summary@ == a.summary@
}

/// A report after its trends against `previous` (the previous report of its
/// kind, if any) were attached.
pub open spec fn trends_attached(
    old_report: DesktopEvidenceReportSummary,
    new_report: DesktopEvidenceReportSummary,
    previous: Option<DesktopEvidenceReportSummary>,
) -> bool {
    &&& report_core_kept(old_report, new_report)
    &&& match previous {
        Some(p) => {
            &&& new_report.status_trend@ == status_trend(old_report.status@, Some(p.status@))
            &&& new_report.failure_reason_trend@ == failure_reason_trend(
                opt_view(old_report.failure_reason),
                opt_view(p.failure_reason),
            )
            &&& new_report.failure_reason_category_trend@ == category_trend(
                old_report.failure_reason_category@,
                Some(p.failure_reason_category@),
            )
            &&& new_report.risk_trend@ == risk_trend(old_report.risk_score as int, Some(p.risk_score as int))
            &&& opt_view(new_report.previous_status) == Some(p.status@)
            &&& opt_view(new_report.previous_failure_reason) == opt_view(p.failure_reason)
            &&& opt_view(new_report.previous_failure_reason_category) == Some(p.failure_reason_category@)
            &&& opt_view(new_report.previous_generated_at) == Some(p.generated_at@)
            &&& opt_view(new_report.previous_risk_level) == Some(p.risk_level@)
            &&& new_report.previous_risk_score == Some(p.risk_score)
        },
        None => {
            &&& new_report.status_trend@ == "new_report_kind"@
            &&& new_report.failure_reason_trend@ == "new_report_kind"@
            &&& new_report.failure_reason_category_trend@ == "new_report_kind"@
            &&& new_report.risk_trend@ == "new_report_kind"@
            &&& opt_view(new_report.previous_status) == opt_view(old_report.previous_status)
            &&& opt_view(new_report.previous_failure_reason) == opt_view(old_report.previous_failure_reason)
            &&& opt_view(new_report.previous_failure_reason_category) == opt_view(
                old_report.previous_failure_reason_category,
            )
            &&& opt_view(new_report.previous_generated_at) == opt_view(old_report.previous_generated_at)
            &&& opt_view(new_report.previous_risk_level) == opt_view(old_report.previous_risk_level)
            &&& new_report.previous_risk_score == old_report.previous_risk_score
        },
    }
    &&& new_report.trend_summary@ == trend_summary(new_report)
    &&& new_report.report_diff_summary@ == diff_summary(new_report)
    &&& diff_items_of(new_report, new_report.report_diff_items@)
}

fn find_previous(reports: &Vec<DesktopEvidenceReportSummary>, i: usize) -> (j: Option<usize>)
    requires
        i < reports@.len(),
    ensures
        j matches Some(j) ==> previous_index(reports@, i as int, j as int),
        j is None ==> first_of_kind(reports@, i as int),
{
    let n: usize = reports.len();
    let mut k: usize = i + 1;
    while k < n
        invariant
            i < k <= reports@.len(),
            n == reports@.len(),
            forall|m: int| i < m < k ==> #[trigger] reports@[m].kind@ != reports@[i as int].kind@,
        decreases reports@.len() - k,
    {
        if str_eq(reports[k].kind.as_str(), reports[i].kind.as_str()) {
            return Some(k);
        }
        k = k + 1;
    }
    None
}

fn with_trends(
    report: &DesktopEvidenceReportSummary,
    previous: Option<&DesktopEvidenceReportSummary>,
) -> (r: DesktopEvidenceReportSummary)
    ensures
        trends_attached(
            *report,
            r,
            match previous {
                Some(p) => Some(*p),
                None => None,
            },
        ),
{
    let (status_trend_text, reason_trend, category_trend_text, risk_trend_text, prev_status, prev_reason, prev_category, prev_at, prev_level, prev_score) =
        match previous {
        Some(p) => (
            evidence_status_trend(report.status.as_str(), Some(p.status.as_str())),
            evidence_failure_reason_trend(
                match &report.failure_reason {
                    Some(v) => Some(v.as_str()),
                    None => None,
                },
                match &p.failure_reason {
                    Some(v) => Some(v.as_str()),
                    None => None,
                },
            ),
            evidence_failure_reason_category_trend(
                report.failure_reason_category.as_str(),
                Some(p.failure_reason_category.as_str()),
            ),
            evidence_risk_trend(report.risk_score, Some(p.risk_score)),
            Some(owned(p.status.as_str())),
            copy_opt(&p.failure_reason),
            Some(owned(p.failure_reason_category.as_str())),
            Some(owned(p.generated_at.as_str())),
            Some(owned(p.risk_level.as_str())),
            Some(p.risk_score),
        ),
        None => (
            evidence_status_trend(report.status.as_str(), None),
            owned("new_report_kind"),
            owned("new_report_kind"),
            evidence_risk_trend(report.risk_score, None),
            copy_opt(&report.previous_status),
            copy_opt(&report.previous_failure_reason),
            copy_opt(&report.previous_failure_reason_category),
            copy_opt(&report.previous_generated_at),
            copy_opt(&report.previous_risk_level),
            report.previous_risk_score,
        ),
    };
    let mut r = DesktopEvidenceReportSummary {
        report_id: owned(report.report_id.as_str()),
        kind: owned(report.kind.as_str()),
        status: owned(report.status.as_str()),
        evidence_level: owned(report.evidence_level.as_str()),
        generated_at: owned(report.generated_at.as_str()),
        report_path: owned(report.report_path.as_str()),
        failure_reason: copy_opt(&report.failure_reason),
        failure_reason_category: owned(report.failure_reason_category.as_str()),
        previous_status: prev_status,
        previous_failure_reason: prev_reason,
        previous_failure_reason_category: prev_category,
        previous_generated_at: prev_at,
        status_trend: status_trend_text,
        failure_reason_trend: reason_trend,
        failure_reason_category_trend: category_trend_text,
        risk_level: owned(report.risk_level.as_str()),
        risk_score: report.risk_score,
        previous_risk_level: prev_level,
        previous_risk_score: prev_score,
        risk_trend: risk_trend_text,
        trend_summary: String::new(),
        report_diff_summary: String::new(),
        report_diff_items: Vec::new(),
        next_action: copy_opt(&report.next_action),
        summary: owned(report.summary.as_str()),
    };
    let trend = evidence_trend_summary(&r);
    let diff = evidence_report_diff_summary(&r);
    let items = evidence_report_diff_items(&r);
    r.trend_summary = trend;
    r.report_diff_summary = diff;
    r.report_diff_items = items;
    r
}

/// Attaches to each report of a newest-first history the trends against the
/// previous report of the same kind, with the trend sentence and diff items.
pub fn attach_evidence_report_trends(reports: &mut Vec<DesktopEvidenceReportSummary>)
    ensures
        final(reports)@.len() == old(reports)@.len(),
        forall|i: int| 0 <= i < old(reports)@.len() ==> {
            ||| (first_of_kind(old(reports)@, i) && trends_attached(
                #[trigger] old(reports)@[i],
                final(reports)@[i],
                None,
            ))
            ||| exists|j: int| previous_index(old(reports)@, i, j) && trends_attached(
                old(reports)@[i],
                final(reports)@[i],
                Some(old(reports)@[j]),
            )
        },
{
    let ghost original = reports@;
    let mut out: Vec<DesktopEvidenceReportSummary> = Vec::new();
    let mut i: usize = 0;
    while i < reports.len()
        invariant
            reports@ == original,
            i <= original.len(),
            out@.len() == i,
            forall|m: int| 0 <= m < i ==> {
                ||| (first_of_kind(original, m) && trends_attached(#[trigger] original[m], out@[m], None))
                ||| exists|j: int| previous_index(original, m, j) && trends_attached(
                    original[m],
                    out@[m],
                    Some(original[j]),
                )
            },
        decreases original.len() - i,
    {
        let found = find_previous(reports, i);
        let updated = match found {
            Some(j) => with_trends(&reports[i], Some(&reports[j])),
            None => with_trends(&reports[i], None),
        };
        out.push(updated);
        i = i + 1;
    }
    *reports = out;
}


/// Whether report `a` sorts before `b` by time and then path, oldest first.
pub open spec fn report_key_lt(a: DesktopEvidenceReportSummary, b: DesktopEvidenceReportSummary) -> bool {
    crate::text::lex_lt(a.generated_at@, b.generated_at@) || (a.generated_at@ == b.generated_at@
        && crate::text::lex_lt(a.report_path@, b.report_path@))
}

/// The reports with `e` placed after every report that is not older.
pub open spec fn insert_newest_first(
    sorted: Seq<DesktopEvidenceReportSummary>,
    e: DesktopEvidenceReportSummary,
) -> Seq<DesktopEvidenceReportSummary>
    decreases sorted.len(),
{
    if sorted.len() == 0 {
        seq![e]
    } else if !report_key_lt(sorted.last(), e) {
        sorted.push(e)
    } else {
        insert_newest_first(sorted.drop_last(), e).push(sorted.last())
    }
}

/// The reports newest first (by time, then path), equal ones in the order
/// found.
pub open spec fn newest_first(s: Seq<DesktopEvidenceReportSummary>) -> Seq<DesktopEvidenceReportSummary>
    decreases s.len(),
{
    if s.len() == 0 {
        seq![]
    } else {
        insert_newest_first(newest_first(s.drop_last()), s.last())
    }
}

fn report_older(a: &DesktopEvidenceReportSummary, b: &DesktopEvidenceReportSummary) -> (r: bool)
    ensures
        r == report_key_lt(*a, *b),
{
    crate::text::str_lt(a.generated_at.as_str(), b.generated_at.as_str()) || (str_eq(
        a.generated_at.as_str(),
        b.generated_at.as_str(),
    ) && crate::text::str_lt(a.report_path.as_str(), b.report_path.as_str()))
}

fn insert_report(sorted: &mut Vec<DesktopEvidenceReportSummary>, e: DesktopEvidenceReportSummary)
    ensures
        final(sorted)@ == insert_newest_first(old(sorted)@, e),
{
    let ghost s0 = sorted@;
    let mut i: usize = sorted.len();
    assert(s0.subrange(0, s0.len() as int) =~= s0);
    assert(insert_newest_first(s0, e) + s0.subrange(s0.len() as int, s0.len() as int) =~= insert_newest_first(s0, e));
    while i > 0 && report_older(&sorted[i - 1], &e)
        invariant
            sorted@ == s0,
            i <= s0.len(),
            insert_newest_first(s0, e) == insert_newest_first(s0.subrange(0, i as int), e) + s0.subrange(
                i as int,
                s0.len() as int,
            ),
        decreases i,
    {
        proof {
            let pre = s0.subrange(0, i as int);
            assert(pre.last() == s0[i - 1]);
            assert(pre.drop_last() =~= s0.subrange(0, i - 1));
            assert(insert_newest_first(pre.drop_last(), e).push(pre.last()) + s0.subrange(i as int, s0.len() as int)
                =~= insert_newest_first(s0.subrange(0, i - 1), e) + s0.subrange(i - 1, s0.len() as int));
        }
        i = i - 1;
    }
    proof {
        let pre = s0.subrange(0, i as int);
        if i > 0 {
            assert(pre.last() == s0[i - 1]);
        }
        assert(insert_newest_first(pre, e) =~= pre.push(e));
        assert(pre.push(e) + s0.subrange(i as int, s0.len() as int) =~= s0.insert(i as int, e));
    }
    sorted.insert(i, e);
}

/// Orders reports newest first (by time, then path), keeping equal ones in
/// the order found.
pub fn sort_reports_newest_first(reports: Vec<DesktopEvidenceReportSummary>) -> (r: Vec<
    DesktopEvidenceReportSummary,
>)
    ensures
        r@ == newest_first(reports@),
{
    let ghost all = reports@;
    let mut rest = reports;
    let mut sorted: Vec<DesktopEvidenceReportSummary> = Vec::new();
    let n = rest.len();
    let mut i: usize = 0;
    assert(newest_first(all.subrange(0, 0)) =~= sorted@);
    assert(rest@ =~= all.subrange(0, n as int));
    while i < n
        invariant
            n == all.len(),
            i <= n,
            rest@ == all.subrange(i as int, n as int),
            sorted@ == newest_first(all.subrange(0, i as int)),
        decreases n - i,
    {
        proof {
            let sub = all.subrange(0, i as int + 1);
            assert(sub.drop_last() =~= all.subrange(0, i as int));
            assert(sub.last() == all[i as int]);
        }
        let ghost before = rest@;
        let e = rest.remove(0);
        proof {
            assert(e == before[0]);
            assert(rest@ =~= all.subrange(i as int + 1, n as int));
        }
        insert_report(&mut sorted, e);
        i = i + 1;
    }
    assert(all.subrange(0, n as int) =~= all);
    sorted
}

/// The history of local evidence reports: newest first, each with its trends
/// against the previous report of its kind.
pub fn build_evidence_report_history(
    generated_at: String,
    reports: Vec<DesktopEvidenceReportSummary>,
) -> (h: DesktopEvidenceReportHistory)
    ensures
        h.generated_at@ == generated_at@,
        h.report_count == reports@.len(),
        h.reports@.len() == reports@.len(),
        forall|i: int| 0 <= i < reports@.len() ==> {
            ||| (first_of_kind(newest_first(reports@), i) && trends_attached(
                #[trigger] newest_first(reports@)[i],
                h.reports@[i],
                None,
            ))
            ||| exists|j: int| previous_index(newest_first(reports@), i, j) && trends_attached(
                newest_first(reports@)[i],
                h.reports@[i],
                Some(newest_first(reports@)[j]),
            )
        },
        h.summary@ == "Evidence report history: "@ + crate::numtext::decimal_digits(reports@.len() as nat)
            + " local reports"@,
{
    let mut ordered = sort_reports_newest_first(reports);
    proof {
        lemma_newest_first_len(reports@);
    }
    attach_evidence_report_trends(&mut ordered);
    let count = ordered.len();
    let n = crate::numtext::u64_to_text(count as u64);
    let summary = concat3("Evidence report history: ", n.as_str(), " local reports");
    DesktopEvidenceReportHistory { generated_at, report_count: count, reports: ordered, summary }
}

proof fn lemma_insert_newest_len(sorted: Seq<DesktopEvidenceReportSummary>, e: DesktopEvidenceReportSummary)
    ensures
        insert_newest_first(sorted, e).len() == sorted.len() + 1,
    decreases sorted.len(),
{
    if sorted.len() > 0 && report_key_lt(sorted.last(), e) {
        lemma_insert_newest_len(sorted.drop_last(), e);
    }
}

proof fn lemma_newest_first_len(s: Seq<DesktopEvidenceReportSummary>)
    ensures
        newest_first(s).len() == s.len(),
    decreases s.len(),
{
    if s.len() > 0 {
        lemma_newest_first_len(s.drop_last());
        lemma_insert_newest_len(newest_first(s.drop_last()), s.last());
    }
}


/// Whether no report is older than a later one.
pub open spec fn ordered_newest_first(s: Seq<DesktopEvidenceReportSummary>) -> bool {
    forall|i: int, j: int| 0 <= i < j < s.len() ==> !report_key_lt(#[trigger] s[i], #[trigger] s[j])
}

proof fn lemma_report_key_asymmetric(a: DesktopEvidenceReportSummary, b: DesktopEvidenceReportSummary)
    requires
        report_key_lt(a, b),
    ensures
        !report_key_lt(b, a),
{
    if report_key_lt(b, a) {
        if crate::text::lex_lt(a.generated_at@, b.generated_at@) {
            if crate::text::lex_lt(b.generated_at@, a.generated_at@) {
                crate::text::lemma_lex_lt_transitive(a.generated_at@, b.generated_at@, a.generated_at@);
            }
            crate::text::lemma_lex_lt_irreflexive(a.generated_at@);
        } else {
            if crate::text::lex_lt(b.generated_at@, a.generated_at@) {
                crate::text::lemma_lex_lt_irreflexive(a.generated_at@);
            } else {
                crate::text::lemma_lex_lt_transitive(a.report_path@, b.report_path@, a.report_path@);
                crate::text::lemma_lex_lt_irreflexive(a.report_path@);
            }
        }
    }
}

proof fn lemma_report_key_lt_transitive(
    a: DesktopEvidenceReportSummary,
    b: DesktopEvidenceReportSummary,
    c: DesktopEvidenceReportSummary,
)
    requires
        report_key_lt(a, b),
        report_key_lt(b, c),
    ensures
        report_key_lt(a, c),
{
    let (x, y, z) = (a.generated_at@, b.generated_at@, c.generated_at@);
    if crate::text::lex_lt(x, y) && crate::text::lex_lt(y, z) {
        crate::text::lemma_lex_lt_transitive(x, y, z);
    } else if crate::text::lex_lt(x, y) {
    } else if crate::text::lex_lt(y, z) {
    } else {
        crate::text::lemma_lex_lt_transitive(a.report_path@, b.report_path@, c.report_path@);
    }
}

proof fn lemma_report_not_older_transitive(
    a: DesktopEvidenceReportSummary,
    b: DesktopEvidenceReportSummary,
    c: DesktopEvidenceReportSummary,
)
    requires
        !report_key_lt(a, b),
        !report_key_lt(b, c),
    ensures
        !report_key_lt(a, c),
{
    if report_key_lt(a, c) {
        lemma_report_key_total(a, b);
        if report_key_lt(b, a) {
            lemma_report_key_lt_transitive(b, a, c);
        } else {
            assert(b.generated_at@ == a.generated_at@ && b.report_path@ == a.report_path@);
        }
    }
}

proof fn lemma_report_key_total(a: DesktopEvidenceReportSummary, b: DesktopEvidenceReportSummary)
    ensures
        report_key_lt(a, b) || report_key_lt(b, a) || (a.generated_at@ == b.generated_at@ && a.report_path@
            == b.report_path@),
{
    if a.generated_at@ != b.generated_at@ {
        crate::text::lemma_lex_lt_total(a.generated_at@, b.generated_at@);
    } else if a.report_path@ != b.report_path@ {
        crate::text::lemma_lex_lt_total(a.report_path@, b.report_path@);
    }
}

proof fn lemma_insert_newest_keeps_order(sorted: Seq<DesktopEvidenceReportSummary>, e: DesktopEvidenceReportSummary)
    requires
        ordered_newest_first(sorted),
    ensures
        ordered_newest_first(insert_newest_first(sorted, e)),
        insert_newest_first(sorted, e).to_multiset() == sorted.to_multiset().insert(e),
    decreases sorted.len(),
{
    broadcast use vstd::seq_lib::group_to_multiset_ensures;
    if sorted.len() == 0 {
        assert(insert_newest_first(sorted, e) =~= seq![e]);
        assert(seq![e] =~= Seq::<DesktopEvidenceReportSummary>::empty().push(e));
    } else if !report_key_lt(sorted.last(), e) {
        let r = sorted.push(e);
        assert forall|i: int, j: int| 0 <= i < j < r.len() implies !report_key_lt(#[trigger] r[i], #[trigger] r[j]) by {
            if j == r.len() - 1 && i < sorted.len() - 1 {
                lemma_report_not_older_transitive(sorted[i], sorted.last(), e);
            }
        }
    } else {
        let pre = sorted.drop_last();
        let last = sorted.last();
        assert forall|i: int, j: int| 0 <= i < j < pre.len() implies !report_key_lt(#[trigger] pre[i], #[trigger] pre[j]) by {
            assert(pre[i] == sorted[i] && pre[j] == sorted[j]);
        }
        lemma_insert_newest_keeps_order(pre, e);
        lemma_insert_newest_len(pre, e);
        let mid = insert_newest_first(pre, e);
        let r = mid.push(last);
        lemma_report_key_asymmetric(last, e);
        assert forall|k: int| 0 <= k < mid.len() implies !report_key_lt(#[trigger] mid[k], last) by {
            assert(mid.to_multiset().contains(mid[k]));
            assert(pre.to_multiset().insert(e).contains(mid[k]));
            if mid[k] != e {
                assert(pre.to_multiset().contains(mid[k]));
                assert(pre.contains(mid[k]));
                let m = choose|m: int| 0 <= m < pre.len() && pre[m] == mid[k];
                assert(sorted[m] == pre[m]);
                assert(!report_key_lt(sorted[m], sorted[sorted.len() - 1]));
            }
        }
        assert forall|i: int, j: int| 0 <= i < j < r.len() implies !report_key_lt(#[trigger] r[i], #[trigger] r[j]) by {
            if j == r.len() - 1 {
                assert(r[i] == mid[i]);
            } else {
                assert(r[i] == mid[i] && r[j] == mid[j]);
            }
        }
        assert(sorted =~= pre.push(last));
    }
}

/// An evidence history lists the reports found newest first, each exactly
/// as often as it was found.
pub proof fn lemma_history_newest_first(s: Seq<DesktopEvidenceReportSummary>)
    ensures
        ordered_newest_first(newest_first(s)),
        newest_first(s).to_multiset() == s.to_multiset(),
    decreases s.len(),
{
    broadcast use vstd::seq_lib::group_to_multiset_ensures;
    if s.len() == 0 {
        assert(newest_first(s) =~= s);
    } else {
        lemma_history_newest_first(s.drop_last());
        lemma_insert_newest_keeps_order(newest_first(s.drop_last()), s.last());
        assert(s =~= s.drop_last().push(s.last()));
    }
}

/// A report whose evidence level or status names expected external blockers,
/// and nothing failed, is rated an expected external blocker with score 50;
/// a failure anywhere in them rates it failed with score 90; another block,
/// without a failure, rates it blocked with score 70.
pub proof fn lemma_expected_blockers_risk(evidence_level: Seq<char>, status: Seq<char>)
    ensures
        ({
            let text = unicode_lowercase(evidence_level + " "@ + status);
            &&& seq_contains(text, "failed"@) ==> risk_of(evidence_level, status) == ("failed"@, 90int)
            &&& (seq_contains(text, "expected_external_blockers"@) && !seq_contains(text, "failed"@))
                ==> risk_of(evidence_level, status) == ("expected_external_blocker"@, 50int)
            &&& (seq_contains(text, "blocked"@) && !seq_contains(text, "failed"@) && !seq_contains(
                text,
                "expected_external_blockers"@,
            )) ==> risk_of(evidence_level, status) == ("blocked"@, 70int)
        }),
{
}

} // verus!
