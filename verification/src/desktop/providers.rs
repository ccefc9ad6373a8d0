//! Provider production readiness: for the captcha, SMS and email provider
//! domains, what is configured, what the latest acceptance report proves, and
//! what still blocks closure.
use vstd::prelude::*;

use super::types::{DesktopProviderProductionReadiness, DesktopProviderReadinessItem};
use crate::text::clone_strings;
use crate::numtext::{decimal_digits, u64_to_text};
use crate::text::{
    concat2, concat3, copy_opt, join_strings, joined, lemma_strings_view_push,
    nonblank_trimmed, normalized_optional_text, opt_view, owned, owned_strings, str_eq, strings_view,
    strs_view, trimmed_nonempty, trimmed_nonempty_items,
};

verus! {

/// What a provider domain needs before it counts as closed.
#[derive(Debug, Clone)]
pub struct ProviderReadinessSpec {
    pub domain: String,
    pub provider_names: Vec<String>,
    pub credential_env_keys: Vec<String>,
    pub manager_wiring_status: String,
    pub cdp_detect_status: String,
    pub cdp_fill_status: String,
    pub operator_ui_status: String,
    pub real_provider_smoke_status: String,
    pub closure_gates: Vec<String>,
    pub acceptance_checklist: Vec<String>,
    pub dry_run_contract: Vec<String>,
    pub failure_taxonomy: Vec<String>,
}

/// The entry a provider acceptance report gives for a domain: the text of
/// each text value, the flag, and the text entries of each list.
#[derive(Debug, Clone)]
pub struct ProviderAcceptanceReportItem {
    pub provider_name: Option<String>,
    pub manager_wiring_status: Option<String>,
    pub cdp_detect_status: Option<String>,
    pub cdp_fill_status: Option<String>,
    pub operator_ui_status: Option<String>,
    pub dry_run_status: Option<String>,
    pub dry_run_available: Option<bool>,
    pub dry_run_contract: Vec<String>,
    pub failure_taxonomy: Vec<String>,
    pub failure_taxonomy_status: Option<String>,
    pub real_provider_smoke_status: Option<String>,
    pub present_credential_names: Vec<String>,
    pub failure_reason: Option<String>,
    pub dry_run_next_action: Option<String>,
}

/// A report's text for a key, else the fallback.
pub open spec fn reported_or(report: Option<ProviderAcceptanceReportItem>, which: int, fallback: Seq<char>) -> Seq<char> {
    let v = match report {
        Some(r) => if which == 0 {
            r.manager_wiring_status
        } else if which == 1 {
            r.cdp_detect_status
        } else if which == 2 {
            r.cdp_fill_status
        } else if which == 3 {
            r.operator_ui_status
        } else if which == 4 {
            r.dry_run_status
        } else if which == 5 {
            r.failure_taxonomy_status
        } else if which == 6 {
            r.real_provider_smoke_status
        } else if which == 7 {
            r.failure_reason
        } else if which == 8 {
            r.dry_run_next_action
        } else {
            r.provider_name
        },
        None => None,
    };
    match nonblank_trimmed(opt_view(v)) {
        Some(x) => x,
        None => fallback,
    }
}

/// The blockers of a domain, in the order they are reported.
pub open spec fn provider_blockers(
    credential_present: bool,
    keys: Seq<Seq<char>>,
    manager: Seq<char>,
    detect: Seq<char>,
    fill: Seq<char>,
    operator_ui: Seq<char>,
    smoke: Seq<char>,
) -> Seq<Seq<char>> {
    (if !credential_present {
        seq!["missing provider credential env: "@ + joined(keys, "|"@)]
    } else {
        seq![]
    }) + (if manager != "wired"@ {
        seq!["production manager wiring is not connected to runtime flow"@]
    } else {
        seq![]
    }) + (if detect != "passed"@ {
        seq!["CDP challenge/field detection has not passed"@]
    } else {
        seq![]
    }) + (if fill != "passed"@ {
        seq!["CDP fill automation has not passed"@]
    } else {
        seq![]
    }) + (if operator_ui != "wired"@ {
        seq!["operator UI closure is not wired"@]
    } else {
        seq![]
    }) + (if smoke != "passed"@ {
        seq!["real provider smoke has not passed"@]
    } else {
        seq![]
    })
}

/// A report list when it holds anything (trimmed, without blanks), else `fallback`.
pub open spec fn reported_list(report_list: Option<Seq<Seq<char>>>, fallback: Seq<Seq<char>>) -> Seq<Seq<char>> {
    match report_list {
        Some(l) => if trimmed_nonempty(l).len() > 0 {
            trimmed_nonempty(l)
        } else {
            fallback
        },
        None => fallback,
    }
}

/// `item` is the readiness of the domain `spec`, with the credential
/// variables `present` set and the latest acceptance report entry `report`
/// found at `report_path`.
pub open spec fn readiness_item_is(
    spec: ProviderReadinessSpec,
    present: Seq<Seq<char>>,
    report: Option<ProviderAcceptanceReportItem>,
    report_path: Option<Seq<char>>,
    item: DesktopProviderReadinessItem,
) -> bool {
    let credential_present = present.len() > 0;
    let manager = reported_or(report, 0, spec.manager_wiring_status@);
    let detect = reported_or(report, 1, spec.cdp_detect_status@);
    let fill = reported_or(report, 2, spec.cdp_fill_status@);
    let operator_ui = reported_or(report, 3, spec.operator_ui_status@);
    let smoke = reported_or(report, 6, spec.real_provider_smoke_status@);
    let blockers = provider_blockers(
        credential_present,
        strings_view(spec.credential_env_keys@),
        manager,
        detect,
        fill,
        operator_ui,
        smoke,
    );
    let next_action = if blockers.len() == 0 {
        "preserve accepted report and run production flow regression"@
    } else {
        blockers[0]
    };
    &&& item.domain@ == spec.domain@
    &&& item.status@ == (if blockers.len() == 0 {
        "ready"@
    } else if credential_present {
        "configured_but_blocked"@
    } else {
        "blocked"@
    })
    &&& opt_view(item.provider_name) == match report {
        Some(r) => nonblank_trimmed(opt_view(r.provider_name)),
        None => None,
    }
    &&& item.provider_count == spec.provider_names@.len()
    &&& item.configured_provider_count == (if credential_present { 1nat } else { 0nat })
    &&& item.manager_wiring_status@ == manager
    &&& item.config_status@ == (if credential_present {
        "provider_credentials_present"@
    } else {
        "provider_credentials_missing"@
    })
    &&& item.credential_status@ == (if credential_present {
        "configured"@
    } else {
        "missing_credentials"@
    })
    &&& strings_view(item.present_credential_names@) == (if credential_present {
        present
    } else {
        match report {
            Some(r) => trimmed_nonempty(strings_view(r.present_credential_names@)),
            None => seq![],
        }
    })
    &&& item.cdp_detect_status@ == detect
    &&& item.cdp_fill_status@ == fill
    &&& item.cdp_automation_status@ == (if detect == "passed"@ && fill == "passed"@ {
        "wired"@
    } else if detect == "passed"@ || fill == "passed"@ {
        "partial"@
    } else {
        "not_wired"@
    })
    &&& item.operator_ui_status@ == operator_ui
    &&& item.dry_run_status@ == reported_or(report, 4, "contract_available"@)
    &&& item.dry_run_available == match report {
        Some(r) => match r.dry_run_available {
            Some(b) => b,
            None => true,
        },
        None => true,
    }
    &&& strings_view(item.dry_run_contract@) == reported_list(
        match report {
            Some(r) => Some(strings_view(r.dry_run_contract@)),
            None => None,
        },
        strings_view(spec.dry_run_contract@),
    )
    &&& item.dry_run_next_action@ == reported_or(report, 8, next_action)
    &&& item.failure_taxonomy_status@ == reported_or(report, 5, "present"@)
    &&& strings_view(item.failure_taxonomy@) == reported_list(
        match report {
            Some(r) => Some(strings_view(r.failure_taxonomy@)),
            None => None,
        },
        strings_view(spec.failure_taxonomy@),
    )
    &&& item.real_provider_smoke_status@ == smoke
    &&& item.acceptance_status@ == (if blockers.len() == 0 {
        "accepted"@
    } else if credential_present {
        "credential_ready_but_runtime_closure_required"@
    } else {
        "blocked_missing_credentials"@
    })
    &&& strings_view(item.closure_gates@) == strings_view(spec.closure_gates@)
    &&& strings_view(item.acceptance_checklist@) == strings_view(spec.acceptance_checklist@)
    &&& strings_view(item.blockers@) == blockers
    &&& item.failure_reason@ == reported_or(report, 7, joined(blockers, "; "@))
    &&& opt_view(item.latest_report_path) == report_path
    &&& item.next_action@ == next_action
}

fn reported_text(v: &Option<String>, report_present: bool, fallback: &str) -> (r: String)
    ensures
        r@ == match (if report_present { nonblank_trimmed(opt_view(*v)) } else { None }) {
            Some(x) => x,
            None => fallback@,
        },
{
    if report_present {
        match normalized_optional_text(copy_opt(v)) {
            Some(x) => x,
            None => owned(fallback),
        }
    } else {
        owned(fallback)
    }
}

fn push_blocker_if(blockers: &mut Vec<String>, cond: bool, text: String)
    ensures
        strings_view(final(blockers)@) == strings_view(old(blockers)@) + if cond {
            seq![text@]
        } else {
            seq![]
        },
{
    if cond {
        proof {
            lemma_strings_view_push(blockers@, text);
        }
        blockers.push(text);
        assert(strings_view(old(blockers)@).push(text@) =~= strings_view(old(blockers)@) + seq![text@]);
    } else {
        assert(strings_view(old(blockers)@) + seq![] =~= strings_view(old(blockers)@));
    }
}

fn pick_list(report_list: Option<&Vec<String>>, fallback: &Vec<String>) -> (r: Vec<String>)
    ensures
        strings_view(r@) == reported_list(
            match report_list {
                Some(l) => Some(strings_view(l@)),
                None => None,
            },
            strings_view(fallback@),
        ),
{
    match report_list {
        Some(l) => {
            let t = trimmed_nonempty_items(l);
            if t.len() > 0 {
                t
            } else {
                clone_strings(fallback)
            }
        },
        None => clone_strings(fallback),
    }
}

/// The readiness of one provider domain. `present_credential_names` are the
/// domain's credential variables that are set (not blank), in order;
/// `latest_report` is the domain's entry in the newest acceptance report that
/// has one, with that report's path.
pub fn provider_readiness_item(
    spec: &ProviderReadinessSpec,
    present_credential_names: Vec<String>,
    latest_report: Option<(ProviderAcceptanceReportItem, String)>,
) -> (item: DesktopProviderReadinessItem)
    ensures
        readiness_item_is(
            *spec,
            strings_view(present_credential_names@),
            match latest_report {
                Some(x) => Some(x.0),
                None => None,
            },
            match latest_report {
                Some(x) => Some(x.1@),
                None => None,
            },
            item,
        ),
{
    let (report, report_path): (Option<ProviderAcceptanceReportItem>, Option<String>) = match latest_report {
        Some((r, p)) => (Some(r), Some(p)),
        None => (None, None),
    };
    let credential_present = present_credential_names.len() > 0;
    let empty: Option<String> = None;
    let manager = match &report {
        Some(x) => reported_text(&x.manager_wiring_status, true, spec.manager_wiring_status.as_str()),
        None => reported_text(&empty, false, spec.manager_wiring_status.as_str()),
    };
    let detect = match &report {
        Some(x) => reported_text(&x.cdp_detect_status, true, spec.cdp_detect_status.as_str()),
        None => reported_text(&empty, false, spec.cdp_detect_status.as_str()),
    };
    let fill = match &report {
        Some(x) => reported_text(&x.cdp_fill_status, true, spec.cdp_fill_status.as_str()),
        None => reported_text(&empty, false, spec.cdp_fill_status.as_str()),
    };
    let operator_ui = match &report {
        Some(x) => reported_text(&x.operator_ui_status, true, spec.operator_ui_status.as_str()),
        None => reported_text(&empty, false, spec.operator_ui_status.as_str()),
    };
    let smoke = match &report {
        Some(x) => reported_text(&x.real_provider_smoke_status, true, spec.real_provider_smoke_status.as_str()),
        None => reported_text(&empty, false, spec.real_provider_smoke_status.as_str()),
    };
    let dry_run_status = match &report {
        Some(x) => reported_text(&x.dry_run_status, true, "contract_available"),
        None => reported_text(&empty, false, "contract_available"),
    };
    let failure_taxonomy_status = match &report {
        Some(x) => reported_text(&x.failure_taxonomy_status, true, "present"),
        None => reported_text(&empty, false, "present"),
    };
    let mut blockers: Vec<String> = Vec::new();
    assert(strings_view(blockers@) =~= seq![]);
    let keys = join_strings(&spec.credential_env_keys, "|");
    push_blocker_if(&mut blockers, !credential_present, concat2("missing provider credential env: ", keys.as_str()));
    push_blocker_if(
        &mut blockers,
        !str_eq(manager.as_str(), "wired"),
        owned("production manager wiring is not connected to runtime flow"),
    );
    push_blocker_if(
        &mut blockers,
        !str_eq(detect.as_str(), "passed"),
        owned("CDP challenge/field detection has not passed"),
    );
    push_blocker_if(&mut blockers, !str_eq(fill.as_str(), "passed"), owned("CDP fill automation has not passed"));
    push_blocker_if(&mut blockers, !str_eq(operator_ui.as_str(), "wired"), owned("operator UI closure is not wired"));
    push_blocker_if(&mut blockers, !str_eq(smoke.as_str(), "passed"), owned("real provider smoke has not passed"));
    proof {
        assert(strings_view(blockers@) =~= provider_blockers(
            credential_present,
            strings_view(spec.credential_env_keys@),
            manager@,
            detect@,
            fill@,
            operator_ui@,
            smoke@,
        ));
    }
    let next_action = if blockers.len() == 0 {
        owned("preserve accepted report and run production flow regression")
    } else {
        assert(strings_view(blockers@)[0] == blockers@[0]@);
        owned(blockers[0].as_str())
    };
    let joined_blockers = join_strings(&blockers, "; ");
    let failure_reason = match &report {
        Some(x) => reported_text(&x.failure_reason, true, joined_blockers.as_str()),
        None => reported_text(&empty, false, joined_blockers.as_str()),
    };
    let dry_run_next_action = match &report {
        Some(x) => reported_text(&x.dry_run_next_action, true, next_action.as_str()),
        None => reported_text(&empty, false, next_action.as_str()),
    };
    let dry_run_available = match &report {
        Some(x) => match x.dry_run_available {
            Some(b) => b,
            None => true,
        },
        None => true,
    };
    let dry_run_contract = match &report {
        Some(x) => pick_list(Some(&x.dry_run_contract), &spec.dry_run_contract),
        None => pick_list(None, &spec.dry_run_contract),
    };
    let failure_taxonomy = match &report {
        Some(x) => pick_list(Some(&x.failure_taxonomy), &spec.failure_taxonomy),
        None => pick_list(None, &spec.failure_taxonomy),
    };
    let provider_name = match &report {
        Some(x) => normalized_optional_text(copy_opt(&x.provider_name)),
        None => None,
    };
    let present_names = if credential_present {
        present_credential_names
    } else {
        match &report {
            Some(x) => trimmed_nonempty_items(&x.present_credential_names),
            None => {
                let v: Vec<String> = Vec::new();
                assert(strings_view(v@) =~= seq![]);
                v
            },
        }
    };
    let no_blockers = blockers.len() == 0;
    let status = if no_blockers {
        owned("ready")
    } else if credential_present {
        owned("configured_but_blocked")
    } else {
        owned("blocked")
    };
    let acceptance_status = if no_blockers {
        owned("accepted")
    } else if credential_present {
        owned("credential_ready_but_runtime_closure_required")
    } else {
        owned("blocked_missing_credentials")
    };
    let cdp_automation_status = if str_eq(detect.as_str(), "passed") && str_eq(fill.as_str(), "passed") {
        owned("wired")
    } else if str_eq(detect.as_str(), "passed") || str_eq(fill.as_str(), "passed") {
        owned("partial")
    } else {
        owned("not_wired")
    };
    DesktopProviderReadinessItem {
        domain: owned(spec.domain.as_str()),
        status,
        provider_name,
        provider_count: spec.provider_names.len(),
        configured_provider_count: if credential_present {
            1
        } else {
            0
        },
        manager_wiring_status: manager,
        config_status: if credential_present {
            owned("provider_credentials_present")
        } else {
            owned("provider_credentials_missing")
        },
        credential_status: if credential_present {
            owned("configured")
        } else {
            owned("missing_credentials")
        },
        present_credential_names: present_names,
        cdp_detect_status: detect,
        cdp_fill_status: fill,
        cdp_automation_status,
        operator_ui_status: operator_ui,
        dry_run_status,
        dry_run_available,
        dry_run_contract,
        dry_run_next_action,
        failure_taxonomy_status,
        failure_taxonomy,
        real_provider_smoke_status: smoke,
        acceptance_status,
        closure_gates: clone_strings(&spec.closure_gates),
        acceptance_checklist: clone_strings(&spec.acceptance_checklist),
        blockers,
        failure_reason,
        latest_report_path: report_path,
        next_action,
    }
}


/// `s` describes a domain with exactly these values.
pub open spec fn spec_is(
    s: ProviderReadinessSpec,
    domain: Seq<char>,
    provider_names: Seq<Seq<char>>,
    keys: Seq<Seq<char>>,
    manager: Seq<char>,
    gates: Seq<Seq<char>>,
    checklist: Seq<Seq<char>>,
    dry_run: Seq<Seq<char>>,
    taxonomy: Seq<Seq<char>>,
) -> bool {
    &&& s.domain@ == domain
    &&& strings_view(s.provider_names@) == provider_names
    &&& strings_view(s.credential_env_keys@) == keys
    &&& s.manager_wiring_status@ == manager
    &&& s.cdp_detect_status@ == "not_run"@
    &&& s.cdp_fill_status@ == "not_run"@
    &&& s.operator_ui_status@ == "not_wired"@
    &&& s.real_provider_smoke_status@ == "not_run"@
    &&& strings_view(s.closure_gates@) == gates
    &&& strings_view(s.acceptance_checklist@) == checklist
    &&& strings_view(s.dry_run_contract@) == dry_run
    &&& strings_view(s.failure_taxonomy@) == taxonomy
}

pub open spec fn captcha_spec(s: ProviderReadinessSpec) -> bool {
    spec_is(
        s,
        "captcha"@,
        seq!["2captcha"@, "capsolver"@],
        seq!["TWOCAPTCHA_API_KEY"@, "CAPSOLVER_API_KEY"@, "ANTICAPTCHA_API_KEY"@],
        "contract_only"@,
        seq!["credentials"@, "manager_wiring"@, "cdp_detect"@, "cdp_fill"@, "operator_ui"@, "real_provider_smoke"@],
        seq![
            "configure at least one solver credential"@,
            "wire production solver manager into runtime task flow"@,
            "detect captcha challenge through CDP/page probe"@,
            "fill provider token/result through browser automation"@,
            "run a real provider acceptance smoke and preserve failure evidence"@,
        ],
        seq![
            "credential_env_check"@,
            "challenge_detection_contract"@,
            "solver_request_shape_check"@,
            "token_fill_contract"@,
            "failure_reason_preservation"@,
        ],
        seq![
            "credential_missing"@,
            "challenge_detection_not_passed"@,
            "solver_manager_not_wired"@,
            "solver_unavailable"@,
            "token_fill_not_wired"@,
            "real_smoke_required"@,
        ],
    )
}

pub open spec fn sms_spec(s: ProviderReadinessSpec) -> bool {
    spec_is(
        s,
        "sms"@,
        seq!["5sim"@, "smspool"@],
        seq!["FIVESIM_API_KEY"@, "SMSPOOL_API_KEY"@, "HEROSMS_API_KEY"@],
        "contract_only"@,
        seq![
            "credentials"@,
            "manager_wiring"@,
            "number_purchase"@,
            "cdp_detect"@,
            "cdp_fill"@,
            "state_flow"@,
            "operator_ui"@,
            "real_provider_smoke"@,
        ],
        seq![
            "configure at least one SMS provider credential"@,
            "wire SMS manager and provider selection config into runtime flow"@,
            "buy/request number through real provider or sandbox"@,
            "detect phone/code fields and fill through CDP automation"@,
            "handle cancel/finish/failure states with operator-visible evidence"@,
        ],
        seq![
            "credential_env_check"@,
            "number_purchase_contract"@,
            "phone_and_code_field_detection_contract"@,
            "code_wait_timeout_contract"@,
            "cancel_finish_state_contract"@,
        ],
        seq![
            "credential_missing"@,
            "number_purchase_not_wired"@,
            "phone_field_detection_not_passed"@,
            "code_wait_timeout"@,
            "cancel_finish_not_wired"@,
            "real_smoke_required"@,
        ],
    )
}

pub open spec fn email_spec(s: ProviderReadinessSpec) -> bool {
    spec_is(
        s,
        "email"@,
        seq!["mailtm"@, "cloudflare_worker"@],
        seq!["MAILTM_API_TOKEN"@, "EMAIL_WORKER_URL"@, "EMAIL_WORKER_TOKEN"@],
        "service_api_available"@,
        seq![
            "credentials"@,
            "session_persistence"@,
            "wait_code"@,
            "cdp_detect"@,
            "cdp_fill"@,
            "operator_ui"@,
            "registration_flow_smoke"@,
        ],
        seq![
            "configure mail.tm or worker endpoint credentials when required"@,
            "persist email session identity across the registration flow"@,
            "wait for code through EmailService/inbox API"@,
            "fill email code through CDP automation"@,
            "run a real registration-flow smoke and preserve provider/session evidence"@,
        ],
        seq![
            "credential_or_endpoint_check"@,
            "inbox_create_contract"@,
            "email_session_identity_contract"@,
            "wait_code_timeout_contract"@,
            "cdp_fill_contract"@,
        ],
        seq![
            "credential_missing"@,
            "inbox_create_not_wired"@,
            "wait_code_timeout"@,
            "session_persistence_not_proven"@,
            "cdp_fill_not_wired"@,
            "registration_smoke_required"@,
        ],
    )
}

fn strings_of(list: Vec<&str>) -> (v: Vec<String>)
    ensures
        strings_view(v@) == strs_view(list@),
{
    owned_strings(&list)
}

fn captcha_readiness_spec() -> (s: ProviderReadinessSpec)
    ensures
        captcha_spec(s),
{
    let names: Vec<&str> = vec!["2captcha", "capsolver"];
    let keys: Vec<&str> = vec!["TWOCAPTCHA_API_KEY", "CAPSOLVER_API_KEY", "ANTICAPTCHA_API_KEY"];
    let gates: Vec<&str> = vec!["credentials", "manager_wiring", "cdp_detect", "cdp_fill", "operator_ui", "real_provider_smoke"];
    let checklist: Vec<&str> = vec![
        "configure at least one solver credential",
        "wire production solver manager into runtime task flow",
        "detect captcha challenge through CDP/page probe",
        "fill provider token/result through browser automation",
        "run a real provider acceptance smoke and preserve failure evidence",
    ];
    let dry_run: Vec<&str> = vec![
        "credential_env_check",
        "challenge_detection_contract",
        "solver_request_shape_check",
        "token_fill_contract",
        "failure_reason_preservation",
    ];
    let taxonomy: Vec<&str> = vec![
        "credential_missing",
        "challenge_detection_not_passed",
        "solver_manager_not_wired",
        "solver_unavailable",
        "token_fill_not_wired",
        "real_smoke_required",
    ];
    assert(strs_view(names@) =~= seq!["2captcha"@, "capsolver"@]);
    assert(strs_view(keys@) =~= seq!["TWOCAPTCHA_API_KEY"@, "CAPSOLVER_API_KEY"@, "ANTICAPTCHA_API_KEY"@]);
    assert(strs_view(gates@) =~= seq!["credentials"@, "manager_wiring"@, "cdp_detect"@, "cdp_fill"@, "operator_ui"@, "real_provider_smoke"@]);
    assert(strs_view(checklist@) =~= seq![
        "configure at least one solver credential"@,
        "wire production solver manager into runtime task flow"@,
        "detect captcha challenge through CDP/page probe"@,
        "fill provider token/result through browser automation"@,
        "run a real provider acceptance smoke and preserve failure evidence"@,
    ]);
    assert(strs_view(dry_run@) =~= seq![
        "credential_env_check"@,
        "challenge_detection_contract"@,
        "solver_request_shape_check"@,
        "token_fill_contract"@,
        "failure_reason_preservation"@,
    ]);
    assert(strs_view(taxonomy@) =~= seq![
        "credential_missing"@,
        "challenge_detection_not_passed"@,
        "solver_manager_not_wired"@,
        "solver_unavailable"@,
        "token_fill_not_wired"@,
        "real_smoke_required"@,
    ]);
    ProviderReadinessSpec {
        domain: owned("captcha"),
        provider_names: strings_of(names),
        credential_env_keys: strings_of(keys),
        manager_wiring_status: owned("contract_only"),
        cdp_detect_status: owned("not_run"),
        cdp_fill_status: owned("not_run"),
        operator_ui_status: owned("not_wired"),
        real_provider_smoke_status: owned("not_run"),
        closure_gates: strings_of(gates),
        acceptance_checklist: strings_of(checklist),
        dry_run_contract: strings_of(dry_run),
        failure_taxonomy: strings_of(taxonomy),
    }
}

fn sms_readiness_spec() -> (s: ProviderReadinessSpec)
    ensures
        sms_spec(s),
{
    let names: Vec<&str> = vec!["5sim", "smspool"];
    let keys: Vec<&str> = vec!["FIVESIM_API_KEY", "SMSPOOL_API_KEY", "HEROSMS_API_KEY"];
    let gates: Vec<&str> = vec![
        "credentials",
        "manager_wiring",
        "number_purchase",
        "cdp_detect",
        "cdp_fill",
        "state_flow",
        "operator_ui",
        "real_provider_smoke",
    ];
    let checklist: Vec<&str> = vec![
        "configure at least one SMS provider credential",
        "wire SMS manager and provider selection config into runtime flow",
        "buy/request number through real provider or sandbox",
        "detect phone/code fields and fill through CDP automation",
        "handle cancel/finish/failure states with operator-visible evidence",
    ];
    let dry_run: Vec<&str> = vec![
        "credential_env_check",
        "number_purchase_contract",
        "phone_and_code_field_detection_contract",
        "code_wait_timeout_contract",
        "cancel_finish_state_contract",
    ];
    let taxonomy: Vec<&str> = vec![
        "credential_missing",
        "number_purchase_not_wired",
        "phone_field_detection_not_passed",
        "code_wait_timeout",
        "cancel_finish_not_wired",
        "real_smoke_required",
    ];
    assert(strs_view(names@) =~= seq!["5sim"@, "smspool"@]);
    assert(strs_view(keys@) =~= seq!["FIVESIM_API_KEY"@, "SMSPOOL_API_KEY"@, "HEROSMS_API_KEY"@]);
    assert(strs_view(gates@) =~= seq![
        "credentials"@,
        "manager_wiring"@,
        "number_purchase"@,
        "cdp_detect"@,
        "cdp_fill"@,
        "state_flow"@,
        "operator_ui"@,
        "real_provider_smoke"@,
    ]);
    assert(strs_view(checklist@) =~= seq![
        "configure at least one SMS provider credential"@,
        "wire SMS manager and provider selection config into runtime flow"@,
        "buy/request number through real provider or sandbox"@,
        "detect phone/code fields and fill through CDP automation"@,
        "handle cancel/finish/failure states with operator-visible evidence"@,
    ]);
    assert(strs_view(dry_run@) =~= seq![
        "credential_env_check"@,
        "number_purchase_contract"@,
        "phone_and_code_field_detection_contract"@,
        "code_wait_timeout_contract"@,
        "cancel_finish_state_contract"@,
    ]);
    assert(strs_view(taxonomy@) =~= seq![
        "credential_missing"@,
        "number_purchase_not_wired"@,
        "phone_field_detection_not_passed"@,
        "code_wait_timeout"@,
        "cancel_finish_not_wired"@,
        "real_smoke_required"@,
    ]);
    ProviderReadinessSpec {
        domain: owned("sms"),
        provider_names: strings_of(names),
        credential_env_keys: strings_of(keys),
        manager_wiring_status: owned("contract_only"),
        cdp_detect_status: owned("not_run"),
        cdp_fill_status: owned("not_run"),
        operator_ui_status: owned("not_wired"),
        real_provider_smoke_status: owned("not_run"),
        closure_gates: strings_of(gates),
        acceptance_checklist: strings_of(checklist),
        dry_run_contract: strings_of(dry_run),
        failure_taxonomy: strings_of(taxonomy),
    }
}

fn email_readiness_spec() -> (s: ProviderReadinessSpec)
    ensures
        email_spec(s),
{
    let names: Vec<&str> = vec!["mailtm", "cloudflare_worker"];
    let keys: Vec<&str> = vec!["MAILTM_API_TOKEN", "EMAIL_WORKER_URL", "EMAIL_WORKER_TOKEN"];
    let gates: Vec<&str> = vec![
        "credentials",
        "session_persistence",
        "wait_code",
        "cdp_detect",
        "cdp_fill",
        "operator_ui",
        "registration_flow_smoke",
    ];
    let checklist: Vec<&str> = vec![
        "configure mail.tm or worker endpoint credentials when required",
        "persist email session identity across the registration flow",
        "wait for code through EmailService/inbox API",
        "fill email code through CDP automation",
        "run a real registration-flow smoke and preserve provider/session evidence",
    ];
    let dry_run: Vec<&str> = vec![
        "credential_or_endpoint_check",
        "inbox_create_contract",
        "email_session_identity_contract",
        "wait_code_timeout_contract",
        "cdp_fill_contract",
    ];
    let taxonomy: Vec<&str> = vec![
        "credential_missing",
        "inbox_create_not_wired",
        "wait_code_timeout",
        "session_persistence_not_proven",
        "cdp_fill_not_wired",
        "registration_smoke_required",
    ];
    assert(strs_view(names@) =~= seq!["mailtm"@, "cloudflare_worker"@]);
    assert(strs_view(keys@) =~= seq!["MAILTM_API_TOKEN"@, "EMAIL_WORKER_URL"@, "EMAIL_WORKER_TOKEN"@]);
    assert(strs_view(gates@) =~= seq![
        "credentials"@,
        "session_persistence"@,
        "wait_code"@,
        "cdp_detect"@,
        "cdp_fill"@,
        "operator_ui"@,
        "registration_flow_smoke"@,
    ]);
    assert(strs_view(checklist@) =~= seq![
        "configure mail.tm or worker endpoint credentials when required"@,
        "persist email session identity across the registration flow"@,
        "wait for code through EmailService/inbox API"@,
        "fill email code through CDP automation"@,
        "run a real registration-flow smoke and preserve provider/session evidence"@,
    ]);
    assert(strs_view(dry_run@) =~= seq![
        "credential_or_endpoint_check"@,
        "inbox_create_contract"@,
        "email_session_identity_contract"@,
        "wait_code_timeout_contract"@,
        "cdp_fill_contract"@,
    ]);
    assert(strs_view(taxonomy@) =~= seq![
        "credential_missing"@,
        "inbox_create_not_wired"@,
        "wait_code_timeout"@,
        "session_persistence_not_proven"@,
        "cdp_fill_not_wired"@,
        "registration_smoke_required"@,
    ]);
    ProviderReadinessSpec {
        domain: owned("email"),
        provider_names: strings_of(names),
        credential_env_keys: strings_of(keys),
        manager_wiring_status: owned("service_api_available"),
        cdp_detect_status: owned("not_run"),
        cdp_fill_status: owned("not_run"),
        operator_ui_status: owned("not_wired"),
        real_provider_smoke_status: owned("not_run"),
        closure_gates: strings_of(gates),
        acceptance_checklist: strings_of(checklist),
        dry_run_contract: strings_of(dry_run),
        failure_taxonomy: strings_of(taxonomy),
    }
}

/// The provider domains whose readiness is reported: captcha, SMS and email.
pub fn provider_readiness_specs() -> (v: Vec<ProviderReadinessSpec>)
    ensures
        v@.len() == 3,
        captcha_spec(v@[0]),
        sms_spec(v@[1]),
        email_spec(v@[2]),
{
    let mut v: Vec<ProviderReadinessSpec> = Vec::new();
    v.push(captcha_readiness_spec());
    v.push(sms_readiness_spec());
    v.push(email_readiness_spec());
    v
}

/// How many of the domains are ready.
pub open spec fn ready_items(items: Seq<DesktopProviderReadinessItem>) -> int
    decreases items.len(),
{
    if items.len() == 0 {
        0
    } else {
        ready_items(items.drop_last()) + if items.last().status@ == "ready"@ {
            1int
        } else {
            0int
        }
    }
}

/// The readiness of all provider domains: how many are ready and blocked,
/// ready only when none is blocked.
pub fn build_provider_production_readiness(
    generated_at: String,
    items: Vec<DesktopProviderReadinessItem>,
) -> (r: DesktopProviderProductionReadiness)
    ensures
        r.generated_at@ == generated_at@,
        r.ready_count as int == ready_items(items@),
        r.blocked_count as int == items@.len() - ready_items(items@),
        r.status@ == (if items@.len() == ready_items(items@) {
            "ready"@
        } else {
            "blocked"@
        }),
        r.items@ == items@,
        r.summary@ == "Provider production readiness: "@ + decimal_digits(r.ready_count as nat) + " ready, "@
            + decimal_digits(r.blocked_count as nat) + " blocked; real provider acceptance is required before closure."@,
{
    let mut ready: usize = 0;
    let mut i: usize = 0;
    while i < items.len()
        invariant
            i <= items@.len(),
            ready as int == ready_items(items@.subrange(0, i as int)),
            ready <= i,
        decreases items@.len() - i,
    {
        proof {
            let sub = items@.subrange(0, i as int + 1);
            assert(sub.drop_last() =~= items@.subrange(0, i as int));
            assert(sub.last() == items@[i as int]);
        }
        if str_eq(items[i].status.as_str(), "ready") {
            ready = ready + 1;
        }
        i = i + 1;
    }
    assert(items@.subrange(0, i as int) =~= items@);
    let blocked = items.len() - ready;
    let status = if blocked == 0 {
        owned("ready")
    } else {
        owned("blocked")
    };
    let ready_text = u64_to_text(ready as u64);
    let blocked_text = u64_to_text(blocked as u64);
    let a = concat3("Provider production readiness: ", ready_text.as_str(), " ready, ");
    let summary = concat3(
        a.as_str(),
        blocked_text.as_str(),
        " blocked; real provider acceptance is required before closure.",
    );
    DesktopProviderProductionReadiness { generated_at, status, ready_count: ready, blocked_count: blocked, items, summary }
}

} // verus!
