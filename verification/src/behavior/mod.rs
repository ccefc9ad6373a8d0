//! Behavior planning: which human-like primitives a browser task runs, in what
//! order, within which latency budget.
use vstd::prelude::*;

use crate::text::{concat2, owned, str_eq, str_in_list, strings_view, strs_view};

pub mod budget;
pub mod compile;
pub mod form;
pub mod plan;
pub mod secret;
pub mod site;

verus! {

pub const RESOURCE_STATUS_DRAFT: &'static str = "draft";
pub const RESOURCE_STATUS_ACTIVE: &'static str = "active";
pub const RESOURCE_STATUS_DISABLED: &'static str = "disabled";

pub const BEHAVIOR_MODE_DISABLED: &'static str = "disabled";
pub const BEHAVIOR_MODE_SHADOW: &'static str = "shadow";
pub const BEHAVIOR_MODE_ACTIVE: &'static str = "active";
pub const BEHAVIOR_MODE_PROFILE_REQUIRED: &'static str = "profile_required";

pub const SYSTEM_DEFAULT_BEHAVIOR_PROFILE_ID: &'static str = "system-default-browser-v1";
pub const SYSTEM_DEFAULT_BEHAVIOR_PROFILE_VERSION: i64 = 1;

/// The page archetypes a behavior plan can target.
pub open spec fn page_archetype_names() -> Seq<Seq<char>> {
    seq![
        "article"@,
        "search_results"@,
        "listing"@,
        "product"@,
        "form"@,
        "auth"@,
        "dashboard"@,
        "generic"@,
    ]
}

/// The behavior primitives the runner ships.
pub open spec fn supported_primitive_names() -> Seq<Seq<char>> {
    seq![
        "idle"@,
        "wait_for_readiness"@,
        "wait_for_content_stable"@,
        "scroll_progressive"@,
        "scroll_to_ratio"@,
        "pause_on_content"@,
        "focus_element"@,
        "blur_element"@,
        "hover_candidate"@,
        "type_with_rhythm"@,
        "clear_with_corrections"@,
        "persist_session_state"@,
        "soft_abort_if_budget_exceeded"@,
    ]
}

/// Task kinds that drive a browser page.
pub open spec fn browser_task_kinds() -> Seq<Seq<char>> {
    seq!["open_page"@, "get_html"@, "get_title"@, "get_final_url"@, "extract_text"@]
}

pub fn page_archetypes() -> (v: Vec<&'static str>)
    ensures
        strs_view(v@) == page_archetype_names(),
{
    let v = vec![
        "article",
        "search_results",
        "listing",
        "product",
        "form",
        "auth",
        "dashboard",
        "generic",
    ];
    assert(strs_view(v@) =~= page_archetype_names());
    v
}

pub fn supported_primitives() -> (v: Vec<&'static str>)
    ensures
        strs_view(v@) == supported_primitive_names(),
{
    let v = vec![
        "idle",
        "wait_for_readiness",
        "wait_for_content_stable",
        "scroll_progressive",
        "scroll_to_ratio",
        "pause_on_content",
        "focus_element",
        "blur_element",
        "hover_candidate",
        "type_with_rhythm",
        "clear_with_corrections",
        "persist_session_state",
        "soft_abort_if_budget_exceeded",
    ];
    assert(strs_view(v@) =~= supported_primitive_names());
    v
}

/// Why a behavior policy was refused.
#[derive(Debug, Clone, PartialEq, Eq)]
pub enum BehaviorError {
    /// A resource status outside draft|active|disabled.
    InvalidResourceStatus { given: String },
    /// A behavior mode outside shadow|active|disabled|profile_required.
    InvalidBehaviorMode { given: String },
    /// A page archetype outside the known archetypes.
    InvalidPageArchetype { given: String },
}

impl BehaviorError {
    /// The message the refusal is reported with.
    pub fn message(&self) -> (m: String)
        ensures
            m@ == match self {
                BehaviorError::InvalidResourceStatus { given } =>
                    "status must be one of draft|active|disabled, got "@ + given@,
                BehaviorError::InvalidBehaviorMode { given } =>
                    "behavior mode must be one of shadow|active|disabled|profile_required, got "@ + given@,
                BehaviorError::InvalidPageArchetype { given } =>
                    "page_archetype must be one of article|search_results|listing|product|form|auth|dashboard|generic, got "@
                        + given@,
            },
    {
        match self {
            BehaviorError::InvalidResourceStatus { given } => concat2(
                "status must be one of draft|active|disabled, got ",
                given.as_str(),
            ),
            BehaviorError::InvalidBehaviorMode { given } => concat2(
                "behavior mode must be one of shadow|active|disabled|profile_required, got ",
                given.as_str(),
            ),
            BehaviorError::InvalidPageArchetype { given } => concat2(
                "page_archetype must be one of article|search_results|listing|product|form|auth|dashboard|generic, got ",
                given.as_str(),
            ),
        }
    }
}

pub fn is_browser_task_kind(kind: &str) -> (browser: bool)
    ensures
        browser == browser_task_kinds().contains(kind@),
{
    let kinds = vec!["open_page", "get_html", "get_title", "get_final_url", "extract_text"];
    assert(strs_view(kinds@) =~= browser_task_kinds());
    str_in_list(kind, &kinds)
}

/// The resource statuses a stored behavior resource may have.
pub open spec fn resource_status_names() -> Seq<Seq<char>> {
    seq!["draft"@, "active"@, "disabled"@]
}

/// The requested status, `draft` when none was given.
pub open spec fn requested_resource_status(status: Option<Seq<char>>) -> Seq<char> {
    match status {
        Some(s) => s,
        None => "draft"@,
    }
}

pub fn normalize_resource_status(status: Option<&str>) -> (result: Result<String, BehaviorError>)
    ensures
        ({
            let requested = requested_resource_status(crate::text::opt_str_view(status));
            match result {
                Ok(s) => resource_status_names().contains(requested) && s@ == requested,
                Err(BehaviorError::InvalidResourceStatus { given }) => !resource_status_names().contains(requested)
                    && given@ == requested,
                Err(_) => false,
            }
        }),
{
    let requested: &str = match status {
        Some(s) => s,
        None => RESOURCE_STATUS_DRAFT,
    };
    let allowed = vec![RESOURCE_STATUS_DRAFT, RESOURCE_STATUS_ACTIVE, RESOURCE_STATUS_DISABLED];
    assert(strs_view(allowed@) =~= resource_status_names());
    if str_in_list(requested, &allowed) {
        Ok(owned(requested))
    } else {
        Err(BehaviorError::InvalidResourceStatus { given: owned(requested) })
    }
}

/// The behavior modes a policy may request.
pub open spec fn behavior_mode_names() -> Seq<Seq<char>> {
    seq!["disabled"@, "shadow"@, "active"@, "profile_required"@]
}

/// The mode a policy asks for: the task's, else the site's, else shadow for
/// browser tasks and disabled for the rest.
pub open spec fn requested_behavior_mode(
    requested: Option<Seq<char>>,
    site: Option<Seq<char>>,
    task_kind: Seq<char>,
) -> Seq<char> {
    match requested {
        Some(m) => m,
        None => match site {
            Some(m) => m,
            None => if browser_task_kinds().contains(task_kind) {
                "shadow"@
            } else {
                "disabled"@
            },
        },
    }
}

pub fn normalize_behavior_mode(
    requested_mode: Option<&str>,
    site_mode: Option<&str>,
    task_kind: &str,
) -> (result: Result<String, BehaviorError>)
    ensures
        ({
            let mode = requested_behavior_mode(
                crate::text::opt_str_view(requested_mode),
                crate::text::opt_str_view(site_mode),
                task_kind@,
            );
            match result {
                Ok(s) => behavior_mode_names().contains(mode) && s@ == mode,
                Err(BehaviorError::InvalidBehaviorMode { given }) => !behavior_mode_names().contains(mode)
                    && given@ == mode,
                Err(_) => false,
            }
        }),
{
    let fallback: &str = if is_browser_task_kind(task_kind) {
        BEHAVIOR_MODE_SHADOW
    } else {
        BEHAVIOR_MODE_DISABLED
    };
    let mode: &str = match requested_mode {
        Some(m) => m,
        None => match site_mode {
            Some(m) => m,
            None => fallback,
        },
    };
    let allowed = vec![
        BEHAVIOR_MODE_DISABLED,
        BEHAVIOR_MODE_SHADOW,
        BEHAVIOR_MODE_ACTIVE,
        BEHAVIOR_MODE_PROFILE_REQUIRED,
    ];
    assert(strs_view(allowed@) =~= behavior_mode_names());
    if str_in_list(mode, &allowed) {
        Ok(owned(mode))
    } else {
        Err(BehaviorError::InvalidBehaviorMode { given: owned(mode) })
    }
}

/// The behavior mode names differ from one another.
pub proof fn lemma_mode_names_distinct()
    ensures
        "active"@ != "disabled"@,
        "shadow"@ != "disabled"@,
        "active"@ != "shadow"@,
        "profile_required"@ != "disabled"@,
{
    reveal_strlit("active");
    reveal_strlit("disabled");
    reveal_strlit("shadow");
    reveal_strlit("profile_required");
    assert("active"@.len() != "disabled"@.len());
    assert("shadow"@.len() != "disabled"@.len());
    assert("active"@[0] != "shadow"@[0]);
    assert("profile_required"@.len() != "disabled"@.len());
}

/// The warning recorded when `profile_required` cannot be honoured.
pub open spec fn profile_required_downgrade_warning() -> Seq<char> {
    "profile_required requested without non-default behavior profile; mode downgraded to disabled"@
}

/// Whether a profile resolution source counts as an explicit (non-default) profile.
pub open spec fn explicit_profile_source(source: Option<Seq<char>>) -> bool {
    match source {
        Some(s) => s != "system_default"@,
        None => false,
    }
}

/// The mode a plan actually runs in, given the requested mode and how the
/// behavior profile was resolved.
pub open spec fn materialized_mode(
    task_kind: Seq<char>,
    requested_mode: Seq<char>,
    resolution_source: Option<Seq<char>>,
) -> Seq<char> {
    if !browser_task_kinds().contains(task_kind) {
        "disabled"@
    } else if requested_mode == "profile_required"@ {
        if explicit_profile_source(resolution_source) {
            "shadow"@
        } else {
            "disabled"@
        }
    } else {
        requested_mode
    }
}

pub fn materialize_behavior_mode(
    task_kind: &str,
    requested_mode: &str,
    resolution_source: Option<&str>,
    warnings: &mut Vec<String>,
) -> (mode: String)
    ensures
        mode@ == materialized_mode(task_kind@, requested_mode@, crate::text::opt_str_view(resolution_source)),
        strings_view(final(warnings)@) == if browser_task_kinds().contains(task_kind@)
            && requested_mode@ == "profile_required"@ && !explicit_profile_source(
            crate::text::opt_str_view(resolution_source),
        ) {
            strings_view(old(warnings)@).push(profile_required_downgrade_warning())
        } else {
            strings_view(old(warnings)@)
        },
{
    if !is_browser_task_kind(task_kind) {
        return owned(BEHAVIOR_MODE_DISABLED);
    }
    if str_eq(requested_mode, BEHAVIOR_MODE_PROFILE_REQUIRED) {
        let explicit = match resolution_source {
            Some(s) => !str_eq(s, "system_default"),
            None => false,
        };
        if explicit {
            owned(BEHAVIOR_MODE_SHADOW)
        } else {
            warnings.push(owned(
                "profile_required requested without non-default behavior profile; mode downgraded to disabled",
            ));
            assert(strings_view(warnings@) =~= strings_view(old(warnings)@).push(
                profile_required_downgrade_warning(),
            ));
            owned(BEHAVIOR_MODE_DISABLED)
        }
    } else {
        owned(requested_mode)
    }
}

pub fn normalize_page_archetype(archetype: Option<&str>) -> (result: Result<Option<String>, BehaviorError>)
    ensures
        match archetype {
            None => result == Ok::<Option<String>, BehaviorError>(None),
            Some(a) => match result {
                Ok(Some(s)) => page_archetype_names().contains(a@) && s@ == a@,
                Ok(None) => false,
                Err(BehaviorError::InvalidPageArchetype { given }) => !page_archetype_names().contains(a@)
                    && given@ == a@,
                Err(_) => false,
            },
        },
{
    match archetype {
        None => Ok(None),
        Some(a) => {
            let known = page_archetypes();
            if str_in_list(a, &known) {
                Ok(Some(owned(a)))
            } else {
                Err(BehaviorError::InvalidPageArchetype { given: owned(a) })
            }
        },
    }
}

/// The primitives a page archetype runs when no profile or policy names any.
pub open spec fn default_primitive_names(archetype: Seq<char>) -> Seq<Seq<char>> {
    if archetype == "article"@ {
        seq![
            "wait_for_readiness"@,
            "idle"@,
            "scroll_progressive"@,
            "pause_on_content"@,
            "wait_for_content_stable"@,
            "soft_abort_if_budget_exceeded"@,
        ]
    } else if archetype == "search_results"@ || archetype == "listing"@ {
        seq![
            "wait_for_readiness"@,
            "idle"@,
            "scroll_progressive"@,
            "hover_candidate"@,
            "pause_on_content"@,
            "soft_abort_if_budget_exceeded"@,
        ]
    } else if archetype == "product"@ {
        seq![
            "wait_for_readiness"@,
            "idle"@,
            "scroll_to_ratio"@,
            "hover_candidate"@,
            "pause_on_content"@,
            "soft_abort_if_budget_exceeded"@,
        ]
    } else if archetype == "form"@ || archetype == "auth"@ {
        seq![
            "wait_for_readiness"@,
            "focus_element"@,
            "type_with_rhythm"@,
            "clear_with_corrections"@,
            "blur_element"@,
            "wait_for_content_stable"@,
            "persist_session_state"@,
            "soft_abort_if_budget_exceeded"@,
        ]
    } else if archetype == "dashboard"@ {
        seq![
            "wait_for_readiness"@,
            "idle"@,
            "hover_candidate"@,
            "scroll_progressive"@,
            "persist_session_state"@,
            "soft_abort_if_budget_exceeded"@,
        ]
    } else {
        seq![
            "wait_for_readiness"@,
            "idle"@,
            "scroll_progressive"@,
            "pause_on_content"@,
            "soft_abort_if_budget_exceeded"@,
        ]
    }
}

pub fn default_primitives_for_archetype(archetype: &str) -> (v: Vec<&'static str>)
    ensures
        strs_view(v@) == default_primitive_names(archetype@),
{
    if str_eq(archetype, "article") {
        let v = vec![
            "wait_for_readiness",
            "idle",
            "scroll_progressive",
            "pause_on_content",
            "wait_for_content_stable",
            "soft_abort_if_budget_exceeded",
        ];
        assert(strs_view(v@) =~= default_primitive_names(archetype@));
        v
    } else if str_eq(archetype, "search_results") || str_eq(archetype, "listing") {
        let v = vec![
            "wait_for_readiness",
            "idle",
            "scroll_progressive",
            "hover_candidate",
            "pause_on_content",
            "soft_abort_if_budget_exceeded",
        ];
        assert(strs_view(v@) =~= default_primitive_names(archetype@));
        v
    } else if str_eq(archetype, "product") {
        let v = vec![
            "wait_for_readiness",
            "idle",
            "scroll_to_ratio",
            "hover_candidate",
            "pause_on_content",
            "soft_abort_if_budget_exceeded",
        ];
        assert(strs_view(v@) =~= default_primitive_names(archetype@));
        v
    } else if str_eq(archetype, "form") || str_eq(archetype, "auth") {
        let v = vec![
            "wait_for_readiness",
            "focus_element",
            "type_with_rhythm",
            "clear_with_corrections",
            "blur_element",
            "wait_for_content_stable",
            "persist_session_state",
            "soft_abort_if_budget_exceeded",
        ];
        assert(strs_view(v@) =~= default_primitive_names(archetype@));
        v
    } else if str_eq(archetype, "dashboard") {
        let v = vec![
            "wait_for_readiness",
            "idle",
            "hover_candidate",
            "scroll_progressive",
            "persist_session_state",
            "soft_abort_if_budget_exceeded",
        ];
        assert(strs_view(v@) =~= default_primitive_names(archetype@));
        v
    } else {
        let v = vec![
            "wait_for_readiness",
            "idle",
            "scroll_progressive",
            "pause_on_content",
            "soft_abort_if_budget_exceeded",
        ];
        assert(strs_view(v@) =~= default_primitive_names(archetype@));
        v
    }
}


/// A plan that requires a profile never runs on the built-in default: without
/// an explicit profile it is disabled, with one it runs in shadow mode.
pub proof fn lemma_profile_required_needs_explicit_profile(task_kind: Seq<char>, source: Option<Seq<char>>)
    requires
        browser_task_kinds().contains(task_kind),
    ensures
        materialized_mode(task_kind, "profile_required"@, source) == if explicit_profile_source(source) {
            "shadow"@
        } else {
            "disabled"@
        },
        materialized_mode(task_kind, "profile_required"@, Some("system_default"@)) == "disabled"@,
{
}

} // verus!
