//! Editing platform templates and store overrides: what a new template must
//! name, when a create or an update is refused, and how an update merges
//! into what is stored.
use vstd::prelude::*;

use crate::text::{concat2, opt_view, owned, strings_view, trim};

verus! {

/// Why a template edit was refused.
#[derive(Debug, Clone)]
pub enum TemplateEditError {
    IdRequired,
    NameRequired,
    PlatformIdRequired,
    OverrideExists { id: String },
    TemplateExists { id: String },
    OverrideNotFound { id: String },
    TemplateNotFound { id: String },
}

/// The message each refusal is reported with.
pub open spec fn template_edit_message(e: TemplateEditError) -> Seq<char> {
    match e {
        TemplateEditError::IdRequired => "template id is required"@,
        TemplateEditError::NameRequired => "template name is required"@,
        TemplateEditError::PlatformIdRequired => "template platform_id is required"@,
        TemplateEditError::OverrideExists { id } => "store platform override already exists: "@ + id@,
        TemplateEditError::TemplateExists { id } => "platform template already exists: "@ + id@,
        TemplateEditError::OverrideNotFound { id } => "store platform override not found: "@ + id@,
        TemplateEditError::TemplateNotFound { id } => "platform template not found: "@ + id@,
    }
}

impl TemplateEditError {
    /// The message the refusal is reported with.
    pub fn message(&self) -> (m: String)
        ensures
            m@ == template_edit_message(*self),
    {
        match self {
            TemplateEditError::IdRequired => owned("template id is required"),
            TemplateEditError::NameRequired => owned("template name is required"),
            TemplateEditError::PlatformIdRequired => owned("template platform_id is required"),
            TemplateEditError::OverrideExists { id } => concat2(
                "store platform override already exists: ",
                id.as_str(),
            ),
            TemplateEditError::TemplateExists { id } => concat2("platform template already exists: ", id.as_str()),
            TemplateEditError::OverrideNotFound { id } => concat2(
                "store platform override not found: ",
                id.as_str(),
            ),
            TemplateEditError::TemplateNotFound { id } => concat2("platform template not found: ", id.as_str()),
        }
    }
}

/// Whether a text is blank once trimmed.
pub open spec fn blank(s: Seq<char>) -> bool {
    trim(s).len() == 0
}

/// A new template must name its id, its name and its platform, checked in
/// that order.
pub fn validate_new_template(id: &str, name: &str, platform_id: &str) -> (r: Result<(), TemplateEditError>)
    ensures
        match r {
            Ok(()) => !blank(id@) && !blank(name@) && !blank(platform_id@),
            Err(TemplateEditError::IdRequired) => blank(id@),
            Err(TemplateEditError::NameRequired) => !blank(id@) && blank(name@),
            Err(TemplateEditError::PlatformIdRequired) => !blank(id@) && !blank(name@) && blank(platform_id@),
            Err(_) => false,
        },
{
    if crate::text::is_blank(id) {
        return Err(TemplateEditError::IdRequired);
    }
    if crate::text::is_blank(name) {
        return Err(TemplateEditError::NameRequired);
    }
    if crate::text::is_blank(platform_id) {
        return Err(TemplateEditError::PlatformIdRequired);
    }
    Ok(())
}

/// A create is refused when a record with its id is stored already: a store
/// override where the create names a store, else a platform template.
pub fn check_template_absent(id: &str, store_scoped: bool, stored_count: i64) -> (r: Result<(), TemplateEditError>)
    ensures
        stored_count <= 0 <==> r is Ok,
        r matches Err(e) ==> (if store_scoped {
            e matches TemplateEditError::OverrideExists { id: i } && i@ == id@
        } else {
            e matches TemplateEditError::TemplateExists { id: i } && i@ == id@
        }),
{
    if stored_count > 0 {
        if store_scoped {
            Err(TemplateEditError::OverrideExists { id: owned(id) })
        } else {
            Err(TemplateEditError::TemplateExists { id: owned(id) })
        }
    } else {
        Ok(())
    }
}

/// An update is refused when no record with its id is stored: a store override
/// where the update names a store, else a platform template.
pub fn template_not_found(id: &str, store_scoped: bool) -> (e: TemplateEditError)
    ensures
        if store_scoped {
            e matches TemplateEditError::OverrideNotFound { id: i } && i@ == id@
        } else {
            e matches TemplateEditError::TemplateNotFound { id: i } && i@ == id@
        },
{
    if store_scoped {
        TemplateEditError::OverrideNotFound { id: owned(id) }
    } else {
        TemplateEditError::TemplateNotFound { id: owned(id) }
    }
}

/// The status (or readiness level) a new template starts with: the one given,
/// else `draft`.
pub fn draft_unless_given(given: Option<String>) -> (s: String)
    ensures
        s@ == match opt_view(given) {
            Some(g) => g,
            None => "draft"@,
        },
{
    match given {
        Some(g) => g,
        None => owned("draft"),
    }
}

/// The values of a stored template (JSON columns as their JSON text, absent
/// where the column is empty or does not parse).
#[derive(Debug, Clone)]
pub struct TemplateFields {
    pub name: String,
    pub platform_id: String,
    pub status: String,
    pub readiness_level: String,
    pub allowed_regions: Vec<String>,
    pub preferred_locale: Option<String>,
    pub preferred_timezone: Option<String>,
    pub warm_paths: Vec<String>,
    pub revisit_paths: Vec<String>,
    pub stateful_paths: Vec<String>,
    pub write_operation_paths: Vec<String>,
    pub high_risk_paths: Vec<String>,
    pub continuity_checks: Option<String>,
    pub identity_markers: Option<String>,
    pub login_loss_signals: Option<String>,
    pub recovery_steps: Option<String>,
    pub behavior_defaults: Option<String>,
    pub event_chain_templates: Option<String>,
    pub page_semantics: Option<String>,
}

/// What an update gives: a blank name or platform and an absent field keep
/// the stored value.
#[derive(Debug, Clone)]
pub struct TemplateUpdate {
    pub name: String,
    pub platform_id: String,
    pub status: Option<String>,
    pub readiness_level: Option<String>,
    pub allowed_regions: Option<Vec<String>>,
    pub preferred_locale: Option<String>,
    pub preferred_timezone: Option<String>,
    pub warm_paths: Option<Vec<String>>,
    pub revisit_paths: Option<Vec<String>>,
    pub stateful_paths: Option<Vec<String>>,
    pub write_operation_paths: Option<Vec<String>>,
    pub high_risk_paths: Option<Vec<String>>,
    pub continuity_checks: Option<String>,
    pub identity_markers: Option<String>,
    pub login_loss_signals: Option<String>,
    pub recovery_steps: Option<String>,
    pub behavior_defaults: Option<String>,
    pub event_chain_templates: Option<String>,
    pub page_semantics: Option<String>,
}

/// The given text unless it is blank, else the stored one.
pub open spec fn kept_unless_given(given: Seq<char>, stored: Seq<char>) -> Seq<char> {
    if blank(given) {
        stored
    } else {
        given
    }
}

/// The given value when there is one, else the stored one.
pub open spec fn given_or<T>(given: Option<T>, stored: T) -> T {
    match given {
        Some(g) => g,
        None => stored,
    }
}

/// The view of an optional list, the stored list standing in for an absent
/// one.
pub open spec fn list_given_or(given: Option<Vec<String>>, stored: Vec<String>) -> Seq<Seq<char>> {
    match given {
        Some(g) => strings_view(g@),
        None => strings_view(stored@),
    }
}

/// The view of an optional text, the stored one standing in for an absent
/// one.
pub open spec fn opt_given_or(given: Option<String>, stored: Option<String>) -> Option<Seq<char>> {
    match given {
        Some(g) => Some(g@),
        None => opt_view(stored),
    }
}

/// Whether `m` is the stored template `s` with the update `u` applied.
pub open spec fn merged_template(u: TemplateUpdate, s: TemplateFields, m: TemplateFields) -> bool {
    &&& m.name@ == kept_unless_given(u.name@, s.name@)
    &&& m.platform_id@ == kept_unless_given(u.platform_id@, s.platform_id@)
    &&& m.status@ == given_or(opt_view(u.status), s.status@)
    &&& m.readiness_level@ == given_or(opt_view(u.readiness_level), s.readiness_level@)
    &&& strings_view(m.allowed_regions@) == list_given_or(u.allowed_regions, s.allowed_regions)
    &&& opt_view(m.preferred_locale) == opt_given_or(u.preferred_locale, s.preferred_locale)
    &&& opt_view(m.preferred_timezone) == opt_given_or(u.preferred_timezone, s.preferred_timezone)
    &&& strings_view(m.warm_paths@) == list_given_or(u.warm_paths, s.warm_paths)
    &&& strings_view(m.revisit_paths@) == list_given_or(u.revisit_paths, s.revisit_paths)
    &&& strings_view(m.stateful_paths@) == list_given_or(u.stateful_paths, s.stateful_paths)
    &&& strings_view(m.write_operation_paths@) == list_given_or(u.write_operation_paths, s.write_operation_paths)
    &&& strings_view(m.high_risk_paths@) == list_given_or(u.high_risk_paths, s.high_risk_paths)
    &&& opt_view(m.continuity_checks) == opt_given_or(u.continuity_checks, s.continuity_checks)
    &&& opt_view(m.identity_markers) == opt_given_or(u.identity_markers, s.identity_markers)
    &&& opt_view(m.login_loss_signals) == opt_given_or(u.login_loss_signals, s.login_loss_signals)
    &&& opt_view(m.recovery_steps) == opt_given_or(u.recovery_steps, s.recovery_steps)
    &&& opt_view(m.behavior_defaults) == opt_given_or(u.behavior_defaults, s.behavior_defaults)
    &&& opt_view(m.event_chain_templates) == opt_given_or(u.event_chain_templates, s.event_chain_templates)
    &&& opt_view(m.page_semantics) == opt_given_or(u.page_semantics, s.page_semantics)
}

fn keep_text(given: String, stored: String) -> (r: String)
    ensures
        r@ == kept_unless_given(given@, stored@),
{
    if crate::text::is_blank(given.as_str()) {
        stored
    } else {
        given
    }
}

fn keep_opt(given: Option<String>, stored: Option<String>) -> (r: Option<String>)
    ensures
        opt_view(r) == opt_given_or(given, stored),
{
    match given {
        Some(g) => Some(g),
        None => stored,
    }
}

fn keep_list(given: Option<Vec<String>>, stored: Vec<String>) -> (r: Vec<String>)
    ensures
        strings_view(r@) == list_given_or(given, stored),
{
    match given {
        Some(g) => g,
        None => stored,
    }
}

fn keep_status(given: Option<String>, stored: String) -> (r: String)
    ensures
        r@ == given_or(opt_view(given), stored@),
{
    match given {
        Some(g) => g,
        None => stored,
    }
}

/// The stored template with an update applied: each field the update gives
/// replaces the stored one, a blank name or platform keeps the stored one.
pub fn merge_template_update(update: TemplateUpdate, stored: TemplateFields) -> (m: TemplateFields)
    ensures
        merged_template(update, stored, m),
{
    TemplateFields {
        name: keep_text(update.name, stored.name),
        platform_id: keep_text(update.platform_id, stored.platform_id),
        status: keep_status(update.status, stored.status),
        readiness_level: keep_status(update.readiness_level, stored.readiness_level),
        allowed_regions: keep_list(update.allowed_regions, stored.allowed_regions),
        preferred_locale: keep_opt(update.preferred_locale, stored.preferred_locale),
        preferred_timezone: keep_opt(update.preferred_timezone, stored.preferred_timezone),
        warm_paths: keep_list(update.warm_paths, stored.warm_paths),
        revisit_paths: keep_list(update.revisit_paths, stored.revisit_paths),
        stateful_paths: keep_list(update.stateful_paths, stored.stateful_paths),
        write_operation_paths: keep_list(update.write_operation_paths, stored.write_operation_paths),
        high_risk_paths: keep_list(update.high_risk_paths, stored.high_risk_paths),
        continuity_checks: keep_opt(update.continuity_checks, stored.continuity_checks),
        identity_markers: keep_opt(update.identity_markers, stored.identity_markers),
        login_loss_signals: keep_opt(update.login_loss_signals, stored.login_loss_signals),
        recovery_steps: keep_opt(update.recovery_steps, stored.recovery_steps),
        behavior_defaults: keep_opt(update.behavior_defaults, stored.behavior_defaults),
        event_chain_templates: keep_opt(update.event_chain_templates, stored.event_chain_templates),
        page_semantics: keep_opt(update.page_semantics, stored.page_semantics),
    }
}

/// An update that gives nothing leaves the stored template as it is.
pub proof fn lemma_empty_update_keeps_template(u: TemplateUpdate, s: TemplateFields, m: TemplateFields)
    requires
        blank(u.name@),
        blank(u.platform_id@),
        u.status is None,
        u.readiness_level is None,
        u.allowed_regions is None,
        u.preferred_locale is None,
        u.preferred_timezone is None,
        u.warm_paths is None,
        u.revisit_paths is None,
        u.stateful_paths is None,
        u.write_operation_paths is None,
        u.high_risk_paths is None,
        u.continuity_checks is None,
        u.identity_markers is None,
        u.login_loss_signals is None,
        u.recovery_steps is None,
        u.behavior_defaults is None,
        u.event_chain_templates is None,
        u.page_semantics is None,
        merged_template(u, s, m),
    ensures
        m.name@ == s.name@,
        m.platform_id@ == s.platform_id@,
        m.status@ == s.status@,
        m.readiness_level@ == s.readiness_level@,
        strings_view(m.allowed_regions@) == strings_view(s.allowed_regions@),
        opt_view(m.preferred_locale) == opt_view(s.preferred_locale),
        opt_view(m.preferred_timezone) == opt_view(s.preferred_timezone),
        strings_view(m.warm_paths@) == strings_view(s.warm_paths@),
        strings_view(m.revisit_paths@) == strings_view(s.revisit_paths@),
        strings_view(m.stateful_paths@) == strings_view(s.stateful_paths@),
        strings_view(m.write_operation_paths@) == strings_view(s.write_operation_paths@),
        strings_view(m.high_risk_paths@) == strings_view(s.high_risk_paths@),
        opt_view(m.continuity_checks) == opt_view(s.continuity_checks),
        opt_view(m.identity_markers) == opt_view(s.identity_markers),
        opt_view(m.login_loss_signals) == opt_view(s.login_loss_signals),
        opt_view(m.recovery_steps) == opt_view(s.recovery_steps),
        opt_view(m.behavior_defaults) == opt_view(s.behavior_defaults),
        opt_view(m.event_chain_templates) == opt_view(s.event_chain_templates),
        opt_view(m.page_semantics) == opt_view(s.page_semantics),
{
}

/// Applying the same update twice stores what applying it once stores.
pub proof fn lemma_update_idempotent(u: TemplateUpdate, s: TemplateFields, m1: TemplateFields, m2: TemplateFields)
    requires
        merged_template(u, s, m1),
        merged_template(u, m1, m2),
    ensures
        m2.name@ == m1.name@,
        m2.platform_id@ == m1.platform_id@,
        m2.status@ == m1.status@,
        m2.readiness_level@ == m1.readiness_level@,
        strings_view(m2.allowed_regions@) == strings_view(m1.allowed_regions@),
        opt_view(m2.preferred_locale) == opt_view(m1.preferred_locale),
        opt_view(m2.preferred_timezone) == opt_view(m1.preferred_timezone),
        strings_view(m2.warm_paths@) == strings_view(m1.warm_paths@),
        strings_view(m2.revisit_paths@) == strings_view(m1.revisit_paths@),
        strings_view(m2.stateful_paths@) == strings_view(m1.stateful_paths@),
        strings_view(m2.write_operation_paths@) == strings_view(m1.write_operation_paths@),
        strings_view(m2.high_risk_paths@) == strings_view(m1.high_risk_paths@),
        opt_view(m2.continuity_checks) == opt_view(m1.continuity_checks),
        opt_view(m2.identity_markers) == opt_view(m1.identity_markers),
        opt_view(m2.login_loss_signals) == opt_view(m1.login_loss_signals),
        opt_view(m2.recovery_steps) == opt_view(m1.recovery_steps),
        opt_view(m2.behavior_defaults) == opt_view(m1.behavior_defaults),
        opt_view(m2.event_chain_templates) == opt_view(m1.event_chain_templates),
        opt_view(m2.page_semantics) == opt_view(m1.page_semantics),
{
}

} // verus!
