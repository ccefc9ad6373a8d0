//! Template runs: which profiles a template may run on, what a compile
//! reports, and what a launch must have before it queues tasks.
use vstd::prelude::*;

use super::types::DesktopLaunchTemplateRunSummary;
use super::workbench::batch_ids;
use crate::numtext::{decimal_digits, u64_to_text};
use crate::text::{
    concat2, concat3, copy_opt, join_strings, joined, lemma_strings_view_push, nonblank_trimmed,
    normalized_optional_text, opt_view, owned, str_eq, string_in_list, strings_view, trim_str, clone_strings,
};

verus! {

/// A template variable and whether a run must bind it.
#[derive(Debug, Clone)]
pub struct TemplateVariableRequirement {
    pub key: String,
    pub required: bool,
}

/// The template a run targets, as the store describes it.
#[derive(Debug, Clone)]
pub struct TemplateRunTarget {
    pub id: String,
    pub store_id: Option<String>,
    pub platform_id: String,
    pub variable_definitions: Vec<TemplateVariableRequirement>,
}

/// A profile as a template run matches it.
#[derive(Debug, Clone)]
pub struct ProfileMatchInfo {
    pub id: String,
    pub store_id: String,
    pub platform_id: String,
}

/// The profiles a template run accepts and those it rejects, in request order.
#[derive(Debug, Clone)]
pub struct TemplateRunSelection {
    pub accepted: Vec<String>,
    pub rejected: Vec<String>,
}

/// Why a template run was refused.
#[derive(Debug, Clone)]
pub enum TemplateRunError {
    TemplateIdRequired,
    MissingRequiredVariables { keys: Vec<String> },
    NoProfileIds,
    ProfilesNotFound { ids: Vec<String> },
    NoMatchingProfiles { template_id: String, platform_id: String, store_id: Option<String> },
    DryRunNotAccepted,
    RecorderSessionRequired,
    RecorderStepsRequired,
}

impl TemplateRunError {
    /// The message the error is reported with.
    pub fn message(&self) -> (m: String)
        ensures
            m@ == match self {
                TemplateRunError::TemplateIdRequired => "template_id is required"@,
                TemplateRunError::MissingRequiredVariables { keys } => "missing required variable bindings: "@
                    + joined(strings_view(keys@), ", "@),
                TemplateRunError::NoProfileIds => "profile_ids must contain at least one profile id"@,
                TemplateRunError::ProfilesNotFound { ids } => "profiles not found: "@ + joined(strings_view(ids@), ", "@),
                TemplateRunError::NoMatchingProfiles { template_id, platform_id, store_id } =>
                    "no profiles matched template "@ + template_id@ + " (platform "@ + platform_id@ + match store_id {
                        Some(s) => ", store "@ + s@,
                        None => Seq::empty(),
                    } + ")"@,
                TemplateRunError::DryRunNotAccepted =>
                    "launchTemplateRun does not accept dry_run=true; use compileTemplateRun for dry-run preflight"@,
                TemplateRunError::RecorderSessionRequired =>
                    "native recorder session evidence is required before launching template run"@,
                TemplateRunError::RecorderStepsRequired =>
                    "native recorder session must contain at least one captured step before launching template run"@,
            },
    {
        match self {
            TemplateRunError::TemplateIdRequired => owned("template_id is required"),
            TemplateRunError::MissingRequiredVariables { keys } => {
                let list = join_strings(keys, ", ");
                concat2("missing required variable bindings: ", list.as_str())
            },
            TemplateRunError::NoProfileIds => owned("profile_ids must contain at least one profile id"),
            TemplateRunError::ProfilesNotFound { ids } => {
                let list = join_strings(ids, ", ");
                concat2("profiles not found: ", list.as_str())
            },
            TemplateRunError::NoMatchingProfiles { template_id, platform_id, store_id } => {
                let a = concat3("no profiles matched template ", template_id.as_str(), " (platform ");
                let b = concat2(a.as_str(), platform_id.as_str());
                let c = match store_id {
                    Some(s) => concat3(b.as_str(), ", store ", s.as_str()),
                    None => b,
                };
                concat2(c.as_str(), ")")
            },
            TemplateRunError::DryRunNotAccepted => owned(
                "launchTemplateRun does not accept dry_run=true; use compileTemplateRun for dry-run preflight",
            ),
            TemplateRunError::RecorderSessionRequired => owned(
                "native recorder session evidence is required before launching template run",
            ),
            TemplateRunError::RecorderStepsRequired => owned(
                "native recorder session must contain at least one captured step before launching template run",
            ),
        }
    }
}

/// The template id a request names, trimmed.
pub fn requested_template_id(raw: &str) -> (r: Result<String, TemplateRunError>)
    ensures
        match r {
            Ok(id) => nonblank_trimmed(Some(raw@)) == Some(id@),
            Err(e) => nonblank_trimmed(Some(raw@)) is None && e is TemplateIdRequired,
        },
{
    let t = trim_str(raw);
    if t.as_str().is_empty() {
        Err(TemplateRunError::TemplateIdRequired)
    } else {
        Ok(t)
    }
}

/// The required variables the bindings leave out, in definition order.
pub open spec fn missing_required(defs: Seq<TemplateVariableRequirement>, bound: Seq<Seq<char>>) -> Seq<Seq<char>>
    decreases defs.len(),
{
    if defs.len() == 0 {
        seq![]
    } else {
        let rest = missing_required(defs.drop_last(), bound);
        let d = defs.last();
        if d.required && !bound.contains(d.key@) {
            rest.push(d.key@)
        } else {
            rest
        }
    }
}

/// The first profile with the id `id`.
pub open spec fn profile_with_id(profiles: Seq<ProfileMatchInfo>, id: Seq<char>) -> Option<ProfileMatchInfo>
    decreases profiles.len(),
{
    if profiles.len() == 0 {
        None
    } else if profiles[0].id@ == id {
        Some(profiles[0])
    } else {
        profile_with_id(profiles.drop_first(), id)
    }
}

/// The requested profiles the store does not hold, in request order.
pub open spec fn unknown_profiles(ids: Seq<Seq<char>>, profiles: Seq<ProfileMatchInfo>) -> Seq<Seq<char>>
    decreases ids.len(),
{
    if ids.len() == 0 {
        seq![]
    } else {
        let rest = unknown_profiles(ids.drop_last(), profiles);
        if profile_with_id(profiles, ids.last()) is None {
            rest.push(ids.last())
        } else {
            rest
        }
    }
}

/// Whether a profile fits the template: same platform, and same store when
/// the template belongs to one.
pub open spec fn profile_fits(t: TemplateRunTarget, p: ProfileMatchInfo) -> bool {
    (match t.store_id {
        Some(s) => s@ == p.store_id@,
        None => true,
    }) && p.platform_id@ == t.platform_id@
}

/// The requested profiles that fit (when `fit`) or do not fit the template.
pub open spec fn partition_profiles(
    t: TemplateRunTarget,
    ids: Seq<Seq<char>>,
    profiles: Seq<ProfileMatchInfo>,
    fit: bool,
) -> Seq<Seq<char>>
    decreases ids.len(),
{
    if ids.len() == 0 {
        seq![]
    } else {
        let rest = partition_profiles(t, ids.drop_last(), profiles, fit);
        match profile_with_id(profiles, ids.last()) {
            Some(p) => if profile_fits(t, p) == fit {
                rest.push(p.id@)
            } else {
                rest
            },
            None => rest,
        }
    }
}

/// Why a template run on these profiles with these bindings is refused, in
/// the order checked.
pub enum TemplateRunFault {
    MissingRequiredVariables(Seq<Seq<char>>),
    NoProfileIds,
    ProfilesNotFound(Seq<Seq<char>>),
    NoMatchingProfiles,
}

pub open spec fn selection_fault(
    t: TemplateRunTarget,
    binding_keys: Seq<Seq<char>>,
    requested: Seq<Seq<char>>,
    profiles: Seq<ProfileMatchInfo>,
) -> Option<TemplateRunFault> {
    let missing = missing_required(t.variable_definitions@, binding_keys);
    let ids = batch_ids(requested);
    if missing.len() > 0 {
        Some(TemplateRunFault::MissingRequiredVariables(missing))
    } else if ids.len() == 0 {
        Some(TemplateRunFault::NoProfileIds)
    } else if unknown_profiles(ids, profiles).len() > 0 {
        Some(TemplateRunFault::ProfilesNotFound(unknown_profiles(ids, profiles)))
    } else if partition_profiles(t, ids, profiles, true).len() == 0 {
        Some(TemplateRunFault::NoMatchingProfiles)
    } else {
        None
    }
}

pub open spec fn template_fault_of(e: TemplateRunError, t: TemplateRunTarget) -> Option<TemplateRunFault> {
    match e {
        TemplateRunError::MissingRequiredVariables { keys } => Some(TemplateRunFault::MissingRequiredVariables(strings_view(keys@))),
        TemplateRunError::NoProfileIds => Some(TemplateRunFault::NoProfileIds),
        TemplateRunError::ProfilesNotFound { ids } => Some(TemplateRunFault::ProfilesNotFound(strings_view(ids@))),
        TemplateRunError::NoMatchingProfiles { template_id, platform_id, store_id } => if template_id@ == t.id@
            && platform_id@ == t.platform_id@ && opt_view(store_id) == opt_view(t.store_id) {
            Some(TemplateRunFault::NoMatchingProfiles)
        } else {
            None
        },
        _ => None,
    }
}

fn find_profile(profiles: &Vec<ProfileMatchInfo>, id: &str) -> (r: Option<usize>)
    ensures
        match r {
            Some(k) => k < profiles@.len() && profile_with_id(profiles@, id@) == Some(profiles@[k as int]),
            None => profile_with_id(profiles@, id@) is None,
        },
{
    let mut i: usize = 0;
    assert(profiles@.subrange(0, profiles@.len() as int) =~= profiles@);
    while i < profiles.len()
        invariant
            i <= profiles@.len(),
            profile_with_id(profiles@, id@) == profile_with_id(profiles@.subrange(i as int, profiles@.len() as int), id@),
        decreases profiles@.len() - i,
    {
        let ghost rest = profiles@.subrange(i as int, profiles@.len() as int);
        assert(rest[0] == profiles@[i as int]);
        if str_eq(profiles[i].id.as_str(), id) {
            return Some(i);
        }
        assert(rest.drop_first() =~= profiles@.subrange(i as int + 1, profiles@.len() as int));
        i = i + 1;
    }
    None
}

fn missing_required_keys(defs: &Vec<TemplateVariableRequirement>, binding_keys: &Vec<String>) -> (r: Vec<String>)
    ensures
        strings_view(r@) == missing_required(defs@, strings_view(binding_keys@)),
{
    let mut r: Vec<String> = Vec::new();
    let mut i: usize = 0;
    while i < defs.len()
        invariant
            i <= defs@.len(),
            strings_view(r@) == missing_required(defs@.subrange(0, i as int), strings_view(binding_keys@)),
        decreases defs@.len() - i,
    {
        proof {
            let sub = defs@.subrange(0, i as int + 1);
            assert(sub.drop_last() =~= defs@.subrange(0, i as int));
            assert(sub.last() == defs@[i as int]);
        }
        if defs[i].required && !string_in_list(defs[i].key.as_str(), binding_keys) {
            let k = owned(defs[i].key.as_str());
            proof {
                lemma_strings_view_push(r@, k);
            }
            r.push(k);
        }
        i = i + 1;
    }
    assert(defs@.subrange(0, i as int) =~= defs@);
    r
}

fn normalized_profile_ids(raw: &Vec<String>) -> (r: Vec<String>)
    ensures
        strings_view(r@) == batch_ids(strings_view(raw@)),
{
    let request = super::types::DesktopProfileBatchActionRequest { profile_ids: crate::text::clone_strings(raw) };
    super::workbench::normalize_profile_batch_ids(&request)
}

/// Chooses the profiles a template runs on: every required variable must be
/// bound, the requested profiles (trimmed, each once) must exist, and those
/// that fit the template's platform and store are accepted, the others
/// rejected; at least one must be accepted.
pub fn template_run_selection(
    template: &TemplateRunTarget,
    binding_keys: &Vec<String>,
    requested_profile_ids: &Vec<String>,
    profiles: &Vec<ProfileMatchInfo>,
) -> (r: Result<TemplateRunSelection, TemplateRunError>)
    ensures
        match r {
            Ok(sel) => selection_fault(*template, strings_view(binding_keys@), strings_view(requested_profile_ids@), profiles@) is None
                && strings_view(sel.accepted@) == partition_profiles(
                *template,
                batch_ids(strings_view(requested_profile_ids@)),
                profiles@,
                true,
            ) && strings_view(sel.rejected@) == partition_profiles(
                *template,
                batch_ids(strings_view(requested_profile_ids@)),
                profiles@,
                false,
            ),
            Err(e) => selection_fault(*template, strings_view(binding_keys@), strings_view(requested_profile_ids@), profiles@) is Some
                && template_fault_of(e, *template) == selection_fault(
                *template,
                strings_view(binding_keys@),
                strings_view(requested_profile_ids@),
                profiles@,
            ),
        },
{
    let missing = missing_required_keys(&template.variable_definitions, binding_keys);
    if missing.len() > 0 {
        return Err(TemplateRunError::MissingRequiredVariables { keys: missing });
    }
    let ids = normalized_profile_ids(requested_profile_ids);
    if ids.len() == 0 {
        return Err(TemplateRunError::NoProfileIds);
    }
    let mut unknown: Vec<String> = Vec::new();
    let mut accepted: Vec<String> = Vec::new();
    let mut rejected: Vec<String> = Vec::new();
    let mut i: usize = 0;
    while i < ids.len()
        invariant
            i <= ids@.len(),
            strings_view(unknown@) == unknown_profiles(strings_view(ids@).subrange(0, i as int), profiles@),
            strings_view(accepted@) == partition_profiles(*template, strings_view(ids@).subrange(0, i as int), profiles@, true),
            strings_view(rejected@) == partition_profiles(*template, strings_view(ids@).subrange(0, i as int), profiles@, false),
        decreases ids@.len() - i,
    {
        proof {
            let sub = strings_view(ids@).subrange(0, i as int + 1);
            assert(sub.drop_last() =~= strings_view(ids@).subrange(0, i as int));
            assert(sub.last() == ids@[i as int]@);
        }
        match find_profile(profiles, ids[i].as_str()) {
            Some(k) => {
                let p = &profiles[k];
                let store_matches = match &template.store_id {
                    Some(s) => str_eq(s.as_str(), p.store_id.as_str()),
                    None => true,
                };
                let fits = store_matches && str_eq(p.platform_id.as_str(), template.platform_id.as_str());
                let id = owned(p.id.as_str());
                if fits {
                    proof {
                        lemma_strings_view_push(accepted@, id);
                    }
                    accepted.push(id);
                } else {
                    proof {
                        lemma_strings_view_push(rejected@, id);
                    }
                    rejected.push(id);
                }
            },
            None => {
                let id = owned(ids[i].as_str());
                proof {
                    lemma_strings_view_push(unknown@, id);
                }
                unknown.push(id);
            },
        }
        i = i + 1;
    }
    assert(strings_view(ids@).subrange(0, i as int) =~= strings_view(ids@));
    if unknown.len() > 0 {
        return Err(TemplateRunError::ProfilesNotFound { ids: unknown });
    }
    if accepted.len() == 0 {
        return Err(
            TemplateRunError::NoMatchingProfiles {
                template_id: owned(template.id.as_str()),
                platform_id: owned(template.platform_id.as_str()),
                store_id: copy_opt(&template.store_id),
            },
        );
    }
    Ok(TemplateRunSelection { accepted, rejected })
}

/// The status of a compiled template run.
pub open spec fn compile_status(dry_run: bool, rejected: nat) -> Seq<char> {
    if dry_run {
        "dry_run_ready"@
    } else if rejected == 0 {
        "manifest_written"@
    } else {
        "manifest_written_partial"@
    }
}

pub fn template_run_compile_status(dry_run: bool, rejected_count: usize) -> (r: String)
    ensures
        r@ == compile_status(dry_run, rejected_count as nat),
{
    if dry_run {
        owned("dry_run_ready")
    } else if rejected_count == 0 {
        owned("manifest_written")
    } else {
        owned("manifest_written_partial")
    }
}

/// The message of a compiled template run.
pub fn template_run_compile_message(status: &str, dry_run: bool, accepted_count: usize, rejected_count: usize) -> (r: String)
    ensures
        r@ == if status@ == "manifest_written_partial"@ {
            "Compile manifest written with "@ + decimal_digits(accepted_count as nat) + " accepted profiles and "@
                + decimal_digits(rejected_count as nat) + " rejected profiles."@
        } else if dry_run {
            "Dry-run compile manifest written for "@ + decimal_digits(accepted_count as nat) + " profiles."@
        } else {
            "Compile manifest written for "@ + decimal_digits(accepted_count as nat) + " profiles."@
        },
{
    let accepted = u64_to_text(accepted_count as u64);
    if str_eq(status, "manifest_written_partial") {
        let rejected = u64_to_text(rejected_count as u64);
        let a = concat3("Compile manifest written with ", accepted.as_str(), " accepted profiles and ");
        concat3(a.as_str(), rejected.as_str(), " rejected profiles.")
    } else if dry_run {
        concat3("Dry-run compile manifest written for ", accepted.as_str(), " profiles.")
    } else {
        concat3("Compile manifest written for ", accepted.as_str(), " profiles.")
    }
}

/// Refuses a launch that asks for a dry run.
pub fn check_launch_not_dry_run(dry_run: Option<bool>) -> (r: Result<(), TemplateRunError>)
    ensures
        r is Err <==> dry_run == Some(true),
        r matches Err(e) ==> e is DryRunNotAccepted,
{
    match dry_run {
        Some(true) => Err(TemplateRunError::DryRunNotAccepted),
        _ => Ok(()),
    }
}

/// The recorder evidence a launch carries: the session (trimmed) and the
/// step count (at least 0). Unless the request waives it, a launch needs a
/// session with at least one captured step.
pub fn check_recorder_evidence(
    native_required: Option<bool>,
    session_id: Option<String>,
    step_count: Option<i64>,
) -> (r: Result<(Option<String>, i64), TemplateRunError>)
    ensures
        ({
            let required = native_required != Some(false);
            let session = nonblank_trimmed(opt_view(session_id));
            let steps = match step_count {
                Some(n) => if n < 0 { 0 } else { n as int },
                None => 0,
            };
            match r {
                Ok((s, n)) => opt_view(s) == session && n as int == steps && !(required && session is None)
                    && !(required && steps <= 0),
                Err(e) => if required && session is None {
                    e is RecorderSessionRequired
                } else {
                    required && steps <= 0 && e is RecorderStepsRequired
                },
            }
        }),
{
    let session = normalized_optional_text(session_id);
    let steps: i64 = match step_count {
        Some(n) => if n < 0 {
            0
        } else {
            n
        },
        None => 0,
    };
    let required = match native_required {
        Some(false) => false,
        _ => true,
    };
    if required && session.is_none() {
        return Err(TemplateRunError::RecorderSessionRequired);
    }
    if required && steps <= 0 {
        return Err(TemplateRunError::RecorderStepsRequired);
    }
    Ok((session, steps))
}

/// The message of a launched template run.
pub fn template_run_launch_message(task_count: usize) -> (r: String)
    ensures
        r@ == "Queued "@ + decimal_digits(task_count as nat) + " template_run tasks from compile manifest."@,
{
    let n = u64_to_text(task_count as u64);
    concat3("Queued ", n.as_str(), " template_run tasks from compile manifest.")
}

/// The run a launch is anchored to: its first queued task, else
/// `fallback_anchor` (a fresh anchor id the caller made).
pub fn template_run_anchor_id(task_ids: &Vec<String>, fallback_anchor: String) -> (r: String)
    ensures
        r@ == if task_ids@.len() > 0 {
            task_ids@[0]@
        } else {
            fallback_anchor@
        },
{
    if task_ids.len() > 0 {
        owned(task_ids[0].as_str())
    } else {
        fallback_anchor
    }
}

/// The summary of a template-run launch that queued `task_ids`: a fan-out
/// whose primary task is the first one queued, with the compile's accepted
/// profiles and the launch's own mode, sources, scope, note and times.
pub fn template_run_launch_summary(
    template_id: String,
    launch_mode: String,
    task_ids: &Vec<String>,
    accepted_profile_count: i64,
    accepted_profile_ids: &Vec<String>,
    source_run_id: Option<String>,
    recorder_session_id: Option<String>,
    target_scope: Option<String>,
    launch_note: Option<String>,
    compiled_at: String,
    launched_at: String,
    manifest_path: String,
) -> (s: DesktopLaunchTemplateRunSummary)
    requires
        task_ids@.len() <= i64::MAX,
    ensures
        s.template_id == template_id,
        s.launch_kind@ == "template_run_fanout"@,
        s.launch_mode == launch_mode,
        opt_view(s.primary_task_id) == if task_ids@.len() > 0 {
            Some(task_ids@[0]@)
        } else {
            None
        },
        s.task_count == task_ids@.len(),
        s.accepted_profile_count == accepted_profile_count,
        strings_view(s.accepted_profile_ids@) == strings_view(accepted_profile_ids@),
        s.source_run_id == source_run_id,
        s.recorder_session_id == recorder_session_id,
        s.target_scope == target_scope,
        s.launch_note == launch_note,
        s.compiled_at == compiled_at,
        s.launched_at == launched_at,
        s.manifest_path == manifest_path,
{
    let primary_task_id = if task_ids.len() > 0 {
        Some(owned(task_ids[0].as_str()))
    } else {
        None
    };
    DesktopLaunchTemplateRunSummary {
        template_id,
        launch_kind: owned("template_run_fanout"),
        launch_mode,
        primary_task_id,
        task_count: task_ids.len() as i64,
        accepted_profile_count,
        accepted_profile_ids: clone_strings(accepted_profile_ids),
        source_run_id,
        recorder_session_id,
        target_scope,
        launch_note,
        compiled_at,
        launched_at,
        manifest_path,
    }
}

} // verus!
