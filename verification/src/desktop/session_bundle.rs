//! Session bundles: what an export warns about, what an import preflight
//! finds before any write, and what a restore does with that finding.
use vstd::prelude::*;

use super::types::{
    DesktopSessionBundleImportPreflight, DesktopSessionBundleRestoreResult,
    DesktopSessionBundleRestoreStep,
};
use crate::bindings::{json_text_shape, parse_json_shape};
use crate::numtext::{decimal_digits, u64_to_text};
use crate::text::{
    concat2, concat3, copy_opt, join_strings, joined, nonblank_trimmed, normalized_optional_text, opt_view,
    owned, str_eq, strings_view, trim_str,
};

verus! {

/// The schema version a session bundle must declare.
pub open spec fn bundle_schema_version() -> Seq<char> {
    "session-bundle-v1"@
}

/// Why a session bundle request was refused.
#[derive(Debug, Clone, Copy, PartialEq, Eq, Structural)]
pub enum SessionBundleError {
    ProfileIdRequired,
    BundlePathRequired,
}

impl SessionBundleError {
    /// The message the refusal is reported with.
    pub fn message(&self) -> (m: &'static str)
        ensures
            *self == SessionBundleError::ProfileIdRequired ==> m@ == "profile_id is required"@,
            *self == SessionBundleError::BundlePathRequired ==> m@ == "bundle_path is required"@,
    {
        match self {
            SessionBundleError::ProfileIdRequired => "profile_id is required",
            SessionBundleError::BundlePathRequired => "bundle_path is required",
        }
    }
}

/// The profile an export names, trimmed; a blank id is refused.
pub fn requested_export_profile_id(raw: &str) -> (r: Result<String, SessionBundleError>)
    ensures
        match r {
            Ok(id) => nonblank_trimmed(Some(raw@)) == Some(id@),
            Err(e) => nonblank_trimmed(Some(raw@)) is None && e == SessionBundleError::ProfileIdRequired,
        },
{
    let t = trim_str(raw);
    if t.as_str().is_empty() {
        Err(SessionBundleError::ProfileIdRequired)
    } else {
        Ok(t)
    }
}

/// The bundle file an import names, trimmed; a blank path is refused.
pub fn requested_bundle_path(raw: &str) -> (r: Result<String, SessionBundleError>)
    ensures
        match r {
            Ok(p) => nonblank_trimmed(Some(raw@)) == Some(p@),
            Err(e) => nonblank_trimmed(Some(raw@)) is None && e == SessionBundleError::BundlePathRequired,
        },
{
    let t = trim_str(raw);
    if t.as_str().is_empty() {
        Err(SessionBundleError::BundlePathRequired)
    } else {
        Ok(t)
    }
}

/// The id of the bundle exported for `profile_id` at `exported_at`.
pub fn session_bundle_id(profile_id: &str, exported_at: &str) -> (id: String)
    ensures
        id@ == "session-bundle-"@ + profile_id@ + "-"@ + exported_at@,
{
    let head = concat3("session-bundle-", profile_id, "-");
    concat2(head.as_str(), exported_at)
}

/// The warnings an export carries, in this order: redacted payloads, no
/// session bindings, no behavior profile.
pub open spec fn export_warnings(
    include_sensitive_payloads: bool,
    binding_count: nat,
    has_behavior_profile: bool,
) -> Seq<Seq<char>> {
    let a: Seq<Seq<char>> = if include_sensitive_payloads {
        seq![]
    } else {
        seq![
            "sensitive session payloads redacted; re-export with includeSensitivePayloads=true for local restore evidence"@,
        ]
    };
    let b = if binding_count == 0 {
        a.push(
            "no proxy_session_bindings found for this profile fingerprint; restart continuity evidence is absent"@,
        )
    } else {
        a
    };
    if has_behavior_profile {
        b
    } else {
        b.push("profile has no behavior profile reference"@)
    }
}

/// The warnings a session bundle export carries.
pub fn session_bundle_export_warnings(
    include_sensitive_payloads: bool,
    binding_count: usize,
    has_behavior_profile: bool,
) -> (w: Vec<String>)
    ensures
        strings_view(w@) == export_warnings(
            include_sensitive_payloads,
            binding_count as nat,
            has_behavior_profile,
        ),
{
    let mut w: Vec<String> = Vec::new();
    if !include_sensitive_payloads {
        w.push(
            owned(
                "sensitive session payloads redacted; re-export with includeSensitivePayloads=true for local restore evidence",
            ),
        );
    }
    if binding_count == 0 {
        w.push(
            owned(
                "no proxy_session_bindings found for this profile fingerprint; restart continuity evidence is absent",
            ),
        );
    }
    if !has_behavior_profile {
        w.push(owned("profile has no behavior profile reference"));
    }
    assert(strings_view(w@) =~= export_warnings(
        include_sensitive_payloads,
        binding_count as nat,
        has_behavior_profile,
    ));
    w
}

/// The summary line of an export.
pub fn session_bundle_export_summary(
    profile_id: &str,
    binding_count: usize,
    include_sensitive_payloads: bool,
) -> (s: String)
    ensures
        s@ == "Exported session bundle for profile "@ + profile_id@ + ": "@ + decimal_digits(
            binding_count as nat,
        ) + " binding(s), sensitive payloads "@ + (if include_sensitive_payloads {
            "included"@
        } else {
            "redacted"@
        }) + "."@,
{
    let head = concat3("Exported session bundle for profile ", profile_id, ": ");
    let n = u64_to_text(binding_count as u64);
    let mid = concat3(head.as_str(), n.as_str(), " binding(s), sensitive payloads ");
    let word = if include_sensitive_payloads {
        "included"
    } else {
        "redacted"
    };
    let s = concat3(mid.as_str(), word, ".");
    s
}

/// The profile a restore writes to: the requested one, trimmed, else the
/// bundle's own profile.
pub fn session_bundle_target_profile_id(requested: Option<String>, source_profile_id: &str) -> (t: String)
    ensures
        t@ == match nonblank_trimmed(opt_view(requested)) {
            Some(r) => r,
            None => source_profile_id@,
        },
{
    match normalized_optional_text(requested) {
        Some(r) => r,
        None => owned(source_profile_id),
    }
}

/// A profile reference a bundle needs, and whether the store holds it (a
/// reference the bundle leaves empty counts as held).
#[derive(Debug, Clone)]
pub struct BundleReferenceCheck {
    pub label: String,
    pub id: Option<String>,
    pub exists: bool,
}

/// What an import preflight reads from the bundle file.
#[derive(Debug, Clone)]
pub struct SessionBundleFacts {
    pub bundle_id: String,
    pub profile_id: String,
    pub bundle_path: String,
    pub schema_version: String,
    pub collector_version: String,
    pub warnings: Vec<String>,
    pub session_binding_count: usize,
}

/// The error for one reference the store does not hold.
pub open spec fn missing_reference_error(r: BundleReferenceCheck) -> Seq<char> {
    "missing "@ + r.label@ + " reference required by bundle: "@ + match r.id {
        Some(id) => id@,
        None => "<none>"@,
    }
}

/// The errors for the references the store does not hold, in order.
pub open spec fn missing_reference_errors(refs: Seq<BundleReferenceCheck>) -> Seq<Seq<char>>
    decreases refs.len(),
{
    if refs.len() == 0 {
        seq![]
    } else {
        let rest = missing_reference_errors(refs.drop_last());
        if refs.last().exists {
            rest
        } else {
            rest.push(missing_reference_error(refs.last()))
        }
    }
}

/// How many references the store does not hold.
pub open spec fn missing_reference_count(refs: Seq<BundleReferenceCheck>) -> nat
    decreases refs.len(),
{
    if refs.len() == 0 {
        0
    } else {
        missing_reference_count(refs.drop_last()) + if refs.last().exists {
            0nat
        } else {
            1nat
        }
    }
}

/// Whether the target profile blocks the restore.
pub open spec fn profile_conflict(target_exists: bool, allow_profile_overwrite: bool) -> bool {
    target_exists && !allow_profile_overwrite
}

/// The errors a preflight finds, in order: the schema, the target profile, the
/// references.
pub open spec fn preflight_errors(
    schema_version: Seq<char>,
    target_profile_id: Seq<char>,
    target_exists: bool,
    allow_profile_overwrite: bool,
    refs: Seq<BundleReferenceCheck>,
) -> Seq<Seq<char>> {
    let a: Seq<Seq<char>> = if schema_version == bundle_schema_version() {
        seq![]
    } else {
        seq!["unsupported session bundle schema version: "@ + schema_version]
    };
    let b = if profile_conflict(target_exists, allow_profile_overwrite) {
        a.push("target profile already exists and allowProfileOverwrite=false: "@ + target_profile_id)
    } else {
        a
    };
    b + missing_reference_errors(refs)
}

/// Whether a restore step has these id, label, status and detail.
pub open spec fn step_is(
    step: DesktopSessionBundleRestoreStep,
    id: Seq<char>,
    label: Seq<char>,
    status: Seq<char>,
    detail: Seq<char>,
) -> bool {
    step.id@ == id && step.label@ == label && step.status@ == status && step.detail@ == detail
}

/// "ready" when `ok`, else "blocked".
pub open spec fn ready_or_blocked(ok: bool) -> Seq<char> {
    if ok {
        "ready"@
    } else {
        "blocked"@
    }
}

fn ready_or_blocked_text(ok: bool) -> (s: String)
    ensures
        s@ == ready_or_blocked(ok),
{
    if ok {
        owned("ready")
    } else {
        owned("blocked")
    }
}

fn restore_step(id: &str, label: &str, status: String, detail: String) -> (s: DesktopSessionBundleRestoreStep)
    ensures
        step_is(s, id@, label@, status@, detail@),
{
    DesktopSessionBundleRestoreStep { id: owned(id), label: owned(label), status, detail }
}

fn reference_errors(refs: &Vec<BundleReferenceCheck>) -> (r: (Vec<String>, usize))
    ensures
        strings_view(r.0@) == missing_reference_errors(refs@),
        r.1 == missing_reference_count(refs@),
{
    let mut errors: Vec<String> = Vec::new();
    let mut count: usize = 0;
    let mut i: usize = 0;
    while i < refs.len()
        invariant
            i <= refs@.len(),
            strings_view(errors@) == missing_reference_errors(refs@.subrange(0, i as int)),
            count == missing_reference_count(refs@.subrange(0, i as int)),
            count <= i,
        decreases refs@.len() - i,
    {
        let r = &refs[i];
        proof {
            let sub = refs@.subrange(0, i as int + 1);
            assert(sub.drop_last() =~= refs@.subrange(0, i as int));
            assert(sub.last() == refs@[i as int]);
        }
        if !r.exists {
            let shown = match &r.id {
                Some(id) => id.as_str(),
                None => "<none>",
            };
            let head = concat3("missing ", r.label.as_str(), " reference required by bundle: ");
            let e = concat2(head.as_str(), shown);
            proof {
                assert(e@ == missing_reference_error(refs@[i as int]));
            }
            errors.push(e);
            count = count + 1;
        }
        proof {
            assert(strings_view(errors@) =~= missing_reference_errors(refs@.subrange(0, i as int + 1)));
        }
        i = i + 1;
    }
    assert(refs@.subrange(0, i as int) =~= refs@);
    (errors, count)
}

/// The preflight status text.
pub open spec fn preflight_status(ok: bool) -> Seq<char> {
    if ok {
        "ready_for_confirmed_restore"@
    } else {
        "blocked"@
    }
}

/// What an import preflight reports for a bundle, given whether its target
/// profile is stored already and which of its references the store holds.
/// Nothing is written: the report says whether a confirmed restore may.
#[verifier::rlimit(40)]
pub fn preflight_session_bundle(
    facts: SessionBundleFacts,
    target_profile_id: String,
    target_exists: bool,
    allow_profile_overwrite: bool,
    references: &Vec<BundleReferenceCheck>,
) -> (p: DesktopSessionBundleImportPreflight)
    ensures
        p.bundle_id@ == facts.bundle_id@,
        p.profile_id@ == facts.profile_id@,
        p.target_profile_id@ == target_profile_id@,
        p.bundle_path@ == facts.bundle_path@,
        p.schema_version@ == facts.schema_version@,
        p.collector_version@ == facts.collector_version@,
        p.import_mode@ == "preflight_then_confirmed_restore"@,
        p.session_binding_count == facts.session_binding_count,
        strings_view(p.errors@) == preflight_errors(
            facts.schema_version@,
            target_profile_id@,
            target_exists,
            allow_profile_overwrite,
            references@,
        ),
        p.restore_supported == (p.errors@.len() == 0),
        p.status@ == preflight_status(p.restore_supported),
        p.missing_reference_count == missing_reference_count(references@),
        p.conflict_count == if profile_conflict(target_exists, allow_profile_overwrite) {
            1nat
        } else {
            0nat
        },
        strings_view(p.warnings@) == if facts.session_binding_count == 0 {
            strings_view(facts.warnings@).push("bundle has no session bindings to restore"@)
        } else {
            strings_view(facts.warnings@)
        },
        p.restore_plan@.len() == if p.restore_supported {
            4nat
        } else {
            5nat
        },
        step_is(p.restore_plan@[0], "read_bundle"@, "Read session bundle"@, "ready"@, "Parsed "@ + facts.bundle_path@),
        step_is(
            p.restore_plan@[1],
            "validate_references"@,
            "Validate profile references"@,
            ready_or_blocked(p.missing_reference_count == 0),
            "missingReferenceCount="@ + decimal_digits(p.missing_reference_count as nat),
        ),
        step_is(
            p.restore_plan@[2],
            "check_profile_conflict"@,
            "Check profile conflict"@,
            ready_or_blocked(p.conflict_count == 0),
            "targetProfileId="@ + target_profile_id@ + "; conflictCount="@ + decimal_digits(
                p.conflict_count as nat,
            ),
        ),
        step_is(
            p.restore_plan@[3],
            "restore_session_bindings"@,
            "Restore session bindings"@,
            ready_or_blocked(p.restore_supported),
            "Confirmed restore can upsert the target profile and session bindings after preflight passes"@,
        ),
        !p.restore_supported ==> step_is(
            p.restore_plan@[4],
            "resolve_blocks"@,
            "Resolve preflight blocks"@,
            "blocked"@,
            joined(strings_view(p.errors@), "; "@),
        ),
        p.summary@ == "Session bundle preflight "@ + p.status@ + ": "@ + decimal_digits(
            facts.session_binding_count as nat,
        ) + " binding(s), "@ + decimal_digits(p.missing_reference_count as nat)
            + " missing reference(s), "@ + decimal_digits(p.conflict_count as nat) + " conflict(s)."@,
{
    let mut errors: Vec<String> = Vec::new();
    if !str_eq(facts.schema_version.as_str(), "session-bundle-v1") {
        errors.push(concat2("unsupported session bundle schema version: ", facts.schema_version.as_str()));
    }
    let mut conflict_count: usize = 0;
    if target_exists && !allow_profile_overwrite {
        conflict_count = 1;
        errors.push(
            concat2(
                "target profile already exists and allowProfileOverwrite=false: ",
                target_profile_id.as_str(),
            ),
        );
    }
    let ghost head = strings_view(errors@);
    let (mut ref_errors, missing) = reference_errors(references);
    errors.append(&mut ref_errors);
    proof {
        assert(strings_view(errors@) =~= head + missing_reference_errors(references@));
        assert(strings_view(errors@) =~= preflight_errors(
            facts.schema_version@,
            target_profile_id@,
            target_exists,
            allow_profile_overwrite,
            references@,
        ));
    }
    let ok = errors.len() == 0;

    let mut warnings = facts.warnings;
    if facts.session_binding_count == 0 {
        warnings.push(owned("bundle has no session bindings to restore"));
    }
    proof {
        assert(strings_view(warnings@) =~= if facts.session_binding_count == 0 {
            strings_view(facts.warnings@).push("bundle has no session bindings to restore"@)
        } else {
            strings_view(facts.warnings@)
        });
    }

    let missing_text = u64_to_text(missing as u64);
    let conflict_text = u64_to_text(conflict_count as u64);
    let mut plan: Vec<DesktopSessionBundleRestoreStep> = Vec::new();
    plan.push(restore_step(
        "read_bundle",
        "Read session bundle",
        owned("ready"),
        concat2("Parsed ", facts.bundle_path.as_str()),
    ));
    plan.push(restore_step(
        "validate_references",
        "Validate profile references",
        ready_or_blocked_text(missing == 0),
        concat2("missingReferenceCount=", missing_text.as_str()),
    ));
    let conflict_detail = concat3("targetProfileId=", target_profile_id.as_str(), "; conflictCount=");
    plan.push(restore_step(
        "check_profile_conflict",
        "Check profile conflict",
        ready_or_blocked_text(conflict_count == 0),
        concat2(conflict_detail.as_str(), conflict_text.as_str()),
    ));
    plan.push(restore_step(
        "restore_session_bindings",
        "Restore session bindings",
        ready_or_blocked_text(ok),
        owned(
            "Confirmed restore can upsert the target profile and session bindings after preflight passes",
        ),
    ));
    if !ok {
        plan.push(restore_step(
            "resolve_blocks",
            "Resolve preflight blocks",
            owned("blocked"),
            join_strings(&errors, "; "),
        ));
    }

    let status = if ok {
        owned("ready_for_confirmed_restore")
    } else {
        owned("blocked")
    };
    let bindings_text = u64_to_text(facts.session_binding_count as u64);
    let s1 = concat3("Session bundle preflight ", status.as_str(), ": ");
    let s2 = concat3(s1.as_str(), bindings_text.as_str(), " binding(s), ");
    let s3 = concat3(s2.as_str(), missing_text.as_str(), " missing reference(s), ");
    let summary = concat3(s3.as_str(), conflict_text.as_str(), " conflict(s).");

    DesktopSessionBundleImportPreflight {
        bundle_id: facts.bundle_id,
        profile_id: facts.profile_id,
        target_profile_id,
        bundle_path: facts.bundle_path,
        schema_version: facts.schema_version,
        collector_version: facts.collector_version,
        status,
        import_mode: owned("preflight_then_confirmed_restore"),
        restore_supported: ok,
        session_binding_count: facts.session_binding_count,
        missing_reference_count: missing,
        conflict_count,
        warnings,
        errors,
        restore_plan: plan,
        summary,
    }
}

/// A restore without a write: blocked where the preflight found errors, a
/// dry run where it found none and the request asks for one (a request that
/// says nothing is a dry run). `Err` with the preflight where a confirmed
/// restore must write.
pub fn session_bundle_restore_without_write(
    preflight: DesktopSessionBundleImportPreflight,
    requested_dry_run: Option<bool>,
) -> (r: Result<DesktopSessionBundleRestoreResult, DesktopSessionBundleImportPreflight>)
    ensures
        ({
            let dry_run = match requested_dry_run {
                Some(d) => d,
                None => true,
            };
            match r {
            Ok(res) => {
                &&& res.bundle_id@ == preflight.bundle_id@
                &&& res.profile_id@ == preflight.profile_id@
                &&& res.target_profile_id@ == preflight.target_profile_id@
                &&& res.dry_run == dry_run
                &&& !res.write_performed
                &&& res.restored_session_binding_count == 0
                &&& if preflight.errors@.len() > 0 {
                    &&& res.status@ == "blocked_preflight_failed"@
                    &&& res.summary@ == "Restore blocked by preflight: "@ + joined(
                        strings_view(preflight.errors@),
                        "; "@,
                    )
                } else {
                    &&& dry_run
                    &&& res.status@ == "dry_run_ready"@
                    &&& res.summary@ == "Dry-run restore passed for target profile "@
                        + preflight.target_profile_id@ + " with "@ + decimal_digits(
                        preflight.session_binding_count as nat,
                    ) + " binding(s); no DB writes performed."@
                }
            },
            Err(p) => preflight.errors@.len() == 0 && !dry_run && p == preflight,
        }
        }),
{
    let dry_run = match requested_dry_run {
        Some(d) => d,
        None => true,
    };
    if preflight.errors.len() > 0 {
        let joined_errors = join_strings(&preflight.errors, "; ");
        let summary = concat2("Restore blocked by preflight: ", joined_errors.as_str());
        let bundle_id = owned(preflight.bundle_id.as_str());
        let profile_id = owned(preflight.profile_id.as_str());
        let target_profile_id = owned(preflight.target_profile_id.as_str());
        return Ok(DesktopSessionBundleRestoreResult {
            bundle_id,
            profile_id,
            target_profile_id,
            status: owned("blocked_preflight_failed"),
            dry_run,
            write_performed: false,
            restored_session_binding_count: 0,
            preflight,
            summary,
        });
    }
    if dry_run {
        let count = u64_to_text(preflight.session_binding_count as u64);
        let s1 = concat3(
            "Dry-run restore passed for target profile ",
            preflight.target_profile_id.as_str(),
            " with ",
        );
        let summary = concat3(s1.as_str(), count.as_str(), " binding(s); no DB writes performed.");
        let bundle_id = owned(preflight.bundle_id.as_str());
        let profile_id = owned(preflight.profile_id.as_str());
        let target_profile_id = owned(preflight.target_profile_id.as_str());
        return Ok(DesktopSessionBundleRestoreResult {
            bundle_id,
            profile_id,
            target_profile_id,
            status: owned("dry_run_ready"),
            dry_run,
            write_performed: false,
            restored_session_binding_count: 0,
            preflight,
            summary,
        });
    }
    Err(preflight)
}

/// The result of a confirmed restore that wrote `restored` session bindings.
pub fn session_bundle_restored(preflight: DesktopSessionBundleImportPreflight, restored: usize) -> (res:
    DesktopSessionBundleRestoreResult)
    ensures
        res.bundle_id@ == preflight.bundle_id@,
        res.profile_id@ == preflight.profile_id@,
        res.target_profile_id@ == preflight.target_profile_id@,
        res.status@ == "restored"@,
        !res.dry_run,
        res.write_performed,
        res.restored_session_binding_count == restored,
        res.summary@ == "Restored session bundle for target profile "@ + preflight.target_profile_id@
            + " with "@ + decimal_digits(restored as nat) + " binding(s)."@,
{
    let count = u64_to_text(restored as u64);
    let s1 = concat3("Restored session bundle for target profile ", preflight.target_profile_id.as_str(), " with ");
    let summary = concat3(s1.as_str(), count.as_str(), " binding(s).");
    let bundle_id = owned(preflight.bundle_id.as_str());
    let profile_id = owned(preflight.profile_id.as_str());
    let target_profile_id = owned(preflight.target_profile_id.as_str());
    DesktopSessionBundleRestoreResult {
        bundle_id,
        profile_id,
        target_profile_id,
        status: owned("restored"),
        dry_run: false,
        write_performed: true,
        restored_session_binding_count: restored,
        preflight,
        summary,
    }
}

/// A preflight clears a bundle exactly when its schema is the supported one,
/// its target profile does not block it, and the store holds every reference
/// it needs.
pub proof fn lemma_preflight_clears_exactly(
    schema_version: Seq<char>,
    target_profile_id: Seq<char>,
    target_exists: bool,
    allow_profile_overwrite: bool,
    refs: Seq<BundleReferenceCheck>,
)
    ensures
        (preflight_errors(schema_version, target_profile_id, target_exists, allow_profile_overwrite, refs).len()
            == 0) <==> (schema_version == bundle_schema_version() && !profile_conflict(
            target_exists,
            allow_profile_overwrite,
        ) && forall|i: int| 0 <= i < refs.len() ==> #[trigger] refs[i].exists),
{
    lemma_missing_errors_match_count(refs);
}

/// There is one reference error per missing reference.
pub proof fn lemma_missing_errors_match_count(refs: Seq<BundleReferenceCheck>)
    ensures
        missing_reference_errors(refs).len() == missing_reference_count(refs),
        (missing_reference_count(refs) == 0) <==> forall|i: int| 0 <= i < refs.len() ==> #[trigger] refs[i].exists,
    decreases refs.len(),
{
    if refs.len() > 0 {
        lemma_missing_errors_match_count(refs.drop_last());
        if missing_reference_count(refs) == 0 {
            assert forall|i: int| 0 <= i < refs.len() implies #[trigger] refs[i].exists by {
                if i < refs.len() - 1 {
                    assert(refs.drop_last()[i] == refs[i]);
                }
            }
        }
        if forall|i: int| 0 <= i < refs.len() ==> #[trigger] refs[i].exists {
            assert forall|i: int| 0 <= i < refs.drop_last().len() implies #[trigger] refs.drop_last()[i].exists by {
                assert(refs.drop_last()[i] == refs[i]);
            }
            assert(refs[refs.len() - 1].exists);
        }
    }
}

/// The shape of a parsed JSON value: an array or an object with its number of
/// entries, null, or any other value.
#[derive(Debug, Clone, Copy, PartialEq, Eq, Structural)]
pub enum JsonShape {
    Array { len: usize },
    Object { len: usize },
    Null,
    Scalar,
}

/// What a bundle says of one stored browser artifact (cookies, local or session
/// storage) of a session binding.
#[derive(Debug, Clone)]
pub struct DesktopSessionBundleArtifactSummary {
    /// Whether the stored text is JSON.
    pub present: bool,
    /// The entries of an array or object, 0 for null or nothing, 1 otherwise.
    pub item_count: i64,
    /// Whether the bundle carries the payload itself.
    pub included: bool,
    /// The payload's JSON text, where it is carried.
    pub value: Option<String>,
}

/// The number of items a parsed artifact counts as.
pub open spec fn artifact_item_count(shape: Option<JsonShape>) -> int {
    match shape {
        Some(JsonShape::Array { len }) => if len <= i64::MAX { len as int } else { i64::MAX as int },
        Some(JsonShape::Object { len }) => if len <= i64::MAX { len as int } else { i64::MAX as int },
        Some(JsonShape::Scalar) => 1,
        _ => 0,
    }
}

fn saturating_count(len: usize) -> (n: i64)
    ensures
        n == if len <= i64::MAX { len as int } else { i64::MAX as int },
{
    if (len as u64) <= 9223372036854775807u64 {
        len as i64
    } else {
        9223372036854775807i64
    }
}

/// The summary of a stored artifact whose text `raw` parsed to `shape` (`None`
/// where there is no text or it is not JSON): present and counted when it
/// parsed, its text carried only where sensitive payloads are included.
pub fn artifact_summary_from_shape(raw: Option<String>, shape: Option<JsonShape>, include_sensitive_payloads: bool) -> (s: DesktopSessionBundleArtifactSummary)
    ensures
        s.present == shape.is_some(),
        s.item_count == artifact_item_count(shape),
        s.included == (include_sensitive_payloads && shape.is_some()),
        opt_view(s.value) == if include_sensitive_payloads && shape.is_some() { opt_view(raw) } else { None },
{
    let item_count = match shape {
        Some(JsonShape::Array { len }) => saturating_count(len),
        Some(JsonShape::Object { len }) => saturating_count(len),
        Some(JsonShape::Scalar) => 1,
        _ => 0,
    };
    let present = shape.is_some();
    let included = include_sensitive_payloads && present;
    DesktopSessionBundleArtifactSummary {
        present,
        item_count,
        included,
        value: if included { raw } else { None },
    }
}

/// Whether `s` summarizes a stored artifact text `raw`: the text is parsed as
/// JSON, and the summary is the one [`artifact_summary_from_shape`] makes of
/// that parse.
pub open spec fn is_artifact_summary_of(s: DesktopSessionBundleArtifactSummary, raw: Option<String>, include_sensitive_payloads: bool) -> bool {
    let shape = match raw {
        Some(text) => json_text_shape(text@),
        None => None,
    };
    &&& s.present == shape.is_some()
    &&& s.item_count == artifact_item_count(shape)
    &&& s.included == (include_sensitive_payloads && shape.is_some())
    &&& opt_view(s.value) == if include_sensitive_payloads && shape.is_some() { opt_view(raw) } else { None }
}

/// The summary of a stored artifact.
pub fn parsed_json_artifact_summary(raw: Option<String>, include_sensitive_payloads: bool) -> (s: DesktopSessionBundleArtifactSummary)
    ensures
        is_artifact_summary_of(s, raw, include_sensitive_payloads),
{
    let shape = match &raw {
        Some(text) => parse_json_shape(text.as_str()),
        None => None,
    };
    artifact_summary_from_shape(raw, shape, include_sensitive_payloads)
}

/// A stored session binding of a profile, as an export reads it.
#[derive(Debug, Clone)]
pub struct SessionBindingRow {
    pub session_key: String,
    pub proxy_id: String,
    pub provider: Option<String>,
    pub region: Option<String>,
    pub site_key: Option<String>,
    pub requested_region: Option<String>,
    pub requested_provider: Option<String>,
    pub cookies_json: Option<String>,
    pub cookie_updated_at: Option<String>,
    pub local_storage_json: Option<String>,
    pub session_storage_json: Option<String>,
    pub storage_updated_at: Option<String>,
    pub last_success_at: Option<String>,
    pub last_failure_at: Option<String>,
    pub last_used_at: String,
    pub expires_at: Option<String>,
    pub created_at: String,
    pub updated_at: String,
}

/// A session binding as a bundle carries it.
#[derive(Debug, Clone)]
pub struct DesktopSessionBundleSessionBinding {
    pub session_key: String,
    pub proxy_id: String,
    pub provider: Option<String>,
    pub region: Option<String>,
    pub site_key: Option<String>,
    pub requested_region: Option<String>,
    pub requested_provider: Option<String>,
    pub cookies: DesktopSessionBundleArtifactSummary,
    pub local_storage: DesktopSessionBundleArtifactSummary,
    pub session_storage: DesktopSessionBundleArtifactSummary,
    pub cookie_updated_at: Option<String>,
    pub storage_updated_at: Option<String>,
    pub last_success_at: Option<String>,
    pub last_failure_at: Option<String>,
    pub last_used_at: String,
    pub expires_at: Option<String>,
    pub created_at: String,
    pub updated_at: String,
}

/// The binding a bundle carries for a stored one: its columns as stored and
/// a summary of each of its cookies, local storage and session storage, whose
/// payload is carried only where sensitive payloads are included.
pub fn session_binding_from_row(row: SessionBindingRow, include_sensitive_payloads: bool) -> (b: DesktopSessionBundleSessionBinding)
    ensures
        b.session_key@ == row.session_key@,
        b.proxy_id@ == row.proxy_id@,
        opt_view(b.provider) == opt_view(row.provider),
        opt_view(b.region) == opt_view(row.region),
        opt_view(b.site_key) == opt_view(row.site_key),
        opt_view(b.requested_region) == opt_view(row.requested_region),
        opt_view(b.requested_provider) == opt_view(row.requested_provider),
        is_artifact_summary_of(b.cookies, row.cookies_json, include_sensitive_payloads),
        is_artifact_summary_of(b.local_storage, row.local_storage_json, include_sensitive_payloads),
        is_artifact_summary_of(b.session_storage, row.session_storage_json, include_sensitive_payloads),
        opt_view(b.cookie_updated_at) == opt_view(row.cookie_updated_at),
        opt_view(b.storage_updated_at) == opt_view(row.storage_updated_at),
        opt_view(b.last_success_at) == opt_view(row.last_success_at),
        opt_view(b.last_failure_at) == opt_view(row.last_failure_at),
        b.last_used_at@ == row.last_used_at@,
        opt_view(b.expires_at) == opt_view(row.expires_at),
        b.created_at@ == row.created_at@,
        b.updated_at@ == row.updated_at@,
{
    DesktopSessionBundleSessionBinding {
        session_key: row.session_key,
        proxy_id: row.proxy_id,
        provider: row.provider,
        region: row.region,
        site_key: row.site_key,
        requested_region: row.requested_region,
        requested_provider: row.requested_provider,
        cookies: parsed_json_artifact_summary(row.cookies_json, include_sensitive_payloads),
        local_storage: parsed_json_artifact_summary(row.local_storage_json, include_sensitive_payloads),
        session_storage: parsed_json_artifact_summary(row.session_storage_json, include_sensitive_payloads),
        cookie_updated_at: row.cookie_updated_at,
        storage_updated_at: row.storage_updated_at,
        last_success_at: row.last_success_at,
        last_failure_at: row.last_failure_at,
        last_used_at: row.last_used_at,
        expires_at: row.expires_at,
        created_at: row.created_at,
        updated_at: row.updated_at,
    }
}

/// The payload text a restore writes back for an artifact: the carried
/// payload, only where the bundle carries it.
pub fn session_bundle_artifact_json(summary: &DesktopSessionBundleArtifactSummary) -> (r: Option<String>)
    ensures
        opt_view(r) == if summary.included { opt_view(summary.value) } else { None },
{
    if !summary.included {
        return None;
    }
    copy_opt(&summary.value)
}

} // verus!
