//! Creating and updating profiles: the values a new profile starts with, how
//! an update merges into the stored profile, and the references each must
//! find in the store.
use vstd::prelude::*;

use super::types::{DesktopCreateProfileInput, DesktopUpdateProfileInput};
use crate::text::{concat3, opt_view, owned};

verus! {

/// The stored values of a profile.
#[derive(Debug, Clone)]
pub struct ProfileRecordFields {
    pub store_id: String,
    pub platform_id: String,
    pub device_family: String,
    pub country_anchor: String,
    pub region_anchor: Option<String>,
    pub locale: String,
    pub timezone: String,
    pub fingerprint_profile_id: String,
    pub behavior_profile_id: Option<String>,
    pub network_policy_id: String,
    pub continuity_policy_id: String,
    pub credential_ref: Option<String>,
    pub status: String,
}

/// The given value when there is one, else the stored one.
pub open spec fn given_or_stored(given: Option<String>, stored: Seq<char>) -> Seq<char> {
    match given {
        Some(g) => g@,
        None => stored,
    }
}

/// The given optional value when there is one, else the stored one.
pub open spec fn given_or_stored_opt(given: Option<String>, stored: Option<String>) -> Option<Seq<char>> {
    match given {
        Some(g) => Some(g@),
        None => opt_view(stored),
    }
}

/// The values a new profile is stored with: a missing device family is
/// `desktop`, a missing status `active`.
pub fn new_profile_fields(input: DesktopCreateProfileInput) -> (f: ProfileRecordFields)
    ensures
        f.store_id@ == input.store_id@,
        f.platform_id@ == input.platform_id@,
        f.device_family@ == given_or_stored(input.device_family, "desktop"@),
        f.country_anchor@ == input.country_anchor@,
        opt_view(f.region_anchor) == opt_view(input.region_anchor),
        f.locale@ == input.locale@,
        f.timezone@ == input.timezone@,
        f.fingerprint_profile_id@ == input.fingerprint_profile_id@,
        opt_view(f.behavior_profile_id) == opt_view(input.behavior_profile_id),
        f.network_policy_id@ == input.network_policy_id@,
        f.continuity_policy_id@ == input.continuity_policy_id@,
        opt_view(f.credential_ref) == opt_view(input.credential_ref),
        f.status@ == given_or_stored(input.status, "active"@),
{
    ProfileRecordFields {
        store_id: input.store_id,
        platform_id: input.platform_id,
        device_family: match input.device_family {
            Some(d) => d,
            None => owned("desktop"),
        },
        country_anchor: input.country_anchor,
        region_anchor: input.region_anchor,
        locale: input.locale,
        timezone: input.timezone,
        fingerprint_profile_id: input.fingerprint_profile_id,
        behavior_profile_id: input.behavior_profile_id,
        network_policy_id: input.network_policy_id,
        continuity_policy_id: input.continuity_policy_id,
        credential_ref: input.credential_ref,
        status: match input.status {
            Some(s) => s,
            None => owned("active"),
        },
    }
}

fn pick(given: Option<String>, stored: String) -> (r: String)
    ensures
        r@ == given_or_stored(given, stored@),
{
    match given {
        Some(g) => g,
        None => stored,
    }
}

fn pick_opt(given: Option<String>, stored: Option<String>) -> (r: Option<String>)
    ensures
        opt_view(r) == given_or_stored_opt(given, stored),
{
    match given {
        Some(g) => Some(g),
        None => stored,
    }
}

/// Whether `m` is the stored profile `s` with the update `u` applied.
pub open spec fn merged_profile(u: DesktopUpdateProfileInput, s: ProfileRecordFields, m: ProfileRecordFields) -> bool {
    &&& m.store_id@ == given_or_stored(u.store_id, s.store_id@)
    &&& m.platform_id@ == given_or_stored(u.platform_id, s.platform_id@)
    &&& m.device_family@ == given_or_stored(u.device_family, s.device_family@)
    &&& m.country_anchor@ == given_or_stored(u.country_anchor, s.country_anchor@)
    &&& opt_view(m.region_anchor) == given_or_stored_opt(u.region_anchor, s.region_anchor)
    &&& m.locale@ == given_or_stored(u.locale, s.locale@)
    &&& m.timezone@ == given_or_stored(u.timezone, s.timezone@)
    &&& m.fingerprint_profile_id@ == given_or_stored(u.fingerprint_profile_id, s.fingerprint_profile_id@)
    &&& opt_view(m.behavior_profile_id) == given_or_stored_opt(u.behavior_profile_id, s.behavior_profile_id)
    &&& m.network_policy_id@ == given_or_stored(u.network_policy_id, s.network_policy_id@)
    &&& m.continuity_policy_id@ == given_or_stored(u.continuity_policy_id, s.continuity_policy_id@)
    &&& opt_view(m.credential_ref) == given_or_stored_opt(u.credential_ref, s.credential_ref)
    &&& m.status@ == given_or_stored(u.status, s.status@)
}

/// The stored profile with an update applied: each field the update gives
/// replaces the stored one.
pub fn merge_profile_update(input: DesktopUpdateProfileInput, stored: ProfileRecordFields) -> (m: ProfileRecordFields)
    ensures
        merged_profile(input, stored, m),
{
    ProfileRecordFields {
        store_id: pick(input.store_id, stored.store_id),
        platform_id: pick(input.platform_id, stored.platform_id),
        device_family: pick(input.device_family, stored.device_family),
        country_anchor: pick(input.country_anchor, stored.country_anchor),
        region_anchor: pick_opt(input.region_anchor, stored.region_anchor),
        locale: pick(input.locale, stored.locale),
        timezone: pick(input.timezone, stored.timezone),
        fingerprint_profile_id: pick(input.fingerprint_profile_id, stored.fingerprint_profile_id),
        behavior_profile_id: pick_opt(input.behavior_profile_id, stored.behavior_profile_id),
        network_policy_id: pick(input.network_policy_id, stored.network_policy_id),
        continuity_policy_id: pick(input.continuity_policy_id, stored.continuity_policy_id),
        credential_ref: pick_opt(input.credential_ref, stored.credential_ref),
        status: pick(input.status, stored.status),
    }
}

/// A reference of a profile to a row of another table.
#[derive(Debug, Clone)]
pub struct ProfileReference {
    pub table: String,
    pub id: String,
}

/// The references a profile must find, checked in this order: its
/// fingerprint profile, network policy and continuity policy, then its
/// behavior profile where it names one.
pub open spec fn profile_reference_list(f: ProfileRecordFields) -> Seq<(Seq<char>, Seq<char>)> {
    let base = seq![
        ("fingerprint_profiles"@, f.fingerprint_profile_id@),
        ("network_policies"@, f.network_policy_id@),
        ("continuity_policies"@, f.continuity_policy_id@),
    ];
    match f.behavior_profile_id {
        Some(b) => base.push(("behavior_profiles"@, b@)),
        None => base,
    }
}

/// The pairs of table and id of references.
pub open spec fn references_view(v: Seq<ProfileReference>) -> Seq<(Seq<char>, Seq<char>)> {
    Seq::new(v.len(), |i: int| (v[i].table@, v[i].id@))
}

/// The references a profile must find in the store.
pub fn profile_references(fields: &ProfileRecordFields) -> (r: Vec<ProfileReference>)
    ensures
        references_view(r@) == profile_reference_list(*fields),
{
    let mut r: Vec<ProfileReference> = Vec::new();
    r.push(ProfileReference { table: owned("fingerprint_profiles"), id: owned(fields.fingerprint_profile_id.as_str()) });
    r.push(ProfileReference { table: owned("network_policies"), id: owned(fields.network_policy_id.as_str()) });
    r.push(ProfileReference { table: owned("continuity_policies"), id: owned(fields.continuity_policy_id.as_str()) });
    if let Some(b) = &fields.behavior_profile_id {
        r.push(ProfileReference { table: owned("behavior_profiles"), id: owned(b.as_str()) });
    }
    assert(references_view(r@) =~= profile_reference_list(*fields));
    r
}

/// Why a profile edit was refused.
#[derive(Debug, Clone)]
pub enum ProfileEditError {
    ProfileNotFound { id: String },
    ReferenceNotFound { table: String, id: String },
}

impl ProfileEditError {
    /// The message the refusal is reported with.
    pub fn message(&self) -> (m: String)
        ensures
            match self {
                ProfileEditError::ProfileNotFound { id } => m@ == "profile not found: "@ + id@,
                ProfileEditError::ReferenceNotFound { table, id } => m@ == table@ + " not found: "@ + id@,
            },
    {
        match self {
            ProfileEditError::ProfileNotFound { id } => crate::text::concat2("profile not found: ", id.as_str()),
            ProfileEditError::ReferenceNotFound { table, id } => concat3(table.as_str(), " not found: ", id.as_str()),
        }
    }
}

/// The position of the first reference the store does not hold.
pub open spec fn first_missing(found: Seq<bool>) -> Option<int>
    decreases found.len(),
{
    if found.len() == 0 {
        None
    } else {
        match first_missing(found.drop_last()) {
            Some(k) => Some(k),
            None => if found.last() {
                None
            } else {
                Some(found.len() - 1)
            },
        }
    }
}

/// Refuses an edit at the first reference the store does not hold
/// (`found[i]` tells whether it holds `refs[i]`).
pub fn check_profile_references(refs: &Vec<ProfileReference>, found: &Vec<bool>) -> (r: Result<(), ProfileEditError>)
    requires
        refs@.len() == found@.len(),
    ensures
        match first_missing(found@) {
            None => r is Ok,
            Some(k) => r matches Err(ProfileEditError::ReferenceNotFound { table, id }) && table@ == refs@[k].table@
                && id@ == refs@[k].id@,
        },
{
    let mut i: usize = 0;
    while i < found.len()
        invariant
            i <= found@.len(),
            refs@.len() == found@.len(),
            first_missing(found@.subrange(0, i as int)) is None,
        decreases found@.len() - i,
    {
        proof {
            let sub = found@.subrange(0, i as int + 1);
            assert(sub.drop_last() =~= found@.subrange(0, i as int));
        }
        if !found[i] {
            proof {
                lemma_first_missing_prefix(found@, i as int);
            }
            return Err(
                ProfileEditError::ReferenceNotFound {
                    table: owned(refs[i].table.as_str()),
                    id: owned(refs[i].id.as_str()),
                },
            );
        }
        i = i + 1;
    }
    assert(found@.subrange(0, i as int) =~= found@);
    Ok(())
}

proof fn lemma_first_missing_prefix(found: Seq<bool>, i: int)
    requires
        0 <= i < found.len(),
        first_missing(found.subrange(0, i)) is None,
        !found[i],
    ensures
        first_missing(found) == Some(i),
    decreases found.len(),
{
    if found.len() - 1 == i {
        assert(found.drop_last() =~= found.subrange(0, i));
    } else {
        assert(found.drop_last().subrange(0, i) =~= found.subrange(0, i));
        lemma_first_missing_prefix(found.drop_last(), i);
    }
}

/// An update that gives nothing leaves the stored profile as it is, and an
/// update applied twice stores what it stores once.
pub proof fn lemma_profile_update_laws(
    u: DesktopUpdateProfileInput,
    s: ProfileRecordFields,
    m1: ProfileRecordFields,
    m2: ProfileRecordFields,
)
    requires
        merged_profile(u, s, m1),
        merged_profile(u, m1, m2),
    ensures
        merged_profile(u, s, m2),
        (u.store_id is None && u.platform_id is None && u.device_family is None && u.country_anchor is None
            && u.region_anchor is None && u.locale is None && u.timezone is None && u.fingerprint_profile_id is None
            && u.behavior_profile_id is None && u.network_policy_id is None && u.continuity_policy_id is None
            && u.credential_ref is None && u.status is None) ==> (m1.store_id@ == s.store_id@ && m1.platform_id@
            == s.platform_id@ && m1.device_family@ == s.device_family@ && m1.country_anchor@ == s.country_anchor@
            && opt_view(m1.region_anchor) == opt_view(s.region_anchor) && m1.locale@ == s.locale@ && m1.timezone@
            == s.timezone@ && m1.fingerprint_profile_id@ == s.fingerprint_profile_id@ && opt_view(
            m1.behavior_profile_id,
        ) == opt_view(s.behavior_profile_id) && m1.network_policy_id@ == s.network_policy_id@
            && m1.continuity_policy_id@ == s.continuity_policy_id@ && opt_view(m1.credential_ref) == opt_view(
            s.credential_ref,
        ) && m1.status@ == s.status@),
{
}

} // verus!
