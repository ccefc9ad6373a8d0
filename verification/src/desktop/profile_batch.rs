//! Batch actions on profiles: which profiles a batch names, which linked
//! proxies a proxy check covers, and what the batch reports.
use vstd::prelude::*;

use super::workbench::{
    batch_ids, normalize_profile_batch_ids, DesktopProfileBatchActionKind, ProfileBaseRecord,
};
use super::types::DesktopProfileBatchActionRequest;
use crate::text::clone_strings;
use crate::numtext::{decimal_digits, u64_to_text};
use crate::text::{concat2, concat3, copy_opt, join_strings, joined, opt_view, owned, str_eq, strings_view};

verus! {

/// Why a batch action was refused.
#[derive(Debug, Clone)]
pub enum ProfileBatchError {
    NoProfileIds,
    ProfilesNotFound { ids: Vec<String> },
}

impl ProfileBatchError {
    /// The message the refusal is reported with.
    pub fn message(&self) -> (m: String)
        ensures
            match self {
                ProfileBatchError::NoProfileIds => m@ == "profile_ids must contain at least one profile id"@,
                ProfileBatchError::ProfilesNotFound { ids } => m@ == "profiles not found: "@ + joined(
                    strings_view(ids@),
                    ", "@,
                ),
            },
    {
        match self {
            ProfileBatchError::NoProfileIds => owned("profile_ids must contain at least one profile id"),
            ProfileBatchError::ProfilesNotFound { ids } => {
                let list = join_strings(ids, ", ");
                concat2("profiles not found: ", list.as_str())
            },
        }
    }
}

/// Whether two profile records hold the same values.
pub open spec fn same_profile(a: ProfileBaseRecord, b: ProfileBaseRecord) -> bool {
    &&& a.id@ == b.id@
    &&& a.store_id@ == b.store_id@
    &&& a.platform_id@ == b.platform_id@
    &&& a.device_family@ == b.device_family@
    &&& a.country_anchor@ == b.country_anchor@
    &&& opt_view(a.region_anchor) == opt_view(b.region_anchor)
    &&& a.locale@ == b.locale@
    &&& a.timezone@ == b.timezone@
    &&& a.fingerprint_profile_id@ == b.fingerprint_profile_id@
    &&& opt_view(a.behavior_profile_id) == opt_view(b.behavior_profile_id)
    &&& a.network_policy_id@ == b.network_policy_id@
    &&& a.continuity_policy_id@ == b.continuity_policy_id@
    &&& opt_view(a.credential_ref) == opt_view(b.credential_ref)
    &&& a.status@ == b.status@
    &&& a.created_at@ == b.created_at@
    &&& a.updated_at@ == b.updated_at@
    &&& strings_view(a.fingerprint_tags@) == strings_view(b.fingerprint_tags@)
    &&& strings_view(a.behavior_tags@) == strings_view(b.behavior_tags@)
}

/// A copy of a profile record.
pub fn copy_profile_record(p: &ProfileBaseRecord) -> (c: ProfileBaseRecord)
    ensures
        same_profile(c, *p),
{
    ProfileBaseRecord {
        id: owned(p.id.as_str()),
        store_id: owned(p.store_id.as_str()),
        platform_id: owned(p.platform_id.as_str()),
        device_family: owned(p.device_family.as_str()),
        country_anchor: owned(p.country_anchor.as_str()),
        region_anchor: copy_opt(&p.region_anchor),
        locale: owned(p.locale.as_str()),
        timezone: owned(p.timezone.as_str()),
        fingerprint_profile_id: owned(p.fingerprint_profile_id.as_str()),
        behavior_profile_id: copy_opt(&p.behavior_profile_id),
        network_policy_id: owned(p.network_policy_id.as_str()),
        continuity_policy_id: owned(p.continuity_policy_id.as_str()),
        credential_ref: copy_opt(&p.credential_ref),
        status: owned(p.status.as_str()),
        created_at: owned(p.created_at.as_str()),
        updated_at: owned(p.updated_at.as_str()),
        fingerprint_tags: clone_strings(&p.fingerprint_tags),
        behavior_tags: clone_strings(&p.behavior_tags),
    }
}

/// The position of the last stored profile with the id `id`, if any.
pub open spec fn last_profile_index(profiles: Seq<ProfileBaseRecord>, id: Seq<char>) -> Option<int>
    decreases profiles.len(),
{
    if profiles.len() == 0 {
        None
    } else if profiles.last().id@ == id {
        Some(profiles.len() - 1)
    } else {
        last_profile_index(profiles.drop_last(), id)
    }
}

/// The requested ids that no stored profile has, in order.
pub open spec fn unknown_ids(ids: Seq<Seq<char>>, profiles: Seq<ProfileBaseRecord>) -> Seq<Seq<char>>
    decreases ids.len(),
{
    if ids.len() == 0 {
        seq![]
    } else {
        let rest = unknown_ids(ids.drop_last(), profiles);
        if last_profile_index(profiles, ids.last()) is None {
            rest.push(ids.last())
        } else {
            rest
        }
    }
}

proof fn lemma_last_profile_index_bounds(profiles: Seq<ProfileBaseRecord>, id: Seq<char>)
    ensures
        last_profile_index(profiles, id) matches Some(k) ==> 0 <= k < profiles.len() && profiles[k].id@ == id,
    decreases profiles.len(),
{
    if profiles.len() > 0 && profiles.last().id@ != id {
        lemma_last_profile_index_bounds(profiles.drop_last(), id);
    }
}

fn find_last_profile(profiles: &Vec<ProfileBaseRecord>, id: &str) -> (r: Option<usize>)
    ensures
        match r {
            Some(k) => last_profile_index(profiles@, id@) == Some(k as int),
            None => last_profile_index(profiles@, id@) is None,
        },
{
    let mut i: usize = profiles.len();
    assert(profiles@.subrange(0, i as int) =~= profiles@);
    while i > 0
        invariant
            i <= profiles@.len(),
            last_profile_index(profiles@, id@) == last_profile_index(profiles@.subrange(0, i as int), id@),
        decreases i,
    {
        proof {
            let sub = profiles@.subrange(0, i as int);
            assert(sub.drop_last() =~= profiles@.subrange(0, i as int - 1));
            assert(sub.last() == profiles@[i as int - 1]);
        }
        if str_eq(profiles[i - 1].id.as_str(), id) {
            return Some(i - 1);
        }
        i = i - 1;
    }
    None
}

/// The profiles a batch acts on, in the order first named (by the last stored
/// record of each id); refused when the request names none, or names ids
/// that no stored profile has.
pub fn resolve_profile_batch_targets(
    request: &DesktopProfileBatchActionRequest,
    profiles: &Vec<ProfileBaseRecord>,
) -> (r: Result<Vec<ProfileBaseRecord>, ProfileBatchError>)
    ensures
        ({
            let ids = batch_ids(strings_view(request.profile_ids@));
            match r {
                Ok(targets) => {
                    &&& ids.len() > 0
                    &&& unknown_ids(ids, profiles@).len() == 0
                    &&& targets@.len() == ids.len()
                    &&& forall|i: int| 0 <= i < ids.len() ==> (last_profile_index(profiles@, #[trigger] ids[i]) matches Some(
                        k,
                    ) && same_profile(targets@[i], profiles@[k]))
                },
                Err(ProfileBatchError::NoProfileIds) => ids.len() == 0,
                Err(ProfileBatchError::ProfilesNotFound { ids: missing }) => ids.len() > 0 && unknown_ids(
                    ids,
                    profiles@,
                ).len() > 0 && strings_view(missing@) == unknown_ids(ids, profiles@),
            }
        }),
{
    let ids = normalize_profile_batch_ids(request);
    let ghost sids = batch_ids(strings_view(request.profile_ids@));
    if ids.len() == 0 {
        return Err(ProfileBatchError::NoProfileIds);
    }
    let mut missing: Vec<String> = Vec::new();
    let mut targets: Vec<ProfileBaseRecord> = Vec::new();
    let mut i: usize = 0;
    while i < ids.len()
        invariant
            i <= ids@.len(),
            strings_view(ids@) == sids,
            strings_view(missing@) == unknown_ids(sids.subrange(0, i as int), profiles@),
            missing@.len() == 0 ==> targets@.len() == i,
            missing@.len() == 0 ==> forall|j: int| 0 <= j < i ==> (last_profile_index(profiles@, #[trigger] sids[j]) matches Some(
                k,
            ) && same_profile(targets@[j], profiles@[k])),
        decreases ids@.len() - i,
    {
        proof {
            let sub = sids.subrange(0, i as int + 1);
            assert(sub.drop_last() =~= sids.subrange(0, i as int));
            assert(sub.last() == sids[i as int]);
            assert(sids[i as int] == ids@[i as int]@);
        }
        match find_last_profile(profiles, ids[i].as_str()) {
            Some(k) => {
                proof {
                    lemma_last_profile_index_bounds(profiles@, ids@[i as int]@);
                }
                if missing.len() == 0 {
                    let c = copy_profile_record(&profiles[k]);
                    targets.push(c);
                }
            },
            None => {
                let ghost before = missing@;
                missing.push(owned(ids[i].as_str()));
                proof {
                    assert(strings_view(missing@) =~= strings_view(before).push(ids@[i as int]@));
                }
            },
        }
        i = i + 1;
    }
    proof {
        assert(sids.subrange(0, i as int) =~= sids);
    }
    if missing.len() > 0 {
        Err(ProfileBatchError::ProfilesNotFound { ids: missing })
    } else {
        Ok(targets)
    }
}

/// The distinct entries of `s`, each where it first occurs.
pub open spec fn first_occurrences(s: Seq<Seq<char>>) -> Seq<Seq<char>>
    decreases s.len(),
{
    if s.len() == 0 {
        seq![]
    } else {
        let rest = first_occurrences(s.drop_last());
        if rest.contains(s.last()) {
            rest
        } else {
            rest.push(s.last())
        }
    }
}

/// The lists of ids one after another.
pub open spec fn flatten_ids(per_profile: Seq<Vec<String>>) -> Seq<Seq<char>>
    decreases per_profile.len(),
{
    if per_profile.len() == 0 {
        seq![]
    } else {
        flatten_ids(per_profile.drop_last()) + strings_view(per_profile.last()@)
    }
}

proof fn lemma_first_occurrences_push(s: Seq<Seq<char>>, x: Seq<char>)
    ensures
        first_occurrences(s.push(x)) == if first_occurrences(s).contains(x) {
            first_occurrences(s)
        } else {
            first_occurrences(s).push(x)
        },
{
    assert(s.push(x).drop_last() =~= s);
}

/// The proxies linked to the profiles of a batch, each once, in the order
/// first linked.
pub fn merge_linked_proxy_ids(per_profile: &Vec<Vec<String>>) -> (r: Vec<String>)
    ensures
        strings_view(r@) == first_occurrences(flatten_ids(per_profile@)),
{
    let mut out: Vec<String> = Vec::new();
    let mut i: usize = 0;
    while i < per_profile.len()
        invariant
            i <= per_profile@.len(),
            strings_view(out@) == first_occurrences(flatten_ids(per_profile@.subrange(0, i as int))),
        decreases per_profile@.len() - i,
    {
        let ghost done = flatten_ids(per_profile@.subrange(0, i as int));
        proof {
            let sub = per_profile@.subrange(0, i as int + 1);
            assert(sub.drop_last() =~= per_profile@.subrange(0, i as int));
            assert(sub.last() == per_profile@[i as int]);
        }
        let list = &per_profile[i];
        let mut j: usize = 0;
        while j < list.len()
            invariant
                j <= list@.len(),
                strings_view(out@) == first_occurrences(done + strings_view(list@).subrange(0, j as int)),
            decreases list@.len() - j,
        {
            proof {
                let pre = done + strings_view(list@).subrange(0, j as int);
                assert(done + strings_view(list@).subrange(0, j as int + 1) =~= pre.push(list@[j as int]@));
                lemma_first_occurrences_push(pre, list@[j as int]@);
            }
            if !crate::text::string_in_list(list[j].as_str(), &out) {
                let ghost before = out@;
                out.push(owned(list[j].as_str()));
                proof {
                    assert(strings_view(out@) =~= strings_view(before).push(list@[j as int]@));
                }
            }
            j = j + 1;
        }
        proof {
            assert(strings_view(list@).subrange(0, j as int) =~= strings_view(list@));
        }
        i = i + 1;
    }
    proof {
        assert(per_profile@.subrange(0, i as int) =~= per_profile@);
    }
    out
}

/// The message a batch action reports for `profile_count` profiles; a proxy
/// check also names the linked proxies and the batch it staged, or says that
/// it found none.
pub open spec fn batch_message(
    kind: DesktopProfileBatchActionKind,
    profile_count: nat,
    proxy_count: nat,
    verify_batch_id: Option<Seq<char>>,
) -> Seq<char> {
    let n = decimal_digits(profile_count);
    match kind {
        DesktopProfileBatchActionKind::Start => "Recorded desktop start action for "@ + n + " profiles."@,
        DesktopProfileBatchActionKind::Stop => "Recorded desktop stop action for "@ + n + " profiles."@,
        DesktopProfileBatchActionKind::Open => "Recorded desktop open action for "@ + n + " profiles."@,
        DesktopProfileBatchActionKind::Sync => "Recorded desktop sync action for "@ + n + " profiles."@,
        DesktopProfileBatchActionKind::CheckProxy => match verify_batch_id {
            Some(b) => "Requested proxy verification for "@ + n + " profiles across "@ + decimal_digits(
                proxy_count,
            ) + " linked proxies (batch "@ + b + ")."@,
            None => "Recorded proxy verification request for "@ + n
                + " profiles, but no linked proxies were found."@,
        },
    }
}

/// The message a batch action reports.
pub fn profile_batch_message(
    kind: DesktopProfileBatchActionKind,
    profile_count: usize,
    proxy_count: usize,
    verify_batch_id: &Option<String>,
) -> (m: String)
    ensures
        m@ == batch_message(kind, profile_count as nat, proxy_count as nat, opt_view(*verify_batch_id)),
{
    let n = u64_to_text(profile_count as u64);
    match kind {
        DesktopProfileBatchActionKind::Start => concat3(
            "Recorded desktop start action for ",
            n.as_str(),
            " profiles.",
        ),
        DesktopProfileBatchActionKind::Stop => concat3(
            "Recorded desktop stop action for ",
            n.as_str(),
            " profiles.",
        ),
        DesktopProfileBatchActionKind::Open => concat3(
            "Recorded desktop open action for ",
            n.as_str(),
            " profiles.",
        ),
        DesktopProfileBatchActionKind::Sync => concat3(
            "Recorded desktop sync action for ",
            n.as_str(),
            " profiles.",
        ),
        DesktopProfileBatchActionKind::CheckProxy => match verify_batch_id {
            Some(b) => {
                let p = u64_to_text(proxy_count as u64);
                let a = concat3("Requested proxy verification for ", n.as_str(), " profiles across ");
                let c = concat3(a.as_str(), p.as_str(), " linked proxies (batch ");
                concat3(c.as_str(), b.as_str(), ").")
            },
            None => concat3(
                "Recorded proxy verification request for ",
                n.as_str(),
                " profiles, but no linked proxies were found.",
            ),
        },
    }
}

/// A proxy check covers each linked proxy exactly once: every proxy linked to
/// a profile of the batch is covered, nothing else is, and none twice.
pub proof fn lemma_linked_proxies_each_once(s: Seq<Seq<char>>)
    ensures
        forall|x: Seq<char>| #[trigger] first_occurrences(s).contains(x) <==> s.contains(x),
        forall|i: int, j: int|
            0 <= i < j < first_occurrences(s).len() ==> #[trigger] first_occurrences(s)[i]
                != #[trigger] first_occurrences(s)[j],
    decreases s.len(),
{
    if s.len() > 0 {
        let pre = s.drop_last();
        lemma_linked_proxies_each_once(pre);
        assert(s =~= pre.push(s.last()));
        let r = first_occurrences(pre);
        assert forall|x: Seq<char>| #[trigger] first_occurrences(s).contains(x) <==> s.contains(x) by {
            if s.contains(x) && x != s.last() {
                let k = choose|k: int| 0 <= k < s.len() && s[k] == x;
                assert(pre[k] == x);
            }
            if pre.contains(x) {
                let k = choose|k: int| 0 <= k < pre.len() && pre[k] == x;
                assert(s[k] == x);
            }
            if !r.contains(s.last()) {
                assert(r.push(s.last())[r.len() as int] == s.last());
                if r.push(s.last()).contains(x) && x != s.last() {
                    let k = choose|k: int| 0 <= k < r.push(s.last()).len() && r.push(s.last())[k] == x;
                    assert(r[k] == x);
                }
                if r.contains(x) {
                    let k = choose|k: int| 0 <= k < r.len() && r[k] == x;
                    assert(r.push(s.last())[k] == x);
                }
            }
            assert(s[s.len() - 1] == s.last());
        }
    }
}

} // verus!
