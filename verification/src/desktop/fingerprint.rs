//! The fingerprint part of a profile's detail: which declared control fields
//! the runtime supports, how consistent the fingerprint is with the network
//! it runs behind, and the validation issues in one line each.
use vstd::prelude::*;

use super::types::DesktopFingerprintRuntimeSupportSummary;
use crate::text::{is_blank, join_strings, joined, owned, string_in_list, strings_view, trim};

verus! {

/// The fields of `declared` that `supported` lists (when `keep` holds) or does
/// not list (otherwise), in the order of `declared`.
pub open spec fn fields_where(declared: Seq<Seq<char>>, supported: Seq<Seq<char>>, keep: bool) -> Seq<Seq<char>>
    decreases declared.len(),
{
    if declared.len() == 0 {
        Seq::empty()
    } else {
        let prev = fields_where(declared.drop_last(), supported, keep);
        if supported.contains(declared.last()) == keep {
            prev.push(declared.last())
        } else {
            prev
        }
    }
}

proof fn lemma_fields_where_partition(declared: Seq<Seq<char>>, supported: Seq<Seq<char>>)
    ensures
        fields_where(declared, supported, true).len() + fields_where(declared, supported, false).len() == declared.len(),
    decreases declared.len(),
{
    if declared.len() > 0 {
        lemma_fields_where_partition(declared.drop_last(), supported);
    }
}

/// The declared control fields split into those the runtime supports and the
/// rest, each in declaration order, with their counts; every declared field
/// lands in exactly one of the two lists.
pub fn fingerprint_runtime_support(declared: &Vec<String>, runtime_supported: &Vec<String>) -> (s: DesktopFingerprintRuntimeSupportSummary)
    ensures
        strings_view(s.supported_fields@) == fields_where(strings_view(declared@), strings_view(runtime_supported@), true),
        strings_view(s.unsupported_fields@) == fields_where(strings_view(declared@), strings_view(runtime_supported@), false),
        s.supported_count == s.supported_fields@.len(),
        s.unsupported_count == s.unsupported_fields@.len(),
        s.supported_count + s.unsupported_count == declared@.len(),
{
    let ghost dv = strings_view(declared@);
    let ghost sv = strings_view(runtime_supported@);
    let mut supported_fields: Vec<String> = Vec::new();
    let mut unsupported_fields: Vec<String> = Vec::new();
    let mut i: usize = 0;
    proof {
        assert(dv.subrange(0, 0) =~= Seq::<Seq<char>>::empty());
        assert(strings_view(supported_fields@) =~= Seq::<Seq<char>>::empty());
        assert(strings_view(unsupported_fields@) =~= Seq::<Seq<char>>::empty());
    }
    while i < declared.len()
        invariant
            dv == strings_view(declared@),
            sv == strings_view(runtime_supported@),
            i <= declared@.len(),
            strings_view(supported_fields@) == fields_where(dv.subrange(0, i as int), sv, true),
            strings_view(unsupported_fields@) == fields_where(dv.subrange(0, i as int), sv, false),
        decreases declared@.len() - i,
    {
        let ghost prev_s = supported_fields@;
        let ghost prev_u = unsupported_fields@;
        proof {
            assert(dv.subrange(0, i + 1).drop_last() =~= dv.subrange(0, i as int));
            assert(dv.subrange(0, i + 1).last() == declared@[i as int]@);
        }
        let field = owned(declared[i].as_str());
        if string_in_list(declared[i].as_str(), runtime_supported) {
            supported_fields.push(field);
            proof {
                assert(strings_view(supported_fields@) =~= strings_view(prev_s).push(declared@[i as int]@));
            }
        } else {
            unsupported_fields.push(field);
            proof {
                assert(strings_view(unsupported_fields@) =~= strings_view(prev_u).push(declared@[i as int]@));
            }
        }
        i = i + 1;
    }
    proof {
        assert(dv.subrange(0, i as int) =~= dv);
        lemma_fields_where_partition(dv, sv);
        assert(strings_view(supported_fields@).len() == supported_fields@.len());
        assert(strings_view(unsupported_fields@).len() == unsupported_fields@.len());
    }
    let supported_count = supported_fields.len();
    let unsupported_count = unsupported_fields.len();
    DesktopFingerprintRuntimeSupportSummary { supported_fields, unsupported_fields, supported_count, unsupported_count }
}

/// How a fingerprint sits with the network it runs behind.
#[derive(Debug, Clone, Copy, PartialEq, Eq, Structural)]
pub enum ConsistencyStatus {
    ExactMatch,
    SoftMatch,
    Mismatch,
    MissingContext,
    SuspiciousCombination,
}

pub open spec fn consistency_status_text(s: ConsistencyStatus) -> Seq<char> {
    match s {
        ConsistencyStatus::ExactMatch => "exact_match"@,
        ConsistencyStatus::SoftMatch => "soft_match"@,
        ConsistencyStatus::Mismatch => "mismatch"@,
        ConsistencyStatus::MissingContext => "missing_context"@,
        ConsistencyStatus::SuspiciousCombination => "suspicious_combination"@,
    }
}

/// The name a consistency status is shown with.
pub fn consistency_status_name(s: ConsistencyStatus) -> (name: String)
    ensures
        name@ == consistency_status_text(s),
{
    match s {
        ConsistencyStatus::ExactMatch => owned("exact_match"),
        ConsistencyStatus::SoftMatch => owned("soft_match"),
        ConsistencyStatus::Mismatch => owned("mismatch"),
        ConsistencyStatus::MissingContext => owned("missing_context"),
        ConsistencyStatus::SuspiciousCombination => owned("suspicious_combination"),
    }
}

/// The parts of an issue that are not blank, in order.
pub open spec fn nonblank_parts(parts: Seq<Seq<char>>) -> Seq<Seq<char>>
    decreases parts.len(),
{
    if parts.len() == 0 {
        Seq::empty()
    } else {
        let prev = nonblank_parts(parts.drop_last());
        if trim(parts.last()).len() == 0 {
            prev
        } else {
            prev.push(parts.last())
        }
    }
}

/// A validation issue in one line: its field, level and message, the blank
/// ones left out, joined by ` | `.
pub fn validation_issue_text(field: &str, level: &str, message: &str) -> (line: String)
    ensures
        line@ == joined(nonblank_parts(seq![field@, level@, message@]), " | "@),
{
    let mut parts: Vec<String> = Vec::new();
    if !is_blank(field) {
        parts.push(owned(field));
    }
    let ghost after_field = parts@;
    if !is_blank(level) {
        parts.push(owned(level));
    }
    let ghost after_level = parts@;
    if !is_blank(message) {
        parts.push(owned(message));
    }
    proof {
        let all = seq![field@, level@, message@];
        assert(all.drop_last().drop_last().drop_last() =~= Seq::<Seq<char>>::empty());
        assert(all.drop_last().drop_last() =~= seq![field@]);
        assert(all.drop_last() =~= seq![field@, level@]);
        assert(seq![field@].drop_last() =~= Seq::<Seq<char>>::empty());
        assert(seq![field@, level@].drop_last() =~= seq![field@]);
        assert(seq![field@].last() == field@);
        assert(seq![field@, level@].last() == level@);
        assert(all.last() == message@);
        assert(nonblank_parts(Seq::<Seq<char>>::empty()) =~= Seq::<Seq<char>>::empty());
        assert(strings_view(after_field) =~= nonblank_parts(seq![field@]));
        assert(strings_view(after_level) =~= nonblank_parts(seq![field@, level@]));
        assert(strings_view(parts@) =~= nonblank_parts(all));
    }
    join_strings(&parts, " | ")
}

} // verus!
