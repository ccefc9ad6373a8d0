//! The profile list: which stored profiles a query selects, and which of them
//! a page shows.
use vstd::prelude::*;

use super::pages::{
    normalized_filter, page_number, page_of_positions, page_size_within, page_slice, passes, query_filter,
    query_search, search_hits, search_hits_texts, trimmed_search, value_passes,
};
use super::types::DesktopProfilePageQuery;
use super::workbench::{
    collect_tags, filter_form, matches_any_filter, any_passes_filter, passes_filter, sanitize_page,
    sanitize_page_size, tag_set, ProfileBaseRecord,
};
use crate::text::clone_strings;
use crate::text::{join_strings, joined, lemma_sorted_set_unique, opt_view, owned, strictly_sorted, strings_view, trim};

verus! {

/// The tags of a profile: those of its fingerprint and of its behavior,
/// trimmed, without empties and duplicates, in text order.
pub open spec fn profile_tags(b: ProfileBaseRecord) -> Seq<Seq<char>> {
    choose|t: Seq<Seq<char>>| strictly_sorted(t) && t.to_set() == tag_set(seq![b.fingerprint_tags, b.behavior_tags])
}

/// The text of an optional field, or the empty text.
pub open spec fn text_or_empty(v: Option<String>) -> Seq<char> {
    match v {
        Some(s) => s@,
        None => Seq::empty(),
    }
}

/// Whether one of the tags passes the filter values; all pass without any.
pub open spec fn some_tag_passes(tags: Seq<Seq<char>>, filters: Option<Seq<Seq<char>>>) -> bool {
    match filters {
        Some(f) => exists|i: int| 0 <= i < tags.len() && f.contains(filter_form(#[trigger] tags[i])),
        None => true,
    }
}

/// Whether a query lists a profile: the search hits its id, store, platform,
/// country, region, credential or tags (joined by spaces), and its store
/// (its group), tags, status and platform pass the query's filters.
pub open spec fn profile_selected(b: ProfileBaseRecord, q: DesktopProfilePageQuery) -> bool {
    let tags = profile_tags(b);
    &&& search_hits(
        seq![
            b.id@,
            b.store_id@,
            b.platform_id@,
            b.country_anchor@,
            text_or_empty(b.region_anchor),
            text_or_empty(b.credential_ref),
            joined(tags, " "@),
        ],
        query_search(opt_view(q.search)),
    )
    &&& passes(b.store_id@, query_filter(q.group_filters))
    &&& some_tag_passes(tags, query_filter(q.tag_filters))
    &&& passes(b.status@, query_filter(q.status_filters))
    &&& passes(b.platform_id@, query_filter(q.platform_filters))
}

/// The positions of the profiles a query lists, in stored order.
pub open spec fn selected_profile_positions(bases: Seq<ProfileBaseRecord>, q: DesktopProfilePageQuery) -> Seq<usize>
    decreases bases.len(),
{
    if bases.len() == 0 {
        Seq::empty()
    } else {
        let prev = selected_profile_positions(bases.drop_last(), q);
        if profile_selected(bases.last(), q) {
            prev.push((bases.len() - 1) as usize)
        } else {
            prev
        }
    }
}

/// The values of a normalized filter.
pub open spec fn filter_view(f: Option<Vec<String>>) -> Option<Seq<Seq<char>>> {
    match f {
        Some(v) => Some(strings_view(v@)),
        None => None,
    }
}

proof fn lemma_any_passes_views(values: Seq<String>, f: Option<Vec<String>>)
    ensures
        any_passes_filter(values, f) == some_tag_passes(strings_view(values), filter_view(f)),
{
    let sv = strings_view(values);
    match f {
        Some(fv) => {
            if any_passes_filter(values, f) {
                let i = choose|i: int| 0 <= i < values.len() && strings_view(fv@).contains(filter_form(#[trigger] values[i]@));
                assert(sv[i] == values[i]@);
            }
            if some_tag_passes(sv, filter_view(f)) {
                let i = choose|i: int| 0 <= i < sv.len() && strings_view(fv@).contains(filter_form(#[trigger] sv[i]));
                assert(sv[i] == values[i]@);
            }
        },
        None => {},
    }
}

/// Which profiles one page of the list shows.
#[derive(Debug, Clone)]
pub struct ProfilePageSelection {
    pub page: i64,
    pub page_size: i64,
    /// How many profiles the query selects in all.
    pub total: i64,
    /// The positions, in the list the selection was made from, of the
    /// profiles the page shows, in stored order.
    pub positions: Vec<usize>,
}

proof fn lemma_tag_set_of_copies(a: Seq<Vec<String>>, b: Seq<Vec<String>>)
    requires
        a.len() == b.len(),
        forall|i: int| 0 <= i < a.len() ==> strings_view(#[trigger] a[i]@) == strings_view(b[i]@),
    ensures
        tag_set(a) == tag_set(b),
{
    assert forall|t: Seq<char>| tag_set(a).contains(t) implies tag_set(b).contains(t) by {
        let (i, j) = choose|i: int, j: int|
            0 <= i < a.len() && 0 <= j < a[i]@.len() && t.len() > 0 && #[trigger] trim(a[i]@[j]@) == t;
        assert(strings_view(a[i]@).len() == a[i]@.len());
        assert(strings_view(b[i]@).len() == b[i]@.len());
        assert(strings_view(a[i]@)[j] == a[i]@[j]@);
        assert(strings_view(b[i]@)[j] == b[i]@[j]@);
        assert(trim(b[i]@[j]@) == t);
    }
    assert forall|t: Seq<char>| tag_set(b).contains(t) implies tag_set(a).contains(t) by {
        let (i, j) = choose|i: int, j: int|
            0 <= i < b.len() && 0 <= j < b[i]@.len() && t.len() > 0 && #[trigger] trim(b[i]@[j]@) == t;
        assert(strings_view(a[i]@).len() == a[i]@.len());
        assert(strings_view(b[i]@).len() == b[i]@.len());
        assert(strings_view(a[i]@)[j] == a[i]@[j]@);
        assert(strings_view(b[i]@)[j] == b[i]@[j]@);
        assert(trim(a[i]@[j]@) == t);
    }
    assert(tag_set(a) =~= tag_set(b));
}

/// The tags of a profile.
pub fn profile_tag_list(b: &ProfileBaseRecord) -> (tags: Vec<String>)
    ensures
        strings_view(tags@) == profile_tags(*b),
{
    let groups = vec![clone_strings(&b.fingerprint_tags), clone_strings(&b.behavior_tags)];
    let tags = collect_tags(&groups);
    proof {
        lemma_tag_set_of_copies(groups@, seq![b.fingerprint_tags, b.behavior_tags]);
        let t = profile_tags(*b);
        assert(strictly_sorted(t) && t.to_set() == tag_set(seq![b.fingerprint_tags, b.behavior_tags]));
        lemma_sorted_set_unique(strings_view(tags@), t);
    }
    tags
}

fn profile_listed(
    b: &ProfileBaseRecord,
    search: &Option<String>,
    group: &Option<Vec<String>>,
    tag: &Option<Vec<String>>,
    status: &Option<Vec<String>>,
    platform: &Option<Vec<String>>,
) -> (r: bool)
    ensures
        r == ({
            let tags = profile_tags(*b);
            search_hits(
                seq![
                    b.id@,
                    b.store_id@,
                    b.platform_id@,
                    b.country_anchor@,
                    text_or_empty(b.region_anchor),
                    text_or_empty(b.credential_ref),
                    joined(tags, " "@),
                ],
                opt_view(*search),
            ) && passes_filter(b.store_id@, *group) && some_tag_passes(tags, filter_view(*tag))
                && passes_filter(b.status@, *status) && passes_filter(b.platform_id@, *platform)
        }),
{
    let tags = profile_tag_list(b);
    let region = match &b.region_anchor {
        Some(s) => owned(s.as_str()),
        None => owned(""),
    };
    let credential = match &b.credential_ref {
        Some(s) => owned(s.as_str()),
        None => owned(""),
    };
    let texts = vec![
        owned(b.id.as_str()),
        owned(b.store_id.as_str()),
        owned(b.platform_id.as_str()),
        owned(b.country_anchor.as_str()),
        region,
        credential,
        join_strings(&tags, " "),
    ];
    proof {
        assert(""@ =~= Seq::<char>::empty()) by {
            reveal_strlit("");
        }
        assert(strings_view(texts@) =~= seq![
            b.id@,
            b.store_id@,
            b.platform_id@,
            b.country_anchor@,
            text_or_empty(b.region_anchor),
            text_or_empty(b.credential_ref),
            joined(profile_tags(*b), " "@),
        ]);
    }
    let hit = search_hits_texts(&texts, search);
    let tag_ok = matches_any_filter(&tags, tag);
    proof {
        lemma_any_passes_views(tags@, *tag);
        assert(strings_view(tags@) == profile_tags(*b));
    }
    hit && value_passes(b.store_id.as_str(), group) && tag_ok && value_passes(b.status.as_str(), status)
        && value_passes(b.platform_id.as_str(), platform)
}

proof fn lemma_selected_profiles_in_range(bases: Seq<ProfileBaseRecord>, q: DesktopProfilePageQuery)
    ensures
        selected_profile_positions(bases, q).len() <= bases.len(),
        forall|k: int| 0 <= k < selected_profile_positions(bases, q).len()
            ==> (#[trigger] selected_profile_positions(bases, q)[k]) < bases.len(),
    decreases bases.len(),
{
    if bases.len() > 0 {
        lemma_selected_profiles_in_range(bases.drop_last(), q);
    }
}

/// Which profiles a page of the list shows: the profiles that the query's
/// search and filters select, in stored order, the page's share of them, and
/// how many were selected in all.
pub fn profile_page_selection(bases: &Vec<ProfileBaseRecord>, query: &DesktopProfilePageQuery) -> (sel: ProfilePageSelection)
    requires
        bases@.len() <= i64::MAX,
        (page_number(query.page) - 1) * page_size_within(query.page_size, 50, 200) <= i64::MAX,
    ensures
        sel.page == page_number(query.page),
        sel.page_size == page_size_within(query.page_size, 50, 200),
        sel.total == selected_profile_positions(bases@, *query).len(),
        sel.positions@ == page_slice(selected_profile_positions(bases@, *query), sel.page, sel.page_size),
{
    let page = sanitize_page(query.page);
    let page_size = sanitize_page_size(query.page_size, 50, 200);
    let search = trimmed_search(&query.search);
    let group = normalized_filter(&query.group_filters);
    let tag = normalized_filter(&query.tag_filters);
    let status = normalized_filter(&query.status_filters);
    let platform = normalized_filter(&query.platform_filters);
    let mut selected: Vec<usize> = Vec::new();
    let mut i: usize = 0;
    proof {
        assert(bases@.subrange(0, 0) =~= Seq::<ProfileBaseRecord>::empty());
    }
    while i < bases.len()
        invariant
            i <= bases@.len(),
            selected@ == selected_profile_positions(bases@.subrange(0, i as int), *query),
            opt_view(search) == query_search(opt_view(query.search)),
            forall|v: Seq<char>| #[trigger] passes_filter(v, group) == passes(v, query_filter(query.group_filters)),
            filter_view(tag) == query_filter(query.tag_filters),
            forall|v: Seq<char>| #[trigger] passes_filter(v, status) == passes(v, query_filter(query.status_filters)),
            forall|v: Seq<char>| #[trigger] passes_filter(v, platform) == passes(v, query_filter(query.platform_filters)),
        decreases bases@.len() - i,
    {
        proof {
            assert(bases@.subrange(0, i + 1).drop_last() =~= bases@.subrange(0, i as int));
            assert(bases@.subrange(0, i + 1).last() == bases@[i as int]);
        }
        if profile_listed(&bases[i], &search, &group, &tag, &status, &platform) {
            selected.push(i);
        }
        i = i + 1;
    }
    proof {
        assert(bases@.subrange(0, i as int) =~= bases@);
        lemma_selected_profiles_in_range(bases@, *query);
    }
    let positions = page_of_positions(&selected, page, page_size);
    let total = selected.len() as i64;
    ProfilePageSelection { page, page_size, total, positions }
}

} // verus!
