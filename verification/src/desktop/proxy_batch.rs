//! Proxy verification batches: which proxies a batch check picks up, and how
//! the batch limit and the per-provider cap split them into accepted and
//! skipped.
use vstd::prelude::*;

use super::types::DesktopProxyBatchCheckProviderSummary;
use super::workbench::{matches_filter, passes_filter};
use crate::numtext::{parse_i64, parse_i64_str};
use crate::text::{lex_lt, opt_view, owned, str_eq, str_lt};

verus! {

/// The limits a batch check runs with, after defaults and bounds.
#[derive(Debug, Clone, Copy, PartialEq, Eq, Structural)]
pub struct ProxyBatchOptions {
    pub limit: i64,
    pub stale_after_seconds: i64,
    pub task_timeout_seconds: i64,
    pub recently_used_within_seconds: i64,
    pub only_stale: bool,
    pub failed_only: bool,
    pub max_per_provider: i64,
}

/// `value.unwrap_or(default)` clamped into `lo..=hi`.
pub open spec fn clamped_or(value: Option<i64>, default: i64, lo: i64, hi: i64) -> i64 {
    let v = match value {
        Some(v) => v,
        None => default,
    };
    if v < lo {
        lo
    } else if v > hi {
        hi
    } else {
        v
    }
}

/// `value.unwrap_or(default)` raised to at least `lo`.
pub open spec fn at_least_or(value: Option<i64>, default: i64, lo: i64) -> i64 {
    let v = match value {
        Some(v) => v,
        None => default,
    };
    if v < lo {
        lo
    } else {
        v
    }
}

fn at_least_or_exec(value: Option<i64>, default: i64, lo: i64) -> (r: i64)
    ensures
        r == at_least_or(value, default, lo),
{
    let v = match value {
        Some(v) => v,
        None => default,
    };
    if v < lo {
        lo
    } else {
        v
    }
}

/// The limits of a batch check request: at most 50 proxies unless asked
/// otherwise, never fewer than 1 nor more than 200; an hour until a check is
/// stale; at least 30 seconds per task; no negative windows or caps.
pub fn proxy_batch_options(
    limit: Option<i64>,
    stale_after_seconds: Option<i64>,
    task_timeout_seconds: Option<i64>,
    recently_used_within_seconds: Option<i64>,
    only_stale: Option<bool>,
    failed_only: Option<bool>,
    max_per_provider: Option<i64>,
) -> (o: ProxyBatchOptions)
    ensures
        o.limit == clamped_or(limit, 50, 1, 200),
        o.stale_after_seconds == at_least_or(stale_after_seconds, 3600, 0),
        o.task_timeout_seconds == at_least_or(task_timeout_seconds, 180, 30),
        o.recently_used_within_seconds == at_least_or(recently_used_within_seconds, 0, 0),
        o.only_stale == (only_stale == Some(true)),
        o.failed_only == (failed_only == Some(true)),
        o.max_per_provider == at_least_or(max_per_provider, 0, 0),
{
    let l = match limit {
        Some(v) => v,
        None => 50,
    };
    let l = if l < 1 {
        1
    } else if l > 200 {
        200
    } else {
        l
    };
    ProxyBatchOptions {
        limit: l,
        stale_after_seconds: at_least_or_exec(stale_after_seconds, 3600, 0),
        task_timeout_seconds: at_least_or_exec(task_timeout_seconds, 180, 30),
        recently_used_within_seconds: at_least_or_exec(recently_used_within_seconds, 0, 0),
        only_stale: match only_stale {
            Some(b) => b,
            None => false,
        },
        failed_only: match failed_only {
            Some(b) => b,
            None => false,
        },
        max_per_provider: at_least_or_exec(max_per_provider, 0, 0),
    }
}

/// A proxy as a batch check sees it.
#[derive(Debug, Clone)]
pub struct ProxyBatchCandidate {
    pub id: String,
    pub provider: Option<String>,
    pub region: Option<String>,
    pub last_verify_status: Option<String>,
    pub last_verify_at: Option<String>,
    pub last_used_at: Option<String>,
}

/// The id, provider and region filters of a batch check.
#[derive(Debug, Clone)]
pub struct ProxyBatchFilters {
    pub proxy_ids: Option<Vec<String>>,
    pub providers: Option<Vec<String>>,
    pub regions: Option<Vec<String>>,
}

/// An optional text, empty when absent.
pub open spec fn text_or_empty(v: Option<String>) -> Seq<char> {
    match v {
        Some(s) => s@,
        None => Seq::empty(),
    }
}

/// An optional timestamp read as a number.
pub open spec fn parsed_time(v: Option<String>) -> Option<i64> {
    match v {
        Some(s) => parse_i64(s@),
        None => None,
    }
}

/// Whether a batch check picks up a proxy at time `now`.
pub open spec fn batch_selected(
    c: ProxyBatchCandidate,
    f: ProxyBatchFilters,
    o: ProxyBatchOptions,
    now: i64,
) -> bool {
    &&& passes_filter(c.id@, f.proxy_ids)
    &&& passes_filter(text_or_empty(c.provider), f.providers)
    &&& passes_filter(text_or_empty(c.region), f.regions)
    &&& (o.failed_only ==> opt_view(c.last_verify_status) == Some("failed"@))
    &&& (o.only_stale ==> match parsed_time(c.last_verify_at) {
        Some(t) => t <= now - o.stale_after_seconds,
        None => true,
    })
    &&& (o.recently_used_within_seconds > 0 ==> match parsed_time(c.last_used_at) {
        Some(t) => t < now - o.recently_used_within_seconds,
        None => true,
    })
}

fn parse_opt_time(v: &Option<String>) -> (r: Option<i64>)
    ensures
        r == parsed_time(*v),
{
    match v {
        Some(s) => parse_i64_str(s.as_str()),
        None => None,
    }
}

fn text_or_empty_str(v: &Option<String>) -> (r: &str)
    ensures
        r@ == text_or_empty(*v),
{
    match v {
        Some(s) => s.as_str(),
        None => {
            proof {
                reveal_strlit("");
            }
            ""
        },
    }
}

/// Whether a batch check picks up the proxy `c` at time `now`.
pub fn proxy_batch_candidate_selected(
    c: &ProxyBatchCandidate,
    f: &ProxyBatchFilters,
    o: &ProxyBatchOptions,
    now: i64,
) -> (r: bool)
    requires
        now >= 0,
        o.stale_after_seconds >= 0,
        o.recently_used_within_seconds >= 0,
    ensures
        r == batch_selected(*c, *f, *o, now),
{
    if !matches_filter(c.id.as_str(), &f.proxy_ids) {
        return false;
    }
    if !matches_filter(text_or_empty_str(&c.provider), &f.providers) {
        return false;
    }
    if !matches_filter(text_or_empty_str(&c.region), &f.regions) {
        return false;
    }
    if o.failed_only {
        let failed = match &c.last_verify_status {
            Some(s) => str_eq(s.as_str(), "failed"),
            None => false,
        };
        if !failed {
            return false;
        }
    }
    if o.only_stale {
        let stale = match parse_opt_time(&c.last_verify_at) {
            Some(t) => t <= now - o.stale_after_seconds,
            None => true,
        };
        if !stale {
            return false;
        }
    }
    if o.recently_used_within_seconds > 0 {
        if let Some(t) = parse_opt_time(&c.last_used_at) {
            if t >= now - o.recently_used_within_seconds {
                return false;
            }
        }
    }
    true
}

/// The provider a proxy counts against.
pub open spec fn provider_key(p: Option<String>) -> Seq<char> {
    match p {
        Some(s) => s@,
        None => "unassigned"@,
    }
}

/// The providers of the proxies a batch check picks up, in order.
pub open spec fn requested_keys(
    cands: Seq<ProxyBatchCandidate>,
    f: ProxyBatchFilters,
    o: ProxyBatchOptions,
    now: i64,
) -> Seq<Seq<char>>
    decreases cands.len(),
{
    if cands.len() == 0 {
        seq![]
    } else {
        let rest = requested_keys(cands.drop_last(), f, o, now);
        if batch_selected(cands.last(), f, o, now) {
            rest.push(provider_key(cands.last().provider))
        } else {
            rest
        }
    }
}

/// The accepted and skipped counts of a provider so far.
pub open spec fn provider_tally(m: Map<Seq<char>, (int, int)>, key: Seq<char>) -> (int, int) {
    if m.contains_key(key) {
        m[key]
    } else {
        (0, 0)
    }
}

/// One proxy of provider `key` through the limit and the cap: after the limit
/// is reached nothing changes; otherwise a provider at its cap skips the
/// proxy and any other accepts it.
pub open spec fn cap_step(
    st: (int, Map<Seq<char>, (int, int)>),
    key: Seq<char>,
    limit: int,
    max_per_provider: int,
) -> (int, Map<Seq<char>, (int, int)>) {
    if st.0 >= limit {
        st
    } else {
        let cur = provider_tally(st.1, key);
        if max_per_provider > 0 && cur.0 >= max_per_provider {
            (st.0, st.1.insert(key, (cur.0, cur.1 + 1)))
        } else {
            (st.0 + 1, st.1.insert(key, (cur.0 + 1, cur.1)))
        }
    }
}

/// The accepted total and the per-provider tallies after the proxies of
/// providers `keys`, in order.
pub open spec fn cap_fold(keys: Seq<Seq<char>>, limit: int, max_per_provider: int) -> (
    int,
    Map<Seq<char>, (int, int)>,
)
    decreases keys.len(),
{
    if keys.len() == 0 {
        (0, Map::empty())
    } else {
        cap_step(cap_fold(keys.drop_last(), limit, max_per_provider), keys.last(), limit, max_per_provider)
    }
}

/// Whether the summaries are ordered by provider, each provider once.
pub open spec fn sorted_by_provider(v: Seq<DesktopProxyBatchCheckProviderSummary>) -> bool {
    forall|i: int, j: int| 0 <= i < j < v.len() ==> lex_lt(#[trigger] v[i].provider@, #[trigger] v[j].provider@)
}

/// Whether the summaries hold exactly the tallies of `m`.
pub open spec fn summarizes(v: Seq<DesktopProxyBatchCheckProviderSummary>, m: Map<Seq<char>, (int, int)>) -> bool {
    &&& forall|i: int| 0 <= i < v.len() ==> #[trigger] m.contains_key(v[i].provider@) && m[v[i].provider@] == (
        v[i].accepted as int,
        v[i].skipped_due_to_cap as int,
    )
    &&& forall|k: Seq<char>| #[trigger] m.contains_key(k) ==> exists|i: int| 0 <= i < v.len() && v[i].provider@ == k
}

/// The counts of a staged batch check.
#[derive(Debug, Clone)]
pub struct ProxyBatchPlan {
    pub requested_count: i64,
    pub accepted_count: i64,
    pub skipped_count: i64,
    pub provider_summary: Vec<DesktopProxyBatchCheckProviderSummary>,
}

proof fn lemma_cap_fold_bounds(keys: Seq<Seq<char>>, limit: int, max_per_provider: int)
    ensures
        0 <= cap_fold(keys, limit, max_per_provider).0 <= keys.len(),
        forall|k: Seq<char>| #[trigger] cap_fold(keys, limit, max_per_provider).1.contains_key(k) ==> {
            let t = cap_fold(keys, limit, max_per_provider).1[k];
            0 <= t.0 && 0 <= t.1 && t.0 + t.1 <= keys.len()
        },
    decreases keys.len(),
{
    if keys.len() > 0 {
        lemma_cap_fold_bounds(keys.drop_last(), limit, max_per_provider);
    }
}

/// Inserting `x` at `p` into summaries ordered by provider keeps them
/// ordered when `x` sorts between its neighbours.
proof fn lemma_insert_keeps_sorted(v: Seq<DesktopProxyBatchCheckProviderSummary>, p: int, x: DesktopProxyBatchCheckProviderSummary)
    requires
        sorted_by_provider(v),
        0 <= p <= v.len(),
        forall|j: int| 0 <= j < p ==> lex_lt(#[trigger] v[j].provider@, x.provider@),
        forall|j: int| p <= j < v.len() ==> lex_lt(x.provider@, #[trigger] v[j].provider@),
    ensures
        sorted_by_provider(v.insert(p, x)),
{
    let w = v.insert(p, x);
    assert forall|i: int, j: int| 0 <= i < j < w.len() implies lex_lt(#[trigger] w[i].provider@, #[trigger] w[j].provider@) by {
        if i < p && j < p {
            assert(w[i] == v[i] && w[j] == v[j]);
        } else if i < p && j == p {
            assert(w[i] == v[i] && w[j] == x);
        } else if i < p {
            assert(w[i] == v[i] && w[j] == v[j - 1]);
        } else if i == p {
            assert(w[i] == x && w[j] == v[j - 1]);
        } else {
            assert(w[i] == v[i - 1] && w[j] == v[j - 1]);
        }
    }
}

/// The distinct entries of summaries ordered by provider have distinct
/// providers.
proof fn lemma_sorted_distinct(v: Seq<DesktopProxyBatchCheckProviderSummary>, i: int, j: int)
    requires
        sorted_by_provider(v),
        0 <= i < v.len(),
        0 <= j < v.len(),
        i != j,
    ensures
        v[i].provider@ != v[j].provider@,
{
    if i < j {
        assert(lex_lt(v[i].provider@, v[j].provider@));
    } else {
        assert(lex_lt(v[j].provider@, v[i].provider@));
    }
    if v[i].provider@ == v[j].provider@ {
        crate::text::lemma_lex_lt_irreflexive(v[i].provider@);
    }
}

/// Counts one more proxy of provider `key` into the summaries, keeping them
/// ordered by provider: an existing provider is updated in place, a new one
/// is inserted where it sorts.
fn tally_provider(
    v: &mut Vec<DesktopProxyBatchCheckProviderSummary>,
    key: &str,
    max_per_provider: i64,
    Ghost(m): Ghost<Map<Seq<char>, (int, int)>>,
    Ghost(bound): Ghost<int>,
) -> (accepted: bool)
    requires
        sorted_by_provider(old(v)@),
        summarizes(old(v)@, m),
        bound < i64::MAX,
        forall|k: Seq<char>| #[trigger] m.contains_key(k) ==> 0 <= m[k].0 && 0 <= m[k].1 && m[k].0 + m[k].1 <= bound,
    ensures
        sorted_by_provider(final(v)@),
        summarizes(
            final(v)@,
            m.insert(
                key@,
                if accepted {
                    (provider_tally(m, key@).0 + 1, provider_tally(m, key@).1)
                } else {
                    (provider_tally(m, key@).0, provider_tally(m, key@).1 + 1)
                },
            ),
        ),
        accepted == !(max_per_provider > 0 && provider_tally(m, key@).0 >= max_per_provider),
{
    let mut i: usize = 0;
    while i < v.len() && str_lt(v[i].provider.as_str(), key)
        invariant
            i <= v@.len(),
            forall|j: int| 0 <= j < i ==> lex_lt(#[trigger] v@[j].provider@, key@),
        decreases v@.len() - i,
    {
        i = i + 1;
    }
    let ghost v0 = v@;
    if i < v.len() && str_eq(v[i].provider.as_str(), key) {
        let cur_acc = v[i].accepted;
        let cur_skip = v[i].skipped_due_to_cap;
        proof {
            assert(m.contains_key(v0[i as int].provider@));
            assert(provider_tally(m, key@) == (cur_acc as int, cur_skip as int));
        }
        let accepted = !(max_per_provider > 0 && cur_acc >= max_per_provider);
        let entry = if accepted {
            DesktopProxyBatchCheckProviderSummary {
                provider: owned(key),
                accepted: cur_acc + 1,
                skipped_due_to_cap: cur_skip,
            }
        } else {
            DesktopProxyBatchCheckProviderSummary {
                provider: owned(key),
                accepted: cur_acc,
                skipped_due_to_cap: cur_skip + 1,
            }
        };
        v.set(i, entry);
        proof {
            let m2 = m.insert(
                key@,
                if accepted {
                    (provider_tally(m, key@).0 + 1, provider_tally(m, key@).1)
                } else {
                    (provider_tally(m, key@).0, provider_tally(m, key@).1 + 1)
                },
            );
            assert forall|a: int, b: int| 0 <= a < b < v@.len() implies lex_lt(
                #[trigger] v@[a].provider@,
                #[trigger] v@[b].provider@,
            ) by {
                assert(v@[a].provider@ == v0[a].provider@);
                assert(v@[b].provider@ == v0[b].provider@);
            }
            assert forall|a: int| 0 <= a < v@.len() implies #[trigger] m2.contains_key(v@[a].provider@)
                && m2[v@[a].provider@] == (v@[a].accepted as int, v@[a].skipped_due_to_cap as int) by {
                if a != i {
                    lemma_sorted_distinct(v0, a, i as int);
                    assert(v@[a] == v0[a]);
                }
            }
            assert forall|k: Seq<char>| #[trigger] m2.contains_key(k) implies exists|a: int|
                0 <= a < v@.len() && v@[a].provider@ == k by {
                if k == key@ {
                    assert(v@[i as int].provider@ == k);
                } else {
                    assert(m.contains_key(k));
                    let a = choose|a: int| 0 <= a < v0.len() && v0[a].provider@ == k;
                    assert(v@[a].provider@ == k);
                }
            }
        }
        accepted
    } else {
        proof {
            assert forall|j: int| i <= j < v0.len() implies lex_lt(key@, #[trigger] v0[j].provider@) by {
                assert(!lex_lt(v0[i as int].provider@, key@));
                assert(v0[i as int].provider@ != key@);
                crate::text::lemma_lex_lt_total(v0[i as int].provider@, key@);
                if j > i {
                    assert(lex_lt(v0[i as int].provider@, v0[j].provider@));
                    crate::text::lemma_lex_lt_transitive(key@, v0[i as int].provider@, v0[j].provider@);
                }
            }
            assert(!m.contains_key(key@)) by {
                if m.contains_key(key@) {
                    let a = choose|a: int| 0 <= a < v0.len() && v0[a].provider@ == key@;
                    if a < i {
                        crate::text::lemma_lex_lt_irreflexive(key@);
                    } else {
                        crate::text::lemma_lex_lt_irreflexive(key@);
                    }
                }
            }
        }
        let accepted = !(max_per_provider > 0 && 0 >= max_per_provider);
        let entry = if accepted {
            DesktopProxyBatchCheckProviderSummary { provider: owned(key), accepted: 1, skipped_due_to_cap: 0 }
        } else {
            DesktopProxyBatchCheckProviderSummary { provider: owned(key), accepted: 0, skipped_due_to_cap: 1 }
        };
        let ghost x = entry;
        v.insert(i, entry);
        proof {
            lemma_insert_keeps_sorted(v0, i as int, x);
            let m2 = m.insert(
                key@,
                if accepted {
                    (provider_tally(m, key@).0 + 1, provider_tally(m, key@).1)
                } else {
                    (provider_tally(m, key@).0, provider_tally(m, key@).1 + 1)
                },
            );
            assert forall|a: int| 0 <= a < v@.len() implies #[trigger] m2.contains_key(v@[a].provider@)
                && m2[v@[a].provider@] == (v@[a].accepted as int, v@[a].skipped_due_to_cap as int) by {
                if a == i {
                    assert(v@[a] == x);
                    assert(provider_tally(m, key@) == (0int, 0int));
                    assert(m2.contains_key(key@));
                    assert(m2[key@] == (x.accepted as int, x.skipped_due_to_cap as int));
                } else if a < i {
                    assert(v@[a] == v0[a]);
                    assert(m.contains_key(v0[a].provider@));
                    assert(lex_lt(v0[a].provider@, key@));
                    if v0[a].provider@ == key@ {
                        crate::text::lemma_lex_lt_irreflexive(key@);
                    }
                } else if a > i {
                    assert(v@[a] == v0[a - 1]);
                    assert(m.contains_key(v0[a - 1].provider@));
                    assert(lex_lt(key@, v0[a - 1].provider@));
                    if v0[a - 1].provider@ == key@ {
                        crate::text::lemma_lex_lt_irreflexive(key@);
                    }
                }
            }
            assert forall|k: Seq<char>| #[trigger] m2.contains_key(k) implies exists|a: int|
                0 <= a < v@.len() && v@[a].provider@ == k by {
                if k == key@ {
                    assert(v@[i as int].provider@ == k);
                } else {
                    assert(m.contains_key(k));
                    let a = choose|a: int| 0 <= a < v0.len() && v0[a].provider@ == k;
                    if a < i {
                        assert(v@[a].provider@ == k);
                    } else {
                        assert(v@[a + 1].provider@ == k);
                    }
                }
            }
        }
        accepted
    }
}

/// Stages a batch check over the proxies `candidates` at time `now`: counts
/// the proxies the filters pick up, accepts them in order until the limit is
/// reached, skips those whose provider is at its cap, and sums up each
/// provider seen before the limit, ordered by provider.
#[verifier::rlimit(60)]
pub fn plan_proxy_batch(
    candidates: &Vec<ProxyBatchCandidate>,
    filters: &ProxyBatchFilters,
    options: &ProxyBatchOptions,
    now: i64,
) -> (p: ProxyBatchPlan)
    requires
        now >= 0,
        options.stale_after_seconds >= 0,
        options.recently_used_within_seconds >= 0,
        candidates@.len() < i64::MAX,
    ensures
        p.requested_count == requested_keys(candidates@, *filters, *options, now).len(),
        p.accepted_count == cap_fold(
            requested_keys(candidates@, *filters, *options, now),
            options.limit as int,
            options.max_per_provider as int,
        ).0,
        p.skipped_count == p.requested_count - p.accepted_count,
        sorted_by_provider(p.provider_summary@),
        summarizes(
            p.provider_summary@,
            cap_fold(
                requested_keys(candidates@, *filters, *options, now),
                options.limit as int,
                options.max_per_provider as int,
            ).1,
        ),
{
    let mut requested: i64 = 0;
    let mut accepted: i64 = 0;
    let mut summary: Vec<DesktopProxyBatchCheckProviderSummary> = Vec::new();
    let mut i: usize = 0;
    while i < candidates.len()
        invariant
            i <= candidates@.len(),
            candidates@.len() < i64::MAX,
            now >= 0,
            options.stale_after_seconds >= 0,
            options.recently_used_within_seconds >= 0,
            requested == requested_keys(candidates@.subrange(0, i as int), *filters, *options, now).len(),
            requested <= i,
            accepted == cap_fold(
                requested_keys(candidates@.subrange(0, i as int), *filters, *options, now),
                options.limit as int,
                options.max_per_provider as int,
            ).0,
            sorted_by_provider(summary@),
            summarizes(
                summary@,
                cap_fold(
                    requested_keys(candidates@.subrange(0, i as int), *filters, *options, now),
                    options.limit as int,
                    options.max_per_provider as int,
                ).1,
            ),
        decreases candidates@.len() - i,
    {
        let ghost keys0 = requested_keys(candidates@.subrange(0, i as int), *filters, *options, now);
        let ghost st0 = cap_fold(keys0, options.limit as int, options.max_per_provider as int);
        proof {
            let sub = candidates@.subrange(0, i as int + 1);
            assert(sub.drop_last() =~= candidates@.subrange(0, i as int));
            assert(sub.last() == candidates@[i as int]);
            lemma_cap_fold_bounds(keys0, options.limit as int, options.max_per_provider as int);
        }
        let c = &candidates[i];
        if proxy_batch_candidate_selected(c, filters, options, now) {
            let key: &str = match &c.provider {
                Some(p) => p.as_str(),
                None => "unassigned",
            };
            proof {
                assert(key@ == provider_key(c.provider));
                assert(keys0.push(key@).drop_last() =~= keys0);
            }
            if accepted < options.limit {
                let took = tally_provider(
                    &mut summary,
                    key,
                    options.max_per_provider,
                    Ghost(st0.1),
                    Ghost(requested as int),
                );
                if took {
                    accepted = accepted + 1;
                }
            }
            requested = requested + 1;
        }
        i = i + 1;
    }
    proof {
        assert(candidates@.subrange(0, i as int) =~= candidates@);
        lemma_cap_fold_bounds(
            requested_keys(candidates@, *filters, *options, now),
            options.limit as int,
            options.max_per_provider as int,
        );
    }
    ProxyBatchPlan {
        requested_count: requested,
        accepted_count: accepted,
        skipped_count: requested - accepted,
        provider_summary: summary,
    }
}

/// A batch never accepts more proxies than its limit, nor more than it picked
/// up, and a capped provider never has more accepted proxies than its cap.
pub proof fn lemma_batch_respects_limits(keys: Seq<Seq<char>>, limit: int, max_per_provider: int)
    requires
        limit >= 1,
    ensures
        cap_fold(keys, limit, max_per_provider).0 <= limit,
        cap_fold(keys, limit, max_per_provider).0 <= keys.len(),
        max_per_provider > 0 ==> forall|k: Seq<char>| #[trigger] cap_fold(keys, limit, max_per_provider).1.contains_key(k)
            ==> cap_fold(keys, limit, max_per_provider).1[k].0 <= max_per_provider,
    decreases keys.len(),
{
    lemma_cap_fold_bounds(keys, limit, max_per_provider);
    if keys.len() > 0 {
        lemma_batch_respects_limits(keys.drop_last(), limit, max_per_provider);
    }
}

} // verus!
