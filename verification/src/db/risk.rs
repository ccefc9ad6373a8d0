//! Provider risk snapshots and the cached trust scores of proxies: how a
//! snapshot's version moves, which caches a change of one proxy refreshes,
//! and the statement that recomputes cached scores.
use vstd::prelude::*;

use crate::text::{ascii_lower, opt_view, owned, str_eq, to_ascii_lowercase};

verus! {

/// The version a provider's risk snapshot takes when it is refreshed to
/// `risk_hit`, given its previous `(risk_hit, version)` if there was one: a
/// new snapshot starts at 1, and the version moves up by one exactly when the
/// risk flag flips.
pub open spec fn next_risk_version_spec(previous: Option<(i64, i64)>, risk_hit: i64) -> int {
    match previous {
        Some((old_hit, old_version)) => if old_hit != risk_hit {
            old_version + 1
        } else {
            old_version as int
        },
        None => 1,
    }
}

/// The version a provider's risk snapshot takes when it is refreshed.
pub fn next_provider_risk_version(previous: Option<(i64, i64)>, risk_hit: i64) -> (v: i64)
    requires
        previous matches Some((old_hit, old_version)) ==> (old_hit != risk_hit ==> old_version < i64::MAX),
    ensures
        v == next_risk_version_spec(previous, risk_hit),
{
    match previous {
        Some((old_hit, old_version)) => if old_hit != risk_hit {
            old_version + 1
        } else {
            old_version
        },
        None => 1,
    }
}

/// What a provider's risk refresh reads of each of its proxies.
#[derive(Debug, Clone)]
pub struct ProviderProxyRiskRow {
    pub success_count: i64,
    pub failure_count: i64,
    pub last_probe_error_category: Option<String>,
}

/// A provider's refreshed risk snapshot.
#[derive(Debug, Clone, Copy, PartialEq, Eq, Structural)]
pub struct ProviderRiskSnapshot {
    pub success_count: i64,
    pub failure_count: i64,
    pub risk_hit: i64,
    pub version: i64,
}

/// The sum of the success counts of `rows`.
pub open spec fn success_total(rows: Seq<ProviderProxyRiskRow>) -> int
    decreases rows.len(),
{
    if rows.len() == 0 {
        0
    } else {
        success_total(rows.drop_last()) + rows.last().success_count
    }
}

/// The sum of the failure counts of `rows`.
pub open spec fn failure_total(rows: Seq<ProviderProxyRiskRow>) -> int
    decreases rows.len(),
{
    if rows.len() == 0 {
        0
    } else {
        failure_total(rows.drop_last()) + rows.last().failure_count
    }
}

/// How many of `rows` last failed a probe because the exit IP was not public.
pub open spec fn exit_ip_not_public_count(rows: Seq<ProviderProxyRiskRow>) -> int
    decreases rows.len(),
{
    if rows.len() == 0 {
        0
    } else {
        exit_ip_not_public_count(rows.drop_last()) + if opt_view(rows.last().last_probe_error_category) == Some(
            "exit_ip_not_public"@,
        ) {
            1int
        } else {
            0int
        }
    }
}

/// A provider is at risk when its proxies failed at least five times more
/// than they succeeded, or when two or more of them last exited on an IP
/// that was not public.
pub open spec fn provider_at_risk(rows: Seq<ProviderProxyRiskRow>) -> bool {
    failure_total(rows) >= success_total(rows) + 5 || exit_ip_not_public_count(rows) >= 2
}

pub open spec fn fits_i64(x: int) -> bool {
    i64::MIN <= x <= i64::MAX
}

/// Every running sum of the success and failure counts, row by row, stays
/// within `i64` (the database refuses the sums otherwise).
pub open spec fn risk_sums_fit(rows: Seq<ProviderProxyRiskRow>) -> bool {
    forall|k: int|
        #![trigger success_total(rows.take(k))]
        #![trigger failure_total(rows.take(k))]
        0 <= k <= rows.len() ==> fits_i64(success_total(rows.take(k))) && fits_i64(failure_total(rows.take(k)))
}

/// Refreshes a provider's risk snapshot from its proxies and its previous
/// `(risk_hit, version)`: the summed counts, the risk flag as 1 or 0, and the
/// version moved as [`next_provider_risk_version`] moves it. `None` when a
/// running sum leaves `i64`.
pub fn refresh_provider_risk_snapshot(previous: Option<(i64, i64)>, proxies: &Vec<ProviderProxyRiskRow>) -> (r: Option<
    ProviderRiskSnapshot,
>)
    requires
        previous matches Some((old_hit, old_version)) ==> old_version < i64::MAX,
    ensures
        r is Some <==> risk_sums_fit(proxies@),
        r matches Some(s) ==> {
            &&& s.success_count == success_total(proxies@)
            &&& s.failure_count == failure_total(proxies@)
            &&& s.risk_hit == if provider_at_risk(proxies@) {
                1i64
            } else {
                0i64
            }
            &&& s.version == next_risk_version_spec(previous, s.risk_hit)
        },
{
    let mut success: i64 = 0;
    let mut failure: i64 = 0;
    let mut not_public: u64 = 0;
    let mut i: usize = 0;
    assert(proxies@.take(0) =~= Seq::<ProviderProxyRiskRow>::empty());
    while i < proxies.len()
        invariant
            i <= proxies.len(),
            success == success_total(proxies@.take(i as int)),
            failure == failure_total(proxies@.take(i as int)),
            not_public == exit_ip_not_public_count(proxies@.take(i as int)),
            not_public <= i,
            forall|k: int|
                #![trigger success_total(proxies@.take(k))]
                #![trigger failure_total(proxies@.take(k))]
                0 <= k <= i ==> fits_i64(success_total(proxies@.take(k))) && fits_i64(failure_total(proxies@.take(k))),
        decreases proxies.len() - i,
    {
        let row = &proxies[i];
        let ghost next = proxies@.take(i + 1);
        assert(next.drop_last() =~= proxies@.take(i as int));
        assert(next.last() == proxies@[i as int]);
        match success.checked_add(row.success_count) {
            Some(v) => success = v,
            None => {
                assert(!fits_i64(success_total(proxies@.take(i + 1))));
                return None;
            },
        }
        match failure.checked_add(row.failure_count) {
            Some(v) => failure = v,
            None => {
                assert(!fits_i64(failure_total(proxies@.take(i + 1))));
                return None;
            },
        }
        let flagged = match &row.last_probe_error_category {
            Some(c) => str_eq(c.as_str(), "exit_ip_not_public"),
            None => false,
        };
        if flagged {
            not_public = not_public + 1;
        }
        i = i + 1;
    }
    assert(proxies@.take(proxies@.len() as int) =~= proxies@);
    let at_risk = if success <= i64::MAX - 5 {
        failure >= success + 5
    } else {
        false
    };
    let risk_hit: i64 = if at_risk || not_public >= 2 {
        1
    } else {
        0
    };
    let version = next_provider_risk_version(previous, risk_hit);
    Some(ProviderRiskSnapshot { success_count: success, failure_count: failure, risk_hit, version })
}

/// What a provider-region risk refresh reads of each proxy of the pair:
/// its last verify status, its last verify time as the store casts it to an
/// integer, its last exit region and its own region.
#[derive(Debug, Clone)]
pub struct RegionProxyRiskRow {
    pub last_verify_status: Option<String>,
    pub last_verify_at: Option<i64>,
    pub last_exit_region: Option<String>,
    pub region: Option<String>,
}

/// A provider-region pair's refreshed risk snapshot.
#[derive(Debug, Clone, Copy, PartialEq, Eq, Structural)]
pub struct RegionRiskSnapshot {
    pub recent_failed_count: u64,
    pub risk_hit: i64,
}

/// A proxy whose last verify failed within the hour before `now`.
pub open spec fn failed_recently(row: RegionProxyRiskRow, now: i64) -> bool {
    &&& opt_view(row.last_verify_status) == Some("failed"@)
    &&& row.last_verify_at matches Some(at) && at >= now - 3600
}

/// A proxy whose last exit region differs, ASCII case aside, from its region.
pub open spec fn exit_region_mismatch(row: RegionProxyRiskRow) -> bool {
    &&& row.last_exit_region matches Some(exit)
    &&& row.region matches Some(region)
    &&& ascii_lower(exit@) != ascii_lower(region@)
}

pub open spec fn recent_failed_count(rows: Seq<RegionProxyRiskRow>, now: i64) -> int
    decreases rows.len(),
{
    if rows.len() == 0 {
        0
    } else {
        recent_failed_count(rows.drop_last(), now) + if failed_recently(rows.last(), now) {
            1int
        } else {
            0int
        }
    }
}

pub open spec fn exit_mismatch_count(rows: Seq<RegionProxyRiskRow>) -> int
    decreases rows.len(),
{
    if rows.len() == 0 {
        0
    } else {
        exit_mismatch_count(rows.drop_last()) + if exit_region_mismatch(rows.last()) {
            1int
        } else {
            0int
        }
    }
}

fn verify_failed_recently(row: &RegionProxyRiskRow, now: i64) -> (r: bool)
    ensures
        r == failed_recently(*row, now),
{
    let failed = match &row.last_verify_status {
        Some(s) => str_eq(s.as_str(), "failed"),
        None => false,
    };
    let recent = match row.last_verify_at {
        Some(at) => (at as i128) >= (now as i128) - 3600,
        None => false,
    };
    failed && recent
}

fn exit_region_differs(row: &RegionProxyRiskRow) -> (r: bool)
    ensures
        r == exit_region_mismatch(*row),
{
    match (&row.last_exit_region, &row.region) {
        (Some(exit), Some(region)) => {
            let a = to_ascii_lowercase(exit.as_str());
            let b = to_ascii_lowercase(region.as_str());
            !str_eq(a.as_str(), b.as_str())
        },
        _ => false,
    }
}

/// Refreshes a provider-region pair's risk snapshot from its proxies at time
/// `now`: the proxies whose last verify failed within the hour, and the risk
/// flag, set when two or more failed so or two or more last exited in another
/// region than their own. `None` for a pair without proxies, which gets no
/// snapshot.
pub fn provider_region_risk_snapshot(rows: &Vec<RegionProxyRiskRow>, now: i64) -> (r: Option<RegionRiskSnapshot>)
    ensures
        rows@.len() == 0 ==> r is None,
        rows@.len() > 0 ==> (r matches Some(s) && s.recent_failed_count == recent_failed_count(rows@, now)
            && s.risk_hit == if recent_failed_count(rows@, now) >= 2 || exit_mismatch_count(rows@) >= 2 {
            1i64
        } else {
            0i64
        }),
{
    if rows.len() == 0 {
        return None;
    }
    let mut failed: u64 = 0;
    let mut mismatched: u64 = 0;
    let mut i: usize = 0;
    assert(rows@.take(0) =~= Seq::<RegionProxyRiskRow>::empty());
    while i < rows.len()
        invariant
            i <= rows@.len(),
            failed == recent_failed_count(rows@.take(i as int), now),
            mismatched == exit_mismatch_count(rows@.take(i as int)),
            failed <= i,
            mismatched <= i,
        decreases rows@.len() - i,
    {
        proof {
            let next = rows@.take(i + 1);
            assert(next.drop_last() =~= rows@.take(i as int));
            assert(next.last() == rows@[i as int]);
        }
        if verify_failed_recently(&rows[i], now) {
            failed = failed + 1;
        }
        if exit_region_differs(&rows[i]) {
            mismatched = mismatched + 1;
        }
        i = i + 1;
    }
    assert(rows@.take(rows@.len() as int) =~= rows@);
    let risk_hit: i64 = if failed >= 2 || mismatched >= 2 {
        1
    } else {
        0
    };
    Some(RegionRiskSnapshot { recent_failed_count: failed, risk_hit })
}

/// Refreshing a snapshot twice with the same risk flag leaves the version
/// where the first refresh put it; a flip and a flip back raise it by two.
pub proof fn lemma_risk_version_moves_only_on_flips(old_hit: i64, old_version: i64, hit: i64, next_hit: i64)
    requires
        old_version < i64::MAX - 1,
    ensures
        ({
            let v1 = next_risk_version_spec(Some((old_hit, old_version)), hit);
            &&& next_risk_version_spec(Some((hit, v1 as i64)), hit) == v1
            &&& (old_hit != hit && next_hit == old_hit) ==> next_risk_version_spec(Some((hit, v1 as i64)), next_hit)
                == old_version + 2
            &&& v1 >= old_version
        }),
{
}

/// Which cached trust scores a change of one proxy refreshes.
#[derive(Debug, Clone, Copy, PartialEq, Eq, Structural)]
pub enum TrustRefreshScope {
    /// Only the changed proxy's own cached score.
    Proxy,
    /// Every proxy of the changed proxy's provider and region.
    ProviderRegion,
}

/// The caches to refresh after one proxy changed, from the provider's risk
/// flag and the provider-region risk flag before and after their snapshots
/// were refreshed: the whole provider-region only when the proxy has a
/// provider, the provider flag held still and the provider-region flag
/// changed; otherwise the proxy alone.
pub open spec fn trust_refresh_scope_spec(
    has_provider: bool,
    provider_before: Option<i64>,
    provider_after: Option<i64>,
    region_before: Option<i64>,
    region_after: Option<i64>,
) -> TrustRefreshScope {
    if has_provider && provider_before == provider_after && region_before != region_after {
        TrustRefreshScope::ProviderRegion
    } else {
        TrustRefreshScope::Proxy
    }
}

/// The caches to refresh after one proxy changed.
pub fn trust_refresh_scope(
    has_provider: bool,
    provider_before: Option<i64>,
    provider_after: Option<i64>,
    region_before: Option<i64>,
    region_after: Option<i64>,
) -> (s: TrustRefreshScope)
    ensures
        s == trust_refresh_scope_spec(has_provider, provider_before, provider_after, region_before, region_after),
{
    if !has_provider {
        TrustRefreshScope::Proxy
    } else if provider_before != provider_after {
        TrustRefreshScope::Proxy
    } else if region_before != region_after {
        TrustRefreshScope::ProviderRegion
    } else {
        TrustRefreshScope::Proxy
    }
}

/// The statement that recomputes `cached_trust_score`, `trust_score_cached_at`
/// and `provider_risk_version_seen` for every proxy; its four parameters are
/// the current time in seconds and the time the cache is stamped with.
pub open spec fn cached_trust_score_base_sql() -> Seq<char> {
    "UPDATE proxies
           SET cached_trust_score =
                (CASE WHEN last_verify_status = 'ok' THEN 30 ELSE 0 END) +
                (CASE WHEN COALESCE(last_verify_geo_match_ok, 0) != 0 THEN 20 ELSE 0 END) +
                (CASE WHEN COALESCE(last_smoke_upstream_ok, 0) != 0 THEN 10 ELSE 0 END) -
                (CASE WHEN last_verify_status = 'failed' AND last_verify_at IS NOT NULL AND CAST(last_verify_at AS INTEGER) >= CAST(? AS INTEGER) - 1800 THEN 25
                      WHEN last_verify_status = 'failed' AND last_verify_at IS NOT NULL AND CAST(last_verify_at AS INTEGER) >= CAST(? AS INTEGER) - 7200 THEN 12
                      WHEN last_verify_status = 'failed' THEN 6
                      ELSE 0 END) -
                (CASE WHEN last_verify_at IS NULL THEN 12
                      WHEN CAST(last_verify_at AS INTEGER) <= CAST(? AS INTEGER) - 86400 THEN 8
                      ELSE 0 END) -
                (CASE WHEN failure_count >= success_count + 3 THEN 18
                      WHEN failure_count > success_count THEN 8
                      ELSE 0 END) -
                (CASE WHEN provider IS NOT NULL AND EXISTS (SELECT 1 FROM provider_risk_snapshots prs WHERE prs.provider = proxies.provider AND prs.risk_hit != 0) THEN 10 ELSE 0 END) -
                (CASE WHEN provider IS NOT NULL AND region IS NOT NULL AND EXISTS (SELECT 1 FROM provider_region_risk_snapshots prrs WHERE prrs.provider = proxies.provider AND prrs.region = proxies.region AND prrs.risk_hit != 0) THEN 12 ELSE 0 END) +
                CAST(score * 10 AS INTEGER),
               trust_score_cached_at = ?,
               provider_risk_version_seen = CASE
                   WHEN provider IS NOT NULL THEN (SELECT prs.version FROM provider_risk_snapshots prs WHERE prs.provider = proxies.provider)
                   ELSE NULL
               END"@
}

/// The statement that recomputes cached trust scores, restricted by
/// `where_clause` when one is given.
pub fn cached_trust_score_update_sql(where_clause: Option<&str>) -> (sql: String)
    ensures
        sql@ == match where_clause {
            Some(w) => cached_trust_score_base_sql() + " WHERE "@ + w@,
            None => cached_trust_score_base_sql(),
        },
{
    let mut sql = owned(
        "UPDATE proxies
           SET cached_trust_score =
                (CASE WHEN last_verify_status = 'ok' THEN 30 ELSE 0 END) +
                (CASE WHEN COALESCE(last_verify_geo_match_ok, 0) != 0 THEN 20 ELSE 0 END) +
                (CASE WHEN COALESCE(last_smoke_upstream_ok, 0) != 0 THEN 10 ELSE 0 END) -
                (CASE WHEN last_verify_status = 'failed' AND last_verify_at IS NOT NULL AND CAST(last_verify_at AS INTEGER) >= CAST(? AS INTEGER) - 1800 THEN 25
                      WHEN last_verify_status = 'failed' AND last_verify_at IS NOT NULL AND CAST(last_verify_at AS INTEGER) >= CAST(? AS INTEGER) - 7200 THEN 12
                      WHEN last_verify_status = 'failed' THEN 6
                      ELSE 0 END) -
                (CASE WHEN last_verify_at IS NULL THEN 12
                      WHEN CAST(last_verify_at AS INTEGER) <= CAST(? AS INTEGER) - 86400 THEN 8
                      ELSE 0 END) -
                (CASE WHEN failure_count >= success_count + 3 THEN 18
                      WHEN failure_count > success_count THEN 8
                      ELSE 0 END) -
                (CASE WHEN provider IS NOT NULL AND EXISTS (SELECT 1 FROM provider_risk_snapshots prs WHERE prs.provider = proxies.provider AND prs.risk_hit != 0) THEN 10 ELSE 0 END) -
                (CASE WHEN provider IS NOT NULL AND region IS NOT NULL AND EXISTS (SELECT 1 FROM provider_region_risk_snapshots prrs WHERE prrs.provider = proxies.provider AND prrs.region = proxies.region AND prrs.risk_hit != 0) THEN 12 ELSE 0 END) +
                CAST(score * 10 AS INTEGER),
               trust_score_cached_at = ?,
               provider_risk_version_seen = CASE
                   WHEN provider IS NOT NULL THEN (SELECT prs.version FROM provider_risk_snapshots prs WHERE prs.provider = proxies.provider)
                   ELSE NULL
               END",
    );
    if let Some(w) = where_clause {
        sql.append(" WHERE ");
        sql.append(w);
    }
    sql
}

} // verus!
