//! Opening the local store: where its file lives and which columns an older
//! database still lacks.
use vstd::prelude::*;

use crate::text::{opt_view, owned, seq_strip_prefix, str_eq, str_strip_prefix};

verus! {

/// The file path of a `sqlite://` database URL; `None` for any other URL.
pub fn sqlite_url_file_path(database_url: &str) -> (r: Option<String>)
    ensures
        opt_view(r) == seq_strip_prefix(database_url@, "sqlite://"@),
{
    str_strip_prefix(database_url, "sqlite://")
}

/// A column that the schema gained after its tables were first created:
/// it is added with `ALTER TABLE` where a database still lacks it.
#[derive(Debug, Clone)]
pub struct ColumnMigration {
    pub table: String,
    pub column: String,
    /// The column's type and constraints, such as `TEXT` or
    /// `INTEGER NOT NULL DEFAULT 1`.
    pub declaration: String,
}

/// A column that a database has: its table and its name.
#[derive(Debug, Clone)]
pub struct TableColumn {
    pub table: String,
    pub column: String,
}

/// A migration as plain text: table, column, declaration.
pub type MigrationView = (Seq<char>, Seq<char>, Seq<char>);

/// A column as plain text: table and name.
pub type ColumnKey = (Seq<char>, Seq<char>);

pub open spec fn migration_view(m: ColumnMigration) -> MigrationView {
    (m.table@, m.column@, m.declaration@)
}

pub open spec fn migrations_view(ms: Seq<ColumnMigration>) -> Seq<MigrationView> {
    ms.map_values(|m: ColumnMigration| migration_view(m))
}

pub open spec fn column_key(c: TableColumn) -> ColumnKey {
    (c.table@, c.column@)
}

pub open spec fn columns_view(cs: Seq<TableColumn>) -> Seq<ColumnKey> {
    cs.map_values(|c: TableColumn| column_key(c))
}

/// The column that a migration adds.
pub open spec fn key_of(m: MigrationView) -> ColumnKey {
    (m.0, m.1)
}

pub open spec fn keys_of(ms: Seq<MigrationView>) -> Seq<ColumnKey> {
    ms.map_values(|m: MigrationView| key_of(m))
}

/// The statement that adds a migration's column.
pub open spec fn alter_sql_text(m: MigrationView) -> Seq<char> {
    "ALTER TABLE "@ + m.0 + " ADD COLUMN "@ + m.1 + " "@ + m.2
}

/// The migrations that a start-up applies, in order, to a database whose
/// columns are `present`: each one whose column is neither present nor added
/// by an earlier one.
pub open spec fn pending_migrations(ms: Seq<MigrationView>, present: Seq<ColumnKey>) -> Seq<MigrationView>
    decreases ms.len(),
{
    if ms.len() == 0 {
        Seq::empty()
    } else {
        let m = ms[0];
        if present.contains(key_of(m)) {
            pending_migrations(ms.drop_first(), present)
        } else {
            seq![m] + pending_migrations(ms.drop_first(), present.push(key_of(m)))
        }
    }
}

impl ColumnMigration {
    /// The `ALTER TABLE .. ADD COLUMN ..` statement for this column.
    pub fn alter_sql(&self) -> (s: String)
        ensures
            s@ == alter_sql_text(migration_view(*self)),
    {
        let mut s = owned("ALTER TABLE ");
        s.append(self.table.as_str());
        s.append(" ADD COLUMN ");
        s.append(self.column.as_str());
        s.append(" ");
        s.append(self.declaration.as_str());
        s
    }
}

fn migration(table: &str, column: &str, declaration: &str) -> (m: ColumnMigration)
    ensures
        migration_view(m) == (table@, column@, declaration@),
{
    ColumnMigration { table: owned(table), column: owned(column), declaration: owned(declaration) }
}

/// The columns added to the schema after its first release, in the order in
/// which a start-up checks them.
pub open spec fn schema_column_migrations_view() -> Seq<MigrationView> {
    seq![
        ("tasks"@, "runner_id"@, "TEXT"@),
        ("tasks"@, "heartbeat_at"@, "TEXT"@),
        ("tasks"@, "behavior_policy_json"@, "TEXT"@),
        ("tasks"@, "form_input_redacted_json"@, "TEXT"@),
        ("tasks"@, "execution_intent_json"@, "TEXT"@),
        ("tasks"@, "fingerprint_profile_id"@, "TEXT"@),
        ("tasks"@, "fingerprint_profile_version"@, "INTEGER"@),
        ("tasks"@, "identity_profile_id"@, "TEXT"@),
        ("tasks"@, "behavior_profile_id"@, "TEXT"@),
        ("tasks"@, "behavior_profile_version"@, "INTEGER"@),
        ("tasks"@, "network_profile_id"@, "TEXT"@),
        ("tasks"@, "session_profile_id"@, "TEXT"@),
        ("identity_profiles"@, "secret_aliases_json"@, "TEXT"@),
        ("site_behavior_policies"@, "version"@, "INTEGER NOT NULL DEFAULT 1"@),
        ("runs"@, "result_json"@, "TEXT"@),
        ("proxies"@, "last_probe_latency_ms"@, "INTEGER"@),
        ("proxies"@, "last_probe_error"@, "TEXT"@),
        ("proxies"@, "last_probe_error_category"@, "TEXT"@),
        ("proxies"@, "last_verify_confidence"@, "REAL"@),
        ("proxies"@, "last_verify_score_delta"@, "INTEGER"@),
        ("proxies"@, "last_verify_source"@, "TEXT"@),
        ("proxies"@, "cached_trust_score"@, "INTEGER"@),
        ("proxies"@, "trust_score_cached_at"@, "TEXT"@),
        ("proxies"@, "provider_risk_version_seen"@, "INTEGER"@),
        ("proxies"@, "source_label"@, "TEXT"@),
        ("proxies"@, "proxy_health_score"@, "REAL"@),
        ("proxies"@, "proxy_health_grade"@, "TEXT"@),
        ("proxies"@, "proxy_health_checked_at"@, "TEXT"@),
        ("proxies"@, "proxy_health_summary_json"@, "TEXT"@),
        ("proxies"@, "last_seen_at"@, "TEXT"@),
        ("proxies"@, "promoted_at"@, "TEXT"@),
        ("proxy_session_bindings"@, "fingerprint_profile_id"@, "TEXT"@),
        ("proxy_session_bindings"@, "site_key"@, "TEXT"@),
        ("proxy_session_bindings"@, "requested_region"@, "TEXT"@),
        ("proxy_session_bindings"@, "requested_provider"@, "TEXT"@),
        ("proxy_session_bindings"@, "cookies_json"@, "TEXT"@),
        ("proxy_session_bindings"@, "cookie_updated_at"@, "TEXT"@),
        ("proxy_session_bindings"@, "local_storage_json"@, "TEXT"@),
        ("proxy_session_bindings"@, "session_storage_json"@, "TEXT"@),
        ("proxy_session_bindings"@, "storage_updated_at"@, "TEXT"@),
        ("proxy_session_bindings"@, "last_success_at"@, "TEXT"@),
        ("proxy_session_bindings"@, "last_failure_at"@, "TEXT"@),
        ("provider_risk_snapshots"@, "version"@, "INTEGER NOT NULL DEFAULT 1"@),
    ]
}

/// The columns added to the schema after its first release.
#[verifier::rlimit(50)]
pub fn schema_column_migrations() -> (v: Vec<ColumnMigration>)
    ensures
        migrations_view(v@) == schema_column_migrations_view(),
{
    let v = vec![
        migration("tasks", "runner_id", "TEXT"),
        migration("tasks", "heartbeat_at", "TEXT"),
        migration("tasks", "behavior_policy_json", "TEXT"),
        migration("tasks", "form_input_redacted_json", "TEXT"),
        migration("tasks", "execution_intent_json", "TEXT"),
        migration("tasks", "fingerprint_profile_id", "TEXT"),
        migration("tasks", "fingerprint_profile_version", "INTEGER"),
        migration("tasks", "identity_profile_id", "TEXT"),
        migration("tasks", "behavior_profile_id", "TEXT"),
        migration("tasks", "behavior_profile_version", "INTEGER"),
        migration("tasks", "network_profile_id", "TEXT"),
        migration("tasks", "session_profile_id", "TEXT"),
        migration("identity_profiles", "secret_aliases_json", "TEXT"),
        migration("site_behavior_policies", "version", "INTEGER NOT NULL DEFAULT 1"),
        migration("runs", "result_json", "TEXT"),
        migration("proxies", "last_probe_latency_ms", "INTEGER"),
        migration("proxies", "last_probe_error", "TEXT"),
        migration("proxies", "last_probe_error_category", "TEXT"),
        migration("proxies", "last_verify_confidence", "REAL"),
        migration("proxies", "last_verify_score_delta", "INTEGER"),
        migration("proxies", "last_verify_source", "TEXT"),
        migration("proxies", "cached_trust_score", "INTEGER"),
        migration("proxies", "trust_score_cached_at", "TEXT"),
        migration("proxies", "provider_risk_version_seen", "INTEGER"),
        migration("proxies", "source_label", "TEXT"),
        migration("proxies", "proxy_health_score", "REAL"),
        migration("proxies", "proxy_health_grade", "TEXT"),
        migration("proxies", "proxy_health_checked_at", "TEXT"),
        migration("proxies", "proxy_health_summary_json", "TEXT"),
        migration("proxies", "last_seen_at", "TEXT"),
        migration("proxies", "promoted_at", "TEXT"),
        migration("proxy_session_bindings", "fingerprint_profile_id", "TEXT"),
        migration("proxy_session_bindings", "site_key", "TEXT"),
        migration("proxy_session_bindings", "requested_region", "TEXT"),
        migration("proxy_session_bindings", "requested_provider", "TEXT"),
        migration("proxy_session_bindings", "cookies_json", "TEXT"),
        migration("proxy_session_bindings", "cookie_updated_at", "TEXT"),
        migration("proxy_session_bindings", "local_storage_json", "TEXT"),
        migration("proxy_session_bindings", "session_storage_json", "TEXT"),
        migration("proxy_session_bindings", "storage_updated_at", "TEXT"),
        migration("proxy_session_bindings", "last_success_at", "TEXT"),
        migration("proxy_session_bindings", "last_failure_at", "TEXT"),
        migration("provider_risk_snapshots", "version", "INTEGER NOT NULL DEFAULT 1"),
    ];
    assert(migrations_view(v@) =~= schema_column_migrations_view());
    v
}

/// Whether `existing` lists the column `table`.`column`.
fn column_listed(existing: &Vec<TableColumn>, table: &str, column: &str) -> (b: bool)
    ensures
        b == columns_view(existing@).contains((table@, column@)),
{
    let mut i: usize = 0;
    while i < existing.len()
        invariant
            i <= existing@.len(),
            forall|k: int| 0 <= k < i ==> columns_view(existing@)[k] != (table@, column@),
        decreases existing@.len() - i,
    {
        if str_eq(existing[i].table.as_str(), table) && str_eq(existing[i].column.as_str(), column) {
            assert(columns_view(existing@)[i as int] == (table@, column@));
            return true;
        }
        i = i + 1;
    }
    false
}

/// Whether one of `planned` adds the column `table`.`column`.
fn column_planned(planned: &Vec<ColumnMigration>, table: &str, column: &str) -> (b: bool)
    ensures
        b == keys_of(migrations_view(planned@)).contains((table@, column@)),
{
    let mut i: usize = 0;
    while i < planned.len()
        invariant
            i <= planned@.len(),
            forall|k: int| 0 <= k < i ==> keys_of(migrations_view(planned@))[k] != (table@, column@),
        decreases planned@.len() - i,
    {
        if str_eq(planned[i].table.as_str(), table) && str_eq(planned[i].column.as_str(), column) {
            assert(keys_of(migrations_view(planned@))[i as int] == (table@, column@));
            return true;
        }
        i = i + 1;
    }
    false
}

/// The migrations to run against a database whose columns are `existing`,
/// in order: a migration is skipped where its column exists already or an
/// earlier migration adds it.
pub fn pending_column_migrations(migrations: &Vec<ColumnMigration>, existing: &Vec<TableColumn>) -> (r: Vec<ColumnMigration>)
    ensures
        migrations_view(r@) == pending_migrations(migrations_view(migrations@), columns_view(existing@)),
{
    let ghost mv = migrations_view(migrations@);
    let ghost ev = columns_view(existing@);
    let mut out: Vec<ColumnMigration> = Vec::new();
    let mut i: usize = 0;
    proof {
        assert(mv.subrange(0, mv.len() as int) =~= mv);
        assert(keys_of(migrations_view(out@)) =~= Seq::<ColumnKey>::empty());
        assert(ev + keys_of(migrations_view(out@)) =~= ev);
        assert(migrations_view(out@) =~= Seq::<MigrationView>::empty());
        assert(Seq::<MigrationView>::empty() + pending_migrations(mv, ev) =~= pending_migrations(mv, ev));
    }
    while i < migrations.len()
        invariant
            mv == migrations_view(migrations@),
            ev == columns_view(existing@),
            i <= migrations@.len(),
            migrations_view(out@) + pending_migrations(
                mv.subrange(i as int, mv.len() as int),
                ev + keys_of(migrations_view(out@)),
            ) == pending_migrations(mv, ev),
        decreases migrations@.len() - i,
    {
        let m = &migrations[i];
        let ghost rest = mv.subrange(i as int, mv.len() as int);
        let ghost present = ev + keys_of(migrations_view(out@));
        let ghost old_out = migrations_view(out@);
        proof {
            assert(rest[0] == mv[i as int]);
            assert(rest.drop_first() =~= mv.subrange(i + 1, mv.len() as int));
            assert(key_of(mv[i as int]) == (m.table@, m.column@));
        }
        let listed = column_listed(existing, m.table.as_str(), m.column.as_str());
        let planned = column_planned(&out, m.table.as_str(), m.column.as_str());
        proof {
            assert(present.contains(key_of(mv[i as int])) == (listed || planned)) by {
                let k = key_of(mv[i as int]);
                if listed {
                    let j = choose|j: int| 0 <= j < ev.len() && ev[j] == k;
                    assert(present[j] == k);
                }
                if planned {
                    let kv = keys_of(migrations_view(out@));
                    let j = choose|j: int| 0 <= j < kv.len() && kv[j] == k;
                    assert(present[ev.len() + j] == k);
                }
                if present.contains(k) {
                    let j = choose|j: int| 0 <= j < present.len() && present[j] == k;
                    if j < ev.len() {
                        assert(ev[j] == k);
                    } else {
                        assert(keys_of(migrations_view(out@))[j - ev.len()] == k);
                    }
                }
            }
        }
        if !listed && !planned {
            out.push(m.clone_migration());
            proof {
                assert(migrations_view(out@) =~= old_out.push(mv[i as int]));
                assert(keys_of(migrations_view(out@)) =~= keys_of(old_out).push(key_of(mv[i as int])));
                assert(ev + keys_of(migrations_view(out@)) =~= present.push(key_of(mv[i as int])));
                assert(old_out.push(mv[i as int]) + pending_migrations(
                    mv.subrange(i + 1, mv.len() as int),
                    present.push(key_of(mv[i as int])),
                ) =~= old_out + (seq![mv[i as int]] + pending_migrations(
                    mv.subrange(i + 1, mv.len() as int),
                    present.push(key_of(mv[i as int])),
                )));
            }
        }
        i = i + 1;
    }
    proof {
        assert(mv.subrange(i as int, mv.len() as int) =~= Seq::<MigrationView>::empty());
        assert(migrations_view(out@) + Seq::<MigrationView>::empty() =~= migrations_view(out@));
    }
    out
}

impl ColumnMigration {
    /// A copy of this migration.
    pub fn clone_migration(&self) -> (c: ColumnMigration)
        ensures
            migration_view(c) == migration_view(*self),
    {
        ColumnMigration {
            table: owned(self.table.as_str()),
            column: owned(self.column.as_str()),
            declaration: owned(self.declaration.as_str()),
        }
    }
}

/// No migration that a start-up runs adds a column that was present, and no
/// two of them add the same column.
pub proof fn lemma_pending_adds_only_missing(ms: Seq<MigrationView>, present: Seq<ColumnKey>)
    ensures
        forall|j: int| 0 <= j < pending_migrations(ms, present).len()
            ==> !present.contains(#[trigger] key_of(pending_migrations(ms, present)[j])),
        forall|j: int, k: int| 0 <= j < k < pending_migrations(ms, present).len()
            ==> key_of(#[trigger] pending_migrations(ms, present)[j]) != key_of(#[trigger] pending_migrations(ms, present)[k]),
    decreases ms.len(),
{
    if ms.len() > 0 {
        let m = ms[0];
        let rest = ms.drop_first();
        if present.contains(key_of(m)) {
            assert(pending_migrations(ms, present) == pending_migrations(rest, present));
            lemma_pending_adds_only_missing(rest, present);
        } else {
            let p2 = present.push(key_of(m));
            lemma_pending_adds_only_missing(rest, p2);
            let tail = pending_migrations(rest, p2);
            let all = pending_migrations(ms, present);
            assert(all == seq![m] + tail);
            assert(all[0] == m);
            assert forall|j: int| 0 <= j < all.len() implies !present.contains(#[trigger] key_of(all[j])) by {
                if j > 0 {
                    assert(all[j] == tail[j - 1]);
                    assert(!p2.contains(key_of(tail[j - 1])));
                    if present.contains(key_of(all[j])) {
                        let w = choose|w: int| 0 <= w < present.len() && present[w] == key_of(all[j]);
                        assert(p2[w] == key_of(all[j]));
                    }
                }
            }
            assert forall|j: int, k: int| 0 <= j < k < all.len()
                implies key_of(#[trigger] all[j]) != key_of(#[trigger] all[k]) by {
                assert(all[k] == tail[k - 1]);
                assert(!p2.contains(key_of(tail[k - 1])));
                if j == 0 {
                    assert(p2[present.len() as int] == key_of(m));
                } else {
                    assert(all[j] == tail[j - 1]);
                }
            }
        }
    }
}

proof fn lemma_pending_empty_when_covered(ms: Seq<MigrationView>, p: Seq<ColumnKey>, q: Seq<ColumnKey>)
    requires
        forall|k: ColumnKey| p.contains(k) ==> q.contains(k),
        forall|j: int| 0 <= j < pending_migrations(ms, p).len()
            ==> q.contains(#[trigger] key_of(pending_migrations(ms, p)[j])),
    ensures
        pending_migrations(ms, q).len() == 0,
    decreases ms.len(),
{
    if ms.len() > 0 {
        let m = ms[0];
        let rest = ms.drop_first();
        if p.contains(key_of(m)) {
            assert(pending_migrations(ms, p) == pending_migrations(rest, p));
            lemma_pending_empty_when_covered(rest, p, q);
        } else {
            let p2 = p.push(key_of(m));
            let all = pending_migrations(ms, p);
            let tail = pending_migrations(rest, p2);
            assert(all == seq![m] + tail);
            assert(all[0] == m);
            assert(q.contains(key_of(all[0])));
            assert forall|k: ColumnKey| p2.contains(k) implies q.contains(k) by {
                let w = choose|w: int| 0 <= w < p2.len() && p2[w] == k;
                if w < p.len() {
                    assert(p[w] == k);
                }
            }
            assert forall|j: int| 0 <= j < tail.len() implies q.contains(#[trigger] key_of(tail[j])) by {
                assert(all[j + 1] == tail[j]);
            }
            lemma_pending_empty_when_covered(rest, p2, q);
        }
    }
}

/// Opening a database twice adds nothing the second time: once the pending
/// migrations have run, none is pending any more.
pub proof fn lemma_pending_idempotent(ms: Seq<MigrationView>, present: Seq<ColumnKey>)
    ensures
        pending_migrations(ms, present + keys_of(pending_migrations(ms, present))).len() == 0,
{
    let r = pending_migrations(ms, present);
    let q = present + keys_of(r);
    assert forall|k: ColumnKey| present.contains(k) implies q.contains(k) by {
        let w = choose|w: int| 0 <= w < present.len() && present[w] == k;
        assert(q[w] == k);
    }
    assert forall|j: int| 0 <= j < r.len() implies q.contains(#[trigger] key_of(r[j])) by {
        assert(q[present.len() + j] == key_of(r[j]));
    }
    lemma_pending_empty_when_covered(ms, present, q);
}

} // verus!
