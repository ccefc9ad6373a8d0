use persona_pilot::db::migrate::{
    pending_column_migrations, schema_column_migrations, sqlite_url_file_path, ColumnMigration,
    TableColumn,
};
use persona_pilot::db::risk::{
    cached_trust_score_update_sql, next_provider_risk_version, refresh_provider_risk_snapshot, trust_refresh_scope,
    ProviderProxyRiskRow, ProviderRiskSnapshot, TrustRefreshScope, provider_region_risk_snapshot,
    RegionProxyRiskRow, RegionRiskSnapshot,
};

fn column(table: &str, column: &str) -> TableColumn {
    TableColumn { table: table.to_string(), column: column.to_string() }
}

fn keys(ms: &[ColumnMigration]) -> Vec<(String, String)> {
    ms.iter().map(|m| (m.table.clone(), m.column.clone())).collect()
}

#[test]
fn sqlite_url_file_path_strips_the_scheme() {
    assert_eq!(
        sqlite_url_file_path("sqlite://data/persona_pilot.db"),
        Some("data/persona_pilot.db".to_string())
    );
    assert_eq!(sqlite_url_file_path("sqlite://"), Some(String::new()));
    assert_eq!(sqlite_url_file_path("postgres://db/main"), None);
    assert_eq!(sqlite_url_file_path("data/persona_pilot.db"), None);
}

#[test]
fn schema_column_migrations_list_the_later_columns_in_order() {
    let ms = schema_column_migrations();
    assert_eq!(ms.len(), 43);
    assert_eq!(ms[0].alter_sql(), "ALTER TABLE tasks ADD COLUMN runner_id TEXT");
    assert_eq!(
        ms[13].alter_sql(),
        "ALTER TABLE site_behavior_policies ADD COLUMN version INTEGER NOT NULL DEFAULT 1"
    );
    assert_eq!(
        ms[42].alter_sql(),
        "ALTER TABLE provider_risk_snapshots ADD COLUMN version INTEGER NOT NULL DEFAULT 1"
    );
    assert_eq!(ms[18].alter_sql(), "ALTER TABLE proxies ADD COLUMN last_verify_confidence REAL");
}

#[test]
fn fresh_database_needs_every_migration_and_a_current_one_none() {
    let ms = schema_column_migrations();
    let all = pending_column_migrations(&ms, &Vec::new());
    assert_eq!(keys(&all), keys(&ms));
    let existing: Vec<TableColumn> = ms.iter().map(|m| column(&m.table, &m.column)).collect();
    assert!(pending_column_migrations(&ms, &existing).is_empty());
}

#[test]
fn pending_migrations_skip_present_columns_and_repeats() {
    let ms = vec![
        ColumnMigration { table: "tasks".into(), column: "runner_id".into(), declaration: "TEXT".into() },
        ColumnMigration { table: "tasks".into(), column: "heartbeat_at".into(), declaration: "TEXT".into() },
        ColumnMigration { table: "runs".into(), column: "runner_id".into(), declaration: "TEXT".into() },
        ColumnMigration { table: "tasks".into(), column: "heartbeat_at".into(), declaration: "INTEGER".into() },
    ];
    let existing = vec![column("tasks", "runner_id"), column("tasks", "status")];
    let pending = pending_column_migrations(&ms, &existing);
    assert_eq!(
        keys(&pending),
        vec![
            ("tasks".to_string(), "heartbeat_at".to_string()),
            ("runs".to_string(), "runner_id".to_string()),
        ]
    );
    assert_eq!(pending[0].declaration, "TEXT");
}

#[test]
fn second_start_up_applies_no_migration() {
    let ms = schema_column_migrations();
    let mut existing = vec![column("tasks", "runner_id"), column("proxies", "source_label")];
    let first = pending_column_migrations(&ms, &existing);
    assert_eq!(first.len(), 41);
    existing.extend(first.iter().map(|m| column(&m.table, &m.column)));
    assert!(pending_column_migrations(&ms, &existing).is_empty());
}

#[test]
fn provider_risk_version_moves_only_when_the_flag_flips() {
    assert_eq!(next_provider_risk_version(None, 0), 1);
    assert_eq!(next_provider_risk_version(None, 1), 1);
    assert_eq!(next_provider_risk_version(Some((0, 1)), 1), 2);
    assert_eq!(next_provider_risk_version(Some((1, 2)), 1), 2);
    assert_eq!(next_provider_risk_version(Some((1, 2)), 0), 3);
}

#[test]
fn trust_refresh_scope_widens_only_on_a_region_flip() {
    // provider and region flags unchanged: only the changed proxy
    assert_eq!(trust_refresh_scope(true, Some(0), Some(0), Some(0), Some(0)), TrustRefreshScope::Proxy);
    // provider flag flipped: the current proxy is refreshed lazily
    assert_eq!(trust_refresh_scope(true, Some(0), Some(1), Some(0), Some(1)), TrustRefreshScope::Proxy);
    // a proxy without provider falls back to its own cache
    assert_eq!(trust_refresh_scope(false, None, None, None, Some(1)), TrustRefreshScope::Proxy);
    // provider-region flag flipped under a steady provider flag
    assert_eq!(
        trust_refresh_scope(true, Some(0), Some(0), None, Some(1)),
        TrustRefreshScope::ProviderRegion
    );
}

#[test]
fn cached_trust_score_sql_appends_the_scope() {
    let all = cached_trust_score_update_sql(None);
    assert!(all.starts_with("UPDATE proxies"));
    assert!(all.ends_with("END"));
    assert!(all.contains("CAST(score * 10 AS INTEGER)"));
    assert_eq!(all.matches('?').count(), 4);
    let one = cached_trust_score_update_sql(Some("id = ?"));
    assert_eq!(one, format!("{} WHERE id = ?", all));
    let pair = cached_trust_score_update_sql(Some("provider = ? AND region = ?"));
    assert!(pair.ends_with(" WHERE provider = ? AND region = ?"));
}

fn risk_row(success: i64, failure: i64, category: Option<&str>) -> ProviderProxyRiskRow {
    ProviderProxyRiskRow {
        success_count: success,
        failure_count: failure,
        last_probe_error_category: category.map(str::to_string),
    }
}

#[test]
fn risk_snapshot_flips_when_failures_outweigh_successes() {
    let rows = vec![risk_row(3, 0, None), risk_row(3, 0, None)];
    let before = refresh_provider_risk_snapshot(None, &rows).unwrap();
    assert_eq!(before, ProviderRiskSnapshot { success_count: 6, failure_count: 0, risk_hit: 0, version: 1 });
    let rows = vec![risk_row(3, 12, None), risk_row(3, 0, None)];
    let after = refresh_provider_risk_snapshot(Some((before.risk_hit, before.version)), &rows).unwrap();
    assert_eq!(after, ProviderRiskSnapshot { success_count: 6, failure_count: 12, risk_hit: 1, version: 2 });
    let again = refresh_provider_risk_snapshot(Some((after.risk_hit, after.version)), &rows).unwrap();
    assert_eq!(again.version, 2);
}

#[test]
fn risk_snapshot_counts_non_public_exits_and_refuses_overflow() {
    let rows = vec![
        risk_row(10, 0, Some("exit_ip_not_public")),
        risk_row(10, 0, Some("timeout")),
        risk_row(10, 0, Some("exit_ip_not_public")),
    ];
    let s = refresh_provider_risk_snapshot(Some((0, 7)), &rows).unwrap();
    assert_eq!((s.risk_hit, s.version), (1, 8));
    let one = vec![risk_row(10, 14, Some("exit_ip_not_public"))];
    assert_eq!(refresh_provider_risk_snapshot(None, &one).unwrap().risk_hit, 0);
    assert_eq!(refresh_provider_risk_snapshot(None, &vec![]).unwrap(),
        ProviderRiskSnapshot { success_count: 0, failure_count: 0, risk_hit: 0, version: 1 });
    let huge = vec![risk_row(i64::MAX, 0, None), risk_row(1, 0, None)];
    assert!(refresh_provider_risk_snapshot(None, &huge).is_none());
}

fn region_row(status: Option<&str>, at: Option<i64>, exit: Option<&str>, region: Option<&str>) -> RegionProxyRiskRow {
    RegionProxyRiskRow {
        last_verify_status: status.map(str::to_string),
        last_verify_at: at,
        last_exit_region: exit.map(str::to_string),
        region: region.map(str::to_string),
    }
}

#[test]
fn region_risk_counts_recent_failures_and_exit_mismatches() {
    let now = 10_000;
    let rows = vec![
        region_row(Some("failed"), Some(now - 3600), Some("US-East"), Some("us-east")),
        region_row(Some("failed"), Some(now - 3601), None, Some("us-east")),
        region_row(Some("ok"), Some(now), Some("eu-west"), Some("us-east")),
    ];
    assert_eq!(provider_region_risk_snapshot(&rows, now), Some(RegionRiskSnapshot { recent_failed_count: 1, risk_hit: 0 }));
    let mut more = rows.clone();
    more.push(region_row(Some("failed"), Some(now - 5), None, Some("us-east")));
    assert_eq!(provider_region_risk_snapshot(&more, now), Some(RegionRiskSnapshot { recent_failed_count: 2, risk_hit: 1 }));
    let mut moved = rows.clone();
    moved.push(region_row(None, None, Some("ap-south"), Some("us-east")));
    assert_eq!(provider_region_risk_snapshot(&moved, now).unwrap().risk_hit, 1);
    assert_eq!(provider_region_risk_snapshot(&Vec::new(), now), None);
}
