use persona_pilot::desktop::session_bundle::{
    preflight_session_bundle, requested_bundle_path, requested_export_profile_id,
    session_bundle_export_summary, session_bundle_export_warnings, session_bundle_id,
    session_bundle_restore_without_write, session_bundle_restored, session_bundle_target_profile_id,
    artifact_summary_from_shape, parsed_json_artifact_summary, BundleReferenceCheck, JsonShape,
    SessionBundleError, SessionBundleFacts, session_binding_from_row, session_bundle_artifact_json, SessionBindingRow,
};

fn facts(schema: &str, bindings: usize) -> SessionBundleFacts {
    SessionBundleFacts {
        bundle_id: "session-bundle-p1-100".to_string(),
        profile_id: "p1".to_string(),
        bundle_path: "/tmp/bundle.json".to_string(),
        schema_version: schema.to_string(),
        collector_version: "desktop-session-bundle-export-v1".to_string(),
        warnings: vec!["sensitive session payloads redacted".to_string()],
        session_binding_count: bindings,
    }
}

fn reference(label: &str, id: Option<&str>, exists: bool) -> BundleReferenceCheck {
    BundleReferenceCheck { label: label.to_string(), id: id.map(String::from), exists }
}

fn all_present() -> Vec<BundleReferenceCheck> {
    vec![
        reference("fingerprint profile", Some("fp-1"), true),
        reference("behavior profile", None, true),
        reference("network policy", Some("net-1"), true),
        reference("continuity policy", Some("cont-1"), true),
    ]
}

#[test]
fn export_names_and_warnings() {
    assert_eq!(requested_export_profile_id("  persona-1 ").unwrap(), "persona-1");
    assert_eq!(requested_export_profile_id(" ").unwrap_err(), SessionBundleError::ProfileIdRequired);
    assert_eq!(SessionBundleError::ProfileIdRequired.message(), "profile_id is required");
    assert_eq!(session_bundle_id("persona-1", "1700000000"), "session-bundle-persona-1-1700000000");
    assert_eq!(
        session_bundle_export_warnings(false, 0, false),
        vec![
            "sensitive session payloads redacted; re-export with includeSensitivePayloads=true for local restore evidence".to_string(),
            "no proxy_session_bindings found for this profile fingerprint; restart continuity evidence is absent".to_string(),
            "profile has no behavior profile reference".to_string(),
        ]
    );
    assert!(session_bundle_export_warnings(true, 2, true).is_empty());
    assert_eq!(
        session_bundle_export_summary("persona-1", 1, false),
        "Exported session bundle for profile persona-1: 1 binding(s), sensitive payloads redacted."
    );
    assert_eq!(
        session_bundle_export_summary("persona-1", 12, true),
        "Exported session bundle for profile persona-1: 12 binding(s), sensitive payloads included."
    );
}

#[test]
fn restore_targets_the_requested_profile_or_the_source() {
    assert_eq!(session_bundle_target_profile_id(Some("  copy-1 ".to_string()), "p1"), "copy-1");
    assert_eq!(session_bundle_target_profile_id(Some("   ".to_string()), "p1"), "p1");
    assert_eq!(session_bundle_target_profile_id(None, "p1"), "p1");
    assert_eq!(requested_bundle_path("  /tmp/b.json ").unwrap(), "/tmp/b.json");
    assert_eq!(requested_bundle_path("").unwrap_err().message(), "bundle_path is required");
}

#[test]
fn preflight_blocks_an_existing_profile_without_overwrite() {
    let p = preflight_session_bundle(facts("session-bundle-v1", 1), "p1".to_string(), true, false, &all_present());
    assert_eq!(p.status, "blocked");
    assert_eq!(p.conflict_count, 1);
    assert!(!p.restore_supported);
    assert_eq!(p.errors, vec!["target profile already exists and allowProfileOverwrite=false: p1".to_string()]);
    assert_eq!(p.restore_plan.len(), 5);
    assert_eq!(p.restore_plan[2].status, "blocked");
    assert_eq!(p.restore_plan[2].detail, "targetProfileId=p1; conflictCount=1");
    assert_eq!(p.restore_plan[4].id, "resolve_blocks");
    assert_eq!(p.restore_plan[4].detail, "target profile already exists and allowProfileOverwrite=false: p1");
    assert_eq!(
        p.summary,
        "Session bundle preflight blocked: 1 binding(s), 0 missing reference(s), 1 conflict(s)."
    );
}

#[test]
fn preflight_clears_a_new_target_with_all_references() {
    let p = preflight_session_bundle(facts("session-bundle-v1", 1), "copy-1".to_string(), false, false, &all_present());
    assert_eq!(p.status, "ready_for_confirmed_restore");
    assert_eq!(p.session_binding_count, 1);
    assert_eq!(p.missing_reference_count, 0);
    assert_eq!(p.conflict_count, 0);
    assert!(p.restore_supported);
    assert!(p.errors.is_empty());
    assert_eq!(p.import_mode, "preflight_then_confirmed_restore");
    let ids: Vec<&str> = p.restore_plan.iter().map(|s| s.id.as_str()).collect();
    assert_eq!(ids, vec!["read_bundle", "validate_references", "check_profile_conflict", "restore_session_bindings"]);
    assert!(p.restore_plan.iter().all(|s| s.status == "ready"));
    assert_eq!(p.restore_plan[0].detail, "Parsed /tmp/bundle.json");
    assert_eq!(p.warnings, vec!["sensitive session payloads redacted".to_string()]);
    // Overwrite allowed: an existing target no longer conflicts.
    let q = preflight_session_bundle(facts("session-bundle-v1", 1), "p1".to_string(), true, true, &all_present());
    assert!(q.restore_supported);
}

#[test]
fn preflight_reports_schema_and_missing_references_in_order() {
    let refs = vec![
        reference("fingerprint profile", Some("fp-x"), false),
        reference("behavior profile", None, true),
        reference("network policy", Some("net-1"), true),
        reference("continuity policy", Some("cont-x"), false),
    ];
    let p = preflight_session_bundle(facts("session-bundle-v0", 0), "p1".to_string(), false, false, &refs);
    assert_eq!(
        p.errors,
        vec![
            "unsupported session bundle schema version: session-bundle-v0".to_string(),
            "missing fingerprint profile reference required by bundle: fp-x".to_string(),
            "missing continuity policy reference required by bundle: cont-x".to_string(),
        ]
    );
    assert_eq!(p.missing_reference_count, 2);
    assert_eq!(p.restore_plan[1].detail, "missingReferenceCount=2");
    assert_eq!(p.restore_plan[1].status, "blocked");
    assert_eq!(
        p.warnings.last().map(String::as_str),
        Some("bundle has no session bindings to restore")
    );
    let missing_behavior = vec![reference("behavior profile", None, false)];
    let q = preflight_session_bundle(facts("session-bundle-v1", 1), "p1".to_string(), false, false, &missing_behavior);
    assert_eq!(q.errors, vec!["missing behavior profile reference required by bundle: <none>".to_string()]);
}

#[test]
fn restore_blocks_dry_runs_or_writes() {
    let blocked = preflight_session_bundle(facts("session-bundle-v1", 1), "p1".to_string(), true, false, &all_present());
    let r = session_bundle_restore_without_write(blocked, Some(false)).unwrap();
    assert_eq!(r.status, "blocked_preflight_failed");
    assert!(!r.write_performed);
    assert_eq!(r.summary, "Restore blocked by preflight: target profile already exists and allowProfileOverwrite=false: p1");

    let ready = preflight_session_bundle(facts("session-bundle-v1", 1), "copy-1".to_string(), false, false, &all_present());
    let dry = session_bundle_restore_without_write(ready, Some(true)).unwrap();
    assert_eq!(dry.status, "dry_run_ready");
    assert!(!dry.write_performed);
    assert_eq!(dry.restored_session_binding_count, 0);
    assert_eq!(dry.summary, "Dry-run restore passed for target profile copy-1 with 1 binding(s); no DB writes performed.");

    let ready = preflight_session_bundle(facts("session-bundle-v1", 1), "copy-1".to_string(), false, false, &all_present());
    let unspecified = session_bundle_restore_without_write(ready, None).unwrap();
    assert!(unspecified.dry_run);
    assert_eq!(unspecified.status, "dry_run_ready");

    let ready = preflight_session_bundle(facts("session-bundle-v1", 1), "copy-1".to_string(), false, false, &all_present());
    let must_write = session_bundle_restore_without_write(ready, Some(false)).unwrap_err();
    let restored = session_bundle_restored(must_write, 1);
    assert_eq!(restored.status, "restored");
    assert!(restored.write_performed);
    assert!(!restored.dry_run);
    assert_eq!(restored.restored_session_binding_count, 1);
    assert_eq!(restored.target_profile_id, "copy-1");
    assert_eq!(restored.summary, "Restored session bundle for target profile copy-1 with 1 binding(s).");
}

#[test]
fn artifact_summary_counts_entries_and_carries_payload_only_when_included() {
    let cookies = Some(r#"[{"name":"sid"},{"name":"cart"},{"name":"ab"}]"#.to_string());
    let s = parsed_json_artifact_summary(cookies.clone(), true);
    assert!(s.present);
    assert_eq!(s.item_count, 3);
    assert!(s.included);
    assert_eq!(s.value, cookies);

    let s = parsed_json_artifact_summary(Some(r#"{"a":"1","b":"2"}"#.to_string()), false);
    assert!(s.present);
    assert_eq!(s.item_count, 2);
    assert!(!s.included);
    assert_eq!(s.value, None);

    let s = parsed_json_artifact_summary(Some("null".to_string()), true);
    assert!(s.present);
    assert_eq!(s.item_count, 0);

    let s = parsed_json_artifact_summary(Some("\"token\"".to_string()), true);
    assert_eq!(s.item_count, 1);

    let s = parsed_json_artifact_summary(Some("not json".to_string()), true);
    assert!(!s.present);
    assert_eq!(s.item_count, 0);
    assert!(!s.included);
    assert_eq!(s.value, None);

    let s = parsed_json_artifact_summary(None, true);
    assert!(!s.present);
}

#[test]
fn artifact_summary_from_shape_follows_the_shape() {
    let s = artifact_summary_from_shape(Some("[..]".to_string()), Some(JsonShape::Array { len: 5 }), true);
    assert_eq!((s.present, s.item_count, s.included), (true, 5, true));
    assert_eq!(s.value.as_deref(), Some("[..]"));
    let s = artifact_summary_from_shape(Some("x".to_string()), None, true);
    assert_eq!((s.present, s.item_count, s.included), (false, 0, false));
    let s = artifact_summary_from_shape(None, Some(JsonShape::Scalar), false);
    assert_eq!((s.present, s.item_count, s.included), (true, 1, false));
}

#[test]
fn session_binding_summaries_hide_payloads_unless_included() {
    let row = || SessionBindingRow {
        session_key: "sess-1".to_string(),
        proxy_id: "px-1".to_string(),
        provider: Some("pool-a".to_string()),
        region: None,
        site_key: Some("shop.example".to_string()),
        requested_region: None,
        requested_provider: None,
        cookies_json: Some(r#"[{"name":"sid"}]"#.to_string()),
        cookie_updated_at: Some("10".to_string()),
        local_storage_json: Some(r#"{"cart":"1","ab":"x"}"#.to_string()),
        session_storage_json: None,
        storage_updated_at: None,
        last_success_at: None,
        last_failure_at: None,
        last_used_at: "20".to_string(),
        expires_at: Some("30".to_string()),
        created_at: "1".to_string(),
        updated_at: "2".to_string(),
    };
    let hidden = session_binding_from_row(row(), false);
    assert_eq!(hidden.session_key, "sess-1");
    assert_eq!(hidden.site_key.as_deref(), Some("shop.example"));
    assert_eq!((hidden.cookies.present, hidden.cookies.item_count, hidden.cookies.included), (true, 1, false));
    assert_eq!(hidden.cookies.value, None);
    assert_eq!((hidden.local_storage.item_count, hidden.local_storage.included), (2, false));
    assert!(!hidden.session_storage.present);
    assert_eq!(hidden.last_used_at, "20");

    assert_eq!(session_bundle_artifact_json(&hidden.cookies), None);
    let shown = session_binding_from_row(row(), true);
    assert_eq!(session_bundle_artifact_json(&shown.cookies).as_deref(), Some(r#"[{"name":"sid"}]"#));
    assert!(shown.cookies.included);
    assert_eq!(shown.cookies.value.as_deref(), Some(r#"[{"name":"sid"}]"#));
    assert!(!shown.session_storage.included);
}
