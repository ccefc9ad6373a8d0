use persona_pilot::desktop::settings::SettingsError;
use persona_pilot::desktop::workspace::{
    import_export_skeleton, local_asset_catalog, local_asset_entry_location, LocalAssetRoot,
};

#[test]
fn asset_entries_resolve_below_their_roots() {
    let loc = local_asset_entry_location("bookmarkCatalog").unwrap();
    assert_eq!(loc.root, LocalAssetRoot::Workspace);
    assert_eq!(loc.segments, vec!["bookmarks".to_string(), "catalog.json".to_string()]);
    assert!(loc.is_file);
    let loc = local_asset_entry_location("runtimePolicy").unwrap();
    assert_eq!(loc.root, LocalAssetRoot::Data);
    assert_eq!(loc.segments, vec!["desktop_runtime_settings.json".to_string()]);
    let loc = local_asset_entry_location("browserProfilesDir").unwrap();
    assert_eq!((loc.root, loc.is_file), (LocalAssetRoot::BrowserEnvironment, false));
    let err = local_asset_entry_location("cloudVault").unwrap_err();
    assert_eq!(err, SettingsError::UnsupportedAssetEntry { given: "cloudVault".to_string() });
    assert_eq!(err.message(), "unsupported local asset entry: cloudVault");
}

#[test]
fn catalog_lists_every_entry_with_a_location() {
    let catalog = local_asset_catalog();
    assert_eq!(catalog.len(), 10);
    for entry in &catalog {
        let loc = local_asset_entry_location(&entry.id).expect("catalog entry location");
        assert_eq!(loc.is_file, entry.kind != "directory");
    }
    assert_eq!(catalog[6].id, "bookmarkCatalog");
    assert_eq!(catalog[6].kind, "catalog_file");
}

#[test]
fn skeleton_is_manifest_first() {
    let s = import_export_skeleton(
        "data/assets/imports".to_string(),
        "data/assets/exports".to_string(),
        "data/assets/imports/import-manifest.template.json".to_string(),
        "data/assets/exports/export-bundle.template.json".to_string(),
        "1700000000".to_string(),
    );
    assert_eq!(s.mode, "local_manifest_queue");
    assert_eq!(s.supported_import_kinds.len(), 4);
    assert!(s.supported_export_kinds.contains(&"session_bundle".to_string()));
    let required: Vec<(&str, bool)> = s.import_fields.iter().map(|f| (f.key.as_str(), f.required)).collect();
    assert_eq!(required, vec![("assetKind", true), ("sourcePath", true), ("targetSlot", true), ("notes", false)]);
    assert_eq!(s.export_fields[3].key, "includeMetadata");
    let example = s.export_fields[1].example.clone().unwrap();
    assert!(local_asset_entry_location(&example).is_ok());
    assert_eq!(s.notes.len(), 4);
}

#[test]
fn settings_refusals_carry_their_messages() {
    assert_eq!(SettingsError::WorkerCountZero.message(), "worker_count must be greater than 0");
    assert_eq!(
        SettingsError::UnsupportedStartMode { given: "boot".to_string() }.message(),
        "unsupported start_mode: boot"
    );
}
