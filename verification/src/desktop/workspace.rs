//! The local data layout of the desktop shell: where each local asset lives
//! relative to the data directories, the catalog of asset entries, and the
//! manifest-first import/export skeleton.
use vstd::prelude::*;

use super::settings::SettingsError;
use super::types::{DesktopImportExportFieldDefinition, DesktopImportExportSkeleton};
use crate::text::{owned, str_eq, strings_view, strs_view, owned_strings};

verus! {

/// The directory an asset path starts from. `Data` is the directory of the
/// database file; `Control`, `Workspace` and `BrowserEnvironment` are its
/// `control`, `assets` and `browser-environments` subdirectories.
#[derive(Debug, Clone, Copy, PartialEq, Eq, Structural)]
pub enum LocalAssetRoot {
    Data,
    Control,
    Workspace,
    BrowserEnvironment,
}

/// Where a local asset lives: a root, the path segments below it, and
/// whether it is a file (else a directory).
#[derive(Debug, Clone)]
pub struct LocalAssetLocation {
    pub root: LocalAssetRoot,
    pub segments: Vec<String>,
    pub is_file: bool,
}

/// The location of each local asset entry, `None` for an unknown id.
pub open spec fn asset_location(id: Seq<char>) -> Option<(LocalAssetRoot, Seq<Seq<char>>, bool)> {
    if id == "runtimePolicy"@ {
        Some((LocalAssetRoot::Data, seq!["desktop_runtime_settings.json"@], true))
    } else if id == "localApiConfig"@ {
        Some((LocalAssetRoot::Control, seq!["desktop_local_api_settings.json"@], true))
    } else if id == "browserEnvironmentPolicy"@ {
        Some((LocalAssetRoot::Control, seq!["desktop_browser_environment_policy.json"@], true))
    } else if id == "browserProfilesDir"@ {
        Some((LocalAssetRoot::BrowserEnvironment, seq!["profiles"@], false))
    } else if id == "browserDownloadsDir"@ {
        Some((LocalAssetRoot::BrowserEnvironment, seq!["downloads"@], false))
    } else if id == "browserExtensionsDir"@ {
        Some((LocalAssetRoot::BrowserEnvironment, seq!["extensions"@], false))
    } else if id == "bookmarkCatalog"@ {
        Some((LocalAssetRoot::Workspace, seq!["bookmarks"@, "catalog.json"@], true))
    } else if id == "profileArchiveDir"@ {
        Some((LocalAssetRoot::Workspace, seq!["profile-archives"@], false))
    } else if id == "importQueueDir"@ {
        Some((LocalAssetRoot::Workspace, seq!["imports"@], false))
    } else if id == "exportQueueDir"@ {
        Some((LocalAssetRoot::Workspace, seq!["exports"@], false))
    } else {
        None
    }
}

fn location(root: LocalAssetRoot, segments: Vec<&str>, is_file: bool) -> (l: LocalAssetLocation)
    ensures
        l.root == root,
        strings_view(l.segments@) == strs_view(segments@),
        l.is_file == is_file,
{
    LocalAssetLocation { root, segments: owned_strings(&segments), is_file }
}

/// Where the local asset entry `entry_id` lives; an unknown id is refused.
pub fn local_asset_entry_location(entry_id: &str) -> (r: Result<LocalAssetLocation, SettingsError>)
    ensures
        match asset_location(entry_id@) {
            Some((root, segments, is_file)) => r matches Ok(l) && l.root == root && strings_view(l.segments@)
                == segments && l.is_file == is_file,
            None => r matches Err(SettingsError::UnsupportedAssetEntry { given }) && given@ == entry_id@,
        },
{
    let r = if str_eq(entry_id, "runtimePolicy") {
        location(LocalAssetRoot::Data, vec!["desktop_runtime_settings.json"], true)
    } else if str_eq(entry_id, "localApiConfig") {
        location(LocalAssetRoot::Control, vec!["desktop_local_api_settings.json"], true)
    } else if str_eq(entry_id, "browserEnvironmentPolicy") {
        location(LocalAssetRoot::Control, vec!["desktop_browser_environment_policy.json"], true)
    } else if str_eq(entry_id, "browserProfilesDir") {
        location(LocalAssetRoot::BrowserEnvironment, vec!["profiles"], false)
    } else if str_eq(entry_id, "browserDownloadsDir") {
        location(LocalAssetRoot::BrowserEnvironment, vec!["downloads"], false)
    } else if str_eq(entry_id, "browserExtensionsDir") {
        location(LocalAssetRoot::BrowserEnvironment, vec!["extensions"], false)
    } else if str_eq(entry_id, "bookmarkCatalog") {
        location(LocalAssetRoot::Workspace, vec!["bookmarks", "catalog.json"], true)
    } else if str_eq(entry_id, "profileArchiveDir") {
        location(LocalAssetRoot::Workspace, vec!["profile-archives"], false)
    } else if str_eq(entry_id, "importQueueDir") {
        location(LocalAssetRoot::Workspace, vec!["imports"], false)
    } else if str_eq(entry_id, "exportQueueDir") {
        location(LocalAssetRoot::Workspace, vec!["exports"], false)
    } else {
        return Err(SettingsError::UnsupportedAssetEntry { given: owned(entry_id) });
    };
    assert(strs_view(seq!["desktop_runtime_settings.json"]) =~= seq!["desktop_runtime_settings.json"@]);
    assert(strs_view(seq!["desktop_local_api_settings.json"]) =~= seq!["desktop_local_api_settings.json"@]);
    assert(strs_view(seq!["desktop_browser_environment_policy.json"]) =~= seq![
        "desktop_browser_environment_policy.json"@,
    ]);
    assert(strs_view(seq!["profiles"]) =~= seq!["profiles"@]);
    assert(strs_view(seq!["downloads"]) =~= seq!["downloads"@]);
    assert(strs_view(seq!["extensions"]) =~= seq!["extensions"@]);
    assert(strs_view(seq!["bookmarks", "catalog.json"]) =~= seq!["bookmarks"@, "catalog.json"@]);
    assert(strs_view(seq!["profile-archives"]) =~= seq!["profile-archives"@]);
    assert(strs_view(seq!["imports"]) =~= seq!["imports"@]);
    assert(strs_view(seq!["exports"]) =~= seq!["exports"@]);
    Ok(r)
}

/// One entry of the local asset workspace, without its path and status.
#[derive(Debug, Clone)]
pub struct LocalAssetCatalogEntry {
    pub id: String,
    pub label: String,
    pub kind: String,
    pub description: String,
}

/// The ids of the local asset entries, in the order the workspace lists them.
pub open spec fn asset_entry_ids() -> Seq<Seq<char>> {
    seq![
        "runtimePolicy"@,
        "localApiConfig"@,
        "browserEnvironmentPolicy"@,
        "browserProfilesDir"@,
        "browserDownloadsDir"@,
        "browserExtensionsDir"@,
        "bookmarkCatalog"@,
        "profileArchiveDir"@,
        "importQueueDir"@,
        "exportQueueDir"@,
    ]
}

/// The kind of each entry, in the same order: a configuration file, a
/// catalog file or a directory.
pub open spec fn asset_entry_kinds() -> Seq<Seq<char>> {
    seq![
        "config_file"@,
        "config_file"@,
        "config_file"@,
        "directory"@,
        "directory"@,
        "directory"@,
        "catalog_file"@,
        "directory"@,
        "directory"@,
        "directory"@,
    ]
}

/// The ids of catalog entries.
pub open spec fn catalog_ids(v: Seq<LocalAssetCatalogEntry>) -> Seq<Seq<char>> {
    Seq::new(v.len(), |i: int| v[i].id@)
}

/// The kinds of catalog entries.
pub open spec fn catalog_kinds(v: Seq<LocalAssetCatalogEntry>) -> Seq<Seq<char>> {
    Seq::new(v.len(), |i: int| v[i].kind@)
}

fn catalog_entry(id: &str, label: &str, kind: &str, description: &str) -> (e: LocalAssetCatalogEntry)
    ensures
        e.id@ == id@,
        e.label@ == label@,
        e.kind@ == kind@,
        e.description@ == description@,
{
    LocalAssetCatalogEntry { id: owned(id), label: owned(label), kind: owned(kind), description: owned(description) }
}

/// The entries of the local asset workspace, in order, each with its label,
/// kind and description.
pub fn local_asset_catalog() -> (v: Vec<LocalAssetCatalogEntry>)
    ensures
        catalog_ids(v@) == asset_entry_ids(),
        catalog_kinds(v@) == asset_entry_kinds(),
{
    let mut v: Vec<LocalAssetCatalogEntry> = Vec::new();
    v.push(catalog_entry(
        "runtimePolicy",
        "Runtime policy",
        "config_file",
        "Runner concurrency, heartbeat, reclaim and idle backoff live here.",
    ));
    v.push(catalog_entry(
        "localApiConfig",
        "Local API config",
        "config_file",
        "Loopback host, auth mode and start policy stay in this local control file.",
    ));
    v.push(catalog_entry(
        "browserEnvironmentPolicy",
        "Browser environment policy",
        "config_file",
        "Local browser family, profile storage and asset toggles are persisted here.",
    ));
    v.push(catalog_entry(
        "browserProfilesDir",
        "Browser profiles",
        "directory",
        "Per-profile user data workspaces are staged here for local runs.",
    ));
    v.push(catalog_entry(
        "browserDownloadsDir",
        "Downloads staging",
        "directory",
        "Local browser downloads and ad-hoc captures land here.",
    ));
    v.push(catalog_entry(
        "browserExtensionsDir",
        "Extensions shelf",
        "directory",
        "Local unpacked extensions and helper bundles can be mounted from here.",
    ));
    v.push(catalog_entry(
        "bookmarkCatalog",
        "Bookmarks catalog",
        "catalog_file",
        "Seed bookmarks and reusable link collections can be curated locally here.",
    ));
    v.push(catalog_entry(
        "profileArchiveDir",
        "Profile archive vault",
        "directory",
        "Import/export profile archives stay on disk without any cloud dependency.",
    ));
    v.push(catalog_entry(
        "importQueueDir",
        "Import queue",
        "directory",
        "Drop local manifests or bundles here for future staged import flows.",
    ));
    v.push(catalog_entry(
        "exportQueueDir",
        "Export queue",
        "directory",
        "Prepared local export bundles can be materialized here.",
    ));
    assert(catalog_ids(v@) =~= asset_entry_ids());
    assert(catalog_kinds(v@) =~= asset_entry_kinds());
    v
}

fn field(key: &str, label: &str, required: bool, description: &str, example: &str) -> (f:
    DesktopImportExportFieldDefinition)
    ensures
        f.key@ == key@,
        f.label@ == label@,
        f.required == required,
        f.description@ == description@,
        f.example matches Some(e) && e@ == example@,
{
    DesktopImportExportFieldDefinition {
        key: owned(key),
        label: owned(label),
        required,
        description: owned(description),
        example: Some(owned(example)),
    }
}

/// The keys of the import manifest fields, and whether each is required.
pub open spec fn import_field_keys() -> Seq<(Seq<char>, bool)> {
    seq![("assetKind"@, true), ("sourcePath"@, true), ("targetSlot"@, true), ("notes"@, false)]
}

/// The keys of the export manifest fields, and whether each is required.
pub open spec fn export_field_keys() -> Seq<(Seq<char>, bool)> {
    seq![("assetKind"@, true), ("sourceEntryId"@, true), ("bundleName"@, true), ("includeMetadata"@, false)]
}

/// The keys and required flags of field definitions.
pub open spec fn field_keys(v: Seq<DesktopImportExportFieldDefinition>) -> Seq<(Seq<char>, bool)> {
    Seq::new(v.len(), |i: int| (v[i].key@, v[i].required))
}

/// The manifest-first import/export skeleton of the local asset queues, for
/// the given queue directories and manifest template paths.
pub fn import_export_skeleton(
    import_queue_dir: String,
    export_queue_dir: String,
    import_manifest_path: String,
    export_manifest_path: String,
    updated_at: String,
) -> (s: DesktopImportExportSkeleton)
    ensures
        s.mode@ == "local_manifest_queue"@,
        s.import_queue_dir@ == import_queue_dir@,
        s.export_queue_dir@ == export_queue_dir@,
        s.import_manifest_path@ == import_manifest_path@,
        s.export_manifest_path@ == export_manifest_path@,
        strings_view(s.supported_import_kinds@) == seq![
            "profile_archive"@,
            "extensions_bundle"@,
            "bookmark_catalog"@,
            "runtime_policy"@,
        ],
        strings_view(s.supported_export_kinds@) == seq![
            "profile_archive"@,
            "session_bundle"@,
            "browser_environment"@,
            "bookmark_catalog"@,
            "runtime_policy"@,
        ],
        field_keys(s.import_fields@) == import_field_keys(),
        field_keys(s.export_fields@) == export_field_keys(),
        s.export_fields@[1].example matches Some(e) && asset_entry_ids().contains(e@),
        s.notes@.len() == 4,
        s.updated_at@ == updated_at@,
{
    let import_kinds = vec!["profile_archive", "extensions_bundle", "bookmark_catalog", "runtime_policy"];
    let export_kinds = vec!["profile_archive", "session_bundle", "browser_environment", "bookmark_catalog", "runtime_policy"];
    let mut import_fields: Vec<DesktopImportExportFieldDefinition> = Vec::new();
    import_fields.push(field(
        "assetKind",
        "Asset kind",
        true,
        "Declare whether the bundle contains profile archives, extensions, bookmarks or runtime policy.",
        "profile_archive",
    ));
    import_fields.push(field(
        "sourcePath",
        "Source path",
        true,
        "Absolute local path to the file or folder to import.",
        "D:\\SelfMadeTool\\persona-pilot\\data\\assets\\profile-archives\\demo-profile.zip",
    ));
    import_fields.push(field(
        "targetSlot",
        "Target slot",
        true,
        "Describe which local asset slot should receive the imported bundle.",
        "browserProfilesDir",
    ));
    import_fields.push(field(
        "notes",
        "Operator notes",
        false,
        "Optional local-only annotation kept with the manifest.",
        "Initial profile bootstrap",
    ));
    let mut export_fields: Vec<DesktopImportExportFieldDefinition> = Vec::new();
    export_fields.push(field(
        "assetKind",
        "Asset kind",
        true,
        "Declare which local asset set should be bundled.",
        "browser_environment",
    ));
    export_fields.push(field(
        "sourceEntryId",
        "Source entry",
        true,
        "Reference one of the local asset workspace entry ids.",
        "browserProfilesDir",
    ));
    export_fields.push(field(
        "bundleName",
        "Bundle name",
        true,
        "Human-readable local export bundle label.",
        "spring-launch-profiles",
    ));
    export_fields.push(field(
        "includeMetadata",
        "Include metadata",
        false,
        "Whether to emit policy snapshots and manifest metadata alongside the bundle.",
        "true",
    ));
    let notes = vec![
        "Only local file bundles and queue directories are modeled here. No cloud sync or team workspace is involved.",
        "The import/export layer is intentionally manifest-first so future compiler or recorder outputs can plug into the same queue.",
        "Opening an asset entry will prepare parent directories on demand, but it will not fabricate remote or cloud contracts.",
        "Session bundle export is profile-scoped and manifest-first; restore/import uses preflight before any confirmed local write.",
    ];
    assert(strs_view(import_kinds@) =~= seq![
        "profile_archive"@,
        "extensions_bundle"@,
        "bookmark_catalog"@,
        "runtime_policy"@,
    ]);
    assert(strs_view(export_kinds@) =~= seq![
        "profile_archive"@,
        "session_bundle"@,
        "browser_environment"@,
        "bookmark_catalog"@,
        "runtime_policy"@,
    ]);
    assert(field_keys(import_fields@) =~= import_field_keys());
    assert(field_keys(export_fields@) =~= export_field_keys());
    assert(asset_entry_ids()[3] == "browserProfilesDir"@);
    let notes = owned_strings(&notes);
    assert(strings_view(notes@).len() == notes@.len());
    DesktopImportExportSkeleton {
        mode: owned("local_manifest_queue"),
        import_manifest_path,
        export_manifest_path,
        import_queue_dir,
        export_queue_dir,
        supported_import_kinds: owned_strings(&import_kinds),
        supported_export_kinds: owned_strings(&export_kinds),
        import_fields,
        export_fields,
        notes,
        updated_at,
    }
}


/// Every entry of the workspace catalog resolves to a location, and the
/// location is a file exactly when the entry's kind is not a directory: an
/// entry id of the catalog is never refused by `local_asset_entry_location`,
/// and the path it resolves to has the entry's kind.
pub proof fn lemma_catalog_entries_have_locations()
    ensures
        forall|i: int|
            0 <= i < asset_entry_ids().len() ==> ((#[trigger] asset_location(asset_entry_ids()[i])) matches Some(
                (root, segments, is_file),
            ) && is_file == (asset_entry_kinds()[i] != "directory"@)),
{
    reveal_strlit("config_file");
    reveal_strlit("catalog_file");
    reveal_strlit("directory");
    reveal_strlit("runtimePolicy");
    reveal_strlit("localApiConfig");
    reveal_strlit("browserEnvironmentPolicy");
    reveal_strlit("browserProfilesDir");
    reveal_strlit("browserDownloadsDir");
    reveal_strlit("browserExtensionsDir");
    reveal_strlit("bookmarkCatalog");
    reveal_strlit("profileArchiveDir");
    reveal_strlit("importQueueDir");
    reveal_strlit("exportQueueDir");
    let ids = asset_entry_ids();
    let kinds = asset_entry_kinds();
    assert("runtimePolicy"@.len() == 13 && "runtimePolicy"@[0] == 'r');
    assert("localApiConfig"@.len() == 14 && "localApiConfig"@[0] == 'l');
    assert("browserEnvironmentPolicy"@.len() == 24 && "browserEnvironmentPolicy"@[0] == 'b');
    assert("browserProfilesDir"@.len() == 18 && "browserProfilesDir"@[0] == 'b');
    assert("browserDownloadsDir"@.len() == 19 && "browserDownloadsDir"@[0] == 'b');
    assert("browserExtensionsDir"@.len() == 20 && "browserExtensionsDir"@[0] == 'b');
    assert("bookmarkCatalog"@.len() == 15 && "bookmarkCatalog"@[0] == 'b');
    assert("profileArchiveDir"@.len() == 17 && "profileArchiveDir"@[0] == 'p');
    assert("importQueueDir"@.len() == 14 && "importQueueDir"@[0] == 'i');
    assert("exportQueueDir"@.len() == 14 && "exportQueueDir"@[0] == 'e');
    assert("config_file"@.len() != "directory"@.len());
    assert("catalog_file"@.len() != "directory"@.len());
    assert forall|i: int| 0 <= i < ids.len() implies ((#[trigger] asset_location(ids[i])) matches Some(
        (root, segments, is_file),
    ) && is_file == (kinds[i] != "directory"@)) by {
        if i == 0 {
            assert(ids[0] == "runtimePolicy"@);
            assert(kinds[0] == "config_file"@);
        } else if i == 1 {
            assert(ids[1] == "localApiConfig"@);
            assert(kinds[1] == "config_file"@);
        } else if i == 2 {
            assert(ids[2] == "browserEnvironmentPolicy"@);
            assert(kinds[2] == "config_file"@);
        } else if i == 3 {
            assert(ids[3] == "browserProfilesDir"@);
            assert(kinds[3] == "directory"@);
        } else if i == 4 {
            assert(ids[4] == "browserDownloadsDir"@);
            assert(kinds[4] == "directory"@);
        } else if i == 5 {
            assert(ids[5] == "browserExtensionsDir"@);
            assert(kinds[5] == "directory"@);
        } else if i == 6 {
            assert(ids[6] == "bookmarkCatalog"@);
            assert(kinds[6] == "catalog_file"@);
        } else if i == 7 {
            assert(ids[7] == "profileArchiveDir"@);
            assert(kinds[7] == "directory"@);
        } else if i == 8 {
            assert(ids[8] == "importQueueDir"@);
            assert(kinds[8] == "directory"@);
        } else {
            assert(ids[9] == "exportQueueDir"@);
            assert(kinds[9] == "directory"@);
        }
    }
}

} // verus!
