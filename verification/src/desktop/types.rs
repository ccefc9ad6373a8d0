//! Data shapes exchanged between the desktop shell and the local engine.
use vstd::prelude::*;

verus! {

#[derive(Debug, Clone)]
pub struct DesktopTaskCounts {
    pub total: i64,
    pub queued: i64,
    pub running: i64,
    pub succeeded: i64,
    pub failed: i64,
    pub timed_out: i64,
    pub cancelled: i64,
}

#[derive(Debug, Clone)]
pub struct DesktopWorkerSnapshot {
    pub runner_kind: String,
    pub worker_count: usize,
    pub reclaim_after_seconds: Option<u64>,
    pub heartbeat_interval_seconds: u64,
    pub claim_retry_limit: u32,
    pub idle_backoff_min_ms: u64,
    pub idle_backoff_max_ms: u64,
}

#[derive(Debug, Clone)]
pub struct DesktopTaskItem {
    pub id: String,
    pub kind: String,
    pub status: String,
    pub priority: i32,
    pub persona_id: Option<String>,
    pub platform_id: Option<String>,
    pub manual_gate_request_id: Option<String>,
    pub is_browser_task: bool,
    pub title: Option<String>,
    pub final_url: Option<String>,
    pub content_preview: Option<String>,
    pub content_kind: Option<String>,
    pub content_ready: Option<bool>,
    pub error_message: Option<String>,
    pub created_at: String,
    pub started_at: Option<String>,
    pub finished_at: Option<String>,
}

#[derive(Debug, Clone)]
pub struct DesktopStatusSnapshot {
    pub service: String,
    pub runtime_mode: String,
    pub queue_len: i64,
    pub counts: DesktopTaskCounts,
    pub worker: DesktopWorkerSnapshot,
    pub latest_tasks: Vec<DesktopTaskItem>,
    pub latest_browser_tasks: Vec<DesktopTaskItem>,
    pub updated_at: String,
}

#[derive(Debug, Clone, Default)]
pub struct DesktopTaskQuery {
    pub page: Option<i64>,
    pub page_size: Option<i64>,
    pub status_filter: Option<String>,
    pub search: Option<String>,
}

#[derive(Debug, Clone)]
pub struct DesktopTaskPage {
    pub page: i64,
    pub page_size: i64,
    pub total: i64,
    pub items: Vec<DesktopTaskItem>,
}

#[derive(Debug, Clone)]
pub struct DesktopLogItem {
    pub id: String,
    pub task_id: String,
    pub run_id: Option<String>,
    pub level: String,
    pub message: String,
    pub created_at: String,
}

#[derive(Debug, Clone, Default)]
pub struct DesktopLogQuery {
    pub page: Option<i64>,
    pub page_size: Option<i64>,
    pub task_id_filter: Option<String>,
    pub level_filter: Option<String>,
    pub search: Option<String>,
}

#[derive(Debug, Clone)]
pub struct DesktopLogPage {
    pub page: i64,
    pub page_size: i64,
    pub total: i64,
    pub items: Vec<DesktopLogItem>,
}

#[derive(Debug, Clone)]
pub struct DesktopSettingsSnapshot {
    pub project_root: String,
    pub database_url: String,
    pub database_path: String,
    pub data_dir: String,
    pub reports_dir: String,
    pub logs_dir: String,
    pub packaged_data_dir: String,
    pub packaged_reports_dir: String,
    pub packaged_logs_dir: String,
    pub runner_kind: String,
    pub worker_count: usize,
    pub reclaim_after_seconds: Option<u64>,
    pub heartbeat_interval_seconds: u64,
    pub claim_retry_limit: u32,
    pub idle_backoff_min_ms: u64,
    pub idle_backoff_max_ms: u64,
}

#[derive(Debug, Clone)]
pub struct DesktopRuntimeSettingsDraft {
    pub runner_kind: String,
    pub worker_count: usize,
    pub reclaim_after_seconds: Option<u64>,
    pub heartbeat_interval_seconds: u64,
    pub claim_retry_limit: u32,
    pub idle_backoff_min_ms: u64,
    pub idle_backoff_max_ms: u64,
}

#[derive(Debug, Clone)]
pub struct DesktopSettingsMutationResult {
    pub action: String,
    pub snapshot: DesktopSettingsSnapshot,
    pub updated_at: String,
    pub message: String,
}

#[derive(Debug, Clone)]
pub struct DesktopLocalApiSnapshot {
    pub host: String,
    pub port: u16,
    pub base_url: String,
    pub health_url: String,
    pub config_path: String,
    pub bind_mode: String,
    pub start_mode: String,
    pub auth_mode: String,
    pub request_logging_enabled: bool,
    pub require_local_token: bool,
    pub read_only_safe_mode: bool,
    pub max_concurrent_sessions: usize,
    pub updated_at: String,
}

#[derive(Debug, Clone)]
pub struct DesktopLocalApiSettingsDraft {
    pub host: String,
    pub port: u16,
    pub start_mode: String,
    pub auth_mode: String,
    pub request_logging_enabled: bool,
    pub require_local_token: bool,
    pub read_only_safe_mode: bool,
    pub max_concurrent_sessions: usize,
}

#[derive(Debug, Clone)]
pub struct DesktopLocalApiMutationResult {
    pub action: String,
    pub snapshot: DesktopLocalApiSnapshot,
    pub updated_at: String,
    pub message: String,
}

#[derive(Debug, Clone)]
pub struct DesktopBrowserEnvironmentPolicySnapshot {
    pub browser_family: String,
    pub launch_strategy: String,
    pub profile_storage_mode: String,
    pub environment_root: String,
    pub profile_workspace_dir: String,
    pub downloads_dir: String,
    pub extensions_dir: String,
    pub bookmarks_catalog_path: String,
    pub profile_archive_dir: String,
    pub default_viewport_preset: String,
    pub keep_user_data_between_runs: bool,
    pub allow_extensions: bool,
    pub allow_bookmarks_seed: bool,
    pub allow_profile_archive_import: bool,
    pub headless_allowed: bool,
    pub updated_at: String,
}

#[derive(Debug, Clone)]
pub struct DesktopBrowserEnvironmentPolicyDraft {
    pub browser_family: String,
    pub launch_strategy: String,
    pub profile_storage_mode: String,
    pub default_viewport_preset: String,
    pub keep_user_data_between_runs: bool,
    pub allow_extensions: bool,
    pub allow_bookmarks_seed: bool,
    pub allow_profile_archive_import: bool,
    pub headless_allowed: bool,
}

#[derive(Debug, Clone)]
pub struct DesktopBrowserEnvironmentPolicyMutationResult {
    pub action: String,
    pub snapshot: DesktopBrowserEnvironmentPolicySnapshot,
    pub updated_at: String,
    pub message: String,
}

#[derive(Debug, Clone)]
pub struct DesktopLocalAssetEntry {
    pub id: String,
    pub label: String,
    pub kind: String,
    pub path: String,
    pub status: String,
    pub description: String,
}

#[derive(Debug, Clone)]
pub struct DesktopLocalAssetWorkspaceSnapshot {
    pub workspace_root: String,
    pub control_root: String,
    pub browser_environment_root: String,
    pub import_queue_dir: String,
    pub export_queue_dir: String,
    pub local_api_config_path: String,
    pub runtime_policy_path: String,
    pub browser_environment_policy_path: String,
    pub entries: Vec<DesktopLocalAssetEntry>,
    pub updated_at: String,
}

#[derive(Debug, Clone)]
pub struct DesktopImportExportFieldDefinition {
    pub key: String,
    pub label: String,
    pub required: bool,
    pub description: String,
    pub example: Option<String>,
}

#[derive(Debug, Clone)]
pub struct DesktopImportExportSkeleton {
    pub mode: String,
    pub import_manifest_path: String,
    pub export_manifest_path: String,
    pub import_queue_dir: String,
    pub export_queue_dir: String,
    pub supported_import_kinds: Vec<String>,
    pub supported_export_kinds: Vec<String>,
    pub import_fields: Vec<DesktopImportExportFieldDefinition>,
    pub export_fields: Vec<DesktopImportExportFieldDefinition>,
    pub notes: Vec<String>,
    pub updated_at: String,
}

#[derive(Debug, Clone, Default)]
pub struct DesktopSessionBundleExportRequest {
    pub profile_id: String,
    pub include_sensitive_payloads: Option<bool>,
}

#[derive(Debug, Clone)]
pub struct DesktopSessionBundleExport {
    pub bundle_id: String,
    pub profile_id: String,
    pub exported_at: String,
    pub schema_version: String,
    pub collector_version: String,
    pub session_binding_count: usize,
    pub include_sensitive_payloads: bool,
    pub export_path: String,
    pub warnings: Vec<String>,
    pub summary: String,
}

#[derive(Debug, Clone, Default)]
pub struct DesktopSessionBundleImportPreflightRequest {
    pub bundle_path: String,
    pub target_profile_id: Option<String>,
    pub allow_profile_overwrite: Option<bool>,
}

#[derive(Debug, Clone)]
pub struct DesktopSessionBundleRestoreStep {
    pub id: String,
    pub label: String,
    pub status: String,
    pub detail: String,
}

#[derive(Debug, Clone)]
pub struct DesktopSessionBundleImportPreflight {
    pub bundle_id: String,
    pub profile_id: String,
    pub target_profile_id: String,
    pub bundle_path: String,
    pub schema_version: String,
    pub collector_version: String,
    pub status: String,
    pub import_mode: String,
    pub restore_supported: bool,
    pub session_binding_count: usize,
    pub missing_reference_count: usize,
    pub conflict_count: usize,
    pub warnings: Vec<String>,
    pub errors: Vec<String>,
    pub restore_plan: Vec<DesktopSessionBundleRestoreStep>,
    pub summary: String,
}

#[derive(Debug, Clone, Default)]
pub struct DesktopSessionBundleRestoreRequest {
    pub bundle_path: String,
    pub target_profile_id: Option<String>,
    pub allow_profile_overwrite: Option<bool>,
    pub dry_run: Option<bool>,
}

#[derive(Debug, Clone)]
pub struct DesktopSessionBundleRestoreResult {
    pub bundle_id: String,
    pub profile_id: String,
    pub target_profile_id: String,
    pub status: String,
    pub dry_run: bool,
    pub write_performed: bool,
    pub restored_session_binding_count: usize,
    pub preflight: DesktopSessionBundleImportPreflight,
    pub summary: String,
}

#[derive(Debug, Clone)]
pub struct DesktopProviderReadinessItem {
    pub domain: String,
    pub status: String,
    pub provider_name: Option<String>,
    pub provider_count: usize,
    pub configured_provider_count: usize,
    pub manager_wiring_status: String,
    pub config_status: String,
    pub credential_status: String,
    pub present_credential_names: Vec<String>,
    pub cdp_detect_status: String,
    pub cdp_fill_status: String,
    pub cdp_automation_status: String,
    pub operator_ui_status: String,
    pub dry_run_status: String,
    pub dry_run_available: bool,
    pub dry_run_contract: Vec<String>,
    pub dry_run_next_action: String,
    pub failure_taxonomy_status: String,
    pub failure_taxonomy: Vec<String>,
    pub real_provider_smoke_status: String,
    pub acceptance_status: String,
    pub closure_gates: Vec<String>,
    pub acceptance_checklist: Vec<String>,
    pub blockers: Vec<String>,
    pub failure_reason: String,
    pub latest_report_path: Option<String>,
    pub next_action: String,
}

#[derive(Debug, Clone)]
pub struct DesktopProviderProductionReadiness {
    pub generated_at: String,
    pub status: String,
    pub ready_count: usize,
    pub blocked_count: usize,
    pub items: Vec<DesktopProviderReadinessItem>,
    pub summary: String,
}

#[derive(Debug, Clone)]
pub struct DesktopEvidenceReportDiffItem {
    pub field: String,
    pub previous: String,
    pub current: String,
    pub trend: String,
}

#[derive(Debug, Clone)]
pub struct DesktopEvidenceReportSummary {
    pub report_id: String,
    pub kind: String,
    pub status: String,
    pub evidence_level: String,
    pub generated_at: String,
    pub report_path: String,
    pub failure_reason: Option<String>,
    pub failure_reason_category: String,
    pub previous_status: Option<String>,
    pub previous_failure_reason: Option<String>,
    pub previous_failure_reason_category: Option<String>,
    pub previous_generated_at: Option<String>,
    pub status_trend: String,
    pub failure_reason_trend: String,
    pub failure_reason_category_trend: String,
    pub risk_level: String,
    pub risk_score: i32,
    pub previous_risk_level: Option<String>,
    pub previous_risk_score: Option<i32>,
    pub risk_trend: String,
    pub trend_summary: String,
    pub report_diff_summary: String,
    pub report_diff_items: Vec<DesktopEvidenceReportDiffItem>,
    pub next_action: Option<String>,
    pub summary: String,
}

#[derive(Debug, Clone)]
pub struct DesktopEvidenceReportHistory {
    pub generated_at: String,
    pub report_count: usize,
    pub reports: Vec<DesktopEvidenceReportSummary>,
    pub summary: String,
}

#[derive(Debug, Clone)]
pub struct DesktopRuntimeAdapterContractItem {
    pub adapter_id: String,
    pub status: String,
    pub runner_kind: String,
    pub profile_runtime_evidence: String,
    pub fingerprint_runtime_depth: String,
    pub external_kernel_boundary: String,
    pub process_lifecycle_status: String,
    pub cdp_attach_status: String,
    pub adapter_capabilities: Vec<String>,
    pub evidence_requirements: Vec<String>,
    pub blockers: Vec<String>,
}

#[derive(Debug, Clone)]
pub struct DesktopBehaviorAuditCoverageItem {
    pub id: String,
    pub label: String,
    pub status: String,
    pub evidence: String,
}

#[derive(Debug, Clone)]
pub struct DesktopBehaviorAuditGraphNode {
    pub id: String,
    pub label: String,
    pub primitive: String,
    pub phase: String,
}

#[derive(Debug, Clone)]
pub struct DesktopBehaviorAuditGraphEdge {
    pub from: String,
    pub to: String,
    pub condition: String,
}

#[derive(Debug, Clone)]
pub struct DesktopBehaviorAuditContract {
    pub generated_at: String,
    pub shipped_primitive_count: usize,
    pub target_event_taxonomy_label: String,
    pub target_event_taxonomy_status: String,
    pub target_event_family_count: usize,
    pub target_event_taxonomy_path: String,
    pub page_archetype_count: usize,
    pub supported_primitives: Vec<String>,
    pub page_archetypes: Vec<String>,
    pub workflow_graph_nodes: Vec<DesktopBehaviorAuditGraphNode>,
    pub workflow_graph_edges: Vec<DesktopBehaviorAuditGraphEdge>,
    pub replay_debugger_status: String,
    pub deterministic_replay_evidence_status: String,
    pub coverage: Vec<DesktopBehaviorAuditCoverageItem>,
    pub warnings: Vec<String>,
    pub summary: String,
}

#[derive(Debug, Clone)]
pub struct DesktopEntityReference {
    pub id: String,
    pub name: Option<String>,
    pub status: Option<String>,
    pub version: Option<i64>,
}

#[derive(Debug, Clone)]
pub struct DesktopProfileRuntimeSummary {
    pub status: String,
    pub current_task_id: Option<String>,
    pub last_task_id: Option<String>,
    pub last_task_status: Option<String>,
    pub last_task_at: Option<String>,
    pub last_opened_at: Option<String>,
    pub last_synced_at: Option<String>,
    pub active_session_count: i64,
    pub pending_action_count: i64,
}

#[derive(Debug, Clone)]
pub struct DesktopProfileProxySummary {
    pub proxy_id: Option<String>,
    pub provider: Option<String>,
    pub region: Option<String>,
    pub country: Option<String>,
    pub resolution_status: Option<String>,
    pub usage_mode: Option<String>,
    pub session_key: Option<String>,
    pub requested_provider: Option<String>,
    pub requested_region: Option<String>,
    pub residency_status: Option<String>,
    pub rotation_mode: Option<String>,
    pub sticky_ttl_seconds: Option<i64>,
    pub expires_at: Option<String>,
    pub last_verified_at: Option<String>,
    pub last_used_at: Option<String>,
}

#[derive(Debug, Clone)]
pub struct DesktopFingerprintSectionSummary {
    pub name: String,
    pub declared_count: usize,
    pub declared_fields: Vec<String>,
}

#[derive(Debug, Clone)]
pub struct DesktopFingerprintRuntimeSupportSummary {
    pub supported_fields: Vec<String>,
    pub unsupported_fields: Vec<String>,
    pub supported_count: usize,
    pub unsupported_count: usize,
}

#[derive(Debug, Clone)]
pub struct DesktopFingerprintConsumptionSummary {
    pub status: String,
    pub version: String,
    pub declared_count: usize,
    pub resolved_count: usize,
    pub applied_count: usize,
    pub ignored_count: usize,
    pub partial_support_warning: Option<String>,
}

#[derive(Debug, Clone)]
pub struct DesktopFingerprintConsistencySummary {
    pub status: String,
    pub coherence_score: i64,
    pub hard_failure_count: usize,
    pub soft_warning_count: usize,
    pub risk_reasons: Vec<String>,
}

#[derive(Debug, Clone)]
pub struct DesktopProfileFingerprintSummary {
    pub profile_id: String,
    pub profile_version: i64,
    pub family_id: Option<String>,
    pub family_variant: Option<String>,
    pub schema_kind: String,
    pub declared_control_fields: Vec<String>,
    pub declared_control_count: usize,
    pub declared_sections: Vec<DesktopFingerprintSectionSummary>,
    pub runtime_support: DesktopFingerprintRuntimeSupportSummary,
    pub consistency: DesktopFingerprintConsistencySummary,
    pub consumption: DesktopFingerprintConsumptionSummary,
    pub validation_ok: bool,
    pub validation_issues: Vec<String>,
}

#[derive(Debug, Clone, Default)]
pub struct DesktopProfilePageQuery {
    pub page: Option<i64>,
    pub page_size: Option<i64>,
    pub search: Option<String>,
    pub group_filters: Option<Vec<String>>,
    pub tag_filters: Option<Vec<String>>,
    pub status_filters: Option<Vec<String>>,
    pub platform_filters: Option<Vec<String>>,
}

#[derive(Debug, Clone)]
pub struct DesktopProxyUsageSummary {
    pub linked_profile_count: i64,
    pub active_session_count: i64,
    pub last_used_at: Option<String>,
    pub session_key: Option<String>,
    pub requested_region: Option<String>,
    pub requested_provider: Option<String>,
    pub residency_status: Option<String>,
    pub rotation_mode: Option<String>,
    pub sticky_ttl_seconds: Option<i64>,
    pub expires_at: Option<String>,
}

#[derive(Debug, Clone)]
pub struct DesktopProxyUsageItem {
    pub session_key: String,
    pub profile_id: Option<String>,
    pub profile_label: Option<String>,
    pub store_id: Option<String>,
    pub platform_id: Option<String>,
    pub site_key: Option<String>,
    pub status: String,
    pub requested_region: Option<String>,
    pub requested_provider: Option<String>,
    pub last_used_at: String,
    pub last_success_at: Option<String>,
    pub last_failure_at: Option<String>,
    pub expires_at: Option<String>,
}

#[derive(Debug, Clone, Default)]
pub struct DesktopProxyPageQuery {
    pub page: Option<i64>,
    pub page_size: Option<i64>,
    pub search: Option<String>,
    pub status_filters: Option<Vec<String>>,
    pub region_filters: Option<Vec<String>>,
    pub provider_filters: Option<Vec<String>>,
    pub source_filters: Option<Vec<String>>,
}

#[derive(Debug, Clone)]
pub struct DesktopTemplateCoverageSummary {
    pub warm_path_count: i64,
    pub revisit_path_count: i64,
    pub stateful_path_count: i64,
    pub write_operation_path_count: i64,
    pub high_risk_path_count: i64,
    pub variable_count: i64,
    pub step_count: i64,
}

#[derive(Debug, Clone, Default)]
pub struct DesktopTemplateMetadataPageQuery {
    pub page: Option<i64>,
    pub page_size: Option<i64>,
    pub search: Option<String>,
    pub platform_filters: Option<Vec<String>>,
    pub readiness_filters: Option<Vec<String>>,
    pub status_filters: Option<Vec<String>>,
    pub source_filters: Option<Vec<String>>,
}

#[derive(Debug, Clone, Default)]
pub struct DesktopRecorderSnapshotQuery {
    pub session_id: Option<String>,
    pub profile_id: Option<String>,
    pub platform_id: Option<String>,
    pub template_id: Option<String>,
}

#[derive(Debug, Clone)]
pub struct DesktopRecorderTabSnapshot {
    pub tab_id: String,
    pub title: Option<String>,
    pub url: Option<String>,
    pub active: bool,
}

#[derive(Debug, Clone)]
pub struct DesktopSyncWindowBounds {
    pub x: i64,
    pub y: i64,
    pub width: i64,
    pub height: i64,
}

#[derive(Debug, Clone)]
pub struct DesktopSyncWindowState {
    pub window_id: String,
    pub native_handle: Option<String>,
    pub title: Option<String>,
    pub status: String,
    pub order_index: i64,
    pub is_main_window: bool,
    pub is_focused: bool,
    pub is_minimized: bool,
    pub is_visible: bool,
    pub profile_id: Option<String>,
    pub profile_label: Option<String>,
    pub store_id: Option<String>,
    pub platform_id: Option<String>,
    pub last_seen_at: Option<String>,
    pub last_action_at: Option<String>,
    pub bounds: Option<DesktopSyncWindowBounds>,
}

#[derive(Debug, Clone)]
pub struct DesktopSyncLayoutState {
    pub mode: String,
    pub main_window_id: Option<String>,
    pub columns: Option<i64>,
    pub rows: Option<i64>,
    pub gap_px: i64,
    pub overlap_offset_x: Option<i64>,
    pub overlap_offset_y: Option<i64>,
    pub uniform_width: Option<i64>,
    pub uniform_height: Option<i64>,
    pub sync_scroll: bool,
    pub sync_navigation: bool,
    pub sync_input: bool,
    pub updated_at: String,
}

#[derive(Debug, Clone)]
pub struct DesktopSynchronizerSnapshot {
    pub windows: Vec<DesktopSyncWindowState>,
    pub layout: DesktopSyncLayoutState,
    pub focused_window_id: Option<String>,
    pub updated_at: String,
}

#[derive(Debug, Clone)]
pub struct DesktopCreateProfileInput {
    pub id: String,
    pub store_id: String,
    pub platform_id: String,
    pub device_family: Option<String>,
    pub country_anchor: String,
    pub region_anchor: Option<String>,
    pub locale: String,
    pub timezone: String,
    pub fingerprint_profile_id: String,
    pub behavior_profile_id: Option<String>,
    pub network_policy_id: String,
    pub continuity_policy_id: String,
    pub credential_ref: Option<String>,
    pub status: Option<String>,
}

#[derive(Debug, Clone)]
pub struct DesktopUpdateProfileInput {
    pub id: String,
    pub store_id: Option<String>,
    pub platform_id: Option<String>,
    pub device_family: Option<String>,
    pub country_anchor: Option<String>,
    pub region_anchor: Option<String>,
    pub locale: Option<String>,
    pub timezone: Option<String>,
    pub fingerprint_profile_id: Option<String>,
    pub behavior_profile_id: Option<String>,
    pub network_policy_id: Option<String>,
    pub continuity_policy_id: Option<String>,
    pub credential_ref: Option<String>,
    pub status: Option<String>,
}

#[derive(Debug, Clone)]
pub struct DesktopProfileBatchActionRequest {
    pub profile_ids: Vec<String>,
}

#[derive(Debug, Clone)]
pub struct DesktopProfileBatchActionResult {
    pub action: String,
    pub profile_ids: Vec<String>,
    pub updated_at: String,
    pub message: String,
    pub task_ids: Vec<String>,
    pub proxy_ids: Option<Vec<String>>,
    pub verify_batch_id: Option<String>,
}

#[derive(Debug, Clone)]
pub struct DesktopProxyBatchCheckProviderSummary {
    pub provider: String,
    pub accepted: i64,
    pub skipped_due_to_cap: i64,
}

#[derive(Debug, Clone)]
pub struct DesktopProxyChangeIpRequest {
    pub proxy_id: String,
    pub mode: Option<String>,
    pub session_key: Option<String>,
    pub requested_provider: Option<String>,
    pub requested_region: Option<String>,
    pub sticky_ttl_seconds: Option<i64>,
}

#[derive(Debug, Clone)]
pub struct DesktopProxyChangeIpRollback {
    pub available: bool,
    pub rollback_proxy_id: Option<String>,
    pub reason: String,
}

#[derive(Debug, Clone)]
pub struct DesktopProxyChangeIpCooldown {
    pub required: bool,
    pub cooldown_until: Option<String>,
    pub reason: String,
}

#[derive(Debug, Clone)]
pub struct DesktopProxyChangeIpRetry {
    pub retryable: bool,
    pub requires: String,
    pub next_action: String,
}

#[derive(Debug, Clone)]
pub struct DesktopProxyChangeIpResult {
    pub proxy_id: String,
    pub status: String,
    pub phase: String,
    pub mode: String,
    pub session_key: Option<String>,
    pub requested_provider: Option<String>,
    pub requested_region: Option<String>,
    pub sticky_ttl_seconds: Option<i64>,
    pub note: String,
    pub residency_status: String,
    pub rotation_mode: String,
    pub rotation_status: String,
    pub provider_config_status: String,
    pub provider_write_status: String,
    pub rollback: DesktopProxyChangeIpRollback,
    pub cooldown: DesktopProxyChangeIpCooldown,
    pub retry: DesktopProxyChangeIpRetry,
    pub tracking_task_id: String,
    pub expires_at: Option<String>,
    pub updated_at: String,
    pub message: String,
}

#[derive(Debug, Clone)]
pub struct DesktopTemplateDeleteInput {
    pub id: String,
    pub store_id: Option<String>,
}

#[derive(Debug, Clone)]
pub struct DesktopCompileTemplateRunResult {
    pub template_id: String,
    pub store_id: Option<String>,
    pub accepted_profile_count: i64,
    pub accepted_profile_ids: Vec<String>,
    pub variable_keys: Vec<String>,
    pub manifest_path: String,
    pub dry_run: bool,
    pub status: String,
    pub compiled_at: String,
    pub message: String,
}

#[derive(Debug, Clone, Default)]
pub struct DesktopReadRunDetailQuery {
    pub run_id: Option<String>,
    pub task_id: Option<String>,
}

#[derive(Debug, Clone)]
pub struct DesktopRunArtifact {
    pub id: String,
    pub label: String,
    pub path: Option<String>,
    pub status: Option<String>,
    pub created_at: Option<String>,
}

#[derive(Debug, Clone)]
pub struct DesktopLaunchTemplateRunSummary {
    pub template_id: String,
    pub launch_kind: String,
    pub launch_mode: String,
    pub primary_task_id: Option<String>,
    pub task_count: i64,
    pub accepted_profile_count: i64,
    pub accepted_profile_ids: Vec<String>,
    pub source_run_id: Option<String>,
    pub recorder_session_id: Option<String>,
    pub target_scope: Option<String>,
    pub launch_note: Option<String>,
    pub compiled_at: String,
    pub launched_at: String,
    pub manifest_path: String,
}

#[derive(Debug, Clone)]
pub struct DesktopRunTimelineEntry {
    pub id: String,
    pub label: String,
    pub status: String,
    pub detail: Option<String>,
    pub created_at: Option<String>,
}

#[derive(Debug, Clone)]
pub struct DesktopRunDetailSummary {
    pub task_status: String,
    pub run_status: String,
    pub run_attempt: Option<i64>,
    pub runner_kind: Option<String>,
    pub artifact_count: i64,
    pub log_count: i64,
    pub timeline_count: i64,
}

#[derive(Debug, Clone)]
pub struct DesktopTaskWriteResult {
    pub task_id: String,
    pub status: String,
    pub message: String,
    pub updated_at: String,
    pub run_id: Option<String>,
    pub manual_gate_request_id: Option<String>,
}

#[derive(Debug, Clone)]
pub struct DesktopManualGateActionRequest {
    pub manual_gate_request_id: String,
    pub note: Option<String>,
}

#[derive(Debug, Clone, Default)]
pub struct DesktopStartBehaviorRecordingRequest {
    pub session_id: Option<String>,
    pub profile_id: Option<String>,
    pub platform_id: Option<String>,
    pub template_id: Option<String>,
}

#[derive(Debug, Clone, Default)]
pub struct DesktopStopBehaviorRecordingRequest {
    pub session_id: Option<String>,
}

#[derive(Debug, Clone, Default)]
pub struct DesktopSyncLayoutUpdate {
    pub mode: Option<String>,
    pub columns: Option<i64>,
    pub rows: Option<i64>,
    pub gap_px: Option<i64>,
    pub overlap_offset_x: Option<i64>,
    pub overlap_offset_y: Option<i64>,
    pub uniform_width: Option<i64>,
    pub uniform_height: Option<i64>,
    pub sync_scroll: Option<bool>,
    pub sync_navigation: Option<bool>,
    pub sync_input: Option<bool>,
}

#[derive(Debug, Clone)]
pub struct DesktopSynchronizerActionResult {
    pub action: String,
    pub snapshot: DesktopSynchronizerSnapshot,
    pub updated_at: String,
    pub message: String,
}
} // verus!
