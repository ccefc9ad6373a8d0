//! Desktop settings: defaults, validation of operator drafts and the snapshots
//! and mutation results built from them.
use vstd::prelude::*;

use super::types::{
    DesktopBrowserEnvironmentPolicyDraft, DesktopBrowserEnvironmentPolicyMutationResult,
    DesktopBrowserEnvironmentPolicySnapshot, DesktopLocalApiMutationResult,
    DesktopLocalApiSettingsDraft, DesktopLocalApiSnapshot, DesktopRuntimeSettingsDraft,
    DesktopSettingsMutationResult, DesktopSettingsSnapshot,
};
use crate::numtext::{decimal_digits, u64_to_text};
use crate::text::{
    ascii_lower, concat2, concat3, owned, str_in_list, strs_view, to_ascii_lowercase, trim,
    trim_str,
};

verus! {

/// Why an operator's settings draft was refused.
#[derive(Debug, Clone, PartialEq, Eq)]
pub enum SettingsError {
    UnsupportedRunnerKind { given: String },
    WorkerCountZero,
    HeartbeatIntervalZero,
    ClaimRetryLimitZero,
    IdleBackoffInverted,
    HostNotLoopback,
    PortZero,
    MaxConcurrentSessionsOutOfRange,
    UnsupportedStartMode { given: String },
    UnsupportedAuthMode { given: String },
    UnsupportedBrowserFamily { given: String },
    UnsupportedLaunchStrategy { given: String },
    UnsupportedProfileStorageMode { given: String },
    UnsupportedViewportPreset { given: String },
    UnsupportedAssetEntry { given: String },
}

/// The message each refusal is reported with.
pub open spec fn settings_error_message(e: SettingsError) -> Seq<char> {
    match e {
        SettingsError::UnsupportedRunnerKind { given } => "unsupported runner kind: "@ + given@,
        SettingsError::WorkerCountZero => "worker_count must be greater than 0"@,
        SettingsError::HeartbeatIntervalZero => "heartbeat_interval_seconds must be greater than 0"@,
        SettingsError::ClaimRetryLimitZero => "claim_retry_limit must be greater than 0"@,
        SettingsError::IdleBackoffInverted => "idle_backoff_max_ms must be greater than or equal to idle_backoff_min_ms"@,
        SettingsError::HostNotLoopback => "host must stay on loopback. Supported values: 127.0.0.1 or localhost"@,
        SettingsError::PortZero => "port must be greater than 0"@,
        SettingsError::MaxConcurrentSessionsOutOfRange => "max_concurrent_sessions must be between 1 and 32"@,
        SettingsError::UnsupportedStartMode { given } => "unsupported start_mode: "@ + given@,
        SettingsError::UnsupportedAuthMode { given } => "unsupported auth_mode: "@ + given@,
        SettingsError::UnsupportedBrowserFamily { given } => "unsupported browser_family: "@ + given@,
        SettingsError::UnsupportedLaunchStrategy { given } => "unsupported launch_strategy: "@ + given@,
        SettingsError::UnsupportedProfileStorageMode { given } => "unsupported profile_storage_mode: "@ + given@,
        SettingsError::UnsupportedViewportPreset { given } => "unsupported default_viewport_preset: "@ + given@,
        SettingsError::UnsupportedAssetEntry { given } => "unsupported local asset entry: "@ + given@,
    }
}

impl SettingsError {
    /// The message the refusal is reported with.
    pub fn message(&self) -> (m: String)
        ensures
            m@ == settings_error_message(*self),
    {
        match self {
            SettingsError::UnsupportedRunnerKind { given } => concat2("unsupported runner kind: ", given.as_str()),
            SettingsError::WorkerCountZero => owned("worker_count must be greater than 0"),
            SettingsError::HeartbeatIntervalZero => owned("heartbeat_interval_seconds must be greater than 0"),
            SettingsError::ClaimRetryLimitZero => owned("claim_retry_limit must be greater than 0"),
            SettingsError::IdleBackoffInverted => owned(
                "idle_backoff_max_ms must be greater than or equal to idle_backoff_min_ms",
            ),
            SettingsError::HostNotLoopback => owned(
                "host must stay on loopback. Supported values: 127.0.0.1 or localhost",
            ),
            SettingsError::PortZero => owned("port must be greater than 0"),
            SettingsError::MaxConcurrentSessionsOutOfRange => owned("max_concurrent_sessions must be between 1 and 32"),
            SettingsError::UnsupportedStartMode { given } => concat2("unsupported start_mode: ", given.as_str()),
            SettingsError::UnsupportedAuthMode { given } => concat2("unsupported auth_mode: ", given.as_str()),
            SettingsError::UnsupportedBrowserFamily { given } => concat2("unsupported browser_family: ", given.as_str()),
            SettingsError::UnsupportedLaunchStrategy { given } => concat2(
                "unsupported launch_strategy: ",
                given.as_str(),
            ),
            SettingsError::UnsupportedProfileStorageMode { given } => concat2(
                "unsupported profile_storage_mode: ",
                given.as_str(),
            ),
            SettingsError::UnsupportedViewportPreset { given } => concat2(
                "unsupported default_viewport_preset: ",
                given.as_str(),
            ),
            SettingsError::UnsupportedAssetEntry { given } => concat2("unsupported local asset entry: ", given.as_str()),
        }
    }
}

/// `s.trim().to_ascii_lowercase()`.
pub open spec fn canonical(s: Seq<char>) -> Seq<char> {
    ascii_lower(trim(s))
}

pub fn canonical_text(s: &str) -> (r: String)
    ensures
        r@ == canonical(s@),
{
    let t = trim_str(s);
    to_ascii_lowercase(t.as_str())
}

fn canonical_in(s: &str, options: &Vec<&str>) -> (r: (String, bool))
    ensures
        r.0@ == canonical(s@),
        r.1 == strs_view(options@).contains(canonical(s@)),
{
    let c = canonical_text(s);
    let ok = str_in_list(c.as_str(), options);
    (c, ok)
}

/// The desktop runtime defaults: the fake runner, one worker, no reclaim
/// window, a five second heartbeat, eight claim retries, 250..3000 ms backoff.
pub open spec fn runtime_is_default(d: DesktopRuntimeSettingsDraft) -> bool {
    &&& d.runner_kind@ == "fake"@
    &&& d.worker_count == 1
    &&& d.reclaim_after_seconds is None
    &&& d.heartbeat_interval_seconds == 5
    &&& d.claim_retry_limit == 8
    &&& d.idle_backoff_min_ms == 250
    &&& d.idle_backoff_max_ms == 3000
}

pub fn default_desktop_runtime_settings() -> (d: DesktopRuntimeSettingsDraft)
    ensures
        runtime_is_default(d),
{
    DesktopRuntimeSettingsDraft {
        runner_kind: owned("fake"),
        worker_count: 1,
        reclaim_after_seconds: None,
        heartbeat_interval_seconds: 5,
        claim_retry_limit: 8,
        idle_backoff_min_ms: 250,
        idle_backoff_max_ms: 3000,
    }
}

pub open spec fn runner_kinds() -> Seq<Seq<char>> {
    seq!["fake"@, "lightpanda"@]
}

/// The outcome of validating a runtime draft, as an error tag (`None` when valid).
pub open spec fn runtime_draft_problem(d: DesktopRuntimeSettingsDraft) -> Option<u8> {
    if !runner_kinds().contains(canonical(d.runner_kind@)) {
        Some(0)
    } else if d.worker_count == 0 {
        Some(1)
    } else if d.heartbeat_interval_seconds == 0 {
        Some(2)
    } else if d.claim_retry_limit == 0 {
        Some(3)
    } else if d.idle_backoff_max_ms < d.idle_backoff_min_ms {
        Some(4)
    } else {
        None
    }
}

/// What validation makes of a valid runtime draft `d`: the runner kind
/// trimmed and lowercased, a zero reclaim window dropped, the rest kept.
pub open spec fn runtime_validated(d: DesktopRuntimeSettingsDraft, v: DesktopRuntimeSettingsDraft) -> bool {
    &&& v.runner_kind@ == canonical(d.runner_kind@)
    &&& v.worker_count == d.worker_count
    &&& v.reclaim_after_seconds == match d.reclaim_after_seconds {
        Some(r) => if r > 0 {
            Some(r)
        } else {
            None
        },
        None => None,
    }
    &&& v.heartbeat_interval_seconds == d.heartbeat_interval_seconds
    &&& v.claim_retry_limit == d.claim_retry_limit
    &&& v.idle_backoff_min_ms == d.idle_backoff_min_ms
    &&& v.idle_backoff_max_ms == d.idle_backoff_max_ms
}

/// Validates and normalizes a runtime settings draft: the runner kind is
/// trimmed and lowercased and a zero reclaim window means none.
pub fn validate_runtime_settings_draft(draft: DesktopRuntimeSettingsDraft) -> (result: Result<
    DesktopRuntimeSettingsDraft,
    SettingsError,
>)
    ensures
        match runtime_draft_problem(draft) {
            Some(0) => result matches Err(SettingsError::UnsupportedRunnerKind { given }) && given@
                == draft.runner_kind@,
            Some(1) => result == Err::<DesktopRuntimeSettingsDraft, SettingsError>(SettingsError::WorkerCountZero),
            Some(2) => result == Err::<DesktopRuntimeSettingsDraft, SettingsError>(SettingsError::HeartbeatIntervalZero),
            Some(3) => result == Err::<DesktopRuntimeSettingsDraft, SettingsError>(SettingsError::ClaimRetryLimitZero),
            Some(_) => result == Err::<DesktopRuntimeSettingsDraft, SettingsError>(SettingsError::IdleBackoffInverted),
            None => result matches Ok(v) && runtime_validated(draft, v),
        },
{
    let kinds = vec!["fake", "lightpanda"];
    assert(strs_view(kinds@) =~= runner_kinds());
    let (runner_kind, ok) = canonical_in(draft.runner_kind.as_str(), &kinds);
    if !ok {
        return Err(SettingsError::UnsupportedRunnerKind { given: draft.runner_kind });
    }
    if draft.worker_count == 0 {
        return Err(SettingsError::WorkerCountZero);
    }
    if draft.heartbeat_interval_seconds == 0 {
        return Err(SettingsError::HeartbeatIntervalZero);
    }
    if draft.claim_retry_limit == 0 {
        return Err(SettingsError::ClaimRetryLimitZero);
    }
    if draft.idle_backoff_max_ms < draft.idle_backoff_min_ms {
        return Err(SettingsError::IdleBackoffInverted);
    }
    let reclaim = match draft.reclaim_after_seconds {
        Some(r) => if r > 0 {
            Some(r)
        } else {
            None
        },
        None => None,
    };
    Ok(DesktopRuntimeSettingsDraft {
        runner_kind,
        worker_count: draft.worker_count,
        reclaim_after_seconds: reclaim,
        heartbeat_interval_seconds: draft.heartbeat_interval_seconds,
        claim_retry_limit: draft.claim_retry_limit,
        idle_backoff_min_ms: draft.idle_backoff_min_ms,
        idle_backoff_max_ms: draft.idle_backoff_max_ms,
    })
}

/// The local API defaults: `127.0.0.1:3000`, started by hand, desktop session
/// auth, request logging on, no token, writable, four sessions.
pub open spec fn local_api_is_default(d: DesktopLocalApiSettingsDraft) -> bool {
    &&& d.host@ == "127.0.0.1"@
    &&& d.port == 3000
    &&& d.start_mode@ == "manual"@
    &&& d.auth_mode@ == "desktop_session"@
    &&& d.request_logging_enabled
    &&& !d.require_local_token
    &&& !d.read_only_safe_mode
    &&& d.max_concurrent_sessions == 4
}

pub fn default_desktop_local_api_settings() -> (d: DesktopLocalApiSettingsDraft)
    ensures
        local_api_is_default(d),
{
    DesktopLocalApiSettingsDraft {
        host: owned("127.0.0.1"),
        port: 3000,
        start_mode: owned("manual"),
        auth_mode: owned("desktop_session"),
        request_logging_enabled: true,
        require_local_token: false,
        read_only_safe_mode: false,
        max_concurrent_sessions: 4,
    }
}

pub open spec fn loopback_hosts() -> Seq<Seq<char>> {
    seq!["127.0.0.1"@, "localhost"@]
}

pub open spec fn start_modes() -> Seq<Seq<char>> {
    seq!["manual"@, "auto_on_shell_open"@]
}

pub open spec fn auth_modes() -> Seq<Seq<char>> {
    seq!["desktop_session"@, "loopback_token"@]
}

/// The first problem of a local API draft, as an error tag (`None` when valid).
pub open spec fn local_api_draft_problem(d: DesktopLocalApiSettingsDraft) -> Option<u8> {
    if !loopback_hosts().contains(canonical(d.host@)) {
        Some(0)
    } else if d.port == 0 {
        Some(1)
    } else if d.max_concurrent_sessions == 0 || d.max_concurrent_sessions > 32 {
        Some(2)
    } else if !start_modes().contains(canonical(d.start_mode@)) {
        Some(3)
    } else if !auth_modes().contains(canonical(d.auth_mode@)) {
        Some(4)
    } else {
        None
    }
}

/// What validation makes of a valid local API draft `d`: host and modes
/// trimmed and lowercased, the rest kept.
pub open spec fn local_api_validated(d: DesktopLocalApiSettingsDraft, v: DesktopLocalApiSettingsDraft) -> bool {
    &&& v.host@ == canonical(d.host@)
    &&& v.port == d.port
    &&& v.start_mode@ == canonical(d.start_mode@)
    &&& v.auth_mode@ == canonical(d.auth_mode@)
    &&& v.request_logging_enabled == d.request_logging_enabled
    &&& v.require_local_token == d.require_local_token
    &&& v.read_only_safe_mode == d.read_only_safe_mode
    &&& v.max_concurrent_sessions == d.max_concurrent_sessions
}

/// Validates a local API draft: it must stay on loopback, use a non-zero port,
/// allow 1..=32 sessions and name a known start and auth mode.
pub fn validate_local_api_settings_draft(draft: DesktopLocalApiSettingsDraft) -> (result: Result<
    DesktopLocalApiSettingsDraft,
    SettingsError,
>)
    ensures
        match local_api_draft_problem(draft) {
            Some(0) => result == Err::<DesktopLocalApiSettingsDraft, SettingsError>(SettingsError::HostNotLoopback),
            Some(1) => result == Err::<DesktopLocalApiSettingsDraft, SettingsError>(SettingsError::PortZero),
            Some(2) => result == Err::<DesktopLocalApiSettingsDraft, SettingsError>(
                SettingsError::MaxConcurrentSessionsOutOfRange,
            ),
            Some(3) => result matches Err(SettingsError::UnsupportedStartMode { given }) && given@
                == draft.start_mode@,
            Some(_) => result matches Err(SettingsError::UnsupportedAuthMode { given }) && given@
                == draft.auth_mode@,
            None => result matches Ok(v) && local_api_validated(draft, v),
        },
{
    let hosts = vec!["127.0.0.1", "localhost"];
    assert(strs_view(hosts@) =~= loopback_hosts());
    let (host, ok) = canonical_in(draft.host.as_str(), &hosts);
    if !ok {
        return Err(SettingsError::HostNotLoopback);
    }
    if draft.port == 0 {
        return Err(SettingsError::PortZero);
    }
    if draft.max_concurrent_sessions == 0 || draft.max_concurrent_sessions > 32 {
        return Err(SettingsError::MaxConcurrentSessionsOutOfRange);
    }
    let starts = vec!["manual", "auto_on_shell_open"];
    assert(strs_view(starts@) =~= start_modes());
    let (start_mode, ok) = canonical_in(draft.start_mode.as_str(), &starts);
    if !ok {
        return Err(SettingsError::UnsupportedStartMode { given: draft.start_mode });
    }
    let auths = vec!["desktop_session", "loopback_token"];
    assert(strs_view(auths@) =~= auth_modes());
    let (auth_mode, ok) = canonical_in(draft.auth_mode.as_str(), &auths);
    if !ok {
        return Err(SettingsError::UnsupportedAuthMode { given: draft.auth_mode });
    }
    Ok(DesktopLocalApiSettingsDraft {
        host,
        port: draft.port,
        start_mode,
        auth_mode,
        request_logging_enabled: draft.request_logging_enabled,
        require_local_token: draft.require_local_token,
        read_only_safe_mode: draft.read_only_safe_mode,
        max_concurrent_sessions: draft.max_concurrent_sessions,
    })
}

/// The browser environment defaults: Chrome, reuse or bootstrap, one
/// directory per profile, the 1600 desktop viewport, every switch on but headless.
pub open spec fn browser_policy_is_default(d: DesktopBrowserEnvironmentPolicyDraft) -> bool {
    &&& d.browser_family@ == "chrome"@
    &&& d.launch_strategy@ == "reuse_or_bootstrap"@
    &&& d.profile_storage_mode@ == "per_profile"@
    &&& d.default_viewport_preset@ == "desktop_1600"@
    &&& d.keep_user_data_between_runs
    &&& d.allow_extensions
    &&& d.allow_bookmarks_seed
    &&& d.allow_profile_archive_import
    &&& !d.headless_allowed
}

pub fn default_desktop_browser_environment_policy() -> (d: DesktopBrowserEnvironmentPolicyDraft)
    ensures
        browser_policy_is_default(d),
{
    DesktopBrowserEnvironmentPolicyDraft {
        browser_family: owned("chrome"),
        launch_strategy: owned("reuse_or_bootstrap"),
        profile_storage_mode: owned("per_profile"),
        default_viewport_preset: owned("desktop_1600"),
        keep_user_data_between_runs: true,
        allow_extensions: true,
        allow_bookmarks_seed: true,
        allow_profile_archive_import: true,
        headless_allowed: false,
    }
}

pub open spec fn browser_families() -> Seq<Seq<char>> {
    seq!["chrome"@, "edge"@, "lightpanda"@]
}

pub open spec fn launch_strategies() -> Seq<Seq<char>> {
    seq!["reuse_or_bootstrap"@, "clean_bootstrap"@, "attach_existing"@]
}

pub open spec fn profile_storage_modes() -> Seq<Seq<char>> {
    seq!["per_profile"@, "shared_workspace"@]
}

pub open spec fn viewport_presets() -> Seq<Seq<char>> {
    seq!["desktop_1600"@, "desktop_1920"@, "laptop_1440"@]
}

/// The first problem of a browser environment draft, as an error tag (`None` when valid).
pub open spec fn browser_policy_problem(d: DesktopBrowserEnvironmentPolicyDraft) -> Option<u8> {
    if !browser_families().contains(canonical(d.browser_family@)) {
        Some(0)
    } else if !launch_strategies().contains(canonical(d.launch_strategy@)) {
        Some(1)
    } else if !profile_storage_modes().contains(canonical(d.profile_storage_mode@)) {
        Some(2)
    } else if !viewport_presets().contains(canonical(d.default_viewport_preset@)) {
        Some(3)
    } else {
        None
    }
}

/// What validation makes of a valid browser environment draft `d`: each
/// choice trimmed and lowercased, the switches kept.
pub open spec fn browser_policy_validated(
    d: DesktopBrowserEnvironmentPolicyDraft,
    v: DesktopBrowserEnvironmentPolicyDraft,
) -> bool {
    &&& v.browser_family@ == canonical(d.browser_family@)
    &&& v.launch_strategy@ == canonical(d.launch_strategy@)
    &&& v.profile_storage_mode@ == canonical(d.profile_storage_mode@)
    &&& v.default_viewport_preset@ == canonical(d.default_viewport_preset@)
    &&& v.keep_user_data_between_runs == d.keep_user_data_between_runs
    &&& v.allow_extensions == d.allow_extensions
    &&& v.allow_bookmarks_seed == d.allow_bookmarks_seed
    &&& v.allow_profile_archive_import == d.allow_profile_archive_import
    &&& v.headless_allowed == d.headless_allowed
}

/// Validates a browser environment draft: each choice must be a known value
/// once trimmed and lowercased.
pub fn validate_browser_environment_policy_draft(draft: DesktopBrowserEnvironmentPolicyDraft) -> (result: Result<
    DesktopBrowserEnvironmentPolicyDraft,
    SettingsError,
>)
    ensures
        match browser_policy_problem(draft) {
            Some(0) => result matches Err(SettingsError::UnsupportedBrowserFamily { given }) && given@
                == draft.browser_family@,
            Some(1) => result matches Err(SettingsError::UnsupportedLaunchStrategy { given }) && given@
                == draft.launch_strategy@,
            Some(2) => result matches Err(SettingsError::UnsupportedProfileStorageMode { given }) && given@
                == draft.profile_storage_mode@,
            Some(_) => result matches Err(SettingsError::UnsupportedViewportPreset { given }) && given@
                == draft.default_viewport_preset@,
            None => result matches Ok(v) && browser_policy_validated(draft, v),
        },
{
    let families = vec!["chrome", "edge", "lightpanda"];
    assert(strs_view(families@) =~= browser_families());
    let (browser_family, ok) = canonical_in(draft.browser_family.as_str(), &families);
    if !ok {
        return Err(SettingsError::UnsupportedBrowserFamily { given: draft.browser_family });
    }
    let strategies = vec!["reuse_or_bootstrap", "clean_bootstrap", "attach_existing"];
    assert(strs_view(strategies@) =~= launch_strategies());
    let (launch_strategy, ok) = canonical_in(draft.launch_strategy.as_str(), &strategies);
    if !ok {
        return Err(SettingsError::UnsupportedLaunchStrategy { given: draft.launch_strategy });
    }
    let storages = vec!["per_profile", "shared_workspace"];
    assert(strs_view(storages@) =~= profile_storage_modes());
    let (profile_storage_mode, ok) = canonical_in(draft.profile_storage_mode.as_str(), &storages);
    if !ok {
        return Err(SettingsError::UnsupportedProfileStorageMode { given: draft.profile_storage_mode });
    }
    let presets = vec!["desktop_1600", "desktop_1920", "laptop_1440"];
    assert(strs_view(presets@) =~= viewport_presets());
    let (default_viewport_preset, ok) = canonical_in(draft.default_viewport_preset.as_str(), &presets);
    if !ok {
        return Err(SettingsError::UnsupportedViewportPreset { given: draft.default_viewport_preset });
    }
    Ok(DesktopBrowserEnvironmentPolicyDraft {
        browser_family,
        launch_strategy,
        profile_storage_mode,
        default_viewport_preset,
        keep_user_data_between_runs: draft.keep_user_data_between_runs,
        allow_extensions: draft.allow_extensions,
        allow_bookmarks_seed: draft.allow_bookmarks_seed,
        allow_profile_archive_import: draft.allow_profile_archive_import,
        headless_allowed: draft.headless_allowed,
    })
}

/// A plain lowercase token: non-empty, with no whitespace and no uppercase ASCII letter.
pub open spec fn plain_token(s: Seq<char>) -> bool {
    s.len() > 0 && forall|i: int| 0 <= i < s.len() ==> !crate::text::is_whitespace(#[trigger] s[i]) && !(
    'A' <= s[i] && s[i] <= 'Z')
}

/// Trimming and lowercasing leave a plain token unchanged.
pub proof fn lemma_canonical_of_plain_token(s: Seq<char>)
    requires
        plain_token(s),
    ensures
        canonical(s) == s,
{
    assert(!crate::text::is_whitespace(s[0]));
    assert(crate::text::trim_start(s) == s);
    assert(!crate::text::is_whitespace(s.last()));
    assert(crate::text::trim_end(s) == s);
    assert(ascii_lower(s) =~= s);
}

proof fn lemma_literal_tokens()
    ensures
        plain_token("fake"@),
        plain_token("lightpanda"@),
        plain_token("127.0.0.1"@),
        plain_token("localhost"@),
        plain_token("manual"@),
        plain_token("auto_on_shell_open"@),
        plain_token("desktop_session"@),
        plain_token("loopback_token"@),
        plain_token("chrome"@),
        plain_token("edge"@),
        plain_token("reuse_or_bootstrap"@),
        plain_token("clean_bootstrap"@),
        plain_token("attach_existing"@),
        plain_token("per_profile"@),
        plain_token("shared_workspace"@),
        plain_token("desktop_1600"@),
        plain_token("desktop_1920"@),
        plain_token("laptop_1440"@),
{
    reveal_strlit("fake");
    reveal_strlit("lightpanda");
    reveal_strlit("127.0.0.1");
    reveal_strlit("localhost");
    reveal_strlit("manual");
    reveal_strlit("auto_on_shell_open");
    reveal_strlit("desktop_session");
    reveal_strlit("loopback_token");
    reveal_strlit("chrome");
    reveal_strlit("edge");
    reveal_strlit("reuse_or_bootstrap");
    reveal_strlit("clean_bootstrap");
    reveal_strlit("attach_existing");
    reveal_strlit("per_profile");
    reveal_strlit("shared_workspace");
    reveal_strlit("desktop_1600");
    reveal_strlit("desktop_1920");
    reveal_strlit("laptop_1440");
}

/// Every accepted setting value is already in canonical form.
proof fn lemma_known_values_canonical(s: Seq<char>)
    requires
        runner_kinds().contains(s) || loopback_hosts().contains(s) || start_modes().contains(s)
            || auth_modes().contains(s) || browser_families().contains(s) || launch_strategies().contains(s)
            || profile_storage_modes().contains(s) || viewport_presets().contains(s),
    ensures
        canonical(s) == s,
{
    lemma_literal_tokens();
    lemma_canonical_of_plain_token(s);
}

/// Validation is idempotent: a validated runtime draft validates again to itself.
pub proof fn lemma_runtime_validation_idempotent(draft: DesktopRuntimeSettingsDraft, valid: DesktopRuntimeSettingsDraft)
    requires
        runtime_draft_problem(draft) is None,
        valid.runner_kind@ == canonical(draft.runner_kind@),
        valid.worker_count == draft.worker_count,
        valid.heartbeat_interval_seconds == draft.heartbeat_interval_seconds,
        valid.claim_retry_limit == draft.claim_retry_limit,
        valid.idle_backoff_min_ms == draft.idle_backoff_min_ms,
        valid.idle_backoff_max_ms == draft.idle_backoff_max_ms,
    ensures
        runtime_draft_problem(valid) is None,
        canonical(valid.runner_kind@) == valid.runner_kind@,
{
    lemma_known_values_canonical(valid.runner_kind@);
}

/// The runtime defaults pass validation unchanged.
pub proof fn lemma_runtime_defaults_valid(d: DesktopRuntimeSettingsDraft)
    requires
        d.runner_kind@ == "fake"@,
        d.worker_count == 1,
        d.reclaim_after_seconds is None,
        d.heartbeat_interval_seconds == 5,
        d.claim_retry_limit == 8,
        d.idle_backoff_min_ms == 250,
        d.idle_backoff_max_ms == 3000,
    ensures
        runtime_draft_problem(d) is None,
        canonical(d.runner_kind@) == d.runner_kind@,
{
    lemma_known_values_canonical(d.runner_kind@);
}

/// Validation is idempotent: a validated local API draft validates again to itself.
pub proof fn lemma_local_api_validation_idempotent(draft: DesktopLocalApiSettingsDraft, valid: DesktopLocalApiSettingsDraft)
    requires
        local_api_draft_problem(draft) is None,
        valid.host@ == canonical(draft.host@),
        valid.port == draft.port,
        valid.start_mode@ == canonical(draft.start_mode@),
        valid.auth_mode@ == canonical(draft.auth_mode@),
        valid.max_concurrent_sessions == draft.max_concurrent_sessions,
    ensures
        local_api_draft_problem(valid) is None,
        canonical(valid.host@) == valid.host@,
        canonical(valid.start_mode@) == valid.start_mode@,
        canonical(valid.auth_mode@) == valid.auth_mode@,
{
    lemma_known_values_canonical(valid.host@);
    lemma_known_values_canonical(valid.start_mode@);
    lemma_known_values_canonical(valid.auth_mode@);
}

/// The local API defaults pass validation unchanged.
pub proof fn lemma_local_api_defaults_valid(d: DesktopLocalApiSettingsDraft)
    requires
        d.host@ == "127.0.0.1"@,
        d.port == 3000,
        d.start_mode@ == "manual"@,
        d.auth_mode@ == "desktop_session"@,
        d.max_concurrent_sessions == 4,
    ensures
        local_api_draft_problem(d) is None,
        canonical(d.host@) == d.host@,
        canonical(d.start_mode@) == d.start_mode@,
        canonical(d.auth_mode@) == d.auth_mode@,
{
    lemma_known_values_canonical(d.host@);
    lemma_known_values_canonical(d.start_mode@);
    lemma_known_values_canonical(d.auth_mode@);
}

/// Validation is idempotent: a validated browser environment draft validates again to itself.
pub proof fn lemma_browser_policy_validation_idempotent(
    draft: DesktopBrowserEnvironmentPolicyDraft,
    valid: DesktopBrowserEnvironmentPolicyDraft,
)
    requires
        browser_policy_problem(draft) is None,
        valid.browser_family@ == canonical(draft.browser_family@),
        valid.launch_strategy@ == canonical(draft.launch_strategy@),
        valid.profile_storage_mode@ == canonical(draft.profile_storage_mode@),
        valid.default_viewport_preset@ == canonical(draft.default_viewport_preset@),
    ensures
        browser_policy_problem(valid) is None,
        canonical(valid.browser_family@) == valid.browser_family@,
        canonical(valid.launch_strategy@) == valid.launch_strategy@,
        canonical(valid.profile_storage_mode@) == valid.profile_storage_mode@,
        canonical(valid.default_viewport_preset@) == valid.default_viewport_preset@,
{
    lemma_known_values_canonical(valid.browser_family@);
    lemma_known_values_canonical(valid.launch_strategy@);
    lemma_known_values_canonical(valid.profile_storage_mode@);
    lemma_known_values_canonical(valid.default_viewport_preset@);
}

/// The browser environment defaults pass validation unchanged.
pub proof fn lemma_browser_policy_defaults_valid(d: DesktopBrowserEnvironmentPolicyDraft)
    requires
        d.browser_family@ == "chrome"@,
        d.launch_strategy@ == "reuse_or_bootstrap"@,
        d.profile_storage_mode@ == "per_profile"@,
        d.default_viewport_preset@ == "desktop_1600"@,
    ensures
        browser_policy_problem(d) is None,
        canonical(d.browser_family@) == d.browser_family@,
        canonical(d.launch_strategy@) == d.launch_strategy@,
        canonical(d.profile_storage_mode@) == d.profile_storage_mode@,
        canonical(d.default_viewport_preset@) == d.default_viewport_preset@,
{
    lemma_known_values_canonical(d.browser_family@);
    lemma_known_values_canonical(d.launch_strategy@);
    lemma_known_values_canonical(d.profile_storage_mode@);
    lemma_known_values_canonical(d.default_viewport_preset@);
}

/// A runtime draft in force is valid and already in canonical form.
pub open spec fn runtime_in_force(d: DesktopRuntimeSettingsDraft) -> bool {
    runtime_draft_problem(d) is None && canonical(d.runner_kind@) == d.runner_kind@
}

/// A local API draft in force is valid and already in canonical form.
pub open spec fn local_api_in_force(d: DesktopLocalApiSettingsDraft) -> bool {
    &&& local_api_draft_problem(d) is None
    &&& canonical(d.host@) == d.host@
    &&& canonical(d.start_mode@) == d.start_mode@
    &&& canonical(d.auth_mode@) == d.auth_mode@
}

/// A browser environment draft in force is valid and already in canonical form.
pub open spec fn browser_policy_in_force(d: DesktopBrowserEnvironmentPolicyDraft) -> bool {
    &&& browser_policy_problem(d) is None
    &&& canonical(d.browser_family@) == d.browser_family@
    &&& canonical(d.launch_strategy@) == d.launch_strategy@
    &&& canonical(d.profile_storage_mode@) == d.profile_storage_mode@
    &&& canonical(d.default_viewport_preset@) == d.default_viewport_preset@
}

/// The runtime settings in force, given what the settings file held (`None`
/// when it is missing or unreadable): its draft once validated when it
/// validates, else the desktop defaults.
pub fn effective_runtime_settings_from(stored: Option<DesktopRuntimeSettingsDraft>) -> (d: DesktopRuntimeSettingsDraft)
    ensures
        runtime_in_force(d),
        match stored {
            Some(s) => if runtime_draft_problem(s) is None {
                runtime_validated(s, d)
            } else {
                runtime_is_default(d)
            },
            None => runtime_is_default(d),
        },
{
    if let Some(s) = stored {
        let ghost g = s;
        if let Ok(v) = validate_runtime_settings_draft(s) {
            proof {
                lemma_runtime_validation_idempotent(g, v);
            }
            return v;
        }
    }
    let d = default_desktop_runtime_settings();
    proof {
        lemma_runtime_defaults_valid(d);
    }
    d
}

/// The local API settings in force, given what the settings file held.
pub fn effective_local_api_settings_from(stored: Option<DesktopLocalApiSettingsDraft>) -> (d: DesktopLocalApiSettingsDraft)
    ensures
        local_api_in_force(d),
        match stored {
            Some(s) => if local_api_draft_problem(s) is None {
                local_api_validated(s, d)
            } else {
                local_api_is_default(d)
            },
            None => local_api_is_default(d),
        },
{
    if let Some(s) = stored {
        let ghost g = s;
        if let Ok(v) = validate_local_api_settings_draft(s) {
            proof {
                lemma_local_api_validation_idempotent(g, v);
            }
            return v;
        }
    }
    let d = default_desktop_local_api_settings();
    proof {
        lemma_local_api_defaults_valid(d);
    }
    d
}

/// The browser environment policy in force, given what the policy file held.
pub fn effective_browser_environment_policy_from(
    stored: Option<DesktopBrowserEnvironmentPolicyDraft>,
) -> (d: DesktopBrowserEnvironmentPolicyDraft)
    ensures
        browser_policy_in_force(d),
        match stored {
            Some(s) => if browser_policy_problem(s) is None {
                browser_policy_validated(s, d)
            } else {
                browser_policy_is_default(d)
            },
            None => browser_policy_is_default(d),
        },
{
    if let Some(s) = stored {
        let ghost g = s;
        if let Ok(v) = validate_browser_environment_policy_draft(s) {
            proof {
                lemma_browser_policy_validation_idempotent(g, v);
            }
            return v;
        }
    }
    let d = default_desktop_browser_environment_policy();
    proof {
        lemma_browser_policy_defaults_valid(d);
    }
    d
}

/// Applying a runtime draft and reading the settings back gives the draft as
/// validation left it: `applied` is what validation stored, `read` what the
/// settings in force are once the file holds it.
pub proof fn lemma_runtime_apply_then_read(
    draft: DesktopRuntimeSettingsDraft,
    applied: DesktopRuntimeSettingsDraft,
    read: DesktopRuntimeSettingsDraft,
)
    requires
        runtime_draft_problem(draft) is None,
        runtime_validated(draft, applied),
        runtime_validated(applied, read),
    ensures
        runtime_draft_problem(applied) is None,
        runtime_validated(draft, read),
        runtime_in_force(read),
{
    lemma_runtime_validation_idempotent(draft, applied);
    lemma_runtime_validation_idempotent(applied, read);
}

/// Applying a local API draft and reading the settings back gives the draft
/// as validation left it.
pub proof fn lemma_local_api_apply_then_read(
    draft: DesktopLocalApiSettingsDraft,
    applied: DesktopLocalApiSettingsDraft,
    read: DesktopLocalApiSettingsDraft,
)
    requires
        local_api_draft_problem(draft) is None,
        local_api_validated(draft, applied),
        local_api_validated(applied, read),
    ensures
        local_api_draft_problem(applied) is None,
        local_api_validated(draft, read),
        local_api_in_force(read),
{
    lemma_local_api_validation_idempotent(draft, applied);
    lemma_local_api_validation_idempotent(applied, read);
}

/// Applying a browser environment draft and reading the policy back gives
/// each choice trimmed and lowercased and each switch as the draft set it.
pub proof fn lemma_browser_policy_apply_then_read(
    draft: DesktopBrowserEnvironmentPolicyDraft,
    applied: DesktopBrowserEnvironmentPolicyDraft,
    read: DesktopBrowserEnvironmentPolicyDraft,
)
    requires
        browser_policy_problem(draft) is None,
        browser_policy_validated(draft, applied),
        browser_policy_validated(applied, read),
    ensures
        browser_policy_problem(applied) is None,
        browser_policy_validated(draft, read),
        browser_policy_in_force(read),
{
    lemma_browser_policy_validation_idempotent(draft, applied);
    lemma_browser_policy_validation_idempotent(applied, read);
}

/// The base URL of the local API: `http://{host}:{port}`.
pub open spec fn local_api_base_url(host: Seq<char>, port: u16) -> Seq<char> {
    "http://"@ + host + ":"@ + decimal_digits(port as nat)
}

/// The local API snapshot for effective settings, the path of their config file
/// and the file's timestamp.
pub fn build_desktop_local_api_snapshot(
    settings: &DesktopLocalApiSettingsDraft,
    config_path: &str,
    updated_at: &str,
) -> (snapshot: DesktopLocalApiSnapshot)
    ensures
        snapshot.host@ == settings.host@,
        snapshot.port == settings.port,
        snapshot.base_url@ == local_api_base_url(settings.host@, settings.port),
        snapshot.health_url@ == local_api_base_url(settings.host@, settings.port) + "/health"@,
        snapshot.config_path@ == config_path@,
        snapshot.bind_mode@ == "loopback_only"@,
        snapshot.start_mode@ == settings.start_mode@,
        snapshot.auth_mode@ == settings.auth_mode@,
        snapshot.request_logging_enabled == settings.request_logging_enabled,
        snapshot.require_local_token == settings.require_local_token,
        snapshot.read_only_safe_mode == settings.read_only_safe_mode,
        snapshot.max_concurrent_sessions == settings.max_concurrent_sessions,
        snapshot.updated_at@ == updated_at@,
{
    let port = u64_to_text(settings.port as u64);
    let mut base_url = concat3("http://", settings.host.as_str(), ":");
    base_url.append(port.as_str());
    let health_url = concat2(base_url.as_str(), "/health");
    DesktopLocalApiSnapshot {
        host: owned(settings.host.as_str()),
        port: settings.port,
        base_url,
        health_url,
        config_path: owned(config_path),
        bind_mode: owned("loopback_only"),
        start_mode: owned(settings.start_mode.as_str()),
        auth_mode: owned(settings.auth_mode.as_str()),
        request_logging_enabled: settings.request_logging_enabled,
        require_local_token: settings.require_local_token,
        read_only_safe_mode: settings.read_only_safe_mode,
        max_concurrent_sessions: settings.max_concurrent_sessions,
        updated_at: owned(updated_at),
    }
}

/// The local API snapshot for what the settings file held (`None` when it is
/// missing or unreadable), the file's path and its timestamp: always on a
/// loopback host, a non-zero port and 1..=32 sessions, and on the defaults
/// whenever the file holds no valid draft.
pub fn local_api_snapshot_from(
    stored: Option<DesktopLocalApiSettingsDraft>,
    config_path: &str,
    updated_at: &str,
) -> (snapshot: DesktopLocalApiSnapshot)
    ensures
        loopback_hosts().contains(snapshot.host@),
        snapshot.port > 0,
        1 <= snapshot.max_concurrent_sessions <= 32,
        snapshot.base_url@ == local_api_base_url(snapshot.host@, snapshot.port),
        snapshot.health_url@ == snapshot.base_url@ + "/health"@,
        snapshot.bind_mode@ == "loopback_only"@,
        snapshot.config_path@ == config_path@,
        snapshot.updated_at@ == updated_at@,
        exists|d: DesktopLocalApiSettingsDraft| {
            &&& #[trigger] local_api_in_force(d)
            &&& match stored {
                Some(s) => if local_api_draft_problem(s) is None {
                    local_api_validated(s, d)
                } else {
                    local_api_is_default(d)
                },
                None => local_api_is_default(d),
            }
            &&& snapshot.host@ == d.host@
            &&& snapshot.port == d.port
            &&& snapshot.start_mode@ == d.start_mode@
            &&& snapshot.auth_mode@ == d.auth_mode@
            &&& snapshot.request_logging_enabled == d.request_logging_enabled
            &&& snapshot.require_local_token == d.require_local_token
            &&& snapshot.read_only_safe_mode == d.read_only_safe_mode
            &&& snapshot.max_concurrent_sessions == d.max_concurrent_sessions
        },
{
    let settings = effective_local_api_settings_from(stored);
    build_desktop_local_api_snapshot(&settings, config_path, updated_at)
}

/// Whether a settings file was written with the operator's draft or with the defaults.
#[derive(Debug, Clone, Copy, PartialEq, Eq, Structural)]
pub enum SettingsAction {
    Applied,
    Restored,
}

pub open spec fn action_name(action: SettingsAction) -> Seq<char> {
    match action {
        SettingsAction::Applied => "applied"@,
        SettingsAction::Restored => "restored"@,
    }
}

fn action_text(action: SettingsAction) -> (s: String)
    ensures
        s@ == action_name(action),
{
    match action {
        SettingsAction::Applied => owned("applied"),
        SettingsAction::Restored => owned("restored"),
    }
}

/// The operator message after writing runtime settings to `path`.
pub open spec fn runtime_settings_message(action: SettingsAction, path: Seq<char>) -> Seq<char> {
    match action {
        SettingsAction::Applied => "Runtime settings were applied to "@ + path + "."@,
        SettingsAction::Restored => "Runtime settings were restored to desktop defaults in "@ + path + "."@,
    }
}

pub fn runtime_settings_mutation_result(
    action: SettingsAction,
    path: &str,
    snapshot: DesktopSettingsSnapshot,
    updated_at: &str,
) -> (r: DesktopSettingsMutationResult)
    ensures
        r.action@ == action_name(action),
        r.snapshot == snapshot,
        r.updated_at@ == updated_at@,
        r.message@ == runtime_settings_message(action, path@),
{
    let message = match action {
        SettingsAction::Applied => concat3("Runtime settings were applied to ", path, "."),
        SettingsAction::Restored => concat3("Runtime settings were restored to desktop defaults in ", path, "."),
    };
    DesktopSettingsMutationResult { action: action_text(action), snapshot, updated_at: owned(updated_at), message }
}

/// The operator message after writing local API settings to `path`.
pub open spec fn local_api_message(action: SettingsAction, path: Seq<char>) -> Seq<char> {
    match action {
        SettingsAction::Applied => "Local API settings were written to "@ + path + "."@,
        SettingsAction::Restored => "Local API settings were restored to desktop defaults in "@ + path + "."@,
    }
}

pub fn local_api_mutation_result(
    action: SettingsAction,
    path: &str,
    snapshot: DesktopLocalApiSnapshot,
    updated_at: &str,
) -> (r: DesktopLocalApiMutationResult)
    ensures
        r.action@ == action_name(action),
        r.snapshot == snapshot,
        r.updated_at@ == updated_at@,
        r.message@ == local_api_message(action, path@),
{
    let message = match action {
        SettingsAction::Applied => concat3("Local API settings were written to ", path, "."),
        SettingsAction::Restored => concat3("Local API settings were restored to desktop defaults in ", path, "."),
    };
    DesktopLocalApiMutationResult { action: action_text(action), snapshot, updated_at: owned(updated_at), message }
}

/// The operator message after writing the browser environment policy to `path`.
pub open spec fn browser_policy_message(action: SettingsAction, path: Seq<char>) -> Seq<char> {
    match action {
        SettingsAction::Applied => "Browser environment policy was written to "@ + path + "."@,
        SettingsAction::Restored => "Browser environment policy was restored to defaults in "@ + path + "."@,
    }
}

pub fn browser_policy_mutation_result(
    action: SettingsAction,
    path: &str,
    snapshot: DesktopBrowserEnvironmentPolicySnapshot,
    updated_at: &str,
) -> (r: DesktopBrowserEnvironmentPolicyMutationResult)
    ensures
        r.action@ == action_name(action),
        r.snapshot == snapshot,
        r.updated_at@ == updated_at@,
        r.message@ == browser_policy_message(action, path@),
{
    let message = match action {
        SettingsAction::Applied => concat3("Browser environment policy was written to ", path, "."),
        SettingsAction::Restored => concat3("Browser environment policy was restored to defaults in ", path, "."),
    };
    DesktopBrowserEnvironmentPolicyMutationResult {
        action: action_text(action),
        snapshot,
        updated_at: owned(updated_at),
        message,
    }
}

} // verus!
