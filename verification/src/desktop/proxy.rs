//! Proxy rotation: the residency of a proxy's sticky session, the rotation a
//! change-IP request runs, how a provider's answer to the rotation write is
//! read, and how that answer settles the request.
use vstd::prelude::*;

use super::types::{
    DesktopProxyUsageSummary, DesktopProxyChangeIpCooldown, DesktopProxyChangeIpRequest,
    DesktopProxyChangeIpResult, DesktopProxyChangeIpRetry, DesktopProxyChangeIpRollback,
};

use crate::bindings::{
    canonical_reason_of, json_has_at, json_i64_at, json_str_at, json_text_has, json_text_i64_at, json_text_shape,
    json_text_str_at, parse_json_shape, status_canonical_reason,
};
use crate::numtext::{
    decimal_text, i64_to_text, parse_i64, parse_trimmed_i64_str, u64_to_text, decimal_digits,
};
use crate::text::{
    ascii_lower, ascii_upper, concat2, concat3, copy_opt, nonblank_trimmed,
    normalized_optional_text, opt_str_view, opt_view, owned, seq_contains, str_contains, str_eq,
    to_ascii_lowercase, to_ascii_uppercase, trim, trim_str, is_blank,
};

verus! {

/// The Unix timestamp a stored text holds: the trimmed text parsed as `i64`.
pub open spec fn parsed_ts(raw: Option<Seq<char>>) -> Option<i64> {
    match raw {
        Some(v) => parse_i64(trim(v)),
        None => None,
    }
}

/// Parses a stored Unix timestamp.
pub fn parse_ts_i64(raw: Option<&str>) -> (r: Option<i64>)
    ensures
        r == parsed_ts(opt_str_view(raw)),
{
    match raw {
        Some(v) => parse_trimmed_i64_str(v),
        None => None,
    }
}

/// The seconds left until a sticky session expires, when some are left.
pub open spec fn sticky_ttl(expires_at: Option<Seq<char>>, now_ts: i64) -> Option<int> {
    match parsed_ts(expires_at) {
        Some(e) => if e - now_ts > 0 {
            Some(e - now_ts)
        } else {
            None
        },
        None => None,
    }
}

/// The remaining lifetime of a session can be computed in `i64`.
pub open spec fn ttl_fits(expires_at: Option<Seq<char>>, now_ts: i64) -> bool {
    match parsed_ts(expires_at) {
        Some(e) => i64::MIN <= e - now_ts <= i64::MAX,
        None => true,
    }
}

/// The seconds a sticky session has left at `now_ts`, when it has any.
pub fn sticky_ttl_seconds_from_expires_at(expires_at: Option<&str>, now_ts: i64) -> (r: Option<i64>)
    requires
        ttl_fits(opt_str_view(expires_at), now_ts),
    ensures
        match r {
            Some(t) => sticky_ttl(opt_str_view(expires_at), now_ts) == Some(t as int),
            None => sticky_ttl(opt_str_view(expires_at), now_ts) is None,
        },
{
    let expires_at_ts = match parse_ts_i64(expires_at) {
        Some(e) => e,
        None => return None,
    };
    let ttl = expires_at_ts - now_ts;
    if ttl > 0 {
        Some(ttl)
    } else {
        None
    }
}

/// Both texts are given and differ once trimmed.
pub open spec fn trimmed_differs(a: Option<Seq<char>>, b: Option<Seq<char>>) -> bool {
    match (a, b) {
        (Some(x), Some(y)) => trim(x) != trim(y),
        _ => false,
    }
}

/// Where a proxy's session stands before a rotation.
pub open spec fn residency_status(
    session_key: Option<Seq<char>>,
    expires_at: Option<Seq<char>>,
    proxy_status: Option<Seq<char>>,
    requested_provider: Option<Seq<char>>,
    proxy_provider: Option<Seq<char>>,
    requested_region: Option<Seq<char>>,
    proxy_region: Option<Seq<char>>,
    now_ts: i64,
) -> Seq<char> {
    let status = ascii_lower(
        match proxy_status {
            Some(s) => s,
            None => "unknown"@,
        },
    );
    if status != "active"@ {
        "proxy_inactive"@
    } else if session_key is None {
        if requested_provider is Some || requested_region is Some {
            "provider_rotation_pending"@
        } else {
            "stateless_rotation"@
        }
    } else if parsed_ts(expires_at) matches Some(e) && e < now_ts {
        "sticky_expired"@
    } else if trimmed_differs(requested_provider, proxy_provider) {
        "provider_override_pending"@
    } else if trimmed_differs(requested_region, proxy_region) {
        "region_override_pending"@
    } else if expires_at is Some {
        "sticky_active"@
    } else {
        "sticky_unbounded"@
    }
}

fn trimmed_differ(a: Option<&str>, b: Option<&str>) -> (r: bool)
    ensures
        r == trimmed_differs(opt_str_view(a), opt_str_view(b)),
{
    match (a, b) {
        (Some(x), Some(y)) => {
            let tx = trim_str(x);
            let ty = trim_str(y);
            !str_eq(tx.as_str(), ty.as_str())
        },
        _ => false,
    }
}

/// Where a proxy's session stands: an inactive proxy cannot rotate; without a
/// session the rotation is stateless (or waits on the provider when a
/// provider or region is asked for); a session is expired, waits on a
/// provider or region override, or is active with or without an expiry.
pub fn build_proxy_residency_status(
    session_key: Option<&str>,
    expires_at: Option<&str>,
    proxy_status: Option<&str>,
    requested_provider: Option<&str>,
    proxy_provider: Option<&str>,
    requested_region: Option<&str>,
    proxy_region: Option<&str>,
    now_ts: i64,
) -> (r: String)
    ensures
        r@ == residency_status(
            opt_str_view(session_key),
            opt_str_view(expires_at),
            opt_str_view(proxy_status),
            opt_str_view(requested_provider),
            opt_str_view(proxy_provider),
            opt_str_view(requested_region),
            opt_str_view(proxy_region),
            now_ts,
        ),
{
    let normalized_proxy_status = match proxy_status {
        Some(s) => to_ascii_lowercase(s),
        None => to_ascii_lowercase("unknown"),
    };
    if !str_eq(normalized_proxy_status.as_str(), "active") {
        return owned("proxy_inactive");
    }
    if session_key.is_none() {
        if requested_provider.is_some() || requested_region.is_some() {
            return owned("provider_rotation_pending");
        }
        return owned("stateless_rotation");
    }
    match parse_ts_i64(expires_at) {
        Some(expires_ts) => if expires_ts < now_ts {
            return owned("sticky_expired");
        },
        None => {},
    }
    if trimmed_differ(requested_provider, proxy_provider) {
        return owned("provider_override_pending");
    }
    if trimmed_differ(requested_region, proxy_region) {
        return owned("region_override_pending");
    }
    if expires_at.is_some() {
        return owned("sticky_active");
    }
    owned("sticky_unbounded")
}

/// The rotation a change-IP request runs: the requested one, else a sticky
/// refresh (a rebind once the session expired), else a provider-aware
/// rotation when a provider or region is asked for, else a pool rotation.
pub open spec fn rotation_mode(
    requested_mode: Option<Seq<char>>,
    session_key: Option<Seq<char>>,
    residency: Seq<char>,
    requested_provider: Option<Seq<char>>,
    requested_region: Option<Seq<char>>,
) -> Seq<char> {
    match requested_mode {
        Some(m) => m,
        None => if session_key is Some {
            if residency == "sticky_expired"@ {
                "sticky_rebind"@
            } else {
                "sticky_refresh"@
            }
        } else if requested_provider is Some || requested_region is Some {
            "provider_aware_rotate"@
        } else {
            "pool_rotate"@
        },
    }
}

pub fn build_proxy_rotation_mode(
    requested_mode: Option<&str>,
    session_key: Option<&str>,
    residency_status: &str,
    requested_provider: Option<&str>,
    requested_region: Option<&str>,
) -> (r: String)
    ensures
        r@ == rotation_mode(
            opt_str_view(requested_mode),
            opt_str_view(session_key),
            residency_status@,
            opt_str_view(requested_provider),
            opt_str_view(requested_region),
        ),
{
    match requested_mode {
        Some(mode) => return owned(mode),
        None => {},
    }
    if session_key.is_some() {
        if str_eq(residency_status, "sticky_expired") {
            return owned("sticky_rebind");
        }
        return owned("sticky_refresh");
    }
    if requested_provider.is_some() || requested_region.is_some() {
        return owned("provider_aware_rotate");
    }
    owned("pool_rotate")
}

/// The status a change-IP request is queued with.
pub open spec fn change_ip_status(rotation_mode: Seq<char>) -> Seq<char> {
    if seq_contains(rotation_mode, "sticky"@) {
        "queued_sticky_rotation"@
    } else {
        "queued_provider_rotation"@
    }
}

pub fn derive_change_proxy_ip_status(rotation_mode: &str) -> (r: String)
    ensures
        r@ == change_ip_status(rotation_mode@),
{
    if str_contains(rotation_mode, "sticky") {
        owned("queued_sticky_rotation")
    } else {
        owned("queued_provider_rotation")
    }
}


/// A provider's rotation endpoint, as a harvest source configures it.
#[derive(Debug, Clone)]
pub struct ProxyRotationProviderConfig {
    pub endpoint: String,
    pub method: String,
    pub token_env: Option<String>,
    pub cooldown_seconds: Option<i64>,
}

/// The values a rotation object of a harvest source's configuration holds
/// under the keys the planner reads: the text of each text value and each
/// integer value, `None` where the key is absent or holds another kind.
#[derive(Debug, Clone)]
pub struct ProviderRotationConfigFields {
    pub endpoint: Option<String>,
    pub rotation_endpoint: Option<String>,
    pub rotation_endpoint_snake: Option<String>,
    pub method: Option<String>,
    pub token_env: Option<String>,
    pub token_env_snake: Option<String>,
    pub auth_token_env: Option<String>,
    pub auth_token_env_snake: Option<String>,
    pub cooldown_seconds: Option<i64>,
    pub cooldown_seconds_snake: Option<i64>,
}

/// A harvest source's configuration: the fields of its `providerRotation`
/// and `provider_rotation` values, where it has them, and of its root.
#[derive(Debug, Clone)]
pub struct ProviderRotationConfigSource {
    pub provider_rotation: Option<ProviderRotationConfigFields>,
    pub provider_rotation_snake: Option<ProviderRotationConfigFields>,
    pub root: ProviderRotationConfigFields,
}

/// The first of two texts that is not blank, trimmed.
pub open spec fn first_text(a: Option<Seq<char>>, b: Option<Seq<char>>) -> Option<Seq<char>> {
    match nonblank_trimmed(a) {
        Some(x) => Some(x),
        None => nonblank_trimmed(b),
    }
}

/// The first of three texts that is not blank, trimmed.
pub open spec fn first_text3(a: Option<Seq<char>>, b: Option<Seq<char>>, c: Option<Seq<char>>) -> Option<Seq<char>> {
    match nonblank_trimmed(a) {
        Some(x) => Some(x),
        None => first_text(b, c),
    }
}

/// The first of four texts that is not blank, trimmed.
pub open spec fn first_text4(
    a: Option<Seq<char>>,
    b: Option<Seq<char>>,
    c: Option<Seq<char>>,
    d: Option<Seq<char>>,
) -> Option<Seq<char>> {
    match first_text(a, b) {
        Some(x) => Some(x),
        None => first_text(c, d),
    }
}

/// A value that is a positive number.
pub open spec fn positive(v: Option<i64>) -> Option<i64> {
    match v {
        Some(x) => if x > 0 {
            Some(x)
        } else {
            None
        },
        None => None,
    }
}

fn first_text_of(a: &Option<String>, b: &Option<String>) -> (r: Option<String>)
    ensures
        opt_view(r) == first_text(opt_view(*a), opt_view(*b)),
{
    match normalized_optional_text(copy_opt(a)) {
        Some(x) => Some(x),
        None => normalized_optional_text(copy_opt(b)),
    }
}

fn positive_of(v: Option<i64>) -> (r: Option<i64>)
    ensures
        r == positive(v),
{
    match v {
        Some(x) => if x > 0 {
            Some(x)
        } else {
            None
        },
        None => None,
    }
}

/// The rotation object the planner reads: `providerRotation`, else
/// `provider_rotation`, else the root.
pub open spec fn rotation_fields(src: ProviderRotationConfigSource) -> ProviderRotationConfigFields {
    match src.provider_rotation {
        Some(f) => f,
        None => match src.provider_rotation_snake {
            Some(f) => f,
            None => src.root,
        },
    }
}

/// `c` is the provider configuration read from `f`.
pub open spec fn config_from_fields(f: ProviderRotationConfigFields, c: ProxyRotationProviderConfig) -> bool {
    &&& Some(c.endpoint@) == first_text3(
        opt_view(f.endpoint),
        opt_view(f.rotation_endpoint),
        opt_view(f.rotation_endpoint_snake),
    )
    &&& c.method@ == ascii_upper(
        match nonblank_trimmed(opt_view(f.method)) {
            Some(m) => m,
            None => "POST"@,
        },
    )
    &&& opt_view(c.token_env) == first_text4(
        opt_view(f.token_env),
        opt_view(f.token_env_snake),
        opt_view(f.auth_token_env),
        opt_view(f.auth_token_env_snake),
    )
    &&& c.cooldown_seconds == match positive(f.cooldown_seconds) {
        Some(x) => Some(x),
        None => positive(f.cooldown_seconds_snake),
    }
}

fn first_fields(src: &ProviderRotationConfigSource) -> (f: &ProviderRotationConfigFields)
    ensures
        *f == rotation_fields(*src),
{
    match &src.provider_rotation {
        Some(f) => f,
        None => match &src.provider_rotation_snake {
            Some(f) => f,
            None => &src.root,
        },
    }
}

/// The provider rotation a harvest source configures: none without an
/// endpoint; the method defaults to `POST` and is upper-cased; a token
/// variable and a positive cooldown are optional.
pub fn provider_rotation_config_from_source(src: &ProviderRotationConfigSource) -> (r: Option<ProxyRotationProviderConfig>)
    ensures
        match r {
            Some(c) => config_from_fields(rotation_fields(*src), c),
            None => first_text3(
                opt_view(rotation_fields(*src).endpoint),
                opt_view(rotation_fields(*src).rotation_endpoint),
                opt_view(rotation_fields(*src).rotation_endpoint_snake),
            ) is None,
        },
{
    let f = first_fields(src);
    let endpoint = match normalized_optional_text(copy_opt(&f.endpoint)) {
        Some(x) => x,
        None => match first_text_of(&f.rotation_endpoint, &f.rotation_endpoint_snake) {
            Some(x) => x,
            None => return None,
        },
    };
    let method = match normalized_optional_text(copy_opt(&f.method)) {
        Some(m) => to_ascii_uppercase(m.as_str()),
        None => to_ascii_uppercase("POST"),
    };
    let token_env = match first_text_of(&f.token_env, &f.token_env_snake) {
        Some(t) => Some(t),
        None => first_text_of(&f.auth_token_env, &f.auth_token_env_snake),
    };
    let cooldown_seconds = match positive_of(f.cooldown_seconds) {
        Some(x) => Some(x),
        None => positive_of(f.cooldown_seconds_snake),
    };
    Some(ProxyRotationProviderConfig { endpoint, method, token_env, cooldown_seconds })
}

/// How a provider answered a rotation write, or why it was not asked.
#[derive(Debug, Clone)]
pub struct ProxyRotationProviderWrite {
    pub phase: String,
    pub status: String,
    pub provider_write_status: String,
    pub message: String,
    pub rollback_proxy_id: Option<String>,
    pub cooldown_seconds: Option<i64>,
    pub retry_after_seconds: Option<i64>,
    pub retryable: bool,
}

/// `w` carries exactly these values.
pub open spec fn write_is(
    w: ProxyRotationProviderWrite,
    phase: Seq<char>,
    status: Seq<char>,
    provider_write_status: Seq<char>,
    message: Seq<char>,
    rollback_proxy_id: Option<Seq<char>>,
    cooldown_seconds: Option<i64>,
    retry_after_seconds: Option<i64>,
    retryable: bool,
) -> bool {
    &&& w.phase@ == phase
    &&& w.status@ == status
    &&& w.provider_write_status@ == provider_write_status
    &&& w.message@ == message
    &&& opt_view(w.rollback_proxy_id) == rollback_proxy_id
    &&& w.cooldown_seconds == cooldown_seconds
    &&& w.retry_after_seconds == retry_after_seconds
    &&& w.retryable == retryable
}

/// The HTTP methods a rotation endpoint may be written with.
pub open spec fn supported_method(method: Seq<char>) -> bool {
    method == "POST"@ || method == "PUT"@ || method == "PATCH"@
}

pub fn provider_method_supported(method: &str) -> (r: bool)
    ensures
        r == supported_method(method@),
{
    str_eq(method, "POST") || str_eq(method, "PUT") || str_eq(method, "PATCH")
}

/// The answer when the configured method is not one a rotation is written with.
pub fn unsupported_method_write(config: &ProxyRotationProviderConfig) -> (w: ProxyRotationProviderWrite)
    ensures
        write_is(
            w,
            "error"@,
            "unsupported_provider_method"@,
            "unsupported_provider_method"@,
            "provider rotation method "@ + config.method@ + " is not supported"@,
            None,
            config.cooldown_seconds,
            None,
            false,
        ),
{
    ProxyRotationProviderWrite {
        phase: owned("error"),
        status: owned("unsupported_provider_method"),
        provider_write_status: owned("unsupported_provider_method"),
        message: concat3("provider rotation method ", config.method.as_str(), " is not supported"),
        rollback_proxy_id: None,
        cooldown_seconds: config.cooldown_seconds,
        retry_after_seconds: None,
        retryable: false,
    }
}

/// The answer when no HTTP client could be built for the write.
pub fn client_unavailable_write(config: &ProxyRotationProviderConfig, error: &str) -> (w: ProxyRotationProviderWrite)
    ensures
        write_is(
            w,
            "error"@,
            "provider_client_unavailable"@,
            "provider_client_unavailable"@,
            "provider rotation HTTP client could not be built: "@ + error@,
            None,
            config.cooldown_seconds,
            config.cooldown_seconds,
            true,
        ),
{
    ProxyRotationProviderWrite {
        phase: owned("error"),
        status: owned("provider_client_unavailable"),
        provider_write_status: owned("provider_client_unavailable"),
        message: concat2("provider rotation HTTP client could not be built: ", error),
        rollback_proxy_id: None,
        cooldown_seconds: config.cooldown_seconds,
        retry_after_seconds: config.cooldown_seconds,
        retryable: true,
    }
}

/// Whether a credential read from the environment can be sent.
pub fn provider_token_usable(token: Option<&str>) -> (r: bool)
    ensures
        r == (opt_str_view(token) matches Some(t) && trim(t).len() > 0),
{
    match token {
        Some(t) => !is_blank(t),
        None => false,
    }
}

/// The answer when the credential variable the configuration names is unset.
pub fn missing_credentials_write(config: &ProxyRotationProviderConfig, token_env: &str) -> (w: ProxyRotationProviderWrite)
    ensures
        write_is(
            w,
            "blocked"@,
            "missing_provider_credentials"@,
            "missing_provider_credentials"@,
            "provider rotation credential environment variable "@ + token_env@ + " is not set"@,
            None,
            config.cooldown_seconds,
            None,
            true,
        ),
{
    ProxyRotationProviderWrite {
        phase: owned("blocked"),
        status: owned("missing_provider_credentials"),
        provider_write_status: owned("missing_provider_credentials"),
        message: concat3("provider rotation credential environment variable ", token_env, " is not set"),
        rollback_proxy_id: None,
        cooldown_seconds: config.cooldown_seconds,
        retry_after_seconds: None,
        retryable: true,
    }
}

/// The answer when the request to the provider failed.
pub fn request_failed_write(config: &ProxyRotationProviderConfig, error: &str) -> (w: ProxyRotationProviderWrite)
    ensures
        write_is(
            w,
            "error"@,
            "provider_write_failed"@,
            "request_failed"@,
            "provider rotation request failed: "@ + error@,
            None,
            config.cooldown_seconds,
            config.cooldown_seconds,
            true,
        ),
{
    ProxyRotationProviderWrite {
        phase: owned("error"),
        status: owned("provider_write_failed"),
        provider_write_status: owned("request_failed"),
        message: concat2("provider rotation request failed: ", error),
        rollback_proxy_id: None,
        cooldown_seconds: config.cooldown_seconds,
        retry_after_seconds: config.cooldown_seconds,
        retryable: true,
    }
}

/// The answer when the proxy's harvest source configures no rotation.
pub fn unsupported_provider_config_write() -> (w: ProxyRotationProviderWrite)
    ensures
        write_is(
            w,
            "blocked"@,
            "unsupported_provider_config"@,
            "unsupported_provider_config"@,
            "provider rotation adapter/config is not available"@,
            None,
            None,
            None,
            true,
        ),
{
    ProxyRotationProviderWrite {
        phase: owned("blocked"),
        status: owned("unsupported_provider_config"),
        provider_write_status: owned("unsupported_provider_config"),
        message: owned("provider rotation adapter/config is not available"),
        rollback_proxy_id: None,
        cooldown_seconds: None,
        retry_after_seconds: None,
        retryable: true,
    }
}

/// The values a provider's JSON answer holds under the keys the planner
/// reads: the text of each text value and each integer value, `None` where
/// the key is absent, holds another kind, or the answer is no JSON object.
#[derive(Debug, Clone)]
pub struct ProviderResponseBody {
    pub message: Option<String>,
    pub detail: Option<String>,
    pub rollback_proxy_id: Option<String>,
    pub rollback_proxy_id_snake: Option<String>,
    pub cooldown_seconds: Option<i64>,
    pub cooldown_seconds_snake: Option<i64>,
}

/// How an HTTP status prints: the code, a space and its canonical reason.
pub open spec fn status_line(code: u16) -> Seq<char> {
    decimal_digits(code as nat) + " "@ + match canonical_reason_of(code) {
        Some(r) => r,
        None => "<unknown status code>"@,
    }
}

/// `StatusCode`'s text, as `Display` writes it.
pub fn status_code_text(code: u16) -> (t: String)
    requires
        100 <= code <= 999,
    ensures
        t@ == status_line(code),
{
    let digits = u64_to_text(code as u64);
    let reason = match status_canonical_reason(code) {
        Some(r) => r,
        None => owned("<unknown status code>"),
    };
    concat3(digits.as_str(), " ", reason.as_str())
}

/// A status the provider may be asked again after.
pub open spec fn retryable_status(code: u16) -> bool {
    (500 <= code < 600) || code == 408 || code == 429
}

/// The provider's answer to a rotation write: committed on a 2xx status,
/// else rejected, or held for a retry on a server error, a timeout or a rate
/// limit. The message is the answer's `message` or `detail`, else the status
/// line; a retry-after header, the answer's cooldown and the configured
/// cooldown give the cooldown, in that order.
pub open spec fn provider_answer(
    config: ProxyRotationProviderConfig,
    code: u16,
    retry_after: Option<Seq<char>>,
    body: ProviderResponseBody,
    w: ProxyRotationProviderWrite,
) -> bool {
    let retry_after_seconds = positive(parsed_ts(retry_after));
    let message = match first_text(opt_view(body.message), opt_view(body.detail)) {
        Some(m) => m,
        None => status_line(code),
    };
    let rollback = first_text(opt_view(body.rollback_proxy_id), opt_view(body.rollback_proxy_id_snake));
    let body_cooldown = match positive(body.cooldown_seconds) {
        Some(x) => Some(x),
        None => positive(body.cooldown_seconds_snake),
    };
    if 200 <= code < 300 {
        write_is(
            w,
            "success"@,
            "committed"@,
            "committed"@,
            message,
            rollback,
            match body_cooldown {
                Some(x) => Some(x),
                None => config.cooldown_seconds,
            },
            None,
            false,
        )
    } else {
        let retryable = retryable_status(code);
        write_is(
            w,
            if retryable { "blocked"@ } else { "error"@ },
            if retryable { "provider_retry_required"@ } else { "provider_write_rejected"@ },
            if retryable { "retryable_provider_error"@ } else { "provider_rejected"@ },
            message,
            rollback,
            match retry_after_seconds {
                Some(x) => Some(x),
                None => match body_cooldown {
                    Some(x) => Some(x),
                    None => config.cooldown_seconds,
                },
            },
            retry_after_seconds,
            retryable,
        )
    }
}

/// Reads a provider's answer to a rotation write.
pub fn classify_provider_response(
    config: &ProxyRotationProviderConfig,
    status_code: u16,
    retry_after: Option<&str>,
    body: &ProviderResponseBody,
) -> (w: ProxyRotationProviderWrite)
    requires
        100 <= status_code <= 999,
    ensures
        provider_answer(*config, status_code, opt_str_view(retry_after), *body, w),
{
    let retry_after_seconds = positive_of(parse_ts_i64(retry_after));
    let message = match first_text_of(&body.message, &body.detail) {
        Some(m) => m,
        None => status_code_text(status_code),
    };
    let rollback_proxy_id = first_text_of(&body.rollback_proxy_id, &body.rollback_proxy_id_snake);
    let body_cooldown_seconds = match positive_of(body.cooldown_seconds) {
        Some(x) => Some(x),
        None => positive_of(body.cooldown_seconds_snake),
    };
    if 200 <= status_code && status_code < 300 {
        return ProxyRotationProviderWrite {
            phase: owned("success"),
            status: owned("committed"),
            provider_write_status: owned("committed"),
            message,
            rollback_proxy_id,
            cooldown_seconds: match body_cooldown_seconds {
                Some(x) => Some(x),
                None => config.cooldown_seconds,
            },
            retry_after_seconds: None,
            retryable: false,
        };
    }
    let retryable = (500 <= status_code && status_code < 600) || status_code == 408 || status_code == 429;
    ProxyRotationProviderWrite {
        phase: if retryable { owned("blocked") } else { owned("error") },
        status: if retryable { owned("provider_retry_required") } else { owned("provider_write_rejected") },
        provider_write_status: if retryable { owned("retryable_provider_error") } else { owned("provider_rejected") },
        message,
        rollback_proxy_id,
        cooldown_seconds: match retry_after_seconds {
            Some(x) => Some(x),
            None => match body_cooldown_seconds {
                Some(x) => Some(x),
                None => config.cooldown_seconds,
            },
        },
        retry_after_seconds,
        retryable,
    }
}


/// The proxy a change-IP request names, as stored.
#[derive(Debug, Clone)]
pub struct ProxyRotationTarget {
    pub provider: Option<String>,
    pub region: Option<String>,
    pub status: String,
}

/// The session binding found for the proxy: the one the request names, else
/// the most relevant one the store holds.
#[derive(Debug, Clone)]
pub struct ProxySessionBindingRow {
    pub session_key: Option<String>,
    pub provider: Option<String>,
    pub region: Option<String>,
    pub requested_provider: Option<String>,
    pub requested_region: Option<String>,
    pub expires_at: Option<String>,
}

/// What a change-IP request will ask the provider for.
#[derive(Debug, Clone)]
pub struct ProxyRotationPlan {
    pub session_key: Option<String>,
    pub requested_provider: Option<String>,
    pub requested_region: Option<String>,
    pub expires_at: Option<String>,
    pub residency_status: String,
    pub rotation_mode: String,
    pub sticky_ttl_seconds: Option<i64>,
    pub rotation_status: String,
}

/// `a`, else `b`.
pub open spec fn or_text(a: Option<Seq<char>>, b: Option<Seq<char>>) -> Option<Seq<char>> {
    match a {
        Some(x) => Some(x),
        None => b,
    }
}

/// A field of the binding, when there is one.
pub open spec fn binding_text(binding: Option<ProxySessionBindingRow>, which: int) -> Option<Seq<char>> {
    match binding {
        Some(b) => if which == 0 {
            opt_view(b.session_key)
        } else if which == 1 {
            opt_view(b.provider)
        } else if which == 2 {
            opt_view(b.region)
        } else if which == 3 {
            opt_view(b.requested_provider)
        } else if which == 4 {
            opt_view(b.requested_region)
        } else {
            opt_view(b.expires_at)
        },
        None => None,
    }
}

/// The session a rotation keeps: the requested one, else the binding's.
pub open spec fn plan_session_key(req: DesktopProxyChangeIpRequest, binding: Option<ProxySessionBindingRow>) -> Option<Seq<char>> {
    or_text(nonblank_trimmed(opt_view(req.session_key)), binding_text(binding, 0))
}

/// The provider a rotation asks for: the requested one, else the binding's
/// requested and then bound provider, else the proxy's.
pub open spec fn plan_provider(
    req: DesktopProxyChangeIpRequest,
    proxy: ProxyRotationTarget,
    binding: Option<ProxySessionBindingRow>,
) -> Option<Seq<char>> {
    or_text(
        nonblank_trimmed(opt_view(req.requested_provider)),
        or_text(binding_text(binding, 3), or_text(binding_text(binding, 1), opt_view(proxy.provider))),
    )
}

/// The region a rotation asks for, chosen as the provider is.
pub open spec fn plan_region(
    req: DesktopProxyChangeIpRequest,
    proxy: ProxyRotationTarget,
    binding: Option<ProxySessionBindingRow>,
) -> Option<Seq<char>> {
    or_text(
        nonblank_trimmed(opt_view(req.requested_region)),
        or_text(binding_text(binding, 4), or_text(binding_text(binding, 2), opt_view(proxy.region))),
    )
}

/// When a kept session expires: `now_ts` plus the requested lifetime, else
/// the binding's expiry; nothing without a session.
pub open spec fn plan_expires_at(
    req: DesktopProxyChangeIpRequest,
    binding: Option<ProxySessionBindingRow>,
    now_ts: i64,
) -> Option<Seq<char>> {
    if plan_session_key(req, binding) is Some {
        match positive(req.sticky_ttl_seconds) {
            Some(t) => Some(decimal_text(now_ts + t)),
            None => binding_text(binding, 5),
        }
    } else {
        None
    }
}

/// The plan of a change-IP request can be computed in `i64`.
pub open spec fn rotation_plan_fits(
    req: DesktopProxyChangeIpRequest,
    binding: Option<ProxySessionBindingRow>,
    now_ts: i64,
) -> bool {
    &&& (positive(req.sticky_ttl_seconds) matches Some(t) ==> now_ts + t <= i64::MAX)
    &&& ttl_fits(binding_text(binding, 5), now_ts)
}

/// `p` is the plan of the change-IP request `req` for `proxy`, with the
/// session binding `binding`, at `now_ts`.
pub open spec fn planned_rotation(
    req: DesktopProxyChangeIpRequest,
    proxy: ProxyRotationTarget,
    binding: Option<ProxySessionBindingRow>,
    now_ts: i64,
    p: ProxyRotationPlan,
) -> bool {
    let session_key = plan_session_key(req, binding);
    let provider = plan_provider(req, proxy, binding);
    let region = plan_region(req, proxy, binding);
    let expires_at = plan_expires_at(req, binding, now_ts);
    let residency = residency_status(
        session_key,
        expires_at,
        Some(proxy.status@),
        provider,
        opt_view(proxy.provider),
        region,
        opt_view(proxy.region),
        now_ts,
    );
    let mode = rotation_mode(nonblank_trimmed(opt_view(req.mode)), session_key, residency, provider, region);
    &&& opt_view(p.session_key) == session_key
    &&& opt_view(p.requested_provider) == provider
    &&& opt_view(p.requested_region) == region
    &&& opt_view(p.expires_at) == expires_at
    &&& p.residency_status@ == residency
    &&& p.rotation_mode@ == mode
    &&& match positive(req.sticky_ttl_seconds) {
        Some(t) => p.sticky_ttl_seconds == Some(t),
        None => match sticky_ttl(expires_at, now_ts) {
            Some(t) => p.sticky_ttl_seconds matches Some(x) && x as int == t,
            None => p.sticky_ttl_seconds is None,
        },
    }
    &&& p.rotation_status@ == change_ip_status(mode)
}

fn binding_field(binding: &Option<ProxySessionBindingRow>, which: u8) -> (r: Option<String>)
    ensures
        opt_view(r) == binding_text(*binding, which as int),
{
    match binding {
        Some(b) => if which == 0 {
            copy_opt(&b.session_key)
        } else if which == 1 {
            copy_opt(&b.provider)
        } else if which == 2 {
            copy_opt(&b.region)
        } else if which == 3 {
            copy_opt(&b.requested_provider)
        } else if which == 4 {
            copy_opt(&b.requested_region)
        } else {
            copy_opt(&b.expires_at)
        },
        None => None,
    }
}

fn or_string(a: Option<String>, b: Option<String>) -> (r: Option<String>)
    ensures
        opt_view(r) == or_text(opt_view(a), opt_view(b)),
{
    match a {
        Some(x) => Some(x),
        None => b,
    }
}

fn as_opt_str(s: &Option<String>) -> (r: Option<&str>)
    ensures
        opt_str_view(r) == opt_view(*s),
{
    match s {
        Some(v) => Some(v.as_str()),
        None => None,
    }
}

/// The proxy a change-IP request names, trimmed; `None` when it names none.
pub fn requested_proxy_id(request: &DesktopProxyChangeIpRequest) -> (r: Option<String>)
    ensures
        opt_view(r) == nonblank_trimmed(Some(request.proxy_id@)),
{
    let t = trim_str(request.proxy_id.as_str());
    if t.as_str().is_empty() {
        None
    } else {
        Some(t)
    }
}

/// Plans a change-IP request: which session it keeps, which provider and
/// region it asks for, when the session expires, where the session stands and
/// which rotation runs.
pub fn plan_proxy_rotation(
    request: &DesktopProxyChangeIpRequest,
    proxy: &ProxyRotationTarget,
    binding: &Option<ProxySessionBindingRow>,
    now_ts: i64,
) -> (p: ProxyRotationPlan)
    requires
        rotation_plan_fits(*request, *binding, now_ts),
    ensures
        planned_rotation(*request, *proxy, *binding, now_ts, p),
{
    let requested_mode = normalized_optional_text(copy_opt(&request.mode));
    let requested_session_key = normalized_optional_text(copy_opt(&request.session_key));
    let requested_provider = normalized_optional_text(copy_opt(&request.requested_provider));
    let requested_region = normalized_optional_text(copy_opt(&request.requested_region));
    let requested_ttl = positive_of(request.sticky_ttl_seconds);
    let session_key = or_string(requested_session_key, binding_field(binding, 0));
    let provider = or_string(
        requested_provider,
        or_string(binding_field(binding, 3), or_string(binding_field(binding, 1), copy_opt(&proxy.provider))),
    );
    let region = or_string(
        requested_region,
        or_string(binding_field(binding, 4), or_string(binding_field(binding, 2), copy_opt(&proxy.region))),
    );
    let expires_at = if session_key.is_some() {
        match requested_ttl {
            Some(t) => Some(i64_to_text(now_ts + t)),
            None => binding_field(binding, 5),
        }
    } else {
        None
    };
    let residency_status = build_proxy_residency_status(
        as_opt_str(&session_key),
        as_opt_str(&expires_at),
        Some(proxy.status.as_str()),
        as_opt_str(&provider),
        as_opt_str(&proxy.provider),
        as_opt_str(&region),
        as_opt_str(&proxy.region),
        now_ts,
    );
    let rotation_mode = build_proxy_rotation_mode(
        as_opt_str(&requested_mode),
        as_opt_str(&session_key),
        residency_status.as_str(),
        as_opt_str(&provider),
        as_opt_str(&region),
    );
    let sticky_ttl_seconds = match requested_ttl {
        Some(t) => Some(t),
        None => sticky_ttl_seconds_from_expires_at(as_opt_str(&expires_at), now_ts),
    };
    let rotation_status = derive_change_proxy_ip_status(rotation_mode.as_str());
    ProxyRotationPlan {
        session_key,
        requested_provider: provider,
        requested_region: region,
        expires_at,
        residency_status,
        rotation_mode,
        sticky_ttl_seconds,
        rotation_status,
    }
}


/// What settling a change-IP request leaves to record: the answer returned
/// to the operator, the tracking task's status and error, its log line, and
/// whether the session binding and the proxy's success count are committed.
#[derive(Debug, Clone)]
pub struct ProxyRotationSettlement {
    pub result: DesktopProxyChangeIpResult,
    pub task_status: String,
    pub task_error_message: Option<String>,
    pub log_level: String,
    pub log_message: String,
    pub committed: bool,
}

/// The text, or `fallback` when there is none.
pub open spec fn text_or(v: Option<Seq<char>>, fallback: Seq<char>) -> Seq<char> {
    match v {
        Some(x) => x,
        None => fallback,
    }
}

/// The note a change-IP request records.
pub open spec fn rotation_note(p: ProxyRotationPlan) -> Seq<char> {
    "Prepared "@ + p.rotation_mode@ + " with residency "@ + p.residency_status@ + "; session="@ + text_or(
        opt_view(p.session_key),
        "none"@,
    ) + ", requested provider="@ + text_or(opt_view(p.requested_provider), "inherit"@)
        + ", requested region="@ + text_or(opt_view(p.requested_region), "inherit"@) + "."@
}

/// The message a change-IP request reports for the provider's answer.
pub open spec fn rotation_message(phase: Seq<char>, task_id: Seq<char>, provider_message: Seq<char>) -> Seq<char> {
    if phase == "success"@ {
        "Committed provider-aware change-IP task "@ + task_id + ": "@ + provider_message + "."@
    } else if phase == "blocked"@ {
        "Blocked provider-aware change-IP task "@ + task_id + ": "@ + provider_message
            + ". Local proxy selection is unchanged."@
    } else {
        "Provider-aware change-IP task "@ + task_id + " failed: "@ + provider_message
            + ". Local proxy selection is unchanged."@
    }
}

/// When the proxy may rotate again: `now_ts` plus the answer's cooldown,
/// else plus its retry-after delay.
pub open spec fn cooldown_until(w: ProxyRotationProviderWrite, now_ts: i64) -> Option<Seq<char>> {
    match w.cooldown_seconds {
        Some(c) => Some(decimal_text(now_ts + c)),
        None => match w.retry_after_seconds {
            Some(r) => Some(decimal_text(now_ts + r)),
            None => None,
        },
    }
}

/// The cooldown of an answer can be added to `now_ts` in `i64`.
pub open spec fn cooldown_fits(w: ProxyRotationProviderWrite, now_ts: i64) -> bool {
    &&& (w.cooldown_seconds matches Some(c) ==> i64::MIN <= now_ts + c <= i64::MAX)
    &&& (w.retry_after_seconds matches Some(r) ==> i64::MIN <= now_ts + r <= i64::MAX)
}

/// `s` settles the planned request `p` on `proxy_id` with the provider's
/// answer `w`, tracked as `task_id` at `now_ts` (written `updated_at`).
pub open spec fn settled(
    proxy_id: Seq<char>,
    p: ProxyRotationPlan,
    config_present: bool,
    w: ProxyRotationProviderWrite,
    task_id: Seq<char>,
    now_ts: i64,
    updated_at: Seq<char>,
    s: ProxyRotationSettlement,
) -> bool {
    let r = s.result;
    let success = w.phase@ == "success"@;
    let until = cooldown_until(w, now_ts);
    let message = rotation_message(w.phase@, task_id, w.message@);
    let note = rotation_note(p);
    &&& r.proxy_id@ == proxy_id
    &&& r.status@ == w.status@
    &&& r.phase@ == w.phase@
    &&& r.mode@ == p.rotation_mode@
    &&& opt_view(r.session_key) == opt_view(p.session_key)
    &&& opt_view(r.requested_provider) == opt_view(p.requested_provider)
    &&& opt_view(r.requested_region) == opt_view(p.requested_region)
    &&& r.sticky_ttl_seconds == p.sticky_ttl_seconds
    &&& r.note@ == note
    &&& r.residency_status@ == p.residency_status@
    &&& r.rotation_mode@ == p.rotation_mode@
    &&& r.rotation_status@ == p.rotation_status@
    &&& r.provider_config_status@ == (if config_present {
        "configured"@
    } else {
        "unsupported_provider_config"@
    })
    &&& r.provider_write_status@ == w.provider_write_status@
    &&& r.rollback.available == w.rollback_proxy_id is Some
    &&& opt_view(r.rollback.rollback_proxy_id) == opt_view(w.rollback_proxy_id)
    &&& r.rollback.reason@ == (if w.rollback_proxy_id is Some {
        "provider returned rollback handle"@
    } else if success {
        "provider committed rotation without rollback handle"@
    } else {
        w.message@
    })
    &&& r.cooldown.required == (until is Some && !success)
    &&& opt_view(r.cooldown.cooldown_until) == until
    &&& r.cooldown.reason@ == (if until is Some {
        w.message@
    } else {
        "provider did not require cooldown"@
    })
    &&& r.retry.retryable == w.retryable
    &&& r.retry.requires@ == (if !config_present {
        "provider_rotation_config"@
    } else if w.retryable {
        "cooldown_or_provider_recovery"@
    } else {
        "none"@
    })
    &&& r.retry.next_action@ == (if !config_present {
        "configure provider rotation endpoint and credentials before retry"@
    } else if w.retryable {
        "wait for cooldown or provider recovery before retry"@
    } else {
        "review provider response before retry"@
    })
    &&& r.tracking_task_id@ == task_id
    &&& opt_view(r.expires_at) == opt_view(p.expires_at)
    &&& r.updated_at@ == updated_at
    &&& r.message@ == message
    &&& s.task_status@ == (if success {
        "succeeded"@
    } else if w.phase@ == "blocked"@ {
        "blocked"@
    } else {
        "failed"@
    })
    &&& opt_view(s.task_error_message) == (if success {
        None
    } else {
        Some(message)
    })
    &&& s.log_level@ == (if success {
        "INFO"@
    } else {
        "WARN"@
    })
    &&& s.log_message@ == "change proxy IP request "@ + w.phase@ + "; "@ + note
    &&& s.committed == success
}

fn text_or_fallback(v: &Option<String>, fallback: &str) -> (r: String)
    ensures
        r@ == text_or(opt_view(*v), fallback@),
{
    match v {
        Some(x) => owned(x.as_str()),
        None => owned(fallback),
    }
}

fn build_rotation_note(p: &ProxyRotationPlan) -> (n: String)
    ensures
        n@ == rotation_note(*p),
{
    let session = text_or_fallback(&p.session_key, "none");
    let provider = text_or_fallback(&p.requested_provider, "inherit");
    let region = text_or_fallback(&p.requested_region, "inherit");
    let a = concat3("Prepared ", p.rotation_mode.as_str(), " with residency ");
    let b = concat3(a.as_str(), p.residency_status.as_str(), "; session=");
    let c = concat3(b.as_str(), session.as_str(), ", requested provider=");
    let d = concat3(c.as_str(), provider.as_str(), ", requested region=");
    let e = concat3(d.as_str(), region.as_str(), ".");
    e
}

fn build_rotation_message(phase: &str, task_id: &str, provider_message: &str) -> (m: String)
    ensures
        m@ == rotation_message(phase@, task_id@, provider_message@),
{
    if str_eq(phase, "success") {
        let a = concat3("Committed provider-aware change-IP task ", task_id, ": ");
        concat3(a.as_str(), provider_message, ".")
    } else if str_eq(phase, "blocked") {
        let a = concat3("Blocked provider-aware change-IP task ", task_id, ": ");
        concat3(a.as_str(), provider_message, ". Local proxy selection is unchanged.")
    } else {
        let a = concat3("Provider-aware change-IP task ", task_id, " failed: ");
        concat3(a.as_str(), provider_message, ". Local proxy selection is unchanged.")
    }
}

/// Settles a change-IP request once the provider answered (or was not asked):
/// builds the operator's answer, the tracking task's record and its log line.
pub fn settle_proxy_rotation(
    proxy_id: &str,
    plan: ProxyRotationPlan,
    config_present: bool,
    write: ProxyRotationProviderWrite,
    task_id: &str,
    now_ts: i64,
    updated_at: &str,
) -> (s: ProxyRotationSettlement)
    requires
        cooldown_fits(write, now_ts),
    ensures
        settled(proxy_id@, plan, config_present, write, task_id@, now_ts, updated_at@, s),
{
    let success = str_eq(write.phase.as_str(), "success");
    let until = match write.cooldown_seconds {
        Some(c) => Some(i64_to_text(now_ts + c)),
        None => match write.retry_after_seconds {
            Some(r) => Some(i64_to_text(now_ts + r)),
            None => None,
        },
    };
    let note = build_rotation_note(&plan);
    let message = build_rotation_message(write.phase.as_str(), task_id, write.message.as_str());
    let rollback = DesktopProxyChangeIpRollback {
        available: write.rollback_proxy_id.is_some(),
        rollback_proxy_id: copy_opt(&write.rollback_proxy_id),
        reason: if write.rollback_proxy_id.is_some() {
            owned("provider returned rollback handle")
        } else if success {
            owned("provider committed rotation without rollback handle")
        } else {
            owned(write.message.as_str())
        },
    };
    let cooldown = DesktopProxyChangeIpCooldown {
        required: until.is_some() && !success,
        reason: if until.is_some() {
            owned(write.message.as_str())
        } else {
            owned("provider did not require cooldown")
        },
        cooldown_until: until,
    };
    let retry = DesktopProxyChangeIpRetry {
        retryable: write.retryable,
        requires: if !config_present {
            owned("provider_rotation_config")
        } else if write.retryable {
            owned("cooldown_or_provider_recovery")
        } else {
            owned("none")
        },
        next_action: if !config_present {
            owned("configure provider rotation endpoint and credentials before retry")
        } else if write.retryable {
            owned("wait for cooldown or provider recovery before retry")
        } else {
            owned("review provider response before retry")
        },
    };
    let task_status = if success {
        owned("succeeded")
    } else if str_eq(write.phase.as_str(), "blocked") {
        owned("blocked")
    } else {
        owned("failed")
    };
    let task_error_message = if success {
        None
    } else {
        Some(owned(message.as_str()))
    };
    let log_level = if success {
        owned("INFO")
    } else {
        owned("WARN")
    };
    let head = concat3("change proxy IP request ", write.phase.as_str(), "; ");
    let log_message = concat2(head.as_str(), note.as_str());
    let result = DesktopProxyChangeIpResult {
        proxy_id: owned(proxy_id),
        status: owned(write.status.as_str()),
        phase: owned(write.phase.as_str()),
        mode: owned(plan.rotation_mode.as_str()),
        session_key: copy_opt(&plan.session_key),
        requested_provider: copy_opt(&plan.requested_provider),
        requested_region: copy_opt(&plan.requested_region),
        sticky_ttl_seconds: plan.sticky_ttl_seconds,
        note,
        residency_status: owned(plan.residency_status.as_str()),
        rotation_mode: owned(plan.rotation_mode.as_str()),
        rotation_status: owned(plan.rotation_status.as_str()),
        provider_config_status: if config_present {
            owned("configured")
        } else {
            owned("unsupported_provider_config")
        },
        provider_write_status: owned(write.provider_write_status.as_str()),
        rollback,
        cooldown,
        retry,
        tracking_task_id: owned(task_id),
        expires_at: copy_opt(&plan.expires_at),
        updated_at: owned(updated_at),
        message,
    };
    ProxyRotationSettlement { result, task_status, task_error_message, log_level, log_message, committed: success }
}


/// Whether a proxy has seen its provider's current risk snapshot: `aligned`
/// when it saw the current version, `stale` when it saw another or none,
/// `not_applicable` when the provider has no snapshot.
pub open spec fn risk_version_status(current: Option<i64>, seen: Option<i64>) -> Seq<char> {
    match (current, seen) {
        (Some(c), Some(s)) => if c == s {
            "aligned"@
        } else {
            "stale"@
        },
        (Some(_), None) => "stale"@,
        _ => "not_applicable"@,
    }
}

/// The risk version status of a proxy: `has_provider` tells whether the proxy
/// names a provider, `current` is that provider's snapshot version and
/// `seen` the version the proxy last saw. A proxy without a provider is
/// `not_applicable`.
pub fn provider_risk_version_status(has_provider: bool, current: Option<i64>, seen: Option<i64>) -> (s: &'static str)
    ensures
        s@ == if has_provider {
            risk_version_status(current, seen)
        } else {
            "not_applicable"@
        },
{
    if !has_provider {
        return "not_applicable";
    }
    match (current, seen) {
        (Some(c), Some(v)) => if c == v {
            "aligned"
        } else {
            "stale"
        },
        (Some(_), None) => "stale",
        _ => "not_applicable",
    }
}

/// The binding of a proxy that its usage summary reads: the live one that was
/// used last, else one without expiry, else an expired one.
#[derive(Debug, Clone)]
pub struct ProxyLatestBinding {
    pub session_key: Option<String>,
    pub requested_region: Option<String>,
    pub requested_provider: Option<String>,
    pub expires_at: Option<String>,
}

/// How a proxy is used: the counts and last use of its bindings as given, the
/// latest binding's session, requested region and provider and expiry, the
/// residency and rotation mode they give with the proxy's own status,
/// provider and region at `now_ts`, and the seconds the session has left.
pub fn proxy_usage_summary(
    linked_profile_count: i64,
    active_session_count: i64,
    last_used_at: Option<String>,
    latest: Option<ProxyLatestBinding>,
    proxy_status: &str,
    proxy_provider: Option<&str>,
    proxy_region: Option<&str>,
    now_ts: i64,
) -> (u: DesktopProxyUsageSummary)
    requires
        ttl_fits(
            match latest {
                Some(b) => opt_view(b.expires_at),
                None => None,
            },
            now_ts,
        ),
    ensures
        ({
            let (session_key, region, provider, expires_at) = match latest {
                Some(b) => (opt_view(b.session_key), opt_view(b.requested_region), opt_view(b.requested_provider), opt_view(b.expires_at)),
                None => (None, None, None, None),
            };
            let residency = residency_status(
                session_key,
                expires_at,
                Some(proxy_status@),
                provider,
                opt_str_view(proxy_provider),
                region,
                opt_str_view(proxy_region),
                now_ts,
            );
            &&& u.linked_profile_count == linked_profile_count
            &&& u.active_session_count == active_session_count
            &&& opt_view(u.last_used_at) == opt_view(last_used_at)
            &&& opt_view(u.session_key) == session_key
            &&& opt_view(u.requested_region) == region
            &&& opt_view(u.requested_provider) == provider
            &&& opt_view(u.residency_status) == Some(residency)
            &&& opt_view(u.rotation_mode) == Some(rotation_mode(None, session_key, residency, provider, region))
            &&& u.sticky_ttl_seconds == match sticky_ttl(expires_at, now_ts) {
                Some(t) => Some(t as i64),
                None => None::<i64>,
            }
            &&& opt_view(u.expires_at) == expires_at
        }),
{
    let (session_key, requested_region, requested_provider, expires_at) = match latest {
        Some(b) => (b.session_key, b.requested_region, b.requested_provider, b.expires_at),
        None => (None, None, None, None),
    };
    let residency = build_proxy_residency_status(
        as_opt_str(&session_key),
        as_opt_str(&expires_at),
        Some(proxy_status),
        as_opt_str(&requested_provider),
        proxy_provider,
        as_opt_str(&requested_region),
        proxy_region,
        now_ts,
    );
    let mode = build_proxy_rotation_mode(
        None,
        as_opt_str(&session_key),
        residency.as_str(),
        as_opt_str(&requested_provider),
        as_opt_str(&requested_region),
    );
    let ttl = sticky_ttl_seconds_from_expires_at(as_opt_str(&expires_at), now_ts);
    DesktopProxyUsageSummary {
        linked_profile_count,
        active_session_count,
        last_used_at,
        session_key,
        requested_region,
        requested_provider,
        residency_status: Some(residency),
        rotation_mode: Some(mode),
        sticky_ttl_seconds: ttl,
        expires_at,
    }
}

/// Whether `f` holds what the JSON text `t` gives under each rotation key of
/// the object at `prefix` (the root for the empty prefix).
pub open spec fn rotation_fields_at(f: ProviderRotationConfigFields, t: Seq<char>, prefix: Seq<char>) -> bool {
    &&& opt_view(f.endpoint) == json_text_str_at(t, prefix + "/endpoint"@)
    &&& opt_view(f.rotation_endpoint) == json_text_str_at(t, prefix + "/rotationEndpoint"@)
    &&& opt_view(f.rotation_endpoint_snake) == json_text_str_at(t, prefix + "/rotation_endpoint"@)
    &&& opt_view(f.method) == json_text_str_at(t, prefix + "/method"@)
    &&& opt_view(f.token_env) == json_text_str_at(t, prefix + "/tokenEnv"@)
    &&& opt_view(f.token_env_snake) == json_text_str_at(t, prefix + "/token_env"@)
    &&& opt_view(f.auth_token_env) == json_text_str_at(t, prefix + "/authTokenEnv"@)
    &&& opt_view(f.auth_token_env_snake) == json_text_str_at(t, prefix + "/auth_token_env"@)
    &&& f.cooldown_seconds == json_text_i64_at(t, prefix + "/cooldownSeconds"@)
    &&& f.cooldown_seconds_snake == json_text_i64_at(t, prefix + "/cooldown_seconds"@)
}

fn rotation_fields_in(text: &str, prefix: &str) -> (f: ProviderRotationConfigFields)
    ensures
        rotation_fields_at(f, text@, prefix@),
{
    let p_endpoint = concat2(prefix, "/endpoint");
    let p_rotation_endpoint = concat2(prefix, "/rotationEndpoint");
    let p_rotation_endpoint_snake = concat2(prefix, "/rotation_endpoint");
    let p_method = concat2(prefix, "/method");
    let p_token_env = concat2(prefix, "/tokenEnv");
    let p_token_env_snake = concat2(prefix, "/token_env");
    let p_auth_token_env = concat2(prefix, "/authTokenEnv");
    let p_auth_token_env_snake = concat2(prefix, "/auth_token_env");
    let p_cooldown_seconds = concat2(prefix, "/cooldownSeconds");
    let p_cooldown_seconds_snake = concat2(prefix, "/cooldown_seconds");
    ProviderRotationConfigFields {
        endpoint: json_str_at(text, p_endpoint.as_str()),
        rotation_endpoint: json_str_at(text, p_rotation_endpoint.as_str()),
        rotation_endpoint_snake: json_str_at(text, p_rotation_endpoint_snake.as_str()),
        method: json_str_at(text, p_method.as_str()),
        token_env: json_str_at(text, p_token_env.as_str()),
        token_env_snake: json_str_at(text, p_token_env_snake.as_str()),
        auth_token_env: json_str_at(text, p_auth_token_env.as_str()),
        auth_token_env_snake: json_str_at(text, p_auth_token_env_snake.as_str()),
        cooldown_seconds: json_i64_at(text, p_cooldown_seconds.as_str()),
        cooldown_seconds_snake: json_i64_at(text, p_cooldown_seconds_snake.as_str()),
    }
}

/// Whether `s` holds what a harvest source's configuration text `t` gives:
/// the rotation fields of its `providerRotation` and `provider_rotation`
/// values where it has them, and of its root.
pub open spec fn rotation_source_of(s: ProviderRotationConfigSource, t: Seq<char>) -> bool {
    &&& match s.provider_rotation {
        Some(f) => json_text_has(t, "/providerRotation"@) && rotation_fields_at(f, t, "/providerRotation"@),
        None => !json_text_has(t, "/providerRotation"@),
    }
    &&& match s.provider_rotation_snake {
        Some(f) => json_text_has(t, "/provider_rotation"@) && rotation_fields_at(f, t, "/provider_rotation"@),
        None => !json_text_has(t, "/provider_rotation"@),
    }
    &&& rotation_fields_at(s.root, t, Seq::empty())
}

/// The rotation settings of a harvest source's configuration text: `None`
/// where the text is not JSON.
pub fn parse_rotation_config_source(text: &str) -> (s: Option<ProviderRotationConfigSource>)
    ensures
        match s {
            Some(src) => json_text_shape(text@) is Some && rotation_source_of(src, text@),
            None => json_text_shape(text@) is None,
        },
{
    if parse_json_shape(text).is_none() {
        return None;
    }
    let provider_rotation = if json_has_at(text, "/providerRotation") {
        Some(rotation_fields_in(text, "/providerRotation"))
    } else {
        None
    };
    let provider_rotation_snake = if json_has_at(text, "/provider_rotation") {
        Some(rotation_fields_in(text, "/provider_rotation"))
    } else {
        None
    };
    let root = rotation_fields_in(text, "");
    proof {
        reveal_strlit("");
        assert(""@ =~= Seq::<char>::empty());
    }
    Some(ProviderRotationConfigSource { provider_rotation, provider_rotation_snake, root })
}

/// The rotation endpoint a harvest source's configuration text gives: `None`
/// without text, for text that is not JSON, or where the configuration names
/// no endpoint; else the configuration [`provider_rotation_config_from_source`]
/// makes of the parsed settings.
pub fn parse_proxy_rotation_provider_config(raw_config: Option<&str>) -> (c: Option<ProxyRotationProviderConfig>)
    ensures
        match raw_config {
            None => c is None,
            Some(text) => match c {
                Some(cfg) => exists|src: ProviderRotationConfigSource|
                    rotation_source_of(src, text@) && json_text_shape(text@) is Some
                        && config_from_fields(rotation_fields(src), cfg),
                None => json_text_shape(text@) is None || forall|src: ProviderRotationConfigSource|
                    rotation_source_of(src, text@) ==> first_text3(
                        opt_view(rotation_fields(src).endpoint),
                        opt_view(rotation_fields(src).rotation_endpoint),
                        opt_view(rotation_fields(src).rotation_endpoint_snake),
                    ) is None,
            },
        },
{
    let text = match raw_config {
        Some(t) => t,
        None => return None,
    };
    match parse_rotation_config_source(text) {
        Some(src) => {
            let c = provider_rotation_config_from_source(&src);
            proof {
                if c is None {
                    assert forall|other: ProviderRotationConfigSource| rotation_source_of(other, text@) implies first_text3(
                        opt_view(rotation_fields(other).endpoint),
                        opt_view(rotation_fields(other).rotation_endpoint),
                        opt_view(rotation_fields(other).rotation_endpoint_snake),
                    ) is None by {
                        lemma_rotation_source_unique(src, other, text@);
                    }
                }
            }
            c
        },
        None => None,
    }
}

proof fn lemma_rotation_source_unique(a: ProviderRotationConfigSource, b: ProviderRotationConfigSource, t: Seq<char>)
    requires
        rotation_source_of(a, t),
        rotation_source_of(b, t),
    ensures
        opt_view(rotation_fields(a).endpoint) == opt_view(rotation_fields(b).endpoint),
        opt_view(rotation_fields(a).rotation_endpoint) == opt_view(rotation_fields(b).rotation_endpoint),
        opt_view(rotation_fields(a).rotation_endpoint_snake) == opt_view(rotation_fields(b).rotation_endpoint_snake),
{
}

/// Whether `b` holds what a provider's answer text `t` gives under each key
/// the classification reads.
pub open spec fn response_body_of(b: ProviderResponseBody, t: Seq<char>) -> bool {
    &&& opt_view(b.message) == json_text_str_at(t, "/message"@)
    &&& opt_view(b.detail) == json_text_str_at(t, "/detail"@)
    &&& opt_view(b.rollback_proxy_id) == json_text_str_at(t, "/rollbackProxyId"@)
    &&& opt_view(b.rollback_proxy_id_snake) == json_text_str_at(t, "/rollback_proxy_id"@)
    &&& b.cooldown_seconds == json_text_i64_at(t, "/cooldownSeconds"@)
    &&& b.cooldown_seconds_snake == json_text_i64_at(t, "/cooldown_seconds"@)
}

/// The fields of a provider's answer text (all `None` for text that is not
/// JSON).
pub fn parse_provider_response_body(text: &str) -> (b: ProviderResponseBody)
    ensures
        response_body_of(b, text@),
{
    ProviderResponseBody {
        message: json_str_at(text, "/message"),
        detail: json_str_at(text, "/detail"),
        rollback_proxy_id: json_str_at(text, "/rollbackProxyId"),
        rollback_proxy_id_snake: json_str_at(text, "/rollback_proxy_id"),
        cooldown_seconds: json_i64_at(text, "/cooldownSeconds"),
        cooldown_seconds_snake: json_i64_at(text, "/cooldown_seconds"),
    }
}

/// How a provider's status code decides a rotation write: a 2xx commits it;
/// a server error (5xx), a request timeout (408) or a rate limit (429) holds
/// it for a retry; every other status rejects it for good.
pub proof fn lemma_provider_status_classes(
    config: ProxyRotationProviderConfig,
    code: u16,
    retry_after: Option<Seq<char>>,
    body: ProviderResponseBody,
    w: ProxyRotationProviderWrite,
)
    requires
        provider_answer(config, code, retry_after, body, w),
    ensures
        200 <= code < 300 ==> w.phase@ == "success"@ && w.status@ == "committed"@ && !w.retryable,
        (500 <= code < 600 || code == 408 || code == 429) ==> {
            &&& w.phase@ == "blocked"@
            &&& w.status@ == "provider_retry_required"@
            &&& w.provider_write_status@ == "retryable_provider_error"@
            &&& w.retryable
        },
        !(200 <= code < 300) && !(500 <= code < 600) && code != 408 && code != 429 ==> {
            &&& w.phase@ == "error"@
            &&& w.status@ == "provider_write_rejected"@
            &&& w.provider_write_status@ == "provider_rejected"@
            &&& !w.retryable
        },
{
}

} // verus!
