//! Secret aliases of an identity profile: how an alias's configuration names
//! the environment variable that holds the secret.
use vstd::prelude::*;

use super::form::{resolve_secret_alias, secret_alias, RunnerFormFieldPlan};
use crate::bindings::{
    json_canonical_text, json_has_at, json_shape_at, json_str_at, json_string_literal, json_text_canonical,
    json_text_has, json_text_of_string, json_text_shape, json_text_shape_at, json_text_str_at,
    json_text_value_text_at, json_value_text_at, parse_json_shape,
};
use crate::desktop::session_bundle::JsonShape;
use crate::text::{chars_of, concat2, concat3, copy_opt, opt_view, opt_str_view, owned, push_char, str_eq};

verus! {

/// An alias's configuration as stored in `secret_aliases_json`.
#[derive(Debug, Clone)]
pub enum SecretAliasConfig {
    /// A JSON string: the name of the environment variable.
    EnvName(String),
    /// A JSON object. For each of `resolver`, `kind`, `source` and `env`: `None`
    /// where the object lacks the key, `Some(None)` where it holds something
    /// other than a string, `Some(Some(text))` where it holds a string.
    Object {
        resolver: Option<Option<String>>,
        kind: Option<Option<String>>,
        source: Option<Option<String>>,
        env: Option<Option<String>>,
    },
    /// Any other JSON value.
    Other,
}

/// Where a secret is read from: an environment variable, taken as it is or
/// parsed as JSON.
#[derive(Debug, Clone)]
pub struct SecretEnvSource {
    pub env_name: String,
    pub parse_json: bool,
}

/// Why an alias's configuration names no secret.
#[derive(Debug, Clone, PartialEq, Eq)]
pub enum SecretAliasError {
    /// An object configuration without a string under `env`.
    MissingEnv,
    /// An object configuration whose resolver is neither `env` nor `env_json`.
    UnsupportedResolver { given: String },
    /// A configuration that is neither a string nor an object.
    InvalidConfig,
}

/// A refusal as a value of the specification.
pub enum SecretAliasFault {
    MissingEnv,
    UnsupportedResolver(Seq<char>),
    InvalidConfig,
}

pub open spec fn secret_fault_of(e: SecretAliasError) -> SecretAliasFault {
    match e {
        SecretAliasError::MissingEnv => SecretAliasFault::MissingEnv,
        SecretAliasError::UnsupportedResolver { given } => SecretAliasFault::UnsupportedResolver(given@),
        SecretAliasError::InvalidConfig => SecretAliasFault::InvalidConfig,
    }
}

/// The message an alias configuration's refusal is reported with.
pub open spec fn secret_alias_message(e: SecretAliasError) -> Seq<char> {
    match e {
        SecretAliasError::MissingEnv => "secret alias config is missing env"@,
        SecretAliasError::UnsupportedResolver { given } => "unsupported secret alias resolver '"@ + given@ + "'"@,
        SecretAliasError::InvalidConfig => "invalid secret alias config"@,
    }
}

impl SecretAliasError {
    /// The message the error is reported with.
    pub fn message(&self) -> (m: String)
        ensures
            m@ == secret_alias_message(*self),
    {
        match self {
            SecretAliasError::MissingEnv => owned("secret alias config is missing env"),
            SecretAliasError::UnsupportedResolver { given } => concat3(
                "unsupported secret alias resolver '",
                given.as_str(),
                "'",
            ),
            SecretAliasError::InvalidConfig => owned("invalid secret alias config"),
        }
    }
}

pub open spec fn opt_opt_view(v: Option<Option<String>>) -> Option<Option<Seq<char>>> {
    match v {
        Some(Some(s)) => Some(Some(s@)),
        Some(None) => Some(None),
        None => None,
    }
}

/// The resolver of an object configuration: the text under the first of
/// `resolver`, `kind`, `source` that the object has, `env` where that value is
/// not a string or none of the keys is there.
pub open spec fn resolver_name(
    resolver: Option<Option<Seq<char>>>,
    kind: Option<Option<Seq<char>>>,
    source: Option<Option<Seq<char>>>,
) -> Seq<char> {
    let first = match resolver {
        Some(v) => Some(v),
        None => match kind {
            Some(v) => Some(v),
            None => source,
        },
    };
    match first {
        Some(Some(name)) => name,
        _ => "env"@,
    }
}

/// What an alias's configuration resolves to: a string names a plain
/// environment variable; an object needs a string `env` (checked first) and a
/// resolver `env` (plain) or `env_json` (parsed as JSON); anything else is
/// refused.
pub open spec fn secret_env_source_spec(config: SecretAliasConfig) -> Result<(Seq<char>, bool), SecretAliasFault> {
    match config {
        SecretAliasConfig::EnvName(name) => Ok((name@, false)),
        SecretAliasConfig::Object { resolver, kind, source, env } => {
            let r = resolver_name(opt_opt_view(resolver), opt_opt_view(kind), opt_opt_view(source));
            match env {
                Some(Some(name)) => if r == "env"@ {
                    Ok((name@, false))
                } else if r == "env_json"@ {
                    Ok((name@, true))
                } else {
                    Err(SecretAliasFault::UnsupportedResolver(r))
                },
                _ => Err(SecretAliasFault::MissingEnv),
            }
        },
        SecretAliasConfig::Other => Err(SecretAliasFault::InvalidConfig),
    }
}

fn first_present_key(
    resolver: &Option<Option<String>>,
    kind: &Option<Option<String>>,
    source: &Option<Option<String>>,
) -> (r: String)
    ensures
        r@ == resolver_name(opt_opt_view(*resolver), opt_opt_view(*kind), opt_opt_view(*source)),
{
    let first = if resolver.is_some() {
        resolver
    } else if kind.is_some() {
        kind
    } else {
        source
    };
    match first {
        Some(Some(name)) => owned(name.as_str()),
        _ => owned("env"),
    }
}

/// The environment variable an alias's configuration names, and whether its
/// value is JSON.
pub fn secret_env_source(config: &SecretAliasConfig) -> (r: Result<SecretEnvSource, SecretAliasError>)
    ensures
        match r {
            Ok(s) => secret_env_source_spec(*config) == Ok::<(Seq<char>, bool), SecretAliasFault>((s.env_name@, s.parse_json)),
            Err(e) => secret_env_source_spec(*config) == Err::<(Seq<char>, bool), SecretAliasFault>(secret_fault_of(e)),
        },
{
    match config {
        SecretAliasConfig::EnvName(name) => Ok(SecretEnvSource { env_name: owned(name.as_str()), parse_json: false }),
        SecretAliasConfig::Object { resolver, kind, source, env } => {
            let r = first_present_key(resolver, kind, source);
            match env {
                Some(Some(name)) => {
                    if str_eq(r.as_str(), "env") {
                        Ok(SecretEnvSource { env_name: owned(name.as_str()), parse_json: false })
                    } else if str_eq(r.as_str(), "env_json") {
                        Ok(SecretEnvSource { env_name: owned(name.as_str()), parse_json: true })
                    } else {
                        Err(SecretAliasError::UnsupportedResolver { given: r })
                    }
                },
                _ => Err(SecretAliasError::MissingEnv),
            }
        },
        SecretAliasConfig::Other => Err(SecretAliasError::InvalidConfig),
    }
}

/// Where the value of one field of a form plan is fetched from before the
/// runner gets the plan.
#[derive(Debug, Clone)]
pub enum FieldSecretSource {
    /// The task's inline values, under the field's key.
    Inline { key: String },
    /// The secret a `identity://` reference names.
    SecretRef { secret_ref: String },
    /// One entry, under `bundle_key`, of the bundle the plan's bundle
    /// reference names.
    BundleKey { bundle_ref: String, bundle_key: Option<String> },
}

/// Why the value of a form field could not be fetched.
#[derive(Debug, Clone, PartialEq, Eq)]
pub enum SecretResolveError {
    /// A `secret_ref` field without its reference.
    SecretRefMissing { field: String },
    /// A `bundle_key` field in a plan without bundle reference.
    BundleRefMissing,
    /// A field whose value source is none of `inline`, `secret_ref`, `bundle_key`.
    UnsupportedValueSource { given: String },
    /// An inline field whose value the task did not leave.
    InlineUnavailable { field: String },
    /// A bundle field whose key the bundle lacks.
    BundleValueMissing { field: String, key: String },
    /// A secret reference resolved for a task without identity profile.
    IdentityProfileRequired,
    /// A secret reference not of the form `identity://<alias>`.
    InvalidSecretRef,
    /// An identity profile that keeps no alias object.
    NoSecretAliases,
    /// An alias the identity profile does not keep.
    AliasNotFound { alias: String },
    /// An alias whose configuration names no secret.
    AliasConfig { reason: SecretAliasError },
    /// An environment variable that holds no secret.
    EnvNotFound { env_name: String },
    /// An `env_json` secret that is not JSON, with the parser's message.
    EnvJsonInvalid { env_name: String, detail: String },
}

impl SecretResolveError {
    /// The message the error is reported with.
    pub fn message(&self) -> (m: String)
        ensures
            m@ == match self {
                SecretResolveError::SecretRefMissing { field } => "secret_ref missing for field '"@ + field@ + "'"@,
                SecretResolveError::BundleRefMissing => "secret_bundle_ref missing for bundle field"@,
                SecretResolveError::UnsupportedValueSource { given } =>
                    "unsupported form field value source '"@ + given@ + "'"@,
                SecretResolveError::InlineUnavailable { field } => "inline_secret_unavailable for field '"@ + field@ + "'"@,
                SecretResolveError::BundleValueMissing { field, key } =>
                    "bundle value not found for field '"@ + field@ + "' key '"@ + key@ + "'"@,
                SecretResolveError::IdentityProfileRequired => "identity_profile_id is required to resolve secret refs"@,
                SecretResolveError::InvalidSecretRef => "secret ref must use identity://<alias> syntax"@,
                SecretResolveError::NoSecretAliases => "identity profile has no secret_aliases_json"@,
                SecretResolveError::AliasNotFound { alias } => "secret alias not found: "@ + alias@,
                SecretResolveError::AliasConfig { reason } => secret_alias_message(*reason),
                SecretResolveError::EnvNotFound { env_name } => "secret env not found: "@ + env_name@,
                SecretResolveError::EnvJsonInvalid { env_name, detail } =>
                    "failed to parse env_json secret '"@ + env_name@ + "': "@ + detail@,
            },
    {
        match self {
            SecretResolveError::SecretRefMissing { field } => concat3("secret_ref missing for field '", field.as_str(), "'"),
            SecretResolveError::BundleRefMissing => owned("secret_bundle_ref missing for bundle field"),
            SecretResolveError::UnsupportedValueSource { given } => concat3(
                "unsupported form field value source '",
                given.as_str(),
                "'",
            ),
            SecretResolveError::InlineUnavailable { field } => concat3(
                "inline_secret_unavailable for field '",
                field.as_str(),
                "'",
            ),
            SecretResolveError::BundleValueMissing { field, key } => {
                let mut m = concat3("bundle value not found for field '", field.as_str(), "' key '");
                m.append(key.as_str());
                m.append("'");
                m
            },
            SecretResolveError::IdentityProfileRequired => owned("identity_profile_id is required to resolve secret refs"),
            SecretResolveError::InvalidSecretRef => owned("secret ref must use identity://<alias> syntax"),
            SecretResolveError::NoSecretAliases => owned("identity profile has no secret_aliases_json"),
            SecretResolveError::AliasNotFound { alias } => concat2("secret alias not found: ", alias.as_str()),
            SecretResolveError::AliasConfig { reason } => reason.message(),
            SecretResolveError::EnvNotFound { env_name } => concat2("secret env not found: ", env_name.as_str()),
            SecretResolveError::EnvJsonInvalid { env_name, detail } => {
                let mut m = concat3("failed to parse env_json secret '", env_name.as_str(), "': ");
                m.append(detail.as_str());
                m
            },
        }
    }
}

/// Where a field's value comes from, by its value source: the inline values
/// under its key, its secret reference (which it must have), or its bundle key
/// in the plan's bundle (which the plan must name); any other source is
/// refused.
pub open spec fn field_secret_source_spec(
    value_source: Seq<char>,
    key: Seq<char>,
    secret_ref: Option<Seq<char>>,
    bundle_key: Option<Seq<char>>,
    bundle_ref: Option<Seq<char>>,
) -> Result<FieldSecretSourceView, SecretResolveFault> {
    if value_source == "inline"@ {
        Ok(FieldSecretSourceView::Inline(key))
    } else if value_source == "secret_ref"@ {
        match secret_ref {
            Some(r) => Ok(FieldSecretSourceView::SecretRef(r)),
            None => Err(SecretResolveFault::SecretRefMissing(key)),
        }
    } else if value_source == "bundle_key"@ {
        match bundle_ref {
            Some(b) => Ok(FieldSecretSourceView::BundleKey(b, bundle_key)),
            None => Err(SecretResolveFault::BundleRefMissing),
        }
    } else {
        Err(SecretResolveFault::UnsupportedValueSource(value_source))
    }
}

/// A field's value source as a value of the specification.
pub enum FieldSecretSourceView {
    Inline(Seq<char>),
    SecretRef(Seq<char>),
    BundleKey(Seq<char>, Option<Seq<char>>),
}

/// A refusal as a value of the specification.
pub enum SecretResolveFault {
    SecretRefMissing(Seq<char>),
    BundleRefMissing,
    UnsupportedValueSource(Seq<char>),
    InlineUnavailable(Seq<char>),
    BundleValueMissing(Seq<char>, Seq<char>),
    IdentityProfileRequired,
    InvalidSecretRef,
    NoSecretAliases,
    AliasNotFound(Seq<char>),
    AliasConfig(SecretAliasFault),
    EnvNotFound(Seq<char>),
    EnvJsonInvalid(Seq<char>, Seq<char>),
}

pub open spec fn source_view(s: FieldSecretSource) -> FieldSecretSourceView {
    match s {
        FieldSecretSource::Inline { key } => FieldSecretSourceView::Inline(key@),
        FieldSecretSource::SecretRef { secret_ref } => FieldSecretSourceView::SecretRef(secret_ref@),
        FieldSecretSource::BundleKey { bundle_ref, bundle_key } => FieldSecretSourceView::BundleKey(bundle_ref@, opt_view(bundle_key)),
    }
}

pub open spec fn resolve_fault_of(e: SecretResolveError) -> SecretResolveFault {
    match e {
        SecretResolveError::SecretRefMissing { field } => SecretResolveFault::SecretRefMissing(field@),
        SecretResolveError::BundleRefMissing => SecretResolveFault::BundleRefMissing,
        SecretResolveError::UnsupportedValueSource { given } => SecretResolveFault::UnsupportedValueSource(given@),
        SecretResolveError::InlineUnavailable { field } => SecretResolveFault::InlineUnavailable(field@),
        SecretResolveError::BundleValueMissing { field, key } => SecretResolveFault::BundleValueMissing(field@, key@),
        SecretResolveError::IdentityProfileRequired => SecretResolveFault::IdentityProfileRequired,
        SecretResolveError::InvalidSecretRef => SecretResolveFault::InvalidSecretRef,
        SecretResolveError::NoSecretAliases => SecretResolveFault::NoSecretAliases,
        SecretResolveError::AliasNotFound { alias } => SecretResolveFault::AliasNotFound(alias@),
        SecretResolveError::AliasConfig { reason } => SecretResolveFault::AliasConfig(secret_fault_of(reason)),
        SecretResolveError::EnvNotFound { env_name } => SecretResolveFault::EnvNotFound(env_name@),
        SecretResolveError::EnvJsonInvalid { env_name, detail } => SecretResolveFault::EnvJsonInvalid(env_name@, detail@),
    }
}

/// Where the value of one field of a form plan is fetched from, given the
/// plan's bundle reference.
pub fn field_secret_source(field: &RunnerFormFieldPlan, secret_bundle_ref: &Option<String>) -> (r: Result<FieldSecretSource, SecretResolveError>)
    ensures
        match r {
            Ok(s) => field_secret_source_spec(
                field.value_source@,
                field.key@,
                opt_view(field.secret_ref),
                opt_view(field.bundle_key),
                opt_view(*secret_bundle_ref),
            ) == Ok::<FieldSecretSourceView, SecretResolveFault>(source_view(s)),
            Err(e) => field_secret_source_spec(
                field.value_source@,
                field.key@,
                opt_view(field.secret_ref),
                opt_view(field.bundle_key),
                opt_view(*secret_bundle_ref),
            ) == Err::<FieldSecretSourceView, SecretResolveFault>(resolve_fault_of(e)),
        },
{
    if str_eq(field.value_source.as_str(), "inline") {
        Ok(FieldSecretSource::Inline { key: owned(field.key.as_str()) })
    } else if str_eq(field.value_source.as_str(), "secret_ref") {
        match &field.secret_ref {
            Some(r) => Ok(FieldSecretSource::SecretRef { secret_ref: owned(r.as_str()) }),
            None => Err(SecretResolveError::SecretRefMissing { field: owned(field.key.as_str()) }),
        }
    } else if str_eq(field.value_source.as_str(), "bundle_key") {
        match secret_bundle_ref {
            Some(b) => Ok(FieldSecretSource::BundleKey { bundle_ref: owned(b.as_str()), bundle_key: copy_opt(&field.bundle_key) }),
            None => Err(SecretResolveError::BundleRefMissing),
        }
    } else {
        Err(SecretResolveError::UnsupportedValueSource { given: owned(field.value_source.as_str()) })
    }
}

/// Whether any field of a plan takes its value from the task's inline values.
pub fn plan_needs_inline_values(fields: &Vec<RunnerFormFieldPlan>) -> (r: bool)
    ensures
        r == exists|i: int| 0 <= i < fields@.len() && #[trigger] fields@[i].value_source@ == "inline"@,
{
    let mut i: usize = 0;
    while i < fields.len()
        invariant
            i <= fields@.len(),
            forall|k: int| 0 <= k < i ==> #[trigger] fields@[k].value_source@ != "inline"@,
        decreases fields@.len() - i,
    {
        if str_eq(fields[i].value_source.as_str(), "inline") {
            return true;
        }
        i = i + 1;
    }
    false
}

/// The identity profile and alias a secret reference is read through: the
/// task must name an identity profile, and the reference must have the form
/// `identity://<alias>`, checked in that order.
pub fn secret_ref_lookup(identity_profile_id: Option<&str>, secret_ref: &str) -> (r: Result<(String, String), SecretResolveError>)
    ensures
        match r {
            Ok((identity, alias)) => opt_str_view(identity_profile_id) == Some(identity@)
                && secret_alias(secret_ref@) == Some(alias@),
            Err(e) => if identity_profile_id is None {
                e == SecretResolveError::IdentityProfileRequired
            } else {
                secret_alias(secret_ref@) is None && e == SecretResolveError::InvalidSecretRef
            },
        },
{
    let identity = match identity_profile_id {
        Some(id) => owned(id),
        None => return Err(SecretResolveError::IdentityProfileRequired),
    };
    match resolve_secret_alias(secret_ref) {
        Ok(alias) => Ok((identity, alias)),
        Err(_) => Err(SecretResolveError::InvalidSecretRef),
    }
}

/// A key written as one reference token of a JSON pointer: `~` as `~0` and
/// `/` as `~1`, every other character as it is.
pub open spec fn pointer_token(k: Seq<char>) -> Seq<char>
    decreases k.len(),
{
    if k.len() == 0 {
        seq![]
    } else {
        let rest = pointer_token(k.drop_last());
        let c = k.last();
        if c == '~' {
            rest + seq!['~', '0']
        } else if c == '/' {
            rest + seq!['~', '1']
        } else {
            rest.push(c)
        }
    }
}

/// The pointer of the member `k` of a JSON object.
pub open spec fn member_pointer(k: Seq<char>) -> Seq<char> {
    seq!['/'] + pointer_token(k)
}

/// The pointer of the member `k` of a JSON object: `/` and the key as a token.
pub fn member_pointer_of(k: &str) -> (r: String)
    ensures
        r@ == member_pointer(k@),
{
    let cs = chars_of(k);
    let mut r = String::new();
    push_char(&mut r, '/');
    let mut i: usize = 0;
    proof {
        assert(cs@.subrange(0, 0) =~= Seq::<char>::empty());
        assert(r@ =~= seq!['/'] + pointer_token(seq![]));
    }
    while i < cs.len()
        invariant
            i <= cs@.len(),
            cs@ == k@,
            r@ == seq!['/'] + pointer_token(cs@.subrange(0, i as int)),
        decreases cs@.len() - i,
    {
        let c = cs[i];
        let ghost before = r@;
        proof {
            let sub = cs@.subrange(0, i as int + 1);
            assert(sub.drop_last() =~= cs@.subrange(0, i as int));
            assert(sub.last() == c);
        }
        if c == '~' {
            push_char(&mut r, '~');
            push_char(&mut r, '0');
            assert(r@ =~= before + seq!['~', '0']);
        } else if c == '/' {
            push_char(&mut r, '~');
            push_char(&mut r, '1');
            assert(r@ =~= before + seq!['~', '1']);
        } else {
            push_char(&mut r, c);
        }
        i = i + 1;
    }
    assert(cs@.subrange(0, cs@.len() as int) =~= cs@);
    r
}

/// What a member of an alias configuration object holds: `None` where the
/// object lacks it, `Some(None)` where it is no string, else its text.
pub open spec fn config_member(t: Seq<char>, p: Seq<char>, k: Seq<char>) -> Option<Option<Seq<char>>> {
    if json_text_has(t, p + "/"@ + k) {
        Some(json_text_str_at(t, p + "/"@ + k))
    } else {
        None
    }
}

/// `c` is how the value at pointer `p` of the aliases text `t` reads as an
/// alias configuration: a string names an environment variable, an object
/// gives its `resolver`, `kind`, `source` and `env` members, anything else
/// is another value.
pub open spec fn alias_config_read(t: Seq<char>, p: Seq<char>, c: SecretAliasConfig) -> bool {
    match json_text_str_at(t, p) {
        Some(name) => c matches SecretAliasConfig::EnvName(n) && n@ == name,
        None => if json_text_shape_at(t, p) matches Some(JsonShape::Object { .. }) {
            &&& c matches SecretAliasConfig::Object { resolver, kind, source, env }
            &&& opt_opt_view(resolver) == config_member(t, p, "resolver"@)
            &&& opt_opt_view(kind) == config_member(t, p, "kind"@)
            &&& opt_opt_view(source) == config_member(t, p, "source"@)
            &&& opt_opt_view(env) == config_member(t, p, "env"@)
        } else {
            c is Other
        },
    }
}

fn read_config_member(t: &str, p: &str, k: &str) -> (r: Option<Option<String>>)
    ensures
        opt_opt_view(r) == config_member(t@, p@, k@),
{
    let ptr = concat3(p, "/", k);
    if json_has_at(t, ptr.as_str()) {
        Some(json_str_at(t, ptr.as_str()))
    } else {
        None
    }
}

/// Whether an aliases text parses to a JSON object.
pub open spec fn aliases_object(t: Seq<char>) -> bool {
    json_text_shape(t) matches Some(JsonShape::Object { .. })
}

/// The configuration of `alias` in an identity profile's `secret_aliases_json`
/// text: refused as having no aliases where there is no text or it is not a
/// JSON object, and as not found where the object lacks the alias.
pub fn alias_config_in(aliases_json: Option<&str>, alias: &str) -> (r: Result<SecretAliasConfig, SecretResolveError>)
    ensures
        match aliases_json {
            None => r == Err::<SecretAliasConfig, SecretResolveError>(SecretResolveError::NoSecretAliases),
            Some(t) => if !aliases_object(t@) {
                r == Err::<SecretAliasConfig, SecretResolveError>(SecretResolveError::NoSecretAliases)
            } else if !json_text_has(t@, member_pointer(alias@)) {
                r matches Err(SecretResolveError::AliasNotFound { alias: a }) && a@ == alias@
            } else {
                r matches Ok(c) && alias_config_read(t@, member_pointer(alias@), c)
            },
        },
{
    let t = match aliases_json {
        Some(t) => t,
        None => return Err(SecretResolveError::NoSecretAliases),
    };
    match parse_json_shape(t) {
        Some(JsonShape::Object { .. }) => {},
        _ => return Err(SecretResolveError::NoSecretAliases),
    }
    let p = member_pointer_of(alias);
    if !json_has_at(t, p.as_str()) {
        return Err(SecretResolveError::AliasNotFound { alias: owned(alias) });
    }
    if let Some(name) = json_str_at(t, p.as_str()) {
        return Ok(SecretAliasConfig::EnvName(name));
    }
    match json_shape_at(t, p.as_str()) {
        Some(JsonShape::Object { .. }) => Ok(
            SecretAliasConfig::Object {
                resolver: read_config_member(t, p.as_str(), "resolver"),
                kind: read_config_member(t, p.as_str(), "kind"),
                source: read_config_member(t, p.as_str(), "source"),
                env: read_config_member(t, p.as_str(), "env"),
            },
        ),
        _ => Ok(SecretAliasConfig::Other),
    }
}

/// The environment variable that the alias `alias` of an identity profile's
/// `secret_aliases_json` text names, and whether its value is JSON.
pub fn secret_env_for_alias(aliases_json: Option<&str>, alias: &str) -> (r: Result<SecretEnvSource, SecretResolveError>)
    ensures
        match r {
            Ok(s) => exists|c: SecretAliasConfig|
                #![trigger secret_env_source_spec(c)]
                aliases_json matches Some(t) && aliases_object(t@) && json_text_has(t@, member_pointer(alias@))
                    && alias_config_read(t@, member_pointer(alias@), c) && secret_env_source_spec(c)
                    == Ok::<(Seq<char>, bool), SecretAliasFault>((s.env_name@, s.parse_json)),
            Err(SecretResolveError::AliasConfig { reason }) => exists|c: SecretAliasConfig|
                #![trigger secret_env_source_spec(c)]
                aliases_json matches Some(t) && aliases_object(t@) && json_text_has(t@, member_pointer(alias@))
                    && alias_config_read(t@, member_pointer(alias@), c) && secret_env_source_spec(c)
                    == Err::<(Seq<char>, bool), SecretAliasFault>(secret_fault_of(reason)),
            Err(e) => match aliases_json {
                None => e == SecretResolveError::NoSecretAliases,
                Some(t) => if !aliases_object(t@) {
                    e == SecretResolveError::NoSecretAliases
                } else {
                    e matches SecretResolveError::AliasNotFound { alias: a } && a@ == alias@ && !json_text_has(
                        t@,
                        member_pointer(alias@),
                    )
                },
            },
        },
{
    let config = match alias_config_in(aliases_json, alias) {
        Ok(c) => c,
        Err(e) => return Err(e),
    };
    match secret_env_source(&config) {
        Ok(s) => Ok(s),
        Err(reason) => Err(SecretResolveError::AliasConfig { reason }),
    }
}

/// The JSON text of the secret an environment variable holds (`raw`, `None`
/// where the variable is unset): the variable's text as a JSON string, or,
/// for a JSON secret, the text parsed and written back; a JSON secret that
/// does not parse is refused with the parser's message.
pub fn env_secret_text(env_name: &str, raw: Option<String>, parse_json: bool) -> (r: Result<String, SecretResolveError>)
    ensures
        match raw {
            None => r matches Err(SecretResolveError::EnvNotFound { env_name: n }) && n@ == env_name@,
            Some(text) => if !parse_json {
                r matches Ok(v) && v@ == json_text_of_string(text@)
            } else {
                match json_text_canonical(text@) {
                    Ok(v) => r matches Ok(x) && x@ == v,
                    Err(d) => r matches Err(SecretResolveError::EnvJsonInvalid { env_name: n, detail })
                        && n@ == env_name@ && detail@ == d,
                }
            },
        },
{
    let text = match raw {
        Some(t) => t,
        None => return Err(SecretResolveError::EnvNotFound { env_name: owned(env_name) }),
    };
    if !parse_json {
        return Ok(json_string_literal(text.as_str()));
    }
    match json_canonical_text(text.as_str()) {
        Ok(v) => Ok(v),
        Err(detail) => Err(SecretResolveError::EnvJsonInvalid { env_name: owned(env_name), detail }),
    }
}

/// The JSON text under `key` of a bundle secret's JSON text `bundle`, where
/// the bundle is a JSON object holding the key.
pub open spec fn bundle_value_of(bundle: Seq<char>, key: Option<Seq<char>>) -> Option<Seq<char>> {
    match key {
        Some(k) => if json_text_shape(bundle) matches Some(JsonShape::Object { .. }) {
            json_text_value_text_at(bundle, member_pointer(k))
        } else {
            None
        },
        None => None,
    }
}

/// The value of the bundle field `field` under `key` in a bundle secret's
/// JSON text; refused as missing (with an empty key where the field names
/// none) where the bundle is no object or lacks the key.
pub fn bundle_field_value(bundle_json: &str, field: &str, key: Option<&str>) -> (r: Result<String, SecretResolveError>)
    ensures
        match bundle_value_of(bundle_json@, opt_str_view(key)) {
            Some(v) => r matches Ok(x) && x@ == v,
            None => r matches Err(SecretResolveError::BundleValueMissing { field: f, key: k }) && f@ == field@
                && k@ == match key {
                    Some(k) => k@,
                    None => Seq::<char>::empty(),
                },
        },
{
    let missing = SecretResolveError::BundleValueMissing {
        field: owned(field),
        key: match key {
            Some(k) => owned(k),
            None => String::new(),
        },
    };
    let k = match key {
        Some(k) => k,
        None => return Err(missing),
    };
    match parse_json_shape(bundle_json) {
        Some(JsonShape::Object { .. }) => {},
        _ => return Err(missing),
    }
    let p = member_pointer_of(k);
    match json_value_text_at(bundle_json, p.as_str()) {
        Some(v) => Ok(v),
        None => Err(missing),
    }
}

/// The value the inline pairs hold under `k`: that of the last pair with the key.
pub open spec fn pair_value(ps: Seq<(Seq<char>, Seq<char>)>, k: Seq<char>) -> Option<Seq<char>>
    decreases ps.len(),
{
    if ps.len() == 0 {
        None
    } else if ps.last().0 == k {
        Some(ps.last().1)
    } else {
        pair_value(ps.drop_last(), k)
    }
}

pub open spec fn inline_pairs_view(v: Option<Vec<(String, String)>>) -> Seq<(Seq<char>, Seq<char>)> {
    match v {
        Some(p) => Seq::new(p@.len(), |i: int| (p@[i].0@, p@[i].1@)),
        None => seq![],
    }
}

/// The inline value the task left for the field `key`; refused as
/// unavailable where the task left none.
pub fn inline_field_value(inline: &Option<Vec<(String, String)>>, key: &str) -> (r: Result<String, SecretResolveError>)
    ensures
        match pair_value(inline_pairs_view(*inline), key@) {
            Some(v) => r matches Ok(x) && x@ == v,
            None => r matches Err(SecretResolveError::InlineUnavailable { field: f }) && f@ == key@,
        },
{
    let pairs = match inline {
        Some(p) => p,
        None => return Err(SecretResolveError::InlineUnavailable { field: owned(key) }),
    };
    let ghost ps = inline_pairs_view(*inline);
    let mut found: Option<String> = None;
    let mut i: usize = 0;
    while i < pairs.len()
        invariant
            i <= pairs@.len(),
            ps == Seq::new(pairs@.len(), |j: int| (pairs@[j].0@, pairs@[j].1@)),
            opt_view(found) == pair_value(ps.subrange(0, i as int), key@),
        decreases pairs@.len() - i,
    {
        proof {
            let sub = ps.subrange(0, i as int + 1);
            assert(sub.drop_last() =~= ps.subrange(0, i as int));
            assert(sub.last() == ps[i as int]);
        }
        if str_eq(pairs[i].0.as_str(), key) {
            found = Some(owned(pairs[i].1.as_str()));
        }
        i = i + 1;
    }
    assert(ps.subrange(0, pairs@.len() as int) =~= ps);
    match found {
        Some(v) => Ok(v),
        None => Err(SecretResolveError::InlineUnavailable { field: owned(key) }),
    }
}

/// The value one field of a form plan takes from its source: the inline
/// value the task left; the secret its reference names, fetched as `fetched`;
/// or the entry under its bundle key of the bundle secret, fetched as `fetched`.
pub fn resolve_field_value(
    source: &FieldSecretSource,
    field_key: &str,
    inline: &Option<Vec<(String, String)>>,
    fetched: Option<&str>,
) -> (r: Result<String, SecretResolveError>)
    requires
        !(source is Inline) ==> fetched is Some,
    ensures
        match source {
            FieldSecretSource::Inline { key } => match pair_value(inline_pairs_view(*inline), key@) {
                Some(v) => r matches Ok(x) && x@ == v,
                None => r matches Err(SecretResolveError::InlineUnavailable { field: f }) && f@ == key@,
            },
            FieldSecretSource::SecretRef { .. } => r matches Ok(x) && opt_str_view(fetched) == Some(x@),
            FieldSecretSource::BundleKey { bundle_key, .. } => match bundle_value_of(
                opt_str_view(fetched).unwrap(),
                opt_view(*bundle_key),
            ) {
                Some(v) => r matches Ok(x) && x@ == v,
                None => r matches Err(SecretResolveError::BundleValueMissing { field: f, key: k }) && f@
                    == field_key@ && k@ == match bundle_key {
                    Some(k) => k@,
                    None => Seq::<char>::empty(),
                },
            },
        },
{
    match source {
        FieldSecretSource::Inline { key } => inline_field_value(inline, key.as_str()),
        FieldSecretSource::SecretRef { .. } => Ok(owned(fetched.unwrap())),
        FieldSecretSource::BundleKey { bundle_key, .. } => {
            let key: Option<&str> = match bundle_key {
                Some(k) => Some(k.as_str()),
                None => None,
            };
            bundle_field_value(fetched.unwrap(), field_key, key)
        },
    }
}

/// A field of a form plan with its value resolved: everything else kept.
pub fn resolved_field(field: &RunnerFormFieldPlan, value: String) -> (f: RunnerFormFieldPlan)
    ensures
        f.key@ == field.key@,
        f.role@ == field.role@,
        opt_view(f.selector) == opt_view(field.selector),
        f.selector_source@ == field.selector_source@,
        f.required == field.required,
        f.sensitive == field.sensitive,
        f.value_source@ == field.value_source@,
        opt_view(f.secret_ref) == opt_view(field.secret_ref),
        opt_view(f.bundle_key) == opt_view(field.bundle_key),
        f.resolved_value == Some(value),
        f.resolved,
{
    RunnerFormFieldPlan {
        key: owned(field.key.as_str()),
        role: owned(field.role.as_str()),
        selector: copy_opt(&field.selector),
        selector_source: owned(field.selector_source.as_str()),
        required: field.required,
        sensitive: field.sensitive,
        value_source: owned(field.value_source.as_str()),
        secret_ref: copy_opt(&field.secret_ref),
        bundle_key: copy_opt(&field.bundle_key),
        resolved_value: Some(value),
        resolved: true,
    }
}

} // verus!
