use persona_pilot::behavior::form::RunnerFormFieldPlan;
use persona_pilot::behavior::secret::{
    alias_config_in, bundle_field_value, env_secret_text, field_secret_source, inline_field_value, member_pointer_of,
    plan_needs_inline_values, resolve_field_value, resolved_field, secret_env_for_alias, secret_env_source,
    secret_ref_lookup, FieldSecretSource, SecretAliasConfig, SecretAliasError, SecretResolveError,
};

fn object(
    resolver: Option<Option<&str>>,
    kind: Option<Option<&str>>,
    source: Option<Option<&str>>,
    env: Option<Option<&str>>,
) -> SecretAliasConfig {
    let own = |v: Option<Option<&str>>| v.map(|inner| inner.map(str::to_string));
    SecretAliasConfig::Object { resolver: own(resolver), kind: own(kind), source: own(source), env: own(env) }
}

#[test]
fn string_config_names_a_plain_env_var() {
    let s = secret_env_source(&SecretAliasConfig::EnvName("SHOP_PASSWORD".to_string())).unwrap();
    assert_eq!(s.env_name, "SHOP_PASSWORD");
    assert!(!s.parse_json);
}

#[test]
fn object_config_picks_the_first_present_resolver_key() {
    let s = secret_env_source(&object(None, None, None, Some(Some("TOKEN")))).unwrap();
    assert_eq!((s.env_name.as_str(), s.parse_json), ("TOKEN", false));
    let s = secret_env_source(&object(None, Some(Some("env_json")), Some(Some("bogus")), Some(Some("BUNDLE")))).unwrap();
    assert_eq!((s.env_name.as_str(), s.parse_json), ("BUNDLE", true));
    // a present resolver that is not a string falls back to env, without looking further
    let s = secret_env_source(&object(Some(None), Some(Some("env_json")), None, Some(Some("X")))).unwrap();
    assert!(!s.parse_json);
}

#[test]
fn object_config_errors() {
    assert_eq!(
        secret_env_source(&object(Some(Some("vault")), None, None, None)).unwrap_err(),
        SecretAliasError::MissingEnv
    );
    assert_eq!(
        secret_env_source(&object(None, None, None, Some(None))).unwrap_err(),
        SecretAliasError::MissingEnv
    );
    let err = secret_env_source(&object(Some(Some("vault")), None, None, Some(Some("X")))).unwrap_err();
    assert_eq!(err, SecretAliasError::UnsupportedResolver { given: "vault".to_string() });
    assert_eq!(err.message(), "unsupported secret alias resolver 'vault'");
    let err = secret_env_source(&SecretAliasConfig::Other).unwrap_err();
    assert_eq!(err.message(), "invalid secret alias config");
    assert_eq!(SecretAliasError::MissingEnv.message(), "secret alias config is missing env");
}

fn field(key: &str, source: &str, secret_ref: Option<&str>, bundle_key: Option<&str>) -> RunnerFormFieldPlan {
    RunnerFormFieldPlan {
        key: key.to_string(),
        role: "custom".to_string(),
        selector: None,
        selector_source: "task".to_string(),
        required: true,
        sensitive: true,
        value_source: source.to_string(),
        secret_ref: secret_ref.map(str::to_string),
        bundle_key: bundle_key.map(str::to_string),
        resolved_value: None,
        resolved: false,
    }
}

#[test]
fn field_secret_sources_follow_the_value_source() {
    let bundle = Some("identity://bundle".to_string());
    match field_secret_source(&field("email", "inline", None, None), &None).unwrap() {
        FieldSecretSource::Inline { key } => assert_eq!(key, "email"),
        other => panic!("unexpected {other:?}"),
    }
    match field_secret_source(&field("pw", "secret_ref", Some("identity://shop"), None), &None).unwrap() {
        FieldSecretSource::SecretRef { secret_ref } => assert_eq!(secret_ref, "identity://shop"),
        other => panic!("unexpected {other:?}"),
    }
    match field_secret_source(&field("otp", "bundle_key", None, Some("otp_seed")), &bundle).unwrap() {
        FieldSecretSource::BundleKey { bundle_ref, bundle_key } => {
            assert_eq!(bundle_ref, "identity://bundle");
            assert_eq!(bundle_key.as_deref(), Some("otp_seed"));
        }
        other => panic!("unexpected {other:?}"),
    }
}

#[test]
fn field_secret_source_errors_and_messages() {
    let err = field_secret_source(&field("pw", "secret_ref", None, None), &None).unwrap_err();
    assert_eq!(err, SecretResolveError::SecretRefMissing { field: "pw".to_string() });
    assert_eq!(err.message(), "secret_ref missing for field 'pw'");
    let err = field_secret_source(&field("otp", "bundle_key", None, Some("k")), &None).unwrap_err();
    assert_eq!(err.message(), "secret_bundle_ref missing for bundle field");
    let err = field_secret_source(&field("x", "vault", None, None), &None).unwrap_err();
    assert_eq!(err.message(), "unsupported form field value source 'vault'");
    assert_eq!(
        SecretResolveError::InlineUnavailable { field: "email".to_string() }.message(),
        "inline_secret_unavailable for field 'email'"
    );
    assert_eq!(
        SecretResolveError::BundleValueMissing { field: "otp".to_string(), key: "seed".to_string() }.message(),
        "bundle value not found for field 'otp' key 'seed'"
    );
}

#[test]
fn plan_needs_inline_values_when_a_field_is_inline() {
    assert!(!plan_needs_inline_values(&vec![field("pw", "secret_ref", Some("identity://a"), None)]));
    assert!(plan_needs_inline_values(&vec![
        field("pw", "secret_ref", Some("identity://a"), None),
        field("email", "inline", None, None),
    ]));
    assert!(!plan_needs_inline_values(&Vec::new()));
}

#[test]
fn secret_ref_lookup_needs_identity_then_alias() {
    let (identity, alias) = secret_ref_lookup(Some("identity-1"), "identity://shop_login").unwrap();
    assert_eq!((identity.as_str(), alias.as_str()), ("identity-1", "shop_login"));
    let err = secret_ref_lookup(None, "identity://shop_login").unwrap_err();
    assert_eq!(err, SecretResolveError::IdentityProfileRequired);
    assert_eq!(err.message(), "identity_profile_id is required to resolve secret refs");
    let err = secret_ref_lookup(None, "plain").unwrap_err();
    assert_eq!(err, SecretResolveError::IdentityProfileRequired);
    let err = secret_ref_lookup(Some("identity-1"), "identity://  ").unwrap_err();
    assert_eq!(err.message(), "secret ref must use identity://<alias> syntax");
    assert_eq!(SecretResolveError::NoSecretAliases.message(), "identity profile has no secret_aliases_json");
    assert_eq!(
        SecretResolveError::AliasNotFound { alias: "shop".to_string() }.message(),
        "secret alias not found: shop"
    );
}

#[test]
fn alias_keys_become_pointer_tokens() {
    assert_eq!(member_pointer_of("shop"), "/shop");
    assert_eq!(member_pointer_of("a/b~c"), "/a~1b~0c");
    assert_eq!(member_pointer_of(""), "/");
}

#[test]
fn alias_configs_are_read_from_the_aliases_text() {
    let aliases = r#"{"shop":"SHOP_PASSWORD","api":{"kind":"env_json","env":"API_BUNDLE"},"odd":7,"a/b":"SLASHED"}"#;
    assert!(matches!(alias_config_in(Some(aliases), "shop"), Ok(SecretAliasConfig::EnvName(n)) if n == "SHOP_PASSWORD"));
    assert!(matches!(alias_config_in(Some(aliases), "a/b"), Ok(SecretAliasConfig::EnvName(n)) if n == "SLASHED"));
    match alias_config_in(Some(aliases), "api").unwrap() {
        SecretAliasConfig::Object { resolver, kind, source, env } => {
            assert_eq!(resolver, None);
            assert_eq!(kind, Some(Some("env_json".to_string())));
            assert_eq!(source, None);
            assert_eq!(env, Some(Some("API_BUNDLE".to_string())));
        }
        other => panic!("unexpected {other:?}"),
    }
    assert!(matches!(alias_config_in(Some(aliases), "odd"), Ok(SecretAliasConfig::Other)));
    assert_eq!(
        alias_config_in(Some(aliases), "missing").unwrap_err(),
        SecretResolveError::AliasNotFound { alias: "missing".to_string() }
    );
    assert_eq!(alias_config_in(None, "shop").unwrap_err(), SecretResolveError::NoSecretAliases);
    assert_eq!(alias_config_in(Some("[1]"), "shop").unwrap_err(), SecretResolveError::NoSecretAliases);
    assert_eq!(alias_config_in(Some("{oops"), "shop").unwrap_err(), SecretResolveError::NoSecretAliases);

    let s = secret_env_for_alias(Some(aliases), "api").unwrap();
    assert_eq!((s.env_name.as_str(), s.parse_json), ("API_BUNDLE", true));
    let e = secret_env_for_alias(Some(aliases), "odd").unwrap_err();
    assert_eq!(e.message(), "invalid secret alias config");
    assert_eq!(secret_env_for_alias(Some(aliases), "missing").unwrap_err().message(), "secret alias not found: missing");
}

#[test]
fn env_secrets_become_json_texts() {
    assert_eq!(env_secret_text("PW", Some("s3\"cret".to_string()), false).unwrap(), r#""s3\"cret""#);
    assert_eq!(env_secret_text("B", Some("{ \"user\" : \"ann\" }".to_string()), true).unwrap(), r#"{"user":"ann"}"#);
    let missing = env_secret_text("NOPE", None, false).unwrap_err();
    assert_eq!(missing.message(), "secret env not found: NOPE");
    let invalid = env_secret_text("B", Some("{oops".to_string()), true).unwrap_err();
    assert!(invalid.message().starts_with("failed to parse env_json secret 'B': "));
    assert!(invalid.message().len() > "failed to parse env_json secret 'B': ".len());
}

#[test]
fn bundle_and_inline_values_are_looked_up_by_key() {
    let bundle = r#"{"user":"ann","pin":1234}"#;
    assert_eq!(bundle_field_value(bundle, "login", Some("user")).unwrap(), "\"ann\"");
    assert_eq!(bundle_field_value(bundle, "pin", Some("pin")).unwrap(), "1234");
    assert_eq!(
        bundle_field_value(bundle, "login", Some("nope")).unwrap_err(),
        SecretResolveError::BundleValueMissing { field: "login".to_string(), key: "nope".to_string() }
    );
    assert_eq!(
        bundle_field_value("\"plain\"", "login", Some("user")).unwrap_err().message(),
        "bundle value not found for field 'login' key 'user'"
    );
    assert_eq!(
        bundle_field_value(bundle, "login", None).unwrap_err(),
        SecretResolveError::BundleValueMissing { field: "login".to_string(), key: String::new() }
    );
    let inline = Some(vec![("email".to_string(), "\"a@b.c\"".to_string())]);
    assert_eq!(inline_field_value(&inline, "email").unwrap(), "\"a@b.c\"");
    assert_eq!(inline_field_value(&inline, "pw").unwrap_err().message(), "inline_secret_unavailable for field 'pw'");
    assert!(inline_field_value(&None, "email").is_err());
}

#[test]
fn each_field_takes_the_value_of_its_source() {
    let inline = Some(vec![("email".to_string(), "\"a@b.c\"".to_string())]);
    let v = resolve_field_value(&FieldSecretSource::Inline { key: "email".to_string() }, "email", &inline, None).unwrap();
    assert_eq!(v, "\"a@b.c\"");
    let v = resolve_field_value(
        &FieldSecretSource::SecretRef { secret_ref: "identity://pw".to_string() },
        "pw",
        &None,
        Some("\"hunter2\""),
    )
    .unwrap();
    assert_eq!(v, "\"hunter2\"");
    let source = FieldSecretSource::BundleKey { bundle_ref: "identity://b".to_string(), bundle_key: Some("user".to_string()) };
    assert_eq!(resolve_field_value(&source, "login", &None, Some(r#"{"user":"ann"}"#)).unwrap(), "\"ann\"");
    let f = resolved_field(&field("login", "bundle_key", None, Some("user")), "\"ann\"".to_string());
    assert!(f.resolved);
    assert_eq!(f.resolved_value.as_deref(), Some("\"ann\""));
    assert_eq!(f.bundle_key.as_deref(), Some("user"));
}
