use persona_pilot::desktop::profile_edit::{
    check_profile_references, merge_profile_update, new_profile_fields, profile_references,
    ProfileEditError, ProfileRecordFields,
};
use persona_pilot::desktop::types::{DesktopCreateProfileInput, DesktopUpdateProfileInput};

fn create_input() -> DesktopCreateProfileInput {
    DesktopCreateProfileInput {
        id: "p1".to_string(),
        store_id: "store-1".to_string(),
        platform_id: "shop".to_string(),
        device_family: None,
        country_anchor: "US".to_string(),
        region_anchor: Some("NY".to_string()),
        locale: "en-US".to_string(),
        timezone: "America/New_York".to_string(),
        fingerprint_profile_id: "fp-1".to_string(),
        behavior_profile_id: Some("bp-1".to_string()),
        network_policy_id: "net-1".to_string(),
        continuity_policy_id: "cont-1".to_string(),
        credential_ref: None,
        status: None,
    }
}

fn empty_update() -> DesktopUpdateProfileInput {
    DesktopUpdateProfileInput {
        id: "p1".to_string(),
        store_id: None,
        platform_id: None,
        device_family: None,
        country_anchor: None,
        region_anchor: None,
        locale: None,
        timezone: None,
        fingerprint_profile_id: None,
        behavior_profile_id: None,
        network_policy_id: None,
        continuity_policy_id: None,
        credential_ref: None,
        status: None,
    }
}

fn stored() -> ProfileRecordFields {
    new_profile_fields(create_input())
}

#[test]
fn new_profiles_default_device_family_and_status() {
    let f = stored();
    assert_eq!(f.device_family, "desktop");
    assert_eq!(f.status, "active");
    assert_eq!(f.region_anchor.as_deref(), Some("NY"));
    let mut input = create_input();
    input.device_family = Some("mobile".to_string());
    input.status = Some("paused".to_string());
    let g = new_profile_fields(input);
    assert_eq!(g.device_family, "mobile");
    assert_eq!(g.status, "paused");
}

#[test]
fn updates_replace_only_given_fields() {
    let mut update = empty_update();
    update.locale = Some("de-DE".to_string());
    update.credential_ref = Some("vault://cred".to_string());
    let m = merge_profile_update(update, stored());
    assert_eq!(m.locale, "de-DE");
    assert_eq!(m.credential_ref.as_deref(), Some("vault://cred"));
    assert_eq!(m.store_id, "store-1");
    assert_eq!(m.behavior_profile_id.as_deref(), Some("bp-1"));
    let unchanged = merge_profile_update(empty_update(), stored());
    assert_eq!(unchanged.locale, "en-US");
    assert_eq!(unchanged.status, "active");
}

#[test]
fn references_are_checked_in_order() {
    let refs = profile_references(&stored());
    let pairs: Vec<(&str, &str)> = refs.iter().map(|r| (r.table.as_str(), r.id.as_str())).collect();
    assert_eq!(
        pairs,
        vec![
            ("fingerprint_profiles", "fp-1"),
            ("network_policies", "net-1"),
            ("continuity_policies", "cont-1"),
            ("behavior_profiles", "bp-1"),
        ]
    );
    assert!(check_profile_references(&refs, &vec![true, true, true, true]).is_ok());
    let err = check_profile_references(&refs, &vec![true, false, false, true]).unwrap_err();
    assert_eq!(err.message(), "network_policies not found: net-1");
    let mut no_behavior = stored();
    no_behavior.behavior_profile_id = None;
    assert_eq!(profile_references(&no_behavior).len(), 3);
    assert_eq!(ProfileEditError::ProfileNotFound { id: "p7".to_string() }.message(), "profile not found: p7");
}
