use persona_pilot::desktop::profile_batch::{
    merge_linked_proxy_ids, profile_batch_message, resolve_profile_batch_targets, ProfileBatchError,
};
use persona_pilot::desktop::types::DesktopProfileBatchActionRequest;
use persona_pilot::desktop::workbench::{DesktopProfileBatchActionKind, ProfileBaseRecord};

fn profile(id: &str, store: &str) -> ProfileBaseRecord {
    ProfileBaseRecord {
        id: id.to_string(),
        store_id: store.to_string(),
        platform_id: "shop".to_string(),
        device_family: "desktop".to_string(),
        country_anchor: "US".to_string(),
        region_anchor: None,
        locale: "en-US".to_string(),
        timezone: "America/New_York".to_string(),
        fingerprint_profile_id: format!("fp-{id}"),
        behavior_profile_id: None,
        network_policy_id: "net".to_string(),
        continuity_policy_id: "cont".to_string(),
        credential_ref: None,
        status: "active".to_string(),
        created_at: "1".to_string(),
        updated_at: "2".to_string(),
        fingerprint_tags: vec!["tag".to_string()],
        behavior_tags: vec![],
    }
}

fn request(ids: &[&str]) -> DesktopProfileBatchActionRequest {
    DesktopProfileBatchActionRequest { profile_ids: ids.iter().map(|s| s.to_string()).collect() }
}

#[test]
fn batch_targets_follow_the_request_order() {
    let stored = vec![profile("p1", "s1"), profile("p2", "s2"), profile("p3", "s3")];
    let targets = resolve_profile_batch_targets(&request(&[" p3 ", "p1", "p3", ""]), &stored).unwrap();
    let ids: Vec<&str> = targets.iter().map(|p| p.id.as_str()).collect();
    assert_eq!(ids, vec!["p3", "p1"]);
    assert_eq!(targets[0].store_id, "s3");
    assert_eq!(targets[0].fingerprint_tags, vec!["tag".to_string()]);
}

#[test]
fn batch_targets_refuse_empty_and_unknown_ids() {
    let stored = vec![profile("p1", "s1")];
    let err = resolve_profile_batch_targets(&request(&["  ", ""]), &stored).unwrap_err();
    assert!(matches!(err, ProfileBatchError::NoProfileIds));
    assert_eq!(err.message(), "profile_ids must contain at least one profile id");
    let err = resolve_profile_batch_targets(&request(&["p9", "p1", "p8"]), &stored).unwrap_err();
    assert_eq!(err.message(), "profiles not found: p9, p8");
}

#[test]
fn linked_proxies_are_merged_once_in_first_order() {
    let per_profile = vec![
        vec!["px-2".to_string(), "px-1".to_string()],
        vec![],
        vec!["px-1".to_string(), "px-3".to_string(), "px-2".to_string()],
    ];
    assert_eq!(
        merge_linked_proxy_ids(&per_profile),
        vec!["px-2".to_string(), "px-1".to_string(), "px-3".to_string()]
    );
    assert!(merge_linked_proxy_ids(&Vec::new()).is_empty());
}

#[test]
fn batch_messages_name_the_action_and_counts() {
    assert_eq!(
        profile_batch_message(DesktopProfileBatchActionKind::Start, 3, 0, &None),
        "Recorded desktop start action for 3 profiles."
    );
    assert_eq!(
        profile_batch_message(DesktopProfileBatchActionKind::Sync, 1, 0, &None),
        "Recorded desktop sync action for 1 profiles."
    );
    assert_eq!(
        profile_batch_message(DesktopProfileBatchActionKind::CheckProxy, 2, 5, &Some("verify-batch-1".to_string())),
        "Requested proxy verification for 2 profiles across 5 linked proxies (batch verify-batch-1)."
    );
    assert_eq!(
        profile_batch_message(DesktopProfileBatchActionKind::CheckProxy, 2, 0, &None),
        "Recorded proxy verification request for 2 profiles, but no linked proxies were found."
    );
}
