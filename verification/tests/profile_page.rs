use persona_pilot::desktop::profile_page::{profile_page_selection, profile_tag_list};
use persona_pilot::desktop::types::DesktopProfilePageQuery;
use persona_pilot::desktop::workbench::ProfileBaseRecord;

fn strings(items: &[&str]) -> Vec<String> {
    items.iter().map(|s| s.to_string()).collect()
}

fn profile(id: &str, store: &str, status: &str, fp_tags: &[&str], bh_tags: &[&str]) -> ProfileBaseRecord {
    ProfileBaseRecord {
        id: id.to_string(),
        store_id: store.to_string(),
        platform_id: "shopify".to_string(),
        device_family: "desktop".to_string(),
        country_anchor: "US".to_string(),
        region_anchor: Some("us-east".to_string()),
        locale: "en-US".to_string(),
        timezone: "America/New_York".to_string(),
        fingerprint_profile_id: format!("fp-{id}"),
        behavior_profile_id: None,
        network_policy_id: "net-1".to_string(),
        continuity_policy_id: "cont-1".to_string(),
        credential_ref: None,
        status: status.to_string(),
        created_at: "1".to_string(),
        updated_at: "1".to_string(),
        fingerprint_tags: strings(fp_tags),
        behavior_tags: strings(bh_tags),
    }
}

fn bases() -> Vec<ProfileBaseRecord> {
    vec![
        profile("p1", "store-a", "active", &["warm", " mobile "], &["night"]),
        profile("p2", "store-b", "disabled", &["cold"], &[]),
        profile("p3", "store-a", "active", &[], &["warm", ""]),
        profile("p4", "store-c", "active", &["vip"], &["warm"]),
    ]
}

#[test]
fn profile_tags_are_trimmed_unique_and_sorted() {
    let p = profile("p", "s", "active", &[" warm", "mobile", "warm "], &["", "night", "mobile"]);
    assert_eq!(profile_tag_list(&p), strings(&["mobile", "night", "warm"]));
}

#[test]
fn profile_page_selects_by_group_tag_and_status() {
    let all = profile_page_selection(&bases(), &DesktopProfilePageQuery::default());
    assert_eq!((all.page, all.page_size, all.total), (1, 50, 4));
    assert_eq!(all.positions, vec![0, 1, 2, 3]);

    let mut q = DesktopProfilePageQuery::default();
    q.group_filters = Some(strings(&["STORE-A"]));
    let sel = profile_page_selection(&bases(), &q);
    assert_eq!(sel.positions, vec![0, 2]);

    let mut q = DesktopProfilePageQuery::default();
    q.tag_filters = Some(strings(&["Warm", "all"]));
    q.status_filters = Some(strings(&["active"]));
    let sel = profile_page_selection(&bases(), &q);
    assert_eq!(sel.total, 3);
    assert_eq!(sel.positions, vec![0, 2, 3]);
}

#[test]
fn profile_page_search_reads_joined_tags_and_pages() {
    let mut q = DesktopProfilePageQuery::default();
    q.search = Some(" night warm ".to_string());
    let sel = profile_page_selection(&bases(), &q);
    assert_eq!(sel.positions, vec![0]);

    let mut q = DesktopProfilePageQuery::default();
    q.search = Some("US-EAST".to_string());
    q.page = Some(2);
    q.page_size = Some(3);
    let sel = profile_page_selection(&bases(), &q);
    assert_eq!(sel.total, 4);
    assert_eq!(sel.positions, vec![3]);
}
