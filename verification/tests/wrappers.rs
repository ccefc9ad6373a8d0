use persona_pilot::behavior::plan::hash_strs;
use persona_pilot::behavior::site::site_key_from_url;
use persona_pilot::clock::now_ts_string;
use persona_pilot::desktop::workbench::matches_filter;

#[test]
fn site_key_is_the_lowercase_host_of_a_url() {
    assert_eq!(site_key_from_url(Some("https://Example.COM:8080/Article/x.html")).as_deref(), Some("example.com"));
    assert_eq!(site_key_from_url(Some("https://shop.example.org")).as_deref(), Some("shop.example.org"));
    assert_eq!(site_key_from_url(Some("not a url")), None);
    assert_eq!(site_key_from_url(Some("mailto:someone@example.com")), None);
    assert_eq!(site_key_from_url(None), None);
}

#[test]
fn hashing_depends_on_the_strings() {
    let a = hash_strs(&vec!["seed", "label-a"]);
    let b = hash_strs(&vec!["seed", "label-b"]);
    assert_ne!(a, b);
    assert_eq!(a, hash_strs(&vec!["seed", "label-a"]));
    assert_ne!(hash_strs(&vec!["ab", "c"]), hash_strs(&vec!["a", "bc"]));
}

#[test]
fn filters_compare_unicode_lowercase() {
    let filters = Some(vec!["äbc".to_string(), "straße".to_string()]);
    assert!(matches_filter("  ÄBC ", &filters));
    assert!(matches_filter("STRAßE", &filters));
    assert!(!matches_filter("abc", &filters));
    assert!(matches_filter("anything", &None));
}

#[test]
fn clock_reads_unix_seconds() {
    let now: u64 = now_ts_string().parse().expect("decimal seconds");
    assert!(now > 1_600_000_000);
}
