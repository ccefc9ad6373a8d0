use persona_pilot::desktop::proxy_page::{proxy_page_selection, ProxyListFields};
use persona_pilot::desktop::types::DesktopProxyPageQuery;

fn strings(items: &[&str]) -> Vec<String> {
    items.iter().map(|s| s.to_string()).collect()
}

fn proxy(id: &str, port: i64, provider: Option<&str>, region: Option<&str>, status: &str) -> ProxyListFields {
    ProxyListFields {
        id: id.to_string(),
        scheme: "http".to_string(),
        host: "10.0.0.1".to_string(),
        port,
        provider: provider.map(str::to_string),
        source_label: Some("harvest".to_string()),
        region: region.map(str::to_string),
        country: Some("US".to_string()),
        status: status.to_string(),
    }
}

fn proxies() -> Vec<ProxyListFields> {
    vec![
        proxy("px-1", 8080, Some("pool-a"), Some("us-east"), "active"),
        proxy("px-2", 9090, Some("pool-b"), None, "disabled"),
        proxy("px-3", 3128, None, Some("us-west"), "active"),
    ]
}

#[test]
fn proxy_page_filters_by_status_region_and_provider() {
    let all = proxy_page_selection(&proxies(), &DesktopProxyPageQuery::default());
    assert_eq!((all.page, all.page_size, all.total), (1, 50, 3));
    assert_eq!(all.positions, vec![0, 1, 2]);

    let mut q = DesktopProxyPageQuery::default();
    q.status_filters = Some(strings(&["Active"]));
    q.region_filters = Some(strings(&["us-west", "us-east"]));
    let sel = proxy_page_selection(&proxies(), &q);
    assert_eq!(sel.positions, vec![0, 2]);

    let mut q = DesktopProxyPageQuery::default();
    q.provider_filters = Some(strings(&["pool-b"]));
    let sel = proxy_page_selection(&proxies(), &q);
    assert_eq!(sel.positions, vec![1]);
}

#[test]
fn proxy_page_search_reads_the_address() {
    let mut q = DesktopProxyPageQuery::default();
    q.search = Some(" HTTP://10.0.0.1:9090 ".to_string());
    let sel = proxy_page_selection(&proxies(), &q);
    assert_eq!(sel.total, 1);
    assert_eq!(sel.positions, vec![1]);

    let mut q = DesktopProxyPageQuery::default();
    q.search = Some("harvest".to_string());
    q.page = Some(2);
    q.page_size = Some(2);
    let sel = proxy_page_selection(&proxies(), &q);
    assert_eq!(sel.total, 3);
    assert_eq!(sel.positions, vec![2]);
}
