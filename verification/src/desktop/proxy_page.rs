//! The proxy list: which stored proxies a query selects, and which of them a
//! page shows.
use vstd::prelude::*;

use super::pages::{
    normalized_filter, page_number, page_of_positions, page_size_within, page_slice, passes, query_filter,
    query_search, search_hits, search_hits_texts, trimmed_search, value_passes,
};
use super::profile_page::text_or_empty;
use super::types::DesktopProxyPageQuery;
use super::workbench::{passes_filter, sanitize_page, sanitize_page_size};
use crate::numtext::{decimal_text, i64_to_text};
use crate::text::{concat3, opt_view, owned, strings_view};

verus! {

/// The columns of a stored proxy that its list reads to select it.
#[derive(Debug, Clone)]
pub struct ProxyListFields {
    pub id: String,
    pub scheme: String,
    pub host: String,
    pub port: i64,
    pub provider: Option<String>,
    pub source_label: Option<String>,
    pub region: Option<String>,
    pub country: Option<String>,
    pub status: String,
}

/// The address of a proxy as the list shows it: `scheme://host:port`.
pub open spec fn proxy_address(p: ProxyListFields) -> Seq<char> {
    p.scheme@ + "://"@ + p.host@ + ":"@ + decimal_text(p.port as int)
}

/// Whether a query lists a proxy: the search hits its id, address, provider,
/// source, region, country or status, and its status, region, provider and
/// source (each the empty text when absent) pass the query's filters.
pub open spec fn proxy_selected(p: ProxyListFields, q: DesktopProxyPageQuery) -> bool {
    &&& search_hits(
        seq![
            p.id@,
            proxy_address(p),
            text_or_empty(p.provider),
            text_or_empty(p.source_label),
            text_or_empty(p.region),
            text_or_empty(p.country),
            p.status@,
        ],
        query_search(opt_view(q.search)),
    )
    &&& passes(p.status@, query_filter(q.status_filters))
    &&& passes(text_or_empty(p.region), query_filter(q.region_filters))
    &&& passes(text_or_empty(p.provider), query_filter(q.provider_filters))
    &&& passes(text_or_empty(p.source_label), query_filter(q.source_filters))
}

/// The positions of the proxies a query lists, in stored order.
pub open spec fn selected_proxy_positions(proxies: Seq<ProxyListFields>, q: DesktopProxyPageQuery) -> Seq<usize>
    decreases proxies.len(),
{
    if proxies.len() == 0 {
        Seq::empty()
    } else {
        let prev = selected_proxy_positions(proxies.drop_last(), q);
        if proxy_selected(proxies.last(), q) {
            prev.push((proxies.len() - 1) as usize)
        } else {
            prev
        }
    }
}

/// Which proxies one page of the list shows.
#[derive(Debug, Clone)]
pub struct ProxyPageSelection {
    pub page: i64,
    pub page_size: i64,
    /// How many proxies the query selects in all.
    pub total: i64,
    /// The positions, in the list the selection was made from, of the
    /// proxies the page shows, in stored order.
    pub positions: Vec<usize>,
}

fn text_of(v: &Option<String>) -> (t: String)
    ensures
        t@ == text_or_empty(*v),
{
    match v {
        Some(s) => owned(s.as_str()),
        None => {
            let e = owned("");
            proof {
                reveal_strlit("");
            }
            e
        },
    }
}

fn proxy_listed(
    p: &ProxyListFields,
    search: &Option<String>,
    status: &Option<Vec<String>>,
    region: &Option<Vec<String>>,
    provider: &Option<Vec<String>>,
    source: &Option<Vec<String>>,
) -> (r: bool)
    ensures
        r == (search_hits(
            seq![
                p.id@,
                proxy_address(*p),
                text_or_empty(p.provider),
                text_or_empty(p.source_label),
                text_or_empty(p.region),
                text_or_empty(p.country),
                p.status@,
            ],
            opt_view(*search),
        ) && passes_filter(p.status@, *status) && passes_filter(text_or_empty(p.region), *region)
            && passes_filter(text_or_empty(p.provider), *provider) && passes_filter(text_or_empty(p.source_label), *source)),
{
    let port = i64_to_text(p.port);
    let mut address = concat3(p.scheme.as_str(), "://", p.host.as_str());
    address.append(":");
    address.append(port.as_str());
    let region_text = text_of(&p.region);
    let provider_text = text_of(&p.provider);
    let source_text = text_of(&p.source_label);
    let texts = vec![
        owned(p.id.as_str()),
        address,
        text_of(&p.provider),
        text_of(&p.source_label),
        text_of(&p.region),
        text_of(&p.country),
        owned(p.status.as_str()),
    ];
    proof {
        assert(strings_view(texts@) =~= seq![
            p.id@,
            proxy_address(*p),
            text_or_empty(p.provider),
            text_or_empty(p.source_label),
            text_or_empty(p.region),
            text_or_empty(p.country),
            p.status@,
        ]);
    }
    search_hits_texts(&texts, search) && value_passes(p.status.as_str(), status)
        && value_passes(region_text.as_str(), region) && value_passes(provider_text.as_str(), provider)
        && value_passes(source_text.as_str(), source)
}

proof fn lemma_selected_proxies_in_range(proxies: Seq<ProxyListFields>, q: DesktopProxyPageQuery)
    ensures
        selected_proxy_positions(proxies, q).len() <= proxies.len(),
    decreases proxies.len(),
{
    if proxies.len() > 0 {
        lemma_selected_proxies_in_range(proxies.drop_last(), q);
    }
}

/// Which proxies a page of the list shows: the proxies that the query's
/// search and filters select, in stored order, the page's share of them, and
/// how many were selected in all.
pub fn proxy_page_selection(proxies: &Vec<ProxyListFields>, query: &DesktopProxyPageQuery) -> (sel: ProxyPageSelection)
    requires
        proxies@.len() <= i64::MAX,
        (page_number(query.page) - 1) * page_size_within(query.page_size, 50, 200) <= i64::MAX,
    ensures
        sel.page == page_number(query.page),
        sel.page_size == page_size_within(query.page_size, 50, 200),
        sel.total == selected_proxy_positions(proxies@, *query).len(),
        sel.positions@ == page_slice(selected_proxy_positions(proxies@, *query), sel.page, sel.page_size),
{
    let page = sanitize_page(query.page);
    let page_size = sanitize_page_size(query.page_size, 50, 200);
    let search = trimmed_search(&query.search);
    let status = normalized_filter(&query.status_filters);
    let region = normalized_filter(&query.region_filters);
    let provider = normalized_filter(&query.provider_filters);
    let source = normalized_filter(&query.source_filters);
    let mut selected: Vec<usize> = Vec::new();
    let mut i: usize = 0;
    proof {
        assert(proxies@.subrange(0, 0) =~= Seq::<ProxyListFields>::empty());
    }
    while i < proxies.len()
        invariant
            i <= proxies@.len(),
            selected@ == selected_proxy_positions(proxies@.subrange(0, i as int), *query),
            opt_view(search) == query_search(opt_view(query.search)),
            forall|v: Seq<char>| #[trigger] passes_filter(v, status) == passes(v, query_filter(query.status_filters)),
            forall|v: Seq<char>| #[trigger] passes_filter(v, region) == passes(v, query_filter(query.region_filters)),
            forall|v: Seq<char>| #[trigger] passes_filter(v, provider) == passes(v, query_filter(query.provider_filters)),
            forall|v: Seq<char>| #[trigger] passes_filter(v, source) == passes(v, query_filter(query.source_filters)),
        decreases proxies@.len() - i,
    {
        proof {
            assert(proxies@.subrange(0, i + 1).drop_last() =~= proxies@.subrange(0, i as int));
            assert(proxies@.subrange(0, i + 1).last() == proxies@[i as int]);
        }
        if proxy_listed(&proxies[i], &search, &status, &region, &provider, &source) {
            selected.push(i);
        }
        i = i + 1;
    }
    proof {
        assert(proxies@.subrange(0, i as int) =~= proxies@);
        lemma_selected_proxies_in_range(proxies@, *query);
    }
    let positions = page_of_positions(&selected, page, page_size);
    let total = selected.len() as i64;
    ProxyPageSelection { page, page_size, total, positions }
}

} // verus!
