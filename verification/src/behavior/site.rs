//! Page archetype inference and site keys from task URLs.
use vstd::prelude::*;

use crate::bindings::{parse_url_parts, url_parts};
use crate::text::{
    ascii_lower, chars_contain, chars_end_with, chars_of, opt_str_view, owned, seq_contains,
    seq_ends_with, str_eq, strs_view, to_ascii_lowercase,
};
use crate::behavior::plan::or_empty;

verus! {

/// Whether some needle occurs in the text.
pub open spec fn contains_any(hay: Seq<char>, needles: Seq<Seq<char>>) -> bool {
    exists|i: int| 0 <= i < needles.len() && seq_contains(hay, #[trigger] needles[i])
}

pub fn chars_contain_any(hay: &Vec<char>, needles: &Vec<&str>) -> (found: bool)
    ensures
        found == contains_any(hay@, strs_view(needles@)),
{
    let mut i: usize = 0;
    while i < needles.len()
        invariant
            i <= needles@.len(),
            forall|k: int| 0 <= k < i ==> !seq_contains(hay@, #[trigger] strs_view(needles@)[k]),
        decreases needles@.len() - i,
    {
        let n = chars_of(needles[i]);
        if chars_contain(hay, &n) {
            assert(seq_contains(hay@, strs_view(needles@)[i as int]));
            return true;
        }
        i = i + 1;
    }
    false
}

/// The lowercase path of the URL, or nothing when it does not parse.
pub open spec fn lower_url_path(url: Option<Seq<char>>) -> Seq<char> {
    match url_parts(or_empty(url)) {
        Some((_, path)) => ascii_lower(path),
        None => Seq::empty(),
    }
}

pub open spec fn auth_markers() -> Seq<Seq<char>> {
    seq!["/login"@, "/signin"@, "/sign-in"@, "/auth"@]
}

pub open spec fn dashboard_markers() -> Seq<Seq<char>> {
    seq!["/dashboard"@, "/console"@, "/admin"@, "/workspace"@]
}

pub open spec fn form_markers() -> Seq<Seq<char>> {
    seq!["/form"@, "/register"@, "/signup"@, "/checkout"@, "/contact"@]
}

pub open spec fn search_markers() -> Seq<Seq<char>> {
    seq!["/search"@, "?q="@, "&q="@, "query="@]
}

pub open spec fn product_markers() -> Seq<Seq<char>> {
    seq!["/product"@, "/item"@, "/sku"@]
}

pub open spec fn listing_markers() -> Seq<Seq<char>> {
    seq!["/listing"@, "/list"@, "/category"@, "/catalog"@]
}

pub open spec fn article_markers() -> Seq<Seq<char>> {
    seq!["/article"@, "/blog"@, "/post"@, "/news"@]
}

/// The page archetype inferred from the task kind and the URL, by the first
/// matching rule over the lowercase URL.
pub open spec fn inferred_archetype(task_kind: Seq<char>, url: Option<Seq<char>>) -> Seq<char> {
    let lower = ascii_lower(or_empty(url));
    if contains_any(lower, auth_markers()) {
        "auth"@
    } else if contains_any(lower, dashboard_markers()) {
        "dashboard"@
    } else if contains_any(lower, form_markers()) {
        "form"@
    } else if contains_any(lower, search_markers()) {
        "search_results"@
    } else if contains_any(lower, product_markers()) {
        "product"@
    } else if contains_any(lower, listing_markers()) {
        "listing"@
    } else if task_kind == "extract_text"@ || task_kind == "get_html"@ || contains_any(
        lower,
        article_markers(),
    ) || seq_ends_with(lower_url_path(url), ".html"@) {
        "article"@
    } else {
        "generic"@
    }
}

pub fn infer_page_archetype(task_kind: &str, url: Option<&str>) -> (archetype: String)
    ensures
        archetype@ == inferred_archetype(task_kind@, opt_str_view(url)),
{
    let raw: &str = match url {
        Some(u) => u,
        None => "",
    };
    proof {
        reveal_strlit("");
        assert(""@ =~= Seq::<char>::empty());
    }
    assert(raw@ == or_empty(opt_str_view(url)));
    let lower_text = to_ascii_lowercase(raw);
    let lower = chars_of(lower_text.as_str());
    let parts = parse_url_parts(raw);
    let path_lower: Vec<char> = match parts {
        Some((_, path)) => {
            let p = to_ascii_lowercase(path.as_str());
            chars_of(p.as_str())
        },
        None => Vec::new(),
    };
    assert(path_lower@ == lower_url_path(opt_str_view(url)));
    let auth = vec!["/login", "/signin", "/sign-in", "/auth"];
    assert(strs_view(auth@) =~= auth_markers());
    if chars_contain_any(&lower, &auth) {
        return owned("auth");
    }
    let dashboard = vec!["/dashboard", "/console", "/admin", "/workspace"];
    assert(strs_view(dashboard@) =~= dashboard_markers());
    if chars_contain_any(&lower, &dashboard) {
        return owned("dashboard");
    }
    let form = vec!["/form", "/register", "/signup", "/checkout", "/contact"];
    assert(strs_view(form@) =~= form_markers());
    if chars_contain_any(&lower, &form) {
        return owned("form");
    }
    let search = vec!["/search", "?q=", "&q=", "query="];
    assert(strs_view(search@) =~= search_markers());
    if chars_contain_any(&lower, &search) {
        return owned("search_results");
    }
    let product = vec!["/product", "/item", "/sku"];
    assert(strs_view(product@) =~= product_markers());
    if chars_contain_any(&lower, &product) {
        return owned("product");
    }
    let listing = vec!["/listing", "/list", "/category", "/catalog"];
    assert(strs_view(listing@) =~= listing_markers());
    if chars_contain_any(&lower, &listing) {
        return owned("listing");
    }
    let article = vec!["/article", "/blog", "/post", "/news"];
    assert(strs_view(article@) =~= article_markers());
    let html = chars_of(".html");
    if str_eq(task_kind, "extract_text") || str_eq(task_kind, "get_html") || chars_contain_any(
        &lower,
        &article,
    ) || chars_end_with(&path_lower, &html) {
        return owned("article");
    }
    owned("generic")
}

/// The lowercase host of the URL, when it parses and has one.
pub open spec fn site_key_of(url: Option<Seq<char>>) -> Option<Seq<char>> {
    match url {
        None => None,
        Some(u) => match url_parts(u) {
            Some((Some(host), _)) => Some(ascii_lower(host)),
            _ => None,
        },
    }
}

pub fn site_key_from_url(url: Option<&str>) -> (key: Option<String>)
    ensures
        crate::text::opt_view(key) == site_key_of(opt_str_view(url)),
{
    let u = match url {
        Some(u) => u,
        None => {
            return None;
        },
    };
    match parse_url_parts(u) {
        Some((Some(host), _)) => Some(to_ascii_lowercase(host.as_str())),
        _ => None,
    }
}

} // verus!
