//! What the workbench's paged lists share: the filters a query gives, the
//! search over a row's texts, and the slice of a list that a page shows.
use vstd::prelude::*;

use super::types::{DesktopLogQuery, DesktopTaskQuery};
use super::workbench::{
    build_like_term, filter_form, filter_value, filter_values, matches_filter, matches_search, normalize_filter_values,
    normalized_optional_filter, page_start, passes_filter, sanitize_page, sanitize_page_size, search_matches,
};
use crate::bindings::unicode_lowercase;
use crate::text::{nonblank_trimmed, opt_view, seq_contains, strings_view, trim, trim_str};

verus! {

/// The filter values of a query's list, `None` where it gives none that
/// count.
pub open spec fn query_filter(raw: Option<Vec<String>>) -> Option<Seq<Seq<char>>> {
    match raw {
        Some(v) => if filter_values(strings_view(v@)).len() > 0 {
            Some(filter_values(strings_view(v@)))
        } else {
            None
        },
        None => None,
    }
}

/// Whether a value passes a list of filter values; all do without one.
pub open spec fn passes(value: Seq<char>, filters: Option<Seq<Seq<char>>>) -> bool {
    match filters {
        Some(f) => f.contains(filter_form(value)),
        None => true,
    }
}

/// Whether a search hits one of a row's texts: always when it is blank,
/// else when one of them, lowercased, holds the lowercased search text.
pub open spec fn search_hits(texts: Seq<Seq<char>>, search: Option<Seq<char>>) -> bool {
    match search {
        Some(s) => if filter_form(s).len() == 0 {
            true
        } else {
            exists|i: int| 0 <= i < texts.len() && seq_contains(unicode_lowercase(#[trigger] texts[i]), filter_form(s))
        },
        None => true,
    }
}

/// The search text of a query: trimmed.
pub open spec fn query_search(raw: Option<Seq<char>>) -> Option<Seq<char>> {
    match raw {
        Some(s) => Some(trim(s)),
        None => None,
    }
}

/// The normalized form of a query's filter list.
pub fn normalized_filter(raw: &Option<Vec<String>>) -> (f: Option<Vec<String>>)
    ensures
        forall|v: Seq<char>| #[trigger] passes_filter(v, f) == passes(v, query_filter(*raw)),
        match f {
            Some(v) => query_filter(*raw) == Some(strings_view(v@)),
            None => query_filter(*raw) is None,
        },
{
    let f = normalize_filter_values(raw);
    proof {
        assert forall|v: Seq<char>| #[trigger] passes_filter(v, f) == passes(v, query_filter(*raw)) by {
            match raw {
                Some(values) => match f {
                    Some(n) => {},
                    None => {},
                },
                None => {},
            }
        }
    }
    f
}

/// Whether a value passes normalized filters.
pub fn value_passes(value: &str, filters: &Option<Vec<String>>) -> (r: bool)
    ensures
        r == passes_filter(value@, *filters),
{
    matches_filter(value, filters)
}

/// The trimmed search text of a query.
pub fn trimmed_search(raw: &Option<String>) -> (r: Option<String>)
    ensures
        opt_view(r) == query_search(opt_view(*raw)),
{
    match raw {
        Some(s) => Some(trim_str(s.as_str())),
        None => None,
    }
}

/// Whether a search hits one of a row's texts.
pub fn search_hits_texts(texts: &Vec<String>, search: &Option<String>) -> (r: bool)
    ensures
        r == search_hits(strings_view(texts@), opt_view(*search)),
{
    let r = matches_search(texts, search);
    proof {
        let sv = strings_view(texts@);
        match opt_view(*search) {
            Some(s) => {
                if filter_form(s).len() != 0 {
                    if search_matches(texts@, opt_view(*search)) {
                        let i = choose|i: int|
                            0 <= i < texts@.len() && seq_contains(unicode_lowercase(#[trigger] texts@[i]@), filter_form(s));
                        assert(sv[i] == texts@[i]@);
                    }
                    if search_hits(sv, opt_view(*search)) {
                        let i = choose|i: int| 0 <= i < sv.len() && seq_contains(unicode_lowercase(#[trigger] sv[i]), filter_form(s));
                        assert(sv[i] == texts@[i]@);
                    }
                }
            },
            None => {},
        }
    }
    r
}

/// The page a query asks for: at least the first.
pub open spec fn page_number(page: Option<i64>) -> i64 {
    match page {
        Some(x) => if x < 1 { 1 } else { x },
        None => 1,
    }
}

/// The page size a query asks for, `default_value` when it asks for none,
/// held between 1 and `max_value`.
pub open spec fn page_size_within(page_size: Option<i64>, default_value: i64, max_value: i64) -> i64 {
    let v = match page_size {
        Some(x) => x,
        None => default_value,
    };
    if v < 1 { 1 } else if v > max_value { max_value } else { v }
}

/// The part of a list that a page shows: from the page's first item on, at
/// most `page_size` items.
pub open spec fn page_slice<T>(items: Seq<T>, page: i64, page_size: i64) -> Seq<T> {
    let start = page_start(page, page_size);
    if start >= items.len() {
        Seq::empty()
    } else if start + page_size > items.len() {
        items.subrange(start, items.len() as int)
    } else {
        items.subrange(start, start + page_size)
    }
}

/// The positions a page shows, out of the positions of a whole list.
pub fn page_of_positions(items: &Vec<usize>, page: i64, page_size: i64) -> (r: Vec<usize>)
    requires
        page > i64::MIN,
        i64::MIN <= (page - 1) * page_size <= i64::MAX,
        page_size >= 0,
    ensures
        r@ == page_slice(items@, page, page_size),
{
    let offset: i64 = (page - 1) * page_size;
    let start_i: i64 = if offset < 0 {
        0
    } else {
        offset
    };
    if start_i as u64 >= items.len() as u64 {
        return Vec::new();
    }
    let start: usize = start_i as usize;
    let remaining: usize = items.len() - start;
    let take: usize = if page_size as u64 >= remaining as u64 {
        remaining
    } else {
        page_size as usize
    };
    let mut r: Vec<usize> = Vec::new();
    let mut k: usize = 0;
    while k < take
        invariant
            start + take <= items@.len(),
            items@.len() <= usize::MAX,
            start == page_start(page, page_size),
            take == if start + page_size > items@.len() { items@.len() - start } else { page_size as int },
            k <= take,
            r@ == items@.subrange(start as int, start + k),
        decreases take - k,
    {
        assert(start + k < items@.len());
        r.push(items[start + k]);
        k = k + 1;
        assert(r@ =~= items@.subrange(start as int, start + k));
    }
    r
}

/// A `LIKE` pattern that finds the trimmed search text anywhere, when it is
/// not blank.
pub open spec fn like_pattern(search: Option<Seq<char>>) -> Option<Seq<char>> {
    match nonblank_trimmed(search) {
        Some(t) => Some("%"@ + t + "%"@),
        None => None,
    }
}

/// What the task list asks the store for: the page, its size (50 unless
/// given, at most 200), the rows to skip, the status to match and the
/// pattern to search the id, kind, persona and platform with.
#[derive(Debug, Clone)]
pub struct TaskListParams {
    pub page: i64,
    pub page_size: i64,
    pub offset: i64,
    pub status_filter: Option<String>,
    pub like_term: Option<String>,
}

/// The store query behind one page of the task list.
pub fn task_list_params(query: DesktopTaskQuery) -> (p: TaskListParams)
    requires
        (page_number(query.page) - 1) * page_size_within(query.page_size, 50, 200) <= i64::MAX,
    ensures
        p.page == page_number(query.page),
        p.page_size == page_size_within(query.page_size, 50, 200),
        p.offset == (p.page - 1) * p.page_size,
        opt_view(p.status_filter) == filter_value(opt_view(query.status_filter)),
        opt_view(p.like_term) == like_pattern(opt_view(query.search)),
{
    let page = sanitize_page(query.page);
    let page_size = sanitize_page_size(query.page_size, 50, 200);
    let offset = (page - 1) * page_size;
    TaskListParams {
        page,
        page_size,
        offset,
        status_filter: normalized_optional_filter(query.status_filter),
        like_term: build_like_term(query.search),
    }
}

/// What the log list asks the store for: the page, its size (100 unless
/// given, at most 200), the rows to skip, the task and level to match and the
/// pattern to search messages with.
#[derive(Debug, Clone)]
pub struct LogListParams {
    pub page: i64,
    pub page_size: i64,
    pub offset: i64,
    pub task_id_filter: Option<String>,
    pub level_filter: Option<String>,
    pub like_term: Option<String>,
}

/// The store query behind one page of the log list.
pub fn log_list_params(query: DesktopLogQuery) -> (p: LogListParams)
    requires
        (page_number(query.page) - 1) * page_size_within(query.page_size, 100, 200) <= i64::MAX,
    ensures
        p.page == page_number(query.page),
        p.page_size == page_size_within(query.page_size, 100, 200),
        p.offset == (p.page - 1) * p.page_size,
        opt_view(p.task_id_filter) == filter_value(opt_view(query.task_id_filter)),
        opt_view(p.level_filter) == filter_value(opt_view(query.level_filter)),
        opt_view(p.like_term) == like_pattern(opt_view(query.search)),
{
    let page = sanitize_page(query.page);
    let page_size = sanitize_page_size(query.page_size, 100, 200);
    let offset = (page - 1) * page_size;
    LogListParams {
        page,
        page_size,
        offset,
        task_id_filter: normalized_optional_filter(query.task_id_filter),
        level_filter: normalized_optional_filter(query.level_filter),
        like_term: build_like_term(query.search),
    }
}

} // verus!
