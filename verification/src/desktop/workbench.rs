//! The desktop workbench's list helpers: paging, filters, search, tags, the
//! batch actions on profiles and the states derived for profiles and proxies.
use vstd::prelude::*;

use super::types::{DesktopProfileBatchActionRequest, DesktopRunTimelineEntry};
use crate::bindings::{to_lowercase, unicode_lowercase};
use crate::text::{
    ascii_lower, chars_of, concat2, concat3, insert_sorted_unique, nonblank_trimmed, opt_str_view,
    opt_view, owned, push_char, seq_contains, str_contains, str_eq, str_in_list, strictly_sorted,
    strings_view, strs_view, to_ascii_lowercase, trim, trim_str, string_from_chars,
};

verus! {

/// The page a query asks for: at least the first.
pub fn sanitize_page(page: Option<i64>) -> (p: i64)
    ensures
        p == match page {
            Some(x) => if x < 1 { 1 } else { x },
            None => 1,
        },
{
    let p = match page {
        Some(x) => x,
        None => 1,
    };
    if p < 1 {
        1
    } else {
        p
    }
}

/// The page size a query asks for, `default_value` when it asks for none,
/// held between 1 and `max_value`.
pub fn sanitize_page_size(page_size: Option<i64>, default_value: i64, max_value: i64) -> (s: i64)
    requires
        1 <= max_value,
    ensures
        ({
            let v = match page_size {
                Some(x) => x,
                None => default_value,
            };
            s == if v < 1 { 1 } else if v > max_value { max_value } else { v }
        }),
{
    let v = match page_size {
        Some(x) => x,
        None => default_value,
    };
    if v < 1 {
        1
    } else if v > max_value {
        max_value
    } else {
        v
    }
}

/// A filter value: the trimmed text, unless it is empty or `all`.
pub open spec fn filter_value(raw: Option<Seq<char>>) -> Option<Seq<char>> {
    match raw {
        Some(v) => if trim(v).len() == 0 || trim(v) == "all"@ {
            None
        } else {
            Some(trim(v))
        },
        None => None,
    }
}

pub fn normalized_optional_filter(raw: Option<String>) -> (r: Option<String>)
    ensures
        opt_view(r) == filter_value(opt_view(raw)),
{
    match raw {
        Some(v) => {
            let t = trim_str(v.as_str());
            if t.as_str().is_empty() || str_eq(t.as_str(), "all") {
                None
            } else {
                Some(t)
            }
        },
        None => None,
    }
}

/// A `LIKE` pattern that finds the trimmed text anywhere, when it is not empty.
pub fn build_like_term(raw: Option<String>) -> (r: Option<String>)
    ensures
        opt_view(r) == match nonblank_trimmed(opt_view(raw)) {
            Some(t) => Some("%"@ + t + "%"@),
            None => None,
        },
{
    match raw {
        Some(v) => {
            let t = trim_str(v.as_str());
            if t.as_str().is_empty() {
                None
            } else {
                Some(concat3("%", t.as_str(), "%"))
            }
        },
        None => None,
    }
}

/// A stored integer flag read as a boolean: anything but zero is set.
pub fn parse_bool_flag(raw: Option<i64>) -> (r: Option<bool>)
    ensures
        r == match raw {
            Some(v) => Some(v != 0),
            None => None,
        },
{
    match raw {
        Some(v) => Some(v != 0),
        None => None,
    }
}

/// The trimmed, non-empty tags of all groups.
pub open spec fn tag_set(groups: Seq<Vec<String>>) -> Set<Seq<char>> {
    Set::new(
        |t: Seq<char>|
            exists|i: int, j: int|
                0 <= i < groups.len() && 0 <= j < groups[i]@.len() && t.len() > 0 && #[trigger] trim(
                    groups[i]@[j]@,
                ) == t,
    )
}

/// Gathers the tags of several groups: trimmed, without empties and
/// duplicates, in order.
pub fn collect_tags(tag_groups: &Vec<Vec<String>>) -> (r: Vec<String>)
    ensures
        strictly_sorted(strings_view(r@)),
        strings_view(r@).to_set() == tag_set(tag_groups@),
{
    let mut r: Vec<String> = Vec::new();
    let mut i: usize = 0;
    assert(strings_view(r@).to_set() =~= tag_set(tag_groups@.subrange(0, 0)));
    while i < tag_groups.len()
        invariant
            i <= tag_groups@.len(),
            strictly_sorted(strings_view(r@)),
            strings_view(r@).to_set() == tag_set(tag_groups@.subrange(0, i as int)),
        decreases tag_groups@.len() - i,
    {
        let group = &tag_groups[i];
        let ghost prev = tag_groups@.subrange(0, i as int);
        let ghost next = tag_groups@.subrange(0, i as int + 1);
        let mut j: usize = 0;
        while j < group.len()
            invariant
                i < tag_groups@.len(),
                *group == tag_groups@[i as int],
                prev == tag_groups@.subrange(0, i as int),
                next == tag_groups@.subrange(0, i as int + 1),
                j <= group@.len(),
                strictly_sorted(strings_view(r@)),
                strings_view(r@).to_set() == tag_set(prev).union(
                    Set::new(|t: Seq<char>| exists|k: int| 0 <= k < j && t.len() > 0 && #[trigger] trim(group@[k]@) == t),
                ),
            decreases group@.len() - j,
        {
            let t = trim_str(group[j].as_str());
            let ghost before = strings_view(r@).to_set();
            if !t.as_str().is_empty() {
                insert_sorted_unique(&mut r, t);
            }
            proof {
                let s_old = Set::new(|x: Seq<char>| exists|k: int| 0 <= k < j && x.len() > 0 && #[trigger] trim(group@[k]@) == x);
                let s_new = Set::new(|x: Seq<char>| exists|k: int| 0 <= k < j + 1 && x.len() > 0 && #[trigger] trim(group@[k]@) == x);
                assert forall|x: Seq<char>| strings_view(r@).to_set().contains(x) <==> tag_set(prev).union(s_new).contains(x) by {
                    if s_new.contains(x) {
                        let k = choose|k: int| 0 <= k < j + 1 && x.len() > 0 && #[trigger] trim(group@[k]@) == x;
                        if k < j {
                            assert(s_old.contains(x));
                        }
                    }
                    if s_old.contains(x) {
                        let k = choose|k: int| 0 <= k < j && x.len() > 0 && #[trigger] trim(group@[k]@) == x;
                        assert(s_new.contains(x));
                    }
                    if x == trim(group@[j as int]@) && x.len() > 0 {
                        assert(s_new.contains(x));
                    }
                }
                assert(strings_view(r@).to_set() =~= tag_set(prev).union(s_new));
            }
            j = j + 1;
        }
        proof {
            let s_all = Set::new(|x: Seq<char>| exists|k: int| 0 <= k < group@.len() && x.len() > 0 && #[trigger] trim(group@[k]@) == x);
            assert forall|x: Seq<char>| tag_set(next).contains(x) <==> tag_set(prev).union(s_all).contains(x) by {
                if tag_set(next).contains(x) {
                    let (a, b) = choose|a: int, b: int|
                        0 <= a < next.len() && 0 <= b < next[a]@.len() && x.len() > 0 && #[trigger] trim(next[a]@[b]@) == x;
                    if a < i {
                        assert(next[a] == prev[a]);
                        assert(tag_set(prev).contains(x));
                    } else {
                        assert(next[a] == *group);
                        assert(s_all.contains(x));
                    }
                }
                if tag_set(prev).contains(x) {
                    let (a, b) = choose|a: int, b: int|
                        0 <= a < prev.len() && 0 <= b < prev[a]@.len() && x.len() > 0 && #[trigger] trim(prev[a]@[b]@) == x;
                    assert(next[a] == prev[a]);
                    assert(tag_set(next).contains(x));
                }
                if s_all.contains(x) {
                    let k = choose|k: int| 0 <= k < group@.len() && x.len() > 0 && #[trigger] trim(group@[k]@) == x;
                    assert(next[i as int] == *group);
                    assert(trim(next[i as int]@[k]@) == x);
                    assert(tag_set(next).contains(x));
                }
            }
            assert(tag_set(next) =~= tag_set(prev).union(s_all));
        }
        i = i + 1;
    }
    assert(tag_groups@.subrange(0, i as int) =~= tag_groups@);
    r
}

/// A filter's comparable form: trimmed and lowercased.
pub open spec fn filter_form(v: Seq<char>) -> Seq<char> {
    unicode_lowercase(trim(v))
}

/// The filter values of a query, each in comparable form, without empties and
/// `all`, in order.
pub open spec fn filter_values(raw: Seq<Seq<char>>) -> Seq<Seq<char>>
    decreases raw.len(),
{
    if raw.len() == 0 {
        seq![]
    } else {
        let rest = filter_values(raw.drop_last());
        let v = filter_form(raw.last());
        if v.len() == 0 || v == "all"@ {
            rest
        } else {
            rest.push(v)
        }
    }
}

/// The filter values a query gives, `None` when it gives none that count.
pub fn normalize_filter_values(raw: &Option<Vec<String>>) -> (r: Option<Vec<String>>)
    ensures
        match raw {
            Some(values) => match r {
                Some(v) => filter_values(strings_view(values@)).len() > 0 && strings_view(v@) == filter_values(
                    strings_view(values@),
                ),
                None => filter_values(strings_view(values@)).len() == 0,
            },
            None => r is None,
        },
{
    let values = match raw {
        Some(v) => v,
        None => return None,
    };
    let mut out: Vec<String> = Vec::new();
    let mut i: usize = 0;
    while i < values.len()
        invariant
            i <= values@.len(),
            strings_view(out@) == filter_values(strings_view(values@).subrange(0, i as int)),
        decreases values@.len() - i,
    {
        proof {
            let sub = strings_view(values@).subrange(0, i as int + 1);
            assert(sub.drop_last() =~= strings_view(values@).subrange(0, i as int));
            assert(sub.last() == values@[i as int]@);
        }
        let t = trim_str(values[i].as_str());
        let v = to_lowercase(t.as_str());
        if !(v.as_str().is_empty() || str_eq(v.as_str(), "all")) {
            proof {
                crate::text::lemma_strings_view_push(out@, v);
            }
            out.push(v);
        }
        i = i + 1;
    }
    assert(strings_view(values@).subrange(0, i as int) =~= strings_view(values@));
    if out.len() == 0 {
        None
    } else {
        Some(out)
    }
}

/// Whether a value passes a filter: always without one, else when its
/// comparable form is one of the filter's values.
pub open spec fn passes_filter(value: Seq<char>, filters: Option<Vec<String>>) -> bool {
    match filters {
        Some(f) => strings_view(f@).contains(filter_form(value)),
        None => true,
    }
}

pub fn matches_filter(value: &str, filters: &Option<Vec<String>>) -> (r: bool)
    ensures
        r == passes_filter(value@, *filters),
{
    match filters {
        Some(f) => {
            let t = trim_str(value);
            let candidate = to_lowercase(t.as_str());
            crate::text::string_in_list(candidate.as_str(), f)
        },
        None => true,
    }
}

/// Whether any of the values passes a filter; all do without one.
pub open spec fn any_passes_filter(values: Seq<String>, filters: Option<Vec<String>>) -> bool {
    match filters {
        Some(f) => exists|i: int| 0 <= i < values.len() && strings_view(f@).contains(filter_form(#[trigger] values[i]@)),
        None => true,
    }
}

pub fn matches_any_filter(values: &Vec<String>, filters: &Option<Vec<String>>) -> (r: bool)
    ensures
        r == any_passes_filter(values@, *filters),
{
    if filters.is_none() {
        return true;
    }
    let mut i: usize = 0;
    while i < values.len()
        invariant
            i <= values@.len(),
            filters is Some,
            forall|k: int| 0 <= k < i ==> !passes_filter(#[trigger] values@[k]@, *filters),
        decreases values@.len() - i,
    {
        if matches_filter(values[i].as_str(), filters) {
            return true;
        }
        i = i + 1;
    }
    false
}

/// Whether a search matches: always when it is blank, else when some
/// haystack, lowercased, holds the trimmed and lowercased search text.
pub open spec fn search_matches(haystacks: Seq<String>, search: Option<Seq<char>>) -> bool {
    match search {
        Some(s) => if filter_form(s).len() == 0 {
            true
        } else {
            exists|i: int|
                0 <= i < haystacks.len() && seq_contains(unicode_lowercase(#[trigger] haystacks[i]@), filter_form(s))
        },
        None => true,
    }
}

pub fn matches_search(haystacks: &Vec<String>, search: &Option<String>) -> (r: bool)
    ensures
        r == search_matches(haystacks@, opt_view(*search)),
{
    let needle = match search {
        Some(s) => {
            let t = trim_str(s.as_str());
            to_lowercase(t.as_str())
        },
        None => return true,
    };
    if needle.as_str().is_empty() {
        return true;
    }
    let mut i: usize = 0;
    while i < haystacks.len()
        invariant
            i <= haystacks@.len(),
            search is Some,
            needle@ == filter_form(opt_view(*search)->0),
            forall|k: int| 0 <= k < i ==> !seq_contains(unicode_lowercase(#[trigger] haystacks@[k]@), needle@),
        decreases haystacks@.len() - i,
    {
        let lowered = to_lowercase(haystacks[i].as_str());
        if str_contains(lowered.as_str(), needle.as_str()) {
            return true;
        }
        i = i + 1;
    }
    false
}

/// The first item a page shows: `(page - 1) * page_size`, at least 0.
pub open spec fn page_start(page: i64, page_size: i64) -> int {
    if (page - 1) * page_size < 0 {
        0
    } else {
        (page - 1) * page_size
    }
}

/// One page of a list: the items from the page's first on, at most
/// `page_size` of them, each a clone of the listed item.
pub fn paginate_items<T: Clone>(items: &Vec<T>, page: i64, page_size: i64) -> (r: Vec<T>)
    requires
        page > i64::MIN,
        i64::MIN <= (page - 1) * page_size <= i64::MAX,
        page_size >= 0,
    ensures
        page_start(page, page_size) >= items@.len() ==> r@.len() == 0,
        page_start(page, page_size) < items@.len() ==> r@.len() == if page_start(page, page_size) + page_size
            > items@.len() {
            items@.len() - page_start(page, page_size)
        } else {
            page_size as int
        },
        forall|i: int| 0 <= i < r@.len() ==> cloned(items@[page_start(page, page_size) + i], #[trigger] r@[i]),
{
    let offset: i64 = (page - 1) * page_size;
    let start_i: i64 = if offset < 0 {
        0
    } else {
        offset
    };
    if start_i as u64 >= items.len() as u64 {
        return Vec::new();
    }
    let start: usize = start_i as usize;
    let remaining: usize = items.len() - start;
    let take: usize = if page_size as u64 >= remaining as u64 {
        remaining
    } else {
        page_size as usize
    };
    let mut r: Vec<T> = Vec::new();
    let mut k: usize = 0;
    let n: usize = items.len();
    while k < take
        invariant
            n == items@.len(),
            start + take <= n,
            start == page_start(page, page_size),
            k <= take,
            r@.len() == k,
            forall|i: int| 0 <= i < k ==> cloned(items@[start + i], #[trigger] r@[i]),
        decreases take - k,
    {
        r.push(items[start + k].clone());
        k = k + 1;
    }
    r
}


/// A profile as the workbench's lists read it from the store.
#[derive(Debug, Clone)]
pub struct ProfileBaseRecord {
    pub id: String,
    pub store_id: String,
    pub platform_id: String,
    pub device_family: String,
    pub country_anchor: String,
    pub region_anchor: Option<String>,
    pub locale: String,
    pub timezone: String,
    pub fingerprint_profile_id: String,
    pub behavior_profile_id: Option<String>,
    pub network_policy_id: String,
    pub continuity_policy_id: String,
    pub credential_ref: Option<String>,
    pub status: String,
    pub created_at: String,
    pub updated_at: String,
    pub fingerprint_tags: Vec<String>,
    pub behavior_tags: Vec<String>,
}

/// The actions the workbench runs on a batch of profiles.
#[derive(Debug, Clone, Copy, PartialEq, Eq, Structural)]
pub enum DesktopProfileBatchActionKind {
    Start,
    Stop,
    Open,
    CheckProxy,
    Sync,
}

pub open spec fn batch_action_name(kind: DesktopProfileBatchActionKind) -> Seq<char> {
    match kind {
        DesktopProfileBatchActionKind::Start => "startProfiles"@,
        DesktopProfileBatchActionKind::Stop => "stopProfiles"@,
        DesktopProfileBatchActionKind::Open => "openProfiles"@,
        DesktopProfileBatchActionKind::CheckProxy => "checkProfileProxies"@,
        DesktopProfileBatchActionKind::Sync => "syncProfiles"@,
    }
}

pub open spec fn batch_task_kind(kind: DesktopProfileBatchActionKind) -> Seq<char> {
    match kind {
        DesktopProfileBatchActionKind::Start => "desktop_profile_start"@,
        DesktopProfileBatchActionKind::Stop => "desktop_profile_stop"@,
        DesktopProfileBatchActionKind::Open => "desktop_profile_open"@,
        DesktopProfileBatchActionKind::CheckProxy => "desktop_profile_check_proxy"@,
        DesktopProfileBatchActionKind::Sync => "desktop_profile_sync"@,
    }
}

pub open spec fn batch_task_title(kind: DesktopProfileBatchActionKind) -> Seq<char> {
    match kind {
        DesktopProfileBatchActionKind::Start => "Start profile"@,
        DesktopProfileBatchActionKind::Stop => "Stop profile"@,
        DesktopProfileBatchActionKind::Open => "Open profile"@,
        DesktopProfileBatchActionKind::CheckProxy => "Check profile proxy"@,
        DesktopProfileBatchActionKind::Sync => "Sync profile"@,
    }
}

pub open spec fn batch_event_type(kind: DesktopProfileBatchActionKind) -> Seq<char> {
    match kind {
        DesktopProfileBatchActionKind::Start => "desktop_profile_start"@,
        DesktopProfileBatchActionKind::Stop => "desktop_profile_stop"@,
        DesktopProfileBatchActionKind::Open => "desktop_profile_open"@,
        DesktopProfileBatchActionKind::CheckProxy => "desktop_profile_proxy_check"@,
        DesktopProfileBatchActionKind::Sync => "desktop_profile_sync"@,
    }
}

/// The opening words of a batch action's log line.
pub open spec fn batch_log_lead(kind: DesktopProfileBatchActionKind) -> Seq<char> {
    match kind {
        DesktopProfileBatchActionKind::Start => "Desktop workbench requested start for profile "@,
        DesktopProfileBatchActionKind::Stop => "Desktop workbench requested stop for profile "@,
        DesktopProfileBatchActionKind::Open => "Desktop workbench opened profile "@,
        DesktopProfileBatchActionKind::CheckProxy => "Desktop workbench requested proxy verification for profile "@,
        DesktopProfileBatchActionKind::Sync => "Desktop workbench requested sync for profile "@,
    }
}

impl DesktopProfileBatchActionKind {
    pub fn action_name(self) -> (r: &'static str)
        ensures
            r@ == batch_action_name(self),
    {
        match self {
            DesktopProfileBatchActionKind::Start => "startProfiles",
            DesktopProfileBatchActionKind::Stop => "stopProfiles",
            DesktopProfileBatchActionKind::Open => "openProfiles",
            DesktopProfileBatchActionKind::CheckProxy => "checkProfileProxies",
            DesktopProfileBatchActionKind::Sync => "syncProfiles",
        }
    }

    pub fn task_kind(self) -> (r: &'static str)
        ensures
            r@ == batch_task_kind(self),
    {
        match self {
            DesktopProfileBatchActionKind::Start => "desktop_profile_start",
            DesktopProfileBatchActionKind::Stop => "desktop_profile_stop",
            DesktopProfileBatchActionKind::Open => "desktop_profile_open",
            DesktopProfileBatchActionKind::CheckProxy => "desktop_profile_check_proxy",
            DesktopProfileBatchActionKind::Sync => "desktop_profile_sync",
        }
    }

    pub fn task_title(self) -> (r: &'static str)
        ensures
            r@ == batch_task_title(self),
    {
        match self {
            DesktopProfileBatchActionKind::Start => "Start profile",
            DesktopProfileBatchActionKind::Stop => "Stop profile",
            DesktopProfileBatchActionKind::Open => "Open profile",
            DesktopProfileBatchActionKind::CheckProxy => "Check profile proxy",
            DesktopProfileBatchActionKind::Sync => "Sync profile",
        }
    }

    pub fn event_type(self) -> (r: &'static str)
        ensures
            r@ == batch_event_type(self),
    {
        match self {
            DesktopProfileBatchActionKind::Start => "desktop_profile_start",
            DesktopProfileBatchActionKind::Stop => "desktop_profile_stop",
            DesktopProfileBatchActionKind::Open => "desktop_profile_open",
            DesktopProfileBatchActionKind::CheckProxy => "desktop_profile_proxy_check",
            DesktopProfileBatchActionKind::Sync => "desktop_profile_sync",
        }
    }

    /// The log line recorded for one profile of the batch.
    pub fn log_message(self, profile: &ProfileBaseRecord) -> (m: String)
        ensures
            m@ == batch_log_lead(self) + profile.id@ + " ("@ + profile.store_id@ + " / "@ + profile.platform_id@
                + ")."@,
    {
        let lead: &str = match self {
            DesktopProfileBatchActionKind::Start => "Desktop workbench requested start for profile ",
            DesktopProfileBatchActionKind::Stop => "Desktop workbench requested stop for profile ",
            DesktopProfileBatchActionKind::Open => "Desktop workbench opened profile ",
            DesktopProfileBatchActionKind::CheckProxy => "Desktop workbench requested proxy verification for profile ",
            DesktopProfileBatchActionKind::Sync => "Desktop workbench requested sync for profile ",
        };
        let a = concat3(lead, profile.id.as_str(), " (");
        let b = concat3(a.as_str(), profile.store_id.as_str(), " / ");
        concat3(b.as_str(), profile.platform_id.as_str(), ").")
    }
}

/// The distinct trimmed, non-empty ids of a batch, in the order first given.
pub open spec fn batch_ids(raw: Seq<Seq<char>>) -> Seq<Seq<char>>
    decreases raw.len(),
{
    if raw.len() == 0 {
        seq![]
    } else {
        let rest = batch_ids(raw.drop_last());
        let t = trim(raw.last());
        if t.len() == 0 || rest.contains(t) {
            rest
        } else {
            rest.push(t)
        }
    }
}

/// The profiles a batch request names: trimmed, without empties, each once,
/// in the order first named.
pub fn normalize_profile_batch_ids(request: &DesktopProfileBatchActionRequest) -> (r: Vec<String>)
    ensures
        strings_view(r@) == batch_ids(strings_view(request.profile_ids@)),
{
    let ids = &request.profile_ids;
    let mut out: Vec<String> = Vec::new();
    let mut i: usize = 0;
    while i < ids.len()
        invariant
            i <= ids@.len(),
            strings_view(out@) == batch_ids(strings_view(ids@).subrange(0, i as int)),
        decreases ids@.len() - i,
    {
        proof {
            let sub = strings_view(ids@).subrange(0, i as int + 1);
            assert(sub.drop_last() =~= strings_view(ids@).subrange(0, i as int));
            assert(sub.last() == ids@[i as int]@);
        }
        let t = trim_str(ids[i].as_str());
        if !t.as_str().is_empty() && !crate::text::string_in_list(t.as_str(), &out) {
            proof {
                crate::text::lemma_strings_view_push(out@, t);
            }
            out.push(t);
        }
        i = i + 1;
    }
    assert(strings_view(ids@).subrange(0, i as int) =~= strings_view(ids@));
    out
}

/// How a profile's runtime appears: stopped when disabled, starting or
/// running with its current task, syncing with pending actions, in error
/// after a failed, timed-out or cancelled task, idle otherwise.
pub open spec fn profile_runtime_status(
    profile_status: Seq<char>,
    current_task_status: Option<Seq<char>>,
    last_task_status: Option<Seq<char>>,
    pending_action_count: i64,
) -> Seq<char> {
    if ascii_lower(profile_status) == "disabled"@ {
        "stopped"@
    } else if current_task_status == Some("queued"@) {
        "starting"@
    } else if current_task_status == Some("running"@) {
        "running"@
    } else if pending_action_count > 0 {
        "syncing"@
    } else if last_task_status == Some("failed"@) || last_task_status == Some("timed_out"@) || last_task_status
        == Some("cancelled"@) {
        "error"@
    } else {
        "idle"@
    }
}

fn opt_is(v: Option<&str>, lit: &str) -> (r: bool)
    ensures
        r == (opt_str_view(v) == Some(lit@)),
{
    match v {
        Some(x) => str_eq(x, lit),
        None => false,
    }
}

pub fn derive_profile_runtime_status(
    profile_status: &str,
    current_task_status: Option<&str>,
    last_task_status: Option<&str>,
    pending_action_count: i64,
) -> (r: String)
    ensures
        r@ == profile_runtime_status(
            profile_status@,
            opt_str_view(current_task_status),
            opt_str_view(last_task_status),
            pending_action_count,
        ),
{
    let lowered = to_ascii_lowercase(profile_status);
    if str_eq(lowered.as_str(), "disabled") {
        return owned("stopped");
    }
    if opt_is(current_task_status, "queued") {
        return owned("starting");
    }
    if opt_is(current_task_status, "running") {
        return owned("running");
    }
    if pending_action_count > 0 {
        return owned("syncing");
    }
    if opt_is(last_task_status, "failed") || opt_is(last_task_status, "timed_out") || opt_is(
        last_task_status,
        "cancelled",
    ) {
        return owned("error");
    }
    owned("idle")
}

/// The status words that read as success.
pub open spec fn successish_words() -> Seq<Seq<char>> {
    seq!["ok"@, "pass"@, "passed"@, "success"@, "succeeded"@, "healthy"@]
}

/// The status words that read as failure.
pub open spec fn failureish_words() -> Seq<Seq<char>> {
    seq!["fail"@, "failed"@, "error"@, "timeout"@, "timed_out"@, "unhealthy"@]
}

pub fn is_successish_status(status: &str) -> (r: bool)
    ensures
        r == successish_words().contains(ascii_lower(trim(status@))),
{
    let t = trim_str(status);
    let lowered = to_ascii_lowercase(t.as_str());
    let words: Vec<&str> = vec!["ok", "pass", "passed", "success", "succeeded", "healthy"];
    assert(strs_view(words@) =~= successish_words());
    str_in_list(lowered.as_str(), &words)
}

pub fn is_failureish_status(status: &str) -> (r: bool)
    ensures
        r == failureish_words().contains(ascii_lower(trim(status@))),
{
    let t = trim_str(status);
    let lowered = to_ascii_lowercase(t.as_str());
    let words: Vec<&str> = vec!["fail", "failed", "error", "timeout", "timed_out", "unhealthy"];
    assert(strs_view(words@) =~= failureish_words());
    str_in_list(lowered.as_str(), &words)
}

/// Whether a proxy was reachable at its last smoke check: both probes when
/// both ran, else the one that ran, else what the smoke status says.
pub open spec fn proxy_reachable(protocol_ok: Option<bool>, upstream_ok: Option<bool>, smoke_status: Option<Seq<char>>) -> Option<bool> {
    match (protocol_ok, upstream_ok) {
        (Some(p), Some(u)) => Some(p && u),
        (Some(p), None) => Some(p),
        (None, Some(u)) => Some(u),
        (None, None) => match smoke_status {
            Some(s) => if successish_words().contains(ascii_lower(trim(s))) {
                Some(true)
            } else if failureish_words().contains(ascii_lower(trim(s))) {
                Some(false)
            } else {
                None
            },
            None => None,
        },
    }
}

pub fn derive_proxy_reachable(
    last_smoke_protocol_ok: Option<bool>,
    last_smoke_upstream_ok: Option<bool>,
    last_smoke_status: Option<&str>,
) -> (r: Option<bool>)
    ensures
        r == proxy_reachable(last_smoke_protocol_ok, last_smoke_upstream_ok, opt_str_view(last_smoke_status)),
{
    match (last_smoke_protocol_ok, last_smoke_upstream_ok) {
        (Some(p), Some(u)) => Some(p && u),
        (Some(p), None) => Some(p),
        (None, Some(u)) => Some(u),
        (None, None) => match last_smoke_status {
            Some(s) => if is_successish_status(s) {
                Some(true)
            } else if is_failureish_status(s) {
                Some(false)
            } else {
                None
            },
            None => None,
        },
    }
}

/// The shape of a template's stored event chain: absent, a list of steps,
/// an object (with the length of its `steps` list, when it has one), or
/// another JSON value.
#[derive(Debug, Clone, Copy)]
pub enum TemplateStepsShape {
    Absent,
    List { len: u64 },
    Object { steps_len: Option<u64> },
    Other,
}

pub open spec fn step_count_of(shape: TemplateStepsShape) -> int {
    match shape {
        TemplateStepsShape::List { len } => len as int,
        TemplateStepsShape::Object { steps_len } => match steps_len {
            Some(n) => n as int,
            None => 0,
        },
        _ => 0,
    }
}

/// How many steps a template's event chain holds.
pub fn template_step_count(shape: TemplateStepsShape) -> (n: i64)
    requires
        step_count_of(shape) <= i64::MAX,
    ensures
        n as int == step_count_of(shape),
{
    match shape {
        TemplateStepsShape::List { len } => len as i64,
        TemplateStepsShape::Object { steps_len } => match steps_len {
            Some(n) => n as i64,
            None => 0,
        },
        _ => 0,
    }
}

/// How ready a store override is: a sample with recorded steps, a baseline
/// with any path, a draft otherwise.
pub fn derive_store_override_readiness(
    warm_paths: &Vec<String>,
    revisit_paths: &Vec<String>,
    stateful_paths: &Vec<String>,
    high_risk_paths: &Vec<String>,
    event_chain_templates: TemplateStepsShape,
) -> (r: String)
    requires
        step_count_of(event_chain_templates) <= i64::MAX,
    ensures
        r@ == if step_count_of(event_chain_templates) > 0 {
            "sample_ready"@
        } else if warm_paths@.len() > 0 || revisit_paths@.len() > 0 || stateful_paths@.len() > 0
            || high_risk_paths@.len() > 0 {
            "baseline"@
        } else {
            "draft"@
        },
{
    if template_step_count(event_chain_templates) > 0 {
        return owned("sample_ready");
    }
    if warm_paths.len() > 0 || revisit_paths.len() > 0 || stateful_paths.len() > 0 || high_risk_paths.len() > 0 {
        return owned("baseline");
    }
    owned("draft")
}

/// A character kept in a manifest file name: ASCII letters, digits, `-`, `_`.
pub open spec fn manifest_char(c: char) -> char {
    if ('a' <= c && c <= 'z') || ('A' <= c && c <= 'Z') || ('0' <= c && c <= '9') || c == '-' || c == '_' {
        c
    } else {
        '_'
    }
}

/// Makes a text safe in a file name: every other character becomes `_`.
pub fn sanitize_manifest_file_fragment(raw: &str) -> (r: String)
    ensures
        r@ == Seq::new(raw@.len(), |i: int| manifest_char(raw@[i])),
{
    let cs = chars_of(raw);
    let mut r = String::new();
    let mut i: usize = 0;
    while i < cs.len()
        invariant
            cs@ == raw@,
            i <= cs@.len(),
            r@ == Seq::new(i as nat, |k: int| manifest_char(raw@[k])),
        decreases cs@.len() - i,
    {
        let c = cs[i];
        let kept = if ('a' <= c && c <= 'z') || ('A' <= c && c <= 'Z') || ('0' <= c && c <= '9') || c == '-' || c
            == '_' {
            c
        } else {
            '_'
        };
        push_char(&mut r, kept);
        i = i + 1;
        assert(r@ =~= Seq::new(i as nat, |k: int| manifest_char(raw@[k])));
    }
    assert(r@ =~= Seq::new(raw@.len(), |k: int| manifest_char(raw@[k])));
    r
}

/// A preview: the trimmed text, cut to `max_chars` characters and marked with
/// `...` when it is longer.
pub open spec fn preview_text(v: Seq<char>, max_chars: usize) -> Seq<char> {
    if trim(v).len() <= max_chars {
        trim(v)
    } else {
        trim(v).subrange(0, max_chars as int) + "..."@
    }
}

pub fn trim_preview(value: Option<String>, max_chars: usize) -> (r: Option<String>)
    ensures
        opt_view(r) == match opt_view(value) {
            Some(v) => Some(preview_text(v, max_chars)),
            None => None,
        },
{
    match value {
        Some(preview) => {
            let t = trim_str(preview.as_str());
            let cs = chars_of(t.as_str());
            if cs.len() <= max_chars {
                Some(t)
            } else {
                let shortened = string_from_chars(&cs, 0, max_chars);
                Some(concat2(shortened.as_str(), "..."))
            }
        },
        None => None,
    }
}

/// A local asset is ready when its path exists, else provisioned on demand.
pub fn local_asset_entry_status(path_exists: bool) -> (r: String)
    ensures
        r@ == if path_exists {
            "ready"@
        } else {
            "provision_on_demand"@
        },
{
    if path_exists {
        owned("ready")
    } else {
        owned("provision_on_demand")
    }
}

/// Appends an entry to a run's timeline.
pub fn push_timeline_entry(
    timeline: &mut Vec<DesktopRunTimelineEntry>,
    id: String,
    label: String,
    status: String,
    detail: Option<String>,
    created_at: Option<String>,
)
    ensures
        final(timeline)@ == old(timeline)@.push(
            DesktopRunTimelineEntry { id, label, status, detail, created_at },
        ),
{
    timeline.push(DesktopRunTimelineEntry { id, label, status, detail, created_at });
}


/// The ids of a batch are trimmed, non-empty and each listed once, and every
/// id the request names (once trimmed, when not empty) is among them.
pub proof fn lemma_batch_ids_distinct(raw: Seq<Seq<char>>)
    ensures
        forall|i: int| 0 <= i < batch_ids(raw).len() ==> (#[trigger] batch_ids(raw)[i]).len() > 0,
        forall|i: int, j: int| 0 <= i < j < batch_ids(raw).len() ==> #[trigger] batch_ids(raw)[i] != #[trigger] batch_ids(raw)[j],
        forall|k: int| 0 <= k < raw.len() && trim(#[trigger] raw[k]).len() > 0 ==> batch_ids(raw).contains(trim(raw[k])),
    decreases raw.len(),
{
    if raw.len() > 0 {
        let pre = raw.drop_last();
        lemma_batch_ids_distinct(pre);
        let rest = batch_ids(pre);
        let r = batch_ids(raw);
        let t = trim(raw.last());
        assert forall|i: int| 0 <= i < r.len() implies (#[trigger] r[i]).len() > 0 by {
            if i < rest.len() {
                assert(r[i] == rest[i]);
            }
        }
        assert forall|i: int, j: int| 0 <= i < j < r.len() implies #[trigger] r[i] != #[trigger] r[j] by {
            if j < rest.len() {
                assert(r[i] == rest[i] && r[j] == rest[j]);
            } else {
                assert(r[i] == rest[i]);
                assert(!rest.contains(t));
            }
        }
        assert forall|k: int| 0 <= k < raw.len() && trim(#[trigger] raw[k]).len() > 0 implies r.contains(trim(raw[k])) by {
            if k < raw.len() - 1 {
                assert(pre[k] == raw[k]);
                assert(rest.contains(trim(pre[k])));
                let m = choose|m: int| 0 <= m < rest.len() && rest[m] == trim(pre[k]);
                if rest.contains(t) || t.len() == 0 {
                    assert(r[m] == rest[m]);
                } else {
                    assert(r[m] == rest[m]);
                }
            } else {
                assert(raw[k] == raw.last());
                if !rest.contains(t) {
                    assert(r[rest.len() as int] == t);
                }
            }
        }
    }
}

} // verus!
