//! The task list: a stored task row and what its result says, made into the
//! item the desktop shows.
use vstd::prelude::*;

use super::types::DesktopTaskItem;
use super::workbench::{preview_text, trim_preview};
use crate::behavior::{browser_task_kinds, is_browser_task_kind};
use crate::text::{copy_opt, opt_view, owned};

verus! {

/// The columns of a task row that the list reads.
#[derive(Debug, Clone)]
pub struct TaskRowFields {
    pub id: String,
    pub kind: String,
    pub status: String,
    pub priority: i32,
    pub persona_id: Option<String>,
    pub platform_id: Option<String>,
    pub manual_gate_request_id: Option<String>,
    pub error_message: Option<String>,
    pub created_at: String,
    pub started_at: Option<String>,
    pub finished_at: Option<String>,
}

/// What a task's result JSON holds at the places the list looks: each field
/// is `None` where the path is missing or holds a value of another JSON type.
#[derive(Debug, Clone)]
pub struct TaskResultFields {
    /// `title`
    pub title: Option<String>,
    /// `browser.title`
    pub browser_title: Option<String>,
    /// `final_url`
    pub final_url: Option<String>,
    /// `finalUrl`
    pub final_url_camel: Option<String>,
    /// `browser.final_url`
    pub browser_final_url: Option<String>,
    /// `content_preview`
    pub content_preview: Option<String>,
    /// `contentPreview`
    pub content_preview_camel: Option<String>,
    /// `content.preview`
    pub content_nested_preview: Option<String>,
    /// `content_kind`
    pub content_kind: Option<String>,
    /// `contentKind`
    pub content_kind_camel: Option<String>,
    /// `content.kind`
    pub content_nested_kind: Option<String>,
    /// `content_ready`
    pub content_ready: Option<bool>,
    /// `contentReady`
    pub content_ready_camel: Option<bool>,
    /// `content.ready`
    pub content_nested_ready: Option<bool>,
}

/// The first of the candidates that is present.
pub open spec fn first_present<T>(a: Option<T>, b: Option<T>, c: Option<T>) -> Option<T> {
    match a {
        Some(x) => Some(x),
        None => match b {
            Some(x) => Some(x),
            None => c,
        },
    }
}

/// The title a result gives: `title`, else `browser.title`.
pub open spec fn result_title(r: Option<TaskResultFields>) -> Option<Seq<char>> {
    match r {
        Some(f) => first_present(opt_view(f.title), opt_view(f.browser_title), None),
        None => None,
    }
}

/// The final URL a result gives: `final_url`, `finalUrl`, `browser.final_url`.
pub open spec fn result_final_url(r: Option<TaskResultFields>) -> Option<Seq<char>> {
    match r {
        Some(f) => first_present(opt_view(f.final_url), opt_view(f.final_url_camel), opt_view(f.browser_final_url)),
        None => None,
    }
}

/// The content preview a result gives, before it is trimmed and cut.
pub open spec fn result_preview(r: Option<TaskResultFields>) -> Option<Seq<char>> {
    match r {
        Some(f) => first_present(
            opt_view(f.content_preview),
            opt_view(f.content_preview_camel),
            opt_view(f.content_nested_preview),
        ),
        None => None,
    }
}

/// The content kind a result gives.
pub open spec fn result_content_kind(r: Option<TaskResultFields>) -> Option<Seq<char>> {
    match r {
        Some(f) => first_present(
            opt_view(f.content_kind),
            opt_view(f.content_kind_camel),
            opt_view(f.content_nested_kind),
        ),
        None => None,
    }
}

/// Whether a result says its content is ready.
pub open spec fn result_content_ready(r: Option<TaskResultFields>) -> Option<bool> {
    match r {
        Some(f) => first_present(f.content_ready, f.content_ready_camel, f.content_nested_ready),
        None => None,
    }
}

/// The longest content preview the list shows, in characters.
pub const TASK_PREVIEW_MAX_CHARS: usize = 180;

fn first_present_text(a: &Option<String>, b: &Option<String>, c: &Option<String>) -> (r: Option<String>)
    ensures
        opt_view(r) == first_present(opt_view(*a), opt_view(*b), opt_view(*c)),
{
    if a.is_some() {
        copy_opt(a)
    } else if b.is_some() {
        copy_opt(b)
    } else {
        copy_opt(c)
    }
}

fn first_present_flag(a: Option<bool>, b: Option<bool>, c: Option<bool>) -> (r: Option<bool>)
    ensures
        r == first_present(a, b, c),
{
    if a.is_some() {
        a
    } else if b.is_some() {
        b
    } else {
        c
    }
}

/// The list item of a task: the row's columns, whether its kind runs in a
/// browser, and the title, final URL, content preview (trimmed, cut to
/// [`TASK_PREVIEW_MAX_CHARS`] characters), content kind and readiness that
/// its result gives.
pub fn task_item_from_row(row: &TaskRowFields, result: &Option<TaskResultFields>) -> (item: DesktopTaskItem)
    ensures
        item.id@ == row.id@,
        item.kind@ == row.kind@,
        item.status@ == row.status@,
        item.priority == row.priority,
        opt_view(item.persona_id) == opt_view(row.persona_id),
        opt_view(item.platform_id) == opt_view(row.platform_id),
        opt_view(item.manual_gate_request_id) == opt_view(row.manual_gate_request_id),
        item.is_browser_task == browser_task_kinds().contains(row.kind@),
        opt_view(item.title) == result_title(*result),
        opt_view(item.final_url) == result_final_url(*result),
        opt_view(item.content_preview) == match result_preview(*result) {
            Some(p) => Some(preview_text(p, TASK_PREVIEW_MAX_CHARS)),
            None => None,
        },
        opt_view(item.content_kind) == result_content_kind(*result),
        item.content_ready == result_content_ready(*result),
        opt_view(item.error_message) == opt_view(row.error_message),
        item.created_at@ == row.created_at@,
        opt_view(item.started_at) == opt_view(row.started_at),
        opt_view(item.finished_at) == opt_view(row.finished_at),
{
    let (title, final_url, preview, content_kind, content_ready) = match result {
        Some(f) => {
            let none: Option<String> = None;
            (
                first_present_text(&f.title, &f.browser_title, &none),
                first_present_text(&f.final_url, &f.final_url_camel, &f.browser_final_url),
                first_present_text(&f.content_preview, &f.content_preview_camel, &f.content_nested_preview),
                first_present_text(&f.content_kind, &f.content_kind_camel, &f.content_nested_kind),
                first_present_flag(f.content_ready, f.content_ready_camel, f.content_nested_ready),
            )
        },
        None => (None, None, None, None, None),
    };
    DesktopTaskItem {
        id: owned(row.id.as_str()),
        kind: owned(row.kind.as_str()),
        status: owned(row.status.as_str()),
        priority: row.priority,
        persona_id: copy_opt(&row.persona_id),
        platform_id: copy_opt(&row.platform_id),
        manual_gate_request_id: copy_opt(&row.manual_gate_request_id),
        is_browser_task: is_browser_task_kind(row.kind.as_str()),
        title,
        final_url,
        content_preview: trim_preview(preview, TASK_PREVIEW_MAX_CHARS),
        content_kind,
        content_ready,
        error_message: copy_opt(&row.error_message),
        created_at: owned(row.created_at.as_str()),
        started_at: copy_opt(&row.started_at),
        finished_at: copy_opt(&row.finished_at),
    }
}

} // verus!
