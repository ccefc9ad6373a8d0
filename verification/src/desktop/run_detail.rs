//! The detail view of a task's run: its anchor, its timeline (ordered by time,
//! ties kept in the order they were added), its message, headline and counts.
use vstd::prelude::*;

use super::types::{DesktopReadRunDetailQuery, DesktopRunArtifact, DesktopRunDetailSummary, DesktopRunTimelineEntry};
use super::workbench::push_timeline_entry;
use crate::numtext::{decimal_digits, decimal_text, i64_to_text, u64_to_text};
use crate::text::{
    ascii_lower, concat2, concat3, copy_opt, lex_lt, nonblank_trimmed, normalized_optional_text, opt_view,
    owned, str_eq, str_lt, to_ascii_lowercase,
};

verus! {

/// Why a run detail could not be read.
#[derive(Debug, Clone)]
pub enum RunDetailError {
    AnchorRequired,
}

impl RunDetailError {
    /// The message the refusal is reported with.
    pub fn message(&self) -> (m: String)
        ensures
            m@ == "readRunDetail requires task_id or run_id"@,
    {
        owned("readRunDetail requires task_id or run_id")
    }
}

/// The task and run a detail query names, trimmed; at least one is needed.
pub fn run_detail_anchor(query: &DesktopReadRunDetailQuery) -> (r: Result<(Option<String>, Option<String>), RunDetailError>)
    ensures
        match r {
            Ok((task, run)) => opt_view(task) == nonblank_trimmed(opt_view(query.task_id)) && opt_view(run)
                == nonblank_trimmed(opt_view(query.run_id)) && (task is Some || run is Some),
            Err(_) => nonblank_trimmed(opt_view(query.task_id)) is None && nonblank_trimmed(opt_view(query.run_id)) is None,
        },
{
    let task = normalized_optional_text(copy_opt(&query.task_id));
    let run = normalized_optional_text(copy_opt(&query.run_id));
    if task.is_none() && run.is_none() {
        return Err(RunDetailError::AnchorRequired);
    }
    Ok((task, run))
}

/// The texts a task's or run's result JSON holds at the paths the detail view
/// reads.
#[derive(Debug, Clone)]
pub struct ResultTextFields {
    pub message: Option<String>,
    pub error_message: Option<String>,
    pub error_nested_message: Option<String>,
    pub summary: Option<String>,
    pub title: Option<String>,
    pub template_name: Option<String>,
    pub headline: Option<String>,
}

/// The message a result gives: `message`, else `error_message`, else
/// `error.message`, else `summary`.
pub open spec fn result_message(r: Option<ResultTextFields>) -> Option<Seq<char>> {
    match r {
        Some(f) => match opt_view(f.message) {
            Some(m) => Some(m),
            None => match opt_view(f.error_message) {
                Some(m) => Some(m),
                None => match opt_view(f.error_nested_message) {
                    Some(m) => Some(m),
                    None => opt_view(f.summary),
                },
            },
        },
        None => None,
    }
}

pub fn pick_message_from_result(r: &Option<ResultTextFields>) -> (m: Option<String>)
    ensures
        opt_view(m) == result_message(*r),
{
    match r {
        Some(f) => match &f.message {
            Some(m) => Some(owned(m.as_str())),
            None => match &f.error_message {
                Some(m) => Some(owned(m.as_str())),
                None => match &f.error_nested_message {
                    Some(m) => Some(owned(m.as_str())),
                    None => copy_opt(&f.summary),
                },
            },
        },
        None => None,
    }
}

/// A task as the detail view reads it.
#[derive(Debug, Clone)]
pub struct RunDetailTaskRow {
    pub id: String,
    pub kind: String,
    pub status: String,
    pub manual_gate_request_id: Option<String>,
    pub manual_gate_status: Option<String>,
    pub error_message: Option<String>,
    pub created_at: String,
    pub started_at: Option<String>,
    pub finished_at: Option<String>,
    pub result: Option<ResultTextFields>,
}

/// The latest run of the task (or the requested one).
#[derive(Debug, Clone)]
pub struct RunDetailRunRow {
    pub id: String,
    pub status: String,
    pub attempt: i64,
    pub runner_kind: String,
    pub started_at: Option<String>,
    pub finished_at: Option<String>,
    pub error_message: Option<String>,
    pub result: Option<ResultTextFields>,
}

/// One log line of the task.
#[derive(Debug, Clone)]
pub struct RunDetailLogRow {
    pub id: String,
    pub run_id: Option<String>,
    pub level: String,
    pub message: String,
    pub created_at: String,
}

/// The texts an artifact's metadata JSON holds at the paths the view reads.
#[derive(Debug, Clone)]
pub struct ArtifactMetadataFields {
    pub label: Option<String>,
    pub title: Option<String>,
    pub kind: Option<String>,
    pub status: Option<String>,
}

/// The artifact a stored row shows: labelled by its metadata's `label`,
/// `title` or `kind`, else by its own kind.
pub fn build_run_artifact(
    id: String,
    kind: &str,
    storage_path: Option<String>,
    metadata: &Option<ArtifactMetadataFields>,
    created_at: Option<String>,
) -> (a: DesktopRunArtifact)
    ensures
        a.id == id,
        a.label@ == match metadata {
            Some(m) => match opt_view(m.label) {
                Some(l) => l,
                None => match opt_view(m.title) {
                    Some(l) => l,
                    None => match opt_view(m.kind) {
                        Some(l) => l,
                        None => kind@,
                    },
                },
            },
            None => kind@,
        },
        a.path == storage_path,
        opt_view(a.status) == match metadata {
            Some(m) => opt_view(m.status),
            None => None,
        },
        a.created_at == created_at,
{
    let label = match metadata {
        Some(m) => match &m.label {
            Some(l) => owned(l.as_str()),
            None => match &m.title {
                Some(l) => owned(l.as_str()),
                None => match &m.kind {
                    Some(l) => owned(l.as_str()),
                    None => owned(kind),
                },
            },
        },
        None => owned(kind),
    };
    let status = match metadata {
        Some(m) => copy_opt(&m.status),
        None => None,
    };
    DesktopRunArtifact { id, label, path: storage_path, status, created_at }
}

/// A timeline entry as a value of the specification.
pub struct TimelineView {
    pub id: Seq<char>,
    pub label: Seq<char>,
    pub status: Seq<char>,
    pub detail: Option<Seq<char>>,
    pub created_at: Option<Seq<char>>,
}

pub open spec fn entry_view(e: DesktopRunTimelineEntry) -> TimelineView {
    TimelineView {
        id: e.id@,
        label: e.label@,
        status: e.status@,
        detail: opt_view(e.detail),
        created_at: opt_view(e.created_at),
    }
}

/// The views of a timeline.
pub open spec fn timeline_view(s: Seq<DesktopRunTimelineEntry>) -> Seq<TimelineView> {
    Seq::new(s.len(), |i: int| entry_view(s[i]))
}

/// Whether time `a` sorts no later than `b` (an absent time sorts first).
pub open spec fn time_le(a: Option<Seq<char>>, b: Option<Seq<char>>) -> bool {
    match (a, b) {
        (None, _) => true,
        (Some(_), None) => false,
        (Some(x), Some(y)) => !lex_lt(y, x),
    }
}

/// The entries with `e` inserted after every entry that sorts no later.
pub open spec fn insert_by_time(sorted: Seq<TimelineView>, e: TimelineView) -> Seq<TimelineView>
    decreases sorted.len(),
{
    if sorted.len() == 0 {
        seq![e]
    } else if time_le(sorted.last().created_at, e.created_at) {
        sorted.push(e)
    } else {
        insert_by_time(sorted.drop_last(), e).push(sorted.last())
    }
}

/// The entries ordered by time, entries of equal time in their first order.
pub open spec fn sort_by_time(s: Seq<TimelineView>) -> Seq<TimelineView>
    decreases s.len(),
{
    if s.len() == 0 {
        seq![]
    } else {
        insert_by_time(sort_by_time(s.drop_last()), s.last())
    }
}

fn opt_time_le(a: &Option<String>, b: &Option<String>) -> (r: bool)
    ensures
        r == time_le(opt_view(*a), opt_view(*b)),
{
    match (a, b) {
        (None, _) => true,
        (Some(_), None) => false,
        (Some(x), Some(y)) => !str_lt(y.as_str(), x.as_str()),
    }
}

/// Inserts an entry into a timeline ordered by time.
fn insert_entry(sorted: &mut Vec<DesktopRunTimelineEntry>, e: DesktopRunTimelineEntry)
    ensures
        timeline_view(final(sorted)@) == insert_by_time(timeline_view(old(sorted)@), entry_view(e)),
{
    let ghost s0 = timeline_view(sorted@);
    let ghost ev = entry_view(e);
    let mut i: usize = sorted.len();
    assert(s0.subrange(0, s0.len() as int) =~= s0);
    assert(insert_by_time(s0, ev) + s0.subrange(s0.len() as int, s0.len() as int) =~= insert_by_time(s0, ev));
    while i > 0 && !opt_time_le(&sorted[i - 1].created_at, &e.created_at)
        invariant
            timeline_view(sorted@) == s0,
            i <= s0.len(),
            ev == entry_view(e),
            insert_by_time(s0, ev) == insert_by_time(s0.subrange(0, i as int), ev) + s0.subrange(i as int, s0.len() as int),
        decreases i,
    {
        proof {
            let pre = s0.subrange(0, i as int);
            assert(pre.last() == s0[i - 1]);
            assert(s0[i - 1] == entry_view(sorted@[i - 1]));
            assert(pre.drop_last() =~= s0.subrange(0, i - 1));
            assert(insert_by_time(pre, ev) == insert_by_time(pre.drop_last(), ev).push(pre.last()));
            assert(insert_by_time(pre.drop_last(), ev).push(pre.last()) + s0.subrange(i as int, s0.len() as int)
                =~= insert_by_time(s0.subrange(0, i - 1), ev) + s0.subrange(i - 1, s0.len() as int));
        }
        i = i - 1;
    }
    proof {
        let pre = s0.subrange(0, i as int);
        if i > 0 {
            assert(pre.last() == s0[i - 1]);
            assert(s0[i - 1] == entry_view(sorted@[i - 1]));
        }
        assert(insert_by_time(pre, ev) =~= pre.push(ev));
        assert(pre.push(ev) + s0.subrange(i as int, s0.len() as int) =~= s0.insert(i as int, ev));
    }
    sorted.insert(i, e);
    proof {
        assert(timeline_view(sorted@) =~= s0.insert(i as int, ev));
    }
}

/// Orders a timeline by time, keeping entries of equal time in their order.
pub fn sort_timeline(entries: Vec<DesktopRunTimelineEntry>) -> (r: Vec<DesktopRunTimelineEntry>)
    ensures
        timeline_view(r@) == sort_by_time(timeline_view(entries@)),
{
    let ghost all = timeline_view(entries@);
    let mut rest = entries;
    let mut sorted: Vec<DesktopRunTimelineEntry> = Vec::new();
    let n = rest.len();
    let mut i: usize = 0;
    assert(sort_by_time(all.subrange(0, 0)) =~= timeline_view(sorted@));
    assert(timeline_view(rest@) =~= all.subrange(0, n as int));
    while i < n
        invariant
            n == all.len(),
            i <= n,
            timeline_view(rest@) == all.subrange(i as int, n as int),
            timeline_view(sorted@) == sort_by_time(all.subrange(0, i as int)),
        decreases n - i,
    {
        proof {
            let sub = all.subrange(0, i as int + 1);
            assert(sub.drop_last() =~= all.subrange(0, i as int));
            assert(sub.last() == all[i as int]);
            assert(timeline_view(rest@).len() == rest@.len());
            assert(timeline_view(rest@)[0] == all[i as int]);
        }
        let ghost before = rest@;
        let e = rest.remove(0);
        proof {
            assert(entry_view(e) == entry_view(before[0]));
            assert(timeline_view(before) == all.subrange(i as int, n as int));
            assert forall|k: int| 0 <= k < rest@.len() implies #[trigger] timeline_view(rest@)[k] == all.subrange(i as int + 1, n as int)[k] by {
                assert(rest@[k] == before[k + 1]);
                assert(timeline_view(before)[k + 1] == all[i + 1 + k]);
            }
            assert(timeline_view(rest@) =~= all.subrange(i as int + 1, n as int));
        }
        insert_entry(&mut sorted, e);
        i = i + 1;
    }
    assert(all.subrange(0, n as int) =~= all);
    sorted
}


/// The run a detail view shows: the run found, else the one requested, else
/// the task itself.
pub open spec fn resolved_run_id(task: RunDetailTaskRow, run: Option<RunDetailRunRow>, requested: Option<Seq<char>>) -> Seq<char> {
    match run {
        Some(r) => r.id@,
        None => match requested {
            Some(q) => q,
            None => task.id@,
        },
    }
}

/// The status a detail view shows: the run's, else the task's.
pub open spec fn shown_status(task: RunDetailTaskRow, run: Option<RunDetailRunRow>) -> Seq<char> {
    match run {
        Some(r) => r.status@,
        None => task.status@,
    }
}

/// The latest time the detail knows of: the run's end, the task's end, the
/// run's start, the task's start, else its creation.
pub open spec fn latest_time(task: RunDetailTaskRow, run: Option<RunDetailRunRow>) -> Seq<char> {
    let run_finished = match run {
        Some(r) => opt_view(r.finished_at),
        None => None,
    };
    let run_started = match run {
        Some(r) => opt_view(r.started_at),
        None => None,
    };
    match run_finished {
        Some(t) => t,
        None => match opt_view(task.finished_at) {
            Some(t) => t,
            None => match run_started {
                Some(t) => t,
                None => match opt_view(task.started_at) {
                    Some(t) => t,
                    None => task.created_at@,
                },
            },
        },
    }
}

pub open spec fn view_of(
    id: Seq<char>,
    label: Seq<char>,
    status: Seq<char>,
    detail: Option<Seq<char>>,
    created_at: Option<Seq<char>>,
) -> TimelineView {
    TimelineView { id, label, status, detail, created_at }
}

/// The entry a log line adds.
pub open spec fn log_entry(l: RunDetailLogRow) -> TimelineView {
    view_of(
        l.id@,
        match opt_view(l.run_id) {
            Some(r) => "Log "@ + l.level@ + " ("@ + r + ")"@,
            None => "Log "@ + l.level@,
        },
        ascii_lower(l.level@),
        Some(l.message@),
        Some(l.created_at@),
    )
}

/// The entries the log lines add, in order.
pub open spec fn log_entries(logs: Seq<RunDetailLogRow>) -> Seq<TimelineView> {
    Seq::new(logs.len(), |i: int| log_entry(logs[i]))
}

/// An entry when `cond` holds.
pub open spec fn entry_if(cond: bool, e: TimelineView) -> Seq<TimelineView> {
    if cond {
        seq![e]
    } else {
        seq![]
    }
}

/// The timeline entries of a run detail, before they are ordered by time.
pub open spec fn raw_timeline(
    task: RunDetailTaskRow,
    run: Option<RunDetailRunRow>,
    run_id: Seq<char>,
    artifact_count: nat,
    logs: Seq<RunDetailLogRow>,
) -> Seq<TimelineView> {
    let status = shown_status(task, run);
    let latest = Some(latest_time(task, run));
    seq![
        view_of(
            "task-created-"@ + task.id@,
            "Task created"@,
            task.status@,
            Some(task.kind@ + " queued into desktop automation lane"@),
            Some(task.created_at@),
        ),
    ] + entry_if(
        task.started_at is Some,
        view_of("task-started-"@ + task.id@, "Task started"@, "running"@, None, opt_view(task.started_at)),
    ) + match run {
        Some(r) => seq![
            view_of(
                "run-"@ + run_id + "-attempt-"@ + decimal_text(r.attempt as int),
                "Run attempt "@ + decimal_text(r.attempt as int),
                status,
                Some("runner="@ + r.runner_kind@),
                opt_view(r.started_at),
            ),
        ] + entry_if(
            r.finished_at is Some,
            view_of(
                "run-"@ + run_id + "-finished"@,
                "Run finished"@,
                status,
                match opt_view(r.error_message) {
                    Some(e) => Some(e),
                    None => result_message(r.result),
                },
                opt_view(r.finished_at),
            ),
        ),
        None => seq![],
    } + entry_if(
        task.finished_at is Some,
        view_of(
            "task-finished-"@ + task.id@,
            "Task finished"@,
            task.status@,
            match opt_view(task.error_message) {
                Some(e) => Some(e),
                None => result_message(task.result),
            },
            opt_view(task.finished_at),
        ),
    ) + entry_if(
        artifact_count > 0,
        view_of(
            "run-artifacts-"@ + run_id,
            "Run artifacts indexed"@,
            "ready"@,
            Some(decimal_digits(artifact_count) + " artifacts linked to this run"@),
            latest,
        ),
    ) + entry_if(
        logs.len() > 0,
        view_of(
            "run-logs-"@ + run_id,
            "Run logs indexed"@,
            "ready"@,
            Some(decimal_digits(logs.len()) + " logs captured for this run"@),
            latest,
        ),
    ) + log_entries(logs)
}

fn latest_time_text(task: &RunDetailTaskRow, run: &Option<RunDetailRunRow>) -> (t: String)
    ensures
        t@ == latest_time(*task, *run),
{
    match run {
        Some(r) => match &r.finished_at {
            Some(t) => return owned(t.as_str()),
            None => {},
        },
        None => {},
    }
    match &task.finished_at {
        Some(t) => return owned(t.as_str()),
        None => {},
    }
    match run {
        Some(r) => match &r.started_at {
            Some(t) => return owned(t.as_str()),
            None => {},
        },
        None => {},
    }
    match &task.started_at {
        Some(t) => owned(t.as_str()),
        None => owned(task.created_at.as_str()),
    }
}

fn push_view(
    timeline: &mut Vec<DesktopRunTimelineEntry>,
    id: String,
    label: String,
    status: String,
    detail: Option<String>,
    created_at: Option<String>,
)
    ensures
        timeline_view(final(timeline)@) == timeline_view(old(timeline)@) + seq![
            view_of(id@, label@, status@, opt_view(detail), opt_view(created_at)),
        ],
{
    let ghost before = timeline@;
    push_timeline_entry(timeline, id, label, status, detail, created_at);
    assert(timeline_view(timeline@) =~= timeline_view(before) + seq![
        view_of(id@, label@, status@, opt_view(detail), opt_view(created_at)),
    ]);
}

/// The timeline of a run detail, ordered by time.
#[verifier::rlimit(60)]
#[verifier::spinoff_prover]
pub fn build_run_timeline(
    task: &RunDetailTaskRow,
    run: &Option<RunDetailRunRow>,
    run_id: &str,
    artifact_count: usize,
    logs: &Vec<RunDetailLogRow>,
) -> (t: Vec<DesktopRunTimelineEntry>)
    ensures
        timeline_view(t@) == sort_by_time(raw_timeline(*task, *run, run_id@, artifact_count as nat, logs@)),
{
    let mut timeline: Vec<DesktopRunTimelineEntry> = Vec::new();
    let status = match run {
        Some(r) => owned(r.status.as_str()),
        None => owned(task.status.as_str()),
    };
    let latest = latest_time_text(task, run);
    assert(timeline_view(timeline@) =~= Seq::<TimelineView>::empty());
    push_view(
        &mut timeline,
        concat2("task-created-", task.id.as_str()),
        owned("Task created"),
        owned(task.status.as_str()),
        Some(concat2(task.kind.as_str(), " queued into desktop automation lane")),
        Some(owned(task.created_at.as_str())),
    );
    let ghost v1 = timeline_view(timeline@);
    match &task.started_at {
        Some(t) => push_view(
            &mut timeline,
            concat2("task-started-", task.id.as_str()),
            owned("Task started"),
            owned("running"),
            None,
            Some(owned(t.as_str())),
        ),
        None => {},
    }
    let ghost v2 = timeline_view(timeline@);
    match run {
        Some(r) => {
            let attempt = i64_to_text(r.attempt);
            let a = concat3("run-", run_id, "-attempt-");
            push_view(
                &mut timeline,
                concat2(a.as_str(), attempt.as_str()),
                concat2("Run attempt ", attempt.as_str()),
                owned(status.as_str()),
                Some(concat2("runner=", r.runner_kind.as_str())),
                copy_opt(&r.started_at),
            );
            match &r.finished_at {
                Some(f) => {
                    let detail = match &r.error_message {
                        Some(e) => Some(owned(e.as_str())),
                        None => pick_message_from_result(&r.result),
                    };
                    push_view(
                        &mut timeline,
                        concat3("run-", run_id, "-finished"),
                        owned("Run finished"),
                        owned(status.as_str()),
                        detail,
                        Some(owned(f.as_str())),
                    );
                },
                None => {},
            }
        },
        None => {},
    }
    let ghost v3 = timeline_view(timeline@);
    match &task.finished_at {
        Some(f) => {
            let detail = match &task.error_message {
                Some(e) => Some(owned(e.as_str())),
                None => pick_message_from_result(&task.result),
            };
            push_view(
                &mut timeline,
                concat2("task-finished-", task.id.as_str()),
                owned("Task finished"),
                owned(task.status.as_str()),
                detail,
                Some(owned(f.as_str())),
            );
        },
        None => {},
    }
    let ghost v4 = timeline_view(timeline@);
    if artifact_count > 0 {
        let n = u64_to_text(artifact_count as u64);
        push_view(
            &mut timeline,
            concat2("run-artifacts-", run_id),
            owned("Run artifacts indexed"),
            owned("ready"),
            Some(concat2(n.as_str(), " artifacts linked to this run")),
            Some(owned(latest.as_str())),
        );
    }
    let ghost v5 = timeline_view(timeline@);
    if logs.len() > 0 {
        let n = u64_to_text(logs.len() as u64);
        push_view(
            &mut timeline,
            concat2("run-logs-", run_id),
            owned("Run logs indexed"),
            owned("ready"),
            Some(concat2(n.as_str(), " logs captured for this run")),
            Some(owned(latest.as_str())),
        );
    }
    let ghost base = timeline_view(timeline@);
    let mut i: usize = 0;
    assert(base + log_entries(logs@.subrange(0, 0)) =~= base);
    while i < logs.len()
        invariant
            i <= logs@.len(),
            timeline_view(timeline@) == base + log_entries(logs@.subrange(0, i as int)),
        decreases logs@.len() - i,
    {
        let l = &logs[i];
        let label = match &l.run_id {
            Some(rid) => {
                let a = concat3("Log ", l.level.as_str(), " (");
                concat3(a.as_str(), rid.as_str(), ")")
            },
            None => concat2("Log ", l.level.as_str()),
        };
        push_view(
            &mut timeline,
            owned(l.id.as_str()),
            label,
            to_ascii_lowercase(l.level.as_str()),
            Some(owned(l.message.as_str())),
            Some(owned(l.created_at.as_str())),
        );
        assert(base + log_entries(logs@.subrange(0, i as int + 1)) =~= base + log_entries(logs@.subrange(0, i as int))
            + seq![log_entry(logs@[i as int])]);
        i = i + 1;
    }
    assert(logs@.subrange(0, i as int) =~= logs@);
    proof {
        let raw = raw_timeline(*task, *run, run_id@, artifact_count as nat, logs@);
        assert(timeline_view(timeline@) =~= raw);
    }
    sort_timeline(timeline)
}


/// The detail view of a task's run.
#[derive(Debug, Clone)]
pub struct DesktopRunDetail {
    pub run_id: String,
    pub task_id: Option<String>,
    pub status: String,
    pub headline: String,
    pub message: Option<String>,
    pub failure_reason: Option<String>,
    pub manual_gate_request_id: Option<String>,
    pub manual_gate_status: Option<String>,
    pub updated_at_label: Option<String>,
    pub created_at_label: Option<String>,
    pub task_status: String,
    pub run_attempt: Option<i64>,
    pub runner_kind: Option<String>,
    pub artifact_count: i64,
    pub log_count: i64,
    pub timeline_count: i64,
    pub artifacts: Vec<DesktopRunArtifact>,
    pub timeline: Vec<DesktopRunTimelineEntry>,
    pub summary: DesktopRunDetailSummary,
}

/// The headline of a run detail: the task result's `title`, `template_name`
/// or `headline`, else the run result's `title` or `headline`, else
/// `kind / id`.
pub open spec fn detail_headline(task: RunDetailTaskRow, run: Option<RunDetailRunRow>) -> Seq<char> {
    let from_task = match task.result {
        Some(f) => match opt_view(f.title) {
            Some(t) => Some(t),
            None => match opt_view(f.template_name) {
                Some(t) => Some(t),
                None => opt_view(f.headline),
            },
        },
        None => None,
    };
    let from_run = match run {
        Some(r) => match r.result {
            Some(f) => match opt_view(f.title) {
                Some(t) => Some(t),
                None => opt_view(f.headline),
            },
            None => None,
        },
        None => None,
    };
    match from_task {
        Some(t) => t,
        None => match from_run {
            Some(t) => t,
            None => task.kind@ + " / "@ + task.id@,
        },
    }
}

/// The message of a run detail: the run result's, the task result's, the
/// run's error, the task's error, in that order.
pub open spec fn detail_message(task: RunDetailTaskRow, run: Option<RunDetailRunRow>) -> Option<Seq<char>> {
    let run_result = match run {
        Some(r) => r.result,
        None => None,
    };
    let run_error = match run {
        Some(r) => opt_view(r.error_message),
        None => None,
    };
    match result_message(run_result) {
        Some(m) => Some(m),
        None => match result_message(task.result) {
            Some(m) => Some(m),
            None => match run_error {
                Some(m) => Some(m),
                None => opt_view(task.error_message),
            },
        },
    }
}

/// The statuses whose detail carries a failure reason.
pub open spec fn failing_status(s: Seq<char>) -> bool {
    s == "failed"@ || s == "timed_out"@ || s == "cancelled"@ || s == "blocked"@
}

fn first_text(a: &Option<String>, b: &Option<String>) -> (r: Option<String>)
    ensures
        opt_view(r) == match opt_view(*a) {
            Some(x) => Some(x),
            None => opt_view(*b),
        },
{
    match a {
        Some(x) => Some(owned(x.as_str())),
        None => copy_opt(b),
    }
}

/// Assembles the detail view of a task's run from the stored task, its
/// latest (or requested) run, its artifacts and its log lines.
pub fn build_run_detail(
    task: RunDetailTaskRow,
    run: Option<RunDetailRunRow>,
    requested_run_id: Option<String>,
    artifacts: Vec<DesktopRunArtifact>,
    logs: Vec<RunDetailLogRow>,
) -> (d: DesktopRunDetail)
    requires
        artifacts@.len() <= i64::MAX,
        logs@.len() + 7 <= i64::MAX,
    ensures
        d.run_id@ == resolved_run_id(task, run, opt_view(requested_run_id)),
        opt_view(d.task_id) == Some(task.id@),
        d.status@ == shown_status(task, run),
        d.headline@ == detail_headline(task, run),
        opt_view(d.message) == detail_message(task, run),
        opt_view(d.failure_reason) == (if failing_status(shown_status(task, run)) {
            match run {
                Some(r) => match opt_view(r.error_message) {
                    Some(e) => Some(e),
                    None => opt_view(task.error_message),
                },
                None => opt_view(task.error_message),
            }
        } else {
            None
        }),
        opt_view(d.manual_gate_request_id) == opt_view(task.manual_gate_request_id),
        opt_view(d.manual_gate_status) == opt_view(task.manual_gate_status),
        opt_view(d.updated_at_label) == Some(latest_time(task, run)),
        opt_view(d.created_at_label) == Some(task.created_at@),
        d.task_status@ == task.status@,
        d.run_attempt == match run {
            Some(r) => Some(r.attempt),
            None => None,
        },
        opt_view(d.runner_kind) == match run {
            Some(r) => Some(r.runner_kind@),
            None => None,
        },
        d.artifact_count == artifacts@.len(),
        d.log_count == logs@.len(),
        d.artifacts@ == artifacts@,
        timeline_view(d.timeline@) == sort_by_time(
            raw_timeline(task, run, resolved_run_id(task, run, opt_view(requested_run_id)), artifacts@.len(), logs@),
        ),
        d.timeline_count == d.timeline@.len(),
        d.summary.task_status@ == task.status@,
        d.summary.run_status@ == shown_status(task, run),
        d.summary.run_attempt == d.run_attempt,
        opt_view(d.summary.runner_kind) == opt_view(d.runner_kind),
        d.summary.artifact_count == d.artifact_count,
        d.summary.log_count == d.log_count,
        d.summary.timeline_count == d.timeline_count,
{
    let run_id = match &run {
        Some(r) => owned(r.id.as_str()),
        None => match &requested_run_id {
            Some(q) => owned(q.as_str()),
            None => owned(task.id.as_str()),
        },
    };
    let status = match &run {
        Some(r) => owned(r.status.as_str()),
        None => owned(task.status.as_str()),
    };
    let timeline = build_run_timeline(&task, &run, run_id.as_str(), artifacts.len(), &logs);
    proof {
        assert(timeline_view(timeline@).len() == timeline@.len());
        lemma_sort_len(raw_timeline(task, run, run_id@, artifacts@.len(), logs@));
        lemma_raw_len(task, run, run_id@, artifacts@.len(), logs@);
    }
    let run_result_message = match &run {
        Some(r) => pick_message_from_result(&r.result),
        None => None,
    };
    let task_result_message = pick_message_from_result(&task.result);
    let run_error: Option<String> = match &run {
        Some(r) => copy_opt(&r.error_message),
        None => None,
    };
    let message = match run_result_message {
        Some(m) => Some(m),
        None => match task_result_message {
            Some(m) => Some(m),
            None => first_text(&run_error, &task.error_message),
        },
    };
    let task_headline: Option<String> = match &task.result {
        Some(f) => match &f.title {
            Some(t) => Some(owned(t.as_str())),
            None => first_text(&f.template_name, &f.headline),
        },
        None => None,
    };
    let run_headline: Option<String> = match &run {
        Some(r) => match &r.result {
            Some(f) => first_text(&f.title, &f.headline),
            None => None,
        },
        None => None,
    };
    let headline = match task_headline {
        Some(t) => t,
        None => match run_headline {
            Some(t) => t,
            None => concat3(task.kind.as_str(), " / ", task.id.as_str()),
        },
    };
    let failing = str_eq(status.as_str(), "failed") || str_eq(status.as_str(), "timed_out") || str_eq(
        status.as_str(),
        "cancelled",
    ) || str_eq(status.as_str(), "blocked");
    let failure_reason = if failing {
        first_text(&run_error, &task.error_message)
    } else {
        None
    };
    let updated = latest_time_text(&task, &run);
    let run_attempt: Option<i64> = match &run {
        Some(r) => Some(r.attempt),
        None => None,
    };
    let runner_kind: Option<String> = match &run {
        Some(r) => Some(owned(r.runner_kind.as_str())),
        None => None,
    };
    let artifact_count = artifacts.len() as i64;
    let log_count = logs.len() as i64;
    let timeline_count = timeline.len() as i64;
    let summary = DesktopRunDetailSummary {
        task_status: owned(task.status.as_str()),
        run_status: owned(status.as_str()),
        run_attempt,
        runner_kind: copy_opt(&runner_kind),
        artifact_count,
        log_count,
        timeline_count,
    };
    DesktopRunDetail {
        run_id,
        task_id: Some(owned(task.id.as_str())),
        status,
        headline,
        message,
        failure_reason,
        manual_gate_request_id: copy_opt(&task.manual_gate_request_id),
        manual_gate_status: copy_opt(&task.manual_gate_status),
        updated_at_label: Some(updated),
        created_at_label: Some(owned(task.created_at.as_str())),
        task_status: owned(task.status.as_str()),
        run_attempt,
        runner_kind,
        artifact_count,
        log_count,
        timeline_count,
        artifacts,
        timeline,
        summary,
    }
}

proof fn lemma_insert_len(sorted: Seq<TimelineView>, e: TimelineView)
    ensures
        insert_by_time(sorted, e).len() == sorted.len() + 1,
    decreases sorted.len(),
{
    if sorted.len() > 0 && !time_le(sorted.last().created_at, e.created_at) {
        lemma_insert_len(sorted.drop_last(), e);
    }
}

proof fn lemma_sort_len(s: Seq<TimelineView>)
    ensures
        sort_by_time(s).len() == s.len(),
    decreases s.len(),
{
    if s.len() > 0 {
        lemma_sort_len(s.drop_last());
        lemma_insert_len(sort_by_time(s.drop_last()), s.last());
    }
}

proof fn lemma_raw_len(task: RunDetailTaskRow, run: Option<RunDetailRunRow>, run_id: Seq<char>, artifact_count: nat, logs: Seq<RunDetailLogRow>)
    ensures
        raw_timeline(task, run, run_id, artifact_count, logs).len() <= logs.len() + 7,
{
}


/// Each entry of the timeline sorts no later than the next.
pub open spec fn ordered_by_time(s: Seq<TimelineView>) -> bool {
    forall|i: int, j: int| 0 <= i < j < s.len() ==> time_le(#[trigger] s[i].created_at, #[trigger] s[j].created_at)
}

proof fn lemma_time_le_total(a: Option<Seq<char>>, b: Option<Seq<char>>)
    ensures
        time_le(a, b) || time_le(b, a),
{
    match (a, b) {
        (Some(x), Some(y)) => {
            if lex_lt(x, y) && lex_lt(y, x) {
                crate::text::lemma_lex_lt_transitive(x, y, x);
                crate::text::lemma_lex_lt_irreflexive(x);
            }
        },
        _ => {},
    }
}

proof fn lemma_time_le_transitive(a: Option<Seq<char>>, b: Option<Seq<char>>, c: Option<Seq<char>>)
    requires
        time_le(a, b),
        time_le(b, c),
    ensures
        time_le(a, c),
{
    match (a, b, c) {
        (Some(x), Some(y), Some(z)) => {
            if lex_lt(z, x) && x != y {
                crate::text::lemma_lex_lt_total(x, y);
                crate::text::lemma_lex_lt_transitive(z, x, y);
            }
        },
        _ => {},
    }
}

proof fn lemma_insert_keeps_order(sorted: Seq<TimelineView>, e: TimelineView)
    requires
        ordered_by_time(sorted),
    ensures
        ordered_by_time(insert_by_time(sorted, e)),
        insert_by_time(sorted, e).to_multiset() == sorted.to_multiset().insert(e),
    decreases sorted.len(),
{
    broadcast use vstd::seq_lib::group_to_multiset_ensures;
    if sorted.len() == 0 {
        assert(insert_by_time(sorted, e) =~= seq![e]);
        assert(seq![e] =~= Seq::<TimelineView>::empty().push(e));
    } else if time_le(sorted.last().created_at, e.created_at) {
        let r = sorted.push(e);
        assert forall|i: int, j: int| 0 <= i < j < r.len() implies time_le(#[trigger] r[i].created_at, #[trigger] r[j].created_at) by {
            if j == r.len() - 1 {
                if i < sorted.len() - 1 {
                    lemma_time_le_transitive(sorted[i].created_at, sorted.last().created_at, e.created_at);
                }
            }
        }
    } else {
        let pre = sorted.drop_last();
        let last = sorted.last();
        assert forall|i: int, j: int| 0 <= i < j < pre.len() implies time_le(#[trigger] pre[i].created_at, #[trigger] pre[j].created_at) by {
            assert(pre[i] == sorted[i] && pre[j] == sorted[j]);
        }
        lemma_insert_keeps_order(pre, e);
        lemma_insert_len(pre, e);
        let mid = insert_by_time(pre, e);
        let r = mid.push(last);
        lemma_time_le_total(last.created_at, e.created_at);
        assert forall|k: int| 0 <= k < mid.len() implies time_le(#[trigger] mid[k].created_at, last.created_at) by {
            assert(mid.to_multiset().contains(mid[k]));
            assert(pre.to_multiset().insert(e).contains(mid[k]));
            if mid[k] != e {
                assert(pre.to_multiset().contains(mid[k]));
                assert(pre.contains(mid[k]));
                let m = choose|m: int| 0 <= m < pre.len() && pre[m] == mid[k];
                assert(sorted[m] == pre[m]);
                assert(time_le(sorted[m].created_at, sorted[sorted.len() - 1].created_at));
            }
        }
        assert forall|i: int, j: int| 0 <= i < j < r.len() implies time_le(#[trigger] r[i].created_at, #[trigger] r[j].created_at) by {
            if j == r.len() - 1 {
                assert(r[i] == mid[i]);
            } else {
                assert(r[i] == mid[i] && r[j] == mid[j]);
            }
        }
        assert(sorted =~= pre.push(last));
    }
}

/// A run's timeline is ordered by time and holds exactly the entries it was
/// built from.
pub proof fn lemma_timeline_ordered(s: Seq<TimelineView>)
    ensures
        ordered_by_time(sort_by_time(s)),
        sort_by_time(s).to_multiset() == s.to_multiset(),
    decreases s.len(),
{
    broadcast use vstd::seq_lib::group_to_multiset_ensures;
    if s.len() == 0 {
        assert(sort_by_time(s) =~= s);
    } else {
        lemma_timeline_ordered(s.drop_last());
        lemma_insert_keeps_order(sort_by_time(s.drop_last()), s.last());
        assert(s =~= s.drop_last().push(s.last()));
    }
}

} // verus!
