use persona_pilot::desktop::run_detail::{
    build_run_artifact, build_run_detail, pick_message_from_result, run_detail_anchor, sort_timeline,
    ArtifactMetadataFields, ResultTextFields, RunDetailLogRow, RunDetailRunRow, RunDetailTaskRow,
};
use persona_pilot::desktop::types::{DesktopReadRunDetailQuery, DesktopRunTimelineEntry};

fn result(title: Option<&str>, headline: Option<&str>, message: Option<&str>) -> ResultTextFields {
    ResultTextFields {
        message: message.map(String::from),
        error_message: None,
        error_nested_message: None,
        summary: None,
        title: title.map(String::from),
        template_name: None,
        headline: headline.map(String::from),
    }
}

fn log(id: &str, message: &str, at: &str) -> RunDetailLogRow {
    RunDetailLogRow {
        id: id.to_string(),
        run_id: Some("run-1".to_string()),
        level: "INFO".to_string(),
        message: message.to_string(),
        created_at: at.to_string(),
    }
}

#[test]
fn run_detail_tracks_artifacts_and_logs() {
    let task = RunDetailTaskRow {
        id: "task-1".to_string(),
        kind: "template_run".to_string(),
        status: "succeeded".to_string(),
        manual_gate_request_id: None,
        manual_gate_status: None,
        error_message: None,
        created_at: "2000000000".to_string(),
        started_at: Some("2000000001".to_string()),
        finished_at: Some("2000000004".to_string()),
        result: Some(result(Some("Launch test complete"), None, Some("template fanout finished"))),
    };
    let run = RunDetailRunRow {
        id: "run-1".to_string(),
        status: "succeeded".to_string(),
        attempt: 1,
        runner_kind: "lightpanda".to_string(),
        started_at: Some("2000000001".to_string()),
        finished_at: Some("2000000004".to_string()),
        error_message: None,
        result: Some(result(None, Some("Launch test complete"), Some("template fanout finished"))),
    };
    let artifact = build_run_artifact(
        "artifact-1".to_string(),
        "screenshot",
        Some("D:/data/artifacts/launch-test.png".to_string()),
        &Some(ArtifactMetadataFields { label: Some("Launch proof".to_string()), title: None, kind: None, status: Some("ready".to_string()) }),
        Some("2000000002".to_string()),
    );
    assert_eq!(artifact.label, "Launch proof");
    assert_eq!(artifact.status.as_deref(), Some("ready"));
    let logs = vec![log("log-0", "template run queued", "2000000000"), log("log-1", "launch test log", "2000000002")];
    let detail = build_run_detail(task, Some(run), Some("run-1".to_string()), vec![artifact], logs);
    assert_eq!(detail.run_id, "run-1");
    assert_eq!(detail.task_id.as_deref(), Some("task-1"));
    assert_eq!(detail.task_status, "succeeded");
    assert_eq!(detail.summary.run_status, "succeeded");
    assert_eq!(detail.summary.artifact_count, 1);
    assert_eq!(detail.summary.log_count, 2);
    assert_eq!(detail.headline, "Launch test complete");
    assert_eq!(detail.message.as_deref(), Some("template fanout finished"));
    assert!(detail.failure_reason.is_none());
    assert!(detail.timeline.iter().any(|entry| entry.label == "Run artifacts indexed"));
    assert!(detail.timeline.iter().any(|entry| entry.label == "Run logs indexed"));
    assert!(detail.timeline.iter().any(|entry| entry.detail.as_deref() == Some("launch test log")));
    assert_eq!(detail.summary.timeline_count as usize, detail.timeline.len());
    let times: Vec<Option<&str>> = detail.timeline.iter().map(|e| e.created_at.as_deref()).collect();
    let mut sorted = times.clone();
    sorted.sort();
    assert_eq!(times, sorted);
}

#[test]
fn run_detail_needs_a_task_or_a_run() {
    assert!(run_detail_anchor(&DesktopReadRunDetailQuery { run_id: Some(" ".to_string()), task_id: None }).is_err());
    let (task, run) = run_detail_anchor(&DesktopReadRunDetailQuery { run_id: Some(" run-1 ".to_string()), task_id: None }).unwrap();
    assert_eq!((task, run.as_deref()), (None, Some("run-1")));
}

#[test]
fn result_message_falls_back_in_order() {
    let mut r = result(None, None, None);
    assert_eq!(pick_message_from_result(&Some(r.clone())), None);
    r.summary = Some("summary".to_string());
    assert_eq!(pick_message_from_result(&Some(r.clone())).as_deref(), Some("summary"));
    r.error_message = Some("error".to_string());
    assert_eq!(pick_message_from_result(&Some(r.clone())).as_deref(), Some("error"));
    r.message = Some("message".to_string());
    assert_eq!(pick_message_from_result(&Some(r)).as_deref(), Some("message"));
    assert_eq!(pick_message_from_result(&None), None);
}

fn entry(id: &str, at: Option<&str>) -> DesktopRunTimelineEntry {
    DesktopRunTimelineEntry { id: id.to_string(), label: id.to_string(), status: "ready".to_string(), detail: None, created_at: at.map(String::from) }
}

#[test]
fn timeline_sorts_by_time_keeping_ties_in_order() {
    let sorted = sort_timeline(vec![entry("c", Some("3")), entry("a", Some("1")), entry("none", None), entry("b", Some("1"))]);
    let ids: Vec<&str> = sorted.iter().map(|e| e.id.as_str()).collect();
    assert_eq!(ids, vec!["none", "a", "b", "c"]);
}

#[test]
fn run_detail_without_anchor_is_refused_with_message() {
    let err = run_detail_anchor(&DesktopReadRunDetailQuery { task_id: Some("  ".to_string()), run_id: None }).unwrap_err();
    assert_eq!(err.message(), "readRunDetail requires task_id or run_id");
}
