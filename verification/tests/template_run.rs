use persona_pilot::desktop::template_run::{
    check_launch_not_dry_run, check_recorder_evidence, template_run_anchor_id, template_run_launch_summary, requested_template_id, template_run_compile_message,
    template_run_compile_status, template_run_launch_message, template_run_selection, ProfileMatchInfo,
    TemplateRunError, TemplateRunTarget, TemplateVariableRequirement,
};

fn target(store: Option<&str>) -> TemplateRunTarget {
    TemplateRunTarget {
        id: "tpl-launch-test".to_string(),
        store_id: store.map(String::from),
        platform_id: "shop".to_string(),
        variable_definitions: vec![
            TemplateVariableRequirement { key: "username".to_string(), required: true },
            TemplateVariableRequirement { key: "note".to_string(), required: false },
        ],
    }
}

fn profile(id: &str, store: &str, platform: &str) -> ProfileMatchInfo {
    ProfileMatchInfo { id: id.to_string(), store_id: store.to_string(), platform_id: platform.to_string() }
}

fn strings(v: &[&str]) -> Vec<String> {
    v.iter().map(|s| s.to_string()).collect()
}

#[test]
fn template_run_accepts_profiles_that_fit() {
    let profiles = vec![profile("p1", "s1", "shop"), profile("p2", "s2", "shop"), profile("p3", "s1", "other")];
    let sel = template_run_selection(&target(Some("s1")), &strings(&["username"]), &strings(&[" p1", "p2", "p3", "p1"]), &profiles).unwrap();
    assert_eq!(sel.accepted, strings(&["p1"]));
    assert_eq!(sel.rejected, strings(&["p2", "p3"]));
    let any_store = template_run_selection(&target(None), &strings(&["username"]), &strings(&["p1", "p2"]), &profiles).unwrap();
    assert_eq!(any_store.accepted, strings(&["p1", "p2"]));
}

#[test]
fn template_run_refusals() {
    let profiles = vec![profile("p1", "s1", "shop")];
    let err = template_run_selection(&target(None), &strings(&[]), &strings(&["p1"]), &profiles).unwrap_err();
    assert_eq!(err.message(), "missing required variable bindings: username");
    let err = template_run_selection(&target(None), &strings(&["username"]), &strings(&[" "]), &profiles).unwrap_err();
    assert_eq!(err.message(), "profile_ids must contain at least one profile id");
    let err = template_run_selection(&target(None), &strings(&["username"]), &strings(&["p9", "p1"]), &profiles).unwrap_err();
    assert_eq!(err.message(), "profiles not found: p9");
    let err = template_run_selection(&target(Some("s2")), &strings(&["username"]), &strings(&["p1"]), &profiles).unwrap_err();
    assert_eq!(err.message(), "no profiles matched template tpl-launch-test (platform shop, store s2)");
    assert!(matches!(requested_template_id("  "), Err(TemplateRunError::TemplateIdRequired)));
    assert_eq!(requested_template_id(" tpl ").unwrap(), "tpl");
}

#[test]
fn compile_and_launch_messages() {
    assert_eq!(template_run_compile_status(true, 3), "dry_run_ready");
    assert_eq!(template_run_compile_status(false, 0), "manifest_written");
    assert_eq!(template_run_compile_status(false, 2), "manifest_written_partial");
    assert_eq!(
        template_run_compile_message("manifest_written_partial", false, 1, 2),
        "Compile manifest written with 1 accepted profiles and 2 rejected profiles."
    );
    assert_eq!(template_run_compile_message("dry_run_ready", true, 3, 0), "Dry-run compile manifest written for 3 profiles.");
    assert_eq!(template_run_launch_message(1), "Queued 1 template_run tasks from compile manifest.");
}

#[test]
fn launch_requires_recorder_evidence_and_no_dry_run() {
    assert!(check_launch_not_dry_run(Some(true)).is_err());
    assert!(check_launch_not_dry_run(Some(false)).is_ok());
    assert!(check_launch_not_dry_run(None).is_ok());
    assert!(matches!(check_recorder_evidence(None, None, Some(3)), Err(TemplateRunError::RecorderSessionRequired)));
    assert!(matches!(
        check_recorder_evidence(Some(true), Some("rec-1".to_string()), Some(0)),
        Err(TemplateRunError::RecorderStepsRequired)
    ));
    let (session, steps) = check_recorder_evidence(None, Some(" rec-1 ".to_string()), Some(4)).unwrap();
    assert_eq!(session.as_deref(), Some("rec-1"));
    assert_eq!(steps, 4);
    let (session, steps) = check_recorder_evidence(Some(false), None, Some(-2)).unwrap();
    assert_eq!((session, steps), (None, 0));
    assert_eq!(
        TemplateRunError::RecorderSessionRequired.message(),
        "native recorder session evidence is required before launching template run"
    );
}

#[test]
fn launch_summary_fans_out_from_the_first_task() {
    let tasks = vec!["task-a".to_string(), "task-b".to_string()];
    let accepted = vec!["p1".to_string(), "p2".to_string()];
    let s = template_run_launch_summary(
        "tpl-1".to_string(),
        "live".to_string(),
        &tasks,
        2,
        &accepted,
        None,
        Some("rec-1".to_string()),
        Some("selected".to_string()),
        None,
        "100".to_string(),
        "101".to_string(),
        "manifests/tpl-1.json".to_string(),
    );
    assert_eq!(s.launch_kind, "template_run_fanout");
    assert_eq!(s.primary_task_id.as_deref(), Some("task-a"));
    assert_eq!(s.task_count, 2);
    assert_eq!(s.accepted_profile_ids, accepted);
    assert_eq!(s.recorder_session_id.as_deref(), Some("rec-1"));
    assert_eq!(template_run_anchor_id(&tasks, "desktop-launch-anchor-x".to_string()), "task-a");
    assert_eq!(template_run_anchor_id(&Vec::new(), "desktop-launch-anchor-x".to_string()), "desktop-launch-anchor-x");
    let none = template_run_launch_summary(
        "tpl-1".to_string(), "live".to_string(), &Vec::new(), 0, &Vec::new(), None, None, None, None,
        "1".to_string(), "2".to_string(), "m".to_string(),
    );
    assert_eq!((none.primary_task_id, none.task_count), (None, 0));
}
