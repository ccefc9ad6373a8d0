use persona_pilot::desktop::run_detail::{build_run_artifact, pick_message_from_result};
use persona_pilot::desktop::stored_json::{
    parse_artifact_metadata, parse_result_texts, parse_task_result, parse_template_steps_shape,
    parse_template_variables,
};
use persona_pilot::desktop::template_meta::template_variable_definitions;
use persona_pilot::desktop::workbench::{template_step_count, TemplateStepsShape};

#[test]
fn task_result_text_is_read_by_pointer() {
    assert!(parse_task_result(None).is_none());
    assert!(parse_task_result(Some("not json")).is_none());
    let raw = r#"{"browser":{"title":"Example","final_url":"https://example.com/"},
        "contentPreview":"hello","content":{"kind":"article","ready":true},"title":7}"#;
    let f = parse_task_result(Some(raw)).unwrap();
    assert_eq!(f.title, None);
    assert_eq!(f.browser_title.as_deref(), Some("Example"));
    assert_eq!(f.browser_final_url.as_deref(), Some("https://example.com/"));
    assert_eq!(f.final_url, None);
    assert_eq!(f.content_preview_camel.as_deref(), Some("hello"));
    assert_eq!(f.content_nested_kind.as_deref(), Some("article"));
    assert_eq!(f.content_nested_ready, Some(true));
    assert_eq!(f.content_ready, None);
}

#[test]
fn result_texts_feed_the_run_message() {
    assert!(parse_result_texts(Some("{")).is_none());
    let r = parse_result_texts(Some(r#"{"error":{"message":"timed out"},"summary":"late"}"#));
    assert_eq!(r.as_ref().unwrap().error_nested_message.as_deref(), Some("timed out"));
    assert_eq!(pick_message_from_result(&r).as_deref(), Some("timed out"));
    let r = parse_result_texts(Some(r#"{"message":"done","error_message":"x"}"#));
    assert_eq!(pick_message_from_result(&r).as_deref(), Some("done"));
}

#[test]
fn artifact_metadata_labels_the_artifact() {
    let m = parse_artifact_metadata(Some(r#"{"title":"Screenshot","status":"ready"}"#));
    let a = build_run_artifact("a1".to_string(), "screenshot", None, &m, None);
    assert_eq!(a.label, "Screenshot");
    assert_eq!(a.status.as_deref(), Some("ready"));
    let none = parse_artifact_metadata(Some("[1, 2"));
    assert!(none.is_none());
    assert_eq!(build_run_artifact("a2".to_string(), "trace", None, &none, None).label, "trace");
}

#[test]
fn event_chain_step_shapes() {
    assert!(matches!(parse_template_steps_shape(None), TemplateStepsShape::Absent));
    assert!(matches!(parse_template_steps_shape(Some("oops")), TemplateStepsShape::Absent));
    assert!(matches!(parse_template_steps_shape(Some("[1,2,3]")), TemplateStepsShape::List { len: 3 }));
    assert!(matches!(parse_template_steps_shape(Some("\"x\"")), TemplateStepsShape::Other));
    let shape = parse_template_steps_shape(Some(r#"{"steps":[{"a":1},{"b":2}],"variables":[]}"#));
    assert!(matches!(shape, TemplateStepsShape::Object { steps_len: Some(2) }));
    assert_eq!(template_step_count(shape), 2);
    let shape = parse_template_steps_shape(Some(r#"{"steps":"none"}"#));
    assert_eq!(template_step_count(shape), 0);
}

#[test]
fn event_chain_variables_are_read_entry_by_entry() {
    assert!(parse_template_variables(None).is_empty());
    assert!(parse_template_variables(Some("[1]")).is_empty());
    let raw = r#"{"variables":[
        {"key":" email ","label":"Email","required":true,"defaultValue":{"a":[1,2]}},
        "loose",
        {"label":"no key"},
        {"key":"token","source":"secret","sensitive":true,"defaultValue":"abc"}
    ]}"#;
    let entries = parse_template_variables(Some(raw));
    assert_eq!(entries.len(), 4);
    assert!(entries[1].is_none());
    let first = entries[0].as_ref().unwrap();
    assert_eq!(first.key.as_deref(), Some(" email "));
    assert_eq!(first.required, Some(true));
    assert_eq!(first.default_value.as_deref(), Some(r#"{"a":[1,2]}"#));
    let defs = template_variable_definitions(&entries);
    assert_eq!(defs.len(), 2);
    assert_eq!(defs[0].key, "email");
    assert_eq!(defs[0].source, "literal");
    assert_eq!(defs[1].key, "token");
    assert_eq!(defs[1].source, "secret");
    assert!(defs[1].sensitive);
    assert_eq!(defs[1].default_value.as_deref(), Some("\"abc\""));
}
