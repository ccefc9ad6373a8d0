use persona_pilot::desktop::template_edit::{
    check_template_absent, draft_unless_given, merge_template_update, template_not_found,
    validate_new_template, TemplateEditError, TemplateFields, TemplateUpdate,
};

fn stored() -> TemplateFields {
    TemplateFields {
        name: "Shop login".to_string(),
        platform_id: "shop".to_string(),
        status: "active".to_string(),
        readiness_level: "draft".to_string(),
        allowed_regions: vec!["us".to_string()],
        preferred_locale: Some("en-US".to_string()),
        preferred_timezone: None,
        warm_paths: vec!["/".to_string()],
        revisit_paths: vec![],
        stateful_paths: vec!["/cart".to_string()],
        write_operation_paths: vec![],
        high_risk_paths: vec!["/checkout".to_string()],
        continuity_checks: None,
        identity_markers: Some("{\"cookie\":\"sid\"}".to_string()),
        login_loss_signals: None,
        recovery_steps: None,
        behavior_defaults: None,
        event_chain_templates: Some("{\"variables\":[]}".to_string()),
        page_semantics: None,
    }
}

fn update() -> TemplateUpdate {
    TemplateUpdate {
        name: "  ".to_string(),
        platform_id: String::new(),
        status: None,
        readiness_level: None,
        allowed_regions: None,
        preferred_locale: None,
        preferred_timezone: None,
        warm_paths: None,
        revisit_paths: None,
        stateful_paths: None,
        write_operation_paths: None,
        high_risk_paths: None,
        continuity_checks: None,
        identity_markers: None,
        login_loss_signals: None,
        recovery_steps: None,
        behavior_defaults: None,
        event_chain_templates: None,
        page_semantics: None,
    }
}

#[test]
fn new_templates_need_id_name_and_platform() {
    assert!(validate_new_template("t1", "Name", "shop").is_ok());
    assert_eq!(validate_new_template(" ", "Name", "shop").unwrap_err().message(), "template id is required");
    assert_eq!(validate_new_template("t1", "", "").unwrap_err().message(), "template name is required");
    assert_eq!(validate_new_template("t1", "N", "\t").unwrap_err().message(), "template platform_id is required");
    assert_eq!(draft_unless_given(None), "draft");
    assert_eq!(draft_unless_given(Some("ready".to_string())), "ready");
}

#[test]
fn creates_and_updates_check_what_is_stored() {
    assert!(check_template_absent("t1", false, 0).is_ok());
    assert_eq!(check_template_absent("t1", false, 1).unwrap_err().message(), "platform template already exists: t1");
    assert_eq!(check_template_absent("o1", true, 2).unwrap_err().message(), "store platform override already exists: o1");
    assert_eq!(template_not_found("t2", false).message(), "platform template not found: t2");
    assert_eq!(template_not_found("o2", true).message(), "store platform override not found: o2");
    assert!(matches!(template_not_found("x", true), TemplateEditError::OverrideNotFound { .. }));
}

#[test]
fn update_merges_given_fields_into_stored_ones() {
    let mut u = update();
    u.name = "Shop login v2".to_string();
    u.warm_paths = Some(vec!["/home".to_string(), "/deals".to_string()]);
    u.page_semantics = Some("{\"cart\":\"/cart\"}".to_string());
    u.status = Some("draft".to_string());
    let m = merge_template_update(u, stored());
    assert_eq!(m.name, "Shop login v2");
    assert_eq!(m.platform_id, "shop");
    assert_eq!(m.status, "draft");
    assert_eq!(m.warm_paths, vec!["/home".to_string(), "/deals".to_string()]);
    assert_eq!(m.high_risk_paths, vec!["/checkout".to_string()]);
    assert_eq!(m.page_semantics.as_deref(), Some("{\"cart\":\"/cart\"}"));
    assert_eq!(m.identity_markers.as_deref(), Some("{\"cookie\":\"sid\"}"));
    assert_eq!(m.preferred_locale.as_deref(), Some("en-US"));

    let kept = merge_template_update(update(), stored());
    assert_eq!(kept.name, "Shop login");
    assert_eq!(kept.allowed_regions, vec!["us".to_string()]);
}
