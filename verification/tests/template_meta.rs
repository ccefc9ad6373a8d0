use persona_pilot::desktop::template_meta::{
    build_template_metadata, template_metadata_page, template_variable_definitions, TemplateBaseRecord,
    TemplateVariableFields,
};
use persona_pilot::desktop::types::DesktopTemplateMetadataPageQuery;
use persona_pilot::desktop::workbench::TemplateStepsShape;

fn fields(key: Option<&str>) -> TemplateVariableFields {
    TemplateVariableFields {
        key: key.map(str::to_string),
        label: None,
        source: None,
        required: None,
        sensitive: None,
        default_value: None,
    }
}

fn strings(items: &[&str]) -> Vec<String> {
    items.iter().map(|s| s.to_string()).collect()
}

#[test]
fn variable_definitions_skip_blank_keys_and_non_objects() {
    let mut full = fields(Some("  coupon_code "));
    full.label = Some("Coupon".to_string());
    full.source = Some("secret".to_string());
    full.required = Some(true);
    full.sensitive = Some(true);
    full.default_value = Some("\"SAVE10\"".to_string());
    let items = vec![
        Some(fields(Some("email"))),
        None,
        Some(fields(Some("   "))),
        Some(fields(None)),
        Some(full),
    ];
    let defs = template_variable_definitions(&items);
    assert_eq!(defs.len(), 2);
    assert_eq!(defs[0].key, "email");
    assert_eq!(defs[0].label, None);
    assert_eq!(defs[0].source, "literal");
    assert!(!defs[0].required);
    assert!(!defs[0].sensitive);
    assert_eq!(defs[0].default_value, None);
    assert_eq!(defs[1].key, "coupon_code");
    assert_eq!(defs[1].label.as_deref(), Some("Coupon"));
    assert_eq!(defs[1].source, "secret");
    assert!(defs[1].required);
    assert!(defs[1].sensitive);
    assert_eq!(defs[1].default_value.as_deref(), Some("\"SAVE10\""));
}

#[test]
fn template_metadata_counts_paths_variables_and_steps() {
    let base = TemplateBaseRecord {
        id: "tpl-1".to_string(),
        name: "Checkout".to_string(),
        platform_id: "shopify".to_string(),
        store_id: Some("store-9".to_string()),
        source: "store_override".to_string(),
        status: "active".to_string(),
        readiness_level: "sample".to_string(),
        preferred_locale: Some("en-US".to_string()),
        preferred_timezone: None,
        allowed_regions: strings(&["us", "ca"]),
        warm_paths: strings(&["/", "/collections"]),
        revisit_paths: strings(&["/cart"]),
        stateful_paths: Vec::new(),
        write_operation_paths: strings(&["/checkout"]),
        high_risk_paths: strings(&["/account", "/orders", "/login"]),
        event_chain_steps: TemplateStepsShape::Object { steps_len: Some(4) },
        event_chain_variables: vec![Some(fields(Some("email"))), None, Some(fields(Some("")))],
        created_at: "100".to_string(),
        updated_at: "200".to_string(),
    };
    let m = build_template_metadata(&base);
    assert_eq!(m.id, "tpl-1");
    assert_eq!(m.store_id.as_deref(), Some("store-9"));
    assert_eq!(m.source, "store_override");
    assert_eq!(m.allowed_regions, strings(&["us", "ca"]));
    assert_eq!(m.coverage.warm_path_count, 2);
    assert_eq!(m.coverage.revisit_path_count, 1);
    assert_eq!(m.coverage.stateful_path_count, 0);
    assert_eq!(m.coverage.write_operation_path_count, 1);
    assert_eq!(m.coverage.high_risk_path_count, 3);
    assert_eq!(m.coverage.variable_count, 1);
    assert_eq!(m.coverage.step_count, 4);
    assert_eq!(m.variable_definitions[0].key, "email");
    assert_eq!(m.created_at, "100");
    assert_eq!(m.updated_at, "200");
}

#[test]
fn template_metadata_of_a_list_chain_counts_its_entries() {
    let base = TemplateBaseRecord {
        id: "tpl-2".to_string(),
        name: "Browse".to_string(),
        platform_id: "web".to_string(),
        store_id: None,
        source: "platform_template".to_string(),
        status: "draft".to_string(),
        readiness_level: "draft".to_string(),
        preferred_locale: None,
        preferred_timezone: None,
        allowed_regions: Vec::new(),
        warm_paths: Vec::new(),
        revisit_paths: Vec::new(),
        stateful_paths: Vec::new(),
        write_operation_paths: Vec::new(),
        high_risk_paths: Vec::new(),
        event_chain_steps: TemplateStepsShape::List { len: 7 },
        event_chain_variables: Vec::new(),
        created_at: "1".to_string(),
        updated_at: "1".to_string(),
    };
    let m = build_template_metadata(&base);
    assert_eq!(m.coverage.step_count, 7);
    assert_eq!(m.coverage.variable_count, 0);
    assert!(m.variable_definitions.is_empty());
    assert_eq!(m.store_id, None);
}

fn record(id: &str, platform: &str, source: &str, status: &str, updated_at: &str) -> TemplateBaseRecord {
    TemplateBaseRecord {
        id: id.to_string(),
        name: format!("Template {id}"),
        platform_id: platform.to_string(),
        store_id: if source == "store_override" { Some("store-7".to_string()) } else { None },
        source: source.to_string(),
        status: status.to_string(),
        readiness_level: "baseline".to_string(),
        preferred_locale: None,
        preferred_timezone: None,
        allowed_regions: Vec::new(),
        warm_paths: strings(&["/"]),
        revisit_paths: Vec::new(),
        stateful_paths: Vec::new(),
        write_operation_paths: Vec::new(),
        high_risk_paths: Vec::new(),
        event_chain_steps: TemplateStepsShape::Absent,
        event_chain_variables: Vec::new(),
        created_at: "1".to_string(),
        updated_at: updated_at.to_string(),
    }
}

fn ids(page: &persona_pilot::desktop::template_meta::DesktopTemplateMetadataPage) -> Vec<String> {
    page.items.iter().map(|m| m.id.clone()).collect()
}

#[test]
fn template_page_lists_newest_first_with_id_tiebreak() {
    let bases = vec![
        record("a", "shopify", "platform_template", "active", "100"),
        record("b", "shopify", "platform_template", "active", "300"),
        record("c", "amazon", "store_override", "draft", "200"),
        record("d", "shopify", "store_override", "active", "300"),
    ];
    let page = template_metadata_page(&bases, &DesktopTemplateMetadataPageQuery::default());
    assert_eq!(page.page, 1);
    assert_eq!(page.page_size, 50);
    assert_eq!(page.total, 4);
    assert_eq!(ids(&page), strings(&["d", "b", "c", "a"]));
}

#[test]
fn template_page_filters_searches_and_pages() {
    let bases = vec![
        record("a", "shopify", "platform_template", "active", "100"),
        record("b", "shopify", "platform_template", "active", "300"),
        record("c", "amazon", "store_override", "draft", "200"),
        record("d", "shopify", "store_override", "active", "400"),
    ];
    let mut query = DesktopTemplateMetadataPageQuery::default();
    query.platform_filters = Some(strings(&[" Shopify ", "all"]));
    query.status_filters = Some(strings(&["ACTIVE"]));
    let page = template_metadata_page(&bases, &query);
    assert_eq!(page.total, 3);
    assert_eq!(ids(&page), strings(&["d", "b", "a"]));

    query.page = Some(2);
    query.page_size = Some(2);
    let page = template_metadata_page(&bases, &query);
    assert_eq!(page.page, 2);
    assert_eq!(page.page_size, 2);
    assert_eq!(page.total, 3);
    assert_eq!(ids(&page), strings(&["a"]));

    let mut search = DesktopTemplateMetadataPageQuery::default();
    search.search = Some("  STORE-7 ".to_string());
    let page = template_metadata_page(&bases, &search);
    assert_eq!(ids(&page), strings(&["d", "c"]));

    let mut big = DesktopTemplateMetadataPageQuery::default();
    big.page = Some(0);
    big.page_size = Some(500);
    let page = template_metadata_page(&bases, &big);
    assert_eq!(page.page, 1);
    assert_eq!(page.page_size, 200);
    assert_eq!(page.items.len(), 4);
}
