//! The metadata a template list shows: the variables a template's event chain
//! declares, and how much of a site each template covers.
use vstd::prelude::*;

use super::pages::{
    normalized_filter, page_number, page_of_positions, page_size_within, page_slice, passes, query_filter,
    query_search, search_hits, search_hits_texts, trimmed_search, value_passes,
};
use super::types::{DesktopTemplateCoverageSummary, DesktopTemplateMetadataPageQuery};
use super::workbench::{
    passes_filter, sanitize_page, sanitize_page_size, step_count_of, template_step_count, TemplateStepsShape,
};
use crate::text::clone_strings;
use crate::text::{copy_opt, is_blank, lemma_lex_lt_transitive, lex_lt, opt_view, owned, str_eq, str_lt, strings_view, trim, trim_str};

verus! {

/// What one entry of an event chain's `variables` list holds: each field is
/// `None` where the entry lacks it or holds a value of another JSON type;
/// `default_value` is the JSON text of `defaultValue`.
#[derive(Debug, Clone)]
pub struct TemplateVariableFields {
    pub key: Option<String>,
    pub label: Option<String>,
    pub source: Option<String>,
    pub required: Option<bool>,
    pub sensitive: Option<bool>,
    pub default_value: Option<String>,
}

/// A variable that a template run must or may be given.
#[derive(Debug, Clone)]
pub struct DesktopTemplateVariableDefinition {
    pub key: String,
    pub label: Option<String>,
    pub source: String,
    pub required: bool,
    pub sensitive: bool,
    /// The JSON text of the default value, where there is one.
    pub default_value: Option<String>,
}

/// A variable definition as plain values: key, label, source, required,
/// sensitive, default value.
pub type VariableDefinitionView = (Seq<char>, Option<Seq<char>>, Seq<char>, bool, bool, Option<Seq<char>>);

pub open spec fn definition_view(d: DesktopTemplateVariableDefinition) -> VariableDefinitionView {
    (d.key@, opt_view(d.label), d.source@, d.required, d.sensitive, opt_view(d.default_value))
}

pub open spec fn definitions_view(ds: Seq<DesktopTemplateVariableDefinition>) -> Seq<VariableDefinitionView> {
    ds.map_values(|d: DesktopTemplateVariableDefinition| definition_view(d))
}

/// The definition an entry of `variables` gives: none where the entry is not
/// an object or its key is missing or blank; else the trimmed key, the label,
/// the source (`literal` when absent), whether it is required and whether it
/// is sensitive (each `false` when absent), and the default value.
pub open spec fn variable_definition_of(item: Option<TemplateVariableFields>) -> Option<VariableDefinitionView> {
    match item {
        Some(f) => match f.key {
            Some(k) => if trim(k@).len() == 0 {
                None
            } else {
                Some((
                    trim(k@),
                    opt_view(f.label),
                    match f.source {
                        Some(s) => s@,
                        None => "literal"@,
                    },
                    match f.required {
                        Some(b) => b,
                        None => false,
                    },
                    match f.sensitive {
                        Some(b) => b,
                        None => false,
                    },
                    opt_view(f.default_value),
                ))
            },
            None => None,
        },
        None => None,
    }
}

/// The definitions of the entries of `variables` that give one, in order.
pub open spec fn variable_definitions_spec(items: Seq<Option<TemplateVariableFields>>) -> Seq<VariableDefinitionView>
    decreases items.len(),
{
    if items.len() == 0 {
        Seq::empty()
    } else {
        let prev = variable_definitions_spec(items.drop_last());
        match variable_definition_of(items.last()) {
            Some(d) => prev.push(d),
            None => prev,
        }
    }
}

proof fn lemma_definitions_at_most_items(items: Seq<Option<TemplateVariableFields>>)
    ensures
        variable_definitions_spec(items).len() <= items.len(),
    decreases items.len(),
{
    if items.len() > 0 {
        lemma_definitions_at_most_items(items.drop_last());
    }
}

fn variable_definition(item: &Option<TemplateVariableFields>) -> (r: Option<DesktopTemplateVariableDefinition>)
    ensures
        match r {
            Some(d) => variable_definition_of(*item) == Some(definition_view(d)),
            None => variable_definition_of(*item) is None,
        },
{
    match item {
        Some(f) => match &f.key {
            Some(k) => {
                if is_blank(k.as_str()) {
                    None
                } else {
                    let key = trim_str(k.as_str());
                    let source = match &f.source {
                        Some(s) => owned(s.as_str()),
                        None => owned("literal"),
                    };
                    let required = match f.required {
                        Some(b) => b,
                        None => false,
                    };
                    let sensitive = match f.sensitive {
                        Some(b) => b,
                        None => false,
                    };
                    Some(DesktopTemplateVariableDefinition {
                        key,
                        label: copy_opt(&f.label),
                        source,
                        required,
                        sensitive,
                        default_value: copy_opt(&f.default_value),
                    })
                }
            },
            None => None,
        },
        None => None,
    }
}

/// The variables a template's event chain declares, from the entries of its
/// `variables` list (`None` for an entry that is not an object).
pub fn template_variable_definitions(items: &Vec<Option<TemplateVariableFields>>) -> (r: Vec<DesktopTemplateVariableDefinition>)
    ensures
        definitions_view(r@) == variable_definitions_spec(items@),
{
    let mut out: Vec<DesktopTemplateVariableDefinition> = Vec::new();
    let mut i: usize = 0;
    proof {
        assert(items@.subrange(0, 0) =~= Seq::<Option<TemplateVariableFields>>::empty());
        assert(definitions_view(out@) =~= Seq::<VariableDefinitionView>::empty());
    }
    while i < items.len()
        invariant
            i <= items@.len(),
            definitions_view(out@) == variable_definitions_spec(items@.subrange(0, i as int)),
        decreases items@.len() - i,
    {
        let ghost prev = out@;
        proof {
            assert(items@.subrange(0, i + 1).drop_last() =~= items@.subrange(0, i as int));
            assert(items@.subrange(0, i + 1).last() == items@[i as int]);
        }
        match variable_definition(&items[i]) {
            Some(d) => {
                out.push(d);
                proof {
                    assert(definitions_view(out@) =~= definitions_view(prev).push(definition_view(d)));
                }
            },
            None => {},
        }
        i = i + 1;
    }
    proof {
        assert(items@.subrange(0, i as int) =~= items@);
    }
    out
}

/// A template as the list reads it: a platform template or a store override,
/// with the parts of its event chain that the metadata counts.
#[derive(Debug, Clone)]
pub struct TemplateBaseRecord {
    pub id: String,
    pub name: String,
    pub platform_id: String,
    pub store_id: Option<String>,
    pub source: String,
    pub status: String,
    pub readiness_level: String,
    pub preferred_locale: Option<String>,
    pub preferred_timezone: Option<String>,
    pub allowed_regions: Vec<String>,
    pub warm_paths: Vec<String>,
    pub revisit_paths: Vec<String>,
    pub stateful_paths: Vec<String>,
    pub write_operation_paths: Vec<String>,
    pub high_risk_paths: Vec<String>,
    /// The shape of the stored event chain.
    pub event_chain_steps: TemplateStepsShape,
    /// The entries of the event chain's `variables` list; empty where the
    /// chain is not an object or has no such list.
    pub event_chain_variables: Vec<Option<TemplateVariableFields>>,
    pub created_at: String,
    pub updated_at: String,
}

/// What a template list shows of one template.
#[derive(Debug, Clone)]
pub struct DesktopTemplateMetadata {
    pub id: String,
    pub name: String,
    pub platform_id: String,
    pub store_id: Option<String>,
    pub source: String,
    pub status: String,
    pub readiness_level: String,
    pub preferred_locale: Option<String>,
    pub preferred_timezone: Option<String>,
    pub allowed_regions: Vec<String>,
    pub coverage: DesktopTemplateCoverageSummary,
    pub variable_definitions: Vec<DesktopTemplateVariableDefinition>,
    pub created_at: String,
    pub updated_at: String,
}

/// Whether the counts of a template fit the metadata's integers.
pub open spec fn metadata_buildable(base: TemplateBaseRecord) -> bool {
    &&& step_count_of(base.event_chain_steps) <= i64::MAX
    &&& base.warm_paths@.len() <= i64::MAX
    &&& base.revisit_paths@.len() <= i64::MAX
    &&& base.stateful_paths@.len() <= i64::MAX
    &&& base.write_operation_paths@.len() <= i64::MAX
    &&& base.high_risk_paths@.len() <= i64::MAX
    &&& base.event_chain_variables@.len() <= i64::MAX
}

/// Whether `m` is the metadata of `base`: its identity and settings copied
/// over, the number of paths of each kind, of declared variables and of
/// recorded steps.
pub open spec fn is_metadata_of(m: DesktopTemplateMetadata, base: TemplateBaseRecord) -> bool {
    &&& m.id@ == base.id@
    &&& m.name@ == base.name@
    &&& m.platform_id@ == base.platform_id@
    &&& opt_view(m.store_id) == opt_view(base.store_id)
    &&& m.source@ == base.source@
    &&& m.status@ == base.status@
    &&& m.readiness_level@ == base.readiness_level@
    &&& opt_view(m.preferred_locale) == opt_view(base.preferred_locale)
    &&& opt_view(m.preferred_timezone) == opt_view(base.preferred_timezone)
    &&& strings_view(m.allowed_regions@) == strings_view(base.allowed_regions@)
    &&& m.coverage.warm_path_count == base.warm_paths@.len()
    &&& m.coverage.revisit_path_count == base.revisit_paths@.len()
    &&& m.coverage.stateful_path_count == base.stateful_paths@.len()
    &&& m.coverage.write_operation_path_count == base.write_operation_paths@.len()
    &&& m.coverage.high_risk_path_count == base.high_risk_paths@.len()
    &&& definitions_view(m.variable_definitions@) == variable_definitions_spec(base.event_chain_variables@)
    &&& m.coverage.variable_count == m.variable_definitions@.len()
    &&& m.coverage.step_count == step_count_of(base.event_chain_steps)
    &&& m.created_at@ == base.created_at@
    &&& m.updated_at@ == base.updated_at@
}

/// The metadata of a template.
pub fn build_template_metadata(base: &TemplateBaseRecord) -> (m: DesktopTemplateMetadata)
    requires
        metadata_buildable(*base),
    ensures
        is_metadata_of(m, *base),
{
    let variable_definitions = template_variable_definitions(&base.event_chain_variables);
    proof {
        lemma_definitions_at_most_items(base.event_chain_variables@);
        assert(definitions_view(variable_definitions@).len() == variable_definitions@.len());
    }
    DesktopTemplateMetadata {
        id: owned(base.id.as_str()),
        name: owned(base.name.as_str()),
        platform_id: owned(base.platform_id.as_str()),
        store_id: copy_opt(&base.store_id),
        source: owned(base.source.as_str()),
        status: owned(base.status.as_str()),
        readiness_level: owned(base.readiness_level.as_str()),
        preferred_locale: copy_opt(&base.preferred_locale),
        preferred_timezone: copy_opt(&base.preferred_timezone),
        allowed_regions: clone_strings(&base.allowed_regions),
        coverage: DesktopTemplateCoverageSummary {
            warm_path_count: base.warm_paths.len() as i64,
            revisit_path_count: base.revisit_paths.len() as i64,
            stateful_path_count: base.stateful_paths.len() as i64,
            write_operation_path_count: base.write_operation_paths.len() as i64,
            high_risk_path_count: base.high_risk_paths.len() as i64,
            variable_count: variable_definitions.len() as i64,
            step_count: template_step_count(base.event_chain_steps),
        },
        variable_definitions,
        created_at: owned(base.created_at.as_str()),
        updated_at: owned(base.updated_at.as_str()),
    }
}

/// One page of the template list.
#[derive(Debug, Clone)]
pub struct DesktopTemplateMetadataPage {
    pub page: i64,
    pub page_size: i64,
    pub total: i64,
    pub items: Vec<DesktopTemplateMetadata>,
}

/// The template's store, or the empty text.
pub open spec fn store_text(store_id: Option<String>) -> Seq<char> {
    match store_id {
        Some(s) => s@,
        None => Seq::empty(),
    }
}

/// Whether a template is listed for a query: the search hits its id, name,
/// platform, store or source, and its platform, readiness, status and source
/// pass the query's filters.
pub open spec fn template_selected(b: TemplateBaseRecord, q: DesktopTemplateMetadataPageQuery) -> bool {
    &&& search_hits(seq![b.id@, b.name@, b.platform_id@, store_text(b.store_id), b.source@], query_search(opt_view(q.search)))
    &&& passes(b.platform_id@, query_filter(q.platform_filters))
    &&& passes(b.readiness_level@, query_filter(q.readiness_filters))
    &&& passes(b.status@, query_filter(q.status_filters))
    &&& passes(b.source@, query_filter(q.source_filters))
}

/// The positions of the templates a query lists, in stored order.
pub open spec fn selected_positions(bases: Seq<TemplateBaseRecord>, q: DesktopTemplateMetadataPageQuery) -> Seq<usize>
    decreases bases.len(),
{
    if bases.len() == 0 {
        Seq::empty()
    } else {
        let prev = selected_positions(bases.drop_last(), q);
        if template_selected(bases.last(), q) {
            prev.push((bases.len() - 1) as usize)
        } else {
            prev
        }
    }
}

/// Whether template `a` is older than `b`: by `updated_at`, then by id, each
/// compared as text.
pub open spec fn older_template(a: TemplateBaseRecord, b: TemplateBaseRecord) -> bool {
    lex_lt(a.updated_at@, b.updated_at@) || (a.updated_at@ == b.updated_at@ && lex_lt(a.id@, b.id@))
}

/// Where a position goes in a list ordered newest first: before the first
/// entry that is older, after all that are not.
pub open spec fn newest_first_slot(sorted: Seq<usize>, bases: Seq<TemplateBaseRecord>, x: usize) -> int
    decreases sorted.len(),
{
    if sorted.len() == 0 {
        0
    } else if older_template(bases[sorted[0] as int], bases[x as int]) {
        0
    } else {
        1 + newest_first_slot(sorted.drop_first(), bases, x)
    }
}

/// The positions ordered newest first; positions of templates that are
/// neither older nor newer than each other keep their order.
pub open spec fn newest_first(positions: Seq<usize>, bases: Seq<TemplateBaseRecord>) -> Seq<usize>
    decreases positions.len(),
{
    if positions.len() == 0 {
        Seq::empty()
    } else {
        let s = newest_first(positions.drop_last(), bases);
        s.insert(newest_first_slot(s, bases, positions.last()), positions.last())
    }
}

proof fn lemma_slot_is(sorted: Seq<usize>, bases: Seq<TemplateBaseRecord>, x: usize, j: int)
    requires
        0 <= j <= sorted.len(),
        forall|k: int| 0 <= k < j ==> !older_template(bases[#[trigger] sorted[k] as int], bases[x as int]),
        j < sorted.len() ==> older_template(bases[sorted[j] as int], bases[x as int]),
    ensures
        newest_first_slot(sorted, bases, x) == j,
    decreases j,
{
    if j > 0 {
        assert(!older_template(bases[sorted[0] as int], bases[x as int]));
        let rest = sorted.drop_first();
        assert forall|k: int| 0 <= k < j - 1 implies !older_template(bases[#[trigger] rest[k] as int], bases[x as int]) by {
            assert(rest[k] == sorted[k + 1]);
        }
        if j - 1 < rest.len() {
            assert(rest[j - 1] == sorted[j]);
        }
        lemma_slot_is(rest, bases, x, j - 1);
    }
}

proof fn lemma_slot_bounds(sorted: Seq<usize>, bases: Seq<TemplateBaseRecord>, x: usize)
    ensures
        0 <= newest_first_slot(sorted, bases, x) <= sorted.len(),
    decreases sorted.len(),
{
    if sorted.len() > 0 {
        lemma_slot_bounds(sorted.drop_first(), bases, x);
    }
}

proof fn lemma_selected_in_range(bases: Seq<TemplateBaseRecord>, q: DesktopTemplateMetadataPageQuery)
    ensures
        selected_positions(bases, q).len() <= bases.len(),
        forall|k: int| 0 <= k < selected_positions(bases, q).len()
            ==> (#[trigger] selected_positions(bases, q)[k]) < bases.len(),
    decreases bases.len(),
{
    if bases.len() > 0 {
        lemma_selected_in_range(bases.drop_last(), q);
    }
}

fn older_than(a: &TemplateBaseRecord, b: &TemplateBaseRecord) -> (r: bool)
    ensures
        r == older_template(*a, *b),
{
    str_lt(a.updated_at.as_str(), b.updated_at.as_str()) || (str_eq(a.updated_at.as_str(), b.updated_at.as_str())
        && str_lt(a.id.as_str(), b.id.as_str()))
}

fn template_listed(
    b: &TemplateBaseRecord,
    search: &Option<String>,
    platform: &Option<Vec<String>>,
    readiness: &Option<Vec<String>>,
    status: &Option<Vec<String>>,
    source: &Option<Vec<String>>,
) -> (r: bool)
    ensures
        r == (search_hits(seq![b.id@, b.name@, b.platform_id@, store_text(b.store_id), b.source@], opt_view(*search))
            && passes_filter(b.platform_id@, *platform) && passes_filter(b.readiness_level@, *readiness)
            && passes_filter(b.status@, *status) && passes_filter(b.source@, *source)),
{
    let store = match &b.store_id {
        Some(s) => owned(s.as_str()),
        None => owned(""),
    };
    let texts = vec![
        owned(b.id.as_str()),
        owned(b.name.as_str()),
        owned(b.platform_id.as_str()),
        store,
        owned(b.source.as_str()),
    ];
    proof {
        assert(""@ =~= Seq::<char>::empty()) by {
            reveal_strlit("");
        }
        assert(strings_view(texts@) =~= seq![b.id@, b.name@, b.platform_id@, store_text(b.store_id), b.source@]);
    }
    search_hits_texts(&texts, search) && value_passes(b.platform_id.as_str(), platform)
        && value_passes(b.readiness_level.as_str(), readiness) && value_passes(b.status.as_str(), status)
        && value_passes(b.source.as_str(), source)
}

/// One page of the template list: the templates the query's search and
/// filters select, newest first, the page's share of them as metadata, and
/// how many were selected in all.
#[verifier::rlimit(30)]
pub fn template_metadata_page(bases: &Vec<TemplateBaseRecord>, query: &DesktopTemplateMetadataPageQuery) -> (pg: DesktopTemplateMetadataPage)
    requires
        bases@.len() <= i64::MAX,
        forall|k: int| 0 <= k < bases@.len() ==> metadata_buildable(#[trigger] bases@[k]),
        (page_number(query.page) - 1) * page_size_within(query.page_size, 50, 200) <= i64::MAX,
    ensures
        pg.page == page_number(query.page),
        pg.page_size == page_size_within(query.page_size, 50, 200),
        pg.total == selected_positions(bases@, *query).len(),
        ({
            let shown = page_slice(newest_first(selected_positions(bases@, *query), bases@), pg.page, pg.page_size);
            &&& pg.items@.len() == shown.len()
            &&& forall|k: int| 0 <= k < shown.len() ==> is_metadata_of(#[trigger] pg.items@[k], bases@[shown[k] as int])
        }),
{
    let page = sanitize_page(query.page);
    let page_size = sanitize_page_size(query.page_size, 50, 200);
    let search = trimmed_search(&query.search);
    let platform = normalized_filter(&query.platform_filters);
    let readiness = normalized_filter(&query.readiness_filters);
    let status = normalized_filter(&query.status_filters);
    let source = normalized_filter(&query.source_filters);

    let mut selected: Vec<usize> = Vec::new();
    let mut i: usize = 0;
    proof {
        assert(bases@.subrange(0, 0) =~= Seq::<TemplateBaseRecord>::empty());
    }
    while i < bases.len()
        invariant
            i <= bases@.len(),
            selected@ == selected_positions(bases@.subrange(0, i as int), *query),
            opt_view(search) == query_search(opt_view(query.search)),
            forall|v: Seq<char>| #[trigger] passes_filter(v, platform) == passes(v, query_filter(query.platform_filters)),
            forall|v: Seq<char>| #[trigger] passes_filter(v, readiness) == passes(v, query_filter(query.readiness_filters)),
            forall|v: Seq<char>| #[trigger] passes_filter(v, status) == passes(v, query_filter(query.status_filters)),
            forall|v: Seq<char>| #[trigger] passes_filter(v, source) == passes(v, query_filter(query.source_filters)),
        decreases bases@.len() - i,
    {
        proof {
            assert(bases@.subrange(0, i + 1).drop_last() =~= bases@.subrange(0, i as int));
            assert(bases@.subrange(0, i + 1).last() == bases@[i as int]);
        }
        if template_listed(&bases[i], &search, &platform, &readiness, &status, &source) {
            selected.push(i);
        }
        i = i + 1;
    }
    proof {
        assert(bases@.subrange(0, i as int) =~= bases@);
        lemma_selected_in_range(bases@, *query);
    }
    let ghost sel = selected@;

    let mut sorted: Vec<usize> = Vec::new();
    let mut n: usize = 0;
    proof {
        assert(sel.subrange(0, 0) =~= Seq::<usize>::empty());
    }
    while n < selected.len()
        invariant
            sel == selected@,
            sel == selected_positions(bases@, *query),
            forall|k: int| 0 <= k < sel.len() ==> (#[trigger] sel[k]) < bases@.len(),
            n <= sel.len(),
            sorted@ == newest_first(sel.subrange(0, n as int), bases@),
            sorted@.len() == n,
            forall|k: int| 0 <= k < sorted@.len() ==> (#[trigger] sorted@[k]) < bases@.len(),
        decreases sel.len() - n,
    {
        let x = selected[n];
        let mut j: usize = 0;
        while j < sorted.len() && !older_than(&bases[sorted[j]], &bases[x])
            invariant
                x < bases@.len(),
                j <= sorted@.len(),
                forall|k: int| 0 <= k < sorted@.len() ==> (#[trigger] sorted@[k]) < bases@.len(),
                forall|k: int| 0 <= k < j ==> !older_template(bases@[#[trigger] sorted@[k] as int], bases@[x as int]),
            decreases sorted@.len() - j,
        {
            j = j + 1;
        }
        proof {
            lemma_slot_is(sorted@, bases@, x, j as int);
            let pre = sel.subrange(0, n + 1);
            assert(pre.drop_last() =~= sel.subrange(0, n as int));
            assert(pre.last() == x);
        }
        let ghost before = sorted@;
        sorted.insert(j, x);
        proof {
            assert forall|k: int| 0 <= k < sorted@.len() implies (#[trigger] sorted@[k]) < bases@.len() by {
                if k < j {
                    assert(sorted@[k] == before[k]);
                } else if k > j {
                    assert(sorted@[k] == before[k - 1]);
                }
            }
        }
        n = n + 1;
    }
    proof {
        assert(sel.subrange(0, n as int) =~= sel);
    }
    let shown = page_of_positions(&sorted, page, page_size);
    let mut items: Vec<DesktopTemplateMetadata> = Vec::new();
    let mut k: usize = 0;
    proof {
        assert forall|t: int| 0 <= t < shown@.len() implies (#[trigger] shown@[t]) < bases@.len() by {
            let start = super::workbench::page_start(page, page_size);
            assert(shown@[t] == sorted@[start + t]);
        }
    }
    while k < shown.len()
        invariant
            k <= shown@.len(),
            items@.len() == k,
            forall|t: int| 0 <= t < shown@.len() ==> (#[trigger] shown@[t]) < bases@.len(),
            forall|t: int| 0 <= t < bases@.len() ==> metadata_buildable(#[trigger] bases@[t]),
            forall|t: int| 0 <= t < k ==> is_metadata_of(#[trigger] items@[t], bases@[shown@[t] as int]),
        decreases shown@.len() - k,
    {
        let m = build_template_metadata(&bases[shown[k]]);
        items.push(m);
        k = k + 1;
    }
    let total = selected.len() as i64;
    DesktopTemplateMetadataPage { page, page_size, total, items }
}

proof fn lemma_older_transitive(a: TemplateBaseRecord, b: TemplateBaseRecord, c: TemplateBaseRecord)
    requires
        older_template(a, b),
        older_template(b, c),
    ensures
        older_template(a, c),
{
    if lex_lt(a.updated_at@, b.updated_at@) && lex_lt(b.updated_at@, c.updated_at@) {
        lemma_lex_lt_transitive(a.updated_at@, b.updated_at@, c.updated_at@);
    } else if a.updated_at@ == b.updated_at@ && b.updated_at@ == c.updated_at@ {
        lemma_lex_lt_transitive(a.id@, b.id@, c.id@);
    }
}

proof fn lemma_slot_props(sorted: Seq<usize>, bases: Seq<TemplateBaseRecord>, x: usize)
    ensures
        0 <= newest_first_slot(sorted, bases, x) <= sorted.len(),
        forall|k: int| 0 <= k < newest_first_slot(sorted, bases, x)
            ==> !older_template(bases[#[trigger] sorted[k] as int], bases[x as int]),
        newest_first_slot(sorted, bases, x) < sorted.len()
            ==> older_template(bases[sorted[newest_first_slot(sorted, bases, x)] as int], bases[x as int]),
    decreases sorted.len(),
{
    if sorted.len() > 0 && !older_template(bases[sorted[0] as int], bases[x as int]) {
        let rest = sorted.drop_first();
        lemma_slot_props(rest, bases, x);
        let slot = newest_first_slot(sorted, bases, x);
        assert forall|k: int| 0 <= k < slot implies !older_template(bases[#[trigger] sorted[k] as int], bases[x as int]) by {
            if k > 0 {
                assert(sorted[k] == rest[k - 1]);
            }
        }
        if slot < sorted.len() {
            assert(sorted[slot] == rest[slot - 1]);
        }
    }
}

/// The template list runs newest first: no template is listed before one
/// that is newer than it (by `updated_at`, then id).
pub proof fn lemma_template_list_newest_first(positions: Seq<usize>, bases: Seq<TemplateBaseRecord>)
    ensures
        newest_first(positions, bases).len() == positions.len(),
        forall|i: int, j: int| 0 <= i < j < newest_first(positions, bases).len()
            ==> !older_template(
                bases[#[trigger] newest_first(positions, bases)[i] as int],
                bases[#[trigger] newest_first(positions, bases)[j] as int],
            ),
    decreases positions.len(),
{
    if positions.len() > 0 {
        let x = positions.last();
        lemma_template_list_newest_first(positions.drop_last(), bases);
        let s = newest_first(positions.drop_last(), bases);
        lemma_slot_props(s, bases, x);
        let slot = newest_first_slot(s, bases, x);
        let r = s.insert(slot, x);
        assert(r == newest_first(positions, bases));
        assert forall|i: int, j: int| 0 <= i < j < r.len()
            implies !older_template(bases[#[trigger] r[i] as int], bases[#[trigger] r[j] as int]) by {
            if j < slot {
                assert(r[i] == s[i] && r[j] == s[j]);
            } else if j == slot {
                assert(r[i] == s[i] && r[j] == x);
            } else if i < slot {
                assert(r[i] == s[i] && r[j] == s[j - 1]);
            } else if i == slot {
                assert(r[i] == x && r[j] == s[j - 1]);
                assert(slot < s.len());
                if older_template(bases[x as int], bases[s[j - 1] as int]) {
                    if j - 1 > slot {
                        assert(!older_template(bases[s[slot] as int], bases[s[j - 1] as int]));
                    }
                    lemma_older_transitive(bases[s[slot] as int], bases[x as int], bases[s[j - 1] as int]);
                    if j - 1 == slot {
                        lemma_older_irreflexive(bases[s[slot] as int]);
                    }
                }
            } else {
                assert(r[i] == s[i - 1] && r[j] == s[j - 1]);
            }
        }
    }
}

proof fn lemma_older_irreflexive(a: TemplateBaseRecord)
    ensures
        !older_template(a, a),
{
    crate::text::lemma_lex_lt_irreflexive(a.updated_at@);
    crate::text::lemma_lex_lt_irreflexive(a.id@);
}

} // verus!
