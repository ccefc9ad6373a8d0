//! Reading the JSON texts that desktop rows store (a task's result, an
//! artifact's metadata, a template's event chain) into the plain field
//! records the library works on, each field by the JSON pointer of its key.
//! A missing text and a text that is not JSON both read as absent.
use vstd::prelude::*;

use super::report_json::{entry_pointer, entry_ptr, key_ptr};
use super::run_detail::{ArtifactMetadataFields, ResultTextFields};
use super::session_bundle::JsonShape;
use super::task_list::TaskResultFields;
use super::template_meta::TemplateVariableFields;
use super::workbench::TemplateStepsShape;
use crate::bindings::{
    json_bool_at, json_list_len_at, json_shape_at, json_str_at, json_text_bool_at, json_text_list_len_at,
    json_text_shape, json_text_shape_at, json_text_str_at, json_text_value_text_at, json_value_text_at,
    parse_json_shape,
};
use crate::text::{opt_str_view, opt_view};

verus! {

/// Whether a stored text is present and parses as JSON.
pub open spec fn stored_json_parses(raw: Option<Seq<char>>) -> bool {
    match raw {
        Some(t) => json_text_shape(t) is Some,
        None => false,
    }
}

/// `f` holds what the result JSON text `t` has at the places the task list looks.
pub open spec fn task_result_fields_of(t: Seq<char>, f: TaskResultFields) -> bool {
    &&& opt_view(f.title) == json_text_str_at(t, "/title"@)
    &&& opt_view(f.browser_title) == json_text_str_at(t, "/browser/title"@)
    &&& opt_view(f.final_url) == json_text_str_at(t, "/final_url"@)
    &&& opt_view(f.final_url_camel) == json_text_str_at(t, "/finalUrl"@)
    &&& opt_view(f.browser_final_url) == json_text_str_at(t, "/browser/final_url"@)
    &&& opt_view(f.content_preview) == json_text_str_at(t, "/content_preview"@)
    &&& opt_view(f.content_preview_camel) == json_text_str_at(t, "/contentPreview"@)
    &&& opt_view(f.content_nested_preview) == json_text_str_at(t, "/content/preview"@)
    &&& opt_view(f.content_kind) == json_text_str_at(t, "/content_kind"@)
    &&& opt_view(f.content_kind_camel) == json_text_str_at(t, "/contentKind"@)
    &&& opt_view(f.content_nested_kind) == json_text_str_at(t, "/content/kind"@)
    &&& f.content_ready == json_text_bool_at(t, "/content_ready"@)
    &&& f.content_ready_camel == json_text_bool_at(t, "/contentReady"@)
    &&& f.content_nested_ready == json_text_bool_at(t, "/content/ready"@)
}

/// Reads a task's stored result text: `None` where there is none or it is
/// not JSON, else the texts and flags at the places the task list looks.
pub fn parse_task_result(raw: Option<&str>) -> (r: Option<TaskResultFields>)
    ensures
        match raw {
            Some(t) => if json_text_shape(t@) is Some {
                r matches Some(f) && task_result_fields_of(t@, f)
            } else {
                r is None
            },
            None => r is None,
        },
{
    let t = match raw {
        Some(t) => t,
        None => return None,
    };
    if parse_json_shape(t).is_none() {
        return None;
    }
    Some(TaskResultFields {
        title: json_str_at(t, "/title"),
        browser_title: json_str_at(t, "/browser/title"),
        final_url: json_str_at(t, "/final_url"),
        final_url_camel: json_str_at(t, "/finalUrl"),
        browser_final_url: json_str_at(t, "/browser/final_url"),
        content_preview: json_str_at(t, "/content_preview"),
        content_preview_camel: json_str_at(t, "/contentPreview"),
        content_nested_preview: json_str_at(t, "/content/preview"),
        content_kind: json_str_at(t, "/content_kind"),
        content_kind_camel: json_str_at(t, "/contentKind"),
        content_nested_kind: json_str_at(t, "/content/kind"),
        content_ready: json_bool_at(t, "/content_ready"),
        content_ready_camel: json_bool_at(t, "/contentReady"),
        content_nested_ready: json_bool_at(t, "/content/ready"),
    })
}

/// `f` holds the texts the result JSON text `t` has where the run detail looks.
pub open spec fn result_texts_of(t: Seq<char>, f: ResultTextFields) -> bool {
    &&& opt_view(f.message) == json_text_str_at(t, "/message"@)
    &&& opt_view(f.error_message) == json_text_str_at(t, "/error_message"@)
    &&& opt_view(f.error_nested_message) == json_text_str_at(t, "/error/message"@)
    &&& opt_view(f.summary) == json_text_str_at(t, "/summary"@)
    &&& opt_view(f.title) == json_text_str_at(t, "/title"@)
    &&& opt_view(f.template_name) == json_text_str_at(t, "/template_name"@)
    &&& opt_view(f.headline) == json_text_str_at(t, "/headline"@)
}

/// Reads a task's or run's stored result text for the run detail: `None`
/// where there is none or it is not JSON.
pub fn parse_result_texts(raw: Option<&str>) -> (r: Option<ResultTextFields>)
    ensures
        match raw {
            Some(t) => if json_text_shape(t@) is Some {
                r matches Some(f) && result_texts_of(t@, f)
            } else {
                r is None
            },
            None => r is None,
        },
{
    let t = match raw {
        Some(t) => t,
        None => return None,
    };
    if parse_json_shape(t).is_none() {
        return None;
    }
    Some(ResultTextFields {
        message: json_str_at(t, "/message"),
        error_message: json_str_at(t, "/error_message"),
        error_nested_message: json_str_at(t, "/error/message"),
        summary: json_str_at(t, "/summary"),
        title: json_str_at(t, "/title"),
        template_name: json_str_at(t, "/template_name"),
        headline: json_str_at(t, "/headline"),
    })
}

/// `f` holds the texts the metadata JSON text `t` has where the run detail looks.
pub open spec fn artifact_metadata_of(t: Seq<char>, f: ArtifactMetadataFields) -> bool {
    &&& opt_view(f.label) == json_text_str_at(t, "/label"@)
    &&& opt_view(f.title) == json_text_str_at(t, "/title"@)
    &&& opt_view(f.kind) == json_text_str_at(t, "/kind"@)
    &&& opt_view(f.status) == json_text_str_at(t, "/status"@)
}

/// Reads an artifact's stored metadata text: `None` where there is none or
/// it is not JSON.
pub fn parse_artifact_metadata(raw: Option<&str>) -> (r: Option<ArtifactMetadataFields>)
    ensures
        match raw {
            Some(t) => if json_text_shape(t@) is Some {
                r matches Some(f) && artifact_metadata_of(t@, f)
            } else {
                r is None
            },
            None => r is None,
        },
{
    let t = match raw {
        Some(t) => t,
        None => return None,
    };
    if parse_json_shape(t).is_none() {
        return None;
    }
    Some(ArtifactMetadataFields {
        label: json_str_at(t, "/label"),
        title: json_str_at(t, "/title"),
        kind: json_str_at(t, "/kind"),
        status: json_str_at(t, "/status"),
    })
}

/// The shape of a template's stored event chain text: absent where there is
/// none or it is not JSON, a list of its length, an object with the length
/// of its `steps` list, or another value.
pub open spec fn template_steps_shape_of(raw: Option<Seq<char>>) -> TemplateStepsShape {
    match raw {
        None => TemplateStepsShape::Absent,
        Some(t) => match json_text_shape(t) {
            None => TemplateStepsShape::Absent,
            Some(JsonShape::Array { len }) => TemplateStepsShape::List { len: len as u64 },
            Some(JsonShape::Object { .. }) => TemplateStepsShape::Object {
                steps_len: match json_text_list_len_at(t, "/steps"@) {
                    Some(n) => Some(n as u64),
                    None => None,
                },
            },
            Some(_) => TemplateStepsShape::Other,
        },
    }
}

/// Reads the shape of a template's stored event chain text.
pub fn parse_template_steps_shape(raw: Option<&str>) -> (s: TemplateStepsShape)
    ensures
        s == template_steps_shape_of(opt_str_view(raw)),
{
    let t = match raw {
        Some(t) => t,
        None => return TemplateStepsShape::Absent,
    };
    match parse_json_shape(t) {
        None => TemplateStepsShape::Absent,
        Some(JsonShape::Array { len }) => TemplateStepsShape::List { len: len as u64 },
        Some(JsonShape::Object { .. }) => TemplateStepsShape::Object {
            steps_len: match json_list_len_at(t, "/steps") {
                Some(n) => Some(n as u64),
                None => None,
            },
        },
        Some(_) => TemplateStepsShape::Other,
    }
}

/// The pointer of entry `i` of an event chain's `variables` list.
pub open spec fn variable_pointer(i: nat) -> Seq<char> {
    entry_pointer("/variables"@, i)
}

/// The pointer of key `k` of entry `i` of the `variables` list.
pub open spec fn variable_key_pointer(i: nat, k: Seq<char>) -> Seq<char> {
    variable_pointer(i) + "/"@ + k
}

/// How entry `i` of the `variables` list of the event chain text `t` reads:
/// `None` for an entry that is not an object, else its fields, with
/// `default_value` the JSON text of `defaultValue`.
pub open spec fn variable_entry_read(t: Seq<char>, i: nat, e: Option<TemplateVariableFields>) -> bool {
    let is_object = json_text_shape_at(t, variable_pointer(i)) matches Some(JsonShape::Object { .. });
    match e {
        None => !is_object,
        Some(f) => {
            &&& is_object
            &&& opt_view(f.key) == json_text_str_at(t, variable_key_pointer(i, "key"@))
            &&& opt_view(f.label) == json_text_str_at(t, variable_key_pointer(i, "label"@))
            &&& opt_view(f.source) == json_text_str_at(t, variable_key_pointer(i, "source"@))
            &&& f.required == json_text_bool_at(t, variable_key_pointer(i, "required"@))
            &&& f.sensitive == json_text_bool_at(t, variable_key_pointer(i, "sensitive"@))
            &&& opt_view(f.default_value) == json_text_value_text_at(t, variable_key_pointer(i, "defaultValue"@))
        },
    }
}

fn read_variable_entry(t: &str, i: usize) -> (e: Option<TemplateVariableFields>)
    ensures
        variable_entry_read(t@, i as nat, e),
{
    let entry = entry_ptr("/variables", i);
    match json_shape_at(t, entry.as_str()) {
        Some(JsonShape::Object { .. }) => {},
        _ => return None,
    }
    let key = key_ptr(entry.as_str(), "key");
    let label = key_ptr(entry.as_str(), "label");
    let source = key_ptr(entry.as_str(), "source");
    let required = key_ptr(entry.as_str(), "required");
    let sensitive = key_ptr(entry.as_str(), "sensitive");
    let default_value = key_ptr(entry.as_str(), "defaultValue");
    Some(TemplateVariableFields {
        key: json_str_at(t, key.as_str()),
        label: json_str_at(t, label.as_str()),
        source: json_str_at(t, source.as_str()),
        required: json_bool_at(t, required.as_str()),
        sensitive: json_bool_at(t, sensitive.as_str()),
        default_value: json_value_text_at(t, default_value.as_str()),
    })
}

/// Reads the entries of the `variables` list of a template's stored event
/// chain text, one per entry in order; none where there is no text or no
/// such list.
pub fn parse_template_variables(raw: Option<&str>) -> (v: Vec<Option<TemplateVariableFields>>)
    ensures
        match raw {
            Some(t) => {
                &&& v.len() == match json_text_list_len_at(t@, "/variables"@) {
                    Some(n) => n as int,
                    None => 0,
                }
                &&& forall|i: int| 0 <= i < v.len() ==> variable_entry_read(t@, i as nat, #[trigger] v@[i])
            },
            None => v.len() == 0,
        },
{
    let mut out: Vec<Option<TemplateVariableFields>> = Vec::new();
    let t = match raw {
        Some(t) => t,
        None => return out,
    };
    let n = match json_list_len_at(t, "/variables") {
        Some(n) => n,
        None => return out,
    };
    let mut i: usize = 0;
    while i < n
        invariant
            i <= n,
            out.len() == i,
            forall|j: int| 0 <= j < i ==> variable_entry_read(t@, j as nat, #[trigger] out@[j]),
        decreases n - i,
    {
        let e = read_variable_entry(t, i);
        out.push(e);
        i = i + 1;
    }
    out
}

} // verus!
