//! Form action planning: the normalised form input of a task, the selectors
//! each field is filled through (task first, then the site's whitelisted form
//! contract, then a built-in heuristic) and the reasons an active run is held.
use vstd::prelude::*;

use crate::text::{
    concat2,
    concat3, copy_opt, join_strings, joined, nonblank_trimmed, normalized_optional_text, opt_view,
    owned, seq_strip_prefix, str_eq, lemma_strings_view_push, str_strip_prefix, strings_view, trim, trim_str,
    trimmed_nonempty, trimmed_nonempty_items, is_blank,
};

verus! {

pub const FORM_ACTION_STATUS_NOT_REQUESTED: &'static str = "not_requested";
pub const FORM_ACTION_STATUS_SHADOW_ONLY: &'static str = "shadow_only";
pub const FORM_ACTION_STATUS_BLOCKED: &'static str = "blocked";
pub const FORM_ACTION_STATUS_RUNNING: &'static str = "running";
pub const FORM_ACTION_STATUS_SUCCEEDED: &'static str = "succeeded";
pub const FORM_ACTION_STATUS_FAILED: &'static str = "failed";

/// The selector tried for a `username` field when neither the task nor the
/// site contract names one.
pub const USERNAME_HEURISTIC_SELECTOR: &'static str = "input[name='username'], input[name='email'], input[type='email'], input[id*='user' i], input[id*='email' i]";

/// The selector tried for a `remember_me` field when neither the task nor the
/// site contract names one.
pub const REMEMBER_ME_HEURISTIC_SELECTOR: &'static str = "input[type='checkbox'][name*='remember' i], input[type='checkbox'][id*='remember' i]";

/// The scheme every secret reference uses.
pub const SECRET_REF_PREFIX: &'static str = "identity://";

/// One field of a requested form action. `value` holds an inline value as
/// JSON text; exactly one of `value`, `secret_ref` and `bundle_key` is given.
#[derive(Debug, Clone)]
pub struct FormFieldInputRequest {
    pub key: String,
    pub role: String,
    pub selector: Option<String>,
    pub required: Option<bool>,
    pub sensitive: Option<bool>,
    pub value: Option<String>,
    pub secret_ref: Option<String>,
    pub bundle_key: Option<String>,
}

#[derive(Debug, Clone)]
pub struct FormSubmitInputRequest {
    pub selector: Option<String>,
    pub trigger: Option<String>,
}

#[derive(Debug, Clone)]
pub struct FormSuccessInputRequest {
    pub ready_selector: Option<String>,
    pub url_patterns: Option<Vec<String>>,
    pub title_contains: Option<Vec<String>>,
}

/// A form action as a task requests it.
#[derive(Debug, Clone)]
pub struct FormInputRequest {
    pub mode: String,
    pub form_selector: Option<String>,
    pub secret_bundle_ref: Option<String>,
    pub fields: Vec<FormFieldInputRequest>,
    pub submit: Option<FormSubmitInputRequest>,
    pub success: Option<FormSuccessInputRequest>,
}

#[derive(Debug, Clone)]
pub struct NormalizedFormFieldInput {
    pub key: String,
    pub role: String,
    pub selector: Option<String>,
    pub required: bool,
    pub sensitive: bool,
    pub value: Option<String>,
    pub secret_ref: Option<String>,
    pub bundle_key: Option<String>,
}

#[derive(Debug, Clone)]
pub struct NormalizedFormSubmitInput {
    pub selector: Option<String>,
    pub trigger: String,
}

#[derive(Debug, Clone)]
pub struct NormalizedFormSuccessInput {
    pub ready_selector: Option<String>,
    pub url_patterns: Vec<String>,
    pub title_contains: Vec<String>,
}

#[derive(Debug, Clone)]
pub struct NormalizedFormInput {
    pub mode: String,
    pub form_selector: Option<String>,
    pub secret_bundle_ref: Option<String>,
    pub fields: Vec<NormalizedFormFieldInput>,
    pub submit: Option<NormalizedFormSubmitInput>,
    pub success: Option<NormalizedFormSuccessInput>,
}

/// Who a form action runs for: the identity profile whose secrets it may use.
#[derive(Debug, Clone)]
pub struct RunnerExecutionIntent {
    pub identity_profile_id: Option<String>,
}

/// Why a form input was refused.
#[derive(Debug, Clone)]
pub enum FormError {
    InvalidMode { given: String },
    EmptyFields,
    MissingFieldKey,
    InvalidRole { given: String },
    ValueSourceCount,
    InvalidSecretRef,
    InvalidSubmitTrigger,
    IdentityProfileRequired,
}

/// A refusal as a value of the specification.
pub enum FormFault {
    Mode(Seq<char>),
    EmptyFields,
    FieldKey,
    Role(Seq<char>),
    ValueSourceCount,
    SecretRef,
    SubmitTrigger,
    IdentityProfileRequired,
}

pub open spec fn fault_of(e: FormError) -> FormFault {
    match e {
        FormError::InvalidMode { given } => FormFault::Mode(given@),
        FormError::EmptyFields => FormFault::EmptyFields,
        FormError::MissingFieldKey => FormFault::FieldKey,
        FormError::InvalidRole { given } => FormFault::Role(given@),
        FormError::ValueSourceCount => FormFault::ValueSourceCount,
        FormError::InvalidSecretRef => FormFault::SecretRef,
        FormError::InvalidSubmitTrigger => FormFault::SubmitTrigger,
        FormError::IdentityProfileRequired => FormFault::IdentityProfileRequired,
    }
}

impl FormError {
    /// The message the error is reported with.
    pub fn message(&self) -> (m: String)
        ensures
            m@ == match self {
                FormError::InvalidMode { given } => "form_input.mode must be auth|form, got "@ + given@,
                FormError::EmptyFields => "form_input.fields must not be empty"@,
                FormError::MissingFieldKey => "form_input.fields[*].key is required"@,
                FormError::InvalidRole { given } =>
                    "form_input.fields[*].role must be username|password|remember_me|custom, got "@ + given@,
                FormError::ValueSourceCount =>
                    "form_input.fields[*].value, secret_ref, bundle_key must contain exactly one source"@,
                FormError::InvalidSecretRef => "secret ref must use identity://<alias> syntax"@,
                FormError::InvalidSubmitTrigger => "form_input.submit.trigger must be click"@,
                FormError::IdentityProfileRequired =>
                    "identity_profile_id is required when using identity:// secret refs"@,
            },
    {
        match self {
            FormError::InvalidMode { given } => concat2("form_input.mode must be auth|form, got ", given.as_str()),
            FormError::EmptyFields => owned("form_input.fields must not be empty"),
            FormError::MissingFieldKey => owned("form_input.fields[*].key is required"),
            FormError::InvalidRole { given } => concat2(
                "form_input.fields[*].role must be username|password|remember_me|custom, got ",
                given.as_str(),
            ),
            FormError::ValueSourceCount => owned(
                "form_input.fields[*].value, secret_ref, bundle_key must contain exactly one source",
            ),
            FormError::InvalidSecretRef => owned("secret ref must use identity://<alias> syntax"),
            FormError::InvalidSubmitTrigger => owned("form_input.submit.trigger must be click"),
            FormError::IdentityProfileRequired => owned(
                "identity_profile_id is required when using identity:// secret refs",
            ),
        }
    }
}

/// The form modes a task may request.
pub open spec fn form_mode_names() -> Seq<Seq<char>> {
    seq!["auth"@, "form"@]
}

/// The roles a form field may play.
pub open spec fn form_role_names() -> Seq<Seq<char>> {
    seq!["username"@, "password"@, "remember_me"@, "custom"@]
}

/// The requested mode, trimmed, when it is one the planner knows.
pub fn normalize_mode(mode: &str) -> (r: Result<String, FormError>)
    ensures
        match r {
            Ok(m) => m@ == trim(mode@) && form_mode_names().contains(trim(mode@)),
            Err(e) => fault_of(e) == FormFault::Mode(trim(mode@)) && !form_mode_names().contains(
                trim(mode@),
            ),
        },
{
    let t = trim_str(mode);
    if str_eq(t.as_str(), "auth") || str_eq(t.as_str(), "form") {
        proof {
            assert(form_mode_names()[0] == "auth"@);
            assert(form_mode_names()[1] == "form"@);
        }
        Ok(t)
    } else {
        proof {
            assert(form_mode_names().len() == 2);
        }
        Err(FormError::InvalidMode { given: t })
    }
}

/// The requested role, trimmed, when it is one the planner knows.
pub fn normalize_role(role: &str) -> (r: Result<String, FormError>)
    ensures
        match r {
            Ok(m) => m@ == trim(role@) && form_role_names().contains(trim(role@)),
            Err(e) => fault_of(e) == FormFault::Role(trim(role@)) && !form_role_names().contains(
                trim(role@),
            ),
        },
{
    let t = trim_str(role);
    if str_eq(t.as_str(), "username") || str_eq(t.as_str(), "password") || str_eq(
        t.as_str(),
        "remember_me",
    ) || str_eq(t.as_str(), "custom") {
        proof {
            assert(form_role_names()[0] == "username"@);
            assert(form_role_names()[1] == "password"@);
            assert(form_role_names()[2] == "remember_me"@);
            assert(form_role_names()[3] == "custom"@);
        }
        Ok(t)
    } else {
        proof {
            assert(form_role_names().len() == 4);
        }
        Err(FormError::InvalidRole { given: t })
    }
}

/// The alias a secret reference names: what follows `identity://`, when that
/// is not blank.
pub open spec fn secret_alias(secret_ref: Seq<char>) -> Option<Seq<char>> {
    match seq_strip_prefix(secret_ref, SECRET_REF_PREFIX@) {
        Some(rest) => if trim(rest).len() == 0 {
            None
        } else {
            Some(rest)
        },
        None => None,
    }
}

/// The alias of an `identity://<alias>` secret reference.
pub fn resolve_secret_alias(alias: &str) -> (r: Result<String, FormError>)
    ensures
        match r {
            Ok(a) => secret_alias(alias@) == Some(a@),
            Err(e) => secret_alias(alias@) is None && e is InvalidSecretRef,
        },
{
    match str_strip_prefix(alias, SECRET_REF_PREFIX) {
        Some(rest) => if is_blank(rest.as_str()) {
            Err(FormError::InvalidSecretRef)
        } else {
            Ok(rest)
        },
        None => Err(FormError::InvalidSecretRef),
    }
}

/// Checks that a secret reference has the `identity://<alias>` form.
pub fn validate_secret_ref(secret_ref: &str) -> (r: Result<(), FormError>)
    ensures
        r is Ok <==> secret_alias(secret_ref@) is Some,
        r matches Err(e) ==> e is InvalidSecretRef,
{
    match resolve_secret_alias(secret_ref) {
        Ok(_) => Ok(()),
        Err(e) => Err(e),
    }
}


/// How many of a field's value sources are given.
pub open spec fn value_source_count(f: FormFieldInputRequest) -> int {
    (if f.value is Some { 1int } else { 0int }) + (if f.secret_ref is Some { 1int } else { 0int })
        + (if f.bundle_key is Some { 1int } else { 0int })
}

/// Why a requested field is refused, checked in this order.
pub open spec fn field_fault(f: FormFieldInputRequest) -> Option<FormFault> {
    if trim(f.key@).len() == 0 {
        Some(FormFault::FieldKey)
    } else if !form_role_names().contains(trim(f.role@)) {
        Some(FormFault::Role(trim(f.role@)))
    } else if value_source_count(f) != 1 {
        Some(FormFault::ValueSourceCount)
    } else if f.secret_ref matches Some(r) && secret_alias(r@) is None {
        Some(FormFault::SecretRef)
    } else {
        None
    }
}

/// `n` is the normalised form of the requested field `f`.
pub open spec fn normalized_field(f: FormFieldInputRequest, n: NormalizedFormFieldInput) -> bool {
    &&& n.key@ == trim(f.key@)
    &&& n.role@ == trim(f.role@)
    &&& opt_view(n.selector) == nonblank_trimmed(opt_view(f.selector))
    &&& n.required == (f.required == Some(true))
    &&& n.sensitive == (f.sensitive == Some(true))
    &&& opt_view(n.value) == opt_view(f.value)
    &&& opt_view(n.secret_ref) == nonblank_trimmed(opt_view(f.secret_ref))
    &&& opt_view(n.bundle_key) == nonblank_trimmed(opt_view(f.bundle_key))
}

/// Normalises one requested field: trims its key, role and texts, and checks
/// that it names exactly one value source.
pub fn normalize_form_field(field: &FormFieldInputRequest) -> (r: Result<NormalizedFormFieldInput, FormError>)
    ensures
        match r {
            Ok(n) => field_fault(*field) is None && normalized_field(*field, n),
            Err(e) => field_fault(*field) == Some(fault_of(e)),
        },
{
    let key = trim_str(field.key.as_str());
    if key.as_str().is_empty() {
        return Err(FormError::MissingFieldKey);
    }
    let role = match normalize_role(field.role.as_str()) {
        Ok(role) => role,
        Err(e) => return Err(e),
    };
    let mut sources: u8 = 0;
    if field.value.is_some() {
        sources = sources + 1;
    }
    if field.secret_ref.is_some() {
        sources = sources + 1;
    }
    if field.bundle_key.is_some() {
        sources = sources + 1;
    }
    if sources != 1 {
        return Err(FormError::ValueSourceCount);
    }
    match &field.secret_ref {
        Some(secret_ref) => match validate_secret_ref(secret_ref.as_str()) {
            Ok(()) => {},
            Err(e) => return Err(e),
        },
        None => {},
    }
    let required = match field.required {
        Some(b) => b,
        None => false,
    };
    let sensitive = match field.sensitive {
        Some(b) => b,
        None => false,
    };
    Ok(NormalizedFormFieldInput {
        key,
        role,
        selector: normalized_optional_text(copy_opt(&field.selector)),
        required,
        sensitive,
        value: copy_opt(&field.value),
        secret_ref: normalized_optional_text(copy_opt(&field.secret_ref)),
        bundle_key: normalized_optional_text(copy_opt(&field.bundle_key)),
    })
}

/// The trigger a submit input asks for, `click` when it names none.
pub open spec fn submit_trigger(s: FormSubmitInputRequest) -> Seq<char> {
    trim(
        match s.trigger {
            Some(t) => t@,
            None => "click"@,
        },
    )
}

/// Normalises the submit part of a form input; only `click` is supported.
pub fn normalize_submit_input(input: &FormSubmitInputRequest) -> (r: Result<NormalizedFormSubmitInput, FormError>)
    ensures
        match r {
            Ok(n) => submit_trigger(*input) == "click"@ && n.trigger@ == "click"@ && opt_view(n.selector)
                == nonblank_trimmed(opt_view(input.selector)),
            Err(e) => submit_trigger(*input) != "click"@ && e is InvalidSubmitTrigger,
        },
{
    let trigger = match &input.trigger {
        Some(t) => trim_str(t.as_str()),
        None => trim_str("click"),
    };
    if !str_eq(trigger.as_str(), "click") {
        return Err(FormError::InvalidSubmitTrigger);
    }
    Ok(NormalizedFormSubmitInput {
        selector: normalized_optional_text(copy_opt(&input.selector)),
        trigger,
    })
}

/// The entries of an optional list, none when it is absent.
pub open spec fn opt_items(v: Option<Vec<String>>) -> Seq<Seq<char>> {
    match v {
        Some(v) => strings_view(v@),
        None => seq![],
    }
}

/// `n` is the normalised form of the success input `s`.
pub open spec fn normalized_success(s: FormSuccessInputRequest, n: NormalizedFormSuccessInput) -> bool {
    &&& opt_view(n.ready_selector) == nonblank_trimmed(opt_view(s.ready_selector))
    &&& strings_view(n.url_patterns@) == trimmed_nonempty(opt_items(s.url_patterns))
    &&& strings_view(n.title_contains@) == trimmed_nonempty(opt_items(s.title_contains))
}

fn opt_trimmed_items(items: &Option<Vec<String>>) -> (r: Vec<String>)
    ensures
        strings_view(r@) == trimmed_nonempty(opt_items(*items)),
{
    match items {
        Some(v) => trimmed_nonempty_items(v),
        None => {
            let r: Vec<String> = Vec::new();
            assert(strings_view(r@) =~= seq![]);
            r
        },
    }
}

/// Normalises the success part of a form input: trims the ready selector and
/// keeps the non-blank URL patterns and title fragments, trimmed.
pub fn normalize_success_input(input: &FormSuccessInputRequest) -> (n: NormalizedFormSuccessInput)
    ensures
        normalized_success(*input, n),
{
    NormalizedFormSuccessInput {
        ready_selector: normalized_optional_text(copy_opt(&input.ready_selector)),
        url_patterns: opt_trimmed_items(&input.url_patterns),
        title_contains: opt_trimmed_items(&input.title_contains),
    }
}

/// The first refused field, in order.
pub open spec fn first_field_fault(fields: Seq<FormFieldInputRequest>) -> Option<FormFault>
    decreases fields.len(),
{
    if fields.len() == 0 {
        None
    } else {
        match first_field_fault(fields.drop_last()) {
            Some(f) => Some(f),
            None => field_fault(fields.last()),
        }
    }
}

proof fn lemma_first_field_fault_prefix(s: Seq<FormFieldInputRequest>, j: int)
    requires
        0 <= j <= s.len(),
        first_field_fault(s.subrange(0, j)) is Some,
    ensures
        first_field_fault(s) == first_field_fault(s.subrange(0, j)),
    decreases s.len() - j,
{
    if j == s.len() {
        assert(s.subrange(0, j) =~= s);
    } else {
        let t = s.drop_last();
        assert(t.subrange(0, j) =~= s.subrange(0, j));
        lemma_first_field_fault_prefix(t, j);
    }
}

/// Why a requested form input is refused, checked in this order.
pub open spec fn input_fault(inp: FormInputRequest) -> Option<FormFault> {
    if !form_mode_names().contains(trim(inp.mode@)) {
        Some(FormFault::Mode(trim(inp.mode@)))
    } else if inp.fields@.len() == 0 {
        Some(FormFault::EmptyFields)
    } else if first_field_fault(inp.fields@) is Some {
        first_field_fault(inp.fields@)
    } else if inp.submit matches Some(s) && submit_trigger(s) != "click"@ {
        Some(FormFault::SubmitTrigger)
    } else if nonblank_trimmed(opt_view(inp.secret_bundle_ref)) matches Some(r) && secret_alias(r) is None {
        Some(FormFault::SecretRef)
    } else {
        None
    }
}

/// `n` is the normalised form of the form input `inp`.
pub open spec fn normalized_input(inp: FormInputRequest, n: NormalizedFormInput) -> bool {
    &&& n.mode@ == trim(inp.mode@)
    &&& opt_view(n.form_selector) == nonblank_trimmed(opt_view(inp.form_selector))
    &&& opt_view(n.secret_bundle_ref) == nonblank_trimmed(opt_view(inp.secret_bundle_ref))
    &&& n.fields@.len() == inp.fields@.len()
    &&& forall|i: int| 0 <= i < n.fields@.len() ==> normalized_field(#[trigger] inp.fields@[i], n.fields@[i])
    &&& match (inp.submit, n.submit) {
        (Some(s), Some(m)) => m.trigger@ == submit_trigger(s) && opt_view(m.selector) == nonblank_trimmed(opt_view(s.selector)),
        (None, None) => true,
        _ => false,
    }
    &&& match (inp.success, n.success) {
        (Some(s), Some(m)) => normalized_success(s, m),
        (None, None) => true,
        _ => false,
    }
}

/// Normalises a requested form input, refusing it with the first problem found.
pub fn normalize_form_input(form_input: &FormInputRequest) -> (r: Result<NormalizedFormInput, FormError>)
    ensures
        match r {
            Ok(n) => input_fault(*form_input) is None && normalized_input(*form_input, n),
            Err(e) => input_fault(*form_input) == Some(fault_of(e)),
        },
{
    let mode = match normalize_mode(form_input.mode.as_str()) {
        Ok(m) => m,
        Err(e) => return Err(e),
    };
    if form_input.fields.len() == 0 {
        return Err(FormError::EmptyFields);
    }
    let mut fields: Vec<NormalizedFormFieldInput> = Vec::new();
    let mut i: usize = 0;
    while i < form_input.fields.len()
        invariant
            i <= form_input.fields@.len(),
            form_input.fields@.len() > 0,
            form_mode_names().contains(trim(form_input.mode@)),
            mode@ == trim(form_input.mode@),
            fields@.len() == i,
            first_field_fault(form_input.fields@.subrange(0, i as int)) is None,
            forall|k: int| 0 <= k < i ==> normalized_field(#[trigger] form_input.fields@[k], fields@[k]),
        decreases form_input.fields@.len() - i,
    {
        let ghost sub = form_input.fields@.subrange(0, i as int + 1);
        proof {
            assert(sub.drop_last() =~= form_input.fields@.subrange(0, i as int));
            assert(sub.last() == form_input.fields@[i as int]);
        }
        match normalize_form_field(&form_input.fields[i]) {
            Ok(n) => {
                fields.push(n);
            },
            Err(e) => {
                proof {
                    lemma_first_field_fault_prefix(form_input.fields@, i as int + 1);
                }
                return Err(e);
            },
        }
        i = i + 1;
    }
    assert(form_input.fields@.subrange(0, i as int) =~= form_input.fields@);
    let submit = match &form_input.submit {
        Some(s) => match normalize_submit_input(s) {
            Ok(n) => Some(n),
            Err(e) => return Err(e),
        },
        None => None,
    };
    let success = match &form_input.success {
        Some(s) => Some(normalize_success_input(s)),
        None => None,
    };
    let secret_bundle_ref = normalized_optional_text(copy_opt(&form_input.secret_bundle_ref));
    match &secret_bundle_ref {
        Some(r) => match validate_secret_ref(r.as_str()) {
            Ok(()) => {},
            Err(e) => return Err(e),
        },
        None => {},
    }
    Ok(NormalizedFormInput {
        mode,
        form_selector: normalized_optional_text(copy_opt(&form_input.form_selector)),
        secret_bundle_ref,
        fields,
        submit,
        success,
    })
}

/// Whether a normalised input uses identity secrets: a bundle reference or a
/// field with a secret reference.
pub open spec fn needs_identity(nf: NormalizedFormInput) -> bool {
    nf.secret_bundle_ref is Some || exists|i: int|
        0 <= i < nf.fields@.len() && (#[trigger] nf.fields@[i]).secret_ref is Some
}

/// Refuses a form input that uses identity secrets when the run names no
/// identity profile.
pub fn validate_secret_requirements(
    execution_intent: &RunnerExecutionIntent,
    form_input: &NormalizedFormInput,
) -> (r: Result<(), FormError>)
    ensures
        r is Err <==> needs_identity(*form_input) && execution_intent.identity_profile_id is None,
        r matches Err(e) ==> e is IdentityProfileRequired,
{
    let mut requires_identity = form_input.secret_bundle_ref.is_some();
    let mut i: usize = 0;
    while i < form_input.fields.len()
        invariant
            i <= form_input.fields@.len(),
            requires_identity == (form_input.secret_bundle_ref is Some || exists|k: int|
                0 <= k < i && (#[trigger] form_input.fields@[k]).secret_ref is Some),
        decreases form_input.fields@.len() - i,
    {
        if form_input.fields[i].secret_ref.is_some() {
            requires_identity = true;
        }
        i = i + 1;
    }
    if requires_identity && execution_intent.identity_profile_id.is_none() {
        Err(FormError::IdentityProfileRequired)
    } else {
        Ok(())
    }
}


/// The selector a site's form contract gives for one field role or field key;
/// `selector` is `None` when the contract's entry holds no selector text.
#[derive(Debug, Clone)]
pub struct FormFieldRoleSelector {
    pub name: String,
    pub selector: Option<String>,
}

/// The active whitelisted form contract of a site, as read from its behavior
/// policy: the policy it belongs to and the selectors it names. The lists hold
/// the text entries of the contract's arrays, untrimmed.
#[derive(Debug, Clone)]
pub struct SiteFormContract {
    pub policy_id: String,
    pub policy_version: i64,
    pub primary_form_selector: Option<String>,
    pub field_roles: Vec<FormFieldRoleSelector>,
    pub submit_selector: Option<String>,
    pub success_ready_selector: Option<String>,
    pub success_url_patterns: Option<Vec<String>>,
    pub success_title_contains: Option<Vec<String>>,
    pub login_error: Vec<String>,
    pub field_error: Vec<String>,
    pub account_locked: Vec<String>,
}

/// The selector the first entry named `name` gives.
pub open spec fn role_selector(roles: Seq<FormFieldRoleSelector>, name: Seq<char>) -> Option<Seq<char>>
    decreases roles.len(),
{
    if roles.len() == 0 {
        None
    } else if roles[0].name@ == name {
        opt_view(roles[0].selector)
    } else {
        role_selector(roles.drop_first(), name)
    }
}

fn lookup_role_selector(roles: &Vec<FormFieldRoleSelector>, name: &str) -> (r: Option<String>)
    ensures
        opt_view(r) == role_selector(roles@, name@),
{
    let mut i: usize = 0;
    assert(roles@.subrange(0, roles@.len() as int) =~= roles@);
    while i < roles.len()
        invariant
            i <= roles@.len(),
            role_selector(roles@, name@) == role_selector(roles@.subrange(i as int, roles@.len() as int), name@),
        decreases roles@.len() - i,
    {
        let ghost rest = roles@.subrange(i as int, roles@.len() as int);
        assert(rest[0] == roles@[i as int]);
        if str_eq(roles[i].name.as_str(), name) {
            return copy_opt(&roles[i].selector);
        }
        assert(rest.drop_first() =~= roles@.subrange(i as int + 1, roles@.len() as int));
        i = i + 1;
    }
    None
}

/// The selector a site contract gives a field: by its role, else by its key.
pub open spec fn contract_field_selector(contract: Option<SiteFormContract>, f: NormalizedFormFieldInput) -> Option<Seq<char>> {
    match contract {
        Some(c) => match role_selector(c.field_roles@, f.role@) {
            Some(s) => Some(s),
            None => role_selector(c.field_roles@, f.key@),
        },
        None => None,
    }
}

/// The selector the field roles of a site contract give a field: the entry
/// for its role, else the entry for its key.
pub fn selector_from_field_roles(
    field_roles: &Vec<FormFieldRoleSelector>,
    field: &NormalizedFormFieldInput,
) -> (r: Option<String>)
    ensures
        opt_view(r) == match role_selector(field_roles@, field.role@) {
            Some(s) => Some(s),
            None => role_selector(field_roles@, field.key@),
        },
{
    match lookup_role_selector(field_roles, field.role.as_str()) {
        Some(s) => Some(s),
        None => lookup_role_selector(field_roles, field.key.as_str()),
    }
}

/// The built-in selector for a role, where there is one.
pub open spec fn heuristic_selector(role: Seq<char>) -> Option<Seq<char>> {
    if role == "username"@ {
        Some(USERNAME_HEURISTIC_SELECTOR@)
    } else if role == "remember_me"@ {
        Some(REMEMBER_ME_HEURISTIC_SELECTOR@)
    } else {
        None
    }
}

/// The built-in selector for a role: username and remember-me fields have one.
pub fn heuristic_selector_for_role(role: &str) -> (r: Option<String>)
    ensures
        opt_view(r) == heuristic_selector(role@),
{
    if str_eq(role, "username") {
        Some(owned(USERNAME_HEURISTIC_SELECTOR))
    } else if str_eq(role, "remember_me") {
        Some(owned(REMEMBER_ME_HEURISTIC_SELECTOR))
    } else {
        None
    }
}

/// Whether an optional text holds something besides whitespace.
pub open spec fn is_nonblank(v: Option<Seq<char>>) -> bool {
    v matches Some(s) && trim(s).len() > 0
}

/// The views of a list of (source, value) candidates.
pub open spec fn candidates_view(c: Seq<(String, Option<String>)>) -> Seq<(Seq<char>, Option<Seq<char>>)> {
    Seq::new(c.len(), |i: int| (c[i].0@, opt_view(c[i].1)))
}

/// The first candidate whose value is not blank.
pub open spec fn first_nonblank(c: Seq<(Seq<char>, Option<Seq<char>>)>) -> Option<(Seq<char>, Option<Seq<char>>)>
    decreases c.len(),
{
    if c.len() == 0 {
        None
    } else {
        match first_nonblank(c.drop_last()) {
            Some(x) => Some(x),
            None => if is_nonblank(c.last().1) {
                Some(c.last())
            } else {
                None
            },
        }
    }
}

proof fn lemma_first_nonblank_prefix(c: Seq<(Seq<char>, Option<Seq<char>>)>, j: int)
    requires
        0 <= j <= c.len(),
        first_nonblank(c.subrange(0, j)) is Some,
    ensures
        first_nonblank(c) == first_nonblank(c.subrange(0, j)),
    decreases c.len() - j,
{
    if j == c.len() {
        assert(c.subrange(0, j) =~= c);
    } else {
        let t = c.drop_last();
        assert(t.subrange(0, j) =~= c.subrange(0, j));
        lemma_first_nonblank_prefix(t, j);
    }
}

/// The first of the candidates whose value holds more than whitespace, with
/// the source it came from.
pub fn first_non_empty_with_source(candidates: Vec<(String, Option<String>)>) -> (r: Option<(String, Option<String>)>)
    ensures
        match r {
            Some(x) => first_nonblank(candidates_view(candidates@)) == Some((x.0@, opt_view(x.1))),
            None => first_nonblank(candidates_view(candidates@)) is None,
        },
{
    let ghost cv = candidates_view(candidates@);
    let mut i: usize = 0;
    while i < candidates.len()
        invariant
            i <= candidates@.len(),
            cv == candidates_view(candidates@),
            first_nonblank(cv.subrange(0, i as int)) is None,
        decreases candidates@.len() - i,
    {
        let ghost sub = cv.subrange(0, i as int + 1);
        proof {
            assert(sub.drop_last() =~= cv.subrange(0, i as int));
            assert(sub.last() == cv[i as int]);
        }
        let nonblank = match &candidates[i].1 {
            Some(v) => !is_blank(v.as_str()),
            None => false,
        };
        if nonblank {
            proof {
                lemma_first_nonblank_prefix(cv, i as int + 1);
            }
            let source = owned(candidates[i].0.as_str());
            let value = copy_opt(&candidates[i].1);
            return Some((source, value));
        }
        i = i + 1;
    }
    assert(cv.subrange(0, i as int) =~= cv);
    None
}

/// The chosen (source, selector): the first non-blank candidate, else `none`.
pub open spec fn choose_source(c: Seq<(Seq<char>, Option<Seq<char>>)>) -> (Seq<char>, Option<Seq<char>>) {
    match first_nonblank(c) {
        Some(x) => x,
        None => ("none"@, None),
    }
}

fn choose_from(candidates: Vec<(String, Option<String>)>) -> (r: (String, Option<String>))
    ensures
        (r.0@, opt_view(r.1)) == choose_source(candidates_view(candidates@)),
{
    match first_non_empty_with_source(candidates) {
        Some(x) => x,
        None => (owned("none"), None),
    }
}

fn candidate(source: &str, value: Option<String>) -> (c: (String, Option<String>))
    ensures
        c.0@ == source@,
        opt_view(c.1) == opt_view(value),
{
    (owned(source), value)
}

fn candidates2(a: (String, Option<String>), b: (String, Option<String>)) -> (v: Vec<(String, Option<String>)>)
    ensures
        candidates_view(v@) == seq![(a.0@, opt_view(a.1)), (b.0@, opt_view(b.1))],
{
    let mut v: Vec<(String, Option<String>)> = Vec::new();
    v.push(a);
    v.push(b);
    assert(candidates_view(v@) =~= seq![(a.0@, opt_view(a.1)), (b.0@, opt_view(b.1))]);
    v
}

fn candidates3(
    a: (String, Option<String>),
    b: (String, Option<String>),
    c: (String, Option<String>),
) -> (v: Vec<(String, Option<String>)>)
    ensures
        candidates_view(v@) == seq![(a.0@, opt_view(a.1)), (b.0@, opt_view(b.1)), (c.0@, opt_view(c.1))],
{
    let mut v: Vec<(String, Option<String>)> = Vec::new();
    v.push(a);
    v.push(b);
    v.push(c);
    assert(candidates_view(v@) =~= seq![(a.0@, opt_view(a.1)), (b.0@, opt_view(b.1)), (c.0@, opt_view(c.1))]);
    v
}

/// The first of two (source, value) candidates whose value is not blank, else `none`.
pub open spec fn pick2(a: (Seq<char>, Option<Seq<char>>), b: (Seq<char>, Option<Seq<char>>)) -> (Seq<char>, Option<Seq<char>>) {
    if is_nonblank(a.1) {
        a
    } else if is_nonblank(b.1) {
        b
    } else {
        ("none"@, None)
    }
}

/// The first of three (source, value) candidates whose value is not blank, else `none`.
pub open spec fn pick3(
    a: (Seq<char>, Option<Seq<char>>),
    b: (Seq<char>, Option<Seq<char>>),
    c: (Seq<char>, Option<Seq<char>>),
) -> (Seq<char>, Option<Seq<char>>) {
    if is_nonblank(a.1) {
        a
    } else if is_nonblank(b.1) {
        b
    } else if is_nonblank(c.1) {
        c
    } else {
        ("none"@, None)
    }
}

proof fn lemma_choose2(a: (Seq<char>, Option<Seq<char>>), b: (Seq<char>, Option<Seq<char>>))
    ensures
        choose_source(seq![a, b]) == pick2(a, b),
{
    let s = seq![a, b];
    let e = Seq::<(Seq<char>, Option<Seq<char>>)>::empty();
    assert(seq![a].drop_last() =~= e);
    assert(first_nonblank(e) is None);
    assert(first_nonblank(seq![a]) == if is_nonblank(a.1) { Some(a) } else { None });
    assert(s.drop_last() =~= seq![a]);
    assert(first_nonblank(s) == match first_nonblank(seq![a]) {
        Some(x) => Some(x),
        None => if is_nonblank(b.1) { Some(b) } else { None },
    });
}

proof fn lemma_choose3(
    a: (Seq<char>, Option<Seq<char>>),
    b: (Seq<char>, Option<Seq<char>>),
    c: (Seq<char>, Option<Seq<char>>),
)
    ensures
        choose_source(seq![a, b, c]) == pick3(a, b, c),
{
    let s = seq![a, b, c];
    let e = Seq::<(Seq<char>, Option<Seq<char>>)>::empty();
    assert(seq![a].drop_last() =~= e);
    assert(first_nonblank(e) is None);
    assert(first_nonblank(seq![a]) == if is_nonblank(a.1) { Some(a) } else { None });
    assert(seq![a, b].drop_last() =~= seq![a]);
    assert(first_nonblank(seq![a, b]) == match first_nonblank(seq![a]) {
        Some(x) => Some(x),
        None => if is_nonblank(b.1) { Some(b) } else { None },
    });
    assert(s.drop_last() =~= seq![a, b]);
    assert(first_nonblank(s) == match first_nonblank(seq![a, b]) {
        Some(x) => Some(x),
        None => if is_nonblank(c.1) { Some(c) } else { None },
    });
}

/// Picks between two candidates as the planner does.
fn pick_of_two(a: (String, Option<String>), b: (String, Option<String>)) -> (r: (String, Option<String>))
    ensures
        (r.0@, opt_view(r.1)) == pick2((a.0@, opt_view(a.1)), (b.0@, opt_view(b.1))),
{
    proof {
        lemma_choose2((a.0@, opt_view(a.1)), (b.0@, opt_view(b.1)));
    }
    choose_from(candidates2(a, b))
}

/// Picks between three candidates as the planner does.
fn pick_of_three(
    a: (String, Option<String>),
    b: (String, Option<String>),
    c: (String, Option<String>),
) -> (r: (String, Option<String>))
    ensures
        (r.0@, opt_view(r.1)) == pick3((a.0@, opt_view(a.1)), (b.0@, opt_view(b.1)), (c.0@, opt_view(c.1))),
{
    proof {
        lemma_choose3((a.0@, opt_view(a.1)), (b.0@, opt_view(b.1)), (c.0@, opt_view(c.1)));
    }
    choose_from(candidates3(a, b, c))
}


#[derive(Debug, Clone)]
pub struct RunnerFormFieldPlan {
    pub key: String,
    pub role: String,
    pub selector: Option<String>,
    pub selector_source: String,
    pub required: bool,
    pub sensitive: bool,
    pub value_source: String,
    pub secret_ref: Option<String>,
    pub bundle_key: Option<String>,
    pub resolved_value: Option<String>,
    pub resolved: bool,
}

#[derive(Debug, Clone)]
pub struct RunnerFormSubmitPlan {
    pub selector: String,
    pub selector_source: String,
    pub trigger: String,
}

#[derive(Debug, Clone)]
pub struct RunnerFormSuccessPlan {
    pub ready_selector: String,
    pub ready_selector_source: String,
    pub url_patterns: Vec<String>,
    pub title_contains: Vec<String>,
}

#[derive(Debug, Clone)]
pub struct RunnerFormErrorSignals {
    pub login_error: Vec<String>,
    pub field_error: Vec<String>,
    pub account_locked: Vec<String>,
}

/// What the runner is told to do with a form.
#[derive(Debug, Clone)]
pub struct RunnerFormActionPlan {
    pub plan_version: i64,
    pub mode: String,
    pub execution_mode: String,
    pub site_policy_id: Option<String>,
    pub site_policy_version: Option<i64>,
    pub form_selector: Option<String>,
    pub form_selector_source: String,
    pub secret_bundle_ref: Option<String>,
    pub fields: Vec<RunnerFormFieldPlan>,
    pub submit: Option<RunnerFormSubmitPlan>,
    pub success: Option<RunnerFormSuccessPlan>,
    pub error_signals: Option<RunnerFormErrorSignals>,
    pub retry_limit: i64,
    pub blocked_reason: Option<String>,
}

/// Where a field's value comes from.
pub open spec fn value_source_name(f: NormalizedFormFieldInput) -> Seq<char> {
    if f.value is Some {
        "inline"@
    } else if f.secret_ref is Some {
        "secret_ref"@
    } else {
        "bundle_key"@
    }
}

/// The (source, selector) a field is filled through: the task's selector,
/// else the site contract's, else the built-in one for usernames and
/// remember-me boxes.
pub open spec fn field_selector_choice(f: NormalizedFormFieldInput, contract: Option<SiteFormContract>) -> (Seq<char>, Option<Seq<char>>) {
    pick3(
        ("task"@, opt_view(f.selector)),
        ("site_policy"@, contract_field_selector(contract, f)),
        (
            "heuristic"@,
            if f.role@ == "username"@ || f.role@ == "remember_me"@ {
                heuristic_selector(f.role@)
            } else {
                None
            },
        ),
    )
}

/// `p` is the runner plan of the normalised field `f`.
pub open spec fn planned_field(f: NormalizedFormFieldInput, contract: Option<SiteFormContract>, p: RunnerFormFieldPlan) -> bool {
    &&& p.key@ == f.key@
    &&& p.role@ == f.role@
    &&& p.selector_source@ == field_selector_choice(f, contract).0
    &&& opt_view(p.selector) == field_selector_choice(f, contract).1
    &&& p.required == f.required
    &&& p.sensitive == f.sensitive
    &&& p.value_source@ == value_source_name(f)
    &&& opt_view(p.secret_ref) == (if f.value is None {
        opt_view(f.secret_ref)
    } else {
        None
    })
    &&& opt_view(p.bundle_key) == (if f.value is None && f.secret_ref is None {
        opt_view(f.bundle_key)
    } else {
        None
    })
    &&& p.resolved_value is None
    &&& !p.resolved
}

fn plan_field(f: &NormalizedFormFieldInput, contract: &Option<SiteFormContract>) -> (p: RunnerFormFieldPlan)
    ensures
        planned_field(*f, *contract, p),
{
    let contract_selector = match contract {
        Some(c) => selector_from_field_roles(&c.field_roles, f),
        None => None,
    };
    let heuristic = if str_eq(f.role.as_str(), "username") || str_eq(f.role.as_str(), "remember_me") {
        heuristic_selector_for_role(f.role.as_str())
    } else {
        None
    };
    let (selector_source, selector) = pick_of_three(
        candidate("task", copy_opt(&f.selector)),
        candidate("site_policy", contract_selector),
        candidate("heuristic", heuristic),
    );
    let (value_source, secret_ref, bundle_key) = if f.value.is_some() {
        (owned("inline"), None, None)
    } else {
        match &f.secret_ref {
            Some(r) => (owned("secret_ref"), Some(owned(r.as_str())), None),
            None => (owned("bundle_key"), None, copy_opt(&f.bundle_key)),
        }
    };
    RunnerFormFieldPlan {
        key: owned(f.key.as_str()),
        role: owned(f.role.as_str()),
        selector,
        selector_source,
        required: f.required,
        sensitive: f.sensitive,
        value_source,
        secret_ref,
        bundle_key,
        resolved_value: None,
        resolved: false,
    }
}

/// Whether some pair of `ps` has the key `k`.
pub open spec fn has_key(ps: Seq<(Seq<char>, Seq<char>)>, k: Seq<char>) -> bool {
    exists|j: int| 0 <= j < ps.len() && (#[trigger] ps[j]).0 == k
}

/// Puts `(k, v)` into the keyed pairs `ps`: the pair with key `k` takes the
/// value `v` where it stands, else the pair is added at the end.
pub open spec fn put_pair(ps: Seq<(Seq<char>, Seq<char>)>, k: Seq<char>, v: Seq<char>) -> Seq<(Seq<char>, Seq<char>)> {
    if has_key(ps, k) {
        Seq::new(ps.len(), |j: int| if ps[j].0 == k { (k, v) } else { ps[j] })
    } else {
        ps.push((k, v))
    }
}

/// The inline values of the fields, keyed by field key: each key once, in the
/// order keys first carry a value, with the value of the last field that
/// carries one for it.
pub open spec fn inline_values(fields: Seq<NormalizedFormFieldInput>) -> Seq<(Seq<char>, Seq<char>)>
    decreases fields.len(),
{
    if fields.len() == 0 {
        seq![]
    } else {
        let rest = inline_values(fields.drop_last());
        match fields.last().value {
            Some(v) => put_pair(rest, fields.last().key@, v@),
            None => rest,
        }
    }
}

/// The inline value the last field with key `k` carrying one gives.
pub open spec fn last_inline_value(fields: Seq<NormalizedFormFieldInput>, k: Seq<char>) -> Option<Seq<char>>
    decreases fields.len(),
{
    if fields.len() == 0 {
        None
    } else {
        match fields.last().value {
            Some(v) => if fields.last().key@ == k {
                Some(v@)
            } else {
                last_inline_value(fields.drop_last(), k)
            },
            None => last_inline_value(fields.drop_last(), k),
        }
    }
}

/// The inline values form a map: no key is listed twice, a key is listed
/// exactly when some field carries an inline value for it, and it is listed
/// with the value of the last such field.
pub proof fn lemma_inline_values_last_wins(fields: Seq<NormalizedFormFieldInput>)
    ensures
        forall|i: int, j: int|
            0 <= i < j < inline_values(fields).len() ==> (#[trigger] inline_values(fields)[i]).0
                != (#[trigger] inline_values(fields)[j]).0,
        forall|i: int|
            0 <= i < inline_values(fields).len() ==> last_inline_value(fields, (#[trigger] inline_values(fields)[i]).0)
                == Some(inline_values(fields)[i].1),
        forall|k: Seq<char>| #[trigger] last_inline_value(fields, k) is Some ==> has_key(inline_values(fields), k),
    decreases fields.len(),
{
    if fields.len() > 0 {
        let pre = fields.drop_last();
        lemma_inline_values_last_wins(pre);
        let rest = inline_values(pre);
        let r = inline_values(fields);
        match fields.last().value {
            Some(v) => {
                let k = fields.last().key@;
                if has_key(rest, k) {
                    assert forall|i: int| 0 <= i < r.len() implies last_inline_value(fields, (#[trigger] r[i]).0)
                        == Some(r[i].1) by {
                        if rest[i].0 != k {
                            assert(r[i] == rest[i]);
                        }
                    }
                    assert forall|q: Seq<char>| #[trigger] last_inline_value(fields, q) is Some implies has_key(r, q) by {
                        if q == k {
                            let j = choose|j: int| 0 <= j < rest.len() && (#[trigger] rest[j]).0 == k;
                            assert(r[j].0 == k);
                        } else {
                            assert(last_inline_value(pre, q) is Some);
                            let j = choose|j: int| 0 <= j < rest.len() && (#[trigger] rest[j]).0 == q;
                            assert(r[j].0 == q);
                        }
                    }
                } else {
                    assert forall|i: int| 0 <= i < r.len() implies last_inline_value(fields, (#[trigger] r[i]).0)
                        == Some(r[i].1) by {
                        if i < rest.len() {
                            assert(r[i] == rest[i]);
                            assert(rest[i].0 != k);
                        }
                    }
                    assert forall|i: int, j: int| 0 <= i < j < r.len() implies (#[trigger] r[i]).0 != (#[trigger] r[j]).0 by {
                        if j == rest.len() {
                            assert(r[i] == rest[i]);
                        } else {
                            assert(r[i] == rest[i]);
                            assert(r[j] == rest[j]);
                        }
                    }
                    assert forall|q: Seq<char>| #[trigger] last_inline_value(fields, q) is Some implies has_key(r, q) by {
                        if q == k {
                            assert(r[rest.len() as int].0 == k);
                        } else {
                            assert(last_inline_value(pre, q) is Some);
                            let j = choose|j: int| 0 <= j < rest.len() && (#[trigger] rest[j]).0 == q;
                            assert(r[j] == rest[j]);
                        }
                    }
                }
            },
            None => {
                assert forall|q: Seq<char>| #[trigger] last_inline_value(fields, q) is Some implies has_key(r, q) by {
                    assert(last_inline_value(pre, q) is Some);
                }
            },
        }
    }
}

/// Puts an inline value into the keyed pairs, as [`put_pair`] says.
fn put_inline(inline: &mut Vec<(String, String)>, key: &str, value: &str)
    ensures
        pairs_view(final(inline)@) == put_pair(pairs_view(old(inline)@), key@, value@),
{
    let ghost before = pairs_view(inline@);
    let mut found = false;
    let mut j: usize = 0;
    while j < inline.len()
        invariant
            j <= inline@.len(),
            inline@.len() == before.len(),
            before == pairs_view(old(inline)@),
            forall|m: int| 0 <= m < j ==> (#[trigger] pairs_view(inline@)[m]) == if before[m].0 == key@ {
                (key@, value@)
            } else {
                before[m]
            },
            forall|m: int| j <= m < inline@.len() ==> #[trigger] pairs_view(inline@)[m] == before[m],
            found == exists|m: int| 0 <= m < j && (#[trigger] before[m]).0 == key@,
        decreases inline@.len() - j,
    {
        let ghost pre = inline@;
        assert(pairs_view(pre)[j as int] == before[j as int]);
        if str_eq(inline[j].0.as_str(), key) {
            inline.set(j, (owned(key), owned(value)));
            found = true;
        }
        proof {
            assert forall|m: int| 0 <= m < inline@.len() && m != j implies #[trigger] pairs_view(inline@)[m]
                == pairs_view(pre)[m] by {
                assert(inline@[m] == pre[m]);
            }
            assert(before[j as int].0 == key@ ==> found);
        }
        j = j + 1;
    }
    if found {
        assert(pairs_view(inline@) =~= put_pair(before, key@, value@));
    } else {
        assert(pairs_view(inline@) =~= before);
        inline.push((owned(key), owned(value)));
        assert(pairs_view(inline@) =~= before.push((key@, value@)));
    }
}

/// The views of a list of text pairs.
pub open spec fn pairs_view(v: Seq<(String, String)>) -> Seq<(Seq<char>, Seq<char>)> {
    Seq::new(v.len(), |i: int| (v[i].0@, v[i].1@))
}

fn plan_fields(fields: &Vec<NormalizedFormFieldInput>, contract: &Option<SiteFormContract>) -> (r: (
    Vec<RunnerFormFieldPlan>,
    Vec<(String, String)>,
))
    ensures
        r.0@.len() == fields@.len(),
        forall|i: int| 0 <= i < fields@.len() ==> planned_field(#[trigger] fields@[i], *contract, r.0@[i]),
        pairs_view(r.1@) == inline_values(fields@),
{
    let mut plans: Vec<RunnerFormFieldPlan> = Vec::new();
    let mut inline: Vec<(String, String)> = Vec::new();
    let mut i: usize = 0;
    while i < fields.len()
        invariant
            i <= fields@.len(),
            plans@.len() == i,
            forall|k: int| 0 <= k < i ==> planned_field(#[trigger] fields@[k], *contract, plans@[k]),
            pairs_view(inline@) == inline_values(fields@.subrange(0, i as int)),
        decreases fields@.len() - i,
    {
        proof {
            let sub = fields@.subrange(0, i as int + 1);
            assert(sub.drop_last() =~= fields@.subrange(0, i as int));
            assert(sub.last() == fields@[i as int]);
        }
        let p = plan_field(&fields[i], contract);
        plans.push(p);
        match &fields[i].value {
            Some(v) => {
                put_inline(&mut inline, fields[i].key.as_str(), v.as_str());
            },
            None => {},
        }
        i = i + 1;
    }
    assert(fields@.subrange(0, i as int) =~= fields@);
    (plans, inline)
}

pub const BLOCKED_AUTH_CONTRACT: &'static str = "active auth requires an active whitelist site form contract";
pub const BLOCKED_AUTH_PASSWORD_FIELD: &'static str = "auth form requires a password field";
pub const BLOCKED_AUTH_PASSWORD_SELECTOR: &'static str = "active auth requires an explicit password selector from task or site policy";
pub const BLOCKED_SUBMIT_SELECTOR: &'static str = "active form action requires an explicit submit selector";
pub const BLOCKED_READY_SELECTOR: &'static str = "active form action requires an explicit success.ready_selector";

/// The reason a required field without a selector holds an active run.
pub open spec fn missing_selector_reason(key: Seq<char>) -> Seq<char> {
    "required field '"@ + key + "' is missing a selector"@
}

/// The reasons for every required field that has no selector, in order.
pub open spec fn missing_selector_reasons(plans: Seq<RunnerFormFieldPlan>) -> Seq<Seq<char>>
    decreases plans.len(),
{
    if plans.len() == 0 {
        seq![]
    } else {
        let rest = missing_selector_reasons(plans.drop_last());
        if plans.last().required && plans.last().selector is None {
            rest.push(missing_selector_reason(plans.last().key@))
        } else {
            rest
        }
    }
}

/// Whether some field plays the password role.
pub open spec fn has_password_field(fields: Seq<NormalizedFormFieldInput>) -> bool {
    exists|i: int| 0 <= i < fields.len() && (#[trigger] fields[i]).role@ == "password"@
}

/// Whether a password field got its selector from the task or the site contract.
pub open spec fn has_explicit_password_selector(plans: Seq<RunnerFormFieldPlan>) -> bool {
    exists|i: int|
        0 <= i < plans.len() && (#[trigger] plans[i]).role@ == "password"@ && plans[i].selector is Some
            && plans[i].selector_source@ != "heuristic"@
}

/// The reason `text` when `cond` holds, else nothing.
pub open spec fn reason_if(cond: bool, text: Seq<char>) -> Seq<Seq<char>> {
    if cond {
        seq![text]
    } else {
        seq![]
    }
}

/// Why an active form action is held, in the order they are reported.
pub open spec fn form_blocked_reasons(
    mode: Seq<char>,
    execution_mode: Seq<char>,
    contract_present: bool,
    fields: Seq<NormalizedFormFieldInput>,
    plans: Seq<RunnerFormFieldPlan>,
    submit: (Seq<char>, Option<Seq<char>>),
    ready: (Seq<char>, Option<Seq<char>>),
) -> Seq<Seq<char>> {
    if execution_mode != "active"@ {
        seq![]
    } else {
        reason_if(mode == "auth"@ && !contract_present, BLOCKED_AUTH_CONTRACT@)
            + reason_if(mode == "auth"@ && !has_password_field(fields), BLOCKED_AUTH_PASSWORD_FIELD@)
            + reason_if(mode == "auth"@ && !has_explicit_password_selector(plans), BLOCKED_AUTH_PASSWORD_SELECTOR@)
            + reason_if(submit.1 is None || submit.0 == "heuristic"@, BLOCKED_SUBMIT_SELECTOR@)
            + reason_if(ready.1 is None || ready.0 == "heuristic"@, BLOCKED_READY_SELECTOR@)
            + missing_selector_reasons(plans)
    }
}

fn push_reason_if(reasons: &mut Vec<String>, cond: bool, text: &str)
    ensures
        strings_view(final(reasons)@) == strings_view(old(reasons)@) + reason_if(cond, text@),
{
    if cond {
        let t = owned(text);
        proof {
            lemma_strings_view_push(reasons@, t);
        }
        reasons.push(t);
        assert(strings_view(old(reasons)@).push(text@) =~= strings_view(old(reasons)@) + seq![text@]);
    } else {
        assert(strings_view(old(reasons)@) + seq![] =~= strings_view(old(reasons)@));
    }
}

fn any_password_field(fields: &Vec<NormalizedFormFieldInput>) -> (r: bool)
    ensures
        r == has_password_field(fields@),
{
    let mut i: usize = 0;
    while i < fields.len()
        invariant
            i <= fields@.len(),
            forall|k: int| 0 <= k < i ==> (#[trigger] fields@[k]).role@ != "password"@,
        decreases fields@.len() - i,
    {
        if str_eq(fields[i].role.as_str(), "password") {
            return true;
        }
        i = i + 1;
    }
    false
}

fn any_explicit_password_selector(plans: &Vec<RunnerFormFieldPlan>) -> (r: bool)
    ensures
        r == has_explicit_password_selector(plans@),
{
    let mut i: usize = 0;
    while i < plans.len()
        invariant
            i <= plans@.len(),
            forall|k: int|
                0 <= k < i ==> !((#[trigger] plans@[k]).role@ == "password"@ && plans@[k].selector is Some
                    && plans@[k].selector_source@ != "heuristic"@),
        decreases plans@.len() - i,
    {
        if str_eq(plans[i].role.as_str(), "password") && plans[i].selector.is_some() && !str_eq(
            plans[i].selector_source.as_str(),
            "heuristic",
        ) {
            return true;
        }
        i = i + 1;
    }
    false
}

fn collect_blocked_reasons(
    mode: &str,
    execution_mode: &str,
    contract_present: bool,
    fields: &Vec<NormalizedFormFieldInput>,
    plans: &Vec<RunnerFormFieldPlan>,
    submit: &(String, Option<String>),
    ready: &(String, Option<String>),
) -> (r: Vec<String>)
    ensures
        strings_view(r@) == form_blocked_reasons(
            mode@,
            execution_mode@,
            contract_present,
            fields@,
            plans@,
            (submit.0@, opt_view(submit.1)),
            (ready.0@, opt_view(ready.1)),
        ),
{
    let mut reasons: Vec<String> = Vec::new();
    if !str_eq(execution_mode, "active") {
        assert(strings_view(reasons@) =~= seq![]);
        return reasons;
    }
    let auth = str_eq(mode, "auth");
    assert(strings_view(reasons@) =~= seq![]);
    push_reason_if(&mut reasons, auth && !contract_present, BLOCKED_AUTH_CONTRACT);
    let has_password = any_password_field(fields);
    push_reason_if(&mut reasons, auth && !has_password, BLOCKED_AUTH_PASSWORD_FIELD);
    let explicit_password = any_explicit_password_selector(plans);
    push_reason_if(&mut reasons, auth && !explicit_password, BLOCKED_AUTH_PASSWORD_SELECTOR);
    push_reason_if(
        &mut reasons,
        submit.1.is_none() || str_eq(submit.0.as_str(), "heuristic"),
        BLOCKED_SUBMIT_SELECTOR,
    );
    push_reason_if(
        &mut reasons,
        ready.1.is_none() || str_eq(ready.0.as_str(), "heuristic"),
        BLOCKED_READY_SELECTOR,
    );
    let ghost base = strings_view(reasons@);
    let mut i: usize = 0;
    assert(missing_selector_reasons(plans@.subrange(0, 0)) =~= seq![]);
    assert(base + seq![] =~= base);
    while i < plans.len()
        invariant
            i <= plans@.len(),
            strings_view(reasons@) == base + missing_selector_reasons(plans@.subrange(0, i as int)),
        decreases plans@.len() - i,
    {
        proof {
            let sub = plans@.subrange(0, i as int + 1);
            assert(sub.drop_last() =~= plans@.subrange(0, i as int));
            assert(sub.last() == plans@[i as int]);
        }
        if plans[i].required && plans[i].selector.is_none() {
            let t = concat3("required field '", plans[i].key.as_str(), "' is missing a selector");
            proof {
                lemma_strings_view_push(reasons@, t);
                assert((base + missing_selector_reasons(plans@.subrange(0, i as int))).push(t@) =~= base
                    + missing_selector_reasons(plans@.subrange(0, i as int)).push(t@));
            }
            reasons.push(t);
        }
        i = i + 1;
    }
    assert(plans@.subrange(0, i as int) =~= plans@);
    reasons
}

/// The reported reason text: the reasons joined with `; `, none when there are none.
pub open spec fn blocked_text(reasons: Seq<Seq<char>>) -> Option<Seq<char>> {
    if reasons.len() == 0 {
        None
    } else {
        Some(joined(reasons, "; "@))
    }
}


/// The (source, selector) of the form element: the task's, else the site
/// contract's primary form selector, else `form`.
pub open spec fn form_choice(nf: NormalizedFormInput, contract: Option<SiteFormContract>) -> (Seq<char>, Option<Seq<char>>) {
    pick3(
        ("task"@, opt_view(nf.form_selector)),
        (
            "site_policy"@,
            match contract {
                Some(c) => opt_view(c.primary_form_selector),
                None => None,
            },
        ),
        ("heuristic"@, Some("form"@)),
    )
}

/// The (source, selector) of the submit control: the task's, else the site
/// contract's submit selector, else the contract's `submit` field role.
pub open spec fn submit_choice(nf: NormalizedFormInput, contract: Option<SiteFormContract>) -> (Seq<char>, Option<Seq<char>>) {
    pick2(
        (
            "task"@,
            match nf.submit {
                Some(s) => opt_view(s.selector),
                None => None,
            },
        ),
        (
            "site_policy"@,
            match contract {
                Some(c) => match opt_view(c.submit_selector) {
                    Some(x) => Some(x),
                    None => role_selector(c.field_roles@, "submit"@),
                },
                None => None,
            },
        ),
    )
}

/// The (source, selector) that tells the form succeeded: the task's, else the
/// site contract's.
pub open spec fn ready_choice(nf: NormalizedFormInput, contract: Option<SiteFormContract>) -> (Seq<char>, Option<Seq<char>>) {
    pick2(
        (
            "task"@,
            match nf.success {
                Some(s) => opt_view(s.ready_selector),
                None => None,
            },
        ),
        (
            "site_policy"@,
            match contract {
                Some(c) => opt_view(c.success_ready_selector),
                None => None,
            },
        ),
    )
}

/// The trigger of the submit control, `click` when the task names none.
pub open spec fn planned_trigger(nf: NormalizedFormInput) -> Seq<char> {
    match nf.submit {
        Some(s) => s.trigger@,
        None => "click"@,
    }
}

/// The URL patterns that tell the form succeeded: the task's when it gives a
/// success part, else the site contract's.
pub open spec fn planned_url_patterns(nf: NormalizedFormInput, contract: Option<SiteFormContract>) -> Seq<Seq<char>> {
    match nf.success {
        Some(s) => strings_view(s.url_patterns@),
        None => match contract {
            Some(c) => trimmed_nonempty(opt_items(c.success_url_patterns)),
            None => seq![],
        },
    }
}

/// The title fragments that tell the form succeeded, chosen as the URL patterns are.
pub open spec fn planned_title_contains(nf: NormalizedFormInput, contract: Option<SiteFormContract>) -> Seq<Seq<char>> {
    match nf.success {
        Some(s) => strings_view(s.title_contains@),
        None => match contract {
            Some(c) => trimmed_nonempty(opt_items(c.success_title_contains)),
            None => seq![],
        },
    }
}

/// The error-signal selectors of a site contract, trimmed and non-blank.
pub open spec fn planned_signals(contract: Option<SiteFormContract>, e: RunnerFormErrorSignals) -> bool {
    match contract {
        Some(c) => strings_view(e.login_error@) == trimmed_nonempty(strings_view(c.login_error@))
            && strings_view(e.field_error@) == trimmed_nonempty(strings_view(c.field_error@))
            && strings_view(e.account_locked@) == trimmed_nonempty(strings_view(c.account_locked@)),
        None => e.login_error@.len() == 0 && e.field_error@.len() == 0 && e.account_locked@.len() == 0,
    }
}

/// The submit plan: present exactly when a submit selector was chosen.
pub open spec fn planned_submit(nf: NormalizedFormInput, contract: Option<SiteFormContract>, submit: Option<RunnerFormSubmitPlan>) -> bool {
    match submit_choice(nf, contract).1 {
        Some(sel) => match submit {
            Some(s) => s.selector@ == sel && s.selector_source@ == submit_choice(nf, contract).0
                && s.trigger@ == planned_trigger(nf),
            None => false,
        },
        None => submit is None,
    }
}

/// The success plan: present exactly when a ready selector was chosen.
pub open spec fn planned_success(nf: NormalizedFormInput, contract: Option<SiteFormContract>, success: Option<RunnerFormSuccessPlan>) -> bool {
    match ready_choice(nf, contract).1 {
        Some(sel) => match success {
            Some(s) => s.ready_selector@ == sel && s.ready_selector_source@ == ready_choice(nf, contract).0
                && strings_view(s.url_patterns@) == planned_url_patterns(nf, contract)
                && strings_view(s.title_contains@) == planned_title_contains(nf, contract),
            None => false,
        },
        None => success is None,
    }
}

/// `p` is the runner plan for the normalised input `nf`, run in
/// `execution_mode` against the site contract `contract`.
pub open spec fn planned_form(
    nf: NormalizedFormInput,
    execution_mode: Seq<char>,
    contract: Option<SiteFormContract>,
    p: RunnerFormActionPlan,
) -> bool {
    &&& p.plan_version == 1
    &&& p.retry_limit == 1
    &&& p.mode@ == nf.mode@
    &&& p.execution_mode@ == execution_mode
    &&& opt_view(p.site_policy_id) == match contract {
        Some(c) => Some(c.policy_id@),
        None => None,
    }
    &&& p.site_policy_version == match contract {
        Some(c) => Some(c.policy_version),
        None => None,
    }
    &&& p.form_selector_source@ == form_choice(nf, contract).0
    &&& opt_view(p.form_selector) == form_choice(nf, contract).1
    &&& opt_view(p.secret_bundle_ref) == opt_view(nf.secret_bundle_ref)
    &&& p.fields@.len() == nf.fields@.len()
    &&& forall|i: int| 0 <= i < nf.fields@.len() ==> planned_field(#[trigger] nf.fields@[i], contract, p.fields@[i])
    &&& planned_submit(nf, contract, p.submit)
    &&& planned_success(nf, contract, p.success)
    &&& p.error_signals matches Some(e) && planned_signals(contract, e)
    &&& opt_view(p.blocked_reason) == blocked_text(
        form_blocked_reasons(
            nf.mode@,
            execution_mode,
            contract is Some,
            nf.fields@,
            p.fields@,
            submit_choice(nf, contract),
            ready_choice(nf, contract),
        ),
    )
}

/// Builds the runner plan of a normalised form input and collects the inline
/// field values, which the runner receives apart from the plan.
pub fn assemble_form_action_plan(
    nf: &NormalizedFormInput,
    execution_mode: &str,
    contract: &Option<SiteFormContract>,
) -> (r: (RunnerFormActionPlan, Vec<(String, String)>))
    ensures
        planned_form(*nf, execution_mode@, *contract, r.0),
        pairs_view(r.1@) == inline_values(nf.fields@),
{
    let (form_selector_source, form_selector) = pick_of_three(
        candidate("task", copy_opt(&nf.form_selector)),
        candidate(
            "site_policy",
            match contract {
                Some(c) => copy_opt(&c.primary_form_selector),
                None => None,
            },
        ),
        candidate("heuristic", Some(owned("form"))),
    );
    let (fields, inline) = plan_fields(&nf.fields, contract);
    let site_submit = match contract {
        Some(c) => match &c.submit_selector {
            Some(x) => Some(owned(x.as_str())),
            None => lookup_role_selector(&c.field_roles, "submit"),
        },
        None => None,
    };
    let submit_choice_pair = pick_of_two(
        candidate(
            "task",
            match &nf.submit {
                Some(s) => copy_opt(&s.selector),
                None => None,
            },
        ),
        candidate("site_policy", site_submit),
    );
    let trigger = match &nf.submit {
        Some(s) => owned(s.trigger.as_str()),
        None => owned("click"),
    };
    let ready_choice_pair = pick_of_two(
        candidate(
            "task",
            match &nf.success {
                Some(s) => copy_opt(&s.ready_selector),
                None => None,
            },
        ),
        candidate(
            "site_policy",
            match contract {
                Some(c) => copy_opt(&c.success_ready_selector),
                None => None,
            },
        ),
    );
    let (url_patterns, title_contains) = match &nf.success {
        Some(s) => (crate::text::clone_strings(&s.url_patterns), crate::text::clone_strings(&s.title_contains)),
        None => match contract {
            Some(c) => (opt_trimmed_items(&c.success_url_patterns), opt_trimmed_items(&c.success_title_contains)),
            None => {
                let a: Vec<String> = Vec::new();
                let b: Vec<String> = Vec::new();
                assert(strings_view(a@) =~= seq![]);
                assert(strings_view(b@) =~= seq![]);
                (a, b)
            },
        },
    };
    let error_signals = match contract {
        Some(c) => RunnerFormErrorSignals {
            login_error: trimmed_nonempty_items(&c.login_error),
            field_error: trimmed_nonempty_items(&c.field_error),
            account_locked: trimmed_nonempty_items(&c.account_locked),
        },
        None => RunnerFormErrorSignals {
            login_error: Vec::new(),
            field_error: Vec::new(),
            account_locked: Vec::new(),
        },
    };
    let reasons = collect_blocked_reasons(
        nf.mode.as_str(),
        execution_mode,
        contract.is_some(),
        &nf.fields,
        &fields,
        &submit_choice_pair,
        &ready_choice_pair,
    );
    let blocked_reason = if reasons.len() == 0 {
        None
    } else {
        Some(join_strings(&reasons, "; "))
    };
    let (submit_source, submit_selector) = submit_choice_pair;
    let submit = match submit_selector {
        Some(selector) => Some(RunnerFormSubmitPlan { selector, selector_source: submit_source, trigger }),
        None => None,
    };
    let (ready_source, ready_selector) = ready_choice_pair;
    let success = match ready_selector {
        Some(ready_selector) => Some(
            RunnerFormSuccessPlan {
                ready_selector,
                ready_selector_source: ready_source,
                url_patterns,
                title_contains,
            },
        ),
        None => None,
    };
    let plan = RunnerFormActionPlan {
        plan_version: 1,
        mode: owned(nf.mode.as_str()),
        execution_mode: owned(execution_mode),
        site_policy_id: match contract {
            Some(c) => Some(owned(c.policy_id.as_str())),
            None => None,
        },
        site_policy_version: match contract {
            Some(c) => Some(c.policy_version),
            None => None,
        },
        form_selector,
        form_selector_source,
        secret_bundle_ref: copy_opt(&nf.secret_bundle_ref),
        fields,
        submit,
        success,
        error_signals: Some(error_signals),
        retry_limit: 1,
        blocked_reason,
    };
    (plan, inline)
}

/// The status of a planned form action: shadow-only unless the run is
/// active, else blocked when something holds it, else running.
pub open spec fn form_status(execution_mode: Seq<char>, blocked: bool) -> Seq<char> {
    if execution_mode != "active"@ {
        FORM_ACTION_STATUS_SHADOW_ONLY@
    } else if blocked {
        FORM_ACTION_STATUS_BLOCKED@
    } else {
        FORM_ACTION_STATUS_RUNNING@
    }
}

fn form_action_status(execution_mode: &str, blocked: bool) -> (s: String)
    ensures
        s@ == form_status(execution_mode@, blocked),
{
    if !str_eq(execution_mode, "active") {
        owned(FORM_ACTION_STATUS_SHADOW_ONLY)
    } else if blocked {
        owned(FORM_ACTION_STATUS_BLOCKED)
    } else {
        owned(FORM_ACTION_STATUS_RUNNING)
    }
}


/// One field of a form action summary.
#[derive(Debug, Clone)]
pub struct FormFieldSummary {
    pub key: String,
    pub role: String,
    pub selector_source: String,
    pub required: bool,
    pub sensitive: bool,
    pub value_source: String,
    pub resolved: bool,
}

/// Which error-signal groups a plan watches.
#[derive(Debug, Clone)]
pub struct FormErrorSignalGroups {
    pub login_error: bool,
    pub field_error: bool,
    pub account_locked: bool,
}

/// The reportable summary of a form action, without selectors or values.
#[derive(Debug, Clone)]
pub struct FormActionSummary {
    pub mode: String,
    pub execution_mode: String,
    pub status: String,
    pub retry_count: i64,
    pub site_policy_id: Option<String>,
    pub site_policy_version: Option<i64>,
    pub site_contract_present: bool,
    pub blocked_reason: Option<String>,
    pub failure_signal: Option<String>,
    pub success_ready_selector_seen: bool,
    pub post_login_actions_executed: bool,
    pub session_persisted: bool,
    pub form_selector_source: String,
    pub secret_bundle_ref_present: bool,
    pub fields: Vec<FormFieldSummary>,
    pub success_ready_selector_present: bool,
    pub error_signal_groups: Option<FormErrorSignalGroups>,
}

/// `s` summarises the field plan `p`.
pub open spec fn summarized_field(p: RunnerFormFieldPlan, s: FormFieldSummary) -> bool {
    &&& s.key@ == p.key@
    &&& s.role@ == p.role@
    &&& s.selector_source@ == p.selector_source@
    &&& s.required == p.required
    &&& s.sensitive == p.sensitive
    &&& s.value_source@ == p.value_source@
    &&& s.resolved == p.resolved
}

/// `s` summarises the plan `plan` in status `status` after `retry_count`
/// retries; a given blocked reason replaces the plan's own.
pub open spec fn summarized(
    plan: RunnerFormActionPlan,
    status: Seq<char>,
    retry_count: i64,
    blocked_reason: Option<Seq<char>>,
    failure_signal: Option<Seq<char>>,
    s: FormActionSummary,
) -> bool {
    &&& s.mode@ == plan.mode@
    &&& s.execution_mode@ == plan.execution_mode@
    &&& s.status@ == status
    &&& s.retry_count == retry_count
    &&& opt_view(s.site_policy_id) == opt_view(plan.site_policy_id)
    &&& s.site_policy_version == plan.site_policy_version
    &&& s.site_contract_present == plan.site_policy_id is Some
    &&& opt_view(s.blocked_reason) == match blocked_reason {
        Some(b) => Some(b),
        None => opt_view(plan.blocked_reason),
    }
    &&& opt_view(s.failure_signal) == failure_signal
    &&& !s.success_ready_selector_seen
    &&& !s.post_login_actions_executed
    &&& !s.session_persisted
    &&& s.form_selector_source@ == plan.form_selector_source@
    &&& s.secret_bundle_ref_present == plan.secret_bundle_ref is Some
    &&& s.fields@.len() == plan.fields@.len()
    &&& forall|i: int| 0 <= i < plan.fields@.len() ==> summarized_field(#[trigger] plan.fields@[i], s.fields@[i])
    &&& s.success_ready_selector_present == (plan.success matches Some(x) && x.ready_selector@.len() > 0)
    &&& match plan.error_signals {
        Some(e) => s.error_signal_groups matches Some(g) && g.login_error == (e.login_error@.len() > 0)
            && g.field_error == (e.field_error@.len() > 0) && g.account_locked == (e.account_locked@.len() > 0),
        None => s.error_signal_groups is None,
    }
}

fn opt_str_owned(s: Option<&str>) -> (r: Option<String>)
    ensures
        opt_view(r) == match s {
            Some(v) => Some(v@),
            None => None,
        },
{
    match s {
        Some(v) => Some(owned(v)),
        None => None,
    }
}

/// The reportable summary of a form action plan.
pub fn build_form_action_summary(
    plan: &RunnerFormActionPlan,
    status: &str,
    retry_count: i64,
    blocked_reason: Option<&str>,
    failure_signal: Option<&str>,
) -> (s: FormActionSummary)
    ensures
        summarized(
            *plan,
            status@,
            retry_count,
            match blocked_reason {
                Some(b) => Some(b@),
                None => None,
            },
            match failure_signal {
                Some(f) => Some(f@),
                None => None,
            },
            s,
        ),
{
    let mut fields: Vec<FormFieldSummary> = Vec::new();
    let mut i: usize = 0;
    while i < plan.fields.len()
        invariant
            i <= plan.fields@.len(),
            fields@.len() == i,
            forall|k: int| 0 <= k < i ==> summarized_field(#[trigger] plan.fields@[k], fields@[k]),
        decreases plan.fields@.len() - i,
    {
        let f = &plan.fields[i];
        fields.push(
            FormFieldSummary {
                key: owned(f.key.as_str()),
                role: owned(f.role.as_str()),
                selector_source: owned(f.selector_source.as_str()),
                required: f.required,
                sensitive: f.sensitive,
                value_source: owned(f.value_source.as_str()),
                resolved: f.resolved,
            },
        );
        i = i + 1;
    }
    let blocked = match blocked_reason {
        Some(b) => Some(owned(b)),
        None => copy_opt(&plan.blocked_reason),
    };
    let ready_present = match &plan.success {
        Some(x) => !x.ready_selector.as_str().is_empty(),
        None => false,
    };
    let groups = match &plan.error_signals {
        Some(e) => Some(
            FormErrorSignalGroups {
                login_error: e.login_error.len() > 0,
                field_error: e.field_error.len() > 0,
                account_locked: e.account_locked.len() > 0,
            },
        ),
        None => None,
    };
    FormActionSummary {
        mode: owned(plan.mode.as_str()),
        execution_mode: owned(plan.execution_mode.as_str()),
        status: owned(status),
        retry_count,
        site_policy_id: copy_opt(&plan.site_policy_id),
        site_policy_version: plan.site_policy_version,
        site_contract_present: plan.site_policy_id.is_some(),
        blocked_reason: blocked,
        failure_signal: opt_str_owned(failure_signal),
        success_ready_selector_seen: false,
        post_login_actions_executed: false,
        session_persisted: false,
        form_selector_source: owned(plan.form_selector_source.as_str()),
        secret_bundle_ref_present: plan.secret_bundle_ref.is_some(),
        fields,
        success_ready_selector_present: ready_present,
        error_signal_groups: groups,
    }
}

/// One field of a redacted form input: its value is never carried.
#[derive(Debug, Clone)]
pub struct RedactedFormField {
    pub key: String,
    pub role: String,
    pub selector: Option<String>,
    pub required: bool,
    pub sensitive: bool,
    pub value_source: String,
    pub secret_ref: Option<String>,
    pub bundle_key: Option<String>,
    pub resolved: bool,
}

/// A normalised form input with its inline values left out.
#[derive(Debug, Clone)]
pub struct RedactedFormInput {
    pub mode: String,
    pub form_selector: Option<String>,
    pub secret_bundle_ref: Option<String>,
    pub fields: Vec<RedactedFormField>,
    pub submit: Option<NormalizedFormSubmitInput>,
    pub success: Option<NormalizedFormSuccessInput>,
}

/// `r` is the redacted form of the normalised field `f`.
pub open spec fn redacted_field(f: NormalizedFormFieldInput, r: RedactedFormField) -> bool {
    &&& r.key@ == f.key@
    &&& r.role@ == f.role@
    &&& opt_view(r.selector) == opt_view(f.selector)
    &&& r.required == f.required
    &&& r.sensitive == f.sensitive
    &&& r.value_source@ == value_source_name(f)
    &&& opt_view(r.secret_ref) == opt_view(f.secret_ref)
    &&& opt_view(r.bundle_key) == opt_view(f.bundle_key)
    &&& !r.resolved
}

/// `r` is the redacted form of the normalised input `nf`.
pub open spec fn redacted_input(nf: NormalizedFormInput, r: RedactedFormInput) -> bool {
    &&& r.mode@ == nf.mode@
    &&& opt_view(r.form_selector) == opt_view(nf.form_selector)
    &&& opt_view(r.secret_bundle_ref) == opt_view(nf.secret_bundle_ref)
    &&& r.fields@.len() == nf.fields@.len()
    &&& forall|i: int| 0 <= i < nf.fields@.len() ==> redacted_field(#[trigger] nf.fields@[i], r.fields@[i])
    &&& match (nf.submit, r.submit) {
        (Some(a), Some(b)) => opt_view(b.selector) == opt_view(a.selector) && b.trigger@ == a.trigger@,
        (None, None) => true,
        _ => false,
    }
    &&& match (nf.success, r.success) {
        (Some(a), Some(b)) => opt_view(b.ready_selector) == opt_view(a.ready_selector) && strings_view(
            b.url_patterns@,
        ) == strings_view(a.url_patterns@) && strings_view(b.title_contains@) == strings_view(
            a.title_contains@,
        ),
        (None, None) => true,
        _ => false,
    }
}

/// The normalised input as it may be stored: every field says where its value
/// comes from, and no inline value is kept.
pub fn redacted_form_input(input: &NormalizedFormInput) -> (r: RedactedFormInput)
    ensures
        redacted_input(*input, r),
{
    let mut fields: Vec<RedactedFormField> = Vec::new();
    let mut i: usize = 0;
    while i < input.fields.len()
        invariant
            i <= input.fields@.len(),
            fields@.len() == i,
            forall|k: int| 0 <= k < i ==> redacted_field(#[trigger] input.fields@[k], fields@[k]),
        decreases input.fields@.len() - i,
    {
        let f = &input.fields[i];
        let value_source = if f.value.is_some() {
            owned("inline")
        } else if f.secret_ref.is_some() {
            owned("secret_ref")
        } else {
            owned("bundle_key")
        };
        fields.push(
            RedactedFormField {
                key: owned(f.key.as_str()),
                role: owned(f.role.as_str()),
                selector: copy_opt(&f.selector),
                required: f.required,
                sensitive: f.sensitive,
                value_source,
                secret_ref: copy_opt(&f.secret_ref),
                bundle_key: copy_opt(&f.bundle_key),
                resolved: false,
            },
        );
        i = i + 1;
    }
    let submit = match &input.submit {
        Some(s) => Some(NormalizedFormSubmitInput { selector: copy_opt(&s.selector), trigger: owned(s.trigger.as_str()) }),
        None => None,
    };
    let success = match &input.success {
        Some(s) => Some(
            NormalizedFormSuccessInput {
                ready_selector: copy_opt(&s.ready_selector),
                url_patterns: crate::text::clone_strings(&s.url_patterns),
                title_contains: crate::text::clone_strings(&s.title_contains),
            },
        ),
        None => None,
    };
    RedactedFormInput {
        mode: owned(input.mode.as_str()),
        form_selector: copy_opt(&input.form_selector),
        secret_bundle_ref: copy_opt(&input.secret_bundle_ref),
        fields,
        submit,
        success,
    }
}

/// What compiling a task's form input yields.
#[derive(Debug, Clone)]
pub struct FormActionCompileResult {
    pub form_input_redacted: Option<RedactedFormInput>,
    pub form_action_plan: Option<RunnerFormActionPlan>,
    pub form_action_status: String,
    pub form_action_mode: Option<String>,
    pub form_action_summary: Option<FormActionSummary>,
    pub inline_secret_fields: Option<Vec<(String, String)>>,
}

/// Whether a requested input uses identity secrets once normalised.
pub open spec fn input_needs_identity(inp: FormInputRequest) -> bool {
    nonblank_trimmed(opt_view(inp.secret_bundle_ref)) is Some || exists|i: int|
        0 <= i < inp.fields@.len() && nonblank_trimmed(opt_view((#[trigger] inp.fields@[i]).secret_ref)) is Some
}

proof fn lemma_needs_identity(inp: FormInputRequest, nf: NormalizedFormInput)
    requires
        normalized_input(inp, nf),
    ensures
        needs_identity(nf) == input_needs_identity(inp),
{
    if needs_identity(nf) && nf.secret_bundle_ref is None {
        let i = choose|i: int| 0 <= i < nf.fields@.len() && (#[trigger] nf.fields@[i]).secret_ref is Some;
        assert(normalized_field(inp.fields@[i], nf.fields@[i]));
    }
    if input_needs_identity(inp) && nonblank_trimmed(opt_view(inp.secret_bundle_ref)) is None {
        let i = choose|i: int|
            0 <= i < inp.fields@.len() && nonblank_trimmed(opt_view((#[trigger] inp.fields@[i]).secret_ref)) is Some;
        assert(normalized_field(inp.fields@[i], nf.fields@[i]));
        assert(nf.fields@[i].secret_ref is Some);
    }
}

/// `c` is what compiling the normalised input `nf` yields when the run is in
/// `execution_mode` and the site's contract is `contract`.
pub open spec fn compiled(
    nf: NormalizedFormInput,
    execution_mode: Seq<char>,
    contract: Option<SiteFormContract>,
    c: FormActionCompileResult,
) -> bool {
    &&& c.form_action_plan matches Some(p)
    &&& planned_form(nf, execution_mode, contract, p)
    &&& c.form_action_status@ == form_status(execution_mode, p.blocked_reason is Some)
    &&& opt_view(c.form_action_mode) == Some(nf.mode@)
    &&& c.form_action_summary matches Some(s)
    &&& summarized(p, c.form_action_status@, 0, opt_view(p.blocked_reason), None, s)
    &&& c.form_input_redacted matches Some(r)
    &&& redacted_input(nf, r)
    &&& match c.inline_secret_fields {
        Some(v) => inline_values(nf.fields@).len() > 0 && pairs_view(v@) == inline_values(nf.fields@),
        None => inline_values(nf.fields@).len() == 0,
    }
}

/// Compiles the form input of a task into the plan the runner executes.
/// Without a form input nothing is requested. Otherwise the input is
/// normalised (refused with the first problem found), refused when it uses
/// identity secrets and the run names no identity profile, and planned against
/// `site_contract`, the active form contract found for the task's site.
pub fn compile_form_action_plan(
    behavior_execution_mode: &str,
    execution_intent: &RunnerExecutionIntent,
    form_input: Option<FormInputRequest>,
    site_contract: Option<SiteFormContract>,
) -> (r: Result<FormActionCompileResult, FormError>)
    ensures
        match form_input {
            None => r matches Ok(c) && c.form_action_status@ == FORM_ACTION_STATUS_NOT_REQUESTED@
                && c.form_input_redacted is None && c.form_action_plan is None && c.form_action_mode is None
                && c.form_action_summary is None && c.inline_secret_fields is None,
            Some(inp) => match r {
                Ok(c) => input_fault(inp) is None && !(input_needs_identity(inp)
                    && execution_intent.identity_profile_id is None) && exists|nf: NormalizedFormInput|
                    normalized_input(inp, nf) && compiled(nf, behavior_execution_mode@, site_contract, c),
                Err(e) => match input_fault(inp) {
                    Some(f) => fault_of(e) == f,
                    None => e is IdentityProfileRequired && input_needs_identity(inp)
                        && execution_intent.identity_profile_id is None,
                },
            },
        },
{
    let form_input = match form_input {
        Some(f) => f,
        None => {
            return Ok(
                FormActionCompileResult {
                    form_input_redacted: None,
                    form_action_plan: None,
                    form_action_status: owned(FORM_ACTION_STATUS_NOT_REQUESTED),
                    form_action_mode: None,
                    form_action_summary: None,
                    inline_secret_fields: None,
                },
            );
        },
    };
    let normalized = match normalize_form_input(&form_input) {
        Ok(n) => n,
        Err(e) => return Err(e),
    };
    proof {
        lemma_needs_identity(form_input, normalized);
    }
    match validate_secret_requirements(execution_intent, &normalized) {
        Ok(()) => {},
        Err(e) => return Err(e),
    }
    let (plan, inline) = assemble_form_action_plan(&normalized, behavior_execution_mode, &site_contract);
    let status = form_action_status(behavior_execution_mode, plan.blocked_reason.is_some());
    let blocked: Option<&str> = match &plan.blocked_reason {
        Some(b) => Some(b.as_str()),
        None => None,
    };
    let summary = build_form_action_summary(&plan, status.as_str(), 0, blocked, None);
    let redacted = redacted_form_input(&normalized);
    let inline_secret_fields = if inline.len() == 0 {
        None
    } else {
        Some(inline)
    };
    let result = FormActionCompileResult {
        form_input_redacted: Some(redacted),
        form_action_plan: Some(plan),
        form_action_status: status,
        form_action_mode: Some(owned(normalized.mode.as_str())),
        form_action_summary: Some(summary),
        inline_secret_fields,
    };
    assert(normalized_input(form_input, normalized));
    assert(compiled(normalized, behavior_execution_mode@, site_contract, result));
    Ok(result)
}

/// A field that carries its own non-blank selector is filled through it:
/// planned with that selector and the source "task", whatever the site
/// contract's field roles or the built-in heuristics would offer.
pub proof fn lemma_task_field_selector_wins(
    f: NormalizedFormFieldInput,
    contract: Option<SiteFormContract>,
    p: RunnerFormFieldPlan,
)
    requires
        planned_field(f, contract, p),
        f.selector matches Some(s) && trim(s@).len() > 0,
    ensures
        opt_view(p.selector) == opt_view(f.selector),
        p.selector_source@ == "task"@,
{
}

/// Without a selector of its own, a field whose site contract names a
/// non-blank selector for its role is filled through the contract's
/// selector, ahead of any built-in heuristic.
pub proof fn lemma_contract_field_selector_before_heuristic(
    f: NormalizedFormFieldInput,
    contract: Option<SiteFormContract>,
    p: RunnerFormFieldPlan,
)
    requires
        planned_field(f, contract, p),
        !is_nonblank(opt_view(f.selector)),
        is_nonblank(contract_field_selector(contract, f)),
    ensures
        opt_view(p.selector) == contract_field_selector(contract, f),
        p.selector_source@ == "site_policy"@,
{
}

} // verus!
