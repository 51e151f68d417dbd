//! The form data store: the values of one editing session and what
//! validation made of them.
//!
//! A store is bound to one schema and has, for each field of it and in
//! the same order, the current value and a state: not validated yet,
//! valid, or invalid with the error. Validation is one pass over all the
//! fields: it replaces each value by its normalised form and each state
//! by the verdict on that form.
//!
//! A store begins as the form of a new entity. Once it is told that it
//! edits an entity that exists, the field that names the entity is
//! locked: neither input nor validation changes its value.
use vstd::prelude::*;
use std::sync::Arc;
use crate::net::integer_of;
use crate::net::{integer_value, is_integer};
use crate::schema::{
    has_value, strings, Field, FieldView, Schema, SchemaView, Schemas, Source, Type,
};
use crate::text::{from_chars, to_chars};
use crate::transform::{apply_all_chars, lemma_transform_all_idempotent, transform_all};
use crate::validate::{check, check_chars, has_required, is_required, Validator};

verus! {

/// What a field holds: one line of text, or a list of them.
#[derive(Clone, Debug, PartialEq, Eq)]
pub enum FormValue {
    Value(String),
    Array(Vec<String>),
}

/// The model of a [`FormValue`].
pub enum ValueView {
    Value(Seq<char>),
    Array(Seq<Seq<char>>),
}

impl View for FormValue {
    type V = ValueView;

    open spec fn view(&self) -> ValueView {
        match self {
            FormValue::Value(s) => ValueView::Value(s@),
            FormValue::Array(xs) => ValueView::Array(strings(xs@)),
        }
    }
}

/// Why a value was rejected.
#[derive(Clone, Copy, Debug, PartialEq, Eq)]
pub enum Reason {
    /// This validator of the field did not accept the value.
    Failed(Validator),
    /// The value is not among the options of the field.
    InvalidSelection,
}

impl Reason {
    /// The words that tell the user of the reason.
    pub open spec fn text(self) -> Seq<char> {
        match self {
            Reason::Failed(Validator::Required) => "This field is required"@,
            Reason::Failed(Validator::IsEmail) => "Invalid email address"@,
            Reason::Failed(Validator::IsUrl) => "Invalid URL"@,
            Reason::Failed(Validator::IsSocketAddr) => "Invalid socket address"@,
            Reason::Failed(Validator::IsIpOrMask) => "Invalid IP address or network"@,
            Reason::Failed(Validator::MinLength(_)) => "Value is too short"@,
            Reason::Failed(Validator::MaxLength(_)) => "Value is too long"@,
            Reason::Failed(Validator::MinValue(_)) => "Value is too small"@,
            Reason::Failed(Validator::MaxValue(_)) => "Value is too large"@,
            Reason::InvalidSelection => "Invalid selection"@,
        }
    }

    /// The words that tell the user of the reason.
    pub fn message(&self) -> (r: &'static str)
        ensures
            r@ == self.text(),
    {
        match self {
            Reason::Failed(Validator::Required) => "This field is required",
            Reason::Failed(Validator::IsEmail) => "Invalid email address",
            Reason::Failed(Validator::IsUrl) => "Invalid URL",
            Reason::Failed(Validator::IsSocketAddr) => "Invalid socket address",
            Reason::Failed(Validator::IsIpOrMask) => "Invalid IP address or network",
            Reason::Failed(Validator::MinLength(_)) => "Value is too short",
            Reason::Failed(Validator::MaxLength(_)) => "Value is too long",
            Reason::Failed(Validator::MinValue(_)) => "Value is too small",
            Reason::Failed(Validator::MaxValue(_)) => "Value is too large",
            Reason::InvalidSelection => "Invalid selection",
        }
    }
}

/// The error of a field: the reason, and for a list the place, counted
/// from zero, of the first element that was rejected.
#[derive(Clone, Copy, Debug, PartialEq, Eq)]
pub struct FormError {
    pub reason: Reason,
    pub index: Option<usize>,
}

/// Where a field stands with respect to validation.
#[derive(Clone, Copy, Debug, PartialEq, Eq)]
pub enum FieldState {
    /// The value was set, or never touched, since the last validation.
    Unvalidated,
    Valid,
    Invalid(FormError),
}

/// The view of the options that were resolved for a field.
pub open spec fn resolved_view(options: Option<Vec<String>>) -> Option<Seq<Seq<char>>> {
    match options {
        Some(options) => Some(strings(options@)),
        None => None,
    }
}

/// The value a field has before anybody sets one: its default, or
/// nothing; for a field that holds a list, the list of that.
pub open spec fn initial_value(f: FieldView) -> ValueView {
    if f.typ.is_list() {
        match f.default {
            Some(d) => ValueView::Array(seq![d]),
            None => ValueView::Array(Seq::empty()),
        }
    } else {
        match f.default {
            Some(d) => ValueView::Value(d),
            None => ValueView::Value(Seq::empty()),
        }
    }
}

/// The options a value of the field must be among: those its type fixes,
/// or, where they are resolved outside, those that were resolved. `None`
/// where the field is no selection, and where nothing was resolved yet.
pub open spec fn options_of(f: FieldView, resolved: Option<Seq<Seq<char>>>) -> Option<
    Seq<Seq<char>>,
> {
    if f.typ.is_dynamic() {
        resolved
    } else {
        f.typ.options()
    }
}

/// What the field objects to in one normalised line of text: the first
/// validator that fails; or, where all pass and the line is not empty,
/// that it is not among the options.
pub open spec fn value_error(f: FieldView, options: Option<Seq<Seq<char>>>, s: Seq<char>) -> Option<
    Reason,
> {
    match check(f.validators, s) {
        Some(v) => Some(Reason::Failed(v)),
        None => if s.len() > 0 && options is Some && !options.unwrap().contains(s) {
            Some(Reason::InvalidSelection)
        } else {
            None
        },
    }
}

/// The lines of `xs`, each after the transformers `ts`.
pub open spec fn transform_each(ts: Seq<crate::transform::Transformer>, xs: Seq<Seq<char>>) -> Seq<
    Seq<char>,
> {
    Seq::new(xs.len(), |i: int| transform_all(ts, xs[i]))
}

/// The value after the transformers of the field: applied to the line, or
/// to each line of the list.
pub open spec fn normalize(f: FieldView, v: ValueView) -> ValueView {
    match v {
        ValueView::Value(s) => ValueView::Value(transform_all(f.transformers, s)),
        ValueView::Array(xs) => ValueView::Array(transform_each(f.transformers, xs)),
    }
}

/// The error of the first of the first `n` lines of `xs` that the field
/// objects to, with its place.
pub open spec fn first_error(
    f: FieldView,
    options: Option<Seq<Seq<char>>>,
    xs: Seq<Seq<char>>,
    n: int,
) -> Option<FormError>
    decreases n,
{
    if n <= 0 {
        None
    } else {
        match first_error(f, options, xs, n - 1) {
            Some(e) => Some(e),
            None => match value_error(f, options, xs[n - 1]) {
                Some(reason) => Some(FormError { reason, index: Some((n - 1) as usize) }),
                None => None,
            },
        }
    }
}

/// What the field objects to in a normalised value. A line is held to the
/// rules of the field. A list is held to them line by line, and the error
/// is that of the first line that fails; a list without lines fails where
/// the field asks for a value.
pub open spec fn field_error(f: FieldView, options: Option<Seq<Seq<char>>>, v: ValueView) -> Option<
    FormError,
> {
    match v {
        ValueView::Value(s) => match value_error(f, options, s) {
            Some(reason) => Some(FormError { reason, index: None }),
            None => None,
        },
        ValueView::Array(xs) => if xs.len() == 0 {
            if is_required(f.validators) {
                Some(FormError { reason: Reason::Failed(Validator::Required), index: None })
            } else {
                None
            }
        } else {
            first_error(f, options, xs, xs.len() as int)
        },
    }
}

/// The state that validation gives a field with this normalised value.
pub open spec fn state_after(f: FieldView, options: Option<Seq<Seq<char>>>, v: ValueView) -> FieldState {
    match field_error(f, options, v) {
        Some(e) => FieldState::Invalid(e),
        None => FieldState::Valid,
    }
}

/// The error of a list is that of its first line that fails: the place it
/// names is the lowest at which a line fails, and where it names none, no
/// line fails.
pub proof fn lemma_first_error(
    f: FieldView,
    options: Option<Seq<Seq<char>>>,
    xs: Seq<Seq<char>>,
    n: int,
)
    requires
        0 <= n <= xs.len() <= usize::MAX,
    ensures
        match first_error(f, options, xs, n) {
            None => forall|i: int| 0 <= i < n ==> value_error(f, options, #[trigger] xs[i]) is None,
            Some(e) => e.index is Some && e.index.unwrap() < n && value_error(
                f,
                options,
                xs[e.index.unwrap() as int],
            ) == Some(e.reason) && forall|i: int|
                0 <= i < e.index.unwrap() ==> value_error(f, options, #[trigger] xs[i]) is None,
        },
    decreases n,
{
    if n > 0 {
        lemma_first_error(f, options, xs, n - 1);
    }
}

/// The model of a store: the schema it is bound to and, for each field of
/// the schema and in the same order, the value, the state, and the options
/// that were resolved for it.
pub struct FormDataView {
    pub schema: SchemaView,
    pub values: Seq<ValueView>,
    pub states: Seq<FieldState>,
    pub resolved: Seq<Option<Seq<Seq<char>>>>,
    /// Whether the store edits an entity that exists already.
    pub editing: bool,
}

impl FormDataView {
    /// A store has one value, one state and one set of resolved options
    /// for each field of its schema, which is well formed.
    pub open spec fn wf(self) -> bool {
        &&& self.schema.wf()
        &&& self.values.len() == self.schema.fields.len()
        &&& self.states.len() == self.schema.fields.len()
        &&& self.resolved.len() == self.schema.fields.len()
        &&& self.schema.fields.len() <= usize::MAX
    }

    /// The store that a schema begins with: each field at its default, not
    /// validated, and nothing resolved.
    pub open spec fn initial(schema: SchemaView) -> FormDataView {
        FormDataView {
            schema,
            values: Seq::new(schema.fields.len(), |i: int| initial_value(schema.fields[i])),
            states: Seq::new(schema.fields.len(), |i: int| FieldState::Unvalidated),
            resolved: Seq::new(schema.fields.len(), |i: int| None),
            editing: false,
        }
    }

    /// Whether the field at `i` is out of reach of input and validation:
    /// it is where the store edits an entity that exists and the field is
    /// the one that names the entity.
    pub open spec fn is_locked(self, i: int) -> bool {
        self.editing && self.schema.fields[i].is_id
    }

    /// The store, from here on editing an entity that exists.
    pub open spec fn edit(self) -> FormDataView {
        FormDataView { editing: true, ..self }
    }

    /// The store with `value` in the field `id`, which is not validated
    /// any more. A name that is not that of a field changes nothing, and
    /// neither does that of a locked field.
    pub open spec fn with_value(self, id: Seq<char>, value: ValueView) -> FormDataView {
        if self.schema.has_field(id) && !self.is_locked(self.schema.index_of(id)) {
            let i = self.schema.index_of(id);
            FormDataView {
                values: self.values.update(i, value),
                states: self.states.update(i, FieldState::Unvalidated),
                ..self
            }
        } else {
            self
        }
    }

    /// The store with `options` resolved for the field `id`, which is not
    /// validated any more. A name that is not that of a field whose
    /// options are resolved outside changes nothing.
    pub open spec fn with_options(self, id: Seq<char>, options: Seq<Seq<char>>) -> FormDataView {
        if self.schema.has_field(id) && self.schema.fields[self.schema.index_of(id)].typ.is_dynamic() {
            let i = self.schema.index_of(id);
            FormDataView {
                resolved: self.resolved.update(i, Some(options)),
                states: self.states.update(i, FieldState::Unvalidated),
                ..self
            }
        } else {
            self
        }
    }

    /// The value of the field `id`.
    pub open spec fn value_of(self, id: Seq<char>) -> Option<ValueView> {
        if self.schema.has_field(id) {
            Some(self.values[self.schema.index_of(id)])
        } else {
            None
        }
    }

    /// The state of the field `id`.
    pub open spec fn state_of(self, id: Seq<char>) -> Option<FieldState> {
        if self.schema.has_field(id) {
            Some(self.states[self.schema.index_of(id)])
        } else {
            None
        }
    }

    /// The options that hold for the field at `i`.
    pub open spec fn options_at(self, i: int) -> Option<Seq<Seq<char>>> {
        options_of(self.schema.fields[i], self.resolved[i])
    }

    /// The store after validation: each value normalised by the
    /// transformers of its field, each state the verdict of the field on
    /// the normalised value. A locked field keeps its value, and is valid.
    pub open spec fn validated(self) -> FormDataView {
        FormDataView {
            values: Seq::new(
                self.values.len(),
                |i: int|
                    if self.is_locked(i) {
                        self.values[i]
                    } else {
                        normalize(self.schema.fields[i], self.values[i])
                    },
            ),
            states: Seq::new(
                self.values.len(),
                |i: int|
                    if self.is_locked(i) {
                        FieldState::Valid
                    } else {
                        state_after(
                            self.schema.fields[i],
                            self.options_at(i),
                            normalize(self.schema.fields[i], self.values[i]),
                        )
                    },
            ),
            ..self
        }
    }

    /// No field of the store has an error.
    pub open spec fn passed(self) -> bool {
        forall|i: int| 0 <= i < self.states.len() ==> !((#[trigger] self.states[i]) is Invalid)
    }
}

/// The values and states of one editing session, bound to one schema.
#[derive(Clone, Debug)]
pub struct FormData {
    schema: Arc<Schema>,
    values: Vec<FormValue>,
    states: Vec<FieldState>,
    resolved: Vec<Option<Vec<String>>>,
    editing: bool,
}

impl View for FormData {
    type V = FormDataView;

    closed spec fn view(&self) -> FormDataView {
        FormDataView {
            schema: self.schema@,
            values: Seq::new(self.values@.len(), |i: int| self.values@[i]@),
            states: self.states@,
            resolved: Seq::new(self.resolved@.len(), |i: int| resolved_view(self.resolved@[i])),
            editing: self.editing,
        }
    }
}

/// A copy of a list of strings.
fn copy_strings(xs: &Vec<String>) -> (r: Vec<String>)
    ensures
        strings(r@) == strings(xs@),
{
    let mut out: Vec<String> = Vec::new();
    let mut i: usize = 0;
    while i < xs.len()
        invariant
            i <= xs.len(),
            out@.len() == i,
            forall|j: int| 0 <= j < i ==> (#[trigger] out@[j])@ == xs@[j]@,
        decreases xs.len() - i,
    {
        out.push(xs[i].clone());
        i += 1;
    }
    proof {
        assert(strings(out@) =~= strings(xs@));
    }
    out
}

/// Whether `s` is one of `options`.
fn among(options: &Vec<String>, s: &str) -> (r: bool)
    ensures
        r == strings(options@).contains(s@),
{
    let mut i: usize = 0;
    while i < options.len()
        invariant
            i <= options.len(),
            forall|j: int| 0 <= j < i ==> (#[trigger] strings(options@)[j]) != s@,
        decreases options.len() - i,
    {
        if options[i].as_str().eq(s) {
            proof {
                assert(strings(options@)[i as int] == s@);
            }
            return true;
        }
        i += 1;
    }
    false
}

/// Whether the options of the field, as far as they are known, have `s`
/// among them.
fn selectable(field: &Field, resolved: &Option<Vec<String>>, s: &str) -> (r: bool)
    ensures
        r == (options_of(field@, resolved_view(*resolved)) matches Some(options) ==> options.contains(
            s@,
        )),
{
    match &field.typ {
        Type::Select { source, .. } => match source {
            Source::Static(options) => {
                proof {
                    assert(field@.typ.options().unwrap() =~= Seq::new(
                        options@.len(),
                        |i: int| options@[i].0@,
                    ));
                }
                has_value(options, s)
            },
            Source::Dynamic(_) => match resolved {
                Some(options) => among(options, s),
                None => true,
            },
        },
        _ => true,
    }
}

/// One line of text after the transformers of the field, and what the
/// field objects to in it.
fn validate_line(field: &Field, resolved: &Option<Vec<String>>, s: &str) -> (r: (
    String,
    Option<Reason>,
))
    ensures
        r.0@ == transform_all(field@.transformers, s@),
        r.1 == value_error(field@, options_of(field@, resolved_view(*resolved)), r.0@),
{
    let chars = apply_all_chars(&field.transformers, to_chars(s));
    let out = from_chars(&chars);
    let error = match check_chars(&field.validators, &chars) {
        Some(v) => Some(Reason::Failed(v)),
        None => if chars.len() > 0 && !selectable(field, resolved, out.as_str()) {
            Some(Reason::InvalidSelection)
        } else {
            None
        },
    };
    (out, error)
}

/// A value after the transformers of the field, and the state that the
/// field gives it.
fn validate_value(field: &Field, resolved: &Option<Vec<String>>, value: &FormValue) -> (r: (
    FormValue,
    FieldState,
))
    ensures
        r.0@ == normalize(field@, value@),
        r.1 == state_after(field@, options_of(field@, resolved_view(*resolved)), r.0@),
{
    let ghost options = options_of(field@, resolved_view(*resolved));
    match value {
        FormValue::Value(s) => {
            let (out, error) = validate_line(field, resolved, s.as_str());
            let state = match error {
                Some(reason) => FieldState::Invalid(FormError { reason, index: None }),
                None => FieldState::Valid,
            };
            (FormValue::Value(out), state)
        },
        FormValue::Array(xs) => {
            let ghost target = transform_each(field@.transformers, strings(xs@));
            let mut out: Vec<String> = Vec::new();
            let mut error: Option<FormError> = None;
            let mut i: usize = 0;
            while i < xs.len()
                invariant
                    i <= xs.len(),
                    out@.len() == i,
                    options == options_of(field@, resolved_view(*resolved)),
                    target == transform_each(field@.transformers, strings(xs@)),
                    forall|j: int| 0 <= j < i ==> (#[trigger] out@[j])@ == target[j],
                    error == first_error(field@, options, target, i as int),
                decreases xs.len() - i,
            {
                let (line, line_error) = validate_line(field, resolved, xs[i].as_str());
                proof {
                    assert(strings(xs@)[i as int] == xs@[i as int]@);
                    assert(line@ == target[i as int]);
                }
                if error.is_none() {
                    match line_error {
                        Some(reason) => {
                            error = Some(FormError { reason, index: Some(i) });
                        },
                        None => {},
                    }
                }
                out.push(line);
                i += 1;
            }
            proof {
                assert(strings(out@) =~= target);
            }
            let state = if xs.len() == 0 {
                if has_required(&field.validators) {
                    FieldState::Invalid(
                        FormError { reason: Reason::Failed(Validator::Required), index: None },
                    )
                } else {
                    FieldState::Valid
                }
            } else {
                match error {
                    Some(e) => FieldState::Invalid(e),
                    None => FieldState::Valid,
                }
            };
            (FormValue::Array(out), state)
        },
    }
}

/// The value a field begins with.
fn initial_value_of(field: &Field) -> (r: FormValue)
    ensures
        r@ == initial_value(field@),
{
    if field.typ.is_list() {
        let mut items: Vec<String> = Vec::new();
        match &field.default {
            Some(d) => {
                items.push(d.clone());
                proof {
                    assert(strings(items@) =~= seq![d@]);
                }
            },
            None => {
                proof {
                    assert(strings(items@) =~= Seq::<Seq<char>>::empty());
                }
            },
        }
        FormValue::Array(items)
    } else {
        match &field.default {
            Some(d) => FormValue::Value(d.clone()),
            None => FormValue::Value(String::new()),
        }
    }
}

impl FormData {
    /// Whether the store is well formed: see [`FormDataView::wf`].
    pub open spec fn wf(&self) -> bool {
        self@.wf()
    }

    /// A store bound to `schema`, each field at its default.
    pub fn new(schema: Arc<Schema>) -> (r: FormData)
        requires
            schema@.wf(),
        ensures
            r.wf(),
            r@ == FormDataView::initial(schema@),
    {
        let n = schema.fields.len();
        let mut values: Vec<FormValue> = Vec::new();
        let mut states: Vec<FieldState> = Vec::new();
        let mut resolved: Vec<Option<Vec<String>>> = Vec::new();
        let mut i: usize = 0;
        while i < n
            invariant
                i <= n == schema.fields@.len(),
                values@.len() == i,
                states@.len() == i,
                resolved@.len() == i,
                forall|j: int| 0 <= j < i ==> (#[trigger] values@[j])@ == initial_value(schema@.fields[j]),
                forall|j: int| 0 <= j < i ==> #[trigger] states@[j] == FieldState::Unvalidated,
                forall|j: int| 0 <= j < i ==> (#[trigger] resolved@[j]) is None,
            decreases n - i,
        {
            proof {
                assert(schema@.fields[i as int] == schema.fields@[i as int]@);
            }
            values.push(initial_value_of(&schema.fields[i]));
            states.push(FieldState::Unvalidated);
            resolved.push(None);
            i += 1;
        }
        let r = FormData { schema, values, states, resolved, editing: false };
        proof {
            let target = FormDataView::initial(schema@);
            assert(r@.values =~= target.values);
            assert(r@.states =~= target.states);
            assert(r@.resolved =~= target.resolved);
        }
        r
    }

    /// The place of the field `id` in the schema and so in the store.
    fn index(&self, id: &str) -> (r: Option<usize>)
        requires
            self.wf(),
        ensures
            r is Some <==> self@.schema.has_field(id@),
            r is Some ==> r.unwrap() == self@.schema.index_of(id@) && r.unwrap() < self@.values.len(),
    {
        self.schema.field_index(id)
    }

    /// Puts `value` into the field `id` and marks the field as not
    /// validated. A name that is not that of a field changes nothing; and
    /// once the store edits an entity that exists, the field that names
    /// the entity keeps its value.
    pub fn set(&mut self, id: &str, value: FormValue)
        requires
            old(self).wf(),
        ensures
            final(self).wf(),
            final(self)@ == old(self)@.with_value(id@, value@),
    {
        match self.index(id) {
            Some(i) => {
                proof {
                    assert(self@.schema.fields[i as int] == self.schema.fields@[i as int]@);
                }
                if !(self.editing && self.schema.fields[i].is_id) {
                    self.values.set(i, value);
                    self.states.set(i, FieldState::Unvalidated);
                    proof {
                        assert(self@.values =~= old(self)@.with_value(id@, value@).values);
                    }
                }
            },
            None => {},
        }
    }

    /// The store, from here on editing an entity that exists: the field
    /// that names the entity is locked. Input does not reach it, and
    /// validation takes it as it is.
    pub fn editing(self) -> (r: FormData)
        requires
            self.wf(),
        ensures
            r.wf(),
            r@ == self@.edit(),
    {
        let mut r = self;
        r.editing = true;
        r
    }

    /// Whether the store edits an entity that exists.
    pub fn is_editing(&self) -> (r: bool)
        ensures
            r == self@.editing,
    {
        self.editing
    }

    /// Puts the line `value` into the field `id`, as the user's input
    /// does: the field is not validated afterwards.
    pub fn update(&mut self, id: &str, value: String)
        requires
            old(self).wf(),
        ensures
            final(self).wf(),
            final(self)@ == old(self)@.with_value(id@, ValueView::Value(value@)),
    {
        self.set(id, FormValue::Value(value));
    }

    /// Puts the list `values` into the field `id`, as the user's input
    /// does: the field is not validated afterwards.
    pub fn update_array(&mut self, id: &str, values: Vec<String>)
        requires
            old(self).wf(),
        ensures
            final(self).wf(),
            final(self)@ == old(self)@.with_value(id@, ValueView::Array(strings(values@))),
    {
        self.set(id, FormValue::Array(values));
    }

    /// The store with the line `value` in the field `id`, in place of the
    /// default. Nothing is validated.
    pub fn with_value(self, id: &str, value: String) -> (r: FormData)
        requires
            self.wf(),
        ensures
            r.wf(),
            r@ == self@.with_value(id@, ValueView::Value(value@)),
    {
        let mut r = self;
        r.set(id, FormValue::Value(value));
        r
    }

    /// The store with the list `values` in the field `id`, in place of
    /// the default. Nothing is validated.
    pub fn with_array(self, id: &str, values: Vec<String>) -> (r: FormData)
        requires
            self.wf(),
        ensures
            r.wf(),
            r@ == self@.with_value(id@, ValueView::Array(strings(values@))),
    {
        let mut r = self;
        r.set(id, FormValue::Array(values));
        r
    }

    /// Records the options that were resolved for the field `id`, whose
    /// source is resolved outside, and marks the field as not validated:
    /// the next validation holds its value to these options. Any other
    /// name changes nothing.
    pub fn resolve_source(&mut self, id: &str, options: Vec<String>)
        requires
            old(self).wf(),
        ensures
            final(self).wf(),
            final(self)@ == old(self)@.with_options(id@, strings(options@)),
    {
        match self.index(id) {
            Some(i) => {
                proof {
                    assert(self@.schema.fields[i as int] == self.schema.fields@[i as int]@);
                }
                let dynamic = match &self.schema.fields[i].typ {
                    Type::Select { source, .. } => match source {
                        Source::Dynamic(_) => true,
                        _ => false,
                    },
                    _ => false,
                };
                if dynamic {
                    self.resolved.set(i, Some(options));
                    self.states.set(i, FieldState::Unvalidated);
                    proof {
                        assert(self@.resolved =~= old(self)@.with_options(
                            id@,
                            strings(options@),
                        ).resolved);
                        assert(self@.values =~= old(self)@.values);
                    }
                }
            },
            None => {},
        }
    }

    /// The line of text in the field `id`. `None` where the schema has no
    /// such field, and where the field holds a list. A field that was
    /// never set and has no default gives the empty line.
    pub fn value(&self, id: &str) -> (r: Option<String>)
        requires
            self.wf(),
        ensures
            match self@.value_of(id@) {
                Some(ValueView::Value(s)) => r is Some && r.unwrap()@ == s,
                _ => r is None,
            },
    {
        match self.index(id) {
            Some(i) => match &self.values[i] {
                FormValue::Value(s) => Some(s.clone()),
                FormValue::Array(_) => None,
            },
            None => None,
        }
    }

    /// The list in the field `id`. `None` where the schema has no such
    /// field, and where the field holds a single line.
    pub fn array_value(&self, id: &str) -> (r: Option<Vec<String>>)
        requires
            self.wf(),
        ensures
            match self@.value_of(id@) {
                Some(ValueView::Array(xs)) => r is Some && strings(r.unwrap()@) == xs,
                _ => r is None,
            },
    {
        match self.index(id) {
            Some(i) => match &self.values[i] {
                FormValue::Value(_) => None,
                FormValue::Array(xs) => Some(copy_strings(xs)),
            },
            None => None,
        }
    }

    /// The line in the field `id` read as a whole number. `None` where
    /// there is no such line, or it is no whole number.
    pub fn value_as_int(&self, id: &str) -> (r: Option<i64>)
        requires
            self.wf(),
        ensures
            match self@.value_of(id@) {
                Some(ValueView::Value(s)) => if is_integer(s) {
                    r == Some(integer_value(s) as i64)
                } else {
                    r is None
                },
                _ => r is None,
            },
    {
        match self.value(id) {
            Some(s) => {
                let chars = to_chars(s.as_str());
                integer_of(&chars)
            },
            None => None,
        }
    }

    /// The line in the field `id` read as yes or no: yes for the line
    /// `true`, no for the line `false`. `None` where there is no such
    /// line, or it is neither.
    pub fn value_as_bool(&self, id: &str) -> (r: Option<bool>)
        requires
            self.wf(),
        ensures
            r == (match self@.value_of(id@) {
                Some(ValueView::Value(s)) => if s == "true"@ {
                    Some(true)
                } else if s == "false"@ {
                    Some(false)
                } else {
                    None
                },
                _ => None,
            }),
    {
        match self.value(id) {
            Some(s) => if s.as_str().eq("true") {
                Some(true)
            } else if s.as_str().eq("false") {
                Some(false)
            } else {
                None
            },
            None => None,
        }
    }

    /// The state of the field `id`; `None` where the schema has no such
    /// field.
    pub fn state(&self, id: &str) -> (r: Option<FieldState>)
        requires
            self.wf(),
        ensures
            r == self@.state_of(id@),
    {
        match self.index(id) {
            Some(i) => Some(self.states[i]),
            None => None,
        }
    }

    /// The error that the last validation found in the field `id`. `None`
    /// where it found none, where the field was set since, and where the
    /// schema has no such field.
    pub fn error(&self, id: &str) -> (r: Option<FormError>)
        requires
            self.wf(),
        ensures
            match self@.state_of(id@) {
                Some(FieldState::Invalid(e)) => r == Some(e),
                _ => r is None,
            },
    {
        match self.state(id) {
            Some(FieldState::Invalid(e)) => Some(e),
            _ => None,
        }
    }

    /// Validates the whole form. Every field, in the order of the schema,
    /// has its value replaced by the normalised one and its state by the
    /// verdict on it. The result says whether no field has an error.
    pub fn validate_form(&mut self) -> (r: bool)
        requires
            old(self).wf(),
        ensures
            final(self).wf(),
            final(self)@ == old(self)@.validated(),
            r == final(self)@.passed(),
    {
        let n = self.values.len();
        let ghost before = self@;
        let mut ok = true;
        let mut i: usize = 0;
        while i < n
            invariant
                i <= n,
                before.wf(),
                before == old(self)@,
                n == before.values.len(),
                self@.schema == before.schema,
                self@.resolved == before.resolved,
                self@.editing == before.editing,
                self@.values.len() == n,
                self@.states.len() == n,
                self.schema.fields@.len() == n,
                forall|j: int| 0 <= j < i ==> #[trigger] self@.values[j] == before.validated().values[j],
                forall|j: int| 0 <= j < i ==> #[trigger] self@.states[j] == before.validated().states[j],
                forall|j: int| i <= j < n ==> #[trigger] self@.values[j] == before.values[j],
                ok == forall|j: int| 0 <= j < i ==> !((#[trigger] self@.states[j]) is Invalid),
            decreases n - i,
        {
            let ghost at_entry = self@;
            proof {
                assert(self@.schema.fields[i as int] == self.schema.fields@[i as int]@);
                assert(self@.values[i as int] == self.values@[i as int]@);
                assert(self@.resolved[i as int] == resolved_view(self.resolved@[i as int]));
            }
            let state = if self.editing && self.schema.fields[i].is_id {
                FieldState::Valid
            } else {
                let (value, state) = validate_value(
                    &self.schema.fields[i],
                    &self.resolved[i],
                    &self.values[i],
                );
                self.values.set(i, value);
                state
            };
            match state {
                FieldState::Invalid(_) => {
                    ok = false;
                },
                _ => {},
            }
            self.states.set(i, state);
            proof {
                assert(self@.resolved =~= before.resolved);
                assert forall|j: int| 0 <= j < i + 1 implies #[trigger] self@.values[j]
                    == before.validated().values[j] by {
                    if j < i {
                        assert(self@.values[j] == at_entry.values[j]);
                    }
                }
                assert forall|j: int| 0 <= j < i + 1 implies #[trigger] self@.states[j]
                    == before.validated().states[j] by {
                    if j < i {
                        assert(self@.states[j] == at_entry.states[j]);
                    }
                }
                assert forall|j: int| i + 1 <= j < n implies #[trigger] self@.values[j]
                    == before.values[j] by {
                    assert(self@.values[j] == at_entry.values[j]);
                }
                assert(self@.states[i as int] == state);
                if ok {
                    assert forall|j: int| 0 <= j < i + 1 implies !((#[trigger] self@.states[j])
                        is Invalid) by {
                        if j < i {
                            assert(self@.states[j] == at_entry.states[j]);
                        }
                    }
                } else if !(state is Invalid) {
                    let j = choose|j: int| 0 <= j < i && (#[trigger] at_entry.states[j]) is Invalid;
                    assert(self@.states[j] == at_entry.states[j]);
                }
            }
            i += 1;
        }
        proof {
            assert(self@.values =~= before.validated().values);
            assert(self@.states =~= before.validated().states);
        }
        ok
    }
}

impl Schemas {
    /// A store for the schema registered under `name`, each field at its
    /// default. The name must be registered: see [`Schemas::get`] for a
    /// name that may not be.
    pub fn build_form(&self, name: &str) -> (r: FormData)
        requires
            self.wf(),
            self.contains(name@),
        ensures
            r.wf(),
            r@ == FormDataView::initial(self.schema(name@)),
    {
        let schema = self.get(name).unwrap();
        FormData::new(schema)
    }

    /// A store for the schema registered under `name`, or `None` where
    /// none is registered under it.
    pub fn try_build_form(&self, name: &str) -> (r: Option<FormData>)
        requires
            self.wf(),
        ensures
            r is Some <==> self.contains(name@),
            r is Some ==> r.unwrap().wf() && r.unwrap()@ == FormDataView::initial(
                self.schema(name@),
            ),
    {
        match self.get(name) {
            Some(schema) => Some(FormData::new(schema)),
            None => None,
        }
    }
}

/// Setting one field leaves the value and the state of every other field
/// as they were, and the schema too.
pub proof fn lemma_with_value_frame(store: FormDataView, id: Seq<char>, value: ValueView, j: int)
    requires
        store.wf(),
        0 <= j < store.values.len(),
        store.schema.fields[j].id != id,
    ensures
        store.with_value(id, value).wf(),
        store.with_value(id, value).schema == store.schema,
        store.with_value(id, value).values[j] == store.values[j],
        store.with_value(id, value).states[j] == store.states[j],
{
    if store.schema.has_field(id) {
        let i = store.schema.index_of(id);
        assert(store.schema.fields[i].id == id);
    }
}

/// Setting a field of a known name puts the value there and marks the
/// field as not validated.
pub proof fn lemma_with_value_sets(store: FormDataView, id: Seq<char>, value: ValueView)
    requires
        store.wf(),
        store.schema.has_field(id),
        !store.is_locked(store.schema.index_of(id)),
    ensures
        store.with_value(id, value).value_of(id) == Some(value),
        store.with_value(id, value).state_of(id) == Some(FieldState::Unvalidated),
{
    let i = store.schema.index_of(id);
    assert(store.schema.fields[i].id == id);
}

/// Validation leaves no field unvalidated, and passes exactly when no
/// field that is not locked has an error.
pub proof fn lemma_validated_states(store: FormDataView)
    requires
        store.wf(),
    ensures
        store.validated().wf(),
        forall|i: int|
            0 <= i < store.states.len() ==> !((#[trigger] store.validated().states[i])
                is Unvalidated),
        store.validated().passed() <==> forall|i: int|
            0 <= i < store.values.len() && !store.is_locked(i) ==> field_error(
                store.schema.fields[i],
                store.options_at(i),
                #[trigger] normalize(store.schema.fields[i], store.values[i]),
            ) is None,
{
    let v = store.validated();
    if v.passed() {
        assert forall|i: int| 0 <= i < store.values.len() && !store.is_locked(i) implies field_error(
            store.schema.fields[i],
            store.options_at(i),
            #[trigger] normalize(store.schema.fields[i], store.values[i]),
        ) is None by {
            assert(!(v.states[i] is Invalid));
        }
    }
}

/// Normalising a value twice is normalising it once.
pub proof fn lemma_normalize_idempotent(f: FieldView, v: ValueView)
    ensures
        normalize(f, normalize(f, v)) == normalize(f, v),
{
    match v {
        ValueView::Value(s) => {
            lemma_transform_all_idempotent(f.transformers, s);
        },
        ValueView::Array(xs) => {
            let once = transform_each(f.transformers, xs);
            assert forall|i: int| 0 <= i < xs.len() implies transform_all(f.transformers, once[i])
                == once[i] by {
                lemma_transform_all_idempotent(f.transformers, xs[i]);
            }
            assert(transform_each(f.transformers, once) =~= once);
        },
    }
}

/// Validating a store twice is validating it once: with the input
/// unchanged, a second submission finds the same values and the same
/// verdicts.
pub proof fn lemma_validate_idempotent(store: FormDataView)
    requires
        store.wf(),
    ensures
        store.validated().validated() == store.validated(),
{
    let once = store.validated();
    let twice = once.validated();
    assert forall|i: int| 0 <= i < store.values.len() implies twice.values[i] == once.values[i]
        && twice.states[i] == once.states[i] by {
        lemma_normalize_idempotent(store.schema.fields[i], store.values[i]);
    }
    assert(twice.values =~= once.values);
    assert(twice.states =~= once.states);
}

/// Whether the rules of the field accept its own default.
pub open spec fn default_accepted(f: FieldView) -> bool {
    f.default matches Some(d) ==> value_error(
        f,
        options_of(f, None),
        transform_all(f.transformers, d),
    ) is None
}

/// A store built purely from the defaults of a schema passes validation
/// when no field of the schema asks for a value and every default is one
/// that the rules of its own field accept.
pub proof fn lemma_defaults_pass(schema: SchemaView)
    requires
        schema.wf(),
        forall|i: int| 0 <= i < schema.fields.len() ==> !is_required((#[trigger] schema.fields[i]).validators),
        forall|i: int| 0 <= i < schema.fields.len() ==> default_accepted(#[trigger] schema.fields[i]),
    ensures
        FormDataView::initial(schema).validated().passed(),
{
    let store = FormDataView::initial(schema);
    let v = store.validated();
    assert forall|i: int| 0 <= i < v.states.len() implies !((#[trigger] v.states[i]) is Invalid) by {
        let f = schema.fields[i];
        assert(!is_required(f.validators));
        assert(default_accepted(f));
        let options = options_of(f, None);
        assert(store.options_at(i) == options);
        let value = normalize(f, initial_value(f));
        match f.default {
            Some(d) => {
                if f.typ.is_list() {
                    let xs = transform_each(f.transformers, seq![d]);
                    assert(xs.len() == 1);
                    assert(xs[0] == transform_all(f.transformers, d));
                    assert(first_error(f, options, xs, 0) is None);
                    assert(first_error(f, options, xs, 1) is None);
                }
            },
            None => {
                if f.typ.is_list() {
                    assert(transform_each(f.transformers, Seq::<Seq<char>>::empty()).len() == 0);
                } else {
                    lemma_transform_all_empty(f.transformers);
                }
            },
        }
    }
}

/// No transformer makes something of nothing.
pub proof fn lemma_transform_all_empty(ts: Seq<crate::transform::Transformer>)
    ensures
        transform_all(ts, Seq::empty()) == Seq::<char>::empty(),
    decreases ts.len(),
{
    if ts.len() > 0 {
        lemma_transform_all_empty(ts.drop_last());
        let e = Seq::<char>::empty();
        crate::text::lemma_trim(e);
        crate::text::lemma_remove_spaces(e);
        crate::text::lemma_lowercase(e);
        assert(crate::transform::transform(ts.last(), e).len() == 0);
        assert(crate::transform::transform(ts.last(), e) =~= e);
    }
}

} // verus!
