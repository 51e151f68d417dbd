//! Schemas: the description of a configuration entity, written once and
//! read by everything that validates, defaults or lays out its fields.
//!
//! A schema is plain data. Each type here has a view over sequences of
//! characters, and the contracts of the engine speak of those views.
use vstd::prelude::*;
use std::sync::Arc;
use crate::transform::Transformer;
use crate::validate::Validator;

verus! {

/// The views of the elements of `v`.
pub open spec fn strings(v: Seq<String>) -> Seq<Seq<char>> {
    Seq::new(v.len(), |i: int| v[i]@)
}

/// Where the options of a selection come from.
#[derive(Clone, Debug, PartialEq, Eq)]
pub enum Source {
    /// A fixed list of options: the value that is stored, and the label
    /// that is shown for it.
    Static(Vec<(String, String)>),
    /// A list that is known by name only, until somebody outside resolves
    /// it.
    Dynamic(String),
}

/// The model of a [`Source`].
pub enum SourceView {
    Static(Seq<(Seq<char>, Seq<char>)>),
    Dynamic(Seq<char>),
}

impl View for Source {
    type V = SourceView;

    open spec fn view(&self) -> SourceView {
        match self {
            Source::Static(options) => SourceView::Static(
                Seq::new(options@.len(), |i: int| (options@[i].0@, options@[i].1@)),
            ),
            Source::Dynamic(name) => SourceView::Dynamic(name@),
        }
    }
}

/// The kind of value a field holds.
#[derive(Clone, Debug, PartialEq, Eq)]
pub enum Type {
    /// A line of text.
    Input,
    /// A line of text that is never shown.
    Secret,
    /// Yes or no.
    Boolean,
    /// A list of lines of text.
    Array,
    /// One option, or with `multi` several, of those a source offers.
    Select { multi: bool, source: Source },
}

/// The model of a [`Type`].
pub enum TypeView {
    Input,
    Secret,
    Boolean,
    Array,
    Select { multi: bool, source: SourceView },
}

impl View for Type {
    type V = TypeView;

    open spec fn view(&self) -> TypeView {
        match self {
            Type::Input => TypeView::Input,
            Type::Secret => TypeView::Secret,
            Type::Boolean => TypeView::Boolean,
            Type::Array => TypeView::Array,
            Type::Select { multi, source } => TypeView::Select { multi: *multi, source: source@ },
        }
    }
}

impl TypeView {
    /// Whether a field of this type holds a list of values.
    pub open spec fn is_list(self) -> bool {
        match self {
            TypeView::Array => true,
            TypeView::Select { multi, .. } => multi,
            _ => false,
        }
    }

    /// The values a field of this type may hold, where the type fixes
    /// them.
    pub open spec fn options(self) -> Option<Seq<Seq<char>>> {
        match self {
            TypeView::Select { source: SourceView::Static(options), .. } => Some(
                Seq::new(options.len(), |i: int| options[i].0),
            ),
            _ => None,
        }
    }

    /// Whether the options of a field of this type are resolved outside.
    pub open spec fn is_dynamic(self) -> bool {
        self matches TypeView::Select { source: SourceView::Dynamic(_), .. }
    }

    /// Whether `value` can be the default of a field of this type: for yes
    /// or no it is `true` or `false`, and for a selection from a fixed list
    /// it is one of the options.
    pub open spec fn admits(self, value: Seq<char>) -> bool {
        match self {
            TypeView::Boolean => value == "true"@ || value == "false"@,
            _ => self.options() matches Some(options) ==> options.contains(value),
        }
    }
}

/// Whether `s` is the value of one of `options`.
pub fn has_value(options: &Vec<(String, String)>, s: &str) -> (r: bool)
    ensures
        r == Seq::new(options@.len(), |i: int| options@[i].0@).contains(s@),
{
    let ghost values = Seq::new(options@.len(), |i: int| options@[i].0@);
    let mut i: usize = 0;
    while i < options.len()
        invariant
            i <= options.len(),
            values == Seq::new(options@.len(), |i: int| options@[i].0@),
            forall|j: int| 0 <= j < i ==> (#[trigger] values[j]) != s@,
        decreases options.len() - i,
    {
        if options[i].0.as_str().eq(s) {
            proof {
                assert(values[i as int] == s@);
            }
            return true;
        }
        i += 1;
    }
    false
}

impl Source {
    /// A fixed list of options, each a value and its label.
    pub fn of(options: &[(&str, &str)]) -> (r: Source)
        ensures
            r@ == SourceView::Static(
                Seq::new(options@.len(), |i: int| (options@[i].0@, options@[i].1@)),
            ),
    {
        let mut out: Vec<(String, String)> = Vec::new();
        let mut i: usize = 0;
        while i < options.len()
            invariant
                i <= options.len(),
                out@.len() == i,
                forall|j: int|
                    0 <= j < i ==> (#[trigger] out@[j]).0@ == options@[j].0@ && out@[j].1@
                        == options@[j].1@,
            decreases options.len() - i,
        {
            let (value, label) = options[i];
            out.push((value.to_owned(), label.to_owned()));
            i += 1;
        }
        let r = Source::Static(out);
        proof {
            assert(r@->Static_0 =~= Seq::new(
                options@.len(),
                |i: int| (options@[i].0@, options@[i].1@),
            ));
        }
        r
    }
}

impl Type {
    /// Whether a field of this type holds a list of values.
    pub fn is_list(&self) -> (r: bool)
        ensures
            r == self@.is_list(),
    {
        match self {
            Type::Array => true,
            Type::Select { multi, .. } => *multi,
            _ => false,
        }
    }

    /// Whether `value` can be the default of a field of this type.
    pub fn admits(&self, value: &str) -> (r: bool)
        ensures
            r == self@.admits(value@),
    {
        match self {
            Type::Boolean => value.eq("true") || value.eq("false"),
            Type::Select { source, .. } => match source {
                Source::Static(options) => {
                    proof {
                        assert(self@.options().unwrap() =~= Seq::new(
                            options@.len(),
                            |i: int| options@[i].0@,
                        ));
                    }
                    has_value(options, value)
                },
                Source::Dynamic(_) => true,
            },
            _ => true,
        }
    }
}

/// One field of a schema.
#[derive(Clone, Debug, PartialEq, Eq)]
pub struct Field {
    /// The name by which the field is found; unique within its schema.
    pub id: String,
    pub typ: Type,
    pub label: String,
    pub help: String,
    /// The value the field has before anybody sets one.
    pub default: Option<String>,
    /// Applied to the input, first to last, before validation.
    pub transformers: Vec<Transformer>,
    /// Asked of the transformed input, first to last.
    pub validators: Vec<Validator>,
    /// Whether the field names the entity itself.
    pub is_id: bool,
}

/// The model of a [`Field`].
pub struct FieldView {
    pub id: Seq<char>,
    pub typ: TypeView,
    pub label: Seq<char>,
    pub help: Seq<char>,
    pub default: Option<Seq<char>>,
    pub transformers: Seq<Transformer>,
    pub validators: Seq<Validator>,
    pub is_id: bool,
}

/// The view of an optional string.
pub open spec fn option_view(s: Option<String>) -> Option<Seq<char>> {
    match s {
        Some(s) => Some(s@),
        None => None,
    }
}

impl View for Field {
    type V = FieldView;

    open spec fn view(&self) -> FieldView {
        FieldView {
            id: self.id@,
            typ: self.typ@,
            label: self.label@,
            help: self.help@,
            default: option_view(self.default),
            transformers: self.transformers@,
            validators: self.validators@,
            is_id: self.is_id,
        }
    }
}

impl Field {
    /// Whether the default of the field, if it has one, is a value that
    /// its type admits.
    pub fn default_fits(&self) -> (r: bool)
        ensures
            r == self@.default_fits(),
    {
        match &self.default {
            Some(d) => self.typ.admits(d.as_str()),
            None => true,
        }
    }
}

impl FieldView {
    /// A field as it is before anything is said of it but its name: a line
    /// of text without label, help, default or rules.
    pub open spec fn new(id: Seq<char>) -> FieldView {
        FieldView {
            id,
            typ: TypeView::Input,
            label: Seq::empty(),
            help: Seq::empty(),
            default: None,
            transformers: Seq::empty(),
            validators: Seq::empty(),
            is_id: false,
        }
    }

    /// The field that names the entity, as it is before anything else is
    /// said of it. Its name is `_id`.
    pub open spec fn new_id() -> FieldView {
        FieldView { is_id: true, ..FieldView::new("_id"@) }
    }

    /// Whether the default of the field, if it has one, is a value that
    /// its type admits.
    pub open spec fn default_fits(self) -> bool {
        self.default matches Some(d) ==> self.typ.admits(d)
    }

    /// The field with these words beside it.
    pub open spec fn with_label(self, label: Seq<char>) -> FieldView {
        FieldView { label, ..self }
    }

    /// The field with these words to explain it.
    pub open spec fn with_help(self, help: Seq<char>) -> FieldView {
        FieldView { help, ..self }
    }

    /// The field with this type in place of the one it had.
    pub open spec fn with_type(self, typ: TypeView) -> FieldView {
        FieldView { typ, ..self }
    }

    /// The field with this default.
    pub open spec fn with_default(self, default: Seq<char>) -> FieldView {
        FieldView { default: Some(default), ..self }
    }

    /// The field with these transformers and validators in place of those
    /// it had.
    pub open spec fn with_checks(
        self,
        transformers: Seq<Transformer>,
        validators: Seq<Validator>,
    ) -> FieldView {
        FieldView { transformers, validators, ..self }
    }
}

/// A section of the form that edits an entity: a title and the fields
/// that stand under it. It groups; it has no part in validation.
#[derive(Clone, Debug, PartialEq, Eq)]
pub struct Form {
    pub title: String,
    pub fields: Vec<String>,
}

/// The model of a [`Form`].
pub struct FormView {
    pub title: Seq<char>,
    pub fields: Seq<Seq<char>>,
}

impl FormView {
    /// A section without title or fields.
    pub open spec fn new() -> FormView {
        FormView { title: Seq::empty(), fields: Seq::empty() }
    }

    /// The section under this title.
    pub open spec fn with_title(self, title: Seq<char>) -> FormView {
        FormView { title, ..self }
    }

    /// The section with these fields in place of those it had.
    pub open spec fn with_fields(self, fields: Seq<Seq<char>>) -> FormView {
        FormView { fields, ..self }
    }
}

impl View for Form {
    type V = FormView;

    open spec fn view(&self) -> FormView {
        FormView { title: self.title@, fields: strings(self.fields@) }
    }
}

/// The table that lists the entities: its titles and the fields that
/// become its columns.
#[derive(Clone, Debug, PartialEq, Eq)]
pub struct List {
    pub title: String,
    pub subtitle: String,
    pub fields: Vec<String>,
}

/// The model of a [`List`].
pub struct ListView {
    pub title: Seq<char>,
    pub subtitle: Seq<char>,
    pub fields: Seq<Seq<char>>,
}

impl View for List {
    type V = ListView;

    open spec fn view(&self) -> ListView {
        ListView { title: self.title@, subtitle: self.subtitle@, fields: strings(self.fields@) }
    }
}

/// The description of one configuration entity.
#[derive(Clone, Debug, PartialEq, Eq)]
pub struct Schema {
    /// The name under which the registry holds the schema.
    pub id: String,
    pub name_singular: String,
    pub name_plural: String,
    /// What the keys of the entity begin with on the wire.
    pub prefix: Option<String>,
    /// The key whose presence shows that an entity exists.
    pub suffix: Option<String>,
    pub fields: Vec<Field>,
    pub forms: Vec<Form>,
    pub list: List,
}

/// The model of a [`Schema`].
pub struct SchemaView {
    pub id: Seq<char>,
    pub name_singular: Seq<char>,
    pub name_plural: Seq<char>,
    pub prefix: Option<Seq<char>>,
    pub suffix: Option<Seq<char>>,
    pub fields: Seq<FieldView>,
    pub forms: Seq<FormView>,
    pub list: ListView,
}

impl View for Schema {
    type V = SchemaView;

    open spec fn view(&self) -> SchemaView {
        SchemaView {
            id: self.id@,
            name_singular: self.name_singular@,
            name_plural: self.name_plural@,
            prefix: option_view(self.prefix),
            suffix: option_view(self.suffix),
            fields: Seq::new(self.fields@.len(), |i: int| self.fields@[i]@),
            forms: Seq::new(self.forms@.len(), |i: int| self.forms@[i]@),
            list: self.list@,
        }
    }
}

impl SchemaView {
    /// A schema as it is before anything is said of it but its name.
    pub open spec fn new(id: Seq<char>) -> SchemaView {
        SchemaView {
            id,
            name_singular: Seq::empty(),
            name_plural: Seq::empty(),
            prefix: None,
            suffix: None,
            fields: Seq::empty(),
            forms: Seq::empty(),
            list: ListView { title: Seq::empty(), subtitle: Seq::empty(), fields: Seq::empty() },
        }
    }

    /// Whether the schema has a field of this name.
    pub open spec fn has_field(self, id: Seq<char>) -> bool {
        exists|i: int| 0 <= i < self.fields.len() && (#[trigger] self.fields[i]).id == id
    }

    /// The names of the fields.
    pub open spec fn field_ids(self) -> Set<Seq<char>> {
        ids_of(self.fields)
    }

    /// Whether the schema has a field that names the entity.
    pub open spec fn has_id_field(self) -> bool {
        exists|i: int| 0 <= i < self.fields.len() && (#[trigger] self.fields[i]).is_id
    }

    /// The place of the field of this name.
    pub open spec fn index_of(self, id: Seq<char>) -> int {
        choose|i: int| 0 <= i < self.fields.len() && (#[trigger] self.fields[i]).id == id
    }

    /// Whether every name of `ids` is that of a field.
    pub open spec fn has_fields(self, ids: Seq<Seq<char>>) -> bool {
        forall|k: int| 0 <= k < ids.len() ==> self.has_field(#[trigger] ids[k])
    }

    /// A schema is well formed when its fields have names, no two the
    /// same, and defaults that their types admit; when at most one of them
    /// names the entity; and when its form sections and its list speak of
    /// its own fields only.
    pub open spec fn wf(self) -> bool {
        &&& forall|i: int| 0 <= i < self.fields.len() ==> (#[trigger] self.fields[i]).id.len() > 0
        &&& forall|i: int| 0 <= i < self.fields.len() ==> (#[trigger] self.fields[i]).default_fits()
        &&& forall|i: int, j: int|
            0 <= i < self.fields.len() && 0 <= j < self.fields.len() && (#[trigger] self.fields[i]).id
                == (#[trigger] self.fields[j]).id ==> i == j
        &&& forall|i: int, j: int|
            0 <= i < self.fields.len() && 0 <= j < self.fields.len() && (#[trigger] self.fields[i]).is_id
                && (#[trigger] self.fields[j]).is_id ==> i == j
        &&& forall|s: int| 0 <= s < self.forms.len() ==> self.has_fields((#[trigger] self.forms[s]).fields)
        &&& self.has_fields(self.list.fields)
    }

    /// The schema with one more field at the end.
    pub open spec fn with_field(self, field: FieldView) -> SchemaView {
        SchemaView { fields: self.fields.push(field), ..self }
    }

    /// The schema with one more form section at the end.
    pub open spec fn with_form(self, form: FormView) -> SchemaView {
        SchemaView { forms: self.forms.push(form), ..self }
    }

    /// The schema with these names of the entity, one and many.
    pub open spec fn with_names(self, singular: Seq<char>, plural: Seq<char>) -> SchemaView {
        SchemaView { name_singular: singular, name_plural: plural, ..self }
    }

    /// The schema with this beginning of the keys of the entity.
    pub open spec fn with_prefix(self, prefix: Seq<char>) -> SchemaView {
        SchemaView { prefix: Some(prefix), ..self }
    }

    /// The schema with this key to show that an entity exists.
    pub open spec fn with_suffix(self, suffix: Seq<char>) -> SchemaView {
        SchemaView { suffix: Some(suffix), ..self }
    }

    /// The schema with this title of its list.
    pub open spec fn with_list_title(self, title: Seq<char>) -> SchemaView {
        SchemaView { list: ListView { title, ..self.list }, ..self }
    }

    /// The schema with this line under the title of its list.
    pub open spec fn with_list_subtitle(self, subtitle: Seq<char>) -> SchemaView {
        SchemaView { list: ListView { subtitle, ..self.list }, ..self }
    }

    /// The schema with these columns of its list.
    pub open spec fn with_list_fields(self, fields: Seq<Seq<char>>) -> SchemaView {
        SchemaView { list: ListView { fields, ..self.list }, ..self }
    }
}

/// The names of `fields`.
pub open spec fn ids_of(fields: Seq<FieldView>) -> Set<Seq<char>> {
    Set::new(|id: Seq<char>| exists|i: int| 0 <= i < fields.len() && (#[trigger] fields[i]).id == id)
}

/// The views of the elements of `v`.
pub open spec fn str_views(v: Seq<&str>) -> Seq<Seq<char>> {
    Seq::new(v.len(), |i: int| v[i]@)
}

/// A schema stays well formed while its fields stay what they are and its
/// sections and its list speak of them only.
pub proof fn lemma_same_fields(before: SchemaView, after: SchemaView)
    requires
        before.wf(),
        after.fields == before.fields,
        forall|s: int| 0 <= s < after.forms.len() ==> before.has_fields((#[trigger] after.forms[s]).fields),
        before.has_fields(after.list.fields),
    ensures
        after.wf(),
        after.field_ids() == before.field_ids(),
        after.has_id_field() == before.has_id_field(),
{
    assert forall|id: Seq<char>| after.has_field(id) == before.has_field(id) by {}
    assert forall|s: int| 0 <= s < after.forms.len() implies after.has_fields(
        (#[trigger] after.forms[s]).fields,
    ) by {
        let ids = after.forms[s].fields;
        assert(before.has_fields(ids));
        assert forall|k: int| 0 <= k < ids.len() implies after.has_field(#[trigger] ids[k]) by {
            assert(before.has_field(ids[k]));
        }
    }
    assert forall|k: int| 0 <= k < after.list.fields.len() implies after.has_field(
        #[trigger] after.list.fields[k],
    ) by {
        assert(before.has_field(after.list.fields[k]));
    }
}

/// A section added at the end keeps the schema well formed where it
/// speaks of fields of the schema only.
pub proof fn lemma_with_form(schema: SchemaView, form: FormView)
    requires
        schema.wf(),
        schema.has_fields(form.fields),
    ensures
        schema.with_form(form).wf(),
{
    let next = schema.with_form(form);
    assert forall|s: int| 0 <= s < next.forms.len() implies schema.has_fields(
        (#[trigger] next.forms[s]).fields,
    ) by {
        if s < schema.forms.len() {
            assert(next.forms[s] == schema.forms[s]);
        }
    }
    lemma_same_fields(schema, next);
}

/// In a well-formed schema a name is the name of one field at most.
pub proof fn lemma_index_of(schema: SchemaView, i: int)
    requires
        schema.wf(),
        0 <= i < schema.fields.len(),
    ensures
        schema.has_field(schema.fields[i].id),
        schema.index_of(schema.fields[i].id) == i,
{
    let id = schema.fields[i].id;
    assert(schema.fields[i].id == id);
    let k = schema.index_of(id);
    assert(schema.fields[k].id == schema.fields[i].id);
}

/// A field added at the end adds its name to those of the schema, keeps
/// every other field in its place, and keeps the schema well formed where
/// the name is new and not empty, the default fits the type, and the
/// schema has no field yet that names the entity if this one does.
pub proof fn lemma_with_field(schema: SchemaView, field: FieldView)
    requires
        schema.wf(),
        field.id.len() > 0,
        field.default_fits(),
        !schema.has_field(field.id),
        field.is_id ==> !schema.has_id_field(),
    ensures
        schema.with_field(field).wf(),
        schema.with_field(field).field_ids() == schema.field_ids().insert(field.id),
        schema.with_field(field).has_id_field() == (schema.has_id_field() || field.is_id),
{
    let next = schema.with_field(field);
    let n = schema.fields.len() as int;
    assert(next.fields[n] == field);
    assert forall|i: int| 0 <= i < n implies #[trigger] next.fields[i] == schema.fields[i] by {}
    assert forall|id: Seq<char>| next.has_field(id) <==> (schema.has_field(id) || id == field.id) by {
        if schema.has_field(id) {
            let i = schema.index_of(id);
            assert(next.fields[i].id == id);
        }
        if id == field.id {
            assert(next.fields[n].id == id);
        }
        if next.has_field(id) {
            let i = next.index_of(id);
            if i < n {
                assert(schema.fields[i].id == id);
            }
        }
    }
    assert forall|id: Seq<char>| next.field_ids().contains(id) == (schema.field_ids().contains(id)
        || id == field.id) by {
        assert(next.field_ids().contains(id) == next.has_field(id));
        assert(schema.field_ids().contains(id) == schema.has_field(id));
    }
    assert(next.field_ids() =~= schema.field_ids().insert(field.id));
    assert forall|i: int, j: int|
        0 <= i < next.fields.len() && 0 <= j < next.fields.len() && (#[trigger] next.fields[i]).id == (
        #[trigger] next.fields[j]).id implies i == j by {
        if i < n && j < n {
            assert(schema.fields[i].id == schema.fields[j].id);
        } else if i < n {
            assert(schema.fields[i].id == field.id);
        } else if j < n {
            assert(schema.fields[j].id == field.id);
        }
    }
    assert forall|i: int, j: int|
        0 <= i < next.fields.len() && 0 <= j < next.fields.len() && (#[trigger] next.fields[i]).is_id && (
        #[trigger] next.fields[j]).is_id implies i == j by {
        if i < n && j < n {
            assert(schema.fields[i].is_id && schema.fields[j].is_id);
        } else if i < n {
            assert(schema.fields[i].is_id);
        } else if j < n {
            assert(schema.fields[j].is_id);
        }
    }
    assert forall|i: int| 0 <= i < next.fields.len() implies (#[trigger] next.fields[i]).id.len() > 0 by {
        if i < n {
            assert(schema.fields[i].id.len() > 0);
        }
    }
    assert forall|i: int| 0 <= i < next.fields.len() implies (#[trigger] next.fields[i]).default_fits() by {
        if i < n {
            assert(schema.fields[i].default_fits());
        }
    }
    assert forall|s: int| 0 <= s < next.forms.len() implies next.has_fields(
        (#[trigger] next.forms[s]).fields,
    ) by {
        let ids = schema.forms[s].fields;
        assert(schema.has_fields(ids));
        assert forall|k: int| 0 <= k < ids.len() implies next.has_field(#[trigger] ids[k]) by {
            assert(schema.has_field(ids[k]));
        }
    }
    assert forall|k: int| 0 <= k < next.list.fields.len() implies next.has_field(
        #[trigger] next.list.fields[k],
    ) by {
        assert(schema.has_field(schema.list.fields[k]));
    }
    if schema.has_id_field() {
        let i = choose|i: int| 0 <= i < schema.fields.len() && (#[trigger] schema.fields[i]).is_id;
        assert(next.fields[i].is_id);
    }
    if field.is_id {
        assert(next.fields[n].is_id);
    }
    if next.has_id_field() {
        let i = choose|i: int| 0 <= i < next.fields.len() && (#[trigger] next.fields[i]).is_id;
        if i < n {
            assert(schema.fields[i].is_id);
        }
    }
}

impl Schema {
    /// A schema without fields, sections or names other than its own.
    pub fn new(id: &str) -> (r: Schema)
        ensures
            r@ == SchemaView::new(id@),
            r@.wf(),
    {
        let r = Schema {
            id: id.to_owned(),
            name_singular: String::new(),
            name_plural: String::new(),
            prefix: None,
            suffix: None,
            fields: Vec::new(),
            forms: Vec::new(),
            list: List { title: String::new(), subtitle: String::new(), fields: Vec::new() },
        };
        proof {
            assert(r@.fields =~= Seq::empty());
            assert(r@.forms =~= Seq::empty());
            assert(r@.list.fields =~= Seq::empty());
        }
        r
    }

    /// The place of the field of this name: `None` where the schema has no
    /// such field.
    pub fn field_index(&self, id: &str) -> (r: Option<usize>)
        ensures
            match r {
                Some(i) => i < self@.fields.len() && self@.fields[i as int].id == id@ && forall|j: int|
                    0 <= j < i ==> (#[trigger] self@.fields[j]).id != id@,
                None => !self@.has_field(id@),
            },
            self@.wf() && r is Some ==> r.unwrap() == self@.index_of(id@),
    {
        let mut i: usize = 0;
        while i < self.fields.len()
            invariant
                i <= self.fields.len(),
                forall|j: int| 0 <= j < i ==> (#[trigger] self@.fields[j]).id != id@,
            decreases self.fields.len() - i,
        {
            if self.fields[i].id.as_str().eq(id) {
                proof {
                    assert(self@.fields[i as int].id == id@);
                    if self@.wf() {
                        lemma_index_of(self@, i as int);
                    }
                }
                return Some(i);
            }
            i += 1;
        }
        None
    }

    /// Whether the schema has a field of this name.
    pub fn has_field(&self, id: &str) -> (r: bool)
        ensures
            r == self@.has_field(id@),
    {
        self.field_index(id).is_some()
    }

    /// Whether the schema has a field that names the entity.
    pub fn has_id_field(&self) -> (r: bool)
        ensures
            r == self@.has_id_field(),
    {
        let mut i: usize = 0;
        while i < self.fields.len()
            invariant
                i <= self.fields.len(),
                forall|j: int| 0 <= j < i ==> !(#[trigger] self@.fields[j]).is_id,
            decreases self.fields.len() - i,
        {
            if self.fields[i].is_id {
                proof {
                    assert(self@.fields[i as int].is_id);
                }
                return true;
            }
            i += 1;
        }
        false
    }
}

/// `Arc::clone` of the standard library: a second handle to the same
/// schema.
#[verifier::external_body]
pub(crate) fn share(schema: &Arc<Schema>) -> (r: Arc<Schema>)
    ensures
        r == *schema,
{
    Arc::clone(schema)
}

/// The registry: every schema of the process, each under its name.
/// It is filled once, by a [`crate::builder::Builder`], and only read
/// afterwards.
#[derive(Clone, Debug)]
pub struct Schemas {
    schemas: Vec<Arc<Schema>>,
}

impl View for Schemas {
    type V = Seq<SchemaView>;

    closed spec fn view(&self) -> Seq<SchemaView> {
        Seq::new(self.schemas@.len(), |i: int| self.schemas@[i]@)
    }
}

/// Whether one of `schemas` has this name.
pub open spec fn registered(schemas: Seq<SchemaView>, name: Seq<char>) -> bool {
    exists|i: int| 0 <= i < schemas.len() && (#[trigger] schemas[i]).id == name
}

/// The schema of this name among `schemas`.
pub open spec fn lookup(schemas: Seq<SchemaView>, name: Seq<char>) -> SchemaView {
    schemas[choose|i: int| 0 <= i < schemas.len() && (#[trigger] schemas[i]).id == name]
}

/// The schemas are well formed, and no two have the same name.
pub open spec fn registry_wf(schemas: Seq<SchemaView>) -> bool {
    &&& forall|i: int| 0 <= i < schemas.len() ==> (#[trigger] schemas[i]).wf()
    &&& forall|i: int, j: int|
        0 <= i < schemas.len() && 0 <= j < schemas.len() && (#[trigger] schemas[i]).id == (
        #[trigger] schemas[j]).id ==> i == j
}

/// In a well-formed registry a schema is found under its own name, and
/// under no other.
pub proof fn lemma_lookup(schemas: Seq<SchemaView>, i: int)
    requires
        registry_wf(schemas),
        0 <= i < schemas.len(),
    ensures
        registered(schemas, schemas[i].id),
        lookup(schemas, schemas[i].id) == schemas[i],
{
    let name = schemas[i].id;
    assert(schemas[i].id == name);
    let k = choose|k: int| 0 <= k < schemas.len() && (#[trigger] schemas[k]).id == name;
    assert(schemas[k].id == schemas[i].id);
}

/// Registering a schema under a new name makes it the schema of that
/// name, and leaves every other name with the schema it had, or without
/// one.
pub proof fn lemma_registered(schemas: Seq<SchemaView>, schema: SchemaView, name: Seq<char>)
    requires
        registry_wf(schemas),
        schema.wf(),
        !registered(schemas, schema.id),
    ensures
        registry_wf(schemas.push(schema)),
        registered(schemas.push(schema), name) == (registered(schemas, name) || name == schema.id),
        name == schema.id ==> lookup(schemas.push(schema), name) == schema,
        registered(schemas, name) ==> lookup(schemas.push(schema), name) == lookup(schemas, name),
{
    let next = schemas.push(schema);
    let n = schemas.len() as int;
    assert(next[n] == schema);
    assert forall|i: int, j: int|
        0 <= i < next.len() && 0 <= j < next.len() && (#[trigger] next[i]).id == (#[trigger] next[j]).id implies i
        == j by {
        if i < n && j < n {
            assert(schemas[i].id == schemas[j].id);
        } else if i < n {
            assert(schemas[i].id == schema.id);
        } else if j < n {
            assert(schemas[j].id == schema.id);
        }
    }
    assert forall|i: int| 0 <= i < next.len() implies (#[trigger] next[i]).wf() by {
        if i < n {
            assert(schemas[i].wf());
        }
    }
    if registered(schemas, name) {
        let i = choose|i: int| 0 <= i < schemas.len() && (#[trigger] schemas[i]).id == name;
        assert(next[i] == schemas[i]);
        lemma_lookup(schemas, i);
        lemma_lookup(next, i);
    }
    if name == schema.id {
        lemma_lookup(next, n);
    }
    if registered(next, name) {
        let i = choose|i: int| 0 <= i < next.len() && (#[trigger] next[i]).id == name;
        if i < n {
            assert(schemas[i].id == name);
        }
    }
}

impl Schemas {
    /// Whether the registry is well formed: see [`registry_wf`].
    pub open spec fn wf(&self) -> bool {
        registry_wf(self@)
    }

    /// Whether a schema is registered under this name.
    pub open spec fn contains(&self, name: Seq<char>) -> bool {
        registered(self@, name)
    }

    /// The schema registered under this name.
    pub open spec fn schema(&self, name: Seq<char>) -> SchemaView {
        lookup(self@, name)
    }

    /// A registry without schemas.
    pub fn new() -> (r: Schemas)
        ensures
            r@ == Seq::<SchemaView>::empty(),
            r.wf(),
    {
        let r = Schemas { schemas: Vec::new() };
        proof {
            assert(r@ =~= Seq::<SchemaView>::empty());
        }
        r
    }

    /// The registry with one more schema.
    pub fn insert(self, schema: Schema) -> (r: Schemas)
        requires
            self.wf(),
            schema@.wf(),
            !self.contains(schema@.id),
        ensures
            r@ == self@.push(schema@),
            r.wf(),
    {
        let ghost before = self@;
        let ghost added = schema@;
        let mut schemas = self.schemas;
        schemas.push(Arc::new(schema));
        let r = Schemas { schemas };
        proof {
            assert(r@ =~= before.push(added));
            lemma_registered(before, added, added.id);
        }
        r
    }

    /// The schema registered under `name`, where there is one. A name
    /// that was never registered gives `None`, never a schema without
    /// fields.
    pub fn get(&self, name: &str) -> (r: Option<Arc<Schema>>)
        requires
            self.wf(),
        ensures
            r is Some <==> self.contains(name@),
            r is Some ==> r.unwrap()@ == self.schema(name@) && r.unwrap()@.wf() && r.unwrap()@.id
                == name@,
    {
        let mut i: usize = 0;
        while i < self.schemas.len()
            invariant
                i <= self.schemas.len(),
                self.wf(),
                forall|j: int| 0 <= j < i ==> (#[trigger] self@[j]).id != name@,
            decreases self.schemas.len() - i,
        {
            if self.schemas[i].id.as_str().eq(name) {
                proof {
                    assert(self@[i as int].id == name@);
                    let k = choose|k: int| 0 <= k < self@.len() && (#[trigger] self@[k]).id == name@;
                    assert(self@[k].id == self@[i as int].id);
                    assert(self@[i as int].wf());
                }
                return Some(share(&self.schemas[i]));
            }
            i += 1;
        }
        None
    }

    /// Whether a schema is registered under `name`.
    pub fn has(&self, name: &str) -> (r: bool)
        requires
            self.wf(),
        ensures
            r == self.contains(name@),
    {
        self.get(name).is_some()
    }

    /// How many schemas are registered.
    pub fn len(&self) -> (r: usize)
        ensures
            r == self@.len(),
    {
        self.schemas.len()
    }
}

} // verus!
