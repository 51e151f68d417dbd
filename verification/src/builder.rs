//! The builder: the one way to fill the registry.
//!
//! Building goes in levels. The builder of the registry opens a schema;
//! the builder of a schema opens a field or a form section; and each is
//! closed by its `build`, which hands the finished part to the level
//! above. Which field a call speaks of is thus a matter of types.
//!
//! What a schema must not hold (two fields of one name, a section that
//! speaks of an unknown field, a second schema of one name) is asked of
//! the caller at the call that would bring it in.
use vstd::prelude::*;
use crate::schema::{
    lemma_same_fields, lemma_with_field, lemma_with_form, str_views, strings, Field, FieldView,
    Form, FormView, Schema, SchemaView, Schemas, Type,
};
use crate::transform::Transformer;
use crate::validate::Validator;

verus! {

/// A part under construction, `item`, and `parent`, what it will be
/// handed to when it is built.
pub struct Builder<P, I> {
    pub parent: P,
    pub item: I,
}

/// Owned copies of `ids`.
fn to_strings(ids: &[&str]) -> (r: Vec<String>)
    ensures
        strings(r@) == str_views(ids@),
{
    let mut out: Vec<String> = Vec::new();
    let mut i: usize = 0;
    while i < ids.len()
        invariant
            i <= ids.len(),
            out@.len() == i,
            forall|j: int| 0 <= j < i ==> (#[trigger] out@[j])@ == ids@[j]@,
        decreases ids.len() - i,
    {
        out.push(ids[i].to_owned());
        i += 1;
    }
    proof {
        assert(strings(out@) =~= str_views(ids@));
    }
    out
}

/// The elements of `xs`, in a vector.
fn copy_of<T: Copy>(xs: &[T]) -> (r: Vec<T>)
    ensures
        r@ == xs@,
{
    let mut out: Vec<T> = Vec::new();
    let mut i: usize = 0;
    while i < xs.len()
        invariant
            i <= xs.len(),
            out@ == xs@.take(i as int),
        decreases xs.len() - i,
    {
        out.push(xs[i]);
        proof {
            assert(out@ =~= xs@.take(i + 1));
        }
        i += 1;
    }
    proof {
        assert(xs@.take(i as int) =~= xs@);
    }
    out
}

/// Whether the schema has a field for each name of `ids`.
pub fn knows_fields(schema: &Schema, ids: &[&str]) -> (r: bool)
    ensures
        r == schema@.has_fields(str_views(ids@)),
{
    let mut i: usize = 0;
    while i < ids.len()
        invariant
            i <= ids.len(),
            forall|k: int| 0 <= k < i ==> schema@.has_field(#[trigger] str_views(ids@)[k]),
        decreases ids.len() - i,
    {
        proof {
            assert(str_views(ids@)[i as int] == ids@[i as int]@);
        }
        if !schema.has_field(ids[i]) {
            return false;
        }
        i += 1;
    }
    true
}

impl Schemas {
    /// A builder with an empty registry.
    pub fn builder() -> (r: Builder<Schemas, ()>)
        ensures
            r.wf(),
            r.parent@ == Seq::<SchemaView>::empty(),
    {
        Builder { parent: Schemas::new(), item: () }
    }
}

impl Builder<Schemas, ()> {
    /// The registry so far is well formed.
    pub closed spec fn wf(&self) -> bool {
        self.parent.wf()
    }

    /// Opens a schema under the name `id`, which no schema of the
    /// registry has yet.
    pub fn new_schema(self, id: &str) -> (r: Builder<Schemas, Schema>)
        requires
            self.wf(),
            !self.parent.contains(id@),
        ensures
            r.wf(),
            r.parent@ == self.parent@,
            r.item@ == SchemaView::new(id@),
    {
        Builder { parent: self.parent, item: Schema::new(id) }
    }

    /// Whether a schema could be opened under the name `id`.
    pub fn can_add(&self, id: &str) -> (r: bool)
        requires
            self.wf(),
        ensures
            r == !self.parent.contains(id@),
    {
        !self.parent.has(id)
    }

    /// Closes the registry: from here on it is only read.
    pub fn build(self) -> (r: Schemas)
        requires
            self.wf(),
        ensures
            r.wf(),
            r@ == self.parent@,
    {
        self.parent
    }
}

impl Builder<Schemas, Schema> {
    /// The registry and the schema so far are well formed, and the name
    /// of the schema is new to the registry.
    pub closed spec fn wf(&self) -> bool {
        &&& self.parent.wf()
        &&& self.item@.wf()
        &&& !self.parent.contains(self.item@.id)
    }

    /// The names of the entity, one and many.
    pub fn names(self, singular: &str, plural: &str) -> (r: Builder<Schemas, Schema>)
        requires
            self.wf(),
        ensures
            r.wf(),
            r.parent@ == self.parent@,
            r.item@ == self.item@.with_names(singular@, plural@),
    {
        let mut item = self.item;
        item.name_singular = singular.to_owned();
        item.name_plural = plural.to_owned();
        proof {
            lemma_same_fields(self.item@, item@);
        }
        Builder { parent: self.parent, item }
    }

    /// What the keys of the entity begin with.
    pub fn prefix(self, prefix: &str) -> (r: Builder<Schemas, Schema>)
        requires
            self.wf(),
        ensures
            r.wf(),
            r.parent@ == self.parent@,
            r.item@ == self.item@.with_prefix(prefix@),
    {
        let mut item = self.item;
        item.prefix = Some(prefix.to_owned());
        proof {
            lemma_same_fields(self.item@, item@);
        }
        Builder { parent: self.parent, item }
    }

    /// The key whose presence shows that an entity exists.
    pub fn suffix(self, suffix: &str) -> (r: Builder<Schemas, Schema>)
        requires
            self.wf(),
        ensures
            r.wf(),
            r.parent@ == self.parent@,
            r.item@ == self.item@.with_suffix(suffix@),
    {
        let mut item = self.item;
        item.suffix = Some(suffix.to_owned());
        proof {
            lemma_same_fields(self.item@, item@);
        }
        Builder { parent: self.parent, item }
    }

    /// Opens a field under the name `id`, which is not empty and which no
    /// field of the schema has yet.
    pub fn new_field(self, id: &str) -> (r: Builder<(Schemas, Schema), Field>)
        requires
            self.wf(),
            id@.len() > 0,
            !self.item@.field_ids().contains(id@),
        ensures
            r.wf(),
            r.parent.0@ == self.parent@,
            r.parent.1@ == self.item@,
            r.item@ == FieldView::new(id@),
    {
        let field = Field {
            id: id.to_owned(),
            typ: Type::Input,
            label: String::new(),
            help: String::new(),
            default: None,
            transformers: Vec::new(),
            validators: Vec::new(),
            is_id: false,
        };
        Builder { parent: (self.parent, self.item), item: field }
    }

    /// Opens the field that names the entity, `_id`. The schema has no
    /// such field yet, under this name or another.
    pub fn new_id_field(self) -> (r: Builder<(Schemas, Schema), Field>)
        requires
            self.wf(),
            !self.item@.field_ids().contains("_id"@),
            !self.item@.has_id_field(),
        ensures
            r.wf(),
            r.parent.0@ == self.parent@,
            r.parent.1@ == self.item@,
            r.item@ == FieldView::new_id(),
    {
        proof {
            reveal_strlit("_id");
            assert("_id"@.len() == 3);
        }
        let field = Field {
            id: "_id".to_owned(),
            typ: Type::Input,
            label: String::new(),
            help: String::new(),
            default: None,
            transformers: Vec::new(),
            validators: Vec::new(),
            is_id: true,
        };
        Builder { parent: (self.parent, self.item), item: field }
    }

    /// Whether a field could be opened under the name `id`.
    pub fn can_add_field(&self, id: &str) -> (r: bool)
        requires
            self.wf(),
        ensures
            r == (id@.len() > 0 && !self.item@.field_ids().contains(id@)),
    {
        !id.is_empty() && !self.item.has_field(id)
    }

    /// Opens a form section.
    pub fn new_form_section(self) -> (r: Builder<(Schemas, Schema), Form>)
        requires
            self.wf(),
        ensures
            r.wf(),
            r.parent.0@ == self.parent@,
            r.parent.1@ == self.item@,
            r.item@ == FormView::new(),
    {
        let form = Form { title: String::new(), fields: Vec::new() };
        proof {
            assert(form@.fields =~= Seq::<Seq<char>>::empty());
        }
        Builder { parent: (self.parent, self.item), item: form }
    }

    /// The title of the list.
    pub fn list_title(self, title: &str) -> (r: Builder<Schemas, Schema>)
        requires
            self.wf(),
        ensures
            r.wf(),
            r.parent@ == self.parent@,
            r.item@ == self.item@.with_list_title(title@),
    {
        let mut item = self.item;
        item.list.title = title.to_owned();
        proof {
            lemma_same_fields(self.item@, item@);
        }
        Builder { parent: self.parent, item }
    }

    /// The line under the title of the list.
    pub fn list_subtitle(self, subtitle: &str) -> (r: Builder<Schemas, Schema>)
        requires
            self.wf(),
        ensures
            r.wf(),
            r.parent@ == self.parent@,
            r.item@ == self.item@.with_list_subtitle(subtitle@),
    {
        let mut item = self.item;
        item.list.subtitle = subtitle.to_owned();
        proof {
            lemma_same_fields(self.item@, item@);
        }
        Builder { parent: self.parent, item }
    }

    /// The fields that become the columns of the list, each of them a
    /// field of the schema.
    pub fn list_fields(self, ids: &[&str]) -> (r: Builder<Schemas, Schema>)
        requires
            self.wf(),
            forall|k: int| 0 <= k < ids@.len() ==> self.item@.field_ids().contains(#[trigger] ids@[k]@),
        ensures
            r.wf(),
            r.parent@ == self.parent@,
            r.item@ == self.item@.with_list_fields(str_views(ids@)),
    {
        let mut item = self.item;
        item.list.fields = to_strings(ids);
        proof {
            assert forall|k: int| 0 <= k < item@.list.fields.len() implies self.item@.has_field(
                #[trigger] item@.list.fields[k],
            ) by {
                assert(self.item@.field_ids().contains(ids@[k]@));
            }
            lemma_same_fields(self.item@, item@);
        }
        Builder { parent: self.parent, item }
    }

    /// Closes the schema and registers it under its name.
    pub fn build(self) -> (r: Builder<Schemas, ()>)
        requires
            self.wf(),
        ensures
            r.wf(),
            r.parent@ == self.parent@.push(self.item@),
    {
        Builder { parent: self.parent.insert(self.item), item: () }
    }
}

impl Builder<(Schemas, Schema), Field> {
    /// The registry and the schema are as the builder of a schema wants
    /// them, and the field can join the schema: its name is not empty and
    /// new, and if it names the entity, no other field does.
    pub closed spec fn wf(&self) -> bool {
        &&& self.parent.0.wf()
        &&& self.parent.1@.wf()
        &&& !self.parent.0.contains(self.parent.1@.id)
        &&& self.item@.id.len() > 0
        &&& !self.parent.1@.field_ids().contains(self.item@.id)
        &&& self.item@.is_id ==> !self.parent.1@.has_id_field()
    }

    /// The words that stand beside the field.
    pub fn label(self, label: &str) -> (r: Self)
        requires
            self.wf(),
        ensures
            r.wf(),
            r.parent.0@ == self.parent.0@,
            r.parent.1@ == self.parent.1@,
            r.item@ == self.item@.with_label(label@),
    {
        let mut item = self.item;
        item.label = label.to_owned();
        Builder { parent: self.parent, item }
    }

    /// The words that explain the field.
    pub fn help(self, help: &str) -> (r: Self)
        requires
            self.wf(),
        ensures
            r.wf(),
            r.parent.0@ == self.parent.0@,
            r.parent.1@ == self.parent.1@,
            r.item@ == self.item@.with_help(help@),
    {
        let mut item = self.item;
        item.help = help.to_owned();
        Builder { parent: self.parent, item }
    }

    /// The kind of value the field holds.
    pub fn typ(self, typ: Type) -> (r: Self)
        requires
            self.wf(),
        ensures
            r.wf(),
            r.parent.0@ == self.parent.0@,
            r.parent.1@ == self.parent.1@,
            r.item@ == self.item@.with_type(typ@),
    {
        let mut item = self.item;
        item.typ = typ;
        Builder { parent: self.parent, item }
    }

    /// The value the field has before anybody sets one.
    pub fn default(self, value: &str) -> (r: Self)
        requires
            self.wf(),
        ensures
            r.wf(),
            r.parent.0@ == self.parent.0@,
            r.parent.1@ == self.parent.1@,
            r.item@ == self.item@.with_default(value@),
    {
        let mut item = self.item;
        item.default = Some(value.to_owned());
        Builder { parent: self.parent, item }
    }

    /// The transformers and the validators of the field, each list in the
    /// order in which it is to run. They come in one call, so that the two
    /// lists of a field are read together.
    pub fn input_check(self, transformers: &[Transformer], validators: &[Validator]) -> (r: Self)
        requires
            self.wf(),
        ensures
            r.wf(),
            r.parent.0@ == self.parent.0@,
            r.parent.1@ == self.parent.1@,
            r.item@ == self.item@.with_checks(transformers@, validators@),
    {
        let mut item = self.item;
        item.transformers = copy_of(transformers);
        item.validators = copy_of(validators);
        Builder { parent: self.parent, item }
    }

    /// Whether the field can be closed: whether its default, if it has
    /// one, is a value that its type admits.
    pub fn can_build(&self) -> (r: bool)
        ensures
            r == self.item@.default_fits(),
    {
        self.item.default_fits()
    }

    /// Closes the field: it becomes the last field of the schema. Its
    /// default, if it has one, is a value that its type admits.
    pub fn build(self) -> (r: Builder<Schemas, Schema>)
        requires
            self.wf(),
            self.item@.default_fits(),
        ensures
            r.wf(),
            r.parent@ == self.parent.0@,
            r.item@ == self.parent.1@.with_field(self.item@),
            r.item@.field_ids() == self.parent.1@.field_ids().insert(self.item@.id),
            r.item@.has_id_field() == (self.parent.1@.has_id_field() || self.item@.is_id),
    {
        let (schemas, schema) = self.parent;
        let ghost before = schema@;
        let ghost field = self.item@;
        proof {
            assert(before.field_ids().contains(field.id) == before.has_field(field.id));
            lemma_with_field(before, field);
        }
        let mut schema = schema;
        schema.fields.push(self.item);
        proof {
            assert(schema@.fields =~= before.with_field(field).fields);
            assert(schema@.forms =~= before.forms);
        }
        Builder { parent: schemas, item: schema }
    }
}

impl Builder<(Schemas, Schema), Form> {
    /// The registry and the schema are as the builder of a schema wants
    /// them, and the section speaks of fields of the schema only.
    pub closed spec fn wf(&self) -> bool {
        &&& self.parent.0.wf()
        &&& self.parent.1@.wf()
        &&& !self.parent.0.contains(self.parent.1@.id)
        &&& self.parent.1@.has_fields(self.item@.fields)
    }

    /// The words that stand over the section.
    pub fn title(self, title: &str) -> (r: Self)
        requires
            self.wf(),
        ensures
            r.wf(),
            r.parent.0@ == self.parent.0@,
            r.parent.1@ == self.parent.1@,
            r.item@ == self.item@.with_title(title@),
    {
        let mut item = self.item;
        item.title = title.to_owned();
        Builder { parent: self.parent, item }
    }

    /// The fields that stand in the section, each of them a field of the
    /// schema.
    pub fn fields(self, ids: &[&str]) -> (r: Self)
        requires
            self.wf(),
            forall|k: int|
                0 <= k < ids@.len() ==> self.parent.1@.field_ids().contains(#[trigger] ids@[k]@),
        ensures
            r.wf(),
            r.parent.0@ == self.parent.0@,
            r.parent.1@ == self.parent.1@,
            r.item@ == self.item@.with_fields(str_views(ids@)),
    {
        let mut item = self.item;
        item.fields = to_strings(ids);
        proof {
            assert forall|k: int| 0 <= k < item@.fields.len() implies self.parent.1@.has_field(
                #[trigger] item@.fields[k],
            ) by {
                assert(self.parent.1@.field_ids().contains(ids@[k]@));
            }
        }
        Builder { parent: self.parent, item }
    }

    /// Closes the section: it becomes the last section of the schema.
    pub fn build(self) -> (r: Builder<Schemas, Schema>)
        requires
            self.wf(),
        ensures
            r.wf(),
            r.parent@ == self.parent.0@,
            r.item@ == self.parent.1@.with_form(self.item@),
            r.item@.field_ids() == self.parent.1@.field_ids(),
            r.item@.has_id_field() == self.parent.1@.has_id_field(),
    {
        let (schemas, schema) = self.parent;
        let ghost before = schema@;
        let ghost form = self.item@;
        proof {
            lemma_with_form(before, form);
        }
        let mut schema = schema;
        schema.forms.push(self.item);
        proof {
            assert(schema@.forms =~= before.with_form(form).forms);
            assert(schema@.fields =~= before.fields);
        }
        Builder { parent: schemas, item: schema }
    }
}

} // verus!
