//! The schema intermediate representation: a closed type algebra that every
//! supported native type maps to, together with its mathematical model.

use vstd::prelude::*;

verus! {

/// A closed, recursively defined type-algebra value.
///
/// Equality is structural. `Object` field order is the declaration order and
/// is significant for the generated text. A `Schema` carries no owning type
/// name; naming belongs to the mapping step, not to the value.
#[derive(Debug, PartialEq)]
pub enum Schema {
    /// Text.
    String,
    /// Any numeric width, integer or otherwise.
    Number,
    /// Truth values.
    Boolean,
    /// The unit / absent value.
    Null,
    /// An unconstrained value.
    Any,
    /// Homogeneous ordered sequence of the element schema.
    Array(Box<Schema>),
    /// Ordered `(name, schema)` pairs; order is declaration order.
    Object(Vec<(String, Schema)>),
    /// A closed set of string literal values.
    Enum(Vec<String>),
    /// A logical OR of schemas; order is significant for generated text.
    Union(Vec<Schema>),
    /// Fixed-arity ordered sequence, each position independently typed.
    Tuple(Vec<Schema>),
    /// A named external reference; resolution is the caller's responsibility.
    Ref(String),
    /// Homogeneous associative container.
    Record {
        /// Schema of the keys.
        key: Box<Schema>,
        /// Schema of the values.
        value: Box<Schema>,
    },
}

/// The mathematical model of a [`Schema`] value: the same tree with every
/// `Vec` read as a `Seq` and every `String` as a `Seq<char>`.
#[verifier::ext_equal]
pub enum SchemaModel {
    /// Model of `Schema::String`.
    String,
    /// Model of `Schema::Number`.
    Number,
    /// Model of `Schema::Boolean`.
    Boolean,
    /// Model of `Schema::Null`.
    Null,
    /// Model of `Schema::Any`.
    Any,
    /// Model of `Schema::Array`.
    Array(Box<SchemaModel>),
    /// Model of `Schema::Object`.
    Object(Seq<(Seq<char>, SchemaModel)>),
    /// Model of `Schema::Enum`.
    Enum(Seq<Seq<char>>),
    /// Model of `Schema::Union`.
    Union(Seq<SchemaModel>),
    /// Model of `Schema::Tuple`.
    Tuple(Seq<SchemaModel>),
    /// Model of `Schema::Ref`.
    Ref(Seq<char>),
    /// Model of `Schema::Record`.
    Record {
        /// Model of the key schema.
        key: Box<SchemaModel>,
        /// Model of the value schema.
        value: Box<SchemaModel>,
    },
}

/// The model of one schema value.
pub open spec fn schema_model(s: Schema) -> SchemaModel
    decreases s,
{
    match s {
        Schema::String => SchemaModel::String,
        Schema::Number => SchemaModel::Number,
        Schema::Boolean => SchemaModel::Boolean,
        Schema::Null => SchemaModel::Null,
        Schema::Any => SchemaModel::Any,
        Schema::Array(t) => SchemaModel::Array(Box::new(schema_model(*t))),
        Schema::Object(fields) => SchemaModel::Object(object_model(fields@)),
        Schema::Enum(names) => SchemaModel::Enum(names@.map_values(|n: String| n@)),
        Schema::Union(members) => SchemaModel::Union(schemas_model(members@)),
        Schema::Tuple(elements) => SchemaModel::Tuple(schemas_model(elements@)),
        Schema::Ref(name) => SchemaModel::Ref(name@),
        Schema::Record { key, value } => SchemaModel::Record {
            key: Box::new(schema_model(*key)),
            value: Box::new(schema_model(*value)),
        },
    }
}

/// The model of an ordered field list.
pub open spec fn object_model(fields: Seq<(String, Schema)>) -> Seq<(Seq<char>, SchemaModel)>
    decreases fields,
{
    if fields.len() == 0 {
        Seq::empty()
    } else {
        object_model(fields.subrange(0, fields.len() - 1)).push(
            (fields[fields.len() - 1].0@, schema_model(fields[fields.len() - 1].1)),
        )
    }
}

/// The model of an ordered schema list.
pub open spec fn schemas_model(ss: Seq<Schema>) -> Seq<SchemaModel>
    decreases ss,
{
    if ss.len() == 0 {
        Seq::empty()
    } else {
        schemas_model(ss.subrange(0, ss.len() - 1)).push(schema_model(ss[ss.len() - 1]))
    }
}

/// The model of a schema list is the pointwise model.
pub proof fn lemma_schemas_model_index(ss: Seq<Schema>)
    ensures
        schemas_model(ss).len() == ss.len(),
        forall|i: int| 0 <= i < ss.len() ==> schemas_model(ss)[i] == schema_model(ss[i]),
    decreases ss,
{
    if ss.len() > 0 {
        lemma_schemas_model_index(ss.subrange(0, ss.len() - 1));
    }
}

/// The model of a field list is the pointwise model.
pub proof fn lemma_object_model_index(fields: Seq<(String, Schema)>)
    ensures
        object_model(fields).len() == fields.len(),
        forall|i: int| 0 <= i < fields.len() ==> object_model(fields)[i] == (
            fields[i].0@,
            schema_model(fields[i].1),
        ),
    decreases fields,
{
    if fields.len() > 0 {
        lemma_object_model_index(fields.subrange(0, fields.len() - 1));
    }
}

impl View for Schema {
    type V = SchemaModel;

    open spec fn view(&self) -> SchemaModel {
        schema_model(*self)
    }
}

} // verus!
