//! The type bridge: the recursive mapping from a native type — a primitive,
//! or a container parameterized by other bridged types — to its structural
//! string and its schema value.
//!
//! Every integer width maps to `"number"`; text-like types map to
//! `"string"`; ownership-only wrappers are transparent; sequences, sets,
//! maps, optionals, fallible results and fixed-arity tuples compose the
//! mappings of their parameters.

use vstd::prelude::*;
use vstd::string::StringExecFns;
use crate::schema::Schema;
use crate::schema::SchemaModel;
use crate::schema::schemas_model;
use crate::schema::lemma_schemas_model_index;

verus! {

/// The capability every bridged type honors: it maps to a structural
/// string and to a schema value, both fixed by the type alone.
pub trait SchemaBridge {
    /// The structural string this type maps to.
    spec fn ts_model() -> Seq<char>;

    /// The schema value this type maps to.
    spec fn schema_ir() -> SchemaModel;

    /// The structural (TypeScript-flavored) type expression.
    fn to_ts() -> (r: String)
        ensures
            r@ == Self::ts_model(),
    ;

    /// The schema value.
    fn to_schema() -> (r: Schema)
        ensures
            r@ == Self::schema_ir(),
    ;
}

/// Declares `std::path::PathBuf`, which vstd gives no specification.
/// Values of it stay opaque; the bridge only names the type in an `impl`.
#[verifier::external_type_specification]
#[verifier::external_body]
pub struct ExPathBuf(std::path::PathBuf);

/// Text maps to `"string"`.
impl SchemaBridge for String {
    open spec fn ts_model() -> Seq<char> {
        "string"@
    }

    open spec fn schema_ir() -> SchemaModel {
        SchemaModel::String
    }

    fn to_ts() -> (r: String) {
        "string".to_owned()
    }

    fn to_schema() -> (r: Schema) {
        Schema::String
    }
}

/// Every integer width maps to `"number"`.
impl SchemaBridge for i32 {
    open spec fn ts_model() -> Seq<char> {
        "number"@
    }

    open spec fn schema_ir() -> SchemaModel {
        SchemaModel::Number
    }

    fn to_ts() -> (r: String) {
        "number".to_owned()
    }

    fn to_schema() -> (r: Schema) {
        Schema::Number
    }
}

impl SchemaBridge for i8 {
    open spec fn ts_model() -> Seq<char> {
        "number"@
    }

    open spec fn schema_ir() -> SchemaModel {
        SchemaModel::Number
    }

    fn to_ts() -> (r: String) {
        "number".to_owned()
    }

    fn to_schema() -> (r: Schema) {
        Schema::Number
    }
}

impl SchemaBridge for i16 {
    open spec fn ts_model() -> Seq<char> {
        "number"@
    }

    open spec fn schema_ir() -> SchemaModel {
        SchemaModel::Number
    }

    fn to_ts() -> (r: String) {
        "number".to_owned()
    }

    fn to_schema() -> (r: Schema) {
        Schema::Number
    }
}

impl SchemaBridge for i64 {
    open spec fn ts_model() -> Seq<char> {
        "number"@
    }

    open spec fn schema_ir() -> SchemaModel {
        SchemaModel::Number
    }

    fn to_ts() -> (r: String) {
        "number".to_owned()
    }

    fn to_schema() -> (r: Schema) {
        Schema::Number
    }
}

impl SchemaBridge for i128 {
    open spec fn ts_model() -> Seq<char> {
        "number"@
    }

    open spec fn schema_ir() -> SchemaModel {
        SchemaModel::Number
    }

    fn to_ts() -> (r: String) {
        "number".to_owned()
    }

    fn to_schema() -> (r: Schema) {
        Schema::Number
    }
}

impl SchemaBridge for isize {
    open spec fn ts_model() -> Seq<char> {
        "number"@
    }

    open spec fn schema_ir() -> SchemaModel {
        SchemaModel::Number
    }

    fn to_ts() -> (r: String) {
        "number".to_owned()
    }

    fn to_schema() -> (r: Schema) {
        Schema::Number
    }
}

impl SchemaBridge for u8 {
    open spec fn ts_model() -> Seq<char> {
        "number"@
    }

    open spec fn schema_ir() -> SchemaModel {
        SchemaModel::Number
    }

    fn to_ts() -> (r: String) {
        "number".to_owned()
    }

    fn to_schema() -> (r: Schema) {
        Schema::Number
    }
}

impl SchemaBridge for u16 {
    open spec fn ts_model() -> Seq<char> {
        "number"@
    }

    open spec fn schema_ir() -> SchemaModel {
        SchemaModel::Number
    }

    fn to_ts() -> (r: String) {
        "number".to_owned()
    }

    fn to_schema() -> (r: Schema) {
        Schema::Number
    }
}

impl SchemaBridge for u32 {
    open spec fn ts_model() -> Seq<char> {
        "number"@
    }

    open spec fn schema_ir() -> SchemaModel {
        SchemaModel::Number
    }

    fn to_ts() -> (r: String) {
        "number".to_owned()
    }

    fn to_schema() -> (r: Schema) {
        Schema::Number
    }
}

impl SchemaBridge for u64 {
    open spec fn ts_model() -> Seq<char> {
        "number"@
    }

    open spec fn schema_ir() -> SchemaModel {
        SchemaModel::Number
    }

    fn to_ts() -> (r: String) {
        "number".to_owned()
    }

    fn to_schema() -> (r: Schema) {
        Schema::Number
    }
}

impl SchemaBridge for u128 {
    open spec fn ts_model() -> Seq<char> {
        "number"@
    }

    open spec fn schema_ir() -> SchemaModel {
        SchemaModel::Number
    }

    fn to_ts() -> (r: String) {
        "number".to_owned()
    }

    fn to_schema() -> (r: Schema) {
        Schema::Number
    }
}

impl SchemaBridge for usize {
    open spec fn ts_model() -> Seq<char> {
        "number"@
    }

    open spec fn schema_ir() -> SchemaModel {
        SchemaModel::Number
    }

    fn to_ts() -> (r: String) {
        "number".to_owned()
    }

    fn to_schema() -> (r: Schema) {
        Schema::Number
    }
}

/// Truth values map to `"boolean"`.
impl SchemaBridge for bool {
    open spec fn ts_model() -> Seq<char> {
        "boolean"@
    }

    open spec fn schema_ir() -> SchemaModel {
        SchemaModel::Boolean
    }

    fn to_ts() -> (r: String) {
        "boolean".to_owned()
    }

    fn to_schema() -> (r: Schema) {
        Schema::Boolean
    }
}

/// A single character maps to `"string"`.
impl SchemaBridge for char {
    open spec fn ts_model() -> Seq<char> {
        "string"@
    }

    open spec fn schema_ir() -> SchemaModel {
        SchemaModel::String
    }

    fn to_ts() -> (r: String) {
        "string".to_owned()
    }

    fn to_schema() -> (r: Schema) {
        Schema::String
    }
}

/// The unit type maps to `"null"`.
impl SchemaBridge for () {
    open spec fn ts_model() -> Seq<char> {
        "null"@
    }

    open spec fn schema_ir() -> SchemaModel {
        SchemaModel::Null
    }

    fn to_ts() -> (r: String) {
        "null".to_owned()
    }

    fn to_schema() -> (r: Schema) {
        Schema::Null
    }
}

/// Filesystem paths map as text does.
impl SchemaBridge for std::path::PathBuf {
    open spec fn ts_model() -> Seq<char> {
        "string"@
    }

    open spec fn schema_ir() -> SchemaModel {
        SchemaModel::String
    }

    fn to_ts() -> (r: String) {
        "string".to_owned()
    }

    fn to_schema() -> (r: Schema) {
        Schema::String
    }
}

/// An optional value: the inner string with `" | null"` appended, and a
/// union of the inner schema with `Null`.
impl<T: SchemaBridge> SchemaBridge for Option<T> {
    open spec fn ts_model() -> Seq<char> {
        T::ts_model() + " | null"@
    }

    open spec fn schema_ir() -> SchemaModel {
        SchemaModel::Union(seq![T::schema_ir(), SchemaModel::Null])
    }

    fn to_ts() -> (r: String) {
        T::to_ts().concat(" | null")
    }

    fn to_schema() -> (r: Schema) {
        let inner = T::to_schema();
        let members = vec![inner, Schema::Null];
        let r = Schema::Union(members);
        proof {
            lemma_schemas_model_index(members@);
            assert(members@ =~= seq![inner, Schema::Null]);
            assert(schemas_model(members@) =~= seq![T::schema_ir(), SchemaModel::Null]);
            assert(r@ =~= Self::schema_ir());
        }
        r
    }
}

/// An ordered sequence: the element string with `[]` appended.
impl<T: SchemaBridge> SchemaBridge for Vec<T> {
    open spec fn ts_model() -> Seq<char> {
        T::ts_model() + "[]"@
    }

    open spec fn schema_ir() -> SchemaModel {
        SchemaModel::Array(Box::new(T::schema_ir()))
    }

    fn to_ts() -> (r: String) {
        T::to_ts().concat("[]")
    }

    fn to_schema() -> (r: Schema) {
        Schema::Array(Box::new(T::to_schema()))
    }
}

/// An unordered set erases to a sequence of its elements.
impl<T: SchemaBridge> SchemaBridge for std::collections::HashSet<T> {
    open spec fn ts_model() -> Seq<char> {
        T::ts_model() + "[]"@
    }

    open spec fn schema_ir() -> SchemaModel {
        SchemaModel::Array(Box::new(T::schema_ir()))
    }

    fn to_ts() -> (r: String) {
        T::to_ts().concat("[]")
    }

    fn to_schema() -> (r: Schema) {
        Schema::Array(Box::new(T::to_schema()))
    }
}

/// An ordered set erases to a sequence of its elements.
impl<T: SchemaBridge> SchemaBridge for std::collections::BTreeSet<T> {
    open spec fn ts_model() -> Seq<char> {
        T::ts_model() + "[]"@
    }

    open spec fn schema_ir() -> SchemaModel {
        SchemaModel::Array(Box::new(T::schema_ir()))
    }

    fn to_ts() -> (r: String) {
        T::to_ts().concat("[]")
    }

    fn to_schema() -> (r: Schema) {
        Schema::Array(Box::new(T::to_schema()))
    }
}

/// An associative container maps to `Record<key, value>`.
impl<K: SchemaBridge, V: SchemaBridge> SchemaBridge for std::collections::HashMap<K, V> {
    open spec fn ts_model() -> Seq<char> {
        "Record<"@ + K::ts_model() + ", "@ + V::ts_model() + ">"@
    }

    open spec fn schema_ir() -> SchemaModel {
        SchemaModel::Record {
            key: Box::new(K::schema_ir()),
            value: Box::new(V::schema_ir()),
        }
    }

    fn to_ts() -> (r: String) {
        "Record<".to_owned().concat(K::to_ts().as_str()).concat(", ").concat(
            V::to_ts().as_str(),
        ).concat(">")
    }

    fn to_schema() -> (r: Schema) {
        Schema::Record { key: Box::new(K::to_schema()), value: Box::new(V::to_schema()) }
    }
}

/// An ordered associative container maps like the unordered one.
impl<K: SchemaBridge, V: SchemaBridge> SchemaBridge for std::collections::BTreeMap<K, V> {
    open spec fn ts_model() -> Seq<char> {
        "Record<"@ + K::ts_model() + ", "@ + V::ts_model() + ">"@
    }

    open spec fn schema_ir() -> SchemaModel {
        SchemaModel::Record {
            key: Box::new(K::schema_ir()),
            value: Box::new(V::schema_ir()),
        }
    }

    fn to_ts() -> (r: String) {
        "Record<".to_owned().concat(K::to_ts().as_str()).concat(", ").concat(
            V::to_ts().as_str(),
        ).concat(">")
    }

    fn to_schema() -> (r: Schema) {
        Schema::Record { key: Box::new(K::to_schema()), value: Box::new(V::to_schema()) }
    }
}

/// An owning box is transparent: it erases to the wrapped type.
impl<T: SchemaBridge> SchemaBridge for Box<T> {
    open spec fn ts_model() -> Seq<char> {
        T::ts_model()
    }

    open spec fn schema_ir() -> SchemaModel {
        T::schema_ir()
    }

    fn to_ts() -> (r: String) {
        T::to_ts()
    }

    fn to_schema() -> (r: Schema) {
        T::to_schema()
    }
}

/// A reference-counted handle is transparent.
impl<T: SchemaBridge> SchemaBridge for std::rc::Rc<T> {
    open spec fn ts_model() -> Seq<char> {
        T::ts_model()
    }

    open spec fn schema_ir() -> SchemaModel {
        T::schema_ir()
    }

    fn to_ts() -> (r: String) {
        T::to_ts()
    }

    fn to_schema() -> (r: Schema) {
        T::to_schema()
    }
}

/// A thread-shared reference-counted handle is transparent.
impl<T: SchemaBridge> SchemaBridge for std::sync::Arc<T> {
    open spec fn ts_model() -> Seq<char> {
        T::ts_model()
    }

    open spec fn schema_ir() -> SchemaModel {
        T::schema_ir()
    }

    fn to_ts() -> (r: String) {
        T::to_ts()
    }

    fn to_schema() -> (r: Schema) {
        T::to_schema()
    }
}

/// A fallible result: the success and error alternatives joined by
/// `" | "`, erasing which side a value came from.
impl<T: SchemaBridge, E: SchemaBridge> SchemaBridge for Result<T, E> {
    open spec fn ts_model() -> Seq<char> {
        T::ts_model() + " | "@ + E::ts_model()
    }

    open spec fn schema_ir() -> SchemaModel {
        SchemaModel::Union(seq![T::schema_ir(), E::schema_ir()])
    }

    fn to_ts() -> (r: String) {
        T::to_ts().concat(" | ").concat(E::to_ts().as_str())
    }

    fn to_schema() -> (r: Schema) {
        let ok = T::to_schema();
        let err = E::to_schema();
        let members = vec![ok, err];
        let r = Schema::Union(members);
        proof {
            lemma_schemas_model_index(members@);
            assert(members@ =~= seq![ok, err]);
            assert(schemas_model(members@) =~= seq![T::schema_ir(), E::schema_ir()]);
            assert(r@ =~= Self::schema_ir());
        }
        r
    }
}

impl<T1: SchemaBridge> SchemaBridge for (T1,) {
    open spec fn ts_model() -> Seq<char> {
        "["@ + T1::ts_model() + "]"@
    }

    open spec fn schema_ir() -> SchemaModel {
        SchemaModel::Tuple(seq![T1::schema_ir()])
    }

    fn to_ts() -> (r: String) {
        "[".to_owned().concat(T1::to_ts().as_str()).concat("]")
    }

    fn to_schema() -> (r: Schema) {
        let e1 = T1::to_schema();
        let elements = vec![e1];
        let r = Schema::Tuple(elements);
        proof {
            lemma_schemas_model_index(elements@);
            assert(elements@ =~= seq![e1]);
            assert(schemas_model(elements@) =~= seq![T1::schema_ir()]);
            assert(r@ =~= Self::schema_ir());
        }
        r
    }
}

impl<T1: SchemaBridge, T2: SchemaBridge> SchemaBridge for (T1, T2) {
    open spec fn ts_model() -> Seq<char> {
        "["@ + T1::ts_model() + ", "@ + T2::ts_model() + "]"@
    }

    open spec fn schema_ir() -> SchemaModel {
        SchemaModel::Tuple(seq![T1::schema_ir(), T2::schema_ir()])
    }

    fn to_ts() -> (r: String) {
        "[".to_owned().concat(T1::to_ts().as_str()).concat(", ").concat(T2::to_ts().as_str()).concat("]")
    }

    fn to_schema() -> (r: Schema) {
        let e1 = T1::to_schema();
        let e2 = T2::to_schema();
        let elements = vec![e1, e2];
        let r = Schema::Tuple(elements);
        proof {
            lemma_schemas_model_index(elements@);
            assert(elements@ =~= seq![e1, e2]);
            assert(schemas_model(elements@) =~= seq![T1::schema_ir(), T2::schema_ir()]);
            assert(r@ =~= Self::schema_ir());
        }
        r
    }
}

impl<T1: SchemaBridge, T2: SchemaBridge, T3: SchemaBridge> SchemaBridge for (T1, T2, T3) {
    open spec fn ts_model() -> Seq<char> {
        "["@ + T1::ts_model() + ", "@ + T2::ts_model() + ", "@ + T3::ts_model() + "]"@
    }

    open spec fn schema_ir() -> SchemaModel {
        SchemaModel::Tuple(seq![T1::schema_ir(), T2::schema_ir(), T3::schema_ir()])
    }

    fn to_ts() -> (r: String) {
        "[".to_owned().concat(T1::to_ts().as_str()).concat(", ").concat(T2::to_ts().as_str()).concat(", ").concat(T3::to_ts().as_str()).concat("]")
    }

    fn to_schema() -> (r: Schema) {
        let e1 = T1::to_schema();
        let e2 = T2::to_schema();
        let e3 = T3::to_schema();
        let elements = vec![e1, e2, e3];
        let r = Schema::Tuple(elements);
        proof {
            lemma_schemas_model_index(elements@);
            assert(elements@ =~= seq![e1, e2, e3]);
            assert(schemas_model(elements@) =~= seq![T1::schema_ir(), T2::schema_ir(), T3::schema_ir()]);
            assert(r@ =~= Self::schema_ir());
        }
        r
    }
}

impl<T1: SchemaBridge, T2: SchemaBridge, T3: SchemaBridge, T4: SchemaBridge> SchemaBridge for (T1, T2, T3, T4) {
    open spec fn ts_model() -> Seq<char> {
        "["@ + T1::ts_model() + ", "@ + T2::ts_model() + ", "@ + T3::ts_model() + ", "@ + T4::ts_model() + "]"@
    }

    open spec fn schema_ir() -> SchemaModel {
        SchemaModel::Tuple(seq![T1::schema_ir(), T2::schema_ir(), T3::schema_ir(), T4::schema_ir()])
    }

    fn to_ts() -> (r: String) {
        "[".to_owned().concat(T1::to_ts().as_str()).concat(", ").concat(T2::to_ts().as_str()).concat(", ").concat(T3::to_ts().as_str()).concat(", ").concat(T4::to_ts().as_str()).concat("]")
    }

    fn to_schema() -> (r: Schema) {
        let e1 = T1::to_schema();
        let e2 = T2::to_schema();
        let e3 = T3::to_schema();
        let e4 = T4::to_schema();
        let elements = vec![e1, e2, e3, e4];
        let r = Schema::Tuple(elements);
        proof {
            lemma_schemas_model_index(elements@);
            assert(elements@ =~= seq![e1, e2, e3, e4]);
            assert(schemas_model(elements@) =~= seq![T1::schema_ir(), T2::schema_ir(), T3::schema_ir(), T4::schema_ir()]);
            assert(r@ =~= Self::schema_ir());
        }
        r
    }
}

impl<T1: SchemaBridge, T2: SchemaBridge, T3: SchemaBridge, T4: SchemaBridge, T5: SchemaBridge> SchemaBridge for (T1, T2, T3, T4, T5) {
    open spec fn ts_model() -> Seq<char> {
        "["@ + T1::ts_model() + ", "@ + T2::ts_model() + ", "@ + T3::ts_model() + ", "@ + T4::ts_model() + ", "@ + T5::ts_model() + "]"@
    }

    open spec fn schema_ir() -> SchemaModel {
        SchemaModel::Tuple(seq![T1::schema_ir(), T2::schema_ir(), T3::schema_ir(), T4::schema_ir(), T5::schema_ir()])
    }

    fn to_ts() -> (r: String) {
        "[".to_owned().concat(T1::to_ts().as_str()).concat(", ").concat(T2::to_ts().as_str()).concat(", ").concat(T3::to_ts().as_str()).concat(", ").concat(T4::to_ts().as_str()).concat(", ").concat(T5::to_ts().as_str()).concat("]")
    }

    fn to_schema() -> (r: Schema) {
        let e1 = T1::to_schema();
        let e2 = T2::to_schema();
        let e3 = T3::to_schema();
        let e4 = T4::to_schema();
        let e5 = T5::to_schema();
        let elements = vec![e1, e2, e3, e4, e5];
        let r = Schema::Tuple(elements);
        proof {
            lemma_schemas_model_index(elements@);
            assert(elements@ =~= seq![e1, e2, e3, e4, e5]);
            assert(schemas_model(elements@) =~= seq![T1::schema_ir(), T2::schema_ir(), T3::schema_ir(), T4::schema_ir(), T5::schema_ir()]);
            assert(r@ =~= Self::schema_ir());
        }
        r
    }
}

impl<T1: SchemaBridge, T2: SchemaBridge, T3: SchemaBridge, T4: SchemaBridge, T5: SchemaBridge, T6: SchemaBridge> SchemaBridge for (T1, T2, T3, T4, T5, T6) {
    open spec fn ts_model() -> Seq<char> {
        "["@ + T1::ts_model() + ", "@ + T2::ts_model() + ", "@ + T3::ts_model() + ", "@ + T4::ts_model() + ", "@ + T5::ts_model() + ", "@ + T6::ts_model() + "]"@
    }

    open spec fn schema_ir() -> SchemaModel {
        SchemaModel::Tuple(seq![T1::schema_ir(), T2::schema_ir(), T3::schema_ir(), T4::schema_ir(), T5::schema_ir(), T6::schema_ir()])
    }

    fn to_ts() -> (r: String) {
        "[".to_owned().concat(T1::to_ts().as_str()).concat(", ").concat(T2::to_ts().as_str()).concat(", ").concat(T3::to_ts().as_str()).concat(", ").concat(T4::to_ts().as_str()).concat(", ").concat(T5::to_ts().as_str()).concat(", ").concat(T6::to_ts().as_str()).concat("]")
    }

    fn to_schema() -> (r: Schema) {
        let e1 = T1::to_schema();
        let e2 = T2::to_schema();
        let e3 = T3::to_schema();
        let e4 = T4::to_schema();
        let e5 = T5::to_schema();
        let e6 = T6::to_schema();
        let elements = vec![e1, e2, e3, e4, e5, e6];
        let r = Schema::Tuple(elements);
        proof {
            lemma_schemas_model_index(elements@);
            assert(elements@ =~= seq![e1, e2, e3, e4, e5, e6]);
            assert(schemas_model(elements@) =~= seq![T1::schema_ir(), T2::schema_ir(), T3::schema_ir(), T4::schema_ir(), T5::schema_ir(), T6::schema_ir()]);
            assert(r@ =~= Self::schema_ir());
        }
        r
    }
}

/// Containers compose textually: for every bridged `T`, an optional is the
/// inner string with `" | null"` appended, and a sequence is the inner
/// string with `"[]"` appended; the schemas wrap the inner schema the same
/// way.
pub proof fn lemma_container_composition<T: SchemaBridge>()
    ensures
        Option::<T>::ts_model() == T::ts_model() + " | null"@,
        Vec::<T>::ts_model() == T::ts_model() + "[]"@,
        Option::<T>::schema_ir() == SchemaModel::Union(seq![T::schema_ir(), SchemaModel::Null]),
        Vec::<T>::schema_ir() == SchemaModel::Array(Box::new(T::schema_ir())),
{
}

/// Ownership-only wrappers are transparent: for every bridged `T`, each
/// wrapper kind maps to exactly the string and the schema of `T`.
pub proof fn lemma_wrapper_transparency<T: SchemaBridge>()
    ensures
        Box::<T>::ts_model() == T::ts_model(),
        Box::<T>::schema_ir() == T::schema_ir(),
        std::rc::Rc::<T>::ts_model() == T::ts_model(),
        std::rc::Rc::<T>::schema_ir() == T::schema_ir(),
        std::sync::Arc::<T>::ts_model() == T::ts_model(),
        std::sync::Arc::<T>::schema_ir() == T::schema_ir(),
{
}

} // verus!
