//! Structural dispatch: given a composite type's shape classification —
//! named-field record, single-field newtype, positional record, unit, or
//! enumeration of unit variants — plus an optional renaming rule, assemble
//! the structural string and the schema value from the already-resolved
//! field and variant facts.
//!
//! The schema of a composite type is produced structurally, mirroring the
//! string form shape for shape, so the two representations never drift.

use vstd::prelude::*;
use vstd::string::StringExecFns;
use crate::schema::Schema;
use crate::schema::SchemaModel;
use crate::schema::schema_model;
use crate::schema::object_model;
use crate::schema::lemma_object_model_index;
use crate::schema::lemma_schemas_model_index;
use crate::schema::schemas_model;
use crate::naming::NamingRule;
use crate::naming::rename_model;
use crate::naming::apply_rename_rule;

verus! {

/// The result of bridging one type: its structural string and its schema
/// value, as the registry or an earlier dispatch produced them.
#[derive(Debug, PartialEq)]
pub struct Bridged {
    /// The structural (TypeScript-flavored) type expression.
    pub ts: String,
    /// The schema value.
    pub schema: Schema,
}

impl View for Bridged {
    type V = (Seq<char>, SchemaModel);

    open spec fn view(&self) -> (Seq<char>, SchemaModel) {
        (self.ts@, self.schema@)
    }
}

/// A composite type's shape classification, computed once from structural
/// facts, together with those facts: field and variant names as declared,
/// and the already-bridged representation of every field type.
pub enum TypeShape {
    /// A record with named fields, in declaration order.
    NamedFields(Vec<(String, Bridged)>),
    /// A single-unnamed-field record: a newtype wrapper.
    SingleUnnamed(Bridged),
    /// A positional record of two or more unnamed fields — or, degenerately,
    /// one — in declaration order.
    MultiUnnamed(Vec<Bridged>),
    /// A record with no fields.
    Unit,
    /// An enumeration whose variants, in declaration order, carry no payload.
    UnitVariants(Vec<String>),
}

/// The mathematical model of a [`TypeShape`].
#[verifier::ext_equal]
pub enum ShapeModel {
    /// Model of `TypeShape::NamedFields`.
    NamedFields(Seq<(Seq<char>, (Seq<char>, SchemaModel))>),
    /// Model of `TypeShape::SingleUnnamed`.
    SingleUnnamed((Seq<char>, SchemaModel)),
    /// Model of `TypeShape::MultiUnnamed`.
    MultiUnnamed(Seq<(Seq<char>, SchemaModel)>),
    /// Model of `TypeShape::Unit`.
    Unit,
    /// Model of `TypeShape::UnitVariants`.
    UnitVariants(Seq<Seq<char>>),
}

impl View for TypeShape {
    type V = ShapeModel;

    open spec fn view(&self) -> ShapeModel {
        match self {
            TypeShape::NamedFields(fields) => ShapeModel::NamedFields(
                fields@.map_values(|f: (String, Bridged)| (f.0@, f.1@)),
            ),
            TypeShape::SingleUnnamed(inner) => ShapeModel::SingleUnnamed(inner@),
            TypeShape::MultiUnnamed(elems) => ShapeModel::MultiUnnamed(
                elems@.map_values(|e: Bridged| e@),
            ),
            TypeShape::Unit => ShapeModel::Unit,
            TypeShape::UnitVariants(variants) => ShapeModel::UnitVariants(
                variants@.map_values(|v: String| v@),
            ),
        }
    }
}

/// The pieces joined with the separator between consecutive pieces.
pub open spec fn spec_join(parts: Seq<Seq<char>>, sep: Seq<char>) -> Seq<char>
    decreases parts,
{
    if parts.len() == 0 {
        Seq::empty()
    } else if parts.len() == 1 {
        parts[0]
    } else {
        spec_join(parts.subrange(0, parts.len() - 1), sep) + sep + parts[parts.len() - 1]
    }
}

/// Join the strings of `parts` with `sep` between consecutive entries.
pub fn join_with(parts: &Vec<String>, sep: &str) -> (r: String)
    ensures
        r@ == spec_join(parts.deep_view(), sep@),
{
    let mut out = String::new();
    let n = parts.len();
    let mut i: usize = 0;
    while i < n
        invariant
            n == parts.len(),
            0 <= i <= n,
            out@ == spec_join(parts.deep_view().subrange(0, i as int), sep@),
        decreases n - i,
    {
        if i > 0 {
            out.append(sep);
        }
        out.append(parts[i].as_str());
        proof {
            let dv = parts.deep_view();
            assert(dv[i as int] == parts[i as int]@);
            assert(dv.subrange(0, i + 1).subrange(0, i as int) =~= dv.subrange(0, i as int));
            assert(dv.subrange(0, i + 1)[i as int] == dv[i as int]);
            if i == 0 {
                assert(out@ =~= spec_join(dv.subrange(0, 1), sep@));
            } else {
                assert(out@ =~= spec_join(dv.subrange(0, i + 1), sep@));
            }
        }
        i = i + 1;
    }
    proof {
        assert(parts.deep_view().subrange(0, n as int) =~= parts.deep_view());
    }
    out
}

/// The text of one rendered record field: the renamed field name, a colon,
/// the field's structural string, and a terminating semicolon.
pub open spec fn field_part_model(name: Seq<char>, ts: Seq<char>, rule: NamingRule) -> Seq<char> {
    rename_model(name, rule) + ": "@ + ts + ";"@
}

/// The rendered field texts of a record, in declaration order.
pub open spec fn record_parts_model(
    fs: Seq<(Seq<char>, (Seq<char>, SchemaModel))>,
    rule: NamingRule,
) -> Seq<Seq<char>> {
    fs.map_values(|f: (Seq<char>, (Seq<char>, SchemaModel))| field_part_model(f.0, f.1.0, rule))
}

/// The structural string of a named-field record: the rendered fields
/// joined by single spaces inside braces.
pub open spec fn record_ts_model(
    fs: Seq<(Seq<char>, (Seq<char>, SchemaModel))>,
    rule: NamingRule,
) -> Seq<char> {
    "{ "@ + spec_join(record_parts_model(fs, rule), " "@) + " }"@
}

/// The schema of a named-field record: an object of the renamed field
/// names, order preserved; the raw declared names are not retained.
pub open spec fn record_schema_model(
    fs: Seq<(Seq<char>, (Seq<char>, SchemaModel))>,
    rule: NamingRule,
) -> SchemaModel {
    SchemaModel::Object(
        fs.map_values(
            |f: (Seq<char>, (Seq<char>, SchemaModel))| (rename_model(f.0, rule), f.1.1),
        ),
    )
}

/// The structural string of a positional record: the element strings
/// joined by `", "` inside brackets.
pub open spec fn tuple_ts_model(es: Seq<(Seq<char>, SchemaModel)>) -> Seq<char> {
    "["@ + spec_join(es.map_values(|e: (Seq<char>, SchemaModel)| e.0), ", "@) + "]"@
}

/// The schema of a positional record: a tuple of the element schemas.
pub open spec fn tuple_schema_model(es: Seq<(Seq<char>, SchemaModel)>) -> SchemaModel {
    SchemaModel::Tuple(es.map_values(|e: (Seq<char>, SchemaModel)| e.1))
}

/// One enumeration variant rendered as a single-quoted string literal of
/// its renamed identifier.
pub open spec fn variant_lit_model(v: Seq<char>, rule: NamingRule) -> Seq<char> {
    "'"@ + rename_model(v, rule) + "'"@
}

/// The structural string of a unit-variant enumeration: the quoted,
/// renamed variants joined by `" | "`.
pub open spec fn enum_ts_model(vs: Seq<Seq<char>>, rule: NamingRule) -> Seq<char> {
    spec_join(vs.map_values(|v: Seq<char>| variant_lit_model(v, rule)), " | "@)
}

/// The schema of a unit-variant enumeration: the closed set of renamed
/// variant names.
pub open spec fn enum_schema_model(vs: Seq<Seq<char>>, rule: NamingRule) -> SchemaModel {
    SchemaModel::Enum(vs.map_values(|v: Seq<char>| rename_model(v, rule)))
}

/// Whether a shape lies in the supported set: a positional record must
/// have arity one through six; every other shape is always supported.
pub open spec fn shape_ok(m: ShapeModel) -> bool {
    match m {
        ShapeModel::MultiUnnamed(es) => 1 <= es.len() <= 6,
        _ => true,
    }
}

/// The structural string and schema a supported shape maps to.
pub open spec fn dispatch_model(m: ShapeModel, rule: NamingRule) -> (Seq<char>, SchemaModel) {
    match m {
        ShapeModel::NamedFields(fs) => (record_ts_model(fs, rule), record_schema_model(fs, rule)),
        ShapeModel::SingleUnnamed(inner) => inner,
        ShapeModel::MultiUnnamed(es) => (tuple_ts_model(es), tuple_schema_model(es)),
        ShapeModel::Unit => ("null"@, SchemaModel::Null),
        ShapeModel::UnitVariants(vs) => (enum_ts_model(vs, rule), enum_schema_model(vs, rule)),
    }
}

/// Bridge one composite type from its shape classification and an active
/// renaming rule. Succeeds exactly on the supported shapes; a positional
/// record of arity zero or of arity above six is rejected at generation
/// time.
pub fn bridge_composite(shape: TypeShape, rule: NamingRule) -> (r: Option<Bridged>)
    ensures
        r is Some <==> shape_ok(shape@),
        (match r {
            Some(b) => b@ == dispatch_model(shape@, rule),
            None => !shape_ok(shape@),
        }),
{
    match shape {
        TypeShape::NamedFields(fields) => {
            let ghost fs = fields@.map_values(|f: (String, Bridged)| (f.0@, f.1@));
            let mut rest = fields;
            let mut parts: Vec<String> = Vec::new();
            let mut objs: Vec<(String, Schema)> = Vec::new();
            while rest.len() > 0
                invariant
                    rest@.len() + parts@.len() == fs.len(),
                    objs@.len() == parts@.len(),
                    forall|j: int|
                        0 <= j < rest@.len() ==> (#[trigger] rest@[j].0@, rest@[j].1@) == fs[parts@.len()
                            + j],
                    parts.deep_view() =~= record_parts_model(
                        fs.subrange(0, parts@.len() as int),
                        rule,
                    ),
                    forall|j: int|
                        0 <= j < objs@.len() ==> (#[trigger] objs@[j].0@, schema_model(objs@[j].1))
                            == (rename_model(fs[j].0, rule), fs[j].1.1),
                decreases rest@.len(),
            {
                let ghost k = parts@.len() as int;
                let (name, b) = rest.remove(0);
                proof {
                    assert((name@, b@) == fs[k]);
                }
                let renamed = apply_rename_rule(name.as_str(), rule);
                let display = renamed.clone();
                let part = renamed.concat(": ").concat(b.ts.as_str()).concat(";");
                let ghost prev = parts.deep_view();
                parts.push(part);
                objs.push((display, b.schema));
                proof {
                    assert(part@ == field_part_model(fs[k].0, fs[k].1.0, rule));
                    assert(parts.deep_view() =~= prev.push(part@));
                    assert(prev.push(part@) =~= record_parts_model(fs.subrange(0, k + 1), rule));
                }
            }
            proof {
                assert(fs.subrange(0, fs.len() as int) =~= fs);
            }
            let ts = "{ ".to_owned().concat(join_with(&parts, " ").as_str()).concat(" }");
            let schema = Schema::Object(objs);
            proof {
                lemma_object_model_index(objs@);
                assert(object_model(objs@) =~= fs.map_values(
                    |f: (Seq<char>, (Seq<char>, SchemaModel))| (rename_model(f.0, rule), f.1.1),
                ));
                assert(schema@ =~= record_schema_model(fs, rule));
            }
            Some(Bridged { ts, schema })
        },
        TypeShape::SingleUnnamed(inner) => Some(inner),
        TypeShape::MultiUnnamed(elems) => {
            if elems.len() == 0 || elems.len() > 6 {
                return None;
            }
            let ghost es = elems@.map_values(|e: Bridged| e@);
            let mut rest = elems;
            let mut parts: Vec<String> = Vec::new();
            let mut schemas: Vec<Schema> = Vec::new();
            while rest.len() > 0
                invariant
                    rest@.len() + parts@.len() == es.len(),
                    schemas@.len() == parts@.len(),
                    forall|j: int| 0 <= j < rest@.len() ==> (#[trigger] rest@[j])@ == es[parts@.len() + j],
                    parts.deep_view() =~= es.subrange(0, parts@.len() as int).map_values(
                        |e: (Seq<char>, SchemaModel)| e.0,
                    ),
                    forall|j: int|
                        0 <= j < schemas@.len() ==> schema_model(#[trigger] schemas@[j]) == es[j].1,
                decreases rest@.len(),
            {
                let ghost k = parts@.len() as int;
                let b = rest.remove(0);
                proof {
                    assert(b@ == es[k]);
                }
                let ghost prev = parts.deep_view();
                let ghost ts_view = b.ts@;
                parts.push(b.ts);
                schemas.push(b.schema);
                proof {
                    assert(ts_view == es[k].0);
                    assert(parts.deep_view() =~= prev.push(ts_view));
                    assert(prev.push(ts_view) =~= es.subrange(0, k + 1).map_values(
                        |e: (Seq<char>, SchemaModel)| e.0,
                    ));
                }
            }
            proof {
                assert(es.subrange(0, es.len() as int) =~= es);
            }
            let ts = "[".to_owned().concat(join_with(&parts, ", ").as_str()).concat("]");
            let schema = Schema::Tuple(schemas);
            proof {
                lemma_schemas_model_index(schemas@);
                assert(schemas_model(schemas@) =~= es.map_values(
                    |e: (Seq<char>, SchemaModel)| e.1,
                ));
                assert(schema@ =~= tuple_schema_model(es));
            }
            Some(Bridged { ts, schema })
        },
        TypeShape::Unit => Some(Bridged { ts: "null".to_owned(), schema: Schema::Null }),
        TypeShape::UnitVariants(variants) => {
            let ghost vs = variants@.map_values(|v: String| v@);
            let mut rest = variants;
            let mut parts: Vec<String> = Vec::new();
            let mut names: Vec<String> = Vec::new();
            while rest.len() > 0
                invariant
                    rest@.len() + parts@.len() == vs.len(),
                    names@.len() == parts@.len(),
                    forall|j: int| 0 <= j < rest@.len() ==> (#[trigger] rest@[j])@ == vs[parts@.len() + j],
                    parts.deep_view() =~= vs.subrange(0, parts@.len() as int).map_values(
                        |v: Seq<char>| variant_lit_model(v, rule),
                    ),
                    names.deep_view() =~= vs.subrange(0, parts@.len() as int).map_values(
                        |v: Seq<char>| rename_model(v, rule),
                    ),
                decreases rest@.len(),
            {
                let ghost k = parts@.len() as int;
                let v = rest.remove(0);
                proof {
                    assert(v@ == vs[k]);
                }
                let renamed = apply_rename_rule(v.as_str(), rule);
                let display = renamed.clone();
                let part = "'".to_owned().concat(renamed.as_str()).concat("'");
                let ghost prev_parts = parts.deep_view();
                let ghost prev_names = names.deep_view();
                parts.push(part);
                names.push(display);
                proof {
                    assert(part@ == variant_lit_model(vs[k], rule));
                    assert(display@ == rename_model(vs[k], rule));
                    assert(parts.deep_view() =~= prev_parts.push(part@));
                    assert(prev_parts.push(part@) =~= vs.subrange(0, k + 1).map_values(
                        |v2: Seq<char>| variant_lit_model(v2, rule),
                    ));
                    assert(names.deep_view() =~= prev_names.push(display@));
                    assert(prev_names.push(display@) =~= vs.subrange(0, k + 1).map_values(
                        |v2: Seq<char>| rename_model(v2, rule),
                    ));
                }
            }
            proof {
                assert(vs.subrange(0, vs.len() as int) =~= vs);
            }
            let ts = join_with(&parts, " | ");
            let schema = Schema::Enum(names);
            proof {
                assert(names@.map_values(|n: String| n@) =~= names.deep_view());
                assert(schema@ =~= enum_schema_model(vs, rule));
            }
            Some(Bridged { ts, schema })
        },
    }
}

/// A single-field wrapper delegates entirely: whatever the rule, its
/// string and its schema are exactly those of the wrapped type.
pub proof fn lemma_newtype_delegation(inner: (Seq<char>, SchemaModel), rule: NamingRule)
    ensures
        shape_ok(ShapeModel::SingleUnnamed(inner)),
        dispatch_model(ShapeModel::SingleUnnamed(inner), rule) == inner,
{
}

} // verus!
