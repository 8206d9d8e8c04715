//! A schema generation engine: maps structural type descriptions to a
//! language-neutral schema value and to a TypeScript-flavored structural
//! type string, with a naming-convention engine for field and variant
//! names, a string-conversion generator for unit-variant enumerations,
//! and a text emitter for the generated declarations.

pub mod bridge;
pub mod convert;
pub mod dispatch;
pub mod emit;
pub mod naming;
pub mod schema;

pub use bridge::SchemaBridge;
pub use dispatch::Bridged;
pub use dispatch::TypeShape;
pub use emit::generate_ts_file;
pub use naming::NamingRule;
pub use schema::Schema;
pub use schema::SchemaModel;
