mod components;
mod example;
mod json;
mod path;
mod reference;
mod schema;
mod text;

pub use components::{
    assoc_lookup, example_entry, schema_entry, ComponentMap, Components, Document,
    ObjectOrReference,
};
pub use example::{
    example_outcome, example_resolution, lemma_example_inline_target, Example,
};
pub use path::{join_segments, Path};
pub use schema::{
    lemma_absent_name_is_unresolvable, lemma_schema_inline_target, lemma_wrong_kind_is_mismatch,
    schema_outcome, schema_resolution, Encoding, Error, Schema, SchemaOrBool, SchemaResolution,
    Type,
};
pub use reference::{
    find_last_sep, kind_from_token, loose_kind, loose_name, strict_parse, Ref, RefError, RefPath,
    RefType,
};
