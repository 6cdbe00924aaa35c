use crate::components::{assoc_get, assoc_lookup, schema_entry, Document, ObjectOrReference};
use crate::reference::{strict_parse, Ref, RefError, RefType};
use vstd::prelude::*;
use vstd::string::StringExecFns;

verus! {

/// The error taxonomy a validation pass layered above resolution emits;
/// resolution itself raises none of these.
#[derive(Clone, Debug, PartialEq)]
pub enum Error {
    /// The schema declares no type at all.
    NoType,
    /// The schema declares a type outside the known set; carries the token.
    UnknownType(String),
    /// A `required` list is meaningless unless the declared type is object.
    RequiredSpecifiedOnNonObject,
}

impl Error {
    /// A human-readable account of the error.
    pub fn message(&self) -> (r: String)
        ensures
            match *self {
                Error::NoType => r@ == "Missing type property"@,
                Error::UnknownType(t) => r@ == "Unknown type: "@ + t@,
                Error::RequiredSpecifiedOnNonObject => r@
                    == "Required fields specified on a non-object schema"@,
            },
    {
        match self {
            Error::NoType => "Missing type property".to_owned(),
            Error::UnknownType(t) => {
                let mut s = "Unknown type: ".to_owned();
                s.append(t.as_str());
                s
            },
            Error::RequiredSpecifiedOnNonObject => {
                "Required fields specified on a non-object schema".to_owned()
            },
        }
    }
}

/// The JSON type a schema declares for the values it describes.
#[derive(Clone, Copy, Debug, PartialEq)]
pub enum Type {
    Boolean,
    Integer,
    Number,
    String,
    Array,
    Object,
    Null,
}

/// How a string-typed value's content is encoded.
#[derive(Clone, Debug, PartialEq)]
pub enum Encoding {
    Base16,
    Hex,
    Base32,
    Base32Hex,
    Base64,
    Base64Url,
    QuotedPrintable,
}

/// Either a schema, or a literal boolean permitting or forbidding extra
/// properties outright; chosen by the shape of the underlying value.
#[derive(Debug, PartialEq)]
pub enum SchemaOrBool {
    Schema(Schema),
    Bool(bool),
}

/// A schema object: the recursive node type describing input and output
/// data. The composition fields (`all_of`, `one_of`, `any_of`), the
/// `properties` map, `items`, and `additional_properties` each embed further
/// object-or-reference slots; none of them is resolved when a schema is
/// built — resolution is invoked explicitly, per field, by a caller holding
/// the document.
#[derive(Debug, PartialEq, Default)]
pub struct Schema {
    /// Display metadata.
    pub title: Option<String>,
    pub description: Option<String>,
    /// The declared type of described values.
    pub schema_type: Option<Type>,
    /// Property names an object value must supply.
    pub required: Vec<String>,
    /// The element schema of an array value.
    pub items: Option<Box<ObjectOrReference<Schema>>>,
    /// Schemas of named properties, as named entries with a later entry
    /// shadowing an earlier one of the same name; each entry resolves
    /// independently.
    pub properties: Vec<(String, ObjectOrReference<Schema>)>,
    /// What extra object properties, beyond `properties`, may hold.
    pub additional_properties: Option<Box<ObjectOrReference<SchemaOrBool>>>,
    pub content_encoding: Option<Encoding>,
    pub content_media_type: Option<String>,
    /// A default value, carried opaquely as JSON.
    pub default: Option<serde_json::Value>,
    /// Example values, carried opaquely as JSON.
    pub examples: Vec<serde_json::Value>,
    /// Validation requirements.
    pub format: Option<String>,
    pub enum_values: Vec<String>,
    pub pattern: Option<String>,
    pub multiple_of: Option<serde_json::Number>,
    pub minimum: Option<serde_json::Number>,
    pub exclusive_maximum: Option<serde_json::Number>,
    pub maximum: Option<serde_json::Number>,
    pub exclusive_minimum: Option<serde_json::Number>,
    pub min_length: Option<u64>,
    pub max_length: Option<u64>,
    pub min_items: Option<u64>,
    pub max_items: Option<u64>,
    pub unique_items: Option<bool>,
    pub max_properties: Option<u64>,
    pub min_properties: Option<u64>,
    pub read_only: Option<bool>,
    pub write_only: Option<bool>,
    /// Composition: every member must hold / exactly one must hold / at
    /// least one must hold. Order is preserved for validation semantics but
    /// has no effect on resolution: each member resolves independently.
    pub all_of: Vec<ObjectOrReference<Schema>>,
    pub one_of: Vec<ObjectOrReference<Schema>>,
    pub any_of: Vec<ObjectOrReference<Schema>>,
}

/// What resolving `path` as a schema against `doc` denotes, under the strict
/// convention.
pub enum SchemaResolution {
    /// The stored entry is inline: resolution yields exactly this schema.
    Resolved(Schema),
    /// The raw string does not parse as a reference.
    Invalid,
    /// The string parses, but its kind is not the schema collection.
    Mismatched(RefType),
    /// The kind matches, but nothing is stored under the name — which also
    /// covers a document without components.
    Absent,
    /// The stored entry is itself a reference: resolution stops after this
    /// one hop and hands back the next raw path for the caller to follow.
    Indirect(Seq<char>),
}

/// The outcome resolving `path` as a schema against `doc` denotes.
pub open spec fn schema_resolution(doc: Document, path: Seq<char>) -> SchemaResolution {
    match strict_parse(path) {
        None => SchemaResolution::Invalid,
        Some(p) => {
            if p.0 != RefType::Schema {
                SchemaResolution::Mismatched(p.0)
            } else {
                match schema_entry(doc, p.1) {
                    None => SchemaResolution::Absent,
                    Some(entry) => match entry {
                        ObjectOrReference::Object(s) => SchemaResolution::Resolved(s),
                        ObjectOrReference::Ref { ref_path } => SchemaResolution::Indirect(
                            ref_path@,
                        ),
                    },
                }
            }
        },
    }
}

/// Relates an executable resolution result to the outcome it denotes: each
/// failure category surfaces as its own error, if and only if it occurred.
pub open spec fn schema_outcome<'a>(
    r: Result<&'a Schema, RefError>,
    doc: Document,
    path: Seq<char>,
) -> bool {
    match schema_resolution(doc, path) {
        SchemaResolution::Resolved(s) => r matches Ok(rs) && *rs == s,
        SchemaResolution::Invalid => r matches Err(e) && (e matches RefError::InvalidRef(p) && p@
            == path),
        SchemaResolution::Mismatched(t) => r == Err::<&'a Schema, RefError>(
            RefError::MismatchedType(t, RefType::Schema),
        ),
        SchemaResolution::Absent => r matches Err(e) && (e matches RefError::Unresolvable(p) && p@
            == path),
        SchemaResolution::Indirect(next) => r matches Err(e) && (e
            matches RefError::Unresolvable(p) && p@ == next),
    }
}

impl Schema {
    /// The strict resolution contract: parse `path` into a kind and a name;
    /// a kind other than the schema collection is a mismatch, a name with no
    /// entry is unresolvable, and a hit yields the stored entry's one-hop
    /// resolution — the inline schema itself, or, where the entry is another
    /// reference, that next path as unresolvable, for the caller to follow.
    pub fn from_ref<'a>(doc: &'a Document, path: &str) -> (r: Result<&'a Schema, RefError>)
        ensures
            schema_outcome(r, *doc, path@),
    {
        let rf = match Ref::from_str(path) {
            Ok(rf) => rf,
            Err(e) => {
                return Err(e);
            },
        };
        match rf.kind {
            RefType::Schema => {
                match &doc.components {
                    Some(cs) => match cs.schemas.get(&rf.name) {
                        Some(entry) => match entry {
                            ObjectOrReference::Object(s) => Ok(s),
                            ObjectOrReference::Ref { ref_path } => Err(
                                RefError::Unresolvable(ref_path.clone()),
                            ),
                        },
                        None => Err(RefError::Unresolvable(path.to_owned())),
                    },
                    None => Err(RefError::Unresolvable(path.to_owned())),
                }
            },
            t => Err(RefError::MismatchedType(t, RefType::Schema)),
        }
    }
}

impl Schema {
    /// The object-or-reference slot stored for the property `name`, if any.
    pub fn property(&self, name: &String) -> (r: Option<&ObjectOrReference<Schema>>)
        ensures
            match assoc_lookup(self.properties@, name@) {
                Some(v) => r matches Some(rv) && *rv == v,
                None => r is None,
            },
    {
        assoc_get(&self.properties, name)
    }
}

impl ObjectOrReference<Schema> {
    /// Resolve this slot against `doc`: an inline value is returned as it
    /// stands, with no lookup performed; a reference is resolved through
    /// `Schema::from_ref`.
    pub fn resolve<'a>(&'a self, doc: &'a Document) -> (r: Result<&'a Schema, RefError>)
        ensures
            match *self {
                ObjectOrReference::Object(s) => r matches Ok(rs) && *rs == s,
                ObjectOrReference::Ref { ref_path } => schema_outcome(r, *doc, ref_path@),
            },
    {
        match self {
            ObjectOrReference::Object(s) => Ok(s),
            ObjectOrReference::Ref { ref_path } => Schema::from_ref(doc, ref_path.as_str()),
        }
    }
}

/// Law: a reference that parses to the schema kind and whose target entry
/// exists and is inline resolves to exactly the stored schema.
pub proof fn lemma_schema_inline_target(doc: Document, path: Seq<char>, n: Seq<char>, s: Schema)
    requires
        strict_parse(path) == Some((RefType::Schema, n)),
        schema_entry(doc, n) == Some(ObjectOrReference::Object(s)),
    ensures
        schema_resolution(doc, path) == SchemaResolution::Resolved(s),
{
}

/// Law: a reference whose parsed kind is not the schema collection is a
/// mismatch — never unresolvable — whatever is or is not stored under its
/// name.
pub proof fn lemma_wrong_kind_is_mismatch(doc: Document, path: Seq<char>, t: RefType, n: Seq<char>)
    requires
        strict_parse(path) == Some((t, n)),
        t != RefType::Schema,
    ensures
        schema_resolution(doc, path) == SchemaResolution::Mismatched(t),
        !(schema_resolution(doc, path) is Absent),
{
}

/// Law: a reference whose parsed kind is the schema collection but whose
/// name has no entry is unresolvable — never a mismatch.
pub proof fn lemma_absent_name_is_unresolvable(doc: Document, path: Seq<char>, n: Seq<char>)
    requires
        strict_parse(path) == Some((RefType::Schema, n)),
        schema_entry(doc, n) is None,
    ensures
        schema_resolution(doc, path) == SchemaResolution::Absent,
        !(schema_resolution(doc, path) is Mismatched),
{
}

} // verus!
