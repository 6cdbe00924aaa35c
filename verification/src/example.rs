use crate::components::{example_entry, Document, ObjectOrReference};
use crate::reference::{loose_kind, loose_name, RefPath};
use vstd::prelude::*;

verus! {

/// An example object: descriptive text plus an optional embedded literal
/// value, carried opaquely as JSON.
#[derive(Clone, Debug, PartialEq, Default)]
pub struct Example {
    /// Short description for the example.
    pub summary: Option<String>,
    /// Long description for the example.
    pub description: Option<String>,
    /// Embedded literal example.
    pub value: Option<serde_json::Value>,
}

/// What resolving `path` as an example against `doc` denotes, under the
/// loose convention: the stored inline example on a hit, and nothing on any
/// miss — an unrecognized kind token, an absent name, or a stored entry that
/// is itself a reference.
pub open spec fn example_resolution(doc: Document, path: Seq<char>) -> Option<Example> {
    if loose_kind(path) == "examples"@ {
        match example_entry(doc, loose_name(path)) {
            Some(entry) => match entry {
                ObjectOrReference::Object(e) => Some(e),
                ObjectOrReference::Ref { ref_path: _ } => None,
            },
            None => None,
        }
    } else {
        None
    }
}

/// Relates an executable resolution result to the outcome it denotes.
pub open spec fn example_outcome<'a>(
    r: Option<&'a Example>,
    doc: Document,
    path: Seq<char>,
) -> bool {
    match example_resolution(doc, path) {
        Some(e) => r matches Some(re) && *re == e,
        None => r is None,
    }
}

impl Example {
    /// The loose resolution contract: parse `path` with no validation of the
    /// kind token, and return the inline example stored under the name, or
    /// nothing. An unrecognized kind is treated as "not resolvable by this
    /// entity type", not as an error.
    pub fn from_ref<'a>(doc: &'a Document, path: &str) -> (r: Option<&'a Example>)
        ensures
            example_outcome(r, *doc, path@),
    {
        let rp = RefPath::from_str(path);
        if rp.kind == "examples".to_owned() {
            match &doc.components {
                Some(cs) => match cs.examples.get(&rp.name) {
                    Some(entry) => match entry {
                        ObjectOrReference::Object(e) => Some(e),
                        ObjectOrReference::Ref { ref_path: _ } => None,
                    },
                    None => None,
                },
                None => None,
            }
        } else {
            None
        }
    }
}

impl ObjectOrReference<Example> {
    /// Resolve this slot against `doc`: an inline value is returned as it
    /// stands, with no lookup performed; a reference is resolved through
    /// `Example::from_ref`.
    pub fn resolve<'a>(&'a self, doc: &'a Document) -> (r: Option<&'a Example>)
        ensures
            match *self {
                ObjectOrReference::Object(e) => r matches Some(re) && *re == e,
                ObjectOrReference::Ref { ref_path } => example_outcome(r, *doc, ref_path@),
            },
    {
        match self {
            ObjectOrReference::Object(e) => Some(e),
            ObjectOrReference::Ref { ref_path } => Example::from_ref(doc, ref_path.as_str()),
        }
    }
}

/// Law: a loose reference whose kind token reads `examples` and whose target
/// entry exists and is inline resolves to exactly the stored example.
pub proof fn lemma_example_inline_target(doc: Document, path: Seq<char>, e: Example)
    requires
        loose_kind(path) == "examples"@,
        example_entry(doc, loose_name(path)) == Some(ObjectOrReference::Object(e)),
    ensures
        example_resolution(doc, path) == Some(e),
{
}

} // verus!
