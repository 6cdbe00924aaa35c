use crate::example::Example;
use crate::schema::Schema;
use vstd::prelude::*;

verus! {

/// A value slot that is either an inline instance or a `$ref` pointer to one
/// stored elsewhere in the document. Never both.
#[derive(Debug, PartialEq)]
pub enum ObjectOrReference<T> {
    Ref { ref_path: String },
    Object(T),
}

/// A named collection of components: entries are kept in insertion order, and
/// a later entry under the same name shadows an earlier one, so lookups see
/// map semantics.
#[derive(Debug, PartialEq)]
pub struct ComponentMap<V> {
    pub entries: Vec<(String, V)>,
}

/// The value stored under `k`: the latest entry whose name reads `k`.
pub open spec fn assoc_lookup<V>(s: Seq<(String, V)>, k: Seq<char>) -> Option<V>
    decreases s.len(),
{
    if s.len() == 0 {
        None
    } else if s.last().0@ == k {
        Some(s.last().1)
    } else {
        assoc_lookup(s.drop_last(), k)
    }
}

proof fn lemma_assoc_lookup_found<V>(s: Seq<(String, V)>, k: Seq<char>, i: int)
    requires
        0 <= i < s.len(),
        s[i].0@ == k,
        forall|j: int| i < j < s.len() ==> s[j].0@ != k,
    ensures
        assoc_lookup(s, k) == Some(s[i].1),
    decreases s.len(),
{
    if i < s.len() - 1 {
        lemma_assoc_lookup_found(s.drop_last(), k, i);
    }
}

proof fn lemma_assoc_lookup_absent<V>(s: Seq<(String, V)>, k: Seq<char>)
    requires
        forall|j: int| 0 <= j < s.len() ==> s[j].0@ != k,
    ensures
        assoc_lookup(s, k) is None,
    decreases s.len(),
{
    if s.len() > 0 {
        lemma_assoc_lookup_absent(s.drop_last(), k);
    }
}

/// Fetch the entry stored under `name` in an entry list, if any: the latest
/// entry of that name.
pub fn assoc_get<'a, V>(entries: &'a Vec<(String, V)>, name: &String) -> (r: Option<&'a V>)
    ensures
        match assoc_lookup(entries@, name@) {
            Some(v) => r matches Some(rv) && *rv == v,
            None => r is None,
        },
{
    let mut i = entries.len();
    while i > 0
        invariant
            i <= entries@.len(),
            forall|j: int| i <= j < entries@.len() ==> entries@[j].0@ != name@,
        decreases i,
    {
        i = i - 1;
        let entry = &entries[i];
        if entry.0 == *name {
            proof {
                lemma_assoc_lookup_found(entries@, name@, i as int);
            }
            return Some(&entry.1);
        }
    }
    proof {
        lemma_assoc_lookup_absent(entries@, name@);
    }
    None
}

impl<V> ComponentMap<V> {
    /// The value stored under the name `k`, if any.
    pub open spec fn lookup(&self, k: Seq<char>) -> Option<V> {
        assoc_lookup(self.entries@, k)
    }

    pub fn new() -> (r: Self)
        ensures
            r.entries@.len() == 0,
    {
        ComponentMap { entries: Vec::new() }
    }

    /// Store `v` under `name`, shadowing any earlier entry of that name.
    pub fn insert(&mut self, name: String, v: V)
        ensures
            final(self).entries@ == old(self).entries@.push((name, v)),
    {
        self.entries.push((name, v));
    }

    /// Fetch the entry stored under `name`, if any.
    pub fn get(&self, name: &String) -> (r: Option<&V>)
        ensures
            match self.lookup(name@) {
                Some(v) => r matches Some(rv) && *rv == v,
                None => r is None,
            },
    {
        assoc_get(&self.entries, name)
    }
}

impl<V> Default for ComponentMap<V> {
    fn default() -> (r: Self)
        ensures
            r.entries@.len() == 0,
    {
        ComponentMap { entries: Vec::new() }
    }
}

/// The document's named component collections, one per entity kind covered
/// here; referenced entities are looked up in these by name.
#[derive(Debug, PartialEq, Default)]
pub struct Components {
    pub schemas: ComponentMap<ObjectOrReference<Schema>>,
    pub examples: ComponentMap<ObjectOrReference<Example>>,
}

/// The owning document, queried by reference resolution and otherwise
/// treated as an immutable, fully constructed collaborator.
#[derive(Debug, PartialEq, Default)]
pub struct Document {
    pub components: Option<Components>,
}

/// The schema collection of `doc`, as a lookup: `None` when the document has
/// no components at all.
pub open spec fn schema_entry(doc: Document, name: Seq<char>) -> Option<
    ObjectOrReference<Schema>,
> {
    match doc.components {
        None => None,
        Some(cs) => cs.schemas.lookup(name),
    }
}

/// The example collection of `doc`, as a lookup.
pub open spec fn example_entry(doc: Document, name: Seq<char>) -> Option<
    ObjectOrReference<Example>,
> {
    match doc.components {
        None => None,
        Some(cs) => cs.examples.lookup(name),
    }
}

} // verus!
