use crate::text::{chars_of, string_from_range};
use vstd::prelude::*;

verus! {

/// The closed set of component collections a reference can point into.
#[derive(Clone, Copy, Debug, PartialEq, Eq)]
pub enum RefType {
    Schema,
    Response,
    Parameter,
    Example,
    RequestBody,
    Header,
    SecurityScheme,
    Link,
    Callback,
}

/// How resolving a reference can fail.
#[derive(Clone, Debug, PartialEq)]
pub enum RefError {
    /// The raw string does not decompose into a recognized `kind/name` pair.
    InvalidRef(String),
    /// The parsed kind is not the kind the resolving entity type owns.
    MismatchedType(RefType, RefType),
    /// The kind matched, but nothing is stored under the name; carries the
    /// path that could not be followed further.
    Unresolvable(String),
}

/// A strictly parsed reference: a kind from the closed enumeration, and the
/// lookup key within that kind's collection.
#[derive(Clone, Debug, PartialEq)]
pub struct Ref {
    pub kind: RefType,
    pub name: String,
}

/// A loosely parsed reference: the kind is kept as a plain string, matched
/// case by case by callers; unrecognized kinds simply fail to match.
#[derive(Clone, Debug, PartialEq)]
pub struct RefPath {
    pub kind: String,
    pub name: String,
}

/// The index of the last occurrence of `sep` in `s`, if any.
pub open spec fn find_last_sep(s: Seq<char>, sep: char) -> Option<int>
    decreases s.len(),
{
    if s.len() == 0 {
        None
    } else if s[s.len() - 1] == sep {
        Some(s.len() - 1)
    } else {
        find_last_sep(s.drop_last(), sep)
    }
}

/// The final `/`-separated segment of a raw reference string: its name token.
pub open spec fn loose_name(s: Seq<char>) -> Seq<char> {
    match find_last_sep(s, '/') {
        Some(i) => s.subrange(i + 1, s.len() as int),
        None => s,
    }
}

/// The next-to-last `/`-separated segment of a raw reference string: its kind
/// token. Empty when the string has fewer than two segments.
pub open spec fn loose_kind(s: Seq<char>) -> Seq<char> {
    match find_last_sep(s, '/') {
        Some(i) => loose_name(s.subrange(0, i)),
        None => Seq::empty(),
    }
}

/// Maps a kind token to the collection it names, if it names one.
pub open spec fn kind_from_token(k: Seq<char>) -> Option<RefType> {
    if k == "schemas"@ {
        Some(RefType::Schema)
    } else if k == "responses"@ {
        Some(RefType::Response)
    } else if k == "parameters"@ {
        Some(RefType::Parameter)
    } else if k == "examples"@ {
        Some(RefType::Example)
    } else if k == "requestBodies"@ {
        Some(RefType::RequestBody)
    } else if k == "headers"@ {
        Some(RefType::Header)
    } else if k == "securitySchemes"@ {
        Some(RefType::SecurityScheme)
    } else if k == "links"@ {
        Some(RefType::Link)
    } else if k == "callbacks"@ {
        Some(RefType::Callback)
    } else {
        None
    }
}

/// Strict parsing: the kind token must name a known collection and the name
/// must be non-empty; otherwise the string is malformed.
pub open spec fn strict_parse(s: Seq<char>) -> Option<(RefType, Seq<char>)> {
    if loose_name(s).len() == 0 {
        None
    } else {
        match kind_from_token(loose_kind(s)) {
            Some(t) => Some((t, loose_name(s))),
            None => None,
        }
    }
}

proof fn lemma_find_last_sep_found(s: Seq<char>, sep: char, i: int)
    requires
        0 <= i < s.len(),
        s[i] == sep,
        forall|j: int| i < j < s.len() ==> s[j] != sep,
    ensures
        find_last_sep(s, sep) == Some(i),
    decreases s.len(),
{
    if i == s.len() - 1 {
    } else {
        lemma_find_last_sep_found(s.drop_last(), sep, i);
    }
}

proof fn lemma_find_last_sep_absent(s: Seq<char>, sep: char)
    requires
        forall|j: int| 0 <= j < s.len() ==> s[j] != sep,
    ensures
        find_last_sep(s, sep) is None,
    decreases s.len(),
{
    if s.len() > 0 {
        lemma_find_last_sep_absent(s.drop_last(), sep);
    }
}

/// The index of the last occurrence of `sep` strictly before `end` in `cs`.
fn rfind_sep(cs: &Vec<char>, end: usize, sep: char) -> (r: Option<usize>)
    requires
        end <= cs@.len(),
    ensures
        match r {
            Some(i) => find_last_sep(cs@.take(end as int), sep) == Some(i as int) && i < end,
            None => find_last_sep(cs@.take(end as int), sep) is None,
        },
{
    let mut i = end;
    while i > 0
        invariant
            i <= end <= cs@.len(),
            forall|j: int| i <= j < end ==> cs@[j] != sep,
        decreases i,
    {
        i = i - 1;
        if cs[i] == sep {
            proof {
                lemma_find_last_sep_found(cs@.take(end as int), sep, i as int);
            }
            return Some(i);
        }
    }
    proof {
        lemma_find_last_sep_absent(cs@.take(end as int), sep);
    }
    None
}

impl RefPath {
    /// Extract the final two `/`-separated segments of `path` as kind and
    /// name tokens, with no validation of the kind. Never fails: with fewer
    /// than two segments the kind token is empty.
    pub fn from_str(path: &str) -> (r: RefPath)
        ensures
            r.kind@ == loose_kind(path@),
            r.name@ == loose_name(path@),
    {
        let cs = chars_of(path);
        let n = cs.len();
        proof {
            assert(cs@.take(n as int) =~= cs@);
        }
        match rfind_sep(&cs, n, '/') {
            None => {
                let name = string_from_range(&cs, 0, n);
                proof {
                    assert(cs@.subrange(0, n as int) =~= cs@);
                }
                RefPath { kind: String::new(), name }
            },
            Some(i) => {
                let name = string_from_range(&cs, i + 1, n);
                let ghost prefix = cs@.subrange(0, i as int);
                proof {
                    assert(cs@.take(i as int) =~= prefix);
                }
                let kind = match rfind_sep(&cs, i, '/') {
                    None => {
                        proof {
                            assert(cs@.subrange(0, i as int) =~= prefix);
                        }
                        string_from_range(&cs, 0, i)
                    },
                    Some(j) => {
                        proof {
                            assert(cs@.subrange(j + 1, i as int) =~= prefix.subrange(
                                j + 1,
                                prefix.len() as int,
                            ));
                        }
                        string_from_range(&cs, j + 1, i)
                    },
                };
                RefPath { kind, name }
            },
        }
    }
}

/// Maps a kind token held in a `String` to the collection it names.
fn kind_of_string(k: &String) -> (r: Option<RefType>)
    ensures
        r == kind_from_token(k@),
{
    if *k == "schemas".to_owned() {
        Some(RefType::Schema)
    } else if *k == "responses".to_owned() {
        Some(RefType::Response)
    } else if *k == "parameters".to_owned() {
        Some(RefType::Parameter)
    } else if *k == "examples".to_owned() {
        Some(RefType::Example)
    } else if *k == "requestBodies".to_owned() {
        Some(RefType::RequestBody)
    } else if *k == "headers".to_owned() {
        Some(RefType::Header)
    } else if *k == "securitySchemes".to_owned() {
        Some(RefType::SecurityScheme)
    } else if *k == "links".to_owned() {
        Some(RefType::Link)
    } else if *k == "callbacks".to_owned() {
        Some(RefType::Callback)
    } else {
        None
    }
}

impl Ref {
    /// Strictly parse `path`: the final two segments must form a known kind
    /// and a non-empty name, else the whole string is an invalid reference.
    pub fn from_str(path: &str) -> (r: Result<Ref, RefError>)
        ensures
            match strict_parse(path@) {
                Some(p) => r matches Ok(rf) && rf.kind == p.0 && rf.name@ == p.1,
                None => r matches Err(e) && (e matches RefError::InvalidRef(s) && s@ == path@),
            },
    {
        let rp = RefPath::from_str(path);
        if rp.name.as_str().is_empty() {
            return Err(RefError::InvalidRef(path.to_owned()));
        }
        match kind_of_string(&rp.kind) {
            Some(t) => Ok(Ref { kind: t, name: rp.name }),
            None => Err(RefError::InvalidRef(path.to_owned())),
        }
    }
}

} // verus!
