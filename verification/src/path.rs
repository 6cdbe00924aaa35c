use vstd::prelude::*;

verus! {

/// An ordered breadcrumb of named segments, recording where a traversal
/// stands inside a document. The separator is only used when rendering;
/// equality compares the segments alone.
#[derive(Debug)]
pub struct Path {
    parts: Vec<String>,
    separator: char,
}

/// The segments joined by the separator: empty for no segments, and one
/// separator between each adjacent pair otherwise.
pub open spec fn join_segments(parts: Seq<Seq<char>>, sep: char) -> Seq<char>
    decreases parts.len(),
{
    if parts.len() == 0 {
        Seq::empty()
    } else if parts.len() == 1 {
        parts[0]
    } else {
        join_segments(parts.drop_last(), sep).push(sep) + parts.last()
    }
}

impl Path {
    /// The segments of this path, each as a sequence of characters.
    pub closed spec fn segments(&self) -> Seq<Seq<char>> {
        self.parts.deep_view()
    }

    /// The separator character used when rendering.
    pub closed spec fn separator_char(&self) -> char {
        self.separator
    }

    pub fn new(sep: char) -> (r: Self)
        ensures
            r.segments().len() == 0,
            r.separator_char() == sep,
    {
        Self { parts: Vec::new(), separator: sep }
    }

    /// A path is the document root exactly when it has no segments.
    pub fn is_root(&self) -> (r: bool)
        ensures
            r == (self.segments().len() == 0),
    {
        self.parts.len() == 0
    }

    /// Add a segment at the end, in place.
    pub fn push(&mut self, part: &str)
        ensures
            final(self).segments() == old(self).segments().push(part@),
            final(self).separator_char() == old(self).separator_char(),
    {
        self.parts.push(part.to_owned());
        proof {
            assert(self.segments() =~= old(self).segments().push(part@));
        }
    }

    /// Remove and return the last segment; `None` when the path is the root.
    pub fn pop(&mut self) -> (r: Option<String>)
        ensures
            final(self).separator_char() == old(self).separator_char(),
            old(self).segments().len() == 0 ==> r is None && final(self).segments() == old(
                self,
            ).segments(),
            old(self).segments().len() > 0 ==> (r matches Some(s) && s@ == old(
                self,
            ).segments().last() && final(self).segments() == old(self).segments().drop_last()),
    {
        let r = self.parts.pop();
        proof {
            if old(self).parts@.len() > 0 {
                assert(self.segments() =~= old(self).segments().drop_last());
            } else {
                assert(self.segments() =~= old(self).segments());
            }
        }
        r
    }

    /// A new path equal to this one with `part` appended; this path is left
    /// unchanged. The form used when recursing into children, so sibling
    /// branches do not see each other's segments.
    pub fn extend(&self, part: &str) -> (r: Self)
        ensures
            r.segments() == self.segments().push(part@),
            r.separator_char() == self.separator_char(),
    {
        let mut new = self.clone();
        new.push(part);
        new
    }

    /// The segments joined by the separator character.
    pub fn render(&self) -> (r: String)
        ensures
            r@ == join_segments(self.segments(), self.separator_char()),
    {
        let mut out = String::new();
        let mut i: usize = 0;
        while i < self.parts.len()
            invariant
                i <= self.parts@.len(),
                out@ == join_segments(self.segments().take(i as int), self.separator_char()),
            decreases self.parts@.len() - i,
        {
            if i > 0 {
                crate::text::push_char(&mut out, self.separator);
            }
            out.append(self.parts[i].as_str());
            proof {
                let segs = self.segments();
                assert(segs.take(i + 1).drop_last() =~= segs.take(i as int));
                assert(segs.take(i + 1).last() == segs[i as int]);
            }
            i = i + 1;
        }
        proof {
            assert(self.segments().take(self.parts@.len() as int) =~= self.segments());
        }
        out
    }
}

impl Clone for Path {
    fn clone(&self) -> (r: Self)
        ensures
            r.segments() == self.segments(),
            r.separator_char() == self.separator_char(),
    {
        let parts = self.parts.clone();
        proof {
            broadcast use vstd::std_specs::vec::vec_clone_deep_view_proof;

            assert(parts.deep_view() =~= self.parts.deep_view());
        }
        Path { parts, separator: self.separator }
    }
}

impl PartialEq for Path {
    /// Two paths are equal when their segments are; the separator is a
    /// rendering concern, not identity.
    fn eq(&self, other: &Self) -> (r: bool) {
        let n = self.parts.len();
        if n != other.parts.len() {
            proof {
                assert(self.segments().len() == self.parts@.len());
                assert(other.segments().len() == other.parts@.len());
            }
            return false;
        }
        let mut i: usize = 0;
        while i < n
            invariant
                i <= n,
                n == self.parts@.len(),
                n == other.parts@.len(),
                forall|j: int| 0 <= j < i ==> self.segments()[j] == other.segments()[j],
            decreases n - i,
        {
            if !(self.parts[i] == other.parts[i]) {
                assert(self.segments()[i as int] != other.segments()[i as int]);
                return false;
            }
            i = i + 1;
        }
        proof {
            assert(self.segments() =~= other.segments());
        }
        true
    }
}

impl vstd::std_specs::cmp::PartialEqSpecImpl for Path {
    open spec fn obeys_eq_spec() -> bool {
        true
    }

    open spec fn eq_spec(&self, other: &Self) -> bool {
        self.segments() == other.segments()
    }
}

impl Default for Path {
    /// The default path is the document root, rendered with `/`.
    fn default() -> (r: Self)
        ensures
            r.segments().len() == 0,
            r.separator_char() == '/',
    {
        Self { parts: Vec::new(), separator: '/' }
    }
}

} // verus!
