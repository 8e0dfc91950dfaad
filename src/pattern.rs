//! Patterns: selectors that pick messages out of a resolved prompt.

use vstd::prelude::*;

verus! {

/// An identifier attached to messages so that they can be selected later.
/// Two patterns match when their identifiers are the same text.
#[derive(Debug)]
pub struct Pattern {
    id: String,
}

impl View for Pattern {
    type V = Seq<char>;

    closed spec fn view(&self) -> Seq<char> {
        self.id@
    }
}

impl Pattern {
    /// A pattern with the identifier `id`.
    pub fn new(id: &str) -> (r: Pattern)
        ensures
            r@ == id@,
    {
        Pattern { id: id.to_owned() }
    }

    /// The identifier of this pattern.
    pub fn id(&self) -> (r: &str)
        ensures
            r@ == self@,
    {
        self.id.as_str()
    }

    /// Whether this pattern selects what `other` selects.
    pub fn matches(&self, other: &Pattern) -> (r: bool)
        ensures
            r == (self@ == other@),
    {
        self.id == other.id
    }
}

impl Clone for Pattern {
    fn clone(&self) -> (r: Self)
        ensures
            r == *self,
    {
        Pattern { id: self.id.clone() }
    }
}

} // verus!
