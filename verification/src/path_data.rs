//! A filesystem entry path, held as its display text.

use vstd::prelude::*;

verus! {

/// A path to a filesystem entry, stored as the text it is displayed with.
///
/// The listing identifies an entry by this text alone: substring filtering
/// is case-sensitive and works over the text's characters (Unicode code
/// points), exactly the characters a user sees in the list.
#[derive(Debug)]
pub struct PathData {
    text: String,
}

impl View for PathData {
    type V = Seq<char>;

    closed spec fn view(&self) -> Seq<char> {
        self.text@
    }
}

impl PathData {
    /// Wrap a display text as a path value.
    pub fn new(text: String) -> (r: Self)
        ensures
            r@ == text@,
    {
        PathData { text }
    }

    /// The display text of the path.
    pub fn as_text(&self) -> (r: &str)
        ensures
            r@ == self@,
    {
        self.text.as_str()
    }

    /// Two paths are the same exactly when their display texts agree.
    pub fn same(&self, other: &Self) -> (r: bool)
        ensures
            r == (self@ == other@),
    {
        self.text == other.text
    }
}

impl Clone for PathData {
    fn clone(&self) -> (r: Self)
        ensures
            r == *self,
    {
        PathData { text: self.text.clone() }
    }
}

} // verus!
