//! An error that keeps only the text of whichever failure occurred, so that
//! failures of different kinds compare and hash alike.
use vstd::prelude::*;

verus! {

#[derive(Clone, Debug, PartialEq, Eq, Hash)]
pub struct ChalkError {
    error_text: String,
}

impl View for ChalkError {
    type V = Seq<char>;

    closed spec fn view(&self) -> Seq<char> {
        self.error_text@
    }
}

impl ChalkError {
    /// An error whose text is `text`.
    pub fn from_text(text: String) -> (r: ChalkError)
        ensures
            r@ == text@,
    {
        ChalkError { error_text: text }
    }

    /// The error's text.
    pub fn to_string(&self) -> (r: String)
        ensures
            r@ == self@,
    {
        self.error_text.clone()
    }
}

} // verus!
