//! Arguments that accept either an owned or a borrowed string.
use vstd::prelude::*;

verus! {

/// A string value that can be turned into an owned `String`.
pub trait ToOwnedString: Sized {
    /// The characters of the value.
    spec fn text(&self) -> Seq<char>;

    /// The value as an owned `String` with the same characters.
    fn to_owned_string(self) -> (r: String)
        ensures
            r@ == self.text(),
    ;
}

impl ToOwnedString for String {
    open spec fn text(&self) -> Seq<char> {
        self@
    }

    fn to_owned_string(self) -> (r: String) {
        self
    }
}

impl<'a> ToOwnedString for &'a str {
    open spec fn text(&self) -> Seq<char> {
        (*self)@
    }

    fn to_owned_string(self) -> (r: String) {
        self.to_owned()
    }
}

} // verus!
