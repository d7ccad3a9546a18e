//! Closing a shared library failed.

use vstd::prelude::*;

verus! {

/// A library could not be closed, with the underlying cause.
#[derive(Debug)]
pub struct LibraryClose {
    /// The rendered text of the underlying failure.
    pub cause: String,
}

impl LibraryClose {
    /// Records a failed close together with its cause.
    pub fn new(cause: String) -> (r: LibraryClose)
        ensures
            r.cause@ == cause@,
    {
        LibraryClose { cause }
    }

    /// The full message: a fixed fragment followed by the cause.
    pub fn to_text(&self) -> (r: String)
        ensures
            r@ == "Closing the library failed with the error: "@ + self.cause@,
    {
        let mut s = String::from_str("Closing the library failed with the error: ");
        s.append(self.cause.as_str());
        s
    }
}

} // verus!
