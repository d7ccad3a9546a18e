//! Opening a shared library failed.

use vstd::prelude::*;

verus! {

/// A library could not be opened, with the underlying cause and the path that
/// was being opened.
#[derive(Debug)]
pub struct LibraryOpen {
    /// The rendered text of the underlying failure.
    pub cause: String,
    /// The path of the library that could not be opened.
    pub path_to_lib: String,
}

impl LibraryOpen {
    /// Records a failed open together with its cause and the path.
    pub fn new(cause: String, path_to_lib: String) -> (r: LibraryOpen)
        ensures
            r.cause@ == cause@,
            r.path_to_lib@ == path_to_lib@,
    {
        LibraryOpen { cause, path_to_lib }
    }

    /// The full message: the path and the cause, between fixed fragments.
    pub fn to_text(&self) -> (r: String)
        ensures
            r@ == "Opening the library, '"@ + self.path_to_lib@
                + "', failed with the error: "@ + self.cause@,
    {
        let mut s = String::from_str("Opening the library, '");
        s.append(self.path_to_lib.as_str());
        s.append("', failed with the error: ");
        s.append(self.cause.as_str());
        s
    }
}

} // verus!
