//! Finding a symbol in an open shared library failed.

use vstd::prelude::*;

verus! {

/// A symbol could not be found, with the underlying cause and the name that
/// was being looked up.
#[derive(Debug)]
pub struct LibraryFindSymbol {
    /// The rendered text of the underlying failure.
    pub cause: String,
    /// The name of the symbol that could not be found.
    pub symbol: String,
}

impl LibraryFindSymbol {
    /// Records a failed lookup together with its cause and the symbol name.
    pub fn new(cause: String, symbol: String) -> (r: LibraryFindSymbol)
        ensures
            r.cause@ == cause@,
            r.symbol@ == symbol@,
    {
        LibraryFindSymbol { cause, symbol }
    }

    /// The full message: the symbol name and the cause, between fixed
    /// fragments.
    pub fn to_text(&self) -> (r: String)
        ensures
            r@ == "Finding the symbol, '"@ + self.symbol@
                + "', failed with the error: "@ + self.cause@,
    {
        let mut s = String::from_str("Finding the symbol, '");
        s.append(self.symbol.as_str());
        s.append("', failed with the error: ");
        s.append(self.cause.as_str());
        s
    }
}

} // verus!
