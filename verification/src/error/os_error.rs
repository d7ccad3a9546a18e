//! A native call failed and the operating system reported a cause.

use vstd::prelude::*;

verus! {

/// A call to a native function failed, with the diagnostic the operating
/// system gave for it.
#[derive(Debug)]
pub struct OsError {
    /// The diagnostic text the operating system reported, already rendered.
    pub cause: String,
    /// The name of the native function whose call failed.
    pub function_called: String,
}

impl OsError {
    /// Records a native failure together with its reported cause.
    pub fn new(cause: String, function_called: String) -> (r: OsError)
        ensures
            r.cause@ == cause@,
            r.function_called@ == function_called@,
    {
        OsError { cause, function_called }
    }

    /// The full message: the function name and the cause, between fixed
    /// fragments.
    pub fn to_text(&self) -> (r: String)
        ensures
            r@ == "A call to the native function, '"@ + self.function_called@
                + "', failed with the error: "@ + self.cause@,
    {
        let mut s = String::from_str("A call to the native function, '");
        s.append(self.function_called.as_str());
        s.append("', failed with the error: ");
        s.append(self.cause.as_str());
        s
    }
}

} // verus!
