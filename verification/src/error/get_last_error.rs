//! The Windows error query reported a cause for a failing native call.

use vstd::prelude::*;

verus! {

/// A call to a native Windows function failed, with the diagnostic obtained
/// through the last-error query.
#[derive(Debug)]
pub struct GetLastError {
    /// The diagnostic text for the reported error code, already rendered.
    pub cause: String,
    /// The name of the native function whose call failed.
    pub function_called: String,
}

impl GetLastError {
    /// Records a native Windows failure together with its reported cause.
    pub fn new(cause: String, function_called: String) -> (r: GetLastError)
        ensures
            r.cause@ == cause@,
            r.function_called@ == function_called@,
    {
        GetLastError { cause, function_called }
    }

    /// The full message: the function name and the cause, between fixed
    /// fragments.
    pub fn to_text(&self) -> (r: String)
        ensures
            r@ == "A call to a native windows function failed. While calling the kernel32 function, '"@
                + self.function_called@ + "', the call failed with the error: "@ + self.cause@,
    {
        let mut s = String::from_str(
            "A call to a native windows function failed. While calling the kernel32 function, '",
        );
        s.append(self.function_called.as_str());
        s.append("', the call failed with the error: ");
        s.append(self.cause.as_str());
        s
    }
}

} // verus!
