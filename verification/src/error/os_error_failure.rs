//! A native call failed, yet the operating system's error query reported
//! success: the "silent failure" marker of the error taxonomy.

use vstd::prelude::*;
use crate::text;

verus! {

/// A call to a native function failed but the operating system reported
/// success when its error state was queried.
#[derive(Debug)]
pub struct OsErrorFailure {
    /// The name of the native function whose call failed.
    pub function_called: String,
}

impl OsErrorFailure {
    /// Records which native function failed without a reported reason.
    pub fn new(function_called: String) -> (r: OsErrorFailure)
        ensures
            r.function_called@ == function_called@,
    {
        OsErrorFailure { function_called }
    }

    /// The full message: the fixed fragments around the function name.
    pub fn to_text(&self) -> (r: String)
        ensures
            r@ == text::os_error_failure::display_1_spec() + self.function_called@
                + text::os_error_failure::display_2_spec(),
    {
        let mut s = String::from_str(text::os_error_failure::display_1());
        s.append(self.function_called.as_str());
        s.append(text::os_error_failure::display_2());
        s
    }
}

} // verus!
