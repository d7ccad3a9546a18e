//! A native Windows call failed, yet the last-error query reported success.

use vstd::prelude::*;
use crate::text;

verus! {

/// A call to a native Windows function failed but the last-error query
/// reported success: the Windows "silent failure" marker.
#[derive(Debug)]
pub struct GetLastErrorFail {
    /// The name of the native function whose call failed.
    pub function_called: String,
}

impl GetLastErrorFail {
    /// Records which native Windows function failed without a reported reason.
    pub fn new(function_called: String) -> (r: GetLastErrorFail)
        ensures
            r.function_called@ == function_called@,
    {
        GetLastErrorFail { function_called }
    }

    /// The full message: the fixed fragments around the function name.
    pub fn to_text(&self) -> (r: String)
        ensures
            r@ == text::get_last_error_fail::display_1_spec() + self.function_called@
                + text::get_last_error_fail::display_2_spec(),
    {
        let mut s = String::from_str(text::get_last_error_fail::display_1());
        s.append(self.function_called.as_str());
        s.append(text::get_last_error_fail::display_2());
        s
    }
}

} // verus!
