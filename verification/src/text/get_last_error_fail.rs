//! Message fragments for the failure where the Windows error query itself
//! reported success after a failing call.

use vstd::prelude::*;

verus! {

/// What [`description`] returns.
pub open spec fn description_spec() -> Seq<char> {
    "A call to a native Windows function failed without specifying a reason."@
}

/// What [`display_1`] returns.
pub open spec fn display_1_spec() -> Seq<char> {
    "A call to a native windows function failed. While calling the kernel32 function, '"@
}

/// What [`display_2`] returns.
pub open spec fn display_2_spec() -> Seq<char> {
    "', the call failed but kernel32::GetLastError() reported success."@
}

/// A short description of this failure kind.
pub fn description() -> (r: &'static str)
    ensures
        r@ == description_spec(),
{
    "A call to a native Windows function failed without specifying a reason."
}

/// The message fragment that precedes the name of the function called.
pub fn display_1() -> (r: &'static str)
    ensures
        r@ == display_1_spec(),
{
    "A call to a native windows function failed. While calling the kernel32 function, '"
}

/// The message fragment that follows the name of the function called.
pub fn display_2() -> (r: &'static str)
    ensures
        r@ == display_2_spec(),
{
    "', the call failed but kernel32::GetLastError() reported success."
}

} // verus!
