//! The sum of the structured error kinds, as surfaced by the tracked library
//! layer.

use vstd::prelude::*;
use crate::error::get_last_error::GetLastError;
use crate::error::get_last_error_fail::GetLastErrorFail;
use crate::error::library_close::LibraryClose;
use crate::error::library_find_symbol::LibraryFindSymbol;
use crate::error::library_open::LibraryOpen;
use crate::error::os_error::OsError;
use crate::error::os_error_failure::OsErrorFailure;

verus! {

/// Any of the structured failures of the tracked library layer.
#[derive(Debug)]
pub enum SharedlibError {
    /// Closing a library failed.
    LibraryClose(LibraryClose),
    /// Finding a symbol failed.
    LibraryFindSymbol(LibraryFindSymbol),
    /// Opening a library failed.
    LibraryOpen(LibraryOpen),
    /// A native call failed with a reported cause.
    OsError(OsError),
    /// A native call failed and the operating system reported success.
    OsErrorFailure(OsErrorFailure),
    /// A native Windows call failed with a reported cause.
    GetLastError(GetLastError),
    /// A native Windows call failed and the last-error query reported success.
    GetLastErrorFail(GetLastErrorFail),
}

/// The result type of the tracked library layer.
pub type SharedlibResult<T> = Result<T, SharedlibError>;

} // verus!
