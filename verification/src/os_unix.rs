//! The POSIX-family error-normalization layer: pure decision functions that
//! turn the outcome of one guarded native call (`dlopen`, `dlsym`, `dlclose`)
//! and what the serialized `dlerror` query reported into a typed result.
//!
//! The host shell performs the native call while holding the process-wide
//! error lock, queries `dlerror` only when the call signalled failure, copies
//! the diagnostic text out of the native buffer before releasing the lock, and
//! hands both observations here. A null handle or address is passed as `0`; a
//! null diagnostic pointer is passed as `None`.

use vstd::prelude::*;
use crate::cstr::c_buffer_of;
use crate::cstr::lemma_terminator_round_trip;
use crate::error::DlError;
use crate::error::Error;

verus! {

/// Load flag requesting deferred (lazy) resolution of the module's external
/// references.
pub const RTLD_LAZY: i32 = 1;

/// Load flag requesting immediate resolution of all of the module's external
/// references, so linking errors surface at open time.
pub const RTLD_NOW: i32 = 2;

/// What an open call decides: a non-null handle is a success; a null handle is
/// a failure, carrying the diagnostic when the error query reported one and
/// marked silent when it did not.
pub open spec fn dlopen_decision(handle: u64, diag: Option<Vec<u8>>) -> Result<u64, Error> {
    if handle != 0 {
        Ok(handle)
    } else {
        match diag {
            Some(d) => Err(Error::DlOpen { source: DlError { message: d } }),
            None => Err(Error::DlOpenUnknown),
        }
    }
}

/// What a symbol lookup decides: a non-null address is a success; a null
/// address is a failure only when the error query actually reported text, and
/// is otherwise a success whose value is a genuine null (a symbol whose value
/// is null is legitimate on this family).
pub open spec fn dlsym_decision(address: u64, diag: Option<Vec<u8>>) -> Result<u64, Error> {
    if address != 0 {
        Ok(address)
    } else {
        match diag {
            Some(d) => Err(Error::DlSym { source: DlError { message: d } }),
            None => Ok(0),
        }
    }
}

/// What a close call decides: a zero return code is a success; anything else
/// is a failure, carrying the diagnostic when one was reported.
pub open spec fn dlclose_decision(code: i32, diag: Option<Vec<u8>>) -> Result<(), Error> {
    if code == 0 {
        Ok(())
    } else {
        match diag {
            Some(d) => Err(Error::DlClose { source: DlError { message: d } }),
            None => Err(Error::DlCloseUnknown),
        }
    }
}

/// Normalize the outcome of one open call.
pub fn dlopen_outcome(handle: u64, diag: Option<Vec<u8>>) -> (r: Result<u64, Error>)
    ensures
        r == dlopen_decision(handle, diag),
{
    if handle != 0 {
        Ok(handle)
    } else {
        match diag {
            Some(d) => Err(Error::DlOpen { source: DlError { message: d } }),
            None => Err(Error::DlOpenUnknown),
        }
    }
}

/// Normalize the outcome of one symbol lookup.
pub fn dlsym_outcome(address: u64, diag: Option<Vec<u8>>) -> (r: Result<u64, Error>)
    ensures
        r == dlsym_decision(address, diag),
{
    if address != 0 {
        Ok(address)
    } else {
        match diag {
            Some(d) => Err(Error::DlSym { source: DlError { message: d } }),
            None => Ok(0),
        }
    }
}

/// Normalize the outcome of one close call.
pub fn dlclose_outcome(code: i32, diag: Option<Vec<u8>>) -> (r: Result<(), Error>)
    ensures
        r == dlclose_decision(code, diag),
{
    if code == 0 {
        Ok(())
    } else {
        match diag {
            Some(d) => Err(Error::DlClose { source: DlError { message: d } }),
            None => Err(Error::DlCloseUnknown),
        }
    }
}

/// An open that produced a handle, followed by a close whose return code is
/// zero, both succeed: neither step reports an error, whatever the error query
/// held at either point.
pub proof fn lemma_open_then_close_no_error(
    handle: u64,
    open_diag: Option<Vec<u8>>,
    close_diag: Option<Vec<u8>>,
)
    requires
        handle != 0,
    ensures
        dlopen_decision(handle, open_diag) == Ok::<u64, Error>(handle),
        dlclose_decision(0, close_diag) == Ok::<(), Error>(()),
{
}

/// A failed open is always identified as an open failure: the error carries
/// the diagnostic when one was reported and is the silent open-failure marker
/// when none was; no other variant can come out, and no handle is produced.
pub proof fn lemma_failed_open_identified(diag: Option<Vec<u8>>)
    ensures
        dlopen_decision(0, diag) is Err,
        diag matches Some(d) ==> dlopen_decision(0, diag) == Err::<u64, Error>(
            Error::DlOpen { source: DlError { message: d } },
        ),
        diag is None ==> dlopen_decision(0, diag) == Err::<u64, Error>(Error::DlOpenUnknown),
{
}

/// Looking up an absent symbol fails the same way with and without an
/// explicit trailing terminator: for a name free of terminator elements, both
/// forms prepare the same native buffer, and a null result with a reported
/// diagnostic yields the find-failure error carrying that diagnostic.
pub proof fn lemma_absent_symbol_fails_either_form(name: Seq<u8>, diag: Vec<u8>)
    requires
        forall|i: int| 0 <= i < name.len() ==> name[i] != 0,
    ensures
        c_buffer_of(name) == c_buffer_of(name.push(0)),
        dlsym_decision(0, Some(diag)) == Err::<u64, Error>(
            Error::DlSym { source: DlError { message: diag } },
        ),
{
    lemma_terminator_round_trip(name);
}

/// A lookup that produced an address returns exactly that address; a lookup
/// that produced null fails exactly when the error query reported text, and is
/// otherwise a success whose value is null.
pub proof fn lemma_lookup_characterized(address: u64, diag: Option<Vec<u8>>)
    ensures
        address != 0 ==> dlsym_decision(address, diag) == Ok::<u64, Error>(address),
        address == 0 && diag is Some ==> dlsym_decision(address, diag) == Err::<u64, Error>(
            Error::DlSym { source: DlError { message: diag->Some_0 } },
        ),
        address == 0 && diag is None ==> dlsym_decision(address, diag) == Ok::<u64, Error>(0),
{
}

} // verus!
