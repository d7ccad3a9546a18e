//! The Windows-family layer: the platform Library and Symbol models and the
//! pure decision functions that turn the outcome of one guarded native call
//! (`LoadLibraryExW`, `GetModuleHandleExW`, `GetProcAddress`, `FreeLibrary`)
//! and the value the serialized `GetLastError` query reported into a typed
//! result.
//!
//! The host shell performs the native call while holding the process-wide
//! error lock, reads the last-error value only when the call signalled
//! failure, and hands both observations here. A null handle or address is
//! passed as `0`; `FreeLibrary` and `GetModuleHandleExW` report success with a
//! nonzero return code (the convention inverse of the POSIX close).

use core::marker::PhantomData;
use vstd::prelude::*;
use vstd::layout::size_of;
use crate::as_symbol_name::terminated_name;
use crate::cstr::c_buffer_of;
use crate::cstr::has_interior_null;
use crate::error::Error;
use crate::error::WindowsError;
use crate::error::os_error::OsError;
use crate::error::os_error_failure::OsErrorFailure;
use crate::error::sharedlib_error::SharedlibError;
use crate::error::sharedlib_error::SharedlibResult;
use crate::util::ensure_compatible_types;

verus! {

/// What a load call decides: a non-null handle is a success; a null handle is
/// a failure, carrying the last-error value when it was nonzero and marked
/// silent when it was zero.
pub open spec fn load_library_decision(handle: u64, error_code: u32) -> Result<u64, Error> {
    if handle != 0 {
        Ok(handle)
    } else if error_code != 0 {
        Err(Error::LoadLibraryExW { source: WindowsError { code: error_code } })
    } else {
        Err(Error::LoadLibraryExWUnknown)
    }
}

/// What the own-module query decides: a nonzero return code is a success
/// yielding the handle it filled in; a zero return code is a failure, carrying
/// the last-error value when it was nonzero.
pub open spec fn module_handle_decision(ret: i32, handle: u64, error_code: u32) -> Result<
    u64,
    Error,
> {
    if ret != 0 {
        Ok(handle)
    } else if error_code != 0 {
        Err(Error::GetModuleHandleExW { source: WindowsError { code: error_code } })
    } else {
        Err(Error::GetModuleHandleExWUnknown)
    }
}

/// What a symbol lookup decides: a non-null address is a success; a null
/// address is a failure (this family has no null-valued symbols), carrying the
/// last-error value when it was nonzero.
pub open spec fn get_proc_decision(address: u64, error_code: u32) -> Result<u64, Error> {
    if address != 0 {
        Ok(address)
    } else if error_code != 0 {
        Err(Error::GetProcAddress { source: WindowsError { code: error_code } })
    } else {
        Err(Error::GetProcAddressUnknown)
    }
}

/// What a close call decides: a nonzero return code is a success; a zero
/// return code is a failure, carrying the last-error value when it was
/// nonzero.
pub open spec fn free_library_decision(ret: i32, error_code: u32) -> Result<(), Error> {
    if ret != 0 {
        Ok(())
    } else if error_code != 0 {
        Err(Error::FreeLibrary { source: WindowsError { code: error_code } })
    } else {
        Err(Error::FreeLibraryUnknown)
    }
}

/// A load that produced a handle, followed by a close whose return code is
/// nonzero (this family's success convention), both succeed: neither step
/// reports an error, whatever the last-error value held at either point.
pub proof fn lemma_load_then_free_no_error(handle: u64, open_code: u32, close_code: u32)
    requires
        handle != 0,
    ensures
        load_library_decision(handle, open_code) == Ok::<u64, Error>(handle),
        free_library_decision(1, close_code) == Ok::<(), Error>(()),
{
}

/// A failed load is always identified as a load failure: the error carries the
/// last-error value when it was nonzero and is the silent load-failure marker
/// when it was zero; no other variant can come out, and no handle is produced.
pub proof fn lemma_failed_load_identified(error_code: u32)
    ensures
        load_library_decision(0, error_code) is Err,
        error_code != 0 ==> load_library_decision(0, error_code) == Err::<u64, Error>(
            Error::LoadLibraryExW { source: WindowsError { code: error_code } },
        ),
        error_code == 0 ==> load_library_decision(0, error_code) == Err::<u64, Error>(
            Error::LoadLibraryExWUnknown,
        ),
{
}

/// The error-mode value that suppresses the blocking failure dialogs while a
/// library is being loaded.
pub const SEM_FAILCRITICALERRORS: u32 = 1;

/// The last-error value reporting that the thread-scoped error-mode call is
/// not implemented on this system.
pub const ERROR_CALL_NOT_IMPLEMENTED: u32 = 120;

/// What the error-mode suppression guard must do on exit, decided when the
/// suppression is acquired.
#[derive(Debug, PartialEq, Eq, Structural)]
pub enum ErrorModePlan {
    /// Suppression was acquired; restore the recorded previous mode on every
    /// exit path.
    RestoreMode(u32),
    /// Suppression was already in force, or could not be acquired safely;
    /// leave the mode untouched on exit.
    NothingToRestore,
    /// The thread-scoped mechanism is unavailable on this system; fall back to
    /// the process-scoped call, and remember the fallback for later
    /// acquisitions.
    UseProcessScoped,
}

/// What acquiring the thread-scoped error-mode suppression decides, from the
/// outcome of the native call: on an unimplemented-call failure the guard
/// falls back to the process-scoped mechanism; on any other failure it leaves
/// the mode untouched (the worst outcome is a visible dialog); on success it
/// restores the previous mode on exit unless that mode already was the
/// suppression value.
pub open spec fn thread_mode_decision(ok: bool, last_error: u32, previous_mode: u32) -> ErrorModePlan {
    if !ok && last_error == ERROR_CALL_NOT_IMPLEMENTED {
        ErrorModePlan::UseProcessScoped
    } else if !ok {
        ErrorModePlan::NothingToRestore
    } else if previous_mode == SEM_FAILCRITICALERRORS {
        ErrorModePlan::NothingToRestore
    } else {
        ErrorModePlan::RestoreMode(previous_mode)
    }
}

/// Decide the guard's exit duty from the thread-scoped acquisition's outcome.
pub fn thread_mode_outcome(ok: bool, last_error: u32, previous_mode: u32) -> (r: ErrorModePlan)
    ensures
        r == thread_mode_decision(ok, last_error, previous_mode),
{
    if !ok && last_error == ERROR_CALL_NOT_IMPLEMENTED {
        ErrorModePlan::UseProcessScoped
    } else if !ok {
        ErrorModePlan::NothingToRestore
    } else if previous_mode == SEM_FAILCRITICALERRORS {
        ErrorModePlan::NothingToRestore
    } else {
        ErrorModePlan::RestoreMode(previous_mode)
    }
}

/// What acquiring the process-scoped error-mode suppression decides, from the
/// mode the native call swapped out: restore it on exit unless it already was
/// the suppression value (leaving a concurrent acquirer's suppression in
/// force).
pub open spec fn process_mode_decision(previous_mode: u32) -> ErrorModePlan {
    if previous_mode == SEM_FAILCRITICALERRORS {
        ErrorModePlan::NothingToRestore
    } else {
        ErrorModePlan::RestoreMode(previous_mode)
    }
}

/// Decide the guard's exit duty from the process-scoped acquisition's outcome.
pub fn process_mode_outcome(previous_mode: u32) -> (r: ErrorModePlan)
    ensures
        r == process_mode_decision(previous_mode),
{
    if previous_mode == SEM_FAILCRITICALERRORS {
        ErrorModePlan::NothingToRestore
    } else {
        ErrorModePlan::RestoreMode(previous_mode)
    }
}

/// Normalize a failing call's outcome into the structured taxonomy: the
/// carried value when the call produced one; otherwise the reported cause for
/// a nonzero last-error value, and the silent-failure marker for a zero one.
pub fn ok_or_get_last_error<T>(
    value: Option<T>,
    function_called: String,
    error_code: u32,
    cause: String,
) -> (r: SharedlibResult<T>)
    ensures
        match value {
            Some(v) => r matches Ok(x) && x == v,
            None => {
                if error_code != 0 {
                    r == Err::<T, SharedlibError>(
                        SharedlibError::OsError(OsError { cause, function_called }),
                    )
                } else {
                    r == Err::<T, SharedlibError>(
                        SharedlibError::OsErrorFailure(OsErrorFailure { function_called }),
                    )
                }
            },
        },
{
    match value {
        Some(v) => Ok(v),
        None => {
            if error_code != 0 {
                Err(SharedlibError::OsError(OsError { cause, function_called }))
            } else {
                Err(SharedlibError::OsErrorFailure(OsErrorFailure { function_called }))
            }
        },
    }
}

/// The Windows-family counterpart of the cross-platform library handle: it
/// owns the native module handle, which is non-null for as long as the value
/// exists.
#[derive(Debug)]
pub struct Library {
    handle: u64,
}

impl Library {
    /// The native module handle this value owns.
    pub closed spec fn spec_handle(&self) -> u64 {
        self.handle
    }

    /// A handle is valid when it is non-null.
    pub open spec fn wf(&self) -> bool {
        self.spec_handle() != 0
    }

    /// Normalize the outcome of one load call into a library handle.
    pub fn from_load_event(handle: u64, error_code: u32) -> (r: Result<Library, Error>)
        ensures
            match r {
                Ok(l) => load_library_decision(handle, error_code) == Ok::<u64, Error>(
                    l.spec_handle(),
                ) && l.wf(),
                Err(e) => load_library_decision(handle, error_code) == Err::<u64, Error>(e),
            },
    {
        if handle != 0 {
            Ok(Library { handle })
        } else if error_code != 0 {
            Err(Error::LoadLibraryExW { source: WindowsError { code: error_code } })
        } else {
            Err(Error::LoadLibraryExWUnknown)
        }
    }

    /// Normalize the outcome of the own-module query into a library handle.
    ///
    /// The query can succeed while filling in a null handle only through a
    /// misbehaving native call; that anomaly is folded into the silent-failure
    /// variant rather than producing an invalid handle.
    pub fn from_module_handle_event(ret: i32, handle: u64, error_code: u32) -> (r: Result<
        Library,
        Error,
    >)
        ensures
            match r {
                Ok(l) => module_handle_decision(ret, handle, error_code) == Ok::<u64, Error>(
                    l.spec_handle(),
                ) && l.wf(),
                Err(e) => module_handle_decision(ret, handle, error_code) == Err::<u64, Error>(e)
                    || (ret != 0 && handle == 0 && e == Error::GetModuleHandleExWUnknown),
            },
    {
        if ret != 0 {
            if handle != 0 {
                Ok(Library { handle })
            } else {
                Err(Error::GetModuleHandleExWUnknown)
            }
        } else if error_code != 0 {
            Err(Error::GetModuleHandleExW { source: WindowsError { code: error_code } })
        } else {
            Err(Error::GetModuleHandleExWUnknown)
        }
    }

    /// Validate a symbol request before the native lookup: the requested type
    /// must fill a native pointer slot exactly, and the name must be free of
    /// embedded terminators. Returns the terminated buffer the lookup reads.
    pub fn get_request<T>(&self, symbol: &[u8]) -> (r: Result<Vec<u8>, Error>)
        ensures
            match r {
                Ok(b) => {
                    &&& size_of::<T>() == size_of::<usize>()
                    &&& !has_interior_null(symbol@)
                    &&& b@ == c_buffer_of(symbol@)
                },
                Err(e) => match e {
                    Error::IncompatibleSize => size_of::<T>() != size_of::<usize>(),
                    Error::InteriorZeroElements { position } => {
                        &&& size_of::<T>() == size_of::<usize>()
                        &&& 0 <= position < symbol@.len() - 1
                        &&& symbol@[position as int] == 0
                    },
                    _ => false,
                },
            },
    {
        match ensure_compatible_types::<T, usize>() {
            Err(e) => Err(e),
            Ok(()) => terminated_name(symbol),
        }
    }

    /// Validate an ordinal request before the native lookup: the requested
    /// type must fill a native pointer slot exactly. Returns the ordinal to
    /// look up.
    pub fn get_ordinal_request<T>(&self, ordinal: u16) -> (r: Result<u16, Error>)
        ensures
            match r {
                Ok(o) => size_of::<T>() == size_of::<usize>() && o == ordinal,
                Err(e) => size_of::<T>() != size_of::<usize>() && e is IncompatibleSize,
            },
    {
        match ensure_compatible_types::<T, usize>() {
            Err(e) => Err(e),
            Ok(()) => Ok(ordinal),
        }
    }

    /// Normalize the outcome of one symbol lookup against this library.
    pub fn get_outcome<T>(&self, address: u64, error_code: u32) -> (r: Result<Symbol<T>, Error>)
        ensures
            match r {
                Ok(s) => get_proc_decision(address, error_code) == Ok::<u64, Error>(
                    s.spec_address(),
                ),
                Err(e) => get_proc_decision(address, error_code) == Err::<u64, Error>(e),
            },
    {
        if address != 0 {
            Ok(Symbol { address, pd: PhantomData })
        } else if error_code != 0 {
            Err(Error::GetProcAddress { source: WindowsError { code: error_code } })
        } else {
            Err(Error::GetProcAddressUnknown)
        }
    }

    /// Give up ownership and hand the raw handle back to the caller, who then
    /// carries the responsibility of closing it.
    pub fn into_raw(self) -> (r: u64)
        ensures
            r == self.spec_handle(),
    {
        self.handle
    }

    /// Re-wrap a raw handle previously produced by a successful load or by
    /// [`Library::into_raw`]; such a handle is never null.
    pub fn from_raw(handle: u64) -> (r: Library)
        requires
            handle != 0,
        ensures
            r.spec_handle() == handle && r.wf(),
    {
        Library { handle }
    }

    /// Normalize the outcome of the close call, consuming the handle: a second
    /// close is impossible at the type level.
    pub fn close(self, ret: i32, error_code: u32) -> (r: Result<(), Error>)
        ensures
            r == free_library_decision(ret, error_code),
    {
        if ret != 0 {
            Ok(())
        } else if error_code != 0 {
            Err(Error::FreeLibrary { source: WindowsError { code: error_code } })
        } else {
            Err(Error::FreeLibraryUnknown)
        }
    }
}

/// A symbol retrieved from a Windows-family library: the raw address, tagged
/// with the type the caller asserted for it.
///
/// Unlike the cross-platform symbol, this value does not tie itself to the
/// library's lifetime; the caller keeps it from outliving the library.
#[derive(Debug)]
#[verifier::reject_recursive_types(T)]
pub struct Symbol<T> {
    address: u64,
    pd: PhantomData<T>,
}

impl<T> Symbol<T> {
    /// The raw address of the symbol.
    pub closed spec fn spec_address(&self) -> u64 {
        self.address
    }

    /// Give up the wrapper and hand the raw address back to the caller.
    pub fn into_raw(self) -> (r: u64)
        ensures
            r == self.spec_address(),
    {
        self.address
    }

    /// Re-wrap a raw address under a caller-asserted type.
    pub fn from_raw_address(address: u64) -> (r: Symbol<T>)
        ensures
            r.spec_address() == address,
    {
        Symbol { address, pd: PhantomData }
    }
}

impl<T> Symbol<Option<T>> {
    /// Lift the optionality of the wrapped type out of the wrapper: a null
    /// address becomes `None`, any other address keeps its value under the
    /// inner type.
    pub fn lift_option(self) -> (r: Option<Symbol<T>>)
        ensures
            match r {
                None => self.spec_address() == 0,
                Some(s) => self.spec_address() != 0 && s.spec_address() == self.spec_address(),
            },
    {
        if self.address == 0 {
            None
        } else {
            Some(Symbol { address: self.address, pd: PhantomData })
        }
    }
}

impl<T> Clone for Symbol<T> {
    /// Copy the wrapper; the clone refers to the same address.
    fn clone(&self) -> (r: Self)
        ensures
            r.spec_address() == self.spec_address(),
    {
        Symbol { address: self.address, pd: PhantomData }
    }
}

} // verus!
