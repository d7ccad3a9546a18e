//! The cross-platform safe layer: a library handle that is open by
//! construction and consumed by its close, and a symbol wrapper whose borrow
//! of the handle makes it impossible to use the symbol after the library is
//! gone.
//!
//! This layer follows the POSIX family's conventions for the native events it
//! normalizes (`dlopen`/`dlsym`/`dlclose` under the serialized `dlerror`
//! query); the Windows-family counterpart lives in [`crate::os_windows`].

use core::marker::PhantomData;
use vstd::prelude::*;
use vstd::layout::size_of;
use crate::as_symbol_name::terminated_name;
use crate::cstr::c_buffer_of;
use crate::cstr::has_interior_null;
use crate::error::Error;
use crate::os_unix::dlclose_decision;
use crate::os_unix::dlopen_decision;
use crate::os_unix::dlsym_decision;
use crate::util::ensure_compatible_types;

verus! {

/// A loaded dynamic library: it owns the native handle, which is non-null for
/// as long as the value exists, and is closed exactly once — by the explicit
/// [`Library::close`], or by the host shell's teardown when the value is
/// dropped without one.
#[derive(Debug)]
pub struct Library {
    handle: u64,
}

impl Library {
    /// The native handle this value owns.
    pub closed spec fn spec_handle(&self) -> u64 {
        self.handle
    }

    /// A handle is valid when it is non-null.
    pub open spec fn wf(&self) -> bool {
        self.spec_handle() != 0
    }

    /// Normalize the outcome of one open call into a library handle: on
    /// failure no handle is produced and the structured error says whether the
    /// system reported a reason.
    pub fn from_open_event(handle: u64, diag: Option<Vec<u8>>) -> (r: Result<Library, Error>)
        ensures
            match r {
                Ok(l) => dlopen_decision(handle, diag) == Ok::<u64, Error>(l.spec_handle())
                    && l.wf(),
                Err(e) => dlopen_decision(handle, diag) == Err::<u64, Error>(e),
            },
    {
        match crate::os_unix::dlopen_outcome(handle, diag) {
            Ok(h) => Ok(Library { handle: h }),
            Err(e) => Err(e),
        }
    }

    /// The raw handle, for handing to the next native call; ownership stays
    /// with this value.
    pub fn handle(&self) -> (r: u64)
        ensures
            r == self.spec_handle(),
    {
        self.handle
    }

    /// Validate a symbol request before the native lookup: the requested type
    /// must fill a native pointer slot exactly, and the name must be free of
    /// embedded terminators. Returns the terminated buffer the lookup reads.
    pub fn get_request<T>(&self, symbol: &[u8]) -> (r: Result<Vec<u8>, Error>)
        ensures
            match r {
                Ok(b) => {
                    &&& size_of::<T>() == size_of::<usize>()
                    &&& !has_interior_null(symbol@)
                    &&& b@ == c_buffer_of(symbol@)
                },
                Err(e) => match e {
                    Error::IncompatibleSize => size_of::<T>() != size_of::<usize>(),
                    Error::InteriorZeroElements { position } => {
                        &&& size_of::<T>() == size_of::<usize>()
                        &&& 0 <= position < symbol@.len() - 1
                        &&& symbol@[position as int] == 0
                    },
                    _ => false,
                },
            },
    {
        match ensure_compatible_types::<T, usize>() {
            Err(e) => Err(e),
            Ok(()) => terminated_name(symbol),
        }
    }

    /// Normalize the outcome of one symbol lookup into a symbol bound to this
    /// library's lifetime. A null address with no reported error is a genuine
    /// null-valued symbol and succeeds; [`Symbol::lift_option`] then makes the
    /// null observable.
    pub fn get_outcome<'lib, T>(&'lib self, address: u64, diag: Option<Vec<u8>>) -> (r: Result<
        Symbol<'lib, T>,
        Error,
    >)
        ensures
            match r {
                Ok(s) => dlsym_decision(address, diag) == Ok::<u64, Error>(s.spec_address()),
                Err(e) => dlsym_decision(address, diag) == Err::<u64, Error>(e),
            },
    {
        match crate::os_unix::dlsym_outcome(address, diag) {
            Ok(a) => Ok(Symbol { address: a, pd: PhantomData }),
            Err(e) => Err(e),
        }
    }

    /// Normalize the outcome of the close call, consuming the handle: a second
    /// close is impossible at the type level, and no symbol borrowing this
    /// library can survive the call.
    pub fn close(self, code: i32, diag: Option<Vec<u8>>) -> (r: Result<(), Error>)
        ensures
            r == dlclose_decision(code, diag),
    {
        crate::os_unix::dlclose_outcome(code, diag)
    }

    /// Give up ownership and hand the raw handle back to the caller, who then
    /// carries the responsibility of closing it.
    pub fn into_raw(self) -> (r: u64)
        ensures
            r == self.spec_handle(),
    {
        self.handle
    }

    /// Re-wrap a raw handle previously produced by a successful open or by
    /// [`Library::into_raw`]; such a handle is never null.
    pub fn from_raw(handle: u64) -> (r: Library)
        requires
            handle != 0,
        ensures
            r.spec_handle() == handle && r.wf(),
    {
        Library { handle }
    }
}

/// A symbol from a library: the raw address, tagged with the type the caller
/// asserted for it, and borrowing the library it came from so that it cannot
/// outlive it.
///
/// The type `T` is never checked against the exported symbol's real type;
/// asserting it is the caller's responsibility.
#[derive(Debug)]
#[verifier::reject_recursive_types(T)]
pub struct Symbol<'lib, T> {
    address: u64,
    pd: PhantomData<&'lib T>,
}

impl<'lib, T> Symbol<'lib, T> {
    /// The raw address of the symbol.
    pub closed spec fn spec_address(&self) -> u64 {
        self.address
    }

    /// Give up the lifetime binding and hand the raw address back to the
    /// caller, who then keeps it from outliving the library.
    pub fn into_raw(self) -> (r: u64)
        ensures
            r == self.spec_address(),
    {
        self.address
    }

    /// Re-wrap a raw address, borrowing the library it was loaded from. The
    /// caller asserts that `library` really is that library; the borrow is
    /// what ties the new wrapper's validity to it.
    pub fn from_raw<L>(address: u64, library: &'lib L) -> (r: Symbol<'lib, T>)
        ensures
            r.spec_address() == address,
    {
        let _ = library;
        Symbol { address, pd: PhantomData }
    }

    /// The raw address, without giving up the wrapper. Success does not depend
    /// on the platform here: the address is always available.
    pub fn try_as_raw_ptr(self) -> (r: Option<u64>)
        ensures
            r == Some(self.spec_address()),
    {
        Some(self.address)
    }
}

impl<'lib, T> Symbol<'lib, Option<T>> {
    /// Lift the optionality of the wrapped type out of the wrapper: a null
    /// address becomes `None`, any other address keeps its value under the
    /// inner type, still bound to the library's lifetime.
    pub fn lift_option(self) -> (r: Option<Symbol<'lib, T>>)
        ensures
            match r {
                None => self.spec_address() == 0,
                Some(s) => self.spec_address() != 0 && s.spec_address() == self.spec_address(),
            },
    {
        if self.address == 0 {
            None
        } else {
            Some(Symbol { address: self.address, pd: PhantomData })
        }
    }
}

impl<'lib, T> Clone for Symbol<'lib, T> {
    /// Copy the wrapper; the clone refers to the same address under the same
    /// lifetime bound.
    fn clone(&self) -> (r: Self)
        ensures
            r.spec_address() == self.spec_address(),
    {
        Symbol { address: self.address, pd: PhantomData }
    }
}

/// Decorate a bare library name with the POSIX family's conventional prefix
/// and suffix.
pub fn library_filename(name: &str) -> (r: String)
    ensures
        r@ == "lib"@ + name@ + ".so"@,
{
    let mut s = String::from_str("lib");
    s.append(name);
    s.append(".so");
    s
}

/// Decorate a bare library name with the Windows family's conventional suffix.
pub fn windows_library_filename(name: &str) -> (r: String)
    ensures
        r@ == name@ + ".dll"@,
{
    let mut s = String::from_str(name);
    s.append(".dll");
    s
}

} // verus!
