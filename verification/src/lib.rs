//! A memory-safer abstraction over operating-system dynamic-library loading
//! primitives.
//!
//! The crate models the symbol-lifetime binding and error-normalization layer
//! of a dynamic loader wrapper: how a loaded-library handle is represented,
//! how a retrieved symbol's validity is tied to that handle's lifetime, how
//! the racy native error-reporting protocols are normalized into structured
//! errors, and the name-encoding contracts required to cross the text-encoding
//! boundary between the host language and the native calling convention.
//!
//! The native loader calls themselves (open-library, find-symbol,
//! close-library, query-last-error) are inherently unsafe foreign calls and
//! live outside this crate; every function here is pure and verified. A host
//! shell performs one native call at a time and hands the observed outcome
//! (a raw handle or address, and what the error query reported) to the
//! decision functions of [`os_unix`], [`os_windows`] and [`safe`], which turn
//! it into a typed result.

pub mod error;
pub mod text;
pub mod util;
pub mod cstr;
pub mod wide;
pub mod as_filename;
pub mod as_symbol_name;
pub mod os_unix;
pub mod os_windows;
pub mod safe;
pub mod lib_impl;
pub mod symbol;

pub use as_filename::AsFilename;
pub use as_symbol_name::AsSymbolName;
pub use error::DlError;
pub use error::Error;
pub use error::WindowsError;
pub use error::get_last_error::GetLastError;
pub use error::get_last_error_fail::GetLastErrorFail;
pub use error::library_close::LibraryClose;
pub use error::library_find_symbol::LibraryFindSymbol;
pub use error::library_open::LibraryOpen;
pub use error::null_error::NullError;
pub use error::os_error::OsError;
pub use error::os_error_failure::OsErrorFailure;
pub use error::sharedlib_error::SharedlibError;
pub use error::sharedlib_error::SharedlibResult;
pub use lib_impl::LibTracked;
pub use lib_impl::LibUnsafe;
pub use safe::Library;
pub use safe::Symbol;
pub use safe::library_filename;
pub use symbol::Data;
pub use symbol::DataTracked;
pub use symbol::Func;
pub use symbol::FuncTracked;
