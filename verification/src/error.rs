//! The closed error taxonomy: one variant per distinguishable native failure
//! mode, plus the adapter-level failures.

pub mod get_last_error;
pub mod get_last_error_fail;
pub mod library_close;
pub mod library_find_symbol;
pub mod library_open;
pub mod null_error;
pub mod os_error;
pub mod os_error_failure;
pub mod sharedlib_error;

use vstd::prelude::*;

verus! {

/// The diagnostic text that the POSIX error query (`dlerror`) reported, copied
/// out of the native buffer into an owned value before the error lock is
/// released.
#[derive(Debug)]
pub struct DlError {
    /// The raw bytes of the diagnostic message, without a trailing terminator.
    pub message: Vec<u8>,
}

impl DlError {
    /// Wraps an owned copy of the native diagnostic text.
    pub fn new(message: Vec<u8>) -> (r: DlError)
        ensures
            r.message@ == message@,
    {
        DlError { message }
    }
}

/// The numeric error code that the Windows error query (`GetLastError`)
/// reported.
#[derive(Debug, Clone, Copy, PartialEq, Eq, Structural)]
pub struct WindowsError {
    /// The raw error code; never zero (zero means "no error was reported").
    pub code: u32,
}

impl WindowsError {
    /// Wraps a native error code.
    pub fn new(code: u32) -> (r: WindowsError)
        ensures
            r.code == code,
    {
        WindowsError { code }
    }
}

/// Errors: the closed set of structured failures surfaced to callers.
///
/// Every native call that can fail has two variants: one carrying the native
/// diagnostic, and one for the anomaly where the call failed but the native
/// error query reported nothing.
#[derive(Debug)]
pub enum Error {
    /// The `dlopen` call failed.
    DlOpen { source: DlError },
    /// The `dlopen` call failed and the system did not report an error.
    DlOpenUnknown,
    /// The `dlsym` call failed.
    DlSym { source: DlError },
    /// The `dlsym` call failed and the system did not report an error. Under
    /// this layer's lookup normalization a null address with no reported error
    /// counts as a success with a null value, so the normalizer never produces
    /// this variant itself; it stays in the closed taxonomy for callers that
    /// treat a silent null as a failure.
    DlSymUnknown,
    /// The `dlclose` call failed.
    DlClose { source: DlError },
    /// The `dlclose` call failed and the system did not report an error.
    DlCloseUnknown,
    /// The `LoadLibraryExW` call failed.
    LoadLibraryExW { source: WindowsError },
    /// The `LoadLibraryExW` call failed and the system did not report an error.
    LoadLibraryExWUnknown,
    /// The `GetModuleHandleExW` call failed.
    GetModuleHandleExW { source: WindowsError },
    /// The `GetModuleHandleExW` call failed and the system did not report an
    /// error.
    GetModuleHandleExWUnknown,
    /// The `GetProcAddress` call failed.
    GetProcAddress { source: WindowsError },
    /// The `GetProcAddress` call failed and the system did not report an error.
    GetProcAddressUnknown,
    /// The `FreeLibrary` call failed.
    FreeLibrary { source: WindowsError },
    /// The `FreeLibrary` call failed and the system did not report an error.
    FreeLibraryUnknown,
    /// The requested symbol type cannot possibly work: its size differs from a
    /// native function-pointer slot.
    IncompatibleSize,
    /// An input symbol name or filename contains an interior terminator
    /// element, at the reported position.
    InteriorZeroElements { position: usize },
}

impl Error {
    /// A short description of the failure, one fixed text per variant.
    pub fn text(&self) -> (r: &'static str)
        ensures
            r@ == self.text_spec(),
    {
        match self {
            Error::DlOpen { .. } => "dlopen failed",
            Error::DlOpenUnknown => "dlopen failed, but system did not report the error",
            Error::DlSym { .. } => "dlsym failed",
            Error::DlSymUnknown => "dlsym failed, but system did not report the error",
            Error::DlClose { .. } => "dlclose failed",
            Error::DlCloseUnknown => "dlclose failed, but system did not report the error",
            Error::LoadLibraryExW { .. } => "LoadLibraryExW failed",
            Error::LoadLibraryExWUnknown => "LoadLibraryExW failed, but system did not report the error",
            Error::GetModuleHandleExW { .. } => "GetModuleHandleExW failed",
            Error::GetModuleHandleExWUnknown => "GetModuleHandleExW failed, but system did not report the error",
            Error::GetProcAddress { .. } => "GetProcAddress failed",
            Error::GetProcAddressUnknown => "GetProcAddress failed, but system did not report the error",
            Error::FreeLibrary { .. } => "FreeLibrary failed",
            Error::FreeLibraryUnknown => "FreeLibrary failed, but system did not report the error",
            Error::IncompatibleSize => "requested type cannot possibly work",
            Error::InteriorZeroElements { .. } => "interior zero element in parameter",
        }
    }

    /// What [`Error::text`] returns for each variant.
    pub open spec fn text_spec(&self) -> Seq<char> {
        match self {
            Error::DlOpen { .. } => "dlopen failed"@,
            Error::DlOpenUnknown => "dlopen failed, but system did not report the error"@,
            Error::DlSym { .. } => "dlsym failed"@,
            Error::DlSymUnknown => "dlsym failed, but system did not report the error"@,
            Error::DlClose { .. } => "dlclose failed"@,
            Error::DlCloseUnknown => "dlclose failed, but system did not report the error"@,
            Error::LoadLibraryExW { .. } => "LoadLibraryExW failed"@,
            Error::LoadLibraryExWUnknown => "LoadLibraryExW failed, but system did not report the error"@,
            Error::GetModuleHandleExW { .. } => "GetModuleHandleExW failed"@,
            Error::GetModuleHandleExWUnknown => "GetModuleHandleExW failed, but system did not report the error"@,
            Error::GetProcAddress { .. } => "GetProcAddress failed"@,
            Error::GetProcAddressUnknown => "GetProcAddress failed, but system did not report the error"@,
            Error::FreeLibrary { .. } => "FreeLibrary failed"@,
            Error::FreeLibraryUnknown => "FreeLibrary failed, but system did not report the error"@,
            Error::IncompatibleSize => "requested type cannot possibly work"@,
            Error::InteriorZeroElements { .. } => "interior zero element in parameter"@,
        }
    }
}

} // verus!
