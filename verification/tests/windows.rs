//! The Windows-family layer: load, lookup and close normalization, the
//! structured last-error taxonomy, and the error-mode suppression plans.

use sharedlib::AsFilename;
use sharedlib::Error;
use sharedlib::SharedlibError;
use sharedlib::os_windows::ErrorModePlan;
use sharedlib::os_windows::Library;
use sharedlib::os_windows::ok_or_get_last_error;
use sharedlib::os_windows::process_mode_outcome;
use sharedlib::os_windows::thread_mode_outcome;

#[test]
fn test_new_kernel23() {
    // No module of that name exists: the name encodes cleanly, the native
    // load yields a null handle, and the last-error query reports
    // module-not-found.
    let wide = "kernel23".windows_filename().unwrap();
    assert_eq!(wide.last(), Some(&0u16));
    let err = Library::from_load_event(0, 126).err().unwrap();
    assert!(matches!(err, Error::LoadLibraryExW { source } if source.code == 126));
}

#[test]
fn test_new_kernel32_no_ext() {
    // A module the loader always finds: the load yields a handle and the
    // library opens.
    let wide = "kernel32".windows_filename().unwrap();
    assert_eq!(wide.len(), 9);
    assert_eq!(wide.last(), Some(&0u16));
    let lib = Library::from_load_event(0x7ffa_0001_0000, 0).unwrap();
    assert_eq!(lib.into_raw(), 0x7ffa_0001_0000);
}

#[test]
fn fails_new_kernel23() {
    // The structured taxonomy for the same failed load: a reported error code
    // becomes the cause-carrying variant.
    let outcome: Result<u64, SharedlibError> = ok_or_get_last_error(
        None,
        String::from("LoadLibraryW"),
        126,
        String::from("The specified module could not be found."),
    );
    let err = outcome.err().unwrap();
    assert!(matches!(err, SharedlibError::OsError(_)));
}

#[test]
fn silent_failure_marked() {
    let outcome: Result<u64, SharedlibError> = ok_or_get_last_error(
        None,
        String::from("LoadLibraryW"),
        0,
        String::new(),
    );
    let err = outcome.err().unwrap();
    match err {
        SharedlibError::OsErrorFailure(inner) => {
            assert_eq!(
                inner.to_text(),
                "A call to the native function, 'LoadLibraryW', failed but the operating system \
                 reported success."
            );
        },
        _ => panic!("wrong variant"),
    }
}

#[test]
fn success_passes_value_through() {
    let outcome: Result<u64, SharedlibError> = ok_or_get_last_error(
        Some(41),
        String::from("GetProcAddress"),
        0,
        String::new(),
    );
    assert_eq!(outcome.unwrap(), 41);
}

#[test]
fn load_failed_silently() {
    let err = Library::from_load_event(0, 0).err().unwrap();
    assert!(matches!(err, Error::LoadLibraryExWUnknown));
}

#[test]
fn module_handle_outcomes() {
    let lib = Library::from_module_handle_event(1, 0x7ffa_0002_0000, 0).unwrap();
    assert_eq!(lib.into_raw(), 0x7ffa_0002_0000);
    let err = Library::from_module_handle_event(0, 0, 6).err().unwrap();
    assert!(matches!(err, Error::GetModuleHandleExW { source } if source.code == 6));
    let err = Library::from_module_handle_event(0, 0, 0).err().unwrap();
    assert!(matches!(err, Error::GetModuleHandleExWUnknown));
}

#[test]
fn get_proc_outcomes() {
    let lib = Library::from_load_event(0x7ffa_0003_0000, 0).unwrap();
    let sym = lib.get_outcome::<u64>(0x7ffa_0003_1230, 0).unwrap();
    assert_eq!(sym.into_raw(), 0x7ffa_0003_1230);
    let err = lib.get_outcome::<u64>(0, 127).err().unwrap();
    assert!(matches!(err, Error::GetProcAddress { source } if source.code == 127));
    let err = lib.get_outcome::<u64>(0, 0).err().unwrap();
    assert!(matches!(err, Error::GetProcAddressUnknown));
}

#[test]
fn free_library_convention_inverted() {
    // FreeLibrary reports success with a nonzero return code.
    let lib = Library::from_load_event(0x7ffa_0004_0000, 0).unwrap();
    lib.close(1, 0).unwrap();
    let lib = Library::from_load_event(0x7ffa_0004_0000, 0).unwrap();
    let err = lib.close(0, 5).err().unwrap();
    assert!(matches!(err, Error::FreeLibrary { source } if source.code == 5));
    let lib = Library::from_load_event(0x7ffa_0004_0000, 0).unwrap();
    let err = lib.close(0, 0).err().unwrap();
    assert!(matches!(err, Error::FreeLibraryUnknown));
}

#[test]
fn ordinal_request_size_checked() {
    let lib = Library::from_load_event(0x7ffa_0005_0000, 0).unwrap();
    assert_eq!(lib.get_ordinal_request::<u64>(1).unwrap(), 1);
    let err = lib.get_ordinal_request::<u8>(1).err().unwrap();
    assert!(matches!(err, Error::IncompatibleSize));
}

#[test]
fn windows_symbol_lift_option() {
    let lib = Library::from_load_event(0x7ffa_0006_0000, 0).unwrap();
    let sym = lib.get_outcome::<Option<u64>>(0x7ffa_0006_0100, 0).unwrap();
    let lifted = sym.lift_option().unwrap();
    assert_eq!(lifted.into_raw(), 0x7ffa_0006_0100);
}

#[test]
fn error_mode_plans() {
    // Thread-scoped call succeeded: restore the swapped-out mode, unless it
    // already was the suppression value.
    assert_eq!(thread_mode_outcome(true, 0, 0), ErrorModePlan::RestoreMode(0));
    assert_eq!(thread_mode_outcome(true, 0, 1), ErrorModePlan::NothingToRestore);
    // Unimplemented on this system: fall back to the process-scoped call.
    assert_eq!(thread_mode_outcome(false, 120, 0), ErrorModePlan::UseProcessScoped);
    // Any other failure: leave the mode untouched.
    assert_eq!(thread_mode_outcome(false, 5, 0), ErrorModePlan::NothingToRestore);
    // The process-scoped call swaps the old mode out directly.
    assert_eq!(process_mode_outcome(0), ErrorModePlan::RestoreMode(0));
    assert_eq!(process_mode_outcome(1), ErrorModePlan::NothingToRestore);
}

#[test]
fn get_last_error_text() {
    let err = sharedlib::GetLastErrorFail::new(String::from("GetProcAddress"));
    assert_eq!(
        err.to_text(),
        "A call to a native windows function failed. While calling the kernel32 function, \
         'GetProcAddress', the call failed but kernel32::GetLastError() reported success."
    );
}
