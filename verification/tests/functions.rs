//! The open / find / close pipeline, driven with the events the native loader
//! produces for each scenario.

use sharedlib::AsFilename;
use sharedlib::Error;
use sharedlib::Library;

#[test]
fn wrong_name_fails() {
    // A path no library answers to: the name encodes cleanly, the native open
    // yields a null handle, and the error query reports a diagnostic.
    let buffer = "/libtest_help".posix_filename().unwrap();
    assert_eq!(buffer.last(), Some(&0u8));
    let diag = b"/libtest_help: cannot open shared object file".to_vec();
    let err = Library::from_open_event(0, Some(diag)).err().unwrap();
    assert!(matches!(err, Error::DlOpen { .. }));
}

#[test]
fn open_close_succeeds() {
    // A load that produced a handle opens, and a close whose return code is
    // zero succeeds; neither reports an error.
    let lib = Library::from_open_event(0x7f00_1000, None).unwrap();
    assert_eq!(lib.handle(), 0x7f00_1000);
    lib.close(0, None).unwrap();
}

#[test]
fn open_fails_silently() {
    // A null handle with no diagnostic is the silent open failure.
    let err = Library::from_open_event(0, None).err().unwrap();
    assert!(matches!(err, Error::DlOpenUnknown));
}

#[test]
fn close_failure_reported() {
    let lib = Library::from_open_event(0x7f00_2000, None).unwrap();
    let diag = b"invalid handle".to_vec();
    let err = lib.close(1, Some(diag)).err().unwrap();
    assert!(matches!(err, Error::DlClose { .. }));

    let lib = Library::from_open_event(0x7f00_2000, None).unwrap();
    let err = lib.close(1, None).err().unwrap();
    assert!(matches!(err, Error::DlCloseUnknown));
}

#[test]
fn missing_symbol_fails() {
    // An absent symbol yields a null address and a diagnostic, with and
    // without an explicit trailing terminator on the name.
    let lib = Library::from_raw(0x7f00_3000);
    let with = lib.get_request::<u64>(b"test_does_not_exist\0").unwrap();
    let without = lib.get_request::<u64>(b"test_does_not_exist").unwrap();
    assert_eq!(with, without);
    let diag = b"undefined symbol: test_does_not_exist".to_vec();
    let err = lib.get_outcome::<u64>(0, Some(diag)).err().unwrap();
    assert!(matches!(err, Error::DlSym { .. }));
    let diag = b"undefined symbol: test_does_not_exist".to_vec();
    let err = lib.get_outcome::<u64>(0, Some(diag)).err().unwrap();
    assert!(matches!(err, Error::DlSym { .. }));
}

#[test]
fn interior_null_fails() {
    let lib = Library::from_raw(0x7f00_3000);
    let err = lib.get_request::<u64>(b"test_does\0_not_exist").err().unwrap();
    assert!(matches!(err, Error::InteriorZeroElements { position: 9 }));
    let err = lib.get_request::<u64>(b"test\0_does_not_exist\0").err().unwrap();
    assert!(matches!(err, Error::InteriorZeroElements { position: 4 }));
}

#[test]
fn test_incompatible_type() {
    // A zero-sized type cannot fill a pointer slot.
    let lib = Library::from_raw(0x7f00_3000);
    let r = lib.get_request::<()>(b"test_identity_u32\0");
    assert!(matches!(r, Err(Error::IncompatibleSize)));
}

#[test]
fn small_type_incompatible() {
    // A one-byte type cannot fill a pointer slot either.
    let lib = Library::from_raw(0x7f00_3000);
    let r = lib.get_request::<u8>(b"test_identity_u32\0");
    assert!(matches!(r, Err(Error::IncompatibleSize)));
}

#[test]
fn test_0_no_0() {
    // The terminated and unterminated forms of a name prepare the same
    // buffer, so the native lookup sees the same input for both.
    let lib = Library::from_raw(0x7f00_4000);
    let a = lib.get_request::<u64>(b"test_identity_struct\0").unwrap();
    let b = lib.get_request::<u64>(b"test_identity_struct").unwrap();
    assert_eq!(a, b);
}

#[test]
fn null_symbol_is_success() {
    // On the POSIX family a null address with no reported error is a genuine
    // null-valued symbol; lifting the option makes the null observable.
    let lib = Library::from_raw(0x7f00_5000);
    let sym = lib.get_outcome::<Option<u64>>(0, None).unwrap();
    assert!(sym.lift_option().is_none());
}

#[test]
fn lift_option_keeps_address() {
    let lib = Library::from_raw(0x7f00_5000);
    let sym = lib.get_outcome::<Option<u64>>(0x11_2233, None).unwrap();
    let lifted = sym.lift_option().unwrap();
    assert_eq!(lifted.into_raw(), 0x11_2233);
}

#[test]
fn symbol_found_returns_address() {
    // A lookup that produced an address hands back exactly that address.
    let lib = Library::from_raw(0x7f00_6000);
    let sym = lib.get_outcome::<u64>(0x55_66, None).unwrap();
    assert_eq!(sym.into_raw(), 0x55_66);
}

#[test]
fn two_wrappers_same_symbol_agree() {
    // Two independently obtained wrappers for the same symbol carry the same
    // underlying address.
    let lib = Library::from_raw(0x7f00_6000);
    let first = lib.get_outcome::<u64>(0x77_88, None).unwrap();
    let second = lib.get_outcome::<u64>(0x77_88, None).unwrap();
    assert_eq!(first.into_raw(), second.into_raw());
}

#[test]
fn test_try_into_ptr() {
    let lib = Library::from_raw(0x7f00_6000);
    let sym = lib.get_outcome::<u64>(0x99_aa, None).unwrap();
    let ptr = sym.try_as_raw_ptr().unwrap();
    assert_ne!(ptr, 0);
}

#[test]
fn symbol_clone_and_reconstruct() {
    let lib = Library::from_raw(0x7f00_7000);
    let sym = lib.get_outcome::<u64>(0xbb_cc, None).unwrap();
    let copy = sym.clone();
    let raw = copy.into_raw();
    let rebuilt: sharedlib::Symbol<u64> = sharedlib::Symbol::from_raw(raw, &lib);
    assert_eq!(rebuilt.into_raw(), sym.into_raw());
}

#[test]
fn full_session_scenario() {
    // One session: open a test library, look a present symbol up, fail on a
    // missing one, reject an embedded terminator at its position, and close.
    let lib = Library::from_open_event(0x7f10_0000, None).unwrap();
    let request = lib.get_request::<u64>(b"identity_u32").unwrap();
    assert_eq!(request, b"identity_u32\0".to_vec());
    let identity = lib.get_outcome::<u64>(0x7f10_1000, None).unwrap();
    assert_eq!(identity.into_raw(), 0x7f10_1000);
    let diag = b"undefined symbol: does_not_exist".to_vec();
    let err = lib.get_outcome::<u64>(0, Some(diag)).err().unwrap();
    assert!(matches!(err, Error::DlSym { .. }));
    let err = lib.get_request::<u64>(b"does\0_not_exist").err().unwrap();
    assert!(matches!(err, Error::InteriorZeroElements { position: 4 }));
    lib.close(0, None).unwrap();
}

#[test]
fn diagnostic_text_preserved() {
    // The normalizer hands the copied diagnostic through unchanged.
    let diag = b"exact diagnostic".to_vec();
    match Library::from_open_event(0, Some(diag)) {
        Err(Error::DlOpen { source }) => assert_eq!(source.message, b"exact diagnostic".to_vec()),
        _ => panic!("wrong outcome"),
    }
}

#[test]
fn library_raw_round_trip() {
    let lib = Library::from_open_event(0x7f00_8000, None).unwrap();
    let raw = lib.into_raw();
    assert_eq!(raw, 0x7f00_8000);
    let lib = Library::from_raw(raw);
    assert_eq!(lib.handle(), 0x7f00_8000);
}
