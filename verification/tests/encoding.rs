//! The encoding adapter: terminator scanning, buffer preparation for every
//! accepted representation, the wide conversion, and the filename decoration.

use sharedlib::AsFilename;
use sharedlib::AsSymbolName;
use sharedlib::Error;
use sharedlib::cstr::CowCString;
use sharedlib::util::check_null_bytes;
use sharedlib::util::copy_and_push;
use sharedlib::util::null_terminate;
use sharedlib::wide::to_utf16;

#[test]
fn check_null_bytes_cases() {
    assert_eq!(check_null_bytes(b"").unwrap(), false);
    assert_eq!(check_null_bytes(b"abc").unwrap(), false);
    assert_eq!(check_null_bytes(b"abc\0").unwrap(), true);
    assert_eq!(check_null_bytes(b"\0").unwrap(), true);
    let err = check_null_bytes(b"a\0c\0").err().unwrap();
    assert!(matches!(err, Error::InteriorZeroElements { position: 1 }));
    let err = check_null_bytes(b"\0\0").err().unwrap();
    assert!(matches!(err, Error::InteriorZeroElements { position: 0 }));
}

#[test]
fn copy_and_push_appends() {
    assert_eq!(copy_and_push(b"abc", 0u8), b"abc\0".to_vec());
    assert_eq!(copy_and_push(b"", 0u8), b"\0".to_vec());
}

#[test]
fn null_terminate_cases() {
    assert_eq!(null_terminate(""), Some(String::from("\0")));
    assert_eq!(null_terminate("ceil"), Some(String::from("ceil\0")));
    assert_eq!(null_terminate("ceil\0"), None);
}

#[test]
fn cow_c_string_borrows_when_terminated() {
    let c = CowCString::from_bytes(b"name\0").unwrap();
    assert_eq!(c.as_bytes(), b"name\0");
    assert!(matches!(c, CowCString::Borrowed(_)));
}

#[test]
fn cow_c_string_copies_when_unterminated() {
    let c = CowCString::from_bytes(b"name").unwrap();
    assert_eq!(c.as_bytes(), b"name\0");
    assert!(matches!(c, CowCString::Owned(_)));
}

#[test]
fn cow_c_string_empty_is_one_terminator() {
    let c = CowCString::from_bytes(b"").unwrap();
    assert_eq!(c.as_bytes(), b"\0");
}

#[test]
fn cow_c_string_reports_position() {
    let err = CowCString::from_bytes(b"does\0_not_exist").err().unwrap();
    assert_eq!(err.position(), 4);
    // Exactly one trailing terminator is accepted; a doubled one is embedded.
    let err = CowCString::from_bytes(b"name\0\0").err().unwrap();
    assert_eq!(err.position(), 4);
}

#[test]
fn embedded_terminator_rejected_everywhere() {
    // The same name, through every accepted representation, is rejected with
    // the position of its embedded terminator.
    let expected = 4usize;
    let err = "does\0_not_exist".symbol_name().err().unwrap();
    assert!(matches!(err, Error::InteriorZeroElements { position } if position == expected));
    let err = String::from("does\0_not_exist").symbol_name().err().unwrap();
    assert!(matches!(err, Error::InteriorZeroElements { position } if position == expected));
    let err = b"does\0_not_exist".symbol_name().err().unwrap();
    assert!(matches!(err, Error::InteriorZeroElements { position } if position == expected));
    let err = b"does\0_not_exist\0".to_vec().symbol_name().err().unwrap();
    assert!(matches!(err, Error::InteriorZeroElements { position } if position == expected));
    let err = "does\0_not_exist".posix_filename().err().unwrap();
    assert!(matches!(err, Error::InteriorZeroElements { position } if position == expected));
    let err = "does\0_not_exist".windows_filename().err().unwrap();
    assert!(matches!(err, Error::InteriorZeroElements { position } if position == expected));
}

#[test]
fn symbol_name_round_trip() {
    // With and without the trailing terminator, the prepared buffer is the
    // same.
    let with = "ceil\0".symbol_name().unwrap();
    let without = "ceil".symbol_name().unwrap();
    assert_eq!(with, without);
    assert_eq!(with, b"ceil\0".to_vec());
    let empty = "".symbol_name().unwrap();
    assert_eq!(empty, b"\0".to_vec());
}

#[test]
fn wide_conversion_exact() {
    assert_eq!(to_utf16("ab"), vec![0x61u16, 0x62]);
    // One code unit for a basic-plane character.
    assert_eq!(to_utf16("\u{e9}"), vec![0xe9u16]);
    // A surrogate pair above the basic plane.
    assert_eq!(to_utf16("\u{1d11e}"), vec![0xd834u16, 0xdd1e]);
}

#[test]
fn wide_filename_terminated_once() {
    let wide = "ab".windows_filename().unwrap();
    assert_eq!(wide, vec![0x61u16, 0x62, 0]);
    let wide = "ab\0".windows_filename().unwrap();
    assert_eq!(wide, vec![0x61u16, 0x62, 0]);
    let wide = "".windows_filename().unwrap();
    assert_eq!(wide, vec![0u16]);
}

#[test]
fn posix_filename_terminated_once() {
    assert_eq!("ab".posix_filename().unwrap(), b"ab\0".to_vec());
    assert_eq!("ab\0".posix_filename().unwrap(), b"ab\0".to_vec());
    assert_eq!(String::from("ab").posix_filename().unwrap(), b"ab\0".to_vec());
    assert_eq!("".posix_filename().unwrap(), b"\0".to_vec());
}

#[test]
fn error_text_fixed_per_variant() {
    assert_eq!(Error::DlOpenUnknown.text(), "dlopen failed, but system did not report the error");
    assert_eq!(Error::IncompatibleSize.text(), "requested type cannot possibly work");
    assert_eq!(
        Error::InteriorZeroElements { position: 4 }.text(),
        "interior zero element in parameter"
    );
}

#[test]
fn structured_error_texts() {
    let err = sharedlib::OsError::new(
        String::from("No such file or directory"),
        String::from("dlopen"),
    );
    assert_eq!(
        err.to_text(),
        "A call to the native function, 'dlopen', failed with the error: No such file or directory"
    );
    let err = sharedlib::LibraryFindSymbol::new(
        String::from("undefined symbol"),
        String::from("ceil"),
    );
    assert_eq!(
        err.to_text(),
        "Finding the symbol, 'ceil', failed with the error: undefined symbol"
    );
    let err = sharedlib::LibraryOpen::new(
        String::from("not found"),
        String::from("/path/to/lib.so"),
    );
    assert_eq!(
        err.to_text(),
        "Opening the library, '/path/to/lib.so', failed with the error: not found"
    );
    let err = sharedlib::LibraryClose::new(String::from("invalid handle"));
    assert_eq!(err.to_text(), "Closing the library failed with the error: invalid handle");
    let err = sharedlib::GetLastError::new(String::from("code 5"), String::from("FreeLibrary"));
    assert_eq!(
        err.to_text(),
        "A call to a native windows function failed. While calling the kernel32 function, \
         'FreeLibrary', the call failed with the error: code 5"
    );
}

#[test]
fn null_error_position_kept() {
    let err = sharedlib::NullError::new(7);
    assert_eq!(err.position(), 7);
}

#[test]
fn tracked_symbols_keep_values() {
    let data_target: u32 = 9;
    let data = sharedlib::Data::new(&data_target);
    assert_eq!(*sharedlib::symbol::Symbol::get(&data), 9);
    let func = sharedlib::Func::new(17u64);
    assert_eq!(sharedlib::symbol::Symbol::get(&func), 17);
    let lib = sharedlib::LibUnsafe::from_raw(0x7f00_9000);
    let held_data = sharedlib::DataTracked::<u64, sharedlib::LibUnsafe>::new(0x1234, lib);
    assert_eq!(held_data.data, 0x1234);
    let held_func = sharedlib::FuncTracked::new(23u64, lib);
    let copy = held_func.clone();
    assert_eq!(sharedlib::symbol::Symbol::get(&copy), 23);
}

#[test]
fn lib_unsafe_find_request_terminates() {
    let lib = sharedlib::LibUnsafe::from_raw(0x7f00_9000);
    assert_eq!(lib.find_request("ceil"), String::from("ceil\0"));
    assert_eq!(lib.find_request("ceil\0"), String::from("ceil\0"));
    assert_eq!(lib.handle(), 0x7f00_9000);
}
