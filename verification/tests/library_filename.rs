//! The filename decoration helper.

use sharedlib::library_filename;
use sharedlib::safe::windows_library_filename;

#[test]
fn test_library_filename() {
    let name = "audioengine";
    let resolved = library_filename(name);
    assert!(resolved.ends_with("libaudioengine.so"));
    assert_eq!(resolved, "libaudioengine.so");
}

#[test]
fn windows_filename_decoration() {
    assert_eq!(windows_library_filename("audioengine"), "audioengine.dll");
}
