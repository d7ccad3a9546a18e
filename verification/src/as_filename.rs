//! Types whose value can name a library file when opening one. Each platform
//! family has one conversion: a zero-terminated narrow buffer for the POSIX
//! open call, and a zero-terminated UTF-16 buffer for the wide Windows open
//! call.

use vstd::prelude::*;
use vstd::string::StringSliceAdditionalSpecFns;
use vstd::utf8::encode_utf8;
use crate::as_symbol_name::terminated_name;
use crate::cstr::c_buffer_of;
use crate::cstr::has_interior_null;
use crate::error::Error;
use crate::util::check_null_bytes;
use crate::wide::to_utf16;
use crate::wide::wide_buffer_of;

verus! {

/// A value that can be used as a library filename.
///
/// The two methods produce the exact buffer shape each platform family's open
/// call reads; both reject a name holding a terminator at any position other
/// than the last, reporting the first such position.
pub trait AsFilename {
    /// The byte form of the name as the caller supplies it.
    spec fn name_bytes(&self) -> Seq<u8>;

    /// The character form of the name, for the wide encoding.
    spec fn name_chars(&self) -> Seq<char>;

    /// The terminated narrow buffer for the POSIX-family open call.
    fn posix_filename(&self) -> (r: Result<Vec<u8>, Error>)
        ensures
            match r {
                Ok(b) => !has_interior_null(self.name_bytes()) && b@ == c_buffer_of(
                    self.name_bytes(),
                ),
                Err(e) => {
                    &&& has_interior_null(self.name_bytes())
                    &&& e matches Error::InteriorZeroElements { position }
                    &&& 0 <= position < self.name_bytes().len() - 1
                    &&& self.name_bytes()[position as int] == 0
                    &&& forall|j: int| 0 <= j < position ==> self.name_bytes()[j] != 0
                },
            },
    ;

    /// The terminated UTF-16 buffer for the Windows-family open call.
    fn windows_filename(&self) -> (r: Result<Vec<u16>, Error>)
        ensures
            match r {
                Ok(w) => !has_interior_null(self.name_bytes()) && w@ == wide_buffer_of(
                    self.name_chars(),
                    self.name_bytes(),
                ),
                Err(e) => {
                    &&& has_interior_null(self.name_bytes())
                    &&& e matches Error::InteriorZeroElements { position }
                    &&& 0 <= position < self.name_bytes().len() - 1
                    &&& self.name_bytes()[position as int] == 0
                    &&& forall|j: int| 0 <= j < position ==> self.name_bytes()[j] != 0
                },
            },
    ;
}

/// The one shared wide conversion: the terminated UTF-16 buffer for a piece of
/// text, rejecting embedded terminator bytes with their position.
pub fn wide_filename(text: &str) -> (r: Result<Vec<u16>, Error>)
    ensures
        match r {
            Ok(w) => !has_interior_null(text.spec_bytes()) && w@ == wide_buffer_of(
                text@,
                text.spec_bytes(),
            ),
            Err(e) => {
                &&& has_interior_null(text.spec_bytes())
                &&& e matches Error::InteriorZeroElements { position }
                &&& 0 <= position < text.spec_bytes().len() - 1
                &&& text.spec_bytes()[position as int] == 0
                &&& forall|j: int| 0 <= j < position ==> text.spec_bytes()[j] != 0
            },
        },
{
    match check_null_bytes(text.as_bytes()) {
        Err(e) => Err(e),
        Ok(true) => Ok(to_utf16(text)),
        Ok(false) => {
            let mut w = to_utf16(text);
            w.push(0);
            Ok(w)
        },
    }
}

impl AsFilename for str {
    open spec fn name_bytes(&self) -> Seq<u8> {
        self.spec_bytes()
    }

    open spec fn name_chars(&self) -> Seq<char> {
        self@
    }

    fn posix_filename(&self) -> (r: Result<Vec<u8>, Error>) {
        terminated_name(self.as_bytes())
    }

    fn windows_filename(&self) -> (r: Result<Vec<u16>, Error>) {
        wide_filename(self)
    }
}

impl AsFilename for String {
    open spec fn name_bytes(&self) -> Seq<u8> {
        encode_utf8(self@)
    }

    open spec fn name_chars(&self) -> Seq<char> {
        self@
    }

    fn posix_filename(&self) -> (r: Result<Vec<u8>, Error>) {
        terminated_name(self.as_str().as_bytes())
    }

    fn windows_filename(&self) -> (r: Result<Vec<u16>, Error>) {
        wide_filename(self.as_str())
    }
}

} // verus!
