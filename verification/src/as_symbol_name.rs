//! Types whose value can name a symbol when looking one up in an open
//! library. Every accepted representation funnels through one shared
//! conversion routine that produces the exact zero-terminated buffer the
//! native lookup reads.

use vstd::prelude::*;
use vstd::slice::slice_to_vec;
use vstd::string::StringSliceAdditionalSpecFns;
use vstd::utf8::encode_utf8;
use crate::cstr::c_buffer_of;
use crate::cstr::has_interior_null;
use crate::error::Error;
use crate::util::check_null_bytes;
use crate::util::copy_and_push;

verus! {

/// The one shared narrow conversion: the terminated buffer for a byte name.
///
/// Rejects a name holding a terminator at any position other than the last,
/// reporting the first such position; otherwise returns the name with exactly
/// one trailing terminator (appended unless already present).
pub fn terminated_name(bytes: &[u8]) -> (r: Result<Vec<u8>, Error>)
    ensures
        match r {
            Ok(b) => !has_interior_null(bytes@) && b@ == c_buffer_of(bytes@),
            Err(e) => {
                &&& has_interior_null(bytes@)
                &&& e matches Error::InteriorZeroElements { position }
                &&& 0 <= position < bytes@.len() - 1
                &&& bytes@[position as int] == 0
                &&& forall|j: int| 0 <= j < position ==> bytes@[j] != 0
            },
        },
{
    match check_null_bytes(bytes) {
        Err(e) => Err(e),
        Ok(true) => Ok(slice_to_vec(bytes)),
        Ok(false) => Ok(copy_and_push(bytes, 0)),
    }
}

/// A value that can be used as a symbol name.
///
/// The name is taken as bytes; [`AsSymbolName::symbol_name`] yields the
/// zero-terminated buffer the native lookup reads, or rejects an embedded
/// terminator with its position.
pub trait AsSymbolName {
    /// The byte form of the name as the caller supplies it.
    spec fn name_bytes(&self) -> Seq<u8>;

    /// The terminated narrow buffer for this name.
    fn symbol_name(&self) -> (r: Result<Vec<u8>, Error>)
        ensures
            match r {
                Ok(b) => !has_interior_null(self.name_bytes()) && b@ == c_buffer_of(
                    self.name_bytes(),
                ),
                Err(e) => {
                    &&& has_interior_null(self.name_bytes())
                    &&& e matches Error::InteriorZeroElements { position }
                    &&& 0 <= position < self.name_bytes().len() - 1
                    &&& self.name_bytes()[position as int] == 0
                    &&& forall|j: int| 0 <= j < position ==> self.name_bytes()[j] != 0
                },
            },
    ;
}

impl AsSymbolName for str {
    open spec fn name_bytes(&self) -> Seq<u8> {
        self.spec_bytes()
    }

    fn symbol_name(&self) -> (r: Result<Vec<u8>, Error>) {
        terminated_name(self.as_bytes())
    }
}

impl AsSymbolName for String {
    open spec fn name_bytes(&self) -> Seq<u8> {
        encode_utf8(self@)
    }

    fn symbol_name(&self) -> (r: Result<Vec<u8>, Error>) {
        terminated_name(self.as_str().as_bytes())
    }
}

impl AsSymbolName for [u8] {
    open spec fn name_bytes(&self) -> Seq<u8> {
        self@
    }

    fn symbol_name(&self) -> (r: Result<Vec<u8>, Error>) {
        terminated_name(self)
    }
}

impl AsSymbolName for Vec<u8> {
    open spec fn name_bytes(&self) -> Seq<u8> {
        self@
    }

    fn symbol_name(&self) -> (r: Result<Vec<u8>, Error>) {
        terminated_name(self.as_slice())
    }
}

} // verus!
