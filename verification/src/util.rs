//! Shared helpers: terminator scanning, buffer copying, and the sanity check
//! on a requested symbol type's size.

use vstd::prelude::*;
use vstd::layout::size_of;
use vstd::string::StringSliceAdditionalSpecFns;
use vstd::utf8::encode_utf8;
use vstd::utf8::encode_scalar;
use crate::error::Error;

verus! {

/// The UTF-8 encoding of a nonempty character sequence is nonempty, and the
/// encoding of an empty sequence is empty.
pub proof fn lemma_encode_utf8_empty(chars: Seq<char>)
    ensures
        encode_utf8(chars).len() == 0 <==> chars.len() == 0,
{
    if chars.len() > 0 {
        assert(encode_scalar(chars[0] as u32).len() >= 1);
    }
}

/// Verify that the input has no interior zero elements and report whether its
/// last element is a zero terminator.
///
/// Returns an error exactly when a zero stands at a position other than the
/// last; otherwise returns whether the (nonempty) input already ends in a
/// terminator.
pub fn check_null_bytes(data: &[u8]) -> (r: Result<bool, Error>)
    ensures
        match r {
            Ok(terminated) => {
                &&& forall|i: int| 0 <= i < data@.len() - 1 ==> data@[i] != 0
                &&& terminated == (data@.len() > 0 && data@.last() == 0)
            },
            Err(e) => {
                &&& e matches Error::InteriorZeroElements { position }
                &&& 0 <= position < data@.len() - 1
                &&& data@[position as int] == 0
                &&& forall|j: int| 0 <= j < position ==> data@[j] != 0
            },
        },
{
    if data.len() == 0 {
        return Ok(false);
    }
    let end = data.len() - 1;
    let mut i: usize = 0;
    while i < end
        invariant
            end == data@.len() - 1,
            i <= end,
            forall|j: int| 0 <= j < i ==> data@[j] != 0,
        decreases end - i,
    {
        if data[i] == 0 {
            return Err(Error::InteriorZeroElements { position: i });
        }
        i = i + 1;
    }
    Ok(data[end] == 0)
}

/// Copy the slice into a fresh vector and append one element to its end.
pub fn copy_and_push<T: Copy>(data: &[T], to_push: T) -> (r: Vec<T>)
    ensures
        r@ == data@.push(to_push),
{
    let mut copy: Vec<T> = Vec::new();
    let mut i: usize = 0;
    while i < data.len()
        invariant
            i <= data@.len(),
            copy@ == data@.subrange(0, i as int),
        decreases data@.len() - i,
    {
        copy.push(data[i]);
        assert(copy@ =~= data@.subrange(0, i + 1 as int));
        i = i + 1;
    }
    assert(copy@ =~= data@);
    copy.push(to_push);
    copy
}

/// Append a terminator to a name unless it already ends in one.
///
/// Returns `None` when the final byte of the input is already a terminator
/// (the caller then uses the input as it stands), and otherwise a fresh copy
/// with exactly one terminator appended; an empty input becomes a single
/// terminator. Interior terminators are not examined here.
pub fn null_terminate(string: &str) -> (r: Option<String>)
    ensures
        match r {
            None => string.spec_bytes().len() > 0 && string.spec_bytes().last() == 0,
            Some(t) => {
                &&& t@ == string@ + "\0"@
                &&& string.spec_bytes().len() == 0 || string.spec_bytes().last() != 0
            },
        },
{
    let bytes = string.as_bytes();
    if bytes.len() == 0 {
        proof {
            lemma_encode_utf8_empty(string@);
            assert(string@ + "\0"@ =~= "\0"@);
        }
        Some(String::from_str("\0"))
    } else if bytes[bytes.len() - 1] == 0 {
        None
    } else {
        let mut result = string.to_owned();
        result.append("\0");
        Some(result)
    }
}

/// Verify that the requested type occupies exactly as many bytes as the slot
/// the native lookup fills; reject any other size.
pub fn ensure_compatible_types<T, E>() -> (r: Result<(), Error>)
    ensures
        match r {
            Ok(_) => size_of::<T>() == size_of::<E>(),
            Err(e) => size_of::<T>() != size_of::<E>() && e is IncompatibleSize,
        },
{
    if core::mem::size_of::<T>() != core::mem::size_of::<E>() {
        Err(Error::IncompatibleSize)
    } else {
        Ok(())
    }
}

} // verus!
