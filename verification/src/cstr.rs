//! The narrow-encoding adapter: turns a byte name into the exact
//! zero-terminated buffer a native call reads, rejecting embedded terminators
//! with their position, and borrowing instead of copying when the input is
//! already terminated.

use vstd::prelude::*;
use vstd::utf8::encode_scalar;
use vstd::utf8::encode_utf8;
use crate::error::null_error::NullError;
use crate::util::copy_and_push;

verus! {

/// Whether a zero element stands at a position other than the last.
pub open spec fn has_interior_null(input: Seq<u8>) -> bool {
    exists|i: int| 0 <= i < input.len() - 1 && input[i] == 0
}

/// The terminated buffer a well-formed input turns into: the input itself when
/// it already ends in a terminator, otherwise the input with one terminator
/// appended (an empty input becomes a single terminator).
pub open spec fn c_buffer_of(input: Seq<u8>) -> Seq<u8> {
    if input.len() > 0 && input.last() == 0 {
        input
    } else {
        input.push(0)
    }
}

/// A terminated buffer is well formed when it is nonempty, ends in a
/// terminator, and holds no other terminator.
pub open spec fn c_buffer_wf(buffer: Seq<u8>) -> bool {
    &&& buffer.len() > 0
    &&& buffer.last() == 0
    &&& !has_interior_null(buffer)
}

/// A zero-terminated byte buffer, borrowed from the caller when the input was
/// already terminated and owned when a terminator had to be appended.
pub enum CowCString<'a> {
    /// The input already ended in exactly one terminator.
    Borrowed(&'a [u8]),
    /// A fresh copy with the terminator appended.
    Owned(Vec<u8>),
}

impl<'a> CowCString<'a> {
    /// The bytes of the terminated buffer, wherever they are stored.
    pub open spec fn bytes(&self) -> Seq<u8> {
        match self {
            CowCString::Borrowed(b) => b@,
            CowCString::Owned(v) => v@,
        }
    }

    /// Build the terminated buffer for a byte name.
    ///
    /// Rejects an input holding a zero element at any position other than the
    /// last, reporting the first such position. Otherwise the buffer is the
    /// input itself (borrowed) when it already ends in a terminator, and a
    /// fresh copy with one terminator appended when it does not; an empty
    /// input becomes a single terminator.
    pub fn from_bytes(slice: &'a [u8]) -> (r: Result<CowCString<'a>, NullError>)
        ensures
            match r {
                Ok(c) => {
                    &&& !has_interior_null(slice@)
                    &&& c.bytes() == c_buffer_of(slice@)
                    &&& c_buffer_wf(c.bytes())
                },
                Err(e) => {
                    &&& has_interior_null(slice@)
                    &&& 0 <= e.null_position < slice@.len() - 1
                    &&& slice@[e.null_position as int] == 0
                    &&& forall|j: int| 0 <= j < e.null_position ==> slice@[j] != 0
                },
            },
    {
        if slice.len() == 0 {
            let buffer = copy_and_push(slice, 0);
            assert(buffer@ =~= c_buffer_of(slice@));
            return Ok(CowCString::Owned(buffer));
        }
        let end = slice.len() - 1;
        let mut i: usize = 0;
        while i < end
            invariant
                end == slice@.len() - 1,
                i <= end,
                forall|j: int| 0 <= j < i ==> slice@[j] != 0,
            decreases end - i,
        {
            if slice[i] == 0 {
                return Err(NullError::new(i));
            }
            i = i + 1;
        }
        if slice[end] == 0 {
            Ok(CowCString::Borrowed(slice))
        } else {
            let buffer = copy_and_push(slice, 0);
            Ok(CowCString::Owned(buffer))
        }
    }

    /// The terminated buffer, as the slice the native call will read.
    pub fn as_bytes(&self) -> (r: &[u8])
        ensures
            r@ == self.bytes(),
    {
        match self {
            CowCString::Borrowed(b) => b,
            CowCString::Owned(v) => v.as_slice(),
        }
    }
}

/// Looking a name up with and without an explicit trailing terminator hands
/// the native call the same buffer: for a name free of terminator elements,
/// the prepared buffer of the name equals the prepared buffer of the name
/// with one terminator appended, and neither form is rejected.
pub proof fn lemma_terminator_round_trip(name: Seq<u8>)
    requires
        forall|i: int| 0 <= i < name.len() ==> name[i] != 0,
    ensures
        !has_interior_null(name),
        !has_interior_null(name.push(0)),
        c_buffer_of(name) == c_buffer_of(name.push(0)),
{
    assert(c_buffer_of(name) =~= name.push(0));
    assert(name.push(0).last() == 0);
    assert(c_buffer_of(name.push(0)) =~= name.push(0));
}

/// Appending one terminator character to a piece of text appends exactly one
/// terminator byte to its encoded form.
pub proof fn lemma_encode_utf8_push_nul(chars: Seq<char>)
    ensures
        encode_utf8(chars.push('\0')) == encode_utf8(chars) + seq![0u8],
    decreases chars.len(),
{
    if chars.len() == 0 {
        assert(chars.push('\0').drop_first() =~= Seq::<char>::empty());
        assert(chars.push('\0')[0] == '\0');
        assert('\0' as u32 == 0);
        assert((0u32 & 0x7F) as u8 == 0u8) by (bit_vector);
        assert(encode_scalar(0u32) =~= seq![0u8]);
        assert(encode_utf8(chars.push('\0')) == encode_scalar(chars.push('\0')[0] as u32)
            + encode_utf8(chars.push('\0').drop_first()));
        assert(encode_utf8(chars.push('\0')) == encode_scalar(0u32) + encode_utf8(
            Seq::<char>::empty(),
        ));
        assert(encode_utf8(chars.push('\0')) =~= encode_utf8(chars) + seq![0u8]);
    } else {
        assert(chars.push('\0').drop_first() =~= chars.drop_first().push('\0'));
        lemma_encode_utf8_push_nul(chars.drop_first());
        assert(encode_utf8(chars.push('\0')) =~= encode_utf8(chars) + seq![0u8]);
    }
}

/// Looking a textual name up with and without an explicit trailing terminator
/// character hands the native call the same buffer, when the text itself is
/// free of terminator bytes.
pub proof fn lemma_text_terminator_round_trip(chars: Seq<char>)
    requires
        forall|i: int| 0 <= i < encode_utf8(chars).len() ==> encode_utf8(chars)[i] != 0,
    ensures
        c_buffer_of(encode_utf8(chars.push('\0'))) == c_buffer_of(encode_utf8(chars)),
{
    lemma_encode_utf8_push_nul(chars);
    lemma_terminator_round_trip(encode_utf8(chars));
    assert(encode_utf8(chars).push(0) =~= encode_utf8(chars) + seq![0u8]);
}

} // verus!
