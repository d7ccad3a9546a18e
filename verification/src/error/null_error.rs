//! An input contained a terminator element before its final position.

use vstd::prelude::*;

verus! {

/// An embedded terminator was found at a non-final position of an input name
/// or path. The position is reported so callers can locate the offending
/// element.
#[derive(Debug, Clone, Copy, PartialEq, Eq, Structural)]
pub struct NullError {
    /// The index of the offending terminator element within the input.
    pub null_position: usize,
}

impl NullError {
    /// Records the position of the embedded terminator.
    pub fn new(null_position: usize) -> (r: NullError)
        ensures
            r.null_position == null_position,
    {
        NullError { null_position }
    }

    /// The index of the offending terminator element within the input.
    pub fn position(&self) -> (r: usize)
        ensures
            r == self.null_position,
    {
        self.null_position
    }
}

} // verus!
