//! The untracked and tracked library handles of the symbol-tracking layer.

use vstd::prelude::*;
use vstd::string::StringSliceAdditionalSpecFns;
use crate::util::null_terminate;

verus! {

/// The name a lookup hands to the native call for a given piece of text: the
/// text itself when it already ends in a terminator, otherwise the text with
/// one terminator appended.
pub open spec fn terminated_text_of(chars: Seq<char>, bytes: Seq<u8>) -> Seq<char> {
    if bytes.len() > 0 && bytes.last() == 0 {
        chars
    } else {
        chars.push('\0')
    }
}

/// A shared library handle which does not track its symbols: the caller keeps
/// every symbol from outliving the library.
#[derive(Debug, Clone, Copy)]
pub struct LibUnsafe {
    handle: u64,
}

impl LibUnsafe {
    /// The native handle this value carries.
    pub closed spec fn spec_handle(&self) -> u64 {
        self.handle
    }

    /// Wrap the handle a successful open produced; such a handle is never
    /// null.
    pub fn from_raw(handle: u64) -> (r: LibUnsafe)
        requires
            handle != 0,
        ensures
            r.spec_handle() == handle,
    {
        LibUnsafe { handle }
    }

    /// The raw handle, for handing to the next native call.
    pub fn handle(&self) -> (r: u64)
        ensures
            r == self.spec_handle(),
    {
        self.handle
    }

    /// The terminated name a symbol lookup against this library hands to the
    /// native call: the given name, with a terminator appended unless one is
    /// already there.
    pub fn find_request(&self, symbol: &str) -> (r: String)
        ensures
            r@ == terminated_text_of(symbol@, symbol.spec_bytes()),
    {
        match null_terminate(symbol) {
            Some(terminated) => {
                proof {
                    reveal_strlit("\0");
                    assert(symbol@ + "\0"@ =~= symbol@.push('\0'));
                }
                terminated
            },
            None => symbol.to_owned(),
        }
    }
}

/// A shared library which allows a caller-provided tracking value (such as a
/// reference-counted handle) to keep the library alive for its symbols.
#[derive(Debug, Clone)]
pub struct LibTracked<TLib> {
    /// The tracking value that owns the untracked handle.
    pub inner: TLib,
}

impl<TLib> LibTracked<TLib> {
    /// Wraps a tracking value of an untracked handle.
    pub fn from_inner(inner: TLib) -> (r: Self)
        ensures
            r.inner == inner,
    {
        LibTracked { inner }
    }
}

/// A shared library which uses atomic reference counting to keep itself alive
/// for its symbols.
pub type LibArc = LibTracked<std::sync::Arc<LibUnsafe>>;

/// A shared library which uses reference counting to keep itself alive for its
/// symbols.
pub type LibRc = LibTracked<std::rc::Rc<LibUnsafe>>;

} // verus!
