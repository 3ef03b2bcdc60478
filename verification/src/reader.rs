//! The reader: a native handle with a single owner.

use vstd::prelude::*;

use crate::protocol::Request;
use crate::sys::rgz_reader_t;

verus! {

/// Opaque decompression reader backed by the native `rapidgzip` engine.
///
/// A reader is made from a handle that a native open call gave out, and is not
/// copied: closing it uses it up.
pub struct Reader {
    inner: rgz_reader_t,
}

impl View for Reader {
    type V = rgz_reader_t;

    closed spec fn view(&self) -> rgz_reader_t {
        self.inner
    }
}

impl Reader {
    /// Takes ownership of a handle.
    pub(crate) fn from_handle(handle: rgz_reader_t) -> (reader: Reader)
        ensures
            reader@ == handle,
    {
        Reader { inner: handle }
    }

    /// Returns the native handle.
    pub fn handle(&self) -> (handle: rgz_reader_t)
        ensures
            handle == self@,
    {
        self.inner
    }

    /// Gives the reader up: asks for its handle to be closed.
    pub fn close(self) -> (request: Request)
        ensures
            request@ == (crate::protocol::RequestView::Close { reader: self@ }),
    {
        Request::Close { reader: self.inner }
    }
}

} // verus!
