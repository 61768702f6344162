use vstd::prelude::*;
use vstd::slice::slice_to_vec;

verus! {

/// A fuzzing input: a value that has a persisted form as raw bytes.
pub trait Input: Sized + 'static {
    /// The bytes that stand for this input on disk.
    spec fn bytes_view(&self) -> Seq<u8>;

    /// Serialises the input to its persisted form.
    fn to_bytes(&self) -> (r: Vec<u8>)
        ensures
            r@ == self.bytes_view(),
    ;

    /// Rebuilds an input from its persisted form.
    fn from_bytes(bytes: &[u8]) -> (r: Self)
        ensures
            r.bytes_view() == bytes@,
    ;
}

/// An input that is a plain byte string.
pub struct BytesInput {
    bytes: Vec<u8>,
}

impl BytesInput {
    pub fn new(bytes: Vec<u8>) -> (r: BytesInput)
        ensures
            r.bytes_view() == bytes@,
    {
        BytesInput { bytes }
    }

    pub fn bytes(&self) -> (r: &[u8])
        ensures
            r@ == self.bytes_view(),
    {
        self.bytes.as_slice()
    }
}

impl Input for BytesInput {
    closed spec fn bytes_view(&self) -> Seq<u8> {
        self.bytes@
    }

    fn to_bytes(&self) -> (r: Vec<u8>) {
        slice_to_vec(self.bytes.as_slice())
    }

    fn from_bytes(bytes: &[u8]) -> (r: BytesInput) {
        BytesInput { bytes: slice_to_vec(bytes) }
    }
}

} // verus!
