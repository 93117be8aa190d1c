//! Raw parameter and return payloads, passed between frames as plain
//! byte strings, and the codec tag under which they travel through the
//! per-frame block registry.

use vstd::prelude::*;

verus! {

/// Codec tag for structured payload blocks.
pub const DAG_CBOR: u64 = 113;

/// An opaque byte payload: parameters handed to an invocation, or the
/// result read back out of it.
#[derive(Debug)]
pub struct RawBytes {
    bytes: Vec<u8>,
}

impl View for RawBytes {
    type V = Seq<u8>;

    closed spec fn view(&self) -> Seq<u8> {
        self.bytes@
    }
}

impl RawBytes {
    pub fn new(bytes: Vec<u8>) -> (r: RawBytes)
        ensures
            r@ == bytes@,
    {
        RawBytes { bytes }
    }

    pub fn empty() -> (r: RawBytes)
        ensures
            r@ == Seq::<u8>::empty(),
    {
        RawBytes { bytes: Vec::new() }
    }

    pub fn len(&self) -> (r: usize)
        ensures
            r == self@.len(),
    {
        self.bytes.len()
    }

    pub fn into_vec(self) -> (r: Vec<u8>)
        ensures
            r@ == self@,
    {
        self.bytes
    }

    pub fn as_slice(&self) -> (r: &Vec<u8>)
        ensures
            r@ == self@,
    {
        &self.bytes
    }
}

} // verus!
