//! The latest metadata payload of a stream.

use bytes::BytesMut;
use vstd::prelude::*;

use crate::buffer::bytes_of;

verus! {

pub struct MetaData {
    chunk_body: BytesMut,
}

impl View for MetaData {
    type V = Seq<u8>;

    closed spec fn view(&self) -> Seq<u8> {
        bytes_of(self.chunk_body)
    }
}

impl Default for MetaData {
    fn default() -> (metadata: Self)
        ensures
            metadata@ == Seq::<u8>::empty(),
    {
        Self::new()
    }
}

impl MetaData {
    pub fn new() -> (metadata: Self)
        ensures
            metadata@ == Seq::<u8>::empty(),
    {
        Self { chunk_body: BytesMut::new() }
    }

    /// Replaces the stored payload, whatever the new one holds.
    pub fn save(&mut self, body: BytesMut)
        ensures
            final(self)@ == bytes_of(body),
    {
        self.chunk_body = body;
    }

    pub fn get_chunk_body(&self) -> (body: BytesMut)
        ensures
            bytes_of(body) == self@,
    {
        self.chunk_body.clone()
    }
}

} // verus!
