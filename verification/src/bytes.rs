//! The byte buffer that an encoded image is written to.
use crate::native::Request;
use crate::result::{Error, FFIResult};
use vstd::prelude::*;

verus! {

/// An owned buffer of bytes. It starts empty and is filled by encoding an
/// image.
pub struct Bytes {
    data: Vec<u8>,
}

impl View for Bytes {
    type V = Seq<u8>;

    closed spec fn view(&self) -> Seq<u8> {
        self.data@
    }
}

impl Default for Bytes {
    /// The empty buffer.
    fn default() -> (bytes: Bytes)
        ensures
            bytes@ == Seq::<u8>::empty(),
    {
        Bytes { data: Vec::new() }
    }
}

impl Bytes {
    /// The bytes that the buffer holds.
    pub fn data(&self) -> (bytes: &[u8])
        ensures
            bytes@ == self@,
    {
        self.data.as_slice()
    }

    /// The number of bytes that the buffer holds.
    pub fn size(&self) -> (n: usize)
        ensures
            n == self@.len(),
    {
        self.data.len()
    }
}

impl Request<Bytes> {
    /// Takes what the native call handed back. Where the call succeeded the
    /// result is the buffer of the bytes it wrote; where it failed, the
    /// bytes are dropped and the result is the failure of the call's kind
    /// with the message that it left.
    pub fn complete(self, reply: FFIResult<Vec<u8>>) -> (r: Result<Bytes, Error>)
        ensures
            reply.error is None ==> (r matches Ok(bytes) && bytes@ == reply.ok@),
            reply.error is Some ==> (r matches Err(e) && e.spec_origin() == Some(
                self@.spec_origin(),
            ) && e.spec_message() == crate::result::signal_message(reply.error.unwrap()@)),
    {
        let origin = self.call().origin();
        match reply.into_result(origin) {
            Ok(data) => Ok(Bytes { data }),
            Err(e) => Err(e),
        }
    }
}

} // verus!
