//! The calls that the native library is asked to make, as values. A
//! function that needs native work returns a request; whoever holds the
//! native library makes the call and hands what came back to the request,
//! which turns it into a typed result.
use crate::consts::{Point2i, Size};
use crate::result::{signal_message, Error, FFIResult, Origin};
use std::marker::PhantomData;
use vstd::prelude::*;

verus! {

/// The two raster formats that an image can be encoded to.
#[derive(Clone, Copy, Debug, PartialEq, Eq, Structural)]
pub enum Ext {
    PNG,
    JPG,
}

/// One call of the native library, with what it takes besides its source
/// image and its destination.
#[derive(Clone, Debug, PartialEq, Eq)]
pub enum NativeCall {
    /// Decode the encoded bytes, read with the given flags.
    Decode { data: Vec<u8>, flags: i32 },
    /// Read the image at the path, with the given flags.
    Read { path: String, flags: i32 },
    /// Write the source to the path.
    Write { path: String },
    /// Encode the source to the given format.
    Encode { ext: Ext },
    /// Convert the colours of the source by the given conversion code.
    CvtColor { code: i32 },
    /// Blur the source with a box filter of the given size, anchored at
    /// the given point of the box, with the given border type.
    Blur { ksize: Size, anchor: Point2i, border_type: i32 },
    /// Blur the source with a median filter of the given aperture.
    MedianBlur { ksize: i32 },
    /// Extract the boundaries of the shapes in the source.
    FindContours { mode: i32, method: i32 },
}

impl Ext {
    /// The file extension that names the format.
    pub open spec fn spec_extension(self) -> Seq<char> {
        match self {
            Ext::PNG => ".png"@,
            Ext::JPG => ".jpg"@,
        }
    }

    /// The file extension that names the format, with its leading dot.
    pub fn to_string(&self) -> (s: String)
        ensures
            s@ == self.spec_extension(),
    {
        match self {
            Ext::PNG => ".png".to_string(),
            Ext::JPG => ".jpg".to_string(),
        }
    }
}

impl NativeCall {
    /// The kind of entry point that the call goes to, which decides as what
    /// its failure is reported.
    pub open spec fn spec_origin(self) -> Origin {
        match self {
            NativeCall::Decode { .. } => Origin::Decode,
            NativeCall::Read { .. } => Origin::Read,
            NativeCall::Write { .. } => Origin::Write,
            NativeCall::Encode { .. } => Origin::Encode,
            NativeCall::CvtColor { .. } => Origin::Operation,
            NativeCall::Blur { .. } => Origin::Operation,
            NativeCall::MedianBlur { .. } => Origin::Operation,
            NativeCall::FindContours { .. } => Origin::Operation,
        }
    }

    /// The kind of entry point that the call goes to.
    pub fn origin(&self) -> (o: Origin)
        ensures
            o == self.spec_origin(),
    {
        match self {
            NativeCall::Decode { .. } => Origin::Decode,
            NativeCall::Read { .. } => Origin::Read,
            NativeCall::Write { .. } => Origin::Write,
            NativeCall::Encode { .. } => Origin::Encode,
            NativeCall::CvtColor { .. } => Origin::Operation,
            NativeCall::Blur { .. } => Origin::Operation,
            NativeCall::MedianBlur { .. } => Origin::Operation,
            NativeCall::FindContours { .. } => Origin::Operation,
        }
    }
}

/// A native call that is still to be made, and whose result will be a `D`.
pub struct Request<D> {
    call: NativeCall,
    destination: PhantomData<D>,
}

impl<D> View for Request<D> {
    type V = NativeCall;

    closed spec fn view(&self) -> NativeCall {
        self.call
    }
}

impl<D> Request<D> {
    /// The request to make `call`.
    pub fn new(call: NativeCall) -> (request: Self)
        ensures
            request@ == call,
    {
        Request { call, destination: PhantomData }
    }

    /// The call that is asked for.
    pub fn call(&self) -> (call: &NativeCall)
        ensures
            *call == self@,
    {
        &self.call
    }
}

impl Request<()> {
    /// Takes what a native call without a destination handed back: nothing
    /// where it succeeded, and else the failure of the call's kind with the
    /// message that it left.
    pub fn complete(self, reply: FFIResult<()>) -> (r: Result<(), Error>)
        ensures
            reply.error is None ==> r is Ok,
            reply.error is Some ==> (r matches Err(e) && e.spec_origin() == Some(
                self@.spec_origin(),
            ) && e.spec_message() == signal_message(reply.error.unwrap()@)),
    {
        let origin = self.call().origin();
        reply.into_result(origin)
    }
}

} // verus!
