//! Reading, writing, decoding and encoding images: the requests for the
//! native codec calls.
use crate::bytes::Bytes;
use crate::mat::Mat;
use crate::native::{Ext, NativeCall, Request};
use vstd::prelude::*;
use vstd::slice::slice_to_vec;

verus! {

/// Read flag: convert what is read to a single grey channel.
pub const IMREAD_GRAYSCALE: i32 = 0;

/// Read flag: convert what is read to three colour channels.
pub const IMREAD_COLOR: i32 = 1;

/// Image types that can be read from a path.
pub trait Read: Sized {
    /// The read flags that give an image of this type.
    spec fn spec_read_flags() -> i32;

    /// The request to read the image at `path` as an image of this type.
    fn read(path: &str) -> (request: Request<Self>)
        ensures
            request@ matches NativeCall::Read { path: p, flags } && p@ == path@ && flags
                == Self::spec_read_flags(),
    ;
}

/// Image types that can be written to a path.
pub trait Write {
    /// The request to write this image to `path`.
    fn write(&self, path: &str) -> (request: Request<()>)
        ensures
            request@ matches NativeCall::Write { path: p } && p@ == path@,
    ;
}

impl Read for Mat<u8, 1> {
    open spec fn spec_read_flags() -> i32 {
        IMREAD_GRAYSCALE
    }

    fn read(path: &str) -> (request: Request<Self>) {
        Request::new(NativeCall::Read { path: path.to_owned(), flags: IMREAD_GRAYSCALE })
    }
}

impl Read for Mat<u8, 3> {
    open spec fn spec_read_flags() -> i32 {
        IMREAD_COLOR
    }

    fn read(path: &str) -> (request: Request<Self>) {
        Request::new(NativeCall::Read { path: path.to_owned(), flags: IMREAD_COLOR })
    }
}

impl Write for Mat<u8, 1> {
    fn write(&self, path: &str) -> (request: Request<()>) {
        Request::new(NativeCall::Write { path: path.to_owned() })
    }
}

impl Write for Mat<u8, 3> {
    fn write(&self, path: &str) -> (request: Request<()>) {
        Request::new(NativeCall::Write { path: path.to_owned() })
    }
}

impl Mat<u8, 1> {
    /// The request to decode `data` as a grey image.
    pub fn decode(data: &[u8]) -> (request: Request<Self>)
        ensures
            request@ matches NativeCall::Decode { data: d, flags } && d@ == data@ && flags
                == IMREAD_GRAYSCALE,
    {
        Request::new(NativeCall::Decode { data: slice_to_vec(data), flags: IMREAD_GRAYSCALE })
    }
}

impl Mat<u8, 3> {
    /// The request to decode `data` as a colour image.
    pub fn decode(data: &[u8]) -> (request: Request<Self>)
        ensures
            request@ matches NativeCall::Decode { data: d, flags } && d@ == data@ && flags
                == IMREAD_COLOR,
    {
        Request::new(NativeCall::Decode { data: slice_to_vec(data), flags: IMREAD_COLOR })
    }
}

impl<T, const C: usize> Mat<T, C> {
    /// The request to encode this image to the format `ext`.
    pub fn encode(&self, ext: Ext) -> (request: Request<Bytes>)
        ensures
            request@ == (NativeCall::Encode { ext }),
    {
        Request::new(NativeCall::Encode { ext })
    }
}

impl<const C: usize> Mat<u8, C> {
    /// The request to encode this image as PNG.
    pub fn encode_png(&self) -> (request: Request<Bytes>)
        ensures
            request@ == (NativeCall::Encode { ext: Ext::PNG }),
    {
        self.encode(Ext::PNG)
    }

    /// The request to encode this image as JPEG.
    pub fn encode_jpg(&self) -> (request: Request<Bytes>)
        ensures
            request@ == (NativeCall::Encode { ext: Ext::JPG }),
    {
        self.encode(Ext::JPG)
    }
}

} // verus!
