//! Image processing: the requests for the native operations.
use crate::consts::{BorderTypes, Point2i, Size};
use crate::contours::Contours;
use crate::mat::{Element, Mat, Supported};
use crate::native::{NativeCall, Request};
use vstd::prelude::*;

verus! {

/// Conversion code: three colour channels to one grey channel.
pub const COLOR_BGR2GRAY: i32 = 6;

/// Conversion code: one grey channel to three colour channels.
pub const COLOR_GRAY2BGR: i32 = 8;

/// Conversion code: blue, green, red to hue, saturation, value.
pub const COLOR_BGR2HSV: i32 = 40;

/// Which boundaries an extraction retrieves.
#[allow(non_camel_case_types)]
#[derive(Clone, Copy, Debug, PartialEq, Eq, Structural)]
pub enum RetrievalModes {
    RETR_EXTERNAL,
    RETR_LIST,
    RETR_CCOMP,
    RETR_TREE,
    RETR_FLOODFILL,
}

/// How an extraction thins out the points of a boundary.
#[allow(non_camel_case_types)]
#[derive(Clone, Copy, Debug, PartialEq, Eq, Structural)]
pub enum ContourApproximationModes {
    CHAIN_APPROX_NONE,
    CHAIN_APPROX_SIMPLE,
    CHAIN_APPROX_TC89_L1,
    CHAIN_APPROX_TC89_KCOS,
}

impl RetrievalModes {
    /// The number that names the mode to the native library.
    pub open spec fn spec_bits(self) -> i32 {
        match self {
            RetrievalModes::RETR_EXTERNAL => 0,
            RetrievalModes::RETR_LIST => 1,
            RetrievalModes::RETR_CCOMP => 2,
            RetrievalModes::RETR_TREE => 3,
            RetrievalModes::RETR_FLOODFILL => 4,
        }
    }

    /// The number that names the mode to the native library.
    pub fn bits(&self) -> (b: i32)
        ensures
            b == self.spec_bits(),
    {
        match self {
            RetrievalModes::RETR_EXTERNAL => 0,
            RetrievalModes::RETR_LIST => 1,
            RetrievalModes::RETR_CCOMP => 2,
            RetrievalModes::RETR_TREE => 3,
            RetrievalModes::RETR_FLOODFILL => 4,
        }
    }
}

impl ContourApproximationModes {
    /// The number that names the mode to the native library.
    pub open spec fn spec_bits(self) -> i32 {
        match self {
            ContourApproximationModes::CHAIN_APPROX_NONE => 1,
            ContourApproximationModes::CHAIN_APPROX_SIMPLE => 2,
            ContourApproximationModes::CHAIN_APPROX_TC89_L1 => 3,
            ContourApproximationModes::CHAIN_APPROX_TC89_KCOS => 4,
        }
    }

    /// The number that names the mode to the native library.
    pub fn bits(&self) -> (b: i32)
        ensures
            b == self.spec_bits(),
    {
        match self {
            ContourApproximationModes::CHAIN_APPROX_NONE => 1,
            ContourApproximationModes::CHAIN_APPROX_SIMPLE => 2,
            ContourApproximationModes::CHAIN_APPROX_TC89_L1 => 3,
            ContourApproximationModes::CHAIN_APPROX_TC89_KCOS => 4,
        }
    }
}

/// Element types whose images the box blur accepts.
pub trait BlurElement: Element {

}

impl BlurElement for u8 {

}

impl BlurElement for u16 {

}

impl BlurElement for i16 {

}

impl BlurElement for i32 {

}

/// Image types that can be blurred with a box filter.
pub trait Blur: Sized {
    /// The request to blur this image with a box of size `ksize`, anchored
    /// at `anchor` (the centre of the box, for the default point).
    fn blur(&self, ksize: Size, anchor: Point2i, border_type: BorderTypes) -> (request: Request<
        Self,
    >)
        ensures
            request@ == (NativeCall::Blur { ksize, anchor, border_type: border_type.spec_bits() }),
    ;
}

impl<T: BlurElement, const C: usize> Blur for Mat<T, C> where Self: Supported<C> {
    fn blur(&self, ksize: Size, anchor: Point2i, border_type: BorderTypes) -> (request: Request<
        Self,
    >) {
        Request::new(NativeCall::Blur { ksize, anchor, border_type: border_type.bits() })
    }
}

/// Image types whose shape boundaries can be extracted.
pub trait FindContours {
    /// The request to extract the boundaries of the shapes in this image.
    fn find_contours(&self, mode: RetrievalModes, method: ContourApproximationModes) -> (request:
        Request<Contours>)
        ensures
            request@ == (NativeCall::FindContours {
                mode: mode.spec_bits(),
                method: method.spec_bits(),
            }),
    ;
}

impl<T> FindContours for Mat<T, 1> {
    fn find_contours(&self, mode: RetrievalModes, method: ContourApproximationModes) -> (request:
        Request<Contours>) {
        Request::new(NativeCall::FindContours { mode: mode.bits(), method: method.bits() })
    }
}

impl<T> Mat<T, 3> {
    /// The request to convert this colour image to a grey one.
    pub fn cvt_color_bgr2gray(&self) -> (request: Request<Mat<T, 1>>)
        ensures
            request@ == (NativeCall::CvtColor { code: COLOR_BGR2GRAY }),
    {
        Request::new(NativeCall::CvtColor { code: COLOR_BGR2GRAY })
    }

    /// The request to convert this image from blue, green, red to hue,
    /// saturation, value.
    pub fn cvt_color_bgr2hsv(&self) -> (request: Request<Self>)
        ensures
            request@ == (NativeCall::CvtColor { code: COLOR_BGR2HSV }),
    {
        Request::new(NativeCall::CvtColor { code: COLOR_BGR2HSV })
    }
}

impl<T> Mat<T, 1> {
    /// The request to convert this grey image to a colour one.
    pub fn cvt_color_gray2bgr(&self) -> (request: Request<Mat<T, 3>>)
        ensures
            request@ == (NativeCall::CvtColor { code: COLOR_GRAY2BGR }),
    {
        Request::new(NativeCall::CvtColor { code: COLOR_GRAY2BGR })
    }
}

impl<T, const C: usize> Mat<T, C> {
    /// The request to blur this image with a median filter of aperture
    /// `ksize`.
    pub fn median_blur(&self, ksize: i32) -> (request: Request<Self>)
        ensures
            request@ == (NativeCall::MedianBlur { ksize }),
    {
        Request::new(NativeCall::MedianBlur { ksize })
    }

    /// The request for a median blur of aperture 3.
    pub fn median_blur3x3(&self) -> (request: Request<Self>)
        ensures
            request@ == (NativeCall::MedianBlur { ksize: 3 }),
    {
        self.median_blur(3)
    }

    /// The request for a median blur of aperture 5.
    pub fn median_blur5x5(&self) -> (request: Request<Self>)
        ensures
            request@ == (NativeCall::MedianBlur { ksize: 5 }),
    {
        self.median_blur(5)
    }

    /// The request for a median blur of aperture 7.
    pub fn median_blur7x7(&self) -> (request: Request<Self>)
        ensures
            request@ == (NativeCall::MedianBlur { ksize: 7 }),
    {
        self.median_blur(7)
    }

    /// The request for a median blur of aperture 9.
    pub fn median_blur9x9(&self) -> (request: Request<Self>)
        ensures
            request@ == (NativeCall::MedianBlur { ksize: 9 }),
    {
        self.median_blur(9)
    }
}

} // verus!
