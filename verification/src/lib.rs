//! Typed image buffers, and the calling convention of the native image
//! library that works on them.
//!
//! An image is a value of [`Mat`]: a shape, a type code and a buffer of
//! elements, tagged at compile time with its element type and channel
//! count. Work that only the native library can do is asked for by a
//! [`Request`]; what the library hands back is a [`FFIResult`], which the
//! request turns into a typed result.
pub mod array;
pub mod bytes;
pub mod consts;
pub mod contours;
pub mod imgcodecs;
pub mod imgproc;
pub mod mat;
pub mod mock;
pub mod native;
pub mod result;

pub use crate::array::Array3;
pub use crate::bytes::Bytes;
pub use crate::consts::{make_type, BorderTypes, DataTypes, Point2i, PointBase, Size, Size2i, SizeT};
pub use crate::contours::{Contour, ContourIter, Contours, Point};
pub use crate::imgcodecs::{Read, Write};
pub use crate::imgproc::{Blur, ContourApproximationModes, FindContours, RetrievalModes};
pub use crate::mat::{Element, Mat, RawMat, Supported};
pub use crate::native::{Ext, NativeCall, Request};
pub use crate::result::{Error, FFIResult, Origin};
