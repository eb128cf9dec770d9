//! Images as dense arrays of rank 3: rows, columns, channels.
use crate::consts::make_type_spec;
use crate::mat::{is_allocation_failure, shape_fits, Element, Mat, MatView, Supported};
use crate::result::Error;
use vstd::pervasive::unreached;
use vstd::prelude::*;
use vstd::slice::slice_to_vec;

verus! {

/// A dense array of rank 3: an `ndarray::Array3`. Its declaration is
/// bound by a trait of that crate, for which no specification can be given
/// here, so the array is held as a whole. Nothing inside it is visible to a
/// proof: what it holds is named by `array_dim`, `array_elems` and
/// `array_is_standard_layout`.
#[verifier::external_body]
#[verifier::reject_recursive_types(T)]
pub struct Array3<T> {
    pub inner: ndarray::Array3<T>,
}

/// The lengths of the three axes of an array, as its `dim` gives them.
pub uninterp spec fn array_dim(a: Array3<u8>) -> (nat, nat, nat);

/// The elements of an array in logical order: the last axis runs fastest.
pub uninterp spec fn array_elems(a: Array3<u8>) -> Seq<u8>;

/// Whether an array lies in memory in its logical order, without gaps: what
/// its `is_standard_layout` gives.
pub uninterp spec fn array_is_standard_layout(a: Array3<u8>) -> bool;

/// What an array holds: the lengths of its axes, its elements in logical
/// order, and whether it lies in memory in that order.
pub struct ArrayView<T> {
    pub dim: (nat, nat, nat),
    pub elems: Seq<T>,
    pub standard: bool,
}

impl View for Array3<u8> {
    type V = ArrayView<u8>;

    open spec fn view(&self) -> ArrayView<u8> {
        ArrayView {
            dim: array_dim(*self),
            elems: array_elems(*self),
            standard: array_is_standard_layout(*self),
        }
    }
}

/// The product of those axis lengths that are not zero.
pub open spec fn nonzero_product(rows: int, cols: int, channels: int) -> int {
    (if rows == 0 {
        1
    } else {
        rows
    }) * (if cols == 0 {
        1
    } else {
        cols
    }) * (if channels == 0 {
        1
    } else {
        channels
    })
}

/// Whether the array library can index an array of this shape.
pub open spec fn array_shape_fits(rows: int, cols: int, channels: int) -> bool {
    nonzero_product(rows, cols, channels) <= isize::MAX
}

/// The array that holds an image: its axes are the rows, the columns and
/// the channels, and its elements are the image's, in the same order.
pub open spec fn array_of_image<T>(m: MatView<T>) -> ArrayView<T> {
    ArrayView {
        dim: (m.rows as nat, m.cols as nat, m.channels() as nat),
        elems: m.data,
        standard: true,
    }
}

/// Whether an array cannot be taken as an image of `channels` channels: its
/// last axis has another length, or it does not lie in memory in logical
/// order.
pub open spec fn array_mismatch<T>(a: ArrayView<T>, channels: int) -> bool {
    a.dim.2 != channels || !a.standard
}

/// The image of `channels` channels of the element type `T` that holds an
/// array, if there is one.
pub open spec fn image_of_array<T: Element>(a: ArrayView<T>, channels: int) -> Option<MatView<T>> {
    if !array_mismatch(a, channels) && a.elems.len() == a.dim.0 * a.dim.1 * channels && shape_fits(
        a.dim.0 as int,
        a.dim.1 as int,
        channels,
    ) {
        Some(
            MatView {
                rows: a.dim.0 as int,
                cols: a.dim.1 as int,
                code: make_type_spec(T::spec_depth(), channels) as int,
                data: a.elems,
            },
        )
    } else {
        None
    }
}

/// Whether an array cannot be an image, its layout and its last axis
/// apart: it does not hold one element for each channel of each pixel.
pub open spec fn array_incomplete<T>(a: ArrayView<T>, channels: int) -> bool {
    a.elems.len() != a.dim.0 * a.dim.1 * channels
}

/// Calls `ndarray::Array3::from_shape_vec` with the shape `(rows, cols,
/// channels)` in the default, row-major order. The contract claims what the
/// source of that function shows: it succeeds exactly where the product of
/// the non-zero axis lengths does not exceed `isize::MAX` and the product of
/// all three is the length of `v`; the array it then gives has that shape,
/// holds the elements of `v` in their order, and is in standard layout.
#[verifier::external_body]
fn array_from_shape_vec(
    rows: usize,
    cols: usize,
    channels: usize,
    v: Vec<u8>,
) -> (a: Option<Array3<u8>>)
    ensures
        a is Some <==> (array_shape_fits(rows as int, cols as int, channels as int) && rows * cols
            * channels == v@.len()),
        a is Some ==> a.unwrap()@ == (ArrayView {
            dim: (rows as nat, cols as nat, channels as nat),
            elems: v@,
            standard: true,
        }),
{
    match ndarray::Array3::from_shape_vec((rows, cols, channels), v) {
        Ok(inner) => Some(Array3 { inner }),
        Err(_) => None,
    }
}

/// Calls `dim` of the array. The contract claims that it gives the three
/// axis lengths, and that the array has as many elements as their product.
#[verifier::external_body]
fn array_get_dim(a: &Array3<u8>) -> (d: (usize, usize, usize))
    ensures
        (d.0 as nat, d.1 as nat, d.2 as nat) == array_dim(*a),
        array_elems(*a).len() == d.0 * d.1 * d.2,
{
    a.inner.dim()
}

/// Calls `as_slice` of the array and copies the slice. The contract claims
/// that there is a slice exactly where the array is in standard layout, and
/// that it then holds the array's elements in logical order.
#[verifier::external_body]
fn array_as_slice(a: &Array3<u8>) -> (elems: Option<Vec<u8>>)
    ensures
        elems is Some <==> array_is_standard_layout(*a),
        elems is Some ==> elems.unwrap()@ == array_elems(*a),
{
    match a.inner.as_slice() {
        Some(elems) => Some(elems.to_vec()),
        None => None,
    }
}

impl Array3<u8> {
    /// The lengths of the three axes.
    pub fn dim(&self) -> (d: (usize, usize, usize))
        ensures
            (d.0 as nat, d.1 as nat, d.2 as nat) == self@.dim,
            self@.elems.len() == d.0 * d.1 * d.2,
    {
        array_get_dim(self)
    }

    /// A copy of the elements in logical order, where the array is in
    /// standard layout.
    pub fn as_slice(&self) -> (elems: Option<Vec<u8>>)
        ensures
            elems is Some <==> self@.standard,
            elems is Some ==> elems.unwrap()@ == self@.elems,
    {
        array_as_slice(self)
    }
}

impl<T: Copy, const C: usize> Mat<T, C> {
    /// The shape and the elements of the array that holds this image: the
    /// rows, the columns and the channels, and a copy of the buffer.
    pub fn array_parts(&self) -> (parts: ((usize, usize, usize), Vec<T>))
        ensures
            (ArrayView {
                dim: (parts.0.0 as nat, parts.0.1 as nat, parts.0.2 as nat),
                elems: parts.1@,
                standard: true,
            }) == array_of_image(self@),
            parts.0.0 * parts.0.1 * parts.0.2 == parts.1@.len(),
            self@.wf(),
    {
        let rows = self.rows() as usize;
        let cols = self.cols() as usize;
        let channels = self.channels() as usize;
        let data = slice_to_vec(self.data());
        ((rows, cols, channels), data)
    }
}

impl<T: Element, const C: usize> Mat<T, C> where Self: Supported<C> {
    /// A fresh image from what an array gives of itself: the lengths of
    /// its axes, and its elements in logical order where it lies in memory
    /// in that order. An array whose last axis is not `C` long, or that
    /// does not lie in logical order, or whose elements are not one for
    /// each channel of each pixel, is a shape mismatch. Any other array is
    /// copied where its shape fits an image; where it does not, the
    /// allocation fails.
    pub fn from_array_parts(dim: (usize, usize, usize), elems: Option<&[T]>) -> (r: Result<
        Self,
        Error,
    >)
        ensures
            elems is None || dim.2 != C || elems.unwrap()@.len() != dim.0 * dim.1 * C ==> (
            r matches Err(e) && e == Error::ShapeMismatch),
            elems is Some ==> image_of_array(
                ArrayView {
                    dim: (dim.0 as nat, dim.1 as nat, dim.2 as nat),
                    elems: elems.unwrap()@,
                    standard: true,
                },
                C as int,
            ) is Some ==> (r matches Ok(m) && m@ == image_of_array(
                ArrayView {
                    dim: (dim.0 as nat, dim.1 as nat, dim.2 as nat),
                    elems: elems.unwrap()@,
                    standard: true,
                },
                C as int,
            ).unwrap()),
            elems is Some && dim.2 == C && elems.unwrap()@.len() == dim.0 * dim.1 * C
                && !shape_fits(dim.0 as int, dim.1 as int, C as int) ==> (r matches Err(e)
                && is_allocation_failure(e)),
    {
        if dim.2 != C {
            return Err(Error::ShapeMismatch);
        }
        match elems {
            Some(elems) => Self::from_shape_vec(dim.0, dim.1, elems),
            None => Err(Error::ShapeMismatch),
        }
    }
}

impl<const C: usize> Mat<u8, C> {
    /// A fresh array that holds a copy of this image, where the array
    /// library can index an array of its shape, and `None` where it cannot.
    pub fn try_to_ndarray(&self) -> (a: Option<Array3<u8>>)
        ensures
            a is Some <==> array_shape_fits(self@.rows, self@.cols, self@.channels()),
            a is Some ==> a.unwrap()@ == array_of_image(self@),
    {
        let (dim, data) = self.array_parts();
        array_from_shape_vec(dim.0, dim.1, dim.2, data)
    }

    /// A fresh array that holds a copy of this image.
    pub fn to_ndarray(&self) -> (a: Array3<u8>)
        requires
            array_shape_fits(self@.rows, self@.cols, self@.channels()),
        ensures
            a@ == array_of_image(self@),
    {
        let (dim, data) = self.array_parts();
        match array_from_shape_vec(dim.0, dim.1, dim.2, data) {
            Some(a) => a,
            None => unreached(),
        }
    }
}

impl<const C: usize> Mat<u8, C> where Self: Supported<C> {
    /// A fresh image that holds a copy of `array`. An array whose last axis
    /// is not `C` long, or that is not in standard layout, is a shape
    /// mismatch. Any other array is copied where its shape fits an image;
    /// where it does not, the allocation fails.
    pub fn from_ndarray(array: &Array3<u8>) -> (r: Result<Self, Error>)
        ensures
            array_mismatch(array@, C as int) ==> (r matches Err(e) && e == Error::ShapeMismatch),
            !array_mismatch(array@, C as int) && image_of_array(array@, C as int) is None ==> (
            r matches Err(e) && is_allocation_failure(e)),
            image_of_array(array@, C as int) is Some ==> (r matches Ok(m) && m@ == image_of_array(
                array@,
                C as int,
            ).unwrap()),
    {
        let dim = array.dim();
        match array.as_slice() {
            Some(elems) => Self::from_array_parts(dim, Some(elems.as_slice())),
            None => Self::from_array_parts(dim, None),
        }
    }
}

/// Converting an image to an array and back gives an image with the same
/// rows, columns, channels and elements, provided that the image holds as
/// many channels as its type is built with.
pub proof fn lemma_array_round_trip<T: Element>(m: MatView<T>, channels: int)
    requires
        m.wf(),
        m.channels() == channels,
        1 <= channels <= 3,
    ensures
        image_of_array(array_of_image(m), channels) is Some,
        image_of_array(array_of_image(m), channels).unwrap().rows == m.rows,
        image_of_array(array_of_image(m), channels).unwrap().cols == m.cols,
        image_of_array(array_of_image(m), channels).unwrap().channels() == m.channels(),
        image_of_array(array_of_image(m), channels).unwrap().data == m.data,
        image_of_array(array_of_image(m), channels).unwrap().wf(),
{
}

/// Converting an array to an image and back gives the array's shape and
/// elements again, wherever the first conversion succeeds.
pub proof fn lemma_image_round_trip<T: Element>(a: ArrayView<T>, channels: int)
    requires
        1 <= channels <= 3,
        image_of_array(a, channels) is Some,
    ensures
        array_of_image(image_of_array(a, channels).unwrap()) == a,
        image_of_array(a, channels).unwrap().wf(),
{
}

} // verus!
