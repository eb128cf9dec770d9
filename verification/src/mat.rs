//! The image buffer: a grid of elements of one type, each pixel holding a
//! fixed number of channels.
use crate::consts::{make_type, make_type_spec, DataTypes};
use crate::native::Request;
use crate::result::{signal_message, Error, FFIResult, Origin};
use vstd::prelude::*;
use vstd::slice::slice_to_vec;

verus! {

/// An element type that an image can hold.
pub trait Element: Copy {
    /// The bare depth that names this type in a type code.
    spec fn spec_depth() -> DataTypes;

    /// The value that a fresh buffer is filled with.
    spec fn spec_zero() -> Self;

    /// The unit value.
    spec fn spec_one() -> Self;

    /// The bare depth that names this type in a type code.
    fn depth() -> (d: DataTypes)
        ensures
            d == Self::spec_depth(),
            d.is_depth(),
    ;

    /// The value that a fresh buffer is filled with.
    fn zero() -> (z: Self)
        ensures
            z == Self::spec_zero(),
    ;

    /// The unit value.
    fn one() -> (o: Self)
        ensures
            o == Self::spec_one(),
    ;
}

impl Element for u8 {
    open spec fn spec_depth() -> DataTypes {
        DataTypes::CV_8U
    }

    open spec fn spec_zero() -> u8 {
        0
    }

    open spec fn spec_one() -> u8 {
        1
    }

    fn depth() -> (d: DataTypes) {
        DataTypes::CV_8U
    }

    fn zero() -> (z: u8) {
        0
    }

    fn one() -> (o: u8) {
        1
    }
}

impl Element for i8 {
    open spec fn spec_depth() -> DataTypes {
        DataTypes::CV_8S
    }

    open spec fn spec_zero() -> i8 {
        0
    }

    open spec fn spec_one() -> i8 {
        1
    }

    fn depth() -> (d: DataTypes) {
        DataTypes::CV_8S
    }

    fn zero() -> (z: i8) {
        0
    }

    fn one() -> (o: i8) {
        1
    }
}

impl Element for u16 {
    open spec fn spec_depth() -> DataTypes {
        DataTypes::CV_16U
    }

    open spec fn spec_zero() -> u16 {
        0
    }

    open spec fn spec_one() -> u16 {
        1
    }

    fn depth() -> (d: DataTypes) {
        DataTypes::CV_16U
    }

    fn zero() -> (z: u16) {
        0
    }

    fn one() -> (o: u16) {
        1
    }
}

impl Element for i16 {
    open spec fn spec_depth() -> DataTypes {
        DataTypes::CV_16S
    }

    open spec fn spec_zero() -> i16 {
        0
    }

    open spec fn spec_one() -> i16 {
        1
    }

    fn depth() -> (d: DataTypes) {
        DataTypes::CV_16S
    }

    fn zero() -> (z: i16) {
        0
    }

    fn one() -> (o: i16) {
        1
    }
}

impl Element for i32 {
    open spec fn spec_depth() -> DataTypes {
        DataTypes::CV_32S
    }

    open spec fn spec_zero() -> i32 {
        0
    }

    open spec fn spec_one() -> i32 {
        1
    }

    fn depth() -> (d: DataTypes) {
        DataTypes::CV_32S
    }

    fn zero() -> (z: i32) {
        0
    }

    fn one() -> (o: i32) {
        1
    }
}

/// The channel counts that an image type can be built with. It is
/// implemented for 1, 2 and 3 channels of each element type, so that asking
/// for any other count does not compile.
pub trait Supported<const C: usize> {
    /// A supported channel count is 1, 2 or 3.
    proof fn channel_bound()
        ensures
            1 <= C <= 3,
    ;
}

/// An image: `rows` by `cols` pixels, stored row by row, each pixel as its
/// channels in order. `T` and `C` say which element type and channel count
/// the image is built with; the type code records what it actually holds.
pub struct Mat<T, const C: usize> {
    rows: i32,
    cols: i32,
    code: i32,
    data: Vec<T>,
}

impl<T: Element> Supported<1> for Mat<T, 1> {
    proof fn channel_bound() {
    }
}

impl<T: Element> Supported<2> for Mat<T, 2> {
    proof fn channel_bound() {
    }
}

impl<T: Element> Supported<3> for Mat<T, 3> {
    proof fn channel_bound() {
    }
}

/// What a native array holds, as it is read off the array: its shape, its
/// type code and its elements.
pub struct RawMat<T> {
    pub rows: i32,
    pub cols: i32,
    pub code: i32,
    pub data: Vec<T>,
}

impl<T> View for RawMat<T> {
    type V = MatView<T>;

    open spec fn view(&self) -> MatView<T> {
        MatView {
            rows: self.rows as int,
            cols: self.cols as int,
            code: self.code as int,
            data: self.data@,
        }
    }
}

/// The channel count that the type code `code` names.
pub open spec fn code_channels(code: int) -> int {
    code / 8 + 1
}

/// What an image holds.
pub struct MatView<T> {
    pub rows: int,
    pub cols: int,
    pub code: int,
    pub data: Seq<T>,
}

impl<T> MatView<T> {
    /// The channel count that the type code names.
    pub open spec fn channels(self) -> int {
        code_channels(self.code)
    }

    /// The shape and the buffer agree, and every count fits the 32-bit
    /// integers in which they are reported.
    pub open spec fn wf(self) -> bool {
        &&& 0 <= self.rows <= i32::MAX
        &&& 0 <= self.cols <= i32::MAX
        &&& 0 <= self.code <= i32::MAX
        &&& self.data.len() == self.rows * self.cols * self.channels()
        &&& self.data.len() <= i32::MAX
    }
}

/// Whether an image of this shape can be held: each count, and the number
/// of elements, fits a signed 32-bit integer.
pub open spec fn shape_fits(rows: int, cols: int, channels: int) -> bool {
    &&& 0 <= rows <= i32::MAX
    &&& 0 <= cols <= i32::MAX
    &&& rows * cols * channels <= i32::MAX
}

/// A buffer of `n` elements in which the first channel of each pixel of
/// `channels` channels holds `first` and every other channel `rest`.
pub open spec fn channel_pattern<T>(n: int, channels: int, first: T, rest: T) -> Seq<T> {
    Seq::new(
        n as nat,
        |i: int|
            if i % channels == 0 {
                first
            } else {
                rest
            },
    )
}

/// An allocation failure that carries no message.
pub open spec fn is_allocation_failure(e: Error) -> bool {
    e.spec_origin() == Some(Origin::Allocation) && e.spec_message() == Seq::<char>::empty()
}

/// The number of elements of a `rows` by `cols` image of `channels`
/// channels, where it fits a `usize`.
fn element_count(rows: usize, cols: usize, channels: usize) -> (n: Option<usize>)
    ensures
        n is Some <==> rows * cols * channels <= usize::MAX,
        n is Some ==> n.unwrap() == rows * cols * channels,
{
    match rows.checked_mul(cols) {
        Some(cells) => cells.checked_mul(channels),
        None => {
            if channels == 0 {
                assert(rows * cols * channels == 0) by (nonlinear_arith)
                    requires
                        channels == 0,
                ;
                Some(0)
            } else {
                assert(rows * cols * channels > usize::MAX) by (nonlinear_arith)
                    requires
                        rows * cols > usize::MAX,
                        channels >= 1,
                ;
                None
            }
        },
    }
}

/// Builds the buffer that `channel_pattern` describes.
fn fill_pattern<T: Copy>(n: usize, channels: usize, first: T, rest: T) -> (data: Vec<T>)
    requires
        channels >= 1,
    ensures
        data@ == channel_pattern(n as int, channels as int, first, rest),
{
    let mut data: Vec<T> = Vec::new();
    let mut i: usize = 0;
    while i < n
        invariant
            i <= n,
            channels >= 1,
            data@ == channel_pattern(i as int, channels as int, first, rest),
        decreases n - i,
    {
        if i % channels == 0 {
            data.push(first);
        } else {
            data.push(rest);
        }
        i = i + 1;
        assert(data@ =~= channel_pattern(i as int, channels as int, first, rest));
    }
    data
}

/// The failure to allocate, without a message.
fn no_memory() -> (e: Error)
    ensures
        is_allocation_failure(e),
{
    Error::native(Origin::Allocation, String::new())
}

impl<T, const C: usize> View for Mat<T, C> {
    type V = MatView<T>;

    closed spec fn view(&self) -> MatView<T> {
        MatView {
            rows: self.rows as int,
            cols: self.cols as int,
            code: self.code as int,
            data: self.data@,
        }
    }
}

impl<T, const C: usize> Mat<T, C> {
    #[verifier::type_invariant]
    spec fn inv(self) -> bool {
        self@.wf()
    }

    /// An image without a shape: no rows, no columns, no elements, and the
    /// type code 0.
    pub fn new() -> (r: Result<Self, Error>)
        ensures
            r matches Ok(m) && m@ == (MatView::<T> { rows: 0, cols: 0, code: 0, data: Seq::empty() }),
    {
        let data: Vec<T> = Vec::new();
        assert(code_channels(0) == 1);
        assert(0 * 0 * code_channels(0) == 0);
        Ok(Mat { rows: 0, cols: 0, code: 0, data })
    }

    /// Takes over what a native array holds. The parts are accepted where
    /// the buffer has one element for each channel of each pixel and all
    /// counts fit; anything else is a shape mismatch.
    pub fn from_raw(raw: RawMat<T>) -> (r: Result<Self, Error>)
        ensures
            raw@.wf() ==> (r matches Ok(m) && m@ == raw@),
            !raw@.wf() ==> (r matches Err(e) && e == Error::ShapeMismatch),
    {
        if raw.rows < 0 || raw.cols < 0 || raw.code < 0 {
            return Err(Error::ShapeMismatch);
        }
        let channels: usize = (raw.code / 8 + 1) as usize;
        let len: usize = raw.data.len();
        match element_count(raw.rows as usize, raw.cols as usize, channels) {
            Some(n) => {
                if n == len && len <= 0x7fff_ffff {
                    Ok(Mat { rows: raw.rows, cols: raw.cols, code: raw.code, data: raw.data })
                } else {
                    Err(Error::ShapeMismatch)
                }
            },
            None => Err(Error::ShapeMismatch),
        }
    }

    /// Gives up the image for its parts.
    pub fn into_raw(self) -> (raw: RawMat<T>)
        ensures
            raw@ == self@,
            raw@.wf(),
    {
        proof {
            use_type_invariant(&self);
        }
        RawMat { rows: self.rows, cols: self.cols, code: self.code, data: self.data }
    }

    /// What the type code decodes to: `None` where it names no known depth
    /// and channel count.
    pub fn data_type(&self) -> (t: Option<DataTypes>)
        ensures
            t == DataTypes::spec_from_bits(self@.code as i32),
            t is Some <==> self@.code < 32,
            t is Some ==> t.unwrap().spec_channels() == self@.channels(),
    {
        proof {
            use_type_invariant(self);
        }
        DataTypes::from_bits(self.code)
    }

    /// The raw type code.
    pub fn code(&self) -> (code: i32)
        ensures
            code == self@.code,
    {
        self.code
    }

    /// The elements, row by row, each pixel as its channels in order.
    pub fn data(&self) -> (elements: &[T])
        ensures
            elements@ == self@.data,
            elements@.len() == self@.rows * self@.cols * self@.channels(),
            self@.wf(),
    {
        proof {
            use_type_invariant(self);
        }
        self.data.as_slice()
    }

    /// The number of elements: one for each channel of each pixel.
    pub fn size(&self) -> (n: i32)
        ensures
            n == self@.data.len(),
            n == self@.rows * self@.cols * self@.channels(),
    {
        proof {
            use_type_invariant(self);
        }
        self.data.len() as i32
    }

    /// The number of columns.
    pub fn cols(&self) -> (n: i32)
        ensures
            n == self@.cols,
            n >= 0,
    {
        proof {
            use_type_invariant(self);
        }
        self.cols
    }

    /// The number of rows.
    pub fn rows(&self) -> (n: i32)
        ensures
            n == self@.rows,
            n >= 0,
    {
        proof {
            use_type_invariant(self);
        }
        self.rows
    }

    /// The number of channels that the type code names.
    pub fn channels(&self) -> (n: i32)
        ensures
            n == self@.channels(),
            n >= 1,
    {
        proof {
            use_type_invariant(self);
        }
        self.code / 8 + 1
    }
}

impl<T: Element, const C: usize> Mat<T, C> where Self: Supported<C> {
    /// The type code that images of this type are built with.
    pub fn type_code() -> (code: i32)
        ensures
            code == make_type_spec(T::spec_depth(), C as int),
            code_channels(code as int) == C,
            1 <= C <= 3,
    {
        proof {
            <Self as Supported<C>>::channel_bound();
        }
        make_type(T::depth(), C as i32)
    }

    /// A `rows` by `cols` image in which every element is zero. It is built
    /// where the shape fits; where it does not, the allocation fails.
    pub fn from_shape(rows: usize, cols: usize) -> (r: Result<Self, Error>)
        ensures
            shape_fits(rows as int, cols as int, C as int) ==> (r matches Ok(m) && m@ == (MatView {
                rows: rows as int,
                cols: cols as int,
                code: make_type_spec(T::spec_depth(), C as int) as int,
                data: channel_pattern(rows * cols * C, C as int, T::spec_zero(), T::spec_zero()),
            })),
            !shape_fits(rows as int, cols as int, C as int) ==> (r matches Err(e)
                && is_allocation_failure(e)),
    {
        let code = Self::type_code();
        match element_count(rows, cols, C) {
            Some(n) => {
                if rows <= 0x7fff_ffff && cols <= 0x7fff_ffff && n <= 0x7fff_ffff {
                    let data = fill_pattern(n, C, T::zero(), T::zero());
                    Ok(Mat { rows: rows as i32, cols: cols as i32, code, data })
                } else {
                    Err(no_memory())
                }
            },
            None => Err(no_memory()),
        }
    }

    /// A `rows` by `cols` image that holds a copy of `data`. A buffer whose
    /// length is not `rows * cols * C` is a shape mismatch, and no element of
    /// it is read. A buffer of the right length is copied where the shape
    /// fits; where it does not, the allocation fails.
    pub fn from_shape_vec(rows: usize, cols: usize, data: &[T]) -> (r: Result<Self, Error>)
        ensures
            data@.len() != rows * cols * C ==> (r matches Err(e) && e == Error::ShapeMismatch),
            data@.len() == rows * cols * C && !shape_fits(rows as int, cols as int, C as int) ==> (
            r matches Err(e) && is_allocation_failure(e)),
            data@.len() == rows * cols * C && shape_fits(rows as int, cols as int, C as int) ==> (
            r matches Ok(m) && m@ == (MatView {
                rows: rows as int,
                cols: cols as int,
                code: make_type_spec(T::spec_depth(), C as int) as int,
                data: data@,
            })),
    {
        let code = Self::type_code();
        let len: usize = data.len();
        match element_count(rows, cols, C) {
            Some(n) => {
                if n != len {
                    Err(Error::ShapeMismatch)
                } else if rows <= 0x7fff_ffff && cols <= 0x7fff_ffff && n <= 0x7fff_ffff {
                    let copy = slice_to_vec(data);
                    Ok(Mat { rows: rows as i32, cols: cols as i32, code, data: copy })
                } else {
                    Err(no_memory())
                }
            },
            None => Err(Error::ShapeMismatch),
        }
    }

    /// A `rows` by `cols` image in which the first channel of every pixel is
    /// one and every other channel is zero. A negative count, or a shape
    /// that does not fit, fails the allocation.
    pub fn ones(rows: i32, cols: i32) -> (r: Result<Self, Error>)
        ensures
            shape_fits(rows as int, cols as int, C as int) ==> (r matches Ok(m) && m@ == (MatView {
                rows: rows as int,
                cols: cols as int,
                code: make_type_spec(T::spec_depth(), C as int) as int,
                data: channel_pattern(rows * cols * C, C as int, T::spec_one(), T::spec_zero()),
            })),
            !shape_fits(rows as int, cols as int, C as int) ==> (r matches Err(e)
                && is_allocation_failure(e)),
    {
        let code = Self::type_code();
        if rows < 0 || cols < 0 {
            return Err(no_memory());
        }
        match element_count(rows as usize, cols as usize, C) {
            Some(n) => {
                if n <= 0x7fff_ffff {
                    let data = fill_pattern(n, C, T::one(), T::zero());
                    Ok(Mat { rows, cols, code, data })
                } else {
                    Err(no_memory())
                }
            },
            None => Err(no_memory()),
        }
    }
}

impl<T, const C: usize> Request<Mat<T, C>> {
    /// Takes what the native call handed back for its destination. Where
    /// the call succeeded the result is the image that the destination
    /// holds, or a shape mismatch if its parts do not agree. Where the call
    /// failed, the destination is dropped unread, and the result is the
    /// failure of the call's kind with the message that it left.
    pub fn complete(self, reply: FFIResult<RawMat<T>>) -> (r: Result<Mat<T, C>, Error>)
        ensures
            reply.error is None && reply.ok@.wf() ==> (r matches Ok(m) && m@ == reply.ok@),
            reply.error is None && !reply.ok@.wf() ==> (r matches Err(e) && e
                == Error::ShapeMismatch),
            reply.error is Some ==> (r matches Err(e) && e.spec_origin() == Some(
                self@.spec_origin(),
            ) && e.spec_message() == signal_message(reply.error.unwrap()@)),
    {
        let origin = self.call().origin();
        match reply.into_result(origin) {
            Ok(raw) => Mat::from_raw(raw),
            Err(e) => Err(e),
        }
    }
}

} // verus!
