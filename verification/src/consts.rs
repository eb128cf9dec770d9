//! Numeric type codes: an element depth packed together with a channel count.
use vstd::prelude::*;

verus! {

/// The element kinds and the packed type codes built from them.
///
/// The first eight names are the bare depths. Each of the others packs a
/// depth with a channel count of 1 to 4: the three low bits of its code hold
/// the depth, the bits above them the channel count less one. A bare depth
/// carries the same bits as its single-channel code.
#[allow(non_camel_case_types)]
#[derive(Clone, Copy, Debug, PartialEq, Eq, Structural)]
pub enum DataTypes {
    /// Bare depth: unsigned 8-bit elements.
    CV_8U,
    /// Bare depth: signed 8-bit elements.
    CV_8S,
    /// Bare depth: unsigned 16-bit elements.
    CV_16U,
    /// Bare depth: signed 16-bit elements.
    CV_16S,
    /// Bare depth: signed 32-bit elements.
    CV_32S,
    /// Bare depth: 32-bit float elements.
    CV_32F,
    /// Bare depth: 64-bit float elements.
    CV_64F,
    /// Bare depth: 16-bit float elements.
    CV_16F,
    CV_8UC1,
    CV_8UC2,
    CV_8UC3,
    CV_8UC4,
    CV_8SC1,
    CV_8SC2,
    CV_8SC3,
    CV_8SC4,
    CV_16UC1,
    CV_16UC2,
    CV_16UC3,
    CV_16UC4,
    CV_16SC1,
    CV_16SC2,
    CV_16SC3,
    CV_16SC4,
    CV_32SC1,
    CV_32SC2,
    CV_32SC3,
    CV_32SC4,
    CV_32FC1,
    CV_32FC2,
    CV_32FC3,
    CV_32FC4,
    CV_64FC1,
    CV_64FC2,
    CV_64FC3,
    CV_64FC4,
    CV_16FC1,
    CV_16FC2,
    CV_16FC3,
    CV_16FC4,
}

/// How the values that wrap a pixel at the image border are chosen.
#[allow(non_camel_case_types)]
#[derive(Clone, Copy, Debug, PartialEq, Eq, Structural)]
pub enum BorderTypes {
    BORDER_CONSTANT,
    BORDER_REPLICATE,
    BORDER_REFLECT,
    BORDER_WRAP,
    BORDER_REFLECT_101,
    BORDER_TRANSPARENT,
    BORDER_ISOLATED,
}

impl BorderTypes {
    /// The number that names the border type to the native library.
    pub open spec fn spec_bits(self) -> i32 {
        match self {
            BorderTypes::BORDER_CONSTANT => 0,
            BorderTypes::BORDER_REPLICATE => 1,
            BorderTypes::BORDER_REFLECT => 2,
            BorderTypes::BORDER_WRAP => 3,
            BorderTypes::BORDER_REFLECT_101 => 4,
            BorderTypes::BORDER_TRANSPARENT => 5,
            BorderTypes::BORDER_ISOLATED => 16,
        }
    }

    /// The number that names the border type to the native library.
    pub fn bits(&self) -> (b: i32)
        ensures
            b == self.spec_bits(),
    {
        match self {
            BorderTypes::BORDER_CONSTANT => 0,
            BorderTypes::BORDER_REPLICATE => 1,
            BorderTypes::BORDER_REFLECT => 2,
            BorderTypes::BORDER_WRAP => 3,
            BorderTypes::BORDER_REFLECT_101 => 4,
            BorderTypes::BORDER_TRANSPARENT => 5,
            BorderTypes::BORDER_ISOLATED => 16,
        }
    }

    /// The border type that operations use unless told otherwise.
    pub fn default_border() -> (b: BorderTypes)
        ensures
            b == BorderTypes::BORDER_REFLECT_101,
    {
        BorderTypes::BORDER_REFLECT_101
    }
}

/// A pair of coordinates.
#[derive(Clone, Copy, Debug, PartialEq, Eq, Structural)]
pub struct PointBase<T> {
    pub x: T,
    pub y: T,
}

/// A width and a height.
#[derive(Clone, Copy, Debug, PartialEq, Eq, Structural)]
pub struct SizeT<T> {
    pub width: T,
    pub height: T,
}

pub type Point2i = PointBase<i32>;

pub type Size2i = SizeT<i32>;

pub type Size = Size2i;

impl Default for PointBase<i32> {
    /// The point that stands for "the usual place": both coordinates -1.
    fn default() -> (p: PointBase<i32>)
        ensures
            p.x == -1,
            p.y == -1,
    {
        PointBase { x: -1, y: -1 }
    }
}

/// The number of bits by which the channel count is shifted in a code.
pub const CHANNEL_SHIFT: i32 = 3;

/// The largest channel count that a code can name.
pub const MAX_CHANNELS: i32 = 4;

/// The code that packs the depth bits of `depth` with `ch` channels.
pub open spec fn make_type_spec(depth: DataTypes, ch: int) -> i32 {
    (depth.spec_bits() % 8 + 8 * (ch - 1)) as i32
}

/// Whether `bits` is the code of some depth with 1 to 4 channels.
pub open spec fn is_type_code(bits: int) -> bool {
    0 <= bits < 32
}

/// Packs a depth and a channel count into one code: the depth bits of
/// `depth`, and `ch - 1` shifted above them.
pub fn make_type(depth: DataTypes, ch: i32) -> (code: i32)
    requires
        1 <= ch <= MAX_CHANNELS,
    ensures
        code == make_type_spec(depth, ch as int),
        is_type_code(code as int),
{
    let depth_max: i32 = 1 << CHANNEL_SHIFT;
    assert(depth_max == 8) by (bit_vector)
        requires
            depth_max == 1i32 << 3i32,
    ;
    let mat_depth_mask: i32 = depth_max - 1;
    let bits: i32 = depth.bits();
    let mat_depth: i32 = bits & mat_depth_mask;
    assert(mat_depth == bits % 8) by (bit_vector)
        requires
            mat_depth == bits & 7i32,
            0 <= bits < 32,
    ;
    let above: i32 = ch - 1;
    let upper: i32 = above << CHANNEL_SHIFT;
    assert(upper == 8 * above) by (bit_vector)
        requires
            upper == above << 3i32,
            0 <= above < 4,
    ;
    mat_depth + upper
}

impl DataTypes {
    /// The code of this name.
    pub open spec fn spec_bits(self) -> i32 {
        match self {
            DataTypes::CV_8U => 0,
            DataTypes::CV_8S => 1,
            DataTypes::CV_16U => 2,
            DataTypes::CV_16S => 3,
            DataTypes::CV_32S => 4,
            DataTypes::CV_32F => 5,
            DataTypes::CV_64F => 6,
            DataTypes::CV_16F => 7,
            DataTypes::CV_8UC1 => 0,
            DataTypes::CV_8UC2 => 8,
            DataTypes::CV_8UC3 => 16,
            DataTypes::CV_8UC4 => 24,
            DataTypes::CV_8SC1 => 1,
            DataTypes::CV_8SC2 => 9,
            DataTypes::CV_8SC3 => 17,
            DataTypes::CV_8SC4 => 25,
            DataTypes::CV_16UC1 => 2,
            DataTypes::CV_16UC2 => 10,
            DataTypes::CV_16UC3 => 18,
            DataTypes::CV_16UC4 => 26,
            DataTypes::CV_16SC1 => 3,
            DataTypes::CV_16SC2 => 11,
            DataTypes::CV_16SC3 => 19,
            DataTypes::CV_16SC4 => 27,
            DataTypes::CV_32SC1 => 4,
            DataTypes::CV_32SC2 => 12,
            DataTypes::CV_32SC3 => 20,
            DataTypes::CV_32SC4 => 28,
            DataTypes::CV_32FC1 => 5,
            DataTypes::CV_32FC2 => 13,
            DataTypes::CV_32FC3 => 21,
            DataTypes::CV_32FC4 => 29,
            DataTypes::CV_64FC1 => 6,
            DataTypes::CV_64FC2 => 14,
            DataTypes::CV_64FC3 => 22,
            DataTypes::CV_64FC4 => 30,
            DataTypes::CV_16FC1 => 7,
            DataTypes::CV_16FC2 => 15,
            DataTypes::CV_16FC3 => 23,
            DataTypes::CV_16FC4 => 31,
        }
    }

    /// The packed name that carries `bits`, if there is one.
    pub open spec fn spec_from_bits(bits: i32) -> Option<DataTypes> {
        match bits {
            0 => Some(DataTypes::CV_8UC1),
            1 => Some(DataTypes::CV_8SC1),
            2 => Some(DataTypes::CV_16UC1),
            3 => Some(DataTypes::CV_16SC1),
            4 => Some(DataTypes::CV_32SC1),
            5 => Some(DataTypes::CV_32FC1),
            6 => Some(DataTypes::CV_64FC1),
            7 => Some(DataTypes::CV_16FC1),
            8 => Some(DataTypes::CV_8UC2),
            9 => Some(DataTypes::CV_8SC2),
            10 => Some(DataTypes::CV_16UC2),
            11 => Some(DataTypes::CV_16SC2),
            12 => Some(DataTypes::CV_32SC2),
            13 => Some(DataTypes::CV_32FC2),
            14 => Some(DataTypes::CV_64FC2),
            15 => Some(DataTypes::CV_16FC2),
            16 => Some(DataTypes::CV_8UC3),
            17 => Some(DataTypes::CV_8SC3),
            18 => Some(DataTypes::CV_16UC3),
            19 => Some(DataTypes::CV_16SC3),
            20 => Some(DataTypes::CV_32SC3),
            21 => Some(DataTypes::CV_32FC3),
            22 => Some(DataTypes::CV_64FC3),
            23 => Some(DataTypes::CV_16FC3),
            24 => Some(DataTypes::CV_8UC4),
            25 => Some(DataTypes::CV_8SC4),
            26 => Some(DataTypes::CV_16UC4),
            27 => Some(DataTypes::CV_16SC4),
            28 => Some(DataTypes::CV_32SC4),
            29 => Some(DataTypes::CV_32FC4),
            30 => Some(DataTypes::CV_64FC4),
            31 => Some(DataTypes::CV_16FC4),
            _ => None,
        }
    }

    /// The bare depth whose bits are the three low bits of this code.
    pub open spec fn spec_depth(self) -> DataTypes {
        match (self.spec_bits() % 8) as i32 {
            0 => DataTypes::CV_8U,
            1 => DataTypes::CV_8S,
            2 => DataTypes::CV_16U,
            3 => DataTypes::CV_16S,
            4 => DataTypes::CV_32S,
            5 => DataTypes::CV_32F,
            6 => DataTypes::CV_64F,
            _ => DataTypes::CV_16F,
        }
    }

    /// The channel count that this code names; 1 for a bare depth.
    pub open spec fn spec_channels(self) -> int {
        self.spec_bits() / 8 + 1
    }

    /// Whether this is one of the eight bare depths.
    pub open spec fn is_depth(self) -> bool {
        self.spec_depth() == self
    }

    /// The raw code.
    pub fn bits(&self) -> (b: i32)
        ensures
            b == self.spec_bits(),
            is_type_code(b as int),
    {
        match self {
            DataTypes::CV_8U => 0,
            DataTypes::CV_8S => 1,
            DataTypes::CV_16U => 2,
            DataTypes::CV_16S => 3,
            DataTypes::CV_32S => 4,
            DataTypes::CV_32F => 5,
            DataTypes::CV_64F => 6,
            DataTypes::CV_16F => 7,
            DataTypes::CV_8UC1 => 0,
            DataTypes::CV_8UC2 => 8,
            DataTypes::CV_8UC3 => 16,
            DataTypes::CV_8UC4 => 24,
            DataTypes::CV_8SC1 => 1,
            DataTypes::CV_8SC2 => 9,
            DataTypes::CV_8SC3 => 17,
            DataTypes::CV_8SC4 => 25,
            DataTypes::CV_16UC1 => 2,
            DataTypes::CV_16UC2 => 10,
            DataTypes::CV_16UC3 => 18,
            DataTypes::CV_16UC4 => 26,
            DataTypes::CV_16SC1 => 3,
            DataTypes::CV_16SC2 => 11,
            DataTypes::CV_16SC3 => 19,
            DataTypes::CV_16SC4 => 27,
            DataTypes::CV_32SC1 => 4,
            DataTypes::CV_32SC2 => 12,
            DataTypes::CV_32SC3 => 20,
            DataTypes::CV_32SC4 => 28,
            DataTypes::CV_32FC1 => 5,
            DataTypes::CV_32FC2 => 13,
            DataTypes::CV_32FC3 => 21,
            DataTypes::CV_32FC4 => 29,
            DataTypes::CV_64FC1 => 6,
            DataTypes::CV_64FC2 => 14,
            DataTypes::CV_64FC3 => 22,
            DataTypes::CV_64FC4 => 30,
            DataTypes::CV_16FC1 => 7,
            DataTypes::CV_16FC2 => 15,
            DataTypes::CV_16FC3 => 23,
            DataTypes::CV_16FC4 => 31,
        }
    }

    /// Decodes a raw code. A code outside the 32 known ones names no depth
    /// and channel count, and gives `None`.
    pub fn from_bits(bits: i32) -> (t: Option<DataTypes>)
        ensures
            t == Self::spec_from_bits(bits),
            t is Some <==> is_type_code(bits as int),
            t is Some ==> t.unwrap().spec_bits() == bits && !t.unwrap().is_depth(),
    {
        match bits {
            0 => Some(DataTypes::CV_8UC1),
            1 => Some(DataTypes::CV_8SC1),
            2 => Some(DataTypes::CV_16UC1),
            3 => Some(DataTypes::CV_16SC1),
            4 => Some(DataTypes::CV_32SC1),
            5 => Some(DataTypes::CV_32FC1),
            6 => Some(DataTypes::CV_64FC1),
            7 => Some(DataTypes::CV_16FC1),
            8 => Some(DataTypes::CV_8UC2),
            9 => Some(DataTypes::CV_8SC2),
            10 => Some(DataTypes::CV_16UC2),
            11 => Some(DataTypes::CV_16SC2),
            12 => Some(DataTypes::CV_32SC2),
            13 => Some(DataTypes::CV_32FC2),
            14 => Some(DataTypes::CV_64FC2),
            15 => Some(DataTypes::CV_16FC2),
            16 => Some(DataTypes::CV_8UC3),
            17 => Some(DataTypes::CV_8SC3),
            18 => Some(DataTypes::CV_16UC3),
            19 => Some(DataTypes::CV_16SC3),
            20 => Some(DataTypes::CV_32SC3),
            21 => Some(DataTypes::CV_32FC3),
            22 => Some(DataTypes::CV_64FC3),
            23 => Some(DataTypes::CV_16FC3),
            24 => Some(DataTypes::CV_8UC4),
            25 => Some(DataTypes::CV_8SC4),
            26 => Some(DataTypes::CV_16UC4),
            27 => Some(DataTypes::CV_16SC4),
            28 => Some(DataTypes::CV_32SC4),
            29 => Some(DataTypes::CV_32FC4),
            30 => Some(DataTypes::CV_64FC4),
            31 => Some(DataTypes::CV_16FC4),
            _ => None,
        }
    }

    /// The bare depth of this code.
    pub fn depth(&self) -> (d: DataTypes)
        ensures
            d == self.spec_depth(),
            d.is_depth(),
            d.spec_bits() == self.spec_bits() % 8,
    {
        let low: i32 = self.bits() % 8;
        match low {
            0 => DataTypes::CV_8U,
            1 => DataTypes::CV_8S,
            2 => DataTypes::CV_16U,
            3 => DataTypes::CV_16S,
            4 => DataTypes::CV_32S,
            5 => DataTypes::CV_32F,
            6 => DataTypes::CV_64F,
            _ => DataTypes::CV_16F,
        }
    }

    /// The channel count of this code; 1 for a bare depth.
    pub fn channels(&self) -> (ch: i32)
        ensures
            ch == self.spec_channels(),
            1 <= ch <= MAX_CHANNELS,
    {
        self.bits() / 8 + 1
    }
}

/// Decoding an encoded pair gives the pair back: for each depth and each
/// channel count from 1 to 4, the code that `make_type` packs decodes to a
/// name with that depth and that channel count, and no other bits.
pub proof fn lemma_decode_encode(depth: DataTypes, ch: int)
    requires
        1 <= ch <= 4,
    ensures
        DataTypes::spec_from_bits(make_type_spec(depth, ch)) is Some,
        DataTypes::spec_from_bits(make_type_spec(depth, ch)).unwrap().spec_bits() == make_type_spec(
            depth,
            ch,
        ),
        DataTypes::spec_from_bits(make_type_spec(depth, ch)).unwrap().spec_depth()
            == depth.spec_depth(),
        depth.is_depth() ==> DataTypes::spec_from_bits(
            make_type_spec(depth, ch),
        ).unwrap().spec_depth() == depth,
        DataTypes::spec_from_bits(make_type_spec(depth, ch)).unwrap().spec_channels() == ch,
{
}

/// Encoding a decoded code gives the code back: a code that decodes is the
/// packing of its own depth and channel count.
pub proof fn lemma_encode_decode(bits: i32)
    requires
        is_type_code(bits as int),
    ensures
        DataTypes::spec_from_bits(bits) is Some,
        make_type_spec(
            DataTypes::spec_from_bits(bits).unwrap().spec_depth(),
            DataTypes::spec_from_bits(bits).unwrap().spec_channels(),
        ) == bits,
{
}

/// Two pairs of a bare depth and a channel count that pack to the same code
/// are the same pair.
pub proof fn lemma_make_type_injective(d1: DataTypes, c1: int, d2: DataTypes, c2: int)
    requires
        d1.is_depth(),
        d2.is_depth(),
        1 <= c1 <= 4,
        1 <= c2 <= 4,
        make_type_spec(d1, c1) == make_type_spec(d2, c2),
    ensures
        d1 == d2,
        c1 == c2,
{
}

} // verus!
