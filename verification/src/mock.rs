//! Small sample images: a canvas of 7 by 6 pixels in three channels, black
//! but for filled white rectangles.
use crate::mat::{Mat, MatView};
use vstd::pervasive::unreached;
use vstd::prelude::*;

verus! {

/// The width of the canvas, in pixels.
pub const CANVAS_COLS: usize = 7;

/// The height of the canvas, in pixels.
pub const CANVAS_ROWS: usize = 6;

/// The number of channels of the canvas.
pub const CANVAS_CHANNELS: usize = 3;

/// A rectangle of pixels: its top left corner, and its extent.
#[derive(Clone, Copy, Debug, PartialEq, Eq, Structural)]
pub struct Rect {
    pub left: usize,
    pub top: usize,
    pub width: usize,
    pub height: usize,
}

impl Rect {
    /// Whether the pixel in row `row` and column `col` lies in the
    /// rectangle.
    pub open spec fn spec_contains(self, row: int, col: int) -> bool {
        self.top <= row < self.top + self.height && self.left <= col < self.left + self.width
    }

    /// Whether the pixel in row `row` and column `col` lies in the
    /// rectangle.
    pub fn contains(&self, row: usize, col: usize) -> (inside: bool)
        ensures
            inside == self.spec_contains(row as int, col as int),
    {
        self.top <= row && row - self.top < self.height && self.left <= col && col - self.left
            < self.width
    }
}

/// The element at index `i` of a canvas on which `a` and `b` are filled:
/// 255 in every channel of a pixel inside one of them, and 0 elsewhere.
pub open spec fn canvas_element(a: Rect, b: Rect, i: int) -> u8 {
    let pixel = i / 3;
    let row = pixel / 7;
    let col = pixel % 7;
    if a.spec_contains(row, col) || b.spec_contains(row, col) {
        255
    } else {
        0
    }
}

/// The elements of a canvas on which `a` and `b` are filled.
pub open spec fn canvas_elements(a: Rect, b: Rect) -> Seq<u8> {
    Seq::new(126, |i: int| canvas_element(a, b, i))
}

/// The canvas on which `a` and `b` are filled, as an image.
pub open spec fn canvas(a: Rect, b: Rect) -> MatView<u8> {
    MatView { rows: 6, cols: 7, code: 16, data: canvas_elements(a, b) }
}

/// The rectangle without pixels.
pub open spec fn no_rect() -> Rect {
    Rect { left: 0, top: 0, width: 0, height: 0 }
}

/// Paints the canvas on which `a` and `b` are filled.
pub fn paint(a: Rect, b: Rect) -> (m: Mat<u8, 3>)
    ensures
        m@ == canvas(a, b),
{
    let n: usize = CANVAS_ROWS * CANVAS_COLS * CANVAS_CHANNELS;
    let mut data: Vec<u8> = Vec::new();
    let mut i: usize = 0;
    while i < n
        invariant
            n == 126,
            i <= n,
            data@.len() == i,
            forall|k: int| 0 <= k < i ==> #[trigger] data@[k] == canvas_element(a, b, k),
        decreases n - i,
    {
        let pixel: usize = i / CANVAS_CHANNELS;
        let row: usize = pixel / CANVAS_COLS;
        let col: usize = pixel % CANVAS_COLS;
        if a.contains(row, col) || b.contains(row, col) {
            data.push(255);
        } else {
            data.push(0);
        }
        i = i + 1;
    }
    assert(data@ =~= canvas_elements(a, b));
    match Mat::<u8, 3>::from_shape_vec(CANVAS_ROWS, CANVAS_COLS, data.as_slice()) {
        Ok(m) => m,
        Err(_) => unreached(),
    }
}

impl Mat<u8, 3> {
    /// The canvas that is white all over.
    pub fn mock_7x6_white() -> (m: Self)
        ensures
            m@ == canvas(Rect { left: 0, top: 0, width: 7, height: 6 }, no_rect()),
            m@.data.len() == 126,
            forall|i: int| 0 <= i < 126 ==> m@.data[i] == 255,
    {
        paint(
            Rect { left: 0, top: 0, width: 7, height: 6 },
            Rect { left: 0, top: 0, width: 0, height: 0 },
        )
    }

    /// The canvas with one rectangle, 5 pixels wide and 4 high, which
    /// leaves a black border of one pixel on every side.
    pub fn mock_7x6_square_5x4() -> (m: Self)
        ensures
            m@ == canvas(Rect { left: 1, top: 1, width: 5, height: 4 }, no_rect()),
    {
        paint(
            Rect { left: 1, top: 1, width: 5, height: 4 },
            Rect { left: 0, top: 0, width: 0, height: 0 },
        )
    }

    /// The canvas with two rectangles side by side, each 2 pixels wide: the
    /// left one 4 pixels high, the right one 3, with one black pixel
    /// between them and around them.
    pub fn mock_7x6_square_2x4_2x3() -> (m: Self)
        ensures
            m@ == canvas(
                Rect { left: 1, top: 1, width: 2, height: 4 },
                Rect { left: 4, top: 1, width: 2, height: 3 },
            ),
    {
        paint(
            Rect { left: 1, top: 1, width: 2, height: 4 },
            Rect { left: 4, top: 1, width: 2, height: 3 },
        )
    }
}

} // verus!
