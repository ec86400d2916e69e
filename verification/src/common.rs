//! Shared value types: points, series, alignment, and the deterministic
//! text metrics used for layout.

use vstd::prelude::*;

verus! {

/// Every coordinate handed to the renderer must lie within this many tenths
/// of the origin, so that offset translation and formatting never overflow.
pub const MAX_COORD: i64 = 1_000_000_000;

/// The largest data value (in tenths) the axis engine accepts.
pub const MAX_VALUE: i64 = 100_000_000_000;

/// A point on the canvas, both coordinates in tenths.
#[derive(Clone, Copy, PartialEq, Eq, Structural, Debug)]
pub struct Point {
    pub x: i64,
    pub y: i64,
}

impl Point {
    /// Whether both coordinates lie within the drawable range.
    pub open spec fn bounded(self) -> bool {
        -MAX_COORD <= self.x <= MAX_COORD && -MAX_COORD <= self.y <= MAX_COORD
    }

    /// A point from its coordinates.
    pub fn new(x: i64, y: i64) -> (p: Point)
        ensures
            p == (Point { x, y }),
    {
        Point { x, y }
    }
}

/// Whether a series is drawn as grouped bars or as a line trace.
#[derive(Clone, Copy, PartialEq, Eq, Structural, Debug)]
pub enum SeriesCategory {
    Bar,
    Line,
}

/// One named sequence of data values (in tenths), drawn as one bar group
/// or one line trace.  The index is assigned once at construction and
/// selects the series color from the palette.
pub struct Series {
    pub name: String,
    pub data: Vec<i64>,
    pub category: Option<SeriesCategory>,
    pub index: Option<usize>,
    pub label_show: bool,
}

impl Series {
    /// A fresh series with no category, no index and hidden labels.
    pub fn new(name: String, data: Vec<i64>) -> (s: Series)
        ensures
            s.name == name,
            s.data == data,
            s.category is None,
            s.index is None,
            s.label_show == false,
    {
        Series { name, data, category: None, index: None, label_show: false }
    }
}

/// Horizontal alignment of a block of text within its region.
#[derive(Clone, Copy, PartialEq, Eq, Structural, Debug)]
pub enum Align {
    Left,
    Center,
    Right,
}

/// The swatch drawn beside each legend entry.
#[derive(Clone, Copy, PartialEq, Eq, Structural, Debug)]
pub enum LegendCategory {
    Normal,
    Rect,
}

/// The one structured rendering failure: a configuration outside the
/// renderer's working ranges.  All-or-nothing: no partial document is ever
/// returned beside it.
#[derive(Clone, Copy, PartialEq, Eq, Structural, Debug)]
pub enum RenderError {
    InvalidConfig,
}

impl RenderError {
    /// A short description of the failure.
    pub fn message(&self) -> (s: String)
        ensures
            s@ == "invalid chart configuration"@,
    {
        "invalid chart configuration".to_owned()
    }
}

/// Division of non-negative quantities.
pub fn div_nn(a: i64, b: i64) -> (r: i64)
    requires
        0 <= a,
        1 <= b,
    ensures
        r == a as int / b as int,
        0 <= r <= a,
{
    let q = (a as u64) / (b as u64);
    proof {
        let ai = a as int;
        let bi = b as int;
        assert(0 <= ai / bi <= ai) by (nonlinear_arith)
            requires
                0 <= ai,
                1 <= bi,
        ;
    }
    q as i64
}

/// The width (in tenths) the deterministic text metrics assign to a piece
/// of text: six tenths of the font size per character.
pub open spec fn spec_text_width(text: Seq<char>, font_size: int) -> int {
    text.len() * font_size * 3 / 5
}

/// Measures a piece of text with the deterministic metrics: every glyph
/// advances by six tenths of the font size.
pub fn measure_text_width(text: &str, font_size: i64) -> (w: i64)
    requires
        0 <= font_size <= 10000,
        text@.len() <= 1000000,
    ensures
        w == spec_text_width(text@, font_size as int),
        0 <= w <= 1000000 * 6000,
{
    let l = text.unicode_len();
    assert(l <= 1000000);
    let n = l as u64;
    let fs = font_size as u64;
    assert(n * fs <= 10_000_000_000) by (nonlinear_arith)
        requires
            n <= 1000000,
            fs <= 10000,
    ;
    let w = n * fs * 3 / 5;
    w as i64
}

} // verus!
