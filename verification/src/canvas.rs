//! The canvas / coordinate composition engine: a recursive margin-box
//! coordinate system that accumulates emitted fragments and finalizes them
//! into one document.
//!
//! A `Region` is a transient drawing region: an accumulated origin
//! translation plus the region's size.  Nested views compose by
//! component-wise sum of their margin boxes, so drawing code works in
//! purely local coordinates.  The `Canvas` owns the one insertion-ordered
//! fragment list every view draws into.

use vstd::prelude::*;
use crate::common::{Point, MAX_COORD};
use crate::component::{
    Line, Rect, Polyline, Circle, Polygon, Text, SmoothLine, StraightLine, SmoothLineFill,
    StraightLineFill, Grid, GridParams, spec_polyline_svg, spec_polygon_svg,
    spec_smooth_line_svg, spec_straight_line_svg, spec_smooth_line_fill_svg,
    spec_straight_line_fill_svg, spec_text_svg, spec_grid_svg, spec_opt_view,
};
use crate::path::spec_points_bounded;
use crate::svg::{spec_document_text, generate_svg};

verus! {

/// A margin inset: the distances shaved off each side of a region.
#[derive(Clone, Copy, PartialEq, Eq, Structural, Debug)]
pub struct MarginBox {
    pub left: i64,
    pub top: i64,
    pub right: i64,
    pub bottom: i64,
}

impl MarginBox {
    /// The all-zero inset.
    pub fn zero() -> (m: MarginBox)
        ensures
            m == (MarginBox { left: 0, top: 0, right: 0, bottom: 0 }),
    {
        MarginBox { left: 0, top: 0, right: 0, bottom: 0 }
    }

    /// An inset from its four sides.
    pub fn new(left: i64, top: i64, right: i64, bottom: i64) -> (m: MarginBox)
        ensures
            m == (MarginBox { left, top, right, bottom }),
    {
        MarginBox { left, top, right, bottom }
    }

    /// Whether every side lies within the drawable range.
    pub open spec fn bounded(self) -> bool {
        &&& -MAX_COORD <= self.left <= MAX_COORD
        &&& -MAX_COORD <= self.top <= MAX_COORD
        &&& -MAX_COORD <= self.right <= MAX_COORD
        &&& -MAX_COORD <= self.bottom <= MAX_COORD
    }

    /// The component-wise sum of two insets: the inset equivalent to
    /// applying `self` and then `other`.
    pub open spec fn spec_plus(self, other: MarginBox) -> MarginBox {
        MarginBox {
            left: (self.left + other.left) as i64,
            top: (self.top + other.top) as i64,
            right: (self.right + other.right) as i64,
            bottom: (self.bottom + other.bottom) as i64,
        }
    }

    /// The component-wise sum of two insets.
    pub fn plus(self, other: MarginBox) -> (m: MarginBox)
        requires
            self.bounded(),
            other.bounded(),
        ensures
            m == self.spec_plus(other),
    {
        MarginBox {
            left: self.left + other.left,
            top: self.top + other.top,
            right: self.right + other.right,
            bottom: self.bottom + other.bottom,
        }
    }
}

/// A drawing region: the accumulated translation of its origin and its
/// size, all in tenths.
#[derive(Clone, Copy, PartialEq, Eq, Structural, Debug)]
pub struct Region {
    pub left: i64,
    pub top: i64,
    pub width: i64,
    pub height: i64,
}

impl Region {
    /// Whether the region lies within the drawable range.
    pub open spec fn bounded(self) -> bool {
        &&& -MAX_COORD <= self.left <= MAX_COORD
        &&& -MAX_COORD <= self.top <= MAX_COORD
        &&& -MAX_COORD <= self.width <= MAX_COORD
        &&& -MAX_COORD <= self.height <= MAX_COORD
    }

    /// The sub-region inside a margin box: the origin moves by the
    /// top-left inset and the size shrinks by both insets.
    pub open spec fn spec_child(self, m: MarginBox) -> Region {
        Region {
            left: (self.left + m.left) as i64,
            top: (self.top + m.top) as i64,
            width: (self.width - m.left - m.right) as i64,
            height: (self.height - m.top - m.bottom) as i64,
        }
    }

    /// The sub-region inside a margin box.
    pub fn child(self, m: MarginBox) -> (v: Region)
        requires
            self.bounded(),
            m.bounded(),
        ensures
            v == self.spec_child(m),
    {
        Region {
            left: self.left + m.left,
            top: self.top + m.top,
            width: self.width - m.left - m.right,
            height: self.height - m.top - m.bottom,
        }
    }
}

/// Nested offsets compose: descending into margin box `a` and then into
/// `b` yields exactly the region of the one combined inset `a + b`, so
/// geometry drawn through the nested views is placed identically to
/// geometry drawn through the combined one.
pub proof fn lemma_child_compose(v: Region, a: MarginBox, b: MarginBox)
    requires
        v.bounded(),
        a.bounded(),
        b.bounded(),
    ensures
        v.spec_child(a).spec_child(b) == v.spec_child(a.spec_plus(b)),
{
}

/// The translation a view applies to one point.
pub open spec fn spec_translate_point(p: Point, v: Region) -> Point {
    Point { x: (p.x + v.left) as i64, y: (p.y + v.top) as i64 }
}

/// The translation a view applies to a point run.
pub open spec fn spec_translate_points(pts: Seq<Point>, v: Region) -> Seq<Point> {
    pts.map_values(|p: Point| spec_translate_point(p, v))
}

/// Translates a point run by a view's origin.
fn translate_points(pts: &Vec<Point>, v: Region) -> (out: Vec<Point>)
    requires
        v.bounded(),
        forall|i: int| 0 <= i < pts@.len() ==> (#[trigger] pts@[i]).bounded(),
    ensures
        out@ == spec_translate_points(pts@, v),
{
    let mut out: Vec<Point> = Vec::new();
    let n = pts.len();
    let mut i: usize = 0;
    while i < n
        invariant
            i <= n,
            n == pts@.len(),
            v.bounded(),
            forall|k: int| 0 <= k < pts@.len() ==> (#[trigger] pts@[k]).bounded(),
            out@ == spec_translate_points(pts@.take(i as int), v),
        decreases n - i,
    {
        let p = pts[i];
        out.push(Point { x: p.x + v.left, y: p.y + v.top });
        proof {
            assert(out@ =~= spec_translate_points(pts@.take(i + 1 as int), v));
        }
        i = i + 1;
    }
    proof {
        assert(pts@.take(n as int) =~= pts@);
    }
    out
}

/// The canvas: the overall size and the one insertion-ordered fragment
/// list shared by every view drawn through it.
pub struct Canvas {
    pub width: i64,
    pub height: i64,
    pub frames: Vec<String>,
}

/// The fragments of the canvas, joined in insertion order.
pub open spec fn spec_frames_concat(frames: Seq<Seq<char>>) -> Seq<char>
    decreases frames.len(),
{
    if frames.len() == 0 {
        Seq::<char>::empty()
    } else {
        spec_frames_concat(frames.drop_last()) + frames.last()
    }
}

/// The finished document: the envelope around the joined fragments.
pub open spec fn spec_canvas_svg(width: int, height: int, frames: Seq<Seq<char>>) -> Seq<char> {
    spec_document_text(width, height, spec_frames_concat(frames))
}

impl Canvas {
    /// The fragments emitted so far, in insertion order.
    pub open spec fn frames(self) -> Seq<Seq<char>> {
        self.frames@.map_values(|s: String| s@)
    }

    /// A fresh canvas with no fragments.
    pub fn new(width: i64, height: i64) -> (c: Canvas)
        ensures
            c.width == width,
            c.height == height,
            c.frames() == Seq::<Seq<char>>::empty(),
    {
        let c = Canvas { width, height, frames: Vec::new() };
        proof {
            assert(c.frames() =~= Seq::<Seq<char>>::empty());
        }
        c
    }

    /// The whole drawing region of the canvas.
    pub fn root(&self) -> (v: Region)
        ensures
            v == (Region { left: 0, top: 0, width: self.width, height: self.height }),
    {
        Region { left: 0, top: 0, width: self.width, height: self.height }
    }

    /// Appends one already-rendered fragment.
    fn emit(&mut self, fragment: String)
        ensures
            final(self).width == old(self).width,
            final(self).height == old(self).height,
            final(self).frames() == old(self).frames().push(fragment@),
    {
        let ghost f_view = fragment@;
        self.frames.push(fragment);
        proof {
            assert(self.frames() =~~= old(self).frames().push(f_view));
        }
    }

    /// Draws a line through a view; the emitted fragment is the line
    /// translated by the view's origin.
    pub fn line(&mut self, v: Region, l: Line)
        requires
            v.bounded(),
            l.bounded(),
            spec_translate_line(l, v).bounded(),
        ensures
            final(self).width == old(self).width,
            final(self).height == old(self).height,
            final(self).frames() == old(self).frames().push(spec_translate_line(l, v).spec_svg()),
    {
        let t = Line {
            color: l.color,
            stroke_width: l.stroke_width,
            left: l.left + v.left,
            top: l.top + v.top,
            right: l.right + v.left,
            bottom: l.bottom + v.top,
        };
        let s = t.svg();
        self.emit(s);
    }

    /// Draws a rectangle through a view.
    pub fn rect(&mut self, v: Region, r: Rect)
        requires
            v.bounded(),
            r.bounded(),
            spec_translate_rect(r, v).bounded(),
        ensures
            final(self).width == old(self).width,
            final(self).height == old(self).height,
            final(self).frames() == old(self).frames().push(spec_translate_rect(r, v).spec_svg()),
    {
        let t = Rect {
            color: r.color,
            fill: r.fill,
            left: r.left + v.left,
            top: r.top + v.top,
            width: r.width,
            height: r.height,
            rx: r.rx,
            ry: r.ry,
        };
        let s = t.svg();
        self.emit(s);
    }

    /// Draws a circle through a view.
    pub fn circle(&mut self, v: Region, c: Circle)
        requires
            v.bounded(),
            c.bounded(),
            spec_translate_circle(c, v).bounded(),
        ensures
            final(self).width == old(self).width,
            final(self).height == old(self).height,
            final(self).frames() == old(self).frames().push(
                spec_translate_circle(c, v).spec_svg(),
            ),
    {
        let t = Circle {
            color: c.color,
            fill: c.fill,
            stroke_width: c.stroke_width,
            cx: c.cx + v.left,
            cy: c.cy + v.top,
            r: c.r,
        };
        let s = t.svg();
        self.emit(s);
    }

    /// Draws a polyline through a view.
    pub fn polyline(&mut self, v: Region, p: Polyline)
        requires
            v.bounded(),
            p.bounded(),
            spec_points_bounded(spec_translate_points(p.points@, v)),
        ensures
            final(self).width == old(self).width,
            final(self).height == old(self).height,
            final(self).frames() == old(self).frames().push(
                spec_polyline_svg(p.color, p.stroke_width, spec_translate_points(p.points@, v)),
            ),
    {
        let pts = translate_points(&p.points, v);
        let t = Polyline { color: p.color, stroke_width: p.stroke_width, points: pts };
        let s = t.svg();
        self.emit(s);
    }

    /// Draws a polygon through a view.
    pub fn polygon(&mut self, v: Region, p: Polygon)
        requires
            v.bounded(),
            p.bounded(),
            spec_points_bounded(spec_translate_points(p.points@, v)),
        ensures
            final(self).width == old(self).width,
            final(self).height == old(self).height,
            final(self).frames() == old(self).frames().push(
                spec_polygon_svg(p.color, p.fill, spec_translate_points(p.points@, v)),
            ),
    {
        let pts = translate_points(&p.points, v);
        let t = Polygon { color: p.color, fill: p.fill, points: pts };
        let s = t.svg();
        self.emit(s);
    }

    /// Draws a block of text through a view; an absent coordinate is
    /// taken as zero, so the placed text always carries its coordinates.
    pub fn text(&mut self, v: Region, t: Text)
        requires
            v.bounded(),
            t.bounded(),
            spec_translate_text(t, v).bounded(),
        ensures
            final(self).width == old(self).width,
            final(self).height == old(self).height,
            final(self).frames() == old(self).frames().push(
                spec_text_svg(
                    t.text@,
                    t.font_family@,
                    t.font_size,
                    t.fill,
                    Some(spec_translate_text(t, v).x.unwrap()),
                    Some(spec_translate_text(t, v).y.unwrap()),
                    t.dx,
                    t.dy,
                    spec_opt_view(t.font_weight),
                    spec_opt_view(t.transform),
                ),
            ),
    {
        let x = match t.x {
            Some(x) => x,
            None => 0,
        };
        let y = match t.y {
            Some(y) => y,
            None => 0,
        };
        let placed = Text { x: Some(x + v.left), y: Some(y + v.top), ..t };
        let s = placed.svg();
        self.emit(s);
    }

    /// Draws a smooth curve through a view.
    pub fn smooth_line(&mut self, v: Region, l: SmoothLine)
        requires
            v.bounded(),
            l.bounded(),
            spec_points_bounded(spec_translate_points(l.points@, v)),
        ensures
            final(self).width == old(self).width,
            final(self).height == old(self).height,
            final(self).frames() == old(self).frames().push(
                spec_smooth_line_svg(
                    l.color,
                    l.stroke_width,
                    spec_translate_points(l.points@, v),
                ),
            ),
    {
        let pts = translate_points(&l.points, v);
        let t = SmoothLine { color: l.color, stroke_width: l.stroke_width, points: pts };
        let s = t.svg();
        self.emit(s);
    }

    /// Draws a straight-segment path through a view.
    pub fn straight_line(&mut self, v: Region, l: StraightLine)
        requires
            v.bounded(),
            l.bounded(),
            spec_points_bounded(spec_translate_points(l.points@, v)),
        ensures
            final(self).width == old(self).width,
            final(self).height == old(self).height,
            final(self).frames() == old(self).frames().push(
                spec_straight_line_svg(
                    l.color,
                    l.stroke_width,
                    spec_translate_points(l.points@, v),
                ),
            ),
    {
        let pts = translate_points(&l.points, v);
        let t = StraightLine { color: l.color, stroke_width: l.stroke_width, points: pts };
        let s = t.svg();
        self.emit(s);
    }

    /// Draws a filled smooth region through a view; the baseline is
    /// translated with the points.
    pub fn smooth_line_fill(&mut self, v: Region, f: SmoothLineFill)
        requires
            v.bounded(),
            f.bounded(),
            spec_points_bounded(spec_translate_points(f.points@, v)),
            -MAX_COORD <= f.bottom + v.top <= MAX_COORD,
        ensures
            final(self).width == old(self).width,
            final(self).height == old(self).height,
            final(self).frames() == old(self).frames().push(
                spec_smooth_line_fill_svg(
                    f.fill,
                    spec_translate_points(f.points@, v),
                    (f.bottom + v.top) as i64,
                ),
            ),
    {
        let pts = translate_points(&f.points, v);
        let t = SmoothLineFill { fill: f.fill, points: pts, bottom: f.bottom + v.top };
        let s = t.svg();
        self.emit(s);
    }

    /// Draws a filled straight region through a view; the baseline is
    /// translated with the points.
    pub fn straight_line_fill(&mut self, v: Region, f: StraightLineFill)
        requires
            v.bounded(),
            f.bounded(),
            spec_points_bounded(spec_translate_points(f.points@, v)),
            -MAX_COORD <= f.bottom + v.top <= MAX_COORD,
        ensures
            final(self).width == old(self).width,
            final(self).height == old(self).height,
            final(self).frames() == old(self).frames().push(
                spec_straight_line_fill_svg(
                    f.fill,
                    spec_translate_points(f.points@, v),
                    (f.bottom + v.top) as i64,
                ),
            ),
    {
        let pts = translate_points(&f.points, v);
        let t = StraightLineFill { fill: f.fill, points: pts, bottom: f.bottom + v.top };
        let s = t.svg();
        self.emit(s);
    }

    /// Draws a grid through a view.
    pub fn grid(&mut self, v: Region, g: Grid)
        requires
            v.bounded(),
            g.bounded(),
            spec_translate_grid(g, v).bounded(),
        ensures
            final(self).width == old(self).width,
            final(self).height == old(self).height,
            final(self).frames() == old(self).frames().push(
                spec_grid_svg(spec_translate_grid_params(g, v)),
            ),
    {
        let t = Grid {
            left: g.left + v.left,
            top: g.top + v.top,
            right: g.right + v.left,
            bottom: g.bottom + v.top,
            color: g.color,
            stroke_width: g.stroke_width,
            verticals: g.verticals,
            hidden_verticals: g.hidden_verticals,
            horizontals: g.horizontals,
            hidden_horizontals: g.hidden_horizontals,
        };
        let s = t.svg();
        self.emit(s);
    }

    /// Finalizes the canvas: wraps the accumulated fragments in the one
    /// document envelope.  Called exactly once per render.
    pub fn svg(self) -> (s: String)
        requires
            0 < self.width <= MAX_COORD,
            0 < self.height <= MAX_COORD,
        ensures
            s@ == spec_canvas_svg(self.width as int, self.height as int, self.frames()),
    {
        let mut data = String::new();
        let n = self.frames.len();
        let mut i: usize = 0;
        while i < n
            invariant
                i <= n,
                n == self.frames@.len(),
                data@ == spec_frames_concat(self.frames().take(i as int)),
            decreases n - i,
        {
            proof {
                assert(self.frames().take(i + 1 as int).drop_last() =~= self.frames().take(
                    i as int,
                ));
                assert(self.frames().take(i + 1 as int).last() == self.frames@[i as int]@);
            }
            data.append(self.frames[i].as_str());
            i = i + 1;
        }
        proof {
            assert(self.frames().take(n as int) =~= self.frames());
        }
        generate_svg(self.width, self.height, data)
    }
}

/// The translation a view applies to a line.
pub open spec fn spec_translate_line(l: Line, v: Region) -> Line {
    Line {
        left: (l.left + v.left) as i64,
        top: (l.top + v.top) as i64,
        right: (l.right + v.left) as i64,
        bottom: (l.bottom + v.top) as i64,
        ..l
    }
}

/// The translation a view applies to a rectangle: its origin moves, its
/// size does not.
pub open spec fn spec_translate_rect(r: Rect, v: Region) -> Rect {
    Rect { left: (r.left + v.left) as i64, top: (r.top + v.top) as i64, ..r }
}

/// The translation a view applies to a circle.
pub open spec fn spec_translate_circle(c: Circle, v: Region) -> Circle {
    Circle { cx: (c.cx + v.left) as i64, cy: (c.cy + v.top) as i64, ..c }
}

/// The placement a view applies to a block of text: an absent coordinate
/// is taken as zero.
pub open spec fn spec_translate_text(t: Text, v: Region) -> Text {
    let x = match t.x {
        Some(x) => x as int,
        None => 0,
    };
    let y = match t.y {
        Some(y) => y as int,
        None => 0,
    };
    Text { x: Some((x + v.left) as i64), y: Some((y + v.top) as i64), ..t }
}

/// The translation a region applies to a grid.
pub open spec fn spec_translate_grid(g: Grid, v: Region) -> Grid {
    Grid {
        left: (g.left + v.left) as i64,
        top: (g.top + v.top) as i64,
        right: (g.right + v.left) as i64,
        bottom: (g.bottom + v.top) as i64,
        ..g
    }
}

/// The ghost image of a grid translated by a region.
pub open spec fn spec_translate_grid_params(g: Grid, v: Region) -> GridParams {
    GridParams {
        left: (g.left + v.left) as i64,
        top: (g.top + v.top) as i64,
        right: (g.right + v.left) as i64,
        bottom: (g.bottom + v.top) as i64,
        color: g.color,
        stroke_width: g.stroke_width,
        verticals: g.verticals,
        hidden_verticals: g.hidden_verticals@,
        horizontals: g.horizontals,
        hidden_horizontals: g.hidden_horizontals@,
    }
}

} // verus!
