//! The renderable primitives: typed shape descriptors, each serializing to
//! one markup fragment.
//!
//! Contracts shared by every shape: a stroke-based shape with stroke width
//! at most zero renders as the empty string; a fill-region shape with no
//! points renders as the empty string; an attribute with an empty value is
//! omitted; an emitted color attribute pairs with its own opacity
//! attribute, itself omitted when the color is fully opaque.

use vstd::prelude::*;
use crate::color::{Color, spec_hex_text, spec_opacity_tenths};
use crate::common::{Point, MAX_COORD};
use crate::decimal::{spec_tenths_text, format_tenths};
use crate::path::{
    spec_points_bounded, spec_points_text, spec_straight_path, spec_smooth_path, spec_move_cmd,
    spec_line_cmd, points_text, straight_path, smooth_path, push_move_cmd, push_line_cmd,
};
use crate::svg::{spec_view_attrs, spec_tag_text, spec_attr_text, SVGTag};

verus! {

/// The opacity text a color contributes beside its hex value: empty for a
/// fully opaque color, else the opacity rounded to one decimal.
pub open spec fn spec_convert_opacity(c: Color) -> Seq<char> {
    if c.a == 255 {
        Seq::<char>::empty()
    } else {
        spec_tenths_text(spec_opacity_tenths(c.a as int))
    }
}

/// The opacity attribute value of a color; empty when fully opaque, so the
/// attribute is omitted.
pub fn convert_opacity(color: &Color) -> (s: String)
    ensures
        s@ == spec_convert_opacity(*color),
{
    if color.is_nontransparent() {
        String::new()
    } else {
        format_tenths(color.opacity_tenths() as i64)
    }
}

/// Appends one attribute to an attribute list.
fn push_attr(attrs: &mut Vec<(String, String)>, k: &str, v: String)
    ensures
        spec_view_attrs(final(attrs)@) == spec_view_attrs(old(attrs)@).push((k@, v@)),
{
    let ghost v_view = v@;
    attrs.push((k.to_owned(), v));
    proof {
        assert(spec_view_attrs(attrs@) =~~= spec_view_attrs(old(attrs)@).push((k@, v_view)));
    }
}

/// The stroke color attributes a shape emits: the hex color paired with
/// its own opacity attribute.
pub open spec fn spec_stroke_attrs(color: Option<Color>) -> Seq<(Seq<char>, Seq<char>)> {
    match color {
        Some(c) => seq![
            ("stroke"@, spec_hex_text(c)),
            ("stroke-opacity"@, spec_convert_opacity(c)),
        ],
        None => Seq::<(Seq<char>, Seq<char>)>::empty(),
    }
}

fn push_stroke_attrs(attrs: &mut Vec<(String, String)>, color: &Option<Color>)
    ensures
        spec_view_attrs(final(attrs)@) == spec_view_attrs(old(attrs)@) + spec_stroke_attrs(
            *color,
        ),
{
    match color {
        Some(c) => {
            push_attr(attrs, "stroke", c.hex());
            push_attr(attrs, "stroke-opacity", convert_opacity(c));
        },
        None => {},
    }
    proof {
        assert(spec_view_attrs(attrs@) =~~= spec_view_attrs(old(attrs)@) + spec_stroke_attrs(
            *color,
        ));
    }
}

/// The fill color attributes a shape emits: the hex color paired with its
/// own opacity attribute.
pub open spec fn spec_fill_attrs(fill: Option<Color>) -> Seq<(Seq<char>, Seq<char>)> {
    match fill {
        Some(c) => seq![
            ("fill"@, spec_hex_text(c)),
            ("fill-opacity"@, spec_convert_opacity(c)),
        ],
        None => Seq::<(Seq<char>, Seq<char>)>::empty(),
    }
}

fn push_fill_attrs(attrs: &mut Vec<(String, String)>, fill: &Option<Color>)
    ensures
        spec_view_attrs(final(attrs)@) == spec_view_attrs(old(attrs)@) + spec_fill_attrs(*fill),
{
    match fill {
        Some(c) => {
            push_attr(attrs, "fill", c.hex());
            push_attr(attrs, "fill-opacity", convert_opacity(c));
        },
        None => {},
    }
    proof {
        assert(spec_view_attrs(attrs@) =~~= spec_view_attrs(old(attrs)@) + spec_fill_attrs(
            *fill,
        ));
    }
}

/// The text of an optional coordinate: empty when absent, so the attribute
/// is omitted.
pub open spec fn spec_opt_tenths(v: Option<i64>) -> Seq<char> {
    match v {
        Some(x) => spec_tenths_text(x as int),
        None => Seq::<char>::empty(),
    }
}

fn format_option_tenths(v: &Option<i64>) -> (s: String)
    requires
        v is Some ==> v.unwrap() > i64::MIN,
    ensures
        s@ == spec_opt_tenths(*v),
{
    match v {
        Some(x) => format_tenths(*x),
        None => String::new(),
    }
}

/// A straight stroke between two points.
pub struct Line {
    pub color: Option<Color>,
    pub stroke_width: i64,
    pub left: i64,
    pub top: i64,
    pub right: i64,
    pub bottom: i64,
}

impl Line {
    pub open spec fn bounded(self) -> bool {
        &&& -MAX_COORD <= self.stroke_width <= MAX_COORD
        &&& -MAX_COORD <= self.left <= MAX_COORD
        &&& -MAX_COORD <= self.top <= MAX_COORD
        &&& -MAX_COORD <= self.right <= MAX_COORD
        &&& -MAX_COORD <= self.bottom <= MAX_COORD
    }

    pub open spec fn spec_attrs(self) -> Seq<(Seq<char>, Seq<char>)> {
        seq![
            ("stroke-width"@, spec_tenths_text(self.stroke_width as int)),
            ("x1"@, spec_tenths_text(self.left as int)),
            ("y1"@, spec_tenths_text(self.top as int)),
            ("x2"@, spec_tenths_text(self.right as int)),
            ("y2"@, spec_tenths_text(self.bottom as int)),
        ] + spec_stroke_attrs(self.color)
    }

    /// The fragment this shape renders to: empty when the stroke width is
    /// not positive.
    pub open spec fn spec_svg(self) -> Seq<char> {
        if self.stroke_width <= 0 {
            Seq::<char>::empty()
        } else {
            spec_tag_text("line"@, self.spec_attrs(), None::<Seq<char>>)
        }
    }

    pub fn svg(&self) -> (s: String)
        requires
            self.bounded(),
        ensures
            s@ == self.spec_svg(),
    {
        if self.stroke_width <= 0 {
            return String::new();
        }
        let mut attrs: Vec<(String, String)> = Vec::new();
        push_attr(&mut attrs, "stroke-width", format_tenths(self.stroke_width));
        push_attr(&mut attrs, "x1", format_tenths(self.left));
        push_attr(&mut attrs, "y1", format_tenths(self.top));
        push_attr(&mut attrs, "x2", format_tenths(self.right));
        push_attr(&mut attrs, "y2", format_tenths(self.bottom));
        push_stroke_attrs(&mut attrs, &self.color);
        proof {
            assert(spec_view_attrs(attrs@) =~~= self.spec_attrs());
        }
        let t = SVGTag::leaf("line", attrs);
        t.text()
    }
}

/// An axis-aligned rectangle with optional stroke, fill and corner radii.
pub struct Rect {
    pub color: Option<Color>,
    pub fill: Option<Color>,
    pub left: i64,
    pub top: i64,
    pub width: i64,
    pub height: i64,
    pub rx: Option<i64>,
    pub ry: Option<i64>,
}

impl Rect {
    pub open spec fn bounded(self) -> bool {
        &&& -MAX_COORD <= self.left <= MAX_COORD
        &&& -MAX_COORD <= self.top <= MAX_COORD
        &&& -MAX_COORD <= self.width <= MAX_COORD
        &&& -MAX_COORD <= self.height <= MAX_COORD
        &&& (self.rx is Some ==> -MAX_COORD <= self.rx.unwrap() <= MAX_COORD)
        &&& (self.ry is Some ==> -MAX_COORD <= self.ry.unwrap() <= MAX_COORD)
    }

    pub open spec fn spec_attrs(self) -> Seq<(Seq<char>, Seq<char>)> {
        seq![
            ("x"@, spec_tenths_text(self.left as int)),
            ("y"@, spec_tenths_text(self.top as int)),
            ("width"@, spec_tenths_text(self.width as int)),
            ("height"@, spec_tenths_text(self.height as int)),
            ("rx"@, spec_opt_tenths(self.rx)),
            ("ry"@, spec_opt_tenths(self.ry)),
        ] + spec_stroke_attrs(self.color) + spec_fill_attrs(self.fill)
    }

    /// The fragment this shape renders to.
    pub open spec fn spec_svg(self) -> Seq<char> {
        spec_tag_text("rect"@, self.spec_attrs(), None::<Seq<char>>)
    }

    pub fn svg(&self) -> (s: String)
        requires
            self.bounded(),
        ensures
            s@ == self.spec_svg(),
    {
        let mut attrs: Vec<(String, String)> = Vec::new();
        push_attr(&mut attrs, "x", format_tenths(self.left));
        push_attr(&mut attrs, "y", format_tenths(self.top));
        push_attr(&mut attrs, "width", format_tenths(self.width));
        push_attr(&mut attrs, "height", format_tenths(self.height));
        push_attr(&mut attrs, "rx", format_option_tenths(&self.rx));
        push_attr(&mut attrs, "ry", format_option_tenths(&self.ry));
        push_stroke_attrs(&mut attrs, &self.color);
        push_fill_attrs(&mut attrs, &self.fill);
        proof {
            assert(spec_view_attrs(attrs@) =~~= self.spec_attrs());
        }
        let t = SVGTag::leaf("rect", attrs);
        t.text()
    }
}

/// An open stroke through a point run.
pub struct Polyline {
    pub color: Option<Color>,
    pub stroke_width: i64,
    pub points: Vec<Point>,
}

/// The polyline fragment over a given point run: empty when the stroke
/// width is not positive.
pub open spec fn spec_polyline_svg(color: Option<Color>, stroke_width: i64, pts: Seq<Point>) -> Seq<
    char,
> {
    if stroke_width <= 0 {
        Seq::<char>::empty()
    } else {
        spec_tag_text(
            "polyline"@,
            seq![
                ("fill"@, "none"@),
                ("stroke-width"@, spec_tenths_text(stroke_width as int)),
                ("points"@, spec_points_text(pts)),
            ] + spec_stroke_attrs(color),
            None::<Seq<char>>,
        )
    }
}

impl Polyline {
    pub open spec fn bounded(self) -> bool {
        &&& -MAX_COORD <= self.stroke_width <= MAX_COORD
        &&& spec_points_bounded(self.points@)
    }

    /// The fragment this shape renders to.
    pub open spec fn spec_svg(self) -> Seq<char> {
        spec_polyline_svg(self.color, self.stroke_width, self.points@)
    }

    pub fn svg(&self) -> (s: String)
        requires
            self.bounded(),
        ensures
            s@ == self.spec_svg(),
    {
        if self.stroke_width <= 0 {
            return String::new();
        }
        let mut attrs: Vec<(String, String)> = Vec::new();
        push_attr(&mut attrs, "fill", "none".to_owned());
        push_attr(&mut attrs, "stroke-width", format_tenths(self.stroke_width));
        push_attr(&mut attrs, "points", points_text(&self.points));
        push_stroke_attrs(&mut attrs, &self.color);
        proof {
            assert(spec_view_attrs(attrs@) =~~= seq![
                ("fill"@, "none"@),
                ("stroke-width"@, spec_tenths_text(self.stroke_width as int)),
                ("points"@, spec_points_text(self.points@)),
            ] + spec_stroke_attrs(self.color));
        }
        let t = SVGTag::leaf("polyline", attrs);
        t.text()
    }
}

/// A circle with optional stroke and fill.
pub struct Circle {
    pub color: Option<Color>,
    pub fill: Option<Color>,
    pub stroke_width: i64,
    pub cx: i64,
    pub cy: i64,
    pub r: i64,
}

impl Circle {
    pub open spec fn bounded(self) -> bool {
        &&& -MAX_COORD <= self.stroke_width <= MAX_COORD
        &&& -MAX_COORD <= self.cx <= MAX_COORD
        &&& -MAX_COORD <= self.cy <= MAX_COORD
        &&& -MAX_COORD <= self.r <= MAX_COORD
    }

    pub open spec fn spec_attrs(self) -> Seq<(Seq<char>, Seq<char>)> {
        seq![
            ("cx"@, spec_tenths_text(self.cx as int)),
            ("cy"@, spec_tenths_text(self.cy as int)),
            ("r"@, spec_tenths_text(self.r as int)),
            ("stroke-width"@, spec_tenths_text(self.stroke_width as int)),
        ] + spec_stroke_attrs(self.color) + (match self.fill {
            Some(c) => seq![
                ("fill-opacity"@, spec_convert_opacity(c)),
                ("fill"@, spec_hex_text(c)),
            ],
            None => seq![("fill"@, "none"@)],
        })
    }

    /// The fragment this shape renders to.
    pub open spec fn spec_svg(self) -> Seq<char> {
        spec_tag_text("circle"@, self.spec_attrs(), None::<Seq<char>>)
    }

    pub fn svg(&self) -> (s: String)
        requires
            self.bounded(),
        ensures
            s@ == self.spec_svg(),
    {
        let mut attrs: Vec<(String, String)> = Vec::new();
        push_attr(&mut attrs, "cx", format_tenths(self.cx));
        push_attr(&mut attrs, "cy", format_tenths(self.cy));
        push_attr(&mut attrs, "r", format_tenths(self.r));
        push_attr(&mut attrs, "stroke-width", format_tenths(self.stroke_width));
        push_stroke_attrs(&mut attrs, &self.color);
        match &self.fill {
            Some(c) => {
                push_attr(&mut attrs, "fill-opacity", convert_opacity(c));
                push_attr(&mut attrs, "fill", c.hex());
            },
            None => {
                push_attr(&mut attrs, "fill", "none".to_owned());
            },
        }
        proof {
            assert(spec_view_attrs(attrs@) =~~= self.spec_attrs());
        }
        let t = SVGTag::leaf("circle", attrs);
        t.text()
    }
}

/// A closed filled region through a point run.
pub struct Polygon {
    pub color: Option<Color>,
    pub fill: Option<Color>,
    pub points: Vec<Point>,
}

/// The polygon fragment over a given point run: empty when there are no
/// points.
pub open spec fn spec_polygon_svg(color: Option<Color>, fill: Option<Color>, pts: Seq<Point>) -> Seq<
    char,
> {
    if pts.len() == 0 {
        Seq::<char>::empty()
    } else {
        spec_tag_text(
            "polygon"@,
            seq![("points"@, spec_points_text(pts))] + spec_stroke_attrs(color) + spec_fill_attrs(
                fill,
            ),
            None::<Seq<char>>,
        )
    }
}

impl Polygon {
    pub open spec fn bounded(self) -> bool {
        spec_points_bounded(self.points@)
    }

    /// The fragment this shape renders to.
    pub open spec fn spec_svg(self) -> Seq<char> {
        spec_polygon_svg(self.color, self.fill, self.points@)
    }

    pub fn svg(&self) -> (s: String)
        requires
            self.bounded(),
        ensures
            s@ == self.spec_svg(),
    {
        if self.points.len() == 0 {
            return String::new();
        }
        let mut attrs: Vec<(String, String)> = Vec::new();
        push_attr(&mut attrs, "points", points_text(&self.points));
        push_stroke_attrs(&mut attrs, &self.color);
        push_fill_attrs(&mut attrs, &self.fill);
        proof {
            assert(spec_view_attrs(attrs@) =~~= seq![("points"@, spec_points_text(self.points@))]
                + spec_stroke_attrs(self.color) + spec_fill_attrs(self.fill));
        }
        let t = SVGTag::leaf("polygon", attrs);
        t.text()
    }
}

/// A block of text placed on the canvas.
pub struct Text {
    pub text: String,
    pub font_family: String,
    pub font_size: i64,
    pub fill: Option<Color>,
    pub x: Option<i64>,
    pub y: Option<i64>,
    pub dx: Option<i64>,
    pub dy: Option<i64>,
    pub font_weight: Option<String>,
    pub transform: Option<String>,
}

/// The attribute list of a text fragment over plain values.
pub open spec fn spec_text_attrs(
    font_family: Seq<char>,
    font_size: i64,
    fill: Option<Color>,
    x: Option<i64>,
    y: Option<i64>,
    dx: Option<i64>,
    dy: Option<i64>,
    font_weight: Option<Seq<char>>,
    transform: Option<Seq<char>>,
) -> Seq<(Seq<char>, Seq<char>)> {
    seq![
        ("font-family"@, font_family),
        ("font-size"@, spec_tenths_text(font_size as int)),
        ("x"@, spec_opt_tenths(x)),
        ("y"@, spec_opt_tenths(y)),
        ("dx"@, spec_opt_tenths(dx)),
        ("dy"@, spec_opt_tenths(dy)),
        (
            "font-weight"@,
            match font_weight {
                Some(w) => w,
                None => Seq::<char>::empty(),
            },
        ),
        (
            "transform"@,
            match transform {
                Some(t) => t,
                None => Seq::<char>::empty(),
            },
        ),
    ] + (match fill {
        Some(c) => seq![("fill"@, spec_hex_text(c)), ("opacity"@, spec_convert_opacity(c))],
        None => Seq::<(Seq<char>, Seq<char>)>::empty(),
    })
}

/// The text fragment over plain values: empty when the text is empty.
pub open spec fn spec_text_svg(
    text: Seq<char>,
    font_family: Seq<char>,
    font_size: i64,
    fill: Option<Color>,
    x: Option<i64>,
    y: Option<i64>,
    dx: Option<i64>,
    dy: Option<i64>,
    font_weight: Option<Seq<char>>,
    transform: Option<Seq<char>>,
) -> Seq<char> {
    if text.len() == 0 {
        Seq::<char>::empty()
    } else {
        spec_tag_text(
            "text"@,
            spec_text_attrs(font_family, font_size, fill, x, y, dx, dy, font_weight, transform),
            Some(text),
        )
    }
}

/// The view of an optional owned string.
pub open spec fn spec_opt_view(v: Option<String>) -> Option<Seq<char>> {
    match v {
        Some(s) => Some(s@),
        None => None,
    }
}

impl Text {
    pub open spec fn bounded(self) -> bool {
        &&& -MAX_COORD <= self.font_size <= MAX_COORD
        &&& (self.x is Some ==> -MAX_COORD <= self.x.unwrap() <= MAX_COORD)
        &&& (self.y is Some ==> -MAX_COORD <= self.y.unwrap() <= MAX_COORD)
        &&& (self.dx is Some ==> -MAX_COORD <= self.dx.unwrap() <= MAX_COORD)
        &&& (self.dy is Some ==> -MAX_COORD <= self.dy.unwrap() <= MAX_COORD)
    }

    /// The fragment this shape renders to.
    pub open spec fn spec_svg(self) -> Seq<char> {
        spec_text_svg(
            self.text@,
            self.font_family@,
            self.font_size,
            self.fill,
            self.x,
            self.y,
            self.dx,
            self.dy,
            spec_opt_view(self.font_weight),
            spec_opt_view(self.transform),
        )
    }

    pub fn svg(&self) -> (s: String)
        requires
            self.bounded(),
        ensures
            s@ == self.spec_svg(),
    {
        if self.text.as_str().is_empty() {
            return String::new();
        }
        let mut attrs: Vec<(String, String)> = Vec::new();
        push_attr(&mut attrs, "font-family", self.font_family.clone());
        push_attr(&mut attrs, "font-size", format_tenths(self.font_size));
        push_attr(&mut attrs, "x", format_option_tenths(&self.x));
        push_attr(&mut attrs, "y", format_option_tenths(&self.y));
        push_attr(&mut attrs, "dx", format_option_tenths(&self.dx));
        push_attr(&mut attrs, "dy", format_option_tenths(&self.dy));
        let weight = match &self.font_weight {
            Some(w) => w.clone(),
            None => String::new(),
        };
        push_attr(&mut attrs, "font-weight", weight);
        let transform = match &self.transform {
            Some(t) => t.clone(),
            None => String::new(),
        };
        push_attr(&mut attrs, "transform", transform);
        match &self.fill {
            Some(c) => {
                push_attr(&mut attrs, "fill", c.hex());
                push_attr(&mut attrs, "opacity", convert_opacity(c));
            },
            None => {},
        }
        proof {
            assert(spec_view_attrs(attrs@) =~~= spec_text_attrs(
                self.font_family@,
                self.font_size,
                self.fill,
                self.x,
                self.y,
                self.dx,
                self.dy,
                spec_opt_view(self.font_weight),
                spec_opt_view(self.transform),
            ));
        }
        let t = SVGTag::new("text", self.text.clone(), attrs);
        t.text()
    }
}

/// A smooth curve stroke through a point run.
pub struct SmoothLine {
    pub color: Option<Color>,
    pub points: Vec<Point>,
    pub stroke_width: i64,
}

/// The smooth-curve stroke fragment over a given point run: empty when
/// there are no points or the stroke width is not positive.
pub open spec fn spec_smooth_line_svg(
    color: Option<Color>,
    stroke_width: i64,
    pts: Seq<Point>,
) -> Seq<char> {
    if pts.len() == 0 || stroke_width <= 0 {
        Seq::<char>::empty()
    } else {
        spec_tag_text(
            "path"@,
            seq![("fill"@, "none"@), ("d"@, spec_smooth_path(pts))] + spec_stroke_attrs(color),
            None::<Seq<char>>,
        )
    }
}

impl SmoothLine {
    pub open spec fn bounded(self) -> bool {
        &&& -MAX_COORD <= self.stroke_width <= MAX_COORD
        &&& spec_points_bounded(self.points@)
    }

    /// The fragment this shape renders to.
    pub open spec fn spec_svg(self) -> Seq<char> {
        spec_smooth_line_svg(self.color, self.stroke_width, self.points@)
    }

    pub fn svg(&self) -> (s: String)
        requires
            self.bounded(),
        ensures
            s@ == self.spec_svg(),
    {
        if self.points.len() == 0 || self.stroke_width <= 0 {
            return String::new();
        }
        let mut attrs: Vec<(String, String)> = Vec::new();
        push_attr(&mut attrs, "fill", "none".to_owned());
        push_attr(&mut attrs, "d", smooth_path(&self.points));
        push_stroke_attrs(&mut attrs, &self.color);
        proof {
            assert(spec_view_attrs(attrs@) =~~= seq![
                ("fill"@, "none"@),
                ("d"@, spec_smooth_path(self.points@)),
            ] + spec_stroke_attrs(self.color));
        }
        let t = SVGTag::leaf("path", attrs);
        t.text()
    }
}

/// A straight segment stroke through a point run.
pub struct StraightLine {
    pub color: Option<Color>,
    pub points: Vec<Point>,
    pub stroke_width: i64,
}

/// The straight-segment stroke fragment over a given point run: empty
/// when there are no points or the stroke width is not positive.
pub open spec fn spec_straight_line_svg(
    color: Option<Color>,
    stroke_width: i64,
    pts: Seq<Point>,
) -> Seq<char> {
    if pts.len() == 0 || stroke_width <= 0 {
        Seq::<char>::empty()
    } else {
        spec_tag_text(
            "path"@,
            seq![("fill"@, "none"@), ("d"@, spec_straight_path(pts))] + spec_stroke_attrs(color),
            None::<Seq<char>>,
        )
    }
}

impl StraightLine {
    pub open spec fn bounded(self) -> bool {
        &&& -MAX_COORD <= self.stroke_width <= MAX_COORD
        &&& spec_points_bounded(self.points@)
    }

    /// The fragment this shape renders to.
    pub open spec fn spec_svg(self) -> Seq<char> {
        spec_straight_line_svg(self.color, self.stroke_width, self.points@)
    }

    pub fn svg(&self) -> (s: String)
        requires
            self.bounded(),
        ensures
            s@ == self.spec_svg(),
    {
        if self.points.len() == 0 || self.stroke_width <= 0 {
            return String::new();
        }
        let mut attrs: Vec<(String, String)> = Vec::new();
        push_attr(&mut attrs, "fill", "none".to_owned());
        push_attr(&mut attrs, "d", straight_path(&self.points));
        push_stroke_attrs(&mut attrs, &self.color);
        proof {
            assert(spec_view_attrs(attrs@) =~~= seq![
                ("fill"@, "none"@),
                ("d"@, spec_straight_path(self.points@)),
            ] + spec_stroke_attrs(self.color));
        }
        let t = SVGTag::leaf("path", attrs);
        t.text()
    }
}

/// The closing run appended to an open path to make a fill region: down
/// from the last point to the baseline, across to below the first point,
/// and back up to the first point.
pub open spec fn spec_fill_closure(first: Point, last: Point, bottom: i64) -> Seq<char> {
    spec_move_cmd(last) + seq![' '] + spec_line_cmd(Point { x: last.x, y: bottom }) + seq![' ']
        + spec_line_cmd(Point { x: first.x, y: bottom }) + seq![' '] + spec_line_cmd(first)
}

/// A smooth curve closed down to a baseline and filled.
pub struct SmoothLineFill {
    pub fill: Color,
    pub points: Vec<Point>,
    pub bottom: i64,
}

/// The filled smooth-curve fragment over a given point run: the curve,
/// closed down to the baseline; empty when there are no points or the
/// fill is fully transparent.
pub open spec fn spec_smooth_line_fill_svg(fill: Color, pts: Seq<Point>, bottom: i64) -> Seq<
    char,
> {
    if pts.len() == 0 || fill.a == 0 {
        Seq::<char>::empty()
    } else {
        spec_tag_text(
            "path"@,
            seq![
                ("d"@, spec_smooth_path(pts) + spec_fill_closure(pts[0], pts.last(), bottom)),
                ("fill"@, spec_hex_text(fill)),
                ("fill-opacity"@, spec_convert_opacity(fill)),
            ],
            None::<Seq<char>>,
        )
    }
}

impl SmoothLineFill {
    pub open spec fn bounded(self) -> bool {
        &&& -MAX_COORD <= self.bottom <= MAX_COORD
        &&& spec_points_bounded(self.points@)
    }

    /// The fragment this shape renders to.
    pub open spec fn spec_svg(self) -> Seq<char> {
        spec_smooth_line_fill_svg(self.fill, self.points@, self.bottom)
    }

    #[verifier::rlimit(60)]
    pub fn svg(&self) -> (s: String)
        requires
            self.bounded(),
        ensures
            s@ == self.spec_svg(),
    {
        if self.points.len() == 0 || self.fill.is_transparent() {
            return String::new();
        }
        let mut d = smooth_path(&self.points);
        let first = self.points[0];
        let last = self.points[self.points.len() - 1];
        push_move_cmd(&mut d, last);
        proof {
            reveal_strlit(" ");
        }
        d.append(" ");
        push_line_cmd(&mut d, Point { x: last.x, y: self.bottom });
        d.append(" ");
        push_line_cmd(&mut d, Point { x: first.x, y: self.bottom });
        d.append(" ");
        push_line_cmd(&mut d, first);
        proof {
            assert(d@ =~= spec_smooth_path(self.points@) + spec_fill_closure(
                self.points@[0],
                self.points@.last(),
                self.bottom,
            ));
        }
        let ghost d_view = d@;
        let mut attrs: Vec<(String, String)> = Vec::new();
        push_attr(&mut attrs, "d", d);
        push_attr(&mut attrs, "fill", self.fill.hex());
        push_attr(&mut attrs, "fill-opacity", convert_opacity(&self.fill));
        proof {
            assert(spec_view_attrs(attrs@) =~~= seq![
                ("d"@, d_view),
                ("fill"@, spec_hex_text(self.fill)),
                ("fill-opacity"@, spec_convert_opacity(self.fill)),
            ]);
        }
        let t = SVGTag::leaf("path", attrs);
        t.text()
    }
}

/// A straight-segment path closed down to a baseline and filled.
pub struct StraightLineFill {
    pub fill: Color,
    pub points: Vec<Point>,
    pub bottom: i64,
}

/// The closed point run of a filled straight path: the input points, then
/// straight down to the baseline, across, and back to the first point.
pub open spec fn spec_closed_points(pts: Seq<Point>, bottom: i64) -> Seq<Point> {
    pts + seq![
        Point { x: pts.last().x, y: bottom },
        Point { x: pts[0].x, y: bottom },
        pts[0],
    ]
}

/// The filled straight-path fragment over a given point run: empty when
/// there are no points or the fill is fully transparent.
pub open spec fn spec_straight_line_fill_svg(fill: Color, pts: Seq<Point>, bottom: i64) -> Seq<
    char,
> {
    if pts.len() == 0 || fill.a == 0 {
        Seq::<char>::empty()
    } else {
        spec_tag_text(
            "path"@,
            seq![
                ("d"@, spec_straight_path(spec_closed_points(pts, bottom))),
                ("fill"@, spec_hex_text(fill)),
                ("fill-opacity"@, spec_convert_opacity(fill)),
            ],
            None::<Seq<char>>,
        )
    }
}

impl StraightLineFill {
    pub open spec fn bounded(self) -> bool {
        &&& -MAX_COORD <= self.bottom <= MAX_COORD
        &&& spec_points_bounded(self.points@)
    }

    /// The fragment this shape renders to.
    pub open spec fn spec_svg(self) -> Seq<char> {
        spec_straight_line_fill_svg(self.fill, self.points@, self.bottom)
    }

    pub fn svg(&self) -> (s: String)
        requires
            self.bounded(),
        ensures
            s@ == self.spec_svg(),
    {
        if self.points.len() == 0 || self.fill.is_transparent() {
            return String::new();
        }
        let first = self.points[0];
        let last = self.points[self.points.len() - 1];
        let mut closed = self.points.clone();
        closed.push(Point { x: last.x, y: self.bottom });
        closed.push(Point { x: first.x, y: self.bottom });
        closed.push(first);
        proof {
            assert(closed@ =~= spec_closed_points(self.points@, self.bottom));
        }
        let d = straight_path(&closed);
        let ghost d_view = d@;
        let mut attrs: Vec<(String, String)> = Vec::new();
        push_attr(&mut attrs, "d", d);
        push_attr(&mut attrs, "fill", self.fill.hex());
        push_attr(&mut attrs, "fill-opacity", convert_opacity(&self.fill));
        proof {
            assert(spec_view_attrs(attrs@) =~~= seq![
                ("d"@, d_view),
                ("fill"@, spec_hex_text(self.fill)),
                ("fill-opacity"@, spec_convert_opacity(self.fill)),
            ]);
        }
        let t = SVGTag::leaf("path", attrs);
        t.text()
    }
}

/// The opacity-emission policy: a fully opaque color contributes an
/// empty opacity value, so the opacity attribute is omitted from the tag
/// entirely; any other color contributes its alpha channel scaled to
/// `0 ..= 1` and rounded to one decimal, and the attribute is emitted.
pub proof fn lemma_opacity_policy(c: Color)
    ensures
        c.a == 255 ==> spec_convert_opacity(c) == Seq::<char>::empty(),
        c.a == 255 ==> spec_attr_text("stroke-opacity"@, spec_convert_opacity(c)) == Seq::<
            char,
        >::empty(),
        c.a != 255 ==> spec_convert_opacity(c) == spec_tenths_text(
            spec_opacity_tenths(c.a as int),
        ),
        c.a != 255 ==> spec_convert_opacity(c).len() > 0,
{
    if c.a != 255 {
        let t = spec_opacity_tenths(c.a as int);
        assert(spec_tenths_text(t).len() > 0);
    }
}

/// A stroke-based shape with stroke width at most zero renders as
/// exactly the empty string.
pub proof fn lemma_zero_stroke_empty(l: Line, p: Polyline, sl: SmoothLine, st: StraightLine)
    requires
        l.stroke_width <= 0,
        p.stroke_width <= 0,
        sl.stroke_width <= 0,
        st.stroke_width <= 0,
    ensures
        l.spec_svg() == Seq::<char>::empty(),
        p.spec_svg() == Seq::<char>::empty(),
        sl.spec_svg() == Seq::<char>::empty(),
        st.spec_svg() == Seq::<char>::empty(),
{
}

/// Whether `v` holds `x`.
fn contains_usize(v: &Vec<usize>, x: usize) -> (b: bool)
    ensures
        b == v@.contains(x),
{
    let n = v.len();
    let mut i: usize = 0;
    while i < n
        invariant
            i <= n,
            n == v@.len(),
            forall|j: int| 0 <= j < i ==> v@[j] != x,
        decreases n - i,
    {
        if v[i] == x {
            return true;
        }
        i = i + 1;
    }
    proof {
        assert(!v@.contains(x));
    }
    false
}

/// The i-th of `n` evenly spaced positions across `lo ..= hi`.
pub open spec fn spec_grid_pos(lo: int, hi: int, i: int, n: int) -> int {
    lo + (hi - lo) * i / n
}

fn grid_pos(lo: i64, hi: i64, i: usize, n: usize) -> (r: i64)
    requires
        -MAX_COORD <= lo <= hi <= MAX_COORD,
        1 <= n <= 1_000_000,
        i <= n,
    ensures
        r == spec_grid_pos(lo as int, hi as int, i as int, n as int),
        lo <= r <= hi,
{
    let dx = (hi - lo) as u64;
    let iu = i as u64;
    let nu = n as u64;
    assert(dx * iu <= 2_000_000_000 * 1_000_000) by (nonlinear_arith)
        requires
            dx <= 2_000_000_000,
            iu <= 1_000_000,
    ;
    let q = dx * iu / nu;
    assert(q == (dx * iu) as int / nu as int);
    assert((dx * iu) as int / nu as int <= dx) by (nonlinear_arith)
        requires
            iu <= nu,
            1 <= nu,
    ;
    lo + (q as i64)
}

/// Evenly spaced gridlines across a rectangle, some of them hidden.
pub struct Grid {
    pub left: i64,
    pub top: i64,
    pub right: i64,
    pub bottom: i64,
    pub color: Option<Color>,
    pub stroke_width: i64,
    pub verticals: usize,
    pub hidden_verticals: Vec<usize>,
    pub horizontals: usize,
    pub hidden_horizontals: Vec<usize>,
}

/// The ghost image of a grid: its geometry with the hidden-line lists as
/// sequences, so fragment specifications can speak of translated grids.
pub struct GridParams {
    pub left: i64,
    pub top: i64,
    pub right: i64,
    pub bottom: i64,
    pub color: Option<Color>,
    pub stroke_width: i64,
    pub verticals: usize,
    pub hidden_verticals: Seq<usize>,
    pub horizontals: usize,
    pub hidden_horizontals: Seq<usize>,
}

/// The fragment of the i-th vertical gridline; empty when hidden.
pub open spec fn spec_grid_vline(g: GridParams, i: int) -> Seq<char> {
    if g.hidden_verticals.contains(i as usize) {
        Seq::<char>::empty()
    } else {
        let x = spec_grid_pos(g.left as int, g.right as int, i, g.verticals as int);
        Line {
            color: None,
            stroke_width: g.stroke_width,
            left: x as i64,
            top: g.top,
            right: x as i64,
            bottom: g.bottom,
        }.spec_svg()
    }
}

/// The first `k` vertical gridline fragments, joined.
pub open spec fn spec_grid_vlines(g: GridParams, k: int) -> Seq<char>
    decreases k,
{
    if k <= 0 {
        Seq::<char>::empty()
    } else {
        spec_grid_vlines(g, k - 1) + spec_grid_vline(g, k - 1)
    }
}

/// The fragment of the i-th horizontal gridline; empty when hidden.
pub open spec fn spec_grid_hline(g: GridParams, i: int) -> Seq<char> {
    if g.hidden_horizontals.contains(i as usize) {
        Seq::<char>::empty()
    } else {
        let y = spec_grid_pos(g.top as int, g.bottom as int, i, g.horizontals as int);
        Line {
            color: None,
            stroke_width: g.stroke_width,
            left: g.left,
            top: y as i64,
            right: g.right,
            bottom: y as i64,
        }.spec_svg()
    }
}

/// The first `k` horizontal gridline fragments, joined.
pub open spec fn spec_grid_hlines(g: GridParams, k: int) -> Seq<char>
    decreases k,
{
    if k <= 0 {
        Seq::<char>::empty()
    } else {
        spec_grid_hlines(g, k - 1) + spec_grid_hline(g, k - 1)
    }
}

/// All gridline fragments: vertical lines first, then horizontal ones.
pub open spec fn spec_grid_data(g: GridParams) -> Seq<char> {
    (if g.verticals == 0 {
        Seq::<char>::empty()
    } else {
        spec_grid_vlines(g, g.verticals + 1)
    }) + (if g.horizontals == 0 {
        Seq::<char>::empty()
    } else {
        spec_grid_hlines(g, g.horizontals + 1)
    })
}

/// The grid fragment: empty when there are no lines to draw or the stroke
/// width is not positive.
pub open spec fn spec_grid_svg(g: GridParams) -> Seq<char> {
    if (g.verticals == 0 && g.horizontals == 0) || g.stroke_width <= 0 {
        Seq::<char>::empty()
    } else {
        spec_tag_text("g"@, spec_stroke_attrs(g.color), Some(spec_grid_data(g)))
    }
}

impl Grid {
    pub open spec fn bounded(self) -> bool {
        &&& -MAX_COORD <= self.left <= self.right <= MAX_COORD
        &&& -MAX_COORD <= self.top <= self.bottom <= MAX_COORD
        &&& -MAX_COORD <= self.stroke_width <= MAX_COORD
        &&& self.verticals <= 1_000_000
        &&& self.horizontals <= 1_000_000
    }

    /// The ghost image of this grid.
    pub open spec fn params(self) -> GridParams {
        GridParams {
            left: self.left,
            top: self.top,
            right: self.right,
            bottom: self.bottom,
            color: self.color,
            stroke_width: self.stroke_width,
            verticals: self.verticals,
            hidden_verticals: self.hidden_verticals@,
            horizontals: self.horizontals,
            hidden_horizontals: self.hidden_horizontals@,
        }
    }

    /// The fragment this shape renders to.
    pub open spec fn spec_svg(self) -> Seq<char> {
        spec_grid_svg(self.params())
    }

    pub fn svg(&self) -> (s: String)
        requires
            self.bounded(),
        ensures
            s@ == self.spec_svg(),
    {
        if (self.verticals == 0 && self.horizontals == 0) || self.stroke_width <= 0 {
            return String::new();
        }
        let ghost g = self.params();
        let mut data = String::new();
        if self.verticals != 0 {
            let n = self.verticals;
            let mut i: usize = 0;
            while i <= n
                invariant
                    i <= n + 1,
                    n == self.verticals,
                    self.bounded(),
                    g == self.params(),
                    n >= 1,
                    data@ == spec_grid_vlines(g, i as int),
                decreases n + 1 - i,
            {
                if !contains_usize(&self.hidden_verticals, i) {
                    let x = grid_pos(self.left, self.right, i, n);
                    let line = Line {
                        color: None,
                        stroke_width: self.stroke_width,
                        left: x,
                        top: self.top,
                        right: x,
                        bottom: self.bottom,
                    };
                    let frag = line.svg();
                    data.append(frag.as_str());
                }
                proof {
                    assert(data@ =~= spec_grid_vlines(g, i + 1 as int));
                }
                i = i + 1;
            }
        }
        let ghost vpart = data@;
        if self.horizontals != 0 {
            let n = self.horizontals;
            let mut i: usize = 0;
            while i <= n
                invariant
                    i <= n + 1,
                    n == self.horizontals,
                    self.bounded(),
                    g == self.params(),
                    n >= 1,
                    data@ == vpart + spec_grid_hlines(g, i as int),
                decreases n + 1 - i,
            {
                if !contains_usize(&self.hidden_horizontals, i) {
                    let y = grid_pos(self.top, self.bottom, i, n);
                    let line = Line {
                        color: None,
                        stroke_width: self.stroke_width,
                        left: self.left,
                        top: y,
                        right: self.right,
                        bottom: y,
                    };
                    let frag = line.svg();
                    data.append(frag.as_str());
                }
                proof {
                    assert(data@ =~= vpart + spec_grid_hlines(g, i + 1 as int));
                }
                i = i + 1;
            }
        }
        proof {
            assert(data@ =~= spec_grid_data(g));
        }
        let mut attrs: Vec<(String, String)> = Vec::new();
        push_stroke_attrs(&mut attrs, &self.color);
        proof {
            assert(spec_view_attrs(attrs@) =~~= spec_stroke_attrs(self.color));
        }
        let t = SVGTag::new("g", data, attrs);
        t.text()
    }
}

/// The closed set of renderable primitives.
pub enum Component {
    Line(Line),
    Rect(Rect),
    Polyline(Polyline),
    Circle(Circle),
    Polygon(Polygon),
    Text(Text),
    SmoothLine(SmoothLine),
    StraightLine(StraightLine),
    SmoothLineFill(SmoothLineFill),
    StraightLineFill(StraightLineFill),
    Grid(Grid),
}

impl Component {
    pub open spec fn bounded(self) -> bool {
        match self {
            Component::Line(v) => v.bounded(),
            Component::Rect(v) => v.bounded(),
            Component::Polyline(v) => v.bounded(),
            Component::Circle(v) => v.bounded(),
            Component::Polygon(v) => v.bounded(),
            Component::Text(v) => v.bounded(),
            Component::SmoothLine(v) => v.bounded(),
            Component::StraightLine(v) => v.bounded(),
            Component::SmoothLineFill(v) => v.bounded(),
            Component::StraightLineFill(v) => v.bounded(),
            Component::Grid(v) => v.bounded(),
        }
    }

    /// The fragment this primitive renders to.
    pub open spec fn spec_svg(self) -> Seq<char> {
        match self {
            Component::Line(v) => v.spec_svg(),
            Component::Rect(v) => v.spec_svg(),
            Component::Polyline(v) => v.spec_svg(),
            Component::Circle(v) => v.spec_svg(),
            Component::Polygon(v) => v.spec_svg(),
            Component::Text(v) => v.spec_svg(),
            Component::SmoothLine(v) => v.spec_svg(),
            Component::StraightLine(v) => v.spec_svg(),
            Component::SmoothLineFill(v) => v.spec_svg(),
            Component::StraightLineFill(v) => v.spec_svg(),
            Component::Grid(v) => v.spec_svg(),
        }
    }

    pub fn svg(&self) -> (s: String)
        requires
            self.bounded(),
        ensures
            s@ == self.spec_svg(),
    {
        match self {
            Component::Line(v) => v.svg(),
            Component::Rect(v) => v.svg(),
            Component::Polyline(v) => v.svg(),
            Component::Circle(v) => v.svg(),
            Component::Polygon(v) => v.svg(),
            Component::Text(v) => v.svg(),
            Component::SmoothLine(v) => v.svg(),
            Component::StraightLine(v) => v.svg(),
            Component::SmoothLineFill(v) => v.svg(),
            Component::StraightLineFill(v) => v.svg(),
            Component::Grid(v) => v.svg(),
        }
    }
}

} // verus!
