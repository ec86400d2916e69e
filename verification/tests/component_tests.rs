use charts::color::Color;
use charts::common::Point;
use charts::component::{
    Circle, Component, Grid, Line, Polygon, Polyline, Rect, SmoothLine, SmoothLineFill,
    StraightLine, StraightLineFill, Text, convert_opacity,
};
use charts::decimal::{format_i64, format_tenths, format_u64};
use charts::svg::{SVGTag, generate_svg};

#[test]
fn tenths_formatter() {
    assert_eq!("0", format_tenths(0));
    assert_eq!("12", format_tenths(120));
    assert_eq!("12.5", format_tenths(125));
    assert_eq!("-0.5", format_tenths(-5));
    assert_eq!("-12", format_tenths(-120));
    assert_eq!("120", format_u64(120));
    assert_eq!("-7", format_i64(-7));
}

#[test]
fn tag_omits_empty_attributes() {
    let attrs = vec![
        ("a".to_string(), "1".to_string()),
        ("b".to_string(), "".to_string()),
        ("c".to_string(), "2".to_string()),
    ];
    let tag = SVGTag::new("g", "body".to_string(), attrs);
    assert_eq!("<g a=\"1\" c=\"2\">\nbody\n</g>", tag.text());
}

#[test]
fn document_envelope() {
    let s = generate_svg(6000, 4000, "x".to_string());
    assert_eq!(
        "<svg width=\"600\" height=\"400\" viewBox=\"0 0 600 400\" xmlns=\"http://www.w3.org/2000/svg\">\nx\n</svg>",
        s
    );
}

#[test]
fn line_zero_stroke_is_empty() {
    let l = Line { color: Some(Color::black()), stroke_width: 0, left: 0, top: 0, right: 100, bottom: 100 };
    assert_eq!("", l.svg());
    let l = Line { stroke_width: -10, ..l };
    assert_eq!("", l.svg());
}

#[test]
fn polyline_zero_stroke_is_empty() {
    let p = Polyline {
        color: None,
        stroke_width: 0,
        points: vec![Point::new(0, 0), Point::new(10, 10)],
    };
    assert_eq!("", p.svg());
}

#[test]
fn stroke_line_zero_width_paths_are_empty() {
    let pts = vec![Point::new(0, 0), Point::new(10, 10)];
    let s = SmoothLine { color: None, stroke_width: 0, points: pts.clone() };
    assert_eq!("", s.svg());
    let s = StraightLine { color: None, stroke_width: -1, points: pts };
    assert_eq!("", s.svg());
}

#[test]
fn line_fragment() {
    let l = Line {
        color: Some(Color::rgb(110, 113, 121)),
        stroke_width: 10,
        left: 0,
        top: 50,
        right: 1000,
        bottom: 50,
    };
    assert_eq!(
        "<line stroke-width=\"1\" x1=\"0\" y1=\"5\" x2=\"100\" y2=\"5\" stroke=\"#6E7179\"/>",
        l.svg()
    );
}

#[test]
fn opaque_color_omits_opacity_attribute() {
    let opaque = Line {
        color: Some(Color::rgb(1, 2, 3)),
        stroke_width: 10,
        left: 0,
        top: 0,
        right: 10,
        bottom: 10,
    };
    assert!(!opaque.svg().contains("stroke-opacity"));
    let seen = Line { color: Some(Color::new(1, 2, 3, 102)), ..opaque };
    assert!(seen.svg().contains("stroke-opacity=\"0.4\""));
}

#[test]
fn convert_opacity_rounds_to_one_decimal() {
    assert_eq!("", convert_opacity(&Color::rgb(0, 0, 0)));
    assert_eq!("0.2", convert_opacity(&Color::new(0, 0, 0, 51)));
    assert_eq!("0.4", convert_opacity(&Color::new(0, 0, 0, 100)));
    assert_eq!("0", convert_opacity(&Color::new(0, 0, 0, 0)));
}

#[test]
fn polygon_empty_points_is_empty() {
    let p = Polygon { color: None, fill: Some(Color::black()), points: vec![] };
    assert_eq!("", p.svg());
}

#[test]
fn polygon_fragment() {
    let p = Polygon {
        color: None,
        fill: Some(Color::rgb(0x54, 0x70, 0xC6)),
        points: vec![Point::new(0, 0), Point::new(100, 0), Point::new(50, 80)],
    };
    assert_eq!(
        "<polygon points=\"0,0 10,0 5,8\" fill=\"#5470C6\"/>",
        p.svg()
    );
}

#[test]
fn straight_line_fill_closes_to_baseline() {
    let f = StraightLineFill {
        fill: Color::rgb(0x54, 0x70, 0xC6),
        points: vec![Point::new(0, 100), Point::new(200, 50)],
        bottom: 300,
    };
    assert_eq!(
        "<path d=\"M 0 10 L 20 5 L 20 30 L 0 30 L 0 10\" fill=\"#5470C6\"/>",
        f.svg()
    );
}

#[test]
fn straight_line_fill_transparent_is_empty() {
    let f = StraightLineFill {
        fill: Color::new(1, 2, 3, 0),
        points: vec![Point::new(0, 100), Point::new(200, 50)],
        bottom: 300,
    };
    assert_eq!("", f.svg());
}

#[test]
fn smooth_line_single_point_degenerates_to_move() {
    let s = SmoothLine {
        color: Some(Color::black()),
        stroke_width: 10,
        points: vec![Point::new(40, 70)],
    };
    assert_eq!(
        "<path fill=\"none\" d=\"M 4 7\" stroke=\"#000000\"/>",
        s.svg()
    );
}

#[test]
fn smooth_line_passes_through_every_point() {
    let s = SmoothLine {
        color: None,
        stroke_width: 10,
        points: vec![Point::new(0, 0), Point::new(60, 120), Point::new(120, 0)],
    };
    let out = s.svg();
    // every input point appears as a segment endpoint
    assert!(out.contains("M 0 0"));
    assert!(out.contains(", 6 12"));
    assert!(out.contains(", 12 0"));
}

#[test]
fn rect_fragment_with_corner_radii() {
    let r = Rect {
        color: None,
        fill: Some(Color::white()),
        left: 10,
        top: 20,
        width: 300,
        height: 400,
        rx: Some(25),
        ry: None,
    };
    assert_eq!(
        "<rect x=\"1\" y=\"2\" width=\"30\" height=\"40\" rx=\"2.5\" fill=\"#FFFFFF\"/>",
        r.svg()
    );
}

#[test]
fn circle_without_fill_is_none() {
    let c = Circle {
        color: None,
        fill: None,
        stroke_width: 10,
        cx: 50,
        cy: 50,
        r: 30,
    };
    assert_eq!(
        "<circle cx=\"5\" cy=\"5\" r=\"3\" stroke-width=\"1\" fill=\"none\"/>",
        c.svg()
    );
}

#[test]
fn text_empty_is_empty() {
    let t = Text {
        text: String::new(),
        font_family: "Arial".to_string(),
        font_size: 140,
        fill: None,
        x: Some(0),
        y: Some(0),
        dx: None,
        dy: None,
        font_weight: None,
        transform: None,
    };
    assert_eq!("", t.svg());
}

#[test]
fn grid_fragment_hides_listed_lines() {
    let g = Grid {
        left: 0,
        top: 0,
        right: 1000,
        bottom: 1000,
        color: Some(Color::rgb(0xE0, 0xE6, 0xF1)),
        stroke_width: 10,
        verticals: 0,
        hidden_verticals: vec![],
        horizontals: 2,
        hidden_horizontals: vec![2],
    };
    let out = g.svg();
    // three candidate lines, the last hidden: two drawn
    assert_eq!(out.matches("<line").count(), 2);
    assert!(out.starts_with("<g stroke=\"#E0E6F1\">"));
}

#[test]
fn grid_zero_stroke_is_empty() {
    let g = Grid {
        left: 0,
        top: 0,
        right: 1000,
        bottom: 1000,
        color: None,
        stroke_width: 0,
        verticals: 3,
        hidden_verticals: vec![],
        horizontals: 3,
        hidden_horizontals: vec![],
    };
    assert_eq!("", g.svg());
}

#[test]
fn smooth_line_fill_closes_to_baseline() {
    let f = SmoothLineFill {
        fill: Color::rgb(0x91, 0xCC, 0x75),
        points: vec![Point::new(0, 100), Point::new(200, 50)],
        bottom: 300,
    };
    let out = f.svg();
    assert!(out.starts_with("<path d=\"M 0 10"));
    assert!(out.contains("M 20 5 L 20 30 L 0 30 L 0 10"));
    assert!(out.contains("fill=\"#91CC75\""));
}

#[test]
fn component_dispatches_to_variant() {
    let l = Line {
        color: None,
        stroke_width: 10,
        left: 0,
        top: 0,
        right: 100,
        bottom: 0,
    };
    let direct = l.svg();
    let c = Component::Line(l);
    assert_eq!(direct, c.svg());
}
