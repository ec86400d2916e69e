//! The curve/path generator: straight and smooth path data over an ordered
//! point sequence, and the point-list text used by polygons and polylines.
//!
//! Smooth paths are cubic segments through every input point with
//! continuous tangents: each control point leans on the neighbour points by
//! one sixth of their span, the usual cubic interpolation of an ordered
//! point run.

use vstd::prelude::*;
use crate::common::{Point, MAX_COORD};
use crate::decimal::{spec_tenths_text, format_tenths};

verus! {

/// Whether every point of `pts` is within the drawable range.
pub open spec fn spec_points_bounded(pts: Seq<Point>) -> bool {
    forall|i: int| 0 <= i < pts.len() ==> (#[trigger] pts[i]).bounded()
}

/// The `x,y` text of one point.
pub open spec fn spec_point_pair(p: Point) -> Seq<char> {
    spec_tenths_text(p.x as int) + seq![','] + spec_tenths_text(p.y as int)
}

/// The space-separated `x,y` pairs of a point list.
pub open spec fn spec_points_text(pts: Seq<Point>) -> Seq<char>
    decreases pts.len(),
{
    if pts.len() == 0 {
        Seq::<char>::empty()
    } else if pts.len() == 1 {
        spec_point_pair(pts[0])
    } else {
        spec_points_text(pts.drop_last()) + seq![' '] + spec_point_pair(pts.last())
    }
}

/// Appends `x y` for one point to `s`.
fn push_coords(s: &mut String, p: Point)
    requires
        p.x > i64::MIN,
        p.y > i64::MIN,
    ensures
        final(s)@ == old(s)@ + spec_tenths_text(p.x as int) + seq![' '] + spec_tenths_text(
            p.y as int,
        ),
{
    proof {
        reveal_strlit(" ");
    }
    let x_text = format_tenths(p.x);
    s.append(x_text.as_str());
    s.append(" ");
    let y_text = format_tenths(p.y);
    s.append(y_text.as_str());
}

/// The space-separated `x,y` pairs of a point list.
pub fn points_text(pts: &Vec<Point>) -> (s: String)
    requires
        spec_points_bounded(pts@),
    ensures
        s@ == spec_points_text(pts@),
{
    let mut s = String::new();
    let n = pts.len();
    let mut i: usize = 0;
    while i < n
        invariant
            i <= n,
            n == pts@.len(),
            spec_points_bounded(pts@),
            s@ == spec_points_text(pts@.take(i as int)),
        decreases n - i,
    {
        proof {
            reveal_strlit(" ");
            reveal_strlit(",");
            assert(pts@.take(i + 1 as int).drop_last() =~= pts@.take(i as int));
            assert(pts@.take(i + 1 as int).last() == pts@[i as int]);
        }
        if i > 0 {
            s.append(" ");
        }
        let p = pts[i];
        let x_text = format_tenths(p.x);
        s.append(x_text.as_str());
        s.append(",");
        let y_text = format_tenths(p.y);
        s.append(y_text.as_str());
        proof {
            if i == 0 {
                assert(pts@.take(1) =~= seq![pts@[0]]);
            }
            assert(s@ =~= spec_points_text(pts@.take(i + 1 as int)));
        }
        i = i + 1;
    }
    proof {
        assert(pts@.take(n as int) =~= pts@);
    }
    s
}

/// The `M x y` command moving to a point.
pub open spec fn spec_move_cmd(p: Point) -> Seq<char> {
    seq!['M', ' '] + spec_tenths_text(p.x as int) + seq![' '] + spec_tenths_text(p.y as int)
}

/// The `L x y` command drawing a segment to a point.
pub open spec fn spec_line_cmd(p: Point) -> Seq<char> {
    seq!['L', ' '] + spec_tenths_text(p.x as int) + seq![' '] + spec_tenths_text(p.y as int)
}

/// Appends `M x y` for one point to `s`.
pub fn push_move_cmd(s: &mut String, p: Point)
    requires
        p.x > i64::MIN,
        p.y > i64::MIN,
    ensures
        final(s)@ == old(s)@ + spec_move_cmd(p),
{
    proof {
        reveal_strlit("M ");
    }
    s.append("M ");
    push_coords(s, p);
    assert(s@ =~= old(s)@ + spec_move_cmd(p));
}

/// Appends `L x y` for one point to `s`.
pub fn push_line_cmd(s: &mut String, p: Point)
    requires
        p.x > i64::MIN,
        p.y > i64::MIN,
    ensures
        final(s)@ == old(s)@ + spec_line_cmd(p),
{
    proof {
        reveal_strlit("L ");
    }
    s.append("L ");
    push_coords(s, p);
    assert(s@ =~= old(s)@ + spec_line_cmd(p));
}

/// Straight path data: one move to the first point, then one segment
/// command per subsequent point, in input order.
pub open spec fn spec_straight_path(pts: Seq<Point>) -> Seq<char>
    decreases pts.len(),
{
    if pts.len() == 0 {
        Seq::<char>::empty()
    } else if pts.len() == 1 {
        spec_move_cmd(pts[0])
    } else {
        spec_straight_path(pts.drop_last()) + seq![' '] + spec_line_cmd(pts.last())
    }
}

/// Straight path data over a point list.
pub fn straight_path(pts: &Vec<Point>) -> (s: String)
    requires
        spec_points_bounded(pts@),
    ensures
        s@ == spec_straight_path(pts@),
{
    let mut s = String::new();
    let n = pts.len();
    let mut i: usize = 0;
    while i < n
        invariant
            i <= n,
            n == pts@.len(),
            spec_points_bounded(pts@),
            s@ == spec_straight_path(pts@.take(i as int)),
        decreases n - i,
    {
        proof {
            reveal_strlit("M ");
            reveal_strlit("L ");
            reveal_strlit(" ");
            assert(pts@.take(i + 1 as int).drop_last() =~= pts@.take(i as int));
            assert(pts@.take(i + 1 as int).last() == pts@[i as int]);
        }
        if i == 0 {
            s.append("M ");
        } else {
            s.append(" ");
            s.append("L ");
        }
        push_coords(&mut s, pts[i]);
        proof {
            if i == 0 {
                assert(pts@.take(1) =~= seq![pts@[0]]);
            }
            assert(s@ =~= spec_straight_path(pts@.take(i + 1 as int)));
        }
        i = i + 1;
    }
    proof {
        assert(pts@.take(n as int) =~= pts@);
    }
    s
}

/// Truncating division by six, matching machine division on either sign.
pub open spec fn spec_div6(a: int) -> int {
    if a >= 0 {
        a / 6
    } else {
        -((-a) / 6)
    }
}

/// Truncating division by six.
fn div6(a: i64) -> (r: i64)
    requires
        -MAX_COORD * 4 <= a <= MAX_COORD * 4,
    ensures
        r == spec_div6(a as int),
{
    if a >= 0 {
        ((a as u64) / 6) as i64
    } else {
        -((((-a) as u64) / 6) as i64)
    }
}

/// The clamped index used when a segment leans on a neighbour point that
/// does not exist: the run is extended by repeating its end points.
pub open spec fn spec_clamp_idx(i: int, len: int) -> int {
    if i < 0 {
        0
    } else if i >= len {
        len - 1
    } else {
        i
    }
}

/// The first control point of the segment ending at `pts[i]`.
pub open spec fn spec_ctrl1(pts: Seq<Point>, i: int) -> Point {
    let prev = pts[i - 1];
    let back = pts[spec_clamp_idx(i - 2, pts.len() as int)];
    Point {
        x: (prev.x + spec_div6(pts[i].x - back.x)) as i64,
        y: (prev.y + spec_div6(pts[i].y - back.y)) as i64,
    }
}

/// The second control point of the segment ending at `pts[i]`.
pub open spec fn spec_ctrl2(pts: Seq<Point>, i: int) -> Point {
    let next = pts[spec_clamp_idx(i + 1, pts.len() as int)];
    Point {
        x: (pts[i].x - spec_div6(next.x - pts[i - 1].x)) as i64,
        y: (pts[i].y - spec_div6(next.y - pts[i - 1].y)) as i64,
    }
}

/// The `C c1x c1y, c2x c2y, x y` command of one cubic segment.
pub open spec fn spec_curve_cmd(c1: Point, c2: Point, p: Point) -> Seq<char> {
    seq!['C', ' '] + spec_tenths_text(c1.x as int) + seq![' '] + spec_tenths_text(c1.y as int)
        + seq![',', ' '] + spec_tenths_text(c2.x as int) + seq![' '] + spec_tenths_text(
        c2.y as int,
    ) + seq![',', ' '] + spec_tenths_text(p.x as int) + seq![' '] + spec_tenths_text(p.y as int)
}

/// The cubic segment ending at `pts[i]`.
pub open spec fn spec_smooth_seg(pts: Seq<Point>, i: int) -> Seq<char> {
    spec_curve_cmd(spec_ctrl1(pts, i), spec_ctrl2(pts, i), pts[i])
}

/// Appends ` C c1x c1y, c2x c2y, x y` to `s`.
#[verifier::rlimit(50)]
fn push_curve_cmd(s: &mut String, c1: Point, c2: Point, p: Point)
    requires
        c1.x > i64::MIN,
        c1.y > i64::MIN,
        c2.x > i64::MIN,
        c2.y > i64::MIN,
        p.x > i64::MIN,
        p.y > i64::MIN,
    ensures
        final(s)@ == old(s)@ + seq![' '] + spec_curve_cmd(c1, c2, p),
{
    proof {
        reveal_strlit(" C ");
        reveal_strlit(", ");
    }
    s.append(" C ");
    push_coords(s, c1);
    s.append(", ");
    push_coords(s, c2);
    s.append(", ");
    push_coords(s, p);
    assert(s@ =~= old(s)@ + seq![' '] + spec_curve_cmd(c1, c2, p));
}

/// The cubic segments of a smooth path through the first `k` points.
pub open spec fn spec_smooth_segs(pts: Seq<Point>, k: int) -> Seq<char>
    decreases k,
{
    if k <= 1 {
        Seq::<char>::empty()
    } else {
        spec_smooth_segs(pts, k - 1) + seq![' '] + spec_smooth_seg(pts, k - 1)
    }
}

/// Smooth path data: a move to the first point, then one cubic segment per
/// subsequent point; a single point degenerates to the move alone.
pub open spec fn spec_smooth_path(pts: Seq<Point>) -> Seq<char> {
    if pts.len() == 0 {
        Seq::<char>::empty()
    } else {
        spec_move_cmd(pts[0]) + spec_smooth_segs(pts, pts.len() as int)
    }
}

/// Smooth path data over a point list.
#[verifier::rlimit(100)]
pub fn smooth_path(pts: &Vec<Point>) -> (s: String)
    requires
        spec_points_bounded(pts@),
    ensures
        s@ == spec_smooth_path(pts@),
{
    let mut s = String::new();
    let n = pts.len();
    if n == 0 {
        return s;
    }
    proof {
        reveal_strlit("M ");
    }
    s.append("M ");
    push_coords(&mut s, pts[0]);
    let mut i: usize = 1;
    while i < n
        invariant
            1 <= i <= n,
            n == pts@.len(),
            spec_points_bounded(pts@),
            s@ == spec_move_cmd(pts@[0]) + spec_smooth_segs(pts@, i as int),
        decreases n - i,
    {
        let prev = pts[i - 1];
        let back = if i >= 2 {
            pts[i - 2]
        } else {
            pts[0]
        };
        let next = if i + 1 < n {
            pts[i + 1]
        } else {
            pts[n - 1]
        };
        let cur = pts[i];
        let c1 = Point {
            x: prev.x + div6(cur.x - back.x),
            y: prev.y + div6(cur.y - back.y),
        };
        let c2 = Point {
            x: cur.x - div6(next.x - prev.x),
            y: cur.y - div6(next.y - prev.y),
        };
        proof {
            assert(c1 == spec_ctrl1(pts@, i as int));
            assert(c2 == spec_ctrl2(pts@, i as int));
        }
        push_curve_cmd(&mut s, c1, c2, cur);
        proof {
            assert(s@ =~= spec_move_cmd(pts@[0]) + spec_smooth_segs(pts@, i + 1 as int));
        }
        i = i + 1;
    }
    s
}

} // verus!
