//! Triangle rasterization over integer screen coordinates.
//!
//! The rasterizer walks the triangle's bounding box, clipped to the
//! framebuffer, and keeps exactly the pixels whose three barycentric weights
//! lie within `[0, 1]` (edge-inclusive). Weights are exact integer edge
//! function values, each the weight's numerator over the common denominator
//! `area`; attribute interpolation divides by `area` downstream. Arithmetic is
//! exact, so only exactly degenerate (zero-area) triangles are rejected, and
//! both triangle orientations are filled.

use vstd::prelude::*;

verus! {

/// Largest screen coordinate magnitude the rasterizer admits; keeps every
/// edge function value comfortably inside 64 bits.
pub const COORD_LIMIT: i32 = 0x100000;

/// A vertex position already mapped to integer screen pixel coordinates.
#[derive(Clone, Copy, Debug, PartialEq, Eq, Structural)]
pub struct ScreenPoint {
    pub x: i32,
    pub y: i32,
}

/// One covered pixel: its screen position and the exact barycentric weight
/// numerators of the three vertices there, over the common denominator
/// `area`.
#[derive(Clone, Copy, Debug, PartialEq, Eq, Structural)]
pub struct Fragment {
    pub x: usize,
    pub y: usize,
    pub w0: i64,
    pub w1: i64,
    pub w2: i64,
    pub area: i64,
}

/// The edge function: twice the signed area of the triangle `(a, b, p)`.
pub open spec fn edge_fn(ax: int, ay: int, bx: int, by: int, px: int, py: int) -> int {
    (bx - ax) * (py - ay) - (by - ay) * (px - ax)
}

/// Twice the signed area of the triangle.
pub open spec fn spec_area(v0: ScreenPoint, v1: ScreenPoint, v2: ScreenPoint) -> int {
    edge_fn(v0.x as int, v0.y as int, v1.x as int, v1.y as int, v2.x as int, v2.y as int)
}

/// Barycentric weight numerator of `v0` at `(px, py)`.
pub open spec fn spec_w0(v0: ScreenPoint, v1: ScreenPoint, v2: ScreenPoint, px: int, py: int) -> int {
    edge_fn(v1.x as int, v1.y as int, v2.x as int, v2.y as int, px, py)
}

/// Barycentric weight numerator of `v1` at `(px, py)`.
pub open spec fn spec_w1(v0: ScreenPoint, v1: ScreenPoint, v2: ScreenPoint, px: int, py: int) -> int {
    edge_fn(v2.x as int, v2.y as int, v0.x as int, v0.y as int, px, py)
}

/// Barycentric weight numerator of `v2` at `(px, py)`.
pub open spec fn spec_w2(v0: ScreenPoint, v1: ScreenPoint, v2: ScreenPoint, px: int, py: int) -> int {
    edge_fn(v0.x as int, v0.y as int, v1.x as int, v1.y as int, px, py)
}

/// The weight `w / area` lies in `[0, 1]`: `w` lies between 0 and `area`,
/// whichever orientation the triangle has.
pub open spec fn weight_in_unit(w: int, area: int) -> bool {
    if area >= 0 {
        0 <= w <= area
    } else {
        area <= w <= 0
    }
}

/// A pixel belongs to the triangle iff the triangle is not degenerate and all
/// three barycentric weights lie within `[0, 1]` (edge-inclusive).
pub open spec fn covers(v0: ScreenPoint, v1: ScreenPoint, v2: ScreenPoint, px: int, py: int) -> bool {
    &&& spec_area(v0, v1, v2) != 0
    &&& weight_in_unit(spec_w0(v0, v1, v2, px, py), spec_area(v0, v1, v2))
    &&& weight_in_unit(spec_w1(v0, v1, v2, px, py), spec_area(v0, v1, v2))
    &&& weight_in_unit(spec_w2(v0, v1, v2, px, py), spec_area(v0, v1, v2))
}

/// A vertex the rasterizer admits.
pub open spec fn in_coord_range(p: ScreenPoint) -> bool {
    &&& -COORD_LIMIT <= p.x <= COORD_LIMIT
    &&& -COORD_LIMIT <= p.y <= COORD_LIMIT
}

/// The fragment carries the exact weights of its own pixel.
pub open spec fn frag_matches(v0: ScreenPoint, v1: ScreenPoint, v2: ScreenPoint, f: Fragment) -> bool {
    &&& covers(v0, v1, v2, f.x as int, f.y as int)
    &&& f.w0 == spec_w0(v0, v1, v2, f.x as int, f.y as int)
    &&& f.w1 == spec_w1(v0, v1, v2, f.x as int, f.y as int)
    &&& f.w2 == spec_w2(v0, v1, v2, f.x as int, f.y as int)
    &&& f.area == spec_area(v0, v1, v2)
}

/// Some fragment in the sequence sits at pixel `(px, py)`.
pub open spec fn has_fragment(s: Seq<Fragment>, px: int, py: int) -> bool {
    exists|k: int| 0 <= k < s.len() && s[k].x == px && s[k].y == py
}

/// Row-major scan order on fragments.
pub open spec fn lex_before(f: Fragment, g: Fragment) -> bool {
    f.y < g.y || (f.y == g.y && f.x < g.x)
}

/// The least of three values.
pub open spec fn min3(a: int, b: int, c: int) -> int {
    if a <= b && a <= c {
        a
    } else if b <= c {
        b
    } else {
        c
    }
}

/// The greatest of three values.
pub open spec fn max3(a: int, b: int, c: int) -> int {
    if a >= b && a >= c {
        a
    } else if b >= c {
        b
    } else {
        c
    }
}

/// The three weight numerators always sum to the area, at every point.
proof fn lemma_edge_sum(x0: int, y0: int, x1: int, y1: int, x2: int, y2: int, px: int, py: int)
    ensures
        edge_fn(x1, y1, x2, y2, px, py) + edge_fn(x2, y2, x0, y0, px, py) + edge_fn(
            x0,
            y0,
            x1,
            y1,
            px,
            py,
        ) == edge_fn(x0, y0, x1, y1, x2, y2),
{
    let u1x = x1 - x0;
    let u1y = y1 - y0;
    let u2x = x2 - x0;
    let u2y = y2 - y0;
    let qx = px - x0;
    let qy = py - y0;
    let s0 = (u2x - u1x) * (qy - u1y) - (u2y - u1y) * (qx - u1x);
    let s1 = (0 - u2x) * (qy - u2y) - (0 - u2y) * (qx - u2x);
    let s2 = u1x * qy - u1y * qx;
    let a = u1x * u2y - u1y * u2x;
    assert(edge_fn(x1, y1, x2, y2, px, py) == s0);
    assert(edge_fn(x2, y2, x0, y0, px, py) == s1);
    assert(edge_fn(x0, y0, x1, y1, px, py) == s2);
    assert(edge_fn(x0, y0, x1, y1, x2, y2) == a);
    let t1 = u2y * qx;
    let t2 = u2x * qy;
    let t3 = u1x * qy;
    let t4 = u1y * qx;
    let a1 = u1x * u2y;
    let a2 = u1y * u2x;
    assert(s1 == t1 - t2) by (nonlinear_arith)
        requires
            s1 == (0 - u2x) * (qy - u2y) - (0 - u2y) * (qx - u2x),
            t1 == u2y * qx,
            t2 == u2x * qy,
    ;
    assert((u2x - u1x) * (qy - u1y) == u2x * qy - u2x * u1y - u1x * qy + u1x * u1y) by (nonlinear_arith);
    assert((u2y - u1y) * (qx - u1x) == u2y * qx - u2y * u1x - u1y * qx + u1y * u1x) by (nonlinear_arith);
    assert(u1x * u1y == u1y * u1x) by (nonlinear_arith);
    assert(u2y * u1x == a1) by (nonlinear_arith)
        requires
            a1 == u1x * u2y,
    ;
    assert(u2x * u1y == a2) by (nonlinear_arith)
        requires
            a2 == u1y * u2x,
    ;
    assert(s0 + s1 + s2 == a);
}

/// The barycentric combination of the vertices' coordinates with these
/// weights reproduces the sample point, scaled by the area.
proof fn lemma_edge_combine(x0: int, y0: int, x1: int, y1: int, x2: int, y2: int, px: int, py: int)
    ensures
        edge_fn(x1, y1, x2, y2, px, py) * x0 + edge_fn(x2, y2, x0, y0, px, py) * x1 + edge_fn(
            x0,
            y0,
            x1,
            y1,
            px,
            py,
        ) * x2 == edge_fn(x0, y0, x1, y1, x2, y2) * px,
        edge_fn(x1, y1, x2, y2, px, py) * y0 + edge_fn(x2, y2, x0, y0, px, py) * y1 + edge_fn(
            x0,
            y0,
            x1,
            y1,
            px,
            py,
        ) * y2 == edge_fn(x0, y0, x1, y1, x2, y2) * py,
{
    let u1x = x1 - x0;
    let u1y = y1 - y0;
    let u2x = x2 - x0;
    let u2y = y2 - y0;
    let qx = px - x0;
    let qy = py - y0;
    let s0 = (u2x - u1x) * (qy - u1y) - (u2y - u1y) * (qx - u1x);
    let s1 = (0 - u2x) * (qy - u2y) - (0 - u2y) * (qx - u2x);
    let s2 = u1x * qy - u1y * qx;
    let a = u1x * u2y - u1y * u2x;
    assert(edge_fn(x1, y1, x2, y2, px, py) == s0);
    assert(edge_fn(x2, y2, x0, y0, px, py) == s1);
    assert(edge_fn(x0, y0, x1, y1, px, py) == s2);
    assert(edge_fn(x0, y0, x1, y1, x2, y2) == a);
    lemma_edge_sum(x0, y0, x1, y1, x2, y2, px, py);
    let t1 = u2y * qx;
    let t2 = u2x * qy;
    let t3 = u1x * qy;
    let t4 = u1y * qx;
    let a1 = u1x * u2y;
    let a2 = u1y * u2x;
    assert(s1 == t1 - t2) by (nonlinear_arith)
        requires
            s1 == (0 - u2x) * (qy - u2y) - (0 - u2y) * (qx - u2x),
            t1 == u2y * qx,
            t2 == u2x * qy,
    ;
    assert((t1 - t2) * u1x == t1 * u1x - t2 * u1x) by (nonlinear_arith);
    assert((t3 - t4) * u2x == t3 * u2x - t4 * u2x) by (nonlinear_arith);
    assert((a1 - a2) * qx == a1 * qx - a2 * qx) by (nonlinear_arith);
    assert(t1 * u1x == a1 * qx) by (nonlinear_arith)
        requires
            t1 == u2y * qx,
            a1 == u1x * u2y,
    ;
    assert(t2 * u1x == t3 * u2x) by (nonlinear_arith)
        requires
            t2 == u2x * qy,
            t3 == u1x * qy,
    ;
    assert(t4 * u2x == a2 * qx) by (nonlinear_arith)
        requires
            t4 == u1y * qx,
            a2 == u1y * u2x,
    ;
    assert(s1 * u1x + s2 * u2x == a * qx);
    assert((t1 - t2) * u1y == t1 * u1y - t2 * u1y) by (nonlinear_arith);
    assert((t3 - t4) * u2y == t3 * u2y - t4 * u2y) by (nonlinear_arith);
    assert((a1 - a2) * qy == a1 * qy - a2 * qy) by (nonlinear_arith);
    assert(t1 * u1y == t4 * u2y) by (nonlinear_arith)
        requires
            t1 == u2y * qx,
            t4 == u1y * qx,
    ;
    assert(t2 * u1y == a2 * qy) by (nonlinear_arith)
        requires
            t2 == u2x * qy,
            a2 == u1y * u2x,
    ;
    assert(t3 * u2y == a1 * qy) by (nonlinear_arith)
        requires
            t3 == u1x * qy,
            a1 == u1x * u2y,
    ;
    assert(s1 * u1y + s2 * u2y == a * qy);
    assert(s1 * x1 == s1 * x0 + s1 * u1x) by (nonlinear_arith)
        requires
            x1 == x0 + u1x,
    ;
    assert(s2 * x2 == s2 * x0 + s2 * u2x) by (nonlinear_arith)
        requires
            x2 == x0 + u2x,
    ;
    assert((s0 + s1 + s2) * x0 == s0 * x0 + s1 * x0 + s2 * x0) by (nonlinear_arith);
    assert(a * px == a * x0 + a * qx) by (nonlinear_arith)
        requires
            px == x0 + qx,
    ;
    assert(s1 * y1 == s1 * y0 + s1 * u1y) by (nonlinear_arith)
        requires
            y1 == y0 + u1y,
    ;
    assert(s2 * y2 == s2 * y0 + s2 * u2y) by (nonlinear_arith)
        requires
            y2 == y0 + u2y,
    ;
    assert((s0 + s1 + s2) * y0 == s0 * y0 + s1 * y0 + s2 * y0) by (nonlinear_arith);
    assert(a * py == a * y0 + a * qy) by (nonlinear_arith)
        requires
            py == y0 + qy,
    ;
}

/// A point written as a barycentric combination with unit-interval weights
/// lies between the least and greatest of the combined values.
proof fn lemma_weighted_bound(
    w0: int,
    w1: int,
    w2: int,
    c0: int,
    c1: int,
    c2: int,
    area: int,
    p: int,
    lo: int,
    hi: int,
)
    requires
        area != 0,
        w0 + w1 + w2 == area,
        w0 * c0 + w1 * c1 + w2 * c2 == area * p,
        weight_in_unit(w0, area),
        weight_in_unit(w1, area),
        weight_in_unit(w2, area),
        lo <= c0 <= hi,
        lo <= c1 <= hi,
        lo <= c2 <= hi,
    ensures
        lo <= p <= hi,
{
    if area > 0 {
        assert(area * lo <= area * p <= area * hi) by (nonlinear_arith)
            requires
                w0 >= 0,
                w1 >= 0,
                w2 >= 0,
                w0 + w1 + w2 == area,
                w0 * c0 + w1 * c1 + w2 * c2 == area * p,
                lo <= c0 <= hi,
                lo <= c1 <= hi,
                lo <= c2 <= hi,
        ;
        assert(lo <= p <= hi) by (nonlinear_arith)
            requires
                area > 0,
                area * lo <= area * p <= area * hi,
        ;
    } else {
        assert(area * hi <= area * p <= area * lo) by (nonlinear_arith)
            requires
                w0 <= 0,
                w1 <= 0,
                w2 <= 0,
                w0 + w1 + w2 == area,
                w0 * c0 + w1 * c1 + w2 * c2 == area * p,
                lo <= c0 <= hi,
                lo <= c1 <= hi,
                lo <= c2 <= hi,
        ;
        assert(lo <= p <= hi) by (nonlinear_arith)
            requires
                area < 0,
                area * hi <= area * p <= area * lo,
        ;
    }
}

/// Every covered point lies inside the triangle's bounding box.
proof fn lemma_covered_in_bbox(v0: ScreenPoint, v1: ScreenPoint, v2: ScreenPoint, px: int, py: int)
    requires
        covers(v0, v1, v2, px, py),
    ensures
        min3(v0.x as int, v1.x as int, v2.x as int) <= px <= max3(v0.x as int, v1.x as int, v2.x as int),
        min3(v0.y as int, v1.y as int, v2.y as int) <= py <= max3(v0.y as int, v1.y as int, v2.y as int),
{
    let x0 = v0.x as int;
    let y0 = v0.y as int;
    let x1 = v1.x as int;
    let y1 = v1.y as int;
    let x2 = v2.x as int;
    let y2 = v2.y as int;
    lemma_edge_sum(x0, y0, x1, y1, x2, y2, px, py);
    lemma_edge_combine(x0, y0, x1, y1, x2, y2, px, py);
    lemma_weighted_bound(
        spec_w0(v0, v1, v2, px, py),
        spec_w1(v0, v1, v2, px, py),
        spec_w2(v0, v1, v2, px, py),
        x0,
        x1,
        x2,
        spec_area(v0, v1, v2),
        px,
        min3(x0, x1, x2),
        max3(x0, x1, x2),
    );
    lemma_weighted_bound(
        spec_w0(v0, v1, v2, px, py),
        spec_w1(v0, v1, v2, px, py),
        spec_w2(v0, v1, v2, px, py),
        y0,
        y1,
        y2,
        spec_area(v0, v1, v2),
        py,
        min3(y0, y1, y2),
        max3(y0, y1, y2),
    );
}

/// A pixel already recorded stays recorded when a fragment is appended.
proof fn lemma_has_fragment_push(s: Seq<Fragment>, f: Fragment, px: int, py: int)
    requires
        has_fragment(s, px, py),
    ensures
        has_fragment(s.push(f), px, py),
{
    let k = choose|k: int| 0 <= k < s.len() && s[k].x == px && s[k].y == py;
    assert(s.push(f)[k] == s[k]);
}

/// Computes the edge function exactly in 64-bit arithmetic.
fn edge_i64(ax: i64, ay: i64, bx: i64, by: i64, px: i64, py: i64) -> (w: i64)
    requires
        -0x200000 <= ax <= 0x200000,
        -0x200000 <= ay <= 0x200000,
        -0x200000 <= bx <= 0x200000,
        -0x200000 <= by <= 0x200000,
        -0x200000 <= px <= 0x200000,
        -0x200000 <= py <= 0x200000,
    ensures
        w == edge_fn(ax as int, ay as int, bx as int, by as int, px as int, py as int),
{
    let d1 = bx - ax;
    let d2 = py - ay;
    let d3 = by - ay;
    let d4 = px - ax;
    proof {
        assert(-0x10000000000000 <= d1 * d2 <= 0x10000000000000) by (nonlinear_arith)
            requires
                -0x400000 <= d1 <= 0x400000,
                -0x400000 <= d2 <= 0x400000,
        ;
        assert(-0x10000000000000 <= d3 * d4 <= 0x10000000000000) by (nonlinear_arith)
            requires
                -0x400000 <= d3 <= 0x400000,
                -0x400000 <= d4 <= 0x400000,
        ;
    }
    d1 * d2 - d3 * d4
}

/// The least of three coordinates.
fn min3_i32(a: i32, b: i32, c: i32) -> (m: i32)
    ensures
        m as int == min3(a as int, b as int, c as int),
{
    if a <= b && a <= c {
        a
    } else if b <= c {
        b
    } else {
        c
    }
}

/// The greatest of three coordinates.
fn max3_i32(a: i32, b: i32, c: i32) -> (m: i32)
    ensures
        m as int == max3(a as int, b as int, c as int),
{
    if a >= b && a >= c {
        a
    } else if b >= c {
        b
    } else {
        c
    }
}

/// Rasterizes one triangle into the fragments covering its screen footprint
/// within a `width` x `height` target, in row-major scan order.
///
/// The result holds exactly the in-bounds pixels the triangle covers: every
/// fragment is a covered pixel carrying its exact weights, every covered
/// in-bounds pixel appears, a degenerate triangle yields no fragments, and
/// fragments are strictly ordered (so no pixel appears twice).
pub fn triangle_fragments(
    v0: ScreenPoint,
    v1: ScreenPoint,
    v2: ScreenPoint,
    width: usize,
    height: usize,
) -> (frags: Vec<Fragment>)
    requires
        in_coord_range(v0),
        in_coord_range(v1),
        in_coord_range(v2),
        width <= COORD_LIMIT as usize,
        height <= COORD_LIMIT as usize,
    ensures
        forall|k: int|
            0 <= k < frags@.len() ==> frag_matches(v0, v1, v2, #[trigger] frags@[k])
                && frags@[k].x < width && frags@[k].y < height,
        forall|px: int, py: int|
            0 <= px < width && 0 <= py < height && #[trigger] covers(v0, v1, v2, px, py)
                ==> has_fragment(frags@, px, py),
        spec_area(v0, v1, v2) == 0 ==> frags@.len() == 0,
        forall|i: int, j: int|
            0 <= i < j < frags@.len() ==> lex_before(#[trigger] frags@[i], #[trigger] frags@[j]),
{
    let mut frags: Vec<Fragment> = Vec::new();
    let area = edge_i64(
        v0.x as i64,
        v0.y as i64,
        v1.x as i64,
        v1.y as i64,
        v2.x as i64,
        v2.y as i64,
    );
    if area == 0 {
        return frags;
    }
    let x_lo: i64 = {
        let m = min3_i32(v0.x, v1.x, v2.x);
        if m < 0 {
            0
        } else {
            m as i64
        }
    };
    let x_hi: i64 = {
        let m = max3_i32(v0.x, v1.x, v2.x);
        let edge_x = width as i64 - 1;
        if (m as i64) < edge_x {
            m as i64
        } else {
            edge_x
        }
    };
    let y_lo: i64 = {
        let m = min3_i32(v0.y, v1.y, v2.y);
        if m < 0 {
            0
        } else {
            m as i64
        }
    };
    let y_hi: i64 = {
        let m = max3_i32(v0.y, v1.y, v2.y);
        let edge_y = height as i64 - 1;
        if (m as i64) < edge_y {
            m as i64
        } else {
            edge_y
        }
    };
    proof {
        assert forall|px: int, py: int|
            0 <= px < width && 0 <= py < height && #[trigger] covers(v0, v1, v2, px, py) implies x_lo
            <= px <= x_hi && y_lo <= py <= y_hi by {
            lemma_covered_in_bbox(v0, v1, v2, px, py);
        }
    }
    if x_lo > x_hi || y_lo > y_hi {
        return frags;
    }
    let mut cy: i64 = y_lo;
    while cy <= y_hi
        invariant
            in_coord_range(v0),
            in_coord_range(v1),
            in_coord_range(v2),
            width <= COORD_LIMIT as usize,
            height <= COORD_LIMIT as usize,
            area == spec_area(v0, v1, v2),
            area != 0,
            0 <= x_lo <= x_hi < width,
            0 <= y_lo <= cy <= y_hi + 1,
            y_hi < height,
            forall|px: int, py: int|
                0 <= px < width && 0 <= py < height && #[trigger] covers(v0, v1, v2, px, py)
                    ==> x_lo <= px <= x_hi && y_lo <= py <= y_hi,
            forall|k: int|
                0 <= k < frags@.len() ==> frag_matches(v0, v1, v2, #[trigger] frags@[k])
                    && frags@[k].x < width && frags@[k].y < height,
            forall|k: int| 0 <= k < frags@.len() ==> (#[trigger] frags@[k]).y < cy,
            forall|i: int, j: int|
                0 <= i < j < frags@.len() ==> lex_before(#[trigger] frags@[i], #[trigger] frags@[j]),
            forall|px: int, py: int|
                0 <= px < width && 0 <= py < height && #[trigger] covers(v0, v1, v2, px, py) && py
                    < cy ==> has_fragment(frags@, px, py),
        decreases y_hi + 1 - cy,
    {
        let mut cx: i64 = x_lo;
        while cx <= x_hi
            invariant
                in_coord_range(v0),
                in_coord_range(v1),
                in_coord_range(v2),
                width <= COORD_LIMIT as usize,
                height <= COORD_LIMIT as usize,
                area == spec_area(v0, v1, v2),
                area != 0,
                0 <= x_lo <= x_hi < width,
                0 <= y_lo <= cy <= y_hi,
                y_hi < height,
                x_lo <= cx <= x_hi + 1,
                forall|px: int, py: int|
                    0 <= px < width && 0 <= py < height && #[trigger] covers(v0, v1, v2, px, py)
                        ==> x_lo <= px <= x_hi && y_lo <= py <= y_hi,
                forall|k: int|
                    0 <= k < frags@.len() ==> frag_matches(v0, v1, v2, #[trigger] frags@[k])
                        && frags@[k].x < width && frags@[k].y < height,
                forall|k: int|
                    0 <= k < frags@.len() ==> (#[trigger] frags@[k]).y < cy || (frags@[k].y == cy
                        && frags@[k].x < cx),
                forall|i: int, j: int|
                    0 <= i < j < frags@.len() ==> lex_before(
                        #[trigger] frags@[i],
                        #[trigger] frags@[j],
                    ),
                forall|px: int, py: int|
                    0 <= px < width && 0 <= py < height && #[trigger] covers(v0, v1, v2, px, py)
                        && (py < cy || (py == cy && px < cx)) ==> has_fragment(frags@, px, py),
            decreases x_hi + 1 - cx,
        {
            let w0 = edge_i64(v1.x as i64, v1.y as i64, v2.x as i64, v2.y as i64, cx, cy);
            let w1 = edge_i64(v2.x as i64, v2.y as i64, v0.x as i64, v0.y as i64, cx, cy);
            let w2 = edge_i64(v0.x as i64, v0.y as i64, v1.x as i64, v1.y as i64, cx, cy);
            let inside = if area > 0 {
                0 <= w0 && w0 <= area && 0 <= w1 && w1 <= area && 0 <= w2 && w2 <= area
            } else {
                area <= w0 && w0 <= 0 && area <= w1 && w1 <= 0 && area <= w2 && w2 <= 0
            };
            assert(inside == covers(v0, v1, v2, cx as int, cy as int));
            let ghost pre = frags@;
            if inside {
                frags.push(
                    Fragment { x: cx as usize, y: cy as usize, w0, w1, w2, area },
                );
                proof {
                    assert(frags@ == pre.push(
                        Fragment { x: cx as usize, y: cy as usize, w0, w1, w2, area },
                    ));
                    assert(frags@[pre.len() as int].x == cx as int);
                    assert(has_fragment(frags@, cx as int, cy as int));
                }
            }
            proof {
                assert forall|px: int, py: int|
                    has_fragment(pre, px, py) implies has_fragment(frags@, px, py) by {
                    if frags@ =~= pre {
                    } else {
                        lemma_has_fragment_push(
                            pre,
                            frags@[frags@.len() - 1],
                            px,
                            py,
                        );
                        assert(frags@ == pre.push(frags@[frags@.len() - 1]));
                    }
                }
            }
            cx = cx + 1;
        }
        cy = cy + 1;
    }
    frags
}

} // verus!
