//! The rasterizer: turns one triangle of transformed vertices into the set
//! of covered pixels with interpolated attributes.
//!
//! A pixel is covered when its sample point passes the edge test of the
//! triangle taken counterclockwise, with a top-left rule breaking ties for
//! points exactly on an edge: of two triangles sharing an edge, exactly one
//! claims such a point, so adjacent triangles neither double-rasterize nor
//! leave gaps (see `lemma_shared_edge_no_duplicate` and
//! `lemma_shared_edge_no_gap`). Edge functions are evaluated in exact wide
//! integers over every frame pixel; no geometric clipping happens —
//! off-screen candidates never enter the frame scan.

use vstd::prelude::*;
use crate::fragment::Fragment;
use crate::fx::{
    Fx, FX_MAX, FX_ONE, FX_SCALE, fadd, fclamp, fmul, lemma_mul_abs_bound,
    fx_add, fx_clamp, fx_mul,
};
use crate::geom::{V3, dot3, normalize_spec, v3_dot, v3_normalize};
use crate::vertex::Vertex;

verus! {

/// Lighting intensity floor: fragments facing away from the light keep a
/// tenth of full brightness rather than going black.
pub const AMBIENT_RAW: i64 = 6554;

/// The exact edge function: twice the signed area of the triangle
/// `(a, b, p)`, positive when `p` lies to the left of `a -> b`.
pub open spec fn edge(ax: int, ay: int, bx: int, by: int, px: int, py: int) -> int {
    (bx - ax) * (py - ay) - (by - ay) * (px - ax)
}

/// The top-left rule: a directed edge owns its boundary points when it
/// points upward, or leftward when horizontal.
pub open spec fn top_left(ax: int, ay: int, bx: int, by: int) -> bool {
    by - ay < 0 || (by - ay == 0 && bx - ax < 0)
}

/// A directed edge accepts a point strictly to its left, and a point
/// exactly on it only under the top-left rule.
pub open spec fn edge_accepts(ax: int, ay: int, bx: int, by: int, px: int, py: int) -> bool {
    let e = edge(ax, ay, bx, by, px, py);
    e > 0 || (e == 0 && top_left(ax, ay, bx, by))
}

/// Membership in a counterclockwise triangle: all three directed edges
/// accept the point.
pub open spec fn inside_ccw(
    ax: int, ay: int, bx: int, by: int, cx: int, cy: int, px: int, py: int,
) -> bool {
    &&& edge_accepts(ax, ay, bx, by, px, py)
    &&& edge_accepts(bx, by, cx, cy, px, py)
    &&& edge_accepts(cx, cy, ax, ay, px, py)
}

/// Twice the signed area of a screen triangle.
pub open spec fn tri_area2(a: V3, b: V3, c: V3) -> int {
    edge(a.x as int, a.y as int, b.x as int, b.y as int, c.x as int, c.y as int)
}

/// Coverage of a sample point by a triangle in either winding: the
/// triangle is first oriented counterclockwise; a degenerate (zero-area)
/// triangle covers nothing.
pub open spec fn covers(a: V3, b: V3, c: V3, px: int, py: int) -> bool {
    let ar = tri_area2(a, b, c);
    if ar > 0 {
        inside_ccw(a.x as int, a.y as int, b.x as int, b.y as int, c.x as int, c.y as int, px, py)
    } else if ar < 0 {
        inside_ccw(a.x as int, a.y as int, c.x as int, c.y as int, b.x as int, b.y as int, px, py)
    } else {
        false
    }
}

/// Coverage of the sample point of the pixel `(jx, jy)`.
pub open spec fn pix_covers(a: V3, b: V3, c: V3, jx: int, jy: int) -> bool {
    covers(a, b, c, jx * FX_SCALE, jy * FX_SCALE)
}

/// Reversing a directed edge negates its edge function.
pub proof fn lemma_edge_antisymmetric(ax: int, ay: int, bx: int, by: int, px: int, py: int)
    ensures
        edge(bx, by, ax, ay, px, py) == -edge(ax, ay, bx, by, px, py),
{
    assert((ax - bx) * (py - by) - (ay - by) * (px - bx)
        == -((bx - ax) * (py - ay) - (by - ay) * (px - ax))) by (nonlinear_arith);
}

/// A point exactly on a shared edge is accepted by exactly one of the two
/// directions of that edge.
pub proof fn lemma_shared_edge_exclusive(ax: int, ay: int, bx: int, by: int, px: int, py: int)
    requires
        !(ax == bx && ay == by),
        edge(ax, ay, bx, by, px, py) == 0,
    ensures
        edge_accepts(ax, ay, bx, by, px, py) != edge_accepts(bx, by, ax, ay, px, py),
{
    lemma_edge_antisymmetric(ax, ay, bx, by, px, py);
}

/// No duplicate across a shared edge: a point is never claimed both by the
/// counterclockwise triangle `(a, b, c)` and by the counterclockwise
/// triangle `(b, a, d)` on the other side of the edge `a -> b`.
pub proof fn lemma_shared_edge_no_duplicate(
    ax: int, ay: int, bx: int, by: int, cx: int, cy: int, dx: int, dy: int, px: int, py: int,
)
    requires
        !(ax == bx && ay == by),
    ensures
        !(inside_ccw(ax, ay, bx, by, cx, cy, px, py)
            && inside_ccw(bx, by, ax, ay, dx, dy, px, py)),
{
    lemma_edge_antisymmetric(ax, ay, bx, by, px, py);
    if edge(ax, ay, bx, by, px, py) == 0 {
        lemma_shared_edge_exclusive(ax, ay, bx, by, px, py);
    }
}

/// No gap across a shared edge: a point that passes the four outer edges
/// of the two triangles flanking `a -> b` lies in at least one of them.
pub proof fn lemma_shared_edge_no_gap(
    ax: int, ay: int, bx: int, by: int, cx: int, cy: int, dx: int, dy: int, px: int, py: int,
)
    requires
        !(ax == bx && ay == by),
        edge_accepts(bx, by, cx, cy, px, py),
        edge_accepts(cx, cy, ax, ay, px, py),
        edge_accepts(ax, ay, dx, dy, px, py),
        edge_accepts(dx, dy, bx, by, px, py),
    ensures
        inside_ccw(ax, ay, bx, by, cx, cy, px, py)
            || inside_ccw(bx, by, ax, ay, dx, dy, px, py),
{
    lemma_edge_antisymmetric(ax, ay, bx, by, px, py);
    if edge(ax, ay, bx, by, px, py) == 0 {
        lemma_shared_edge_exclusive(ax, ay, bx, by, px, py);
    }
}

/// Swapping the last two vertices of a triangle negates its doubled area.
pub proof fn lemma_area_swap(ax: int, ay: int, bx: int, by: int, cx: int, cy: int)
    ensures
        edge(ax, ay, cx, cy, bx, by) == -edge(ax, ay, bx, by, cx, cy),
{
    assert((cx - ax) * (by - ay) - (cy - ay) * (bx - ax)
        == -((bx - ax) * (cy - ay) - (by - ay) * (cx - ax))) by (nonlinear_arith);
}

/// The second vertex of the triangle after counterclockwise orientation.
pub open spec fn orient1(v0: Vertex, v1: Vertex, v2: Vertex) -> Vertex {
    if tri_area2(v0.transformed_position, v1.transformed_position, v2.transformed_position) < 0 {
        v2
    } else {
        v1
    }
}

/// The third vertex of the triangle after counterclockwise orientation.
pub open spec fn orient2(v0: Vertex, v1: Vertex, v2: Vertex) -> Vertex {
    if tri_area2(v0.transformed_position, v1.transformed_position, v2.transformed_position) < 0 {
        v1
    } else {
        v2
    }
}

/// A barycentric weight: the share of one edge function in the doubled
/// area, in fixed point; zero when the area is not positive.
pub open spec fn weight(e: int, sum: int) -> int {
    if sum <= 0 {
        0
    } else {
        (e * FX_SCALE) / sum
    }
}

/// Fixed-point interpolation of one attribute by three weights.
pub open spec fn interp(w0: int, w1: int, w2: int, q0: int, q1: int, q2: int) -> int {
    fadd(fadd(fmul(w0, q0), fmul(w1, q1)), fmul(w2, q2))
}

/// The fragment a triangle produces at a pixel: barycentric weights from
/// the counterclockwise orientation interpolate depth, object-space
/// position and normal, and the lighting intensity is the dot product of
/// the normalized interpolated normal with the fixed light direction
/// `(0, 0, 1)`, clamped to `[AMBIENT_RAW, 1]`.
#[verifier::opaque]
pub open spec fn fragment_at(v0: Vertex, v1: Vertex, v2: Vertex, ix: int, iy: int) -> Fragment {
    let a = v0;
    let b = orient1(v0, v1, v2);
    let c = orient2(v0, v1, v2);
    let pa = a.transformed_position;
    let pb = b.transformed_position;
    let pc = c.transformed_position;
    let px = ix * FX_SCALE;
    let py = iy * FX_SCALE;
    let e0 = edge(pb.x as int, pb.y as int, pc.x as int, pc.y as int, px, py);
    let e1 = edge(pc.x as int, pc.y as int, pa.x as int, pa.y as int, px, py);
    let e2 = edge(pa.x as int, pa.y as int, pb.x as int, pb.y as int, px, py);
    let sum = e0 + e1 + e2;
    let w0 = weight(e0, sum);
    let w1 = weight(e1, sum);
    let w2 = weight(e2, sum);
    let nrm = V3 {
        x: interp(w0, w1, w2, a.transformed_normal.x as int, b.transformed_normal.x as int, c.transformed_normal.x as int) as i64,
        y: interp(w0, w1, w2, a.transformed_normal.y as int, b.transformed_normal.y as int, c.transformed_normal.y as int) as i64,
        z: interp(w0, w1, w2, a.transformed_normal.z as int, b.transformed_normal.z as int, c.transformed_normal.z as int) as i64,
    };
    let unit = normalize_spec(nrm);
    Fragment {
        x: ix as usize,
        y: iy as usize,
        depth: interp(w0, w1, w2, pa.z as int, pb.z as int, pc.z as int) as i64,
        vertex_pos: V3 {
            x: interp(w0, w1, w2, a.position.x as int, b.position.x as int, c.position.x as int) as i64,
            y: interp(w0, w1, w2, a.position.y as int, b.position.y as int, c.position.y as int) as i64,
            z: interp(w0, w1, w2, a.position.z as int, b.position.z as int, c.position.z as int) as i64,
        },
        normal: nrm,
        intensity: fclamp(
            dot3(unit.x as int, unit.y as int, unit.z as int, 0, 0, FX_ONE as int),
            AMBIENT_RAW as int,
            FX_ONE as int,
        ) as i64,
    }
}

/// Whether some fragment in a sequence sits at the given pixel.
pub open spec fn present(s: Seq<Fragment>, ix: int, iy: int) -> bool {
    exists|k: int| 0 <= k < s.len() && (#[trigger] s[k]).x == ix && s[k].y == iy
}

/// A screen coordinate small enough for exact edge arithmetic.
pub open spec fn coord_ok(v: V3) -> bool {
    &&& -FX_MAX <= v.x <= FX_MAX
    &&& -FX_MAX <= v.y <= FX_MAX
}

fn edge_i128(ax: i64, ay: i64, bx: i64, by: i64, px: i64, py: i64) -> (e: i128)
    requires
        -FX_MAX <= ax <= FX_MAX,
        -FX_MAX <= ay <= FX_MAX,
        -FX_MAX <= bx <= FX_MAX,
        -FX_MAX <= by <= FX_MAX,
        -FX_MAX <= px <= FX_MAX,
        -FX_MAX <= py <= FX_MAX,
    ensures
        e as int == edge(ax as int, ay as int, bx as int, by as int, px as int, py as int),
        -0x2000000000000000000000000 <= e <= 0x2000000000000000000000000,
{
    let d1: i128 = bx as i128 - ax as i128;
    let d2: i128 = py as i128 - ay as i128;
    let d3: i128 = by as i128 - ay as i128;
    let d4: i128 = px as i128 - ax as i128;
    proof {
        lemma_mul_abs_bound(d1 as int, d2 as int, 0x1000000000000, 0x1000000000000);
        lemma_mul_abs_bound(d3 as int, d4 as int, 0x1000000000000, 0x1000000000000);
    }
    d1 * d2 - d3 * d4
}

fn top_left_fx(ax: i64, ay: i64, bx: i64, by: i64) -> (r: bool)
    requires
        -FX_MAX <= ax <= FX_MAX,
        -FX_MAX <= ay <= FX_MAX,
        -FX_MAX <= bx <= FX_MAX,
        -FX_MAX <= by <= FX_MAX,
    ensures
        r == top_left(ax as int, ay as int, bx as int, by as int),
{
    by - ay < 0 || (by - ay == 0 && bx - ax < 0)
}

/// Rasterizes one triangle of transformed vertices inside a `width` by
/// `height` frame.
///
/// The result holds a fragment for an in-frame pixel exactly when the
/// triangle covers its sample point; no pixel appears twice; and every
/// fragment carries the attributes `fragment_at` assigns.
pub fn rasterize_triangle(v0: &Vertex, v1: &Vertex, v2: &Vertex, width: usize, height: usize) -> (r: Vec<Fragment>)
    requires
        width <= 0x40000000,
        height <= 0x40000000,
        coord_ok(v0.transformed_position),
        coord_ok(v1.transformed_position),
        coord_ok(v2.transformed_position),
    ensures
        forall|jx: int, jy: int| 0 <= jx < width && 0 <= jy < height ==> (
            #[trigger] present(r@, jx, jy)
                <==> pix_covers(
                    v0.transformed_position,
                    v1.transformed_position,
                    v2.transformed_position,
                    jx,
                    jy,
                )
        ),
        forall|k: int| 0 <= k < r@.len() ==> {
            let f = #[trigger] r@[k];
            &&& f.x < width
            &&& f.y < height
            &&& pix_covers(
                v0.transformed_position,
                v1.transformed_position,
                v2.transformed_position,
                f.x as int,
                f.y as int,
            )
            &&& f == fragment_at(*v0, *v1, *v2, f.x as int, f.y as int)
            &&& f.wf()
        },
        forall|k1: int, k2: int|
            #![trigger r@[k1], r@[k2]]
            0 <= k1 < k2 < r@.len() ==> !(r@[k1].x == r@[k2].x && r@[k1].y == r@[k2].y),
{
    let a = v0.transformed_position;
    let bpos = v1.transformed_position;
    let cpos = v2.transformed_position;
    let mut res: Vec<Fragment> = Vec::new();
    let ar = edge_i128(a.x, a.y, bpos.x, bpos.y, cpos.x, cpos.y);
    if ar == 0 {
        assert(forall|jx: int, jy: int| 0 <= jx < width && 0 <= jy < height ==>
            !present(res@, jx, jy) && !(#[trigger] pix_covers(a, bpos, cpos, jx, jy)));
        return res;
    }
    let vb = if ar > 0 { v1 } else { v2 };
    let vc = if ar > 0 { v2 } else { v1 };
    let b = vb.transformed_position;
    let c = vc.transformed_position;
    proof {
        lemma_area_swap(a.x as int, a.y as int, bpos.x as int, bpos.y as int, cpos.x as int, cpos.y as int);
    }
    assert(tri_area2(a, b, c) > 0);
    assert(vb == orient1(*v0, *v1, *v2) && vc == orient2(*v0, *v1, *v2));
    assert(forall|px: int, py: int| #[trigger] covers(a, bpos, cpos, px, py)
        == inside_ccw(a.x as int, a.y as int, b.x as int, b.y as int, c.x as int, c.y as int, px, py));

    let mut iy: usize = 0;
    while iy < height
        invariant
            iy <= height,
            width <= 0x40000000,
            height <= 0x40000000,
            coord_ok(a) && coord_ok(b) && coord_ok(c),
            a == v0.transformed_position,
            bpos == v1.transformed_position,
            cpos == v2.transformed_position,
            *vb == orient1(*v0, *v1, *v2),
            *vc == orient2(*v0, *v1, *v2),
            b == vb.transformed_position,
            c == vc.transformed_position,
            tri_area2(a, b, c) > 0,
            forall|px: int, py: int| #[trigger] covers(a, bpos, cpos, px, py)
                == inside_ccw(a.x as int, a.y as int, b.x as int, b.y as int, c.x as int, c.y as int, px, py),
            forall|jx: int, jy: int| 0 <= jx < width && 0 <= jy < height ==> (
                #[trigger] present(res@, jx, jy)
                    <==> pix_covers(a, bpos, cpos, jx, jy) && jy < iy
            ),
            forall|k: int| 0 <= k < res@.len() ==> {
                let f = #[trigger] res@[k];
                &&& f.x < width
                &&& f.y < height
                &&& pix_covers(a, bpos, cpos, f.x as int, f.y as int)
                &&& f == fragment_at(*v0, *v1, *v2, f.x as int, f.y as int)
                &&& f.wf()
            },
            forall|k1: int, k2: int|
                #![trigger res@[k1], res@[k2]]
                0 <= k1 < k2 < res@.len() ==> !(res@[k1].x == res@[k2].x && res@[k1].y == res@[k2].y),
        decreases height - iy,
    {
        let py: i64 = (iy as i64) * 65536;
        let mut ix: usize = 0;
        while ix < width
            invariant
                ix <= width,
                iy < height,
                width <= 0x40000000,
                height <= 0x40000000,
                py == (iy as i64) * FX_SCALE,
                coord_ok(a) && coord_ok(b) && coord_ok(c),
                a == v0.transformed_position,
                bpos == v1.transformed_position,
                cpos == v2.transformed_position,
                *vb == orient1(*v0, *v1, *v2),
                *vc == orient2(*v0, *v1, *v2),
                b == vb.transformed_position,
                c == vc.transformed_position,
                tri_area2(a, b, c) > 0,
                forall|px: int, pyy: int| #[trigger] covers(a, bpos, cpos, px, pyy)
                    == inside_ccw(a.x as int, a.y as int, b.x as int, b.y as int, c.x as int, c.y as int, px, pyy),
                forall|jx: int, jy: int| 0 <= jx < width && 0 <= jy < height ==> (
                    #[trigger] present(res@, jx, jy)
                        <==> pix_covers(a, bpos, cpos, jx, jy)
                            && (jy < iy || (jy == iy && jx < ix))
                ),
                forall|k: int| 0 <= k < res@.len() ==> {
                    let f = #[trigger] res@[k];
                    &&& f.x < width
                    &&& f.y < height
                    &&& pix_covers(a, bpos, cpos, f.x as int, f.y as int)
                    &&& f == fragment_at(*v0, *v1, *v2, f.x as int, f.y as int)
                    &&& f.wf()
                },
                forall|k1: int, k2: int|
                    #![trigger res@[k1], res@[k2]]
                    0 <= k1 < k2 < res@.len() ==> !(res@[k1].x == res@[k2].x && res@[k1].y == res@[k2].y),
            decreases width - ix,
        {
            let px: i64 = (ix as i64) * 65536;
            let e0 = edge_i128(b.x, b.y, c.x, c.y, px, py);
            let e1 = edge_i128(c.x, c.y, a.x, a.y, px, py);
            let e2 = edge_i128(a.x, a.y, b.x, b.y, px, py);
            let acc0 = e0 > 0 || (e0 == 0 && top_left_fx(b.x, b.y, c.x, c.y));
            let acc1 = e1 > 0 || (e1 == 0 && top_left_fx(c.x, c.y, a.x, a.y));
            let acc2 = e2 > 0 || (e2 == 0 && top_left_fx(a.x, a.y, b.x, b.y));
            let ghost old_res = res@;
            if acc1 && acc2 && acc0 {
                let sum: i128 = e0 + e1 + e2;
                let w0 = weight_of(e0, sum);
                let w1 = weight_of(e1, sum);
                let w2 = weight_of(e2, sum);
                let frag = build_fragment(v0, vb, vc, ix as i64, iy as i64, w0, w1, w2);
                proof {
                    assert(inside_ccw(a.x as int, a.y as int, b.x as int, b.y as int,
                        c.x as int, c.y as int, px as int, py as int));
                    assert(covers(a, bpos, cpos, px as int, py as int));
                    assert((ix as int) * FX_SCALE == px as int);
                    assert((iy as int) * FX_SCALE == py as int);
                    assert(pix_covers(a, bpos, cpos, ix as int, iy as int));
                    assert(frag == fragment_at(*v0, *v1, *v2, ix as int, iy as int)) by {
                        reveal(fragment_at);
                    }
                    assert(!present(old_res, ix as int, iy as int));
                }
                res.push(frag);
                proof {
                    assert(forall|k: int| 0 <= k < old_res.len() ==> res@[k] == old_res[k]);
                    assert(res@[res@.len() - 1] == frag);
                    assert forall|jx: int, jy: int| 0 <= jx < width && 0 <= jy < height implies (
                        #[trigger] present(res@, jx, jy)
                            <==> pix_covers(a, bpos, cpos, jx, jy)
                                && (jy < iy || (jy == iy && jx < ix + 1))
                    ) by {
                        if jx == ix && jy == iy {
                            assert(res@[res@.len() - 1].x == jx && res@[res@.len() - 1].y == jy);
                            assert(present(res@, jx, jy));
                        } else {
                            assert(present(res@, jx, jy) <==> present(old_res, jx, jy)) by {
                                if present(res@, jx, jy) {
                                    let k = choose|k: int| 0 <= k < res@.len()
                                        && (#[trigger] res@[k]).x == jx && res@[k].y == jy;
                                    assert(k < old_res.len());
                                    assert(present(old_res, jx, jy));
                                }
                            }
                        }
                    }
                    assert forall|k1: int, k2: int| 0 <= k1 < k2 < res@.len() implies
                        !((#[trigger] res@[k1]).x == (#[trigger] res@[k2]).x
                            && res@[k1].y == res@[k2].y) by {
                        if k2 == res@.len() - 1 {
                            if res@[k1].x == frag.x && res@[k1].y == frag.y {
                                assert(old_res[k1] == res@[k1]);
                                assert(present(old_res, ix as int, iy as int));
                            }
                        }
                    }
                }
            } else {
                proof {
                    assert(!inside_ccw(a.x as int, a.y as int, b.x as int, b.y as int,
                        c.x as int, c.y as int, px as int, py as int));
                    assert((ix as int) * FX_SCALE == px as int);
                    assert((iy as int) * FX_SCALE == py as int);
                    assert(!pix_covers(a, bpos, cpos, ix as int, iy as int));
                    assert forall|jx: int, jy: int| 0 <= jx < width && 0 <= jy < height implies (
                        #[trigger] present(res@, jx, jy)
                            <==> pix_covers(a, bpos, cpos, jx, jy)
                                && (jy < iy || (jy == iy && jx < ix + 1))
                    ) by {
                    }
                }
            }
            ix = ix + 1;
        }
        iy = iy + 1;
    }
    res
}

fn weight_of(e: i128, sum: i128) -> (w: i64)
    requires
        0 <= e <= sum,
        sum <= 0x10000000000000000000000000,
    ensures
        w as int == weight(e as int, sum as int),
        0 <= w <= FX_SCALE,
{
    if sum <= 0 {
        0
    } else {
        let num: u128 = (e as u128) * 65536;
        let q: u128 = num / (sum as u128);
        proof {
            let ei = e as int;
            let si = sum as int;
            assert(ei * 65536 <= si * 65536) by (nonlinear_arith)
                requires ei <= si;
            vstd::arithmetic::div_mod::lemma_div_is_ordered(ei * 65536, si * 65536, si);
            vstd::arithmetic::div_mod::lemma_div_multiples_vanish(65536, si);
            vstd::arithmetic::div_mod::lemma_div_pos_is_pos(ei * 65536, si);
            assert(si * 65536 == 65536 * si) by (nonlinear_arith);
        }
        q as i64
    }
}

fn build_fragment(va: &Vertex, vb: &Vertex, vc: &Vertex, ix: i64, iy: i64, w0: i64, w1: i64, w2: i64) -> (f: Fragment)
    requires
        0 <= ix <= 0x40000000,
        0 <= iy <= 0x40000000,
    ensures
        f.x == ix,
        f.y == iy,
        f.depth as int == interp(w0 as int, w1 as int, w2 as int,
            va.transformed_position.z as int, vb.transformed_position.z as int, vc.transformed_position.z as int),
        f.vertex_pos.x as int == interp(w0 as int, w1 as int, w2 as int,
            va.position.x as int, vb.position.x as int, vc.position.x as int),
        f.vertex_pos.y as int == interp(w0 as int, w1 as int, w2 as int,
            va.position.y as int, vb.position.y as int, vc.position.y as int),
        f.vertex_pos.z as int == interp(w0 as int, w1 as int, w2 as int,
            va.position.z as int, vb.position.z as int, vc.position.z as int),
        f.normal.x as int == interp(w0 as int, w1 as int, w2 as int,
            va.transformed_normal.x as int, vb.transformed_normal.x as int, vc.transformed_normal.x as int),
        f.normal.y as int == interp(w0 as int, w1 as int, w2 as int,
            va.transformed_normal.y as int, vb.transformed_normal.y as int, vc.transformed_normal.y as int),
        f.normal.z as int == interp(w0 as int, w1 as int, w2 as int,
            va.transformed_normal.z as int, vb.transformed_normal.z as int, vc.transformed_normal.z as int),
        f.intensity as int == fclamp(
            dot3(
                normalize_spec(f.normal).x as int,
                normalize_spec(f.normal).y as int,
                normalize_spec(f.normal).z as int,
                0, 0, FX_ONE as int,
            ),
            AMBIENT_RAW as int,
            FX_ONE as int,
        ),
        f.wf(),
{
    let depth = interp3(w0, w1, w2, va.transformed_position.z, vb.transformed_position.z, vc.transformed_position.z);
    let vertex_pos = V3 {
        x: interp3(w0, w1, w2, va.position.x, vb.position.x, vc.position.x),
        y: interp3(w0, w1, w2, va.position.y, vb.position.y, vc.position.y),
        z: interp3(w0, w1, w2, va.position.z, vb.position.z, vc.position.z),
    };
    let normal = V3 {
        x: interp3(w0, w1, w2, va.transformed_normal.x, vb.transformed_normal.x, vc.transformed_normal.x),
        y: interp3(w0, w1, w2, va.transformed_normal.y, vb.transformed_normal.y, vc.transformed_normal.y),
        z: interp3(w0, w1, w2, va.transformed_normal.z, vb.transformed_normal.z, vc.transformed_normal.z),
    };
    let unit = v3_normalize(normal);
    let light = V3 { x: 0, y: 0, z: FX_ONE };
    let intensity = fx_clamp(v3_dot(unit, light), AMBIENT_RAW, FX_ONE);
    Fragment {
        x: ix as usize,
        y: iy as usize,
        depth,
        vertex_pos,
        normal,
        intensity,
    }
}

fn interp3(w0: i64, w1: i64, w2: i64, q0: i64, q1: i64, q2: i64) -> (r: i64)
    ensures
        r as int == interp(w0 as int, w1 as int, w2 as int, q0 as int, q1 as int, q2 as int),
{
    fx_add(fx_add(fx_mul(w0, q0), fx_mul(w1, q1)), fx_mul(w2, q2))
}

} // verus!
