//! Fixed-point vectors and matrices for the transform stages.
//!
//! All component arithmetic goes through [`crate::fx`], so every operation
//! here is total and its result is pinned exactly by the raw-integer spec
//! functions `fadd`/`fsub`/`fmul`/`fdiv`.

use vstd::prelude::*;
use crate::fx::{Fx, FX_ONE, fadd, fsub, fmul, fneg, fdiv, fx_add, fx_sub, fx_mul, fx_neg, fx_div};

verus! {

/// A 2-component fixed-point vector.
#[derive(Clone, Copy, PartialEq, Eq, Structural, Debug)]
pub struct V2 {
    pub x: Fx,
    pub y: Fx,
}

/// A 3-component fixed-point vector.
#[derive(Clone, Copy, PartialEq, Eq, Structural, Debug)]
pub struct V3 {
    pub x: Fx,
    pub y: Fx,
    pub z: Fx,
}

/// A 4-component fixed-point vector.
#[derive(Clone, Copy, PartialEq, Eq, Structural, Debug)]
pub struct V4 {
    pub x: Fx,
    pub y: Fx,
    pub z: Fx,
    pub w: Fx,
}

/// A 3x3 fixed-point matrix, stored by rows.
#[derive(Clone, Copy, PartialEq, Eq, Structural, Debug)]
pub struct M3 {
    pub r0: V3,
    pub r1: V3,
    pub r2: V3,
}

/// A 4x4 fixed-point matrix, stored by rows.
#[derive(Clone, Copy, PartialEq, Eq, Structural, Debug)]
pub struct M4 {
    pub r0: V4,
    pub r1: V4,
    pub r2: V4,
    pub r3: V4,
}

/// Raw dot product of two rows of three scalars.
pub open spec fn dot3(ax: int, ay: int, az: int, bx: int, by: int, bz: int) -> int {
    fadd(fadd(fmul(ax, bx), fmul(ay, by)), fmul(az, bz))
}

/// Raw dot product of two rows of four scalars.
pub open spec fn dot4(
    ax: int, ay: int, az: int, aw: int,
    bx: int, by: int, bz: int, bw: int,
) -> int {
    fadd(fadd(fadd(fmul(ax, bx), fmul(ay, by)), fmul(az, bz)), fmul(aw, bw))
}

/// Component-wise vector sum.
pub fn v3_add(a: V3, b: V3) -> (r: V3)
    ensures
        r == v3_add_spec(a, b),
        r.x as int == fadd(a.x as int, b.x as int),
        r.y as int == fadd(a.y as int, b.y as int),
        r.z as int == fadd(a.z as int, b.z as int),
{
    V3 { x: fx_add(a.x, b.x), y: fx_add(a.y, b.y), z: fx_add(a.z, b.z) }
}

/// Component-wise vector difference.
pub fn v3_sub(a: V3, b: V3) -> (r: V3)
    ensures
        r == v3_sub_spec(a, b),
        r.x as int == fsub(a.x as int, b.x as int),
        r.y as int == fsub(a.y as int, b.y as int),
        r.z as int == fsub(a.z as int, b.z as int),
{
    V3 { x: fx_sub(a.x, b.x), y: fx_sub(a.y, b.y), z: fx_sub(a.z, b.z) }
}

/// Component-wise negation.
pub fn v3_neg(a: V3) -> (r: V3)
    ensures
        r == v3_neg_spec(a),
        r.x as int == fneg(a.x as int),
        r.y as int == fneg(a.y as int),
        r.z as int == fneg(a.z as int),
{
    V3 { x: fx_neg(a.x), y: fx_neg(a.y), z: fx_neg(a.z) }
}

/// Scales each component by a scalar.
pub fn v3_scale(a: V3, s: Fx) -> (r: V3)
    ensures
        r == v3_scale_spec(a, s as int),
        r.x as int == fmul(a.x as int, s as int),
        r.y as int == fmul(a.y as int, s as int),
        r.z as int == fmul(a.z as int, s as int),
{
    V3 { x: fx_mul(a.x, s), y: fx_mul(a.y, s), z: fx_mul(a.z, s) }
}

/// Fixed-point dot product.
pub fn v3_dot(a: V3, b: V3) -> (r: Fx)
    ensures
        r as int == v3_dot_spec(a, b),
{
    fx_add(fx_add(fx_mul(a.x, b.x), fx_mul(a.y, b.y)), fx_mul(a.z, b.z))
}

/// Raw components of a cross product.
pub open spec fn cross_x(ax: int, ay: int, az: int, bx: int, by: int, bz: int) -> int {
    fsub(fmul(ay, bz), fmul(az, by))
}

/// Raw y component of a cross product.
pub open spec fn cross_y(ax: int, ay: int, az: int, bx: int, by: int, bz: int) -> int {
    fsub(fmul(az, bx), fmul(ax, bz))
}

/// Raw z component of a cross product.
pub open spec fn cross_z(ax: int, ay: int, az: int, bx: int, by: int, bz: int) -> int {
    fsub(fmul(ax, by), fmul(ay, bx))
}

/// Fixed-point cross product.
pub fn v3_cross(a: V3, b: V3) -> (r: V3)
    ensures
        r == v3_cross_spec(a, b),
        r.x as int == cross_x(a.x as int, a.y as int, a.z as int, b.x as int, b.y as int, b.z as int),
        r.y as int == cross_y(a.x as int, a.y as int, a.z as int, b.x as int, b.y as int, b.z as int),
        r.z as int == cross_z(a.x as int, a.y as int, a.z as int, b.x as int, b.y as int, b.z as int),
{
    V3 {
        x: fx_sub(fx_mul(a.y, b.z), fx_mul(a.z, b.y)),
        y: fx_sub(fx_mul(a.z, b.x), fx_mul(a.x, b.z)),
        z: fx_sub(fx_mul(a.x, b.y), fx_mul(a.y, b.x)),
    }
}

/// The image of a 4-vector under a 4x4 matrix, as a value.
pub open spec fn m4_mul_v4_spec(m: M4, v: V4) -> V4 {
    V4 {
        x: dot4(m.r0.x as int, m.r0.y as int, m.r0.z as int, m.r0.w as int,
                v.x as int, v.y as int, v.z as int, v.w as int) as i64,
        y: dot4(m.r1.x as int, m.r1.y as int, m.r1.z as int, m.r1.w as int,
                v.x as int, v.y as int, v.z as int, v.w as int) as i64,
        z: dot4(m.r2.x as int, m.r2.y as int, m.r2.z as int, m.r2.w as int,
                v.x as int, v.y as int, v.z as int, v.w as int) as i64,
        w: dot4(m.r3.x as int, m.r3.y as int, m.r3.z as int, m.r3.w as int,
                v.x as int, v.y as int, v.z as int, v.w as int) as i64,
    }
}

/// Applies a 4x4 matrix to a 4-vector: each result component is the dot
/// product of the matching row with the vector.
pub fn m4_mul_v4(m: &M4, v: V4) -> (r: V4)
    ensures
        r == m4_mul_v4_spec(*m, v),
        r.x as int == dot4(m.r0.x as int, m.r0.y as int, m.r0.z as int, m.r0.w as int,
                           v.x as int, v.y as int, v.z as int, v.w as int),
        r.y as int == dot4(m.r1.x as int, m.r1.y as int, m.r1.z as int, m.r1.w as int,
                           v.x as int, v.y as int, v.z as int, v.w as int),
        r.z as int == dot4(m.r2.x as int, m.r2.y as int, m.r2.z as int, m.r2.w as int,
                           v.x as int, v.y as int, v.z as int, v.w as int),
        r.w as int == dot4(m.r3.x as int, m.r3.y as int, m.r3.z as int, m.r3.w as int,
                           v.x as int, v.y as int, v.z as int, v.w as int),
{
    V4 {
        x: row4_dot(m.r0, v),
        y: row4_dot(m.r1, v),
        z: row4_dot(m.r2, v),
        w: row4_dot(m.r3, v),
    }
}

fn row4_dot(a: V4, b: V4) -> (r: Fx)
    ensures
        r as int == dot4(a.x as int, a.y as int, a.z as int, a.w as int,
                         b.x as int, b.y as int, b.z as int, b.w as int),
{
    fx_add(fx_add(fx_add(fx_mul(a.x, b.x), fx_mul(a.y, b.y)), fx_mul(a.z, b.z)), fx_mul(a.w, b.w))
}

/// One column of a 4x4 matrix as a 4-vector.
fn m4_col(m: &M4, j: usize) -> (r: V4)
    requires
        j < 4,
    ensures
        j == 0 ==> r == (V4 { x: m.r0.x, y: m.r1.x, z: m.r2.x, w: m.r3.x }),
        j == 1 ==> r == (V4 { x: m.r0.y, y: m.r1.y, z: m.r2.y, w: m.r3.y }),
        j == 2 ==> r == (V4 { x: m.r0.z, y: m.r1.z, z: m.r2.z, w: m.r3.z }),
        j == 3 ==> r == (V4 { x: m.r0.w, y: m.r1.w, z: m.r2.w, w: m.r3.w }),
{
    if j == 0 {
        V4 { x: m.r0.x, y: m.r1.x, z: m.r2.x, w: m.r3.x }
    } else if j == 1 {
        V4 { x: m.r0.y, y: m.r1.y, z: m.r2.y, w: m.r3.y }
    } else if j == 2 {
        V4 { x: m.r0.z, y: m.r1.z, z: m.r2.z, w: m.r3.z }
    } else {
        V4 { x: m.r0.w, y: m.r1.w, z: m.r2.w, w: m.r3.w }
    }
}

/// Raw entry of a matrix product: row of `a` against column of `b`.
pub open spec fn m4_entry(a: M4, b: M4, i: int, j: int) -> int {
    let r = if i == 0 { a.r0 } else if i == 1 { a.r1 } else if i == 2 { a.r2 } else { a.r3 };
    let cx = if j == 0 { b.r0.x } else if j == 1 { b.r0.y } else if j == 2 { b.r0.z } else { b.r0.w };
    let cy = if j == 0 { b.r1.x } else if j == 1 { b.r1.y } else if j == 2 { b.r1.z } else { b.r1.w };
    let cz = if j == 0 { b.r2.x } else if j == 1 { b.r2.y } else if j == 2 { b.r2.z } else { b.r2.w };
    let cw = if j == 0 { b.r3.x } else if j == 1 { b.r3.y } else if j == 2 { b.r3.z } else { b.r3.w };
    dot4(r.x as int, r.y as int, r.z as int, r.w as int,
         cx as int, cy as int, cz as int, cw as int)
}

/// The fixed-point matrix product as a value.
pub open spec fn m4_mul_spec(a: M4, b: M4) -> M4 {
    M4 {
        r0: V4 {
            x: m4_entry(a, b, 0, 0) as i64,
            y: m4_entry(a, b, 0, 1) as i64,
            z: m4_entry(a, b, 0, 2) as i64,
            w: m4_entry(a, b, 0, 3) as i64,
        },
        r1: V4 {
            x: m4_entry(a, b, 1, 0) as i64,
            y: m4_entry(a, b, 1, 1) as i64,
            z: m4_entry(a, b, 1, 2) as i64,
            w: m4_entry(a, b, 1, 3) as i64,
        },
        r2: V4 {
            x: m4_entry(a, b, 2, 0) as i64,
            y: m4_entry(a, b, 2, 1) as i64,
            z: m4_entry(a, b, 2, 2) as i64,
            w: m4_entry(a, b, 2, 3) as i64,
        },
        r3: V4 {
            x: m4_entry(a, b, 3, 0) as i64,
            y: m4_entry(a, b, 3, 1) as i64,
            z: m4_entry(a, b, 3, 2) as i64,
            w: m4_entry(a, b, 3, 3) as i64,
        },
    }
}

/// Fixed-point matrix product.
pub fn m4_mul(a: &M4, b: &M4) -> (r: M4)
    ensures
        r == m4_mul_spec(*a, *b),
{
    let c0 = m4_col(b, 0);
    let c1 = m4_col(b, 1);
    let c2 = m4_col(b, 2);
    let c3 = m4_col(b, 3);
    let r = M4 {
        r0: V4 { x: row4_dot(a.r0, c0), y: row4_dot(a.r0, c1), z: row4_dot(a.r0, c2), w: row4_dot(a.r0, c3) },
        r1: V4 { x: row4_dot(a.r1, c0), y: row4_dot(a.r1, c1), z: row4_dot(a.r1, c2), w: row4_dot(a.r1, c3) },
        r2: V4 { x: row4_dot(a.r2, c0), y: row4_dot(a.r2, c1), z: row4_dot(a.r2, c2), w: row4_dot(a.r2, c3) },
        r3: V4 { x: row4_dot(a.r3, c0), y: row4_dot(a.r3, c1), z: row4_dot(a.r3, c2), w: row4_dot(a.r3, c3) },
    };
    r
}

/// Raw entry `(i, j)` of a matrix.
pub open spec fn m4_at(m: M4, i: int, j: int) -> int {
    let r = if i == 0 { m.r0 } else if i == 1 { m.r1 } else if i == 2 { m.r2 } else { m.r3 };
    if j == 0 { r.x as int } else if j == 1 { r.y as int } else if j == 2 { r.z as int } else { r.w as int }
}

/// The 4x4 identity matrix.
pub fn m4_identity() -> (r: M4)
    ensures
        r == m4_identity_spec(),
{
    M4 {
        r0: V4 { x: FX_ONE, y: 0, z: 0, w: 0 },
        r1: V4 { x: 0, y: FX_ONE, z: 0, w: 0 },
        r2: V4 { x: 0, y: 0, z: FX_ONE, w: 0 },
        r3: V4 { x: 0, y: 0, z: 0, w: FX_ONE },
    }
}

/// The identity matrix value.
pub open spec fn m4_identity_spec() -> M4 {
    M4 {
        r0: V4 { x: FX_ONE, y: 0, z: 0, w: 0 },
        r1: V4 { x: 0, y: FX_ONE, z: 0, w: 0 },
        r2: V4 { x: 0, y: 0, z: FX_ONE, w: 0 },
        r3: V4 { x: 0, y: 0, z: 0, w: FX_ONE },
    }
}

/// The 3x3 identity matrix value.
pub open spec fn m3_identity_spec() -> M3 {
    M3 {
        r0: V3 { x: FX_ONE, y: 0, z: 0 },
        r1: V3 { x: 0, y: FX_ONE, z: 0 },
        r2: V3 { x: 0, y: 0, z: FX_ONE },
    }
}

/// The image of a 3-vector under a 3x3 matrix, as a value.
pub open spec fn m3_mul_v3_spec(m: M3, v: V3) -> V3 {
    V3 {
        x: dot3(m.r0.x as int, m.r0.y as int, m.r0.z as int, v.x as int, v.y as int, v.z as int) as i64,
        y: dot3(m.r1.x as int, m.r1.y as int, m.r1.z as int, v.x as int, v.y as int, v.z as int) as i64,
        z: dot3(m.r2.x as int, m.r2.y as int, m.r2.z as int, v.x as int, v.y as int, v.z as int) as i64,
    }
}

/// Applies a 3x3 matrix to a 3-vector.
pub fn m3_mul_v3(m: &M3, v: V3) -> (r: V3)
    ensures
        r == m3_mul_v3_spec(*m, v),
        r.x as int == dot3(m.r0.x as int, m.r0.y as int, m.r0.z as int, v.x as int, v.y as int, v.z as int),
        r.y as int == dot3(m.r1.x as int, m.r1.y as int, m.r1.z as int, v.x as int, v.y as int, v.z as int),
        r.z as int == dot3(m.r2.x as int, m.r2.y as int, m.r2.z as int, v.x as int, v.y as int, v.z as int),
{
    V3 {
        x: fx_add(fx_add(fx_mul(m.r0.x, v.x), fx_mul(m.r0.y, v.y)), fx_mul(m.r0.z, v.z)),
        y: fx_add(fx_add(fx_mul(m.r1.x, v.x), fx_mul(m.r1.y, v.y)), fx_mul(m.r1.z, v.z)),
        z: fx_add(fx_add(fx_mul(m.r2.x, v.x), fx_mul(m.r2.y, v.y)), fx_mul(m.r2.z, v.z)),
    }
}

/// The upper-left 3x3 block, as a value.
pub open spec fn m4_to_m3_spec(m: M4) -> M3 {
    M3 {
        r0: V3 { x: m.r0.x, y: m.r0.y, z: m.r0.z },
        r1: V3 { x: m.r1.x, y: m.r1.y, z: m.r1.z },
        r2: V3 { x: m.r2.x, y: m.r2.y, z: m.r2.z },
    }
}

/// The upper-left 3x3 block of a 4x4 matrix.
pub fn m4_to_m3(m: &M4) -> (r: M3)
    ensures
        r == m4_to_m3_spec(*m),
        r.r0 == (V3 { x: m.r0.x, y: m.r0.y, z: m.r0.z }),
        r.r1 == (V3 { x: m.r1.x, y: m.r1.y, z: m.r1.z }),
        r.r2 == (V3 { x: m.r2.x, y: m.r2.y, z: m.r2.z }),
{
    M3 {
        r0: V3 { x: m.r0.x, y: m.r0.y, z: m.r0.z },
        r1: V3 { x: m.r1.x, y: m.r1.y, z: m.r1.z },
        r2: V3 { x: m.r2.x, y: m.r2.y, z: m.r2.z },
    }
}

/// The transpose, as a value.
pub open spec fn m3_transpose_spec(m: M3) -> M3 {
    M3 {
        r0: V3 { x: m.r0.x, y: m.r1.x, z: m.r2.x },
        r1: V3 { x: m.r0.y, y: m.r1.y, z: m.r2.y },
        r2: V3 { x: m.r0.z, y: m.r1.z, z: m.r2.z },
    }
}

/// Transpose of a 3x3 matrix.
pub fn m3_transpose(m: &M3) -> (r: M3)
    ensures
        r == m3_transpose_spec(*m),
        r.r0 == (V3 { x: m.r0.x, y: m.r1.x, z: m.r2.x }),
        r.r1 == (V3 { x: m.r0.y, y: m.r1.y, z: m.r2.y }),
        r.r2 == (V3 { x: m.r0.z, y: m.r1.z, z: m.r2.z }),
{
    M3 {
        r0: V3 { x: m.r0.x, y: m.r1.x, z: m.r2.x },
        r1: V3 { x: m.r0.y, y: m.r1.y, z: m.r2.y },
        r2: V3 { x: m.r0.z, y: m.r1.z, z: m.r2.z },
    }
}

/// Raw determinant of a 3x3 matrix, expanded along the first row.
pub open spec fn m3_det_spec(m: M3) -> int {
    fadd(
        fsub(
            fmul(m.r0.x as int, fsub(fmul(m.r1.y as int, m.r2.z as int), fmul(m.r1.z as int, m.r2.y as int))),
            fmul(m.r0.y as int, fsub(fmul(m.r1.x as int, m.r2.z as int), fmul(m.r1.z as int, m.r2.x as int))),
        ),
        fmul(m.r0.z as int, fsub(fmul(m.r1.x as int, m.r2.y as int), fmul(m.r1.y as int, m.r2.x as int))),
    )
}

/// Fixed-point determinant of a 3x3 matrix.
pub fn m3_det(m: &M3) -> (r: Fx)
    ensures
        r as int == m3_det_spec(*m),
{
    fx_add(
        fx_sub(
            fx_mul(m.r0.x, fx_sub(fx_mul(m.r1.y, m.r2.z), fx_mul(m.r1.z, m.r2.y))),
            fx_mul(m.r0.y, fx_sub(fx_mul(m.r1.x, m.r2.z), fx_mul(m.r1.z, m.r2.x))),
        ),
        fx_mul(m.r0.z, fx_sub(fx_mul(m.r1.x, m.r2.y), fx_mul(m.r1.y, m.r2.x))),
    )
}

/// The adjugate-over-determinant inverse of a 3x3 matrix, as a value; only
/// meaningful when the determinant is nonzero.
pub open spec fn m3_inverse_spec(m: M3) -> M3 {
    let d = m3_det_spec(m);
    M3 {
        r0: V3 {
            x: fdiv(fsub(fmul(m.r1.y as int, m.r2.z as int), fmul(m.r1.z as int, m.r2.y as int)), d) as i64,
            y: fdiv(fsub(fmul(m.r0.z as int, m.r2.y as int), fmul(m.r0.y as int, m.r2.z as int)), d) as i64,
            z: fdiv(fsub(fmul(m.r0.y as int, m.r1.z as int), fmul(m.r0.z as int, m.r1.y as int)), d) as i64,
        },
        r1: V3 {
            x: fdiv(fsub(fmul(m.r1.z as int, m.r2.x as int), fmul(m.r1.x as int, m.r2.z as int)), d) as i64,
            y: fdiv(fsub(fmul(m.r0.x as int, m.r2.z as int), fmul(m.r0.z as int, m.r2.x as int)), d) as i64,
            z: fdiv(fsub(fmul(m.r0.z as int, m.r1.x as int), fmul(m.r0.x as int, m.r1.z as int)), d) as i64,
        },
        r2: V3 {
            x: fdiv(fsub(fmul(m.r1.x as int, m.r2.y as int), fmul(m.r1.y as int, m.r2.x as int)), d) as i64,
            y: fdiv(fsub(fmul(m.r0.y as int, m.r2.x as int), fmul(m.r0.x as int, m.r2.y as int)), d) as i64,
            z: fdiv(fsub(fmul(m.r0.x as int, m.r1.y as int), fmul(m.r0.y as int, m.r1.x as int)), d) as i64,
        },
    }
}

/// Inverse of a 3x3 matrix through its adjugate, or `None` when the
/// fixed-point determinant vanishes.
pub fn m3_try_inverse(m: &M3) -> (r: Option<M3>)
    ensures
        m3_det_spec(*m) == 0 ==> r is None,
        m3_det_spec(*m) != 0 ==> r == Some(m3_inverse_spec(*m)),
{
    let d = m3_det(m);
    if d == 0 {
        None
    } else {
        Some(M3 {
            r0: V3 {
                x: fx_div(fx_sub(fx_mul(m.r1.y, m.r2.z), fx_mul(m.r1.z, m.r2.y)), d),
                y: fx_div(fx_sub(fx_mul(m.r0.z, m.r2.y), fx_mul(m.r0.y, m.r2.z)), d),
                z: fx_div(fx_sub(fx_mul(m.r0.y, m.r1.z), fx_mul(m.r0.z, m.r1.y)), d),
            },
            r1: V3 {
                x: fx_div(fx_sub(fx_mul(m.r1.z, m.r2.x), fx_mul(m.r1.x, m.r2.z)), d),
                y: fx_div(fx_sub(fx_mul(m.r0.x, m.r2.z), fx_mul(m.r0.z, m.r2.x)), d),
                z: fx_div(fx_sub(fx_mul(m.r0.z, m.r1.x), fx_mul(m.r0.x, m.r1.z)), d),
            },
            r2: V3 {
                x: fx_div(fx_sub(fx_mul(m.r1.x, m.r2.y), fx_mul(m.r1.y, m.r2.x)), d),
                y: fx_div(fx_sub(fx_mul(m.r0.y, m.r2.x), fx_mul(m.r0.x, m.r2.y)), d),
                z: fx_div(fx_sub(fx_mul(m.r0.x, m.r1.y), fx_mul(m.r0.y, m.r1.x)), d),
            },
        })
    }
}

/// The squared length of a vector, in raw units.
pub open spec fn norm_sq_spec(v: V3) -> int {
    dot3(v.x as int, v.y as int, v.z as int, v.x as int, v.y as int, v.z as int)
}

/// The fixed-point length of a vector.
pub open spec fn norm_spec(v: V3) -> int {
    crate::trig::fsqrt(norm_sq_spec(v))
}

/// The unit vector along `v`; the zero vector when the fixed-point length
/// vanishes (division by zero yields zero components).
pub open spec fn normalize_spec(v: V3) -> V3 {
    let n = norm_spec(v);
    V3 {
        x: fdiv(v.x as int, n) as i64,
        y: fdiv(v.y as int, n) as i64,
        z: fdiv(v.z as int, n) as i64,
    }
}

/// Fixed-point vector length.
pub fn v3_norm(v: V3) -> (r: Fx)
    ensures
        r as int == norm_spec(v),
        r >= 0,
{
    crate::trig::fx_sqrt(v3_dot(v, v))
}

/// Normalizes a vector; a vector of vanishing length comes back as zero.
pub fn v3_normalize(v: V3) -> (r: V3)
    ensures
        r == normalize_spec(v),
{
    let n = v3_norm(v);
    V3 { x: fx_div(v.x, n), y: fx_div(v.y, n), z: fx_div(v.z, n) }
}

/// The cross product as a value.
pub open spec fn v3_cross_spec(a: V3, b: V3) -> V3 {
    V3 {
        x: cross_x(a.x as int, a.y as int, a.z as int, b.x as int, b.y as int, b.z as int) as i64,
        y: cross_y(a.x as int, a.y as int, a.z as int, b.x as int, b.y as int, b.z as int) as i64,
        z: cross_z(a.x as int, a.y as int, a.z as int, b.x as int, b.y as int, b.z as int) as i64,
    }
}

/// The component-wise sum as a value.
pub open spec fn v3_add_spec(a: V3, b: V3) -> V3 {
    V3 {
        x: fadd(a.x as int, b.x as int) as i64,
        y: fadd(a.y as int, b.y as int) as i64,
        z: fadd(a.z as int, b.z as int) as i64,
    }
}

/// The component-wise difference as a value.
pub open spec fn v3_sub_spec(a: V3, b: V3) -> V3 {
    V3 {
        x: fsub(a.x as int, b.x as int) as i64,
        y: fsub(a.y as int, b.y as int) as i64,
        z: fsub(a.z as int, b.z as int) as i64,
    }
}

/// The component-wise negation as a value.
pub open spec fn v3_neg_spec(a: V3) -> V3 {
    V3 {
        x: fneg(a.x as int) as i64,
        y: fneg(a.y as int) as i64,
        z: fneg(a.z as int) as i64,
    }
}

/// The scalar multiple as a value.
pub open spec fn v3_scale_spec(a: V3, s: int) -> V3 {
    V3 {
        x: fmul(a.x as int, s) as i64,
        y: fmul(a.y as int, s) as i64,
        z: fmul(a.z as int, s) as i64,
    }
}

/// The fixed-point dot product as a value.
pub open spec fn v3_dot_spec(a: V3, b: V3) -> int {
    dot3(a.x as int, a.y as int, a.z as int, b.x as int, b.y as int, b.z as int)
}

} // verus!
