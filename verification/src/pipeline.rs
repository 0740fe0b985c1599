//! The per-draw-call transform context and its matrix constructors.

use vstd::prelude::*;
use crate::fx::{
    Fx, FX_HALF, FX_ONE, fadd, fdiv, fmul, fneg, fsub,
    fx_add, fx_div, fx_mul, fx_neg, fx_sub,
};
use crate::geom::{
    M4, V3, V4, m4_entry, m4_mul, m4_mul_spec, normalize_spec, v3_cross_spec, v3_cross,
    v3_dot, v3_dot_spec, v3_normalize, v3_sub, v3_sub_spec,
};
use crate::trig::{fcos, fsin, fx_cos, fx_sin};

verus! {

/// Raw cotangent of half the vertical field of view (45 degrees).
pub const COT_HALF_FOV_RAW: i64 = 158218;
/// Near plane distance, 0.1, in raw units.
pub const NEAR_RAW: i64 = 6554;
/// Far plane distance, 1000, in raw units.
pub const FAR_RAW: i64 = 65536000;

/// The immutable per-draw-call bundle: the four transform matrices, the
/// frame counter, and the debug-mode selector. Built fresh once per frame,
/// with derived copies for sub-passes.
#[derive(Clone, Copy, PartialEq, Eq, Structural, Debug)]
pub struct Uniforms {
    /// Object-to-world transform.
    pub model_matrix: M4,
    /// World-to-eye transform.
    pub view_matrix: M4,
    /// Eye-to-clip perspective transform.
    pub projection_matrix: M4,
    /// Device-to-pixel transform, flipping the y axis.
    pub viewport_matrix: M4,
    /// Frame counter driving the animated shaders.
    pub time: u32,
    /// 0 is the full shader; 1 to 3 isolate an intermediate signal.
    pub debug_mode: u32,
}

/// The model matrix value: rotations about x, then y, then z (composed as
/// z·y·x), then the uniform scale and translation.
pub open spec fn model_matrix_spec(translation: V3, scale: int, rotation: V3) -> M4 {
    let sx = fsin(rotation.x as int);
    let cx = fcos(rotation.x as int);
    let sy = fsin(rotation.y as int);
    let cy = fcos(rotation.y as int);
    let sz = fsin(rotation.z as int);
    let cz = fcos(rotation.z as int);
    let rot_x = M4 {
        r0: V4 { x: FX_ONE, y: 0, z: 0, w: 0 },
        r1: V4 { x: 0, y: cx as i64, z: fneg(sx) as i64, w: 0 },
        r2: V4 { x: 0, y: sx as i64, z: cx as i64, w: 0 },
        r3: V4 { x: 0, y: 0, z: 0, w: FX_ONE },
    };
    let rot_y = M4 {
        r0: V4 { x: cy as i64, y: 0, z: sy as i64, w: 0 },
        r1: V4 { x: 0, y: FX_ONE, z: 0, w: 0 },
        r2: V4 { x: fneg(sy) as i64, y: 0, z: cy as i64, w: 0 },
        r3: V4 { x: 0, y: 0, z: 0, w: FX_ONE },
    };
    let rot_z = M4 {
        r0: V4 { x: cz as i64, y: fneg(sz) as i64, z: 0, w: 0 },
        r1: V4 { x: sz as i64, y: cz as i64, z: 0, w: 0 },
        r2: V4 { x: 0, y: 0, z: FX_ONE, w: 0 },
        r3: V4 { x: 0, y: 0, z: 0, w: FX_ONE },
    };
    let rotation_matrix = m4_mul_spec(m4_mul_spec(rot_z, rot_y), rot_x);
    let transform = M4 {
        r0: V4 { x: scale as i64, y: 0, z: 0, w: translation.x },
        r1: V4 { x: 0, y: scale as i64, z: 0, w: translation.y },
        r2: V4 { x: 0, y: 0, z: scale as i64, w: translation.z },
        r3: V4 { x: 0, y: 0, z: 0, w: FX_ONE },
    };
    m4_mul_spec(transform, rotation_matrix)
}

/// Builds the model matrix from a translation, a uniform scale, and Euler
/// rotation angles applied x, then y, then z.
pub fn create_model_matrix(translation: V3, scale: Fx, rotation: V3) -> (m: M4)
    ensures
        m == model_matrix_spec(translation, scale as int, rotation),
{
    let sin_x = fx_sin(rotation.x);
    let cos_x = fx_cos(rotation.x);
    let sin_y = fx_sin(rotation.y);
    let cos_y = fx_cos(rotation.y);
    let sin_z = fx_sin(rotation.z);
    let cos_z = fx_cos(rotation.z);

    let rotation_matrix_x = M4 {
        r0: V4 { x: FX_ONE, y: 0, z: 0, w: 0 },
        r1: V4 { x: 0, y: cos_x, z: fx_neg(sin_x), w: 0 },
        r2: V4 { x: 0, y: sin_x, z: cos_x, w: 0 },
        r3: V4 { x: 0, y: 0, z: 0, w: FX_ONE },
    };
    let rotation_matrix_y = M4 {
        r0: V4 { x: cos_y, y: 0, z: sin_y, w: 0 },
        r1: V4 { x: 0, y: FX_ONE, z: 0, w: 0 },
        r2: V4 { x: fx_neg(sin_y), y: 0, z: cos_y, w: 0 },
        r3: V4 { x: 0, y: 0, z: 0, w: FX_ONE },
    };
    let rotation_matrix_z = M4 {
        r0: V4 { x: cos_z, y: fx_neg(sin_z), z: 0, w: 0 },
        r1: V4 { x: sin_z, y: cos_z, z: 0, w: 0 },
        r2: V4 { x: 0, y: 0, z: FX_ONE, w: 0 },
        r3: V4 { x: 0, y: 0, z: 0, w: FX_ONE },
    };

    let rotation_matrix = m4_mul(&m4_mul(&rotation_matrix_z, &rotation_matrix_y), &rotation_matrix_x);

    let transform_matrix = M4 {
        r0: V4 { x: scale, y: 0, z: 0, w: translation.x },
        r1: V4 { x: 0, y: scale, z: 0, w: translation.y },
        r2: V4 { x: 0, y: 0, z: scale, w: translation.z },
        r3: V4 { x: 0, y: 0, z: 0, w: FX_ONE },
    };

    m4_mul(&transform_matrix, &rotation_matrix)
}

/// The look-at view matrix value: orthonormal-ish basis from the forward
/// direction and the up reference, with the eye translated to the origin.
pub open spec fn view_matrix_spec(eye: V3, center: V3, up: V3) -> M4 {
    let f = normalize_spec(v3_sub_spec(center, eye));
    let s = normalize_spec(v3_cross_spec(f, up));
    let u = v3_cross_spec(s, f);
    M4 {
        r0: V4 { x: s.x, y: s.y, z: s.z, w: fneg(v3_dot_spec(s, eye)) as i64 },
        r1: V4 { x: u.x, y: u.y, z: u.z, w: fneg(v3_dot_spec(u, eye)) as i64 },
        r2: V4 {
            x: fneg(f.x as int) as i64,
            y: fneg(f.y as int) as i64,
            z: fneg(f.z as int) as i64,
            w: v3_dot_spec(f, eye) as i64,
        },
        r3: V4 { x: 0, y: 0, z: 0, w: FX_ONE },
    }
}

/// Builds the right-handed look-at view matrix.
pub fn create_view_matrix(eye: V3, center: V3, up: V3) -> (m: M4)
    ensures
        m == view_matrix_spec(eye, center, up),
{
    let f = v3_normalize(v3_sub(center, eye));
    let s = v3_normalize(v3_cross(f, up));
    let u = v3_cross(s, f);
    M4 {
        r0: V4 { x: s.x, y: s.y, z: s.z, w: fx_neg(v3_dot(s, eye)) },
        r1: V4 { x: u.x, y: u.y, z: u.z, w: fx_neg(v3_dot(u, eye)) },
        r2: V4 { x: fx_neg(f.x), y: fx_neg(f.y), z: fx_neg(f.z), w: v3_dot(f, eye) },
        r3: V4 { x: 0, y: 0, z: 0, w: FX_ONE },
    }
}

/// The perspective matrix value: 45 degree vertical field of view, near
/// 0.1, far 1000, aspect from the window size.
pub open spec fn perspective_matrix_spec(width: int, height: int) -> M4 {
    let aspect = fdiv(width, height);
    M4 {
        r0: V4 { x: fdiv(COT_HALF_FOV_RAW as int, aspect) as i64, y: 0, z: 0, w: 0 },
        r1: V4 { x: 0, y: COT_HALF_FOV_RAW, z: 0, w: 0 },
        r2: V4 {
            x: 0,
            y: 0,
            z: fneg(fdiv(fadd(FAR_RAW as int, NEAR_RAW as int), fsub(FAR_RAW as int, NEAR_RAW as int))) as i64,
            w: fneg(fdiv(fmul(fmul(131072, FAR_RAW as int), NEAR_RAW as int), fsub(FAR_RAW as int, NEAR_RAW as int))) as i64,
        },
        r3: V4 { x: 0, y: 0, z: fneg(FX_ONE as int) as i64, w: 0 },
    }
}

/// Builds the perspective projection matrix for a window of the given size.
pub fn create_perspective_matrix(window_width: Fx, window_height: Fx) -> (m: M4)
    ensures
        m == perspective_matrix_spec(window_width as int, window_height as int),
{
    let aspect = fx_div(window_width, window_height);
    M4 {
        r0: V4 { x: fx_div(COT_HALF_FOV_RAW, aspect), y: 0, z: 0, w: 0 },
        r1: V4 { x: 0, y: COT_HALF_FOV_RAW, z: 0, w: 0 },
        r2: V4 {
            x: 0,
            y: 0,
            z: fx_neg(fx_div(fx_add(FAR_RAW, NEAR_RAW), fx_sub(FAR_RAW, NEAR_RAW))),
            w: fx_neg(fx_div(fx_mul(fx_mul(131072, FAR_RAW), NEAR_RAW), fx_sub(FAR_RAW, NEAR_RAW))),
        },
        r3: V4 { x: 0, y: 0, z: fx_neg(FX_ONE), w: 0 },
    }
}

/// The viewport matrix value: scales device coordinates to pixels around
/// the framebuffer center, flipping the y axis.
pub open spec fn viewport_matrix_spec(width: int, height: int) -> M4 {
    let hw = fmul(width, FX_HALF as int);
    let hh = fmul(height, FX_HALF as int);
    M4 {
        r0: V4 { x: hw as i64, y: 0, z: 0, w: hw as i64 },
        r1: V4 { x: 0, y: fneg(hh) as i64, z: 0, w: hh as i64 },
        r2: V4 { x: 0, y: 0, z: FX_ONE, w: 0 },
        r3: V4 { x: 0, y: 0, z: 0, w: FX_ONE },
    }
}

/// Builds the viewport matrix mapping normalized device coordinates to
/// pixel space for a framebuffer of the given size.
pub fn create_viewport_matrix(width: Fx, height: Fx) -> (m: M4)
    ensures
        m == viewport_matrix_spec(width as int, height as int),
{
    let hw = fx_mul(width, FX_HALF);
    let hh = fx_mul(height, FX_HALF);
    M4 {
        r0: V4 { x: hw, y: 0, z: 0, w: hw },
        r1: V4 { x: 0, y: fx_neg(hh), z: 0, w: hh },
        r2: V4 { x: 0, y: 0, z: FX_ONE, w: 0 },
        r3: V4 { x: 0, y: 0, z: 0, w: FX_ONE },
    }
}

} // verus!
