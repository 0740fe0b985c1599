//! The orbital camera: a look-at target, a distance, and two angles.
//!
//! The eye position is derived from yaw and pitch rather than stored, so
//! orbiting by an angle and then by its opposite restores the eye exactly —
//! the angles live in integers, and adding then subtracting a delta modulo a
//! full turn is lossless. The pitch is clamped short of the poles.

use vstd::prelude::*;
use crate::fx::{Fx, FX_ONE, fadd, fclamp, fdiv, fmul, fsub, fx_add, fx_clamp, fx_mul, fx_sub};
use crate::geom::{V3, norm_spec, v3_sub_spec, v3_add_spec, v3_norm, v3_sub, v3_add};
use crate::trig::{
    TWO_PI_RAW, fasin, fatan2, fcos, fsin, fx_asin, fx_atan2, fx_cos, fx_sin, emod,
};

verus! {

/// Greatest pitch magnitude the camera accepts: just short of a quarter
/// turn, so the view direction never degenerates at the poles.
pub const MAX_PITCH_RAW: i64 = 102288;
/// Smallest eye-to-target distance the zoom allows.
pub const MIN_RADIUS_RAW: i64 = 6554;

/// An orbital camera around a look-at target.
#[derive(Clone, Copy, PartialEq, Eq, Structural, Debug)]
pub struct Camera {
    /// The look-at target.
    pub center: V3,
    /// Eye-to-target distance.
    pub radius: Fx,
    /// Azimuth of the eye around the target, in `[0, TWO_PI_RAW)`.
    pub yaw: Fx,
    /// Elevation of the eye, clamped to `[-MAX_PITCH_RAW, MAX_PITCH_RAW]`.
    pub pitch: Fx,
    /// The up reference handed to the view matrix.
    pub up: V3,
}

impl Camera {
    /// Well-formedness: the angles sit in their canonical ranges.
    pub open spec fn wf(self) -> bool {
        &&& 0 <= self.yaw < TWO_PI_RAW
        &&& -MAX_PITCH_RAW <= self.pitch <= MAX_PITCH_RAW
        &&& self.radius >= 0
    }

    /// The eye position derived from the stored angles.
    pub open spec fn eye_spec(self) -> V3 {
        let cp = fcos(self.pitch as int);
        let sp = fsin(self.pitch as int);
        let sy = fsin(self.yaw as int);
        let cy = fcos(self.yaw as int);
        V3 {
            x: fadd(self.center.x as int, fmul(self.radius as int, fmul(cp, sy))) as i64,
            y: fadd(self.center.y as int, fmul(self.radius as int, sp)) as i64,
            z: fadd(self.center.z as int, fmul(self.radius as int, fmul(cp, cy))) as i64,
        }
    }

    /// The camera after an orbit by the given yaw and pitch deltas.
    pub open spec fn orbit_spec(self, delta_yaw: int, delta_pitch: int) -> Camera {
        Camera {
            yaw: ((self.yaw + delta_yaw) % (TWO_PI_RAW as int)) as i64,
            pitch: fclamp(
                self.pitch + delta_pitch,
                -MAX_PITCH_RAW as int,
                MAX_PITCH_RAW as int,
            ) as i64,
            ..self
        }
    }

    /// Builds a camera looking from `eye` toward `center`, recovering the
    /// distance and the two angles from the offset.
    pub fn new(eye: V3, center: V3, up: V3) -> (c: Camera)
        ensures
            c.center == center,
            c.up == up,
            c.radius as int == norm_spec(v3_sub_spec(eye, center)),
            c.yaw as int == fatan2(
                fsub(eye.x as int, center.x as int),
                fsub(eye.z as int, center.z as int),
            ) % (TWO_PI_RAW as int),
            c.pitch as int == fclamp(
                fasin(fdiv(fsub(eye.y as int, center.y as int), norm_spec(v3_sub_spec(eye, center)))),
                -MAX_PITCH_RAW as int,
                MAX_PITCH_RAW as int,
            ),
            c.wf(),
    {
        let offset = v3_sub(eye, center);
        let radius = v3_norm(offset);
        let yaw = emod(fx_atan2(offset.x, offset.z), TWO_PI_RAW);
        let pitch = fx_clamp(
            crate::trig::fx_asin(crate::fx::fx_div(offset.y, radius)),
            -MAX_PITCH_RAW,
            MAX_PITCH_RAW,
        );
        Camera { center, radius, yaw, pitch, up }
    }

    /// The derived eye position.
    pub fn eye(&self) -> (e: V3)
        ensures
            e == self.eye_spec(),
    {
        let cp = fx_cos(self.pitch);
        let sp = fx_sin(self.pitch);
        let sy = fx_sin(self.yaw);
        let cy = fx_cos(self.yaw);
        V3 {
            x: fx_add(self.center.x, fx_mul(self.radius, fx_mul(cp, sy))),
            y: fx_add(self.center.y, fx_mul(self.radius, sp)),
            z: fx_add(self.center.z, fx_mul(self.radius, fx_mul(cp, cy))),
        }
    }

    /// Rotates the eye around the target: the yaw delta wraps around a full
    /// turn, the pitch delta clamps short of the poles.
    pub fn orbit(&mut self, delta_yaw: Fx, delta_pitch: Fx)
        requires
            old(self).wf(),
        ensures
            *final(self) == old(self).orbit_spec(delta_yaw as int, delta_pitch as int),
            final(self).wf(),
    {
        let dy = emod(delta_yaw, TWO_PI_RAW);
        let sum = self.yaw + dy;
        proof {
            vstd::arithmetic::div_mod::lemma_add_mod_noop_right(
                self.yaw as int,
                delta_yaw as int,
                TWO_PI_RAW as int,
            );
        }
        self.yaw = emod(sum, TWO_PI_RAW);
        let wide: i128 = self.pitch as i128 + delta_pitch as i128;
        self.pitch = if wide < -MAX_PITCH_RAW as i128 {
            -MAX_PITCH_RAW
        } else if wide > MAX_PITCH_RAW as i128 {
            MAX_PITCH_RAW
        } else {
            wide as i64
        };
    }

    /// Translates the look-at target.
    pub fn move_center(&mut self, offset: V3)
        ensures
            final(self).center == v3_add_spec(old(self).center, offset),
            final(self).radius == old(self).radius,
            final(self).yaw == old(self).yaw,
            final(self).pitch == old(self).pitch,
            final(self).up == old(self).up,
    {
        self.center = v3_add(self.center, offset);
    }

    /// Scales the eye-to-target distance: a positive delta moves the eye
    /// closer by that fraction, a negative one pushes it out, and the
    /// distance never drops under `MIN_RADIUS_RAW`.
    pub fn zoom(&mut self, delta: Fx)
        ensures
            final(self).radius as int == fclamp(
                fmul(old(self).radius as int, fsub(FX_ONE as int, delta as int)),
                MIN_RADIUS_RAW as int,
                crate::fx::FX_MAX as int,
            ),
            final(self).center == old(self).center,
            final(self).yaw == old(self).yaw,
            final(self).pitch == old(self).pitch,
            final(self).up == old(self).up,
    {
        let scaled = fx_mul(self.radius, fx_sub(FX_ONE, delta));
        self.radius = fx_clamp(scaled, MIN_RADIUS_RAW, crate::fx::FX_MAX);
    }
}

/// Orbiting by a yaw delta and then by its opposite restores the camera —
/// and with it the eye position — exactly, for every well-formed camera and
/// every delta.
pub proof fn lemma_orbit_roundtrip(cam: Camera, delta_yaw: int)
    requires
        cam.wf(),
    ensures
        cam.orbit_spec(delta_yaw, 0).orbit_spec(-delta_yaw, 0) == cam,
        cam.orbit_spec(delta_yaw, 0).orbit_spec(-delta_yaw, 0).eye_spec() == cam.eye_spec(),
{
    let m = TWO_PI_RAW as int;
    let y = cam.yaw as int;
    let a = (y + delta_yaw) % m;
    vstd::arithmetic::div_mod::lemma_mod_bound(y + delta_yaw, m);
    vstd::arithmetic::div_mod::lemma_mod_twice(delta_yaw, m);
    vstd::arithmetic::div_mod::lemma_sub_mod_noop_right(a, delta_yaw, m);
    vstd::arithmetic::div_mod::lemma_sub_mod_noop(y + delta_yaw, delta_yaw, m);
    vstd::arithmetic::div_mod::lemma_small_mod(y as nat, m as nat);
    assert((a - delta_yaw % m) % m == (a - delta_yaw) % m);
    assert((a % m - delta_yaw % m) % m == ((y + delta_yaw) - delta_yaw) % m) by {
        vstd::arithmetic::div_mod::lemma_small_mod(a as nat, m as nat);
    }
    assert((a + (-delta_yaw)) % m == y);
    assert(fclamp(cam.pitch + 0, -MAX_PITCH_RAW as int, MAX_PITCH_RAW as int) == cam.pitch as int);
}

} // verus!
