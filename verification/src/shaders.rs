//! The vertex stage and the closed library of procedural surface programs.
//!
//! Every shader variant is a pure function of a fragment and the transform
//! context, built from the shared primitives: color interpolation and
//! scaling, banded gradients, trigonometric hash noise, and radial masks.
//! Each variant honors the debug-mode convention: mode 0 is the full
//! composite and modes 1 to 3 isolate an intermediate signal.

use vstd::prelude::*;
use crate::color::{Color, lerp_spec, scale_spec, add_spec};
use crate::fragment::Fragment;
use crate::fx::{
    Fx, FX_HALF, FX_ONE, FX_SCALE, fadd, fabs, fclamp, fdiv, fmul, fsub, sat,
    fx_abs, fx_add, fx_clamp, fx_div, fx_from_u32, fx_mul, fx_sub,
};
use crate::geom::{
    M3, M4, V3, V4, m3_det_spec, m3_identity_spec, m3_inverse_spec, m3_mul_v3,
    m3_mul_v3_spec, m3_transpose, m3_transpose_spec, m3_try_inverse, m4_mul, m4_mul_spec,
    m4_mul_v4, m4_mul_v4_spec, m4_to_m3, m4_to_m3_spec, normalize_spec, v3_dot, v3_dot_spec,
    v3_neg, v3_neg_spec, v3_normalize, v3_scale, v3_scale_spec, v3_sub, v3_sub_spec,
};
use crate::pipeline::Uniforms;
use crate::trig::{
    PI_RAW, TWO_PI_RAW, fcos, ffract, fpow, fsin, fsqrt, fx_cos, fx_fract, fx_powi,
    fx_sin, fx_sqrt, lemma_trig_zero,
};
use crate::vertex::Vertex;

verus! {

/// The frame counter as a fixed-point scalar.
pub open spec fn time_fx(t: int) -> int {
    sat(t * FX_SCALE)
}

/// The nine mutually exclusive surface programs.
#[derive(Clone, Copy, PartialEq, Eq, Structural, Debug)]
pub enum ShaderType {
    /// The base star.
    Sun,
    /// Continents, oceans and drifting clouds.
    Earth,
    /// Banded gas giant with a vortex storm.
    GasPlanet,
    /// Banded body drawn together with a separate ring mesh.
    RingPlanet,
    /// Hash-noise rocky surface.
    RockyPlanet,
    /// Cratered gray companion.
    Moon,
    /// Fractured ice with a specular glint.
    IcyPlanet,
    /// Dark rock veined with glowing lava.
    VolcanicPlanet,
    /// The flat ring mesh itself.
    Ring,
}

/// The vertex stage as a value: clip position through projection, view and
/// model; perspective divide; viewport transform; and the normal through
/// the transposed-inverse of the model's linear part, falling back to the
/// identity when that part is singular.
pub open spec fn vertex_shader_spec(v: Vertex, u: Uniforms) -> Vertex {
    let pos4 = V4 { x: v.position.x, y: v.position.y, z: v.position.z, w: FX_ONE };
    let pvm = m4_mul_spec(m4_mul_spec(u.projection_matrix, u.view_matrix), u.model_matrix);
    let clip = m4_mul_v4_spec(pvm, pos4);
    let ndc = V4 {
        x: fdiv(clip.x as int, clip.w as int) as i64,
        y: fdiv(clip.y as int, clip.w as int) as i64,
        z: fdiv(clip.z as int, clip.w as int) as i64,
        w: FX_ONE,
    };
    let screen = m4_mul_v4_spec(u.viewport_matrix, ndc);
    let tm = m3_transpose_spec(m4_to_m3_spec(u.model_matrix));
    let nm = if m3_det_spec(tm) == 0 {
        m3_identity_spec()
    } else {
        m3_inverse_spec(tm)
    };
    Vertex {
        transformed_position: V3 { x: screen.x, y: screen.y, z: screen.z },
        transformed_normal: m3_mul_v3_spec(nm, v.normal),
        ..v
    }
}

/// Transforms one vertex into screen space and re-derives its normal.
///
/// A clip `w` of zero cannot crash: the perspective divide then yields zero
/// components (degenerate projections shade arbitrarily, they never fault).
pub fn vertex_shader(vertex: &Vertex, uniforms: &Uniforms) -> (r: Vertex)
    ensures
        r == vertex_shader_spec(*vertex, *uniforms),
{
    proof {
        reveal(vertex_shader_spec);
    }
    let position = V4 {
        x: vertex.position.x,
        y: vertex.position.y,
        z: vertex.position.z,
        w: FX_ONE,
    };
    let pv = m4_mul(&uniforms.projection_matrix, &uniforms.view_matrix);
    let pvm = m4_mul(&pv, &uniforms.model_matrix);
    let transformed = m4_mul_v4(&pvm, position);

    let w = transformed.w;
    let ndc_position = V4 {
        x: fx_div(transformed.x, w),
        y: fx_div(transformed.y, w),
        z: fx_div(transformed.z, w),
        w: FX_ONE,
    };
    let screen_position = m4_mul_v4(&uniforms.viewport_matrix, ndc_position);

    let model_mat3 = m4_to_m3(&uniforms.model_matrix);
    let transposed = m3_transpose(&model_mat3);
    let normal_matrix = match m3_try_inverse(&transposed) {
        Some(inv) => inv,
        None => M3 {
            r0: V3 { x: FX_ONE, y: 0, z: 0 },
            r1: V3 { x: 0, y: FX_ONE, z: 0 },
            r2: V3 { x: 0, y: 0, z: FX_ONE },
        },
    };
    let transformed_normal = m3_mul_v3(&normal_matrix, vertex.normal);

    Vertex {
        position: vertex.position,
        normal: vertex.normal,
        tex_coords: vertex.tex_coords,
        color: vertex.color,
        transformed_position: V3 {
            x: screen_position.x,
            y: screen_position.y,
            z: screen_position.z,
        },
        transformed_normal,
    }
}

/// A three-band gradient: the unit interval is cut at roughly a third and
/// two thirds, with a local interpolation inside each band.
pub open spec fn band_blend_spec(t: int, c1: Color, c2: Color, c3: Color, c4: Color) -> Color {
    if t < 21627 {
        lerp_spec(c1, c2, fdiv(t, 21627))
    } else if t < 43254 {
        lerp_spec(c2, c3, fdiv(fsub(t, 21627), 21627))
    } else {
        lerp_spec(c3, c4, fdiv(fsub(t, 43254), 22282))
    }
}

fn band_blend(t: Fx, c1: Color, c2: Color, c3: Color, c4: Color) -> (r: Color)
    ensures
        r == band_blend_spec(t as int, c1, c2, c3, c4),
{
    if t < 21627 {
        c1.lerp(&c2, fx_div(t, 21627))
    } else if t < 43254 {
        c2.lerp(&c3, fx_div(fx_sub(t, 21627), 21627))
    } else {
        c3.lerp(&c4, fx_div(fx_sub(t, 43254), 22282))
    }
}

/// The icy-planet program as a value.
pub open spec fn icy_planet_spec(f: Fragment, u: Uniforms) -> Color {
    let base_color = Color { r: 173, g: 216, b: 230 };
    let fracture_color = Color { r: 255, g: 255, b: 255 };
    let combined = fadd(fmul(f.vertex_pos.x as int, 45875), fmul(f.vertex_pos.y as int, 19661));
    let stripe = fabs(fsin(fmul(fdiv(combined, 9830), PI_RAW as int)));
    let fracture_factor = fpow(fsub(FX_ONE as int, stripe), 3);
    let fractured = lerp_spec(base_color, fracture_color, fracture_factor);
    let normal = normalize_spec(f.normal);
    let light = V3 { x: 0i64, y: 0i64, z: -65536i64 };
    let view = v3_neg_spec(normalize_spec(f.vertex_pos));
    let dl = v3_dot_spec(light, normal);
    let reflect = normalize_spec(v3_sub_spec(v3_scale_spec(normal, fmul(131072, dl)), light));
    let d = v3_dot_spec(reflect, view);
    let dm = if d >= 0 { d } else { 0 };
    let specular = fpow(dm, 32);
    let reflected = lerp_spec(fractured, fracture_color, fmul(specular, FX_HALF as int));
    if u.debug_mode == 1 {
        scale_spec(base_color, f.intensity as int)
    } else if u.debug_mode == 2 {
        scale_spec(fracture_color, fracture_factor)
    } else if u.debug_mode == 3 {
        scale_spec(fracture_color, specular)
    } else {
        scale_spec(reflected, f.intensity as int)
    }
}

/// Fractured ice: diagonal sine stripes whiten into cracks and a tight
/// specular lobe glints off the surface. Mode 1 isolates the lit base
/// color, 2 the crack mask, 3 the specular term.
pub fn icy_planet_shader(fragment: &Fragment, uniforms: &Uniforms) -> (r: Color)
    ensures
        r == icy_planet_spec(*fragment, *uniforms),
{
    let base_color = Color::new(173, 216, 230);
    let fracture_color = Color::new(255, 255, 255);

    let combined_pos = fx_add(
        fx_mul(fragment.vertex_pos.x, 45875),
        fx_mul(fragment.vertex_pos.y, 19661),
    );
    let stripe_factor = fx_abs(fx_sin(fx_mul(fx_div(combined_pos, 9830), PI_RAW)));
    let fracture_factor = fx_powi(fx_sub(FX_ONE, stripe_factor), 3);
    let fractured_surface = base_color.lerp(&fracture_color, fracture_factor);

    let normal = v3_normalize(fragment.normal);
    let light_dir = V3 { x: 0, y: 0, z: -65536 };
    let view_dir = v3_neg(v3_normalize(fragment.vertex_pos));
    let dl = v3_dot(light_dir, normal);
    let reflect_dir = v3_normalize(v3_sub(v3_scale(normal, fx_mul(131072, dl)), light_dir));
    let d = v3_dot(reflect_dir, view_dir);
    let dm = if d >= 0 { d } else { 0 };
    let specular_intensity = fx_powi(dm, 32);
    let reflected_surface =
        fractured_surface.lerp(&fracture_color, fx_mul(specular_intensity, FX_HALF));

    if uniforms.debug_mode == 1 {
        base_color.scale(fragment.intensity)
    } else if uniforms.debug_mode == 2 {
        fracture_color.scale(fracture_factor)
    } else if uniforms.debug_mode == 3 {
        fracture_color.scale(specular_intensity)
    } else {
        reflected_surface.scale(fragment.intensity)
    }
}

/// The volcanic-planet program as a value.
pub open spec fn volcanic_planet_spec(f: Fragment, u: Uniforms) -> Color {
    let rock_color = Color { r: 50, g: 50, b: 50 };
    let lava_color = Color { r: 255, g: 100, b: 0 };
    let t = time_fx(u.time as int);
    let noise_x = fadd(fmul(f.vertex_pos.x as int, 983040), fmul(t, 6554));
    let noise_y = fsub(fmul(f.vertex_pos.y as int, 983040), fmul(t, 6554));
    let lava_noise = ffract(fmul(fabs(fmul(fsin(noise_x), fcos(noise_y))), 98304));
    let over = fsub(lava_noise, 45875);
    let lava_factor = fdiv(if over >= 0 { over } else { 0 }, 19661);
    let surface = lerp_spec(rock_color, lava_color, lava_factor);
    let glow_factor = fclamp(fmul(fpow(lava_factor, 2), 52429), 0, FX_ONE as int);
    let glow_color = lerp_spec(lava_color, Color { r: 255, g: 255, b: 50 }, glow_factor);
    let final_color = lerp_spec(surface, glow_color, glow_factor);
    let emitted = lerp_spec(final_color, scale_spec(lava_color, 52429), lava_factor);
    if u.debug_mode == 1 {
        scale_spec(rock_color, f.intensity as int)
    } else if u.debug_mode == 2 {
        scale_spec(lava_color, lava_factor)
    } else if u.debug_mode == 3 {
        scale_spec(glow_color, glow_factor)
    } else {
        scale_spec(emitted, f.intensity as int)
    }
}

/// Dark rock veined with animated lava: a trigonometric noise field drifts
/// with the frame counter, its peaks glow and emit. Mode 1 isolates the lit
/// rock, 2 the lava mask, 3 the glow.
pub fn volcanic_planet_shader(fragment: &Fragment, uniforms: &Uniforms) -> (r: Color)
    ensures
        r == volcanic_planet_spec(*fragment, *uniforms),
{
    let rock_color = Color::new(50, 50, 50);
    let lava_color = Color::new(255, 100, 0);

    let t = fx_from_u32(uniforms.time);
    let noise_x = fx_add(fx_mul(fragment.vertex_pos.x, 983040), fx_mul(t, 6554));
    let noise_y = fx_sub(fx_mul(fragment.vertex_pos.y, 983040), fx_mul(t, 6554));
    let lava_noise = fx_fract(fx_mul(fx_abs(fx_mul(fx_sin(noise_x), fx_cos(noise_y))), 98304));
    let over = fx_sub(lava_noise, 45875);
    let lava_factor = fx_div(if over >= 0 { over } else { 0 }, 19661);
    let surface_color = rock_color.lerp(&lava_color, lava_factor);

    let glow_factor = fx_clamp(fx_mul(fx_powi(lava_factor, 2), 52429), 0, FX_ONE);
    let glow_color = lava_color.lerp(&Color::new(255, 255, 50), glow_factor);
    let final_color = surface_color.lerp(&glow_color, glow_factor);

    let lava_emitted_color = lava_color.scale(52429);
    let emitted_color = final_color.lerp(&lava_emitted_color, lava_factor);

    if uniforms.debug_mode == 1 {
        rock_color.scale(fragment.intensity)
    } else if uniforms.debug_mode == 2 {
        lava_color.scale(lava_factor)
    } else if uniforms.debug_mode == 3 {
        glow_color.scale(glow_factor)
    } else {
        emitted_color.scale(fragment.intensity)
    }
}

/// The innermost color of the sun's radial gradient.
pub open spec fn sun_color1() -> Color {
    Color { r: 255, g: 255, b: 255 }
}

/// The sun program as a value.
pub open spec fn sun_spec(f: Fragment, u: Uniforms) -> Color {
    let color1 = sun_color1();
    let color2 = Color { r: 255, g: 230, b: 28 };
    let color3 = Color { r: 255, g: 178, b: 51 };
    let color4 = Color { r: 204, g: 102, b: 0 };
    let x = f.vertex_pos.x as int;
    let y = f.vertex_pos.y as int;
    let radius = fsqrt(fadd(fmul(x, x), fmul(y, y)));
    let t = fclamp(radius, 0, FX_ONE as int);
    let blended = band_blend_spec(t, color1, color2, color3, color4);
    let emitted = scale_spec(blended, 98304);
    if u.debug_mode == 1 {
        scale_spec(blended, f.intensity as int)
    } else if u.debug_mode == 2 {
        blended
    } else if u.debug_mode == 3 {
        scale_spec(color1, 98304)
    } else {
        scale_spec(emitted, f.intensity as int)
    }
}

/// The base star: a four-color radial gradient boosted by an emission
/// factor of one and a half. Mode 1 isolates the lit gradient, 2 the raw
/// gradient, 3 the white emission.
pub fn sun_shader(fragment: &Fragment, uniforms: &Uniforms) -> (r: Color)
    ensures
        r == sun_spec(*fragment, *uniforms),
        uniforms.debug_mode == 2 && fragment.vertex_pos.x == 0 && fragment.vertex_pos.y == 0
            ==> r == sun_color1(),
{
    let color1 = Color::new(255, 255, 255);
    let color2 = Color::new(255, 230, 28);
    let color3 = Color::new(255, 178, 51);
    let color4 = Color::new(204, 102, 0);

    let x = fragment.vertex_pos.x;
    let y = fragment.vertex_pos.y;
    let radius = fx_sqrt(fx_add(fx_mul(x, x), fx_mul(y, y)));
    let t = fx_clamp(radius, 0, FX_ONE);

    let blended_color = band_blend(t, color1, color2, color3, color4);
    let emitted_color = blended_color.scale(98304);

    proof {
        if uniforms.debug_mode == 2 && fragment.vertex_pos.x == 0 && fragment.vertex_pos.y == 0 {
            lemma_sun_origin_band(*fragment, *uniforms);
        }
    }
    if uniforms.debug_mode == 1 {
        blended_color.scale(fragment.intensity)
    } else if uniforms.debug_mode == 2 {
        blended_color
    } else if uniforms.debug_mode == 3 {
        color1.scale(98304)
    } else {
        emitted_color.scale(fragment.intensity)
    }
}

/// At the projected origin, the sun's mode-2 output is exactly the
/// innermost gradient color: a radius of zero falls in the first band and
/// interpolation by zero is exact.
pub proof fn lemma_sun_origin_band(f: Fragment, u: Uniforms)
    requires
        f.vertex_pos.x == 0,
        f.vertex_pos.y == 0,
        u.debug_mode == 2,
    ensures
        sun_spec(f, u) == sun_color1(),
{
    vstd::arithmetic::div_mod::lemma_div_of0(FX_SCALE as int);
    assert(0int * 0int == 0);
    assert(fmul(0, 0) == 0);
    assert(fsqrt(fadd(0, 0)) == 0);
    assert(fclamp(0, 0, FX_ONE as int) == 0);
    assert(0int * FX_SCALE == 0);
    assert(fdiv(0, 21627) == 0) by {
        vstd::arithmetic::div_mod::lemma_div_of0(21627);
    }
    crate::color::lemma_lerp_endpoints(sun_color1(), Color { r: 255, g: 230, b: 28 });
}

/// The gas-planet program as a value.
pub open spec fn gas_planet_spec(f: Fragment, u: Uniforms) -> Color {
    let band_color1 = Color { r: 139, g: 69, b: 19 };
    let band_color2 = Color { r: 205, g: 133, b: 63 };
    let band_color3 = Color { r: 222, g: 184, b: 135 };
    let flow_offset = fmul(time_fx(u.time as int), 66);
    let y_position = fadd(f.vertex_pos.y as int, flow_offset);
    let band_factor = ffract(fadd(fmul(fsin(fmul(y_position, 262144)), FX_HALF as int), FX_HALF as int));
    let band_color = band_blend_spec(band_factor, band_color1, band_color2, band_color3, band_color1);
    let dx = fsub(f.vertex_pos.x as int, -13107);
    let dy = fsub(f.vertex_pos.y as int, -13107);
    let distance = fsqrt(fadd(fmul(dx, dx), fmul(dy, dy)));
    let gap = fsub(19661, distance);
    let vortex_intensity = fpow(fdiv(if gap >= 0 { gap } else { 0 }, 19661), 2);
    let vortex_color = Color { r: 255, g: 69, b: 0 };
    let final_color = lerp_spec(band_color, vortex_color, vortex_intensity);
    if u.debug_mode == 1 {
        scale_spec(band_color, f.intensity as int)
    } else if u.debug_mode == 2 {
        scale_spec(vortex_color, vortex_intensity)
    } else if u.debug_mode == 3 {
        band_color
    } else {
        scale_spec(final_color, f.intensity as int)
    }
}

/// Banded gas giant: horizontal sine bands drift with the frame counter,
/// and a radial vortex storm tints one quadrant. Mode 1 isolates the lit
/// bands, 2 the vortex, 3 the raw band gradient.
///
/// The squared vortex mask is zero outside the storm radius and reaches
/// one at its center; in 16.16 fixed point, true mask values under one
/// raw unit round to zero, so the mask also reads zero in a thin band just
/// inside the rim (a gap within about 76 raw units of the radius).
pub fn gas_planet_shader(fragment: &Fragment, uniforms: &Uniforms) -> (r: Color)
    ensures
        r == gas_planet_spec(*fragment, *uniforms),
{
    let band_color1 = Color::new(139, 69, 19);
    let band_color2 = Color::new(205, 133, 63);
    let band_color3 = Color::new(222, 184, 135);

    let flow_offset = fx_mul(fx_from_u32(uniforms.time), 66);
    let y_position = fx_add(fragment.vertex_pos.y, flow_offset);
    let band_factor =
        fx_fract(fx_add(fx_mul(fx_sin(fx_mul(y_position, 262144)), FX_HALF), FX_HALF));
    let band_color = band_blend(band_factor, band_color1, band_color2, band_color3, band_color1);

    let dx = fx_sub(fragment.vertex_pos.x, -13107);
    let dy = fx_sub(fragment.vertex_pos.y, -13107);
    let distance_to_vortex = fx_sqrt(fx_add(fx_mul(dx, dx), fx_mul(dy, dy)));
    let gap = fx_sub(19661, distance_to_vortex);
    let vortex_intensity = fx_powi(fx_div(if gap >= 0 { gap } else { 0 }, 19661), 2);
    let vortex_color = Color::new(255, 69, 0);
    let final_color = band_color.lerp(&vortex_color, vortex_intensity);

    if uniforms.debug_mode == 1 {
        band_color.scale(fragment.intensity)
    } else if uniforms.debug_mode == 2 {
        vortex_color.scale(vortex_intensity)
    } else if uniforms.debug_mode == 3 {
        band_color
    } else {
        final_color.scale(fragment.intensity)
    }
}

/// The trigonometric hash noise shared by the rocky surface and the moon:
/// a sine of a linear combination of the coordinates, amplified and reduced
/// to its fractional part.
pub open spec fn hash_noise_spec(x: int, y: int, k1: int, k2: int, k3: int) -> int {
    ffract(fmul(fsin(fadd(fmul(x, k1), fmul(y, k2))), k3))
}

fn hash_noise(x: Fx, y: Fx, k1: Fx, k2: Fx, k3: Fx) -> (r: Fx)
    ensures
        r as int == hash_noise_spec(x as int, y as int, k1 as int, k2 as int, k3 as int),
{
    fx_fract(fx_mul(fx_sin(fx_add(fx_mul(x, k1), fx_mul(y, k2))), k3))
}

/// The rocky-planet program as a value.
pub open spec fn rocky_planet_spec(f: Fragment, u: Uniforms) -> Color {
    let base_color = Color { r: 139, g: 69, b: 19 };
    let mid_color = Color { r: 205, g: 92, b: 92 };
    let highlight_color = Color { r: 255, g: 160, b: 122 };
    let x = f.vertex_pos.x as int;
    let y = f.vertex_pos.y as int;
    let random_factor = fmul(hash_noise_spec(x, y, 851300, 5127078, 2867760025), 19661);
    let noise = fabs(fmul(
        fsin(fmul(fadd(x, random_factor), 655360)),
        fcos(fmul(fadd(y, random_factor), 655360)),
    ));
    let rocky = if noise < 26214 {
        lerp_spec(base_color, mid_color, fdiv(noise, 26214))
    } else {
        lerp_spec(mid_color, highlight_color, fdiv(fsub(noise, 26214), 39322))
    };
    if u.debug_mode == 1 {
        scale_spec(base_color, f.intensity as int)
    } else if u.debug_mode == 2 {
        scale_spec(mid_color, noise)
    } else if u.debug_mode == 3 {
        scale_spec(highlight_color, random_factor)
    } else {
        scale_spec(rocky, f.intensity as int)
    }
}

/// Rocky surface: a hash-noise jitter perturbs a sine-cosine pattern that
/// picks between three earth tones, lit by the fragment intensity. Mode 1
/// isolates the lit base tone, 2 the noise mask, 3 the hash jitter.
pub fn rocky_planet_shader(fragment: &Fragment, uniforms: &Uniforms) -> (r: Color)
    ensures
        r == rocky_planet_spec(*fragment, *uniforms),
{
    let base_color = Color::new(139, 69, 19);
    let mid_color = Color::new(205, 92, 92);
    let highlight_color = Color::new(255, 160, 122);

    let x = fragment.vertex_pos.x;
    let y = fragment.vertex_pos.y;
    let random_factor = fx_mul(hash_noise(x, y, 851300, 5127078, 2867760025), 19661);
    let noise = fx_abs(fx_mul(
        fx_sin(fx_mul(fx_add(x, random_factor), 655360)),
        fx_cos(fx_mul(fx_add(y, random_factor), 655360)),
    ));
    let rocky_surface = if noise < 26214 {
        base_color.lerp(&mid_color, fx_div(noise, 26214))
    } else {
        mid_color.lerp(&highlight_color, fx_div(fx_sub(noise, 26214), 39322))
    };
    if uniforms.debug_mode == 1 {
        base_color.scale(fragment.intensity)
    } else if uniforms.debug_mode == 2 {
        mid_color.scale(noise)
    } else if uniforms.debug_mode == 3 {
        highlight_color.scale(random_factor)
    } else {
        rocky_surface.scale(fragment.intensity)
    }
}

/// The center and radius of one of the moon's fourteen craters.
pub open spec fn crater_spec(i: int) -> (int, int, int) {
    if i == 0 { (6554, 13107, 32768) }
    else if i == 1 { (-19661, -6554, 19661) }
    else if i == 2 { (26214, -19661, 13107) }
    else if i == 3 { (-6554, 32768, 26214) }
    else if i == 4 { (-32768, -26214, 16384) }
    else if i == 5 { (19661, 26214, 22938) }
    else if i == 6 { (6554, 32768, 13107) }
    else if i == 7 { (13107, -6554, 16384) }
    else if i == 8 { (0, -39322, 18350) }
    else if i == 9 { (-26214, 13107, 14418) }
    else if i == 10 { (32768, 0, 19661) }
    else if i == 11 { (-13107, -32768, 11796) }
    else if i == 12 { (22938, 32768, 15729) }
    else { (-29491, -19661, 13107) }
}

fn crater(i: usize) -> (c: (Fx, Fx, Fx))
    requires
        i < 14,
    ensures
        c.0 as int == crater_spec(i as int).0,
        c.1 as int == crater_spec(i as int).1,
        c.2 as int == crater_spec(i as int).2,
{
    if i == 0 { (6554, 13107, 32768) }
    else if i == 1 { (-19661, -6554, 19661) }
    else if i == 2 { (26214, -19661, 13107) }
    else if i == 3 { (-6554, 32768, 26214) }
    else if i == 4 { (-32768, -26214, 16384) }
    else if i == 5 { (19661, 26214, 22938) }
    else if i == 6 { (6554, 32768, 13107) }
    else if i == 7 { (13107, -6554, 16384) }
    else if i == 8 { (0, -39322, 18350) }
    else if i == 9 { (-26214, 13107, 14418) }
    else if i == 10 { (32768, 0, 19661) }
    else if i == 11 { (-13107, -32768, 11796) }
    else if i == 12 { (22938, 32768, 15729) }
    else { (-29491, -19661, 13107) }
}

/// The cubic radial mask of one crater at a fragment.
pub open spec fn crater_term(x: int, y: int, i: int) -> int {
    let c = crater_spec(i);
    let dx = fsub(x, c.0);
    let dy = fsub(y, c.1);
    let distance = fsqrt(fadd(fmul(dx, dx), fmul(dy, dy)));
    let gap = fsub(c.2, distance);
    fpow(fdiv(if gap >= 0 { gap } else { 0 }, c.2), 3)
}

/// The left fold of the first `i` crater masks.
pub open spec fn crater_sum(x: int, y: int, i: nat) -> int
    decreases i,
{
    if i == 0 {
        0
    } else {
        fadd(crater_sum(x, y, (i - 1) as nat), crater_term(x, y, i - 1))
    }
}

/// The moon program as a value.
pub open spec fn moon_spec(f: Fragment, u: Uniforms) -> Color {
    let base_color = Color { r: 169, g: 169, b: 169 };
    let mid_color = Color { r: 190, g: 190, b: 190 };
    let highlight_color = Color { r: 211, g: 211, b: 211 };
    let x = f.vertex_pos.x as int;
    let y = f.vertex_pos.y as int;
    let random_factor = fmul(hash_noise_spec(x, y, 1034748, 2702246, 2867760025), 16384);
    let noise = fabs(fmul(
        fsin(fmul(fadd(x, random_factor), 786432)),
        fcos(fmul(fadd(y, random_factor), 786432)),
    ));
    let rocky = if noise < 32768 {
        lerp_spec(base_color, mid_color, fdiv(noise, 32768))
    } else {
        lerp_spec(mid_color, highlight_color, fdiv(fsub(noise, 32768), 32768))
    };
    let crater_color = Color { r: 100, g: 100, b: 100 };
    let combined = crater_sum(x, y, 14);
    if u.debug_mode == 1 {
        scale_spec(base_color, f.intensity as int)
    } else if u.debug_mode == 2 {
        scale_spec(mid_color, noise)
    } else if u.debug_mode == 3 {
        scale_spec(crater_color, combined)
    } else {
        scale_spec(lerp_spec(rocky, crater_color, combined), f.intensity as int)
    }
}

/// The cratered moon: the rocky hash noise in grays, darkened by fourteen
/// cubic radial crater masks summed over the surface. Mode 1 isolates the
/// lit base gray, 2 the noise mask, 3 the combined crater mask.
pub fn moon_shader(fragment: &Fragment, uniforms: &Uniforms) -> (r: Color)
    ensures
        r == moon_spec(*fragment, *uniforms),
{
    let base_color = Color::new(169, 169, 169);
    let mid_color = Color::new(190, 190, 190);
    let highlight_color = Color::new(211, 211, 211);

    let x = fragment.vertex_pos.x;
    let y = fragment.vertex_pos.y;
    let random_factor = fx_mul(hash_noise(x, y, 1034748, 2702246, 2867760025), 16384);
    let noise = fx_abs(fx_mul(
        fx_sin(fx_mul(fx_add(x, random_factor), 786432)),
        fx_cos(fx_mul(fx_add(y, random_factor), 786432)),
    ));
    let rocky_surface = if noise < 32768 {
        base_color.lerp(&mid_color, fx_div(noise, 32768))
    } else {
        mid_color.lerp(&highlight_color, fx_div(fx_sub(noise, 32768), 32768))
    };

    let crater_color = Color::new(100, 100, 100);
    let mut combined_crater_intensity: Fx = 0;
    let mut i: usize = 0;
    while i < 14
        invariant
            i <= 14,
            combined_crater_intensity as int
                == crater_sum(fragment.vertex_pos.x as int, fragment.vertex_pos.y as int, i as nat),
        decreases 14 - i,
    {
        let c = crater(i);
        let dx = fx_sub(fragment.vertex_pos.x, c.0);
        let dy = fx_sub(fragment.vertex_pos.y, c.1);
        let distance = fx_sqrt(fx_add(fx_mul(dx, dx), fx_mul(dy, dy)));
        let gap = fx_sub(c.2, distance);
        let crater_intensity = fx_powi(fx_div(if gap >= 0 { gap } else { 0 }, c.2), 3);
        combined_crater_intensity = fx_add(combined_crater_intensity, crater_intensity);
        i = i + 1;
    }

    let final_surface = rocky_surface.lerp(&crater_color, combined_crater_intensity);
    if uniforms.debug_mode == 1 {
        base_color.scale(fragment.intensity)
    } else if uniforms.debug_mode == 2 {
        mid_color.scale(noise)
    } else if uniforms.debug_mode == 3 {
        crater_color.scale(combined_crater_intensity)
    } else {
        final_surface.scale(fragment.intensity)
    }
}

/// The moon's orbital position as a value: a circle of the given radius in
/// the xz plane, a hundredth of a radian per time unit.
pub open spec fn moon_position_spec(t: int, radius: int) -> V3 {
    let angle = fmul(time_fx(t), 655);
    V3 {
        x: fmul(radius, fcos(angle)) as i64,
        y: 0,
        z: fmul(radius, fsin(angle)) as i64,
    }
}

/// The moon's circular orbit in the xz plane.
pub fn moon_position(time: u32, radius: Fx) -> (r: V3)
    ensures
        r == moon_position_spec(time as int, radius as int),
{
    let angle = fx_mul(fx_from_u32(time), 655);
    V3 {
        x: fx_mul(radius, fx_cos(angle)),
        y: 0,
        z: fx_mul(radius, fx_sin(angle)),
    }
}

/// At time zero the moon sits exactly at `(radius, 0, 0)`: the angle is
/// zero, the cosine of zero is exactly one and the sine exactly zero.
pub proof fn lemma_moon_position_zero(radius: int)
    requires
        -crate::fx::FX_MAX <= radius <= crate::fx::FX_MAX,
    ensures
        moon_position_spec(0, radius) == (V3 { x: radius as i64, y: 0, z: 0 }),
{
    vstd::arithmetic::div_mod::lemma_div_of0(FX_SCALE as int);
    assert(0int * FX_SCALE == 0);
    assert(time_fx(0) == 0);
    assert(0int * 655 == 0);
    assert(fmul(0, 655) == 0);
    lemma_trig_zero();
    crate::fx::lemma_tdiv_exact(radius, FX_SCALE as int);
    assert(fmul(radius, FX_ONE as int) == radius);
    assert(radius * 0 == 0) by (nonlinear_arith);
    assert(fmul(radius, 0) == 0);
}

/// At the tick nearest a quarter period (157 ticks of a hundredth of a
/// radian each), the moon sits at `(0, 0, radius)` to within a fraction of
/// a percent, for every nonnegative representable radius: the angle's
/// cosine evaluates to 110 raw units (about 0.0017) and its sine to one
/// raw unit under one, so the x component is at most `0.0017 radius` and
/// the z component within `radius / 65536 + 1` of the radius.
pub proof fn lemma_moon_position_quarter(radius: int)
    requires
        0 <= radius <= crate::fx::FX_MAX,
    ensures
        moon_position_spec(157, radius).y == 0,
        moon_position_spec(157, radius).x as int == fmul(radius, 110),
        moon_position_spec(157, radius).z as int == fmul(radius, 65535),
        0 <= fmul(radius, 110),
        65536 * fmul(radius, 110) <= 110 * radius,
        0 <= fmul(radius, 65535) <= radius,
        65535 * radius <= 65536 * fmul(radius, 65535) + 65535,
{
    let s = FX_SCALE as int;
    assert(time_fx(157) == 10289152);
    assert(fmul(10289152, 655) == 102835) by {
        assert(10289152int * 655 == 6739394560);
        assert(6739394560int / 65536 == 102835);
    }
    assert(fcos(102835) == 110) by {
        assert(102835int % (TWO_PI_RAW as int) == 102835) by {
            vstd::arithmetic::div_mod::lemma_small_mod(102835nat, TWO_PI_RAW as nat);
        }
    }
    assert(fsin(102835) == 65535) by {
        assert(102835int % (TWO_PI_RAW as int) == 102835) by {
            vstd::arithmetic::div_mod::lemma_small_mod(102835nat, TWO_PI_RAW as nat);
        }
        assert(102835int * (PI_RAW - 102835) == 10597352420);
        assert(16 * 10597352420int * FX_SCALE == 11112129411153920);
        assert(5 * PI_RAW * PI_RAW - 4 * 10597352420int == 169557874165);
        assert(11112129411153920int / 169557874165 == 65535);
    }
    assert(radius * 110 >= 0) by (nonlinear_arith)
        requires radius >= 0;
    assert(radius * 65535 >= 0) by (nonlinear_arith)
        requires radius >= 0;
    let tx = crate::fx::tdiv(radius * 110, s);
    let tz = crate::fx::tdiv(radius * 65535, s);
    assert(tx >= 0 && tz >= 0) by {
        vstd::arithmetic::div_mod::lemma_div_pos_is_pos(radius * 110, s);
        vstd::arithmetic::div_mod::lemma_div_pos_is_pos(radius * 65535, s);
    }
    assert(65536 * tx <= 110 * radius) by {
        vstd::arithmetic::div_mod::lemma_fundamental_div_mod(radius * 110, s);
        vstd::arithmetic::div_mod::lemma_mod_bound(radius * 110, s);
    }
    assert(tz <= radius) by {
        assert(radius * 65535 <= radius * 65536) by (nonlinear_arith)
            requires radius >= 0;
        vstd::arithmetic::div_mod::lemma_div_is_ordered(radius * 65535, radius * 65536, s);
        vstd::arithmetic::div_mod::lemma_div_multiples_vanish(radius, s);
        assert(radius * 65536 == 65536 * radius);
    }
    assert(tx <= radius) by {
        assert(radius * 110 <= radius * 65536) by (nonlinear_arith)
            requires radius >= 0;
        vstd::arithmetic::div_mod::lemma_div_is_ordered(radius * 110, radius * 65536, s);
        vstd::arithmetic::div_mod::lemma_div_multiples_vanish(radius, s);
        assert(radius * 65536 == 65536 * radius);
    }
    assert(65535 * radius <= 65536 * tz + 65535) by {
        vstd::arithmetic::div_mod::lemma_fundamental_div_mod(radius * 65535, s);
        vstd::arithmetic::div_mod::lemma_mod_bound(radius * 65535, s);
    }
}

/// The ring-planet program as a value: the banded body; the mode-1 branch
/// and the full composite coincide, as observed.
pub open spec fn ring_planet_spec(f: Fragment, u: Uniforms) -> Color {
    let band_color1 = Color { r: 189, g: 155, b: 107 };
    let band_color2 = Color { r: 210, g: 180, b: 140 };
    let band_color3 = Color { r: 255, g: 222, b: 173 };
    let flow_offset = fmul(time_fx(u.time as int), 52);
    let y_position = fadd(f.vertex_pos.y as int, flow_offset);
    let band_factor = ffract(fadd(fmul(fsin(fmul(y_position, 229376)), FX_HALF as int), FX_HALF as int));
    let band_color = band_blend_spec(band_factor, band_color1, band_color2, band_color3, band_color1);
    scale_spec(band_color, f.intensity as int)
}

/// The ringed body itself: slow warm bands. Its debug branch reports the
/// same lit bands as the full composite — the observed behavior is kept.
pub fn ring_planet_shader(fragment: &Fragment, uniforms: &Uniforms) -> (r: Color)
    ensures
        r == ring_planet_spec(*fragment, *uniforms),
{
    let band_color1 = Color::new(189, 155, 107);
    let band_color2 = Color::new(210, 180, 140);
    let band_color3 = Color::new(255, 222, 173);

    let flow_offset = fx_mul(fx_from_u32(uniforms.time), 52);
    let y_position = fx_add(fragment.vertex_pos.y, flow_offset);
    let band_factor =
        fx_fract(fx_add(fx_mul(fx_sin(fx_mul(y_position, 229376)), FX_HALF), FX_HALF));
    let band_color = band_blend(band_factor, band_color1, band_color2, band_color3, band_color1);

    if uniforms.debug_mode == 1 {
        band_color.scale(fragment.intensity)
    } else {
        band_color.scale(fragment.intensity)
    }
}

/// The ring program as a value.
pub open spec fn ring_spec(f: Fragment, u: Uniforms) -> Color {
    let base_color = Color { r: 255, g: 220, b: 80 };
    let shadow_color = Color { r: 150, g: 120, b: 60 };
    let light_direction = normalize_spec(V3 { x: 65536, y: 65536, z: 65536 });
    let normal = normalize_spec(f.vertex_pos);
    let light_intensity = fclamp(v3_dot_spec(normal, light_direction), 13107, FX_ONE as int);
    if u.debug_mode == 1 {
        scale_spec(base_color, f.intensity as int)
    } else {
        add_spec(
            scale_spec(base_color, light_intensity),
            scale_spec(shadow_color, fsub(FX_ONE as int, light_intensity)),
        )
    }
}

/// The flat ring mesh: a warm base shaded against a fixed diagonal light,
/// blended toward a shadow tone, with a floor of one fifth on the light so
/// the dark side never goes fully black. Mode 1 isolates the lit base.
pub fn ring_shader(fragment: &Fragment, uniforms: &Uniforms) -> (r: Color)
    ensures
        r == ring_spec(*fragment, *uniforms),
{
    let base_color = Color::new(255, 220, 80);
    let shadow_color = Color::new(150, 120, 60);

    let light_direction = v3_normalize(V3 { x: 65536, y: 65536, z: 65536 });
    let normal = v3_normalize(fragment.vertex_pos);
    let light_intensity = fx_clamp(v3_dot(normal, light_direction), 13107, FX_ONE);

    if uniforms.debug_mode == 1 {
        base_color.scale(fragment.intensity)
    } else {
        base_color
            .scale(light_intensity)
            .add_sat(&shadow_color.scale(fx_sub(FX_ONE, light_intensity)))
    }
}

/// The position in the unit square of one of the six drifting clouds.
pub open spec fn cloud_pos_spec(t: int, i: int) -> (int, int) {
    let angle = fadd(fmul(fdiv(sat(i * FX_SCALE), 393216), TWO_PI_RAW as int), fmul(t, 13107));
    let radius = fadd(13107, fmul(sat(i * FX_SCALE), 3277));
    (
        ffract(fadd(fmul(fcos(angle), radius), FX_HALF as int)),
        ffract(fadd(fmul(fsin(angle), radius), FX_HALF as int)),
    )
}

/// The left fold of the first `i` cloud circles over a surface point.
pub open spec fn cloud_fold(uu: int, vv: int, t: int, i: nat) -> Color
    decreases i,
{
    if i == 0 {
        Color { r: 0, g: 0, b: 0 }
    } else {
        let prev = cloud_fold(uu, vv, t, (i - 1) as nat);
        let p = cloud_pos_spec(t, i - 1);
        let dx = fsub(uu, p.0);
        let dy = fsub(vv, p.1);
        let d = fsqrt(fadd(fmul(dx, dx), fmul(dy, dy)));
        if d < 4915 {
            lerp_spec(prev, Color { r: 255, g: 255, b: 255 }, 45875)
        } else {
            prev
        }
    }
}

/// The earth program as a value.
pub open spec fn earth_spec(f: Fragment, u: Uniforms) -> Color {
    let x = f.vertex_pos.x as int;
    let y = f.vertex_pos.y as int;
    let z = f.vertex_pos.z as int;
    let theta = crate::trig::fasin(fdiv(y, FX_HALF as int));
    let phi = crate::trig::fatan2(z, x);
    let uu = fadd(fdiv(phi, TWO_PI_RAW as int), FX_HALF as int);
    let vv = fadd(fdiv(theta, PI_RAW as int), FX_HALF as int);
    let noise = fabs(fmul(fsin(fmul(uu, 471859)), fcos(fmul(vv, 471859))));
    let land_color = Color { r: 34, g: 139, b: 34 };
    let ocean_color = Color { r: 0, g: 105, b: 148 };
    let base_color = if noise > 36045 { land_color } else { ocean_color };
    let t = fmul(time_fx(u.time as int), 655);
    let ci_raw = fabs(fmul(
        fsin(fadd(fmul(uu, 524288), t)),
        fcos(fadd(fmul(vv, 524288), t)),
    ));
    let cloud_intensity = fmul(fclamp(fsub(ci_raw, FX_HALF as int), 0, FX_ONE as int), FX_HALF as int);
    let distance_from_center = fsqrt(fadd(fmul(uu, uu), fmul(vv, vv)));
    let cloud_color_final = cloud_fold(uu, vv, t, 6);
    if u.debug_mode == 1 {
        scale_spec(base_color, f.intensity as int)
    } else if u.debug_mode == 2 {
        scale_spec(Color { r: 255, g: 255, b: 255 }, cloud_intensity)
    } else if u.debug_mode == 3 {
        cloud_color_final
    } else if distance_from_center < 98304 {
        add_spec(
            scale_spec(base_color, fsub(FX_ONE as int, cloud_intensity)),
            cloud_color_final,
        )
    } else {
        base_color
    }
}

/// Continents and oceans from a sine field over spherical coordinates,
/// under an animated cloud layer: a drifting intensity veil plus six small
/// cloud circles orbiting the map, composited inside the atmosphere. Mode
/// 1 isolates the lit surface, 2 the cloud veil mask, 3 the cloud circles.
pub fn earth_shader(fragment: &Fragment, uniforms: &Uniforms) -> (r: Color)
    ensures
        r == earth_spec(*fragment, *uniforms),
{
    let x = fragment.vertex_pos.x;
    let y = fragment.vertex_pos.y;
    let z = fragment.vertex_pos.z;

    let theta = crate::trig::fx_asin(fx_div(y, FX_HALF));
    let phi = crate::trig::fx_atan2(z, x);
    let uu = fx_add(fx_div(phi, TWO_PI_RAW), FX_HALF);
    let vv = fx_add(fx_div(theta, PI_RAW), FX_HALF);

    let noise = fx_abs(fx_mul(fx_sin(fx_mul(uu, 471859)), fx_cos(fx_mul(vv, 471859))));
    let land_color = Color::new(34, 139, 34);
    let ocean_color = Color::new(0, 105, 148);
    let base_color = if noise > 36045 { land_color } else { ocean_color };

    let t = fx_mul(fx_from_u32(uniforms.time), 655);
    let ci_raw = fx_abs(fx_mul(
        fx_sin(fx_add(fx_mul(uu, 524288), t)),
        fx_cos(fx_add(fx_mul(vv, 524288), t)),
    ));
    let cloud_intensity = fx_mul(fx_clamp(fx_sub(ci_raw, FX_HALF), 0, FX_ONE), FX_HALF);

    let distance_from_center = fx_sqrt(fx_add(fx_mul(uu, uu), fx_mul(vv, vv)));

    let mut cloud_color_final = Color::new(0, 0, 0);
    let mut i: usize = 0;
    while i < 6
        invariant
            i <= 6,
            cloud_color_final == cloud_fold(uu as int, vv as int, t as int, i as nat),
        decreases 6 - i,
    {
        let i_fx = fx_from_u32(i as u32);
        let angle = fx_add(fx_mul(fx_div(i_fx, 393216), TWO_PI_RAW), fx_mul(t, 13107));
        let radius = fx_add(13107, fx_mul(i_fx, 3277));
        let cx = fx_fract(fx_add(fx_mul(fx_cos(angle), radius), FX_HALF));
        let cy = fx_fract(fx_add(fx_mul(fx_sin(angle), radius), FX_HALF));
        let dx = fx_sub(uu, cx);
        let dy = fx_sub(vv, cy);
        let distance_to_cloud = fx_sqrt(fx_add(fx_mul(dx, dx), fx_mul(dy, dy)));
        if distance_to_cloud < 4915 {
            cloud_color_final = cloud_color_final.lerp(&Color::new(255, 255, 255), 45875);
        }
        i = i + 1;
    }

    if uniforms.debug_mode == 1 {
        base_color.scale(fragment.intensity)
    } else if uniforms.debug_mode == 2 {
        Color::new(255, 255, 255).scale(cloud_intensity)
    } else if uniforms.debug_mode == 3 {
        cloud_color_final
    } else if distance_from_center < 98304 {
        base_color
            .scale(fx_sub(FX_ONE, cloud_intensity))
            .add_sat(&cloud_color_final)
    } else {
        base_color
    }
}

/// The dispatch over the nine programs as a value.
#[verifier::opaque]
pub open spec fn fragment_shader_spec(f: Fragment, u: Uniforms, s: ShaderType) -> Color {
    match s {
        ShaderType::Sun => sun_spec(f, u),
        ShaderType::Earth => earth_spec(f, u),
        ShaderType::GasPlanet => gas_planet_spec(f, u),
        ShaderType::RingPlanet => ring_planet_spec(f, u),
        ShaderType::RockyPlanet => rocky_planet_spec(f, u),
        ShaderType::IcyPlanet => icy_planet_spec(f, u),
        ShaderType::VolcanicPlanet => volcanic_planet_spec(f, u),
        ShaderType::Moon => moon_spec(f, u),
        ShaderType::Ring => ring_spec(f, u),
    }
}

/// Runs the selected surface program on one fragment.
pub fn fragment_shader(fragment: &Fragment, uniforms: &Uniforms, current_shader: &ShaderType) -> (r: Color)
    ensures
        r == fragment_shader_spec(*fragment, *uniforms, *current_shader),
{
    proof {
        reveal(fragment_shader_spec);
    }
    match current_shader {
        ShaderType::Sun => sun_shader(fragment, uniforms),
        ShaderType::Earth => earth_shader(fragment, uniforms),
        ShaderType::GasPlanet => gas_planet_shader(fragment, uniforms),
        ShaderType::RingPlanet => ring_planet_shader(fragment, uniforms),
        ShaderType::RockyPlanet => rocky_planet_shader(fragment, uniforms),
        ShaderType::IcyPlanet => icy_planet_shader(fragment, uniforms),
        ShaderType::VolcanicPlanet => volcanic_planet_shader(fragment, uniforms),
        ShaderType::Moon => moon_shader(fragment, uniforms),
        ShaderType::Ring => ring_shader(fragment, uniforms),
    }
}

} // verus!
