//! The render pass and the scene composer.
//!
//! `render` drives one full pass: every vertex through the vertex stage,
//! consecutive triples assembled into triangles (trailing vertices
//! dropped), each triangle rasterized, each fragment shaded and written
//! through the depth-tested pixel sink. Its contract pins the final color
//! and depth of every pixel as a fold over the triangles in order. The
//! composer functions issue the multi-pass scenes: the ringed body's extra
//! ring pass and the rocky body's orbiting moon pass.

use vstd::prelude::*;
use crate::color::hex_of;
use crate::fragment::Fragment;
use crate::framebuffer::Framebuffer;
use crate::fx::{Fx, FX_ONE};
use crate::geom::V3;
use crate::pipeline::{Uniforms, create_model_matrix, model_matrix_spec};
use crate::raster::{coord_ok, fragment_at, pix_covers, present, rasterize_triangle};
use crate::shaders::{
    ShaderType, fragment_shader, fragment_shader_spec, moon_position, moon_position_spec,
    vertex_shader, vertex_shader_spec,
};
use crate::vertex::Vertex;

verus! {

/// One pixel's packed color and depth after the first `k` consecutive
/// vertex triples of a pass have been drawn over the starting state `cur`:
/// each triangle that covers the pixel contributes its fragment's shaded
/// color exactly when the fragment's depth is strictly nearer than the
/// depth recorded so far.
pub open spec fn pass_pixel(
    u: Uniforms,
    s: ShaderType,
    verts: Seq<Vertex>,
    k: nat,
    x: int,
    y: int,
    cur: (u32, Fx),
) -> (u32, Fx)
    decreases k,
{
    if k == 0 {
        cur
    } else {
        let prev = pass_pixel(u, s, verts, (k - 1) as nat, x, y, cur);
        let t0 = vertex_shader_spec(verts[3 * (k - 1)], u);
        let t1 = vertex_shader_spec(verts[3 * (k - 1) + 1], u);
        let t2 = vertex_shader_spec(verts[3 * (k - 1) + 2], u);
        if pix_covers(
            t0.transformed_position,
            t1.transformed_position,
            t2.transformed_position,
            x,
            y,
        ) {
            let f = fragment_at(t0, t1, t2, x, y);
            if f.depth < prev.1 {
                (hex_of(fragment_shader_spec(f, u, s)) as u32, f.depth)
            } else {
                prev
            }
        } else {
            prev
        }
    }
}

/// Whether a fragment among the first `j` of a sequence sits at the given
/// pixel.
pub open spec fn present_upto(s: Seq<Fragment>, j: int, x: int, y: int) -> bool {
    exists|k: int| 0 <= k < j && (#[trigger] s[k]).x == x && s[k].y == y
}

/// Screen-space outputs of the vertex stage always admit the exact edge
/// arithmetic: every component is a saturated fixed-point value.
pub proof fn lemma_vertex_shader_in_range(v: Vertex, u: Uniforms)
    ensures
        coord_ok(vertex_shader_spec(v, u).transformed_position),
{
    reveal(vertex_shader_spec);
}

/// An in-frame pixel's row-major index lies inside the buffer.
proof fn lemma_pix_in_range(w: int, h: int, x: int, y: int)
    requires
        0 <= x < w,
        0 <= y < h,
    ensures
        0 <= y * w + x < w * h,
{
    assert(y * w + x < (y + 1) * w && (y + 1) * w <= h * w && h * w == w * h) by (nonlinear_arith)
        requires 0 <= x < w && 0 <= y && y + 1 <= h;
    assert(y * w >= 0) by (nonlinear_arith)
        requires y >= 0 && w >= 0;
}

/// Distinct in-frame pixel coordinates have distinct row-major indices.
proof fn lemma_pix_injective(w: int, x1: int, y1: int, x2: int, y2: int)
    requires
        0 <= x1 < w,
        0 <= x2 < w,
        y1 >= 0,
        y2 >= 0,
        !(x1 == x2 && y1 == y2),
    ensures
        y1 * w + x1 != y2 * w + x2,
{
    if y1 == y2 {
    } else if y1 < y2 {
        assert(y1 * w + x1 < (y1 + 1) * w && (y1 + 1) * w <= y2 * w && y2 * w <= y2 * w + x2)
            by (nonlinear_arith)
            requires 0 <= x1 < w && 0 <= x2 && y1 + 1 <= y2;
    } else {
        assert(y2 * w + x2 < (y2 + 1) * w && (y2 + 1) * w <= y1 * w && y1 * w <= y1 * w + x1)
            by (nonlinear_arith)
            requires 0 <= x2 < w && 0 <= x1 && y2 + 1 <= y1;
    }
}

/// Runs one full transform, rasterize and shade pass of the vertex stream
/// over the framebuffer with the selected shader variant.
///
/// The final color and depth of every in-frame pixel equal the fold
/// `pass_pixel` of the `len / 3` consecutive vertex triples, in order,
/// over the pixel's starting state; trailing vertices are dropped.
#[verifier::rlimit(100)]
pub fn render(
    framebuffer: &mut Framebuffer,
    uniforms: &Uniforms,
    vertex_array: &Vec<Vertex>,
    current_shader: &ShaderType,
)
    requires
        old(framebuffer).wf(),
        old(framebuffer).width <= 0x40000000,
        old(framebuffer).height <= 0x40000000,
    ensures
        final(framebuffer).wf(),
        final(framebuffer).width == old(framebuffer).width,
        final(framebuffer).height == old(framebuffer).height,
        final(framebuffer).background_color == old(framebuffer).background_color,
        forall|x: int, y: int|
            #![trigger old(framebuffer).pix(x, y)]
            0 <= x < old(framebuffer).width && 0 <= y < old(framebuffer).height ==> {
                let p = old(framebuffer).pix(x, y);
                let after = pass_pixel(
                    *uniforms,
                    *current_shader,
                    vertex_array@,
                    (vertex_array@.len() / 3) as nat,
                    x,
                    y,
                    (old(framebuffer).buffer@[p], old(framebuffer).zbuffer@[p]),
                );
                final(framebuffer).buffer@[p] == after.0
                    && final(framebuffer).zbuffer@[p] == after.1
            },
{
    // Vertex stage.
    let mut transformed_vertices: Vec<Vertex> = Vec::new();
    let mut i: usize = 0;
    while i < vertex_array.len()
        invariant
            i <= vertex_array@.len(),
            transformed_vertices@.len() == i,
            forall|j: int| 0 <= j < i ==> #[trigger] transformed_vertices@[j]
                == vertex_shader_spec(vertex_array@[j], *uniforms),
        decreases vertex_array@.len() - i,
    {
        let transformed = vertex_shader(&vertex_array[i], uniforms);
        transformed_vertices.push(transformed);
        i = i + 1;
    }

    // Primitive assembly, rasterization and fragment processing, one
    // consecutive triple at a time.
    let n_tri: usize = transformed_vertices.len() / 3;
    proof {
        vstd::arithmetic::div_mod::lemma_fundamental_div_mod(vertex_array@.len() as int, 3);
        vstd::arithmetic::div_mod::lemma_mod_bound(vertex_array@.len() as int, 3);
    }
    let width = framebuffer.width;
    let height = framebuffer.height;
    let mut t: usize = 0;
    while t < n_tri
        invariant
            t <= n_tri,
            vertex_array@.len() <= usize::MAX,
            n_tri == vertex_array@.len() / 3,
            3 * n_tri <= vertex_array@.len(),
            transformed_vertices@.len() == vertex_array@.len(),
            forall|j: int| 0 <= j < vertex_array@.len() ==> #[trigger] transformed_vertices@[j]
                == vertex_shader_spec(vertex_array@[j], *uniforms),
            framebuffer.wf(),
            framebuffer.width == old(framebuffer).width,
            framebuffer.height == old(framebuffer).height,
            framebuffer.background_color == old(framebuffer).background_color,
            width == old(framebuffer).width,
            height == old(framebuffer).height,
            width <= 0x40000000,
            height <= 0x40000000,
            forall|x: int, y: int|
                #![trigger old(framebuffer).pix(x, y)]
                0 <= x < width && 0 <= y < height ==> {
                    let p = old(framebuffer).pix(x, y);
                    let st = pass_pixel(
                        *uniforms,
                        *current_shader,
                        vertex_array@,
                        t as nat,
                        x,
                        y,
                        (old(framebuffer).buffer@[p], old(framebuffer).zbuffer@[p]),
                    );
                    framebuffer.buffer@[p] == st.0 && framebuffer.zbuffer@[p] == st.1
                },
        decreases n_tri - t,
    {
        assert(3 * t + 2 < transformed_vertices@.len());
        let v0 = transformed_vertices[3 * t];
        let v1 = transformed_vertices[3 * t + 1];
        let v2 = transformed_vertices[3 * t + 2];
        proof {
            lemma_vertex_shader_in_range(vertex_array@[3 * t as int], *uniforms);
            lemma_vertex_shader_in_range(vertex_array@[3 * t as int + 1], *uniforms);
            lemma_vertex_shader_in_range(vertex_array@[3 * t as int + 2], *uniforms);
        }
        let fragments = rasterize_triangle(&v0, &v1, &v2, width, height);
        let ghost frs = fragments@;
        let mut j: usize = 0;
        while j < fragments.len()
            invariant
                j <= frs.len(),
                fragments@ == frs,
                t < n_tri,
                vertex_array@.len() <= usize::MAX,
                n_tri == vertex_array@.len() / 3,
                3 * n_tri <= vertex_array@.len(),
                v0 == vertex_shader_spec(vertex_array@[3 * t as int], *uniforms),
                v1 == vertex_shader_spec(vertex_array@[3 * t as int + 1], *uniforms),
                v2 == vertex_shader_spec(vertex_array@[3 * t as int + 2], *uniforms),
                framebuffer.wf(),
                framebuffer.width == old(framebuffer).width,
                framebuffer.height == old(framebuffer).height,
                framebuffer.background_color == old(framebuffer).background_color,
                width == old(framebuffer).width,
                height == old(framebuffer).height,
                width <= 0x40000000,
                height <= 0x40000000,
                forall|jx: int, jy: int| 0 <= jx < width && 0 <= jy < height ==> (
                    #[trigger] present(frs, jx, jy)
                        <==> pix_covers(
                            v0.transformed_position,
                            v1.transformed_position,
                            v2.transformed_position,
                            jx,
                            jy,
                        )
                ),
                forall|k: int| 0 <= k < frs.len() ==> {
                    let f = #[trigger] frs[k];
                    &&& f.x < width
                    &&& f.y < height
                    &&& f == fragment_at(v0, v1, v2, f.x as int, f.y as int)
                },
                forall|k1: int, k2: int|
                    #![trigger frs[k1], frs[k2]]
                    0 <= k1 < k2 < frs.len() ==> !(frs[k1].x == frs[k2].x && frs[k1].y == frs[k2].y),
                forall|x: int, y: int|
                    #![trigger old(framebuffer).pix(x, y)]
                    0 <= x < width && 0 <= y < height ==> {
                        let p = old(framebuffer).pix(x, y);
                        let st = if present_upto(frs, j as int, x, y) {
                            pass_pixel(
                                *uniforms,
                                *current_shader,
                                vertex_array@,
                                (t + 1) as nat,
                                x,
                                y,
                                (old(framebuffer).buffer@[p], old(framebuffer).zbuffer@[p]),
                            )
                        } else {
                            pass_pixel(
                                *uniforms,
                                *current_shader,
                                vertex_array@,
                                t as nat,
                                x,
                                y,
                                (old(framebuffer).buffer@[p], old(framebuffer).zbuffer@[p]),
                            )
                        };
                        framebuffer.buffer@[p] == st.0 && framebuffer.zbuffer@[p] == st.1
                    },
            decreases frs.len() - j,
        {
            let fragment = &fragments[j];
            let fx = fragment.x;
            let fy = fragment.y;
            proof {
                assert(!present_upto(frs, j as int, fx as int, fy as int)) by {
                    if present_upto(frs, j as int, fx as int, fy as int) {
                        let k = choose|k: int| 0 <= k < j
                            && (#[trigger] frs[k]).x == fx as int && frs[k].y == fy as int;
                        assert(!(frs[k].x == frs[j as int].x && frs[k].y == frs[j as int].y));
                    }
                }
                assert(3 * ((t + 1) as nat - 1) == 3 * t as int);
            }
            let shaded_color = fragment_shader(fragment, uniforms, current_shader);
            let color = shaded_color.to_hex();
            framebuffer.set_current_color(color);
            framebuffer.point(fx, fy, fragment.depth);
            proof {
                assert forall|x: int, y: int|
                    0 <= x < width && 0 <= y < height implies {
                        let p = #[trigger] old(framebuffer).pix(x, y);
                        let st = if present_upto(frs, j + 1, x, y) {
                            pass_pixel(
                                *uniforms,
                                *current_shader,
                                vertex_array@,
                                (t + 1) as nat,
                                x,
                                y,
                                (old(framebuffer).buffer@[p], old(framebuffer).zbuffer@[p]),
                            )
                        } else {
                            pass_pixel(
                                *uniforms,
                                *current_shader,
                                vertex_array@,
                                t as nat,
                                x,
                                y,
                                (old(framebuffer).buffer@[p], old(framebuffer).zbuffer@[p]),
                            )
                        };
                        framebuffer.buffer@[p] == st.0 && framebuffer.zbuffer@[p] == st.1
                    } by {
                    lemma_pix_in_range(width as int, height as int, x, y);
                    lemma_pix_in_range(width as int, height as int, fx as int, fy as int);
                    if x == fx && y == fy {
                        assert(present_upto(frs, j + 1, x, y)) by {
                            assert((frs[j as int]).x == x && frs[j as int].y == y);
                        }
                        assert(present(frs, x, y)) by {
                            assert((frs[j as int]).x == x && frs[j as int].y == y);
                        }
                        assert(frs[j as int] == fragment_at(v0, v1, v2, x, y));
                    } else {
                        assert(present_upto(frs, j + 1, x, y) == present_upto(frs, j as int, x, y)) by {
                            if present_upto(frs, j + 1, x, y) {
                                let k = choose|k: int| 0 <= k < j + 1
                                    && (#[trigger] frs[k]).x == x && frs[k].y == y;
                                assert(k < j);
                            }
                        }
                        assert(old(framebuffer).pix(x, y) != old(framebuffer).pix(fx as int, fy as int)) by {
                            lemma_pix_injective(width as int, x, y, fx as int, fy as int);
                        }
                    }
                }
            }
            j = j + 1;
        }
        proof {
            assert forall|x: int, y: int|
                0 <= x < width && 0 <= y < height implies
                present_upto(frs, frs.len() as int, x, y) == pix_covers(
                    v0.transformed_position,
                    v1.transformed_position,
                    v2.transformed_position,
                    x,
                    y,
                ) by {
                assert(present_upto(frs, frs.len() as int, x, y) == present(frs, x, y));
            }
            assert(3 * ((t + 1) as nat - 1) == 3 * t as int);
        }
        t = t + 1;
    }
}

/// The derived transform context of the ring pass: the shared view,
/// projection and viewport with an independently scaled, non-rotated model
/// matrix at three fifths scale.
pub open spec fn ring_uniforms_spec(u: Uniforms) -> Uniforms {
    Uniforms {
        model_matrix: model_matrix_spec(
            V3 { x: 0i64, y: 0i64, z: 0i64 },
            39322,
            V3 { x: 0i64, y: 0i64, z: 0i64 },
        ),
        ..u
    }
}

/// Draws the ring mesh over the current frame with the ring shader, under
/// the derived ring transform context.
pub fn render_rings(framebuffer: &mut Framebuffer, uniforms: &Uniforms, vertex_array: &Vec<Vertex>)
    requires
        old(framebuffer).wf(),
        old(framebuffer).width <= 0x40000000,
        old(framebuffer).height <= 0x40000000,
    ensures
        final(framebuffer).wf(),
        final(framebuffer).width == old(framebuffer).width,
        final(framebuffer).height == old(framebuffer).height,
        final(framebuffer).background_color == old(framebuffer).background_color,
        forall|x: int, y: int|
            #![trigger old(framebuffer).pix(x, y)]
            0 <= x < old(framebuffer).width && 0 <= y < old(framebuffer).height ==> {
                let p = old(framebuffer).pix(x, y);
                let after = pass_pixel(
                    ring_uniforms_spec(*uniforms),
                    ShaderType::Ring,
                    vertex_array@,
                    (vertex_array@.len() / 3) as nat,
                    x,
                    y,
                    (old(framebuffer).buffer@[p], old(framebuffer).zbuffer@[p]),
                );
                final(framebuffer).buffer@[p] == after.0
                    && final(framebuffer).zbuffer@[p] == after.1
            },
{
    let ring_uniforms = Uniforms {
        model_matrix: create_model_matrix(
            V3 { x: 0, y: 0, z: 0 },
            39322,
            V3 { x: 0, y: 0, z: 0 },
        ),
        view_matrix: uniforms.view_matrix,
        projection_matrix: uniforms.projection_matrix,
        viewport_matrix: uniforms.viewport_matrix,
        time: uniforms.time,
        debug_mode: uniforms.debug_mode,
    };
    assert(ring_uniforms == ring_uniforms_spec(*uniforms));
    let ring_shader_kind = ShaderType::Ring;
    render(framebuffer, &ring_uniforms, vertex_array, &ring_shader_kind);
}

/// The derived transform context of the moon pass: the body's context with
/// the model matrix translated to the moon's orbital position at the
/// current time (orbit radius 1.3) and scaled to half size.
pub open spec fn moon_uniforms_spec(u: Uniforms) -> Uniforms {
    Uniforms {
        model_matrix: model_matrix_spec(
            moon_position_spec(u.time as int, 85197),
            32768,
            V3 { x: 0i64, y: 0i64, z: 0i64 },
        ),
        ..u
    }
}

/// The rocky-body-with-moon scene: one pass over the mesh with the rocky
/// shader, then one pass over the same mesh with the moon shader at the
/// orbit-displaced, half-scale model matrix.
pub fn render_scene5(framebuffer: &mut Framebuffer, uniforms: &Uniforms, vertex_array: &Vec<Vertex>)
    requires
        old(framebuffer).wf(),
        old(framebuffer).width <= 0x40000000,
        old(framebuffer).height <= 0x40000000,
    ensures
        final(framebuffer).wf(),
        final(framebuffer).width == old(framebuffer).width,
        final(framebuffer).height == old(framebuffer).height,
        final(framebuffer).background_color == old(framebuffer).background_color,
        forall|x: int, y: int|
            #![trigger old(framebuffer).pix(x, y)]
            0 <= x < old(framebuffer).width && 0 <= y < old(framebuffer).height ==> {
                let p = old(framebuffer).pix(x, y);
                let n = (vertex_array@.len() / 3) as nat;
                let first = pass_pixel(
                    *uniforms,
                    ShaderType::RockyPlanet,
                    vertex_array@,
                    n,
                    x,
                    y,
                    (old(framebuffer).buffer@[p], old(framebuffer).zbuffer@[p]),
                );
                let second = pass_pixel(
                    moon_uniforms_spec(*uniforms),
                    ShaderType::Moon,
                    vertex_array@,
                    n,
                    x,
                    y,
                    first,
                );
                final(framebuffer).buffer@[p] == second.0
                    && final(framebuffer).zbuffer@[p] == second.1
            },
{
    let moon_pos = moon_position(uniforms.time, 85197);
    let body_shader = ShaderType::RockyPlanet;
    render(framebuffer, uniforms, vertex_array, &body_shader);
    let ghost mid = *framebuffer;
    let moon_uniforms = Uniforms {
        model_matrix: create_model_matrix(moon_pos, 32768, V3 { x: 0, y: 0, z: 0 }),
        view_matrix: uniforms.view_matrix,
        projection_matrix: uniforms.projection_matrix,
        viewport_matrix: uniforms.viewport_matrix,
        time: uniforms.time,
        debug_mode: uniforms.debug_mode,
    };
    assert(moon_uniforms == moon_uniforms_spec(*uniforms));
    let moon_shader_kind = ShaderType::Moon;
    render(framebuffer, &moon_uniforms, vertex_array, &moon_shader_kind);
    proof {
        assert(forall|x: int, y: int|
            #![trigger old(framebuffer).pix(x, y)]
            0 <= x < old(framebuffer).width && 0 <= y < old(framebuffer).height
                ==> old(framebuffer).pix(x, y) == mid.pix(x, y));
    }
}

/// The geometric recipe of a scene: translation, uniform scale, rotation,
/// camera eye and camera up. Every scene index maps to the same recipe —
/// the scenes vary only in the shader variant.
pub fn setup_scene(scene_number: u32) -> (r: (V3, Fx, V3, V3, V3))
    ensures
        r == (
            V3 { x: 0i64, y: 0i64, z: 0i64 },
            FX_ONE,
            V3 { x: 0i64, y: 0i64, z: 0i64 },
            V3 { x: 0i64, y: 0i64, z: 327680i64 },
            V3 { x: 0i64, y: 65536i64, z: 0i64 },
        ),
{
    let origin = V3 { x: 0, y: 0, z: 0 };
    let eye = V3 { x: 0, y: 0, z: 327680 };
    let up = V3 { x: 0, y: 65536, z: 0 };
    match scene_number {
        1 => (origin, FX_ONE, origin, eye, up),
        2 => (origin, FX_ONE, origin, eye, up),
        3 => (origin, FX_ONE, origin, eye, up),
        4 => (origin, FX_ONE, origin, eye, up),
        5 => (origin, FX_ONE, origin, eye, up),
        6 => (origin, FX_ONE, origin, eye, up),
        7 => (origin, FX_ONE, origin, eye, up),
        _ => (origin, FX_ONE, origin, eye, up),
    }
}

/// The shader variant a scene index selects.
pub fn scene_shader(scene_number: u32) -> (s: ShaderType)
    ensures
        scene_number == 1 ==> s == ShaderType::Sun,
        scene_number == 2 ==> s == ShaderType::Earth,
        scene_number == 3 ==> s == ShaderType::GasPlanet,
        scene_number == 4 ==> s == ShaderType::RingPlanet,
        scene_number == 5 ==> s == ShaderType::RockyPlanet,
        scene_number == 6 ==> s == ShaderType::IcyPlanet,
        scene_number == 7 ==> s == ShaderType::VolcanicPlanet,
        !(1 <= scene_number <= 7) ==> s == ShaderType::Sun,
{
    match scene_number {
        1 => ShaderType::Sun,
        2 => ShaderType::Earth,
        3 => ShaderType::GasPlanet,
        4 => ShaderType::RingPlanet,
        5 => ShaderType::RockyPlanet,
        6 => ShaderType::IcyPlanet,
        7 => ShaderType::VolcanicPlanet,
        _ => ShaderType::Sun,
    }
}

} // verus!
