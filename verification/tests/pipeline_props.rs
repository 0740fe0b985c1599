use planets_render::camera::Camera;
use planets_render::color::Color;
use planets_render::fragment::Fragment;
use planets_render::framebuffer::Framebuffer;
use planets_render::fx::{fx_add, fx_mul, FX_ONE};
use planets_render::geom::V3;
use planets_render::pipeline::Uniforms;
use planets_render::shaders::{
    fragment_shader, moon_position, sun_shader, vertex_shader, ShaderType,
};
use planets_render::pipeline::{
    create_model_matrix, create_perspective_matrix, create_view_matrix, create_viewport_matrix,
};
use planets_render::raster::rasterize_triangle;
use planets_render::scene::{render, render_scene5, scene_shader, setup_scene};
use planets_render::trig::{fx_cos, fx_sin};
use planets_render::vertex::Vertex;

fn v3(x: i64, y: i64, z: i64) -> V3 {
    V3 { x, y, z }
}

fn fxi(v: i64) -> i64 {
    v * 65536
}

#[test]
fn lerp_endpoints_exact() {
    let a = Color::new(12, 200, 7);
    let b = Color::new(255, 0, 99);
    assert_eq!(a.lerp(&b, 0), a);
    assert_eq!(a.lerp(&b, FX_ONE), b);
}

#[test]
fn scale_saturates_on_emission() {
    let c = Color::new(200, 200, 10);
    let boosted = c.scale(98304); // factor 1.5 clamps at the channel ceiling
    assert_eq!(boosted, Color::new(255, 255, 15));
}

#[test]
fn to_hex_packs_channels() {
    assert_eq!(Color::new(0x12, 0x34, 0x56).to_hex(), 0x123456);
}

#[test]
fn moon_position_at_time_zero() {
    let radius = 85197; // 1.3
    let p = moon_position(0, radius);
    assert_eq!(p, V3 { x: radius, y: 0, z: 0 });
}

#[test]
fn moon_position_quarter_period() {
    // A hundredth of a radian per tick: a quarter period is about 157 ticks.
    let radius = fxi(1);
    let p = moon_position(157, radius);
    assert!(p.x.abs() < 600, "x = {}", p.x);
    assert!((p.z - radius).abs() < 600, "z = {}", p.z);
    assert_eq!(p.y, 0);
}

fn fragment_at_origin() -> Fragment {
    Fragment {
        x: 0,
        y: 0,
        depth: 0,
        vertex_pos: v3(0, 0, fxi(1)),
        normal: v3(0, 0, fxi(1)),
        intensity: FX_ONE,
    }
}

fn base_uniforms(debug_mode: u32) -> Uniforms {
    let eye = v3(0, 0, fxi(5));
    let center = v3(0, 0, 0);
    let up = v3(0, fxi(1), 0);
    Uniforms {
        model_matrix: create_model_matrix(v3(0, 0, 0), fxi(1), v3(0, 0, 0)),
        view_matrix: create_view_matrix(eye, center, up),
        projection_matrix: create_perspective_matrix(fxi(800), fxi(600)),
        viewport_matrix: create_viewport_matrix(fxi(800), fxi(600)),
        time: 0,
        debug_mode,
    }
}

#[test]
fn sun_debug2_at_origin_is_innermost_color() {
    let frag = Fragment {
        vertex_pos: v3(0, 0, 0),
        ..fragment_at_origin()
    };
    let u = base_uniforms(2);
    assert_eq!(sun_shader(&frag, &u), Color::new(255, 255, 255));
}

#[test]
fn debug_zero_differs_across_variants() {
    let frag = Fragment {
        x: 3,
        y: 4,
        depth: 0,
        vertex_pos: v3(13107, 19661, 26214),
        normal: v3(6554, 13107, 62000),
        intensity: FX_ONE,
    };
    let u = base_uniforms(0);
    let shaders = [
        ShaderType::Sun,
        ShaderType::Earth,
        ShaderType::GasPlanet,
        ShaderType::RingPlanet,
        ShaderType::RockyPlanet,
        ShaderType::Moon,
        ShaderType::IcyPlanet,
        ShaderType::VolcanicPlanet,
        ShaderType::Ring,
    ];
    let colors: Vec<Color> = shaders.iter().map(|s| fragment_shader(&frag, &u, s)).collect();
    for i in 0..colors.len() {
        for j in 0..colors.len() {
            if i != j {
                assert_ne!(colors[i], colors[j], "variants {} and {} coincide", i, j);
            }
        }
    }
}

#[test]
fn orbit_roundtrip_restores_eye() {
    let mut cam = Camera::new(v3(0, 0, fxi(5)), v3(0, 0, 0), v3(0, fxi(1), 0));
    let before = cam.eye();
    cam.orbit(4118, 0);
    cam.orbit(-4118, 0);
    assert_eq!(cam.eye(), before);
}

#[test]
fn camera_initial_eye_recovered() {
    let cam = Camera::new(v3(0, 0, fxi(5)), v3(0, 0, 0), v3(0, fxi(1), 0));
    let eye = cam.eye();
    assert_eq!(eye, v3(0, 0, fxi(5)));
}

#[test]
fn on_axis_vertex_maps_to_framebuffer_center() {
    let u = base_uniforms(0);
    let vert = Vertex::new(
        v3(0, 0, 0),
        v3(0, 0, fxi(1)),
        planets_render::geom::V2 { x: 0, y: 0 },
        Color::new(255, 255, 255),
    );
    let out = vertex_shader(&vert, &u);
    // The viewport maps the on-axis point to the exact center pixel.
    assert_eq!(out.transformed_position.x, fxi(400));
    assert_eq!(out.transformed_position.y, fxi(300));
}

#[test]
fn rasterizer_fragments_are_inside_and_lit() {
    let mut v0 = Vertex::new(v3(0, 0, 0), v3(0, 0, fxi(1)), planets_render::geom::V2 { x: 0, y: 0 }, Color::new(1, 2, 3));
    let mut v1 = v0;
    let mut v2 = v0;
    v0.transformed_position = v3(fxi(10), fxi(10), 0);
    v1.transformed_position = v3(fxi(30), fxi(10), 0);
    v2.transformed_position = v3(fxi(20), fxi(30), 0);
    v0.transformed_normal = v3(0, 0, fxi(1));
    v1.transformed_normal = v3(0, 0, fxi(1));
    v2.transformed_normal = v3(0, 0, fxi(1));
    let frags = rasterize_triangle(&v0, &v1, &v2, 100, 100);
    assert!(!frags.is_empty());
    for f in &frags {
        assert!(f.x < 100 && f.y < 100);
        assert!(f.x >= 10 && f.x <= 30 && f.y >= 10 && f.y <= 30);
        assert!(f.intensity >= 6554 && f.intensity <= FX_ONE);
    }
    // Interior sample pixel is present.
    assert!(frags.iter().any(|f| f.x == 20 && f.y == 15));
}

#[test]
fn adjacent_triangles_share_edge_without_overlap_or_gap() {
    // A quad split along a diagonal; every quad pixel lands in exactly one triangle.
    let base = Vertex::new(v3(0, 0, 0), v3(0, 0, fxi(1)), planets_render::geom::V2 { x: 0, y: 0 }, Color::new(0, 0, 0));
    let mk = |x: i64, y: i64| {
        let mut v = base;
        v.transformed_position = v3(fxi(x), fxi(y), 0);
        v.transformed_normal = v3(0, 0, fxi(1));
        v
    };
    let a = mk(5, 5);
    let b = mk(25, 5);
    let c = mk(25, 25);
    let d = mk(5, 25);
    let t1 = rasterize_triangle(&a, &b, &c, 40, 40);
    let t2 = rasterize_triangle(&a, &c, &d, 40, 40);
    let mut grid = [[0u32; 40]; 40];
    for f in t1.iter().chain(t2.iter()) {
        grid[f.y][f.x] += 1;
    }
    for y in 0..40 {
        for x in 0..40 {
            assert!(grid[y][x] <= 1, "pixel ({}, {}) rasterized twice", x, y);
            if x > 5 && x < 25 && y > 5 && y < 25 {
                assert_eq!(grid[y][x], 1, "gap at ({}, {})", x, y);
            }
        }
    }
}

#[test]
fn framebuffer_depth_test_nearer_wins() {
    let mut fb = Framebuffer::new(4, 4);
    fb.set_background_color(0x335555);
    fb.clear();
    fb.set_current_color(0xff0000);
    fb.point(1, 1, 100);
    fb.set_current_color(0x00ff00);
    fb.point(1, 1, 200); // farther: rejected
    assert_eq!(fb.buffer[1 * 4 + 1], 0xff0000);
    fb.set_current_color(0x0000ff);
    fb.point(1, 1, 50); // nearer: wins
    assert_eq!(fb.buffer[1 * 4 + 1], 0x0000ff);
    assert_eq!(fb.buffer[0], 0x335555);
}

#[test]
fn trig_matches_reference() {
    // pi/2 in raw units.
    let s = fx_sin(102944);
    assert!((s - FX_ONE).abs() < 200, "sin(pi/2) = {}", s);
    let c = fx_cos(102944);
    assert!(c.abs() < 200, "cos(pi/2) = {}", c);
    assert_eq!(fx_sin(0), 0);
    assert_eq!(fx_cos(0), FX_ONE);
}

#[test]
fn fx_ops_behave() {
    assert_eq!(fx_mul(fxi(3), fxi(4)), fxi(12));
    assert_eq!(fx_add(fxi(3), fxi(4)), fxi(7));
    assert_eq!(planets_render::trig::fx_sqrt(fxi(25)), fxi(5));
    assert_eq!(planets_render::trig::fx_fract(fxi(3) + 1234), 1234);
    assert_eq!(planets_render::trig::fx_fract(-(fxi(3) + 1234)), -1234);
}

#[test]
fn scene_shader_maps_every_index() {
    assert!(matches!(scene_shader(1), ShaderType::Sun));
    assert!(matches!(scene_shader(2), ShaderType::Earth));
    assert!(matches!(scene_shader(3), ShaderType::GasPlanet));
    assert!(matches!(scene_shader(4), ShaderType::RingPlanet));
    assert!(matches!(scene_shader(5), ShaderType::RockyPlanet));
    assert!(matches!(scene_shader(6), ShaderType::IcyPlanet));
    assert!(matches!(scene_shader(7), ShaderType::VolcanicPlanet));
    assert!(matches!(scene_shader(0), ShaderType::Sun));
    assert!(matches!(scene_shader(99), ShaderType::Sun));
}

#[test]
fn setup_scene_returns_one_recipe_for_all_scenes() {
    let reference = setup_scene(1);
    for n in 0..10u32 {
        assert_eq!(setup_scene(n), reference);
    }
    assert_eq!(reference.1, FX_ONE);
    assert_eq!(reference.3, v3(0, 0, fxi(5)));
}

fn small_uniforms(side: i64, debug_mode: u32) -> Uniforms {
    let eye = v3(0, 0, fxi(5));
    let center = v3(0, 0, 0);
    let up = v3(0, fxi(1), 0);
    Uniforms {
        model_matrix: create_model_matrix(v3(0, 0, 0), fxi(1), v3(0, 0, 0)),
        view_matrix: create_view_matrix(eye, center, up),
        projection_matrix: create_perspective_matrix(fxi(side), fxi(side)),
        viewport_matrix: create_viewport_matrix(fxi(side), fxi(side)),
        time: 0,
        debug_mode,
    }
}

fn triangle_mesh() -> Vec<Vertex> {
    let mk = |x: i64, y: i64| {
        Vertex::new(
            V3 { x, y, z: 0 },
            v3(0, 0, fxi(1)),
            planets_render::geom::V2 { x: 0, y: 0 },
            Color::new(255, 255, 255),
        )
    };
    vec![mk(-32768, -32768), mk(32768, -32768), mk(0, 32768)]
}

#[test]
fn render_colors_the_projected_triangle_and_depth_tests_repeats() {
    let mut fb = Framebuffer::new(30, 30);
    fb.set_background_color(0x335555);
    fb.clear();
    let u = small_uniforms(30, 0);
    let mesh = triangle_mesh();
    render(&mut fb, &u, &mesh, &ShaderType::Sun);
    let center = fb.buffer[15 * 30 + 15];
    assert_ne!(center, 0x335555, "center pixel was not drawn");
    // A second pass over the same geometry loses every strict depth test:
    // the frame is unchanged (the documented duplicate-draw is harmless).
    let before = fb.buffer.clone();
    render(&mut fb, &u, &mesh, &ShaderType::VolcanicPlanet);
    assert_eq!(fb.buffer, before);
}

#[test]
fn render_scene5_draws_body_and_moon() {
    let mut fb = Framebuffer::new(30, 30);
    fb.set_background_color(0x335555);
    fb.clear();
    let u = small_uniforms(30, 0);
    let mesh = triangle_mesh();
    render_scene5(&mut fb, &u, &mesh);
    assert_ne!(fb.buffer[15 * 30 + 15], 0x335555);
}

fn sample_fragment() -> Fragment {
    Fragment {
        x: 3,
        y: 4,
        depth: 0,
        vertex_pos: v3(13107, 19661, 26214),
        normal: v3(6554, 13107, 62000),
        intensity: 52429,
    }
}

#[test]
fn rocky_debug1_is_lit_base_tone() {
    let frag = sample_fragment();
    let u = small_uniforms(30, 1);
    let got = planets_render::shaders::rocky_planet_shader(&frag, &u);
    assert_eq!(got, Color::new(139, 69, 19).scale(frag.intensity));
}

#[test]
fn moon_debug1_is_lit_base_gray() {
    let frag = sample_fragment();
    let u = small_uniforms(30, 1);
    let got = planets_render::shaders::moon_shader(&frag, &u);
    assert_eq!(got, Color::new(169, 169, 169).scale(frag.intensity));
}

#[test]
fn earth_debug1_is_lit_surface() {
    let frag = sample_fragment();
    let u1 = small_uniforms(30, 1);
    let u0 = small_uniforms(30, 0);
    let got = planets_render::shaders::earth_shader(&frag, &u1);
    // The lit surface is one of the two base colors scaled by the
    // fragment intensity.
    let land = Color::new(34, 139, 34).scale(frag.intensity);
    let ocean = Color::new(0, 105, 148).scale(frag.intensity);
    assert!(got == land || got == ocean);
    assert_ne!(got, planets_render::shaders::earth_shader(&frag, &u0));
}

#[test]
fn gas_debug3_is_raw_bands() {
    let frag = sample_fragment();
    let u1 = small_uniforms(30, 1);
    let u3 = small_uniforms(30, 3);
    let raw = planets_render::shaders::gas_planet_shader(&frag, &u3);
    let lit = planets_render::shaders::gas_planet_shader(&frag, &u1);
    // Mode 1 is exactly the mode-3 band gradient scaled by the intensity.
    assert_eq!(lit, raw.scale(frag.intensity));
}

#[test]
fn moon_debug3_is_crater_mask_only() {
    // At a point far from every crater the combined mask is zero, so the
    // crater-mask view is black while the composite is not.
    let mut frag = sample_fragment();
    frag.vertex_pos = v3(fxi(5), fxi(5), 0);
    let u3 = small_uniforms(30, 3);
    let got = planets_render::shaders::moon_shader(&frag, &u3);
    assert_eq!(got, Color::new(0, 0, 0));
}
