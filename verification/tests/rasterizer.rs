use gloat::command::{Command, Vertex, GL_TRIANGLES};
use gloat::context::Context;
use gloat::raster::{
    ceil_pixel, floor_pixel, greatest, interpolate, least, orient, PixelBox, ScreenTriangle,
    Viewport, HEIGHT, PIXELS, WIDTH,
};
use gloat::scalar::Scalar;
use gloat::screen::{half_extent, normal_color, pack_clear_color, snap, survives_clip};
use gloat::command::ClearColor;
use gloat::vector::{Vec3, Vec4};

fn num(x: f32) -> Scalar {
    Scalar::from_single_bits(x.to_bits())
}

fn full() -> Viewport {
    Viewport { x: 0, y: 0, width: 640, height: 480 }
}

fn buffers() -> (Vec<u32>, Vec<Scalar>) {
    (vec![0u32; PIXELS], vec![Scalar::one(); PIXELS])
}

/// A triangle with corners given in whole pixels.
fn triangle(c: [(i64, i64); 3], z: f32, color: u32) -> ScreenTriangle {
    ScreenTriangle {
        x0: c[0].0 * 256,
        y0: c[0].1 * 256,
        x1: c[1].0 * 256,
        y1: c[1].1 * 256,
        x2: c[2].0 * 256,
        y2: c[2].1 * 256,
        z0: num(z),
        z1: num(z),
        z2: num(z),
        color,
    }
}

fn at(x: usize, y: usize) -> usize {
    (HEIGHT - 1 - y) * WIDTH + x
}

fn written(back: &[u32]) -> usize {
    back.iter().filter(|&&p| p != 0).count()
}

fn clip_vertex(x: f32, y: f32, z: f32, w: f32) -> Vertex {
    Vertex {
        position: Vec4::new(num(x), num(y), num(z), num(w)),
        normal: Vec3::new(num(0.0), num(0.0), num(1.0)),
        tex_coord: Vec4::new(num(0.0), num(0.0), num(0.0), num(1.0)),
    }
}

#[test]
fn surface_has_its_fixed_size() {
    assert_eq!(WIDTH, 640);
    assert_eq!(HEIGHT, 480);
    assert_eq!(PIXELS, 640 * 480);
}

#[test]
fn orient_is_twice_the_signed_area() {
    assert_eq!(orient(0, 0, 4, 0, 0, 3), 12);
    assert_eq!(orient(0, 0, 0, 3, 4, 0), -12);
    assert_eq!(orient(0, 0, 2, 2, 5, 5), 0);
    assert_eq!(orient(1, 1, 5, 1, 1, 4), 12);
    let big = 1i64 << 39;
    assert_eq!(orient(-big, -big, big, -big, -big, big), 1i128 << 80);
}

#[test]
fn least_and_greatest_of_three() {
    assert_eq!(least(3, 1, 2), 1);
    assert_eq!(least(-5, 7, -5), -5);
    assert_eq!(greatest(3, 1, 2), 3);
    assert_eq!(greatest(-5, -7, -6), -5);
}

#[test]
fn pixels_of_sub_pixel_coordinates() {
    assert_eq!(floor_pixel(0), 0);
    assert_eq!(floor_pixel(255), 0);
    assert_eq!(floor_pixel(256), 1);
    assert_eq!(floor_pixel(-1), -1);
    assert_eq!(floor_pixel(-256), -1);
    assert_eq!(floor_pixel(-257), -2);
    assert_eq!(ceil_pixel(0), 0);
    assert_eq!(ceil_pixel(1), 1);
    assert_eq!(ceil_pixel(256), 1);
    assert_eq!(ceil_pixel(257), 2);
    assert_eq!(ceil_pixel(-1), 0);
    assert_eq!(ceil_pixel(-256), -1);
}

#[test]
fn snap_rounds_down_to_a_256th_of_a_pixel() {
    assert_eq!(snap(num(0.0)), 0);
    assert_eq!(snap(num(1.0)), 256);
    assert_eq!(snap(num(320.5)), 320 * 256 + 128);
    assert_eq!(snap(num(-0.001)), -1);
    assert_eq!(snap(Scalar { raw: 1 }), 0);
    assert_eq!(snap(Scalar { raw: i64::MAX }), (1i64 << 39) - 1);
    assert_eq!(snap(Scalar { raw: i64::MIN }), -(1i64 << 39));
}

#[test]
fn half_extent_is_exact() {
    assert_eq!(half_extent(640), num(320.0));
    assert_eq!(half_extent(1), num(0.5));
    assert_eq!(half_extent(0), num(0.0));
    assert_eq!(half_extent(u32::MAX).raw, (u32::MAX as i64) << 31);
}

#[test]
fn bounding_box_is_confined_to_viewport_and_surface() {
    let t = triangle([(10, 20), (300, 40), (50, 200)], 0.5, 1);
    assert_eq!(t.bounds(full()), PixelBox { min_x: 10, max_x: 300, min_y: 20, max_y: 200 });
    let small = Viewport { x: 100, y: 30, width: 50, height: 60 };
    assert_eq!(t.bounds(small), PixelBox { min_x: 100, max_x: 149, min_y: 30, max_y: 89 });
    let out = triangle([(-50, -20), (900, 40), (50, 700)], 0.5, 1);
    assert_eq!(out.bounds(full()), PixelBox { min_x: 0, max_x: 639, min_y: 0, max_y: 479 });
    let mut odd = t;
    odd.x0 = 10 * 256 + 1;
    odd.x1 = 300 * 256 + 1;
    assert_eq!(odd.bounds(full()).max_x, 301);
    let wide = Viewport { x: -5, y: -5, width: u32::MAX, height: u32::MAX };
    assert_eq!(out.bounds(wide), PixelBox { min_x: 0, max_x: 639, min_y: 0, max_y: 479 });
}

#[test]
fn interpolation_weighs_the_corners() {
    let (z0, z1, z2) = (num(0.0), num(0.5), num(1.0));
    assert_eq!(interpolate(10, 0, 0, 10, z0, z1, z2), z0);
    assert_eq!(interpolate(0, 10, 0, 10, z0, z1, z2), z1);
    assert_eq!(interpolate(0, 0, 10, 10, z0, z1, z2), z2);
    assert_eq!(interpolate(5, 0, 5, 10, z0, z1, z2), num(0.5));
    assert_eq!(interpolate(0, 5, 5, 10, z0, z1, z2), num(0.75));
    assert_eq!(interpolate(1, 1, 1, 3, z1, z1, z1), z1);
    assert_eq!(interpolate(1, 1, 1, 3, z2, z0, z0).raw, (1i64 << 32) / 3);
}

#[test]
fn fill_covers_exactly_the_pixels_whose_centres_are_inside() {
    let (mut back, mut depth) = buffers();
    let t = triangle([(0, 0), (4, 0), (0, 4)], 0.5, 7);
    t.fill(&mut back, &mut depth, true, full());
    let inside = [(0, 0), (1, 0), (2, 0), (3, 0), (0, 1), (1, 1), (2, 1), (0, 2), (1, 2), (0, 3)];
    for y in 0..8 {
        for x in 0..8 {
            let expected = if inside.contains(&(x, y)) { 7 } else { 0 };
            assert_eq!(back[at(x, y)], expected, "pixel {} {}", x, y);
            let d = if inside.contains(&(x, y)) { num(0.5) } else { num(1.0) };
            assert_eq!(depth[at(x, y)], d, "depth {} {}", x, y);
        }
    }
    assert_eq!(written(&back), 10);
}

#[test]
fn fill_interpolates_depth_between_the_corners() {
    let (mut back, mut depth) = buffers();
    let mut t = triangle([(0, 0), (8, 0), (0, 8)], 0.0, 7);
    t.z1 = num(1.0);
    t.z2 = num(0.0);
    t.fill(&mut back, &mut depth, true, full());
    assert_eq!(depth[at(0, 0)], num(0.0625));
    assert_eq!(depth[at(3, 0)], num(0.4375));
    assert_eq!(depth[at(3, 2)], num(0.4375));
    assert_eq!(depth[at(7, 0)], num(0.9375));
    assert_eq!(back[at(7, 0)], 7);
}

#[test]
fn clockwise_triangle_emits_nothing() {
    let (mut back, mut depth) = buffers();
    triangle([(0, 0), (0, 40), (40, 0)], 0.5, 7).fill(&mut back, &mut depth, true, full());
    assert_eq!(written(&back), 0);
    assert!(depth.iter().all(|&d| d == Scalar::one()));
}

#[test]
fn degenerate_triangle_emits_nothing() {
    let (mut back, mut depth) = buffers();
    let mut line = triangle([(0, 0), (10, 10), (20, 20)], 0.5, 7);
    line.x0 += 128;
    line.y0 += 128;
    line.x1 += 128;
    line.y1 += 128;
    line.x2 += 128;
    line.y2 += 128;
    line.fill(&mut back, &mut depth, true, full());
    triangle([(5, 5), (5, 5), (5, 5)], 0.5, 7).fill(&mut back, &mut depth, true, full());
    triangle([(0, 7), (100, 7), (50, 7)], 0.5, 7).fill(&mut back, &mut depth, true, full());
    assert_eq!(written(&back), 0);
    assert!(depth.iter().all(|&d| d == Scalar::one()));
}

#[test]
fn triangle_off_the_surface_emits_nothing() {
    let (mut back, mut depth) = buffers();
    triangle([(-100, 0), (-10, 0), (-100, 90)], 0.5, 7).fill(&mut back, &mut depth, true, full());
    triangle([(700, 0), (800, 0), (700, 90)], 0.5, 7).fill(&mut back, &mut depth, true, full());
    triangle([(0, 500), (100, 500), (0, 600)], 0.5, 7).fill(&mut back, &mut depth, true, full());
    triangle([(0, -600), (100, -600), (0, -500)], 0.5, 7).fill(&mut back, &mut depth, true, full());
    assert_eq!(written(&back), 0);
    assert!(depth.iter().all(|&d| d == Scalar::one()));
}

#[test]
fn triangle_beyond_the_surface_is_cut_at_its_borders() {
    let (mut back, mut depth) = buffers();
    triangle([(-1000, -1000), (3000, -1000), (-1000, 3000)], 0.5, 7)
        .fill(&mut back, &mut depth, true, full());
    assert_eq!(written(&back), PIXELS);
}

#[test]
fn empty_viewport_emits_nothing() {
    let t = triangle([(-1000, -1000), (3000, -1000), (-1000, 3000)], 0.5, 7);
    for vp in [
        Viewport { x: 0, y: 0, width: 0, height: 480 },
        Viewport { x: 0, y: 0, width: 640, height: 0 },
        Viewport { x: 100, y: 100, width: 0, height: 0 },
    ] {
        let (mut back, mut depth) = buffers();
        t.fill(&mut back, &mut depth, true, vp);
        assert_eq!(written(&back), 0);
        assert!(depth.iter().all(|&d| d == Scalar::one()));
    }
}

#[test]
fn viewport_confines_drawing() {
    let (mut back, mut depth) = buffers();
    let t = triangle([(-1000, -1000), (3000, -1000), (-1000, 3000)], 0.5, 7);
    t.fill(&mut back, &mut depth, true, Viewport { x: 10, y: 20, width: 30, height: 40 });
    assert_eq!(written(&back), 30 * 40);
    assert_eq!(back[at(10, 20)], 7);
    assert_eq!(back[at(39, 59)], 7);
    assert_eq!(back[at(9, 20)], 0);
    assert_eq!(back[at(40, 59)], 0);
    assert_eq!(back[at(10, 19)], 0);
    assert_eq!(back[at(39, 60)], 0);
}

#[test]
fn depth_test_is_strict() {
    let (mut back, mut depth) = buffers();
    let cover = [(-1000, -1000), (3000, -1000), (-1000, 3000)];
    triangle(cover, 0.5, 1).fill(&mut back, &mut depth, true, full());
    triangle(cover, 0.5, 2).fill(&mut back, &mut depth, true, full());
    assert!(back.iter().all(|&p| p == 1));
    triangle(cover, 0.75, 3).fill(&mut back, &mut depth, true, full());
    assert!(back.iter().all(|&p| p == 1));
    triangle(cover, 0.25, 4).fill(&mut back, &mut depth, true, full());
    assert!(back.iter().all(|&p| p == 4));
    assert!(depth.iter().all(|&d| d == num(0.25)));
    triangle(cover, 1.0, 5).fill(&mut back, &mut depth, true, full());
    assert!(back.iter().all(|&p| p == 4));
}

#[test]
fn depth_mask_gates_depth_writes_only() {
    let (mut back, mut depth) = buffers();
    let cover = [(-1000, -1000), (3000, -1000), (-1000, 3000)];
    triangle(cover, 0.5, 1).fill(&mut back, &mut depth, false, full());
    assert!(back.iter().all(|&p| p == 1));
    assert!(depth.iter().all(|&d| d == Scalar::one()));
    triangle(cover, 0.75, 2).fill(&mut back, &mut depth, false, full());
    assert!(back.iter().all(|&p| p == 2));
    assert!(depth.iter().all(|&d| d == Scalar::one()));
}

#[test]
fn depth_mask_command_gates_depth_writes() {
    let mut ctx = Context::new();
    assert_eq!(ctx.issue(Command::DepthMask { flag: 0 }), Ok(()));
    assert!(!ctx.depth_mask());
    assert_eq!(ctx.issue(Command::Begin { mode: GL_TRIANGLES }), Ok(()));
    for (x, y) in [(-1.0, -1.0), (3.0, -1.0), (-1.0, 3.0)] {
        assert_eq!(ctx.issue(Command::Vertex3f { x: num(x), y: num(y), z: num(0.0) }), Ok(()));
    }
    assert_eq!(ctx.issue(Command::End), Ok(()));
    assert!(ctx.swap_buffers().iter().all(|&p| p == 0xFF808080));
    assert!(ctx.depth_buffer().iter().all(|&d| d == Scalar::one()));
}

#[test]
fn clip_test_keeps_depths_between_the_planes() {
    assert!(survives_clip(Vec4::new(num(0.0), num(0.0), num(0.0), num(1.0))));
    assert!(survives_clip(Vec4::new(num(9.0), num(9.0), num(1.0), num(1.0))));
    assert!(survives_clip(Vec4::new(num(0.0), num(0.0), num(-1.0), num(1.0))));
    assert!(!survives_clip(Vec4::new(num(0.0), num(0.0), num(1.5), num(1.0))));
    assert!(!survives_clip(Vec4::new(num(0.0), num(0.0), num(-1.5), num(1.0))));
    assert!(!survives_clip(Vec4::new(num(0.0), num(0.0), num(0.0), num(-1.0))));
    assert!(!survives_clip(Vec4::new(num(0.0), num(0.0), num(0.0), num(0.0))));
    let least = Scalar { raw: i64::MIN };
    assert!(!survives_clip(Vec4::new(num(0.0), num(0.0), num(0.0), least)));
    assert!(!survives_clip(Vec4::new(num(0.0), num(0.0), least, least)));
}

#[test]
fn clipped_triangle_writes_nothing() {
    let inside = [
        clip_vertex(-1.0, -1.0, 0.0, 1.0),
        clip_vertex(3.0, -1.0, 0.0, 1.0),
        clip_vertex(-1.0, 3.0, 0.0, 1.0),
    ];
    for i in 0..3 {
        for (z, w) in [(2.0, 1.0), (-2.0, 1.0), (0.0, 0.0), (0.0, -1.0)] {
            let mut verts = inside;
            verts[i].position.z = num(z);
            verts[i].position.w = num(w);
            let mut ctx = Context::new();
            ctx.assemble_triangle(verts);
            assert!(ctx.swap_buffers().iter().all(|&p| p == 0));
            assert!(ctx.depth_buffer().iter().all(|&d| d == Scalar::one()));
        }
    }
    let all_behind = [
        clip_vertex(-1.0, -1.0, 2.0, 1.0),
        clip_vertex(3.0, -1.0, -3.0, 1.0),
        clip_vertex(-1.0, 3.0, 5.0, 2.0),
    ];
    let mut ctx = Context::new();
    ctx.assemble_triangle(all_behind);
    assert!(ctx.swap_buffers().iter().all(|&p| p == 0));
    let mut ctx = Context::new();
    ctx.assemble_triangle(inside);
    assert!(ctx.swap_buffers().iter().all(|&p| p == 0xFF8080FF));
}

#[test]
fn perspective_divide_and_viewport_transform() {
    let vp = Viewport { x: 10, y: 20, width: 100, height: 50 };
    let s = vp.to_screen(Vec4::new(num(1.0), num(-1.0), num(1.0), num(2.0)));
    assert_eq!(s, Vec3::new(num(85.0), num(32.5), num(0.75)));
    let t = vp.screen_triangle(
        clip_vertex(1.0, -1.0, 1.0, 2.0),
        clip_vertex(-1.0, -1.0, -1.0, 1.0),
        clip_vertex(0.0, 1.0, 0.0, 1.0),
    );
    assert_eq!((t.x0, t.y0, t.z0), (85 * 256, 32 * 256 + 128, num(0.75)));
    assert_eq!((t.x1, t.y1, t.z1), (10 * 256, 20 * 256, num(0.0)));
    assert_eq!((t.x2, t.y2, t.z2), (60 * 256, 70 * 256, num(0.5)));
    assert_eq!(t.color, 0xFF8080FF);
}

#[test]
fn normals_are_shown_as_colours() {
    let color = |x: f32, y: f32, z: f32| normal_color(Vec3::new(num(x), num(y), num(z)));
    assert_eq!(color(0.0, 0.0, 1.0), 0xFF8080FF);
    assert_eq!(color(0.0, 0.0, 0.0), 0xFF808080);
    assert_eq!(color(1.0, 1.0, 1.0), 0xFFFFFFFF);
    assert_eq!(color(-1.0, -1.0, -1.0), 0xFF000000);
    assert_eq!(color(0.5, -0.5, 0.25), 0xFFBF409F);
    assert_eq!(color(5.0, -5.0, 0.0), 0xFFFF0080);
    let ends = normal_color(Vec3::new(
        Scalar { raw: i64::MAX },
        Scalar { raw: i64::MIN },
        Scalar { raw: -1 },
    ));
    assert_eq!(ends, 0xFFFF007F);
}

#[test]
fn clear_colours_are_packed_with_alpha_first() {
    let pack = |r: f32, g: f32, b: f32, a: f32| {
        pack_clear_color(ClearColor { red: num(r), green: num(g), blue: num(b), alpha: num(a) })
    };
    assert_eq!(pack(1.0, 0.0, 0.0, 1.0), 0xFFFF0000);
    assert_eq!(pack(0.0, 1.0, 0.0, 1.0), 0xFF00FF00);
    assert_eq!(pack(0.0, 0.0, 1.0, 0.0), 0x000000FF);
    assert_eq!(pack(0.5, 0.25, 0.75, 1.0), 0xFF7F3FBF);
    assert_eq!(pack(2.0, -1.0, 0.0, 9.0), 0xFFFF0000);
}
