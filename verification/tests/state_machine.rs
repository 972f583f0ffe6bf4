use gloat::command::{
    Command, Fault, MatrixMode, PrimitiveMode, Texture, TextureFilter, GL_COLOR_BUFFER_BIT,
    GL_COMPILE, GL_COMPILE_AND_EXECUTE, GL_DEPTH_BUFFER_BIT, GL_FLOAT, GL_LINEAR,
    GL_LINEAR_MIPMAP_NEAREST, GL_MAX_TEXTURE_SIZE, GL_MODELVIEW, GL_NORMAL_ARRAY, GL_NO_ERROR,
    GL_PACK_ALIGNMENT, GL_PACK_LSB_FIRST, GL_PACK_ROW_LENGTH, GL_PACK_SKIP_PIXELS,
    GL_PACK_SKIP_ROWS, GL_PACK_SWAP_BYTES, GL_PROJECTION, GL_QUADS, GL_TEXTURE_2D,
    GL_TEXTURE_MAG_FILTER, GL_TEXTURE_MIN_FILTER, GL_TRIANGLES, GL_UNPACK_ALIGNMENT,
    GL_UNPACK_LSB_FIRST, GL_UNPACK_ROW_LENGTH, GL_UNPACK_SKIP_PIXELS, GL_UNPACK_SKIP_ROWS,
    GL_UNPACK_SWAP_BYTES, GL_VERTEX_ARRAY, MAX_LIST_NESTING,
};
use gloat::context::{Context, DisplayList};
use gloat::matrix::Matrix;
use gloat::raster::Viewport;
use gloat::scalar::Scalar;
use gloat::state::{ArrayFetch, ClientArrays, PixelStore};
use gloat::vector::{Vec3, Vec4};

fn num(x: f32) -> Scalar {
    Scalar::from_single_bits(x.to_bits())
}

fn issue(ctx: &mut Context, command: Command) {
    assert_eq!(ctx.issue(command), Ok(()));
}

fn translate(x: f32, y: f32, z: f32) -> Command {
    Command::Translated { x: num(x), y: num(y), z: num(z) }
}

fn vertex(x: f32, y: f32, z: f32) -> Command {
    Command::Vertex3f { x: num(x), y: num(y), z: num(z) }
}

fn ortho(l: f32, r: f32, b: f32, t: f32, n: f32, f: f32) -> Command {
    Command::Ortho {
        left: num(l),
        right: num(r),
        bottom: num(b),
        top: num(t),
        z_near: num(n),
        z_far: num(f),
    }
}

#[test]
fn new_context_is_in_its_initial_state() {
    let ctx = Context::new();
    assert_eq!(ctx.swap_buffers().len(), 640 * 480);
    assert!(ctx.swap_buffers().iter().all(|&p| p == 0));
    assert_eq!(ctx.depth_buffer().len(), 640 * 480);
    assert!(ctx.depth_buffer().iter().all(|&d| d == num(1.0)));
    assert_eq!(ctx.clear_color().red, num(0.0));
    assert_eq!(ctx.clear_color().alpha, num(0.0));
    assert!(ctx.depth_mask());
    assert_eq!(ctx.list_count(), 0);
    assert_eq!(ctx.compiling(), None);
    assert_eq!(ctx.modelview(), Matrix::identity());
    assert_eq!(ctx.projection(), Matrix::identity());
    assert_eq!(ctx.matrix_mode(), MatrixMode::ModelView);
    assert_eq!(ctx.stack_depth(), 0);
    assert_eq!(ctx.texture(0), None);
    assert_eq!(ctx.bound_texture(), 0);
    assert_eq!(ctx.primitive_mode(), None);
    assert_eq!(ctx.vertex_count(), 0);
    assert_eq!(ctx.current_normal(), Vec3::zero());
    assert_eq!(ctx.current_tex_coord(), Vec4::new(num(0.0), num(0.0), num(0.0), num(1.0)));
    assert_eq!(ctx.pixel_store(), PixelStore::new());
    assert_eq!(ctx.client_arrays(), ClientArrays::new());
    assert_eq!(ctx.viewport(), Viewport { x: 0, y: 0, width: 640, height: 480 });
    assert_eq!(ctx.get_error(), GL_NO_ERROR);
}

#[test]
fn texture_and_display_list_start_empty() {
    let t = Texture::new();
    assert_eq!(t.mag_filter, TextureFilter::Linear);
    assert_eq!(t.min_filter, TextureFilter::Linear);
    assert!(DisplayList::new().commands.is_empty());
}

#[test]
fn primitives_take_three_or_four_vertices() {
    assert_eq!(PrimitiveMode::Triangles.vertices(), 3);
    assert_eq!(PrimitiveMode::Quads.vertices(), 4);
    assert!(PrimitiveMode::Triangles.completes(0));
    assert!(PrimitiveMode::Triangles.completes(9));
    assert!(!PrimitiveMode::Triangles.completes(4));
    assert!(PrimitiveMode::Quads.completes(8));
    assert!(!PrimitiveMode::Quads.completes(6));
}

#[test]
fn state_only_commands_change_nothing_that_shows() {
    let mut ctx = Context::new();
    for command in [
        Command::ActiveTextureARB { texture: 0x84c0 },
        Command::BlendFunc { sfactor: 1, dfactor: 0 },
        Command::Color4f { red: num(1.0), green: num(1.0), blue: num(1.0), alpha: num(1.0) },
        Command::CullFace { mode: 0x0405 },
        Command::Disable { cap: 0x0b71 },
        Command::Enable { cap: 0x0b71 },
        Command::Lightf { light: 0x4000, pname: 0x1205, param: num(1.0) },
        Command::MultiTexCoord2fARB { target: 0x84c0, s: num(0.5), t: num(0.5) },
        Command::PolygonMode { face: 0x0408, mode: 0x1b02 },
        Command::ShadeModel { mode: 0x1d01 },
        Command::TexGenf { coord: 0x2000, pname: 0x2500, param: num(1.0) },
    ] {
        issue(&mut ctx, command);
    }
    assert!(ctx.swap_buffers().iter().all(|&p| p == 0));
    assert_eq!(ctx.modelview(), Matrix::identity());
    assert_eq!(ctx.stack_depth(), 0);
    assert_eq!(ctx.vertex_count(), 0);
    assert_eq!(ctx.viewport(), Viewport { x: 0, y: 0, width: 640, height: 480 });
}

#[test]
fn matrix_mode_selects_the_matrix() {
    let mut ctx = Context::new();
    issue(&mut ctx, translate(1.0, 2.0, 3.0));
    assert_eq!(ctx.modelview(), Matrix::translation(num(1.0), num(2.0), num(3.0)));
    assert_eq!(ctx.projection(), Matrix::identity());
    issue(&mut ctx, Command::MatrixMode { mode: GL_PROJECTION });
    assert_eq!(ctx.matrix_mode(), MatrixMode::Projection);
    assert_eq!(ctx.current_matrix(), Matrix::identity());
    issue(&mut ctx, translate(4.0, 5.0, 6.0));
    assert_eq!(ctx.projection(), Matrix::translation(num(4.0), num(5.0), num(6.0)));
    assert_eq!(ctx.modelview(), Matrix::translation(num(1.0), num(2.0), num(3.0)));
    issue(&mut ctx, Command::MatrixMode { mode: GL_MODELVIEW });
    assert_eq!(ctx.current_matrix(), Matrix::translation(num(1.0), num(2.0), num(3.0)));
    assert_eq!(ctx.issue(Command::MatrixMode { mode: 0x1702 }), Err(Fault::InvalidMatrixMode));
    assert_eq!(ctx.matrix_mode(), MatrixMode::ModelView);
}

#[test]
fn mult_matrix_multiplies_from_the_right() {
    let mut ctx = Context::new();
    issue(&mut ctx, translate(1.0, 0.0, 0.0));
    let mut halves = [num(0.0); 16];
    halves[0] = num(0.5);
    halves[5] = num(0.5);
    halves[10] = num(0.5);
    halves[15] = num(1.0);
    issue(&mut ctx, Command::MultMatrixf { m: halves });
    let expected = Matrix::translation(num(1.0), num(0.0), num(0.0))
        .times(Matrix::from_columns(&halves));
    assert_eq!(ctx.modelview(), expected);
    assert_eq!(
        ctx.modelview().transform(Vec4::new(num(2.0), num(2.0), num(2.0), num(1.0))),
        Vec4::new(num(2.0), num(1.0), num(1.0), num(1.0))
    );
    issue(&mut ctx, Command::MultMatrixd { m: halves });
    assert_eq!(ctx.modelview(), expected.times(Matrix::from_columns(&halves)));
    ctx.set_current_matrix(Matrix::identity());
    ctx.multiply_current_matrix(expected);
    assert_eq!(ctx.current_matrix(), expected);
}

#[test]
fn ortho_multiplies_the_current_matrix() {
    let mut ctx = Context::new();
    issue(&mut ctx, translate(1.0, 0.0, 0.0));
    issue(&mut ctx, ortho(0.0, 4.0, 0.0, 2.0, -1.0, 1.0));
    let o = Matrix::ortho(num(0.0), num(4.0), num(0.0), num(2.0), num(-1.0), num(1.0)).unwrap();
    assert_eq!(ctx.modelview(), Matrix::translation(num(1.0), num(0.0), num(0.0)).times(o));
    assert_eq!(ctx.issue(ortho(1.0, 1.0, 0.0, 2.0, -1.0, 1.0)), Err(Fault::EmptyOrthoBox));
    assert_eq!(ctx.issue(ortho(0.0, 1.0, 2.0, 2.0, -1.0, 1.0)), Err(Fault::EmptyOrthoBox));
    assert_eq!(ctx.issue(ortho(0.0, 1.0, 0.0, 2.0, 1.0, 1.0)), Err(Fault::EmptyOrthoBox));
}

#[test]
fn load_identity_twice_is_load_identity_once() {
    let mut once = Context::new();
    issue(&mut once, translate(1.0, 2.0, 3.0));
    issue(&mut once, Command::LoadIdentity);
    let mut twice = Context::new();
    issue(&mut twice, translate(1.0, 2.0, 3.0));
    issue(&mut twice, Command::LoadIdentity);
    issue(&mut twice, Command::LoadIdentity);
    assert_eq!(once.modelview(), Matrix::identity());
    assert_eq!(twice.modelview(), once.modelview());
    assert_eq!(twice.projection(), once.projection());
    assert_eq!(twice.stack_depth(), once.stack_depth());
}

#[test]
fn push_transforms_pop_restores_the_matrix() {
    let mut ctx = Context::new();
    issue(&mut ctx, ortho(0.0, 640.0, 0.0, 480.0, -1.0, 1.0));
    issue(&mut ctx, translate(0.3, 0.7, -0.1));
    let before = ctx.modelview();
    issue(&mut ctx, Command::PushMatrix);
    assert_eq!(ctx.stack_depth(), 1);
    issue(&mut ctx, translate(5.0, 6.0, 7.0));
    issue(&mut ctx, ortho(-3.0, 3.0, -2.0, 2.0, 1.0, 10.0));
    issue(&mut ctx, Command::LoadIdentity);
    issue(&mut ctx, Command::MultMatrixf { m: [num(0.3); 16] });
    assert!(ctx.modelview() != before);
    issue(&mut ctx, Command::PopMatrix);
    assert_eq!(ctx.modelview(), before);
    assert_eq!(ctx.stack_depth(), 0);
    assert_eq!(ctx.projection(), Matrix::identity());
}

#[test]
fn stack_is_shared_between_the_matrix_modes() {
    let mut ctx = Context::new();
    issue(&mut ctx, translate(1.0, 2.0, 3.0));
    issue(&mut ctx, Command::PushMatrix);
    issue(&mut ctx, Command::MatrixMode { mode: GL_PROJECTION });
    issue(&mut ctx, Command::PopMatrix);
    assert_eq!(ctx.projection(), Matrix::translation(num(1.0), num(2.0), num(3.0)));
    assert_eq!(ctx.stack_depth(), 0);
}

#[test]
fn balanced_pushes_and_pops_keep_the_stack_depth() {
    let mut ctx = Context::new();
    issue(&mut ctx, Command::PushMatrix);
    let before = ctx.stack_depth();
    for command in [
        Command::PushMatrix,
        Command::PushMatrix,
        Command::PopMatrix,
        Command::PushMatrix,
        Command::PopMatrix,
        Command::PopMatrix,
    ] {
        issue(&mut ctx, command);
    }
    assert_eq!(ctx.stack_depth(), before);
    issue(&mut ctx, Command::PopMatrix);
    assert_eq!(ctx.issue(Command::PopMatrix), Err(Fault::MatrixStackUnderflow));
    assert_eq!(ctx.stack_depth(), 0);
}

#[test]
fn begin_and_end_must_pair() {
    let mut ctx = Context::new();
    assert_eq!(ctx.issue(Command::End), Err(Fault::EndWithoutBegin));
    assert_eq!(ctx.issue(Command::Begin { mode: 0x0001 }), Err(Fault::InvalidPrimitiveMode));
    assert_eq!(ctx.primitive_mode(), None);
    issue(&mut ctx, Command::Begin { mode: GL_QUADS });
    assert_eq!(ctx.primitive_mode(), Some(PrimitiveMode::Quads));
    assert_eq!(ctx.issue(Command::Begin { mode: GL_QUADS }), Err(Fault::BeginInsideBegin));
    assert_eq!(ctx.issue(Command::Begin { mode: 0x0001 }), Err(Fault::BeginInsideBegin));
    issue(&mut ctx, Command::End);
    assert_eq!(ctx.primitive_mode(), None);
    issue(&mut ctx, Command::Begin { mode: GL_TRIANGLES });
    assert_eq!(ctx.primitive_mode(), Some(PrimitiveMode::Triangles));
}

#[test]
fn end_needs_whole_primitives() {
    let mut ctx = Context::new();
    issue(&mut ctx, Command::Begin { mode: GL_TRIANGLES });
    issue(&mut ctx, vertex(0.0, 0.0, 0.0));
    issue(&mut ctx, vertex(1.0, 0.0, 0.0));
    assert_eq!(ctx.issue(Command::End), Err(Fault::IncompletePrimitive));
    assert_eq!(ctx.vertex_count(), 2);
    assert_eq!(ctx.primitive_mode(), Some(PrimitiveMode::Triangles));
    issue(&mut ctx, vertex(0.0, 1.0, 0.0));
    issue(&mut ctx, Command::End);
    assert_eq!(ctx.vertex_count(), 0);

    issue(&mut ctx, Command::Begin { mode: GL_QUADS });
    for _ in 0..6 {
        issue(&mut ctx, vertex(0.0, 0.0, 0.0));
    }
    assert_eq!(ctx.issue(Command::End), Err(Fault::IncompletePrimitive));
}

#[test]
fn matrices_cannot_change_inside_a_primitive() {
    let mut ctx = Context::new();
    issue(&mut ctx, Command::PushMatrix);
    issue(&mut ctx, Command::Begin { mode: GL_TRIANGLES });
    for command in [
        Command::LoadIdentity,
        translate(1.0, 0.0, 0.0),
        ortho(-1.0, 1.0, -1.0, 1.0, -1.0, 1.0),
        ortho(1.0, 1.0, -1.0, 1.0, -1.0, 1.0),
        Command::MultMatrixf { m: [num(1.0); 16] },
        Command::MultMatrixd { m: [num(1.0); 16] },
        Command::PopMatrix,
    ] {
        assert_eq!(ctx.issue(command), Err(Fault::MatrixChangeInsideBegin));
    }
    assert_eq!(ctx.modelview(), Matrix::identity());
    assert_eq!(ctx.stack_depth(), 1);
    assert_eq!(ctx.new_list(1, GL_COMPILE), Err(Fault::ListBoundaryInsideBegin));
    assert_eq!(ctx.end_list(), Err(Fault::ListBoundaryInsideBegin));
    issue(&mut ctx, Command::End);
    issue(&mut ctx, Command::PopMatrix);
}

#[test]
fn vertices_take_the_current_attributes_and_matrices_at_end() {
    let mut ctx = Context::new();
    issue(&mut ctx, Command::Normal3f { nx: num(1.0), ny: num(0.0), nz: num(0.0) });
    assert_eq!(ctx.current_normal(), Vec3::new(num(1.0), num(0.0), num(0.0)));
    issue(&mut ctx, Command::Normal3fv { v: [num(0.0), num(1.0), num(0.0)] });
    assert_eq!(ctx.current_normal(), Vec3::new(num(0.0), num(1.0), num(0.0)));
    issue(&mut ctx, Command::TexCoord2f { s: num(0.25), t: num(0.75) });
    assert_eq!(ctx.current_tex_coord(), Vec4::new(num(0.25), num(0.75), num(0.0), num(1.0)));
    issue(&mut ctx, Command::Begin { mode: GL_TRIANGLES });
    issue(&mut ctx, vertex(-1.0, -1.0, 0.0));
    issue(&mut ctx, Command::Normal3f { nx: num(0.0), ny: num(0.0), nz: num(1.0) });
    issue(&mut ctx, vertex(3.0, -1.0, 0.0));
    issue(&mut ctx, vertex(-1.0, 3.0, 0.0));
    assert_eq!(ctx.vertex_count(), 3);
    issue(&mut ctx, Command::Viewport { x: 0, y: 0, width: 2, height: 1 });
    issue(&mut ctx, Command::End);
    let frame = ctx.swap_buffers();
    assert_eq!(frame[479 * 640], 0xFF80FF80);
    assert_eq!(frame[479 * 640 + 1], 0xFF80FF80);
    assert_eq!(frame.iter().filter(|&&p| p != 0).count(), 2);
}

#[test]
fn clear_fills_the_buffers_that_its_mask_names() {
    let mut ctx = Context::new();
    issue(&mut ctx, Command::Begin { mode: GL_TRIANGLES });
    issue(&mut ctx, vertex(-1.0, -1.0, 0.0));
    issue(&mut ctx, vertex(3.0, -1.0, 0.0));
    issue(&mut ctx, vertex(-1.0, 3.0, 0.0));
    issue(&mut ctx, Command::End);
    let drawn: Vec<u32> = ctx.swap_buffers().clone();
    issue(
        &mut ctx,
        Command::ClearColor { red: num(0.5), green: num(0.25), blue: num(0.75), alpha: num(1.0) },
    );
    assert_eq!(ctx.clear_color().green, num(0.25));
    issue(&mut ctx, Command::Clear { mask: 0 });
    assert_eq!(ctx.swap_buffers(), &drawn);
    issue(&mut ctx, Command::Clear { mask: GL_DEPTH_BUFFER_BIT });
    assert_eq!(ctx.swap_buffers(), &drawn);
    assert!(ctx.depth_buffer().iter().all(|&d| d == num(1.0)));
    issue(&mut ctx, Command::Begin { mode: GL_TRIANGLES });
    issue(&mut ctx, vertex(-1.0, -1.0, 0.0));
    issue(&mut ctx, vertex(3.0, -1.0, 0.0));
    issue(&mut ctx, vertex(-1.0, 3.0, 0.0));
    issue(&mut ctx, Command::End);
    issue(&mut ctx, Command::Clear { mask: GL_COLOR_BUFFER_BIT });
    assert!(ctx.swap_buffers().iter().all(|&p| p == 0xFF7F3FBF));
    assert!(ctx.depth_buffer().iter().all(|&d| d == num(0.5)));
    issue(&mut ctx, Command::Clear { mask: GL_COLOR_BUFFER_BIT | GL_DEPTH_BUFFER_BIT | 0x400 });
    assert!(ctx.depth_buffer().iter().all(|&d| d == num(1.0)));
}

#[test]
fn depth_mask_takes_true_or_false() {
    let mut ctx = Context::new();
    issue(&mut ctx, Command::DepthMask { flag: 0 });
    assert!(!ctx.depth_mask());
    issue(&mut ctx, Command::DepthMask { flag: 1 });
    assert!(ctx.depth_mask());
    assert_eq!(ctx.issue(Command::DepthMask { flag: 2 }), Err(Fault::InvalidDepthMaskFlag));
    assert_eq!(ctx.issue(Command::DepthMask { flag: -1 }), Err(Fault::InvalidDepthMaskFlag));
    assert!(ctx.depth_mask());
}

#[test]
fn viewport_is_taken_as_given() {
    let mut ctx = Context::new();
    issue(&mut ctx, Command::Viewport { x: -3, y: 7, width: 0, height: u32::MAX });
    assert_eq!(ctx.viewport(), Viewport { x: -3, y: 7, width: 0, height: u32::MAX });
}

#[test]
fn textures_are_named_from_zero_and_keep_their_filters() {
    let mut ctx = Context::new();
    let set = |pname: u32, param: i32| Command::TexParameteri { target: GL_TEXTURE_2D, pname, param };
    assert_eq!(ctx.issue(set(GL_TEXTURE_MIN_FILTER, GL_LINEAR)), Err(Fault::UnknownTexture));
    assert_eq!(ctx.gen_textures(2), Ok(vec![0, 1]));
    assert_eq!(ctx.gen_textures(0), Ok(vec![]));
    assert_eq!(ctx.gen_textures(3), Ok(vec![2, 3, 4]));
    assert_eq!(ctx.texture(4), Some(Texture::new()));
    assert_eq!(ctx.texture(5), None);
    issue(&mut ctx, Command::BindTexture { target: GL_TEXTURE_2D, texture: 3 });
    assert_eq!(ctx.bound_texture(), 3);
    issue(&mut ctx, set(GL_TEXTURE_MIN_FILTER, GL_LINEAR_MIPMAP_NEAREST));
    let mipmapped = Texture {
        mag_filter: TextureFilter::Linear,
        min_filter: TextureFilter::LinearMipmapNearest,
    };
    assert_eq!(ctx.texture(3), Some(mipmapped));
    assert_eq!(ctx.texture(2), Some(Texture::new()));
    issue(&mut ctx, set(GL_TEXTURE_MAG_FILTER, GL_LINEAR));
    assert_eq!(ctx.texture(3), Some(mipmapped));
    issue(&mut ctx, set(GL_TEXTURE_MIN_FILTER, GL_LINEAR));
    assert_eq!(ctx.texture(3), Some(Texture::new()));
    assert_eq!(
        ctx.issue(set(GL_TEXTURE_MAG_FILTER, GL_LINEAR_MIPMAP_NEAREST)),
        Err(Fault::InvalidTextureFilter)
    );
    assert_eq!(ctx.issue(set(GL_TEXTURE_MIN_FILTER, 0x2600)), Err(Fault::InvalidTextureFilter));
    assert_eq!(ctx.issue(set(0x2802, GL_LINEAR)), Err(Fault::InvalidTextureParameter));
    assert_eq!(
        ctx.issue(Command::TexParameteri {
            target: 0x0de0,
            pname: GL_TEXTURE_MIN_FILTER,
            param: GL_LINEAR
        }),
        Err(Fault::InvalidTextureTarget)
    );
    assert_eq!(
        ctx.issue(Command::BindTexture { target: 0x0de0, texture: 1 }),
        Err(Fault::InvalidTextureTarget)
    );
    assert_eq!(ctx.bound_texture(), 3);
    issue(&mut ctx, Command::BindTexture { target: GL_TEXTURE_2D, texture: 77 });
    assert_eq!(ctx.issue(set(GL_TEXTURE_MIN_FILTER, GL_LINEAR)), Err(Fault::UnknownTexture));
}

#[test]
fn display_lists_are_named_from_one() {
    let mut ctx = Context::new();
    assert_eq!(ctx.issue(Command::CallList { list: 0 }), Err(Fault::UnknownList));
    assert_eq!(ctx.issue(Command::CallList { list: 1 }), Err(Fault::UnknownList));
    assert_eq!(ctx.new_list(1, GL_COMPILE), Err(Fault::UnknownList));
    assert_eq!(ctx.gen_lists(3), Ok(1));
    assert_eq!(ctx.gen_lists(0), Ok(4));
    assert_eq!(ctx.gen_lists(2), Ok(4));
    assert_eq!(ctx.list_count(), 5);
    assert_eq!(ctx.list_commands(0), None);
    assert_eq!(ctx.list_commands(6), None);
    assert_eq!(ctx.list_commands(5), Some(&vec![]));
    assert_eq!(ctx.new_list(0, GL_COMPILE), Err(Fault::UnknownList));
    assert_eq!(ctx.new_list(6, GL_COMPILE), Err(Fault::UnknownList));
    assert_eq!(ctx.new_list(5, 0x1302), Err(Fault::InvalidListMode));
    assert_eq!(ctx.compiling(), None);
    issue(&mut ctx, Command::CallList { list: 5 });
}

#[test]
fn compiling_records_without_carrying_out() {
    let mut ctx = Context::new();
    assert_eq!(ctx.gen_lists(1), Ok(1));
    assert_eq!(ctx.new_list(1, GL_COMPILE), Ok(()));
    assert_eq!(ctx.compiling(), Some(1));
    issue(&mut ctx, translate(1.0, 2.0, 3.0));
    issue(&mut ctx, Command::PopMatrix);
    issue(&mut ctx, Command::End);
    issue(&mut ctx, Command::CallList { list: 9 });
    assert_eq!(ctx.modelview(), Matrix::identity());
    assert_eq!(
        ctx.list_commands(1),
        Some(&vec![
            translate(1.0, 2.0, 3.0),
            Command::PopMatrix,
            Command::End,
            Command::CallList { list: 9 }
        ])
    );
    assert_eq!(ctx.end_list(), Ok(()));
    assert_eq!(ctx.compiling(), None);
    assert_eq!(ctx.issue(Command::CallList { list: 1 }), Err(Fault::MatrixStackUnderflow));
    assert_eq!(ctx.modelview(), Matrix::translation(num(1.0), num(2.0), num(3.0)));
}

#[test]
fn recording_keeps_the_command_by_value() {
    let mut ctx = Context::new();
    assert_eq!(ctx.gen_lists(1), Ok(1));
    assert_eq!(ctx.new_list(1, GL_COMPILE), Ok(()));
    let mut m = [num(0.0); 16];
    m[0] = num(2.0);
    m[5] = num(2.0);
    m[10] = num(2.0);
    m[15] = num(1.0);
    let recorded = m;
    issue(&mut ctx, Command::MultMatrixf { m });
    m[0] = num(100.0);
    m[15] = num(-1.0);
    assert_eq!(ctx.end_list(), Ok(()));
    assert_eq!(ctx.list_commands(1), Some(&vec![Command::MultMatrixf { m: recorded }]));
    issue(&mut ctx, Command::CallList { list: 1 });
    assert_eq!(ctx.modelview(), Matrix::from_columns(&recorded));
}

#[test]
fn compile_and_execute_does_both_and_records_nothing_refused() {
    let mut ctx = Context::new();
    assert_eq!(ctx.gen_lists(1), Ok(1));
    assert_eq!(ctx.new_list(1, GL_COMPILE_AND_EXECUTE), Ok(()));
    issue(&mut ctx, translate(1.0, 2.0, 3.0));
    assert_eq!(ctx.modelview(), Matrix::translation(num(1.0), num(2.0), num(3.0)));
    assert_eq!(ctx.issue(Command::PopMatrix), Err(Fault::MatrixStackUnderflow));
    assert_eq!(ctx.list_commands(1), Some(&vec![translate(1.0, 2.0, 3.0)]));
}

#[test]
fn new_list_empties_the_list() {
    let mut ctx = Context::new();
    assert_eq!(ctx.gen_lists(2), Ok(1));
    assert_eq!(ctx.new_list(2, GL_COMPILE), Ok(()));
    issue(&mut ctx, Command::PushMatrix);
    assert_eq!(ctx.new_list(1, GL_COMPILE), Ok(()));
    issue(&mut ctx, Command::LoadIdentity);
    assert_eq!(ctx.new_list(2, GL_COMPILE), Ok(()));
    assert_eq!(ctx.list_commands(2), Some(&vec![]));
    assert_eq!(ctx.list_commands(1), Some(&vec![Command::LoadIdentity]));
    assert_eq!(ctx.end_list(), Ok(()));
    assert_eq!(ctx.end_list(), Ok(()));
}

#[test]
fn refused_command_in_a_list_leaves_what_came_before() {
    let mut ctx = Context::new();
    assert_eq!(ctx.gen_lists(1), Ok(1));
    assert_eq!(ctx.new_list(1, GL_COMPILE), Ok(()));
    issue(&mut ctx, Command::PushMatrix);
    issue(&mut ctx, Command::Begin { mode: 9 });
    issue(&mut ctx, Command::PushMatrix);
    assert_eq!(ctx.end_list(), Ok(()));
    assert_eq!(ctx.execute(&Command::CallList { list: 1 }), Err(Fault::InvalidPrimitiveMode));
    assert_eq!(ctx.stack_depth(), 1);
}

#[test]
fn lists_nest_up_to_the_limit() {
    let mut ctx = Context::new();
    let depth = MAX_LIST_NESTING;
    assert_eq!(ctx.gen_lists(depth + 1), Ok(1));
    for name in 1..=depth + 1 {
        assert_eq!(ctx.new_list(name, GL_COMPILE), Ok(()));
        issue(&mut ctx, Command::PushMatrix);
        if name > 1 {
            issue(&mut ctx, Command::CallList { list: name - 1 });
        }
        assert_eq!(ctx.end_list(), Ok(()));
    }
    issue(&mut ctx, Command::CallList { list: depth });
    assert_eq!(ctx.stack_depth(), depth as usize);
    assert_eq!(ctx.issue(Command::CallList { list: depth + 1 }), Err(Fault::ListNestingTooDeep));
    assert_eq!(ctx.stack_depth(), 2 * depth as usize);
}

#[test]
fn queries_report_the_pixel_store() {
    let mut ctx = Context::new();
    for (pname, value) in [
        (GL_UNPACK_SWAP_BYTES, 0),
        (GL_UNPACK_LSB_FIRST, 0),
        (GL_UNPACK_ROW_LENGTH, 0),
        (GL_UNPACK_SKIP_ROWS, 0),
        (GL_UNPACK_SKIP_PIXELS, 0),
        (GL_UNPACK_ALIGNMENT, 4),
        (GL_PACK_SWAP_BYTES, 0),
        (GL_PACK_LSB_FIRST, 0),
        (GL_PACK_ROW_LENGTH, 0),
        (GL_PACK_SKIP_ROWS, 0),
        (GL_PACK_SKIP_PIXELS, 0),
        (GL_PACK_ALIGNMENT, 4),
        (GL_MAX_TEXTURE_SIZE, 4096),
    ] {
        assert_eq!(ctx.get_integerv(pname), Ok(value), "query {:#x}", pname);
    }
    assert_eq!(ctx.get_integerv(0x0d32), Err(Fault::InvalidQuery));
    assert_eq!(ctx.pixel_storei(GL_UNPACK_SWAP_BYTES, 1), Ok(()));
    assert_eq!(ctx.pixel_storei(GL_UNPACK_ROW_LENGTH, 17), Ok(()));
    assert_eq!(ctx.pixel_storei(GL_UNPACK_SKIP_ROWS, 18), Ok(()));
    assert_eq!(ctx.pixel_storei(GL_UNPACK_SKIP_PIXELS, 19), Ok(()));
    assert_eq!(ctx.pixel_storei(GL_UNPACK_ALIGNMENT, 8), Ok(()));
    assert_eq!(ctx.get_integerv(GL_UNPACK_SWAP_BYTES), Ok(1));
    assert_eq!(ctx.get_integerv(GL_UNPACK_ROW_LENGTH), Ok(17));
    assert_eq!(ctx.get_integerv(GL_UNPACK_SKIP_ROWS), Ok(18));
    assert_eq!(ctx.get_integerv(GL_UNPACK_SKIP_PIXELS), Ok(19));
    assert_eq!(ctx.get_integerv(GL_UNPACK_ALIGNMENT), Ok(8));
    assert_eq!(ctx.get_integerv(GL_PACK_ALIGNMENT), Ok(4));
}

#[test]
fn pixel_store_refuses_what_it_cannot_take() {
    let mut ctx = Context::new();
    for (pname, param) in [
        (GL_UNPACK_SWAP_BYTES, 2),
        (GL_UNPACK_SWAP_BYTES, -1),
        (GL_UNPACK_ROW_LENGTH, -1),
        (GL_UNPACK_SKIP_ROWS, -1),
        (GL_UNPACK_SKIP_PIXELS, i32::MIN),
        (GL_UNPACK_ALIGNMENT, 0),
        (GL_UNPACK_ALIGNMENT, 3),
        (GL_UNPACK_ALIGNMENT, 16),
    ] {
        assert_eq!(ctx.pixel_storei(pname, param), Err(Fault::InvalidPixelStoreValue));
    }
    for pname in [
        GL_UNPACK_LSB_FIRST,
        GL_PACK_SWAP_BYTES,
        GL_PACK_LSB_FIRST,
        GL_PACK_ROW_LENGTH,
        GL_PACK_SKIP_ROWS,
        GL_PACK_SKIP_PIXELS,
        GL_PACK_ALIGNMENT,
        GL_MAX_TEXTURE_SIZE,
    ] {
        assert_eq!(ctx.pixel_storei(pname, 1), Err(Fault::InvalidPixelStoreParameter));
    }
    assert_eq!(ctx.pixel_store(), PixelStore::new());
    for ok in [1, 2, 4, 8] {
        assert_eq!(ctx.pixel_storei(GL_UNPACK_ALIGNMENT, ok), Ok(()));
        assert_eq!(ctx.pixel_store().unpack_alignment, ok);
    }
    assert_eq!(ctx.pixel_storei(GL_UNPACK_ROW_LENGTH, i32::MAX), Ok(()));
    assert_eq!(ctx.pixel_store().unpack_row_length, i32::MAX);
}

#[test]
fn client_arrays_are_described_and_enabled() {
    let mut ctx = Context::new();
    assert_eq!(ctx.vertex_pointer(4, GL_FLOAT, 0), Err(Fault::InvalidArraySize));
    assert_eq!(ctx.vertex_pointer(3, 0x140a, 0), Err(Fault::InvalidArrayType));
    assert_eq!(ctx.vertex_pointer(3, GL_FLOAT, 12), Err(Fault::InvalidArrayStride));
    assert_eq!(ctx.normal_pointer(0x140a, 0), Err(Fault::InvalidArrayType));
    assert_eq!(ctx.normal_pointer(GL_FLOAT, 12), Err(Fault::InvalidArrayStride));
    assert_eq!(ctx.enable_client_state(0x8076), Err(Fault::InvalidClientArray));
    assert_eq!(ctx.disable_client_state(0x8076), Err(Fault::InvalidClientArray));
    assert_eq!(ctx.client_arrays(), ClientArrays::new());
    assert_eq!(ctx.vertex_pointer(3, GL_FLOAT, 0), Ok(()));
    assert_eq!(ctx.normal_pointer(GL_FLOAT, 0), Ok(()));
    assert_eq!(ctx.enable_client_state(GL_VERTEX_ARRAY), Ok(()));
    assert_eq!(ctx.enable_client_state(GL_NORMAL_ARRAY), Ok(()));
    assert_eq!(
        ctx.client_arrays(),
        ClientArrays {
            vertex_enabled: true,
            vertex_size: 3,
            vertex_type: GL_FLOAT,
            vertex_stride: 0,
            normal_enabled: true,
            normal_type: GL_FLOAT,
            normal_stride: 0,
        }
    );
    assert_eq!(ctx.disable_client_state(GL_NORMAL_ARRAY), Ok(()));
    assert!(!ctx.client_arrays().normal_enabled);
    assert!(ctx.client_arrays().vertex_enabled);
    assert_eq!(ctx.disable_client_state(GL_VERTEX_ARRAY), Ok(()));
    assert!(!ctx.client_arrays().vertex_enabled);
}

#[test]
fn array_elements_are_fetched_and_issued() {
    let mut ctx = Context::new();
    assert_eq!(ctx.array_fetch(5), Ok(ArrayFetch { normal_at: None, vertex_at: None }));
    assert_eq!(ctx.array_fetch(-1), Err(Fault::InvalidArrayIndex));
    assert_eq!(ctx.array_element(None, None), Ok(()));
    assert_eq!(ctx.vertex_count(), 0);
    assert_eq!(ctx.enable_client_state(GL_VERTEX_ARRAY), Ok(()));
    assert_eq!(ctx.array_fetch(5), Ok(ArrayFetch { normal_at: None, vertex_at: Some(0) }));
    assert_eq!(ctx.vertex_pointer(3, GL_FLOAT, 0), Ok(()));
    assert_eq!(ctx.enable_client_state(GL_NORMAL_ARRAY), Ok(()));
    assert_eq!(ctx.array_fetch(5), Ok(ArrayFetch { normal_at: Some(15), vertex_at: Some(15) }));
    assert_eq!(
        ctx.array_fetch(i32::MAX),
        Ok(ArrayFetch {
            normal_at: Some(3 * i32::MAX as u64),
            vertex_at: Some(3 * i32::MAX as u64)
        })
    );
    let n = Vec3::new(num(0.0), num(1.0), num(0.0));
    let v = Vec3::new(num(1.0), num(2.0), num(3.0));
    assert_eq!(ctx.array_element(Some(n), None), Err(Fault::MissingArrayElement));
    assert_eq!(ctx.array_element(None, Some(v)), Err(Fault::MissingArrayElement));
    assert_eq!(ctx.current_normal(), Vec3::zero());
    assert_eq!(ctx.array_element(Some(n), Some(v)), Ok(()));
    assert_eq!(ctx.current_normal(), n);
    assert_eq!(ctx.vertex_count(), 1);
    assert_eq!(ctx.disable_client_state(GL_NORMAL_ARRAY), Ok(()));
    let other = Vec3::new(num(1.0), num(0.0), num(0.0));
    assert_eq!(ctx.array_element(Some(other), Some(v)), Ok(()));
    assert_eq!(ctx.current_normal(), n);
    assert_eq!(ctx.vertex_count(), 2);
}

#[test]
fn array_elements_go_through_the_list_being_compiled() {
    let mut ctx = Context::new();
    assert_eq!(ctx.gen_lists(1), Ok(1));
    assert_eq!(ctx.enable_client_state(GL_VERTEX_ARRAY), Ok(()));
    assert_eq!(ctx.enable_client_state(GL_NORMAL_ARRAY), Ok(()));
    assert_eq!(ctx.new_list(1, GL_COMPILE), Ok(()));
    let n = Vec3::new(num(0.0), num(1.0), num(0.0));
    let v = Vec3::new(num(1.0), num(2.0), num(3.0));
    assert_eq!(ctx.array_element(Some(n), Some(v)), Ok(()));
    assert_eq!(ctx.vertex_count(), 0);
    assert_eq!(
        ctx.list_commands(1),
        Some(&vec![
            Command::Normal3f { nx: n.x, ny: n.y, nz: n.z },
            Command::Vertex3f { x: v.x, y: v.y, z: v.z }
        ])
    );
}

#[test]
fn names_run_out_at_the_end_of_their_type() {
    let mut ctx = Context::new();
    assert_eq!(ctx.gen_lists(u32::MAX), Err(Fault::OutOfNames));
    assert_eq!(ctx.list_count(), 0);
    assert_eq!(ctx.gen_lists(3), Ok(1));
    assert_eq!(ctx.gen_lists(u32::MAX - 3), Err(Fault::OutOfNames));
    assert_eq!(ctx.list_count(), 3);
    assert_eq!(ctx.gen_textures(1), Ok(vec![0]));
    assert_eq!(ctx.gen_textures(u32::MAX), Err(Fault::OutOfNames));
    assert_eq!(ctx.texture(1), None);
}
