//! The pipeline as a state machine: what the context holds, as plain
//! mathematical values, and what every call makes of it.
//!
//! The functions here are specifications. `Context` carries them out and
//! states its contracts in their terms.
use vstd::prelude::*;
use crate::command::{
    ClearColor, Command, Fault, MatrixMode, PrimitiveMode, Texture, TextureFilter, Vertex,
    GL_COLOR_BUFFER_BIT, GL_COMPILE, GL_COMPILE_AND_EXECUTE, GL_DEPTH_BUFFER_BIT, GL_FALSE,
    GL_FLOAT, GL_LINEAR, GL_LINEAR_MIPMAP_NEAREST, GL_MAX_TEXTURE_SIZE, GL_MODELVIEW,
    GL_NORMAL_ARRAY, GL_PACK_ALIGNMENT, GL_PACK_LSB_FIRST, GL_PACK_ROW_LENGTH,
    GL_PACK_SKIP_PIXELS, GL_PACK_SKIP_ROWS, GL_PACK_SWAP_BYTES, GL_PROJECTION, GL_QUADS,
    GL_TEXTURE_2D, GL_TEXTURE_MAG_FILTER, GL_TEXTURE_MIN_FILTER, GL_TRIANGLES, GL_TRUE,
    GL_UNPACK_ALIGNMENT, GL_UNPACK_LSB_FIRST, GL_UNPACK_ROW_LENGTH, GL_UNPACK_SKIP_PIXELS,
    GL_UNPACK_SKIP_ROWS, GL_UNPACK_SWAP_BYTES, GL_VERTEX_ARRAY, MAX_LIST_NESTING,
    MAX_TEXTURE_SIZE,
};
use crate::matrix::Matrix;
use crate::raster::{depths_ok, Viewport, PIXELS};
use crate::scalar::Scalar;
use crate::screen::{pack_clear_color, survives_clip};
use crate::vector::{Vec3, Vec4};

verus! {

/// The pixel-store parameters.
#[derive(Clone, Copy, Debug, PartialEq, Eq, Structural)]
pub struct PixelStore {
    pub unpack_swap_bytes: i32,
    pub unpack_lsb_first: i32,
    pub unpack_row_length: i32,
    pub unpack_skip_rows: i32,
    pub unpack_skip_pixels: i32,
    pub unpack_alignment: i32,
    pub pack_swap_bytes: i32,
    pub pack_lsb_first: i32,
    pub pack_row_length: i32,
    pub pack_skip_rows: i32,
    pub pack_skip_pixels: i32,
    pub pack_alignment: i32,
}

impl PixelStore {
    /// The parameters as a new context has them: all 0 but the two
    /// alignments, which are 4.
    pub open spec fn spec_new() -> PixelStore {
        PixelStore {
            unpack_swap_bytes: 0,
            unpack_lsb_first: 0,
            unpack_row_length: 0,
            unpack_skip_rows: 0,
            unpack_skip_pixels: 0,
            unpack_alignment: 4,
            pack_swap_bytes: 0,
            pack_lsb_first: 0,
            pack_row_length: 0,
            pack_skip_rows: 0,
            pack_skip_pixels: 0,
            pack_alignment: 4,
        }
    }

    /// The parameters as a new context has them: all 0 but the two
    /// alignments, which are 4.
    #[verifier::when_used_as_spec(spec_new)]
    pub fn new() -> (p: PixelStore)
        ensures
            p == PixelStore::spec_new(),
    {
        PixelStore {
            unpack_swap_bytes: 0,
            unpack_lsb_first: 0,
            unpack_row_length: 0,
            unpack_skip_rows: 0,
            unpack_skip_pixels: 0,
            unpack_alignment: 4,
            pack_swap_bytes: 0,
            pack_lsb_first: 0,
            pack_row_length: 0,
            pack_skip_rows: 0,
            pack_skip_pixels: 0,
            pack_alignment: 4,
        }
    }
}

/// What is known of the two client arrays. The memory they lie in is the
/// caller's and is not held here.
#[derive(Clone, Copy, Debug, PartialEq, Eq, Structural)]
pub struct ClientArrays {
    pub vertex_enabled: bool,
    pub vertex_size: i32,
    pub vertex_type: u32,
    pub vertex_stride: u32,
    pub normal_enabled: bool,
    pub normal_type: u32,
    pub normal_stride: u32,
}

impl ClientArrays {
    /// The arrays as a new context has them: disabled and undescribed.
    pub open spec fn spec_new() -> ClientArrays {
        ClientArrays {
            vertex_enabled: false,
            vertex_size: 0,
            vertex_type: 0,
            vertex_stride: 0,
            normal_enabled: false,
            normal_type: 0,
            normal_stride: 0,
        }
    }

    /// The arrays as a new context has them: disabled and undescribed.
    #[verifier::when_used_as_spec(spec_new)]
    pub fn new() -> (a: ClientArrays)
        ensures
            a == ClientArrays::spec_new(),
    {
        ClientArrays {
            vertex_enabled: false,
            vertex_size: 0,
            vertex_type: 0,
            vertex_stride: 0,
            normal_enabled: false,
            normal_type: 0,
            normal_stride: 0,
        }
    }
}

/// Where in the client arrays an array element is read: for each enabled
/// array the index of the first of the three numbers, counted in numbers
/// from the array's base.
#[derive(Clone, Copy, Debug, PartialEq, Eq, Structural)]
pub struct ArrayFetch {
    pub normal_at: Option<u64>,
    pub vertex_at: Option<u64>,
}

/// Everything the context holds.
pub struct State {
    /// The colour buffer, top row first.
    pub back: Seq<u32>,
    /// The depth buffer, laid out as the colour buffer is.
    pub depth: Seq<Scalar>,
    pub clear_color: ClearColor,
    pub depth_mask: bool,
    /// The display lists; the list named `n` is at index `n - 1`.
    pub lists: Seq<Seq<Command>>,
    /// The name of the list being compiled.
    pub new_list: Option<u32>,
    pub new_list_mode: u32,
    pub modelview: Matrix,
    pub projection: Matrix,
    pub matrix_mode: MatrixMode,
    /// The matrix stack, which both matrix modes share; its top is last.
    pub stack: Seq<Matrix>,
    /// The textures; the texture named `n` is at index `n`.
    pub textures: Seq<Texture>,
    /// The name bound to the two-dimensional target.
    pub texture_2d: u32,
    /// The primitive that is open between a begin and an end.
    pub primitive_mode: Option<PrimitiveMode>,
    pub current_normal: Vec3,
    pub current_tex_coord: Vec4,
    /// The vertices given since the begin.
    pub verts: Seq<Vertex>,
    pub pixel_store: PixelStore,
    pub arrays: ClientArrays,
    pub viewport: Viewport,
}

/// What a call leaves behind: the state, and the fault if it was refused.
/// A refused call leaves the state as it found it; a refused command inside
/// a display list leaves what the commands before it made.
pub struct Outcome {
    pub state: State,
    pub fault: Option<Fault>,
}

/// The fault that a call's result carries, if any.
pub open spec fn fault_of<T>(r: Result<T, Fault>) -> Option<Fault> {
    match r {
        Ok(_) => None,
        Err(f) => Some(f),
    }
}

impl State {
    /// What holds of every context: the buffers have one entry for each
    /// pixel, every depth is between 0 and 1, names fit their type, a vertex array is undescribed or has
    /// three numbers an element, and a list being compiled exists.
    pub open spec fn wf(self) -> bool {
        &&& self.back.len() == PIXELS
        &&& self.depth.len() == PIXELS
        &&& depths_ok(self.depth)
        &&& self.lists.len() < u32::MAX
        &&& self.textures.len() <= u32::MAX
        &&& (self.arrays.vertex_size == 0 || self.arrays.vertex_size == 3)
        &&& match self.new_list {
            Some(n) => self.has_list(n),
            None => true,
        }
    }

    /// A new context: black and far everywhere, identity matrices, nothing
    /// generated, the viewport the whole surface.
    pub open spec fn initial() -> State {
        State {
            back: Seq::new(PIXELS as nat, |i: int| 0u32),
            depth: Seq::new(PIXELS as nat, |i: int| Scalar::one()),
            clear_color: ClearColor {
                red: Scalar::zero(),
                green: Scalar::zero(),
                blue: Scalar::zero(),
                alpha: Scalar::zero(),
            },
            depth_mask: true,
            lists: Seq::empty(),
            new_list: None,
            new_list_mode: 0,
            modelview: Matrix::identity(),
            projection: Matrix::identity(),
            matrix_mode: MatrixMode::ModelView,
            stack: Seq::empty(),
            textures: Seq::empty(),
            texture_2d: 0,
            primitive_mode: None,
            current_normal: Vec3::zero(),
            current_tex_coord: Vec4::new(
                Scalar::zero(),
                Scalar::zero(),
                Scalar::zero(),
                Scalar::one(),
            ),
            verts: Seq::empty(),
            pixel_store: PixelStore::new(),
            arrays: ClientArrays::new(),
            viewport: Viewport { x: 0, y: 0, width: 640, height: 480 },
        }
    }

    /// Whether `name` names a display list: names start at 1, and 0 names
    /// none.
    pub open spec fn has_list(self, name: u32) -> bool {
        1 <= name <= self.lists.len()
    }

    /// The commands of the display list `name`.
    pub open spec fn list(self, name: u32) -> Seq<Command> {
        self.lists[name - 1]
    }

    /// The call went through and left `self`.
    pub open spec fn done(self) -> Outcome {
        Outcome { state: self, fault: None }
    }

    /// The call was refused and left `self`.
    pub open spec fn refused(self, fault: Fault) -> Outcome {
        Outcome { state: self, fault: Some(fault) }
    }

    /// The matrix that the matrix mode selects.
    pub open spec fn current_matrix(self) -> Matrix {
        match self.matrix_mode {
            MatrixMode::ModelView => self.modelview,
            MatrixMode::Projection => self.projection,
        }
    }

    /// The state with `m` in place of the matrix that the matrix mode
    /// selects.
    pub open spec fn with_current_matrix(self, m: Matrix) -> State {
        match self.matrix_mode {
            MatrixMode::ModelView => State { modelview: m, ..self },
            MatrixMode::Projection => State { projection: m, ..self },
        }
    }

    /// Puts `m` in place of the current matrix, which no call may do while a
    /// primitive is open.
    pub open spec fn load_matrix(self, m: Matrix) -> Outcome {
        if self.primitive_mode.is_some() {
            self.refused(Fault::MatrixChangeInsideBegin)
        } else {
            self.with_current_matrix(m).done()
        }
    }

    /// Multiplies the current matrix by `m` from the right.
    pub open spec fn multiply_matrix(self, m: Matrix) -> Outcome {
        self.load_matrix(self.current_matrix().times(m))
    }

    /// Opens a primitive.
    pub open spec fn begin(self, mode: u32) -> Outcome {
        if self.primitive_mode.is_some() {
            self.refused(Fault::BeginInsideBegin)
        } else if mode == GL_TRIANGLES {
            State { primitive_mode: Some(PrimitiveMode::Triangles), ..self }.done()
        } else if mode == GL_QUADS {
            State { primitive_mode: Some(PrimitiveMode::Quads), ..self }.done()
        } else {
            self.refused(Fault::InvalidPrimitiveMode)
        }
    }

    /// A vertex taken from object space to clip space: the projection
    /// applied to the model-view applied to its position.
    pub open spec fn to_clip(self, v: Vertex) -> Vertex {
        Vertex {
            position: self.projection.transform(self.modelview.transform(v.position)),
            ..v
        }
    }

    /// The state with every held vertex taken to clip space.
    pub open spec fn clip_verts(self) -> State {
        State {
            verts: Seq::new(self.verts.len(), |i: int| self.to_clip(self.verts[i])),
            ..self
        }
    }

    /// The state after the triangle of three clip-space vertices is drawn.
    /// Where any of the three fails the depth clip test, nothing is drawn;
    /// else the triangle is taken to the screen and filled through the depth
    /// test. Only the two buffers change.
    #[verifier::opaque]
    pub open spec fn draw(self, a: Vertex, b: Vertex, c: Vertex) -> State {
        if survives_clip(a.position) && survives_clip(b.position) && survives_clip(c.position) {
            let t = self.viewport.screen_triangle(a, b, c);
            State {
                back: t.drawn_colors(self.viewport, self.back, self.depth),
                depth: t.drawn_depths(self.viewport, self.depth, self.depth_mask),
                ..self
            }
        } else {
            self
        }
    }

    /// The state after the primitives are drawn that the held vertices from
    /// index `from` on make up, in their order: a triangle from three
    /// vertices; a quad from four, as the triangle of its first three
    /// vertices and then the triangle of its third, fourth and first.
    pub open spec fn draw_primitives(self, mode: PrimitiveMode, from: int) -> State
        decreases self.verts.len() - from,
    {
        if from < 0 || from + mode.vertices() > self.verts.len() {
            self
        } else {
            let v = self.verts;
            let first = self.draw(v[from], v[from + 1], v[from + 2]);
            let whole = match mode {
                PrimitiveMode::Triangles => first,
                PrimitiveMode::Quads => first.draw(v[from + 2], v[from + 3], v[from]),
            };
            if whole.verts.len() == self.verts.len() {
                whole.draw_primitives(mode, from + mode.vertices())
            } else {
                whole
            }
        }
    }

    /// Closes the open primitive: the held vertices are taken to clip space
    /// with the matrices as they are now, the primitives they make up are
    /// drawn, and the vertices are dropped.
    #[verifier::opaque]
    pub open spec fn end(self) -> Outcome {
        match self.primitive_mode {
            None => self.refused(Fault::EndWithoutBegin),
            Some(mode) => {
                if !mode.completes(self.verts.len() as usize) {
                    self.refused(Fault::IncompletePrimitive)
                } else {
                    State {
                        verts: Seq::empty(),
                        primitive_mode: None,
                        ..self.clip_verts().draw_primitives(mode, 0)
                    }.done()
                }
            },
        }
    }

    /// The state after a clear: with the depth bit in `mask` every depth is
    /// 1, with the colour bit every pixel is the clear colour.
    #[verifier::opaque]
    pub open spec fn clear(self, mask: u32) -> State {
        State {
            depth: if mask & GL_DEPTH_BUFFER_BIT != 0 {
                Seq::new(self.depth.len(), |i: int| Scalar::one())
            } else {
                self.depth
            },
            back: if mask & GL_COLOR_BUFFER_BIT != 0 {
                Seq::new(self.back.len(), |i: int| pack_clear_color(self.clear_color))
            } else {
                self.back
            },
            ..self
        }
    }

    /// Sets a filter of the bound texture.
    #[verifier::opaque]
    pub open spec fn tex_parameter(self, target: u32, pname: u32, param: i32) -> Outcome {
        if target != GL_TEXTURE_2D {
            self.refused(Fault::InvalidTextureTarget)
        } else if self.texture_2d >= self.textures.len() {
            self.refused(Fault::UnknownTexture)
        } else {
            let t = self.textures[self.texture_2d as int];
            if pname == GL_TEXTURE_MAG_FILTER {
                if param == GL_LINEAR {
                    State {
                        textures: self.textures.update(
                            self.texture_2d as int,
                            Texture { mag_filter: TextureFilter::Linear, ..t },
                        ),
                        ..self
                    }.done()
                } else {
                    self.refused(Fault::InvalidTextureFilter)
                }
            } else if pname == GL_TEXTURE_MIN_FILTER {
                if param == GL_LINEAR {
                    State {
                        textures: self.textures.update(
                            self.texture_2d as int,
                            Texture { min_filter: TextureFilter::Linear, ..t },
                        ),
                        ..self
                    }.done()
                } else if param == GL_LINEAR_MIPMAP_NEAREST {
                    State {
                        textures: self.textures.update(
                            self.texture_2d as int,
                            Texture { min_filter: TextureFilter::LinearMipmapNearest, ..t },
                        ),
                        ..self
                    }.done()
                } else {
                    self.refused(Fault::InvalidTextureFilter)
                }
            } else {
                self.refused(Fault::InvalidTextureParameter)
            }
        }
    }

    /// Binds a texture name to the two-dimensional target.
    pub open spec fn bind_texture(self, target: u32, texture: u32) -> Outcome {
        if target == GL_TEXTURE_2D {
            State { texture_2d: texture, ..self }.done()
        } else {
            self.refused(Fault::InvalidTextureTarget)
        }
    }

    /// Allows or forbids depth writes.
    pub open spec fn set_depth_mask(self, flag: i32) -> Outcome {
        if flag == GL_FALSE {
            State { depth_mask: false, ..self }.done()
        } else if flag == GL_TRUE {
            State { depth_mask: true, ..self }.done()
        } else {
            self.refused(Fault::InvalidDepthMaskFlag)
        }
    }

    /// Selects the matrix that the matrix calls work on.
    pub open spec fn set_matrix_mode(self, mode: u32) -> Outcome {
        if mode == GL_MODELVIEW {
            State { matrix_mode: MatrixMode::ModelView, ..self }.done()
        } else if mode == GL_PROJECTION {
            State { matrix_mode: MatrixMode::Projection, ..self }.done()
        } else {
            self.refused(Fault::InvalidMatrixMode)
        }
    }

    /// Multiplies the current matrix by an orthographic projection.
    pub open spec fn ortho(
        self,
        left: Scalar,
        right: Scalar,
        bottom: Scalar,
        top: Scalar,
        z_near: Scalar,
        z_far: Scalar,
    ) -> Outcome {
        if self.primitive_mode.is_some() {
            self.refused(Fault::MatrixChangeInsideBegin)
        } else if !Matrix::ortho_defined(left, right, bottom, top, z_near, z_far) {
            self.refused(Fault::EmptyOrthoBox)
        } else {
            self.multiply_matrix(Matrix::spec_ortho(left, right, bottom, top, z_near, z_far))
        }
    }

    /// Takes the top of the matrix stack for the current matrix.
    pub open spec fn pop_matrix(self) -> Outcome {
        if self.primitive_mode.is_some() {
            self.refused(Fault::MatrixChangeInsideBegin)
        } else if self.stack.len() == 0 {
            self.refused(Fault::MatrixStackUnderflow)
        } else {
            State { stack: self.stack.drop_last(), ..self }.with_current_matrix(
                self.stack.last(),
            ).done()
        }
    }

    /// Puts a copy of the current matrix on the matrix stack.
    pub open spec fn push_matrix(self) -> State {
        State { stack: self.stack.push(self.current_matrix()), ..self }
    }

    /// Holds one more vertex, with the current normal and texture
    /// coordinate.
    pub open spec fn add_vertex(self, x: Scalar, y: Scalar, z: Scalar) -> State {
        State {
            verts: self.verts.push(
                Vertex {
                    position: Vec4::new(x, y, z, Scalar::one()),
                    normal: self.current_normal,
                    tex_coord: self.current_tex_coord,
                },
            ),
            ..self
        }
    }

    /// What carrying out `command` makes of the state. `fuel` is how many
    /// display lists deep calls may still go.
    pub open spec fn execute(self, command: Command, fuel: nat) -> Outcome
        decreases fuel, 0nat,
    {
        match command {
            Command::ActiveTextureARB { .. } => self.done(),
            Command::Begin { mode } => self.begin(mode),
            Command::BindTexture { target, texture } => self.bind_texture(target, texture),
            Command::BlendFunc { .. } => self.done(),
            Command::CallList { list } => if !self.has_list(list) {
                self.refused(Fault::UnknownList)
            } else if fuel == 0 {
                self.refused(Fault::ListNestingTooDeep)
            } else {
                self.run(self.list(list), (fuel - 1) as nat)
            },
            Command::Clear { mask } => self.clear(mask).done(),
            Command::ClearColor { red, green, blue, alpha } => State {
                clear_color: ClearColor { red, green, blue, alpha },
                ..self
            }.done(),
            Command::Color4f { .. } => self.done(),
            Command::CullFace { .. } => self.done(),
            Command::DepthMask { flag } => self.set_depth_mask(flag),
            Command::Disable { .. } => self.done(),
            Command::Enable { .. } => self.done(),
            Command::End => self.end(),
            Command::Lightf { .. } => self.done(),
            Command::LoadIdentity => self.load_matrix(Matrix::identity()),
            Command::MatrixMode { mode } => self.set_matrix_mode(mode),
            Command::MultiTexCoord2fARB { .. } => self.done(),
            Command::MultMatrixd { m } => self.multiply_matrix(Matrix::from_columns(&m)),
            Command::MultMatrixf { m } => self.multiply_matrix(Matrix::from_columns(&m)),
            Command::Normal3f { nx, ny, nz } => State {
                current_normal: Vec3::new(nx, ny, nz),
                ..self
            }.done(),
            Command::Normal3fv { v } => State {
                current_normal: Vec3::new(v[0], v[1], v[2]),
                ..self
            }.done(),
            Command::Ortho { left, right, bottom, top, z_near, z_far } => self.ortho(
                left,
                right,
                bottom,
                top,
                z_near,
                z_far,
            ),
            Command::PolygonMode { .. } => self.done(),
            Command::PopMatrix => self.pop_matrix(),
            Command::PushMatrix => self.push_matrix().done(),
            Command::ShadeModel { .. } => self.done(),
            Command::TexCoord2f { s, t } => State {
                current_tex_coord: Vec4::new(s, t, Scalar::zero(), Scalar::one()),
                ..self
            }.done(),
            Command::TexGenf { .. } => self.done(),
            Command::TexParameteri { target, pname, param } => self.tex_parameter(
                target,
                pname,
                param,
            ),
            Command::Translated { x, y, z } => self.multiply_matrix(Matrix::translation(x, y, z)),
            Command::Vertex3f { x, y, z } => self.add_vertex(x, y, z).done(),
            Command::Viewport { x, y, width, height } => State {
                viewport: Viewport { x, y, width, height },
                ..self
            }.done(),
        }
    }

    /// What carrying out `commands` one after another makes of the state,
    /// up to and without the first that is refused.
    pub open spec fn run(self, commands: Seq<Command>, fuel: nat) -> Outcome
        decreases fuel, 1 + commands.len(),
    {
        if commands.len() == 0 {
            self.done()
        } else {
            let first = self.execute(commands[0], fuel);
            if first.fault.is_some() {
                first
            } else {
                first.state.run(commands.drop_first(), fuel)
            }
        }
    }

    /// The state with `command` added at the end of the display list `name`.
    pub open spec fn record(self, name: u32, command: Command) -> State {
        State { lists: self.lists.update(name - 1, self.list(name).push(command)), ..self }
    }

    /// What issuing `command` makes of the state: carried out at once where
    /// no list is being compiled; only recorded where one is compiled;
    /// carried out and then recorded where one is compiled and executed.
    #[verifier::opaque]
    pub open spec fn issue(self, command: Command) -> Outcome {
        match self.new_list {
            None => self.execute(command, MAX_LIST_NESTING as nat),
            Some(name) => {
                if self.new_list_mode == GL_COMPILE_AND_EXECUTE {
                    let ran = self.execute(command, MAX_LIST_NESTING as nat);
                    if ran.fault.is_some() {
                        ran
                    } else {
                        ran.state.record(name, command).done()
                    }
                } else {
                    self.record(name, command).done()
                }
            },
        }
    }

    /// What issuing `commands` one after another makes of the state, up to
    /// and without the first that is refused.
    pub open spec fn issue_all(self, commands: Seq<Command>) -> Outcome
        decreases commands.len(),
    {
        if commands.len() == 0 {
            self.done()
        } else {
            let first = self.issue(commands[0]);
            if first.fault.is_some() {
                first
            } else {
                first.state.issue_all(commands.drop_first())
            }
        }
    }

    /// Starts compiling the display list `name`, which loses its commands.
    pub open spec fn new_list(self, name: u32, mode: u32) -> Outcome {
        if self.primitive_mode.is_some() {
            self.refused(Fault::ListBoundaryInsideBegin)
        } else if mode != GL_COMPILE && mode != GL_COMPILE_AND_EXECUTE {
            self.refused(Fault::InvalidListMode)
        } else if !self.has_list(name) {
            self.refused(Fault::UnknownList)
        } else {
            State {
                new_list: Some(name),
                new_list_mode: mode,
                lists: self.lists.update(name - 1, Seq::empty()),
                ..self
            }.done()
        }
    }

    /// Stops compiling.
    pub open spec fn end_list(self) -> Outcome {
        if self.primitive_mode.is_some() {
            self.refused(Fault::ListBoundaryInsideBegin)
        } else {
            State { new_list: None, ..self }.done()
        }
    }

    /// Whether `range` more display lists can be named.
    pub open spec fn can_gen_lists(self, range: u32) -> bool {
        self.lists.len() + range < u32::MAX
    }

    /// The state with `range` more display lists, all empty.
    pub open spec fn gen_lists(self, range: u32) -> State {
        State {
            lists: self.lists + Seq::new(range as nat, |i: int| Seq::<Command>::empty()),
            ..self
        }
    }

    /// Whether `n` more textures can be named.
    pub open spec fn can_gen_textures(self, n: u32) -> bool {
        self.textures.len() + n <= u32::MAX
    }

    /// The state with `n` more textures, all new.
    pub open spec fn gen_textures(self, n: u32) -> State {
        State { textures: self.textures + Seq::new(n as nat, |i: int| Texture::new()), ..self }
    }

    /// Enables or disables a client array.
    pub open spec fn set_client_state(self, array: u32, enabled: bool) -> Outcome {
        if array == GL_VERTEX_ARRAY {
            State { arrays: ClientArrays { vertex_enabled: enabled, ..self.arrays }, ..self }.done()
        } else if array == GL_NORMAL_ARRAY {
            State { arrays: ClientArrays { normal_enabled: enabled, ..self.arrays }, ..self }.done()
        } else {
            self.refused(Fault::InvalidClientArray)
        }
    }

    /// Describes the vertex array: three tightly packed floats an element.
    pub open spec fn vertex_pointer(self, size: i32, type_: u32, stride: u32) -> Outcome {
        if size != 3 {
            self.refused(Fault::InvalidArraySize)
        } else if type_ != GL_FLOAT {
            self.refused(Fault::InvalidArrayType)
        } else if stride != 0 {
            self.refused(Fault::InvalidArrayStride)
        } else {
            State {
                arrays: ClientArrays {
                    vertex_size: size,
                    vertex_type: type_,
                    vertex_stride: stride,
                    ..self.arrays
                },
                ..self
            }.done()
        }
    }

    /// Describes the normal array: tightly packed floats.
    pub open spec fn normal_pointer(self, type_: u32, stride: u32) -> Outcome {
        if type_ != GL_FLOAT {
            self.refused(Fault::InvalidArrayType)
        } else if stride != 0 {
            self.refused(Fault::InvalidArrayStride)
        } else {
            State {
                arrays: ClientArrays { normal_type: type_, normal_stride: stride, ..self.arrays },
                ..self
            }.done()
        }
    }

    /// Where element `index` of the enabled client arrays is read: a normal
    /// is three numbers, a vertex as many as the vertex array was described
    /// with.
    pub open spec fn array_fetch(self, index: i32) -> ArrayFetch
        recommends
            index >= 0,
            self.wf(),
    {
        ArrayFetch {
            normal_at: if self.arrays.normal_enabled {
                Some((index * 3) as u64)
            } else {
                None
            },
            vertex_at: if self.arrays.vertex_enabled {
                Some((index * self.arrays.vertex_size) as u64)
            } else {
                None
            },
        }
    }

    /// What an array element makes of the state: for each enabled array the
    /// element read from it is issued, the normal before the vertex.
    pub open spec fn array_element(self, normal: Option<Vec3>, vertex: Option<Vec3>) -> Outcome {
        if (self.arrays.normal_enabled && normal.is_none()) || (self.arrays.vertex_enabled
            && vertex.is_none()) {
            self.refused(Fault::MissingArrayElement)
        } else {
            let first = if self.arrays.normal_enabled {
                self.issue(
                    Command::Normal3f {
                        nx: normal.unwrap().x,
                        ny: normal.unwrap().y,
                        nz: normal.unwrap().z,
                    },
                )
            } else {
                self.done()
            };
            if first.fault.is_some() || !self.arrays.vertex_enabled {
                first
            } else {
                first.state.issue(
                    Command::Vertex3f {
                        x: vertex.unwrap().x,
                        y: vertex.unwrap().y,
                        z: vertex.unwrap().z,
                    },
                )
            }
        }
    }

    /// The value that a query for `pname` reports: a pixel-store parameter,
    /// or the side of the largest texture; none for any other name.
    #[verifier::opaque]
    pub open spec fn query(self, pname: u32) -> Option<i32> {
        let p = self.pixel_store;
        if pname == GL_UNPACK_SWAP_BYTES {
            Some(p.unpack_swap_bytes)
        } else if pname == GL_UNPACK_LSB_FIRST {
            Some(p.unpack_lsb_first)
        } else if pname == GL_UNPACK_ROW_LENGTH {
            Some(p.unpack_row_length)
        } else if pname == GL_UNPACK_SKIP_ROWS {
            Some(p.unpack_skip_rows)
        } else if pname == GL_UNPACK_SKIP_PIXELS {
            Some(p.unpack_skip_pixels)
        } else if pname == GL_UNPACK_ALIGNMENT {
            Some(p.unpack_alignment)
        } else if pname == GL_PACK_SWAP_BYTES {
            Some(p.pack_swap_bytes)
        } else if pname == GL_PACK_LSB_FIRST {
            Some(p.pack_lsb_first)
        } else if pname == GL_PACK_ROW_LENGTH {
            Some(p.pack_row_length)
        } else if pname == GL_PACK_SKIP_ROWS {
            Some(p.pack_skip_rows)
        } else if pname == GL_PACK_SKIP_PIXELS {
            Some(p.pack_skip_pixels)
        } else if pname == GL_PACK_ALIGNMENT {
            Some(p.pack_alignment)
        } else if pname == GL_MAX_TEXTURE_SIZE {
            Some(MAX_TEXTURE_SIZE)
        } else {
            None
        }
    }

    /// Sets a pixel-store parameter. Of the unpack parameters the byte swap
    /// takes 0 or 1, the row length and the two skips take what is not
    /// negative, the alignment takes 1, 2, 4 or 8; no other can be set.
    #[verifier::opaque]
    pub open spec fn pixel_store(self, pname: u32, param: i32) -> Outcome {
        let p = self.pixel_store;
        if pname == GL_UNPACK_SWAP_BYTES {
            if param == 0 || param == 1 {
                State { pixel_store: PixelStore { unpack_swap_bytes: param, ..p }, ..self }.done()
            } else {
                self.refused(Fault::InvalidPixelStoreValue)
            }
        } else if pname == GL_UNPACK_ROW_LENGTH {
            if param >= 0 {
                State { pixel_store: PixelStore { unpack_row_length: param, ..p }, ..self }.done()
            } else {
                self.refused(Fault::InvalidPixelStoreValue)
            }
        } else if pname == GL_UNPACK_SKIP_ROWS {
            if param >= 0 {
                State { pixel_store: PixelStore { unpack_skip_rows: param, ..p }, ..self }.done()
            } else {
                self.refused(Fault::InvalidPixelStoreValue)
            }
        } else if pname == GL_UNPACK_SKIP_PIXELS {
            if param >= 0 {
                State { pixel_store: PixelStore { unpack_skip_pixels: param, ..p }, ..self }.done()
            } else {
                self.refused(Fault::InvalidPixelStoreValue)
            }
        } else if pname == GL_UNPACK_ALIGNMENT {
            if param == 1 || param == 2 || param == 4 || param == 8 {
                State { pixel_store: PixelStore { unpack_alignment: param, ..p }, ..self }.done()
            } else {
                self.refused(Fault::InvalidPixelStoreValue)
            }
        } else {
            self.refused(Fault::InvalidPixelStoreParameter)
        }
    }
}

} // verus!
