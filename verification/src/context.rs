//! The context: the state of the pipeline in memory, and the calls that
//! work on it.
use vstd::prelude::*;
use crate::command::{
    ClearColor, Command, Fault, MatrixMode, PrimitiveMode, Texture, TextureFilter, Vertex,
    GL_COLOR_BUFFER_BIT, GL_COMPILE, GL_COMPILE_AND_EXECUTE, GL_DEPTH_BUFFER_BIT, GL_FALSE,
    GL_FLOAT, GL_LINEAR, GL_LINEAR_MIPMAP_NEAREST, GL_MAX_TEXTURE_SIZE, GL_MODELVIEW,
    GL_NORMAL_ARRAY, GL_NO_ERROR, GL_PACK_ALIGNMENT, GL_PACK_LSB_FIRST, GL_PACK_ROW_LENGTH,
    GL_PACK_SKIP_PIXELS, GL_PACK_SKIP_ROWS, GL_PACK_SWAP_BYTES, GL_PROJECTION, GL_QUADS,
    GL_TEXTURE_2D, GL_TEXTURE_MAG_FILTER, GL_TEXTURE_MIN_FILTER, GL_TRIANGLES, GL_TRUE,
    GL_UNPACK_ALIGNMENT, GL_UNPACK_LSB_FIRST, GL_UNPACK_ROW_LENGTH, GL_UNPACK_SKIP_PIXELS,
    GL_UNPACK_SKIP_ROWS, GL_UNPACK_SWAP_BYTES, GL_VERTEX_ARRAY, MAX_LIST_NESTING, MAX_TEXTURE_SIZE,
};
use crate::matrix::Matrix;
use crate::raster::{depths_ok, lemma_drawn_depths_ok, Viewport, PIXELS};
use crate::scalar::Scalar;
use crate::screen::{pack_clear_color, survives_clip};
use crate::state::{fault_of, ArrayFetch, ClientArrays, PixelStore, State};
use crate::vector::{Vec3, Vec4};

verus! {

/// A display list: commands in the order they were recorded.
pub struct DisplayList {
    pub commands: Vec<Command>,
}

impl DisplayList {
    /// A display list without commands.
    pub fn new() -> (list: DisplayList)
        ensures
            list.commands@ == Seq::<Command>::empty(),
    {
        DisplayList { commands: Vec::new() }
    }
}

/// The commands of each of `lists`.
pub open spec fn lists_view(lists: Seq<DisplayList>) -> Seq<Seq<Command>> {
    Seq::new(lists.len(), |i: int| lists[i].commands@)
}

/// The state of the pipeline.
pub struct Context {
    back_buffer: Vec<u32>,
    depth_buffer: Vec<Scalar>,
    clear_color: ClearColor,
    depth_mask: bool,
    display_lists: Vec<DisplayList>,
    new_list: Option<u32>,
    new_list_mode: u32,
    modelview: Matrix,
    projection: Matrix,
    matrix_mode: MatrixMode,
    matrix_stack: Vec<Matrix>,
    textures: Vec<Texture>,
    texture_2d: u32,
    primitive_mode: Option<PrimitiveMode>,
    current_normal: Vec3,
    current_tex_coord: Vec4,
    verts: Vec<Vertex>,
    pixel_store: PixelStore,
    arrays: ClientArrays,
    viewport: Viewport,
}

impl View for Context {
    type V = State;

    closed spec fn view(&self) -> State {
        State {
            back: self.back_buffer@,
            depth: self.depth_buffer@,
            clear_color: self.clear_color,
            depth_mask: self.depth_mask,
            lists: lists_view(self.display_lists@),
            new_list: self.new_list,
            new_list_mode: self.new_list_mode,
            modelview: self.modelview,
            projection: self.projection,
            matrix_mode: self.matrix_mode,
            stack: self.matrix_stack@,
            textures: self.textures@,
            texture_2d: self.texture_2d,
            primitive_mode: self.primitive_mode,
            current_normal: self.current_normal,
            current_tex_coord: self.current_tex_coord,
            verts: self.verts@,
            pixel_store: self.pixel_store,
            arrays: self.arrays,
            viewport: self.viewport,
        }
    }
}

impl Context {
    /// What holds of every context.
    pub open spec fn wf(&self) -> bool {
        self@.wf()
    }

    /// A new context.
    pub fn new() -> (ctx: Context)
        ensures
            ctx.wf(),
            ctx@ == State::initial(),
    {
        let ctx = Context {
            back_buffer: vec![0u32; PIXELS],
            depth_buffer: vec![Scalar::one(); PIXELS],
            clear_color: ClearColor {
                red: Scalar::zero(),
                green: Scalar::zero(),
                blue: Scalar::zero(),
                alpha: Scalar::zero(),
            },
            depth_mask: true,
            display_lists: Vec::new(),
            new_list: None,
            new_list_mode: 0,
            modelview: Matrix::identity(),
            projection: Matrix::identity(),
            matrix_mode: MatrixMode::ModelView,
            matrix_stack: Vec::new(),
            textures: Vec::new(),
            texture_2d: 0,
            primitive_mode: None,
            current_normal: Vec3::zero(),
            current_tex_coord: Vec4::new(
                Scalar::zero(),
                Scalar::zero(),
                Scalar::zero(),
                Scalar::one(),
            ),
            verts: Vec::new(),
            pixel_store: PixelStore::new(),
            arrays: ClientArrays::new(),
            viewport: Viewport { x: 0, y: 0, width: 640, height: 480 },
        };
        proof {
            reveal(depths_ok);
            assert(ctx@.back =~= State::initial().back);
            assert(ctx@.depth =~= State::initial().depth);
            assert(ctx@.lists =~= State::initial().lists);
            assert(ctx@.stack =~= State::initial().stack);
            assert(ctx@.textures =~= State::initial().textures);
            assert(ctx@.verts =~= State::initial().verts);
        }
        ctx
    }

    /// Draws the triangle of three clip-space vertices.
    pub fn assemble_triangle(&mut self, verts: [Vertex; 3])
        requires
            old(self).wf(),
        ensures
            final(self).wf(),
            final(self)@.lists == old(self)@.lists,
            final(self)@.new_list == old(self)@.new_list,
            final(self)@ == old(self)@.draw(verts[0], verts[1], verts[2]),
            final(self)@.verts == old(self)@.verts,
    {
        reveal(State::draw);
        if !survives_clip(verts[0].position) || !survives_clip(verts[1].position)
            || !survives_clip(verts[2].position) {
            return ;
        }
        let t = self.viewport.screen_triangle(verts[0], verts[1], verts[2]);
        proof {
            lemma_drawn_depths_ok(t, self.viewport, self.depth_buffer@, self.depth_mask);
        }
        t.fill(&mut self.back_buffer, &mut self.depth_buffer, self.depth_mask, self.viewport);
    }

    /// Records a command at the end of a display list.
    fn record(&mut self, name: u32, command: Command)
        requires
            old(self).wf(),
            old(self)@.has_list(name),
        ensures
            final(self).wf(),
            final(self)@ == old(self)@.record(name, command),
    {
        let at: usize = (name - 1) as usize;
        self.display_lists[at].commands.push(command);
        proof {
            assert(final(self)@.lists =~= old(self)@.record(name, command).lists);
        }
    }

    /// The matrix that the matrix mode selects.
    pub fn current_matrix(&self) -> (m: Matrix)
        ensures
            m == self@.current_matrix(),
    {
        match self.matrix_mode {
            MatrixMode::ModelView => self.modelview,
            MatrixMode::Projection => self.projection,
        }
    }

    /// Puts `m` in place of the matrix that the matrix mode selects.
    pub fn set_current_matrix(&mut self, m: Matrix)
        requires
            old(self).wf(),
        ensures
            final(self).wf(),
            final(self)@.lists == old(self)@.lists,
            final(self)@.new_list == old(self)@.new_list,
            final(self)@ == old(self)@.with_current_matrix(m),
    {
        match self.matrix_mode {
            MatrixMode::ModelView => {
                self.modelview = m;
            },
            MatrixMode::Projection => {
                self.projection = m;
            },
        }
    }

    /// Multiplies the matrix that the matrix mode selects by `m` from the
    /// right.
    pub fn multiply_current_matrix(&mut self, m: Matrix)
        requires
            old(self).wf(),
        ensures
            final(self).wf(),
            final(self)@.lists == old(self)@.lists,
            final(self)@.new_list == old(self)@.new_list,
            final(self)@ == old(self)@.with_current_matrix(old(self)@.current_matrix().times(m)),
    {
        let product = self.current_matrix().times(m);
        self.set_current_matrix(product);
    }

    /// Multiplies the current matrix by `m` unless a primitive is open.
    fn multiply_matrix(&mut self, m: Matrix) -> (r: Result<(), Fault>)
        requires
            old(self).wf(),
        ensures
            final(self).wf(),
            final(self)@.lists == old(self)@.lists,
            final(self)@.new_list == old(self)@.new_list,
            final(self)@ == old(self)@.multiply_matrix(m).state,
            fault_of(r) == old(self)@.multiply_matrix(m).fault,
    {
        if self.primitive_mode.is_some() {
            return Err(Fault::MatrixChangeInsideBegin);
        }
        self.multiply_current_matrix(m);
        Ok(())
    }

    /// Opens a primitive.
    fn begin(&mut self, mode: u32) -> (r: Result<(), Fault>)
        requires
            old(self).wf(),
        ensures
            final(self).wf(),
            final(self)@.lists == old(self)@.lists,
            final(self)@.new_list == old(self)@.new_list,
            final(self)@ == old(self)@.begin(mode).state,
            fault_of(r) == old(self)@.begin(mode).fault,
    {
        if self.primitive_mode.is_some() {
            return Err(Fault::BeginInsideBegin);
        }
        if mode == GL_TRIANGLES {
            self.primitive_mode = Some(PrimitiveMode::Triangles);
            Ok(())
        } else if mode == GL_QUADS {
            self.primitive_mode = Some(PrimitiveMode::Quads);
            Ok(())
        } else {
            Err(Fault::InvalidPrimitiveMode)
        }
    }

    /// Takes every held vertex to clip space.
    fn clip_verts(&mut self)
        requires
            old(self).wf(),
        ensures
            final(self).wf(),
            final(self)@ == old(self)@.clip_verts(),
    {
        let n: usize = self.verts.len();
        let ghost s0 = self@;
        let mut i: usize = 0;
        while i < n
            invariant
                self.wf(),
                i <= n,
                n == s0.verts.len(),
                self@ == (State { verts: self@.verts, ..s0 }),
                self@.verts.len() == n,
                forall|j: int| 0 <= j < i ==> self@.verts[j] == s0.to_clip(s0.verts[j]),
                forall|j: int| i <= j < n ==> self@.verts[j] == s0.verts[j],
            decreases n - i,
        {
            let v = self.verts[i];
            let eye = self.modelview.transform(v.position);
            let clip = self.projection.transform(eye);
            self.verts[i] = Vertex { position: clip, normal: v.normal, tex_coord: v.tex_coord };
            i = i + 1;
        }
        proof {
            assert(self@.verts =~= s0.clip_verts().verts);
        }
    }

    /// Draws the triangles that the held vertices make up.
    fn draw_triangles(&mut self)
        requires
            old(self).wf(),
            old(self)@.verts.len() % 3 == 0,
        ensures
            final(self).wf(),
            final(self)@ == old(self)@.draw_primitives(PrimitiveMode::Triangles, 0),
            final(self)@.verts == old(self)@.verts,
            final(self)@.lists == old(self)@.lists,
            final(self)@.new_list == old(self)@.new_list,
    {
        let n: usize = self.verts.len();
        let ghost s0 = self@;
        let mut k: usize = 0;
        while k < n
            invariant
                self.wf(),
                k <= n,
                (n - k) % 3 == 0,
                n == s0.verts.len(),
                self@.verts == s0.verts,
                self@.lists == s0.lists,
                self@.new_list == s0.new_list,
                self@.draw_primitives(PrimitiveMode::Triangles, k as int) == s0.draw_primitives(
                    PrimitiveMode::Triangles,
                    0,
                ),
            decreases n - k,
        {
            let a = self.verts[k];
            let b = self.verts[k + 1];
            let c = self.verts[k + 2];
            self.assemble_triangle([a, b, c]);
            k = k + 3;
        }
    }

    /// Draws the quads that the held vertices make up.
    fn draw_quads(&mut self)
        requires
            old(self).wf(),
            old(self)@.verts.len() % 4 == 0,
        ensures
            final(self).wf(),
            final(self)@ == old(self)@.draw_primitives(PrimitiveMode::Quads, 0),
            final(self)@.verts == old(self)@.verts,
            final(self)@.lists == old(self)@.lists,
            final(self)@.new_list == old(self)@.new_list,
    {
        let n: usize = self.verts.len();
        let ghost s0 = self@;
        let mut k: usize = 0;
        while k < n
            invariant
                self.wf(),
                k <= n,
                (n - k) % 4 == 0,
                n == s0.verts.len(),
                self@.verts == s0.verts,
                self@.lists == s0.lists,
                self@.new_list == s0.new_list,
                self@.draw_primitives(PrimitiveMode::Quads, k as int) == s0.draw_primitives(
                    PrimitiveMode::Quads,
                    0,
                ),
            decreases n - k,
        {
            let a = self.verts[k];
            let b = self.verts[k + 1];
            let c = self.verts[k + 2];
            let d = self.verts[k + 3];
            self.assemble_triangle([a, b, c]);
            self.assemble_triangle([c, d, a]);
            k = k + 4;
        }
    }

    /// Closes the open primitive and draws it.
    fn end(&mut self) -> (r: Result<(), Fault>)
        requires
            old(self).wf(),
        ensures
            final(self).wf(),
            final(self)@.lists == old(self)@.lists,
            final(self)@.new_list == old(self)@.new_list,
            final(self)@ == old(self)@.end().state,
            fault_of(r) == old(self)@.end().fault,
    {
        reveal(State::end);
        let mode = match self.primitive_mode {
            None => {
                return Err(Fault::EndWithoutBegin);
            },
            Some(mode) => mode,
        };
        if !mode.completes(self.verts.len()) {
            return Err(Fault::IncompletePrimitive);
        }
        self.clip_verts();
        match mode {
            PrimitiveMode::Triangles => self.draw_triangles(),
            PrimitiveMode::Quads => self.draw_quads(),
        }
        self.verts.clear();
        self.primitive_mode = None;
        Ok(())
    }

    /// Clears the buffers that `mask` names.
    fn clear(&mut self, mask: u32)
        requires
            old(self).wf(),
        ensures
            final(self).wf(),
            final(self)@.lists == old(self)@.lists,
            final(self)@.new_list == old(self)@.new_list,
            final(self)@ == old(self)@.clear(mask),
    {
        reveal(State::clear);
        proof {
            reveal(depths_ok);
        }
        if (mask & GL_DEPTH_BUFFER_BIT) != 0 {
            fill_depth(&mut self.depth_buffer, Scalar::one());
        }
        if (mask & GL_COLOR_BUFFER_BIT) != 0 {
            let pixel = pack_clear_color(self.clear_color);
            fill_color(&mut self.back_buffer, pixel);
        }
    }

    /// Sets a filter of the bound texture.
    fn tex_parameter(&mut self, target: u32, pname: u32, param: i32) -> (r: Result<(), Fault>)
        requires
            old(self).wf(),
        ensures
            final(self).wf(),
            final(self)@.lists == old(self)@.lists,
            final(self)@.new_list == old(self)@.new_list,
            final(self)@ == old(self)@.tex_parameter(target, pname, param).state,
            fault_of(r) == old(self)@.tex_parameter(target, pname, param).fault,
    {
        reveal(State::tex_parameter);
        if target != GL_TEXTURE_2D {
            return Err(Fault::InvalidTextureTarget);
        }
        let at: usize = self.texture_2d as usize;
        if at >= self.textures.len() {
            return Err(Fault::UnknownTexture);
        }
        let t = self.textures[at];
        if pname == GL_TEXTURE_MAG_FILTER {
            if param == GL_LINEAR {
                self.textures[at] = Texture {
                    mag_filter: TextureFilter::Linear,
                    min_filter: t.min_filter,
                };
                Ok(())
            } else {
                Err(Fault::InvalidTextureFilter)
            }
        } else if pname == GL_TEXTURE_MIN_FILTER {
            if param == GL_LINEAR {
                self.textures[at] = Texture {
                    mag_filter: t.mag_filter,
                    min_filter: TextureFilter::Linear,
                };
                Ok(())
            } else if param == GL_LINEAR_MIPMAP_NEAREST {
                self.textures[at] = Texture {
                    mag_filter: t.mag_filter,
                    min_filter: TextureFilter::LinearMipmapNearest,
                };
                Ok(())
            } else {
                Err(Fault::InvalidTextureFilter)
            }
        } else {
            Err(Fault::InvalidTextureParameter)
        }
    }

    /// Takes the top of the matrix stack for the current matrix.
    fn pop_matrix(&mut self) -> (r: Result<(), Fault>)
        requires
            old(self).wf(),
        ensures
            final(self).wf(),
            final(self)@.lists == old(self)@.lists,
            final(self)@.new_list == old(self)@.new_list,
            final(self)@ == old(self)@.pop_matrix().state,
            fault_of(r) == old(self)@.pop_matrix().fault,
    {
        if self.primitive_mode.is_some() {
            return Err(Fault::MatrixChangeInsideBegin);
        }
        match self.matrix_stack.pop() {
            None => Err(Fault::MatrixStackUnderflow),
            Some(m) => {
                self.set_current_matrix(m);
                Ok(())
            },
        }
    }

    /// Binds a texture name to the two-dimensional target.
    fn bind_texture(&mut self, target: u32, texture: u32) -> (r: Result<(), Fault>)
        requires
            old(self).wf(),
        ensures
            final(self).wf(),
            final(self)@.lists == old(self)@.lists,
            final(self)@.new_list == old(self)@.new_list,
            final(self)@ == old(self)@.bind_texture(target, texture).state,
            fault_of(r) == old(self)@.bind_texture(target, texture).fault,
    {
        if target == GL_TEXTURE_2D {
            self.texture_2d = texture;
            Ok(())
        } else {
            Err(Fault::InvalidTextureTarget)
        }
    }

    /// Allows or forbids depth writes.
    fn set_depth_mask(&mut self, flag: i32) -> (r: Result<(), Fault>)
        requires
            old(self).wf(),
        ensures
            final(self).wf(),
            final(self)@.lists == old(self)@.lists,
            final(self)@.new_list == old(self)@.new_list,
            final(self)@ == old(self)@.set_depth_mask(flag).state,
            fault_of(r) == old(self)@.set_depth_mask(flag).fault,
    {
        if flag == GL_FALSE {
            self.depth_mask = false;
            Ok(())
        } else if flag == GL_TRUE {
            self.depth_mask = true;
            Ok(())
        } else {
            Err(Fault::InvalidDepthMaskFlag)
        }
    }

    /// Selects the matrix that the matrix calls work on.
    fn set_matrix_mode(&mut self, mode: u32) -> (r: Result<(), Fault>)
        requires
            old(self).wf(),
        ensures
            final(self).wf(),
            final(self)@.lists == old(self)@.lists,
            final(self)@.new_list == old(self)@.new_list,
            final(self)@ == old(self)@.set_matrix_mode(mode).state,
            fault_of(r) == old(self)@.set_matrix_mode(mode).fault,
    {
        if mode == GL_MODELVIEW {
            self.matrix_mode = MatrixMode::ModelView;
            Ok(())
        } else if mode == GL_PROJECTION {
            self.matrix_mode = MatrixMode::Projection;
            Ok(())
        } else {
            Err(Fault::InvalidMatrixMode)
        }
    }

    /// Puts `m` in place of the current matrix unless a primitive is open.
    fn load_matrix(&mut self, m: Matrix) -> (r: Result<(), Fault>)
        requires
            old(self).wf(),
        ensures
            final(self).wf(),
            final(self)@.lists == old(self)@.lists,
            final(self)@.new_list == old(self)@.new_list,
            final(self)@ == old(self)@.load_matrix(m).state,
            fault_of(r) == old(self)@.load_matrix(m).fault,
    {
        if self.primitive_mode.is_some() {
            Err(Fault::MatrixChangeInsideBegin)
        } else {
            self.set_current_matrix(m);
            Ok(())
        }
    }

    /// Multiplies the current matrix by an orthographic projection.
    fn ortho(
        &mut self,
        left: Scalar,
        right: Scalar,
        bottom: Scalar,
        top: Scalar,
        z_near: Scalar,
        z_far: Scalar,
    ) -> (r: Result<(), Fault>)
        requires
            old(self).wf(),
        ensures
            final(self).wf(),
            final(self)@.lists == old(self)@.lists,
            final(self)@.new_list == old(self)@.new_list,
            final(self)@ == old(self)@.ortho(left, right, bottom, top, z_near, z_far).state,
            fault_of(r) == old(self)@.ortho(left, right, bottom, top, z_near, z_far).fault,
    {
        if self.primitive_mode.is_some() {
            Err(Fault::MatrixChangeInsideBegin)
        } else {
            match Matrix::ortho(left, right, bottom, top, z_near, z_far) {
                None => Err(Fault::EmptyOrthoBox),
                Some(m) => self.multiply_matrix(m),
            }
        }
    }

    /// Puts a copy of the current matrix on the matrix stack.
    fn push_matrix(&mut self)
        requires
            old(self).wf(),
        ensures
            final(self).wf(),
            final(self)@.lists == old(self)@.lists,
            final(self)@.new_list == old(self)@.new_list,
            final(self)@ == old(self)@.push_matrix(),
    {
        let m = self.current_matrix();
        self.matrix_stack.push(m);
    }

    /// Holds one more vertex.
    fn add_vertex(&mut self, x: Scalar, y: Scalar, z: Scalar)
        requires
            old(self).wf(),
        ensures
            final(self).wf(),
            final(self)@.lists == old(self)@.lists,
            final(self)@.new_list == old(self)@.new_list,
            final(self)@ == old(self)@.add_vertex(x, y, z),
    {
        let vertex = Vertex {
            position: Vec4::new(x, y, z, Scalar::one()),
            normal: self.current_normal,
            tex_coord: self.current_tex_coord,
        };
        self.verts.push(vertex);
    }

    /// Carries out the commands of a display list, with `fuel` display lists
    /// of depth left for the calls among them.
    fn call_list(&mut self, list: u32, fuel: u32) -> (r: Result<(), Fault>)
        requires
            old(self).wf(),
            old(self)@.has_list(list),
        ensures
            final(self).wf(),
            final(self)@.lists == old(self)@.lists,
            final(self)@.new_list == old(self)@.new_list,
            final(self)@ == old(self)@.run(old(self)@.list(list), fuel as nat).state,
            fault_of(r) == old(self)@.run(old(self)@.list(list), fuel as nat).fault,
        decreases fuel, 1nat,
    {
        let at: usize = (list - 1) as usize;
        let n: usize = self.display_lists[at].commands.len();
        let ghost s0 = self@;
        let ghost commands = s0.list(list);
        let mut i: usize = 0;
        let mut result: Result<(), Fault> = Ok(());
        proof {
            assert(commands.subrange(0, n as int) =~= commands);
        }
        while i < n && result.is_ok()
            invariant
                self.wf(),
                i <= n,
                at == list - 1,
                n == commands.len(),
                commands == s0.list(list),
                s0.has_list(list),
                self@.lists == s0.lists,
                self@.new_list == s0.new_list,
                result.is_ok() ==> self@.run(commands.subrange(i as int, n as int), fuel as nat)
                    == s0.run(commands, fuel as nat),
                result.is_err() ==> s0.run(commands, fuel as nat) == self@.refused(
                    result.unwrap_err(),
                ),
            decreases n - i,
        {
            let command: Command = self.display_lists[at].commands[i];
            let ghost rest = commands.subrange(i as int, n as int);
            proof {
                assert(rest[0] == command);
                assert(rest.drop_first() =~= commands.subrange(i + 1, n as int));
            }
            result = self.execute_nested(&command, fuel);
            i = i + 1;
        }
        result
    }

    /// Carries out a command, with `fuel` display lists of depth left for
    /// the calls it makes.
    fn execute_nested(&mut self, command: &Command, fuel: u32) -> (r: Result<(), Fault>)
        requires
            old(self).wf(),
        ensures
            final(self).wf(),
            final(self)@.lists == old(self)@.lists,
            final(self)@.new_list == old(self)@.new_list,
            final(self)@ == old(self)@.execute(*command, fuel as nat).state,
            fault_of(r) == old(self)@.execute(*command, fuel as nat).fault,
        decreases fuel, 0nat,
    {
        match *command {
            Command::ActiveTextureARB { .. } => Ok(()),
            Command::Begin { mode } => self.begin(mode),
            Command::BindTexture { target, texture } => self.bind_texture(target, texture),
            Command::BlendFunc { .. } => Ok(()),
            Command::CallList { list } => {
                if list == 0 || list as usize > self.display_lists.len() {
                    Err(Fault::UnknownList)
                } else if fuel == 0 {
                    Err(Fault::ListNestingTooDeep)
                } else {
                    self.call_list(list, fuel - 1)
                }
            },
            Command::Clear { mask } => {
                self.clear(mask);
                Ok(())
            },
            Command::ClearColor { red, green, blue, alpha } => {
                self.clear_color = ClearColor { red, green, blue, alpha };
                Ok(())
            },
            Command::Color4f { .. } => Ok(()),
            Command::CullFace { .. } => Ok(()),
            Command::DepthMask { flag } => self.set_depth_mask(flag),
            Command::Disable { .. } => Ok(()),
            Command::Enable { .. } => Ok(()),
            Command::End => self.end(),
            Command::Lightf { .. } => Ok(()),
            Command::LoadIdentity => self.load_matrix(Matrix::identity()),
            Command::MatrixMode { mode } => self.set_matrix_mode(mode),
            Command::MultiTexCoord2fARB { .. } => Ok(()),
            Command::MultMatrixd { m } => self.multiply_matrix(Matrix::from_columns(&m)),
            Command::MultMatrixf { m } => self.multiply_matrix(Matrix::from_columns(&m)),
            Command::Normal3f { nx, ny, nz } => {
                self.current_normal = Vec3::new(nx, ny, nz);
                Ok(())
            },
            Command::Normal3fv { v } => {
                self.current_normal = Vec3::new(v[0], v[1], v[2]);
                Ok(())
            },
            Command::Ortho { left, right, bottom, top, z_near, z_far } => self.ortho(
                left,
                right,
                bottom,
                top,
                z_near,
                z_far,
            ),
            Command::PolygonMode { .. } => Ok(()),
            Command::PopMatrix => self.pop_matrix(),
            Command::PushMatrix => {
                self.push_matrix();
                Ok(())
            },
            Command::ShadeModel { .. } => Ok(()),
            Command::TexCoord2f { s, t } => {
                self.current_tex_coord = Vec4::new(s, t, Scalar::zero(), Scalar::one());
                Ok(())
            },
            Command::TexGenf { .. } => Ok(()),
            Command::TexParameteri { target, pname, param } => self.tex_parameter(
                target,
                pname,
                param,
            ),
            Command::Translated { x, y, z } => self.multiply_matrix(Matrix::translation(x, y, z)),
            Command::Vertex3f { x, y, z } => {
                self.add_vertex(x, y, z);
                Ok(())
            },
            Command::Viewport { x, y, width, height } => {
                self.viewport = Viewport { x, y, width, height };
                Ok(())
            },
        }
    }

    /// Carries out a command: a refused command leaves the context as it
    /// was, a refused command inside a display list leaves what the commands
    /// before it made.
    pub fn execute(&mut self, command: &Command) -> (r: Result<(), Fault>)
        requires
            old(self).wf(),
        ensures
            final(self).wf(),
            final(self)@.lists == old(self)@.lists,
            final(self)@.new_list == old(self)@.new_list,
            final(self)@ == old(self)@.execute(*command, MAX_LIST_NESTING as nat).state,
            fault_of(r) == old(self)@.execute(*command, MAX_LIST_NESTING as nat).fault,
    {
        self.execute_nested(command, MAX_LIST_NESTING)
    }

    /// Issues a command: it is carried out at once where no display list is
    /// being compiled, recorded where one is compiled, and both where one is
    /// compiled and executed.
    pub fn issue(&mut self, command: Command) -> (r: Result<(), Fault>)
        requires
            old(self).wf(),
        ensures
            final(self).wf(),
            final(self)@ == old(self)@.issue(command).state,
            fault_of(r) == old(self)@.issue(command).fault,
    {
        reveal(State::issue);
        match self.new_list {
            None => self.execute(&command),
            Some(name) => {
                if self.new_list_mode == GL_COMPILE_AND_EXECUTE {
                    match self.execute(&command) {
                        Ok(()) => {},
                        Err(fault) => {
                            return Err(fault);
                        },
                    }
                }
                self.record(name, command);
                Ok(())
            },
        }
    }

    /// Starts compiling the display list `name`, which loses the commands
    /// it held.
    pub fn new_list(&mut self, list: u32, mode: u32) -> (r: Result<(), Fault>)
        requires
            old(self).wf(),
        ensures
            final(self).wf(),
            final(self)@ == old(self)@.new_list(list, mode).state,
            fault_of(r) == old(self)@.new_list(list, mode).fault,
    {
        if self.primitive_mode.is_some() {
            return Err(Fault::ListBoundaryInsideBegin);
        }
        if mode != GL_COMPILE && mode != GL_COMPILE_AND_EXECUTE {
            return Err(Fault::InvalidListMode);
        }
        if list == 0 || list as usize > self.display_lists.len() {
            return Err(Fault::UnknownList);
        }
        let at: usize = (list - 1) as usize;
        self.new_list = Some(list);
        self.new_list_mode = mode;
        self.display_lists[at].commands.clear();
        proof {
            assert(final(self)@.lists =~= old(self)@.new_list(list, mode).state.lists);
        }
        Ok(())
    }

    /// Stops compiling.
    pub fn end_list(&mut self) -> (r: Result<(), Fault>)
        requires
            old(self).wf(),
        ensures
            final(self).wf(),
            final(self)@ == old(self)@.end_list().state,
            fault_of(r) == old(self)@.end_list().fault,
    {
        if self.primitive_mode.is_some() {
            return Err(Fault::ListBoundaryInsideBegin);
        }
        self.new_list = None;
        Ok(())
    }

    /// Makes `range` new display lists, all empty, and returns the name of
    /// the first; their names follow one another. Names start at 1. Refused
    /// where that many names are not left.
    pub fn gen_lists(&mut self, range: u32) -> (r: Result<u32, Fault>)
        requires
            old(self).wf(),
        ensures
            final(self).wf(),
            old(self)@.can_gen_lists(range) ==> r == Ok::<u32, Fault>(
                (old(self)@.lists.len() + 1) as u32,
            ) && final(self)@ == old(self)@.gen_lists(range),
            !old(self)@.can_gen_lists(range) ==> r == Err::<u32, Fault>(Fault::OutOfNames)
                && final(self)@ == old(self)@,
    {
        let have: usize = self.display_lists.len();
        if have as u64 + range as u64 >= u32::MAX as u64 {
            return Err(Fault::OutOfNames);
        }
        let first: u32 = (have + 1) as u32;
        let ghost s0 = self@;
        let mut made: u32 = 0;
        while made < range
            invariant
                made <= range,
                s0.wf(),
                s0.can_gen_lists(range),
                self@ == s0.gen_lists(made),
            decreases range - made,
        {
            let ghost before = self@.lists;
            self.display_lists.push(DisplayList::new());
            made = made + 1;
            proof {
                let after = self@.lists;
                let target = s0.gen_lists(made).lists;
                assert(before == s0.gen_lists((made - 1) as u32).lists);
                assert(after.len() == target.len());
                assert forall|i: int| 0 <= i < after.len() implies after[i] == target[i] by {
                    if i < before.len() {
                        assert(after[i] == before[i]);
                    } else {
                        assert(after[i] == Seq::<Command>::empty());
                    }
                }
                assert(after =~= target);
            }
        }
        Ok(first)
    }

    /// Makes `n` new textures and returns their names, which follow one
    /// another from the number of textures there were. Refused where that
    /// many names are not left.
    pub fn gen_textures(&mut self, n: u32) -> (r: Result<Vec<u32>, Fault>)
        requires
            old(self).wf(),
        ensures
            final(self).wf(),
            old(self)@.can_gen_textures(n) ==> final(self)@ == old(self)@.gen_textures(n)
                && r.is_ok() && r.unwrap()@ == Seq::new(
                n as nat,
                |i: int| (old(self)@.textures.len() + i) as u32,
            ),
            !old(self)@.can_gen_textures(n) ==> r == Err::<Vec<u32>, Fault>(Fault::OutOfNames)
                && final(self)@ == old(self)@,
    {
        let have: usize = self.textures.len();
        if have as u64 + n as u64 > u32::MAX as u64 {
            return Err(Fault::OutOfNames);
        }
        let ghost s0 = self@;
        let mut names: Vec<u32> = Vec::new();
        let mut made: u32 = 0;
        while made < n
            invariant
                made <= n,
                s0.wf(),
                s0.can_gen_textures(n),
                have == s0.textures.len(),
                self@ == s0.gen_textures(made),
                names@ == Seq::new(made as nat, |i: int| (s0.textures.len() + i) as u32),
            decreases n - made,
        {
            names.push((have as u64 + made as u64) as u32);
            self.textures.push(Texture::new());
            made = made + 1;
            proof {
                assert(self@.textures =~= s0.gen_textures(made).textures);
                assert(names@ =~= Seq::new(
                    made as nat,
                    |i: int| (s0.textures.len() + i) as u32,
                ));
            }
        }
        Ok(names)
    }

    /// The value that a query for `pname` reports.
    pub fn get_integerv(&self, pname: u32) -> (r: Result<i32, Fault>)
        ensures
            r == match self@.query(pname) {
                Some(v) => Ok::<i32, Fault>(v),
                None => Err::<i32, Fault>(Fault::InvalidQuery),
            },
    {
        reveal(State::query);
        let p = self.pixel_store;
        if pname == GL_UNPACK_SWAP_BYTES {
            Ok(p.unpack_swap_bytes)
        } else if pname == GL_UNPACK_LSB_FIRST {
            Ok(p.unpack_lsb_first)
        } else if pname == GL_UNPACK_ROW_LENGTH {
            Ok(p.unpack_row_length)
        } else if pname == GL_UNPACK_SKIP_ROWS {
            Ok(p.unpack_skip_rows)
        } else if pname == GL_UNPACK_SKIP_PIXELS {
            Ok(p.unpack_skip_pixels)
        } else if pname == GL_UNPACK_ALIGNMENT {
            Ok(p.unpack_alignment)
        } else if pname == GL_PACK_SWAP_BYTES {
            Ok(p.pack_swap_bytes)
        } else if pname == GL_PACK_LSB_FIRST {
            Ok(p.pack_lsb_first)
        } else if pname == GL_PACK_ROW_LENGTH {
            Ok(p.pack_row_length)
        } else if pname == GL_PACK_SKIP_ROWS {
            Ok(p.pack_skip_rows)
        } else if pname == GL_PACK_SKIP_PIXELS {
            Ok(p.pack_skip_pixels)
        } else if pname == GL_PACK_ALIGNMENT {
            Ok(p.pack_alignment)
        } else if pname == GL_MAX_TEXTURE_SIZE {
            Ok(MAX_TEXTURE_SIZE)
        } else {
            Err(Fault::InvalidQuery)
        }
    }

    /// The error that the calls so far have raised: always none, since a
    /// refused call is reported to its caller at once.
    pub fn get_error(&self) -> (code: u32)
        ensures
            code == GL_NO_ERROR,
    {
        GL_NO_ERROR
    }

    /// Sets a pixel-store parameter.
    pub fn pixel_storei(&mut self, pname: u32, param: i32) -> (r: Result<(), Fault>)
        requires
            old(self).wf(),
        ensures
            final(self).wf(),
            final(self)@ == old(self)@.pixel_store(pname, param).state,
            fault_of(r) == old(self)@.pixel_store(pname, param).fault,
    {
        reveal(State::pixel_store);
        if pname == GL_UNPACK_SWAP_BYTES {
            if param == 0 || param == 1 {
                self.pixel_store.unpack_swap_bytes = param;
                Ok(())
            } else {
                Err(Fault::InvalidPixelStoreValue)
            }
        } else if pname == GL_UNPACK_ROW_LENGTH {
            if param >= 0 {
                self.pixel_store.unpack_row_length = param;
                Ok(())
            } else {
                Err(Fault::InvalidPixelStoreValue)
            }
        } else if pname == GL_UNPACK_SKIP_ROWS {
            if param >= 0 {
                self.pixel_store.unpack_skip_rows = param;
                Ok(())
            } else {
                Err(Fault::InvalidPixelStoreValue)
            }
        } else if pname == GL_UNPACK_SKIP_PIXELS {
            if param >= 0 {
                self.pixel_store.unpack_skip_pixels = param;
                Ok(())
            } else {
                Err(Fault::InvalidPixelStoreValue)
            }
        } else if pname == GL_UNPACK_ALIGNMENT {
            if param == 1 || param == 2 || param == 4 || param == 8 {
                self.pixel_store.unpack_alignment = param;
                Ok(())
            } else {
                Err(Fault::InvalidPixelStoreValue)
            }
        } else {
            Err(Fault::InvalidPixelStoreParameter)
        }
    }

    /// Describes the vertex array.
    pub fn vertex_pointer(&mut self, size: i32, type_: u32, stride: u32) -> (r: Result<(), Fault>)
        requires
            old(self).wf(),
        ensures
            final(self).wf(),
            final(self)@ == old(self)@.vertex_pointer(size, type_, stride).state,
            fault_of(r) == old(self)@.vertex_pointer(size, type_, stride).fault,
    {
        if size != 3 {
            return Err(Fault::InvalidArraySize);
        }
        if type_ != GL_FLOAT {
            return Err(Fault::InvalidArrayType);
        }
        if stride != 0 {
            return Err(Fault::InvalidArrayStride);
        }
        self.arrays.vertex_size = size;
        self.arrays.vertex_type = type_;
        self.arrays.vertex_stride = stride;
        Ok(())
    }

    /// Describes the normal array.
    pub fn normal_pointer(&mut self, type_: u32, stride: u32) -> (r: Result<(), Fault>)
        requires
            old(self).wf(),
        ensures
            final(self).wf(),
            final(self)@ == old(self)@.normal_pointer(type_, stride).state,
            fault_of(r) == old(self)@.normal_pointer(type_, stride).fault,
    {
        if type_ != GL_FLOAT {
            return Err(Fault::InvalidArrayType);
        }
        if stride != 0 {
            return Err(Fault::InvalidArrayStride);
        }
        self.arrays.normal_type = type_;
        self.arrays.normal_stride = stride;
        Ok(())
    }

    /// Enables a client array.
    pub fn enable_client_state(&mut self, array: u32) -> (r: Result<(), Fault>)
        requires
            old(self).wf(),
        ensures
            final(self).wf(),
            final(self)@ == old(self)@.set_client_state(array, true).state,
            fault_of(r) == old(self)@.set_client_state(array, true).fault,
    {
        if array == GL_VERTEX_ARRAY {
            self.arrays.vertex_enabled = true;
            Ok(())
        } else if array == GL_NORMAL_ARRAY {
            self.arrays.normal_enabled = true;
            Ok(())
        } else {
            Err(Fault::InvalidClientArray)
        }
    }

    /// Disables a client array.
    pub fn disable_client_state(&mut self, array: u32) -> (r: Result<(), Fault>)
        requires
            old(self).wf(),
        ensures
            final(self).wf(),
            final(self)@ == old(self)@.set_client_state(array, false).state,
            fault_of(r) == old(self)@.set_client_state(array, false).fault,
    {
        if array == GL_VERTEX_ARRAY {
            self.arrays.vertex_enabled = false;
            Ok(())
        } else if array == GL_NORMAL_ARRAY {
            self.arrays.normal_enabled = false;
            Ok(())
        } else {
            Err(Fault::InvalidClientArray)
        }
    }

    /// Where element `index` of the enabled client arrays is to be read.
    /// Refused for an index below 0.
    pub fn array_fetch(&self, index: i32) -> (r: Result<ArrayFetch, Fault>)
        requires
            self.wf(),
        ensures
            r == if index >= 0 {
                Ok::<ArrayFetch, Fault>(self@.array_fetch(index))
            } else {
                Err::<ArrayFetch, Fault>(Fault::InvalidArrayIndex)
            },
    {
        if index < 0 {
            return Err(Fault::InvalidArrayIndex);
        }
        let i: u64 = index as u64;
        let vertex_at: u64 = if self.arrays.vertex_size == 3 {
            i * 3
        } else {
            0
        };
        Ok(
            ArrayFetch {
                normal_at: if self.arrays.normal_enabled {
                    Some(i * 3)
                } else {
                    None
                },
                vertex_at: if self.arrays.vertex_enabled {
                    Some(vertex_at)
                } else {
                    None
                },
            },
        )
    }

    /// Issues an element of the client arrays: `normal` and `vertex` are
    /// what the caller read from the normal and the vertex array at the
    /// places that `array_fetch` gave. The normal of an enabled normal array
    /// is issued first, then the vertex of an enabled vertex array. Refused
    /// where an enabled array's element is missing.
    pub fn array_element(&mut self, normal: Option<Vec3>, vertex: Option<Vec3>) -> (r: Result<
        (),
        Fault,
    >)
        requires
            old(self).wf(),
        ensures
            final(self).wf(),
            final(self)@ == old(self)@.array_element(normal, vertex).state,
            fault_of(r) == old(self)@.array_element(normal, vertex).fault,
    {
        if (self.arrays.normal_enabled && normal.is_none()) || (self.arrays.vertex_enabled
            && vertex.is_none()) {
            return Err(Fault::MissingArrayElement);
        }
        let vertex_enabled = self.arrays.vertex_enabled;
        let mut result: Result<(), Fault> = Ok(());
        if self.arrays.normal_enabled {
            let n = normal.unwrap();
            result = self.issue(Command::Normal3f { nx: n.x, ny: n.y, nz: n.z });
        }
        if result.is_ok() && vertex_enabled {
            let v = vertex.unwrap();
            result = self.issue(Command::Vertex3f { x: v.x, y: v.y, z: v.z });
        }
        result
    }

    /// The depth buffer, laid out as the frame is.
    pub fn depth_buffer(&self) -> (depths: &Vec<Scalar>)
        ensures
            depths@ == self@.depth,
    {
        &self.depth_buffer
    }

    /// The colour that a clear fills the colour buffer with.
    pub fn clear_color(&self) -> (color: ClearColor)
        ensures
            color == self@.clear_color,
    {
        self.clear_color
    }

    /// Whether drawing writes depths.
    pub fn depth_mask(&self) -> (mask: bool)
        ensures
            mask == self@.depth_mask,
    {
        self.depth_mask
    }

    /// How many display lists there are; their names run from 1 to this.
    pub fn list_count(&self) -> (count: usize)
        ensures
            count == self@.lists.len(),
    {
        self.display_lists.len()
    }

    /// The commands of the display list `name`, if there is one.
    pub fn list_commands(&self, name: u32) -> (commands: Option<&Vec<Command>>)
        ensures
            self@.has_list(name) ==> commands.is_some() && commands.unwrap()@ == self@.list(name),
            !self@.has_list(name) ==> commands.is_none(),
    {
        if name == 0 || name as usize > self.display_lists.len() {
            None
        } else {
            Some(&self.display_lists[(name - 1) as usize].commands)
        }
    }

    /// The name of the display list being compiled, if one is.
    pub fn compiling(&self) -> (name: Option<u32>)
        ensures
            name == self@.new_list,
    {
        self.new_list
    }

    /// The model-view matrix.
    pub fn modelview(&self) -> (m: Matrix)
        ensures
            m == self@.modelview,
    {
        self.modelview
    }

    /// The projection matrix.
    pub fn projection(&self) -> (m: Matrix)
        ensures
            m == self@.projection,
    {
        self.projection
    }

    /// Which matrix the matrix calls work on.
    pub fn matrix_mode(&self) -> (mode: MatrixMode)
        ensures
            mode == self@.matrix_mode,
    {
        self.matrix_mode
    }

    /// How many matrices the matrix stack holds.
    pub fn stack_depth(&self) -> (depth: usize)
        ensures
            depth == self@.stack.len(),
    {
        self.matrix_stack.len()
    }

    /// The texture `name`, if there is one.
    pub fn texture(&self, name: u32) -> (texture: Option<Texture>)
        ensures
            texture == if name < self@.textures.len() {
                Some(self@.textures[name as int])
            } else {
                None
            },
    {
        if (name as usize) < self.textures.len() {
            Some(self.textures[name as usize])
        } else {
            None
        }
    }

    /// The name bound to the two-dimensional texture target.
    pub fn bound_texture(&self) -> (name: u32)
        ensures
            name == self@.texture_2d,
    {
        self.texture_2d
    }

    /// The primitive that is open, if one is.
    pub fn primitive_mode(&self) -> (mode: Option<PrimitiveMode>)
        ensures
            mode == self@.primitive_mode,
    {
        self.primitive_mode
    }

    /// How many vertices are held for the open primitive.
    pub fn vertex_count(&self) -> (count: usize)
        ensures
            count == self@.verts.len(),
    {
        self.verts.len()
    }

    /// The normal that the next vertex takes.
    pub fn current_normal(&self) -> (normal: Vec3)
        ensures
            normal == self@.current_normal,
    {
        self.current_normal
    }

    /// The texture coordinate that the next vertex takes.
    pub fn current_tex_coord(&self) -> (coord: Vec4)
        ensures
            coord == self@.current_tex_coord,
    {
        self.current_tex_coord
    }

    /// The pixel-store parameters.
    pub fn pixel_store(&self) -> (parameters: PixelStore)
        ensures
            parameters == self@.pixel_store,
    {
        self.pixel_store
    }

    /// What is known of the client arrays.
    pub fn client_arrays(&self) -> (arrays: ClientArrays)
        ensures
            arrays == self@.arrays,
    {
        self.arrays
    }

    /// The viewport.
    pub fn viewport(&self) -> (viewport: Viewport)
        ensures
            viewport == self@.viewport,
    {
        self.viewport
    }

    /// The frame to present: the colour buffer, one pixel for each pixel of
    /// the surface, top row first. Presenting changes nothing.
    pub fn swap_buffers(&self) -> (frame: &Vec<u32>)
        ensures
            frame@ == self@.back,
    {
        &self.back_buffer
    }
}

/// Sets every depth to `value`.
fn fill_depth(buffer: &mut Vec<Scalar>, value: Scalar)
    ensures
        final(buffer)@ == Seq::new(old(buffer)@.len(), |i: int| value),
{
    let n: usize = buffer.len();
    let mut i: usize = 0;
    while i < n
        invariant
            i <= n,
            buffer.len() == n,
            forall|j: int| 0 <= j < i ==> buffer@[j] == value,
        decreases n - i,
    {
        buffer[i] = value;
        i = i + 1;
    }
    proof {
        assert(buffer@ =~= Seq::new(old(buffer)@.len(), |i: int| value));
    }
}

/// Sets every pixel to `value`.
fn fill_color(buffer: &mut Vec<u32>, value: u32)
    ensures
        final(buffer)@ == Seq::new(old(buffer)@.len(), |i: int| value),
{
    let n: usize = buffer.len();
    let mut i: usize = 0;
    while i < n
        invariant
            i <= n,
            buffer.len() == n,
            forall|j: int| 0 <= j < i ==> buffer@[j] == value,
        decreases n - i,
    {
        buffer[i] = value;
        i = i + 1;
    }
    proof {
        assert(buffer@ =~= Seq::new(old(buffer)@.len(), |i: int| value));
    }
}

} // verus!