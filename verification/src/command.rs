//! The values that calls carry: the names of the interface's constants, the
//! small enumerations of the pipeline's modes, the record of a vertex, and
//! the command, one variant for every call that a display list can hold.
use vstd::prelude::*;
use crate::scalar::Scalar;
use crate::vector::{Vec3, Vec4};

verus! {

/// The error code that stands for no error.
pub const GL_NO_ERROR: u32 = 0;

/// The boolean false, as calls carry it.
pub const GL_FALSE: i32 = 0;

/// The boolean true, as calls carry it.
pub const GL_TRUE: i32 = 1;

/// The primitive mode of triangles.
pub const GL_TRIANGLES: u32 = 0x0004;

/// The primitive mode of quads.
pub const GL_QUADS: u32 = 0x0007;

/// The bit of a clear mask that names the depth buffer.
pub const GL_DEPTH_BUFFER_BIT: u32 = 0x0000_0100;

/// The bit of a clear mask that names the colour buffer.
pub const GL_COLOR_BUFFER_BIT: u32 = 0x0000_4000;

/// The names of the pixel-store parameters, first for unpacking.
pub const GL_UNPACK_SWAP_BYTES: u32 = 0x0cf0;

pub const GL_UNPACK_LSB_FIRST: u32 = 0x0cf1;

pub const GL_UNPACK_ROW_LENGTH: u32 = 0x0cf2;

pub const GL_UNPACK_SKIP_ROWS: u32 = 0x0cf3;

pub const GL_UNPACK_SKIP_PIXELS: u32 = 0x0cf4;

pub const GL_UNPACK_ALIGNMENT: u32 = 0x0cf5;

/// The names of the pixel-store parameters for packing.
pub const GL_PACK_SWAP_BYTES: u32 = 0x0d00;

pub const GL_PACK_LSB_FIRST: u32 = 0x0d01;

pub const GL_PACK_ROW_LENGTH: u32 = 0x0d02;

pub const GL_PACK_SKIP_ROWS: u32 = 0x0d03;

pub const GL_PACK_SKIP_PIXELS: u32 = 0x0d04;

pub const GL_PACK_ALIGNMENT: u32 = 0x0d05;

/// The name of the query for the side of the largest texture.
pub const GL_MAX_TEXTURE_SIZE: u32 = 0x0d33;

/// The two-dimensional texture target.
pub const GL_TEXTURE_2D: u32 = 0x0de1;

/// The list mode that records commands without carrying them out.
pub const GL_COMPILE: u32 = 0x1300;

/// The list mode that carries commands out and records them.
pub const GL_COMPILE_AND_EXECUTE: u32 = 0x1301;

/// The element type of single-precision numbers.
pub const GL_FLOAT: u32 = 0x1406;

/// The matrix mode of the model-view matrix.
pub const GL_MODELVIEW: u32 = 0x1700;

/// The matrix mode of the projection matrix.
pub const GL_PROJECTION: u32 = 0x1701;

/// The linear texture filter.
pub const GL_LINEAR: i32 = 0x2601;

/// The texture filter that is linear within the nearest mipmap.
pub const GL_LINEAR_MIPMAP_NEAREST: i32 = 0x2701;

/// The texture parameter of the filter for stretching.
pub const GL_TEXTURE_MAG_FILTER: u32 = 0x2800;

/// The texture parameter of the filter for shrinking.
pub const GL_TEXTURE_MIN_FILTER: u32 = 0x2801;

/// The client array of vertices.
pub const GL_VERTEX_ARRAY: u32 = 0x8074;

/// The client array of normals.
pub const GL_NORMAL_ARRAY: u32 = 0x8075;

/// The side of the largest texture that a query reports.
pub const MAX_TEXTURE_SIZE: i32 = 4096;

/// How deep display lists may call one another.
pub const MAX_LIST_NESTING: u32 = 64;

/// Which of the two matrices the matrix calls work on.
#[derive(Clone, Copy, Debug, PartialEq, Eq, Structural)]
pub enum MatrixMode {
    ModelView,
    Projection,
}

/// How a texture is sampled when it is stretched or shrunk.
#[derive(Clone, Copy, Debug, PartialEq, Eq, Structural)]
pub enum TextureFilter {
    Linear,
    LinearMipmapNearest,
}

/// The state of one texture.
#[derive(Clone, Copy, Debug, PartialEq, Eq, Structural)]
pub struct Texture {
    pub mag_filter: TextureFilter,
    pub min_filter: TextureFilter,
}

impl Texture {
    /// A texture as it is when its name is made: both filters linear.
    pub open spec fn spec_new() -> Texture {
        Texture { mag_filter: TextureFilter::Linear, min_filter: TextureFilter::Linear }
    }

    /// A texture as it is when its name is made: both filters linear.
    #[verifier::when_used_as_spec(spec_new)]
    pub fn new() -> (t: Texture)
        ensures
            t == Texture::spec_new(),
            t.mag_filter == TextureFilter::Linear,
            t.min_filter == TextureFilter::Linear,
    {
        Texture { mag_filter: TextureFilter::Linear, min_filter: TextureFilter::Linear }
    }
}

/// What the vertices between a begin and an end make up.
#[derive(Clone, Copy, Debug, PartialEq, Eq, Structural)]
pub enum PrimitiveMode {
    Triangles,
    Quads,
}

impl PrimitiveMode {
    /// How many vertices one primitive takes.
    pub open spec fn spec_vertices(self) -> usize {
        match self {
            PrimitiveMode::Triangles => 3,
            PrimitiveMode::Quads => 4,
        }
    }

    /// Whether `count` vertices make up whole primitives.
    pub open spec fn spec_completes(self, count: usize) -> bool {
        match self {
            PrimitiveMode::Triangles => count % 3 == 0,
            PrimitiveMode::Quads => count % 4 == 0,
        }
    }

    /// Whether `count` vertices make up whole primitives.
    #[verifier::when_used_as_spec(spec_completes)]
    pub fn completes(self, count: usize) -> (r: bool)
        ensures
            r == self.spec_completes(count),
    {
        match self {
            PrimitiveMode::Triangles => count % 3 == 0,
            PrimitiveMode::Quads => count % 4 == 0,
        }
    }

    /// How many vertices one primitive takes.
    #[verifier::when_used_as_spec(spec_vertices)]
    pub fn vertices(self) -> (n: usize)
        ensures
            n == self.spec_vertices(),
    {
        match self {
            PrimitiveMode::Triangles => 3,
            PrimitiveMode::Quads => 4,
        }
    }
}

/// A vertex as primitive assembly holds it.
#[derive(Clone, Copy, Debug, PartialEq, Eq, Structural)]
pub struct Vertex {
    pub position: Vec4,
    pub normal: Vec3,
    pub tex_coord: Vec4,
}

/// The colour that a clear fills the colour buffer with.
#[derive(Clone, Copy, Debug, PartialEq, Eq, Structural)]
pub struct ClearColor {
    pub red: Scalar,
    pub green: Scalar,
    pub blue: Scalar,
    pub alpha: Scalar,
}

/// A call that can be carried out at once or kept in a display list. A
/// command holds its arguments by value.
#[derive(Clone, Copy, Debug, PartialEq, Eq)]
#[allow(inconsistent_fields)]
pub enum Command {
    ActiveTextureARB { texture: u32 },
    Begin { mode: u32 },
    BindTexture { target: u32, texture: u32 },
    BlendFunc { sfactor: u32, dfactor: u32 },
    CallList { list: u32 },
    Clear { mask: u32 },
    ClearColor { red: Scalar, green: Scalar, blue: Scalar, alpha: Scalar },
    Color4f { red: Scalar, green: Scalar, blue: Scalar, alpha: Scalar },
    CullFace { mode: u32 },
    DepthMask { flag: i32 },
    Disable { cap: u32 },
    Enable { cap: u32 },
    End,
    Lightf { light: u32, pname: u32, param: Scalar },
    LoadIdentity,
    MatrixMode { mode: u32 },
    MultiTexCoord2fARB { target: u32, s: Scalar, t: Scalar },
    MultMatrixd { m: [Scalar; 16] },
    MultMatrixf { m: [Scalar; 16] },
    Normal3f { nx: Scalar, ny: Scalar, nz: Scalar },
    Normal3fv { v: [Scalar; 3] },
    Ortho { left: Scalar, right: Scalar, bottom: Scalar, top: Scalar, z_near: Scalar, z_far: Scalar },
    PolygonMode { face: u32, mode: u32 },
    PopMatrix,
    PushMatrix,
    ShadeModel { mode: u32 },
    TexCoord2f { s: Scalar, t: Scalar },
    TexGenf { coord: u32, pname: u32, param: Scalar },
    TexParameteri { target: u32, pname: u32, param: i32 },
    Translated { x: Scalar, y: Scalar, z: Scalar },
    Vertex3f { x: Scalar, y: Scalar, z: Scalar },
    Viewport { x: i32, y: i32, width: u32, height: u32 },
}

/// Why a call was refused: each is a use of the interface outside what it
/// allows, after which the caller has nothing left but to stop.
#[derive(Clone, Copy, Debug, PartialEq, Eq, Structural)]
pub enum Fault {
    /// A begin while a primitive was already open.
    BeginInsideBegin,
    /// A begin with a mode that is neither triangles nor quads.
    InvalidPrimitiveMode,
    /// An end with no primitive open.
    EndWithoutBegin,
    /// An end when the vertices do not make up whole primitives.
    IncompletePrimitive,
    /// A call that changes a matrix while a primitive was open.
    MatrixChangeInsideBegin,
    /// A matrix mode that is neither model-view nor projection.
    InvalidMatrixMode,
    /// A pop from the empty matrix stack.
    MatrixStackUnderflow,
    /// An orthographic projection onto a box with an empty side.
    EmptyOrthoBox,
    /// A depth-mask flag that is neither true nor false.
    InvalidDepthMaskFlag,
    /// A texture target other than the two-dimensional one.
    InvalidTextureTarget,
    /// A texture parameter that is neither filter.
    InvalidTextureParameter,
    /// A filter that the parameter cannot take.
    InvalidTextureFilter,
    /// A parameter set while the bound name is no texture.
    UnknownTexture,
    /// A display-list name that was never generated.
    UnknownList,
    /// Display lists calling one another deeper than the limit.
    ListNestingTooDeep,
    /// A list mode that is neither compile nor compile-and-execute.
    InvalidListMode,
    /// The start or the end of a display list while a primitive was open.
    ListBoundaryInsideBegin,
    /// More names asked for than there are.
    OutOfNames,
    /// A client array that is neither the vertex nor the normal array.
    InvalidClientArray,
    /// A vertex array whose elements are not three numbers.
    InvalidArraySize,
    /// A client array of another type than float.
    InvalidArrayType,
    /// A client array that is not tightly packed.
    InvalidArrayStride,
    /// An array element before the first.
    InvalidArrayIndex,
    /// An enabled client array whose element was not handed over.
    MissingArrayElement,
    /// A query for a value that is not kept.
    InvalidQuery,
    /// A pixel-store parameter that cannot be set.
    InvalidPixelStoreParameter,
    /// A value that the pixel-store parameter cannot take.
    InvalidPixelStoreValue,
}

} // verus!
