//! Data types of the console's video display processor interface.  The
//! host calls that act on them live outside the library; here stand the
//! plain values, and each mode enum carries its wire code as a verified
//! method, since the codes are fixed by the host interface.

use vstd::prelude::*;

verus! {

/// An 8-bit-per-channel RGBA color.
#[derive(Clone, Copy, Debug, PartialEq, Eq, Structural)]
pub struct Color32 {
    pub r: u8,
    pub g: u8,
    pub b: u8,
    pub a: u8,
}

impl Color32 {
    /// Construct a new Color32 from the given channel values.
    pub fn new(r: u8, g: u8, b: u8, a: u8) -> (c: Color32)
        ensures
            c.r == r && c.g == g && c.b == b && c.a == a,
    {
        Color32 { r, g, b, a }
    }
}

/// An axis-aligned integer rectangle.
#[derive(Clone, Copy, Debug, PartialEq, Eq, Structural)]
pub struct Rectangle {
    pub x: i32,
    pub y: i32,
    pub width: i32,
    pub height: i32,
}

impl Rectangle {
    /// Construct a new Rectangle with the given position and size.
    pub fn new(x: i32, y: i32, width: i32, height: i32) -> (c: Rectangle)
        ensures
            c.x == x && c.y == y && c.width == width && c.height == height,
    {
        Rectangle { x, y, width, height }
    }
}

/// Why a texture could not be created.
#[derive(Clone, Copy, Debug)]
pub enum TextureError {
    DimensionsInvalid,
    AllocationFailed,
}

/// Anything that carries a host texture handle.
pub trait DBTex {
    fn get_handle(&self) -> i32;
}

/// A texture held by the host; the handle is assigned by the host's
/// allocator.
pub struct Texture {
    pub format: TextureFormat,
    pub width: i32,
    pub height: i32,
    pub mipmap: bool,
    pub handle: i32,
}

/// A render target texture held by the host.
pub struct RenderTexture {
    pub width: i32,
    pub height: i32,
    pub handle: i32,
}

impl DBTex for Texture {
    fn get_handle(&self) -> i32 {
        self.handle
    }
}

impl DBTex for RenderTexture {
    fn get_handle(&self) -> i32 {
        self.handle
    }
}

/// Depth test comparison modes.
#[derive(Clone, Copy, Debug)]
pub enum Compare {
    Never,
    Less,
    Equal,
    LessOrEqual,
    Greater,
    NotEqual,
    GreaterOrEqual,
    Always,
}

impl Compare {
    /// The mode's wire code.
    pub open spec fn spec_code(self) -> u32 {
        match self {
            Compare::Never => 0x0200,
            Compare::Less => 0x0201,
            Compare::Equal => 0x0202,
            Compare::LessOrEqual => 0x0203,
            Compare::Greater => 0x0204,
            Compare::NotEqual => 0x0205,
            Compare::GreaterOrEqual => 0x0206,
            Compare::Always => 0x0207,
        }
    }

    pub fn code(self) -> (r: u32)
        ensures
            r == self.spec_code(),
    {
        match self {
            Compare::Never => 0x0200,
            Compare::Less => 0x0201,
            Compare::Equal => 0x0202,
            Compare::LessOrEqual => 0x0203,
            Compare::Greater => 0x0204,
            Compare::NotEqual => 0x0205,
            Compare::GreaterOrEqual => 0x0206,
            Compare::Always => 0x0207,
        }
    }
}

/// Blend equation modes.
#[derive(Clone, Copy, Debug)]
pub enum BlendEquation {
    Add,
    Subtract,
    ReverseSubtract,
}

impl BlendEquation {
    /// The mode's wire code.
    pub open spec fn spec_code(self) -> u32 {
        match self {
            BlendEquation::Add => 0x8006,
            BlendEquation::Subtract => 0x800A,
            BlendEquation::ReverseSubtract => 0x800B,
        }
    }

    pub fn code(self) -> (r: u32)
        ensures
            r == self.spec_code(),
    {
        match self {
            BlendEquation::Add => 0x8006,
            BlendEquation::Subtract => 0x800A,
            BlendEquation::ReverseSubtract => 0x800B,
        }
    }
}

/// Source and destination blend factors.
#[derive(Clone, Copy, Debug)]
pub enum BlendFactor {
    Zero,
    One,
    SrcColor,
    OneMinusSrcColor,
    SrcAlpha,
    OneMinusSrcAlpha,
    DstAlpha,
    OneMinusDstAlpha,
    DstColor,
    OneMinusDstColor,
}

impl BlendFactor {
    /// The factor's wire code.
    pub open spec fn spec_code(self) -> u32 {
        match self {
            BlendFactor::Zero => 0,
            BlendFactor::One => 1,
            BlendFactor::SrcColor => 0x0300,
            BlendFactor::OneMinusSrcColor => 0x0301,
            BlendFactor::SrcAlpha => 0x0302,
            BlendFactor::OneMinusSrcAlpha => 0x0303,
            BlendFactor::DstAlpha => 0x0304,
            BlendFactor::OneMinusDstAlpha => 0x0305,
            BlendFactor::DstColor => 0x0306,
            BlendFactor::OneMinusDstColor => 0x0307,
        }
    }

    pub fn code(self) -> (r: u32)
        ensures
            r == self.spec_code(),
    {
        match self {
            BlendFactor::Zero => 0,
            BlendFactor::One => 1,
            BlendFactor::SrcColor => 0x0300,
            BlendFactor::OneMinusSrcColor => 0x0301,
            BlendFactor::SrcAlpha => 0x0302,
            BlendFactor::OneMinusSrcAlpha => 0x0303,
            BlendFactor::DstAlpha => 0x0304,
            BlendFactor::OneMinusDstAlpha => 0x0305,
            BlendFactor::DstColor => 0x0306,
            BlendFactor::OneMinusDstColor => 0x0307,
        }
    }
}

/// Winding order for backface culling.
#[derive(Clone, Copy, Debug)]
pub enum WindingOrder {
    Clockwise,
    CounterClockwise,
}

impl WindingOrder {
    /// The order's wire code.
    pub open spec fn spec_code(self) -> u32 {
        match self {
            WindingOrder::Clockwise => 0x0900,
            WindingOrder::CounterClockwise => 0x0901,
        }
    }

    pub fn code(self) -> (r: u32)
        ensures
            r == self.spec_code(),
    {
        match self {
            WindingOrder::Clockwise => 0x0900,
            WindingOrder::CounterClockwise => 0x0901,
        }
    }
}

/// Geometry topologies.
#[derive(Clone, Copy, Debug)]
pub enum Topology {
    LineList,
    LineStrip,
    TriangleList,
    TriangleStrip,
}

impl Topology {
    /// The topology's wire code.
    pub open spec fn spec_code(self) -> u32 {
        match self {
            Topology::LineList => 0,
            Topology::LineStrip => 1,
            Topology::TriangleList => 2,
            Topology::TriangleStrip => 3,
        }
    }

    pub fn code(self) -> (r: u32)
        ensures
            r == self.spec_code(),
    {
        match self {
            Topology::LineList => 0,
            Topology::LineStrip => 1,
            Topology::TriangleList => 2,
            Topology::TriangleStrip => 3,
        }
    }
}

/// Texture pixel formats.
#[derive(Clone, Copy, Debug, PartialEq, Eq, Structural)]
pub enum TextureFormat {
    RGB565,
    RGBA4444,
    RGBA8888,
    DXT1,
    DXT3,
    YUV420,
}

impl TextureFormat {
    /// The format's wire code.
    pub open spec fn spec_code(self) -> u32 {
        match self {
            TextureFormat::RGB565 => 0,
            TextureFormat::RGBA4444 => 1,
            TextureFormat::RGBA8888 => 2,
            TextureFormat::DXT1 => 3,
            TextureFormat::DXT3 => 4,
            TextureFormat::YUV420 => 5,
        }
    }

    pub fn code(self) -> (r: u32)
        ensures
            r == self.spec_code(),
    {
        match self {
            TextureFormat::RGB565 => 0,
            TextureFormat::RGBA4444 => 1,
            TextureFormat::RGBA8888 => 2,
            TextureFormat::DXT1 => 3,
            TextureFormat::DXT3 => 4,
            TextureFormat::YUV420 => 5,
        }
    }
}

/// Texture sampling filters.
#[derive(Clone, Copy, Debug)]
pub enum TextureFilter {
    Nearest,
    Linear,
}

impl TextureFilter {
    /// The filter's wire code.
    pub open spec fn spec_code(self) -> u32 {
        match self {
            TextureFilter::Nearest => 0x2600,
            TextureFilter::Linear => 0x2601,
        }
    }

    pub fn code(self) -> (r: u32)
        ensures
            r == self.spec_code(),
    {
        match self {
            TextureFilter::Nearest => 0x2600,
            TextureFilter::Linear => 0x2601,
        }
    }
}

/// Texture coordinate wrapping modes.
#[derive(Clone, Copy, Debug)]
pub enum TextureWrap {
    Clamp,
    Repeat,
    Mirror,
}

impl TextureWrap {
    /// The mode's wire code.
    pub open spec fn spec_code(self) -> u32 {
        match self {
            TextureWrap::Clamp => 0x812F,
            TextureWrap::Repeat => 0x2901,
            TextureWrap::Mirror => 0x8370,
        }
    }

    pub fn code(self) -> (r: u32)
        ensures
            r == self.spec_code(),
    {
        match self {
            TextureWrap::Clamp => 0x812F,
            TextureWrap::Repeat => 0x2901,
            TextureWrap::Mirror => 0x8370,
        }
    }
}

/// Vertex input slot formats.
#[derive(Clone, Copy, Debug, PartialEq, Eq, Structural)]
pub enum VertexSlotFormat {
    FLOAT1,
    FLOAT2,
    FLOAT3,
    FLOAT4,
    UNORM4,
    SNORM4,
}

impl VertexSlotFormat {
    /// The format's wire code.
    pub open spec fn spec_code(self) -> u32 {
        match self {
            VertexSlotFormat::FLOAT1 => 0,
            VertexSlotFormat::FLOAT2 => 1,
            VertexSlotFormat::FLOAT3 => 2,
            VertexSlotFormat::FLOAT4 => 3,
            VertexSlotFormat::UNORM4 => 4,
            VertexSlotFormat::SNORM4 => 5,
        }
    }

    pub fn code(self) -> (r: u32)
        ensures
            r == self.spec_code(),
    {
        match self {
            VertexSlotFormat::FLOAT1 => 0,
            VertexSlotFormat::FLOAT2 => 1,
            VertexSlotFormat::FLOAT3 => 2,
            VertexSlotFormat::FLOAT4 => 3,
            VertexSlotFormat::UNORM4 => 4,
            VertexSlotFormat::SNORM4 => 5,
        }
    }
}

/// Texture combiner modes.
#[derive(Clone, Copy, Debug, PartialEq, Eq, Structural)]
pub enum TexCombine {
    Off,
    Mul,
    Add,
    Sub,
    Mix,
    Dot3,
}

impl TexCombine {
    /// The mode's wire code.
    pub open spec fn spec_code(self) -> u32 {
        match self {
            TexCombine::Off => 0,
            TexCombine::Mul => 1,
            TexCombine::Add => 2,
            TexCombine::Sub => 3,
            TexCombine::Mix => 4,
            TexCombine::Dot3 => 5,
        }
    }

    pub fn code(self) -> (r: u32)
        ensures
            r == self.spec_code(),
    {
        match self {
            TexCombine::Off => 0,
            TexCombine::Mul => 1,
            TexCombine::Add => 2,
            TexCombine::Sub => 3,
            TexCombine::Mix => 4,
            TexCombine::Dot3 => 5,
        }
    }
}

/// The two texture units.
#[derive(Clone, Copy, Debug, PartialEq, Eq, Structural)]
pub enum TextureUnit {
    TU0,
    TU1,
}

impl TextureUnit {
    /// The unit's wire code.
    pub open spec fn spec_code(self) -> u32 {
        match self {
            TextureUnit::TU0 => 0,
            TextureUnit::TU1 => 1,
        }
    }

    pub fn code(self) -> (r: u32)
        ensures
            r == self.spec_code(),
    {
        match self {
            TextureUnit::TU0 => 0,
            TextureUnit::TU1 => 1,
        }
    }
}

} // verus!
