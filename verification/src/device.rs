//! The operations that the painter asks of the graphics device.
//!
//! An operation is a plain value. The painter returns operations in the order
//! in which the host has to perform them; it never performs one itself.

use vstd::prelude::*;
use crate::clip::DeviceRect;
use crate::texture::{TextureFilter, TextureId};

verus! {

/// The device's name for a texture.
#[derive(Clone, Copy, Debug, PartialEq, Eq, Hash, Structural)]
pub struct Texture(pub u32);

/// The device's name for a framebuffer.
#[derive(Clone, Copy, Debug, PartialEq, Eq, Hash, Structural)]
pub struct Framebuffer(pub u32);

/// The device's name for a linked shader program.
#[derive(Clone, Copy, Debug, PartialEq, Eq, Hash, Structural)]
pub struct Program(pub u32);

/// The device's name for a data buffer.
#[derive(Clone, Copy, Debug, PartialEq, Eq, Hash, Structural)]
pub struct Buffer(pub u32);

/// A switchable piece of device state.
#[derive(Clone, Copy, Debug, PartialEq, Eq, Structural)]
pub enum Capability {
    ScissorTest,
    CullFace,
    DepthTest,
    Blend,
    FramebufferSrgb,
}

/// How source and destination are combined when blending.
#[derive(Clone, Copy, Debug, PartialEq, Eq, Structural)]
pub enum BlendEquation {
    Add,
}

/// A weight of the blend equation.
#[derive(Clone, Copy, Debug, PartialEq, Eq, Structural)]
pub enum BlendFactor {
    One,
    OneMinusSrcAlpha,
    OneMinusDstAlpha,
}

/// A binding point for buffers.
#[derive(Clone, Copy, Debug, PartialEq, Eq, Structural)]
pub enum BufferTarget {
    Array,
    ElementArray,
}

/// What the device is told about the life of buffer contents.
#[derive(Clone, Copy, Debug, PartialEq, Eq, Structural)]
pub enum BufferUsage {
    /// The contents are written once and used a few times: the earlier
    /// contents are not worth keeping.
    StreamDraw,
}

/// What a draw call assembles from its indices.
#[derive(Clone, Copy, Debug, PartialEq, Eq, Structural)]
pub enum DrawMode {
    /// One triangle from every three indices.
    Triangles,
}

/// The type of the indices in the element buffer.
#[derive(Clone, Copy, Debug, PartialEq, Eq, Structural)]
pub enum IndexType {
    UnsignedInt,
}

/// How texels are stored on the device or laid out in an upload.
#[derive(Clone, Copy, Debug, PartialEq, Eq, Structural)]
pub enum TextureFormat {
    Rgba,
    SrgbAlpha,
    Srgb8Alpha8,
}

/// What the device does with texture coordinates outside the image.
#[derive(Clone, Copy, Debug, PartialEq, Eq, Structural)]
pub enum TextureWrap {
    ClampToEdge,
}

/// A sampling parameter of the bound texture.
#[derive(Clone, Copy, Debug, PartialEq, Eq, Structural)]
pub enum TextureParameter {
    MagFilter(TextureFilter),
    MinFilter(TextureFilter),
    WrapS(TextureWrap),
    WrapT(TextureWrap),
}

/// Something worth reporting that does not stop the frame.
#[derive(Clone, Copy, Debug, PartialEq, Eq, Structural)]
pub enum Diagnostic {
    /// A mesh names a texture that the painter does not hold; the mesh is
    /// not drawn.
    MissingTexture(TextureId),
    /// An image update needs a new device texture and none was supplied; the
    /// update is not applied.
    TextureUnavailable(TextureId),
    /// The painter goes away without having been destroyed; what it holds on
    /// the device leaks.
    NotDestroyed,
}

/// One operation on the device.
///
/// Where an operation takes bulk data, it names the input that holds it: a
/// position in the primitive list of the frame, or a position in the list of
/// image updates.
#[allow(inconsistent_fields)]
#[derive(Clone, Copy, Debug, PartialEq, Eq, Structural)]
pub enum DeviceOp {
    Enable(Capability),
    Disable(Capability),
    ColorMask(bool, bool, bool, bool),
    BlendEquationSeparate(BlendEquation, BlendEquation),
    BlendFuncSeparate {
        src_rgb: BlendFactor,
        dst_rgb: BlendFactor,
        src_alpha: BlendFactor,
        dst_alpha: BlendFactor,
    },
    Viewport(DeviceRect),
    Scissor(DeviceRect),
    UseProgram(Program),
    /// Sets the screen-size uniform to the framebuffer size in logical
    /// points: the given size in pixels divided by the scale factor.
    UniformScreenSize { width_px: u32, height_px: u32 },
    /// Sets the sampler uniform to a texture unit.
    UniformSampler(i32),
    /// Selects a texture unit by its number.
    ActiveTexture(u32),
    BindVertexArray,
    UnbindVertexArray,
    BindBuffer(BufferTarget, Option<Buffer>),
    /// Replaces the contents of the bound array buffer by the vertices of a
    /// mesh.
    BufferVertices { primitive: usize, usage: BufferUsage },
    /// Replaces the contents of the bound element buffer by the indices of a
    /// mesh.
    BufferIndices { primitive: usize, usage: BufferUsage },
    BindTexture(Texture),
    TexParameter(TextureParameter),
    /// Sets the row alignment of uploads, in bytes.
    UnpackAlignment(i32),
    /// Allocates storage for the bound texture and fills it with the texels
    /// of an image update.
    TexImage2d {
        internal_format: TextureFormat,
        width: usize,
        height: usize,
        format: TextureFormat,
        update: usize,
    },
    /// Overwrites a region of the bound texture with the texels of an image
    /// update.
    TexSubImage2d {
        x: usize,
        y: usize,
        width: usize,
        height: usize,
        format: TextureFormat,
        update: usize,
    },
    /// Draws from the bound buffers: `count` indices, starting `offset`
    /// bytes into the element buffer.
    DrawElements { mode: DrawMode, count: i32, element_type: IndexType, offset: i32 },
    /// Sets the clear colour to the one the caller chose.
    ClearColor,
    /// Clears the colour buffer of the bound render target.
    Clear,
    /// Prepares the intermediate render target for a frame of this size.
    PostProcessBegin { width: i32, height: i32 },
    /// Makes the intermediate render target the current one.
    PostProcessBind,
    /// Resolves the intermediate render target onto the display.
    PostProcessEnd,
    /// Releases the intermediate render target.
    PostProcessDestroy,
    /// Hands control to the render callback of a primitive.
    InvokeCallback { primitive: usize },
    DeleteTexture(Texture),
    DeleteProgram(Program),
    DeleteBuffer(Buffer),
    Warn(Diagnostic),
}

} // verus!
