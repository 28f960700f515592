//! What the painter decides once, from what the device can do.
//!
//! Colours blend correctly only in linear space, while images and the display
//! hold gamma-encoded values. Desktop devices convert on their own. Embedded
//! and web devices need an intermediate render target that is resolved onto
//! the display at the end of the frame; where that is not to be had, painting
//! goes on without correction.

use vstd::prelude::*;

verus! {

/// The shading-language dialect of the device.
#[derive(Clone, Copy, Debug, PartialEq, Eq, Structural)]
pub enum ShaderVersion {
    Gl120,
    Gl140,
    Es100,
    Es300,
}

/// What the host found out about the device.
#[derive(Clone, Copy, Debug, PartialEq, Eq)]
pub struct DeviceCaps {
    /// The largest width or height of a texture.
    pub max_texture_side: usize,
    pub shader_version: ShaderVersion,
    /// Whether the device offers sRGB textures as an extension.
    pub srgb_support: bool,
    /// Whether the device has a switch for sRGB conversion on framebuffer
    /// writes. It is absent on the web.
    pub framebuffer_srgb: bool,
}

/// Where gamma correction happens.
#[derive(Clone, Copy, Debug, PartialEq, Eq, Structural)]
pub enum ColorMode {
    /// The device blends in linear space by itself.
    Native,
    /// The frame is painted into an intermediate target and resolved onto the
    /// display.
    Corrected,
    /// Nothing corrects; text is brightened at upload instead.
    Uncorrected,
}

/// A piece of shader source text. The host joins the pieces with line breaks.
#[derive(Clone, Copy, Debug, PartialEq, Eq, Structural)]
pub enum ShaderPart {
    /// The version line of the dialect.
    VersionHeader,
    /// The prefix that the caller chose.
    Prefix,
    /// The marker that sRGB textures can be had, or an empty line.
    SrgbSupported(bool),
    /// The marker of the newer shader interface, or an empty line, as the
    /// dialect has it.
    ShaderInterface,
    VertexSource,
    FragmentSource,
}

/// An input of the vertex shader.
#[derive(Clone, Copy, Debug, PartialEq, Eq, Structural)]
pub enum VertexField {
    Position,
    TexCoord,
    Color,
}

/// The type of one component of a vertex input.
#[derive(Clone, Copy, Debug, PartialEq, Eq, Structural)]
pub enum ComponentType {
    Float,
    UnsignedByte,
}

/// How one input of the vertex shader is read from the vertex buffer. Stride
/// and offset follow from the memory layout of a vertex, which the host knows.
#[derive(Clone, Copy, Debug, PartialEq, Eq, Structural)]
pub struct VertexAttribute {
    pub field: VertexField,
    pub vector_size: i32,
    pub data_type: ComponentType,
    pub normalized: bool,
}

impl ShaderVersion {
    /// The dialects of embedded and web devices.
    pub open spec fn embedded(self) -> bool {
        self is Es100 || self is Es300
    }

    /// Decides [`ShaderVersion::embedded`].
    pub fn is_embedded(self) -> (r: bool)
        ensures
            r == self.embedded(),
    {
        match self {
            ShaderVersion::Es100 | ShaderVersion::Es300 => true,
            _ => false,
        }
    }

    /// Whether the device could blend through an intermediate target: it
    /// speaks the newer embedded dialect, or the older one with sRGB textures.
    pub open spec fn can_post_process(self, srgb_support: bool) -> bool {
        self is Es300 || (self is Es100 && srgb_support)
    }
}

/// The size of the intermediate target to create, if one is to be created:
/// the size that the caller supplied, on a device that can use it.
pub open spec fn post_process_of(
    shader_version: ShaderVersion,
    srgb_support: bool,
    pp_fb_extent: Option<[i32; 2]>,
) -> Option<[i32; 2]> {
    if shader_version.can_post_process(srgb_support) {
        pp_fb_extent
    } else {
        None
    }
}

/// Whether the fragment shader is told that sRGB textures can be had: always
/// on a desktop device, and on another device exactly when the intermediate
/// target is created.
pub open spec fn srgb_supported_of(
    shader_version: ShaderVersion,
    srgb_support: bool,
    pp_fb_extent: Option<[i32; 2]>,
) -> bool {
    if shader_version.embedded() {
        post_process_of(shader_version, srgb_support, pp_fb_extent) is Some
    } else {
        true
    }
}

/// The size of the intermediate render target that the host has to create
/// before it constructs the painter, or `None` where there is to be none.
pub fn post_process_extent(caps: &DeviceCaps, pp_fb_extent: Option<[i32; 2]>) -> (r: Option<
    [i32; 2],
>)
    ensures
        r == post_process_of(caps.shader_version, caps.srgb_support, pp_fb_extent),
{
    match caps.shader_version {
        ShaderVersion::Es300 => pp_fb_extent,
        ShaderVersion::Es100 => if caps.srgb_support {
            pp_fb_extent
        } else {
            None
        },
        _ => None,
    }
}

/// The source of the vertex shader, piece by piece.
pub fn vertex_shader_parts() -> (parts: Vec<ShaderPart>)
    ensures
        parts@ == seq![
            ShaderPart::VersionHeader,
            ShaderPart::Prefix,
            ShaderPart::ShaderInterface,
            ShaderPart::VertexSource,
        ],
{
    vec![
        ShaderPart::VersionHeader,
        ShaderPart::Prefix,
        ShaderPart::ShaderInterface,
        ShaderPart::VertexSource,
    ]
}

/// The source of the fragment shader, piece by piece.
pub fn fragment_shader_parts(caps: &DeviceCaps, pp_fb_extent: Option<[i32; 2]>) -> (parts: Vec<
    ShaderPart,
>)
    ensures
        parts@ == seq![
            ShaderPart::VersionHeader,
            ShaderPart::Prefix,
            ShaderPart::SrgbSupported(
                srgb_supported_of(caps.shader_version, caps.srgb_support, pp_fb_extent),
            ),
            ShaderPart::ShaderInterface,
            ShaderPart::FragmentSource,
        ],
{
    let srgb: bool = if caps.shader_version.is_embedded() {
        post_process_extent(caps, pp_fb_extent).is_some()
    } else {
        true
    };
    vec![
        ShaderPart::VersionHeader,
        ShaderPart::Prefix,
        ShaderPart::SrgbSupported(srgb),
        ShaderPart::ShaderInterface,
        ShaderPart::FragmentSource,
    ]
}

/// The inputs of the vertex shader, in the order in which the vertex array
/// declares them: a position and a texture coordinate of two floats each, and
/// a colour of four bytes that are not normalised.
pub fn vertex_attributes() -> (attributes: Vec<VertexAttribute>)
    ensures
        attributes@ == seq![
            (VertexAttribute {
                field: VertexField::Position,
                vector_size: 2,
                data_type: ComponentType::Float,
                normalized: false,
            }),
            (VertexAttribute {
                field: VertexField::TexCoord,
                vector_size: 2,
                data_type: ComponentType::Float,
                normalized: false,
            }),
            (VertexAttribute {
                field: VertexField::Color,
                vector_size: 4,
                data_type: ComponentType::UnsignedByte,
                normalized: false,
            }),
        ],
{
    vec![
        VertexAttribute {
            field: VertexField::Position,
            vector_size: 2,
            data_type: ComponentType::Float,
            normalized: false,
        },
        VertexAttribute {
            field: VertexField::TexCoord,
            vector_size: 2,
            data_type: ComponentType::Float,
            normalized: false,
        },
        VertexAttribute {
            field: VertexField::Color,
            vector_size: 4,
            data_type: ComponentType::UnsignedByte,
            normalized: false,
        },
    ]
}

} // verus!
