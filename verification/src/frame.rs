//! The operations of a frame, as functions of the painter's state and of the
//! frame's input.

use vstd::prelude::*;
use crate::clip::{full_viewport, scissor_of, viewport_of};
use crate::device::{
    BlendEquation, BlendFactor, BufferTarget, BufferUsage, Capability, DeviceOp, Diagnostic,
    DrawMode, IndexType, Texture, TextureFormat, TextureParameter, TextureWrap,
};
use crate::primitive::{ClippedPrimitive, Mesh, PaintCallback, Primitive};
use crate::state::PainterView;
use crate::texture::{ImageDelta, TextureFilter, TextureId};

verus! {

/// The storage format of a texture and the format of the texels uploaded to
/// it. The first web dialect wants both the same, sRGB where the device has
/// it; every other device stores sRGB with eight bits and takes plain RGBA.
pub open spec fn upload_formats(view: PainterView) -> (TextureFormat, TextureFormat) {
    if view.is_webgl_1 {
        if view.srgb_support {
            (TextureFormat::SrgbAlpha, TextureFormat::SrgbAlpha)
        } else {
            (TextureFormat::Rgba, TextureFormat::Rgba)
        }
    } else {
        (TextureFormat::Srgb8Alpha8, TextureFormat::Rgba)
    }
}

/// The operations that configure the bound texture and upload an image to
/// it: the filter for both directions, clamping on both axes, byte-aligned
/// rows, and then either a patch of the stated region or new storage of the
/// image's size. `update` names the image among the updates of the call.
pub open spec fn upload_ops(
    view: PainterView,
    pos: Option<[usize; 2]>,
    size: [usize; 2],
    texture_filter: TextureFilter,
    update: usize,
) -> Seq<DeviceOp> {
    seq![
        DeviceOp::TexParameter(TextureParameter::MagFilter(texture_filter)),
        DeviceOp::TexParameter(TextureParameter::MinFilter(texture_filter)),
        DeviceOp::TexParameter(TextureParameter::WrapS(TextureWrap::ClampToEdge)),
        DeviceOp::TexParameter(TextureParameter::WrapT(TextureWrap::ClampToEdge)),
        DeviceOp::UnpackAlignment(1),
        match pos {
            Some(pos) => DeviceOp::TexSubImage2d {
                x: pos[0],
                y: pos[1],
                width: size[0],
                height: size[1],
                format: upload_formats(view).1,
                update,
            },
            None => DeviceOp::TexImage2d {
                internal_format: upload_formats(view).0,
                width: size[0],
                height: size[1],
                format: upload_formats(view).1,
                update,
            },
        },
    ]
}

/// The operations that bring an image update into `texture`.
pub open spec fn set_texture_ops(
    view: PainterView,
    texture: Texture,
    delta: ImageDelta,
    update: usize,
) -> Seq<DeviceOp> {
    seq![DeviceOp::BindTexture(texture)] + upload_ops(
        view,
        delta.pos,
        delta.size,
        delta.filter,
        update,
    )
}

/// What an image update leaves behind.
pub struct Applied {
    /// The state of the painter afterwards.
    pub view: PainterView,
    /// The operations for the device.
    pub ops: Seq<DeviceOp>,
    /// The supplied textures that are still unused.
    pub fresh: Seq<Texture>,
}

/// The effect of one valid image update on a live painter.
///
/// The image goes into the texture that the table holds for `id`. Where the
/// table holds none, the last of the supplied textures enters the table as
/// the painter's own and receives the image. Where none is supplied either, the update is dropped
/// with a diagnostic.
pub open spec fn apply_update(
    view: PainterView,
    id: TextureId,
    delta: ImageDelta,
    update: usize,
    fresh: Seq<Texture>,
) -> Applied {
    match view.texture(id) {
        Some(texture) => Applied {
            view,
            ops: set_texture_ops(view, texture, delta, update),
            fresh,
        },
        None => if fresh.len() > 0 {
            Applied {
                view: view.with_texture(id, fresh.last(), true),
                ops: set_texture_ops(view, fresh.last(), delta, update),
                fresh: fresh.drop_last(),
            }
        } else {
            Applied { view, ops: seq![DeviceOp::Warn(Diagnostic::TextureUnavailable(id))], fresh }
        },
    }
}

/// The effect of the first `n` image updates of a list, one after the other.
pub open spec fn apply_updates(
    view: PainterView,
    set: Seq<(TextureId, ImageDelta)>,
    n: int,
    fresh: Seq<Texture>,
) -> Applied
    decreases n,
{
    if n <= 0 {
        Applied { view, ops: Seq::empty(), fresh }
    } else {
        let before = apply_updates(view, set, n - 1, fresh);
        let last = apply_update(
            before.view,
            set[n - 1].0,
            set[n - 1].1,
            (n - 1) as usize,
            before.fresh,
        );
        Applied { view: last.view, ops: before.ops + last.ops, fresh: last.fresh }
    }
}

/// Whether one of the first `n` updates of a list is for `id`.
pub open spec fn occurs_before(set: Seq<(TextureId, ImageDelta)>, n: int, id: TextureId) -> bool {
    exists|j: int| 0 <= j < n && (#[trigger] set[j]).0 == id
}

/// Whether the update at position `k` needs a new device texture: the table
/// holds none for its identifier, and no earlier update of the list is for
/// the same identifier.
pub open spec fn needs_fresh(view: PainterView, set: Seq<(TextureId, ImageDelta)>, k: int) -> bool {
    view.texture(set[k].0) is None && !occurs_before(set, k, set[k].0)
}

/// The number of new device textures that the first `n` updates of a list
/// need.
pub open spec fn textures_needed(
    view: PainterView,
    set: Seq<(TextureId, ImageDelta)>,
    n: int,
) -> nat
    decreases n,
{
    if n <= 0 {
        0
    } else if needs_fresh(view, set, n - 1) {
        textures_needed(view, set, n - 1) + 1
    } else {
        textures_needed(view, set, n - 1)
    }
}

/// The operations that free one texture.
pub open spec fn free_ops(view: PainterView, id: TextureId) -> Seq<DeviceOp> {
    match view.texture(id) {
        Some(old_tex) => seq![DeviceOp::DeleteTexture(old_tex)],
        None => Seq::empty(),
    }
}

/// The state after the first `n` textures of a list were freed.
pub open spec fn freed_view(view: PainterView, free: Seq<TextureId>, n: int) -> PainterView
    decreases n,
{
    if n <= 0 {
        view
    } else {
        freed_view(view, free, n - 1).without_texture(free[n - 1])
    }
}

/// The operations that free the first `n` textures of a list, one after the
/// other.
pub open spec fn freed_ops(view: PainterView, free: Seq<TextureId>, n: int) -> Seq<DeviceOp>
    decreases n,
{
    if n <= 0 {
        Seq::empty()
    } else {
        freed_ops(view, free, n - 1) + free_ops(freed_view(view, free, n - 1), free[n - 1])
    }
}

/// The operations that set the switches and the blending of the drawing
/// state: scissor test on; face culling off, as meshes wind either way; depth
/// test off; all colour channels written; blending of premultiplied alpha.
pub open spec fn switch_ops() -> Seq<DeviceOp> {
    seq![
        DeviceOp::Enable(Capability::ScissorTest),
        DeviceOp::Disable(Capability::CullFace),
        DeviceOp::Disable(Capability::DepthTest),
        DeviceOp::ColorMask(true, true, true, true),
        DeviceOp::Enable(Capability::Blend),
        DeviceOp::BlendEquationSeparate(BlendEquation::Add, BlendEquation::Add),
        DeviceOp::BlendFuncSeparate {
            src_rgb: BlendFactor::One,
            dst_rgb: BlendFactor::OneMinusSrcAlpha,
            src_alpha: BlendFactor::OneMinusDstAlpha,
            dst_alpha: BlendFactor::One,
        },
    ]
}

/// The operation that switches sRGB conversion on, where the device has the
/// switch.
pub open spec fn srgb_ops(view: PainterView) -> Seq<DeviceOp> {
    if view.framebuffer_srgb {
        seq![DeviceOp::Enable(Capability::FramebufferSrgb)]
    } else {
        Seq::empty()
    }
}

/// The operations that bind what a draw call uses: the viewport on the whole
/// framebuffer, the program with its two uniforms, texture unit zero, the
/// vertex array and the element buffer.
pub open spec fn binding_ops(view: PainterView, screen_size_px: [u32; 2]) -> Seq<DeviceOp> {
    seq![
        DeviceOp::Viewport(full_viewport(screen_size_px)),
        DeviceOp::UseProgram(view.program),
        DeviceOp::UniformScreenSize { width_px: screen_size_px[0], height_px: screen_size_px[1] },
        DeviceOp::UniformSampler(0),
        DeviceOp::ActiveTexture(0),
        DeviceOp::BindVertexArray,
        DeviceOp::BindBuffer(BufferTarget::ElementArray, Some(view.element_array_buffer)),
    ]
}

/// The operations that establish the state in which meshes are drawn: the
/// switches, then the bindings.
pub open spec fn prepare_ops(view: PainterView, screen_size_px: [u32; 2]) -> Seq<DeviceOp> {
    switch_ops() + srgb_ops(view) + binding_ops(view, screen_size_px)
}

/// The operations that make the intermediate target ready for a frame: it is
/// sized, bound and cleared as a whole.
pub open spec fn intermediate_ops(screen_size_px: [u32; 2]) -> Seq<DeviceOp> {
    seq![
        DeviceOp::PostProcessBegin {
            width: screen_size_px[0] as i32,
            height: screen_size_px[1] as i32,
        },
        DeviceOp::PostProcessBind,
        DeviceOp::Disable(Capability::ScissorTest),
        DeviceOp::Viewport(full_viewport(screen_size_px)),
        DeviceOp::Clear,
    ]
}

/// The operations at the start of a frame: in corrected mode the intermediate
/// target is made ready; then the drawing state is established.
pub open spec fn enter_ops(view: PainterView, screen_size_px: [u32; 2]) -> Seq<DeviceOp> {
    (if view.post_process is Some {
        intermediate_ops(screen_size_px)
    } else {
        Seq::empty()
    }) + prepare_ops(view, screen_size_px)
}

/// The operations at the end of a frame: vertex array and element buffer are
/// unbound, the intermediate target is resolved in corrected mode, and the
/// scissor test is switched off.
pub open spec fn exit_ops(view: PainterView) -> Seq<DeviceOp> {
    seq![DeviceOp::UnbindVertexArray, DeviceOp::BindBuffer(BufferTarget::ElementArray, None)] + (
    if view.post_process is Some {
        seq![DeviceOp::PostProcessEnd]
    } else {
        Seq::empty()
    }) + seq![DeviceOp::Disable(Capability::ScissorTest)]
}

/// The one call that draws a mesh: triangles from all its indices, which have
/// 32 bits each and start at the beginning of the element buffer.
pub open spec fn draw_call(mesh: Mesh) -> DeviceOp {
    DeviceOp::DrawElements {
        mode: DrawMode::Triangles,
        count: mesh.indices@.len() as i32,
        element_type: IndexType::UnsignedInt,
        offset: 0,
    }
}

/// The operations that draw a mesh with its texture: both buffers are bound
/// and filled with the data of the mesh, which replaces what they held; the
/// texture is bound; and all indices are drawn in one call.
pub open spec fn draw_ops(
    view: PainterView,
    mesh: Mesh,
    primitive: usize,
    texture: Texture,
) -> Seq<DeviceOp> {
    seq![
        DeviceOp::BindBuffer(BufferTarget::Array, Some(view.vbo)),
        DeviceOp::BufferVertices { primitive, usage: BufferUsage::StreamDraw },
        DeviceOp::BindBuffer(BufferTarget::ElementArray, Some(view.element_array_buffer)),
        DeviceOp::BufferIndices { primitive, usage: BufferUsage::StreamDraw },
        DeviceOp::BindTexture(texture),
        draw_call(mesh),
    ]
}

/// The operations for the mesh at position `primitive` of the frame. A mesh
/// whose texture the table does not hold is not drawn; a diagnostic stands
/// in its place.
pub open spec fn mesh_ops(view: PainterView, mesh: Mesh, primitive: usize) -> Seq<DeviceOp> {
    match view.texture(mesh.texture_id) {
        Some(texture) => draw_ops(view, mesh, primitive, texture),
        None => seq![DeviceOp::Warn(Diagnostic::MissingTexture(mesh.texture_id))],
    }
}

/// The operations for the callback at position `primitive` of the frame.
///
/// A callback with an empty target gives none. Any other gets its viewport
/// and runs; as it may leave the device in any state, the intermediate target
/// is bound again in corrected mode and the drawing state is established
/// anew.
pub open spec fn callback_ops(
    view: PainterView,
    screen_size_px: [u32; 2],
    callback: PaintCallback,
    primitive: usize,
) -> Seq<DeviceOp> {
    if callback.positive {
        seq![
            DeviceOp::Viewport(viewport_of(callback.rect, screen_size_px)),
            DeviceOp::InvokeCallback { primitive },
        ] + (if view.post_process is Some {
            seq![DeviceOp::PostProcessBind]
        } else {
            Seq::empty()
        }) + prepare_ops(view, screen_size_px)
    } else {
        Seq::empty()
    }
}

/// What follows the scissor rectangle of a primitive: the drawing of its
/// mesh or the run of its callback.
pub open spec fn dispatch_ops(
    view: PainterView,
    screen_size_px: [u32; 2],
    clipped: ClippedPrimitive,
    primitive: usize,
) -> Seq<DeviceOp> {
    match clipped.primitive {
        Primitive::Mesh(mesh) => mesh_ops(view, mesh, primitive),
        Primitive::Callback(callback) => callback_ops(view, screen_size_px, callback, primitive),
    }
}

/// The operations for the primitive at position `primitive` of the frame:
/// its scissor rectangle, then its mesh or its callback.
pub open spec fn primitive_ops(
    view: PainterView,
    screen_size_px: [u32; 2],
    clipped: ClippedPrimitive,
    primitive: usize,
) -> Seq<DeviceOp> {
    seq![DeviceOp::Scissor(scissor_of(clipped.clip_rect, screen_size_px))] + dispatch_ops(
        view,
        screen_size_px,
        clipped,
        primitive,
    )
}

/// The operations for the first `n` primitives of a frame, in list order.
pub open spec fn primitives_ops(
    view: PainterView,
    screen_size_px: [u32; 2],
    primitives: Seq<ClippedPrimitive>,
    n: int,
) -> Seq<DeviceOp>
    decreases n,
{
    if n <= 0 {
        Seq::empty()
    } else {
        primitives_ops(view, screen_size_px, primitives, n - 1) + primitive_ops(
            view,
            screen_size_px,
            primitives[n - 1],
            (n - 1) as usize,
        )
    }
}

/// All operations of a frame.
pub open spec fn frame_ops(
    view: PainterView,
    screen_size_px: [u32; 2],
    primitives: Seq<ClippedPrimitive>,
) -> Seq<DeviceOp> {
    enter_ops(view, screen_size_px) + primitives_ops(
        view,
        screen_size_px,
        primitives,
        primitives.len() as int,
    ) + exit_ops(view)
}

/// The operations that clear the display before a frame: the scissor test
/// is switched off, the viewport covers the framebuffer, and the colour
/// buffer is cleared to the caller's colour.
pub open spec fn clear_ops(screen_size_px: [u32; 2]) -> Seq<DeviceOp> {
    seq![
        DeviceOp::Disable(Capability::ScissorTest),
        DeviceOp::Viewport(full_viewport(screen_size_px)),
        DeviceOp::ClearColor,
        DeviceOp::Clear,
    ]
}

} // verus!
