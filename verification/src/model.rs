//! A model of the device: what its state is, and what each operation does to
//! it.
//!
//! The model holds what the painter relies on when it draws, and the
//! contents of textures. It says nothing about the pixels that a draw call
//! produces.

use vstd::prelude::*;
use crate::clip::DeviceRect;
use crate::device::{
    BlendEquation, BlendFactor, Buffer, BufferTarget, Capability, DeviceOp, Program, Texture,
};

verus! {

/// The contents of a texture: its size in texels and its bytes, four to a
/// texel, row by row.
pub struct TextureImage {
    pub width: nat,
    pub height: nat,
    pub bytes: Seq<u8>,
}

/// The state of the device.
pub struct DeviceState {
    pub scissor_test: bool,
    pub cull_face: bool,
    pub depth_test: bool,
    pub blend: bool,
    pub framebuffer_srgb: bool,
    pub color_mask: (bool, bool, bool, bool),
    pub blend_equation: (BlendEquation, BlendEquation),
    /// Source and destination weight for colour, then for alpha.
    pub blend_func: (BlendFactor, BlendFactor, BlendFactor, BlendFactor),
    pub viewport: DeviceRect,
    pub scissor: DeviceRect,
    pub program: Option<Program>,
    /// The value of the screen-size uniform, in pixels before scaling.
    pub screen_size: (u32, u32),
    pub sampler: i32,
    pub active_texture: u32,
    /// Whether the painter's vertex array is bound.
    pub vertex_array: bool,
    pub array_buffer: Option<Buffer>,
    pub element_buffer: Option<Buffer>,
    /// The primitive whose vertices were the last to go through the array
    /// binding.
    pub vertices: Option<usize>,
    /// The primitive whose indices were the last to go through the element
    /// binding.
    pub indices: Option<usize>,
    /// The bound texture.
    pub texture: Option<Texture>,
    /// Whether the intermediate render target is the current one.
    pub intermediate: bool,
    pub images: Map<Texture, TextureImage>,
}

/// What the host contributes while operations run.
pub struct Host {
    /// The state in which the callback of a primitive leaves the device. A
    /// callback may leave it in any state.
    pub after_callback: spec_fn(usize) -> DeviceState,
    /// The bytes of the image updates, by their number.
    pub uploads: Seq<Seq<u8>>,
}

/// A draw call or the run of a callback, with the state of the device at that
/// moment.
pub struct Event {
    pub state: DeviceState,
    pub op: DeviceOp,
}

/// The state with one capability switched.
pub open spec fn switched(s: DeviceState, capability: Capability, on: bool) -> DeviceState {
    match capability {
        Capability::ScissorTest => DeviceState { scissor_test: on, ..s },
        Capability::CullFace => DeviceState { cull_face: on, ..s },
        Capability::DepthTest => DeviceState { depth_test: on, ..s },
        Capability::Blend => DeviceState { blend: on, ..s },
        Capability::FramebufferSrgb => DeviceState { framebuffer_srgb: on, ..s },
    }
}

/// Whether a region of the given corner and size lies inside an image.
pub open spec fn region_inside(
    image: TextureImage,
    x: usize,
    y: usize,
    width: usize,
    height: usize,
) -> bool {
    x + width <= image.width && y + height <= image.height
}

/// The bytes of an image after a region was overwritten. A byte belongs to
/// the texel at its position divided by four; a texel inside the region
/// takes its bytes from `data`, which holds the region row by row.
#[verifier::opaque]
pub open spec fn patched_bytes(
    image: TextureImage,
    x: usize,
    y: usize,
    width: usize,
    height: usize,
    data: Seq<u8>,
) -> Seq<u8> {
    Seq::new(
        image.bytes.len(),
        |b: int|
            {
                let column = (b / 4) % (image.width as int);
                let row = (b / 4) / (image.width as int);
                if x <= column < x + width && y <= row < y + height {
                    data[((row - y) * width + (column - x)) * 4 + b % 4]
                } else {
                    image.bytes[b]
                }
            },
    )
}

/// The state after new storage was given to the bound texture. Nothing
/// changes where no texture is bound, the update is unknown, or the data
/// does not have four bytes for each texel.
pub open spec fn tex_image(
    s: DeviceState,
    host: Host,
    width: usize,
    height: usize,
    update: usize,
) -> DeviceState {
    if s.texture is Some && update < host.uploads.len() && host.uploads[update as int].len()
        == width * height * 4 {
        DeviceState {
            images: s.images.insert(
                s.texture->0,
                TextureImage {
                    width: width as nat,
                    height: height as nat,
                    bytes: host.uploads[update as int],
                },
            ),
            ..s
        }
    } else {
        s
    }
}

/// The state after a region of the bound texture was overwritten. Nothing
/// changes where no texture with storage is bound, the update is unknown,
/// the region does not lie inside the image, or the data does not have four
/// bytes for each texel of the region.
pub open spec fn tex_sub_image(
    s: DeviceState,
    host: Host,
    x: usize,
    y: usize,
    width: usize,
    height: usize,
    update: usize,
) -> DeviceState {
    if s.texture is Some && s.images.contains_key(s.texture->0) && update < host.uploads.len()
        && host.uploads[update as int].len() == width * height * 4 && region_inside(
        s.images[s.texture->0],
        x,
        y,
        width,
        height,
    ) {
        let image = s.images[s.texture->0];
        DeviceState {
            images: s.images.insert(
                s.texture->0,
                TextureImage {
                    bytes: patched_bytes(image, x, y, width, height, host.uploads[update as int]),
                    ..image
                },
            ),
            ..s
        }
    } else {
        s
    }
}

/// The state of the device after one operation.
pub open spec fn step(s: DeviceState, op: DeviceOp, host: Host) -> DeviceState {
    match op {
        DeviceOp::Enable(capability) => switched(s, capability, true),
        DeviceOp::Disable(capability) => switched(s, capability, false),
        DeviceOp::ColorMask(r, g, b, a) => DeviceState { color_mask: (r, g, b, a), ..s },
        DeviceOp::BlendEquationSeparate(rgb, alpha) => DeviceState {
            blend_equation: (rgb, alpha),
            ..s
        },
        DeviceOp::BlendFuncSeparate { src_rgb, dst_rgb, src_alpha, dst_alpha } => DeviceState {
            blend_func: (src_rgb, dst_rgb, src_alpha, dst_alpha),
            ..s
        },
        DeviceOp::Viewport(rect) => DeviceState { viewport: rect, ..s },
        DeviceOp::Scissor(rect) => DeviceState { scissor: rect, ..s },
        DeviceOp::UseProgram(program) => DeviceState { program: Some(program), ..s },
        DeviceOp::UniformScreenSize { width_px, height_px } => DeviceState {
            screen_size: (width_px, height_px),
            ..s
        },
        DeviceOp::UniformSampler(unit) => DeviceState { sampler: unit, ..s },
        DeviceOp::ActiveTexture(unit) => DeviceState { active_texture: unit, ..s },
        DeviceOp::BindVertexArray => DeviceState { vertex_array: true, ..s },
        DeviceOp::UnbindVertexArray => DeviceState { vertex_array: false, ..s },
        DeviceOp::BindBuffer(BufferTarget::Array, buffer) => DeviceState {
            array_buffer: buffer,
            ..s
        },
        DeviceOp::BindBuffer(BufferTarget::ElementArray, buffer) => DeviceState {
            element_buffer: buffer,
            ..s
        },
        DeviceOp::BufferVertices { primitive, .. } => DeviceState {
            vertices: Some(primitive),
            ..s
        },
        DeviceOp::BufferIndices { primitive, .. } => DeviceState { indices: Some(primitive), ..s },
        DeviceOp::BindTexture(texture) => DeviceState { texture: Some(texture), ..s },
        DeviceOp::TexImage2d { width, height, update, .. } => tex_image(
            s,
            host,
            width,
            height,
            update,
        ),
        DeviceOp::TexSubImage2d { x, y, width, height, update, .. } => tex_sub_image(
            s,
            host,
            x,
            y,
            width,
            height,
            update,
        ),
        DeviceOp::PostProcessBind => DeviceState { intermediate: true, ..s },
        DeviceOp::PostProcessEnd => DeviceState { intermediate: false, ..s },
        DeviceOp::InvokeCallback { primitive } => (host.after_callback)(primitive),
        DeviceOp::DeleteTexture(texture) => DeviceState {
            images: s.images.remove(texture),
            texture: if s.texture == Some(texture) {
                None
            } else {
                s.texture
            },
            ..s
        },
        _ => s,
    }
}

/// Whether the device acts on what is bound when it performs the operation: a
/// draw call or the run of a callback.
pub open spec fn observes(op: DeviceOp) -> bool {
    op is DrawElements || op is InvokeCallback
}

/// The state of the device after the operations of a list from position `k`
/// on.
pub open spec fn run_from(s: DeviceState, ops: Seq<DeviceOp>, k: int, host: Host) -> DeviceState
    decreases ops.len() - k,
{
    if 0 <= k < ops.len() {
        run_from(step(s, ops[k], host), ops, k + 1, host)
    } else {
        s
    }
}

/// The draw calls and callback runs among the operations of a list from
/// position `k` on, in order, each with the state in which it happens.
pub open spec fn events_from(s: DeviceState, ops: Seq<DeviceOp>, k: int, host: Host) -> Seq<Event>
    decreases ops.len() - k,
{
    if 0 <= k < ops.len() {
        let rest = events_from(step(s, ops[k], host), ops, k + 1, host);
        if observes(ops[k]) {
            seq![Event { state: s, op: ops[k] }] + rest
        } else {
            rest
        }
    } else {
        Seq::empty()
    }
}

/// The state of the device after a run of operations.
pub open spec fn run(s: DeviceState, ops: Seq<DeviceOp>, host: Host) -> DeviceState {
    run_from(s, ops, 0, host)
}

/// The draw calls and callback runs of a run of operations, in order, each
/// with the state in which it happens.
pub open spec fn events(s: DeviceState, ops: Seq<DeviceOp>, host: Host) -> Seq<Event> {
    events_from(s, ops, 0, host)
}

/// In a concatenation, what runs from a position of the second list on is
/// what runs from that position in the second list alone.
proof fn lemma_run_second(
    s: DeviceState,
    a: Seq<DeviceOp>,
    b: Seq<DeviceOp>,
    k: int,
    host: Host,
)
    requires
        0 <= k <= b.len(),
    ensures
        run_from(s, a + b, a.len() + k, host) == run_from(s, b, k, host),
        events_from(s, a + b, a.len() + k, host) == events_from(s, b, k, host),
    decreases b.len() - k,
{
    if k < b.len() {
        assert((a + b)[a.len() + k] == b[k]);
        lemma_run_second(step(s, b[k], host), a, b, k + 1, host);
    }
}

/// In a concatenation, what runs from a position of the first list on is the
/// rest of the first list and then the second.
proof fn lemma_run_first(s: DeviceState, a: Seq<DeviceOp>, b: Seq<DeviceOp>, k: int, host: Host)
    requires
        0 <= k <= a.len(),
    ensures
        run_from(s, a + b, k, host) == run_from(run_from(s, a, k, host), b, 0, host),
        events_from(s, a + b, k, host) == events_from(s, a, k, host) + events_from(
            run_from(s, a, k, host),
            b,
            0,
            host,
        ),
    decreases a.len() - k,
{
    if k < a.len() {
        assert((a + b)[k] == a[k]);
        let next = step(s, a[k], host);
        lemma_run_first(next, a, b, k + 1, host);
        let first = events_from(next, a, k + 1, host);
        let second = events_from(run_from(next, a, k + 1, host), b, 0, host);
        if observes(a[k]) {
            let event = seq![Event { state: s, op: a[k] }];
            assert(event + (first + second) == (event + first) + second);
        }
    } else {
        lemma_run_second(s, a, b, 0, host);
        assert(Seq::<Event>::empty() + events_from(s, b, 0, host) == events_from(s, b, 0, host));
    }
}

/// Running two lists one after the other is running their concatenation.
pub proof fn lemma_run_concat(s: DeviceState, a: Seq<DeviceOp>, b: Seq<DeviceOp>, host: Host)
    ensures
        run(s, a + b, host) == run(run(s, a, host), b, host),
        events(s, a + b, host) == events(s, a, host) + events(run(s, a, host), b, host),
{
    lemma_run_first(s, a, b, 0, host);
}

} // verus!
