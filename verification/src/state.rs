//! The painter as a mathematical value, and what each operation makes of it.

use vstd::prelude::*;
use crate::device::{Buffer, DeviceOp, Framebuffer, Program, Texture};
use crate::pipeline::{post_process_of, ColorMode, DeviceCaps};
use crate::primitive::ClippedPrimitive;
use crate::texture::{ImageDelta, TextureId};

verus! {

/// Why the painter refused.
#[derive(Clone, Copy, Debug, PartialEq, Eq, Structural)]
pub enum PainterError {
    /// The device lacks what the painter needs: the intermediate target or
    /// the shader program could not be made.
    Configuration,
    /// An image update has an empty side, a side beyond the device's limit,
    /// or a texel count that is not width times height.
    InvalidImage,
    /// A mesh has an index outside its vertices, or a number of indices that
    /// is no multiple of three or more than the device can count; or the
    /// viewport of a callback is beyond what the device can address.
    InvalidPrimitive,
    /// The device gave no buffer or no texture, or the identifiers for
    /// registered textures are used up.
    Resource,
    /// The painter was destroyed before.
    UseAfterDestroy,
}

/// The device objects that the host made for a new painter. Each is `None`
/// where the device did not deliver.
#[derive(Clone, Copy, Debug, PartialEq, Eq)]
pub struct DeviceObjects {
    /// The framebuffer of the intermediate render target.
    pub post_process: Option<Framebuffer>,
    /// The compiled and linked shader program.
    pub program: Option<Program>,
    pub vertex_buffer: Option<Buffer>,
    pub element_buffer: Option<Buffer>,
}

/// The first identifier that the painter gives to a registered texture.
pub const FIRST_NATIVE_TEX_ID: u64 = 0x1_0000_0000;

/// One entry of the texture table.
#[derive(Clone, Copy, Debug, PartialEq, Eq, Structural)]
pub struct TableEntry {
    pub id: TextureId,
    pub texture: Texture,
    /// Whether the texture is the painter's own: one that an image update
    /// took from the supply. A texture that the host registered, or put in
    /// the place of another, stays the host's.
    pub owned: bool,
}

/// The state of a painter.
pub struct PainterView {
    pub max_texture_side: usize,
    pub program: Program,
    pub is_webgl_1: bool,
    pub is_embedded: bool,
    pub srgb_support: bool,
    pub framebuffer_srgb: bool,
    /// The framebuffer of the intermediate target, in corrected mode.
    pub post_process: Option<Framebuffer>,
    pub vbo: Buffer,
    pub element_array_buffer: Buffer,
    /// The texture table, in the order in which the identifiers came.
    pub textures: Seq<TableEntry>,
    /// The identifier that the next registered texture gets.
    pub next_native_tex_id: u64,
    /// Replaced textures that wait for their deletion.
    pub textures_to_destroy: Seq<Texture>,
    pub destroyed: bool,
}

/// Whether a texture table has an entry for `id`.
pub open spec fn has_entry(textures: Seq<TableEntry>, id: TextureId) -> bool {
    exists|i: int| 0 <= i < textures.len() && (#[trigger] textures[i]).id == id
}

/// The position of an entry for `id` in a texture table that has one.
pub open spec fn entry_index(textures: Seq<TableEntry>, id: TextureId) -> int {
    choose|i: int| 0 <= i < textures.len() && (#[trigger] textures[i]).id == id
}

/// No identifier occurs twice in the texture table.
pub open spec fn distinct_ids(textures: Seq<TableEntry>) -> bool {
    forall|i: int, j: int|
        0 <= i < j < textures.len() ==> (#[trigger] textures[i]).id != (#[trigger] textures[j]).id
}

/// Whether `id` lies where the painter has not given out identifiers yet:
/// it is a registered-texture identifier from `next` on. The last identifier
/// of all is never given out and lies nowhere.
pub open spec fn unissued(next: u64, id: TextureId) -> bool {
    id matches TextureId::User(n) && next <= n < u64::MAX
}

/// No identifier of the table lies where the painter has not given out
/// identifiers yet.
pub open spec fn ids_issued(textures: Seq<TableEntry>, next: u64) -> bool {
    forall|i: int| 0 <= i < textures.len() ==> !unissued(next, (#[trigger] textures[i]).id)
}

/// The identifier that is next once `id` is in the table: the one after
/// `id`, where `id` lies at or beyond the one that was next.
pub open spec fn next_after(next: u64, id: TextureId) -> u64 {
    match id {
        TextureId::User(n) => if next <= n < u64::MAX {
            (n + 1) as u64
        } else {
            next
        },
        TextureId::Managed(_) => next,
    }
}

/// The operations that delete the given textures, one for each, in order.
pub open spec fn delete_ops(textures: Seq<Texture>) -> Seq<DeviceOp> {
    Seq::new(textures.len(), |i: int| DeviceOp::DeleteTexture(textures[i]))
}

/// The textures among the first `n` entries of a table that are the
/// painter's own, in table order.
pub open spec fn owned_textures(textures: Seq<TableEntry>, n: int) -> Seq<Texture>
    decreases n,
{
    if n <= 0 {
        Seq::empty()
    } else if textures[n - 1].owned {
        owned_textures(textures, n - 1).push(textures[n - 1].texture)
    } else {
        owned_textures(textures, n - 1)
    }
}

/// Why a painter cannot be constructed from these objects, if it cannot: the
/// intermediate target is wanted and missing, or the program is missing, or
/// one of the buffers is.
pub open spec fn construction_error(
    caps: DeviceCaps,
    pp_fb_extent: Option<[i32; 2]>,
    objects: DeviceObjects,
) -> Option<PainterError> {
    if post_process_of(caps.shader_version, caps.srgb_support, pp_fb_extent) is Some
        && objects.post_process is None {
        Some(PainterError::Configuration)
    } else if objects.program is None {
        Some(PainterError::Configuration)
    } else if objects.vertex_buffer is None || objects.element_buffer is None {
        Some(PainterError::Resource)
    } else {
        None
    }
}

/// Why a texture cannot be registered, if it cannot: the painter is
/// destroyed, or the identifiers for registered textures are used up.
pub open spec fn register_error(view: PainterView) -> Option<PainterError> {
    if view.destroyed {
        Some(PainterError::UseAfterDestroy)
    } else if view.next_native_tex_id == u64::MAX {
        Some(PainterError::Resource)
    } else {
        None
    }
}

/// Why an image update is refused, if it is: the painter is destroyed, or
/// the image is invalid, or the table holds no texture for `id` and none is
/// supplied. The first that applies is reported.
pub open spec fn set_texture_error(
    view: PainterView,
    id: TextureId,
    delta: ImageDelta,
    fresh: Seq<Texture>,
) -> Option<PainterError> {
    if view.destroyed {
        Some(PainterError::UseAfterDestroy)
    } else if !delta.valid(view.max_texture_side) {
        Some(PainterError::InvalidImage)
    } else if view.texture(id) is None && fresh.len() == 0 {
        Some(PainterError::Resource)
    } else {
        None
    }
}

/// Every image of the list is valid.
pub open spec fn updates_valid(set: Seq<(TextureId, ImageDelta)>, max_texture_side: usize) -> bool {
    forall|k: int| 0 <= k < set.len() ==> (#[trigger] set[k]).1.valid(max_texture_side)
}

/// Every primitive of the list is valid.
pub open spec fn primitives_valid(
    primitives: Seq<ClippedPrimitive>,
    screen_size_px: [u32; 2],
) -> bool {
    forall|k: int| 0 <= k < primitives.len() ==> (#[trigger] primitives[k]).valid(screen_size_px)
}

/// Why the painting of primitives is refused, if it is: the painter is
/// destroyed, or a primitive is invalid. The first that applies is reported.
pub open spec fn paint_error(
    view: PainterView,
    screen_size_px: [u32; 2],
    primitives: Seq<ClippedPrimitive>,
) -> Option<PainterError> {
    if view.destroyed {
        Some(PainterError::UseAfterDestroy)
    } else if !primitives_valid(primitives, screen_size_px) {
        Some(PainterError::InvalidPrimitive)
    } else {
        None
    }
}

/// Why a frame with texture changes is refused, if it is: the painter is
/// destroyed, or an image is invalid, or a primitive is. The first that
/// applies is reported.
pub open spec fn frame_error(
    view: PainterView,
    screen_size_px: [u32; 2],
    primitives: Seq<ClippedPrimitive>,
    set: Seq<(TextureId, ImageDelta)>,
) -> Option<PainterError> {
    if view.destroyed {
        Some(PainterError::UseAfterDestroy)
    } else if !updates_valid(set, view.max_texture_side) {
        Some(PainterError::InvalidImage)
    } else if !primitives_valid(primitives, screen_size_px) {
        Some(PainterError::InvalidPrimitive)
    } else {
        None
    }
}

impl PainterView {
    /// The state of a painter right after its construction.
    pub open spec fn initial(
        caps: DeviceCaps,
        pp_fb_extent: Option<[i32; 2]>,
        objects: DeviceObjects,
    ) -> PainterView {
        PainterView {
            max_texture_side: caps.max_texture_side,
            program: objects.program->0,
            is_webgl_1: caps.shader_version is Es100,
            is_embedded: caps.shader_version.embedded(),
            srgb_support: caps.srgb_support,
            framebuffer_srgb: caps.framebuffer_srgb,
            post_process: if post_process_of(caps.shader_version, caps.srgb_support, pp_fb_extent)
                is Some {
                objects.post_process
            } else {
                None
            },
            vbo: objects.vertex_buffer->0,
            element_array_buffer: objects.element_buffer->0,
            textures: Seq::empty(),
            next_native_tex_id: FIRST_NATIVE_TEX_ID,
            textures_to_destroy: Seq::empty(),
            destroyed: false,
        }
    }

    /// The invariant of the state: no identifier occurs twice in the table;
    /// the identifiers for registered textures start at
    /// [`FIRST_NATIVE_TEX_ID`], and the table holds none that is yet to be
    /// given out; a destroyed painter holds no texture.
    pub open spec fn wf(self) -> bool {
        &&& distinct_ids(self.textures)
        &&& self.next_native_tex_id >= FIRST_NATIVE_TEX_ID
        &&& ids_issued(self.textures, self.next_native_tex_id)
        &&& self.destroyed ==> self.textures.len() == 0 && self.textures_to_destroy.len() == 0
    }

    /// The texture that the table holds for `id`.
    pub open spec fn texture(self, id: TextureId) -> Option<Texture> {
        if has_entry(self.textures, id) {
            Some(self.textures[entry_index(self.textures, id)].texture)
        } else {
            None
        }
    }

    /// Where gamma correction happens.
    pub open spec fn color_mode(self) -> ColorMode {
        if !self.is_embedded {
            ColorMode::Native
        } else if self.post_process is Some {
            ColorMode::Corrected
        } else {
            ColorMode::Uncorrected
        }
    }

    /// The state with `texture` in the table under `id`: in the place of the
    /// entry that was there, or at the end. Identifiers for registered
    /// textures are given out only beyond `id` from then on.
    pub open spec fn with_texture(
        self,
        id: TextureId,
        texture: Texture,
        owned: bool,
    ) -> PainterView {
        PainterView {
            textures: if has_entry(self.textures, id) {
                self.textures.update(
                    entry_index(self.textures, id),
                    TableEntry { id, texture, owned },
                )
            } else {
                self.textures.push(TableEntry { id, texture, owned })
            },
            next_native_tex_id: next_after(self.next_native_tex_id, id),
            ..self
        }
    }

    /// The state without an entry for `id`.
    pub open spec fn without_texture(self, id: TextureId) -> PainterView {
        PainterView {
            textures: if has_entry(self.textures, id) {
                self.textures.remove(entry_index(self.textures, id))
            } else {
                self.textures
            },
            ..self
        }
    }

    /// The state after a texture was registered: the texture stands in the
    /// table under the identifier that was next, as the host's, and the
    /// identifier after it is next.
    pub open spec fn registered(self, native: Texture) -> PainterView {
        self.with_texture(TextureId::User(self.next_native_tex_id), native, false)
    }

    /// The state after the texture of `id` was replaced: the new texture
    /// stands in the table, as the host's, and the one that stood there is
    /// the painter's and waits for its deletion.
    pub open spec fn replaced(self, id: TextureId, replacing: Texture) -> PainterView {
        PainterView {
            textures_to_destroy: match self.texture(id) {
                Some(old_tex) => self.textures_to_destroy.push(old_tex),
                None => self.textures_to_destroy,
            },
            ..self.with_texture(id, replacing, false)
        }
    }

    /// The state after teardown: nothing is held any more.
    pub open spec fn torn_down(self) -> PainterView {
        PainterView {
            textures: Seq::empty(),
            textures_to_destroy: Seq::empty(),
            destroyed: true,
            ..self
        }
    }

    /// The operations of a teardown: the program, every texture of the
    /// table that is the painter's own, both buffers, every texture that
    /// waited for its deletion, and the intermediate target where there is
    /// one. The textures of the host are left to the host.
    pub open spec fn teardown_ops(self) -> Seq<DeviceOp> {
        seq![DeviceOp::DeleteProgram(self.program)] + delete_ops(
            owned_textures(self.textures, self.textures.len() as int),
        )
            + seq![
            DeviceOp::DeleteBuffer(self.vbo),
            DeviceOp::DeleteBuffer(self.element_array_buffer),
        ] + delete_ops(self.textures_to_destroy) + if self.post_process is Some {
            seq![DeviceOp::PostProcessDestroy]
        } else {
            Seq::empty()
        }
    }
}

} // verus!
