//! The painter: the texture table and the operations of a frame.

use vstd::prelude::*;
use crate::clip::{addressable, callback_viewport, scissor_of, scissor_rect, DeviceRect, PixelRect};
use crate::device::{
    BlendEquation, BlendFactor, Buffer, BufferTarget, BufferUsage, Capability, DeviceOp,
    Diagnostic, DrawMode, Framebuffer, IndexType, Program, Texture, TextureFormat,
    TextureParameter, TextureWrap,
};
use crate::frame::{
    apply_update, apply_updates, clear_ops, enter_ops, frame_ops, free_ops, freed_ops, freed_view,
    mesh_ops,
    occurs_before, prepare_ops, primitive_ops, primitives_ops, textures_needed, upload_ops,
};
use crate::pipeline::{post_process_extent, ColorMode, DeviceCaps, ShaderVersion};
use crate::primitive::{ClippedPrimitive, Mesh, Primitive};
use crate::state::{
    construction_error, delete_ops, distinct_ids, entry_index, frame_error, has_entry,
    owned_textures, paint_error, primitives_valid, register_error, set_texture_error, unissued,
    updates_valid, DeviceObjects, PainterError, PainterView, TableEntry, FIRST_NATIVE_TEX_ID,
};
use crate::texture::{ImageDelta, TextureFilter, TextureId, TexturesDelta};

verus! {

/// Paints frames and keeps the textures that they use.
///
/// The painter owns the textures that image updates take from the supply, and
/// those that the host has it replace. A texture that the host registers is
/// only referred to: it stays the host's to delete.
///
/// A painter must be destroyed with [`Painter::destroy`] before the device
/// context goes away, so that the device objects are released. A destroyed
/// painter refuses every operation but a second `destroy` and the getters.
pub struct Painter {
    max_texture_side: usize,
    program: Program,
    is_webgl_1: bool,
    is_embedded: bool,
    srgb_support: bool,
    framebuffer_srgb: bool,
    post_process: Option<Framebuffer>,
    vbo: Buffer,
    element_array_buffer: Buffer,
    /// The texture table: a list that is searched from the front, so that
    /// teardown deletes in a fixed order.
    textures: Vec<TableEntry>,
    next_native_tex_id: u64,
    /// Replaced textures that are yet to be deleted.
    textures_to_destroy: Vec<Texture>,
    destroyed: bool,
}

impl Painter {
    #[verifier::type_invariant]
    spec fn inv(&self) -> bool {
        self@.wf()
    }

    /// The state of the painter.
    pub closed spec fn view(&self) -> PainterView {
        PainterView {
            max_texture_side: self.max_texture_side,
            program: self.program,
            is_webgl_1: self.is_webgl_1,
            is_embedded: self.is_embedded,
            srgb_support: self.srgb_support,
            framebuffer_srgb: self.framebuffer_srgb,
            post_process: self.post_process,
            vbo: self.vbo,
            element_array_buffer: self.element_array_buffer,
            textures: self.textures@,
            next_native_tex_id: self.next_native_tex_id,
            textures_to_destroy: self.textures_to_destroy@,
            destroyed: self.destroyed,
        }
    }

    /// Every painter keeps the invariant of its state. The call costs
    /// nothing; it lets a caller that holds a painter use the laws of the
    /// table.
    pub fn well_formed(&self)
        ensures
            self@.wf(),
    {
        proof {
            use_type_invariant(self);
        }
    }

    /// Makes a painter from what the host learned about the device and the
    /// objects it created there.
    ///
    /// Before the call the host creates the intermediate target, where
    /// [`post_process_extent`] asks for one, compiles and links the program,
    /// and allocates the two buffers. Construction fails where one of them
    /// is missing.
    pub fn new(caps: &DeviceCaps, pp_fb_extent: Option<[i32; 2]>, objects: &DeviceObjects) -> (r:
        Result<Painter, PainterError>)
        ensures
            match r {
                Ok(painter) => {
                    &&& construction_error(*caps, pp_fb_extent, *objects) is None
                    &&& painter@ == PainterView::initial(*caps, pp_fb_extent, *objects)
                    &&& painter@.wf()
                },
                Err(e) => construction_error(*caps, pp_fb_extent, *objects) == Some(e),
            },
    {
        let wanted: bool = post_process_extent(caps, pp_fb_extent).is_some();
        if wanted && objects.post_process.is_none() {
            return Err(PainterError::Configuration);
        }
        let program: Program = match objects.program {
            Some(program) => program,
            None => {
                return Err(PainterError::Configuration);
            },
        };
        let vbo: Buffer = match objects.vertex_buffer {
            Some(buffer) => buffer,
            None => {
                return Err(PainterError::Resource);
            },
        };
        let element_array_buffer: Buffer = match objects.element_buffer {
            Some(buffer) => buffer,
            None => {
                return Err(PainterError::Resource);
            },
        };
        let is_webgl_1: bool = match caps.shader_version {
            ShaderVersion::Es100 => true,
            _ => false,
        };
        Ok(
            Painter {
                max_texture_side: caps.max_texture_side,
                program,
                is_webgl_1,
                is_embedded: caps.shader_version.is_embedded(),
                srgb_support: caps.srgb_support,
                framebuffer_srgb: caps.framebuffer_srgb,
                post_process: if wanted {
                    objects.post_process
                } else {
                    None
                },
                vbo,
                element_array_buffer,
                textures: Vec::new(),
                next_native_tex_id: FIRST_NATIVE_TEX_ID,
                textures_to_destroy: Vec::new(),
                destroyed: false,
            },
        )
    }

    /// The largest width or height of a texture on this device.
    pub fn max_texture_side(&self) -> (r: usize)
        ensures
            r == self@.max_texture_side,
    {
        self.max_texture_side
    }

    /// The framebuffer that serves as intermediate render target, or `None`
    /// where the painter paints onto the display directly.
    ///
    /// This is the framebuffer that is bound while a callback runs, and the
    /// one that a callback has to restore if it binds another.
    pub fn intermediate_fbo(&self) -> (r: Option<Framebuffer>)
        ensures
            r == self@.post_process,
    {
        self.post_process
    }

    /// Whether [`Painter::destroy`] has run.
    pub fn is_destroyed(&self) -> (r: bool)
        ensures
            r == self@.destroyed,
    {
        self.destroyed
    }

    /// Where gamma correction happens.
    pub fn color_mode(&self) -> (r: ColorMode)
        ensures
            r == self@.color_mode(),
    {
        if !self.is_embedded {
            ColorMode::Native
        } else if self.post_process.is_some() {
            ColorMode::Corrected
        } else {
            ColorMode::Uncorrected
        }
    }

    /// Whether the coverage of a font image is to be brightened when it is
    /// turned into texels: only where nothing else corrects gamma.
    pub fn brightens_fonts(&self) -> (r: bool)
        ensures
            r == (self@.color_mode() == ColorMode::Uncorrected),
    {
        self.is_embedded && self.post_process.is_none()
    }

    /// The position of `id` in the table.
    fn find(&self, id: TextureId) -> (r: Option<usize>)
        ensures
            match r {
                Some(i) => has_entry(self.textures@, id) && i == entry_index(self.textures@, id)
                    && i < self.textures@.len() && self.textures@[i as int].id == id,
                None => !has_entry(self.textures@, id),
            },
    {
        proof {
            use_type_invariant(self);
        }
        let mut i: usize = 0;
        while i < self.textures.len()
            invariant
                i <= self.textures@.len(),
                distinct_ids(self.textures@),
                forall|j: int| 0 <= j < i ==> (#[trigger] self.textures@[j]).id != id,
            decreases self.textures@.len() - i,
        {
            if self.textures[i].id == id {
                proof {
                    let k = entry_index(self.textures@, id);
                    assert(self.textures@[i as int].id == id);
                    assert(self.textures@[k].id == id);
                }
                return Some(i);
            }
            i += 1;
        }
        None
    }

    /// The device texture that stands for `texture_id`.
    pub fn texture(&self, texture_id: TextureId) -> (r: Option<Texture>)
        ensures
            r == self@.texture(texture_id),
    {
        match self.find(texture_id) {
            Some(i) => Some(self.textures[i].texture),
            None => None,
        }
    }

    /// The same as [`Painter::texture`], under its earlier name.
    pub fn get_texture(&self, texture_id: TextureId) -> (r: Option<Texture>)
        ensures
            r == self@.texture(texture_id),
    {
        self.texture(texture_id)
    }

    /// Puts `texture` into the table under `id` and returns the texture that
    /// stood there.
    fn insert(&mut self, id: TextureId, texture: Texture, owned: bool) -> (previous: Option<
        Texture,
    >)
        requires
            !old(self)@.destroyed,
        ensures
            final(self)@ == old(self)@.with_texture(id, texture, owned),
            previous == old(self)@.texture(id),
    {
        proof {
            use_type_invariant(&*self);
        }
        let found: Option<usize> = self.find(id);
        let mut textures: Vec<TableEntry> = Vec::new();
        std::mem::swap(&mut textures, &mut self.textures);
        let ghost before = textures@;
        if let TextureId::User(n) = id {
            if self.next_native_tex_id <= n && n < u64::MAX {
                self.next_native_tex_id = n + 1;
            }
        }
        let previous: Option<Texture> = match found {
            Some(i) => {
                let previous: Texture = textures[i].texture;
                textures[i] = TableEntry { id, texture, owned };
                Some(previous)
            },
            None => {
                textures.push(TableEntry { id, texture, owned });
                None
            },
        };
        proof {
            let after = textures@;
            assert forall|a: int, b: int| 0 <= a < b < after.len() implies (#[trigger] after[a]).id
                != (#[trigger] after[b]).id by {
                if a < before.len() {
                    assert(after[a].id == before[a].id);
                }
                if b < before.len() {
                    assert(after[b].id == before[b].id);
                }
            }
            assert forall|a: int| 0 <= a < after.len() implies !unissued(
                self.next_native_tex_id,
                (#[trigger] after[a]).id,
            ) by {
                if a < before.len() {
                    assert(after[a].id == before[a].id);
                }
            }
        }
        self.textures = textures;
        previous
    }

    /// Takes the entry of `id` out of the table and returns its texture.
    fn remove(&mut self, id: TextureId) -> (previous: Option<Texture>)
        ensures
            final(self)@ == old(self)@.without_texture(id),
            previous == old(self)@.texture(id),
    {
        proof {
            use_type_invariant(&*self);
        }
        let found: Option<usize> = self.find(id);
        match found {
            Some(i) => {
                let mut textures: Vec<TableEntry> = Vec::new();
                std::mem::swap(&mut textures, &mut self.textures);
                let ghost before = textures@;
                let entry: TableEntry = textures.remove(i);
                proof {
                    let after = textures@;
                    assert forall|a: int| 0 <= a < after.len() implies #[trigger] after[a]
                        == before[if a < i {
                        a
                    } else {
                        a + 1
                    }] by {}
                }
                self.textures = textures;
                Some(entry.texture)
            },
            None => None,
        }
    }

    /// Frees the texture of `tex_id`: takes it out of the table and has it
    /// deleted, whosever it is. Nothing happens where the table has no such
    /// texture. A destroyed painter refuses.
    pub fn free_texture(&mut self, tex_id: TextureId) -> (r: Result<Vec<DeviceOp>, PainterError>)
        ensures
            match r {
                Ok(ops) => {
                    &&& !old(self)@.destroyed
                    &&& final(self)@ == old(self)@.without_texture(tex_id)
                    &&& ops@ == free_ops(old(self)@, tex_id)
                },
                Err(e) => {
                    &&& old(self)@.destroyed
                    &&& e == PainterError::UseAfterDestroy
                    &&& final(self)@ == old(self)@
                },
            },
            final(self)@.wf(),
    {
        proof {
            use_type_invariant(&*self);
        }
        if self.destroyed {
            return Err(PainterError::UseAfterDestroy);
        }
        let mut ops: Vec<DeviceOp> = Vec::new();
        if let Some(old_tex) = self.remove(tex_id) {
            ops.push(DeviceOp::DeleteTexture(old_tex));
        }
        proof {
            use_type_invariant(&*self);
        }
        Ok(ops)
    }

    /// Takes a texture of the host into the table and returns its identifier.
    ///
    /// The identifier is fresh: the table held nothing under it, the painter
    /// has not given it out before, and it is not below
    /// [`FIRST_NATIVE_TEX_ID`]. The texture stays the host's: the painter
    /// does not delete it when it is destroyed.
    pub fn register_native_texture(&mut self, native: Texture) -> (r: Result<
        TextureId,
        PainterError,
    >)
        ensures
            match r {
                Ok(id) => {
                    &&& register_error(old(self)@) is None
                    &&& id == TextureId::User(old(self)@.next_native_tex_id)
                    &&& old(self)@.next_native_tex_id >= FIRST_NATIVE_TEX_ID
                    &&& old(self)@.texture(id) is None
                    &&& final(self)@ == old(self)@.registered(native)
                    &&& final(self)@.next_native_tex_id == old(self)@.next_native_tex_id + 1
                },
                Err(e) => register_error(old(self)@) == Some(e) && final(self)@ == old(self)@,
            },
            final(self)@.wf(),
    {
        proof {
            use_type_invariant(&*self);
        }
        if self.destroyed {
            return Err(PainterError::UseAfterDestroy);
        }
        if self.next_native_tex_id == u64::MAX {
            return Err(PainterError::Resource);
        }
        let id: TextureId = TextureId::User(self.next_native_tex_id);
        proof {
            if has_entry(self.textures@, id) {
                assert(self.textures@[entry_index(self.textures@, id)].id == id);
            }
        }
        self.insert(id, native, false);
        proof {
            use_type_invariant(&*self);
        }
        Ok(id)
    }

    /// Puts another texture of the host in the place of the one that `id`
    /// names. The texture that stood there is not deleted at once, as a
    /// callback of the running frame may still use it: it waits until the
    /// painter is destroyed.
    pub fn replace_native_texture(&mut self, id: TextureId, replacing: Texture) -> (r: Result<
        (),
        PainterError,
    >)
        ensures
            match r {
                Ok(()) => {
                    &&& !old(self)@.destroyed
                    &&& final(self)@ == old(self)@.replaced(id, replacing)
                },
                Err(e) => {
                    &&& old(self)@.destroyed
                    &&& e == PainterError::UseAfterDestroy
                    &&& final(self)@ == old(self)@
                },
            },
            final(self)@.wf(),
    {
        proof {
            use_type_invariant(&*self);
        }
        if self.destroyed {
            return Err(PainterError::UseAfterDestroy);
        }
        if let Some(old_tex) = self.insert(id, replacing, false) {
            proof {
                use_type_invariant(&*self);
            }
            let mut pending: Vec<Texture> = Vec::new();
            std::mem::swap(&mut pending, &mut self.textures_to_destroy);
            pending.push(old_tex);
            self.textures_to_destroy = pending;
        }
        proof {
            use_type_invariant(&*self);
        }
        Ok(())
    }

    /// Releases everything that is the painter's on the device: the program,
    /// the buffers, the textures that image updates took from the supply,
    /// the textures that were replaced, and the intermediate target. The
    /// textures that the host registered are left to the host. A second call
    /// does nothing.
    pub fn destroy(&mut self) -> (ops: Vec<DeviceOp>)
        ensures
            final(self)@ == old(self)@.torn_down(),
            final(self)@.wf(),
            ops@ == if old(self)@.destroyed {
                Seq::<DeviceOp>::empty()
            } else {
                old(self)@.teardown_ops()
            },
    {
        proof {
            use_type_invariant(&*self);
        }
        let mut ops: Vec<DeviceOp> = Vec::new();
        if !self.destroyed {
            self.destroy_gl(&mut ops);
            if self.post_process.is_some() {
                ops.push(DeviceOp::PostProcessDestroy);
            }
            self.textures = Vec::new();
            self.textures_to_destroy = Vec::new();
            self.destroyed = true;
        } else {
            assert(self.textures@ =~= Seq::empty());
            assert(self.textures_to_destroy@ =~= Seq::empty());
        }
        ops
    }

    /// What there is to report when the painter is dropped: a leak, unless
    /// the painter was destroyed.
    pub fn drop_diagnostic(&self) -> (r: Option<Diagnostic>)
        ensures
            r == if self@.destroyed {
                None
            } else {
                Some(Diagnostic::NotDestroyed)
            },
    {
        if !self.destroyed {
            Some(Diagnostic::NotDestroyed)
        } else {
            None
        }
    }

    /// Appends the deletion of the program, the textures and the buffers.
    fn destroy_gl(&self, ops: &mut Vec<DeviceOp>)
        ensures
            final(ops)@ == old(ops)@ + seq![DeviceOp::DeleteProgram(self@.program)] + delete_ops(
                owned_textures(self@.textures, self@.textures.len() as int),
            ) + seq![
                DeviceOp::DeleteBuffer(self@.vbo),
                DeviceOp::DeleteBuffer(self@.element_array_buffer),
            ] + delete_ops(self@.textures_to_destroy),
    {
        ops.push(DeviceOp::DeleteProgram(self.program));
        let ghost before = ops@;
        let mut i: usize = 0;
        while i < self.textures.len()
            invariant
                i <= self.textures@.len(),
                ops@ == before + delete_ops(owned_textures(self.textures@, i as int)),
            decreases self.textures@.len() - i,
        {
            if self.textures[i].owned {
                ops.push(DeviceOp::DeleteTexture(self.textures[i].texture));
            }
            i += 1;
        }
        ops.push(DeviceOp::DeleteBuffer(self.vbo));
        ops.push(DeviceOp::DeleteBuffer(self.element_array_buffer));
        let ghost before = ops@;
        let mut i: usize = 0;
        while i < self.textures_to_destroy.len()
            invariant
                i <= self.textures_to_destroy@.len(),
                ops@ == before + delete_ops(self.textures_to_destroy@.take(i as int)),
            decreases self.textures_to_destroy@.len() - i,
        {
            ops.push(DeviceOp::DeleteTexture(self.textures_to_destroy[i]));
            i += 1;
        }
        assert(self.textures_to_destroy@.take(i as int) == self.textures_to_destroy@);
    }

    /// Appends the operations that establish the drawing state.
    fn prepare_painting(&self, screen_size_px: [u32; 2], ops: &mut Vec<DeviceOp>)
        requires
            addressable(screen_size_px),
        ensures
            final(ops)@ == old(ops)@ + prepare_ops(self@, screen_size_px),
    {
        ops.push(DeviceOp::Enable(Capability::ScissorTest));
        ops.push(DeviceOp::Disable(Capability::CullFace));
        ops.push(DeviceOp::Disable(Capability::DepthTest));
        ops.push(DeviceOp::ColorMask(true, true, true, true));
        ops.push(DeviceOp::Enable(Capability::Blend));
        ops.push(DeviceOp::BlendEquationSeparate(BlendEquation::Add, BlendEquation::Add));
        ops.push(
            DeviceOp::BlendFuncSeparate {
                src_rgb: BlendFactor::One,
                dst_rgb: BlendFactor::OneMinusSrcAlpha,
                src_alpha: BlendFactor::OneMinusDstAlpha,
                dst_alpha: BlendFactor::One,
            },
        );
        if self.framebuffer_srgb {
            ops.push(DeviceOp::Enable(Capability::FramebufferSrgb));
        }
        ops.push(
            DeviceOp::Viewport(
                DeviceRect {
                    x: 0,
                    y: 0,
                    width: screen_size_px[0] as i32,
                    height: screen_size_px[1] as i32,
                },
            ),
        );
        ops.push(DeviceOp::UseProgram(self.program));
        ops.push(
            DeviceOp::UniformScreenSize {
                width_px: screen_size_px[0],
                height_px: screen_size_px[1],
            },
        );
        ops.push(DeviceOp::UniformSampler(0));
        ops.push(DeviceOp::ActiveTexture(0));
        ops.push(DeviceOp::BindVertexArray);
        ops.push(DeviceOp::BindBuffer(BufferTarget::ElementArray, Some(self.element_array_buffer)));
    }

    /// Appends the operations that draw one mesh.
    fn paint_mesh(&self, mesh: &Mesh, primitive: usize, ops: &mut Vec<DeviceOp>)
        requires
            mesh.valid(),
        ensures
            final(ops)@ == old(ops)@ + mesh_ops(self@, *mesh, primitive),
    {
        match self.texture(mesh.texture_id) {
            Some(texture) => {
                ops.push(DeviceOp::BindBuffer(BufferTarget::Array, Some(self.vbo)));
                ops.push(DeviceOp::BufferVertices { primitive, usage: BufferUsage::StreamDraw });
                ops.push(
                    DeviceOp::BindBuffer(
                        BufferTarget::ElementArray,
                        Some(self.element_array_buffer),
                    ),
                );
                ops.push(DeviceOp::BufferIndices { primitive, usage: BufferUsage::StreamDraw });
                ops.push(DeviceOp::BindTexture(texture));
                ops.push(
                    DeviceOp::DrawElements {
                        mode: DrawMode::Triangles,
                        count: mesh.indices.len() as i32,
                        element_type: IndexType::UnsignedInt,
                        offset: 0,
                    },
                );
            },
            None => {
                ops.push(DeviceOp::Warn(Diagnostic::MissingTexture(mesh.texture_id)));
            },
        }
    }

    /// Appends the operations of a frame's primitives, from entry to exit.
    fn paint_valid_primitives(
        &self,
        screen_size_px: [u32; 2],
        clipped_primitives: &Vec<ClippedPrimitive>,
        ops: &mut Vec<DeviceOp>,
    )
        requires
            addressable(screen_size_px),
            primitives_valid(clipped_primitives@, screen_size_px),
        ensures
            final(ops)@ == old(ops)@ + frame_ops(self@, screen_size_px, clipped_primitives@),
    {
        let ghost before = ops@;
        if self.post_process.is_some() {
            ops.push(
                DeviceOp::PostProcessBegin {
                    width: screen_size_px[0] as i32,
                    height: screen_size_px[1] as i32,
                },
            );
            ops.push(DeviceOp::PostProcessBind);
            ops.push(DeviceOp::Disable(Capability::ScissorTest));
            ops.push(
                DeviceOp::Viewport(
                    DeviceRect {
                        x: 0,
                        y: 0,
                        width: screen_size_px[0] as i32,
                        height: screen_size_px[1] as i32,
                    },
                ),
            );
            ops.push(DeviceOp::Clear);
        }
        self.prepare_painting(screen_size_px, ops);
        assert(ops@ == before + enter_ops(self@, screen_size_px));
        let n: usize = clipped_primitives.len();
        let mut i: usize = 0;
        while i < n
            invariant
                i <= n,
                n == clipped_primitives@.len(),
                addressable(screen_size_px),
                primitives_valid(clipped_primitives@, screen_size_px),
                ops@ == before + enter_ops(self@, screen_size_px) + primitives_ops(
                    self@,
                    screen_size_px,
                    clipped_primitives@,
                    i as int,
                ),
            decreases n - i,
        {
            let ghost start = ops@;
            let clipped: &ClippedPrimitive = &clipped_primitives[i];
            assert(clipped.valid(screen_size_px));
            ops.push(set_clip_rect(screen_size_px, clipped.clip_rect));
            match &clipped.primitive {
                Primitive::Mesh(mesh) => {
                    self.paint_mesh(mesh, i, ops);
                },
                Primitive::Callback(callback) => {
                    if callback.positive {
                        let viewport: Option<DeviceRect> = callback_viewport(
                            callback.rect,
                            screen_size_px,
                        );
                        ops.push(DeviceOp::Viewport(viewport.unwrap()));
                        ops.push(DeviceOp::InvokeCallback { primitive: i });
                        if self.post_process.is_some() {
                            ops.push(DeviceOp::PostProcessBind);
                        }
                        self.prepare_painting(screen_size_px, ops);
                    }
                },
            }
            assert(ops@ == start + primitive_ops(self@, screen_size_px, *clipped, i));
            i += 1;
        }
        ops.push(DeviceOp::UnbindVertexArray);
        ops.push(DeviceOp::BindBuffer(BufferTarget::ElementArray, None));
        if self.post_process.is_some() {
            ops.push(DeviceOp::PostProcessEnd);
        }
        ops.push(DeviceOp::Disable(Capability::ScissorTest));
    }

    /// Appends the operations that configure the bound texture and upload
    /// an image to it.
    fn upload_texture_srgb(
        &self,
        pos: Option<[usize; 2]>,
        size: [usize; 2],
        texture_filter: TextureFilter,
        update: usize,
        ops: &mut Vec<DeviceOp>,
    )
        ensures
            final(ops)@ == old(ops)@ + upload_ops(self@, pos, size, texture_filter, update),
    {
        ops.push(DeviceOp::TexParameter(TextureParameter::MagFilter(texture_filter)));
        ops.push(DeviceOp::TexParameter(TextureParameter::MinFilter(texture_filter)));
        ops.push(DeviceOp::TexParameter(TextureParameter::WrapS(TextureWrap::ClampToEdge)));
        ops.push(DeviceOp::TexParameter(TextureParameter::WrapT(TextureWrap::ClampToEdge)));
        let (internal_format, src_format): (TextureFormat, TextureFormat) = if self.is_webgl_1 {
            if self.srgb_support {
                (TextureFormat::SrgbAlpha, TextureFormat::SrgbAlpha)
            } else {
                (TextureFormat::Rgba, TextureFormat::Rgba)
            }
        } else {
            (TextureFormat::Srgb8Alpha8, TextureFormat::Rgba)
        };
        ops.push(DeviceOp::UnpackAlignment(1));
        match pos {
            Some(pos) => {
                ops.push(
                    DeviceOp::TexSubImage2d {
                        x: pos[0],
                        y: pos[1],
                        width: size[0],
                        height: size[1],
                        format: src_format,
                        update,
                    },
                );
            },
            None => {
                ops.push(
                    DeviceOp::TexImage2d {
                        internal_format,
                        width: size[0],
                        height: size[1],
                        format: src_format,
                        update,
                    },
                );
            },
        }
    }

    /// Applies one valid image update to a live painter.
    fn apply_image_update(
        &mut self,
        tex_id: TextureId,
        delta: &ImageDelta,
        update: usize,
        fresh: &mut Vec<Texture>,
        ops: &mut Vec<DeviceOp>,
    )
        requires
            !old(self)@.destroyed,
        ensures
            ({
                let applied = apply_update(old(self)@, tex_id, *delta, update, old(fresh)@);
                &&& final(self)@ == applied.view
                &&& final(ops)@ == old(ops)@ + applied.ops
                &&& final(fresh)@ == applied.fresh
            }),
    {
        let glow_texture: Texture = match self.texture(tex_id) {
            Some(texture) => texture,
            None => match fresh.pop() {
                Some(texture) => {
                    self.insert(tex_id, texture, true);
                    texture
                },
                None => {
                    ops.push(DeviceOp::Warn(Diagnostic::TextureUnavailable(tex_id)));
                    return ;
                },
            },
        };
        ops.push(DeviceOp::BindTexture(glow_texture));
        self.upload_texture_srgb(delta.pos, delta.size, delta.filter, update, ops);
    }

    /// Brings an image into the texture of `tex_id`.
    ///
    /// The table gets a texture for `tex_id` if it has none: the last of
    /// `fresh`, which the host created for the purpose. A full image gives
    /// the texture new storage of the image's size; a patch overwrites a
    /// region of the storage that is there. In the operations the image is
    /// update number zero.
    pub fn set_texture(
        &mut self,
        tex_id: TextureId,
        delta: &ImageDelta,
        fresh: &mut Vec<Texture>,
    ) -> (r: Result<Vec<DeviceOp>, PainterError>)
        ensures
            match r {
                Ok(ops) => {
                    let applied = apply_update(old(self)@, tex_id, *delta, 0, old(fresh)@);
                    &&& set_texture_error(old(self)@, tex_id, *delta, old(fresh)@) is None
                    &&& final(self)@ == applied.view
                    &&& ops@ == applied.ops
                    &&& final(fresh)@ == applied.fresh
                },
                Err(e) => {
                    &&& set_texture_error(old(self)@, tex_id, *delta, old(fresh)@) == Some(e)
                    &&& final(self)@ == old(self)@
                    &&& final(fresh)@ == old(fresh)@
                },
            },
            final(self)@.wf(),
    {
        proof {
            use_type_invariant(&*self);
        }
        if self.destroyed {
            return Err(PainterError::UseAfterDestroy);
        }
        if !delta.is_valid(self.max_texture_side) {
            return Err(PainterError::InvalidImage);
        }
        if self.texture(tex_id).is_none() && fresh.len() == 0 {
            return Err(PainterError::Resource);
        }
        let mut ops: Vec<DeviceOp> = Vec::new();
        self.apply_image_update(tex_id, delta, 0, fresh, &mut ops);
        proof {
            use_type_invariant(&*self);
        }
        Ok(ops)
    }

    /// The number of device textures that the host has to create for a list
    /// of image updates: one for each identifier of the list for which the
    /// table holds no texture.
    pub fn textures_needed(&self, set: &Vec<(TextureId, ImageDelta)>) -> (needed: usize)
        ensures
            needed == textures_needed(self@, set@, set@.len() as int),
    {
        let mut needed: usize = 0;
        let mut i: usize = 0;
        while i < set.len()
            invariant
                i <= set@.len(),
                needed <= i,
                needed == textures_needed(self@, set@, i as int),
            decreases set@.len() - i,
        {
            if self.texture(set[i].0).is_none() {
                let mut seen: bool = false;
                let mut j: usize = 0;
                while j < i
                    invariant
                        j <= i,
                        i < set@.len(),
                        seen == occurs_before(set@, j as int, set@[i as int].0),
                    decreases i - j,
                {
                    if set[j].0 == set[i].0 {
                        seen = true;
                    }
                    j += 1;
                }
                if !seen {
                    needed += 1;
                }
            }
            i += 1;
        }
        needed
    }

    /// Plans a frame with its texture changes: the image updates are applied
    /// in order, then the primitives are painted, then the textures named for
    /// freeing are freed, so that a primitive may still use a texture that
    /// the same frame frees.
    ///
    /// An update for an identifier without a texture takes the last of
    /// `fresh`; where `fresh` is used up, the update is dropped with a
    /// diagnostic and the frame goes on. Nothing is changed and no operation
    /// is planned where the frame is refused.
    pub fn paint_and_update_textures(
        &mut self,
        screen_size_px: [u32; 2],
        clipped_primitives: &Vec<ClippedPrimitive>,
        textures_delta: &TexturesDelta,
        fresh: &mut Vec<Texture>,
    ) -> (r: Result<Vec<DeviceOp>, PainterError>)
        requires
            addressable(screen_size_px),
        ensures
            match r {
                Ok(ops) => {
                    let applied = apply_updates(
                        old(self)@,
                        textures_delta.set@,
                        textures_delta.set@.len() as int,
                        old(fresh)@,
                    );
                    let free = textures_delta.free@;
                    &&& frame_error(
                        old(self)@,
                        screen_size_px,
                        clipped_primitives@,
                        textures_delta.set@,
                    ) is None
                    &&& ops@ == applied.ops + frame_ops(
                        applied.view,
                        screen_size_px,
                        clipped_primitives@,
                    ) + freed_ops(applied.view, free, free.len() as int)
                    &&& final(self)@ == freed_view(applied.view, free, free.len() as int)
                    &&& final(fresh)@ == applied.fresh
                },
                Err(e) => {
                    &&& frame_error(
                        old(self)@,
                        screen_size_px,
                        clipped_primitives@,
                        textures_delta.set@,
                    ) == Some(e)
                    &&& final(self)@ == old(self)@
                    &&& final(fresh)@ == old(fresh)@
                },
            },
            final(self)@.wf(),
    {
        proof {
            use_type_invariant(&*self);
        }
        if self.destroyed {
            return Err(PainterError::UseAfterDestroy);
        }
        if !all_updates_valid(&textures_delta.set, self.max_texture_side) {
            return Err(PainterError::InvalidImage);
        }
        if !all_primitives_valid(clipped_primitives, screen_size_px) {
            return Err(PainterError::InvalidPrimitive);
        }
        let mut ops: Vec<DeviceOp> = Vec::new();
        let mut i: usize = 0;
        while i < textures_delta.set.len()
            invariant
                i <= textures_delta.set@.len(),
                !self@.destroyed,
                ({
                    let applied = apply_updates(
                        old(self)@,
                        textures_delta.set@,
                        i as int,
                        old(fresh)@,
                    );
                    &&& self@ == applied.view
                    &&& ops@ == applied.ops
                    &&& fresh@ == applied.fresh
                }),
            decreases textures_delta.set@.len() - i,
        {
            let entry: &(TextureId, ImageDelta) = &textures_delta.set[i];
            self.apply_image_update(entry.0, &entry.1, i, fresh, &mut ops);
            i += 1;
        }
        let ghost applied = apply_updates(
            old(self)@,
            textures_delta.set@,
            textures_delta.set@.len() as int,
            old(fresh)@,
        );
        self.paint_valid_primitives(screen_size_px, clipped_primitives, &mut ops);
        let ghost painted = ops@;
        let mut i: usize = 0;
        while i < textures_delta.free.len()
            invariant
                i <= textures_delta.free@.len(),
                self@ == freed_view(applied.view, textures_delta.free@, i as int),
                ops@ == painted + freed_ops(applied.view, textures_delta.free@, i as int),
            decreases textures_delta.free@.len() - i,
        {
            if let Some(old_tex) = self.remove(textures_delta.free[i]) {
                ops.push(DeviceOp::DeleteTexture(old_tex));
            }
            i += 1;
        }
        proof {
            use_type_invariant(&*self);
        }
        Ok(ops)
    }

    /// Plans the painting of a frame.
    ///
    /// The caller is expected to have cleared the display. The operations
    /// leave the scissor test off, blending on with changed parameters, and
    /// vertex array and element buffer unbound.
    pub fn paint_primitives(
        &self,
        screen_size_px: [u32; 2],
        clipped_primitives: &Vec<ClippedPrimitive>,
    ) -> (r: Result<Vec<DeviceOp>, PainterError>)
        requires
            addressable(screen_size_px),
        ensures
            match r {
                Ok(ops) => paint_error(self@, screen_size_px, clipped_primitives@) is None
                    && ops@ == frame_ops(self@, screen_size_px, clipped_primitives@),
                Err(e) => paint_error(self@, screen_size_px, clipped_primitives@) == Some(e),
            },
    {
        if self.destroyed {
            return Err(PainterError::UseAfterDestroy);
        }
        if !all_primitives_valid(clipped_primitives, screen_size_px) {
            return Err(PainterError::InvalidPrimitive);
        }
        let mut ops: Vec<DeviceOp> = Vec::new();
        self.paint_valid_primitives(screen_size_px, clipped_primitives, &mut ops);
        Ok(ops)
    }
}

/// The operation that sets the scissor rectangle for a clip rectangle.
pub fn set_clip_rect(size_in_pixels: [u32; 2], clip_rect: PixelRect) -> (op: DeviceOp)
    requires
        addressable(size_in_pixels),
    ensures
        op == DeviceOp::Scissor(scissor_of(clip_rect, size_in_pixels)),
{
    DeviceOp::Scissor(scissor_rect(clip_rect, size_in_pixels))
}

/// Decides whether every primitive of the list is valid.
pub fn all_primitives_valid(
    clipped_primitives: &Vec<ClippedPrimitive>,
    screen_size_px: [u32; 2],
) -> (ok: bool)
    ensures
        ok == primitives_valid(clipped_primitives@, screen_size_px),
{
    let mut i: usize = 0;
    while i < clipped_primitives.len()
        invariant
            i <= clipped_primitives@.len(),
            forall|k: int|
                0 <= k < i ==> (#[trigger] clipped_primitives@[k]).valid(screen_size_px),
        decreases clipped_primitives@.len() - i,
    {
        if !clipped_primitives[i].is_valid(screen_size_px) {
            return false;
        }
        i += 1;
    }
    true
}

/// Decides whether every image of the list is valid.
pub fn all_updates_valid(set: &Vec<(TextureId, ImageDelta)>, max_texture_side: usize) -> (ok: bool)
    ensures
        ok == updates_valid(set@, max_texture_side),
{
    let mut i: usize = 0;
    while i < set.len()
        invariant
            i <= set@.len(),
            forall|k: int| 0 <= k < i ==> (#[trigger] set@[k]).1.valid(max_texture_side),
        decreases set@.len() - i,
    {
        if !set[i].1.is_valid(max_texture_side) {
            return false;
        }
        i += 1;
    }
    true
}

/// Plans the clearing of the display to the caller's colour.
pub fn clear(screen_size_in_pixels: [u32; 2]) -> (ops: Vec<DeviceOp>)
    requires
        addressable(screen_size_in_pixels),
    ensures
        ops@ == clear_ops(screen_size_in_pixels),
{
    let mut ops: Vec<DeviceOp> = Vec::new();
    ops.push(DeviceOp::Disable(Capability::ScissorTest));
    ops.push(
        DeviceOp::Viewport(
            DeviceRect {
                x: 0,
                y: 0,
                width: screen_size_in_pixels[0] as i32,
                height: screen_size_in_pixels[1] as i32,
            },
        ),
    );
    ops.push(DeviceOp::ClearColor);
    ops.push(DeviceOp::Clear);
    ops
}

} // verus!
