//! The drawable units of a frame.

use vstd::prelude::*;
use crate::clip::{viewport_fits, callback_viewport, PixelRect};
use crate::texture::TextureId;

verus! {

/// A textured triangle mesh.
///
/// The painter reads the indices and the number of vertices; the vertices
/// themselves stay with the host, which uploads them when asked to, as it
/// uploads the bytes of the indices.
#[derive(Clone, Debug, PartialEq, Eq)]
pub struct Mesh {
    /// Three indices for each triangle.
    pub indices: Vec<u32>,
    /// The number of vertices in the vertex buffer of the mesh.
    pub vertex_count: usize,
    /// The texture that the mesh samples.
    pub texture_id: TextureId,
}

/// A request to let the host render into a part of the frame.
#[derive(Clone, Copy, Debug, PartialEq, Eq, Structural)]
pub struct PaintCallback {
    /// The target in physical pixels, rounded to the nearest integer.
    pub rect: PixelRect,
    /// Whether the target, before scaling and rounding, has strictly
    /// positive width and height.
    pub positive: bool,
}

/// A mesh or a callback.
#[derive(Clone, Debug, PartialEq, Eq)]
pub enum Primitive {
    Mesh(Mesh),
    Callback(PaintCallback),
}

/// A primitive with the rectangle outside which nothing of it is shown.
#[derive(Clone, Debug, PartialEq, Eq)]
pub struct ClippedPrimitive {
    /// The clip rectangle in physical pixels, rounded to the nearest integer.
    pub clip_rect: PixelRect,
    pub primitive: Primitive,
}

/// Calls `bytemuck::cast_slice` to read a slice of 32-bit indices as a slice
/// of bytes. The target has alignment one and four bytes make an index, so
/// the call cannot fail; the result is the same memory, four bytes for each
/// index. In which order the bytes of an index stand depends on the machine,
/// so the length is all that is stated.
#[verifier::external_body]
fn cast_indices(indices: &[u32]) -> (bytes: &[u8])
    ensures
        bytes@.len() == 4 * indices@.len(),
{
    bytemuck::cast_slice(indices)
}

impl Mesh {
    /// The indices as the bytes that an upload hands to the device.
    pub fn index_bytes(&self) -> (bytes: &[u8])
        ensures
            bytes@.len() == 4 * self.indices@.len(),
    {
        cast_indices(self.indices.as_slice())
    }

    /// The indices come in triples, each names a vertex of the mesh, and
    /// their number is a signed 32-bit number.
    pub open spec fn valid(&self) -> bool {
        &&& self.indices@.len() % 3 == 0
        &&& self.indices@.len() <= i32::MAX
        &&& forall|i: int| 0 <= i < self.indices@.len() ==> self.indices@[i] < self.vertex_count
    }

    /// Decides [`Mesh::valid`].
    pub fn is_valid(&self) -> (ok: bool)
        ensures
            ok == self.valid(),
    {
        let n: usize = self.indices.len();
        if n % 3 != 0 || n > 0x7fff_ffff {
            return false;
        }
        let mut i: usize = 0;
        while i < n
            invariant
                i <= n,
                n == self.indices@.len(),
                forall|j: int| 0 <= j < i ==> self.indices@[j] < self.vertex_count,
            decreases n - i,
        {
            if self.indices[i] as usize >= self.vertex_count {
                return false;
            }
            i += 1;
        }
        true
    }
}

impl PaintCallback {
    /// A callback that will run has a viewport that the device can address.
    /// One with an empty target never runs and is always valid.
    pub open spec fn valid(&self, screen_size_px: [u32; 2]) -> bool {
        self.positive ==> viewport_fits(self.rect, screen_size_px)
    }

    /// Decides [`PaintCallback::valid`].
    pub fn is_valid(&self, screen_size_px: [u32; 2]) -> (ok: bool)
        ensures
            ok == self.valid(screen_size_px),
    {
        !self.positive || callback_viewport(self.rect, screen_size_px).is_some()
    }
}

impl ClippedPrimitive {
    /// The primitive is a valid mesh or a valid callback.
    pub open spec fn valid(&self, screen_size_px: [u32; 2]) -> bool {
        match self.primitive {
            Primitive::Mesh(mesh) => mesh.valid(),
            Primitive::Callback(callback) => callback.valid(screen_size_px),
        }
    }

    /// Decides [`ClippedPrimitive::valid`].
    pub fn is_valid(&self, screen_size_px: [u32; 2]) -> (ok: bool)
        ensures
            ok == self.valid(screen_size_px),
    {
        match &self.primitive {
            Primitive::Mesh(mesh) => mesh.is_valid(),
            Primitive::Callback(callback) => callback.is_valid(screen_size_px),
        }
    }
}

} // verus!
