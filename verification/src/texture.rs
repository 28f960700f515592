//! Texture identifiers and image updates.

use vstd::prelude::*;

verus! {

/// Names a texture towards the painter.
#[derive(Clone, Copy, Debug, PartialEq, Eq, Hash, Structural)]
pub enum TextureId {
    /// A texture that the GUI allocated.
    Managed(u64),
    /// A texture that the host registered.
    User(u64),
}

/// How a texture is sampled between texels.
#[derive(Clone, Copy, Debug, PartialEq, Eq, Structural)]
pub enum TextureFilter {
    Nearest,
    Linear,
}

/// A request to fill a texture or to patch a region of it.
///
/// Texels are four bytes each, red, green, blue and alpha, row by row from the
/// top.
#[derive(Clone, Debug, PartialEq, Eq)]
pub struct ImageDelta {
    /// Width and height of the image, in texels.
    pub size: [usize; 2],
    pub pixels: Vec<[u8; 4]>,
    pub filter: TextureFilter,
    /// `None` replaces the whole texture; `Some` gives the top-left corner of
    /// the region to overwrite.
    pub pos: Option<[usize; 2]>,
}

/// The texture changes of one frame.
#[derive(Clone, Debug, PartialEq, Eq)]
pub struct TexturesDelta {
    /// Updates to apply before painting, in order.
    pub set: Vec<(TextureId, ImageDelta)>,
    /// Textures to free after painting.
    pub free: Vec<TextureId>,
}

/// The bytes of a run of texels: four for each texel, in order.
pub open spec fn texel_bytes(pixels: Seq<[u8; 4]>) -> Seq<u8> {
    Seq::new(4 * pixels.len(), |i: int| pixels[i / 4][i % 4])
}

/// Calls `bytemuck::cast_slice` to read a slice of four-byte texels as a
/// slice of bytes. Source and target have alignment one and the byte length
/// is kept, so the call cannot fail; the result is the same memory, which
/// holds the four bytes of each texel one after the other.
#[verifier::external_body]
fn cast_texels(pixels: &[[u8; 4]]) -> (bytes: &[u8])
    ensures
        bytes@ == texel_bytes(pixels@),
{
    bytemuck::cast_slice(pixels)
}

impl ImageDelta {
    /// The texels as the bytes that an upload hands to the device.
    pub fn bytes(&self) -> (bytes: &[u8])
        ensures
            bytes@ == texel_bytes(self.pixels@),
    {
        cast_texels(self.pixels.as_slice())
    }

    /// The image is at least one texel wide and high, no side exceeds
    /// `max_texture_side`, and there is one texel for each position.
    pub open spec fn valid(&self, max_texture_side: usize) -> bool {
        &&& 1 <= self.size[0] <= max_texture_side
        &&& 1 <= self.size[1] <= max_texture_side
        &&& self.pixels@.len() == self.size[0] * self.size[1]
    }

    /// Decides [`ImageDelta::valid`].
    pub fn is_valid(&self, max_texture_side: usize) -> (ok: bool)
        ensures
            ok == self.valid(max_texture_side),
    {
        let w: usize = self.size[0];
        let h: usize = self.size[1];
        if w < 1 || h < 1 || w > max_texture_side || h > max_texture_side {
            return false;
        }
        assert(0 <= w * h <= 0xffff_ffff_ffff_ffff * 0xffff_ffff_ffff_ffff) by (nonlinear_arith)
            requires
                0 <= w <= 0xffff_ffff_ffff_ffff,
                0 <= h <= 0xffff_ffff_ffff_ffff,
        ;
        let texels: u128 = (w as u128) * (h as u128);
        self.pixels.len() as u128 == texels
    }
}

} // verus!
