//! Patching a texture is the same as uploading the patched image.

use vstd::prelude::*;
use crate::device::{DeviceOp, Texture};
use crate::frame::{apply_update, set_texture_ops, upload_formats, upload_ops};
use crate::laws::lemma_with_texture;
use crate::model::{
    lemma_run_concat, patched_bytes, run, run_from, tex_image, tex_sub_image, DeviceState, Host,
    TextureImage,
};
use crate::state::PainterView;
use crate::texture::{texel_bytes, ImageDelta, TextureId};

verus! {

/// The texels of an image of the given width after a region was overwritten
/// by a patch. The texel at a position lies in the column that is the
/// position's remainder by the width, and in the row that is its quotient; a
/// texel inside the region comes from the patch, which holds the region row
/// by row.
#[verifier::opaque]
pub open spec fn patched_pixels(
    base: Seq<[u8; 4]>,
    width: usize,
    patch: Seq<[u8; 4]>,
    x: usize,
    y: usize,
    patch_width: usize,
    patch_height: usize,
) -> Seq<[u8; 4]> {
    Seq::new(
        base.len(),
        |p: int|
            {
                let column = p % (width as int);
                let row = p / (width as int);
                if x <= column < x + patch_width && y <= row < y + patch_height {
                    patch[(row - y) * patch_width + (column - x)]
                } else {
                    base[p]
                }
            },
    )
}

/// Whether `merged` is the full image `base` with `patch` laid over it: a
/// full image of the same size whose texels are those of `base` but inside
/// the region of the patch.
pub open spec fn is_patched(base: ImageDelta, patch: ImageDelta, merged: ImageDelta) -> bool {
    &&& base.pos is None
    &&& merged.pos is None
    &&& merged.size == base.size
    &&& patch.pos matches Some(pos)
    &&& pos[0] + patch.size[0] <= base.size[0]
    &&& pos[1] + patch.size[1] <= base.size[1]
    &&& merged.pixels@ == patched_pixels(
        base.pixels@,
        base.size[0],
        patch.pixels@,
        pos[0],
        pos[1],
        patch.size[0],
        patch.size[1],
    )
}

/// A position inside a region of the given width, counted row by row, is
/// below the number of positions of the region.
proof fn lemma_region_index(row: int, column: int, width: int, height: int)
    requires
        0 <= row < height,
        0 <= column < width,
    ensures
        0 <= row * width + column < width * height,
{
    assert(0 <= row * width + column < width * height) by (nonlinear_arith)
        requires
            0 <= row < height,
            0 <= column < width,
    ;
}

/// Overwriting a region of the bytes of an image gives the bytes of the
/// image with the region overwritten.
pub proof fn lemma_patched_bytes(
    base: Seq<[u8; 4]>,
    width: usize,
    height: usize,
    patch: Seq<[u8; 4]>,
    x: usize,
    y: usize,
    patch_width: usize,
    patch_height: usize,
)
    requires
        base.len() == width * height,
        patch.len() == patch_width * patch_height,
        x + patch_width <= width,
        y + patch_height <= height,
    ensures
        patched_bytes(
            TextureImage { width: width as nat, height: height as nat, bytes: texel_bytes(base) },
            x,
            y,
            patch_width,
            patch_height,
            texel_bytes(patch),
        ) == texel_bytes(patched_pixels(base, width, patch, x, y, patch_width, patch_height)),
{
    reveal(patched_bytes);
    reveal(patched_pixels);
    let image = TextureImage {
        width: width as nat,
        height: height as nat,
        bytes: texel_bytes(base),
    };
    let left = patched_bytes(image, x, y, patch_width, patch_height, texel_bytes(patch));
    let merged = patched_pixels(base, width, patch, x, y, patch_width, patch_height);
    let right = texel_bytes(merged);
    assert(left.len() == right.len());
    assert forall|b: int| 0 <= b < left.len() implies left[b] == right[b] by {
        let p = b / 4;
        let column = p % (width as int);
        let row = p / (width as int);
        assert(0 <= p < base.len());
        assert(right[b] == merged[p][b % 4]);
        if x <= column < x + patch_width && y <= row < y + patch_height {
            let k = (row - y) * patch_width + (column - x);
            lemma_region_index(row - y, column - x, patch_width as int, patch_height as int);
            assert(0 <= k < patch.len());
            let i = k * 4 + b % 4;
            assert(0 <= i < 4 * patch.len());
            assert(i / 4 == k);
            assert(i % 4 == b % 4);
            assert(texel_bytes(patch)[i] == patch[k][b % 4]);
            assert(merged[p] == patch[k]);
        } else {
            assert(merged[p] == base[p]);
            assert(texel_bytes(base)[b] == base[p][b % 4]);
        }
    }
    assert(left =~= right);
}

/// The operations of an image update come down to binding the texture and
/// transferring the texels: in this model of the device, the sampling
/// parameters and the row alignment change nothing.
pub proof fn lemma_set_texture_run(
    view: PainterView,
    texture: Texture,
    delta: ImageDelta,
    update: usize,
    start: DeviceState,
    host: Host,
)
    ensures
        run(start, set_texture_ops(view, texture, delta, update), host) == match delta.pos {
            Some(pos) => tex_sub_image(
                DeviceState { texture: Some(texture), ..start },
                host,
                pos[0],
                pos[1],
                delta.size[0],
                delta.size[1],
                update,
            ),
            None => tex_image(
                DeviceState { texture: Some(texture), ..start },
                host,
                delta.size[0],
                delta.size[1],
                update,
            ),
        },
{
    reveal_with_fuel(run_from, 7);
    let upload = upload_ops(view, delta.pos, delta.size, delta.filter, update);
    lemma_run_concat(start, seq![DeviceOp::BindTexture(texture)], upload, host);
}

/// On the device, a full upload followed by a patch leaves what the upload of
/// the patched image leaves: the same texels in the texture, and the same
/// state otherwise. The three uploads may come from different calls: each
/// has its own host and its own number.
pub proof fn lemma_patch_after_upload(
    view: PainterView,
    texture: Texture,
    base: ImageDelta,
    patch: ImageDelta,
    merged: ImageDelta,
    start: DeviceState,
    first: (Host, usize),
    second: (Host, usize),
    direct: (Host, usize),
)
    requires
        base.valid(view.max_texture_side),
        patch.valid(view.max_texture_side),
        is_patched(base, patch, merged),
        first.1 < first.0.uploads.len(),
        first.0.uploads[first.1 as int] == texel_bytes(base.pixels@),
        second.1 < second.0.uploads.len(),
        second.0.uploads[second.1 as int] == texel_bytes(patch.pixels@),
        direct.1 < direct.0.uploads.len(),
        direct.0.uploads[direct.1 as int] == texel_bytes(merged.pixels@),
    ensures
        run(
            run(start, set_texture_ops(view, texture, base, first.1), first.0),
            set_texture_ops(view, texture, patch, second.1),
            second.0,
        ) == run(start, set_texture_ops(view, texture, merged, direct.1), direct.0),
{
    let pos = patch.pos->0;
    lemma_set_texture_run(view, texture, base, first.1, start, first.0);
    let filled = run(start, set_texture_ops(view, texture, base, first.1), first.0);
    lemma_set_texture_run(view, texture, patch, second.1, filled, second.0);
    lemma_set_texture_run(view, texture, merged, direct.1, start, direct.0);
    let full_image = TextureImage {
        width: base.size[0] as nat,
        height: base.size[1] as nat,
        bytes: texel_bytes(base.pixels@),
    };
    let merged_image = TextureImage {
        width: base.size[0] as nat,
        height: base.size[1] as nat,
        bytes: texel_bytes(merged.pixels@),
    };
    let bound = DeviceState { texture: Some(texture), ..start };
    assert(filled == DeviceState { images: start.images.insert(texture, full_image), ..bound });
    lemma_patched_bytes(
        base.pixels@,
        base.size[0],
        base.size[1],
        patch.pixels@,
        pos[0],
        pos[1],
        patch.size[0],
        patch.size[1],
    );
    assert(filled.images[texture] == full_image);
    assert(filled.images.insert(texture, merged_image) =~= start.images.insert(
        texture,
        merged_image,
    ));
    assert(run(filled, set_texture_ops(view, texture, patch, second.1), second.0)
        == DeviceState { images: start.images.insert(texture, merged_image), ..bound });
    assert(merged.pixels@.len() == base.pixels@.len()) by {
        reveal(patched_pixels);
    }
}

/// What the two round-trip laws share: the texture that both updates go to,
/// and that the painter ends in the same state either way.
proof fn lemma_patch_same_texture(
    view: PainterView,
    id: TextureId,
    base: ImageDelta,
    patch: ImageDelta,
    merged: ImageDelta,
    fresh: Seq<Texture>,
    number: usize,
) -> (texture: Texture)
    requires
        view.wf(),
        !view.destroyed,
        view.texture(id) is Some || fresh.len() > 0,
    ensures
        ({
            let first = apply_update(view, id, base, 0, fresh);
            let second = apply_update(first.view, id, patch, number, first.fresh);
            let direct = apply_update(view, id, merged, 0, fresh);
            &&& first.ops == set_texture_ops(view, texture, base, 0)
            &&& second.ops == set_texture_ops(view, texture, patch, number)
            &&& direct.ops == set_texture_ops(view, texture, merged, 0)
            &&& second.view == direct.view
            &&& second.fresh == direct.fresh
        }),
{
    let texture = match view.texture(id) {
        Some(texture) => texture,
        None => fresh.last(),
    };
    if view.texture(id) is None {
        lemma_with_texture(view, id, texture, true);
    }
    let first = apply_update(view, id, base, 0, fresh);
    assert(first.view.texture(id) == Some(texture));
    assert(upload_formats(first.view) == upload_formats(view));
    assert(set_texture_ops(first.view, texture, patch, number) == set_texture_ops(
        view,
        texture,
        patch,
        number,
    ));
    texture
}

/// Within one frame, applying a full image update and then a patch to the
/// same texture is equivalent to applying the patched image at once: the
/// painter ends in the same state with the same textures left over, and the
/// device ends in the same state, texel for texel.
pub proof fn lemma_patch_round_trip(
    view: PainterView,
    id: TextureId,
    base: ImageDelta,
    patch: ImageDelta,
    merged: ImageDelta,
    fresh: Seq<Texture>,
    start: DeviceState,
    two: Host,
    one: Host,
)
    requires
        view.wf(),
        !view.destroyed,
        base.valid(view.max_texture_side),
        patch.valid(view.max_texture_side),
        is_patched(base, patch, merged),
        two.uploads == seq![texel_bytes(base.pixels@), texel_bytes(patch.pixels@)],
        one.uploads == seq![texel_bytes(merged.pixels@)],
    ensures
        ({
            let first = apply_update(view, id, base, 0, fresh);
            let second = apply_update(first.view, id, patch, 1, first.fresh);
            let direct = apply_update(view, id, merged, 0, fresh);
            &&& second.view == direct.view
            &&& second.fresh == direct.fresh
            &&& run(start, first.ops + second.ops, two) == run(start, direct.ops, one)
        }),
{
    let first = apply_update(view, id, base, 0, fresh);
    let second = apply_update(first.view, id, patch, 1, first.fresh);
    lemma_run_concat(start, first.ops, second.ops, two);
    if view.texture(id) is None && fresh.len() == 0 {
        reveal_with_fuel(run_from, 2);
    } else {
        let texture = lemma_patch_same_texture(view, id, base, patch, merged, fresh, 1);
        lemma_patch_after_upload(
            view,
            texture,
            base,
            patch,
            merged,
            start,
            (two, 0),
            (two, 1),
            (one, 0),
        );
    }
}

/// Across two calls, each with its image as its only update, applying a full
/// image and then a patch to the same texture is equivalent to applying the
/// patched image in one call: the painter ends in the same state with the
/// same textures left over, and the device ends in the same state, texel for
/// texel.
pub proof fn lemma_patch_round_trip_two_calls(
    view: PainterView,
    id: TextureId,
    base: ImageDelta,
    patch: ImageDelta,
    merged: ImageDelta,
    fresh: Seq<Texture>,
    start: DeviceState,
    first_call: Host,
    second_call: Host,
    one: Host,
)
    requires
        view.wf(),
        !view.destroyed,
        base.valid(view.max_texture_side),
        patch.valid(view.max_texture_side),
        is_patched(base, patch, merged),
        first_call.uploads == seq![texel_bytes(base.pixels@)],
        second_call.uploads == seq![texel_bytes(patch.pixels@)],
        one.uploads == seq![texel_bytes(merged.pixels@)],
    ensures
        ({
            let first = apply_update(view, id, base, 0, fresh);
            let second = apply_update(first.view, id, patch, 0, first.fresh);
            let direct = apply_update(view, id, merged, 0, fresh);
            &&& second.view == direct.view
            &&& second.fresh == direct.fresh
            &&& run(run(start, first.ops, first_call), second.ops, second_call) == run(
                start,
                direct.ops,
                one,
            )
        }),
{
    if view.texture(id) is None && fresh.len() == 0 {
        reveal_with_fuel(run_from, 2);
    } else {
        let texture = lemma_patch_same_texture(view, id, base, patch, merged, fresh, 0);
        lemma_patch_after_upload(
            view,
            texture,
            base,
            patch,
            merged,
            start,
            (first_call, 0),
            (second_call, 0),
            (one, 0),
        );
    }
}

} // verus!
