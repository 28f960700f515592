//! What holds of the texture table whatever the order of calls.

use vstd::prelude::*;
use crate::device::{DeviceOp, Texture};
use crate::frame::{
    apply_update, apply_updates, free_ops, needs_fresh, occurs_before, set_texture_ops,
    textures_needed,
};
use crate::state::{
    delete_ops, distinct_ids, entry_index, has_entry, owned_textures, unissued, PainterView,
    TableEntry, FIRST_NATIVE_TEX_ID,
};
use crate::texture::{ImageDelta, TextureId};

verus! {

/// In a table without repeated identifiers, the entry at a position is the
/// entry of its identifier.
pub proof fn lemma_entry_at(textures: Seq<TableEntry>, i: int)
    requires
        distinct_ids(textures),
        0 <= i < textures.len(),
    ensures
        has_entry(textures, textures[i].id),
        entry_index(textures, textures[i].id) == i,
{
    let id = textures[i].id;
    assert(textures[i].id == id);
    let k = entry_index(textures, id);
    assert(textures[k].id == id);
}

/// Putting a texture into the table keeps the invariant, makes the texture
/// the one that the identifier resolves to, and leaves every other
/// identifier with what it had. The identifier that is next never falls.
pub proof fn lemma_with_texture(view: PainterView, id: TextureId, texture: Texture, owned: bool)
    requires
        view.wf(),
        !view.destroyed,
    ensures
        view.with_texture(id, texture, owned).wf(),
        view.with_texture(id, texture, owned).texture(id) == Some(texture),
        forall|other: TextureId|
            other != id ==> view.with_texture(id, texture, owned).texture(other) == view.texture(
                other,
            ),
        view.with_texture(id, texture, owned).next_native_tex_id >= view.next_native_tex_id,
        !unissued(view.with_texture(id, texture, owned).next_native_tex_id, id),
{
    let before = view.textures;
    let after = view.with_texture(id, texture, owned).textures;
    let next = view.with_texture(id, texture, owned).next_native_tex_id;
    let i = if has_entry(before, id) {
        entry_index(before, id)
    } else {
        before.len() as int
    };
    if has_entry(before, id) {
        assert(before[i].id == id);
    }
    assert forall|a: int| 0 <= a < after.len() implies (#[trigger] after[a]).id == (if a == i {
        id
    } else {
        before[a].id
    }) by {}
    assert forall|a: int, b: int| 0 <= a < b < after.len() implies (#[trigger] after[a]).id != (
    #[trigger] after[b]).id by {
        if a < before.len() {
            assert(after[a].id == before[a].id);
        }
        if b < before.len() {
            assert(after[b].id == before[b].id);
        }
    }
    assert forall|a: int| 0 <= a < after.len() implies !unissued(
        next,
        (#[trigger] after[a]).id,
    ) by {
        if a < before.len() {
            assert(after[a].id == before[a].id);
            assert(!unissued(view.next_native_tex_id, before[a].id));
        }
    }
    assert(after[i].id == id);
    lemma_entry_at(after, i);
    assert forall|other: TextureId| other != id implies view.with_texture(
        id,
        texture,
        owned,
    ).texture(other) == view.texture(other) by {
        if has_entry(before, other) {
            let j = entry_index(before, other);
            assert(before[j].id == other);
            assert(after[j] == before[j]);
            lemma_entry_at(after, j);
        } else {
            if has_entry(after, other) {
                let j = entry_index(after, other);
                assert(after[j].id == other);
                if j < before.len() {
                    assert(before[j].id == after[j].id);
                }
            }
        }
    }
}

/// Taking an identifier out of the table keeps the invariant, leaves the
/// identifier without a texture, and leaves every other identifier with what
/// it had.
pub proof fn lemma_without_texture(view: PainterView, id: TextureId)
    requires
        view.wf(),
    ensures
        view.without_texture(id).wf(),
        view.without_texture(id).texture(id) is None,
        forall|other: TextureId|
            other != id ==> view.without_texture(id).texture(other) == view.texture(other),
{
    let before = view.textures;
    let after = view.without_texture(id).textures;
    if has_entry(before, id) {
        let i = entry_index(before, id);
        assert(before[i].id == id);
        assert forall|a: int| 0 <= a < after.len() implies #[trigger] after[a] == before[if a
            < i {
            a
        } else {
            a + 1
        }] by {}
        assert forall|a: int, b: int| 0 <= a < b < after.len() implies (#[trigger] after[a]).id != (
        #[trigger] after[b]).id by {
            let a0 = if a < i {
                a
            } else {
                a + 1
            };
            let b0 = if b < i {
                b
            } else {
                b + 1
            };
            assert(after[a] == before[a0]);
            assert(after[b] == before[b0]);
        }
        if has_entry(after, id) {
            let j = entry_index(after, id);
            assert(after[j].id == id);
            let j0 = if j < i {
                j
            } else {
                j + 1
            };
            assert(after[j] == before[j0]);
            assert(before[j0].id == id);
            assert(false);
        }
        assert forall|other: TextureId| other != id implies view.without_texture(id).texture(other)
            == view.texture(other) by {
            if has_entry(before, other) {
                let j = entry_index(before, other);
                assert(before[j].id == other);
                let j1 = if j < i {
                    j
                } else {
                    j - 1
                };
                assert(after[j1] == before[j]);
                lemma_entry_at(after, j1);
            } else {
                if has_entry(after, other) {
                    let j = entry_index(after, other);
                    assert(after[j].id == other);
                    let j0 = if j < i {
                        j
                    } else {
                        j + 1
                    };
                    assert(after[j] == before[j0]);
                    assert(before[j0].id == other);
                }
            }
        }
    }
}

/// Freeing is idempotent. Once a texture is freed, its identifier resolves to
/// nothing, and freeing it again changes nothing and asks nothing of the
/// device. The same holds of an identifier that never had a texture.
pub proof fn lemma_free_texture_idempotent(view: PainterView, id: TextureId)
    requires
        view.wf(),
    ensures
        view.without_texture(id).texture(id) is None,
        view.without_texture(id).without_texture(id) == view.without_texture(id),
        free_ops(view.without_texture(id), id) == Seq::<DeviceOp>::empty(),
        view.texture(id) is None ==> view.without_texture(id) == view && free_ops(view, id)
            == Seq::<DeviceOp>::empty(),
{
    lemma_without_texture(view, id);
}

/// Registering gives a fresh identifier and keeps the texture the host's.
///
/// The table held nothing under the identifier; the identifier is not below
/// [`FIRST_NATIVE_TEX_ID`]; the identifier that is next afterwards lies
/// beyond it, so that no later registration returns it again, whatever is
/// freed in between. Afterwards the identifier resolves to the texture that
/// was registered, and every other identifier resolves to what it did.
pub proof fn lemma_register_then_resolve(view: PainterView, native: Texture)
    requires
        view.wf(),
        !view.destroyed,
        view.next_native_tex_id < u64::MAX,
    ensures
        view.texture(TextureId::User(view.next_native_tex_id)) is None,
        view.next_native_tex_id >= FIRST_NATIVE_TEX_ID,
        view.registered(native).next_native_tex_id == view.next_native_tex_id + 1,
        view.registered(native).wf(),
        view.registered(native).texture(TextureId::User(view.next_native_tex_id)) == Some(native),
        forall|other: TextureId|
            other != TextureId::User(view.next_native_tex_id) ==> view.registered(native).texture(
                other,
            ) == view.texture(other),
        view.registered(native).textures == view.textures.push(
            TableEntry {
                id: TextureId::User(view.next_native_tex_id),
                texture: native,
                owned: false,
            },
        ),
{
    let id = TextureId::User(view.next_native_tex_id);
    if has_entry(view.textures, id) {
        assert(view.textures[entry_index(view.textures, id)].id == id);
    }
    lemma_with_texture(view, id, native, false);
}

/// No operation on the table lets the identifier that is next fall: an
/// identifier that the painter gave out once is never given out again.
pub proof fn lemma_next_identifier_never_falls(
    view: PainterView,
    id: TextureId,
    texture: Texture,
    owned: bool,
)
    ensures
        view.with_texture(id, texture, owned).next_native_tex_id >= view.next_native_tex_id,
        view.without_texture(id).next_native_tex_id == view.next_native_tex_id,
        view.replaced(id, texture).next_native_tex_id >= view.next_native_tex_id,
        view.torn_down().next_native_tex_id == view.next_native_tex_id,
        view.next_native_tex_id < u64::MAX ==> view.registered(texture).next_native_tex_id
            > view.next_native_tex_id,
{
}

/// Whether `texture` is the texture of one of the first `n` entries of the
/// table that is the painter's own.
pub open spec fn own_among(textures: Seq<TableEntry>, n: int, texture: Texture) -> bool {
    exists|i: int| 0 <= i < n && (#[trigger] textures[i]).owned && textures[i].texture == texture
}

/// The textures that teardown takes from the first `n` entries of the table
/// are textures of entries that are the painter's own.
pub proof fn lemma_owned_textures(textures: Seq<TableEntry>, n: int)
    requires
        0 <= n <= textures.len(),
    ensures
        forall|k: int|
            0 <= k < owned_textures(textures, n).len() ==> own_among(
                textures,
                n,
                #[trigger] owned_textures(textures, n)[k],
            ),
    decreases n,
{
    if n > 0 {
        lemma_owned_textures(textures, n - 1);
        let before = owned_textures(textures, n - 1);
        let all = owned_textures(textures, n);
        assert forall|k: int| 0 <= k < all.len() implies own_among(
            textures,
            n,
            #[trigger] all[k],
        ) by {
            if k < before.len() {
                assert(all[k] == before[k]);
                assert(own_among(textures, n - 1, before[k]));
                let i = choose|i: int|
                    0 <= i < n - 1 && (#[trigger] textures[i]).owned && textures[i].texture
                        == before[k];
                assert(textures[i].owned && textures[i].texture == all[k]);
            } else {
                assert(textures[n - 1].owned && textures[n - 1].texture == all[k]);
            }
        }
    }
}

/// Teardown deletes the painter's own and nothing else: every texture that
/// it deletes is the texture of an entry that is the painter's own, or one
/// that waited for its deletion.
pub proof fn lemma_teardown_deletes_own(view: PainterView, k: int)
    requires
        0 <= k < view.teardown_ops().len(),
        view.teardown_ops()[k] is DeleteTexture,
    ensures
        ({
            let texture = view.teardown_ops()[k]->DeleteTexture_0;
            ||| own_among(view.textures, view.textures.len() as int, texture)
            ||| view.textures_to_destroy.contains(texture)
        }),
{
    let own = owned_textures(view.textures, view.textures.len() as int);
    let head = seq![DeviceOp::DeleteProgram(view.program)];
    let buffers = seq![
        DeviceOp::DeleteBuffer(view.vbo),
        DeviceOp::DeleteBuffer(view.element_array_buffer),
    ];
    let pending = delete_ops(view.textures_to_destroy);
    let tail = if view.post_process is Some {
        seq![DeviceOp::PostProcessDestroy]
    } else {
        Seq::<DeviceOp>::empty()
    };
    let ops = view.teardown_ops();
    assert(ops == head + delete_ops(own) + buffers + pending + tail);
    lemma_owned_textures(view.textures, view.textures.len() as int);
    if k < 1 {
        assert(ops[k] == head[k]);
    } else if k < 1 + own.len() {
        assert(ops[k] == delete_ops(own)[k - 1]);
        assert(own_among(view.textures, view.textures.len() as int, own[k - 1]));
    } else if k < 3 + own.len() {
        assert(ops[k] == buffers[k - 1 - own.len()]);
    } else if k < 3 + own.len() + pending.len() {
        let j = k - 3 - own.len();
        assert(ops[k] == pending[j]);
        assert(view.textures_to_destroy[j] == ops[k]->DeleteTexture_0);
    } else {
        assert(ops[k] == tail[k - 3 - own.len() - pending.len()]);
    }
}

/// Whether `texture` is the painter's: the texture of an entry that is the
/// painter's own, or one that waits for its deletion.
pub open spec fn is_painters(view: PainterView, texture: Texture) -> bool {
    own_among(view.textures, view.textures.len() as int, texture)
        || view.textures_to_destroy.contains(texture)
}

/// Teardown leaves the textures of the host alone: a texture that is not the
/// painter's is not deleted.
pub proof fn lemma_teardown_spares_host_textures(view: PainterView, texture: Texture)
    requires
        !is_painters(view, texture),
    ensures
        forall|k: int|
            0 <= k < view.teardown_ops().len() ==> #[trigger] view.teardown_ops()[k]
                != DeviceOp::DeleteTexture(texture),
{
    let ops = view.teardown_ops();
    assert forall|k: int| 0 <= k < ops.len() implies #[trigger] ops[k] != DeviceOp::DeleteTexture(
        texture,
    ) by {
        if ops[k] == DeviceOp::DeleteTexture(texture) {
            lemma_teardown_deletes_own(view, k);
        }
    }
}

/// A texture becomes the painter's in two ways only: an image update takes
/// it from the supply, or it stood under an identifier when the host put
/// another texture there. Registering a texture, and freeing one, make
/// nothing the painter's.
pub proof fn lemma_how_textures_become_the_painters(
    view: PainterView,
    id: TextureId,
    texture: Texture,
    other: Texture,
)
    requires
        view.wf(),
    ensures
        is_painters(view.registered(texture), other) ==> is_painters(view, other),
        is_painters(view.without_texture(id), other) ==> is_painters(view, other),
        is_painters(view.replaced(id, texture), other) ==> is_painters(view, other)
            || view.texture(id) == Some(other),
        is_painters(view.with_texture(id, texture, true), other) ==> is_painters(view, other)
            || other == texture,
{
    let before = view.textures;
    let next = TextureId::User(view.next_native_tex_id);
    lemma_own_after_insertion(view, next, texture, false, other);
    lemma_own_after_insertion(view, id, texture, false, other);
    lemma_own_after_insertion(view, id, texture, true, other);
    let freed = view.without_texture(id).textures;
    if own_among(freed, freed.len() as int, other) {
        let j = choose|j: int|
            0 <= j < freed.len() && (#[trigger] freed[j]).owned && freed[j].texture == other;
        if has_entry(before, id) {
            let i = entry_index(before, id);
            assert(before[i].id == id);
            let j0 = if j < i {
                j
            } else {
                j + 1
            };
            assert(freed[j] == before[j0]);
            assert(before[j0].owned && before[j0].texture == other);
        } else {
            assert(before[j].owned && before[j].texture == other);
        }
    }
    let replaced = view.replaced(id, texture);
    if replaced.textures_to_destroy.contains(other) && !view.textures_to_destroy.contains(other) {
        let j = choose|j: int|
            0 <= j < replaced.textures_to_destroy.len() && replaced.textures_to_destroy[j] == other;
        if j < view.textures_to_destroy.len() {
            assert(view.textures_to_destroy[j] == other);
        }
    }
}

/// After a texture was put into the table, the textures of entries that are
/// the painter's own are those of before, and the new texture if it came as
/// the painter's own.
proof fn lemma_own_after_insertion(
    view: PainterView,
    id: TextureId,
    texture: Texture,
    owned: bool,
    other: Texture,
)
    ensures
        ({
            let after = view.with_texture(id, texture, owned).textures;
            own_among(after, after.len() as int, other) ==> own_among(
                view.textures,
                view.textures.len() as int,
                other,
            ) || (owned && other == texture)
        }),
{
    let before = view.textures;
    let after = view.with_texture(id, texture, owned).textures;
    if own_among(after, after.len() as int, other) {
        let j = choose|j: int|
            0 <= j < after.len() && (#[trigger] after[j]).owned && after[j].texture == other;
        let i = if has_entry(before, id) {
            entry_index(before, id)
        } else {
            before.len() as int
        };
        if j != i {
            assert(after[j] == before[j]);
            assert(before[j].owned && before[j].texture == other);
        }
    }
}

/// A texture that the host registered stays the host's: unless it was the
/// painter's already, teardown does not delete it.
pub proof fn lemma_teardown_spares_registered(view: PainterView, native: Texture)
    requires
        view.wf(),
        !is_painters(view, native),
    ensures
        forall|k: int|
            0 <= k < view.registered(native).teardown_ops().len() ==> #[trigger] view.registered(
                native,
            ).teardown_ops()[k] != DeviceOp::DeleteTexture(native),
{
    lemma_how_textures_become_the_painters(
        view,
        TextureId::User(view.next_native_tex_id),
        native,
        native,
    );
    lemma_teardown_spares_host_textures(view.registered(native), native);
}

/// Replacing changes the texture that an identifier resolves to and nothing
/// else about the table: the identifier stays, at its place where it had
/// one, and every other identifier keeps its texture. The texture that was
/// replaced is the last of those that wait for their deletion.
pub proof fn lemma_replace_then_resolve(view: PainterView, id: TextureId, replacing: Texture)
    requires
        view.wf(),
        !view.destroyed,
    ensures
        view.replaced(id, replacing).wf(),
        view.replaced(id, replacing).texture(id) == Some(replacing),
        forall|other: TextureId|
            other != id ==> view.replaced(id, replacing).texture(other) == view.texture(other),
        has_entry(view.textures, id) ==> view.replaced(id, replacing).textures.len()
            == view.textures.len() && entry_index(view.replaced(id, replacing).textures, id)
            == entry_index(view.textures, id),
        view.texture(id) matches Some(old_tex) ==> view.replaced(id, replacing).textures_to_destroy
            == view.textures_to_destroy.push(old_tex),
        view.texture(id) is None ==> view.replaced(id, replacing).textures_to_destroy
            == view.textures_to_destroy,
{
    lemma_with_texture(view, id, replacing, false);
    let mid = view.with_texture(id, replacing, false);
    let after = view.replaced(id, replacing);
    assert(after.textures == mid.textures);
    assert forall|other: TextureId| after.texture(other) == mid.texture(other) by {}
    if has_entry(view.textures, id) {
        let i = entry_index(view.textures, id);
        assert(view.textures[i].id == id);
        assert(after.textures[i].id == id);
        lemma_entry_at(after.textures, i);
    }
}

/// With as many textures supplied as a list of image updates needs, every
/// update is applied and none is dropped: exactly the needed textures are
/// taken, from the end of the supply; afterwards the table holds a texture
/// for every identifier of the list, besides those it held before; and no
/// diagnostic is among the operations.
pub proof fn lemma_enough_textures(
    view: PainterView,
    set: Seq<(TextureId, ImageDelta)>,
    n: int,
    fresh: Seq<Texture>,
)
    requires
        view.wf(),
        !view.destroyed,
        0 <= n <= set.len(),
        fresh.len() >= textures_needed(view, set, n),
    ensures
        ({
            let applied = apply_updates(view, set, n, fresh);
            &&& applied.view.wf()
            &&& !applied.view.destroyed
            &&& applied.fresh == fresh.take(fresh.len() - textures_needed(view, set, n))
            &&& forall|id: TextureId|
                (#[trigger] applied.view.texture(id) is Some) == (view.texture(id) is Some
                    || occurs_before(set, n, id))
            &&& forall|i: int|
                0 <= i < applied.ops.len() ==> !(#[trigger] applied.ops[i] is Warn)
        }),
    decreases n,
{
    if n <= 0 {
        assert(fresh.take(fresh.len() as int) == fresh);
    } else {
        lemma_enough_textures(view, set, n - 1, fresh);
        let before = apply_updates(view, set, n - 1, fresh);
        let id = set[n - 1].0;
        let delta = set[n - 1].1;
        let last = apply_update(before.view, id, delta, (n - 1) as usize, before.fresh);
        let applied = apply_updates(view, set, n, fresh);
        assert(occurs_before(set, n, id));
        assert forall|other: TextureId| other != id implies occurs_before(set, n, other)
            == occurs_before(set, n - 1, other) by {
            if occurs_before(set, n, other) {
                let j = choose|j: int| 0 <= j < n && (#[trigger] set[j]).0 == other;
                assert(set[j].0 == other);
            }
        }
        if before.view.texture(id) is None {
            assert(needs_fresh(view, set, n - 1));
            assert(before.fresh.len() > 0);
            lemma_with_texture(before.view, id, before.fresh.last(), true);
            assert(applied.fresh == fresh.take(fresh.len() - textures_needed(view, set, n)));
        } else {
            assert(!needs_fresh(view, set, n - 1));
        }
        let texture = match before.view.texture(id) {
            Some(texture) => texture,
            None => before.fresh.last(),
        };
        assert(last.ops == set_texture_ops(before.view, texture, delta, (n - 1) as usize));
        assert forall|i: int| 0 <= i < applied.ops.len() implies !(#[trigger] applied.ops[i]
            is Warn) by {
            if i >= before.ops.len() {
                assert(applied.ops[i] == last.ops[i - before.ops.len()]);
            } else {
                assert(applied.ops[i] == before.ops[i]);
            }
        }
        assert forall|other: TextureId|
            (#[trigger] applied.view.texture(other) is Some) == (view.texture(other) is Some
                || occurs_before(set, n, other)) by {
            if other != id {
                assert(applied.view.texture(other) == before.view.texture(other));
            }
        }
    }
}

} // verus!
