//! What holds of the texture store and of the frame renderer across calls.
//!
//! The statements are about the mathematical values that the contracts of
//! [`crate::painter::Painter`] speak of, so each one applies to any run of
//! calls whose contracts mention the same values.

use vstd::prelude::*;
use crate::color::rgba_bytes;
use crate::command::{GlCommandView, TextureParameter};
use crate::mesh::ClippedPrimitive;
use crate::mesh::Primitive;
use crate::model::{
    accepts_delta,
    accepts_deltas_before,
    after_delta,
    after_upload,
    all_paintable,
    all_uploaded,
    created_by,
    delta_commands,
    distinct_ids,
    has_texture,
    is_uploaded,
    paintable_before,
    primitive_commands,
    primitive_paintable,
    primitives_commands,
    primitives_commands_before,
    release_commands,
    same_outline,
    same_slot_outline,
    slot_index,
    store_wf,
    texture_of,
    unallocated,
    unallocated_before,
    upload_commands,
    upload_commands_before,
    with_texture,
    without_texture,
    PainterView,
    TextureSlot,
    TextureState,
};
use crate::texture::{ImageDelta, TextureId};

verus! {

/// In a store with distinct identifiers, the texture `id` sits in slot `i`
/// exactly if that slot carries `id`.
pub proof fn lemma_slot_of(slots: Seq<TextureSlot>, id: TextureId, i: int)
    requires
        distinct_ids(slots),
        0 <= i < slots.len(),
        slots[i].id == id,
    ensures
        has_texture(slots, id),
        slot_index(slots, id) == i,
        texture_of(slots, id) == Some(slots[i].state),
{
    let k = slot_index(slots, id);
    assert(slots[k].id == id);
}

/// Storing a texture keeps the store well formed, puts the texture under
/// its identifier and leaves every other texture as it was.
pub proof fn theorem_with_texture(slots: Seq<TextureSlot>, id: TextureId, state: TextureState)
    requires
        store_wf(slots),
        state.wf(),
    ensures
        store_wf(with_texture(slots, id, state)),
        texture_of(with_texture(slots, id, state), id) == Some(state),
        forall|other: TextureId|
            other != id ==> texture_of(with_texture(slots, id, state), other) == texture_of(
                slots,
                other,
            ),
{
    let after = with_texture(slots, id, state);
    let at = if has_texture(slots, id) {
        slot_index(slots, id)
    } else {
        slots.len() as int
    };
    assert(after[at].id == id);
    assert(forall|i: int| 0 <= i < slots.len() && i != at ==> after[i] == slots[i]);
    lemma_slot_of(after, id, at);
    assert forall|other: TextureId| other != id implies texture_of(after, other) == texture_of(
        slots,
        other,
    ) by {
        if has_texture(slots, other) {
            let k = slot_index(slots, other);
            assert(slots[k].id == other);
            lemma_slot_of(after, other, k);
        } else if has_texture(after, other) {
            let k = slot_index(after, other);
            assert(after[k].id == other);
            assert(slots[k].id == other);
        }
    }
}

/// Freeing a texture keeps the store well formed and leaves every other
/// texture as it was. The freed identifier is absent from every later
/// lookup, and freeing it again changes nothing and issues no command.
pub proof fn theorem_free_texture(slots: Seq<TextureSlot>, id: TextureId)
    requires
        store_wf(slots),
    ensures
        store_wf(without_texture(slots, id)),
        !has_texture(without_texture(slots, id), id),
        texture_of(without_texture(slots, id), id) is None,
        without_texture(without_texture(slots, id), id) == without_texture(slots, id),
        release_commands(without_texture(slots, id), id) == Seq::<GlCommandView>::empty(),
        forall|other: TextureId|
            other != id ==> texture_of(without_texture(slots, id), other) == texture_of(
                slots,
                other,
            ),
{
    let after = without_texture(slots, id);
    if has_texture(slots, id) {
        let at = slot_index(slots, id);
        assert(slots[at].id == id);
        assert(forall|i: int| 0 <= i < at ==> after[i] == slots[i]);
        assert(forall|i: int| at <= i < after.len() ==> after[i] == slots[i + 1]);
        assert forall|i: int| 0 <= i < after.len() implies (#[trigger] after[i]).id != id by {
            if i < at {
                assert(after[i] == slots[i]);
            } else {
                assert(after[i] == slots[i + 1]);
            }
        }
        assert forall|other: TextureId| other != id implies texture_of(after, other)
            == texture_of(slots, other) by {
            if has_texture(slots, other) {
                let k = slot_index(slots, other);
                assert(slots[k].id == other);
                let k2 = if k < at {
                    k
                } else {
                    k - 1
                };
                assert(after[k2] == slots[k]);
                lemma_slot_of(after, other, k2);
            } else if has_texture(after, other) {
                let k = slot_index(after, other);
                assert(after[k].id == other);
                let k2 = if k < at {
                    k
                } else {
                    k + 1
                };
                assert(slots[k2].id == other);
            }
        }
    }
}

/// Applying a delta that the store accepts keeps the store well formed.
pub proof fn theorem_delta_keeps_store(slots: Seq<TextureSlot>, id: TextureId, delta: ImageDelta)
    requires
        store_wf(slots),
        accepts_delta(slots, id, delta),
    ensures
        store_wf(after_delta(slots, id, delta)),
{
    match delta.pos {
        None => {
            theorem_with_texture(slots, id, created_by(delta));
        },
        Some(_) => {
            if has_texture(slots, id) {
                let at = slot_index(slots, id);
                assert(slots[at].state.wf());
                theorem_with_texture(slots, id, slots[at].state.patched());
            }
        },
    }
}

/// A texture set from a whole image is found again under its identifier
/// with the size and the filter that came with the image, and with the
/// image's pixels waiting for upload.
pub proof fn theorem_set_then_lookup(slots: Seq<TextureSlot>, id: TextureId, delta: ImageDelta)
    requires
        store_wf(slots),
        delta.pos is None,
        accepts_delta(slots, id, delta),
    ensures
        texture_of(after_delta(slots, id, delta), id) == Some(created_by(delta)),
        created_by(delta).size == (delta.image.width, delta.image.height),
        created_by(delta).filtering == delta.filter,
{
    theorem_with_texture(slots, id, created_by(delta));
}

/// An upload keeps the store well formed. Every texture stays under its
/// identifier with its size and filter, has its GPU object afterwards, is
/// clean, and has nothing left pending.
pub proof fn theorem_upload(slots: Seq<TextureSlot>, names: Seq<u32>, id: TextureId)
    requires
        store_wf(slots),
        has_texture(slots, id),
    ensures
        store_wf(after_upload(slots, names)),
        all_uploaded(after_upload(slots, names)),
        texture_of(after_upload(slots, names), id) is Some,
        texture_of(after_upload(slots, names), id)->0.texture is Some,
        !texture_of(after_upload(slots, names), id)->0.dirty,
        texture_of(after_upload(slots, names), id)->0.size == texture_of(slots, id)->0.size,
        texture_of(after_upload(slots, names), id)->0.filtering == texture_of(
            slots,
            id,
        )->0.filtering,
{
    let after = after_upload(slots, names);
    assert forall|i: int, j: int| 0 <= i < j < after.len() implies (#[trigger] after[i]).id != (
    #[trigger] after[j]).id by {
        assert(slots[i].id != slots[j].id);
    }
    assert forall|i: int| 0 <= i < after.len() implies (#[trigger] after[i]).state.wf() by {
        assert(slots[i].state.wf());
    }
    let at = slot_index(slots, id);
    assert(slots[at].id == id);
    assert(slots[at].state.wf());
    lemma_slot_of(after, id, at);
}

/// A texture set from a whole image and then uploaded is clean and has its
/// GPU object.
pub proof fn theorem_set_then_upload(
    slots: Seq<TextureSlot>,
    id: TextureId,
    delta: ImageDelta,
    names: Seq<u32>,
)
    requires
        store_wf(slots),
        delta.pos is None,
        accepts_delta(slots, id, delta),
    ensures
        texture_of(after_upload(after_delta(slots, id, delta), names), id) is Some,
        !texture_of(after_upload(after_delta(slots, id, delta), names), id)->0.dirty,
        texture_of(after_upload(after_delta(slots, id, delta), names), id)->0.texture is Some,
        texture_of(after_upload(after_delta(slots, id, delta), names), id)->0.size == (
            delta.image.width,
            delta.image.height,
        ),
        texture_of(after_upload(after_delta(slots, id, delta), names), id)->0.filtering
            == delta.filter,
{
    theorem_delta_keeps_store(slots, id, delta);
    theorem_set_then_lookup(slots, id, delta);
    theorem_upload(after_delta(slots, id, delta), names, id);
}

/// A patch that reaches beyond the right or the lower edge of its texture
/// is not accepted: nothing is clamped and nothing is written.
pub proof fn theorem_patch_out_of_bounds(slots: Seq<TextureSlot>, id: TextureId, delta: ImageDelta)
    requires
        has_texture(slots, id),
        delta.pos is Some,
        delta.pos->0.x + delta.image.width > texture_of(slots, id)->0.size.0
            || delta.pos->0.y + delta.image.height > texture_of(slots, id)->0.size.1,
    ensures
        !accepts_delta(slots, id, delta),
{
}

/// A patch that lies inside its texture, holds one pixel per texel and goes
/// to a texture with a GPU object is accepted. It marks the texture dirty
/// and leaves its size, filter, GPU object and pending pixels, and every
/// other texture, as they were. It issues one sub-image upload to that GPU
/// object, with the offset and the extent of the patch, none of them
/// truncated, and with the four bytes of each of its pixels.
pub proof fn theorem_patch_in_bounds(slots: Seq<TextureSlot>, id: TextureId, delta: ImageDelta)
    requires
        store_wf(slots),
        has_texture(slots, id),
        texture_of(slots, id)->0.texture is Some,
        delta.pos is Some,
        delta.image.consistent(),
        delta.pos->0.x + delta.image.width <= texture_of(slots, id)->0.size.0,
        delta.pos->0.y + delta.image.height <= texture_of(slots, id)->0.size.1,
    ensures
        accepts_delta(slots, id, delta),
        store_wf(after_delta(slots, id, delta)),
        texture_of(after_delta(slots, id, delta), id) == Some(
            TextureState { dirty: true, ..texture_of(slots, id)->0 },
        ),
        forall|other: TextureId|
            other != id ==> texture_of(after_delta(slots, id, delta), other) == texture_of(
                slots,
                other,
            ),
        delta_commands(slots, id, delta) == seq![
            GlCommandView::BindTexture(texture_of(slots, id)->0.texture->0),
            GlCommandView::UnpackAlignment(1),
            GlCommandView::TexParameter(TextureParameter::SwizzleAlphaFromRed),
            GlCommandView::TexSubImage {
                x: delta.pos->0.x as i32,
                y: delta.pos->0.y as i32,
                width: delta.image.width as i32,
                height: delta.image.height as i32,
                pixels: rgba_bytes(delta.image.pixels@),
            },
        ],
        delta.pos->0.x as i32 == delta.pos->0.x,
        delta.pos->0.y as i32 == delta.pos->0.y,
        delta.image.width as i32 == delta.image.width,
        delta.image.height as i32 == delta.image.height,
        rgba_bytes(delta.image.pixels@).len() == 4 * delta.image.width * delta.image.height,
{
    let state = texture_of(slots, id)->0;
    let at = slot_index(slots, id);
    assert(slots[at].id == id);
    assert(slots[at].state.wf());
    theorem_with_texture(slots, id, state.patched());
    assert(4 * (delta.image.width * delta.image.height) == 4 * delta.image.width
        * delta.image.height) by (nonlinear_arith);
}

/// Whatever an upload sends as an image is a whole image of the size of the
/// texture: the command holds at least four bytes for each texel, so that
/// no byte beyond the pending pixels is read.
pub proof fn theorem_upload_sends_whole_images(state: TextureState, fresh: u32, k: int)
    requires
        state.wf(),
        0 <= k < state.upload_commands(fresh).len(),
    ensures
        match state.upload_commands(fresh)[k] {
            GlCommandView::TexImage { width, height, pixels } => {
                &&& width == state.size.0
                &&& height == state.size.1
                &&& pixels == state.pixels
                &&& pixels.len() >= 4 * width * height
            },
            _ => true,
        },
{
}

/// A patch on an uploaded texture is all that the next upload finds: the
/// upload sends no image and issues no command, so that the texels on the
/// GPU, the patched ones and the others, stay as they are; and it leaves
/// the texture clean again, as it was before the patch.
pub proof fn theorem_patch_then_upload(state: TextureState, fresh: u32)
    requires
        is_uploaded(state),
        state.size.0 * state.size.1 > 0,
    ensures
        state.patched().needs_upload(),
        state.patched().upload_commands(fresh) == Seq::<GlCommandView>::empty(),
        state.patched().uploaded(fresh) == state,
{
    assert(4 * state.size.0 * state.size.1 > 0) by (nonlinear_arith)
        requires
            state.size.0 * state.size.1 > 0,
    ;
    assert(state.patched().uploaded(fresh).pixels =~= state.pixels);
}

/// Once every texture is uploaded, another upload takes no fresh name,
/// issues no command and leaves the store as it is: GPU objects and flags
/// are unchanged.
pub proof fn theorem_upload_idempotent(slots: Seq<TextureSlot>, names: Seq<u32>)
    requires
        all_uploaded(slots),
    ensures
        unallocated(slots) == 0,
        upload_commands(slots, names) == Seq::<GlCommandView>::empty(),
        after_upload(slots, names) == slots,
{
    lemma_nothing_to_upload(slots, names, slots.len() as int);
    assert(after_upload(slots, names) =~= slots);
}

/// The first `n` slots of a store in which every texture is uploaded need
/// no fresh name and no command.
proof fn lemma_nothing_to_upload(slots: Seq<TextureSlot>, names: Seq<u32>, n: int)
    requires
        all_uploaded(slots),
        n <= slots.len(),
    ensures
        unallocated_before(slots, n) == 0,
        upload_commands_before(slots, names, n) == Seq::<GlCommandView>::empty(),
    decreases n,
{
    if n > 0 {
        lemma_nothing_to_upload(slots, names, n - 1);
        assert(!slots[n - 1].state.needs_upload());
    }
}

/// Two uploads in a row: whatever the store was, the second one takes no
/// fresh name, issues no command and changes nothing.
pub proof fn theorem_second_upload_is_idle(
    slots: Seq<TextureSlot>,
    names: Seq<u32>,
    more_names: Seq<u32>,
)
    requires
        store_wf(slots),
    ensures
        unallocated(after_upload(slots, names)) == 0,
        upload_commands(after_upload(slots, names), more_names) == Seq::<GlCommandView>::empty(),
        after_upload(after_upload(slots, names), more_names) == after_upload(slots, names),
{
    let after = after_upload(slots, names);
    assert forall|i: int| 0 <= i < after.len() implies !(
    #[trigger] after[i]).state.needs_upload() by {
        assert(slots[i].state.wf());
    }
    theorem_upload_idempotent(after, more_names);
}

/// Primitives are drawn in the order in which they are given: the commands
/// of a run of primitives followed by another run are the commands of the
/// first run followed by the commands of the second. So of two primitives
/// that overlap, the later one is drawn over the earlier one.
pub proof fn theorem_draw_order(
    p: PainterView,
    first: Seq<ClippedPrimitive>,
    second: Seq<ClippedPrimitive>,
)
    ensures
        primitives_commands(p, first + second) == primitives_commands(p, first)
            + primitives_commands(p, second),
{
    lemma_draw_order_before(p, first, second, second.len() as int);
}

/// The commands of `first` followed by the first `n` primitives of `second`.
proof fn lemma_draw_order_before(
    p: PainterView,
    first: Seq<ClippedPrimitive>,
    second: Seq<ClippedPrimitive>,
    n: int,
)
    requires
        0 <= n <= second.len(),
    ensures
        primitives_commands_before(p, first + second, first.len() + n) == primitives_commands(
            p,
            first,
        ) + primitives_commands_before(p, second, n),
    decreases n,
{
    let all = first + second;
    if n == 0 {
        lemma_commands_of_prefix(p, first, all, first.len() as int);
        assert(primitives_commands(p, first) + Seq::<GlCommandView>::empty()
            =~= primitives_commands(p, first));
    } else {
        lemma_draw_order_before(p, first, second, n - 1);
        assert(all[first.len() + n - 1] == second[n - 1]);
        let a = primitives_commands(p, first);
        let b = primitives_commands_before(p, second, n - 1);
        let c = primitive_commands(p, second[n - 1]);
        assert((a + b) + c =~= a + (b + c));
    }
}

/// The commands of the first `n` primitives depend on those primitives
/// only.
proof fn lemma_commands_of_prefix(
    p: PainterView,
    a: Seq<ClippedPrimitive>,
    b: Seq<ClippedPrimitive>,
    n: int,
)
    requires
        0 <= n <= a.len(),
        n <= b.len(),
        forall|i: int| 0 <= i < n ==> a[i] == b[i],
    ensures
        primitives_commands_before(p, a, n) == primitives_commands_before(p, b, n),
    decreases n,
{
    if n > 0 {
        lemma_commands_of_prefix(p, a, b, n - 1);
    }
}

/// An upload keeps every texture under its identifier and in its slot.
pub proof fn lemma_upload_keeps_ids(slots: Seq<TextureSlot>, names: Seq<u32>)
    ensures
        forall|id: TextureId|
            has_texture(after_upload(slots, names), id) == has_texture(slots, id),
        forall|primitives: Seq<ClippedPrimitive>|
            all_paintable(slots, primitives) ==> all_paintable(
                after_upload(slots, names),
                primitives,
            ),
{
    let after = after_upload(slots, names);
    assert forall|id: TextureId| has_texture(after, id) == has_texture(slots, id) by {
        if has_texture(slots, id) {
            let i = slot_index(slots, id);
            assert(after[i].id == id);
        }
        if has_texture(after, id) {
            let i = slot_index(after, id);
            assert(slots[i].id == id);
        }
    }
    assert forall|primitives: Seq<ClippedPrimitive>|
        all_paintable(slots, primitives) implies all_paintable(after, primitives) by {
        assert forall|i: int| 0 <= i < primitives.len() implies primitive_paintable(
            after,
            (#[trigger] primitives[i]).primitive,
        ) by {
            assert(primitive_paintable(slots, primitives[i].primitive));
        }
    }
}

/// A store that takes a run of deltas takes every shorter run of them.
pub proof fn lemma_accepts_deltas_prefix(
    slots: Seq<TextureSlot>,
    set: Seq<(TextureId, ImageDelta)>,
    m: int,
    n: int,
)
    requires
        m <= n,
        accepts_deltas_before(slots, set, n),
    ensures
        accepts_deltas_before(slots, set, m),
    decreases n - m,
{
    if m < n && n > 0 {
        lemma_accepts_deltas_prefix(slots, set, m, n - 1);
    }
}

/// The count of textures without a GPU object never shrinks along the slots.
pub proof fn lemma_unallocated_monotone(slots: Seq<TextureSlot>, m: int, n: int)
    requires
        m <= n,
    ensures
        unallocated_before(slots, m) <= unallocated_before(slots, n),
    decreases n - m,
{
    if m < n {
        lemma_unallocated_monotone(slots, m, n - 1);
    }
}

/// A store that agrees with a well-formed store in everything but the
/// pending pixels, and whose clean textures have no pixels pending, is well
/// formed.
pub proof fn lemma_outline_wf(a: Seq<TextureSlot>, b: Seq<TextureSlot>)
    requires
        store_wf(a),
        same_outline(a, b) || same_outline(b, a),
        forall|i: int|
            0 <= i < b.len() && !(#[trigger] b[i]).state.dirty ==> b[i].state.pixels.len() == 0,
    ensures
        store_wf(b),
{
    assert forall|i: int, j: int| 0 <= i < j < b.len() implies (#[trigger] b[i]).id != (
    #[trigger] b[j]).id by {
        assert(a[i].id != a[j].id);
    }
    assert forall|i: int| 0 <= i < b.len() implies (#[trigger] b[i]).state.wf() by {
        assert(a[i].state.wf());
    }
}

/// Agreement in everything but the pending pixels carries over from one
/// pair of stores to the next.
pub proof fn lemma_outline_transitive(
    a: Seq<TextureSlot>,
    b: Seq<TextureSlot>,
    c: Seq<TextureSlot>,
)
    requires
        same_outline(a, b),
        same_outline(b, c),
    ensures
        same_outline(a, c),
{
    assert forall|i: int| 0 <= i < a.len() implies same_slot_outline(a[i], c[i]) by {
        assert(same_slot_outline(a[i], b[i]));
        assert(same_slot_outline(b[i], c[i]));
    }
}

/// Two well-formed stores that agree in everything but the pending pixels
/// hold the same textures in the same slots.
pub proof fn lemma_outline_lookup(a: Seq<TextureSlot>, b: Seq<TextureSlot>, id: TextureId)
    requires
        store_wf(a),
        store_wf(b),
        same_outline(a, b),
    ensures
        has_texture(a, id) == has_texture(b, id),
        has_texture(a, id) ==> slot_index(a, id) == slot_index(b, id),
{
    if has_texture(a, id) {
        let i = slot_index(a, id);
        assert(a[i].id == id);
        assert(b[i].id == id);
        let k = slot_index(b, id);
        assert(b[k].id == id);
    }
    if has_texture(b, id) {
        let i = slot_index(b, id);
        assert(b[i].id == id);
        assert(a[i].id == id);
    }
}

/// Two well-formed stores that agree in everything but the pending pixels
/// take the same deltas, and still agree after one.
pub proof fn lemma_outline_delta(
    a: Seq<TextureSlot>,
    b: Seq<TextureSlot>,
    id: TextureId,
    delta: ImageDelta,
)
    requires
        store_wf(a),
        store_wf(b),
        same_outline(a, b),
    ensures
        accepts_delta(a, id, delta) == accepts_delta(b, id, delta),
        same_outline(after_delta(a, id, delta), after_delta(b, id, delta)),
{
    lemma_outline_lookup(a, b, id);
    if has_texture(a, id) {
        let i = slot_index(a, id);
        assert(same_slot_outline(a[i], b[i]));
    }
    let x = after_delta(a, id, delta);
    let y = after_delta(b, id, delta);
    assert(x.len() == y.len());
    assert forall|i: int| 0 <= i < x.len() implies same_slot_outline(x[i], y[i]) by {
        if i < a.len() {
            assert(same_slot_outline(a[i], b[i]));
        }
    }
}

/// Two stores that agree in everything but the pending pixels lack the
/// same number of GPU objects.
pub proof fn lemma_outline_unallocated(a: Seq<TextureSlot>, b: Seq<TextureSlot>, n: int)
    requires
        same_outline(a, b),
        n <= a.len(),
    ensures
        unallocated_before(a, n) == unallocated_before(b, n),
    decreases n,
{
    if n > 0 {
        lemma_outline_unallocated(a, b, n - 1);
        assert(same_slot_outline(a[n - 1], b[n - 1]));
    }
}

/// From two well-formed stores that agree in everything but the pending
/// pixels the same primitives can be painted.
pub proof fn lemma_outline_paintable(
    a: Seq<TextureSlot>,
    b: Seq<TextureSlot>,
    primitives: Seq<ClippedPrimitive>,
)
    requires
        store_wf(a),
        store_wf(b),
        same_outline(a, b),
    ensures
        forall|i: int|
            0 <= i < primitives.len() ==> primitive_paintable(
                a,
                (#[trigger] primitives[i]).primitive,
            ) == primitive_paintable(b, primitives[i].primitive),
        forall|n: int| paintable_before(a, primitives, n) == paintable_before(b, primitives, n),
        all_paintable(a, primitives) == all_paintable(b, primitives),
{
    assert forall|i: int| 0 <= i < primitives.len() implies primitive_paintable(
        a,
        (#[trigger] primitives[i]).primitive,
    ) == primitive_paintable(b, primitives[i].primitive) by {
        match primitives[i].primitive {
            Primitive::Mesh(mesh) => {
                lemma_outline_lookup(a, b, mesh.texture_id);
            },
            Primitive::Callback => {},
        }
    }
}

/// Freeing a texture leaves every other texture uploaded if all were.
pub proof fn lemma_free_keeps_uploaded(slots: Seq<TextureSlot>, id: TextureId)
    requires
        all_uploaded(slots),
    ensures
        all_uploaded(without_texture(slots, id)),
{
    let after = without_texture(slots, id);
    if has_texture(slots, id) {
        let at = slot_index(slots, id);
        assert forall|i: int| 0 <= i < after.len() implies !(
    #[trigger] after[i]).state.needs_upload() by {
            if i < at {
                assert(after[i] == slots[i]);
            } else {
                assert(after[i] == slots[i + 1]);
            }
        }
    }
}

/// A store that holds the user textures with all the numbers below `n` has
/// at least `n` slots.
pub proof fn lemma_user_numbers_fill_slots(slots: Seq<TextureSlot>, n: int)
    requires
        store_wf(slots),
        0 <= n <= u64::MAX + 1,
        forall|m: u64| m < n ==> #[trigger] has_texture(slots, TextureId::User(m)),
    ensures
        n <= slots.len(),
    decreases n,
{
    if n > 0 {
        let last = TextureId::User((n - 1) as u64);
        assert(has_texture(slots, last));
        let rest = without_texture(slots, last);
        theorem_free_texture(slots, last);
        assert forall|m: u64| m < n - 1 implies #[trigger] has_texture(
            rest,
            TextureId::User(m),
        ) by {
            let other = TextureId::User(m);
            assert(has_texture(slots, other));
            assert(texture_of(rest, other) == texture_of(slots, other));
        }
        lemma_user_numbers_fill_slots(rest, n - 1);
    }
}

} // verus!
