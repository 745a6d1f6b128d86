//! What the order of the overlay's GPU work guarantees: uploads before the
//! paint pass, frees after it, and a paint pass that starts from the
//! baseline state and is followed by a return to it.

use vstd::prelude::*;
use crate::overlay::{
    all_paintable, baseline_state, frame_actions, free_actions, overlay_phases, paint_actions,
    paint_index, phase_actions_of, state_after, table_after, table_at_paint, upload_actions,
    DrawBatch, GpuState, OverlayAction,
};
use crate::texture::TextureId;

verus! {

/// Doing one list of actions and then another is doing the two lists
/// joined.
pub proof fn lemma_table_after_concat(
    table: Set<TextureId>,
    first: Seq<OverlayAction>,
    second: Seq<OverlayAction>,
)
    ensures
        table_after(table, first + second) == table_after(table_after(table, first), second),
    decreases second.len(),
{
    if second.len() == 0 {
        assert(first + second =~= first);
    } else {
        assert((first + second).drop_last() =~= first + second.drop_last());
        assert((first + second).last() == second.last());
        lemma_table_after_concat(table, first, second.drop_last());
    }
}

/// The same for the GPU state.
pub proof fn lemma_state_after_concat(
    state: GpuState,
    first: Seq<OverlayAction>,
    second: Seq<OverlayAction>,
)
    ensures
        state_after(state, first + second) == state_after(state_after(state, first), second),
    decreases second.len(),
{
    if second.len() == 0 {
        assert(first + second =~= first);
    } else {
        assert((first + second).drop_last() =~= first + second.drop_last());
        assert((first + second).last() == second.last());
        lemma_state_after_concat(state, first, second.drop_last());
    }
}

/// The uploads add their textures to the table and leave the GPU state
/// alone.
proof fn lemma_after_uploads(table: Set<TextureId>, state: GpuState, uploads: Seq<TextureId>)
    ensures
        table_after(table, upload_actions(uploads)) == table + uploads.to_set(),
        state_after(state, upload_actions(uploads)) == state,
    decreases uploads.len(),
{
    if uploads.len() == 0 {
        assert(uploads.to_set() =~= Set::<TextureId>::empty());
        assert(table + uploads.to_set() =~= table);
    } else {
        let rest = uploads.drop_last();
        assert(upload_actions(uploads).drop_last() =~= upload_actions(rest));
        lemma_after_uploads(table, state, rest);
        rest.lemma_push_to_set_commute(uploads.last());
        assert(rest.push(uploads.last()) =~= uploads);
        assert((table + rest.to_set()).insert(uploads.last()) =~= table + uploads.to_set());
    }
}

/// The frees take their textures out of the table and leave the GPU state
/// alone.
proof fn lemma_after_frees(table: Set<TextureId>, state: GpuState, frees: Seq<TextureId>)
    ensures
        table_after(table, free_actions(frees)) == table - frees.to_set(),
        state_after(state, free_actions(frees)) == state,
    decreases frees.len(),
{
    if frees.len() == 0 {
        assert(frees.to_set() =~= Set::<TextureId>::empty());
        assert(table - frees.to_set() =~= table);
    } else {
        let rest = frees.drop_last();
        assert(free_actions(frees).drop_last() =~= free_actions(rest));
        lemma_after_frees(table, state, rest);
        rest.lemma_push_to_set_commute(frees.last());
        assert(rest.push(frees.last()) =~= frees);
        assert((table - rest.to_set()).remove(frees.last()) =~= table - frees.to_set());
    }
}

/// The reset before the paint pass, and the paint pass itself, leave the
/// table alone.
proof fn lemma_after_paint_prefix(table: Set<TextureId>, state: GpuState, n: int)
    requires
        0 <= n <= 3,
    ensures
        table_after(table, paint_actions().take(n)) == table,
        n == 0 ==> state_after(state, paint_actions().take(n)) == state,
        n == 1 || n == 3 ==> state_after(state, paint_actions().take(n)) == baseline_state(),
        n == 2 ==> state_after(state, paint_actions().take(n))
            == crate::overlay::state_after_paint(),
    decreases n,
{
    if n > 0 {
        lemma_after_paint_prefix(table, state, n - 1);
        assert(paint_actions().take(n).drop_last() =~= paint_actions().take(n - 1));
    }
}

/// In a frame's actions every upload stands before the paint pass and
/// every free after it; the paint pass stands once, between two resets of
/// the GPU state.
pub proof fn lemma_uploads_paint_frees_in_order(uploads: Seq<TextureId>, frees: Seq<TextureId>)
    ensures
        ({
            let actions = frame_actions(uploads, frees);
            let paint = paint_index(uploads);
            &&& actions.len() == uploads.len() + 3 + frees.len()
            &&& actions[paint] == OverlayAction::Paint
            &&& actions[paint - 1] == OverlayAction::ResetState
            &&& actions[paint + 1] == OverlayAction::ResetState
            &&& forall|i: int|
                0 <= i < uploads.len() ==> #[trigger] actions[i] == (OverlayAction::Upload {
                    index: i as usize,
                    id: uploads[i],
                })
            &&& forall|j: int|
                0 <= j < frees.len() ==> #[trigger] actions[paint + 2 + j] == (OverlayAction::Free {
                    id: frees[j],
                })
            &&& forall|k: int|
                0 <= k < actions.len() && #[trigger] actions[k] is Upload ==> k < paint
            &&& forall|k: int| 0 <= k < actions.len() && #[trigger] actions[k] is Free ==> paint < k
            &&& forall|k: int|
                0 <= k < actions.len() && #[trigger] actions[k] == OverlayAction::Paint ==> k
                    == paint
        }),
{
    let actions = frame_actions(uploads, frees);
    let paint = paint_index(uploads);
    assert forall|k: int| 0 <= k < actions.len() implies (#[trigger] actions[k] is Upload ==> k
        < paint) && (actions[k] is Free ==> paint < k) && (actions[k] == OverlayAction::Paint ==> k
        == paint) by {
        if k < uploads.len() {
            assert(actions[k] == upload_actions(uploads)[k]);
        } else if k < uploads.len() + 3 {
            assert(actions[k] == paint_actions()[k - uploads.len()]);
        } else {
            assert(actions[k] == free_actions(frees)[k - uploads.len() - 3]);
        }
    }
    assert forall|j: int| 0 <= j < frees.len() implies #[trigger] actions[paint + 2 + j] == (
    OverlayAction::Free { id: frees[j] }) by {
        assert(actions[paint + 2 + j] == free_actions(frees)[j]);
    }
}

/// What the table holds as the frame goes on: when the paint pass
/// begins, and still when it has ended, everything that was resident and
/// everything that the frame uploads; when the frame is over, all of that
/// but what the frame frees.
pub proof fn lemma_table_through_frame(
    table: Set<TextureId>,
    uploads: Seq<TextureId>,
    frees: Seq<TextureId>,
)
    ensures
        ({
            let actions = frame_actions(uploads, frees);
            let paint = paint_index(uploads);
            &&& table_after(table, actions.take(paint)) == table_at_paint(table, uploads)
            &&& table_after(table, actions.take(paint + 1)) == table_at_paint(table, uploads)
            &&& table_after(table, actions) == table_at_paint(table, uploads) - frees.to_set()
        }),
{
    let actions = frame_actions(uploads, frees);
    let paint = paint_index(uploads);
    let state = baseline_state();
    lemma_after_uploads(table, state, uploads);
    let uploaded = table_after(table, upload_actions(uploads));
    assert(actions.take(paint) =~= upload_actions(uploads) + paint_actions().take(1));
    assert(actions.take(paint + 1) =~= upload_actions(uploads) + paint_actions().take(2));
    lemma_table_after_concat(table, upload_actions(uploads), paint_actions().take(1));
    lemma_table_after_concat(table, upload_actions(uploads), paint_actions().take(2));
    lemma_after_paint_prefix(uploaded, state, 1);
    lemma_after_paint_prefix(uploaded, state, 2);
    lemma_after_paint_prefix(uploaded, state, 3);
    assert(paint_actions().take(3) =~= paint_actions());
    lemma_table_after_concat(table, upload_actions(uploads), paint_actions());
    lemma_table_after_concat(
        table,
        upload_actions(uploads) + paint_actions(),
        free_actions(frees),
    );
    lemma_after_frees(uploaded, state, frees);
}

/// A texture that a frame frees is still resident while that frame is
/// painted, if it was resident before or the frame uploads it; it is
/// released only once the paint pass is over, and is gone when the frame
/// is.
pub proof fn lemma_freed_texture_outlives_paint(
    table: Set<TextureId>,
    uploads: Seq<TextureId>,
    frees: Seq<TextureId>,
    id: TextureId,
)
    requires
        frees.contains(id),
        table.contains(id) || uploads.contains(id),
    ensures
        ({
            let actions = frame_actions(uploads, frees);
            let paint = paint_index(uploads);
            &&& table_after(table, actions.take(paint)).contains(id)
            &&& table_after(table, actions.take(paint + 1)).contains(id)
            &&& !table_after(table, actions).contains(id)
            &&& forall|k: int|
                0 <= k < actions.len() && #[trigger] actions[k] == (OverlayAction::Free { id })
                    ==> paint < k
        }),
{
    lemma_table_through_frame(table, uploads, frees);
    lemma_uploads_paint_frees_in_order(uploads, frees);
}

/// Whatever state the scene renderer left the GPU in, the paint pass
/// begins in the baseline state, and the frame ends in it.
pub proof fn lemma_paint_starts_and_frame_ends_in_baseline(
    state: GpuState,
    uploads: Seq<TextureId>,
    frees: Seq<TextureId>,
)
    ensures
        ({
            let actions = frame_actions(uploads, frees);
            let paint = paint_index(uploads);
            &&& state_after(state, actions.take(paint)) == baseline_state()
            &&& state_after(state, actions) == baseline_state()
        }),
{
    let actions = frame_actions(uploads, frees);
    let paint = paint_index(uploads);
    let table = Set::<TextureId>::empty();
    lemma_after_uploads(table, state, uploads);
    assert(actions.take(paint) =~= upload_actions(uploads) + paint_actions().take(1));
    lemma_state_after_concat(state, upload_actions(uploads), paint_actions().take(1));
    lemma_after_paint_prefix(table, state, 1);
    lemma_after_paint_prefix(table, state, 3);
    assert(paint_actions().take(3) =~= paint_actions());
    lemma_state_after_concat(state, upload_actions(uploads), paint_actions());
    lemma_state_after_concat(
        state,
        upload_actions(uploads) + paint_actions(),
        free_actions(frees),
    );
    lemma_after_frees(table, baseline_state(), frees);
}

/// The shares of the phases, joined in the phases' order, are the frame's
/// work: nothing is done twice and nothing is left out.
pub proof fn lemma_phases_share_out_the_frame(uploads: Seq<TextureId>, frees: Seq<TextureId>)
    ensures
        overlay_phases().len() == 5,
        phase_actions_of(uploads, frees, overlay_phases()[0]) + phase_actions_of(
            uploads,
            frees,
            overlay_phases()[1],
        ) + phase_actions_of(uploads, frees, overlay_phases()[2]) + phase_actions_of(
            uploads,
            frees,
            overlay_phases()[3],
        ) + phase_actions_of(uploads, frees, overlay_phases()[4]) == frame_actions(
            uploads,
            frees,
        ),
{
    let empty = Seq::<OverlayAction>::empty();
    assert(empty + empty =~= empty);
    assert(empty + upload_actions(uploads) =~= upload_actions(uploads));
}

/// A frame whose batches name only textures that were resident or that
/// the frame uploads finds every one of them in the table when it is
/// painted, whatever the frame frees.
pub proof fn lemma_frees_do_not_spoil_the_paint(
    table: Set<TextureId>,
    uploads: Seq<TextureId>,
    frees: Seq<TextureId>,
    primitives: Seq<DrawBatch>,
)
    requires
        all_paintable(table_at_paint(table, uploads), primitives),
    ensures
        all_paintable(
            table_after(table, frame_actions(uploads, frees).take(paint_index(uploads))),
            primitives,
        ),
{
    lemma_table_through_frame(table, uploads, frees);
}

} // verus!
