//! The overlay bridge: in which order the GUI overlay's GPU work is done
//! within one frame, and what that does to the table of resident textures
//! and to the GPU state that the overlay shares with the scene renderer.
//!
//! New textures go up before the paint pass, retired ones are released
//! after it, and the paint pass starts from and ends in the baseline
//! state. The bridge decides; the caller performs each action on the GPU
//! and reports it done.

use vstd::prelude::*;
use crate::texture::{GpuTextureTable, TextureId};

verus! {

/// How colours are blended.
#[derive(Clone, Copy, Debug, PartialEq, Eq, Structural)]
pub enum BlendMode {
    /// The blending that every renderer may count on finding.
    Default,
    /// Any other blending, set up by one renderer for its own pass.
    Custom,
}

/// The part of the GPU state that one renderer can spoil for the other.
#[derive(Clone, Copy, Debug, PartialEq, Eq, Structural)]
pub struct GpuState {
    pub scissor_test: bool,
    pub blend: BlendMode,
}

/// The state that each renderer finds when its pass begins: no clipping,
/// default blending.
pub open spec fn baseline_state() -> GpuState {
    GpuState { scissor_test: false, blend: BlendMode::Default }
}

/// The state in which the overlay's paint pass leaves the GPU: clipping
/// on, its own blending.
pub open spec fn state_after_paint() -> GpuState {
    GpuState { scissor_test: true, blend: BlendMode::Custom }
}

impl GpuState {
    /// The baseline state.
    pub fn baseline() -> (s: GpuState)
        ensures
            s == baseline_state(),
    {
        GpuState { scissor_test: false, blend: BlendMode::Default }
    }

    /// Whether this is the baseline state.
    pub fn is_baseline(&self) -> (b: bool)
        ensures
            b == (*self == baseline_state()),
    {
        !self.scissor_test && self.blend == BlendMode::Default
    }

    /// Puts the state back to the baseline.
    pub fn reset_state(&mut self)
        ensures
            *final(self) == baseline_state(),
    {
        self.scissor_test = false;
        self.blend = BlendMode::Default;
    }
}

/// One tessellated batch of the overlay, by the texture it is drawn with.
/// A batch that draws through a callback names none.
#[derive(Clone, Copy, Debug, PartialEq, Eq, Structural)]
pub struct DrawBatch {
    pub texture: Option<TextureId>,
}

/// What one layout pass of the overlay asks of the GPU. The image data of
/// an upload stays with the caller, who finds it by the upload's place in
/// the list.
#[derive(Debug)]
pub struct GuiFrameOutput {
    pub primitives: Vec<DrawBatch>,
    pub texture_uploads: Vec<TextureId>,
    pub texture_frees: Vec<TextureId>,
}

/// One piece of GPU work of the overlay's pass.
#[derive(Clone, Copy, Debug, PartialEq, Eq, Structural)]
pub enum OverlayAction {
    /// Create or update the texture from the upload at `index`.
    Upload { index: usize, id: TextureId },
    /// Put the GPU state back to the baseline.
    ResetState,
    /// Paint the frame's batches over the scene.
    Paint,
    /// Release the texture.
    Free { id: TextureId },
}

/// The uploads of a frame as actions, in their order.
pub open spec fn upload_actions(uploads: Seq<TextureId>) -> Seq<OverlayAction> {
    Seq::new(uploads.len(), |i: int| OverlayAction::Upload { index: i as usize, id: uploads[i] })
}

/// The frees of a frame as actions, in their order.
pub open spec fn free_actions(frees: Seq<TextureId>) -> Seq<OverlayAction> {
    Seq::new(frees.len(), |i: int| OverlayAction::Free { id: frees[i] })
}

/// What stands between the uploads and the frees: the paint pass, with a
/// reset of the GPU state before it and after it.
pub open spec fn paint_actions() -> Seq<OverlayAction> {
    seq![OverlayAction::ResetState, OverlayAction::Paint, OverlayAction::ResetState]
}

/// The GPU work of one frame, in the order in which it is to be done.
pub open spec fn frame_actions(uploads: Seq<TextureId>, frees: Seq<TextureId>) -> Seq<
    OverlayAction,
> {
    upload_actions(uploads) + paint_actions() + free_actions(frees)
}

/// Where in the frame's actions the paint pass stands.
pub open spec fn paint_index(uploads: Seq<TextureId>) -> int {
    uploads.len() as int + 1
}

/// The phases of the overlay's pass through one frame, in their order.
/// The first two make the frame's output; the last three are GPU work.
#[derive(Clone, Copy, Debug, PartialEq, Eq, Structural)]
pub enum OverlayPhase {
    /// The host's device state is put into the overlay's events.
    InputTranslation,
    /// The overlay lays itself out and says what it asks of the GPU.
    Layout,
    /// New and changed textures are made resident.
    Upload,
    /// The frame's batches are painted over the scene.
    Paint,
    /// Retired textures are released.
    Free,
}

/// The phases of the overlay's pass, first to last.
pub open spec fn overlay_phases() -> Seq<OverlayPhase> {
    seq![
        OverlayPhase::InputTranslation,
        OverlayPhase::Layout,
        OverlayPhase::Upload,
        OverlayPhase::Paint,
        OverlayPhase::Free,
    ]
}

/// The GPU work that falls to one phase.
pub open spec fn phase_actions_of(
    uploads: Seq<TextureId>,
    frees: Seq<TextureId>,
    phase: OverlayPhase,
) -> Seq<OverlayAction> {
    match phase {
        OverlayPhase::InputTranslation => Seq::empty(),
        OverlayPhase::Layout => Seq::empty(),
        OverlayPhase::Upload => upload_actions(uploads),
        OverlayPhase::Paint => paint_actions(),
        OverlayPhase::Free => free_actions(frees),
    }
}

/// The table once the action is done.
pub open spec fn table_after_action(table: Set<TextureId>, action: OverlayAction) -> Set<
    TextureId,
> {
    match action {
        OverlayAction::Upload { index, id } => table.insert(id),
        OverlayAction::Free { id } => table.remove(id),
        OverlayAction::ResetState => table,
        OverlayAction::Paint => table,
    }
}

/// The table once the actions are done, one after the other.
pub open spec fn table_after(table: Set<TextureId>, actions: Seq<OverlayAction>) -> Set<
    TextureId,
>
    decreases actions.len(),
{
    if actions.len() == 0 {
        table
    } else {
        table_after_action(table_after(table, actions.drop_last()), actions.last())
    }
}

/// The GPU state once the action is done.
pub open spec fn state_after_action(state: GpuState, action: OverlayAction) -> GpuState {
    match action {
        OverlayAction::ResetState => baseline_state(),
        OverlayAction::Paint => state_after_paint(),
        OverlayAction::Upload { index, id } => state,
        OverlayAction::Free { id } => state,
    }
}

/// The GPU state once the actions are done, one after the other.
pub open spec fn state_after(state: GpuState, actions: Seq<OverlayAction>) -> GpuState
    decreases actions.len(),
{
    if actions.len() == 0 {
        state
    } else {
        state_after_action(state_after(state, actions.drop_last()), actions.last())
    }
}

/// Whether the batch finds its texture in the table.
pub open spec fn batch_is_paintable(table: Set<TextureId>, batch: DrawBatch) -> bool {
    batch.texture matches Some(id) ==> table.contains(id)
}

/// Whether every batch finds its texture in the table.
pub open spec fn all_paintable(table: Set<TextureId>, primitives: Seq<DrawBatch>) -> bool {
    forall|i: int| 0 <= i < primitives.len() ==> batch_is_paintable(table, #[trigger] primitives[i])
}

/// The table as the paint pass finds it: what was resident, and what the
/// frame uploads.
pub open spec fn table_at_paint(table: Set<TextureId>, uploads: Seq<TextureId>) -> Set<
    TextureId,
> {
    table + uploads.to_set()
}

/// The GPU work of one frame, in order: each upload, the paint pass
/// between two resets of the GPU state, each free.
pub fn plan_frame(output: &GuiFrameOutput) -> (plan: Vec<OverlayAction>)
    ensures
        plan@ == frame_actions(output.texture_uploads@, output.texture_frees@),
{
    let mut plan = phase_actions(output, OverlayPhase::Upload);
    let mut paint = phase_actions(output, OverlayPhase::Paint);
    let mut frees = phase_actions(output, OverlayPhase::Free);
    plan.append(&mut paint);
    plan.append(&mut frees);
    plan
}

/// The GPU work of one frame that falls to the given phase, in order.
/// The phases' shares, joined in the phases' order, are the frame's work.
pub fn phase_actions(output: &GuiFrameOutput, phase: OverlayPhase) -> (actions: Vec<OverlayAction>)
    ensures
        actions@ == phase_actions_of(output.texture_uploads@, output.texture_frees@, phase),
{
    let mut actions: Vec<OverlayAction> = Vec::new();
    match phase {
        OverlayPhase::InputTranslation => {},
        OverlayPhase::Layout => {},
        OverlayPhase::Upload => {
            let mut i: usize = 0;
            while i < output.texture_uploads.len()
                invariant
                    i <= output.texture_uploads.len(),
                    actions@ == upload_actions(output.texture_uploads@).take(i as int),
                decreases output.texture_uploads.len() - i,
            {
                actions.push(OverlayAction::Upload { index: i, id: output.texture_uploads[i] });
                i += 1;
                assert(actions@ =~= upload_actions(output.texture_uploads@).take(i as int));
            }
            assert(actions@ =~= upload_actions(output.texture_uploads@));
        },
        OverlayPhase::Paint => {
            actions.push(OverlayAction::ResetState);
            actions.push(OverlayAction::Paint);
            actions.push(OverlayAction::ResetState);
            assert(actions@ =~= paint_actions());
        },
        OverlayPhase::Free => {
            let mut j: usize = 0;
            while j < output.texture_frees.len()
                invariant
                    j <= output.texture_frees.len(),
                    actions@ == free_actions(output.texture_frees@).take(j as int),
                decreases output.texture_frees.len() - j,
            {
                actions.push(OverlayAction::Free { id: output.texture_frees[j] });
                j += 1;
                assert(actions@ =~= free_actions(output.texture_frees@).take(j as int));
            }
            assert(actions@ =~= free_actions(output.texture_frees@));
        },
    }
    actions
}

/// The overlay's side of the shared GPU context: which textures are
/// resident, and in what state the GPU was last left.
#[derive(Debug)]
pub struct UiOverlayBridge {
    table: GpuTextureTable,
    gpu: GpuState,
}

impl UiOverlayBridge {
    pub closed spec fn spec_textures(&self) -> Set<TextureId> {
        self.table@
    }

    pub closed spec fn spec_gpu_state(&self) -> GpuState {
        self.gpu
    }

    /// A bridge with no texture resident and the GPU in its baseline
    /// state.
    pub fn new() -> (bridge: UiOverlayBridge)
        ensures
            bridge.spec_textures() == Set::<TextureId>::empty(),
            bridge.spec_gpu_state() == baseline_state(),
    {
        UiOverlayBridge { table: GpuTextureTable::new(), gpu: GpuState::baseline() }
    }

    /// The table of resident textures.
    pub fn table(&self) -> (t: &GpuTextureTable)
        ensures
            t@ == self.spec_textures(),
    {
        &self.table
    }

    /// The state in which the GPU was last left.
    #[verifier::when_used_as_spec(spec_gpu_state)]
    pub fn gpu_state(&self) -> (s: GpuState)
        ensures
            s == self.spec_gpu_state(),
    {
        self.gpu
    }

    /// Takes note of the state in which the scene renderer left the GPU.
    pub fn scene_drawn(&mut self, left: GpuState)
        ensures
            final(self).spec_textures() == old(self).spec_textures(),
            final(self).spec_gpu_state() == left,
    {
        self.gpu = left;
    }

    /// Takes note that the action was performed on the GPU.
    pub fn complete(&mut self, action: OverlayAction)
        ensures
            final(self).spec_textures() == table_after_action(old(self).spec_textures(), action),
            final(self).spec_gpu_state() == state_after_action(old(self).spec_gpu_state(), action),
    {
        match action {
            OverlayAction::Upload { index, id } => {
                self.table.upload(id);
            },
            OverlayAction::Free { id } => {
                self.table.free(id);
            },
            OverlayAction::ResetState => {
                self.gpu.reset_state();
            },
            OverlayAction::Paint => {
                self.gpu = GpuState { scissor_test: true, blend: BlendMode::Custom };
            },
        }
    }

    /// Takes note that the actions were performed, one after the other.
    pub fn complete_all(&mut self, actions: &Vec<OverlayAction>)
        ensures
            final(self).spec_textures() == table_after(old(self).spec_textures(), actions@),
            final(self).spec_gpu_state() == state_after(old(self).spec_gpu_state(), actions@),
    {
        let mut i: usize = 0;
        while i < actions.len()
            invariant
                i <= actions.len(),
                self.spec_textures() == table_after(
                    old(self).spec_textures(),
                    actions@.take(i as int),
                ),
                self.spec_gpu_state() == state_after(
                    old(self).spec_gpu_state(),
                    actions@.take(i as int),
                ),
            decreases actions.len() - i,
        {
            self.complete(actions[i]);
            i += 1;
            assert(actions@.take(i as int).drop_last() =~= actions@.take(i as int - 1));
        }
        assert(actions@.take(i as int) =~= actions@);
    }

    /// The batches of the frame that would not find their texture when
    /// the paint pass runs, by their places in the list. The paint pass
    /// leaves such a batch out without a word.
    pub fn unpaintable(&self, output: &GuiFrameOutput) -> (missing: Vec<usize>)
        ensures
            forall|k: int|
                0 <= k < missing.len() ==> 0 <= #[trigger] missing[k] < output.primitives.len()
                    && !batch_is_paintable(
                    table_at_paint(self.spec_textures(), output.texture_uploads@),
                    output.primitives[missing[k] as int],
                ),
            forall|i: int|
                0 <= i < output.primitives.len() && !batch_is_paintable(
                    table_at_paint(self.spec_textures(), output.texture_uploads@),
                    #[trigger] output.primitives[i],
                ) ==> missing@.contains(i as usize),
            forall|k: int, l: int|
                0 <= k < l < missing.len() ==> missing[k] < missing[l],
            missing.len() == 0 <==> all_paintable(
                table_at_paint(self.spec_textures(), output.texture_uploads@),
                output.primitives@,
            ),
    {
        let ghost at_paint = table_at_paint(self.spec_textures(), output.texture_uploads@);
        let mut missing: Vec<usize> = Vec::new();
        let mut i: usize = 0;
        while i < output.primitives.len()
            invariant
                i <= output.primitives.len(),
                at_paint == table_at_paint(self.spec_textures(), output.texture_uploads@),
                forall|k: int|
                    0 <= k < missing.len() ==> 0 <= #[trigger] missing[k] < i
                        && !batch_is_paintable(at_paint, output.primitives[missing[k] as int]),
                forall|n: int|
                    0 <= n < i && !batch_is_paintable(at_paint, #[trigger] output.primitives[n])
                        ==> missing@.contains(n as usize),
                forall|k: int, l: int| 0 <= k < l < missing.len() ==> missing[k] < missing[l],
            decreases output.primitives.len() - i,
        {
            let found = match output.primitives[i].texture {
                None => true,
                Some(id) => self.table.contains(id) || list_contains(&output.texture_uploads, id),
            };
            if !found {
                let ghost before = missing@;
                missing.push(i);
                assert forall|n: int|
                    0 <= n < i + 1 && !batch_is_paintable(
                        at_paint,
                        #[trigger] output.primitives[n],
                    ) implies missing@.contains(n as usize) by {
                    if n < i {
                        let k = choose|k: int| 0 <= k < before.len() && before[k] == n as usize;
                        assert(missing@[k] == n as usize);
                    } else {
                        assert(missing@[missing.len() - 1] == n as usize);
                    }
                }
            }
            i += 1;
        }
        proof {
            if missing.len() == 0 {
                assert forall|n: int| 0 <= n < output.primitives.len() implies batch_is_paintable(
                    at_paint,
                    #[trigger] output.primitives@[n],
                ) by {
                    if !batch_is_paintable(at_paint, output.primitives[n]) {
                        assert(missing@.contains(n as usize));
                    }
                }
            } else {
                assert(!batch_is_paintable(at_paint, output.primitives@[missing[0] as int]));
            }
        }
        missing
    }

    /// Gives up every texture that is still resident, for release when
    /// the loop has stopped: each of them is named once, and the bridge
    /// then holds none.
    pub fn shutdown(&mut self) -> (released: Vec<TextureId>)
        ensures
            final(self).spec_textures() == Set::<TextureId>::empty(),
            final(self).spec_gpu_state() == old(self).spec_gpu_state(),
            released@.no_duplicates(),
            released@.to_set() == old(self).spec_textures(),
    {
        self.table.release_all()
    }
}

/// Whether the id stands in the list.
fn list_contains(list: &Vec<TextureId>, id: TextureId) -> (b: bool)
    ensures
        b == list@.to_set().contains(id),
{
    let mut i: usize = 0;
    while i < list.len()
        invariant
            i <= list.len(),
            forall|j: int| 0 <= j < i ==> list[j] != id,
        decreases list.len() - i,
    {
        if list[i] == id {
            assert(list@.contains(id));
            return true;
        }
        i += 1;
    }
    assert(!list@.contains(id));
    false
}

} // verus!
