//! The application loop: which stage of a frame comes next, and when the
//! loop stops.
//!
//! The loop decides and the caller acts: each call of
//! [`ApplicationLoop::step`] names the one stage to carry out now, or says
//! that the loop is over. A wish to quit is noted whenever it comes and
//! honoured between two frames, never within one.

use vstd::prelude::*;
use crate::clock::{steps_due, time_carried, SimulationClock, TIMESTEP};
use crate::error::SetupError;
use crate::overlay::{overlay_phases, OverlayPhase, UiOverlayBridge};
use crate::texture::TextureId;

verus! {

/// Whether the loop still turns.
#[derive(Clone, Copy, Debug, PartialEq, Eq, Structural)]
pub enum LoopState {
    Running,
    Stopped,
}

/// One stage of a frame.
#[derive(Clone, Copy, Debug, PartialEq, Eq, Structural)]
pub enum FrameStage {
    /// Ask the host for events and key states.
    PollInput,
    /// Take the pointer's position, remapped where a logical resolution
    /// is in use.
    UpdatePointer,
    /// Add the frame's time to the clock and run the steps that are due.
    AdvanceClock,
    /// Bind the low-resolution target.
    BeginLogicalFrame,
    /// Clear the display, where the scene is drawn straight onto it.
    ClearDisplay,
    /// Draw the scene into whatever is bound.
    DrawScene,
    /// Unbind the low-resolution target.
    EndLogicalFrame,
    /// Stretch the low-resolution target over the display.
    BlitToDisplay,
    /// One phase of the overlay's pass.
    Overlay(OverlayPhase),
    /// Show the finished frame.
    Present,
}

/// What the caller is to do next.
#[derive(Clone, Copy, Debug, PartialEq, Eq, Structural)]
pub enum LoopAction {
    /// Carry out this stage, then ask again.
    Run(FrameStage),
    /// Release what is owned and leave.
    Exit,
}

/// What every frame begins with.
pub open spec fn input_stages() -> Seq<FrameStage> {
    seq![FrameStage::PollInput, FrameStage::UpdatePointer, FrameStage::AdvanceClock]
}

/// The drawing of the scene: into the low-resolution target and from
/// there onto the display, or straight onto the cleared display.
pub open spec fn scene_stages(low_res: bool) -> Seq<FrameStage> {
    if low_res {
        seq![
            FrameStage::BeginLogicalFrame,
            FrameStage::DrawScene,
            FrameStage::EndLogicalFrame,
            FrameStage::BlitToDisplay,
        ]
    } else {
        seq![FrameStage::ClearDisplay, FrameStage::DrawScene]
    }
}

/// The overlay's pass, where there is an overlay.
pub open spec fn overlay_stages(overlay: bool) -> Seq<FrameStage> {
    if overlay {
        seq![
            FrameStage::Overlay(OverlayPhase::InputTranslation),
            FrameStage::Overlay(OverlayPhase::Layout),
            FrameStage::Overlay(OverlayPhase::Upload),
            FrameStage::Overlay(OverlayPhase::Paint),
            FrameStage::Overlay(OverlayPhase::Free),
        ]
    } else {
        Seq::empty()
    }
}

/// The stages of one frame, first to last.
pub open spec fn iteration_stages(low_res: bool, overlay: bool) -> Seq<FrameStage> {
    input_stages() + scene_stages(low_res) + overlay_stages(overlay) + seq![FrameStage::Present]
}

/// The loop as a plain value: what it is set up for, whether it still
/// turns, which stage of the frame comes next (0 between two frames), and
/// whether a wish to quit is waiting for the frame to end.
#[derive(Clone, Copy, Debug, PartialEq, Eq, Structural)]
pub struct LoopModel {
    pub state: LoopState,
    pub low_res: bool,
    pub overlay: bool,
    pub cursor: usize,
    pub quit_pending: bool,
}

impl LoopModel {
    /// The next stage is one of the frame's, and a stopped loop stands
    /// between two frames.
    pub open spec fn wf(self) -> bool {
        &&& self.cursor < iteration_stages(self.low_res, self.overlay).len()
        &&& self.state is Stopped ==> self.cursor == 0
    }

    /// The stages of one frame of this loop.
    pub open spec fn stages(self) -> Seq<FrameStage> {
        iteration_stages(self.low_res, self.overlay)
    }
}

/// One turn of the loop: the loop afterwards, and what the caller is to
/// do. A stopped loop stays stopped. Between two frames a wish to quit,
/// waiting or new, stops the loop; without one the first stage runs.
/// Within a frame the next stage runs whatever is wished, and a wish to
/// quit is kept for later.
pub open spec fn loop_step(m: LoopModel, quit_signal: bool) -> (LoopModel, LoopAction) {
    if m.state is Stopped {
        (m, LoopAction::Exit)
    } else if m.cursor == 0 && (m.quit_pending || quit_signal) {
        (
            LoopModel {
                state: LoopState::Stopped,
                low_res: m.low_res,
                overlay: m.overlay,
                cursor: 0,
                quit_pending: true,
            },
            LoopAction::Exit,
        )
    } else {
        (
            LoopModel {
                state: LoopState::Running,
                low_res: m.low_res,
                overlay: m.overlay,
                cursor: if m.cursor + 1 < m.stages().len() {
                    (m.cursor + 1) as usize
                } else {
                    0
                },
                quit_pending: m.quit_pending || quit_signal,
            },
            LoopAction::Run(m.stages()[m.cursor as int]),
        )
    }
}

/// Several turns of the loop, one for each signal: the loop afterwards,
/// and what the caller was told, in order.
pub open spec fn loop_run(m: LoopModel, signals: Seq<bool>) -> (LoopModel, Seq<LoopAction>)
    decreases signals.len(),
{
    if signals.len() == 0 {
        (m, Seq::empty())
    } else {
        let before = loop_run(m, signals.drop_last());
        let last = loop_step(before.0, signals.last());
        (last.0, before.1.push(last.1))
    }
}

/// How many stages one frame has.
pub fn stage_count(low_res: bool, overlay: bool) -> (n: usize)
    ensures
        n == iteration_stages(low_res, overlay).len(),
        6 <= n <= 13,
{
    let scene: usize = if low_res {
        4
    } else {
        2
    };
    let gui: usize = if overlay {
        5
    } else {
        0
    };
    3 + scene + gui + 1
}

/// The stage at the given place in a frame, or none beyond the frame's
/// end.
pub fn stage_at(low_res: bool, overlay: bool, index: usize) -> (stage: Option<FrameStage>)
    ensures
        stage is Some <==> index < iteration_stages(low_res, overlay).len(),
        stage matches Some(s) ==> s == iteration_stages(low_res, overlay)[index as int],
{
    let stages = iteration_plan(low_res, overlay);
    if index < stages.len() {
        Some(stages[index])
    } else {
        None
    }
}

/// The stages of one frame, first to last.
pub fn iteration_plan(low_res: bool, overlay: bool) -> (stages: Vec<FrameStage>)
    ensures
        stages@ == iteration_stages(low_res, overlay),
{
    let mut stages: Vec<FrameStage> = Vec::new();
    stages.push(FrameStage::PollInput);
    stages.push(FrameStage::UpdatePointer);
    stages.push(FrameStage::AdvanceClock);
    if low_res {
        stages.push(FrameStage::BeginLogicalFrame);
        stages.push(FrameStage::DrawScene);
        stages.push(FrameStage::EndLogicalFrame);
        stages.push(FrameStage::BlitToDisplay);
    } else {
        stages.push(FrameStage::ClearDisplay);
        stages.push(FrameStage::DrawScene);
    }
    if overlay {
        stages.push(FrameStage::Overlay(OverlayPhase::InputTranslation));
        stages.push(FrameStage::Overlay(OverlayPhase::Layout));
        stages.push(FrameStage::Overlay(OverlayPhase::Upload));
        stages.push(FrameStage::Overlay(OverlayPhase::Paint));
        stages.push(FrameStage::Overlay(OverlayPhase::Free));
    }
    stages.push(FrameStage::Present);
    assert(stages@ =~= iteration_stages(low_res, overlay));
    stages
}

/// The state that is handed through every stage of the loop: whether the
/// application wants to go on, and the simulation's clock.
#[derive(Debug)]
pub struct State {
    running: bool,
    clock: SimulationClock,
}

impl State {
    pub closed spec fn spec_is_running(&self) -> bool {
        self.running
    }

    pub closed spec fn spec_time_since_last_update(&self) -> u64 {
        self.clock.accumulated_time()
    }

    pub closed spec fn spec_fixed_step(&self) -> u64 {
        self.clock.fixed_step()
    }

    /// A state that wants to run, with a clock at the standard rate and
    /// nothing accumulated.
    pub fn new() -> (state: State)
        ensures
            state.spec_is_running(),
            state.spec_time_since_last_update() == 0,
            state.spec_fixed_step() == TIMESTEP,
    {
        State { running: true, clock: SimulationClock::standard() }
    }

    /// Whether the application wants to go on.
    #[verifier::when_used_as_spec(spec_is_running)]
    pub fn is_running(&self) -> (b: bool)
        ensures
            b == self.spec_is_running(),
    {
        self.running
    }

    /// Time not yet spent on a step, in ticks; less than one step.
    #[verifier::when_used_as_spec(spec_time_since_last_update)]
    pub fn time_since_last_update(&self) -> (t: u64)
        ensures
            t == self.spec_time_since_last_update(),
            t < self.spec_fixed_step(),
    {
        self.clock.accumulated_time()
    }

    /// The length of one step, in ticks.
    #[verifier::when_used_as_spec(spec_fixed_step)]
    pub fn fixed_step(&self) -> (t: u64)
        ensures
            t == self.spec_fixed_step(),
            t > 0,
    {
        self.clock.fixed_step()
    }

    /// Notes that the application wants to stop. The clock is left alone.
    pub fn request_quit(&mut self)
        ensures
            !final(self).is_running(),
            final(self).time_since_last_update() == old(self).time_since_last_update(),
            final(self).fixed_step() == old(self).fixed_step(),
    {
        self.running = false;
    }

    /// Adds the frame's time to the clock. The result is the number of
    /// steps that the simulation is now to be run.
    pub fn advance(&mut self, dt: u64) -> (steps: u64)
        ensures
            final(self).is_running() == old(self).is_running(),
            final(self).fixed_step() == old(self).fixed_step(),
            steps == steps_due(
                old(self).time_since_last_update() as int,
                dt as int,
                old(self).fixed_step() as int,
            ),
            final(self).time_since_last_update() == time_carried(
                old(self).time_since_last_update() as int,
                dt as int,
                old(self).fixed_step() as int,
            ),
            old(self).time_since_last_update() + dt
                == steps * old(self).fixed_step() + final(self).time_since_last_update(),
    {
        self.clock.advance(dt)
    }
}

/// What the polled input means for the state: the escape key ends the
/// application's wish to run, and nothing else is touched.
pub fn process_events_and_input(state: &mut State, escape_pressed: bool)
    ensures
        final(state).is_running() == (old(state).is_running() && !escape_pressed),
        final(state).time_since_last_update() == old(state).time_since_last_update(),
        final(state).fixed_step() == old(state).fixed_step(),
{
    if escape_pressed {
        state.request_quit();
    }
}

/// What could be made of the things that a loop may need.
#[derive(Clone, Copy, Debug, PartialEq, Eq, Structural)]
pub struct Resources {
    /// There is a GPU context.
    pub gpu_context: bool,
    /// There is an offscreen target.
    pub render_target: bool,
    /// There is a painter for the overlay.
    pub overlay_painter: bool,
}

/// What is missing for a loop with or without a low-resolution target
/// and an overlay: the first of GPU context, target and painter that is
/// needed and is not there.
pub open spec fn missing_resource(low_res: bool, overlay: bool, resources: Resources) -> Option<
    SetupError,
> {
    if !resources.gpu_context {
        Some(SetupError::GpuContext)
    } else if low_res && !resources.render_target {
        Some(SetupError::RenderTarget)
    } else if overlay && !resources.overlay_painter {
        Some(SetupError::OverlayPainter)
    } else {
        None
    }
}

/// One release of something that the harness owns.
#[derive(Clone, Copy, Debug, PartialEq, Eq, Structural)]
pub enum ReleaseAction {
    /// Release a texture of the overlay.
    FreeTexture(TextureId),
    /// Destroy the overlay's painter.
    DestroyPainter,
    /// Unload the low-resolution target.
    UnloadTarget,
}

/// What is released when the loop has stopped, in order: the overlay's
/// textures and then its painter, where there is an overlay; the
/// low-resolution target, where there is one.
pub open spec fn release_actions(low_res: bool, overlay: bool, textures: Seq<TextureId>) -> Seq<
    ReleaseAction,
> {
    let of_overlay = if overlay {
        Seq::new(textures.len(), |i: int| ReleaseAction::FreeTexture(textures[i])).push(
            ReleaseAction::DestroyPainter,
        )
    } else {
        Seq::empty()
    };
    let of_target = if low_res {
        seq![ReleaseAction::UnloadTarget]
    } else {
        Seq::empty()
    };
    of_overlay + of_target
}

/// The loop itself.
#[derive(Debug)]
pub struct ApplicationLoop {
    state: LoopState,
    low_res: bool,
    overlay: bool,
    cursor: usize,
    quit_pending: bool,
}

impl View for ApplicationLoop {
    type V = LoopModel;

    closed spec fn view(&self) -> LoopModel {
        LoopModel {
            state: self.state,
            low_res: self.low_res,
            overlay: self.overlay,
            cursor: self.cursor,
            quit_pending: self.quit_pending,
        }
    }
}

impl ApplicationLoop {
    #[verifier::type_invariant]
    spec fn well_formed(self) -> bool {
        self@.wf()
    }

    /// A running loop between two frames, for a scene that is or is not
    /// drawn at a logical resolution, with or without an overlay.
    pub fn new(low_res: bool, overlay: bool) -> (l: ApplicationLoop)
        ensures
            l@ == (LoopModel {
                state: LoopState::Running,
                low_res,
                overlay,
                cursor: 0,
                quit_pending: false,
            }),
            l@.wf(),
    {
        ApplicationLoop {
            state: LoopState::Running,
            low_res,
            overlay,
            cursor: 0,
            quit_pending: false,
        }
    }

    /// A running loop, if everything that it needs could be made. The
    /// loop does not start without its GPU context, without the target
    /// that a logical resolution asks for, or without the painter that an
    /// overlay asks for.
    pub fn start(low_res: bool, overlay: bool, resources: Resources) -> (r: Result<
        ApplicationLoop,
        SetupError,
    >)
        ensures
            match missing_resource(low_res, overlay, resources) {
                Some(e) => r == Err::<ApplicationLoop, SetupError>(e),
                None => r matches Ok(l) && l@ == (LoopModel {
                    state: LoopState::Running,
                    low_res,
                    overlay,
                    cursor: 0,
                    quit_pending: false,
                }),
            },
    {
        if !resources.gpu_context {
            Err(SetupError::GpuContext)
        } else if low_res && !resources.render_target {
            Err(SetupError::RenderTarget)
        } else if overlay && !resources.overlay_painter {
            Err(SetupError::OverlayPainter)
        } else {
            Ok(ApplicationLoop::new(low_res, overlay))
        }
    }

    /// What is to be released now that the loop has stopped, in order.
    /// Every texture that the bridge still holds is named once, and the
    /// bridge holds none afterwards. A loop that still runs releases
    /// nothing and leaves the bridge as it is.
    pub fn release(&self, bridge: &mut UiOverlayBridge) -> (actions: Vec<ReleaseAction>)
        ensures
            final(bridge).spec_gpu_state() == old(bridge).spec_gpu_state(),
            self@.state is Running ==> actions@ == Seq::<ReleaseAction>::empty()
                && final(bridge).spec_textures() == old(bridge).spec_textures(),
            self@.state is Stopped ==> final(bridge).spec_textures() == Set::<TextureId>::empty()
                && exists|textures: Seq<TextureId>|
                textures.no_duplicates() && textures.to_set() == old(bridge).spec_textures()
                    && actions@ == #[trigger] release_actions(
                    self@.low_res,
                    self@.overlay,
                    textures,
                ),
    {
        let mut actions: Vec<ReleaseAction> = Vec::new();
        match self.state {
            LoopState::Running => {},
            LoopState::Stopped => {
                let released = bridge.shutdown();
                if self.overlay {
                    let mut i: usize = 0;
                    while i < released.len()
                        invariant
                            i <= released.len(),
                            actions@ == Seq::new(
                                i as nat,
                                |k: int| ReleaseAction::FreeTexture(released@[k]),
                            ),
                        decreases released.len() - i,
                    {
                        actions.push(ReleaseAction::FreeTexture(released[i]));
                        i += 1;
                        assert(actions@ =~= Seq::new(
                            i as nat,
                            |k: int| ReleaseAction::FreeTexture(released@[k]),
                        ));
                    }
                    actions.push(ReleaseAction::DestroyPainter);
                }
                if self.low_res {
                    actions.push(ReleaseAction::UnloadTarget);
                }
                assert(actions@ =~= release_actions(self@.low_res, self@.overlay, released@));
            },
        }
        actions
    }

    /// Whether the loop still turns.
    pub fn state(&self) -> (s: LoopState)
        ensures
            s == self@.state,
            self@.wf(),
    {
        proof {
            use_type_invariant(self);
        }
        self.state
    }

    /// Whether the loop stands between two frames.
    pub fn at_frame_boundary(&self) -> (b: bool)
        ensures
            b == (self@.cursor == 0),
    {
        self.cursor == 0
    }

    /// One turn: what to do next, given whether the application or the
    /// host wants to quit.
    pub fn step(&mut self, state: &State, window_should_close: bool) -> (action: LoopAction)
        ensures
            (final(self)@, action) == loop_step(
                old(self)@,
                !state.is_running() || window_should_close,
            ),
            final(self)@.wf(),
    {
        proof {
            use_type_invariant(&*self);
        }
        let quit_signal = !state.is_running() || window_should_close;
        match self.state {
            LoopState::Stopped => LoopAction::Exit,
            LoopState::Running => {
                if self.cursor == 0 && (self.quit_pending || quit_signal) {
                    self.state = LoopState::Stopped;
                    self.quit_pending = true;
                    LoopAction::Exit
                } else {
                    let stages = iteration_plan(self.low_res, self.overlay);
                    let stage = stages[self.cursor];
                    self.cursor = if self.cursor + 1 < stages.len() {
                        self.cursor + 1
                    } else {
                        0
                    };
                    self.quit_pending = self.quit_pending || quit_signal;
                    LoopAction::Run(stage)
                }
            },
        }
    }
}

/// Whether `first` stands somewhere before `second` in the stages.
pub open spec fn stage_precedes(stages: Seq<FrameStage>, first: FrameStage, second: FrameStage) -> bool {
    exists|i: int, j: int|
        0 <= i < j < stages.len() && #[trigger] stages[i] == first && #[trigger] stages[j]
            == second
}

/// No stage stands twice in a frame. Input is polled first and the frame
/// is presented last. The scene is drawn after the clock has advanced;
/// where there is a low-resolution target, between its binding and its
/// unbinding, and the target is stretched over the display only after it
/// is unbound. The overlay's phases follow the scene in their own order,
/// and all of it comes before the frame is presented.
pub proof fn lemma_stages_stand_in_order(low_res: bool, overlay: bool)
    ensures
        ({
            let stages = iteration_stages(low_res, overlay);
            &&& stages.no_duplicates()
            &&& stages[0] == FrameStage::PollInput
            &&& stages.last() == FrameStage::Present
            &&& stage_precedes(stages, FrameStage::AdvanceClock, FrameStage::DrawScene)
            &&& stage_precedes(stages, FrameStage::DrawScene, FrameStage::Present)
            &&& low_res ==> {
                &&& stage_precedes(stages, FrameStage::BeginLogicalFrame, FrameStage::DrawScene)
                &&& stage_precedes(stages, FrameStage::DrawScene, FrameStage::EndLogicalFrame)
                &&& stage_precedes(stages, FrameStage::EndLogicalFrame, FrameStage::BlitToDisplay)
                &&& !stages.contains(FrameStage::ClearDisplay)
            }
            &&& !low_res ==> {
                &&& stage_precedes(stages, FrameStage::ClearDisplay, FrameStage::DrawScene)
                &&& !stages.contains(FrameStage::BeginLogicalFrame)
                &&& !stages.contains(FrameStage::EndLogicalFrame)
                &&& !stages.contains(FrameStage::BlitToDisplay)
            }
            &&& overlay ==> {
                &&& stage_precedes(
                    stages,
                    FrameStage::DrawScene,
                    FrameStage::Overlay(OverlayPhase::InputTranslation),
                )
                &&& low_res ==> stage_precedes(
                    stages,
                    FrameStage::BlitToDisplay,
                    FrameStage::Overlay(OverlayPhase::InputTranslation),
                )
                &&& stage_precedes(
                    stages,
                    FrameStage::Overlay(OverlayPhase::InputTranslation),
                    FrameStage::Overlay(OverlayPhase::Layout),
                )
                &&& stage_precedes(
                    stages,
                    FrameStage::Overlay(OverlayPhase::Layout),
                    FrameStage::Overlay(OverlayPhase::Upload),
                )
                &&& stage_precedes(
                    stages,
                    FrameStage::Overlay(OverlayPhase::Upload),
                    FrameStage::Overlay(OverlayPhase::Paint),
                )
                &&& stage_precedes(
                    stages,
                    FrameStage::Overlay(OverlayPhase::Paint),
                    FrameStage::Overlay(OverlayPhase::Free),
                )
                &&& stage_precedes(
                    stages,
                    FrameStage::Overlay(OverlayPhase::Free),
                    FrameStage::Present,
                )
            }
            &&& !overlay ==> forall|i: int|
                0 <= i < stages.len() ==> !(#[trigger] stages[i] is Overlay)
        }),
{
    let stages = iteration_stages(low_res, overlay);
    let n = stages.len() as int;
    let scene_end: int = if low_res {
        7
    } else {
        5
    };
    assert(stages[2] == FrameStage::AdvanceClock);
    assert(stages[4] == FrameStage::DrawScene);
    assert(stages[n - 1] == FrameStage::Present);
    if low_res {
        assert(stages[3] == FrameStage::BeginLogicalFrame);
        assert(stages[5] == FrameStage::EndLogicalFrame);
        assert(stages[6] == FrameStage::BlitToDisplay);
    } else {
        assert(stages[3] == FrameStage::ClearDisplay);
    }
    if overlay {
        assert(stages[scene_end] == FrameStage::Overlay(OverlayPhase::InputTranslation));
        assert(stages[scene_end + 1] == FrameStage::Overlay(OverlayPhase::Layout));
        assert(stages[scene_end + 2] == FrameStage::Overlay(OverlayPhase::Upload));
        assert(stages[scene_end + 3] == FrameStage::Overlay(OverlayPhase::Paint));
        assert(stages[scene_end + 4] == FrameStage::Overlay(OverlayPhase::Free));
    }
}

/// The overlay's stages are the overlay's phases, one for one and in
/// their order.
pub proof fn lemma_overlay_stages_are_the_phases()
    ensures
        overlay_stages(true) == overlay_phases().map_values(
            |phase: OverlayPhase| FrameStage::Overlay(phase),
        ),
        overlay_stages(false) == Seq::<FrameStage>::empty(),
{
    assert(overlay_stages(true) =~= overlay_phases().map_values(
        |phase: OverlayPhase| FrameStage::Overlay(phase),
    ));
}

/// A stopped loop stays stopped: whatever is signalled, it says `Exit`
/// and does not change.
pub proof fn lemma_stopped_is_final(m: LoopModel, signals: Seq<bool>)
    requires
        m.state is Stopped,
    ensures
        loop_run(m, signals).0 == m,
        loop_run(m, signals).1.len() == signals.len(),
        forall|i: int|
            0 <= i < signals.len() ==> #[trigger] loop_run(m, signals).1[i] == LoopAction::Exit,
    decreases signals.len(),
{
    if signals.len() > 0 {
        lemma_stopped_is_final(m, signals.drop_last());
    }
}

/// Between two frames a wish to quit, waiting or new, stops the loop at
/// once; without one the frame begins with its first stage.
pub proof fn lemma_quit_is_honoured_between_frames(m: LoopModel, quit_signal: bool)
    requires
        m.wf(),
        m.state is Running,
        m.cursor == 0,
    ensures
        m.quit_pending || quit_signal ==> loop_step(m, quit_signal).1 == LoopAction::Exit
            && loop_step(m, quit_signal).0.state is Stopped,
        !(m.quit_pending || quit_signal) ==> loop_step(m, quit_signal).1 == LoopAction::Run(
            FrameStage::PollInput,
        ) && loop_step(m, quit_signal).0.state is Running && loop_step(m, quit_signal).0.cursor
            == 1,
        loop_step(m, quit_signal).0.wf(),
{
}

/// A frame that has begun is carried through. From any stage within a
/// frame, whatever is signalled on the way, the loop names every
/// remaining stage of the frame in order, the last of them the
/// presentation, and stays running. A wish to quit that came on the way
/// is then waiting between the frames, and the next turn stops the loop.
pub proof fn lemma_frame_in_progress_is_finished(m: LoopModel, signals: Seq<bool>)
    requires
        m.wf(),
        m.state is Running,
        0 < m.cursor,
        signals.len() == m.stages().len() - m.cursor,
    ensures
        ({
            let after = loop_run(m, signals);
            &&& after.1.len() == signals.len()
            &&& forall|i: int|
                0 <= i < signals.len() ==> #[trigger] after.1[i] == LoopAction::Run(
                    m.stages()[m.cursor + i],
                )
            &&& after.1.last() == LoopAction::Run(FrameStage::Present)
            &&& after.0.state is Running
            &&& after.0.cursor == 0
            &&& after.0.wf()
            &&& after.0.quit_pending == (m.quit_pending || signals.contains(true))
            &&& after.0.quit_pending ==> forall|next: bool|
                #[trigger] loop_step(after.0, next).1 == LoopAction::Exit && loop_step(
                    after.0,
                    next,
                ).0.state is Stopped
        }),
{
    lemma_frame_prefix(m, signals);
    let after = loop_run(m, signals);
    assert(m.stages().last() == FrameStage::Present);
    assert(after.1.last() == after.1[signals.len() - 1]);
}

/// A frame that begins without a wish to quit runs every one of its
/// stages, in order, whatever is signalled once it has begun.
pub proof fn lemma_frame_runs_every_stage(m: LoopModel, signals: Seq<bool>)
    requires
        m.wf(),
        m.state is Running,
        m.cursor == 0,
        !m.quit_pending,
        signals.len() == m.stages().len(),
        !signals[0],
    ensures
        ({
            let after = loop_run(m, signals);
            &&& after.1 == m.stages().map_values(|stage: FrameStage| LoopAction::Run(stage))
            &&& after.0.state is Running
            &&& after.0.cursor == 0
            &&& after.0.quit_pending == signals.contains(true)
        }),
{
    lemma_frame_prefix(m, signals);
    let after = loop_run(m, signals);
    assert(after.1 =~= m.stages().map_values(|stage: FrameStage| LoopAction::Run(stage)));
}

/// What the loop has done after some turns within one frame.
proof fn lemma_frame_prefix(m: LoopModel, signals: Seq<bool>)
    requires
        m.wf(),
        m.state is Running,
        signals.len() <= m.stages().len() - m.cursor,
        m.cursor == 0 ==> !m.quit_pending && (signals.len() > 0 ==> !signals[0]),
    ensures
        ({
            let after = loop_run(m, signals);
            &&& after.1.len() == signals.len()
            &&& forall|i: int|
                0 <= i < signals.len() ==> #[trigger] after.1[i] == LoopAction::Run(
                    m.stages()[m.cursor + i],
                )
            &&& after.0.state is Running
            &&& after.0.low_res == m.low_res
            &&& after.0.overlay == m.overlay
            &&& after.0.cursor == (if m.cursor + signals.len() < m.stages().len() {
                m.cursor + signals.len()
            } else {
                0
            })
            &&& after.0.wf()
            &&& after.0.quit_pending == (m.quit_pending || signals.contains(true))
        }),
    decreases signals.len(),
{
    if signals.len() == 0 {
        assert(!signals.contains(true));
    } else {
        let rest = signals.drop_last();
        lemma_frame_prefix(m, rest);
        let before = loop_run(m, rest);
        if rest.len() > 0 {
            assert(rest[0] == signals[0]);
        }
        assert(before.0.cursor == m.cursor + rest.len());
        assert(signals.contains(true) <==> rest.contains(true) || signals.last()) by {
            if rest.contains(true) {
                let k = choose|k: int| 0 <= k < rest.len() && rest[k];
                assert(signals[k]);
            }
            if signals.last() {
                assert(signals[signals.len() - 1]);
            }
            if signals.contains(true) {
                let k = choose|k: int| 0 <= k < signals.len() && signals[k];
                if k < rest.len() {
                    assert(rest[k]);
                }
            }
        }
    }
}

} // verus!
