use sketch_harness::app_loop::{
    iteration_plan, process_events_and_input, stage_at, stage_count, ApplicationLoop, FrameStage,
    LoopAction, LoopState, ReleaseAction, Resources, State,
};
use sketch_harness::clock::TIMESTEP;
use sketch_harness::error::{ConfigurationError, FatalError, SetupError};
use sketch_harness::overlay::{OverlayAction, OverlayPhase, UiOverlayBridge};
use sketch_harness::texture::TextureId;

fn low_res_frame() -> Vec<FrameStage> {
    vec![
        FrameStage::PollInput,
        FrameStage::UpdatePointer,
        FrameStage::AdvanceClock,
        FrameStage::BeginLogicalFrame,
        FrameStage::DrawScene,
        FrameStage::EndLogicalFrame,
        FrameStage::BlitToDisplay,
        FrameStage::Present,
    ]
}

fn overlay_frame() -> Vec<FrameStage> {
    vec![
        FrameStage::PollInput,
        FrameStage::UpdatePointer,
        FrameStage::AdvanceClock,
        FrameStage::ClearDisplay,
        FrameStage::DrawScene,
        FrameStage::Overlay(OverlayPhase::InputTranslation),
        FrameStage::Overlay(OverlayPhase::Layout),
        FrameStage::Overlay(OverlayPhase::Upload),
        FrameStage::Overlay(OverlayPhase::Paint),
        FrameStage::Overlay(OverlayPhase::Free),
        FrameStage::Present,
    ]
}

#[test]
fn frame_with_a_low_resolution_target() {
    assert_eq!(iteration_plan(true, false), low_res_frame());
}

#[test]
fn frame_with_an_overlay_drawn_straight_to_the_display() {
    assert_eq!(iteration_plan(false, true), overlay_frame());
}

#[test]
fn plain_frame() {
    assert_eq!(
        iteration_plan(false, false),
        vec![
            FrameStage::PollInput,
            FrameStage::UpdatePointer,
            FrameStage::AdvanceClock,
            FrameStage::ClearDisplay,
            FrameStage::DrawScene,
            FrameStage::Present,
        ]
    );
}

#[test]
fn frame_with_target_and_overlay() {
    let stages = iteration_plan(true, true);
    assert_eq!(stages.len(), 13);
    assert_eq!(&stages[..7], &low_res_frame()[..7]);
    assert_eq!(&stages[7..], &overlay_frame()[5..]);
}

#[test]
fn stages_stand_in_order_and_none_twice() {
    for low_res in [false, true] {
        for overlay in [false, true] {
            let stages = iteration_plan(low_res, overlay);
            assert_eq!(stages.len(), stage_count(low_res, overlay));
            let at = |s: FrameStage| stages.iter().position(|x| *x == s);
            for s in &stages {
                assert_eq!(stages.iter().filter(|x| *x == s).count(), 1);
            }
            assert_eq!(at(FrameStage::PollInput), Some(0));
            assert_eq!(at(FrameStage::Present), Some(stages.len() - 1));
            assert!(at(FrameStage::AdvanceClock) < at(FrameStage::DrawScene));
            if low_res {
                assert!(at(FrameStage::BeginLogicalFrame) < at(FrameStage::DrawScene));
                assert!(at(FrameStage::DrawScene) < at(FrameStage::EndLogicalFrame));
                assert!(at(FrameStage::EndLogicalFrame) < at(FrameStage::BlitToDisplay));
                assert_eq!(at(FrameStage::ClearDisplay), None);
            } else {
                assert!(at(FrameStage::ClearDisplay) < at(FrameStage::DrawScene));
                assert_eq!(at(FrameStage::BlitToDisplay), None);
            }
            if overlay {
                let scene_end = if low_res {
                    at(FrameStage::BlitToDisplay)
                } else {
                    at(FrameStage::DrawScene)
                };
                assert!(scene_end < at(FrameStage::Overlay(OverlayPhase::InputTranslation)));
                assert!(
                    at(FrameStage::Overlay(OverlayPhase::InputTranslation))
                        < at(FrameStage::Overlay(OverlayPhase::Layout))
                );
                assert!(
                    at(FrameStage::Overlay(OverlayPhase::Layout))
                        < at(FrameStage::Overlay(OverlayPhase::Upload))
                );
                assert!(
                    at(FrameStage::Overlay(OverlayPhase::Upload))
                        < at(FrameStage::Overlay(OverlayPhase::Paint))
                );
                assert!(
                    at(FrameStage::Overlay(OverlayPhase::Paint))
                        < at(FrameStage::Overlay(OverlayPhase::Free))
                );
                assert!(at(FrameStage::Overlay(OverlayPhase::Free)) < at(FrameStage::Present));
            } else {
                assert!(!stages.iter().any(|s| matches!(s, FrameStage::Overlay(_))));
            }
        }
    }
}

#[test]
fn stage_at_follows_the_plan() {
    for low_res in [false, true] {
        for overlay in [false, true] {
            let stages = iteration_plan(low_res, overlay);
            for (i, stage) in stages.iter().enumerate() {
                assert_eq!(stage_at(low_res, overlay, i), Some(*stage));
            }
            assert_eq!(stage_at(low_res, overlay, stages.len()), None);
            assert_eq!(stage_at(low_res, overlay, usize::MAX), None);
        }
    }
    assert_eq!(stage_count(false, false), 6);
    assert_eq!(stage_count(true, false), 8);
    assert_eq!(stage_count(false, true), 11);
    assert_eq!(stage_count(true, true), 13);
}

#[test]
fn loop_runs_frame_after_frame() {
    let state = State::new();
    let mut l = ApplicationLoop::new(true, false);
    assert_eq!(l.state(), LoopState::Running);
    assert!(l.at_frame_boundary());
    for _ in 0..3 {
        for stage in low_res_frame() {
            assert_eq!(l.step(&state, false), LoopAction::Run(stage));
        }
        assert!(l.at_frame_boundary());
        assert_eq!(l.state(), LoopState::Running);
    }
}

#[test]
fn quit_raised_while_input_is_polled_waits_for_the_frame_to_end() {
    let mut state = State::new();
    let mut l = ApplicationLoop::new(false, true);
    let stages = overlay_frame();
    assert_eq!(l.step(&state, false), LoopAction::Run(FrameStage::PollInput));
    // The escape key is seen while the input is polled.
    process_events_and_input(&mut state, true);
    assert!(!state.is_running());
    for stage in &stages[1..] {
        assert_eq!(l.state(), LoopState::Running);
        assert_eq!(l.step(&state, false), LoopAction::Run(*stage));
    }
    assert!(l.at_frame_boundary());
    assert_eq!(l.state(), LoopState::Running);
    assert_eq!(l.step(&state, false), LoopAction::Exit);
    assert_eq!(l.state(), LoopState::Stopped);
}

#[test]
fn window_close_in_mid_frame_is_remembered() {
    let state = State::new();
    let mut l = ApplicationLoop::new(true, false);
    let stages = low_res_frame();
    for stage in &stages[..4] {
        assert_eq!(l.step(&state, false), LoopAction::Run(*stage));
    }
    // The host asks to close for one turn only.
    assert_eq!(l.step(&state, true), LoopAction::Run(stages[4]));
    for stage in &stages[5..] {
        assert_eq!(l.step(&state, false), LoopAction::Run(*stage));
    }
    assert_eq!(l.step(&state, false), LoopAction::Exit);
    assert_eq!(l.state(), LoopState::Stopped);
}

#[test]
fn quit_before_the_first_frame_runs_no_stage() {
    let state = State::new();
    let mut l = ApplicationLoop::new(true, true);
    assert_eq!(l.step(&state, true), LoopAction::Exit);
    assert_eq!(l.state(), LoopState::Stopped);
    let mut stopped = State::new();
    stopped.request_quit();
    let mut m = ApplicationLoop::new(false, false);
    assert_eq!(m.step(&stopped, false), LoopAction::Exit);
    assert_eq!(m.state(), LoopState::Stopped);
}

#[test]
fn quit_during_the_last_stage_stops_the_loop_after_it() {
    let state = State::new();
    let mut l = ApplicationLoop::new(false, false);
    let stages = iteration_plan(false, false);
    for stage in &stages[..stages.len() - 1] {
        assert_eq!(l.step(&state, false), LoopAction::Run(*stage));
    }
    assert_eq!(l.step(&state, true), LoopAction::Run(FrameStage::Present));
    assert_eq!(l.step(&state, false), LoopAction::Exit);
}

#[test]
fn stopped_loop_stays_stopped() {
    let state = State::new();
    let mut l = ApplicationLoop::new(true, true);
    assert_eq!(l.step(&state, true), LoopAction::Exit);
    for signal in [false, true, false, false] {
        assert_eq!(l.step(&state, signal), LoopAction::Exit);
        assert_eq!(l.state(), LoopState::Stopped);
        assert!(l.at_frame_boundary());
    }
}

#[test]
fn new_state_runs_with_an_empty_clock() {
    let state = State::new();
    assert!(state.is_running());
    assert_eq!(state.time_since_last_update(), 0);
    assert_eq!(state.fixed_step(), TIMESTEP);
}

#[test]
fn escape_ends_the_wish_to_run() {
    let mut state = State::new();
    process_events_and_input(&mut state, false);
    assert!(state.is_running());
    process_events_and_input(&mut state, true);
    assert!(!state.is_running());
    // Once given up, the wish does not come back.
    process_events_and_input(&mut state, false);
    assert!(!state.is_running());
}

#[test]
fn input_and_quit_leave_the_clock_alone() {
    let mut state = State::new();
    state.advance(150_000);
    process_events_and_input(&mut state, true);
    assert_eq!(state.time_since_last_update(), 50_000);
    assert_eq!(state.fixed_step(), TIMESTEP);
    state.request_quit();
    assert_eq!(state.time_since_last_update(), 50_000);
}

#[test]
fn state_advances_its_clock() {
    let mut state = State::new();
    assert_eq!(state.advance(198_000), 1);
    assert_eq!(state.time_since_last_update(), 98_000);
    assert_eq!(state.advance(2_000), 1);
    assert_eq!(state.time_since_last_update(), 0);
    assert_eq!(state.advance(1_200_000), 12);
    assert_eq!(state.time_since_last_update(), 0);
    assert!(state.is_running());
}

const ALL: Resources = Resources { gpu_context: true, render_target: true, overlay_painter: true };

#[test]
fn loop_starts_when_everything_it_needs_is_there() {
    let state = State::new();
    let mut l = ApplicationLoop::start(true, true, ALL).unwrap();
    assert_eq!(l.state(), LoopState::Running);
    assert!(l.at_frame_boundary());
    for stage in iteration_plan(true, true) {
        assert_eq!(l.step(&state, false), LoopAction::Run(stage));
    }
}

#[test]
fn loop_does_not_start_without_a_gpu_context() {
    for low_res in [false, true] {
        for overlay in [false, true] {
            let r = ApplicationLoop::start(
                low_res,
                overlay,
                Resources { gpu_context: false, render_target: true, overlay_painter: true },
            );
            assert_eq!(r.unwrap_err(), SetupError::GpuContext);
        }
    }
}

#[test]
fn loop_does_not_start_without_the_target_it_asks_for() {
    let without = Resources { gpu_context: true, render_target: false, overlay_painter: true };
    assert_eq!(ApplicationLoop::start(true, true, without).unwrap_err(), SetupError::RenderTarget);
    assert_eq!(ApplicationLoop::start(true, false, without).unwrap_err(), SetupError::RenderTarget);
    // A scene drawn straight to the display needs none.
    assert!(ApplicationLoop::start(false, true, without).is_ok());
    assert!(ApplicationLoop::start(false, false, without).is_ok());
}

#[test]
fn loop_does_not_start_without_the_overlay_it_asks_for() {
    let without = Resources { gpu_context: true, render_target: true, overlay_painter: false };
    assert_eq!(
        ApplicationLoop::start(false, true, without).unwrap_err(),
        SetupError::OverlayPainter
    );
    assert_eq!(
        ApplicationLoop::start(true, true, without).unwrap_err(),
        SetupError::OverlayPainter
    );
    assert!(ApplicationLoop::start(true, false, without).is_ok());
}

#[test]
fn first_missing_resource_is_reported() {
    let nothing = Resources { gpu_context: false, render_target: false, overlay_painter: false };
    assert_eq!(ApplicationLoop::start(true, true, nothing).unwrap_err(), SetupError::GpuContext);
    let context_only = Resources { gpu_context: true, render_target: false, overlay_painter: false };
    assert_eq!(
        ApplicationLoop::start(true, true, context_only).unwrap_err(),
        SetupError::RenderTarget
    );
    assert!(ApplicationLoop::start(false, false, context_only).is_ok());
}

#[test]
fn fatal_errors_end_the_process_with_a_status_that_is_not_zero() {
    for error in [
        FatalError::Setup(SetupError::GpuContext),
        FatalError::Setup(SetupError::RenderTarget),
        FatalError::Setup(SetupError::OverlayPainter),
        FatalError::Configuration(ConfigurationError::ZeroWindowDimension),
        FatalError::Configuration(ConfigurationError::ZeroLogicalDimension),
        FatalError::Configuration(ConfigurationError::ZeroFixedStep),
    ] {
        assert_eq!(error.exit_code(), 1);
        assert_ne!(error.exit_code(), 0);
    }
}

#[test]
fn running_loop_releases_nothing() {
    let l = ApplicationLoop::new(true, true);
    let mut bridge = UiOverlayBridge::new();
    bridge.complete(OverlayAction::Upload { index: 0, id: TextureId::Managed(0) });
    assert!(l.release(&mut bridge).is_empty());
    assert!(bridge.table().contains(TextureId::Managed(0)));
}

#[test]
fn stopped_loop_releases_textures_then_painter_then_target() {
    let state = State::new();
    let mut l = ApplicationLoop::new(true, true);
    let mut bridge = UiOverlayBridge::new();
    bridge.complete(OverlayAction::Upload { index: 0, id: TextureId::Managed(0) });
    bridge.complete(OverlayAction::Upload { index: 1, id: TextureId::User(3) });
    assert_eq!(l.step(&state, true), LoopAction::Exit);
    let actions = l.release(&mut bridge);
    assert_eq!(actions.len(), 4);
    for id in [TextureId::Managed(0), TextureId::User(3)] {
        let at = actions.iter().position(|a| *a == ReleaseAction::FreeTexture(id)).unwrap();
        assert!(at < 2);
    }
    assert_eq!(actions[2], ReleaseAction::DestroyPainter);
    assert_eq!(actions[3], ReleaseAction::UnloadTarget);
    assert!(bridge.table().is_empty());
    // Nothing is left for a second time but what is not counted.
    assert_eq!(
        l.release(&mut bridge),
        vec![ReleaseAction::DestroyPainter, ReleaseAction::UnloadTarget]
    );
}

#[test]
fn stopped_loop_releases_only_what_it_was_set_up_with() {
    let state = State::new();
    let mut bridge = UiOverlayBridge::new();
    let mut plain = ApplicationLoop::new(false, false);
    assert_eq!(plain.step(&state, true), LoopAction::Exit);
    assert!(plain.release(&mut bridge).is_empty());
    let mut low = ApplicationLoop::new(true, false);
    assert_eq!(low.step(&state, true), LoopAction::Exit);
    assert_eq!(low.release(&mut bridge), vec![ReleaseAction::UnloadTarget]);
    let mut gui = ApplicationLoop::new(false, true);
    assert_eq!(gui.step(&state, true), LoopAction::Exit);
    assert_eq!(gui.release(&mut bridge), vec![ReleaseAction::DestroyPainter]);
}
