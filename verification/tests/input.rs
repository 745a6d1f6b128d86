use sketch_harness::geometry::Size;
use sketch_harness::input::{
    fits_overlay, pointer_events, translate_input, OverlayEvent, PointerInput, EXACT_PIXEL_LIMIT,
};
use sketch_harness::placement::PointerSample;

fn pointer(x: i32, y: i32, pressed: bool, released: bool, down: bool) -> PointerInput {
    PointerInput { position: PointerSample { x, y }, pressed, released, down }
}

const SCREEN: Size = Size { width: 1280, height: 720 };

#[test]
fn resting_pointer_gives_its_position_only() {
    let events = pointer_events(pointer(10, 20, false, false, false));
    assert_eq!(events, vec![OverlayEvent::PointerMoved { x: 10, y: 20 }]);
    // A button that is held, but did not change in this frame, is no event.
    let held = pointer_events(pointer(10, 20, false, false, true));
    assert_eq!(held, vec![OverlayEvent::PointerMoved { x: 10, y: 20 }]);
}

#[test]
fn press_gives_a_button_event_after_the_position() {
    let events = pointer_events(pointer(3, 4, true, false, true));
    assert_eq!(
        events,
        vec![
            OverlayEvent::PointerMoved { x: 3, y: 4 },
            OverlayEvent::PrimaryButton { x: 3, y: 4, pressed: true },
        ]
    );
}

#[test]
fn release_gives_a_button_event_that_says_released() {
    let events = pointer_events(pointer(-3, 4, false, true, false));
    assert_eq!(
        events,
        vec![
            OverlayEvent::PointerMoved { x: -3, y: 4 },
            OverlayEvent::PrimaryButton { x: -3, y: 4, pressed: false },
        ]
    );
}

#[test]
fn press_and_release_in_one_frame_report_the_button_as_it_is_now() {
    let up = pointer_events(pointer(1, 1, true, true, false));
    assert_eq!(up[1], OverlayEvent::PrimaryButton { x: 1, y: 1, pressed: false });
    let down = pointer_events(pointer(1, 1, true, true, true));
    assert_eq!(down[1], OverlayEvent::PrimaryButton { x: 1, y: 1, pressed: true });
    assert_eq!(up.len(), 2);
    assert_eq!(down.len(), 2);
}

#[test]
fn raw_input_of_a_resting_pointer_holds_one_event() {
    let raw = translate_input(pointer(640, 360, false, false, false), SCREEN);
    assert_eq!(raw.events.len(), 1);
    match &raw.events[0] {
        egui::Event::PointerMoved(pos) => {
            assert_eq!(pos.x, 640.0);
            assert_eq!(pos.y, 360.0);
        }
        other => panic!("unexpected event {:?}", other),
    }
}

#[test]
fn raw_input_of_a_press_holds_the_primary_button() {
    let raw = translate_input(pointer(12, -7, true, false, true), SCREEN);
    assert_eq!(raw.events.len(), 2);
    assert!(matches!(&raw.events[0], egui::Event::PointerMoved(p) if p.x == 12.0 && p.y == -7.0));
    match &raw.events[1] {
        egui::Event::PointerButton { pos, button, pressed, modifiers } => {
            assert_eq!(pos.x, 12.0);
            assert_eq!(pos.y, -7.0);
            assert_eq!(*button, egui::PointerButton::Primary);
            assert!(*pressed);
            assert_eq!(*modifiers, egui::Modifiers::default());
            assert!(modifiers.is_none());
        }
        other => panic!("unexpected event {:?}", other),
    }
}

#[test]
fn raw_input_of_a_release_says_released() {
    let raw = translate_input(pointer(5, 6, false, true, false), SCREEN);
    assert_eq!(raw.events.len(), 2);
    assert!(matches!(
        &raw.events[1],
        egui::Event::PointerButton { pressed: false, button: egui::PointerButton::Primary, .. }
    ));
}

#[test]
fn raw_input_names_the_whole_screen() {
    let raw = translate_input(pointer(0, 0, false, false, false), SCREEN);
    let rect = raw.screen_rect.unwrap();
    assert_eq!(rect.min.x, 0.0);
    assert_eq!(rect.min.y, 0.0);
    assert_eq!(rect.max.x, 1280.0);
    assert_eq!(rect.max.y, 720.0);
    assert_eq!(rect.width(), 1280.0);
    assert_eq!(rect.height(), 720.0);
}

#[test]
fn raw_input_is_otherwise_the_default() {
    let raw = translate_input(pointer(1, 2, true, false, true), SCREEN);
    let default = egui::RawInput::default();
    assert_eq!(raw.viewport_id, default.viewport_id);
    assert_eq!(raw.time, default.time);
    assert_eq!(raw.predicted_dt, default.predicted_dt);
    assert_eq!(raw.modifiers, default.modifiers);
    assert_eq!(raw.focused, default.focused);
    assert_eq!(raw.max_texture_side, default.max_texture_side);
    assert!(raw.hovered_files.is_empty());
    assert!(raw.dropped_files.is_empty());
    assert!(default.events.is_empty());
    assert!(default.screen_rect.is_none());
}

#[test]
fn raw_input_matches_the_plain_events() {
    for input in [
        pointer(0, 0, false, false, false),
        pointer(100, 200, true, false, true),
        pointer(-100, 200, false, true, false),
        pointer(7, 7, true, true, true),
    ] {
        let plain = pointer_events(input);
        let raw = translate_input(input, SCREEN);
        assert_eq!(raw.events.len(), plain.len());
        for (event, expected) in raw.events.iter().zip(plain.iter()) {
            let seen = match event {
                egui::Event::PointerMoved(p) => {
                    OverlayEvent::PointerMoved { x: p.x as i32, y: p.y as i32 }
                }
                egui::Event::PointerButton { pos, pressed, .. } => {
                    OverlayEvent::PrimaryButton { x: pos.x as i32, y: pos.y as i32, pressed: *pressed }
                }
                other => panic!("unexpected event {:?}", other),
            };
            assert_eq!(seen, *expected);
        }
    }
}

#[test]
fn positions_at_the_limit_are_exact() {
    let input = pointer(EXACT_PIXEL_LIMIT, -EXACT_PIXEL_LIMIT, false, false, false);
    let screen = Size { width: 16_777_216, height: 16_777_216 };
    assert!(fits_overlay(input, screen));
    let raw = translate_input(input, screen);
    match &raw.events[0] {
        egui::Event::PointerMoved(pos) => {
            assert_eq!(pos.x as i64, 16_777_216);
            assert_eq!(pos.y as i64, -16_777_216);
        }
        other => panic!("unexpected event {:?}", other),
    }
    let rect = raw.screen_rect.unwrap();
    assert_eq!(rect.width() as i64, 16_777_216);
    assert_eq!(rect.height() as i64, 16_777_216);
}

#[test]
fn positions_beyond_the_limit_do_not_fit() {
    assert_eq!(EXACT_PIXEL_LIMIT, 16_777_216);
    assert!(fits_overlay(pointer(0, 0, false, false, false), SCREEN));
    assert!(!fits_overlay(pointer(EXACT_PIXEL_LIMIT + 1, 0, false, false, false), SCREEN));
    assert!(!fits_overlay(pointer(0, -EXACT_PIXEL_LIMIT - 1, false, false, false), SCREEN));
    assert!(!fits_overlay(pointer(i32::MIN, 0, false, false, false), SCREEN));
    let origin = pointer(0, 0, false, false, false);
    assert!(!fits_overlay(origin, Size { width: 16_777_217, height: 1 }));
    assert!(!fits_overlay(origin, Size { width: 1, height: u32::MAX }));
    assert!(fits_overlay(origin, Size { width: 0, height: 0 }));
}
