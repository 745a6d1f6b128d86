use sketch_harness::config::{DisplayConfig, MouseScale, Ratio};
use sketch_harness::error::ConfigurationError;
use sketch_harness::geometry::{Position, Size};
use sketch_harness::placement::PointerSample;

fn size(width: u32, height: u32) -> Size {
    Size { width, height }
}

#[test]
fn configuration_keeps_what_it_was_given() {
    let c = DisplayConfig::new(size(1280, 720), Some(size(240, 160)), false).unwrap();
    assert_eq!(c.window_size(), size(1280, 720));
    assert_eq!(c.logical_size(), Some(size(240, 160)));
    assert!(!c.fullscreen());
    let d = DisplayConfig::new(size(1, 1), None, true).unwrap();
    assert_eq!(d.window_size(), size(1, 1));
    assert_eq!(d.logical_size(), None);
    assert!(d.fullscreen());
}

#[test]
fn window_without_extent_is_refused() {
    for w in [size(0, 720), size(1280, 0), size(0, 0)] {
        let r = DisplayConfig::new(w, None, false);
        assert_eq!(r.unwrap_err(), ConfigurationError::ZeroWindowDimension);
    }
}

#[test]
fn logical_size_without_extent_is_refused() {
    for l in [size(0, 160), size(240, 0), size(0, 0)] {
        let r = DisplayConfig::new(size(1280, 720), Some(l), false);
        assert_eq!(r.unwrap_err(), ConfigurationError::ZeroLogicalDimension);
    }
}

#[test]
fn window_is_checked_before_the_logical_size() {
    let r = DisplayConfig::new(size(0, 720), Some(size(0, 0)), true);
    assert_eq!(r.unwrap_err(), ConfigurationError::ZeroWindowDimension);
}

#[test]
fn display_is_the_window_unless_fullscreen() {
    let windowed = DisplayConfig::new(size(1280, 720), None, false).unwrap();
    assert_eq!(windowed.display_size(size(1920, 1080)), size(1280, 720));
    let full = DisplayConfig::new(size(1280, 720), None, true).unwrap();
    assert_eq!(full.display_size(size(1920, 1080)), size(1920, 1080));
}

#[test]
fn mouse_scale_is_logical_over_window() {
    let c = DisplayConfig::new(size(1280, 720), Some(size(240, 160)), false).unwrap();
    assert_eq!(
        c.mouse_scale(),
        Some(MouseScale {
            x: Ratio { numerator: 240, denominator: 1280 },
            y: Ratio { numerator: 160, denominator: 720 },
        })
    );
}

#[test]
fn no_mouse_scale_without_a_logical_size() {
    let c = DisplayConfig::new(size(1280, 720), None, false).unwrap();
    assert_eq!(c.mouse_scale(), None);
}

#[test]
fn configured_remap_follows_the_logical_size() {
    let low = DisplayConfig::new(size(1280, 720), Some(size(240, 160)), false).unwrap();
    assert_eq!(low.remap_pointer(PointerSample { x: 640, y: 360 }), Position { x: 120, y: 80 });
    let native = DisplayConfig::new(size(1280, 720), None, false).unwrap();
    assert_eq!(native.remap_pointer(PointerSample { x: 640, y: 360 }), Position { x: 640, y: 360 });
    let same = DisplayConfig::new(size(1280, 720), Some(size(1280, 720)), false).unwrap();
    assert_eq!(same.remap_pointer(PointerSample { x: -3, y: 719 }), Position { x: -3, y: 719 });
}

#[test]
fn size_is_positive_only_with_both_sides() {
    assert!(size(1, 1).is_positive());
    assert!(!size(0, 1).is_positive());
    assert!(!size(1, 0).is_positive());
    assert!(!size(0, 0).is_positive());
}
