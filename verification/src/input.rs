//! Input translation: the little that the host knows of the pointer, put
//! into the overlay library's own list of events.
//!
//! The pointer's position is always passed on. A button event follows it
//! only in a frame in which the primary button went down or came up.

use vstd::prelude::*;
use crate::geometry::Size;
use crate::placement::PointerSample;

verus! {

/// The largest coordinate that the overlay library's number format holds
/// exactly, pixel for pixel.
pub const EXACT_PIXEL_LIMIT: i32 = 16_777_216;

/// What the host reports of the pointer in one frame.
#[derive(Clone, Copy, Debug, PartialEq, Eq, Structural)]
pub struct PointerInput {
    /// Where the pointer is, in window pixels.
    pub position: PointerSample,
    /// The primary button went down in this frame.
    pub pressed: bool,
    /// The primary button came up in this frame.
    pub released: bool,
    /// The primary button is down now.
    pub down: bool,
}

/// An event as the overlay is told it.
#[derive(Clone, Copy, Debug, PartialEq, Eq, Structural)]
pub enum OverlayEvent {
    /// The pointer is at this place.
    PointerMoved { x: i32, y: i32 },
    /// The primary button changed at this place, with no modifier key
    /// held; `pressed` says whether it is down now.
    PrimaryButton { x: i32, y: i32, pressed: bool },
}

/// The events of one frame: where the pointer is, and after that the
/// button's change if it changed.
pub open spec fn pointer_events_of(input: PointerInput) -> Seq<OverlayEvent> {
    let moved = OverlayEvent::PointerMoved { x: input.position.x, y: input.position.y };
    if input.pressed || input.released {
        seq![
            moved,
            OverlayEvent::PrimaryButton {
                x: input.position.x,
                y: input.position.y,
                pressed: input.down,
            },
        ]
    } else {
        seq![moved]
    }
}

/// Whether the overlay library's number format holds the coordinate
/// exactly.
pub open spec fn is_exact_pixel(c: int) -> bool {
    -(EXACT_PIXEL_LIMIT as int) <= c <= EXACT_PIXEL_LIMIT as int
}

/// Whether the pointer's place and the screen's size can be handed to the
/// overlay without rounding.
pub open spec fn spec_fits_overlay(input: PointerInput, screen_size: Size) -> bool {
    &&& is_exact_pixel(input.position.x as int)
    &&& is_exact_pixel(input.position.y as int)
    &&& is_exact_pixel(screen_size.width as int)
    &&& is_exact_pixel(screen_size.height as int)
}

/// Whether the pointer's place and the screen's size can be handed to the
/// overlay without rounding.
#[verifier::when_used_as_spec(spec_fits_overlay)]
pub fn fits_overlay(input: PointerInput, screen_size: Size) -> (b: bool)
    ensures
        b == spec_fits_overlay(input, screen_size),
{
    -EXACT_PIXEL_LIMIT <= input.position.x && input.position.x <= EXACT_PIXEL_LIMIT
        && -EXACT_PIXEL_LIMIT <= input.position.y && input.position.y <= EXACT_PIXEL_LIMIT
        && screen_size.width <= 16_777_216 && screen_size.height <= 16_777_216
}

/// The events of one frame, in the order in which the overlay is to see
/// them.
pub fn pointer_events(input: PointerInput) -> (events: Vec<OverlayEvent>)
    ensures
        events@ == pointer_events_of(input),
{
    let mut events: Vec<OverlayEvent> = Vec::new();
    events.push(OverlayEvent::PointerMoved { x: input.position.x, y: input.position.y });
    if input.pressed || input.released {
        events.push(
            OverlayEvent::PrimaryButton {
                x: input.position.x,
                y: input.position.y,
                pressed: input.down,
            },
        );
    }
    assert(events@ =~= pointer_events_of(input));
    events
}

/// `egui::RawInput`, carried through as it is: nothing inside it is seen
/// here but through the two names below.
#[verifier::external_type_specification]
#[verifier::external_body]
pub struct ExRawInput(egui::RawInput);

/// The events that a raw input holds, in order. A pointer event stands
/// for its place in whole pixels; a button event is one of the primary
/// button with no modifier key.
pub uninterp spec fn raw_input_events(raw: egui::RawInput) -> Seq<OverlayEvent>;

/// The size of the area that a raw input gives the overlay, where it
/// names one: a rectangle that starts at the origin.
pub uninterp spec fn raw_input_screen(raw: egui::RawInput) -> Option<Size>;

/// `egui::RawInput::default`: a raw input that holds no event and names
/// no screen area.
#[verifier::external_body]
fn raw_input_default() -> (raw: egui::RawInput)
    ensures
        raw_input_events(raw) == Seq::<OverlayEvent>::empty(),
        raw_input_screen(raw) == None::<Size>,
{
    egui::RawInput::default()
}

/// Appends `egui::Event::PointerMoved`, at the place that `egui::Pos2::new`
/// makes of the two coordinates, to the raw input's `events`. Nothing else
/// of the raw input changes.
#[verifier::external_body]
fn raw_input_push_pointer_moved(raw: &mut egui::RawInput, x: i32, y: i32)
    requires
        is_exact_pixel(x as int),
        is_exact_pixel(y as int),
    ensures
        raw_input_events(*final(raw)) == raw_input_events(*old(raw)).push(
            OverlayEvent::PointerMoved { x, y },
        ),
        raw_input_screen(*final(raw)) == raw_input_screen(*old(raw)),
{
    raw.events.push(egui::Event::PointerMoved(egui::Pos2::new(x as _, y as _)));
}

/// Appends `egui::Event::PointerButton` for `egui::PointerButton::Primary`,
/// at the place that `egui::Pos2::new` makes of the two coordinates and
/// with the modifiers of `egui::Modifiers::default` (none), to the raw
/// input's `events`. Nothing else of the raw input changes.
#[verifier::external_body]
fn raw_input_push_primary_button(raw: &mut egui::RawInput, x: i32, y: i32, pressed: bool)
    requires
        is_exact_pixel(x as int),
        is_exact_pixel(y as int),
    ensures
        raw_input_events(*final(raw)) == raw_input_events(*old(raw)).push(
            OverlayEvent::PrimaryButton { x, y, pressed },
        ),
        raw_input_screen(*final(raw)) == raw_input_screen(*old(raw)),
{
    raw.events.push(
        egui::Event::PointerButton {
            pos: egui::Pos2::new(x as _, y as _),
            button: egui::PointerButton::Primary,
            pressed,
            modifiers: egui::Modifiers::default(),
        },
    );
}

/// Sets the raw input's `screen_rect` to what `egui::Rect::from_min_size`
/// makes of the origin and the size. The events stay as they are.
#[verifier::external_body]
fn raw_input_set_screen(raw: &mut egui::RawInput, screen_size: Size)
    requires
        is_exact_pixel(screen_size.width as int),
        is_exact_pixel(screen_size.height as int),
    ensures
        raw_input_events(*final(raw)) == raw_input_events(*old(raw)),
        raw_input_screen(*final(raw)) == Some(screen_size),
{
    raw.screen_rect = Some(
        egui::Rect::from_min_size(
            egui::Pos2::ZERO,
            egui::Vec2::new(screen_size.width as _, screen_size.height as _),
        ),
    );
}

/// The overlay's input for one frame: the frame's pointer events, and the
/// whole screen as the area to lay out in.
pub fn translate_input(input: PointerInput, screen_size: Size) -> (raw: egui::RawInput)
    requires
        fits_overlay(input, screen_size),
    ensures
        raw_input_events(raw) == pointer_events_of(input),
        raw_input_screen(raw) == Some(screen_size),
{
    let mut raw = raw_input_default();
    raw_input_push_pointer_moved(&mut raw, input.position.x, input.position.y);
    if input.pressed || input.released {
        raw_input_push_primary_button(&mut raw, input.position.x, input.position.y, input.down);
    }
    raw_input_set_screen(&mut raw, screen_size);
    assert(raw_input_events(raw) =~= pointer_events_of(input));
    raw
}

} // verus!
