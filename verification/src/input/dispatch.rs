//! What the raw events of one device do, one after the other.
//!
//! A raw event is decoded first: by its type and code it becomes an axis
//! value, a button, a marker, or the answer of the keyboard to a key. The
//! decoded events of a batch are then applied in order. Touch axes fill the
//! slot table; relative axes move the pointer and turn the wheel; buttons and
//! keys are reported at once; and the marker that ends a frame reports what
//! has gathered: the events of the touch gesture, or the move of the mouse,
//! and then the scroll of the wheel.

use vstd::prelude::*;
use crate::input::codes;
use crate::input::event::PhysicalPosition;
use crate::input::event::PointerEventButton;
use crate::input::event::WindowEvent;
use crate::input::keyboard::key_event_shape;
use crate::input::keyboard::KeyboardStrategy;
use crate::input::touch::axis_step;
use crate::input::touch::clamp;
use crate::input::touch::elapsed_ms;
use crate::input::touch::frame_end_step;
use crate::input::touch::gesture_frame;
use crate::input::touch::mt_report_step;
use crate::input::touch::screen_max;
use crate::input::touch::AbsInfo;
use crate::input::touch::TouchState;

verus! {

/// At least this many milliseconds lie between two reported moves.
pub const MOVE_THROTTLE_MS: u64 = 8;

/// One notch of a wheel scrolls by this many pixels.
pub const WHEEL_STEP: i64 = 20;

/// One event as a device delivers it.
#[derive(Clone, Copy, Debug, PartialEq, Eq, Structural)]
pub struct RawEvent {
    /// The event's type.
    pub kind: u16,
    /// The axis, key or marker.
    pub code: u16,
    /// The axis value, or 0, 1 or 2 for a key released, pressed or repeated.
    pub value: i32,
}

/// One event of a device after decoding.
#[derive(Clone, Copy, Debug, PartialEq, Eq, Structural)]
pub enum DeviceEvent {
    /// A value of an absolute axis.
    AbsoluteAxis { code: u16, value: i32 },
    /// A horizontal move of a mouse.
    RelativeX { value: i32 },
    /// A vertical move of a mouse.
    RelativeY { value: i32 },
    /// A turn of the vertical wheel.
    Wheel { value: i32 },
    /// A turn of the horizontal wheel.
    HorizontalWheel { value: i32 },
    /// A pointer button.
    Button { button: PointerEventButton, value: i32 },
    /// A key of a keyboard, with the event that the keyboard made of it.
    Key { event: Option<WindowEvent> },
    /// The marker that ends one contact of a protocol-A frame.
    MtReport,
    /// The marker that ends a frame.
    Report,
    /// Anything else.
    Ignored,
}

/// The pointer button that a key code stands for, if it stands for one.
pub open spec fn pointer_button(code: u16) -> Option<PointerEventButton> {
    if code == codes::BTN_LEFT || code == codes::BTN_TOUCH {
        Some(PointerEventButton::Left)
    } else if code == codes::BTN_RIGHT {
        Some(PointerEventButton::Right)
    } else if code == codes::BTN_MIDDLE {
        Some(PointerEventButton::Middle)
    } else if code == codes::BTN_SIDE {
        Some(PointerEventButton::Back)
    } else if code == codes::BTN_EXTRA {
        Some(PointerEventButton::Forward)
    } else {
        None
    }
}

/// Whether the event is a key of a keyboard: a key that is no pointer button.
pub open spec fn is_keyboard_key(ev: RawEvent) -> bool {
    ev.kind == codes::EV_KEY && pointer_button(ev.code) is None
}

/// The decoded event, given the keyboard's answer where the event is a key of
/// a keyboard.
pub open spec fn decode(ev: RawEvent, answer: Option<WindowEvent>) -> DeviceEvent {
    if ev.kind == codes::EV_ABS {
        DeviceEvent::AbsoluteAxis { code: ev.code, value: ev.value }
    } else if ev.kind == codes::EV_REL {
        if ev.code == codes::REL_X {
            DeviceEvent::RelativeX { value: ev.value }
        } else if ev.code == codes::REL_Y {
            DeviceEvent::RelativeY { value: ev.value }
        } else if ev.code == codes::REL_WHEEL {
            DeviceEvent::Wheel { value: ev.value }
        } else if ev.code == codes::REL_HWHEEL {
            DeviceEvent::HorizontalWheel { value: ev.value }
        } else {
            DeviceEvent::Ignored
        }
    } else if ev.kind == codes::EV_KEY {
        match pointer_button(ev.code) {
            Some(button) => DeviceEvent::Button { button, value: ev.value },
            None => DeviceEvent::Key { event: answer },
        }
    } else if ev.kind == codes::EV_SYN {
        if ev.code == codes::SYN_MT_REPORT {
            DeviceEvent::MtReport
        } else if ev.code == codes::SYN_REPORT {
            DeviceEvent::Report
        } else {
            DeviceEvent::Ignored
        }
    } else {
        DeviceEvent::Ignored
    }
}

/// The keyboard's answer that a decoded event holds.
pub open spec fn answer_in(d: DeviceEvent) -> Option<WindowEvent> {
    match d {
        DeviceEvent::Key { event } => event,
        _ => None,
    }
}

/// Whether `d` is a decoding of `ev`: the decoded event under some answer of
/// the keyboard that has the shape of a key event of that kind.
pub open spec fn is_decoding(ev: RawEvent, d: DeviceEvent) -> bool {
    d == decode(ev, answer_in(d)) && key_event_shape(ev.value, answer_in(d))
}

/// Whether `decoded` decodes `events` one by one.
pub open spec fn decodes(events: Seq<RawEvent>, decoded: Seq<DeviceEvent>) -> bool {
    &&& decoded.len() == events.len()
    &&& forall|i: int| 0 <= i < events.len() ==> is_decoding(events[i], #[trigger] decoded[i])
}

/// Whether the keyboard can go from `before` to `after` on the event `ev`,
/// decoded to `d`: a key of a keyboard is answered by the keyboard, and
/// nothing else touches it.
pub open spec fn keyboard_step<K: KeyboardStrategy>(
    before: K,
    ev: RawEvent,
    d: DeviceEvent,
    after: K,
) -> bool {
    if is_keyboard_key(ev) {
        before.answers(ev.code, ev.value, &after, answer_in(d))
    } else {
        after == before
    }
}

/// Whether the keyboard can go from `first` to `last` on `events`, decoded to
/// `decoded`: the events are taken in order, each on the keyboard that the
/// one before has left.
#[verifier::opaque]
pub open spec fn keyboard_run<K: KeyboardStrategy>(
    first: K,
    events: Seq<RawEvent>,
    decoded: Seq<DeviceEvent>,
    last: K,
) -> bool
    decreases events.len(),
{
    if events.len() == 0 {
        decoded.len() == 0 && last == first
    } else {
        &&& decoded.len() == events.len()
        &&& exists|middle: K|
            {
                &&& keyboard_run(first, events.drop_last(), decoded.drop_last(), middle)
                &&& #[trigger] keyboard_step(middle, events.last(), decoded.last(), last)
            }
    }
}

/// Without events the keyboard stays as it is.
pub proof fn lemma_keyboard_run_empty<K: KeyboardStrategy>(k: K)
    ensures
        keyboard_run(k, Seq::<RawEvent>::empty(), Seq::<DeviceEvent>::empty(), k),
{
    reveal(keyboard_run);
}

/// One more event extends a run of the keyboard.
pub proof fn lemma_keyboard_run_push<K: KeyboardStrategy>(
    first: K,
    events: Seq<RawEvent>,
    decoded: Seq<DeviceEvent>,
    middle: K,
    ev: RawEvent,
    d: DeviceEvent,
    last: K,
)
    requires
        keyboard_run(first, events, decoded, middle),
        decoded.len() == events.len(),
        keyboard_step(middle, ev, d, last),
    ensures
        keyboard_run(first, events.push(ev), decoded.push(d), last),
{
    reveal(keyboard_run);
    let longer = events.push(ev);
    let longer_decoded = decoded.push(d);
    assert(longer.drop_last() =~= events);
    assert(longer_decoded.drop_last() =~= decoded);
    assert(longer.last() == ev);
    assert(longer_decoded.last() == d);
    assert(keyboard_run(first, longer.drop_last(), longer_decoded.drop_last(), middle));
    assert(keyboard_step(middle, longer.last(), longer_decoded.last(), last));
}

/// What stays the same while the events of one device are applied.
pub struct Setting {
    pub screen_width: u32,
    pub screen_height: u32,
    pub is_protocol_b: bool,
    pub abs_x_info: Option<AbsInfo>,
    pub abs_y_info: Option<AbsInfo>,
    /// The time, in milliseconds.
    pub now: u64,
}

/// What changes while the events of one device are applied.
pub struct Progress {
    /// The pointer, shared by all devices.
    pub pointer_pos: PhysicalPosition,
    /// Whether a touch holds the left button, shared by all devices.
    pub is_left_pressed: bool,
    /// When a move was last reported, shared by all devices.
    pub last_move_time: u64,
    /// The touch state of the device.
    pub touch: TouchState,
    /// Whether the mouse has moved since the last frame.
    pub sync_needed: bool,
    /// Notches of the horizontal wheel since the last frame.
    pub wheel_dx: int,
    /// Notches of the vertical wheel since the last frame.
    pub wheel_dy: int,
    /// The events so far.
    pub output: Seq<WindowEvent>,
}

/// Whether a move may be reported at `now`, when the last one was at `last`.
pub open spec fn move_due(last: u64, now: u64) -> bool {
    elapsed_ms(last, now) >= MOVE_THROTTLE_MS
}

/// The events that the throttle lets through, and the time of the last move.
pub struct Throttled {
    pub kept: Seq<WindowEvent>,
    pub last_move_time: u64,
}

/// The throttle on moves: of `events`, a move passes only where one is due,
/// and it is then the last move; every other event passes.
pub open spec fn throttle(events: Seq<WindowEvent>, last: u64, now: u64) -> Throttled
    decreases events.len(),
{
    if events.len() == 0 {
        Throttled { kept: seq![], last_move_time: last }
    } else {
        let before = throttle(events.drop_last(), last, now);
        let e = events.last();
        if e is PointerMoved {
            if move_due(before.last_move_time, now) {
                Throttled { kept: before.kept.push(e), last_move_time: now }
            } else {
                before
            }
        } else {
            Throttled { kept: before.kept.push(e), ..before }
        }
    }
}

/// `v` limited to what a scroll delta can hold.
pub open spec fn clamp_delta(v: int) -> i64 {
    clamp(v, i64::MIN as int, i64::MAX as int) as i64
}

/// The pointer after a relative move by `value` along an axis of the screen
/// that is `extent` pixels long.
pub open spec fn moved_coord(coord: i32, value: i32, extent: u32) -> i32 {
    clamp(coord + value, 0, screen_max(extent)) as i32
}

/// What the marker that ends a frame does. A protocol-A device ends its frame
/// of contacts. A touchscreen then reports its gesture, moves throttled; any
/// other device reports the move of the mouse, if there was one and a move is
/// due. Last, the wheel reports its scroll, if it has turned.
pub open spec fn report_step(p: Progress, s: Setting) -> Progress {
    let touch = if s.is_protocol_b {
        p.touch
    } else {
        frame_end_step(p.touch)
    };
    let reported = if s.abs_x_info is Some {
        let o = gesture_frame(
            touch,
            p.pointer_pos,
            p.is_left_pressed,
            s.screen_width,
            s.screen_height,
            s.abs_x_info,
            s.abs_y_info,
            s.now,
        );
        let t = throttle(o.events, p.last_move_time, s.now);
        Progress {
            touch: o.touch,
            pointer_pos: o.pointer_pos,
            is_left_pressed: o.is_left_pressed,
            last_move_time: t.last_move_time,
            output: p.output + t.kept,
            ..p
        }
    } else if p.sync_needed && move_due(p.last_move_time, s.now) {
        Progress {
            touch,
            sync_needed: false,
            last_move_time: s.now,
            output: p.output.push(WindowEvent::PointerMoved { position: p.pointer_pos }),
            ..p
        }
    } else {
        Progress { touch, sync_needed: false, ..p }
    };
    if reported.wheel_dx != 0 || reported.wheel_dy != 0 {
        Progress {
            wheel_dx: 0,
            wheel_dy: 0,
            output: reported.output.push(
                WindowEvent::PointerScrolled {
                    position: reported.pointer_pos,
                    delta_x: clamp_delta(reported.wheel_dx * WHEEL_STEP),
                    delta_y: clamp_delta(reported.wheel_dy * WHEEL_STEP),
                },
            ),
            ..reported
        }
    } else {
        reported
    }
}

/// What one decoded event does.
pub open spec fn step(p: Progress, s: Setting, ev: DeviceEvent) -> Progress {
    match ev {
        DeviceEvent::AbsoluteAxis { code, value } => Progress {
            touch: axis_step(p.touch, code, value, s.is_protocol_b),
            ..p
        },
        DeviceEvent::RelativeX { value } => Progress {
            pointer_pos: PhysicalPosition {
                x: moved_coord(p.pointer_pos.x, value, s.screen_width),
                y: p.pointer_pos.y,
            },
            sync_needed: true,
            ..p
        },
        DeviceEvent::RelativeY { value } => Progress {
            pointer_pos: PhysicalPosition {
                x: p.pointer_pos.x,
                y: moved_coord(p.pointer_pos.y, value, s.screen_height),
            },
            sync_needed: true,
            ..p
        },
        DeviceEvent::Wheel { value } => Progress { wheel_dy: p.wheel_dy + value, ..p },
        DeviceEvent::HorizontalWheel { value } => Progress { wheel_dx: p.wheel_dx + value, ..p },
        DeviceEvent::Button { button, value } => if s.abs_x_info is None {
            Progress {
                output: p.output.push(
                    if value == 1 {
                        WindowEvent::PointerPressed { position: p.pointer_pos, button }
                    } else {
                        WindowEvent::PointerReleased { position: p.pointer_pos, button }
                    },
                ),
                ..p
            }
        } else {
            p
        },
        DeviceEvent::Key { event } => match event {
            Some(e) => Progress { output: p.output.push(e), ..p },
            None => p,
        },
        DeviceEvent::MtReport => if s.is_protocol_b {
            p
        } else {
            Progress { touch: mt_report_step(p.touch), ..p }
        },
        DeviceEvent::Report => report_step(p, s),
        DeviceEvent::Ignored => p,
    }
}

/// What the decoded events do, one after the other.
pub open spec fn run(p: Progress, s: Setting, events: Seq<DeviceEvent>) -> Progress
    decreases events.len(),
{
    if events.len() == 0 {
        p
    } else {
        step(run(p, s, events.drop_last()), s, events.last())
    }
}

/// Finds the pointer button that a key code stands for.
pub fn map_key_to_pointer_button(code: u16) -> (r: Option<PointerEventButton>)
    ensures
        r == pointer_button(code),
{
    if code == codes::BTN_LEFT || code == codes::BTN_TOUCH {
        Some(PointerEventButton::Left)
    } else if code == codes::BTN_RIGHT {
        Some(PointerEventButton::Right)
    } else if code == codes::BTN_MIDDLE {
        Some(PointerEventButton::Middle)
    } else if code == codes::BTN_SIDE {
        Some(PointerEventButton::Back)
    } else if code == codes::BTN_EXTRA {
        Some(PointerEventButton::Forward)
    } else {
        None
    }
}

/// Tests whether the event is a key of a keyboard.
pub fn is_key_of_keyboard(ev: RawEvent) -> (r: bool)
    ensures
        r == is_keyboard_key(ev),
{
    ev.kind == codes::EV_KEY && map_key_to_pointer_button(ev.code).is_none()
}

/// Decodes one event, given the keyboard's answer.
pub fn decode_event(ev: RawEvent, answer: Option<WindowEvent>) -> (d: DeviceEvent)
    ensures
        d == decode(ev, answer),
{
    if ev.kind == codes::EV_ABS {
        DeviceEvent::AbsoluteAxis { code: ev.code, value: ev.value }
    } else if ev.kind == codes::EV_REL {
        if ev.code == codes::REL_X {
            DeviceEvent::RelativeX { value: ev.value }
        } else if ev.code == codes::REL_Y {
            DeviceEvent::RelativeY { value: ev.value }
        } else if ev.code == codes::REL_WHEEL {
            DeviceEvent::Wheel { value: ev.value }
        } else if ev.code == codes::REL_HWHEEL {
            DeviceEvent::HorizontalWheel { value: ev.value }
        } else {
            DeviceEvent::Ignored
        }
    } else if ev.kind == codes::EV_KEY {
        match map_key_to_pointer_button(ev.code) {
            Some(button) => DeviceEvent::Button { button, value: ev.value },
            None => DeviceEvent::Key { event: answer },
        }
    } else if ev.kind == codes::EV_SYN {
        if ev.code == codes::SYN_MT_REPORT {
            DeviceEvent::MtReport
        } else if ev.code == codes::SYN_REPORT {
            DeviceEvent::Report
        } else {
            DeviceEvent::Ignored
        }
    } else {
        DeviceEvent::Ignored
    }
}

} // verus!
