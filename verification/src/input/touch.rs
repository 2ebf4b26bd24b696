//! Touch handling: the slot table that decodes multi-touch axis events, and
//! the gesture recognizer that turns each frame of it into pointer events.
//!
//! Two wire formats feed the slot table. In protocol B the device names the
//! slot it is about to describe and assigns tracking ids; in protocol A it
//! reports the contacts one after the other, separated by a marker, and a
//! contact that is no longer reported has been lifted.

use vstd::prelude::*;
use crate::input::event::PhysicalPosition;
use crate::input::event::PointerEventButton;
use crate::input::event::WindowEvent;

verus! {

/// Number of slots in the table.
pub const MAX_SLOTS: usize = 10;

/// Code of the legacy single-touch X axis.
pub const ABS_X: u16 = 0x00;

/// Code of the legacy single-touch Y axis.
pub const ABS_Y: u16 = 0x01;

/// Code of the protocol-B slot selector.
pub const ABS_MT_SLOT: u16 = 0x2f;

/// Code of the multi-touch X position.
pub const ABS_MT_POSITION_X: u16 = 0x35;

/// Code of the multi-touch Y position.
pub const ABS_MT_POSITION_Y: u16 = 0x36;

/// Code of the protocol-B tracking id.
pub const ABS_MT_TRACKING_ID: u16 = 0x39;

/// State of one touch contact.
#[derive(Clone, Copy, Debug, PartialEq, Eq, Structural)]
pub struct SlotState {
    /// Whether a finger is down in this slot.
    pub active: bool,
    /// Tracking id of the contact.
    pub id: i32,
    /// Raw X coordinate.
    pub x: i32,
    /// Raw Y coordinate.
    pub y: i32,
}

impl SlotState {
    /// The inactive slot at the origin.
    pub open spec fn empty() -> SlotState {
        SlotState { active: false, id: 0, x: 0, y: 0 }
    }
}

impl Default for SlotState {
    fn default() -> (s: SlotState)
        ensures
            s == SlotState::empty(),
    {
        SlotState { active: false, id: 0, x: 0, y: 0 }
    }
}

/// The mode of the gesture recognizer.
#[derive(Clone, Copy, Debug, PartialEq, Eq, Structural)]
pub enum GestureMode {
    /// No finger is down.
    Idle,
    /// One finger drives the pointer with the left button held.
    Pointer,
    /// One finger drives the pointer with the right button held, after a
    /// long press.
    RightDrag,
    /// Two or more fingers scroll.
    Scroll,
    /// A scroll has ended with one finger still down: nothing is reported
    /// until every finger is lifted.
    WaitRelease,
}

/// The touch state of one device: the slot table that the axis events of the
/// current and earlier frames have written, and the state of the gesture in
/// progress.
#[derive(Clone, Copy, Debug)]
pub struct TouchState {
    /// The contacts.
    pub slots: [SlotState; MAX_SLOTS],
    /// The slot that position and tracking events write to.
    pub current_slot: usize,
    /// Mode of the gesture recognizer.
    pub gesture_mode: GestureMode,
    /// When the first finger of the gesture came down, in milliseconds.
    pub gesture_start_time: Option<u64>,
    /// Centroid of the first frame of the gesture.
    pub initial_centroid: Option<PhysicalPosition>,
    /// Centroid of the previous scroll frame.
    pub last_centroid: Option<PhysicalPosition>,
    /// The last pointer position that was reported as a move.
    pub last_reported_pos: Option<PhysicalPosition>,
    /// Largest number of fingers seen during the gesture.
    pub max_fingers_down: usize,
    /// Whether the finger has drifted too far for a long press.
    pub long_press_invalidated: bool,
}

/// The state `t` with slot `i` replaced by `s`.
pub open spec fn with_slot(t: TouchState, i: int, s: SlotState) -> TouchState {
    TouchState { slots: vstd::array::spec_array_update(t.slots, i, s), ..t }
}

/// What a tracking-id event does to a slot.
pub open spec fn with_tracking_id(s: SlotState, value: i32) -> SlotState {
    if value == -1 {
        SlotState { active: false, ..s }
    } else {
        SlotState { active: true, id: value, ..s }
    }
}

/// What one absolute-axis event does to the slot table.
///
/// A slot selector outside the table, and any multi-touch event while the
/// cursor is outside it, change nothing. The legacy axes always write to
/// slot 0 and activate it. A multi-touch position activates its slot only
/// where the device does not speak protocol B.
pub open spec fn axis_step(t: TouchState, code: u16, value: i32, is_protocol_b: bool) -> TouchState {
    let cur = t.current_slot as int;
    let in_table = t.current_slot < MAX_SLOTS;
    if code == ABS_MT_SLOT {
        if 0 <= value < MAX_SLOTS {
            TouchState { current_slot: value as usize, ..t }
        } else {
            t
        }
    } else if code == ABS_MT_TRACKING_ID {
        if in_table {
            with_slot(t, cur, with_tracking_id(t.slots[cur], value))
        } else {
            t
        }
    } else if code == ABS_MT_POSITION_X {
        if in_table {
            let s = t.slots[cur];
            with_slot(t, cur, SlotState { x: value, active: s.active || !is_protocol_b, ..s })
        } else {
            t
        }
    } else if code == ABS_MT_POSITION_Y {
        if in_table {
            let s = t.slots[cur];
            with_slot(t, cur, SlotState { y: value, active: s.active || !is_protocol_b, ..s })
        } else {
            t
        }
    } else if code == ABS_X {
        with_slot(t, 0, SlotState { x: value, active: true, ..t.slots[0] })
    } else if code == ABS_Y {
        with_slot(t, 0, SlotState { y: value, active: true, ..t.slots[0] })
    } else {
        t
    }
}

/// The state `t` with the slots from `i` on made inactive.
pub open spec fn deactivate_from(t: TouchState, i: int) -> TouchState
    decreases MAX_SLOTS - i,
{
    if i < 0 || i >= MAX_SLOTS {
        t
    } else {
        deactivate_from(with_slot(t, i, SlotState { active: false, ..t.slots[i] }), i + 1)
    }
}

/// What the marker that ends one contact of a protocol-A frame does: the
/// cursor moves to the next slot and stops at the last one.
pub open spec fn mt_report_step(t: TouchState) -> TouchState {
    TouchState {
        current_slot: if t.current_slot + 1 >= MAX_SLOTS {
            (MAX_SLOTS - 1) as usize
        } else {
            (t.current_slot + 1) as usize
        },
        ..t
    }
}

/// What the end of a protocol-A frame does: the slots at and after the cursor
/// become inactive and the cursor returns to slot 0.
pub open spec fn frame_end_step(t: TouchState) -> TouchState {
    TouchState { current_slot: 0, ..deactivate_from(t, t.current_slot as int) }
}

/// `deactivate_from` slot by slot: the slots from `i` on are inactive and
/// otherwise as they were, and nothing else has changed.
pub proof fn lemma_deactivate_from(t: TouchState, i: int)
    requires
        0 <= i,
    ensures
        deactivate_from(t, i).current_slot == t.current_slot,
        deactivate_from(t, i).same_gesture(t),
        forall|j: int|
            0 <= j < MAX_SLOTS ==> #[trigger] deactivate_from(t, i).slots[j] == (if j >= i {
                SlotState { active: false, ..t.slots[j] }
            } else {
                t.slots[j]
            }),
    decreases MAX_SLOTS - i,
{
    if i < MAX_SLOTS {
        lemma_deactivate_from(with_slot(t, i, SlotState { active: false, ..t.slots[i] }), i + 1);
    }
}

impl TouchState {
    /// The cursor is inside the table.
    pub open spec fn wf(self) -> bool {
        self.current_slot < MAX_SLOTS
    }

    /// Everything but the slot table and its cursor.
    pub open spec fn same_gesture(self, other: TouchState) -> bool {
        &&& self.gesture_mode == other.gesture_mode
        &&& self.gesture_start_time == other.gesture_start_time
        &&& self.initial_centroid == other.initial_centroid
        &&& self.last_centroid == other.last_centroid
        &&& self.last_reported_pos == other.last_reported_pos
        &&& self.max_fingers_down == other.max_fingers_down
        &&& self.long_press_invalidated == other.long_press_invalidated
    }

    /// The state of a device that has reported nothing yet: every slot
    /// inactive, the cursor on slot 0, no gesture.
    pub open spec fn is_fresh(self) -> bool {
        &&& forall|i: int| 0 <= i < MAX_SLOTS ==> self.slots[i] == SlotState::empty()
        &&& self.current_slot == 0
        &&& self.gesture_mode == GestureMode::Idle
        &&& self.gesture_start_time is None
        &&& self.initial_centroid is None
        &&& self.last_centroid is None
        &&& self.last_reported_pos is None
        &&& self.max_fingers_down == 0
        &&& !self.long_press_invalidated
    }

    /// A fresh state.
    pub fn new() -> (t: TouchState)
        ensures
            t.is_fresh(),
    {
        let s = SlotState { active: false, id: 0, x: 0, y: 0 };
        TouchState {
            slots: [s, s, s, s, s, s, s, s, s, s],
            current_slot: 0,
            gesture_mode: GestureMode::Idle,
            gesture_start_time: None,
            initial_centroid: None,
            last_centroid: None,
            last_reported_pos: None,
            max_fingers_down: 0,
            long_press_invalidated: false,
        }
    }

    /// Applies one absolute-axis event to the slot table.
    pub fn process_axis(&mut self, code: u16, value: i32, is_protocol_b: bool)
        ensures
            *final(self) == axis_step(*old(self), code, value, is_protocol_b),
    {
        if code == ABS_MT_SLOT {
            if 0 <= value && value < 10 {
                self.current_slot = value as usize;
            }
        } else if code == ABS_MT_TRACKING_ID {
            if self.current_slot < MAX_SLOTS {
                let mut s = self.slots[self.current_slot];
                if value == -1 {
                    s.active = false;
                } else {
                    s.active = true;
                    s.id = value;
                }
                self.slots[self.current_slot] = s;
            }
        } else if code == ABS_MT_POSITION_X {
            if self.current_slot < MAX_SLOTS {
                let mut s = self.slots[self.current_slot];
                s.x = value;
                if !is_protocol_b {
                    s.active = true;
                }
                self.slots[self.current_slot] = s;
            }
        } else if code == ABS_MT_POSITION_Y {
            if self.current_slot < MAX_SLOTS {
                let mut s = self.slots[self.current_slot];
                s.y = value;
                if !is_protocol_b {
                    s.active = true;
                }
                self.slots[self.current_slot] = s;
            }
        } else if code == ABS_X {
            let mut s = self.slots[0];
            s.x = value;
            s.active = true;
            self.slots[0] = s;
        } else if code == ABS_Y {
            let mut s = self.slots[0];
            s.y = value;
            s.active = true;
            self.slots[0] = s;
        }
    }

    /// Handles the marker that ends one contact of a protocol-A frame: the
    /// cursor moves to the next slot and stops at the last one, so that
    /// contacts beyond the table overwrite the last slot.
    pub fn sync_mt_report(&mut self)
        ensures
            *final(self) == mt_report_step(*old(self)),
            final(self).wf(),
    {
        if self.current_slot >= MAX_SLOTS - 1 {
            self.current_slot = MAX_SLOTS - 1;
        } else {
            self.current_slot = self.current_slot + 1;
        }
    }

    /// Ends a protocol-A frame: the slots at and after the cursor were not
    /// reported in it and become inactive, and the cursor returns to slot 0.
    pub fn finish_frame_protocol_a(&mut self)
        ensures
            *final(self) == frame_end_step(*old(self)),
            final(self).current_slot == 0,
            forall|i: int|
                0 <= i < MAX_SLOTS && i >= old(self).current_slot ==> final(self).slots[i] == (
                SlotState { active: false, ..old(self).slots[i] }),
            forall|i: int|
                0 <= i < MAX_SLOTS && i < old(self).current_slot ==> final(self).slots[i] == old(
                    self,
                ).slots[i],
            final(self).same_gesture(*old(self)),
    {
        let mut i: usize = self.current_slot;
        while i < MAX_SLOTS
            invariant
                old(self).current_slot <= i,
                self.current_slot == old(self).current_slot,
                self.same_gesture(*old(self)),
                forall|j: int|
                    0 <= j < MAX_SLOTS && old(self).current_slot <= j < i ==> self.slots[j] == (
                    SlotState { active: false, ..old(self).slots[j] }),
                forall|j: int|
                    0 <= j < MAX_SLOTS && !(old(self).current_slot <= j < i) ==> self.slots[j]
                        == old(self).slots[j],
            decreases MAX_SLOTS - i,
        {
            let mut s = self.slots[i];
            s.active = false;
            self.slots[i] = s;
            i = i + 1;
        }
        self.current_slot = 0;
        proof {
            lemma_deactivate_from(*old(self), old(self).current_slot as int);
            assert(self.slots =~= frame_end_step(*old(self)).slots);
        }
    }
}


/// A move of the finger is reported only where it is farther than this many
/// pixels, on either axis, from the last reported position.
pub const JITTER_THRESHOLD: i32 = 2;

/// A finger that drifts farther than this many pixels, on either axis, from
/// where it came down can no longer turn into a long press.
pub const TAP_DRIFT_THRESHOLD: i32 = 20;

/// A finger held longer than this many milliseconds, without drifting,
/// switches from the left to the right button.
pub const LONG_PRESS_DURATION_MS: u64 = 600;

/// A scroll delta is the movement of the centroid times this factor.
pub const SCROLL_SCALE: i64 = 2;

/// The raw range of one absolute axis, as the device reports it.
#[derive(Clone, Copy, Debug, PartialEq, Eq, Structural)]
pub struct AbsInfo {
    pub minimum: i32,
    pub maximum: i32,
}

/// What one frame does: the new touch state, the new shared pointer state,
/// and the events in the order in which they are emitted.
pub struct GestureOutcome {
    pub touch: TouchState,
    pub pointer_pos: PhysicalPosition,
    pub is_left_pressed: bool,
    pub events: Seq<WindowEvent>,
}

/// `a / b` rounded toward zero, for a positive `b`.
pub open spec fn div_toward_zero(a: int, b: int) -> int {
    if a >= 0 {
        a / b
    } else {
        -((-a) / b)
    }
}

/// `num / den` rounded to the nearest integer, halves away from zero, for a
/// positive `den`.
pub open spec fn div_round(num: int, den: int) -> int {
    if num >= 0 {
        (2 * num + den) / (2 * den)
    } else {
        -((2 * (-num) + den) / (2 * den))
    }
}

/// `v` limited to the range from `lo` to `hi`.
pub open spec fn clamp(v: int, lo: int, hi: int) -> int {
    if v < lo {
        lo
    } else if v > hi {
        hi
    } else {
        v
    }
}

/// The largest coordinate on a screen that is `extent` pixels wide or high.
/// A screen without pixels has the single coordinate 0.
pub open spec fn screen_max(extent: u32) -> int {
    if extent == 0 {
        0
    } else if extent - 1 > i32::MAX {
        i32::MAX as int
    } else {
        extent - 1
    }
}

/// The raw coordinate `val` as a screen coordinate: rescaled linearly from the
/// axis' raw range to `extent` pixels where the range is known and not empty,
/// taken as it is otherwise, and limited to the screen either way.
pub open spec fn map_coord(val: int, info: Option<AbsInfo>, extent: u32) -> int {
    let mapped = match info {
        Some(i) => if i.maximum - i.minimum > 0 {
            div_round((val - i.minimum) * extent, i.maximum - i.minimum)
        } else {
            val
        },
        None => val,
    };
    clamp(mapped, 0, screen_max(extent))
}

/// Whether `a` is farther than `threshold` from `b` on either axis.
pub open spec fn is_far(a: PhysicalPosition, b: PhysicalPosition, threshold: int) -> bool {
    ||| a.x - b.x > threshold
    ||| b.x - a.x > threshold
    ||| a.y - b.y > threshold
    ||| b.y - a.y > threshold
}

/// Whether a finger at `c` has moved enough to be reported, given the last
/// reported position.
pub open spec fn has_moved(last: Option<PhysicalPosition>, c: PhysicalPosition) -> bool {
    match last {
        Some(l) => is_far(c, l, JITTER_THRESHOLD as int),
        None => true,
    }
}

/// Milliseconds from `start` to `now`; none where the clock went back.
pub open spec fn elapsed_ms(start: u64, now: u64) -> int {
    if now >= start {
        now - start
    } else {
        0
    }
}

/// The start of a gesture: where fingers are down and no gesture is running,
/// one begins at `now` and `c`. The largest number of fingers is kept.
pub open spec fn begin_gesture(t: TouchState, fingers: nat, c: PhysicalPosition, now: u64) -> TouchState {
    if fingers == 0 {
        t
    } else if t.gesture_start_time is None {
        TouchState {
            gesture_start_time: Some(now),
            initial_centroid: Some(c),
            max_fingers_down: fingers as usize,
            long_press_invalidated: false,
            ..t
        }
    } else if t.max_fingers_down < fingers {
        TouchState { max_fingers_down: fingers as usize, ..t }
    } else {
        t
    }
}

/// A frame with two or more fingers: any held button is released first, left
/// before right, the pointer follows the centroid, and from the second such
/// frame on a change of the centroid scrolls.
pub open spec fn scroll_step(
    t: TouchState,
    pos: PhysicalPosition,
    pressed: bool,
    c: PhysicalPosition,
) -> GestureOutcome {
    let release_left = if pressed {
        seq![WindowEvent::PointerReleased { position: pos, button: PointerEventButton::Left }]
    } else {
        seq![]
    };
    let release_right = if t.gesture_mode == GestureMode::RightDrag {
        seq![WindowEvent::PointerReleased { position: pos, button: PointerEventButton::Right }]
    } else {
        seq![]
    };
    let scroll = match t.last_centroid {
        Some(last) => if t.gesture_mode == GestureMode::Scroll && (c.x != last.x || c.y != last.y) {
            seq![
                WindowEvent::PointerScrolled {
                    position: c,
                    delta_x: ((c.x - last.x) * SCROLL_SCALE) as i64,
                    delta_y: ((c.y - last.y) * SCROLL_SCALE) as i64,
                },
            ]
        } else {
            seq![]
        },
        None => seq![],
    };
    GestureOutcome {
        touch: TouchState { gesture_mode: GestureMode::Scroll, last_centroid: Some(c), ..t },
        pointer_pos: c,
        is_left_pressed: false,
        events: release_left + release_right + scroll,
    }
}

/// A frame with one finger. After a scroll nothing is reported until the
/// finger is lifted. During a right drag only moves are reported. Otherwise
/// the finger drives the pointer with the left button held, and a finger that
/// has stayed in place for longer than the long-press time switches to the
/// right button without moving the pointer.
pub open spec fn single_step(
    t: TouchState,
    pos: PhysicalPosition,
    pressed: bool,
    c: PhysicalPosition,
    now: u64,
) -> GestureOutcome {
    if t.gesture_mode == GestureMode::Scroll || t.gesture_mode == GestureMode::WaitRelease {
        GestureOutcome {
            touch: TouchState { gesture_mode: GestureMode::WaitRelease, ..t },
            pointer_pos: pos,
            is_left_pressed: pressed,
            events: seq![],
        }
    } else {
        let moved = has_moved(t.last_reported_pos, c);
        let pos1 = if moved {
            c
        } else {
            pos
        };
        let last1 = if moved {
            Some(c)
        } else {
            t.last_reported_pos
        };
        let ev_move = if moved {
            seq![WindowEvent::PointerMoved { position: c }]
        } else {
            seq![]
        };
        if t.gesture_mode == GestureMode::RightDrag {
            GestureOutcome {
                touch: TouchState { last_reported_pos: last1, ..t },
                pointer_pos: pos1,
                is_left_pressed: pressed,
                events: ev_move,
            }
        } else {
            let invalidated = t.long_press_invalidated || match t.initial_centroid {
                Some(start) => is_far(start, c, TAP_DRIFT_THRESHOLD as int),
                None => false,
            };
            let long = !invalidated && match t.gesture_start_time {
                Some(start) => elapsed_ms(start, now) > LONG_PRESS_DURATION_MS,
                None => false,
            };
            let ev_press = if pressed {
                seq![]
            } else {
                seq![WindowEvent::PointerPressed { position: pos1, button: PointerEventButton::Left }]
            };
            let ev_long = if long {
                seq![
                    WindowEvent::PointerReleased { position: pos1, button: PointerEventButton::Left },
                    WindowEvent::PointerPressed { position: pos1, button: PointerEventButton::Right },
                ]
            } else {
                seq![]
            };
            GestureOutcome {
                touch: TouchState {
                    gesture_mode: if long {
                        GestureMode::RightDrag
                    } else {
                        GestureMode::Pointer
                    },
                    long_press_invalidated: invalidated,
                    last_reported_pos: last1,
                    ..t
                },
                pointer_pos: pos1,
                is_left_pressed: !long,
                events: ev_move + ev_press + ev_long,
            }
        }
    }
}

/// A frame without fingers: the held button is released and the gesture is
/// over.
pub open spec fn lift_step(t: TouchState, pos: PhysicalPosition, pressed: bool) -> GestureOutcome {
    let right = t.gesture_mode == GestureMode::RightDrag;
    GestureOutcome {
        touch: TouchState {
            gesture_mode: GestureMode::Idle,
            gesture_start_time: None,
            initial_centroid: None,
            last_centroid: None,
            last_reported_pos: None,
            max_fingers_down: 0,
            long_press_invalidated: false,
            ..t
        },
        pointer_pos: pos,
        is_left_pressed: right && pressed,
        events: if right {
            seq![WindowEvent::PointerReleased { position: pos, button: PointerEventButton::Right }]
        } else if pressed {
            seq![WindowEvent::PointerReleased { position: pos, button: PointerEventButton::Left }]
        } else {
            seq![]
        },
    }
}

/// What a frame with `fingers` fingers down and the centroid at `c` does.
/// Two or more fingers take priority over one.
pub open spec fn gesture_step(
    t: TouchState,
    pos: PhysicalPosition,
    pressed: bool,
    fingers: nat,
    c: PhysicalPosition,
    now: u64,
) -> GestureOutcome {
    let t1 = begin_gesture(t, fingers, c, now);
    if fingers >= 2 {
        scroll_step(t1, pos, pressed, c)
    } else if fingers == 1 {
        single_step(t1, pos, pressed, c, now)
    } else {
        lift_step(t1, pos, pressed)
    }
}

impl TouchState {
    /// Number of active slots among the first `n`.
    pub open spec fn active_below(self, n: int) -> nat
        decreases n,
    {
        if n <= 0 {
            0
        } else {
            self.active_below(n - 1) + if self.slots[n - 1].active {
                1nat
            } else {
                0nat
            }
        }
    }

    /// Sum of the raw X coordinates of the active slots among the first `n`.
    pub open spec fn sum_x_below(self, n: int) -> int
        decreases n,
    {
        if n <= 0 {
            0
        } else {
            self.sum_x_below(n - 1) + if self.slots[n - 1].active {
                self.slots[n - 1].x as int
            } else {
                0
            }
        }
    }

    /// Sum of the raw Y coordinates of the active slots among the first `n`.
    pub open spec fn sum_y_below(self, n: int) -> int
        decreases n,
    {
        if n <= 0 {
            0
        } else {
            self.sum_y_below(n - 1) + if self.slots[n - 1].active {
                self.slots[n - 1].y as int
            } else {
                0
            }
        }
    }

    /// Number of fingers down.
    pub open spec fn finger_count(self) -> nat {
        self.active_below(MAX_SLOTS as int)
    }

    /// The centroid on the screen: the mean of the raw coordinates of the
    /// active slots, each axis rounded toward zero, mapped to the screen.
    /// Without fingers it is the image of the raw origin.
    pub open spec fn centroid(
        self,
        screen_width: u32,
        screen_height: u32,
        abs_x: Option<AbsInfo>,
        abs_y: Option<AbsInfo>,
    ) -> PhysicalPosition {
        let n = self.finger_count() as int;
        let cx = if n > 0 {
            div_toward_zero(self.sum_x_below(MAX_SLOTS as int), n)
        } else {
            0
        };
        let cy = if n > 0 {
            div_toward_zero(self.sum_y_below(MAX_SLOTS as int), n)
        } else {
            0
        };
        PhysicalPosition {
            x: map_coord(cx, abs_x, screen_width) as i32,
            y: map_coord(cy, abs_y, screen_height) as i32,
        }
    }
}

/// What the frame that the slot table of `t` holds does.
pub open spec fn gesture_frame(
    t: TouchState,
    pos: PhysicalPosition,
    pressed: bool,
    screen_width: u32,
    screen_height: u32,
    abs_x: Option<AbsInfo>,
    abs_y: Option<AbsInfo>,
    now: u64,
) -> GestureOutcome {
    gesture_step(
        t,
        pos,
        pressed,
        t.finger_count(),
        t.centroid(screen_width, screen_height, abs_x, abs_y),
        now,
    )
}


/// Maps the raw coordinate `val` to the screen.
pub fn map_coordinate(val: i32, info: &Option<AbsInfo>, extent: u32) -> (r: i32)
    ensures
        r == map_coord(val as int, *info, extent),
        0 <= r <= screen_max(extent),
{
    let hi: i32 = if extent == 0 {
        0
    } else if extent - 1 > 0x7fff_ffff {
        0x7fff_ffff
    } else {
        (extent - 1) as i32
    };
    let mut mapped: i128 = val as i128;
    match info {
        Some(i) => {
            let range: i128 = i.maximum as i128 - i.minimum as i128;
            if range > 0 {
                let offset: i128 = val as i128 - i.minimum as i128;
                let scale: i128 = extent as i128;
                assert(-0x1_0000_0000 * 0x1_0000_0000 <= offset * scale <= 0x1_0000_0000
                    * 0x1_0000_0000) by (nonlinear_arith)
                    requires
                        -0x1_0000_0000 <= offset <= 0x1_0000_0000,
                        0 <= scale <= 0x1_0000_0000,
                ;
                let num: i128 = offset * scale;
                if num >= 0 {
                    mapped = (2 * num + range) / (2 * range);
                } else {
                    mapped = -((2 * (-num) + range) / (2 * range));
                }
            }
        },
        None => {},
    }
    if mapped < 0 {
        0
    } else if mapped > hi as i128 {
        hi
    } else {
        mapped as i32
    }
}

/// `a / b` rounded toward zero.
fn divide_toward_zero(a: i64, b: i64) -> (r: i64)
    requires
        b > 0,
        a > i64::MIN,
    ensures
        r == div_toward_zero(a as int, b as int),
{
    if a >= 0 {
        a / b
    } else {
        -((-a) / b)
    }
}

/// Whether `a` is farther than `threshold` from `b` on either axis.
fn far_apart(a: PhysicalPosition, b: PhysicalPosition, threshold: i32) -> (r: bool)
    ensures
        r == is_far(a, b, threshold as int),
{
    let dx: i64 = a.x as i64 - b.x as i64;
    let dy: i64 = a.y as i64 - b.y as i64;
    let t: i64 = threshold as i64;
    dx > t || -dx > t || dy > t || -dy > t
}

impl TouchState {
    /// Counts the fingers down.
    pub fn count_fingers(&self) -> (n: usize)
        ensures
            n == self.finger_count(),
            n <= MAX_SLOTS,
    {
        let mut n: usize = 0;
        let mut i: usize = 0;
        while i < MAX_SLOTS
            invariant
                i <= MAX_SLOTS,
                n <= i,
                n == self.active_below(i as int),
            decreases MAX_SLOTS - i,
        {
            if self.slots[i].active {
                n = n + 1;
            }
            i = i + 1;
        }
        n
    }

    /// Computes the centroid of the fingers down, on the screen.
    pub fn screen_centroid(
        &self,
        screen_width: u32,
        screen_height: u32,
        abs_x: &Option<AbsInfo>,
        abs_y: &Option<AbsInfo>,
    ) -> (c: PhysicalPosition)
        ensures
            c == self.centroid(screen_width, screen_height, *abs_x, *abs_y),
            0 <= c.x <= screen_max(screen_width),
            0 <= c.y <= screen_max(screen_height),
    {
        let mut n: i64 = 0;
        let mut sum_x: i64 = 0;
        let mut sum_y: i64 = 0;
        let mut i: usize = 0;
        while i < MAX_SLOTS
            invariant
                i <= MAX_SLOTS,
                0 <= n <= i,
                n == self.active_below(i as int),
                sum_x == self.sum_x_below(i as int),
                sum_y == self.sum_y_below(i as int),
                -0x8000_0000 * n <= sum_x <= 0x7fff_ffff * n,
                -0x8000_0000 * n <= sum_y <= 0x7fff_ffff * n,
            decreases MAX_SLOTS - i,
        {
            if self.slots[i].active {
                n = n + 1;
                sum_x = sum_x + self.slots[i].x as i64;
                sum_y = sum_y + self.slots[i].y as i64;
            }
            i = i + 1;
        }
        let mut cx: i32 = 0;
        let mut cy: i32 = 0;
        if n > 0 {
            let mx = divide_toward_zero(sum_x, n);
            let my = divide_toward_zero(sum_y, n);
            assert(-0x8000_0000 <= mx <= 0x7fff_ffff && -0x8000_0000 <= my <= 0x7fff_ffff)
                by (nonlinear_arith)
                requires
                    0 < n <= 10,
                    -0x8000_0000 * n <= sum_x <= 0x7fff_ffff * n,
                    -0x8000_0000 * n <= sum_y <= 0x7fff_ffff * n,
                    mx == div_toward_zero(sum_x as int, n as int),
                    my == div_toward_zero(sum_y as int, n as int),
            ;
            cx = mx as i32;
            cy = my as i32;
        }
        PhysicalPosition {
            x: map_coordinate(cx, abs_x, screen_width),
            y: map_coordinate(cy, abs_y, screen_height),
        }
    }
}

/// Runs the gesture recognizer on the frame that the slot table holds, at the
/// time `now` in milliseconds, and returns the events of the frame. It always
/// returns some sequence, which may be empty.
pub fn analyze_touch_gesture(
    state: &mut TouchState,
    pointer_pos: &mut PhysicalPosition,
    is_left_pressed: &mut bool,
    screen_width: u32,
    screen_height: u32,
    abs_x: &Option<AbsInfo>,
    abs_y: &Option<AbsInfo>,
    now: u64,
) -> (r: Option<Vec<WindowEvent>>)
    ensures
        ({
            let o = gesture_frame(
                *old(state),
                *old(pointer_pos),
                *old(is_left_pressed),
                screen_width,
                screen_height,
                *abs_x,
                *abs_y,
                now,
            );
            &&& *final(state) == o.touch
            &&& *final(pointer_pos) == o.pointer_pos
            &&& *final(is_left_pressed) == o.is_left_pressed
            &&& r matches Some(v) && v@ == o.events
        }),
{
    let finger_count = state.count_fingers();
    let current_centroid = state.screen_centroid(screen_width, screen_height, abs_x, abs_y);
    let ghost o = gesture_frame(
        *old(state),
        *old(pointer_pos),
        *old(is_left_pressed),
        screen_width,
        screen_height,
        *abs_x,
        *abs_y,
        now,
    );
    let mut events: Vec<WindowEvent> = Vec::new();

    if finger_count > 0 {
        if state.gesture_start_time.is_none() {
            state.gesture_start_time = Some(now);
            state.initial_centroid = Some(current_centroid);
            state.max_fingers_down = finger_count;
            state.long_press_invalidated = false;
        } else if state.max_fingers_down < finger_count {
            state.max_fingers_down = finger_count;
        }
    }
    assert(*state == begin_gesture(*old(state), finger_count as nat, current_centroid, now));

    if finger_count >= 2 {
        if *is_left_pressed {
            *is_left_pressed = false;
            events.push(
                WindowEvent::PointerReleased {
                    position: *pointer_pos,
                    button: PointerEventButton::Left,
                },
            );
        }
        if state.gesture_mode == GestureMode::RightDrag {
            events.push(
                WindowEvent::PointerReleased {
                    position: *pointer_pos,
                    button: PointerEventButton::Right,
                },
            );
        }
        let just_entered = state.gesture_mode != GestureMode::Scroll;
        state.gesture_mode = GestureMode::Scroll;
        *pointer_pos = current_centroid;
        if !just_entered {
            match state.last_centroid {
                Some(last) => {
                    if current_centroid.x != last.x || current_centroid.y != last.y {
                        let dx: i64 = current_centroid.x as i64 - last.x as i64;
                        let dy: i64 = current_centroid.y as i64 - last.y as i64;
                        events.push(
                            WindowEvent::PointerScrolled {
                                position: current_centroid,
                                delta_x: dx * SCROLL_SCALE,
                                delta_y: dy * SCROLL_SCALE,
                            },
                        );
                    }
                },
                None => {},
            }
        }
        state.last_centroid = Some(current_centroid);
        assert(events@ =~= o.events);
    } else if finger_count == 1 {
        if state.gesture_mode == GestureMode::Scroll {
            state.gesture_mode = GestureMode::WaitRelease;
        }
        if state.gesture_mode == GestureMode::WaitRelease {
        } else {
            let moved = match state.last_reported_pos {
                Some(last) => far_apart(current_centroid, last, JITTER_THRESHOLD),
                None => true,
            };
            if state.gesture_mode == GestureMode::RightDrag {
                if moved {
                    *pointer_pos = current_centroid;
                    state.last_reported_pos = Some(current_centroid);
                    events.push(WindowEvent::PointerMoved { position: current_centroid });
                }
            } else {
                state.gesture_mode = GestureMode::Pointer;
                if !state.long_press_invalidated {
                    match state.initial_centroid {
                        Some(start) => {
                            if far_apart(start, current_centroid, TAP_DRIFT_THRESHOLD) {
                                state.long_press_invalidated = true;
                            }
                        },
                        None => {},
                    }
                }
                if moved {
                    *pointer_pos = current_centroid;
                    state.last_reported_pos = Some(current_centroid);
                    events.push(WindowEvent::PointerMoved { position: current_centroid });
                }
                if !*is_left_pressed {
                    *is_left_pressed = true;
                    events.push(
                        WindowEvent::PointerPressed {
                            position: *pointer_pos,
                            button: PointerEventButton::Left,
                        },
                    );
                }
                match state.gesture_start_time {
                    Some(start_time) => {
                        let held: u64 = if now >= start_time {
                            now - start_time
                        } else {
                            0
                        };
                        if !state.long_press_invalidated && held > LONG_PRESS_DURATION_MS {
                            state.gesture_mode = GestureMode::RightDrag;
                            *is_left_pressed = false;
                            events.push(
                                WindowEvent::PointerReleased {
                                    position: *pointer_pos,
                                    button: PointerEventButton::Left,
                                },
                            );
                            events.push(
                                WindowEvent::PointerPressed {
                                    position: *pointer_pos,
                                    button: PointerEventButton::Right,
                                },
                            );
                        }
                    },
                    None => {},
                }
            }
        }
        assert(events@ =~= o.events);
    } else {
        if state.gesture_mode == GestureMode::RightDrag {
            events.push(
                WindowEvent::PointerReleased {
                    position: *pointer_pos,
                    button: PointerEventButton::Right,
                },
            );
        } else if *is_left_pressed {
            *is_left_pressed = false;
            events.push(
                WindowEvent::PointerReleased {
                    position: *pointer_pos,
                    button: PointerEventButton::Left,
                },
            );
        }
        state.gesture_mode = GestureMode::Idle;
        state.gesture_start_time = None;
        state.last_centroid = None;
        state.last_reported_pos = None;
        state.initial_centroid = None;
        state.max_fingers_down = 0;
        state.long_press_invalidated = false;
        assert(events@ =~= o.events);
    }
    Some(events)
}

} // verus!
