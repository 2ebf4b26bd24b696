//! What holds of the slot table, of the gesture recognizer and of the throttle
//! on moves over whole frames and over sequences of frames.

use vstd::prelude::*;
use crate::input::event::PhysicalPosition;
use crate::input::event::PointerEventButton;
use crate::input::event::WindowEvent;
use crate::input::dispatch::move_due;
use crate::input::dispatch::clamp_delta;
use crate::input::dispatch::is_decoding;
use crate::input::dispatch::run;
use crate::input::dispatch::RawEvent;
use crate::input::dispatch::step;
use crate::input::dispatch::throttle;
use crate::input::dispatch::DeviceEvent;
use crate::input::dispatch::Progress;
use crate::input::dispatch::Setting;
use crate::input::dispatch::WHEEL_STEP;
use crate::input::touch::frame_end_step;
use crate::input::touch::gesture_frame;
use crate::input::touch::axis_step;
use crate::input::touch::elapsed_ms;
use crate::input::touch::gesture_step;
use crate::input::touch::screen_max;
use crate::input::touch::AbsInfo;
use crate::input::touch::is_far;
use crate::input::touch::GestureMode;
use crate::input::touch::GestureOutcome;
use crate::input::touch::TouchState;
use crate::input::touch::ABS_MT_TRACKING_ID;
use crate::input::touch::ABS_X;
use crate::input::touch::ABS_Y;
use crate::input::touch::LONG_PRESS_DURATION_MS;
use crate::input::touch::MAX_SLOTS;
use crate::input::touch::TAP_DRIFT_THRESHOLD;

verus! {

/// One absolute-axis event.
pub struct AxisEvent {
    pub code: u16,
    pub value: i32,
}

/// The slot table after the axis events, one after the other.
pub open spec fn run_axes(t: TouchState, events: Seq<AxisEvent>, is_protocol_b: bool) -> TouchState
    decreases events.len(),
{
    if events.len() == 0 {
        t
    } else {
        axis_step(
            run_axes(t, events.drop_last(), is_protocol_b),
            events.last().code,
            events.last().value,
            is_protocol_b,
        )
    }
}

/// The tracking id that the protocol-B events have last assigned to `slot`,
/// if they have assigned it one.
pub open spec fn last_tracking_id(t: TouchState, events: Seq<AxisEvent>, slot: int) -> Option<i32>
    decreases events.len(),
{
    if events.len() == 0 {
        None
    } else if events.last().code == ABS_MT_TRACKING_ID && run_axes(
        t,
        events.drop_last(),
        true,
    ).current_slot == slot {
        Some(events.last().value)
    } else {
        last_tracking_id(t, events.drop_last(), slot)
    }
}

/// Whether none of the events is on a legacy single-touch axis.
pub open spec fn no_legacy_axis(events: Seq<AxisEvent>) -> bool {
    forall|i: int| 0 <= i < events.len() ==> events[i].code != ABS_X && events[i].code != ABS_Y
}

/// An axis event leaves the cursor inside the table.
pub proof fn lemma_axis_step_keeps_cursor(t: TouchState, code: u16, value: i32, is_protocol_b: bool)
    requires
        t.wf(),
    ensures
        axis_step(t, code, value, is_protocol_b).wf(),
        axis_step(t, code, value, is_protocol_b).same_gesture(t),
{
}

/// The protocol decides whether a position activates its slot, and nothing
/// else: cursor, tracking ids and coordinates are the same under both.
pub proof fn lemma_protocol_affects_activity_only(t: TouchState, code: u16, value: i32, slot: int)
    requires
        0 <= slot < MAX_SLOTS,
    ensures
        ({
            let a = axis_step(t, code, value, false);
            let b = axis_step(t, code, value, true);
            &&& a.current_slot == b.current_slot
            &&& a.slots[slot].id == b.slots[slot].id
            &&& a.slots[slot].x == b.slots[slot].x
            &&& a.slots[slot].y == b.slots[slot].y
            &&& a.same_gesture(b)
            &&& b.slots[slot].active ==> a.slots[slot].active
        }),
{
}

/// After the events of a protocol-B frame without legacy axes, a slot is
/// active if and only if the last tracking id that the frame has assigned to
/// it is not -1; a slot to which the frame has assigned none is as it was.
pub proof fn lemma_protocol_b_activity(t: TouchState, events: Seq<AxisEvent>, slot: int)
    requires
        t.wf(),
        no_legacy_axis(events),
        0 <= slot < MAX_SLOTS,
    ensures
        run_axes(t, events, true).wf(),
        run_axes(t, events, true).slots[slot].active == (match last_tracking_id(t, events, slot) {
            Some(id) => id != -1,
            None => t.slots[slot].active,
        }),
    decreases events.len(),
{
    if events.len() > 0 {
        let before = events.drop_last();
        assert(no_legacy_axis(before)) by {
            assert forall|i: int| 0 <= i < before.len() implies before[i].code != ABS_X
                && before[i].code != ABS_Y by {
                assert(before[i] == events[i]);
            }
        }
        lemma_protocol_b_activity(t, before, slot);
        assert(events.last() == events[events.len() - 1]);
    }
}

/// On a device that has reported nothing before, the active slots after a
/// protocol-B frame without legacy axes are exactly those whose last tracking
/// id is not -1.
pub proof fn lemma_protocol_b_active_set(t: TouchState, events: Seq<AxisEvent>, slot: int)
    requires
        t.is_fresh(),
        no_legacy_axis(events),
        0 <= slot < MAX_SLOTS,
    ensures
        run_axes(t, events, true).slots[slot].active <==> (last_tracking_id(t, events, slot) matches Some(
            id,
        ) && id != -1),
{
    lemma_protocol_b_activity(t, events, slot);
}

/// One frame as the gesture recognizer sees it.
pub struct Frame {
    /// Number of fingers down.
    pub fingers: nat,
    /// Their centroid on the screen.
    pub centroid: PhysicalPosition,
    /// The time, in milliseconds.
    pub now: u64,
}

/// What the frames do, one after the other, with the events of all of them.
pub open spec fn run_frames(
    t: TouchState,
    pos: PhysicalPosition,
    pressed: bool,
    frames: Seq<Frame>,
) -> GestureOutcome
    decreases frames.len(),
{
    if frames.len() == 0 {
        GestureOutcome { touch: t, pointer_pos: pos, is_left_pressed: pressed, events: seq![] }
    } else {
        let before = run_frames(t, pos, pressed, frames.drop_last());
        let f = frames.last();
        let o = gesture_step(
            before.touch,
            before.pointer_pos,
            before.is_left_pressed,
            f.fingers,
            f.centroid,
            f.now,
        );
        GestureOutcome { events: before.events + o.events, ..o }
    }
}

/// The events of `events` that are no moves of the pointer, in order.
pub open spec fn without_moves(events: Seq<WindowEvent>) -> Seq<WindowEvent>
    decreases events.len(),
{
    if events.len() == 0 {
        seq![]
    } else if events.last() is PointerMoved {
        without_moves(events.drop_last())
    } else {
        without_moves(events.drop_last()).push(events.last())
    }
}

/// `without_moves` goes through a concatenation.
pub proof fn lemma_without_moves_concat(a: Seq<WindowEvent>, b: Seq<WindowEvent>)
    ensures
        without_moves(a + b) == without_moves(a) + without_moves(b),
    decreases b.len(),
{
    if b.len() == 0 {
        assert(a + b =~= a);
        assert(without_moves(a) + without_moves(b) =~= without_moves(a));
    } else {
        assert((a + b).drop_last() =~= a + b.drop_last());
        assert((a + b).last() == b.last());
        lemma_without_moves_concat(a, b.drop_last());
        if b.last() is PointerMoved {
        } else {
            assert(without_moves(a + b) =~= without_moves(a) + without_moves(b));
        }
    }
}

/// Whether the frames are those of one finger that stays within the drift
/// allowed for a tap of where it came down.
pub open spec fn one_finger_in_place(frames: Seq<Frame>) -> bool {
    forall|i: int|
        0 <= i < frames.len() ==> (#[trigger] frames[i]).fingers == 1 && !is_far(
            frames[0].centroid,
            frames[i].centroid,
            TAP_DRIFT_THRESHOLD as int,
        )
}

/// Whether one of the first `n` frames comes later than the long-press time
/// after the first frame.
pub open spec fn held_long(frames: Seq<Frame>, n: int) -> bool {
    exists|i: int|
        0 <= i < n && i < frames.len() && elapsed_ms(frames[0].now, (#[trigger] frames[i]).now)
            > LONG_PRESS_DURATION_MS
}

/// No gesture is running and no button is held.
pub open spec fn at_rest(t: TouchState, pressed: bool) -> bool {
    &&& t.gesture_mode == GestureMode::Idle
    &&& t.gesture_start_time is None
    &&& !pressed
}

/// Whether `e` presses `button`.
pub open spec fn is_press(e: WindowEvent, button: PointerEventButton) -> bool {
    e matches WindowEvent::PointerPressed { button: b, .. } && b == button
}

/// Whether `e` releases `button`.
pub open spec fn is_release(e: WindowEvent, button: PointerEventButton) -> bool {
    e matches WindowEvent::PointerReleased { button: b, .. } && b == button
}

/// The position of a press or release.
pub open spec fn position_of(e: WindowEvent) -> PhysicalPosition {
    match e {
        WindowEvent::PointerPressed { position, .. } => position,
        WindowEvent::PointerReleased { position, .. } => position,
        WindowEvent::PointerMoved { position } => position,
        WindowEvent::PointerScrolled { position, .. } => position,
        _ => PhysicalPosition { x: 0, y: 0 },
    }
}

/// The first frame of a touch: one finger comes down at rest, where no
/// position has been reported. The pointer moves to the finger and the left
/// button is pressed there, in this order, and nothing else is reported; the
/// gesture has begun, at this time and place.
pub proof fn lemma_touch_down(
    t: TouchState,
    pos: PhysicalPosition,
    pressed: bool,
    c: PhysicalPosition,
    now: u64,
)
    requires
        at_rest(t, pressed),
        t.last_reported_pos is None,
    ensures
        ({
            let o = gesture_step(t, pos, pressed, 1, c, now);
            &&& o.events == seq![
                WindowEvent::PointerMoved { position: c },
                WindowEvent::PointerPressed { position: c, button: PointerEventButton::Left },
            ]
            &&& o.is_left_pressed
            &&& o.pointer_pos == c
            &&& o.touch.gesture_mode == GestureMode::Pointer
            &&& o.touch.gesture_start_time == Some(now)
            &&& o.touch.initial_centroid == Some(c)
            &&& o.touch.last_reported_pos == Some(c)
            &&& o.touch.max_fingers_down == 1
            &&& !o.touch.long_press_invalidated
        }),
{
    let o = gesture_step(t, pos, pressed, 1, c, now);
    assert(o.events =~= seq![
        WindowEvent::PointerMoved { position: c },
        WindowEvent::PointerPressed { position: c, button: PointerEventButton::Left },
    ]);
}

/// Whatever the state before, a frame leaves no gesture behind where it
/// leaves none running: without a start time there is no mode, no reported
/// position, no centroid and no finger count. A new device is in that state,
/// too, so that every touch begins as `lemma_touch_down` says.
pub proof fn lemma_frame_leaves_rest_clean(
    t: TouchState,
    pos: PhysicalPosition,
    pressed: bool,
    fingers: nat,
    c: PhysicalPosition,
    now: u64,
)
    ensures
        ({
            let after = gesture_step(t, pos, pressed, fingers, c, now).touch;
            after.gesture_start_time is None ==> {
                &&& after.gesture_mode == GestureMode::Idle
                &&& after.last_reported_pos is None
                &&& after.initial_centroid is None
                &&& after.last_centroid is None
                &&& after.max_fingers_down == 0
                &&& !after.long_press_invalidated
            }
        }),
{
}

/// Whether the position is on a screen of the given size.
pub open spec fn on_screen(p: PhysicalPosition, screen_width: u32, screen_height: u32) -> bool {
    0 <= p.x <= screen_max(screen_width) && 0 <= p.y <= screen_max(screen_height)
}

/// The centroid of the fingers is on the screen.
pub proof fn lemma_centroid_on_screen(
    t: TouchState,
    screen_width: u32,
    screen_height: u32,
    abs_x: Option<AbsInfo>,
    abs_y: Option<AbsInfo>,
)
    ensures
        on_screen(t.centroid(screen_width, screen_height, abs_x, abs_y), screen_width, screen_height),
{
}

/// Every event of a frame is at the pointer as it was or at the centroid,
/// and so is the pointer afterwards. As the centroid is on the screen, a
/// pointer on the screen stays there, and every event is on the screen.
pub proof fn lemma_frame_stays_on_screen(
    t: TouchState,
    pos: PhysicalPosition,
    pressed: bool,
    fingers: nat,
    c: PhysicalPosition,
    now: u64,
    screen_width: u32,
    screen_height: u32,
)
    requires
        on_screen(pos, screen_width, screen_height),
        on_screen(c, screen_width, screen_height),
    ensures
        ({
            let o = gesture_step(t, pos, pressed, fingers, c, now);
            &&& on_screen(o.pointer_pos, screen_width, screen_height)
            &&& forall|i: int|
                0 <= i < o.events.len() ==> on_screen(
                    position_of(#[trigger] o.events[i]),
                    screen_width,
                    screen_height,
                )
        }),
{
}

/// A scroll frame after the first: two or more fingers, while scrolling, with
/// no button held by a touch. Where the centroid has moved, the one event is
/// a scroll by twice the movement; where it has not, there is none. The
/// pointer follows the centroid.
pub proof fn lemma_scroll_frame(
    t: TouchState,
    pos: PhysicalPosition,
    fingers: nat,
    c: PhysicalPosition,
    last: PhysicalPosition,
    now: u64,
)
    requires
        fingers >= 2,
        t.gesture_mode == GestureMode::Scroll,
        t.last_centroid == Some(last),
    ensures
        ({
            let o = gesture_step(t, pos, false, fingers, c, now);
            &&& o.events == (if c.x != last.x || c.y != last.y {
                seq![
                    WindowEvent::PointerScrolled {
                        position: c,
                        delta_x: (2 * (c.x - last.x)) as i64,
                        delta_y: (2 * (c.y - last.y)) as i64,
                    },
                ]
            } else {
                seq![]
            })
            &&& o.pointer_pos == c
            &&& o.touch.last_centroid == Some(c)
            &&& o.touch.gesture_mode == GestureMode::Scroll
            &&& !o.is_left_pressed
        }),
{
    let o = gesture_step(t, pos, false, fingers, c, now);
    if c.x != last.x || c.y != last.y {
        assert(o.events =~= seq![
            WindowEvent::PointerScrolled {
                position: c,
                delta_x: (2 * (c.x - last.x)) as i64,
                delta_y: (2 * (c.y - last.y)) as i64,
            },
        ]);
    } else {
        assert(o.events =~= seq![]);
    }
}

/// One finger that comes down at rest and stays in place. Until a frame comes
/// later than the long-press time, the left button is held and its press is
/// all that was reported but moves. From that frame on the right button is
/// held instead, and the left button was released and the right one pressed
/// at one and the same position.
pub proof fn lemma_one_finger_in_place(
    t: TouchState,
    pos: PhysicalPosition,
    pressed: bool,
    frames: Seq<Frame>,
)
    requires
        at_rest(t, pressed),
        frames.len() >= 1,
        one_finger_in_place(frames),
    ensures
        ({
            let o = run_frames(t, pos, pressed, frames);
            let buttons = without_moves(o.events);
            &&& o.touch.gesture_start_time == Some(frames[0].now)
            &&& o.touch.initial_centroid == Some(frames[0].centroid)
            &&& !o.touch.long_press_invalidated
            &&& !held_long(frames, frames.len() as int) ==> {
                &&& o.touch.gesture_mode == GestureMode::Pointer
                &&& o.is_left_pressed
                &&& buttons.len() == 1
                &&& is_press(buttons[0], PointerEventButton::Left)
            }
            &&& held_long(frames, frames.len() as int) ==> {
                &&& o.touch.gesture_mode == GestureMode::RightDrag
                &&& !o.is_left_pressed
                &&& buttons.len() == 3
                &&& is_press(buttons[0], PointerEventButton::Left)
                &&& is_release(buttons[1], PointerEventButton::Left)
                &&& is_press(buttons[2], PointerEventButton::Right)
                &&& position_of(buttons[1]) == position_of(buttons[2])
            }
        }),
    decreases frames.len(),
{
    let n = frames.len() as int;
    let before_frames = frames.drop_last();
    let f = frames.last();
    assert(f == frames[n - 1]);
    let before = run_frames(t, pos, pressed, before_frames);
    let o = gesture_step(
        before.touch,
        before.pointer_pos,
        before.is_left_pressed,
        f.fingers,
        f.centroid,
        f.now,
    );
    reveal_with_fuel(without_moves, 4);
    lemma_without_moves_concat(before.events, o.events);
    if n == 1 {
        assert(before_frames.len() == 0);
        assert(elapsed_ms(frames[0].now, frames[0].now) == 0);
        assert(!held_long(frames, n));
        assert(without_moves(before.events) =~= seq![]);
        assert(without_moves(o.events).len() == 1);
    } else {
        assert(one_finger_in_place(before_frames)) by {
            assert forall|i: int| 0 <= i < before_frames.len() implies (
            #[trigger] before_frames[i]).fingers == 1 && !is_far(
                before_frames[0].centroid,
                before_frames[i].centroid,
                TAP_DRIFT_THRESHOLD as int,
            ) by {
                assert(before_frames[i] == frames[i]);
                assert(before_frames[0] == frames[0]);
            }
        }
        lemma_one_finger_in_place(t, pos, pressed, before_frames);
        assert(before_frames[0] == frames[0]);
        let late = elapsed_ms(frames[0].now, f.now) > LONG_PRESS_DURATION_MS;
        assert(held_long(frames, n) <==> held_long(before_frames, n - 1) || late) by {
            if held_long(before_frames, n - 1) {
                let i = choose|i: int|
                    0 <= i < n - 1 && i < before_frames.len() && elapsed_ms(
                        before_frames[0].now,
                        (#[trigger] before_frames[i]).now,
                    ) > LONG_PRESS_DURATION_MS;
                assert(before_frames[i] == frames[i]);
            }
            if held_long(frames, n) {
                let i = choose|i: int|
                    0 <= i < n && i < frames.len() && elapsed_ms(
                        frames[0].now,
                        (#[trigger] frames[i]).now,
                    ) > LONG_PRESS_DURATION_MS;
                if i < n - 1 {
                    assert(before_frames[i] == frames[i]);
                }
            }
        }
        if held_long(before_frames, n - 1) {
            assert(without_moves(o.events) =~= seq![]);
        } else if late {
            assert(without_moves(o.events).len() == 2);
        } else {
            assert(without_moves(o.events) =~= seq![]);
        }
    }
}

/// A tap: one finger comes down at rest, stays in place and is lifted before
/// the long-press time is over. But for moves, the left button is pressed and
/// released, and nothing else is reported: no right button.
pub proof fn lemma_tap(
    t: TouchState,
    pos: PhysicalPosition,
    pressed: bool,
    frames: Seq<Frame>,
    lift: Frame,
)
    requires
        at_rest(t, pressed),
        frames.len() >= 1,
        one_finger_in_place(frames),
        !held_long(frames, frames.len() as int),
        lift.fingers == 0,
    ensures
        ({
            let o = run_frames(t, pos, pressed, frames.push(lift));
            let buttons = without_moves(o.events);
            &&& buttons.len() == 2
            &&& is_press(buttons[0], PointerEventButton::Left)
            &&& is_release(buttons[1], PointerEventButton::Left)
            &&& at_rest(o.touch, o.is_left_pressed)
        }),
{
    lemma_one_finger_in_place(t, pos, pressed, frames);
    let all = frames.push(lift);
    assert(all.drop_last() =~= frames);
    assert(all.last() == lift);
    let before = run_frames(t, pos, pressed, frames);
    let o = gesture_step(
        before.touch,
        before.pointer_pos,
        before.is_left_pressed,
        lift.fingers,
        lift.centroid,
        lift.now,
    );
    reveal_with_fuel(without_moves, 4);
    lemma_without_moves_concat(before.events, o.events);
    assert(without_moves(o.events).len() == 1);
}

/// A long press: one finger comes down at rest, stays in place for longer
/// than the long-press time and is lifted. But for moves, the left button is
/// pressed and released, the right button is pressed where the left one was
/// released, and the right button is released on the lift.
pub proof fn lemma_long_press(
    t: TouchState,
    pos: PhysicalPosition,
    pressed: bool,
    frames: Seq<Frame>,
    lift: Frame,
)
    requires
        at_rest(t, pressed),
        frames.len() >= 1,
        one_finger_in_place(frames),
        held_long(frames, frames.len() as int),
        lift.fingers == 0,
    ensures
        ({
            let o = run_frames(t, pos, pressed, frames.push(lift));
            let buttons = without_moves(o.events);
            &&& buttons.len() == 4
            &&& is_press(buttons[0], PointerEventButton::Left)
            &&& is_release(buttons[1], PointerEventButton::Left)
            &&& is_press(buttons[2], PointerEventButton::Right)
            &&& is_release(buttons[3], PointerEventButton::Right)
            &&& position_of(buttons[1]) == position_of(buttons[2])
            &&& at_rest(o.touch, o.is_left_pressed)
        }),
{
    lemma_one_finger_in_place(t, pos, pressed, frames);
    let all = frames.push(lift);
    assert(all.drop_last() =~= frames);
    assert(all.last() == lift);
    let before = run_frames(t, pos, pressed, frames);
    let o = gesture_step(
        before.touch,
        before.pointer_pos,
        before.is_left_pressed,
        lift.fingers,
        lift.centroid,
        lift.now,
    );
    reveal_with_fuel(without_moves, 4);
    lemma_without_moves_concat(before.events, o.events);
    assert(without_moves(o.events).len() == 1);
}

/// A frame with two or more fingers while a touch holds the left button
/// releases the button first: its first event is the release, so that any
/// scroll comes after it, and the button is no longer held.
pub proof fn lemma_scroll_releases_left_first(
    t: TouchState,
    pos: PhysicalPosition,
    fingers: nat,
    c: PhysicalPosition,
    now: u64,
)
    requires
        fingers >= 2,
    ensures
        ({
            let o = gesture_step(t, pos, true, fingers, c, now);
            &&& o.events.len() >= 1
            &&& o.events[0] == (WindowEvent::PointerReleased {
                position: pos,
                button: PointerEventButton::Left,
            })
            &&& forall|i: int| 0 <= i < o.events.len() && o.events[i] is PointerScrolled ==> i > 0
            &&& !o.is_left_pressed
            &&& o.touch.gesture_mode == GestureMode::Scroll
        }),
{
}

/// A gesture is running after a frame if and only if fingers are down in it.
pub proof fn lemma_gesture_runs_while_fingers_down(
    t: TouchState,
    pos: PhysicalPosition,
    pressed: bool,
    fingers: nat,
    c: PhysicalPosition,
    now: u64,
)
    ensures
        gesture_step(t, pos, pressed, fingers, c, now).touch.gesture_start_time is Some <==> fingers
            > 0,
{
}

/// The recognizer waits for the release only after a scroll, in a frame with
/// one finger.
pub proof fn lemma_wait_release_follows_scroll(
    t: TouchState,
    pos: PhysicalPosition,
    pressed: bool,
    fingers: nat,
    c: PhysicalPosition,
    now: u64,
)
    ensures
        gesture_step(t, pos, pressed, fingers, c, now).touch.gesture_mode == GestureMode::WaitRelease
            <==> fingers == 1 && (t.gesture_mode == GestureMode::Scroll || t.gesture_mode
            == GestureMode::WaitRelease),
{
}

/// A frame changes nothing of the slot table.
pub proof fn lemma_gesture_keeps_slots(
    t: TouchState,
    pos: PhysicalPosition,
    pressed: bool,
    fingers: nat,
    c: PhysicalPosition,
    now: u64,
)
    ensures
        gesture_step(t, pos, pressed, fingers, c, now).touch.slots == t.slots,
        gesture_step(t, pos, pressed, fingers, c, now).touch.current_slot == t.current_slot,
{
}

/// The number of moves of the pointer among `events`.
pub open spec fn count_moves(events: Seq<WindowEvent>) -> nat
    decreases events.len(),
{
    if events.len() == 0 {
        0
    } else if events.last() is PointerMoved {
        count_moves(events.drop_last()) + 1
    } else {
        count_moves(events.drop_last())
    }
}

/// The throttle drops moves only: every press, release, scroll and key
/// passes, in order. Of the moves of one batch at most one passes, and only
/// where a move is due; it is then the last move.
pub proof fn lemma_throttle_drops_moves_only(events: Seq<WindowEvent>, last: u64, now: u64)
    ensures
        without_moves(throttle(events, last, now).kept) == without_moves(events),
        count_moves(throttle(events, last, now).kept) <= 1,
        count_moves(throttle(events, last, now).kept) == 1 ==> move_due(last, now) && throttle(
            events,
            last,
            now,
        ).last_move_time == now,
        count_moves(throttle(events, last, now).kept) == 0 ==> throttle(
            events,
            last,
            now,
        ).last_move_time == last,
    decreases events.len(),
{
    if events.len() > 0 {
        lemma_throttle_drops_moves_only(events.drop_last(), last, now);
        let before = throttle(events.drop_last(), last, now);
        let e = events.last();
        let pushed = before.kept.push(e);
        assert(pushed.drop_last() =~= before.kept);
        assert(pushed.last() == e);
    }
}

/// What the throttle lets through is among the events that it was given.
pub proof fn lemma_throttle_keeps_events(events: Seq<WindowEvent>, last: u64, now: u64, i: int)
    requires
        0 <= i < throttle(events, last, now).kept.len(),
    ensures
        events.contains(throttle(events, last, now).kept[i]),
    decreases events.len(),
{
    if events.len() > 0 {
        let before = throttle(events.drop_last(), last, now);
        let kept = throttle(events, last, now).kept;
        if i < before.kept.len() {
            lemma_throttle_keeps_events(events.drop_last(), last, now, i);
            assert(kept[i] == before.kept[i]);
            let j = choose|j: int|
                0 <= j < events.drop_last().len() && events.drop_last()[j] == before.kept[i];
            assert(events[j] == before.kept[i]);
        } else {
            assert(kept[i] == events.last());
            assert(events[events.len() - 1] == kept[i]);
        }
    }
}

/// Whether every one of the events is on the screen.
pub open spec fn events_on_screen(
    events: Seq<WindowEvent>,
    screen_width: u32,
    screen_height: u32,
) -> bool {
    forall|i: int|
        0 <= i < events.len() ==> on_screen(
            position_of(#[trigger] events[i]),
            screen_width,
            screen_height,
        )
}

/// Whether the pointer and every event so far are on the screen.
pub open spec fn all_on_screen(p: Progress, s: Setting) -> bool {
    &&& on_screen(p.pointer_pos, s.screen_width, s.screen_height)
    &&& events_on_screen(p.output, s.screen_width, s.screen_height)
}

/// Events on the screen stay on the screen when one on the screen follows.
pub proof fn lemma_push_on_screen(
    events: Seq<WindowEvent>,
    e: WindowEvent,
    screen_width: u32,
    screen_height: u32,
)
    requires
        events_on_screen(events, screen_width, screen_height),
        on_screen(position_of(e), screen_width, screen_height),
    ensures
        events_on_screen(events.push(e), screen_width, screen_height),
{
    assert forall|i: int| 0 <= i < events.push(e).len() implies on_screen(
        position_of(#[trigger] events.push(e)[i]),
        screen_width,
        screen_height,
    ) by {
        if i < events.len() {
            assert(events.push(e)[i] == events[i]);
        }
    }
}

/// Whether what the keyboard has answered, if the event holds an answer, is
/// a key event. Every decoding of a raw event is such.
pub open spec fn answer_is_key_event(d: DeviceEvent) -> bool {
    match d {
        DeviceEvent::Key { event: Some(e) } => e is KeyPressed || e is KeyReleased
            || e is KeyPressRepeated,
        _ => true,
    }
}

/// A decoding of a raw event holds no answer but a key event.
pub proof fn lemma_decoding_holds_key_event(ev: RawEvent, d: DeviceEvent)
    requires
        is_decoding(ev, d),
    ensures
        answer_is_key_event(d),
{
}

/// An event of a device leaves the pointer on the screen, and reports
/// nothing that is off the screen.
pub proof fn lemma_step_stays_on_screen(p: Progress, s: Setting, ev: DeviceEvent)
    requires
        all_on_screen(p, s),
        answer_is_key_event(ev),
    ensures
        all_on_screen(step(p, s, ev), s),
{
    let w = s.screen_width;
    let h = s.screen_height;
    let q = step(p, s, ev);
    match ev {
        DeviceEvent::Button { button, value } => {
            lemma_push_on_screen(
                p.output,
                WindowEvent::PointerPressed { position: p.pointer_pos, button },
                w,
                h,
            );
            lemma_push_on_screen(
                p.output,
                WindowEvent::PointerReleased { position: p.pointer_pos, button },
                w,
                h,
            );
        },
        DeviceEvent::Key { event } => {
            if event is Some {
                lemma_push_on_screen(p.output, event->0, w, h);
            }
        },
        DeviceEvent::Report => {
            let touch = if s.is_protocol_b {
                p.touch
            } else {
                frame_end_step(p.touch)
            };
            if s.abs_x_info is Some {
                let c = touch.centroid(w, h, s.abs_x_info, s.abs_y_info);
                lemma_centroid_on_screen(touch, w, h, s.abs_x_info, s.abs_y_info);
                lemma_frame_stays_on_screen(
                    touch,
                    p.pointer_pos,
                    p.is_left_pressed,
                    touch.finger_count(),
                    c,
                    s.now,
                    w,
                    h,
                );
                let o = gesture_frame(
                    touch,
                    p.pointer_pos,
                    p.is_left_pressed,
                    w,
                    h,
                    s.abs_x_info,
                    s.abs_y_info,
                    s.now,
                );
                let t = throttle(o.events, p.last_move_time, s.now);
                let gathered = p.output + t.kept;
                assert(events_on_screen(gathered, w, h)) by {
                    assert forall|i: int| 0 <= i < gathered.len() implies on_screen(
                        position_of(#[trigger] gathered[i]),
                        w,
                        h,
                    ) by {
                        if i < p.output.len() {
                            assert(gathered[i] == p.output[i]);
                        } else {
                            let k = i - p.output.len();
                            assert(gathered[i] == t.kept[k]);
                            lemma_throttle_keeps_events(o.events, p.last_move_time, s.now, k);
                            let j = choose|j: int|
                                0 <= j < o.events.len() && o.events[j] == t.kept[k];
                            assert(on_screen(position_of(o.events[j]), w, h));
                        }
                    }
                }
                lemma_push_on_screen(
                    gathered,
                    WindowEvent::PointerScrolled {
                        position: o.pointer_pos,
                        delta_x: clamp_delta(
                            p.wheel_dx * WHEEL_STEP,
                        ),
                        delta_y: clamp_delta(
                            p.wheel_dy * WHEEL_STEP,
                        ),
                    },
                    w,
                    h,
                );
            } else {
                let moved = WindowEvent::PointerMoved { position: p.pointer_pos };
                lemma_push_on_screen(p.output, moved, w, h);
                let scrolled = WindowEvent::PointerScrolled {
                    position: p.pointer_pos,
                    delta_x: clamp_delta(
                        p.wheel_dx * WHEEL_STEP,
                    ),
                    delta_y: clamp_delta(
                        p.wheel_dy * WHEEL_STEP,
                    ),
                };
                lemma_push_on_screen(p.output, scrolled, w, h);
                lemma_push_on_screen(p.output.push(moved), scrolled, w, h);
            }
        },
        _ => {},
    }
}

/// The events of a device leave the pointer on the screen, and report
/// nothing that is off the screen.
pub proof fn lemma_run_stays_on_screen(p: Progress, s: Setting, events: Seq<DeviceEvent>)
    requires
        all_on_screen(p, s),
        forall|i: int| 0 <= i < events.len() ==> answer_is_key_event(#[trigger] events[i]),
    ensures
        all_on_screen(run(p, s, events), s),
    decreases events.len(),
{
    if events.len() > 0 {
        assert forall|i: int| 0 <= i < events.drop_last().len() implies answer_is_key_event(
            #[trigger] events.drop_last()[i],
        ) by {
            assert(events.drop_last()[i] == events[i]);
        }
        lemma_run_stays_on_screen(p, s, events.drop_last());
        assert(events.last() == events[events.len() - 1]);
        lemma_step_stays_on_screen(run(p, s, events.drop_last()), s, events.last());
    }
}

} // verus!
