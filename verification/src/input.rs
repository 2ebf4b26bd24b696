//! The input subsystem: from the raw events of mice, touchscreens and
//! keyboards to one sequence of pointer and key events.
//!
//! The subsystem itself reads no device. Whoever does hands it what was read,
//! with the time of a monotonic clock in whole milliseconds, and gets the
//! events back.

pub mod codes;
pub mod discovery;
pub mod dispatch;
pub mod event;
pub mod keyboard;
pub mod paths;
pub mod touch;
pub mod proofs;

use vstd::prelude::*;
use crate::error::Error;
use crate::input::discovery::DeviceRole;
use crate::input::dispatch::decode_event;
use crate::input::dispatch::decodes;
use crate::input::dispatch::is_key_of_keyboard;
use crate::input::dispatch::is_keyboard_key;
use crate::input::dispatch::keyboard_run;
use crate::input::dispatch::lemma_keyboard_run_empty;
use crate::input::dispatch::lemma_keyboard_run_push;
use crate::input::dispatch::move_due;
use crate::input::dispatch::moved_coord;
use crate::input::dispatch::clamp_delta;
use crate::input::dispatch::report_step;
use crate::input::dispatch::run;
use crate::input::dispatch::step;
use crate::input::dispatch::throttle;
use crate::input::dispatch::DeviceEvent;
use crate::input::dispatch::Progress;
use crate::input::dispatch::RawEvent;
use crate::input::dispatch::Setting;
use crate::input::dispatch::MOVE_THROTTLE_MS;
use crate::input::dispatch::WHEEL_STEP;
use crate::input::event::PhysicalPosition;
use crate::input::event::WindowEvent;
use crate::input::keyboard::KeyboardStrategy;
use crate::input::paths::distinct_strings;
use crate::input::paths::holds_texts;
use crate::input::paths::keep_next;
use crate::input::paths::kept_once;
use crate::input::paths::lemma_distinct_is_no_duplicates;
use crate::input::paths::lemma_kept_once;
use crate::input::paths::path_is_listed;
use crate::input::paths::path_listed;
use crate::input::touch::analyze_touch_gesture;
use crate::input::touch::elapsed_ms;
use crate::input::touch::AbsInfo;
use crate::input::touch::TouchState;
use crate::text::str_equal;

verus! {

/// How the input manager finds its devices, and which ones it takes.
#[derive(Clone, Debug)]
pub struct InputConfig {
    /// Whether devices are looked for at all.
    pub autodiscovery: bool,
    /// Whether a background task looks for them, or the manager itself.
    pub threaded_input: bool,
    /// If not empty, only devices whose name holds one of these are taken.
    pub whitelist: Vec<String>,
    /// Devices whose name holds one of these are not taken.
    pub blacklist: Vec<String>,
}

impl Default for InputConfig {
    fn default() -> (c: InputConfig)
        ensures
            c.autodiscovery,
            c.threaded_input,
            c.whitelist@.len() == 0,
            c.blacklist@.len() == 0,
    {
        InputConfig {
            autodiscovery: true,
            threaded_input: true,
            whitelist: Vec::new(),
            blacklist: Vec::new(),
        }
    }
}

/// One device that the manager has taken.
#[derive(Debug)]
pub struct ManagedDevice {
    /// Path of the device node.
    pub path: String,
    /// Descriptor under which the device is open.
    pub fd: i32,
    /// What the device is used as.
    pub role: DeviceRole,
    /// Raw range of the X axis of a touchscreen.
    pub abs_x_info: Option<AbsInfo>,
    /// Raw range of the Y axis of a touchscreen.
    pub abs_y_info: Option<AbsInfo>,
    /// Whether the device speaks protocol B.
    pub is_protocol_b: bool,
    /// Touch state of the device.
    pub touch: TouchState,
}


/// The input state that all devices share: the pointer, the button that a
/// touch holds, the keyboard, and the time of the last reported move.
pub struct GlobalInputState<K> {
    /// Where the pointer is, on the screen.
    pub pointer_pos: PhysicalPosition,
    /// Whether a touch holds the left button.
    pub is_left_pressed: bool,
    /// Width of the screen, in pixels.
    pub screen_width: u32,
    /// Height of the screen, in pixels.
    pub screen_height: u32,
    /// The keyboard.
    pub keyboard: K,
    /// When a move was last reported, in milliseconds.
    pub last_move_time: u64,
}

/// What has gathered since the last frame of a device.
pub struct Pending {
    /// Whether the mouse has moved.
    pub sync_needed: bool,
    /// Notches of the horizontal wheel.
    pub wheel_dx: i128,
    /// Notches of the vertical wheel.
    pub wheel_dy: i128,
}

impl Pending {
    /// The wheels have turned no farther than the longest batch of events
    /// can turn them.
    pub open spec fn in_bounds(self) -> bool {
        &&& -0x1_0000_0000_0000_0000_0000_0000 <= self.wheel_dx <= 0x1_0000_0000_0000_0000_0000_0000
        &&& -0x1_0000_0000_0000_0000_0000_0000 <= self.wheel_dy <= 0x1_0000_0000_0000_0000_0000_0000
    }
}

/// `coord` moved by `value` along an axis of the screen that is `extent`
/// pixels long.
fn move_coordinate(coord: i32, value: i32, extent: u32) -> (r: i32)
    ensures
        r == moved_coord(coord, value, extent),
{
    let hi: i64 = if extent == 0 {
        0
    } else if extent - 1 > 0x7fff_ffff {
        0x7fff_ffff
    } else {
        (extent - 1) as i64
    };
    let v: i64 = coord as i64 + value as i64;
    if v < 0 {
        0
    } else if v > hi {
        hi as i32
    } else {
        v as i32
    }
}

/// The scroll delta of `notches` notches of a wheel.
fn wheel_delta(notches: i128) -> (r: i64)
    requires
        -0x1_0000_0000_0000_0000_0000_0000 <= notches <= 0x1_0000_0000_0000_0000_0000_0000,
    ensures
        r == clamp_delta(notches * WHEEL_STEP),
{
    let v: i128 = notches * (WHEEL_STEP as i128);
    if v < i64::MIN as i128 {
        i64::MIN
    } else if v > i64::MAX as i128 {
        i64::MAX
    } else {
        v as i64
    }
}

impl<K: KeyboardStrategy> GlobalInputState<K> {
    /// What stays the same while the events of `dev` are applied at `now`.
    pub open spec fn setting(self, dev: ManagedDevice, now: u64) -> Setting {
        Setting {
            screen_width: self.screen_width,
            screen_height: self.screen_height,
            is_protocol_b: dev.is_protocol_b,
            abs_x_info: dev.abs_x_info,
            abs_y_info: dev.abs_y_info,
            now,
        }
    }

    /// Where a batch of events of `dev` starts: nothing has gathered and
    /// nothing has been reported.
    pub open spec fn start(self, dev: ManagedDevice) -> Progress {
        Progress {
            pointer_pos: self.pointer_pos,
            is_left_pressed: self.is_left_pressed,
            last_move_time: self.last_move_time,
            touch: dev.touch,
            sync_needed: false,
            wheel_dx: 0,
            wheel_dy: 0,
            output: seq![],
        }
    }

    /// The shared state once a batch has ended in `p`.
    pub open spec fn after(self, p: Progress) -> GlobalInputState<K> {
        GlobalInputState {
            pointer_pos: p.pointer_pos,
            is_left_pressed: p.is_left_pressed,
            last_move_time: p.last_move_time,
            ..self
        }
    }

    /// Whether `other` differs from this state in the keyboard at most.
    pub open spec fn same_but_keyboard(self, other: GlobalInputState<K>) -> bool {
        &&& self.pointer_pos == other.pointer_pos
        &&& self.is_left_pressed == other.is_left_pressed
        &&& self.screen_width == other.screen_width
        &&& self.screen_height == other.screen_height
        &&& self.last_move_time == other.last_move_time
    }

    /// Decides whether a move may be reported at `now`: only if the last one
    /// is long enough ago, and then this one becomes the last.
    pub fn should_emit_move(&mut self, now: u64) -> (r: bool)
        ensures
            r == move_due(old(self).last_move_time, now),
            *final(self) == (GlobalInputState {
                last_move_time: if r {
                    now
                } else {
                    old(self).last_move_time
                },
                ..*old(self)
            }),
    {
        let since: u64 = if now >= self.last_move_time {
            now - self.last_move_time
        } else {
            0
        };
        if since >= MOVE_THROTTLE_MS {
            self.last_move_time = now;
            true
        } else {
            false
        }
    }

    /// Passes `events` through the throttle on moves.
    pub fn throttle_moves(&mut self, events: &Vec<WindowEvent>, now: u64) -> (kept: Vec<
        WindowEvent,
    >)
        ensures
            kept@ == throttle(events@, old(self).last_move_time, now).kept,
            *final(self) == (GlobalInputState {
                last_move_time: throttle(events@, old(self).last_move_time, now).last_move_time,
                ..*old(self)
            }),
    {
        let mut kept: Vec<WindowEvent> = Vec::new();
        let mut i: usize = 0;
        assert(events@.take(0) =~= seq![]);
        while i < events.len()
            invariant
                i <= events.len(),
                kept@ == throttle(events@.take(i as int), old(self).last_move_time, now).kept,
                *self == (GlobalInputState {
                    last_move_time: throttle(
                        events@.take(i as int),
                        old(self).last_move_time,
                        now,
                    ).last_move_time,
                    ..*old(self)
                }),
            decreases events.len() - i,
        {
            let e = events[i];
            assert(events@.take(i + 1).drop_last() =~= events@.take(i as int));
            assert(events@.take(i + 1).last() == e);
            match e {
                WindowEvent::PointerMoved { .. } => {
                    if self.should_emit_move(now) {
                        kept.push(e);
                    }
                },
                _ => {
                    kept.push(e);
                },
            }
            i = i + 1;
        }
        assert(events@.take(events.len() as int) =~= events@);
        kept
    }

    /// Decodes the raw events of a device, asking the keyboard for each key
    /// of a keyboard, in order. Nothing but the keyboard changes.
    pub fn decode_events(&mut self, events: &Vec<RawEvent>) -> (decoded: Vec<DeviceEvent>)
        ensures
            decodes(events@, decoded@),
            keyboard_run(old(self).keyboard, events@, decoded@, final(self).keyboard),
            final(self).same_but_keyboard(*old(self)),
            (forall|i: int| 0 <= i < events.len() ==> !is_keyboard_key(#[trigger] events[i]))
                ==> *final(self) == *old(self),
    {
        let mut decoded: Vec<DeviceEvent> = Vec::new();
        let mut i: usize = 0;
        proof {
            assert(events@.take(0) =~= Seq::<RawEvent>::empty());
            assert(decoded@ =~= Seq::<DeviceEvent>::empty());
            lemma_keyboard_run_empty(self.keyboard);
        }
        while i < events.len()
            invariant
                i <= events.len(),
                decoded.len() == i,
                decodes(events@.take(i as int), decoded@),
                keyboard_run(old(self).keyboard, events@.take(i as int), decoded@, self.keyboard),
                self.same_but_keyboard(*old(self)),
                (forall|j: int| 0 <= j < i ==> !is_keyboard_key(#[trigger] events[j])) ==> *self
                    == *old(self),
            decreases events.len() - i,
        {
            let ev = events[i];
            let ghost before = self.keyboard;
            let ghost decoded_before = decoded@;
            let answer = if is_key_of_keyboard(ev) {
                self.keyboard.handle_key_event(ev.code, ev.value)
            } else {
                None
            };
            let d = decode_event(ev, answer);
            decoded.push(d);
            proof {
                assert(events@.take(i + 1) =~= events@.take(i as int).push(ev));
                lemma_keyboard_run_push(
                    old(self).keyboard,
                    events@.take(i as int),
                    decoded_before,
                    before,
                    ev,
                    d,
                    self.keyboard,
                );
            }
            i = i + 1;
        }
        assert(events@.take(events.len() as int) =~= events@);
        decoded
    }

    /// The progress that the state, the device, what has gathered and what
    /// has been reported make up.
    pub open spec fn progress(
        self,
        dev: ManagedDevice,
        pending: Pending,
        output: Seq<WindowEvent>,
    ) -> Progress {
        Progress {
            pointer_pos: self.pointer_pos,
            is_left_pressed: self.is_left_pressed,
            last_move_time: self.last_move_time,
            touch: dev.touch,
            sync_needed: pending.sync_needed,
            wheel_dx: pending.wheel_dx as int,
            wheel_dy: pending.wheel_dy as int,
            output,
        }
    }

    /// Handles the marker that ends a frame.
    fn apply_report(
        &mut self,
        dev: &mut ManagedDevice,
        pending: &mut Pending,
        output: &mut Vec<WindowEvent>,
        now: u64,
    )
        requires
            old(pending).in_bounds(),
        ensures
            final(self).progress(*final(dev), *final(pending), final(output)@) == report_step(
                old(self).progress(*old(dev), *old(pending), old(output)@),
                old(self).setting(*old(dev), now),
            ),
            final(self).setting(*final(dev), now) == old(self).setting(*old(dev), now),
            final(self).keyboard == old(self).keyboard,
            *final(dev) == (ManagedDevice { touch: final(dev).touch, ..*old(dev) }),
            final(pending).wheel_dx == 0 || final(pending).wheel_dx == old(pending).wheel_dx,
            final(pending).wheel_dy == 0 || final(pending).wheel_dy == old(pending).wheel_dy,
    {
        if !dev.is_protocol_b {
            dev.touch.finish_frame_protocol_a();
        }
        if dev.abs_x_info.is_some() {
            let screen_width = self.screen_width;
            let screen_height = self.screen_height;
            let abs_x_info = dev.abs_x_info;
            let abs_y_info = dev.abs_y_info;
            let gesture = analyze_touch_gesture(
                &mut dev.touch,
                &mut self.pointer_pos,
                &mut self.is_left_pressed,
                screen_width,
                screen_height,
                &abs_x_info,
                &abs_y_info,
                now,
            );
            match gesture {
                Some(gesture_events) => {
                    let mut kept = self.throttle_moves(&gesture_events, now);
                    output.append(&mut kept);
                },
                None => {},
            }
        } else if pending.sync_needed {
            if self.should_emit_move(now) {
                output.push(WindowEvent::PointerMoved { position: self.pointer_pos });
            }
            pending.sync_needed = false;
        }
        if pending.wheel_dx != 0 || pending.wheel_dy != 0 {
            output.push(
                WindowEvent::PointerScrolled {
                    position: self.pointer_pos,
                    delta_x: wheel_delta(pending.wheel_dx),
                    delta_y: wheel_delta(pending.wheel_dy),
                },
            );
            pending.wheel_dx = 0;
            pending.wheel_dy = 0;
        }
    }

    /// Applies one decoded event.
    fn apply_event(
        &mut self,
        dev: &mut ManagedDevice,
        pending: &mut Pending,
        output: &mut Vec<WindowEvent>,
        ev: DeviceEvent,
        now: u64,
    )
        requires
            old(pending).in_bounds(),
        ensures
            final(self).progress(*final(dev), *final(pending), final(output)@) == step(
                old(self).progress(*old(dev), *old(pending), old(output)@),
                old(self).setting(*old(dev), now),
                ev,
            ),
            final(self).setting(*final(dev), now) == old(self).setting(*old(dev), now),
            final(self).keyboard == old(self).keyboard,
            *final(dev) == (ManagedDevice { touch: final(dev).touch, ..*old(dev) }),
            final(pending).wheel_dx == 0 || old(pending).wheel_dx - 0x8000_0000 <= final(
                pending).wheel_dx <= old(pending).wheel_dx + 0x8000_0000,
            final(pending).wheel_dy == 0 || old(pending).wheel_dy - 0x8000_0000 <= final(
                pending).wheel_dy <= old(pending).wheel_dy + 0x8000_0000,
    {
        match ev {
            DeviceEvent::AbsoluteAxis { code, value } => {
                let is_protocol_b = dev.is_protocol_b;
                dev.touch.process_axis(code, value, is_protocol_b);
            },
            DeviceEvent::RelativeX { value } => {
                self.pointer_pos.x = move_coordinate(self.pointer_pos.x, value, self.screen_width);
                pending.sync_needed = true;
            },
            DeviceEvent::RelativeY { value } => {
                self.pointer_pos.y = move_coordinate(self.pointer_pos.y, value, self.screen_height);
                pending.sync_needed = true;
            },
            DeviceEvent::Wheel { value } => {
                pending.wheel_dy = pending.wheel_dy + value as i128;
            },
            DeviceEvent::HorizontalWheel { value } => {
                pending.wheel_dx = pending.wheel_dx + value as i128;
            },
            DeviceEvent::Button { button, value } => {
                if dev.abs_x_info.is_none() {
                    if value == 1 {
                        output.push(
                            WindowEvent::PointerPressed { position: self.pointer_pos, button },
                        );
                    } else {
                        output.push(
                            WindowEvent::PointerReleased { position: self.pointer_pos, button },
                        );
                    }
                }
            },
            DeviceEvent::Key { event } => {
                match event {
                    Some(e) => {
                        output.push(e);
                    },
                    None => {},
                }
            },
            DeviceEvent::MtReport => {
                if !dev.is_protocol_b {
                    dev.touch.sync_mt_report();
                }
            },
            DeviceEvent::Report => {
                self.apply_report(dev, pending, output, now);
            },
            DeviceEvent::Ignored => {},
        }
    }

    /// Applies the decoded events of the device `dev`, in order, at the time
    /// `now`, and returns the events that they give. The keyboard is not
    /// touched; of the device only its touch state changes.
    pub fn apply_events(
        &mut self,
        dev: &mut ManagedDevice,
        decoded: &Vec<DeviceEvent>,
        now: u64,
    ) -> (out: Vec<WindowEvent>)
        ensures
            ({
                let p = run(old(self).start(*old(dev)), old(self).setting(*old(dev), now), decoded@);
                &&& out@ == p.output
                &&& *final(self) == old(self).after(p)
                &&& *final(dev) == (ManagedDevice { touch: p.touch, ..*old(dev) })
            }),
    {
        let ghost s = old(self).setting(*old(dev), now);
        let ghost p0 = old(self).start(*old(dev));
        let mut output: Vec<WindowEvent> = Vec::new();
        let mut pending = Pending { sync_needed: false, wheel_dx: 0, wheel_dy: 0 };
        let mut i: usize = 0;
        assert(decoded@.take(0) =~= seq![]);
        while i < decoded.len()
            invariant
                i <= decoded.len(),
                s == self.setting(*dev, now),
                -(i as int) * 0x8000_0000 <= pending.wheel_dx <= i * 0x8000_0000,
                -(i as int) * 0x8000_0000 <= pending.wheel_dy <= i * 0x8000_0000,
                self.keyboard == old(self).keyboard,
                *dev == (ManagedDevice { touch: dev.touch, ..*old(dev) }),
                run(p0, s, decoded@.take(i as int)) == self.progress(*dev, pending, output@),
            decreases decoded.len() - i,
        {
            let ev = decoded[i];
            assert(decoded@.take(i + 1).drop_last() =~= decoded@.take(i as int));
            assert(decoded@.take(i + 1).last() == ev);
            self.apply_event(dev, &mut pending, &mut output, ev, now);
            i = i + 1;
        }
        assert(decoded@.take(decoded.len() as int) =~= decoded@);
        output
    }

    /// Whether handling the raw `events` of a device at `now` can lead from
    /// this state and `dev` to `post` and `post_dev` with the events `out`,
    /// where `decoded` is what the events were decoded to: `decoded` decodes
    /// them with the answers that take the keyboard to that of `post`, and
    /// applying it gives `out`, the new touch state of the device and the
    /// rest of the new shared state.
    pub open spec fn handles(
        self,
        dev: ManagedDevice,
        events: Seq<RawEvent>,
        now: u64,
        decoded: Seq<DeviceEvent>,
        post: GlobalInputState<K>,
        post_dev: ManagedDevice,
        out: Seq<WindowEvent>,
    ) -> bool {
        let p = run(self.start(dev), self.setting(dev, now), decoded);
        &&& decodes(events, decoded)
        &&& keyboard_run(self.keyboard, events, decoded, post.keyboard)
        &&& out == p.output
        &&& post.same_but_keyboard(self.after(p))
        &&& post_dev == (ManagedDevice { touch: p.touch, ..dev })
    }

    /// Handles the raw events that the device `dev` has delivered, in order,
    /// at the time `now`, and returns the events that they give: what
    /// `apply_events` makes of them, decoded with the keyboard's answers.
    /// Without events nothing changes and nothing is returned.
    pub fn process_device_events(
        &mut self,
        dev: &mut ManagedDevice,
        events: &Vec<RawEvent>,
        now: u64,
    ) -> (out: Vec<WindowEvent>)
        ensures
            exists|decoded: Seq<DeviceEvent>|
                old(self).handles(
                    *old(dev),
                    events@,
                    now,
                    decoded,
                    *final(self),
                    *final(dev),
                    out@,
                ),
            events@.len() == 0 ==> out@.len() == 0 && *final(self) == *old(self) && *final(dev)
                == *old(dev),
    {
        let decoded = self.decode_events(events);
        let out = self.apply_events(dev, &decoded, now);
        assert(old(self).handles(*old(dev), events@, now, decoded@, *self, *dev, out@));
        out
    }
}

/// The manager rescans for devices when the last scan is longer ago than this
/// many milliseconds.
pub const RESCAN_INTERVAL_MS: u64 = 3000;

/// How devices are to be found.
#[derive(Clone, Copy, Debug, PartialEq, Eq, Structural)]
pub enum Discovery {
    /// Not at all.
    Disabled,
    /// By a background task that hands each device that it finds to the
    /// manager.
    Background,
    /// By the manager's caller, whenever the manager asks for a rescan.
    Blocking,
}

/// What reading a device without waiting has given.
#[derive(Debug)]
pub enum DeviceRead {
    /// The events that were pending.
    Events(Vec<RawEvent>),
    /// Nothing was pending.
    WouldBlock,
    /// The read failed.
    Failed,
}

/// The events of a read; none where nothing was read.
pub open spec fn read_events(reads: Seq<DeviceRead>, i: int) -> Seq<RawEvent> {
    if 0 <= i < reads.len() {
        match reads[i] {
            DeviceRead::Events(v) => v@,
            _ => seq![],
        }
    } else {
        seq![]
    }
}

/// Whether the read of device `i` failed.
pub open spec fn read_failed(reads: Seq<DeviceRead>, i: int) -> bool {
    0 <= i < reads.len() && reads[i] is Failed
}

/// The devices from `i` on whose read did not fail, in order.
pub open spec fn kept_from(devices: Seq<ManagedDevice>, reads: Seq<DeviceRead>, i: int) -> Seq<
    ManagedDevice,
>
    decreases devices.len() - i,
{
    if i < 0 || i >= devices.len() {
        seq![]
    } else if read_failed(reads, i) {
        kept_from(devices, reads, i + 1)
    } else {
        seq![devices[i]] + kept_from(devices, reads, i + 1)
    }
}

/// Whether a device at `path` is among `devices`.
pub open spec fn path_registered(devices: Seq<ManagedDevice>, path: Seq<char>) -> bool {
    exists|i: int| 0 <= i < devices.len() && (#[trigger] devices[i]).path@ == path
}

/// The devices of `devices` whose path is among `found`, in order.
pub open spec fn retained(devices: Seq<ManagedDevice>, found: Seq<String>) -> Seq<ManagedDevice>
    decreases devices.len(),
{
    if devices.len() == 0 {
        seq![]
    } else if path_listed(found, devices.last().path@) {
        retained(devices.drop_last(), found).push(devices.last())
    } else {
        retained(devices.drop_last(), found)
    }
}

/// The paths of `found` at which `devices` has no device, each once, in the
/// order in which they first occur.
pub open spec fn unregistered(found: Seq<String>, devices: Seq<ManagedDevice>) -> Seq<Seq<char>> {
    kept_once(found, |path: Seq<char>| !path_registered(devices, path))
}

/// No two devices have the same path.
pub open spec fn distinct_paths(devices: Seq<ManagedDevice>) -> bool {
    forall|i: int, j: int|
        0 <= i < devices.len() && 0 <= j < devices.len() && i != j ==> devices[i].path@
            != devices[j].path@
}

/// The state of a poll cycle: the shared state, the devices, and the events
/// so far.
pub struct PollProgress<K> {
    pub state: GlobalInputState<K>,
    pub devices: Seq<ManagedDevice>,
    pub output: Seq<WindowEvent>,
}

/// What handling the events of device `i`, decoded to `decoded`, does to a
/// poll cycle.
pub open spec fn poll_step<K: KeyboardStrategy>(
    p: PollProgress<K>,
    i: int,
    decoded: Seq<DeviceEvent>,
    now: u64,
) -> PollProgress<K> {
    let r = run(p.state.start(p.devices[i]), p.state.setting(p.devices[i], now), decoded);
    PollProgress {
        state: p.state.after(r),
        devices: p.devices.update(i, ManagedDevice { touch: r.touch, ..p.devices[i] }),
        output: p.output + r.output,
    }
}

/// What handling the events of the first `n` devices does to a poll cycle,
/// where `decoded[i]` is what the events of device `i` were decoded to.
pub open spec fn poll_run<K: KeyboardStrategy>(
    p: PollProgress<K>,
    decoded: Seq<Seq<DeviceEvent>>,
    n: int,
    now: u64,
) -> PollProgress<K>
    decreases n,
{
    if n <= 0 {
        p
    } else {
        poll_step(poll_run(p, decoded, n - 1, now), n - 1, decoded[n - 1], now)
    }
}

/// The input manager: the devices, the state that they share, and the
/// configuration.
pub struct InputManager<K> {
    /// The devices, in the order in which they were taken.
    pub devices: Vec<ManagedDevice>,
    /// When devices were last scanned for, in milliseconds.
    pub last_rescan: u64,
    /// The configuration.
    pub config: InputConfig,
    /// The state that the devices share.
    pub state: GlobalInputState<K>,
}

impl<K: KeyboardStrategy> InputManager<K> {
    /// Whether `decoded` decodes the reads of the first `n` devices.
    pub open spec fn decodes_reads(
        reads: Seq<DeviceRead>,
        decoded: Seq<Seq<DeviceEvent>>,
        n: int,
    ) -> bool {
        &&& decoded.len() == n
        &&& forall|i: int| 0 <= i < n ==> decodes(read_events(reads, i), #[trigger] decoded[i])
    }

    /// Whether the keyboard can go through `keyboards` on the reads of the
    /// first `n` devices, decoded to `decoded`: from `keyboards[i]` to the next
    /// on the events of device `i`, starting from `first`.
    pub open spec fn keyboards_run(
        first: K,
        reads: Seq<DeviceRead>,
        decoded: Seq<Seq<DeviceEvent>>,
        keyboards: Seq<K>,
        n: int,
    ) -> bool {
        &&& keyboards.len() == n + 1
        &&& keyboards[0] == first
        &&& forall|i: int|
            0 <= i < n ==> keyboard_run(
                keyboards[i],
                read_events(reads, i),
                #[trigger] decoded[i],
                keyboards[i + 1],
            )
    }

    /// Whether a poll cycle with `reads` at `now` can lead from this manager
    /// to `post` with the events `out`, where `decoded[i]` is what the events
    /// of device `i` were decoded to and `keyboards` are the states that the
    /// keyboard went through: the devices are handled in order, each on the
    /// state that the one before has left, and the devices whose read failed
    /// are then dropped.
    pub open spec fn polls(
        self,
        reads: Seq<DeviceRead>,
        now: u64,
        decoded: Seq<Seq<DeviceEvent>>,
        keyboards: Seq<K>,
        post: InputManager<K>,
        out: Seq<WindowEvent>,
    ) -> bool {
        let n = self.devices@.len() as int;
        let p = poll_run(
            PollProgress { state: self.state, devices: self.devices@, output: seq![] },
            decoded,
            n,
            now,
        );
        &&& Self::decodes_reads(reads, decoded, n)
        &&& Self::keyboards_run(self.state.keyboard, reads, decoded, keyboards, n)
        &&& post.state.keyboard == keyboards[n]
        &&& out == p.output
        &&& post.state.same_but_keyboard(p.state)
        &&& post.devices@ == kept_from(p.devices, reads, 0)
        &&& post.last_rescan == self.last_rescan
        &&& post.config == self.config
    }

    /// Whether nothing was read from any device: no events and no failure.
    pub open spec fn nothing_read(self, reads: Seq<DeviceRead>) -> bool {
        forall|i: int|
            #![trigger read_events(reads, i)]
            #![trigger read_failed(reads, i)]
            0 <= i < self.devices@.len() ==> read_events(reads, i).len() == 0 && !read_failed(
                reads,
                i,
            )
    }

    /// A manager for a screen of the given size, without devices, with the
    /// pointer in the middle of the screen. The keyboard is handed in as it
    /// came out of its construction: if that failed, so does this, with the
    /// same error.
    pub fn new(
        screen_width: u32,
        screen_height: u32,
        config: InputConfig,
        keyboard: Result<K, Error>,
        now: u64,
    ) -> (r: Result<InputManager<K>, Error>)
        ensures
            match keyboard {
                Ok(k) => r matches Ok(m) && m.devices@.len() == 0 && m.last_rescan == now
                    && m.config == config && m.state == (GlobalInputState {
                    pointer_pos: PhysicalPosition {
                        x: (screen_width / 2) as i32,
                        y: (screen_height / 2) as i32,
                    },
                    is_left_pressed: false,
                    screen_width,
                    screen_height,
                    keyboard: k,
                    last_move_time: now,
                }),
                Err(e) => r == Err::<InputManager<K>, Error>(e),
            },
    {
        match keyboard {
            Ok(k) => Ok(
                InputManager {
                    devices: Vec::new(),
                    last_rescan: now,
                    config,
                    state: GlobalInputState {
                        pointer_pos: PhysicalPosition {
                            x: (screen_width / 2) as i32,
                            y: (screen_height / 2) as i32,
                        },
                        is_left_pressed: false,
                        screen_width,
                        screen_height,
                        keyboard: k,
                        last_move_time: now,
                    },
                },
            ),
            Err(e) => Err(e),
        }
    }

    /// How the configuration wants devices to be found.
    pub fn discovery(&self) -> (r: Discovery)
        ensures
            r == (if !self.config.autodiscovery {
                Discovery::Disabled
            } else if self.config.threaded_input {
                Discovery::Background
            } else {
                Discovery::Blocking
            }),
    {
        if !self.config.autodiscovery {
            Discovery::Disabled
        } else if self.config.threaded_input {
            Discovery::Background
        } else {
            Discovery::Blocking
        }
    }

    /// The descriptors of the devices, in order, for whoever waits for input.
    pub fn get_poll_fds(&self) -> (fds: Vec<i32>)
        ensures
            fds@.len() == self.devices@.len(),
            forall|i: int| 0 <= i < fds@.len() ==> fds@[i] == self.devices@[i].fd,
    {
        let mut fds: Vec<i32> = Vec::new();
        let mut i: usize = 0;
        while i < self.devices.len()
            invariant
                i <= self.devices.len(),
                fds@.len() == i,
                forall|j: int| 0 <= j < i ==> fds@[j] == self.devices@[j].fd,
            decreases self.devices.len() - i,
        {
            fds.push(self.devices[i].fd);
            i = i + 1;
        }
        fds
    }

    /// Tests whether the manager has a device at `path`.
    pub fn has_device(&self, path: &str) -> (r: bool)
        ensures
            r == path_registered(self.devices@, path@),
    {
        let mut i: usize = 0;
        while i < self.devices.len()
            invariant
                i <= self.devices.len(),
                forall|j: int| 0 <= j < i ==> (#[trigger] self.devices@[j]).path@ != path@,
            decreases self.devices.len() - i,
        {
            if str_equal(self.devices[i].path.as_str(), path) {
                return true;
            }
            i = i + 1;
        }
        false
    }

    /// Takes a device that was found, unless there is one at its path
    /// already, and says whether it was taken.
    pub fn add_device(&mut self, dev: ManagedDevice) -> (r: bool)
        ensures
            r == !path_registered(old(self).devices@, dev.path@),
            final(self).devices@ == (if r {
                old(self).devices@.push(dev)
            } else {
                old(self).devices@
            }),
            final(self).state == old(self).state,
            final(self).config == old(self).config,
            final(self).last_rescan == old(self).last_rescan,
            distinct_paths(old(self).devices@) ==> distinct_paths(final(self).devices@),
    {
        if self.has_device(dev.path.as_str()) {
            false
        } else {
            self.devices.push(dev);
            true
        }
    }

    /// Whether it is time to scan for devices: only where the manager's
    /// caller does the scanning, and the last scan is long enough ago.
    pub fn needs_rescan(&self, now: u64) -> (r: bool)
        ensures
            r == (self.config.autodiscovery && !self.config.threaded_input && elapsed_ms(
                self.last_rescan,
                now,
            ) > RESCAN_INTERVAL_MS),
    {
        let since: u64 = if now >= self.last_rescan {
            now - self.last_rescan
        } else {
            0
        };
        self.config.autodiscovery && !self.config.threaded_input && since > RESCAN_INTERVAL_MS
    }

    /// Takes in the result of a scan for device nodes: the devices whose node
    /// is gone are dropped, and the paths of the nodes that have no device are
    /// returned, each once, for the caller to open them and hand them to
    /// `add_device`.
    pub fn rescan(&mut self, found: &Vec<String>, now: u64) -> (to_open: Vec<String>)
        ensures
            final(self).devices@ == retained(old(self).devices@, found@),
            holds_texts(to_open@, unregistered(found@, final(self).devices@)),
            distinct_strings(to_open@),
            final(self).last_rescan == now,
            final(self).state == old(self).state,
            final(self).config == old(self).config,
            distinct_paths(old(self).devices@) ==> distinct_paths(final(self).devices@),
    {
        proof {
            lemma_retained_distinct(old(self).devices@, found@);
        }
        let mut all: Vec<ManagedDevice> = Vec::new();
        std::mem::swap(&mut self.devices, &mut all);
        let ghost before = all@;
        let mut kept: Vec<ManagedDevice> = Vec::new();
        for d in it: all
            invariant
                it.seq() == before,
                kept@ == retained(before.take(it.index() as int), found@),
        {
            assert(before.take(it.index() + 1).drop_last() =~= before.take(it.index() as int));
            if path_is_listed(found, d.path.as_str()) {
                kept.push(d);
            }
        }
        assert(before.take(before.len() as int) =~= before);
        self.devices = kept;
        let mut to_open: Vec<String> = Vec::new();
        let ghost keep = |path: Seq<char>| !path_registered(self.devices@, path);
        let mut i: usize = 0;
        assert(found@.take(0) =~= seq![]);
        while i < found.len()
            invariant
                i <= found.len(),
                keep == (|path: Seq<char>| !path_registered(self.devices@, path)),
                holds_texts(to_open@, kept_once(found@.take(i as int), keep)),
            decreases found.len() - i,
        {
            let wanted = !self.has_device(found[i].as_str());
            keep_next(&mut to_open, found, i, wanted, Ghost(keep));
            i = i + 1;
        }
        proof {
            assert(found@.take(found.len() as int) =~= found@);
            lemma_kept_once(found@, keep);
            lemma_distinct_is_no_duplicates(to_open@, kept_once(found@, keep));
        }
        self.last_rescan = now;
        to_open
    }

    /// Handles what was read from device `i`, and returns what its events
    /// were decoded to.
    fn poll_device(
        &mut self,
        i: usize,
        reads: &Vec<DeviceRead>,
        now: u64,
        out: &mut Vec<WindowEvent>,
    ) -> (decoded: Ghost<Seq<DeviceEvent>>)
        requires
            i < old(self).devices@.len(),
        ensures
            ({
                let before = PollProgress {
                    state: old(self).state,
                    devices: old(self).devices@,
                    output: old(out)@,
                };
                let p = poll_step(before, i as int, decoded@, now);
                &&& decodes(read_events(reads@, i as int), decoded@)
                &&& keyboard_run(
                    old(self).state.keyboard,
                    read_events(reads@, i as int),
                    decoded@,
                    final(self).state.keyboard,
                )
                &&& final(out)@ == p.output
                &&& final(self).state.same_but_keyboard(p.state)
                &&& final(self).devices@ == p.devices
                &&& final(self).last_rescan == old(self).last_rescan
                &&& final(self).config == old(self).config
            }),
            read_events(reads@, i as int).len() == 0 ==> *final(self) == *old(self) && final(out)@
                == old(out)@,
    {
        let ghost mut d: Seq<DeviceEvent> = Seq::empty();
        let ghost before = PollProgress {
            state: old(self).state,
            devices: old(self).devices@,
            output: old(out)@,
        };
        proof {
            lemma_keyboard_run_empty(self.state.keyboard);
        }
        if i < reads.len() {
            match &reads[i] {
                DeviceRead::Events(events) => {
                    if events.len() > 0 {
                        let ghost pre_state = self.state;
                        let ghost pre_dev = self.devices@[i as int];
                        let mut new_events = self.state.process_device_events(
                            &mut self.devices[i],
                            events,
                            now,
                        );
                        proof {
                            d = choose|d: Seq<DeviceEvent>|
                                pre_state.handles(
                                    pre_dev,
                                    events@,
                                    now,
                                    d,
                                    self.state,
                                    self.devices@[i as int],
                                    new_events@,
                                );
                        }
                        out.append(&mut new_events);
                    } else {
                        assert(events@ =~= Seq::<RawEvent>::empty());
                    }
                },
                _ => {},
            }
        }
        proof {
            assert(self.devices@ =~= poll_step(before, i as int, d, now).devices);
            assert(out@ =~= poll_step(before, i as int, d, now).output);
        }
        Ghost(d)
    }

    /// One poll cycle, at the time `now`. `reads[i]` is what reading device
    /// `i` without waiting has given; a device without a read counts as one
    /// with nothing pending. The devices are handled in order, and the events
    /// of all of them are returned, those of one device in the order in which
    /// it delivered them. A device whose read failed is dropped at the end of
    /// the cycle. If nothing was read, nothing is returned and nothing
    /// changes.
    pub fn poll(&mut self, reads: &Vec<DeviceRead>, now: u64) -> (out: Vec<WindowEvent>)
        ensures
            exists|decoded: Seq<Seq<DeviceEvent>>, keyboards: Seq<K>|
                old(self).polls(reads@, now, decoded, keyboards, *final(self), out@),
            old(self).nothing_read(reads@) ==> out@.len() == 0 && *final(self) == *old(self),
            distinct_paths(old(self).devices@) ==> distinct_paths(final(self).devices@),
    {
        let n = self.devices.len();
        let ghost p0 = PollProgress {
            state: old(self).state,
            devices: old(self).devices@,
            output: seq![],
        };
        let ghost mut decoded: Seq<Seq<DeviceEvent>> = seq![];
        let ghost mut keyboards: Seq<K> = seq![self.state.keyboard];
        let mut out: Vec<WindowEvent> = Vec::new();
        let mut i: usize = 0;
        while i < n
            invariant
                i <= n,
                n == old(self).devices@.len(),
                self.devices@.len() == n,
                p0 == (PollProgress {
                    state: old(self).state,
                    devices: old(self).devices@,
                    output: seq![],
                }),
                Self::decodes_reads(reads@, decoded, i as int),
                Self::keyboards_run(old(self).state.keyboard, reads@, decoded, keyboards, i as int),
                self.state.keyboard == keyboards[i as int],
                out@ == poll_run(p0, decoded, i as int, now).output,
                self.state.same_but_keyboard(poll_run(p0, decoded, i as int, now).state),
                self.devices@ == poll_run(p0, decoded, i as int, now).devices,
                self.last_rescan == old(self).last_rescan,
                self.config == old(self).config,
                (forall|j: int| 0 <= j < i ==> (#[trigger] read_events(reads@, j)).len() == 0)
                    ==> out@.len() == 0 && *self == *old(self),
            decreases n - i,
        {
            let ghost before = poll_run(p0, decoded, i as int, now);
            let Ghost(d) = self.poll_device(i, reads, now, &mut out);
            proof {
                let next = decoded.push(d);
                let next_keyboards = keyboards.push(self.state.keyboard);
                assert forall|k: int| 0 <= k <= i implies poll_run(p0, next, k, now) == poll_run(
                    p0,
                    decoded,
                    k,
                    now,
                ) by {
                    lemma_poll_run_prefix(p0, decoded, next, k, now);
                }
                assert(next[i as int] == d);
                assert(poll_run(p0, next, i + 1, now) == poll_step(before, i as int, d, now));
                assert(Self::keyboards_run(
                    old(self).state.keyboard,
                    reads@,
                    next,
                    next_keyboards,
                    i + 1,
                )) by {
                    assert forall|j: int| 0 <= j < i + 1 implies keyboard_run(
                        next_keyboards[j],
                        read_events(reads@, j),
                        #[trigger] next[j],
                        next_keyboards[j + 1],
                    ) by {
                        if j < i {
                            assert(next[j] == decoded[j]);
                            assert(next_keyboards[j] == keyboards[j]);
                            assert(next_keyboards[j + 1] == keyboards[j + 1]);
                        }
                    }
                }
                assert(Self::decodes_reads(reads@, next, i + 1)) by {
                    assert forall|j: int| 0 <= j < i + 1 implies decodes(
                        read_events(reads@, j),
                        #[trigger] next[j],
                    ) by {
                        if j < i {
                            assert(next[j] == decoded[j]);
                        }
                    }
                }
                decoded = next;
                keyboards = next_keyboards;
            }
            i = i + 1;
        }
        let ghost p = poll_run(p0, decoded, n as int, now);
        proof {
            lemma_poll_run_paths(p0, decoded, n as int, now);
            lemma_kept_from_distinct(p.devices, reads@, 0);
        }
        assert(old(self).nothing_read(reads@) ==> forall|j: int|
            0 <= j < n ==> (#[trigger] read_events(reads@, j)).len() == 0);
        let mut k: usize = n;
        while k > 0
            invariant
                k <= n,
                p.devices.len() == n,
                self.devices@ =~= p.devices.take(k as int) + kept_from(p.devices, reads@, k as int),
                self.state.same_but_keyboard(p.state),
                self.state.keyboard == keyboards[n as int],
                self.last_rescan == old(self).last_rescan,
                self.config == old(self).config,
                out@ == p.output,
                old(self).nothing_read(reads@) ==> out@.len() == 0 && *self == *old(self),
            decreases k,
        {
            k = k - 1;
            let failed = k < reads.len() && match &reads[k] {
                DeviceRead::Failed => true,
                _ => false,
            };
            if failed {
                let gone = self.devices.remove(k);
            }
        }
        assert(old(self).polls(reads@, now, decoded, keyboards, *self, out@));
        out
    }
}

/// A device that is kept is one whose read has not failed.
pub proof fn lemma_kept_from_not_failed(
    devices: Seq<ManagedDevice>,
    reads: Seq<DeviceRead>,
    i: int,
    j: int,
)
    requires
        0 <= i,
        0 <= j < kept_from(devices, reads, i).len(),
    ensures
        exists|k: int|
            i <= k < devices.len() && !read_failed(reads, k) && #[trigger] devices[k] == kept_from(
                devices,
                reads,
                i,
            )[j],
    decreases devices.len() - i,
{
    if i < devices.len() {
        let rest = kept_from(devices, reads, i + 1);
        let kept = kept_from(devices, reads, i);
        if read_failed(reads, i) {
            lemma_kept_from_not_failed(devices, reads, i + 1, j);
            let k = choose|k: int|
                i + 1 <= k < devices.len() && !read_failed(reads, k) && #[trigger] devices[k]
                    == rest[j];
            assert(devices[k] == kept[j]);
        } else {
            assert(kept =~= seq![devices[i]] + rest);
            if j == 0 {
                assert(devices[i] == kept[0]);
            } else {
                lemma_kept_from_not_failed(devices, reads, i + 1, j - 1);
                let k = choose|k: int|
                    i + 1 <= k < devices.len() && !read_failed(reads, k) && #[trigger] devices[k]
                        == rest[j - 1];
                assert(kept[j] == rest[j - 1]);
                assert(devices[k] == kept[j]);
            }
        }
    }
}

/// Where no two devices share a path, the path of a device whose read has
/// failed is no longer registered after the poll cycle.
pub proof fn lemma_failed_device_is_dropped(
    devices: Seq<ManagedDevice>,
    reads: Seq<DeviceRead>,
    i: int,
)
    requires
        distinct_paths(devices),
        0 <= i < devices.len(),
        read_failed(reads, i),
    ensures
        !path_registered(kept_from(devices, reads, 0), devices[i].path@),
{
    let kept = kept_from(devices, reads, 0);
    if path_registered(kept, devices[i].path@) {
        let j = choose|j: int| 0 <= j < kept.len() && (#[trigger] kept[j]).path@ == devices[i].path@;
        lemma_kept_from_not_failed(devices, reads, 0, j);
        let k = choose|k: int|
            0 <= k < devices.len() && !read_failed(reads, k) && #[trigger] devices[k] == kept[j];
        assert(k != i);
        assert(devices[k].path@ == devices[i].path@);
    }
}

/// Where no read has failed, every device is kept.
pub proof fn lemma_kept_from_all(devices: Seq<ManagedDevice>, reads: Seq<DeviceRead>, i: int)
    requires
        0 <= i <= devices.len(),
        forall|j: int| i <= j < devices.len() ==> !#[trigger] read_failed(reads, j),
    ensures
        kept_from(devices, reads, i) == devices.skip(i),
    decreases devices.len() - i,
{
    if i < devices.len() {
        lemma_kept_from_all(devices, reads, i + 1);
        assert(!read_failed(reads, i));
        assert(devices.skip(i) =~= seq![devices[i]] + devices.skip(i + 1));
    } else {
        assert(devices.skip(i) =~= seq![]);
    }
}

/// A poll cycle in which nothing was read has one outcome, whatever the
/// keyboard: no events, and the manager as it was.
pub proof fn lemma_idle_poll<K: KeyboardStrategy>(
    manager: InputManager<K>,
    reads: Seq<DeviceRead>,
    now: u64,
    decoded: Seq<Seq<DeviceEvent>>,
    keyboards: Seq<K>,
    post: InputManager<K>,
    out: Seq<WindowEvent>,
)
    requires
        manager.polls(reads, now, decoded, keyboards, post, out),
        manager.nothing_read(reads),
    ensures
        out.len() == 0,
        post.state == manager.state,
        post.devices@ == manager.devices@,
        post.last_rescan == manager.last_rescan,
        post.config == manager.config,
{
    let n = manager.devices@.len() as int;
    let p0 = PollProgress { state: manager.state, devices: manager.devices@, output: seq![] };
    lemma_idle_poll_run(p0, reads, decoded, keyboards, n, n, now);
    lemma_kept_from_all(manager.devices@, reads, 0);
    assert(manager.devices@.skip(0) =~= manager.devices@);
}

/// Handling devices from which nothing was read changes nothing of a poll
/// cycle, and leaves the keyboard as it was.
pub proof fn lemma_idle_poll_run<K: KeyboardStrategy>(
    p: PollProgress<K>,
    reads: Seq<DeviceRead>,
    decoded: Seq<Seq<DeviceEvent>>,
    keyboards: Seq<K>,
    n: int,
    m: int,
    now: u64,
)
    requires
        0 <= m <= n <= p.devices.len(),
        InputManager::<K>::decodes_reads(reads, decoded, n),
        InputManager::<K>::keyboards_run(p.state.keyboard, reads, decoded, keyboards, n),
        forall|i: int| 0 <= i < n ==> (#[trigger] read_events(reads, i)).len() == 0,
    ensures
        poll_run(p, decoded, m, now).state == p.state,
        poll_run(p, decoded, m, now).devices == p.devices,
        poll_run(p, decoded, m, now).output == p.output,
        keyboards[m] == p.state.keyboard,
    decreases m,
{
    if m > 0 {
        lemma_idle_poll_run(p, reads, decoded, keyboards, n, m - 1, now);
        let d = decoded[m - 1];
        assert(decodes(read_events(reads, m - 1), d));
        assert(d =~= Seq::<DeviceEvent>::empty());
        assert(keyboard_run(keyboards[m - 1], read_events(reads, m - 1), d, keyboards[m - 1 + 1]));
        reveal(keyboard_run);
        let before = poll_run(p, decoded, m - 1, now);
        let after = poll_step(before, m - 1, d, now);
        assert(after.devices =~= before.devices);
        assert(after.output =~= before.output);
    }
}

/// A device that a rescan retains was registered before.
pub proof fn lemma_retained_registered(
    devices: Seq<ManagedDevice>,
    found: Seq<String>,
    path: Seq<char>,
)
    requires
        path_registered(retained(devices, found), path),
    ensures
        path_registered(devices, path),
    decreases devices.len(),
{
    if devices.len() > 0 {
        let before = devices.drop_last();
        let last = devices.last();
        let kept = retained(devices, found);
        let kept_before = retained(before, found);
        let j = choose|j: int| 0 <= j < kept.len() && (#[trigger] kept[j]).path@ == path;
        if j < kept_before.len() {
            assert(kept[j] == kept_before[j]);
            assert(path_registered(kept_before, path));
            lemma_retained_registered(before, found, path);
            let k = choose|k: int| 0 <= k < before.len() && (#[trigger] before[k]).path@ == path;
            assert(devices[k] == before[k]);
        } else {
            assert(kept[j] == last);
            assert(devices[devices.len() - 1].path@ == path);
        }
    }
}

/// If the devices had distinct paths before a rescan, so have those that it
/// retains.
pub proof fn lemma_retained_distinct(devices: Seq<ManagedDevice>, found: Seq<String>)
    ensures
        distinct_paths(devices) ==> distinct_paths(retained(devices, found)),
    decreases devices.len(),
{
    if devices.len() > 0 && distinct_paths(devices) {
        let before = devices.drop_last();
        let last = devices.last();
        lemma_retained_distinct(before, found);
        let kept = retained(devices, found);
        let kept_before = retained(before, found);
        assert(distinct_paths(before)) by {
            assert forall|a: int, b: int|
                0 <= a < before.len() && 0 <= b < before.len() && a != b implies before[a].path@
                != before[b].path@ by {
                assert(before[a] == devices[a]);
                assert(before[b] == devices[b]);
            }
        }
        assert(!path_registered(before, last.path@)) by {
            if path_registered(before, last.path@) {
                let k = choose|k: int|
                    0 <= k < before.len() && (#[trigger] before[k]).path@ == last.path@;
                assert(before[k] == devices[k]);
                assert(devices[devices.len() - 1] == last);
            }
        }
        assert forall|a: int, b: int|
            0 <= a < kept.len() && 0 <= b < kept.len() && a != b implies kept[a].path@
            != kept[b].path@ by {
            if a < kept_before.len() && b < kept_before.len() {
                assert(kept[a] == kept_before[a]);
                assert(kept[b] == kept_before[b]);
            } else if a < kept_before.len() {
                assert(kept[a] == kept_before[a]);
                assert(kept[b] == last);
                if kept[a].path@ == last.path@ {
                    assert(path_registered(kept_before, last.path@));
                    lemma_retained_registered(before, found, last.path@);
                }
            } else {
                assert(kept[b] == kept_before[b]);
                assert(kept[a] == last);
                if kept[b].path@ == last.path@ {
                    assert(path_registered(kept_before, last.path@));
                    lemma_retained_registered(before, found, last.path@);
                }
            }
        }
    }
}

/// A poll cycle leaves every device at its path.
pub proof fn lemma_poll_run_paths<K: KeyboardStrategy>(
    p: PollProgress<K>,
    decoded: Seq<Seq<DeviceEvent>>,
    n: int,
    now: u64,
)
    requires
        n <= p.devices.len(),
    ensures
        poll_run(p, decoded, n, now).devices.len() == p.devices.len(),
        forall|j: int|
            0 <= j < p.devices.len() ==> (#[trigger] poll_run(p, decoded, n, now).devices[j]).path
                == p.devices[j].path,
        distinct_paths(p.devices) ==> distinct_paths(poll_run(p, decoded, n, now).devices),
    decreases n,
{
    if n > 0 {
        lemma_poll_run_paths(p, decoded, n - 1, now);
    }
}

/// The devices that are kept are among the devices that were there, and if
/// those had distinct paths, so have these.
pub proof fn lemma_kept_from_distinct(devices: Seq<ManagedDevice>, reads: Seq<DeviceRead>, i: int)
    requires
        0 <= i,
    ensures
        forall|j: int|
            0 <= j < kept_from(devices, reads, i).len() ==> exists|k: int|
                i <= k < devices.len() && devices[k] == #[trigger] kept_from(devices, reads, i)[j],
        distinct_paths(devices) ==> distinct_paths(kept_from(devices, reads, i)),
    decreases devices.len() - i,
{
    if i < devices.len() {
        lemma_kept_from_distinct(devices, reads, i + 1);
        let rest = kept_from(devices, reads, i + 1);
        let kept = kept_from(devices, reads, i);
        if !read_failed(reads, i) {
            assert(kept =~= seq![devices[i]] + rest);
            assert forall|j: int| 0 <= j < kept.len() implies exists|k: int|
                i <= k < devices.len() && devices[k] == #[trigger] kept[j] by {
                if j == 0 {
                    assert(devices[i] == kept[0]);
                } else {
                    assert(kept[j] == rest[j - 1]);
                    let k = choose|k: int| i + 1 <= k < devices.len() && devices[k] == rest[j - 1];
                    assert(devices[k] == kept[j]);
                }
            }
            if distinct_paths(devices) {
                assert forall|a: int, b: int|
                    0 <= a < kept.len() && 0 <= b < kept.len() && a != b implies kept[a].path@
                    != kept[b].path@ by {
                    if a > 0 {
                        assert(kept[a] == rest[a - 1]);
                    }
                    if b > 0 {
                        assert(kept[b] == rest[b - 1]);
                    }
                    if a == 0 {
                        let k = choose|k: int|
                            i + 1 <= k < devices.len() && devices[k] == rest[b - 1];
                        assert(devices[i].path@ != devices[k].path@);
                    } else if b == 0 {
                        let k = choose|k: int|
                            i + 1 <= k < devices.len() && devices[k] == rest[a - 1];
                        assert(devices[i].path@ != devices[k].path@);
                    }
                }
            }
        } else {
            assert forall|j: int| 0 <= j < kept.len() implies exists|k: int|
                i <= k < devices.len() && devices[k] == #[trigger] kept[j] by {
                let k = choose|k: int| i + 1 <= k < devices.len() && devices[k] == rest[j];
                assert(devices[k] == kept[j]);
            }
        }
    }
}

/// `poll_run` looks at the decodings of the devices that it handles only.
pub proof fn lemma_poll_run_prefix<K: KeyboardStrategy>(
    p: PollProgress<K>,
    a: Seq<Seq<DeviceEvent>>,
    b: Seq<Seq<DeviceEvent>>,
    n: int,
    now: u64,
)
    requires
        n <= a.len(),
        n <= b.len(),
        forall|i: int| 0 <= i < n ==> a[i] == b[i],
    ensures
        poll_run(p, a, n, now) == poll_run(p, b, n, now),
    decreases n,
{
    if n > 0 {
        lemma_poll_run_prefix(p, a, b, n - 1, now);
    }
}

} // verus!
