//! Which devices the input manager takes, and as what.
//!
//! A device is described by its name, the codes of the axes and keys that it
//! has, and the raw ranges of its absolute axes. Its name is held against the
//! configured lists first. Then its role is decided by what it has: a
//! touchscreen before a mouse, a mouse before a keyboard.

use vstd::prelude::*;
use crate::input::codes;
use crate::input::touch::AbsInfo;
use crate::input::touch::TouchState;
use crate::input::touch::ABS_MT_POSITION_X;
use crate::input::touch::ABS_MT_POSITION_Y;
use crate::input::touch::ABS_MT_SLOT;
use crate::input::touch::ABS_X;
use crate::input::touch::ABS_Y;
use crate::input::paths::distinct_strings;
use crate::input::paths::holds_texts;
use crate::input::paths::keep_next;
use crate::input::paths::kept_once;
use crate::input::paths::lemma_distinct_is_no_duplicates;
use crate::input::paths::lemma_kept_once;
use crate::input::paths::path_is_listed;
use crate::input::paths::path_listed;
use crate::input::paths::push_once;
use crate::input::InputConfig;
use crate::input::ManagedDevice;
use crate::text::chars_of;
use crate::text::contains_chars;
use crate::text::contains_text;
use crate::text::has_prefix;
use crate::text::str_starts_with;

verus! {

/// Delay before a held key of a keyboard repeats, in milliseconds.
pub const KEY_REPEAT_DELAY: u32 = 250;

/// Time between two repeats of a held key, in milliseconds.
pub const KEY_REPEAT_PERIOD: u32 = 33;

/// The raw range of one absolute axis of a device.
#[derive(Clone, Copy, Debug, PartialEq, Eq, Structural)]
pub struct AxisRange {
    pub code: u16,
    pub info: AbsInfo,
}

/// What a device says of itself.
#[derive(Debug)]
pub struct DeviceDescription {
    /// The device's name, if it has one.
    pub name: Option<String>,
    /// Codes of its absolute axes.
    pub abs_axes: Vec<u16>,
    /// Codes of its relative axes.
    pub rel_axes: Vec<u16>,
    /// Codes of its keys and buttons.
    pub keys: Vec<u16>,
    /// Raw ranges of its absolute axes, in the order in which it lists them.
    pub abs_info: Vec<AxisRange>,
}

/// What a device is used as.
#[derive(Clone, Copy, Debug, PartialEq, Eq, Structural)]
pub enum DeviceRole {
    Touchscreen,
    Mouse,
    Keyboard,
}

/// The auto-repeat setting of a keyboard.
#[derive(Clone, Copy, Debug, PartialEq, Eq, Structural)]
pub struct AutoRepeat {
    pub delay: u32,
    pub period: u32,
}

/// The name that a device goes by: its own, or a fixed one where it has none.
pub open spec fn device_name(desc: DeviceDescription) -> Seq<char> {
    match desc.name {
        Some(n) => n@,
        None => "Unknown Device"@,
    }
}

/// Whether one of the texts of `list` stands in `name`.
pub open spec fn matches_list(name: Seq<char>, list: Seq<String>) -> bool {
    exists|i: int| 0 <= i < list.len() && contains_text(name, (#[trigger] list[i])@)
}

/// Whether the configured lists let a device of this name through: no text of
/// the blacklist stands in it, and, where the whitelist is not empty, one of
/// its texts does.
pub open spec fn name_allowed(name: Seq<char>, config: InputConfig) -> bool {
    &&& !matches_list(name, config.blacklist@)
    &&& config.whitelist@.len() == 0 || matches_list(name, config.whitelist@)
}

/// A touchscreen has an absolute X axis, plain or multi-touch.
pub open spec fn is_touchscreen(desc: DeviceDescription) -> bool {
    desc.abs_axes@.contains(ABS_MT_POSITION_X) || desc.abs_axes@.contains(ABS_X)
}

/// A mouse has a relative X axis and a left button.
pub open spec fn is_mouse(desc: DeviceDescription) -> bool {
    desc.rel_axes@.contains(codes::REL_X) && desc.keys@.contains(codes::BTN_LEFT)
}

/// A keyboard has the key A and the Enter key.
pub open spec fn is_keyboard(desc: DeviceDescription) -> bool {
    desc.keys@.contains(codes::KEY_A) && desc.keys@.contains(codes::KEY_ENTER)
}

/// The role of a device, if it has one.
pub open spec fn device_role(desc: DeviceDescription) -> Option<DeviceRole> {
    if is_touchscreen(desc) {
        Some(DeviceRole::Touchscreen)
    } else if is_mouse(desc) {
        Some(DeviceRole::Mouse)
    } else if is_keyboard(desc) {
        Some(DeviceRole::Keyboard)
    } else {
        None
    }
}

/// A device with a slot selector speaks protocol B.
pub open spec fn speaks_protocol_b(desc: DeviceDescription) -> bool {
    desc.abs_axes@.contains(ABS_MT_SLOT)
}

/// The last range in `ranges` of an axis with one of the two codes.
pub open spec fn last_range(ranges: Seq<AxisRange>, code_a: u16, code_b: u16) -> Option<AbsInfo>
    decreases ranges.len(),
{
    if ranges.len() == 0 {
        None
    } else if ranges.last().code == code_a || ranges.last().code == code_b {
        Some(ranges.last().info)
    } else {
        last_range(ranges.drop_last(), code_a, code_b)
    }
}

/// The role in which the manager takes the device, if it takes it.
pub open spec fn admitted(desc: DeviceDescription, config: InputConfig) -> Option<DeviceRole> {
    if name_allowed(device_name(desc), config) {
        device_role(desc)
    } else {
        None
    }
}

/// The auto-repeat setting that a device of this role is given.
pub open spec fn auto_repeat_of(role: DeviceRole) -> Option<AutoRepeat> {
    if role == DeviceRole::Keyboard {
        Some(AutoRepeat { delay: KEY_REPEAT_DELAY, period: KEY_REPEAT_PERIOD })
    } else {
        None
    }
}

/// Tests whether `code` is among `list`.
pub fn has_code(list: &Vec<u16>, code: u16) -> (r: bool)
    ensures
        r == list@.contains(code),
{
    let mut i: usize = 0;
    while i < list.len()
        invariant
            i <= list.len(),
            forall|j: int| 0 <= j < i ==> list@[j] != code,
        decreases list.len() - i,
    {
        if list[i] == code {
            return true;
        }
        i = i + 1;
    }
    false
}

/// Tests whether one of the texts of `list` stands in `name`.
pub fn name_matches_list(name: &Vec<char>, list: &Vec<String>) -> (r: bool)
    ensures
        r == matches_list(name@, list@),
{
    let mut i: usize = 0;
    while i < list.len()
        invariant
            i <= list.len(),
            forall|j: int| 0 <= j < i ==> !contains_text(name@, (#[trigger] list@[j])@),
        decreases list.len() - i,
    {
        let pattern = chars_of(list[i].as_str());
        if contains_chars(name, &pattern) {
            return true;
        }
        i = i + 1;
    }
    false
}

/// Tests whether the configured lists let a device of this name through.
pub fn is_name_allowed(name: &str, config: &InputConfig) -> (r: bool)
    ensures
        r == name_allowed(name@, *config),
{
    let chars = chars_of(name);
    if name_matches_list(&chars, &config.blacklist) {
        return false;
    }
    config.whitelist.len() == 0 || name_matches_list(&chars, &config.whitelist)
}

/// Tests whether the configured lists let the device through, by the name
/// that it goes by.
pub fn is_device_allowed(desc: &DeviceDescription, config: &InputConfig) -> (r: bool)
    ensures
        r == name_allowed(device_name(*desc), *config),
{
    match &desc.name {
        Some(n) => is_name_allowed(n.as_str(), config),
        None => is_name_allowed("Unknown Device", config),
    }
}

/// Decides the role of a device.
pub fn classify(desc: &DeviceDescription) -> (r: Option<DeviceRole>)
    ensures
        r == device_role(*desc),
{
    if has_code(&desc.abs_axes, ABS_MT_POSITION_X) || has_code(&desc.abs_axes, ABS_X) {
        Some(DeviceRole::Touchscreen)
    } else if has_code(&desc.rel_axes, codes::REL_X) && has_code(&desc.keys, codes::BTN_LEFT) {
        Some(DeviceRole::Mouse)
    } else if has_code(&desc.keys, codes::KEY_A) && has_code(&desc.keys, codes::KEY_ENTER) {
        Some(DeviceRole::Keyboard)
    } else {
        None
    }
}

/// Finds the last range of an axis with one of the two codes.
pub fn find_last_range(ranges: &Vec<AxisRange>, code_a: u16, code_b: u16) -> (r: Option<AbsInfo>)
    ensures
        r == last_range(ranges@, code_a, code_b),
{
    let mut i: usize = ranges.len();
    assert(ranges@.take(i as int) =~= ranges@);
    while i > 0
        invariant
            i <= ranges.len(),
            last_range(ranges@, code_a, code_b) == last_range(
                ranges@.take(i as int),
                code_a,
                code_b,
            ),
        decreases i,
    {
        assert(ranges@.take(i as int).drop_last() =~= ranges@.take(i - 1));
        if ranges[i - 1].code == code_a || ranges[i - 1].code == code_b {
            return Some(ranges[i - 1].info);
        }
        i = i - 1;
    }
    None
}

/// The auto-repeat setting that a device of this role is to be given.
pub fn auto_repeat_for(role: DeviceRole) -> (r: Option<AutoRepeat>)
    ensures
        r == auto_repeat_of(role),
{
    match role {
        DeviceRole::Keyboard => Some(
            AutoRepeat { delay: KEY_REPEAT_DELAY, period: KEY_REPEAT_PERIOD },
        ),
        _ => None,
    }
}

/// Decides whether the manager takes a device that has been opened at `path`
/// under the descriptor `fd`, and sets up its state if it does. A device that
/// the lists do not let through, or that has no role, is not taken. A
/// touchscreen gets the ranges of its X and Y axes; no other device has any.
pub fn open_device_if_compatible(
    path: String,
    fd: i32,
    desc: &DeviceDescription,
    config: &InputConfig,
) -> (r: Option<ManagedDevice>)
    ensures
        r is Some <==> admitted(*desc, *config) is Some,
        r matches Some(d) ==> {
            &&& d.path == path
            &&& d.fd == fd
            &&& Some(d.role) == admitted(*desc, *config)
            &&& d.is_protocol_b == speaks_protocol_b(*desc)
            &&& d.abs_x_info == (if d.role == DeviceRole::Touchscreen {
                last_range(desc.abs_info@, ABS_X, ABS_MT_POSITION_X)
            } else {
                None
            })
            &&& d.abs_y_info == (if d.role == DeviceRole::Touchscreen {
                last_range(desc.abs_info@, ABS_Y, ABS_MT_POSITION_Y)
            } else {
                None
            })
            &&& d.touch.is_fresh()
        },
{
    if !is_device_allowed(desc, config) {
        return None;
    }
    let is_protocol_b = has_code(&desc.abs_axes, ABS_MT_SLOT);
    match classify(desc) {
        Some(role) => {
            let mut abs_x_info: Option<AbsInfo> = None;
            let mut abs_y_info: Option<AbsInfo> = None;
            if role == DeviceRole::Touchscreen {
                abs_x_info = find_last_range(&desc.abs_info, ABS_X, ABS_MT_POSITION_X);
                abs_y_info = find_last_range(&desc.abs_info, ABS_Y, ABS_MT_POSITION_Y);
            }
            Some(
                ManagedDevice {
                    path,
                    fd,
                    role,
                    abs_x_info,
                    abs_y_info,
                    is_protocol_b,
                    touch: TouchState::new(),
                },
            )
        },
        None => None,
    }
}

/// Tests whether `path` is that of an event node of an input device: only
/// those are looked at.
pub fn is_event_node(path: &str) -> (r: bool)
    ensures
        r == has_prefix(path@, "/dev/input/event"@),
{
    str_starts_with(path, "/dev/input/event")
}

/// What a background task that looks for devices remembers between its
/// scans: the nodes that it has handed over and that are still there, each
/// once. A node that goes away is forgotten, so that it is tried again when it
/// comes back.
#[derive(Debug)]
pub struct KnownPaths {
    pub paths: Vec<String>,
}

impl KnownPaths {
    /// No path is known twice.
    pub open spec fn wf(self) -> bool {
        distinct_strings(self.paths@)
    }

    /// Nothing is known yet.
    pub fn new() -> (k: KnownPaths)
        ensures
            k.paths@.len() == 0,
            k.wf(),
    {
        KnownPaths { paths: Vec::new() }
    }

    /// The nodes of a scan that are to be tried: those that are not known,
    /// each once.
    pub fn candidates(&self, current: &Vec<String>) -> (r: Vec<String>)
        ensures
            holds_texts(r@, kept_once(current@, |p: Seq<char>| !path_listed(self.paths@, p))),
            distinct_strings(r@),
    {
        let mut r: Vec<String> = Vec::new();
        let ghost keep = |p: Seq<char>| !path_listed(self.paths@, p);
        let mut i: usize = 0;
        assert(current@.take(0) =~= seq![]);
        while i < current.len()
            invariant
                i <= current.len(),
                keep == (|p: Seq<char>| !path_listed(self.paths@, p)),
                holds_texts(r@, kept_once(current@.take(i as int), keep)),
            decreases current.len() - i,
        {
            let wanted = !path_is_listed(&self.paths, current[i].as_str());
            keep_next(&mut r, current, i, wanted, Ghost(keep));
            i = i + 1;
        }
        proof {
            assert(current@.take(current.len() as int) =~= current@);
            lemma_kept_once(current@, keep);
            lemma_distinct_is_no_duplicates(r@, kept_once(current@, keep));
        }
        r
    }

    /// Remembers a node whose device was handed over, unless it is known.
    pub fn remember(&mut self, path: String)
        ensures
            final(self).paths@ == (if path_listed(old(self).paths@, path@) {
                old(self).paths@
            } else {
                old(self).paths@.push(path)
            }),
            old(self).wf() ==> final(self).wf(),
    {
        let added = push_once(&mut self.paths, path);
    }

    /// Ends a scan: the nodes that the scan has not found are forgotten. No
    /// path is known twice afterwards.
    pub fn forget_missing(&mut self, current: &Vec<String>)
        ensures
            holds_texts(
                final(self).paths@,
                kept_once(old(self).paths@, |p: Seq<char>| path_listed(current@, p)),
            ),
            final(self).wf(),
    {
        let mut kept: Vec<String> = Vec::new();
        let ghost keep = |p: Seq<char>| path_listed(current@, p);
        let mut i: usize = 0;
        assert(self.paths@.take(0) =~= seq![]);
        while i < self.paths.len()
            invariant
                i <= self.paths.len(),
                self.paths@ == old(self).paths@,
                keep == (|p: Seq<char>| path_listed(current@, p)),
                holds_texts(kept@, kept_once(self.paths@.take(i as int), keep)),
            decreases self.paths.len() - i,
        {
            let wanted = path_is_listed(current, self.paths[i].as_str());
            keep_next(&mut kept, &self.paths, i, wanted, Ghost(keep));
            i = i + 1;
        }
        proof {
            assert(self.paths@.take(self.paths.len() as int) =~= self.paths@);
            lemma_kept_once(self.paths@, keep);
            lemma_distinct_is_no_duplicates(kept@, kept_once(self.paths@, keep));
        }
        self.paths = kept;
    }
}

/// A device whose name holds a text of the blacklist is not taken, whatever
/// else it has.
pub proof fn lemma_blacklisted_is_not_taken(desc: DeviceDescription, config: InputConfig)
    requires
        matches_list(device_name(desc), config.blacklist@),
    ensures
        admitted(desc, config) is None,
{
}

/// With a whitelist that is not empty, a device whose name holds none of its
/// texts is not taken, whatever else it has.
pub proof fn lemma_unlisted_is_not_taken(desc: DeviceDescription, config: InputConfig)
    requires
        config.whitelist@.len() > 0,
        !matches_list(device_name(desc), config.whitelist@),
    ensures
        admitted(desc, config) is None,
{
}

/// A device that the lists let through is taken in the first role that fits:
/// a touchscreen before a mouse, a mouse before a keyboard.
pub proof fn lemma_role_priority(desc: DeviceDescription, config: InputConfig)
    requires
        name_allowed(device_name(desc), config),
    ensures
        is_touchscreen(desc) ==> admitted(desc, config) == Some(DeviceRole::Touchscreen),
        !is_touchscreen(desc) && is_mouse(desc) ==> admitted(desc, config) == Some(
            DeviceRole::Mouse,
        ),
        !is_touchscreen(desc) && !is_mouse(desc) && is_keyboard(desc) ==> admitted(desc, config)
            == Some(DeviceRole::Keyboard),
        !is_touchscreen(desc) && !is_mouse(desc) && !is_keyboard(desc) ==> admitted(desc, config)
            is None,
{
}

} // verus!
