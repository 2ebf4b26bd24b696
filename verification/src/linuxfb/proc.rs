//! The list of devices that the kernel knows, as it prints it: one line for
//! each driver, with its major number and its name, under a heading for
//! character devices and one for block devices.

use vstd::prelude::*;
use vstd::string::StrSliceExecFns;
use crate::text::chars_of;
use crate::text::has_prefix;
use crate::text::str_starts_with;

verus! {

/// The kind of a device.
#[derive(Clone, Copy, Debug, PartialEq, Eq, Structural)]
pub enum DeviceKind {
    Character,
    Block,
}

/// One driver of the list.
#[derive(Debug, PartialEq, Eq)]
pub struct Device {
    pub kind: DeviceKind,
    pub major: u32,
    pub driver: String,
}

/// A driver of the list, with its name as text.
pub struct DeviceView {
    pub kind: DeviceKind,
    pub major: u32,
    pub driver: Seq<char>,
}

impl View for Device {
    type V = DeviceView;

    open spec fn view(&self) -> DeviceView {
        DeviceView { kind: self.kind, major: self.major, driver: self.driver@ }
    }
}

/// Whether the character is white space.
pub open spec fn is_space(c: char) -> bool {
    ||| '\u{9}' <= c <= '\u{d}'
    ||| c == ' '
    ||| c == '\u{85}'
    ||| c == '\u{a0}'
    ||| c == '\u{1680}'
    ||| '\u{2000}' <= c <= '\u{200a}'
    ||| c == '\u{2028}'
    ||| c == '\u{2029}'
    ||| c == '\u{202f}'
    ||| c == '\u{205f}'
    ||| c == '\u{3000}'
}

/// The first position at or after `i` that holds no white space.
pub open spec fn skip_spaces(s: Seq<char>, i: int) -> int
    decreases s.len() - i,
{
    if 0 <= i < s.len() && is_space(s[i]) {
        skip_spaces(s, i + 1)
    } else {
        i
    }
}

/// The first position at or after `i` that holds white space, or the end.
pub open spec fn skip_word(s: Seq<char>, i: int) -> int
    decreases s.len() - i,
{
    if 0 <= i < s.len() && !is_space(s[i]) {
        skip_word(s, i + 1)
    } else {
        i
    }
}

/// Whether the character is a decimal digit.
pub open spec fn is_digit(c: char) -> bool {
    '0' <= c <= '9'
}

/// The number that the digits spell.
pub open spec fn digits_value(digits: Seq<char>) -> nat
    decreases digits.len(),
{
    if digits.len() == 0 {
        0
    } else {
        (digits_value(digits.drop_last()) * 10 + (digits.last() as u32 - '0' as u32)) as nat
    }
}

/// Whether every character is a decimal digit.
pub open spec fn all_digits(digits: Seq<char>) -> bool {
    forall|i: int| 0 <= i < digits.len() ==> is_digit(#[trigger] digits[i])
}

/// The word without its plus sign, if it begins with one.
pub open spec fn unsigned_part(word: Seq<char>) -> Seq<char> {
    if word.len() > 0 && word[0] == '+' {
        word.skip(1)
    } else {
        word
    }
}

/// The number that a word spells: decimal digits, at least one, after an
/// optional plus sign, if the number is not too large.
pub open spec fn word_number(word: Seq<char>) -> Option<u32> {
    let digits = unsigned_part(word);
    if digits.len() > 0 && all_digits(digits) && digits_value(digits) <= u32::MAX {
        Some(digits_value(digits) as u32)
    } else {
        None
    }
}

/// The driver that a line describes: its first word is the major number and
/// its second word the name. A line with fewer than two words, or whose first
/// word is no number, describes none. Further words are not looked at.
pub open spec fn line_device(kind: DeviceKind, line: Seq<char>) -> Option<DeviceView> {
    let a = skip_spaces(line, 0);
    let b = skip_word(line, a);
    let c = skip_spaces(line, b);
    let d = skip_word(line, c);
    if a < line.len() && c < line.len() {
        match word_number(line.subrange(a, b)) {
            Some(major) => Some(DeviceView { kind, major, driver: line.subrange(c, d) }),
            None => None,
        }
    } else {
        None
    }
}

/// Whether the line is the heading of the character devices.
pub open spec fn is_character_heading(line: Seq<char>) -> bool {
    has_prefix(line, "Character devices:"@)
}

/// Whether the line is the heading of the block devices.
pub open spec fn is_block_heading(line: Seq<char>) -> bool {
    !is_character_heading(line) && has_prefix(line, "Block devices:"@)
}

/// The kind of the devices after the line: a heading sets it.
pub open spec fn kind_after(kind: DeviceKind, line: Seq<char>) -> DeviceKind {
    if is_character_heading(line) {
        DeviceKind::Character
    } else if is_block_heading(line) {
        DeviceKind::Block
    } else {
        kind
    }
}

/// The driver that the line adds to the list, if it adds one: a heading adds
/// none.
pub open spec fn line_entry(kind: DeviceKind, line: Seq<char>) -> Option<DeviceView> {
    if is_character_heading(line) || is_block_heading(line) {
        None
    } else {
        line_device(kind, line)
    }
}

/// The end of the line that begins at `i`: the position of the next line
/// feed, or the end of the text.
pub open spec fn line_end(s: Seq<char>, i: int) -> int
    decreases s.len() - i,
{
    if 0 <= i < s.len() && s[i] != '\n' {
        line_end(s, i + 1)
    } else {
        i
    }
}

/// The drivers that the lines of the text from `i` on describe, in order,
/// where the devices are of the given kind until a heading says otherwise.
pub open spec fn devices_from(kind: DeviceKind, s: Seq<char>, i: int) -> Seq<DeviceView>
    decreases s.len() - i,
{
    if i < 0 || i >= s.len() {
        seq![]
    } else {
        let e = line_end(s, i);
        let line = s.subrange(i, e);
        let rest = if i <= e < s.len() {
            devices_from(kind_after(kind, line), s, e + 1)
        } else {
            seq![]
        };
        match line_entry(kind, line) {
            Some(d) => seq![d] + rest,
            None => rest,
        }
    }
}

/// The drivers that the text lists. Before the first heading, devices are
/// character devices.
pub open spec fn devices_of(text: Seq<char>) -> Seq<DeviceView> {
    devices_from(DeviceKind::Character, text, 0)
}

/// `line_end` does not go back and stays within the text.
pub proof fn lemma_line_end_bounds(s: Seq<char>, i: int)
    requires
        0 <= i <= s.len(),
    ensures
        i <= line_end(s, i) <= s.len(),
        line_end(s, i) < s.len() ==> s[line_end(s, i)] == '\n',
        forall|j: int| i <= j < line_end(s, i) ==> s[j] != '\n',
    decreases s.len() - i,
{
    if i < s.len() && s[i] != '\n' {
        lemma_line_end_bounds(s, i + 1);
    }
}

/// Tests whether the character is white space.
pub fn is_white_space(c: char) -> (r: bool)
    ensures
        r == is_space(c),
{
    ('\u{9}' <= c && c <= '\u{d}') || c == ' ' || c == '\u{85}' || c == '\u{a0}' || c
        == '\u{1680}' || ('\u{2000}' <= c && c <= '\u{200a}') || c == '\u{2028}' || c
        == '\u{2029}' || c == '\u{202f}' || c == '\u{205f}' || c == '\u{3000}'
}

/// Finds the first position at or after `i` that holds no white space.
fn find_word(s: &Vec<char>, i: usize) -> (r: usize)
    requires
        i <= s.len(),
    ensures
        r == skip_spaces(s@, i as int),
        i <= r <= s.len(),
{
    let mut k: usize = i;
    while k < s.len() && is_white_space(s[k])
        invariant
            i <= k <= s.len(),
            skip_spaces(s@, i as int) == skip_spaces(s@, k as int),
        decreases s.len() - k,
    {
        k = k + 1;
    }
    k
}

/// Finds the end of the word that begins at `i`.
fn find_word_end(s: &Vec<char>, i: usize) -> (r: usize)
    requires
        i <= s.len(),
    ensures
        r == skip_word(s@, i as int),
        i <= r <= s.len(),
{
    let mut k: usize = i;
    while k < s.len() && !is_white_space(s[k])
        invariant
            i <= k <= s.len(),
            skip_word(s@, i as int) == skip_word(s@, k as int),
        decreases s.len() - k,
    {
        k = k + 1;
    }
    k
}

/// The value of a decimal digit.
fn digit_of(c: char) -> (r: Option<u32>)
    ensures
        r is Some <==> is_digit(c),
        r matches Some(v) ==> v == c as u32 - '0' as u32,
{
    if '0' <= c && c <= '9' {
        Some(c as u32 - '0' as u32)
    } else {
        None
    }
}

/// Reads the number that the word from `a` to `b` spells.
fn parse_number(s: &Vec<char>, a: usize, b: usize) -> (r: Option<u32>)
    requires
        a <= b <= s.len(),
    ensures
        r == word_number(s@.subrange(a as int, b as int)),
{
    let ghost word = s@.subrange(a as int, b as int);
    let start: usize = if a < b && s[a] == '+' {
        a + 1
    } else {
        a
    };
    let ghost digits = s@.subrange(start as int, b as int);
    assert(digits =~= unsigned_part(word));
    if start == b {
        return None;
    }
    let mut value: u32 = 0;
    let mut k: usize = start;
    assert(digits.take(0) =~= seq![]);
    while k < b
        invariant
            a <= start <= k <= b <= s.len(),
            start < b,
            word == s@.subrange(a as int, b as int),
            digits == s@.subrange(start as int, b as int),
            digits == unsigned_part(word),
            forall|j: int| 0 <= j < k - start ==> is_digit(digits[j]),
            value == digits_value(digits.take(k - start)),
        decreases b - k,
    {
        assert(digits.take(k - start + 1).drop_last() =~= digits.take(k - start));
        assert(digits.take(k - start + 1).last() == s@[k as int]);
        match digit_of(s[k]) {
            Some(d) => {
                if value > (u32::MAX - d) / 10 {
                    proof {
                        if all_digits(digits) {
                            lemma_digits_grow(digits, k - start + 1);
                        }
                    }
                    return None;
                }
                value = value * 10 + d;
            },
            None => {
                assert(digits[k - start] == s@[k as int]);
                return None;
            },
        }
        k = k + 1;
    }
    assert(digits.take(digits.len() as int) =~= digits);
    Some(value)
}

/// The number that digits spell does not shrink as more digits follow.
pub proof fn lemma_digits_grow(digits: Seq<char>, n: int)
    requires
        0 <= n <= digits.len(),
        all_digits(digits),
    ensures
        digits_value(digits.take(n)) <= digits_value(digits),
    decreases digits.len() - n,
{
    if n < digits.len() {
        assert(digits.take(n + 1).drop_last() =~= digits.take(n));
        assert(digits.take(n + 1).last() == digits[n]);
        assert(is_digit(digits[n]));
        lemma_digits_grow(digits, n + 1);
    } else {
        assert(digits.take(n) =~= digits);
    }
}

impl Device {
    /// Reads the driver that a line describes.
    pub fn parse(kind: DeviceKind, line: String) -> (r: Option<Device>)
        ensures
            match r {
                Some(d) => Some(d@) == line_device(kind, line@),
                None => line_device(kind, line@) is None,
            },
    {
        let chars = chars_of(line.as_str());
        let a = find_word(&chars, 0);
        let b = find_word_end(&chars, a);
        let c = find_word(&chars, b);
        let d = find_word_end(&chars, c);
        if a >= chars.len() || c >= chars.len() {
            return None;
        }
        match parse_number(&chars, a, b) {
            Some(major) => {
                let driver = line.as_str().substring_char(c, d).to_owned();
                Some(Device { kind, major, driver })
            },
            None => None,
        }
    }
}

/// Takes in one line of the list: a heading sets the kind of the devices that
/// follow, and any other line may describe a driver. The outer result is
/// always `Some`: no line ends the list.
pub fn parse_device_line(current_kind: &mut DeviceKind, line: String) -> (r: Option<Option<Device>>)
    ensures
        *final(current_kind) == kind_after(*old(current_kind), line@),
        r matches Some(entry) && match entry {
            Some(d) => Some(d@) == line_entry(*old(current_kind), line@),
            None => line_entry(*old(current_kind), line@) is None,
        },
{
    if str_starts_with(line.as_str(), "Character devices:") {
        *current_kind = DeviceKind::Character;
        Some(None)
    } else if str_starts_with(line.as_str(), "Block devices:") {
        *current_kind = DeviceKind::Block;
        Some(None)
    } else {
        Some(Device::parse(*current_kind, line))
    }
}

/// Whether `devices` are the drivers `views`, in order.
pub open spec fn lists(devices: Seq<Device>, views: Seq<DeviceView>) -> bool {
    &&& devices.len() == views.len()
    &&& forall|i: int| 0 <= i < devices.len() ==> (#[trigger] devices[i])@ == views[i]
}

/// Reads the list of devices from the text that the kernel prints.
pub fn parse_devices(input: &str) -> (r: Vec<Device>)
    ensures
        lists(r@, devices_of(input@)),
{
    let chars = chars_of(input);
    let mut out: Vec<Device> = Vec::new();
    let mut kind = DeviceKind::Character;
    let mut pos: usize = 0;
    let ghost mut done: Seq<DeviceView> = seq![];
    while pos < chars.len()
        invariant
            pos <= chars.len(),
            chars@ == input@,
            lists(out@, done),
            devices_of(input@) == done + devices_from(kind, chars@, pos as int),
        decreases chars.len() - pos,
    {
        let mut end: usize = pos;
        while end < chars.len() && chars[end] != '\n'
            invariant
                pos <= end <= chars.len(),
                line_end(chars@, pos as int) == line_end(chars@, end as int),
            decreases chars.len() - end,
        {
            end = end + 1;
        }
        let ghost line_view = chars@.subrange(pos as int, end as int);
        let ghost rest = if end < chars.len() {
            devices_from(kind_after(kind, line_view), chars@, end + 1)
        } else {
            seq![]
        };
        let line = input.substring_char(pos, end).to_owned();
        let ghost old_kind = kind;
        match parse_device_line(&mut kind, line) {
            Some(Some(d)) => {
                proof {
                    assert(done + (seq![d@] + rest) =~= done.push(d@) + rest);
                    done = done.push(d@);
                }
                out.push(d);
            },
            _ => {},
        }
        if end < chars.len() {
            pos = end + 1;
        } else {
            pos = end;
        }
    }
    proof {
        assert(done + devices_from(kind, chars@, pos as int) =~= done);
    }
    out
}

/// The position of the first of `devices` that the driver `name` serves.
pub open spec fn first_with_driver(devices: Seq<Device>, name: Seq<char>, i: int) -> Option<int>
    decreases devices.len() - i,
{
    if i < 0 || i >= devices.len() {
        None
    } else if devices[i].driver@ == name {
        Some(i)
    } else {
        first_with_driver(devices, name, i + 1)
    }
}

/// Finds the major number of the first device of the list that the driver
/// `name` serves.
pub fn find_major(devices: &Vec<Device>, name: &str) -> (r: Option<u32>)
    ensures
        r == (match first_with_driver(devices@, name@, 0) {
            Some(i) => Some(devices@[i].major),
            None => None,
        }),
{
    let mut i: usize = 0;
    while i < devices.len()
        invariant
            i <= devices.len(),
            first_with_driver(devices@, name@, 0) == first_with_driver(devices@, name@, i as int),
        decreases devices.len() - i,
    {
        if crate::text::str_equal(devices[i].driver.as_str(), name) {
            return Some(devices[i].major);
        }
        i = i + 1;
    }
    None
}

} // verus!
