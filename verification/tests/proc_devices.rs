use slint_backend_linuxfb::linuxfb::proc::find_major;
use slint_backend_linuxfb::linuxfb::proc::parse_device_line;
use slint_backend_linuxfb::linuxfb::proc::parse_devices;
use slint_backend_linuxfb::linuxfb::proc::Device;
use slint_backend_linuxfb::linuxfb::proc::DeviceKind;

#[test]
fn test_parse_devices() {
    let input = "
Character devices:
  1 mem
  4 tty
249 rtc

Block devices:
  7 loop
  9 md
";
    let mut devices = parse_devices(input).into_iter();
    assert_eq!(devices.next(), Some(Device { kind: DeviceKind::Character, major: 1, driver: String::from("mem") }));
    assert_eq!(devices.next(), Some(Device { kind: DeviceKind::Character, major: 4, driver: String::from("tty") }));
    assert_eq!(devices.next(), Some(Device { kind: DeviceKind::Character, major: 249, driver: String::from("rtc") }));
    assert_eq!(devices.next(), Some(Device { kind: DeviceKind::Block, major: 7, driver: String::from("loop") }));
    assert_eq!(devices.next(), Some(Device { kind: DeviceKind::Block, major: 9, driver: String::from("md") }));
    assert_eq!(devices.next(), None);
}

#[test]
fn parse_reads_major_and_driver() {
    let d = Device::parse(DeviceKind::Block, String::from(" 29 fb"));
    assert_eq!(d, Some(Device { kind: DeviceKind::Block, major: 29, driver: String::from("fb") }));
}

#[test]
fn parse_ignores_further_words() {
    let d = Device::parse(DeviceKind::Character, String::from("10 misc extra words"));
    assert_eq!(d, Some(Device { kind: DeviceKind::Character, major: 10, driver: String::from("misc") }));
}

#[test]
fn parse_accepts_a_plus_sign_and_leading_zeros() {
    let d = Device::parse(DeviceKind::Character, String::from("+007 bond"));
    assert_eq!(d, Some(Device { kind: DeviceKind::Character, major: 7, driver: String::from("bond") }));
}

#[test]
fn parse_accepts_the_largest_number() {
    let d = Device::parse(DeviceKind::Character, String::from("4294967295 big"));
    assert_eq!(d, Some(Device { kind: DeviceKind::Character, major: 4294967295, driver: String::from("big") }));
}

#[test]
fn parse_rejects_a_number_too_large() {
    assert_eq!(Device::parse(DeviceKind::Character, String::from("4294967296 big")), None);
    assert_eq!(Device::parse(DeviceKind::Character, String::from("99999999999999999999 big")), None);
}

#[test]
fn parse_rejects_what_is_no_number() {
    assert_eq!(Device::parse(DeviceKind::Character, String::from("12a tty")), None);
    assert_eq!(Device::parse(DeviceKind::Character, String::from("-1 tty")), None);
    assert_eq!(Device::parse(DeviceKind::Character, String::from("+ tty")), None);
    assert_eq!(Device::parse(DeviceKind::Character, String::from("tty 4")), None);
}

#[test]
fn parse_rejects_a_line_with_fewer_than_two_words() {
    assert_eq!(Device::parse(DeviceKind::Character, String::from("")), None);
    assert_eq!(Device::parse(DeviceKind::Character, String::from("   \t ")), None);
    assert_eq!(Device::parse(DeviceKind::Character, String::from("42")), None);
    assert_eq!(Device::parse(DeviceKind::Character, String::from("  42  ")), None);
}

#[test]
fn parse_splits_at_any_white_space() {
    let d = Device::parse(DeviceKind::Block, String::from("\t8\u{a0}sd\r"));
    assert_eq!(d, Some(Device { kind: DeviceKind::Block, major: 8, driver: String::from("sd") }));
}

#[test]
fn a_heading_sets_the_kind_and_adds_nothing() {
    let mut kind = DeviceKind::Character;
    assert_eq!(parse_device_line(&mut kind, String::from("Block devices:")), Some(None));
    assert_eq!(kind, DeviceKind::Block);
    assert_eq!(parse_device_line(&mut kind, String::from("Character devices: 1 mem")), Some(None));
    assert_eq!(kind, DeviceKind::Character);
}

#[test]
fn a_line_that_is_no_heading_keeps_the_kind() {
    let mut kind = DeviceKind::Block;
    let r = parse_device_line(&mut kind, String::from("  7 loop"));
    assert_eq!(r, Some(Some(Device { kind: DeviceKind::Block, major: 7, driver: String::from("loop") })));
    assert_eq!(kind, DeviceKind::Block);
    assert_eq!(parse_device_line(&mut kind, String::from("   ")), Some(None));
    assert_eq!(parse_device_line(&mut kind, String::from(" Block devices:")), Some(None));
    assert_eq!(kind, DeviceKind::Block);
}

#[test]
fn devices_before_any_heading_are_character_devices() {
    let devices = parse_devices("5 console\nBlock devices:\n8 sd");
    assert_eq!(
        devices,
        vec![
            Device { kind: DeviceKind::Character, major: 5, driver: String::from("console") },
            Device { kind: DeviceKind::Block, major: 8, driver: String::from("sd") },
        ]
    );
}

#[test]
fn lines_may_end_in_carriage_return_and_line_feed() {
    let devices = parse_devices("Character devices:\r\n 1 mem\r\n\r\nBlock devices:\r\n 7 loop\r\n");
    assert_eq!(
        devices,
        vec![
            Device { kind: DeviceKind::Character, major: 1, driver: String::from("mem") },
            Device { kind: DeviceKind::Block, major: 7, driver: String::from("loop") },
        ]
    );
}

#[test]
fn an_empty_text_lists_nothing() {
    assert_eq!(parse_devices(""), vec![]);
    assert_eq!(parse_devices("\n\n"), vec![]);
}

#[test]
fn find_major_takes_the_first_device_of_the_driver() {
    let devices = parse_devices("Character devices:\n  4 tty\n 29 fb\n 30 fb\n");
    assert_eq!(find_major(&devices, "fb"), Some(29));
    assert_eq!(find_major(&devices, "tty"), Some(4));
    assert_eq!(find_major(&devices, "drm"), None);
}
