use slint_backend_linuxfb::linuxfb::double::back_buffer;
use slint_backend_linuxfb::linuxfb::double::plan_setup;
use slint_backend_linuxfb::linuxfb::double::State;
use slint_backend_linuxfb::linuxfb::fbio::Bitfield;
use slint_backend_linuxfb::linuxfb::fbio::BlankingLevel;
use slint_backend_linuxfb::linuxfb::fbio::FixScreeninfo;
use slint_backend_linuxfb::linuxfb::fbio::PixelLayout;
use slint_backend_linuxfb::linuxfb::fbio::PixelLayoutChannel;
use slint_backend_linuxfb::linuxfb::fbio::RawFixScreeninfo;
use slint_backend_linuxfb::linuxfb::fbio::RawVarScreeninfo;
use slint_backend_linuxfb::linuxfb::fbio::TerminalMode;
use slint_backend_linuxfb::linuxfb::fbio::VarScreeninfo;
use slint_backend_linuxfb::error::Error;
use slint_backend_linuxfb::pixels::supported_format;
use slint_backend_linuxfb::pixels::PixelAbgr8888;
use slint_backend_linuxfb::pixels::PixelBgra8888;
use slint_backend_linuxfb::pixels::PixelFormat;
use slint_backend_linuxfb::pixels::PixelRgb565;
use slint_backend_linuxfb::pixels::PixelRgba8888;
use slint_backend_linuxfb::pixels::PremultipliedRgbaColor;
use slint_backend_linuxfb::platform::tty_fallback;
use slint_backend_linuxfb::platform::LinuxFbPlatformBuilder;

fn field(offset: u32, length: u32) -> Bitfield {
    Bitfield { offset, length, msb_right: 0 }
}

fn screen(bits_per_pixel: u32, red: Bitfield, green: Bitfield, blue: Bitfield, transp: Bitfield) -> VarScreeninfo {
    let none = field(0, 0);
    let mut raw = RawVarScreeninfo {
        xres: 800,
        yres: 480,
        xres_virtual: 800,
        yres_virtual: 960,
        xoffset: 0,
        yoffset: 480,
        bits_per_pixel,
        grayscale: 0,
        red: none,
        green: none,
        blue: none,
        transp: none,
        nonstd: 0,
        activate: 16,
        height: 86,
        width: 154,
        accel_flags: 0,
        pixclock: 0,
        left_margin: 0,
        right_margin: 0,
        upper_margin: 0,
        lower_margin: 0,
        hsync_len: 0,
        vsync_len: 0,
        sync: 0,
        vmode: 0,
        rotate: 0,
        colorspace: 0,
    };
    raw.red = red;
    raw.green = green;
    raw.blue = blue;
    raw.transp = transp;
    VarScreeninfo { internal: raw }
}

fn rgb565() -> VarScreeninfo {
    screen(16, field(11, 5), field(5, 6), field(0, 5), field(0, 0))
}

fn color(red: u8, green: u8, blue: u8, alpha: u8) -> PremultipliedRgbaColor {
    PremultipliedRgbaColor { red, green, blue, alpha }
}

fn reference_blend(background: PremultipliedRgbaColor, over: PremultipliedRgbaColor) -> PremultipliedRgbaColor {
    let mut b = i_slint_core::software_renderer::PremultipliedRgbaColor {
        red: background.red,
        green: background.green,
        blue: background.blue,
        alpha: background.alpha,
    };
    let o = i_slint_core::software_renderer::PremultipliedRgbaColor {
        red: over.red,
        green: over.green,
        blue: over.blue,
        alpha: over.alpha,
    };
    i_slint_core::software_renderer::TargetPixel::blend(&mut b, o);
    color(b.red, b.green, b.blue, b.alpha)
}

#[test]
fn the_screen_information_is_read_field_by_field() {
    let v = rgb565();
    assert_eq!(v.size_in_pixels(), (800, 480));
    assert_eq!(v.size_in_mm(), (154, 86));
    assert_eq!(v.bytes_per_pixel(), 2);
    assert_eq!(v.virtual_size(), (800, 960));
    assert_eq!(v.offset(), (0, 480));
    assert_eq!(v.map_len(), Some(800 * 960 * 2));
    assert_eq!(
        v.pixel_layout(),
        PixelLayout {
            red: PixelLayoutChannel { offset: 11, length: 5, msb_right: false },
            green: PixelLayoutChannel { offset: 5, length: 6, msb_right: false },
            blue: PixelLayoutChannel { offset: 0, length: 5, msb_right: false },
            alpha: PixelLayoutChannel { offset: 0, length: 0, msb_right: false },
        }
    );
}

#[test]
fn bytes_per_pixel_counts_whole_bytes() {
    let none = field(0, 0);
    assert_eq!(screen(15, none, none, none, none).bytes_per_pixel(), 1);
    assert_eq!(screen(24, none, none, none, none).bytes_per_pixel(), 3);
    assert_eq!(screen(7, none, none, none, none).bytes_per_pixel(), 0);
    assert_eq!(screen(u32::MAX, none, none, none, none).bytes_per_pixel(), 536_870_911);
}

#[test]
fn a_channel_is_what_the_bitfield_says() {
    assert_eq!(
        PixelLayoutChannel::from(Bitfield { offset: 16, length: 8, msb_right: 0 }),
        PixelLayoutChannel { offset: 16, length: 8, msb_right: false }
    );
    assert_eq!(
        PixelLayoutChannel::from(Bitfield { offset: 0, length: 1, msb_right: 1 }),
        PixelLayoutChannel { offset: 0, length: 1, msb_right: true }
    );
    assert_eq!(
        PixelLayoutChannel::from(Bitfield { offset: 0, length: 1, msb_right: 7 }),
        PixelLayoutChannel { offset: 0, length: 1, msb_right: true }
    );
}

#[test]
fn the_setters_change_their_fields_only() {
    let mut v = rgb565();
    let before = v.internal;
    v.set_bytes_per_pixel(4);
    assert_eq!(v.internal, RawVarScreeninfo { bits_per_pixel: 32, ..before });
    v.set_virtual_size(1024, 1536);
    assert_eq!(v.internal, RawVarScreeninfo { bits_per_pixel: 32, xres_virtual: 1024, yres_virtual: 1536, ..before });
    v.set_offset(3, 768);
    assert_eq!(v.offset(), (3, 768));
    assert_eq!(v.virtual_size(), (1024, 1536));
    assert_eq!(v.internal.activate, 16);
    v.activate_now();
    assert_eq!(v.internal.activate, 0);
    assert_eq!(
        v.internal,
        RawVarScreeninfo {
            bits_per_pixel: 32,
            xres_virtual: 1024,
            yres_virtual: 1536,
            xoffset: 3,
            yoffset: 768,
            activate: 0,
            ..before
        }
    );
    v.set_bytes_per_pixel(536_870_911);
    assert_eq!(v.internal.bits_per_pixel, 4_294_967_288);
}

#[test]
fn a_screen_too_large_to_address_has_no_mapping() {
    let mut v = rgb565();
    v.set_virtual_size(u32::MAX, u32::MAX);
    v.internal.bits_per_pixel = u32::MAX;
    assert_eq!(v.map_len(), None);
    v.set_virtual_size(0, u32::MAX);
    assert_eq!(v.map_len(), Some(0));
    v.set_virtual_size(1, 1);
    assert_eq!(v.map_len(), Some(536_870_911));
}

fn fix(id: [u8; 16]) -> FixScreeninfo {
    FixScreeninfo {
        internal: RawFixScreeninfo {
            id,
            smem_start: 0,
            smem_len: 0,
            kind: 0,
            type_aux: 0,
            visual: 0,
            xpanstep: 0,
            ypanstep: 0,
            ywrapstep: 0,
            line_length: 0,
            mmio_start: 0,
            mmio_len: 0,
            accel: 0,
            capabilities: 0,
        },
    }
}

#[test]
fn the_identification_ends_at_the_first_zero() {
    let mut id = [0u8; 16];
    id[..6].copy_from_slice(b"vesafb");
    assert_eq!(fix(id).id(), b"vesafb".to_vec());
    id[8] = b'x';
    assert_eq!(fix(id).id(), b"vesafb".to_vec());
    assert_eq!(fix([0u8; 16]).id(), Vec::<u8>::new());
    assert_eq!(fix([b'a'; 16]).id(), vec![b'a'; 16]);
}

#[test]
fn levels_and_modes_have_the_numbers_of_the_kernel() {
    assert_eq!(BlankingLevel::Unblank.to_ulong(), 0);
    assert_eq!(BlankingLevel::Normal.to_ulong(), 1);
    assert_eq!(BlankingLevel::VsyncSuspend.to_ulong(), 2);
    assert_eq!(BlankingLevel::HsyncSuspend.to_ulong(), 3);
    assert_eq!(BlankingLevel::Powerdown.to_ulong(), 4);
    assert_eq!(TerminalMode::Text.to_ulong(), 0);
    assert_eq!(TerminalMode::Graphics.to_ulong(), 1);
}

#[test]
fn the_pixel_format_goes_by_depth_and_layout() {
    let f = |v: VarScreeninfo| PixelFormat::from_fb_info(&v);
    assert_eq!(f(rgb565()), PixelFormat::Rgb565);
    assert_eq!(f(screen(32, field(0, 8), field(8, 8), field(16, 8), field(24, 8))), PixelFormat::Rgba8888);
    assert_eq!(f(screen(32, field(16, 8), field(8, 8), field(0, 8), field(24, 8))), PixelFormat::Abgr8888);
    assert_eq!(f(screen(32, field(16, 8), field(8, 8), field(0, 8), field(0, 0))), PixelFormat::Bgra8888);
    assert_eq!(f(screen(32, field(16, 8), field(8, 8), field(0, 8), field(24, 0))), PixelFormat::Abgr8888);
}

#[test]
fn any_other_depth_or_layout_is_unknown() {
    let f = |v: VarScreeninfo| PixelFormat::from_fb_info(&v);
    assert_eq!(f(screen(32, field(0, 8), field(8, 8), field(16, 8), field(0, 0))), PixelFormat::Unknown);
    assert_eq!(f(screen(32, field(8, 8), field(16, 8), field(24, 8), field(0, 8))), PixelFormat::Unknown);
    assert_eq!(f(screen(32, field(8, 8), field(0, 8), field(16, 8), field(24, 8))), PixelFormat::Unknown);
    assert_eq!(f(screen(32, field(16, 8), field(8, 8), field(0, 8), field(25, 8))), PixelFormat::Unknown);
    assert_eq!(f(screen(16, field(10, 5), field(5, 5), field(0, 5), field(15, 1))), PixelFormat::Unknown);
    assert_eq!(f(screen(16, field(11, 5), field(5, 6), field(0, 6), field(0, 0))), PixelFormat::Unknown);
    assert_eq!(f(screen(24, field(16, 8), field(8, 8), field(0, 8), field(0, 0))), PixelFormat::Unknown);
    assert_eq!(f(screen(8, field(0, 8), field(0, 8), field(0, 8), field(0, 0))), PixelFormat::Unknown);
    assert_eq!(f(screen(0, field(11, 5), field(5, 6), field(0, 5), field(0, 0))), PixelFormat::Unknown);
}

#[test]
fn colors_are_packed_in_the_order_of_the_format() {
    assert_eq!(PixelAbgr8888::from_rgb(0x11, 0x22, 0x33), PixelAbgr8888(0xff11_2233));
    assert_eq!(PixelBgra8888::from_rgb(0x11, 0x22, 0x33), PixelBgra8888(0xff11_2233));
    assert_eq!(PixelRgba8888::from_rgb(0x11, 0x22, 0x33), PixelRgba8888(0xff33_2211));
    assert_eq!(PixelAbgr8888::from_rgb(0x11, 0x22, 0x33).0, u32::from_le_bytes([0x33, 0x22, 0x11, 0xff]));
    assert_eq!(PixelRgba8888::from_rgb(0x11, 0x22, 0x33).0, u32::from_le_bytes([0x11, 0x22, 0x33, 0xff]));
    assert_eq!(PixelRgba8888::from_rgb(0, 0, 0), PixelRgba8888(0xff00_0000));
    assert_eq!(PixelRgba8888::from_rgb(255, 255, 255), PixelRgba8888(0xffff_ffff));
    assert_eq!(PixelRgb565::from_rgb(255, 255, 255), PixelRgb565(0xffff));
    assert_eq!(PixelRgb565::from_rgb(0, 0, 0), PixelRgb565(0));
    assert_eq!(PixelRgb565::from_rgb(255, 0, 0), PixelRgb565(0xf800));
    assert_eq!(PixelRgb565::from_rgb(0, 255, 0), PixelRgb565(0x07e0));
    assert_eq!(PixelRgb565::from_rgb(0, 0, 255), PixelRgb565(0x001f));
    assert_eq!(PixelRgb565::from_rgb(7, 3, 7), PixelRgb565(0));
    assert_eq!(PixelRgb565::from_rgb(0x12, 0x34, 0x56), PixelRgb565(0x11aa));
    for (r, g, b) in [(0x12u8, 0x34u8, 0x56u8), (200, 100, 50), (8, 4, 8)] {
        let expected = ((r as u16 & 0xf8) << 8) | ((g as u16 & 0xfc) << 3) | ((b as u16 & 0xf8) >> 3);
        assert_eq!(PixelRgb565::from_rgb(r, g, b).0, expected);
    }
}

#[test]
fn blending_keeps_the_share_that_the_alpha_lets_through() {
    let mut p = PixelRgba8888(u32::from_le_bytes([200, 100, 50, 255]));
    p.blend(color(64, 32, 0, 128));
    assert_eq!(p, PixelRgba8888(u32::from_le_bytes([163, 81, 24, 255])));

    let mut p = PixelAbgr8888(u32::from_le_bytes([50, 100, 200, 100]));
    p.blend(color(64, 32, 0, 128));
    assert_eq!(p, PixelAbgr8888(u32::from_le_bytes([24, 81, 163, 178])));

    let mut p = PixelBgra8888(u32::from_le_bytes([50, 100, 200, 0]));
    p.blend(color(10, 20, 30, 30));
    assert_eq!(p, PixelBgra8888(u32::from_le_bytes([74, 108, 186, 30])));
}

#[test]
fn blending_is_what_the_renderer_does() {
    let backgrounds = [color(200, 100, 50, 255), color(0, 0, 0, 0), color(255, 255, 255, 255), color(17, 3, 99, 140)];
    let overs = [color(64, 32, 0, 128), color(1, 1, 1, 1), color(255, 255, 255, 255), color(0, 0, 0, 255), color(9, 200, 77, 201)];
    for b in backgrounds {
        for o in overs {
            let expected = reference_blend(b, o);
            let mut p = PixelRgba8888(u32::from_le_bytes([b.red, b.green, b.blue, b.alpha]));
            p.blend(o);
            assert_eq!(p.0.to_le_bytes(), [expected.red, expected.green, expected.blue, expected.alpha]);
            let mut p = PixelAbgr8888(u32::from_le_bytes([b.blue, b.green, b.red, b.alpha]));
            p.blend(o);
            assert_eq!(p.0.to_le_bytes(), [expected.blue, expected.green, expected.red, expected.alpha]);
            let mut p = PixelBgra8888(u32::from_le_bytes([b.blue, b.green, b.red, b.alpha]));
            p.blend(o);
            assert_eq!(p.0.to_le_bytes(), [expected.blue, expected.green, expected.red, expected.alpha]);
        }
    }
}

#[test]
fn a_color_without_alpha_changes_nothing() {
    let mut p = PixelRgba8888(0x1234_5678);
    p.blend(color(0, 0, 0, 0));
    assert_eq!(p, PixelRgba8888(0x1234_5678));
    let mut q = PixelRgb565(0xabcd);
    q.blend(color(0, 0, 0, 0));
    assert_eq!(q, PixelRgb565(0xabcd));
    let mut pixels = [PixelAbgr8888(1), PixelAbgr8888(2)];
    PixelAbgr8888::blend_slice(&mut pixels, color(0, 0, 0, 0));
    assert_eq!(pixels, [PixelAbgr8888(1), PixelAbgr8888(2)]);
    PixelAbgr8888::blend_slice(&mut pixels, color(9, 200, 77, 0));
    assert_eq!(pixels, [PixelAbgr8888(1), PixelAbgr8888(2)]);
    p.blend(color(255, 255, 255, 0));
    assert_eq!(p, PixelRgba8888(0x1234_5678));
    q.blend(color(1, 0, 0, 0));
    assert_eq!(q, PixelRgb565(0xabcd));
}

#[test]
fn an_opaque_color_replaces_the_pixel() {
    let mut p = PixelRgba8888(0x1234_5678);
    p.blend(color(1, 2, 3, 255));
    assert_eq!(p, PixelRgba8888(0xff03_0201));
    let mut q = PixelRgb565(0xabcd);
    q.blend(color(255, 0, 255, 255));
    assert_eq!(q, PixelRgb565(0xf81f));
    assert_eq!(q, PixelRgb565::from_rgb(255, 0, 255));
}

#[test]
fn a_16_bit_pixel_is_widened_blended_and_narrowed() {
    let mut p = PixelRgb565(0xf800);
    p.blend(color(0, 64, 0, 128));
    let widened = color(255, 0, 0, 255);
    let expected = reference_blend(widened, color(0, 64, 0, 128));
    assert_eq!(p, PixelRgb565::from_rgb(expected.red, expected.green, expected.blue));
    assert_eq!(p, PixelRgb565(0x7a00));
    let mut white = PixelRgb565(0xffff);
    white.blend(color(0, 0, 0, 1));
    assert_eq!(white, PixelRgb565::from_rgb(254, 254, 254));
    let mut mixed = PixelRgb565(0x11aa);
    mixed.blend(color(0, 0, 0, 1));
    let expected = reference_blend(color(0x10 | 0, 0x34 | 0, 0x52, 255), color(0, 0, 0, 1));
    assert_eq!(mixed, PixelRgb565::from_rgb(expected.red, expected.green, expected.blue));
}

#[test]
fn a_slice_is_blended_pixel_by_pixel() {
    let mut pixels = [PixelRgba8888(0xff00_0000), PixelRgba8888(0xffff_ffff), PixelRgba8888(0x8040_2010)];
    let over = color(10, 20, 30, 100);
    let mut expected = pixels;
    for p in expected.iter_mut() {
        p.blend(over);
    }
    PixelRgba8888::blend_slice(&mut pixels, over);
    assert_eq!(pixels, expected);
    assert_eq!(pixels[0], PixelRgba8888(u32::from_le_bytes([10, 20, 30, 255])));

    let mut opaque = [PixelBgra8888(5), PixelBgra8888(6)];
    PixelBgra8888::blend_slice(&mut opaque, color(1, 2, 3, 255));
    assert_eq!(opaque, [PixelBgra8888(0xff01_0203), PixelBgra8888(0xff01_0203)]);

    let mut narrow = [PixelRgb565(0), PixelRgb565(0xffff)];
    PixelRgb565::blend_slice(&mut narrow, color(255, 255, 255, 255));
    assert_eq!(narrow, [PixelRgb565(0xffff), PixelRgb565(0xffff)]);
    let mut empty: [PixelRgb565; 0] = [];
    PixelRgb565::blend_slice(&mut empty, color(1, 1, 1, 1));
}

#[test]
fn flipping_changes_between_the_two_halves() {
    let mut s = State::DrawToFirst;
    assert_eq!(s.flip(), State::DrawToSecond);
    assert_eq!(s, State::DrawToSecond);
    assert_eq!(s.shown_offset(480), 0);
    assert_eq!(s.flip(), State::DrawToFirst);
    assert_eq!(s, State::DrawToFirst);
    assert_eq!(s.shown_offset(480), 480);
}

#[test]
fn a_double_buffer_needs_a_virtual_screen_twice_as_high() {
    let s = plan_setup(800, 480, (800, 480), (0, 0)).unwrap();
    assert_eq!(s.virtual_size, Some((800, 960)));
    assert!(!s.reset_offset);
    assert_eq!(s.state, State::DrawToSecond);
    let s = plan_setup(800, 480, (800, 960), (0, 0)).unwrap();
    assert_eq!(s.virtual_size, None);
    let s = plan_setup(800, 480, (1024, 960), (0, 0)).unwrap();
    assert_eq!(s.virtual_size, Some((800, 960)));
    assert!(plan_setup(800, 0x8000_0000, (800, 0), (0, 0)).is_none());
    assert!(plan_setup(800, 0x7fff_ffff, (800, 0), (0, 0)).is_some());
}

#[test]
fn drawing_starts_in_the_half_that_is_not_shown() {
    let s = plan_setup(800, 480, (800, 960), (0, 480)).unwrap();
    assert!(!s.reset_offset);
    assert_eq!(s.state, State::DrawToFirst);
    let s = plan_setup(800, 480, (800, 960), (0, 100)).unwrap();
    assert!(s.reset_offset);
    assert_eq!(s.state, State::DrawToSecond);
    let s = plan_setup(800, 480, (800, 960), (8, 480)).unwrap();
    assert!(s.reset_offset);
    assert_eq!(s.state, State::DrawToSecond);
    let s = plan_setup(800, 0, (800, 0), (0, 0)).unwrap();
    assert!(!s.reset_offset);
    assert_eq!(s.state, State::DrawToFirst);
    let s = plan_setup(800, 0, (800, 0), (8, 0)).unwrap();
    assert!(s.reset_offset);
    assert_eq!(s.state, State::DrawToFirst);
    let s = plan_setup(800, 0, (800, 0), (0, 5)).unwrap();
    assert!(s.reset_offset);
    assert_eq!(s.state, State::DrawToFirst);
}

#[test]
fn the_back_buffer_is_the_first_or_the_second_page() {
    assert_eq!(back_buffer(4, 800, 480, State::DrawToFirst), Some((0, 1_536_000)));
    assert_eq!(back_buffer(4, 800, 480, State::DrawToSecond), Some((1_536_000, 3_072_000)));
    assert_eq!(back_buffer(2, 0, 480, State::DrawToSecond), Some((0, 0)));
    assert_eq!(back_buffer(u32::MAX, u32::MAX, u32::MAX, State::DrawToFirst), None);
}

#[test]
fn the_builder_sets_what_it_is_told() {
    let b = LinuxFbPlatformBuilder::new();
    assert_eq!(b.tty_path, None);
    assert_eq!(b.fb_path, None);
    assert!(b.input_config.autodiscovery);
    assert!(b.input_config.threaded_input);
    assert!(b.input_config.whitelist.is_empty());
    assert!(b.input_config.blacklist.is_empty());
    assert!(!b.vsync);
    let b = b
        .with_tty("/dev/tty3".to_string())
        .with_framebuffer("/dev/fb1".to_string())
        .with_input_autodiscovery(false)
        .with_threaded_input(false)
        .with_input_whitelist(vec!["Touch".to_string()])
        .with_input_blacklist(vec!["Power".to_string(), "Sleep".to_string()])
        .with_vsync(true);
    assert_eq!(b.tty_path, Some("/dev/tty3".to_string()));
    assert_eq!(b.fb_path, Some("/dev/fb1".to_string()));
    assert!(!b.input_config.autodiscovery);
    assert!(!b.input_config.threaded_input);
    assert_eq!(b.input_config.whitelist, vec!["Touch"]);
    assert_eq!(b.input_config.blacklist, vec!["Power", "Sleep"]);
    assert!(b.vsync);
    let b = b.with_vsync(false).with_input_autodiscovery(true);
    assert!(!b.vsync);
    assert!(b.input_config.autodiscovery);
    assert!(!b.input_config.threaded_input);
    assert_eq!(b.tty_path, Some("/dev/tty3".to_string()));
}

#[test]
fn the_devices_are_the_configured_ones_or_those_of_the_environment_or_the_defaults() {
    let b = LinuxFbPlatformBuilder::new();
    assert_eq!(b.tty_device(None), "/dev/tty1");
    assert_eq!(b.tty_device(Some("/dev/tty7".to_string())), "/dev/tty7");
    assert_eq!(b.framebuffer_device(None), "/dev/fb0");
    assert_eq!(b.framebuffer_device(Some("/dev/fb2".to_string())), "/dev/fb2");
    let b = b.with_tty("/dev/tty3".to_string()).with_framebuffer("/dev/fb1".to_string());
    assert_eq!(b.tty_device(None), "/dev/tty3");
    assert_eq!(b.tty_device(Some("/dev/tty7".to_string())), "/dev/tty3");
    assert_eq!(b.framebuffer_device(Some("/dev/fb2".to_string())), "/dev/fb1");
}

#[test]
fn only_the_default_terminal_has_a_fallback() {
    assert_eq!(tty_fallback("/dev/tty1"), Some("/dev/tty0".to_string()));
    assert_eq!(tty_fallback("/dev/tty3"), None);
    assert_eq!(tty_fallback("/dev/tty0"), None);
    assert_eq!(tty_fallback("/dev/tty10"), None);
    assert_eq!(tty_fallback(""), None);
}

#[test]
fn a_framebuffer_of_an_unknown_format_is_not_supported() {
    assert!(matches!(supported_format(&rgb565()), Ok(PixelFormat::Rgb565)));
    assert!(matches!(
        supported_format(&screen(32, field(16, 8), field(8, 8), field(0, 8), field(0, 0))),
        Ok(PixelFormat::Bgra8888)
    ));
    assert!(matches!(
        supported_format(&screen(24, field(16, 8), field(8, 8), field(0, 8), field(0, 0))),
        Err(Error::UnsupportedPixelFormat)
    ));
    assert!(matches!(
        supported_format(&screen(16, field(10, 5), field(5, 5), field(0, 5), field(15, 1))),
        Err(Error::UnsupportedPixelFormat)
    ));
}

#[test]
fn errors_describe_themselves() {
    assert_eq!(Error::UnsupportedPixelFormat.message(), "不支持的 Framebuffer 像素格式");
    assert_eq!(Error::Other("no eventfd".to_string()).message(), "后端错误: no eventfd");
    assert_eq!(Error::Other(String::new()).message(), "后端错误: ");
}
