use slint_backend_linuxfb::input::codes;
use slint_backend_linuxfb::input::event::WindowEvent;
use slint_backend_linuxfb::input::keyboard::impl_simple;
use slint_backend_linuxfb::input::keyboard::impl_xkb;
use slint_backend_linuxfb::input::keyboard::key_codes;
use slint_backend_linuxfb::input::keyboard::keysyms;
use slint_backend_linuxfb::input::dispatch::RawEvent;
use slint_backend_linuxfb::input::keyboard::impl_xkb::key_update;
use slint_backend_linuxfb::input::keyboard::impl_xkb::needs_symbol;
use slint_backend_linuxfb::input::keyboard::impl_xkb::KeyDirection;
use slint_backend_linuxfb::input::keyboard::impl_xkb::KeyUpdate;
use slint_backend_linuxfb::input::keyboard::impl_xkb::LayoutSetup;
use slint_backend_linuxfb::input::keyboard::impl_xkb::ResolvedKey;
use slint_backend_linuxfb::input::keyboard::make_key_event;
use slint_backend_linuxfb::input::discovery::DeviceRole;
use slint_backend_linuxfb::input::event::PhysicalPosition;
use slint_backend_linuxfb::input::event::PointerEventButton;
use slint_backend_linuxfb::input::touch::TouchState;
use slint_backend_linuxfb::input::InputConfig;
use slint_backend_linuxfb::input::InputManager;
use slint_backend_linuxfb::input::ManagedDevice;
use slint_backend_linuxfb::input::keyboard::KeyboardStrategy;

fn simple() -> impl_simple::KeyboardHandler {
    impl_simple::KeyboardHandler::new().unwrap()
}

fn key_pressed(c: char) -> Option<WindowEvent> {
    Some(WindowEvent::KeyPressed { text: Some(c) })
}

fn key_released(c: char) -> Option<WindowEvent> {
    Some(WindowEvent::KeyReleased { text: Some(c) })
}

fn key_repeated(c: char) -> Option<WindowEvent> {
    Some(WindowEvent::KeyPressRepeated { text: Some(c) })
}

#[test]
fn a_key_event_has_the_kind_that_its_value_names() {
    assert_eq!(make_key_event(0, Some('x')), Some(WindowEvent::KeyReleased { text: Some('x') }));
    assert_eq!(make_key_event(1, Some('x')), Some(WindowEvent::KeyPressed { text: Some('x') }));
    assert_eq!(make_key_event(2, None), Some(WindowEvent::KeyPressRepeated { text: None }));
    assert_eq!(make_key_event(3, Some('x')), None);
    assert_eq!(make_key_event(-1, Some('x')), None);
}

#[test]
fn the_table_maps_letters_digits_and_symbols() {
    let mut k = simple();
    assert!(!k.shift_pressed);
    assert_eq!(k.handle_key_event(codes::KEY_Q, 1), key_pressed('q'));
    assert_eq!(k.handle_key_event(codes::KEY_Q, 2), key_repeated('q'));
    assert_eq!(k.handle_key_event(codes::KEY_Q, 0), key_released('q'));
    assert_eq!(k.handle_key_event(codes::KEY_M, 1), key_pressed('m'));
    assert_eq!(k.handle_key_event(codes::KEY_1, 1), key_pressed('1'));
    assert_eq!(k.handle_key_event(codes::KEY_0, 1), key_pressed('0'));
    assert_eq!(k.handle_key_event(codes::KEY_MINUS, 1), key_pressed('-'));
    assert_eq!(k.handle_key_event(codes::KEY_KPMINUS, 1), key_pressed('-'));
    assert_eq!(k.handle_key_event(codes::KEY_BACKSLASH, 1), key_pressed('\\'));
    assert_eq!(k.handle_key_event(codes::KEY_APOSTROPHE, 1), key_pressed('\''));
    assert_eq!(k.handle_key_event(codes::KEY_GRAVE, 1), key_pressed('`'));
    assert_eq!(k.handle_key_event(codes::KEY_KPDOT, 1), key_pressed('.'));
}

#[test]
fn shift_selects_the_other_character() {
    let mut k = simple();
    assert_eq!(k.handle_key_event(codes::KEY_LEFTSHIFT, 1), key_pressed(key_codes::SHIFT));
    assert!(k.shift_pressed);
    assert_eq!(k.handle_key_event(codes::KEY_Q, 1), key_pressed('Q'));
    assert_eq!(k.handle_key_event(codes::KEY_2, 1), key_pressed('@'));
    assert_eq!(k.handle_key_event(codes::KEY_0, 1), key_pressed(')'));
    assert_eq!(k.handle_key_event(codes::KEY_BACKSLASH, 1), key_pressed('|'));
    assert_eq!(k.handle_key_event(codes::KEY_APOSTROPHE, 1), key_pressed('"'));
    assert_eq!(k.handle_key_event(codes::KEY_KPSLASH, 1), key_pressed('?'));
    assert_eq!(k.handle_key_event(codes::KEY_TAB, 1), key_pressed(key_codes::BACKTAB));
    assert_eq!(k.handle_key_event(codes::KEY_ENTER, 1), key_pressed(key_codes::RETURN));
    assert_eq!(k.handle_key_event(codes::KEY_LEFTSHIFT, 2), key_repeated(key_codes::SHIFT));
    assert!(k.shift_pressed);
    assert_eq!(k.handle_key_event(codes::KEY_LEFTSHIFT, 0), key_released(key_codes::SHIFT));
    assert!(!k.shift_pressed);
    assert_eq!(k.handle_key_event(codes::KEY_Q, 1), key_pressed('q'));
    assert_eq!(k.handle_key_event(codes::KEY_TAB, 1), key_pressed(key_codes::TAB));
}

#[test]
fn either_shift_key_sets_and_clears_the_one_shift_state() {
    let mut k = simple();
    assert_eq!(k.handle_key_event(codes::KEY_RIGHTSHIFT, 1), key_pressed(key_codes::SHIFT_R));
    assert_eq!(k.handle_key_event(codes::KEY_A, 1), key_pressed('A'));
    assert_eq!(k.handle_key_event(codes::KEY_LEFTSHIFT, 1), key_pressed(key_codes::SHIFT));
    assert_eq!(k.handle_key_event(codes::KEY_RIGHTSHIFT, 0), key_released(key_codes::SHIFT_R));
    assert!(!k.shift_pressed);
    assert_eq!(k.handle_key_event(codes::KEY_A, 1), key_pressed('a'));
}

#[test]
fn named_keys_have_their_character_with_and_without_shift() {
    let named = [
        (codes::KEY_LEFTCTRL, key_codes::CONTROL),
        (codes::KEY_RIGHTCTRL, key_codes::CONTROL_R),
        (codes::KEY_LEFTALT, key_codes::ALT),
        (codes::KEY_RIGHTALT, key_codes::ALT_GR),
        (codes::KEY_LEFTMETA, key_codes::META),
        (codes::KEY_RIGHTMETA, key_codes::META_R),
        (codes::KEY_CAPSLOCK, key_codes::CAPS_LOCK),
        (codes::KEY_ESC, key_codes::ESCAPE),
        (codes::KEY_KPENTER, key_codes::RETURN),
        (codes::KEY_BACKSPACE, key_codes::BACKSPACE),
        (codes::KEY_SPACE, key_codes::SPACE),
        (codes::KEY_UP, key_codes::UP_ARROW),
        (codes::KEY_DOWN, key_codes::DOWN_ARROW),
        (codes::KEY_LEFT, key_codes::LEFT_ARROW),
        (codes::KEY_RIGHT, key_codes::RIGHT_ARROW),
        (codes::KEY_F1, key_codes::F1),
        (codes::KEY_F10, key_codes::F10),
        (codes::KEY_F11, key_codes::F11),
        (codes::KEY_F12, key_codes::F12),
        (codes::KEY_F13, key_codes::F13),
        (codes::KEY_F24, key_codes::F24),
        (codes::KEY_DELETE, key_codes::DELETE),
        (codes::KEY_HOME, key_codes::HOME),
        (codes::KEY_END, key_codes::END),
        (codes::KEY_PAGEUP, key_codes::PAGE_UP),
        (codes::KEY_PAGEDOWN, key_codes::PAGE_DOWN),
        (codes::KEY_INSERT, key_codes::INSERT),
        (codes::KEY_SYSRQ, key_codes::SYS_REQ),
        (codes::KEY_SCROLLLOCK, key_codes::SCROLL_LOCK),
        (codes::KEY_PAUSE, key_codes::PAUSE),
        (codes::KEY_STOP, key_codes::STOP),
        (codes::KEY_MENU, key_codes::MENU),
        (codes::KEY_BACK, key_codes::BACK),
    ];
    for shift in [false, true] {
        let k = impl_simple::KeyboardHandler { shift_pressed: shift };
        for (code, c) in named {
            assert_eq!(k.map_key_code(code), Some(c));
        }
    }
}

#[test]
fn a_key_outside_the_table_gives_no_event() {
    let mut k = simple();
    assert_eq!(k.handle_key_event(69, 1), None);
    assert_eq!(k.handle_key_event(0, 1), None);
    assert_eq!(k.handle_key_event(u16::MAX, 0), None);
    assert_eq!(k.handle_key_event(codes::BTN_LEFT, 1), None);
    assert_eq!(k.map_key_code(240), None);
}

#[test]
fn a_value_that_is_no_kind_gives_no_event_and_keeps_the_shift() {
    let mut k = simple();
    assert_eq!(k.handle_key_event(codes::KEY_A, 3), None);
    assert_eq!(k.handle_key_event(codes::KEY_LEFTSHIFT, 3), None);
    assert!(!k.shift_pressed);
    k.handle_key_event(codes::KEY_LEFTSHIFT, 1);
    assert_eq!(k.handle_key_event(codes::KEY_LEFTSHIFT, -1), None);
    assert!(k.shift_pressed);
}

#[test]
fn the_strategy_interface_gives_what_the_keyboard_gives() {
    let mut k = simple();
    assert_eq!(KeyboardStrategy::handle_key_event(&mut k, codes::KEY_LEFTSHIFT, 1), key_pressed(key_codes::SHIFT));
    assert_eq!(KeyboardStrategy::handle_key_event(&mut k, codes::KEY_Z, 1), key_pressed('Z'));
}

#[test]
fn a_symbol_that_names_a_key_has_the_key_s_character() {
    assert_eq!(impl_xkb::map_keysym_to_char(keysyms::XK_SHIFT_L), Some(key_codes::SHIFT));
    assert_eq!(impl_xkb::map_keysym_to_char(keysyms::XK_ISO_LEVEL3_SHIFT), Some(key_codes::ALT_GR));
    assert_eq!(impl_xkb::map_keysym_to_char(keysyms::XK_SUPER_R), Some(key_codes::META_R));
    assert_eq!(impl_xkb::map_keysym_to_char(keysyms::XK_KP_ENTER), Some(key_codes::RETURN));
    assert_eq!(impl_xkb::map_keysym_to_char(keysyms::XK_RETURN), Some(key_codes::RETURN));
    assert_eq!(impl_xkb::map_keysym_to_char(keysyms::XK_ISO_LEFT_TAB), Some(key_codes::BACKTAB));
    assert_eq!(impl_xkb::map_keysym_to_char(keysyms::XK_DELETE), Some(key_codes::DELETE));
    assert_eq!(impl_xkb::map_keysym_to_char(keysyms::XK_KP_PAGE_DOWN), Some(key_codes::PAGE_DOWN));
    assert_eq!(impl_xkb::map_keysym_to_char(keysyms::XK_PRINT), Some(key_codes::SYS_REQ));
    assert_eq!(impl_xkb::map_keysym_to_char(keysyms::XK_SPACE), Some(key_codes::SPACE));
    assert_eq!(impl_xkb::map_keysym_to_char(keysyms::XK_KP_SPACE), Some(key_codes::SPACE));
    assert_eq!(impl_xkb::map_keysym_to_char(keysyms::XK_F1), Some(key_codes::F1));
    assert_eq!(impl_xkb::map_keysym_to_char(keysyms::XK_F24), Some(key_codes::F24));
    assert_eq!(impl_xkb::named_key(keysyms::XK_UP), Some(key_codes::UP_ARROW));
    assert_eq!(impl_xkb::named_key(0x61), None);
}

#[test]
fn any_other_symbol_has_the_character_that_it_prints() {
    assert_eq!(impl_xkb::map_keysym_to_char(0x61), Some('a'));
    assert_eq!(impl_xkb::map_keysym_to_char(0x41), Some('A'));
    assert_eq!(impl_xkb::map_keysym_to_char(0xe4), Some('\u{e4}'));
    assert_eq!(impl_xkb::map_keysym_to_char(0x20ac), Some('\u{20ac}'));
    assert_eq!(impl_xkb::map_keysym_to_char(0x0100_03b1), Some('\u{3b1}'));
    assert_eq!(impl_xkb::map_keysym_to_char(0xffaa), Some('*'));
    assert_eq!(impl_xkb::map_keysym_to_char(0), None);
    assert_eq!(impl_xkb::map_keysym_to_char(0xffed), None);
    assert_eq!(impl_xkb::map_keysym_to_char(0x0100_d800), None);
    for raw in [0x61u32, 0x41, 0xe4, 0x20ac, 0xffaa, 0, 0xffed, 0x31, 0x7e] {
        assert_eq!(impl_xkb::map_keysym_to_char(raw), xkeysym::Keysym::new(raw).key_char());
    }
}

const KEYMAP: &str = r#"xkb_keymap {
    xkb_keycodes "(unnamed)" {
        minimum = 8;
        maximum = 255;
        <ESC> = 9;
        <AE01> = 10;
        <TAB> = 23;
        <AD01> = 24;
        <AC01> = 38;
        <LFSH> = 50;
        <RTSH> = 62;
        <HENK> = 100;
        <UP> = 111;
    };
    xkb_types "(unnamed)" {
        virtual_modifiers NumLock,Alt,LevelThree;
        type "ONE_LEVEL" {
            modifiers= none;
            level_name[Level1]= "Any";
        };
        type "TWO_LEVEL" {
            modifiers= Shift;
            map[Shift]= Level2;
            level_name[Level1]= "Base";
            level_name[Level2]= "Shift";
        };
        type "ALPHABETIC" {
            modifiers= Shift+Lock;
            map[Shift]= Level2;
            map[Lock]= Level2;
            level_name[Level1]= "Base";
            level_name[Level2]= "Caps";
        };
    };
    xkb_compatibility "(unnamed)" {
        virtual_modifiers NumLock,Alt,LevelThree;
        interpret.useModMapMods= AnyLevel;
        interpret.repeat= False;
        interpret Shift_L+AnyOfOrNone(all) {
            action= SetMods(modifiers=Shift,clearLocks);
        };
        interpret Shift_R+AnyOfOrNone(all) {
            action= SetMods(modifiers=Shift,clearLocks);
        };
    };
    xkb_symbols "(unnamed)" {
        name[group1]="English (US)";
        key <ESC> { [ Escape ] };
        key <AE01> { type= "TWO_LEVEL", symbols[Group1]= [ 1, exclam ] };
        key <TAB> { type= "TWO_LEVEL", symbols[Group1]= [ Tab, ISO_Left_Tab ] };
        key <AD01> { type= "ALPHABETIC", symbols[Group1]= [ q, Q ] };
        key <AC01> { type= "ALPHABETIC", symbols[Group1]= [ a, A ] };
        key <LFSH> { [ Shift_L ] };
        key <RTSH> { [ Shift_R ] };
        key <UP> { [ Up ] };
        modifier_map Shift { <LFSH>, <RTSH> };
    };
};
"#;

/// A keyboard on the test layout, with the layout's state machine beside it.
struct LayoutKeyboard {
    state: xkbcommon_rs::State,
    handler: impl_xkb::KeyboardHandler,
}

fn layout() -> LayoutKeyboard {
    let context = xkbcommon_rs::Context::new(0).unwrap();
    let keymap = xkbcommon_rs::Keymap::new_from_string(
        context,
        KEYMAP,
        xkbcommon_rs::KeymapFormat::TextV1,
        0,
    )
    .expect("the keymap compiles");
    LayoutKeyboard {
        state: xkbcommon_rs::State::new(keymap),
        handler: impl_xkb::KeyboardHandler::new(LayoutSetup::Ready).expect("a keyboard on a layout"),
    }
}

impl LayoutKeyboard {
    /// Tells the state machine of the key event and asks it for the symbol.
    fn resolve(&mut self, key_code: u16, value: i32) -> Option<ResolvedKey> {
        let event = RawEvent { kind: codes::EV_KEY, code: key_code, value };
        if !needs_symbol(event) {
            return None;
        }
        let update = key_update(key_code, value).unwrap();
        let direction = match update.direction {
            KeyDirection::Up => xkbcommon_rs::xkb_state::KeyDirection::Up,
            KeyDirection::Down => xkbcommon_rs::xkb_state::KeyDirection::Down,
        };
        if self.state.key_get_layout(update.keycode).is_some() {
            self.state.update_key(update.keycode, direction);
        }
        let symbol = self.state.key_get_one_sym(update.keycode).map(|sym| sym.raw());
        Some(ResolvedKey { key_code, symbol })
    }

    fn handle_key_event(&mut self, key_code: u16, value: i32) -> Option<WindowEvent> {
        if let Some(resolved) = self.resolve(key_code, value) {
            self.handler.supply(vec![resolved]);
        }
        self.handler.handle_key_event(key_code, value)
    }
}

#[test]
fn without_a_layout_there_is_no_keyboard() {
    match impl_xkb::KeyboardHandler::new(LayoutSetup::NoKeymap) {
        Err(slint_backend_linuxfb::error::Error::Other(message)) => {
            assert_eq!(message, "Failed to create xkb keymap")
        }
        _ => panic!("a keyboard without a layout"),
    }
    match impl_xkb::KeyboardHandler::new(LayoutSetup::NoContext) {
        Err(slint_backend_linuxfb::error::Error::Other(message)) => {
            assert_eq!(message, "Failed to create xkb context")
        }
        _ => panic!("a keyboard without a context"),
    }
    let k = impl_xkb::KeyboardHandler::new(LayoutSetup::Ready).unwrap();
    assert!(k.symbols.is_empty());
    assert_eq!(k.used, 0);
}

#[test]
fn the_state_machine_is_told_of_releases_presses_and_repeats() {
    assert_eq!(key_update(30, 0), Some(KeyUpdate { keycode: 38, direction: KeyDirection::Up }));
    assert_eq!(key_update(30, 1), Some(KeyUpdate { keycode: 38, direction: KeyDirection::Down }));
    assert_eq!(key_update(30, 2), Some(KeyUpdate { keycode: 38, direction: KeyDirection::Down }));
    assert_eq!(key_update(0, 1), Some(KeyUpdate { keycode: 8, direction: KeyDirection::Down }));
    assert_eq!(
        key_update(u16::MAX, 0),
        Some(KeyUpdate { keycode: 65543, direction: KeyDirection::Up })
    );
    assert_eq!(key_update(30, 3), None);
    assert_eq!(key_update(30, -1), None);
    let key = |code: u16, value: i32| RawEvent { kind: codes::EV_KEY, code, value };
    assert!(needs_symbol(key(codes::KEY_A, 0)));
    assert!(needs_symbol(key(codes::KEY_A, 1)));
    assert!(needs_symbol(key(codes::KEY_A, 2)));
    assert!(!needs_symbol(key(codes::KEY_A, 3)));
    assert!(!needs_symbol(key(codes::KEY_A, -1)));
    assert!(!needs_symbol(key(codes::BTN_LEFT, 1)));
    assert!(!needs_symbol(key(codes::BTN_TOUCH, 0)));
    assert!(!needs_symbol(RawEvent { kind: codes::EV_REL, code: codes::KEY_A, value: 1 }));
}

#[test]
fn the_symbols_are_used_in_the_order_of_the_key_events() {
    let mut k = impl_xkb::KeyboardHandler::new(LayoutSetup::Ready).unwrap();
    k.supply(vec![
        ResolvedKey { key_code: codes::KEY_A, symbol: Some(0x61) },
        ResolvedKey { key_code: codes::KEY_A, symbol: Some(0x41) },
        ResolvedKey { key_code: codes::KEY_UP, symbol: Some(keysyms::XK_UP) },
        ResolvedKey { key_code: codes::KEY_Q, symbol: None },
        ResolvedKey { key_code: codes::KEY_Q, symbol: Some(0x71) },
    ]);
    assert_eq!(k.handle_key_event(codes::KEY_A, 1), key_pressed('a'));
    assert_eq!(k.handle_key_event(codes::KEY_A, 3), None);
    assert_eq!(k.used, 1);
    assert_eq!(k.handle_key_event(codes::KEY_A, 0), key_released('A'));
    assert_eq!(k.handle_key_event(codes::KEY_UP, 2), key_repeated(key_codes::UP_ARROW));
    assert_eq!(k.handle_key_event(codes::KEY_Q, 1), Some(WindowEvent::KeyPressed { text: None }));
    assert_eq!(k.handle_key_event(codes::KEY_Q, 0), key_released('q'));
    assert_eq!(k.used, 5);
    assert_eq!(k.handle_key_event(codes::KEY_Q, 1), Some(WindowEvent::KeyPressed { text: None }));
    assert_eq!(k.used, 5);
}

#[test]
fn a_symbol_of_another_key_is_not_used() {
    let mut k = impl_xkb::KeyboardHandler::new(LayoutSetup::Ready).unwrap();
    k.supply(vec![ResolvedKey { key_code: codes::KEY_A, symbol: Some(0x61) }]);
    assert_eq!(k.handle_key_event(codes::KEY_B, 1), Some(WindowEvent::KeyPressed { text: None }));
    assert_eq!(k.used, 0);
    assert_eq!(k.handle_key_event(codes::KEY_A, 1), key_pressed('a'));
    assert_eq!(k.used, 1);
    k.supply(vec![ResolvedKey { key_code: codes::KEY_B, symbol: Some(0x62) }]);
    assert_eq!(k.used, 0);
    assert_eq!(k.handle_key_event(codes::KEY_B, 2), key_repeated('b'));
    k.supply(vec![ResolvedKey { key_code: codes::KEY_B, symbol: Some(0x62) }]);
    k.supply(vec![]);
    assert_eq!(k.handle_key_event(codes::KEY_B, 1), Some(WindowEvent::KeyPressed { text: None }));
    k.used = 7;
    assert_eq!(k.handle_key_event(codes::KEY_B, 1), Some(WindowEvent::KeyPressed { text: None }));
    assert_eq!(k.used, 7);
}

#[test]
fn the_layout_resolves_keys_to_their_text() {
    let mut k = layout();
    assert_eq!(k.handle_key_event(codes::KEY_A, 1), key_pressed('a'));
    assert_eq!(k.handle_key_event(codes::KEY_A, 2), key_repeated('a'));
    assert_eq!(k.handle_key_event(codes::KEY_A, 0), key_released('a'));
    assert_eq!(k.handle_key_event(codes::KEY_Q, 1), key_pressed('q'));
    assert_eq!(k.handle_key_event(codes::KEY_Q, 0), key_released('q'));
    assert_eq!(k.handle_key_event(codes::KEY_1, 1), key_pressed('1'));
    assert_eq!(k.handle_key_event(codes::KEY_1, 0), key_released('1'));
    assert_eq!(k.handle_key_event(codes::KEY_ESC, 1), key_pressed(key_codes::ESCAPE));
    assert_eq!(k.handle_key_event(codes::KEY_ESC, 0), key_released(key_codes::ESCAPE));
    assert_eq!(k.handle_key_event(codes::KEY_UP, 1), key_pressed(key_codes::UP_ARROW));
    assert_eq!(k.handle_key_event(codes::KEY_UP, 0), key_released(key_codes::UP_ARROW));
}

#[test]
fn the_layout_follows_the_shift_keys() {
    let mut k = layout();
    assert_eq!(k.handle_key_event(codes::KEY_LEFTSHIFT, 1), key_pressed(key_codes::SHIFT));
    assert_eq!(k.handle_key_event(codes::KEY_A, 1), key_pressed('A'));
    assert_eq!(k.handle_key_event(codes::KEY_A, 0), key_released('A'));
    assert_eq!(k.handle_key_event(codes::KEY_1, 1), key_pressed('!'));
    assert_eq!(k.handle_key_event(codes::KEY_1, 0), key_released('!'));
    assert_eq!(k.handle_key_event(codes::KEY_TAB, 1), key_pressed(key_codes::BACKTAB));
    assert_eq!(k.handle_key_event(codes::KEY_TAB, 0), key_released(key_codes::BACKTAB));
    assert_eq!(k.handle_key_event(codes::KEY_LEFTSHIFT, 0), key_released(key_codes::SHIFT));
    assert_eq!(k.handle_key_event(codes::KEY_A, 1), key_pressed('a'));
    assert_eq!(k.handle_key_event(codes::KEY_TAB, 1), key_pressed(key_codes::TAB));
}

#[test]
fn a_key_that_the_layout_does_not_resolve_has_no_text() {
    let mut k = layout();
    assert_eq!(k.handle_key_event(92, 1), Some(WindowEvent::KeyPressed { text: None }));
    assert_eq!(k.handle_key_event(92, 0), Some(WindowEvent::KeyReleased { text: None }));
    assert_eq!(k.handle_key_event(200, 1), Some(WindowEvent::KeyPressed { text: None }));
    assert_eq!(k.handle_key_event(200, 2), Some(WindowEvent::KeyPressRepeated { text: None }));
    assert_eq!(k.handle_key_event(u16::MAX, 1), Some(WindowEvent::KeyPressed { text: None }));
    assert_eq!(k.handle_key_event(codes::KEY_A, 1), key_pressed('a'));
}

#[test]
fn the_layout_ignores_a_value_that_is_no_kind() {
    let mut k = layout();
    assert_eq!(k.handle_key_event(codes::KEY_LEFTSHIFT, 3), None);
    assert_eq!(k.handle_key_event(codes::KEY_LEFTSHIFT, -1), None);
    assert_eq!(k.handle_key_event(codes::KEY_A, 1), key_pressed('a'));
    assert_eq!(KeyboardStrategy::handle_key_event(&mut k.handler, codes::KEY_A, 7), None);
}

#[test]
fn the_layout_keyboard_answers_the_keys_of_a_device_in_order() {
    let keyboard = impl_xkb::KeyboardHandler::new(LayoutSetup::Ready);
    let config = InputConfig { autodiscovery: false, threaded_input: false, whitelist: vec![], blacklist: vec![] };
    let mut m: InputManager<impl_xkb::KeyboardHandler> =
        InputManager::new(800, 480, config, keyboard, 0).unwrap();
    let mut k = layout();
    let events = vec![
        RawEvent { kind: codes::EV_KEY, code: codes::KEY_LEFTSHIFT, value: 1 },
        RawEvent { kind: codes::EV_KEY, code: codes::BTN_LEFT, value: 1 },
        RawEvent { kind: codes::EV_KEY, code: codes::KEY_A, value: 1 },
        RawEvent { kind: codes::EV_KEY, code: codes::KEY_A, value: 9 },
        RawEvent { kind: codes::EV_REL, code: codes::REL_X, value: 4 },
        RawEvent { kind: codes::EV_KEY, code: codes::KEY_A, value: 0 },
        RawEvent { kind: codes::EV_KEY, code: codes::KEY_LEFTSHIFT, value: 0 },
        RawEvent { kind: codes::EV_KEY, code: codes::KEY_A, value: 2 },
    ];
    let symbols: Vec<ResolvedKey> =
        events.iter().filter_map(|e| if needs_symbol(*e) { k.resolve(e.code, e.value) } else { None }).collect();
    assert_eq!(symbols.len(), 5);
    m.state.keyboard.supply(symbols);
    let mut device = ManagedDevice {
        path: "k".to_string(),
        fd: 3,
        role: DeviceRole::Keyboard,
        abs_x_info: None,
        abs_y_info: None,
        is_protocol_b: false,
        touch: TouchState::new(),
    };
    let out = m.state.process_device_events(&mut device, &events, 10);
    assert_eq!(
        out,
        vec![
            WindowEvent::KeyPressed { text: Some(key_codes::SHIFT) },
            WindowEvent::PointerPressed {
                position: PhysicalPosition { x: 400, y: 240 },
                button: PointerEventButton::Left,
            },
            WindowEvent::KeyPressed { text: Some('A') },
            WindowEvent::KeyReleased { text: Some('A') },
            WindowEvent::KeyReleased { text: Some(key_codes::SHIFT) },
            WindowEvent::KeyPressRepeated { text: Some('a') },
        ]
    );
    assert_eq!(m.state.keyboard.used, 5);
}
