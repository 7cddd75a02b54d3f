use auto_input::hotkeys::HotkeySettings;
use auto_input::input::{
    key_down, key_press, key_up, mouse_click, mouse_down, mouse_up, move_mouse_abs,
    move_mouse_rel, normalize_coords, InputRecord, KEYEVENTF_KEYUP, MOUSEEVENTF_ABSOLUTE,
    MOUSEEVENTF_LEFTDOWN, MOUSEEVENTF_LEFTUP, MOUSEEVENTF_MIDDLEDOWN, MOUSEEVENTF_MIDDLEUP,
    MOUSEEVENTF_MOVE, MOUSEEVENTF_RIGHTDOWN, MOUSEEVENTF_RIGHTUP,
};
use auto_input::keys::VIRTUAL_KEY;
use auto_input::settings::{
    ActionType, ClickType, KeyMode, LocationMode, MouseButton, MouseMode, RepeatMode,
};

#[test]
fn coordinates_map_onto_absolute_range() {
    assert_eq!(normalize_coords(960, 540, 1920, 1080), (32768, 32768));
    assert_eq!(normalize_coords(0, 0, 1920, 1080), (0, 0));
    assert_eq!(normalize_coords(1919, 1079, 1920, 1080), (65501, 65474));
    assert_eq!(normalize_coords(-10, 5, 1920, 1080), (-340, 303));
}

#[test]
fn zero_sized_screen_maps_to_origin() {
    assert_eq!(normalize_coords(500, 500, 0, 1080), (0, 0));
    assert_eq!(normalize_coords(500, 500, 1920, 0), (0, 0));
}

#[test]
fn absolute_and_relative_moves() {
    assert_eq!(
        move_mouse_abs(960, 540, 1920, 1080),
        vec![InputRecord::Mouse {
            dx: 32768,
            dy: 32768,
            flags: MOUSEEVENTF_MOVE | MOUSEEVENTF_ABSOLUTE
        }]
    );
    assert_eq!(
        move_mouse_rel(3, -4),
        vec![InputRecord::Mouse { dx: 3, dy: -4, flags: MOUSEEVENTF_MOVE }]
    );
}

#[test]
fn button_events_use_matching_flags() {
    assert_eq!(
        mouse_click(MouseButton::Right),
        vec![
            InputRecord::Mouse { dx: 0, dy: 0, flags: MOUSEEVENTF_RIGHTDOWN },
            InputRecord::Mouse { dx: 0, dy: 0, flags: MOUSEEVENTF_RIGHTUP }
        ]
    );
    assert_eq!(
        mouse_down(MouseButton::Middle),
        vec![InputRecord::Mouse { dx: 0, dy: 0, flags: MOUSEEVENTF_MIDDLEDOWN }]
    );
    assert_eq!(
        mouse_up(MouseButton::Middle),
        vec![InputRecord::Mouse { dx: 0, dy: 0, flags: MOUSEEVENTF_MIDDLEUP }]
    );
    assert_eq!(
        mouse_down(MouseButton::Left),
        vec![InputRecord::Mouse { dx: 0, dy: 0, flags: MOUSEEVENTF_LEFTDOWN }]
    );
    assert_eq!(
        mouse_up(MouseButton::Left),
        vec![InputRecord::Mouse { dx: 0, dy: 0, flags: MOUSEEVENTF_LEFTUP }]
    );
}

#[test]
fn key_events() {
    let vk = VIRTUAL_KEY(0x45);
    assert_eq!(key_down(vk), vec![InputRecord::Keyboard { vk: 0x45, flags: 0 }]);
    assert_eq!(key_up(vk), vec![InputRecord::Keyboard { vk: 0x45, flags: KEYEVENTF_KEYUP }]);
    assert_eq!(
        key_press(vk),
        vec![
            InputRecord::Keyboard { vk: 0x45, flags: 0 },
            InputRecord::Keyboard { vk: 0x45, flags: KEYEVENTF_KEYUP }
        ]
    );
}

#[test]
fn option_names_parse() {
    assert_eq!(MouseButton::parse("right"), MouseButton::Right);
    assert_eq!(MouseButton::parse("middle"), MouseButton::Middle);
    assert_eq!(MouseButton::parse("left"), MouseButton::Left);
    assert_eq!(MouseButton::parse("other"), MouseButton::Left);
    assert_eq!(ClickType::parse("double"), ClickType::Double);
    assert_eq!(ClickType::parse("single"), ClickType::Single);
    assert_eq!(RepeatMode::parse("count"), RepeatMode::Count);
    assert_eq!(RepeatMode::parse("infinite"), RepeatMode::Infinite);
    assert_eq!(LocationMode::parse("fixed"), LocationMode::Fixed);
    assert_eq!(LocationMode::parse("current"), LocationMode::Current);
    assert_eq!(ActionType::parse("click"), ActionType::Click);
    assert_eq!(ActionType::parse("hold-key"), ActionType::HoldKey);
    assert_eq!(MouseMode::parse("hold"), MouseMode::Hold);
    assert_eq!(MouseMode::parse("click"), MouseMode::Click);
    assert_eq!(KeyMode::parse("hold"), KeyMode::Hold);
    assert_eq!(KeyMode::parse("tap"), KeyMode::Tap);
}

#[test]
fn hotkeys_default_to_unset() {
    let h = HotkeySettings::default();
    assert_eq!(h, HotkeySettings { start: None, stop: None, toggle: None });
}
