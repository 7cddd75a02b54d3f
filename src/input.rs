use vstd::prelude::*;

use crate::keys::VIRTUAL_KEY;
use crate::settings::MouseButton;

verus! {

pub const MOUSEEVENTF_MOVE: u32 = 0x0001;
pub const MOUSEEVENTF_LEFTDOWN: u32 = 0x0002;
pub const MOUSEEVENTF_LEFTUP: u32 = 0x0004;
pub const MOUSEEVENTF_RIGHTDOWN: u32 = 0x0008;
pub const MOUSEEVENTF_RIGHTUP: u32 = 0x0010;
pub const MOUSEEVENTF_MIDDLEDOWN: u32 = 0x0020;
pub const MOUSEEVENTF_MIDDLEUP: u32 = 0x0040;
pub const MOUSEEVENTF_ABSOLUTE: u32 = 0x8000;
pub const KEYEVENTF_KEYUP: u32 = 0x0002;

/// The largest absolute pointer coordinate: the screen maps onto 0 to 65535.
pub const ABSOLUTE_RANGE: i64 = 65535;

/// One synthetic input event, as the platform's input queue takes it.
#[derive(Clone, Copy, Debug, PartialEq, Eq, Structural)]
pub enum InputRecord {
    Mouse { dx: i32, dy: i32, flags: u32 },
    Keyboard { vk: u16, flags: u32 },
}

/// The flag that presses a button.
pub open spec fn down_flag(button: MouseButton) -> u32 {
    match button {
        MouseButton::Left => MOUSEEVENTF_LEFTDOWN,
        MouseButton::Right => MOUSEEVENTF_RIGHTDOWN,
        MouseButton::Middle => MOUSEEVENTF_MIDDLEDOWN,
    }
}

/// The flag that releases a button.
pub open spec fn up_flag(button: MouseButton) -> u32 {
    match button {
        MouseButton::Left => MOUSEEVENTF_LEFTUP,
        MouseButton::Right => MOUSEEVENTF_RIGHTUP,
        MouseButton::Middle => MOUSEEVENTF_MIDDLEUP,
    }
}

/// Integer division rounding toward zero.
pub open spec fn trunc_div(n: int, d: int) -> int
    recommends
        d > 0,
{
    if n >= 0 {
        n / d
    } else {
        -((-n) / d)
    }
}

/// A screen coordinate mapped onto the absolute range, rounded to nearest,
/// for a screen `size` pixels across.
pub open spec fn normalized_spec(v: int, size: int) -> int {
    trunc_div(v * 65535 + size / 2, size)
}

/// Whether mapping `v` onto the absolute range stays within `i32`.
pub open spec fn normalizable(v: i32, size: i32) -> bool {
    i32::MIN <= v * 65535 + size / 2 <= i32::MAX
}

proof fn lemma_div_bounded(n: int, d: int)
    requires
        n >= 0,
        d > 0,
    ensures
        0 <= n / d <= n,
{
    assert(0 <= n / d <= n) by (nonlinear_arith)
        requires
            n >= 0,
            d > 0,
    ;
}

fn normalize(v: i32, size: i32) -> (r: i32)
    requires
        size > 0,
        normalizable(v, size),
    ensures
        r as int == normalized_spec(v as int, size as int),
{
    let n: i64 = v as i64 * ABSOLUTE_RANGE + (size / 2) as i64;
    let d: i64 = size as i64;
    let q: i64 = if n >= 0 {
        proof {
            lemma_div_bounded(n as int, d as int);
        }
        n / d
    } else {
        let m: i64 = -n;
        proof {
            lemma_div_bounded(m as int, d as int);
        }
        -(m / d)
    };
    q as i32
}

/// Maps screen coordinates onto the absolute range, given the screen's width
/// and height; a screen of zero size maps everything to the origin.
pub fn normalize_coords(x: i32, y: i32, width: i32, height: i32) -> (r: (i32, i32))
    requires
        width >= 0,
        height >= 0,
        width > 0 && height > 0 ==> normalizable(x, width) && normalizable(y, height),
    ensures
        width == 0 || height == 0 ==> r == (0i32, 0i32),
        width > 0 && height > 0 ==> r.0 as int == normalized_spec(x as int, width as int)
            && r.1 as int == normalized_spec(y as int, height as int),
{
    if width == 0 || height == 0 {
        return (0, 0);
    }
    (normalize(x, width), normalize(y, height))
}

/// The event that moves the pointer to screen coordinates `(x, y)` on a
/// screen of the given size.
pub fn move_mouse_abs(x: i32, y: i32, width: i32, height: i32) -> (r: Vec<InputRecord>)
    requires
        width >= 0,
        height >= 0,
        width > 0 && height > 0 ==> normalizable(x, width) && normalizable(y, height),
    ensures
        r@.len() == 1,
        (width == 0 || height == 0) ==> r@[0] == (InputRecord::Mouse {
            dx: 0,
            dy: 0,
            flags: MOUSEEVENTF_MOVE | MOUSEEVENTF_ABSOLUTE,
        }),
        (width > 0 && height > 0) ==> r@[0] == (InputRecord::Mouse {
            dx: normalized_spec(x as int, width as int) as i32,
            dy: normalized_spec(y as int, height as int) as i32,
            flags: MOUSEEVENTF_MOVE | MOUSEEVENTF_ABSOLUTE,
        }),
{
    let (nx, ny) = normalize_coords(x, y, width, height);
    vec![InputRecord::Mouse { dx: nx, dy: ny, flags: MOUSEEVENTF_MOVE | MOUSEEVENTF_ABSOLUTE }]
}

/// The event that moves the pointer by `(dx, dy)` pixels.
pub fn move_mouse_rel(dx: i32, dy: i32) -> (r: Vec<InputRecord>)
    ensures
        r@ == seq![InputRecord::Mouse { dx, dy, flags: MOUSEEVENTF_MOVE }],
{
    vec![InputRecord::Mouse { dx, dy, flags: MOUSEEVENTF_MOVE }]
}

fn button_down_flag(button: MouseButton) -> (r: u32)
    ensures
        r == down_flag(button),
{
    match button {
        MouseButton::Left => MOUSEEVENTF_LEFTDOWN,
        MouseButton::Right => MOUSEEVENTF_RIGHTDOWN,
        MouseButton::Middle => MOUSEEVENTF_MIDDLEDOWN,
    }
}

fn button_up_flag(button: MouseButton) -> (r: u32)
    ensures
        r == up_flag(button),
{
    match button {
        MouseButton::Left => MOUSEEVENTF_LEFTUP,
        MouseButton::Right => MOUSEEVENTF_RIGHTUP,
        MouseButton::Middle => MOUSEEVENTF_MIDDLEUP,
    }
}

/// The two events of a click: the button pressed, then released.
pub fn mouse_click(button: MouseButton) -> (r: Vec<InputRecord>)
    ensures
        r@ == seq![
            InputRecord::Mouse { dx: 0, dy: 0, flags: down_flag(button) },
            InputRecord::Mouse { dx: 0, dy: 0, flags: up_flag(button) },
        ],
{
    vec![
        InputRecord::Mouse { dx: 0, dy: 0, flags: button_down_flag(button) },
        InputRecord::Mouse { dx: 0, dy: 0, flags: button_up_flag(button) },
    ]
}

/// The event that presses a button.
pub fn mouse_down(button: MouseButton) -> (r: Vec<InputRecord>)
    ensures
        r@ == seq![InputRecord::Mouse { dx: 0, dy: 0, flags: down_flag(button) }],
{
    vec![InputRecord::Mouse { dx: 0, dy: 0, flags: button_down_flag(button) }]
}

/// The event that releases a button.
pub fn mouse_up(button: MouseButton) -> (r: Vec<InputRecord>)
    ensures
        r@ == seq![InputRecord::Mouse { dx: 0, dy: 0, flags: up_flag(button) }],
{
    vec![InputRecord::Mouse { dx: 0, dy: 0, flags: button_up_flag(button) }]
}

/// The event that presses a key.
pub fn key_down(vk: VIRTUAL_KEY) -> (r: Vec<InputRecord>)
    ensures
        r@ == seq![InputRecord::Keyboard { vk: vk.0, flags: 0 }],
{
    vec![InputRecord::Keyboard { vk: vk.0, flags: 0 }]
}

/// The event that releases a key.
pub fn key_up(vk: VIRTUAL_KEY) -> (r: Vec<InputRecord>)
    ensures
        r@ == seq![InputRecord::Keyboard { vk: vk.0, flags: KEYEVENTF_KEYUP }],
{
    vec![InputRecord::Keyboard { vk: vk.0, flags: KEYEVENTF_KEYUP }]
}

/// The events of a key press: the key pressed, then released.
pub fn key_press(vk: VIRTUAL_KEY) -> (r: Vec<InputRecord>)
    ensures
        r@ == seq![
            InputRecord::Keyboard { vk: vk.0, flags: 0 },
            InputRecord::Keyboard { vk: vk.0, flags: KEYEVENTF_KEYUP },
        ],
{
    let mut r = key_down(vk);
    let mut up = key_up(vk);
    r.append(&mut up);
    assert(r@ =~= seq![
        InputRecord::Keyboard { vk: vk.0, flags: 0 },
        InputRecord::Keyboard { vk: vk.0, flags: KEYEVENTF_KEYUP },
    ]);
    r
}

} // verus!
