use vstd::prelude::*;

verus! {

broadcast use vstd::string::axiom_spec_iter;

/// A platform virtual-key code.
#[allow(non_camel_case_types)]
#[derive(Clone, Copy, Debug, PartialEq, Eq, Structural)]
pub struct VIRTUAL_KEY(pub u16);

pub const VK_BACK: u16 = 0x08;
pub const VK_TAB: u16 = 0x09;
pub const VK_RETURN: u16 = 0x0D;
pub const VK_SHIFT: u16 = 0x10;
pub const VK_CONTROL: u16 = 0x11;
pub const VK_MENU: u16 = 0x12;
pub const VK_ESCAPE: u16 = 0x1B;
pub const VK_SPACE: u16 = 0x20;
pub const VK_DELETE: u16 = 0x2E;
pub const VK_F1: u16 = 0x70;
pub const VK_F2: u16 = 0x71;
pub const VK_F3: u16 = 0x72;
pub const VK_F4: u16 = 0x73;
pub const VK_F5: u16 = 0x74;
pub const VK_F6: u16 = 0x75;
pub const VK_F7: u16 = 0x76;
pub const VK_F8: u16 = 0x77;
pub const VK_F9: u16 = 0x78;
pub const VK_F10: u16 = 0x79;
pub const VK_F11: u16 = 0x7A;
pub const VK_F12: u16 = 0x7B;

/// The code of a symbolic key name, already in lower case, if it is one.
pub open spec fn named_key_code(s: Seq<char>) -> Option<u16> {
    if s == seq!['s', 'p', 'a', 'c', 'e'] || s == seq!['s', 'p', 'a', 'c', 'e', 'b', 'a', 'r'] {
        Some(VK_SPACE)
    } else if s == seq!['e', 'n', 't', 'e', 'r'] || s == seq!['r', 'e', 't', 'u', 'r', 'n'] {
        Some(VK_RETURN)
    } else if s == seq!['t', 'a', 'b'] {
        Some(VK_TAB)
    } else if s == seq!['e', 's', 'c', 'a', 'p', 'e'] || s == seq!['e', 's', 'c'] {
        Some(VK_ESCAPE)
    } else if s == seq!['s', 'h', 'i', 'f', 't'] {
        Some(VK_SHIFT)
    } else if s == seq!['c', 'o', 'n', 't', 'r', 'o', 'l'] || s == seq!['c', 't', 'r', 'l'] {
        Some(VK_CONTROL)
    } else if s == seq!['a', 'l', 't'] {
        Some(VK_MENU)
    } else if s == seq!['b', 'a', 'c', 'k', 's', 'p', 'a', 'c', 'e'] {
        Some(VK_BACK)
    } else if s == seq!['d', 'e', 'l', 'e', 't', 'e'] || s == seq!['d', 'e', 'l'] {
        Some(VK_DELETE)
    } else if s == seq!['f', '1'] {
        Some(VK_F1)
    } else if s == seq!['f', '2'] {
        Some(VK_F2)
    } else if s == seq!['f', '3'] {
        Some(VK_F3)
    } else if s == seq!['f', '4'] {
        Some(VK_F4)
    } else if s == seq!['f', '5'] {
        Some(VK_F5)
    } else if s == seq!['f', '6'] {
        Some(VK_F6)
    } else if s == seq!['f', '7'] {
        Some(VK_F7)
    } else if s == seq!['f', '8'] {
        Some(VK_F8)
    } else if s == seq!['f', '9'] {
        Some(VK_F9)
    } else if s == seq!['f', '1', '0'] {
        Some(VK_F10)
    } else if s == seq!['f', '1', '1'] {
        Some(VK_F11)
    } else if s == seq!['f', '1', '2'] {
        Some(VK_F12)
    } else {
        None
    }
}

/// The code of a single character: its ASCII upper case, cut to 16 bits.
pub open spec fn char_key_code(c: char) -> u16 {
    let u: u32 = if 'a' <= c && c <= 'z' {
        (c as u32 - 32) as u32
    } else {
        c as u32
    };
    (u % 65536) as u16
}

/// The code that a lower-cased key name resolves to: a symbolic name, else
/// its first character, else the space key.
pub open spec fn key_code_spec(s: Seq<char>) -> u16 {
    match named_key_code(s) {
        Some(code) => code,
        None => if s.len() == 0 {
            VK_SPACE
        } else {
            char_key_code(s[0])
        },
    }
}

/// What `str::to_lowercase` returns for a string.
pub uninterp spec fn lower_of(s: Seq<char>) -> Seq<char>;

/// Relies on str::to_lowercase: the lower-case form of the text, which
/// depends on its characters alone.
#[verifier::external_body]
fn lowercase(s: &str) -> (r: String)
    ensures
        r@ == lower_of(s@),
        s@.len() == 0 ==> r@.len() == 0,
{
    s.to_lowercase()
}

/// Whether two texts hold the same characters.
pub(crate) fn text_eq(a: &str, b: &str) -> (r: bool)
    ensures
        r == (a@ == b@),
{
    a.to_owned() == b.to_owned()
}

fn named_key(s: &str) -> (r: Option<u16>)
    ensures
        r == named_key_code(s@),
{
    proof {
        reveal_strlit("alt");
        assert("alt"@ =~= seq!['a', 'l', 't']);
        reveal_strlit("backspace");
        assert("backspace"@ =~= seq!['b', 'a', 'c', 'k', 's', 'p', 'a', 'c', 'e']);
        reveal_strlit("control");
        assert("control"@ =~= seq!['c', 'o', 'n', 't', 'r', 'o', 'l']);
        reveal_strlit("ctrl");
        assert("ctrl"@ =~= seq!['c', 't', 'r', 'l']);
        reveal_strlit("del");
        assert("del"@ =~= seq!['d', 'e', 'l']);
        reveal_strlit("delete");
        assert("delete"@ =~= seq!['d', 'e', 'l', 'e', 't', 'e']);
        reveal_strlit("enter");
        assert("enter"@ =~= seq!['e', 'n', 't', 'e', 'r']);
        reveal_strlit("esc");
        assert("esc"@ =~= seq!['e', 's', 'c']);
        reveal_strlit("escape");
        assert("escape"@ =~= seq!['e', 's', 'c', 'a', 'p', 'e']);
        reveal_strlit("f1");
        assert("f1"@ =~= seq!['f', '1']);
        reveal_strlit("f10");
        assert("f10"@ =~= seq!['f', '1', '0']);
        reveal_strlit("f11");
        assert("f11"@ =~= seq!['f', '1', '1']);
        reveal_strlit("f12");
        assert("f12"@ =~= seq!['f', '1', '2']);
        reveal_strlit("f2");
        assert("f2"@ =~= seq!['f', '2']);
        reveal_strlit("f3");
        assert("f3"@ =~= seq!['f', '3']);
        reveal_strlit("f4");
        assert("f4"@ =~= seq!['f', '4']);
        reveal_strlit("f5");
        assert("f5"@ =~= seq!['f', '5']);
        reveal_strlit("f6");
        assert("f6"@ =~= seq!['f', '6']);
        reveal_strlit("f7");
        assert("f7"@ =~= seq!['f', '7']);
        reveal_strlit("f8");
        assert("f8"@ =~= seq!['f', '8']);
        reveal_strlit("f9");
        assert("f9"@ =~= seq!['f', '9']);
        reveal_strlit("return");
        assert("return"@ =~= seq!['r', 'e', 't', 'u', 'r', 'n']);
        reveal_strlit("shift");
        assert("shift"@ =~= seq!['s', 'h', 'i', 'f', 't']);
        reveal_strlit("space");
        assert("space"@ =~= seq!['s', 'p', 'a', 'c', 'e']);
        reveal_strlit("spacebar");
        assert("spacebar"@ =~= seq!['s', 'p', 'a', 'c', 'e', 'b', 'a', 'r']);
        reveal_strlit("tab");
        assert("tab"@ =~= seq!['t', 'a', 'b']);
    }
    if text_eq(s, "space") || text_eq(s, "spacebar") {
        Some(VK_SPACE)
    } else if text_eq(s, "enter") || text_eq(s, "return") {
        Some(VK_RETURN)
    } else if text_eq(s, "tab") {
        Some(VK_TAB)
    } else if text_eq(s, "escape") || text_eq(s, "esc") {
        Some(VK_ESCAPE)
    } else if text_eq(s, "shift") {
        Some(VK_SHIFT)
    } else if text_eq(s, "control") || text_eq(s, "ctrl") {
        Some(VK_CONTROL)
    } else if text_eq(s, "alt") {
        Some(VK_MENU)
    } else if text_eq(s, "backspace") {
        Some(VK_BACK)
    } else if text_eq(s, "delete") || text_eq(s, "del") {
        Some(VK_DELETE)
    } else if text_eq(s, "f1") {
        Some(VK_F1)
    } else if text_eq(s, "f2") {
        Some(VK_F2)
    } else if text_eq(s, "f3") {
        Some(VK_F3)
    } else if text_eq(s, "f4") {
        Some(VK_F4)
    } else if text_eq(s, "f5") {
        Some(VK_F5)
    } else if text_eq(s, "f6") {
        Some(VK_F6)
    } else if text_eq(s, "f7") {
        Some(VK_F7)
    } else if text_eq(s, "f8") {
        Some(VK_F8)
    } else if text_eq(s, "f9") {
        Some(VK_F9)
    } else if text_eq(s, "f10") {
        Some(VK_F10)
    } else if text_eq(s, "f11") {
        Some(VK_F11)
    } else if text_eq(s, "f12") {
        Some(VK_F12)
    } else {
        None
    }
}

fn char_code(c: char) -> (r: u16)
    ensures
        r == char_key_code(c),
{
    let u: u32 = if 'a' <= c && c <= 'z' {
        c as u32 - 32
    } else {
        c as u32
    };
    (u % 65536) as u16
}

/// Resolves a key name that is already in lower case.
pub fn resolve_lowered(lower: &str) -> (r: VIRTUAL_KEY)
    ensures
        r.0 == key_code_spec(lower@),
{
    match named_key(lower) {
        Some(code) => VIRTUAL_KEY(code),
        None => {
            let mut chars = lower.chars();
            match chars.next() {
                Some(c) => VIRTUAL_KEY(char_code(c)),
                None => VIRTUAL_KEY(VK_SPACE),
            }
        },
    }
}

/// Resolves a symbolic key name, in any case, or a single character to its
/// key code.
pub fn resolve_vk(name: &str) -> (r: VIRTUAL_KEY)
    ensures
        r.0 == key_code_spec(lower_of(name@)),
{
    let lower = lowercase(name);
    resolve_lowered(lower.as_str())
}

} // verus!
