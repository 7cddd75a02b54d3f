use auto_input::keys::{
    resolve_lowered, resolve_vk, VIRTUAL_KEY, VK_CONTROL, VK_DELETE, VK_ESCAPE, VK_F1, VK_F12,
    VK_MENU, VK_RETURN, VK_SPACE, VK_TAB,
};

#[test]
fn named_keys_resolve_in_any_case() {
    assert_eq!(resolve_vk("Enter"), VIRTUAL_KEY(VK_RETURN));
    assert_eq!(resolve_vk("return"), VIRTUAL_KEY(VK_RETURN));
    assert_eq!(resolve_vk("ESC"), VIRTUAL_KEY(VK_ESCAPE));
    assert_eq!(resolve_vk("Escape"), VIRTUAL_KEY(VK_ESCAPE));
    assert_eq!(resolve_vk("TAB"), VIRTUAL_KEY(VK_TAB));
    assert_eq!(resolve_vk("Ctrl"), VIRTUAL_KEY(VK_CONTROL));
    assert_eq!(resolve_vk("alt"), VIRTUAL_KEY(VK_MENU));
    assert_eq!(resolve_vk("Del"), VIRTUAL_KEY(VK_DELETE));
    assert_eq!(resolve_vk("F1"), VIRTUAL_KEY(VK_F1));
    assert_eq!(resolve_vk("f12"), VIRTUAL_KEY(VK_F12));
    assert_eq!(resolve_vk("SpaceBar"), VIRTUAL_KEY(VK_SPACE));
}

#[test]
fn key_resolution_is_deterministic() {
    assert_eq!(resolve_vk("Enter"), resolve_vk("Enter"));
    assert_eq!(resolve_vk("ENTER"), resolve_vk("enter"));
}

#[test]
fn single_character_resolves_to_upper_case_code() {
    assert_eq!(resolve_vk("e"), VIRTUAL_KEY(b'E' as u16));
    assert_eq!(resolve_vk("E"), VIRTUAL_KEY(b'E' as u16));
    assert_eq!(resolve_vk("7"), VIRTUAL_KEY(b'7' as u16));
}

#[test]
fn unknown_name_resolves_by_first_character() {
    assert_eq!(resolve_vk("xyz"), VIRTUAL_KEY(b'X' as u16));
}

#[test]
fn empty_key_resolves_to_space() {
    assert_eq!(resolve_vk(""), VIRTUAL_KEY(VK_SPACE));
    assert_eq!(resolve_lowered(""), VIRTUAL_KEY(VK_SPACE));
}

#[test]
fn lowered_names_resolve_exactly() {
    assert_eq!(resolve_lowered("enter"), VIRTUAL_KEY(VK_RETURN));
    assert_eq!(resolve_lowered("esc"), VIRTUAL_KEY(VK_ESCAPE));
    assert_eq!(resolve_lowered("e"), VIRTUAL_KEY(b'E' as u16));
    assert_eq!(resolve_lowered("Enter"), VIRTUAL_KEY(b'E' as u16));
}
