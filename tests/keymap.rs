use neko_agent::keymap::convert_keycode_to_macos;

#[test]
fn letters_are_offset() {
    assert_eq!(convert_keycode_to_macos(38), 0);
    assert_eq!(convert_keycode_to_macos(50), 12);
    assert_eq!(convert_keycode_to_macos(61), 23);
}

#[test]
fn digits_map_to_number_row() {
    assert_eq!(convert_keycode_to_macos(10), 18);
    assert_eq!(convert_keycode_to_macos(14), 22);
    assert_eq!(convert_keycode_to_macos(18), 26);
    assert_eq!(convert_keycode_to_macos(19), 29);
}

#[test]
fn named_keys() {
    assert_eq!(convert_keycode_to_macos(36), 36);
    assert_eq!(convert_keycode_to_macos(9), 53);
    assert_eq!(convert_keycode_to_macos(65), 49);
    assert_eq!(convert_keycode_to_macos(23), 48);
    assert_eq!(convert_keycode_to_macos(22), 51);
}

#[test]
fn unknown_keycodes_pass_through() {
    assert_eq!(convert_keycode_to_macos(0), 0);
    assert_eq!(convert_keycode_to_macos(37), 37);
    assert_eq!(convert_keycode_to_macos(62), 62);
    assert_eq!(convert_keycode_to_macos(1000), 1000);
    assert_eq!(convert_keycode_to_macos(u32::MAX), u32::MAX);
}

#[test]
fn translation_is_deterministic() {
    for k in 0u32..200 {
        assert_eq!(convert_keycode_to_macos(k), convert_keycode_to_macos(k));
    }
}
