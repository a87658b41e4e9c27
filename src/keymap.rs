use vstd::prelude::*;

verus! {

/// The native (macOS virtual) keycode for an X11 keycode.
///
/// Letters, digits, Return, Escape, Space, Tab and Backspace are mapped;
/// every other keycode passes through unchanged.
pub open spec fn macos_keycode(keycode: u32) -> u32 {
    if 38 <= keycode <= 61 {
        (keycode - 38) as u32
    } else if 10 <= keycode <= 19 {
        if keycode == 19 {
            29
        } else {
            (keycode - 10 + 18) as u32
        }
    } else if keycode == 9 {
        53
    } else if keycode == 65 {
        49
    } else if keycode == 23 {
        48
    } else if keycode == 22 {
        51
    } else {
        keycode
    }
}

/// Translate an X11 keycode into a macOS virtual keycode. Total: every
/// keycode has an image, and keycodes outside the table map to themselves.
pub fn convert_keycode_to_macos(keycode: u32) -> (r: u32)
    ensures
        r == macos_keycode(keycode),
        38 <= keycode <= 61 ==> r == keycode - 38,
        10 <= keycode <= 18 ==> r == keycode - 10 + 18,
        keycode == 19 ==> r == 29,
        keycode == 36 ==> r == 36,
{
    match keycode {
        38..=61 => keycode - 38,
        10..=19 => {
            if keycode == 19 {
                29
            } else {
                keycode - 10 + 18
            }
        },
        36 => 36,
        9 => 53,
        65 => 49,
        23 => 48,
        22 => 51,
        _ => keycode,
    }
}

} // verus!
