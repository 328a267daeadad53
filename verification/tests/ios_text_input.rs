use gpui_mobile_core::input::{KeyDownEvent, KeyUpEvent, Keystroke, Modifiers, PlatformInput};
use gpui_mobile_core::ios::text_input::{
    key_code_to_key_down, key_code_to_key_up, key_code_to_string, modifier_flags_to_modifiers,
};
use std::collections::HashSet;

#[test]
fn letters_and_digits() {
    for (index, letter) in ('a'..='z').enumerate() {
        assert_eq!(key_code_to_string(0x04 + index as u32), letter.to_string());
    }
    for (index, digit) in "1234567890".chars().enumerate() {
        assert_eq!(key_code_to_string(0x1E + index as u32), digit.to_string());
    }
}

#[test]
fn named_keys() {
    for (code, name) in [
        (0x28, "enter"),
        (0x29, "escape"),
        (0x2A, "backspace"),
        (0x2B, "tab"),
        (0x2C, " "),
        (0x2D, "-"),
        (0x2E, "="),
        (0x2F, "["),
        (0x30, "]"),
        (0x31, "\\"),
        (0x33, ";"),
        (0x34, "'"),
        (0x35, "`"),
        (0x36, ","),
        (0x37, "."),
        (0x38, "/"),
        (0x3A, "f1"),
        (0x43, "f10"),
        (0x44, "f11"),
        (0x45, "f12"),
        (0x49, "insert"),
        (0x4A, "home"),
        (0x4B, "pageup"),
        (0x4C, "delete"),
        (0x4D, "end"),
        (0x4E, "pagedown"),
        (0x4F, "right"),
        (0x50, "left"),
        (0x51, "down"),
        (0x52, "up"),
    ] {
        assert_eq!(key_code_to_string(code), name);
    }
    for number in 1..=12u32 {
        assert_eq!(key_code_to_string(0x39 + number), format!("f{number}"));
    }
}

#[test]
fn codes_without_a_key_are_named_after_their_number() {
    for code in [0x00, 0x03, 0x32, 0x39, 0x46, 0x48, 0x53, 0xff, 0x100, 0xabcdef, u32::MAX] {
        assert_eq!(key_code_to_string(code), format!("unknown-{:02x}", code));
    }
}

#[test]
fn no_two_codes_share_a_name() {
    let names: HashSet<String> = (0..2_000).map(key_code_to_string).collect();
    assert_eq!(names.len(), 2_000);
}

#[test]
fn modifiers_follow_their_flags() {
    let none = Modifiers::default();
    assert_eq!(modifier_flags_to_modifiers(0), none);
    assert_eq!(modifier_flags_to_modifiers(1 << 16), none);
    assert_eq!(modifier_flags_to_modifiers(1 << 21), none);
    assert_eq!(modifier_flags_to_modifiers(1 << 17), Modifiers { shift: true, ..none });
    assert_eq!(modifier_flags_to_modifiers(1 << 18), Modifiers { control: true, ..none });
    assert_eq!(modifier_flags_to_modifiers(1 << 19), Modifiers { alt: true, ..none });
    assert_eq!(modifier_flags_to_modifiers(1 << 20), Modifiers { platform: true, ..none });
    assert_eq!(
        modifier_flags_to_modifiers(u32::MAX),
        Modifiers { control: true, alt: true, shift: true, platform: true, function: false }
    );
}

#[test]
fn a_letter_types_itself() {
    assert_eq!(
        key_code_to_key_down(0x04, 1 << 20),
        PlatformInput::KeyDown(KeyDownEvent {
            keystroke: Keystroke {
                modifiers: Modifiers { platform: true, ..Modifiers::default() },
                key: "a".to_string(),
                key_char: Some("a".to_string()),
            },
            is_held: false,
            prefer_character_input: false,
        })
    );
}

#[test]
fn a_named_key_types_nothing() {
    assert_eq!(
        key_code_to_key_up(0x28, 0),
        PlatformInput::KeyUp(KeyUpEvent {
            keystroke: Keystroke {
                modifiers: Modifiers::default(),
                key: "enter".to_string(),
                key_char: None,
            },
        })
    );
}
