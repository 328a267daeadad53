//! iOS text input handling.
//!
//! The window uses a native text view as its composition buffer so UIKit
//! supplies the full text input protocol. What is left here are hardware keys,
//! which arrive as key codes and modifier flags.

use crate::input::{
    KeyDownEvent, KeyUpEvent, Keystroke, KeystrokeView, Modifiers, PlatformInput,
    PlatformInputView,
};
use vstd::prelude::*;

verus! {

/// The keys of the letter block, from the first letter's code on.
pub const LETTERS: &'static str = "abcdefghijklmnopqrstuvwxyz";

/// The keys of the digit row, from the first digit's code on.
pub const DIGITS: &'static str = "1234567890";

pub const HEX_DIGITS: &'static str = "0123456789abcdef";

/// Caps lock in `UIKeyModifierFlags`.
pub const ALPHA_SHIFT: u32 = 0x1_0000;

/// Shift in `UIKeyModifierFlags`.
pub const SHIFT: u32 = 0x2_0000;

/// Control in `UIKeyModifierFlags`.
pub const CONTROL: u32 = 0x4_0000;

/// Option in `UIKeyModifierFlags`.
pub const ALT: u32 = 0x8_0000;

/// Command in `UIKeyModifierFlags`.
pub const COMMAND: u32 = 0x10_0000;

/// A key of the numeric pad in `UIKeyModifierFlags`.
pub const NUMERIC_PAD: u32 = 0x20_0000;

/// A number in hexadecimal, without leading zeros.
pub open spec fn hex(n: nat) -> Seq<char>
    decreases n,
{
    if n < 16 {
        seq![HEX_DIGITS@[n as int]]
    } else {
        hex(n / 16).push(HEX_DIGITS@[(n % 16) as int])
    }
}

/// The names of the keys that are neither letters nor digits.
pub open spec fn special_key_name(code: u32) -> Option<Seq<char>> {
    match code {
        0x28 => Some("enter"@),
        0x29 => Some("escape"@),
        0x2A => Some("backspace"@),
        0x2B => Some("tab"@),
        0x2C => Some(" "@),
        0x2D => Some("-"@),
        0x2E => Some("="@),
        0x2F => Some("["@),
        0x30 => Some("]"@),
        0x31 => Some("\\"@),
        0x33 => Some(";"@),
        0x34 => Some("'"@),
        0x35 => Some("`"@),
        0x36 => Some(","@),
        0x37 => Some("."@),
        0x38 => Some("/"@),
        0x3A => Some("f1"@),
        0x3B => Some("f2"@),
        0x3C => Some("f3"@),
        0x3D => Some("f4"@),
        0x3E => Some("f5"@),
        0x3F => Some("f6"@),
        0x40 => Some("f7"@),
        0x41 => Some("f8"@),
        0x42 => Some("f9"@),
        0x43 => Some("f10"@),
        0x44 => Some("f11"@),
        0x45 => Some("f12"@),
        0x49 => Some("insert"@),
        0x4A => Some("home"@),
        0x4B => Some("pageup"@),
        0x4C => Some("delete"@),
        0x4D => Some("end"@),
        0x4E => Some("pagedown"@),
        0x4F => Some("right"@),
        0x50 => Some("left"@),
        0x51 => Some("down"@),
        0x52 => Some("up"@),
        _ => None,
    }
}

/// The name of a key. Codes are those of the USB HID keyboard page; one
/// without a key is named after its number, in at least two hexadecimal
/// digits.
pub open spec fn key_name(code: u32) -> Seq<char> {
    if 0x04 <= code <= 0x1D {
        seq![LETTERS@[code - 0x04]]
    } else if 0x1E <= code <= 0x27 {
        seq![DIGITS@[code - 0x1E]]
    } else {
        match special_key_name(code) {
            Some(name) => name,
            None => if code < 16 {
                "unknown-0"@ + hex(code as nat)
            } else {
                "unknown-"@ + hex(code as nat)
            },
        }
    }
}

/// The modifiers that `flags` report held.
pub open spec fn held_modifiers(flags: u32) -> Modifiers {
    Modifiers {
        control: flags & CONTROL != 0,
        alt: flags & ALT != 0,
        shift: flags & SHIFT != 0,
        platform: flags & COMMAND != 0,
        function: false,
    }
}

/// A key with its modifiers; keys named by a single character type it.
pub open spec fn keystroke_of(key_code: u32, modifier_flags: u32) -> KeystrokeView {
    KeystrokeView {
        modifiers: held_modifiers(modifier_flags),
        key: key_name(key_code),
        key_char: if key_name(key_code).len() == 1 {
            Some(key_name(key_code))
        } else {
            None
        },
    }
}

/// One character of `table`.
fn character(table: &str, index: usize) -> (text: String)
    requires
        index < table@.len(),
        index < usize::MAX,
    ensures
        text@ == seq![table@[index as int]],
{
    let text = table.substring_char(index, index + 1).to_owned();
    assert(text@ == seq![table@[index as int]]);
    text
}

/// Appends a number in hexadecimal.
fn append_hex(text: &mut String, n: u32)
    ensures
        final(text)@ == old(text)@ + hex(n as nat),
    decreases n,
{
    proof {
        reveal_strlit("0123456789abcdef");
    }
    if n >= 16 {
        append_hex(text, n / 16);
    }
    let digit = character(HEX_DIGITS, (n % 16) as usize);
    text.append(digit.as_str());
}

fn special_key(code: u32) -> (name: Option<&'static str>)
    ensures
        match name {
            Some(name) => special_key_name(code) == Some(name@),
            None => special_key_name(code) is None,
        },
{
    match code {
        0x28 => Some("enter"),
        0x29 => Some("escape"),
        0x2A => Some("backspace"),
        0x2B => Some("tab"),
        0x2C => Some(" "),
        0x2D => Some("-"),
        0x2E => Some("="),
        0x2F => Some("["),
        0x30 => Some("]"),
        0x31 => Some("\\"),
        0x33 => Some(";"),
        0x34 => Some("'"),
        0x35 => Some("`"),
        0x36 => Some(","),
        0x37 => Some("."),
        0x38 => Some("/"),
        0x3A => Some("f1"),
        0x3B => Some("f2"),
        0x3C => Some("f3"),
        0x3D => Some("f4"),
        0x3E => Some("f5"),
        0x3F => Some("f6"),
        0x40 => Some("f7"),
        0x41 => Some("f8"),
        0x42 => Some("f9"),
        0x43 => Some("f10"),
        0x44 => Some("f11"),
        0x45 => Some("f12"),
        0x49 => Some("insert"),
        0x4A => Some("home"),
        0x4B => Some("pageup"),
        0x4C => Some("delete"),
        0x4D => Some("end"),
        0x4E => Some("pagedown"),
        0x4F => Some("right"),
        0x50 => Some("left"),
        0x51 => Some("down"),
        0x52 => Some("up"),
        _ => None,
    }
}

/// Converts a key code from `UIKeyboardHIDUsage` to a GPUI key string.
pub fn key_code_to_string(code: u32) -> (name: String)
    ensures
        name@ == key_name(code),
{
    proof {
        reveal_strlit("abcdefghijklmnopqrstuvwxyz");
        reveal_strlit("1234567890");
    }
    if 0x04 <= code && code <= 0x1D {
        return character(LETTERS, (code - 0x04) as usize);
    }
    if 0x1E <= code && code <= 0x27 {
        return character(DIGITS, (code - 0x1E) as usize);
    }
    if let Some(name) = special_key(code) {
        return name.to_owned();
    }
    let mut name = if code < 16 {
        "unknown-0".to_owned()
    } else {
        "unknown-".to_owned()
    };
    append_hex(&mut name, code);
    name
}

/// Converts `UIKeyModifierFlags` to GPUI modifiers.
pub fn modifier_flags_to_modifiers(flags: u32) -> (modifiers: Modifiers)
    ensures
        modifiers == held_modifiers(flags),
{
    Modifiers {
        control: flags & CONTROL != 0,
        alt: flags & ALT != 0,
        shift: flags & SHIFT != 0,
        platform: flags & COMMAND != 0,
        function: false,
    }
}

fn keystroke(key_code: u32, modifier_flags: u32) -> (keystroke: Keystroke)
    ensures
        keystroke@ == keystroke_of(key_code, modifier_flags),
{
    let modifiers = modifier_flags_to_modifiers(modifier_flags);
    let key = key_code_to_string(key_code);
    let key_char = if key.as_str().unicode_len() == 1 {
        Some(key.clone())
    } else {
        None
    };
    Keystroke { modifiers, key, key_char }
}

/// Creates a key down event from a key code and modifiers.
pub fn key_code_to_key_down(key_code: u32, modifier_flags: u32) -> (input: PlatformInput)
    ensures
        input@ == (PlatformInputView::KeyDown {
            keystroke: keystroke_of(key_code, modifier_flags),
            is_held: false,
            prefer_character_input: false,
        }),
{
    PlatformInput::KeyDown(
        KeyDownEvent {
            keystroke: keystroke(key_code, modifier_flags),
            is_held: false,
            prefer_character_input: false,
        },
    )
}

/// Creates a key up event from a key code and modifiers.
pub fn key_code_to_key_up(key_code: u32, modifier_flags: u32) -> (input: PlatformInput)
    ensures
        input@ == (PlatformInputView::KeyUp {
            keystroke: keystroke_of(key_code, modifier_flags),
        }),
{
    PlatformInput::KeyUp(KeyUpEvent { keystroke: keystroke(key_code, modifier_flags) })
}

/// The length, the first and the last character of a special key's name: no
/// two of those names agree in all three.
spec fn special_marks(code: u32) -> (int, char, char) {
    match code {
        0x28 => (5, 'e', 'r'),
        0x29 => (6, 'e', 'e'),
        0x2A => (9, 'b', 'e'),
        0x2B => (3, 't', 'b'),
        0x2C => (1, ' ', ' '),
        0x2D => (1, '-', '-'),
        0x2E => (1, '=', '='),
        0x2F => (1, '[', '['),
        0x30 => (1, ']', ']'),
        0x31 => (1, '\\', '\\'),
        0x33 => (1, ';', ';'),
        0x34 => (1, '\'', '\''),
        0x35 => (1, '`', '`'),
        0x36 => (1, ',', ','),
        0x37 => (1, '.', '.'),
        0x38 => (1, '/', '/'),
        0x3A => (2, 'f', '1'),
        0x3B => (2, 'f', '2'),
        0x3C => (2, 'f', '3'),
        0x3D => (2, 'f', '4'),
        0x3E => (2, 'f', '5'),
        0x3F => (2, 'f', '6'),
        0x40 => (2, 'f', '7'),
        0x41 => (2, 'f', '8'),
        0x42 => (2, 'f', '9'),
        0x43 => (3, 'f', '0'),
        0x44 => (3, 'f', '1'),
        0x45 => (3, 'f', '2'),
        0x49 => (6, 'i', 't'),
        0x4A => (4, 'h', 'e'),
        0x4B => (6, 'p', 'p'),
        0x4C => (6, 'd', 'e'),
        0x4D => (3, 'e', 'd'),
        0x4E => (8, 'p', 'n'),
        0x4F => (5, 'r', 't'),
        0x50 => (4, 'l', 't'),
        0x51 => (4, 'd', 'n'),
        0x52 => (2, 'u', 'p'),
        _ => (0, ' ', ' '),
    }
}

proof fn special_names_have_their_marks(code: u32)
    requires
        special_key_name(code) is Some,
    ensures
        ({
            let name = special_key_name(code)->0;
            (name.len() as int, name[0], name.last()) == special_marks(code)
        }),
{
    reveal_strlit("enter");
    reveal_strlit("escape");
    reveal_strlit("backspace");
    reveal_strlit("tab");
    reveal_strlit(" ");
    reveal_strlit("-");
    reveal_strlit("=");
    reveal_strlit("[");
    reveal_strlit("]");
    reveal_strlit("\\");
    reveal_strlit(";");
    reveal_strlit("'");
    reveal_strlit("`");
    reveal_strlit(",");
    reveal_strlit(".");
    reveal_strlit("/");
    reveal_strlit("f1");
    reveal_strlit("f2");
    reveal_strlit("f3");
    reveal_strlit("f4");
    reveal_strlit("f5");
    reveal_strlit("f6");
    reveal_strlit("f7");
    reveal_strlit("f8");
    reveal_strlit("f9");
    reveal_strlit("f10");
    reveal_strlit("f11");
    reveal_strlit("f12");
    reveal_strlit("insert");
    reveal_strlit("home");
    reveal_strlit("pageup");
    reveal_strlit("delete");
    reveal_strlit("end");
    reveal_strlit("pagedown");
    reveal_strlit("right");
    reveal_strlit("left");
    reveal_strlit("down");
    reveal_strlit("up");
}

proof fn hex_is_injective(a: nat, b: nat)
    requires
        hex(a) == hex(b),
    ensures
        a == b,
    decreases a,
{
    reveal_strlit("0123456789abcdef");
    hex_is_not_empty(a);
    hex_is_not_empty(b);
    let last_a = HEX_DIGITS@[(a % 16) as int];
    let last_b = HEX_DIGITS@[(b % 16) as int];
    assert(hex(a).last() == last_a);
    assert(hex(b).last() == last_b);
    hex_digits_are_distinct((a % 16) as int, (b % 16) as int);
    if a >= 16 || b >= 16 {
        hex_is_not_empty(a / 16);
        hex_is_not_empty(b / 16);
        assert(a >= 16 && b >= 16) by {
            assert(hex(a).len() == hex(b).len());
        }
        assert(hex(a).drop_last() == hex(a / 16));
        assert(hex(b).drop_last() == hex(b / 16));
        hex_is_injective(a / 16, b / 16);
    }
}

proof fn hex_is_not_empty(n: nat)
    ensures
        hex(n).len() >= 1,
        n >= 16 ==> hex(n).len() >= 2,
    decreases n,
{
    if n >= 16 {
        hex_is_not_empty(n / 16);
    }
}

proof fn hex_digits_are_distinct(i: int, j: int)
    requires
        0 <= i < 16,
        0 <= j < 16,
        HEX_DIGITS@[i] == HEX_DIGITS@[j],
    ensures
        i == j,
{
    reveal_strlit("0123456789abcdef");
    assert(forall|k: int|
        0 <= k < 16 ==> #[trigger] HEX_DIGITS@[k] as int == if k < 10 {
            '0' as int + k
        } else {
            'a' as int + k - 10
        });
}

/// The letters and digits in their tables.
proof fn letters_and_digits_in_order()
    ensures
        forall|k: int| 0 <= k < 26 ==> #[trigger] LETTERS@[k] as int == 'a' as int + k,
        forall|k: int| 0 <= k < 9 ==> #[trigger] DIGITS@[k] as int == '1' as int + k,
        DIGITS@[9] == '0',
{
    reveal_strlit("abcdefghijklmnopqrstuvwxyz");
    reveal_strlit("1234567890");
}

/// A code without a key has a name that is longer than any key's.
proof fn unknown_names_are_long(code: u32)
    requires
        !(0x04 <= code <= 0x27),
        special_key_name(code) is None,
    ensures
        key_name(code).len() >= 10,
{
    reveal_strlit("unknown-0");
    reveal_strlit("unknown-");
    hex_is_not_empty(code as nat);
}

/// No two codes share a name.
pub proof fn key_names_are_distinct(a: u32, b: u32)
    requires
        key_name(a) == key_name(b),
    ensures
        a == b,
{
    letters_and_digits_in_order();
    let known_a = 0x04 <= a <= 0x27 || special_key_name(a) is Some;
    let known_b = 0x04 <= b <= 0x27 || special_key_name(b) is Some;
    if special_key_name(a) is Some {
        special_names_have_their_marks(a);
    }
    if special_key_name(b) is Some {
        special_names_have_their_marks(b);
    }
    if !known_a {
        unknown_names_are_long(a);
    }
    if !known_b {
        unknown_names_are_long(b);
    }
    if !known_a && !known_b {
        reveal_strlit("unknown-0");
        reveal_strlit("unknown-");
        hex_is_not_empty(a as nat);
        hex_is_not_empty(b as nat);
        let name = key_name(a);
        assert(a < 16 ==> hex(a as nat).len() == 1);
        assert(b < 16 ==> hex(b as nat).len() == 1);
        if a < 16 && b < 16 {
            assert(name.skip(9) == hex(a as nat));
            assert(name.skip(9) == hex(b as nat));
            hex_is_injective(a as nat, b as nat);
        } else if a >= 16 && b >= 16 {
            assert(name.skip(8) == hex(a as nat));
            assert(name.skip(8) == hex(b as nat));
            hex_is_injective(a as nat, b as nat);
        } else {
            let large = if a >= 16 {
                a
            } else {
                b
            };
            hex_does_not_start_with_zero(large as nat);
            assert(name[8] == '0');
            assert(name.skip(8) == hex(large as nat));
            assert(name.skip(8)[0] == name[8]);
        }
    } else if known_a && known_b {
        assert(key_name(a)[0] == key_name(b)[0]);
        assert(key_name(a).last() == key_name(b).last());
        if 0x04 <= a <= 0x27 {
            assert(key_name(a)[0] == if a <= 0x1D {
                LETTERS@[a - 0x04]
            } else {
                DIGITS@[a - 0x1E]
            });
        }
        if 0x04 <= b <= 0x27 {
            assert(key_name(b)[0] == if b <= 0x1D {
                LETTERS@[b - 0x04]
            } else {
                DIGITS@[b - 0x1E]
            });
        }
        if special_key_name(a) is Some && special_key_name(b) is Some {
            assert(special_marks(a) == special_marks(b));
        }
    }
}

proof fn hex_does_not_start_with_zero(n: nat)
    requires
        n > 0,
    ensures
        hex(n)[0] != '0',
    decreases n,
{
    reveal_strlit("0123456789abcdef");
    if n >= 16 {
        hex_does_not_start_with_zero(n / 16);
        hex_is_not_empty(n / 16);
    } else {
        if HEX_DIGITS@[n as int] == '0' {
            hex_digits_are_distinct(n as int, 0);
        }
    }
}

/// Caps lock, the numeric pad and everything else but the four modifiers that
/// GPUI knows leave no trace.
pub proof fn only_four_flags_matter(flags: u32, other: u32)
    requires
        flags & (SHIFT | CONTROL | ALT | COMMAND) == other & (SHIFT | CONTROL | ALT | COMMAND),
    ensures
        held_modifiers(flags) == held_modifiers(other),
        held_modifiers(flags | ALPHA_SHIFT | NUMERIC_PAD) == held_modifiers(flags),
{
    let mask = SHIFT | CONTROL | ALT | COMMAND;
    assert(mask == 0x1e_0000) by (bit_vector)
        requires
            mask == 0x2_0000u32 | 0x4_0000u32 | 0x8_0000u32 | 0x10_0000u32,
    ;
    assert({
        &&& (flags & 0x2_0000 != 0) == (other & 0x2_0000 != 0)
        &&& (flags & 0x4_0000 != 0) == (other & 0x4_0000 != 0)
        &&& (flags & 0x8_0000 != 0) == (other & 0x8_0000 != 0)
        &&& (flags & 0x10_0000 != 0) == (other & 0x10_0000 != 0)
    }) by (bit_vector)
        requires
            flags & 0x1e_0000 == other & 0x1e_0000,
    ;
    assert({
        let more = flags | 0x1_0000 | 0x20_0000;
        &&& (flags & 0x2_0000) == (more & 0x2_0000)
        &&& (flags & 0x4_0000) == (more & 0x4_0000)
        &&& (flags & 0x8_0000) == (more & 0x8_0000)
        &&& (flags & 0x10_0000) == (more & 0x10_0000)
    }) by (bit_vector);
}

/// Pressing and releasing a key name the same keystroke, and it types its own
/// name exactly when that is a single character.
pub proof fn a_key_types_its_single_character(key_code: u32, modifier_flags: u32)
    ensures
        ({
            let stroke = keystroke_of(key_code, modifier_flags);
            &&& stroke.key_char is Some <==> stroke.key.len() == 1
            &&& stroke.key_char matches Some(text) ==> text == stroke.key
            &&& 0x04 <= key_code <= 0x27 ==> stroke.key_char is Some
        }),
{
}

/// A keystroke has the modifiers that the flags report, whatever the key:
/// shift, control, option and command are held exactly when their bits, 17 to
/// 20, are set, and no flag reports the function key.
pub proof fn modifiers_are_those_of_the_flags(key_code: u32, modifier_flags: u32)
    ensures
        ({
            let held = keystroke_of(key_code, modifier_flags).modifiers;
            &&& held.shift <==> (modifier_flags / 0x2_0000) % 2 == 1
            &&& held.control <==> (modifier_flags / 0x4_0000) % 2 == 1
            &&& held.alt <==> (modifier_flags / 0x8_0000) % 2 == 1
            &&& held.platform <==> (modifier_flags / 0x10_0000) % 2 == 1
            &&& !held.function
            &&& held_modifiers(modifier_flags) == held
        }),
{
    assert({
        &&& (modifier_flags & 0x2_0000 != 0) == ((modifier_flags / 0x2_0000) % 2 == 1)
        &&& (modifier_flags & 0x4_0000 != 0) == ((modifier_flags / 0x4_0000) % 2 == 1)
        &&& (modifier_flags & 0x8_0000 != 0) == ((modifier_flags / 0x8_0000) % 2 == 1)
        &&& (modifier_flags & 0x10_0000 != 0) == ((modifier_flags / 0x10_0000) % 2 == 1)
    }) by (bit_vector);
}

/// A keystroke names its key whatever the modifiers, and two keystrokes of one
/// key differ in their modifiers at most.
pub proof fn modifiers_do_not_change_the_key(key_code: u32, flags: u32, other: u32)
    ensures
        keystroke_of(key_code, flags).key == key_name(key_code),
        keystroke_of(key_code, flags).key == keystroke_of(key_code, other).key,
        keystroke_of(key_code, flags).key_char == keystroke_of(key_code, other).key_char,
{
}

/// Letters are named in the order of the alphabet, and digits in the order of
/// the row, where zero comes last.
pub proof fn letters_and_digits_are_named_in_order(code: u32)
    ensures
        0x04 <= code <= 0x1D ==> key_name(code).len() == 1 && key_name(code)[0] as int
            == 'a' as int + (code - 0x04),
        0x1E <= code <= 0x26 ==> key_name(code).len() == 1 && key_name(code)[0] as int
            == '1' as int + (code - 0x1E),
        code == 0x27 ==> key_name(code) == seq!['0'],
{
    letters_and_digits_in_order();
}

/// The value of a hexadecimal digit; digits above nine are small letters.
pub open spec fn digit_value(digit: char) -> Option<int> {
    if '0' <= digit <= '9' {
        Some(digit as int - '0' as int)
    } else if 'a' <= digit <= 'f' {
        Some(digit as int - 'a' as int + 10)
    } else {
        None
    }
}

/// The number that a row of hexadecimal digits stands for.
pub open spec fn hex_value(digits: Seq<char>) -> Option<int>
    decreases digits.len(),
{
    if digits.len() == 0 {
        Some(0)
    } else {
        match (hex_value(digits.drop_last()), digit_value(digits.last())) {
            (Some(high), Some(low)) => Some(16 * high + low),
            _ => None,
        }
    }
}

/// A code without a key is named after its number: behind the prefix stand its
/// hexadecimal digits, at least two of them, and zeros in front only to make
/// them two.
pub proof fn unknown_keys_are_named_by_their_number(code: u32)
    requires
        code < 0x04 || code == 0x32 || code == 0x39 || 0x46 <= code <= 0x48 || code > 0x52,
    ensures
        ({
            let name = key_name(code);
            &&& name.len() >= 10
            &&& name.take(8) == "unknown-"@
            &&& hex_value(name.skip(8)) == Some(code as int)
            &&& name.len() > 10 ==> name[8] != '0'
        }),
{
    reveal_strlit("unknown-0");
    reveal_strlit("unknown-");
    let name = key_name(code);
    let digits = hex(code as nat);
    hex_reads_back(code as nat);
    hex_is_not_empty(code as nat);
    assert(special_key_name(code) is None);
    if code < 16 {
        assert(digits.len() == 1);
        let padded = name.skip(8);
        assert(padded == seq!['0'] + digits);
        assert(padded.drop_last() == seq!['0']);
        assert(padded.last() == digits.last());
        assert(digits.drop_last().len() == 0);
        assert(seq!['0'].drop_last().len() == 0);
        assert(hex_value(digits.drop_last()) == Some(0int));
        assert(hex_value(seq!['0'].drop_last()) == Some(0int));
        assert(seq!['0'].last() == '0');
        assert(hex_value(seq!['0']) == Some(0int));
        assert(name.take(8) == "unknown-"@);
    } else {
        hex_does_not_start_with_zero(code as nat);
        assert(name.skip(8) == digits);
        assert(name[8] == digits[0]);
        assert(name.take(8) == "unknown-"@);
    }
}

proof fn hex_reads_back(n: nat)
    ensures
        hex_value(hex(n)) == Some(n as int),
    decreases n,
{
    reveal_strlit("0123456789abcdef");
    let low = (n % 16) as int;
    assert(HEX_DIGITS@[low] as int == if low < 10 {
        '0' as int + low
    } else {
        'a' as int + low - 10
    });
    assert(digit_value(HEX_DIGITS@[low]) == Some(low));
    if n >= 16 {
        hex_reads_back(n / 16);
        assert(hex(n).drop_last() == hex(n / 16));
        assert(hex(n).last() == HEX_DIGITS@[low]);
    } else {
        assert(hex(n).drop_last().len() == 0);
        assert(hex_value(hex(n).drop_last()) == Some(0int));
        assert(hex(n).last() == HEX_DIGITS@[low]);
    }
}

} // verus!
