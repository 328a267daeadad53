//! Key input in GPUI's terms: what was pressed, with which modifiers.

use vstd::prelude::*;

verus! {

/// The state of the modifier keys at some point in time.
#[derive(Clone, Copy, Debug, PartialEq, Eq, Structural)]
pub struct Modifiers {
    pub control: bool,
    pub alt: bool,
    pub shift: bool,
    /// The command key.
    pub platform: bool,
    pub function: bool,
}

/// A key with the modifiers held while it was pressed.
#[derive(Debug, PartialEq, Eq)]
pub struct Keystroke {
    pub modifiers: Modifiers,
    /// The name of the key.
    pub key: String,
    /// The text the key types, for keys that type any.
    pub key_char: Option<String>,
}

#[derive(Debug, PartialEq, Eq)]
pub struct KeyDownEvent {
    pub keystroke: Keystroke,
    pub is_held: bool,
    pub prefer_character_input: bool,
}

#[derive(Debug, PartialEq, Eq)]
pub struct KeyUpEvent {
    pub keystroke: Keystroke,
}

/// The key events a platform delivers to GPUI.
#[derive(Debug, PartialEq, Eq)]
pub enum PlatformInput {
    KeyDown(KeyDownEvent),
    KeyUp(KeyUpEvent),
}

/// The content of a [`Keystroke`].
pub ghost struct KeystrokeView {
    pub modifiers: Modifiers,
    pub key: Seq<char>,
    pub key_char: Option<Seq<char>>,
}

/// The content of a [`PlatformInput`].
pub ghost enum PlatformInputView {
    KeyDown { keystroke: KeystrokeView, is_held: bool, prefer_character_input: bool },
    KeyUp { keystroke: KeystrokeView },
}

impl View for Keystroke {
    type V = KeystrokeView;

    open spec fn view(&self) -> KeystrokeView {
        KeystrokeView {
            modifiers: self.modifiers,
            key: self.key@,
            key_char: match self.key_char {
                Some(text) => Some(text@),
                None => None,
            },
        }
    }
}

impl View for PlatformInput {
    type V = PlatformInputView;

    open spec fn view(&self) -> PlatformInputView {
        match *self {
            PlatformInput::KeyDown(event) => PlatformInputView::KeyDown {
                keystroke: event.keystroke@,
                is_held: event.is_held,
                prefer_character_input: event.prefer_character_input,
            },
            PlatformInput::KeyUp(event) => PlatformInputView::KeyUp { keystroke: event.keystroke@ },
        }
    }
}

impl Modifiers {
    /// No modifier held.
    pub open spec fn released() -> Modifiers {
        Modifiers { control: false, alt: false, shift: false, platform: false, function: false }
    }
}

impl Default for Modifiers {
    fn default() -> (modifiers: Modifiers)
        ensures
            modifiers == Modifiers::released(),
    {
        Modifiers { control: false, alt: false, shift: false, platform: false, function: false }
    }
}

/// What contracts see of a keystroke is all of it.
pub proof fn a_keystroke_is_seen_whole(keystroke: Keystroke)
    ensures
        keystroke@.modifiers == keystroke.modifiers,
        keystroke@.key == keystroke.key@,
        keystroke@.key_char is Some <==> keystroke.key_char is Some,
        keystroke.key_char matches Some(text) ==> keystroke@.key_char == Some(text@),
{
}

/// What contracts see of a key event is all of it.
pub proof fn a_key_event_is_seen_whole(input: PlatformInput)
    ensures
        input matches PlatformInput::KeyDown(event) ==> (input@ matches PlatformInputView::KeyDown {
            keystroke,
            is_held,
            prefer_character_input,
        } && keystroke == event.keystroke@ && is_held == event.is_held && prefer_character_input
            == event.prefer_character_input),
        input matches PlatformInput::KeyUp(event) ==> (input@ matches PlatformInputView::KeyUp {
            keystroke,
        } && keystroke == event.keystroke@),
{
}

} // verus!
