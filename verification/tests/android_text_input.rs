use gpui_mobile_core::android::text_input::{
    apply, deletion, deletion_range, drain, enqueue, finish_composition, forward_legacy_text,
    new_session, restore_handler, take_handler, ImeAction, ImeEvent, ImeState, LegacyText,
};
use gpui_mobile_core::input::{KeyDownEvent, Keystroke, Modifiers, PlatformInput};
use gpui_mobile_core::utf16::{boundaries, len_utf16};

fn event(session: u64, kind: i32, text: &str, start: usize, end: usize) -> ImeEvent {
    ImeEvent {
        session,
        kind,
        text: text.to_string(),
        start,
        end,
    }
}

/// Hands legacy text to the callback.
fn dispatch(legacy: LegacyText, received: &mut Vec<String>) {
    for _ in 0..legacy.times {
        received.push(legacy.text.clone());
    }
}

#[test]
fn legacy_inputs_receive_commits_and_backspace_sentinels() {
    let mut received = Vec::new();
    for (kind, text, before) in [(0, "ni", 0), (1, "你", 0), (2, "", 1), (3, "", 2)] {
        dispatch(forward_legacy_text(kind, text, before), &mut received);
    }
    assert_eq!(received, vec!["你", "\x08", "\x08", "\x08"]);
}

#[test]
fn deletion_preserves_surrogate_pairs() {
    assert_eq!(deletion_range("你😀好", 3..3, 1, 0, false), 1..3);
    assert_eq!(deletion_range("你😀好", 1..1, 0, 1, false), 1..3);
    assert_eq!(deletion_range("你😀好", 3..3, 2, 0, true), 0..3);
    assert_eq!(deletion_range("你😀好", 1..1, 0, 2, true), 1..4);
    assert_eq!(deletion_range("你😀好", 0..0, 99, 99, true), 0..4);
}

#[test]
fn deletion_stays_within_the_text() {
    assert_eq!(deletion_range("", 0..0, 5, 5, false), 0..0);
    assert_eq!(deletion_range("", 0..0, 5, 5, true), 0..0);
    assert_eq!(deletion_range("ab", 1..2, usize::MAX, usize::MAX, false), 0..2);
    assert_eq!(deletion_range("ab", 1..2, usize::MAX, usize::MAX, true), 0..2);
    assert_eq!(deletion_range("ab", usize::MAX..usize::MAX, 0, 0, false), 2..2);
    assert_eq!(deletion_range("ab", 7..7, 1, 0, true), 2..2);
    assert_eq!(deletion_range("ab", 7..7, 2, 0, true), 1..2);
}

#[test]
fn a_selection_inside_a_pair_is_rounded_outwards() {
    assert_eq!(deletion_range("你😀好", 2..2, 0, 0, false), 1..3);
    assert_eq!(deletion_range("你😀好", 2..2, 1, 1, true), 1..4);
}

#[test]
fn boundaries_count_utf16_units() {
    assert_eq!(boundaries("你😀好"), vec![0, 1, 3, 4]);
    assert_eq!(boundaries(""), vec![0]);
    for ch in ['a', '\u{ffff}', '\u{10000}', '😀', char::MAX, '\u{d7ff}', '\u{e000}'] {
        assert_eq!(len_utf16(ch), ch.len_utf16());
    }
}

#[test]
fn deletion_needs_a_selection_and_its_text() {
    assert_eq!(deletion(Some(3..3), Some("你😀好"), 1, 0, false), Some(1..3));
    assert_eq!(deletion(None, Some("你😀好"), 1, 0, false), None);
    assert_eq!(deletion(Some(3..3), None, 1, 0, false), None);
}

#[test]
fn events_are_queued_for_the_current_session_only() {
    let mut state = ImeState::new();
    assert_eq!(state.session(), 0);
    let first = new_session(&mut state);
    assert_eq!(first, 1);
    assert_eq!(state.session(), 1);
    assert!(enqueue(&mut state, event(first, 1, "a", 0, 0)));
    assert!(enqueue(&mut state, event(first, 1, "b", 0, 0)));
    assert!(!enqueue(&mut state, event(first + 1, 1, "c", 0, 0)));

    let events = drain(&mut state);
    let texts: Vec<String> = events.into_iter().map(|event| event.text).collect();
    assert_eq!(texts, vec!["a", "b"]);
    assert_eq!(drain(&mut state).len(), 0);
}

#[test]
fn a_new_session_drops_what_was_queued() {
    let mut state = ImeState::new();
    let first = new_session(&mut state);
    assert!(enqueue(&mut state, event(first, 1, "a", 0, 0)));
    let second = new_session(&mut state);
    assert_eq!(second, first + 1);
    assert_eq!(drain(&mut state).len(), 0);

    // Drained before, applied after the session changed.
    let action = apply(&mut state, event(first, 1, "a", 0, 0), true);
    assert!(matches!(action, ImeAction::Stale));
}

#[test]
fn a_composition_is_marked_committed_and_finished() {
    let mut state = ImeState::new();
    let session = new_session(&mut state);

    match apply(&mut state, event(session, 0, "ni", 1, 2), true) {
        ImeAction::Compose { text, selection } => {
            assert_eq!(text, "ni");
            assert_eq!(selection, 1..2);
        }
        action => panic!("{action:?}"),
    }
    match apply(&mut state, event(session, 1, "你", 0, 0), true) {
        ImeAction::Commit { text } => assert_eq!(text, "你"),
        action => panic!("{action:?}"),
    }
    assert!(!finish_composition(&mut state), "a commit closes the composition");

    apply(&mut state, event(session, 0, "hao", 3, 3), true);
    assert!(finish_composition(&mut state));
    assert!(!finish_composition(&mut state));
}

#[test]
fn done_finishes_the_composition_and_presses_escape() {
    let mut state = ImeState::new();
    let session = new_session(&mut state);
    apply(&mut state, event(session, 0, "ni", 2, 2), true);
    for (has_handler, expected) in [(true, true), (false, false)] {
        match apply(&mut state, event(session, 4, "", 0, 0), has_handler) {
            ImeAction::Dismiss { finish, input } => {
                assert_eq!(finish, expected);
                assert_eq!(
                    input,
                    PlatformInput::KeyDown(KeyDownEvent {
                        keystroke: Keystroke {
                            modifiers: Modifiers::default(),
                            key: "escape".to_string(),
                            key_char: None,
                        },
                        is_held: false,
                        prefer_character_input: false,
                    })
                );
            }
            action => panic!("{action:?}"),
        }
    }
}

#[test]
fn deletions_name_their_unit() {
    let mut state = ImeState::new();
    let session = new_session(&mut state);
    assert!(matches!(
        apply(&mut state, event(session, 2, "", 3, 4), true),
        ImeAction::Delete { before: 3, after: 4, code_points: false }
    ));
    assert!(matches!(
        apply(&mut state, event(session, 3, "", 5, 6), true),
        ImeAction::Delete { before: 5, after: 6, code_points: true }
    ));
    assert!(matches!(
        apply(&mut state, event(session, 5, "x", 0, 0), true),
        ImeAction::Ignore
    ));
}

#[test]
fn without_a_handler_text_takes_the_legacy_way() {
    let mut state = ImeState::new();
    let session = new_session(&mut state);
    let mut received = Vec::new();
    for event in [
        event(session, 0, "ni", 0, 0),
        event(session, 1, "你", 0, 0),
        event(session, 2, "", 2, 9),
        event(session, 7, "?", 1, 1),
    ] {
        match apply(&mut state, event, false) {
            ImeAction::Legacy(legacy) => dispatch(legacy, &mut received),
            action => panic!("{action:?}"),
        }
    }
    assert_eq!(received, vec!["你", "\x08", "\x08"]);
    assert!(!finish_composition(&mut state), "no handler, no composition");
}

#[test]
fn a_handler_is_given_back_unless_it_was_replaced() {
    let mut slot = Some("taken");
    assert_eq!(take_handler(&mut slot), Some("taken"));
    assert_eq!(slot, None);
    assert_eq!(take_handler(&mut slot), None);
    restore_handler(&mut slot, "taken");
    assert_eq!(slot, Some("taken"));
    let mut slot = Some("new");
    restore_handler(&mut slot, "taken");
    assert_eq!(slot, Some("new"));
}
