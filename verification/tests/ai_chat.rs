use gpui_mobile_core::screens::ai_chat::{
    on_input, AiChat, ExampleReplies, InputEvent, InputReaction, MessageItem, CODE_REPLY,
};
use gpui_mobile_core::screens::markdown::MARKDOWN;
use gpui_mobile_core::white_space::{is_whitespace, trim};

fn replies() -> ExampleReplies {
    ExampleReplies {
        overview: "overview".to_string(),
        plan: "plan".to_string(),
        recovery: "recovery".to_string(),
    }
}

fn bodies(chat: &AiChat) -> Vec<String> {
    chat.render("")
        .messages
        .into_iter()
        .map(|item| match item {
            MessageItem::User { body } => format!("> {body}"),
            MessageItem::Assistant { body, .. } => body,
        })
        .collect()
}

/// The replies on the screen: ID, whether the thought is open, whether copied.
fn controls(chat: &AiChat) -> Vec<(u64, Option<&'static str>, bool)> {
    chat.render("")
        .messages
        .into_iter()
        .filter_map(|item| match item {
            MessageItem::User { .. } => None,
            MessageItem::Assistant { id, thought, copied, .. } => Some((id, thought, copied)),
        })
        .collect()
}

#[test]
fn the_screen_opens_with_the_example() {
    let chat = AiChat::new(replies());
    assert_eq!(
        bodies(&chat),
        vec![
            "> Help me plan an AI chat app with GPUI Kit.",
            "overview",
            "> What belongs in the first release?",
            "plan",
            "> Show me the message rendering code.",
            CODE_REPLY,
            "> What if a reply gets interrupted?",
            "recovery",
        ]
    );
    let messages = AiChat::example_messages(replies());
    let ids: Vec<u64> = messages.iter().map(|message| message.id).collect();
    assert_eq!(ids, vec![1, 2, 3, 4, 5, 6, 7, 8]);

    let screen = chat.render("hello");
    assert!(!screen.offer_example);
    assert!(!screen.thinking);
    assert!(!screen.send_disabled);
}

#[test]
fn a_prompt_is_sent_trimmed_and_answered() {
    let mut chat = AiChat::new(replies());
    assert!(chat.send("  \u{3000}hello there \n"));
    let screen = chat.render("more");
    assert!(screen.thinking);
    assert!(screen.send_disabled);
    assert!(!chat.send("more"), "not while a reply is on its way");
    chat.receive_reply();

    let said = bodies(&chat);
    assert_eq!(said.len(), 10);
    assert_eq!(said[8], "> hello there");
    assert_eq!(
        said[9],
        "This is a **local demo reply**. Connect your model to turn this conversation into a working assistant.\n\nThe interface is built with GPUI Kit’s Message, TextView and Input components."
    );
    assert_eq!(controls(&chat)[4].0, 10);
    assert_eq!(chat.next_id(), 11);
    assert!(!chat.render("more").send_disabled);
    assert!(chat.send("more"));
}

#[test]
fn nothing_is_sent_from_an_empty_field() {
    let mut chat = AiChat::new(replies());
    for input in ["", " ", "\t\n\u{a0}\u{2003}"] {
        assert!(!chat.send(input));
        assert!(chat.render(input).send_disabled);
    }
    assert_eq!(bodies(&chat).len(), 8);
}

#[test]
fn one_thought_is_open_at_a_time() {
    let mut chat = AiChat::new(replies());
    let focus =
        "Focus on the conversation first. Keep the interface quiet and make progress easy to follow.";
    assert_eq!(
        controls(&chat),
        vec![(2, Some(focus), false), (4, None, false), (6, None, false), (8, None, false)]
    );
    for (id, index, summary) in [
        (4, 1, "Prioritize the complete reply flow before adding more ways to interact."),
        (6, 2, "Keep message content separate from the surrounding conversation controls."),
        (
            8,
            3,
            "Preserve the partial reply and the draft. Make recovery clear without losing context.",
        ),
    ] {
        chat.toggle_thought(id);
        assert_eq!(controls(&chat)[index].1, Some(summary));
        assert_eq!(controls(&chat)[0].1, None);
    }
    chat.toggle_thought(8);
    assert!(controls(&chat).iter().all(|(_, thought, _)| thought.is_none()));

    assert!(chat.send("x"));
    chat.receive_reply();
    chat.toggle_thought(10);
    assert_eq!(
        controls(&chat)[4].1,
        Some("Show a local response using the existing conversation components.")
    );
}

#[test]
fn a_copied_message_is_marked_for_a_while() {
    let mut chat = AiChat::new(replies());
    chat.copy(4);
    assert_eq!(
        controls(&chat).iter().map(|(_, _, copied)| *copied).collect::<Vec<_>>(),
        vec![false, true, false, false]
    );
    chat.copy(6);
    assert!(!controls(&chat)[1].2);
    chat.reset_copied();
    assert!(controls(&chat).iter().all(|(_, _, copied)| !copied));
}

#[test]
fn the_example_starts_over() {
    let mut chat = AiChat::new(replies());
    chat.toggle_thought(2);
    assert!(chat.send("x"));
    chat.receive_reply();
    chat.show_example(replies());
    assert_eq!(bodies(&chat).len(), 8);
    assert!(controls(&chat)[0].1.is_some());
    assert!(chat.send("y"));
    chat.receive_reply();
    assert_eq!(controls(&chat)[4].0, 10);
}

#[test]
fn enter_sends_and_the_keyboard_follows_the_focus() {
    assert_eq!(on_input(InputEvent::Focus), InputReaction::ShowKeyboard);
    assert_eq!(on_input(InputEvent::Blur), InputReaction::HideKeyboard);
    assert_eq!(on_input(InputEvent::PressEnter { shift: false }), InputReaction::Send);
    assert_eq!(on_input(InputEvent::PressEnter { shift: true }), InputReaction::Redraw);
    assert_eq!(on_input(InputEvent::Change), InputReaction::Redraw);
}

#[test]
fn white_space_is_what_the_standard_library_says() {
    for ch in '\0'..=char::MAX {
        assert_eq!(is_whitespace(ch), ch.is_whitespace(), "{ch:?}");
    }
}

#[test]
fn trimming_keeps_what_is_inside() {
    for text in ["", "a", " a", "a ", " a b ", "\u{2028}\u{205f}x\u{1680}y\u{202f}", "   ", "é \u{85}"] {
        assert_eq!(trim(text), text.trim());
    }
}

#[test]
fn the_texts_are_whole() {
    assert!(CODE_REPLY.starts_with("### Keep content and controls separate\n\n"));
    assert!(CODE_REPLY.ends_with("compose the rest of the interface.\n"));
    assert_eq!(CODE_REPLY.len(), 819);
    assert!(MARKDOWN.starts_with("## gpui-kit · Markdown\n\n"));
    assert!(MARKDOWN.ends_with("**End of document.**\n"));
    assert_eq!(MARKDOWN.len(), 1479);
    assert_eq!(MARKDOWN.lines().count(), 74);
}
