//! A local chat interaction demo: the conversation, what may be sent, and what
//! the screen shows of it.

use crate::white_space::{
    trim, trimmed, trimmed_text_has_no_white_space_at_its_ends, white_space,
};
use vstd::prelude::*;

verus! {

/// How long a reply takes.
pub const REPLY_DELAY_MILLIS: u64 = 1400;

/// How long a copied message is marked as copied.
pub const COPIED_MILLIS: u64 = 1500;

/// The body of every reply.
pub const DEMO_REPLY: &'static str =
    "This is a **local demo reply**. Connect your model to turn this conversation into a working assistant.\n\nThe interface is built with GPUI Kit’s Message, TextView and Input components.";

/// The example's reply to a question about rendering code.
pub const CODE_REPLY: &'static str = r#"### Keep content and controls separate

Use **TextView** for the answer body. Put the thinking state above it and reply actions below it.

```rust
let reply = TextView::markdown(
    "assistant-reply",
    content,
)
.w_full()
.selectable(true)
.scrollable(false);

Message::new().content(
    MessageContent::new()
        .child(reply),
)
```

Here, `content` is the Markdown string for one reply.

- **Selection** lets readers keep a sentence or a code sample.
- **One scroll container** keeps the conversation moving as a single page.
- **Stable message IDs** keep each reply associated with its own content.

Use a distinct ID for every message in a history. The fixed ID above is for one reply.

Explore the [GPUI Kit documentation](https://gpui-kit.com) when you’re ready to compose the rest of the interface.
"#;

/// One message of the conversation.
#[derive(Debug, PartialEq, Eq)]
pub struct ChatMessage {
    pub id: u64,
    /// Written by the user rather than by the assistant.
    pub user: bool,
    pub body: String,
}

/// The assistant's part of the example conversation, but for [`CODE_REPLY`].
#[derive(Debug, PartialEq, Eq)]
pub struct ExampleReplies {
    pub overview: String,
    pub plan: String,
    pub recovery: String,
}

/// The conversation.
pub struct AiChat {
    messages: Vec<ChatMessage>,
    next_id: u64,
    /// A prompt waits for its reply.
    pending: bool,
    /// The message marked as copied.
    copied: Option<u64>,
    /// The reply whose thought summary is open.
    expanded_thought: Option<u64>,
}

/// The content of a [`ChatMessage`].
pub ghost struct MessageView {
    pub id: u64,
    pub user: bool,
    pub body: Seq<char>,
}

/// What an [`AiChat`] remembers.
pub ghost struct ChatView {
    pub messages: Seq<MessageView>,
    pub next_id: u64,
    pub pending: bool,
    pub copied: Option<u64>,
    pub expanded_thought: Option<u64>,
}

impl View for ChatMessage {
    type V = MessageView;

    open spec fn view(&self) -> MessageView {
        MessageView { id: self.id, user: self.user, body: self.body@ }
    }
}

/// The content of a list of messages.
pub open spec fn message_views(messages: Seq<ChatMessage>) -> Seq<MessageView> {
    messages.map_values(|message: ChatMessage| message@)
}

impl View for AiChat {
    type V = ChatView;

    closed spec fn view(&self) -> ChatView {
        ChatView {
            messages: message_views(self.messages@),
            next_id: self.next_id,
            pending: self.pending,
            copied: self.copied,
            expanded_thought: self.expanded_thought,
        }
    }
}

/// The example conversation: the user asks, the assistant replies, four times.
pub open spec fn example_conversation(replies: ExampleReplies) -> Seq<MessageView> {
    seq![
        MessageView { id: 1, user: true, body: "Help me plan an AI chat app with GPUI Kit."@ },
        MessageView { id: 2, user: false, body: replies.overview@ },
        MessageView { id: 3, user: true, body: "What belongs in the first release?"@ },
        MessageView { id: 4, user: false, body: replies.plan@ },
        MessageView { id: 5, user: true, body: "Show me the message rendering code."@ },
        MessageView { id: 6, user: false, body: CODE_REPLY@ },
        MessageView { id: 7, user: true, body: "What if a reply gets interrupted?"@ },
        MessageView { id: 8, user: false, body: replies.recovery@ },
    ]
}

impl ChatView {
    /// Every message has an ID of its own, older messages smaller ones, and the
    /// next one is free.
    pub open spec fn wf(self) -> bool {
        &&& forall|i: int, j: int|
            0 <= i < j < self.messages.len() ==> (#[trigger] self.messages[i]).id < (
            #[trigger] self.messages[j]).id
        &&& forall|i: int|
            0 <= i < self.messages.len() ==> (#[trigger] self.messages[i]).id < self.next_id
    }

    /// Whether `input` can be sent: there is something in it, and nothing waits
    /// for a reply.
    pub open spec fn can_send(self, input: Seq<char>) -> bool {
        trimmed(input).len() > 0 && !self.pending
    }

    /// A message is added under the next ID.
    pub open spec fn said(self, user: bool, body: Seq<char>) -> ChatView {
        ChatView {
            messages: self.messages.push(MessageView { id: self.next_id, user, body }),
            next_id: (self.next_id + 1) as u64,
            ..self
        }
    }

    /// The state after sending `input`.
    pub open spec fn sent(self, input: Seq<char>) -> ChatView {
        if self.can_send(input) {
            ChatView { pending: true, ..self.said(true, trimmed(input)) }
        } else {
            self
        }
    }

    /// The state after the reply has come.
    pub open spec fn replied(self) -> ChatView {
        ChatView { pending: false, ..self.said(false, DEMO_REPLY@) }
    }

    /// The state after the example was started over.
    pub open spec fn restarted(self, replies: ExampleReplies) -> ChatView {
        ChatView {
            messages: example_conversation(replies),
            next_id: 9,
            expanded_thought: Some(2),
            ..self
        }
    }

    /// The state after a click on the thought of a reply.
    pub open spec fn toggled(self, id: u64) -> ChatView {
        ChatView {
            expanded_thought: if self.expanded_thought == Some(id) {
                None
            } else {
                Some(id)
            },
            ..self
        }
    }

    /// The state with `copied` marked as copied.
    pub open spec fn marked(self, copied: Option<u64>) -> ChatView {
        ChatView { copied, ..self }
    }

    /// What the screen shows of a message.
    pub open spec fn item(self, message: MessageView) -> ItemView {
        if message.user {
            ItemView::User { body: message.body }
        } else {
            ItemView::Assistant {
                id: message.id,
                body: message.body,
                thought: if self.expanded_thought == Some(message.id) {
                    Some(thought_summary(message.id))
                } else {
                    None
                },
                copied: self.copied == Some(message.id),
            }
        }
    }
}

/// The thought summary of a reply.
pub open spec fn thought_summary(id: u64) -> Seq<char> {
    match id {
        2 =>
            "Focus on the conversation first. Keep the interface quiet and make progress easy to follow."@,
        4 => "Prioritize the complete reply flow before adding more ways to interact."@,
        6 => "Keep message content separate from the surrounding conversation controls."@,
        8 =>
            "Preserve the partial reply and the draft. Make recovery clear without losing context."@,
        _ => "Show a local response using the existing conversation components."@,
    }
}

/// What the screen shows of one message.
#[derive(Debug, PartialEq, Eq)]
pub enum MessageItem {
    /// A bubble at the end of the line.
    User { body: String },
    /// A reply with its controls. `thought` is the summary while it is open;
    /// `copied` is whether the copy button shows a check mark.
    Assistant { id: u64, body: String, thought: Option<&'static str>, copied: bool },
}

/// The content of a [`MessageItem`].
pub ghost enum ItemView {
    User { body: Seq<char> },
    Assistant { id: u64, body: Seq<char>, thought: Option<Seq<char>>, copied: bool },
}

impl View for MessageItem {
    type V = ItemView;

    open spec fn view(&self) -> ItemView {
        match *self {
            MessageItem::User { body } => ItemView::User { body: body@ },
            MessageItem::Assistant { id, body, thought, copied } => ItemView::Assistant {
                id,
                body: body@,
                thought: match thought {
                    Some(thought) => Some(thought@),
                    None => None,
                },
                copied,
            },
        }
    }
}

/// What the screen shows.
#[derive(Debug, PartialEq, Eq)]
pub struct ChatScreen {
    /// There is no conversation yet: offer the example.
    pub offer_example: bool,
    pub messages: Vec<MessageItem>,
    /// A reply is on its way.
    pub thinking: bool,
    pub send_disabled: bool,
}

/// What the text field reports.
#[derive(Clone, Copy, Debug, PartialEq, Eq, Structural)]
pub enum InputEvent {
    Focus,
    Blur,
    PressEnter { shift: bool },
    Change,
}

/// What happens when the text field reports something.
#[derive(Clone, Copy, Debug, PartialEq, Eq, Structural)]
pub enum InputReaction {
    ShowKeyboard,
    HideKeyboard,
    Send,
    Redraw,
}

/// The keyboard follows the focus, enter without shift sends, and anything else
/// is drawn.
pub fn on_input(event: InputEvent) -> (reaction: InputReaction)
    ensures
        reaction == match event {
            InputEvent::Focus => InputReaction::ShowKeyboard,
            InputEvent::Blur => InputReaction::HideKeyboard,
            InputEvent::PressEnter { shift } => if shift {
                InputReaction::Redraw
            } else {
                InputReaction::Send
            },
            InputEvent::Change => InputReaction::Redraw,
        },
{
    match event {
        InputEvent::Focus => InputReaction::ShowKeyboard,
        InputEvent::Blur => InputReaction::HideKeyboard,
        InputEvent::PressEnter { shift } => {
            if shift {
                InputReaction::Redraw
            } else {
                InputReaction::Send
            }
        },
        InputEvent::Change => InputReaction::Redraw,
    }
}

fn user_message(id: u64, body: &str) -> (message: ChatMessage)
    ensures
        message@ == (MessageView { id, user: true, body: body@ }),
{
    ChatMessage { id, user: true, body: body.to_owned() }
}

impl AiChat {
    /// The chat as the screen opens: the example conversation, its first reply
    /// expanded.
    pub fn new(replies: ExampleReplies) -> (chat: AiChat)
        ensures
            chat@ == (ChatView {
                messages: example_conversation(replies),
                next_id: 9,
                pending: false,
                copied: None,
                expanded_thought: Some(2),
            }),
            chat@.wf(),
    {
        AiChat {
            messages: Self::example_messages(replies),
            next_id: 9,
            pending: false,
            copied: None,
            expanded_thought: Some(2),
        }
    }

    pub fn example_messages(replies: ExampleReplies) -> (messages: Vec<ChatMessage>)
        ensures
            message_views(messages@) == example_conversation(replies),
    {
        let mut messages: Vec<ChatMessage> = Vec::new();
        messages.push(user_message(1, "Help me plan an AI chat app with GPUI Kit."));
        messages.push(ChatMessage { id: 2, user: false, body: replies.overview });
        messages.push(user_message(3, "What belongs in the first release?"));
        messages.push(ChatMessage { id: 4, user: false, body: replies.plan });
        messages.push(user_message(5, "Show me the message rendering code."));
        messages.push(ChatMessage { id: 6, user: false, body: CODE_REPLY.to_owned() });
        messages.push(user_message(7, "What if a reply gets interrupted?"));
        messages.push(ChatMessage { id: 8, user: false, body: replies.recovery });
        messages
    }

    /// Starts over with the example conversation.
    pub fn show_example(&mut self, replies: ExampleReplies)
        ensures
            final(self)@ == (ChatView {
                messages: example_conversation(replies),
                next_id: 9,
                expanded_thought: Some(2),
                ..old(self)@
            }),
            final(self)@ == old(self)@.restarted(replies),
            final(self)@.wf(),
    {
        self.messages = Self::example_messages(replies);
        self.expanded_thought = Some(2);
        self.next_id = 9;
    }

    /// The ID of the message that comes next.
    pub fn next_id(&self) -> (id: u64)
        ensures
            id == self@.next_id,
    {
        self.next_id
    }

    fn say(&mut self, user: bool, body: String)
        requires
            old(self)@.next_id < u64::MAX,
        ensures
            final(self)@ == old(self)@.said(user, body@),
            old(self)@.wf() ==> final(self)@.wf(),
    {
        let ghost before = self.messages@;
        self.messages.push(ChatMessage { id: self.next_id, user, body });
        self.next_id = self.next_id + 1;
        proof {
            assert(message_views(self.messages@) == message_views(before).push(
                self.messages@.last()@,
            ));
        }
    }

    /// Sends what is in the text field, without the white space around it.
    /// Returns whether anything was sent: not while a reply is on its way, and
    /// not from an empty field. The caller then clears the field and arranges
    /// for [`receive_reply`](Self::receive_reply) after
    /// [`REPLY_DELAY_MILLIS`].
    #[must_use]
    pub fn send(&mut self, input: &str) -> (sent: bool)
        requires
            old(self)@.can_send(input@) ==> old(self)@.next_id < u64::MAX,
        ensures
            sent == old(self)@.can_send(input@),
            final(self)@ == old(self)@.sent(input@),
            old(self)@.wf() ==> final(self)@.wf(),
    {
        let prompt = trim(input);
        if prompt.as_str().is_empty() || self.pending {
            return false;
        }
        self.say(true, prompt);
        self.pending = true;
        true
    }

    /// The reply to the prompt that was sent has come.
    pub fn receive_reply(&mut self)
        requires
            old(self)@.next_id < u64::MAX,
        ensures
            final(self)@ == old(self)@.replied(),
            old(self)@.wf() ==> final(self)@.wf(),
    {
        self.say(false, DEMO_REPLY.to_owned());
        self.pending = false;
    }

    /// Opens the thought summary of a reply, or closes it if it is open.
    pub fn toggle_thought(&mut self, id: u64)
        ensures
            final(self)@ == (ChatView {
                expanded_thought: if old(self)@.expanded_thought == Some(id) {
                    None
                } else {
                    Some(id)
                },
                ..old(self)@
            }),
            final(self)@ == old(self)@.toggled(id),
    {
        let open = match self.expanded_thought {
            Some(expanded) => expanded == id,
            None => false,
        };
        self.expanded_thought = if open {
            None
        } else {
            Some(id)
        };
    }

    /// A message was copied. The caller arranges for
    /// [`reset_copied`](Self::reset_copied) after [`COPIED_MILLIS`].
    pub fn copy(&mut self, id: u64)
        ensures
            final(self)@ == (ChatView { copied: Some(id), ..old(self)@ }),
            final(self)@ == old(self)@.marked(Some(id)),
    {
        self.copied = Some(id);
    }

    /// No message is marked as copied any more.
    pub fn reset_copied(&mut self)
        ensures
            final(self)@ == (ChatView { copied: None, ..old(self)@ }),
            final(self)@ == old(self)@.marked(None),
    {
        self.copied = None;
    }

    /// What the screen shows of a message.
    pub fn message(&self, message: &ChatMessage) -> (item: MessageItem)
        ensures
            item@ == self@.item(message@),
    {
        let body = message.body.as_str().to_owned();
        if message.user {
            return MessageItem::User { body };
        }
        let id = message.id;
        let expanded = match self.expanded_thought {
            Some(expanded) => expanded == id,
            None => false,
        };
        let copied = match self.copied {
            Some(copied) => copied == id,
            None => false,
        };
        let thought = if expanded {
            Some(thought(id))
        } else {
            None
        };
        MessageItem::Assistant { id, body, thought, copied }
    }

    /// What the screen shows, with `input` in the text field.
    pub fn render(&self, input: &str) -> (screen: ChatScreen)
        ensures
            screen.offer_example == (self@.messages.len() == 0),
            screen.messages@.len() == self@.messages.len(),
            forall|i: int|
                0 <= i < self@.messages.len() ==> (#[trigger] screen.messages@[i])@ == self@.item(
                    self@.messages[i],
                ),
            screen.thinking == self@.pending,
            screen.send_disabled == !self@.can_send(input@),
    {
        let mut messages: Vec<MessageItem> = Vec::new();
        let mut index: usize = 0;
        while index < self.messages.len()
            invariant
                index <= self.messages@.len(),
                messages@.len() == index,
                self@.messages == message_views(self.messages@),
                forall|i: int|
                    0 <= i < index ==> (#[trigger] messages@[i])@ == self@.item(self@.messages[i]),
            decreases self.messages@.len() - index,
        {
            messages.push(self.message(&self.messages[index]));
            index = index + 1;
        }
        ChatScreen {
            offer_example: self.messages.len() == 0,
            messages,
            thinking: self.pending,
            send_disabled: self.pending || trim(input).as_str().is_empty(),
        }
    }
}

fn thought(id: u64) -> (summary: &'static str)
    ensures
        summary@ == thought_summary(id),
{
    match id {
        2 =>
            "Focus on the conversation first. Keep the interface quiet and make progress easy to follow.",
        4 => "Prioritize the complete reply flow before adding more ways to interact.",
        6 => "Keep message content separate from the surrounding conversation controls.",
        8 =>
            "Preserve the partial reply and the draft. Make recovery clear without losing context.",
        _ => "Show a local response using the existing conversation components.",
    }
}

/// While a reply is on its way nothing more is sent, and once it has come the
/// conversation has gained the prompt and the reply, in this order.
pub proof fn a_prompt_is_followed_by_its_reply(
    chat: ChatView,
    input: Seq<char>,
    impatient: Seq<char>,
)
    requires
        chat.can_send(input),
        chat.next_id < u64::MAX - 1,
    ensures
        chat.sent(input).sent(impatient) == chat.sent(input),
        chat.sent(input).replied().messages == chat.messages.push(
            MessageView {
                id: chat.next_id,
                user: true,
                body: trimmed(input),
            },
        ).push(
            MessageView { id: (chat.next_id + 1) as u64, user: false, body: DEMO_REPLY@ },
        ),
        chat.sent(input).replied().can_send(input),
{
}

/// No two messages share an ID.
pub proof fn message_ids_are_distinct(chat: ChatView, i: int, j: int)
    requires
        chat.wf(),
        0 <= i < chat.messages.len(),
        0 <= j < chat.messages.len(),
        chat.messages[i].id == chat.messages[j].id,
    ensures
        i == j,
{
}

/// At most one thought summary is open: of two replies on the screen with a
/// summary, both are the same message.
pub proof fn at_most_one_thought_is_open(chat: ChatView, i: int, j: int)
    requires
        chat.wf(),
        0 <= i < chat.messages.len(),
        0 <= j < chat.messages.len(),
        chat.item(chat.messages[i]) matches ItemView::Assistant { thought, .. } && thought is Some,
        chat.item(chat.messages[j]) matches ItemView::Assistant { thought, .. } && thought is Some,
    ensures
        i == j,
{
}

/// A prompt can be sent exactly when there is something in it but white space
/// and no reply is on its way.
pub proof fn anything_but_white_space_can_be_sent(chat: ChatView, input: Seq<char>)
    ensures
        chat.can_send(input) <==> !chat.pending && exists|i: int|
            0 <= i < input.len() && !white_space(#[trigger] input[i]),
{
    trimmed_text_has_no_white_space_at_its_ends(input);
}

/// Sending adds the trimmed prompt behind the other messages, under the next
/// ID, and waits for the reply. It leaves every earlier message as it is, and
/// what is marked as copied and whose thought is open. A prompt that cannot be
/// sent changes nothing.
pub proof fn sending_only_adds_the_prompt(chat: ChatView, input: Seq<char>)
    requires
        chat.next_id < u64::MAX,
    ensures
        ({
            let sent = chat.sent(input);
            &&& chat.can_send(input) ==> {
                &&& sent.messages.len() == chat.messages.len() + 1
                &&& sent.messages.drop_last() == chat.messages
                &&& sent.messages.last().id == chat.next_id
                &&& sent.messages.last().user
                &&& sent.messages.last().body == trimmed(input)
                &&& sent.next_id == chat.next_id + 1
                &&& sent.pending
            }
            &&& !chat.can_send(input) ==> sent == chat
            &&& sent.copied == chat.copied
            &&& sent.expanded_thought == chat.expanded_thought
        }),
{
    assert(chat.sent(input).messages.drop_last() =~= chat.messages || !chat.can_send(input));
}

/// A reply is added behind the other messages, under the next ID, and nothing
/// waits any more. It leaves every earlier message as it is, and what is marked
/// as copied and whose thought is open.
pub proof fn a_reply_only_adds_itself(chat: ChatView)
    requires
        chat.next_id < u64::MAX,
    ensures
        ({
            let replied = chat.replied();
            &&& replied.messages.len() == chat.messages.len() + 1
            &&& replied.messages.drop_last() == chat.messages
            &&& replied.messages.last().id == chat.next_id
            &&& !replied.messages.last().user
            &&& replied.messages.last().body == DEMO_REPLY@
            &&& replied.next_id == chat.next_id + 1
            &&& !replied.pending
            &&& replied.copied == chat.copied
            &&& replied.expanded_thought == chat.expanded_thought
        }),
{
    assert(chat.replied().messages.drop_last() =~= chat.messages);
}

/// The screen shows a message as it is: a prompt by its text alone, a reply by
/// its ID and its text, its thought exactly while it is the open one, and the
/// check mark exactly while it is the one that was copied.
pub proof fn a_message_is_shown_as_it_is(chat: ChatView, message: MessageView)
    ensures
        message.user ==> (chat.item(message) matches ItemView::User { body } && body
            == message.body),
        !message.user ==> (chat.item(message) matches ItemView::Assistant {
            id,
            body,
            thought,
            copied,
        } && id == message.id && body == message.body && (thought is Some
            <==> chat.expanded_thought == Some(message.id)) && (thought is Some ==> thought->0
            == thought_summary(message.id)) && (copied <==> chat.copied == Some(message.id))),
{
}

/// A click on a thought opens it and closes any other, or closes it if it was
/// open; a second click always leaves it closed. The conversation, the reply
/// that is awaited and the mark of the copied message stay.
pub proof fn a_click_opens_one_thought_or_closes_it(chat: ChatView, id: u64, other: u64)
    ensures
        ({
            let clicked = chat.toggled(id);
            &&& clicked.expanded_thought == Some(id) <==> chat.expanded_thought != Some(id)
            &&& other != id ==> clicked.expanded_thought != Some(other)
            &&& clicked.expanded_thought == Some(id) ==> clicked.toggled(id).expanded_thought is None
            &&& clicked.messages == chat.messages
            &&& clicked.next_id == chat.next_id
            &&& clicked.pending == chat.pending
            &&& clicked.copied == chat.copied
        }),
{
}

/// Copying marks that message and no other, until the mark is taken away; both
/// leave everything else as it is.
pub proof fn copying_marks_one_message(chat: ChatView, id: u64, other: u64)
    ensures
        ({
            let copied = chat.marked(Some(id));
            let reset = copied.marked(None);
            &&& copied.copied == Some(other) <==> other == id
            &&& reset.copied is None
            &&& copied.messages == chat.messages && reset.messages == chat.messages
            &&& copied.next_id == chat.next_id && reset.next_id == chat.next_id
            &&& copied.pending == chat.pending && reset.pending == chat.pending
            &&& copied.expanded_thought == chat.expanded_thought && reset.expanded_thought
                == chat.expanded_thought
        }),
{
}

/// The example starts over with its eight messages, numbered from one, prompts
/// and replies in turn, the first reply's thought open, and the next message
/// free to follow. What was awaited and what was copied stays.
pub proof fn the_example_starts_over(chat: ChatView, replies: ExampleReplies, i: int)
    requires
        0 <= i < 8,
    ensures
        ({
            let example = chat.restarted(replies);
            &&& example.wf()
            &&& example.messages.len() == 8 && example.next_id == 9
            &&& example.messages[i].id == i + 1
            &&& example.messages[i].user <==> i % 2 == 0
            &&& example.messages[1].body == replies.overview@
            &&& example.messages[3].body == replies.plan@
            &&& example.messages[5].body == CODE_REPLY@
            &&& example.messages[7].body == replies.recovery@
            &&& example.expanded_thought == Some(2u64)
            &&& example.pending == chat.pending
            &&& example.copied == chat.copied
        }),
{
}

/// The four replies of the example have thoughts of their own, and all others
/// share one.
pub proof fn only_the_example_has_thoughts_of_its_own(id: u64)
    ensures
        id != 2 && id != 4 && id != 6 && id != 8 ==> thought_summary(id)
            == "Show a local response using the existing conversation components."@,
{
}

/// What contracts see of a message and of its item on the screen is all of it.
pub proof fn messages_are_seen_whole(message: ChatMessage, item: MessageItem)
    ensures
        message@.id == message.id,
        message@.user == message.user,
        message@.body == message.body@,
        item matches MessageItem::User { body } ==> (item@ matches ItemView::User { body: seen }
            && seen == body@),
        item matches MessageItem::Assistant { id, body, thought, copied } ==> (
        item@ matches ItemView::Assistant {
            id: seen_id,
            body: seen_body,
            thought: seen_thought,
            copied: seen_copied,
        } && seen_id == id && seen_body == body@ && seen_copied == copied && (seen_thought is Some
            <==> thought is Some) && (thought is Some ==> seen_thought->0 == thought->0@)),
{
}

/// A conversation is seen message by message, in order.
pub proof fn a_conversation_is_seen_in_order(messages: Seq<ChatMessage>, i: int)
    requires
        0 <= i < messages.len(),
    ensures
        message_views(messages).len() == messages.len(),
        message_views(messages)[i] == messages[i]@,
{
}

} // verus!
