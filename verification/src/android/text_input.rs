//! IME events are queued on the UI thread, then applied on GPUI's thread.
//!
//! The state lives in [`ImeState`]. The host takes the queued events with
//! [`drain`] and walks them with [`apply`], which says for each one what the
//! text input has to be told.

use crate::input::{
    KeyDownEvent, Keystroke, KeystrokeView, Modifiers, PlatformInput, PlatformInputView,
};
use crate::utf16::{self, boundaries, count_before, count_up_to};
use std::collections::VecDeque;
use std::ops::Range;
use vstd::prelude::*;

verus! {

/// Replace the composition: `text` with the selection `start..end` in it.
pub const KIND_COMPOSE: i32 = 0;

/// Insert `text` for good.
pub const KIND_COMMIT: i32 = 1;

/// Delete `start` UTF-16 units before the selection and `end` after it.
pub const KIND_DELETE: i32 = 2;

/// Delete `start` code points before the selection and `end` after it.
pub const KIND_DELETE_CODE_POINTS: i32 = 3;

/// The user is done with the keyboard.
pub const KIND_DONE: i32 = 4;

/// What the legacy text callback takes for one deleted character.
pub const BACKSPACE: &'static str = "\x08";

/// One update from an input connection.
#[derive(Debug)]
pub struct ImeEvent {
    /// The input connection's session; events of another one are stale.
    pub session: u64,
    pub kind: i32,
    pub text: String,
    pub start: usize,
    pub end: usize,
}

/// The current session, whether a composition is open, and the events that
/// have not been applied yet.
pub struct ImeState {
    session: u64,
    composing: bool,
    events: VecDeque<ImeEvent>,
}

/// What an [`ImeState`] remembers.
pub ghost struct ImeView {
    pub session: u64,
    pub composing: bool,
    pub events: Seq<ImeEvent>,
}

impl ImeView {
    /// Nothing stale is ever queued.
    pub open spec fn wf(self) -> bool {
        forall|i: int|
            0 <= i < self.events.len() ==> (#[trigger] self.events[i]).session == self.session
    }

    /// `event` is queued behind the others if it belongs to the current
    /// session, and dropped if not.
    pub open spec fn enqueued(self, event: ImeEvent) -> ImeView {
        if event.session == self.session {
            ImeView { events: self.events.push(event), ..self }
        } else {
            self
        }
    }

    /// Another session has begun.
    pub open spec fn renewed(self) -> ImeView {
        ImeView { session: (self.session + 1) as u64, composing: false, events: Seq::empty() }
    }

    /// All queued events are taken.
    pub open spec fn drained(self) -> ImeView {
        ImeView { events: Seq::empty(), ..self }
    }

    /// The state after a run of events was queued or dropped, one after the
    /// other.
    pub open spec fn enqueued_all(self, events: Seq<ImeEvent>) -> ImeView
        decreases events.len(),
    {
        if events.len() == 0 {
            self
        } else {
            self.enqueued_all(events.drop_last()).enqueued(events.last())
        }
    }
}

impl View for ImeState {
    type V = ImeView;

    closed spec fn view(&self) -> ImeView {
        ImeView { session: self.session, composing: self.composing, events: self.events@ }
    }
}

/// Text for the legacy callback: `text`, dispatched `times` times.
#[derive(Debug)]
pub struct LegacyText {
    pub text: String,
    pub times: usize,
}

impl View for LegacyText {
    type V = Seq<Seq<char>>;

    /// What the callback receives, call by call.
    open spec fn view(&self) -> Seq<Seq<char>> {
        Seq::new(self.times as nat, |i: int| self.text@)
    }
}

/// What one event asks of the text input.
#[derive(Debug)]
pub enum ImeAction {
    /// The event belongs to another session: nothing happens.
    Stale,
    /// Close the composition first if `finish` (unmark the text, reset the
    /// keyboard's composition), then deliver `input`.
    Dismiss { finish: bool, input: PlatformInput },
    /// There is no input handler: the legacy callback gets this.
    Legacy(LegacyText),
    /// Replace the marked text with `text`, selecting `selection` in it.
    Compose { text: String, selection: Range<usize> },
    /// Replace the marked text with `text` and unmark it.
    Commit { text: String },
    /// Delete around the selection, by [`deletion`].
    Delete { before: usize, after: usize, code_points: bool },
    /// The handler has nothing to do.
    Ignore,
}

/// The event's kind is one that deletes.
pub open spec fn deletes(kind: i32) -> bool {
    kind == KIND_DELETE || kind == KIND_DELETE_CODE_POINTS
}

/// What the legacy callback receives for an event: a commit's text once, one
/// backspace for every character to delete before the cursor.
pub open spec fn legacy_dispatches(kind: i32, text: Seq<char>, before: usize) -> Seq<Seq<char>> {
    if kind == KIND_COMMIT {
        seq![text]
    } else if deletes(kind) {
        Seq::new(before as nat, |i: int| BACKSPACE@)
    } else {
        Seq::empty()
    }
}

/// The escape key, pressed.
pub open spec fn is_escape(input: PlatformInput) -> bool {
    input@ == PlatformInputView::KeyDown {
        keystroke: KeystrokeView {
            modifiers: Modifiers::released(),
            key: "escape"@,
            key_char: None,
        },
        is_held: false,
        prefer_character_input: false,
    }
}

/// Whether `action` is what `event` asks for, given the state it meets and
/// whether there is an input handler.
pub open spec fn answers(
    state: ImeView,
    event: ImeEvent,
    has_handler: bool,
    action: ImeAction,
) -> bool {
    if event.session != state.session {
        action is Stale
    } else if event.kind == KIND_DONE {
        action matches ImeAction::Dismiss { finish, input } && finish == state.composing
            && is_escape(input)
    } else if !has_handler {
        action matches ImeAction::Legacy(legacy) && legacy@ == legacy_dispatches(
            event.kind,
            event.text@,
            event.start,
        )
    } else if event.kind == KIND_COMPOSE {
        action matches ImeAction::Compose { text, selection } && text@ == event.text@
            && selection.start == event.start && selection.end == event.end
    } else if event.kind == KIND_COMMIT {
        action matches ImeAction::Commit { text } && text@ == event.text@
    } else if deletes(event.kind) {
        action == ImeAction::Delete {
            before: event.start,
            after: event.end,
            code_points: event.kind == KIND_DELETE_CODE_POINTS,
        }
    } else {
        action is Ignore
    }
}

/// Whether a composition is open after `event`.
pub open spec fn composing_after(state: ImeView, event: ImeEvent, has_handler: bool) -> bool {
    if event.session != state.session {
        state.composing
    } else if event.kind == KIND_DONE {
        false
    } else if has_handler && event.kind == KIND_COMPOSE {
        true
    } else if has_handler && event.kind == KIND_COMMIT {
        false
    } else {
        state.composing
    }
}

impl ImeState {
    /// No session has begun.
    pub fn new() -> (state: ImeState)
        ensures
            state@ == (ImeView { session: 0, composing: false, events: Seq::empty() }),
            state@.wf(),
    {
        ImeState { session: 0, composing: false, events: VecDeque::new() }
    }

    /// The current session; zero before the first.
    pub fn session(&self) -> (session: u64)
        ensures
            session == self@.session,
    {
        self.session
    }
}

/// Begins a session and returns its number: events that were queued for the
/// previous one are dropped, and no composition is open.
pub fn new_session(state: &mut ImeState) -> (session: u64)
    requires
        old(state)@.session < u64::MAX,
    ensures
        session == old(state)@.session + 1,
        final(state)@ == (ImeView { session, composing: false, events: Seq::empty() }),
        final(state)@ == old(state)@.renewed(),
        final(state)@.wf(),
{
    state.session = state.session + 1;
    state.events.clear();
    state.composing = false;
    state.session
}

/// Queues an event of the current session and drops any other. Returns whether
/// it was queued, which is when the text input has to be marked dirty.
#[must_use]
pub fn enqueue(state: &mut ImeState, event: ImeEvent) -> (queued: bool)
    ensures
        queued == (event.session == old(state)@.session),
        final(state)@ == old(state)@.enqueued(event),
        old(state)@.wf() ==> final(state)@.wf(),
{
    if event.session == state.session {
        state.events.push_back(event);
        true
    } else {
        false
    }
}

/// Takes the queued events, oldest first, to be walked with [`apply`].
pub fn drain(state: &mut ImeState) -> (events: VecDeque<ImeEvent>)
    ensures
        events@ == old(state)@.events,
        final(state)@ == old(state)@.drained(),
        final(state)@.wf(),
{
    let mut events: VecDeque<ImeEvent> = VecDeque::new();
    std::mem::swap(&mut events, &mut state.events);
    events
}

/// Decides what one drained event asks for. `has_handler` is whether a
/// platform input handler is registered when the event's turn comes; the
/// session is checked then too, since an earlier event may have changed both.
pub fn apply(state: &mut ImeState, event: ImeEvent, has_handler: bool) -> (action: ImeAction)
    ensures
        answers(old(state)@, event, has_handler, action),
        final(state)@ == (ImeView {
            composing: composing_after(old(state)@, event, has_handler),
            ..old(state)@
        }),
        old(state)@.wf() ==> final(state)@.wf(),
{
    if event.session != state.session {
        return ImeAction::Stale;
    }
    if event.kind == KIND_DONE {
        let finish = finish_composition(state);
        return ImeAction::Dismiss { finish, input: escape_key_down() };
    }
    if !has_handler {
        return ImeAction::Legacy(forward_legacy_text(event.kind, &event.text, event.start));
    }
    if event.kind == KIND_COMPOSE {
        state.composing = true;
        ImeAction::Compose { text: event.text, selection: event.start..event.end }
    } else if event.kind == KIND_COMMIT {
        state.composing = false;
        ImeAction::Commit { text: event.text }
    } else if event.kind == KIND_DELETE || event.kind == KIND_DELETE_CODE_POINTS {
        ImeAction::Delete {
            before: event.start,
            after: event.end,
            code_points: event.kind == KIND_DELETE_CODE_POINTS,
        }
    } else {
        ImeAction::Ignore
    }
}

/// Closes the composition. Returns whether one was open, which is when the
/// handler's text has to be unmarked and the keyboard's composition reset.
#[must_use]
pub fn finish_composition(state: &mut ImeState) -> (finish: bool)
    ensures
        finish == old(state)@.composing,
        final(state)@ == (ImeView { composing: false, ..old(state)@ }),
        old(state)@.wf() ==> final(state)@.wf(),
{
    let finish = state.composing;
    state.composing = false;
    finish
}

fn escape_key_down() -> (input: PlatformInput)
    ensures
        is_escape(input),
{
    PlatformInput::KeyDown(
        KeyDownEvent {
            keystroke: Keystroke {
                modifiers: Modifiers::default(),
                key: "escape".to_owned(),
                key_char: None,
            },
            is_held: false,
            prefer_character_input: false,
        },
    )
}

/// What a slot holds after a handler was given back to it.
pub open spec fn restored<H>(slot: Option<H>, handler: H) -> Option<H> {
    match slot {
        Some(newer) => Some(newer),
        None => Some(handler),
    }
}

/// Takes the handler out of its slot for an update, which may register another
/// one there: the slot is empty, and nobody's, while the update runs.
#[must_use]
pub fn take_handler<H>(slot: &mut Option<H>) -> (handler: Option<H>)
    ensures
        handler == *old(slot),
        *final(slot) is None,
{
    slot.take()
}

/// Gives a handler back that was taken out of its slot for an update. The
/// update may have registered another one, which then stays.
pub fn restore_handler<H>(slot: &mut Option<H>, handler: H)
    ensures
        *final(slot) == restored(*old(slot), handler),
{
    if slot.is_none() {
        *slot = Some(handler);
    }
}

/// Keeps the text callback contract of clients without a platform input
/// handler: commits arrive as they are, and the backspace sentinel deletes one
/// character per callback. Exact UTF-16 ranges and forward deletion require a
/// handler.
pub fn forward_legacy_text(kind: i32, text: &str, before: usize) -> (legacy: LegacyText)
    ensures
        legacy@ == legacy_dispatches(kind, text@, before),
{
    if kind == KIND_COMMIT {
        LegacyText { text: text.to_owned(), times: 1 }
    } else if kind == KIND_DELETE || kind == KIND_DELETE_CODE_POINTS {
        LegacyText { text: BACKSPACE.to_owned(), times: before }
    } else {
        LegacyText { text: String::new(), times: 0 }
    }
}

/// The range that a deletion around `selection` removes, as start and end in
/// UTF-16 units. Counting code points, the selection's ends move over whole
/// characters; counting units, the ends that result are rounded outwards to
/// the nearest boundaries.
pub open spec fn deleted(
    text: Seq<char>,
    selection: (int, int),
    before: int,
    after: int,
    code_points: bool,
) -> (int, int) {
    if code_points {
        let first = utf16::caret(text, selection.0) - before;
        let last = utf16::caret(text, selection.1) + after;
        (
            utf16::offset(text, if first > 0 { first } else { 0 }),
            utf16::offset(text, if last < text.len() { last } else { text.len() as int }),
        )
    } else {
        let start = selection.0 - before;
        let end = selection.1 + after;
        (
            utf16::floor(text, if start > 0 { start } else { 0 }),
            utf16::ceil(
                text,
                if end < utf16::length(text) { end } else { utf16::length(text) },
            ),
        )
    }
}

/// Whether a deletion has a range: counting code points, a selection that
/// starts past the end of the text has no character to count from.
pub open spec fn deletion_defined(
    text: Seq<char>,
    selection_start: int,
    before: int,
    code_points: bool,
) -> bool {
    code_points ==> selection_start <= utf16::length(text) || before > 0
}

/// Android offers deletion in either UTF-16 units or Unicode code points.
/// Rounds UTF-16 endpoints outwards so a surrogate pair is never split.
pub fn deletion_range(
    text: &str,
    selection: Range<usize>,
    before: usize,
    after: usize,
    code_points: bool,
) -> (range: Range<usize>)
    requires
        deletion_defined(text@, selection.start as int, before as int, code_points),
    ensures
        (range.start as int, range.end as int) == deleted(
            text@,
            (selection.start as int, selection.end as int),
            before as int,
            after as int,
            code_points,
        ),
{
    let offsets = boundaries(text);
    let last = offsets.len() - 1;
    let length = offsets[last];
    proof {
        assert forall|i: int, j: int| 0 <= i <= j < offsets@.len() implies offsets@[i]
            <= offsets@[j] by {
            utf16::offset_is_increasing(text@, i, j);
        }
    }
    if code_points {
        let start_index = count_before(&offsets, selection.start);
        let end_index = count_before(&offsets, selection.end);
        proof {
            utf16::caret_is_unique(text@, selection.start as int, start_index as int);
            utf16::caret_is_unique(text@, selection.end as int, end_index as int);
            utf16::caret_splits(text@, selection.start as int);
        }
        let first = start_index.saturating_sub(before);
        let moved = end_index.saturating_add(after);
        let final_index = if moved < last {
            moved
        } else {
            last
        };
        offsets[first]..offsets[final_index]
    } else {
        let start = selection.start.saturating_sub(before);
        let moved = selection.end.saturating_add(after);
        let end = if moved < length {
            moved
        } else {
            length
        };
        let start_count = count_up_to(&offsets, start);
        let end_index = count_before(&offsets, end);
        proof {
            utf16::caret_is_unique(text@, start + 1, start_count as int);
            utf16::caret_is_unique(text@, end as int, end_index as int);
            utf16::caret_splits(text@, end as int);
            assert(offsets@[0] == 0);
        }
        offsets[start_count - 1]..offsets[end_index]
    }
}

/// The range to replace with nothing for an [`ImeAction::Delete`], from what
/// the handler reports: nothing is deleted without a selection or without its
/// text.
pub fn deletion(
    selection: Option<Range<usize>>,
    text: Option<&str>,
    before: usize,
    after: usize,
    code_points: bool,
) -> (range: Option<Range<usize>>)
    requires
        selection is Some && text is Some ==> deletion_defined(
            text->0@,
            selection->0.start as int,
            before as int,
            code_points,
        ),
    ensures
        range is Some <==> selection is Some && text is Some,
        range matches Some(range) ==> (range.start as int, range.end as int) == deleted(
            text->0@,
            (selection->0.start as int, selection->0.end as int),
            before as int,
            after as int,
            code_points,
        ),
{
    match (selection, text) {
        (Some(selection), Some(text)) => Some(
            deletion_range(text, selection, before, after, code_points),
        ),
        _ => None,
    }
}

/// A deletion never splits a surrogate pair: both ends of its range lie on
/// boundaries of the text.
pub proof fn deletion_never_splits_a_surrogate_pair(
    text: Seq<char>,
    selection: (int, int),
    before: int,
    after: int,
    code_points: bool,
)
    requires
        0 <= selection.0,
        0 <= selection.1,
        0 <= before,
        0 <= after,
        deletion_defined(text, selection.0, before, code_points),
    ensures
        ({
            let range = deleted(text, selection, before, after, code_points);
            &&& utf16::is_boundary(text, range.0)
            &&& utf16::is_boundary(text, range.1)
        }),
{
    utf16::caret_splits(text, selection.0);
    utf16::caret_splits(text, selection.1);
    utf16::offset_is_increasing(text, 0, text.len() as int);
    let start = selection.0 - before;
    let end = selection.1 + after;
    let length = utf16::length(text);
    utf16::floor_is_the_last_boundary_up_to(text, if start > 0 { start } else { 0 });
    utf16::ceil_is_the_first_boundary_from(text, if end < length { end } else { length });
}

/// A deletion has a range wherever the selection lies, but for one that is
/// counted in code points from behind the end of the text and goes nowhere.
pub proof fn a_deletion_has_a_range(
    text: Seq<char>,
    selection_start: int,
    before: int,
    code_points: bool,
)
    requires
        0 <= before,
    ensures
        !deletion_defined(text, selection_start, before, code_points) <==> code_points
            && selection_start > utf16::length(text) && before == 0,
{
}

/// Counted in UTF-16 units, a deletion covers everything it was asked to
/// delete that the text holds, and at most one unit more at either end.
pub proof fn unit_deletion_covers_what_was_asked(
    text: Seq<char>,
    selection: (int, int),
    before: int,
    after: int,
)
    requires
        0 <= selection.0 <= selection.1 <= utf16::length(text),
        0 <= before,
        0 <= after,
    ensures
        ({
            let range = deleted(text, selection, before, after, false);
            let start = if selection.0 - before > 0 { selection.0 - before } else { 0 };
            let end = if selection.1 + after < utf16::length(text) {
                selection.1 + after
            } else {
                utf16::length(text)
            };
            &&& start - 1 <= range.0 <= start
            &&& end <= range.1 <= end + 1
            &&& 0 <= range.0 <= range.1 <= utf16::length(text)
        }),
{
    let start = selection.0 - before;
    let end = selection.1 + after;
    let length = utf16::length(text);
    utf16::floor_is_the_last_boundary_up_to(text, if start > 0 { start } else { 0 });
    utf16::ceil_is_the_first_boundary_from(text, if end < length { end } else { length });
}

/// Counted in UTF-16 units, a deletion takes the smallest range between
/// boundaries that covers what was asked: it begins at the last boundary that
/// is not after the first unit to delete, and ends at the first one that is not
/// before the last. An end that lies on a boundary is not moved.
pub proof fn unit_deletion_is_the_smallest_that_covers(
    text: Seq<char>,
    selection: (int, int),
    before: int,
    after: int,
)
    requires
        0 <= selection.0,
        0 <= selection.1,
        0 <= before,
        0 <= after,
    ensures
        ({
            let range = deleted(text, selection, before, after, false);
            let start = if selection.0 - before > 0 { selection.0 - before } else { 0 };
            let end = if selection.1 + after < utf16::length(text) {
                selection.1 + after
            } else {
                utf16::length(text)
            };
            &&& utf16::is_boundary(text, range.0) && range.0 <= start
            &&& forall|b: int| #[trigger] utf16::is_boundary(text, b) && b <= start ==> b <= range.0
            &&& utf16::is_boundary(text, range.1) && end <= range.1
            &&& forall|b: int| #[trigger] utf16::is_boundary(text, b) && end <= b ==> range.1 <= b
            &&& utf16::is_boundary(text, start) ==> range.0 == start
            &&& utf16::is_boundary(text, end) ==> range.1 == end
        }),
{
    let start = selection.0 - before;
    let end = selection.1 + after;
    let length = utf16::length(text);
    utf16::offset_is_increasing(text, 0, text.len() as int);
    utf16::floor_is_the_last_boundary_up_to(text, if start > 0 { start } else { 0 });
    utf16::ceil_is_the_first_boundary_from(text, if end < length { end } else { length });
}

/// Counted in code points, a deletion moves the selection's ends over whole
/// characters: `first` is the first boundary not before the selection, `last`
/// the first one not before its end, and from there the ends move by as many
/// boundaries as asked, as far as the text goes.
pub proof fn code_point_deletion_moves_over_characters(
    text: Seq<char>,
    selection: (int, int),
    first: int,
    last: int,
    before: int,
    after: int,
)
    requires
        0 <= first <= text.len() + 1,
        0 <= last <= text.len() + 1,
        0 <= before,
        0 <= after,
        forall|i: int| 0 <= i < first ==> #[trigger] utf16::offset(text, i) < selection.0,
        forall|i: int| first <= i <= text.len() ==> #[trigger] utf16::offset(text, i) >= selection.0,
        forall|i: int| 0 <= i < last ==> #[trigger] utf16::offset(text, i) < selection.1,
        forall|i: int| last <= i <= text.len() ==> #[trigger] utf16::offset(text, i) >= selection.1,
    ensures
        deleted(text, selection, before, after, true) == (
            utf16::offset(text, if before < first { first - before } else { 0 }),
            utf16::offset(
                text,
                if last + after < text.len() { last + after } else { text.len() as int },
            ),
        ),
{
    utf16::caret_is_unique(text, selection.0, first);
    utf16::caret_is_unique(text, selection.1, last);
}

/// Counted in code points, a deletion around a selection from character
/// `first` to character `last` takes exactly the `before` characters before it
/// and the `after` characters after it, as far as the text has them.
pub proof fn code_point_deletion_takes_whole_characters(
    text: Seq<char>,
    first: int,
    last: int,
    before: int,
    after: int,
)
    requires
        0 <= first <= last <= text.len(),
        0 <= before,
        0 <= after,
    ensures
        deleted(
            text,
            (utf16::offset(text, first), utf16::offset(text, last)),
            before,
            after,
            true,
        ) == (
            utf16::offset(text, if before < first { first - before } else { 0 }),
            utf16::offset(
                text,
                if last + after < text.len() { last + after } else { text.len() as int },
            ),
        ),
{
    utf16::caret_of_a_boundary(text, first);
    utf16::caret_of_a_boundary(text, last);
}

/// Events of the current session are drained in the order they came, each
/// once, and no other event is: a second drain finds nothing.
pub proof fn events_are_drained_in_order(state: ImeView, events: Seq<ImeEvent>)
    ensures
        state.enqueued_all(events).events == state.events + events.filter(
            |event: ImeEvent| event.session == state.session,
        ),
        state.enqueued_all(events).session == state.session,
        state.enqueued_all(events).composing == state.composing,
        state.enqueued_all(events).drained().events.len() == 0,
        state.drained().session == state.session,
        state.drained().composing == state.composing,
    decreases events.len(),
{
    reveal(Seq::filter);
    if events.len() > 0 {
        events_are_drained_in_order(state, events.drop_last());
    }
}

/// A new session starts clean: nothing is queued, no composition is open, and
/// events of any session up to the last are dropped from now on.
pub proof fn a_new_session_starts_clean(state: ImeView, event: ImeEvent)
    requires
        state.session < u64::MAX,
    ensures
        state.renewed().session > state.session,
        state.renewed().events.len() == 0,
        !state.renewed().composing,
        event.session <= state.session ==> state.renewed().enqueued(event) == state.renewed(),
        event.session == state.renewed().session ==> state.renewed().enqueued(event).events == seq![
            event,
        ],
{
}

/// An input handler is told what the event says: composed text with the
/// selection in it, committed text, or how much to delete and in which unit,
/// each as it came. Kinds that are none of these leave it alone.
pub proof fn a_handler_is_told_what_the_event_says(
    state: ImeView,
    event: ImeEvent,
    action: ImeAction,
)
    requires
        event.session == state.session,
        answers(state, event, true, action),
    ensures
        event.kind == 0 ==> (action matches ImeAction::Compose { text, selection } && text@
            == event.text@ && selection.start == event.start && selection.end == event.end),
        event.kind == 1 ==> (action matches ImeAction::Commit { text } && text@ == event.text@),
        event.kind == 2 || event.kind == 3 ==> (action matches ImeAction::Delete {
            before,
            after,
            code_points,
        } && before == event.start && after == event.end && (code_points <==> event.kind == 3)),
        event.kind == 4 ==> action is Dismiss,
        event.kind < 0 || event.kind > 4 ==> action is Ignore,
{
}

/// Dismissing the keyboard presses escape, without modifiers and without text,
/// handler or not.
pub proof fn dismissing_the_keyboard_presses_escape(
    state: ImeView,
    event: ImeEvent,
    has_handler: bool,
    action: ImeAction,
)
    requires
        event.session == state.session,
        event.kind == 4,
        answers(state, event, has_handler, action),
    ensures
        action matches ImeAction::Dismiss { finish, input } && (finish <==> state.composing) && (
        input matches PlatformInput::KeyDown(press) && {
            let modifiers = press.keystroke.modifiers;
            &&& press.keystroke.key@ == "escape"@
            &&& press.keystroke.key_char is None
            &&& !modifiers.control && !modifiers.alt && !modifiers.shift && !modifiers.platform
                && !modifiers.function
            &&& !press.is_held && !press.prefer_character_input
        }),
{
}

/// A client without an input handler receives committed text as it came, once,
/// one backspace for every unit or character to delete before the cursor, and
/// nothing for anything else but the dismissal of the keyboard.
pub proof fn a_legacy_client_receives_text_and_backspaces(
    state: ImeView,
    event: ImeEvent,
    action: ImeAction,
)
    requires
        event.session == state.session,
        answers(state, event, false, action),
    ensures
        event.kind == 4 ==> action is Dismiss,
        event.kind != 4 ==> (action matches ImeAction::Legacy(legacy) && {
            let calls = legacy@;
            &&& calls == legacy_dispatches(event.kind, event.text@, event.start)
            &&& event.kind == 1 ==> calls.len() == 1 && calls[0] == event.text@
            &&& event.kind == 2 || event.kind == 3 ==> calls.len() == event.start && forall|i: int|
                0 <= i < calls.len() ==> #[trigger] calls[i] == seq!['\x08']
            &&& event.kind < 1 || event.kind > 3 ==> calls.len() == 0
        }),
{
    reveal_strlit("\x08");
    assert(BACKSPACE@ == seq!['\x08']);
}

/// What the legacy callback receives is the text itself, as often as it says.
pub proof fn legacy_text_is_dispatched_as_it_is(legacy: LegacyText)
    ensures
        legacy@.len() == legacy.times,
        forall|i: int| 0 <= i < legacy@.len() ==> #[trigger] legacy@[i] == legacy.text@,
{
}

/// One event and whether there was an input handler for it.
pub ghost struct ImeStep {
    pub event: ImeEvent,
    pub has_handler: bool,
}

/// The step opens or closes the composition of `session`.
pub open spec fn touches_composition(step: ImeStep, session: u64) -> bool {
    &&& step.event.session == session
    &&& step.event.kind == 4 || (step.has_handler && (step.event.kind == 0 || step.event.kind == 1))
}

/// Whether a composition is open after some events were applied.
pub open spec fn composing_after_all(state: ImeView, steps: Seq<ImeStep>) -> bool
    decreases steps.len(),
{
    if steps.len() == 0 {
        state.composing
    } else {
        let last = steps.last();
        composing_after(
            ImeView { composing: composing_after_all(state, steps.drop_last()), ..state },
            last.event,
            last.has_handler,
        )
    }
}

/// A composition is open exactly when the last event that touched it composed
/// text: a commit and a dismissal close it, and deletions, unknown kinds, stale
/// events and events without a handler leave it as it was. `last` is that
/// event, and negative if there was none.
pub proof fn a_composition_is_open_until_it_is_closed(
    state: ImeView,
    steps: Seq<ImeStep>,
    last: int,
)
    requires
        -1 <= last < steps.len(),
        last >= 0 ==> touches_composition(steps[last], state.session),
        forall|j: int|
            last < j < steps.len() ==> !touches_composition(#[trigger] steps[j], state.session),
    ensures
        last >= 0 ==> (composing_after_all(state, steps) <==> steps[last].event.kind == 0),
        last < 0 ==> composing_after_all(state, steps) == state.composing,
    decreases steps.len(),
{
    if last < steps.len() - 1 {
        assert(!touches_composition(steps[steps.len() - 1], state.session));
        a_composition_is_open_until_it_is_closed(state, steps.drop_last(), last);
    }
}

/// What the slot holds after an event was applied that may have taken the
/// handler out, and whose calls registered `stored`, if anything.
pub open spec fn slot_after<H>(slot: Option<H>, stored: Option<H>) -> Option<H> {
    match slot {
        Some(handler) => restored(stored, handler),
        None => stored,
    }
}

/// What the slot holds after some events, each of which may have registered a
/// handler.
pub open spec fn slot_after_all<H>(slot: Option<H>, stored: Seq<Option<H>>) -> Option<H>
    decreases stored.len(),
{
    if stored.len() == 0 {
        slot
    } else {
        slot_after(slot_after_all(slot, stored.drop_last()), stored.last())
    }
}

/// Applying events leaves the handler in its slot: whatever was there before is
/// there again unless a call registered another handler, and then the one that
/// was registered last is.
pub proof fn the_slot_keeps_its_handler<H>(slot: Option<H>, stored: Seq<Option<H>>)
    ensures
        (forall|i: int| 0 <= i < stored.len() ==> #[trigger] stored[i] is None) ==> slot_after_all(
            slot,
            stored,
        ) == slot,
        forall|i: int|
            0 <= i < stored.len() && #[trigger] stored[i] is Some && (forall|j: int|
                i < j < stored.len() ==> #[trigger] stored[j] is None) ==> slot_after_all(
                slot,
                stored,
            ) == stored[i],
{
    if forall|i: int| 0 <= i < stored.len() ==> #[trigger] stored[i] is None {
        the_last_registration_counts(slot, stored, -1);
    }
    assert forall|i: int|
        0 <= i < stored.len() && #[trigger] stored[i] is Some && (forall|j: int|
            i < j < stored.len() ==> #[trigger] stored[j] is None) implies slot_after_all(
        slot,
        stored,
    ) == stored[i] by {
        the_last_registration_counts(slot, stored, i);
    }
}

proof fn the_last_registration_counts<H>(slot: Option<H>, stored: Seq<Option<H>>, last: int)
    requires
        -1 <= last < stored.len(),
        last >= 0 ==> stored[last] is Some,
        forall|j: int| last < j < stored.len() ==> #[trigger] stored[j] is None,
    ensures
        slot_after_all(slot, stored) == if last >= 0 {
            stored[last]
        } else {
            slot
        },
    decreases stored.len(),
{
    if last < stored.len() - 1 {
        assert(stored[stored.len() - 1] is None);
        the_last_registration_counts(slot, stored.drop_last(), last);
    }
}

/// Once another session has begun, an event of an earlier one does nothing:
/// it is not queued, and if it was drained before, it is skipped.
pub proof fn events_of_an_earlier_session_do_nothing(
    state: ImeView,
    event: ImeEvent,
    has_handler: bool,
    action: ImeAction,
)
    requires
        event.session < state.session,
        answers(state, event, has_handler, action),
    ensures
        state.enqueued(event) == state,
        action is Stale,
        composing_after(state, event, has_handler) == state.composing,
{
}

/// A composition is closed once: the event that dismisses the keyboard asks to
/// finish it exactly when it is open, and a second one finds it closed.
pub proof fn a_composition_is_finished_once(
    state: ImeView,
    first: ImeEvent,
    second: ImeEvent,
    has_handler: bool,
    first_action: ImeAction,
    second_action: ImeAction,
)
    requires
        first.session == state.session,
        first.kind == KIND_DONE,
        second.session == state.session,
        second.kind == KIND_DONE,
        answers(state, first, has_handler, first_action),
        answers(
            ImeView { composing: composing_after(state, first, has_handler), ..state },
            second,
            has_handler,
            second_action,
        ),
    ensures
        first_action is Dismiss && (first_action->finish <==> state.composing),
        second_action is Dismiss && !second_action->finish,
{
}

/// Only text that is being composed opens a composition, and deletions leave
/// it as it is.
pub proof fn only_composed_text_opens_a_composition(
    state: ImeView,
    event: ImeEvent,
    has_handler: bool,
)
    ensures
        !state.composing && composing_after(state, event, has_handler) ==> has_handler
            && event.session == state.session && event.kind == KIND_COMPOSE,
        deletes(event.kind) ==> composing_after(state, event, has_handler) == state.composing,
{
}

} // verus!
