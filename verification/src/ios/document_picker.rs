//! UIKit's document picker as GPUI's file prompt, without blocking.
//!
//! At most one picker is open; [`PickerSlot`] holds who waits for it. A prompt
//! is accepted by [`PickerSlot::prompt`], set up step by step with
//! [`PickerStep::advance`], and answered by [`did_pick`] or [`did_cancel`].

use crate::path_prompt::{same_paths, PathPromptOptions, PromptError};
use vstd::prelude::*;

verus! {

/// The content type of a folder.
pub const FOLDER_TYPE: &'static str = "public.folder";

/// The content type of anything else that can be opened.
pub const ITEM_TYPE: &'static str = "public.item";

/// The picker imports a sandbox copy, so callers can read the path later
/// without depending on a security-scoped URL's lifetime or a remote file
/// provider.
pub const AS_COPY: bool = true;

/// The picker's modal presentation style, `UIModalPresentationFullScreen`. Full
/// screen requires an explicit cancel, so a prompt is always answered.
pub const PRESENTATION_STYLE: isize = 0;

/// What a prompt is answered with: the selected paths, or `None` when the user
/// cancelled.
pub type PickerResult = Result<Option<Vec<String>>, PromptError>;

/// The picker to create.
#[derive(Debug, PartialEq, Eq)]
pub struct PickerRequest {
    /// The uniform type identifier of what can be selected.
    pub content_type: &'static str,
    pub multiple: bool,
    pub title: Option<String>,
}

/// Why the options of a prompt cannot be met, if so: iOS selects files or
/// directories, not both.
pub open spec fn options_error(files: bool, directories: bool) -> Option<PromptError> {
    if !files && !directories {
        Some(PromptError::NothingToSelect)
    } else if files && directories {
        Some(PromptError::MixedSelection)
    } else {
        None
    }
}

/// `request` asks for what `options` allow.
pub open spec fn requests(options: PathPromptOptions, request: PickerRequest) -> bool {
    &&& request.content_type@ == if options.directories {
        FOLDER_TYPE@
    } else {
        ITEM_TYPE@
    }
    &&& request.multiple == options.multiple
    &&& match options.prompt {
        Some(prompt) => request.title matches Some(title) && title@ == prompt@,
        None => request.title is None,
    }
}

/// Checks the options of a prompt and says what picker they ask for.
pub fn create_picker(options: &PathPromptOptions) -> (request: Result<PickerRequest, PromptError>)
    ensures
        match options_error(options.files, options.directories) {
            Some(error) => request matches Err(e) && e == error,
            None => request matches Ok(request) && requests(*options, request),
        },
{
    if !options.files && !options.directories {
        return Err(PromptError::NothingToSelect);
    }
    if options.files && options.directories {
        return Err(PromptError::MixedSelection);
    }
    let title = match &options.prompt {
        Some(prompt) => Some(prompt.as_str().to_owned()),
        None => None,
    };
    Ok(
        PickerRequest {
            content_type: if options.directories {
                FOLDER_TYPE
            } else {
                ITEM_TYPE
            },
            multiple: options.multiple,
            title,
        },
    )
}

/// What UIKit is asked for next while a picker is set up. Objects are known by
/// their addresses.
#[derive(Clone, Copy, Debug, PartialEq, Eq, Structural)]
pub enum PickerStep {
    /// The application's key window.
    Window,
    /// The window's root view controller.
    Root { window: usize },
    /// The view controller that `presenter` presents, if it presents one.
    Presented { presenter: usize },
    /// A new picker.
    Picker { presenter: usize },
    /// A delegate for the picker.
    Delegate { presenter: usize, picker: usize },
    /// Nothing more: `presenter` can present the picker.
    Ready { presenter: usize, picker: usize, delegate: usize },
}

impl PickerStep {
    /// The step after UIKit's reply, which is an object or none. The picker is
    /// presented by the topmost view controller: the one that presents no
    /// other.
    pub open spec fn next(self, reply: Option<usize>) -> Result<PickerStep, PromptError> {
        match (self, reply) {
            (PickerStep::Window, None) => Err(PromptError::NoWindow),
            (PickerStep::Window, Some(window)) => Ok(PickerStep::Root { window }),
            (PickerStep::Root { .. }, None) => Err(PromptError::NoViewController),
            (PickerStep::Root { .. }, Some(presenter)) => Ok(PickerStep::Presented { presenter }),
            (PickerStep::Presented { .. }, Some(presenter)) => Ok(
                PickerStep::Presented { presenter },
            ),
            (PickerStep::Presented { presenter }, None) => Ok(PickerStep::Picker { presenter }),
            (PickerStep::Picker { .. }, None) => Err(PromptError::NoPicker),
            (PickerStep::Picker { presenter }, Some(picker)) => Ok(
                PickerStep::Delegate { presenter, picker },
            ),
            (PickerStep::Delegate { .. }, None) => Err(PromptError::NoDelegate),
            (PickerStep::Delegate { presenter, picker }, Some(delegate)) => Ok(
                PickerStep::Ready { presenter, picker, delegate },
            ),
            (PickerStep::Ready { .. }, _) => Ok(self),
        }
    }

    /// The step after several replies; an error ends the setup.
    pub open spec fn run(self, replies: Seq<Option<usize>>) -> Result<PickerStep, PromptError>
        decreases replies.len(),
    {
        if replies.len() == 0 {
            Ok(self)
        } else {
            match self.run(replies.drop_last()) {
                Ok(step) => step.next(replies.last()),
                Err(error) => Err(error),
            }
        }
    }

    /// Takes UIKit's reply to this step.
    pub fn advance(self, reply: Option<usize>) -> (next: Result<PickerStep, PromptError>)
        ensures
            next == self.next(reply),
    {
        match self {
            PickerStep::Window => match reply {
                Some(window) => Ok(PickerStep::Root { window }),
                None => Err(PromptError::NoWindow),
            },
            PickerStep::Root { .. } => match reply {
                Some(presenter) => Ok(PickerStep::Presented { presenter }),
                None => Err(PromptError::NoViewController),
            },
            PickerStep::Presented { presenter } => match reply {
                Some(presented) => Ok(PickerStep::Presented { presenter: presented }),
                None => Ok(PickerStep::Picker { presenter }),
            },
            PickerStep::Picker { presenter } => match reply {
                Some(picker) => Ok(PickerStep::Delegate { presenter, picker }),
                None => Err(PromptError::NoPicker),
            },
            PickerStep::Delegate { presenter, picker } => match reply {
                Some(delegate) => Ok(PickerStep::Ready { presenter, picker, delegate }),
                None => Err(PromptError::NoDelegate),
            },
            PickerStep::Ready { .. } => Ok(self),
        }
    }
}

/// The picker that is open, and who waits for its answer. `S` is what the
/// answer is sent with, together with whatever has to stay alive until then:
/// UIKit holds its delegate weakly.
pub struct PickerSlot<S> {
    pending: Option<PendingPicker<S>>,
}

struct PendingPicker<S> {
    picker: usize,
    sender: S,
}

impl<S> View for PickerSlot<S> {
    /// The open picker's address and who waits for it.
    type V = Option<(usize, S)>;

    closed spec fn view(&self) -> Option<(usize, S)> {
        match self.pending {
            Some(pending) => Some((pending.picker, pending.sender)),
            None => None,
        }
    }
}

/// Who is answered when `controller` is done: the one who waits for it.
pub open spec fn answered<S>(pending: Option<(usize, S)>, controller: usize) -> Option<S> {
    match pending {
        Some((picker, sender)) => if picker == controller {
            Some(sender)
        } else {
            None
        },
        None => None,
    }
}

/// Who waits once `controller` is done.
pub open spec fn still_pending<S>(pending: Option<(usize, S)>, controller: usize) -> Option<
    (usize, S),
> {
    if answered(pending, controller) is Some {
        None
    } else {
        pending
    }
}

impl<S> PickerSlot<S> {
    /// No picker is open.
    pub fn new() -> (slot: PickerSlot<S>)
        ensures
            slot@ is None,
    {
        PickerSlot { pending: None }
    }

    /// Accepts a prompt, unless a picker is open already or its options cannot
    /// be met.
    pub fn prompt(&self, options: &PathPromptOptions) -> (request: Result<
        PickerRequest,
        PromptError,
    >)
        ensures
            self@ is Some ==> (request matches Err(e) && e == PromptError::AlreadyOpen),
            self@ is None ==> match options_error(options.files, options.directories) {
                Some(error) => request matches Err(e) && e == error,
                None => request matches Ok(request) && requests(*options, request),
            },
    {
        if self.pending.is_some() {
            return Err(PromptError::AlreadyOpen);
        }
        create_picker(options)
    }

    /// A picker was set up, about to be presented: `sender` waits for it.
    pub fn present(&mut self, picker: usize, sender: S)
        ensures
            final(self)@ == Some((picker, sender)),
    {
        self.pending = Some(PendingPicker { picker, sender });
    }

    /// The picker `controller` is done: returns who waited for it.
    pub fn complete(&mut self, controller: usize) -> (sender: Option<S>)
        ensures
            sender == answered(old(self)@, controller),
            final(self)@ == still_pending(old(self)@, controller),
    {
        let open = match &self.pending {
            Some(pending) => pending.picker == controller,
            None => false,
        };
        if !open {
            return None;
        }
        match self.pending.take() {
            Some(pending) => Some(pending.sender),
            None => None,
        }
    }
}

/// One selected URL: its decoded file path, if it has one that can be read.
#[derive(Debug, PartialEq, Eq)]
pub enum PickedUrl {
    /// The URL has no path.
    NoPath,
    /// The URL's path is no text.
    InvalidPath,
    Path(String),
}

impl PickedUrl {
    /// What is wrong with the URL.
    pub open spec fn error(self) -> Option<PromptError> {
        match self {
            PickedUrl::NoPath => Some(PromptError::NoFilePath),
            PickedUrl::InvalidPath => Some(PromptError::InvalidFilePath),
            PickedUrl::Path(_) => None,
        }
    }
}

/// `result` is what a selection is answered with: the first URL without a path
/// fails it, and selecting nothing is cancelling.
pub open spec fn selects(urls: Seq<PickedUrl>, result: PickerResult) -> bool {
    match result {
        Ok(Some(paths)) => {
            &&& urls.len() > 0
            &&& paths@.len() == urls.len()
            &&& forall|i: int|
                0 <= i < urls.len() ==> (#[trigger] urls[i] matches PickedUrl::Path(path) && path@
                    == paths@[i]@)
        },
        Ok(None) => urls.len() == 0,
        Err(error) => exists|i: int|
            {
                &&& 0 <= i < urls.len()
                &&& (#[trigger] urls[i]).error() == Some(error)
                &&& forall|j: int| 0 <= j < i ==> (#[trigger] urls[j]).error() is None
            },
    }
}

/// The answer to a selection.
pub fn selection(urls: Vec<PickedUrl>) -> (result: PickerResult)
    ensures
        selects(urls@, result),
{
    let mut paths: Vec<String> = Vec::new();
    let mut index: usize = 0;
    while index < urls.len()
        invariant
            index <= urls@.len(),
            paths@.len() == index,
            forall|i: int|
                0 <= i < index ==> (#[trigger] urls@[i] matches PickedUrl::Path(path) && path@
                    == paths@[i]@),
        decreases urls@.len() - index,
    {
        match &urls[index] {
            PickedUrl::NoPath => {
                assert(urls@[index as int].error() == Some(PromptError::NoFilePath));
                return Err(PromptError::NoFilePath);
            },
            PickedUrl::InvalidPath => {
                assert(urls@[index as int].error() == Some(PromptError::InvalidFilePath));
                return Err(PromptError::InvalidFilePath);
            },
            PickedUrl::Path(path) => {
                paths.push(path.as_str().to_owned());
            },
        }
        index = index + 1;
    }
    if paths.len() == 0 {
        Ok(None)
    } else {
        Ok(Some(paths))
    }
}

/// The user selected `urls` in `controller`: who is answered, and with what.
pub fn did_pick<S>(slot: &mut PickerSlot<S>, controller: usize, urls: Vec<PickedUrl>) -> (answer:
    Option<(S, PickerResult)>)
    ensures
        final(slot)@ == still_pending(old(slot)@, controller),
        answer is Some <==> answered(old(slot)@, controller) is Some,
        answer matches Some((sender, result)) ==> answered(old(slot)@, controller) == Some(sender)
            && selects(urls@, result),
{
    let result = selection(urls);
    match slot.complete(controller) {
        Some(sender) => Some((sender, result)),
        None => None,
    }
}

/// The user cancelled `controller`: who is answered, and with what.
pub fn did_cancel<S>(slot: &mut PickerSlot<S>, controller: usize) -> (answer: Option<
    (S, PickerResult),
>)
    ensures
        final(slot)@ == still_pending(old(slot)@, controller),
        answer is Some <==> answered(old(slot)@, controller) is Some,
        answer matches Some((sender, result)) ==> answered(old(slot)@, controller) == Some(sender)
            && (result matches Ok(paths) && paths is None),
{
    match slot.complete(controller) {
        Some(sender) => Some((sender, Ok(None))),
        None => None,
    }
}

/// A selection has one answer: all its paths in order, or the first failure.
pub proof fn a_selection_has_one_answer(urls: Seq<PickedUrl>, a: PickerResult, b: PickerResult)
    requires
        selects(urls, a),
        selects(urls, b),
    ensures
        match (a, b) {
            (Ok(Some(paths)), Ok(Some(others))) => same_paths(paths@, others@),
            (Ok(None), Ok(None)) => true,
            (Err(error), Err(other)) => error == other,
            _ => false,
        },
{
    match (a, b) {
        (Ok(Some(paths)), Ok(Some(others))) => {
            assert forall|i: int| 0 <= i < paths@.len() implies (#[trigger] paths@[i])@
                == others@[i]@ by {
                assert(urls[i] is Path);
            }
        },
        (Err(error), Err(other)) => {
            let i = choose|i: int|
                {
                    &&& 0 <= i < urls.len()
                    &&& (#[trigger] urls[i]).error() == Some(error)
                    &&& forall|j: int| 0 <= j < i ==> (#[trigger] urls[j]).error() is None
                };
            let k = choose|i: int|
                {
                    &&& 0 <= i < urls.len()
                    &&& (#[trigger] urls[i]).error() == Some(other)
                    &&& forall|j: int| 0 <= j < i ==> (#[trigger] urls[j]).error() is None
                };
            if i < k {
                assert(urls[i].error() is None);
            }
            if k < i {
                assert(urls[k].error() is None);
            }
        },
        (Err(error), Ok(_)) => {
            let i = choose|i: int|
                0 <= i < urls.len() && (#[trigger] urls[i]).error() == Some(error);
            assert(urls[i] is Path ==> false);
        },
        (Ok(_), Err(error)) => {
            let i = choose|i: int|
                0 <= i < urls.len() && (#[trigger] urls[i]).error() == Some(error);
            assert(urls[i] is Path ==> false);
        },
        _ => {},
    }
}

/// A prompt is answered at most once, and only by its own picker: any other
/// one leaves it waiting, and after its own one nobody waits.
pub proof fn a_prompt_is_answered_once<S>(picker: usize, sender: S, controller: usize, later: usize)
    ensures
        ({
            let pending = Some((picker, sender));
            &&& answered(pending, picker) == Some(sender)
            &&& answered(still_pending(pending, picker), later) is None
            &&& controller != picker ==> answered(pending, controller) is None && still_pending(
                pending,
                controller,
            ) == pending
        }),
{
}

/// The picker is presented by the topmost view controller: however many are
/// stacked on the root, the last of them presents it.
pub proof fn the_topmost_controller_presents(root: usize, stacked: Seq<usize>)
    ensures
        ({
            let replies = stacked.map_values(|controller: usize| Some(controller));
            let top = if stacked.len() == 0 {
                root
            } else {
                stacked.last()
            };
            &&& (PickerStep::Presented { presenter: root }).run(replies)
                == Ok::<PickerStep, PromptError>(PickerStep::Presented { presenter: top })
            &&& (PickerStep::Presented { presenter: root }).run(replies.push(None))
                == Ok::<PickerStep, PromptError>(PickerStep::Picker { presenter: top })
        }),
    decreases stacked.len(),
{
    let wrap = |controller: usize| Some(controller);
    let replies = stacked.map_values(wrap);
    if stacked.len() > 0 {
        the_topmost_controller_presents(root, stacked.drop_last());
        assert(replies.drop_last() == stacked.drop_last().map_values(wrap));
    }
    assert(replies.push(None).drop_last() == replies);
}

/// A prompt can be met exactly when it allows files or directories but not
/// both, and what is wrong with any other is told apart.
pub proof fn a_prompt_selects_files_or_directories(files: bool, directories: bool)
    ensures
        options_error(files, directories) is None <==> files != directories,
        options_error(files, directories) == Some(PromptError::NothingToSelect) <==> !files
            && !directories,
        options_error(files, directories) == Some(PromptError::MixedSelection) <==> files
            && directories,
{
}

/// The picker asks for what the prompt allows: folders exactly if directories
/// may be selected, several exactly if several may be, under the prompt's own
/// words and without a title if it has none.
pub proof fn the_picker_asks_for_what_the_prompt_allows(
    options: PathPromptOptions,
    request: PickerRequest,
)
    requires
        requests(options, request),
    ensures
        options.directories ==> request.content_type@ == "public.folder"@,
        !options.directories ==> request.content_type@ == "public.item"@,
        request.multiple <==> options.multiple,
        request.title is Some <==> options.prompt is Some,
        options.prompt matches Some(prompt) ==> request.title->0@ == prompt@,
{
}

/// The answer to a selection: all of its paths, each in its place, if every URL
/// has one, nothing if it is empty, and otherwise what is wrong with the first
/// URL that has none.
pub proof fn a_selection_is_answered_with_its_paths(
    urls: Seq<PickedUrl>,
    result: PickerResult,
    first: int,
)
    requires
        selects(urls, result),
        0 <= first <= urls.len(),
        forall|i: int| 0 <= i < first ==> #[trigger] urls[i] is Path,
        first < urls.len() ==> !(urls[first] is Path),
    ensures
        urls.len() == 0 ==> (result matches Ok(paths) && paths is None),
        first < urls.len() && urls[first] is NoPath ==> (result matches Err(error) && error
            == PromptError::NoFilePath),
        first < urls.len() && urls[first] is InvalidPath ==> (result matches Err(error) && error
            == PromptError::InvalidFilePath),
        first == urls.len() && urls.len() > 0 ==> (result matches Ok(Some(paths)) && paths@.len()
            == urls.len() && forall|i: int|
            0 <= i < urls.len() ==> (#[trigger] urls[i])->Path_0@ == paths@[i]@),
{
    match result {
        Ok(Some(paths)) => {
            assert(first < urls.len() ==> urls[first] is Path);
        },
        Ok(None) => {},
        Err(error) => {
            let i = choose|i: int|
                {
                    &&& 0 <= i < urls.len()
                    &&& (#[trigger] urls[i]).error() == Some(error)
                    &&& forall|j: int| 0 <= j < i ==> (#[trigger] urls[j]).error() is None
                };
            if i < first {
                assert(urls[i] is Path);
            }
            if first < i {
                assert(urls[first].error() is None);
            }
        },
    }
}

proof fn the_setup_goes_on(
    step: PickerStep,
    first: Seq<Option<usize>>,
    then: Seq<Option<usize>>,
    reached: PickerStep,
)
    requires
        step.run(first) == Ok::<PickerStep, PromptError>(reached),
    ensures
        step.run(first + then) == reached.run(then),
    decreases then.len(),
{
    if then.len() > 0 {
        the_setup_goes_on(step, first, then.drop_last(), reached);
        assert((first + then).drop_last() == first + then.drop_last());
        assert((first + then).last() == then.last());
    } else {
        assert(first + then == first);
    }
}

proof fn one_reply(step: PickerStep, reply: Option<usize>)
    ensures
        step.run(seq![reply]) == step.next(reply),
{
    assert(seq![reply].drop_last() == Seq::<Option<usize>>::empty());
    assert(step.run(seq![reply].drop_last()) == Ok::<PickerStep, PromptError>(step));
    assert(seq![reply].last() == reply);
}

/// The whole setup: the key window, its root controller, the controllers
/// stacked on it up to one that presents none, the picker and its delegate. It
/// ends with that picker and that delegate, presented by the topmost
/// controller, and whichever of the objects UIKit does not give ends it with
/// the error of its own.
pub proof fn the_setup_takes_what_uikit_gives(
    window: usize,
    root: usize,
    stacked: Seq<usize>,
    picker: usize,
    delegate: usize,
)
    ensures
        ({
            let start = PickerStep::Window;
            let rooted = seq![Some(window), Some(root)];
            let top = if stacked.len() == 0 {
                root
            } else {
                stacked.last()
            };
            let found = rooted + (stacked.map_values(|controller: usize| Some(controller))
                + seq![None]);
            &&& start.run(seq![None]) == Err::<PickerStep, PromptError>(PromptError::NoWindow)
            &&& start.run(seq![Some(window), None]) == Err::<PickerStep, PromptError>(
                PromptError::NoViewController,
            )
            &&& start.run(found + seq![None]) == Err::<PickerStep, PromptError>(
                PromptError::NoPicker,
            )
            &&& start.run(found + seq![Some(picker), None]) == Err::<PickerStep, PromptError>(
                PromptError::NoDelegate,
            )
            &&& start.run(found + seq![Some(picker), Some(delegate)]) == Ok::<
                PickerStep,
                PromptError,
            >(PickerStep::Ready { presenter: top, picker, delegate })
        }),
{
    let start = PickerStep::Window;
    let wrap = |controller: usize| Some(controller);
    let climbed = stacked.map_values(wrap) + seq![None];
    let rooted = seq![Some(window), Some(root)];
    let top = if stacked.len() == 0 {
        root
    } else {
        stacked.last()
    };
    one_reply(start, None);
    two_replies(start, Some(window), None);
    two_replies(start, Some(window), Some(root));
    the_topmost_controller_presents(root, stacked);
    assert(stacked.map_values(wrap).push(None) == climbed);
    the_setup_goes_on(start, rooted, climbed, PickerStep::Presented { presenter: root });
    let found = rooted + climbed;
    let ready = PickerStep::Picker { presenter: top };
    one_reply(ready, None);
    two_replies(ready, Some(picker), None);
    two_replies(ready, Some(picker), Some(delegate));
    the_setup_goes_on(start, found, seq![None], ready);
    the_setup_goes_on(start, found, seq![Some(picker), None], ready);
    the_setup_goes_on(start, found, seq![Some(picker), Some(delegate)], ready);
}

proof fn two_replies(step: PickerStep, first: Option<usize>, second: Option<usize>)
    ensures
        step.next(first) matches Ok(reached) ==> step.run(seq![first, second]) == reached.next(
            second,
        ),
{
    if step.next(first) is Ok {
        one_reply(step, first);
        one_reply(step.next(first)->Ok_0, second);
        the_setup_goes_on(step, seq![first], seq![second], step.next(first)->Ok_0);
        assert(seq![first] + seq![second] == seq![first, second]);
    }
}

} // verus!
