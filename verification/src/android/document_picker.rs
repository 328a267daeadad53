//! File prompts through Android's Storage Access Framework, answered with
//! readable local files.

use crate::path_prompt::{PathPromptOptions, PromptError};
use vstd::prelude::*;

verus! {

/// Whether several files may be selected, or why the prompt cannot be met.
pub open spec fn permitted(files: bool, directories: bool, multiple: bool) -> Result<
    bool,
    PromptError,
> {
    if files && !directories {
        Ok(multiple)
    } else {
        Err(PromptError::FilesOnly)
    }
}

/// `answer` is what a prompt is answered with when the picker returned `reply`.
pub open spec fn answers(
    reply: Result<Option<Vec<String>>, String>,
    answer: Result<Option<Vec<String>>, String>,
) -> bool {
    match reply {
        Ok(Some(paths)) => if paths@.len() > 0 {
            answer == reply
        } else {
            answer matches Ok(none) && none is None
        },
        Ok(None) => answer matches Ok(none) && none is None,
        Err(_) => answer == reply,
    }
}

/// Checks what a prompt asks for. The answer is whether the picker lets the
/// user select several files; directories cannot be selected, since their
/// URIs are not filesystem paths.
pub fn prompt(options: &PathPromptOptions) -> (multiple: Result<bool, PromptError>)
    ensures
        multiple == if options.files && !options.directories {
            Ok::<bool, PromptError>(options.multiple)
        } else {
            Err(PromptError::FilesOnly)
        },
        multiple == permitted(options.files, options.directories, options.multiple),
{
    if !options.files || options.directories {
        Err(PromptError::FilesOnly)
    } else {
        Ok(options.multiple)
    }
}

/// What the prompt is answered with, from what the picker returned: no list
/// and an empty list both mean that the user cancelled. An error of the call
/// itself is handed on.
pub fn pick_files(reply: Result<Option<Vec<String>>, String>) -> (answer: Result<
    Option<Vec<String>>,
    String,
>)
    ensures
        match reply {
            Ok(Some(paths)) => if paths@.len() > 0 {
                answer == reply
            } else {
                answer matches Ok(none) && none is None
            },
            Ok(None) => answer matches Ok(none) && none is None,
            Err(_) => answer == reply,
        },
        answers(reply, answer),
{
    match reply {
        Ok(Some(paths)) => {
            if paths.len() == 0 {
                Ok(None)
            } else {
                Ok(Some(paths))
            }
        },
        Ok(None) => Ok(None),
        Err(error) => Err(error),
    }
}

/// A prompt is permitted exactly when it allows files and no directories, and
/// then for several files exactly if it says so.
pub proof fn files_alone_are_permitted(files: bool, directories: bool, multiple: bool)
    ensures
        permitted(files, directories, multiple) is Ok <==> files && !directories,
        permitted(files, directories, multiple) matches Ok(several) ==> several == multiple,
        permitted(files, directories, multiple) matches Err(error) ==> error
            == PromptError::FilesOnly,
{
}

/// The prompt is answered with the files that were picked, each in its place;
/// picking none is cancelling, and an error is handed on in its own words.
pub proof fn picked_files_are_the_answer(
    reply: Result<Option<Vec<String>>, String>,
    answer: Result<Option<Vec<String>>, String>,
)
    requires
        answers(reply, answer),
    ensures
        reply matches Err(error) ==> (answer matches Err(told) && told@ == error@),
        reply matches Ok(None) ==> (answer matches Ok(paths) && paths is None),
        reply matches Ok(Some(picked)) ==> (answer matches Ok(paths) && (paths is None
            <==> picked@.len() == 0) && (paths is Some ==> paths->0@.len() == picked@.len()
            && forall|i: int|
            0 <= i < picked@.len() ==> (#[trigger] picked@[i])@ == paths->0@[i]@)),
{
}

} // verus!
