//! Prompts for files and folders, and how they can fail.

use vstd::prelude::*;

verus! {

/// What a file prompt lets the user select.
#[derive(Debug, PartialEq, Eq)]
pub struct PathPromptOptions {
    pub files: bool,
    pub directories: bool,
    /// More than one path may be selected.
    pub multiple: bool,
    /// The prompt to show.
    pub prompt: Option<String>,
}

/// Why a prompt has no answer.
#[derive(Clone, Copy, Debug, PartialEq, Eq, Structural)]
pub enum PromptError {
    /// Android has no paths for directories.
    FilesOnly,
    /// Another picker waits for its answer.
    AlreadyOpen,
    /// Neither files nor directories may be selected.
    NothingToSelect,
    /// Both files and directories may be selected.
    MixedSelection,
    NoWindow,
    NoViewController,
    NoPicker,
    NoDelegate,
    /// A selected URL has no file path.
    NoFilePath,
    /// A selected URL's file path cannot be read.
    InvalidFilePath,
}

impl PromptError {
    /// The error in words.
    pub open spec fn spec_message(self) -> Seq<char> {
        match self {
            PromptError::FilesOnly =>
                "Android file prompts support files only; directory URIs are not filesystem paths"@,
            PromptError::AlreadyOpen => "A document picker is already open"@,
            PromptError::NothingToSelect => "The file prompt must allow files or directories"@,
            PromptError::MixedSelection =>
                "iOS does not support mixed file and directory selection"@,
            PromptError::NoWindow => "No active iOS window to present a document picker"@,
            PromptError::NoViewController =>
                "No iOS view controller to present a document picker"@,
            PromptError::NoPicker => "Could not create document picker"@,
            PromptError::NoDelegate => "Could not create document picker delegate"@,
            PromptError::NoFilePath => "Document picker returned a URL without a file path"@,
            PromptError::InvalidFilePath => "Document picker returned an invalid file path"@,
        }
    }

    /// The error in words.
    pub fn message(self) -> (message: &'static str)
        ensures
            message@ == self.spec_message(),
    {
        match self {
            PromptError::FilesOnly =>
                "Android file prompts support files only; directory URIs are not filesystem paths",
            PromptError::AlreadyOpen => "A document picker is already open",
            PromptError::NothingToSelect => "The file prompt must allow files or directories",
            PromptError::MixedSelection =>
                "iOS does not support mixed file and directory selection",
            PromptError::NoWindow => "No active iOS window to present a document picker",
            PromptError::NoViewController =>
                "No iOS view controller to present a document picker",
            PromptError::NoPicker => "Could not create document picker",
            PromptError::NoDelegate => "Could not create document picker delegate",
            PromptError::NoFilePath => "Document picker returned a URL without a file path",
            PromptError::InvalidFilePath => "Document picker returned an invalid file path",
        }
    }
}

/// Whether two lists of paths hold the same texts.
pub open spec fn same_paths(paths: Seq<String>, others: Seq<String>) -> bool {
    paths.len() == others.len() && forall|i: int|
        0 <= i < paths.len() ==> (#[trigger] paths[i])@ == others[i]@
}

} // verus!
