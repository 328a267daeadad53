//! What the iOS backend decides.

pub mod text_input;
pub mod document_picker;
