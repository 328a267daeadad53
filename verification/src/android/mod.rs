//! What the Android backend decides.

pub mod text_input;
pub mod host;
pub mod frame_source;
pub mod document_picker;
