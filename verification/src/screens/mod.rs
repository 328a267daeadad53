//! What the example app's screens decide.

pub mod ai_chat;
pub mod markdown;
