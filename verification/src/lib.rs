//! The platform-neutral core of a mobile GPUI backend.
//!
//! Everything here decides; nothing here touches a window, a clock or a
//! thread. A host reports what happened, and the functions answer with the
//! next state and with what the host has to do.

pub mod time;
pub mod frame_demand;
pub mod frame_pacer;
pub mod utf16;
pub mod input;
pub mod android;
pub mod fling_guard;
pub mod ios;
pub mod path_prompt;
pub mod white_space;
pub mod screens;
