//! The capability handlers.
//!
//! A handler that computes its answer from the message alone is complete
//! here. A handler that needs a clipboard, a file, an input device or another
//! desktop service is here as far as it decides: it says what is to be done
//! for a message and what follows from how that went; the caller does it.

pub mod battery;
pub mod clipboard;
pub mod file_transfer;
pub mod input_share;
pub mod media_control;
pub mod notification;
pub mod ping;
pub mod remote_commands;
pub mod slide_control;
pub mod touchpad;
