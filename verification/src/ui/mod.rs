//! The window's surface, as far as it can be decided without widgets.

pub mod action;
pub mod dialogs;
pub mod popover;
