//! User interface: the terminal UI's state and the desktop notifications'
//! contents.

pub mod notify;
pub mod tui;
