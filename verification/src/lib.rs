//! The run protocol of a small IDE: an editor pane, a console pane and a
//! one-line input box around a program that executes in the background.
//!
//! The crate holds the decisions only. A front end owns the window, the
//! threads and the execution engine; it reports what happened (a click, a
//! keystroke, an engine event) and carries out what the library answers.

pub mod console;
pub mod event;
pub mod mailbox;
pub mod session;
pub mod shell;
pub mod trace;
