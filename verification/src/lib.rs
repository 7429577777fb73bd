//! The interactive state engine of a terminal command launcher: a line editor with a
//! cursor, a list of candidate commands with fuzzy selection, a dispatcher that turns
//! the chosen command into requests to the host, a tracker for the helper pane, and
//! the projection of all of it into display lines.
//!
//! The engine performs no I/O. Every handler takes the session and an event and gives
//! back the requests that the host has to carry out.

pub mod buffer;
pub mod text;
pub mod config;
pub mod shell;
pub mod matcher;
pub mod candidates;
pub mod panes;
pub mod dispatch;
pub mod view;
pub mod session;
