//! A modal, vi-like editor core for a terminal daily-schedule planner.
//!
//! The library holds the verified logic of the editor: the wall-clock time
//! model, the schedule data model, the bidirectional mapping between terminal
//! cursor positions and content positions, the command/mode state machine,
//! and the schedule mutation engine.  Terminal I/O, template file loading and
//! the sunrise/sunset lookup live outside the library and talk to it through
//! plain values.

pub mod command;
pub mod cursor;
pub mod dom;
pub mod error;
pub mod edit_schedule;
pub mod keys;
pub mod mode;
pub mod parse;
pub mod render;
pub mod schedule;
pub mod state;
pub mod template;
pub mod text;
pub mod text_capture;
pub mod time;

pub use time::Duration;
pub use time::Time;
