//! A navigation-only terminal editor shell: cursor movement, screen clearing
//! and a welcome banner, expressed as a verified state machine that queues
//! terminal commands for a driver to perform.

pub mod editor;
pub mod event;
pub mod lemmas;
pub mod terminal;
pub mod types;
