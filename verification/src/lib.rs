//! A Pomodoro timer: the phase state machine, the text the timer shows, and
//! the key bindings, with their contracts.

pub mod app;
pub mod text;
pub mod cli;
pub mod events;
pub mod ui;
pub mod theme;
pub mod laws;
