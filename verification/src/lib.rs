//! Bridges MIDI note events to external commands.
//!
//! A binding ties one note on one input port to a command. The press
//! classifier turns raw MIDI messages into actions, the dispatcher side turns
//! an action into a program and its arguments and decides what to report of a
//! finished command.

pub mod binding;
pub mod conf;
pub mod dispatch;
pub mod ports;
pub mod press;
pub mod shutdown;
pub mod text;
