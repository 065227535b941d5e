//! A verified core for driving an external terminal-rendering process.
//!
//! The crate holds the decisions of a terminal handle and none of its I/O:
//! how a number is written on a command line, which command line starts the
//! external process and which one stops it, and the strict sequence of steps
//! by which the owner and the process meet over a loopback connection.
//! The embedding program performs each step and reports what came of it.

pub mod command;
pub mod decimal;
pub mod handle;
pub mod launch;

pub use command::{kill_command, launch_command, CommandLine, Platform};
pub use handle::{new_term, TermInstance};
pub use launch::{Action, Event, Launch, LaunchError, Phase};
