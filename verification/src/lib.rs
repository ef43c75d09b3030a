//! A to-do list with position-addressed tasks, a line-oriented command
//! language and linear undo over full snapshots.
//!
//! - [`task`] holds the tasks and the list that owns them.
//! - [`command`] reads a line of input as a command.
//! - [`session`] applies commands to the live list and records a snapshot
//!   before every change; [`history`] states what the snapshots hold and what
//!   `undo` restores.
//! - [`validation`] checks positions and counts against their bounds.
//! - [`layout`] measures the box in which the list is shown and [`printing`]
//!   composes its lines and the answers to commands.
//! - [`storage`] names the resource that holds a list.
//! - [`text`] and [`number`] work on text as sequences of characters.
//!
//! Reading input, writing the resource and putting lines on a terminal are
//! left to the program that embeds the library.

pub mod command;
pub mod history;
pub mod layout;
pub mod number;
pub mod printing;
pub mod session;
pub mod storage;
pub mod task;
pub mod text;
pub mod validation;
