//! Decision core of a build, upload and simulate dispatcher for robot firmware.
//!
//! The library decides which external program runs next and with which
//! arguments; running the programs is left to the caller.
//!
//! - [`action`]: what the robot does after an upload, and how that is read
//!   from a word.
//! - [`command`]: the commands that an operator can give.
//! - [`invocation`]: the external programs and their arguments.
//! - [`image`]: where the flashable image of an artifact is written.
//! - [`failure`]: why a command ended without success.
//! - [`session`]: the course of one command, step by step.
//! - [`course`]: what holds of every course that a command can take.
//! - [`text`]: comparing string slices and writing integers in decimal.

pub mod action;
pub mod command;
pub mod course;
pub mod failure;
pub mod image;
pub mod invocation;
pub mod session;
pub mod text;
