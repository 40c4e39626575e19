//! A pacman-style command vocabulary translated into the command lines of a
//! host package manager.
//!
//! The library composes every command line and decides, step by step, how a
//! planned sequence of commands is run; the caller spawns the processes and
//! reports back what happened.
pub mod error;
pub mod exec;
pub mod chocolatey;
pub mod dispatch;
