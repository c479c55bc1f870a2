//! A verified resolution engine for the user-mode "simple call" entry points.
//!
//! Each logical entry point is reached through one of three mechanisms, depending on
//! the running operating system: a dedicated exported function, a dispatch syscall
//! that takes a table slot as its last argument, or (on the oldest releases) a raw
//! syscall number. This crate holds the rules that pick the mechanism, the write-once
//! cells that remember the outcome, and the machine-word marshaling, each with a
//! contract proved by Verus.

pub mod cell;
pub mod dispatch;
pub mod engine;
pub mod error;
pub mod marshal;
pub mod version;
