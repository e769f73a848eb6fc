//! A declarative task runner: an ordered list of task declarations is run
//! against the local host, one after the other, skipping those whose guard
//! already holds.
//!
//! The engine does not act on the host. It decides, step by step, what the
//! host is asked to do next, and the caller carries each request out and
//! hands the reply back. The one thing the library can do for the caller is
//! to read the clock.

pub mod config;
pub mod error;
pub mod host;
pub mod modules;
pub mod registry;
pub mod runner;
pub mod task;
pub mod tasks;
pub mod text;
pub mod time;
pub mod value;
