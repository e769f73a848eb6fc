//! The kinds of task that the engine knows.

pub mod packages;
pub mod system;
