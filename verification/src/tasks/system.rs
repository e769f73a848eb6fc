//! Tasks that act on the system at large.

pub mod command;
pub mod file;
