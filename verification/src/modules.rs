//! The elementary operations that tasks are made of: what each asks of the
//! host, and what it makes of the answer.

pub mod apt;
pub mod command;
pub mod file;
