//! Tasks that manage packages.

pub mod apt;
