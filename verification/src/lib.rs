//! Planning for a handful of desktop chores: rebuilding a NixOS
//! configuration, taking screenshots, and cleaning terminal scrollback.
//!
//! Nothing here starts a process or touches a file.  Each module says which
//! commands are to be run and what to do with their results; the caller runs
//! them.

pub mod decimal;
pub mod text;
pub mod command;
pub mod nixos;
pub mod scrollback;
pub mod window;
pub mod screenshot;
