//! Multi-architecture build and run helper for a bare-metal kernel.
//!
//! The library resolves an architecture identifier to its profile, derives
//! the paths and the argument lists of the external programs involved, and
//! decides, step by step, what a build or run does next. Performing each
//! step (copying a file, starting a program) is left to the caller.
pub mod arch;
pub mod commands;
pub mod paths;
pub mod pipeline;
