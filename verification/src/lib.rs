//! Language-server dispatch: maps a language identifier to the command line
//! that launches the language server for that language, and to the
//! initialization options handed to the server at startup.
//!
//! Both resolutions are pure functions of the identifier: they keep no state,
//! and their contracts pin the exact executable, arguments and option
//! documents for every identifier, known or not.

pub mod dispatch;
pub mod json;
