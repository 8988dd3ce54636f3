//! A multi-ecosystem project-verification runner.
//!
//! Given a working directory, the library identifies which software
//! ecosystems are present (by their canonical manifest files), looks up a
//! fixed per-ecosystem sequence of verification hooks, and models the
//! execution of those hooks: which log files they write, in what order they
//! run, and how their outcomes aggregate into a final result.

pub mod catalog;
pub mod detect;
pub mod engine;
pub mod language;
pub mod text;
pub mod validator;
