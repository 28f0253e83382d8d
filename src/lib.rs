//! An interactive pattern-validation engine: a regular-expression pattern is
//! compiled on every edit, and each candidate string of an ordered list is
//! checked against it.
pub mod pattern;
pub mod candidates;
pub mod presets;
pub mod session;
pub mod statement;
