//! A fluent builder that assembles regular-expression pattern strings from
//! chained calls and hands the result to the `regex` engine, plus helpers
//! that colour terminal text with ANSI escape codes.
pub mod ansi;
pub mod builder;
pub mod decimal;
pub mod engine;
pub mod text;

pub use builder::RegexBuilder;
