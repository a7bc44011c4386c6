//! A plumbing library for command-line programs: terminal output styling
//! through ANSI escape sequences, and helpers around a terminal-size query.
//!
//! The styling core lives in [`crayon`]: build a [`crayon::Style`] (directly
//! or through a [`crayon::Color`] convenience method), apply it to a string
//! with `paint`, and render the result to text. Rendering is a pure function
//! of the style's fields, specified down to the exact bytes emitted.
//!
//! The [`screen`] module holds the terminal-size types and the logic that
//! normalizes the result of an operating-system size query; the query itself
//! is a syscall and stays outside this library.

pub mod crayon;
pub mod decimal;
pub mod screen;
