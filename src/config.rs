//! The configuration language: nested groups of named values, with
//! function calls that are evaluated when a value is read.
pub mod ast;
pub mod error;
pub mod grammar;
pub mod parse;
pub mod eval;
