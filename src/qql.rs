//! QQL, the schema and query language: models, queries and expressions.
pub mod ast;
pub mod grammar;
pub mod parse;
pub mod expr;
