//! Front end for two small languages that describe a data layer: a
//! configuration language of nested groups with lazily evaluated calls, and
//! QQL, a language of data models and declarative queries over them, with a
//! validator that checks queries against the models.
pub mod config;
pub mod db;
pub mod maps;
pub mod parser;
pub mod qql;
