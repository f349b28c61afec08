//! The data layer: the type registry, validated models, and the validator
//! that checks QQL models and queries against them.
pub mod backend;
pub mod context;
pub mod model;
pub mod types;
pub mod validate;
pub mod settings;
