//! Serves the rows of a read-only SQLite query through a template.
//!
//! The library holds the request pipeline: configuration validation into
//! typed values, parameter resolution, template-path resolution, template
//! precedence, the mapping of stored values, representation negotiation and
//! the orchestration that sequences them.

pub mod text;
pub mod types;
pub mod config;
pub mod domain;
pub mod parsing;
pub mod content_type;
pub mod handler_types;
pub mod query;
pub mod template;
