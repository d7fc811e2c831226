//! Oxidar: a minimal verified web-server core.
//!
//! The crate provides the connection-handling engine of a small web
//! framework: protocol value types for HTTP methods, versions, requests
//! and responses, an error taxonomy that classifies failures by severity,
//! a line-oriented request parser, and a path-prefix router that hands a
//! parsed request to a registered sub-application.

pub mod errors;
pub mod server;
pub mod text;
