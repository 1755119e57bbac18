//! Diagnostic bridging between a remote Homescript linter and the
//! Language Server Protocol: coordinate and severity conversion, the
//! decisions taken for each document event, workspace manifest lookup and
//! the validation of the server configuration.
pub mod bridge;
pub mod cli;
pub mod config;
pub mod diagnostic;
pub mod workspace;
