//! The Model Context Protocol side of the server.
pub mod audit_envelope;
pub mod call;
pub mod dispatch;
pub mod drain;
pub mod error;
pub mod fuzz_oracle;
pub mod resources;
pub mod response;
pub mod result_provenance;
pub mod server;
pub mod tool_catalog;
pub mod tool_name;
pub mod wire_validator;
