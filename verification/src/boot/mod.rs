//! What the server sets up before it serves.
pub mod audit_init;
pub mod discovery;
pub mod mutf7;
pub mod mutf7_encoding;
pub mod registry;
pub mod tool_matrix;
