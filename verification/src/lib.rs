//! Library of the rusty-imap-mcp server.
pub mod account;
pub mod boot;
pub mod cli;
pub mod error;
pub mod json;
pub mod mcp;
pub mod serve;
pub mod startup;
pub mod text;
pub mod tool;
