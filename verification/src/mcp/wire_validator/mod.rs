//! The check that every line from the client passes before the protocol stack
//! sees it.
pub mod duplicates;
pub mod envelope;
pub mod inbound;
pub mod message;
pub mod supervisor;
