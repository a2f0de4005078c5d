//! Encoding and decoding of APDUs, the command and response frames exchanged
//! with smart cards, and classification of the status word that ends a response.

pub mod command;
pub mod error;
pub mod handler;
pub mod response;
pub mod rule;
pub mod table;
pub mod text;
pub mod variant;

pub use crate::command::Command;
pub use crate::error::Error;
pub use crate::handler::Handler;
pub use crate::response::Response;
