//! Consensus-node types of the Grug application, with their rendering,
//! path, validator-set and signing rules proved correct.

pub mod decimal;
pub mod paths;
pub mod encoding;
pub mod types;
pub mod validators;
pub mod node;
pub mod auth;
pub mod vm;
pub mod laws;
