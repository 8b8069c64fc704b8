//! Block-header subsystem of a blockchain ledger.
//!
//! The crate defines the canonical on-wire representation of a block
//! header, the pluggable consensus-proof formats that authenticate a
//! header's producer, and the verification algorithm that ties a
//! header's content to a cryptographic signature.

pub mod bytes;
pub mod codec;
pub mod config;
pub mod crypto;
pub mod date;
pub mod header;
pub mod key;
pub mod leadership;
pub mod update;
