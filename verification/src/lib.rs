//! RPC transaction receipts for an Ethereum execution client: a stored receipt,
//! its transaction and the block around it become the receipt the RPC answers.
pub mod blob;
pub mod builder;
pub mod external;
pub mod laws;
pub mod receipt;
pub mod transaction;
pub mod types;
