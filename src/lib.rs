//! Client side of a cross-chain message bridge: the canonical encoding of an
//! outgoing message, the chunked hash chain that turns an encoding into a
//! 32-byte transfer identifier, and the ledger of transfer records that makes
//! every identifier usable at most once per direction and account.
pub mod codec;
pub mod hash_chain;
pub mod tables;
pub mod ledger;
pub mod settings;
pub mod laws;
