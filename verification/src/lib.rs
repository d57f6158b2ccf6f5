//! Issues, encrypts, anchors and revokes verifiable credentials tied to
//! decentralized identifiers.
//!
//! The library holds the verified core: the credential envelope protocol,
//! the chain transaction confirmation engine, the issuer lifecycle manager
//! and the credential service decisions. Network, database and process
//! handling live outside, and hand the library plain values.

pub mod chain;
pub mod config;
pub mod credentials;
pub mod did;
pub mod envelope;
pub mod error;
pub mod issuer;
pub mod passbase;
pub mod response;
pub mod vc;
