//! Transaction authentication for a ledger-style system.
//!
//! A [`transaction::Transaction`] is an immutable value-transfer record. The
//! library gives it a canonical byte encoding ([`codec`]), lets the holder of
//! an Ed25519 private key bind itself to a record by a detached signature
//! ([`transaction::sign`]), and lets any third party check that binding
//! against an advertised public key ([`transaction::verify`]).

pub mod address;
pub mod codec;
pub mod crypto;
pub mod key_pair;
pub mod transaction;
