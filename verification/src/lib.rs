//! Client-side construction, staging and upload of signed file transactions.
//!
//! A file is uploaded as a chain of transactions: a deposit, the creation of the file, one append
//! for each block of its bytes, and a seal. Each transaction carries a payload, is described by a
//! header that names the digest of the payload and the transaction before it, and is signed over
//! the bytes of that header. The transactions are staged in a store, submitted in order, and
//! awaited until the service has committed every one of them.
//!
//! - [`wire`], [`fields`]: the binary encoding of messages;
//! - [`hex_codec`], [`digest`], [`keys`], [`equal`]: hexadecimal text, digests, keys and
//!   signatures;
//! - [`types`], [`common`]: the vocabulary and the constants of the service;
//! - [`payload`], [`transaction`], [`batch`]: what is built and signed;
//! - [`state`], [`store`]: what the staging store keeps, and what its operations do;
//! - [`upload`], [`delivery`]: the decisions of preparing, sending and awaiting;
//! - [`client`]: the addresses of the service and what is made of its answers.

pub mod batch;
pub mod client;
pub mod common;
pub mod delivery;
pub mod digest;
pub mod equal;
pub mod fields;
pub mod hex_codec;
pub mod keys;
pub mod payload;
pub mod state;
pub mod store;
pub mod transaction;
pub mod types;
pub mod upload;
pub mod wire;
