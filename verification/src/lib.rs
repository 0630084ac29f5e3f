//! Block and transaction parsing for a meta-protocol carried in Bitcoin
//! transactions.
//!
//! A block at a chain height is turned into index entries and into a
//! normalized record: every transaction with its destinations, its payload,
//! the amount sent, and where its inputs came from. The rules depend on the
//! height, through the activation heights of [`config::Config`].

pub mod config;
pub mod script;
pub mod digest;
pub mod cipher;
pub mod address;
pub mod chain;
pub mod text;
pub mod hexadecimal;
pub mod bytes;
pub mod error;
pub mod classify;
pub mod vout;
pub mod cbor;
pub mod witness;
pub mod record;
pub mod transaction;
pub mod entries;
pub mod block;
pub mod dispatch;
