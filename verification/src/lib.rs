//! Projection of ledger replica events into flat key/value records.
//!
//! Each incoming event (an account write, a transaction, a slot status
//! change, block metadata) is turned into a [`record::Record`]: a canonical
//! string key plus an ordered sequence of field/value pairs, ready for one
//! atomic multi-field write into a key-value store. Filtering policy (an
//! account allow-list, vote-transaction suppression, notification toggles)
//! is applied before any record is built.

pub mod codec;
pub mod config;
pub mod dispatch;
pub mod event;
pub mod filter;
pub mod record;
pub mod sink;
pub mod text;
