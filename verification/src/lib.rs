//! Mining a commit transaction: the search for a sequence value with which
//! the id of the signed transaction starts with a required prefix.
//!
//! A run is assembled once from its configuration ([`payload`]), which
//! encodes the mint arguments ([`types`]), embeds them in a reveal script and
//! derives the commit output from it ([`utils`]). Every candidate is then
//! signed and its transaction id tested ([`worker`]); the candidates are
//! shared out among workers and scanned until one is found ([`search`]).
//!
//! What comes from other crates stands behind small functions whose contracts
//! are stated and not proved: [`cbor`], [`script`], [`hextext`], [`keys`],
//! [`tx`] and [`sampling`].

pub mod cbor;
pub mod error;
pub mod hextext;
pub mod keys;
pub mod payload;
pub mod psbt;
pub mod sampling;
pub mod script;
pub mod search;
pub mod signal;
pub mod tx;
pub mod types;
pub mod utils;
pub mod worker;
