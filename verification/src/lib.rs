//! A fungible multi-currency ledger with a dispatch layer over a native
//! single-currency provider.
//!
//! The ledger keeps, for every currency, the total issuance, and for every
//! account in it a free balance, a reserved balance and the amount that its
//! locks freeze. It is kept in memory and owes its host nothing but a queue of
//! calls: events, dust to hand over, and the first and last lock of an
//! account.
//!
//! The crate is laid out leaves first.
//!
//! - [`primitives`], [`account`] and [`locks`] hold the values: balances,
//!   identifiers, errors, origins, the balance record of an account and its
//!   locks.
//! - [`ledger`] is the ledger as a mathematical value, with every operation of
//!   the engine as a function on it. [`sums`] and [`invariants`] prove that the
//!   operations keep the ledger valid, and [`laws`] state what holds of them
//!   in general.
//! - [`store`] holds the three maps of the ledger in memory, and [`tokens`] is
//!   the engine on top of it. Every operation of the engine does to the store
//!   exactly what the function of the same name does to the ledger.
//! - [`basic`] is the vocabulary of a single-currency provider.
//!   [`currencies`] is the dispatch layer: it sends a call in the native
//!   currency to such a provider and every other call to the engine.
//!   [`currency`] binds the dispatch layer to one currency, and [`adapter`]
//!   lifts a host currency, in the vocabulary of [`pallet`], into that of a
//!   provider.

pub mod primitives;
pub mod account;
pub mod locks;
pub mod sums;
pub mod ledger;
pub mod invariants;
pub mod laws;
pub mod store;
pub mod tokens;
pub mod basic;
pub mod pallet;
pub mod adapter;
pub mod currencies;
pub mod currency;
