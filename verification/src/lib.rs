//! A registry of self-sovereign identities and of the assets they hold.
//!
//! An identity belongs to one key, its owner. The owner may enroll up to
//! three guardians; any one of them can take the identity over, which makes
//! it the owner and dismisses every guardian. An asset belongs to one key at
//! a time and only that key can hand it on.
//!
//! The records are plain values ([`state`]). Each operation on them
//! ([`identity`], [`asset`]) says in its contract which requests it refuses,
//! for which reason, and what the record holds afterwards; a refused request
//! changes nothing. [`instructions`] applies a signed request to the records
//! it names. [`laws`] proves what holds of every identity, whatever sequence
//! of requests it has seen.
//!
//! Two things come from the ledger's runtime and are not proved here: how a
//! key reads as text ([`key`]) and what time it is ([`clock`]).

pub mod asset;
pub mod clock;
pub mod errors;
pub mod identity;
pub mod instructions;
pub mod key;
pub mod laws;
pub mod state;
