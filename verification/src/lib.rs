//! A name-registration service for an asynchronous blockchain host, modelled
//! as two verified state machines.
//!
//! The `registry` owns the name-to-token mapping, per-name expiration dates,
//! per-account default-name pointers and pricing; the `resolver` is the
//! per-name record store the registry deploys as a sub-account.  Every
//! ambient fact a contract reads from its host (caller, signer, attached
//! deposit, block time) is an explicit [`types::CallContext`] parameter, and
//! every outbound cross-contract call is returned as a plain action value
//! that the unverified shell dispatches.

pub mod assoc_map;
pub mod core_impl;
pub mod encode;
pub mod expire;
pub mod laws;
pub mod price;
pub mod register;
pub mod registry;
pub mod resolver;
pub mod setup;
pub mod types;
