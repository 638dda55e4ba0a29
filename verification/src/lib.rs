//! An identity-verification registry.
//!
//! Accounts submit self-asserted identity claims; a set of verifiers,
//! managed by the registry's owner, attests that a claim's proof hash
//! matches; read-only lookups expose verification status. Every
//! operation takes the authenticated caller as an explicit argument and
//! returns an explicit result; successful mutations append a
//! notification to an in-registry event log.

pub mod account;
pub mod identity;
pub mod laws;
pub mod registry;
