//! The validator-set manager of a permissioned chain.
//!
//! Administrators queue validators for activation or removal; once per session the
//! queues are reconciled with the active set. A validator is only queued with a
//! complete session key bundle, and no change may leave the set below a minimum.
//!
//! - `types`: identities, origins, errors and notifications.
//! - `config`: a chain's fixed parameters.
//! - `keys`: the announced key bundles and the readiness check on them.
//! - `merge`: the reconciliation of the active set with the queues.
//! - `pallet`: the manager itself.
//! - `laws`: what holds across calls.

pub mod config;
pub mod keys;
pub mod laws;
pub mod merge;
pub mod pallet;
pub mod types;
