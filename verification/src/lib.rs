//! Migration of a mint's persisted state from an embedded key-value store to a
//! relational store, together with the reconciliation checks that confirm the
//! two stores describe the same logical state.
//!
//! The store contents are modelled as plain-value snapshots; reading and
//! writing the actual store files is left to the surrounding binary.

pub mod bytes;
pub mod cli;
pub mod codec;
pub mod migrate;
pub mod model;
pub mod reconcile;
pub mod verify_blind_signatures;
pub mod verify_migration;
