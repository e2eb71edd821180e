//! A permissioned registry of reference records together with a fixed
//! catalogue of economic actions.
//!
//! Registered accounts create, overwrite and delete units, spatial things,
//! process specifications and resource specifications. Every public
//! operation is stated against the abstract state machine in [`model`].

pub mod records;
pub mod model;
pub mod store;
pub mod agent;
pub mod laws;
pub mod action;
pub mod rpc;
