//! A single-owner task list kept in a CosmWasm contract's storage.
//!
//! One address, the owner, may create, change and delete entries and hand
//! the list over to another address; anyone may read.

pub mod contract;
pub mod error;
pub mod host;
pub mod laws;
pub mod model;
pub mod msg;
pub mod state;
