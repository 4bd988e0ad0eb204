//! The membership registry: a capacity-bounded allowlist of identities,
//! each with its allocation and its claim count.

pub mod admin;
pub mod contract;
pub mod error;
pub mod helpers;
pub mod laws;
pub mod members;
pub mod msg;
pub mod state;
