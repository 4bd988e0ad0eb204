//! The registry-backed claim engine: eligibility and amount come from a
//! membership registry, and an identity may claim up to the registry's
//! claim limit.

pub mod contract;
pub mod msg;
pub mod reply;
pub mod rules;
pub mod state;
