//! A verified claim engine for token distributions: Merkle-proof and
//! registry-backed eligibility, signature binding of a foreign identity,
//! an idempotent claim ledger and the staged lifecycle around them.

pub mod bytes;
pub mod claim;
pub mod claim_headstash;
pub mod contract;
pub mod contract_laws;
pub mod error;
pub mod goop;
pub mod hexcode;
pub mod ledger;
pub mod lifecycle;
pub mod merkle;
pub mod merkle_laws;
pub mod msg;
pub mod query;
pub mod response;
pub mod signature;
pub mod stages;
pub mod state;
pub mod text;
