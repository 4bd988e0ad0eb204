//! The commands and queries of the registry-backed claim engine.

use crate::goop::msg::Member;
use vstd::prelude::*;

verus! {

/// What the engine is set up with, and its registry with it.
#[derive(Clone, Debug, PartialEq, Eq)]
pub struct InstantiateMsg {
    /// The admins of the registry.
    pub admin: Vec<String>,
    pub admins_mutable: bool,
    pub claim_msg_plaintext: String,
    /// The first members of the registry.
    pub members: Vec<Member>,
    /// The code that the registry is set up from.
    pub cw_goop_id: u64,
    pub claim_limit: u32,
}

#[derive(Clone, Copy, Debug, PartialEq, Eq)]
pub struct HeadstashClaimResponse {
    pub result: bool,
    pub amount: u32,
}

#[derive(Clone, Debug, PartialEq, Eq)]
pub enum ExecuteMsg {
    ClaimHeadstash { eth_address: String, eth_sig: String },
}

#[derive(Clone, Debug, PartialEq, Eq)]
pub enum QueryMsg {
    HeadstashEligible { eth_address: String },
}

/// What the host reports of a sub-message: the data it gave back, or why
/// it failed.
#[derive(Clone, Debug, PartialEq, Eq)]
pub enum SubMsgResult {
    Success { data: Option<Vec<u8>> },
    Failure(String),
}

/// The report on the sub-message that was sent under the number `id`.
#[derive(Clone, Debug, PartialEq, Eq)]
pub struct Reply {
    pub id: u64,
    pub result: SubMsgResult,
}

/// The voting power of a member at a height.
#[derive(Clone, Copy, Debug, PartialEq, Eq)]
pub struct VotingPowerAtHeightResponse {
    pub power: u128,
    pub height: u64,
}

} // verus!
