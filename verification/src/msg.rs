//! The commands and queries of the claim engine, and the answers to the
//! queries.

use crate::state::{Expiration, Scheduled};
use vstd::prelude::*;

verus! {

/// What the engine is set up with.
#[derive(Clone, Debug, PartialEq, Eq)]
pub struct InstantiateMsg {
    /// The owner; the sender if there is none.
    pub owner: Option<String>,
    /// The message that claimants sign, with `{wallet}` for their account.
    pub claim_msg_plaintext: String,
    /// The root of the first stage, as 64 hexadecimal digits.
    pub merkle_root: String,
    /// The amount committed to the first stage; zero if there is none.
    pub total_amount: Option<u128>,
}

/// The commands.
#[derive(Clone, Debug, PartialEq, Eq)]
pub enum ExecuteMsg {
    /// Claims `amount` for the identity `eth_pubkey`, which signed
    /// `eth_sig`; `proof` holds the siblings as hexadecimal strings.
    Claim { amount: u128, eth_pubkey: String, eth_sig: String, proof: Vec<String> },
    /// Recycles what is left of the current stage once it has expired.
    ClawBack { recipient: String },
    Pause {},
    Resume {},
    /// Registers the next stage.
    RegisterMerkleRoot {
        merkle_root: String,
        expiration: Option<Expiration>,
        start: Option<Scheduled>,
        total_amount: Option<u128>,
    },
    /// Hands the engine to a new owner, or freezes it for good.
    UpdateConfig { new_owner: Option<String> },
}

/// The queries. Where `stage` is left out, the latest stage is meant.
#[derive(Clone, Debug, PartialEq, Eq)]
pub enum QueryMsg {
    Config {},
    MerkleRoot { stage: Option<u64> },
    IsClaimed { stage: Option<u64>, address: String },
    TotalClaimed { stage: Option<u64> },
    LatestStage {},
}

#[derive(Clone, Debug, PartialEq, Eq)]
pub struct ConfigResponse {
    pub owner: Option<String>,
    pub claim_msg_plaintext: String,
}

#[derive(Clone, Debug, PartialEq, Eq)]
pub struct MerkleRootResponse {
    pub stage: u64,
    /// The root as 64 hexadecimal digits.
    pub merkle_root: String,
    pub start: Option<Scheduled>,
    pub expiration: Expiration,
    pub total_amount: u128,
}

#[derive(Clone, Copy, Debug, PartialEq, Eq)]
pub struct IsClaimedResponse {
    pub is_claimed: bool,
}

#[derive(Clone, Copy, Debug, PartialEq, Eq)]
pub struct TotalClaimedResponse {
    pub total_claimed: u128,
}

#[derive(Clone, Copy, Debug, PartialEq, Eq)]
pub struct LatestStageResponse {
    pub latest_stage: u64,
}

#[derive(Clone, Copy, Debug, PartialEq, Eq)]
pub struct MigrateMsg {}

/// The answer to a query.
#[derive(Clone, Debug, PartialEq, Eq)]
pub enum QueryResponse {
    Config(ConfigResponse),
    MerkleRoot(MerkleRootResponse),
    IsClaimed(IsClaimedResponse),
    TotalClaimed(TotalClaimedResponse),
    LatestStage(LatestStageResponse),
}

} // verus!
