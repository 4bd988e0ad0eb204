//! The queries of the claim engine.

use crate::error::{ContractError, ContractErrorView};
use crate::lifecycle::stage_or_latest;
use crate::msg::{
    ConfigResponse, IsClaimedResponse, LatestStageResponse, MerkleRootResponse, QueryMsg,
    QueryResponse, TotalClaimedResponse,
};
use crate::response::text_view;
use crate::state::{stage_at, stage_exists, Airdrop, Owner, Stage};
use vstd::prelude::*;

verus! {

/// The stage that a query means, with its number: the one named, or the
/// latest if none is named.
pub fn resolve_stage(state: &Airdrop, stage: Option<u64>) -> (r: Result<(u64, &Stage), ContractError>)
    requires
        state@.wf(),
    ensures
        match r {
            Ok((id, found)) => id == stage_or_latest(state@, stage) && stage_exists(
                state@.stages,
                id,
            ) && found@ == stage_at(state@.stages, id),
            Err(e) => !stage_exists(state@.stages, stage_or_latest(state@, stage)) && e@ == (
            ContractErrorView::StageNotFound { stage: stage_or_latest(state@, stage) }),
        },
{
    let id = match stage {
        Some(id) => id,
        None => state.registry.latest_stage(),
    };
    match state.registry.get_stage(id) {
        Some(found) => Ok((id, found)),
        None => Err(ContractError::StageNotFound { stage: id }),
    }
}

/// The owner, if the engine is not frozen, and the message template.
pub fn query_config(state: &Airdrop) -> (r: ConfigResponse)
    ensures
        text_view(r.owner) == state@.config.owner,
        r.claim_msg_plaintext@ == state@.config.claim_msg_plaintext,
{
    let owner = match &state.config.owner {
        Owner::Owned(owner) => Some(owner.clone()),
        Owner::Frozen => None,
    };
    ConfigResponse { owner, claim_msg_plaintext: state.config.claim_msg_plaintext.clone() }
}

/// The root, the window and the committed amount of a stage.
pub fn query_merkle_root(state: &Airdrop, stage: Option<u64>) -> (r: Result<
    MerkleRootResponse,
    ContractError,
>)
    requires
        state@.wf(),
    ensures
        match r {
            Ok(found) => {
                let id = stage_or_latest(state@, stage);
                &&& stage_exists(state@.stages, id)
                &&& found.stage == id
                &&& found.merkle_root@ == stage_at(state@.stages, id).merkle_root
                &&& found.start == stage_at(state@.stages, id).start
                &&& found.expiration == stage_at(state@.stages, id).expiration
                &&& found.total_amount == stage_at(state@.stages, id).total_amount
            },
            Err(e) => !stage_exists(state@.stages, stage_or_latest(state@, stage)) && e@ == (
            ContractErrorView::StageNotFound { stage: stage_or_latest(state@, stage) }),
        },
{
    match resolve_stage(state, stage) {
        Ok((id, found)) => Ok(
            MerkleRootResponse {
                stage: id,
                merkle_root: found.merkle_root.clone(),
                start: found.start,
                expiration: found.expiration,
                total_amount: found.total_amount,
            },
        ),
        Err(e) => Err(e),
    }
}

/// Whether `address` has claimed in a stage. In a stage that does not
/// exist nobody has claimed.
pub fn query_is_claimed(state: &Airdrop, stage: Option<u64>, address: String) -> (r:
    IsClaimedResponse)
    requires
        state@.wf(),
    ensures
        r.is_claimed == state@.ledger.has_claimed(address@, stage_or_latest(state@, stage)),
{
    let id = match stage {
        Some(id) => id,
        None => state.registry.latest_stage(),
    };
    IsClaimedResponse { is_claimed: state.ledger.has_claimed(&address, id) }
}

/// The amount claimed in a stage so far.
pub fn query_total_claimed(state: &Airdrop, stage: Option<u64>) -> (r: Result<
    TotalClaimedResponse,
    ContractError,
>)
    requires
        state@.wf(),
    ensures
        match r {
            Ok(found) => stage_exists(state@.stages, stage_or_latest(state@, stage))
                && found.total_claimed == stage_at(
                state@.stages,
                stage_or_latest(state@, stage),
            ).claimed_amount,
            Err(e) => !stage_exists(state@.stages, stage_or_latest(state@, stage)) && e@ == (
            ContractErrorView::StageNotFound { stage: stage_or_latest(state@, stage) }),
        },
{
    match resolve_stage(state, stage) {
        Ok((_, found)) => Ok(TotalClaimedResponse { total_claimed: found.claimed_amount }),
        Err(e) => Err(e),
    }
}

/// The number of the stage registered last.
pub fn query_latest_stage(state: &Airdrop) -> (r: LatestStageResponse)
    requires
        state@.wf(),
    ensures
        r.latest_stage == state@.latest_stage(),
{
    LatestStageResponse { latest_stage: state.registry.latest_stage() }
}

/// Answers a query.
pub fn query(state: &Airdrop, msg: QueryMsg) -> (r: Result<QueryResponse, ContractError>)
    requires
        state@.wf(),
    ensures
        match msg {
            QueryMsg::Config {  } => r matches Ok(QueryResponse::Config(found)) && text_view(
                found.owner,
            ) == state@.config.owner && found.claim_msg_plaintext@
                == state@.config.claim_msg_plaintext,
            QueryMsg::MerkleRoot { stage } => {
                let id = stage_or_latest(state@, stage);
                if stage_exists(state@.stages, id) {
                    r matches Ok(QueryResponse::MerkleRoot(found)) && found.stage == id
                        && found.merkle_root@ == stage_at(state@.stages, id).merkle_root
                        && found.start == stage_at(state@.stages, id).start && found.expiration
                        == stage_at(state@.stages, id).expiration && found.total_amount
                        == stage_at(state@.stages, id).total_amount
                } else {
                    r matches Err(e) && e@ == (ContractErrorView::StageNotFound { stage: id })
                }
            },
            QueryMsg::IsClaimed { stage, address } => r matches Ok(
                QueryResponse::IsClaimed(found),
            ) && found.is_claimed == state@.ledger.has_claimed(
                address@,
                stage_or_latest(state@, stage),
            ),
            QueryMsg::TotalClaimed { stage } => {
                let id = stage_or_latest(state@, stage);
                if stage_exists(state@.stages, id) {
                    r matches Ok(QueryResponse::TotalClaimed(found)) && found.total_claimed
                        == stage_at(state@.stages, id).claimed_amount
                } else {
                    r matches Err(e) && e@ == (ContractErrorView::StageNotFound { stage: id })
                }
            },
            QueryMsg::LatestStage {  } => r matches Ok(QueryResponse::LatestStage(found))
                && found.latest_stage == state@.latest_stage(),
        },
{
    match msg {
        QueryMsg::Config {  } => Ok(QueryResponse::Config(query_config(state))),
        QueryMsg::MerkleRoot { stage } => match query_merkle_root(state, stage) {
            Ok(found) => Ok(QueryResponse::MerkleRoot(found)),
            Err(e) => Err(e),
        },
        QueryMsg::IsClaimed { stage, address } => Ok(
            QueryResponse::IsClaimed(query_is_claimed(state, stage, address)),
        ),
        QueryMsg::TotalClaimed { stage } => match query_total_claimed(state, stage) {
            Ok(found) => Ok(QueryResponse::TotalClaimed(found)),
            Err(e) => Err(e),
        },
        QueryMsg::LatestStage {  } => Ok(QueryResponse::LatestStage(query_latest_stage(state))),
    }
}

} // verus!
