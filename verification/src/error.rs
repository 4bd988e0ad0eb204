//! The ways in which an operation of the claim engine is rejected.

use crate::hexcode::HexError;
use crate::state::{Expiration, Scheduled};
use vstd::prelude::*;

verus! {

/// Why an operation was rejected. A rejected operation changes nothing.
#[derive(Clone, Debug, PartialEq, Eq)]
pub enum ContractError {
    /// The signature check could not be carried out; `msg` says why.
    Std { msg: String },
    /// The signature is not a hexadecimal string.
    InvalidHex { msg: String },
    /// A root or a proof sibling is not 32 bytes in hexadecimal.
    Hex(HexError),
    /// The sender is not the owner, or the engine is frozen.
    Unauthorized {},
    Paused {},
    NotPaused {},
    AlreadyClaimed {},
    /// The proof does not lead to the committed root.
    VerificationFailed {},
    /// The signature does not bind the identity to the sender, or the
    /// registry does not know the identity.
    AddressNotEligible { address: String },
    StageNotBegun { stage: u64, start: Scheduled },
    StageExpired { stage: u64, expiration: Expiration },
    StageNotExpired { stage: u64, expiration: Expiration },
    /// No stage has the number `stage`.
    StageNotFound { stage: u64 },
    /// The claim would take more from the stage than is left of it.
    TotalExceeded { stage: u64, residual: u128 },
    /// The stored state belongs to another contract.
    CannotMigrate { previous_contract: String },
    /// The identity has used up its claims.
    ClaimCountReached { address: String },
    PlaintextMsgNoWallet {},
    PlaintextTooLong {},
    /// No registry is known yet.
    CwGoopAddressMissing {},
    /// No registry is known yet; `kind` names what is missing.
    NotFound { kind: String },
    InvalidReplyID {},
    ReplyOnSuccess {},
}

pub enum ContractErrorView {
    Std { msg: Seq<char> },
    InvalidHex { msg: Seq<char> },
    Hex(HexError),
    Unauthorized,
    Paused,
    NotPaused,
    AlreadyClaimed,
    VerificationFailed,
    AddressNotEligible { address: Seq<char> },
    StageNotBegun { stage: u64, start: Scheduled },
    StageExpired { stage: u64, expiration: Expiration },
    StageNotExpired { stage: u64, expiration: Expiration },
    StageNotFound { stage: u64 },
    TotalExceeded { stage: u64, residual: u128 },
    CannotMigrate { previous_contract: Seq<char> },
    ClaimCountReached { address: Seq<char> },
    PlaintextMsgNoWallet,
    PlaintextTooLong,
    CwGoopAddressMissing,
    NotFound { kind: Seq<char> },
    InvalidReplyID,
    ReplyOnSuccess,
}

impl View for ContractError {
    type V = ContractErrorView;

    open spec fn view(&self) -> ContractErrorView {
        match self {
            ContractError::Std { msg } => ContractErrorView::Std { msg: msg@ },
            ContractError::InvalidHex { msg } => ContractErrorView::InvalidHex { msg: msg@ },
            ContractError::Hex(e) => ContractErrorView::Hex(*e),
            ContractError::Unauthorized {  } => ContractErrorView::Unauthorized,
            ContractError::Paused {  } => ContractErrorView::Paused,
            ContractError::NotPaused {  } => ContractErrorView::NotPaused,
            ContractError::AlreadyClaimed {  } => ContractErrorView::AlreadyClaimed,
            ContractError::VerificationFailed {  } => ContractErrorView::VerificationFailed,
            ContractError::AddressNotEligible { address } => ContractErrorView::AddressNotEligible {
                address: address@,
            },
            ContractError::StageNotBegun { stage, start } => ContractErrorView::StageNotBegun {
                stage: *stage,
                start: *start,
            },
            ContractError::StageExpired { stage, expiration } => ContractErrorView::StageExpired {
                stage: *stage,
                expiration: *expiration,
            },
            ContractError::StageNotExpired { stage, expiration } => {
                ContractErrorView::StageNotExpired { stage: *stage, expiration: *expiration }
            },
            ContractError::StageNotFound { stage } => ContractErrorView::StageNotFound {
                stage: *stage,
            },
            ContractError::TotalExceeded { stage, residual } => ContractErrorView::TotalExceeded {
                stage: *stage,
                residual: *residual,
            },
            ContractError::CannotMigrate { previous_contract } => ContractErrorView::CannotMigrate {
                previous_contract: previous_contract@,
            },
            ContractError::ClaimCountReached { address } => ContractErrorView::ClaimCountReached {
                address: address@,
            },
            ContractError::PlaintextMsgNoWallet {  } => ContractErrorView::PlaintextMsgNoWallet,
            ContractError::PlaintextTooLong {  } => ContractErrorView::PlaintextTooLong,
            ContractError::CwGoopAddressMissing {  } => ContractErrorView::CwGoopAddressMissing,
            ContractError::NotFound { kind } => ContractErrorView::NotFound { kind: kind@ },
            ContractError::InvalidReplyID {  } => ContractErrorView::InvalidReplyID,
            ContractError::ReplyOnSuccess {  } => ContractErrorView::ReplyOnSuccess,
        }
    }
}

} // verus!
