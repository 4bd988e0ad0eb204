//! The rules of the administrative operations, as functions of the state
//! before the operation.

use crate::claim::window_check;
use crate::error::ContractErrorView;
use crate::hexcode::decoded_exact;
use crate::ledger::LedgerView;
use crate::response::InstructionView;
use crate::stages::fresh_stage;
use crate::state::{AirdropView, BlockInfo, ConfigView, Expiration, Scheduled};
use vstd::prelude::*;
use vstd::utf8::encode_utf8;

verus! {

/// The amount committed to a stage for which none was given: zero.
pub open spec fn total_or_zero(total_amount: Option<u128>) -> u128 {
    match total_amount {
        Some(total) => total,
        None => 0,
    }
}

/// The expiration of a stage for which none was given: it never expires.
pub open spec fn expiration_or_never(expiration: Option<Expiration>) -> Expiration {
    match expiration {
        Some(expiration) => expiration,
        None => Expiration::Never,
    }
}

/// Whether the root given to a new engine or a new stage is accepted.
pub open spec fn root_check(merkle_root: Seq<char>) -> Result<(), ContractErrorView> {
    match decoded_exact(encode_utf8(merkle_root), 32) {
        Ok(_) => Ok(()),
        Err(e) => Err(ContractErrorView::Hex(e)),
    }
}

/// The state of a new engine: the owner is the one named, or else the
/// sender; nothing is paused or claimed; the first stage has the window
/// given, is open at once if no start is given, and never expires if no
/// expiration is given.
pub open spec fn initial_state(
    sender: Seq<char>,
    owner: Option<Seq<char>>,
    claim_msg_plaintext: Seq<char>,
    merkle_root: Seq<char>,
    total_amount: Option<u128>,
    start: Option<Scheduled>,
    expiration: Option<Expiration>,
) -> AirdropView {
    AirdropView {
        config: ConfigView {
            owner: Some(
                match owner {
                    Some(owner) => owner,
                    None => sender,
                },
            ),
            claim_msg_plaintext,
        },
        paused: false,
        stages: seq![
            fresh_stage(
                merkle_root,
                start,
                expiration_or_never(expiration),
                total_or_zero(total_amount),
            ),
        ],
        ledger: LedgerView::empty(),
    }
}

/// Whether `sender` may administer the engine.
pub open spec fn owner_check(pre: AirdropView, sender: Seq<char>) -> Result<(), ContractErrorView> {
    if pre.is_owner(sender) {
        Ok(())
    } else {
        Err(ContractErrorView::Unauthorized)
    }
}

/// Whether the engine may be paused: by the owner, while the current stage
/// is open. An engine that is paused already may be paused again.
pub open spec fn pause_check(pre: AirdropView, block: BlockInfo, sender: Seq<char>) -> Result<
    (),
    ContractErrorView,
> {
    if !pre.is_owner(sender) {
        Err(ContractErrorView::Unauthorized)
    } else {
        window_check(pre.current(), pre.latest_stage(), block)
    }
}

/// Whether the engine may be resumed: by the owner, when it is paused,
/// while the current stage is open.
pub open spec fn resume_check(pre: AirdropView, block: BlockInfo, sender: Seq<char>) -> Result<
    (),
    ContractErrorView,
> {
    if !pre.is_owner(sender) {
        Err(ContractErrorView::Unauthorized)
    } else if !pre.paused {
        Err(ContractErrorView::NotPaused)
    } else {
        window_check(pre.current(), pre.latest_stage(), block)
    }
}

/// The state with the pause flag set to `paused`.
pub open spec fn with_paused(pre: AirdropView, paused: bool) -> AirdropView {
    AirdropView { paused, ..pre }
}

/// Whether the residue of the current stage may be clawed back: by the
/// owner, once the stage has expired. The current stage is the one
/// registered last; a stage that never expires is never clawed back.
pub open spec fn clawback_check(pre: AirdropView, block: BlockInfo, sender: Seq<char>) -> Result<
    (),
    ContractErrorView,
> {
    if !pre.is_owner(sender) {
        Err(ContractErrorView::Unauthorized)
    } else if !pre.current().expiration.expired(block) {
        Err(
            ContractErrorView::StageNotExpired {
                stage: pre.latest_stage(),
                expiration: pre.current().expiration,
            },
        )
    } else {
        Ok(())
    }
}

/// What a clawback hands back: one instruction for what is left of the
/// current stage, the committed amount less the claimed amount.
pub open spec fn clawback_response(pre: AirdropView, recipient: Option<Seq<char>>) -> Seq<
    InstructionView,
> {
    seq![InstructionView::ClawBack { recipient, amount: pre.current().residual() as u128 }]
}

/// Whether a new stage may be registered: by the owner, with a root of 64
/// hexadecimal digits.
pub open spec fn register_check(pre: AirdropView, sender: Seq<char>, merkle_root: Seq<char>) -> Result<
    (),
    ContractErrorView,
> {
    if !pre.is_owner(sender) {
        Err(ContractErrorView::Unauthorized)
    } else {
        root_check(merkle_root)
    }
}

/// The state after a stage was registered.
pub open spec fn register_effect(
    pre: AirdropView,
    merkle_root: Seq<char>,
    expiration: Option<Expiration>,
    start: Option<Scheduled>,
    total_amount: Option<u128>,
) -> AirdropView {
    AirdropView {
        stages: pre.stages.push(
            fresh_stage(
                merkle_root,
                start,
                expiration_or_never(expiration),
                total_or_zero(total_amount),
            ),
        ),
        ..pre
    }
}

/// The state after the owner was replaced by `new_owner`, or the engine
/// frozen if there is none.
pub open spec fn update_config_effect(pre: AirdropView, new_owner: Option<Seq<char>>) -> AirdropView {
    AirdropView {
        config: ConfigView { owner: new_owner, claim_msg_plaintext: pre.config.claim_msg_plaintext },
        ..pre
    }
}

/// An operation's outcome and the state after it: the response and the
/// new state if the check passed, else the error and the state as it was.
pub open spec fn outcome_of(
    check: Result<(), ContractErrorView>,
    response: Seq<InstructionView>,
    post: AirdropView,
    pre: AirdropView,
) -> (Result<Seq<InstructionView>, ContractErrorView>, AirdropView) {
    match check {
        Ok(()) => (Ok(response), post),
        Err(e) => (Err(e), pre),
    }
}

/// The number of the stage that a query means.
pub open spec fn stage_or_latest(pre: AirdropView, stage: Option<u64>) -> u64 {
    match stage {
        Some(id) => id,
        None => pre.latest_stage(),
    }
}

} // verus!
