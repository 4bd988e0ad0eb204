//! What holds of the claim engine in every state.

use crate::claim::{claim_check, claim_effect, claim_precheck, window_check};
use crate::contract::execute_outcome;
use crate::msg::ExecuteMsg;
use crate::stages::lemma_root_text;
use crate::error::ContractErrorView;
use crate::lifecycle::{clawback_check, clawback_response, pause_check, resume_check, with_paused};
use crate::response::InstructionView;
use crate::signature::identity_binding_with;
use crate::state::{AirdropView, BlockInfo, StagePhase, StageView};
use vstd::prelude::*;

verus! {

/// An accepted claim keeps the state well formed: no stage pays out more
/// than was committed to it.
pub proof fn lemma_claim_keeps_wf(
    pre: AirdropView,
    block: BlockInfo,
    eth_pubkey: Seq<char>,
    amount: u128,
    proof: Seq<Seq<char>>,
    binding: Result<bool, ContractErrorView>,
)
    requires
        pre.wf(),
        claim_check(pre, block, eth_pubkey, amount, proof, binding) is Ok,
    ensures
        claim_effect(pre, eth_pubkey, amount).wf(),
{
    let post = claim_effect(pre, eth_pubkey, amount);
    assert forall|i: int| 0 <= i < post.stages.len() implies (#[trigger] post.stages[i]).wf() by {
        assert(pre.stages[i].wf());
    }
}

/// Idempotency: after an accepted claim, a second claim for the same
/// identity in the same stage is rejected as already claimed, whatever
/// signature and proof come with it, and changes nothing: the claimed
/// amount of the stage has grown by the amount exactly once. The second
/// claim is one made while the stage is still open.
pub proof fn lemma_second_claim_rejected(
    pre: AirdropView,
    block: BlockInfo,
    eth_pubkey: Seq<char>,
    amount: u128,
    proof: Seq<Seq<char>>,
    binding: Result<bool, ContractErrorView>,
    later: BlockInfo,
    second_amount: u128,
    second_proof: Seq<Seq<char>>,
    second_binding: Result<bool, ContractErrorView>,
)
    requires
        pre.wf(),
        claim_check(pre, block, eth_pubkey, amount, proof, binding) is Ok,
        pre.current().phase(later) == StagePhase::Open,
    ensures
        claim_effect(pre, eth_pubkey, amount).wf(),
        claim_effect(pre, eth_pubkey, amount).ledger.has_claimed(eth_pubkey, pre.latest_stage()),
        claim_effect(pre, eth_pubkey, amount).current().claimed_amount
            == pre.current().claimed_amount + amount,
        claim_check(
            claim_effect(pre, eth_pubkey, amount),
            later,
            eth_pubkey,
            second_amount,
            second_proof,
            second_binding,
        ) == Err::<(), ContractErrorView>(ContractErrorView::AlreadyClaimed),
{
    lemma_claim_keeps_wf(pre, block, eth_pubkey, amount, proof, binding);
    let post = claim_effect(pre, eth_pubkey, amount);
    assert(post.current().start == pre.current().start);
    assert(post.current().expiration == pre.current().expiration);
    assert(window_check(post.current(), post.latest_stage(), later) is Ok);
    assert(claim_precheck(post, later, eth_pubkey) == Err::<(), ContractErrorView>(
        ContractErrorView::AlreadyClaimed,
    ));
}

/// A claim leaves what it does not concern as it was: every other stage,
/// the claim records of other identities and stages, the pause flag and
/// the configuration.
pub proof fn lemma_claim_frame(
    pre: AirdropView,
    eth_pubkey: Seq<char>,
    amount: u128,
    other: Seq<char>,
    stage: u64,
)
    requires
        pre.wf(),
    ensures
        claim_effect(pre, eth_pubkey, amount).paused == pre.paused,
        claim_effect(pre, eth_pubkey, amount).config == pre.config,
        claim_effect(pre, eth_pubkey, amount).stages.len() == pre.stages.len(),
        1 <= stage < pre.latest_stage() ==> claim_effect(pre, eth_pubkey, amount).stages[stage - 1]
            == pre.stages[stage - 1],
        (other != eth_pubkey || stage != pre.latest_stage()) ==> claim_effect(
            pre,
            eth_pubkey,
            amount,
        ).ledger.has_claimed(other, stage) == pre.ledger.has_claimed(other, stage),
        other != eth_pubkey ==> claim_effect(pre, eth_pubkey, amount).ledger.claim_count(other)
            == pre.ledger.claim_count(other),
        claim_effect(pre, eth_pubkey, amount).ledger.claim_count(eth_pubkey)
            >= pre.ledger.claim_count(eth_pubkey),
{
}

/// Whether a binding outcome is not itself a window error. The outcome of
/// the identity binding never is.
pub open spec fn binding_names_no_window(binding: Result<bool, ContractErrorView>) -> bool {
    !(binding matches Err(e) && (e is StageNotBegun || e is StageExpired))
}

/// The identity binding gives no window error.
pub proof fn lemma_identity_binding_names_no_window(
    eth_sig: Seq<char>,
    verdict: Result<bool, Seq<char>>,
)
    ensures
        binding_names_no_window(identity_binding_with(eth_sig, verdict)),
{
}

/// Window enforcement: a claim before the start of the stage is rejected
/// as not begun; a claim at or after the expiration of a stage that has
/// begun is rejected as expired; a claim inside the window is judged by
/// the checks that follow, and is rejected for neither reason.
pub proof fn lemma_window_enforced(
    pre: AirdropView,
    block: BlockInfo,
    eth_pubkey: Seq<char>,
    amount: u128,
    proof: Seq<Seq<char>>,
    binding: Result<bool, ContractErrorView>,
)
    requires
        pre.wf(),
    ensures
        pre.current().phase(block) == StagePhase::NotYetOpen ==> claim_check(
            pre,
            block,
            eth_pubkey,
            amount,
            proof,
            binding,
        ) == Err::<(), ContractErrorView>(
            ContractErrorView::StageNotBegun {
                stage: pre.latest_stage(),
                start: pre.current().start->0,
            },
        ),
        pre.current().phase(block) == StagePhase::Expired ==> claim_check(
            pre,
            block,
            eth_pubkey,
            amount,
            proof,
            binding,
        ) == Err::<(), ContractErrorView>(
            ContractErrorView::StageExpired {
                stage: pre.latest_stage(),
                expiration: pre.current().expiration,
            },
        ),
        pre.current().phase(block) == StagePhase::Open && binding_names_no_window(binding) ==> !(
        claim_check(pre, block, eth_pubkey, amount, proof, binding) matches Err(e) && (e
            is StageNotBegun || e is StageExpired)),
{
    if pre.current().phase(block) == StagePhase::Open {
        assert(window_check(pre.current(), pre.latest_stage(), block) is Ok);
    }
}

/// Pause gating: while the engine is paused, a claim in an open stage is
/// rejected as paused, whatever signature and proof come with it.
pub proof fn lemma_paused_rejects_claims(
    pre: AirdropView,
    block: BlockInfo,
    eth_pubkey: Seq<char>,
    amount: u128,
    proof: Seq<Seq<char>>,
    binding: Result<bool, ContractErrorView>,
)
    requires
        pre.wf(),
        pre.paused,
        pre.current().phase(block) == StagePhase::Open,
    ensures
        claim_check(pre, block, eth_pubkey, amount, proof, binding) == Err::<
            (),
            ContractErrorView,
        >(ContractErrorView::Paused),
{
    assert(window_check(pre.current(), pre.latest_stage(), block) is Ok);
}

/// Pausing is not guarded against repetition: the owner's pause in an open
/// stage is accepted whether or not the engine is paused already, and a
/// second pause leaves the state as the first one left it.
pub proof fn lemma_pause_repeats(pre: AirdropView, block: BlockInfo, sender: Seq<char>)
    requires
        pre.wf(),
        pre.is_owner(sender),
        pre.current().phase(block) == StagePhase::Open,
    ensures
        pause_check(pre, block, sender) is Ok,
        pause_check(with_paused(pre, true), block, sender) is Ok,
        with_paused(with_paused(pre, true), true) == with_paused(pre, true),
{
    assert(window_check(pre.current(), pre.latest_stage(), block) is Ok);
}

/// Pause gating: the owner's attempt to resume an engine that is not
/// paused is rejected as not paused.
pub proof fn lemma_resume_needs_pause(pre: AirdropView, block: BlockInfo, sender: Seq<char>)
    requires
        pre.wf(),
        pre.is_owner(sender),
        !pre.paused,
    ensures
        resume_check(pre, block, sender) == Err::<(), ContractErrorView>(
            ContractErrorView::NotPaused,
        ),
{
}

/// Clawback timing: before the expiration of the current stage the owner's
/// clawback is rejected; from the expiration on it is accepted, and the
/// amount it names is the committed amount less the claimed amount.
pub proof fn lemma_clawback_timing(
    pre: AirdropView,
    block: BlockInfo,
    sender: Seq<char>,
    recipient: Option<Seq<char>>,
)
    requires
        pre.wf(),
        pre.is_owner(sender),
    ensures
        !pre.current().expiration.expired(block) ==> clawback_check(pre, block, sender) == Err::<
            (),
            ContractErrorView,
        >(
            ContractErrorView::StageNotExpired {
                stage: pre.latest_stage(),
                expiration: pre.current().expiration,
            },
        ),
        pre.current().expiration.expired(block) ==> clawback_check(pre, block, sender) is Ok,
        clawback_response(pre, recipient) == seq![
            InstructionView::ClawBack {
                recipient,
                amount: (pre.current().total_amount - pre.current().claimed_amount) as u128,
            },
        ],
        0 <= pre.current().total_amount - pre.current().claimed_amount <= u128::MAX,
{
    assert(pre.current().wf());
}

/// What a command can and cannot do to a stage that exists: the root, the
/// window and the committed amount stay, and the claimed amount does not
/// fall.
pub open spec fn stage_kept(before: StageView, after: StageView) -> bool {
    &&& after.merkle_root == before.merkle_root
    &&& after.start == before.start
    &&& after.expiration == before.expiration
    &&& after.total_amount == before.total_amount
    &&& after.claimed_amount >= before.claimed_amount
}

/// The invariants of the engine: whatever command is carried out, and
/// whether it is accepted or rejected, the state stays well formed (no
/// stage pays out more than was committed to it); no stage is removed or
/// altered but for its claimed amount, which does not fall; no claim
/// record is taken back and no claim count falls; and an engine that is
/// frozen stays frozen.
pub proof fn lemma_execute_keeps_invariants(
    pre: AirdropView,
    block: BlockInfo,
    sender: Seq<char>,
    msg: ExecuteMsg,
)
    requires
        pre.wf(),
        pre.stages.len() < u64::MAX,
    ensures
        execute_outcome(pre, block, sender, msg).1.wf(),
        execute_outcome(pre, block, sender, msg).0 is Err ==> execute_outcome(
            pre,
            block,
            sender,
            msg,
        ).1 == pre,
        execute_outcome(pre, block, sender, msg).1.stages.len() >= pre.stages.len(),
        forall|i: int|
            0 <= i < pre.stages.len() ==> stage_kept(
                #[trigger] pre.stages[i],
                execute_outcome(pre, block, sender, msg).1.stages[i],
            ),
        forall|address: Seq<char>, stage: u64|
            pre.ledger.has_claimed(address, stage) ==> #[trigger] execute_outcome(
                pre,
                block,
                sender,
                msg,
            ).1.ledger.has_claimed(address, stage),
        forall|address: Seq<char>|
            pre.ledger.claim_count(address) <= #[trigger] execute_outcome(
                pre,
                block,
                sender,
                msg,
            ).1.ledger.claim_count(address),
        pre.config.owner is None ==> execute_outcome(pre, block, sender, msg).1.config.owner
            is None,
{
    let post = execute_outcome(pre, block, sender, msg).1;
    if execute_outcome(pre, block, sender, msg).0 is Ok {
        match msg {
            ExecuteMsg::Claim { amount, eth_pubkey, eth_sig, proof } => {
                assert forall|i: int| 0 <= i < post.stages.len() implies (
                #[trigger] post.stages[i]).wf() by {
                    assert(pre.stages[i].wf());
                }
            },
            ExecuteMsg::RegisterMerkleRoot { merkle_root, expiration, start, total_amount } => {
                lemma_root_text(merkle_root@);
                assert forall|i: int| 0 <= i < post.stages.len() implies (
                #[trigger] post.stages[i]).wf() by {
                    if i < pre.stages.len() {
                        assert(pre.stages[i].wf());
                    }
                }
            },
            _ => {},
        }
    }
}

} // verus!
