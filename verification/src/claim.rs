//! What a claim has to pass, and what it changes: the rules of the claim
//! orchestrator as functions of the state before the claim.

use crate::bytes::decimal_digits;
use crate::error::ContractErrorView;
use crate::hexcode::{decoded_exact, HexError};
use crate::merkle::proof_verifies;
use crate::response::InstructionView;
use crate::signature::binding_check;
use crate::stages::{record_claim_check, record_claim_effect};
use crate::state::{AirdropView, BlockInfo, StageView};
use vstd::prelude::*;
use vstd::utf8::encode_utf8;

verus! {

/// The bytes that are hashed into a leaf: the identity, followed without a
/// separator by the amount in decimal.
pub open spec fn leaf_input(eth_pubkey: Seq<char>, amount: u128) -> Seq<u8> {
    encode_utf8(eth_pubkey) + decimal_digits(amount as nat)
}

/// The siblings that a proof of hexadecimal strings stands for, or the
/// error of the first string that is not 64 hexadecimal digits.
pub open spec fn decoded_proof(proof: Seq<Seq<char>>) -> Result<Seq<Seq<u8>>, HexError>
    decreases proof.len(),
{
    if proof.len() == 0 {
        Ok(Seq::empty())
    } else {
        match decoded_proof(proof.drop_last()) {
            Err(e) => Err(e),
            Ok(before) => match decoded_exact(encode_utf8(proof.last()), 32) {
                Err(e) => Err(e),
                Ok(sibling) => Ok(before.push(sibling)),
            },
        }
    }
}

/// The outcome of the Merkle check of a claim against a root given as
/// text. A sibling or a root that does not decode is an input error, told
/// apart from a proof that does not lead to the root; the siblings are
/// decoded before the root.
pub open spec fn merkle_check(
    merkle_root: Seq<char>,
    eth_pubkey: Seq<char>,
    amount: u128,
    proof: Seq<Seq<char>>,
) -> Result<(), ContractErrorView> {
    match decoded_proof(proof) {
        Err(e) => Err(ContractErrorView::Hex(e)),
        Ok(siblings) => match decoded_exact(encode_utf8(merkle_root), 32) {
            Err(e) => Err(ContractErrorView::Hex(e)),
            Ok(root) => if proof_verifies(root, leaf_input(eth_pubkey, amount), siblings) {
                Ok(())
            } else {
                Err(ContractErrorView::VerificationFailed)
            },
        },
    }
}

/// Whether the stage `id` takes claims at `block`: it has begun and has
/// not expired.
pub open spec fn window_check(stage: StageView, id: u64, block: BlockInfo) -> Result<
    (),
    ContractErrorView,
> {
    if !stage.begun(block) {
        Err(ContractErrorView::StageNotBegun { stage: id, start: stage.start->0 })
    } else if stage.expiration.expired(block) {
        Err(ContractErrorView::StageExpired { stage: id, expiration: stage.expiration })
    } else {
        Ok(())
    }
}

/// What can be said of a claim before any signature or proof is looked
/// at: the stage must be open, the engine not paused, and the identity
/// must not have claimed in this stage.
pub open spec fn claim_precheck(pre: AirdropView, block: BlockInfo, eth_pubkey: Seq<char>) -> Result<
    (),
    ContractErrorView,
> {
    let id = pre.latest_stage();
    if window_check(pre.current(), id, block) is Err {
        window_check(pre.current(), id, block)
    } else if pre.paused {
        Err(ContractErrorView::Paused)
    } else if pre.ledger.has_claimed(eth_pubkey, id) {
        Err(ContractErrorView::AlreadyClaimed)
    } else {
        Ok(())
    }
}

/// Whether a claim is accepted, and if not, why. The checks are made in
/// this order: stage window, pause, already claimed, identity binding,
/// Merkle proof, and what is left of the stage.
pub open spec fn claim_check(
    pre: AirdropView,
    block: BlockInfo,
    eth_pubkey: Seq<char>,
    amount: u128,
    proof: Seq<Seq<char>>,
    binding: Result<bool, ContractErrorView>,
) -> Result<(), ContractErrorView> {
    let id = pre.latest_stage();
    if claim_precheck(pre, block, eth_pubkey) is Err {
        claim_precheck(pre, block, eth_pubkey)
    } else if binding_check(binding, eth_pubkey) is Err {
        binding_check(binding, eth_pubkey)
    } else if merkle_check(pre.current().merkle_root, eth_pubkey, amount, proof) is Err {
        merkle_check(pre.current().merkle_root, eth_pubkey, amount, proof)
    } else {
        record_claim_check(pre.stages, id, amount)
    }
}

/// The state after an accepted claim: the identity is recorded for the
/// stage, the stage's claimed amount has grown by `amount`, and the
/// identity's claim count by one.
pub open spec fn claim_effect(pre: AirdropView, eth_pubkey: Seq<char>, amount: u128) -> AirdropView {
    let id = pre.latest_stage();
    AirdropView {
        stages: record_claim_effect(pre.stages, id, amount),
        ledger: pre.ledger.mark_claimed(eth_pubkey, id).increment_claim_count(eth_pubkey),
        ..pre
    }
}

/// What an accepted claim hands back: one transfer of `amount` to the
/// calling account.
pub open spec fn claim_response(sender: Seq<char>, amount: u128) -> Seq<InstructionView> {
    seq![InstructionView::Transfer { to_address: sender, amount }]
}

/// An error met in a part of a proof is the error of the whole proof.
pub proof fn lemma_decoded_proof_error(proof: Seq<Seq<char>>, upto: int)
    requires
        0 <= upto <= proof.len(),
        decoded_proof(proof.take(upto)) is Err,
    ensures
        decoded_proof(proof) == decoded_proof(proof.take(upto)),
    decreases proof.len() - upto,
{
    if upto == proof.len() {
        assert(proof.take(upto) =~= proof);
    } else {
        assert(proof.take(upto + 1).drop_last() =~= proof.take(upto));
        lemma_decoded_proof_error(proof, upto + 1);
    }
}

} // verus!
