//! The operations of the claim engine on its state.

use crate::bytes::u128_to_decimal;
use crate::claim::{
    claim_check, claim_effect, claim_precheck, claim_response, decoded_proof, leaf_input,
    lemma_decoded_proof_error, merkle_check,
};
use crate::error::{ContractError, ContractErrorView};
use crate::hexcode::HexError;
use crate::ledger::ClaimLedger;
use crate::lifecycle::{
    clawback_check, clawback_response, initial_state, outcome_of, owner_check, pause_check,
    register_check, register_effect, resume_check, root_check, update_config_effect, with_paused,
};
use crate::merkle::{siblings, verify_proof};
use crate::msg::{ExecuteMsg, InstantiateMsg, MigrateMsg};
use crate::response::{text_view, Instruction, InstructionView, Response};
use crate::signature::{
    binding_view, check_view, identity_binding, validate_eth_sig, validate_ethereum_text,
};
use crate::stages::{decode_digest, lemma_root_text};
use crate::state::{
    Airdrop, AirdropView, BlockInfo, Config, Expiration, Owner, Scheduled, StageRegistry,
};
use crate::text::texts;
use vstd::prelude::*;
use vstd::slice::slice_to_vec;
use vstd::string::StringExecFns;

verus! {

/// The name under which the engine's state is stored.
pub const CONTRACT_NAME: &'static str = "crates.io:cw20-vesting-airdrop";

/// An operation's outcome with its values viewed.
pub open spec fn response_view(outcome: Result<Response, ContractError>) -> Result<
    Seq<InstructionView>,
    ContractErrorView,
> {
    match outcome {
        Ok(response) => Ok(response@),
        Err(e) => Err(e@),
    }
}

/// The bytes that are hashed into the leaf of a claim.
pub fn build_leaf_input(eth_pubkey: &str, amount: u128) -> (input: Vec<u8>)
    ensures
        input@ == leaf_input(eth_pubkey@, amount),
{
    let mut input = slice_to_vec(eth_pubkey.as_bytes());
    let mut digits = u128_to_decimal(amount);
    input.append(&mut digits);
    input
}

/// Decodes the siblings of a proof.
pub fn decode_proof(proof: &Vec<String>) -> (r: Result<Vec<[u8; 32]>, HexError>)
    ensures
        match r {
            Ok(decoded) => decoded_proof(texts(proof@)) == Ok::<Seq<Seq<u8>>, HexError>(
                siblings(decoded@),
            ),
            Err(e) => decoded_proof(texts(proof@)) == Err::<Seq<Seq<u8>>, HexError>(e),
        },
{
    let ghost all = texts(proof@);
    let mut decoded: Vec<[u8; 32]> = Vec::new();
    let mut i: usize = 0;
    assert(siblings(decoded@) =~= Seq::<Seq<u8>>::empty());
    while i < proof.len()
        invariant
            i <= proof.len(),
            all == texts(proof@),
            decoded_proof(all.take(i as int)) == Ok::<Seq<Seq<u8>>, HexError>(siblings(decoded@)),
        decreases proof.len() - i,
    {
        let ghost before = siblings(decoded@);
        proof {
            assert(all.take(i + 1).drop_last() =~= all.take(i as int));
            assert(all.take(i + 1).last() == proof@[i as int]@);
        }
        match decode_digest(proof[i].as_str()) {
            Ok(sibling) => {
                decoded.push(sibling);
                assert(siblings(decoded@) =~= before.push(sibling@));
            },
            Err(e) => {
                proof {
                    lemma_decoded_proof_error(all, i + 1);
                }
                return Err(e);
            },
        }
        i += 1;
    }
    assert(all.take(i as int) =~= all);
    Ok(decoded)
}

/// Runs the Merkle check of a claim: decodes the siblings and the root,
/// and verifies the proof for the leaf of `eth_pubkey` and `amount`.
pub fn verify_claim_proof(merkle_root: &str, eth_pubkey: &str, amount: u128, proof: &Vec<String>) -> (r:
    Result<(), ContractError>)
    ensures
        check_view(r) == merkle_check(merkle_root@, eth_pubkey@, amount, texts(proof@)),
{
    let decoded = match decode_proof(proof) {
        Ok(decoded) => decoded,
        Err(e) => {
            return Err(ContractError::Hex(e));
        },
    };
    let root = match decode_digest(merkle_root) {
        Ok(root) => root,
        Err(e) => {
            return Err(ContractError::Hex(e));
        },
    };
    let input = build_leaf_input(eth_pubkey, amount);
    if verify_proof(&root, input.as_slice(), &decoded) {
        Ok(())
    } else {
        Err(ContractError::VerificationFailed {  })
    }
}

/// Sets up the engine with its first stage, which is open at once and
/// never expires, so that its residue is never clawed back. A root that
/// is not 64 hexadecimal digits is rejected.
pub fn instantiate(sender: &str, msg: InstantiateMsg) -> (r: Result<Airdrop, ContractError>)
    ensures
        match r {
            Ok(state) => root_check(msg.merkle_root@) is Ok && state@.wf() && state@
                == initial_state(
                sender@,
                text_view(msg.owner),
                msg.claim_msg_plaintext@,
                msg.merkle_root@,
                msg.total_amount,
                None,
                None,
            ),
            Err(e) => root_check(msg.merkle_root@) == Err::<(), ContractErrorView>(e@),
        },
{
    instantiate_with_window(sender, msg, None, None)
}

/// Sets up the engine with its first stage and the window of that stage:
/// claims are legal from `start` on, at once if there is none, and until
/// `expiration`, for ever if there is none. A root that is not 64
/// hexadecimal digits is rejected.
pub fn instantiate_with_window(
    sender: &str,
    msg: InstantiateMsg,
    start: Option<Scheduled>,
    expiration: Option<Expiration>,
) -> (r: Result<Airdrop, ContractError>)
    ensures
        match r {
            Ok(state) => root_check(msg.merkle_root@) is Ok && state@.wf() && state@
                == initial_state(
                sender@,
                text_view(msg.owner),
                msg.claim_msg_plaintext@,
                msg.merkle_root@,
                msg.total_amount,
                start,
                expiration,
            ),
            Err(e) => root_check(msg.merkle_root@) == Err::<(), ContractErrorView>(e@),
        },
{
    let owner = match msg.owner {
        Some(owner) => owner,
        None => String::from_str(sender),
    };
    let total_amount = match msg.total_amount {
        Some(total) => total,
        None => 0,
    };
    let expires = match expiration {
        Some(expiration) => expiration,
        None => Expiration::Never,
    };
    let mut registry = StageRegistry::new();
    match registry.register_stage(msg.merkle_root, start, expires, total_amount) {
        Ok(_) => {},
        Err(e) => {
            return Err(e);
        },
    }
    let state = Airdrop {
        config: Config { owner: Owner::Owned(owner), claim_msg_plaintext: msg.claim_msg_plaintext },
        paused: false,
        registry,
        ledger: ClaimLedger::new(),
    };
    proof {
        lemma_root_text(msg.merkle_root@);
        assert(state@.stages =~= initial_state(
            sender@,
            text_view(msg.owner),
            msg.claim_msg_plaintext@,
            msg.merkle_root@,
            msg.total_amount,
            start,
            expiration,
        ).stages);
    }
    Ok(state)
}

/// Whether `sender` is the owner.
pub fn is_owner(state: &Airdrop, sender: &str) -> (r: bool)
    ensures
        r == state@.is_owner(sender@),
{
    match &state.config.owner {
        Owner::Owned(owner) => *owner == String::from_str(sender),
        Owner::Frozen => false,
    }
}

/// The checks of a claim that need neither signature nor proof.
pub fn check_claimable(state: &Airdrop, block: &BlockInfo, eth_pubkey: &String) -> (r: Result<
    (),
    ContractError,
>)
    requires
        state@.wf(),
    ensures
        check_view(r) == claim_precheck(state@, *block, eth_pubkey@),
{
    match check_window(state, block) {
        Ok(()) => {},
        Err(e) => {
            return Err(e);
        },
    }
    let id = state.registry.latest_stage();
    if state.paused {
        return Err(ContractError::Paused {  });
    }
    if state.ledger.has_claimed(eth_pubkey, id) {
        return Err(ContractError::AlreadyClaimed {  });
    }
    Ok(())
}

/// Carries out a claim for which the identity binding has been run
/// already: `binding` is its outcome. On success the identity is recorded,
/// the claimed amount of the stage and the identity's claim count grow,
/// and a transfer of `amount` to `sender` is handed back. A rejected claim
/// changes nothing.
pub fn claim_with_binding(
    state: &mut Airdrop,
    block: &BlockInfo,
    sender: &str,
    eth_pubkey: &String,
    amount: u128,
    proof: &Vec<String>,
    binding: Result<bool, ContractError>,
) -> (r: Result<Response, ContractError>)
    requires
        old(state)@.wf(),
    ensures
        final(state)@.wf(),
        match r {
            Ok(response) => {
                &&& claim_check(
                    old(state)@,
                    *block,
                    eth_pubkey@,
                    amount,
                    texts(proof@),
                    binding_view(binding),
                ) is Ok
                &&& response@ == claim_response(sender@, amount)
                &&& final(state)@ == claim_effect(old(state)@, eth_pubkey@, amount)
            },
            Err(e) => {
                &&& claim_check(
                    old(state)@,
                    *block,
                    eth_pubkey@,
                    amount,
                    texts(proof@),
                    binding_view(binding),
                ) == Err::<(), ContractErrorView>(e@)
                &&& final(state)@ == old(state)@
            },
        },
{
    match check_claimable(state, block, eth_pubkey) {
        Ok(()) => {},
        Err(e) => {
            return Err(e);
        },
    }
    match validate_eth_sig(binding, eth_pubkey.as_str()) {
        Ok(()) => {},
        Err(e) => {
            return Err(e);
        },
    }
    let id = state.registry.latest_stage();
    let stage = &state.registry.stages[state.registry.stages.len() - 1];
    assert(stage@ == state@.current());
    match verify_claim_proof(stage.merkle_root.as_str(), eth_pubkey.as_str(), amount, proof) {
        Ok(()) => {},
        Err(e) => {
            return Err(e);
        },
    }
    match state.registry.record_claim(id, amount) {
        Ok(()) => {},
        Err(e) => {
            return Err(e);
        },
    }
    state.ledger.mark_claimed(eth_pubkey, id);
    state.ledger.increment_claim_count(eth_pubkey);
    let response = Response::new().add_message(
        Instruction::Transfer { to_address: String::from_str(sender), amount },
    );
    assert(response@ =~= claim_response(sender@, amount));
    Ok(response)
}

/// Claims `amount` for the identity `eth_pubkey` on behalf of the account
/// `sender`: the stage must be open, the engine not paused and the
/// identity new to the stage; `eth_sig` must bind the identity to the
/// account; `proof` must show that the identity and the amount are in the
/// committed set; and the stage must have `amount` left.
///
/// The signature is checked in native code. On a host that brings its own
/// signature check, have the host run it and hand its outcome to
/// `claim_with_binding`.
pub fn execute_claim(
    state: &mut Airdrop,
    block: &BlockInfo,
    sender: &str,
    eth_pubkey: String,
    eth_sig: String,
    amount: u128,
    proof: Vec<String>,
) -> (r: Result<Response, ContractError>)
    requires
        old(state)@.wf(),
    ensures
        final(state)@.wf(),
        match r {
            Ok(response) => {
                &&& claim_check(
                    old(state)@,
                    *block,
                    eth_pubkey@,
                    amount,
                    texts(proof@),
                    identity_binding(
                        old(state)@.config.claim_msg_plaintext,
                        sender@,
                        eth_sig@,
                        eth_pubkey@,
                    ),
                ) is Ok
                &&& response@ == claim_response(sender@, amount)
                &&& final(state)@ == claim_effect(old(state)@, eth_pubkey@, amount)
            },
            Err(e) => {
                &&& claim_check(
                    old(state)@,
                    *block,
                    eth_pubkey@,
                    amount,
                    texts(proof@),
                    identity_binding(
                        old(state)@.config.claim_msg_plaintext,
                        sender@,
                        eth_sig@,
                        eth_pubkey@,
                    ),
                ) == Err::<(), ContractErrorView>(e@)
                &&& final(state)@ == old(state)@
            },
        },
{
    match check_claimable(state, block, &eth_pubkey) {
        Ok(()) => {},
        Err(e) => {
            return Err(e);
        },
    }
    let binding = validate_ethereum_text(
        sender,
        &state.config,
        eth_sig.as_str(),
        eth_pubkey.as_str(),
    );
    claim_with_binding(state, block, sender, &eth_pubkey, amount, &proof, binding)
}

/// Hands back the instruction to recycle what is left of the current
/// stage, the one registered last. Only the owner may ask, and only once
/// the stage has expired: a stage that never expires is never clawed
/// back, and what is left of an earlier stage is out of reach once a
/// later one is registered. The accounting is left as it is.
pub fn execute_clawback(
    state: &Airdrop,
    block: &BlockInfo,
    sender: &str,
    recipient: Option<String>,
) -> (r: Result<Response, ContractError>)
    requires
        state@.wf(),
    ensures
        response_view(r) == match clawback_check(state@, *block, sender@) {
            Ok(()) => Ok(clawback_response(state@, text_view(recipient))),
            Err(e) => Err(e),
        },
{
    if !is_owner(state, sender) {
        return Err(ContractError::Unauthorized {  });
    }
    let id = state.registry.latest_stage();
    let stage = &state.registry.stages[state.registry.stages.len() - 1];
    assert(stage@ == state@.current());
    if !stage.expiration.is_expired(block) {
        return Err(ContractError::StageNotExpired { stage: id, expiration: stage.expiration });
    }
    let residual: u128 = stage.total_amount - stage.claimed_amount;
    let response = Response::new().add_message(Instruction::ClawBack { recipient, amount: residual });
    assert(response@ =~= clawback_response(state@, text_view(recipient)));
    Ok(response)
}

/// Where the current stage stands, as the outcome of the window check.
fn check_window(state: &Airdrop, block: &BlockInfo) -> (r: Result<(), ContractError>)
    requires
        state@.wf(),
    ensures
        check_view(r) == crate::claim::window_check(
            state@.current(),
            state@.latest_stage(),
            *block,
        ),
{
    let id = state.registry.latest_stage();
    let stage = &state.registry.stages[state.registry.stages.len() - 1];
    assert(stage@ == state@.current());
    if let Some(start) = stage.start {
        if !start.is_triggered(block) {
            return Err(ContractError::StageNotBegun { stage: id, start });
        }
    }
    if stage.expiration.is_expired(block) {
        return Err(ContractError::StageExpired { stage: id, expiration: stage.expiration });
    }
    Ok(())
}

/// Pauses the engine: no claim is accepted until it is resumed. Only the
/// owner may, while the current stage is open; pausing an engine that is
/// paused already is accepted and leaves it paused.
pub fn execute_pause(state: &mut Airdrop, block: &BlockInfo, sender: &str) -> (r: Result<
    Response,
    ContractError,
>)
    requires
        old(state)@.wf(),
    ensures
        final(state)@.wf(),
        match r {
            Ok(response) => pause_check(old(state)@, *block, sender@) is Ok && response@.len() == 0
                && final(state)@ == with_paused(old(state)@, true),
            Err(e) => pause_check(old(state)@, *block, sender@) == Err::<(), ContractErrorView>(e@)
                && final(state)@ == old(state)@,
        },
{
    if !is_owner(state, sender) {
        return Err(ContractError::Unauthorized {  });
    }
    match check_window(state, block) {
        Ok(()) => {},
        Err(e) => {
            return Err(e);
        },
    }
    state.paused = true;
    Ok(Response::new())
}

/// Resumes a paused engine.
pub fn execute_resume(state: &mut Airdrop, block: &BlockInfo, sender: &str) -> (r: Result<
    Response,
    ContractError,
>)
    requires
        old(state)@.wf(),
    ensures
        final(state)@.wf(),
        match r {
            Ok(response) => resume_check(old(state)@, *block, sender@) is Ok && response@.len()
                == 0 && final(state)@ == with_paused(old(state)@, false),
            Err(e) => resume_check(old(state)@, *block, sender@) == Err::<(), ContractErrorView>(
                e@,
            ) && final(state)@ == old(state)@,
        },
{
    if !is_owner(state, sender) {
        return Err(ContractError::Unauthorized {  });
    }
    if !state.paused {
        return Err(ContractError::NotPaused {  });
    }
    match check_window(state, block) {
        Ok(()) => {},
        Err(e) => {
            return Err(e);
        },
    }
    state.paused = false;
    Ok(Response::new())
}

/// Registers the next stage and gives its number. Only the owner may, and
/// the root must be 64 hexadecimal digits. A stage without expiration
/// never expires; one without a total has nothing committed to it.
pub fn execute_register_merkle_root(
    state: &mut Airdrop,
    sender: &str,
    merkle_root: String,
    expiration: Option<Expiration>,
    start: Option<Scheduled>,
    total_amount: Option<u128>,
) -> (r: Result<u64, ContractError>)
    requires
        old(state)@.wf(),
        old(state)@.stages.len() < u64::MAX,
    ensures
        final(state)@.wf(),
        match r {
            Ok(id) => {
                &&& register_check(old(state)@, sender@, merkle_root@) is Ok
                &&& id == old(state)@.latest_stage() + 1
                &&& id == final(state)@.latest_stage()
                &&& final(state)@ == register_effect(
                    old(state)@,
                    merkle_root@,
                    expiration,
                    start,
                    total_amount,
                )
            },
            Err(e) => register_check(old(state)@, sender@, merkle_root@) == Err::<
                (),
                ContractErrorView,
            >(e@) && final(state)@ == old(state)@,
        },
{
    if !is_owner(state, sender) {
        return Err(ContractError::Unauthorized {  });
    }
    let expiration = match expiration {
        Some(expiration) => expiration,
        None => Expiration::Never,
    };
    let total_amount = match total_amount {
        Some(total) => total,
        None => 0,
    };
    proof {
        lemma_root_text(merkle_root@);
    }
    state.registry.register_stage(merkle_root, start, expiration, total_amount)
}

/// Hands the engine to `new_owner`, or freezes it for good if there is
/// none. Only the owner may; a frozen engine has no owner any more.
pub fn execute_update_config(state: &mut Airdrop, sender: &str, new_owner: Option<String>) -> (r:
    Result<Response, ContractError>)
    requires
        old(state)@.wf(),
    ensures
        final(state)@.wf(),
        match r {
            Ok(response) => old(state)@.is_owner(sender@) && response@.len() == 0 && final(state)@
                == update_config_effect(old(state)@, text_view(new_owner)),
            Err(e) => !old(state)@.is_owner(sender@) && e@ == ContractErrorView::Unauthorized
                && final(state)@ == old(state)@,
        },
{
    if !is_owner(state, sender) {
        return Err(ContractError::Unauthorized {  });
    }
    state.config.owner = match new_owner {
        Some(owner) => Owner::Owned(owner),
        None => Owner::Frozen,
    };
    Ok(Response::new())
}

/// Whether stored state of the contract `previous_contract` may be taken
/// over: only if it is this contract's own.
pub fn migrate(previous_contract: String, msg: MigrateMsg) -> (r: Result<Response, ContractError>)
    ensures
        match r {
            Ok(response) => previous_contract@ == CONTRACT_NAME@ && response@.len() == 0,
            Err(e) => previous_contract@ != CONTRACT_NAME@ && e@ == (
            ContractErrorView::CannotMigrate { previous_contract: previous_contract@ }),
        },
{
    if previous_contract != String::from_str(CONTRACT_NAME) {
        return Err(ContractError::CannotMigrate { previous_contract });
    }
    Ok(Response::new())
}

/// What a command does: its outcome and the state after it.
pub open spec fn execute_outcome(
    pre: AirdropView,
    block: BlockInfo,
    sender: Seq<char>,
    msg: ExecuteMsg,
) -> (Result<Seq<InstructionView>, ContractErrorView>, AirdropView) {
    match msg {
        ExecuteMsg::Claim { amount, eth_pubkey, eth_sig, proof } => outcome_of(
            claim_check(
                pre,
                block,
                eth_pubkey@,
                amount,
                texts(proof@),
                identity_binding(pre.config.claim_msg_plaintext, sender, eth_sig@, eth_pubkey@),
            ),
            claim_response(sender, amount),
            claim_effect(pre, eth_pubkey@, amount),
            pre,
        ),
        ExecuteMsg::ClawBack { recipient } => outcome_of(
            clawback_check(pre, block, sender),
            clawback_response(pre, Some(recipient@)),
            pre,
            pre,
        ),
        ExecuteMsg::Pause {  } => outcome_of(
            pause_check(pre, block, sender),
            Seq::empty(),
            with_paused(pre, true),
            pre,
        ),
        ExecuteMsg::Resume {  } => outcome_of(
            resume_check(pre, block, sender),
            Seq::empty(),
            with_paused(pre, false),
            pre,
        ),
        ExecuteMsg::RegisterMerkleRoot { merkle_root, expiration, start, total_amount } => {
            outcome_of(
                register_check(pre, sender, merkle_root@),
                Seq::empty(),
                register_effect(pre, merkle_root@, expiration, start, total_amount),
                pre,
            )
        },
        ExecuteMsg::UpdateConfig { new_owner } => outcome_of(
            owner_check(pre, sender),
            Seq::empty(),
            update_config_effect(pre, text_view(new_owner)),
            pre,
        ),
    }
}

/// Carries out a command.
pub fn execute(state: &mut Airdrop, block: &BlockInfo, sender: &str, msg: ExecuteMsg) -> (r: Result<
    Response,
    ContractError,
>)
    requires
        old(state)@.wf(),
        old(state)@.stages.len() < u64::MAX,
    ensures
        final(state)@.wf(),
        (response_view(r), final(state)@) == execute_outcome(old(state)@, *block, sender@, msg),
{
    match msg {
        ExecuteMsg::Claim { amount, eth_pubkey, eth_sig, proof } => execute_claim(
            state,
            block,
            sender,
            eth_pubkey,
            eth_sig,
            amount,
            proof,
        ),
        ExecuteMsg::ClawBack { recipient } => execute_clawback(
            state,
            block,
            sender,
            Some(recipient),
        ),
        ExecuteMsg::Pause {  } => {
            let r = execute_pause(state, block, sender);
            proof {
                if r is Ok {
                    assert(r->Ok_0@ =~= Seq::<InstructionView>::empty());
                }
            }
            r
        },
        ExecuteMsg::Resume {  } => {
            let r = execute_resume(state, block, sender);
            proof {
                if r is Ok {
                    assert(r->Ok_0@ =~= Seq::<InstructionView>::empty());
                }
            }
            r
        },
        ExecuteMsg::RegisterMerkleRoot { merkle_root, expiration, start, total_amount } => {
            match execute_register_merkle_root(
                state,
                sender,
                merkle_root,
                expiration,
                start,
                total_amount,
            ) {
                Ok(_) => Ok(Response::new()),
                Err(e) => Err(e),
            }
        },
        ExecuteMsg::UpdateConfig { new_owner } => {
            let r = execute_update_config(state, sender, new_owner);
            proof {
                if r is Ok {
                    assert(r->Ok_0@ =~= Seq::<InstructionView>::empty());
                }
            }
            r
        },
    }
}

} // verus!
