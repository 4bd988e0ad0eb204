//! The operations of the registry-backed claim engine.

use crate::claim_headstash::msg::{ExecuteMsg, InstantiateMsg, QueryMsg, VotingPowerAtHeightResponse};
use crate::claim_headstash::rules::{
    claim_check, claim_effect, claim_limit, claim_response, claims_remaining_check, eligibility,
    eligibility_check, headstash_amount,
};
use crate::claim_headstash::state::{
    Config, Headstash, HeadstashView, DEFAULT_CLAIM_COUNT, HEADSTASH_GOOP_LABEL, INIT_CW_GOOP_ID,
};
use crate::error::{ContractError, ContractErrorView};
use crate::goop::helpers::CwGoopContract;
use crate::goop::msg::{member_views, Member, MemberView};
use crate::goop::state::Goop;
use crate::ledger::{ClaimLedger, LedgerView};
use crate::response::{Instruction, InstructionView, Response};
use crate::signature::{
    bind_identity, binding_view, check_view, identity_binding, plaintext_msg,
    plaintext_msg_check, validate_eth_sig, validate_plaintext_msg,
};
use crate::text::{text_replace, texts};
use vstd::prelude::*;
use vstd::string::StringExecFns;

verus! {

/// The message that the account `sender` has to sign.
pub fn compute_plaintext_msg(config: &Config, sender: &str) -> (msg: String)
    ensures
        msg@ == plaintext_msg(config.claim_msg_plaintext@, sender@),
{
    text_replace(config.claim_msg_plaintext.as_str(), "{wallet}", sender)
}

/// Runs the identity binding with the template of the configuration.
pub fn validate_ethereum_text(sender: &str, config: &Config, eth_sig: &str, eth_address: &str) -> (r:
    Result<bool, ContractError>)
    ensures
        binding_view(r) == identity_binding(
            config.claim_msg_plaintext@,
            sender@,
            eth_sig@,
            eth_address@,
        ),
{
    bind_identity(config.claim_msg_plaintext.as_str(), sender, eth_sig, eth_address)
}

/// Whether the registry knows `eth_address`.
pub fn query_headstash_is_eligible(state: &Headstash, registry: &Goop, eth_address: String) -> (r:
    Result<bool, ContractError>)
    requires
        registry@.wf(),
    ensures
        binding_view(r) == eligibility(state@, registry@, eth_address@),
{
    match &state.config.cw_goop_address {
        Some(address) => Ok(CwGoopContract(address.clone()).includes(registry, eth_address)),
        None => Err(ContractError::NotFound { kind: String::from_str("Cw-Goop Contract") }),
    }
}

/// The address of the registry, or a placeholder while there is none.
pub fn query_headstash_goop(state: &Headstash) -> (address: String)
    ensures
        address@ == match state@.cw_goop_address {
            Some(address) => address,
            None => "default_value"@,
        },
{
    match &state.config.cw_goop_address {
        Some(address) => address.clone(),
        None => String::from_str("default_value"),
    }
}

/// The address of the registry, if it is known.
pub fn query_headstash_group(state: &Headstash) -> (r: Result<String, ContractError>)
    ensures
        match r {
            Ok(address) => state@.cw_goop_address == Some(address@),
            Err(e) => state@.cw_goop_address is None && e@
                == ContractErrorView::CwGoopAddressMissing,
        },
{
    match &state.config.cw_goop_address {
        Some(address) => Ok(address.clone()),
        None => Err(ContractError::CwGoopAddressMissing {  }),
    }
}

/// How often an identity may claim, by the registry.
pub fn query_claim_limit(state: &Headstash, registry: &Goop) -> (r: Result<u32, ContractError>)
    ensures
        match r {
            Ok(limit) => claim_limit(state@, registry@) == Ok::<u32, ContractErrorView>(limit),
            Err(e) => claim_limit(state@, registry@) == Err::<u32, ContractErrorView>(e@),
        },
{
    match &state.config.cw_goop_address {
        Some(address) => Ok(CwGoopContract(address.clone()).claim_limit(registry)),
        None => Err(ContractError::NotFound { kind: String::from_str("Whitelist Contract") }),
    }
}

/// Answers a query.
pub fn query(state: &Headstash, registry: &Goop, msg: QueryMsg) -> (r: Result<bool, ContractError>)
    requires
        registry@.wf(),
    ensures
        match msg {
            QueryMsg::HeadstashEligible { eth_address } => binding_view(r) == eligibility(
                state@,
                registry@,
                eth_address@,
            ),
        },
{
    match msg {
        QueryMsg::HeadstashEligible { eth_address } => query_headstash_is_eligible(
            state,
            registry,
            eth_address,
        ),
    }
}

/// Rejects the claim unless the registry knows the identity.
pub fn validate_is_eligible(state: &Headstash, registry: &Goop, eth_address: &str) -> (r: Result<
    (),
    ContractError,
>)
    requires
        registry@.wf(),
    ensures
        check_view(r) == eligibility_check(state@, registry@, eth_address@),
{
    match query_headstash_is_eligible(state, registry, String::from_str(eth_address)) {
        Ok(true) => Ok(()),
        Ok(false) => Err(
            ContractError::AddressNotEligible { address: String::from_str(eth_address) },
        ),
        Err(e) => Err(e),
    }
}

/// Rejects the claim unless the identity has claims left.
pub fn validate_claims_remaining(state: &Headstash, registry: &Goop, eth_address: &str) -> (r:
    Result<(), ContractError>)
    ensures
        check_view(r) == claims_remaining_check(state@, registry@, eth_address@),
{
    let address = String::from_str(eth_address);
    let claim_count = state.ledger.claim_count(&address);
    let limit = match query_claim_limit(state, registry) {
        Ok(limit) => limit,
        Err(e) => {
            return Err(e);
        },
    };
    if claim_count < limit {
        Ok(())
    } else {
        Err(ContractError::ClaimCountReached { address })
    }
}

/// The checks of a claim for which the identity binding has been run
/// already: `binding` is its outcome.
pub fn validate_claim_with_binding(
    state: &Headstash,
    registry: &Goop,
    eth_address: &str,
    binding: Result<bool, ContractError>,
) -> (r: Result<(), ContractError>)
    requires
        registry@.wf(),
    ensures
        check_view(r) == claim_check(state@, registry@, eth_address@, binding_view(binding)),
{
    match validate_claims_remaining(state, registry, eth_address) {
        Ok(()) => {},
        Err(e) => {
            return Err(e);
        },
    }
    match validate_eth_sig(binding, eth_address) {
        Ok(()) => {},
        Err(e) => {
            return Err(e);
        },
    }
    validate_is_eligible(state, registry, eth_address)
}

/// The checks of a claim: the identity has claims left, `eth_sig` binds it
/// to the account `sender`, and the registry knows it.
pub fn validate_claim(
    state: &Headstash,
    registry: &Goop,
    sender: &str,
    eth_address: &str,
    eth_sig: &str,
) -> (r: Result<(), ContractError>)
    requires
        registry@.wf(),
    ensures
        check_view(r) == claim_check(
            state@,
            registry@,
            eth_address@,
            identity_binding(state@.claim_msg_plaintext, sender@, eth_sig@, eth_address@),
        ),
{
    match validate_claims_remaining(state, registry, eth_address) {
        Ok(()) => {},
        Err(e) => {
            return Err(e);
        },
    }
    let binding = validate_ethereum_text(sender, &state.config, eth_sig, eth_address);
    validate_claim_with_binding(state, registry, eth_address, binding)
}

/// What `eth_address` may claim, by the registry.
pub fn get_headstash_amount(state: &Headstash, registry: &Goop, eth_address: String) -> (r: Result<
    u128,
    ContractError,
>)
    requires
        registry@.wf(),
    ensures
        match r {
            Ok(amount) => headstash_amount(state@, registry@, eth_address@) == Ok::<
                u128,
                ContractErrorView,
            >(amount),
            Err(e) => headstash_amount(state@, registry@, eth_address@) == Err::<
                u128,
                ContractErrorView,
            >(e@),
        },
{
    let address = match &state.config.cw_goop_address {
        Some(address) => address.clone(),
        None => {
            return Err(ContractError::CwGoopAddressMissing {  });
        },
    };
    let asked = eth_address.clone();
    match CwGoopContract(address).get_headstash_amount(registry, eth_address) {
        Ok(amount) => Ok(amount),
        Err(_) => Err(ContractError::AddressNotEligible { address: asked }),
    }
}

/// The response that pays `headstash_amount` to the account `sender`.
pub fn claim_headstash_amount(sender: &str, headstash_amount: u128) -> (response: Response)
    ensures
        response@ == seq![
            InstructionView::Transfer { to_address: sender@, amount: headstash_amount },
        ],
{
    let response = Response::new().add_message(
        Instruction::Transfer { to_address: String::from_str(sender), amount: headstash_amount },
    );
    assert(response@ =~= seq![
        InstructionView::Transfer { to_address: sender@, amount: headstash_amount },
    ]);
    response
}

/// The instruction that has the registry at `headstash_goop_address` add
/// `member_address` with `headstash_amount` and no claim yet.
pub fn add_member_to_headstash_goop_address(
    member_address: &str,
    headstash_amount: u128,
    headstash_goop_address: &str,
) -> (instruction: Instruction)
    ensures
        instruction@ == added_member(member_address@, headstash_amount, headstash_goop_address@),
{
    let mut to_add: Vec<Member> = Vec::new();
    to_add.push(
        Member {
            address: String::from_str(member_address),
            headstash_amount,
            claim_count: DEFAULT_CLAIM_COUNT,
        },
    );
    let instruction = Instruction::AddMembers {
        contract_addr: String::from_str(headstash_goop_address),
        to_add,
    };
    assert(member_views(to_add@) =~= seq![
        MemberView {
            address: member_address@,
            headstash_amount,
            claim_count: DEFAULT_CLAIM_COUNT,
        },
    ]);
    instruction
}

/// The instruction to add one member without a claim to a registry.
pub open spec fn added_member(
    member_address: Seq<char>,
    headstash_amount: u128,
    registry_address: Seq<char>,
) -> InstructionView {
    InstructionView::AddMembers {
        contract_addr: registry_address,
        to_add: seq![
            MemberView {
                address: member_address,
                headstash_amount,
                claim_count: DEFAULT_CLAIM_COUNT,
            },
        ],
    }
}

/// The response that pays `headstash_amount` to the account `sender` and
/// has the registry at `headstash_group` add the account as a member.
pub fn claim_and_headstash_add(sender: &str, headstash_amount: u128, headstash_group: &str) -> (response:
    Response)
    ensures
        response@ == seq![
            InstructionView::Transfer { to_address: sender@, amount: headstash_amount },
            added_member(sender@, headstash_amount, headstash_group@),
        ],
{
    let response = claim_headstash_amount(sender, headstash_amount).add_message(
        add_member_to_headstash_goop_address(sender, headstash_amount, headstash_group),
    );
    assert(response@ =~= seq![
        InstructionView::Transfer { to_address: sender@, amount: headstash_amount },
        added_member(sender@, headstash_amount, headstash_group@),
    ]);
    response
}

/// Counts one more claim of `eth_address`.
pub fn increment_local_claim_count_for_address(state: &mut Headstash, eth_address: &String)
    ensures
        final(state)@ == claim_effect(old(state)@, eth_address@),
{
    state.ledger.increment_claim_count(eth_address);
}

/// Carries out a claim for which the identity binding has been run
/// already: `binding` is its outcome. On success one more claim of the
/// identity is counted, and a transfer of the identity's amount to
/// `sender` is handed back. A rejected claim changes nothing.
pub fn claim_headstash_with_binding(
    state: &mut Headstash,
    registry: &Goop,
    sender: &str,
    eth_address: String,
    binding: Result<bool, ContractError>,
) -> (r: Result<Response, ContractError>)
    requires
        registry@.wf(),
    ensures
        match r {
            Ok(response) => {
                &&& claim_check(old(state)@, registry@, eth_address@, binding_view(binding)) is Ok
                &&& response@ == claim_response(registry@, sender@, eth_address@)
                &&& final(state)@ == claim_effect(old(state)@, eth_address@)
            },
            Err(e) => {
                &&& claim_check(old(state)@, registry@, eth_address@, binding_view(binding))
                    == Err::<(), ContractErrorView>(e@)
                &&& final(state)@ == old(state)@
            },
        },
{
    match validate_claim_with_binding(state, registry, eth_address.as_str(), binding) {
        Ok(()) => {},
        Err(e) => {
            return Err(e);
        },
    }
    let amount = match get_headstash_amount(state, registry, eth_address.clone()) {
        Ok(amount) => amount,
        Err(e) => {
            assert(false);
            return Err(e);
        },
    };
    let response = claim_headstash_amount(sender, amount);
    increment_local_claim_count_for_address(state, &eth_address);
    Ok(response)
}

/// Claims the amount that the registry holds for the identity
/// `eth_address`, on behalf of the account `sender`: the identity must
/// have claims left, `eth_sig` must bind it to the account, and the
/// registry must know it.
///
/// The signature is checked in native code. On a host that brings its own
/// signature check, have the host run it and hand its outcome to
/// `claim_headstash_with_binding`.
pub fn claim_headstash(
    state: &mut Headstash,
    registry: &Goop,
    sender: &str,
    eth_address: String,
    eth_sig: String,
) -> (r: Result<Response, ContractError>)
    requires
        registry@.wf(),
    ensures
        match r {
            Ok(response) => {
                &&& claim_check(
                    old(state)@,
                    registry@,
                    eth_address@,
                    identity_binding(
                        old(state)@.claim_msg_plaintext,
                        sender@,
                        eth_sig@,
                        eth_address@,
                    ),
                ) is Ok
                &&& response@ == claim_response(registry@, sender@, eth_address@)
                &&& final(state)@ == claim_effect(old(state)@, eth_address@)
            },
            Err(e) => {
                &&& claim_check(
                    old(state)@,
                    registry@,
                    eth_address@,
                    identity_binding(
                        old(state)@.claim_msg_plaintext,
                        sender@,
                        eth_sig@,
                        eth_address@,
                    ),
                ) == Err::<(), ContractErrorView>(e@)
                &&& final(state)@ == old(state)@
            },
        },
{
    match validate_claims_remaining(state, registry, eth_address.as_str()) {
        Ok(()) => {},
        Err(e) => {
            return Err(e);
        },
    }
    let binding = validate_ethereum_text(
        sender,
        &state.config,
        eth_sig.as_str(),
        eth_address.as_str(),
    );
    claim_headstash_with_binding(state, registry, sender, eth_address, binding)
}

/// Carries out a command.
pub fn execute(state: &mut Headstash, registry: &Goop, sender: &str, msg: ExecuteMsg) -> (r: Result<
    Response,
    ContractError,
>)
    requires
        registry@.wf(),
    ensures
        match msg {
            ExecuteMsg::ClaimHeadstash { eth_address, eth_sig } => match r {
                Ok(response) => {
                    &&& claim_check(
                        old(state)@,
                        registry@,
                        eth_address@,
                        identity_binding(
                            old(state)@.claim_msg_plaintext,
                            sender@,
                            eth_sig@,
                            eth_address@,
                        ),
                    ) is Ok
                    &&& response@ == claim_response(registry@, sender@, eth_address@)
                    &&& final(state)@ == claim_effect(old(state)@, eth_address@)
                },
                Err(e) => {
                    &&& claim_check(
                        old(state)@,
                        registry@,
                        eth_address@,
                        identity_binding(
                            old(state)@.claim_msg_plaintext,
                            sender@,
                            eth_sig@,
                            eth_address@,
                        ),
                    ) == Err::<(), ContractErrorView>(e@)
                    &&& final(state)@ == old(state)@
                },
            },
        },
{
    match msg {
        ExecuteMsg::ClaimHeadstash { eth_address, eth_sig } => claim_headstash(
            state,
            registry,
            sender,
            eth_address,
            eth_sig,
        ),
    }
}

/// Checks what the engine is set up with: the message template.
pub fn validate_instantiation_params(msg: &InstantiateMsg) -> (r: Result<(), ContractError>)
    ensures
        check_view(r) == plaintext_msg_check(msg.claim_msg_plaintext@),
{
    validate_plaintext_msg(msg.claim_msg_plaintext.clone())
}

/// The configuration of a new engine: the sender is its admin, and it
/// knows no registry yet.
pub fn state_config(sender: &str, msg: &InstantiateMsg) -> (config: Config)
    ensures
        config.admin@ == sender@,
        config.claim_msg_plaintext@ == msg.claim_msg_plaintext@,
        config.cw_goop_address is None,
{
    Config {
        admin: String::from_str(sender),
        claim_msg_plaintext: msg.claim_msg_plaintext.clone(),
        cw_goop_address: None,
    }
}

/// The instruction to set up the registry of a new engine, administered
/// by the engine itself, whose address is `contract_address`.
pub fn cw_goop_instantiate(contract_address: &str, msg: InstantiateMsg) -> (instruction: Instruction)
    ensures
        instruction@ == registry_setup(contract_address@, msg),
{
    Instruction::InstantiateRegistry {
        code_id: msg.cw_goop_id,
        admin: String::from_str(contract_address),
        label: String::from_str(HEADSTASH_GOOP_LABEL),
        reply_id: INIT_CW_GOOP_ID,
        members: msg.members,
        claim_limit: msg.claim_limit,
        admins: msg.admin,
        admins_mutable: msg.admins_mutable,
    }
}

/// The instruction to set up the registry that `msg` describes.
pub open spec fn registry_setup(contract_address: Seq<char>, msg: InstantiateMsg) -> InstructionView {
    InstructionView::InstantiateRegistry {
        code_id: msg.cw_goop_id,
        admin: contract_address,
        label: HEADSTASH_GOOP_LABEL@,
        reply_id: INIT_CW_GOOP_ID,
        members: member_views(msg.members@),
        claim_limit: msg.claim_limit,
        admins: texts(msg.admin@),
        admins_mutable: msg.admins_mutable,
    }
}

/// Sets up the engine, and hands back the instruction to set up its
/// registry. A message template without `{wallet}`, or one that is too
/// long, is rejected.
pub fn instantiate(sender: &str, contract_address: &str, msg: InstantiateMsg) -> (r: Result<
    (Headstash, Response),
    ContractError,
>)
    ensures
        match r {
            Ok((state, response)) => {
                &&& plaintext_msg_check(msg.claim_msg_plaintext@) is Ok
                &&& state@ == (HeadstashView {
                    admin: sender@,
                    claim_msg_plaintext: msg.claim_msg_plaintext@,
                    cw_goop_address: None,
                    ledger: LedgerView::empty(),
                })
                &&& response@ == seq![registry_setup(contract_address@, msg)]
            },
            Err(e) => plaintext_msg_check(msg.claim_msg_plaintext@) == Err::<
                (),
                ContractErrorView,
            >(e@),
        },
{
    match validate_instantiation_params(&msg) {
        Ok(()) => {},
        Err(e) => {
            return Err(e);
        },
    }
    let config = state_config(sender, &msg);
    let state = Headstash { config, ledger: ClaimLedger::new() };
    let response = Response::new().add_message(cw_goop_instantiate(contract_address, msg));
    assert(response@ =~= seq![registry_setup(contract_address@, msg)]);
    Ok((state, response))
}

/// The voting power of a member at a height: its weight, or none if it
/// has no weight; at the height asked for, or at the current one.
pub fn query_voting_power_at_height(weight: Option<u64>, height: Option<u64>, block_height: u64) -> (r:
    VotingPowerAtHeightResponse)
    ensures
        r.power == match weight {
            Some(weight) => weight as u128,
            None => 0,
        },
        r.height == match height {
            Some(height) => height,
            None => block_height,
        },
{
    VotingPowerAtHeightResponse {
        power: match weight {
            Some(weight) => weight as u128,
            None => 0,
        },
        height: match height {
            Some(height) => height,
            None => block_height,
        },
    }
}

} // verus!
