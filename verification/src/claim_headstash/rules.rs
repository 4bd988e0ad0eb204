//! The rules of the registry-backed claim, as functions of the states of
//! the engine and of the registry.

use crate::claim_headstash::state::HeadstashView;
use crate::error::ContractErrorView;
use crate::goop::contract::member_of;
use crate::goop::members::has_member;
use crate::goop::state::GoopView;
use crate::response::InstructionView;
use crate::signature::binding_check;
use vstd::prelude::*;

verus! {

/// Whether the registry knows the identity. Without a registry there is
/// nothing to ask.
pub open spec fn eligibility(pre: HeadstashView, registry: GoopView, eth_address: Seq<char>) -> Result<
    bool,
    ContractErrorView,
> {
    if pre.cw_goop_address is None {
        Err(ContractErrorView::NotFound { kind: "Cw-Goop Contract"@ })
    } else {
        Ok(has_member(registry.members, eth_address))
    }
}

/// Whether the identity is eligible.
pub open spec fn eligibility_check(
    pre: HeadstashView,
    registry: GoopView,
    eth_address: Seq<char>,
) -> Result<(), ContractErrorView> {
    match eligibility(pre, registry, eth_address) {
        Ok(true) => Ok(()),
        Ok(false) => Err(ContractErrorView::AddressNotEligible { address: eth_address }),
        Err(e) => Err(e),
    }
}

/// The claim limit of the registry. Without a registry there is none.
pub open spec fn claim_limit(pre: HeadstashView, registry: GoopView) -> Result<
    u32,
    ContractErrorView,
> {
    if pre.cw_goop_address is None {
        Err(ContractErrorView::NotFound { kind: "Whitelist Contract"@ })
    } else {
        Ok(registry.config.claim_limit)
    }
}

/// Whether the identity has claims left: it has claimed less often than
/// the claim limit allows.
pub open spec fn claims_remaining_check(
    pre: HeadstashView,
    registry: GoopView,
    eth_address: Seq<char>,
) -> Result<(), ContractErrorView> {
    match claim_limit(pre, registry) {
        Err(e) => Err(e),
        Ok(limit) => if pre.ledger.claim_count(eth_address) < limit {
            Ok(())
        } else {
            Err(ContractErrorView::ClaimCountReached { address: eth_address })
        },
    }
}

/// What the identity may claim. Without a registry, or for an identity
/// that the registry does not know, there is no amount.
pub open spec fn headstash_amount(
    pre: HeadstashView,
    registry: GoopView,
    eth_address: Seq<char>,
) -> Result<u128, ContractErrorView> {
    if pre.cw_goop_address is None {
        Err(ContractErrorView::CwGoopAddressMissing)
    } else if !has_member(registry.members, eth_address) {
        Err(ContractErrorView::AddressNotEligible { address: eth_address })
    } else {
        Ok(member_of(registry.members, eth_address).headstash_amount)
    }
}

/// Whether a claim is accepted, and if not, why. The checks are made in
/// this order: claims left, identity binding, membership.
pub open spec fn claim_check(
    pre: HeadstashView,
    registry: GoopView,
    eth_address: Seq<char>,
    binding: Result<bool, ContractErrorView>,
) -> Result<(), ContractErrorView> {
    if claims_remaining_check(pre, registry, eth_address) is Err {
        claims_remaining_check(pre, registry, eth_address)
    } else if binding_check(binding, eth_address) is Err {
        binding_check(binding, eth_address)
    } else {
        eligibility_check(pre, registry, eth_address)
    }
}

/// The state after an accepted claim: one more claim of the identity is
/// counted.
pub open spec fn claim_effect(pre: HeadstashView, eth_address: Seq<char>) -> HeadstashView {
    HeadstashView { ledger: pre.ledger.increment_claim_count(eth_address), ..pre }
}

/// What an accepted claim hands back: one transfer of the identity's
/// amount to the calling account.
pub open spec fn claim_response(registry: GoopView, sender: Seq<char>, eth_address: Seq<char>) -> Seq<
    InstructionView,
> {
    seq![
        InstructionView::Transfer {
            to_address: sender,
            amount: member_of(registry.members, eth_address).headstash_amount,
        },
    ]
}

/// Bounded repeat: an accepted claim needs a count below the limit, and
/// after it the count is one higher; so an identity never gets more
/// claims accepted than the limit allows.
pub proof fn lemma_claims_bounded(
    pre: HeadstashView,
    registry: GoopView,
    eth_address: Seq<char>,
    binding: Result<bool, ContractErrorView>,
)
    requires
        claim_check(pre, registry, eth_address, binding) is Ok,
    ensures
        pre.ledger.claim_count(eth_address) < registry.config.claim_limit,
        claim_effect(pre, eth_address).ledger.claim_count(eth_address) == pre.ledger.claim_count(
            eth_address,
        ) + 1,
        claim_effect(pre, eth_address).ledger.claim_count(eth_address)
            <= registry.config.claim_limit,
        has_member(registry.members, eth_address),
{
}

/// Idempotency under a claim limit of one: after an accepted claim, the
/// next claim of the same identity is rejected because its claims are
/// used up, whatever signature comes with it.
pub proof fn lemma_second_claim_rejected(
    pre: HeadstashView,
    registry: GoopView,
    eth_address: Seq<char>,
    binding: Result<bool, ContractErrorView>,
    second_binding: Result<bool, ContractErrorView>,
)
    requires
        registry.config.claim_limit == 1,
        claim_check(pre, registry, eth_address, binding) is Ok,
    ensures
        claim_check(claim_effect(pre, eth_address), registry, eth_address, second_binding) == Err::<
            (),
            ContractErrorView,
        >(ContractErrorView::ClaimCountReached { address: eth_address }),
{
}

} // verus!
