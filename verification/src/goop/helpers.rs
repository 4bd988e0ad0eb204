//! A handle on a registry by its address, for those who talk to it.

use crate::goop::contract::{member_of, query_claim_limit, query_get_headstash_amount, query_has_member};
use crate::goop::error::{ContractError, ContractErrorView};
use crate::goop::members::has_member;
use crate::goop::msg::ExecuteMsg;
use crate::goop::state::{Config, Goop};
use vstd::prelude::*;

verus! {

/// The address of a registry.
#[derive(Clone, Debug, PartialEq, Eq)]
pub struct CwGoopContract(pub String);

/// A command for the registry at `contract_addr`, to be sent without funds.
#[derive(Clone, Debug, PartialEq, Eq)]
pub struct RegistryCall {
    pub contract_addr: String,
    pub msg: ExecuteMsg,
}

impl CwGoopContract {
    /// The address.
    pub fn addr(&self) -> (addr: String)
        ensures
            addr@ == self.0@,
    {
        self.0.clone()
    }

    /// The command `msg`, addressed to this registry.
    pub fn call(&self, msg: ExecuteMsg) -> (call: RegistryCall)
        ensures
            call.contract_addr@ == self.0@,
            call.msg == msg,
    {
        RegistryCall { contract_addr: self.addr(), msg }
    }

    /// Whether `member` is on the list of the registry, whose state is
    /// `registry`.
    pub fn includes(&self, registry: &Goop, member: String) -> (r: bool)
        requires
            registry@.wf(),
        ensures
            r == has_member(registry@.members, member@),
    {
        query_has_member(registry, member).has_member
    }

    /// How often an identity may claim.
    pub fn claim_limit(&self, registry: &Goop) -> (limit: u32)
        ensures
            limit == registry@.config.claim_limit,
    {
        query_claim_limit(registry)
    }

    /// The number of members and the claim limit.
    pub fn config(&self, registry: &Goop) -> (config: Config)
        ensures
            config == registry@.config,
    {
        registry.config
    }

    /// What `address` may claim, if it is on the list.
    pub fn get_headstash_amount(&self, registry: &Goop, address: String) -> (r: Result<
        u128,
        ContractError,
    >)
        requires
            registry@.wf(),
        ensures
            match r {
                Ok(amount) => has_member(registry@.members, address@) && amount == member_of(
                    registry@.members,
                    address@,
                ).headstash_amount,
                Err(e) => !has_member(registry@.members, address@) && e@
                    == ContractErrorView::NoMemberFound(address@),
            },
    {
        match query_get_headstash_amount(registry, address) {
            Ok(found) => Ok(found.headstash_amount),
            Err(e) => Err(e),
        }
    }
}

} // verus!
