//! Taking in the registry's address, once the host reports that the
//! registry has been set up.

use crate::claim_headstash::msg::{Reply, SubMsgResult};
use crate::claim_headstash::state::{Headstash, HeadstashView, INIT_CW_GOOP_ID};
use crate::error::{ContractError, ContractErrorView};
use vstd::prelude::*;

verus! {

/// What the data of an instantiation says: the address of the new
/// contract, or why the data cannot be read.
pub uninterp spec fn instantiate_response_address(data: Seq<u8>) -> Result<Seq<char>, Seq<char>>;

/// Calls `cw_utils::parse_instantiate_response_data`, which reads the
/// address of the new contract out of the data of an instantiation. The
/// outcome depends on the data alone and is given the name
/// `instantiate_response_address`; an error is handed on as its text.
#[verifier::external_body]
pub(crate) fn parse_instantiate_response(data: &[u8]) -> (r: Result<String, String>)
    ensures
        match r {
            Ok(address) => instantiate_response_address(data@) == Ok::<Seq<char>, Seq<char>>(
                address@,
            ),
            Err(reason) => instantiate_response_address(data@) == Err::<Seq<char>, Seq<char>>(
                reason@,
            ),
        },
{
    match cw_utils::parse_instantiate_response_data(data) {
        Ok(response) => Ok(response.contract_address),
        Err(e) => Err(e.to_string()),
    }
}

/// The data of a report, viewed.
pub open spec fn reply_data(result: SubMsgResult) -> Option<Seq<u8>> {
    match result {
        SubMsgResult::Success { data: Some(data) } => Some(data@),
        _ => None,
    }
}

/// The address that a report brings, given what its data says: none if
/// the sub-message failed, if it gave no data, or if the data cannot be
/// read.
pub open spec fn reported_address(
    result: SubMsgResult,
    parsed: Result<Seq<char>, Seq<char>>,
) -> Option<Seq<char>> {
    match (reply_data(result), parsed) {
        (Some(_), Ok(address)) => Some(address),
        _ => None,
    }
}

/// What a report does, given the address that it brings: a report under
/// another number than the registry's is rejected, and so is one without
/// an address; else the address becomes the registry's.
pub open spec fn reply_outcome(pre: HeadstashView, id: u64, address: Option<Seq<char>>) -> (
    Result<(), ContractErrorView>,
    HeadstashView,
) {
    if id != INIT_CW_GOOP_ID {
        (Err(ContractErrorView::InvalidReplyID), pre)
    } else {
        match address {
            Some(address) => (Ok(()), HeadstashView { cw_goop_address: Some(address), ..pre }),
            None => (Err(ContractErrorView::ReplyOnSuccess), pre),
        }
    }
}

/// An operation's outcome with its error viewed.
pub open spec fn outcome_view(outcome: Result<(), ContractError>) -> Result<(), ContractErrorView> {
    match outcome {
        Ok(()) => Ok(()),
        Err(e) => Err(e@),
    }
}

/// Takes in the address that a report brings, if it brings one.
pub fn match_reply(state: &mut Headstash, address: Option<String>) -> (r: Result<(), ContractError>)
    ensures
        (outcome_view(r), final(state)@) == reply_outcome(
            old(state)@,
            INIT_CW_GOOP_ID,
            crate::response::text_view(address),
        ),
{
    match address {
        Some(address) => {
            state.config.cw_goop_address = Some(address);
            Ok(())
        },
        None => Err(ContractError::ReplyOnSuccess {  }),
    }
}

/// Handles the host's report on the setting up of the registry.
pub fn reply(state: &mut Headstash, msg: Reply) -> (r: Result<(), ContractError>)
    ensures
        (outcome_view(r), final(state)@) == reply_outcome(
            old(state)@,
            msg.id,
            reported_address(
                msg.result,
                match reply_data(msg.result) {
                    Some(data) => instantiate_response_address(data),
                    None => Err(Seq::empty()),
                },
            ),
        ),
{
    if msg.id != INIT_CW_GOOP_ID {
        return Err(ContractError::InvalidReplyID {  });
    }
    let address = match msg.result {
        SubMsgResult::Success { data: Some(data) } => match parse_instantiate_response(data.as_slice()) {
            Ok(address) => Some(address),
            Err(_) => None,
        },
        _ => None,
    };
    match_reply(state, address)
}

} // verus!
