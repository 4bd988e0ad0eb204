//! The ways in which an operation of the membership registry is rejected.

use vstd::prelude::*;

verus! {

/// Why an operation was rejected. A rejected operation changes nothing.
#[derive(Clone, Debug, PartialEq, Eq)]
pub enum ContractError {
    /// The sender is no admin, or the admins can no longer be changed.
    Unauthorized {},
    /// The identity is on the list already.
    DuplicateMember(String),
    /// The identity is not on the list.
    NoMemberFound(String),
    /// The list is full: it holds `actual` members, or would, and
    /// `expected` is the most it can hold.
    MembersExceeded { expected: u32, actual: u32 },
    /// The claim limit `got` is not between `min` and `max`.
    InvalidMemberLimit { min: u32, max: u32, got: u32 },
}

pub enum ContractErrorView {
    Unauthorized,
    DuplicateMember(Seq<char>),
    NoMemberFound(Seq<char>),
    MembersExceeded { expected: u32, actual: u32 },
    InvalidMemberLimit { min: u32, max: u32, got: u32 },
}

impl View for ContractError {
    type V = ContractErrorView;

    open spec fn view(&self) -> ContractErrorView {
        match self {
            ContractError::Unauthorized {  } => ContractErrorView::Unauthorized,
            ContractError::DuplicateMember(address) => ContractErrorView::DuplicateMember(address@),
            ContractError::NoMemberFound(address) => ContractErrorView::NoMemberFound(address@),
            ContractError::MembersExceeded { expected, actual } => {
                ContractErrorView::MembersExceeded { expected: *expected, actual: *actual }
            },
            ContractError::InvalidMemberLimit { min, max, got } => {
                ContractErrorView::InvalidMemberLimit { min: *min, max: *max, got: *got }
            },
        }
    }
}

} // verus!
