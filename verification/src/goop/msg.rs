//! The commands and queries of the membership registry, and the answers.

use vstd::prelude::*;

verus! {

/// One entry of the allowlist.
#[derive(Clone, Debug, PartialEq, Eq)]
pub struct Member {
    /// The identity.
    pub address: String,
    /// What the identity may claim.
    pub headstash_amount: u128,
    /// How often the identity has claimed.
    pub claim_count: u32,
}

pub struct MemberView {
    pub address: Seq<char>,
    pub headstash_amount: u128,
    pub claim_count: u32,
}

impl View for Member {
    type V = MemberView;

    open spec fn view(&self) -> MemberView {
        MemberView {
            address: self.address@,
            headstash_amount: self.headstash_amount,
            claim_count: self.claim_count,
        }
    }
}

/// The members of a list, viewed.
pub open spec fn member_views(members: Seq<Member>) -> Seq<MemberView> {
    members.map_values(|m: Member| m@)
}

/// What the registry is set up with.
#[derive(Clone, Debug, PartialEq, Eq)]
pub struct InstantiateMsg {
    pub members: Vec<Member>,
    pub claim_limit: u32,
    pub admins: Vec<String>,
    pub admins_mutable: bool,
}

#[derive(Clone, Debug, PartialEq, Eq)]
pub struct AddMembersMsg {
    pub to_add: Vec<Member>,
}

#[derive(Clone, Debug, PartialEq, Eq)]
pub struct RemoveMembersMsg {
    pub to_remove: Vec<String>,
}

/// The commands.
#[derive(Clone, Debug, PartialEq, Eq)]
pub enum ExecuteMsg {
    AddMembers(AddMembersMsg),
    UpdateAdmins { admins: Vec<String> },
    Freeze {},
}

/// The queries.
#[derive(Clone, Debug, PartialEq, Eq)]
pub enum QueryMsg {
    Members { start_after: Option<String>, limit: Option<u32> },
    HasMember { member: String },
    Member { member: String },
    Config {},
    AdminList {},
    CanExecute { sender: String },
    ClaimLimit {},
    GetHeadstashAmount { address: String },
}

/// Commands of the host itself.
#[derive(Clone, Debug, PartialEq, Eq)]
pub enum SudoMsg {
    AddOperator { operator: String },
    RemoveOperator { operator: String },
}

#[derive(Clone, Debug, PartialEq, Eq)]
pub struct AdminListResponse {
    pub admins: Vec<String>,
    pub mutable: bool,
}

#[derive(Clone, Debug, PartialEq, Eq)]
pub struct MembersResponse {
    pub members: Vec<Member>,
}

#[derive(Clone, Copy, Debug, PartialEq, Eq)]
pub struct HasMemberResponse {
    pub has_member: bool,
}

#[derive(Clone, Copy, Debug, PartialEq, Eq)]
pub struct HeadstashAmountResponse {
    pub headstash_amount: u128,
}

#[derive(Clone, Debug, PartialEq, Eq)]
pub struct MemberResponse {
    pub member: Member,
}

#[derive(Clone, Copy, Debug, PartialEq, Eq)]
pub struct CanExecuteResponse {
    pub can_execute: bool,
}

#[derive(Clone, Copy, Debug, PartialEq, Eq)]
pub struct ClaimLimitResponse {
    pub limit: u32,
}

} // verus!
