//! The operations of the membership registry on its state.

use crate::goop::admin::{
    can_execute, execute_freeze, execute_update_admins, query_admin_list,
    query_can_execute, with_admin_list,
};
use crate::goop::error::{ContractError, ContractErrorView};
use crate::goop::members::{
    copy_member, copy_members, find_member, has_member, insert_member, insert_sorted,
    lemma_insert_member, members_page, page_of, rank, sorted,
};
use crate::goop::msg::{
    member_views, AddMembersMsg, AdminListResponse, CanExecuteResponse, ClaimLimitResponse,
    ExecuteMsg, HasMemberResponse, HeadstashAmountResponse, InstantiateMsg, Member, MemberView,
    MembersResponse, QueryMsg,
};
use crate::goop::state::{
    AdminList, AdminListView, Config, Goop, GoopView, MAX_CLAIM, MAX_MEMBERS,
    PAGINATION_DEFAULT_LIMIT, PAGINATION_MAX_LIMIT,
};
use crate::response::text_view;
use crate::text::texts;
use vstd::prelude::*;
use vstd::string::StringExecFns;

verus! {

/// The list after the members of `to_add` were added one by one, or the
/// reason why the first one that cannot be added cannot: the list is full,
/// or the identity is on it already.
pub open spec fn add_members_outcome(members: Seq<MemberView>, to_add: Seq<MemberView>) -> Result<
    Seq<MemberView>,
    ContractErrorView,
>
    decreases to_add.len(),
{
    if to_add.len() == 0 {
        Ok(members)
    } else if members.len() >= MAX_MEMBERS {
        Err(
            ContractErrorView::MembersExceeded {
                expected: MAX_MEMBERS,
                actual: members.len() as u32,
            },
        )
    } else if has_member(members, to_add[0].address) {
        Err(ContractErrorView::DuplicateMember(to_add[0].address))
    } else {
        add_members_outcome(insert_member(members, to_add[0]), to_add.drop_first())
    }
}

/// The number of members as it is reported: a number beyond `u32` is
/// reported as the largest `u32`.
pub open spec fn reported_len(len: nat) -> u32 {
    if len <= u32::MAX {
        len as u32
    } else {
        u32::MAX
    }
}

/// The members of a new registry, or the reason why it cannot be set up:
/// the claim limit must be between 1 and `MAX_CLAIM`, the members must be
/// no more than `MAX_MEMBERS`, and none of them may come twice.
pub open spec fn instantiate_outcome(claim_limit: u32, members: Seq<MemberView>) -> Result<
    Seq<MemberView>,
    ContractErrorView,
> {
    if claim_limit == 0 || claim_limit > MAX_CLAIM {
        Err(ContractErrorView::InvalidMemberLimit { min: 1, max: MAX_CLAIM, got: claim_limit })
    } else if members.len() > MAX_MEMBERS {
        Err(
            ContractErrorView::MembersExceeded {
                expected: MAX_MEMBERS,
                actual: reported_len(members.len()),
            },
        )
    } else {
        add_members_outcome(Seq::empty(), members)
    }
}

/// The registry with its members replaced, and their count with them.
pub open spec fn with_members(pre: GoopView, members: Seq<MemberView>) -> GoopView {
    GoopView {
        members,
        config: Config { num_members: members.len() as u32, claim_limit: pre.config.claim_limit },
        ..pre
    }
}

/// The number of members on a page for the limit that was asked for.
pub open spec fn page_limit(limit: Option<u32>) -> int {
    let asked = match limit {
        Some(limit) => limit,
        None => PAGINATION_DEFAULT_LIMIT,
    };
    if asked < PAGINATION_MAX_LIMIT {
        asked as int
    } else {
        PAGINATION_MAX_LIMIT as int
    }
}

/// The member with the identity `address`.
pub open spec fn member_of(members: Seq<MemberView>, address: Seq<char>) -> MemberView
    recommends
        has_member(members, address),
{
    members[rank(members, address)]
}

/// Adds the members of `to_add` to an ascending list, one by one. On an
/// error the list is as far as it got.
fn add_all(members: &mut Vec<Member>, to_add: &Vec<Member>) -> (r: Result<(), ContractError>)
    requires
        sorted(member_views(old(members)@)),
        old(members)@.len() <= MAX_MEMBERS,
    ensures
        match r {
            Ok(()) => add_members_outcome(member_views(old(members)@), member_views(to_add@))
                == Ok::<Seq<MemberView>, ContractErrorView>(member_views(final(members)@))
                && sorted(member_views(final(members)@)) && final(members)@.len() <= MAX_MEMBERS,
            Err(e) => add_members_outcome(member_views(old(members)@), member_views(to_add@))
                == Err::<Seq<MemberView>, ContractErrorView>(e@),
        },
{
    let ghost adding = member_views(to_add@);
    let ghost start = member_views(members@);
    let mut i: usize = 0;
    assert(adding.skip(0) =~= adding);
    while i < to_add.len()
        invariant
            i <= to_add.len(),
            adding == member_views(to_add@),
            start == member_views(old(members)@),
            sorted(member_views(members@)),
            members@.len() <= MAX_MEMBERS,
            add_members_outcome(start, adding) == add_members_outcome(
                member_views(members@),
                adding.skip(i as int),
            ),
        decreases to_add.len() - i,
    {
        let ghost rest = adding.skip(i as int);
        let ghost now = member_views(members@);
        assert(rest[0] == to_add@[i as int]@);
        assert(rest.drop_first() =~= adding.skip(i + 1));
        if members.len() >= MAX_MEMBERS as usize {
            return Err(
                ContractError::MembersExceeded {
                    expected: MAX_MEMBERS,
                    actual: members.len() as u32,
                },
            );
        }
        let (_, found) = find_member(members, to_add[i].address.as_str());
        if found {
            return Err(ContractError::DuplicateMember(to_add[i].address.clone()));
        }
        insert_sorted(members, copy_member(&to_add[i]));
        proof {
            lemma_insert_member(now, rest[0]);
        }
        i += 1;
    }
    assert(adding.skip(i as int).len() == 0);
    Ok(())
}

/// Sets up the registry with its first members, its claim limit and its
/// admins.
pub fn instantiate(msg: InstantiateMsg) -> (r: Result<Goop, ContractError>)
    ensures
        match r {
            Ok(state) => {
                &&& state@.wf()
                &&& instantiate_outcome(msg.claim_limit, member_views(msg.members@)) == Ok::<
                    Seq<MemberView>,
                    ContractErrorView,
                >(state@.members)
                &&& state@.config.claim_limit == msg.claim_limit
                &&& state@.admin_list == (AdminListView {
                    admins: texts(msg.admins@),
                    mutable: msg.admins_mutable,
                })
            },
            Err(e) => instantiate_outcome(msg.claim_limit, member_views(msg.members@)) == Err::<
                Seq<MemberView>,
                ContractErrorView,
            >(e@),
        },
{
    if msg.claim_limit == 0 || msg.claim_limit > MAX_CLAIM {
        return Err(
            ContractError::InvalidMemberLimit { min: 1, max: MAX_CLAIM, got: msg.claim_limit },
        );
    }
    if msg.members.len() > MAX_MEMBERS as usize {
        let actual: u32 = if msg.members.len() <= u32::MAX as usize {
            msg.members.len() as u32
        } else {
            u32::MAX
        };
        return Err(ContractError::MembersExceeded { expected: MAX_MEMBERS, actual });
    }
    let mut members: Vec<Member> = Vec::new();
    assert(member_views(members@) =~= Seq::<MemberView>::empty());
    match add_all(&mut members, &msg.members) {
        Ok(()) => {},
        Err(e) => {
            return Err(e);
        },
    }
    Ok(
        Goop {
            config: Config { num_members: members.len() as u32, claim_limit: msg.claim_limit },
            admin_list: AdminList { admins: msg.admins, mutable: msg.admins_mutable },
            members,
        },
    )
}

/// Adds members to the list. Only an admin may. If one of them cannot be
/// added, none is.
pub fn execute_add_members(state: &mut Goop, sender: &str, msg: AddMembersMsg) -> (r: Result<
    (),
    ContractError,
>)
    requires
        old(state)@.wf(),
    ensures
        final(state)@.wf(),
        match r {
            Ok(()) => {
                &&& old(state)@.admin_list.is_admin(sender@)
                &&& add_members_outcome(old(state)@.members, member_views(msg.to_add@)) is Ok
                &&& final(state)@ == with_members(
                    old(state)@,
                    add_members_outcome(old(state)@.members, member_views(msg.to_add@))->Ok_0,
                )
            },
            Err(e) => {
                &&& final(state)@ == old(state)@
                &&& if !old(state)@.admin_list.is_admin(sender@) {
                    e@ == ContractErrorView::Unauthorized
                } else {
                    add_members_outcome(old(state)@.members, member_views(msg.to_add@)) == Err::<
                        Seq<MemberView>,
                        ContractErrorView,
                    >(e@)
                }
            },
        },
{
    match can_execute(state, String::from_str(sender)) {
        Ok(_) => {},
        Err(e) => {
            return Err(e);
        },
    }
    let mut members = copy_members(&state.members);
    match add_all(&mut members, &msg.to_add) {
        Ok(()) => {},
        Err(e) => {
            return Err(e);
        },
    }
    state.config.num_members = members.len() as u32;
    state.members = members;
    Ok(())
}

/// Carries out a command.
pub fn execute(state: &mut Goop, sender: &str, msg: ExecuteMsg) -> (r: Result<(), ContractError>)
    requires
        old(state)@.wf(),
    ensures
        final(state)@.wf(),
        r is Err ==> final(state)@ == old(state)@,
        match msg {
            ExecuteMsg::AddMembers(add) => match r {
                Ok(()) => old(state)@.admin_list.is_admin(sender@) && add_members_outcome(
                    old(state)@.members,
                    member_views(add.to_add@),
                ) is Ok && final(state)@ == with_members(
                    old(state)@,
                    add_members_outcome(old(state)@.members, member_views(add.to_add@))->Ok_0,
                ),
                Err(e) => if !old(state)@.admin_list.is_admin(sender@) {
                    e@ == ContractErrorView::Unauthorized
                } else {
                    add_members_outcome(old(state)@.members, member_views(add.to_add@)) == Err::<
                        Seq<MemberView>,
                        ContractErrorView,
                    >(e@)
                },
            },
            ExecuteMsg::UpdateAdmins { admins } => match r {
                Ok(()) => old(state)@.admin_list.can_modify(sender@) && final(state)@
                    == with_admin_list(
                    old(state)@,
                    AdminListView {
                        admins: texts(admins@),
                        mutable: old(state)@.admin_list.mutable,
                    },
                ),
                Err(e) => !old(state)@.admin_list.can_modify(sender@) && e@
                    == ContractErrorView::Unauthorized,
            },
            ExecuteMsg::Freeze {  } => match r {
                Ok(()) => old(state)@.admin_list.can_modify(sender@) && final(state)@
                    == with_admin_list(
                    old(state)@,
                    AdminListView { admins: old(state)@.admin_list.admins, mutable: false },
                ),
                Err(e) => !old(state)@.admin_list.can_modify(sender@) && e@
                    == ContractErrorView::Unauthorized,
            },
        },
{
    match msg {
        ExecuteMsg::AddMembers(add) => execute_add_members(state, sender, add),
        ExecuteMsg::UpdateAdmins { admins } => execute_update_admins(state, sender, admins),
        ExecuteMsg::Freeze {  } => execute_freeze(state, sender),
    }
}

/// How often an identity may claim.
pub fn query_claim_limit(state: &Goop) -> (limit: u32)
    ensures
        limit == state@.config.claim_limit,
{
    state.config.claim_limit
}

/// A page of the list, in ascending order of identity: the members after
/// `start_after`, or from the first if there is none; as many as `limit`
/// says, 25 if it says nothing, and never more than 100.
pub fn query_members(state: &Goop, start_after: Option<String>, limit: Option<u32>) -> (r:
    MembersResponse)
    requires
        state@.wf(),
    ensures
        member_views(r.members@) == members_page(
            state@.members,
            text_view(start_after),
            page_limit(limit),
        ),
{
    let asked: u32 = match limit {
        Some(limit) => limit,
        None => PAGINATION_DEFAULT_LIMIT,
    };
    let limit: usize = if asked < PAGINATION_MAX_LIMIT {
        asked as usize
    } else {
        PAGINATION_MAX_LIMIT as usize
    };
    let members = match &start_after {
        Some(address) => page_of(&state.members, Some(address.as_str()), limit),
        None => page_of(&state.members, None, limit),
    };
    MembersResponse { members }
}

/// Whether `member` is on the list.
pub fn query_has_member(state: &Goop, member: String) -> (r: HasMemberResponse)
    requires
        state@.wf(),
    ensures
        r.has_member == has_member(state@.members, member@),
{
    let (_, found) = find_member(&state.members, member.as_str());
    HasMemberResponse { has_member: found }
}

/// The entry of `member`, if it is on the list.
pub fn query_member(state: &Goop, member: String) -> (r: Result<Member, ContractError>)
    requires
        state@.wf(),
    ensures
        match r {
            Ok(found) => has_member(state@.members, member@) && found@ == member_of(
                state@.members,
                member@,
            ) && found@.address == member@,
            Err(e) => !has_member(state@.members, member@) && e@
                == ContractErrorView::NoMemberFound(member@),
        },
{
    let (at, found) = find_member(&state.members, member.as_str());
    if !found {
        return Err(ContractError::NoMemberFound(member));
    }
    Ok(copy_member(&state.members[at]))
}

/// What `address` may claim, if it is on the list.
pub fn query_get_headstash_amount(state: &Goop, address: String) -> (r: Result<
    HeadstashAmountResponse,
    ContractError,
>)
    requires
        state@.wf(),
    ensures
        match r {
            Ok(found) => has_member(state@.members, address@) && found.headstash_amount
                == member_of(state@.members, address@).headstash_amount,
            Err(e) => !has_member(state@.members, address@) && e@
                == ContractErrorView::NoMemberFound(address@),
        },
{
    match query_member(state, address) {
        Ok(member) => Ok(HeadstashAmountResponse { headstash_amount: member.headstash_amount }),
        Err(e) => Err(e),
    }
}

/// The number of members and the claim limit.
pub fn query_config(state: &Goop) -> (r: ConfigResponse)
    ensures
        r.num_members == state@.config.num_members,
        r.claim_limit == state@.config.claim_limit,
        r.config == state@.config,
{
    ConfigResponse {
        num_members: state.config.num_members,
        claim_limit: state.config.claim_limit,
        config: state.config,
    }
}

#[derive(Clone, Copy, Debug, PartialEq, Eq)]
pub struct ConfigResponse {
    pub num_members: u32,
    pub claim_limit: u32,
    pub config: Config,
}

/// The answer to a query.
#[derive(Clone, Debug, PartialEq, Eq)]
pub enum QueryResponse {
    Members(MembersResponse),
    HasMember(HasMemberResponse),
    Member(Member),
    Config(ConfigResponse),
    AdminList(AdminListResponse),
    CanExecute(CanExecuteResponse),
    ClaimLimit(ClaimLimitResponse),
    HeadstashAmount(HeadstashAmountResponse),
}

/// Answers a query.
pub fn query(state: &Goop, msg: QueryMsg) -> (r: Result<QueryResponse, ContractError>)
    requires
        state@.wf(),
    ensures
        match msg {
            QueryMsg::Members { start_after, limit } => r matches Ok(QueryResponse::Members(page))
                && member_views(page.members@) == members_page(
                state@.members,
                text_view(start_after),
                page_limit(limit),
            ),
            QueryMsg::HasMember { member } => r matches Ok(QueryResponse::HasMember(found))
                && found.has_member == has_member(state@.members, member@),
            QueryMsg::Member { member } => if has_member(state@.members, member@) {
                r matches Ok(QueryResponse::Member(found)) && found@ == member_of(
                    state@.members,
                    member@,
                )
            } else {
                r matches Err(e) && e@ == ContractErrorView::NoMemberFound(member@)
            },
            QueryMsg::Config {  } => r matches Ok(QueryResponse::Config(found)) && found.config
                == state@.config && found.num_members == state@.config.num_members
                && found.claim_limit == state@.config.claim_limit,
            QueryMsg::AdminList {  } => r matches Ok(QueryResponse::AdminList(found)) && texts(
                found.admins@,
            ) == state@.admin_list.admins && found.mutable == state@.admin_list.mutable,
            QueryMsg::CanExecute { sender } => r matches Ok(QueryResponse::CanExecute(found))
                && found.can_execute == state@.admin_list.is_admin(sender@),
            QueryMsg::ClaimLimit {  } => r matches Ok(QueryResponse::ClaimLimit(found))
                && found.limit == state@.config.claim_limit,
            QueryMsg::GetHeadstashAmount { address } => if has_member(state@.members, address@) {
                r matches Ok(QueryResponse::HeadstashAmount(found)) && found.headstash_amount
                    == member_of(state@.members, address@).headstash_amount
            } else {
                r matches Err(e) && e@ == ContractErrorView::NoMemberFound(address@)
            },
        },
{
    match msg {
        QueryMsg::Members { start_after, limit } => Ok(
            QueryResponse::Members(query_members(state, start_after, limit)),
        ),
        QueryMsg::HasMember { member } => Ok(
            QueryResponse::HasMember(query_has_member(state, member)),
        ),
        QueryMsg::Member { member } => match query_member(state, member) {
            Ok(found) => Ok(QueryResponse::Member(found)),
            Err(e) => Err(e),
        },
        QueryMsg::Config {  } => Ok(QueryResponse::Config(query_config(state))),
        QueryMsg::AdminList {  } => Ok(QueryResponse::AdminList(query_admin_list(state))),
        QueryMsg::CanExecute { sender } => Ok(
            QueryResponse::CanExecute(query_can_execute(state, sender.as_str())),
        ),
        QueryMsg::ClaimLimit {  } => Ok(
            QueryResponse::ClaimLimit(ClaimLimitResponse { limit: query_claim_limit(state) }),
        ),
        QueryMsg::GetHeadstashAmount { address } => match query_get_headstash_amount(
            state,
            address,
        ) {
            Ok(found) => Ok(QueryResponse::HeadstashAmount(found)),
            Err(e) => Err(e),
        },
    }
}

} // verus!
