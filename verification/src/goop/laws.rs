//! What holds of the membership registry in every state.

use crate::goop::contract::add_members_outcome;
use crate::goop::error::ContractErrorView;
use crate::goop::members::{
    has_member, insert_member, key_lt, lemma_insert_member, lemma_key_order_total,
    lemma_rank_bounds, lemma_rank_through_is, members_page, sorted,
};
use crate::goop::msg::MemberView;
use crate::goop::state::MAX_MEMBERS;
use vstd::prelude::*;

verus! {

/// The invariants of the list: an accepted addition keeps the list in
/// ascending order, so that no identity is on it twice; keeps it within
/// its capacity; adds exactly the identities that were to be added; and
/// takes none away.
pub proof fn lemma_add_members_keeps_invariants(members: Seq<MemberView>, to_add: Seq<MemberView>)
    requires
        sorted(members),
        members.len() <= MAX_MEMBERS,
        add_members_outcome(members, to_add) is Ok,
    ensures
        sorted(add_members_outcome(members, to_add)->Ok_0),
        add_members_outcome(members, to_add)->Ok_0.len() == members.len() + to_add.len(),
        add_members_outcome(members, to_add)->Ok_0.len() <= MAX_MEMBERS,
        forall|address: Seq<char>|
            has_member(add_members_outcome(members, to_add)->Ok_0, address) <==> (has_member(
                members,
                address,
            ) || has_member(to_add, address)),
    decreases to_add.len(),
{
    let after = add_members_outcome(members, to_add)->Ok_0;
    if to_add.len() == 0 {
    } else {
        let next = insert_member(members, to_add[0]);
        let rest = to_add.drop_first();
        lemma_insert_member(members, to_add[0]);
        lemma_add_members_keeps_invariants(next, rest);
        assert forall|address: Seq<char>|
            has_member(after, address) <==> (has_member(members, address) || has_member(
                to_add,
                address,
            )) by {
            if has_member(rest, address) {
                let i = choose|i: int|
                    0 <= i < rest.len() && (#[trigger] rest[i]).address == address;
                assert(to_add[i + 1].address == address);
            }
            if has_member(to_add, address) {
                let i = choose|i: int|
                    0 <= i < to_add.len() && (#[trigger] to_add[i]).address == address;
                if i > 0 {
                    assert(rest[i - 1].address == address);
                }
            }
        }
    }
}

/// A rejected addition names its reason: the list was full before one of
/// the members could be added, or one of them was on the list already or
/// came twice.
pub proof fn lemma_add_members_rejection(members: Seq<MemberView>, to_add: Seq<MemberView>)
    requires
        sorted(members),
        members.len() <= MAX_MEMBERS,
        add_members_outcome(members, to_add) is Err,
    ensures
        match add_members_outcome(members, to_add)->Err_0 {
            ContractErrorView::MembersExceeded { expected, actual } => expected
                == MAX_MEMBERS && actual == MAX_MEMBERS && members.len() + to_add.len()
                > MAX_MEMBERS,
            ContractErrorView::DuplicateMember(address) => has_member(
                to_add,
                address,
            ),
            _ => false,
        },
    decreases to_add.len(),
{
    if to_add.len() > 0 {
        if members.len() >= MAX_MEMBERS {
        } else if has_member(members, to_add[0].address) {
            assert(has_member(to_add, to_add[0].address));
        } else {
            let next = insert_member(members, to_add[0]);
            let rest = to_add.drop_first();
            lemma_insert_member(members, to_add[0]);
            lemma_add_members_rejection(next, rest);
            match add_members_outcome(next, rest)->Err_0 {
                ContractErrorView::DuplicateMember(address) => {
                    let i = choose|i: int|
                        0 <= i < rest.len() && (#[trigger] rest[i]).address == address;
                    assert(to_add[i + 1].address == address);
                },
                _ => {},
            }
        }
    }
}

/// Paging loses nothing: the page that starts after the last member of a
/// full page continues where that page ended.
pub proof fn lemma_pages_continue(members: Seq<MemberView>, limit: int, next_limit: int)
    requires
        sorted(members),
        0 < limit <= members.len(),
        0 <= next_limit,
    ensures
        members_page(members, None, limit) == members.subrange(0, limit),
        members_page(members, Some(members[limit - 1].address), next_limit) == members.subrange(
            limit,
            if limit + next_limit < members.len() {
                limit + next_limit
            } else {
                members.len() as int
            },
        ),
{
    let last = members[limit - 1].address;
    assert forall|j: int| 0 <= j < limit implies !key_lt(
        last,
        (#[trigger] members[j]).address,
    ) by {
        lemma_key_order_total(last, members[j].address);
        if j < limit - 1 {
            assert(key_lt(members[j].address, members[limit - 1].address));
        }
    }
    if limit < members.len() {
        assert(key_lt(members[limit - 1].address, members[limit].address));
    }
    lemma_rank_through_is(members, last, limit);
    lemma_rank_bounds(members, last);
}

} // verus!
