//! The allowlist itself: members in ascending order of their identities,
//! none of them twice.

use crate::bytes::{
    bytes_le, lemma_lex_le_antisym, lemma_lex_le_refl, lemma_lex_le_total, lemma_lex_le_trans,
    lex_le,
};
use crate::goop::msg::{member_views, Member, MemberView};
use vstd::prelude::*;
use vstd::utf8::encode_utf8;

verus! {

/// Whether the identity `a` comes strictly before `b`: by the bytes of
/// their UTF-8 encodings.
pub open spec fn key_lt(a: Seq<char>, b: Seq<char>) -> bool {
    !lex_le(encode_utf8(b), encode_utf8(a))
}

/// Whether the members stand in strictly ascending order of identity.
pub open spec fn sorted(members: Seq<MemberView>) -> bool {
    forall|i: int, j: int|
        0 <= i < j < members.len() ==> key_lt(
            (#[trigger] members[i]).address,
            (#[trigger] members[j]).address,
        )
}

/// Whether `address` is a member.
pub open spec fn has_member(members: Seq<MemberView>, address: Seq<char>) -> bool {
    exists|i: int| 0 <= i < members.len() && (#[trigger] members[i]).address == address
}

/// How many members at the head of the list come strictly before
/// `address`; in an ascending list, how many members do.
pub open spec fn rank(members: Seq<MemberView>, address: Seq<char>) -> int
    decreases members.len(),
{
    if members.len() > 0 && key_lt(members[0].address, address) {
        1 + rank(members.drop_first(), address)
    } else {
        0
    }
}

/// How many members at the head of the list do not come after `address`;
/// in an ascending list, how many members do not.
pub open spec fn rank_through(members: Seq<MemberView>, address: Seq<char>) -> int
    decreases members.len(),
{
    if members.len() > 0 && !key_lt(address, members[0].address) {
        1 + rank_through(members.drop_first(), address)
    } else {
        0
    }
}

/// The list with `member` put where the order has it.
pub open spec fn insert_member(members: Seq<MemberView>, member: MemberView) -> Seq<MemberView> {
    members.insert(rank(members, member.address), member)
}

/// The members after `start_after`, or from the first if there is none;
/// at most `limit` of them.
pub open spec fn members_page(
    members: Seq<MemberView>,
    start_after: Option<Seq<char>>,
    limit: int,
) -> Seq<MemberView> {
    let from = match start_after {
        Some(address) => rank_through(members, address),
        None => 0,
    };
    let to = if from + limit < members.len() {
        from + limit
    } else {
        members.len() as int
    };
    members.subrange(from, to)
}

/// Two identities neither of which comes before the other are the same.
pub proof fn lemma_key_order_total(a: Seq<char>, b: Seq<char>)
    ensures
        key_lt(a, b) || key_lt(b, a) || a == b,
        !(key_lt(a, b) && key_lt(b, a)),
        !key_lt(a, a),
{
    broadcast use vstd::utf8::encode_utf8_decode_utf8;

    lemma_lex_le_total(encode_utf8(a), encode_utf8(b));
    lemma_lex_le_refl(encode_utf8(a));
    if lex_le(encode_utf8(a), encode_utf8(b)) && lex_le(encode_utf8(b), encode_utf8(a)) {
        lemma_lex_le_antisym(encode_utf8(a), encode_utf8(b));
        assert(vstd::utf8::decode_utf8(encode_utf8(a)) == a);
        assert(vstd::utf8::decode_utf8(encode_utf8(b)) == b);
    }
}

/// The order of identities is transitive.
pub proof fn lemma_key_lt_trans(a: Seq<char>, b: Seq<char>, c: Seq<char>)
    requires
        key_lt(a, b),
        !key_lt(c, b),
    ensures
        key_lt(a, c),
{
    // a < b and b <= c; if c <= a then b <= a, against a < b.
    if lex_le(encode_utf8(c), encode_utf8(a)) {
        lemma_lex_le_trans(encode_utf8(b), encode_utf8(c), encode_utf8(a));
    }
}

/// In any list, the rank is the number of members at the head that come
/// before the address.
pub proof fn lemma_rank_is(members: Seq<MemberView>, address: Seq<char>, at: int)
    requires
        0 <= at <= members.len(),
        forall|j: int| 0 <= j < at ==> key_lt((#[trigger] members[j]).address, address),
        at < members.len() ==> !key_lt(members[at].address, address),
    ensures
        rank(members, address) == at,
    decreases at,
{
    if at > 0 {
        let rest = members.drop_first();
        assert(key_lt(members[0].address, address));
        assert forall|j: int| 0 <= j < at - 1 implies key_lt(
            (#[trigger] rest[j]).address,
            address,
        ) by {
            assert(rest[j] == members[j + 1]);
        }
        if at - 1 < rest.len() {
            assert(rest[at - 1] == members[at]);
        }
        lemma_rank_is(rest, address, at - 1);
    }
}

/// The same for the rank that takes the address itself in.
pub proof fn lemma_rank_through_is(members: Seq<MemberView>, address: Seq<char>, at: int)
    requires
        0 <= at <= members.len(),
        forall|j: int| 0 <= j < at ==> !key_lt(address, (#[trigger] members[j]).address),
        at < members.len() ==> key_lt(address, members[at].address),
    ensures
        rank_through(members, address) == at,
    decreases at,
{
    if at > 0 {
        let rest = members.drop_first();
        assert(!key_lt(address, members[0].address));
        assert forall|j: int| 0 <= j < at - 1 implies !key_lt(
            address,
            (#[trigger] rest[j]).address,
        ) by {
            assert(rest[j] == members[j + 1]);
        }
        if at - 1 < rest.len() {
            assert(rest[at - 1] == members[at]);
        }
        lemma_rank_through_is(rest, address, at - 1);
    }
}

/// The rank lies within the list.
pub proof fn lemma_rank_bounds(members: Seq<MemberView>, address: Seq<char>)
    ensures
        0 <= rank(members, address) <= members.len(),
        0 <= rank_through(members, address) <= members.len(),
    decreases members.len(),
{
    if members.len() > 0 {
        lemma_rank_bounds(members.drop_first(), address);
    }
}

/// In an ascending list, a member stands at the rank of its identity, and
/// an identity at whose rank another one stands is no member.
pub proof fn lemma_member_at_rank(members: Seq<MemberView>, address: Seq<char>, at: int)
    requires
        sorted(members),
        0 <= at <= members.len(),
        forall|j: int| 0 <= j < at ==> key_lt((#[trigger] members[j]).address, address),
        at < members.len() ==> !key_lt(members[at].address, address),
    ensures
        has_member(members, address) <==> (at < members.len() && members[at].address == address),
{
    if has_member(members, address) {
        let i = choose|i: int| 0 <= i < members.len() && (#[trigger] members[i]).address == address;
        lemma_key_order_total(address, address);
        if i < at {
            assert(key_lt(members[i].address, address));
        } else if i > at {
            // members[at] < members[i] == address, against the stop at `at`
            assert(key_lt(members[at].address, members[i].address));
        }
    }
}

/// Putting a new member where the order has it keeps the list ascending,
/// adds that member and no other, and takes none away.
pub proof fn lemma_insert_member(members: Seq<MemberView>, member: MemberView)
    requires
        sorted(members),
        !has_member(members, member.address),
    ensures
        sorted(insert_member(members, member)),
        insert_member(members, member).len() == members.len() + 1,
        forall|address: Seq<char>|
            has_member(insert_member(members, member), address) <==> (has_member(members, address)
                || address == member.address),
{
    let at = rank(members, member.address);
    lemma_rank_bounds(members, member.address);
    lemma_rank_split(members, member.address);
    let longer = insert_member(members, member);
    assert forall|i: int, j: int| 0 <= i < j < longer.len() implies key_lt(
        (#[trigger] longer[i]).address,
        (#[trigger] longer[j]).address,
    ) by {
        if j < at {
            assert(longer[i] == members[i] && longer[j] == members[j]);
        } else if j == at {
            assert(longer[i] == members[i]);
        } else if i < at {
            assert(longer[i] == members[i] && longer[j] == members[j - 1]);
        } else if i == at {
            assert(longer[j] == members[j - 1]);
            assert(!key_lt(members[j - 1].address, member.address));
            assert(members[j - 1].address != member.address);
            lemma_key_order_total(member.address, members[j - 1].address);
        } else {
            assert(longer[i] == members[i - 1] && longer[j] == members[j - 1]);
        }
    }
    assert forall|address: Seq<char>|
        has_member(longer, address) <==> (has_member(members, address) || address
            == member.address) by {
        if has_member(longer, address) {
            let i = choose|i: int| 0 <= i < longer.len() && (#[trigger] longer[i]).address == address;
            if i < at {
                assert(members[i].address == address);
            } else if i > at {
                assert(members[i - 1].address == address);
            }
        }
        if has_member(members, address) {
            let i = choose|i: int|
                0 <= i < members.len() && (#[trigger] members[i]).address == address;
            if i < at {
                assert(longer[i].address == address);
            } else {
                assert(longer[i + 1].address == address);
            }
        }
        if address == member.address {
            assert(longer[at].address == address);
        }
    }
}

/// In an ascending list, the members before the rank of an address come
/// before it and the others do not.
pub proof fn lemma_rank_split(members: Seq<MemberView>, address: Seq<char>)
    requires
        sorted(members),
    ensures
        forall|j: int|
            0 <= j < rank(members, address) ==> key_lt((#[trigger] members[j]).address, address),
        forall|j: int|
            rank(members, address) <= j < members.len() ==> !key_lt(
                (#[trigger] members[j]).address,
                address,
            ),
    decreases members.len(),
{
    lemma_rank_bounds(members, address);
    if members.len() > 0 {
        let rest = members.drop_first();
        assert forall|i: int, j: int| 0 <= i < j < rest.len() implies key_lt(
            (#[trigger] rest[i]).address,
            (#[trigger] rest[j]).address,
        ) by {
            assert(rest[i] == members[i + 1] && rest[j] == members[j + 1]);
        }
        lemma_rank_split(rest, address);
        if key_lt(members[0].address, address) {
            assert forall|j: int| 0 <= j < rank(members, address) implies key_lt(
                (#[trigger] members[j]).address,
                address,
            ) by {
                if j > 0 {
                    assert(members[j] == rest[j - 1]);
                }
            }
            assert forall|j: int| rank(members, address) <= j < members.len() implies !key_lt(
                (#[trigger] members[j]).address,
                address,
            ) by {
                assert(members[j] == rest[j - 1]);
            }
        } else {
            assert forall|j: int| 0 <= j < members.len() implies !key_lt(
                (#[trigger] members[j]).address,
                address,
            ) by {
                if j > 0 {
                    // members[0] < members[j]; were members[j] < address, so were members[0]
                    assert(key_lt(members[0].address, members[j].address));
                    if key_lt(members[j].address, address) {
                        lemma_key_order_total(members[j].address, address);
                        lemma_key_lt_trans(members[0].address, members[j].address, address);
                    }
                }
            }
        }
    }
}

/// Whether the identity `a` comes strictly before `b`.
pub fn address_lt(a: &str, b: &str) -> (r: bool)
    ensures
        r == key_lt(a@, b@),
{
    !bytes_le(b.as_bytes(), a.as_bytes())
}

/// A copy of a member.
pub fn copy_member(member: &Member) -> (copy: Member)
    ensures
        copy@ == member@,
{
    Member {
        address: member.address.clone(),
        headstash_amount: member.headstash_amount,
        claim_count: member.claim_count,
    }
}

/// A copy of a list of members.
pub fn copy_members(members: &Vec<Member>) -> (copy: Vec<Member>)
    ensures
        member_views(copy@) == member_views(members@),
{
    let mut copy: Vec<Member> = Vec::new();
    let mut i: usize = 0;
    while i < members.len()
        invariant
            i <= members.len(),
            member_views(copy@) == member_views(members@).take(i as int),
        decreases members.len() - i,
    {
        let ghost before = member_views(copy@);
        copy.push(copy_member(&members[i]));
        assert(member_views(copy@) =~= before.push(members@[i as int]@));
        assert(member_views(members@).take(i + 1) =~= member_views(members@).take(i as int).push(
            members@[i as int]@,
        ));
        i += 1;
    }
    assert(member_views(members@).take(i as int) =~= member_views(members@));
    copy
}

/// The place of `address` in an ascending list, and whether it is there.
pub fn find_member(members: &Vec<Member>, address: &str) -> (r: (usize, bool))
    requires
        sorted(member_views(members@)),
    ensures
        r.0 == rank(member_views(members@), address@),
        r.0 <= members.len(),
        r.1 == has_member(member_views(members@), address@),
        r.1 ==> r.0 < members.len() && members@[r.0 as int]@.address == address@,
{
    let ghost views = member_views(members@);
    let mut i: usize = 0;
    while i < members.len()
        invariant
            i <= members.len(),
            views == member_views(members@),
            sorted(views),
            forall|j: int| 0 <= j < i ==> key_lt((#[trigger] views[j]).address, address@),
        decreases members.len() - i,
    {
        assert(views[i as int] == members@[i as int]@);
        if !address_lt(members[i].address.as_str(), address) {
            let found = !address_lt(address, members[i].address.as_str());
            proof {
                lemma_rank_is(views, address@, i as int);
                lemma_member_at_rank(views, address@, i as int);
                lemma_key_order_total(views[i as int].address, address@);
            }
            return (i, found);
        }
        i += 1;
    }
    proof {
        lemma_rank_is(views, address@, i as int);
        lemma_member_at_rank(views, address@, i as int);
    }
    (i, false)
}

/// Puts a new member into an ascending list, where the order has it.
pub(crate) fn insert_sorted(members: &mut Vec<Member>, member: Member)
    requires
        sorted(member_views(old(members)@)),
        !has_member(member_views(old(members)@), member@.address),
    ensures
        member_views(final(members)@) == insert_member(member_views(old(members)@), member@),
        sorted(member_views(final(members)@)),
{
    let (at, _) = find_member(members, member.address.as_str());
    proof {
        lemma_insert_member(member_views(members@), member@);
    }
    members.insert(at, member);
    assert(member_views(members@) =~= insert_member(member_views(old(members)@), member@));
}

/// The members after `start_after`, or from the first if there is none;
/// at most `limit` of them.
pub fn page_of(members: &Vec<Member>, start_after: Option<&str>, limit: usize) -> (page: Vec<Member>)
    requires
        sorted(member_views(members@)),
    ensures
        member_views(page@) == members_page(
            member_views(members@),
            match start_after {
                Some(address) => Some(address@),
                None => None,
            },
            limit as int,
        ),
{
    let ghost views = member_views(members@);
    let mut from: usize = 0;
    match start_after {
        Some(address) => {
            while from < members.len() && !address_lt(address, members[from].address.as_str())
                invariant
                    from <= members.len(),
                    views == member_views(members@),
                    forall|j: int| 0 <= j < from ==> !key_lt(address@, (#[trigger] views[j]).address),
                decreases members.len() - from,
            {
                assert(views[from as int] == members@[from as int]@);
                from += 1;
            }
            proof {
                if from < members.len() {
                    assert(views[from as int] == members@[from as int]@);
                }
                lemma_rank_through_is(views, address@, from as int);
            }
        },
        None => {},
    }
    let to: usize = if limit < members.len() - from {
        from + limit
    } else {
        members.len()
    };
    let mut page: Vec<Member> = Vec::new();
    let mut i: usize = from;
    while i < to
        invariant
            from <= i <= to <= members.len(),
            views == member_views(members@),
            member_views(page@) == views.subrange(from as int, i as int),
        decreases to - i,
    {
        let ghost before = member_views(page@);
        page.push(copy_member(&members[i]));
        assert(member_views(page@) =~= before.push(members@[i as int]@));
        assert(views.subrange(from as int, i + 1) =~= views.subrange(from as int, i as int).push(
            views[i as int],
        ));
        i += 1;
    }
    page
}

} // verus!
