//! What the membership registry keeps.

use crate::goop::members::sorted;
use crate::goop::msg::{member_views, Member, MemberView};
use crate::text::texts;
use vstd::prelude::*;
use vstd::string::StringExecFns;

verus! {

/// The most members that the list can hold.
pub const MAX_MEMBERS: u32 = 12376;

/// The most claims that an identity can be allowed.
pub const MAX_CLAIM: u32 = 1;

/// The number of members on a page when none is asked for.
pub const PAGINATION_DEFAULT_LIMIT: u32 = 25;

/// The most members on a page.
pub const PAGINATION_MAX_LIMIT: u32 = 100;

#[derive(Clone, Copy, Debug, PartialEq, Eq)]
pub struct Config {
    /// How many members the list holds.
    pub num_members: u32,
    /// How often an identity may claim.
    pub claim_limit: u32,
}

/// The admins, and whether they can still be changed.
#[derive(Clone, Debug, PartialEq, Eq)]
pub struct AdminList {
    pub admins: Vec<String>,
    pub mutable: bool,
}

pub struct AdminListView {
    pub admins: Seq<Seq<char>>,
    pub mutable: bool,
}

impl View for AdminList {
    type V = AdminListView;

    open spec fn view(&self) -> AdminListView {
        AdminListView { admins: texts(self.admins@), mutable: self.mutable }
    }
}

impl AdminListView {
    /// Whether `addr` is one of the admins.
    pub open spec fn is_admin(self, addr: Seq<char>) -> bool {
        self.admins.contains(addr)
    }

    /// Whether `addr` may change the admins.
    pub open spec fn can_modify(self, addr: Seq<char>) -> bool {
        self.mutable && self.is_admin(addr)
    }
}

impl AdminList {
    /// Whether `addr` is one of the admins.
    pub fn is_admin(&self, addr: &str) -> (r: bool)
        ensures
            r == self@.is_admin(addr@),
    {
        let wanted = String::from_str(addr);
        let mut i: usize = 0;
        while i < self.admins.len()
            invariant
                i <= self.admins.len(),
                wanted@ == addr@,
                forall|j: int| 0 <= j < i ==> (#[trigger] texts(self.admins@)[j]) != addr@,
            decreases self.admins.len() - i,
        {
            assert(texts(self.admins@)[i as int] == self.admins@[i as int]@);
            if self.admins[i] == wanted {
                return true;
            }
            i += 1;
        }
        false
    }

    /// Whether `addr` may change the admins.
    pub fn can_modify(&self, addr: &str) -> (r: bool)
        ensures
            r == self@.can_modify(addr@),
    {
        self.mutable && self.is_admin(addr)
    }
}

/// The whole state of the registry. The members stand in ascending order
/// of their identities.
#[derive(Clone, Debug, PartialEq, Eq)]
pub struct Goop {
    pub config: Config,
    pub admin_list: AdminList,
    pub members: Vec<Member>,
}

pub struct GoopView {
    pub config: Config,
    pub admin_list: AdminListView,
    pub members: Seq<MemberView>,
}

impl View for Goop {
    type V = GoopView;

    open spec fn view(&self) -> GoopView {
        GoopView {
            config: self.config,
            admin_list: self.admin_list@,
            members: member_views(self.members@),
        }
    }
}

impl GoopView {
    /// No identity is on the list twice, the list holds no more members
    /// than it can, and the count of members is their number.
    pub open spec fn wf(self) -> bool {
        &&& sorted(self.members)
        &&& self.members.len() <= MAX_MEMBERS
        &&& self.config.num_members == self.members.len()
    }
}

} // verus!
