//! Who may change the registry, and the freezing of its admins.

use crate::goop::error::{ContractError, ContractErrorView};
use crate::goop::msg::{AdminListResponse, CanExecuteResponse};
use crate::goop::state::{AdminListView, Goop, GoopView};
use crate::text::texts;
use vstd::prelude::*;

verus! {

/// The registry with its admins replaced.
pub open spec fn with_admin_list(pre: GoopView, admin_list: AdminListView) -> GoopView {
    GoopView { admin_list, ..pre }
}

/// A copy of a list of strings.
pub fn copy_texts(strings: &Vec<String>) -> (copy: Vec<String>)
    ensures
        texts(copy@) == texts(strings@),
{
    let mut copy: Vec<String> = Vec::new();
    let mut i: usize = 0;
    while i < strings.len()
        invariant
            i <= strings.len(),
            texts(copy@) == texts(strings@).take(i as int),
        decreases strings.len() - i,
    {
        let ghost before = texts(copy@);
        copy.push(strings[i].clone());
        assert(texts(copy@) =~= before.push(strings@[i as int]@));
        assert(texts(strings@).take(i + 1) =~= texts(strings@).take(i as int).push(
            strings@[i as int]@,
        ));
        i += 1;
    }
    assert(texts(strings@).take(i as int) =~= texts(strings@));
    copy
}

/// Lets `sender` pass if it is an admin.
pub fn can_execute(state: &Goop, sender: String) -> (r: Result<String, ContractError>)
    ensures
        match r {
            Ok(admin) => state@.admin_list.is_admin(sender@) && admin@ == sender@,
            Err(e) => !state@.admin_list.is_admin(sender@) && e@ == ContractErrorView::Unauthorized,
        },
{
    if !state.admin_list.is_admin(sender.as_str()) {
        return Err(ContractError::Unauthorized {  });
    }
    Ok(sender)
}

/// Freezes the admins: from now on nobody can change them. Only an admin
/// may, and only while the admins can still be changed.
pub fn execute_freeze(state: &mut Goop, sender: &str) -> (r: Result<(), ContractError>)
    ensures
        match r {
            Ok(()) => old(state)@.admin_list.can_modify(sender@) && final(state)@
                == with_admin_list(
                old(state)@,
                AdminListView { admins: old(state)@.admin_list.admins, mutable: false },
            ),
            Err(e) => !old(state)@.admin_list.can_modify(sender@) && e@
                == ContractErrorView::Unauthorized && final(state)@ == old(state)@,
        },
{
    if !state.admin_list.can_modify(sender) {
        return Err(ContractError::Unauthorized {  });
    }
    state.admin_list.mutable = false;
    Ok(())
}

/// Replaces the admins. Only an admin may, and only while the admins can
/// still be changed.
pub fn execute_update_admins(state: &mut Goop, sender: &str, admins: Vec<String>) -> (r: Result<
    (),
    ContractError,
>)
    ensures
        match r {
            Ok(()) => old(state)@.admin_list.can_modify(sender@) && final(state)@
                == with_admin_list(
                old(state)@,
                AdminListView { admins: texts(admins@), mutable: old(state)@.admin_list.mutable },
            ),
            Err(e) => !old(state)@.admin_list.can_modify(sender@) && e@
                == ContractErrorView::Unauthorized && final(state)@ == old(state)@,
        },
{
    if !state.admin_list.can_modify(sender) {
        return Err(ContractError::Unauthorized {  });
    }
    state.admin_list.admins = admins;
    Ok(())
}

/// The admins, and whether they can still be changed.
pub fn query_admin_list(state: &Goop) -> (r: AdminListResponse)
    ensures
        texts(r.admins@) == state@.admin_list.admins,
        r.mutable == state@.admin_list.mutable,
{
    AdminListResponse { admins: copy_texts(&state.admin_list.admins), mutable: state.admin_list.mutable }
}

/// Whether `sender` is an admin.
pub fn query_can_execute(state: &Goop, sender: &str) -> (r: CanExecuteResponse)
    ensures
        r.can_execute == state@.admin_list.is_admin(sender@),
{
    CanExecuteResponse { can_execute: state.admin_list.is_admin(sender) }
}

} // verus!
