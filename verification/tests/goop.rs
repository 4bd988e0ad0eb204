use headstash::goop::admin::{
    can_execute, execute_freeze, execute_update_admins, query_admin_list, query_can_execute,
};
use headstash::goop::contract::{
    execute, execute_add_members, instantiate, query, query_claim_limit, query_config,
    query_get_headstash_amount, query_has_member, query_member, query_members, QueryResponse,
};
use headstash::goop::error::ContractError;
use headstash::goop::helpers::CwGoopContract;
use headstash::goop::members::address_lt;
use headstash::goop::msg::{
    AddMembersMsg, ExecuteMsg, HasMemberResponse, InstantiateMsg, Member, QueryMsg,
};
use headstash::goop::state::{Goop, MAX_MEMBERS};

const ADMIN: &str = "terp1admin";

fn member(address: &str, amount: u128) -> Member {
    Member { address: address.to_string(), headstash_amount: amount, claim_count: 0 }
}

fn registry(members: Vec<Member>) -> Goop {
    instantiate(InstantiateMsg {
        members,
        claim_limit: 1,
        admins: vec![ADMIN.to_string(), "terp1second".to_string()],
        admins_mutable: true,
    })
    .unwrap()
}

fn numbered(n: usize) -> Vec<Member> {
    (0..n).map(|i| member(&format!("0x{:05}", i), i as u128)).collect()
}

fn addresses(state: &Goop, start_after: Option<&str>, limit: Option<u32>) -> Vec<String> {
    query_members(state, start_after.map(|s| s.to_string()), limit)
        .members
        .into_iter()
        .map(|m| m.address)
        .collect()
}

#[test]
fn claim_limit_must_be_one() {
    let with_limit = |claim_limit: u32| {
        instantiate(InstantiateMsg {
            members: vec![],
            claim_limit,
            admins: vec![],
            admins_mutable: false,
        })
    };
    assert_eq!(
        with_limit(0),
        Err(ContractError::InvalidMemberLimit { min: 1, max: 1, got: 0 })
    );
    assert_eq!(
        with_limit(2),
        Err(ContractError::InvalidMemberLimit { min: 1, max: 1, got: 2 })
    );
    let state = with_limit(1).unwrap();
    assert_eq!(query_claim_limit(&state), 1);
    assert_eq!(query_config(&state).num_members, 0);
}

#[test]
fn members_are_kept_in_ascending_order() {
    let state = registry(vec![member("0xcc", 3), member("0xaa", 1), member("0xbb", 2)]);
    assert_eq!(addresses(&state, None, None), vec!["0xaa", "0xbb", "0xcc"]);
    assert_eq!(query_config(&state).num_members, 3);
    assert_eq!(query_config(&state).claim_limit, 1);
    assert_eq!(query_config(&state).config, state.config);
    assert!(address_lt("0xaa", "0xab"));
    assert!(address_lt("0xa", "0xaa"));
    assert!(!address_lt("0xaa", "0xaa"));
    assert!(!address_lt("0xb", "0xaa"));
    assert!(address_lt("0xA", "0xa"));
}

#[test]
fn duplicate_members_are_rejected() {
    let r = instantiate(InstantiateMsg {
        members: vec![member("0xaa", 1), member("0xbb", 2), member("0xaa", 3)],
        claim_limit: 1,
        admins: vec![],
        admins_mutable: false,
    });
    assert_eq!(r, Err(ContractError::DuplicateMember("0xaa".to_string())));
    let mut state = registry(vec![member("0xaa", 1)]);
    let before = state.clone();
    let r = execute_add_members(
        &mut state,
        ADMIN,
        AddMembersMsg { to_add: vec![member("0xbb", 2), member("0xaa", 9)] },
    );
    assert_eq!(r, Err(ContractError::DuplicateMember("0xaa".to_string())));
    // none of them was added
    assert_eq!(state, before);
    let r = execute_add_members(
        &mut state,
        ADMIN,
        AddMembersMsg { to_add: vec![member("0xbb", 2), member("0xbb", 2)] },
    );
    assert_eq!(r, Err(ContractError::DuplicateMember("0xbb".to_string())));
    assert_eq!(state, before);
}

#[test]
fn only_admins_add_members() {
    let mut state = registry(vec![]);
    let r = execute_add_members(&mut state, "terp1nobody", AddMembersMsg { to_add: vec![member("0xaa", 1)] });
    assert_eq!(r, Err(ContractError::Unauthorized {}));
    assert_eq!(query_config(&state).num_members, 0);
    let r = execute_add_members(&mut state, "terp1second", AddMembersMsg { to_add: vec![member("0xaa", 1)] });
    assert_eq!(r, Ok(()));
    assert_eq!(query_config(&state).num_members, 1);
    assert_eq!(query_has_member(&state, "0xaa".to_string()), HasMemberResponse { has_member: true });
    assert_eq!(query_has_member(&state, "0xab".to_string()), HasMemberResponse { has_member: false });
    assert_eq!(can_execute(&state, ADMIN.to_string()), Ok(ADMIN.to_string()));
    assert_eq!(can_execute(&state, "terp1nobody".to_string()), Err(ContractError::Unauthorized {}));
    assert!(query_can_execute(&state, ADMIN).can_execute);
    assert!(!query_can_execute(&state, "terp1nobody").can_execute);
}

#[test]
fn the_list_holds_no_more_than_its_capacity() {
    let too_many = instantiate(InstantiateMsg {
        members: numbered(MAX_MEMBERS as usize + 1),
        claim_limit: 1,
        admins: vec![],
        admins_mutable: false,
    });
    assert_eq!(
        too_many,
        Err(ContractError::MembersExceeded { expected: MAX_MEMBERS, actual: MAX_MEMBERS + 1 })
    );
    let mut state = registry(numbered(MAX_MEMBERS as usize - 1));
    assert_eq!(query_config(&state).num_members, MAX_MEMBERS - 1);
    let before = state.clone();
    let r = execute_add_members(
        &mut state,
        ADMIN,
        AddMembersMsg { to_add: vec![member("0xy", 1), member("0xz", 1)] },
    );
    assert_eq!(
        r,
        Err(ContractError::MembersExceeded { expected: MAX_MEMBERS, actual: MAX_MEMBERS })
    );
    assert_eq!(state, before);
    let r = execute_add_members(&mut state, ADMIN, AddMembersMsg { to_add: vec![member("0xy", 1)] });
    assert_eq!(r, Ok(()));
    assert_eq!(query_config(&state).num_members, MAX_MEMBERS);
    // a full list takes an empty addition, and nothing else
    assert_eq!(execute_add_members(&mut state, ADMIN, AddMembersMsg { to_add: vec![] }), Ok(()));
    let r = execute_add_members(&mut state, ADMIN, AddMembersMsg { to_add: vec![member("0xy", 1)] });
    assert_eq!(
        r,
        Err(ContractError::MembersExceeded { expected: MAX_MEMBERS, actual: MAX_MEMBERS })
    );
}

#[test]
fn pages_have_25_members_by_default_and_100_at_most() {
    let state = registry(numbered(150));
    let all: Vec<String> = (0..150).map(|i| format!("0x{:05}", i)).collect();
    assert_eq!(addresses(&state, None, None), all[..25].to_vec());
    assert_eq!(addresses(&state, None, Some(3)), all[..3].to_vec());
    assert_eq!(addresses(&state, None, Some(0)), Vec::<String>::new());
    assert_eq!(addresses(&state, None, Some(100)), all[..100].to_vec());
    assert_eq!(addresses(&state, None, Some(101)), all[..100].to_vec());
    assert_eq!(addresses(&state, None, Some(u32::MAX)), all[..100].to_vec());
    assert_eq!(addresses(&state, Some("0x00009"), Some(5)), all[10..15].to_vec());
    assert_eq!(addresses(&state, Some("0x00140"), None), all[141..].to_vec());
    assert_eq!(addresses(&state, Some("0x00149"), None), Vec::<String>::new());
    assert_eq!(addresses(&state, Some("0x9"), None), Vec::<String>::new());
    // the start need not be a member
    assert_eq!(addresses(&state, Some("0x000095"), Some(2)), all[10..12].to_vec());
    assert_eq!(addresses(&state, Some(""), Some(2)), all[..2].to_vec());
    let page = query_members(&state, Some("0x00009".to_string()), Some(1)).members;
    assert_eq!(page, vec![member("0x00010", 10)]);
}

#[test]
fn member_and_amount_are_found_by_identity() {
    let state = registry(vec![member("0xcc", 3), member("0xaa", 1), member("0xbb", 2)]);
    assert_eq!(query_member(&state, "0xbb".to_string()), Ok(member("0xbb", 2)));
    assert_eq!(query_get_headstash_amount(&state, "0xcc".to_string()).unwrap().headstash_amount, 3);
    assert_eq!(
        query_member(&state, "0xdd".to_string()),
        Err(ContractError::NoMemberFound("0xdd".to_string()))
    );
    assert_eq!(
        query_get_headstash_amount(&state, "0xa".to_string()),
        Err(ContractError::NoMemberFound("0xa".to_string()))
    );
    let handle = CwGoopContract("terp1registry".to_string());
    assert_eq!(handle.addr(), "terp1registry");
    assert!(handle.includes(&state, "0xaa".to_string()));
    assert!(!handle.includes(&state, "0xab".to_string()));
    assert_eq!(handle.claim_limit(&state), 1);
    assert_eq!(handle.config(&state), state.config);
    assert_eq!(handle.get_headstash_amount(&state, "0xbb".to_string()), Ok(2));
    assert_eq!(
        handle.get_headstash_amount(&state, "0xee".to_string()),
        Err(ContractError::NoMemberFound("0xee".to_string()))
    );
    let call = handle.call(ExecuteMsg::Freeze {});
    assert_eq!(call.contract_addr, "terp1registry");
    assert_eq!(call.msg, ExecuteMsg::Freeze {});
}

#[test]
fn frozen_admins_cannot_be_changed() {
    let mut state = registry(vec![]);
    assert!(state.admin_list.can_modify(ADMIN));
    assert!(!state.admin_list.can_modify("terp1nobody"));
    assert_eq!(execute_freeze(&mut state, "terp1nobody"), Err(ContractError::Unauthorized {}));
    assert_eq!(
        execute_update_admins(&mut state, "terp1nobody", vec![]),
        Err(ContractError::Unauthorized {})
    );
    assert_eq!(
        execute_update_admins(&mut state, ADMIN, vec!["terp1new".to_string(), ADMIN.to_string()]),
        Ok(())
    );
    assert!(state.admin_list.is_admin("terp1new"));
    assert!(!state.admin_list.is_admin("terp1second"));
    assert_eq!(execute_freeze(&mut state, "terp1new"), Ok(()));
    let list = query_admin_list(&state);
    assert_eq!(list.admins, vec!["terp1new".to_string(), ADMIN.to_string()]);
    assert!(!list.mutable);
    assert!(!state.admin_list.can_modify(ADMIN));
    assert_eq!(execute_freeze(&mut state, ADMIN), Err(ContractError::Unauthorized {}));
    assert_eq!(
        execute_update_admins(&mut state, ADMIN, vec![]),
        Err(ContractError::Unauthorized {})
    );
    // admins still add members
    assert_eq!(
        execute_add_members(&mut state, ADMIN, AddMembersMsg { to_add: vec![member("0xaa", 1)] }),
        Ok(())
    );
}

#[test]
fn registry_commands_and_queries_are_dispatched() {
    let mut state = registry(vec![member("0xaa", 1)]);
    assert_eq!(
        execute(
            &mut state,
            ADMIN,
            ExecuteMsg::AddMembers(AddMembersMsg { to_add: vec![member("0xbb", 2)] })
        ),
        Ok(())
    );
    assert_eq!(
        execute(&mut state, ADMIN, ExecuteMsg::UpdateAdmins { admins: vec![ADMIN.to_string()] }),
        Ok(())
    );
    assert_eq!(execute(&mut state, ADMIN, ExecuteMsg::Freeze {}), Ok(()));
    assert_eq!(execute(&mut state, ADMIN, ExecuteMsg::Freeze {}), Err(ContractError::Unauthorized {}));
    assert!(matches!(
        query(&state, QueryMsg::Members { start_after: None, limit: None }),
        Ok(QueryResponse::Members(page)) if page.members.len() == 2
    ));
    assert!(matches!(
        query(&state, QueryMsg::HasMember { member: "0xbb".to_string() }),
        Ok(QueryResponse::HasMember(r)) if r.has_member
    ));
    assert_eq!(
        query(&state, QueryMsg::Member { member: "0xbb".to_string() }),
        Ok(QueryResponse::Member(member("0xbb", 2)))
    );
    assert_eq!(
        query(&state, QueryMsg::Member { member: "0xcc".to_string() }),
        Err(ContractError::NoMemberFound("0xcc".to_string()))
    );
    assert!(matches!(
        query(&state, QueryMsg::Config {}),
        Ok(QueryResponse::Config(r)) if r.num_members == 2
    ));
    assert!(matches!(
        query(&state, QueryMsg::AdminList {}),
        Ok(QueryResponse::AdminList(r)) if !r.mutable && r.admins.len() == 1
    ));
    assert!(matches!(
        query(&state, QueryMsg::CanExecute { sender: ADMIN.to_string() }),
        Ok(QueryResponse::CanExecute(r)) if r.can_execute
    ));
    assert!(matches!(
        query(&state, QueryMsg::ClaimLimit {}),
        Ok(QueryResponse::ClaimLimit(r)) if r.limit == 1
    ));
    assert!(matches!(
        query(&state, QueryMsg::GetHeadstashAmount { address: "0xaa".to_string() }),
        Ok(QueryResponse::HeadstashAmount(r)) if r.headstash_amount == 1
    ));
}
