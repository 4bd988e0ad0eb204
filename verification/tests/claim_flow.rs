use headstash::contract::{
    claim_with_binding, execute, execute_claim, execute_clawback, execute_pause,
    execute_register_merkle_root, execute_resume, execute_update_config, instantiate,
    instantiate_with_window, is_owner, migrate, CONTRACT_NAME,
};
use headstash::error::ContractError;
use headstash::hexcode::HexError;
use headstash::msg::{
    ExecuteMsg, InstantiateMsg, IsClaimedResponse, MigrateMsg, QueryMsg, QueryResponse,
};
use headstash::query::{
    query, query_config, query_is_claimed, query_latest_stage, query_merkle_root,
    query_total_claimed,
};
use headstash::response::{Instruction, Response};
use headstash::signature::{decode_signature, settle_binding, validate_ethereum_text};
use headstash::state::{Airdrop, BlockInfo, Config, Expiration, Owner, Scheduled};
use k256::ecdsa::SigningKey;
use sha2::{Digest, Sha256};
use sha3::Keccak256;

const TEMPLATE: &str = "My account is {wallet}, and I claim my share";
const OWNER: &str = "owner0000";
const CLAIMANT: &str = "terp1claimant";
const ROOT: &str = "5d4f48f147cb6cb742b376dce5626b2a036f69faec10cd73631c791780e150fc";

fn signing_key(seed: u8) -> SigningKey {
    SigningKey::from_slice(&[seed; 32]).unwrap()
}

fn eth_address(key: &SigningKey) -> String {
    let point = key.verifying_key().to_encoded_point(false);
    let hash = Keccak256::digest(&point.as_bytes()[1..]);
    format!("0x{}", hex::encode(&hash[12..]))
}

fn sign_text(key: &SigningKey, message: &str) -> String {
    let mut hasher = Keccak256::new();
    hasher.update(format!("\x19Ethereum Signed Message:\n{}", message.len()));
    hasher.update(message);
    let hash = hasher.finalize();
    let (signature, recovery) = key.sign_prehash_recoverable(&hash).unwrap();
    let mut bytes = signature.to_bytes().to_vec();
    bytes.push(27 + recovery.to_byte());
    hex::encode(bytes)
}

fn leaf(identity: &str, amount: u128) -> [u8; 32] {
    Sha256::digest(format!("{}{}", identity, amount).as_bytes()).into()
}

fn parent(a: [u8; 32], b: [u8; 32]) -> [u8; 32] {
    let mut pair = [a, b];
    pair.sort_unstable();
    Sha256::digest(pair.concat()).into()
}

fn engine(root: &str, total: u128) -> Airdrop {
    instantiate(
        OWNER,
        InstantiateMsg {
            owner: None,
            claim_msg_plaintext: TEMPLATE.to_string(),
            merkle_root: root.to_string(),
            total_amount: Some(total),
        },
    )
    .unwrap()
}

fn block(height: u64) -> BlockInfo {
    BlockInfo { height, time: 1_700_000_000 }
}

#[test]
fn signature_binds_identity_to_sender() {
    let key = signing_key(7);
    let identity = eth_address(&key);
    let config = Config { owner: Owner::Frozen, claim_msg_plaintext: TEMPLATE.to_string() };
    let plaintext = TEMPLATE.replace("{wallet}", CLAIMANT);
    let sig = sign_text(&key, &plaintext);
    assert_eq!(validate_ethereum_text(CLAIMANT, &config, &sig, &identity), Ok(true));
    assert_eq!(validate_ethereum_text("terp1other", &config, &sig, &identity), Ok(false));
    let other = eth_address(&signing_key(8));
    assert_eq!(validate_ethereum_text(CLAIMANT, &config, &sig, &other), Ok(false));
}

#[test]
fn known_ethereum_signature_is_accepted() {
    let config = Config { owner: Owner::Frozen, claim_msg_plaintext: "connect all the {wallet}".to_string() };
    let sig = "dada130255a447ecf434a2df9193e6fbba663e4546c35c075cd6eea21d8c7cb1714b9b65a4f7f604ff6aad55fba73f8c36514a512bbbba03709b37069194f8a41b";
    let signer = "0x12890D2cce102216644c59daE5baed380d84830c";
    assert_eq!(validate_ethereum_text("things", &config, sig, signer), Ok(true));
    assert_eq!(validate_ethereum_text("thing", &config, sig, signer), Ok(false));
}

#[test]
fn invalid_signature_hex_is_a_decode_error() {
    let config = Config { owner: Owner::Frozen, claim_msg_plaintext: TEMPLATE.to_string() };
    let identity = eth_address(&signing_key(7));
    let r = validate_ethereum_text(CLAIMANT, &config, "05XFb80", &identity);
    assert_eq!(r, Err(ContractError::InvalidHex { msg: "Could not decode 05XFb80".to_string() }));
    assert!(!matches!(r, Err(ContractError::AddressNotEligible { .. })));
}

#[test]
fn claim_before_start_is_rejected_and_inside_window_succeeds() {
    let key = signing_key(9);
    let identity = eth_address(&key);
    assert!(identity.starts_with("0x"));
    let sig = sign_text(&key, &TEMPLATE.replace("{wallet}", CLAIMANT));

    // The stage of the scenario: nothing can be claimed before height 200000.
    let mut state = engine(ROOT, 0);
    let id = execute_register_merkle_root(
        &mut state,
        OWNER,
        ROOT.to_string(),
        None,
        Some(Scheduled::AtHeight(200000)),
        Some(123000000),
    )
    .unwrap();
    assert_eq!(id, 2);
    let early = execute_claim(
        &mut state,
        &block(100000),
        CLAIMANT,
        identity.clone(),
        sig.clone(),
        5,
        vec![],
    );
    assert_eq!(
        early,
        Err(ContractError::StageNotBegun { stage: 2, start: Scheduled::AtHeight(200000) })
    );

    // A tree that holds the identity with the amount 5.
    let own = leaf(&identity, 5);
    let sibling = leaf("0x00000000000000000000000000000000000000aa", 7);
    let uncle = leaf("0x00000000000000000000000000000000000000bb", 11);
    let root = parent(parent(own, sibling), uncle);
    let id = execute_register_merkle_root(
        &mut state,
        OWNER,
        hex::encode(root),
        None,
        Some(Scheduled::AtHeight(200000)),
        Some(123000000),
    )
    .unwrap();
    assert_eq!(id, 3);
    let before = query_total_claimed(&state, None).unwrap().total_claimed;
    assert!(!query_is_claimed(&state, None, identity.clone()).is_claimed);
    let done = execute_claim(
        &mut state,
        &block(250000),
        CLAIMANT,
        identity.clone(),
        sig.clone(),
        5,
        vec![hex::encode(sibling), hex::encode(uncle)],
    );
    assert_eq!(
        done,
        Ok(Response {
            messages: vec![Instruction::Transfer { to_address: CLAIMANT.to_string(), amount: 5 }]
        })
    );
    assert!(query_is_claimed(&state, None, identity.clone()).is_claimed);
    assert_eq!(query_total_claimed(&state, None).unwrap().total_claimed, before + 5);

    // The second claim fails, and the total stays.
    let again = execute_claim(
        &mut state,
        &block(250001),
        CLAIMANT,
        identity.clone(),
        sig,
        5,
        vec![hex::encode(sibling), hex::encode(uncle)],
    );
    assert_eq!(again, Err(ContractError::AlreadyClaimed {}));
    assert_eq!(query_total_claimed(&state, None).unwrap().total_claimed, before + 5);
}

struct Setup {
    state: Airdrop,
    identity: String,
    sig: String,
    proof: Vec<String>,
}

/// An engine whose second stage holds the identity with the amount 5,
/// opens at height 200000 and expires at height 300000.
fn setup(total: u128) -> Setup {
    let key = signing_key(9);
    let identity = eth_address(&key);
    let sig = sign_text(&key, &TEMPLATE.replace("{wallet}", CLAIMANT));
    let own = leaf(&identity, 5);
    let sibling = leaf("0x00000000000000000000000000000000000000aa", 7);
    let uncle = leaf("0x00000000000000000000000000000000000000bb", 11);
    let root = parent(parent(own, sibling), uncle);
    let mut state = engine(ROOT, 0);
    execute_register_merkle_root(
        &mut state,
        OWNER,
        hex::encode(root),
        Some(Expiration::AtHeight(300000)),
        Some(Scheduled::AtHeight(200000)),
        Some(total),
    )
    .unwrap();
    Setup { state, identity, sig, proof: vec![hex::encode(sibling), hex::encode(uncle)] }
}

fn claim(s: &mut Setup, height: u64, amount: u128) -> Result<Response, ContractError> {
    execute_claim(
        &mut s.state,
        &block(height),
        CLAIMANT,
        s.identity.clone(),
        s.sig.clone(),
        amount,
        s.proof.clone(),
    )
}

#[test]
fn claim_outside_the_window_is_rejected() {
    let mut s = setup(100);
    let before = s.state.clone();
    assert_eq!(
        claim(&mut s, 199999, 5),
        Err(ContractError::StageNotBegun { stage: 2, start: Scheduled::AtHeight(200000) })
    );
    assert_eq!(
        claim(&mut s, 300000, 5),
        Err(ContractError::StageExpired {
            stage: 2,
            expiration: Expiration::AtHeight(300000)
        })
    );
    assert_eq!(s.state, before);
    assert!(claim(&mut s, 299999, 5).is_ok());
}

#[test]
fn claim_at_the_first_block_of_the_window_succeeds() {
    let mut s = setup(100);
    assert!(claim(&mut s, 200000, 5).is_ok());
}

#[test]
fn claim_while_paused_is_rejected_whatever_the_proof() {
    let mut s = setup(100);
    assert_eq!(execute_pause(&mut s.state, &block(250000), OWNER), Ok(Response { messages: vec![] }));
    let before = s.state.clone();
    assert_eq!(claim(&mut s, 250000, 5), Err(ContractError::Paused {}));
    s.proof = vec!["zz".to_string()];
    s.sig = "05XFb80".to_string();
    assert_eq!(claim(&mut s, 250000, 5), Err(ContractError::Paused {}));
    assert_eq!(s.state, before);
    // the window is judged before the pause
    assert!(matches!(claim(&mut s, 1, 5), Err(ContractError::StageNotBegun { .. })));
    let mut s2 = setup(100);
    execute_pause(&mut s2.state, &block(250000), OWNER).unwrap();
    execute_resume(&mut s2.state, &block(250001), OWNER).unwrap();
    assert!(claim(&mut s2, 250002, 5).is_ok());
}

#[test]
fn pause_and_resume_are_guarded() {
    let mut s = setup(100);
    let open = block(250000);
    assert_eq!(execute_resume(&mut s.state, &open, OWNER), Err(ContractError::NotPaused {}));
    assert_eq!(execute_pause(&mut s.state, &open, CLAIMANT), Err(ContractError::Unauthorized {}));
    assert_eq!(execute_resume(&mut s.state, &open, CLAIMANT), Err(ContractError::Unauthorized {}));
    assert!(matches!(
        execute_pause(&mut s.state, &block(1), OWNER),
        Err(ContractError::StageNotBegun { stage: 2, .. })
    ));
    assert!(matches!(
        execute_pause(&mut s.state, &block(300000), OWNER),
        Err(ContractError::StageExpired { stage: 2, .. })
    ));
    assert!(!s.state.paused);
    assert!(execute_pause(&mut s.state, &open, OWNER).is_ok());
    assert!(s.state.paused);
    // a repeated pause is accepted and leaves the engine paused
    let paused = s.state.clone();
    assert_eq!(execute_pause(&mut s.state, &open, OWNER), Ok(Response { messages: vec![] }));
    assert_eq!(s.state, paused);
    assert!(s.state.paused);
    assert!(matches!(
        execute_resume(&mut s.state, &block(300000), OWNER),
        Err(ContractError::StageExpired { .. })
    ));
    assert!(s.state.paused);
    assert!(execute_resume(&mut s.state, &open, OWNER).is_ok());
    assert!(!s.state.paused);
    assert_eq!(execute_resume(&mut s.state, &open, OWNER), Err(ContractError::NotPaused {}));
}

#[test]
fn claim_with_a_signature_that_does_not_bind_is_not_eligible() {
    let mut s = setup(100);
    let before = s.state.clone();
    // signed for another account
    let stranger = execute_claim(
        &mut s.state,
        &block(250000),
        "terp1stranger",
        s.identity.clone(),
        s.sig.clone(),
        5,
        s.proof.clone(),
    );
    assert_eq!(stranger, Err(ContractError::AddressNotEligible { address: s.identity.clone() }));
    // signed by another key
    s.sig = sign_text(&signing_key(10), &TEMPLATE.replace("{wallet}", CLAIMANT));
    assert_eq!(
        claim(&mut s, 250000, 5),
        Err(ContractError::AddressNotEligible { address: s.identity.clone() })
    );
    assert_eq!(s.state, before);
}

#[test]
fn claim_with_a_signature_that_is_not_hex_is_a_decode_error() {
    let mut s = setup(100);
    s.sig = "05XFb80".to_string();
    assert_eq!(
        claim(&mut s, 250000, 5),
        Err(ContractError::InvalidHex { msg: "Could not decode 05XFb80".to_string() })
    );
    s.sig = "zz".to_string();
    assert_eq!(
        claim(&mut s, 250000, 5),
        Err(ContractError::InvalidHex { msg: "Could not decode zz".to_string() })
    );
}

#[test]
fn claim_with_a_signature_that_cannot_be_checked_is_an_error_of_its_own() {
    let mut s = setup(100);
    s.sig = String::new();
    assert!(matches!(claim(&mut s, 250000, 5), Err(ContractError::Std { .. })));
    // the recovery byte is neither 27 nor 28
    let mut bytes = hex::decode(sign_text(&signing_key(9), "x")).unwrap();
    bytes[64] = 29;
    s.sig = hex::encode(bytes);
    assert!(matches!(claim(&mut s, 250000, 5), Err(ContractError::Std { .. })));
    // an identity that is no address
    s.identity = "0x1234".to_string();
    s.sig = sign_text(&signing_key(9), "x");
    assert!(matches!(claim(&mut s, 250000, 5), Err(ContractError::Std { .. })));
}

#[test]
fn claim_with_a_wrong_proof_fails_verification() {
    let mut s = setup(100);
    let before = s.state.clone();
    assert_eq!(claim(&mut s, 250000, 6), Err(ContractError::VerificationFailed {}));
    s.proof.reverse();
    assert_eq!(claim(&mut s, 250000, 5), Err(ContractError::VerificationFailed {}));
    s.proof = vec![];
    assert_eq!(claim(&mut s, 250000, 5), Err(ContractError::VerificationFailed {}));
    s.proof = vec!["abcd".to_string()];
    assert_eq!(
        claim(&mut s, 250000, 5),
        Err(ContractError::Hex(HexError::InvalidStringLength))
    );
    assert_eq!(s.state, before);
}

#[test]
fn claim_beyond_the_total_is_rejected() {
    let mut s = setup(4);
    let before = s.state.clone();
    assert_eq!(claim(&mut s, 250000, 5), Err(ContractError::TotalExceeded { stage: 2, residual: 4 }));
    assert_eq!(s.state, before);
    let mut exact = setup(5);
    assert!(claim(&mut exact, 250000, 5).is_ok());
    assert_eq!(query_total_claimed(&exact.state, None).unwrap().total_claimed, 5);
}

#[test]
fn second_claim_is_rejected_and_counted_once() {
    let mut s = setup(100);
    assert!(claim(&mut s, 250000, 5).is_ok());
    let after = s.state.clone();
    assert_eq!(claim(&mut s, 250000, 5), Err(ContractError::AlreadyClaimed {}));
    s.sig = "zz".to_string();
    s.proof = vec![];
    assert_eq!(claim(&mut s, 250001, 77), Err(ContractError::AlreadyClaimed {}));
    assert_eq!(s.state, after);
    assert_eq!(query_total_claimed(&s.state, None).unwrap().total_claimed, 5);
    assert_eq!(query_total_claimed(&s.state, Some(1)).unwrap().total_claimed, 0);
    assert_eq!(s.state.ledger.claim_count(&s.identity), 1);
    assert!(query_is_claimed(&s.state, Some(2), s.identity.clone()).is_claimed);
    assert!(!query_is_claimed(&s.state, Some(1), s.identity.clone()).is_claimed);
    assert!(!query_is_claimed(&s.state, Some(9), s.identity.clone()).is_claimed);
}

#[test]
fn claim_with_binding_takes_the_verdict_of_the_host() {
    let mut s = setup(100);
    let at = block(250000);
    let id = s.identity.clone();
    let no = claim_with_binding(&mut s.state, &at, CLAIMANT, &id, 5, &s.proof, Ok(false));
    assert_eq!(no, Err(ContractError::AddressNotEligible { address: id.clone() }));
    let failed = claim_with_binding(
        &mut s.state,
        &at,
        CLAIMANT,
        &id,
        5,
        &s.proof,
        Err(ContractError::Std { msg: "no verdict".to_string() }),
    );
    assert_eq!(failed, Err(ContractError::Std { msg: "no verdict".to_string() }));
    let yes = claim_with_binding(&mut s.state, &at, CLAIMANT, &id, 5, &s.proof, Ok(true));
    assert_eq!(
        yes,
        Ok(Response {
            messages: vec![Instruction::Transfer { to_address: CLAIMANT.to_string(), amount: 5 }]
        })
    );
    let again = claim_with_binding(&mut s.state, &at, CLAIMANT, &id, 5, &s.proof, Ok(true));
    assert_eq!(again, Err(ContractError::AlreadyClaimed {}));
}

#[test]
fn clawback_waits_for_the_expiration() {
    let mut s = setup(123000000);
    assert!(claim(&mut s, 250000, 5).is_ok());
    let before = s.state.clone();
    assert_eq!(
        execute_clawback(&s.state, &block(299999), OWNER, Some("terp1pool".to_string())),
        Err(ContractError::StageNotExpired { stage: 2, expiration: Expiration::AtHeight(300000) })
    );
    assert_eq!(
        execute_clawback(&s.state, &block(300000), CLAIMANT, None),
        Err(ContractError::Unauthorized {})
    );
    let expected = Response {
        messages: vec![Instruction::ClawBack {
            recipient: Some("terp1pool".to_string()),
            amount: 123000000 - 5,
        }],
    };
    assert_eq!(
        execute_clawback(&s.state, &block(300000), OWNER, Some("terp1pool".to_string())),
        Ok(expected.clone())
    );
    // the accounting is untouched, so the same residue is named again
    assert_eq!(
        execute_clawback(&s.state, &block(400000), OWNER, Some("terp1pool".to_string())),
        Ok(expected)
    );
    assert_eq!(s.state, before);
}

#[test]
fn clawback_of_a_stage_that_never_expires_is_never_legal() {
    let state = engine(ROOT, 10);
    assert_eq!(
        execute_clawback(&state, &block(u64::MAX), OWNER, None),
        Err(ContractError::StageNotExpired { stage: 1, expiration: Expiration::Never })
    );
}

#[test]
fn only_the_owner_registers_stages() {
    let mut state = engine(ROOT, 10);
    let before = state.clone();
    assert_eq!(
        execute_register_merkle_root(&mut state, CLAIMANT, ROOT.to_string(), None, None, None),
        Err(ContractError::Unauthorized {})
    );
    assert_eq!(
        execute_register_merkle_root(&mut state, OWNER, "abc".to_string(), None, None, None),
        Err(ContractError::Hex(HexError::OddLength))
    );
    assert_eq!(state, before);
    assert_eq!(
        execute_register_merkle_root(&mut state, OWNER, ROOT.to_string(), None, None, None),
        Ok(2)
    );
    let stage = query_merkle_root(&state, None).unwrap();
    assert_eq!(stage.stage, 2);
    assert_eq!(stage.merkle_root, ROOT);
    assert_eq!(stage.total_amount, 0);
    assert_eq!(stage.start, None);
    assert_eq!(stage.expiration, Expiration::Never);
}

#[test]
fn frozen_engine_has_no_owner() {
    let mut state = engine(ROOT, 10);
    assert!(is_owner(&state, OWNER));
    assert_eq!(
        execute_update_config(&mut state, CLAIMANT, None),
        Err(ContractError::Unauthorized {})
    );
    assert!(execute_update_config(&mut state, OWNER, Some("owner0001".to_string())).is_ok());
    assert!(!is_owner(&state, OWNER));
    assert!(is_owner(&state, "owner0001"));
    assert_eq!(
        execute_update_config(&mut state, OWNER, None),
        Err(ContractError::Unauthorized {})
    );
    assert!(execute_update_config(&mut state, "owner0001", None).is_ok());
    assert_eq!(state.config.owner, Owner::Frozen);
    assert_eq!(query_config(&state).owner, None);
    assert_eq!(
        execute_update_config(&mut state, "owner0001", Some(OWNER.to_string())),
        Err(ContractError::Unauthorized {})
    );
    assert_eq!(
        execute_pause(&mut state, &block(1), "owner0001"),
        Err(ContractError::Unauthorized {})
    );
    assert_eq!(
        execute_register_merkle_root(&mut state, "", ROOT.to_string(), None, None, None),
        Err(ContractError::Unauthorized {})
    );
}

#[test]
fn instantiate_sets_up_the_first_stage() {
    let state = engine(ROOT, 123000000);
    assert_eq!(state.config.owner, Owner::Owned(OWNER.to_string()));
    assert!(!state.paused);
    assert_eq!(query_latest_stage(&state).latest_stage, 1);
    let config = query_config(&state);
    assert_eq!(config.owner, Some(OWNER.to_string()));
    assert_eq!(config.claim_msg_plaintext, TEMPLATE);
    let root = query_merkle_root(&state, Some(1)).unwrap();
    assert_eq!(root.merkle_root, ROOT);
    assert_eq!(root.total_amount, 123000000);
    assert_eq!(query_total_claimed(&state, None).unwrap().total_claimed, 0);
    assert_eq!(
        query_merkle_root(&state, Some(2)),
        Err(ContractError::StageNotFound { stage: 2 })
    );
    assert_eq!(
        query_total_claimed(&state, Some(0)),
        Err(ContractError::StageNotFound { stage: 0 })
    );
    let named = instantiate(
        "deployer",
        InstantiateMsg {
            owner: Some(OWNER.to_string()),
            claim_msg_plaintext: TEMPLATE.to_string(),
            merkle_root: ROOT.to_string(),
            total_amount: None,
        },
    )
    .unwrap();
    assert_eq!(named.config.owner, Owner::Owned(OWNER.to_string()));
    assert_eq!(query_merkle_root(&named, None).unwrap().total_amount, 0);
}

#[test]
fn instantiate_rejects_a_root_of_wrong_length() {
    let r = instantiate(
        OWNER,
        InstantiateMsg {
            owner: None,
            claim_msg_plaintext: TEMPLATE.to_string(),
            merkle_root: ROOT[..60].to_string(),
            total_amount: None,
        },
    );
    assert_eq!(r, Err(ContractError::Hex(HexError::InvalidStringLength)));
}

#[test]
fn commands_and_queries_are_dispatched() {
    let mut s = setup(100);
    let open = block(250000);
    assert!(execute(&mut s.state, &open, OWNER, ExecuteMsg::Pause {}).is_ok());
    assert!(s.state.paused);
    assert!(execute(&mut s.state, &open, OWNER, ExecuteMsg::Resume {}).is_ok());
    let done = execute(
        &mut s.state,
        &open,
        CLAIMANT,
        ExecuteMsg::Claim {
            amount: 5,
            eth_pubkey: s.identity.clone(),
            eth_sig: s.sig.clone(),
            proof: s.proof.clone(),
        },
    );
    assert_eq!(done.unwrap().messages.len(), 1);
    assert_eq!(
        query(&s.state, QueryMsg::IsClaimed { stage: None, address: s.identity.clone() }),
        Ok(QueryResponse::IsClaimed(IsClaimedResponse { is_claimed: true }))
    );
    let back = execute(
        &mut s.state,
        &block(300000),
        OWNER,
        ExecuteMsg::ClawBack { recipient: "terp1pool".to_string() },
    );
    assert_eq!(
        back,
        Ok(Response {
            messages: vec![Instruction::ClawBack {
                recipient: Some("terp1pool".to_string()),
                amount: 95
            }]
        })
    );
    let next = execute(
        &mut s.state,
        &open,
        OWNER,
        ExecuteMsg::RegisterMerkleRoot {
            merkle_root: ROOT.to_string(),
            expiration: None,
            start: None,
            total_amount: Some(1),
        },
    );
    assert_eq!(next, Ok(Response { messages: vec![] }));
    assert!(matches!(
        query(&s.state, QueryMsg::LatestStage {}),
        Ok(QueryResponse::LatestStage(r)) if r.latest_stage == 3
    ));
    assert!(matches!(
        query(&s.state, QueryMsg::TotalClaimed { stage: Some(2) }),
        Ok(QueryResponse::TotalClaimed(r)) if r.total_claimed == 5
    ));
    assert!(matches!(
        query(&s.state, QueryMsg::MerkleRoot { stage: None }),
        Ok(QueryResponse::MerkleRoot(r)) if r.stage == 3 && r.total_amount == 1
    ));
    assert!(execute(&mut s.state, &open, OWNER, ExecuteMsg::UpdateConfig { new_owner: None }).is_ok());
    assert!(matches!(
        query(&s.state, QueryMsg::Config {}),
        Ok(QueryResponse::Config(r)) if r.owner.is_none()
    ));
    assert_eq!(
        execute(&mut s.state, &open, OWNER, ExecuteMsg::Pause {}),
        Err(ContractError::Unauthorized {})
    );
}

#[test]
fn migration_is_for_the_same_contract_only() {
    assert_eq!(migrate(CONTRACT_NAME.to_string(), MigrateMsg {}), Ok(Response { messages: vec![] }));
    assert_eq!(
        migrate("crates.io:other".to_string(), MigrateMsg {}),
        Err(ContractError::CannotMigrate { previous_contract: "crates.io:other".to_string() })
    );
}

#[test]
fn verdict_of_the_host_is_settled_against_the_signature_text() {
    assert_eq!(decode_signature("00ff1A"), Ok(vec![0x00, 0xff, 0x1a]));
    assert_eq!(decode_signature(""), Ok(vec![]));
    assert_eq!(
        decode_signature("0"),
        Err(ContractError::InvalidHex { msg: "Could not decode 0".to_string() })
    );
    assert_eq!(settle_binding("00ff", Ok(true)), Ok(true));
    assert_eq!(settle_binding("00ff", Ok(false)), Ok(false));
    assert_eq!(
        settle_binding("00ff", Err("no such key".to_string())),
        Err(ContractError::Std { msg: "no such key".to_string() })
    );
    assert_eq!(
        settle_binding("05XFb80", Ok(true)),
        Err(ContractError::InvalidHex { msg: "Could not decode 05XFb80".to_string() })
    );
}

#[test]
fn first_stage_can_carry_a_window() {
    let msg = InstantiateMsg {
        owner: None,
        claim_msg_plaintext: TEMPLATE.to_string(),
        merkle_root: ROOT.to_string(),
        total_amount: Some(40),
    };
    let state = instantiate_with_window(
        OWNER,
        msg.clone(),
        Some(Scheduled::AtHeight(10)),
        Some(Expiration::AtTime(1_800_000_000)),
    )
    .unwrap();
    let stage = query_merkle_root(&state, Some(1)).unwrap();
    assert_eq!(stage.start, Some(Scheduled::AtHeight(10)));
    assert_eq!(stage.expiration, Expiration::AtTime(1_800_000_000));
    assert_eq!(stage.total_amount, 40);
    // block() is at time 1_700_000_000: the stage has not expired yet
    assert_eq!(
        execute_clawback(&state, &block(20), OWNER, None),
        Err(ContractError::StageNotExpired { stage: 1, expiration: Expiration::AtTime(1_800_000_000) })
    );
    let late = BlockInfo { height: 20, time: 1_800_000_000 };
    assert_eq!(
        execute_clawback(&state, &late, OWNER, None),
        Ok(Response { messages: vec![Instruction::ClawBack { recipient: None, amount: 40 }] })
    );
    // without a window the stage is open at once and never expires
    assert_eq!(instantiate_with_window(OWNER, msg.clone(), None, None), instantiate(OWNER, msg.clone()));
    let bad = InstantiateMsg { merkle_root: "12".to_string(), ..msg };
    assert_eq!(
        instantiate_with_window(OWNER, bad, None, Some(Expiration::AtHeight(1))),
        Err(ContractError::Hex(HexError::InvalidStringLength))
    );
}
