use headstash::error::ContractError;
use headstash::ledger::ClaimLedger;
use headstash::stages::decode_digest;
use headstash::state::{BlockInfo, Expiration, Scheduled, Stage, StagePhase, StageRegistry};

const ROOT: &str = "5d4f48f147cb6cb742b376dce5626b2a036f69faec10cd73631c791780e150fc";

#[test]
fn claim_records_are_per_identity_and_stage() {
    let mut ledger = ClaimLedger::new();
    let alice = "0xaa".to_string();
    let bob = "0xbb".to_string();
    assert!(!ledger.has_claimed(&alice, 1));
    ledger.mark_claimed(&alice, 1);
    assert!(ledger.has_claimed(&alice, 1));
    assert!(!ledger.has_claimed(&alice, 2));
    assert!(!ledger.has_claimed(&bob, 1));
    ledger.mark_claimed(&bob, 2);
    ledger.mark_claimed(&alice, 1);
    assert!(ledger.has_claimed(&alice, 1));
    assert!(ledger.has_claimed(&bob, 2));
    assert!(!ledger.has_claimed(&bob, 1));
}

#[test]
fn claim_count_starts_at_zero_and_grows_by_one() {
    let mut ledger = ClaimLedger::new();
    let alice = "0xaa".to_string();
    let bob = "0xbb".to_string();
    assert_eq!(ledger.claim_count(&alice), 0);
    ledger.increment_claim_count(&alice);
    assert_eq!(ledger.claim_count(&alice), 1);
    assert_eq!(ledger.claim_count(&bob), 0);
    ledger.increment_claim_count(&bob);
    ledger.increment_claim_count(&alice);
    ledger.increment_claim_count(&alice);
    assert_eq!(ledger.claim_count(&alice), 3);
    assert_eq!(ledger.claim_count(&bob), 1);
    assert!(!ledger.has_claimed(&alice, 1));
}

#[test]
fn claim_count_stops_at_the_largest_value() {
    let mut ledger = ClaimLedger::new();
    let alice = "0xaa".to_string();
    ledger.increment_claim_count(&alice);
    ledger.counts[0].count = u32::MAX - 1;
    ledger.increment_claim_count(&alice);
    assert_eq!(ledger.claim_count(&alice), u32::MAX);
    ledger.increment_claim_count(&alice);
    assert_eq!(ledger.claim_count(&alice), u32::MAX);
}

#[test]
fn stages_are_numbered_from_one() {
    let mut registry = StageRegistry::new();
    assert_eq!(registry.latest_stage(), 0);
    assert!(registry.get_stage(0).is_none());
    assert!(registry.get_stage(1).is_none());
    let first = registry.register_stage(ROOT.to_string(), None, Expiration::Never, 100);
    assert_eq!(first, Ok(1));
    let second = registry.register_stage(
        ROOT.to_uppercase(),
        Some(Scheduled::AtTime(50)),
        Expiration::AtHeight(9),
        7,
    );
    assert_eq!(second, Ok(2));
    assert_eq!(registry.latest_stage(), 2);
    assert_eq!(
        registry.get_stage(1),
        Some(&Stage {
            merkle_root: ROOT.to_string(),
            start: None,
            expiration: Expiration::Never,
            total_amount: 100,
            claimed_amount: 0,
        })
    );
    assert_eq!(registry.get_stage(2).unwrap().total_amount, 7);
    assert!(registry.get_stage(3).is_none());
    assert!(registry.get_stage(0).is_none());
    assert!(registry.get_stage(u64::MAX).is_none());
}

#[test]
fn stage_with_bad_root_is_not_registered() {
    let mut registry = StageRegistry::new();
    let r = registry.register_stage("abcd".to_string(), None, Expiration::Never, 100);
    assert_eq!(r, Err(ContractError::Hex(decode_digest("abcd").unwrap_err())));
    assert_eq!(registry.latest_stage(), 0);
    let r = registry.register_stage(format!("{}0", ROOT), None, Expiration::Never, 100);
    assert_eq!(r, Err(ContractError::Hex(headstash::hexcode::HexError::OddLength)));
    assert_eq!(registry.latest_stage(), 0);
}

#[test]
fn recorded_claims_never_exceed_the_total() {
    let mut registry = StageRegistry::new();
    registry.register_stage(ROOT.to_string(), None, Expiration::Never, 100).unwrap();
    registry.register_stage(ROOT.to_string(), None, Expiration::Never, 10).unwrap();
    assert_eq!(registry.record_claim(1, 60), Ok(()));
    assert_eq!(registry.get_stage(1).unwrap().claimed_amount, 60);
    assert_eq!(registry.get_stage(2).unwrap().claimed_amount, 0);
    assert_eq!(
        registry.record_claim(1, 41),
        Err(ContractError::TotalExceeded { stage: 1, residual: 40 })
    );
    assert_eq!(registry.get_stage(1).unwrap().claimed_amount, 60);
    assert_eq!(registry.record_claim(1, 40), Ok(()));
    assert_eq!(registry.get_stage(1).unwrap().claimed_amount, 100);
    assert_eq!(registry.record_claim(1, 0), Ok(()));
    assert_eq!(
        registry.record_claim(1, u128::MAX),
        Err(ContractError::TotalExceeded { stage: 1, residual: 0 })
    );
    assert_eq!(registry.record_claim(3, 1), Err(ContractError::StageNotFound { stage: 3 }));
    assert_eq!(registry.record_claim(0, 1), Err(ContractError::StageNotFound { stage: 0 }));
}

#[test]
fn stage_phase_follows_height_and_time() {
    let stage = Stage {
        merkle_root: ROOT.to_string(),
        start: Some(Scheduled::AtHeight(200000)),
        expiration: Expiration::AtTime(5000),
        total_amount: 1,
        claimed_amount: 0,
    };
    let at = |height: u64, time: u64| BlockInfo { height, time };
    assert_eq!(stage.phase(&at(199999, 0)), StagePhase::NotYetOpen);
    assert_eq!(stage.phase(&at(200000, 0)), StagePhase::Open);
    assert_eq!(stage.phase(&at(200000, 4999)), StagePhase::Open);
    assert_eq!(stage.phase(&at(200000, 5000)), StagePhase::Expired);
    // a stage that has not begun is not yet open, even past its expiration
    assert_eq!(stage.phase(&at(1, 9000)), StagePhase::NotYetOpen);
    assert!(Scheduled::AtTime(10).is_triggered(&at(0, 10)));
    assert!(!Scheduled::AtTime(10).is_triggered(&at(99, 9)));
    assert!(Expiration::AtHeight(10).is_expired(&at(10, 0)));
    assert!(!Expiration::AtHeight(10).is_expired(&at(9, 99)));
    assert!(!Expiration::Never.is_expired(&at(u64::MAX, u64::MAX)));
    let open = Stage { start: None, expiration: Expiration::Never, ..stage };
    assert_eq!(open.phase(&at(0, 0)), StagePhase::Open);
}
