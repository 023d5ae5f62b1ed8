use grant_engine::fixed_point::SCALE;
use grant_engine::quorum::QuorumCurve;
use grant_engine::lifecycle::{
    AccountId, BondLedger, EngineConfig, GrantEngine, GrantError, BUILDER_BOND, MAX_GRANT_CAPACITY,
};

const AUTHORITY: AccountId = 99;

struct TestLedger {
    accept: bool,
    reserved: Vec<(AccountId, u128)>,
    forfeited: Vec<(AccountId, u128)>,
}

impl TestLedger {
    fn new(accept: bool) -> TestLedger {
        TestLedger { accept, reserved: Vec::new(), forfeited: Vec::new() }
    }
}

impl BondLedger for TestLedger {
    fn reserve(&mut self, who: AccountId, amount: u128) -> bool {
        if self.accept {
            self.reserved.push((who, amount));
        }
        self.accept
    }

    fn forfeit(&mut self, who: AccountId, amount: u128) {
        self.forfeited.push((who, amount));
    }
}

fn engine() -> GrantEngine {
    GrantEngine::new(EngineConfig::standard(AUTHORITY))
}

#[test]
fn submission_below_floor_is_refused() {
    let mut e = engine();
    let mut ledger = TestLedger::new(true);
    assert_eq!(e.submit_proposal(&mut ledger, 1, 9), Err(GrantError::CommitmentFloorNotMet));
    assert_eq!(e.project_count(), 0);
    assert!(ledger.reserved.is_empty());
}

#[test]
fn submission_with_failed_reservation_is_refused() {
    let mut e = engine();
    let mut ledger = TestLedger::new(false);
    assert_eq!(e.submit_proposal(&mut ledger, 1, 100), Err(GrantError::BondReservationFailed));
    assert_eq!(e.project_count(), 0);
}

#[test]
fn submission_creates_projects_in_order() {
    let mut e = engine();
    let mut ledger = TestLedger::new(true);
    assert_eq!(e.submit_proposal(&mut ledger, 1, 10), Ok(0));
    assert_eq!(e.submit_proposal(&mut ledger, 2, 250), Ok(1));
    assert_eq!(e.submit_proposal(&mut ledger, 3, 125), Ok(2));
    let p0 = e.get_project(0).unwrap();
    assert_eq!(p0.founder, 1);
    assert_eq!(p0.performance_score, 100);
    assert_eq!(p0.bond_amount, BUILDER_BOND);
    assert_eq!(p0.max_grant_capacity, MAX_GRANT_CAPACITY * 10 / 250);
    assert_eq!(e.get_project(1).unwrap().max_grant_capacity, MAX_GRANT_CAPACITY);
    assert_eq!(e.get_project(2).unwrap().max_grant_capacity, MAX_GRANT_CAPACITY / 2);
    assert_eq!(e.get_project(3), None);
    assert_eq!(ledger.reserved, vec![(1, BUILDER_BOND), (2, BUILDER_BOND), (3, BUILDER_BOND)]);
}

#[test]
fn capacity_is_capped_above_full_depth() {
    let c = EngineConfig::standard(AUTHORITY);
    assert_eq!(c.capacity_for(10_000), MAX_GRANT_CAPACITY);
    assert_eq!(c.capacity_for(0), 0);
}

#[test]
fn vote_passes_and_fails_against_quorum() {
    let mut e = engine();
    let mut ledger = TestLedger::new(true);
    e.submit_proposal(&mut ledger, 1, 100).unwrap();
    let before = e.get_project(0);
    assert_eq!(e.vote_on_tranche_release(0, 51), Ok(51));
    assert_eq!(e.vote_on_tranche_release(0, 50), Err(GrantError::QuorumNotMet));
    assert_eq!(e.get_project(0), before);
    assert_eq!(e.update_performance(&mut ledger, AUTHORITY, 0, 50), Ok(false));
    assert_eq!(e.vote_on_tranche_release(0, 75), Err(GrantError::QuorumNotMet));
    assert_eq!(e.vote_on_tranche_release(0, 76), Ok(76));
    assert_eq!(e.vote_on_tranche_release(7, 100), Err(GrantError::ProjectNotFound));
}

#[test]
fn performance_update_checks_caller_range_and_id() {
    let mut e = engine();
    let mut ledger = TestLedger::new(true);
    e.submit_proposal(&mut ledger, 1, 100).unwrap();
    assert_eq!(e.update_performance(&mut ledger, 5, 0, 80), Err(GrantError::Unauthorized));
    assert_eq!(e.update_performance(&mut ledger, AUTHORITY, 0, 101), Err(GrantError::ScoreOutOfRange));
    assert_eq!(e.update_performance(&mut ledger, AUTHORITY, 3, 80), Err(GrantError::ProjectNotFound));
    assert_eq!(e.get_project(0).unwrap().performance_score, 100);
    assert_eq!(e.update_performance(&mut ledger, AUTHORITY, 0, 80), Ok(false));
    assert_eq!(e.get_project(0).unwrap().performance_score, 80);
    assert!(ledger.forfeited.is_empty());
}

#[test]
fn low_score_liquidates_in_the_same_step() {
    let mut e = engine();
    let mut ledger = TestLedger::new(true);
    e.submit_proposal(&mut ledger, 4, 100).unwrap();
    assert_eq!(e.update_performance(&mut ledger, AUTHORITY, 0, 49), Ok(true));
    let p = e.get_project(0).unwrap();
    assert!(p.is_liquidated);
    assert_eq!(p.performance_score, 49);
    assert_eq!(ledger.forfeited, vec![(4, BUILDER_BOND)]);
    assert_eq!(e.vote_on_tranche_release(0, 100), Err(GrantError::ProjectAlreadyLiquidated));
    assert_eq!(
        e.update_performance(&mut ledger, AUTHORITY, 0, 90),
        Err(GrantError::ProjectAlreadyLiquidated)
    );
}

#[test]
fn explicit_liquidation_is_idempotent() {
    let mut e = engine();
    let mut ledger = TestLedger::new(true);
    e.submit_proposal(&mut ledger, 4, 100).unwrap();
    assert_eq!(e.liquidate(&mut ledger, 5, 0), Err(GrantError::Unauthorized));
    assert_eq!(e.liquidate(&mut ledger, AUTHORITY, 1), Err(GrantError::ProjectNotFound));
    assert_eq!(e.liquidate(&mut ledger, AUTHORITY, 0), Ok(true));
    let after_first = e.get_project(0);
    assert_eq!(e.liquidate(&mut ledger, AUTHORITY, 0), Ok(false));
    assert_eq!(e.get_project(0), after_first);
    assert_eq!(ledger.forfeited.len(), 1);
}

#[test]
fn bond_request_follows_the_floor() {
    let e = engine();
    assert_eq!(e.bond_request(1, 9), None);
    assert_eq!(e.bond_request(1, 10), Some((1, BUILDER_BOND)));
}

#[test]
fn record_submission_follows_the_reservation() {
    let mut e = engine();
    assert_eq!(e.record_submission(5, 250, false), Err(GrantError::BondReservationFailed));
    assert_eq!(e.project_count(), 0);
    assert_eq!(e.record_submission(5, 250, true), Ok(0));
    assert_eq!(e.record_submission(6, 50, true), Ok(1));
    let p = e.get_project(1).unwrap();
    assert_eq!(p.founder, 6);
    assert_eq!(p.bond_amount, BUILDER_BOND);
    assert_eq!(p.max_grant_capacity, MAX_GRANT_CAPACITY / 5);
    assert!(!p.is_liquidated);
}

#[test]
fn forfeit_request_names_founder_and_full_bond() {
    let mut e = engine();
    let mut ledger = TestLedger::new(true);
    e.submit_proposal(&mut ledger, 8, 100).unwrap();
    assert_eq!(e.forfeit_request(0), Some((8, BUILDER_BOND)));
    assert_eq!(e.forfeit_request(1), None);
    assert_eq!(e.liquidate(&mut ledger, AUTHORITY, 0), Ok(true));
    assert_eq!(ledger.forfeited, vec![(8, BUILDER_BOND)]);
    assert_eq!(e.forfeit_request(0), None);
}

#[test]
fn depth_vote_uses_the_depth_curve() {
    let mut e = engine();
    let mut ledger = TestLedger::new(true);
    e.submit_proposal(&mut ledger, 1, 100).unwrap();
    let curve = QuorumCurve::standard();
    let ceiling = 450_000_000_000_000_000u128;
    assert_eq!(e.vote_on_tranche_release_by_depth(&curve, 0, 0, ceiling), Ok(ceiling));
    assert_eq!(
        e.vote_on_tranche_release_by_depth(&curve, 0, 0, ceiling - 1),
        Err(GrantError::QuorumNotMet)
    );
    assert_eq!(
        e.vote_on_tranche_release_by_depth(&curve, 0, 100_000_000, 2 * SCALE),
        Ok(300_000_000_000_000_000)
    );
    assert_eq!(
        e.vote_on_tranche_release_by_depth(&curve, 4, 0, SCALE),
        Err(GrantError::ProjectNotFound)
    );
    e.liquidate(&mut ledger, AUTHORITY, 0).unwrap();
    assert_eq!(
        e.vote_on_tranche_release_by_depth(&curve, 0, 0, SCALE),
        Err(GrantError::ProjectAlreadyLiquidated)
    );
}
