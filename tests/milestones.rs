use grant_engine::milestone::{
    calculate_d_metric, complete_milestone_and_payout, initialize_grant, liquidate_bond, same_key,
    DGEError,
};

const AUTH: [u8; 32] = [9u8; 32];

#[test]
fn d_metric_steps() {
    assert_eq!(calculate_d_metric(0), 60);
    assert_eq!(calculate_d_metric(499), 60);
    assert_eq!(calculate_d_metric(500), 80);
    assert_eq!(calculate_d_metric(999), 80);
    assert_eq!(calculate_d_metric(1000), 95);
}

#[test]
fn new_grant_starts_empty() {
    let g = initialize_grant([7u8; 32], AUTH, 1_000, 4, 50);
    assert_eq!(g.builder, [7u8; 32]);
    assert_eq!(g.tranches_completed, 0);
    assert_eq!(g.total_tranches, 4);
    assert_eq!(g.builder_bond_amount, 50);
    assert!(!g.is_liquidated);
}

#[test]
fn milestones_pay_equal_tranches_without_remainder() {
    let mut g = initialize_grant([1u8; 32], AUTH, 1_000, 3, 50);
    assert_eq!(complete_milestone_and_payout(&mut g, 1, 1_000), Ok(333));
    assert_eq!(complete_milestone_and_payout(&mut g, 2, 500), Ok(333));
    assert_eq!(complete_milestone_and_payout(&mut g, 3, 2_000), Ok(333));
    assert_eq!(g.tranches_completed, 3);
}

#[test]
fn repeated_milestone_is_out_of_order() {
    let mut g = initialize_grant([1u8; 32], AUTH, 1_000, 3, 50);
    assert_eq!(complete_milestone_and_payout(&mut g, 1, 1_000), Ok(333));
    assert_eq!(complete_milestone_and_payout(&mut g, 1, 1_000), Err(DGEError::MilestoneOutOfOrder));
    assert_eq!(g.tranches_completed, 1);
}

#[test]
fn skipped_milestone_is_out_of_order() {
    let mut g = initialize_grant([1u8; 32], AUTH, 1_000, 3, 50);
    assert_eq!(complete_milestone_and_payout(&mut g, 2, 1_000), Err(DGEError::MilestoneOutOfOrder));
    assert_eq!(g.tranches_completed, 0);
    assert!(!g.is_liquidated);
}

#[test]
fn milestone_beyond_last_tranche_is_out_of_order() {
    let mut g = initialize_grant([1u8; 32], AUTH, 1_000, 1, 50);
    assert_eq!(complete_milestone_and_payout(&mut g, 1, 1_000), Ok(1_000));
    assert_eq!(complete_milestone_and_payout(&mut g, 2, 1_000), Err(DGEError::MilestoneOutOfOrder));
    let mut empty = initialize_grant([1u8; 32], AUTH, 1_000, 0, 50);
    assert_eq!(complete_milestone_and_payout(&mut empty, 1, 1_000), Err(DGEError::MilestoneOutOfOrder));
}

#[test]
fn failing_score_liquidates() {
    let mut g = initialize_grant([1u8; 32], AUTH, 1_000, 3, 50);
    assert_eq!(complete_milestone_and_payout(&mut g, 1, 100), Err(DGEError::DMetricFailed));
    assert!(g.is_liquidated);
    assert_eq!(g.tranches_completed, 0);
    assert_eq!(complete_milestone_and_payout(&mut g, 1, 5_000), Err(DGEError::GrantLiquidated));
}

#[test]
fn liquidation_is_idempotent() {
    let mut g = initialize_grant([1u8; 32], AUTH, 1_000, 3, 50);
    assert_eq!(liquidate_bond(&mut g, &AUTH), Ok(Some(50)));
    assert!(g.is_liquidated);
    assert_eq!(liquidate_bond(&mut g, &AUTH), Ok(None));
    assert!(g.is_liquidated);
    assert_eq!(g.builder_bond_amount, 50);
    assert_eq!(complete_milestone_and_payout(&mut g, 1, 5_000), Err(DGEError::GrantLiquidated));
}

#[test]
fn liquidation_needs_the_authority() {
    let mut g = initialize_grant([1u8; 32], AUTH, 1_000, 3, 50);
    assert_eq!(liquidate_bond(&mut g, &[1u8; 32]), Err(DGEError::Unauthorized));
    assert!(!g.is_liquidated);
    let mut other = AUTH;
    other[31] = 0;
    assert_eq!(liquidate_bond(&mut g, &other), Err(DGEError::Unauthorized));
    assert!(!g.is_liquidated);
}

#[test]
fn failing_milestone_after_last_tranche_liquidates() {
    let mut g = initialize_grant([1u8; 32], AUTH, 1_000, 1, 50);
    assert_eq!(complete_milestone_and_payout(&mut g, 1, 1_000), Ok(1_000));
    assert_eq!(complete_milestone_and_payout(&mut g, 2, 10), Err(DGEError::DMetricFailed));
    assert!(g.is_liquidated);
    assert_eq!(g.tranches_completed, 1);
}

#[test]
fn keys_compare_bytewise() {
    let mut k = [3u8; 32];
    assert!(same_key(&k, &[3u8; 32]));
    k[0] = 4;
    assert!(!same_key(&k, &[3u8; 32]));
}
