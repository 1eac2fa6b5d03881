//! Model-level checks: split arithmetic, gate logic and lifecycle flags on
//! fixed inputs with exact expected values.

use work_escrow::board::JobBoardCore;
use work_escrow::escrow::WorkEscrow;
use work_escrow::math::{mul_bps, payout_split, revenue_split};

#[test]
fn contract_objects_build() {
    let board = JobBoardCore::init(1, 2, 3, 100, 8, 16);
    let escrow = WorkEscrow::init(1, 4, 2, 3, 100, 5, 150, 3_000, 10, 10, 2, 3_600, 500, 1_800, 32, 500);
    let _board = board.unwrap();
    let _escrow = escrow.unwrap();
}

#[test]
fn happy_path_value_conservation_model() {
    let (worker_net, referral_fee, treasury_fee, protocol_fee) = payout_split(100_000, 150, 3_000, true);
    assert_eq!(worker_net + referral_fee + treasury_fee, 100_000);
    assert_eq!(referral_fee + treasury_fee, protocol_fee);
}

#[test]
fn invite_only_gate_model() {
    let invited = ["worker_a", "worker_b"];
    assert!(invited.contains(&"worker_a"));
    assert!(!invited.contains(&"worker_x"));
}

#[test]
fn stale_offer_prevention_model() {
    let latest_offer_id = 9u64;
    let attempted_offer_id = 8u64;
    assert_ne!(latest_offer_id, attempted_offer_id);
}

#[test]
fn double_activation_prevention_model() {
    let mut consumed = false;
    assert!(!consumed);
    consumed = true;
    assert!(consumed);
}

#[test]
fn runway_depletion_default_model() {
    let runway_balance = 0u128;
    let recurring_due = 100u128;
    assert!(runway_balance < recurring_due);
}

#[test]
fn milestone_autoapprove_timeout_model() {
    let submitted_at = 1_000u64;
    let review_timeout = 1_800u64;
    let now = 2_900u64;
    assert!(now > submitted_at + review_timeout);
}

#[test]
fn revenue_split_correctness_model() {
    let (worker, employer, referral, treasury, _protocol) = revenue_split(500_000, 150, 3_000, 2_000, true);
    assert_eq!(worker + employer + referral + treasury, 500_000);

    let (worker2, employer2, referral2, treasury2, _protocol2) = revenue_split(500_000, 150, 3_000, 2_000, false);
    assert_eq!(worker2 + employer2 + referral2 + treasury2, 500_000);
    assert_eq!(referral2, 0);
}

#[test]
fn termination_penalty_model() {
    let requester_bond = 1_000_000u128;
    let penalty_bps = 500u64;
    let penalty = mul_bps(requester_bond, penalty_bps);
    assert_eq!(penalty, 50_000);
}

#[test]
fn reputation_bounds_model() {
    let mut score: i64 = 420;
    score += 5;
    score -= 60;
    score = score.clamp(0, 1_000);
    assert!((0..=1_000).contains(&score));
}

#[test]
fn trust_gates_model() {
    let registered = true;
    let uptime_score = 101u64;
    let min_uptime = 100u64;
    assert!(registered);
    assert!(uptime_score >= min_uptime);
}

#[test]
fn pause_unpause_model() {
    let mut paused = false;
    assert!(!paused);
    paused = true;
    assert!(paused);
    paused = false;
    assert!(!paused);
}

#[test]
fn withdraw_once_model() {
    let mut claimable = 123u128;
    assert!(claimable > 0);
    claimable = 0;
    assert_eq!(claimable, 0);
}

#[test]
fn edge_boundaries_model() {
    let max_milestones = 32usize;
    let max_counteroffers = 8usize;
    assert_eq!(max_milestones, 32);
    assert_eq!(max_counteroffers, 8);
}
