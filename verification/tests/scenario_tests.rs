//! End-to-end scenarios over the negotiation ledger and the escrow engine:
//! the exact split values, the offer-chain staleness gate, the invite gate,
//! single acceptance, the funding gate, recurring pay and employer default,
//! milestone settlement and its review-deadline boundary, revenue deposits,
//! termination penalties, natural completion and withdrawal.

use work_escrow::board::JobBoardCore;
use work_escrow::escrow::WorkEscrow;
use work_escrow::math::{payout_split, revenue_split};
use work_escrow::mocks::{BondRegistryMock, UptimeMock};
use work_escrow::types::{
    AgreementStatus, BoardError, EscrowError, JobStatus, JobVisibility, MilestoneSpec,
    MilestoneState, OfferTermsInput, RecurringTerms, RevenueShareTerms, TerminationReason,
    TerminationSide,
};

const OWNER: u64 = 1;
const REGISTRY_ADDR: u64 = 2;
const UPTIME_ADDR: u64 = 3;
const BOARD_ADDR: u64 = 4;
const TREASURY: u64 = 5;
const EMPLOYER: u64 = 10;
const WORKER: u64 = 11;
const WORKER_B: u64 = 12;
const WORKER_X: u64 = 13;
const REFERRER: u64 = 20;

fn register(registry: &mut BondRegistryMock, oracle: &mut UptimeMock, agent: u64, score: u64) {
    registry.set_agent_name(OWNER, agent, b"agent".to_vec()).unwrap();
    oracle.set_lifetime_info(OWNER, agent, 10, score, 0, 0).unwrap();
}

fn oracles() -> (BondRegistryMock, UptimeMock) {
    let mut registry = BondRegistryMock::init(OWNER);
    let mut oracle = UptimeMock::init(OWNER);
    register(&mut registry, &mut oracle, EMPLOYER, 200);
    register(&mut registry, &mut oracle, WORKER, 200);
    register(&mut registry, &mut oracle, WORKER_B, 200);
    (registry, oracle)
}

fn new_board() -> JobBoardCore {
    JobBoardCore::init(OWNER, REGISTRY_ADDR, UPTIME_ADDR, 100, 8, 16).unwrap()
}

fn new_escrow() -> WorkEscrow {
    WorkEscrow::init(
        OWNER,
        BOARD_ADDR,
        REGISTRY_ADDR,
        UPTIME_ADDR,
        100,
        TREASURY,
        150,
        3_000,
        1_000,
        1_000,
        2,
        3_600,
        500,
        1_800,
        32,
        500,
    )
    .unwrap()
}

fn terms(
    amount_per_period: u128,
    period_seconds: u64,
    total_periods: u64,
    profit_share_bps: u64,
    employer_bond_required: u128,
    worker_bond_required: u128,
    milestones: Vec<MilestoneSpec>,
) -> OfferTermsInput {
    OfferTermsInput {
        recurring: RecurringTerms { amount_per_period, period_seconds, total_periods },
        revenue_share: RevenueShareTerms { profit_share_bps },
        employer_bond_required,
        worker_bond_required,
        milestones,
        terms_uri: b"terms".to_vec(),
    }
}

/// Creates a public job, one worker application, an employer offer and the
/// worker's acceptance; returns the board and the (job, offer) pair.
fn matched_job(
    registry: &BondRegistryMock,
    oracle: &UptimeMock,
    offer: OfferTermsInput,
) -> (JobBoardCore, u64, u64) {
    let mut board = new_board();
    let job_id = board
        .create_job(registry, oracle, EMPLOYER, 100, b"job".to_vec(), JobVisibility::Public, 10_000, 0, 1, vec![])
        .unwrap();
    let app_id = board.apply(registry, oracle, WORKER, 110, job_id, b"cv".to_vec()).unwrap();
    let offer_id = board.propose_offer(EMPLOYER, 120, job_id, app_id, offer).unwrap();
    board.accept_offer(WORKER, 130, job_id, offer_id).unwrap();
    (board, job_id, offer_id)
}

#[test]
fn scenario_payout_split_values() {
    let (worker_net, referral_fee, treasury_fee, protocol_fee) = payout_split(100_000, 150, 3_000, true);
    assert_eq!(protocol_fee, 1_500);
    assert_eq!(referral_fee, 450);
    assert_eq!(treasury_fee, 1_050);
    assert_eq!(worker_net, 98_500);
    assert_eq!(worker_net + referral_fee + treasury_fee, 100_000);
}

#[test]
fn scenario_revenue_split_values() {
    let (worker_share, employer_share, referral_fee, treasury_fee, protocol_fee) =
        revenue_split(500_000, 150, 3_000, 2_000, false);
    assert_eq!(protocol_fee, 7_500);
    assert_eq!(worker_share, 98_500);
    assert_eq!(employer_share, 394_000);
    assert_eq!(referral_fee, 0);
    assert_eq!(treasury_fee, 7_500);
    assert_eq!(worker_share + employer_share + referral_fee + treasury_fee, 500_000);
}

#[test]
fn scenario_stale_offer_chain() {
    let (registry, oracle) = oracles();
    let mut board = new_board();
    let job_id = board
        .create_job(&registry, &oracle, EMPLOYER, 100, b"job".to_vec(), JobVisibility::Public, 10_000, 0, 1, vec![])
        .unwrap();
    let app_id = board.apply(&registry, &oracle, WORKER, 110, job_id, b"cv".to_vec()).unwrap();
    let offer_a = board
        .propose_offer(EMPLOYER, 120, job_id, app_id, terms(100, 10, 5, 0, 1_000, 1_000, vec![]))
        .unwrap();
    let offer_b = board
        .counter_offer(WORKER, 130, job_id, offer_a, terms(200, 10, 5, 0, 1_000, 1_000, vec![]))
        .unwrap();
    // offer A is countered and no longer the latest: accepting it is stale
    assert_eq!(board.accept_offer(EMPLOYER, 140, job_id, offer_a), Err(BoardError::StaleOffer));
    board.accept_offer(EMPLOYER, 150, job_id, offer_b).unwrap();
    assert_eq!(board.get_job(job_id).unwrap().status, JobStatus::Matched);
    assert_eq!(board.get_job(job_id).unwrap().accepted_offer_id, offer_b);
}

#[test]
fn scenario_invite_only_application() {
    let (mut registry, mut oracle) = oracles();
    register(&mut registry, &mut oracle, WORKER_X, 200);
    let mut board = new_board();
    let job_id = board
        .create_job(
            &registry,
            &oracle,
            EMPLOYER,
            100,
            b"job".to_vec(),
            JobVisibility::InviteOnly,
            10_000,
            0,
            1,
            vec![WORKER, WORKER_B],
        )
        .unwrap();
    assert_eq!(
        board.apply(&registry, &oracle, WORKER_X, 110, job_id, b"cv".to_vec()),
        Err(BoardError::NotInvited)
    );
    assert!(board.apply(&registry, &oracle, WORKER, 120, job_id, b"cv".to_vec()).is_ok());
    assert!(board.is_invite_allowed(job_id, WORKER_B));
    assert!(!board.is_invite_allowed(job_id, WORKER_X));
}

#[test]
fn scenario_single_activation() {
    let (registry, oracle) = oracles();
    let (board, job_id, offer_id) = matched_job(&registry, &oracle, terms(100, 10, 5, 0, 1_000, 1_000, vec![]));
    let mut escrow = new_escrow();
    let agreement_id = escrow
        .activate_agreement(&board, &registry, &oracle, EMPLOYER, 200, job_id, offer_id, None)
        .unwrap();
    assert_eq!(agreement_id, 1);
    assert!(escrow.is_offer_consumed(job_id, offer_id));
    assert_eq!(
        escrow.activate_agreement(&board, &registry, &oracle, EMPLOYER, 210, job_id, offer_id, None),
        Err(EscrowError::OfferConsumed)
    );
}

#[test]
fn scenario_funding_gate() {
    let (registry, oracle) = oracles();
    let (board, job_id, offer_id) = matched_job(&registry, &oracle, terms(100, 10, 5, 0, 2_000, 2_000, vec![]));
    let mut escrow = new_escrow();
    let id = escrow
        .activate_agreement(&board, &registry, &oracle, EMPLOYER, 200, job_id, offer_id, None)
        .unwrap();
    // reserved runway floor = 100 * 2 periods = 200
    escrow.fund_employer_runway(EMPLOYER, 210, id, 2_000).unwrap();
    assert_eq!(escrow.get_agreement(id).unwrap().status, AgreementStatus::PendingFunding);
    escrow.fund_worker_bond(WORKER, 220, id, 2_000).unwrap();
    assert_eq!(escrow.get_agreement(id).unwrap().status, AgreementStatus::PendingFunding);
    escrow.fund_employer_runway(EMPLOYER, 230, id, 199).unwrap();
    assert_eq!(escrow.get_agreement(id).unwrap().status, AgreementStatus::PendingFunding);
    escrow.fund_employer_runway(EMPLOYER, 240, id, 1).unwrap();
    let agreement = escrow.get_agreement(id).unwrap();
    assert_eq!(agreement.status, AgreementStatus::Active);
    assert_eq!(agreement.activated_at, 240);
    assert_eq!(agreement.terms.recurring.next_pay_ts, 250);
    let financials = escrow.get_agreement_financials(id).unwrap();
    assert_eq!(financials.funding.employer_bond_locked, 2_000);
    assert_eq!(financials.funding.worker_bond_locked, 2_000);
    assert_eq!(financials.funding.runway_balance, 200);
}

/// Activates the matched pair and funds it to Active; returns the escrow and
/// the agreement id. `extra_runway` lands on top of the reserved floor.
fn active_agreement(
    registry: &BondRegistryMock,
    oracle: &UptimeMock,
    board: &JobBoardCore,
    job_id: u64,
    offer_id: u64,
    referrer: Option<u64>,
    extra_runway: u128,
) -> (WorkEscrow, u64) {
    let mut escrow = new_escrow();
    let id = escrow
        .activate_agreement(board, registry, oracle, EMPLOYER, 200, job_id, offer_id, referrer)
        .unwrap();
    let required = escrow.get_agreement(id).unwrap().terms;
    escrow.fund_worker_bond(WORKER, 210, id, required.worker_bond_required).unwrap();
    let reserved = escrow.get_agreement_financials(id).unwrap().funding.reserved_recurring_minimum;
    escrow
        .fund_employer_runway(EMPLOYER, 220, id, required.employer_bond_required + reserved + extra_runway)
        .unwrap();
    assert_eq!(escrow.get_agreement(id).unwrap().status, AgreementStatus::Active);
    (escrow, id)
}

#[test]
fn scenario_recurring_pay_conserves_value() {
    let (registry, oracle) = oracles();
    let (board, job_id, offer_id) =
        matched_job(&registry, &oracle, terms(100_000, 10, 5, 0, 1_000, 1_000, vec![]));
    let (mut escrow, id) =
        active_agreement(&registry, &oracle, &board, job_id, offer_id, Some(REFERRER), 0);
    // next pay at 230; the reserved floor (200_000) covers one gross of 100_000
    escrow.claim_recurring_pay(WORKER, 230, id).unwrap();
    assert_eq!(escrow.get_claimable(WORKER), 98_500);
    assert_eq!(escrow.get_claimable(REFERRER), 450);
    assert_eq!(escrow.get_claimable(TREASURY), 1_050);
    assert_eq!(
        escrow.get_claimable(WORKER) + escrow.get_claimable(REFERRER) + escrow.get_claimable(TREASURY),
        100_000
    );
    let rep = escrow.get_agent_reputation(EMPLOYER);
    assert_eq!(rep.on_time_recurring_payments, 1);
    assert_eq!(rep.score, 505);
    let stats = escrow.get_protocol_stats();
    assert_eq!(stats.total_gross_payouts, 100_000);
    assert_eq!(stats.total_protocol_fees, 1_500);
}

#[test]
fn scenario_runway_depletion_defaults_employer() {
    let (registry, oracle) = oracles();
    let (board, job_id, offer_id) =
        matched_job(&registry, &oracle, terms(100_000, 10, 5, 0, 1_000, 1_000, vec![]));
    let (mut escrow, id) =
        active_agreement(&registry, &oracle, &board, job_id, offer_id, None, 0);
    // the reserved floor covers two periods; the third claim finds the
    // runway short and defaults the employer instead of failing
    escrow.claim_recurring_pay(WORKER, 230, id).unwrap();
    escrow.claim_recurring_pay(WORKER, 240, id).unwrap();
    escrow.claim_recurring_pay(WORKER, 250, id).unwrap();
    let agreement = escrow.get_agreement(id).unwrap();
    assert_eq!(agreement.status, AgreementStatus::NoticePeriod);
    assert_eq!(agreement.default_side, 1);
    assert_eq!(agreement.requested_by_side, 2);
    assert_eq!(agreement.notice_end_ts, 250);
    let rep = escrow.get_agent_reputation(EMPLOYER);
    assert_eq!(rep.defaults_as_employer, 1);
    assert_eq!(rep.score, 450);
    // zero-length notice: immediately finalizable as an employer default
    let reason = escrow.finalize_terminate(250, id).unwrap();
    assert_eq!(reason, TerminationReason::EmployerDefault);
    assert_eq!(escrow.get_agreement(id).unwrap().status, AgreementStatus::Terminated);
}

#[test]
fn scenario_milestone_settlement() {
    let (registry, oracle) = oracles();
    let milestone = MilestoneSpec {
        id: 1,
        amount: 500,
        due_ts: 5_000,
        review_timeout_seconds: 1_800,
        metadata_uri: b"m1".to_vec(),
    };
    let (board, job_id, offer_id) =
        matched_job(&registry, &oracle, terms(100, 10, 5, 0, 1_000, 1_000, vec![milestone]));
    let (mut escrow, id) =
        active_agreement(&registry, &oracle, &board, job_id, offer_id, None, 500);
    escrow.submit_milestone(WORKER, 1_000, id, 1, b"proof".to_vec()).unwrap();
    let submitted = escrow.get_milestone(id, 1).unwrap();
    assert_eq!(submitted.state, MilestoneState::Submitted);
    assert_eq!(submitted.review_deadline, 2_800);
    escrow.approve_milestone(EMPLOYER, 1_100, id, 1).unwrap();
    let paid = escrow.get_milestone(id, 1).unwrap();
    assert_eq!(paid.state, MilestoneState::Paid);
    assert_eq!(paid.settlement_mode, 0);
    // fee 150 bps of 500 = 7; worker nets 493, treasury takes 7
    assert_eq!(escrow.get_claimable(WORKER), 493);
    assert_eq!(escrow.get_claimable(TREASURY), 7);
    assert_eq!(escrow.get_agent_reputation(WORKER).milestones_settled, 1);
    // the runway floor survives: 200 reserved still present
    assert_eq!(escrow.get_agreement_financials(id).unwrap().funding.runway_balance, 200);
}

#[test]
fn scenario_milestone_runway_floor_blocks_approval() {
    let (registry, oracle) = oracles();
    let milestone = MilestoneSpec {
        id: 1,
        amount: 500,
        due_ts: 5_000,
        review_timeout_seconds: 1_800,
        metadata_uri: b"m1".to_vec(),
    };
    let (board, job_id, offer_id) =
        matched_job(&registry, &oracle, terms(100, 10, 5, 0, 1_000, 1_000, vec![milestone]));
    // only 499 above the reserved floor: paying 500 would starve recurring pay
    let (mut escrow, id) =
        active_agreement(&registry, &oracle, &board, job_id, offer_id, None, 499);
    escrow.submit_milestone(WORKER, 1_000, id, 1, b"proof".to_vec()).unwrap();
    assert_eq!(
        escrow.approve_milestone(EMPLOYER, 1_100, id, 1),
        Err(EscrowError::InsufficientRunway)
    );
}

#[test]
fn scenario_milestone_review_boundary() {
    let (registry, oracle) = oracles();
    let milestone = MilestoneSpec {
        id: 1,
        amount: 500,
        due_ts: 5_000,
        review_timeout_seconds: 1_800,
        metadata_uri: b"m1".to_vec(),
    };
    let (board, job_id, offer_id) =
        matched_job(&registry, &oracle, terms(100, 10, 5, 0, 1_000, 1_000, vec![milestone]));
    let (mut escrow, id) =
        active_agreement(&registry, &oracle, &board, job_id, offer_id, None, 500);
    escrow.submit_milestone(WORKER, 1_000, id, 1, b"proof".to_vec()).unwrap();
    // review deadline is 2_800: auto-approval only strictly after it
    assert_eq!(escrow.auto_approve_milestone(2_800, id, 1), Err(EscrowError::TimeoutNotReached));
    // rejection only at or before it
    let mut fork = escrow;
    assert_eq!(
        fork.reject_milestone(EMPLOYER, 2_801, id, 1, b"late".to_vec()),
        Err(EscrowError::TimeoutNotReached)
    );
    fork.reject_milestone(EMPLOYER, 2_800, id, 1, b"no".to_vec()).unwrap();
    let rejected = fork.get_milestone(id, 1).unwrap();
    assert_eq!(rejected.state, MilestoneState::Rejected);
    // rejection is terminal: no re-submission path
    assert_eq!(
        fork.submit_milestone(WORKER, 2_900, id, 1, b"again".to_vec()),
        Err(EscrowError::MilestoneState)
    );
}

#[test]
fn scenario_milestone_auto_approval_after_timeout() {
    let (registry, oracle) = oracles();
    let milestone = MilestoneSpec {
        id: 1,
        amount: 500,
        due_ts: 5_000,
        review_timeout_seconds: 1_800,
        metadata_uri: b"m1".to_vec(),
    };
    let (board, job_id, offer_id) =
        matched_job(&registry, &oracle, terms(100, 10, 5, 0, 1_000, 1_000, vec![milestone]));
    let (mut escrow, id) =
        active_agreement(&registry, &oracle, &board, job_id, offer_id, None, 500);
    escrow.submit_milestone(WORKER, 1_000, id, 1, b"proof".to_vec()).unwrap();
    // anyone may settle strictly after the deadline
    escrow.auto_approve_milestone(2_801, id, 1).unwrap();
    let paid = escrow.get_milestone(id, 1).unwrap();
    assert_eq!(paid.state, MilestoneState::Paid);
    assert_eq!(paid.settlement_mode, 1);
    // late rejection is now impossible: the milestone is no longer Submitted
    assert_eq!(
        escrow.reject_milestone(EMPLOYER, 2_802, id, 1, b"no".to_vec()),
        Err(EscrowError::MilestoneState)
    );
}

#[test]
fn scenario_revenue_deposit_credits_all_parties() {
    let (registry, oracle) = oracles();
    let (board, job_id, offer_id) =
        matched_job(&registry, &oracle, terms(100, 10, 5, 2_000, 1_000, 1_000, vec![]));
    let (mut escrow, id) =
        active_agreement(&registry, &oracle, &board, job_id, offer_id, None, 0);
    escrow.deposit_revenue(id, 500_000).unwrap();
    assert_eq!(escrow.get_claimable(WORKER), 98_500);
    assert_eq!(escrow.get_claimable(EMPLOYER), 394_000);
    assert_eq!(escrow.get_claimable(TREASURY), 7_500);
    assert_eq!(
        escrow.get_claimable(WORKER) + escrow.get_claimable(EMPLOYER) + escrow.get_claimable(TREASURY),
        500_000
    );
    assert_eq!(escrow.get_protocol_stats().total_revenue_deposited, 500_000);
    // runway and bonds are untouched by the revenue path
    let funding = escrow.get_agreement_financials(id).unwrap().funding;
    assert_eq!(funding.runway_balance, 200);
    assert_eq!(funding.employer_bond_locked, 1_000);
    assert_eq!(funding.worker_bond_locked, 1_000);
}

#[test]
fn scenario_termination_penalty() {
    let (registry, oracle) = oracles();
    let (board, job_id, offer_id) =
        matched_job(&registry, &oracle, terms(0, 0, 0, 0, 1_000, 1_000_000, vec![]));
    let (mut escrow, id) =
        active_agreement(&registry, &oracle, &board, job_id, offer_id, None, 0);
    escrow.request_terminate(WORKER, 1_000, id, TerminationSide::Worker).unwrap();
    assert_eq!(escrow.get_agreement(id).unwrap().status, AgreementStatus::NoticePeriod);
    assert_eq!(escrow.finalize_terminate(4_599, id), Err(EscrowError::TimeoutNotReached));
    let reason = escrow.finalize_terminate(4_600, id).unwrap();
    assert_eq!(reason, TerminationReason::UnilateralWorker);
    // requester bond 1_000_000 at 500 bps: penalty 50_000 to the employer,
    // 950_000 refunded to the worker, employer bond 1_000 refunded in full
    assert_eq!(escrow.get_claimable(WORKER), 950_000);
    assert_eq!(escrow.get_claimable(EMPLOYER), 50_000 + 1_000);
    assert_eq!(escrow.get_agreement(id).unwrap().status, AgreementStatus::Terminated);
    let rep = escrow.get_agent_reputation(WORKER);
    assert_eq!(rep.terminations_initiated, 1);
    assert_eq!(rep.score, 480);
}

#[test]
fn scenario_natural_completion_refunds_bonds() {
    let (registry, oracle) = oracles();
    let (board, job_id, offer_id) =
        matched_job(&registry, &oracle, terms(100, 10, 2, 0, 1_000, 1_000, vec![]));
    let (mut escrow, id) =
        active_agreement(&registry, &oracle, &board, job_id, offer_id, None, 0);
    escrow.claim_recurring_pay(WORKER, 230, id).unwrap();
    assert_eq!(escrow.get_agreement(id).unwrap().status, AgreementStatus::Active);
    escrow.claim_recurring_pay(WORKER, 240, id).unwrap();
    let agreement = escrow.get_agreement(id).unwrap();
    assert_eq!(agreement.status, AgreementStatus::Completed);
    let funding = escrow.get_agreement_financials(id).unwrap().funding;
    assert_eq!(funding.employer_bond_locked, 0);
    assert_eq!(funding.worker_bond_locked, 0);
    // worker: two nets of 99 (fee 1 each on gross 100) plus the bond refund
    assert_eq!(escrow.get_claimable(WORKER), 99 + 99 + 1_000);
    assert_eq!(escrow.get_claimable(EMPLOYER), 1_000);
    assert_eq!(escrow.get_agent_reputation(WORKER).score, 525);
    assert_eq!(escrow.get_agent_reputation(WORKER).agreements_completed, 1);
    assert_eq!(escrow.get_agent_reputation(EMPLOYER).score, 500 + 5 + 5 + 25);
    assert_eq!(escrow.get_protocol_stats().completed_agreements, 1);
}

#[test]
fn scenario_withdraw_claimable_once() {
    let (registry, oracle) = oracles();
    let (board, job_id, offer_id) =
        matched_job(&registry, &oracle, terms(100, 10, 5, 2_000, 1_000, 1_000, vec![]));
    let (mut escrow, id) =
        active_agreement(&registry, &oracle, &board, job_id, offer_id, None, 0);
    escrow.deposit_revenue(id, 500_000).unwrap();
    let amount = escrow.withdraw_claimable(WORKER).unwrap();
    assert_eq!(amount, 98_500);
    assert_eq!(escrow.get_claimable(WORKER), 0);
    assert_eq!(escrow.withdraw_claimable(WORKER), Err(EscrowError::NothingToWithdraw));
}

#[test]
fn board_error_paths() {
    let (mut registry, mut oracle) = oracles();
    let mut board = new_board();
    // unregistered and low-uptime agents are turned away
    assert_eq!(
        board.create_job(&registry, &oracle, WORKER_X, 100, b"j".to_vec(), JobVisibility::Public, 10_000, 0, 1, vec![]),
        Err(BoardError::NotRegistered)
    );
    register(&mut registry, &mut oracle, WORKER_X, 50);
    assert_eq!(
        board.create_job(&registry, &oracle, WORKER_X, 100, b"j".to_vec(), JobVisibility::Public, 10_000, 0, 1, vec![]),
        Err(BoardError::LowUptime)
    );
    // value and timing validations
    assert_eq!(
        board.create_job(&registry, &oracle, EMPLOYER, 100, vec![], JobVisibility::Public, 10_000, 0, 1, vec![]),
        Err(BoardError::InvalidAmount)
    );
    assert_eq!(
        board.create_job(&registry, &oracle, EMPLOYER, 100, b"j".to_vec(), JobVisibility::Public, 100, 0, 1, vec![]),
        Err(BoardError::InvalidDeadline)
    );
    assert_eq!(
        board.create_job(&registry, &oracle, EMPLOYER, 100, b"j".to_vec(), JobVisibility::Public, 10_000, 0, 0, vec![]),
        Err(BoardError::InvalidState)
    );
    let job_id = board
        .create_job(&registry, &oracle, EMPLOYER, 100, b"j".to_vec(), JobVisibility::Public, 10_000, 0, 1, vec![])
        .unwrap();
    let app_id = board.apply(&registry, &oracle, WORKER, 110, job_id, b"cv".to_vec()).unwrap();
    assert_eq!(
        board.apply(&registry, &oracle, WORKER, 115, job_id, b"cv".to_vec()),
        Err(BoardError::AlreadyApplied)
    );
    // invalid basis points in proposed terms
    assert_eq!(
        board.propose_offer(EMPLOYER, 120, job_id, app_id, terms(0, 0, 0, 10_001, 1, 1, vec![])),
        Err(BoardError::InvalidBps)
    );
    // only the parties may propose
    assert_eq!(
        board.propose_offer(WORKER_B, 120, job_id, app_id, terms(0, 0, 0, 0, 1, 1, vec![])),
        Err(BoardError::Unauthorized)
    );
    let offer_id = board
        .propose_offer(EMPLOYER, 120, job_id, app_id, terms(0, 0, 0, 0, 1, 1, vec![]))
        .unwrap();
    // an unresolved latest offer blocks a new root proposal
    assert_eq!(
        board.propose_offer(EMPLOYER, 125, job_id, app_id, terms(0, 0, 0, 0, 1, 1, vec![])),
        Err(BoardError::StaleOffer)
    );
    // only the counterparty may reject; only the proposer may withdraw
    assert_eq!(board.reject_offer(EMPLOYER, job_id, offer_id), Err(BoardError::Unauthorized));
    assert_eq!(board.withdraw_offer(WORKER, job_id, offer_id), Err(BoardError::Unauthorized));
    board.accept_offer(WORKER, 130, job_id, offer_id).unwrap();
    assert_eq!(board.accept_offer(WORKER, 140, job_id, offer_id), Err(BoardError::AlreadyMatched));
    assert_eq!(board.cancel_job(EMPLOYER, job_id), Err(BoardError::AlreadyMatched));
    // pausing blocks the state-changing entry points
    board.set_paused(OWNER, true).unwrap();
    assert_eq!(
        board.create_job(&registry, &oracle, EMPLOYER, 150, b"j".to_vec(), JobVisibility::Public, 10_000, 0, 1, vec![]),
        Err(BoardError::Paused)
    );
    board.set_paused(OWNER, false).unwrap();
    assert_eq!(board.set_paused(WORKER, true), Err(BoardError::Unauthorized));
}

#[test]
fn board_counter_offer_limit() {
    let (registry, oracle) = oracles();
    let mut board = JobBoardCore::init(OWNER, REGISTRY_ADDR, UPTIME_ADDR, 100, 1, 16).unwrap();
    let job_id = board
        .create_job(&registry, &oracle, EMPLOYER, 100, b"j".to_vec(), JobVisibility::Public, 10_000, 0, 1, vec![])
        .unwrap();
    let app_id = board.apply(&registry, &oracle, WORKER, 110, job_id, b"cv".to_vec()).unwrap();
    let offer_a = board
        .propose_offer(EMPLOYER, 120, job_id, app_id, terms(0, 0, 0, 0, 1, 1, vec![]))
        .unwrap();
    let offer_b = board
        .counter_offer(WORKER, 130, job_id, offer_a, terms(0, 0, 0, 0, 2, 2, vec![]))
        .unwrap();
    assert_eq!(
        board.counter_offer(EMPLOYER, 140, job_id, offer_b, terms(0, 0, 0, 0, 3, 3, vec![])),
        Err(BoardError::CounterLimit)
    );
}

#[test]
fn board_expiry_and_cancellation() {
    let (registry, oracle) = oracles();
    let mut board = new_board();
    let job_id = board
        .create_job(&registry, &oracle, EMPLOYER, 100, b"j".to_vec(), JobVisibility::Public, 10_000, 0, 1, vec![])
        .unwrap();
    assert_eq!(board.expire_job(10_000, job_id), Err(BoardError::InvalidDeadline));
    board.expire_job(10_001, job_id).unwrap();
    assert_eq!(board.get_job(job_id).unwrap().status, JobStatus::Expired);
    assert_eq!(board.cancel_job(EMPLOYER, job_id), Err(BoardError::InvalidState));
    let stats = board.get_board_stats();
    assert_eq!(stats.total_jobs, 1);
    assert_eq!(stats.open_jobs, 0);

    let second = board
        .create_job(&registry, &oracle, EMPLOYER, 200, b"k".to_vec(), JobVisibility::Public, 10_000, 0, 1, vec![])
        .unwrap();
    board.cancel_job(EMPLOYER, second).unwrap();
    assert_eq!(board.get_job(second).unwrap().status, JobStatus::Closed);
}

#[test]
fn board_pagination() {
    let (mut registry, mut oracle) = oracles();
    register(&mut registry, &mut oracle, WORKER_X, 200);
    let mut board = new_board();
    let job_id = board
        .create_job(&registry, &oracle, EMPLOYER, 100, b"j".to_vec(), JobVisibility::Public, 10_000, 0, 1, vec![])
        .unwrap();
    board.apply(&registry, &oracle, WORKER, 110, job_id, b"a".to_vec()).unwrap();
    board.apply(&registry, &oracle, WORKER_B, 111, job_id, b"b".to_vec()).unwrap();
    board.apply(&registry, &oracle, WORKER_X, 112, job_id, b"c".to_vec()).unwrap();
    let page = board.get_applications(job_id, 1, 10);
    assert_eq!(page.len(), 2);
    assert_eq!(page[0].applicant, WORKER_B);
    assert_eq!(page[1].applicant, WORKER_X);
    assert_eq!(board.get_applications(job_id, 3, 10).len(), 0);
    assert_eq!(board.get_applications(job_id, 0, 0).len(), 0);
    let offer_a = board
        .propose_offer(EMPLOYER, 120, job_id, 1, terms(0, 0, 0, 0, 1, 1, vec![]))
        .unwrap();
    let offer_b = board
        .counter_offer(WORKER, 130, job_id, offer_a, terms(0, 0, 0, 0, 2, 2, vec![]))
        .unwrap();
    let offers = board.get_offers(job_id, 1, 0, 10);
    assert_eq!(offers.len(), 2);
    assert_eq!(offers[0].id, offer_a);
    assert_eq!(offers[1].id, offer_b);
    assert_eq!(offers[1].parent_offer_id, offer_a);
    assert_eq!(offers[1].round_index, 1);
}

#[test]
fn escrow_error_paths() {
    let (registry, oracle) = oracles();
    let (board, job_id, offer_id) = matched_job(&registry, &oracle, terms(100, 10, 5, 0, 1_000, 1_000, vec![]));
    let mut escrow = new_escrow();
    // no agreement yet
    assert_eq!(escrow.fund_employer_runway(EMPLOYER, 100, 1, 10), Err(EscrowError::InvalidState));
    // wrong offer id never activates
    assert_eq!(
        escrow.activate_agreement(&board, &registry, &oracle, EMPLOYER, 200, job_id, offer_id + 1, None),
        Err(EscrowError::OfferNotAccepted)
    );
    // a job without an accepted offer never activates
    let fresh_board = new_board();
    assert_eq!(
        escrow.activate_agreement(&fresh_board, &registry, &oracle, EMPLOYER, 200, job_id, offer_id, None),
        Err(EscrowError::OfferNotAccepted)
    );
    let id = escrow
        .activate_agreement(&board, &registry, &oracle, EMPLOYER, 200, job_id, offer_id, None)
        .unwrap();
    // only the named parties fund their own legs
    assert_eq!(escrow.fund_employer_runway(WORKER, 210, id, 10), Err(EscrowError::Unauthorized));
    assert_eq!(escrow.fund_worker_bond(EMPLOYER, 210, id, 10), Err(EscrowError::Unauthorized));
    assert_eq!(escrow.fund_employer_runway(EMPLOYER, 210, id, 0), Err(EscrowError::InvalidAmount));
    // not yet active: top-ups, pay, revenue and termination are out of state
    assert_eq!(escrow.top_up_runway(EMPLOYER, id, 10), Err(EscrowError::InvalidState));
    assert_eq!(escrow.claim_recurring_pay(WORKER, 210, id), Err(EscrowError::InvalidState));
    assert_eq!(escrow.deposit_revenue(id, 10), Err(EscrowError::InvalidState));
    assert_eq!(
        escrow.request_terminate(WORKER, 210, id, TerminationSide::Worker),
        Err(EscrowError::InvalidState)
    );
    assert_eq!(escrow.finalize_terminate(210, id), Err(EscrowError::InvalidState));
    // pause blocks the state-changing entry points
    escrow.set_paused(OWNER, true).unwrap();
    assert_eq!(escrow.fund_worker_bond(WORKER, 210, id, 10), Err(EscrowError::Paused));
    escrow.set_paused(OWNER, false).unwrap();
    // owner-gated parameters validate their ranges
    assert_eq!(escrow.set_protocol_fee_bps(OWNER, 10_001), Err(EscrowError::InvalidBps));
    assert_eq!(escrow.set_protocol_fee_bps(WORKER, 100), Err(EscrowError::Unauthorized));
    assert_eq!(escrow.set_treasury(OWNER, 0), Err(EscrowError::InvalidAmount));
    escrow.set_protocol_fee_bps(OWNER, 200).unwrap();
    // the running agreement keeps its frozen snapshot
    assert_eq!(
        escrow.get_agreement(id).unwrap().terms.revenue_share.protocol_fee_bps_snapshot,
        150
    );
}

#[test]
fn escrow_milestone_state_errors() {
    let (registry, oracle) = oracles();
    let milestone = MilestoneSpec {
        id: 1,
        amount: 500,
        due_ts: 5_000,
        review_timeout_seconds: 1_800,
        metadata_uri: b"m1".to_vec(),
    };
    let (board, job_id, offer_id) =
        matched_job(&registry, &oracle, terms(100, 10, 5, 0, 1_000, 1_000, vec![milestone]));
    let (mut escrow, id) =
        active_agreement(&registry, &oracle, &board, job_id, offer_id, None, 500);
    // approving an Open milestone is a state error; missing ids are missing
    assert_eq!(escrow.approve_milestone(EMPLOYER, 900, id, 1), Err(EscrowError::MilestoneState));
    assert_eq!(escrow.submit_milestone(WORKER, 900, id, 2, b"p".to_vec()), Err(EscrowError::InvalidState));
    assert_eq!(escrow.submit_milestone(EMPLOYER, 900, id, 1, b"p".to_vec()), Err(EscrowError::Unauthorized));
    escrow.submit_milestone(WORKER, 1_000, id, 1, b"p".to_vec()).unwrap();
    assert_eq!(escrow.submit_milestone(WORKER, 1_001, id, 1, b"p".to_vec()), Err(EscrowError::MilestoneState));
    assert_eq!(escrow.approve_milestone(WORKER, 1_001, id, 1), Err(EscrowError::Unauthorized));
}

#[test]
fn offer_reject_withdraw_and_repropose() {
    let (registry, oracle) = oracles();
    let mut board = new_board();
    let job_id = board
        .create_job(&registry, &oracle, EMPLOYER, 100, b"j".to_vec(), JobVisibility::Public, 10_000, 0, 1, vec![])
        .unwrap();
    let app_id = board.apply(&registry, &oracle, WORKER, 110, job_id, b"cv".to_vec()).unwrap();
    let offer_a = board
        .propose_offer(EMPLOYER, 120, job_id, app_id, terms(0, 0, 0, 0, 1, 1, vec![]))
        .unwrap();
    // the worker (counterparty) rejects; the chain is resolved again
    board.reject_offer(WORKER, job_id, offer_a).unwrap();
    let offer_b = board
        .propose_offer(WORKER, 130, job_id, app_id, terms(0, 0, 0, 0, 2, 2, vec![]))
        .unwrap();
    // the worker proposed this one, so the worker may withdraw it
    board.withdraw_offer(WORKER, job_id, offer_b).unwrap();
    // terminal offers cannot be acted on again
    assert_eq!(board.accept_offer(EMPLOYER, 140, job_id, offer_b), Err(BoardError::InvalidState));
    // and a fresh root proposal is allowed once more
    let offer_c = board
        .propose_offer(EMPLOYER, 150, job_id, app_id, terms(0, 0, 0, 0, 3, 3, vec![]))
        .unwrap();
    let offers = board.get_offers(job_id, app_id, 0, 10);
    assert_eq!(offers.len(), 3);
    assert_eq!(offers[2].id, offer_c);
    assert_eq!(board.get_board_stats().total_offers, 3);
}

#[test]
fn escrow_top_up_and_admin_surface() {
    let (registry, oracle) = oracles();
    let (board, job_id, offer_id) =
        matched_job(&registry, &oracle, terms(100, 10, 5, 0, 1_000, 1_000, vec![]));
    let (mut escrow, id) =
        active_agreement(&registry, &oracle, &board, job_id, offer_id, None, 0);
    escrow.top_up_runway(EMPLOYER, id, 300).unwrap();
    assert_eq!(escrow.get_agreement_financials(id).unwrap().funding.runway_balance, 500);
    assert_eq!(escrow.top_up_runway(WORKER, id, 1), Err(EscrowError::Unauthorized));
    // both parties started one agreement
    assert_eq!(escrow.get_agent_reputation(EMPLOYER).agreements_started, 1);
    assert_eq!(escrow.get_agent_reputation(WORKER).agreements_started, 1);
    // risk parameters validate and apply
    assert_eq!(
        escrow.set_risk_params(OWNER, 0, 1, 1, 1, 1, 1, 1, 500),
        Err(EscrowError::InvalidAmount)
    );
    assert_eq!(
        escrow.set_risk_params(OWNER, 1, 1, 1, 1, 10_001, 1, 1, 500),
        Err(EscrowError::InvalidBps)
    );
    escrow.set_risk_params(OWNER, 5, 6, 7, 8, 9, 10, 11, 12).unwrap();
    let config = escrow.get_config();
    assert_eq!(config.min_employer_bond, 5);
    assert_eq!(config.min_worker_bond, 6);
    assert_eq!(config.min_runway_periods, 7);
    assert_eq!(config.default_notice_seconds, 8);
    assert_eq!(config.termination_penalty_bps, 9);
    assert_eq!(config.milestone_review_timeout_seconds, 10);
    assert_eq!(config.max_milestones_per_agreement, 11);
    assert_eq!(config.score_start, 12);
    // ownership hand-over gates the admin surface
    escrow.set_owner(OWNER, 99).unwrap();
    assert_eq!(escrow.set_paused(OWNER, true), Err(EscrowError::Unauthorized));
    escrow.set_paused(99, true).unwrap();
    assert!(escrow.get_config().paused);
}

#[test]
fn board_admin_surface() {
    let (registry, oracle) = oracles();
    let mut board = new_board();
    assert_eq!(board.set_max_invites_per_job(OWNER, 0), Err(BoardError::InvalidAmount));
    board.set_max_invites_per_job(OWNER, 2).unwrap();
    let job = board
        .create_job(&registry, &oracle, EMPLOYER, 100, b"j".to_vec(), JobVisibility::InviteOnly, 10_000, 0, 1,
            vec![WORKER, WORKER_B, WORKER_X]);
    assert_eq!(job, Err(BoardError::InvalidAmount));
    board.set_max_counteroffers_per_application(OWNER, 3).unwrap();
    board.set_min_uptime_score(OWNER, 300).unwrap();
    // the raised global threshold now rejects a score of 200
    assert_eq!(
        board.create_job(&registry, &oracle, EMPLOYER, 100, b"j".to_vec(), JobVisibility::Public, 10_000, 0, 1, vec![]),
        Err(BoardError::LowUptime)
    );
    board.set_owner(OWNER, 99).unwrap();
    assert_eq!(board.set_min_uptime_score(OWNER, 0), Err(BoardError::Unauthorized));
    let config = board.get_config();
    assert_eq!(config.owner, 99);
    assert_eq!(config.max_counteroffers_per_application, 3);
    assert_eq!(config.max_invites_per_job, 2);
    assert_eq!(config.min_uptime_score, 300);
}

#[test]
fn withdraw_blocked_while_paused() {
    let (registry, oracle) = oracles();
    let (board, job_id, offer_id) =
        matched_job(&registry, &oracle, terms(100, 10, 5, 2_000, 1_000, 1_000, vec![]));
    let (mut escrow, id) =
        active_agreement(&registry, &oracle, &board, job_id, offer_id, None, 0);
    escrow.deposit_revenue(id, 500_000).unwrap();
    // the pause toggle blocks every state-changing entry point, withdrawal included
    escrow.set_paused(OWNER, true).unwrap();
    assert_eq!(escrow.withdraw_claimable(WORKER), Err(EscrowError::Paused));
    assert_eq!(escrow.get_claimable(WORKER), 98_500);
    escrow.set_paused(OWNER, false).unwrap();
    assert_eq!(escrow.withdraw_claimable(WORKER).unwrap(), 98_500);
}

#[test]
fn reputation_baseline_clamped_to_bound() {
    let mut escrow = new_escrow();
    // a baseline above the bound reads back clamped, before any delta
    escrow.set_risk_params(OWNER, 1_000, 1_000, 2, 3_600, 500, 1_800, 32, 5_000).unwrap();
    assert_eq!(escrow.get_agent_reputation(WORKER).score, 1_000);
    escrow.set_risk_params(OWNER, 1_000, 1_000, 2, 3_600, 500, 1_800, 32, 400).unwrap();
    assert_eq!(escrow.get_agent_reputation(WORKER).score, 400);
}

#[test]
fn completion_waits_for_every_milestone_record() {
    let (registry, oracle) = oracles();
    // a milestone whose id lies outside 1..=milestone_count still counts
    let milestone = MilestoneSpec {
        id: 7,
        amount: 500,
        due_ts: 5_000,
        review_timeout_seconds: 1_800,
        metadata_uri: b"m7".to_vec(),
    };
    let (board, job_id, offer_id) =
        matched_job(&registry, &oracle, terms(100, 10, 1, 0, 1_000, 1_000, vec![milestone]));
    let (mut escrow, id) =
        active_agreement(&registry, &oracle, &board, job_id, offer_id, None, 700);
    escrow.claim_recurring_pay(WORKER, 230, id).unwrap();
    // recurring pay is done, but the milestone record is still unpaid
    assert_eq!(escrow.get_agreement(id).unwrap().status, AgreementStatus::Active);
    escrow.submit_milestone(WORKER, 300, id, 7, b"proof".to_vec()).unwrap();
    escrow.approve_milestone(EMPLOYER, 400, id, 7).unwrap();
    assert_eq!(escrow.get_agreement(id).unwrap().status, AgreementStatus::Completed);
}
