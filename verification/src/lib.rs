//! A two-stage marketplace core: a job-posting and offer-negotiation ledger
//! that produces an accepted-offer artifact, and a funded-escrow engine that
//! consumes it exactly once and manages funding gates, recurring and
//! milestone payouts, revenue sharing, termination with bond penalties, and a
//! bounded reputation ledger.
//!
//! Every entry point is a total function over plain values: the caller's
//! account, the current time and any transferred value are explicit
//! parameters, and every state change is described exactly by the function's
//! contract.
//!
//! The stated guarantees live beside the code they govern:
//! - value conservation of every split: [`math::lemma_payout_split_conserves`],
//!   [`math::lemma_revenue_split_conserves`] and
//!   [`math::lemma_penalty_split_conserves`], lifted onto claimable balances
//!   by [`escrow::lemma_credit_changes_one_balance`];
//! - the latest-offer pointer and staleness:
//!   [`board::JobBoardCore::lemma_latest_offer_is_newest`] and
//!   [`board::JobBoardCore::lemma_stale_offer_always_fails`];
//! - single acceptance:
//!   [`board::JobBoardCore::lemma_matched_job_accepts_no_offer`],
//!   [`escrow::WorkEscrow::lemma_consumed_offer_never_activates`] and
//!   [`escrow::lemma_activation_marks_consumed`];
//! - the funding gate: the exact activation condition in the contracts of
//!   [`escrow::WorkEscrow::fund_employer_runway`] and
//!   [`escrow::WorkEscrow::fund_worker_bond`];
//! - reputation bounds: [`escrow::lemma_reputation_score_bounded`] and
//!   [`escrow::lemma_reputation_score_bounded_by_sequence`], and as a state
//!   invariant, [`escrow::reputation_scores_bounded`] inside
//!   [`escrow::WorkEscrow::wf`];
//! - the review-deadline boundary:
//!   [`escrow::WorkEscrow::lemma_milestone_review_boundary`].

pub mod board;
pub mod escrow;
pub mod math;
pub mod mocks;
pub mod types;
