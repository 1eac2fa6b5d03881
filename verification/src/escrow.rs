//! The escrow engine: it consumes an accepted offer exactly once, gates
//! activation on bonds and runway, pays recurring and milestone payouts and
//! revenue shares under exact basis-point splits, drives termination with
//! bond penalties, and keeps a clamped reputation score per agent. Entry
//! points take the caller's account, the current time and any transferred
//! value as explicit parameters.

use std::collections::HashMap;

use vstd::prelude::*;

use crate::board::JobBoardCore;
use crate::math::{
    mul_bps, mul_bps_spec, payout_split, protocol_fee_spec, referral_fee_spec,
    revenue_employer_share_spec, revenue_split, revenue_worker_share_spec, treasury_fee_spec,
    worker_net_spec,
};
use crate::mocks::{BondRegistryMock, UptimeMock};
use crate::types::{
    Agreement, AgreementFinancials, AgreementStatus, AgreementTerms,
    EscrowConfig, EscrowError, FundingState, Milestone, MilestoneSettlementMode, MilestoneSpecView,
    MilestoneState, MilestoneView, ProtocolStats, RecurringTermsEscrow, ReputationReason,
    ReputationSnapshot, RevenueShareTermsEscrow, TerminationReason, TerminationSide,
    BPS_DENOMINATOR, BPS_SAFE_LIMIT, EMPLOYER_SIDE, MAX_PROOF_URI_LEN, MAX_REASON_URI_LEN,
    SCORE_MAX, SCORE_MIN, WORKER_SIDE,
};

verus! {

broadcast use vstd::std_specs::hash::group_hash_axioms;

/// Reputation score movements, one per economically significant event.
pub const SCORE_DELTA_RECURRING: i64 = 5;

pub const SCORE_DELTA_MILESTONE: i64 = 3;

pub const SCORE_DELTA_EMPLOYER_DEFAULT: i64 = -60;

pub const SCORE_DELTA_UNILATERAL: i64 = -20;

pub const SCORE_DELTA_COMPLETION: i64 = 25;

/// Everything the escrow keeps for one agreement: the agreement, its
/// balances, its materialized milestones, and its running payout totals.
pub struct AgreementRecord {
    pub agreement: Agreement,
    pub funding: FundingState,
    pub milestones: Vec<Milestone>,
    pub total_gross_paid: u128,
    pub total_fees_paid: u128,
    pub revenue_ledger: u64,
}

/// The escrow engine's whole state. Agreements are keyed by id: agreement
/// `i` lives at index `i - 1` and ids are never reused.
pub struct WorkEscrow {
    pub owner: u64,
    pub paused: bool,
    pub job_board: u64,
    pub bond_registry: u64,
    pub uptime: u64,
    pub treasury: u64,
    pub min_uptime_score: u64,
    pub protocol_fee_bps: u64,
    pub referral_share_bps: u64,
    pub min_employer_bond: u128,
    pub min_worker_bond: u128,
    pub min_runway_periods: u64,
    pub default_notice_seconds: u64,
    pub termination_penalty_bps: u64,
    pub milestone_review_timeout_seconds: u64,
    pub max_milestones_per_agreement: u64,
    pub score_start: u64,
    pub agreements: Vec<AgreementRecord>,
    pub active_agreement_count: u64,
    pub completed_agreement_count: u64,
    pub terminated_agreement_count: u64,
    pub total_gross_payouts: u128,
    pub total_protocol_fees: u128,
    pub total_revenue_deposited: u128,
    pub consumed: Vec<(u64, u64)>,
    pub claimable: HashMap<u64, u128>,
    pub reputation: HashMap<u64, ReputationSnapshot>,
}

/// The balance an account may withdraw; zero when it was never credited.
pub open spec fn bal(m: Map<u64, u128>, account: u64) -> u128 {
    if m.contains_key(account) {
        m[account]
    } else {
        0
    }
}

/// Crediting a claimable balance: a zero credit leaves the map untouched, as
/// the ledger never materializes zero entries on a credit.
pub open spec fn credit_spec(m: Map<u64, u128>, account: u64, amount: u128) -> Map<u64, u128> {
    if amount == 0 {
        m
    } else {
        m.insert(account, (bal(m, account) + amount) as u128)
    }
}

/// A fresh reputation snapshot at the configured starting score, clamped to
/// the score bound: a score never leaves `[SCORE_MIN, SCORE_MAX]`, however
/// the baseline is configured.
pub open spec fn fresh_reputation(score_start: u64) -> ReputationSnapshot {
    ReputationSnapshot {
        score: if score_start > SCORE_MAX {
            SCORE_MAX
        } else {
            score_start
        },
        agreements_started: 0,
        agreements_completed: 0,
        defaults_as_employer: 0,
        defaults_as_worker: 0,
        on_time_recurring_payments: 0,
        milestones_settled: 0,
        terminations_initiated: 0,
        last_updated_ts: 0,
    }
}

/// The reputation an agent reads as: the stored snapshot, or a fresh one at
/// the starting score when none was ever stored.
pub open spec fn rep_of(m: Map<u64, ReputationSnapshot>, score_start: u64, agent: u64) -> ReputationSnapshot {
    if m.contains_key(agent) {
        m[agent]
    } else {
        fresh_reputation(score_start)
    }
}

/// One reputation delta: the score moves by `delta`, saturating at 0 and
/// clamped to `SCORE_MAX` on the way up, the counter named by the reason
/// grows by one, and the update time is recorded.
pub open spec fn apply_delta_spec(
    rep: ReputationSnapshot,
    delta: int,
    reason: ReputationReason,
    now: u64,
) -> ReputationSnapshot {
    let score: u64 = if delta >= 0 {
        if rep.score + delta > SCORE_MAX {
            SCORE_MAX
        } else {
            (rep.score + delta) as u64
        }
    } else {
        if rep.score < -delta {
            0
        } else {
            (rep.score + delta) as u64
        }
    };
    ReputationSnapshot {
        score,
        on_time_recurring_payments: if reason == ReputationReason::OnTimeRecurringPayment {
            (rep.on_time_recurring_payments + 1) as u64
        } else {
            rep.on_time_recurring_payments
        },
        milestones_settled: if reason == ReputationReason::WorkerMilestoneSettled {
            (rep.milestones_settled + 1) as u64
        } else {
            rep.milestones_settled
        },
        defaults_as_employer: if reason == ReputationReason::EmployerDefault {
            (rep.defaults_as_employer + 1) as u64
        } else {
            rep.defaults_as_employer
        },
        defaults_as_worker: if reason == ReputationReason::WorkerDefault {
            (rep.defaults_as_worker + 1) as u64
        } else {
            rep.defaults_as_worker
        },
        terminations_initiated: if reason == ReputationReason::UnilateralTerminate {
            (rep.terminations_initiated + 1) as u64
        } else {
            rep.terminations_initiated
        },
        agreements_completed: if reason == ReputationReason::Completion {
            (rep.agreements_completed + 1) as u64
        } else {
            rep.agreements_completed
        },
        last_updated_ts: now,
        ..rep
    }
}

/// Applying one delta to the reputation map, lazily initializing the agent.
pub open spec fn delta_map_spec(
    m: Map<u64, ReputationSnapshot>,
    score_start: u64,
    agent: u64,
    delta: int,
    reason: ReputationReason,
    now: u64,
) -> Map<u64, ReputationSnapshot> {
    m.insert(agent, apply_delta_spec(rep_of(m, score_start, agent), delta, reason, now))
}

/// Lazily initializing an agent's reputation and counting one started
/// agreement.
pub open spec fn init_started_spec(
    m: Map<u64, ReputationSnapshot>,
    score_start: u64,
    agent: u64,
    now: u64,
) -> Map<u64, ReputationSnapshot> {
    let rep = rep_of(m, score_start, agent);
    m.insert(
        agent,
        ReputationSnapshot {
            agreements_started: (rep.agreements_started + 1) as u64,
            last_updated_ts: now,
            ..rep
        },
    )
}

/// The funding gate: an agreement may go Active only when both bonds and the
/// runway floor are satisfied at once.
pub open spec fn activation_ready(rec: AgreementRecord) -> bool {
    &&& rec.funding.employer_bond_locked >= rec.agreement.terms.employer_bond_required
    &&& rec.funding.worker_bond_locked >= rec.agreement.terms.worker_bond_required
    &&& rec.funding.runway_balance >= rec.funding.reserved_recurring_minimum
}

/// Whether recurring pay is finished: unconfigured, or fully paid out.
pub open spec fn recurring_done(t: RecurringTermsEscrow) -> bool {
    t.total_periods == 0 || t.paid_periods >= t.total_periods
}

/// Whether every materialized milestone record is Paid.
pub open spec fn milestones_all_paid(ms: Seq<Milestone>) -> bool {
    forall|k: int| 0 <= k < ms.len() ==> (#[trigger] ms[k]).state == MilestoneState::Paid
}

/// Whether an agreement auto-completes: Active, recurring pay done, and
/// every milestone record Paid.
pub open spec fn completion_ready(rec: AgreementRecord) -> bool {
    &&& rec.agreement.status == AgreementStatus::Active
    &&& recurring_done(rec.agreement.terms.recurring)
    &&& milestones_all_paid(rec.milestones@)
}

/// Well-formedness of one agreement record at its 1-based id: coordinates
/// are right, every basis-point parameter is in range, every amount is small
/// enough for basis-point arithmetic, and milestone ids are unique.
pub open spec fn arec_wf(rec: AgreementRecord, id: u64) -> bool {
    &&& rec.agreement.id == id
    &&& rec.agreement.terms.revenue_share.profit_share_bps <= BPS_DENOMINATOR
    &&& rec.agreement.terms.revenue_share.protocol_fee_bps_snapshot <= BPS_DENOMINATOR
    &&& rec.agreement.terms.revenue_share.referral_share_bps_snapshot <= BPS_DENOMINATOR
    &&& rec.agreement.terms.recurring.amount_per_period <= BPS_SAFE_LIMIT
    &&& forall|k: int|
        0 <= k < rec.milestones@.len() ==> (#[trigger] rec.milestones@[k]).agreement_id == id
            && rec.milestones@[k].amount <= BPS_SAFE_LIMIT
    &&& forall|k1: int, k2: int|
        0 <= k1 < k2 < rec.milestones@.len() ==> (#[trigger] rec.milestones@[k1]).id
            != (#[trigger] rec.milestones@[k2]).id
}

impl WorkEscrow {
    /// The escrow's internal invariant. Its last clause is the reputation
    /// bound as a property of every reachable state: no stored score ever
    /// leaves `[SCORE_MIN, SCORE_MAX]`.
    pub open spec fn wf(self) -> bool {
        &&& self.agreements@.len() < u64::MAX
        &&& self.protocol_fee_bps <= BPS_DENOMINATOR
        &&& self.referral_share_bps <= BPS_DENOMINATOR
        &&& self.termination_penalty_bps <= BPS_DENOMINATOR
        &&& forall|i: int|
            0 <= i < self.agreements@.len() ==> arec_wf(#[trigger] self.agreements@[i], (i
                + 1) as u64)
        &&& reputation_scores_bounded(self.reputation@)
    }

    /// Whether an agreement with this id exists.
    pub open spec fn has_agreement(self, agreement_id: u64) -> bool {
        1 <= agreement_id <= self.agreements@.len()
    }

    /// The record of an existing agreement.
    pub open spec fn rec(self, agreement_id: u64) -> AgreementRecord
        recommends
            self.has_agreement(agreement_id),
    {
        self.agreements@[agreement_id - 1]
    }

    /// The claimable balance of an account.
    pub open spec fn claimable_of(self, account: u64) -> u128 {
        bal(self.claimable@, account)
    }

    /// The reputation snapshot an agent reads as.
    pub open spec fn reputation_of(self, agent: u64) -> ReputationSnapshot {
        rep_of(self.reputation@, self.score_start, agent)
    }

    /// Whether an accepted offer was already consumed by an activation.
    pub open spec fn is_consumed(self, job_id: u64, offer_id: u64) -> bool {
        self.consumed@.contains((job_id, offer_id))
    }

    /// Whether a milestone with this id exists under the agreement.
    pub open spec fn has_milestone(self, agreement_id: u64, milestone_id: u64) -> bool {
        &&& self.has_agreement(agreement_id)
        &&& exists|k: int|
            0 <= k < self.rec(agreement_id).milestones@.len() && (#[trigger] self.rec(
                agreement_id,
            ).milestones@[k]).id == milestone_id
    }

    /// The index of an existing milestone in its agreement's list.
    pub open spec fn milestone_index(self, agreement_id: u64, milestone_id: u64) -> int
        recommends
            self.has_milestone(agreement_id, milestone_id),
    {
        choose|k: int|
            0 <= k < self.rec(agreement_id).milestones@.len() && (#[trigger] self.rec(
                agreement_id,
            ).milestones@[k]).id == milestone_id
    }

    /// The milestone with this id under the agreement.
    pub open spec fn milestone_of(self, agreement_id: u64, milestone_id: u64) -> Milestone
        recommends
            self.has_milestone(agreement_id, milestone_id),
    {
        self.rec(agreement_id).milestones@[self.milestone_index(agreement_id, milestone_id)]
    }

    /// The fixed configuration fields, unchanged by non-administrative calls.
    pub open spec fn same_config(self, other: WorkEscrow) -> bool {
        &&& other.owner == self.owner
        &&& other.paused == self.paused
        &&& other.job_board == self.job_board
        &&& other.bond_registry == self.bond_registry
        &&& other.uptime == self.uptime
        &&& other.treasury == self.treasury
        &&& other.min_uptime_score == self.min_uptime_score
        &&& other.protocol_fee_bps == self.protocol_fee_bps
        &&& other.referral_share_bps == self.referral_share_bps
        &&& other.min_employer_bond == self.min_employer_bond
        &&& other.min_worker_bond == self.min_worker_bond
        &&& other.min_runway_periods == self.min_runway_periods
        &&& other.default_notice_seconds == self.default_notice_seconds
        &&& other.termination_penalty_bps == self.termination_penalty_bps
        &&& other.milestone_review_timeout_seconds == self.milestone_review_timeout_seconds
        &&& other.max_milestones_per_agreement == self.max_milestones_per_agreement
        &&& other.score_start == self.score_start
    }

    /// The first failing check of `init`, in the order the checks run.
    pub open spec fn init_error(
        job_board: u64,
        bond_registry: u64,
        uptime: u64,
        treasury: u64,
        protocol_fee_bps: u64,
        referral_share_bps: u64,
        min_employer_bond: u128,
        min_worker_bond: u128,
        min_runway_periods: u64,
        default_notice_seconds: u64,
        termination_penalty_bps: u64,
        milestone_review_timeout_seconds: u64,
        max_milestones_per_agreement: u64,
    ) -> Option<EscrowError> {
        if job_board == 0 || bond_registry == 0 || uptime == 0 || treasury == 0 {
            Some(EscrowError::InvalidAmount)
        } else if protocol_fee_bps > BPS_DENOMINATOR || referral_share_bps > BPS_DENOMINATOR
            || termination_penalty_bps > BPS_DENOMINATOR {
            Some(EscrowError::InvalidBps)
        } else if min_employer_bond == 0 || min_worker_bond == 0 || min_runway_periods == 0
            || default_notice_seconds == 0 || milestone_review_timeout_seconds == 0
            || max_milestones_per_agreement == 0 {
            Some(EscrowError::InvalidAmount)
        } else {
            None
        }
    }

    /// Creates the escrow. Collaborator addresses must be nonzero, all
    /// basis-point parameters in range, and all minimums positive; the
    /// caller becomes the owner.
    pub fn init(
        caller: u64,
        job_board: u64,
        bond_registry: u64,
        uptime: u64,
        min_uptime_score: u64,
        treasury: u64,
        protocol_fee_bps: u64,
        referral_share_bps: u64,
        min_employer_bond: u128,
        min_worker_bond: u128,
        min_runway_periods: u64,
        default_notice_seconds: u64,
        termination_penalty_bps: u64,
        milestone_review_timeout_seconds: u64,
        max_milestones_per_agreement: u64,
        score_start: u64,
    ) -> (r: Result<WorkEscrow, EscrowError>)
        ensures
            match r {
                Ok(escrow) => {
                    &&& Self::init_error(job_board, bond_registry, uptime, treasury,
                        protocol_fee_bps, referral_share_bps, min_employer_bond, min_worker_bond,
                        min_runway_periods, default_notice_seconds, termination_penalty_bps,
                        milestone_review_timeout_seconds, max_milestones_per_agreement) is None
                    &&& escrow.wf()
                    &&& escrow.owner == caller
                    &&& !escrow.paused
                    &&& escrow.job_board == job_board
                    &&& escrow.bond_registry == bond_registry
                    &&& escrow.uptime == uptime
                    &&& escrow.treasury == treasury
                    &&& escrow.min_uptime_score == min_uptime_score
                    &&& escrow.protocol_fee_bps == protocol_fee_bps
                    &&& escrow.referral_share_bps == referral_share_bps
                    &&& escrow.min_employer_bond == min_employer_bond
                    &&& escrow.min_worker_bond == min_worker_bond
                    &&& escrow.min_runway_periods == min_runway_periods
                    &&& escrow.default_notice_seconds == default_notice_seconds
                    &&& escrow.termination_penalty_bps == termination_penalty_bps
                    &&& escrow.milestone_review_timeout_seconds == milestone_review_timeout_seconds
                    &&& escrow.max_milestones_per_agreement == max_milestones_per_agreement
                    &&& escrow.score_start == score_start
                    &&& escrow.agreements@.len() == 0
                    &&& escrow.active_agreement_count == 0
                    &&& escrow.completed_agreement_count == 0
                    &&& escrow.terminated_agreement_count == 0
                    &&& escrow.total_gross_payouts == 0
                    &&& escrow.total_protocol_fees == 0
                    &&& escrow.total_revenue_deposited == 0
                    &&& escrow.consumed@.len() == 0
                    &&& escrow.claimable@ == Map::<u64, u128>::empty()
                    &&& escrow.reputation@ == Map::<u64, ReputationSnapshot>::empty()
                },
                Err(e) => Some(e) == Self::init_error(job_board, bond_registry, uptime, treasury,
                    protocol_fee_bps, referral_share_bps, min_employer_bond, min_worker_bond,
                    min_runway_periods, default_notice_seconds, termination_penalty_bps,
                    milestone_review_timeout_seconds, max_milestones_per_agreement),
            },
    {
        if job_board == 0 || bond_registry == 0 || uptime == 0 || treasury == 0 {
            return Err(EscrowError::InvalidAmount);
        }
        if protocol_fee_bps > BPS_DENOMINATOR || referral_share_bps > BPS_DENOMINATOR
            || termination_penalty_bps > BPS_DENOMINATOR {
            return Err(EscrowError::InvalidBps);
        }
        if min_employer_bond == 0 || min_worker_bond == 0 || min_runway_periods == 0
            || default_notice_seconds == 0 || milestone_review_timeout_seconds == 0
            || max_milestones_per_agreement == 0 {
            return Err(EscrowError::InvalidAmount);
        }
        Ok(
            WorkEscrow {
                owner: caller,
                paused: false,
                job_board,
                bond_registry,
                uptime,
                treasury,
                min_uptime_score,
                protocol_fee_bps,
                referral_share_bps,
                min_employer_bond,
                min_worker_bond,
                min_runway_periods,
                default_notice_seconds,
                termination_penalty_bps,
                milestone_review_timeout_seconds,
                max_milestones_per_agreement,
                score_start,
                agreements: Vec::new(),
                active_agreement_count: 0,
                completed_agreement_count: 0,
                terminated_agreement_count: 0,
                total_gross_payouts: 0,
                total_protocol_fees: 0,
                total_revenue_deposited: 0,
                consumed: Vec::new(),
                claimable: HashMap::new(),
                reputation: HashMap::new(),
            },
        )
    }

    /// The claimable balance of an account, read for callers and internals.
    pub fn get_claimable(&self, account: u64) -> (r: u128)
        ensures
            r == self.claimable_of(account),
    {
        match self.claimable.get(&account) {
            Some(v) => *v,
            None => 0,
        }
    }

    /// Credits an account's claimable balance; a zero credit is a no-op.
    fn add_claimable(&mut self, account: u64, amount: u128)
        requires
            bal(old(self).claimable@, account) + amount <= u128::MAX,
        ensures
            final(self).claimable@ == credit_spec(old(self).claimable@, account, amount),
            *final(self) == (WorkEscrow { claimable: final(self).claimable, ..*old(self) }),
    {
        if amount == 0 {
            return ;
        }
        let current = self.get_claimable(account);
        self.claimable.insert(account, current + amount);
    }

    /// The reputation snapshot an agent reads as.
    pub fn load_reputation(&self, agent: u64) -> (r: ReputationSnapshot)
        ensures
            r == self.reputation_of(agent),
    {
        match self.reputation.get(&agent) {
            Some(rep) => *rep,
            None => ReputationSnapshot {
                score: if self.score_start > SCORE_MAX {
                    SCORE_MAX
                } else {
                    self.score_start
                },
                agreements_started: 0,
                agreements_completed: 0,
                defaults_as_employer: 0,
                defaults_as_worker: 0,
                on_time_recurring_payments: 0,
                milestones_settled: 0,
                terminations_initiated: 0,
                last_updated_ts: 0,
            },
        }
    }

    /// Applies one reputation delta to an agent, lazily initializing it.
    fn apply_reputation_delta(
        &mut self,
        agent: u64,
        delta: i64,
        reason: ReputationReason,
        now: u64,
    )
        requires
            counters_ok(old(self).reputation_of(agent)),
            delta != i64::MIN,
        ensures
            final(self).reputation@ == delta_map_spec(old(self).reputation@, old(self).score_start,
                agent, delta as int, reason, now),
            *final(self) == (WorkEscrow { reputation: final(self).reputation, ..*old(self) }),
    {
        let mut rep = self.load_reputation(agent);
        if delta >= 0 {
            let up = delta as u64;
            let raised = if rep.score > SCORE_MAX {
                SCORE_MAX
            } else if up > SCORE_MAX - rep.score {
                SCORE_MAX
            } else {
                rep.score + up
            };
            rep.score = raised;
        } else {
            let down = (-delta) as u64;
            rep.score = if rep.score < down {
                0
            } else {
                rep.score - down
            };
        }
        match reason {
            ReputationReason::OnTimeRecurringPayment => {
                rep.on_time_recurring_payments = rep.on_time_recurring_payments + 1;
            },
            ReputationReason::WorkerMilestoneSettled => {
                rep.milestones_settled = rep.milestones_settled + 1;
            },
            ReputationReason::EmployerDefault => {
                rep.defaults_as_employer = rep.defaults_as_employer + 1;
            },
            ReputationReason::WorkerDefault => {
                rep.defaults_as_worker = rep.defaults_as_worker + 1;
            },
            ReputationReason::UnilateralTerminate => {
                rep.terminations_initiated = rep.terminations_initiated + 1;
            },
            ReputationReason::Completion => {
                rep.agreements_completed = rep.agreements_completed + 1;
            },
            _ => {},
        }
        rep.last_updated_ts = now;
        self.reputation.insert(agent, rep);
    }

    /// Lazily initializes an agent's reputation and counts one started
    /// agreement.
    fn ensure_reputation_initialized(&mut self, agent: u64, now: u64)
        requires
            old(self).reputation_of(agent).agreements_started < u64::MAX,
        ensures
            final(self).reputation@ == init_started_spec(old(self).reputation@, old(
                self,
            ).score_start, agent, now),
            *final(self) == (WorkEscrow { reputation: final(self).reputation, ..*old(self) }),
    {
        let mut rep = self.load_reputation(agent);
        rep.agreements_started = rep.agreements_started + 1;
        rep.last_updated_ts = now;
        self.reputation.insert(agent, rep);
    }
}

/// The eligibility gate's verdict for one agent at one threshold, as the
/// escrow reports it: unregistered agents are rejected before low scores.
pub open spec fn eligibility_error(
    registry: BondRegistryMock,
    oracle: UptimeMock,
    agent: u64,
    min_uptime: u64,
) -> Option<EscrowError> {
    if !registry.registered(agent) {
        Some(EscrowError::NotRegistered)
    } else if oracle.score_of(agent) < min_uptime {
        Some(EscrowError::LowUptime)
    } else {
        None
    }
}

/// Queries the registry and the oracle and fails closed: an empty name or a
/// score under the threshold rejects the agent.
pub fn require_eligible_agent(
    registry: &BondRegistryMock,
    oracle: &UptimeMock,
    agent: u64,
    min_uptime: u64,
) -> (r: Result<(), EscrowError>)
    ensures
        match r {
            Ok(_) => eligibility_error(*registry, *oracle, agent, min_uptime) is None,
            Err(e) => Some(e) == eligibility_error(*registry, *oracle, agent, min_uptime),
        },
{
    let name = registry.get_agent_name(agent);
    if name.len() == 0 {
        return Err(EscrowError::NotRegistered);
    }
    let (_heartbeats, score, _since, _remaining) = oracle.get_lifetime_info(agent);
    if score < min_uptime {
        return Err(EscrowError::LowUptime);
    }
    Ok(())
}

/// Whether every milestone of an accepted offer is acceptable to the escrow:
/// a positive amount and a positive review timeout.
pub open spec fn escrow_milestones_ok(ms: Seq<MilestoneSpecView>) -> bool {
    forall|k: int|
        0 <= k < ms.len() ==> (#[trigger] ms[k]).amount > 0 && ms[k].review_timeout_seconds > 0
}

impl WorkEscrow {
    /// The first failure of the escrow's re-validation of accepted terms.
    pub open spec fn accepted_terms_error(self, t: crate::types::OfferTermsView) -> Option<
        EscrowError,
    > {
        if t.revenue_share.profit_share_bps > BPS_DENOMINATOR {
            Some(EscrowError::InvalidBps)
        } else if t.milestones.len() > self.max_milestones_per_agreement {
            Some(EscrowError::InvalidAmount)
        } else if t.recurring.amount_per_period > 0 && (t.recurring.period_seconds == 0
            || t.recurring.total_periods == 0) {
            Some(EscrowError::InvalidAmount)
        } else if t.recurring.amount_per_period == 0 && t.recurring.total_periods != 0 {
            Some(EscrowError::InvalidAmount)
        } else if !escrow_milestones_ok(t.milestones) {
            Some(EscrowError::InvalidAmount)
        } else {
            None
        }
    }

    /// Re-validates an accepted offer's terms as `accepted_terms_error`
    /// states.
    #[verifier::loop_isolation(false)]
    fn validate_terms(&self, accepted: &crate::types::AcceptedOfferSummary) -> (r: Result<
        (),
        EscrowError,
    >)
        ensures
            match r {
                Ok(_) => self.accepted_terms_error(accepted@.terms) is None,
                Err(e) => Some(e) == self.accepted_terms_error(accepted@.terms),
            },
    {
        if accepted.terms.revenue_share.profit_share_bps > BPS_DENOMINATOR {
            return Err(EscrowError::InvalidBps);
        }
        if accepted.terms.milestones.len() as u64 > self.max_milestones_per_agreement {
            return Err(EscrowError::InvalidAmount);
        }
        if accepted.terms.recurring.amount_per_period > 0 {
            if accepted.terms.recurring.period_seconds == 0 {
                return Err(EscrowError::InvalidAmount);
            }
            if accepted.terms.recurring.total_periods == 0 {
                return Err(EscrowError::InvalidAmount);
            }
        } else {
            if accepted.terms.recurring.total_periods != 0 {
                return Err(EscrowError::InvalidAmount);
            }
        }
        let mut i: usize = 0;
        while i < accepted.terms.milestones.len()
            invariant
                i <= accepted.terms.milestones@.len(),
                forall|k: int|
                    0 <= k < i ==> (#[trigger] accepted@.terms.milestones[k]).amount > 0
                        && accepted@.terms.milestones[k].review_timeout_seconds > 0,
            decreases accepted.terms.milestones@.len() - i,
        {
            let m = &accepted.terms.milestones[i];
            proof {
                assert(accepted@.terms.milestones[i as int] == accepted.terms.milestones@[i as int]@);
            }
            if m.amount == 0 {
                return Err(EscrowError::InvalidAmount);
            }
            if m.review_timeout_seconds == 0 {
                return Err(EscrowError::InvalidAmount);
            }
            i = i + 1;
        }
        Ok(())
    }

    /// Whether the accepted pair was already consumed.
    pub fn is_offer_consumed(&self, job_id: u64, offer_id: u64) -> (r: bool)
        ensures
            r == self.is_consumed(job_id, offer_id),
    {
        let mut i: usize = 0;
        while i < self.consumed.len()
            invariant
                i <= self.consumed@.len(),
                forall|k: int| 0 <= k < i ==> self.consumed@[k] != (job_id, offer_id),
            decreases self.consumed@.len() - i,
        {
            let (j, o) = self.consumed[i];
            if j == job_id && o == offer_id {
                return true;
            }
            i = i + 1;
        }
        false
    }

    /// The first failing check of `activate_agreement`, in the order the
    /// checks run.
    pub open spec fn activate_error(
        self,
        board: JobBoardCore,
        registry: BondRegistryMock,
        oracle: UptimeMock,
        caller: u64,
        job_id: u64,
        offer_id: u64,
    ) -> Option<EscrowError> {
        if self.paused {
            Some(EscrowError::Paused)
        } else if self.is_consumed(job_id, offer_id) {
            Some(EscrowError::OfferConsumed)
        } else if board.accepted_offer_spec(job_id) is None {
            Some(EscrowError::OfferNotAccepted)
        } else {
            let accepted = board.accepted_offer_spec(job_id).unwrap();
            if accepted.offer_id != offer_id {
                Some(EscrowError::OfferNotAccepted)
            } else if caller != accepted.employer && caller != accepted.worker {
                Some(EscrowError::Unauthorized)
            } else if eligibility_error(registry, oracle, accepted.employer, self.min_uptime_score)
                is Some {
                eligibility_error(registry, oracle, accepted.employer, self.min_uptime_score)
            } else if eligibility_error(registry, oracle, accepted.worker, self.min_uptime_score)
                is Some {
                eligibility_error(registry, oracle, accepted.worker, self.min_uptime_score)
            } else if self.accepted_terms_error(accepted.terms) is Some {
                self.accepted_terms_error(accepted.terms)
            } else {
                None
            }
        }
    }

    /// Turns an accepted offer into an agreement in PendingFunding: the
    /// one-time consumption of a match. The pair must not have been consumed
    /// before, the board must report exactly this offer as the job's
    /// accepted one, the caller must be its employer or worker, both parties
    /// must pass the eligibility gate, and the terms must re-validate. On
    /// success the agreement is appended with the current fee parameters
    /// frozen in, bond requirements raised to the configured minimums, the
    /// reserved runway floor computed once, one milestone record per offer
    /// milestone, both parties' reputations initialized with one started
    /// agreement, and the pair marked consumed — so a second activation for
    /// the same pair fails forever. On failure nothing changes.
    pub fn activate_agreement(
        &mut self,
        board: &JobBoardCore,
        registry: &BondRegistryMock,
        oracle: &UptimeMock,
        caller: u64,
        now: u64,
        job_id: u64,
        offer_id: u64,
        referrer: Option<u64>,
    ) -> (r: Result<u64, EscrowError>)
        requires
            old(self).wf(),
            board.wf(),
            old(self).agreements@.len() + 1 < u64::MAX,
            board.accepted_offer_spec(job_id) is Some ==> {
                let t = board.accepted_offer_spec(job_id).unwrap().terms;
                &&& t.recurring.amount_per_period <= BPS_SAFE_LIMIT
                &&& t.recurring.amount_per_period * old(self).min_runway_periods <= u128::MAX
                &&& forall|k: int|
                    0 <= k < t.milestones.len() ==> (#[trigger] t.milestones[k]).amount
                        <= BPS_SAFE_LIMIT
                &&& old(self).reputation_of(
                    board.accepted_offer_spec(job_id).unwrap().employer,
                ).agreements_started + 2 < u64::MAX
                &&& old(self).reputation_of(
                    board.accepted_offer_spec(job_id).unwrap().worker,
                ).agreements_started + 2 < u64::MAX
            },
        ensures
            final(self).wf(),
            match r {
                Ok(agreement_id) => {
                    &&& old(self).activate_error(*board, *registry, *oracle, caller, job_id,
                        offer_id) is None
                    &&& agreement_id == old(self).agreements@.len() + 1
                    &&& final(self).agreements@.len() == old(self).agreements@.len() + 1
                    &&& forall|i: int|
                        0 <= i < old(self).agreements@.len() ==> final(self).agreements@[i] == old(
                            self,
                        ).agreements@[i]
                    &&& {
                        let accepted = board.accepted_offer_spec(job_id).unwrap();
                        let n = final(self).rec(agreement_id);
                        &&& n.agreement == (Agreement {
                            id: agreement_id,
                            job_id,
                            offer_id,
                            employer: accepted.employer,
                            worker: accepted.worker,
                            referrer: match referrer {
                                Some(a) => a,
                                None => 0,
                            },
                            status: AgreementStatus::PendingFunding,
                            created_at: now,
                            activated_at: 0,
                            notice_start_ts: 0,
                            notice_end_ts: 0,
                            requested_by_side: 0,
                            default_side: 0,
                            terms: AgreementTerms {
                                recurring: RecurringTermsEscrow {
                                    amount_per_period: accepted.terms.recurring.amount_per_period,
                                    period_seconds: accepted.terms.recurring.period_seconds,
                                    total_periods: accepted.terms.recurring.total_periods,
                                    paid_periods: 0,
                                    next_pay_ts: 0,
                                },
                                revenue_share: RevenueShareTermsEscrow {
                                    profit_share_bps: accepted.terms.revenue_share.profit_share_bps,
                                    protocol_fee_bps_snapshot: old(self).protocol_fee_bps,
                                    referral_share_bps_snapshot: old(self).referral_share_bps,
                                },
                                employer_bond_required: if old(self).min_employer_bond
                                    > accepted.terms.employer_bond_required {
                                    old(self).min_employer_bond
                                } else {
                                    accepted.terms.employer_bond_required
                                },
                                worker_bond_required: if old(self).min_worker_bond
                                    > accepted.terms.worker_bond_required {
                                    old(self).min_worker_bond
                                } else {
                                    accepted.terms.worker_bond_required
                                },
                                milestone_count: accepted.terms.milestones.len() as u64,
                            },
                        })
                        &&& n.funding == (FundingState {
                            runway_balance: 0,
                            employer_bond_locked: 0,
                            worker_bond_locked: 0,
                            reserved_recurring_minimum: (accepted.terms.recurring.amount_per_period
                                * old(self).min_runway_periods) as u128,
                        })
                        &&& milestones_view(n.milestones@) == materialized_milestones(
                            accepted.terms.milestones,
                            agreement_id,
                            old(self).milestone_review_timeout_seconds,
                        )
                        &&& n.total_gross_paid == 0
                        &&& n.total_fees_paid == 0
                        &&& n.revenue_ledger == 0
                        &&& final(self).reputation@ == init_started_spec(
                            init_started_spec(
                                old(self).reputation@,
                                old(self).score_start,
                                accepted.employer,
                                now,
                            ),
                            old(self).score_start,
                            accepted.worker,
                            now,
                        )
                    }
                    &&& final(self).consumed@ == old(self).consumed@.push((job_id, offer_id))
                    &&& final(self).claimable@ == old(self).claimable@
                    &&& final(self).active_agreement_count == old(self).active_agreement_count
                    &&& final(self).completed_agreement_count == old(
                        self,
                    ).completed_agreement_count
                    &&& final(self).terminated_agreement_count == old(
                        self,
                    ).terminated_agreement_count
                    &&& final(self).total_gross_payouts == old(self).total_gross_payouts
                    &&& final(self).total_protocol_fees == old(self).total_protocol_fees
                    &&& final(self).total_revenue_deposited == old(self).total_revenue_deposited
                    &&& old(self).same_config(*final(self))
                },
                Err(e) => {
                    &&& Some(e) == old(self).activate_error(*board, *registry, *oracle, caller,
                        job_id, offer_id)
                    &&& *final(self) == *old(self)
                },
            },
    {
        if self.paused {
            return Err(EscrowError::Paused);
        }
        if self.is_offer_consumed(job_id, offer_id) {
            return Err(EscrowError::OfferConsumed);
        }
        let accepted = match board.get_accepted_offer(job_id) {
            Some(a) => a,
            None => {
                return Err(EscrowError::OfferNotAccepted);
            },
        };
        if accepted.offer_id != offer_id {
            return Err(EscrowError::OfferNotAccepted);
        }
        if caller != accepted.employer && caller != accepted.worker {
            return Err(EscrowError::Unauthorized);
        }
        if let Err(e) = require_eligible_agent(registry, oracle, accepted.employer,
            self.min_uptime_score) {
            return Err(e);
        }
        if let Err(e) = require_eligible_agent(registry, oracle, accepted.worker,
            self.min_uptime_score) {
            return Err(e);
        }
        if let Err(e) = self.validate_terms(&accepted) {
            return Err(e);
        }

        let agreement_id = self.agreements.len() as u64 + 1;
        let employer_bond_required = max_amount(
            self.min_employer_bond,
            accepted.terms.employer_bond_required,
        );
        let worker_bond_required = max_amount(
            self.min_worker_bond,
            accepted.terms.worker_bond_required,
        );
        let reserved = compute_reserved_runway(
            accepted.terms.recurring.amount_per_period,
            self.min_runway_periods,
        );
        let milestones = materialize_milestones(
            &accepted.terms.milestones,
            agreement_id,
            self.milestone_review_timeout_seconds,
        );
        let agreement = Agreement {
            id: agreement_id,
            job_id,
            offer_id,
            employer: accepted.employer,
            worker: accepted.worker,
            referrer: match referrer {
                Some(a) => a,
                None => 0,
            },
            status: AgreementStatus::PendingFunding,
            created_at: now,
            activated_at: 0,
            notice_start_ts: 0,
            notice_end_ts: 0,
            requested_by_side: 0,
            default_side: 0,
            terms: AgreementTerms {
                recurring: RecurringTermsEscrow {
                    amount_per_period: accepted.terms.recurring.amount_per_period,
                    period_seconds: accepted.terms.recurring.period_seconds,
                    total_periods: accepted.terms.recurring.total_periods,
                    paid_periods: 0,
                    next_pay_ts: 0,
                },
                revenue_share: RevenueShareTermsEscrow {
                    profit_share_bps: accepted.terms.revenue_share.profit_share_bps,
                    protocol_fee_bps_snapshot: self.protocol_fee_bps,
                    referral_share_bps_snapshot: self.referral_share_bps,
                },
                employer_bond_required,
                worker_bond_required,
                milestone_count: accepted.terms.milestones.len() as u64,
            },
        };
        let record = AgreementRecord {
            agreement,
            funding: FundingState {
                runway_balance: 0,
                employer_bond_locked: 0,
                worker_bond_locked: 0,
                reserved_recurring_minimum: reserved,
            },
            milestones,
            total_gross_paid: 0,
            total_fees_paid: 0,
            revenue_ledger: 0,
        };
        self.agreements.push(record);
        self.consumed.push((job_id, offer_id));
        self.ensure_reputation_initialized(accepted.employer, now);
        self.ensure_reputation_initialized(accepted.worker, now);
        proof {
            lemma_scores_bounded_after_init(old(self).reputation@, old(self).score_start,
                accepted.employer, now);
            lemma_scores_bounded_after_init(
                init_started_spec(old(self).reputation@, old(self).score_start, accepted.employer,
                    now),
                old(self).score_start,
                accepted.worker,
                now,
            );
            assert forall|i: int| 0 <= i < self.agreements@.len() implies arec_wf(
                #[trigger] self.agreements@[i],
                (i + 1) as u64,
            ) by {
                if i < self.agreements@.len() - 1 {
                    assert(self.agreements@[i] == old(self).agreements@[i]);
                } else {
                    let t = board.accepted_offer_spec(job_id).unwrap().terms;
                    assert(accepted@.terms == t);
                    assert forall|k: int|
                        0 <= k < self.agreements@[i].milestones@.len() implies (
                    #[trigger] self.agreements@[i].milestones@[k]).agreement_id == (i + 1) as u64
                        && self.agreements@[i].milestones@[k].amount <= BPS_SAFE_LIMIT by {
                        let ms = self.agreements@[i].milestones@;
                        let tt = choose|tt: int|
                            0 <= tt < accepted.terms.milestones@.len() && ms[k].amount == (
                            #[trigger] accepted.terms.milestones@[tt]).amount;
                        assert(t.milestones[tt].amount <= BPS_SAFE_LIMIT);
                    }
                }
            }
        }
        Ok(agreement_id)
    }
}

/// How an employer deposit lands: while the agreement is PendingFunding and
/// the employer bond is short, the deposit first fills the bond up to its
/// requirement and only the remainder flows to runway; otherwise everything
/// flows to runway. Returns the new (bond, runway) pair.
pub open spec fn employer_deposit_split(rec: AgreementRecord, payment: u128) -> (u128, u128) {
    let bond = rec.funding.employer_bond_locked;
    let runway = rec.funding.runway_balance;
    let required = rec.agreement.terms.employer_bond_required;
    if rec.agreement.status == AgreementStatus::PendingFunding && bond < required {
        let needed = required - bond;
        let allocate: int = if payment < needed {
            payment as int
        } else {
            needed
        };
        ((bond + allocate) as u128, (runway + payment - allocate) as u128)
    } else {
        (bond, (runway + payment) as u128)
    }
}

/// An agreement the moment the funding gate admits it: Active as of `now`,
/// with the first recurring payment due one period later when recurring pay
/// is configured.
pub open spec fn activated_agreement(a: Agreement, now: u64) -> Agreement {
    Agreement {
        status: AgreementStatus::Active,
        activated_at: now,
        terms: AgreementTerms {
            recurring: RecurringTermsEscrow {
                next_pay_ts: if a.terms.recurring.total_periods > 0 {
                    (now + a.terms.recurring.period_seconds) as u64
                } else {
                    a.terms.recurring.next_pay_ts
                },
                ..a.terms.recurring
            },
            ..a.terms
        },
        ..a
    }
}

impl WorkEscrow {
    /// The first failing check of `fund_employer_runway`, in the order the
    /// checks run.
    pub open spec fn fund_employer_error(self, caller: u64, agreement_id: u64, payment: u128) -> Option<
        EscrowError,
    > {
        if self.paused {
            Some(EscrowError::Paused)
        } else if !self.has_agreement(agreement_id) {
            Some(EscrowError::InvalidState)
        } else if caller != self.rec(agreement_id).agreement.employer {
            Some(EscrowError::Unauthorized)
        } else if self.rec(agreement_id).agreement.status != AgreementStatus::PendingFunding
            && self.rec(agreement_id).agreement.status != AgreementStatus::Active {
            Some(EscrowError::InvalidState)
        } else if payment == 0 {
            Some(EscrowError::InvalidAmount)
        } else {
            None
        }
    }

    /// The employer deposits value: the bond is filled first while pending,
    /// the rest lands in runway, and then the funding gate is tried. The
    /// agreement activates exactly when, after the deposit, the employer
    /// bond, the worker bond and the runway floor are all satisfied at once
    /// — partial satisfaction never activates. On failure nothing changes.
    pub fn fund_employer_runway(
        &mut self,
        caller: u64,
        now: u64,
        agreement_id: u64,
        payment: u128,
    ) -> (r: Result<(), EscrowError>)
        requires
            old(self).wf(),
            old(self).active_agreement_count < u64::MAX,
            old(self).has_agreement(agreement_id) ==> {
                let rec = old(self).rec(agreement_id);
                &&& rec.funding.runway_balance + payment <= u128::MAX
                &&& (rec.agreement.terms.recurring.total_periods > 0 ==> now
                    + rec.agreement.terms.recurring.period_seconds <= u64::MAX)
            },
        ensures
            final(self).wf(),
            match r {
                Ok(_) => {
                    &&& old(self).fund_employer_error(caller, agreement_id, payment) is None
                    &&& final(self).agreements@.len() == old(self).agreements@.len()
                    &&& forall|i: int|
                        0 <= i < old(self).agreements@.len() && i != agreement_id - 1
                            ==> final(self).agreements@[i] == old(self).agreements@[i]
                    &&& {
                        let o = old(self).rec(agreement_id);
                        let n = final(self).rec(agreement_id);
                        let split = employer_deposit_split(o, payment);
                        let ready = o.agreement.status == AgreementStatus::PendingFunding
                            && split.0 >= o.agreement.terms.employer_bond_required
                            && o.funding.worker_bond_locked
                            >= o.agreement.terms.worker_bond_required && split.1
                            >= o.funding.reserved_recurring_minimum;
                        &&& n.funding == (FundingState {
                            employer_bond_locked: split.0,
                            runway_balance: split.1,
                            ..o.funding
                        })
                        &&& n.agreement == if ready {
                            activated_agreement(o.agreement, now)
                        } else {
                            o.agreement
                        }
                        &&& (n.agreement.status == AgreementStatus::Active <==> (o.agreement.status
                            == AgreementStatus::Active || ready))
                        &&& n.milestones == o.milestones
                        &&& n.total_gross_paid == o.total_gross_paid
                        &&& n.total_fees_paid == o.total_fees_paid
                        &&& n.revenue_ledger == o.revenue_ledger
                        &&& final(self).active_agreement_count == if ready {
                            (old(self).active_agreement_count + 1) as u64
                        } else {
                            old(self).active_agreement_count
                        }
                    }
                    &&& final(self).claimable@ == old(self).claimable@
                    &&& final(self).reputation@ == old(self).reputation@
                    &&& final(self).consumed@ == old(self).consumed@
                    &&& final(self).completed_agreement_count == old(
                        self,
                    ).completed_agreement_count
                    &&& final(self).terminated_agreement_count == old(
                        self,
                    ).terminated_agreement_count
                    &&& final(self).total_gross_payouts == old(self).total_gross_payouts
                    &&& final(self).total_protocol_fees == old(self).total_protocol_fees
                    &&& final(self).total_revenue_deposited == old(self).total_revenue_deposited
                    &&& old(self).same_config(*final(self))
                },
                Err(e) => {
                    &&& Some(e) == old(self).fund_employer_error(caller, agreement_id, payment)
                    &&& *final(self) == *old(self)
                },
            },
    {
        if self.paused {
            return Err(EscrowError::Paused);
        }
        if agreement_id == 0 || agreement_id > self.agreements.len() as u64 {
            return Err(EscrowError::InvalidState);
        }
        let idx = (agreement_id - 1) as usize;
        if caller != self.agreements[idx].agreement.employer {
            return Err(EscrowError::Unauthorized);
        }
        let status = self.agreements[idx].agreement.status;
        if status != AgreementStatus::PendingFunding && status != AgreementStatus::Active {
            return Err(EscrowError::InvalidState);
        }
        if payment == 0 {
            return Err(EscrowError::InvalidAmount);
        }

        let mut activated = false;
        {
            let rec = &mut self.agreements[idx];
            if rec.agreement.status == AgreementStatus::PendingFunding
                && rec.funding.employer_bond_locked < rec.agreement.terms.employer_bond_required {
                let needed = rec.agreement.terms.employer_bond_required
                    - rec.funding.employer_bond_locked;
                let allocate = min_amount(payment, needed);
                rec.funding.employer_bond_locked = rec.funding.employer_bond_locked + allocate;
                let remaining = payment - allocate;
                rec.funding.runway_balance = rec.funding.runway_balance + remaining;
            } else {
                rec.funding.runway_balance = rec.funding.runway_balance + payment;
            }
            if rec.agreement.status == AgreementStatus::PendingFunding
                && rec.funding.employer_bond_locked >= rec.agreement.terms.employer_bond_required
                && rec.funding.worker_bond_locked >= rec.agreement.terms.worker_bond_required
                && rec.funding.runway_balance >= rec.funding.reserved_recurring_minimum {
                rec.agreement.status = AgreementStatus::Active;
                rec.agreement.activated_at = now;
                if rec.agreement.terms.recurring.total_periods > 0 {
                    rec.agreement.terms.recurring.next_pay_ts = now
                        + rec.agreement.terms.recurring.period_seconds;
                }
                activated = true;
            }
        }
        if activated {
            self.active_agreement_count = self.active_agreement_count + 1;
        }
        proof {
            self.lemma_funding_touched_wf(*old(self), agreement_id);
        }
        Ok(())
    }

    /// The first failing check of `fund_worker_bond`, in the order the
    /// checks run.
    pub open spec fn fund_worker_error(self, caller: u64, agreement_id: u64, payment: u128) -> Option<
        EscrowError,
    > {
        if self.paused {
            Some(EscrowError::Paused)
        } else if !self.has_agreement(agreement_id) {
            Some(EscrowError::InvalidState)
        } else if caller != self.rec(agreement_id).agreement.worker {
            Some(EscrowError::Unauthorized)
        } else if self.rec(agreement_id).agreement.status != AgreementStatus::PendingFunding
            && self.rec(agreement_id).agreement.status != AgreementStatus::Active {
            Some(EscrowError::InvalidState)
        } else if payment == 0 {
            Some(EscrowError::InvalidAmount)
        } else {
            None
        }
    }

    /// The worker deposits bond: the whole payment locks as worker bond, and
    /// then the funding gate is tried, activating exactly when all three
    /// thresholds hold at once. On failure nothing changes.
    pub fn fund_worker_bond(&mut self, caller: u64, now: u64, agreement_id: u64, payment: u128) -> (r:
        Result<(), EscrowError>)
        requires
            old(self).wf(),
            old(self).active_agreement_count < u64::MAX,
            old(self).has_agreement(agreement_id) ==> {
                let rec = old(self).rec(agreement_id);
                &&& rec.funding.worker_bond_locked + payment <= u128::MAX
                &&& (rec.agreement.terms.recurring.total_periods > 0 ==> now
                    + rec.agreement.terms.recurring.period_seconds <= u64::MAX)
            },
        ensures
            final(self).wf(),
            match r {
                Ok(_) => {
                    &&& old(self).fund_worker_error(caller, agreement_id, payment) is None
                    &&& final(self).agreements@.len() == old(self).agreements@.len()
                    &&& forall|i: int|
                        0 <= i < old(self).agreements@.len() && i != agreement_id - 1
                            ==> final(self).agreements@[i] == old(self).agreements@[i]
                    &&& {
                        let o = old(self).rec(agreement_id);
                        let n = final(self).rec(agreement_id);
                        let bond = (o.funding.worker_bond_locked + payment) as u128;
                        let ready = o.agreement.status == AgreementStatus::PendingFunding
                            && o.funding.employer_bond_locked
                            >= o.agreement.terms.employer_bond_required && bond
                            >= o.agreement.terms.worker_bond_required && o.funding.runway_balance
                            >= o.funding.reserved_recurring_minimum;
                        &&& n.funding == (FundingState { worker_bond_locked: bond, ..o.funding })
                        &&& n.agreement == if ready {
                            activated_agreement(o.agreement, now)
                        } else {
                            o.agreement
                        }
                        &&& (n.agreement.status == AgreementStatus::Active <==> (o.agreement.status
                            == AgreementStatus::Active || ready))
                        &&& n.milestones == o.milestones
                        &&& n.total_gross_paid == o.total_gross_paid
                        &&& n.total_fees_paid == o.total_fees_paid
                        &&& n.revenue_ledger == o.revenue_ledger
                        &&& final(self).active_agreement_count == if ready {
                            (old(self).active_agreement_count + 1) as u64
                        } else {
                            old(self).active_agreement_count
                        }
                    }
                    &&& final(self).claimable@ == old(self).claimable@
                    &&& final(self).reputation@ == old(self).reputation@
                    &&& final(self).consumed@ == old(self).consumed@
                    &&& final(self).completed_agreement_count == old(
                        self,
                    ).completed_agreement_count
                    &&& final(self).terminated_agreement_count == old(
                        self,
                    ).terminated_agreement_count
                    &&& final(self).total_gross_payouts == old(self).total_gross_payouts
                    &&& final(self).total_protocol_fees == old(self).total_protocol_fees
                    &&& final(self).total_revenue_deposited == old(self).total_revenue_deposited
                    &&& old(self).same_config(*final(self))
                },
                Err(e) => {
                    &&& Some(e) == old(self).fund_worker_error(caller, agreement_id, payment)
                    &&& *final(self) == *old(self)
                },
            },
    {
        if self.paused {
            return Err(EscrowError::Paused);
        }
        if agreement_id == 0 || agreement_id > self.agreements.len() as u64 {
            return Err(EscrowError::InvalidState);
        }
        let idx = (agreement_id - 1) as usize;
        if caller != self.agreements[idx].agreement.worker {
            return Err(EscrowError::Unauthorized);
        }
        let status = self.agreements[idx].agreement.status;
        if status != AgreementStatus::PendingFunding && status != AgreementStatus::Active {
            return Err(EscrowError::InvalidState);
        }
        if payment == 0 {
            return Err(EscrowError::InvalidAmount);
        }

        let mut activated = false;
        {
            let rec = &mut self.agreements[idx];
            rec.funding.worker_bond_locked = rec.funding.worker_bond_locked + payment;
            if rec.agreement.status == AgreementStatus::PendingFunding
                && rec.funding.employer_bond_locked >= rec.agreement.terms.employer_bond_required
                && rec.funding.worker_bond_locked >= rec.agreement.terms.worker_bond_required
                && rec.funding.runway_balance >= rec.funding.reserved_recurring_minimum {
                rec.agreement.status = AgreementStatus::Active;
                rec.agreement.activated_at = now;
                if rec.agreement.terms.recurring.total_periods > 0 {
                    rec.agreement.terms.recurring.next_pay_ts = now
                        + rec.agreement.terms.recurring.period_seconds;
                }
                activated = true;
            }
        }
        if activated {
            self.active_agreement_count = self.active_agreement_count + 1;
        }
        proof {
            self.lemma_funding_touched_wf(*old(self), agreement_id);
        }
        Ok(())
    }

    /// The first failing check of `top_up_runway`, in the order the checks
    /// run.
    pub open spec fn top_up_error(self, caller: u64, agreement_id: u64, payment: u128) -> Option<
        EscrowError,
    > {
        if self.paused {
            Some(EscrowError::Paused)
        } else if !self.has_agreement(agreement_id) {
            Some(EscrowError::InvalidState)
        } else if caller != self.rec(agreement_id).agreement.employer {
            Some(EscrowError::Unauthorized)
        } else if self.rec(agreement_id).agreement.status != AgreementStatus::Active && self.rec(
            agreement_id,
        ).agreement.status != AgreementStatus::NoticePeriod {
            Some(EscrowError::InvalidState)
        } else if payment == 0 {
            Some(EscrowError::InvalidAmount)
        } else {
            None
        }
    }

    /// The employer tops up runway on a live agreement: the whole payment
    /// lands in runway with no bond bookkeeping. On failure nothing changes.
    pub fn top_up_runway(&mut self, caller: u64, agreement_id: u64, payment: u128) -> (r: Result<
        (),
        EscrowError,
    >)
        requires
            old(self).wf(),
            old(self).has_agreement(agreement_id) ==> old(self).rec(
                agreement_id,
            ).funding.runway_balance + payment <= u128::MAX,
        ensures
            final(self).wf(),
            match r {
                Ok(_) => {
                    &&& old(self).top_up_error(caller, agreement_id, payment) is None
                    &&& final(self).agreements@.len() == old(self).agreements@.len()
                    &&& forall|i: int|
                        0 <= i < old(self).agreements@.len() && i != agreement_id - 1
                            ==> final(self).agreements@[i] == old(self).agreements@[i]
                    &&& {
                        let o = old(self).rec(agreement_id);
                        let n = final(self).rec(agreement_id);
                        &&& n.funding == (FundingState {
                            runway_balance: (o.funding.runway_balance + payment) as u128,
                            ..o.funding
                        })
                        &&& n.agreement == o.agreement
                        &&& n.milestones == o.milestones
                        &&& n.total_gross_paid == o.total_gross_paid
                        &&& n.total_fees_paid == o.total_fees_paid
                        &&& n.revenue_ledger == o.revenue_ledger
                    }
                    &&& final(self).claimable@ == old(self).claimable@
                    &&& final(self).reputation@ == old(self).reputation@
                    &&& final(self).consumed@ == old(self).consumed@
                    &&& final(self).active_agreement_count == old(self).active_agreement_count
                    &&& final(self).completed_agreement_count == old(
                        self,
                    ).completed_agreement_count
                    &&& final(self).terminated_agreement_count == old(
                        self,
                    ).terminated_agreement_count
                    &&& final(self).total_gross_payouts == old(self).total_gross_payouts
                    &&& final(self).total_protocol_fees == old(self).total_protocol_fees
                    &&& final(self).total_revenue_deposited == old(self).total_revenue_deposited
                    &&& old(self).same_config(*final(self))
                },
                Err(e) => {
                    &&& Some(e) == old(self).top_up_error(caller, agreement_id, payment)
                    &&& *final(self) == *old(self)
                },
            },
    {
        if self.paused {
            return Err(EscrowError::Paused);
        }
        if agreement_id == 0 || agreement_id > self.agreements.len() as u64 {
            return Err(EscrowError::InvalidState);
        }
        let idx = (agreement_id - 1) as usize;
        if caller != self.agreements[idx].agreement.employer {
            return Err(EscrowError::Unauthorized);
        }
        let status = self.agreements[idx].agreement.status;
        if status != AgreementStatus::Active && status != AgreementStatus::NoticePeriod {
            return Err(EscrowError::InvalidState);
        }
        if payment == 0 {
            return Err(EscrowError::InvalidAmount);
        }
        let rec = &mut self.agreements[idx];
        rec.funding.runway_balance = rec.funding.runway_balance + payment;
        proof {
            self.lemma_funding_touched_wf(*old(self), agreement_id);
        }
        Ok(())
    }

    /// An escrow that differs from a well-formed one only in one agreement's
    /// balances, status fields and recurring counters — never in its
    /// basis-point parameters, amounts or milestone identities — is well
    /// formed again.
    proof fn lemma_funding_touched_wf(self, prev: WorkEscrow, agreement_id: u64)
        requires
            prev.wf(),
            prev.has_agreement(agreement_id),
            reputation_scores_bounded(self.reputation@),
            self.agreements@.len() == prev.agreements@.len(),
            self.protocol_fee_bps == prev.protocol_fee_bps,
            self.referral_share_bps == prev.referral_share_bps,
            self.termination_penalty_bps == prev.termination_penalty_bps,
            forall|i: int|
                0 <= i < prev.agreements@.len() && i != agreement_id - 1 ==> self.agreements@[i]
                    == prev.agreements@[i],
            ({
                let o = prev.rec(agreement_id);
                let n = self.rec(agreement_id);
                &&& n.agreement.id == o.agreement.id
                &&& n.agreement.terms.revenue_share == o.agreement.terms.revenue_share
                &&& n.agreement.terms.recurring.amount_per_period
                    == o.agreement.terms.recurring.amount_per_period
                &&& n.milestones == o.milestones
            }),
        ensures
            self.wf(),
    {
        assert forall|i: int| 0 <= i < self.agreements@.len() implies arec_wf(
            #[trigger] self.agreements@[i],
            (i + 1) as u64,
        ) by {
            if i != agreement_id - 1 {
                assert(self.agreements@[i] == prev.agreements@[i]);
            } else {
                assert(arec_wf(prev.agreements@[i], (i + 1) as u64));
            }
        }
    }
}

/// The claimable map after one payout of `gross` under an agreement's frozen
/// fee parameters: the referrer's cut first (only with a referrer set), then
/// the worker's net, then the treasury's remainder — and nothing else.
pub open spec fn payout_credit_spec(
    m: Map<u64, u128>,
    agreement: Agreement,
    treasury: u64,
    gross: u128,
) -> Map<u64, u128> {
    let fee_bps = agreement.terms.revenue_share.protocol_fee_bps_snapshot;
    let referral_bps = agreement.terms.revenue_share.referral_share_bps_snapshot;
    let has_referrer = agreement.referrer != 0;
    let referral = referral_fee_spec(gross, fee_bps, referral_bps, has_referrer) as u128;
    let worker_net = worker_net_spec(gross, fee_bps) as u128;
    let treasury_fee = treasury_fee_spec(gross, fee_bps, referral_bps, has_referrer) as u128;
    let m1 = if has_referrer {
        credit_spec(m, agreement.referrer, referral)
    } else {
        m
    };
    credit_spec(credit_spec(m1, agreement.worker, worker_net), treasury, treasury_fee)
}

/// That the three credits of one payout all fit in `u128` balances.
pub open spec fn payout_credit_fits(
    m: Map<u64, u128>,
    agreement: Agreement,
    treasury: u64,
    gross: u128,
) -> bool {
    let fee_bps = agreement.terms.revenue_share.protocol_fee_bps_snapshot;
    let referral_bps = agreement.terms.revenue_share.referral_share_bps_snapshot;
    let has_referrer = agreement.referrer != 0;
    let referral = referral_fee_spec(gross, fee_bps, referral_bps, has_referrer) as u128;
    let worker_net = worker_net_spec(gross, fee_bps) as u128;
    let treasury_fee = treasury_fee_spec(gross, fee_bps, referral_bps, has_referrer) as u128;
    let m1 = if has_referrer {
        credit_spec(m, agreement.referrer, referral)
    } else {
        m
    };
    let m2 = credit_spec(m1, agreement.worker, worker_net);
    &&& (has_referrer ==> bal(m, agreement.referrer) + referral <= u128::MAX)
    &&& bal(m1, agreement.worker) + worker_net <= u128::MAX
    &&& bal(m2, treasury) + treasury_fee <= u128::MAX
}

/// The claimable map after an agreement's bonds are refunded on completion
/// or termination: the employer's remaining bond, then the worker's.
pub open spec fn refund_bonds_spec(
    m: Map<u64, u128>,
    employer: u64,
    worker: u64,
    employer_bond: u128,
    worker_bond: u128,
) -> Map<u64, u128> {
    credit_spec(credit_spec(m, employer, employer_bond), worker, worker_bond)
}

/// The reputation map after both parties are credited for a natural
/// completion, employer first.
pub open spec fn completion_rep_spec(
    m: Map<u64, ReputationSnapshot>,
    score_start: u64,
    employer: u64,
    worker: u64,
    now: u64,
) -> Map<u64, ReputationSnapshot> {
    delta_map_spec(
        delta_map_spec(
            m,
            score_start,
            employer,
            SCORE_DELTA_COMPLETION as int,
            ReputationReason::Completion,
            now,
        ),
        score_start,
        worker,
        SCORE_DELTA_COMPLETION as int,
        ReputationReason::Completion,
        now,
    )
}

/// Every counter of a snapshot has room for the few bumps one call makes.
pub open spec fn rep_headroom(rep: ReputationSnapshot) -> bool {
    &&& rep.agreements_started < u64::MAX - 2
    &&& rep.agreements_completed < u64::MAX - 2
    &&& rep.defaults_as_employer < u64::MAX - 2
    &&& rep.defaults_as_worker < u64::MAX - 2
    &&& rep.on_time_recurring_payments < u64::MAX - 2
    &&& rep.milestones_settled < u64::MAX - 2
    &&& rep.terminations_initiated < u64::MAX - 2
}

impl WorkEscrow {
    /// Splits one gross payout under an agreement's frozen fee parameters
    /// and credits the referrer, the worker and the treasury; also grows the
    /// protocol-wide payout totals. Returns `(protocol_fee, referral_fee,
    /// worker_net)`. Relied on by recurring pay and milestone settlement;
    /// the credited deltas sum to `gross` exactly.
    fn credit_worker_payout(&mut self, agreement: Agreement, gross: u128) -> (r: (
        u128,
        u128,
        u128,
    ))
        requires
            gross <= BPS_SAFE_LIMIT,
            agreement.terms.revenue_share.protocol_fee_bps_snapshot <= BPS_DENOMINATOR,
            agreement.terms.revenue_share.referral_share_bps_snapshot <= BPS_DENOMINATOR,
            payout_credit_fits(old(self).claimable@, agreement, old(self).treasury, gross),
            old(self).total_protocol_fees + protocol_fee_spec(gross,
                agreement.terms.revenue_share.protocol_fee_bps_snapshot) <= u128::MAX,
            old(self).total_gross_payouts + gross <= u128::MAX,
        ensures
            ({
                let fee_bps = agreement.terms.revenue_share.protocol_fee_bps_snapshot;
                let referral_bps = agreement.terms.revenue_share.referral_share_bps_snapshot;
                let has_referrer = agreement.referrer != 0;
                &&& r.0 == protocol_fee_spec(gross, fee_bps)
                &&& r.1 == referral_fee_spec(gross, fee_bps, referral_bps, has_referrer)
                &&& r.2 == worker_net_spec(gross, fee_bps)
                &&& final(self).claimable@ == payout_credit_spec(old(self).claimable@, agreement,
                    old(self).treasury, gross)
                &&& final(self).total_protocol_fees == old(self).total_protocol_fees + r.0
                &&& final(self).total_gross_payouts == old(self).total_gross_payouts + gross
                &&& *final(self) == (WorkEscrow {
                    claimable: final(self).claimable,
                    total_protocol_fees: final(self).total_protocol_fees,
                    total_gross_payouts: final(self).total_gross_payouts,
                    ..*old(self)
                })
            }),
    {
        let fee_bps = agreement.terms.revenue_share.protocol_fee_bps_snapshot;
        let referral_bps = agreement.terms.revenue_share.referral_share_bps_snapshot;
        let has_referrer = agreement.referrer != 0;
        let (worker_net, referral_fee, _treasury_fee, protocol_fee) = payout_split(
            gross,
            fee_bps,
            referral_bps,
            has_referrer,
        );
        if has_referrer {
            self.add_claimable(agreement.referrer, referral_fee);
        }
        self.add_claimable(agreement.worker, worker_net);
        let treasury = self.treasury;
        self.add_claimable(treasury, protocol_fee - referral_fee);
        self.total_protocol_fees = self.total_protocol_fees + protocol_fee;
        self.total_gross_payouts = self.total_gross_payouts + gross;
        (protocol_fee, referral_fee, worker_net)
    }

    /// The machine-size conditions under which `try_complete` can refund and
    /// settle an agreement that is ready to complete.
    pub open spec fn complete_fits(self, agreement_id: u64, now: u64) -> bool {
        let rec = self.rec(agreement_id);
        let employer = rec.agreement.employer;
        let worker = rec.agreement.worker;
        completion_ready(rec) ==> {
            &&& bal(self.claimable@, employer) + rec.funding.employer_bond_locked <= u128::MAX
            &&& bal(credit_spec(self.claimable@, employer, rec.funding.employer_bond_locked),
                worker) + rec.funding.worker_bond_locked <= u128::MAX
            &&& self.completed_agreement_count < u64::MAX
            &&& counters_ok(self.reputation_of(employer))
            &&& counters_ok(
                rep_of(
                    delta_map_spec(
                        self.reputation@,
                        self.score_start,
                        employer,
                        SCORE_DELTA_COMPLETION as int,
                        ReputationReason::Completion,
                        now,
                    ),
                    self.score_start,
                    worker,
                ),
            )
        }
    }

    /// Attempts natural completion, as every recurring payment and milestone
    /// settlement does last: an Active agreement whose recurring pay is done
    /// and whose milestones are all Paid refunds both bonds to the parties'
    /// claimables, becomes Completed, and credits both reputations; any
    /// other agreement is left untouched.
    #[verifier::loop_isolation(false)]
    fn try_complete(&mut self, agreement_id: u64, now: u64)
        requires
            old(self).wf(),
            old(self).has_agreement(agreement_id),
            old(self).complete_fits(agreement_id, now),
        ensures
            final(self).wf(),
            if completion_ready(old(self).rec(agreement_id)) {
                let o = old(self).rec(agreement_id);
                let n = final(self).rec(agreement_id);
                &&& final(self).agreements@.len() == old(self).agreements@.len()
                &&& (forall|i: int|
                    0 <= i < old(self).agreements@.len() && i != agreement_id - 1
                        ==> final(self).agreements@[i] == old(self).agreements@[i])
                &&& n.agreement == (Agreement {
                    status: AgreementStatus::Completed,
                    ..o.agreement
                })
                &&& n.funding == (FundingState {
                    employer_bond_locked: 0,
                    worker_bond_locked: 0,
                    ..o.funding
                })
                &&& n.milestones == o.milestones
                &&& n.total_gross_paid == o.total_gross_paid
                &&& n.total_fees_paid == o.total_fees_paid
                &&& n.revenue_ledger == o.revenue_ledger
                &&& final(self).claimable@ == refund_bonds_spec(old(self).claimable@,
                    o.agreement.employer, o.agreement.worker, o.funding.employer_bond_locked,
                    o.funding.worker_bond_locked)
                &&& final(self).reputation@ == completion_rep_spec(old(self).reputation@, old(
                    self,
                ).score_start, o.agreement.employer, o.agreement.worker, now)
                &&& final(self).active_agreement_count == (
                if old(self).active_agreement_count > 0 {
                    (old(self).active_agreement_count - 1) as u64
                } else {
                    0
                })
                &&& final(self).completed_agreement_count == old(self).completed_agreement_count
                    + 1
                &&& final(self).terminated_agreement_count == old(self).terminated_agreement_count
                &&& final(self).total_gross_payouts == old(self).total_gross_payouts
                &&& final(self).total_protocol_fees == old(self).total_protocol_fees
                &&& final(self).total_revenue_deposited == old(self).total_revenue_deposited
                &&& final(self).consumed@ == old(self).consumed@
                &&& old(self).same_config(*final(self))
            } else {
                *final(self) == *old(self)
            },
    {
        let n_agreements = self.agreements.len();
        proof {
            assert(1 <= agreement_id <= n_agreements);
        }
        let idx = (agreement_id - 1) as usize;
        if self.agreements[idx].agreement.status != AgreementStatus::Active {
            return ;
        }
        let total_periods = self.agreements[idx].agreement.terms.recurring.total_periods;
        let paid_periods = self.agreements[idx].agreement.terms.recurring.paid_periods;
        if total_periods != 0 && paid_periods < total_periods {
            return ;
        }
        let n_milestones = self.agreements[idx].milestones.len();
        let mut k: usize = 0;
        while k < n_milestones
            invariant
                old(self) == self,
                self.has_agreement(agreement_id),
                idx == agreement_id - 1,
                n_milestones == self.rec(agreement_id).milestones@.len(),
                k <= n_milestones,
                forall|t: int|
                    0 <= t < k ==> (#[trigger] self.rec(agreement_id).milestones@[t]).state
                        == MilestoneState::Paid,
            decreases n_milestones - k,
        {
            let m = &self.agreements[idx].milestones[k];
            if !(m.state == MilestoneState::Paid) {
                return ;
            }
            k = k + 1;
        }
        let employer = self.agreements[idx].agreement.employer;
        let worker = self.agreements[idx].agreement.worker;
        let employer_refund = self.agreements[idx].funding.employer_bond_locked;
        let worker_refund = self.agreements[idx].funding.worker_bond_locked;
        if employer_refund > 0 {
            self.add_claimable(employer, employer_refund);
        }
        if worker_refund > 0 {
            self.add_claimable(worker, worker_refund);
        }
        {
            let rec = &mut self.agreements[idx];
            rec.funding.employer_bond_locked = 0;
            rec.funding.worker_bond_locked = 0;
            rec.agreement.status = AgreementStatus::Completed;
        }
        if self.active_agreement_count > 0 {
            self.active_agreement_count = self.active_agreement_count - 1;
        }
        self.completed_agreement_count = self.completed_agreement_count + 1;
        self.apply_reputation_delta(
            employer,
            SCORE_DELTA_COMPLETION,
            ReputationReason::Completion,
            now,
        );
        self.apply_reputation_delta(
            worker,
            SCORE_DELTA_COMPLETION,
            ReputationReason::Completion,
            now,
        );
        proof {
            lemma_scores_bounded_after_delta(old(self).reputation@, old(self).score_start,
                employer, SCORE_DELTA_COMPLETION as int, ReputationReason::Completion, now);
            lemma_scores_bounded_after_delta(
                delta_map_spec(old(self).reputation@, old(self).score_start, employer,
                    SCORE_DELTA_COMPLETION as int, ReputationReason::Completion, now),
                old(self).score_start,
                worker,
                SCORE_DELTA_COMPLETION as int,
                ReputationReason::Completion,
                now,
            );
            self.lemma_funding_touched_wf(*old(self), agreement_id);
        }
    }
}

/// Every reputation score the map stores lies inside the score bound: with
/// the clamped baseline and the clamped delta arithmetic, this is an
/// invariant of every reachable state.
pub open spec fn reputation_scores_bounded(m: Map<u64, ReputationSnapshot>) -> bool {
    forall|a: u64| #[trigger] m.contains_key(a) ==> m[a].score <= SCORE_MAX
}

/// Lazily initializing an agent preserves the score bound.
pub proof fn lemma_scores_bounded_after_init(
    m: Map<u64, ReputationSnapshot>,
    score_start: u64,
    agent: u64,
    now: u64,
)
    requires
        reputation_scores_bounded(m),
    ensures
        reputation_scores_bounded(init_started_spec(m, score_start, agent, now)),
{
}

/// Applying one delta preserves the score bound.
pub proof fn lemma_scores_bounded_after_delta(
    m: Map<u64, ReputationSnapshot>,
    score_start: u64,
    agent: u64,
    delta: int,
    reason: ReputationReason,
    now: u64,
)
    requires
        reputation_scores_bounded(m),
    ensures
        reputation_scores_bounded(delta_map_spec(m, score_start, agent, delta, reason, now)),
{
    lemma_reputation_score_bounded(rep_of(m, score_start, agent), delta, reason, now);
}

/// Every counter a reputation delta can bump has room for one more.
pub open spec fn counters_ok(rep: ReputationSnapshot) -> bool {
    &&& rep.agreements_completed < u64::MAX
    &&& rep.defaults_as_employer < u64::MAX
    &&& rep.defaults_as_worker < u64::MAX
    &&& rep.on_time_recurring_payments < u64::MAX
    &&& rep.milestones_settled < u64::MAX
    &&& rep.terminations_initiated < u64::MAX
}

impl WorkEscrow {
    /// The first failing check of `claim_recurring_pay`, in the order the
    /// checks run.
    pub open spec fn claim_error(self, caller: u64, agreement_id: u64, now: u64) -> Option<
        EscrowError,
    > {
        if self.paused {
            Some(EscrowError::Paused)
        } else if !self.has_agreement(agreement_id) {
            Some(EscrowError::InvalidState)
        } else {
            let a = self.rec(agreement_id).agreement;
            if caller != a.worker {
                Some(EscrowError::Unauthorized)
            } else if a.status != AgreementStatus::Active {
                Some(EscrowError::InvalidState)
            } else if !(a.terms.recurring.total_periods > 0 && a.terms.recurring.amount_per_period
                > 0) {
                Some(EscrowError::InvalidState)
            } else if a.terms.recurring.paid_periods >= a.terms.recurring.total_periods {
                Some(EscrowError::InvalidState)
            } else if now < a.terms.recurring.next_pay_ts {
                Some(EscrowError::InvalidDeadline)
            } else {
                None
            }
        }
    }

    /// The machine-size conditions under which one recurring payment, with
    /// its credits, totals, reputation bumps and possible completion, fits.
    pub open spec fn claim_fits(self, agreement_id: u64, now: u64) -> bool {
        self.has_agreement(agreement_id) ==> {
            let rec = self.rec(agreement_id);
            let a = rec.agreement;
            let gross = a.terms.recurring.amount_per_period;
            let fee = protocol_fee_spec(gross, a.terms.revenue_share.protocol_fee_bps_snapshot);
            let claim1 = payout_credit_spec(self.claimable@, a, self.treasury, gross);
            &&& a.terms.recurring.next_pay_ts + a.terms.recurring.period_seconds <= u64::MAX
            &&& payout_credit_fits(self.claimable@, a, self.treasury, gross)
            &&& self.total_protocol_fees + fee <= u128::MAX
            &&& self.total_gross_payouts + gross <= u128::MAX
            &&& rec.total_gross_paid + gross <= u128::MAX
            &&& rec.total_fees_paid + fee <= u128::MAX
            &&& rec.revenue_ledger < u64::MAX
            &&& rep_headroom(self.reputation_of(a.employer))
            &&& rep_headroom(self.reputation_of(a.worker))
            &&& self.completed_agreement_count < u64::MAX
            &&& bal(claim1, a.employer) + rec.funding.employer_bond_locked <= u128::MAX
            &&& bal(credit_spec(claim1, a.employer, rec.funding.employer_bond_locked), a.worker)
                + rec.funding.worker_bond_locked <= u128::MAX
        }
    }

    /// The worker claims one recurring payment. All checks passing, two
    /// things can happen. If the runway cannot cover the payment, the call
    /// does not fail: it records an employer default — NoticePeriod with a
    /// zero-length notice window, the worker marked as requester for penalty
    /// direction, and the employer's reputation cut — and pays nothing.
    /// Otherwise the runway is debited, the paid-period counter and the next
    /// pay time advance, the split credits worker, referrer and treasury
    /// exactly (their deltas sum to the gross amount), the employer earns
    /// the on-time bump, and the agreement completes if this was the last
    /// obligation. On a failed check nothing changes.
    pub fn claim_recurring_pay(&mut self, caller: u64, now: u64, agreement_id: u64) -> (r: Result<
        (),
        EscrowError,
    >)
        requires
            old(self).wf(),
            old(self).claim_fits(agreement_id, now),
        ensures
            final(self).wf(),
            match r {
                Ok(_) => {
                    &&& old(self).claim_error(caller, agreement_id, now) is None
                    &&& final(self).agreements@.len() == old(self).agreements@.len()
                    &&& forall|i: int|
                        0 <= i < old(self).agreements@.len() && i != agreement_id - 1
                            ==> final(self).agreements@[i] == old(self).agreements@[i]
                    &&& final(self).consumed@ == old(self).consumed@
                    &&& final(self).terminated_agreement_count == old(
                        self,
                    ).terminated_agreement_count
                    &&& final(self).total_revenue_deposited == old(self).total_revenue_deposited
                    &&& old(self).same_config(*final(self))
                    &&& {
                        let o = old(self).rec(agreement_id);
                        let a = o.agreement;
                        let n = final(self).rec(agreement_id);
                        let gross = a.terms.recurring.amount_per_period;
                        let fee = protocol_fee_spec(gross,
                            a.terms.revenue_share.protocol_fee_bps_snapshot) as u128;
                        if o.funding.runway_balance < gross {
                            // the designed non-failure: employer default
                            &&& n.agreement == (Agreement {
                                default_side: EMPLOYER_SIDE,
                                status: AgreementStatus::NoticePeriod,
                                notice_start_ts: now,
                                notice_end_ts: now,
                                requested_by_side: WORKER_SIDE,
                                ..a
                            })
                            &&& n.funding == o.funding
                            &&& n.milestones == o.milestones
                            &&& n.total_gross_paid == o.total_gross_paid
                            &&& n.total_fees_paid == o.total_fees_paid
                            &&& n.revenue_ledger == o.revenue_ledger
                            &&& final(self).claimable@ == old(self).claimable@
                            &&& final(self).reputation@ == delta_map_spec(old(self).reputation@,
                                old(self).score_start, a.employer,
                                SCORE_DELTA_EMPLOYER_DEFAULT as int,
                                ReputationReason::EmployerDefault, now)
                            &&& final(self).active_agreement_count == (
                            if old(self).active_agreement_count > 0 {
                                (old(self).active_agreement_count - 1) as u64
                            } else {
                                0
                            })
                            &&& final(self).completed_agreement_count == old(
                                self,
                            ).completed_agreement_count
                            &&& final(self).total_gross_payouts == old(self).total_gross_payouts
                            &&& final(self).total_protocol_fees == old(self).total_protocol_fees
                        } else {
                            let paid_agreement = Agreement {
                                terms: AgreementTerms {
                                    recurring: RecurringTermsEscrow {
                                        paid_periods: (a.terms.recurring.paid_periods + 1) as u64,
                                        next_pay_ts: (a.terms.recurring.next_pay_ts
                                            + a.terms.recurring.period_seconds) as u64,
                                        ..a.terms.recurring
                                    },
                                    ..a.terms
                                },
                                ..a
                            };
                            let paid_funding = FundingState {
                                runway_balance: (o.funding.runway_balance - gross) as u128,
                                ..o.funding
                            };
                            let claim1 = payout_credit_spec(old(self).claimable@, a, old(
                                self,
                            ).treasury, gross);
                            let rep1 = delta_map_spec(old(self).reputation@, old(self).score_start,
                                a.employer, SCORE_DELTA_RECURRING as int,
                                ReputationReason::OnTimeRecurringPayment, now);
                            let completed = recurring_done(paid_agreement.terms.recurring)
                                && milestones_all_paid(o.milestones@);
                            &&& n.milestones == o.milestones
                            &&& n.total_gross_paid == o.total_gross_paid + gross
                            &&& n.total_fees_paid == o.total_fees_paid + fee
                            &&& n.revenue_ledger == o.revenue_ledger + 1
                            &&& final(self).total_gross_payouts == old(self).total_gross_payouts
                                + gross
                            &&& final(self).total_protocol_fees == old(self).total_protocol_fees
                                + fee
                            &&& if completed {
                                &&& n.agreement == (Agreement {
                                    status: AgreementStatus::Completed,
                                    ..paid_agreement
                                })
                                &&& n.funding == (FundingState {
                                    employer_bond_locked: 0,
                                    worker_bond_locked: 0,
                                    ..paid_funding
                                })
                                &&& final(self).claimable@ == refund_bonds_spec(claim1, a.employer,
                                    a.worker, o.funding.employer_bond_locked,
                                    o.funding.worker_bond_locked)
                                &&& final(self).reputation@ == completion_rep_spec(rep1, old(
                                    self,
                                ).score_start, a.employer, a.worker, now)
                                &&& final(self).active_agreement_count == (
                                if old(self).active_agreement_count > 0 {
                                    (old(self).active_agreement_count - 1) as u64
                                } else {
                                    0
                                })
                                &&& final(self).completed_agreement_count == old(
                                    self,
                                ).completed_agreement_count + 1
                            } else {
                                &&& n.agreement == paid_agreement
                                &&& n.funding == paid_funding
                                &&& final(self).claimable@ == claim1
                                &&& final(self).reputation@ == rep1
                                &&& final(self).active_agreement_count == old(
                                    self,
                                ).active_agreement_count
                                &&& final(self).completed_agreement_count == old(
                                    self,
                                ).completed_agreement_count
                            }
                        }
                    }
                },
                Err(e) => {
                    &&& Some(e) == old(self).claim_error(caller, agreement_id, now)
                    &&& *final(self) == *old(self)
                },
            },
    {
        if self.paused {
            return Err(EscrowError::Paused);
        }
        if agreement_id == 0 || agreement_id > self.agreements.len() as u64 {
            return Err(EscrowError::InvalidState);
        }
        let idx = (agreement_id - 1) as usize;
        let agreement = self.agreements[idx].agreement;
        if caller != agreement.worker {
            return Err(EscrowError::Unauthorized);
        }
        if agreement.status != AgreementStatus::Active {
            return Err(EscrowError::InvalidState);
        }
        if !(agreement.terms.recurring.total_periods > 0
            && agreement.terms.recurring.amount_per_period > 0) {
            return Err(EscrowError::InvalidState);
        }
        if agreement.terms.recurring.paid_periods >= agreement.terms.recurring.total_periods {
            return Err(EscrowError::InvalidState);
        }
        if now < agreement.terms.recurring.next_pay_ts {
            return Err(EscrowError::InvalidDeadline);
        }

        let gross = agreement.terms.recurring.amount_per_period;
        if self.agreements[idx].funding.runway_balance < gross {
            // under-funded: record an employer default instead of failing
            {
                let rec = &mut self.agreements[idx];
                rec.agreement.default_side = EMPLOYER_SIDE;
                rec.agreement.status = AgreementStatus::NoticePeriod;
                rec.agreement.notice_start_ts = now;
                rec.agreement.notice_end_ts = now;
                rec.agreement.requested_by_side = WORKER_SIDE;
            }
            if self.active_agreement_count > 0 {
                self.active_agreement_count = self.active_agreement_count - 1;
            }
            self.apply_reputation_delta(
                agreement.employer,
                SCORE_DELTA_EMPLOYER_DEFAULT,
                ReputationReason::EmployerDefault,
                now,
            );
            proof {
                lemma_scores_bounded_after_delta(old(self).reputation@, old(self).score_start,
                    agreement.employer, SCORE_DELTA_EMPLOYER_DEFAULT as int,
                    ReputationReason::EmployerDefault, now);
                self.lemma_funding_touched_wf(*old(self), agreement_id);
            }
            return Ok(());
        }

        {
            let rec = &mut self.agreements[idx];
            rec.funding.runway_balance = rec.funding.runway_balance - gross;
            rec.agreement.terms.recurring.paid_periods = rec.agreement.terms.recurring.paid_periods
                + 1;
            rec.agreement.terms.recurring.next_pay_ts = rec.agreement.terms.recurring.next_pay_ts
                + rec.agreement.terms.recurring.period_seconds;
        }
        let (protocol_fee, _referral_fee, _worker_net) = self.credit_worker_payout(
            agreement,
            gross,
        );
        {
            let rec = &mut self.agreements[idx];
            rec.total_gross_paid = rec.total_gross_paid + gross;
            rec.total_fees_paid = rec.total_fees_paid + protocol_fee;
            rec.revenue_ledger = rec.revenue_ledger + 1;
        }
        self.apply_reputation_delta(
            agreement.employer,
            SCORE_DELTA_RECURRING,
            ReputationReason::OnTimeRecurringPayment,
            now,
        );
        proof {
            lemma_scores_bounded_after_delta(old(self).reputation@, old(self).score_start,
                agreement.employer, SCORE_DELTA_RECURRING as int,
                ReputationReason::OnTimeRecurringPayment, now);
            self.lemma_funding_touched_wf(*old(self), agreement_id);
        }
        self.try_complete(agreement_id, now);
        Ok(())
    }
}

impl WorkEscrow {
    /// The first failing check of `submit_milestone`, in the order the
    /// checks run.
    pub open spec fn submit_milestone_error(
        self,
        caller: u64,
        agreement_id: u64,
        milestone_id: u64,
        proof_uri: Seq<u8>,
    ) -> Option<EscrowError> {
        if self.paused {
            Some(EscrowError::Paused)
        } else if !self.has_agreement(agreement_id) {
            Some(EscrowError::InvalidState)
        } else if caller != self.rec(agreement_id).agreement.worker {
            Some(EscrowError::Unauthorized)
        } else if self.rec(agreement_id).agreement.status != AgreementStatus::Active {
            Some(EscrowError::InvalidState)
        } else if proof_uri.len() > MAX_PROOF_URI_LEN {
            Some(EscrowError::InvalidAmount)
        } else if !self.has_milestone(agreement_id, milestone_id) {
            Some(EscrowError::InvalidState)
        } else if self.milestone_of(agreement_id, milestone_id).state != MilestoneState::Open {
            Some(EscrowError::MilestoneState)
        } else {
            None
        }
    }

    /// The worker submits work on an Open milestone of an Active agreement.
    /// On success the milestone becomes Submitted, records the submission
    /// time, its review deadline (submission plus its review timeout) and
    /// the proof payload; on failure nothing changes.
    pub fn submit_milestone(
        &mut self,
        caller: u64,
        now: u64,
        agreement_id: u64,
        milestone_id: u64,
        proof_uri: Vec<u8>,
    ) -> (r: Result<(), EscrowError>)
        requires
            old(self).wf(),
            old(self).has_milestone(agreement_id, milestone_id) ==> now + old(self).milestone_of(
                agreement_id,
                milestone_id,
            ).review_timeout_seconds <= u64::MAX,
        ensures
            final(self).wf(),
            match r {
                Ok(_) => {
                    &&& old(self).submit_milestone_error(caller, agreement_id, milestone_id,
                        proof_uri@) is None
                    &&& final(self).agreements@.len() == old(self).agreements@.len()
                    &&& forall|i: int|
                        0 <= i < old(self).agreements@.len() && i != agreement_id - 1
                            ==> final(self).agreements@[i] == old(self).agreements@[i]
                    &&& {
                        let o = old(self).rec(agreement_id);
                        let n = final(self).rec(agreement_id);
                        let mi = old(self).milestone_index(agreement_id, milestone_id);
                        let m = old(self).milestone_of(agreement_id, milestone_id);
                        &&& n.agreement == o.agreement
                        &&& n.funding == o.funding
                        &&& n.total_gross_paid == o.total_gross_paid
                        &&& n.total_fees_paid == o.total_fees_paid
                        &&& n.revenue_ledger == o.revenue_ledger
                        &&& n.milestones@.len() == o.milestones@.len()
                        &&& forall|t: int|
                            0 <= t < o.milestones@.len() && t != mi ==> n.milestones@[t]
                                == o.milestones@[t]
                        &&& n.milestones@[mi]@ == (MilestoneView {
                            state: MilestoneState::Submitted,
                            submitted_at: now,
                            review_deadline: (now + m.review_timeout_seconds) as u64,
                            proof_uri: proof_uri@,
                            ..m@
                        })
                    }
                    &&& final(self).claimable@ == old(self).claimable@
                    &&& final(self).reputation@ == old(self).reputation@
                    &&& final(self).consumed@ == old(self).consumed@
                    &&& final(self).active_agreement_count == old(self).active_agreement_count
                    &&& final(self).completed_agreement_count == old(
                        self,
                    ).completed_agreement_count
                    &&& final(self).terminated_agreement_count == old(
                        self,
                    ).terminated_agreement_count
                    &&& final(self).total_gross_payouts == old(self).total_gross_payouts
                    &&& final(self).total_protocol_fees == old(self).total_protocol_fees
                    &&& final(self).total_revenue_deposited == old(self).total_revenue_deposited
                    &&& old(self).same_config(*final(self))
                },
                Err(e) => {
                    &&& Some(e) == old(self).submit_milestone_error(caller, agreement_id,
                        milestone_id, proof_uri@)
                    &&& *final(self) == *old(self)
                },
            },
    {
        if self.paused {
            return Err(EscrowError::Paused);
        }
        if agreement_id == 0 || agreement_id > self.agreements.len() as u64 {
            return Err(EscrowError::InvalidState);
        }
        let idx = (agreement_id - 1) as usize;
        if caller != self.agreements[idx].agreement.worker {
            return Err(EscrowError::Unauthorized);
        }
        if self.agreements[idx].agreement.status != AgreementStatus::Active {
            return Err(EscrowError::InvalidState);
        }
        if proof_uri.len() > MAX_PROOF_URI_LEN {
            return Err(EscrowError::InvalidAmount);
        }
        let mi = match find_milestone(&self.agreements[idx].milestones, milestone_id) {
            Some(mi) => mi,
            None => {
                return Err(EscrowError::InvalidState);
            },
        };
        proof {
            self.lemma_milestone_index_agrees(agreement_id, milestone_id, mi as int);
        }
        if !(self.agreements[idx].milestones[mi].state == MilestoneState::Open) {
            return Err(EscrowError::MilestoneState);
        }
        let timeout = self.agreements[idx].milestones[mi].review_timeout_seconds;
        {
            let m = &mut self.agreements[idx].milestones[mi];
            m.state = MilestoneState::Submitted;
            m.submitted_at = now;
            m.review_deadline = now + timeout;
            m.proof_uri = proof_uri;
        }
        proof {
            self.lemma_milestone_touched_wf(*old(self), agreement_id, mi as int);
        }
        Ok(())
    }

    /// The first failing check of `reject_milestone`, in the order the
    /// checks run. Rejection is allowed only at or before the review
    /// deadline; after it, only auto-approval remains.
    pub open spec fn reject_milestone_error(
        self,
        caller: u64,
        agreement_id: u64,
        milestone_id: u64,
        reason_uri: Seq<u8>,
        now: u64,
    ) -> Option<EscrowError> {
        if self.paused {
            Some(EscrowError::Paused)
        } else if !self.has_agreement(agreement_id) {
            Some(EscrowError::InvalidState)
        } else if caller != self.rec(agreement_id).agreement.employer {
            Some(EscrowError::Unauthorized)
        } else if reason_uri.len() > MAX_REASON_URI_LEN {
            Some(EscrowError::InvalidAmount)
        } else if !self.has_milestone(agreement_id, milestone_id) {
            Some(EscrowError::InvalidState)
        } else if self.milestone_of(agreement_id, milestone_id).state != MilestoneState::Submitted {
            Some(EscrowError::MilestoneState)
        } else if now > self.milestone_of(agreement_id, milestone_id).review_deadline {
            Some(EscrowError::TimeoutNotReached)
        } else {
            None
        }
    }

    /// The employer rejects a Submitted milestone, strictly at or before its
    /// review deadline. On success the milestone becomes Rejected — a
    /// terminal state with no re-submission path — and records the reason
    /// payload; on failure nothing changes.
    pub fn reject_milestone(
        &mut self,
        caller: u64,
        now: u64,
        agreement_id: u64,
        milestone_id: u64,
        reason_uri: Vec<u8>,
    ) -> (r: Result<(), EscrowError>)
        requires
            old(self).wf(),
        ensures
            final(self).wf(),
            match r {
                Ok(_) => {
                    &&& old(self).reject_milestone_error(caller, agreement_id, milestone_id,
                        reason_uri@, now) is None
                    &&& final(self).agreements@.len() == old(self).agreements@.len()
                    &&& forall|i: int|
                        0 <= i < old(self).agreements@.len() && i != agreement_id - 1
                            ==> final(self).agreements@[i] == old(self).agreements@[i]
                    &&& {
                        let o = old(self).rec(agreement_id);
                        let n = final(self).rec(agreement_id);
                        let mi = old(self).milestone_index(agreement_id, milestone_id);
                        let m = old(self).milestone_of(agreement_id, milestone_id);
                        &&& n.agreement == o.agreement
                        &&& n.funding == o.funding
                        &&& n.total_gross_paid == o.total_gross_paid
                        &&& n.total_fees_paid == o.total_fees_paid
                        &&& n.revenue_ledger == o.revenue_ledger
                        &&& n.milestones@.len() == o.milestones@.len()
                        &&& forall|t: int|
                            0 <= t < o.milestones@.len() && t != mi ==> n.milestones@[t]
                                == o.milestones@[t]
                        &&& n.milestones@[mi]@ == (MilestoneView {
                            state: MilestoneState::Rejected,
                            reason_uri: reason_uri@,
                            ..m@
                        })
                    }
                    &&& final(self).claimable@ == old(self).claimable@
                    &&& final(self).reputation@ == old(self).reputation@
                    &&& final(self).consumed@ == old(self).consumed@
                    &&& final(self).active_agreement_count == old(self).active_agreement_count
                    &&& final(self).completed_agreement_count == old(
                        self,
                    ).completed_agreement_count
                    &&& final(self).terminated_agreement_count == old(
                        self,
                    ).terminated_agreement_count
                    &&& final(self).total_gross_payouts == old(self).total_gross_payouts
                    &&& final(self).total_protocol_fees == old(self).total_protocol_fees
                    &&& final(self).total_revenue_deposited == old(self).total_revenue_deposited
                    &&& old(self).same_config(*final(self))
                },
                Err(e) => {
                    &&& Some(e) == old(self).reject_milestone_error(caller, agreement_id,
                        milestone_id, reason_uri@, now)
                    &&& *final(self) == *old(self)
                },
            },
    {
        if self.paused {
            return Err(EscrowError::Paused);
        }
        if agreement_id == 0 || agreement_id > self.agreements.len() as u64 {
            return Err(EscrowError::InvalidState);
        }
        let idx = (agreement_id - 1) as usize;
        if caller != self.agreements[idx].agreement.employer {
            return Err(EscrowError::Unauthorized);
        }
        if reason_uri.len() > MAX_REASON_URI_LEN {
            return Err(EscrowError::InvalidAmount);
        }
        let mi = match find_milestone(&self.agreements[idx].milestones, milestone_id) {
            Some(mi) => mi,
            None => {
                return Err(EscrowError::InvalidState);
            },
        };
        proof {
            self.lemma_milestone_index_agrees(agreement_id, milestone_id, mi as int);
        }
        if !(self.agreements[idx].milestones[mi].state == MilestoneState::Submitted) {
            return Err(EscrowError::MilestoneState);
        }
        if now > self.agreements[idx].milestones[mi].review_deadline {
            return Err(EscrowError::TimeoutNotReached);
        }
        {
            let m = &mut self.agreements[idx].milestones[mi];
            m.state = MilestoneState::Rejected;
            m.reason_uri = reason_uri;
        }
        proof {
            self.lemma_milestone_touched_wf(*old(self), agreement_id, mi as int);
        }
        Ok(())
    }

    /// The index the searching lookup finds is the index the specification
    /// names: milestone ids are unique within an agreement.
    proof fn lemma_milestone_index_agrees(self, agreement_id: u64, milestone_id: u64, found: int)
        requires
            self.wf(),
            self.has_agreement(agreement_id),
            0 <= found < self.rec(agreement_id).milestones@.len(),
            self.rec(agreement_id).milestones@[found].id == milestone_id,
        ensures
            self.has_milestone(agreement_id, milestone_id),
            self.milestone_index(agreement_id, milestone_id) == found,
            self.milestone_of(agreement_id, milestone_id) == self.rec(
                agreement_id,
            ).milestones@[found],
    {
        assert(arec_wf(self.rec(agreement_id), agreement_id));
        let k = self.milestone_index(agreement_id, milestone_id);
        if k != found {
            if k < found {
                assert(self.rec(agreement_id).milestones@[k].id != self.rec(
                    agreement_id,
                ).milestones@[found].id);
            } else {
                assert(self.rec(agreement_id).milestones@[found].id != self.rec(
                    agreement_id,
                ).milestones@[k].id);
            }
        }
    }

    /// An escrow that differs from a well-formed one only in one milestone's
    /// lifecycle fields — never its id, agreement or amount — is well formed
    /// again.
    proof fn lemma_milestone_touched_wf(self, prev: WorkEscrow, agreement_id: u64, mi: int)
        requires
            prev.wf(),
            prev.has_agreement(agreement_id),
            reputation_scores_bounded(self.reputation@),
            self.agreements@.len() == prev.agreements@.len(),
            self.protocol_fee_bps == prev.protocol_fee_bps,
            self.referral_share_bps == prev.referral_share_bps,
            self.termination_penalty_bps == prev.termination_penalty_bps,
            forall|i: int|
                0 <= i < prev.agreements@.len() && i != agreement_id - 1 ==> self.agreements@[i]
                    == prev.agreements@[i],
            ({
                let o = prev.rec(agreement_id);
                let n = self.rec(agreement_id);
                &&& n.agreement == o.agreement
                &&& 0 <= mi < o.milestones@.len()
                &&& n.milestones@.len() == o.milestones@.len()
                &&& forall|t: int|
                    0 <= t < o.milestones@.len() && t != mi ==> n.milestones@[t] == o.milestones@[t]
                &&& n.milestones@[mi].id == o.milestones@[mi].id
                &&& n.milestones@[mi].agreement_id == o.milestones@[mi].agreement_id
                &&& n.milestones@[mi].amount == o.milestones@[mi].amount
            }),
        ensures
            self.wf(),
    {
        assert forall|i: int| 0 <= i < self.agreements@.len() implies arec_wf(
            #[trigger] self.agreements@[i],
            (i + 1) as u64,
        ) by {
            if i != agreement_id - 1 {
                assert(self.agreements@[i] == prev.agreements@[i]);
            } else {
                assert(arec_wf(prev.agreements@[i], (i + 1) as u64));
                let o = prev.rec(agreement_id);
                let n = self.rec(agreement_id);
                assert forall|k1: int, k2: int| 0 <= k1 < k2 < n.milestones@.len() implies (
                #[trigger] n.milestones@[k1]).id != (#[trigger] n.milestones@[k2]).id by {
                    assert(o.milestones@[k1].id != o.milestones@[k2].id);
                }
                assert forall|k: int| 0 <= k < n.milestones@.len() implies (
                #[trigger] n.milestones@[k]).agreement_id == agreement_id && n.milestones@[k].amount
                    <= BPS_SAFE_LIMIT by {
                    assert(o.milestones@[k].agreement_id == agreement_id && o.milestones@[k].amount
                        <= BPS_SAFE_LIMIT);
                }
            }
        }
    }
}

/// Whether every milestone record other than the one at `mi` is Paid: the
/// completion condition just before that one milestone settles.
pub open spec fn milestones_all_paid_except(ms: Seq<Milestone>, mi: int) -> bool {
    forall|t: int|
        0 <= t < ms.len() && t != mi ==> (#[trigger] ms[t]).state == MilestoneState::Paid
}

/// The stored code of a settlement mode.
pub fn settlement_mode_code(mode: MilestoneSettlementMode) -> (r: u8)
    ensures
        r == (if mode == MilestoneSettlementMode::Approved {
            0u8
        } else {
            1u8
        }),
{
    match mode {
        MilestoneSettlementMode::Approved => 0,
        MilestoneSettlementMode::AutoApproved => 1,
    }
}

impl WorkEscrow {
    /// The machine-size conditions under which one milestone settlement,
    /// with its credits, totals, reputation bumps and possible completion,
    /// fits.
    pub open spec fn settle_fits(self, agreement_id: u64, milestone_id: u64, now: u64) -> bool {
        self.has_milestone(agreement_id, milestone_id) ==> {
            let rec = self.rec(agreement_id);
            let a = rec.agreement;
            let gross = self.milestone_of(agreement_id, milestone_id).amount;
            let fee = protocol_fee_spec(gross, a.terms.revenue_share.protocol_fee_bps_snapshot);
            let claim1 = payout_credit_spec(self.claimable@, a, self.treasury, gross);
            &&& payout_credit_fits(self.claimable@, a, self.treasury, gross)
            &&& self.total_protocol_fees + fee <= u128::MAX
            &&& self.total_gross_payouts + gross <= u128::MAX
            &&& rec.total_gross_paid + gross <= u128::MAX
            &&& rec.total_fees_paid + fee <= u128::MAX
            &&& rec.revenue_ledger < u64::MAX
            &&& rep_headroom(self.reputation_of(a.employer))
            &&& rep_headroom(self.reputation_of(a.worker))
            &&& self.completed_agreement_count < u64::MAX
            &&& bal(claim1, a.employer) + rec.funding.employer_bond_locked <= u128::MAX
            &&& bal(credit_spec(claim1, a.employer, rec.funding.employer_bond_locked), a.worker)
                + rec.funding.worker_bond_locked <= u128::MAX
        }
    }

    /// The first failing check of `approve_milestone`, in the order the
    /// checks run. The runway must cover the amount and still meet the
    /// reserved recurring minimum afterwards, so milestone payouts never
    /// starve recurring obligations.
    pub open spec fn approve_milestone_error(
        self,
        caller: u64,
        agreement_id: u64,
        milestone_id: u64,
    ) -> Option<EscrowError> {
        if self.paused {
            Some(EscrowError::Paused)
        } else if !self.has_agreement(agreement_id) {
            Some(EscrowError::InvalidState)
        } else if caller != self.rec(agreement_id).agreement.employer {
            Some(EscrowError::Unauthorized)
        } else if self.rec(agreement_id).agreement.status != AgreementStatus::Active {
            Some(EscrowError::InvalidState)
        } else if !self.has_milestone(agreement_id, milestone_id) {
            Some(EscrowError::InvalidState)
        } else if self.milestone_of(agreement_id, milestone_id).state != MilestoneState::Submitted {
            Some(EscrowError::MilestoneState)
        } else if self.rec(agreement_id).funding.runway_balance < self.milestone_of(agreement_id,
            milestone_id).amount {
            Some(EscrowError::InsufficientRunway)
        } else if self.rec(agreement_id).funding.runway_balance - self.milestone_of(agreement_id,
            milestone_id).amount < self.rec(agreement_id).funding.reserved_recurring_minimum {
            Some(EscrowError::InsufficientRunway)
        } else {
            None
        }
    }

    /// The first failing check of `auto_approve_milestone`, in the order the
    /// checks run: permissionless, but only strictly after the review
    /// deadline has passed.
    pub open spec fn auto_approve_milestone_error(
        self,
        agreement_id: u64,
        milestone_id: u64,
        now: u64,
    ) -> Option<EscrowError> {
        if self.paused {
            Some(EscrowError::Paused)
        } else if !self.has_agreement(agreement_id) {
            Some(EscrowError::InvalidState)
        } else if self.rec(agreement_id).agreement.status != AgreementStatus::Active {
            Some(EscrowError::InvalidState)
        } else if !self.has_milestone(agreement_id, milestone_id) {
            Some(EscrowError::InvalidState)
        } else if self.milestone_of(agreement_id, milestone_id).state != MilestoneState::Submitted {
            Some(EscrowError::MilestoneState)
        } else if now <= self.milestone_of(agreement_id, milestone_id).review_deadline {
            Some(EscrowError::TimeoutNotReached)
        } else if self.rec(agreement_id).funding.runway_balance < self.milestone_of(agreement_id,
            milestone_id).amount {
            Some(EscrowError::InsufficientRunway)
        } else if self.rec(agreement_id).funding.runway_balance - self.milestone_of(agreement_id,
            milestone_id).amount < self.rec(agreement_id).funding.reserved_recurring_minimum {
            Some(EscrowError::InsufficientRunway)
        } else {
            None
        }
    }

    /// What a successful milestone settlement leaves behind, shared by
    /// manual approval and timeout-driven auto-approval: the milestone is
    /// Paid under the given mode, the runway is debited, the split credits
    /// worker, referrer and treasury exactly, the worker earns the
    /// settlement bump, and the agreement completes when this was the last
    /// obligation.
    pub open spec fn settled_milestone_post(
        self,
        prev: WorkEscrow,
        agreement_id: u64,
        milestone_id: u64,
        now: u64,
        mode: u8,
    ) -> bool {
        let o = prev.rec(agreement_id);
        let a = o.agreement;
        let mi = prev.milestone_index(agreement_id, milestone_id);
        let m = prev.milestone_of(agreement_id, milestone_id);
        let gross = m.amount;
        let fee = protocol_fee_spec(gross, a.terms.revenue_share.protocol_fee_bps_snapshot) as u128;
        let paid_funding = FundingState {
            runway_balance: (o.funding.runway_balance - gross) as u128,
            ..o.funding
        };
        let claim1 = payout_credit_spec(prev.claimable@, a, prev.treasury, gross);
        let rep1 = delta_map_spec(prev.reputation@, prev.score_start, a.worker,
            SCORE_DELTA_MILESTONE as int, ReputationReason::WorkerMilestoneSettled, now);
        let completed = recurring_done(a.terms.recurring) && milestones_all_paid_except(
            o.milestones@,
            mi,
        );
        let n = self.rec(agreement_id);
        &&& self.agreements@.len() == prev.agreements@.len()
        &&& (forall|i: int|
            0 <= i < prev.agreements@.len() && i != agreement_id - 1 ==> self.agreements@[i]
                == prev.agreements@[i])
        &&& n.milestones@.len() == o.milestones@.len()
        &&& (forall|t: int|
            0 <= t < o.milestones@.len() && t != mi ==> n.milestones@[t] == o.milestones@[t])
        &&& n.milestones@[mi]@ == (MilestoneView {
            state: MilestoneState::Paid,
            settlement_mode: mode,
            paid_at: now,
            ..m@
        })
        &&& n.total_gross_paid == o.total_gross_paid + gross
        &&& n.total_fees_paid == o.total_fees_paid + fee
        &&& n.revenue_ledger == o.revenue_ledger + 1
        &&& self.total_gross_payouts == prev.total_gross_payouts + gross
        &&& self.total_protocol_fees == prev.total_protocol_fees + fee
        &&& self.total_revenue_deposited == prev.total_revenue_deposited
        &&& (if completed {
            &&& n.agreement == (Agreement { status: AgreementStatus::Completed, ..a })
            &&& n.funding == (FundingState {
                employer_bond_locked: 0,
                worker_bond_locked: 0,
                ..paid_funding
            })
            &&& self.claimable@ == refund_bonds_spec(claim1, a.employer, a.worker,
                o.funding.employer_bond_locked, o.funding.worker_bond_locked)
            &&& self.reputation@ == completion_rep_spec(rep1, prev.score_start, a.employer,
                a.worker, now)
            &&& self.active_agreement_count == (
            if prev.active_agreement_count > 0 {
                (prev.active_agreement_count - 1) as u64
            } else {
                0
            })
            &&& self.completed_agreement_count == prev.completed_agreement_count + 1
        } else {
            &&& n.agreement == a
            &&& n.funding == paid_funding
            &&& self.claimable@ == claim1
            &&& self.reputation@ == rep1
            &&& self.active_agreement_count == prev.active_agreement_count
            &&& self.completed_agreement_count == prev.completed_agreement_count
        })
        &&& self.consumed@ == prev.consumed@
        &&& self.terminated_agreement_count == prev.terminated_agreement_count
        &&& prev.same_config(self)
    }

    /// The employer approves a Submitted milestone. The runway must cover
    /// the amount and still meet the reserved recurring minimum afterwards.
    /// On success the milestone settles as `settled_milestone_post` states,
    /// under the manual mode; on failure nothing changes.
    pub fn approve_milestone(&mut self, caller: u64, now: u64, agreement_id: u64, milestone_id: u64) -> (r:
        Result<(), EscrowError>)
        requires
            old(self).wf(),
            old(self).settle_fits(agreement_id, milestone_id, now),
        ensures
            final(self).wf(),
            match r {
                Ok(_) => {
                    &&& old(self).approve_milestone_error(caller, agreement_id, milestone_id)
                        is None
                    &&& final(self).settled_milestone_post(*old(self), agreement_id, milestone_id,
                        now, 0)
                },
                Err(e) => {
                    &&& Some(e) == old(self).approve_milestone_error(caller, agreement_id,
                        milestone_id)
                    &&& *final(self) == *old(self)
                },
            },
    {
        if self.paused {
            return Err(EscrowError::Paused);
        }
        if agreement_id == 0 || agreement_id > self.agreements.len() as u64 {
            return Err(EscrowError::InvalidState);
        }
        let idx = (agreement_id - 1) as usize;
        if caller != self.agreements[idx].agreement.employer {
            return Err(EscrowError::Unauthorized);
        }
        if self.agreements[idx].agreement.status != AgreementStatus::Active {
            return Err(EscrowError::InvalidState);
        }
        let mi = match find_milestone(&self.agreements[idx].milestones, milestone_id) {
            Some(mi) => mi,
            None => {
                return Err(EscrowError::InvalidState);
            },
        };
        proof {
            self.lemma_milestone_index_agrees(agreement_id, milestone_id, mi as int);
        }
        if !(self.agreements[idx].milestones[mi].state == MilestoneState::Submitted) {
            return Err(EscrowError::MilestoneState);
        }
        let amount = self.agreements[idx].milestones[mi].amount;
        if self.agreements[idx].funding.runway_balance < amount {
            return Err(EscrowError::InsufficientRunway);
        }
        if self.agreements[idx].funding.runway_balance - amount
            < self.agreements[idx].funding.reserved_recurring_minimum {
            return Err(EscrowError::InsufficientRunway);
        }
        let mode = settlement_mode_code(MilestoneSettlementMode::Approved);
        self.settle_milestone_at(agreement_id, idx, mi, amount, now, mode);
        Ok(())
    }

    /// Anyone settles a Submitted milestone whose review deadline has
    /// passed: the timeout-driven path. The same runway conditions apply.
    /// On success the milestone settles as `settled_milestone_post` states,
    /// under the auto mode; on failure nothing changes.
    pub fn auto_approve_milestone(&mut self, now: u64, agreement_id: u64, milestone_id: u64) -> (r:
        Result<(), EscrowError>)
        requires
            old(self).wf(),
            old(self).settle_fits(agreement_id, milestone_id, now),
        ensures
            final(self).wf(),
            match r {
                Ok(_) => {
                    &&& old(self).auto_approve_milestone_error(agreement_id, milestone_id, now)
                        is None
                    &&& final(self).settled_milestone_post(*old(self), agreement_id, milestone_id,
                        now, 1)
                },
                Err(e) => {
                    &&& Some(e) == old(self).auto_approve_milestone_error(agreement_id,
                        milestone_id, now)
                    &&& *final(self) == *old(self)
                },
            },
    {
        if self.paused {
            return Err(EscrowError::Paused);
        }
        if agreement_id == 0 || agreement_id > self.agreements.len() as u64 {
            return Err(EscrowError::InvalidState);
        }
        let idx = (agreement_id - 1) as usize;
        if self.agreements[idx].agreement.status != AgreementStatus::Active {
            return Err(EscrowError::InvalidState);
        }
        let mi = match find_milestone(&self.agreements[idx].milestones, milestone_id) {
            Some(mi) => mi,
            None => {
                return Err(EscrowError::InvalidState);
            },
        };
        proof {
            self.lemma_milestone_index_agrees(agreement_id, milestone_id, mi as int);
        }
        if !(self.agreements[idx].milestones[mi].state == MilestoneState::Submitted) {
            return Err(EscrowError::MilestoneState);
        }
        if now <= self.agreements[idx].milestones[mi].review_deadline {
            return Err(EscrowError::TimeoutNotReached);
        }
        let amount = self.agreements[idx].milestones[mi].amount;
        if self.agreements[idx].funding.runway_balance < amount {
            return Err(EscrowError::InsufficientRunway);
        }
        if self.agreements[idx].funding.runway_balance - amount
            < self.agreements[idx].funding.reserved_recurring_minimum {
            return Err(EscrowError::InsufficientRunway);
        }
        let mode = settlement_mode_code(MilestoneSettlementMode::AutoApproved);
        self.settle_milestone_at(agreement_id, idx, mi, amount, now, mode);
        Ok(())
    }

    /// Settles the milestone at a located index: debits runway, marks it
    /// Paid, credits the split, bumps the worker's reputation and attempts
    /// completion. Shared tail of the two approval paths.
    fn settle_milestone_at(
        &mut self,
        agreement_id: u64,
        idx: usize,
        mi: usize,
        amount: u128,
        now: u64,
        mode: u8,
    )
        requires
            old(self).wf(),
            old(self).has_agreement(agreement_id),
            idx == agreement_id - 1,
            mi < old(self).rec(agreement_id).milestones@.len(),
            old(self).milestone_index(agreement_id, old(self).rec(
                agreement_id,
            ).milestones@[mi as int].id) == mi,
            old(self).rec(agreement_id).agreement.status == AgreementStatus::Active,
            amount == old(self).rec(agreement_id).milestones@[mi as int].amount,
            old(self).rec(agreement_id).funding.runway_balance >= amount,
            old(self).settle_fits(agreement_id, old(self).rec(
                agreement_id,
            ).milestones@[mi as int].id, now),
        ensures
            final(self).wf(),
            final(self).settled_milestone_post(*old(self), agreement_id, old(self).rec(
                agreement_id,
            ).milestones@[mi as int].id, now, mode),
    {
        {
            let rec = &mut self.agreements[idx];
            rec.funding.runway_balance = rec.funding.runway_balance - amount;
            let m = &mut rec.milestones[mi];
            m.state = MilestoneState::Paid;
            m.settlement_mode = mode;
            m.paid_at = now;
        }
        let agreement = self.agreements[idx].agreement;
        let (protocol_fee, _referral_fee, _worker_net) = self.credit_worker_payout(
            agreement,
            amount,
        );
        {
            let rec = &mut self.agreements[idx];
            rec.total_gross_paid = rec.total_gross_paid + amount;
            rec.total_fees_paid = rec.total_fees_paid + protocol_fee;
            rec.revenue_ledger = rec.revenue_ledger + 1;
        }
        self.apply_reputation_delta(
            agreement.worker,
            SCORE_DELTA_MILESTONE,
            ReputationReason::WorkerMilestoneSettled,
            now,
        );
        proof {
            lemma_scores_bounded_after_delta(old(self).reputation@, old(self).score_start,
                agreement.worker, SCORE_DELTA_MILESTONE as int,
                ReputationReason::WorkerMilestoneSettled, now);
            self.lemma_milestone_touched_wf(*old(self), agreement_id, mi as int);
            let o = old(self).rec(agreement_id);
            let cur = self.rec(agreement_id);
            assert(cur.milestones@[mi as int].state == MilestoneState::Paid);
            if milestones_all_paid_except(o.milestones@, mi as int) {
                assert forall|t: int| 0 <= t < cur.milestones@.len() implies (
                #[trigger] cur.milestones@[t]).state == MilestoneState::Paid by {
                    if t != mi as int {
                        assert(cur.milestones@[t] == o.milestones@[t]);
                    }
                }
            }
            if milestones_all_paid(cur.milestones@) {
                assert forall|t: int|
                    0 <= t < o.milestones@.len() && t != mi as int implies (
                #[trigger] o.milestones@[t]).state == MilestoneState::Paid by {
                    assert(o.milestones@[t] == cur.milestones@[t]);
                }
            }
            assert(milestones_all_paid(cur.milestones@) <==> milestones_all_paid_except(
                o.milestones@,
                mi as int,
            ));
        }
        self.try_complete(agreement_id, now);
    }
}

/// The claimable map after one revenue deposit under an agreement's frozen
/// fee parameters: the referrer's cut of the protocol fee first (only with a
/// referrer set), then the worker's profit share, then the employer's
/// remainder, then the treasury's remainder of the fee.
pub open spec fn revenue_credit_spec(
    m: Map<u64, u128>,
    agreement: Agreement,
    treasury: u64,
    gross: u128,
) -> Map<u64, u128> {
    let fee_bps = agreement.terms.revenue_share.protocol_fee_bps_snapshot;
    let referral_bps = agreement.terms.revenue_share.referral_share_bps_snapshot;
    let profit_bps = agreement.terms.revenue_share.profit_share_bps;
    let has_referrer = agreement.referrer != 0;
    let referral = referral_fee_spec(gross, fee_bps, referral_bps, has_referrer) as u128;
    let worker_share = revenue_worker_share_spec(gross, fee_bps, profit_bps) as u128;
    let employer_share = revenue_employer_share_spec(gross, fee_bps, profit_bps) as u128;
    let treasury_fee = treasury_fee_spec(gross, fee_bps, referral_bps, has_referrer) as u128;
    let m1 = if has_referrer {
        credit_spec(m, agreement.referrer, referral)
    } else {
        m
    };
    credit_spec(
        credit_spec(credit_spec(m1, agreement.worker, worker_share), agreement.employer,
            employer_share),
        treasury,
        treasury_fee,
    )
}

/// That the four credits of one revenue deposit all fit in `u128` balances.
pub open spec fn revenue_credit_fits(
    m: Map<u64, u128>,
    agreement: Agreement,
    treasury: u64,
    gross: u128,
) -> bool {
    let fee_bps = agreement.terms.revenue_share.protocol_fee_bps_snapshot;
    let referral_bps = agreement.terms.revenue_share.referral_share_bps_snapshot;
    let profit_bps = agreement.terms.revenue_share.profit_share_bps;
    let has_referrer = agreement.referrer != 0;
    let referral = referral_fee_spec(gross, fee_bps, referral_bps, has_referrer) as u128;
    let worker_share = revenue_worker_share_spec(gross, fee_bps, profit_bps) as u128;
    let employer_share = revenue_employer_share_spec(gross, fee_bps, profit_bps) as u128;
    let treasury_fee = treasury_fee_spec(gross, fee_bps, referral_bps, has_referrer) as u128;
    let m1 = if has_referrer {
        credit_spec(m, agreement.referrer, referral)
    } else {
        m
    };
    let m2 = credit_spec(m1, agreement.worker, worker_share);
    let m3 = credit_spec(m2, agreement.employer, employer_share);
    &&& (has_referrer ==> bal(m, agreement.referrer) + referral <= u128::MAX)
    &&& bal(m1, agreement.worker) + worker_share <= u128::MAX
    &&& bal(m2, agreement.employer) + employer_share <= u128::MAX
    &&& bal(m3, treasury) + treasury_fee <= u128::MAX
}

impl WorkEscrow {
    /// The first failing check of `deposit_revenue`, in the order the checks
    /// run.
    pub open spec fn deposit_revenue_error(self, agreement_id: u64, payment: u128) -> Option<
        EscrowError,
    > {
        if self.paused {
            Some(EscrowError::Paused)
        } else if !self.has_agreement(agreement_id) {
            Some(EscrowError::InvalidState)
        } else if self.rec(agreement_id).agreement.status != AgreementStatus::Active && self.rec(
            agreement_id,
        ).agreement.status != AgreementStatus::NoticePeriod {
            Some(EscrowError::InvalidState)
        } else if payment == 0 {
            Some(EscrowError::InvalidAmount)
        } else {
            None
        }
    }

    /// Anyone deposits ad-hoc revenue on a live agreement: the gross is
    /// split under the agreement's frozen parameters into the protocol fee,
    /// the worker's profit share and the employer's remainder, the fee
    /// further into referral and treasury parts, and all parts are credited
    /// — they sum to the deposit exactly. Runway and bonds are untouched; on
    /// failure nothing changes.
    pub fn deposit_revenue(&mut self, agreement_id: u64, payment: u128) -> (r: Result<
        (),
        EscrowError,
    >)
        requires
            old(self).wf(),
            payment <= BPS_SAFE_LIMIT,
            old(self).has_agreement(agreement_id) ==> {
                let a = old(self).rec(agreement_id).agreement;
                &&& revenue_credit_fits(old(self).claimable@, a, old(self).treasury, payment)
                &&& old(self).total_revenue_deposited + payment <= u128::MAX
                &&& old(self).total_protocol_fees + protocol_fee_spec(payment,
                    a.terms.revenue_share.protocol_fee_bps_snapshot) <= u128::MAX
            },
        ensures
            final(self).wf(),
            match r {
                Ok(_) => {
                    &&& old(self).deposit_revenue_error(agreement_id, payment) is None
                    &&& final(self).agreements@ == old(self).agreements@
                    &&& final(self).claimable@ == revenue_credit_spec(old(self).claimable@, old(
                        self,
                    ).rec(agreement_id).agreement, old(self).treasury, payment)
                    &&& final(self).total_revenue_deposited == old(self).total_revenue_deposited
                        + payment
                    &&& final(self).total_protocol_fees == old(self).total_protocol_fees
                        + protocol_fee_spec(payment, old(self).rec(
                        agreement_id,
                    ).agreement.terms.revenue_share.protocol_fee_bps_snapshot)
                    &&& final(self).total_gross_payouts == old(self).total_gross_payouts
                    &&& final(self).reputation@ == old(self).reputation@
                    &&& final(self).consumed@ == old(self).consumed@
                    &&& final(self).active_agreement_count == old(self).active_agreement_count
                    &&& final(self).completed_agreement_count == old(
                        self,
                    ).completed_agreement_count
                    &&& final(self).terminated_agreement_count == old(
                        self,
                    ).terminated_agreement_count
                    &&& old(self).same_config(*final(self))
                },
                Err(e) => {
                    &&& Some(e) == old(self).deposit_revenue_error(agreement_id, payment)
                    &&& *final(self) == *old(self)
                },
            },
    {
        if self.paused {
            return Err(EscrowError::Paused);
        }
        if agreement_id == 0 || agreement_id > self.agreements.len() as u64 {
            return Err(EscrowError::InvalidState);
        }
        let idx = (agreement_id - 1) as usize;
        let status = self.agreements[idx].agreement.status;
        if status != AgreementStatus::Active && status != AgreementStatus::NoticePeriod {
            return Err(EscrowError::InvalidState);
        }
        if payment == 0 {
            return Err(EscrowError::InvalidAmount);
        }
        let agreement = self.agreements[idx].agreement;
        let (worker_share, employer_share, referral_fee, treasury_fee, protocol_fee) =
            revenue_split(
            payment,
            agreement.terms.revenue_share.protocol_fee_bps_snapshot,
            agreement.terms.revenue_share.referral_share_bps_snapshot,
            agreement.terms.revenue_share.profit_share_bps,
            agreement.referrer != 0,
        );
        if agreement.referrer != 0 {
            self.add_claimable(agreement.referrer, referral_fee);
        }
        self.add_claimable(agreement.worker, worker_share);
        self.add_claimable(agreement.employer, employer_share);
        let treasury = self.treasury;
        self.add_claimable(treasury, treasury_fee);
        self.total_revenue_deposited = self.total_revenue_deposited + payment;
        self.total_protocol_fees = self.total_protocol_fees + protocol_fee;
        Ok(())
    }

    /// The first failing check of `request_terminate`, in the order the
    /// checks run.
    pub open spec fn request_terminate_error(
        self,
        caller: u64,
        agreement_id: u64,
        side: TerminationSide,
    ) -> Option<EscrowError> {
        if self.paused {
            Some(EscrowError::Paused)
        } else if !self.has_agreement(agreement_id) {
            Some(EscrowError::InvalidState)
        } else if self.rec(agreement_id).agreement.status != AgreementStatus::Active {
            Some(EscrowError::InvalidState)
        } else if (side == TerminationSide::Employer && caller != self.rec(
            agreement_id,
        ).agreement.employer) || (side == TerminationSide::Worker && caller != self.rec(
            agreement_id,
        ).agreement.worker) {
            Some(EscrowError::Unauthorized)
        } else {
            None
        }
    }

    /// A party requests unilateral termination of its own side. On success
    /// the agreement enters NoticePeriod with the configured notice window,
    /// records the requesting side, and releases one active count; on
    /// failure nothing changes.
    pub fn request_terminate(
        &mut self,
        caller: u64,
        now: u64,
        agreement_id: u64,
        side: TerminationSide,
    ) -> (r: Result<(), EscrowError>)
        requires
            old(self).wf(),
            now + old(self).default_notice_seconds <= u64::MAX,
        ensures
            final(self).wf(),
            match r {
                Ok(_) => {
                    &&& old(self).request_terminate_error(caller, agreement_id, side) is None
                    &&& final(self).agreements@.len() == old(self).agreements@.len()
                    &&& forall|i: int|
                        0 <= i < old(self).agreements@.len() && i != agreement_id - 1
                            ==> final(self).agreements@[i] == old(self).agreements@[i]
                    &&& {
                        let o = old(self).rec(agreement_id);
                        let n = final(self).rec(agreement_id);
                        &&& n.agreement == (Agreement {
                            status: AgreementStatus::NoticePeriod,
                            notice_start_ts: now,
                            notice_end_ts: (now + old(self).default_notice_seconds) as u64,
                            requested_by_side: if side == TerminationSide::Employer {
                                EMPLOYER_SIDE
                            } else {
                                WORKER_SIDE
                            },
                            ..o.agreement
                        })
                        &&& n.funding == o.funding
                        &&& n.milestones == o.milestones
                        &&& n.total_gross_paid == o.total_gross_paid
                        &&& n.total_fees_paid == o.total_fees_paid
                        &&& n.revenue_ledger == o.revenue_ledger
                    }
                    &&& final(self).active_agreement_count == (
                    if old(self).active_agreement_count > 0 {
                        (old(self).active_agreement_count - 1) as u64
                    } else {
                        0
                    })
                    &&& final(self).claimable@ == old(self).claimable@
                    &&& final(self).reputation@ == old(self).reputation@
                    &&& final(self).consumed@ == old(self).consumed@
                    &&& final(self).completed_agreement_count == old(
                        self,
                    ).completed_agreement_count
                    &&& final(self).terminated_agreement_count == old(
                        self,
                    ).terminated_agreement_count
                    &&& final(self).total_gross_payouts == old(self).total_gross_payouts
                    &&& final(self).total_protocol_fees == old(self).total_protocol_fees
                    &&& final(self).total_revenue_deposited == old(self).total_revenue_deposited
                    &&& old(self).same_config(*final(self))
                },
                Err(e) => {
                    &&& Some(e) == old(self).request_terminate_error(caller, agreement_id, side)
                    &&& *final(self) == *old(self)
                },
            },
    {
        if self.paused {
            return Err(EscrowError::Paused);
        }
        if agreement_id == 0 || agreement_id > self.agreements.len() as u64 {
            return Err(EscrowError::InvalidState);
        }
        let idx = (agreement_id - 1) as usize;
        if self.agreements[idx].agreement.status != AgreementStatus::Active {
            return Err(EscrowError::InvalidState);
        }
        let authorized = match side {
            TerminationSide::Employer => caller == self.agreements[idx].agreement.employer,
            TerminationSide::Worker => caller == self.agreements[idx].agreement.worker,
        };
        if !authorized {
            return Err(EscrowError::Unauthorized);
        }
        let notice = self.default_notice_seconds;
        {
            let rec = &mut self.agreements[idx];
            rec.agreement.status = AgreementStatus::NoticePeriod;
            rec.agreement.notice_start_ts = now;
            rec.agreement.notice_end_ts = now + notice;
            rec.agreement.requested_by_side = match side {
                TerminationSide::Employer => EMPLOYER_SIDE,
                TerminationSide::Worker => WORKER_SIDE,
            };
        }
        if self.active_agreement_count > 0 {
            self.active_agreement_count = self.active_agreement_count - 1;
        }
        proof {
            self.lemma_funding_touched_wf(*old(self), agreement_id);
        }
        Ok(())
    }

    /// The first failing check of `finalize_terminate`, in the order the
    /// checks run: a NoticePeriod agreement whose notice window has elapsed,
    /// or an agreement with a recorded default (whose zero-length notice
    /// window makes it immediately finalizable).
    pub open spec fn finalize_terminate_error(self, agreement_id: u64, now: u64) -> Option<
        EscrowError,
    > {
        if self.paused {
            Some(EscrowError::Paused)
        } else if !self.has_agreement(agreement_id) {
            Some(EscrowError::InvalidState)
        } else {
            let a = self.rec(agreement_id).agreement;
            if !(a.status == AgreementStatus::NoticePeriod || (a.status == AgreementStatus::Active
                && a.default_side != 0)) {
                Some(EscrowError::InvalidState)
            } else if a.default_side == 0 && now < a.notice_end_ts {
                Some(EscrowError::TimeoutNotReached)
            } else {
                None
            }
        }
    }

    /// The side a finalized termination penalizes: the defaulting side when
    /// a default was recorded, else the side that requested termination.
    pub open spec fn penalty_side(a: Agreement) -> u8 {
        if a.default_side != 0 {
            a.default_side
        } else {
            a.requested_by_side
        }
    }

    /// The claimable map after a finalized termination: the penalty — a
    /// basis-point fraction of the penalized side's bond — credits the
    /// counterparty, then both remaining bonds are refunded in full,
    /// employer first. The penalty and the penalized side's refund sum to
    /// that side's bond exactly.
    pub open spec fn terminate_credit_spec(self, agreement_id: u64) -> Map<u64, u128> {
        let rec = self.rec(agreement_id);
        let a = rec.agreement;
        let from_employer = Self::penalty_side(a) == EMPLOYER_SIDE;
        let bond = if from_employer {
            rec.funding.employer_bond_locked
        } else {
            rec.funding.worker_bond_locked
        };
        let penalty = mul_bps_spec(bond, self.termination_penalty_bps) as u128;
        let counterparty = if from_employer {
            a.worker
        } else {
            a.employer
        };
        let employer_refund = if from_employer {
            (rec.funding.employer_bond_locked - penalty) as u128
        } else {
            rec.funding.employer_bond_locked
        };
        let worker_refund = if from_employer {
            rec.funding.worker_bond_locked
        } else {
            (rec.funding.worker_bond_locked - penalty) as u128
        };
        refund_bonds_spec(
            credit_spec(self.claimable@, counterparty, penalty),
            a.employer,
            a.worker,
            employer_refund,
            worker_refund,
        )
    }

    /// The machine-size conditions under which a finalized termination's
    /// penalty and refunds fit.
    pub open spec fn finalize_fits(self, agreement_id: u64, now: u64) -> bool {
        self.has_agreement(agreement_id) ==> {
            let rec = self.rec(agreement_id);
            let a = rec.agreement;
            let from_employer = Self::penalty_side(a) == EMPLOYER_SIDE;
            let bond = if from_employer {
                rec.funding.employer_bond_locked
            } else {
                rec.funding.worker_bond_locked
            };
            let penalty = mul_bps_spec(bond, self.termination_penalty_bps) as u128;
            let counterparty = if from_employer {
                a.worker
            } else {
                a.employer
            };
            let m1 = credit_spec(self.claimable@, counterparty, penalty);
            let employer_refund = if from_employer {
                (rec.funding.employer_bond_locked - penalty) as u128
            } else {
                rec.funding.employer_bond_locked
            };
            let worker_refund = if from_employer {
                rec.funding.worker_bond_locked
            } else {
                (rec.funding.worker_bond_locked - penalty) as u128
            };
            &&& bond * self.termination_penalty_bps <= u128::MAX
            &&& bal(self.claimable@, counterparty) + penalty <= u128::MAX
            &&& bal(m1, a.employer) + employer_refund <= u128::MAX
            &&& bal(credit_spec(m1, a.employer, employer_refund), a.worker) + worker_refund
                <= u128::MAX
            &&& self.terminated_agreement_count < u64::MAX
            &&& counters_ok(self.reputation_of(a.employer))
            &&& counters_ok(self.reputation_of(a.worker))
        }
    }

    /// The reason a finalized termination records: the recorded default
    /// side wins, else the side that requested termination.
    pub open spec fn termination_reason(a: Agreement) -> TerminationReason {
        if a.default_side == EMPLOYER_SIDE {
            TerminationReason::EmployerDefault
        } else if a.default_side == WORKER_SIDE {
            TerminationReason::WorkerDefault
        } else if a.requested_by_side == EMPLOYER_SIDE {
            TerminationReason::UnilateralEmployer
        } else {
            TerminationReason::UnilateralWorker
        }
    }

    /// Finalizes a termination, permissionlessly: allowed once the notice
    /// window has elapsed, or at once when a default was recorded. The
    /// penalized side — the defaulting side, else the requester — forfeits a
    /// basis-point fraction of its bond to the counterparty, both remaining
    /// bonds are refunded in full, a unilateral requester loses reputation,
    /// and the agreement becomes Terminated; the recorded reason is
    /// returned. On failure nothing changes.
    pub fn finalize_terminate(&mut self, now: u64, agreement_id: u64) -> (r: Result<
        TerminationReason,
        EscrowError,
    >)
        requires
            old(self).wf(),
            old(self).finalize_fits(agreement_id, now),
        ensures
            final(self).wf(),
            match r {
                Ok(reason) => {
                    &&& old(self).finalize_terminate_error(agreement_id, now) is None
                    &&& reason == Self::termination_reason(old(self).rec(agreement_id).agreement)
                    &&& final(self).agreements@.len() == old(self).agreements@.len()
                    &&& forall|i: int|
                        0 <= i < old(self).agreements@.len() && i != agreement_id - 1
                            ==> final(self).agreements@[i] == old(self).agreements@[i]
                    &&& {
                        let o = old(self).rec(agreement_id);
                        let a = o.agreement;
                        let n = final(self).rec(agreement_id);
                        &&& n.agreement == (Agreement { status: AgreementStatus::Terminated, ..a })
                        &&& n.funding == (FundingState {
                            employer_bond_locked: 0,
                            worker_bond_locked: 0,
                            ..o.funding
                        })
                        &&& n.milestones == o.milestones
                        &&& n.total_gross_paid == o.total_gross_paid
                        &&& n.total_fees_paid == o.total_fees_paid
                        &&& n.revenue_ledger == o.revenue_ledger
                        &&& final(self).claimable@ == old(self).terminate_credit_spec(agreement_id)
                        &&& final(self).reputation@ == (if a.default_side == EMPLOYER_SIDE
                            || a.default_side == WORKER_SIDE {
                            old(self).reputation@
                        } else if a.requested_by_side == EMPLOYER_SIDE {
                            delta_map_spec(old(self).reputation@, old(self).score_start, a.employer,
                                SCORE_DELTA_UNILATERAL as int, ReputationReason::UnilateralTerminate,
                                now)
                        } else {
                            delta_map_spec(old(self).reputation@, old(self).score_start, a.worker,
                                SCORE_DELTA_UNILATERAL as int, ReputationReason::UnilateralTerminate,
                                now)
                        })
                    }
                    &&& final(self).terminated_agreement_count == old(
                        self,
                    ).terminated_agreement_count + 1
                    &&& final(self).active_agreement_count == old(self).active_agreement_count
                    &&& final(self).completed_agreement_count == old(
                        self,
                    ).completed_agreement_count
                    &&& final(self).consumed@ == old(self).consumed@
                    &&& final(self).total_gross_payouts == old(self).total_gross_payouts
                    &&& final(self).total_protocol_fees == old(self).total_protocol_fees
                    &&& final(self).total_revenue_deposited == old(self).total_revenue_deposited
                    &&& old(self).same_config(*final(self))
                },
                Err(e) => {
                    &&& Some(e) == old(self).finalize_terminate_error(agreement_id, now)
                    &&& *final(self) == *old(self)
                },
            },
    {
        if self.paused {
            return Err(EscrowError::Paused);
        }
        if agreement_id == 0 || agreement_id > self.agreements.len() as u64 {
            return Err(EscrowError::InvalidState);
        }
        let idx = (agreement_id - 1) as usize;
        let a = self.agreements[idx].agreement;
        if !(a.status == AgreementStatus::NoticePeriod || (a.status == AgreementStatus::Active
            && a.default_side != 0)) {
            return Err(EscrowError::InvalidState);
        }
        let default_shortcut = a.default_side != 0;
        if !default_shortcut && now < a.notice_end_ts {
            return Err(EscrowError::TimeoutNotReached);
        }

        let penalty_from_side = if a.default_side != 0 {
            a.default_side
        } else {
            a.requested_by_side
        };
        let from_employer = penalty_from_side == EMPLOYER_SIDE;
        let employer_bond = self.agreements[idx].funding.employer_bond_locked;
        let worker_bond = self.agreements[idx].funding.worker_bond_locked;
        let bond = if from_employer {
            employer_bond
        } else {
            worker_bond
        };
        let counterparty = if from_employer {
            a.worker
        } else {
            a.employer
        };
        let penalty = mul_bps(bond, self.termination_penalty_bps);
        proof {
            crate::math::lemma_mul_bps_bounds(bond, self.termination_penalty_bps);
        }
        if penalty > 0 {
            self.add_claimable(counterparty, penalty);
        }
        let employer_refund = if from_employer {
            employer_bond - penalty
        } else {
            employer_bond
        };
        let worker_refund = if from_employer {
            worker_bond
        } else {
            worker_bond - penalty
        };
        if employer_refund > 0 {
            self.add_claimable(a.employer, employer_refund);
        }
        if worker_refund > 0 {
            self.add_claimable(a.worker, worker_refund);
        }
        {
            let rec = &mut self.agreements[idx];
            rec.funding.employer_bond_locked = 0;
            rec.funding.worker_bond_locked = 0;
        }
        let reason = if a.default_side == EMPLOYER_SIDE {
            // the employer's reputation already paid at default time
            TerminationReason::EmployerDefault
        } else if a.default_side == WORKER_SIDE {
            TerminationReason::WorkerDefault
        } else if a.requested_by_side == EMPLOYER_SIDE {
            self.apply_reputation_delta(
                a.employer,
                SCORE_DELTA_UNILATERAL,
                ReputationReason::UnilateralTerminate,
                now,
            );
            TerminationReason::UnilateralEmployer
        } else {
            self.apply_reputation_delta(
                a.worker,
                SCORE_DELTA_UNILATERAL,
                ReputationReason::UnilateralTerminate,
                now,
            );
            TerminationReason::UnilateralWorker
        };
        {
            let rec = &mut self.agreements[idx];
            rec.agreement.status = AgreementStatus::Terminated;
        }
        self.terminated_agreement_count = self.terminated_agreement_count + 1;
        proof {
            if a.default_side != EMPLOYER_SIDE && a.default_side != WORKER_SIDE {
                if a.requested_by_side == EMPLOYER_SIDE {
                    lemma_scores_bounded_after_delta(old(self).reputation@, old(self).score_start,
                        a.employer, SCORE_DELTA_UNILATERAL as int,
                        ReputationReason::UnilateralTerminate, now);
                } else {
                    lemma_scores_bounded_after_delta(old(self).reputation@, old(self).score_start,
                        a.worker, SCORE_DELTA_UNILATERAL as int,
                        ReputationReason::UnilateralTerminate, now);
                }
            }
            self.lemma_funding_touched_wf(*old(self), agreement_id);
        }
        Ok(reason)
    }

    /// The first failing check of `withdraw_claimable`, in the order the
    /// checks run: the pause toggle blocks every state-changing entry point,
    /// withdrawal included; then a zero balance fails.
    pub open spec fn withdraw_error(self, caller: u64) -> Option<EscrowError> {
        if self.paused {
            Some(EscrowError::Paused)
        } else if self.claimable_of(caller) == 0 {
            Some(EscrowError::NothingToWithdraw)
        } else {
            None
        }
    }

    /// The caller pulls its whole accumulated claimable balance: the balance
    /// zeroes and the amount — returned for the caller's edge to transfer —
    /// is exactly what had accumulated. A paused ledger and a zero balance
    /// both fail.
    pub fn withdraw_claimable(&mut self, caller: u64) -> (r: Result<u128, EscrowError>)
        requires
            old(self).wf(),
        ensures
            final(self).wf(),
            match r {
                Ok(amount) => {
                    &&& old(self).withdraw_error(caller) is None
                    &&& amount == old(self).claimable_of(caller)
                    &&& amount > 0
                    &&& final(self).claimable@ == old(self).claimable@.insert(caller, 0)
                    &&& final(self).claimable_of(caller) == 0
                    &&& *final(self) == (WorkEscrow {
                        claimable: final(self).claimable,
                        ..*old(self)
                    })
                },
                Err(e) => {
                    &&& Some(e) == old(self).withdraw_error(caller)
                    &&& *final(self) == *old(self)
                },
            },
    {
        if self.paused {
            return Err(EscrowError::Paused);
        }
        let amount = self.get_claimable(caller);
        if amount == 0 {
            return Err(EscrowError::NothingToWithdraw);
        }
        self.claimable.insert(caller, 0);
        Ok(amount)
    }
}

impl WorkEscrow {
    /// Owner-only: sets the protocol fee fraction; future activations
    /// snapshot it, existing agreements keep their frozen value.
    pub fn set_protocol_fee_bps(&mut self, caller: u64, value: u64) -> (r: Result<(), EscrowError>)
        requires
            old(self).wf(),
        ensures
            final(self).wf(),
            match r {
                Ok(_) => caller == old(self).owner && value <= BPS_DENOMINATOR && *final(self)
                    == (WorkEscrow { protocol_fee_bps: value, ..*old(self) }),
                Err(e) => *final(self) == *old(self) && (if caller != old(self).owner {
                    e == EscrowError::Unauthorized
                } else {
                    value > BPS_DENOMINATOR && e == EscrowError::InvalidBps
                }),
            },
    {
        if caller != self.owner {
            return Err(EscrowError::Unauthorized);
        }
        if value > BPS_DENOMINATOR {
            return Err(EscrowError::InvalidBps);
        }
        self.protocol_fee_bps = value;
        Ok(())
    }

    /// Owner-only: sets the referral share fraction; snapshot semantics as
    /// for the protocol fee.
    pub fn set_referral_share_bps(&mut self, caller: u64, value: u64) -> (r: Result<
        (),
        EscrowError,
    >)
        requires
            old(self).wf(),
        ensures
            final(self).wf(),
            match r {
                Ok(_) => caller == old(self).owner && value <= BPS_DENOMINATOR && *final(self)
                    == (WorkEscrow { referral_share_bps: value, ..*old(self) }),
                Err(e) => *final(self) == *old(self) && (if caller != old(self).owner {
                    e == EscrowError::Unauthorized
                } else {
                    value > BPS_DENOMINATOR && e == EscrowError::InvalidBps
                }),
            },
    {
        if caller != self.owner {
            return Err(EscrowError::Unauthorized);
        }
        if value > BPS_DENOMINATOR {
            return Err(EscrowError::InvalidBps);
        }
        self.referral_share_bps = value;
        Ok(())
    }

    /// Owner-only: points the treasury at a nonzero account.
    pub fn set_treasury(&mut self, caller: u64, addr: u64) -> (r: Result<(), EscrowError>)
        requires
            old(self).wf(),
        ensures
            final(self).wf(),
            match r {
                Ok(_) => caller == old(self).owner && addr != 0 && *final(self) == (WorkEscrow {
                    treasury: addr,
                    ..*old(self)
                }),
                Err(e) => *final(self) == *old(self) && (if caller != old(self).owner {
                    e == EscrowError::Unauthorized
                } else {
                    addr == 0 && e == EscrowError::InvalidAmount
                }),
            },
    {
        if caller != self.owner {
            return Err(EscrowError::Unauthorized);
        }
        if addr == 0 {
            return Err(EscrowError::InvalidAmount);
        }
        self.treasury = addr;
        Ok(())
    }

    /// Owner-only: sets the eligibility threshold.
    pub fn set_min_uptime_score(&mut self, caller: u64, value: u64) -> (r: Result<(), EscrowError>)
        requires
            old(self).wf(),
        ensures
            final(self).wf(),
            match r {
                Ok(_) => caller == old(self).owner && *final(self) == (WorkEscrow {
                    min_uptime_score: value,
                    ..*old(self)
                }),
                Err(e) => caller != old(self).owner && e == EscrowError::Unauthorized && *final(self) == *old(self),
            },
    {
        if caller != self.owner {
            return Err(EscrowError::Unauthorized);
        }
        self.min_uptime_score = value;
        Ok(())
    }

    /// The first failing check of `set_risk_params`, in the order the checks
    /// run.
    pub open spec fn risk_params_error(
        self,
        caller: u64,
        min_employer_bond: u128,
        min_worker_bond: u128,
        min_runway_periods: u64,
        default_notice_seconds: u64,
        termination_penalty_bps: u64,
        milestone_review_timeout_seconds: u64,
        max_milestones_per_agreement: u64,
    ) -> Option<EscrowError> {
        if caller != self.owner {
            Some(EscrowError::Unauthorized)
        } else if min_employer_bond == 0 || min_worker_bond == 0 || min_runway_periods == 0
            || default_notice_seconds == 0 {
            Some(EscrowError::InvalidAmount)
        } else if termination_penalty_bps > BPS_DENOMINATOR {
            Some(EscrowError::InvalidBps)
        } else if milestone_review_timeout_seconds == 0 || max_milestones_per_agreement == 0 {
            Some(EscrowError::InvalidAmount)
        } else {
            None
        }
    }

    /// Owner-only: adjusts all risk parameters at once, with the same
    /// validations as at construction. Existing agreements are untouched.
    pub fn set_risk_params(
        &mut self,
        caller: u64,
        min_employer_bond: u128,
        min_worker_bond: u128,
        min_runway_periods: u64,
        default_notice_seconds: u64,
        termination_penalty_bps: u64,
        milestone_review_timeout_seconds: u64,
        max_milestones_per_agreement: u64,
        score_start: u64,
    ) -> (r: Result<(), EscrowError>)
        requires
            old(self).wf(),
        ensures
            final(self).wf(),
            match r {
                Ok(_) => {
                    &&& old(self).risk_params_error(caller, min_employer_bond, min_worker_bond,
                        min_runway_periods, default_notice_seconds, termination_penalty_bps,
                        milestone_review_timeout_seconds, max_milestones_per_agreement) is None
                    &&& *final(self) == (WorkEscrow {
                        min_employer_bond,
                        min_worker_bond,
                        min_runway_periods,
                        default_notice_seconds,
                        termination_penalty_bps,
                        milestone_review_timeout_seconds,
                        max_milestones_per_agreement,
                        score_start,
                        ..*old(self)
                    })
                },
                Err(e) => {
                    &&& Some(e) == old(self).risk_params_error(caller, min_employer_bond,
                        min_worker_bond, min_runway_periods, default_notice_seconds,
                        termination_penalty_bps, milestone_review_timeout_seconds,
                        max_milestones_per_agreement)
                    &&& *final(self) == *old(self)
                },
            },
    {
        if caller != self.owner {
            return Err(EscrowError::Unauthorized);
        }
        if min_employer_bond == 0 || min_worker_bond == 0 || min_runway_periods == 0
            || default_notice_seconds == 0 {
            return Err(EscrowError::InvalidAmount);
        }
        if termination_penalty_bps > BPS_DENOMINATOR {
            return Err(EscrowError::InvalidBps);
        }
        if milestone_review_timeout_seconds == 0 || max_milestones_per_agreement == 0 {
            return Err(EscrowError::InvalidAmount);
        }
        self.min_employer_bond = min_employer_bond;
        self.min_worker_bond = min_worker_bond;
        self.min_runway_periods = min_runway_periods;
        self.default_notice_seconds = default_notice_seconds;
        self.termination_penalty_bps = termination_penalty_bps;
        self.milestone_review_timeout_seconds = milestone_review_timeout_seconds;
        self.max_milestones_per_agreement = max_milestones_per_agreement;
        self.score_start = score_start;
        Ok(())
    }

    /// Owner-only: pauses or unpauses every state-changing entry point.
    pub fn set_paused(&mut self, caller: u64, paused: bool) -> (r: Result<(), EscrowError>)
        requires
            old(self).wf(),
        ensures
            final(self).wf(),
            match r {
                Ok(_) => caller == old(self).owner && *final(self) == (WorkEscrow {
                    paused,
                    ..*old(self)
                }),
                Err(e) => caller != old(self).owner && e == EscrowError::Unauthorized && *final(self) == *old(self),
            },
    {
        if caller != self.owner {
            return Err(EscrowError::Unauthorized);
        }
        self.paused = paused;
        Ok(())
    }

    /// Owner-only: hands ownership to a nonzero account.
    pub fn set_owner(&mut self, caller: u64, new_owner: u64) -> (r: Result<(), EscrowError>)
        requires
            old(self).wf(),
        ensures
            final(self).wf(),
            match r {
                Ok(_) => caller == old(self).owner && new_owner != 0 && *final(self) == (WorkEscrow {
                    owner: new_owner,
                    ..*old(self)
                }),
                Err(e) => *final(self) == *old(self) && (if caller != old(self).owner {
                    e == EscrowError::Unauthorized
                } else {
                    new_owner == 0 && e == EscrowError::InvalidAmount
                }),
            },
    {
        if caller != self.owner {
            return Err(EscrowError::Unauthorized);
        }
        if new_owner == 0 {
            return Err(EscrowError::InvalidAmount);
        }
        self.owner = new_owner;
        Ok(())
    }

    /// The agreement with this id, if it exists.
    pub fn get_agreement(&self, agreement_id: u64) -> (r: Option<Agreement>)
        requires
            self.wf(),
        ensures
            match r {
                Some(a) => self.has_agreement(agreement_id) && a == self.rec(
                    agreement_id,
                ).agreement,
                None => !self.has_agreement(agreement_id),
            },
    {
        if agreement_id == 0 || agreement_id > self.agreements.len() as u64 {
            return None;
        }
        Some(self.agreements[(agreement_id - 1) as usize].agreement)
    }

    /// The balances around an agreement: its funding state, the claimables
    /// of all four claimant classes, and its running payout totals.
    pub fn get_agreement_financials(&self, agreement_id: u64) -> (r: Result<
        AgreementFinancials,
        EscrowError,
    >)
        requires
            self.wf(),
        ensures
            match r {
                Ok(f) => {
                    &&& self.has_agreement(agreement_id)
                    &&& f.funding == self.rec(agreement_id).funding
                    &&& f.worker_claimable == self.claimable_of(self.rec(
                        agreement_id,
                    ).agreement.worker)
                    &&& f.employer_claimable == self.claimable_of(self.rec(
                        agreement_id,
                    ).agreement.employer)
                    &&& f.referrer_claimable == (if self.rec(agreement_id).agreement.referrer == 0 {
                        0
                    } else {
                        self.claimable_of(self.rec(agreement_id).agreement.referrer)
                    })
                    &&& f.treasury_claimable == self.claimable_of(self.treasury)
                    &&& f.total_gross_paid == self.rec(agreement_id).total_gross_paid
                    &&& f.total_fees_paid == self.rec(agreement_id).total_fees_paid
                },
                Err(e) => e == EscrowError::InvalidState && !self.has_agreement(agreement_id),
            },
    {
        if agreement_id == 0 || agreement_id > self.agreements.len() as u64 {
            return Err(EscrowError::InvalidState);
        }
        let idx = (agreement_id - 1) as usize;
        let a = self.agreements[idx].agreement;
        Ok(
            AgreementFinancials {
                funding: self.agreements[idx].funding,
                worker_claimable: self.get_claimable(a.worker),
                employer_claimable: self.get_claimable(a.employer),
                referrer_claimable: if a.referrer == 0 {
                    0
                } else {
                    self.get_claimable(a.referrer)
                },
                treasury_claimable: self.get_claimable(self.treasury),
                total_gross_paid: self.agreements[idx].total_gross_paid,
                total_fees_paid: self.agreements[idx].total_fees_paid,
            },
        )
    }

    /// The milestone with this id under the agreement, if it exists.
    pub fn get_milestone(&self, agreement_id: u64, milestone_id: u64) -> (r: Option<Milestone>)
        requires
            self.wf(),
        ensures
            match r {
                Some(m) => self.has_milestone(agreement_id, milestone_id) && m@ == self
                    .milestone_of(agreement_id, milestone_id)@,
                None => !self.has_milestone(agreement_id, milestone_id),
            },
    {
        if agreement_id == 0 || agreement_id > self.agreements.len() as u64 {
            return None;
        }
        let idx = (agreement_id - 1) as usize;
        match find_milestone(&self.agreements[idx].milestones, milestone_id) {
            Some(mi) => {
                proof {
                    self.lemma_milestone_index_agrees(agreement_id, milestone_id, mi as int);
                }
                Some(self.agreements[idx].milestones[mi].clone())
            },
            None => None,
        }
    }

    /// The reputation snapshot an agent reads as.
    pub fn get_agent_reputation(&self, agent: u64) -> (r: ReputationSnapshot)
        ensures
            r == self.reputation_of(agent),
    {
        self.load_reputation(agent)
    }

    /// The protocol-wide counters and totals.
    pub fn get_protocol_stats(&self) -> (r: ProtocolStats)
        ensures
            r.total_agreements == self.agreements@.len(),
            r.active_agreements == self.active_agreement_count,
            r.completed_agreements == self.completed_agreement_count,
            r.terminated_agreements == self.terminated_agreement_count,
            r.total_gross_payouts == self.total_gross_payouts,
            r.total_protocol_fees == self.total_protocol_fees,
            r.total_revenue_deposited == self.total_revenue_deposited,
    {
        ProtocolStats {
            total_agreements: self.agreements.len() as u64,
            active_agreements: self.active_agreement_count,
            completed_agreements: self.completed_agreement_count,
            terminated_agreements: self.terminated_agreement_count,
            total_gross_payouts: self.total_gross_payouts,
            total_protocol_fees: self.total_protocol_fees,
            total_revenue_deposited: self.total_revenue_deposited,
        }
    }

    /// The escrow's configuration.
    pub fn get_config(&self) -> (r: EscrowConfig)
        ensures
            r.owner == self.owner,
            r.job_board == self.job_board,
            r.bond_registry == self.bond_registry,
            r.uptime == self.uptime,
            r.treasury == self.treasury,
            r.min_uptime_score == self.min_uptime_score,
            r.protocol_fee_bps == self.protocol_fee_bps,
            r.referral_share_bps == self.referral_share_bps,
            r.min_employer_bond == self.min_employer_bond,
            r.min_worker_bond == self.min_worker_bond,
            r.min_runway_periods == self.min_runway_periods,
            r.default_notice_seconds == self.default_notice_seconds,
            r.termination_penalty_bps == self.termination_penalty_bps,
            r.milestone_review_timeout_seconds == self.milestone_review_timeout_seconds,
            r.max_milestones_per_agreement == self.max_milestones_per_agreement,
            r.score_start == self.score_start,
            r.paused == self.paused,
    {
        EscrowConfig {
            owner: self.owner,
            job_board: self.job_board,
            bond_registry: self.bond_registry,
            uptime: self.uptime,
            treasury: self.treasury,
            min_uptime_score: self.min_uptime_score,
            protocol_fee_bps: self.protocol_fee_bps,
            referral_share_bps: self.referral_share_bps,
            min_employer_bond: self.min_employer_bond,
            min_worker_bond: self.min_worker_bond,
            min_runway_periods: self.min_runway_periods,
            default_notice_seconds: self.default_notice_seconds,
            termination_penalty_bps: self.termination_penalty_bps,
            milestone_review_timeout_seconds: self.milestone_review_timeout_seconds,
            max_milestones_per_agreement: self.max_milestones_per_agreement,
            score_start: self.score_start,
            paused: self.paused,
        }
    }

    /// A consumed (job, offer) pair can never activate again: whatever the
    /// board says, whoever calls, `activate_agreement` fails — the second
    /// half of single acceptance, after the board's matched-job gate.
    pub proof fn lemma_consumed_offer_never_activates(
        self,
        board: JobBoardCore,
        registry: BondRegistryMock,
        oracle: UptimeMock,
        caller: u64,
        job_id: u64,
        offer_id: u64,
    )
        requires
            self.is_consumed(job_id, offer_id),
        ensures
            self.activate_error(board, registry, oracle, caller, job_id, offer_id) is Some,
            !self.paused ==> self.activate_error(board, registry, oracle, caller, job_id, offer_id)
                == Some(EscrowError::OfferConsumed),
    {
    }

    /// Rejection and auto-approval of one submission can never both be open
    /// at the same instant: rejection demands the review deadline not yet
    /// passed, auto-approval demands it strictly passed.
    pub proof fn lemma_milestone_review_boundary(
        self,
        caller: u64,
        agreement_id: u64,
        milestone_id: u64,
        reason_uri: Seq<u8>,
        now: u64,
    )
        ensures
            !(self.reject_milestone_error(caller, agreement_id, milestone_id, reason_uri, now)
                is None && self.auto_approve_milestone_error(agreement_id, milestone_id, now)
                is None),
            self.reject_milestone_error(caller, agreement_id, milestone_id, reason_uri, now)
                is None ==> now <= self.milestone_of(agreement_id, milestone_id).review_deadline,
            self.auto_approve_milestone_error(agreement_id, milestone_id, now) is None ==> now
                > self.milestone_of(agreement_id, milestone_id).review_deadline,
    {
    }
}

/// One credit moves exactly one balance, by exactly the credited amount:
/// the ledger neither leaks nor double-counts on any single credit, which
/// lifts the split-level conservation of value onto claimable balances.
pub proof fn lemma_credit_changes_one_balance(m: Map<u64, u128>, account: u64, amount: u128)
    requires
        bal(m, account) + amount <= u128::MAX,
    ensures
        bal(credit_spec(m, account, amount), account) == bal(m, account) + amount,
        forall|other: u64| other != account ==> bal(#[trigger] credit_spec(m, account, amount),
            other) == bal(m, other),
{
}

/// A state whose consumed list just gained a (job, offer) pair reports that
/// pair consumed: with `lemma_consumed_offer_never_activates`, an activation
/// that succeeded blocks every later activation of the same pair.
pub proof fn lemma_activation_marks_consumed(
    pre: WorkEscrow,
    post: WorkEscrow,
    job_id: u64,
    offer_id: u64,
)
    requires
        post.consumed@ == pre.consumed@.push((job_id, offer_id)),
    ensures
        post.is_consumed(job_id, offer_id),
{
    assert(post.consumed@[post.consumed@.len() - 1] == (job_id, offer_id));
}

/// A reputation score inside `[SCORE_MIN, SCORE_MAX]` stays inside it under
/// any single delta, positive or negative and of any magnitude — and hence
/// under every sequence of deltas.
pub proof fn lemma_reputation_score_bounded(
    rep: ReputationSnapshot,
    delta: int,
    reason: ReputationReason,
    now: u64,
)
    requires
        SCORE_MIN <= rep.score <= SCORE_MAX,
    ensures
        SCORE_MIN <= apply_delta_spec(rep, delta, reason, now).score <= SCORE_MAX,
{
}

/// A snapshot after a whole sequence of reputation deltas, applied in order.
pub open spec fn apply_deltas_spec(
    rep: ReputationSnapshot,
    deltas: Seq<(int, ReputationReason)>,
    now: u64,
) -> ReputationSnapshot
    decreases deltas.len(),
{
    if deltas.len() == 0 {
        rep
    } else {
        apply_delta_spec(
            apply_deltas_spec(rep, deltas.drop_last(), now),
            deltas.last().0,
            deltas.last().1,
            now,
        )
    }
}

/// A reputation score inside `[SCORE_MIN, SCORE_MAX]` stays inside it under
/// every sequence of deltas, in any order and of any magnitudes — repeated
/// large negative deltas included.
pub proof fn lemma_reputation_score_bounded_by_sequence(
    rep: ReputationSnapshot,
    deltas: Seq<(int, ReputationReason)>,
    now: u64,
)
    requires
        SCORE_MIN <= rep.score <= SCORE_MAX,
    ensures
        SCORE_MIN <= apply_deltas_spec(rep, deltas, now).score <= SCORE_MAX,
    decreases deltas.len(),
{
    if deltas.len() > 0 {
        lemma_reputation_score_bounded_by_sequence(rep, deltas.drop_last(), now);
        lemma_reputation_score_bounded(
            apply_deltas_spec(rep, deltas.drop_last(), now),
            deltas.last().0,
            deltas.last().1,
            now,
        );
    }
}

/// The larger of two amounts.
pub fn max_amount(a: u128, b: u128) -> (r: u128)
    ensures
        r == if a > b {
            a
        } else {
            b
        },
{
    if a > b {
        a
    } else {
        b
    }
}

/// The smaller of two amounts.
pub fn min_amount(a: u128, b: u128) -> (r: u128)
    ensures
        r == if a < b {
            a
        } else {
            b
        },
{
    if a < b {
        a
    } else {
        b
    }
}

/// The runway floor reserved for future recurring pay: the per-period amount
/// times the configured minimum number of runway periods, computed once at
/// activation and never recomputed.
pub fn compute_reserved_runway(amount_per_period: u128, periods: u64) -> (r: u128)
    requires
        amount_per_period * periods <= u128::MAX,
    ensures
        r == amount_per_period * periods,
{
    amount_per_period * (periods as u128)
}

/// A milestone record as activation materializes it from one offer
/// milestone: Open, with the configured review timeout standing in for a
/// zero one.
pub open spec fn milestone_from_spec(
    m: MilestoneSpecView,
    agreement_id: u64,
    default_timeout: u64,
) -> MilestoneView {
    MilestoneView {
        id: m.id,
        agreement_id,
        amount: m.amount,
        due_ts: m.due_ts,
        review_timeout_seconds: if m.review_timeout_seconds > 0 {
            m.review_timeout_seconds
        } else {
            default_timeout
        },
        metadata_uri: m.metadata_uri,
        state: MilestoneState::Open,
        submitted_at: 0,
        review_deadline: 0,
        proof_uri: Seq::empty(),
        reason_uri: Seq::empty(),
        settlement_mode: 0,
        paid_at: 0,
    }
}

/// Keyed insertion: a milestone replaces an existing one with its id, else
/// it is appended.
pub open spec fn upsert_milestone(s: Seq<MilestoneView>, m: MilestoneView) -> Seq<MilestoneView> {
    if exists|k: int| 0 <= k < s.len() && (#[trigger] s[k]).id == m.id {
        s.update(choose|k: int| 0 <= k < s.len() && (#[trigger] s[k]).id == m.id, m)
    } else {
        s.push(m)
    }
}

/// The milestone records activation materializes from an offer's milestone
/// list, inserted in order with keyed overwrite.
pub open spec fn materialized_milestones(
    specs: Seq<MilestoneSpecView>,
    agreement_id: u64,
    default_timeout: u64,
) -> Seq<MilestoneView>
    decreases specs.len(),
{
    if specs.len() == 0 {
        Seq::empty()
    } else {
        upsert_milestone(
            materialized_milestones(specs.drop_last(), agreement_id, default_timeout),
            milestone_from_spec(specs.last(), agreement_id, default_timeout),
        )
    }
}

/// The views of a milestone list, in order.
pub open spec fn milestones_view(ms: Seq<Milestone>) -> Seq<MilestoneView> {
    ms.map_values(|m: Milestone| m@)
}

/// Materializes an offer's milestones for a fresh agreement.
fn materialize_milestones(
    specs: &Vec<crate::types::MilestoneSpec>,
    agreement_id: u64,
    default_timeout: u64,
) -> (r: Vec<Milestone>)
    ensures
        milestones_view(r@) == materialized_milestones(crate::types::milestone_specs_view(specs@),
            agreement_id, default_timeout),
        forall|k: int|
            0 <= k < r@.len() ==> (#[trigger] r@[k]).agreement_id == agreement_id && exists|t: int|
                0 <= t < specs@.len() && r@[k].amount == (#[trigger] specs@[t]).amount,
        forall|k1: int, k2: int|
            0 <= k1 < k2 < r@.len() ==> (#[trigger] r@[k1]).id != (#[trigger] r@[k2]).id,
{
    let mut out: Vec<Milestone> = Vec::new();
    let mut i: usize = 0;
    while i < specs.len()
        invariant
            i <= specs@.len(),
            milestones_view(out@) == materialized_milestones(
                crate::types::milestone_specs_view(specs@).take(i as int),
                agreement_id,
                default_timeout,
            ),
            forall|k: int|
                0 <= k < out@.len() ==> (#[trigger] out@[k]).agreement_id == agreement_id && exists|
                    t: int,
                |
                    0 <= t < specs@.len() && out@[k].amount == (#[trigger] specs@[t]).amount,
            forall|k1: int, k2: int|
                0 <= k1 < k2 < out@.len() ==> (#[trigger] out@[k1]).id != (#[trigger] out@[k2]).id,
        decreases specs@.len() - i,
    {
        let m = &specs[i];
        let record = Milestone {
            id: m.id,
            agreement_id,
            amount: m.amount,
            due_ts: m.due_ts,
            review_timeout_seconds: if m.review_timeout_seconds > 0 {
                m.review_timeout_seconds
            } else {
                default_timeout
            },
            metadata_uri: crate::types::clone_bytes(&m.metadata_uri),
            state: MilestoneState::Open,
            submitted_at: 0,
            review_deadline: 0,
            proof_uri: Vec::new(),
            reason_uri: Vec::new(),
            settlement_mode: 0,
            paid_at: 0,
        };
        let ghost prev = milestones_view(out@);
        let ghost mv = record@;
        proof {
            assert(mv == milestone_from_spec(
                crate::types::milestone_specs_view(specs@)[i as int],
                agreement_id,
                default_timeout,
            ));
        }
        match find_milestone(&out, m.id) {
            Some(idx) => {
                proof {
                    assert(prev[idx as int].id == mv.id);
                    let k = choose|k: int| 0 <= k < prev.len() && (#[trigger] prev[k]).id == mv.id;
                    assert(k == idx);
                }
                out[idx] = record;
                proof {
                    assert(milestones_view(out@) =~= upsert_milestone(prev, mv));
                }
            },
            None => {
                proof {
                    assert(forall|k: int|
                        0 <= k < prev.len() ==> (#[trigger] prev[k]).id != mv.id);
                }
                out.push(record);
                proof {
                    assert(milestones_view(out@) =~= upsert_milestone(prev, mv));
                }
            },
        }
        proof {
            let all = crate::types::milestone_specs_view(specs@);
            assert(all.take(i + 1 as int).drop_last() =~= all.take(i as int));
            assert(all.take(i + 1 as int).last() == all[i as int]);
        }
        i = i + 1;
    }
    proof {
        let all = crate::types::milestone_specs_view(specs@);
        assert(all.take(specs@.len() as int) =~= all);
    }
    out
}

/// The index of the milestone with this id, searching in list order.
fn find_milestone(milestones: &Vec<Milestone>, milestone_id: u64) -> (r: Option<usize>)
    ensures
        match r {
            Some(idx) => idx < milestones@.len() && milestones@[idx as int].id == milestone_id,
            None => forall|k: int|
                0 <= k < milestones@.len() ==> (#[trigger] milestones@[k]).id != milestone_id,
        },
{
    let mut i: usize = 0;
    while i < milestones.len()
        invariant
            i <= milestones@.len(),
            forall|k: int| 0 <= k < i ==> (#[trigger] milestones@[k]).id != milestone_id,
        decreases milestones@.len() - i,
    {
        if milestones[i].id == milestone_id {
            return Some(i);
        }
        i = i + 1;
    }
    None
}

} // verus!
