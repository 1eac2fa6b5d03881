//! The shared data model: jobs, applications, offers, agreements, milestones,
//! funding state, reputation snapshots, and the error taxonomy. Types that
//! carry byte payloads get a mathematical view (`@`) whose payload fields are
//! `Seq<u8>`; all other types are plain enough to stand in contracts directly.

use vstd::prelude::*;

verus! {

/// Denominator of all basis-point (bps) fractions: 1 bps = 1/10_000.
pub const BPS_DENOMINATOR: u64 = 10_000;

/// Lower bound of a reputation score.
pub const SCORE_MIN: u64 = 0;

/// Upper bound of a reputation score.
pub const SCORE_MAX: u64 = 1_000;

/// Largest page a list accessor returns in one call.
pub const MAX_PAGE_SIZE: u64 = 100;

/// Size bounds on the byte payloads an entry point accepts.
pub const MAX_METADATA_URI_LEN: usize = 512;
pub const MAX_TERMS_URI_LEN: usize = 512;
pub const MAX_REASON_URI_LEN: usize = 512;
pub const MAX_PROOF_URI_LEN: usize = 512;
pub const MAX_APPLICATION_URI_LEN: usize = 512;

/// Hard cap on the invitee list of one job, over any configured limit.
pub const MAX_INVITE_LOOP_GUARD: usize = 1024;

/// Hard cap on the milestone list of one offer.
pub const MAX_MILESTONES_PER_OFFER: usize = 32;

/// Code for the employer side in an agreement's side fields (0 = unset).
pub const EMPLOYER_SIDE: u8 = 1;

/// Code for the worker side in an agreement's side fields (0 = unset).
pub const WORKER_SIDE: u8 = 2;

/// Largest amount on which basis-point arithmetic cannot overflow `u128`.
pub const BPS_SAFE_LIMIT: u128 = u128::MAX / 10_000;

/// A rejection of a negotiation-ledger entry point. Every failure aborts the
/// whole call with no state change.
#[derive(Clone, Copy, PartialEq, Eq, Structural, Debug)]
pub enum BoardError {
    Paused,
    Unauthorized,
    InvalidState,
    NotRegistered,
    LowUptime,
    InvalidBps,
    InvalidAmount,
    InvalidDeadline,
    NotInvited,
    AlreadyApplied,
    CounterLimit,
    StaleOffer,
    AlreadyMatched,
}

/// A rejection of an escrow entry point. Every failure aborts the whole call
/// with no state change.
#[derive(Clone, Copy, PartialEq, Eq, Structural, Debug)]
pub enum EscrowError {
    Paused,
    Unauthorized,
    InvalidState,
    NotRegistered,
    LowUptime,
    InvalidBps,
    InvalidAmount,
    InvalidDeadline,
    OfferNotAccepted,
    OfferConsumed,
    InsufficientRunway,
    MilestoneState,
    TimeoutNotReached,
    NothingToWithdraw,
}

#[derive(Clone, Copy, PartialEq, Eq, Structural, Debug)]
pub enum JobVisibility {
    Public,
    InviteOnly,
}

#[derive(Clone, Copy, PartialEq, Eq, Structural, Debug)]
pub enum JobStatus {
    Open,
    InNegotiation,
    Matched,
    Closed,
    Expired,
}

#[derive(Clone, Copy, PartialEq, Eq, Structural, Debug)]
pub enum OfferStatus {
    Proposed,
    Countered,
    Accepted,
    Rejected,
    Withdrawn,
}

#[derive(Clone, Copy, PartialEq, Eq, Structural, Debug)]
pub enum OfferParty {
    Employer,
    Worker,
}

#[derive(Clone, Copy, PartialEq, Eq, Structural, Debug)]
pub enum AgreementStatus {
    PendingFunding,
    Active,
    NoticePeriod,
    Terminated,
    Completed,
}

#[derive(Clone, Copy, PartialEq, Eq, Structural, Debug)]
pub enum MilestoneState {
    Open,
    Submitted,
    Rejected,
    Paid,
}

#[derive(Clone, Copy, PartialEq, Eq, Structural, Debug)]
pub enum MilestoneSettlementMode {
    Approved,
    AutoApproved,
}

#[derive(Clone, Copy, PartialEq, Eq, Structural, Debug)]
pub enum TerminationSide {
    Employer,
    Worker,
}

#[derive(Clone, Copy, PartialEq, Eq, Structural, Debug)]
pub enum TerminationReason {
    UnilateralEmployer,
    UnilateralWorker,
    EmployerDefault,
    WorkerDefault,
    NaturalCompletion,
}

#[derive(Clone, Copy, PartialEq, Eq, Structural, Debug)]
pub enum ReputationReason {
    Init,
    OnTimeRecurringPayment,
    RunwayLow,
    EmployerDefault,
    WorkerMilestoneSettled,
    WorkerDefault,
    UnilateralTerminate,
    Completion,
}

#[derive(Clone, Copy, PartialEq, Eq, Structural, Debug)]
pub enum JobCloseReason {
    Cancelled,
    Expired,
}

/// Recurring-pay terms of an offer: all-or-nothing (a nonzero amount requires
/// a nonzero period and a nonzero period count).
#[derive(Clone, Copy, PartialEq, Eq, Structural, Debug)]
pub struct RecurringTerms {
    pub amount_per_period: u128,
    pub period_seconds: u64,
    pub total_periods: u64,
}

/// Revenue-share terms of an offer, in basis points of deposited revenue.
#[derive(Clone, Copy, PartialEq, Eq, Structural, Debug)]
pub struct RevenueShareTerms {
    pub profit_share_bps: u64,
}

/// One milestone of an offer's terms.
#[derive(Debug)]
pub struct MilestoneSpec {
    pub id: u64,
    pub amount: u128,
    pub due_ts: u64,
    pub review_timeout_seconds: u64,
    pub metadata_uri: Vec<u8>,
}

#[verifier::ext_equal]
pub struct MilestoneSpecView {
    pub id: u64,
    pub amount: u128,
    pub due_ts: u64,
    pub review_timeout_seconds: u64,
    pub metadata_uri: Seq<u8>,
}

impl View for MilestoneSpec {
    type V = MilestoneSpecView;

    open spec fn view(&self) -> MilestoneSpecView {
        MilestoneSpecView {
            id: self.id,
            amount: self.amount,
            due_ts: self.due_ts,
            review_timeout_seconds: self.review_timeout_seconds,
            metadata_uri: self.metadata_uri@,
        }
    }
}

impl Clone for MilestoneSpec {
    fn clone(&self) -> (r: MilestoneSpec)
        ensures
            r@ == self@,
    {
        MilestoneSpec {
            id: self.id,
            amount: self.amount,
            due_ts: self.due_ts,
            review_timeout_seconds: self.review_timeout_seconds,
            metadata_uri: clone_bytes(&self.metadata_uri),
        }
    }
}

/// The view of a milestone list: each element's view, in order.
pub open spec fn milestone_specs_view(v: Seq<MilestoneSpec>) -> Seq<MilestoneSpecView> {
    v.map_values(|m: MilestoneSpec| m@)
}

/// The full terms snapshot an offer carries.
#[derive(Debug)]
pub struct OfferTerms {
    pub recurring: RecurringTerms,
    pub revenue_share: RevenueShareTerms,
    pub employer_bond_required: u128,
    pub worker_bond_required: u128,
    pub milestones: Vec<MilestoneSpec>,
    pub terms_uri: Vec<u8>,
}

/// Terms as handed in by a proposer; field for field what `OfferTerms` keeps.
#[derive(Debug)]
pub struct OfferTermsInput {
    pub recurring: RecurringTerms,
    pub revenue_share: RevenueShareTerms,
    pub employer_bond_required: u128,
    pub worker_bond_required: u128,
    pub milestones: Vec<MilestoneSpec>,
    pub terms_uri: Vec<u8>,
}

#[verifier::ext_equal]
pub struct OfferTermsView {
    pub recurring: RecurringTerms,
    pub revenue_share: RevenueShareTerms,
    pub employer_bond_required: u128,
    pub worker_bond_required: u128,
    pub milestones: Seq<MilestoneSpecView>,
    pub terms_uri: Seq<u8>,
}

impl View for OfferTerms {
    type V = OfferTermsView;

    open spec fn view(&self) -> OfferTermsView {
        OfferTermsView {
            recurring: self.recurring,
            revenue_share: self.revenue_share,
            employer_bond_required: self.employer_bond_required,
            worker_bond_required: self.worker_bond_required,
            milestones: milestone_specs_view(self.milestones@),
            terms_uri: self.terms_uri@,
        }
    }
}

impl View for OfferTermsInput {
    type V = OfferTermsView;

    open spec fn view(&self) -> OfferTermsView {
        OfferTermsView {
            recurring: self.recurring,
            revenue_share: self.revenue_share,
            employer_bond_required: self.employer_bond_required,
            worker_bond_required: self.worker_bond_required,
            milestones: milestone_specs_view(self.milestones@),
            terms_uri: self.terms_uri@,
        }
    }
}

impl Clone for OfferTerms {
    fn clone(&self) -> (r: OfferTerms)
        ensures
            r@ == self@,
    {
        let r = OfferTerms {
            recurring: self.recurring,
            revenue_share: self.revenue_share,
            employer_bond_required: self.employer_bond_required,
            worker_bond_required: self.worker_bond_required,
            milestones: clone_milestone_specs(&self.milestones),
            terms_uri: clone_bytes(&self.terms_uri),
        };
        proof {
            assert(r@.milestones =~= self@.milestones);
            assert(r@ =~= self@);
        }
        r
    }
}

/// A posted job.
#[derive(Debug)]
pub struct Job {
    pub id: u64,
    pub employer: u64,
    pub metadata_uri: Vec<u8>,
    pub visibility: JobVisibility,
    pub application_deadline_ts: u64,
    pub min_worker_uptime: u64,
    pub comp_mode_mask: u8,
    pub status: JobStatus,
    pub created_at: u64,
    pub accepted_offer_id: u64,
    pub application_count: u64,
}

#[verifier::ext_equal]
pub struct JobView {
    pub id: u64,
    pub employer: u64,
    pub metadata_uri: Seq<u8>,
    pub visibility: JobVisibility,
    pub application_deadline_ts: u64,
    pub min_worker_uptime: u64,
    pub comp_mode_mask: u8,
    pub status: JobStatus,
    pub created_at: u64,
    pub accepted_offer_id: u64,
    pub application_count: u64,
}

impl View for Job {
    type V = JobView;

    open spec fn view(&self) -> JobView {
        JobView {
            id: self.id,
            employer: self.employer,
            metadata_uri: self.metadata_uri@,
            visibility: self.visibility,
            application_deadline_ts: self.application_deadline_ts,
            min_worker_uptime: self.min_worker_uptime,
            comp_mode_mask: self.comp_mode_mask,
            status: self.status,
            created_at: self.created_at,
            accepted_offer_id: self.accepted_offer_id,
            application_count: self.application_count,
        }
    }
}

impl Clone for Job {
    fn clone(&self) -> (r: Job)
        ensures
            r@ == self@,
    {
        Job {
            id: self.id,
            employer: self.employer,
            metadata_uri: clone_bytes(&self.metadata_uri),
            visibility: self.visibility,
            application_deadline_ts: self.application_deadline_ts,
            min_worker_uptime: self.min_worker_uptime,
            comp_mode_mask: self.comp_mode_mask,
            status: self.status,
            created_at: self.created_at,
            accepted_offer_id: self.accepted_offer_id,
            application_count: self.application_count,
        }
    }
}

/// One application of a worker for a job. Immutable once created.
#[derive(Debug)]
pub struct Application {
    pub id: u64,
    pub job_id: u64,
    pub applicant: u64,
    pub application_uri: Vec<u8>,
    pub created_at: u64,
}

#[verifier::ext_equal]
pub struct ApplicationView {
    pub id: u64,
    pub job_id: u64,
    pub applicant: u64,
    pub application_uri: Seq<u8>,
    pub created_at: u64,
}

impl View for Application {
    type V = ApplicationView;

    open spec fn view(&self) -> ApplicationView {
        ApplicationView {
            id: self.id,
            job_id: self.job_id,
            applicant: self.applicant,
            application_uri: self.application_uri@,
            created_at: self.created_at,
        }
    }
}

impl Clone for Application {
    fn clone(&self) -> (r: Application)
        ensures
            r@ == self@,
    {
        Application {
            id: self.id,
            job_id: self.job_id,
            applicant: self.applicant,
            application_uri: clone_bytes(&self.application_uri),
            created_at: self.created_at,
        }
    }
}

/// One node of an offer/counter-offer chain. Chained by `parent_offer_id`
/// (0 at the root); only the latest node per application is actionable.
#[derive(Debug)]
pub struct Offer {
    pub id: u64,
    pub job_id: u64,
    pub application_id: u64,
    pub proposer: u64,
    pub counterparty: u64,
    pub party: OfferParty,
    pub parent_offer_id: u64,
    pub round_index: u64,
    pub terms: OfferTerms,
    pub status: OfferStatus,
    pub created_at: u64,
}

#[verifier::ext_equal]
pub struct OfferView {
    pub id: u64,
    pub job_id: u64,
    pub application_id: u64,
    pub proposer: u64,
    pub counterparty: u64,
    pub party: OfferParty,
    pub parent_offer_id: u64,
    pub round_index: u64,
    pub terms: OfferTermsView,
    pub status: OfferStatus,
    pub created_at: u64,
}

impl View for Offer {
    type V = OfferView;

    open spec fn view(&self) -> OfferView {
        OfferView {
            id: self.id,
            job_id: self.job_id,
            application_id: self.application_id,
            proposer: self.proposer,
            counterparty: self.counterparty,
            party: self.party,
            parent_offer_id: self.parent_offer_id,
            round_index: self.round_index,
            terms: self.terms@,
            status: self.status,
            created_at: self.created_at,
        }
    }
}

impl Clone for Offer {
    fn clone(&self) -> (r: Offer)
        ensures
            r@ == self@,
    {
        Offer {
            id: self.id,
            job_id: self.job_id,
            application_id: self.application_id,
            proposer: self.proposer,
            counterparty: self.counterparty,
            party: self.party,
            parent_offer_id: self.parent_offer_id,
            round_index: self.round_index,
            terms: self.terms.clone(),
            status: self.status,
            created_at: self.created_at,
        }
    }
}

/// The read-only projection of a match: the one channel through which the
/// escrow learns of an accepted offer.
#[derive(Debug)]
pub struct AcceptedOfferSummary {
    pub job_id: u64,
    pub offer_id: u64,
    pub employer: u64,
    pub worker: u64,
    pub terms: OfferTerms,
    pub accepted_at: u64,
}

#[verifier::ext_equal]
pub struct AcceptedOfferSummaryView {
    pub job_id: u64,
    pub offer_id: u64,
    pub employer: u64,
    pub worker: u64,
    pub terms: OfferTermsView,
    pub accepted_at: u64,
}

impl View for AcceptedOfferSummary {
    type V = AcceptedOfferSummaryView;

    open spec fn view(&self) -> AcceptedOfferSummaryView {
        AcceptedOfferSummaryView {
            job_id: self.job_id,
            offer_id: self.offer_id,
            employer: self.employer,
            worker: self.worker,
            terms: self.terms@,
            accepted_at: self.accepted_at,
        }
    }
}

impl Clone for AcceptedOfferSummary {
    fn clone(&self) -> (r: AcceptedOfferSummary)
        ensures
            r@ == self@,
    {
        AcceptedOfferSummary {
            job_id: self.job_id,
            offer_id: self.offer_id,
            employer: self.employer,
            worker: self.worker,
            terms: self.terms.clone(),
            accepted_at: self.accepted_at,
        }
    }
}

/// Counters the negotiation ledger reports.
#[derive(Clone, Copy, PartialEq, Eq, Structural, Debug)]
pub struct BoardStats {
    pub total_jobs: u64,
    pub open_jobs: u64,
    pub matched_jobs: u64,
    pub total_applications: u64,
    pub total_offers: u64,
}

/// Configuration of the negotiation ledger.
#[derive(Clone, Copy, PartialEq, Eq, Structural, Debug)]
pub struct JobBoardConfig {
    pub owner: u64,
    pub bond_registry: u64,
    pub uptime: u64,
    pub min_uptime_score: u64,
    pub max_counteroffers_per_application: u64,
    pub max_invites_per_job: u64,
    pub paused: bool,
}

/// Escrow-owned recurring terms with live counters.
#[derive(Clone, Copy, PartialEq, Eq, Structural, Debug)]
pub struct RecurringTermsEscrow {
    pub amount_per_period: u128,
    pub period_seconds: u64,
    pub total_periods: u64,
    pub paid_periods: u64,
    pub next_pay_ts: u64,
}

/// Escrow-owned revenue-share terms, with the fee parameters frozen at
/// activation time.
#[derive(Clone, Copy, PartialEq, Eq, Structural, Debug)]
pub struct RevenueShareTermsEscrow {
    pub profit_share_bps: u64,
    pub protocol_fee_bps_snapshot: u64,
    pub referral_share_bps_snapshot: u64,
}

/// The escrow's derived copy of an accepted offer's terms.
#[derive(Clone, Copy, PartialEq, Eq, Structural, Debug)]
pub struct AgreementTerms {
    pub recurring: RecurringTermsEscrow,
    pub revenue_share: RevenueShareTermsEscrow,
    pub employer_bond_required: u128,
    pub worker_bond_required: u128,
    pub milestone_count: u64,
}

/// The escrow record governing one matched job.
#[derive(Clone, Copy, PartialEq, Eq, Structural, Debug)]
pub struct Agreement {
    pub id: u64,
    pub job_id: u64,
    pub offer_id: u64,
    pub employer: u64,
    pub worker: u64,
    pub referrer: u64,
    pub status: AgreementStatus,
    pub created_at: u64,
    pub activated_at: u64,
    pub notice_start_ts: u64,
    pub notice_end_ts: u64,
    pub requested_by_side: u8,
    pub default_side: u8,
    pub terms: AgreementTerms,
}

/// Balances one agreement holds: runway, both bonds, and the runway floor
/// reserved for future recurring pay.
#[derive(Clone, Copy, PartialEq, Eq, Structural, Debug)]
pub struct FundingState {
    pub runway_balance: u128,
    pub employer_bond_locked: u128,
    pub worker_bond_locked: u128,
    pub reserved_recurring_minimum: u128,
}

/// One materialized milestone of an agreement.
#[derive(Debug)]
pub struct Milestone {
    pub id: u64,
    pub agreement_id: u64,
    pub amount: u128,
    pub due_ts: u64,
    pub review_timeout_seconds: u64,
    pub metadata_uri: Vec<u8>,
    pub state: MilestoneState,
    pub submitted_at: u64,
    pub review_deadline: u64,
    pub proof_uri: Vec<u8>,
    pub reason_uri: Vec<u8>,
    pub settlement_mode: u8,
    pub paid_at: u64,
}

#[verifier::ext_equal]
pub struct MilestoneView {
    pub id: u64,
    pub agreement_id: u64,
    pub amount: u128,
    pub due_ts: u64,
    pub review_timeout_seconds: u64,
    pub metadata_uri: Seq<u8>,
    pub state: MilestoneState,
    pub submitted_at: u64,
    pub review_deadline: u64,
    pub proof_uri: Seq<u8>,
    pub reason_uri: Seq<u8>,
    pub settlement_mode: u8,
    pub paid_at: u64,
}

impl View for Milestone {
    type V = MilestoneView;

    open spec fn view(&self) -> MilestoneView {
        MilestoneView {
            id: self.id,
            agreement_id: self.agreement_id,
            amount: self.amount,
            due_ts: self.due_ts,
            review_timeout_seconds: self.review_timeout_seconds,
            metadata_uri: self.metadata_uri@,
            state: self.state,
            submitted_at: self.submitted_at,
            review_deadline: self.review_deadline,
            proof_uri: self.proof_uri@,
            reason_uri: self.reason_uri@,
            settlement_mode: self.settlement_mode,
            paid_at: self.paid_at,
        }
    }
}

impl Clone for Milestone {
    fn clone(&self) -> (r: Milestone)
        ensures
            r@ == self@,
    {
        Milestone {
            id: self.id,
            agreement_id: self.agreement_id,
            amount: self.amount,
            due_ts: self.due_ts,
            review_timeout_seconds: self.review_timeout_seconds,
            metadata_uri: clone_bytes(&self.metadata_uri),
            state: self.state,
            submitted_at: self.submitted_at,
            review_deadline: self.review_deadline,
            proof_uri: clone_bytes(&self.proof_uri),
            reason_uri: clone_bytes(&self.reason_uri),
            settlement_mode: self.settlement_mode,
            paid_at: self.paid_at,
        }
    }
}

/// Per-agent reputation: a clamped score plus event counters.
#[derive(Clone, Copy, PartialEq, Eq, Structural, Debug)]
pub struct ReputationSnapshot {
    pub score: u64,
    pub agreements_started: u64,
    pub agreements_completed: u64,
    pub defaults_as_employer: u64,
    pub defaults_as_worker: u64,
    pub on_time_recurring_payments: u64,
    pub milestones_settled: u64,
    pub terminations_initiated: u64,
    pub last_updated_ts: u64,
}

/// Balances around one agreement, as reported to a caller.
#[derive(Clone, Copy, PartialEq, Eq, Structural, Debug)]
pub struct AgreementFinancials {
    pub funding: FundingState,
    pub worker_claimable: u128,
    pub employer_claimable: u128,
    pub referrer_claimable: u128,
    pub treasury_claimable: u128,
    pub total_gross_paid: u128,
    pub total_fees_paid: u128,
}

/// Protocol-wide counters and totals.
#[derive(Clone, Copy, PartialEq, Eq, Structural, Debug)]
pub struct ProtocolStats {
    pub total_agreements: u64,
    pub active_agreements: u64,
    pub completed_agreements: u64,
    pub terminated_agreements: u64,
    pub total_gross_payouts: u128,
    pub total_protocol_fees: u128,
    pub total_revenue_deposited: u128,
}

/// Configuration of the escrow engine.
#[derive(Clone, Copy, PartialEq, Eq, Structural, Debug)]
pub struct EscrowConfig {
    pub owner: u64,
    pub job_board: u64,
    pub bond_registry: u64,
    pub uptime: u64,
    pub treasury: u64,
    pub min_uptime_score: u64,
    pub protocol_fee_bps: u64,
    pub referral_share_bps: u64,
    pub min_employer_bond: u128,
    pub min_worker_bond: u128,
    pub min_runway_periods: u64,
    pub default_notice_seconds: u64,
    pub termination_penalty_bps: u64,
    pub milestone_review_timeout_seconds: u64,
    pub max_milestones_per_agreement: u64,
    pub score_start: u64,
    pub paused: bool,
}

/// What the uptime oracle reports for one agent.
#[derive(Clone, Copy, PartialEq, Eq, Structural, Debug)]
pub struct LifetimeInfo {
    pub total_heartbeats: u64,
    pub lifetime_score: u64,
    pub time_since_last: u64,
    pub time_remaining: u64,
}

/// Copies a byte payload.
pub fn clone_bytes(v: &Vec<u8>) -> (r: Vec<u8>)
    ensures
        r@ == v@,
{
    let mut r: Vec<u8> = Vec::new();
    let mut i: usize = 0;
    while i < v.len()
        invariant
            i <= v.len(),
            r@ == v@.subrange(0, i as int),
        decreases v.len() - i,
    {
        r.push(v[i]);
        proof {
            assert(v@.subrange(0, i + 1 as int) =~= v@.subrange(0, i as int).push(v@[i as int]));
        }
        i = i + 1;
    }
    proof {
        assert(v@.subrange(0, v@.len() as int) =~= v@);
    }
    r
}

/// Copies a milestone list.
pub fn clone_milestone_specs(v: &Vec<MilestoneSpec>) -> (r: Vec<MilestoneSpec>)
    ensures
        r@.len() == v@.len(),
        forall|i: int| 0 <= i < v@.len() ==> r@[i]@ == v@[i]@,
{
    let mut r: Vec<MilestoneSpec> = Vec::new();
    let mut i: usize = 0;
    while i < v.len()
        invariant
            i <= v.len(),
            r@.len() == i,
            forall|k: int| 0 <= k < i ==> r@[k]@ == v@[k]@,
        decreases v.len() - i,
    {
        r.push(v[i].clone());
        i = i + 1;
    }
    r
}

} // verus!
