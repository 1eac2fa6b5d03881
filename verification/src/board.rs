//! The negotiation ledger: jobs, applications and offer/counter-offer
//! chains. It enforces visibility, deadlines, counter-offer limits and
//! staleness, and produces the accepted-offer summary that the escrow
//! consumes. Entry points take the caller's account and the current time as
//! explicit parameters; every state change is stated in the contract.

use vstd::prelude::*;

use crate::mocks::{eligible, BondRegistryMock, UptimeMock};
use crate::types::{
    AcceptedOfferSummary, Application, ApplicationView, BoardError, BoardStats, Job, JobBoardConfig,
    JobStatus, JobView, JobVisibility, MilestoneSpecView, Offer, OfferParty, OfferStatus,
    OfferTerms, OfferTermsInput, OfferTermsView, BPS_DENOMINATOR, MAX_APPLICATION_URI_LEN,
    MAX_INVITE_LOOP_GUARD, MAX_METADATA_URI_LEN, MAX_MILESTONES_PER_OFFER, MAX_PAGE_SIZE,
    MAX_TERMS_URI_LEN,
};

verus! {

/// Everything the ledger keeps for one job: the job itself, its invite list,
/// its applications in arrival order, its offers in creation order, and the
/// per-application chain bookkeeping (latest-offer pointer, counter-offer
/// count, and the list of offer ids, all indexed by application id - 1).
pub struct JobRecord {
    pub job: Job,
    pub invites: Vec<u64>,
    pub applications: Vec<Application>,
    pub offers: Vec<Offer>,
    pub latest_offer: Vec<u64>,
    pub counter_count: Vec<u64>,
    pub applied: Vec<u64>,
    pub offers_by_application: Vec<Vec<u64>>,
    pub accepted_at: u64,
}

/// The negotiation ledger's whole state. Jobs are keyed by id: job `i` lives
/// at index `i - 1` and ids are never reused, so the ledger is append-only.
pub struct JobBoardCore {
    pub owner: u64,
    pub paused: bool,
    pub bond_registry: u64,
    pub uptime: u64,
    pub min_uptime_score: u64,
    pub max_counteroffers_per_application: u64,
    pub max_invites_per_job: u64,
    pub jobs: Vec<JobRecord>,
    pub total_application_count: u64,
    pub total_offer_count: u64,
    pub open_job_count: u64,
    pub matched_job_count: u64,
}

/// One offer's place in the ledger: its id and job are its coordinates, and
/// its application id names an existing application.
pub open spec fn offer_wf(o: Offer, id: int, job_id: u64, app_count: int) -> bool {
    &&& o.id == id
    &&& o.job_id == job_id
    &&& 1 <= o.application_id <= app_count
}

/// The offer chain of one application, as the ledger keeps it: every listed
/// id names an offer of this application, ids are strictly increasing (so
/// the last is the most recently created), every offer of the application is
/// listed, and the latest-offer pointer is 0 exactly while the list is empty
/// and otherwise names its last element.
pub open spec fn chain_wf(r: JobRecord, a: int) -> bool {
    let chain = r.offers_by_application@[a]@;
    &&& forall|t: int|
        0 <= t < chain.len() ==> 1 <= #[trigger] chain[t] <= r.offers@.len()
            && r.offers@[chain[t] - 1].application_id == a + 1
    &&& forall|t1: int, t2: int|
        0 <= t1 < t2 < chain.len() ==> #[trigger] chain[t1] < #[trigger] chain[t2]
    &&& forall|k: int|
        0 <= k < r.offers@.len() && #[trigger] r.offers@[k].application_id == a + 1
            ==> chain.contains((k + 1) as u64)
    &&& (r.latest_offer@[a] == 0 <==> chain.len() == 0)
    &&& (chain.len() > 0 ==> r.latest_offer@[a] == chain.last())
}

/// Well-formedness of one job record, at its 1-based id.
pub open spec fn rec_wf(r: JobRecord, job_id: u64) -> bool {
    &&& r.job.id == job_id
    &&& r.applications@.len() <= u64::MAX
    &&& r.offers@.len() <= u64::MAX
    &&& r.job.application_count == r.applications@.len()
    &&& r.latest_offer@.len() == r.applications@.len()
    &&& r.counter_count@.len() == r.applications@.len()
    &&& r.offers_by_application@.len() == r.applications@.len()
    &&& forall|k: int|
        0 <= k < r.applications@.len() ==> (#[trigger] r.applications@[k]).id == k + 1
            && r.applications@[k].job_id == job_id
    &&& forall|k: int|
        0 <= k < r.offers@.len() ==> offer_wf(#[trigger] r.offers@[k], k + 1, job_id,
            r.applications@.len() as int)
    &&& forall|a: int| 0 <= a < r.applications@.len() ==> #[trigger] chain_wf(r, a)
    &&& (r.job.accepted_offer_id != 0 <==> r.job.status == JobStatus::Matched)
    &&& (r.job.accepted_offer_id != 0 ==> 1 <= r.job.accepted_offer_id <= r.offers@.len()
        && r.offers@[r.job.accepted_offer_id - 1].status == OfferStatus::Accepted)
}

impl JobBoardCore {
    /// The ledger's internal invariant: every record is well formed at its
    /// id, and the open-job counter never exceeds the number of jobs.
    pub open spec fn wf(self) -> bool {
        &&& self.jobs@.len() < u64::MAX
        &&& self.open_job_count <= self.jobs@.len()
        &&& forall|i: int| 0 <= i < self.jobs@.len() ==> rec_wf(#[trigger] self.jobs@[i], (i + 1) as u64)
    }

    /// Whether a job with this id exists.
    pub open spec fn has_job(self, job_id: u64) -> bool {
        1 <= job_id <= self.jobs@.len()
    }

    /// The record of an existing job.
    pub open spec fn job_rec(self, job_id: u64) -> JobRecord
        recommends
            self.has_job(job_id),
    {
        self.jobs@[job_id - 1]
    }

    /// Whether an application with this id exists under the job.
    pub open spec fn has_application(self, job_id: u64, application_id: u64) -> bool {
        &&& self.has_job(job_id)
        &&& 1 <= application_id <= self.job_rec(job_id).applications@.len()
    }

    /// Whether an offer with this id exists under the job.
    pub open spec fn has_offer(self, job_id: u64, offer_id: u64) -> bool {
        &&& self.has_job(job_id)
        &&& 1 <= offer_id <= self.job_rec(job_id).offers@.len()
    }

    /// The view of an existing offer.
    pub open spec fn offer_view(self, job_id: u64, offer_id: u64) -> crate::types::OfferView
        recommends
            self.has_offer(job_id, offer_id),
    {
        self.job_rec(job_id).offers@[offer_id - 1]@
    }

    /// The latest-offer pointer of an application; 0 while no offer exists.
    pub open spec fn latest_of(self, job_id: u64, application_id: u64) -> u64
        recommends
            self.has_application(job_id, application_id),
    {
        self.job_rec(job_id).latest_offer@[application_id - 1]
    }

    /// The view of the accepted-offer summary of a job, if one exists.
    pub open spec fn accepted_offer_spec(self, job_id: u64) -> Option<
        crate::types::AcceptedOfferSummaryView,
    > {
        if !self.has_job(job_id) {
            None
        } else {
            let r = self.job_rec(job_id);
            let offer_id = r.job.accepted_offer_id;
            if offer_id == 0 || !self.has_offer(job_id, offer_id) {
                None
            } else {
                let o = r.offers@[offer_id - 1];
                if !self.has_application(job_id, o.application_id) {
                    None
                } else {
                    Some(
                        crate::types::AcceptedOfferSummaryView {
                            job_id,
                            offer_id,
                            employer: r.job.employer,
                            worker: r.applications@[o.application_id - 1].applicant,
                            terms: o.terms@,
                            accepted_at: r.accepted_at,
                        },
                    )
                }
            }
        }
    }

    /// The fixed configuration fields, unchanged by non-administrative calls.
    pub open spec fn same_config(self, other: JobBoardCore) -> bool {
        &&& other.owner == self.owner
        &&& other.paused == self.paused
        &&& other.bond_registry == self.bond_registry
        &&& other.uptime == self.uptime
        &&& other.min_uptime_score == self.min_uptime_score
        &&& other.max_counteroffers_per_application == self.max_counteroffers_per_application
        &&& other.max_invites_per_job == self.max_invites_per_job
    }

    /// Creates the ledger. Rejects zero collaborator addresses and zero
    /// limits; the caller becomes the owner.
    pub fn init(
        caller: u64,
        bond_registry: u64,
        uptime: u64,
        min_uptime_score: u64,
        max_counteroffers_per_application: u64,
        max_invites_per_job: u64,
    ) -> (r: Result<JobBoardCore, BoardError>)
        ensures
            match r {
                Ok(board) => {
                    &&& bond_registry != 0
                    &&& uptime != 0
                    &&& max_counteroffers_per_application > 0
                    &&& max_invites_per_job > 0
                    &&& board.wf()
                    &&& board.owner == caller
                    &&& !board.paused
                    &&& board.bond_registry == bond_registry
                    &&& board.uptime == uptime
                    &&& board.min_uptime_score == min_uptime_score
                    &&& board.max_counteroffers_per_application
                        == max_counteroffers_per_application
                    &&& board.max_invites_per_job == max_invites_per_job
                    &&& board.jobs@.len() == 0
                    &&& board.total_application_count == 0
                    &&& board.total_offer_count == 0
                    &&& board.open_job_count == 0
                    &&& board.matched_job_count == 0
                },
                Err(e) => {
                    &&& e == BoardError::InvalidAmount
                    &&& (bond_registry == 0 || uptime == 0 || max_counteroffers_per_application
                        == 0 || max_invites_per_job == 0)
                },
            },
    {
        if bond_registry == 0 {
            return Err(BoardError::InvalidAmount);
        }
        if uptime == 0 {
            return Err(BoardError::InvalidAmount);
        }
        if max_counteroffers_per_application == 0 {
            return Err(BoardError::InvalidAmount);
        }
        if max_invites_per_job == 0 {
            return Err(BoardError::InvalidAmount);
        }
        Ok(
            JobBoardCore {
                owner: caller,
                paused: false,
                bond_registry,
                uptime,
                min_uptime_score,
                max_counteroffers_per_application,
                max_invites_per_job,
                jobs: Vec::new(),
                total_application_count: 0,
                total_offer_count: 0,
                open_job_count: 0,
                matched_job_count: 0,
            },
        )
    }
}

/// Whether every milestone of a terms snapshot is acceptable: a positive
/// amount, a positive review timeout, and bounded metadata.
pub open spec fn milestones_ok(ms: Seq<MilestoneSpecView>) -> bool {
    forall|i: int|
        0 <= i < ms.len() ==> (#[trigger] ms[i]).amount > 0 && ms[i].review_timeout_seconds > 0
            && ms[i].metadata_uri.len() <= MAX_METADATA_URI_LEN
}

/// The first failure of offer-terms validation: the revenue-share fraction
/// must be at most the whole, the payload and milestone list are bounded,
/// and the recurring fields are all-or-nothing.
pub open spec fn offer_terms_error(t: OfferTermsView) -> Option<BoardError> {
    if t.revenue_share.profit_share_bps > BPS_DENOMINATOR {
        Some(BoardError::InvalidBps)
    } else if t.terms_uri.len() > MAX_TERMS_URI_LEN {
        Some(BoardError::InvalidAmount)
    } else if t.milestones.len() > MAX_MILESTONES_PER_OFFER {
        Some(BoardError::InvalidAmount)
    } else if t.recurring.amount_per_period > 0 && (t.recurring.period_seconds == 0
        || t.recurring.total_periods == 0) {
        Some(BoardError::InvalidAmount)
    } else if t.recurring.amount_per_period == 0 && t.recurring.total_periods != 0 {
        Some(BoardError::InvalidAmount)
    } else if !milestones_ok(t.milestones) {
        Some(BoardError::InvalidAmount)
    } else {
        None
    }
}

/// Validates proposed terms as `offer_terms_error` states.
#[verifier::loop_isolation(false)]
pub fn validate_offer_terms(terms: &OfferTermsInput) -> (r: Result<(), BoardError>)
    ensures
        match r {
            Ok(_) => offer_terms_error(terms@) is None,
            Err(e) => Some(e) == offer_terms_error(terms@),
        },
{
    if terms.revenue_share.profit_share_bps > BPS_DENOMINATOR {
        return Err(BoardError::InvalidBps);
    }
    if terms.terms_uri.len() > MAX_TERMS_URI_LEN {
        return Err(BoardError::InvalidAmount);
    }
    if terms.milestones.len() > MAX_MILESTONES_PER_OFFER {
        return Err(BoardError::InvalidAmount);
    }
    if terms.recurring.amount_per_period > 0 {
        if terms.recurring.period_seconds == 0 {
            return Err(BoardError::InvalidAmount);
        }
        if terms.recurring.total_periods == 0 {
            return Err(BoardError::InvalidAmount);
        }
    } else {
        if terms.recurring.total_periods != 0 {
            return Err(BoardError::InvalidAmount);
        }
    }
    let mut i: usize = 0;
    while i < terms.milestones.len()
        invariant
            i <= terms.milestones@.len(),
            forall|k: int|
                0 <= k < i ==> (#[trigger] terms@.milestones[k]).amount > 0
                    && terms@.milestones[k].review_timeout_seconds > 0
                    && terms@.milestones[k].metadata_uri.len() <= MAX_METADATA_URI_LEN,
        decreases terms.milestones@.len() - i,
    {
        let m = &terms.milestones[i];
        proof {
            assert(terms@.milestones[i as int] == terms.milestones@[i as int]@);
        }
        if m.amount == 0 {
            return Err(BoardError::InvalidAmount);
        }
        if m.review_timeout_seconds == 0 {
            return Err(BoardError::InvalidAmount);
        }
        if m.metadata_uri.len() > MAX_METADATA_URI_LEN {
            return Err(BoardError::InvalidAmount);
        }
        i = i + 1;
    }
    proof {
        assert(milestones_ok(terms@.milestones)) by {
            assert forall|k: int| 0 <= k < terms@.milestones.len() implies (
            #[trigger] terms@.milestones[k]).amount > 0
                && terms@.milestones[k].review_timeout_seconds > 0
                && terms@.milestones[k].metadata_uri.len() <= MAX_METADATA_URI_LEN by {}
        }
    }
    Ok(())
}

/// Copies a proposer's terms into the snapshot shape an offer stores.
pub fn terms_input_to_terms(terms: OfferTermsInput) -> (r: OfferTerms)
    ensures
        r@ == terms@,
{
    OfferTerms {
        recurring: terms.recurring,
        revenue_share: terms.revenue_share,
        employer_bond_required: terms.employer_bond_required,
        worker_bond_required: terms.worker_bond_required,
        milestones: terms.milestones,
        terms_uri: terms.terms_uri,
    }
}

impl JobBoardCore {
    /// The first failing check of `create_job`, in the order the checks run.
    pub open spec fn create_job_error(
        self,
        registry: BondRegistryMock,
        oracle: UptimeMock,
        caller: u64,
        metadata_uri: Seq<u8>,
        visibility: JobVisibility,
        application_deadline_ts: u64,
        comp_mode_mask: u8,
        invited: Seq<u64>,
        now: u64,
    ) -> Option<BoardError> {
        if self.paused {
            Some(BoardError::Paused)
        } else if eligibility_error(registry, oracle, caller, self.min_uptime_score) is Some {
            eligibility_error(registry, oracle, caller, self.min_uptime_score)
        } else if metadata_uri.len() == 0 {
            Some(BoardError::InvalidAmount)
        } else if metadata_uri.len() > MAX_METADATA_URI_LEN {
            Some(BoardError::InvalidAmount)
        } else if application_deadline_ts <= now {
            Some(BoardError::InvalidDeadline)
        } else if invited.len() > self.max_invites_per_job {
            Some(BoardError::InvalidAmount)
        } else if invited.len() > MAX_INVITE_LOOP_GUARD {
            Some(BoardError::InvalidAmount)
        } else if visibility == JobVisibility::Public && invited.len() > 0 {
            Some(BoardError::InvalidState)
        } else if comp_mode_mask == 0 || comp_mode_mask > 7 {
            Some(BoardError::InvalidState)
        } else {
            None
        }
    }

    /// Posts a job. The caller must pass the eligibility gate at the global
    /// threshold; the metadata payload is nonempty and bounded; the deadline
    /// is strictly in the future; invitees are bounded and only allowed on an
    /// invite-only job; the compensation mask uses only its three low bits.
    /// On success the job is appended as Open with a fresh id and the
    /// open-job counter grows by one; on failure nothing changes.
    pub fn create_job(
        &mut self,
        registry: &BondRegistryMock,
        oracle: &UptimeMock,
        caller: u64,
        now: u64,
        metadata_uri: Vec<u8>,
        visibility: JobVisibility,
        application_deadline_ts: u64,
        min_worker_uptime: u64,
        comp_mode_mask: u8,
        invited: Vec<u64>,
    ) -> (r: Result<u64, BoardError>)
        requires
            old(self).wf(),
            old(self).jobs@.len() + 1 < u64::MAX,
        ensures
            final(self).wf(),
            match r {
                Ok(job_id) => {
                    &&& old(self).create_job_error(*registry, *oracle, caller, metadata_uri@,
                        visibility, application_deadline_ts, comp_mode_mask, invited@, now)
                        is None
                    &&& job_id == old(self).jobs@.len() + 1
                    &&& final(self).jobs@.len() == old(self).jobs@.len() + 1
                    &&& forall|i: int|
                        0 <= i < old(self).jobs@.len() ==> final(self).jobs@[i] == old(
                            self,
                        ).jobs@[i]
                    &&& final(self).job_rec(job_id).job@ == (JobView {
                        id: job_id,
                        employer: caller,
                        metadata_uri: metadata_uri@,
                        visibility,
                        application_deadline_ts,
                        min_worker_uptime,
                        comp_mode_mask,
                        status: JobStatus::Open,
                        created_at: now,
                        accepted_offer_id: 0,
                        application_count: 0,
                    })
                    &&& final(self).job_rec(job_id).invites@ == invited@
                    &&& final(self).job_rec(job_id).applications@.len() == 0
                    &&& final(self).job_rec(job_id).offers@.len() == 0
                    &&& final(self).job_rec(job_id).applied@ == Seq::<u64>::empty()
                    &&& final(self).job_rec(job_id).latest_offer@.len() == 0
                    &&& final(self).job_rec(job_id).counter_count@.len() == 0
                    &&& final(self).job_rec(job_id).offers_by_application@.len() == 0
                    &&& final(self).job_rec(job_id).accepted_at == 0
                    &&& final(self).open_job_count == old(self).open_job_count + 1
                    &&& final(self).matched_job_count == old(self).matched_job_count
                    &&& final(self).total_application_count == old(self).total_application_count
                    &&& final(self).total_offer_count == old(self).total_offer_count
                    &&& old(self).same_config(*final(self))
                },
                Err(e) => {
                    &&& Some(e) == old(self).create_job_error(*registry, *oracle, caller,
                        metadata_uri@, visibility, application_deadline_ts, comp_mode_mask,
                        invited@, now)
                    &&& *final(self) == *old(self)
                },
            },
    {
        if self.paused {
            return Err(BoardError::Paused);
        }
        if let Err(e) = require_eligible_agent(registry, oracle, caller, self.min_uptime_score) {
            return Err(e);
        }
        if metadata_uri.len() == 0 {
            return Err(BoardError::InvalidAmount);
        }
        if metadata_uri.len() > MAX_METADATA_URI_LEN {
            return Err(BoardError::InvalidAmount);
        }
        if application_deadline_ts <= now {
            return Err(BoardError::InvalidDeadline);
        }
        if invited.len() as u64 > self.max_invites_per_job {
            return Err(BoardError::InvalidAmount);
        }
        if invited.len() > MAX_INVITE_LOOP_GUARD {
            return Err(BoardError::InvalidAmount);
        }
        if visibility == JobVisibility::Public && invited.len() > 0 {
            return Err(BoardError::InvalidState);
        }
        if comp_mode_mask == 0 || comp_mode_mask > 7 {
            return Err(BoardError::InvalidState);
        }

        let job_id = self.jobs.len() as u64 + 1;
        let job = Job {
            id: job_id,
            employer: caller,
            metadata_uri,
            visibility,
            application_deadline_ts,
            min_worker_uptime,
            comp_mode_mask,
            status: JobStatus::Open,
            created_at: now,
            accepted_offer_id: 0,
            application_count: 0,
        };
        let rec = JobRecord {
            job,
            invites: invited,
            applications: Vec::new(),
            offers: Vec::new(),
            latest_offer: Vec::new(),
            counter_count: Vec::new(),
            applied: Vec::new(),
            offers_by_application: Vec::new(),
            accepted_at: 0,
        };
        self.jobs.push(rec);
        self.open_job_count = self.open_job_count + 1;
        proof {
            assert forall|i: int| 0 <= i < self.jobs@.len() implies rec_wf(
                #[trigger] self.jobs@[i],
                (i + 1) as u64,
            ) by {
                if i < self.jobs@.len() - 1 {
                    assert(self.jobs@[i] == old(self).jobs@[i]);
                }
            }
        }
        Ok(job_id)
    }

    /// The first failing check of `apply`, in the order the checks run.
    pub open spec fn apply_error(
        self,
        registry: BondRegistryMock,
        oracle: UptimeMock,
        caller: u64,
        job_id: u64,
        application_uri: Seq<u8>,
        now: u64,
    ) -> Option<BoardError> {
        if self.paused {
            Some(BoardError::Paused)
        } else if application_uri.len() == 0 {
            Some(BoardError::InvalidAmount)
        } else if application_uri.len() > MAX_APPLICATION_URI_LEN {
            Some(BoardError::InvalidAmount)
        } else if !self.has_job(job_id) {
            Some(BoardError::InvalidState)
        } else {
            let r = self.job_rec(job_id);
            let required = if r.job.min_worker_uptime > self.min_uptime_score {
                r.job.min_worker_uptime
            } else {
                self.min_uptime_score
            };
            if r.job.status != JobStatus::Open && r.job.status != JobStatus::InNegotiation {
                Some(BoardError::InvalidState)
            } else if now > r.job.application_deadline_ts {
                Some(BoardError::InvalidDeadline)
            } else if eligibility_error(registry, oracle, caller, required) is Some {
                eligibility_error(registry, oracle, caller, required)
            } else if r.job.visibility == JobVisibility::InviteOnly && !r.invites@.contains(caller) {
                Some(BoardError::NotInvited)
            } else if r.applied@.contains(caller) {
                Some(BoardError::AlreadyApplied)
            } else {
                None
            }
        }
    }

    /// Applies for a job. The job must be Open or InNegotiation with its
    /// deadline not passed; the caller must pass the eligibility gate at the
    /// larger of the job's and the global threshold, be invited when the job
    /// is invite-only, and not have applied before. On success the
    /// application is appended, the first application flips the job from
    /// Open to InNegotiation and releases one open-job count; on failure
    /// nothing changes.
    pub fn apply(
        &mut self,
        registry: &BondRegistryMock,
        oracle: &UptimeMock,
        caller: u64,
        now: u64,
        job_id: u64,
        application_uri: Vec<u8>,
    ) -> (r: Result<u64, BoardError>)
        requires
            old(self).wf(),
            old(self).has_job(job_id) ==> old(self).job_rec(job_id).applications@.len() + 1
                < u64::MAX,
            old(self).total_application_count < u64::MAX,
        ensures
            final(self).wf(),
            match r {
                Ok(application_id) => {
                    &&& old(self).apply_error(*registry, *oracle, caller, job_id,
                        application_uri@, now) is None
                    &&& old(self).has_job(job_id)
                    &&& application_id == old(self).job_rec(job_id).applications@.len() + 1
                    &&& final(self).jobs@.len() == old(self).jobs@.len()
                    &&& forall|i: int|
                        0 <= i < old(self).jobs@.len() && i != job_id - 1
                            ==> final(self).jobs@[i] == old(self).jobs@[i]
                    &&& {
                        let o = old(self).job_rec(job_id);
                        let n = final(self).job_rec(job_id);
                        &&& n.job@ == (JobView {
                            status: if o.job.status == JobStatus::Open {
                                JobStatus::InNegotiation
                            } else {
                                o.job.status
                            },
                            application_count: (o.job.application_count + 1) as u64,
                            ..o.job@
                        })
                        &&& n.applications@.len() == o.applications@.len() + 1
                        &&& forall|k: int|
                            0 <= k < o.applications@.len() ==> n.applications@[k]
                                == o.applications@[k]
                        &&& n.applications@.last()@ == (ApplicationView {
                            id: application_id,
                            job_id,
                            applicant: caller,
                            application_uri: application_uri@,
                            created_at: now,
                        })
                        &&& n.latest_offer@ == o.latest_offer@.push(0)
                        &&& n.counter_count@ == o.counter_count@.push(0)
                        &&& n.offers_by_application@.len() == o.offers_by_application@.len() + 1
                        &&& forall|k: int|
                            0 <= k < o.offers_by_application@.len() ==> n.offers_by_application@[k]
                                == o.offers_by_application@[k]
                        &&& n.offers_by_application@.last()@.len() == 0
                        &&& n.applied@ == o.applied@.push(caller)
                        &&& n.invites == o.invites
                        &&& n.offers == o.offers
                        &&& n.accepted_at == o.accepted_at
                    }
                    &&& final(self).open_job_count == (
                    if old(self).job_rec(job_id).job.status == JobStatus::Open && old(
                        self,
                    ).open_job_count > 0 {
                        (old(self).open_job_count - 1) as u64
                    } else {
                        old(self).open_job_count
                    })
                    &&& final(self).total_application_count == old(self).total_application_count
                        + 1
                    &&& final(self).total_offer_count == old(self).total_offer_count
                    &&& final(self).matched_job_count == old(self).matched_job_count
                    &&& old(self).same_config(*final(self))
                },
                Err(e) => {
                    &&& Some(e) == old(self).apply_error(*registry, *oracle, caller, job_id,
                        application_uri@, now)
                    &&& *final(self) == *old(self)
                },
            },
    {
        if self.paused {
            return Err(BoardError::Paused);
        }
        if application_uri.len() == 0 {
            return Err(BoardError::InvalidAmount);
        }
        if application_uri.len() > MAX_APPLICATION_URI_LEN {
            return Err(BoardError::InvalidAmount);
        }
        if job_id == 0 || job_id > self.jobs.len() as u64 {
            return Err(BoardError::InvalidState);
        }
        let j = (job_id - 1) as usize;
        {
            let rec = &self.jobs[j];
            if rec.job.status != JobStatus::Open && rec.job.status != JobStatus::InNegotiation {
                return Err(BoardError::InvalidState);
            }
            if now > rec.job.application_deadline_ts {
                return Err(BoardError::InvalidDeadline);
            }
            let required = if rec.job.min_worker_uptime > self.min_uptime_score {
                rec.job.min_worker_uptime
            } else {
                self.min_uptime_score
            };
            if let Err(e) = require_eligible_agent(registry, oracle, caller, required) {
                return Err(e);
            }
            if rec.job.visibility == JobVisibility::InviteOnly && !contains_account(
                &rec.invites,
                caller,
            ) {
                return Err(BoardError::NotInvited);
            }
            if contains_account(&rec.applied, caller) {
                return Err(BoardError::AlreadyApplied);
            }
        }

        let application_id = self.jobs[j].applications.len() as u64 + 1;
        let application = Application {
            id: application_id,
            job_id,
            applicant: caller,
            application_uri,
            created_at: now,
        };
        let ghost appv = application@;
        let empty_chain: Vec<u64> = Vec::new();
        let was_open = self.jobs[j].job.status == JobStatus::Open;
        let rec = &mut self.jobs[j];
        rec.applied.push(caller);
        rec.applications.push(application);
        rec.latest_offer.push(0);
        rec.counter_count.push(0);
        rec.offers_by_application.push(empty_chain);
        rec.job.application_count = rec.job.application_count + 1;
        if was_open {
            rec.job.status = JobStatus::InNegotiation;
        }
        if was_open && self.open_job_count > 0 {
            self.open_job_count = self.open_job_count - 1;
        }
        self.total_application_count = self.total_application_count + 1;
        proof {
            let oldj = old(self).jobs@[j as int];
            let newj = self.jobs@[j as int];
            assert forall|a: int| 0 <= a < newj.applications@.len() implies #[trigger] chain_wf(
                newj,
                a,
            ) by {
                if a < oldj.applications@.len() {
                    assert(chain_wf(oldj, a));
                    assert(newj.offers_by_application@[a] == oldj.offers_by_application@[a]);
                    assert(newj.latest_offer@[a] == oldj.latest_offer@[a]);
                } else {
                    assert(newj.offers_by_application@[a] == empty_chain);
                    assert(newj.offers_by_application@[a]@.len() == 0);
                    assert forall|k: int|
                        0 <= k < newj.offers@.len() implies (#[trigger] newj.offers@[k]).application_id
                        != a + 1 by {
                        assert(offer_wf(oldj.offers@[k], k + 1, job_id,
                            oldj.applications@.len() as int));
                    }
                }
            }
            assert(rec_wf(newj, job_id));
            assert forall|i: int| 0 <= i < self.jobs@.len() implies rec_wf(
                #[trigger] self.jobs@[i],
                (i + 1) as u64,
            ) by {
                if i != j as int {
                    assert(self.jobs@[i] == old(self).jobs@[i]);
                }
            }
        }
        Ok(application_id)
    }

    /// Whether an application has an unresolved latest offer, which blocks a
    /// new root proposal.
    pub open spec fn has_active_latest_offer(self, job_id: u64, application_id: u64) -> bool
        recommends
            self.has_application(job_id, application_id),
    {
        let latest = self.latest_of(job_id, application_id);
        latest != 0 && (self.offer_view(job_id, latest).status == OfferStatus::Proposed
            || self.offer_view(job_id, latest).status == OfferStatus::Countered)
    }

    /// The first failing check of `propose_offer`, in the order the checks
    /// run.
    pub open spec fn propose_offer_error(
        self,
        caller: u64,
        job_id: u64,
        application_id: u64,
        terms: OfferTermsView,
    ) -> Option<BoardError> {
        if self.paused {
            Some(BoardError::Paused)
        } else if !self.has_job(job_id) {
            Some(BoardError::InvalidState)
        } else if !self.has_application(job_id, application_id) {
            Some(BoardError::InvalidState)
        } else {
            let r = self.job_rec(job_id);
            if r.job.status == JobStatus::Matched || r.job.status == JobStatus::Closed
                || r.job.status == JobStatus::Expired {
                Some(BoardError::InvalidState)
            } else if caller != r.job.employer && caller != r.applications@[application_id
                - 1].applicant {
                Some(BoardError::Unauthorized)
            } else if offer_terms_error(terms) is Some {
                offer_terms_error(terms)
            } else if self.has_active_latest_offer(job_id, application_id) {
                Some(BoardError::StaleOffer)
            } else {
                None
            }
        }
    }

    /// Proposes a root offer on an application. Only the job's employer or
    /// the application's applicant may propose, the job must not be in a
    /// terminal or matched state, the terms must validate, and no unresolved
    /// latest offer may exist for the application. On success the offer is
    /// appended as Proposed with round 0 and no parent, and becomes the
    /// application's latest offer; on failure nothing changes.
    pub fn propose_offer(
        &mut self,
        caller: u64,
        now: u64,
        job_id: u64,
        application_id: u64,
        terms: OfferTermsInput,
    ) -> (r: Result<u64, BoardError>)
        requires
            old(self).wf(),
            old(self).has_job(job_id) ==> old(self).job_rec(job_id).offers@.len() + 1 < u64::MAX,
            old(self).total_offer_count < u64::MAX,
        ensures
            final(self).wf(),
            match r {
                Ok(offer_id) => {
                    &&& old(self).propose_offer_error(caller, job_id, application_id, terms@)
                        is None
                    &&& old(self).has_job(job_id)
                    &&& offer_id == old(self).job_rec(job_id).offers@.len() + 1
                    &&& final(self).jobs@.len() == old(self).jobs@.len()
                    &&& forall|i: int|
                        0 <= i < old(self).jobs@.len() && i != job_id - 1
                            ==> final(self).jobs@[i] == old(self).jobs@[i]
                    &&& {
                        let o = old(self).job_rec(job_id);
                        let n = final(self).job_rec(job_id);
                        let a = application_id - 1;
                        &&& n.job == o.job
                        &&& n.invites == o.invites
                        &&& n.applications == o.applications
                        &&& n.applied == o.applied
                        &&& n.counter_count == o.counter_count
                        &&& n.accepted_at == o.accepted_at
                        &&& n.offers@.len() == o.offers@.len() + 1
                        &&& forall|k: int| 0 <= k < o.offers@.len() ==> n.offers@[k] == o.offers@[k]
                        &&& n.offers@.last()@ == (crate::types::OfferView {
                            id: offer_id,
                            job_id,
                            application_id,
                            proposer: caller,
                            counterparty: if caller == o.job.employer {
                                o.applications@[a].applicant
                            } else {
                                o.job.employer
                            },
                            party: if caller == o.job.employer {
                                OfferParty::Employer
                            } else {
                                OfferParty::Worker
                            },
                            parent_offer_id: 0,
                            round_index: 0,
                            terms: terms@,
                            status: OfferStatus::Proposed,
                            created_at: now,
                        })
                        &&& n.latest_offer@ == o.latest_offer@.update(a, offer_id)
                        &&& n.offers_by_application@.len() == o.offers_by_application@.len()
                        &&& forall|b: int|
                            0 <= b < o.offers_by_application@.len() && b != a
                                ==> n.offers_by_application@[b] == o.offers_by_application@[b]
                        &&& n.offers_by_application@[a]@ == o.offers_by_application@[a]@.push(
                            offer_id,
                        )
                    }
                    &&& final(self).total_offer_count == old(self).total_offer_count + 1
                    &&& final(self).total_application_count == old(self).total_application_count
                    &&& final(self).open_job_count == old(self).open_job_count
                    &&& final(self).matched_job_count == old(self).matched_job_count
                    &&& old(self).same_config(*final(self))
                },
                Err(e) => {
                    &&& Some(e) == old(self).propose_offer_error(caller, job_id, application_id,
                        terms@)
                    &&& *final(self) == *old(self)
                },
            },
    {
        if self.paused {
            return Err(BoardError::Paused);
        }
        if job_id == 0 || job_id > self.jobs.len() as u64 {
            return Err(BoardError::InvalidState);
        }
        let j = (job_id - 1) as usize;
        if application_id == 0 || application_id > self.jobs[j].applications.len() as u64 {
            return Err(BoardError::InvalidState);
        }
        let a = (application_id - 1) as usize;
        {
            let rec = &self.jobs[j];
            if rec.job.status == JobStatus::Matched || rec.job.status == JobStatus::Closed
                || rec.job.status == JobStatus::Expired {
                return Err(BoardError::InvalidState);
            }
            if caller != rec.job.employer && caller != rec.applications[a].applicant {
                return Err(BoardError::Unauthorized);
            }
            if let Err(e) = validate_offer_terms(&terms) {
                return Err(e);
            }
            let latest = rec.latest_offer[a];
            if latest != 0 {
                let n_offers = rec.offers.len();
                proof {
                    assert(chain_wf(*rec, a as int));
                    let chain = rec.offers_by_application@[a as int]@;
                    assert(latest == chain[chain.len() - 1]);
                    assert(1 <= latest <= n_offers);
                }
                let latest_status = rec.offers[(latest - 1) as usize].status;
                if latest_status == OfferStatus::Proposed || latest_status == OfferStatus::Countered
                {
                    return Err(BoardError::StaleOffer);
                }
            }
        }

        let offer_id = self.jobs[j].offers.len() as u64 + 1;
        let employer = self.jobs[j].job.employer;
        let applicant = self.jobs[j].applications[a].applicant;
        let offer = Offer {
            id: offer_id,
            job_id,
            application_id,
            proposer: caller,
            counterparty: if caller == employer {
                applicant
            } else {
                employer
            },
            party: if caller == employer {
                OfferParty::Employer
            } else {
                OfferParty::Worker
            },
            parent_offer_id: 0,
            round_index: 0,
            terms: terms_input_to_terms(terms),
            status: OfferStatus::Proposed,
            created_at: now,
        };
        let rec = &mut self.jobs[j];
        rec.offers.push(offer);
        rec.offers_by_application[a].push(offer_id);
        rec.latest_offer[a] = offer_id;
        self.total_offer_count = self.total_offer_count + 1;
        proof {
            self.lemma_offer_appended_wf(*old(self), job_id, application_id);
        }
        Ok(offer_id)
    }

    /// The first failing check of `counter_offer`, in the order the checks
    /// run.
    pub open spec fn counter_offer_error(
        self,
        caller: u64,
        job_id: u64,
        offer_id: u64,
        terms: OfferTermsView,
    ) -> Option<BoardError> {
        if self.paused {
            Some(BoardError::Paused)
        } else if offer_terms_error(terms) is Some {
            offer_terms_error(terms)
        } else if !self.has_offer(job_id, offer_id) {
            Some(BoardError::InvalidState)
        } else {
            let prev = self.offer_view(job_id, offer_id);
            if prev.status != OfferStatus::Proposed && prev.status != OfferStatus::Countered {
                Some(BoardError::InvalidState)
            } else if caller != prev.counterparty {
                Some(BoardError::Unauthorized)
            } else if self.latest_of(job_id, prev.application_id) != offer_id {
                Some(BoardError::StaleOffer)
            } else if self.job_rec(job_id).counter_count@[prev.application_id - 1]
                >= self.max_counteroffers_per_application {
                Some(BoardError::CounterLimit)
            } else {
                None
            }
        }
    }

    /// Counters an offer. Only the countered offer's counterparty may act,
    /// the offer must still be its application's latest (else the call fails
    /// as stale), and the per-application counter-offer cap must not be
    /// reached. On success the countered offer flips to Countered and a new
    /// Proposed offer with swapped parties, the old offer as parent and an
    /// incremented round becomes the latest; on failure nothing changes.
    pub fn counter_offer(
        &mut self,
        caller: u64,
        now: u64,
        job_id: u64,
        offer_id: u64,
        terms: OfferTermsInput,
    ) -> (r: Result<u64, BoardError>)
        requires
            old(self).wf(),
            old(self).has_job(job_id) ==> old(self).job_rec(job_id).offers@.len() + 1 < u64::MAX,
            old(self).has_offer(job_id, offer_id) ==> old(self).job_rec(job_id).offers@[offer_id
                - 1].round_index < u64::MAX,
            old(self).total_offer_count < u64::MAX,
        ensures
            final(self).wf(),
            match r {
                Ok(new_offer_id) => {
                    &&& old(self).counter_offer_error(caller, job_id, offer_id, terms@) is None
                    &&& old(self).has_offer(job_id, offer_id)
                    &&& new_offer_id == old(self).job_rec(job_id).offers@.len() + 1
                    &&& final(self).jobs@.len() == old(self).jobs@.len()
                    &&& forall|i: int|
                        0 <= i < old(self).jobs@.len() && i != job_id - 1
                            ==> final(self).jobs@[i] == old(self).jobs@[i]
                    &&& {
                        let o = old(self).job_rec(job_id);
                        let n = final(self).job_rec(job_id);
                        let prev = old(self).offer_view(job_id, offer_id);
                        let a = prev.application_id - 1;
                        &&& n.job == o.job
                        &&& n.invites == o.invites
                        &&& n.applications == o.applications
                        &&& n.applied == o.applied
                        &&& n.accepted_at == o.accepted_at
                        &&& n.offers@.len() == o.offers@.len() + 1
                        &&& forall|k: int|
                            0 <= k < o.offers@.len() && k != offer_id - 1 ==> n.offers@[k]
                                == o.offers@[k]
                        &&& n.offers@[offer_id - 1]@ == (crate::types::OfferView {
                            status: OfferStatus::Countered,
                            ..prev
                        })
                        &&& n.offers@.last()@ == (crate::types::OfferView {
                            id: new_offer_id,
                            job_id,
                            application_id: prev.application_id,
                            proposer: caller,
                            counterparty: prev.proposer,
                            party: if caller == prev.proposer {
                                prev.party
                            } else {
                                match prev.party {
                                    OfferParty::Employer => OfferParty::Worker,
                                    OfferParty::Worker => OfferParty::Employer,
                                }
                            },
                            parent_offer_id: offer_id,
                            round_index: (prev.round_index + 1) as u64,
                            terms: terms@,
                            status: OfferStatus::Proposed,
                            created_at: now,
                        })
                        &&& n.latest_offer@ == o.latest_offer@.update(a, new_offer_id)
                        &&& n.counter_count@ == o.counter_count@.update(
                            a,
                            (o.counter_count@[a] + 1) as u64,
                        )
                        &&& n.offers_by_application@.len() == o.offers_by_application@.len()
                        &&& forall|b: int|
                            0 <= b < o.offers_by_application@.len() && b != a
                                ==> n.offers_by_application@[b] == o.offers_by_application@[b]
                        &&& n.offers_by_application@[a]@ == o.offers_by_application@[a]@.push(
                            new_offer_id,
                        )
                    }
                    &&& final(self).total_offer_count == old(self).total_offer_count + 1
                    &&& final(self).total_application_count == old(self).total_application_count
                    &&& final(self).open_job_count == old(self).open_job_count
                    &&& final(self).matched_job_count == old(self).matched_job_count
                    &&& old(self).same_config(*final(self))
                },
                Err(e) => {
                    &&& Some(e) == old(self).counter_offer_error(caller, job_id, offer_id, terms@)
                    &&& *final(self) == *old(self)
                },
            },
    {
        if self.paused {
            return Err(BoardError::Paused);
        }
        if let Err(e) = validate_offer_terms(&terms) {
            return Err(e);
        }
        if job_id == 0 || job_id > self.jobs.len() as u64 {
            return Err(BoardError::InvalidState);
        }
        let j = (job_id - 1) as usize;
        if offer_id == 0 || offer_id > self.jobs[j].offers.len() as u64 {
            return Err(BoardError::InvalidState);
        }
        let oidx = (offer_id - 1) as usize;
        let prev_status = self.jobs[j].offers[oidx].status;
        if prev_status != OfferStatus::Proposed && prev_status != OfferStatus::Countered {
            return Err(BoardError::InvalidState);
        }
        if caller != self.jobs[j].offers[oidx].counterparty {
            return Err(BoardError::Unauthorized);
        }
        let application_id = self.jobs[j].offers[oidx].application_id;
        let n_apps = self.jobs[j].applications.len();
        proof {
            assert(rec_wf(self.jobs@[j as int], job_id));
            assert(offer_wf(self.jobs@[j as int].offers@[oidx as int], oidx + 1, job_id,
                n_apps as int));
        }
        let a = (application_id - 1) as usize;
        if self.jobs[j].latest_offer[a] != offer_id {
            return Err(BoardError::StaleOffer);
        }
        let counter_count = self.jobs[j].counter_count[a];
        if counter_count >= self.max_counteroffers_per_application {
            return Err(BoardError::CounterLimit);
        }

        let new_offer_id = self.jobs[j].offers.len() as u64 + 1;
        let prev_proposer = self.jobs[j].offers[oidx].proposer;
        let prev_party = self.jobs[j].offers[oidx].party;
        let prev_round = self.jobs[j].offers[oidx].round_index;
        let new_offer = Offer {
            id: new_offer_id,
            job_id,
            application_id,
            proposer: caller,
            counterparty: prev_proposer,
            party: if caller == prev_proposer {
                prev_party
            } else {
                match prev_party {
                    OfferParty::Employer => OfferParty::Worker,
                    OfferParty::Worker => OfferParty::Employer,
                }
            },
            parent_offer_id: offer_id,
            round_index: prev_round + 1,
            terms: terms_input_to_terms(terms),
            status: OfferStatus::Proposed,
            created_at: now,
        };
        let rec = &mut self.jobs[j];
        rec.offers[oidx].status = OfferStatus::Countered;
        rec.offers.push(new_offer);
        rec.offers_by_application[a].push(new_offer_id);
        rec.latest_offer[a] = new_offer_id;
        rec.counter_count[a] = counter_count + 1;
        self.total_offer_count = self.total_offer_count + 1;
        proof {
            let o = old(self).job_rec(job_id);
            let n = self.job_rec(job_id);
            if o.job.accepted_offer_id != 0 {
                assert(o.offers@[o.job.accepted_offer_id - 1].status == OfferStatus::Accepted);
                assert(o.job.accepted_offer_id - 1 != oidx as int);
                assert(n.offers@[o.job.accepted_offer_id - 1].status == OfferStatus::Accepted);
            }
            self.lemma_offer_appended_wf(*old(self), job_id, application_id);
        }
        Ok(new_offer_id)
    }

    /// The staleness gate every single-offer action passes first: the offer
    /// must exist, still be Proposed or Countered, and be its application's
    /// latest offer.
    pub open spec fn stale_gate_error(self, job_id: u64, offer_id: u64) -> Option<BoardError> {
        if !self.has_offer(job_id, offer_id) {
            Some(BoardError::InvalidState)
        } else {
            let o = self.offer_view(job_id, offer_id);
            if o.status != OfferStatus::Proposed && o.status != OfferStatus::Countered {
                Some(BoardError::InvalidState)
            } else if self.latest_of(job_id, o.application_id) != offer_id {
                Some(BoardError::StaleOffer)
            } else {
                None
            }
        }
    }

    /// The first failing check of `reject_offer`, in the order the checks
    /// run.
    pub open spec fn reject_offer_error(self, caller: u64, job_id: u64, offer_id: u64) -> Option<
        BoardError,
    > {
        if self.paused {
            Some(BoardError::Paused)
        } else if self.stale_gate_error(job_id, offer_id) is Some {
            self.stale_gate_error(job_id, offer_id)
        } else if caller != self.offer_view(job_id, offer_id).counterparty {
            Some(BoardError::Unauthorized)
        } else {
            None
        }
    }

    /// The first failing check of `withdraw_offer`, in the order the checks
    /// run.
    pub open spec fn withdraw_offer_error(self, caller: u64, job_id: u64, offer_id: u64) -> Option<
        BoardError,
    > {
        if self.paused {
            Some(BoardError::Paused)
        } else if self.stale_gate_error(job_id, offer_id) is Some {
            self.stale_gate_error(job_id, offer_id)
        } else if caller != self.offer_view(job_id, offer_id).proposer {
            Some(BoardError::Unauthorized)
        } else {
            None
        }
    }

    /// The first failing check of `accept_offer`, in the order the checks
    /// run.
    pub open spec fn accept_offer_error(self, caller: u64, job_id: u64, offer_id: u64) -> Option<
        BoardError,
    > {
        if self.paused {
            Some(BoardError::Paused)
        } else if !self.has_job(job_id) {
            Some(BoardError::InvalidState)
        } else if self.job_rec(job_id).job.status == JobStatus::Matched {
            Some(BoardError::AlreadyMatched)
        } else if !self.has_offer(job_id, offer_id) {
            Some(BoardError::InvalidState)
        } else {
            let o = self.offer_view(job_id, offer_id);
            if o.status != OfferStatus::Proposed && o.status != OfferStatus::Countered {
                Some(BoardError::InvalidState)
            } else if self.latest_of(job_id, o.application_id) != offer_id {
                Some(BoardError::StaleOffer)
            } else if caller != o.counterparty {
                Some(BoardError::Unauthorized)
            } else {
                None
            }
        }
    }

    /// Locates an offer's chain coordinates and checks the staleness gate:
    /// shared body of `reject_offer` and `withdraw_offer` up to the caller
    /// check. Returns the offer's index when the offer exists, is Proposed
    /// or Countered, and is its application's latest.
    fn locate_actionable_offer(&self, job_id: u64, offer_id: u64) -> (r: Result<usize, BoardError>)
        requires
            self.wf(),
            !self.paused,
        ensures
            match r {
                Ok(oidx) => {
                    &&& self.stale_gate_error(job_id, offer_id) is None
                    &&& self.has_offer(job_id, offer_id)
                    &&& oidx == offer_id - 1
                },
                Err(e) => Some(e) == self.stale_gate_error(job_id, offer_id),
            },
    {
        if job_id == 0 || job_id > self.jobs.len() as u64 {
            return Err(BoardError::InvalidState);
        }
        let j = (job_id - 1) as usize;
        if offer_id == 0 || offer_id > self.jobs[j].offers.len() as u64 {
            return Err(BoardError::InvalidState);
        }
        let oidx = (offer_id - 1) as usize;
        let status = self.jobs[j].offers[oidx].status;
        if status != OfferStatus::Proposed && status != OfferStatus::Countered {
            return Err(BoardError::InvalidState);
        }
        let application_id = self.jobs[j].offers[oidx].application_id;
        let n_apps = self.jobs[j].applications.len();
        proof {
            assert(rec_wf(self.jobs@[j as int], job_id));
            assert(offer_wf(self.jobs@[j as int].offers@[oidx as int], oidx + 1, job_id,
                n_apps as int));
        }
        let a = (application_id - 1) as usize;
        if self.jobs[j].latest_offer[a] != offer_id {
            return Err(BoardError::StaleOffer);
        }
        Ok(oidx)
    }

    /// A ledger that differs from a well-formed one only in the status of
    /// one offer is well formed again, as long as the job's accepted offer,
    /// if any, still reads Accepted.
    proof fn lemma_offer_status_changed_wf(self, prev: JobBoardCore, job_id: u64, offer_id: u64)
        requires
            prev.wf(),
            prev.has_offer(job_id, offer_id),
            self.jobs@.len() == prev.jobs@.len(),
            self.open_job_count == prev.open_job_count,
            forall|i: int|
                0 <= i < prev.jobs@.len() && i != job_id - 1 ==> self.jobs@[i] == prev.jobs@[i],
            ({
                let o = prev.job_rec(job_id);
                let n = self.job_rec(job_id);
                &&& n.job == o.job
                &&& n.invites == o.invites
                &&& n.applications == o.applications
                &&& n.applied == o.applied
                &&& n.latest_offer == o.latest_offer
                &&& n.counter_count == o.counter_count
                &&& n.offers_by_application == o.offers_by_application
                &&& n.accepted_at == o.accepted_at
                &&& n.offers@.len() == o.offers@.len()
                &&& forall|k: int|
                    0 <= k < o.offers@.len() && k != offer_id - 1 ==> n.offers@[k] == o.offers@[k]
                &&& n.offers@[offer_id - 1].id == o.offers@[offer_id - 1].id
                &&& n.offers@[offer_id - 1].job_id == o.offers@[offer_id - 1].job_id
                &&& n.offers@[offer_id - 1].application_id == o.offers@[offer_id
                    - 1].application_id
                &&& (o.job.accepted_offer_id != 0 ==> n.offers@[o.job.accepted_offer_id - 1].status
                    == OfferStatus::Accepted)
            }),
        ensures
            self.wf(),
    {
        let o = prev.job_rec(job_id);
        let n = self.job_rec(job_id);
        assert forall|b: int| 0 <= b < n.applications@.len() implies #[trigger] chain_wf(n, b) by {
            assert(chain_wf(o, b));
            assert forall|k: int|
                0 <= k < n.offers@.len() && (#[trigger] n.offers@[k]).application_id == b + 1
                implies n.offers_by_application@[b]@.contains((k + 1) as u64) by {
                assert(o.offers@[k].application_id == b + 1);
            }
        }
        assert(rec_wf(n, job_id));
        assert forall|i: int| 0 <= i < self.jobs@.len() implies rec_wf(
            #[trigger] self.jobs@[i],
            (i + 1) as u64,
        ) by {
            if i != job_id - 1 {
                assert(self.jobs@[i] == prev.jobs@[i]);
            }
        }
    }

    /// Rejects an offer. Only the counterparty of the application's latest
    /// offer may reject, and only while the offer is Proposed or Countered;
    /// acting on a non-latest offer fails as stale. On success the offer
    /// becomes Rejected and nothing else changes.
    pub fn reject_offer(&mut self, caller: u64, job_id: u64, offer_id: u64) -> (r: Result<
        (),
        BoardError,
    >)
        requires
            old(self).wf(),
        ensures
            final(self).wf(),
            match r {
                Ok(_) => {
                    &&& old(self).reject_offer_error(caller, job_id, offer_id) is None
                    &&& old(self).has_offer(job_id, offer_id)
                    &&& final(self).jobs@.len() == old(self).jobs@.len()
                    &&& forall|i: int|
                        0 <= i < old(self).jobs@.len() && i != job_id - 1
                            ==> final(self).jobs@[i] == old(self).jobs@[i]
                    &&& {
                        let o = old(self).job_rec(job_id);
                        let n = final(self).job_rec(job_id);
                        &&& n.job == o.job
                        &&& n.invites == o.invites
                        &&& n.applications == o.applications
                        &&& n.applied == o.applied
                        &&& n.latest_offer == o.latest_offer
                        &&& n.counter_count == o.counter_count
                        &&& n.offers_by_application == o.offers_by_application
                        &&& n.accepted_at == o.accepted_at
                        &&& n.offers@.len() == o.offers@.len()
                        &&& forall|k: int|
                            0 <= k < o.offers@.len() && k != offer_id - 1 ==> n.offers@[k]
                                == o.offers@[k]
                        &&& n.offers@[offer_id - 1]@ == (crate::types::OfferView {
                            status: OfferStatus::Rejected,
                            ..old(self).offer_view(job_id, offer_id)
                        })
                    }
                    &&& final(self).total_offer_count == old(self).total_offer_count
                    &&& final(self).total_application_count == old(self).total_application_count
                    &&& final(self).open_job_count == old(self).open_job_count
                    &&& final(self).matched_job_count == old(self).matched_job_count
                    &&& old(self).same_config(*final(self))
                },
                Err(e) => {
                    &&& Some(e) == old(self).reject_offer_error(caller, job_id, offer_id)
                    &&& *final(self) == *old(self)
                },
            },
    {
        if self.paused {
            return Err(BoardError::Paused);
        }
        let oidx = match self.locate_actionable_offer(job_id, offer_id) {
            Ok(oidx) => oidx,
            Err(e) => {
                return Err(e);
            },
        };
        let n_jobs = self.jobs.len();
        proof {
            assert(1 <= job_id <= n_jobs);
        }
        let j = (job_id - 1) as usize;
        if caller != self.jobs[j].offers[oidx].counterparty {
            return Err(BoardError::Unauthorized);
        }
        let rec = &mut self.jobs[j];
        rec.offers[oidx].status = OfferStatus::Rejected;
        proof {
            let o = old(self).job_rec(job_id);
            if o.job.accepted_offer_id != 0 {
                assert(o.job.accepted_offer_id - 1 != oidx as int);
            }
            self.lemma_offer_status_changed_wf(*old(self), job_id, offer_id);
        }
        Ok(())
    }

    /// Withdraws an offer. Only the proposer of the application's latest
    /// offer may withdraw, and only while the offer is Proposed or
    /// Countered; acting on a non-latest offer fails as stale. On success
    /// the offer becomes Withdrawn and nothing else changes.
    pub fn withdraw_offer(&mut self, caller: u64, job_id: u64, offer_id: u64) -> (r: Result<
        (),
        BoardError,
    >)
        requires
            old(self).wf(),
        ensures
            final(self).wf(),
            match r {
                Ok(_) => {
                    &&& old(self).withdraw_offer_error(caller, job_id, offer_id) is None
                    &&& old(self).has_offer(job_id, offer_id)
                    &&& final(self).jobs@.len() == old(self).jobs@.len()
                    &&& forall|i: int|
                        0 <= i < old(self).jobs@.len() && i != job_id - 1
                            ==> final(self).jobs@[i] == old(self).jobs@[i]
                    &&& {
                        let o = old(self).job_rec(job_id);
                        let n = final(self).job_rec(job_id);
                        &&& n.job == o.job
                        &&& n.invites == o.invites
                        &&& n.applications == o.applications
                        &&& n.applied == o.applied
                        &&& n.latest_offer == o.latest_offer
                        &&& n.counter_count == o.counter_count
                        &&& n.offers_by_application == o.offers_by_application
                        &&& n.accepted_at == o.accepted_at
                        &&& n.offers@.len() == o.offers@.len()
                        &&& forall|k: int|
                            0 <= k < o.offers@.len() && k != offer_id - 1 ==> n.offers@[k]
                                == o.offers@[k]
                        &&& n.offers@[offer_id - 1]@ == (crate::types::OfferView {
                            status: OfferStatus::Withdrawn,
                            ..old(self).offer_view(job_id, offer_id)
                        })
                    }
                    &&& final(self).total_offer_count == old(self).total_offer_count
                    &&& final(self).total_application_count == old(self).total_application_count
                    &&& final(self).open_job_count == old(self).open_job_count
                    &&& final(self).matched_job_count == old(self).matched_job_count
                    &&& old(self).same_config(*final(self))
                },
                Err(e) => {
                    &&& Some(e) == old(self).withdraw_offer_error(caller, job_id, offer_id)
                    &&& *final(self) == *old(self)
                },
            },
    {
        if self.paused {
            return Err(BoardError::Paused);
        }
        let oidx = match self.locate_actionable_offer(job_id, offer_id) {
            Ok(oidx) => oidx,
            Err(e) => {
                return Err(e);
            },
        };
        let n_jobs = self.jobs.len();
        proof {
            assert(1 <= job_id <= n_jobs);
        }
        let j = (job_id - 1) as usize;
        if caller != self.jobs[j].offers[oidx].proposer {
            return Err(BoardError::Unauthorized);
        }
        let rec = &mut self.jobs[j];
        rec.offers[oidx].status = OfferStatus::Withdrawn;
        proof {
            let o = old(self).job_rec(job_id);
            if o.job.accepted_offer_id != 0 {
                assert(o.job.accepted_offer_id - 1 != oidx as int);
            }
            self.lemma_offer_status_changed_wf(*old(self), job_id, offer_id);
        }
        Ok(())
    }

    /// Accepts an offer: the one-way transition that matches a job. Only
    /// the counterparty of the application's latest offer may accept, the
    /// offer must be Proposed or Countered, and the job must not already be
    /// Matched — so no second offer of a matched job can ever be accepted.
    /// On success the offer becomes Accepted, the job becomes Matched and
    /// records the offer as its accepted offer, and the matched-job counter
    /// grows; on failure nothing changes.
    pub fn accept_offer(&mut self, caller: u64, now: u64, job_id: u64, offer_id: u64) -> (r: Result<
        (),
        BoardError,
    >)
        requires
            old(self).wf(),
            old(self).matched_job_count < u64::MAX,
        ensures
            final(self).wf(),
            match r {
                Ok(_) => {
                    &&& old(self).accept_offer_error(caller, job_id, offer_id) is None
                    &&& old(self).has_offer(job_id, offer_id)
                    &&& final(self).jobs@.len() == old(self).jobs@.len()
                    &&& forall|i: int|
                        0 <= i < old(self).jobs@.len() && i != job_id - 1
                            ==> final(self).jobs@[i] == old(self).jobs@[i]
                    &&& {
                        let o = old(self).job_rec(job_id);
                        let n = final(self).job_rec(job_id);
                        &&& n.job@ == (JobView {
                            status: JobStatus::Matched,
                            accepted_offer_id: offer_id,
                            ..o.job@
                        })
                        &&& n.invites == o.invites
                        &&& n.applications == o.applications
                        &&& n.applied == o.applied
                        &&& n.latest_offer == o.latest_offer
                        &&& n.counter_count == o.counter_count
                        &&& n.offers_by_application == o.offers_by_application
                        &&& n.accepted_at == now
                        &&& n.offers@.len() == o.offers@.len()
                        &&& forall|k: int|
                            0 <= k < o.offers@.len() && k != offer_id - 1 ==> n.offers@[k]
                                == o.offers@[k]
                        &&& n.offers@[offer_id - 1]@ == (crate::types::OfferView {
                            status: OfferStatus::Accepted,
                            ..old(self).offer_view(job_id, offer_id)
                        })
                    }
                    &&& final(self).accepted_offer_spec(job_id) is Some
                    &&& final(self).total_offer_count == old(self).total_offer_count
                    &&& final(self).total_application_count == old(self).total_application_count
                    &&& final(self).open_job_count == old(self).open_job_count
                    &&& final(self).matched_job_count == old(self).matched_job_count + 1
                    &&& old(self).same_config(*final(self))
                },
                Err(e) => {
                    &&& Some(e) == old(self).accept_offer_error(caller, job_id, offer_id)
                    &&& *final(self) == *old(self)
                },
            },
    {
        if self.paused {
            return Err(BoardError::Paused);
        }
        if job_id == 0 || job_id > self.jobs.len() as u64 {
            return Err(BoardError::InvalidState);
        }
        let j = (job_id - 1) as usize;
        if self.jobs[j].job.status == JobStatus::Matched {
            return Err(BoardError::AlreadyMatched);
        }
        if offer_id == 0 || offer_id > self.jobs[j].offers.len() as u64 {
            return Err(BoardError::InvalidState);
        }
        let oidx = (offer_id - 1) as usize;
        let status = self.jobs[j].offers[oidx].status;
        if status != OfferStatus::Proposed && status != OfferStatus::Countered {
            return Err(BoardError::InvalidState);
        }
        let application_id = self.jobs[j].offers[oidx].application_id;
        let n_apps = self.jobs[j].applications.len();
        proof {
            assert(rec_wf(self.jobs@[j as int], job_id));
            assert(offer_wf(self.jobs@[j as int].offers@[oidx as int], oidx + 1, job_id,
                n_apps as int));
        }
        let a = (application_id - 1) as usize;
        if self.jobs[j].latest_offer[a] != offer_id {
            return Err(BoardError::StaleOffer);
        }
        if caller != self.jobs[j].offers[oidx].counterparty {
            return Err(BoardError::Unauthorized);
        }
        let rec = &mut self.jobs[j];
        rec.offers[oidx].status = OfferStatus::Accepted;
        rec.job.status = JobStatus::Matched;
        rec.job.accepted_offer_id = offer_id;
        rec.accepted_at = now;
        self.matched_job_count = self.matched_job_count + 1;
        proof {
            let o = old(self).job_rec(job_id);
            let n = self.job_rec(job_id);
            assert forall|b: int| 0 <= b < n.applications@.len() implies #[trigger] chain_wf(n, b)
            by {
                assert(chain_wf(o, b));
                assert forall|k: int|
                    0 <= k < n.offers@.len() && (#[trigger] n.offers@[k]).application_id == b + 1
                    implies n.offers_by_application@[b]@.contains((k + 1) as u64) by {
                    assert(o.offers@[k].application_id == b + 1);
                }
            }
            assert(rec_wf(n, job_id));
            assert forall|i: int| 0 <= i < self.jobs@.len() implies rec_wf(
                #[trigger] self.jobs@[i],
                (i + 1) as u64,
            ) by {
                if i != j as int {
                    assert(self.jobs@[i] == old(self).jobs@[i]);
                }
            }
        }
        Ok(())
    }

    /// The first failing check of `cancel_job`, in the order the checks run.
    pub open spec fn cancel_job_error(self, caller: u64, job_id: u64) -> Option<BoardError> {
        if self.paused {
            Some(BoardError::Paused)
        } else if !self.has_job(job_id) {
            Some(BoardError::InvalidState)
        } else {
            let job = self.job_rec(job_id).job;
            if caller != job.employer {
                Some(BoardError::Unauthorized)
            } else if job.status == JobStatus::Matched && job.accepted_offer_id != 0 {
                Some(BoardError::AlreadyMatched)
            } else if job.status == JobStatus::Closed || job.status == JobStatus::Expired {
                Some(BoardError::InvalidState)
            } else {
                None
            }
        }
    }

    /// Cancels a job. Only its employer may cancel, and not once the job is
    /// matched or already terminal. On success the job becomes Closed and an
    /// Open job releases one open-job count; on failure nothing changes.
    pub fn cancel_job(&mut self, caller: u64, job_id: u64) -> (r: Result<(), BoardError>)
        requires
            old(self).wf(),
        ensures
            final(self).wf(),
            match r {
                Ok(_) => {
                    &&& old(self).cancel_job_error(caller, job_id) is None
                    &&& old(self).has_job(job_id)
                    &&& final(self).jobs@.len() == old(self).jobs@.len()
                    &&& forall|i: int|
                        0 <= i < old(self).jobs@.len() && i != job_id - 1
                            ==> final(self).jobs@[i] == old(self).jobs@[i]
                    &&& {
                        let o = old(self).job_rec(job_id);
                        let n = final(self).job_rec(job_id);
                        &&& n.job@ == (JobView { status: JobStatus::Closed, ..o.job@ })
                        &&& n.invites == o.invites
                        &&& n.applications == o.applications
                        &&& n.applied == o.applied
                        &&& n.latest_offer == o.latest_offer
                        &&& n.counter_count == o.counter_count
                        &&& n.offers == o.offers
                        &&& n.offers_by_application == o.offers_by_application
                        &&& n.accepted_at == o.accepted_at
                    }
                    &&& final(self).open_job_count == (
                    if old(self).job_rec(job_id).job.status == JobStatus::Open && old(
                        self,
                    ).open_job_count > 0 {
                        (old(self).open_job_count - 1) as u64
                    } else {
                        old(self).open_job_count
                    })
                    &&& final(self).matched_job_count == old(self).matched_job_count
                    &&& final(self).total_application_count == old(self).total_application_count
                    &&& final(self).total_offer_count == old(self).total_offer_count
                    &&& old(self).same_config(*final(self))
                },
                Err(e) => {
                    &&& Some(e) == old(self).cancel_job_error(caller, job_id)
                    &&& *final(self) == *old(self)
                },
            },
    {
        if self.paused {
            return Err(BoardError::Paused);
        }
        if job_id == 0 || job_id > self.jobs.len() as u64 {
            return Err(BoardError::InvalidState);
        }
        let j = (job_id - 1) as usize;
        if caller != self.jobs[j].job.employer {
            return Err(BoardError::Unauthorized);
        }
        let status = self.jobs[j].job.status;
        if status == JobStatus::Matched && self.jobs[j].job.accepted_offer_id != 0 {
            return Err(BoardError::AlreadyMatched);
        }
        if status == JobStatus::Closed || status == JobStatus::Expired {
            return Err(BoardError::InvalidState);
        }
        if status == JobStatus::Open && self.open_job_count > 0 {
            self.open_job_count = self.open_job_count - 1;
        }
        if status == JobStatus::Matched && self.matched_job_count > 0 {
            self.matched_job_count = self.matched_job_count - 1;
        }
        self.jobs[j].job.status = JobStatus::Closed;
        proof {
            self.lemma_job_fields_changed_wf(*old(self), job_id);
        }
        Ok(())
    }

    /// The first failing check of `expire_job`, in the order the checks run.
    pub open spec fn expire_job_error(self, job_id: u64, now: u64) -> Option<BoardError> {
        if self.paused {
            Some(BoardError::Paused)
        } else if !self.has_job(job_id) {
            Some(BoardError::InvalidState)
        } else {
            let job = self.job_rec(job_id).job;
            if job.status != JobStatus::Open && job.status != JobStatus::InNegotiation {
                Some(BoardError::InvalidState)
            } else if now <= job.application_deadline_ts {
                Some(BoardError::InvalidDeadline)
            } else {
                None
            }
        }
    }

    /// Expires a job whose application deadline has passed without a match.
    /// Anyone may call it; the job must still be Open or InNegotiation. On
    /// success the job becomes Expired and an Open job releases one open-job
    /// count; on failure nothing changes.
    pub fn expire_job(&mut self, now: u64, job_id: u64) -> (r: Result<(), BoardError>)
        requires
            old(self).wf(),
        ensures
            final(self).wf(),
            match r {
                Ok(_) => {
                    &&& old(self).expire_job_error(job_id, now) is None
                    &&& old(self).has_job(job_id)
                    &&& final(self).jobs@.len() == old(self).jobs@.len()
                    &&& forall|i: int|
                        0 <= i < old(self).jobs@.len() && i != job_id - 1
                            ==> final(self).jobs@[i] == old(self).jobs@[i]
                    &&& {
                        let o = old(self).job_rec(job_id);
                        let n = final(self).job_rec(job_id);
                        &&& n.job@ == (JobView { status: JobStatus::Expired, ..o.job@ })
                        &&& n.invites == o.invites
                        &&& n.applications == o.applications
                        &&& n.applied == o.applied
                        &&& n.latest_offer == o.latest_offer
                        &&& n.counter_count == o.counter_count
                        &&& n.offers == o.offers
                        &&& n.offers_by_application == o.offers_by_application
                        &&& n.accepted_at == o.accepted_at
                    }
                    &&& final(self).open_job_count == (
                    if old(self).job_rec(job_id).job.status == JobStatus::Open && old(
                        self,
                    ).open_job_count > 0 {
                        (old(self).open_job_count - 1) as u64
                    } else {
                        old(self).open_job_count
                    })
                    &&& final(self).matched_job_count == old(self).matched_job_count
                    &&& final(self).total_application_count == old(self).total_application_count
                    &&& final(self).total_offer_count == old(self).total_offer_count
                    &&& old(self).same_config(*final(self))
                },
                Err(e) => {
                    &&& Some(e) == old(self).expire_job_error(job_id, now)
                    &&& *final(self) == *old(self)
                },
            },
    {
        if self.paused {
            return Err(BoardError::Paused);
        }
        if job_id == 0 || job_id > self.jobs.len() as u64 {
            return Err(BoardError::InvalidState);
        }
        let j = (job_id - 1) as usize;
        let status = self.jobs[j].job.status;
        if status != JobStatus::Open && status != JobStatus::InNegotiation {
            return Err(BoardError::InvalidState);
        }
        if now <= self.jobs[j].job.application_deadline_ts {
            return Err(BoardError::InvalidDeadline);
        }
        if status == JobStatus::Open && self.open_job_count > 0 {
            self.open_job_count = self.open_job_count - 1;
        }
        self.jobs[j].job.status = JobStatus::Expired;
        proof {
            self.lemma_job_fields_changed_wf(*old(self), job_id);
        }
        Ok(())
    }

    /// A ledger that differs from a well-formed one only in one job's status
    /// bookkeeping is well formed again, as long as the accepted-offer
    /// coupling still holds of the new job fields.
    proof fn lemma_job_fields_changed_wf(self, prev: JobBoardCore, job_id: u64)
        requires
            prev.wf(),
            prev.has_job(job_id),
            self.jobs@.len() == prev.jobs@.len(),
            self.open_job_count <= prev.open_job_count,
            forall|i: int|
                0 <= i < prev.jobs@.len() && i != job_id - 1 ==> self.jobs@[i] == prev.jobs@[i],
            ({
                let o = prev.job_rec(job_id);
                let n = self.job_rec(job_id);
                &&& n.job.id == o.job.id
                &&& n.job.application_count == o.job.application_count
                &&& n.invites == o.invites
                &&& n.applications == o.applications
                &&& n.applied == o.applied
                &&& n.latest_offer == o.latest_offer
                &&& n.counter_count == o.counter_count
                &&& n.offers == o.offers
                &&& n.offers_by_application == o.offers_by_application
                &&& (n.job.accepted_offer_id != 0 <==> n.job.status == JobStatus::Matched)
                &&& (n.job.accepted_offer_id != 0 ==> 1 <= n.job.accepted_offer_id
                    <= n.offers@.len() && n.offers@[n.job.accepted_offer_id - 1].status
                    == OfferStatus::Accepted)
            }),
        ensures
            self.wf(),
    {
        let o = prev.job_rec(job_id);
        let n = self.job_rec(job_id);
        assert forall|b: int| 0 <= b < n.applications@.len() implies #[trigger] chain_wf(n, b) by {
            assert(chain_wf(o, b));
        }
        assert(rec_wf(n, job_id));
        assert forall|i: int| 0 <= i < self.jobs@.len() implies rec_wf(
            #[trigger] self.jobs@[i],
            (i + 1) as u64,
        ) by {
            if i != job_id - 1 {
                assert(self.jobs@[i] == prev.jobs@[i]);
            }
        }
    }

    /// Owner-only: sets the global minimum uptime score.
    pub fn set_min_uptime_score(&mut self, caller: u64, value: u64) -> (r: Result<(), BoardError>)
        requires
            old(self).wf(),
        ensures
            final(self).wf(),
            match r {
                Ok(_) => caller == old(self).owner && *final(self) == (JobBoardCore {
                    min_uptime_score: value,
                    ..*old(self)
                }),
                Err(e) => caller != old(self).owner && e == BoardError::Unauthorized && *final(self)
                    == *old(self),
            },
    {
        if caller != self.owner {
            return Err(BoardError::Unauthorized);
        }
        self.min_uptime_score = value;
        Ok(())
    }

    /// Owner-only: sets the counter-offer cap; zero is rejected.
    pub fn set_max_counteroffers_per_application(&mut self, caller: u64, value: u64) -> (r: Result<
        (),
        BoardError,
    >)
        requires
            old(self).wf(),
        ensures
            final(self).wf(),
            match r {
                Ok(_) => caller == old(self).owner && value > 0 && *final(self) == (JobBoardCore {
                    max_counteroffers_per_application: value,
                    ..*old(self)
                }),
                Err(e) => *final(self) == *old(self) && (if caller != old(self).owner {
                    e == BoardError::Unauthorized
                } else {
                    value == 0 && e == BoardError::InvalidAmount
                }),
            },
    {
        if caller != self.owner {
            return Err(BoardError::Unauthorized);
        }
        if value == 0 {
            return Err(BoardError::InvalidAmount);
        }
        self.max_counteroffers_per_application = value;
        Ok(())
    }

    /// Owner-only: sets the invitee cap; zero is rejected.
    pub fn set_max_invites_per_job(&mut self, caller: u64, value: u64) -> (r: Result<
        (),
        BoardError,
    >)
        requires
            old(self).wf(),
        ensures
            final(self).wf(),
            match r {
                Ok(_) => caller == old(self).owner && value > 0 && *final(self) == (JobBoardCore {
                    max_invites_per_job: value,
                    ..*old(self)
                }),
                Err(e) => *final(self) == *old(self) && (if caller != old(self).owner {
                    e == BoardError::Unauthorized
                } else {
                    value == 0 && e == BoardError::InvalidAmount
                }),
            },
    {
        if caller != self.owner {
            return Err(BoardError::Unauthorized);
        }
        if value == 0 {
            return Err(BoardError::InvalidAmount);
        }
        self.max_invites_per_job = value;
        Ok(())
    }

    /// Owner-only: pauses or unpauses every state-changing entry point.
    pub fn set_paused(&mut self, caller: u64, paused: bool) -> (r: Result<(), BoardError>)
        requires
            old(self).wf(),
        ensures
            final(self).wf(),
            match r {
                Ok(_) => caller == old(self).owner && *final(self) == (JobBoardCore {
                    paused,
                    ..*old(self)
                }),
                Err(e) => caller != old(self).owner && e == BoardError::Unauthorized && *final(self)
                    == *old(self),
            },
    {
        if caller != self.owner {
            return Err(BoardError::Unauthorized);
        }
        self.paused = paused;
        Ok(())
    }

    /// Owner-only: hands ownership to a nonzero account.
    pub fn set_owner(&mut self, caller: u64, new_owner: u64) -> (r: Result<(), BoardError>)
        requires
            old(self).wf(),
        ensures
            final(self).wf(),
            match r {
                Ok(_) => caller == old(self).owner && new_owner != 0 && *final(self)
                    == (JobBoardCore { owner: new_owner, ..*old(self) }),
                Err(e) => *final(self) == *old(self) && (if caller != old(self).owner {
                    e == BoardError::Unauthorized
                } else {
                    new_owner == 0 && e == BoardError::InvalidAmount
                }),
            },
    {
        if caller != self.owner {
            return Err(BoardError::Unauthorized);
        }
        if new_owner == 0 {
            return Err(BoardError::InvalidAmount);
        }
        self.owner = new_owner;
        Ok(())
    }

    /// The job with this id, if it exists.
    pub fn get_job(&self, job_id: u64) -> (r: Option<Job>)
        requires
            self.wf(),
        ensures
            match r {
                Some(job) => self.has_job(job_id) && job@ == self.job_rec(job_id).job@,
                None => !self.has_job(job_id),
            },
    {
        if job_id == 0 || job_id > self.jobs.len() as u64 {
            return None;
        }
        Some(self.jobs[(job_id - 1) as usize].job.clone())
    }

    /// The application with this id under the job, if it exists.
    pub fn get_application(&self, job_id: u64, application_id: u64) -> (r: Option<Application>)
        requires
            self.wf(),
        ensures
            match r {
                Some(app) => self.has_application(job_id, application_id) && app@ == self.job_rec(
                    job_id,
                ).applications@[application_id - 1]@,
                None => !self.has_application(job_id, application_id),
            },
    {
        if job_id == 0 || job_id > self.jobs.len() as u64 {
            return None;
        }
        let j = (job_id - 1) as usize;
        if application_id == 0 || application_id > self.jobs[j].applications.len() as u64 {
            return None;
        }
        Some(self.jobs[j].applications[(application_id - 1) as usize].clone())
    }

    /// The offer with this id under the job, if it exists.
    pub fn get_offer(&self, job_id: u64, offer_id: u64) -> (r: Option<Offer>)
        requires
            self.wf(),
        ensures
            match r {
                Some(offer) => self.has_offer(job_id, offer_id) && offer@ == self.offer_view(
                    job_id,
                    offer_id,
                ),
                None => !self.has_offer(job_id, offer_id),
            },
    {
        if job_id == 0 || job_id > self.jobs.len() as u64 {
            return None;
        }
        let j = (job_id - 1) as usize;
        if offer_id == 0 || offer_id > self.jobs[j].offers.len() as u64 {
            return None;
        }
        Some(self.jobs[j].offers[(offer_id - 1) as usize].clone())
    }

    /// The accepted-offer summary of a job: the one channel through which
    /// the escrow learns of a match. None while the job has no accepted
    /// offer.
    pub fn get_accepted_offer(&self, job_id: u64) -> (r: Option<AcceptedOfferSummary>)
        requires
            self.wf(),
        ensures
            match r {
                Some(summary) => self.accepted_offer_spec(job_id) is Some && summary@ == self
                    .accepted_offer_spec(job_id).unwrap(),
                None => self.accepted_offer_spec(job_id) is None,
            },
    {
        if job_id == 0 || job_id > self.jobs.len() as u64 {
            return None;
        }
        let j = (job_id - 1) as usize;
        let offer_id = self.jobs[j].job.accepted_offer_id;
        if offer_id == 0 {
            return None;
        }
        proof {
            assert(rec_wf(self.jobs@[j as int], job_id));
        }
        let n_offers = self.jobs[j].offers.len();
        let oidx = (offer_id - 1) as usize;
        let application_id = self.jobs[j].offers[oidx].application_id;
        let n_apps = self.jobs[j].applications.len();
        proof {
            assert(offer_wf(self.jobs@[j as int].offers@[oidx as int], oidx + 1, job_id,
                n_apps as int));
        }
        let a = (application_id - 1) as usize;
        Some(
            AcceptedOfferSummary {
                job_id,
                offer_id,
                employer: self.jobs[j].job.employer,
                worker: self.jobs[j].applications[a].applicant,
                terms: self.jobs[j].offers[oidx].terms.clone(),
                accepted_at: self.jobs[j].accepted_at,
            },
        )
    }

    /// Whether an account may apply to a job: any account on a public job,
    /// only invitees on an invite-only one, nobody on a missing job.
    pub fn is_invite_allowed(&self, job_id: u64, addr: u64) -> (r: bool)
        ensures
            r == {
                if !self.has_job(job_id) {
                    false
                } else if self.job_rec(job_id).job.visibility == JobVisibility::Public {
                    true
                } else {
                    self.job_rec(job_id).invites@.contains(addr)
                }
            },
    {
        if job_id == 0 || job_id > self.jobs.len() as u64 {
            return false;
        }
        let j = (job_id - 1) as usize;
        if self.jobs[j].job.visibility == JobVisibility::Public {
            return true;
        }
        contains_account(&self.jobs[j].invites, addr)
    }

    /// The ledger's counters.
    pub fn get_board_stats(&self) -> (r: BoardStats)
        ensures
            r.total_jobs == self.jobs@.len(),
            r.open_jobs == self.open_job_count,
            r.matched_jobs == self.matched_job_count,
            r.total_applications == self.total_application_count,
            r.total_offers == self.total_offer_count,
    {
        BoardStats {
            total_jobs: self.jobs.len() as u64,
            open_jobs: self.open_job_count,
            matched_jobs: self.matched_job_count,
            total_applications: self.total_application_count,
            total_offers: self.total_offer_count,
        }
    }

    /// The ledger's configuration.
    pub fn get_config(&self) -> (r: JobBoardConfig)
        ensures
            r.owner == self.owner,
            r.bond_registry == self.bond_registry,
            r.uptime == self.uptime,
            r.min_uptime_score == self.min_uptime_score,
            r.max_counteroffers_per_application == self.max_counteroffers_per_application,
            r.max_invites_per_job == self.max_invites_per_job,
            r.paused == self.paused,
    {
        JobBoardConfig {
            owner: self.owner,
            bond_registry: self.bond_registry,
            uptime: self.uptime,
            min_uptime_score: self.min_uptime_score,
            max_counteroffers_per_application: self.max_counteroffers_per_application,
            max_invites_per_job: self.max_invites_per_job,
            paused: self.paused,
        }
    }

    /// One page of a job's applications: up to `min(size, MAX_PAGE_SIZE)`
    /// applications starting at position `from`, in arrival order. A missing
    /// job, an empty page or a start past the end yields an empty list.
    pub fn get_applications(&self, job_id: u64, from: u64, size: u64) -> (r: Vec<Application>)
        requires
            self.wf(),
        ensures
            ({
                let count: int = if self.has_job(job_id) {
                    self.job_rec(job_id).applications@.len() as int
                } else {
                    0
                };
                let effective: int = if size < MAX_PAGE_SIZE {
                    size as int
                } else {
                    MAX_PAGE_SIZE as int
                };
                let len: int = if from >= count || effective > count - from {
                    count - from
                } else {
                    effective
                };
                &&& r@.len() == (if from >= count {
                    0
                } else {
                    len
                })
                &&& forall|i: int|
                    0 <= i < r@.len() ==> r@[i]@ == self.job_rec(job_id).applications@[from + i]@
            }),
    {
        let mut out: Vec<Application> = Vec::new();
        if job_id == 0 || job_id > self.jobs.len() as u64 {
            return out;
        }
        let j = (job_id - 1) as usize;
        let count = self.jobs[j].applications.len();
        if from >= count as u64 {
            return out;
        }
        let start = from as usize;
        let effective = if size < MAX_PAGE_SIZE {
            size
        } else {
            MAX_PAGE_SIZE
        };
        let mut emitted: u64 = 0;
        let mut i: usize = start;
        while i < count && emitted < effective
            invariant
                self.wf(),
                self.has_job(job_id),
                j == job_id - 1,
                count == self.job_rec(job_id).applications@.len(),
                start <= i <= count,
                start == from,
                from < count,
                emitted <= effective,
                emitted == i - start,
                out@.len() == i - start,
                forall|k: int|
                    0 <= k < out@.len() ==> out@[k]@ == self.job_rec(job_id).applications@[from
                        + k]@,
            decreases count - i,
        {
            out.push(self.jobs[j].applications[i].clone());
            emitted = emitted + 1;
            i = i + 1;
        }
        out
    }

    /// One page of an application's offer chain: up to
    /// `min(size, MAX_PAGE_SIZE)` offers starting at chain position `from`,
    /// in creation order. A missing chain, an empty page or a start past the
    /// end yields an empty list.
    pub fn get_offers(&self, job_id: u64, application_id: u64, from: u64, size: u64) -> (r: Vec<
        Offer,
    >)
        requires
            self.wf(),
        ensures
            ({
                let chain: Seq<u64> = if self.has_application(job_id, application_id) {
                    self.job_rec(job_id).offers_by_application@[application_id - 1]@
                } else {
                    Seq::empty()
                };
                let effective: int = if size < MAX_PAGE_SIZE {
                    size as int
                } else {
                    MAX_PAGE_SIZE as int
                };
                let len: int = if from >= chain.len() || effective > chain.len() - from {
                    chain.len() - from
                } else {
                    effective
                };
                &&& r@.len() == (if from >= chain.len() {
                    0
                } else {
                    len
                })
                &&& forall|i: int|
                    0 <= i < r@.len() ==> r@[i]@ == self.offer_view(job_id, chain[from + i])
            }),
    {
        let mut out: Vec<Offer> = Vec::new();
        if job_id == 0 || job_id > self.jobs.len() as u64 {
            return out;
        }
        let j = (job_id - 1) as usize;
        if application_id == 0 || application_id > self.jobs[j].applications.len() as u64 {
            return out;
        }
        let a = (application_id - 1) as usize;
        proof {
            assert(rec_wf(self.jobs@[j as int], job_id));
        }
        let total = self.jobs[j].offers_by_application[a].len();
        if from >= total as u64 {
            return out;
        }
        let start = from as usize;
        let effective = if size < MAX_PAGE_SIZE {
            size
        } else {
            MAX_PAGE_SIZE
        };
        let n_offers = self.jobs[j].offers.len();
        let mut emitted: u64 = 0;
        let mut i: usize = start;
        while i < total && emitted < effective
            invariant
                self.wf(),
                self.has_application(job_id, application_id),
                j == job_id - 1,
                a == application_id - 1,
                total == self.job_rec(job_id).offers_by_application@[a as int]@.len(),
                n_offers == self.job_rec(job_id).offers@.len(),
                start <= i <= total,
                start == from,
                from < total,
                emitted <= effective,
                emitted == i - start,
                out@.len() == i - start,
                forall|k: int|
                    0 <= k < out@.len() ==> out@[k]@ == self.offer_view(
                        job_id,
                        self.job_rec(job_id).offers_by_application@[a as int]@[from + k],
                    ),
            decreases total - i,
        {
            proof {
                assert(chain_wf(self.jobs@[j as int], a as int));
                assert(1 <= self.jobs@[j as int].offers_by_application@[a as int]@[i as int]
                    <= n_offers);
            }
            let offer_id = self.jobs[j].offers_by_application[a][i];
            out.push(self.jobs[j].offers[(offer_id - 1) as usize].clone());
            emitted = emitted + 1;
            i = i + 1;
        }
        out
    }

    /// The latest-offer pointer always names the most recently created offer
    /// of its application: every offer of the application has an id no
    /// larger, and the pointed-to offer belongs to the application.
    pub proof fn lemma_latest_offer_is_newest(self, job_id: u64, application_id: u64)
        requires
            self.wf(),
            self.has_application(job_id, application_id),
            self.latest_of(job_id, application_id) != 0,
        ensures
            self.has_offer(job_id, self.latest_of(job_id, application_id)),
            self.offer_view(job_id, self.latest_of(job_id, application_id)).application_id
                == application_id,
            forall|k: int|
                0 <= k < self.job_rec(job_id).offers@.len() && (#[trigger] self.job_rec(
                    job_id,
                ).offers@[k]).application_id == application_id ==> k + 1 <= self.latest_of(
                    job_id,
                    application_id,
                ),
    {
        let r = self.job_rec(job_id);
        let a = application_id - 1;
        assert(chain_wf(r, a));
        let chain = r.offers_by_application@[a]@;
        let latest = self.latest_of(job_id, application_id);
        assert(latest == chain[chain.len() - 1]);
        assert forall|k: int|
            0 <= k < r.offers@.len() && (#[trigger] r.offers@[k]).application_id == application_id
            implies k + 1 <= latest by {
            let t = choose|t: int| 0 <= t < chain.len() && chain[t] == (k + 1) as u64;
            if t < chain.len() - 1 {
                assert(chain[t] < chain[chain.len() - 1]);
            }
        }
    }

    /// Any action that targets an offer that is no longer its application's
    /// latest fails, whoever calls and whatever terms they bring; when the
    /// ledger is live and the offer is still Proposed or Countered, the
    /// single-offer actions fail exactly as stale.
    pub proof fn lemma_stale_offer_always_fails(
        self,
        caller: u64,
        job_id: u64,
        offer_id: u64,
        terms: OfferTermsView,
    )
        requires
            self.wf(),
            self.has_offer(job_id, offer_id),
            self.latest_of(job_id, self.offer_view(job_id, offer_id).application_id) != offer_id,
        ensures
            self.reject_offer_error(caller, job_id, offer_id) is Some,
            self.withdraw_offer_error(caller, job_id, offer_id) is Some,
            self.accept_offer_error(caller, job_id, offer_id) is Some,
            self.counter_offer_error(caller, job_id, offer_id, terms) is Some,
            !self.paused && (self.offer_view(job_id, offer_id).status == OfferStatus::Proposed
                || self.offer_view(job_id, offer_id).status == OfferStatus::Countered) ==> {
                &&& self.reject_offer_error(caller, job_id, offer_id) == Some(
                    BoardError::StaleOffer,
                )
                &&& self.withdraw_offer_error(caller, job_id, offer_id) == Some(
                    BoardError::StaleOffer,
                )
                &&& (self.job_rec(job_id).job.status != JobStatus::Matched ==> self
                    .accept_offer_error(caller, job_id, offer_id) == Some(BoardError::StaleOffer))
                &&& (offer_terms_error(terms) is None && caller == self.offer_view(job_id,
                    offer_id).counterparty ==> self.counter_offer_error(caller, job_id, offer_id,
                    terms) == Some(BoardError::StaleOffer))
            },
    {
    }

    /// Once a job is Matched, no offer of that job can be accepted any
    /// longer: `accept_offer` fails for every caller and every offer id.
    pub proof fn lemma_matched_job_accepts_no_offer(self, job_id: u64)
        requires
            self.wf(),
            self.has_job(job_id),
            self.job_rec(job_id).job.status == JobStatus::Matched,
        ensures
            forall|caller: u64, offer_id: u64|
                self.accept_offer_error(caller, job_id, offer_id) is Some,
    {
    }

    /// After appending one offer for an existing application, setting it as
    /// the application's latest and listing it in the application's chain,
    /// the ledger is well formed again, provided nothing else changed except
    /// possibly one older offer's status and the total-offer counter.
    proof fn lemma_offer_appended_wf(self, prev: JobBoardCore, job_id: u64, application_id: u64)
        requires
            prev.wf(),
            prev.has_job(job_id),
            prev.has_application(job_id, application_id),
            prev.job_rec(job_id).offers@.len() + 1 <= u64::MAX,
            self.jobs@.len() == prev.jobs@.len(),
            forall|i: int|
                0 <= i < prev.jobs@.len() && i != job_id - 1 ==> self.jobs@[i] == prev.jobs@[i],
            ({
                let o = prev.job_rec(job_id);
                let n = self.job_rec(job_id);
                let a = application_id - 1;
                let new_id = o.offers@.len() + 1;
                &&& n.job == o.job
                &&& n.applications == o.applications
                &&& n.latest_offer@ == o.latest_offer@.update(a, new_id as u64)
                &&& n.counter_count@.len() == o.counter_count@.len()
                &&& n.offers@.len() == o.offers@.len() + 1
                &&& forall|k: int|
                    0 <= k < o.offers@.len() ==> (#[trigger] n.offers@[k]).id == o.offers@[k].id
                        && n.offers@[k].job_id == o.offers@[k].job_id
                        && n.offers@[k].application_id == o.offers@[k].application_id
                &&& n.offers@.last().id == new_id
                &&& n.offers@.last().job_id == job_id
                &&& n.offers@.last().application_id == application_id
                &&& n.offers@.last().status != OfferStatus::Accepted
                &&& n.offers_by_application@.len() == o.offers_by_application@.len()
                &&& forall|b: int|
                    0 <= b < o.offers_by_application@.len() && b != a
                        ==> n.offers_by_application@[b] == o.offers_by_application@[b]
                &&& n.offers_by_application@[a]@ == o.offers_by_application@[a]@.push(
                    new_id as u64,
                )
                &&& (o.job.accepted_offer_id != 0 ==> n.offers@[o.job.accepted_offer_id - 1].status
                    == OfferStatus::Accepted)
            }),
            self.open_job_count == prev.open_job_count,
        ensures
            self.wf(),
    {
        let j = job_id - 1;
        let o = prev.job_rec(job_id);
        let n = self.job_rec(job_id);
        let a = application_id - 1;
        let new_id = o.offers@.len() as int + 1;
        assert forall|b: int| 0 <= b < n.applications@.len() implies #[trigger] chain_wf(n, b) by {
            assert(chain_wf(o, b));
            let oldchain = o.offers_by_application@[b]@;
            let newchain = n.offers_by_application@[b]@;
            if b == a {
                assert(newchain == oldchain.push(new_id as u64));
                assert(newchain[newchain.len() - 1] == new_id as u64);
                assert(n.latest_offer@[b] == new_id as u64);
                assert forall|k: int|
                    0 <= k < n.offers@.len() && (#[trigger] n.offers@[k]).application_id == b + 1
                    implies newchain.contains((k + 1) as u64) by {
                    if k < o.offers@.len() {
                        assert(o.offers@[k].application_id == b + 1);
                        let t = choose|t: int|
                            0 <= t < oldchain.len() && oldchain[t] == (k + 1) as u64;
                        assert(newchain[t] == (k + 1) as u64);
                    } else {
                        assert(newchain[newchain.len() - 1] == (k + 1) as u64);
                    }
                }
            } else {
                assert(newchain == oldchain);
                assert(n.latest_offer@[b] == o.latest_offer@[b]);
                assert forall|k: int|
                    0 <= k < n.offers@.len() && (#[trigger] n.offers@[k]).application_id == b + 1
                    implies newchain.contains((k + 1) as u64) by {
                    assert(k < o.offers@.len());
                    assert(o.offers@[k].application_id == b + 1);
                }
            }
        }
        assert(rec_wf(n, job_id));
        assert forall|i: int| 0 <= i < self.jobs@.len() implies rec_wf(
            #[trigger] self.jobs@[i],
            (i + 1) as u64,
        ) by {
            if i != j {
                assert(self.jobs@[i] == prev.jobs@[i]);
            }
        }
    }
}

/// The eligibility gate's verdict for one agent at one threshold, as the
/// ledger reports it: unregistered agents are rejected before low scores.
pub open spec fn eligibility_error(
    registry: BondRegistryMock,
    oracle: UptimeMock,
    agent: u64,
    min_uptime: u64,
) -> Option<BoardError> {
    if !registry.registered(agent) {
        Some(BoardError::NotRegistered)
    } else if oracle.score_of(agent) < min_uptime {
        Some(BoardError::LowUptime)
    } else {
        None
    }
}

/// Queries the registry and the oracle and fails closed: an empty name or a
/// score under the threshold rejects the agent.
pub fn require_eligible_agent(
    registry: &BondRegistryMock,
    oracle: &UptimeMock,
    agent: u64,
    min_uptime: u64,
) -> (r: Result<(), BoardError>)
    ensures
        match r {
            Ok(_) => eligibility_error(*registry, *oracle, agent, min_uptime) is None
                && eligible(*registry, *oracle, agent, min_uptime),
            Err(e) => Some(e) == eligibility_error(*registry, *oracle, agent, min_uptime),
        },
{
    let name = registry.get_agent_name(agent);
    if name.len() == 0 {
        return Err(BoardError::NotRegistered);
    }
    let (_heartbeats, score, _since, _remaining) = oracle.get_lifetime_info(agent);
    if score < min_uptime {
        return Err(BoardError::LowUptime);
    }
    Ok(())
}

/// Whether a list of accounts holds one account.
pub fn contains_account(v: &Vec<u64>, x: u64) -> (r: bool)
    ensures
        r == v@.contains(x),
{
    let mut i: usize = 0;
    while i < v.len()
        invariant
            i <= v.len(),
            forall|k: int| 0 <= k < i ==> v@[k] != x,
        decreases v.len() - i,
    {
        if v[i] == x {
            return true;
        }
        i = i + 1;
    }
    false
}

} // verus!
