//! Writes to the job ledger.
//!
//! The engine never touches the ledger itself. It says which rows are to be
//! written, and hands them over as one transaction: the queue applies all
//! writes of a transaction together, or none of them.

use vstd::prelude::*;
use crate::types::{AggregationRound, FriCircuitKey, JobStatus, L1BatchNumber};

verus! {

/// A job for the final prover, created when a scheduler circuit has been
/// stored.
#[derive(Clone, Debug, PartialEq, Eq)]
pub struct ProverJob {
    pub l1_batch_number: L1BatchNumber,
    pub circuit_id: u8,
    pub depth: u16,
    pub sequence_number: usize,
    pub aggregation_round: AggregationRound,
    pub circuit_blob_url: String,
    pub is_node_final_proof: bool,
}

/// Model of a prover job.
pub ghost struct ProverJobView {
    pub l1_batch_number: L1BatchNumber,
    pub circuit_id: u8,
    pub depth: u16,
    pub sequence_number: usize,
    pub aggregation_round: AggregationRound,
    pub circuit_blob_url: Seq<char>,
    pub is_node_final_proof: bool,
}

impl View for ProverJob {
    type V = ProverJobView;

    open spec fn view(&self) -> ProverJobView {
        ProverJobView {
            l1_batch_number: self.l1_batch_number,
            circuit_id: self.circuit_id,
            depth: self.depth,
            sequence_number: self.sequence_number,
            aggregation_round: self.aggregation_round,
            circuit_blob_url: self.circuit_blob_url@,
            is_node_final_proof: self.is_node_final_proof,
        }
    }
}

/// One write to the ledger.
#[derive(Clone, Debug, PartialEq, Eq)]
pub enum LedgerWrite {
    /// Create the job that the stored artifact unblocks.
    InsertProverJob(ProverJob),
    /// Record that the scheduler job of a batch has succeeded.
    MarkSchedulerJobSuccessful { l1_batch_number: L1BatchNumber, time_taken_ms: u64 },
    /// Record that the scheduler job of a batch has failed, and why.
    MarkSchedulerJobFailed { l1_batch_number: L1BatchNumber, error: String },
}

/// Model of a ledger write.
pub ghost enum LedgerWriteView {
    InsertProverJob(ProverJobView),
    MarkSchedulerJobSuccessful { l1_batch_number: L1BatchNumber, time_taken_ms: u64 },
    MarkSchedulerJobFailed { l1_batch_number: L1BatchNumber, error: Seq<char> },
}

impl View for LedgerWrite {
    type V = LedgerWriteView;

    open spec fn view(&self) -> LedgerWriteView {
        match self {
            LedgerWrite::InsertProverJob(job) => LedgerWriteView::InsertProverJob(job@),
            LedgerWrite::MarkSchedulerJobSuccessful { l1_batch_number, time_taken_ms } => {
                LedgerWriteView::MarkSchedulerJobSuccessful {
                    l1_batch_number: *l1_batch_number,
                    time_taken_ms: *time_taken_ms,
                }
            },
            LedgerWrite::MarkSchedulerJobFailed { l1_batch_number, error } => {
                LedgerWriteView::MarkSchedulerJobFailed {
                    l1_batch_number: *l1_batch_number,
                    error: error@,
                }
            },
        }
    }
}

/// Writes that take effect together.
#[derive(Clone, Debug, PartialEq, Eq)]
pub struct LedgerTransaction {
    pub writes: Vec<LedgerWrite>,
}

impl View for LedgerTransaction {
    type V = Seq<LedgerWriteView>;

    open spec fn view(&self) -> Seq<LedgerWriteView> {
        Seq::new(self.writes@.len(), |i: int| self.writes@[i]@)
    }
}

/// Model of the ledger row of one scheduler job.
pub ghost struct SchedulerJobView {
    pub l1_batch_number: L1BatchNumber,
    pub status: JobStatus,
    pub attempts: u32,
    pub error: Option<Seq<char>>,
    pub time_taken_ms: Option<u64>,
}

/// Model of a ledger: the scheduler jobs in the order in which they were
/// queued, and the jobs created for the final prover.
pub ghost struct LedgerView {
    pub scheduler_jobs: Seq<SchedulerJobView>,
    pub prover_jobs: Seq<ProverJobView>,
}

/// A job that an engine has claimed and not yet finished.
pub open spec fn in_progress(status: JobStatus) -> bool {
    status == JobStatus::Picked || status == JobStatus::Processing
}

/// The identity of a prover job: the key of the artifact it is to prove.
pub open spec fn prover_job_key(job: ProverJobView) -> FriCircuitKey {
    FriCircuitKey {
        block_number: job.l1_batch_number,
        sequence_number: job.sequence_number,
        circuit_id: job.circuit_id,
        aggregation_round: job.aggregation_round,
        depth: job.depth,
    }
}

impl LedgerView {
    /// No batch has two scheduler jobs.
    pub open spec fn wf(self) -> bool {
        forall|i: int, j: int|
            0 <= i < j < self.scheduler_jobs.len() ==> self.scheduler_jobs[i].l1_batch_number
                != self.scheduler_jobs[j].l1_batch_number
    }

    /// The ledger has a scheduler job for `batch`.
    pub open spec fn has_job(self, batch: L1BatchNumber) -> bool {
        exists|i: int|
            0 <= i < self.scheduler_jobs.len() && self.scheduler_jobs[i].l1_batch_number == batch
    }

    /// The scheduler job of `batch` has status `status`.
    pub open spec fn has_status(self, batch: L1BatchNumber, status: JobStatus) -> bool {
        exists|i: int|
            0 <= i < self.scheduler_jobs.len() && self.scheduler_jobs[i].l1_batch_number == batch
                && self.scheduler_jobs[i].status == status
    }

    /// The ledger holds a prover job for the artifact under `key`.
    pub open spec fn has_prover_job(self, key: FriCircuitKey) -> bool {
        exists|i: int| 0 <= i < self.prover_jobs.len() && prover_job_key(self.prover_jobs[i]) == key
    }

    /// `position` is the first scheduler job that waits in the queue.
    pub open spec fn first_queued(self, position: int) -> bool {
        &&& 0 <= position < self.scheduler_jobs.len()
        &&& self.scheduler_jobs[position].status == JobStatus::Queued
        &&& forall|i: int| 0 <= i < position ==> self.scheduler_jobs[i].status != JobStatus::Queued
    }

    /// Some scheduler job waits in the queue.
    pub open spec fn has_queued(self) -> bool {
        exists|i: int|
            0 <= i < self.scheduler_jobs.len() && self.scheduler_jobs[i].status
                == JobStatus::Queued
    }

    /// The position of the first scheduler job that waits in the queue.
    pub open spec fn queue_head(self) -> int {
        choose|position: int| self.first_queued(position)
    }

    /// The ledger after a claim of the job at `position`: that job is
    /// picked, with one attempt more, and nothing else has changed.
    pub open spec fn claimed_at(self, position: int) -> LedgerView {
        let job = self.scheduler_jobs[position];
        LedgerView {
            scheduler_jobs: self.scheduler_jobs.update(
                position,
                SchedulerJobView {
                    status: JobStatus::Picked,
                    attempts: if job.attempts < u32::MAX {
                        (job.attempts + 1) as u32
                    } else {
                        job.attempts
                    },
                    ..job
                },
            ),
            ..self
        }
    }

    /// The ledger with a queued job for `batch`, unless it has one already.
    pub open spec fn with_job(self, batch: L1BatchNumber) -> LedgerView {
        if self.has_job(batch) {
            self
        } else {
            LedgerView {
                scheduler_jobs: self.scheduler_jobs.push(
                    SchedulerJobView {
                        l1_batch_number: batch,
                        status: JobStatus::Queued,
                        attempts: 0,
                        error: None,
                        time_taken_ms: None,
                    },
                ),
                ..self
            }
        }
    }

    /// The ledger after one write.
    ///
    /// A prover job takes the place of the one with the same key, if there
    /// is one, and is added otherwise. A mark changes the job of its batch
    /// where that job is in progress, and nothing otherwise.
    pub open spec fn apply(self, write: LedgerWriteView) -> LedgerView {
        match write {
            LedgerWriteView::InsertProverJob(job) => {
                if self.has_prover_job(prover_job_key(job)) {
                    LedgerView {
                        prover_jobs: Seq::new(
                            self.prover_jobs.len(),
                            |i: int|
                                if prover_job_key(self.prover_jobs[i]) == prover_job_key(job) {
                                    job
                                } else {
                                    self.prover_jobs[i]
                                },
                        ),
                        ..self
                    }
                } else {
                    LedgerView { prover_jobs: self.prover_jobs.push(job), ..self }
                }
            },
            LedgerWriteView::MarkSchedulerJobSuccessful { l1_batch_number, time_taken_ms } => {
                LedgerView {
                    scheduler_jobs: Seq::new(
                        self.scheduler_jobs.len(),
                        |i: int|
                            {
                                let job = self.scheduler_jobs[i];
                                if job.l1_batch_number == l1_batch_number && in_progress(job.status) {
                                    SchedulerJobView {
                                        status: JobStatus::Succeeded,
                                        time_taken_ms: Some(time_taken_ms),
                                        ..job
                                    }
                                } else {
                                    job
                                }
                            },
                    ),
                    ..self
                }
            },
            LedgerWriteView::MarkSchedulerJobFailed { l1_batch_number, error } => {
                LedgerView {
                    scheduler_jobs: Seq::new(
                        self.scheduler_jobs.len(),
                        |i: int|
                            {
                                let job = self.scheduler_jobs[i];
                                if job.l1_batch_number == l1_batch_number && in_progress(job.status) {
                                    SchedulerJobView {
                                        status: JobStatus::Failed,
                                        error: Some(error),
                                        ..job
                                    }
                                } else {
                                    job
                                }
                            },
                    ),
                    ..self
                }
            },
        }
    }

    /// The ledger after a committed transaction: every write is applied,
    /// in the transaction's order. A transaction that is not committed
    /// leaves the ledger as it was.
    pub open spec fn commit(self, writes: Seq<LedgerWriteView>) -> LedgerView
        decreases writes.len(),
    {
        if writes.len() == 0 {
            self
        } else {
            self.commit(writes.drop_last()).apply(writes.last())
        }
    }
}

/// A claim takes a job out of the queue: whichever job a second claim
/// picks, it is a job of another batch.
pub proof fn claim_is_exclusive(ledger: LedgerView, first: int, second: int)
    requires
        ledger.wf(),
        ledger.first_queued(first),
        ledger.claimed_at(first).first_queued(second),
    ensures
        ledger.claimed_at(first).wf(),
        ledger.claimed_at(first).scheduler_jobs[first].status == JobStatus::Picked,
        ledger.scheduler_jobs[first].status.spec_may_become(
            ledger.claimed_at(first).scheduler_jobs[first].status,
        ),
        first != second,
        ledger.claimed_at(first).scheduler_jobs[second].l1_batch_number
            != ledger.scheduler_jobs[first].l1_batch_number,
{
}

/// Writing a prover job a second time changes nothing: the ledger never
/// holds two jobs for one artifact on account of a repeated write.
pub proof fn insert_prover_job_is_idempotent(ledger: LedgerView, job: ProverJobView)
    ensures
        ledger.apply(LedgerWriteView::InsertProverJob(job)).apply(
            LedgerWriteView::InsertProverJob(job),
        ) == ledger.apply(LedgerWriteView::InsertProverJob(job)),
        ledger.apply(LedgerWriteView::InsertProverJob(job)).has_prover_job(prover_job_key(job)),
{
    let write = LedgerWriteView::InsertProverJob(job);
    let once = ledger.apply(write);
    if ledger.has_prover_job(prover_job_key(job)) {
        let i = choose|i: int|
            0 <= i < ledger.prover_jobs.len() && prover_job_key(ledger.prover_jobs[i])
                == prover_job_key(job);
        assert(prover_job_key(once.prover_jobs[i]) == prover_job_key(job));
    } else {
        let last = ledger.prover_jobs.len() as int;
        assert(prover_job_key(once.prover_jobs[last]) == prover_job_key(job));
    }
    assert(once.has_prover_job(prover_job_key(job)));
    assert(once.apply(write).prover_jobs =~= once.prover_jobs);
}

/// The ledger row of one scheduler job.
#[derive(Clone, Debug, PartialEq, Eq)]
pub struct SchedulerJobRecord {
    pub l1_batch_number: L1BatchNumber,
    pub status: JobStatus,
    /// How often the job was claimed; it stops counting at `u32::MAX`.
    pub attempts: u32,
    /// Why the last attempt failed, if one did.
    pub error: Option<String>,
    pub time_taken_ms: Option<u64>,
}

impl View for SchedulerJobRecord {
    type V = SchedulerJobView;

    open spec fn view(&self) -> SchedulerJobView {
        SchedulerJobView {
            l1_batch_number: self.l1_batch_number,
            status: self.status,
            attempts: self.attempts,
            error: match self.error {
                Some(text) => Some(text@),
                None => None,
            },
            time_taken_ms: self.time_taken_ms,
        }
    }
}

/// A ledger held in memory. It does what the model says and nothing more,
/// so it can stand in for the queue wherever no database is at hand.
#[derive(Clone, Debug, PartialEq, Eq)]
pub struct Ledger {
    pub scheduler_jobs: Vec<SchedulerJobRecord>,
    pub prover_jobs: Vec<ProverJob>,
}

impl View for Ledger {
    type V = LedgerView;

    open spec fn view(&self) -> LedgerView {
        LedgerView {
            scheduler_jobs: Seq::new(
                self.scheduler_jobs@.len(),
                |i: int| self.scheduler_jobs@[i]@,
            ),
            prover_jobs: Seq::new(self.prover_jobs@.len(), |i: int| self.prover_jobs@[i]@),
        }
    }
}

/// At most one scheduler job is the first in the queue.
pub proof fn first_queued_is_unique(ledger: LedgerView, a: int, b: int)
    requires
        ledger.first_queued(a),
        ledger.first_queued(b),
    ensures
        a == b,
{
}

impl Ledger {
    /// A ledger without jobs.
    pub fn new() -> (ledger: Ledger)
        ensures
            ledger@.scheduler_jobs.len() == 0,
            ledger@.prover_jobs.len() == 0,
            ledger@.wf(),
    {
        Ledger { scheduler_jobs: Vec::new(), prover_jobs: Vec::new() }
    }

    /// The status of the scheduler job of `batch`, if the ledger has one.
    pub fn status_of(&self, batch: L1BatchNumber) -> (res: Option<JobStatus>)
        ensures
            res is Some <==> self@.has_job(batch),
            res matches Some(status) ==> self@.has_status(batch, status),
    {
        let mut i: usize = 0;
        while i < self.scheduler_jobs.len()
            invariant
                i <= self.scheduler_jobs.len(),
                forall|j: int| 0 <= j < i ==> self@.scheduler_jobs[j].l1_batch_number != batch,
            decreases self.scheduler_jobs.len() - i,
        {
            if self.scheduler_jobs[i].l1_batch_number.0 == batch.0 {
                assert(self@.scheduler_jobs[i as int].l1_batch_number == batch);
                return Some(self.scheduler_jobs[i].status);
            }
            i += 1;
        }
        None
    }

    /// Queues the scheduler job of `batch`. A batch that has a job keeps it
    /// as it is.
    pub fn insert_scheduler_job(&mut self, batch: L1BatchNumber)
        ensures
            final(self)@ == old(self)@.with_job(batch),
            old(self)@.wf() ==> final(self)@.wf(),
    {
        if self.status_of(batch).is_none() {
            self.scheduler_jobs.push(
                SchedulerJobRecord {
                    l1_batch_number: batch,
                    status: JobStatus::Queued,
                    attempts: 0,
                    error: None,
                    time_taken_ms: None,
                },
            );
            assert(self@.scheduler_jobs =~= old(self)@.with_job(batch).scheduler_jobs);
            assert(self@.prover_jobs =~= old(self)@.prover_jobs);
        }
    }

    /// Claims the first job that waits in the queue: the job becomes
    /// `Picked`, so that no later claim returns it. Without a waiting job
    /// nothing changes and nothing is returned.
    pub fn get_next_scheduler_witness_job(&mut self) -> (res: Option<L1BatchNumber>)
        ensures
            res is Some <==> old(self)@.has_queued(),
            res matches Some(batch) ==> {
                &&& old(self)@.first_queued(old(self)@.queue_head())
                &&& batch == old(self)@.scheduler_jobs[old(self)@.queue_head()].l1_batch_number
                &&& final(self)@ == old(self)@.claimed_at(old(self)@.queue_head())
            },
            res is None ==> final(self)@ == old(self)@,
            old(self)@.wf() ==> final(self)@.wf(),
    {
        let mut i: usize = 0;
        while i < self.scheduler_jobs.len()
            invariant
                i <= self.scheduler_jobs.len(),
                *self == *old(self),
                forall|j: int| 0 <= j < i ==> self@.scheduler_jobs[j].status != JobStatus::Queued,
            decreases self.scheduler_jobs.len() - i,
        {
            match self.scheduler_jobs[i].status {
                JobStatus::Queued => {
                    assert(self@.scheduler_jobs[i as int].status == JobStatus::Queued);
                    assert(old(self)@.first_queued(i as int));
                    proof {
                        first_queued_is_unique(old(self)@, i as int, old(self)@.queue_head());
                    }
                    let job = self.scheduler_jobs.remove(i);
                    let batch = job.l1_batch_number;
                    let attempts = if job.attempts < u32::MAX {
                        job.attempts + 1
                    } else {
                        job.attempts
                    };
                    let picked = SchedulerJobRecord {
                        l1_batch_number: job.l1_batch_number,
                        status: JobStatus::Picked,
                        attempts,
                        error: job.error,
                        time_taken_ms: job.time_taken_ms,
                    };
                    self.scheduler_jobs.insert(i, picked);
                    assert(self@.scheduler_jobs =~= old(self)@.claimed_at(i as int).scheduler_jobs);
                    assert(self@.prover_jobs =~= old(self)@.prover_jobs);
                    return Some(batch);
                },
                _ => {},
            }
            i += 1;
        }
        None
    }
}

/// Whether two prover jobs are for the same artifact.
fn same_artifact(a: &ProverJob, b: &ProverJob) -> (res: bool)
    ensures
        res == (prover_job_key(a@) == prover_job_key(b@)),
{
    a.l1_batch_number.0 == b.l1_batch_number.0 && a.sequence_number == b.sequence_number
        && a.circuit_id == b.circuit_id && a.aggregation_round == b.aggregation_round && a.depth
        == b.depth
}

impl ProverJob {
    /// A second copy of the job.
    pub fn duplicate(&self) -> (copy: ProverJob)
        ensures
            copy@ == self@,
    {
        ProverJob {
            l1_batch_number: self.l1_batch_number,
            circuit_id: self.circuit_id,
            depth: self.depth,
            sequence_number: self.sequence_number,
            aggregation_round: self.aggregation_round,
            circuit_blob_url: self.circuit_blob_url.clone(),
            is_node_final_proof: self.is_node_final_proof,
        }
    }
}

impl Ledger {
    fn insert_prover_job(&mut self, job: ProverJob)
        ensures
            final(self)@ == old(self)@.apply(LedgerWriteView::InsertProverJob(job@)),
    {
        let ghost write = LedgerWriteView::InsertProverJob(job@);
        let mut found = false;
        let mut i: usize = 0;
        while i < self.prover_jobs.len()
            invariant
                i <= self.prover_jobs.len(),
                self.prover_jobs.len() == old(self).prover_jobs.len(),
                self.scheduler_jobs == old(self).scheduler_jobs,
                found <==> exists|j: int|
                    #![trigger old(self).prover_jobs@[j]]
                    0 <= j < i && prover_job_key(old(self).prover_jobs@[j]@) == prover_job_key(
                        job@,
                    ),
                forall|j: int|
                    #![trigger self.prover_jobs@[j]]
                    0 <= j < i ==> self.prover_jobs@[j]@ == if prover_job_key(
                        old(self).prover_jobs@[j]@,
                    ) == prover_job_key(job@) {
                        job@
                    } else {
                        old(self).prover_jobs@[j]@
                    },
                forall|j: int|
                    #![trigger self.prover_jobs@[j]]
                    i <= j < self.prover_jobs.len() ==> self.prover_jobs@[j] == old(
                        self,
                    ).prover_jobs@[j],
            decreases self.prover_jobs.len() - i,
        {
            if same_artifact(&self.prover_jobs[i], &job) {
                let ghost before = self.prover_jobs@;
                let _ = self.prover_jobs.remove(i);
                self.prover_jobs.insert(i, job.duplicate());
                assert(forall|j: int|
                    #![trigger self.prover_jobs@[j]]
                    0 <= j < before.len() && j != i ==> self.prover_jobs@[j] == before[j]);
                found = true;
            }
            i += 1;
        }
        if found {
            let ghost at = choose|j: int|
                #![trigger old(self).prover_jobs@[j]]
                0 <= j < i && prover_job_key(old(self).prover_jobs@[j]@) == prover_job_key(job@);
            assert(prover_job_key(old(self)@.prover_jobs[at]) == prover_job_key(job@));
            assert(old(self)@.has_prover_job(prover_job_key(job@)));
            assert(self@.prover_jobs =~= old(self)@.apply(write).prover_jobs);
        } else {
            self.prover_jobs.push(job);
            assert forall|j: int| 0 <= j < old(self)@.prover_jobs.len() implies prover_job_key(
                #[trigger] old(self)@.prover_jobs[j],
            ) != prover_job_key(job@) by {
                assert(old(self)@.prover_jobs[j] == old(self).prover_jobs@[j]@);
            }
            assert(!old(self)@.has_prover_job(prover_job_key(job@)));
            assert(self@.prover_jobs =~= old(self)@.apply(write).prover_jobs);
        }
        assert(self@.scheduler_jobs =~= old(self)@.scheduler_jobs);
    }

    fn mark_scheduler_job_as_successful(&mut self, batch: L1BatchNumber, time_taken_ms: u64)
        ensures
            final(self)@ == old(self)@.apply(
                LedgerWriteView::MarkSchedulerJobSuccessful { l1_batch_number: batch, time_taken_ms },
            ),
    {
        let ghost write = LedgerWriteView::MarkSchedulerJobSuccessful {
            l1_batch_number: batch,
            time_taken_ms,
        };
        let mut i: usize = 0;
        while i < self.scheduler_jobs.len()
            invariant
                i <= self.scheduler_jobs.len(),
                self.scheduler_jobs.len() == old(self).scheduler_jobs.len(),
                self.prover_jobs == old(self).prover_jobs,
                write == (LedgerWriteView::MarkSchedulerJobSuccessful {
                    l1_batch_number: batch,
                    time_taken_ms,
                }),
                forall|j: int|
                    #![trigger self.scheduler_jobs@[j]]
                    0 <= j < i ==> self.scheduler_jobs@[j]@ == old(self)@.apply(
                        write,
                    ).scheduler_jobs[j],
                forall|j: int|
                    #![trigger self.scheduler_jobs@[j]]
                    i <= j < self.scheduler_jobs.len() ==> self.scheduler_jobs@[j] == old(
                        self,
                    ).scheduler_jobs@[j],
            decreases self.scheduler_jobs.len() - i,
        {
            let claimed = match self.scheduler_jobs[i].status {
                JobStatus::Picked => true,
                JobStatus::Processing => true,
                _ => false,
            };
            if self.scheduler_jobs[i].l1_batch_number.0 == batch.0 && claimed {
                let ghost before = self.scheduler_jobs@;
                let job = self.scheduler_jobs.remove(i);
                self.scheduler_jobs.insert(
                    i,
                    SchedulerJobRecord {
                        l1_batch_number: job.l1_batch_number,
                        status: JobStatus::Succeeded,
                        attempts: job.attempts,
                        error: job.error,
                        time_taken_ms: Some(time_taken_ms),
                    },
                );
                assert(forall|j: int|
                    #![trigger self.scheduler_jobs@[j]]
                    0 <= j < before.len() && j != i ==> self.scheduler_jobs@[j] == before[j]);
            }
            i += 1;
        }
        assert(self@.scheduler_jobs =~= old(self)@.apply(write).scheduler_jobs);
        assert(self@.prover_jobs =~= old(self)@.prover_jobs);
    }

    fn mark_scheduler_job_failed(&mut self, error: &String, batch: L1BatchNumber)
        ensures
            final(self)@ == old(self)@.apply(
                LedgerWriteView::MarkSchedulerJobFailed { l1_batch_number: batch, error: error@ },
            ),
    {
        let ghost write = LedgerWriteView::MarkSchedulerJobFailed {
            l1_batch_number: batch,
            error: error@,
        };
        let mut i: usize = 0;
        while i < self.scheduler_jobs.len()
            invariant
                i <= self.scheduler_jobs.len(),
                self.scheduler_jobs.len() == old(self).scheduler_jobs.len(),
                self.prover_jobs == old(self).prover_jobs,
                write == (LedgerWriteView::MarkSchedulerJobFailed {
                    l1_batch_number: batch,
                    error: error@,
                }),
                forall|j: int|
                    #![trigger self.scheduler_jobs@[j]]
                    0 <= j < i ==> self.scheduler_jobs@[j]@ == old(self)@.apply(
                        write,
                    ).scheduler_jobs[j],
                forall|j: int|
                    #![trigger self.scheduler_jobs@[j]]
                    i <= j < self.scheduler_jobs.len() ==> self.scheduler_jobs@[j] == old(
                        self,
                    ).scheduler_jobs@[j],
            decreases self.scheduler_jobs.len() - i,
        {
            let claimed = match self.scheduler_jobs[i].status {
                JobStatus::Picked => true,
                JobStatus::Processing => true,
                _ => false,
            };
            if self.scheduler_jobs[i].l1_batch_number.0 == batch.0 && claimed {
                let ghost before = self.scheduler_jobs@;
                let job = self.scheduler_jobs.remove(i);
                self.scheduler_jobs.insert(
                    i,
                    SchedulerJobRecord {
                        l1_batch_number: job.l1_batch_number,
                        status: JobStatus::Failed,
                        attempts: job.attempts,
                        error: Some(error.clone()),
                        time_taken_ms: job.time_taken_ms,
                    },
                );
                assert(forall|j: int|
                    #![trigger self.scheduler_jobs@[j]]
                    0 <= j < before.len() && j != i ==> self.scheduler_jobs@[j] == before[j]);
            }
            i += 1;
        }
        assert(self@.scheduler_jobs =~= old(self)@.apply(write).scheduler_jobs);
        assert(self@.prover_jobs =~= old(self)@.prover_jobs);
    }

    /// Applies one write.
    pub fn apply(&mut self, write: LedgerWrite)
        ensures
            final(self)@ == old(self)@.apply(write@),
    {
        match write {
            LedgerWrite::InsertProverJob(job) => {
                self.insert_prover_job(job);
            },
            LedgerWrite::MarkSchedulerJobSuccessful { l1_batch_number, time_taken_ms } => {
                self.mark_scheduler_job_as_successful(l1_batch_number, time_taken_ms);
            },
            LedgerWrite::MarkSchedulerJobFailed { l1_batch_number, error } => {
                self.mark_scheduler_job_failed(&error, l1_batch_number);
            },
        }
    }

    /// Commits a transaction: all of its writes take effect, in order.
    pub fn commit(&mut self, transaction: LedgerTransaction)
        ensures
            final(self)@ == old(self)@.commit(transaction@),
    {
        let ghost writes = transaction@;
        let ghost raw = transaction.writes@;
        for write in iter: transaction.writes
            invariant
                iter.seq() == raw,
                writes == Seq::new(raw.len(), |i: int| raw[i]@),
                self@ == old(self)@.commit(writes.take(iter.index() as int)),
        {
            proof {
                let k = iter.index() as int;
                assert(writes.take(k + 1).drop_last() =~= writes.take(k));
                assert(writes.take(k + 1).last() == write@);
            }
            self.apply(write);
        }
        assert(writes.take(writes.len() as int) =~= writes);
    }
}

/// No write adds or renames a scheduler job: a ledger that has one job for
/// each batch stays so under every transaction.
pub proof fn commit_preserves_wf(ledger: LedgerView, writes: Seq<LedgerWriteView>)
    requires
        ledger.wf(),
    ensures
        ledger.commit(writes).wf(),
        ledger.commit(writes).scheduler_jobs.len() == ledger.scheduler_jobs.len(),
        forall|i: int|
            0 <= i < ledger.scheduler_jobs.len() ==> (
            #[trigger] ledger.commit(writes).scheduler_jobs[i]).l1_batch_number
                == ledger.scheduler_jobs[i].l1_batch_number,
    decreases writes.len(),
{
    if writes.len() > 0 {
        commit_preserves_wf(ledger, writes.drop_last());
    }
}

/// A transaction changes only jobs that are in progress: a job that waits
/// in the queue, has succeeded or has failed is left exactly as it is. In
/// particular no transaction puts a failed job back into the queue.
pub proof fn commit_changes_only_jobs_in_progress(
    ledger: LedgerView,
    writes: Seq<LedgerWriteView>,
    position: int,
)
    requires
        0 <= position < ledger.scheduler_jobs.len(),
        !in_progress(ledger.scheduler_jobs[position].status),
    ensures
        ledger.commit(writes).scheduler_jobs.len() == ledger.scheduler_jobs.len(),
        ledger.commit(writes).scheduler_jobs[position] == ledger.scheduler_jobs[position],
    decreases writes.len(),
{
    if writes.len() > 0 {
        commit_changes_only_jobs_in_progress(ledger, writes.drop_last(), position);
    }
}

/// Each change that a write makes to a job ends the job: it was in
/// progress before, and is succeeded or failed after, which the job's life
/// allows in one step or, for a job picked and not yet reported as
/// processing, in two.
pub proof fn write_ends_a_job_in_progress(ledger: LedgerView, write: LedgerWriteView, position: int)
    requires
        0 <= position < ledger.scheduler_jobs.len(),
        ledger.apply(write).scheduler_jobs[position] != ledger.scheduler_jobs[position],
    ensures
        in_progress(ledger.scheduler_jobs[position].status),
        ledger.apply(write).scheduler_jobs[position].status.spec_is_terminal(),
        ({
            let before = ledger.scheduler_jobs[position].status;
            let after = ledger.apply(write).scheduler_jobs[position].status;
            before.spec_may_become(after) || (before.spec_may_become(JobStatus::Processing)
                && JobStatus::Processing.spec_may_become(after))
        }),
        ledger.apply(write).scheduler_jobs[position].l1_batch_number
            == ledger.scheduler_jobs[position].l1_batch_number,
{
}

} // verus!
