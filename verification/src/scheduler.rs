//! The scheduler stage: the last round of the pipeline, which turns the
//! recursive proofs of a batch into the batch's one scheduler circuit.

use vstd::prelude::*;
use crate::artifacts::{
    proof_views, FriProofWrapper, LeafParameters, RecursionProof, SchedulerArtifacts,
    SchedulerCircuit, SchedulerCircuitView, SchedulerJobView, SchedulerWitness,
    SchedulerWitnessGeneratorJob, SchedulerWitnessView, VerificationKey, VerificationKeyView,
};
use crate::error::{ErrorKind, WitnessGeneratorError};
use crate::ledger::{
    in_progress, prover_job_key, LedgerTransaction, LedgerView, LedgerWrite, LedgerWriteView,
    ProverJob, ProverJobView,
};
use crate::types::{
    scheduler_key, AggregationRound, FriCircuitKey, JobStatus, L1BatchNumber, SCHEDULER_CIRCUIT_ID,
};

verus! {

/// An upstream job, as the dependency tracker reports it.
#[derive(Clone, Copy, Debug, PartialEq, Eq, Structural, Hash)]
pub struct Dependency {
    pub prover_job_id: u32,
    pub status: JobStatus,
}

/// Every upstream job has succeeded.
pub open spec fn all_succeeded(dependencies: Seq<Dependency>) -> bool {
    forall|i: int| 0 <= i < dependencies.len() ==> dependencies[i].status == JobStatus::Succeeded
}

/// `position` is the first upstream job that has not succeeded.
pub open spec fn first_incomplete(dependencies: Seq<Dependency>, position: int) -> bool {
    &&& 0 <= position < dependencies.len()
    &&& dependencies[position].status != JobStatus::Succeeded
    &&& all_succeeded(dependencies.take(position))
}

/// The identifiers of the upstream jobs, in the tracker's order.
pub open spec fn job_ids(dependencies: Seq<Dependency>) -> Seq<u32> {
    Seq::new(dependencies.len(), |i: int| dependencies[i].prover_job_id)
}

/// Every artifact is a recursive proof.
pub open spec fn all_recursive(proofs: Seq<FriProofWrapper>) -> bool {
    forall|i: int| 0 <= i < proofs.len() ==> proofs[i] is Recursive
}

/// `position` is the first artifact that is a proof of the base layer.
pub open spec fn first_base(proofs: Seq<FriProofWrapper>, position: int) -> bool {
    &&& 0 <= position < proofs.len()
    &&& proofs[position] is Base
    &&& all_recursive(proofs.take(position))
}

/// The proofs inside a list of recursive wrappers, in the list's order.
pub open spec fn recursive_proofs(proofs: Seq<FriProofWrapper>) -> Seq<RecursionProof> {
    Seq::new(proofs.len(), |i: int| proofs[i]->Recursive_0)
}

/// Decides whether a claimed job may be assembled: the tracker must report
/// exactly `expected` upstream jobs, and each of them must have succeeded.
/// Gives the identifiers of the artifacts to fetch, in the tracker's order.
pub fn check_dependencies(dependencies: &Vec<Dependency>, expected: usize) -> (res: Result<
    Vec<u32>,
    WitnessGeneratorError,
>)
    ensures
        res is Ok <==> dependencies.len() == expected && all_succeeded(dependencies@),
        res matches Ok(ids) ==> ids@ == job_ids(dependencies@),
        dependencies.len() != expected ==> res == Err::<Vec<u32>, WitnessGeneratorError>(
            WitnessGeneratorError::DependencyCountMismatch {
                expected,
                found: dependencies.len(),
            },
        ),
        dependencies.len() == expected && !all_succeeded(dependencies@) ==> (res matches Err(
            WitnessGeneratorError::DependencyIncomplete { position },
        ) && first_incomplete(dependencies@, position as int)),
{
    if dependencies.len() != expected {
        return Err(
            WitnessGeneratorError::DependencyCountMismatch {
                expected,
                found: dependencies.len(),
            },
        );
    }
    let mut ids: Vec<u32> = Vec::new();
    let mut i: usize = 0;
    while i < dependencies.len()
        invariant
            i <= dependencies.len(),
            dependencies.len() == expected,
            all_succeeded(dependencies@.take(i as int)),
            ids@ == job_ids(dependencies@.take(i as int)),
        decreases dependencies.len() - i,
    {
        match dependencies[i].status {
            JobStatus::Succeeded => {},
            _ => {
                return Err(WitnessGeneratorError::DependencyIncomplete { position: i });
            },
        }
        ids.push(dependencies[i].prover_job_id);
        assert(dependencies@.take(i + 1) == dependencies@.take(i as int).push(dependencies@[i as int]));
        i += 1;
    }
    assert(dependencies@.take(i as int) == dependencies@);
    Ok(ids)
}

/// Unwraps the fetched artifacts. Every one of them must be a recursive
/// proof: a proof of the base layer at this place is reported with its
/// position, and nothing is handed on.
pub fn extract_recursive_proofs(l1_batch_number: L1BatchNumber, proofs: Vec<FriProofWrapper>) -> (res:
    Result<Vec<RecursionProof>, WitnessGeneratorError>)
    ensures
        res is Ok <==> all_recursive(proofs@),
        res matches Ok(inner) ==> inner@ == recursive_proofs(proofs@),
        !all_recursive(proofs@) ==> (res matches Err(
            WitnessGeneratorError::UnexpectedBaseProof { l1_batch_number: batch, position },
        ) && batch == l1_batch_number && first_base(proofs@, position as int)),
        res matches Err(e) ==> e.spec_kind() == ErrorKind::InputContractViolation,
{
    let mut i: usize = 0;
    while i < proofs.len()
        invariant
            i <= proofs.len(),
            all_recursive(proofs@.take(i as int)),
        decreases proofs.len() - i,
    {
        match &proofs[i] {
            FriProofWrapper::Base(_) => {
                return Err(
                    WitnessGeneratorError::UnexpectedBaseProof { l1_batch_number, position: i },
                );
            },
            FriProofWrapper::Recursive(_) => {},
        }
        assert(proofs@.take(i + 1) == proofs@.take(i as int).push(proofs@[i as int]));
        i += 1;
    }
    assert(proofs@.take(i as int) == proofs@);
    let ghost all = proofs@;
    let mut inner: Vec<RecursionProof> = Vec::new();
    for wrapper in iter: proofs
        invariant
            iter.seq() == all,
            all_recursive(all),
            inner@ == recursive_proofs(all.take(iter.index() as int)),
    {
        match wrapper.into_recursive() {
            Some(proof) => {
                inner.push(proof);
            },
            None => {},
        }
        assert(all.take(iter.index() + 1) == all.take(iter.index() as int).push(all[iter.index() as int]));
    }
    assert(all.take(all.len() as int) == all);
    Ok(inner)
}

/// The parameters in a list of leaf-layer commitments, in the list's order;
/// the circuit identifiers beside them are left behind.
pub open spec fn commit_parameters(commits: Seq<(u8, LeafParameters)>) -> Seq<Seq<u8>> {
    Seq::new(commits.len(), |i: int| commits[i].1@)
}

/// What a prepared job holds: the stored partial input, with the node
/// layer's key as its verification key, the proofs in the order given, and
/// the table of leaf-layer parameters.
pub open spec fn prepared_job(
    l1_batch_number: L1BatchNumber,
    proofs: Seq<RecursionProof>,
    partial_witness: SchedulerWitnessView,
    node_vk: VerificationKeyView,
    leaf_vk_commits: Seq<(u8, LeafParameters)>,
) -> SchedulerJobView {
    SchedulerJobView {
        block_number: l1_batch_number,
        scheduler_witness: SchedulerWitnessView {
            partial_input: partial_witness.partial_input,
            node_layer_vk_witness: node_vk,
            proof_witnesses: proof_views(proofs),
            leaf_layer_parameters: commit_parameters(leaf_vk_commits),
        },
        node_vk,
    }
}

/// Merges what was fetched for a batch into its scheduler job. The table of
/// leaf-layer parameters must have exactly `leaf_layer_width` entries: a
/// table of another length is refused, never padded or cut.
pub fn prepare_job(
    l1_batch_number: L1BatchNumber,
    proofs: Vec<RecursionProof>,
    partial_witness: SchedulerWitness,
    node_vk: VerificationKey,
    leaf_vk_commits: &Vec<(u8, LeafParameters)>,
    leaf_layer_width: usize,
) -> (res: Result<SchedulerWitnessGeneratorJob, WitnessGeneratorError>)
    ensures
        res is Ok <==> leaf_vk_commits.len() == leaf_layer_width,
        res matches Ok(job) ==> {
            &&& job@ == prepared_job(
                l1_batch_number,
                proofs@,
                partial_witness@,
                node_vk@,
                leaf_vk_commits@,
            )
            &&& job.scheduler_witness.proof_witnesses@ == proofs@
        },
        res matches Err(e) ==> e == (WitnessGeneratorError::LeafParameterCountMismatch {
            expected: leaf_layer_width,
            found: leaf_vk_commits.len(),
        }),
{
    if leaf_vk_commits.len() != leaf_layer_width {
        return Err(
            WitnessGeneratorError::LeafParameterCountMismatch {
                expected: leaf_layer_width,
                found: leaf_vk_commits.len(),
            },
        );
    }
    let mut leaf_layer_parameters: Vec<LeafParameters> = Vec::new();
    let mut i: usize = 0;
    while i < leaf_vk_commits.len()
        invariant
            i <= leaf_vk_commits.len(),
            leaf_layer_parameters.len() == i,
            forall|j: int| 0 <= j < i ==> leaf_layer_parameters@[j]@ == leaf_vk_commits@[j].1@,
        decreases leaf_vk_commits.len() - i,
    {
        let encoded = leaf_vk_commits[i].1.encoded.clone();
        leaf_layer_parameters.push(LeafParameters { encoded });
        i += 1;
    }
    let mut scheduler_witness = partial_witness;
    scheduler_witness.node_layer_vk_witness = node_vk.duplicate();
    scheduler_witness.proof_witnesses = proofs;
    scheduler_witness.leaf_layer_parameters = leaf_layer_parameters;
    let job = SchedulerWitnessGeneratorJob { block_number: l1_batch_number, scheduler_witness, node_vk };
    assert(job@.scheduler_witness.leaf_layer_parameters =~= commit_parameters(leaf_vk_commits@));
    Ok(job)
}

/// The position of the first upstream job that has not succeeded.
pub open spec fn incomplete_position(dependencies: Seq<Dependency>) -> int {
    choose|position: int| first_incomplete(dependencies, position)
}

/// The position of the first artifact that is a proof of the base layer.
pub open spec fn base_position(proofs: Seq<FriProofWrapper>) -> int {
    choose|position: int| first_base(proofs, position)
}

/// What is wrong with a claimed batch that cannot be assembled: the first
/// of the five conditions of `acceptable` that fails.
pub open spec fn claim_error(settings: SchedulerSettings, claim: ClaimedJob) -> WitnessGeneratorError {
    if claim.dependencies.len() != settings.dependency_count {
        WitnessGeneratorError::DependencyCountMismatch {
            expected: settings.dependency_count,
            found: claim.dependencies.len(),
        }
    } else if !all_succeeded(claim.dependencies@) {
        WitnessGeneratorError::DependencyIncomplete {
            position: incomplete_position(claim.dependencies@) as usize,
        }
    } else if claim.proofs.len() != settings.dependency_count {
        WitnessGeneratorError::DependencyCountMismatch {
            expected: settings.dependency_count,
            found: claim.proofs.len(),
        }
    } else if !all_recursive(claim.proofs@) {
        WitnessGeneratorError::UnexpectedBaseProof {
            l1_batch_number: claim.l1_batch_number,
            position: base_position(claim.proofs@) as usize,
        }
    } else {
        WitnessGeneratorError::LeafParameterCountMismatch {
            expected: settings.leaf_layer_width,
            found: claim.leaf_vk_commits.len(),
        }
    }
}

/// There is one first upstream job that has not succeeded, if any.
pub proof fn first_incomplete_is_unique(dependencies: Seq<Dependency>, a: int, b: int)
    requires
        first_incomplete(dependencies, a),
        first_incomplete(dependencies, b),
    ensures
        a == b,
{
    if a < b {
        assert(dependencies.take(b)[a] == dependencies[a]);
    } else if b < a {
        assert(dependencies.take(a)[b] == dependencies[b]);
    }
}

/// There is one first proof of the base layer, if any.
pub proof fn first_base_is_unique(proofs: Seq<FriProofWrapper>, a: int, b: int)
    requires
        first_base(proofs, a),
        first_base(proofs, b),
    ensures
        a == b,
{
    if a < b {
        assert(proofs.take(b)[a] == proofs[a]);
    } else if b < a {
        assert(proofs.take(a)[b] == proofs[b]);
    }
}

/// What a process fixes once, at start, for every scheduler job it runs.
#[derive(Clone, Copy, Debug, PartialEq, Eq, Structural, Hash)]
pub struct SchedulerSettings {
    /// Capacity that the scheduler circuit is configured with.
    pub capacity: usize,
    /// Number of recursive proofs that a batch hands to the scheduler.
    pub dependency_count: usize,
    /// Width of the table of leaf-layer parameters.
    pub leaf_layer_width: usize,
}

/// Everything that was read for a claimed batch: the tracker's report on the
/// upstream jobs, their artifacts in the same order, the stored partial
/// input, the node layer's verification key and the leaf-layer commitments.
#[derive(Clone, Debug, PartialEq, Eq)]
pub struct ClaimedJob {
    pub l1_batch_number: L1BatchNumber,
    pub dependencies: Vec<Dependency>,
    pub proofs: Vec<FriProofWrapper>,
    pub partial_witness: SchedulerWitness,
    pub node_vk: VerificationKey,
    pub leaf_vk_commits: Vec<(u8, LeafParameters)>,
}

/// The decisions of the scheduler stage of one process.
#[derive(Clone, Copy, Debug, PartialEq, Eq, Structural, Hash)]
pub struct SchedulerWitnessGenerator {
    pub settings: SchedulerSettings,
}

/// A claimed batch can be assembled: it has the expected number of upstream
/// jobs, all of them succeeded, one recursive proof was fetched for each,
/// and the parameter table has the pipeline's width.
pub open spec fn acceptable(settings: SchedulerSettings, claim: ClaimedJob) -> bool {
    &&& claim.dependencies.len() == settings.dependency_count
    &&& all_succeeded(claim.dependencies@)
    &&& claim.proofs.len() == settings.dependency_count
    &&& all_recursive(claim.proofs@)
    &&& claim.leaf_vk_commits.len() == settings.leaf_layer_width
}

/// The scheduler circuit of a job, configured with `capacity`.
pub open spec fn circuit_of(job: SchedulerJobView, capacity: usize) -> SchedulerCircuitView {
    SchedulerCircuitView {
        witness: job.scheduler_witness,
        vk_fixed_parameters: job.node_vk.fixed_parameters,
        capacity: capacity as nat,
    }
}

/// The prover job that a stored scheduler circuit unblocks.
pub open spec fn final_prover_job(job_id: L1BatchNumber, blob_url: Seq<char>) -> ProverJobView {
    ProverJobView {
        l1_batch_number: job_id,
        circuit_id: SCHEDULER_CIRCUIT_ID,
        depth: 0,
        sequence_number: 0,
        aggregation_round: AggregationRound::Scheduler,
        circuit_blob_url: blob_url,
        is_node_final_proof: false,
    }
}

/// The two writes that record a stored result: the next job is created and
/// the scheduler job is marked successful.
pub open spec fn success_writes(job_id: L1BatchNumber, blob_url: Seq<char>, time_taken_ms: u64) -> Seq<
    LedgerWriteView,
> {
    seq![
        LedgerWriteView::InsertProverJob(final_prover_job(job_id, blob_url)),
        LedgerWriteView::MarkSchedulerJobSuccessful { l1_batch_number: job_id, time_taken_ms },
    ]
}

/// The one write that records a failed attempt.
pub open spec fn failure_writes(job_id: L1BatchNumber, error: Seq<char>) -> Seq<LedgerWriteView> {
    seq![LedgerWriteView::MarkSchedulerJobFailed { l1_batch_number: job_id, error }]
}

/// A claimed batch whose artifacts hold a proof of the base layer is never
/// assembled, and where its upstream jobs are as expected the failure is an
/// input-contract violation: a retry cannot mend it.
pub proof fn base_proof_is_contract_violation(settings: SchedulerSettings, claim: ClaimedJob)
    requires
        !all_recursive(claim.proofs@),
    ensures
        !acceptable(settings, claim),
        claim.dependencies.len() == settings.dependency_count && all_succeeded(claim.dependencies@)
            ==> claim_error(settings, claim).spec_kind() == ErrorKind::InputContractViolation,
{
}

/// Once the transaction of a stored result is committed, the ledger shows
/// both the job for the final prover and the success of the scheduler job:
/// no committed ledger shows one without the other.
pub proof fn stored_result_is_recorded_whole(
    ledger: LedgerView,
    job_id: L1BatchNumber,
    blob_url: Seq<char>,
    time_taken_ms: u64,
    status: JobStatus,
)
    requires
        ledger.wf(),
        ledger.has_status(job_id, status),
        in_progress(status),
    ensures
        ledger.commit(success_writes(job_id, blob_url, time_taken_ms)).wf(),
        ledger.commit(success_writes(job_id, blob_url, time_taken_ms)).has_prover_job(
            scheduler_key(job_id),
        ),
        ledger.commit(success_writes(job_id, blob_url, time_taken_ms)).has_status(
            job_id,
            JobStatus::Succeeded,
        ),
        !ledger.commit(success_writes(job_id, blob_url, time_taken_ms)).has_status(
            job_id,
            JobStatus::Failed,
        ),
{
    let writes = success_writes(job_id, blob_url, time_taken_ms);
    let insert = LedgerWriteView::InsertProverJob(final_prover_job(job_id, blob_url));
    reveal_with_fuel(LedgerView::commit, 3);
    assert(writes.drop_last() =~= seq![insert]);
    assert(writes.drop_last().drop_last() =~= Seq::<LedgerWriteView>::empty());
    let inserted = ledger.apply(insert);
    assert(ledger.commit(writes) == inserted.apply(writes.last()));
    crate::ledger::insert_prover_job_is_idempotent(ledger, final_prover_job(job_id, blob_url));
    let after = ledger.commit(writes);
    let k = choose|k: int|
        0 <= k < inserted.prover_jobs.len() && prover_job_key(inserted.prover_jobs[k])
            == scheduler_key(job_id);
    assert(prover_job_key(after.prover_jobs[k]) == scheduler_key(job_id));
    let i = choose|i: int|
        0 <= i < ledger.scheduler_jobs.len() && ledger.scheduler_jobs[i].l1_batch_number == job_id
            && ledger.scheduler_jobs[i].status == status;
    assert(after.scheduler_jobs[i].status == JobStatus::Succeeded);
}

/// Where the blob could not be stored, the committed ledger shows neither
/// a new job for the final prover nor a success: the job is failed.
pub proof fn failed_store_records_nothing(
    ledger: LedgerView,
    job_id: L1BatchNumber,
    error: Seq<char>,
    status: JobStatus,
)
    requires
        ledger.wf(),
        ledger.has_status(job_id, status),
        in_progress(status),
    ensures
        ledger.commit(failure_writes(job_id, error)).wf(),
        ledger.commit(failure_writes(job_id, error)).prover_jobs == ledger.prover_jobs,
        ledger.commit(failure_writes(job_id, error)).has_status(job_id, JobStatus::Failed),
        !ledger.commit(failure_writes(job_id, error)).has_status(job_id, JobStatus::Succeeded),
{
    let writes = failure_writes(job_id, error);
    reveal_with_fuel(LedgerView::commit, 2);
    assert(writes.drop_last() =~= Seq::<LedgerWriteView>::empty());
    let after = ledger.commit(writes);
    let i = choose|i: int|
        0 <= i < ledger.scheduler_jobs.len() && ledger.scheduler_jobs[i].l1_batch_number == job_id
            && ledger.scheduler_jobs[i].status == status;
    assert(after.scheduler_jobs[i].status == JobStatus::Failed);
}

/// What an engine does after a poll of the queue.
#[derive(Clone, Debug, PartialEq, Eq)]
pub enum Step {
    /// The queue had no ready job: wait, then poll again.
    Idle,
    /// Hand the job to a worker.
    Process(L1BatchNumber, SchedulerWitnessGeneratorJob),
    /// The claimed batch cannot be assembled: commit the transaction, which
    /// marks its job failed, and poll again.
    Fail(LedgerTransaction),
}

impl SchedulerWitnessGenerator {
    pub fn new(settings: SchedulerSettings) -> (generator: SchedulerWitnessGenerator)
        ensures
            generator.settings == settings,
    {
        SchedulerWitnessGenerator { settings }
    }

    /// Turns what the queue and the stores returned into the next job.
    ///
    /// Without a claim there is nothing to do. With one, the job is
    /// assembled only if every upstream job has succeeded and every
    /// artifact is a recursive proof; the first thing found wrong is
    /// reported, in the order: number of upstream jobs, their status,
    /// number of artifacts, their kind, width of the parameter table.
    pub fn get_next_job(&self, claim: Option<ClaimedJob>) -> (res: Result<
        Option<(L1BatchNumber, SchedulerWitnessGeneratorJob)>,
        WitnessGeneratorError,
    >)
        ensures
            claim is None ==> res matches Ok(None),
            claim matches Some(c) ==> {
                &&& res is Ok <==> acceptable(self.settings, c)
                &&& res matches Ok(next) ==> {
                    &&& next matches Some((job_id, job))
                    &&& job_id == c.l1_batch_number
                    &&& job@ == prepared_job(
                        c.l1_batch_number,
                        recursive_proofs(c.proofs@),
                        c.partial_witness@,
                        c.node_vk@,
                        c.leaf_vk_commits@,
                    )
                    &&& job.scheduler_witness.proof_witnesses@ == recursive_proofs(c.proofs@)
                    &&& job.scheduler_witness.proof_witnesses.len() == self.settings.dependency_count
                    &&& all_succeeded(c.dependencies@)
                }
                &&& res matches Err(e) ==> e == claim_error(self.settings, c)
            },
    {
        let c = match claim {
            None => {
                return Ok(None);
            },
            Some(c) => c,
        };
        let ClaimedJob {
            l1_batch_number,
            dependencies,
            proofs,
            partial_witness,
            node_vk,
            leaf_vk_commits,
        } = c;
        match check_dependencies(&dependencies, self.settings.dependency_count) {
            Ok(_) => {},
            Err(e) => {
                proof {
                    if let WitnessGeneratorError::DependencyIncomplete { position } = e {
                        first_incomplete_is_unique(
                            dependencies@,
                            position as int,
                            incomplete_position(dependencies@),
                        );
                    }
                }
                return Err(e);
            },
        }
        if proofs.len() != self.settings.dependency_count {
            return Err(
                WitnessGeneratorError::DependencyCountMismatch {
                    expected: self.settings.dependency_count,
                    found: proofs.len(),
                },
            );
        }
        let recursive = match extract_recursive_proofs(l1_batch_number, proofs) {
            Ok(recursive) => recursive,
            Err(e) => {
                proof {
                    if let WitnessGeneratorError::UnexpectedBaseProof { position, .. } = e {
                        first_base_is_unique(proofs@, position as int, base_position(proofs@));
                    }
                }
                return Err(e);
            },
        };
        match prepare_job(
            l1_batch_number,
            recursive,
            partial_witness,
            node_vk,
            &leaf_vk_commits,
            self.settings.leaf_layer_width,
        ) {
            Ok(job) => Ok(Some((l1_batch_number, job))),
            Err(e) => Err(e),
        }
    }

    /// One poll of the engine. A failure to assemble the claimed batch does
    /// not stop the engine: it becomes the transaction that records the
    /// failure, with the error's text.
    pub fn next_step(&self, claim: Option<ClaimedJob>) -> (step: Step)
        ensures
            claim is None ==> step is Idle,
            claim matches Some(c) ==> {
                &&& acceptable(self.settings, c) ==> {
                    &&& step matches Step::Process(job_id, job)
                    &&& job_id == c.l1_batch_number
                    &&& job@ == prepared_job(
                        c.l1_batch_number,
                        recursive_proofs(c.proofs@),
                        c.partial_witness@,
                        c.node_vk@,
                        c.leaf_vk_commits@,
                    )
                }
                &&& !acceptable(self.settings, c) ==> {
                    &&& step matches Step::Fail(transaction)
                    &&& transaction@ == failure_writes(
                        c.l1_batch_number,
                        claim_error(self.settings, c).spec_message(),
                    )
                }
            },
    {
        let job_id = match &claim {
            None => {
                return Step::Idle;
            },
            Some(c) => c.l1_batch_number,
        };
        match self.get_next_job(claim) {
            Ok(Some((job_id, job))) => Step::Process(job_id, job),
            Ok(None) => Step::Idle,
            Err(e) => Step::Fail(self.save_failure(job_id, e.message())),
        }
    }

    /// Builds the scheduler circuit of a job: the job's witness, under the
    /// fixed parameters of the node layer's key and the process's capacity.
    pub fn process_job_sync(&self, job: SchedulerWitnessGeneratorJob) -> (artifacts:
        SchedulerArtifacts)
        ensures
            artifacts@ == circuit_of(job@, self.settings.capacity),
    {
        let SchedulerWitnessGeneratorJob { block_number: _, scheduler_witness, node_vk } = job;
        let VerificationKey { fixed_parameters, setup_merkle_tree_cap: _ } = node_vk;
        SchedulerArtifacts {
            scheduler_circuit: SchedulerCircuit {
                witness: scheduler_witness,
                vk_fixed_parameters: fixed_parameters,
                capacity: self.settings.capacity,
            },
        }
    }

    /// The blob to store for a finished job, and the key to store it under.
    pub fn artifact_to_store(&self, job_id: L1BatchNumber, artifacts: SchedulerArtifacts) -> (res: (
        FriCircuitKey,
        SchedulerCircuit,
    ))
        ensures
            res.0 == scheduler_key(job_id),
            res.1 == artifacts.scheduler_circuit,
    {
        (FriCircuitKey::for_scheduler(job_id), artifacts.scheduler_circuit)
    }

    /// The ledger transaction that follows the attempt to store a result.
    ///
    /// If the blob was stored, at `blob_url`, the transaction creates the
    /// job for the final prover and marks the scheduler job successful:
    /// both, in that order, and nothing else. If the store refused the blob,
    /// neither is written, and the job is marked failed instead.
    pub fn save_result(
        &self,
        job_id: L1BatchNumber,
        stored: Result<String, WitnessGeneratorError>,
        time_taken_ms: u64,
    ) -> (transaction: LedgerTransaction)
        ensures
            stored matches Ok(blob_url) ==> transaction@ == success_writes(
                job_id,
                blob_url@,
                time_taken_ms,
            ),
            stored matches Err(e) ==> transaction@ == failure_writes(job_id, e.spec_message()),
    {
        let mut writes: Vec<LedgerWrite> = Vec::new();
        match stored {
            Ok(blob_url) => {
                writes.push(
                    LedgerWrite::InsertProverJob(
                        ProverJob {
                            l1_batch_number: job_id,
                            circuit_id: SCHEDULER_CIRCUIT_ID,
                            depth: 0,
                            sequence_number: 0,
                            aggregation_round: AggregationRound::Scheduler,
                            circuit_blob_url: blob_url,
                            is_node_final_proof: false,
                        },
                    ),
                );
                writes.push(
                    LedgerWrite::MarkSchedulerJobSuccessful { l1_batch_number: job_id, time_taken_ms },
                );
                let transaction = LedgerTransaction { writes };
                assert(transaction@ =~= success_writes(job_id, blob_url@, time_taken_ms));
                transaction
            },
            Err(e) => {
                writes.push(
                    LedgerWrite::MarkSchedulerJobFailed { l1_batch_number: job_id, error: e.message() },
                );
                let transaction = LedgerTransaction { writes };
                assert(transaction@ =~= failure_writes(job_id, e.spec_message()));
                transaction
            },
        }
    }

    /// The ledger transaction that records a failed attempt: the job is
    /// marked failed with the error's text. Nothing that was stored is
    /// removed.
    pub fn save_failure(&self, job_id: L1BatchNumber, error: String) -> (transaction:
        LedgerTransaction)
        ensures
            transaction@ == failure_writes(job_id, error@),
    {
        let mut writes: Vec<LedgerWrite> = Vec::new();
        writes.push(LedgerWrite::MarkSchedulerJobFailed { l1_batch_number: job_id, error });
        let transaction = LedgerTransaction { writes };
        assert(transaction@ =~= failure_writes(job_id, error@));
        transaction
    }
}

} // verus!
