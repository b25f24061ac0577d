//! Identities: batches, aggregation rounds and artifact keys.

use vstd::prelude::*;

verus! {

/// Number of a batch of work awaiting its final certifying artifact.
#[derive(Clone, Copy, Debug, PartialEq, Eq, Structural, Hash)]
pub struct L1BatchNumber(pub u32);

/// Round of the aggregation pipeline, in pipeline order.
#[derive(Clone, Copy, Debug, PartialEq, Eq, Structural, Hash)]
pub enum AggregationRound {
    BasicCircuits,
    LeafAggregation,
    NodeAggregation,
    Scheduler,
}

impl AggregationRound {
    /// Position of the round in the pipeline, counted from zero.
    pub open spec fn spec_index(self) -> u8 {
        match self {
            AggregationRound::BasicCircuits => 0,
            AggregationRound::LeafAggregation => 1,
            AggregationRound::NodeAggregation => 2,
            AggregationRound::Scheduler => 3,
        }
    }

    /// The round whose artifacts this round consumes, if there is one.
    pub open spec fn spec_previous(self) -> Option<AggregationRound> {
        match self {
            AggregationRound::BasicCircuits => None,
            AggregationRound::LeafAggregation => Some(AggregationRound::BasicCircuits),
            AggregationRound::NodeAggregation => Some(AggregationRound::LeafAggregation),
            AggregationRound::Scheduler => Some(AggregationRound::NodeAggregation),
        }
    }

    /// Whether a round may consume artifacts of `upstream`: only earlier
    /// rounds feed later ones.
    pub open spec fn consumes_from(self, upstream: AggregationRound) -> bool {
        upstream.spec_index() < self.spec_index()
    }

    #[verifier::when_used_as_spec(spec_index)]
    pub fn index(self) -> (res: u8)
        ensures
            res == self.spec_index(),
            res <= 3,
    {
        match self {
            AggregationRound::BasicCircuits => 0,
            AggregationRound::LeafAggregation => 1,
            AggregationRound::NodeAggregation => 2,
            AggregationRound::Scheduler => 3,
        }
    }

    #[verifier::when_used_as_spec(spec_previous)]
    pub fn previous(self) -> (res: Option<AggregationRound>)
        ensures
            res == self.spec_previous(),
            res is None <==> self == AggregationRound::BasicCircuits,
            res matches Some(p) ==> p.spec_index() + 1 == self.spec_index() && self.consumes_from(p),
    {
        match self {
            AggregationRound::BasicCircuits => None,
            AggregationRound::LeafAggregation => Some(AggregationRound::BasicCircuits),
            AggregationRound::NodeAggregation => Some(AggregationRound::LeafAggregation),
            AggregationRound::Scheduler => Some(AggregationRound::NodeAggregation),
        }
    }

    /// The round's name, as it labels metric samples and blob locations.
    pub fn name(self) -> (res: &'static str)
        ensures
            self == AggregationRound::BasicCircuits ==> res@ == "BasicCircuits"@,
            self == AggregationRound::LeafAggregation ==> res@ == "LeafAggregation"@,
            self == AggregationRound::NodeAggregation ==> res@ == "NodeAggregation"@,
            self == AggregationRound::Scheduler ==> res@ == "Scheduler"@,
    {
        match self {
            AggregationRound::BasicCircuits => "BasicCircuits",
            AggregationRound::LeafAggregation => "LeafAggregation",
            AggregationRound::NodeAggregation => "NodeAggregation",
            AggregationRound::Scheduler => "Scheduler",
        }
    }
}

/// Identity of one stored artifact. The five fields together determine the
/// blob's location, so storing twice under equal keys overwrites.
#[derive(Clone, Copy, Debug, PartialEq, Eq, Structural, Hash)]
pub struct FriCircuitKey {
    pub block_number: L1BatchNumber,
    pub sequence_number: usize,
    pub circuit_id: u8,
    pub aggregation_round: AggregationRound,
    pub depth: u16,
}

/// Circuit identifier of the scheduler circuit.
pub const SCHEDULER_CIRCUIT_ID: u8 = 1;

/// Circuit identifier under which the verification key of the node layer,
/// the round just before the scheduler, is kept.
pub const NODE_LAYER_CIRCUIT_ID: u8 = 2;

/// The key of a batch's scheduler artifact.
pub open spec fn scheduler_key(block_number: L1BatchNumber) -> FriCircuitKey {
    FriCircuitKey {
        block_number,
        sequence_number: 0,
        circuit_id: SCHEDULER_CIRCUIT_ID,
        aggregation_round: AggregationRound::Scheduler,
        depth: 0,
    }
}

impl FriCircuitKey {
    /// Key under which the scheduler artifact of `block_number` is stored:
    /// circuit 1, sequence number 0, depth 0, scheduler round.
    pub fn for_scheduler(block_number: L1BatchNumber) -> (key: FriCircuitKey)
        ensures
            key == scheduler_key(block_number),
    {
        FriCircuitKey {
            block_number,
            sequence_number: 0,
            circuit_id: SCHEDULER_CIRCUIT_ID,
            aggregation_round: AggregationRound::Scheduler,
            depth: 0,
        }
    }
}

/// Keys are a function of their fields alone: equal batches give equal
/// scheduler keys, and distinct batches give distinct ones.
pub proof fn scheduler_key_is_injective(a: L1BatchNumber, b: L1BatchNumber)
    ensures
        a == b <==> scheduler_key(a) == scheduler_key(b),
{
}

/// Where a job stands in its life: `Queued`, then `Picked` by one engine,
/// then `Processing`, and at last `Succeeded` or `Failed`.
#[derive(Clone, Copy, Debug, PartialEq, Eq, Structural, Hash)]
pub enum JobStatus {
    Queued,
    Picked,
    Processing,
    Succeeded,
    Failed,
}

impl JobStatus {
    /// The steps of a job's life that an engine takes. A failed job goes
    /// back to the queue only by the queue's own retry policy, which is not
    /// among them.
    pub open spec fn spec_may_become(self, next: JobStatus) -> bool {
        match (self, next) {
            (JobStatus::Queued, JobStatus::Picked) => true,
            (JobStatus::Picked, JobStatus::Processing) => true,
            (JobStatus::Picked, JobStatus::Failed) => true,
            (JobStatus::Processing, JobStatus::Succeeded) => true,
            (JobStatus::Processing, JobStatus::Failed) => true,
            _ => false,
        }
    }

    /// Whether the status is final for the engine.
    pub open spec fn spec_is_terminal(self) -> bool {
        self == JobStatus::Succeeded || self == JobStatus::Failed
    }

    #[verifier::when_used_as_spec(spec_may_become)]
    pub fn may_become(self, next: JobStatus) -> (res: bool)
        ensures
            res == self.spec_may_become(next),
    {
        match (self, next) {
            (JobStatus::Queued, JobStatus::Picked) => true,
            (JobStatus::Picked, JobStatus::Processing) => true,
            (JobStatus::Picked, JobStatus::Failed) => true,
            (JobStatus::Processing, JobStatus::Succeeded) => true,
            (JobStatus::Processing, JobStatus::Failed) => true,
            _ => false,
        }
    }

    #[verifier::when_used_as_spec(spec_is_terminal)]
    pub fn is_terminal(self) -> (res: bool)
        ensures
            res == self.spec_is_terminal(),
    {
        match self {
            JobStatus::Succeeded => true,
            JobStatus::Failed => true,
            _ => false,
        }
    }
}

/// No step leads out of a terminal status, and none leads back to the queue.
pub proof fn terminal_status_is_final(from: JobStatus, to: JobStatus)
    requires
        from.spec_may_become(to),
    ensures
        !from.spec_is_terminal(),
        to != JobStatus::Queued,
{
}

} // verus!
