//! Names of the duration samples that an engine reports for each job.

use vstd::prelude::*;

verus! {

/// The four phases of a job whose duration is measured.
#[derive(Clone, Copy, Debug, PartialEq, Eq, Structural, Hash)]
pub enum Phase {
    /// Fetching the artifacts of the upstream jobs.
    BlobFetch,
    /// Merging what was fetched into the job.
    PrepareJob,
    /// The compute step.
    WitnessGeneration,
    /// Storing the result.
    BlobSave,
}

/// Label under which a sample carries the name of its aggregation round.
pub const ROUND_LABEL: &'static str = "aggregation_round";

impl Phase {
    pub open spec fn spec_metric_name(self) -> Seq<char> {
        match self {
            Phase::BlobFetch => "prover_fri.witness_generation.blob_fetch_time"@,
            Phase::PrepareJob => "prover_fri.witness_generation.prepare_job_time"@,
            Phase::WitnessGeneration => "prover_fri.witness_generation.witness_generation_time"@,
            Phase::BlobSave => "prover_fri.witness_generation.blob_save_time"@,
        }
    }

    /// The name of the histogram that takes the phase's durations.
    pub fn metric_name(self) -> (name: &'static str)
        ensures
            name@ == self.spec_metric_name(),
    {
        match self {
            Phase::BlobFetch => "prover_fri.witness_generation.blob_fetch_time",
            Phase::PrepareJob => "prover_fri.witness_generation.prepare_job_time",
            Phase::WitnessGeneration => "prover_fri.witness_generation.witness_generation_time",
            Phase::BlobSave => "prover_fri.witness_generation.blob_save_time",
        }
    }
}

} // verus!
