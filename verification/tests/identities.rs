use scheduler_witness_generator::error::{ErrorKind, WitnessGeneratorError};
use scheduler_witness_generator::metrics::{Phase, ROUND_LABEL};
use scheduler_witness_generator::types::{
    AggregationRound, JobStatus, L1BatchNumber, NODE_LAYER_CIRCUIT_ID, SCHEDULER_CIRCUIT_ID,
};

const ROUNDS: [AggregationRound; 4] = [
    AggregationRound::BasicCircuits,
    AggregationRound::LeafAggregation,
    AggregationRound::NodeAggregation,
    AggregationRound::Scheduler,
];

const STATUSES: [JobStatus; 5] = [
    JobStatus::Queued,
    JobStatus::Picked,
    JobStatus::Processing,
    JobStatus::Succeeded,
    JobStatus::Failed,
];

#[test]
fn rounds_are_numbered_in_pipeline_order() {
    let indices: Vec<u8> = ROUNDS.iter().map(|r| r.index()).collect();
    assert_eq!(indices, vec![0, 1, 2, 3]);
}

#[test]
fn each_round_consumes_the_round_before() {
    assert_eq!(AggregationRound::BasicCircuits.previous(), None);
    assert_eq!(AggregationRound::LeafAggregation.previous(), Some(AggregationRound::BasicCircuits));
    assert_eq!(AggregationRound::NodeAggregation.previous(), Some(AggregationRound::LeafAggregation));
    assert_eq!(AggregationRound::Scheduler.previous(), Some(AggregationRound::NodeAggregation));
}

#[test]
fn round_names() {
    let names: Vec<&str> = ROUNDS.iter().map(|r| r.name()).collect();
    assert_eq!(names, vec!["BasicCircuits", "LeafAggregation", "NodeAggregation", "Scheduler"]);
}

#[test]
fn circuit_identifiers() {
    assert_eq!(SCHEDULER_CIRCUIT_ID, 1);
    assert_eq!(NODE_LAYER_CIRCUIT_ID, 2);
}

#[test]
fn job_life_cycle() {
    let allowed = [
        (JobStatus::Queued, JobStatus::Picked),
        (JobStatus::Picked, JobStatus::Processing),
        (JobStatus::Picked, JobStatus::Failed),
        (JobStatus::Processing, JobStatus::Succeeded),
        (JobStatus::Processing, JobStatus::Failed),
    ];
    for from in STATUSES {
        for to in STATUSES {
            assert_eq!(from.may_become(to), allowed.contains(&(from, to)));
        }
    }
}

#[test]
fn only_success_and_failure_are_terminal() {
    let terminal: Vec<bool> = STATUSES.iter().map(|s| s.is_terminal()).collect();
    assert_eq!(terminal, vec![false, false, false, true, true]);
}

#[test]
fn error_kinds() {
    let batch = L1BatchNumber(1);
    let transient = [
        WitnessGeneratorError::BlobStoreUnavailable,
        WitnessGeneratorError::QueueUnavailable,
        WitnessGeneratorError::DependencyIncomplete { position: 0 },
    ];
    let violations = [
        WitnessGeneratorError::DependencyCountMismatch { expected: 1, found: 2 },
        WitnessGeneratorError::UnexpectedBaseProof { l1_batch_number: batch, position: 0 },
        WitnessGeneratorError::LeafParameterCountMismatch { expected: 1, found: 0 },
        WitnessGeneratorError::MalformedArtifact,
    ];
    for e in transient {
        assert_eq!(e.kind(), ErrorKind::Transient);
        assert!(e.is_retryable());
    }
    for e in violations {
        assert_eq!(e.kind(), ErrorKind::InputContractViolation);
        assert!(!e.is_retryable());
    }
}

#[test]
fn error_messages() {
    assert_eq!(WitnessGeneratorError::BlobStoreUnavailable.message(), "blob store is unavailable");
    assert_eq!(WitnessGeneratorError::QueueUnavailable.message(), "job queue is unavailable");
    assert_eq!(
        WitnessGeneratorError::DependencyIncomplete { position: 3 }.message(),
        "an upstream job has not succeeded"
    );
    assert_eq!(
        WitnessGeneratorError::DependencyCountMismatch { expected: 1, found: 2 }.message(),
        "unexpected number of upstream artifacts"
    );
    assert_eq!(
        WitnessGeneratorError::LeafParameterCountMismatch { expected: 1, found: 2 }.message(),
        "unexpected number of leaf layer parameters"
    );
    assert_eq!(
        WitnessGeneratorError::MalformedArtifact.message(),
        "an artifact could not be decoded"
    );
}

#[test]
fn metric_names_are_stable() {
    assert_eq!(Phase::BlobFetch.metric_name(), "prover_fri.witness_generation.blob_fetch_time");
    assert_eq!(Phase::PrepareJob.metric_name(), "prover_fri.witness_generation.prepare_job_time");
    assert_eq!(
        Phase::WitnessGeneration.metric_name(),
        "prover_fri.witness_generation.witness_generation_time"
    );
    assert_eq!(Phase::BlobSave.metric_name(), "prover_fri.witness_generation.blob_save_time");
    assert_eq!(ROUND_LABEL, "aggregation_round");
}
