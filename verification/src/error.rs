//! Failures of a job attempt, and whether trying again can help.

use vstd::prelude::*;
use vstd::string::*;
use crate::types::L1BatchNumber;

verus! {

/// The two kinds of failure that a caller must tell apart.
#[derive(Clone, Copy, Debug, PartialEq, Eq, Structural, Hash)]
pub enum ErrorKind {
    /// The queue or the blob store failed, or an upstream job has not
    /// finished: the same attempt may succeed later.
    Transient,
    /// The data handed to the stage is structurally wrong: no retry mends it.
    InputContractViolation,
}

/// Why a job attempt failed.
#[derive(Clone, Copy, Debug, PartialEq, Eq, Structural, Hash)]
pub enum WitnessGeneratorError {
    /// The blob store did not answer, or refused a read or a write.
    BlobStoreUnavailable,
    /// The job queue did not answer.
    QueueUnavailable,
    /// The upstream job at `position` has not succeeded yet.
    DependencyIncomplete { position: usize },
    /// The number of upstream artifacts is not the one the stage expects.
    DependencyCountMismatch { expected: usize, found: usize },
    /// The artifact at `position` is a proof of the base layer where only
    /// recursive proofs are accepted.
    UnexpectedBaseProof { l1_batch_number: L1BatchNumber, position: usize },
    /// The table of leaf-layer parameters has not the pipeline's width.
    LeafParameterCountMismatch { expected: usize, found: usize },
    /// A payload of the job does not decode to what it stands for, so the
    /// circuit cannot be built.
    MalformedArtifact,
}

impl WitnessGeneratorError {
    /// Each failure is of one kind: trouble with a store, or with an
    /// upstream job that is still on its way, passes; wrong data does not.
    pub open spec fn spec_kind(self) -> ErrorKind {
        match self {
            WitnessGeneratorError::BlobStoreUnavailable => ErrorKind::Transient,
            WitnessGeneratorError::QueueUnavailable => ErrorKind::Transient,
            WitnessGeneratorError::DependencyIncomplete { .. } => ErrorKind::Transient,
            WitnessGeneratorError::DependencyCountMismatch { .. } => ErrorKind::InputContractViolation,
            WitnessGeneratorError::UnexpectedBaseProof { .. } => ErrorKind::InputContractViolation,
            WitnessGeneratorError::LeafParameterCountMismatch { .. } => ErrorKind::InputContractViolation,
            WitnessGeneratorError::MalformedArtifact => ErrorKind::InputContractViolation,
        }
    }

    pub open spec fn spec_message(self) -> Seq<char> {
        match self {
            WitnessGeneratorError::BlobStoreUnavailable => "blob store is unavailable"@,
            WitnessGeneratorError::QueueUnavailable => "job queue is unavailable"@,
            WitnessGeneratorError::DependencyIncomplete { .. } => "an upstream job has not succeeded"@,
            WitnessGeneratorError::DependencyCountMismatch { .. } => "unexpected number of upstream artifacts"@,
            WitnessGeneratorError::UnexpectedBaseProof { .. } => "expected only recursive proofs for scheduler l1 batch"@,
            WitnessGeneratorError::LeafParameterCountMismatch { .. } => "unexpected number of leaf layer parameters"@,
            WitnessGeneratorError::MalformedArtifact => "an artifact could not be decoded"@,
        }
    }

    #[verifier::when_used_as_spec(spec_kind)]
    pub fn kind(self) -> (res: ErrorKind)
        ensures
            res == self.spec_kind(),
    {
        match self {
            WitnessGeneratorError::BlobStoreUnavailable => ErrorKind::Transient,
            WitnessGeneratorError::QueueUnavailable => ErrorKind::Transient,
            WitnessGeneratorError::DependencyIncomplete { .. } => ErrorKind::Transient,
            WitnessGeneratorError::DependencyCountMismatch { .. } => ErrorKind::InputContractViolation,
            WitnessGeneratorError::UnexpectedBaseProof { .. } => ErrorKind::InputContractViolation,
            WitnessGeneratorError::LeafParameterCountMismatch { .. } => ErrorKind::InputContractViolation,
            WitnessGeneratorError::MalformedArtifact => ErrorKind::InputContractViolation,
        }
    }

    /// Whether the queue may hand the job out again with hope of success.
    pub fn is_retryable(self) -> (res: bool)
        ensures
            res <==> self.spec_kind() == ErrorKind::Transient,
    {
        match self.kind() {
            ErrorKind::Transient => true,
            ErrorKind::InputContractViolation => false,
        }
    }

    /// The text recorded in the ledger for this failure.
    pub fn message(self) -> (res: String)
        ensures
            res@ == self.spec_message(),
    {
        match self {
            WitnessGeneratorError::BlobStoreUnavailable => "blob store is unavailable".to_string(),
            WitnessGeneratorError::QueueUnavailable => "job queue is unavailable".to_string(),
            WitnessGeneratorError::DependencyIncomplete { .. } => "an upstream job has not succeeded".to_string(),
            WitnessGeneratorError::DependencyCountMismatch { .. } => "unexpected number of upstream artifacts".to_string(),
            WitnessGeneratorError::UnexpectedBaseProof { .. } => "expected only recursive proofs for scheduler l1 batch".to_string(),
            WitnessGeneratorError::LeafParameterCountMismatch { .. } => "unexpected number of leaf layer parameters".to_string(),
            WitnessGeneratorError::MalformedArtifact => "an artifact could not be decoded".to_string(),
        }
    }
}

} // verus!
