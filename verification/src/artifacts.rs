//! Artifacts and job payloads.
//!
//! Proofs, verification keys and circuit parameters are opaque here: each is
//! carried as the bytes of its encoding, and nothing in this crate looks
//! inside. What the crate decides is which of them go where, and in which
//! order.

use vstd::prelude::*;
use crate::types::L1BatchNumber;

verus! {

/// Proof produced by a recursive (aggregating) circuit.
#[derive(Clone, Debug, PartialEq, Eq)]
pub struct RecursionProof {
    pub encoded: Vec<u8>,
}

/// Proof produced by a circuit of the base layer.
#[derive(Clone, Debug, PartialEq, Eq)]
pub struct BaseProof {
    pub encoded: Vec<u8>,
}

/// A stored proof, tagged by the layer that produced it.
#[derive(Clone, Debug, PartialEq, Eq)]
pub enum FriProofWrapper {
    Base(BaseProof),
    Recursive(RecursionProof),
}

/// Parameters of one leaf-layer circuit.
#[derive(Clone, Debug, PartialEq, Eq)]
pub struct LeafParameters {
    pub encoded: Vec<u8>,
}

/// Verification key of a recursion-layer circuit.
#[derive(Clone, Debug, PartialEq, Eq)]
pub struct VerificationKey {
    pub fixed_parameters: Vec<u8>,
    pub setup_merkle_tree_cap: Vec<u8>,
}

/// Input of the scheduler circuit. `partial_input` is what was stored for
/// the batch by the earlier rounds; the other three fields are filled in
/// when the job is prepared.
#[derive(Clone, Debug, PartialEq, Eq)]
pub struct SchedulerWitness {
    pub partial_input: Vec<u8>,
    pub node_layer_vk_witness: VerificationKey,
    pub proof_witnesses: Vec<RecursionProof>,
    pub leaf_layer_parameters: Vec<LeafParameters>,
}

/// A scheduler job, ready for the compute step.
#[derive(Clone, Debug, PartialEq, Eq)]
pub struct SchedulerWitnessGeneratorJob {
    pub block_number: L1BatchNumber,
    pub scheduler_witness: SchedulerWitness,
    pub node_vk: VerificationKey,
}

/// The scheduler circuit: a witness and the configuration it is proved under.
#[derive(Clone, Debug, PartialEq, Eq)]
pub struct SchedulerCircuit {
    pub witness: SchedulerWitness,
    pub vk_fixed_parameters: Vec<u8>,
    pub capacity: usize,
}

/// What the compute step of a scheduler job produces.
#[derive(Clone, Debug, PartialEq, Eq)]
pub struct SchedulerArtifacts {
    pub scheduler_circuit: SchedulerCircuit,
}

impl View for RecursionProof {
    type V = Seq<u8>;

    open spec fn view(&self) -> Seq<u8> {
        self.encoded@
    }
}

impl View for LeafParameters {
    type V = Seq<u8>;

    open spec fn view(&self) -> Seq<u8> {
        self.encoded@
    }
}

/// Model of a verification key.
pub ghost struct VerificationKeyView {
    pub fixed_parameters: Seq<u8>,
    pub setup_merkle_tree_cap: Seq<u8>,
}

impl View for VerificationKey {
    type V = VerificationKeyView;

    open spec fn view(&self) -> VerificationKeyView {
        VerificationKeyView {
            fixed_parameters: self.fixed_parameters@,
            setup_merkle_tree_cap: self.setup_merkle_tree_cap@,
        }
    }
}

/// The encodings of a list of proofs, in the list's order.
pub open spec fn proof_views(proofs: Seq<RecursionProof>) -> Seq<Seq<u8>> {
    Seq::new(proofs.len(), |i: int| proofs[i]@)
}

/// The encodings of a list of leaf parameters, in the list's order.
pub open spec fn parameter_views(parameters: Seq<LeafParameters>) -> Seq<Seq<u8>> {
    Seq::new(parameters.len(), |i: int| parameters[i]@)
}

/// Model of a scheduler witness.
pub ghost struct SchedulerWitnessView {
    pub partial_input: Seq<u8>,
    pub node_layer_vk_witness: VerificationKeyView,
    pub proof_witnesses: Seq<Seq<u8>>,
    pub leaf_layer_parameters: Seq<Seq<u8>>,
}

impl View for SchedulerWitness {
    type V = SchedulerWitnessView;

    open spec fn view(&self) -> SchedulerWitnessView {
        SchedulerWitnessView {
            partial_input: self.partial_input@,
            node_layer_vk_witness: self.node_layer_vk_witness@,
            proof_witnesses: proof_views(self.proof_witnesses@),
            leaf_layer_parameters: parameter_views(self.leaf_layer_parameters@),
        }
    }
}

/// Model of a scheduler job.
pub ghost struct SchedulerJobView {
    pub block_number: L1BatchNumber,
    pub scheduler_witness: SchedulerWitnessView,
    pub node_vk: VerificationKeyView,
}

impl View for SchedulerWitnessGeneratorJob {
    type V = SchedulerJobView;

    open spec fn view(&self) -> SchedulerJobView {
        SchedulerJobView {
            block_number: self.block_number,
            scheduler_witness: self.scheduler_witness@,
            node_vk: self.node_vk@,
        }
    }
}

/// Model of a scheduler circuit.
pub ghost struct SchedulerCircuitView {
    pub witness: SchedulerWitnessView,
    pub vk_fixed_parameters: Seq<u8>,
    pub capacity: nat,
}

impl View for SchedulerCircuit {
    type V = SchedulerCircuitView;

    open spec fn view(&self) -> SchedulerCircuitView {
        SchedulerCircuitView {
            witness: self.witness@,
            vk_fixed_parameters: self.vk_fixed_parameters@,
            capacity: self.capacity as nat,
        }
    }
}

impl View for SchedulerArtifacts {
    type V = SchedulerCircuitView;

    open spec fn view(&self) -> SchedulerCircuitView {
        self.scheduler_circuit@
    }
}

impl VerificationKey {
    /// A second copy of the key.
    pub fn duplicate(&self) -> (copy: VerificationKey)
        ensures
            copy@ == self@,
    {
        VerificationKey {
            fixed_parameters: self.fixed_parameters.clone(),
            setup_merkle_tree_cap: self.setup_merkle_tree_cap.clone(),
        }
    }
}

impl FriProofWrapper {
    /// The proof inside a recursive wrapper; `None` for a proof of the base
    /// layer.
    pub fn into_recursive(self) -> (res: Option<RecursionProof>)
        ensures
            self is Base ==> res is None,
            self matches FriProofWrapper::Recursive(p) ==> res == Some(p),
    {
        match self {
            FriProofWrapper::Base(_) => None,
            FriProofWrapper::Recursive(p) => Some(p),
        }
    }
}

} // verus!
