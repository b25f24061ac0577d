use scheduler_witness_generator::artifacts::{
    BaseProof, FriProofWrapper, LeafParameters, RecursionProof, SchedulerWitness,
    SchedulerWitnessGeneratorJob, VerificationKey,
};
use scheduler_witness_generator::error::{ErrorKind, WitnessGeneratorError};
use scheduler_witness_generator::ledger::{LedgerWrite, ProverJob};
use scheduler_witness_generator::scheduler::{
    check_dependencies, extract_recursive_proofs, prepare_job, ClaimedJob, Dependency,
    SchedulerSettings, SchedulerWitnessGenerator,
};
use scheduler_witness_generator::types::{AggregationRound, FriCircuitKey, JobStatus, L1BatchNumber};

fn settings() -> SchedulerSettings {
    SchedulerSettings { capacity: 28000, dependency_count: 3, leaf_layer_width: 2 }
}

fn recursive(tag: u8) -> FriProofWrapper {
    FriProofWrapper::Recursive(RecursionProof { encoded: vec![tag, tag + 1] })
}

fn base(tag: u8) -> FriProofWrapper {
    FriProofWrapper::Base(BaseProof { encoded: vec![tag] })
}

fn node_vk() -> VerificationKey {
    VerificationKey { fixed_parameters: vec![7, 7, 7], setup_merkle_tree_cap: vec![9, 9] }
}

fn stale_vk() -> VerificationKey {
    VerificationKey { fixed_parameters: vec![], setup_merkle_tree_cap: vec![] }
}

fn partial() -> SchedulerWitness {
    SchedulerWitness {
        partial_input: vec![1, 2, 3, 4],
        node_layer_vk_witness: stale_vk(),
        proof_witnesses: vec![RecursionProof { encoded: vec![0xee] }],
        leaf_layer_parameters: vec![],
    }
}

fn commits() -> Vec<(u8, LeafParameters)> {
    vec![
        (3, LeafParameters { encoded: vec![30] }),
        (4, LeafParameters { encoded: vec![40, 41] }),
    ]
}

fn succeeded(id: u32) -> Dependency {
    Dependency { prover_job_id: id, status: JobStatus::Succeeded }
}

fn claim(batch: u32) -> ClaimedJob {
    ClaimedJob {
        l1_batch_number: L1BatchNumber(batch),
        dependencies: vec![succeeded(11), succeeded(12), succeeded(13)],
        proofs: vec![recursive(10), recursive(20), recursive(30)],
        partial_witness: partial(),
        node_vk: node_vk(),
        leaf_vk_commits: commits(),
    }
}

fn expected_job(batch: u32) -> SchedulerWitnessGeneratorJob {
    SchedulerWitnessGeneratorJob {
        block_number: L1BatchNumber(batch),
        scheduler_witness: SchedulerWitness {
            partial_input: vec![1, 2, 3, 4],
            node_layer_vk_witness: node_vk(),
            proof_witnesses: vec![
                RecursionProof { encoded: vec![10, 11] },
                RecursionProof { encoded: vec![20, 21] },
                RecursionProof { encoded: vec![30, 31] },
            ],
            leaf_layer_parameters: vec![
                LeafParameters { encoded: vec![30] },
                LeafParameters { encoded: vec![40, 41] },
            ],
        },
        node_vk: node_vk(),
    }
}

#[test]
fn no_claim_gives_no_job() {
    let generator = SchedulerWitnessGenerator::new(settings());
    assert_eq!(generator.get_next_job(None), Ok(None));
}

#[test]
fn batch_42_end_to_end() {
    let generator = SchedulerWitnessGenerator::new(settings());
    let next = generator.get_next_job(Some(claim(42))).unwrap();
    let (job_id, job) = next.unwrap();
    assert_eq!(job_id, L1BatchNumber(42));
    assert_eq!(job.scheduler_witness.proof_witnesses.len(), 3);
    assert_eq!(job.scheduler_witness.node_layer_vk_witness, node_vk());
    assert_eq!(job.scheduler_witness.leaf_layer_parameters.len(), 2);
    assert_eq!(job, expected_job(42));

    let artifacts = generator.process_job_sync(job);
    assert_eq!(artifacts.scheduler_circuit.witness, expected_job(42).scheduler_witness);
    assert_eq!(artifacts.scheduler_circuit.vk_fixed_parameters, vec![7, 7, 7]);
    assert_eq!(artifacts.scheduler_circuit.capacity, 28000);

    let (key, blob) = generator.artifact_to_store(job_id, artifacts.clone());
    assert_eq!(
        key,
        FriCircuitKey {
            block_number: L1BatchNumber(42),
            sequence_number: 0,
            circuit_id: 1,
            aggregation_round: AggregationRound::Scheduler,
            depth: 0,
        }
    );
    assert_eq!(blob, artifacts.scheduler_circuit);

    let transaction = generator.save_result(job_id, Ok("store/42.bin".to_string()), 1500);
    assert_eq!(
        transaction.writes,
        vec![
            LedgerWrite::InsertProverJob(ProverJob {
                l1_batch_number: L1BatchNumber(42),
                circuit_id: 1,
                depth: 0,
                sequence_number: 0,
                aggregation_round: AggregationRound::Scheduler,
                circuit_blob_url: "store/42.bin".to_string(),
                is_node_final_proof: false,
            }),
            LedgerWrite::MarkSchedulerJobSuccessful {
                l1_batch_number: L1BatchNumber(42),
                time_taken_ms: 1500,
            },
        ]
    );
    let inserts = transaction
        .writes
        .iter()
        .filter(|w| matches!(w, LedgerWrite::InsertProverJob(_)))
        .count();
    assert_eq!(inserts, 1);
}

#[test]
fn proofs_keep_the_order_given() {
    let generator = SchedulerWitnessGenerator::new(settings());
    let mut c = claim(7);
    c.proofs = vec![recursive(30), recursive(10), recursive(20)];
    let (_, job) = generator.get_next_job(Some(c)).unwrap().unwrap();
    assert_eq!(
        job.scheduler_witness.proof_witnesses,
        vec![
            RecursionProof { encoded: vec![30, 31] },
            RecursionProof { encoded: vec![10, 11] },
            RecursionProof { encoded: vec![20, 21] },
        ]
    );
}

#[test]
fn stored_proof_list_is_replaced_not_extended() {
    let generator = SchedulerWitnessGenerator::new(settings());
    let (_, job) = generator.get_next_job(Some(claim(1))).unwrap().unwrap();
    assert!(!job.scheduler_witness.proof_witnesses.contains(&RecursionProof { encoded: vec![0xee] }));
}

#[test]
fn job_waits_for_every_dependency() {
    let generator = SchedulerWitnessGenerator::new(settings());
    for status in [JobStatus::Queued, JobStatus::Picked, JobStatus::Processing, JobStatus::Failed] {
        let mut c = claim(5);
        c.dependencies[1].status = status;
        c.dependencies[2].status = status;
        assert_eq!(
            generator.get_next_job(Some(c)),
            Err(WitnessGeneratorError::DependencyIncomplete { position: 1 })
        );
    }
}

#[test]
fn dependency_count_must_match() {
    let generator = SchedulerWitnessGenerator::new(settings());
    let mut c = claim(5);
    c.dependencies.pop();
    assert_eq!(
        generator.get_next_job(Some(c)),
        Err(WitnessGeneratorError::DependencyCountMismatch { expected: 3, found: 2 })
    );
    let mut c = claim(5);
    c.proofs.push(recursive(40));
    assert_eq!(
        generator.get_next_job(Some(c)),
        Err(WitnessGeneratorError::DependencyCountMismatch { expected: 3, found: 4 })
    );
}

#[test]
fn base_proof_is_an_input_contract_violation() {
    let generator = SchedulerWitnessGenerator::new(settings());
    let mut c = claim(9);
    c.proofs = vec![recursive(10), base(1), base(2)];
    let error = generator.get_next_job(Some(c)).unwrap_err();
    assert_eq!(
        error,
        WitnessGeneratorError::UnexpectedBaseProof { l1_batch_number: L1BatchNumber(9), position: 1 }
    );
    assert_eq!(error.kind(), ErrorKind::InputContractViolation);
    assert!(!error.is_retryable());
    assert_eq!(error.message(), "expected only recursive proofs for scheduler l1 batch");
}

#[test]
fn leaf_table_is_neither_padded_nor_cut() {
    let generator = SchedulerWitnessGenerator::new(settings());
    let mut c = claim(9);
    c.leaf_vk_commits.pop();
    assert_eq!(
        generator.get_next_job(Some(c)),
        Err(WitnessGeneratorError::LeafParameterCountMismatch { expected: 2, found: 1 })
    );
    let mut c = claim(9);
    c.leaf_vk_commits.push((5, LeafParameters { encoded: vec![] }));
    assert_eq!(
        generator.get_next_job(Some(c)),
        Err(WitnessGeneratorError::LeafParameterCountMismatch { expected: 2, found: 3 })
    );
}

#[test]
fn first_failure_is_reported() {
    let generator = SchedulerWitnessGenerator::new(settings());
    let mut c = claim(9);
    c.dependencies[0].status = JobStatus::Failed;
    c.proofs = vec![base(1), base(2), base(3)];
    c.leaf_vk_commits.clear();
    assert_eq!(
        generator.get_next_job(Some(c)),
        Err(WitnessGeneratorError::DependencyIncomplete { position: 0 })
    );
}

#[test]
fn check_dependencies_lists_job_ids_in_order() {
    let deps = vec![succeeded(5), succeeded(3), succeeded(8)];
    assert_eq!(check_dependencies(&deps, 3), Ok(vec![5, 3, 8]));
    assert_eq!(check_dependencies(&Vec::new(), 0), Ok(vec![]));
    assert_eq!(
        check_dependencies(&deps, 13),
        Err(WitnessGeneratorError::DependencyCountMismatch { expected: 13, found: 3 })
    );
}

#[test]
fn extract_recursive_proofs_unwraps_in_order() {
    let proofs = vec![recursive(1), recursive(5)];
    assert_eq!(
        extract_recursive_proofs(L1BatchNumber(3), proofs),
        Ok(vec![RecursionProof { encoded: vec![1, 2] }, RecursionProof { encoded: vec![5, 6] }])
    );
    assert_eq!(extract_recursive_proofs(L1BatchNumber(3), vec![]), Ok(vec![]));
    assert_eq!(
        extract_recursive_proofs(L1BatchNumber(3), vec![base(0)]),
        Err(WitnessGeneratorError::UnexpectedBaseProof {
            l1_batch_number: L1BatchNumber(3),
            position: 0
        })
    );
}

#[test]
fn into_recursive_tells_the_layers_apart() {
    assert_eq!(recursive(1).into_recursive(), Some(RecursionProof { encoded: vec![1, 2] }));
    assert_eq!(base(1).into_recursive(), None);
}

#[test]
fn prepare_job_merges_what_was_fetched() {
    let proofs = vec![RecursionProof { encoded: vec![10, 11] }];
    let job = prepare_job(L1BatchNumber(8), proofs, partial(), node_vk(), &commits(), 2).unwrap();
    assert_eq!(job.block_number, L1BatchNumber(8));
    assert_eq!(job.node_vk, node_vk());
    assert_eq!(job.scheduler_witness.node_layer_vk_witness, node_vk());
    assert_eq!(job.scheduler_witness.partial_input, vec![1, 2, 3, 4]);
    assert_eq!(job.scheduler_witness.proof_witnesses, vec![RecursionProof { encoded: vec![10, 11] }]);
    assert_eq!(
        job.scheduler_witness.leaf_layer_parameters,
        vec![LeafParameters { encoded: vec![30] }, LeafParameters { encoded: vec![40, 41] }]
    );
}

#[test]
fn duplicate_copies_both_parts_of_a_key() {
    assert_eq!(node_vk().duplicate(), node_vk());
}

#[test]
fn failed_store_marks_the_job_failed_and_nothing_else() {
    let generator = SchedulerWitnessGenerator::new(settings());
    let transaction = generator.save_result(
        L1BatchNumber(42),
        Err(WitnessGeneratorError::BlobStoreUnavailable),
        10,
    );
    assert_eq!(
        transaction.writes,
        vec![LedgerWrite::MarkSchedulerJobFailed {
            l1_batch_number: L1BatchNumber(42),
            error: "blob store is unavailable".to_string(),
        }]
    );
}

#[test]
fn save_failure_records_the_error_text() {
    let generator = SchedulerWitnessGenerator::new(settings());
    let transaction = generator.save_failure(L1BatchNumber(6), "worker panicked".to_string());
    assert_eq!(
        transaction.writes,
        vec![LedgerWrite::MarkSchedulerJobFailed {
            l1_batch_number: L1BatchNumber(6),
            error: "worker panicked".to_string(),
        }]
    );
}

#[test]
fn scheduler_keys_depend_on_the_batch_alone() {
    assert_eq!(
        FriCircuitKey::for_scheduler(L1BatchNumber(42)),
        FriCircuitKey::for_scheduler(L1BatchNumber(42))
    );
    assert_ne!(
        FriCircuitKey::for_scheduler(L1BatchNumber(42)),
        FriCircuitKey::for_scheduler(L1BatchNumber(43))
    );
}
