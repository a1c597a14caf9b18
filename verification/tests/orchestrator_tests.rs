use aggregator_notifier::certifier::{CertifierOutput, ProvingEvent};
use aggregator_notifier::local_state::{ExitTree, LocalNetworkStateData, EMPTY_TREE_ROOT};
use aggregator_notifier::notifier::{AggregatorNotifier, ProverConfig, ProverKind};
use aggregator_notifier::packer::{ReceiptEvent, RetryAction, SettlementReceipt};
use aggregator_notifier::status::{CertificateStatus, OrchestratorError, ProofError};
use aggregator_notifier::stores::{PendingStore, StateStore, StoreError};
use aggregator_notifier::types::{Certificate, NetworkId, Proof, CERTIFICATE_ID_SEED};

fn mix(acc: u64, value: u64) -> u64 {
    ((acc << 1) ^ (acc >> 63)) ^ value
}

fn make_certificate(network: u32, height: u64, prev: u64, new: u64, withdrawals: Vec<u64>) -> Certificate {
    Certificate {
        network_id: NetworkId(network),
        height,
        prev_local_exit_root: prev,
        new_local_exit_root: new,
        withdrawals,
    }
}

fn notifier_with(certificates: Vec<Certificate>) -> AggregatorNotifier {
    let mut pending = PendingStore::new();
    for c in certificates {
        pending
            .insert_pending_certificate(c)
            .expect("fresh (network, height) keys");
    }
    AggregatorNotifier::try_new(&ProverConfig::SP1Mock, pending, StateStore::new())
        .expect("every representable configuration is well formed")
}

fn fresh_state() -> LocalNetworkStateData {
    LocalNetworkStateData::new(0xba1a, 0x9011)
}

#[test]
fn try_new_selects_prover_kind() {
    let a = AggregatorNotifier::try_new(&ProverConfig::SP1Network, PendingStore::new(), StateStore::new()).unwrap();
    assert_eq!(a.prover, ProverKind::Network);
    let b = AggregatorNotifier::try_new(&ProverConfig::SP1Local, PendingStore::new(), StateStore::new()).unwrap();
    assert_eq!(b.prover, ProverKind::Local);
    let c = AggregatorNotifier::try_new(&ProverConfig::SP1Mock, PendingStore::new(), StateStore::new()).unwrap();
    assert_eq!(c.prover, ProverKind::Mock);
}

#[test]
fn certificate_hash_matches_formula() {
    let certificate = make_certificate(3, 7, 11, 13, vec![17, 19]);
    let seed = mix(mix(mix(mix(CERTIFICATE_ID_SEED, 3), 7), 11), 13);
    let expected = mix(mix(seed, 17), 19);
    assert_eq!(certificate.hash().0, expected);
}

#[test]
fn exit_root_matches_formula() {
    let mut tree = ExitTree::new();
    assert_eq!(tree.get_root(), EMPTY_TREE_ROOT);
    tree.append(21);
    assert_eq!(tree.get_root(), mix(EMPTY_TREE_ROOT, 21));
    tree.append(22);
    assert_eq!(tree.get_root(), mix(mix(EMPTY_TREE_ROOT, 21), 22));
}

#[test]
fn certify_prepares_proving_request() {
    let certificate = make_certificate(1, 0, EMPTY_TREE_ROOT, EMPTY_TREE_ROOT, vec![]);
    let notifier = notifier_with(vec![certificate]);
    let state = fresh_state();
    let request = notifier.certify(&state, NetworkId(1), 0).unwrap();
    assert_eq!(request.network_id, NetworkId(1));
    assert_eq!(request.height, 0);
    assert_eq!(request.batch_header.origin_network, NetworkId(1));
    assert_eq!(request.batch_header.prev_local_exit_root, EMPTY_TREE_ROOT);
    assert_eq!(request.batch_header.target.exit_root, EMPTY_TREE_ROOT);
    assert_eq!(request.batch_header.target.balance_root, state.balance_root);
    assert_eq!(request.batch_header.target.nullifier_root, state.nullifier_root);
    assert_eq!(request.new_state.exit_tree.get_root(), EMPTY_TREE_ROOT);
}

#[test]
fn certify_simulates_withdrawals() {
    let new_root = mix(mix(EMPTY_TREE_ROOT, 41), 42);
    let certificate = make_certificate(2, 5, EMPTY_TREE_ROOT, new_root, vec![41, 42]);
    let notifier = notifier_with(vec![certificate]);
    let request = notifier.certify(&fresh_state(), NetworkId(2), 5).unwrap();
    assert_eq!(request.new_state.exit_tree.get_root(), new_root);
    assert_eq!(request.initial_state.exit_tree.get_root(), EMPTY_TREE_ROOT);
}

#[test]
fn certificate_reaches_settled() {
    let certificate = make_certificate(1, 0, EMPTY_TREE_ROOT, EMPTY_TREE_ROOT, vec![]);
    let id = certificate.hash();
    let mut notifier = notifier_with(vec![certificate]);
    assert_eq!(
        notifier.pending_store.get_status(NetworkId(1), 0),
        Some(CertificateStatus::Pending)
    );

    let request = notifier.certify(&fresh_state(), NetworkId(1), 0).unwrap();
    let proof = Proof { certificate_id: id, payload: 77 };
    let output = notifier
        .finalize_certification(request, ProvingEvent::Verified { proof })
        .unwrap();
    assert_eq!(notifier.pending_store.get_proof(id), Some(proof));
    assert_eq!(notifier.pending_store.proof_count(), 1);
    assert_eq!(
        notifier.pending_store.get_status(NetworkId(1), 0),
        Some(CertificateStatus::Proven)
    );
    assert_eq!(output.network, NetworkId(1));
    assert_eq!(output.height, 0);

    let plan = notifier.pack(9, vec![output]).unwrap();
    assert_eq!(plan.epoch, 9);
    assert_eq!(plan.items.len(), 1);
    assert_eq!(
        notifier.pending_store.get_status(NetworkId(1), 0),
        Some(CertificateStatus::Candidate)
    );

    let events = vec![ReceiptEvent::Received(SettlementReceipt { tx_hash: 505 })];
    let report = notifier.settle_epoch(9, &plan.items, &events);
    assert_eq!(report.settled, vec![0]);
    assert!(report.failed.is_empty());
    assert_eq!(
        notifier.pending_store.get_status(NetworkId(1), 0),
        Some(CertificateStatus::Settled)
    );
    assert_eq!(notifier.pending_store.proof_count(), 1);
    assert_eq!(notifier.epoch_store.record_count(), 1);
    let record = notifier.epoch_store.record_at(0);
    assert_eq!(record.epoch, 9);
    assert_eq!(record.certificate_index, 0);
    assert_eq!(record.tx_hash, 505);
}

#[test]
fn resubmission_reports_existing_proof() {
    let certificate = make_certificate(1, 0, EMPTY_TREE_ROOT, EMPTY_TREE_ROOT, vec![]);
    let id = certificate.hash();
    let mut notifier = notifier_with(vec![certificate]);
    let state = fresh_state();
    let request = notifier.certify(&state, NetworkId(1), 0).unwrap();
    notifier
        .finalize_certification(
            request,
            ProvingEvent::Verified { proof: Proof { certificate_id: id, payload: 1 } },
        )
        .unwrap();

    let second = notifier.certify(&state, NetworkId(1), 0);
    assert_eq!(
        second.err(),
        Some(OrchestratorError::ProofAlreadyExists(NetworkId(1), 0))
    );
    assert_eq!(notifier.pending_store.proof_count(), 1);
}

#[test]
fn wrong_target_exit_root_rejected() {
    let certificate = make_certificate(1, 0, EMPTY_TREE_ROOT, EMPTY_TREE_ROOT ^ 1, vec![]);
    let id = certificate.hash();
    let mut notifier = notifier_with(vec![certificate]);
    let result = notifier.certify(&fresh_state(), NetworkId(1), 0);
    let error = result.err().unwrap();
    assert_eq!(
        error,
        OrchestratorError::NativeExecutionFailed(ProofError::InvalidFinalLocalExitRoot)
    );
    notifier.record_certification_error(NetworkId(1), 0, error);
    assert_eq!(
        notifier.pending_store.get_status(NetworkId(1), 0),
        Some(CertificateStatus::InError { error })
    );
    assert_eq!(notifier.pending_store.get_proof(id), None);
    assert_eq!(notifier.pending_store.proof_count(), 0);
}

#[test]
fn wrong_previous_exit_root_rejected() {
    let certificate = make_certificate(1, 0, EMPTY_TREE_ROOT ^ 2, EMPTY_TREE_ROOT, vec![]);
    let notifier = notifier_with(vec![certificate]);
    let result = notifier.certify(&fresh_state(), NetworkId(1), 0);
    assert_eq!(
        result.err(),
        Some(OrchestratorError::NativeExecutionFailed(
            ProofError::InvalidPreviousLocalExitRoot
        ))
    );
}

#[test]
fn missing_certificate_reported() {
    let notifier = notifier_with(vec![]);
    let result = notifier.certify(&fresh_state(), NetworkId(4), 8);
    assert_eq!(
        result.err(),
        Some(OrchestratorError::CertificateNotFound(NetworkId(4), 8))
    );
}

#[test]
fn prover_failure_persists_nothing() {
    let certificate = make_certificate(1, 0, EMPTY_TREE_ROOT, EMPTY_TREE_ROOT, vec![]);
    let mut notifier = notifier_with(vec![certificate]);
    let request = notifier.certify(&fresh_state(), NetworkId(1), 0).unwrap();
    let result = notifier.finalize_certification(request, ProvingEvent::ProverFailed { cause: 9 });
    assert_eq!(
        result.err(),
        Some(OrchestratorError::ProverExecutionFailed(9))
    );
    assert_eq!(notifier.pending_store.proof_count(), 0);
    assert_eq!(
        notifier.pending_store.get_status(NetworkId(1), 0),
        Some(CertificateStatus::InError { error: OrchestratorError::ProverExecutionFailed(9) })
    );
}

#[test]
fn rejected_proof_persists_nothing() {
    let certificate = make_certificate(1, 0, EMPTY_TREE_ROOT, EMPTY_TREE_ROOT, vec![]);
    let id = certificate.hash();
    let mut notifier = notifier_with(vec![certificate]);
    let request = notifier.certify(&fresh_state(), NetworkId(1), 0).unwrap();
    let result = notifier.finalize_certification(request, ProvingEvent::Rejected);
    assert_eq!(result.err(), Some(OrchestratorError::ProofVerificationFailed));
    assert_eq!(notifier.pending_store.get_proof(id), None);
    assert_eq!(notifier.pending_store.proof_count(), 0);
    assert_eq!(
        notifier.pending_store.get_status(NetworkId(1), 0),
        Some(CertificateStatus::InError { error: OrchestratorError::ProofVerificationFailed })
    );
}

#[test]
fn duplicate_proof_insertion_refused() {
    let mut pending = PendingStore::new();
    let certificate = make_certificate(1, 0, EMPTY_TREE_ROOT, EMPTY_TREE_ROOT, vec![]);
    let id = certificate.hash();
    let first = Proof { certificate_id: id, payload: 1 };
    let second = Proof { certificate_id: id, payload: 2 };
    assert_eq!(pending.insert_generated_proof(id, first), Ok(()));
    assert_eq!(
        pending.insert_generated_proof(id, second),
        Err(StoreError::DuplicateKey)
    );
    assert_eq!(pending.proof_count(), 1);
    assert_eq!(pending.get_proof(id), Some(first));
}

#[test]
fn duplicate_certificate_insertion_refused() {
    let mut pending = PendingStore::new();
    let certificate = make_certificate(1, 0, EMPTY_TREE_ROOT, EMPTY_TREE_ROOT, vec![]);
    assert_eq!(pending.insert_pending_certificate(certificate.duplicate()), Ok(()));
    assert_eq!(
        pending.insert_pending_certificate(certificate),
        Err(StoreError::DuplicateKey)
    );
}

#[test]
fn retry_on_error() {
    let certificate = make_certificate(1, 0, EMPTY_TREE_ROOT, EMPTY_TREE_ROOT, vec![]);
    let id = certificate.hash();
    let mut notifier = notifier_with(vec![certificate]);

    let request = notifier.certify(&fresh_state(), NetworkId(1), 0).unwrap();
    let output = notifier
        .finalize_certification(
            request,
            ProvingEvent::Verified { proof: Proof { certificate_id: id, payload: 3 } },
        )
        .unwrap();

    // The receipt await is forced to end without a receipt: the certificate
    // goes InError and the epoch reports the failure.
    let plan = notifier.pack(1, vec![output]).unwrap();
    let report = notifier.settle_epoch(1, &plan.items, &vec![ReceiptEvent::Ended]);
    assert_eq!(report.failed, vec![0]);
    let status = notifier.pending_store.get_status(NetworkId(1), 0).unwrap();
    assert!(matches!(status, CertificateStatus::InError { .. }));

    // The fault is removed and the same certificate is re-driven: the proof
    // is already durable, so retry re-enters at settlement and settles.
    assert_eq!(
        notifier.retry_decision(NetworkId(1), 0),
        Ok(RetryAction::Resettle)
    );
    assert_eq!(
        notifier.certify(&fresh_state(), NetworkId(1), 0).err(),
        Some(OrchestratorError::ProofAlreadyExists(NetworkId(1), 0))
    );
    let plan = notifier.pack(2, plan.items).unwrap();
    let events = vec![ReceiptEvent::Received(SettlementReceipt { tx_hash: 606 })];
    let report = notifier.settle_epoch(2, &plan.items, &events);
    assert_eq!(report.settled, vec![0]);
    let status = notifier.pending_store.get_status(NetworkId(1), 0).unwrap();
    assert!(matches!(status, CertificateStatus::Settled));
    assert_eq!(notifier.pending_store.proof_count(), 1);
}

#[test]
fn settle_epoch_accounts_for_every_item() {
    let mut notifier = notifier_with(vec![]);
    let items: Vec<CertifierOutput> = (0..3u64)
        .map(|h| CertifierOutput {
            certificate: make_certificate(7, h, EMPTY_TREE_ROOT, EMPTY_TREE_ROOT, vec![]),
            height: h,
            new_state: fresh_state(),
            network: NetworkId(7),
        })
        .collect();
    let events = vec![
        ReceiptEvent::Received(SettlementReceipt { tx_hash: 100 }),
        ReceiptEvent::Ended,
        ReceiptEvent::Received(SettlementReceipt { tx_hash: 102 }),
    ];
    let report = notifier.settle_epoch(4, &items, &events);
    assert_eq!(report.settled, vec![0, 2]);
    assert_eq!(report.failed, vec![1]);
    assert_eq!(
        notifier.pending_store.get_status(NetworkId(7), 0),
        Some(CertificateStatus::Settled)
    );
    assert_eq!(
        notifier.pending_store.get_status(NetworkId(7), 1),
        Some(CertificateStatus::InError {
            error: OrchestratorError::MissingReceipt(NetworkId(7), 1)
        })
    );
    assert_eq!(
        notifier.pending_store.get_status(NetworkId(7), 2),
        Some(CertificateStatus::Settled)
    );
    assert_eq!(notifier.epoch_store.record_count(), 2);
    assert_eq!(notifier.epoch_store.record_at(0).certificate_index, 0);
    assert_eq!(notifier.epoch_store.record_at(0).tx_hash, 100);
    assert_eq!(notifier.epoch_store.record_at(1).certificate_index, 2);
    assert_eq!(notifier.epoch_store.record_at(1).tx_hash, 102);
}

#[test]
fn retry_decision_without_proof_reproves() {
    let certificate = make_certificate(1, 0, EMPTY_TREE_ROOT, EMPTY_TREE_ROOT, vec![]);
    let notifier = notifier_with(vec![certificate]);
    assert_eq!(
        notifier.retry_decision(NetworkId(1), 0),
        Ok(RetryAction::Reprove)
    );
    assert_eq!(
        notifier.retry_decision(NetworkId(1), 1),
        Err(OrchestratorError::CertificateNotFound(NetworkId(1), 1))
    );
}

#[test]
fn state_store_round_trip() {
    let mut store = StateStore::new();
    assert!(store.read_local_network_state(NetworkId(5)).is_none());
    let mut state = LocalNetworkStateData::new(8, 9);
    state.exit_tree.append(33);
    let root = state.exit_tree.get_root();
    store.write_local_network_state(NetworkId(5), state);
    let read = store.read_local_network_state(NetworkId(5)).unwrap();
    assert_eq!(read.balance_root, 8);
    assert_eq!(read.nullifier_root, 9);
    assert_eq!(read.exit_tree.get_root(), root);

    let replacement = LocalNetworkStateData::new(10, 11);
    store.write_local_network_state(NetworkId(5), replacement);
    let read = store.read_local_network_state(NetworkId(5)).unwrap();
    assert_eq!(read.balance_root, 10);
    assert_eq!(read.exit_tree.get_root(), EMPTY_TREE_ROOT);
}
