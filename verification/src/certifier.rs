//! The certifier: drives one certificate through
//! simulate -> compare -> prove -> verify -> persist. The synchronous half
//! (`certify`) prepares a proving request; the proof backend works on it
//! asynchronously, and the completion half (`finalize_certification`) decides
//! on whatever the backend came back with.

use vstd::prelude::*;

use crate::batch_header::{BatchHeader, BatchHeaderView, StateCommitment};
use crate::local_state::{exit_root_of, LocalNetworkStateData, LocalNetworkStateView};
use crate::notifier::AggregatorNotifier;
use crate::status::{CertificateStatus, OrchestratorError, ProofError};
use crate::stores::{certificate_of, has_certificate, has_proof, set_status_view, PendingStoreView};
use crate::types::{id_of, Address, Certificate, CertificateView, Height, NetworkId, Proof};

verus! {

/// The result of a successful certification: the certificate, its height,
/// the new accumulator state and the originating network. Ownership
/// transfers to whatever drives the next stage; that holder is the only
/// writer of the state store thereafter.
pub struct CertifierOutput {
    pub certificate: Certificate,
    pub height: Height,
    pub new_state: LocalNetworkStateData,
    pub network: NetworkId,
}

/// Mathematical value of a certifier output.
#[verifier::ext_equal]
pub struct CertifierOutputView {
    pub certificate: CertificateView,
    pub height: Height,
    pub new_state: LocalNetworkStateView,
    pub network: NetworkId,
}

impl View for CertifierOutput {
    type V = CertifierOutputView;

    open spec fn view(&self) -> CertifierOutputView {
        CertifierOutputView {
            certificate: self.certificate@,
            height: self.height,
            new_state: self.new_state@,
            network: self.network,
        }
    }
}

/// A pending proving operation: everything `certify` prepared before the
/// proof backend was handed the work. Holding one is the only way to reach
/// `finalize_certification`, so an attempt that failed before this point can
/// never persist anything.
pub struct ProvingRequest {
    pub certificate: Certificate,
    pub batch_header: BatchHeader,
    pub initial_state: LocalNetworkStateData,
    pub new_state: LocalNetworkStateData,
    pub network_id: NetworkId,
    pub height: Height,
}

/// Mathematical value of a proving request.
#[verifier::ext_equal]
pub struct ProvingRequestView {
    pub certificate: CertificateView,
    pub batch_header: BatchHeaderView,
    pub initial_state: LocalNetworkStateView,
    pub new_state: LocalNetworkStateView,
    pub network_id: NetworkId,
    pub height: Height,
}

impl View for ProvingRequest {
    type V = ProvingRequestView;

    open spec fn view(&self) -> ProvingRequestView {
        ProvingRequestView {
            certificate: self.certificate@,
            batch_header: self.batch_header@,
            initial_state: self.initial_state@,
            new_state: self.new_state@,
            network_id: self.network_id,
            height: self.height,
        }
    }
}

/// What the proof backend's asynchronous work came back with: the backend
/// failed to produce a proof, produced one that did not verify, or produced
/// one that verified.
#[derive(Clone, Copy, PartialEq, Eq, Structural, Debug)]
pub enum ProvingEvent {
    /// The backend failed while producing the proof; the cause is its error
    /// code.
    ProverFailed { cause: u64 },
    /// The backend produced a proof that failed verification.
    Rejected,
    /// The backend produced a proof that verified.
    Verified { proof: Proof },
}

/// The proving request `certify` assembles for a certificate: the batch
/// header carries the certificate's claim as target exit root and the
/// accumulator's own balance and nullifier roots, which are locally
/// authoritative; the new state is the simulated one.
pub open spec fn proving_request_of(
    c: CertificateView,
    state: LocalNetworkStateView,
    network_id: NetworkId,
    height: Height,
) -> ProvingRequestView {
    ProvingRequestView {
        certificate: c,
        batch_header: BatchHeaderView {
            origin_network: c.network_id,
            signer: Address(0),
            prev_local_exit_root: c.prev_local_exit_root,
            withdrawals: c.withdrawals,
            target: StateCommitment {
                exit_root: c.new_local_exit_root,
                balance_root: state.balance_root,
                nullifier_root: state.nullifier_root,
            },
        },
        initial_state: state,
        new_state: LocalNetworkStateView {
            exit_leaves: state.exit_leaves + c.withdrawals,
            balance_root: state.balance_root,
            nullifier_root: state.nullifier_root,
        },
        network_id,
        height,
    }
}

/// What `certify` returns, for every store and accumulator state: the
/// missing certificate, the idempotency guard, the witness check, the
/// soundness check against the locally simulated root, and the assembled
/// proving request, in that order.
pub open spec fn certify_spec(
    store: PendingStoreView,
    state: LocalNetworkStateView,
    network_id: NetworkId,
    height: Height,
) -> Result<ProvingRequestView, OrchestratorError> {
    if !has_certificate(store.certificates, network_id, height) {
        Err(OrchestratorError::CertificateNotFound(network_id, height))
    } else {
        let c = certificate_of(store.certificates, network_id, height);
        if has_proof(store.proofs, id_of(c@)) {
            Err(OrchestratorError::ProofAlreadyExists(network_id, height))
        } else if c.prev_local_exit_root != exit_root_of(state.exit_leaves) {
            Err(
                OrchestratorError::NativeExecutionFailed(
                    ProofError::InvalidPreviousLocalExitRoot,
                ),
            )
        } else if c.new_local_exit_root != exit_root_of(state.exit_leaves + c.withdrawals@) {
            Err(OrchestratorError::NativeExecutionFailed(ProofError::InvalidFinalLocalExitRoot))
        } else {
            Ok(proving_request_of(c@, state, network_id, height))
        }
    }
}

/// The mathematical value of `certify`'s result.
pub open spec fn certify_result_view(r: Result<ProvingRequest, OrchestratorError>) -> Result<
    ProvingRequestView,
    OrchestratorError,
> {
    match r {
        Ok(req) => Ok(req@),
        Err(e) => Err(e),
    }
}

/// The certifier output `finalize_certification` produces from a verified
/// request.
pub open spec fn certifier_output_of(req: ProvingRequestView) -> CertifierOutputView {
    CertifierOutputView {
        certificate: req.certificate,
        height: req.height,
        new_state: req.new_state,
        network: req.batch_header.origin_network,
    }
}

impl AggregatorNotifier {
    /// The synchronous half of certification: looks the certificate up,
    /// refuses one that is already proven, derives the batch header, applies
    /// the transition to a copy of the accumulator as a pure local
    /// simulation, compares the certificate's declared target exit root with
    /// the simulated root, populates the header's balance and nullifier
    /// roots from the accumulator's own, and assembles the proving request.
    /// Mutates nothing: a failure before the backend is invoked can persist
    /// nothing.
    pub fn certify(
        &self,
        full_state: &LocalNetworkStateData,
        network_id: NetworkId,
        height: Height,
    ) -> (r: Result<ProvingRequest, OrchestratorError>)
        requires
            self.wf(),
        ensures
            certify_result_view(r) == certify_spec(
                self.pending_store@,
                full_state@,
                network_id,
                height,
            ),
    {
        let certificate = match self.pending_store.get_certificate(network_id, height) {
            Some(c) => c,
            None => {
                return Err(OrchestratorError::CertificateNotFound(network_id, height));
            },
        };
        let certificate_id = certificate.hash();
        if self.pending_store.get_proof(certificate_id).is_some() {
            return Err(OrchestratorError::ProofAlreadyExists(network_id, height));
        }
        // The trust-anchor signer address; how it is determined is external
        // configuration, and the orchestrator only carries it through.
        let signer = Address::new(0);
        let mut batch_header = certificate.into_pessimistic_proof_input(signer);
        let initial_state = full_state.duplicate();
        let mut state = initial_state.duplicate();
        match state.apply_batch_header(&batch_header) {
            Err(e) => {
                return Err(OrchestratorError::NativeExecutionFailed(e));
            },
            Ok(()) => {},
        }
        let simulated_root = state.exit_tree.get_root();
        if batch_header.target.exit_root != simulated_root {
            // State transition mismatch between the local simulation and the
            // received certificate.
            return Err(
                OrchestratorError::NativeExecutionFailed(ProofError::InvalidFinalLocalExitRoot),
            );
        }
        batch_header.target.balance_root = initial_state.balance_root;
        batch_header.target.nullifier_root = initial_state.nullifier_root;
        let r = ProvingRequest {
            certificate,
            batch_header,
            initial_state,
            new_state: state,
            network_id,
            height,
        };
        proof {
            let c = certificate_of(self.pending_store@.certificates, network_id, height);
            assert(r@ =~= proving_request_of(c@, full_state@, network_id, height));
        }
        Ok(r)
    }

    /// Surfaces a failed certification attempt to the certificate's status:
    /// every pipeline-stage error is recorded, not silently dropped. The
    /// caller does not record `ProofAlreadyExists`, which means "already
    /// done", not a failure of this attempt.
    pub fn record_certification_error(
        &mut self,
        network_id: NetworkId,
        height: Height,
        error: OrchestratorError,
    )
        requires
            old(self).wf(),
        ensures
            final(self).wf(),
            final(self).prover == old(self).prover,
            final(self).state_store == old(self).state_store,
            final(self).epoch_store == old(self).epoch_store,
            final(self).pending_store@.certificates == old(self).pending_store@.certificates,
            final(self).pending_store@.proofs == old(self).pending_store@.proofs,
            final(self).pending_store@.statuses == set_status_view(
                old(self).pending_store@.statuses,
                network_id,
                height,
                CertificateStatus::InError { error },
            ),
    {
        self.pending_store.set_status(network_id, height, CertificateStatus::InError { error });
    }

    /// The completion half of certification, invoked with whatever the proof
    /// backend came back with. A backend failure or a proof that did not
    /// verify persists nothing: no proof is inserted, the accumulator is not
    /// advanced, and the certificate is recorded `InError` with the cause. On
    /// a verified proof the insertion is write-once — a concurrent attempt
    /// that stored a proof first makes this one report `ProofAlreadyExists`
    /// and change nothing — and the certificate becomes `Proven`.
    pub fn finalize_certification(&mut self, request: ProvingRequest, event: ProvingEvent) -> (r:
        Result<CertifierOutput, OrchestratorError>)
        requires
            old(self).wf(),
        ensures
            final(self).wf(),
            final(self).prover == old(self).prover,
            final(self).state_store == old(self).state_store,
            final(self).epoch_store == old(self).epoch_store,
            final(self).pending_store@.certificates == old(self).pending_store@.certificates,
            match event {
                ProvingEvent::ProverFailed { cause } => {
                    &&& r == Err::<CertifierOutput, OrchestratorError>(
                        OrchestratorError::ProverExecutionFailed(cause),
                    )
                    &&& final(self).pending_store@.proofs == old(self).pending_store@.proofs
                    &&& final(self).pending_store@.statuses == set_status_view(
                        old(self).pending_store@.statuses,
                        request.network_id,
                        request.height,
                        CertificateStatus::InError {
                            error: OrchestratorError::ProverExecutionFailed(cause),
                        },
                    )
                },
                ProvingEvent::Rejected => {
                    &&& r == Err::<CertifierOutput, OrchestratorError>(
                        OrchestratorError::ProofVerificationFailed,
                    )
                    &&& final(self).pending_store@.proofs == old(self).pending_store@.proofs
                    &&& final(self).pending_store@.statuses == set_status_view(
                        old(self).pending_store@.statuses,
                        request.network_id,
                        request.height,
                        CertificateStatus::InError {
                            error: OrchestratorError::ProofVerificationFailed,
                        },
                    )
                },
                ProvingEvent::Verified { proof } => {
                    if has_proof(old(self).pending_store@.proofs, id_of(request.certificate@)) {
                        &&& r == Err::<CertifierOutput, OrchestratorError>(
                            OrchestratorError::ProofAlreadyExists(
                                request.network_id,
                                request.height,
                            ),
                        )
                        &&& final(self).pending_store@ == old(self).pending_store@
                    } else {
                        &&& r matches Ok(out) && out@ == certifier_output_of(request@)
                        &&& final(self).pending_store@.proofs == old(
                            self,
                        ).pending_store@.proofs.push((id_of(request.certificate@), proof))
                        &&& final(self).pending_store@.statuses == set_status_view(
                            old(self).pending_store@.statuses,
                            request.network_id,
                            request.height,
                            CertificateStatus::Proven,
                        )
                    }
                },
            },
    {
        let ghost request_view = request@;
        match event {
            ProvingEvent::ProverFailed { cause } => {
                let error = OrchestratorError::ProverExecutionFailed(cause);
                self.pending_store.set_status(
                    request.network_id,
                    request.height,
                    CertificateStatus::InError { error },
                );
                Err(error)
            },
            ProvingEvent::Rejected => {
                let error = OrchestratorError::ProofVerificationFailed;
                self.pending_store.set_status(
                    request.network_id,
                    request.height,
                    CertificateStatus::InError { error },
                );
                Err(error)
            },
            ProvingEvent::Verified { proof } => {
                let certificate_id = request.certificate.hash();
                match self.pending_store.insert_generated_proof(certificate_id, proof) {
                    Err(_) => Err(
                        OrchestratorError::ProofAlreadyExists(request.network_id, request.height),
                    ),
                    Ok(()) => {
                        self.pending_store.set_status(
                            request.network_id,
                            request.height,
                            CertificateStatus::Proven,
                        );
                        let out = CertifierOutput {
                            network: request.batch_header.origin_network,
                            certificate: request.certificate,
                            height: request.height,
                            new_state: request.new_state,
                        };
                        proof {
                            assert(out@ =~= certifier_output_of(request_view));
                        }
                        Ok(out)
                    },
                }
            },
        }
    }
}

/// Idempotent proof guard: for every certificate with a stored proof,
/// certification of its (network, height) fails with `ProofAlreadyExists` —
/// it returns no proving request, and only a proving request reaches the
/// proof backend, so the backend is never invoked for it.
pub proof fn lemma_idempotent_proof_guard(
    store: PendingStoreView,
    state: LocalNetworkStateView,
    network_id: NetworkId,
    height: Height,
)
    requires
        has_certificate(store.certificates, network_id, height),
        has_proof(store.proofs, id_of(certificate_of(store.certificates, network_id, height)@)),
    ensures
        certify_spec(store, state, network_id, height) == Err::<
            ProvingRequestView,
            OrchestratorError,
        >(OrchestratorError::ProofAlreadyExists(network_id, height)),
{
}

/// Soundness check: a certificate whose declared target exit root does not
/// equal the root produced by locally simulating its own transition is
/// rejected with `NativeExecutionFailed(InvalidFinalLocalExitRoot)` — it
/// returns no proving request, so no proving resources are committed and no
/// proof can be stored by this attempt.
pub proof fn lemma_soundness_check(
    store: PendingStoreView,
    state: LocalNetworkStateView,
    network_id: NetworkId,
    height: Height,
)
    requires
        has_certificate(store.certificates, network_id, height),
        !has_proof(store.proofs, id_of(certificate_of(store.certificates, network_id, height)@)),
        certificate_of(store.certificates, network_id, height).prev_local_exit_root
            == exit_root_of(state.exit_leaves),
        certificate_of(store.certificates, network_id, height).new_local_exit_root
            != exit_root_of(
            state.exit_leaves + certificate_of(
                store.certificates,
                network_id,
                height,
            ).withdrawals@,
        ),
    ensures
        certify_spec(store, state, network_id, height) == Err::<
            ProvingRequestView,
            OrchestratorError,
        >(OrchestratorError::NativeExecutionFailed(ProofError::InvalidFinalLocalExitRoot)),
{
}

} // verus!
