//! Errors of the pipeline and the certificate lifecycle state machine.

use vstd::prelude::*;

use crate::types::{Height, NetworkId};

verus! {

/// Why the local simulation rejected a transition.
#[derive(Clone, Copy, PartialEq, Eq, Structural, Debug)]
pub enum ProofError {
    /// The certificate's declared previous exit root does not match the root
    /// of the state it claims to extend: the transition's witness is invalid.
    InvalidPreviousLocalExitRoot,
    /// The certificate's declared target exit root does not match the root
    /// the local simulation produced from its own declared inputs.
    InvalidFinalLocalExitRoot,
}

/// A pipeline-stage failure. Every error carries enough context to resume or
/// report; none is retried internally — retry is the responsibility of an
/// external driver.
#[derive(Clone, Copy, PartialEq, Eq, Structural, Debug)]
pub enum OrchestratorError {
    /// No certificate is stored for the (network, height) the caller named:
    /// a caller precondition violation, not retried.
    CertificateNotFound(NetworkId, Height),
    /// A proof already exists for the certificate: the idempotency guard.
    /// Callers treat this as "already done", not as a fatal error.
    ProofAlreadyExists(NetworkId, Height),
    /// The local simulation rejected the transition; no proof was requested.
    NativeExecutionFailed(ProofError),
    /// The proof backend failed while producing a proof; safe to retry, no
    /// proof exists yet. The cause is the backend's error code.
    ProverExecutionFailed(u64),
    /// The proof backend produced a proof that did not verify; the proof is
    /// discarded and nothing is persisted.
    ProofVerificationFailed,
    /// The settlement receipt await ended without a receipt for the
    /// certificate at this (network, height); the proof is already durable,
    /// so a retry re-submits settlement only.
    MissingReceipt(NetworkId, Height),
}

/// The lifecycle label of a certificate at one (network, height).
#[derive(Clone, Copy, PartialEq, Eq, Structural, Debug)]
pub enum CertificateStatus {
    /// Stored, not yet proven.
    Pending,
    /// Proof verified and stored, not yet packed into an epoch.
    Proven,
    /// Assigned to an epoch, awaiting settlement.
    Candidate,
    /// The last attempt failed at some stage; re-enterable by retry.
    InError { error: OrchestratorError },
    /// Settled on the shared ledger. Terminal: no transition leaves it.
    Settled,
}

/// The transition relation of the lifecycle state machine:
/// `Pending -> Proven -> Candidate -> Settled`; from any in-flight state a
/// failure moves to `InError`, and retry re-enters `Pending` (no proof yet)
/// or `Candidate` (proof already stored). Nothing leaves `Settled`.
pub open spec fn status_transition_allowed(from: CertificateStatus, to: CertificateStatus) -> bool {
    match to {
        CertificateStatus::Pending => from is InError,
        CertificateStatus::Proven => from is Pending,
        CertificateStatus::Candidate => from is Proven || from is InError,
        CertificateStatus::Settled => from is Candidate,
        CertificateStatus::InError { .. } => from is Pending || from is Proven || from is Candidate,
    }
}

/// The pipeline moves certificates only along the lifecycle state machine:
/// the happy path `Pending -> Proven -> Candidate -> Settled` step by step,
/// failure into `InError` from every in-flight stage, retry re-entry from
/// `InError` into `Pending` or `Candidate` — and nothing out of `Settled`.
pub proof fn lemma_pipeline_respects_lifecycle(error: OrchestratorError)
    ensures
        status_transition_allowed(CertificateStatus::Pending, CertificateStatus::Proven),
        status_transition_allowed(CertificateStatus::Proven, CertificateStatus::Candidate),
        status_transition_allowed(CertificateStatus::Candidate, CertificateStatus::Settled),
        status_transition_allowed(
            CertificateStatus::Pending,
            CertificateStatus::InError { error },
        ),
        status_transition_allowed(
            CertificateStatus::Proven,
            CertificateStatus::InError { error },
        ),
        status_transition_allowed(
            CertificateStatus::Candidate,
            CertificateStatus::InError { error },
        ),
        status_transition_allowed(
            CertificateStatus::InError { error },
            CertificateStatus::Pending,
        ),
        status_transition_allowed(
            CertificateStatus::InError { error },
            CertificateStatus::Candidate,
        ),
        forall|to: CertificateStatus|
            !#[trigger] status_transition_allowed(CertificateStatus::Settled, to),
{
}

} // verus!
