//! The aggregator notifier: the orchestrator component that certifies
//! certificates and packs epochs over shared stores, with a prover backend
//! selected once at construction.

use vstd::prelude::*;

use crate::packer::{EpochStore, SettlementRecord};
use crate::stores::{PendingStore, StateStore};

verus! {

/// Which proof backend the orchestrator is configured to use. The three
/// variants are functionally interchangeable; selection is a pure
/// configuration choice made at construction time.
#[derive(Clone, Copy, PartialEq, Eq, Structural, Debug)]
pub enum ProverConfig {
    /// A network-hosted proving service.
    SP1Network,
    /// An in-process prover.
    SP1Local,
    /// A deterministic mock prover for testing.
    SP1Mock,
}

/// The proof backend selected at construction.
#[derive(Clone, Copy, PartialEq, Eq, Structural, Debug)]
pub enum ProverKind {
    Network,
    Local,
    Mock,
}

/// Construction-time failure: the backend configuration is malformed. Raised
/// at startup, never mid-pipeline.
#[derive(Clone, Copy, PartialEq, Eq, Structural, Debug)]
pub enum NotifierError {
    InvalidConfiguration,
}

/// The backend each configuration selects.
pub open spec fn prover_kind_of(config: ProverConfig) -> ProverKind {
    match config {
        ProverConfig::SP1Network => ProverKind::Network,
        ProverConfig::SP1Local => ProverKind::Local,
        ProverConfig::SP1Mock => ProverKind::Mock,
    }
}

/// The notifier that drives certificates through proving and epochs through
/// settlement. It holds the pending certificate store, the state store and
/// the per-epoch settlement index; the proof backend and the settlement sink
/// are external collaborators whose outcomes are handed in as events.
pub struct AggregatorNotifier {
    /// The prover backend selected at construction.
    pub prover: ProverKind,
    /// Certificates, proofs and lifecycle statuses.
    pub pending_store: PendingStore,
    /// Per-network accumulator snapshots; written by the caller from the
    /// certifier's output, never by the certifier itself.
    pub state_store: StateStore,
    /// The per-epoch settlement transaction index.
    pub epoch_store: EpochStore,
}

impl AggregatorNotifier {
    /// Both stores keep their keys unique.
    pub open spec fn wf(&self) -> bool {
        &&& self.pending_store.wf()
        &&& self.state_store.wf()
    }

    /// Tries to create a new notifier from the prover configuration and the
    /// shared stores. Construction fails only on a malformed configuration,
    /// and every representable configuration selects a backend, so this
    /// succeeds on all inputs.
    pub fn try_new(
        config: &ProverConfig,
        pending_store: PendingStore,
        state_store: StateStore,
    ) -> (r: Result<AggregatorNotifier, NotifierError>)
        requires
            pending_store.wf(),
            state_store.wf(),
        ensures
            r matches Ok(n) && n.wf() && n.prover == prover_kind_of(*config) && n.pending_store
                == pending_store && n.state_store == state_store && n.epoch_store@ == Seq::<
                SettlementRecord,
            >::empty(),
    {
        Ok(
            AggregatorNotifier {
                prover: match config {
                    ProverConfig::SP1Network => ProverKind::Network,
                    ProverConfig::SP1Local => ProverKind::Local,
                    ProverConfig::SP1Mock => ProverKind::Mock,
                },
                pending_store,
                state_store,
                epoch_store: EpochStore::new(),
            },
        )
    }
}

} // verus!
