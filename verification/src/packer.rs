//! The epoch packer: groups certified items by epoch and drives settlement
//! of each. The current policy is one settlement submission per item, each
//! independently awaited for a receipt; the per-item step is a function of
//! its own, so a batched submission can replace it without changing `pack`'s
//! contract or the retry semantics.

use vstd::prelude::*;

use crate::certifier::CertifierOutput;
use crate::notifier::AggregatorNotifier;
use crate::status::{CertificateStatus, OrchestratorError};
use crate::stores::{
    certificate_of, distinct_status_keys, has_certificate, has_proof, lemma_set_status,
    set_status_view, PendingStoreView,
};
use crate::types::{id_of, CertificateIndex, Digest, EpochNumber, Height, NetworkId};

verus! {

/// The receipt of a settled transaction on the shared ledger.
#[derive(Clone, Copy, PartialEq, Eq, Structural, Debug)]
pub struct SettlementReceipt {
    pub tx_hash: Digest,
}

/// How one settlement's receipt await ended: with a receipt, or without one
/// (transport failure, node disconnect, timeout).
#[derive(Clone, Copy, PartialEq, Eq, Structural, Debug)]
pub enum ReceiptEvent {
    Received(SettlementReceipt),
    Ended,
}

/// One row of the per-epoch settlement index: which settlement transaction
/// settled the certificate at this index of the epoch.
#[derive(Clone, Copy, PartialEq, Eq, Structural, Debug)]
pub struct SettlementRecord {
    pub epoch: EpochNumber,
    pub certificate_index: CertificateIndex,
    pub tx_hash: Digest,
}

/// The per-epoch settlement transaction index, used to recover which
/// settlement transaction corresponds to which packed certificate after a
/// crash or restart. Append-only.
pub struct EpochStore {
    records: Vec<SettlementRecord>,
}

impl View for EpochStore {
    type V = Seq<SettlementRecord>;

    closed spec fn view(&self) -> Seq<SettlementRecord> {
        self.records@
    }
}

impl EpochStore {
    /// An empty index.
    pub fn new() -> (r: EpochStore)
        ensures
            r@ == Seq::<SettlementRecord>::empty(),
    {
        EpochStore { records: Vec::new() }
    }

    /// Appends one row.
    fn append(&mut self, record: SettlementRecord)
        ensures
            final(self)@ == old(self)@.push(record),
    {
        self.records.push(record);
    }

    /// How many rows the index holds.
    pub fn record_count(&self) -> (r: usize)
        ensures
            r == self@.len(),
    {
        self.records.len()
    }

    /// The row at the given position.
    pub fn record_at(&self, i: usize) -> (r: SettlementRecord)
        requires
            i < self@.len(),
        ensures
            r == self@[i as int],
    {
        self.records[i]
    }
}

/// The settlement work collected for one epoch: every item handed to `pack`,
/// in order, none dropped.
pub struct SettlementPlan {
    pub epoch: EpochNumber,
    pub items: Vec<CertifierOutput>,
}

/// The outcome of settling one epoch: which items settled and which failed,
/// by their index within the epoch. Together they account for every item.
pub struct EpochSettlementReport {
    pub settled: Vec<CertificateIndex>,
    pub failed: Vec<CertificateIndex>,
}

/// No two items of an epoch stand for the same (network, height).
pub open spec fn distinct_output_keys(items: Seq<CertifierOutput>) -> bool {
    forall|i: int, j: int|
        0 <= i < j < items.len() ==> !((#[trigger] items[i]).network == (
        #[trigger] items[j]).network && items[i].height == items[j].height)
}

/// The status a settlement event drives an item's certificate to: a receipt
/// settles it; an await that ended without one records the missing receipt.
pub open spec fn settlement_status_of(item: CertifierOutput, event: ReceiptEvent) -> CertificateStatus {
    match event {
        ReceiptEvent::Received(_) => CertificateStatus::Settled,
        ReceiptEvent::Ended => CertificateStatus::InError {
            error: OrchestratorError::MissingReceipt(item.network, item.height),
        },
    }
}

/// The rows an epoch's settlement appends to the index: one per received
/// receipt, keyed by the item's index within the epoch.
pub open spec fn settlement_records(epoch: EpochNumber, events: Seq<ReceiptEvent>) -> Seq<
    SettlementRecord,
> {
    settlement_records_rec(epoch, events)
}

pub open spec fn settlement_records_rec(epoch: EpochNumber, events: Seq<ReceiptEvent>) -> Seq<
    SettlementRecord,
>
    decreases events.len(),
{
    if events.len() == 0 {
        Seq::empty()
    } else {
        let rest = settlement_records_rec(epoch, events.drop_last());
        match events.last() {
            ReceiptEvent::Received(receipt) => rest.push(
                SettlementRecord {
                    epoch,
                    certificate_index: (events.len() - 1) as CertificateIndex,
                    tx_hash: receipt.tx_hash,
                },
            ),
            ReceiptEvent::Ended => rest,
        }
    }
}

/// The indices of the items whose receipt arrived.
pub open spec fn settled_indices(events: Seq<ReceiptEvent>) -> Seq<CertificateIndex>
    decreases events.len(),
{
    if events.len() == 0 {
        Seq::empty()
    } else {
        let rest = settled_indices(events.drop_last());
        if events.last() is Received {
            rest.push((events.len() - 1) as CertificateIndex)
        } else {
            rest
        }
    }
}

/// The indices of the items whose receipt await ended without a receipt.
pub open spec fn failed_indices(events: Seq<ReceiptEvent>) -> Seq<CertificateIndex>
    decreases events.len(),
{
    if events.len() == 0 {
        Seq::empty()
    } else {
        let rest = failed_indices(events.drop_last());
        if events.last() is Ended {
            rest.push((events.len() - 1) as CertificateIndex)
        } else {
            rest
        }
    }
}

/// How the external retry driver re-enters the pipeline for a certificate.
#[derive(Clone, Copy, PartialEq, Eq, Structural, Debug)]
pub enum RetryAction {
    /// No proof is stored yet: re-drive from certification.
    Reprove,
    /// A proof is durably stored: re-drive settlement only, never re-proving.
    Resettle,
}

/// The retry driver's decision, as a function of the store: re-prove only
/// when no proof exists for the stored certificate, re-settle otherwise.
pub open spec fn retry_action_spec(
    store: PendingStoreView,
    network_id: NetworkId,
    height: Height,
) -> Result<RetryAction, OrchestratorError> {
    if !has_certificate(store.certificates, network_id, height) {
        Err(OrchestratorError::CertificateNotFound(network_id, height))
    } else if has_proof(
        store.proofs,
        id_of(certificate_of(store.certificates, network_id, height)@),
    ) {
        Ok(RetryAction::Resettle)
    } else {
        Ok(RetryAction::Reprove)
    }
}

impl AggregatorNotifier {
    /// Collects the certified items of one epoch for settlement, records each
    /// as `Candidate`, and returns the settlement plan. No item is dropped:
    /// the plan holds every item handed in, in order.
    pub fn pack(&mut self, epoch: EpochNumber, to_pack: Vec<CertifierOutput>) -> (r: Result<
        SettlementPlan,
        OrchestratorError,
    >)
        requires
            old(self).wf(),
            distinct_output_keys(to_pack@),
        ensures
            final(self).wf(),
            final(self).prover == old(self).prover,
            final(self).state_store == old(self).state_store,
            final(self).epoch_store == old(self).epoch_store,
            final(self).pending_store@.certificates == old(self).pending_store@.certificates,
            final(self).pending_store@.proofs == old(self).pending_store@.proofs,
            r matches Ok(plan) && plan.epoch == epoch && plan.items@ == to_pack@,
            forall|j: int|
                0 <= j < to_pack@.len() ==> crate::stores::status_of(
                    final(self).pending_store@.statuses,
                    (#[trigger] to_pack@[j]).network,
                    to_pack@[j].height,
                ) == Some(CertificateStatus::Candidate),
            forall|n2: NetworkId, h2: Height|
                (forall|j: int|
                    0 <= j < to_pack@.len() ==> !((#[trigger] to_pack@[j]).network == n2
                        && to_pack@[j].height == h2)) ==> #[trigger] crate::stores::status_of(
                    final(self).pending_store@.statuses,
                    n2,
                    h2,
                ) == crate::stores::status_of(old(self).pending_store@.statuses, n2, h2),
    {
        let mut i: usize = 0;
        while i < to_pack.len()
            invariant
                i <= to_pack@.len(),
                distinct_output_keys(to_pack@),
                self.wf(),
                self.prover == old(self).prover,
                self.state_store == old(self).state_store,
                self.epoch_store == old(self).epoch_store,
                self.pending_store@.certificates == old(self).pending_store@.certificates,
                self.pending_store@.proofs == old(self).pending_store@.proofs,
                forall|j: int|
                    0 <= j < i ==> crate::stores::status_of(
                        self.pending_store@.statuses,
                        (#[trigger] to_pack@[j]).network,
                        to_pack@[j].height,
                    ) == Some(CertificateStatus::Candidate),
                forall|n2: NetworkId, h2: Height|
                    (forall|j: int|
                        0 <= j < i ==> !((#[trigger] to_pack@[j]).network == n2 && to_pack@[j].height
                            == h2)) ==> #[trigger] crate::stores::status_of(
                        self.pending_store@.statuses,
                        n2,
                        h2,
                    ) == crate::stores::status_of(old(self).pending_store@.statuses, n2, h2),
            decreases to_pack@.len() - i,
        {
            proof {
                lemma_set_status(
                    self.pending_store@.statuses,
                    to_pack@[i as int].network,
                    to_pack@[i as int].height,
                    CertificateStatus::Candidate,
                );
            }
            let item_network = to_pack[i].network;
            let item_height = to_pack[i].height;
            self.pending_store.set_status(item_network, item_height, CertificateStatus::Candidate);
            i = i + 1;
        }
        Ok(SettlementPlan { epoch, items: to_pack })
    }

    /// Settles one item of an epoch, given how its receipt await ended. A
    /// receipt settles the certificate and records the transaction in the
    /// per-epoch index; an await that ended without a receipt records the
    /// certificate `InError` with the missing receipt as cause, appends
    /// nothing, and reports the failure rather than blocking. The proof is
    /// already durable either way: nothing here touches proofs.
    pub fn settle_certificate(
        &mut self,
        epoch: EpochNumber,
        certificate_index: CertificateIndex,
        item: &CertifierOutput,
        event: ReceiptEvent,
    ) -> (r: Result<SettlementReceipt, OrchestratorError>)
        requires
            old(self).wf(),
        ensures
            final(self).wf(),
            final(self).prover == old(self).prover,
            final(self).state_store == old(self).state_store,
            final(self).pending_store@.certificates == old(self).pending_store@.certificates,
            final(self).pending_store@.proofs == old(self).pending_store@.proofs,
            final(self).pending_store@.statuses == set_status_view(
                old(self).pending_store@.statuses,
                item.network,
                item.height,
                settlement_status_of(*item, event),
            ),
            match event {
                ReceiptEvent::Received(receipt) => {
                    &&& r == Ok::<SettlementReceipt, OrchestratorError>(receipt)
                    &&& final(self).epoch_store@ == old(self).epoch_store@.push(
                        SettlementRecord { epoch, certificate_index, tx_hash: receipt.tx_hash },
                    )
                },
                ReceiptEvent::Ended => {
                    &&& r == Err::<SettlementReceipt, OrchestratorError>(
                        OrchestratorError::MissingReceipt(item.network, item.height),
                    )
                    &&& final(self).epoch_store@ == old(self).epoch_store@
                },
            },
    {
        match event {
            ReceiptEvent::Received(receipt) => {
                self.epoch_store.append(
                    SettlementRecord { epoch, certificate_index, tx_hash: receipt.tx_hash },
                );
                self.pending_store.set_status(
                    item.network,
                    item.height,
                    CertificateStatus::Settled,
                );
                Ok(receipt)
            },
            ReceiptEvent::Ended => {
                let error = OrchestratorError::MissingReceipt(item.network, item.height);
                self.pending_store.set_status(
                    item.network,
                    item.height,
                    CertificateStatus::InError { error },
                );
                Err(error)
            },
        }
    }

    /// Drives settlement of a whole epoch, one submission per item, given how
    /// each item's receipt await ended. Either every item settles or the
    /// report says which failed: the settled and failed indices together
    /// account for every item, and each item's certificate ends `Settled` or
    /// `InError` accordingly. No item is silently dropped.
    pub fn settle_epoch(
        &mut self,
        epoch: EpochNumber,
        items: &Vec<CertifierOutput>,
        events: &Vec<ReceiptEvent>,
    ) -> (r: EpochSettlementReport)
        requires
            old(self).wf(),
            events@.len() == items@.len(),
            distinct_output_keys(items@),
        ensures
            final(self).wf(),
            final(self).prover == old(self).prover,
            final(self).state_store == old(self).state_store,
            final(self).pending_store@.certificates == old(self).pending_store@.certificates,
            final(self).pending_store@.proofs == old(self).pending_store@.proofs,
            r.settled@ == settled_indices(events@),
            r.failed@ == failed_indices(events@),
            final(self).epoch_store@ == old(self).epoch_store@ + settlement_records(epoch, events@),
            forall|j: int|
                0 <= j < items@.len() ==> crate::stores::status_of(
                    final(self).pending_store@.statuses,
                    (#[trigger] items@[j]).network,
                    items@[j].height,
                ) == Some(settlement_status_of(items@[j], events@[j])),
            forall|n2: NetworkId, h2: Height|
                (forall|j: int|
                    0 <= j < items@.len() ==> !((#[trigger] items@[j]).network == n2
                        && items@[j].height == h2)) ==> #[trigger] crate::stores::status_of(
                    final(self).pending_store@.statuses,
                    n2,
                    h2,
                ) == crate::stores::status_of(old(self).pending_store@.statuses, n2, h2),
    {
        let mut settled: Vec<CertificateIndex> = Vec::new();
        let mut failed: Vec<CertificateIndex> = Vec::new();
        let mut i: usize = 0;
        while i < items.len()
            invariant
                i <= items@.len(),
                events@.len() == items@.len(),
                distinct_output_keys(items@),
                self.wf(),
                self.prover == old(self).prover,
                self.state_store == old(self).state_store,
                self.pending_store@.certificates == old(self).pending_store@.certificates,
                self.pending_store@.proofs == old(self).pending_store@.proofs,
                settled@ == settled_indices(events@.take(i as int)),
                failed@ == failed_indices(events@.take(i as int)),
                self.epoch_store@ == old(self).epoch_store@ + settlement_records(
                    epoch,
                    events@.take(i as int),
                ),
                forall|j: int|
                    0 <= j < i ==> crate::stores::status_of(
                        self.pending_store@.statuses,
                        (#[trigger] items@[j]).network,
                        items@[j].height,
                    ) == Some(settlement_status_of(items@[j], events@[j])),
                forall|n2: NetworkId, h2: Height|
                    (forall|j: int|
                        0 <= j < i ==> !((#[trigger] items@[j]).network == n2 && items@[j].height
                            == h2)) ==> #[trigger] crate::stores::status_of(
                        self.pending_store@.statuses,
                        n2,
                        h2,
                    ) == crate::stores::status_of(old(self).pending_store@.statuses, n2, h2),
            decreases items@.len() - i,
        {
            proof {
                lemma_set_status(
                    self.pending_store@.statuses,
                    items@[i as int].network,
                    items@[i as int].height,
                    settlement_status_of(items@[i as int], events@[i as int]),
                );
                assert(events@.take(i as int + 1).drop_last() =~= events@.take(i as int));
                assert(events@.take(i as int + 1).last() == events@[i as int]);
            }
            let event = events[i];
            match self.settle_certificate(epoch, i as CertificateIndex, &items[i], event) {
                Ok(_) => {
                    settled.push(i as CertificateIndex);
                },
                Err(_) => {
                    failed.push(i as CertificateIndex);
                },
            }
            proof {
                if event is Received {
                    assert(old(self).epoch_store@ + settlement_records(
                        epoch,
                        events@.take(i as int + 1),
                    ) =~= (old(self).epoch_store@ + settlement_records(
                        epoch,
                        events@.take(i as int),
                    )).push(self.epoch_store@.last()));
                }
            }
            i = i + 1;
        }
        proof {
            assert(events@.take(events@.len() as int) =~= events@);
        }
        EpochSettlementReport { settled, failed }
    }

    /// The retry driver's decision for a certificate at (network, height):
    /// with a durably stored proof, re-drive settlement only; without one,
    /// re-drive certification; fail when no certificate is stored.
    pub fn retry_decision(&self, network_id: NetworkId, height: Height) -> (r: Result<
        RetryAction,
        OrchestratorError,
    >)
        requires
            self.wf(),
        ensures
            r == retry_action_spec(self.pending_store@, network_id, height),
    {
        let certificate = match self.pending_store.get_certificate(network_id, height) {
            Some(c) => c,
            None => {
                return Err(OrchestratorError::CertificateNotFound(network_id, height));
            },
        };
        let certificate_id = certificate.hash();
        if self.pending_store.get_proof(certificate_id).is_some() {
            Ok(RetryAction::Resettle)
        } else {
            Ok(RetryAction::Reprove)
        }
    }
}

/// Retry convergence: for a certificate whose proof is durably stored, the
/// retry decision is to re-drive settlement only — never re-proving — and a
/// re-driven settlement whose receipt await yields a receipt records the
/// certificate `Settled`.
pub proof fn lemma_retry_convergence(
    store: PendingStoreView,
    network_id: NetworkId,
    height: Height,
    receipt: SettlementReceipt,
)
    requires
        distinct_status_keys(store.statuses),
        has_certificate(store.certificates, network_id, height),
        has_proof(store.proofs, id_of(certificate_of(store.certificates, network_id, height)@)),
    ensures
        retry_action_spec(store, network_id, height) == Ok::<RetryAction, OrchestratorError>(
            RetryAction::Resettle,
        ),
        crate::stores::status_of(
            set_status_view(store.statuses, network_id, height, CertificateStatus::Settled),
            network_id,
            height,
        ) == Some(CertificateStatus::Settled),
{
    lemma_set_status(store.statuses, network_id, height, CertificateStatus::Settled);
}

} // verus!
