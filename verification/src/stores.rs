//! The pending certificate store and the state store: durable lookup of
//! certificates by (network, height), write-once insertion of generated
//! proofs keyed by certificate identity, lifecycle statuses, and per-network
//! accumulator snapshots.

use vstd::prelude::*;

use crate::local_state::LocalNetworkStateData;
use crate::status::CertificateStatus;
use crate::types::{Certificate, CertificateId, Height, NetworkId, Proof};

verus! {

/// Why a store write was refused.
#[derive(Clone, Copy, PartialEq, Eq, Structural, Debug)]
pub enum StoreError {
    /// The key is already bound; the stored value stands.
    DuplicateKey,
}

/// The lifecycle status recorded for one (network, height).
#[derive(Clone, Copy, PartialEq, Eq, Structural, Debug)]
pub struct StatusEntry {
    pub network_id: NetworkId,
    pub height: Height,
    pub status: CertificateStatus,
}

/// Mathematical value of the pending certificate store.
#[verifier::ext_equal]
pub struct PendingStoreView {
    pub certificates: Seq<Certificate>,
    pub proofs: Seq<(CertificateId, Proof)>,
    pub statuses: Seq<StatusEntry>,
}

/// Whether a certificate is keyed at the given (network, height).
pub open spec fn cert_matches(c: Certificate, network_id: NetworkId, height: Height) -> bool {
    c.network_id == network_id && c.height == height
}

/// Whether some stored certificate is keyed at (network, height).
pub open spec fn has_certificate(s: Seq<Certificate>, network_id: NetworkId, height: Height) -> bool {
    exists|i: int| 0 <= i < s.len() && cert_matches(s[i], network_id, height)
}

/// The index of the certificate keyed at (network, height); meaningful under
/// `has_certificate` and key uniqueness.
pub open spec fn certificate_index_of(s: Seq<Certificate>, network_id: NetworkId, height: Height) -> int {
    choose|i: int| 0 <= i < s.len() && cert_matches(s[i], network_id, height)
}

/// The certificate keyed at (network, height).
pub open spec fn certificate_of(s: Seq<Certificate>, network_id: NetworkId, height: Height) -> Certificate {
    s[certificate_index_of(s, network_id, height)]
}

/// Whether a proof is stored for the given certificate identity.
pub open spec fn has_proof(s: Seq<(CertificateId, Proof)>, id: CertificateId) -> bool {
    exists|i: int| 0 <= i < s.len() && (#[trigger] s[i]).0 == id
}

/// The index of the proof stored for the identity.
pub open spec fn proof_index_of(s: Seq<(CertificateId, Proof)>, id: CertificateId) -> int {
    choose|i: int| 0 <= i < s.len() && (#[trigger] s[i]).0 == id
}

/// The proof stored for the identity.
pub open spec fn proof_of(s: Seq<(CertificateId, Proof)>, id: CertificateId) -> Proof {
    s[proof_index_of(s, id)].1
}

/// Whether a status is recorded for (network, height).
pub open spec fn has_status(s: Seq<StatusEntry>, network_id: NetworkId, height: Height) -> bool {
    exists|i: int|
        0 <= i < s.len() && (#[trigger] s[i]).network_id == network_id && s[i].height == height
}

/// The index of the status entry for (network, height).
pub open spec fn status_index_of(s: Seq<StatusEntry>, network_id: NetworkId, height: Height) -> int {
    choose|i: int|
        0 <= i < s.len() && (#[trigger] s[i]).network_id == network_id && s[i].height == height
}

/// The status recorded for (network, height), if any.
pub open spec fn status_of(s: Seq<StatusEntry>, network_id: NetworkId, height: Height) -> Option<
    CertificateStatus,
> {
    if has_status(s, network_id, height) {
        Some(s[status_index_of(s, network_id, height)].status)
    } else {
        None
    }
}

/// The status sequence after recording `status` for (network, height): the
/// entry is updated in place, or appended when the key is new.
pub open spec fn set_status_view(
    s: Seq<StatusEntry>,
    network_id: NetworkId,
    height: Height,
    status: CertificateStatus,
) -> Seq<StatusEntry> {
    let entry = StatusEntry { network_id, height, status };
    if has_status(s, network_id, height) {
        s.update(status_index_of(s, network_id, height), entry)
    } else {
        s.push(entry)
    }
}

/// No two stored certificates share a (network, height) key.
pub open spec fn distinct_certificate_keys(s: Seq<Certificate>) -> bool {
    forall|i: int, j: int|
        0 <= i < j < s.len() ==> !((#[trigger] s[i]).network_id == (#[trigger] s[j]).network_id
            && s[i].height == s[j].height)
}

/// No two stored proofs share a certificate identity.
pub open spec fn distinct_proof_ids(s: Seq<(CertificateId, Proof)>) -> bool {
    forall|i: int, j: int| 0 <= i < j < s.len() ==> (#[trigger] s[i]).0 != (#[trigger] s[j]).0
}

/// No two status entries share a (network, height) key.
pub open spec fn distinct_status_keys(s: Seq<StatusEntry>) -> bool {
    forall|i: int, j: int|
        0 <= i < j < s.len() ==> !((#[trigger] s[i]).network_id == (#[trigger] s[j]).network_id
            && s[i].height == s[j].height)
}

/// Under key uniqueness, any index holding the key is the index the store
/// resolves the key to.
pub proof fn lemma_certificate_index(s: Seq<Certificate>, network_id: NetworkId, height: Height, i: int)
    requires
        distinct_certificate_keys(s),
        0 <= i < s.len(),
        cert_matches(s[i], network_id, height),
    ensures
        has_certificate(s, network_id, height),
        certificate_index_of(s, network_id, height) == i,
{
    assert(has_certificate(s, network_id, height));
    let j = certificate_index_of(s, network_id, height);
    if j < i {
        assert(false);
    } else if i < j {
        assert(false);
    }
}

/// At most one proof is ever stored for a given certificate identity: two
/// stored proofs with the same identity sit at the same index. This is the
/// store-level uniqueness that backstops concurrent certifications of the
/// same certificate.
pub proof fn lemma_at_most_one_proof(s: Seq<(CertificateId, Proof)>, i: int, j: int)
    requires
        distinct_proof_ids(s),
        0 <= i < s.len(),
        0 <= j < s.len(),
        s[i].0 == s[j].0,
    ensures
        i == j,
{
    if i < j {
        assert(false);
    } else if j < i {
        assert(false);
    }
}

/// Under key uniqueness, any index holding the proof identity is the index
/// the store resolves it to.
pub proof fn lemma_proof_index(s: Seq<(CertificateId, Proof)>, id: CertificateId, i: int)
    requires
        distinct_proof_ids(s),
        0 <= i < s.len(),
        s[i].0 == id,
    ensures
        has_proof(s, id),
        proof_index_of(s, id) == i,
{
    assert(has_proof(s, id));
    lemma_at_most_one_proof(s, i, proof_index_of(s, id));
}

/// Under key uniqueness, any index holding the status key is the index the
/// store resolves it to.
pub proof fn lemma_status_index(s: Seq<StatusEntry>, network_id: NetworkId, height: Height, i: int)
    requires
        distinct_status_keys(s),
        0 <= i < s.len(),
        s[i].network_id == network_id,
        s[i].height == height,
    ensures
        has_status(s, network_id, height),
        status_index_of(s, network_id, height) == i,
{
    assert(has_status(s, network_id, height));
    let j = status_index_of(s, network_id, height);
    if j < i {
        assert(false);
    } else if i < j {
        assert(false);
    }
}

/// Recording a status keeps keys unique and binds exactly the recorded key:
/// the recorded key reads back the new status, every other key is unchanged.
pub proof fn lemma_set_status(
    s: Seq<StatusEntry>,
    network_id: NetworkId,
    height: Height,
    status: CertificateStatus,
)
    requires
        distinct_status_keys(s),
    ensures
        distinct_status_keys(set_status_view(s, network_id, height, status)),
        status_of(set_status_view(s, network_id, height, status), network_id, height) == Some(
            status,
        ),
        forall|n2: NetworkId, h2: Height|
            !(n2 == network_id && h2 == height) ==> #[trigger] status_of(
                set_status_view(s, network_id, height, status),
                n2,
                h2,
            ) == status_of(s, n2, h2),
{
    let entry = StatusEntry { network_id, height, status };
    let t = set_status_view(s, network_id, height, status);
    if has_status(s, network_id, height) {
        let i = status_index_of(s, network_id, height);
        lemma_status_index(s, network_id, height, i);
        assert(t == s.update(i, entry));
        assert(distinct_status_keys(t)) by {
            assert forall|a: int, b: int| 0 <= a < b < t.len() implies !((#[trigger] t[a]).network_id
                == (#[trigger] t[b]).network_id && t[a].height == t[b].height) by {
                assert(t[a].network_id == s[a].network_id && t[a].height == s[a].height);
                assert(t[b].network_id == s[b].network_id && t[b].height == s[b].height);
            }
        }
        lemma_status_index(t, network_id, height, i);
        assert forall|n2: NetworkId, h2: Height| !(n2 == network_id && h2 == height) implies #[trigger] status_of(
            t,
            n2,
            h2,
        ) == status_of(s, n2, h2) by {
            if has_status(s, n2, h2) {
                let k = status_index_of(s, n2, h2);
                assert(k != i);
                assert(t[k] == s[k]);
                lemma_status_index(t, n2, h2, k);
            } else {
                if has_status(t, n2, h2) {
                    let k = status_index_of(t, n2, h2);
                    assert(t[k].network_id == n2 && t[k].height == h2);
                    assert(k != i);
                    assert(s[k] == t[k]);
                    assert(false);
                }
            }
        }
    } else {
        assert(t == s.push(entry));
        assert(distinct_status_keys(t)) by {
            assert forall|a: int, b: int| 0 <= a < b < t.len() implies !((#[trigger] t[a]).network_id
                == (#[trigger] t[b]).network_id && t[a].height == t[b].height) by {
                if b < s.len() {
                    assert(t[a] == s[a] && t[b] == s[b]);
                } else {
                    assert(t[b] == entry);
                    assert(t[a] == s[a]);
                    assert(!(s[a].network_id == network_id && s[a].height == height));
                }
            }
        }
        lemma_status_index(t, network_id, height, s.len() as int);
        assert forall|n2: NetworkId, h2: Height| !(n2 == network_id && h2 == height) implies #[trigger] status_of(
            t,
            n2,
            h2,
        ) == status_of(s, n2, h2) by {
            if has_status(s, n2, h2) {
                let k = status_index_of(s, n2, h2);
                assert(t[k] == s[k]);
                lemma_status_index(t, n2, h2, k);
            } else {
                if has_status(t, n2, h2) {
                    let k = status_index_of(t, n2, h2);
                    assert(t[k].network_id == n2 && t[k].height == h2);
                    assert(k != s.len());
                    assert(s[k] == t[k]);
                    assert(false);
                }
            }
        }
    }
}

/// Durable lookup of certificates by (network, height), of proofs by
/// certificate identity, and of lifecycle statuses. Proof insertion is
/// write-once: a duplicate key is refused and the stored proof stands.
pub struct PendingStore {
    certificates: Vec<Certificate>,
    proofs: Vec<(CertificateId, Proof)>,
    statuses: Vec<StatusEntry>,
}

impl View for PendingStore {
    type V = PendingStoreView;

    closed spec fn view(&self) -> PendingStoreView {
        PendingStoreView {
            certificates: self.certificates@,
            proofs: self.proofs@,
            statuses: self.statuses@,
        }
    }
}

impl PendingStore {
    /// Every key is bound at most once, in each of the three tables.
    pub open spec fn wf(&self) -> bool {
        &&& distinct_certificate_keys(self@.certificates)
        &&& distinct_proof_ids(self@.proofs)
        &&& distinct_status_keys(self@.statuses)
    }

    /// An empty store.
    pub fn new() -> (r: PendingStore)
        ensures
            r.wf(),
            r@.certificates == Seq::<Certificate>::empty(),
            r@.proofs == Seq::<(CertificateId, Proof)>::empty(),
            r@.statuses == Seq::<StatusEntry>::empty(),
    {
        PendingStore { certificates: Vec::new(), proofs: Vec::new(), statuses: Vec::new() }
    }

    /// The position of the certificate keyed at (network, height).
    fn certificate_position(&self, network_id: NetworkId, height: Height) -> (r: Option<usize>)
        requires
            self.wf(),
        ensures
            match r {
                Some(i) => {
                    &&& has_certificate(self@.certificates, network_id, height)
                    &&& certificate_index_of(self@.certificates, network_id, height) == i as int
                    &&& i < self@.certificates.len()
                },
                None => !has_certificate(self@.certificates, network_id, height),
            },
    {
        let mut i: usize = 0;
        while i < self.certificates.len()
            invariant
                self.wf(),
                i <= self@.certificates.len(),
                forall|j: int|
                    0 <= j < i ==> !cert_matches(
                        #[trigger] self@.certificates[j],
                        network_id,
                        height,
                    ),
            decreases self@.certificates.len() - i,
        {
            if self.certificates[i].network_id == network_id && self.certificates[i].height
                == height {
                proof {
                    lemma_certificate_index(self@.certificates, network_id, height, i as int);
                }
                return Some(i);
            }
            i = i + 1;
        }
        proof {
            if has_certificate(self@.certificates, network_id, height) {
                let w = certificate_index_of(self@.certificates, network_id, height);
                assert(cert_matches(self@.certificates[w], network_id, height));
                assert(false);
            }
        }
        None
    }

    /// The certificate stored for (network, height), if any.
    pub fn get_certificate(&self, network_id: NetworkId, height: Height) -> (r: Option<Certificate>)
        requires
            self.wf(),
        ensures
            match r {
                Some(c) => {
                    &&& has_certificate(self@.certificates, network_id, height)
                    &&& c@ == certificate_of(self@.certificates, network_id, height)@
                },
                None => !has_certificate(self@.certificates, network_id, height),
            },
    {
        match self.certificate_position(network_id, height) {
            Some(i) => Some(self.certificates[i].duplicate()),
            None => None,
        }
    }

    /// The proof stored for the certificate identity, if any.
    pub fn get_proof(&self, certificate_id: CertificateId) -> (r: Option<Proof>)
        requires
            self.wf(),
        ensures
            match r {
                Some(p) => {
                    &&& has_proof(self@.proofs, certificate_id)
                    &&& p == proof_of(self@.proofs, certificate_id)
                },
                None => !has_proof(self@.proofs, certificate_id),
            },
    {
        let mut i: usize = 0;
        while i < self.proofs.len()
            invariant
                self.wf(),
                i <= self@.proofs.len(),
                forall|j: int| 0 <= j < i ==> (#[trigger] self@.proofs[j]).0 != certificate_id,
            decreases self@.proofs.len() - i,
        {
            if self.proofs[i].0 == certificate_id {
                proof {
                    lemma_proof_index(self@.proofs, certificate_id, i as int);
                }
                return Some(self.proofs[i].1);
            }
            i = i + 1;
        }
        proof {
            if has_proof(self@.proofs, certificate_id) {
                let w = proof_index_of(self@.proofs, certificate_id);
                assert(self@.proofs[w].0 == certificate_id);
                assert(false);
            }
        }
        None
    }

    /// Stores a newly ingested certificate and records it `Pending`. Refused
    /// when a certificate already stands at its (network, height).
    pub fn insert_pending_certificate(&mut self, certificate: Certificate) -> (r: Result<
        (),
        StoreError,
    >)
        requires
            old(self).wf(),
        ensures
            final(self).wf(),
            final(self)@.proofs == old(self)@.proofs,
            if has_certificate(old(self)@.certificates, certificate.network_id, certificate.height) {
                &&& r == Err::<(), StoreError>(StoreError::DuplicateKey)
                &&& final(self)@ == old(self)@
            } else {
                &&& r == Ok::<(), StoreError>(())
                &&& final(self)@.certificates == old(self)@.certificates.push(certificate)
                &&& final(self)@.statuses == set_status_view(
                    old(self)@.statuses,
                    certificate.network_id,
                    certificate.height,
                    CertificateStatus::Pending,
                )
            },
    {
        match self.certificate_position(certificate.network_id, certificate.height) {
            Some(_) => Err(StoreError::DuplicateKey),
            None => {
                let network_id = certificate.network_id;
                let height = certificate.height;
                proof {
                    assert forall|a: int, b: int|
                        0 <= a < b < old(self)@.certificates.push(certificate).len() implies !((
                    #[trigger] old(self)@.certificates.push(certificate)[a]).network_id == (
                    #[trigger] old(self)@.certificates.push(certificate)[b]).network_id && old(
                        self,
                    )@.certificates.push(certificate)[a].height == old(self)@.certificates.push(
                        certificate,
                    )[b].height) by {
                        let t = old(self)@.certificates.push(certificate);
                        if b < old(self)@.certificates.len() {
                            assert(t[a] == old(self)@.certificates[a]);
                            assert(t[b] == old(self)@.certificates[b]);
                        } else {
                            assert(t[b] == certificate);
                            assert(t[a] == old(self)@.certificates[a]);
                            assert(!cert_matches(old(self)@.certificates[a], network_id, height));
                        }
                    }
                }
                self.certificates.push(certificate);
                self.set_status(network_id, height, CertificateStatus::Pending);
                Ok(())
            },
        }
    }

    /// Write-once insertion of a generated proof, keyed by certificate
    /// identity. A duplicate key is refused and the store is unchanged: this
    /// is the authoritative backstop of the at-most-one-proof invariant.
    pub fn insert_generated_proof(&mut self, certificate_id: CertificateId, proof: Proof) -> (r:
        Result<(), StoreError>)
        requires
            old(self).wf(),
        ensures
            final(self).wf(),
            final(self)@.certificates == old(self)@.certificates,
            final(self)@.statuses == old(self)@.statuses,
            if has_proof(old(self)@.proofs, certificate_id) {
                &&& r == Err::<(), StoreError>(StoreError::DuplicateKey)
                &&& final(self)@ == old(self)@
            } else {
                &&& r == Ok::<(), StoreError>(())
                &&& final(self)@.proofs == old(self)@.proofs.push((certificate_id, proof))
            },
    {
        let mut i: usize = 0;
        while i < self.proofs.len()
            invariant
                self.wf(),
                i <= self@.proofs.len(),
                forall|j: int| 0 <= j < i ==> (#[trigger] self@.proofs[j]).0 != certificate_id,
            decreases self@.proofs.len() - i,
        {
            if self.proofs[i].0 == certificate_id {
                proof {
                    lemma_proof_index(self@.proofs, certificate_id, i as int);
                }
                return Err(StoreError::DuplicateKey);
            }
            i = i + 1;
        }
        proof {
            if has_proof(self@.proofs, certificate_id) {
                let w = proof_index_of(self@.proofs, certificate_id);
                assert(self@.proofs[w].0 == certificate_id);
                assert(false);
            }
            let t = self@.proofs.push((certificate_id, proof));
            assert forall|a: int, b: int| 0 <= a < b < t.len() implies (#[trigger] t[a]).0 != (
            #[trigger] t[b]).0 by {
                if b < self@.proofs.len() {
                    assert(t[a] == self@.proofs[a] && t[b] == self@.proofs[b]);
                } else {
                    assert(t[b] == (certificate_id, proof));
                    assert(t[a] == self@.proofs[a]);
                }
            }
        }
        self.proofs.push((certificate_id, proof));
        Ok(())
    }

    /// Records the lifecycle status of (network, height), updating the
    /// existing entry or appending a new one.
    pub fn set_status(&mut self, network_id: NetworkId, height: Height, status: CertificateStatus)
        requires
            old(self).wf(),
        ensures
            final(self).wf(),
            final(self)@.certificates == old(self)@.certificates,
            final(self)@.proofs == old(self)@.proofs,
            final(self)@.statuses == set_status_view(
                old(self)@.statuses,
                network_id,
                height,
                status,
            ),
    {
        proof {
            lemma_set_status(self@.statuses, network_id, height, status);
        }
        let entry = StatusEntry { network_id, height, status };
        let mut i: usize = 0;
        while i < self.statuses.len()
            invariant
                self.wf(),
                i <= self@.statuses.len(),
                self@.certificates == old(self)@.certificates,
                self@.proofs == old(self)@.proofs,
                self@.statuses == old(self)@.statuses,
                entry == (StatusEntry { network_id, height, status }),
                forall|j: int|
                    0 <= j < i ==> !((#[trigger] self@.statuses[j]).network_id == network_id
                        && self@.statuses[j].height == height),
            decreases self@.statuses.len() - i,
        {
            if self.statuses[i].network_id == network_id && self.statuses[i].height == height {
                proof {
                    lemma_status_index(self@.statuses, network_id, height, i as int);
                }
                self.statuses[i] = entry;
                return ;
            }
            i = i + 1;
        }
        proof {
            if has_status(self@.statuses, network_id, height) {
                let w = status_index_of(self@.statuses, network_id, height);
                assert(self@.statuses[w].network_id == network_id && self@.statuses[w].height
                    == height);
                assert(false);
            }
        }
        self.statuses.push(entry);
    }

    /// The recorded lifecycle status of (network, height), if any.
    pub fn get_status(&self, network_id: NetworkId, height: Height) -> (r: Option<CertificateStatus>)
        requires
            self.wf(),
        ensures
            r == status_of(self@.statuses, network_id, height),
    {
        let mut i: usize = 0;
        while i < self.statuses.len()
            invariant
                self.wf(),
                i <= self@.statuses.len(),
                forall|j: int|
                    0 <= j < i ==> !((#[trigger] self@.statuses[j]).network_id == network_id
                        && self@.statuses[j].height == height),
            decreases self@.statuses.len() - i,
        {
            if self.statuses[i].network_id == network_id && self.statuses[i].height == height {
                proof {
                    lemma_status_index(self@.statuses, network_id, height, i as int);
                }
                return Some(self.statuses[i].status);
            }
            i = i + 1;
        }
        proof {
            if has_status(self@.statuses, network_id, height) {
                let w = status_index_of(self@.statuses, network_id, height);
                assert(self@.statuses[w].network_id == network_id && self@.statuses[w].height
                    == height);
                assert(false);
            }
        }
        None
    }

    /// How many proofs the store holds.
    pub fn proof_count(&self) -> (r: usize)
        ensures
            r == self@.proofs.len(),
    {
        self.proofs.len()
    }
}

/// One network's persisted accumulator snapshot.
pub struct StateEntry {
    pub network_id: NetworkId,
    pub state: LocalNetworkStateData,
}

/// Whether a snapshot is persisted for the network.
pub open spec fn has_state(s: Seq<StateEntry>, network_id: NetworkId) -> bool {
    exists|i: int| 0 <= i < s.len() && (#[trigger] s[i]).network_id == network_id
}

/// The index of the network's snapshot.
pub open spec fn state_index_of(s: Seq<StateEntry>, network_id: NetworkId) -> int {
    choose|i: int| 0 <= i < s.len() && (#[trigger] s[i]).network_id == network_id
}

/// No two snapshots share a network.
pub open spec fn distinct_state_keys(s: Seq<StateEntry>) -> bool {
    forall|i: int, j: int|
        0 <= i < j < s.len() ==> (#[trigger] s[i]).network_id != (#[trigger] s[j]).network_id
}

/// Durable persistence of each network's accumulator snapshot. Written by
/// whoever drives the stage after certification, from the certifier's output.
pub struct StateStore {
    entries: Vec<StateEntry>,
}

impl View for StateStore {
    type V = Seq<StateEntry>;

    closed spec fn view(&self) -> Seq<StateEntry> {
        self.entries@
    }
}

impl StateStore {
    /// Every network has at most one snapshot.
    pub open spec fn wf(&self) -> bool {
        distinct_state_keys(self@)
    }

    /// An empty store.
    pub fn new() -> (r: StateStore)
        ensures
            r.wf(),
            r@ == Seq::<StateEntry>::empty(),
    {
        StateStore { entries: Vec::new() }
    }

    /// The position of the network's snapshot.
    fn state_position(&self, network_id: NetworkId) -> (r: Option<usize>)
        requires
            self.wf(),
        ensures
            match r {
                Some(i) => {
                    &&& has_state(self@, network_id)
                    &&& state_index_of(self@, network_id) == i as int
                    &&& i < self@.len()
                },
                None => !has_state(self@, network_id),
            },
    {
        let mut i: usize = 0;
        while i < self.entries.len()
            invariant
                self.wf(),
                i <= self@.len(),
                forall|j: int| 0 <= j < i ==> (#[trigger] self@[j]).network_id != network_id,
            decreases self@.len() - i,
        {
            if self.entries[i].network_id == network_id {
                proof {
                    assert(has_state(self@, network_id));
                    let w = state_index_of(self@, network_id);
                    if w < i as int {
                        assert(false);
                    } else if (i as int) < w {
                        assert(false);
                    }
                }
                return Some(i);
            }
            i = i + 1;
        }
        proof {
            if has_state(self@, network_id) {
                let w = state_index_of(self@, network_id);
                assert(self@[w].network_id == network_id);
                assert(false);
            }
        }
        None
    }

    /// The persisted snapshot of the network, if any.
    pub fn read_local_network_state(&self, network_id: NetworkId) -> (r: Option<
        LocalNetworkStateData,
    >)
        requires
            self.wf(),
        ensures
            match r {
                Some(st) => {
                    &&& has_state(self@, network_id)
                    &&& st@ == self@[state_index_of(self@, network_id)].state@
                },
                None => !has_state(self@, network_id),
            },
    {
        match self.state_position(network_id) {
            Some(i) => Some(self.entries[i].state.duplicate()),
            None => None,
        }
    }

    /// Persists the network's snapshot, replacing any earlier one.
    pub fn write_local_network_state(&mut self, network_id: NetworkId, state: LocalNetworkStateData)
        requires
            old(self).wf(),
        ensures
            final(self).wf(),
            has_state(final(self)@, network_id),
            final(self)@[state_index_of(final(self)@, network_id)].state@ == state@,
            forall|n2: NetworkId|
                n2 != network_id && #[trigger] has_state(old(self)@, n2) ==> has_state(
                    final(self)@,
                    n2,
                ) && final(self)@[state_index_of(final(self)@, n2)].state@ == old(self)@[
                    state_index_of(old(self)@, n2)
                ].state@,
    {
        let entry = StateEntry { network_id, state };
        match self.state_position(network_id) {
            Some(i) => {
                proof {
                    let t = self@.update(i as int, entry);
                    assert forall|a: int, b: int| 0 <= a < b < t.len() implies (
                    #[trigger] t[a]).network_id != (#[trigger] t[b]).network_id by {
                        assert(t[a].network_id == self@[a].network_id);
                        assert(t[b].network_id == self@[b].network_id);
                    }
                }
                self.entries[i] = entry;
                proof {
                    assert(old(self)@[i as int].network_id == network_id);
                    lemma_state_update(old(self)@, self@, network_id, i as int);
                }
            },
            None => {
                proof {
                    let t = self@.push(entry);
                    assert forall|a: int, b: int| 0 <= a < b < t.len() implies (
                    #[trigger] t[a]).network_id != (#[trigger] t[b]).network_id by {
                        if b < self@.len() {
                            assert(t[a] == self@[a] && t[b] == self@[b]);
                        } else {
                            assert(t[a] == self@[a]);
                        }
                    }
                }
                self.entries.push(entry);
                proof {
                    lemma_state_update(old(self)@, self@, network_id, old(self)@.len() as int);
                }
            },
        }
    }
}

/// After binding `network_id` at index `i` (the other entries unchanged),
/// lookups resolve as the write intends.
proof fn lemma_state_update(s: Seq<StateEntry>, t: Seq<StateEntry>, network_id: NetworkId, i: int)
    requires
        distinct_state_keys(t),
        0 <= i < t.len(),
        t[i].network_id == network_id,
        i < s.len() ==> s[i].network_id == network_id,
        s.len() <= t.len(),
        t.len() <= s.len() + 1,
        forall|k: int| 0 <= k < s.len() && k != i ==> #[trigger] t[k] == s[k],
    ensures
        has_state(t, network_id),
        state_index_of(t, network_id) == i,
        forall|n2: NetworkId|
            n2 != network_id && #[trigger] has_state(s, n2) ==> has_state(t, n2) && t[
                state_index_of(t, n2)
            ] == s[state_index_of(s, n2)],
{
    assert(has_state(t, network_id));
    let j = state_index_of(t, network_id);
    if j < i {
        assert(false);
    } else if i < j {
        assert(false);
    }
    assert forall|n2: NetworkId| n2 != network_id && #[trigger] has_state(s, n2) implies has_state(
        t,
        n2,
    ) && t[state_index_of(t, n2)] == s[state_index_of(s, n2)] by {
        let k = state_index_of(s, n2);
        assert(s[k].network_id == n2);
        assert(k != i);
        assert(k < s.len());
        assert(t[k] == s[k]);
        assert(has_state(t, n2));
        let m = state_index_of(t, n2);
        if m < k {
            assert(false);
        } else if k < m {
            assert(false);
        }
    }
}

} // verus!
