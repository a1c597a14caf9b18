//! Shared data model: identifiers, digests, certificates and proofs.

use vstd::prelude::*;

verus! {

/// Height of a certificate in one network's chain of claimed transitions.
pub type Height = u64;

/// A digest standing for a cryptographic hash value (exit roots, transaction
/// hashes, proof payloads). The model folds digests with `digest_mix`; the
/// fold stands for a collision-resistant hash.
pub type Digest = u64;

/// Index of a certificate inside the epoch that packed it.
pub type CertificateIndex = u64;

/// Number of a settlement epoch: a monotonically increasing grouping key,
/// opaque to the orchestrator.
pub type EpochNumber = u64;

/// Identifier of a network that submits certificates.
#[derive(Clone, Copy, PartialEq, Eq, Structural, Debug)]
pub struct NetworkId(pub u32);

/// Content-derived identity of a certificate: the digest of its fields.
#[derive(Clone, Copy, PartialEq, Eq, Structural, Debug)]
pub struct CertificateId(pub Digest);

/// A trust-anchor signer address. How the signer is determined is external
/// configuration; the orchestrator only carries it into the batch header.
#[derive(Clone, Copy, PartialEq, Eq, Structural, Debug)]
pub struct Address(pub u64);

impl Address {
    pub fn new(value: u64) -> (r: Address)
        ensures
            r == Address(value),
    {
        Address(value)
    }
}

/// Seed of the digest fold that derives a certificate's identity.
pub const CERTIFICATE_ID_SEED: u64 = 0x6365_7274_6964_3031;

/// One mixing step of the digest fold: rotate the accumulator left by one
/// bit, then fold the next value in.
pub open spec fn digest_mix(acc: Digest, value: Digest) -> Digest {
    ((acc << 1u64) ^ (acc >> 63u64)) ^ value
}

/// Digest of a sequence of values: `digest_mix` folded over the sequence,
/// left to right, starting from `seed`.
pub open spec fn fold_digest(seed: Digest, values: Seq<Digest>) -> Digest
    decreases values.len(),
{
    if values.len() == 0 {
        seed
    } else {
        digest_mix(fold_digest(seed, values.drop_last()), values.last())
    }
}

/// Executable mixing step.
pub fn digest_mix_exec(acc: Digest, value: Digest) -> (r: Digest)
    ensures
        r == digest_mix(acc, value),
{
    ((acc << 1u64) ^ (acc >> 63u64)) ^ value
}

/// Executable digest fold over a vector.
pub fn fold_digest_exec(seed: Digest, values: &Vec<Digest>) -> (r: Digest)
    ensures
        r == fold_digest(seed, values@),
{
    let mut acc: Digest = seed;
    let mut i: usize = 0;
    while i < values.len()
        invariant
            i <= values@.len(),
            acc == fold_digest(seed, values@.take(i as int)),
        decreases values@.len() - i,
    {
        let v = values[i];
        proof {
            assert(values@.take(i as int + 1).drop_last() =~= values@.take(i as int));
            assert(values@.take(i as int + 1).last() == values@[i as int]);
        }
        acc = digest_mix_exec(acc, v);
        i = i + 1;
    }
    proof {
        assert(values@.take(values@.len() as int) =~= values@);
    }
    acc
}

/// Copies a vector of digests, value for value.
pub fn copy_digests(values: &Vec<Digest>) -> (r: Vec<Digest>)
    ensures
        r@ == values@,
{
    let mut r: Vec<Digest> = Vec::new();
    let mut i: usize = 0;
    while i < values.len()
        invariant
            i <= values@.len(),
            r@ == values@.take(i as int),
        decreases values@.len() - i,
    {
        r.push(values[i]);
        proof {
            assert(values@.take(i as int).push(values@[i as int]) =~= values@.take(i as int + 1));
        }
        i = i + 1;
    }
    proof {
        assert(values@.take(values@.len() as int) =~= values@);
    }
    r
}

/// A claimed state transition for one network at one height. Immutable once
/// created; the orchestrator references it and never mutates it. The
/// withdrawals are the digests of the bridge-exit events the transition
/// appends to the network's exit tree.
pub struct Certificate {
    pub network_id: NetworkId,
    pub height: Height,
    pub prev_local_exit_root: Digest,
    pub new_local_exit_root: Digest,
    pub withdrawals: Vec<Digest>,
}

/// Mathematical value of a certificate.
#[verifier::ext_equal]
pub struct CertificateView {
    pub network_id: NetworkId,
    pub height: Height,
    pub prev_local_exit_root: Digest,
    pub new_local_exit_root: Digest,
    pub withdrawals: Seq<Digest>,
}

impl View for Certificate {
    type V = CertificateView;

    open spec fn view(&self) -> CertificateView {
        CertificateView {
            network_id: self.network_id,
            height: self.height,
            prev_local_exit_root: self.prev_local_exit_root,
            new_local_exit_root: self.new_local_exit_root,
            withdrawals: self.withdrawals@,
        }
    }
}

/// Digest of a certificate's scalar fields: the seed of its identity fold.
pub open spec fn certificate_seed(c: CertificateView) -> Digest {
    digest_mix(
        digest_mix(
            digest_mix(
                digest_mix(CERTIFICATE_ID_SEED, c.network_id.0 as u64),
                c.height,
            ),
            c.prev_local_exit_root,
        ),
        c.new_local_exit_root,
    )
}

/// The content-derived identity of a certificate: a digest of every field,
/// withdrawals included.
pub open spec fn id_of(c: CertificateView) -> CertificateId {
    CertificateId(fold_digest(certificate_seed(c), c.withdrawals))
}

impl Certificate {
    /// The certificate's content-derived identity.
    pub fn hash(&self) -> (r: CertificateId)
        ensures
            r == id_of(self@),
    {
        let seed = digest_mix_exec(
            digest_mix_exec(
                digest_mix_exec(
                    digest_mix_exec(CERTIFICATE_ID_SEED, self.network_id.0 as u64),
                    self.height,
                ),
                self.prev_local_exit_root,
            ),
            self.new_local_exit_root,
        );
        CertificateId(fold_digest_exec(seed, &self.withdrawals))
    }

    /// A copy of the certificate with the same mathematical value.
    pub fn duplicate(&self) -> (r: Certificate)
        ensures
            r@ == self@,
    {
        Certificate {
            network_id: self.network_id,
            height: self.height,
            prev_local_exit_root: self.prev_local_exit_root,
            new_local_exit_root: self.new_local_exit_root,
            withdrawals: copy_digests(&self.withdrawals),
        }
    }
}

/// A verifiable artifact attesting one certificate's transition, produced and
/// checked by the proof backend. Opaque to the orchestrator but for the
/// certificate identity it is bound to.
#[derive(Clone, Copy, PartialEq, Eq, Structural, Debug)]
pub struct Proof {
    pub certificate_id: CertificateId,
    pub payload: Digest,
}

} // verus!
