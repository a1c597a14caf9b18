//! Batch headers: the transition descriptor derived from a certificate, a
//! signer and the accumulator state, used as the proving input; and the local
//! simulation that applies one to an accumulator state.

use vstd::prelude::*;

use crate::local_state::{exit_root_of, LocalNetworkStateData, LocalNetworkStateView};
use crate::status::ProofError;
use crate::types::{copy_digests, Address, Certificate, CertificateView, Digest, NetworkId};

verus! {

/// The target-state summary a batch header claims: the roots the accumulator
/// is to reach.
#[derive(Clone, Copy, PartialEq, Eq, Structural, Debug)]
pub struct StateCommitment {
    pub exit_root: Digest,
    pub balance_root: Digest,
    pub nullifier_root: Digest,
}

/// Transition descriptor combining a certificate, a signer and state roots.
/// Constructed fresh per certification attempt; never reused across attempts.
pub struct BatchHeader {
    pub origin_network: NetworkId,
    pub signer: Address,
    pub prev_local_exit_root: Digest,
    pub withdrawals: Vec<Digest>,
    pub target: StateCommitment,
}

/// Mathematical value of a batch header.
#[verifier::ext_equal]
pub struct BatchHeaderView {
    pub origin_network: NetworkId,
    pub signer: Address,
    pub prev_local_exit_root: Digest,
    pub withdrawals: Seq<Digest>,
    pub target: StateCommitment,
}

impl View for BatchHeader {
    type V = BatchHeaderView;

    open spec fn view(&self) -> BatchHeaderView {
        BatchHeaderView {
            origin_network: self.origin_network,
            signer: self.signer,
            prev_local_exit_root: self.prev_local_exit_root,
            withdrawals: self.withdrawals@,
            target: self.target,
        }
    }
}

/// The batch header derived from a certificate and a signer. The target exit
/// root is the certificate's claim; the balance and nullifier roots start
/// empty and are populated from the accumulator's own roots after the
/// simulation, since they are locally authoritative and no part of the claim.
pub open spec fn batch_header_of(c: CertificateView, signer: Address) -> BatchHeaderView {
    BatchHeaderView {
        origin_network: c.network_id,
        signer,
        prev_local_exit_root: c.prev_local_exit_root,
        withdrawals: c.withdrawals,
        target: StateCommitment {
            exit_root: c.new_local_exit_root,
            balance_root: 0,
            nullifier_root: 0,
        },
    }
}

impl Certificate {
    /// Derives the proving input from the certificate and the trust-anchor
    /// signer.
    pub fn into_pessimistic_proof_input(&self, signer: Address) -> (r: BatchHeader)
        ensures
            r@ == batch_header_of(self@, signer),
    {
        BatchHeader {
            origin_network: self.network_id,
            signer,
            prev_local_exit_root: self.prev_local_exit_root,
            withdrawals: copy_digests(&self.withdrawals),
            target: StateCommitment {
                exit_root: self.new_local_exit_root,
                balance_root: 0,
                nullifier_root: 0,
            },
        }
    }
}

impl LocalNetworkStateData {
    /// Applies a batch header to the state as a pure local simulation: checks
    /// the header's witness (its previous exit root must be the root of this
    /// state) and appends the withdrawals to the exit tree. Rejects the
    /// transition, leaving the state unchanged, when the witness is invalid.
    pub fn apply_batch_header(&mut self, header: &BatchHeader) -> (r: Result<(), ProofError>)
        ensures
            match r {
                Ok(()) => {
                    &&& header.prev_local_exit_root == exit_root_of(old(self)@.exit_leaves)
                    &&& final(self)@ == (LocalNetworkStateView {
                        exit_leaves: old(self)@.exit_leaves + header@.withdrawals,
                        balance_root: old(self)@.balance_root,
                        nullifier_root: old(self)@.nullifier_root,
                    })
                },
                Err(e) => {
                    &&& e == ProofError::InvalidPreviousLocalExitRoot
                    &&& header.prev_local_exit_root != exit_root_of(old(self)@.exit_leaves)
                    &&& final(self)@ == old(self)@
                },
            },
    {
        let current_root = self.exit_tree.get_root();
        if header.prev_local_exit_root != current_root {
            return Err(ProofError::InvalidPreviousLocalExitRoot);
        }
        let mut i: usize = 0;
        while i < header.withdrawals.len()
            invariant
                i <= header.withdrawals@.len(),
                self.exit_tree@ == old(self)@.exit_leaves + header.withdrawals@.take(i as int),
                self.balance_root == old(self)@.balance_root,
                self.nullifier_root == old(self)@.nullifier_root,
            decreases header.withdrawals@.len() - i,
        {
            self.exit_tree.append(header.withdrawals[i]);
            proof {
                assert(old(self)@.exit_leaves + header.withdrawals@.take(i as int + 1) =~= (
                old(self)@.exit_leaves + header.withdrawals@.take(i as int)).push(
                    header.withdrawals@[i as int],
                ));
            }
            i = i + 1;
        }
        proof {
            assert(header.withdrawals@.take(header.withdrawals@.len() as int) =~= header.withdrawals@);
            assert(self@ =~= (LocalNetworkStateView {
                exit_leaves: old(self)@.exit_leaves + header@.withdrawals,
                balance_root: old(self)@.balance_root,
                nullifier_root: old(self)@.nullifier_root,
            }));
        }
        Ok(())
    }
}

} // verus!
