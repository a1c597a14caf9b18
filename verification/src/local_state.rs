//! Per-network accumulator state: the exit tree and the root digests the
//! certifier simulates certificates against.

use vstd::prelude::*;

use crate::types::{fold_digest, fold_digest_exec, copy_digests, Digest};

verus! {

/// Root digest of an exit tree with no leaves.
pub const EMPTY_TREE_ROOT: u64 = 0x6578_6974_7472_6565;

/// Root digest of an exit tree holding the given leaves: the digest fold of
/// the leaves from the empty root.
pub open spec fn exit_root_of(leaves: Seq<Digest>) -> Digest {
    fold_digest(EMPTY_TREE_ROOT, leaves)
}

/// The exit tree of one network: an append-only accumulator of bridge-exit
/// digests, exposing a root digest over its contents.
pub struct ExitTree {
    leaves: Vec<Digest>,
}

impl View for ExitTree {
    type V = Seq<Digest>;

    closed spec fn view(&self) -> Seq<Digest> {
        self.leaves@
    }
}

impl ExitTree {
    /// An exit tree with no leaves.
    pub fn new() -> (r: ExitTree)
        ensures
            r@ == Seq::<Digest>::empty(),
    {
        ExitTree { leaves: Vec::new() }
    }

    /// The root digest over the current leaves.
    pub fn get_root(&self) -> (r: Digest)
        ensures
            r == exit_root_of(self@),
    {
        fold_digest_exec(EMPTY_TREE_ROOT, &self.leaves)
    }

    /// Appends one leaf.
    pub fn append(&mut self, leaf: Digest)
        ensures
            final(self)@ == old(self)@.push(leaf),
    {
        self.leaves.push(leaf);
    }

    /// How many leaves the tree holds.
    pub fn leaf_count(&self) -> (r: usize)
        ensures
            r == self@.len(),
    {
        self.leaves.len()
    }

    /// A copy of the tree with the same leaves.
    pub fn duplicate(&self) -> (r: ExitTree)
        ensures
            r@ == self@,
    {
        ExitTree { leaves: copy_digests(&self.leaves) }
    }
}

/// Per-network accumulator state: the exit tree, and the root digests of the
/// balance tree and the nullifier set. The balance and nullifier structures
/// are carried by their roots alone: the orchestrator reads nothing else of
/// them.
pub struct LocalNetworkStateData {
    pub exit_tree: ExitTree,
    pub balance_root: Digest,
    pub nullifier_root: Digest,
}

/// Mathematical value of an accumulator state.
#[verifier::ext_equal]
pub struct LocalNetworkStateView {
    pub exit_leaves: Seq<Digest>,
    pub balance_root: Digest,
    pub nullifier_root: Digest,
}

impl View for LocalNetworkStateData {
    type V = LocalNetworkStateView;

    open spec fn view(&self) -> LocalNetworkStateView {
        LocalNetworkStateView {
            exit_leaves: self.exit_tree@,
            balance_root: self.balance_root,
            nullifier_root: self.nullifier_root,
        }
    }
}

impl LocalNetworkStateData {
    /// The initial state of a fresh network: empty exit tree, empty roots.
    pub fn new(balance_root: Digest, nullifier_root: Digest) -> (r: LocalNetworkStateData)
        ensures
            r@.exit_leaves == Seq::<Digest>::empty(),
            r@.balance_root == balance_root,
            r@.nullifier_root == nullifier_root,
    {
        LocalNetworkStateData {
            exit_tree: ExitTree::new(),
            balance_root,
            nullifier_root,
        }
    }

    /// A copy of the state with the same mathematical value. Certification
    /// works on copies: the caller's state is persisted only after full
    /// verification succeeds, never from a half-completed attempt.
    pub fn duplicate(&self) -> (r: LocalNetworkStateData)
        ensures
            r@ == self@,
    {
        LocalNetworkStateData {
            exit_tree: self.exit_tree.duplicate(),
            balance_root: self.balance_root,
            nullifier_root: self.nullifier_root,
        }
    }
}

} // verus!
