//! The column-family storage contract: each logical table is defined by a
//! fixed key type and value type.

use vstd::prelude::*;

use crate::types::{CertificateIndex, Digest};

verus! {

/// A logical table of the storage layer: a fixed key type and value type.
pub trait ColumnSchema {
    type Key;

    type Value;
}

/// Column family for the transaction hash per certificate index in an epoch:
/// the schema of the per-epoch settlement index, used to recover which
/// settlement transaction corresponds to which packed certificate after a
/// crash or restart.
pub struct TransactionHashPerCertificateIndexColumn;

impl ColumnSchema for TransactionHashPerCertificateIndexColumn {
    type Key = CertificateIndex;

    type Value = Digest;
}

} // verus!
