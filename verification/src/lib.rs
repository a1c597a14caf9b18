//! Orchestration core of a multi-network proof-aggregation layer.
//!
//! Certificates describe claimed state transitions of independent networks.
//! The certifier drives one certificate through
//! simulate -> compare -> prove -> verify -> persist, and the epoch packer
//! groups proven certificates by epoch and drives their settlement. Proof
//! generation, proof verification and the settlement receipt await are
//! performed by external collaborators; this library makes every decision of
//! the pipeline on the values those collaborators hand back, and maintains
//! the certificate lifecycle state machine and the stores.

pub mod batch_header;
pub mod certifier;
pub mod columns;
pub mod local_state;
pub mod notifier;
pub mod packer;
pub mod status;
pub mod stores;
pub mod types;
