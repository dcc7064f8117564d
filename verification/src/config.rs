//! The proof configuration: the model of the circuit variant a run proves
//! against. Only the window proof type is in scope for this layer.

use vstd::prelude::*;

verus! {

/// The kind of Proof-of-Spacetime a configuration selects.
#[derive(Debug, Clone, Copy, PartialEq, Eq, Structural)]
pub enum PoStType {
    Winning,
    Window,
}

/// The protocol API version, as the proving backend defines it. Carried
/// through to the backend unchanged; this layer never branches on it.
#[verifier::external_type_specification]
#[verifier::external_body]
pub struct ExApiVersion(storage_proofs_core::api_version::ApiVersion);

/// The smallest sector size the circuit family can express, in bytes: the
/// proving tree groups 32-byte nodes under eight sub-trees, so a sector
/// holds at least eight nodes.
pub const MIN_SECTOR_SIZE: u64 = 256;

/// One proving circuit variant: sector size, proof type, per-partition sector
/// capacity, challenge count and a scheduling-priority hint. Effectively a
/// constant for a given run; its padded sector size keys the parameter cache.
#[derive(Clone, Copy)]
pub struct ProofConfiguration {
    /// Size of one sector in bytes (already padded).
    pub sector_size: u64,
    /// Number of challenges per sector.
    pub challenge_count: usize,
    /// Number of sectors one partition proves (the circuit's fixed capacity).
    pub sector_count: usize,
    /// The proof type; only `Window` is in scope here.
    pub typ: PoStType,
    /// High priority == always runs on the fast device.
    pub priority: bool,
    /// The protocol API version.
    pub api_version: storage_proofs_core::api_version::ApiVersion,
}

impl ProofConfiguration {
    /// A configuration this layer can work with: the partition capacity is
    /// positive and the sector size reaches the circuit family's minimum,
    /// as every resolved configuration's do.
    pub open spec fn wf(self) -> bool {
        self.sector_count > 0 && self.sector_size >= MIN_SECTOR_SIZE
    }

    /// The padded byte size of one sector; sector sizes are stored padded, so
    /// this is the sector size itself.
    pub fn padded_sector_size(&self) -> (r: u64)
        ensures
            r == self.sector_size,
    {
        self.sector_size
    }
}

} // verus!
