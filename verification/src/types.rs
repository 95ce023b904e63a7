use vstd::prelude::*;

verus! {

/// Relay-chain block number, divided by the timeslice period.
pub type Timeslice = u32;

/// Index of a Polkadot core.
pub type CoreIndex = u16;

/// A Task Id (para id).
pub type TaskId = u32;

/// The interlace mask of a Region: 80 bits, one per part of a timeslice.
#[derive(Clone, Copy, PartialEq, Eq, Debug)]
pub struct CoreMask(pub [u8; 10]);

/// The identity of a Region of Bulk Coretime.
#[derive(Clone, Copy, PartialEq, Eq, Debug)]
pub struct RegionId {
    /// The timeslice at which this Region begins.
    pub begin: Timeslice,
    /// The index of the Polkadot Core on which this Region will be scheduled.
    pub core: CoreIndex,
    /// The regularity parts in which this Region will be scheduled.
    pub mask: CoreMask,
}

/// Whether a Region's assignment is final (and may then be eligible for
/// renewal) or provisional (and may still be manipulated or reassigned).
#[derive(Clone, Copy, PartialEq, Eq, Debug)]
pub enum Finality {
    Provisional,
    Final,
}

} // verus!
