//! Physical memory protection: the description of one protected region.

use vstd::prelude::*;

verus! {

/// The address at which a region starts.
pub type PmpRegionStartAddr = u32;

/// The size of a region in bytes.
pub type PmpRegionSize = u32;

/// How the hart matches an address against a region.
#[derive(Clone, Copy, Debug, PartialEq, Eq, Structural)]
pub enum PmpRegionAddrMatchMode {
    /// The region is switched off.
    PmpDisabled,
    /// The region ends at its address and begins where the previous one
    /// ends.
    TopOfRange,
    /// A naturally aligned region of four bytes.
    NatAlignedFourByte,
    /// A naturally aligned region whose size is a power of two.
    NatAlignedPwrOfTwo,
}

/// The life cycle of a region.
#[derive(Clone, Copy, Debug, PartialEq, Eq, Structural)]
pub enum PmpRegionState {
    Created,
    CreationFailed,
    Active,
    Disabled,
}

/// One protected region.
#[derive(Clone, Copy, Debug, PartialEq, Eq, Structural)]
pub struct PmpRegion {
    /// Where the region starts.
    pub start: PmpRegionStartAddr,
    /// Its size in bytes.
    pub sz: PmpRegionSize,
    /// How addresses are matched.
    pub amm: PmpRegionAddrMatchMode,
    /// Reads are allowed.
    pub r: bool,
    /// Writes are allowed.
    pub w: bool,
    /// Instruction fetches are allowed.
    pub x: bool,
    /// The entry is locked until reset.
    pub l: bool,
    /// Where the region is in its life cycle.
    pub status: PmpRegionState,
}

} // verus!
