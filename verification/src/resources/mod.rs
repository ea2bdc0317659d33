//! Kinds of supply.

use vstd::prelude::*;

verus! {

/// The number of a resource type in the list of resource types.
pub type ResourceTypeId = u32;

/// Whether a resource is moved on pallets, and how much of it one pallet holds.
#[derive(Debug)]
pub enum PalletizationInfo {
    CannotBePalletized,
    Palletized { units_per_pallet: u32 },
}

impl Default for PalletizationInfo {
    fn default() -> (info: Self)
        ensures
            info is CannotBePalletized,
    {
        PalletizationInfo::CannotBePalletized
    }
}

} // verus!
