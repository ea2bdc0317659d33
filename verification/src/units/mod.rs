//! What a unit is: its type and its place in the chain of command.

use vstd::prelude::*;

verus! {

/// The name of a unit type.
pub type UnitTypeId = String;

/// A military unit.
#[derive(Debug)]
pub struct Unit {
    pub unit_type: UnitTypeId,
    pub echelon: Echelon,
}

/// The size of a unit, from the smallest to the largest.
#[derive(Debug, Clone, Copy, PartialEq, Eq, Hash, Structural)]
pub enum Echelon {
    Squad,
    Platoon,
    Company,
    Battalion,
    Brigade,
}

/// Marks a unit that is not made up of other units.
#[derive(Debug)]
pub struct AtomicUnit;

impl Unit {
    /// A squad of the type `unit_type`: the echelon of every unit that is
    /// placed on the map.
    pub fn squad(unit_type: UnitTypeId) -> (unit: Self)
        ensures
            unit.unit_type == unit_type,
            unit.echelon == Echelon::Squad,
    {
        Unit { unit_type, echelon: Echelon::Squad }
    }
}

} // verus!
