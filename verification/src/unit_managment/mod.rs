//! Which units the player has selected.

pub mod orders;

use vstd::prelude::*;

verus! {

/// The player selects one unit.
#[derive(Debug)]
pub struct SelectUnitEvent {
    /// The identifier of the unit.
    pub unit: u64,
}

/// The units selected at present, in the order in which each was first
/// selected. No unit occurs twice.
#[derive(Debug)]
pub struct SelectedUnitList {
    selected_units: Vec<u64>,
}

/// The selection `selected` after `unit` was selected: a unit that is
/// selected already changes nothing, any other joins at the end.
pub open spec fn with_unit(selected: Seq<u64>, unit: u64) -> Seq<u64> {
    if selected.contains(unit) {
        selected
    } else {
        selected.push(unit)
    }
}

/// The selection `selected` after each of `events` was handled, in order.
pub open spec fn with_units(selected: Seq<u64>, events: Seq<SelectUnitEvent>) -> Seq<u64>
    decreases events.len(),
{
    if events.len() == 0 {
        selected
    } else {
        with_unit(with_units(selected, events.drop_last()), events.last().unit)
    }
}

impl View for SelectedUnitList {
    type V = Seq<u64>;

    closed spec fn view(&self) -> Seq<u64> {
        self.selected_units@
    }
}

impl SelectedUnitList {
    #[verifier::type_invariant]
    spec fn each_unit_once(self) -> bool {
        self.selected_units@.no_duplicates()
    }

    /// The empty selection.
    pub fn new() -> (list: Self)
        ensures
            list@.len() == 0,
    {
        SelectedUnitList { selected_units: Vec::new() }
    }

    /// The number of selected units.
    pub fn len(&self) -> (count: usize)
        ensures
            count == self@.len(),
            self@.no_duplicates(),
    {
        proof {
            use_type_invariant(self);
        }
        self.selected_units.len()
    }

    /// The selected units, in the order of their first selection.
    pub fn units(&self) -> (units: &Vec<u64>)
        ensures
            units@ == self@,
            self@.no_duplicates(),
    {
        proof {
            use_type_invariant(self);
        }
        &self.selected_units
    }

    /// Tests whether `unit` is selected.
    pub fn is_selected(&self, unit: u64) -> (selected: bool)
        ensures
            selected == self@.contains(unit),
    {
        contains_unit(&self.selected_units, unit)
    }

    /// Selects `unit`. Selecting a unit again changes nothing.
    pub fn select(&mut self, unit: u64)
        ensures
            final(self)@ == with_unit(old(self)@, unit),
            final(self)@.no_duplicates(),
    {
        proof {
            use_type_invariant(&*self);
        }
        if !contains_unit(&self.selected_units, unit) {
            let mut units: Vec<u64> = Vec::new();
            core::mem::swap(&mut self.selected_units, &mut units);
            units.push(unit);
            proof {
                lemma_selection_keeps_each_unit_once(old(self)@, unit);
            }
            core::mem::swap(&mut self.selected_units, &mut units);
        }
    }

    /// Deselects every unit.
    pub fn clear(&mut self)
        ensures
            final(self)@.len() == 0,
    {
        self.selected_units = Vec::new();
    }
}

impl Default for SelectedUnitList {
    fn default() -> (list: Self)
        ensures
            list@.len() == 0,
    {
        SelectedUnitList::new()
    }
}

fn contains_unit(units: &Vec<u64>, unit: u64) -> (found: bool)
    ensures
        found == units@.contains(unit),
{
    let mut i: usize = 0;
    while i < units.len()
        invariant
            i <= units.len(),
            forall|j: int| 0 <= j < i ==> units@[j] != unit,
        decreases units.len() - i,
    {
        if units[i] == unit {
            return true;
        }
        i += 1;
    }
    false
}

/// Adds the unit of each event to the selection, in the order of the events.
/// A unit that is selected already stays where it is.
pub fn add_units_to_selection(
    selected_units: &mut SelectedUnitList,
    select_unit_events: &Vec<SelectUnitEvent>,
)
    ensures
        final(selected_units)@ == with_units(old(selected_units)@, select_unit_events@),
        final(selected_units)@.no_duplicates(),
{
    proof {
        use_type_invariant(&*selected_units);
    }
    let mut i: usize = 0;
    while i < select_unit_events.len()
        invariant
            i <= select_unit_events.len(),
            selected_units@ == with_units(
                old(selected_units)@,
                select_unit_events@.subrange(0, i as int),
            ),
            selected_units@.no_duplicates(),
        decreases select_unit_events.len() - i,
    {
        selected_units.select(select_unit_events[i].unit);
        proof {
            let done = select_unit_events@.subrange(0, i + 1);
            assert(done.drop_last() =~= select_unit_events@.subrange(0, i as int));
        }
        i += 1;
    }
    assert(select_unit_events@.subrange(0, i as int) =~= select_unit_events@);
}

/// A selection in which no unit occurs twice stays so when a unit is
/// selected.
pub proof fn lemma_selection_keeps_each_unit_once(selected: Seq<u64>, unit: u64)
    requires
        selected.no_duplicates(),
    ensures
        with_unit(selected, unit).no_duplicates(),
        with_unit(selected, unit).contains(unit),
{
    let after = with_unit(selected, unit);
    if !selected.contains(unit) {
        assert(after[selected.len() as int] == unit);
        assert forall|i: int, j: int|
            0 <= i < after.len() && 0 <= j < after.len() && i != j implies after[i] != after[j] by {
            if i < selected.len() {
                assert(selected.contains(after[i]));
            }
            if j < selected.len() {
                assert(selected.contains(after[j]));
            }
        }
    }
}

/// Selecting a unit a second time changes nothing, and a unit that was
/// selected has exactly one entry in the selection.
pub proof fn lemma_selection_idempotent(selected: Seq<u64>, unit: u64)
    requires
        selected.no_duplicates(),
    ensures
        with_unit(with_unit(selected, unit), unit) == with_unit(selected, unit),
        exists|i: int|
            {
                &&& 0 <= i < with_unit(selected, unit).len()
                &&& #[trigger] with_unit(selected, unit)[i] == unit
                &&& forall|j: int|
                    0 <= j < with_unit(selected, unit).len() && with_unit(selected, unit)[j]
                        == unit ==> j == i
            },
{
    lemma_selection_keeps_each_unit_once(selected, unit);
    let after = with_unit(selected, unit);
    let i = choose|i: int| 0 <= i < after.len() && after[i] == unit;
    assert(after[i] == unit);
}

} // verus!
