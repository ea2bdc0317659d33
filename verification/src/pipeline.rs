//! One tick of the simulation: the four stages, in their fixed order.
//!
//! Selections are handled first, so that an order of the same tick reaches
//! the units just selected. Orders are then handed to the selected units, the
//! requests are planned, and last every unit under way is advanced, so that a
//! unit starts to move in the tick in which its order was given.

use vstd::prelude::*;

use crate::map::HexGrid;
use crate::movement::path_finding::{progress_gain, requested, ticked, TEMPORARY_MOVE_SPEED};
use crate::movement::{MoveUnitEvent, MovementState, MovementView};
use crate::unit_managment::orders::{fan_out, issue_move_order, MoveOrderIssuedEvent};
use crate::unit_managment::{add_units_to_selection, with_units, SelectUnitEvent, SelectedUnitList};

verus! {

/// A unit on the map: its identifier and its movement.
#[derive(Debug)]
pub struct UnitRecord {
    pub unit: u64,
    pub movement: MovementState,
}

/// The grid, the selection and the units of a game.
#[derive(Debug)]
pub struct Simulation {
    pub grid: HexGrid,
    pub selected: SelectedUnitList,
    pub units: Vec<UnitRecord>,
}

/// The movement of the unit `unit` after `requests` were handled in order,
/// where `state` is its movement before. A request for another unit changes
/// nothing; a request for this unit is planned from where the unit stands.
pub open spec fn after_requests(
    state: MovementView,
    unit: u64,
    grid: &HexGrid,
    requests: Seq<MoveUnitEvent>,
) -> MovementView
    decreases requests.len(),
{
    if requests.len() == 0 {
        state
    } else {
        let before = after_requests(state, unit, grid, requests.drop_last());
        if requests.last().unit == unit {
            requested(
                before,
                grid.planned_route(before.hex, requests.last().destination, before.config),
            )
        } else {
            before
        }
    }
}

/// Handles movement requests, in order. Each request is planned for the unit
/// it names; a request that names no unit of `units` is passed over.
pub fn apply_move_requests(
    grid: &HexGrid,
    units: &mut Vec<UnitRecord>,
    requests: &Vec<MoveUnitEvent>,
)
    ensures
        final(units)@.len() == old(units)@.len(),
        forall|i: int|
            0 <= i < old(units)@.len() ==> {
                &&& (#[trigger] final(units)@[i]).unit == old(units)@[i].unit
                &&& final(units)@[i].movement@ == after_requests(
                    old(units)@[i].movement@,
                    old(units)@[i].unit,
                    grid,
                    requests@,
                )
            },
{
    let mut r: usize = 0;
    while r < requests.len()
        invariant
            r <= requests.len(),
            units@.len() == old(units)@.len(),
            forall|i: int|
                0 <= i < units@.len() ==> {
                    &&& (#[trigger] units@[i]).unit == old(units)@[i].unit
                    &&& units@[i].movement@ == after_requests(
                        old(units)@[i].movement@,
                        old(units)@[i].unit,
                        grid,
                        requests@.subrange(0, r as int),
                    )
                },
        decreases requests.len() - r,
    {
        let ghost handled = requests@.subrange(0, r as int);
        let ghost next = requests@.subrange(0, r + 1);
        assert(next.drop_last() =~= handled);
        let unit = requests[r].unit;
        let destination = requests[r].destination;
        let ghost before = units@;
        let mut u: usize = 0;
        while u < units.len()
            invariant
                u <= units.len(),
                units@.len() == before.len(),
                before.len() == old(units)@.len(),
                next.len() == r + 1,
                next.last().unit == unit,
                next.last().destination == destination,
                next.drop_last() == handled,
                forall|i: int|
                    0 <= i < before.len() ==> {
                        &&& (#[trigger] before[i]).unit == old(units)@[i].unit
                        &&& before[i].movement@ == after_requests(
                            old(units)@[i].movement@,
                            old(units)@[i].unit,
                            grid,
                            handled,
                        )
                    },
                forall|i: int| u <= i < units@.len() ==> units@[i] == before[i],
                forall|i: int|
                    0 <= i < u ==> {
                        &&& (#[trigger] units@[i]).unit == old(units)@[i].unit
                        &&& units@[i].movement@ == after_requests(
                            old(units)@[i].movement@,
                            old(units)@[i].unit,
                            grid,
                            next,
                        )
                    },
            decreases units.len() - u,
        {
            let ghost so_far = units@;
            if units[u].unit == unit {
                let record = &mut units[u];
                record.movement.request_move(grid, destination);
            }
            assert(so_far[u as int] == before[u as int]);
            u += 1;
        }
        r += 1;
    }
    assert(requests@.subrange(0, r as int) =~= requests@);
}

/// Advances every unit by the progress `gain` of one tick.
pub fn advance_units(units: &mut Vec<UnitRecord>, gain: u64)
    ensures
        final(units)@.len() == old(units)@.len(),
        forall|i: int|
            0 <= i < old(units)@.len() ==> {
                &&& (#[trigger] final(units)@[i]).unit == old(units)@[i].unit
                &&& final(units)@[i].movement@ == ticked(old(units)@[i].movement@, gain as int)
            },
{
    let mut u: usize = 0;
    while u < units.len()
        invariant
            u <= units.len(),
            units@.len() == old(units)@.len(),
            forall|i: int| u <= i < units@.len() ==> units@[i] == old(units)@[i],
            forall|i: int|
                0 <= i < u ==> {
                    &&& (#[trigger] units@[i]).unit == old(units)@[i].unit
                    &&& units@[i].movement@ == ticked(old(units)@[i].movement@, gain as int)
                },
        decreases units.len() - u,
    {
        let record = &mut units[u];
        record.movement.tick(gain);
        u += 1;
    }
}

impl Simulation {
    /// A game on `grid` without units.
    pub fn new(grid: HexGrid) -> (game: Self)
        ensures
            game.grid == grid,
            game.selected@.len() == 0,
            game.units@.len() == 0,
    {
        Simulation { grid, selected: SelectedUnitList::new(), units: Vec::new() }
    }

    /// The movement requests of a tick: those that came in as such, and then
    /// those that the orders give rise to for the units selected by then.
    pub open spec fn requests_of_tick(
        selected: Seq<u64>,
        selections: Seq<SelectUnitEvent>,
        orders: Seq<MoveOrderIssuedEvent>,
        requests: Seq<MoveUnitEvent>,
    ) -> Seq<MoveUnitEvent> {
        requests + fan_out(orders, with_units(selected, selections))
    }

    /// Runs one tick of `delta_micros` microseconds: selects the units of
    /// `selections`, hands `orders` to the selected units, plans `requests`
    /// and the requests of the orders, and advances every unit.
    pub fn tick(
        &mut self,
        selections: &Vec<SelectUnitEvent>,
        orders: &Vec<MoveOrderIssuedEvent>,
        requests: &Vec<MoveUnitEvent>,
        delta_micros: u32,
    )
        ensures
            final(self).grid == old(self).grid,
            final(self).selected@ == with_units(old(self).selected@, selections@),
            final(self).units@.len() == old(self).units@.len(),
            forall|i: int|
                0 <= i < old(self).units@.len() ==> {
                    &&& (#[trigger] final(self).units@[i]).unit == old(self).units@[i].unit
                    &&& final(self).units@[i].movement@ == ticked(
                        after_requests(
                            old(self).units@[i].movement@,
                            old(self).units@[i].unit,
                            &old(self).grid,
                            Self::requests_of_tick(
                                old(self).selected@,
                                selections@,
                                orders@,
                                requests@,
                            ),
                        ),
                        TEMPORARY_MOVE_SPEED * delta_micros,
                    )
                },
    {
        add_units_to_selection(&mut self.selected, selections);
        let ordered = issue_move_order(orders, &self.selected);
        apply_move_requests(&self.grid, &mut self.units, requests);
        apply_move_requests(&self.grid, &mut self.units, &ordered);
        proof {
            assert forall|i: int| 0 <= i < old(self).units@.len() implies {
                (#[trigger] self.units@[i]).movement@ == after_requests(
                    old(self).units@[i].movement@,
                    old(self).units@[i].unit,
                    &old(self).grid,
                    requests@ + ordered@,
                )
            } by {
                lemma_requests_in_two_parts(
                    old(self).units@[i].movement@,
                    old(self).units@[i].unit,
                    &old(self).grid,
                    requests@,
                    ordered@,
                );
            }
        }
        advance_units(&mut self.units, progress_gain(TEMPORARY_MOVE_SPEED, delta_micros));
    }
}

/// Requests may be handled in two batches: what matters is their order.
pub proof fn lemma_requests_in_two_parts(
    state: MovementView,
    unit: u64,
    grid: &HexGrid,
    first: Seq<MoveUnitEvent>,
    second: Seq<MoveUnitEvent>,
)
    ensures
        after_requests(state, unit, grid, first + second) == after_requests(
            after_requests(state, unit, grid, first),
            unit,
            grid,
            second,
        ),
    decreases second.len(),
{
    if second.len() == 0 {
        assert(first + second =~= first);
    } else {
        assert((first + second).drop_last() =~= first + second.drop_last());
        lemma_requests_in_two_parts(state, unit, grid, first, second.drop_last());
    }
}

} // verus!
