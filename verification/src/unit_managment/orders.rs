//! Turning one move order into a movement request for each selected unit.

use vstd::prelude::*;

use crate::map::HexPosition;
use crate::movement::MoveUnitEvent;
use crate::unit_managment::SelectedUnitList;

verus! {

/// The player orders the selected units to a destination.
#[derive(Debug)]
pub struct MoveOrderIssuedEvent {
    pub destination: HexPosition,
}

/// The requests that one order to `destination` gives rise to: one for each
/// unit of `units`, in their order.
pub open spec fn requests_for(units: Seq<u64>, destination: HexPosition) -> Seq<MoveUnitEvent> {
    Seq::new(units.len(), |i: int| MoveUnitEvent { unit: units[i], destination })
}

/// The requests that `orders` give rise to while `units` are selected: those
/// of the first order, then those of the second, and so on.
pub open spec fn fan_out(orders: Seq<MoveOrderIssuedEvent>, units: Seq<u64>) -> Seq<MoveUnitEvent>
    decreases orders.len(),
{
    if orders.len() == 0 {
        Seq::empty()
    } else {
        fan_out(orders.drop_last(), units) + requests_for(units, orders.last().destination)
    }
}

/// Hands each order on to every unit that is selected when the orders are
/// handled. The selection is left as it is.
pub fn issue_move_order(
    orders: &Vec<MoveOrderIssuedEvent>,
    units: &SelectedUnitList,
) -> (unit_orders: Vec<MoveUnitEvent>)
    ensures
        unit_orders@ == fan_out(orders@, units@),
{
    let selected = units.units();
    let mut unit_orders: Vec<MoveUnitEvent> = Vec::new();
    let mut i: usize = 0;
    while i < orders.len()
        invariant
            i <= orders.len(),
            selected@ == units@,
            unit_orders@ == fan_out(orders@.subrange(0, i as int), units@),
        decreases orders.len() - i,
    {
        let destination = orders[i].destination;
        let ghost before = unit_orders@;
        let mut j: usize = 0;
        while j < selected.len()
            invariant
                j <= selected.len(),
                selected@ == units@,
                unit_orders@ == before + requests_for(units@, destination).subrange(0, j as int),
            decreases selected.len() - j,
        {
            unit_orders.push(MoveUnitEvent { unit: selected[j], destination });
            assert(unit_orders@ =~= before + requests_for(units@, destination).subrange(
                0,
                j + 1,
            ));
            j += 1;
        }
        proof {
            let done = orders@.subrange(0, i + 1);
            assert(done.drop_last() =~= orders@.subrange(0, i as int));
            assert(requests_for(units@, destination).subrange(0, j as int) =~= requests_for(
                units@,
                destination,
            ));
        }
        i += 1;
    }
    assert(orders@.subrange(0, i as int) =~= orders@);
    unit_orders
}

/// One order with `units` selected gives exactly one request for each
/// selected unit, each with the order's destination, and no two requests
/// name the same unit.
pub proof fn lemma_order_reaches_each_selected_unit(order: MoveOrderIssuedEvent, units: Seq<u64>)
    requires
        units.no_duplicates(),
    ensures
        fan_out(seq![order], units).len() == units.len(),
        forall|i: int|
            0 <= i < units.len() ==> (#[trigger] fan_out(seq![order], units)[i]).unit == units[i],
        forall|i: int|
            0 <= i < units.len() ==> (#[trigger] fan_out(seq![order], units)[i]).destination
                == order.destination,
        forall|i: int, j: int|
            0 <= i < units.len() && 0 <= j < units.len() && i != j ==> (#[trigger] fan_out(
                seq![order],
                units,
            )[i]).unit != (#[trigger] fan_out(seq![order], units)[j]).unit,
{
    let orders = seq![order];
    assert(orders.drop_last() =~= Seq::<MoveOrderIssuedEvent>::empty());
    assert(fan_out(orders.drop_last(), units) =~= Seq::<MoveUnitEvent>::empty());
    assert(fan_out(orders, units) =~= requests_for(units, order.destination));
}

} // verus!
