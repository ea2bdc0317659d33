//! The hexagonal grid: which cells exist, and the routes between them.

use bevy::platform::collections::HashMap;
use bevy::platform::hash::FixedHasher;
use hexx::algorithms::a_star;
use hexx::Hex;
use vstd::prelude::*;

pub use crate::hex::HexPosition;
use crate::hex::{lemma_adjacent_is_distance_one, lemma_distance_triangle};
use crate::movement::MovementConfig;

verus! {

/// How far it is from the centre of a hex to the centre of its neighbour.
pub const HEX_RADIUS_IN_METERS: u64 = 100;

/// `bevy::platform::hash::FixedHasher`, the hasher that the cell table is
/// built with.
#[verifier::external_type_specification]
#[verifier::external_body]
pub struct ExFixedHasher(FixedHasher);

/// `bevy::platform::collections::HashMap`, which stores the cells of a grid.
#[verifier::external_type_specification]
#[verifier::external_body]
#[verifier::reject_recursive_types(K)]
#[verifier::reject_recursive_types(V)]
#[verifier::reject_recursive_types(S)]
pub struct ExHashMap<K, V, S>(HashMap<K, V, S>);

/// The table that stores the cells of a grid, keyed by the coordinates `(x, y)`.
pub type CellTable = HashMap<(i32, i32), u64>;

/// The entries that a cell table holds: coordinates `(x, y)` to cell handle.
pub uninterp spec fn table_entries(table: CellTable) -> Map<(i32, i32), u64>;

/// `bevy::platform::collections::HashMap::new`: a table without entries.
#[verifier::external_body]
fn table_new() -> (created: CellTable)
    ensures
        table_entries(created).is_empty(),
{
    HashMap::new()
}

/// `bevy::platform::collections::HashMap::insert`: afterwards the table maps
/// `key` to `value` and is otherwise unchanged.
#[verifier::external_body]
fn table_insert(table: &mut CellTable, key: (i32, i32), value: u64)
    ensures
        table_entries(*final(table)) == table_entries(*old(table)).insert(key, value),
{
    table.insert(key, value);
}

/// `bevy::platform::collections::HashMap::get`: the value stored under `key`,
/// if there is one.
#[verifier::external_body]
fn table_get(table: &CellTable, key: (i32, i32)) -> (value: Option<u64>)
    ensures
        value == if table_entries(*table).dom().contains(key) {
            Some(table_entries(*table)[key])
        } else {
            None
        },
{
    table.get(&key).copied()
}

/// The set of cells that exist, each with the handle of the tile placed on it.
#[derive(Debug)]
pub struct HexGrid {
    entities: CellTable,
}

impl HexGrid {
    #[verifier::type_invariant]
    spec fn cells_in_bounds(self) -> bool {
        forall|x: i32, y: i32| #[trigger]
            table_entries(self.entities).dom().contains((x, y)) ==> (HexPosition {
                x,
                y,
            }).in_bounds()
    }

    /// The cells of the grid: each existing hex with its handle.
    pub closed spec fn cells(&self) -> Map<HexPosition, u64> {
        Map::new(
            |hex: HexPosition| table_entries(self.entities).dom().contains((hex.x, hex.y)),
            |hex: HexPosition| table_entries(self.entities)[(hex.x, hex.y)],
        )
    }

    /// Whether a cell exists at `hex`.
    pub open spec fn contains(&self, hex: HexPosition) -> bool {
        self.cells().dom().contains(hex)
    }

    /// A grid without cells.
    pub fn new() -> (grid: Self)
        ensures
            grid.cells() == Map::<HexPosition, u64>::empty(),
    {
        let grid = HexGrid { entities: table_new() };
        assert(grid.cells() =~= Map::<HexPosition, u64>::empty());
        grid
    }

    /// Places the cell `cell` at `hex`, replacing what was there. A hex
    /// outside the coordinate bound is refused and the grid stays as it was.
    pub fn insert(&mut self, hex: HexPosition, cell: u64) -> (placed: bool)
        ensures
            placed == hex.in_bounds(),
            placed ==> final(self).cells() == old(self).cells().insert(hex, cell),
            !placed ==> final(self).cells() == old(self).cells(),
    {
        proof {
            use_type_invariant(&*self);
        }
        if !hex.is_in_bounds() {
            return false;
        }
        let mut table = table_new();
        core::mem::swap(&mut self.entities, &mut table);
        table_insert(&mut table, (hex.x, hex.y), cell);
        core::mem::swap(&mut self.entities, &mut table);
        assert(self.cells() =~= old(self).cells().insert(hex, cell));
        true
    }

    /// The handle of the cell at `hex`, or nothing where the map has no cell.
    pub fn entity_at(&self, hex: HexPosition) -> (cell: Option<u64>)
        ensures
            cell == if self.contains(hex) {
                Some(self.cells()[hex])
            } else {
                None
            },
    {
        table_get(&self.entities, (hex.x, hex.y))
    }

    /// Whether `route` leads from `start` to `end` over the grid: `start` is
    /// a cell, the first hex of the route shares an edge with it, every hex of
    /// the route is a cell and shares an edge with the one before it, and the
    /// last hex is `end`. The route does not hold `start` itself.
    pub open spec fn is_route(
        &self,
        start: HexPosition,
        end: HexPosition,
        route: Seq<HexPosition>,
    ) -> bool {
        &&& route.len() > 0
        &&& self.contains(start)
        &&& start.adjacent(route[0])
        &&& route.last() == end
        &&& forall|i: int| 0 <= i < route.len() ==> self.contains(#[trigger] route[i])
        &&& forall|i: int| 0 <= i < route.len() - 1 ==> (#[trigger] route[i]).adjacent(route[i + 1])
    }

    /// Whether some route leads from `start` to `end`.
    pub open spec fn connected(&self, start: HexPosition, end: HexPosition) -> bool {
        exists|route: Seq<HexPosition>| self.is_route(start, end, route)
    }

    /// What moving from `from` onto the neighbouring hex `to` costs: one for
    /// every cell, whatever the movement mode, and nothing where no cell is.
    pub open spec fn edge_cost(
        &self,
        from: HexPosition,
        to: HexPosition,
        config: MovementConfig,
    ) -> Option<u32> {
        if self.contains(to) {
            Some(1u32)
        } else {
            None
        }
    }

    /// The route that a search result stands for. A result that begins at
    /// `start` and goes on as a route to `end` gives that route; any other
    /// result, and a search that found nothing, gives the empty route.
    pub open spec fn route_of_search(
        &self,
        start: HexPosition,
        end: HexPosition,
        found: Option<Seq<HexPosition>>,
    ) -> Seq<HexPosition> {
        match found {
            Some(walk) => if walk.len() > 1 && walk[0] == start && self.is_route(
                start,
                end,
                walk.skip(1),
            ) {
                walk.skip(1)
            } else {
                Seq::empty()
            },
            None => Seq::empty(),
        }
    }

    /// The route that `find_path` plans: empty where `start` or `end` is no
    /// cell, and otherwise what the search over the grid's cells stands for.
    pub open spec fn planned_route(
        &self,
        start: HexPosition,
        end: HexPosition,
        config: MovementConfig,
    ) -> Seq<HexPosition> {
        if self.contains(start) && self.contains(end) {
            self.route_of_search(start, end, a_star_walk(start, end, self.cells().dom(), config))
        } else {
            Seq::empty()
        }
    }

    /// The cost hook of the path search, for one step between neighbours.
    pub fn step_cost(
        &self,
        from: HexPosition,
        to: HexPosition,
        config: &MovementConfig,
    ) -> (cost: Option<u32>)
        ensures
            cost == self.edge_cost(from, to, *config),
    {
        match self.entity_at(to) {
            Some(_) => Some(1),
            None => None,
        }
    }

    /// Turns the result of a search into a route. The result is kept only if
    /// it is sound: it must begin at `start`, go from cell to neighbouring
    /// cell, and end at `end`. The route is the result without `start`.
    pub fn route_from_search(
        &self,
        start: HexPosition,
        end: HexPosition,
        found: Option<Vec<HexPosition>>,
    ) -> (route: Vec<HexPosition>)
        ensures
            route@ == self.route_of_search(start, end, walk_view(found)),
            route@.len() > 0 ==> self.is_route(start, end, route@),
    {
        let walk = match found {
            Some(walk) => walk,
            None => {
                return Vec::new();
            },
        };
        if walk.len() < 2 || walk[0] != start || walk[walk.len() - 1] != end {
            return Vec::new();
        }
        if self.entity_at(start).is_none() || !start.is_neighbor(walk[1]) {
            return Vec::new();
        }
        let ghost tail = walk@.skip(1);
        let mut route: Vec<HexPosition> = Vec::new();
        let mut i: usize = 1;
        while i < walk.len()
            invariant
                1 <= i <= walk.len(),
                walk.len() >= 2,
                walk_view(found) == Some(walk@),
                tail == walk@.skip(1),
                route@ == walk@.subrange(1, i as int),
                forall|j: int| 0 <= j < i - 1 ==> self.contains(#[trigger] tail[j]),
                forall|j: int| 0 <= j < i - 2 ==> (#[trigger] tail[j]).adjacent(tail[j + 1]),
            decreases walk.len() - i,
        {
            let hex = walk[i];
            if self.entity_at(hex).is_none() {
                assert(!self.contains(tail[i - 1]));
                return Vec::new();
            }
            if i >= 2 && !walk[i - 1].is_neighbor(hex) {
                assert(!tail[i - 2].adjacent(tail[i - 2 + 1]));
                return Vec::new();
            }
            route.push(hex);
            assert(route@ =~= walk@.subrange(1, i + 1));
            i += 1;
        }
        assert(route@ =~= tail);
        route
    }

    /// Plans the way from `start` to `end`: the hexes to enter, in order,
    /// ending with `end`. The result is empty where there is nothing to
    /// walk: `start` or `end` is no cell, no route joins them, or they are
    /// the same hex.
    pub fn find_path(
        &self,
        start: HexPosition,
        end: HexPosition,
        config: &MovementConfig,
    ) -> (path: Vec<HexPosition>)
        ensures
            path@ == self.planned_route(start, end, *config),
            path@.len() > 0 ==> self.is_route(start, end, path@),
            path@.len() > 0 ==> path@.len() >= start.distance(end),
            !self.connected(start, end) ==> path@.len() == 0,
    {
        if self.entity_at(start).is_none() || self.entity_at(end).is_none() {
            return Vec::new();
        }
        proof {
            use_type_invariant(self);
        }
        let found = search(self, start, end, config);
        let path = self.route_from_search(start, end, found);
        proof {
            if path@.len() > 0 {
                lemma_route_covers_distance(self, start, end, path@);
            }
        }
        path
    }
}

/// A search result as a value of the model.
pub open spec fn walk_view(found: Option<Vec<HexPosition>>) -> Option<Seq<HexPosition>> {
    match found {
        Some(walk) => Some(walk@),
        None => None,
    }
}

/// What `hexx::algorithms::a_star` returns for a search from `start` to
/// `end`, where a step onto a hex of `cells` costs one and no other step is
/// allowed; `config` is what the cost hook is given.
pub uninterp spec fn a_star_walk(
    start: HexPosition,
    end: HexPosition,
    cells: Set<HexPosition>,
    config: MovementConfig,
) -> Option<Seq<HexPosition>>;

/// `hexx::algorithms::a_star`, with `HexGrid::step_cost` as its cost hook.
///
/// The search is a function of its arguments alone: it keeps its frontier in
/// a binary heap and looks hexes up in hash maps that it never walks, so the
/// same grid and the same ends give the same walk. The contract gives the
/// result a name and claims nothing else of it. Both ends must be cells of
/// the grid, and all cells must lie inside the coordinate bound: the search
/// then forms no coordinate and no cost that overflows.
#[verifier::external_body]
fn search(
    grid: &HexGrid,
    start: HexPosition,
    end: HexPosition,
    config: &MovementConfig,
) -> (found: Option<Vec<HexPosition>>)
    requires
        grid.contains(start),
        grid.contains(end),
        forall|hex: HexPosition| grid.contains(hex) ==> hex.in_bounds(),
    ensures
        walk_view(found) == a_star_walk(start, end, grid.cells().dom(), *config),
{
    let walk = a_star(
        Hex::new(start.x, start.y),
        Hex::new(end.x, end.y),
        |a, b| grid.step_cost(HexPosition::new(a.x, a.y), HexPosition::new(b.x, b.y), config),
    )?;
    Some(walk.into_iter().map(|hex| HexPosition::new(hex.x, hex.y)).collect())
}

/// A route is never shorter than the hex distance between its ends.
pub proof fn lemma_route_covers_distance(
    grid: &HexGrid,
    start: HexPosition,
    end: HexPosition,
    route: Seq<HexPosition>,
)
    requires
        grid.is_route(start, end, route),
    ensures
        route.len() >= start.distance(end),
    decreases route.len(),
{
    if route.len() == 1 {
        lemma_adjacent_is_distance_one(start, end);
    } else {
        let before = route[route.len() - 2];
        let shorter = route.drop_last();
        assert(forall|i: int| 0 <= i < shorter.len() ==> shorter[i] == route[i]);
        assert(grid.is_route(start, before, shorter));
        lemma_route_covers_distance(grid, start, before, shorter);
        assert(before.adjacent(route[route.len() - 2 + 1]));
        lemma_adjacent_is_distance_one(before, end);
        lemma_distance_triangle(start, before, end);
    }
}

} // verus!
