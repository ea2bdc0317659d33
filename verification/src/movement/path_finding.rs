//! Planning a route for a unit and moving the unit along it, tick by tick.

use vstd::prelude::*;

use crate::map::{HexGrid, HexPosition};
use crate::movement::{
    GamePosition, Kph, MovementConfig, MovementState, MovementView, MovingTowards, Path,
    TransitView, PROGRESS_COMPLETE, PROGRESS_ZERO,
};

verus! {

/// The speed at which every unit moves for now.
pub const TEMPORARY_MOVE_SPEED: Kph = 10;

/// The progress that a unit at `speed` gains in `delta_micros` microseconds.
///
/// One step of progress is what a unit at one kilometre per hour covers in a
/// microsecond, so the gain is the product of the two.
pub open spec fn gained_progress(speed: Kph, delta_micros: u32) -> int {
    speed * delta_micros
}

/// The waypoint that follows the first occurrence of `reached` in
/// `waypoints`, if `reached` occurs and is not the last waypoint.
pub open spec fn next_waypoint(waypoints: Seq<HexPosition>, reached: HexPosition) -> Option<
    HexPosition,
> {
    match waypoints.index_of_first(reached) {
        Some(at) => if at + 1 < waypoints.len() {
            Some(waypoints[at + 1])
        } else {
            None
        },
        None => None,
    }
}

/// Where a unit is after an update.
pub struct Advance {
    /// The hex the unit stands on.
    pub hex: HexPosition,
    /// The hex the unit approaches; once arrived, the hex it stands on.
    pub destination: HexPosition,
    /// How far the unit has come on its leg; zero once arrived.
    pub progress: int,
    /// Whether the unit completed a leg that no waypoint follows.
    pub arrived: bool,
    /// How many legs the update completed.
    pub legs: int,
}

/// The movement of a unit that stands on `hex`, approaches `destination`
/// along `waypoints`, and has `total` progress on its leg: what it had plus
/// what the tick added.
///
/// While the progress reaches `PROGRESS_COMPLETE` the leg is completed: the
/// unit stands on the hex it approached, and the excess is carried into the
/// leg towards the next waypoint. Where no waypoint follows, the unit has
/// arrived and the excess is dropped.
pub open spec fn advance(
    waypoints: Seq<HexPosition>,
    hex: HexPosition,
    destination: HexPosition,
    total: int,
) -> Advance
    decreases total,
{
    if total < PROGRESS_COMPLETE {
        Advance { hex, destination, progress: total, arrived: false, legs: 0 }
    } else {
        match next_waypoint(waypoints, destination) {
            Some(next) => {
                let rest = advance(waypoints, destination, next, total - PROGRESS_COMPLETE);
                Advance { legs: rest.legs + 1, ..rest }
            },
            None => Advance {
                hex: destination,
                destination,
                progress: PROGRESS_ZERO as int,
                arrived: true,
                legs: 1,
            },
        }
    }
}

/// The outcome of `move_unit_along_path` for a unit with the given leg, path
/// and position.
pub open spec fn transit_after(
    moving: &MovingTowards,
    path: &Path,
    position: &GamePosition,
    gain: u64,
) -> Advance {
    advance(path.waypoints@, position.hex, moving.destination, moving.progress + gain)
}

/// The movement of a unit after a request for which `route` was planned. A
/// route puts the unit on the leg towards its first waypoint, with no
/// progress yet, whatever the unit was doing before. Without a route the
/// unit stays as it is.
pub open spec fn requested(state: MovementView, route: Seq<HexPosition>) -> MovementView {
    if route.len() > 0 {
        MovementView {
            transit: Some(
                TransitView {
                    waypoints: route,
                    destination: route[0],
                    progress: PROGRESS_ZERO as int,
                },
            ),
            ..state
        }
    } else {
        state
    }
}

/// The movement of a unit after a tick that adds `gain` to its progress. An
/// idle unit stays idle. A unit under way advances, and becomes idle when it
/// completes its last leg.
pub open spec fn ticked(state: MovementView, gain: int) -> MovementView {
    match state.transit {
        Some(transit) => {
            let after = advance(
                transit.waypoints,
                state.hex,
                transit.destination,
                transit.progress + gain,
            );
            MovementView {
                hex: after.hex,
                transit: if after.arrived {
                    None
                } else {
                    Some(
                        TransitView {
                            waypoints: transit.waypoints,
                            destination: after.destination,
                            progress: after.progress,
                        },
                    )
                },
                ..state
            }
        },
        None => state,
    }
}

/// The gains of several ticks, added up.
pub open spec fn total_gain(gains: Seq<int>) -> int
    decreases gains.len(),
{
    if gains.len() == 0 {
        0
    } else {
        total_gain(gains.drop_last()) + gains.last()
    }
}

/// The movement of a unit after several ticks in a row, with the gains
/// `gains`.
pub open spec fn ticked_all(state: MovementView, gains: Seq<int>) -> MovementView
    decreases gains.len(),
{
    if gains.len() == 0 {
        state
    } else {
        ticked(ticked_all(state, gains.drop_last()), gains.last())
    }
}

/// Whether a unit under way is short of completing its leg, as it is after
/// every request and every tick.
pub open spec fn settled(state: MovementView) -> bool {
    state.transit matches Some(transit) ==> 0 <= transit.progress < PROGRESS_COMPLETE
}

/// Computes the progress that a tick of `delta_micros` microseconds adds at
/// `speed`.
pub fn progress_gain(speed: Kph, delta_micros: u32) -> (gain: u64)
    ensures
        gain == gained_progress(speed, delta_micros),
{
    assert(speed * delta_micros <= 0xffff_ffff * 0xffff_ffff) by (nonlinear_arith)
        requires
            0 <= speed <= 0xffff_ffff,
            0 <= delta_micros <= 0xffff_ffff,
    ;
    speed as u64 * delta_micros as u64
}

/// Looks up the waypoint after the hex that a unit has just reached.
pub fn next_waypoint_after(path: &Path, reached: HexPosition) -> (next: Option<HexPosition>)
    ensures
        next == next_waypoint(path.waypoints@, reached),
{
    let mut i: usize = 0;
    while i < path.waypoints.len()
        invariant
            i <= path.waypoints.len(),
            forall|j: int| 0 <= j < i ==> path.waypoints@[j] != reached,
        decreases path.waypoints.len() - i,
    {
        if path.waypoints[i] == reached {
            proof {
                path.waypoints@.index_of_first_ensures(reached);
                assert(path.waypoints@.contains(reached));
            }
            if i + 1 < path.waypoints.len() {
                return Some(path.waypoints[i + 1]);
            } else {
                return None;
            }
        }
        i += 1;
    }
    proof {
        path.waypoints@.index_of_first_ensures(reached);
    }
    None
}

/// Plans the movement of a unit that stands on `position` towards
/// `destination`. Where a route exists the result is the route together
/// with the leg towards its first waypoint, not yet begun. Where none exists
/// the result is nothing, and the request is to be dropped.
pub fn calculate_path(
    grid: &HexGrid,
    position: &GamePosition,
    config: &MovementConfig,
    destination: HexPosition,
) -> (plan: Option<(Path, MovingTowards)>)
    ensures
        plan is Some <==> grid.planned_route(position.hex, destination, *config).len() > 0,
        plan matches Some((path, moving)) ==> {
            &&& path.waypoints@ == grid.planned_route(position.hex, destination, *config)
            &&& grid.is_route(position.hex, destination, path.waypoints@)
            &&& moving.destination == path.waypoints@[0]
            &&& moving.progress == PROGRESS_ZERO
        },
        !grid.connected(position.hex, destination) ==> plan is None,
{
    let path = grid.find_path(position.hex, destination, config);
    if path.len() == 0 {
        return None;
    }
    let first = path[0];
    Some((Path { waypoints: path }, MovingTowards::new(first)))
}

/// Advances a unit in transit by the progress `gain` of one tick.
///
/// Each completed leg moves the unit onto the hex it approached and carries
/// the excess into the next leg; a tick may complete several legs. The result
/// tells whether the unit completed its last leg. It then stands on the last
/// hex it approached, its path is emptied and its progress is zero: path and
/// leg are to be taken from the unit.
pub fn move_unit_along_path(
    moving: &mut MovingTowards,
    path: &mut Path,
    position: &mut GamePosition,
    gain: u64,
) -> (arrived: bool)
    ensures
        arrived == transit_after(old(moving), old(path), old(position), gain).arrived,
        final(position).hex == transit_after(old(moving), old(path), old(position), gain).hex,
        final(moving).destination == transit_after(
            old(moving),
            old(path),
            old(position),
            gain,
        ).destination,
        final(moving).progress == transit_after(
            old(moving),
            old(path),
            old(position),
            gain,
        ).progress,
        !arrived ==> final(path).waypoints@ == old(path).waypoints@,
        arrived ==> final(path).waypoints@.len() == 0,
{
    let mut total: u128 = moving.progress as u128 + gain as u128;
    let ghost after = transit_after(old(moving), old(path), old(position), gain);
    while total >= PROGRESS_COMPLETE as u128
        invariant
            after == transit_after(old(moving), old(path), old(position), gain),
            path.waypoints@ == old(path).waypoints@,
            advance(path.waypoints@, position.hex, moving.destination, total as int).hex
                == after.hex,
            advance(path.waypoints@, position.hex, moving.destination, total as int).destination
                == after.destination,
            advance(path.waypoints@, position.hex, moving.destination, total as int).progress
                == after.progress,
            advance(path.waypoints@, position.hex, moving.destination, total as int).arrived
                == after.arrived,
        decreases total,
    {
        position.hex = moving.destination;
        match next_waypoint_after(path, moving.destination) {
            Some(next) => {
                moving.destination = next;
                total = total - PROGRESS_COMPLETE as u128;
            },
            None => {
                moving.progress = PROGRESS_ZERO;
                path.waypoints.clear();
                return true;
            },
        }
    }
    moving.progress = total as u64;
    false
}

impl MovementState {
    /// Handles a request to move to `destination`. The route is planned from
    /// the hex the unit stands on. Where there is one, it replaces whatever
    /// route and leg the unit had; where there is none, the request is
    /// dropped and the unit stays as it is.
    pub fn request_move(&mut self, grid: &HexGrid, destination: HexPosition) -> (accepted: bool)
        ensures
            final(self)@ == requested(
                old(self)@,
                grid.planned_route(old(self)@.hex, destination, old(self)@.config),
            ),
            accepted == (grid.planned_route(old(self)@.hex, destination, old(self)@.config).len()
                > 0),
            accepted ==> grid.is_route(
                old(self)@.hex,
                destination,
                final(self)@.transit->0.waypoints,
            ),
            !grid.connected(old(self)@.hex, destination) ==> !accepted && final(self)@ == old(
                self,
            )@,
    {
        match calculate_path(grid, &self.position, &self.config, destination) {
            Some(plan) => {
                self.transit = Some(plan);
                true
            },
            None => false,
        }
    }

    /// Advances the unit by the progress `gain` of one tick.
    pub fn tick(&mut self, gain: u64)
        ensures
            final(self)@ == ticked(old(self)@, gain as int),
    {
        let mut transit: Option<(Path, MovingTowards)> = None;
        core::mem::swap(&mut self.transit, &mut transit);
        match transit {
            Some((mut path, mut moving)) => {
                let arrived = move_unit_along_path(
                    &mut moving,
                    &mut path,
                    &mut self.position,
                    gain,
                );
                if !arrived {
                    self.transit = Some((path, moving));
                }
            },
            None => {},
        }
    }
}

/// No movement is lost or made up at a leg boundary: while a unit is under
/// way, the legs it completed and the progress on its present leg add up to
/// the progress it had and the progress it gained. The progress it is left
/// with is short of a full leg.
pub proof fn lemma_progress_conserved(
    waypoints: Seq<HexPosition>,
    hex: HexPosition,
    destination: HexPosition,
    progress: int,
    gain: int,
)
    requires
        0 <= progress,
        0 <= gain,
    ensures
        advance(waypoints, hex, destination, progress + gain).legs >= 0,
        !advance(waypoints, hex, destination, progress + gain).arrived ==> {
            &&& advance(waypoints, hex, destination, progress + gain).legs * PROGRESS_COMPLETE
                + advance(waypoints, hex, destination, progress + gain).progress == progress
                + gain
            &&& 0 <= advance(waypoints, hex, destination, progress + gain).progress
                < PROGRESS_COMPLETE
        },
        advance(waypoints, hex, destination, progress + gain).arrived ==> {
            &&& advance(waypoints, hex, destination, progress + gain).legs * PROGRESS_COMPLETE
                <= progress + gain
            &&& advance(waypoints, hex, destination, progress + gain).progress == PROGRESS_ZERO
        },
    decreases progress + gain,
{
    let total = progress + gain;
    if total >= PROGRESS_COMPLETE {
        match next_waypoint(waypoints, destination) {
            Some(next) => {
                lemma_progress_conserved(
                    waypoints,
                    destination,
                    next,
                    total - PROGRESS_COMPLETE,
                    0,
                );
            },
            None => {},
        }
    }
}

/// How a tick is cut into updates does not matter: two updates in a row
/// leave a unit where one update with the sum of their gains leaves it, and
/// have completed as many legs.
pub proof fn lemma_updates_add_up(
    waypoints: Seq<HexPosition>,
    hex: HexPosition,
    destination: HexPosition,
    progress: int,
    first: int,
    second: int,
)
    requires
        0 <= progress,
        0 <= first,
        0 <= second,
        !advance(waypoints, hex, destination, progress + first).arrived,
    ensures
        ({
            let once = advance(waypoints, hex, destination, progress + first + second);
            let half = advance(waypoints, hex, destination, progress + first);
            let twice = advance(waypoints, half.hex, half.destination, half.progress + second);
            &&& twice.hex == once.hex
            &&& twice.destination == once.destination
            &&& twice.progress == once.progress
            &&& twice.arrived == once.arrived
            &&& half.legs + twice.legs == once.legs
        }),
    decreases progress + first,
{
    let total = progress + first;
    if total >= PROGRESS_COMPLETE {
        match next_waypoint(waypoints, destination) {
            Some(next) => {
                lemma_updates_add_up(
                    waypoints,
                    destination,
                    next,
                    total - PROGRESS_COMPLETE,
                    0,
                    second,
                );
            },
            None => {},
        }
    }
}

/// A unit that has arrived would have arrived, at the same hex, had the tick
/// been longer.
pub proof fn lemma_arrival_is_final(
    waypoints: Seq<HexPosition>,
    hex: HexPosition,
    destination: HexPosition,
    total: int,
    more: int,
)
    requires
        0 <= total,
        0 <= more,
        advance(waypoints, hex, destination, total).arrived,
    ensures
        advance(waypoints, hex, destination, total + more).arrived,
        advance(waypoints, hex, destination, total + more).hex == advance(
            waypoints,
            hex,
            destination,
            total,
        ).hex,
    decreases total,
{
    if total >= PROGRESS_COMPLETE {
        match next_waypoint(waypoints, destination) {
            Some(next) => {
                lemma_arrival_is_final(
                    waypoints,
                    destination,
                    next,
                    total - PROGRESS_COMPLETE,
                    more,
                );
            },
            None => {},
        }
    }
}

/// Two ticks in a row leave a unit as one tick with the sum of their gains
/// leaves it, whether or not the unit arrives on the way.
pub proof fn lemma_two_ticks_are_one(state: MovementView, first: int, second: int)
    requires
        0 <= first,
        0 <= second,
        state.transit matches Some(transit) ==> 0 <= transit.progress,
    ensures
        ticked(ticked(state, first), second) == ticked(state, first + second),
        settled(ticked(state, first)),
{
    match state.transit {
        Some(transit) => {
            let total = transit.progress + first;
            lemma_progress_conserved(
                transit.waypoints,
                state.hex,
                transit.destination,
                transit.progress,
                first,
            );
            if advance(transit.waypoints, state.hex, transit.destination, total).arrived {
                lemma_arrival_is_final(
                    transit.waypoints,
                    state.hex,
                    transit.destination,
                    total,
                    second,
                );
            } else {
                lemma_updates_add_up(
                    transit.waypoints,
                    state.hex,
                    transit.destination,
                    transit.progress,
                    first,
                    second,
                );
            }
        },
        None => {},
    }
}

/// Movement does not depend on how time is cut into ticks: any number of
/// ticks in a row leave a unit as one tick with the sum of their gains leaves
/// it. Nothing is lost and nothing is made up at a leg boundary or between
/// ticks.
pub proof fn lemma_ticks_add_up(state: MovementView, gains: Seq<int>)
    requires
        settled(state),
        forall|i: int| 0 <= i < gains.len() ==> gains[i] >= 0,
    ensures
        ticked_all(state, gains) == ticked(state, total_gain(gains)),
        total_gain(gains) >= 0,
        settled(ticked_all(state, gains)),
    decreases gains.len(),
{
    if gains.len() > 0 {
        let before = gains.drop_last();
        lemma_ticks_add_up(state, before);
        lemma_two_ticks_are_one(state, total_gain(before), gains.last());
        lemma_two_ticks_are_one(ticked_all(state, before), gains.last(), 0);
    }
}

/// A new order supersedes the old one: whatever route and leg a unit had,
/// after a request with a route it is on the first leg of that route, with no
/// progress, and stands where it stood.
pub proof fn lemma_request_replaces_transit(
    state: MovementView,
    other: MovementView,
    route: Seq<HexPosition>,
)
    requires
        route.len() > 0,
        state.hex == other.hex,
        state.config == other.config,
    ensures
        requested(state, route) == requested(other, route),
        requested(state, route).hex == state.hex,
        requested(state, route).transit == Some(
            TransitView { waypoints: route, destination: route[0], progress: PROGRESS_ZERO as int },
        ),
{
}

/// A unit that is idle and receives no request stays idle, and stays where
/// it is.
pub proof fn lemma_idle_stays_idle(state: MovementView, gain: int)
    requires
        state.transit is None,
    ensures
        ticked(state, gain) == state,
{
}

} // verus!
