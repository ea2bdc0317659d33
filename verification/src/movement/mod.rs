//! Movement data: how a unit moves, where it stands, and the leg it is on.

pub mod path_finding;

use vstd::prelude::*;

use crate::map::{HexPosition, HEX_RADIUS_IN_METERS};

verus! {

/// Speed in kilometres per hour.
pub type Kph = u32;

/// The scale on which a unit travels.
#[derive(Debug, Clone, Copy, PartialEq, Eq, Structural)]
pub enum MovementMode {
    Tactical,
    Strategic,
}

/// How a unit is set to move; an input to route cost and to speed.
#[derive(Debug, Clone, Copy)]
pub struct MovementConfig {
    pub mode: MovementMode,
}

/// The planned route of a unit: the hexes still to enter, in order. The hex
/// that the unit stood on when the route was planned is not part of it.
#[derive(Debug)]
pub struct Path {
    pub waypoints: Vec<HexPosition>,
}

/// The hex a unit stands on. It changes only when a leg is completed.
#[derive(Debug)]
pub struct GamePosition {
    pub hex: HexPosition,
}

/// A request to move one unit to a destination.
#[derive(Debug)]
pub struct MoveUnitEvent {
    /// The identifier of the unit.
    pub unit: u64,
    pub destination: HexPosition,
}

/// Progress of a leg that has just begun.
pub const PROGRESS_ZERO: u64 = 0;

/// Progress at which a leg is complete: one hundred percent of a hex.
///
/// Progress is a whole number of steps, `PROGRESS_PER_METER` of them to a
/// metre. On this scale a unit at one kilometre per hour gains exactly one
/// step in a microsecond, so no fraction of a tick's movement is ever rounded
/// away. Divide by `PROGRESS_COMPLETE` for the part of the hex covered.
pub const PROGRESS_COMPLETE: u64 = HEX_RADIUS_IN_METERS * PROGRESS_PER_METER;

/// Steps of progress in one metre: the game clock runs sixty times as fast as
/// the wall clock, and a unit at one kilometre per hour of game time covers a
/// metre in sixty thousand microseconds of play.
pub const PROGRESS_PER_METER: u64 = 60_000;

/// The leg a unit is on: the hex it approaches and how far it has come.
#[derive(Debug)]
pub struct MovingTowards {
    pub destination: HexPosition,
    pub progress: u64,
}

impl MovingTowards {
    /// The start of a leg towards `destination`.
    pub fn new(destination: HexPosition) -> (moving: Self)
        ensures
            moving.destination == destination,
            moving.progress == PROGRESS_ZERO,
    {
        Self { destination, progress: PROGRESS_ZERO }
    }
}

/// All that the movement of one unit consists of: where it stands, how it is
/// set to move, and, while it is under way, its route and its present leg.
/// A unit without route and leg is idle.
#[derive(Debug)]
pub struct MovementState {
    pub position: GamePosition,
    pub config: MovementConfig,
    pub transit: Option<(Path, MovingTowards)>,
}

/// Route and leg of a unit under way, as values of the model.
pub struct TransitView {
    pub waypoints: Seq<HexPosition>,
    pub destination: HexPosition,
    pub progress: int,
}

/// The movement of one unit, as a value of the model.
pub struct MovementView {
    pub hex: HexPosition,
    pub config: MovementConfig,
    pub transit: Option<TransitView>,
}

impl View for MovementState {
    type V = MovementView;

    open spec fn view(&self) -> MovementView {
        MovementView {
            hex: self.position.hex,
            config: self.config,
            transit: match self.transit {
                Some((path, moving)) => Some(
                    TransitView {
                        waypoints: path.waypoints@,
                        destination: moving.destination,
                        progress: moving.progress as int,
                    },
                ),
                None => None,
            },
        }
    }
}

impl MovementState {
    /// An idle unit that stands on `hex`.
    pub fn new(hex: HexPosition, config: MovementConfig) -> (state: Self)
        ensures
            state@.hex == hex,
            state@.config == config,
            state@.transit is None,
    {
        MovementState { position: GamePosition { hex }, config, transit: None }
    }

    /// Tests whether the unit has neither route nor leg.
    pub fn is_idle(&self) -> (idle: bool)
        ensures
            idle == (self@.transit is None),
    {
        self.transit.is_none()
    }
}

} // verus!
