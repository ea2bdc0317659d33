//! Unit movement on a hexagonal grid: hex coordinates, the grid and its path
//! queries, the per-tick movement of units along a path, and the selection and
//! order pipeline that turns player intent into movement requests.

pub mod game_actions;
pub mod hex;
pub mod map;
pub mod movement;
pub mod pipeline;
pub mod resources;
pub mod time;
pub mod unit_managment;
pub mod units;
