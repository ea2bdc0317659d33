//! What the player can ask for with keyboard and mouse.

use vstd::prelude::*;

verus! {

/// An action bound to a key or a mouse button.
#[derive(PartialEq, Eq, Clone, Copy, Hash, Debug, Structural)]
pub enum GameActions {
    MoveUp,
    MoveDown,
    MoveLeft,
    MoveRight,
    ZoomIn,
    ZoomOut,
    Select,
}

} // verus!
