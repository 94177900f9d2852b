//! Game rules of a brick-breaking game that can be stated without floating
//! point: which entity a collision removes, what a power-up does, how the
//! arrow keys steer the platform, which block rows the board starts with, and
//! the triangle fan of the octagon mesh.

use vstd::prelude::*;

pub mod ball_plugin;
pub mod block_plugin;
pub mod collider_plugin;
pub mod octagon;
pub mod platform_plugin;
pub mod powerup_plugin;

verus! {

} // verus!
