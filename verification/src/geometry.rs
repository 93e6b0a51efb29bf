//! World and screen dimensions shared by every system.
use vstd::prelude::*;

verus! {

/// Side of the square bounding box of the player and of every trigger tile.
pub const TRIGGER_BOX: u32 = 32;

/// Player speed in world units per second.
pub const PLAYER_SPEED: u32 = 480;

/// Depth at which the gameplay camera is kept.
pub const CAMERA_Z_VALUE: i64 = 100;

/// Conceptual cap on a creature's level; recorded in generated statistics.
pub const MAX_LEVEL: u32 = 10;

/// A position, or a displacement, in whole world units.
#[derive(Clone, Copy, Debug, PartialEq, Eq, Structural)]
pub struct Point {
    pub x: i64,
    pub y: i64,
}

/// Width and height of a box in world units.
#[derive(Clone, Copy, Debug, PartialEq, Eq, Structural)]
pub struct Extent {
    pub width: u32,
    pub height: u32,
}

/// Screen-related dimensions, supplied by the embedding game.
#[derive(Clone, Copy, Debug, PartialEq, Eq, Structural)]
pub struct Geometry {
    pub screen_width: u32,
    pub screen_height: u32,
    pub tile_size: u32,
}

/// Whether `v` is representable as a coordinate.
pub open spec fn is_coord(v: int) -> bool {
    i64::MIN <= v <= i64::MAX
}

impl Extent {
    /// The box of the player and of every trigger tile.
    pub fn trigger_box() -> (e: Extent)
        ensures
            e == (Extent { width: TRIGGER_BOX, height: TRIGGER_BOX }),
    {
        Extent { width: TRIGGER_BOX, height: TRIGGER_BOX }
    }
}

} // verus!
