//! Directional input and the displacement it selects.
use vstd::prelude::*;
use crate::geometry::{Point, PLAYER_SPEED};

verus! {

/// Which of the four directional keys are held during a tick.
#[derive(Clone, Copy, Debug, PartialEq, Eq, Structural)]
pub struct InputSnapshot {
    pub up: bool,
    pub down: bool,
    pub left: bool,
    pub right: bool,
}

/// Distance covered in `elapsed_ms` milliseconds, in whole world units.
pub open spec fn displacement_of(elapsed_ms: int) -> int {
    (PLAYER_SPEED as int * elapsed_ms) / 1000
}

/// Velocity for a tick. The keys are evaluated in the order up, down, left,
/// right; each held key sets its own axis and zeroes the other, so the key
/// evaluated last decides.
pub open spec fn velocity_of(input: InputSnapshot, displacement: int) -> (int, int) {
    if input.right {
        (displacement, 0)
    } else if input.left {
        (-displacement, 0)
    } else if input.down {
        (0, -displacement)
    } else if input.up {
        (0, displacement)
    } else {
        (0, 0)
    }
}

/// Distance covered in `elapsed_ms` milliseconds at the player's speed.
pub fn displacement(elapsed_ms: u32) -> (d: i64)
    ensures
        d == displacement_of(elapsed_ms as int),
        0 <= d <= 2_061_584_301,
{
    let scaled: u64 = (PLAYER_SPEED as u64) * (elapsed_ms as u64);
    (scaled / 1000) as i64
}

/// Velocity selected by `input` for a tick that covers `displacement`.
pub fn velocity(input: InputSnapshot, displacement: i64) -> (v: Point)
    requires
        displacement > i64::MIN,
    ensures
        (v.x as int, v.y as int) == velocity_of(input, displacement as int),
{
    let mut v = Point { x: 0, y: 0 };
    if input.up {
        v = Point { x: 0, y: displacement };
    }
    if input.down {
        v = Point { x: 0, y: -displacement };
    }
    if input.left {
        v = Point { x: -displacement, y: 0 };
    }
    if input.right {
        v = Point { x: displacement, y: 0 };
    }
    v
}

/// With down held and neither left nor right, the player moves down by the
/// full displacement whether or not up is held as well.
pub proof fn lemma_down_overrides_up(input: InputSnapshot, displacement: int)
    requires
        input.down,
        !input.left,
        !input.right,
    ensures
        velocity_of(input, displacement) == (0int, -displacement),
        velocity_of(input, displacement) == velocity_of(
            InputSnapshot { up: !input.up, ..input },
            displacement,
        ),
{
}

/// At most one axis of the velocity is non-zero, and it is never longer than
/// the displacement.
pub proof fn lemma_axis_exclusive(input: InputSnapshot, displacement: int)
    requires
        0 <= displacement,
    ensures
        velocity_of(input, displacement).0 == 0 || velocity_of(input, displacement).1 == 0,
        -displacement <= velocity_of(input, displacement).0 <= displacement,
        -displacement <= velocity_of(input, displacement).1 <= displacement,
{
}

} // verus!
