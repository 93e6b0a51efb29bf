//! Frame selection on the player's sprite sheet: four rows of walking
//! frames, one row for each facing.
use vstd::prelude::*;
use crate::input::InputSnapshot;

verus! {

/// Number of walking frames in a row of the sprite sheet.
pub const ANIM_FRAMES: usize = 4;

/// The way the player faces, in the order of the sheet's rows.
#[derive(Clone, Copy, Debug, PartialEq, Eq, Structural)]
pub enum Facing {
    Down,
    Right,
    Left,
    Up,
}

impl Facing {
    /// Row of the sprite sheet that shows this facing.
    pub open spec fn row(self) -> nat {
        match self {
            Facing::Down => 0,
            Facing::Right => 1,
            Facing::Left => 2,
            Facing::Up => 3,
        }
    }

    /// Index of the first frame of this facing's row.
    pub fn first_frame(self) -> (index: usize)
        ensures
            index == ANIM_FRAMES * self.row(),
    {
        match self {
            Facing::Down => 0,
            Facing::Right => ANIM_FRAMES,
            Facing::Left => 2 * ANIM_FRAMES,
            Facing::Up => 3 * ANIM_FRAMES,
        }
    }
}

/// The facing that a set of keys selects: down before right, right before
/// left, left before up.
pub open spec fn facing_of(keys: InputSnapshot) -> Option<Facing> {
    if keys.down {
        Some(Facing::Down)
    } else if keys.right {
        Some(Facing::Right)
    } else if keys.left {
        Some(Facing::Left)
    } else if keys.up {
        Some(Facing::Up)
    } else {
        None
    }
}

/// Frame shown after a tick. A key that was just released puts the sprite on
/// the first frame of its row; after that a held key, if the frame timer has
/// run out, steps to the next frame of its own row.
pub open spec fn next_frame_of(
    index: usize,
    released: InputSnapshot,
    held: InputSnapshot,
    timer_finished: bool,
) -> int {
    let rested = match facing_of(released) {
        Some(f) => (ANIM_FRAMES * f.row()) as int,
        None => index as int,
    };
    match facing_of(held) {
        Some(f) if timer_finished => (rested + 1) % (ANIM_FRAMES as int) + ANIM_FRAMES * f.row(),
        _ => rested,
    }
}

/// The facing that a set of keys selects.
pub fn facing(keys: InputSnapshot) -> (f: Option<Facing>)
    ensures
        f == facing_of(keys),
{
    if keys.down {
        Some(Facing::Down)
    } else if keys.right {
        Some(Facing::Right)
    } else if keys.left {
        Some(Facing::Left)
    } else if keys.up {
        Some(Facing::Up)
    } else {
        None
    }
}

/// Frame of the player's sprite after a tick.
pub fn next_frame(
    index: usize,
    released: InputSnapshot,
    held: InputSnapshot,
    timer_finished: bool,
) -> (next: usize)
    ensures
        next == next_frame_of(index, released, held, timer_finished),
{
    let rested: usize = match facing(released) {
        Some(f) => f.first_frame(),
        None => index,
    };
    match facing(held) {
        Some(f) => {
            if timer_finished {
                let within: usize = rested % ANIM_FRAMES;
                let stepped: usize = if within == ANIM_FRAMES - 1 {
                    0
                } else {
                    within + 1
                };
                stepped + f.first_frame()
            } else {
                rested
            }
        },
        None => rested,
    }
}

/// A step of the animation lands in the row of the held facing.
pub proof fn lemma_step_stays_in_row(index: usize, released: InputSnapshot, held: InputSnapshot)
    requires
        facing_of(held).is_some(),
    ensures
        ANIM_FRAMES * facing_of(held).unwrap().row() <= next_frame_of(index, released, held, true)
            < ANIM_FRAMES * (facing_of(held).unwrap().row() + 1),
{
}

} // verus!
