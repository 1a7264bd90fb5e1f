//! Randomized placement for newly spawned bodies.
//!
//! The only trusted call is the raw draw from the thread-local generator;
//! everything derived from it — the reduction to the coordinate grid and
//! the placement inside the randomization volume — is verified for every
//! value the draw can produce.

use vstd::prelude::*;

use crate::body::Position;
use crate::body::in_horizontal_range;
use crate::body::in_vertical_range;
use crate::body::position_in_spawn_range;

verus! {

/// Steps of the coordinate grid across the randomization span: the span is
/// 100 world units, the grid is hundredths of a unit.
pub const COORD_STEPS: u32 = 10000;

/// Relies on rand::random: one draw from the thread-local generator.
/// Nothing is promised of the value; every caller must handle every
/// outcome.
#[verifier::external_body]
fn random_u32() -> u32 {
    rand::random::<u32>()
}

/// Draw an offset on the coordinate grid, anywhere in [0, COORD_STEPS],
/// both ends included.
pub fn random_offset() -> (r: u32)
    ensures
        r <= COORD_STEPS,
{
    random_u32() % (COORD_STEPS + 1)
}

/// Draw one horizontal coordinate of a spawn position, in hundredths of a
/// world unit: anywhere in [-50, 50] world units.
pub fn random_horizontal() -> (c: i32)
    ensures
        in_horizontal_range(c as int),
{
    let off: u32 = random_offset();
    -5000 + off as i32
}

/// Draw the vertical coordinate of a spawn position, in hundredths of a
/// world unit: anywhere in [20, 120] world units.
pub fn random_vertical() -> (c: i32)
    ensures
        in_vertical_range(c as int),
{
    let off: u32 = random_offset();
    2000 + off as i32
}

/// Draw a spawn position inside the randomization volume.
pub fn random_spawn_position() -> (p: Position)
    ensures
        position_in_spawn_range(p),
{
    Position { x: random_horizontal(), y: random_vertical(), z: random_horizontal() }
}

} // verus!
