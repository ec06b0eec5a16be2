//! Food placement: a pseudo-random cell strictly inside the playfield, kept
//! at least ten cells away from the far border so it stays reachable and
//! visible. No check is made against the snake's body: food may appear under
//! a segment, and the player simply picks it up in passing.

use vstd::prelude::*;

verus! {

/// Whether `f` lies in the region where food may appear on a playfield of
/// the given interior size: inside the border ring, and clear of the ten
/// cells nearest the far border in each axis.
pub open spec fn in_food_range(f: (u16, u16), width: u16, height: u16) -> bool {
    1 <= f.0 <= width - 10 && 1 <= f.1 <= height - 10
}

/// Relies on rand::random: a pseudo-random `u16`. Nothing is promised of the
/// value.
#[verifier::external_body]
fn random_u16() -> (r: u16) {
    rand::random::<u16>()
}

/// Folds a pair of raw random values into a food cell: each value is reduced
/// modulo the dimension less ten and offset by one, which lands the cell in
/// the food region whatever the raw values were.
pub fn food_from_random(rx: u16, ry: u16, width: u16, height: u16) -> (f: (u16, u16))
    requires
        width > 10,
        height > 10,
    ensures
        f.0 == rx % ((width - 10) as u16) + 1,
        f.1 == ry % ((height - 10) as u16) + 1,
        in_food_range(f, width, height),
{
    (rx % (width - 10) + 1, ry % (height - 10) + 1)
}

/// Draws a fresh food cell. The cell always lies in the food region; which
/// cell comes out is up to the random source.
pub fn spawn_food(width: u16, height: u16) -> (f: (u16, u16))
    requires
        width > 10,
        height > 10,
    ensures
        in_food_range(f, width, height),
{
    let rx: u16 = random_u16();
    let ry: u16 = random_u16();
    food_from_random(rx, ry, width, height)
}

} // verus!
