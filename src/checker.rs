use vstd::prelude::*;

verus! {

/// The two shades of the checkerboard floor.
#[derive(Clone, Copy, Debug, PartialEq, Eq, Structural)]
pub enum Tile {
    /// Cells whose coordinate sum is odd.
    Gray,
    /// Cells whose coordinate sum is even.
    Brown,
}

/// Whether an integer is odd (the remainder is Euclidean, so this holds for
/// negative numbers too).
pub open spec fn is_odd(n: int) -> bool {
    n % 2 == 1
}

/// The tile of the checkerboard cell with integer coordinates `(cx, cz)`,
/// obtained by truncating the half-scaled hit coordinates.
pub fn checker_tile(cx: isize, cz: isize) -> (r: Tile)
    ensures
        r == (if is_odd(cx + cz) { Tile::Gray } else { Tile::Brown }),
{
    let sum: i128 = cx as i128 + cz as i128;
    if sum % 2 != 0 {
        Tile::Gray
    } else {
        Tile::Brown
    }
}

} // verus!
