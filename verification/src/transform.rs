//! The transform handed to the vertex stage of the textured quad.

use crate::units::UNITS_PER_ONE;
use vstd::prelude::*;

verus! {

/// A 4x4 matrix of fixed-point entries, stored column by column: `m[c][r]` is
/// the entry in column `c`, row `r`.
pub type Matrix4 = [[i32; 4]; 4];

/// Entry `(column, row)` of the matrix that moves a point by `t` along the x
/// axis: the identity, but for the x entry of the last column, which is `t`.
pub open spec fn translation_entry(t: int, column: int, row: int) -> int {
    if column == 3 && row == 0 {
        t
    } else if column == row {
        UNITS_PER_ONE as int
    } else {
        0
    }
}

/// `m` is the translation by `t` along the x axis.
pub open spec fn is_translation(m: Matrix4, t: int) -> bool {
    forall|column: int, row: int|
        0 <= column < 4 && 0 <= row < 4 ==> (#[trigger] m[column][row]) == translation_entry(
            t,
            column,
            row,
        )
}

/// Builds the translation by `t` along the x axis.
pub fn translation(t: i32) -> (m: Matrix4)
    ensures
        is_translation(m, t as int),
{
    [
        [UNITS_PER_ONE, 0, 0, 0],
        [0, UNITS_PER_ONE, 0, 0],
        [0, 0, UNITS_PER_ONE, 0],
        [t, 0, 0, UNITS_PER_ONE],
    ]
}

} // verus!
