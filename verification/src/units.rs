//! The fixed-point scale shared by coordinates, colours and offsets.

use vstd::prelude::*;

verus! {

/// How many units make 1.0. A value `v` stands for the real number
/// `v / UNITS_PER_ONE`.
pub const UNITS_PER_ONE: i32 = 10_000;

} // verus!
