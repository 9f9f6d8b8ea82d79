//! Fixed-point quantities: lengths in units of a millionth of a grid cell.

use vstd::prelude::*;

verus! {

/// Units in one grid cell.
pub const CELL: i64 = 1_000_000;

/// Greatest magnitude that a velocity component carries, in units per tick.
/// Growth stops here, as it must somewhere in a bounded representation.
pub const SPEED_LIMIT: i64 = 1_000_000_000_000_000;

/// Each tick multiplies a velocity component by the growth factor,
/// `GROWTH_NUMERATOR / GROWTH_DENOMINATOR`.
pub const GROWTH_NUMERATOR: i64 = 1001;

/// The growth factor's denominator.
pub const GROWTH_DENOMINATOR: i64 = 1000;

/// The absolute value of `c`.
pub open spec fn magnitude(c: int) -> int {
    if c < 0 {
        -c
    } else {
        c
    }
}

/// The least whole magnitude that is not below `m` times the growth factor.
pub open spec fn scaled_up(m: int) -> int {
    (m * GROWTH_NUMERATOR + GROWTH_DENOMINATOR - 1) / (GROWTH_DENOMINATOR as int)
}

/// A velocity component after one tick of growth: the sign is kept, the magnitude
/// is multiplied by the growth factor, rounded away from zero, and held at
/// `SPEED_LIMIT`.
pub open spec fn grown(c: int) -> int {
    let m = scaled_up(magnitude(c));
    let held = if m > SPEED_LIMIT {
        SPEED_LIMIT as int
    } else {
        m
    };
    if c < 0 {
        -held
    } else {
        held
    }
}

/// The length of `n` whole cells.
pub open spec fn span(n: int) -> int {
    n * CELL
}

/// The grid index of the cell that holds coordinate `x`.
pub open spec fn cell_index(x: int) -> int {
    x / (CELL as int)
}

/// The absolute value of `c`.
pub fn abs_of(c: i64) -> (m: i64)
    requires
        c > i64::MIN,
    ensures
        m == magnitude(c as int),
{
    if c < 0 {
        -c
    } else {
        c
    }
}

/// One tick of growth of a velocity component.
pub fn grow(c: i64) -> (g: i64)
    requires
        magnitude(c as int) <= SPEED_LIMIT,
    ensures
        g == grown(c as int),
        magnitude(g as int) <= SPEED_LIMIT,
{
    let m: i64 = abs_of(c);
    let raised: i64 = m + (m + (GROWTH_DENOMINATOR - 1)) / GROWTH_DENOMINATOR;
    assert(raised == scaled_up(m as int));
    let held: i64 = if raised > SPEED_LIMIT {
        SPEED_LIMIT
    } else {
        raised
    };
    if c < 0 {
        -held
    } else {
        held
    }
}

/// The coordinate of the left (or upper) edge of cell `n`.
pub fn cells(n: u16) -> (x: i64)
    ensures
        x == span(n as int),
        0 <= x <= span(u16::MAX as int),
{
    (n as i64) * CELL
}

/// The cell that holds coordinate `x`: `x` rounded down to a whole cell.
pub fn cell_of(x: i64) -> (n: u16)
    requires
        0 <= x <= span(u16::MAX as int),
    ensures
        n == cell_index(x as int),
        span(n as int) <= x < span(n as int) + CELL,
{
    (x / CELL) as u16
}

} // verus!
