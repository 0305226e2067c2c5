//! Placement of a secondary window over a base rectangle.

use vstd::prelude::*;

verus! {

/// Half of `d`, rounded towards zero.
pub open spec fn half(d: int) -> int {
    if d >= 0 {
        d / 2
    } else {
        -((-d) / 2)
    }
}

/// Where a span of `target` pixels starts so that it is centred on a span of
/// `base` pixels that starts at `origin`; never left of zero.
pub open spec fn centered(origin: int, base: int, target: int) -> int {
    let start = origin + half(base - target);
    if start < 0 {
        0
    } else {
        start
    }
}

/// The start is a screen coordinate.
pub open spec fn in_range(origin: int, base: int, target: int) -> bool {
    centered(origin, base, target) <= i32::MAX
}

/// Tells whether the centred start is a screen coordinate, that is, whether
/// [`centered_start`] may be called.
pub fn fits_screen(origin: i32, base: u32, target: u32) -> (fits: bool)
    ensures
        fits == in_range(origin as int, base as int, target as int),
{
    let difference: i64 = base as i64 - target as i64;
    let offset: i64 = if difference >= 0 {
        difference / 2
    } else {
        -((-difference) / 2)
    };
    origin as i64 + offset <= i32::MAX as i64
}

/// Centres a span of `target` pixels on a span of `base` pixels that starts
/// at `origin`, and keeps it from starting left of zero.
pub fn centered_start(origin: i32, base: u32, target: u32) -> (start: i32)
    requires
        in_range(origin as int, base as int, target as int),
    ensures
        start == centered(origin as int, base as int, target as int),
{
    let difference: i64 = base as i64 - target as i64;
    let offset: i64 = if difference >= 0 {
        difference / 2
    } else {
        -((-difference) / 2)
    };
    let start: i64 = origin as i64 + offset;
    if start < 0 {
        0
    } else {
        start as i32
    }
}

/// The top-left corner at which a window of `target_size` is centred on the
/// rectangle at `base_position` with `base_size`, kept on the non-negative
/// side of both axes. Sizes are width and height, positions are x and y.
pub fn centered_position(base_position: (i32, i32), base_size: (u32, u32), target_size: (
    u32,
    u32,
)) -> (position: (i32, i32))
    requires
        in_range(base_position.0 as int, base_size.0 as int, target_size.0 as int),
        in_range(base_position.1 as int, base_size.1 as int, target_size.1 as int),
    ensures
        position.0 == centered(base_position.0 as int, base_size.0 as int, target_size.0 as int),
        position.1 == centered(base_position.1 as int, base_size.1 as int, target_size.1 as int),
{
    (
        centered_start(base_position.0, base_size.0, target_size.0),
        centered_start(base_position.1, base_size.1, target_size.1),
    )
}

} // verus!
