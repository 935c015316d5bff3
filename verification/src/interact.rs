//! Pan and zoom arithmetic: whole-pixel points, the drag-to-offset mapping,
//! and the additive, clamped zoom scale.
//!
//! Scale factors are carried in hundredths of the display factor, so a value
//! of 100 means no magnification. The host converts to its own fractional
//! scale at the boundary.

use vstd::prelude::*;

verus! {

/// Smallest allowed scale, in hundredths: a factor of 0.25.
pub const SCALE_MIN: i64 = 25;

/// Largest allowed scale, in hundredths: a factor of 20.
pub const SCALE_MAX: i64 = 2000;

/// Scale of a fresh preview, in hundredths: a factor of 1.
pub const SCALE_DEFAULT: i64 = 100;

/// A point in whole pixels, as pointer events report them.
#[derive(Clone, Copy, Debug, PartialEq, Eq, Structural)]
pub struct PixelPoint {
    pub x: i64,
    pub y: i64,
}

/// The scale that a wheel step of `delta` reaches from `scale`:
/// the sum, clamped to [SCALE_MIN, SCALE_MAX].
pub open spec fn clamped_scale(v: int) -> int {
    if v < SCALE_MIN as int {
        SCALE_MIN as int
    } else if v > SCALE_MAX as int {
        SCALE_MAX as int
    } else {
        v
    }
}

/// Adds a wheel step to the scale and clamps, for every `delta`.
pub fn apply_scale_delta(scale: i64, delta: i64) -> (r: i64)
    requires
        SCALE_MIN <= scale <= SCALE_MAX,
    ensures
        r == clamped_scale(scale + delta),
{
    if delta > SCALE_MAX {
        SCALE_MAX
    } else if delta < -SCALE_MAX {
        SCALE_MIN
    } else {
        let summed: i64 = scale + delta;
        if summed < SCALE_MIN {
            SCALE_MIN
        } else if summed > SCALE_MAX {
            SCALE_MAX
        } else {
            summed
        }
    }
}

/// Whatever the wheel step, the clamped scale stays within
/// [SCALE_MIN, SCALE_MAX] inclusive.
pub proof fn law_scale_stays_in_bounds(scale: int, delta: int)
    ensures
        SCALE_MIN <= clamped_scale(scale + delta) <= SCALE_MAX,
{
}

/// The pan offset that a drag-move event produces: the offset held when the
/// drag began, plus the pointer's travel from the drag anchor, measured from
/// the panel's origin. Each component is `base + position - origin - anchor`.
pub open spec fn dragged_offset_x(
    base: PixelPoint,
    position: PixelPoint,
    origin: PixelPoint,
    anchor: PixelPoint,
) -> int {
    base.x + position.x - origin.x - anchor.x
}

/// The vertical component of the same mapping.
pub open spec fn dragged_offset_y(
    base: PixelPoint,
    position: PixelPoint,
    origin: PixelPoint,
    anchor: PixelPoint,
) -> int {
    base.y + position.y - origin.y - anchor.y
}

/// Computes the pan offset for a drag-move event.
pub fn dragged_offset(
    base: PixelPoint,
    position: PixelPoint,
    origin: PixelPoint,
    anchor: PixelPoint,
) -> (r: PixelPoint)
    requires
        i64::MIN <= dragged_offset_x(base, position, origin, anchor) <= i64::MAX,
        i64::MIN <= dragged_offset_y(base, position, origin, anchor) <= i64::MAX,
    ensures
        r.x == dragged_offset_x(base, position, origin, anchor),
        r.y == dragged_offset_y(base, position, origin, anchor),
{
    let x_wide: i128 = base.x as i128 + position.x as i128 - origin.x as i128 - anchor.x as i128;
    let y_wide: i128 = base.y as i128 + position.y as i128 - origin.y as i128 - anchor.y as i128;
    PixelPoint { x: x_wide as i64, y: y_wide as i64 }
}

} // verus!
