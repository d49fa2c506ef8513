//! Projection of a pointer coordinate onto the container's axis.
//!
//! The presentation layer measures the container afresh on every pointer
//! move (layout can reflow between moves) and hands the engine the measured
//! rectangle projected onto the active axis: its start and its length, in the
//! same integer coordinate space as the pointer (typically whole pixels).
//! The resolver turns a coordinate into a fixed-point offset along the
//! container. It is a pure, context-free projection: a coordinate outside
//! the container maps to an offset outside `[0, TOTAL]` and is not clamped
//! here — the drag window check is what rejects it.

use vstd::arithmetic::div_mod::lemma_div_nonincreasing;
use vstd::prelude::*;

use crate::redistribute::TOTAL;

verus! {

/// A container's rectangle projected onto the active axis: left and width
/// for a row split, top and height for a column split.
#[derive(Clone, Copy, Debug, PartialEq, Eq, Structural)]
pub struct ContainerBounds {
    /// Where the container starts along the axis.
    pub origin_axis: i32,
    /// The container's measured length along the axis.
    pub length_axis: i32,
}

/// Whether the bounds are degenerate: a container without a measured,
/// positive length (not laid out yet) supports no projection, and a move
/// against such bounds is skipped without touching the layout.
pub open spec fn degenerate(bounds: ContainerBounds) -> bool {
    bounds.length_axis <= 0
}

/// Where a coordinate falls along the container, in fixed-point units of the
/// container's length: `(coord - origin) * TOTAL / length`, rounded towards
/// zero.
pub open spec fn axis_units(coord: int, origin: int, length: int) -> int
    recommends
        0 < length,
{
    if origin <= coord {
        ((coord - origin) * (TOTAL as int)) / length
    } else {
        -(((origin - coord) * (TOTAL as int)) / length)
    }
}

/// Projects a pointer coordinate onto the container's axis: the fixed-point
/// offset, within the container or beyond it, that the pointer aims at.
pub fn to_axis_percentage(coord: i32, bounds: &ContainerBounds) -> (r: i64)
    requires
        !degenerate(*bounds),
    ensures
        r == axis_units(coord as int, bounds.origin_axis as int, bounds.length_axis as int),
{
    let length = bounds.length_axis as u64;
    if coord >= bounds.origin_axis {
        let diff = (coord as i64 - bounds.origin_axis as i64) as u64;
        assert(diff <= 0xffff_ffff);
        let scaled = diff * (TOTAL as u64);
        proof {
            lemma_div_nonincreasing(scaled as int, length as int);
        }
        assert(scaled / length <= scaled <= 0xffff_ffff * (TOTAL as u64));
        (scaled / length) as i64
    } else {
        let diff = (bounds.origin_axis as i64 - coord as i64) as u64;
        assert(diff <= 0x1_0000_0000);
        assert(diff * (TOTAL as u64) <= 0x1_0000_0000 * (TOTAL as u64)) by (nonlinear_arith)
            requires
                diff <= 0x1_0000_0000,
                TOTAL == 10000,
        ;
        let scaled = diff * (TOTAL as u64);
        proof {
            lemma_div_nonincreasing(scaled as int, length as int);
        }
        assert(scaled / length <= scaled <= 0x1_0000_0000 * (TOTAL as u64));
        -((scaled / length) as i64)
    }
}

} // verus!
