//! Live terminal dashboard for GPU telemetry.
//!
//! The library holds everything that can be stated and proved: the telemetry
//! snapshot model with its per-field fallback rules, the deterministic mock
//! data used when no hardware interface is available, the frame layout and
//! label computation for the renderer, and the lifecycle state machine that
//! drives the poll/render loop. Terminal control and signal handling live
//! outside the library, in the surrounding binary.

pub mod data;
pub mod lifecycle;
pub mod render;
pub mod text;

use vstd::prelude::*;

verus! {

/// Percentage values shown by a gauge are always kept within [0, 100].
pub open spec fn valid_percent(p: u8) -> bool {
    p <= 100
}

/// A percentage forced into the displayable range [0, 100]: out-of-range
/// input becomes 100, in-range input passes through unchanged.
pub open spec fn spec_clamp_percent(p: u8) -> u8 {
    if p > 100 {
        100u8
    } else {
        p
    }
}

/// Clamp an arbitrary percentage into the displayable range [0, 100].
pub fn clamp_percent(p: u8) -> (r: u8)
    ensures
        r == spec_clamp_percent(p),
        valid_percent(r),
        p <= 100 ==> r == p,
        p > 100 ==> r == 100,
{
    if p > 100 {
        100
    } else {
        p
    }
}

} // verus!
