//! Linear fade from opaque to transparent near the top of the window.
//!
//! Opacity is an integer from 0 (transparent) to `OPAQUE`.
use vstd::prelude::*;

verus! {

/// Full opacity.
pub const OPAQUE: u32 = 1000;

/// Opacity at height `y` of a window of height `window_height` whose top
/// `fade_height` fades out linearly, rounded down.
pub open spec fn fade_alpha(y: int, window_height: int, fade_height: int) -> int {
    if fade_height <= 0 {
        if y < window_height {
            OPAQUE as int
        } else {
            0
        }
    } else if y <= window_height - fade_height {
        OPAQUE as int
    } else if y >= window_height {
        0
    } else {
        (window_height - y) * OPAQUE as int / fade_height
    }
}

/// Calculates the opacity at `y_position`: opaque up to the fade region,
/// transparent from the top of the window on, and a linear ramp between.
pub fn calculate_fade_alpha(y_position: i64, window_height: i64, fade_height: i64) -> (a: u32)
    ensures
        a == fade_alpha(y_position as int, window_height as int, fade_height as int),
        a <= OPAQUE,
{
    if fade_height <= 0 {
        return if y_position < window_height {
            OPAQUE
        } else {
            0
        };
    }
    let y = y_position as i128;
    let top = window_height as i128;
    let fade = fade_height as i128;
    if y <= top - fade {
        return OPAQUE;
    }
    if y >= top {
        return 0;
    }
    let remaining: i128 = top - y;
    assert(0 < remaining < fade);
    assert(0 <= remaining * 1000 < fade * 1000) by (nonlinear_arith)
        requires
            0 < remaining < fade,
    ;
    let a: i128 = remaining * OPAQUE as i128 / fade;
    assert(a <= 1000) by (nonlinear_arith)
        requires
            a == remaining as int * 1000 / fade as int,
            0 < remaining < fade,
    ;
    a as u32
}

} // verus!
