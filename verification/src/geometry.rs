//! Aspect-correct target grid sizing, computed once before playback starts.
//!
//! The grid height is the terminal's row count; the width is the height
//! scaled by the source picture's aspect ratio and corrected for the shape of
//! a terminal character cell, which is taller than it is wide by the fixed
//! ratio 2.6 : 1 (as the exact rational 13/5). All arithmetic is exact over
//! integers: the width is the rounded value of
//! `height * (src_width / src_height) * (13 / 5)`.

use vstd::prelude::*;

verus! {

/// The character-cell height:width ratio 2.6, as the rational 13/5.
pub const CHAR_ASPECT_NUM: u64 = 13;

pub const CHAR_ASPECT_DEN: u64 = 5;

/// `num / den` rounded to the nearest integer, halves rounding up.
pub open spec fn spec_round_div(num: int, den: int) -> int {
    (2 * num + den) / (2 * den)
}

/// The target grid width for a terminal `rows` lines tall showing a source
/// picture of `src_w` by `src_h` pixels.
pub open spec fn spec_grid_width(rows: int, src_w: int, src_h: int) -> int {
    spec_round_div(13 * rows * src_w, 5 * src_h)
}

/// The rounded quotient is the integer nearest to `num / den`: it is off by
/// at most half of `den`, and a remainder of exactly half rounds up.
pub proof fn lemma_round_div_nearest(num: int, den: int)
    requires
        den > 0,
        num >= 0,
    ensures
        2 * den * spec_round_div(num, den) - den <= 2 * num,
        2 * num < 2 * den * spec_round_div(num, den) + den,
{
    let q = (2 * num + den) / (2 * den);
    assert(2 * den * q <= 2 * num + den < 2 * den * (q + 1)) by (nonlinear_arith)
        requires
            den > 0,
            num >= 0,
            q == (2 * num + den) / (2 * den),
    ;
    assert(2 * den * (q + 1) == 2 * den * q + 2 * den) by (nonlinear_arith);
}

/// Failure to derive a positive target size from the terminal and source
/// dimensions: a startup misconfiguration, not a playback error.
#[derive(Clone, Copy, Debug, PartialEq, Eq, Structural)]
pub struct ScaleError;

/// Derives the target grid size `(width, height)` from the terminal row count
/// and the source's native pixel dimensions.
///
/// The height is `rows` itself; the width is
/// `round(rows * (src_w / src_h) * 13 / 5)`. Fails exactly when a dimension
/// that must be positive is not: a zero input, or a computed width that
/// rounds down to zero.
pub fn grid_size(rows: u64, src_w: u64, src_h: u64) -> (r: Result<(u64, u64), ScaleError>)
    requires
        rows <= 0x10000,
        src_w <= 0x100000,
        src_h <= 0x100000,
    ensures
        r is Ok <==> rows > 0 && src_w > 0 && src_h > 0
            && spec_grid_width(rows as int, src_w as int, src_h as int) > 0,
        r is Ok ==> r.unwrap() == (
            (spec_grid_width(rows as int, src_w as int, src_h as int) as u64),
            rows,
        ),
    {
    if rows == 0 || src_w == 0 || src_h == 0 {
        return Err(ScaleError);
    }
    proof {
        assert(13 * rows * src_w <= 13 * 0x10000 * 0x100000) by (nonlinear_arith)
            requires
                rows <= 0x10000,
                src_w <= 0x100000,
        ;
    }
    let num: u64 = 13 * rows * src_w;
    let den: u64 = 5 * src_h;
    proof {
        let q = spec_round_div(num as int, den as int);
        assert(0 <= q <= num as int) by (nonlinear_arith)
            requires
                q == (2 * (num as int) + den as int) / (2 * (den as int)),
                den as int >= 5,
                num as int >= 0,
        ;
    }
    let width: u64 = (2 * num + den) / (2 * den);
    if width == 0 {
        return Err(ScaleError);
    }
    Ok((width, rows))
}

} // verus!
