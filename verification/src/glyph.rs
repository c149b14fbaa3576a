//! Brightness-to-glyph quantization over a density-ordered ramp of glyphs.

use vstd::prelude::*;

verus! {

/// Ramp index chosen for a brightness value with a ramp of `n` glyphs:
/// `floor(b * n / 256)`, clamped into `[0, n - 1]`.
pub open spec fn spec_glyph_index(b: u8, n: int) -> int {
    if b * n / 256 < n {
        b * n / 256
    } else {
        n - 1
    }
}

/// For a non-empty ramp the clamp never fires: brightness is at most 255, so
/// the computed index is already below the ramp length.
pub proof fn lemma_glyph_index_in_range(b: u8, n: int)
    requires
        1 <= n,
    ensures
        spec_glyph_index(b, n) == b * n / 256,
        0 <= spec_glyph_index(b, n) < n,
{
    assert(0 <= b * n / 256 && b * n / 256 < n) by (nonlinear_arith)
        requires
            1 <= n,
            0 <= b <= 255,
    ;
}

/// Glyph choice is monotonic: a brighter pixel never maps to an earlier ramp
/// index.
pub proof fn lemma_glyph_monotonic(b1: u8, b2: u8, n: int)
    requires
        1 <= n,
        b1 <= b2,
    ensures
        spec_glyph_index(b1, n) <= spec_glyph_index(b2, n),
{
    assert(b1 * n / 256 <= b2 * n / 256) by (nonlinear_arith)
        requires
            1 <= n,
            0 <= b1 <= b2,
    ;
}

/// Maps brightness to a glyph out of a fixed ramp ordered by visual density.
pub struct GlyphMapper {
    pub ramp: Vec<char>,
}

impl GlyphMapper {
    /// Ramp invariant: non-empty, and small enough that the index arithmetic
    /// stays far away from any machine limit.
    pub open spec fn wf(&self) -> bool {
        1 <= self.ramp@.len() <= 65536
    }

    /// Builds a mapper from a ramp; refuses an empty or oversized ramp.
    pub fn new(ramp: Vec<char>) -> (r: Option<GlyphMapper>)
        ensures
            (1 <= ramp@.len() <= 65536) <==> r is Some,
            r is Some ==> r.unwrap().ramp == ramp && r.unwrap().wf(),
    {
        if ramp.len() >= 1 && ramp.len() <= 65536 {
            Some(GlyphMapper { ramp })
        } else {
            None
        }
    }

    /// The ramp glyph at index `floor(brightness * len / 256)`.
    pub fn glyph_for(&self, brightness: u8) -> (c: char)
        requires
            self.wf(),
        ensures
            c == self.ramp@[spec_glyph_index(brightness, self.ramp@.len() as int)],
    {
        proof {
            lemma_glyph_index_in_range(brightness, self.ramp@.len() as int);
            assert(brightness * self.ramp@.len() <= 255 * 65536) by (nonlinear_arith)
                requires
                    0 <= brightness <= 255,
                    self.ramp@.len() <= 65536,
            ;
        }
        let idx: usize = (brightness as usize) * self.ramp.len() / 256;
        if idx < self.ramp.len() {
            self.ramp[idx]
        } else {
            self.ramp[self.ramp.len() - 1]
        }
    }
}

} // verus!
