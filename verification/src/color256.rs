//! Colors and the fixed terminal palette: squared-distance nearest-entry
//! lookup (first minimal entry in palette order wins ties) and integer
//! brightness.

use vstd::prelude::*;
use vstd::string::StrSliceExecFns;
use vstd::string::StringSliceAdditionalSpecFns;

verus! {

/// An 8-bit-per-channel RGB color value.
#[derive(Clone, Copy, Debug, PartialEq, Eq, Structural)]
pub struct Rgb {
    pub r: u8,
    pub g: u8,
    pub b: u8,
}

/// Squared Euclidean distance between two colors. Minimizing this picks the
/// same entry as minimizing the Euclidean distance itself, since squaring is
/// monotone on non-negative reals.
pub open spec fn spec_dist2(a: Rgb, b: Rgb) -> int {
    (a.r - b.r) * (a.r - b.r) + (a.g - b.g) * (a.g - b.g) + (a.b - b.b) * (a.b - b.b)
}

/// Brightness of a color: the truncating integer average of its channels.
/// This is deliberately a plain channel average, not a perceptual weighting.
pub open spec fn spec_brightness(c: Rgb) -> int {
    (c.r + c.g + c.b) / 3
}

impl Rgb {
    pub fn new(r: u8, g: u8, b: u8) -> (c: Rgb)
        ensures
            c == (Rgb { r, g, b }),
    {
        Rgb { r, g, b }
    }

    /// Squared Euclidean distance to `other`.
    pub fn distance_to(&self, other: &Rgb) -> (d: u32)
        ensures
            d == spec_dist2(*self, *other),
    {
        let dr: u32 = if self.r >= other.r {
            (self.r - other.r) as u32
        } else {
            (other.r - self.r) as u32
        };
        let dg: u32 = if self.g >= other.g {
            (self.g - other.g) as u32
        } else {
            (other.g - self.g) as u32
        };
        let db: u32 = if self.b >= other.b {
            (self.b - other.b) as u32
        } else {
            (other.b - self.b) as u32
        };
        proof {
            assert(dr * dr == (self.r - other.r) * (self.r - other.r)
                && dr * dr <= 65025) by (nonlinear_arith)
                requires
                    dr == if self.r >= other.r { self.r - other.r } else { other.r - self.r },
                    dr <= 255,
            ;
            assert(dg * dg == (self.g - other.g) * (self.g - other.g)
                && dg * dg <= 65025) by (nonlinear_arith)
                requires
                    dg == if self.g >= other.g { self.g - other.g } else { other.g - self.g },
                    dg <= 255,
            ;
            assert(db * db == (self.b - other.b) * (self.b - other.b)
                && db * db <= 65025) by (nonlinear_arith)
                requires
                    db == if self.b >= other.b { self.b - other.b } else { other.b - self.b },
                    db <= 255,
            ;
        }
        dr * dr + dg * dg + db * db
    }

    /// Brightness in `[0, 255]`: the truncating average `(r + g + b) / 3`.
    pub fn brightness(&self) -> (v: u8)
        ensures
            v == spec_brightness(*self),
    {
        ((self.r as u16 + self.g as u16 + self.b as u16) / 3) as u8
    }
}

/// A color is at distance zero from itself.
pub proof fn lemma_distance_self_zero(c: Rgb)
    ensures
        spec_dist2(c, c) == 0,
{
}

/// Squared distances are never negative.
pub proof fn lemma_dist2_nonneg(a: Rgb, b: Rgb)
    ensures
        spec_dist2(a, b) >= 0,
{
    assert((a.r - b.r) * (a.r - b.r) >= 0) by (nonlinear_arith);
    assert((a.g - b.g) * (a.g - b.g) >= 0) by (nonlinear_arith);
    assert((a.b - b.b) * (a.b - b.b) >= 0) by (nonlinear_arith);
}

/// One palette entry: an opaque terminal color id, the color it stands for,
/// and a display name.
#[derive(Debug)]
pub struct Color {
    pub id: u8,
    pub rgb: Rgb,
    pub name: String,
}

/// `i` is the index `nearest` must return for color `c`: no entry is strictly
/// closer, and every earlier entry is strictly farther (so among equally close
/// entries the first in palette order wins).
pub open spec fn nearest_at(colors: Seq<Color>, c: Rgb, i: int) -> bool {
    &&& 0 <= i < colors.len()
    &&& forall|j: int|
        0 <= j < colors.len() ==> spec_dist2(c, colors[j].rgb) >= spec_dist2(c, colors[i].rgb)
    &&& forall|j: int| 0 <= j < i ==> spec_dist2(c, colors[j].rgb) > spec_dist2(c, colors[i].rgb)
}

/// Why a palette document was refused.
#[derive(Clone, Copy, Debug, PartialEq, Eq, Structural)]
pub enum PaletteError {
    /// The document is not in the palette grammar.
    Parse,
    /// The document is well-formed but holds no entries.
    Empty,
}

/// The palette: an ordered, non-empty sequence of entries.
#[derive(Debug)]
pub struct Color256 {
    pub colors: Vec<Color>,
}

impl Color256 {
    /// Palette invariant: at least one entry.
    pub open spec fn wf(&self) -> bool {
        self.colors@.len() > 0
    }

    /// Loads a palette from its textual document (see `crate::palette` for
    /// the grammar). Fails with `Parse` exactly on a malformed document and
    /// with `Empty` exactly on a well-formed document with no entries;
    /// otherwise the palette holds the document's records in order.
    pub fn new(json_colors: &str) -> (r: Result<Color256, PaletteError>)
        ensures
            match r {
                Ok(p) => {
                    &&& crate::palette::spec_parse_doc(json_colors.spec_bytes())
                        matches Some(es) && crate::palette::colors_match(p.colors@, es)
                        && es.len() > 0
                    &&& p.wf()
                },
                Err(PaletteError::Parse) => crate::palette::spec_parse_doc(
                    json_colors.spec_bytes(),
                ) is None,
                Err(PaletteError::Empty) => crate::palette::spec_parse_doc(
                    json_colors.spec_bytes(),
                ) == Some(Seq::<crate::palette::SpecEntry>::empty()),
            },
    {
        let bytes = json_colors.as_bytes_vec();
        match crate::palette::parse_doc(&bytes) {
            None => Err(PaletteError::Parse),
            Some(colors) => if colors.len() == 0 {
                proof {
                    let es = crate::palette::spec_parse_doc(json_colors.spec_bytes()).unwrap();
                    assert(es =~= Seq::<crate::palette::SpecEntry>::empty());
                }
                Err(PaletteError::Empty)
            } else {
                Ok(Color256 { colors })
            },
        }
    }

    /// The palette entry nearest to `rgb` under Euclidean distance, scanning
    /// the whole palette; ties go to the first minimal entry in order.
    pub fn approx_from_rgb(&self, rgb: &Rgb) -> (r: &Color)
        requires
            self.wf(),
        ensures
            exists|i: int| #[trigger] nearest_at(self.colors@, *rgb, i) && *r == self.colors@[i],
    {
        let mut best: usize = 0;
        let mut best_d: u32 = rgb.distance_to(&self.colors[0].rgb);
        let mut k: usize = 1;
        while k < self.colors.len()
            invariant
                self.wf(),
                best < k <= self.colors@.len(),
                best_d == spec_dist2(*rgb, self.colors@[best as int].rgb),
                forall|j: int|
                    0 <= j < k ==> spec_dist2(*rgb, self.colors@[j].rgb)
                        >= spec_dist2(*rgb, self.colors@[best as int].rgb),
                forall|j: int|
                    0 <= j < best ==> spec_dist2(*rgb, self.colors@[j].rgb)
                        > spec_dist2(*rgb, self.colors@[best as int].rgb),
            decreases self.colors@.len() - k,
        {
            let d = rgb.distance_to(&self.colors[k].rgb);
            if d < best_d {
                best = k;
                best_d = d;
            }
            k += 1;
        }
        proof {
            assert(nearest_at(self.colors@, *rgb, best as int));
        }
        &self.colors[best]
    }
}

/// Palette lookup is deterministic: the first-minimal tie-break pins a
/// single index, so any two indices satisfying `nearest_at` are equal.
pub proof fn lemma_nearest_at_unique(colors: Seq<Color>, c: Rgb, i: int, j: int)
    requires
        nearest_at(colors, c, i),
        nearest_at(colors, c, j),
    ensures
        i == j,
{
    if i < j {
        assert(spec_dist2(c, colors[i].rgb) > spec_dist2(c, colors[j].rgb));
    }
    if j < i {
        assert(spec_dist2(c, colors[j].rgb) > spec_dist2(c, colors[i].rgb));
    }
}

/// If the palette holds an entry exactly equal to `c` and every other entry
/// is strictly farther, the nearest entry is exactly that one.
pub proof fn lemma_nearest_exact_match(colors: Seq<Color>, c: Rgb, i: int, k: int)
    requires
        0 <= i < colors.len(),
        colors[i].rgb == c,
        forall|j: int| 0 <= j < colors.len() && j != i ==> spec_dist2(c, colors[j].rgb) > 0,
        nearest_at(colors, c, k),
    ensures
        k == i,
{
    lemma_distance_self_zero(c);
    assert(spec_dist2(c, colors[i].rgb) == 0);
    assert(spec_dist2(c, colors[k].rgb) <= 0);
    lemma_dist2_nonneg(c, colors[k].rgb);
    if k != i {
        assert(spec_dist2(c, colors[k].rgb) > 0);
    }
}

} // verus!
