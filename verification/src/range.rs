//! Valid numeric ranges of samples per bit depth, and the scale factors that
//! normalize a raw sample onto a target output scale.
//!
//! A scale is the pair (multiply, subtract) such that
//! `raw * multiply - subtract` maps an in-range raw sample linearly onto
//! `[0, target]`.  Both factors are exact rationals held as integer
//! numerators over a shared denominator, so every later computation on them
//! is exact; the target full-scale value is itself a thousandth below the
//! next power of two (for example 255.999 for 8-bit output), carried here as
//! a numerator over 1000, so that truncation after the transform rounds down
//! into range rather than overflowing by one at the top boundary.

use vstd::prelude::*;
use crate::color::{Depth, Range};

verus! {

/// The valid numeric span of luma (`y_min..=y_max`) and chroma
/// (`uv_min..=uv_max`) samples for one (bit depth, range policy) pair.
#[derive(Debug, Copy, Clone, PartialEq, Eq, Structural)]
pub struct RangeTable {
    pub y_min: u16,
    pub y_max: u16,
    pub uv_min: u16,
    pub uv_max: u16,
}

impl RangeTable {
    /// Well-formedness: both spans are non-empty.
    pub open spec fn wf(self) -> bool {
        self.y_min < self.y_max && self.uv_min < self.uv_max
    }
}

/// The fixed table of sample spans.  `Full` covers the whole representable
/// range of the depth; `Limited` reserves the broadcast-standard footroom and
/// headroom.  These quadruples are literal constants of the applicable
/// standard, never derived at runtime.
pub open spec fn spec_range_table(range: Range, depth: Depth) -> RangeTable {
    match (range, depth) {
        (Range::Full, Depth::Depth8) => RangeTable { y_min: 0, y_max: 255, uv_min: 0, uv_max: 255 },
        (Range::Full, Depth::Depth10) => RangeTable { y_min: 0, y_max: 1023, uv_min: 0, uv_max: 1023 },
        (Range::Full, Depth::Depth12) => RangeTable { y_min: 0, y_max: 4095, uv_min: 0, uv_max: 4095 },
        (Range::Full, Depth::Depth16) => RangeTable { y_min: 0, y_max: 65535, uv_min: 0, uv_max: 65535 },
        (Range::Limited, Depth::Depth8) => RangeTable { y_min: 16, y_max: 235, uv_min: 16, uv_max: 240 },
        (Range::Limited, Depth::Depth10) => RangeTable { y_min: 64, y_max: 940, uv_min: 64, uv_max: 960 },
        (Range::Limited, Depth::Depth12) => RangeTable { y_min: 256, y_max: 3760, uv_min: 256, uv_max: 3840 },
        (Range::Limited, Depth::Depth16) => RangeTable { y_min: 4112, y_max: 60395, uv_min: 4112, uv_max: 61680 },
    }
}

/// Table well-formedness: for every supported (range, depth) pair the luma
/// span and the chroma span are both non-empty.
pub proof fn lemma_range_table_wf(range: Range, depth: Depth)
    ensures
        spec_range_table(range, depth).wf(),
{
}

/// Returns the sample-span table entry for one (range policy, bit depth) pair.
pub fn range_table(range: Range, depth: Depth) -> (t: RangeTable)
    ensures
        t == spec_range_table(range, depth),
        t.wf(),
{
    match (range, depth) {
        (Range::Full, Depth::Depth8) => RangeTable { y_min: 0, y_max: 255, uv_min: 0, uv_max: 255 },
        (Range::Full, Depth::Depth10) => RangeTable { y_min: 0, y_max: 1023, uv_min: 0, uv_max: 1023 },
        (Range::Full, Depth::Depth12) => RangeTable { y_min: 0, y_max: 4095, uv_min: 0, uv_max: 4095 },
        (Range::Full, Depth::Depth16) => RangeTable { y_min: 0, y_max: 65535, uv_min: 0, uv_max: 65535 },
        (Range::Limited, Depth::Depth8) => RangeTable { y_min: 16, y_max: 235, uv_min: 16, uv_max: 240 },
        (Range::Limited, Depth::Depth10) => RangeTable { y_min: 64, y_max: 940, uv_min: 64, uv_max: 960 },
        (Range::Limited, Depth::Depth12) => RangeTable { y_min: 256, y_max: 3760, uv_min: 256, uv_max: 3840 },
        (Range::Limited, Depth::Depth16) => RangeTable { y_min: 4112, y_max: 60395, uv_min: 4112, uv_max: 61680 },
    }
}

/// A normalization scale: multiply is `mul_num / den`, subtract is
/// `sub_num / den`.  Applying it to a raw sample `v` yields the exact
/// rational `(v * mul_num - sub_num) / den`.
#[derive(Debug, Copy, Clone, PartialEq, Eq, Structural)]
pub struct RangeScale {
    pub mul_num: u64,
    pub sub_num: u64,
    pub den: u64,
}

/// The numerator of a sample scaled by `s` (the shared denominator is `s.den`).
pub open spec fn scale_num(s: RangeScale, v: int) -> int {
    v * s.mul_num - s.sub_num
}

/// Target full-scale numerator over 1000 for an output whose largest value is
/// `out_max`: a thousandth below `out_max + 1`.
pub open spec fn mn_for(out_max: int) -> int {
    1000 * (out_max + 1) - 1
}

/// `s` is the luma scale derived from table entry `t` for target numerator
/// `mn`: multiply is `mn/1000` over the luma span, subtract shifts the span
/// start to zero.
pub open spec fn is_luma_scale(s: RangeScale, t: RangeTable, mn: int) -> bool {
    &&& s.mul_num == 2 * mn
    &&& s.sub_num == 2 * mn * t.y_min
    &&& s.den == 2000 * (t.y_max - t.y_min)
}

/// `s` is the chroma scale derived from table entry `t` for target numerator
/// `mn`.  Chroma is re-centered: with no footroom (`uv_min == 0`) the center
/// is `ceil(uv_max/2)/uv_max` of the target, otherwise it is the span start
/// plus half the target.
pub open spec fn is_chroma_scale(s: RangeScale, t: RangeTable, mn: int) -> bool {
    &&& s.mul_num == 2 * mn
    &&& s.den == 2000 * (t.uv_max - t.uv_min)
    &&& if t.uv_min == 0 {
            s.sub_num == 2 * mn * ((t.uv_max + 1) / 2)
        } else {
            s.sub_num == mn * (2 * t.uv_min + (t.uv_max - t.uv_min))
        }
}

/// Numeric bounds every derived scale obeys; they keep the per-pixel
/// arithmetic inside `i128`.
pub open spec fn scale_wf(s: RangeScale) -> bool {
    &&& 0 < s.mul_num <= 131071998
    &&& s.sub_num <= 131071998 * 65535
    &&& 0 < s.den <= 131070000
}

/// Derives the (luma, chroma) scale pair for table entry `t` and target
/// numerator `mn` (the target full-scale value times 1000).
pub fn derive_scales(t: RangeTable, mn: u32) -> (r: (RangeScale, RangeScale))
    requires
        t.wf(),
        0 < mn <= 65535999,
    ensures
        is_luma_scale(r.0, t, mn as int),
        is_chroma_scale(r.1, t, mn as int),
        scale_wf(r.0),
        scale_wf(r.1),
{
    let m: u64 = mn as u64;
    proof {
        assert((2 * (m as int)) * (t.y_min as int) <= 131071998 * 65535) by (nonlinear_arith)
            requires
                m <= 65535999,
                t.y_min <= 65535,
        ;
        assert((2 * (m as int)) * (((t.uv_max as int) + 1) / 2) <= 131071998 * 32768) by (nonlinear_arith)
            requires
                m <= 65535999,
                t.uv_max <= 65535,
        ;
        assert((m as int) * (2 * (t.uv_min as int) + ((t.uv_max as int) - (t.uv_min as int)))
            <= 65535999 * 131070) by (nonlinear_arith)
            requires
                m <= 65535999,
                t.uv_min <= 65535,
                t.uv_min <= t.uv_max <= 65535,
        ;
    }
    let y_span: u64 = (t.y_max - t.y_min) as u64;
    let y = RangeScale {
        mul_num: 2 * m,
        sub_num: 2 * m * (t.y_min as u64),
        den: 2000 * y_span,
    };
    let uv_span: u64 = (t.uv_max - t.uv_min) as u64;
    let uv_sub: u64 = if t.uv_min == 0 {
        2 * m * ((t.uv_max as u64 + 1) / 2)
    } else {
        m * (2 * (t.uv_min as u64) + uv_span)
    };
    let uv = RangeScale {
        mul_num: 2 * m,
        sub_num: uv_sub,
        den: 2000 * uv_span,
    };
    (y, uv)
}

} // verus!
