//! YUV -> RGB converters. See [`RGBConvert::new`].
//!
//! A converter is selected and built once per (range, matrix coefficients,
//! depth) configuration; each variant then transforms one pixel per call.

use vstd::prelude::*;
use core::marker::PhantomData;
use crate::color::{Depth, MatrixCoefficients, Range};
use crate::range::{derive_scales, is_chroma_scale, is_luma_scale, mn_for, range_table,
    scale_num, scale_wf, spec_range_table, RangeScale, RangeTable};
use crate::error::Error;
use crate::YUV;
use rgb::RGB;
use vstd::arithmetic::div_mod::{lemma_div_by_multiple, lemma_div_is_ordered,
    lemma_div_multiples_vanish, lemma_div_multiples_vanish_quotient, lemma_div_of0,
    lemma_div_pos_is_pos};
use vstd::arithmetic::mul::{lemma_mul_by_zero_is_zero, lemma_mul_inequality,
    lemma_mul_is_commutative};

verus! {

/// The value of one output channel: the exact quotient `num / den`, floored
/// at zero and saturated at `out_max`, truncated to integer.
pub open spec fn spec_channel(num: int, den: int, out_max: int) -> int {
    if num <= 0 {
        0
    } else if num / den > out_max {
        out_max
    } else {
        num / den
    }
}

/// One channel of the single-range rescale: the sample is shifted down by
/// the span start (floored at zero), brought to the output scale by
/// `scale / span`, and saturated at `out_max`.
pub open spec fn spec_rescale(v: int, min: int, span: int, scale: int, out_max: int) -> int {
    let d = if v > min { v - min } else { 0 };
    let q = (d * scale) / span;
    if q > out_max {
        out_max
    } else {
        q
    }
}

/// Fast path when no conversion is needed for YUV -> GBR.
#[derive(Debug, Copy, Clone)]
pub struct CopyGBR<T = u8>(PhantomData<T>);

impl<T> CopyGBR<T> {
    /// An identity-matrix full-range stream is an RGB image stored in G/B/R
    /// channel order: green receives luma, blue the first chroma channel,
    /// red the second.
    pub fn to_rgb(&self, px: YUV<T>) -> (r: RGB<T>)
        ensures
            r.r == px.v,
            r.g == px.y,
            r.b == px.u,
    {
        RGB { r: px.v, g: px.y, b: px.u }
    }

    pub fn to_luma(&self, y: T) -> (r: T)
        ensures
            r == y,
    {
        y
    }
}

/// Rescaling bit range for YUV -> GBR.  All three channels use the luma
/// span: under the identity matrix they are different spatial samples of the
/// same numeric domain, not chroma-offset values.
#[derive(Debug, Copy, Clone)]
pub struct IdentityScale<T = u8> {
    pub min: T,
    pub range: T,
}

pub fn rescale8(v: u8, fmin: u8, frange: u8) -> (r: u8)
    requires
        0 < frange,
    ensures
        r as int == spec_rescale(v as int, fmin as int, frange as int, 256, 255),
{
    let d: u16 = if v > fmin {
        (v - fmin) as u16
    } else {
        0
    };
    let t: u16 = d * 256;
    let q: u16 = t / (frange as u16);
    if q > 255 {
        255
    } else {
        q as u8
    }
}

pub fn rescale16(v: u16, fmin: u16, frange: u16) -> (r: u16)
    requires
        0 < frange,
    ensures
        r as int == spec_rescale(v as int, fmin as int, frange as int, 65536, 65535),
{
    let d: u32 = if v > fmin {
        (v - fmin) as u32
    } else {
        0
    };
    let t: u32 = d * 65536;
    let q: u32 = t / (frange as u32);
    if q > 65535 {
        65535
    } else {
        q as u16
    }
}

/// Builds the rescaler that maps the luma span of `t` onto the full 16-bit
/// output scale.
pub fn new_scale(t: RangeTable) -> (s: IdentityScale<u16>)
    requires
        t.wf(),
    ensures
        s.min == t.y_min,
        s.range == t.y_max - t.y_min,
{
    IdentityScale { min: t.y_min, range: t.y_max - t.y_min }
}

impl IdentityScale<u8> {
    /// The only 8-bit configuration that rescales: identity matrix over the
    /// limited range.
    pub fn new() -> (s: Self)
        ensures
            s.min == spec_range_table(Range::Limited, Depth::Depth8).y_min,
            s.range == spec_range_table(Range::Limited, Depth::Depth8).y_max
                - spec_range_table(Range::Limited, Depth::Depth8).y_min,
    {
        IdentityScale { min: 16, range: 219 }
    }

    pub fn to_rgb(&self, px: YUV<u8>) -> (r: RGB<u8>)
        requires
            0 < self.range,
        ensures
            r.g as int == spec_rescale(px.y as int, self.min as int, self.range as int, 256, 255),
            r.b as int == spec_rescale(px.u as int, self.min as int, self.range as int, 256, 255),
            r.r as int == spec_rescale(px.v as int, self.min as int, self.range as int, 256, 255),
    {
        RGB {
            g: rescale8(px.y, self.min, self.range),
            b: rescale8(px.u, self.min, self.range),
            r: rescale8(px.v, self.min, self.range),
        }
    }

    pub fn to_luma(&self, y: u8) -> (r: u8)
        requires
            0 < self.range,
        ensures
            r as int == spec_rescale(y as int, self.min as int, self.range as int, 256, 255),
    {
        rescale8(y, self.min, self.range)
    }
}

impl IdentityScale<u16> {
    /// Builds the wide rescaler for one (range, depth) pair; 8-bit input has
    /// no defined wide rescale and is rejected.
    pub fn new(range: Range, depth: Depth) -> (r: Result<Self, Error>)
        ensures
            depth == Depth::Depth8 <==> r is Err,
            r matches Err(e) ==> e == Error::InvalidDepthRequested,
            r matches Ok(s) ==> ({
                let t = spec_range_table(range, depth);
                s.min == t.y_min && s.range == t.y_max - t.y_min && 0 < s.range
            }),
    {
        match depth {
            Depth::Depth8 => Err(Error::InvalidDepthRequested),
            _ => Ok(new_scale(range_table(range, depth))),
        }
    }

    pub fn to_rgb(&self, px: YUV<u16>) -> (r: RGB<u16>)
        requires
            0 < self.range,
        ensures
            r.g as int == spec_rescale(px.y as int, self.min as int, self.range as int, 65536, 65535),
            r.b as int == spec_rescale(px.u as int, self.min as int, self.range as int, 65536, 65535),
            r.r as int == spec_rescale(px.v as int, self.min as int, self.range as int, 65536, 65535),
    {
        RGB {
            g: rescale16(px.y, self.min, self.range),
            b: rescale16(px.u, self.min, self.range),
            r: rescale16(px.v, self.min, self.range),
        }
    }

    pub fn to_luma(&self, y: u16) -> (r: u16)
        requires
            0 < self.range,
        ensures
            r as int == spec_rescale(y as int, self.min as int, self.range as int, 65536, 65535),
    {
        rescale16(y, self.min, self.range)
    }
}

proof fn lemma_mul_range(a: int, b: int, ab: int, bb: int)
    by (nonlinear_arith)
    requires
        -ab <= a <= ab,
        -bb <= b <= bb,
    ensures
        -(ab * bb) <= a * b <= ab * bb,
{
}

proof fn lemma_mul_pos(a: int, b: int)
    by (nonlinear_arith)
    requires
        0 < a,
        0 < b,
    ensures
        0 < a * b,
{
}

/// Converter for YCbCr color spaces.
///
/// The luma weights KR and KB are held as numerators over 10000, so the four
/// precomputed transform constants are exact rationals: `a = 2(1-KR)` and
/// `d = 2(1-KB)` are `a_num/10000` and `d_num/10000`; `b = 2(1-KB)·KB/KG`
/// and `c = 2(1-KR)·KR/KG` are `b_num/g_den` and `c_num/g_den` with
/// `g_den = 10000·KG`.  Every per-pixel step is exact integer arithmetic.
#[derive(Debug, Copy, Clone)]
pub struct Matrix<T = u8> {
    pub y_scale: RangeScale,
    pub uv_scale: RangeScale,
    pub kr_n: u16,
    pub kb_n: u16,
    pub a_num: u32,
    pub b_num: u32,
    pub c_num: u32,
    pub d_num: u32,
    pub g_den: u32,
    pub out_max: u16,
    pub table: RangeTable,
    pub _pixel: PhantomData<T>,
}

impl<T> Matrix<T> {
    /// Well-formedness: the weights are strictly positive and sum below one,
    /// the transform constants are derived from them, and the two scales are
    /// derived from the owned table entry for the owned output maximum.
    pub open spec fn wf(self) -> bool {
        &&& self.table.wf()
        &&& 0 < self.kr_n
        &&& 0 < self.kb_n
        &&& self.kr_n + self.kb_n < 10000
        &&& self.a_num == 2 * (10000 - self.kr_n)
        &&& self.d_num == 2 * (10000 - self.kb_n)
        &&& self.b_num == 2 * (10000 - self.kb_n) * self.kb_n
        &&& self.c_num == 2 * (10000 - self.kr_n) * self.kr_n
        &&& self.b_num <= 199960002
        &&& self.c_num <= 199960002
        &&& self.g_den == 10000 * (10000 - self.kr_n - self.kb_n)
        &&& 0 < self.out_max
        &&& is_luma_scale(self.y_scale, self.table, mn_for(self.out_max as int))
        &&& is_chroma_scale(self.uv_scale, self.table, mn_for(self.out_max as int))
        &&& scale_wf(self.y_scale)
        &&& scale_wf(self.uv_scale)
    }

    /// Numerator of the red channel over `rb_den`: normalized luma plus
    /// `a` times the centered chroma V term.
    pub open spec fn red_num(self, y: int, v: int) -> int {
        scale_num(self.y_scale, y) * (10000 * self.uv_scale.den)
            + (self.a_num * scale_num(self.uv_scale, v)) * self.y_scale.den
    }

    /// Numerator of the blue channel over `rb_den`: normalized luma plus
    /// `d` times the centered chroma U term.
    pub open spec fn blue_num(self, y: int, u: int) -> int {
        scale_num(self.y_scale, y) * (10000 * self.uv_scale.den)
            + (self.d_num * scale_num(self.uv_scale, u)) * self.y_scale.den
    }

    /// Shared denominator of the red and blue channel quotients.
    pub open spec fn rb_den(self) -> int {
        (10000 * self.uv_scale.den) * self.y_scale.den
    }

    /// Numerator of the green channel over `g_den_total`: normalized luma
    /// minus `b` times the centered chroma U term minus `c` times the
    /// centered chroma V term.
    pub open spec fn green_num(self, y: int, u: int, v: int) -> int {
        scale_num(self.y_scale, y) * (self.g_den * self.uv_scale.den)
            - (self.b_num * scale_num(self.uv_scale, u)
                + self.c_num * scale_num(self.uv_scale, v)) * self.y_scale.den
    }

    /// Denominator of the green channel quotient.
    pub open spec fn g_den_total(self) -> int {
        (self.g_den * self.uv_scale.den) * self.y_scale.den
    }

    /// The exact transform of one pixel, each channel floored at zero,
    /// saturated at the output maximum and truncated to integer.
    pub open spec fn spec_to_rgb(self, y: int, u: int, v: int) -> (int, int, int) {
        (
            spec_channel(self.red_num(y, v), self.rb_den(), self.out_max as int),
            spec_channel(self.green_num(y, u, v), self.g_den_total(), self.out_max as int),
            spec_channel(self.blue_num(y, u), self.rb_den(), self.out_max as int),
        )
    }

    /// The luma-only reduction: normalization alone, chroma skipped.
    pub open spec fn spec_to_luma(self, y: int) -> int {
        spec_channel(scale_num(self.y_scale, y), self.y_scale.den as int, self.out_max as int)
    }

    fn new_internal(
        kr_n: u16,
        kb_n: u16,
        y_scale: RangeScale,
        uv_scale: RangeScale,
        table: RangeTable,
        out_max: u16,
    ) -> (m: Self)
        requires
            0 < kr_n,
            0 < kb_n,
            kr_n + kb_n < 10000,
            table.wf(),
            0 < out_max,
            is_luma_scale(y_scale, table, mn_for(out_max as int)),
            is_chroma_scale(uv_scale, table, mn_for(out_max as int)),
            scale_wf(y_scale),
            scale_wf(uv_scale),
        ensures
            m.wf(),
            m.kr_n == kr_n,
            m.kb_n == kb_n,
            m.table == table,
            m.out_max == out_max,
            m.y_scale == y_scale,
            m.uv_scale == uv_scale,
    {
        let krw: u32 = kr_n as u32;
        let kbw: u32 = kb_n as u32;
        proof {
            lemma_mul_range(2 * (10000 - kbw as int), kbw as int, 19998int, 9999int);
            lemma_mul_range(2 * (10000 - krw as int), krw as int, 19998int, 9999int);
        }
        Matrix {
            y_scale,
            uv_scale,
            kr_n,
            kb_n,
            a_num: 2 * (10000 - krw),
            b_num: 2 * (10000 - kbw) * kbw,
            c_num: 2 * (10000 - krw) * krw,
            d_num: 2 * (10000 - kbw),
            g_den: 10000 * (10000 - krw - kbw),
            out_max,
            table,
            _pixel: PhantomData,
        }
    }

    /// Computes the three channel quotients of one (widened) pixel.
    fn to_rgb16(&self, y: u16, u: u16, v: u16) -> (rgbv: (u16, u16, u16))
        requires
            self.wf(),
        ensures
            rgbv.0 as int == spec_channel(self.red_num(y as int, v as int), self.rb_den(), self.out_max as int),
            rgbv.1 as int == spec_channel(self.green_num(y as int, u as int, v as int), self.g_den_total(), self.out_max as int),
            rgbv.2 as int == spec_channel(self.blue_num(y as int, u as int), self.rb_den(), self.out_max as int),
    {
        let ymul: i128 = self.y_scale.mul_num as i128;
        let ysub: i128 = self.y_scale.sub_num as i128;
        let yden: i128 = self.y_scale.den as i128;
        let umul: i128 = self.uv_scale.mul_num as i128;
        let usub: i128 = self.uv_scale.sub_num as i128;
        let uden: i128 = self.uv_scale.den as i128;
        proof {
            lemma_mul_range(y as int, ymul as int, 65535int, 131071998int);
            lemma_mul_range(u as int, umul as int, 65535int, 131071998int);
            lemma_mul_range(v as int, umul as int, 65535int, 131071998int);
        }
        let yn: i128 = (y as i128) * ymul - ysub;
        let un: i128 = (u as i128) * umul - usub;
        let vn: i128 = (v as i128) * umul - usub;
        let tu: i128 = 10000 * uden;
        proof {
            lemma_mul_range(yn as int, tu as int, 131071998int * 65535, 1310700000000int);
            lemma_mul_range(self.a_num as int, vn as int, 20000int, 131071998int * 65535);
            lemma_mul_range(self.d_num as int, un as int, 20000int, 131071998int * 65535);
        }
        let ytu: i128 = yn * tu;
        let av: i128 = (self.a_num as i128) * vn;
        let du: i128 = (self.d_num as i128) * un;
        proof {
            lemma_mul_range(av as int, yden as int, 20000int * (131071998int * 65535), 131070000int);
            lemma_mul_range(du as int, yden as int, 20000int * (131071998int * 65535), 131070000int);
        }
        let rn: i128 = ytu + av * yden;
        let bn: i128 = ytu + du * yden;
        proof {
            lemma_mul_range(self.g_den as int, uden as int, 100000000int, 131070000int);
            lemma_mul_pos(self.g_den as int, uden as int);
        }
        let tg: i128 = (self.g_den as i128) * uden;
        proof {
            lemma_mul_range(yn as int, tg as int, 131071998int * 65535, 100000000int * 131070000);
            lemma_mul_range(self.b_num as int, un as int, 199960002int, 131071998int * 65535);
            lemma_mul_range(self.c_num as int, vn as int, 199960002int, 131071998int * 65535);
        }
        let bu: i128 = (self.b_num as i128) * un;
        let cv: i128 = (self.c_num as i128) * vn;
        proof {
            lemma_mul_range(
                (bu + cv) as int,
                yden as int,
                2int * (199960002int * (131071998int * 65535)),
                131070000int,
            );
            lemma_mul_pos(tu as int, yden as int);
            lemma_mul_pos(tg as int, yden as int);
            lemma_mul_range(tu as int, yden as int, 1310700000000int, 131070000int);
            lemma_mul_range(tg as int, yden as int, 100000000int * 131070000, 131070000int);
        }
        let gn: i128 = yn * tg - (bu + cv) * yden;
        let rbden: i128 = tu * yden;
        let gden: i128 = tg * yden;
        let r = channel_value(rn, rbden, self.out_max);
        let g = channel_value(gn, gden, self.out_max);
        let b = channel_value(bn, rbden, self.out_max);
        (r, g, b)
    }

    /// Computes the luma-only quotient of one (widened) sample.
    fn luma16(&self, y: u16) -> (r: u16)
        requires
            self.wf(),
        ensures
            r as int == self.spec_to_luma(y as int),
    {
        let ymul: i128 = self.y_scale.mul_num as i128;
        let ysub: i128 = self.y_scale.sub_num as i128;
        let yden: i128 = self.y_scale.den as i128;
        proof {
            lemma_mul_range(y as int, ymul as int, 65535int, 131071998int);
        }
        let yn: i128 = (y as i128) * ymul - ysub;
        channel_value(yn, yden, self.out_max)
    }
}

/// `m` is the matrix converter built for weights `kr_n`/`kb_n` (numerators
/// over 10000) and the given range, depth and output maximum.
pub open spec fn is_matrix_for<T>(m: Matrix<T>, kr_n: int, kb_n: int, range: Range, depth: Depth, out_max: int) -> bool {
    &&& m.wf()
    &&& m.kr_n == kr_n
    &&& m.kb_n == kb_n
    &&& m.table == spec_range_table(range, depth)
    &&& m.out_max == out_max
}

impl Matrix<u8> {
    /// Builds the 8-bit-to-8-bit matrix converter; the weights are KR and KB
    /// as numerators over 10000 and must be strictly positive with a strictly
    /// positive remaining green weight.
    pub fn new(kr_n: u16, kb_n: u16, yuv_range: Range) -> (m: Self)
        requires
            0 < kr_n,
            0 < kb_n,
            kr_n + kb_n < 10000,
        ensures
            is_matrix_for(m, kr_n as int, kb_n as int, yuv_range, Depth::Depth8, 255),
    {
        let t = range_table(yuv_range, Depth::Depth8);
        let (y_scale, uv_scale) = derive_scales(t, 255999);
        Self::new_internal(kr_n, kb_n, y_scale, uv_scale, t, 255)
    }

    pub fn to_rgb(&self, px: YUV<u8>) -> (r: RGB<u8>)
        requires
            self.wf(),
            self.out_max == 255,
        ensures
            (r.r as int, r.g as int, r.b as int) == self.spec_to_rgb(px.y as int, px.u as int, px.v as int),
    {
        let (r, g, b) = self.to_rgb16(px.y as u16, px.u as u16, px.v as u16);
        RGB { r: r as u8, g: g as u8, b: b as u8 }
    }

    pub fn to_luma(&self, y: u8) -> (r: u8)
        requires
            self.wf(),
            self.out_max == 255,
        ensures
            r as int == self.spec_to_luma(y as int),
    {
        self.luma16(y as u16) as u8
    }
}

impl Matrix<u16> {
    /// Builds the wide matrix converter for any of the four input depths;
    /// output uses the full 16-bit scale.
    pub fn new(kr_n: u16, kb_n: u16, yuv_range: Range, depth: Depth) -> (m: Self)
        requires
            0 < kr_n,
            0 < kb_n,
            kr_n + kb_n < 10000,
        ensures
            is_matrix_for(m, kr_n as int, kb_n as int, yuv_range, depth, 65535),
    {
        let t = range_table(yuv_range, depth);
        let (y_scale, uv_scale) = derive_scales(t, 65535999);
        Self::new_internal(kr_n, kb_n, y_scale, uv_scale, t, 65535)
    }

    pub fn to_rgb(&self, px: YUV<u16>) -> (r: RGB<u16>)
        requires
            self.wf(),
        ensures
            (r.r as int, r.g as int, r.b as int) == self.spec_to_rgb(px.y as int, px.u as int, px.v as int),
    {
        let (r, g, b) = self.to_rgb16(px.y, px.u, px.v);
        RGB { r, g, b }
    }

    pub fn to_luma(&self, y: u16) -> (r: u16)
        requires
            self.wf(),
        ensures
            r as int == self.spec_to_luma(y as int),
    {
        self.luma16(y)
    }
}

/// The known (KR, KB) luma weight pairs, as numerators over 10000; an
/// identifier outside this table (and other than `Identity`) has no
/// supported derivation.
pub open spec fn spec_coeffs(matrix: MatrixCoefficients) -> Option<(u16, u16)> {
    match matrix {
        MatrixCoefficients::BT709 => Some((2126, 722)),
        MatrixCoefficients::FCC => Some((3000, 1100)),
        MatrixCoefficients::BT470BG => Some((2990, 1140)),
        MatrixCoefficients::BT601 => Some((2990, 1140)),
        MatrixCoefficients::SMPTE240 => Some((2120, 870)),
        MatrixCoefficients::YCgCo => Some((2500, 2500)),
        _ => None,
    }
}

/// Resolves a matrix-coefficients identifier to its (KR, KB) weight pair.
fn coeffs_for_matrix(matrix_coeffs: MatrixCoefficients) -> (r: Option<(u16, u16)>)
    ensures
        r == spec_coeffs(matrix_coeffs),
        r matches Some(kk) ==> 0 < kk.0 && 0 < kk.1 && kk.0 + kk.1 < 10000,
{
    match matrix_coeffs {
        MatrixCoefficients::BT709 => Some((2126, 722)),
        MatrixCoefficients::FCC => Some((3000, 1100)),
        MatrixCoefficients::BT470BG => Some((2990, 1140)),
        MatrixCoefficients::BT601 => Some((2990, 1140)),
        MatrixCoefficients::SMPTE240 => Some((2120, 870)),
        MatrixCoefficients::YCgCo => Some((2500, 2500)),
        _ => None,
    }
}

/// Enum containing the concrete type of converter used.
///
/// Use [`RGBConvert::new`] to create a new instance.  Each variant is
/// individually specialized for its class of color-space configurations;
/// per-pixel calls dispatch through one `match`.
#[derive(Debug, Clone)]
pub enum RGBConvert<T = u8> {
    /// Converter for YCbCr color spaces
    Matrix(Matrix<T>),
    /// No conversion
    Copy(CopyGBR<T>),
    /// Scale numbers from 10/12-bit to 16-bit, and/or from studio range to
    /// full range. All channels use the Y range.
    IdentityScale(IdentityScale<T>),
}

impl RGBConvert<u8> {
    /// Well-formedness, established by [`RGBConvert::new`] and required by
    /// the per-pixel calls.
    pub open spec fn wf(self) -> bool {
        match self {
            RGBConvert::Matrix(m) => m.wf() && m.out_max == 255,
            RGBConvert::Copy(_) => true,
            RGBConvert::IdentityScale(s) => 0 < s.range,
        }
    }

    /// The exact result of converting one pixel: the (R, G, B) triple as
    /// mathematical integers, a function of the configuration and the pixel
    /// alone.
    pub open spec fn spec_to_rgb(self, px: YUV<u8>) -> (int, int, int) {
        match self {
            RGBConvert::Matrix(m) => m.spec_to_rgb(px.y as int, px.u as int, px.v as int),
            RGBConvert::Copy(_) => (px.v as int, px.y as int, px.u as int),
            RGBConvert::IdentityScale(s) => (
                spec_rescale(px.v as int, s.min as int, s.range as int, 256, 255),
                spec_rescale(px.y as int, s.min as int, s.range as int, 256, 255),
                spec_rescale(px.u as int, s.min as int, s.range as int, 256, 255),
            ),
        }
    }

    /// The exact result of converting one luma sample.
    pub open spec fn spec_to_luma(self, y: u8) -> int {
        match self {
            RGBConvert::Matrix(m) => m.spec_to_luma(y as int),
            RGBConvert::Copy(_) => y as int,
            RGBConvert::IdentityScale(s) => spec_rescale(y as int, s.min as int, s.range as int, 256, 255),
        }
    }

    /// Selects and builds the 8-bit converter for one configuration.
    ///
    /// A known weight pair yields the matrix strategy; `Identity` yields the
    /// passthrough over the full range and the rescaler over the limited
    /// range; anything else is unsupported.
    ///
    /// Use `RGBConvert::<u8>::new()` to call this method, because there's
    /// also a `u16` version.
    pub fn new(range: Range, matrix: MatrixCoefficients) -> (r: Result<Self, Error>)
        ensures
            r matches Ok(c) ==> c.wf(),
            spec_coeffs(matrix) matches Some(kk) ==> (r matches Ok(c)
                && c matches RGBConvert::Matrix(m)
                && is_matrix_for(m, kk.0 as int, kk.1 as int, range, Depth::Depth8, 255)),
            spec_coeffs(matrix) is None && matrix == MatrixCoefficients::Identity
                && range == Range::Full ==> (r matches Ok(c) && c is Copy),
            spec_coeffs(matrix) is None && matrix == MatrixCoefficients::Identity
                && range == Range::Limited ==> (r matches Ok(c)
                && c matches RGBConvert::IdentityScale(s) && s.min == 16 && s.range == 219),
            spec_coeffs(matrix) is None && matrix != MatrixCoefficients::Identity
                ==> r == Err::<Self, Error>(Error::UnsupportedMatrixCoefficients),
    {
        if let Some((kr, kb)) = coeffs_for_matrix(matrix) {
            return Ok(Self::Matrix(Matrix::<u8>::new(kr, kb, range)));
        }
        if matrix == MatrixCoefficients::Identity {
            return Ok(match range {
                Range::Full => Self::Copy(CopyGBR(PhantomData)),
                Range::Limited => Self::IdentityScale(IdentityScale::<u8>::new()),
            });
        }
        Err(Error::UnsupportedMatrixCoefficients)
    }

    /// Convert a single YUV pixel to an RGB pixel.
    pub fn to_rgb(&self, px: YUV<u8>) -> (r: RGB<u8>)
        requires
            self.wf(),
        ensures
            (r.r as int, r.g as int, r.b as int) == self.spec_to_rgb(px),
    {
        match self {
            Self::Matrix(c) => c.to_rgb(px),
            Self::Copy(c) => c.to_rgb(px),
            Self::IdentityScale(c) => c.to_rgb(px),
        }
    }

    /// Convert a single Y (luma) value to a grayscale value.
    pub fn to_luma(&self, px: u8) -> (r: u8)
        requires
            self.wf(),
        ensures
            r as int == self.spec_to_luma(px),
    {
        match self {
            Self::Matrix(c) => c.to_luma(px),
            Self::Copy(c) => c.to_luma(px),
            Self::IdentityScale(c) => c.to_luma(px),
        }
    }
}

impl RGBConvert<u16> {
    /// Well-formedness, established by [`RGBConvert::new`] and required by
    /// the per-pixel calls.
    pub open spec fn wf(self) -> bool {
        match self {
            RGBConvert::Matrix(m) => m.wf() && m.out_max == 65535,
            RGBConvert::Copy(_) => true,
            RGBConvert::IdentityScale(s) => 0 < s.range,
        }
    }

    /// The exact result of converting one pixel: the (R, G, B) triple as
    /// mathematical integers, a function of the configuration and the pixel
    /// alone.
    pub open spec fn spec_to_rgb(self, px: YUV<u16>) -> (int, int, int) {
        match self {
            RGBConvert::Matrix(m) => m.spec_to_rgb(px.y as int, px.u as int, px.v as int),
            RGBConvert::Copy(_) => (px.v as int, px.y as int, px.u as int),
            RGBConvert::IdentityScale(s) => (
                spec_rescale(px.v as int, s.min as int, s.range as int, 65536, 65535),
                spec_rescale(px.y as int, s.min as int, s.range as int, 65536, 65535),
                spec_rescale(px.u as int, s.min as int, s.range as int, 65536, 65535),
            ),
        }
    }

    /// The exact result of converting one luma sample.
    pub open spec fn spec_to_luma(self, y: u16) -> int {
        match self {
            RGBConvert::Matrix(m) => m.spec_to_luma(y as int),
            RGBConvert::Copy(_) => y as int,
            RGBConvert::IdentityScale(s) => spec_rescale(y as int, s.min as int, s.range as int, 65536, 65535),
        }
    }

    /// Selects and builds the wide converter for one configuration.
    ///
    /// A known weight pair yields the matrix strategy for the given depth;
    /// `Identity` yields the passthrough only for full-range 16-bit input,
    /// the rescaler for the other wide depths, and rejects 8-bit input;
    /// anything else is unsupported.
    ///
    /// Use `RGBConvert::<u16>::new()` to call this method, because there's
    /// also a `u8` version.
    pub fn new(range: Range, matrix: MatrixCoefficients, depth: Depth) -> (r: Result<Self, Error>)
        ensures
            r matches Ok(c) ==> c.wf(),
            spec_coeffs(matrix) matches Some(kk) ==> (r matches Ok(c)
                && c matches RGBConvert::Matrix(m)
                && is_matrix_for(m, kk.0 as int, kk.1 as int, range, depth, 65535)),
            spec_coeffs(matrix) is None && matrix == MatrixCoefficients::Identity
                && range == Range::Full && depth == Depth::Depth16
                ==> (r matches Ok(c) && c is Copy),
            spec_coeffs(matrix) is None && matrix == MatrixCoefficients::Identity
                && depth == Depth::Depth8
                ==> r == Err::<Self, Error>(Error::InvalidDepthRequested),
            spec_coeffs(matrix) is None && matrix == MatrixCoefficients::Identity
                && depth != Depth::Depth8 && !(range == Range::Full && depth == Depth::Depth16)
                ==> (r matches Ok(c) && c matches RGBConvert::IdentityScale(s)
                    && s.min == spec_range_table(range, depth).y_min
                    && s.range == spec_range_table(range, depth).y_max - spec_range_table(range, depth).y_min),
            spec_coeffs(matrix) is None && matrix != MatrixCoefficients::Identity
                ==> r == Err::<Self, Error>(Error::UnsupportedMatrixCoefficients),
    {
        if let Some((kr, kb)) = coeffs_for_matrix(matrix) {
            return Ok(Self::Matrix(Matrix::<u16>::new(kr, kb, range, depth)));
        }
        if matrix == MatrixCoefficients::Identity {
            return Ok(match (range, depth) {
                (Range::Full, Depth::Depth16) => Self::Copy(CopyGBR(PhantomData)),
                _ => Self::IdentityScale(IdentityScale::<u16>::new(range, depth)?),
            });
        }
        Err(Error::UnsupportedMatrixCoefficients)
    }

    /// Convert a single YUV pixel to an RGB pixel.
    pub fn to_rgb(&self, px: YUV<u16>) -> (r: RGB<u16>)
        requires
            self.wf(),
        ensures
            (r.r as int, r.g as int, r.b as int) == self.spec_to_rgb(px),
    {
        match self {
            Self::Matrix(c) => c.to_rgb(px),
            Self::Copy(c) => c.to_rgb(px),
            Self::IdentityScale(c) => c.to_rgb(px),
        }
    }

    /// Convert a single Y (luma) value to a grayscale value.
    pub fn to_luma(&self, px: u16) -> (r: u16)
        requires
            self.wf(),
        ensures
            r as int == self.spec_to_luma(px),
    {
        match self {
            Self::Matrix(c) => c.to_luma(px),
            Self::Copy(c) => c.to_luma(px),
            Self::IdentityScale(c) => c.to_luma(px),
        }
    }
}

/// Every channel value lies in the output range: floored at zero,
/// saturated at `out_max`.
pub proof fn lemma_channel_bounds(num: int, den: int, out_max: int)
    requires
        0 < den,
        0 <= out_max,
    ensures
        0 <= spec_channel(num, den, out_max) <= out_max,
{
    if num > 0 {
        lemma_div_pos_is_pos(num, den);
    }
}

proof fn lemma_channel_monotonic(n1: int, n2: int, den: int, out_max: int)
    requires
        n1 <= n2,
        0 < den,
        0 <= out_max,
    ensures
        spec_channel(n1, den, out_max) <= spec_channel(n2, den, out_max),
{
    lemma_channel_bounds(n1, den, out_max);
    lemma_channel_bounds(n2, den, out_max);
    if 0 < n1 {
        lemma_div_is_ordered(n1, n2, den);
    }
}

proof fn lemma_rescale_monotonic(v1: int, v2: int, min: int, span: int, scale: int, out_max: int)
    requires
        v1 <= v2,
        0 < span,
        0 <= scale,
        0 <= out_max,
    ensures
        spec_rescale(v1, min, span, scale, out_max) <= spec_rescale(v2, min, span, scale, out_max),
{
    let d1 = if v1 > min { v1 - min } else { 0 };
    let d2 = if v2 > min { v2 - min } else { 0 };
    lemma_mul_inequality(d1, d2, scale);
    lemma_div_is_ordered(d1 * scale, d2 * scale, span);
}

proof fn lemma_luma_num_monotonic(s: RangeScale, y1: int, y2: int)
    requires
        y1 <= y2,
    ensures
        scale_num(s, y1) <= scale_num(s, y2),
{
    lemma_mul_inequality(y1, y2, s.mul_num as int);
}

/// The channel quotient saturates: a numerator at or above `out_max` times
/// the denominator yields exactly `out_max`.
proof fn lemma_channel_saturates_high(num: int, den: int, out_max: int)
    requires
        0 < den,
        0 < out_max,
        num >= out_max * den,
    ensures
        spec_channel(num, den, out_max) == out_max,
{
    lemma_mul_pos(out_max, den);
    lemma_div_by_multiple(out_max, den);
    lemma_div_is_ordered(out_max * den, num, den);
}

impl RGBConvert<u8> {
    /// `to_luma` is monotonic non-decreasing in its input across the full
    /// valid input range, for every well-formed converter.
    pub proof fn lemma_to_luma_monotonic(self, y1: u8, y2: u8)
        requires
            self.wf(),
            y1 <= y2,
        ensures
            self.spec_to_luma(y1) <= self.spec_to_luma(y2),
    {
        match self {
            RGBConvert::Matrix(m) => {
                lemma_luma_num_monotonic(m.y_scale, y1 as int, y2 as int);
                lemma_channel_monotonic(
                    scale_num(m.y_scale, y1 as int),
                    scale_num(m.y_scale, y2 as int),
                    m.y_scale.den as int,
                    m.out_max as int,
                );
            },
            RGBConvert::Copy(_) => {},
            RGBConvert::IdentityScale(s) => {
                lemma_rescale_monotonic(y1 as int, y2 as int, s.min as int, s.range as int, 256, 255);
            },
        }
    }

    /// `to_luma` saturates: for the matrix strategy, luma at or below the
    /// span start maps to 0 and luma at or above the span end maps to the
    /// output maximum; the rescaler saturates at its own span ends.
    pub proof fn lemma_to_luma_saturates(self, y: u8)
        requires
            self.wf(),
        ensures
            (self matches RGBConvert::Matrix(m) && y <= m.table.y_min) ==> self.spec_to_luma(y) == 0,
            (self matches RGBConvert::Matrix(m) && y >= m.table.y_max) ==> self.spec_to_luma(y) == 255,
            (self matches RGBConvert::IdentityScale(s) && y <= s.min) ==> self.spec_to_luma(y) == 0,
            (self matches RGBConvert::IdentityScale(s) && y >= s.min + s.range) ==> self.spec_to_luma(y) == 255,
    {
        match self {
            RGBConvert::Matrix(m) => {
                lemma_matrix_luma_saturates(m, y as int);
            },
            RGBConvert::Copy(_) => {},
            RGBConvert::IdentityScale(s) => {
                lemma_rescale_saturates(y as int, s.min as int, s.range as int, 256, 255);
            },
        }
    }

    /// Determinism: the result of a conversion is a function of the
    /// configuration and the input pixel alone, so repeated calls with
    /// identical input and configuration produce bit-identical output.
    pub proof fn lemma_to_rgb_deterministic(self, px: YUV<u8>, r1: (int, int, int), r2: (int, int, int))
        requires
            r1 == self.spec_to_rgb(px),
            r2 == self.spec_to_rgb(px),
        ensures
            r1 == r2,
    {
    }
}

impl RGBConvert<u16> {
    /// `to_luma` is monotonic non-decreasing in its input across the full
    /// valid input range, for every well-formed converter.
    pub proof fn lemma_to_luma_monotonic(self, y1: u16, y2: u16)
        requires
            self.wf(),
            y1 <= y2,
        ensures
            self.spec_to_luma(y1) <= self.spec_to_luma(y2),
    {
        match self {
            RGBConvert::Matrix(m) => {
                lemma_luma_num_monotonic(m.y_scale, y1 as int, y2 as int);
                lemma_channel_monotonic(
                    scale_num(m.y_scale, y1 as int),
                    scale_num(m.y_scale, y2 as int),
                    m.y_scale.den as int,
                    m.out_max as int,
                );
            },
            RGBConvert::Copy(_) => {},
            RGBConvert::IdentityScale(s) => {
                lemma_rescale_monotonic(y1 as int, y2 as int, s.min as int, s.range as int, 65536, 65535);
            },
        }
    }

    /// `to_luma` saturates: for the matrix strategy, luma at or below the
    /// span start maps to 0 and luma at or above the span end maps to the
    /// output maximum; the rescaler saturates at its own span ends.
    pub proof fn lemma_to_luma_saturates(self, y: u16)
        requires
            self.wf(),
        ensures
            (self matches RGBConvert::Matrix(m) && y <= m.table.y_min) ==> self.spec_to_luma(y) == 0,
            (self matches RGBConvert::Matrix(m) && y >= m.table.y_max) ==> self.spec_to_luma(y) == 65535,
            (self matches RGBConvert::IdentityScale(s) && y <= s.min) ==> self.spec_to_luma(y) == 0,
            (self matches RGBConvert::IdentityScale(s) && y >= s.min + s.range) ==> self.spec_to_luma(y) == 65535,
    {
        match self {
            RGBConvert::Matrix(m) => {
                lemma_matrix_luma_saturates(m, y as int);
            },
            RGBConvert::Copy(_) => {},
            RGBConvert::IdentityScale(s) => {
                lemma_rescale_saturates(y as int, s.min as int, s.range as int, 65536, 65535);
            },
        }
    }

    /// Determinism: the result of a conversion is a function of the
    /// configuration and the input pixel alone, so repeated calls with
    /// identical input and configuration produce bit-identical output.
    pub proof fn lemma_to_rgb_deterministic(self, px: YUV<u16>, r1: (int, int, int), r2: (int, int, int))
        requires
            r1 == self.spec_to_rgb(px),
            r2 == self.spec_to_rgb(px),
        ensures
            r1 == r2,
    {
    }
}

impl<T> Matrix<T> {
    /// Neutral chroma reproduces a gray ramp: when both chroma samples sit
    /// at the centered neutral point (their scaled term is zero), every
    /// output channel equals the luma-only result.
    pub proof fn lemma_neutral_chroma_gray(self, y: int, u: int, v: int)
        requires
            self.wf(),
            scale_num(self.uv_scale, u) == 0,
            scale_num(self.uv_scale, v) == 0,
        ensures
            self.spec_to_rgb(y, u, v) == (
                self.spec_to_luma(y),
                self.spec_to_luma(y),
                self.spec_to_luma(y),
            ),
    {
        let n = scale_num(self.y_scale, y);
        let yden = self.y_scale.den as int;
        let k1 = 10000 * (self.uv_scale.den as int);
        let k2 = (self.g_den as int) * (self.uv_scale.den as int);
        lemma_mul_by_zero_is_zero(self.a_num as int);
        lemma_mul_by_zero_is_zero(self.d_num as int);
        lemma_mul_by_zero_is_zero(self.b_num as int);
        lemma_mul_by_zero_is_zero(self.c_num as int);
        lemma_mul_by_zero_is_zero(yden);
        lemma_mul_pos(self.g_den as int, self.uv_scale.den as int);
        assert(self.red_num(y, v) == n * k1);
        assert(self.blue_num(y, u) == n * k1);
        assert(self.green_num(y, u, v) == n * k2);
        if n <= 0 {
            assert(n * k1 <= 0) by (nonlinear_arith)
                requires
                    n <= 0,
                    0 < k1,
            ;
            assert(n * k2 <= 0) by (nonlinear_arith)
                requires
                    n <= 0,
                    0 < k2,
            ;
        } else {
            lemma_mul_pos(n, k1);
            lemma_mul_pos(n, k2);
            lemma_mul_is_commutative(n, k1);
            lemma_mul_is_commutative(n, k2);
            lemma_div_multiples_vanish_quotient(k1, n, yden);
            lemma_div_multiples_vanish_quotient(k2, n, yden);
        }
    }
}

/// Saturation of the luma normalization: inputs at or below the span start
/// yield 0, inputs at or above the span end yield the output maximum.
proof fn lemma_matrix_luma_saturates<T>(m: Matrix<T>, y: int)
    requires
        m.wf(),
        0 <= y <= 65535,
    ensures
        y <= m.table.y_min ==> m.spec_to_luma(y) == 0,
        y >= m.table.y_max ==> m.spec_to_luma(y) == m.out_max,
{
    let mn = mn_for(m.out_max as int);
    let s = m.y_scale;
    let ymin = m.table.y_min as int;
    let ymax = m.table.y_max as int;
    let omax = m.out_max as int;
    let span = ymax - ymin;
    if y <= ymin {
        lemma_mul_inequality(y, ymin, s.mul_num as int);
        lemma_mul_is_commutative(ymin, 2 * mn);
        assert(scale_num(s, y) <= 0);
    }
    if y >= ymax {
        assert(y * (2 * mn) - (2 * mn) * ymin >= omax * (2000 * span)) by (nonlinear_arith)
            requires
                y >= ymax,
                span == ymax - ymin,
                mn == 1000 * (omax + 1) - 1,
                1 <= omax,
                1 <= span,
        ;
        assert(scale_num(s, y) >= omax * (s.den as int));
        lemma_channel_saturates_high(scale_num(s, y), s.den as int, omax);
    }
}

/// Saturation of the single-range rescale at its span ends.
proof fn lemma_rescale_saturates(v: int, min: int, span: int, scale: int, out_max: int)
    requires
        0 < span,
        out_max + 1 <= scale,
        0 < out_max,
    ensures
        v <= min ==> spec_rescale(v, min, span, scale, out_max) == 0,
        v >= min + span ==> spec_rescale(v, min, span, scale, out_max) == out_max,
{
    if v <= min {
        lemma_div_of0(span);
    }
    if v >= min + span {
        let d = v - min;
        lemma_mul_inequality(span, d, scale);
        lemma_div_is_ordered(span * scale, d * scale, span);
        lemma_mul_is_commutative(span, scale);
        lemma_div_multiples_vanish(scale, span);
    }
}

/// The quotient of `num` over a positive `den`, floored at zero and
/// saturated at `out_max`.
fn channel_value(num: i128, den: i128, out_max: u16) -> (r: u16)
    requires
        0 < den,
    ensures
        r as int == spec_channel(num as int, den as int, out_max as int),
{
    if num <= 0 {
        0
    } else {
        let q: u128 = (num as u128) / (den as u128);
        if q > out_max as u128 {
            out_max
        } else {
            q as u16
        }
    }
}

} // verus!

