//! The parameter model: pure derivation of target bitrate, rate-control
//! bounds, tile parallelism and fixed encoder constants from codec, quality
//! tier, resolution and frame rate.

use vstd::prelude::*;
use crate::types::{Quality, VCodec, tier_rank};
use vstd::arithmetic::div_mod::lemma_fundamental_div_mod;

verus! {

/// Constant rate factor used alongside the bitrate target.
pub const CRF: u32 = 31;

/// Encoder thread count.
pub const THREADS: u32 = 16;

/// Bitrate of the raw video signal: 24 bits per pixel (8-bit RGB) times
/// resolution times frames per second, rounded down.
pub open spec fn spec_uncompressed_bitrate(fps: (u32, u32), x: u32, y: u32) -> int {
    24 * (x as int) * (y as int) * (fps.0 as int) / (fps.1 as int)
}

/// The compression factor of a tier before any codec adjustment; a larger
/// factor means a lower target bitrate.
pub open spec fn spec_base_factor(quality: Quality) -> int {
    match quality {
        Quality::VeryLow => 4600,
        Quality::Low => 3200,
        Quality::Medium => 1500,
        Quality::High => 640,
        Quality::VeryHigh => 280,
    }
}

/// The compression factor used for a codec: AV1 needs about 30% fewer bits
/// than VP9 for equivalent quality, so its factor is the base scaled by
/// 100/70.
pub open spec fn spec_compression_factor(codec: VCodec, quality: Quality) -> int {
    match codec {
        VCodec::Copy => spec_base_factor(quality),
        VCodec::Vp9 => spec_base_factor(quality),
        VCodec::Av1 => spec_base_factor(quality) * 100 / 70,
    }
}

/// Target bitrate: the uncompressed bitrate divided by the compression
/// factor.
pub open spec fn spec_bitrate(codec: VCodec, quality: Quality, uncompressed: int) -> int {
    uncompressed / spec_compression_factor(codec, quality)
}

/// Lower rate-control bound: 50% of the target bitrate.
pub open spec fn spec_minrate(bitrate: int) -> int {
    bitrate * 50 / 100
}

/// Upper rate-control bound: 145% of the target bitrate. The headroom is
/// asymmetric because under-allocation harms perceptual quality more than
/// over-allocation.
pub open spec fn spec_maxrate(bitrate: int) -> int {
    bitrate * 145 / 100
}

/// Encoder tile columns, bucketed by horizontal resolution.
pub open spec fn spec_tile_columns(width: u16) -> int {
    if width < 640 {
        0
    } else if width < 1024 {
        1
    } else if width < 2560 {
        2
    } else {
        3
    }
}

/// Fixed audio bitrate table (kilobits per second) per quality tier.
pub open spec fn spec_audio_bitrate(quality: Quality) -> int {
    match quality {
        Quality::VeryLow => 16,
        Quality::Low => 24,
        Quality::Medium => 32,
        Quality::High => 64,
        Quality::VeryHigh => 96,
    }
}

/// Bitrate of the raw video signal in bits per second.
///
/// `x` and `y` are the frame dimensions, `fps` the frame rate as a
/// numerator/denominator pair.
pub fn uncompressed_bitrate(fps: (u32, u32), x: u32, y: u32) -> (r: u64)
    requires
        fps.1 != 0,
        spec_uncompressed_bitrate(fps, x, y) <= u64::MAX,
    ensures
        r == spec_uncompressed_bitrate(fps, x, y),
{
    proof {
        let b32: int = 0x1_0000_0000;
        assert(24 * (x as int) <= u128::MAX && 24 * (x as int) * (y as int) <= u128::MAX
            && 24 * (x as int) * (y as int) * (fps.0 as int) <= u128::MAX) by (nonlinear_arith)
            requires
                0 <= (x as int) && (x as int) < b32,
                0 <= (y as int) && (y as int) < b32,
                0 <= (fps.0 as int) && (fps.0 as int) < b32,
                b32 == 0x1_0000_0000,
        ;
    }
    let wide: u128 = 24u128 * (x as u128) * (y as u128) * (fps.0 as u128);
    let q: u128 = wide / (fps.1 as u128);
    q as u64
}

/// The compression factor for a codec and quality tier.
pub fn compression_factor(codec: VCodec, quality: Quality) -> (r: u32)
    ensures
        r == spec_compression_factor(codec, quality),
{
    let factor: u32 = match quality {
        Quality::VeryLow => 4600,
        Quality::Low => 3200,
        Quality::Medium => 1500,
        Quality::High => 640,
        Quality::VeryHigh => 280,
    };
    match codec {
        VCodec::Copy => factor,
        VCodec::Vp9 => factor,
        VCodec::Av1 => factor * 100 / 70,
    }
}

/// Encoder tile columns for a frame width.
pub fn tile_columns(width: u16) -> (r: u32)
    ensures
        r == spec_tile_columns(width),
{
    if width < 640 {
        0
    } else if width < 1024 {
        1
    } else if width < 2560 {
        2
    } else {
        3
    }
}

/// The fixed audio bitrate (kbps) of a quality tier.
pub fn compute_audio_bitrate(quality: Quality) -> (r: u32)
    ensures
        r == spec_audio_bitrate(quality),
{
    match quality {
        Quality::VeryLow => 16,
        Quality::Low => 24,
        Quality::Medium => 32,
        Quality::High => 64,
        Quality::VeryHigh => 96,
    }
}

/// Everything the encoder needs to know about video rate control for one
/// operation. Derived fresh per operation; never stored.
#[derive(Debug, Clone, Copy, PartialEq, Eq, Structural)]
pub struct EncodeParameters {
    /// Target bitrate, bits per second.
    pub bitrate: u64,
    /// Lower rate-control bound (50% of `bitrate`).
    pub minrate: u64,
    /// Upper rate-control bound (145% of `bitrate`).
    pub maxrate: u64,
    /// Encoder tile columns.
    pub tile_columns: u32,
    /// Encoder thread count.
    pub threads: u32,
    /// Constant rate factor.
    pub crf: u32,
}

/// The parameters the model derives for a codec, tier, resolution and
/// frame rate.
pub open spec fn spec_video_params(
    codec: VCodec,
    quality: Quality,
    width: u16,
    height: u16,
    fps_num: u32,
    fps_den: u32,
) -> EncodeParameters {
    let u = spec_uncompressed_bitrate((fps_num, fps_den), width as u32, height as u32);
    let b = spec_bitrate(codec, quality, u);
    EncodeParameters {
        bitrate: b as u64,
        minrate: spec_minrate(b) as u64,
        maxrate: spec_maxrate(b) as u64,
        tile_columns: spec_tile_columns(width) as u32,
        threads: THREADS,
        crf: CRF,
    }
}

/// Derive the video encode parameters for a codec, quality tier, resolution
/// and frame rate. The codec must be one that is actually encoded: a `Copy`
/// codec bypasses the parameter model. The uncompressed bitrate must fit
/// the 64-bit arithmetic the model is computed in.
pub fn compute_video_params(
    codec: VCodec,
    quality: Quality,
    width: u16,
    height: u16,
    fps_num: u32,
    fps_den: u32,
) -> (r: EncodeParameters)
    requires
        codec != VCodec::Copy,
        fps_den != 0,
        spec_uncompressed_bitrate((fps_num, fps_den), width as u32, height as u32) <= u64::MAX,
    ensures
        r == spec_video_params(codec, quality, width, height, fps_num, fps_den),
{
    let u = uncompressed_bitrate((fps_num, fps_den), width as u32, height as u32);
    let factor = compression_factor(codec, quality);
    let bitrate: u64 = u / (factor as u64);
    proof {
        lemma_bitrate_headroom_fits(u as int, factor as int);
    }
    let minrate: u64 = bitrate * 50 / 100;
    let maxrate: u64 = bitrate * 145 / 100;
    EncodeParameters {
        bitrate,
        minrate,
        maxrate,
        tile_columns: tile_columns(width),
        threads: THREADS,
        crf: CRF,
    }
}

/// The 145% headroom on a bitrate derived from a 64-bit uncompressed
/// bitrate still fits in 64 bits, because every compression factor is at
/// least 280.
proof fn lemma_bitrate_headroom_fits(u: int, factor: int)
    requires
        0 <= u <= u64::MAX,
        factor >= 280,
    ensures
        0 <= u / factor,
        u / factor * 145 <= u64::MAX,
        u / factor * 50 <= u64::MAX,
        u / factor * 145 / 100 <= u64::MAX,
        u / factor * 50 / 100 <= u64::MAX,
{
    lemma_fundamental_div_mod(u, factor);
    let q = u / factor;
    assert(q >= 0 && q * 145 <= u64::MAX && q * 50 <= u64::MAX) by (nonlinear_arith)
        requires
            0 <= u <= u64::MAX,
            factor >= 280,
            u == factor * q + u % factor,
            0 <= u % factor < factor,
    ;
    lemma_div_le_self(q * 145, 100);
    lemma_div_le_self(q * 50, 100);
}

/// Above this uncompressed bitrate, every pair of distinct quality tiers is
/// separated by at least one bit per second of target bitrate, for both
/// encoding codecs. (Below it, integer division can collapse neighbouring
/// tiers: with an uncompressed bitrate of 0 every tier's bitrate is 0.)
pub const STRICT_TIER_FLOOR: u64 = 15019;

/// The AV1 compression factor is the VP9 factor scaled by 100/70 (in
/// integer arithmetic), for every quality tier; the rate-control bounds of
/// both codecs are the same fixed ratios (50% and 145%) of their own target
/// bitrate.
pub proof fn lemma_av1_factor_scales(quality: Quality, u: int)
    requires
        u >= 0,
    ensures
        spec_compression_factor(VCodec::Av1, quality) == spec_compression_factor(
            VCodec::Vp9,
            quality,
        ) * 100 / 70,
        spec_bitrate(VCodec::Av1, quality, u) == u / (spec_compression_factor(VCodec::Vp9, quality)
            * 100 / 70),
        spec_minrate(spec_bitrate(VCodec::Av1, quality, u)) == spec_bitrate(
            VCodec::Av1,
            quality,
            u,
        ) * 50 / 100,
        spec_maxrate(spec_bitrate(VCodec::Av1, quality, u)) == spec_bitrate(
            VCodec::Av1,
            quality,
            u,
        ) * 145 / 100,
{
}

/// The AV1 target bitrate for a tier is at least 70% of the VP9 target
/// bitrate and never more than it: the exact quotient varies with integer
/// rounding, so no exact proportionality between the two holds.
pub proof fn lemma_av1_bitrate_bounds(quality: Quality, u: int)
    requires
        u >= 0,
    ensures
        spec_bitrate(VCodec::Av1, quality, u) <= spec_bitrate(VCodec::Vp9, quality, u),
        spec_bitrate(VCodec::Av1, quality, u) >= spec_bitrate(VCodec::Vp9, quality, u) * 70 / 100,
{
    let f = spec_base_factor(quality);
    let fa = spec_compression_factor(VCodec::Av1, quality);
    lemma_div_ordered_by_divisor(u, f, fa);
    // Real-valued, u / fa >= (u / f) * 7 / 10 because fa <= 10 * f / 7;
    // integer floors preserve the ordering.
    let v = spec_bitrate(VCodec::Vp9, quality, u);
    let w = v * 70 / 100;
    lemma_fundamental_div_mod(u, f);
    lemma_fundamental_div_mod(v * 70, 100);
    assert(100 * w <= 70 * v);
    assert(10 * w <= 7 * v);
    assert(v >= 0 && w >= 0 && f * v <= u) by (nonlinear_arith)
        requires
            u >= 0,
            f >= 280,
            v == u / f,
            u == f * (u / f) + u % f,
            0 <= u % f < f,
            100 * w <= 70 * v,
            v * 70 == 100 * w + (v * 70) % 100,
            0 <= (v * 70) % 100 < 100,
    ;
    assert(fa * w <= u) by (nonlinear_arith)
        requires
            7 * fa <= 10 * f,
            10 * w <= 7 * v,
            w >= 0,
            f >= 280,
            fa >= 280,
            f * v <= u,
            v >= 0,
    ;
    vstd::arithmetic::div_mod::lemma_div_is_ordered(fa * w, u, fa);
    vstd::arithmetic::div_mod::lemma_div_multiples_vanish(w, fa);
}

/// The target bitrate is strictly decreasing as the quality tier decreases,
/// for a fixed codec and a fixed uncompressed bitrate of at least
/// `STRICT_TIER_FLOOR`.
pub proof fn lemma_bitrate_strictly_decreasing(codec: VCodec, q1: Quality, q2: Quality, u: int)
    requires
        codec != VCodec::Copy,
        tier_rank(q1) < tier_rank(q2),
        u >= STRICT_TIER_FLOOR,
    ensures
        spec_bitrate(codec, q1, u) < spec_bitrate(codec, q2, u),
{
    match codec {
        VCodec::Copy => {
        },
        VCodec::Vp9 => {
            lemma_div_gap(u, 280, 640);
            lemma_div_gap(u, 640, 1500);
            lemma_div_gap(u, 1500, 3200);
            lemma_div_gap(u, 3200, 4600);
        },
        VCodec::Av1 => {
            lemma_div_gap(u, 400, 914);
            lemma_div_gap(u, 914, 2142);
            lemma_div_gap(u, 2142, 4571);
            lemma_div_gap(u, 4571, 6571);
        },
    }
}

/// The target bitrate never increases as the quality tier decreases, for a
/// fixed codec and any uncompressed bitrate.
pub proof fn lemma_bitrate_monotone(codec: VCodec, q1: Quality, q2: Quality, u: int)
    requires
        codec != VCodec::Copy,
        tier_rank(q1) <= tier_rank(q2),
        u >= 0,
    ensures
        spec_bitrate(codec, q1, u) <= spec_bitrate(codec, q2, u),
{
    lemma_div_ordered_by_divisor(
        u,
        spec_compression_factor(codec, q2),
        spec_compression_factor(codec, q1),
    );
}

/// Dividing by a larger positive divisor gives a smaller-or-equal quotient.
proof fn lemma_div_ordered_by_divisor(u: int, a: int, b: int)
    requires
        u >= 0,
        0 < a <= b,
    ensures
        u / b <= u / a,
{
    lemma_fundamental_div_mod(u, a);
    lemma_fundamental_div_mod(u, b);
    assert(u / b <= u / a) by (nonlinear_arith)
        requires
            u >= 0,
            0 < a <= b,
            u == a * (u / a) + u % a,
            0 <= u % a < a,
            u == b * (u / b) + u % b,
            0 <= u % b < b,
    ;
}

/// When `u * (b - a) >= a * b`, the quotients of `u` by `a` and by `b`
/// differ: the gap between `u / a` and `u / b` is at least 1.
proof fn lemma_div_gap(u: int, a: int, b: int)
    requires
        0 < a < b,
        u >= 0,
        u * (b - a) >= a * b,
    ensures
        u / b < u / a,
{
    lemma_fundamental_div_mod(u, a);
    lemma_fundamental_div_mod(u, b);
    assert(u / b < u / a) by (nonlinear_arith)
        requires
            0 < a < b,
            u >= 0,
            u * (b - a) >= a * b,
            u == a * (u / a) + u % a,
            0 <= u % a < a,
            u == b * (u / b) + u % b,
            0 <= u % b < b,
    ;
}

/// Dividing a nonnegative value by a positive divisor does not increase it.
proof fn lemma_div_le_self(p: int, d: int)
    requires
        p >= 0,
        d >= 1,
    ensures
        0 <= p / d <= p,
{
    lemma_fundamental_div_mod(p, d);
    assert(0 <= p / d <= p) by (nonlinear_arith)
        requires
            p >= 0,
            d >= 1,
            p == d * (p / d) + p % d,
            0 <= p % d < d,
    ;
}

} // verus!

