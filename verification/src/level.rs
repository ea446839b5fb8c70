//! The loudness meter: root-mean-square of a sample buffer in fixed point
//! (no floating point anywhere), a fixed gain, clamping, and exponential
//! smoothing. Levels range over `0 ..= LEVEL_SCALE`.

use vstd::prelude::*;
use crate::LEVEL_SCALE;

verus! {

use vstd::arithmetic::mul::lemma_mul_inequality;

/// Gain applied to the raw RMS before clamping.
pub const LEVEL_GAIN: u32 = 3;

/// Weight of the new observation in the exponential moving average, in
/// tenths: three parts new value, seven parts history.
pub const LEVEL_EMA_NUM: u32 = 3;

/// The largest integer whose square does not exceed `x`.
pub open spec fn spec_isqrt(x: int) -> int
    decreases x,
{
    if x <= 0 {
        0
    } else {
        let r = spec_isqrt(x - 1);
        if (r + 1) * (r + 1) <= x {
            r + 1
        } else {
            r
        }
    }
}

pub proof fn lemma_isqrt_bounds(x: int)
    requires
        x >= 0,
    ensures
        0 <= spec_isqrt(x),
        spec_isqrt(x) * spec_isqrt(x) <= x,
        x < (spec_isqrt(x) + 1) * (spec_isqrt(x) + 1),
    decreases x,
{
    if x > 0 {
        lemma_isqrt_bounds(x - 1);
        let r = spec_isqrt(x - 1);
        if (r + 1) * (r + 1) <= x {
            assert(x < (r + 2) * (r + 2)) by (nonlinear_arith)
                requires
                    r >= 0,
                    x - 1 < (r + 1) * (r + 1),
            ;
        }
    }
}

/// Any `r` with `r * r <= x < (r + 1) * (r + 1)` is the integer square root.
pub proof fn lemma_isqrt_unique(x: int, r: int)
    requires
        x >= 0,
        r >= 0,
        r * r <= x,
        x < (r + 1) * (r + 1),
    ensures
        spec_isqrt(x) == r,
{
    let s = spec_isqrt(x);
    lemma_isqrt_bounds(x);
    if s < r {
        assert((s + 1) * (s + 1) <= r * r) by (nonlinear_arith)
            requires
                0 <= s,
                s + 1 <= r,
        ;
        assert(false);
    }
    if r < s {
        assert((r + 1) * (r + 1) <= s * s) by (nonlinear_arith)
            requires
                0 <= r,
                r + 1 <= s,
        ;
        assert(false);
    }
}

/// Integer square root by binary search.
pub fn isqrt_u128(x: u128) -> (r: u128)
    ensures
        r == spec_isqrt(x as int),
{
    let mut lo: u128 = 0;
    let mut hi: u128 = 0x1_0000_0000_0000_0000;
    if x < hi {
        hi = x + 1;
    }
    proof {
        if x < 0x1_0000_0000_0000_0000 {
            assert((x as int + 1) * (x as int + 1) > x as int) by (nonlinear_arith)
                requires
                    x as int >= 0,
            ;
        }
    }
    while lo + 1 < hi
        invariant
            0 <= lo < hi <= 0x1_0000_0000_0000_0000,
            lo * lo <= x as int,
            (hi as int) * (hi as int) > x as int,
        decreases hi - lo,
    {
        let mid = lo + (hi - lo) / 2;
        proof {
            assert(lo < mid < hi);
            assert((mid as int) * (mid as int) <= (0xffff_ffff_ffff_ffff as int)
                * (0xffff_ffff_ffff_ffff as int)) by (nonlinear_arith)
                requires
                    0 <= mid as int <= 0xffff_ffff_ffff_ffff,
            ;
        }
        if mid * mid <= x {
            lo = mid;
        } else {
            hi = mid;
        }
    }
    proof {
        lemma_isqrt_unique(x as int, lo as int);
    }
    lo
}

/// Sum of squares of a sample sequence.
pub open spec fn sum_squares(s: Seq<i16>) -> int
    decreases s.len(),
{
    if s.len() == 0 {
        0
    } else {
        s[0] * s[0] + sum_squares(s.drop_first())
    }
}

pub proof fn lemma_sum_squares_push(s: Seq<i16>, x: i16)
    ensures
        sum_squares(s.push(x)) == sum_squares(s) + x * x,
    decreases s.len(),
{
    if s.len() == 0 {
        assert(s.push(x).drop_first().len() == 0);
        assert(sum_squares(s.push(x).drop_first()) == 0);
        assert(s.push(x)[0] == x);
    } else {
        assert(s.push(x).drop_first() =~= s.drop_first().push(x));
        lemma_sum_squares_push(s.drop_first(), x);
    }
}

pub proof fn lemma_sum_squares_bounds(s: Seq<i16>)
    ensures
        0 <= sum_squares(s) <= s.len() * 0x4000_0000,
    decreases s.len(),
{
    if s.len() != 0 {
        lemma_sum_squares_bounds(s.drop_first());
        assert(s[0] * s[0] <= 0x4000_0000) by (nonlinear_arith)
            requires
                -0x8000 <= s[0] <= 0x7fff,
        ;
        assert(s[0] * s[0] >= 0) by (nonlinear_arith);
    }
}

/// The mean square of the buffer, scaled so that full-scale samples give
/// `LEVEL_SCALE * LEVEL_SCALE`, rounded down; zero for an empty buffer.
pub open spec fn spec_mean_square_scaled(s: Seq<i16>) -> int {
    if s.len() == 0 {
        0
    } else {
        sum_squares(s) * (LEVEL_SCALE as int) * (LEVEL_SCALE as int) / (s.len() as int * 32767
            * 32767)
    }
}

/// The gained, clamped RMS of the buffer, in `0 ..= LEVEL_SCALE`.
pub open spec fn spec_gained_rms(s: Seq<i16>) -> int {
    let g = (LEVEL_GAIN as int) * spec_isqrt(spec_mean_square_scaled(s));
    if g > LEVEL_SCALE as int {
        LEVEL_SCALE as int
    } else {
        g
    }
}

/// One smoothing step: three tenths of the new observation, seven tenths of
/// the previous level.
pub open spec fn spec_level_step(prev: int, s: Seq<i16>) -> int {
    ((LEVEL_EMA_NUM as int) * spec_gained_rms(s) + (10 - LEVEL_EMA_NUM as int) * prev) / 10
}

/// The smoothed loudness meter.
pub struct LevelMeter {
    pub level: u32,
}

impl LevelMeter {
    /// Meter values stay in range.
    pub open spec fn wf(&self) -> bool {
        self.level <= LEVEL_SCALE
    }

    /// A meter at rest.
    pub fn new() -> (r: LevelMeter)
        ensures
            r.wf(),
            r.level == 0,
    {
        LevelMeter { level: 0 }
    }

    /// Drops the meter back to silence.
    pub fn reset(&mut self)
        ensures
            final(self).wf(),
            final(self).level == 0,
    {
        self.level = 0;
    }

    /// The current smoothed level.
    pub fn current(&self) -> (r: u32)
        ensures
            r == self.level,
    {
        self.level
    }

    /// Feeds one non-empty sample buffer into the meter.
    pub fn observe(&mut self, samples: &Vec<i16>)
        requires
            old(self).wf(),
            samples@.len() > 0,
        ensures
            final(self).wf(),
            final(self).level == spec_level_step(old(self).level as int, samples@),
    {
        let n = samples.len();
        let mut sum: u128 = 0;
        let mut i: usize = 0;
        while i < n
            invariant
                n == samples@.len(),
                i <= n,
                sum == sum_squares(samples@.take(i as int)),
                sum <= (i as int) * 0x4000_0000,
            decreases n - i,
        {
            let v: i64 = samples[i] as i64;
            proof {
                assert(v * v <= 0x4000_0000 && v * v >= 0) by (nonlinear_arith)
                    requires
                        -0x8000 <= v <= 0x7fff,
                ;
                lemma_sum_squares_push(samples@.take(i as int), samples@[i as int]);
                assert(samples@.take(i as int).push(samples@[i as int]) =~= samples@.take(i + 1));
                assert((i as int) * 0x4000_0000 + 0x4000_0000 == (i + 1) * 0x4000_0000) by (
                nonlinear_arith);
                assert((i + 1) * 0x4000_0000 <= 0x1_0000_0000_0000_0000 * 0x4000_0000) by (
                nonlinear_arith)
                    requires
                        0 <= i + 1 <= 0x1_0000_0000_0000_0000,
                ;
            }
            let sq: u128 = (v * v) as u128;
            sum = sum + sq;
            i += 1;
        }
        proof {
            assert(samples@.take(n as int) =~= samples@);
            assert((n as int) * 0x4000_0000 <= 0x1_0000_0000_0000_0000 * 0x4000_0000) by (
            nonlinear_arith)
                requires
                    0 <= n as int <= 0x1_0000_0000_0000_0000,
            ;
            assert(sum * 10000 <= 0x1_0000_0000_0000_0000 * 0x4000_0000 * 10000) by (
            nonlinear_arith)
                requires
                    0 <= sum <= 0x1_0000_0000_0000_0000 * 0x4000_0000,
            ;
            assert(sum * 10000 * 10000 <= 0x1_0000_0000_0000_0000 * 0x4000_0000 * 10000 * 10000)
                by (nonlinear_arith)
                requires
                    0 <= sum * 10000 <= 0x1_0000_0000_0000_0000 * 0x4000_0000 * 10000,
            ;
            assert((n as int) * 32767 <= 0x1_0000_0000_0000_0000 * 32767) by (nonlinear_arith)
                requires
                    0 <= n as int <= 0x1_0000_0000_0000_0000,
            ;
            assert((n as int) * 32767 * 32767 <= 0x1_0000_0000_0000_0000 * 32767 * 32767) by (
            nonlinear_arith)
                requires
                    0 <= (n as int) * 32767 <= 0x1_0000_0000_0000_0000 * 32767,
            ;
            assert((n as int) * 32767 * 32767 >= 1) by (nonlinear_arith)
                requires
                    n as int >= 1,
            ;
        }
        let scaled: u128 = sum * 10000 * 10000;
        let divisor: u128 = (n as u128) * 32767 * 32767;
        let ms: u128 = scaled / divisor;
        let rms: u128 = isqrt_u128(ms);
        proof {
            lemma_isqrt_bounds(ms as int);
            assert(rms <= 0x1_0000_0000_0000_0000) by (nonlinear_arith)
                requires
                    0 <= rms,
                    (rms as int) * (rms as int) <= ms as int,
                    ms as int <= 0xffffffffffffffffffffffffffffffff,
            ;
            assert(ms as int == spec_mean_square_scaled(samples@));
        }
        let gained: u128 = 3 * rms;
        let clamped: u32 = if gained > 10000 {
            10000
        } else {
            gained as u32
        };
        proof {
            assert(clamped as int == spec_gained_rms(samples@));
        }
        let stepped: u32 = (3 * clamped + 7 * self.level) / 10;
        proof {
            assert(stepped as int == spec_level_step(old(self).level as int, samples@));
            assert(stepped <= 10000);
        }
        self.level = stepped;
    }
}

} // verus!
