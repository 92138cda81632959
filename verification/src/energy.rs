//! Loudness of a block of samples.
//!
//! The loudness of a block is the root-mean-square of its samples, taken in
//! their native 16-bit range. The library keeps the integer part of that
//! number: every threshold it is compared with is a whole number, and for a
//! whole number `t` the root-mean-square is at least `t` exactly when its
//! integer part is (see [`lemma_threshold_exact`]).

use vstd::prelude::*;

verus! {

/// Largest loudness a block of 16-bit samples can have.
pub const MAX_ENERGY: u32 = 32768;

/// The square of one sample.
pub open spec fn square(x: i16) -> nat {
    (x as int * x as int) as nat
}

/// Sum of the squares of all samples of a block.
pub open spec fn sum_squares(s: Seq<i16>) -> nat
    decreases s.len(),
{
    if s.len() == 0 {
        0
    } else {
        sum_squares(s.drop_last()) + square(s.last())
    }
}

/// `e` is the integer part of the root-mean-square of `s`: the largest whole
/// number whose square is at most the mean of the squares. The empty block
/// has loudness 0.
pub open spec fn is_rms_floor(s: Seq<i16>, e: nat) -> bool {
    if s.len() == 0 {
        e == 0
    } else {
        e * e * s.len() <= sum_squares(s) < (e + 1) * (e + 1) * s.len()
    }
}

/// The integer part of the root-mean-square of `s`.
pub open spec fn rms_floor(s: Seq<i16>) -> nat {
    choose|e: nat| is_rms_floor(s, e)
}

/// The sum of squares grows by one square with each sample appended.
pub proof fn lemma_sum_squares_push(s: Seq<i16>, x: i16)
    ensures
        sum_squares(s.push(x)) == sum_squares(s) + square(x),
{
    assert(s.push(x).drop_last() =~= s);
    assert(s.push(x).last() == x);
}

/// No square of a 16-bit sample exceeds 2^30, so the sum is bounded by the
/// length of the block.
pub proof fn lemma_sum_squares_bound(s: Seq<i16>)
    ensures
        sum_squares(s) <= s.len() * 0x4000_0000,
    decreases s.len(),
{
    if s.len() > 0 {
        lemma_sum_squares_bound(s.drop_last());
        let x = s.last();
        assert(square(x) <= 0x4000_0000) by (nonlinear_arith)
            requires
                -32768 <= x as int <= 32767,
                square(x) == (x as int * x as int) as nat,
        ;
    }
}

/// Squaring keeps the order of natural numbers.
proof fn lemma_square_monotone(a: nat, b: nat)
    requires
        a <= b,
    ensures
        a * a <= b * b,
{
    assert(a * a <= b * b) by (nonlinear_arith)
        requires
            a <= b,
    ;
}

/// At most one number is the integer part of the root-mean-square.
pub proof fn lemma_rms_floor_unique(s: Seq<i16>, a: nat, b: nat)
    requires
        is_rms_floor(s, a),
        is_rms_floor(s, b),
    ensures
        a == b,
{
    if s.len() > 0 {
        let n = s.len();
        if a < b {
            lemma_square_monotone(a + 1, b);
            assert((a + 1) * (a + 1) * n <= b * b * n) by (nonlinear_arith)
                requires
                    (a + 1) * (a + 1) <= b * b,
            ;
        } else if b < a {
            lemma_square_monotone(b + 1, a);
            assert((b + 1) * (b + 1) * n <= a * a * n) by (nonlinear_arith)
                requires
                    (b + 1) * (b + 1) <= a * a,
            ;
        }
    }
}

/// A number that meets the definition is the loudness.
pub proof fn lemma_rms_floor_is(s: Seq<i16>, e: nat)
    requires
        is_rms_floor(s, e),
    ensures
        rms_floor(s) == e,
{
    lemma_rms_floor_unique(s, e, rms_floor(s));
}

/// Comparing the loudness with a whole-number threshold loses nothing: the
/// integer part reaches `t` exactly when the mean of the squares reaches
/// `t * t`, that is when the root-mean-square itself reaches `t`.
pub proof fn lemma_threshold_exact(s: Seq<i16>, e: nat, t: nat)
    requires
        s.len() > 0,
        is_rms_floor(s, e),
    ensures
        e >= t <==> sum_squares(s) >= t * t * s.len(),
{
    let n = s.len();
    if e >= t {
        lemma_square_monotone(t, e);
        assert(t * t * n <= e * e * n) by (nonlinear_arith)
            requires
                t * t <= e * e,
        ;
    } else {
        lemma_square_monotone(e + 1, t);
        assert((e + 1) * (e + 1) * n <= t * t * n) by (nonlinear_arith)
            requires
                (e + 1) * (e + 1) <= t * t,
        ;
    }
}

/// Sum of the squares of a block, computed without overflow for a block of
/// any length.
pub fn sum_of_squares(samples: &[i16]) -> (total: u128)
    ensures
        total == sum_squares(samples@),
{
    let mut total: u128 = 0;
    let mut i: usize = 0;
    proof {
        assert(samples@.subrange(0, 0) =~= Seq::<i16>::empty());
    }
    while i < samples.len()
        invariant
            i <= samples.len(),
            total == sum_squares(samples@.subrange(0, i as int)),
        decreases samples.len() - i,
    {
        let x: i64 = samples[i] as i64;
        proof {
            let prefix = samples@.subrange(0, i as int);
            lemma_sum_squares_bound(prefix);
            lemma_sum_squares_push(prefix, samples@[i as int]);
            assert(prefix.push(samples@[i as int]) =~= samples@.subrange(0, i + 1));
            assert(0 <= x * x <= 0x4000_0000) by (nonlinear_arith)
                requires
                    -32768 <= x <= 32767,
            ;
            assert(prefix.len() * 0x4000_0000 <= 0xffff_ffff_ffff_ffff * 0x4000_0000)
                by (nonlinear_arith)
                requires
                    prefix.len() <= 0xffff_ffff_ffff_ffff,
            ;
        }
        let sq: i64 = x * x;
        total = total + sq as u128;
        i = i + 1;
    }
    proof {
        assert(samples@.subrange(0, samples.len() as int) =~= samples@);
    }
    total
}

/// Integer square root: the largest whole number whose square is at most
/// `m`.
pub fn integer_sqrt(m: u64) -> (r: u32)
    ensures
        r * r <= m < (r + 1) * (r + 1),
{
    let mut lo: u64 = 0;
    let mut hi: u64 = 0x1_0000_0000;
    assert(0x1_0000_0000u64 * 0x1_0000_0000u64 > u64::MAX) by (nonlinear_arith);
    while hi - lo > 1
        invariant
            lo < hi <= 0x1_0000_0000,
            lo * lo <= m < hi * hi,
        decreases hi - lo,
    {
        let mid: u64 = lo + (hi - lo) / 2;
        assert(mid * mid <= 0x1_0000_0000 * 0x1_0000_0000) by (nonlinear_arith)
            requires
                mid <= 0x1_0000_0000,
        ;
        let square: u128 = mid as u128 * mid as u128;
        if square <= m as u128 {
            lo = mid;
        } else {
            hi = mid;
        }
    }
    lo as u32
}

/// Loudness of a block of samples: the integer part of its root-mean-square,
/// 0 for the empty block.
pub fn calculate_rms(samples: &[i16]) -> (e: u32)
    ensures
        e == rms_floor(samples@),
        is_rms_floor(samples@, e as nat),
        e <= MAX_ENERGY,
{
    if samples.len() == 0 {
        proof {
            lemma_rms_floor_is(samples@, 0);
        }
        return 0;
    }
    let total = sum_of_squares(samples);
    let n: u128 = samples.len() as u128;
    proof {
        lemma_sum_squares_bound(samples@);
        assert(total / n <= 0x4000_0000) by (nonlinear_arith)
            requires
                total <= n * 0x4000_0000,
                n > 0,
        ;
    }
    let mean: u64 = (total / n) as u64;
    let e = integer_sqrt(mean);
    proof {
        let ee: nat = e as nat;
        let q: nat = (total / n) as nat;
        assert(ee <= 32768) by (nonlinear_arith)
            requires
                ee * ee <= q,
                q <= 0x4000_0000,
        ;
        assert(ee * ee <= q < (ee + 1) * (ee + 1));
        assert(ee * ee * n <= total && total < (ee + 1) * (ee + 1) * n) by (nonlinear_arith)
            requires
                ee * ee <= q < (ee + 1) * (ee + 1),
                q == total / n,
                n > 0,
        ;
        assert(is_rms_floor(samples@, ee));
        lemma_rms_floor_is(samples@, ee);
    }
    e
}

} // verus!
