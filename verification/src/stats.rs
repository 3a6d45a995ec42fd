//! Summary statistics over a completed sequence of trial durations.
//!
//! The report truncates the mean and the population standard deviation to
//! whole nanoseconds, and exactly those truncated values are computed here,
//! in integers: the mean is the floored quotient of the sum, and the
//! standard deviation is the floored square root of the exact variance
//! floor(sqrt((N·Σx² − (Σx)²) / N²)), since flooring the radicand first
//! does not change the floored root. Each function says precisely when it
//! answers: an empty sequence has no statistics, and a sequence whose
//! intermediate products exceed 128 bits is refused rather than summarized
//! wrongly.

use vstd::prelude::*;

verus! {

/// Sum of the durations, as an unbounded integer.
pub open spec fn sum_seq(s: Seq<u64>) -> int
    decreases s.len(),
{
    if s.len() == 0 {
        0
    } else {
        sum_seq(s.drop_last()) + s.last()
    }
}

/// Sum of the squared durations, as an unbounded integer.
pub open spec fn sum_sq_seq(s: Seq<u64>) -> int
    decreases s.len(),
{
    if s.len() == 0 {
        0
    } else {
        sum_sq_seq(s.drop_last()) + s.last() * s.last()
    }
}

/// N² times the population variance: N·Σx² − (Σx)².
pub open spec fn variance_num(s: Seq<u64>) -> int {
    s.len() * sum_sq_seq(s) - sum_seq(s) * sum_seq(s)
}

/// The population variance rounded down to a whole number.
pub open spec fn variance_floor(s: Seq<u64>) -> int {
    variance_num(s) / (s.len() * s.len()) as int
}

/// r is the square root of x rounded down.
pub open spec fn is_floor_sqrt(x: int, r: int) -> bool {
    0 <= r && r * r <= x && x < (r + 1) * (r + 1)
}

/// Every intermediate product of the standard-deviation computation fits in
/// 128 bits.
pub open spec fn stats_in_range(s: Seq<u64>) -> bool {
    sum_sq_seq(s) <= u128::MAX && s.len() * sum_sq_seq(s) <= u128::MAX && sum_seq(s) * sum_seq(
        s,
    ) <= u128::MAX
}

/// The sum of durations is bounded by the count times the largest duration.
proof fn lemma_sum_seq_bound(s: Seq<u64>)
    ensures
        0 <= sum_seq(s) <= s.len() * u64::MAX,
    decreases s.len(),
{
    if s.len() > 0 {
        lemma_sum_seq_bound(s.drop_last());
    }
}

/// A prefix's sum of squares never exceeds the whole sequence's.
proof fn lemma_sum_sq_prefix_le(s: Seq<u64>, i: int)
    requires
        0 <= i <= s.len(),
    ensures
        sum_sq_seq(s.subrange(0, i)) <= sum_sq_seq(s),
    decreases s.len() - i,
{
    if i < s.len() {
        lemma_sum_sq_prefix_le(s, i + 1);
        assert(s.subrange(0, i + 1).drop_last() =~= s.subrange(0, i));
        let x = s[i];
        assert(x * x >= 0) by (nonlinear_arith);
    } else {
        assert(s.subrange(0, i) =~= s);
    }
}

/// Squares dominate cross terms: a² + b² is at least 2ab.
proof fn lemma_two_sq(a: int, b: int)
    ensures
        a * a + b * b >= 2 * (a * b),
{
    assert(a * a + b * b >= 2 * (a * b)) by (nonlinear_arith);
}

/// Summed form of the cross-term bound: Σx² + N·c² is at least 2·c·Σx.
proof fn lemma_sum_cross(s: Seq<u64>, c: int)
    ensures
        sum_sq_seq(s) + s.len() * (c * c) >= 2 * (c * sum_seq(s)),
    decreases s.len(),
{
    if s.len() == 0 {
        assert(c * c >= 0) by (nonlinear_arith);
    } else {
        let t = s.drop_last();
        let l = s.last() as int;
        lemma_sum_cross(t, c);
        lemma_two_sq(l, c);
        assert((s.len()) * (c * c) == t.len() * (c * c) + c * c) by (nonlinear_arith)
            requires
                s.len() == t.len() + 1,
        ;
        assert(2 * (c * (sum_seq(t) + l)) == 2 * (c * sum_seq(t)) + 2 * (l * c))
            by (nonlinear_arith);
    }
}

/// Law: N·Σx² is never below (Σx)², so the variance numerator is
/// nonnegative for every duration sequence.
pub proof fn lemma_variance_num_nonneg(s: Seq<u64>)
    ensures
        variance_num(s) >= 0,
    decreases s.len(),
{
    if s.len() > 0 {
        let t = s.drop_last();
        let l = s.last() as int;
        let q = sum_sq_seq(t);
        let w = sum_seq(t);
        lemma_variance_num_nonneg(t);
        lemma_sum_cross(t, l);
        assert(s.len() * sum_sq_seq(s) == t.len() * q + q + t.len() * (l * l) + l * l)
            by (nonlinear_arith)
            requires
                s.len() == t.len() + 1,
                sum_sq_seq(s) == q + l * l,
        ;
        assert(sum_seq(s) * sum_seq(s) == w * w + 2 * (l * w) + l * l) by (nonlinear_arith)
            requires
                sum_seq(s) == w + l,
        ;
        assert(q + t.len() * (l * l) >= 2 * (l * w));
    }
}

/// Sum of all durations. The accumulator is wide enough that the sum of any
/// vector of 64-bit durations fits: it never overflows.
pub fn sum_durations(data: &Vec<u64>) -> (total: u128)
    ensures
        total == sum_seq(data@),
{
    let n = data.len();
    let mut total: u128 = 0;
    let mut i: usize = 0;
    while i < n
        invariant
            i <= n,
            n == data@.len(),
            total == sum_seq(data@.subrange(0, i as int)),
        decreases n - i,
    {
        proof {
            lemma_sum_seq_bound(data@.subrange(0, i as int));
            assert(data@.subrange(0, i as int + 1).drop_last() =~= data@.subrange(0, i as int));
        }
        total = total + data[i] as u128;
        i = i + 1;
    }
    proof {
        assert(data@.subrange(0, n as int) =~= data@);
    }
    total
}

/// Sum of the squared durations, or nothing when it exceeds 128 bits.
pub fn sum_of_squares(data: &Vec<u64>) -> (r: Option<u128>)
    ensures
        r is Some <==> sum_sq_seq(data@) <= u128::MAX,
        r matches Some(v) ==> v == sum_sq_seq(data@),
{
    let n = data.len();
    let mut total: u128 = 0;
    let mut i: usize = 0;
    while i < n
        invariant
            i <= n,
            n == data@.len(),
            total == sum_sq_seq(data@.subrange(0, i as int)),
        decreases n - i,
    {
        let x = data[i];
        assert((x as int) * (x as int) <= (u64::MAX as int) * (u64::MAX as int))
            by (nonlinear_arith)
            requires
                0 <= x as int <= u64::MAX as int,
        ;
        let sq = (x as u128) * (x as u128);
        proof {
            assert(data@.subrange(0, i as int + 1).drop_last() =~= data@.subrange(0, i as int));
        }
        match total.checked_add(sq) {
            Some(t) => {
                total = t;
            },
            None => {
                proof {
                    lemma_sum_sq_prefix_le(data@, i as int + 1);
                }
                return None;
            },
        }
        i = i + 1;
    }
    proof {
        assert(data@.subrange(0, n as int) =~= data@);
    }
    Some(total)
}

/// The square root of x rounded down to a whole number.
pub fn isqrt_u128(x: u128) -> (r: u64)
    ensures
        is_floor_sqrt(x as int, r as int),
{
    let mut lo: u128 = 0;
    let mut hi: u128 = 0x1_0000_0000_0000_0000;
    proof {
        assert((0x1_0000_0000_0000_0000int) * (0x1_0000_0000_0000_0000int) > u128::MAX);
    }
    while hi - lo > 1
        invariant
            lo < hi,
            hi <= 0x1_0000_0000_0000_0000,
            (lo as int) * (lo as int) <= x as int,
            (x as int) < (hi as int) * (hi as int),
        decreases hi - lo,
    {
        let mid = lo + (hi - lo) / 2;
        assert((mid as int) * (mid as int) <= (u64::MAX as int) * (u64::MAX as int))
            by (nonlinear_arith)
            requires
                0 <= mid as int <= u64::MAX as int,
        ;
        let sq = mid * mid;
        if sq <= x {
            lo = mid;
        } else {
            hi = mid;
        }
    }
    lo as u64
}

/// The mean duration rounded down to whole nanoseconds, or nothing for an
/// empty sequence. The sum is taken in 128 bits, so it is exact for every
/// input.
pub fn average_nanos(data: &Vec<u64>) -> (avg: Option<u64>)
    ensures
        avg is Some <==> data@.len() > 0,
        avg matches Some(m) ==> m == sum_seq(data@) / (data@.len() as int),
{
    let n = data.len();
    if n == 0 {
        return None;
    }
    let total = sum_durations(data);
    let q = total / (n as u128);
    proof {
        lemma_sum_seq_bound(data@);
        vstd::arithmetic::div_mod::lemma_div_is_ordered(
            total as int,
            data@.len() * u64::MAX,
            n as int,
        );
        vstd::arithmetic::div_mod::lemma_div_multiples_vanish(u64::MAX as int, n as int);
    }
    Some(q as u64)
}

/// The population standard deviation rounded down to whole nanoseconds:
/// floor(sqrt((N·Σx² − (Σx)²) / N²)). Nothing is returned for an empty
/// sequence or when an intermediate product exceeds 128 bits.
pub fn std_deviation_nanos(data: &Vec<u64>) -> (sd: Option<u64>)
    ensures
        sd is Some <==> data@.len() > 0 && stats_in_range(data@),
        sd matches Some(v) ==> is_floor_sqrt(variance_floor(data@), v as int),
{
    let n = data.len();
    if n == 0 {
        return None;
    }
    let s = sum_durations(data);
    let q = match sum_of_squares(data) {
        Some(q) => q,
        None => {
            return None;
        },
    };
    let nq = match (n as u128).checked_mul(q) {
        Some(v) => v,
        None => {
            return None;
        },
    };
    let ss = match s.checked_mul(s) {
        Some(v) => v,
        None => {
            return None;
        },
    };
    proof {
        lemma_variance_num_nonneg(data@);
    }
    let num = nq - ss;
    assert((n as int) * (n as int) <= (u64::MAX as int) * (u64::MAX as int)) by (nonlinear_arith)
        requires
            0 <= n as int <= u64::MAX as int,
    ;
    assert((n as int) * (n as int) >= 1) by (nonlinear_arith)
        requires
            n as int >= 1,
    ;
    let den = (n as u128) * (n as u128);
    let v = num / den;
    let root = isqrt_u128(v);
    Some(root)
}

/// The two summary statistics of one benchmark's completed trials.
pub struct Summary {
    /// Mean duration, rounded down to whole nanoseconds.
    pub average: u64,
    /// Population standard deviation, rounded down to whole nanoseconds.
    pub deviation: u64,
}

/// Both summary statistics at once: present exactly when the sequence is
/// nonempty and every intermediate product fits in 128 bits.
pub fn summarize(data: &Vec<u64>) -> (r: Option<Summary>)
    ensures
        r is Some <==> data@.len() > 0 && stats_in_range(data@),
        r matches Some(sm) ==> sm.average == sum_seq(data@) / (data@.len() as int)
            && is_floor_sqrt(variance_floor(data@), sm.deviation as int),
{
    let deviation = match std_deviation_nanos(data) {
        Some(v) => v,
        None => {
            return None;
        },
    };
    let average = match average_nanos(data) {
        Some(m) => m,
        None => {
            proof {
                assert(false);
            }
            return None;
        },
    };
    Some(Summary { average, deviation })
}

} // verus!
