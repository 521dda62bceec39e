//! Affine remapping of raw readings onto an output range, with clamping.
use vstd::prelude::*;
use vstd::arithmetic::div_mod::{lemma_div_is_ordered, lemma_div_multiples_vanish};
use vstd::arithmetic::mul::lemma_mul_inequality;

verus! {

/// Magnitude of an integer.
pub open spec fn abs(n: int) -> int {
    if n < 0 { -n } else { n }
}

/// Integer quotient rounded toward zero, as Rust's `/` computes it.
pub open spec fn trunc_div(n: int, d: int) -> int {
    if (n >= 0) == (d > 0) || n == 0 {
        abs(n) / abs(d)
    } else {
        -(abs(n) / abs(d))
    }
}

/// The smaller end of the range spanned by `a` and `b`.
pub open spec fn range_lo(a: int, b: int) -> int {
    if a <= b { a } else { b }
}

/// The larger end of the range spanned by `a` and `b`.
pub open spec fn range_hi(a: int, b: int) -> int {
    if a <= b { b } else { a }
}

/// `v` limited to the closed range spanned by `a` and `b`, in whichever order they come.
pub open spec fn clamp(v: int, a: int, b: int) -> int {
    if v < range_lo(a, b) {
        range_lo(a, b)
    } else if v > range_hi(a, b) {
        range_hi(a, b)
    } else {
        v
    }
}

/// `value` carried from the range `in_min..in_max` onto `out_min..out_max` by the affine map
/// through the two endpoints, the quotient rounded toward zero, then clamped to the output range.
pub open spec fn mapped(value: int, in_min: int, in_max: int, out_min: int, out_max: int) -> int {
    clamp(
        out_min + trunc_div((value - in_min) * (out_max - out_min), in_max - in_min),
        out_min,
        out_max,
    )
}

/// Maps `x` from `in_min..in_max` onto `out_min..out_max`, clamping the result to the output
/// range. Either range may be descending. The input range must not be a single point.
pub fn map_range(x: i32, in_min: i32, in_max: i32, out_min: i32, out_max: i32) -> (r: i32)
    requires
        in_min != in_max,
    ensures
        r == mapped(x as int, in_min as int, in_max as int, out_min as int, out_max as int),
{
    let a: i128 = x as i128 - in_min as i128;
    let b: i128 = out_max as i128 - out_min as i128;
    assert(-0x1_0000_0000 < a < 0x1_0000_0000 && -0x1_0000_0000 < b < 0x1_0000_0000);
    assert(-0x1_0000_0000_0000_0000 < a * b < 0x1_0000_0000_0000_0000) by (nonlinear_arith)
        requires
            -0x1_0000_0000 < a < 0x1_0000_0000,
            -0x1_0000_0000 < b < 0x1_0000_0000,
    ;
    let num: i128 = a * b;
    let den: i128 = in_max as i128 - in_min as i128;
    let num_abs: i128 = if num < 0 { -num } else { num };
    let den_abs: i128 = if den < 0 { -den } else { den };
    let q: i128 = num_abs / den_abs;
    assert(0 <= q <= num_abs) by (nonlinear_arith)
        requires
            num_abs >= 0,
            den_abs >= 1,
            q == num_abs / den_abs,
    ;
    let t: i128 = if (num >= 0) == (den > 0) || num == 0 { q } else { -q };
    let v: i128 = out_min as i128 + t;
    let lo: i32 = if out_min <= out_max { out_min } else { out_max };
    let hi: i32 = if out_min <= out_max { out_max } else { out_min };
    if v < lo as i128 {
        lo
    } else if v > hi as i128 {
        hi
    } else {
        v as i32
    }
}

/// Rounding toward zero keeps the order of numerators over a positive divisor.
proof fn lemma_trunc_div_ordered(n1: int, n2: int, d: int)
    requires
        n1 <= n2,
        0 < d,
    ensures
        trunc_div(n1, d) <= trunc_div(n2, d),
{
    if n1 >= 0 {
        lemma_div_is_ordered(n1, n2, d);
    } else if n2 <= 0 {
        lemma_div_is_ordered(-n2, -n1, d);
    } else {
        lemma_div_is_ordered(0, -n1, d);
        lemma_div_is_ordered(0, n2, d);
    }
}

/// Dividing a multiple of `d` by `d` gives back the factor exactly.
proof fn lemma_trunc_div_exact(d: int, k: int)
    requires
        d != 0,
    ensures
        trunc_div(d * k, d) == k,
{
    let ad = abs(d);
    let ak = abs(k);
    assert(abs(d * k) == ad * ak) by (nonlinear_arith)
        requires
            ad == abs(d),
            ak == abs(k),
    ;
    assert((d * k >= 0) == (d > 0) || d * k == 0 <==> k >= 0) by (nonlinear_arith)
        requires
            d != 0,
    ;
    lemma_div_multiples_vanish(ak, ad);
}

/// Whatever the input, the mapped value lies within the output range, bounds included.
pub proof fn lemma_map_range_within_output(
    value: i32,
    in_min: i32,
    in_max: i32,
    out_min: i32,
    out_max: i32,
)
    requires
        in_min != in_max,
    ensures
        range_lo(out_min as int, out_max as int) <= mapped(
            value as int,
            in_min as int,
            in_max as int,
            out_min as int,
            out_max as int,
        ) <= range_hi(out_min as int, out_max as int),
{
}

/// The two ends of the input range land exactly on the two ends of the output range.
pub proof fn lemma_map_range_endpoints(in_min: i32, in_max: i32, out_min: i32, out_max: i32)
    requires
        in_min != in_max,
    ensures
        mapped(in_min as int, in_min as int, in_max as int, out_min as int, out_max as int)
            == out_min,
        mapped(in_max as int, in_min as int, in_max as int, out_min as int, out_max as int)
            == out_max,
{
    let d = in_max - in_min;
    let k = out_max - out_min;
    assert((in_min - in_min) * k == 0);
    assert(trunc_div(0, d) == 0);
    lemma_trunc_div_exact(d, k);
}

/// Over an ascending input range and an ascending output range, a larger input never maps to
/// a smaller output.
pub proof fn lemma_map_range_monotonic(
    value1: i32,
    value2: i32,
    in_min: i32,
    in_max: i32,
    out_min: i32,
    out_max: i32,
)
    requires
        in_min < in_max,
        out_min < out_max,
        value1 < value2,
    ensures
        mapped(value1 as int, in_min as int, in_max as int, out_min as int, out_max as int)
            <= mapped(value2 as int, in_min as int, in_max as int, out_min as int, out_max as int),
{
    let k = out_max - out_min;
    lemma_mul_inequality(value1 - in_min, value2 - in_min, k);
    lemma_trunc_div_ordered((value1 - in_min) * k, (value2 - in_min) * k, in_max - in_min);
}

} // verus!
