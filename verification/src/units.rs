//! Truncating division (the rounding of Rust's `/` and `%` on signed integers)
//! and the calendar units of an elapsed-time description.

use vstd::prelude::*;

verus! {

/// `i64::MAX` milliseconds in whole seconds: the span, either way, that
/// chrono documents for a `TimeDelta` (its checked constructors keep to it,
/// though its multiplication can go past it). The laws about splitting a
/// count of seconds are stated within this span.
pub const MAX_DELTA_SECS: i64 = 9_223_372_036_854_775;

/// `a / b` rounded toward zero (for `b > 0`).
pub open spec fn trunc_div(a: int, b: int) -> int {
    if a >= 0 {
        a / b
    } else {
        -((-a) / b)
    }
}

/// The remainder that goes with `trunc_div`: it has the sign of `a`.
pub open spec fn trunc_rem(a: int, b: int) -> int {
    a - b * trunc_div(a, b)
}

/// Dividing twice, rounding toward zero each time, is dividing once by the
/// product.
pub proof fn lemma_trunc_div_nested(a: int, b: int, c: int)
    requires
        0 < b,
        0 < c,
    ensures
        trunc_div(trunc_div(a, b), c) == trunc_div(a, b * c),
        0 < b * c,
{
    broadcast use vstd::arithmetic::div_mod::lemma_div_denominator;

    vstd::arithmetic::mul::lemma_mul_strictly_positive(b, c);
    if a >= 0 {
        vstd::arithmetic::div_mod::lemma_div_pos_is_pos(a, b);
        assert((a / b) / c == a / (b * c));
    } else {
        let q = -a;
        vstd::arithmetic::div_mod::lemma_div_pos_is_pos(q, b);
        assert((q / b) / c == q / (b * c));
        lemma_div_nonneg(q, b);
        if q / b == 0 {
            assert(b <= b * c) by (nonlinear_arith)
                requires
                    0 < b,
                    0 < c,
            ;
            lemma_div_nonneg(q, b * c);
        }
    }
}

/// Floor division of a non-negative number: quotient and remainder bounds.
proof fn lemma_div_nonneg(a: int, b: int)
    requires
        0 <= a,
        0 < b,
    ensures
        0 <= a / b <= a,
        0 <= a - b * (a / b) < b,
        a / b == 0 <==> a < b,
{
    vstd::arithmetic::div_mod::lemma_fundamental_div_mod(a, b);
    vstd::arithmetic::div_mod::lemma_mod_bound(a, b);
    vstd::arithmetic::div_mod::lemma_div_pos_is_pos(a, b);
    let q = a / b;
    let r = a % b;
    assert(q <= a && (q == 0 <==> a < b)) by (nonlinear_arith)
        requires
            a == b * q + r,
            0 <= r < b,
            0 <= q,
            0 < b,
    ;
}

/// The truncated quotient stays between zero and the dividend, and the
/// remainder has the sign of the dividend and is smaller than the divisor.
pub proof fn lemma_trunc_div_bounds(a: int, b: int)
    requires
        0 < b,
    ensures
        a >= 0 ==> 0 <= trunc_div(a, b) <= a,
        a < 0 ==> a <= trunc_div(a, b) <= 0,
        a >= 0 ==> 0 <= trunc_rem(a, b) < b,
        a < 0 ==> -b < trunc_rem(a, b) <= 0,
        trunc_div(a, b) == 0 <==> -b < a < b,
{
    if a >= 0 {
        lemma_div_nonneg(a, b);
    } else {
        let q = -a;
        lemma_div_nonneg(q, b);
        assert(b * (-(q / b)) == -(b * (q / b))) by (nonlinear_arith);
    }
}

/// For a non-negative count of seconds, the seconds, minutes, hours and days
/// left over after whole 30-day months are all zero exactly when the count is
/// a whole number of 30-day months.
proof fn lemma_whole_months(s: int)
    requires
        0 <= s,
    ensures
        (trunc_rem(s, 60) == 0 && trunc_rem(trunc_div(s, 60), 60) == 0 && trunc_rem(
            trunc_div(s, 3_600),
            24,
        ) == 0 && trunc_rem(trunc_div(s, 86_400), 30) == 0) <==> s % 2_592_000 == 0,
{
    broadcast use vstd::arithmetic::div_mod::lemma_div_denominator;

    vstd::arithmetic::div_mod::lemma_fundamental_div_mod(s, 60);
    vstd::arithmetic::div_mod::lemma_div_pos_is_pos(s, 60);
    let m = s / 60;
    vstd::arithmetic::div_mod::lemma_fundamental_div_mod(m, 60);
    vstd::arithmetic::div_mod::lemma_div_pos_is_pos(m, 60);
    let h = m / 60;
    assert(h == s / 3_600);
    vstd::arithmetic::div_mod::lemma_fundamental_div_mod(h, 24);
    vstd::arithmetic::div_mod::lemma_div_pos_is_pos(h, 24);
    let d = h / 24;
    assert(d == s / 86_400) by {
        assert((s / 3_600) / 24 == s / (3_600int * 24int));
    }
    vstd::arithmetic::div_mod::lemma_fundamental_div_mod(d, 30);
    vstd::arithmetic::div_mod::lemma_mod_breakdown(s, 60, 43_200);
    vstd::arithmetic::div_mod::lemma_mod_breakdown(m, 60, 720);
    vstd::arithmetic::div_mod::lemma_mod_breakdown(h, 24, 30);
    vstd::arithmetic::div_mod::lemma_mod_bound(s, 60);
    vstd::arithmetic::div_mod::lemma_mod_bound(m, 60);
    vstd::arithmetic::div_mod::lemma_mod_bound(h, 24);
    vstd::arithmetic::div_mod::lemma_mod_bound(d, 30);
    vstd::arithmetic::div_mod::lemma_mod_bound(h, 720);
    vstd::arithmetic::div_mod::lemma_mod_bound(m, 43_200);
}

/// Truncating division is odd: negating the dividend negates the quotient
/// and the remainder.
proof fn lemma_trunc_div_odd(a: int, b: int)
    requires
        0 < b,
    ensures
        trunc_div(-a, b) == -trunc_div(a, b),
        trunc_rem(-a, b) == -trunc_rem(a, b),
{
    let q = trunc_div(a, b);
    assert(trunc_div(-a, b) == -q);
    assert(b * (-q) == -(b * q)) by (nonlinear_arith);
}

/// A value strictly between `-2^32` and `2^32` wraps to zero in a `u32` only
/// when it is zero.
proof fn lemma_u32_wrap_zero(x: int)
    requires
        -4_294_967_296 < x < 4_294_967_296,
    ensures
        (x as u32 == 0) <==> x == 0,
{
    let y: i64 = x as i64;
    assert((y as u32 == 0) <==> y == 0) by (bit_vector)
        requires
            -4_294_967_296 < y < 4_294_967_296,
    ;
}

/// A number and its negation are divisible by the same positive numbers.
proof fn lemma_divisible_negated(t: int, m: int)
    requires
        0 < m,
    ensures
        (t % m == 0) <==> ((-t) % m == 0),
{
    vstd::arithmetic::div_mod::lemma_fundamental_div_mod(t, m);
    vstd::arithmetic::div_mod::lemma_fundamental_div_mod(-t, m);
    if t % m == 0 {
        let k = t / m;
        assert(-t == (-k) * m) by (nonlinear_arith)
            requires
                t == m * k,
        ;
        vstd::arithmetic::div_mod::lemma_mod_multiples_basic(-k, m);
    }
    if (-t) % m == 0 {
        let k = (-t) / m;
        assert(t == (-k) * m) by (nonlinear_arith)
            requires
                -t == m * k,
        ;
        vstd::arithmetic::div_mod::lemma_mod_multiples_basic(-k, m);
    }
}

/// For a count of whole seconds within a `TimeDelta`'s reach, the remainders
/// in seconds, minutes, hours and days and the quotient in 360-day years are
/// all zero exactly when the count is a whole number of 30-day months less
/// than a year either way; each of them lies strictly between `-2^32` and
/// `2^32`.
proof fn lemma_split_zero(s: int)
    requires
        -MAX_DELTA_SECS <= s <= MAX_DELTA_SECS,
    ensures
        (trunc_rem(s, 60) == 0 && trunc_rem(trunc_div(s, 60), 60) == 0 && trunc_rem(
            trunc_div(s, 3_600),
            24,
        ) == 0 && trunc_rem(trunc_div(s, 86_400), 30) == 0 && trunc_div(s, 31_104_000) == 0)
            <==> (s % 2_592_000 == 0 && -31_104_000 < s < 31_104_000),
        -60 < trunc_rem(s, 60) < 60,
        -60 < trunc_rem(trunc_div(s, 60), 60) < 60,
        -24 < trunc_rem(trunc_div(s, 3_600), 24) < 24,
        -30 < trunc_rem(trunc_div(s, 86_400), 30) < 30,
        -296_533_310 < trunc_div(s, 31_104_000) < 296_533_310,
{
    let t = if s >= 0 {
        s
    } else {
        -s
    };
    lemma_whole_months(t);
    lemma_trunc_div_bounds(t, 31_104_000);
    lemma_trunc_div_bounds(s, 31_104_000);
    lemma_trunc_div_bounds(s, 60);
    lemma_trunc_div_bounds(trunc_div(s, 60), 60);
    lemma_trunc_div_bounds(trunc_div(s, 3_600), 24);
    lemma_trunc_div_bounds(trunc_div(s, 86_400), 30);
    assert(trunc_div(t, 31_104_000) <= 296_533_309) by {
        vstd::arithmetic::div_mod::lemma_div_is_ordered(t, MAX_DELTA_SECS as int, 31_104_000);
    }
    if s < 0 {
        lemma_divisible_negated(t, 2_592_000);
        lemma_trunc_div_odd(t, 60);
        lemma_trunc_div_odd(t, 3_600);
        lemma_trunc_div_odd(t, 86_400);
        lemma_trunc_div_odd(t, 31_104_000);
        lemma_trunc_div_odd(trunc_div(t, 60), 60);
        lemma_trunc_div_odd(trunc_div(t, 3_600), 24);
        lemma_trunc_div_odd(trunc_div(t, 86_400), 30);
    }
}

/// The calendar split of `s` elapsed seconds, as (seconds, minutes, hours,
/// days, months, years): each unit is the truncated quotient of `s` by the
/// unit's length, less the whole next-larger units (30-day months, 360-day
/// years); the month place holds the year count, just as the year place does.
/// Negative values wrap into `u32`, as Rust's `as` does.
pub open spec fn split_fields(s: int) -> (u32, u32, u32, u32, u32, u32) {
    (
        trunc_rem(s, 60) as u32,
        trunc_rem(trunc_div(s, 60), 60) as u32,
        trunc_rem(trunc_div(s, 3_600), 24) as u32,
        trunc_rem(trunc_div(s, 86_400), 30) as u32,
        trunc_div(s, 31_104_000) as u32,
        trunc_div(s, 31_104_000) as u32,
    )
}

/// Splits a count of elapsed seconds into calendar units, dividing by 60,
/// 60, 24, 30 and 12 in turn with Rust's truncating `/` and `%`.
pub fn split_seconds(value: i64) -> (fields: (u32, u32, u32, u32, u32, u32))
    ensures
        fields == split_fields(value as int),
{
    proof {
        lemma_trunc_div_nested(value as int, 60, 60);
        lemma_trunc_div_nested(value as int, 3_600, 24);
        lemma_trunc_div_nested(value as int, 86_400, 30);
        lemma_trunc_div_nested(value as int, 2_592_000, 12);
    }
    let seconds = value;
    let minutes = seconds / 60;
    let seconds = (seconds % 60) as u32;
    let hours = minutes / 60;
    let minutes = (minutes % 60) as u32;
    let days = hours / 24;
    let hours = (hours % 24) as u32;
    let months = days / 30;
    let days = (days % 30) as u32;
    let years = (months / 12) as u32;
    let months = (months / 12) as u32;
    (seconds, minutes, hours, days, months, years)
}

/// Within `MAX_DELTA_SECS` either way, the split is all zeros exactly when
/// the count is a whole number of 30-day months less than a 360-day year
/// either way.
pub proof fn lemma_split_fields_zero(s: int)
    requires
        -MAX_DELTA_SECS <= s <= MAX_DELTA_SECS,
    ensures
        ({
            let f = split_fields(s);
            f.0 == 0 && f.1 == 0 && f.2 == 0 && f.3 == 0 && f.4 == 0 && f.5 == 0
        }) <==> (s % 2_592_000 == 0 && -31_104_000 < s < 31_104_000),
{
    lemma_split_zero(s);
    lemma_u32_wrap_zero(trunc_rem(s, 60));
    lemma_u32_wrap_zero(trunc_rem(trunc_div(s, 60), 60));
    lemma_u32_wrap_zero(trunc_rem(trunc_div(s, 3_600), 24));
    lemma_u32_wrap_zero(trunc_rem(trunc_div(s, 86_400), 30));
    lemma_u32_wrap_zero(trunc_div(s, 31_104_000));
}

/// From zero up to `MAX_DELTA_SECS`, the split has fewer than 60 seconds, 60
/// minutes, 24 hours and 30 days, and fields whose sum fits in a `u32`.
pub proof fn lemma_split_fields_bounds(s: int)
    requires
        0 <= s <= MAX_DELTA_SECS,
    ensures
        ({
            let f = split_fields(s);
            &&& f.0 < 60
            &&& f.1 < 60
            &&& f.2 < 24
            &&& f.3 < 30
            &&& f.0 + f.1 + f.2 + f.3 + f.4 + f.5 <= u32::MAX
        }),
{
    lemma_split_zero(s);
    lemma_trunc_div_bounds(s, 60);
    lemma_trunc_div_bounds(trunc_div(s, 60), 60);
    lemma_trunc_div_bounds(trunc_div(s, 3_600), 24);
    lemma_trunc_div_bounds(trunc_div(s, 86_400), 30);
    lemma_trunc_div_bounds(s, 31_104_000);
}

/// For a non-negative count of seconds, the seconds, minutes, hours and days
/// of the split are the ordinary remainders: each below its unit's size, and
/// together they make up the part of the count beyond whole 30-day months.
/// Within `MAX_DELTA_SECS`, the year place (and the month place, which repeats
/// it) holds the number of whole 360-day years.
pub proof fn lemma_split_fields_recombine(s: int)
    requires
        0 <= s,
    ensures
        ({
            let f = split_fields(s);
            &&& f.0 < 60
            &&& f.1 < 60
            &&& f.2 < 24
            &&& f.3 < 30
            &&& f.0 + 60 * f.1 + 3_600 * f.2 + 86_400 * f.3 == s % 2_592_000
            &&& s <= MAX_DELTA_SECS ==> f.4 == s / 31_104_000 && f.5 == s / 31_104_000
        }),
{
    broadcast use vstd::arithmetic::div_mod::lemma_div_denominator;

    vstd::arithmetic::div_mod::lemma_fundamental_div_mod(s, 60);
    vstd::arithmetic::div_mod::lemma_div_pos_is_pos(s, 60);
    let m = s / 60;
    vstd::arithmetic::div_mod::lemma_fundamental_div_mod(m, 60);
    vstd::arithmetic::div_mod::lemma_div_pos_is_pos(m, 60);
    let h = m / 60;
    assert(h == s / 3_600);
    vstd::arithmetic::div_mod::lemma_fundamental_div_mod(h, 24);
    vstd::arithmetic::div_mod::lemma_div_pos_is_pos(h, 24);
    let d = h / 24;
    assert(d == s / 86_400) by {
        assert((s / 3_600) / 24 == s / (3_600int * 24int));
    }
    vstd::arithmetic::div_mod::lemma_fundamental_div_mod(d, 30);
    vstd::arithmetic::div_mod::lemma_mod_breakdown(s, 60, 43_200);
    vstd::arithmetic::div_mod::lemma_mod_breakdown(m, 60, 720);
    vstd::arithmetic::div_mod::lemma_mod_breakdown(h, 24, 30);
    vstd::arithmetic::div_mod::lemma_mod_bound(s, 60);
    vstd::arithmetic::div_mod::lemma_mod_bound(m, 60);
    vstd::arithmetic::div_mod::lemma_mod_bound(h, 24);
    vstd::arithmetic::div_mod::lemma_mod_bound(d, 30);
    let f0 = s % 60;
    let f1 = m % 60;
    let f2 = h % 24;
    let f3 = d % 30;
    assert(s % 2_592_000 == f0 + 60 * f1 + 3_600 * f2 + 86_400 * f3) by (nonlinear_arith)
        requires
            s % (60int * 43_200int) == 60 * (m % 43_200) + f0,
            m % (60int * 720int) == 60 * (h % 720) + f1,
            h % (24int * 30int) == 24 * (d % 30) + f2,
            f3 == d % 30,
    ;
    if s <= MAX_DELTA_SECS {
        lemma_split_zero(s);
        lemma_trunc_div_bounds(s, 31_104_000);
    }
}

/// Splitting a negative count gives, place by place, the `u32` wrap of the
/// negated split of the matching positive count (within `MAX_DELTA_SECS`).
pub proof fn lemma_split_fields_negated(s: int)
    requires
        0 <= s <= MAX_DELTA_SECS,
    ensures
        ({
            let p = split_fields(s);
            let n = split_fields(-s);
            &&& n.0 == (-(p.0 as int)) as u32
            &&& n.1 == (-(p.1 as int)) as u32
            &&& n.2 == (-(p.2 as int)) as u32
            &&& n.3 == (-(p.3 as int)) as u32
            &&& n.4 == (-(p.4 as int)) as u32
            &&& n.5 == (-(p.5 as int)) as u32
        }),
{
    lemma_split_zero(s);
    lemma_trunc_div_bounds(s, 60);
    lemma_trunc_div_bounds(trunc_div(s, 60), 60);
    lemma_trunc_div_bounds(trunc_div(s, 3_600), 24);
    lemma_trunc_div_bounds(trunc_div(s, 86_400), 30);
    lemma_trunc_div_bounds(s, 31_104_000);
    lemma_trunc_div_odd(s, 60);
    lemma_trunc_div_odd(s, 3_600);
    lemma_trunc_div_odd(s, 86_400);
    lemma_trunc_div_odd(s, 31_104_000);
    lemma_trunc_div_odd(trunc_div(s, 60), 60);
    lemma_trunc_div_odd(trunc_div(s, 3_600), 24);
    lemma_trunc_div_odd(trunc_div(s, 86_400), 30);
}

} // verus!
