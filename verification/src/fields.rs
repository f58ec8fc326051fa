//! How single values of a report are spelled: temperatures, wind speeds,
//! pressures, clock times and week days.
use vstd::prelude::*;
use vstd::string::StringExecFns;
use crate::text::{digit_char, digits, push_char, push_decimal};
use crate::binary64::{
    lemma_nearest_double_scale, lemma_two_to_add, lemma_two_to_values, nearest_binary64,
    nearest_double, pow_of_two, round_even_wide, round_half_even, two_to,
};

verus! {

/// A temperature given in tenths of a degree, rounded half away from zero to
/// whole degrees and spelled with its sign (a negative value that rounds to
/// zero keeps its sign, as `-0`).
pub open spec fn temperature_text(t: int) -> Seq<char> {
    if t < 0 {
        seq!['-'] + digits(((-t + 5) / 10) as nat)
    } else {
        digits(((t + 5) / 10) as nat)
    }
}

/// A temperature given in tenths of a degree, rounded to whole degrees with
/// ties to even, spelled with its sign.
pub open spec fn temperature_text_even(t: int) -> Seq<char> {
    if t < 0 {
        seq!['-'] + digits(round_half_even((-t) as nat, 10))
    } else {
        digits(round_half_even(t as nat, 10))
    }
}

/// Appends `temperature_text(t)`.
pub fn push_temperature(s: &mut String, t: i64)
    ensures
        final(s)@ == old(s)@ + temperature_text(t as int),
{
    if t < 0 {
        push_char(s, '-');
        let mag: i128 = (-(t as i128) + 5) / 10;
        push_decimal(s, mag as u64);
        assert(final(s)@ =~= old(s)@ + temperature_text(t as int));
    } else {
        let mag: i128 = ((t as i128) + 5) / 10;
        push_decimal(s, mag as u64);
    }
}

/// The nearest integer to `n / d`, ties to even.
pub fn round_even(n: u64, d: u64) -> (r: u64)
    requires
        d > 0,
        d <= u64::MAX / 4,
    ensures
        r == round_half_even(n as nat, d as nat),
{
    let q = n / d;
    let rem = n % d;
    assert(rem < d);
    if 2 * rem >= d {
        assert(d >= 2);
        assert(q * 2 <= n) by (nonlinear_arith)
            requires
                q == n / d,
                d >= 2,
        ;
    }
    if 2 * rem > d {
        q + 1
    } else if 2 * rem < d {
        q
    } else if q % 2 == 0 {
        q
    } else {
        q + 1
    }
}

/// Appends `temperature_text_even(t)`.
pub fn push_temperature_even(s: &mut String, t: i64)
    ensures
        final(s)@ == old(s)@ + temperature_text_even(t as int),
{
    if t < 0 {
        push_char(s, '-');
        let mag: u64 = if t == i64::MIN { 9223372036854775808u64 } else { (-t) as u64 };
        let r = round_even(mag, 10);
        push_decimal(s, r);
        assert(final(s)@ =~= old(s)@ + temperature_text_even(t as int));
    } else {
        let r = round_even(t as u64, 10);
        push_decimal(s, r);
    }
}

/// A wind speed given in hundredths of a kilometre per hour, in whole knots,
/// computed as the `f64` arithmetic `speed / 1.852` does it: the speed and
/// 1.852 each taken as the nearest `f64`, their quotient rounded to the
/// nearest `f64`, and that rounded to a whole number, ties to even.
pub open spec fn knots(speed: u32) -> nat {
    let s = nearest_double(speed as nat, 100);
    let k = nearest_double(1852, 1000);
    let q = nearest_double(s.0 * two_to(k.1), k.0 * two_to(s.1));
    round_half_even(q.0, two_to(q.1))
}

/// Appends the wind speed in whole knots.
pub fn push_knots(s: &mut String, speed: u32)
    ensures
        final(s)@ == old(s)@ + digits(knots(speed)),
{
    let (sm, se, spow) = nearest_binary64(speed as u128, 100);
    let (km, ke, kpow) = nearest_binary64(1852, 1000);
    proof {
        lemma_two_to_values();
    }
    if speed == 0 {
        assert(sm == 0);
        assert(0 * two_to(ke as nat) == 0);
        assert(two_to(0) == 1);
        assert(knots(speed) == 0);
        push_decimal(s, 0);
        return;
    }
    // The quotient's terms, with their common power of two taken out.
    let (n, d): (u128, u128) = if se <= ke {
        proof {
            lemma_two_to_add(se as nat, (ke - se) as nat);
            assert(se as nat + (ke - se) as nat == ke as nat);
            let x = two_to((ke - se) as nat);
            assert(spow * x == kpow);
            assert(x < 0x800_0000) by (nonlinear_arith)
                requires
                    spow * x == kpow,
                    kpow * 1852 < two_to(53) * 1000,
                    two_to(52) * 100 <= speed * spow,
                    speed < 0x1_0000_0000,
                    two_to(53) == 0x20_0000_0000_0000,
                    two_to(52) == 0x10_0000_0000_0000,
            ;
            assert((sm * x) * spow == sm * kpow) by (nonlinear_arith)
                requires
                    spow * x == kpow,
            ;
            lemma_nearest_double_scale((sm * x) as nat, km as nat, spow as nat);
        }
        let x = pow_of_two(ke - se);
        assert(sm * x < 0x1_0000_0000_0000_0000_0000) by (nonlinear_arith)
            requires
                sm <= 0x20_0000_0000_0000,
                x < 0x800_0000,
        ;
        assert(sm * x < 0x20_0000_0000_0000 * km) by (nonlinear_arith)
            requires
                sm * x < 0x1_0000_0000_0000_0000_0000,
                km >= 0x10_0000_0000_0000,
        ;
        (sm * x, km)
    } else {
        proof {
            lemma_two_to_add(ke as nat, (se - ke) as nat);
            assert(ke as nat + (se - ke) as nat == se as nat);
            let x = two_to((se - ke) as nat);
            crate::binary64::lemma_two_to_pos((se - ke) as nat);
            assert(km * x > 0) by (nonlinear_arith)
                requires
                    km >= 1,
                    x >= 1,
            ;
            assert(x < 0x400) by (nonlinear_arith)
                requires
                    kpow * x == spow,
                    two_to(52) * 1000 <= 1852 * kpow,
                    speed * spow < two_to(53) * 100,
                    speed >= 1,
                    two_to(53) == 0x20_0000_0000_0000,
                    two_to(52) == 0x10_0000_0000_0000,
            ;
            assert(km * spow == (km * x) * kpow) by (nonlinear_arith)
                requires
                    kpow * x == spow,
            ;
            lemma_nearest_double_scale(sm as nat, (km * x) as nat, kpow as nat);
        }
        let x = pow_of_two(se - ke);
        assert(km * x < 0x100_0000_0000_0000_0000) by (nonlinear_arith)
            requires
                km <= 0x20_0000_0000_0000,
                x < 0x400,
        ;
        assert(sm < 0x20_0000_0000_0000 * (km * x)) by (nonlinear_arith)
            requires
                sm <= 0x20_0000_0000_0000,
                km >= 0x10_0000_0000_0000,
                x >= 1,
        ;
        (sm, km * x)
    };
    let (qm, qe, qpow) = nearest_binary64(n, d);
    let k = round_even_wide(qm, qpow);
    assert(k <= 0x20_0000_0000_0001) by (nonlinear_arith)
        requires
            k <= qm / qpow + 1,
            qm <= 0x20_0000_0000_0000,
            qpow >= 1,
    ;
    push_decimal(s, k as u64);
}

/// A pressure in hectopascals, in tenths of an inch of mercury, computed as
/// the `f64` arithmetic `p * 0.02953` does it: 0.02953 taken as the nearest
/// `f64`, the product rounded to the nearest `f64`, and that rounded to one
/// decimal, ties to even.
pub open spec fn pressure_tenths(p: u16) -> nat {
    let c = nearest_double(2953, 100000);
    let x = nearest_double(p as nat * c.0, two_to(c.1));
    round_half_even(10 * x.0, two_to(x.1))
}

/// A pressure in hectopascals spelled in inches of mercury with one decimal.
pub open spec fn pressure_text(p: u16) -> Seq<char> {
    digits(pressure_tenths(p) / 10) + seq!['.', digit_char(pressure_tenths(p) % 10)]
}

/// Appends `pressure_text(p)`.
pub fn push_pressure(s: &mut String, p: u16)
    ensures
        final(s)@ == old(s)@ + pressure_text(p),
{
    let (cm, ce, cpow) = nearest_binary64(2953, 100000);
    proof {
        lemma_two_to_values();
        assert(cpow < 0x800_0000_0000_0000) by (nonlinear_arith)
            requires
                2953 * cpow < two_to(53) * 100000,
                two_to(53) == 0x20_0000_0000_0000,
        ;
        assert(cpow > 0x10_0000_0000) by (nonlinear_arith)
            requires
                two_to(52) * 100000 <= 2953 * cpow,
                two_to(52) == 0x10_0000_0000_0000,
        ;
    }
    assert((p as u128) * cm < 0x20_0000_0000_0000 * 0x10_0000_0000) by (nonlinear_arith)
        requires
            p <= 0xFFFF,
            cm <= 0x20_0000_0000_0000,
    ;
    let (xm, xe, xpow) = nearest_binary64((p as u128) * cm, cpow);
    let t = round_even_wide(10 * xm, xpow);
    assert(t <= 0x140_0000_0000_0001) by (nonlinear_arith)
        requires
            t <= ((10 * xm) as u128) / xpow + 1,
            xm <= 0x20_0000_0000_0000,
            xpow >= 1,
    ;
    push_decimal(s, (t / 10) as u64);
    push_char(s, '.');
    let d = (t % 10) as u64;
    push_decimal(s, d);
    assert(digits(d as nat) =~= seq![digit_char(d as nat)]);
    assert(final(s)@ =~= old(s)@ + pressure_text(p));
}

/// The offset from UTC that local times are shown in: the report's offset
/// when a fixed offset can be made of it (strictly within a day), else UTC.
pub open spec fn effective_offset(offset: Option<i32>) -> int {
    match offset {
        Some(o) => if -86400 < o < 86400 {
            o as int
        } else {
            0
        },
        None => 0,
    }
}

/// Decides `effective_offset`.
pub fn local_offset(offset: Option<i32>) -> (o: i32)
    ensures
        o as int == effective_offset(offset),
        -86400 < o < 86400,
{
    match offset {
        Some(o) => if -86400 < o && o < 86400 {
            o
        } else {
            0
        },
        None => 0,
    }
}

/// A number below 100 spelled with two digits.
pub open spec fn two_digits(n: nat) -> Seq<char> {
    seq![digit_char(n / 10), digit_char(n % 10)]
}

/// The local wall-clock time `HH:MM` of the instant `ts` at `offset` seconds
/// east of UTC.
pub open spec fn clock_text(ts: int, offset: int) -> Seq<char> {
    let secs = (ts + offset) % 86400;
    two_digits((secs / 3600) as nat) + seq![':'] + two_digits(((secs % 3600) / 60) as nat)
}

/// A whole number of days in seconds, past the largest `i64` magnitude.
pub const DAY_ALIGNED_SHIFT: i128 = 9223372036854979200i128;

/// Appends `n` (below 100) as two digits.
fn push_two_digits(s: &mut String, n: u64)
    requires
        n < 100,
    ensures
        final(s)@ == old(s)@ + two_digits(n as nat),
{
    let ghost start = s@;
    push_decimal(s, n / 10);
    assert(digits((n / 10) as nat) =~= seq![digit_char((n / 10) as nat)]);
    push_decimal(s, n % 10);
    assert(digits((n % 10) as nat) =~= seq![digit_char((n % 10) as nat)]);
    assert(final(s)@ =~= start + two_digits(n as nat));
}

/// Appends the local clock time `HH:MM` of `ts` at `offset`.
pub fn push_clock(s: &mut String, ts: i64, offset: i32)
    requires
        -86400 < offset < 86400,
    ensures
        final(s)@ == old(s)@ + clock_text(ts as int, offset as int),
{
    let shifted: i128 = ts as i128 + offset as i128 + DAY_ALIGNED_SHIFT;
    assert(shifted >= 0);
    assert(DAY_ALIGNED_SHIFT % 86400 == 0);
    let secs: u64 = (shifted % 86400) as u64;
    assert(secs == (ts + offset) % 86400) by {
        assert(DAY_ALIGNED_SHIFT == 86400 * 106751991167303);
        assert((ts + offset + 86400 * 106751991167303) % 86400 == (ts + offset) % 86400) by (nonlinear_arith);
    }
    push_two_digits(s, secs / 3600);
    push_char(s, ':');
    push_two_digits(s, (secs % 3600) / 60);
    assert(final(s)@ =~= old(s)@ + clock_text(ts as int, offset as int));
}

/// The abbreviated English name of week day `d` (0 is Monday).
pub open spec fn weekday_name(d: int) -> Seq<char> {
    if d == 0 {
        "Mon"@
    } else if d == 1 {
        "Tue"@
    } else if d == 2 {
        "Wed"@
    } else if d == 3 {
        "Thu"@
    } else if d == 4 {
        "Fri"@
    } else if d == 5 {
        "Sat"@
    } else {
        "Sun"@
    }
}

/// The abbreviated week day of the date `days` days after 1970-01-01
/// (a Thursday).
pub open spec fn weekday_text(days: int) -> Seq<char> {
    weekday_name((days + 3) % 7)
}

/// A whole number of weeks in days, past the largest `i64` magnitude.
pub const WEEK_ALIGNED_SHIFT: i128 = 9223372036854775821i128;

/// Appends the abbreviated week day of the date `days` days after 1970-01-01.
pub fn push_weekday(s: &mut String, days: i64)
    ensures
        final(s)@ == old(s)@ + weekday_text(days as int),
{
    let shifted: i128 = days as i128 + 3 + WEEK_ALIGNED_SHIFT;
    let d: i128 = shifted % 7;
    assert(d == (days + 3) % 7) by {
        assert(WEEK_ALIGNED_SHIFT == 7 * 1317624576693539403);
        assert((days + 3 + 7 * 1317624576693539403) % 7 == (days + 3) % 7) by (nonlinear_arith);
    }
    let name = if d == 0 {
        "Mon"
    } else if d == 1 {
        "Tue"
    } else if d == 2 {
        "Wed"
    } else if d == 3 {
        "Thu"
    } else if d == 4 {
        "Fri"
    } else if d == 5 {
        "Sat"
    } else {
        "Sun"
    };
    s.append(name);
}

} // verus!
