//! The IEEE 754 binary64 (`f64`) value nearest to a positive rational, in
//! integers: the arithmetic that the report's unit conversions are defined by.
//!
//! A positive `f64` below 2^53 is written as a pair `(m, e)`, its value being
//! `m / 2^e`, with `2^52 <= m <= 2^53`.
use vstd::prelude::*;

verus! {

/// Two to the power `e`.
pub open spec fn two_to(e: nat) -> nat
    decreases e,
{
    if e == 0 {
        1
    } else {
        2 * two_to((e - 1) as nat)
    }
}

/// Powers of two are positive and exceed their exponent.
pub proof fn lemma_two_to_pos(e: nat)
    ensures
        two_to(e) >= 1,
        two_to(e) > e,
    decreases e,
{
    if e > 0 {
        lemma_two_to_pos((e - 1) as nat);
    }
}

/// `2^(a+b) == 2^a * 2^b`.
pub proof fn lemma_two_to_add(a: nat, b: nat)
    ensures
        two_to(a + b) == two_to(a) * two_to(b),
    decreases a,
{
    if a > 0 {
        let a1 = (a - 1) as nat;
        lemma_two_to_add(a1, b);
        let x = two_to(a1);
        let y = two_to(b);
        let z = two_to(a1 + b);
        assert(a + b == (a1 + b) + 1);
        assert(two_to(a + b) == 2 * z);
        assert(two_to(a) == 2 * x);
        assert(2 * z == (2 * x) * y) by (nonlinear_arith)
            requires
                z == x * y,
        ;
    } else {
        assert(two_to(a) == 1);
        assert(a + b == b);
    }
}

/// Powers of two grow with the exponent.
pub proof fn lemma_two_to_mono(a: nat, b: nat)
    requires
        a <= b,
    ensures
        two_to(a) <= two_to(b),
{
    lemma_two_to_add(a, (b - a) as nat);
    lemma_two_to_pos((b - a) as nat);
    let x = two_to(a);
    let y = two_to((b - a) as nat);
    assert(x <= x * y) by (nonlinear_arith)
        requires
            y >= 1,
    ;
}

/// The powers of two that bound the computations here.
pub proof fn lemma_two_to_values()
    ensures
        two_to(52) == 0x10_0000_0000_0000,
        two_to(53) == 0x20_0000_0000_0000,
        two_to(125) == 0x2000_0000_0000_0000_0000_0000_0000_0000,
{
    assert(two_to(0) == 1);
    assert(two_to(1) == 2);
    lemma_two_to_add(1, 1);
    assert(two_to(2) == 4) by {
        assert(1nat + 1nat == 2nat);
    }
    lemma_two_to_add(2, 2);
    assert(two_to(4) == 16) by {
        assert(2nat + 2nat == 4nat);
    }
    lemma_two_to_add(4, 4);
    assert(two_to(8) == 256) by {
        assert(4nat + 4nat == 8nat);
    }
    lemma_two_to_add(8, 8);
    assert(two_to(16) == 65536) by {
        assert(8nat + 8nat == 16nat);
    }
    lemma_two_to_add(16, 16);
    assert(two_to(32) == 4294967296) by {
        assert(16nat + 16nat == 32nat);
    }
    lemma_two_to_add(32, 16);
    assert(two_to(48) == 281474976710656) by {
        assert(32nat + 16nat == 48nat);
    }
    lemma_two_to_add(48, 4);
    assert(two_to(52) == 4503599627370496) by {
        assert(48nat + 4nat == 52nat);
    }
    lemma_two_to_add(52, 1);
    assert(two_to(53) == 9007199254740992) by {
        assert(52nat + 1nat == 53nat);
    }
    lemma_two_to_add(32, 32);
    assert(two_to(64) == 18446744073709551616) by {
        assert(32nat + 32nat == 64nat);
    }
    lemma_two_to_add(64, 53);
    assert(two_to(117) == 166153499473114484112975882535043072) by {
        assert(64nat + 53nat == 117nat);
    }
    lemma_two_to_add(117, 8);
    assert(two_to(125) == 42535295865117307932921825928971026432) by {
        assert(117nat + 8nat == 125nat);
    }
}

/// `n / d` rounded to the nearest integer, ties to the even neighbour.
pub open spec fn round_half_even(n: nat, d: nat) -> nat
    recommends
        d > 0,
{
    let q = n / d;
    let r = n % d;
    if 2 * r > d {
        q + 1
    } else if 2 * r < d {
        q
    } else if q % 2 == 0 {
        q
    } else {
        q + 1
    }
}

/// The nearest integer to `n / d`, ties to even.
pub fn round_even_wide(n: u128, d: u128) -> (r: u128)
    requires
        d > 0,
        d <= u128::MAX / 4,
    ensures
        r == round_half_even(n as nat, d as nat),
        n / d <= r <= n / d + 1,
{
    let q = n / d;
    let rem = n % d;
    if 2 * rem >= d {
        assert(q * 2 <= n) by (nonlinear_arith)
            requires
                q == n / d,
                d >= 2 || (d == 1 && rem == 0),
                2 * rem >= d,
                rem < d,
        ;
    }
    if 2 * rem > d {
        q + 1
    } else if 2 * rem < d {
        q
    } else if q % 2 == 0 {
        q
    } else {
        q + 1
    }
}

/// Doubling the power of two doubles the scaled value.
pub proof fn lemma_doubling(n: nat, e: nat)
    requires
        n > 0,
    ensures
        n * two_to(e + 1) == 2 * (n * two_to(e)),
        n * two_to(e + 1) > n * two_to(e),
{
    lemma_two_to_pos(e);
    assert(two_to(e + 1) == 2 * two_to(e));
    let t = two_to(e);
    assert(n * (2 * t) == 2 * (n * t)) by (nonlinear_arith);
    assert(n * t >= 1) by (nonlinear_arith)
        requires
            n >= 1,
            t >= 1,
    ;
}

/// The binary exponent of `n / d`, searched upward from `e`: the first
/// exponent at which `n / d` times two to that power reaches 2^52.
pub open spec fn binary_exponent_from(n: nat, d: nat, e: nat) -> nat
    decreases (if n > 0 && n * two_to(e) < two_to(52) * d {
        two_to(52) * d - n * two_to(e)
    } else {
        0
    }),
{
    if n > 0 && n * two_to(e) < two_to(52) * d {
        proof {
            lemma_doubling(n, e);
        }
        binary_exponent_from(n, d, e + 1)
    } else {
        e
    }
}

/// The `f64` nearest to `n / d` (for `n / d` below 2^53), rounding to
/// nearest with ties to even: `(m, e)` with value `m / 2^e`; `(0, 0)` for 0.
pub open spec fn nearest_double(n: nat, d: nat) -> (nat, nat)
    recommends
        d > 0,
{
    if n == 0 {
        (0, 0)
    } else {
        let e = binary_exponent_from(n, d, 0);
        (round_half_even(n * two_to(e), d), e)
    }
}

/// Two to the power `e`, computed.
pub fn pow_of_two(e: u32) -> (p: u128)
    requires
        e < 127,
    ensures
        p == two_to(e as nat),
{
    let mut p: u128 = 1;
    let mut i: u32 = 0;
    while i < e
        invariant
            i <= e,
            e < 127,
            p == two_to(i as nat),
        decreases e - i,
    {
        proof {
            lemma_two_to_mono(i as nat, 125);
            lemma_two_to_values();
        }
        p = p * 2;
        i = i + 1;
    }
    p
}

/// Computes `nearest_double(n, d)`, with two to the power of the exponent;
/// the scaled value `n * 2^e / d` lies in `[2^52, 2^53)`.
pub fn nearest_binary64(n: u128, d: u128) -> (r: (u128, u32, u128))
    requires
        d > 0,
        d < 0x200_0000_0000_0000_0000,
        n < 0x20_0000_0000_0000 * d,
    ensures
        (r.0 as nat, r.1 as nat) == nearest_double(n as nat, d as nat),
        r.2 == two_to(r.1 as nat),
        r.1 <= 125,
        r.2 <= 0x2000_0000_0000_0000_0000_0000_0000_0000,
        r.0 <= 0x20_0000_0000_0000,
        n > 0 ==> r.0 >= 0x10_0000_0000_0000,
        n > 0 ==> two_to(52) * d <= n * r.2,
        n > 0 ==> n * r.2 < two_to(53) * d,
{
    if n == 0 {
        return (0, 0, 1);
    }
    proof {
        lemma_two_to_values();
    }
    let limit: u128 = d * 0x10_0000_0000_0000;
    let mut scaled: u128 = n;
    let mut pow: u128 = 1;
    let mut e: u32 = 0;
    while scaled < limit
        invariant
            n > 0,
            limit == two_to(52) * d,
            limit < 0x2000_0000_0000_0000_0000_0000_0000_0000,
            two_to(53) == 2 * two_to(52),
            pow == two_to(e as nat),
            scaled == n * pow,
            e <= 125,
            scaled < two_to(53) * d,
            binary_exponent_from(n as nat, d as nat, 0) == binary_exponent_from(
                n as nat,
                d as nat,
                e as nat,
            ),
        decreases 126 - e,
    {
        proof {
            lemma_doubling(n as nat, e as nat);
            lemma_two_to_pos(e as nat);
            assert(pow >= 1);
            assert(scaled >= 1) by (nonlinear_arith)
                requires
                    scaled == n * pow,
                    n >= 1,
                    pow >= 1,
            ;
            assert(pow <= scaled) by (nonlinear_arith)
                requires
                    scaled == n * pow,
                    n >= 1,
            ;
            lemma_two_to_values();
            if e >= 125 {
                lemma_two_to_mono(125, e as nat);
            }
            assert(2 * scaled < two_to(53) * d) by (nonlinear_arith)
                requires
                    scaled < limit,
                    limit == two_to(52) * d,
                    two_to(53) == 2 * two_to(52),
            ;
        }
        scaled = scaled * 2;
        pow = pow * 2;
        e = e + 1;
    }
    proof {
        lemma_two_to_values();
        lemma_two_to_mono(e as nat, 125);
        assert(scaled / d < two_to(53)) by (nonlinear_arith)
            requires
                scaled < two_to(53) * d,
                d > 0,
        ;
        assert(scaled / d >= two_to(52)) by (nonlinear_arith)
            requires
                scaled >= two_to(52) * d,
                d > 0,
        ;
    }
    let m = round_even_wide(scaled, d);
    (m, e, pow)
}

/// Scaling both terms of the ratio leaves the binary exponent unchanged.
proof fn lemma_exponent_scale(n: nat, d: nat, c: nat, e: nat)
    requires
        c > 0,
    ensures
        binary_exponent_from(n * c, d * c, e) == binary_exponent_from(n, d, e),
    decreases (if n > 0 && n * two_to(e) < two_to(52) * d {
        two_to(52) * d - n * two_to(e)
    } else {
        0
    }),
{
    let t = two_to(e);
    let b = two_to(52);
    assert((n * c > 0 && (n * c) * t < b * (d * c)) == (n > 0 && n * t < b * d)) by (nonlinear_arith)
        requires
            c > 0,
    ;
    if n > 0 && n * t < b * d {
        lemma_doubling(n, e);
        lemma_exponent_scale(n, d, c, e + 1);
    }
}

/// Scaling both terms of the ratio leaves the nearest `f64` unchanged.
pub proof fn lemma_nearest_double_scale(n: nat, d: nat, c: nat)
    requires
        c > 0,
        d > 0,
    ensures
        nearest_double(n * c, d * c) == nearest_double(n, d),
{
    if n > 0 {
        assert(n * c > 0) by (nonlinear_arith)
            requires
                n > 0,
                c > 0,
        ;
        lemma_exponent_scale(n, d, c, 0);
        let e = binary_exponent_from(n, d, 0);
        let a = n * two_to(e);
        assert((n * c) * two_to(e) == a * c) by (nonlinear_arith)
            requires
                a == n * two_to(e),
        ;
        let q = a / d;
        let r = a % d;
        vstd::arithmetic::div_mod::lemma_fundamental_div_mod(a as int, d as int);
        vstd::arithmetic::div_mod::lemma_mod_pos_bound(a as int, d as int);
        assert(a * c == q * (d * c) + r * c && 0 <= r * c < d * c) by (nonlinear_arith)
            requires
                a == q * d + r,
                0 <= r < d,
                c > 0,
        ;
        vstd::arithmetic::div_mod::lemma_fundamental_div_mod_converse(
            (a * c) as int,
            (d * c) as int,
            q as int,
            (r * c) as int,
        );
        assert((2 * (r * c) > d * c) == (2 * r > d)) by (nonlinear_arith)
            requires
                c > 0,
        ;
        assert((2 * (r * c) < d * c) == (2 * r < d)) by (nonlinear_arith)
            requires
                c > 0,
        ;
    } else {
        assert(n * c == 0);
    }
}

} // verus!
