//! Quantities as decimal text.
use crate::fixed;
use crate::fixed::{magnitude_of, Fixed, MAX_MICROS};
use crate::text;
use crate::text::{append_decimal, append_digit};
use vstd::arithmetic::power2::pow2;
use vstd::prelude::*;
use vstd::string::StringExecFns;

verus! {

/// The last `width` decimal digits of `n`, with zeros before them.
pub open spec fn padded(n: int, width: nat) -> Seq<char>
    decreases width,
{
    if width == 0 {
        Seq::empty()
    } else {
        padded(n / 10, (width - 1) as nat).push(text::digit(n % 10))
    }
}

/// Ten to the power `k`.
pub open spec fn power_of_ten(k: nat) -> int
    decreases k,
{
    if k == 0 {
        1
    } else {
        10 * power_of_ten((k - 1) as nat)
    }
}

/// `n` in steps of `step`, to the nearest step, halves to the even one.
pub open spec fn even_steps(n: int, step: int) -> int {
    let k = n / step;
    let rest = n % step;
    if 2 * rest > step || (2 * rest == step && k % 2 == 1) {
        k + 1
    } else {
        k
    }
}

/// The millionths of two to the power fifty-two, from which on a double-precision
/// number has no binary places.
pub const FULL: u128 = 4_503_599_627_370_496_000_000;

/// How many binary places the double-precision number nearest to `m` millionths has.
pub open spec fn binary_places(m: int) -> nat
    decreases
            if m < FULL {
                FULL - m
            } else {
                0
            },
{
    if m <= 0 || m >= FULL {
        0
    } else {
        1 + binary_places(2 * m)
    }
}

/// The denominator of the double-precision number nearest to `m` millionths.
pub open spec fn denominator(m: int) -> int {
    pow2(binary_places(m)) as int
}

/// The numerator of the double-precision number nearest to `m` millionths.
pub open spec fn numerator(m: int) -> int {
    even_steps(m * denominator(m), 1_000_000)
}

/// The double-precision number nearest to `m` millionths, in steps of the last of
/// `places` decimals.
pub open spec fn steps(m: int, places: nat) -> int {
    even_steps(numerator(m) * power_of_ten(places), denominator(m))
}

/// The sign of a negative quantity.
pub open spec fn sign(q: int) -> Seq<char> {
    if q < 0 {
        "-"@
    } else {
        ""@
    }
}

/// A quantity with `places` decimals, as its double-precision number is written: what
/// is a tie in decimals goes by the side on which that number lies. A negative
/// quantity that rounds to zero keeps its sign.
pub open spec fn decimal_text(q: int, places: nat) -> Seq<char> {
    let scale = power_of_ten(places);
    let k = steps(fixed::magnitude(q), places);
    let whole = sign(q) + text::decimal((k / scale) as nat);
    if places == 0 {
        whole
    } else {
        whole + "."@ + padded(k % scale, places)
    }
}

/// Whether `a` and `b` millionths have the same double-precision number.
pub open spec fn same_double(a: int, b: int) -> bool {
    numerator(a) * denominator(b) == numerator(b) * denominator(a)
}

/// The fewest decimals, from `places` on and at most six, that tell the
/// double-precision number of `m` millionths from all others.
pub open spec fn telling_places(m: int, places: nat) -> nat
    decreases 6 - places,
{
    if places >= 6 || same_double(steps(m, places) * power_of_ten((6 - places) as nat), m) {
        places
    } else {
        telling_places(m, places + 1)
    }
}

/// A quantity with as few decimals as tell its double-precision number from all
/// others.
pub open spec fn shortest_text(q: int) -> Seq<char> {
    decimal_text(q, telling_places(fixed::magnitude(q), 0))
}

/// Appends the last `width` decimal digits of `n`.
pub fn append_padded(s: &mut String, n: u64, width: u64)
    ensures
        final(s)@ == old(s)@ + padded(n as int, width as nat),
    decreases width,
{
    let ghost before = s@;
    if width > 0 {
        append_padded(s, n / 10, width - 1);
        append_digit(s, n % 10);
    }
    assert(s@ =~= before + padded(n as int, width as nat));
}

/// Ten to the power `k`.
fn power_of_ten_of(k: u64) -> (r: u128)
    requires
        k <= 6,
    ensures
        r == power_of_ten(k as nat),
        1 <= r <= 1_000_000,
{
    proof {
        reveal_with_fuel(power_of_ten, 8);
    }
    if k == 0 {
        1
    } else if k == 1 {
        10
    } else if k == 2 {
        100
    } else if k == 3 {
        1_000
    } else if k == 4 {
        10_000
    } else if k == 5 {
        100_000
    } else {
        1_000_000
    }
}

/// `n` in steps of `step`, halves to the even one.
fn even_steps_of(n: u128, step: u128) -> (r: u128)
    requires
        n <= 4 * FULL,
        0 < step <= 2 * FULL,
    ensures
        r == even_steps(n as int, step as int),
        2 * (r * step) <= 2 * n + step,
{
    let k: u128 = n / step;
    let rest: u128 = n % step;
    proof {
        law_even_steps_close(n as int, step as int);
        vstd::arithmetic::div_mod::lemma_mod_bound(n as int, step as int);
        assert(k <= n) by (nonlinear_arith)
            requires
                step >= 1,
                k == n / step,
        ;
        assert(2 * (even_steps(n as int, step as int) * step - n) == 2 * (even_steps(
            n as int,
            step as int,
        ) * step) - 2 * n);
    }
    if 2 * rest > step || (2 * rest == step && k % 2 == 1) {
        k + 1
    } else {
        k
    }
}

/// Largest number of millionths whose double-precision number is formed.
const MOST: u64 = 2_000_000_000_000_000_000;

/// The double-precision number nearest to `m` millionths: numerator and denominator.
fn double_of(m: u64) -> (r: (u128, u128))
    requires
        m <= MOST,
    ensures
        r.0 == numerator(m as int),
        r.1 == denominator(m as int),
        0 < r.1 <= 2 * FULL,
        r.0 <= 9_007_199_254_740_993,
        r.0 * 1_000_000 <= m * r.1 + 1_000_000,
{
    let mut x: u128 = m as u128;
    let mut p: u128 = 1;
    let ghost mut j: nat = 0;
    proof {
        vstd::arithmetic::power2::lemma2_to64();
    }
    while 0 < x && x < FULL
        invariant
            m <= MOST,
            x == m * p,
            x < 2 * FULL,
            0 < p <= 2 * FULL,
            p == pow2(j),
            binary_places(m as int) == j + binary_places(x as int),
        decreases 2 * FULL - x,
    {
        proof {
            vstd::arithmetic::power2::lemma_pow2_unfold(j + 1);
            assert(m * (2 * p) == 2 * (m * p)) by (nonlinear_arith);
            assert(2 * p <= m * (2 * p)) by (nonlinear_arith)
                requires
                    m >= 1,
                    p > 0,
            ;
            j = j + 1;
        }
        x = 2 * x;
        p = 2 * p;
    }
    let n: u128 = even_steps_of(x, 1_000_000);
    (n, p)
}

/// The double-precision number `n` over `p` nearest to `m` millionths, in steps of the
/// last of `places` decimals.
fn steps_of(m: u64, n: u128, p: u128, places: u64) -> (r: u64)
    requires
        m <= 1_000_000_000_000_000_000,
        n == numerator(m as int),
        p == denominator(m as int),
        0 < p <= 2 * FULL,
        n <= 9_007_199_254_740_993,
        n * 1_000_000 <= m * p + 1_000_000,
        places <= 6,
    ensures
        r == steps(m as int, places as nat),
        r * power_of_ten((6 - places) as nat) <= MOST,
{
    let scale: u128 = power_of_ten_of(places);
    proof {
        assert(n * scale <= 4 * FULL) by (nonlinear_arith)
            requires
                n <= 9_007_199_254_740_993,
                0 <= scale <= 1_000_000,
                FULL == 4_503_599_627_370_496_000_000,
        ;
    }
    let k: u128 = even_steps_of(n * scale, p);
    proof {
        let t = power_of_ten((6 - places) as nat);
        lemma_complement(places as nat);
        lemma_steps_bound(m as int, n as int, p as int, scale as int, k as int, t);
        assert(k <= k * t) by (nonlinear_arith)
            requires
                k >= 0,
                t >= 1,
        ;
    }
    k as u64
}

/// Powers of ten multiply as their exponents add.
proof fn lemma_powers_multiply(a: nat, b: nat)
    ensures
        power_of_ten(a) * power_of_ten(b) == power_of_ten(a + b),
    decreases a,
{
    if a > 0 {
        let c = (a - 1) as nat;
        lemma_powers_multiply(c, b);
        assert((10 * power_of_ten(c)) * power_of_ten(b) == 10 * (power_of_ten(c) * power_of_ten(b)))
            by (nonlinear_arith);
        assert((a + b - 1) as nat == c + b);
    }
}

/// A power of ten and its complement make a million.
proof fn lemma_complement(places: nat)
    requires
        places <= 6,
    ensures
        power_of_ten(places) * power_of_ten((6 - places) as nat) == 1_000_000,
        1 <= power_of_ten((6 - places) as nat) <= 1_000_000,
{
    lemma_powers_multiply(places, (6 - places) as nat);
    reveal_with_fuel(power_of_ten, 8);
}

/// The steps of a number are no more than its millionths allow.
proof fn lemma_steps_bound(m: int, n: int, p: int, scale: int, k: int, t: int)
    requires
        0 <= m,
        0 < p,
        0 < scale <= 1_000_000,
        scale * t == 1_000_000,
        1 <= t <= 1_000_000,
        n * 1_000_000 <= m * p + 1_000_000,
        2 * (k * p) <= 2 * (n * scale) + p,
    ensures
        k * t <= m + 2_000_000,
{
    assert((n * 1_000_000) * scale <= (m * p + 1_000_000) * scale) by (nonlinear_arith)
        requires
            n * 1_000_000 <= m * p + 1_000_000,
            scale > 0,
    ;
    assert((n * 1_000_000) * scale == 1_000_000 * (n * scale)) by (nonlinear_arith);
    assert((m * p + 1_000_000) * scale == (m * scale) * p + 1_000_000 * scale) by (nonlinear_arith);
    assert(1_000_000 * scale <= (1_000_000 * scale) * p) by (nonlinear_arith)
        requires
            p >= 1,
            scale > 0,
    ;
    assert(1_000_000 * (k * p) <= (m * scale) * p + (1_000_000 * scale) * p + 1_000_000 * p);
    assert(1_000_000 * k <= m * scale + 1_000_000 * scale + 1_000_000) by (nonlinear_arith)
        requires
            1_000_000 * (k * p) <= (m * scale) * p + (1_000_000 * scale) * p + 1_000_000 * p,
            p > 0,
    ;
    assert((k * t) * scale == 1_000_000 * k) by (nonlinear_arith)
        requires
            scale * t == 1_000_000,
    ;
    assert(1_000_000 == t * scale) by (nonlinear_arith)
        requires
            scale * t == 1_000_000,
    ;
    assert(k * t <= m + 1_000_000 + t) by (nonlinear_arith)
        requires
            (k * t) * scale <= m * scale + 1_000_000 * scale + t * scale,
            scale > 0,
    ;
}

/// Appends a quantity of `micros` millionths with `places` decimals.
pub fn append_micros(s: &mut String, micros: i64, places: u64)
    requires
        -MAX_MICROS <= micros <= MAX_MICROS,
        places <= 6,
    ensures
        final(s)@ == old(s)@ + decimal_text(micros as int, places as nat),
{
    let ghost before = s@;
    if micros < 0 {
        s.append("-");
    } else {
        s.append("");
    }
    let m: u64 = magnitude_of(micros) as u64;
    let (n, p) = double_of(m);
    let k: u64 = steps_of(m, n, p, places);
    let scale: u64 = power_of_ten_of(places) as u64;
    append_decimal(s, k / scale);
    assert(s@ =~= before + (sign(micros as int) + text::decimal((k / scale) as nat)));
    if places > 0 {
        s.append(".");
        append_padded(s, k % scale, places);
    }
    assert(s@ =~= before + decimal_text(micros as int, places as nat));
}

/// The fewest decimals that tell the double-precision number of `m` millionths from
/// all others.
fn telling_places_of(m: u64) -> (r: u64)
    requires
        m <= 1_000_000_000_000_000_000,
    ensures
        r == telling_places(m as int, 0),
        r <= 6,
{
    let (n, p) = double_of(m);
    let mut places: u64 = 0;
    while places < 6
        invariant
            m <= 1_000_000_000_000_000_000,
            places <= 6,
            n == numerator(m as int),
            p == denominator(m as int),
            0 < p <= 2 * FULL,
            n <= 9_007_199_254_740_993,
            n * 1_000_000 <= m * p + 1_000_000,
            telling_places(m as int, 0) == telling_places(m as int, places as nat),
        decreases 6 - places,
    {
        let k: u64 = steps_of(m, n, p, places);
        let t: u64 = power_of_ten_of(6 - places) as u64;
        let (a, b) = double_of(k * t);
        proof {
            assert(a * p <= 9_007_199_254_740_993 * (2 * FULL)) by (nonlinear_arith)
                requires
                    0 <= a <= 9_007_199_254_740_993,
                    0 < p <= 2 * FULL,
            ;
            assert(n * b <= 9_007_199_254_740_993 * (2 * FULL)) by (nonlinear_arith)
                requires
                    0 <= n <= 9_007_199_254_740_993,
                    0 < b <= 2 * FULL,
            ;
        }
        if a * p == n * b {
            return places;
        }
        places += 1;
    }
    places
}

/// A quantity with as few decimals as tell its double-precision number from all
/// others.
pub fn append_shortest(s: &mut String, q: Fixed)
    ensures
        final(s)@ == old(s)@ + shortest_text(q@),
{
    let micros: i64 = q.micros();
    let places: u64 = telling_places_of(magnitude_of(micros) as u64);
    append_micros(s, micros, places);
}

/// Law: rounding to steps errs by at most half a step.
pub proof fn law_even_steps_close(m: int, step: int)
    requires
        m >= 0,
        step > 0,
    ensures
        -step <= 2 * (even_steps(m, step) * step - m) <= step,
{
    vstd::arithmetic::div_mod::lemma_fundamental_div_mod(m, step);
    vstd::arithmetic::div_mod::lemma_mod_bound(m, step);
    let k = m / step;
    assert(step * k == k * step) by (nonlinear_arith);
    assert((k + 1) * step == k * step + step) by (nonlinear_arith);
}

} // verus!
