//! Decimal fixed-point quantities and their encoding as register words.
//!
//! Every physical quantity of the plant (watts, volts, kilowatt-hours, percent)
//! is a [`Fixed`]: a whole number of millionths of its unit. A register holds a
//! sixteen-bit word, so each projection ends in one of the roundings below.
use vstd::prelude::*;

verus! {

/// Millionths in one unit.
pub const MICROS_PER_UNIT: i64 = 1_000_000;

/// Largest magnitude of a quantity, in millionths: a million million units, the
/// most for which the product of two quantities fits in the machine's numbers.
pub const MAX_MICROS: i64 = 1_000_000_000_000_000_000;

/// The value `x`, moved to the nearer bound where it lies outside `lo..=hi`.
pub open spec fn saturate(x: int, lo: int, hi: int) -> int {
    if x < lo {
        lo
    } else if x > hi {
        hi
    } else {
        x
    }
}

/// The whole number nearest to `n / d`, halves away from zero (`d > 0`).
pub open spec fn nearest(n: int, d: int) -> int {
    if n >= 0 {
        (2 * n + d) / (2 * d)
    } else {
        -((2 * (-n) + d) / (2 * d))
    }
}

/// The quotient `n / d` without its fraction (`d > 0`).
pub open spec fn toward_zero(n: int, d: int) -> int {
    if n >= 0 {
        n / d
    } else {
        -((-n) / d)
    }
}

/// A quantity with six decimals.
#[derive(Clone, Copy, Debug, PartialEq, Eq)]
pub struct Fixed {
    micros: i64,
}

impl View for Fixed {
    type V = int;

    closed spec fn view(&self) -> int {
        self.micros as int
    }
}

impl Fixed {
    #[verifier::type_invariant]
    spec fn in_range(self) -> bool {
        -MAX_MICROS <= self.micros <= MAX_MICROS
    }

    /// The quantity of `micros` millionths.
    pub closed spec fn of(micros: int) -> Fixed {
        Fixed { micros: micros as i64 }
    }

    /// The quantity of `micros` millionths, held to the representable range.
    pub fn from_micros(micros: i64) -> (r: Fixed)
        ensures
            r@ == saturate(micros as int, -MAX_MICROS as int, MAX_MICROS as int),
            r == Fixed::of(saturate(micros as int, -MAX_MICROS as int, MAX_MICROS as int)),
    {
        if micros < -MAX_MICROS {
            Fixed { micros: -MAX_MICROS }
        } else if micros > MAX_MICROS {
            Fixed { micros: MAX_MICROS }
        } else {
            Fixed { micros }
        }
    }

    /// The quantity of `units` whole units.
    pub fn from_units(units: i32) -> (r: Fixed)
        ensures
            r@ == units * MICROS_PER_UNIT,
            r == Fixed::of(units * MICROS_PER_UNIT),
    {
        Fixed { micros: units as i64 * MICROS_PER_UNIT }
    }

    /// The quantity in millionths.
    pub fn micros(&self) -> (r: i64)
        ensures
            r == self@,
            -MAX_MICROS <= r <= MAX_MICROS,
    {
        proof {
            use_type_invariant(self);
        }
        self.micros
    }

    /// The quantity in millionths, in the width of the encoders.
    pub fn exact(&self) -> (r: i128)
        ensures
            r == self@,
            -MAX_MICROS <= r <= MAX_MICROS,
    {
        self.micros() as i128
    }
}

/// A quantity is determined by its millionths, and [`Fixed::of`] gives the
/// quantity back.
pub broadcast proof fn lemma_fixed_of(micros: int)
    requires
        -MAX_MICROS <= micros <= MAX_MICROS,
    ensures
        (#[trigger] Fixed::of(micros))@ == micros,
{
}

/// Two quantities with the same millionths are the same.
pub proof fn lemma_fixed_same(a: Fixed, b: Fixed)
    requires
        a@ == b@,
    ensures
        a == b,
{
}

/// The quantity nearest to `n / d` millionths, held to the representable range.
pub open spec fn rounded(n: int, d: int) -> Fixed {
    Fixed::of(saturate(nearest(n, d), -MAX_MICROS as int, MAX_MICROS as int))
}

/// The distance of `x` from zero.
pub open spec fn magnitude(x: int) -> int {
    if x < 0 {
        -x
    } else {
        x
    }
}

/// The larger of `x` and zero.
pub open spec fn positive_part(x: int) -> int {
    if x < 0 {
        0
    } else {
        x
    }
}

/// A sixteen-bit word for `n / d`: rounded, and held to `0..=65535`.
pub open spec fn rounded_word(n: int, d: int) -> int {
    saturate(nearest(n, d), 0, 65535)
}

/// A sixteen-bit word for `n / d`: cut off, and held to `0..=65535`.
pub open spec fn cut_word(n: int, d: int) -> int {
    saturate(toward_zero(n, d), 0, 65535)
}

/// The sixteen-bit pattern of a signed number in `-32768..=32767`.
pub open spec fn twos_complement(x: int) -> int {
    if x < 0 {
        x + 65536
    } else {
        x
    }
}

/// A signed word for `n / d`: cut off, and held to the signed range.
pub open spec fn signed_cut_word(n: int, d: int) -> int {
    twos_complement(saturate(toward_zero(n, d), -32768, 32767))
}

/// A signed word for `n / d`: rounded, and held to the signed range.
pub open spec fn signed_rounded_word(n: int, d: int) -> int {
    twos_complement(saturate(nearest(n, d), -32768, 32767))
}

/// An unsigned thirty-two-bit number for `n / d`, rounded.
pub open spec fn wide(n: int, d: int) -> int {
    saturate(nearest(n, d), 0, 4294967295)
}

/// The thirty-two-bit pattern of the signed number nearest to `n / d`.
pub open spec fn signed_wide(n: int, d: int) -> int {
    let x = saturate(nearest(n, d), -2147483648, 2147483647);
    if x < 0 {
        x + 4294967296
    } else {
        x
    }
}

/// The upper sixteen bits of a thirty-two-bit number.
pub open spec fn high_half(raw: int) -> int {
    raw / 65536
}

/// The lower sixteen bits of a thirty-two-bit number.
pub open spec fn low_half(raw: int) -> int {
    raw % 65536
}

/// Law: the two halves of a thirty-two-bit number fit in words and give the
/// number back.
pub proof fn law_halves_recombine(raw: int)
    requires
        0 <= raw <= 4294967295,
    ensures
        0 <= high_half(raw) <= 65535,
        0 <= low_half(raw) <= 65535,
        high_half(raw) * 65536 + low_half(raw) == raw,
{
}

/// Law: rounding is monotone, so a larger reading never shows a smaller word.
pub proof fn law_rounding_monotone(a: int, b: int, d: int)
    requires
        d > 0,
        a <= b,
    ensures
        nearest(a, d) <= nearest(b, d),
        rounded_word(a, d) <= rounded_word(b, d),
        wide(a, d) <= wide(b, d),
{
    if a >= 0 {
        vstd::arithmetic::div_mod::lemma_div_is_ordered(2 * a + d, 2 * b + d, 2 * d);
    } else if b < 0 {
        vstd::arithmetic::div_mod::lemma_div_is_ordered(2 * (-b) + d, 2 * (-a) + d, 2 * d);
    } else {
        vstd::arithmetic::div_mod::lemma_div_pos_is_pos(2 * b + d, 2 * d);
        vstd::arithmetic::div_mod::lemma_div_pos_is_pos(2 * (-a) + d, 2 * d);
    }
}

/// Law: a rounded reading lies within half a step of the reading.
pub proof fn law_rounding_within_half(n: int, d: int)
    requires
        d > 0,
    ensures
        -d <= 2 * (nearest(n, d) * d - n) <= d,
{
    let m = magnitude(n);
    let q = (2 * m + d) / (2 * d);
    vstd::arithmetic::div_mod::lemma_fundamental_div_mod(2 * m + d, 2 * d);
    vstd::arithmetic::div_mod::lemma_mod_bound(2 * m + d, 2 * d);
    assert((2 * d) * q == 2 * (q * d)) by (nonlinear_arith);
    assert((-q) * d == -(q * d)) by (nonlinear_arith);
}

/// Law: a signed word reads back as the number it encodes.
pub proof fn law_signed_word_reads_back(x: int)
    requires
        -32768 <= x <= 32767,
    ensures
        0 <= twos_complement(x) <= 65535,
        (if twos_complement(x) >= 32768 {
            twos_complement(x) - 65536
        } else {
            twos_complement(x)
        }) == x,
{
}

/// The product of two quantities stays within the square of their bound.
pub proof fn lemma_product_bound(a: int, b: int)
    requires
        -MAX_MICROS <= a <= MAX_MICROS,
        -MAX_MICROS <= b <= MAX_MICROS,
    ensures
        -(MAX_MICROS * MAX_MICROS) <= a * b <= MAX_MICROS * MAX_MICROS,
{
    assert(-(MAX_MICROS * MAX_MICROS) <= a * b <= MAX_MICROS * MAX_MICROS) by (nonlinear_arith)
        requires
            -MAX_MICROS <= a <= MAX_MICROS,
            -MAX_MICROS <= b <= MAX_MICROS,
    ;
}

/// Bound on numerators and denominators of the executable encoders.
pub const LIMIT: i128 = 40_000_000_000_000_000_000_000_000_000_000_000_000;

/// The whole number nearest to `n / d`.
pub fn nearest_of(n: i128, d: i128) -> (r: i128)
    requires
        -LIMIT <= n <= LIMIT,
        0 < d <= LIMIT,
    ensures
        r == nearest(n as int, d as int),
{
    let m: u128 = if n >= 0 {
        n as u128
    } else {
        (-n) as u128
    };
    let e: u128 = d as u128;
    let q: u128 = (2 * m + e) / (2 * e);
    proof {
        assert(q <= 2 * m + e) by (nonlinear_arith)
            requires
                e >= 1,
                q == (2 * m + e) / (2 * e),
        ;
    }
    if n >= 0 {
        q as i128
    } else {
        -(q as i128)
    }
}

/// The quotient `n / d` without its fraction.
pub fn toward_zero_of(n: i128, d: i128) -> (r: i128)
    requires
        -LIMIT <= n <= LIMIT,
        0 < d <= LIMIT,
    ensures
        r == toward_zero(n as int, d as int),
{
    let m: u128 = if n >= 0 {
        n as u128
    } else {
        (-n) as u128
    };
    let e: u128 = d as u128;
    let q: u128 = m / e;
    proof {
        assert(q <= m) by (nonlinear_arith)
            requires
                e >= 1,
                q == m / e,
        ;
    }
    if n >= 0 {
        q as i128
    } else {
        -(q as i128)
    }
}

/// `x` held to `lo..=hi`.
pub fn saturate_to(x: i128, lo: i128, hi: i128) -> (r: i128)
    requires
        lo <= hi,
    ensures
        r == saturate(x as int, lo as int, hi as int),
        lo <= r <= hi,
{
    if x < lo {
        lo
    } else if x > hi {
        hi
    } else {
        x
    }
}

/// The distance of `x` from zero.
pub fn magnitude_of(x: i64) -> (r: i64)
    requires
        -MAX_MICROS <= x <= MAX_MICROS,
    ensures
        r == magnitude(x as int),
        0 <= r <= MAX_MICROS,
{
    if x < 0 {
        -x
    } else {
        x
    }
}

/// The larger of `x` and zero.
pub fn positive_part_of(x: i64) -> (r: i64)
    requires
        -MAX_MICROS <= x <= MAX_MICROS,
    ensures
        r == positive_part(x as int),
        0 <= r <= MAX_MICROS,
{
    if x < 0 {
        0
    } else {
        x
    }
}

/// The quantity nearest to `n / d` millionths.
pub fn rounded_of(n: i128, d: i128) -> (r: Fixed)
    requires
        -LIMIT <= n <= LIMIT,
        0 < d <= LIMIT,
    ensures
        r == rounded(n as int, d as int),
        r@ == saturate(nearest(n as int, d as int), -MAX_MICROS as int, MAX_MICROS as int),
{
    let m: i128 = saturate_to(nearest_of(n, d), -(MAX_MICROS as i128), MAX_MICROS as i128);
    Fixed { micros: m as i64 }
}

/// The rounded word for `n / d`.
pub fn rounded_word_of(n: i128, d: i128) -> (r: u16)
    requires
        -LIMIT <= n <= LIMIT,
        0 < d <= LIMIT,
    ensures
        r == rounded_word(n as int, d as int),
{
    saturate_to(nearest_of(n, d), 0, 65535) as u16
}

/// The cut-off word for `n / d`.
pub fn cut_word_of(n: i128, d: i128) -> (r: u16)
    requires
        -LIMIT <= n <= LIMIT,
        0 < d <= LIMIT,
    ensures
        r == cut_word(n as int, d as int),
{
    saturate_to(toward_zero_of(n, d), 0, 65535) as u16
}

/// The sixteen-bit pattern of `x`.
pub fn twos_complement_of(x: i128) -> (r: u16)
    requires
        -32768 <= x <= 32767,
    ensures
        r == twos_complement(x as int),
{
    if x < 0 {
        (x + 65536) as u16
    } else {
        x as u16
    }
}

/// The signed cut-off word for `n / d`.
pub fn signed_cut_word_of(n: i128, d: i128) -> (r: u16)
    requires
        -LIMIT <= n <= LIMIT,
        0 < d <= LIMIT,
    ensures
        r == signed_cut_word(n as int, d as int),
{
    twos_complement_of(saturate_to(toward_zero_of(n, d), -32768, 32767))
}

/// The signed rounded word for `n / d`.
pub fn signed_rounded_word_of(n: i128, d: i128) -> (r: u16)
    requires
        -LIMIT <= n <= LIMIT,
        0 < d <= LIMIT,
    ensures
        r == signed_rounded_word(n as int, d as int),
{
    twos_complement_of(saturate_to(nearest_of(n, d), -32768, 32767))
}

/// The unsigned thirty-two-bit number for `n / d`.
pub fn wide_of(n: i128, d: i128) -> (r: u32)
    requires
        -LIMIT <= n <= LIMIT,
        0 < d <= LIMIT,
    ensures
        r == wide(n as int, d as int),
{
    saturate_to(nearest_of(n, d), 0, 4294967295) as u32
}

/// The thirty-two-bit pattern of the signed number nearest to `n / d`.
pub fn signed_wide_of(n: i128, d: i128) -> (r: u32)
    requires
        -LIMIT <= n <= LIMIT,
        0 < d <= LIMIT,
    ensures
        r == signed_wide(n as int, d as int),
{
    let x: i128 = saturate_to(nearest_of(n, d), -2147483648, 2147483647);
    if x < 0 {
        (x + 4294967296) as u32
    } else {
        x as u32
    }
}

/// The upper half of `raw`.
pub fn high_half_of(raw: u32) -> (r: u16)
    ensures
        r == high_half(raw as int),
{
    (raw / 65536) as u16
}

/// The lower half of `raw`.
pub fn low_half_of(raw: u32) -> (r: u16)
    ensures
        r == low_half(raw as int),
{
    (raw % 65536) as u16
}

} // verus!
