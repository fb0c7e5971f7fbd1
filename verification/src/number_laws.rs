//! What numbers in text promise.
use crate::http;
use crate::http_laws;
use crate::numerals;
use crate::numerals::FULL;
use crate::text;
use vstd::arithmetic::power2::pow2;
use vstd::prelude::*;

verus! {

/// Law: padded digits are as many as asked for and give the last digits of the number.
pub proof fn law_padded_digits(n: int, width: nat)
    requires
        n >= 0,
    ensures
        numerals::padded(n, width).len() == width,
        http::all_digits(numerals::padded(n, width)),
        http::digits_value(numerals::padded(n, width)) == n % numerals::power_of_ten(width),
        numerals::power_of_ten(width) > 0,
    decreases width,
{
    if width > 0 {
        let w = (width - 1) as nat;
        law_padded_digits(n / 10, w);
        let d = numerals::padded(n, width);
        let p = numerals::power_of_ten(w);
        assert(d.drop_last() =~= numerals::padded(n / 10, w));
        assert(d.last() as u32 == 48 + n % 10);
        assert forall|i: int| 0 <= i < d.len() implies '0' <= #[trigger] d[i] <= '9' by {
            if i < d.len() - 1 {
                assert(d[i] == numerals::padded(n / 10, w)[i]);
            }
        }
        let q = n / 10;
        vstd::arithmetic::div_mod::lemma_fundamental_div_mod(q, p);
        vstd::arithmetic::div_mod::lemma_mod_bound(q, p);
        let r = q % p;
        let whole = q / p;
        assert(n == 10 * q + n % 10);
        assert(n == (10 * p) * whole + (10 * r + n % 10)) by (nonlinear_arith)
            requires
                n == 10 * q + n % 10,
                q == p * whole + r,
        ;
        vstd::arithmetic::div_mod::lemma_fundamental_div_mod_converse(
            n,
            10 * p,
            whole,
            10 * r + n % 10,
        );
    } else {
        assert(n % 1 == 0);
    }
}

/// Law: decimal digits give their number, with no zero before them.
pub proof fn law_decimal_digits(n: nat)
    ensures
        http::all_digits(text::decimal(n)),
        http::parsed_number(text::decimal(n), n as int) == Some(n as int),
        n > 0 ==> text::decimal(n)[0] != '0',
        n == 0 ==> text::decimal(n) == seq!['0'],
    decreases n,
{
    http_laws::law_numbers_read_back(n, n as int, text::decimal(n), 0);
    lemma_first_digit(n);
}

/// The first digit of a number.
proof fn lemma_first_digit(n: nat)
    ensures
        text::decimal(n).len() > 0,
        http::all_digits(text::decimal(n)),
        n > 0 ==> text::decimal(n)[0] != '0',
        n == 0 ==> text::decimal(n) == seq!['0'],
    decreases n,
{
    if n >= 10 {
        lemma_first_digit(n / 10);
        let d = text::decimal(n);
        let before = text::decimal(n / 10);
        assert(d[0] == before[0]);
        assert forall|i: int| 0 <= i < d.len() implies '0' <= #[trigger] d[i] <= '9' by {
            if i < d.len() - 1 {
                assert(d[i] == before[i]);
            }
        }
    }
}

/// Law: a double-precision number has fifty-two binary digits behind its first one, as
/// far as they are needed: the places that a quantity of `m` millionths takes bring it
/// into the range of such whole numbers, and one place fewer would not.
pub proof fn law_binary_places(m: int)
    requires
        0 < m < FULL,
    ensures
        FULL <= m * numerals::denominator(m) < 2 * FULL,
        FULL == 4_503_599_627_370_496 * 1_000_000,
    decreases FULL - m,
{
    let b = numerals::binary_places(2 * m);
    vstd::arithmetic::power2::lemma_pow2_unfold((b + 1) as nat);
    assert(numerals::denominator(m) == 2 * pow2(b));
    assert(m * (2 * pow2(b)) == (2 * m) * pow2(b)) by (nonlinear_arith);
    if 2 * m < FULL {
        law_binary_places(2 * m);
    } else {
        vstd::arithmetic::power2::lemma2_to64();
        assert(pow2(0) == 1);
        assert((2 * m) * 1 == 2 * m);
    }
}

/// Law: a quantity with `places` decimals is off by at most half a step of the last of
/// them, and what its double-precision number is off.
pub proof fn law_decimals_close(m: int, places: nat)
    requires
        0 <= m,
    ensures
        ({
            let d = numerals::denominator(m);
            let p = numerals::power_of_ten(places);
            let k = numerals::steps(m, places);
            -(d * 1_000_000 + p * 1_000_000) <= 2 * d * (k * 1_000_000 - m * p) <= d * 1_000_000 + p
                * 1_000_000
        }),
{
    let d = numerals::denominator(m);
    let p = numerals::power_of_ten(places);
    let a = numerals::numerator(m);
    let k = numerals::steps(m, places);
    vstd::arithmetic::power2::lemma_pow2_pos(numerals::binary_places(m));
    law_padded_digits(0, places);
    assert(m * d >= 0) by (nonlinear_arith)
        requires
            m >= 0,
            d >= 1,
    ;
    numerals::law_even_steps_close(m * d, 1_000_000);
    assert(a >= 0);
    assert(a * p >= 0) by (nonlinear_arith)
        requires
            a >= 0,
            p > 0,
    ;
    numerals::law_even_steps_close(a * p, d);
    assert(-(p * 1_000_000) <= 2 * p * (a * 1_000_000 - m * d) <= p * 1_000_000)
        by (nonlinear_arith)
        requires
            -1_000_000 <= 2 * (a * 1_000_000 - m * d) <= 1_000_000,
            p > 0,
    ;
    assert(-(d * 1_000_000) <= 2 * 1_000_000 * (k * d - a * p) <= d * 1_000_000)
        by (nonlinear_arith)
        requires
            -d <= 2 * (k * d - a * p) <= d,
    ;
    assert(2 * d * (k * 1_000_000 - m * p) == 2 * 1_000_000 * (k * d - a * p) + 2 * p * (a
        * 1_000_000 - m * d)) by (nonlinear_arith);
}

/// Exact steps stay as they are.
proof fn lemma_exact(k: int, step: int)
    requires
        step > 0,
        k >= 0,
    ensures
        numerals::even_steps(k * step, step) == k,
{
    vstd::arithmetic::div_mod::lemma_fundamental_div_mod_converse(k * step, step, k, 0);
    assert(k * step == step * k) by (nonlinear_arith);
}

/// Law: a whole number of units is written with its own digits, zeros for decimals, and a
/// minus sign where it is negative.
pub proof fn law_whole_numbers(n: int, places: nat)
    requires
        n >= 0,
    ensures
        numerals::steps(n * 1_000_000, places) == n * numerals::power_of_ten(places),
        numerals::decimal_text(n * 1_000_000, 0) == text::decimal(n as nat),
        n > 0 ==> numerals::decimal_text(-(n * 1_000_000), 0) == "-"@ + text::decimal(n as nat),
        numerals::decimal_text(n * 1_000_000, 1) == text::decimal(n as nat) + "."@ + seq!['0'],
        numerals::decimal_text(n * 1_000_000, 2) == text::decimal(n as nat) + "."@ + seq!['0', '0'],
{
    lemma_whole_steps(n, places);
    lemma_whole_steps(n, 0);
    lemma_whole_steps(n, 1);
    lemma_whole_steps(n, 2);
    reveal_with_fuel(numerals::power_of_ten, 3);
    reveal_with_fuel(numerals::padded, 3);
    reveal_strlit("");
    assert(""@ + text::decimal(n as nat) =~= text::decimal(n as nat));
    assert(numerals::padded(0, 1) =~= seq!['0']);
    assert(numerals::padded(0, 2) =~= seq!['0', '0']);
    assert(numerals::power_of_ten(0) == 1);
    assert(numerals::steps(n * 1_000_000, 0) == n);
    assert(n / 1 == n);
    assert(numerals::sign(n * 1_000_000) + text::decimal(n as nat) =~= text::decimal(n as nat));
    assert((n * 10) / 10 == n && (n * 10) % 10 == 0);
    assert((n * 100) / 100 == n && (n * 100) % 100 == 0);
}

/// Whole numbers in steps.
proof fn lemma_whole_steps(n: int, places: nat)
    requires
        n >= 0,
    ensures
        numerals::steps(n * 1_000_000, places) == n * numerals::power_of_ten(places),
{
    let m = n * 1_000_000;
    let d = numerals::denominator(m);
    let p = numerals::power_of_ten(places);
    vstd::arithmetic::power2::lemma_pow2_pos(numerals::binary_places(m));
    law_padded_digits(0, places);
    assert(m * d == (n * d) * 1_000_000) by (nonlinear_arith)
        requires
            m == n * 1_000_000,
    ;
    assert(n * d >= 0) by (nonlinear_arith)
        requires
            d >= 1,
            n >= 0,
    ;
    lemma_exact(n * d, 1_000_000);
    assert((n * d) * p == (n * p) * d) by (nonlinear_arith);
    assert(n * p >= 0) by (nonlinear_arith)
        requires
            p >= 1,
            n >= 0,
    ;
    lemma_exact(n * p, d);
}

/// Law: strings are joined with the separator between each two.
pub proof fn law_join(parts: Seq<Seq<char>>, x: Seq<char>, separator: Seq<char>)
    ensures
        text::join(Seq::empty(), separator) == Seq::<char>::empty(),
        text::join(seq![x], separator) == x,
        parts.len() > 0 ==> text::join(parts.push(x), separator) == text::join(parts, separator)
            + separator + x,
{
    assert(parts.push(x).drop_last() =~= parts);
}

/// Law: lower case changes ASCII capitals only, character by character.
pub proof fn law_lower_case(s: Seq<char>, i: int)
    requires
        0 <= i < s.len(),
    ensures
        text::lowered(s).len() == s.len(),
        'A' <= s[i] <= 'Z' ==> text::lowered(s)[i] as u32 - 'a' as u32 == s[i] as u32 - 'A' as u32,
        !('A' <= s[i] <= 'Z') ==> text::lowered(s)[i] == s[i],
{
}

/// The fewest decimals that tell a quantity.
proof fn lemma_telling(m: int, from: nat, k: nat)
    requires
        from <= k,
    ensures
        from <= numerals::telling_places(m, from),
        from <= 6 ==> numerals::telling_places(m, from) <= 6,
        numerals::telling_places(m, from) < 6 ==> numerals::same_double(
            numerals::steps(m, numerals::telling_places(m, from)) * numerals::power_of_ten(
                (6 - numerals::telling_places(m, from)) as nat,
            ),
            m,
        ),
        k < numerals::telling_places(m, from) ==> k < 6 && !numerals::same_double(
            numerals::steps(m, k) * numerals::power_of_ten((6 - k) as nat),
            m,
        ),
    decreases 6 - from,
{
    if from < 6 && !numerals::same_double(
        numerals::steps(m, from) * numerals::power_of_ten((6 - from) as nat),
        m,
    ) {
        if from < k {
            lemma_telling(m, (from + 1) as nat, k);
        } else {
            lemma_telling(m, (from + 1) as nat, (from + 1) as nat);
        }
    }
}

/// Law: the shortest text of a quantity has as few decimals, at most six, as lead back to
/// its double-precision number, and a whole number has none.
pub proof fn law_shortest_text(q: int, k: nat, n: int)
    requires
        0 <= q,
        0 <= n,
    ensures
        ({
            let places = numerals::telling_places(q, 0);
            &&& numerals::shortest_text(q) == numerals::decimal_text(q, places)
            &&& places <= 6
            &&& k < places ==> !numerals::same_double(
                numerals::steps(q, k) * numerals::power_of_ten((6 - k) as nat),
                q,
            )
            &&& places < 6 ==> numerals::same_double(
                numerals::steps(q, places) * numerals::power_of_ten((6 - places) as nat),
                q,
            )
        }),
        numerals::shortest_text(n * 1_000_000) == text::decimal(n as nat),
{
    lemma_telling(q, 0, k);
    law_whole_numbers(n, 0);
    reveal_with_fuel(numerals::power_of_ten, 8);
    assert(numerals::power_of_ten(6) == 1_000_000);
    assert(numerals::power_of_ten(0) == 1);
    assert(numerals::steps(n * 1_000_000, 0) == n);
    assert(numerals::same_double(n * 1_000_000, n * 1_000_000));
    assert(numerals::telling_places(n * 1_000_000, 0) == 0);
}

/// Law: two quantities have the same double-precision number exactly where the quotients
/// of numerator and denominator agree.
pub proof fn law_same_double(a: int, b: int)
    ensures
        numerals::same_double(a, a),
        numerals::same_double(a, b) == numerals::same_double(b, a),
        numerals::same_double(a, b) <==> numerals::numerator(a) * numerals::denominator(b)
            == numerals::numerator(b) * numerals::denominator(a),
{
}

/// Law: white space is what Unicode says it is.
pub proof fn law_white_space(c: char)
    ensures
        text::is_space(c) <==> seq![
            9u32,
            10,
            11,
            12,
            13,
            32,
            133,
            160,
            5760,
            8192,
            8193,
            8194,
            8195,
            8196,
            8197,
            8198,
            8199,
            8200,
            8201,
            8202,
            8232,
            8233,
            8239,
            8287,
            12288,
        ].contains(c as u32),
{
    let known = seq![
        9u32,
        10,
        11,
        12,
        13,
        32,
        133,
        160,
        5760,
        8192,
        8193,
        8194,
        8195,
        8196,
        8197,
        8198,
        8199,
        8200,
        8201,
        8202,
        8232,
        8233,
        8239,
        8287,
        12288,
    ];
    assert(known[0] == 9 && known[1] == 10 && known[2] == 11 && known[3] == 12 && known[4] == 13
        && known[5] == 32 && known[6] == 133 && known[7] == 160 && known[8] == 5760 && known[9]
        == 8192 && known[10] == 8193 && known[11] == 8194 && known[12] == 8195 && known[13] == 8196
        && known[14] == 8197 && known[15] == 8198 && known[16] == 8199 && known[17] == 8200
        && known[18] == 8201 && known[19] == 8202 && known[20] == 8232 && known[21] == 8233
        && known[22] == 8239 && known[23] == 8287 && known[24] == 12288);
}

/// Law: a negative quantity is written as the positive one behind a minus sign, and every
/// quantity as its whole part, a point and its decimals.
pub proof fn law_decimal_text(q: int, places: nat)
    requires
        q > 0,
        places > 0,
    ensures
        numerals::decimal_text(-q, places) == "-"@ + numerals::decimal_text(q, places),
        numerals::decimal_text(-q, 0) == "-"@ + numerals::decimal_text(q, 0),
        ({
            let p = numerals::power_of_ten(places);
            let k = numerals::steps(q, places);
            numerals::decimal_text(q, places) == text::decimal((k / p) as nat) + "."@
                + numerals::padded(k % p, places)
        }),
        numerals::power_of_ten(places) == 10 * numerals::power_of_ten((places - 1) as nat),
        numerals::power_of_ten(0) == 1,
{
    reveal_strlit("");
    let p = numerals::power_of_ten(places);
    let k = numerals::steps(q, places);
    let w = text::decimal((k / p) as nat);
    let d = numerals::padded(k % p, places);
    assert(""@ + w =~= w);
    assert("-"@ + w + "."@ + d =~= "-"@ + (w + "."@ + d));
    let k = numerals::steps(q, 0);
    let w = text::decimal((k / 1) as nat);
    assert(""@ + w =~= w);
}

/// Law: what lies halfway between two steps goes to the even one.
pub proof fn law_ties_to_even(k: int, half: int)
    requires
        k >= 0,
        half > 0,
    ensures
        numerals::even_steps(k * (2 * half) + half, 2 * half) % 2 == 0,
        k % 2 == 0 ==> numerals::even_steps(k * (2 * half) + half, 2 * half) == k,
        k % 2 == 1 ==> numerals::even_steps(k * (2 * half) + half, 2 * half) == k + 1,
{
    let n = k * (2 * half) + half;
    assert(n == (2 * half) * k + half) by (nonlinear_arith)
        requires
            n == k * (2 * half) + half,
    ;
    vstd::arithmetic::div_mod::lemma_fundamental_div_mod_converse(n, 2 * half, k, half);
}

} // verus!
