//! What clients can rely on in the banks of the battery modules.
use crate::battery_banks;
use crate::battery_banks::FACTOR_ONE;
use crate::fixed;
use crate::showing::{plain, words};
use crate::state;
use crate::state::{BatteryState, ModuleQuantity};
use crate::text;
use vstd::prelude::*;

verus! {

/// The long word at offsets `i` and `i + 1` of a module's bank.
pub open spec fn long_at(i: int, b: BatteryState, module: usize) -> int {
    battery_banks::module_word(i, b, module) * 65536 + battery_banks::module_word(i + 1, b, module)
}

/// The two halves of a long word give it back.
proof fn lemma_long(raw: int)
    requires
        0 <= raw <= 0xffff_ffff,
    ensures
        battery_banks::half(raw, 0) * 65536 + battery_banks::half(raw, 1) == raw,
{
}

/// Law: the long words of a module's bank: voltage, calibrated capacity and nominal
/// capacity, the last one twice.
pub proof fn law_module_long_words(b: BatteryState, module: usize)
    ensures
        long_at(22, b, module) == plain::long(b.voltage_v@, 1_000),
        long_at(24, b, module) == plain::long(b.capacity_kwh@, 512),
        long_at(26, b, module) == plain::long(b.nominal_capacity_kwh@, 512),
        long_at(28, b, module) == plain::long(b.capacity_kwh@ * b.soc_percent@, 51_200_000_000),
        long_at(41, b, module) == plain::long(b.nominal_capacity_kwh@, 512),
{
    lemma_long(plain::long(b.voltage_v@, 1_000));
    lemma_long(plain::long(b.capacity_kwh@, 512));
    lemma_long(plain::long(b.nominal_capacity_kwh@, 512));
    lemma_long(plain::long(b.capacity_kwh@ * b.soc_percent@, 51_200_000_000));
}

/// Law: the remaining capacity at offsets 28-29 is the calibrated capacity at offsets
/// 24-25 times the state of charge, to within one step: nothing in an empty module,
/// all of it in a full one, and strictly less in between for a module of a
/// kilowatt-hour or more.
pub proof fn law_remaining_capacity(b: BatteryState, module: usize)
    requires
        0 <= b.capacity_kwh@ <= 2_000_000_000_000,
        0 <= b.soc_percent@ <= 100_000_000,
    ensures
        ({
            let all = long_at(24, b, module);
            let left = long_at(28, b, module);
            &&& -100_000_000 <= left * 100_000_000 - all * b.soc_percent@ <= 100_000_000
            &&& b.soc_percent@ == 0 ==> left == 0
            &&& b.soc_percent@ == 100_000_000 ==> left == all
            &&& b.soc_percent@ <= 99_000_000 && b.capacity_kwh@ >= 1_000_000 ==> left < all
        }),
{
    law_module_long_words(b, module);
    let c = b.capacity_kwh@;
    let p = b.soc_percent@;
    let all = long_at(24, b, module);
    let left = long_at(28, b, module);
    assert(0 <= c * p <= 2_000_000_000_000 * 100_000_000) by (nonlinear_arith)
        requires
            0 <= c <= 2_000_000_000_000,
            0 <= p <= 100_000_000,
    ;
    assert(all == (2 * c + 512) / 1024);
    assert(left == (2 * (c * p) + 51_200_000_000) / 102_400_000_000);
    assert(1024 * all <= 2 * c + 512 < 1024 * all + 1024);
    assert(102_400_000_000 * left <= 2 * (c * p) + 51_200_000_000 < 102_400_000_000 * left
        + 102_400_000_000);
    assert(1024 * (all * p) <= 2 * (c * p) + 512 * p && 2 * (c * p) + 512 * p <= 1024 * (all * p)
        + 1024 * p) by (nonlinear_arith)
        requires
            1024 * all <= 2 * c + 512 < 1024 * all + 1024,
            0 <= p,
    ;
    if p == 0 {
        assert(c * p == 0) by (nonlinear_arith)
            requires
                p == 0,
        ;
    }
    if p == 100_000_000 {
        assert(2 * (c * p) + 51_200_000_000 == 100_000_000 * (2 * c + 512)) by (nonlinear_arith)
            requires
                p == 100_000_000,
        ;
        assert(all * 102_400_000_000 <= 100_000_000 * (2 * c + 512));
        assert(100_000_000 * (2 * c + 512) < all * 102_400_000_000 + 102_400_000_000);
    }
    if p <= 99_000_000 && c >= 1_000_000 {
        assert(all * p <= all * 99_000_000) by (nonlinear_arith)
            requires
                p <= 99_000_000,
                0 <= all,
        ;
        assert(all > 1_000);
    }
}

/// Law: the words of a module's bank that stand alone.
pub proof fn law_module_single_words(b: BatteryState, module: usize, i: int)
    ensures
        i == 16 || i == 17 || i == 18 || i == 19 || i == 21 || i == 43 ==> battery_banks::module_word(
            i,
            b,
            module,
        ) == plain::word(b.temperature_celsius@, 100_000),
        battery_banks::module_word(20, b, module) == plain::word(b.voltage_v@, 1_000),
        battery_banks::module_word(30, b, module) == (if b.power_kw@ > 10_000 {
            0x100int
        } else if b.power_kw@ < -10_000 {
            0x200
        } else {
            0
        }),
        battery_banks::module_word(31, b, module) == 0x0E10,
        battery_banks::module_word(36, b, module) == plain::word(b.cycle_count@, 1_000_000),
        battery_banks::module_word(37, b, module) == 16,
        battery_banks::module_word(38, b, module) == 100,
        battery_banks::module_word(40, b, module) == plain::word(b.soc_percent@, 1_000_000),
        battery_banks::module_word(44, b, module) == plain::word(
            plain::word(b.temperature_celsius@, 100_000) * 98,
            100,
        ),
        i == 45 || i == 46 ==> battery_banks::module_word(i, b, module) == plain::word(
            b.throughput_kwh@,
            100_000,
        ),
        battery_banks::module_word(55, b, module) == 1,
        i == 32 || i == 33 || i == 34 || i == 35 || i == 39 || i == 47 || i == 48 || i == 49 || (56
            <= i <= 59) ==> battery_banks::module_word(i, b, module) == 0,
{
}

/// A quotient between two others.
proof fn lemma_between(n: int, lo: int, hi: int, d: int)
    requires
        lo <= n <= hi,
        0 <= lo,
        d > 0,
    ensures
        plain::closest(lo, d) <= plain::closest(n, d) <= plain::closest(hi, d),
{
    vstd::arithmetic::div_mod::lemma_div_is_ordered(2 * lo + d, 2 * n + d, 2 * d);
    vstd::arithmetic::div_mod::lemma_div_is_ordered(2 * n + d, 2 * hi + d, 2 * d);
}

/// Law: the sixteen cell voltages of a module, in millivolts, lie within one percent
/// of a sixteenth of its voltage.
pub proof fn law_module_cells(b: BatteryState, module: usize, i: int)
    requires
        0 <= i < 16,
        0 <= b.voltage_v@ <= 1_000_000_000,
    ensures
        plain::word(b.voltage_v@ * 99, 1_600_000) <= battery_banks::module_word(i, b, module)
            <= plain::word(b.voltage_v@ * 101, 1_600_000),
{
    let f = battery_banks::cell_factor(module as u64, i as u64);
    battery_banks::law_cell_factor_within_one_percent(module as u64, i as u64);
    lemma_cell(b.voltage_v@, f, 16_000);
}

/// A cell voltage with a factor close to one.
proof fn lemma_cell(v: int, f: int, d: int)
    requires
        0 <= v,
        d > 0,
        99 * FACTOR_ONE <= 100 * f < 101 * FACTOR_ONE,
    ensures
        plain::word(v * 99, 100 * d) <= plain::word(v * f, d * FACTOR_ONE) <= plain::word(
            v * 101,
            100 * d,
        ),
{
    let one: int = FACTOR_ONE as int;
    assert(v * 99 * one <= v * f * 100 <= v * 101 * one) by (nonlinear_arith)
        requires
            0 <= v,
            99 * one <= 100 * f < 101 * one,
    ;
    let n = v * f * 100;
    let e = 100 * d * one;
    assert(e > 0) by (nonlinear_arith)
        requires
            d > 0,
            one > 0,
            e == 100 * d * one,
    ;
    assert(0 <= v * 99 * one) by (nonlinear_arith)
        requires
            0 <= v,
            one > 0,
    ;
    lemma_between(n, v * 99 * one, v * 101 * one, e);
    lemma_scaled(v * 99, 100 * d, one);
    lemma_scaled(v * 101, 100 * d, one);
    assert(0 <= v * f) by (nonlinear_arith)
        requires
            0 <= v,
            99 * one <= 100 * f,
            one > 0,
    ;
    assert(d * one > 0) by (nonlinear_arith)
        requires
            d > 0,
            one > 0,
    ;
    lemma_scaled(v * f, d * one, 100);
    assert(d * one * 100 == e) by (nonlinear_arith)
        requires
            e == 100 * d * one,
    ;
}

/// A quotient does not change when both sides grow alike.
proof fn lemma_scaled(n: int, d: int, k: int)
    requires
        0 <= n,
        d > 0,
        k > 0,
    ensures
        plain::closest(n * k, d * k) == plain::closest(n, d),
{
    assert(0 <= n * k) by (nonlinear_arith)
        requires
            0 <= n,
            k > 0,
    ;
    vstd::arithmetic::div_mod::lemma_div_multiples_vanish_quotient(k, 2 * n + d, 2 * d);
    assert(k * (2 * n + d) == 2 * (n * k) + d * k) by (nonlinear_arith);
    assert(k * (2 * d) == 2 * (d * k)) by (nonlinear_arith);
    assert(k * (2 * d) > 0) by (nonlinear_arith)
        requires
            k > 0,
            d > 0,
    ;
}

/// Law: the factor of a cell is its place in a hash of module and cell, spread evenly
/// over two percent. The hash multiplies, folds the upper bits in, and does so again.
pub proof fn law_cell_hash(module: u64, cell: u64)
    ensures
        ({
            let range: int = 0x1_0000_0000_0000_0000;
            let a = ((module * 0x9E37_79B9_7F4A_7C15) % range) as u64 ^ ((cell
                * 0x517C_C1B7_2722_0A95) % range) as u64;
            let b = (((a ^ (a / 0x2_0000_0000)) * 0xFF51_AFD7_ED55_8CCD) % range) as u64;
            let c = b ^ (b / 0x2_0000_0000);
            100 * battery_banks::cell_factor(module, cell) == 99 * FACTOR_ONE + 200 * (c / 2048)
        }),
{
    let range: int = 0x1_0000_0000_0000_0000;
    let a = ((module * 0x9E37_79B9_7F4A_7C15) % range) as u64 ^ ((cell * 0x517C_C1B7_2722_0A95)
        % range) as u64;
    assert(a >> 33 == a / 0x2_0000_0000) by (bit_vector);
    let b = (((a ^ (a / 0x2_0000_0000)) * 0xFF51_AFD7_ED55_8CCD) % range) as u64;
    assert(b >> 33 == b / 0x2_0000_0000) by (bit_vector);
    let c = b ^ (b / 0x2_0000_0000);
    assert(c >> 11 == c / 2048) by (bit_vector);
}

/// The code of a hexadecimal digit.
pub open spec fn hexadecimal(d: int) -> int {
    if d <= 9 {
        0x30 + d
    } else {
        0x41 + d - 10
    }
}

/// The five words of a serial: three letters, a number in four digits, a check value in
/// two, and a space.
pub open spec fn serial(a: int, b: int, c: int, n: int, check: int, place: int) -> int {
    if place == 0 {
        a * 256 + b
    } else if place == 1 {
        c * 256 + hexadecimal(n / 4096)
    } else if place == 2 {
        hexadecimal(n / 256 % 16) * 256 + hexadecimal(n / 16 % 16)
    } else if place == 3 {
        hexadecimal(n % 16) * 256 + hexadecimal(check / 16)
    } else {
        hexadecimal(check % 16) * 256 + 0x20
    }
}

/// The words of a serial.
proof fn lemma_serial(prefix: Seq<u8>, n: nat, check: nat, place: int)
    requires
        prefix.len() == 3,
        n <= 0xffff,
        check <= 0xff,
        0 <= place <= 4,
    ensures
        battery_banks::serial_word(battery_banks::serial_bytes(prefix, n, check), place) == serial(
            prefix[0] as int,
            prefix[1] as int,
            prefix[2] as int,
            n as int,
            check as int,
            place,
        ),
{
    reveal_with_fuel(text::hex, 5);
    let h = text::hex(n, 4);
    assert(h =~= seq![
        text::hex_digit((n / 4096) as int),
        text::hex_digit((n / 256 % 16) as int),
        text::hex_digit((n / 16 % 16) as int),
        text::hex_digit((n % 16) as int),
    ]) by {
        assert(n / 16 / 16 == n / 256);
        assert(n / 16 / 16 / 16 == n / 4096);
    }
    let g = text::hex(check, 2);
    assert(g =~= seq![
        text::hex_digit((check / 16) as int),
        text::hex_digit((check % 16) as int),
    ]);
    let all = battery_banks::serial_bytes(prefix, n, check);
    assert(all.len() == 11);
    assert(all[0] == prefix[0] && all[1] == prefix[1] && all[2] == prefix[2]);
    assert(all[3] == h[0] && all[4] == h[1] && all[5] == h[2] && all[6] == h[3]);
    assert(all[7] == g[0] && all[8] == g[1] && all[9] == 0x20);
}

/// Law: the serial of a module: "BAT", its number from one, and the lower bits of its
/// state of charge in whole percent.
pub proof fn law_module_serial(b: BatteryState, module: usize, place: int)
    requires
        module < 0xffff,
        0 <= place <= 4,
    ensures
        battery_banks::module_word(50 + place, b, module) == serial(
            0x42,
            0x41,
            0x54,
            module + 1,
            plain::cut_word(b.soc_percent@, 1_000_000) % 256,
            place,
        ),
{
    let prefix = seq![0x42u8, 0x41u8, 0x54u8];
    lemma_serial(
        prefix,
        (module + 1) as nat,
        (plain::cut_word(b.soc_percent@, 1_000_000) % 256) as nat,
        place,
    );
}

/// Law: the bank of a module in a stack: 24 cells that follow the state of charge to
/// within one percent, 24 temperatures, and the serial "BMU" with its number.
pub proof fn law_stack_module_words(b: BatteryState, module: usize, i: int)
    requires
        module < 0xffff,
        0 <= b.soc_percent@ <= 1_000_000_000,
    ensures
        0 <= i <= 23 ==> plain::word((3_150_000_000 + 3 * b.soc_percent@) * 99, 100_000_000)
            <= battery_banks::stack_module_word(i, b, module) <= plain::word(
            (3_150_000_000 + 3 * b.soc_percent@) * 101,
            100_000_000,
        ),
        24 <= i <= 29 || i == 59 ==> battery_banks::stack_module_word(i, b, module) == 0,
        30 <= i <= 53 ==> battery_banks::stack_module_word(i, b, module) == plain::word(
            b.temperature_celsius@,
            100_000,
        ),
        54 <= i <= 58 ==> battery_banks::stack_module_word(i, b, module) == serial(
            0x42,
            0x4d,
            0x55,
            module + 1,
            24,
            i - 54,
        ),
{
    if 0 <= i <= 23 {
        battery_banks::law_cell_factor_within_one_percent(module as u64, i as u64);
        lemma_cell(
            3_150_000_000 + 3 * b.soc_percent@,
            battery_banks::cell_factor(module as u64, i as u64),
            1_000_000,
        );
    }
    if 54 <= i <= 58 {
        lemma_serial(seq![0x42u8, 0x4du8, 0x55u8], (module + 1) as nat, 24, i - 54);
    }
}

/// The sum of a quantity over all modules.
pub open spec fn total(b: Seq<BatteryState>, of: spec_fn(BatteryState) -> int) -> int
    decreases b.len(),
{
    if b.len() == 0 {
        0
    } else {
        of(b.last()) + total(b.drop_last(), of)
    }
}

/// Power of a module, in millionths of a kilowatt.
pub open spec fn power() -> spec_fn(BatteryState) -> int {
    |m: BatteryState| m.power_kw@
}

/// State of charge of a module, in millionths of a percent.
pub open spec fn charge() -> spec_fn(BatteryState) -> int {
    |m: BatteryState| m.soc_percent@
}

/// Temperature of a module, in millionths of a degree.
pub open spec fn temperature() -> spec_fn(BatteryState) -> int {
    |m: BatteryState| m.temperature_celsius@
}

/// State of health of a module, in millionths.
pub open spec fn health() -> spec_fn(BatteryState) -> int {
    |m: BatteryState| m.soh@
}

/// Charge cycles of a module, in millionths.
pub open spec fn cycles() -> spec_fn(BatteryState) -> int {
    |m: BatteryState| m.cycle_count@
}

/// The sums over all modules.
proof fn lemma_totals(b: Seq<BatteryState>)
    ensures
        state::module_total(b, ModuleQuantity::Power) == total(b, power()),
        state::module_total(b, ModuleQuantity::Soc) == total(b, charge()),
        state::module_total(b, ModuleQuantity::Temperature) == total(b, temperature()),
        state::module_total(b, ModuleQuantity::Soh) == total(b, health()),
        state::module_total(b, ModuleQuantity::Cycles) == total(b, cycles()),
    decreases b.len(),
{
    if b.len() > 0 {
        lemma_totals(b.drop_last());
    }
}

/// Law: the words of the cluster bank. Voltages and powers of the modules add up, the
/// rest averages, and the current is that of the first module.
pub proof fn law_cluster_words(b: Seq<BatteryState>, i: int)
    ensures
        battery_banks::cluster_word(0, b) == 0x4856,
        battery_banks::cluster_word(1, b) == 0x3030,
        battery_banks::cluster_word(2, b) == 0x3030,
        battery_banks::cluster_word(3, b) == 0x3031,
        battery_banks::cluster_word(4, b) == b.len() % 65536,
        battery_banks::cluster_word(5, b) == 24,
        b.len() > 0 ==> battery_banks::cluster_word(7, b) == plain::word(
            plain::voltage(b),
            b.len() as int * 24_000,
        ),
        b.len() > 0 ==> battery_banks::cluster_word(8, b) == plain::word(
            total(b, temperature()),
            b.len() as int * 100_000,
        ),
        battery_banks::cluster_word(10, b) == 1,
        battery_banks::cluster_word(13, b) == plain::word(plain::voltage(b), 100_000),
        battery_banks::cluster_word(14, b) == plain::word(plain::voltage(b), 100_000),
        b.len() > 0 ==> battery_banks::cluster_word(16, b) == plain::bits(
            plain::within(plain::closest(b[0].current_a@, 100_000), -32768, 32767),
            65536,
        ),
        battery_banks::cluster_word(19, b) == plain::bits(
            plain::within(plain::closest(total(b, power()), 1_000), -32768, 32767),
            65536,
        ),
        b.len() > 0 ==> battery_banks::cluster_word(21, b) == plain::within(
            plain::closest(total(b, health()), b.len() as int * 10_000),
            0,
            100,
        ),
        i == 22 || i == 24 ==> battery_banks::cluster_word(i, b) == plain::upper(
            plain::long(plain::throughput(b), 100_000),
        ),
        i == 23 || i == 25 ==> battery_banks::cluster_word(i, b) == plain::lower(
            plain::long(plain::throughput(b), 100_000),
        ),
        b.len() > 0 ==> battery_banks::cluster_word(38, b) == plain::word(
            b[0].nominal_capacity_kwh@,
            7_680,
        ),
        b.len() > 0 ==> battery_banks::cluster_word(39, b) == plain::word(
            battery_banks::cluster_word(38, b) * total(b, charge()),
            b.len() as int * 100_000_000,
        ),
        b.len() > 0 ==> battery_banks::cluster_word(40, b) == plain::word(
            total(b, cycles()),
            b.len() as int * 100_000,
        ),
        i == 6 || i == 9 || i == 11 || i == 12 || i == 15 || i == 17 || i == 18 || (26 <= i <= 37)
            || (41 <= i <= 59) ==> battery_banks::cluster_word(i, b) == 0,
{
    words::lemma_sums(b);
    lemma_totals(b);
}

/// Nothing rounds to nothing.
proof fn lemma_zero(d: int)
    requires
        d > 0,
    ensures
        fixed::nearest(0, d) == 0,
{
    vstd::arithmetic::div_mod::lemma_basic_div(d, 2 * d);
}

/// Law: a stack without modules shows no flow, no energy and a standard capacity.
pub proof fn law_empty_cluster(none: Seq<BatteryState>)
    requires
        none.len() == 0,
    ensures
        battery_banks::cluster_word(4, none) == 0,
        battery_banks::cluster_word(7, none) == 0,
        battery_banks::cluster_word(8, none) == 0,
        battery_banks::cluster_word(16, none) == 0,
        battery_banks::cluster_word(19, none) == 0,
        battery_banks::cluster_word(20, none) == 100,
        battery_banks::cluster_word(21, none) == 0,
        battery_banks::cluster_word(38, none) == 443,
        battery_banks::cluster_word(39, none) == 0,
        battery_banks::cluster_word(40, none) == 0,
{
    let n = battery_banks::share_count(none);
    assert(n == 1);
    assert(n * 24_000 == 24_000 && n * 100_000 == 100_000 && n * 100_000_000 == 100_000_000);
    assert(n * 10_000 == 10_000);
    assert(battery_banks::highest_soc(none) == 0 && battery_banks::lowest_soc(none) == 300_000_000);
    assert(state::module_total(none, ModuleQuantity::Power) == 0);
    assert(state::module_total(none, ModuleQuantity::Soh) == 0);
    assert(state::module_total(none, ModuleQuantity::Cycles) == 0);
    assert(state::module_total(none, ModuleQuantity::Voltage) == 0);
    assert(state::module_total(none, ModuleQuantity::Temperature) == 0);
    let held = state::module_total(none, ModuleQuantity::Soc);
    lemma_zero(24_000);
    lemma_zero(100_000);
    lemma_zero(100_000_000);
    lemma_zero(1_000);
    lemma_zero(10_000);
    lemma_zero(1_000_000);
    assert((2 * 300_000_000int + 1_000_000) / 2_000_000 == 300);
    assert((2 * 3_400_000int + 7_680) / 15_360 == 443);
    assert(fixed::nearest(300_000_000, 1_000_000) == 300);
    assert(fixed::nearest(3_400_000, 7_680) == 443);
    assert(battery_banks::stack_capacity(none) * held == 0) by (nonlinear_arith)
        requires
            held == 0,
    ;
}

/// The highest and lowest state of charge of all modules.
proof fn lemma_extremes(b: Seq<BatteryState>, j: int)
    requires
        0 <= j < b.len(),
    ensures
        battery_banks::lowest_soc(b) <= b[j].soc_percent@ <= battery_banks::highest_soc(b),
    decreases b.len(),
{
    if j < b.len() - 1 {
        lemma_extremes(b.drop_last(), j);
        assert(b.drop_last()[j] == b[j]);
    }
}

/// The extremes are taken on by some module, where they are percentages.
proof fn lemma_extremes_taken(b: Seq<BatteryState>)
    ensures
        battery_banks::highest_soc(b) == 0 || exists|j: int|
            0 <= j < b.len() && (#[trigger] b[j]).soc_percent@ == battery_banks::highest_soc(b),
        battery_banks::lowest_soc(b) == 300_000_000 || exists|j: int|
            0 <= j < b.len() && (#[trigger] b[j]).soc_percent@ == battery_banks::lowest_soc(b),
        battery_banks::highest_soc(b) >= 0,
        battery_banks::lowest_soc(b) <= 300_000_000,
    decreases b.len(),
{
    if b.len() > 0 {
        let rest = b.drop_last();
        lemma_extremes_taken(rest);
        assert(b.last() == b[b.len() - 1]);
        if battery_banks::highest_soc(rest) != 0 {
            let j = choose|j: int|
                0 <= j < rest.len() && (#[trigger] rest[j]).soc_percent@
                    == battery_banks::highest_soc(rest);
            assert(b[j] == rest[j]);
        }
        if battery_banks::lowest_soc(rest) != 300_000_000 {
            let j = choose|j: int|
                0 <= j < rest.len() && (#[trigger] rest[j]).soc_percent@
                    == battery_banks::lowest_soc(rest);
            assert(b[j] == rest[j]);
        }
    }
}

/// Law: offset 20 of the cluster bank holds the highest state of charge of all modules
/// in its upper byte and the lowest one in its lower byte, rounded to whole percent.
pub proof fn law_cluster_extremes(b: Seq<BatteryState>, high: int, low: int)
    requires
        0 <= high < b.len(),
        0 <= low < b.len(),
        forall|j: int|
            0 <= j < b.len() ==> b[low].soc_percent@ <= (#[trigger] b[j]).soc_percent@
                <= b[high].soc_percent@,
        0 <= b[low].soc_percent@,
        b[high].soc_percent@ <= 100_000_000,
    ensures
        battery_banks::cluster_word(20, b) == 256 * plain::word(b[high].soc_percent@, 1_000_000)
            + plain::word(b[low].soc_percent@, 1_000_000),
{
    lemma_extremes(b, high);
    lemma_extremes(b, low);
    lemma_extremes_taken(b);
    assert(battery_banks::highest_soc(b) == b[high].soc_percent@);
    assert(battery_banks::lowest_soc(b) == b[low].soc_percent@);
    let x = b[high].soc_percent@;
    let y = b[low].soc_percent@;
    assert(0 <= (2 * x + 1_000_000) / 2_000_000 <= 100);
    assert(0 <= (2 * y + 1_000_000) / 2_000_000 <= 100);
    assert(battery_banks::percent(x, 1_000_000) == plain::word(x, 1_000_000));
    assert(battery_banks::percent(y, 1_000_000) == plain::word(y, 1_000_000));
}

/// Law: the discovery bank holds a version and the number of clusters.
pub proof fn law_discovery_words(i: int, clusters: int)
    requires
        0 <= clusters,
    ensures
        battery_banks::discovery_word(0, clusters) == 1,
        clusters <= 65535 ==> battery_banks::discovery_word(1, clusters) == clusters,
        battery_banks::discovery_word(1, clusters + 65536) == battery_banks::discovery_word(
            1,
            clusters,
        ),
        2 <= i <= 4 ==> battery_banks::discovery_word(i, clusters) == 0,
{
}

} // verus!
