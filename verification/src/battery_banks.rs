//! Battery register banks: one module, a high-voltage stack, its modules.
//!
//! Each bank is sixty words, IR 60-119. A specification function gives the word
//! at each offset.
use crate::fixed;
use crate::fixed::{
    high_half_of, low_half_of, nearest_of, rounded_word_of, saturate_to, signed_rounded_word_of,
    wide_of, MAX_MICROS,
};
use crate::projection::gateway;
use crate::projection::gateway::flow_state_of;
use crate::state;
use crate::state::{module_total_of, BatteryState, ModuleQuantity};
use crate::text;
use crate::text::push_hex;
use vstd::prelude::*;

verus! {

/// The low 64 bits of a product.
pub open spec fn low_product(a: u64, b: u64) -> u64 {
    ((a * b) % 0x1_0000_0000_0000_0000) as u64
}

/// Mixes a module number and a cell number into 64 well-spread bits.
pub open spec fn cell_hash(module: u64, cell: u64) -> u64 {
    let h = low_product(module, 0x9E3779B97F4A7C15) ^ low_product(cell, 0x517CC1B727220A95);
    let h = low_product(h ^ (h >> 33), 0xFF51AFD7ED558CCD);
    h ^ (h >> 33)
}

/// Parts of the denominator of a cell's voltage factor.
pub const FACTOR_ONE: i128 = 900_719_925_474_099_200;

/// The voltage factor of a cell over [`FACTOR_ONE`]: between 0.99 and 1.01, fixed
/// for each cell of each module, so that readings do not jitter between polls.
pub open spec fn cell_factor(module: u64, cell: u64) -> int {
    891_712_726_219_358_208 + 2 * (cell_hash(module, cell) >> 11)
}

/// The low 64 bits of a product.
fn low_product_of(a: u64, b: u64) -> (r: u64)
    ensures
        r == low_product(a, b),
{
    proof {
        assert(0 <= a * b <= 0xffff_ffff_ffff_ffff * 0xffff_ffff_ffff_ffff) by (nonlinear_arith)
            requires
                0 <= a <= 0xffff_ffff_ffff_ffff,
                0 <= b <= 0xffff_ffff_ffff_ffff,
        ;
    }
    let p: u128 = a as u128 * b as u128;
    (p % 0x1_0000_0000_0000_0000) as u64
}

/// The voltage factor of a cell over [`FACTOR_ONE`].
pub fn cell_voltage_factor(module_index: usize, cell_index: usize) -> (r: i128)
    ensures
        r == cell_factor(module_index as u64, cell_index as u64),
        99 * FACTOR_ONE <= 100 * r < 101 * FACTOR_ONE,
{
    let h: u64 = low_product_of(module_index as u64, 0x9E3779B97F4A7C15) ^ low_product_of(
        cell_index as u64,
        0x517CC1B727220A95,
    );
    let h: u64 = low_product_of(h ^ (h >> 33), 0xFF51AFD7ED558CCD);
    let h: u64 = h ^ (h >> 33);
    let part: u64 = h >> 11;
    proof {
        assert(h >> 11 <= 0x1f_ffff_ffff_ffff) by (bit_vector);
    }
    891_712_726_219_358_208 + 2 * part as i128
}

/// The bytes of a serial: a prefix, the module's number and a check value.
pub open spec fn serial_bytes(prefix: Seq<u8>, number: nat, check: nat) -> Seq<u8> {
    prefix + text::hex(number, 4) + text::hex(check, 2) + seq![0x20u8, 0x20u8]
}

/// Two bytes of a serial as a word.
pub open spec fn serial_word(bytes: Seq<u8>, place: int) -> int {
    bytes[2 * place] * 256 + bytes[2 * place + 1]
}

/// Temperature in tenths of a degree.
pub open spec fn temperature_word(b: BatteryState) -> int {
    fixed::rounded_word(b.temperature_celsius@, 100_000)
}

/// The half of a long word that stands at `place`: the upper half first.
pub open spec fn half(raw: int, place: int) -> int {
    if place == 0 {
        fixed::high_half(raw)
    } else {
        fixed::low_half(raw)
    }
}

/// The word at offset `i` of a module's bank.
pub open spec fn module_word(i: int, b: BatteryState, module: usize) -> int {
    if 0 <= i <= 15 {
        fixed::rounded_word(
            b.voltage_v@ * cell_factor(module as u64, i as u64),
            16_000 * FACTOR_ONE,
        )
    } else if 16 <= i <= 19 || i == 21 || i == 43 {
        temperature_word(b)
    } else if i == 20 {
        fixed::rounded_word(b.voltage_v@, 1_000)
    } else if 22 <= i <= 23 {
        half(fixed::wide(b.voltage_v@, 1_000), i - 22)
    } else if 24 <= i <= 25 {
        half(fixed::wide(b.capacity_kwh@, 512), i - 24)
    } else if 26 <= i <= 27 {
        half(fixed::wide(b.nominal_capacity_kwh@, 512), i - 26)
    } else if 28 <= i <= 29 {
        half(fixed::wide(b.capacity_kwh@ * b.soc_percent@, 51_200_000_000), i - 28)
    } else if i == 30 {
        gateway::flow_state(b.power_kw@) * 256
    } else if i == 31 {
        0x0E10
    } else if i == 36 {
        fixed::rounded_word(b.cycle_count@, 1_000_000)
    } else if i == 37 {
        16
    } else if i == 38 {
        100
    } else if i == 40 {
        fixed::rounded_word(b.soc_percent@, 1_000_000)
    } else if 41 <= i <= 42 {
        half(fixed::wide(b.nominal_capacity_kwh@, 512), i - 41)
    } else if i == 44 {
        fixed::rounded_word(temperature_word(b) * 98, 100)
    } else if 45 <= i <= 46 {
        fixed::rounded_word(b.throughput_kwh@, 100_000)
    } else if 50 <= i <= 54 {
        serial_word(
            serial_bytes(
                seq![0x42u8, 0x41u8, 0x54u8],
                (module + 1) as nat,
                (fixed::cut_word(b.soc_percent@, 1_000_000) % 256) as nat,
            ),
            i - 50,
        )
    } else if i == 55 {
        1
    } else {
        0
    }
}

/// The word at offset `i` of the bank of a module in a high-voltage stack. Cell
/// voltage follows the state of charge: 3.3 V at half, 3 mV a percent.
pub open spec fn stack_module_word(i: int, b: BatteryState, module: usize) -> int {
    if 0 <= i <= 23 {
        fixed::rounded_word(
            (3_150_000_000 + 3 * b.soc_percent@) * cell_factor(module as u64, i as u64),
            1_000_000 * FACTOR_ONE,
        )
    } else if 30 <= i <= 53 {
        temperature_word(b)
    } else if 54 <= i <= 58 {
        serial_word(
            serial_bytes(seq![0x42u8, 0x4du8, 0x55u8], (module + 1) as nat, 24),
            i - 54,
        )
    } else {
        0
    }
}

/// The number of modules that averages divide by: at least one.
pub open spec fn share_count(b: Seq<BatteryState>) -> int {
    if b.len() == 0 {
        1
    } else {
        b.len() as int
    }
}

/// The largest state of charge, at least zero.
pub open spec fn highest_soc(b: Seq<BatteryState>) -> int
    decreases b.len(),
{
    if b.len() == 0 {
        0
    } else if b.last().soc_percent@ > highest_soc(b.drop_last()) {
        b.last().soc_percent@
    } else {
        highest_soc(b.drop_last())
    }
}

/// The smallest state of charge, at most 300 percent.
pub open spec fn lowest_soc(b: Seq<BatteryState>) -> int
    decreases b.len(),
{
    if b.len() == 0 {
        300_000_000
    } else if b.last().soc_percent@ < lowest_soc(b.drop_last()) {
        b.last().soc_percent@
    } else {
        lowest_soc(b.drop_last())
    }
}

/// A rounded percentage.
pub open spec fn percent(n: int, d: int) -> int {
    fixed::saturate(fixed::nearest(n, d), 0, 100)
}

/// Nominal capacity of a module of the stack, in tenths of an ampere-hour.
pub open spec fn stack_capacity(b: Seq<BatteryState>) -> int {
    fixed::rounded_word(
        if b.len() == 0 {
            3_400_000
        } else {
            b[0].nominal_capacity_kwh@
        },
        7_680,
    )
}

/// The word at offset `i` of the cluster bank of a high-voltage stack. The modules
/// are in series: voltages and powers sum, the current is shared, the states of
/// charge and health average.
pub open spec fn cluster_word(i: int, b: Seq<BatteryState>) -> int {
    let n = share_count(b);
    let voltage = state::module_total(b, ModuleQuantity::Voltage);
    if i == 0 {
        0x4856
    } else if i == 1 || i == 2 {
        0x3030
    } else if i == 3 {
        0x3031
    } else if i == 4 {
        b.len() as int % 65536
    } else if i == 5 {
        24
    } else if i == 7 {
        fixed::rounded_word(voltage, n * 24_000)
    } else if i == 8 {
        fixed::rounded_word(state::module_total(b, ModuleQuantity::Temperature), n * 100_000)
    } else if i == 10 {
        1
    } else if i == 13 || i == 14 {
        fixed::rounded_word(voltage, 100_000)
    } else if i == 16 {
        fixed::signed_rounded_word(
            if b.len() == 0 {
                0
            } else {
                b[0].current_a@
            },
            100_000,
        )
    } else if i == 19 {
        fixed::signed_rounded_word(state::module_total(b, ModuleQuantity::Power), 1_000)
    } else if i == 20 {
        percent(highest_soc(b), 1_000_000) * 256 + percent(lowest_soc(b), 1_000_000)
    } else if i == 21 {
        percent(state::module_total(b, ModuleQuantity::Soh), n * 10_000)
    } else if i == 22 || i == 24 {
        fixed::high_half(fixed::wide(state::module_total(b, ModuleQuantity::Throughput), 100_000))
    } else if i == 23 || i == 25 {
        fixed::low_half(fixed::wide(state::module_total(b, ModuleQuantity::Throughput), 100_000))
    } else if i == 38 {
        stack_capacity(b)
    } else if i == 39 {
        fixed::rounded_word(
            stack_capacity(b) * state::module_total(b, ModuleQuantity::Soc),
            n * 100_000_000,
        )
    } else if i == 40 {
        fixed::rounded_word(state::module_total(b, ModuleQuantity::Cycles), n * 100_000)
    } else {
        0
    }
}

/// The serial of a module: `prefix`, its number, a check value.
fn serial_bytes_of(prefix: [u8; 3], number: u64, check: u64) -> (r: Vec<u8>)
    ensures
        r@ == serial_bytes(prefix@, number as nat, check as nat),
        r@.len() >= 11,
{
    let mut v: Vec<u8> = Vec::new();
    v.push(prefix[0]);
    v.push(prefix[1]);
    v.push(prefix[2]);
    assert(v@ =~= prefix@);
    push_hex(&mut v, number, 4);
    push_hex(&mut v, check, 2);
    let ghost before = v@;
    v.push(0x20);
    v.push(0x20);
    proof {
        text::lemma_hex_len(number as nat, 4);
        text::lemma_hex_len(check as nat, 2);
        assert(v@ =~= before + seq![0x20u8, 0x20u8]);
    }
    v
}

/// Two bytes of a serial as a word.
fn serial_word_of(bytes: &Vec<u8>, place: usize) -> (r: u16)
    requires
        place < 5,
        bytes@.len() >= 11,
    ensures
        r == serial_word(bytes@, place as int),
{
    bytes[2 * place] as u16 * 256 + bytes[2 * place + 1] as u16
}

/// The half of a long word that stands at `place`.
fn half_of(raw: u32, place: usize) -> (r: u16)
    ensures
        r == half(raw as int, place as int),
{
    if place == 0 {
        high_half_of(raw)
    } else {
        low_half_of(raw)
    }
}

/// A cell voltage: `n` times the factor of the cell, over `d` units.
fn cell_word_of(n: i128, d: i128, module: usize, cell: usize) -> (r: u16)
    requires
        -4 * MAX_MICROS <= n <= 4 * MAX_MICROS,
        0 < d <= 1_000_000,
    ensures
        r == fixed::rounded_word(n * cell_factor(module as u64, cell as u64), d * FACTOR_ONE),
{
    let f: i128 = cell_voltage_factor(module, cell);
    proof {
        assert(-4 * MAX_MICROS * 1_000_000_000_000_000_000 <= n * f <= 4 * MAX_MICROS
            * 1_000_000_000_000_000_000) by (nonlinear_arith)
            requires
                -4 * MAX_MICROS <= n <= 4 * MAX_MICROS,
                0 <= f <= 1_000_000_000_000_000_000,
        ;
    }
    rounded_word_of(n * f, d * FACTOR_ONE)
}

/// A rounded percentage.
fn percent_of(n: i128, d: i128) -> (r: u16)
    requires
        -state::MAX_TOTAL <= n <= state::MAX_TOTAL,
        0 < d <= state::MAX_TOTAL,
    ensures
        r == percent(n as int, d as int),
        r <= 100,
{
    saturate_to(nearest_of(n, d), 0, 100) as u16
}

/// The word at offset `i` of a module's bank.
fn module_word_of(i: usize, b: &BatteryState, module: usize, serial: &Vec<u8>) -> (r: u16)
    requires
        module < usize::MAX,
        serial@ == serial_bytes(
            seq![0x42u8, 0x41u8, 0x54u8],
            (module + 1) as nat,
            (fixed::cut_word(b.soc_percent@, 1_000_000) % 256) as nat,
        ),
        serial@.len() >= 11,
    ensures
        r == module_word(i as int, *b, module),
{
    if i <= 15 {
        cell_word_of(b.voltage_v.exact(), 16_000, module, i)
    } else if i <= 19 || i == 21 || i == 43 {
        rounded_word_of(b.temperature_celsius.exact(), 100_000)
    } else if i == 20 {
        rounded_word_of(b.voltage_v.exact(), 1_000)
    } else if 22 <= i && i <= 23 {
        half_of(wide_of(b.voltage_v.exact(), 1_000), i - 22)
    } else if 24 <= i && i <= 25 {
        half_of(wide_of(b.capacity_kwh.exact(), 512), i - 24)
    } else if 26 <= i && i <= 27 {
        half_of(wide_of(b.nominal_capacity_kwh.exact(), 512), i - 26)
    } else if 28 <= i && i <= 29 {
        let kwh: i128 = b.capacity_kwh.exact();
        let soc: i128 = b.soc_percent.exact();
        proof {
            fixed::lemma_product_bound(kwh as int, soc as int);
        }
        half_of(wide_of(kwh * soc, 51_200_000_000), i - 28)
    } else if i == 30 {
        flow_state_of(b.power_kw.micros()) * 256
    } else if i == 31 {
        0x0E10
    } else if i == 36 {
        rounded_word_of(b.cycle_count.exact(), 1_000_000)
    } else if i == 37 {
        16
    } else if i == 38 {
        100
    } else if i == 40 {
        rounded_word_of(b.soc_percent.exact(), 1_000_000)
    } else if 41 <= i && i <= 42 {
        half_of(wide_of(b.nominal_capacity_kwh.exact(), 512), i - 41)
    } else if i == 44 {
        let t: u16 = rounded_word_of(b.temperature_celsius.exact(), 100_000);
        rounded_word_of(t as i128 * 98, 100)
    } else if 45 <= i && i <= 46 {
        rounded_word_of(b.throughput_kwh.exact(), 100_000)
    } else if 50 <= i && i <= 54 {
        serial_word_of(serial, i - 50)
    } else if i == 55 {
        1
    } else {
        0
    }
}

/// The bank of one battery module.
pub fn module_bank(b: &BatteryState, module_index: usize) -> (r: [u16; 60])
    requires
        module_index < usize::MAX,
    ensures
        forall|i: int| 0 <= i < 60 ==> #[trigger] r@[i] == module_word(i, *b, module_index),
{
    let check: u16 = fixed::cut_word_of(b.soc_percent.exact(), 1_000_000) % 256;
    let serial = serial_bytes_of([0x42, 0x41, 0x54], module_index as u64 + 1, check as u64);
    assert([0x42u8, 0x41u8, 0x54u8]@ =~= seq![0x42u8, 0x41u8, 0x54u8]);
    let mut regs: [u16; 60] = [0;60];
    let mut i: usize = 0;
    while i < 60
        invariant
            i <= 60,
            module_index < usize::MAX,
            serial@ == serial_bytes(
                seq![0x42u8, 0x41u8, 0x54u8],
                (module_index + 1) as nat,
                (fixed::cut_word(b.soc_percent@, 1_000_000) % 256) as nat,
            ),
            serial@.len() >= 11,
            forall|j: int| 0 <= j < i ==> #[trigger] regs@[j] == module_word(j, *b, module_index),
        decreases 60 - i,
    {
        let w: u16 = module_word_of(i, b, module_index, &serial);
        regs[i] = w;
        i += 1;
    }
    regs
}

/// The bank of one module of a high-voltage stack.
pub fn stack_module_bank(b: &BatteryState, module_index: usize) -> (r: [u16; 60])
    requires
        module_index < usize::MAX,
    ensures
        forall|i: int| 0 <= i < 60 ==> #[trigger] r@[i] == stack_module_word(i, *b, module_index),
{
    let serial = serial_bytes_of([0x42, 0x4d, 0x55], module_index as u64 + 1, 24);
    assert([0x42u8, 0x4du8, 0x55u8]@ =~= seq![0x42u8, 0x4du8, 0x55u8]);
    let mut regs: [u16; 60] = [0;60];
    let mut i: usize = 0;
    while i < 60
        invariant
            i <= 60,
            module_index < usize::MAX,
            serial@ == serial_bytes(
                seq![0x42u8, 0x4du8, 0x55u8],
                (module_index + 1) as nat,
                24,
            ),
            serial@.len() >= 11,
            forall|j: int|
                0 <= j < i ==> #[trigger] regs@[j] == stack_module_word(j, *b, module_index),
        decreases 60 - i,
    {
        let w: u16 = if i <= 23 {
            cell_word_of(3_150_000_000 + 3 * b.soc_percent.exact(), 1_000_000, module_index, i)
        } else if 30 <= i && i <= 53 {
            rounded_word_of(b.temperature_celsius.exact(), 100_000)
        } else if 54 <= i && i <= 58 {
            serial_word_of(&serial, i - 54)
        } else {
            0
        };
        regs[i] = w;
        i += 1;
    }
    regs
}

/// The word at offset `i` of the discovery bank: a version, then the number of
/// clusters.
pub open spec fn discovery_word(i: int, clusters: int) -> int {
    if i == 0 {
        1
    } else if i == 1 {
        clusters % 65536
    } else {
        0
    }
}

/// The discovery bank of the high-voltage battery management.
pub fn discovery_bank(num_bcus: usize) -> (r: [u16; 5])
    ensures
        forall|i: int| 0 <= i < 5 ==> #[trigger] r@[i] == discovery_word(i, num_bcus as int),
{
    [1, (num_bcus % 65536) as u16, 0, 0, 0]
}

/// The largest and the smallest state of charge.
fn soc_range_of(b: &[BatteryState]) -> (r: (i64, i64))
    ensures
        r.0 == highest_soc(b@),
        r.1 == lowest_soc(b@),
        0 <= r.0 <= MAX_MICROS,
        -MAX_MICROS <= r.1 <= 300_000_000,
{
    let mut hi: i64 = 0;
    let mut lo: i64 = 300_000_000;
    let mut i: usize = 0;
    while i < b.len()
        invariant
            i <= b.len(),
            hi == highest_soc(b@.take(i as int)),
            lo == lowest_soc(b@.take(i as int)),
            0 <= hi <= MAX_MICROS,
            -MAX_MICROS <= lo <= 300_000_000,
        decreases b.len() - i,
    {
        assert(b@.take(i + 1).drop_last() =~= b@.take(i as int));
        let soc: i64 = b[i].soc_percent.micros();
        if soc > hi {
            hi = soc;
        }
        if soc < lo {
            lo = soc;
        }
        i += 1;
    }
    assert(b@.take(i as int) =~= b@);
    (hi, lo)
}

/// A quotient does not change when both sides grow by the same factor and the
/// dividend by less than that factor more.
proof fn lemma_common_factor(n: int, x: int, t: int, y: int)
    requires
        n > 0,
        y > 0,
        x >= 0,
        0 <= t < n,
    ensures
        (n * x + t) / (n * y) == x / y,
{
    vstd::arithmetic::mul::lemma_mul_is_commutative(n, x);
    vstd::arithmetic::div_mod::lemma_fundamental_div_mod_converse(n * x + t, n, x, t);
    assert(n * x + t >= 0) by (nonlinear_arith)
        requires
            n > 0,
            x >= 0,
            t >= 0,
    ;
    vstd::arithmetic::div_mod::lemma_div_denominator(n * x + t, n, y);
}

/// The word for `share` hundredths of a percent-average: `share * total` over
/// `count * 100_000_000`, without forming the large product.
fn average_share_of(share: u16, total: i128, count: i128) -> (r: u16)
    requires
        -state::MAX_TOTAL <= total <= state::MAX_TOTAL,
        0 < count <= 0xffff_ffff_ffff_ffff,
        total <= count * MAX_MICROS,
    ensures
        r == fixed::rounded_word(share * total, count * 100_000_000),
{
    if total <= 0 {
        proof {
            assert(share * total <= 0) by (nonlinear_arith)
                requires
                    share >= 0,
                    total <= 0,
            ;
            let n = share * total;
            let d = count * 100_000_000;
            if n == 0 {
                assert(d / (2 * d) == 0) by (nonlinear_arith)
                    requires
                        d > 0,
                ;
            } else {
                vstd::arithmetic::div_mod::lemma_div_pos_is_pos(2 * (-n) + d, 2 * d);
            }
        }
        return 0;
    }
    let total_u: u128 = total as u128;
    let count_u: u128 = count as u128;
    let q: u128 = total_u / count_u;
    let rest: u128 = total_u % count_u;
    proof {
        vstd::arithmetic::div_mod::lemma_fundamental_div_mod(total as int, count as int);
        assert(q <= MAX_MICROS) by (nonlinear_arith)
            requires
                total_u == count_u * q + rest,
                total_u <= count_u * MAX_MICROS,
                rest >= 0,
                count_u > 0,
        ;
        assert(2 * share * rest <= 2 * 65535 * 0xffff_ffff_ffff_ffff) by (nonlinear_arith)
            requires
                0 <= share <= 65535,
                0 <= rest <= 0xffff_ffff_ffff_ffff,
        ;
        assert(2 * share * q <= 2 * 65535 * MAX_MICROS) by (nonlinear_arith)
            requires
                0 <= share <= 65535,
                0 <= q <= MAX_MICROS,
        ;
    }
    let share_u: u128 = share as u128;
    let t: u128 = 2 * share_u * rest;
    let t1: u128 = t / count_u;
    let ghost t2 = t % count_u;
    proof {
        vstd::arithmetic::div_mod::lemma_fundamental_div_mod(t as int, count as int);
        assert(t1 <= t) by (nonlinear_arith)
            requires
                t1 == t / count_u,
                count_u > 0,
        ;
    }
    let x: u128 = 2 * share_u * q + t1 + 100_000_000;
    let y: u128 = x / 200_000_000;
    proof {
        assert(2 * (share * total) + count * 100_000_000 == count * x + t2) by (nonlinear_arith)
            requires
                total == count * q + rest,
                t == 2 * share * rest,
                t == count * t1 + t2,
                x == 2 * share * q + t1 + 100_000_000,
        ;
        lemma_common_factor(count as int, x as int, t2 as int, 200_000_000);
        assert(2 * (count * 100_000_000) == count * 200_000_000);
        assert(share * total >= 0) by (nonlinear_arith)
            requires
                share >= 0,
                total > 0,
        ;
    }
    if y > 65535 {
        65535
    } else {
        y as u16
    }
}

/// The nominal capacity of a module of the stack.
fn stack_capacity_of(b: &[BatteryState]) -> (r: u16)
    ensures
        r == stack_capacity(b@),
{
    if b.len() == 0 {
        rounded_word_of(3_400_000, 7_680)
    } else {
        rounded_word_of(b[0].nominal_capacity_kwh.exact(), 7_680)
    }
}

/// The word at offset `i` of the cluster bank.
fn cluster_word_of(i: usize, b: &[BatteryState]) -> (r: u16)
    ensures
        r == cluster_word(i as int, b@),
{
    let n: i128 = if b.len() == 0 {
        1
    } else {
        b.len() as i128
    };
    if i == 0 {
        0x4856
    } else if i == 1 || i == 2 {
        0x3030
    } else if i == 3 {
        0x3031
    } else if i == 4 {
        (b.len() % 65536) as u16
    } else if i == 5 {
        24
    } else if i == 7 {
        rounded_word_of(module_total_of(b, ModuleQuantity::Voltage), n * 24_000)
    } else if i == 8 {
        rounded_word_of(module_total_of(b, ModuleQuantity::Temperature), n * 100_000)
    } else if i == 10 {
        1
    } else if i == 13 || i == 14 {
        rounded_word_of(module_total_of(b, ModuleQuantity::Voltage), 100_000)
    } else if i == 16 {
        if b.len() == 0 {
            signed_rounded_word_of(0, 100_000)
        } else {
            signed_rounded_word_of(b[0].current_a.exact(), 100_000)
        }
    } else if i == 19 {
        signed_rounded_word_of(module_total_of(b, ModuleQuantity::Power), 1_000)
    } else if i == 20 {
        let range = soc_range_of(b);
        percent_of(range.0 as i128, 1_000_000) * 256 + percent_of(range.1 as i128, 1_000_000)
    } else if i == 21 {
        percent_of(module_total_of(b, ModuleQuantity::Soh), n * 10_000)
    } else if i == 22 || i == 24 {
        high_half_of(wide_of(module_total_of(b, ModuleQuantity::Throughput), 100_000))
    } else if i == 23 || i == 25 {
        low_half_of(wide_of(module_total_of(b, ModuleQuantity::Throughput), 100_000))
    } else if i == 38 {
        stack_capacity_of(b)
    } else if i == 39 {
        average_share_of(stack_capacity_of(b), module_total_of(b, ModuleQuantity::Soc), n)
    } else if i == 40 {
        rounded_word_of(module_total_of(b, ModuleQuantity::Cycles), n * 100_000)
    } else {
        0
    }
}

/// The cluster bank of a high-voltage stack.
pub fn cluster_bank(batteries: &[BatteryState]) -> (r: [u16; 60])
    ensures
        forall|i: int| 0 <= i < 60 ==> #[trigger] r@[i] == cluster_word(i, batteries@),
{
    let mut regs: [u16; 60] = [0;60];
    let mut i: usize = 0;
    while i < 60
        invariant
            i <= 60,
            forall|j: int| 0 <= j < i ==> #[trigger] regs@[j] == cluster_word(j, batteries@),
        decreases 60 - i,
    {
        let w: u16 = cluster_word_of(i, batteries);
        regs[i] = w;
        i += 1;
    }
    regs
}

/// Law: the voltage of a cell strays from the module's average by at most one
/// percent.
pub proof fn law_cell_factor_within_one_percent(module: u64, cell: u64)
    ensures
        99 * FACTOR_ONE <= 100 * cell_factor(module, cell) < 101 * FACTOR_ONE,
{
    let h = cell_hash(module, cell);
    assert(h >> 11 <= 0x1f_ffff_ffff_ffff) by (bit_vector);
}

} // verus!
