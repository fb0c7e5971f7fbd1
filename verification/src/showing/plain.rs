//! The arithmetic that the laws of the registers speak in, written out on its own.
use crate::state::{BatteryState, InverterMode, PlantState};
use vstd::prelude::*;

verus! {

/// The whole number closest to `n / d`, halves away from zero (`d > 0`).
pub open spec fn closest(n: int, d: int) -> int {
    if n >= 0 {
        (2 * n + d) / (2 * d)
    } else {
        -((d - 2 * n) / (2 * d))
    }
}

/// The quotient `n / d` without its fraction (`d > 0`).
pub open spec fn cut(n: int, d: int) -> int {
    if n >= 0 {
        n / d
    } else {
        -((-n) / d)
    }
}

/// The number of `lo..=hi` closest to `x`.
pub open spec fn within(x: int, lo: int, hi: int) -> int {
    if x < lo {
        lo
    } else if x > hi {
        hi
    } else {
        x
    }
}

/// `n / d` rounded to an unsigned word.
pub open spec fn word(n: int, d: int) -> int {
    within(closest(n, d), 0, 65535)
}

/// `n / d` cut off to an unsigned word.
pub open spec fn cut_word(n: int, d: int) -> int {
    within(cut(n, d), 0, 65535)
}

/// The bits of `x` in as many bits as tell `range` numbers apart.
pub open spec fn bits(x: int, range: int) -> int {
    if x < 0 {
        x + range
    } else {
        x
    }
}

/// `n / d` cut off to a signed word.
pub open spec fn signed_word(n: int, d: int) -> int {
    bits(within(cut(n, d), -32768, 32767), 65536)
}

/// `n / d` rounded to an unsigned word of thirty-two bits.
pub open spec fn long(n: int, d: int) -> int {
    within(closest(n, d), 0, 4294967295)
}

/// `n / d` rounded to a signed word of thirty-two bits.
pub open spec fn signed_long(n: int, d: int) -> int {
    bits(within(closest(n, d), -2147483648, 2147483647), 4294967296)
}

/// The upper word of a long one.
pub open spec fn upper(x: int) -> int {
    x / 65536
}

/// The lower word of a long one.
pub open spec fn lower(x: int) -> int {
    x % 65536
}

/// The distance from zero.
pub open spec fn size(x: int) -> int {
    if x >= 0 {
        x
    } else {
        -x
    }
}

/// What lies above zero.
pub open spec fn gain(x: int) -> int {
    if x >= 0 {
        x
    } else {
        0
    }
}

/// One where `b` holds, and zero where it does not.
pub open spec fn one_if(b: bool) -> int {
    if b {
        1
    } else {
        0
    }
}

/// Whether `id` is among the faults.
pub open spec fn raised(faults: Seq<String>, id: Seq<char>) -> bool {
    exists|i: int| 0 <= i < faults.len() && (#[trigger] faults[i])@ == id
}

/// Energy that all modules have put through together.
pub open spec fn throughput(b: Seq<BatteryState>) -> int
    decreases b.len(),
{
    if b.len() == 0 {
        0
    } else {
        throughput(b.drop_last()) + b.last().throughput_kwh@
    }
}

/// Voltage of all modules in a row.
pub open spec fn voltage(b: Seq<BatteryState>) -> int
    decreases b.len(),
{
    if b.len() == 0 {
        0
    } else {
        voltage(b.drop_last()) + b.last().voltage_v@
    }
}

/// Whether the inverter type is a three-phase one.
pub open spec fn three_phase(t: Seq<char>) -> bool {
    (t.len() >= 10 && t.take(10) == "ThreePhase"@) || t == "ACThreePhase"@
}

/// Whether the inverter type is a gateway.
pub open spec fn gateway(t: Seq<char>) -> bool {
    t.len() >= 7 && t.take(7) == "Gateway"@
}

/// The bits of the active faults of an inverter that is not a three-phase one.
pub open spec fn fault_bits(s: PlantState) -> int {
    let f = s.active_faults@;
    if three_phase(s.config.inverter_type@) {
        0
    } else {
        one_if(raised(f, "battery_over_temp"@)) * 0x1 + one_if(raised(f, "grid_loss"@)) * 0x80
            + one_if(raised(f, "inverter_trip"@)) * 0x80_0000 + one_if(raised(f, "comm_timeout"@))
            * 0x100_0000 + one_if(raised(f, "sensor_drift"@)) * 0x4000_0000
    }
}

/// The number of a mode on the registers.
pub open spec fn mode_number(m: InverterMode) -> int {
    match m {
        InverterMode::Normal => 0,
        InverterMode::Eco => 1,
        InverterMode::ForceCharge => 2,
        InverterMode::ForceDischarge => 3,
        InverterMode::ExportLimit => 4,
    }
}

/// The number of a weather on the registers.
pub open spec fn weather_number(w: Seq<char>) -> int {
    if w == "Storm"@ {
        3
    } else if w == "Overcast"@ {
        2
    } else if w == "PartlyCloudy"@ {
        1
    } else {
        0
    }
}

/// Current of the battery stack in tenths of an ampere, as a signed word: out of
/// the stack counts as positive. Without a voltage it is at an end of its range.
pub open spec fn stack_current(power_kw: int, volts: int) -> int {
    if volts == 0 {
        if power_kw == 0 {
            0
        } else if power_kw < 0 {
            0x7fff
        } else {
            0x8000
        }
    } else if volts > 0 {
        signed_word(-(power_kw * 10_000), volts)
    } else {
        signed_word(power_kw * 10_000, -volts)
    }
}

/// The ARM firmware version on the registers.
pub open spec fn firmware(t: Seq<char>, set_by_hand: int) -> int {
    if set_by_hand != 0 {
        set_by_hand
    } else if three_phase(t) {
        612
    } else if t == "Gen1Hybrid"@ {
        252
    } else if t == "Gen2Hybrid"@ {
        852
    } else if t == "Gen3Plus6kW"@ || t == "Gen3Plus4600"@ || t == "Gen3Plus3600"@ || t
        == "Gen3Plus6kW2"@ {
        452
    } else {
        318
    }
}

/// Nominal battery voltage in thousandths of a volt.
pub open spec fn nominal_millivolts(t: Seq<char>) -> int {
    if three_phase(t) {
        76_800
    } else if t == "AllInOne"@ || t == "AllInOne5"@ || t == "AllInOne6"@ || t == "AIO8kW"@ || t
        == "AIO10kW"@ {
        307_000
    } else {
        51_200
    }
}

} // verus!
