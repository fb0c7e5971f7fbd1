//! Aggregation bank of a gateway, IR 1600-1859, and its serial number.
//!
//! A gateway shows the All-in-One units behind it as one plant and, in equal
//! shares, as up to three units. Its two firmware variants differ in the order
//! of the halves of long counters and in where the unit serials stand.
use crate::fixed;
use crate::fixed::{
    high_half_of, low_half_of, rounded_word_of, signed_cut_word_of, wide_of, MAX_MICROS,
};
use crate::model;
use crate::projection;
use crate::state::PlantState;
use vstd::prelude::*;

verus! {

/// Whether the firmware is of the second variant.
pub open spec fn second_variant(s: PlantState) -> bool {
    s.config.gateway_fw_version >= 10
}

/// The number of units behind the gateway.
pub open spec fn unit_count(s: PlantState) -> int {
    fixed::saturate(s.config.parallel_aio_num as int, 1, 3)
}

/// The word at place `place` of an energy triple: the counter in tenths, then
/// the two halves of the long counter. `n` is shared by `units` units.
pub open spec fn energy_word(place: int, n: int, units: int, second: bool) -> int {
    let step = units * 100_000;
    if place == 0 {
        fixed::rounded_word(n, step)
    } else if (place == 1) != second {
        fixed::high_half(fixed::wide(n, step))
    } else {
        fixed::low_half(fixed::wide(n, step))
    }
}

/// The energy total of triple `i` in IR 1640-1657.
pub open spec fn energy_total(i: int, s: PlantState) -> int {
    let t = s.energy_totals;
    if i == 0 {
        t.grid_import_kwh@
    } else if i == 1 {
        t.solar_generation_kwh@
    } else if i == 2 {
        t.grid_export_kwh@
    } else if i == 3 {
        t.battery_charge_kwh@
    } else if i == 4 {
        t.battery_discharge_kwh@
    } else {
        t.load_consumption_kwh@
    }
}

/// The characters at place `place` of the serial of unit `unit`: "SA2423000"
/// and the unit's number, two to a word.
pub open spec fn unit_serial(unit: int, place: int) -> int {
    if place == 0 {
        0x5341
    } else if place == 1 {
        0x3234
    } else if place == 2 {
        0x3233
    } else if place == 3 {
        0x3030
    } else {
        0x3031 + unit
    }
}

/// The first register of the unit serials.
pub open spec fn serial_base(s: PlantState) -> int {
    if second_variant(s) {
        1841
    } else {
        1831
    }
}

/// 1 while the battery charges, 2 while it discharges, 0 while it rests.
pub open spec fn flow_state(power_kw: int) -> int {
    if power_kw > 10_000 {
        1
    } else if power_kw < -10_000 {
        2
    } else {
        0
    }
}

/// What input register `a` of the bank shows, for the registers of the bank.
pub open spec fn bank_word(a: int, s: PlantState) -> Option<int> {
    let power = s.battery.power_kw@ * 1000;
    let units = unit_count(s);
    let second = second_variant(s);
    if a == 1600 {
        Some(0x4741)
    } else if a == 1601 {
        Some(0x3030)
    } else if a == 1602 {
        Some(0)
    } else if a == 1603 {
        Some(s.config.gateway_fw_version as int)
    } else if a == 1604 {
        Some(2)
    } else if a == 1608 || a == 1610 || a == 1624 || a == 1625 {
        Some(
            if s.grid.connected {
                2400
            } else {
                0
            },
        )
    } else if a == 1609 {
        Some(fixed::signed_cut_word(s.grid.power_w@, 24_000_000))
    } else if a == 1611 {
        Some(fixed::rounded_word(s.load_demand_w@, 24_000_000))
    } else if a == 1612 {
        Some(fixed::rounded_word(s.solar.generation_w@, 24_000_000))
    } else if a == 1616 || a == 1702 {
        Some(fixed::signed_cut_word(power, 1_000_000))
    } else if a == 1617 {
        Some(fixed::rounded_word(s.solar.generation_w@, 1_000_000))
    } else if a == 1618 {
        Some(fixed::rounded_word(s.load_demand_w@, 1_000_000))
    } else if 1619 <= a <= 1623 {
        Some(0)
    } else if 1627 <= a <= 1631 {
        Some(unit_serial(0, a - 1627))
    } else if 1640 <= a <= 1657 {
        Some(energy_word((a - 1640) % 3, energy_total((a - 1640) / 3, s), 1, second))
    } else if a == 1700 || a == 1701 {
        Some(units)
    } else if a == 1703 {
        Some(flow_state(s.battery.power_kw@))
    } else if a == 1704 {
        Some(100)
    } else if 1705 <= a <= 1713 {
        Some(
            if (a - 1705) / 3 < units {
                energy_word((a - 1705) % 3, s.energy_totals.battery_charge_kwh@, units, second)
            } else {
                0
            },
        )
    } else if 1750 <= a <= 1758 {
        Some(
            if (a - 1750) / 3 < units {
                energy_word((a - 1750) % 3, s.energy_totals.battery_discharge_kwh@, units, second)
            } else {
                0
            },
        )
    } else if 1795 <= a <= 1797 {
        Some(energy_word(a - 1795, s.energy_totals.battery_charge_kwh@, 1, second))
    } else if 1798 <= a <= 1800 {
        Some(energy_word(a - 1798, s.energy_totals.battery_discharge_kwh@, 1, second))
    } else if 1801 <= a <= 1803 {
        Some(
            if a - 1801 < units {
                fixed::rounded_word(s.battery.soc_percent@, 1_000_000)
            } else {
                0
            },
        )
    } else if 1816 <= a <= 1818 {
        Some(
            if a - 1816 < units {
                fixed::signed_cut_word(power, units * 1_000_000)
            } else {
                0
            },
        )
    } else if 1831 <= a <= 1859 {
        let offset = a - serial_base(s);
        Some(
            if 0 <= offset && offset / 7 < units && offset % 7 < 5 {
                unit_serial(offset / 7, offset % 7)
            } else {
                0
            },
        )
    } else {
        None
    }
}

/// The characters of the gateway's own serial, "GW2423G192", two to a word.
pub open spec fn gateway_serial(place: int) -> int {
    if place == 0 {
        0x4757
    } else if place == 1 {
        0x3234
    } else if place == 2 {
        0x3233
    } else if place == 3 {
        0x4731
    } else {
        0x3932
    }
}

/// What a gateway shows under the storage key `key`, where it overrides it: the
/// bank among the input registers, and the serial at HR 13-17.
pub open spec fn overlay_word(key: int, s: PlantState) -> Option<int> {
    if 10013 <= key <= 10017 {
        Some(gateway_serial(key - 10013))
    } else {
        bank_word(key, s)
    }
}

/// The values `m` under the overlay of a gateway. Other inverters have none.
pub open spec fn overlaid(m: Map<u32, u16>, s: PlantState) -> Map<u32, u16> {
    if model::gateway(s.config.inverter_type@) {
        m.union_prefer_right(
            Map::new(
                |k: u32| overlay_word(k as int, s) is Some,
                |k: u32| overlay_word(k as int, s)->0 as u16,
            ),
        )
    } else {
        m
    }
}

/// The word at place `place` of an energy triple.
fn energy_word_of(place: u16, n: i128, units: u16, second: bool) -> (r: u16)
    requires
        -MAX_MICROS <= n <= MAX_MICROS,
        1 <= units <= 3,
    ensures
        r == energy_word(place as int, n as int, units as int, second),
{
    let step: i128 = units as i128 * 100_000;
    if place == 0 {
        rounded_word_of(n, step)
    } else if (place == 1) != second {
        high_half_of(wide_of(n, step))
    } else {
        low_half_of(wide_of(n, step))
    }
}

/// The energy total of triple `i`.
fn energy_total_of(i: u16, s: &PlantState) -> (r: i128)
    ensures
        r == energy_total(i as int, *s),
        -MAX_MICROS <= r <= MAX_MICROS,
{
    let t = &s.energy_totals;
    if i == 0 {
        t.grid_import_kwh.exact()
    } else if i == 1 {
        t.solar_generation_kwh.exact()
    } else if i == 2 {
        t.grid_export_kwh.exact()
    } else if i == 3 {
        t.battery_charge_kwh.exact()
    } else if i == 4 {
        t.battery_discharge_kwh.exact()
    } else {
        t.load_consumption_kwh.exact()
    }
}

/// The characters at place `place` of the serial of unit `unit`.
fn unit_serial_of(unit: u16, place: u16) -> (r: u16)
    requires
        unit < 3,
    ensures
        r == unit_serial(unit as int, place as int),
{
    if place == 0 {
        0x5341
    } else if place == 1 {
        0x3234
    } else if place == 2 {
        0x3233
    } else if place == 3 {
        0x3030
    } else {
        0x3031 + unit
    }
}

/// 1 while the battery charges, 2 while it discharges, 0 while it rests.
pub fn flow_state_of(power_kw: i64) -> (r: u16)
    ensures
        r == flow_state(power_kw as int),
{
    if power_kw > 10_000 {
        1
    } else if power_kw < -10_000 {
        2
    } else {
        0
    }
}

/// The number of units behind the gateway.
fn unit_count_of(s: &PlantState) -> (r: u16)
    ensures
        r == unit_count(*s),
        1 <= r <= 3,
{
    let n: u16 = s.config.parallel_aio_num;
    if n < 1 {
        1
    } else if n > 3 {
        3
    } else {
        n
    }
}

/// What input register `a` of the bank shows.
pub fn bank_word_of(a: u16, s: &PlantState) -> (r: Option<u16>)
    ensures
        projection::lifted(r) == bank_word(a as int, *s),
{
    let power: i128 = s.battery.power_kw.exact() * 1000;
    let units: u16 = unit_count_of(s);
    let second: bool = s.config.gateway_fw_version >= 10;
    if a == 1600 {
        Some(0x4741)
    } else if a == 1601 {
        Some(0x3030)
    } else if a == 1602 {
        Some(0)
    } else if a == 1603 {
        Some(s.config.gateway_fw_version)
    } else if a == 1604 {
        Some(2)
    } else if a == 1608 || a == 1610 || a == 1624 || a == 1625 {
        if s.grid.connected {
            Some(2400)
        } else {
            Some(0)
        }
    } else if a == 1609 {
        Some(signed_cut_word_of(s.grid.power_w.exact(), 24_000_000))
    } else if a == 1611 {
        Some(rounded_word_of(s.load_demand_w.exact(), 24_000_000))
    } else if a == 1612 {
        Some(rounded_word_of(s.solar.generation_w.exact(), 24_000_000))
    } else if a == 1616 || a == 1702 {
        Some(signed_cut_word_of(power, 1_000_000))
    } else if a == 1617 {
        Some(rounded_word_of(s.solar.generation_w.exact(), 1_000_000))
    } else if a == 1618 {
        Some(rounded_word_of(s.load_demand_w.exact(), 1_000_000))
    } else if 1619 <= a && a <= 1623 {
        Some(0)
    } else if 1627 <= a && a <= 1631 {
        Some(unit_serial_of(0, a - 1627))
    } else if 1640 <= a && a <= 1657 {
        Some(energy_word_of((a - 1640) % 3, energy_total_of((a - 1640) / 3, s), 1, second))
    } else if a == 1700 || a == 1701 {
        Some(units)
    } else if a == 1703 {
        Some(flow_state_of(s.battery.power_kw.micros()))
    } else if a == 1704 {
        Some(100)
    } else if 1705 <= a && a <= 1713 {
        if (a - 1705) / 3 < units {
            let n: i128 = s.energy_totals.battery_charge_kwh.exact();
            Some(energy_word_of((a - 1705) % 3, n, units, second))
        } else {
            Some(0)
        }
    } else if 1750 <= a && a <= 1758 {
        if (a - 1750) / 3 < units {
            let n: i128 = s.energy_totals.battery_discharge_kwh.exact();
            Some(energy_word_of((a - 1750) % 3, n, units, second))
        } else {
            Some(0)
        }
    } else if 1795 <= a && a <= 1797 {
        Some(energy_word_of(a - 1795, s.energy_totals.battery_charge_kwh.exact(), 1, second))
    } else if 1798 <= a && a <= 1800 {
        Some(energy_word_of(a - 1798, s.energy_totals.battery_discharge_kwh.exact(), 1, second))
    } else if 1801 <= a && a <= 1803 {
        if a - 1801 < units {
            Some(rounded_word_of(s.battery.soc_percent.exact(), 1_000_000))
        } else {
            Some(0)
        }
    } else if 1816 <= a && a <= 1818 {
        if a - 1816 < units {
            Some(signed_cut_word_of(power, units as i128 * 1_000_000))
        } else {
            Some(0)
        }
    } else if 1831 <= a && a <= 1859 {
        let base: u16 = if second {
            1841
        } else {
            1831
        };
        if a >= base && (a - base) / 7 < units && (a - base) % 7 < 5 {
            Some(unit_serial_of((a - base) / 7, (a - base) % 7))
        } else {
            Some(0)
        }
    } else {
        None
    }
}

/// The characters of the gateway's own serial.
pub fn gateway_serial_of(place: u16) -> (r: u16)
    ensures
        r == gateway_serial(place as int),
{
    if place == 0 {
        0x4757
    } else if place == 1 {
        0x3234
    } else if place == 2 {
        0x3233
    } else if place == 3 {
        0x4731
    } else {
        0x3932
    }
}

/// Law: the overlay leaves every key alone that it has no word for, and shows
/// its word under every other key.
pub proof fn law_overlay(m: Map<u32, u16>, s: PlantState, k: u32)
    requires
        model::gateway(s.config.inverter_type@),
    ensures
        overlay_word(k as int, s) is Some ==> overlaid(m, s).contains_key(k) && overlaid(m, s)[k]
            == overlay_word(k as int, s)->0 as u16,
        overlay_word(k as int, s) is None ==> overlaid(m, s).contains_key(k) == m.contains_key(k),
        overlay_word(k as int, s) is None && m.contains_key(k) ==> overlaid(m, s)[k] == m[k],
{
}

/// Law: an inverter that is no gateway leaves the bank as it was, so a client
/// finds no version string there.
pub proof fn law_no_overlay_without_gateway(m: Map<u32, u16>, s: PlantState)
    requires
        !model::gateway(s.config.inverter_type@),
    ensures
        overlaid(m, s) == m,
{
}

/// Law: the two firmware variants show the same counters with the halves
/// exchanged.
pub proof fn law_variants_swap_halves(n: int, units: int)
    ensures
        energy_word(1, n, units, true) == energy_word(2, n, units, false),
        energy_word(2, n, units, true) == energy_word(1, n, units, false),
        energy_word(0, n, units, true) == energy_word(0, n, units, false),
{
}

} // verus!
