//! Plant-manager (EMS) input registers, IR 2040-2095.
use crate::fixed;
use crate::fixed::{cut_word_of, signed_cut_word_of, MAX_MICROS};
use crate::projection;
use crate::projection::scaled_of;
use crate::state::PlantState;
use crate::text;
use crate::text::{same, starts_with};
use vstd::prelude::*;

verus! {

/// What the plant-manager register `name` shows. Registers of the block without
/// a reading of their own show zero.
pub open spec fn ems(name: Seq<char>, scale: int, s: PlantState) -> Option<int> {
    if name == "ems_ir_status"@ {
        Some(projection::scaled(1_000_000, 1, scale))
    } else if name == "ems_ir_inverter_count"@ {
        Some(projection::scaled(s.batteries@.len() as int * 1_000_000, 1, scale))
    } else if name == "ems_ir_inverter_1_soc"@ {
        Some(projection::scaled(s.battery.soc_percent@, 1, scale))
    } else if name == "ems_ir_inverter_1_power"@ || name == "ems_ir_total_battery_power"@ {
        Some(fixed::signed_cut_word(s.battery.power_kw@ * 1000, 1_000_000))
    } else if name == "ems_ir_inverter_1_temp"@ {
        Some(projection::scaled(s.inverter.temperature_celsius@, 1, scale))
    } else if name == "ems_ir_grid_meter_power"@ {
        Some(fixed::signed_cut_word(s.grid.power_w@, 1_000_000))
    } else if name == "ems_ir_remaining_battery_wh"@ {
        Some(fixed::cut_word(s.battery.soc_percent@ * s.battery.capacity_kwh@ * 10, 1_000_000_000_000))
    } else {
        if text::has_prefix(name, "ems_ir_"@) {
            Some(projection::scaled(0, 1, scale))
        } else {
            None
        }
    }
}

/// The energy left in the battery, in watt-hours.
fn remaining_wh_of(s: &PlantState) -> (r: u16)
    ensures
        r == fixed::cut_word(
            s.battery.soc_percent@ * s.battery.capacity_kwh@ * 10,
            1_000_000_000_000,
        ),
{
    let soc: i128 = s.battery.soc_percent.exact();
    let kwh: i128 = s.battery.capacity_kwh.exact();
    proof {
        fixed::lemma_product_bound(soc as int, kwh as int);
    }
    cut_word_of(soc * kwh * 10, 1_000_000_000_000)
}

/// What the plant-manager register `name` shows. Registers of the block without
/// a reading of their own show zero.
pub fn ems_of(name: &str, scale: i64, s: &PlantState) -> (r: Option<u16>)
    requires
        -MAX_MICROS <= scale <= MAX_MICROS,
    ensures
        projection::lifted(r) == ems(name@, scale as int, *s),
{
    if same(name, "ems_ir_status") {
        return Some(scaled_of(1_000_000, 1, scale));
    }
    if same(name, "ems_ir_inverter_count") {
        return Some(scaled_of(s.batteries.len() as i128 * 1_000_000, 1, scale));
    }
    if same(name, "ems_ir_inverter_1_soc") {
        return Some(scaled_of(s.battery.soc_percent.exact(), 1, scale));
    }
    if same(name, "ems_ir_inverter_1_power") || same(name, "ems_ir_total_battery_power") {
        return Some(signed_cut_word_of(s.battery.power_kw.exact() * 1000, 1_000_000));
    }
    if same(name, "ems_ir_inverter_1_temp") {
        return Some(scaled_of(s.inverter.temperature_celsius.exact(), 1, scale));
    }
    if same(name, "ems_ir_grid_meter_power") {
        return Some(signed_cut_word_of(s.grid.power_w.exact(), 1_000_000));
    }
    if same(name, "ems_ir_remaining_battery_wh") {
        return Some(remaining_wh_of(s));
    }
    if starts_with(name, "ems_ir_") {
        return Some(scaled_of(0, 1, scale));
    }
    None
}

} // verus!
