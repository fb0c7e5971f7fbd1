//! Reports of the plant for the user interface.
use crate::calendar;
use crate::calendar::format_moment;
use crate::commands;
use crate::commands::get_dongle_misbehaviour;
use crate::fixed;
use crate::fixed::{rounded_word_of, Fixed, MAX_MICROS};
use crate::model;
use crate::model::shown_firmware_of;
use crate::schedule;
use crate::schedule::{clock_reading_of, RawTime, Schedule, Slot};
use crate::state::{BatteryState, EvcState, InverterMode, PlantState};
use crate::text;
use vstd::prelude::*;

verus! {

/// One battery module, reported.
#[derive(Clone, Copy, Debug)]
pub struct BatteryModuleDto {
    pub soc_percent: Fixed,
    pub power_kw: Fixed,
    pub voltage_v: Fixed,
    pub current_a: Fixed,
    pub temperature_celsius: Fixed,
    pub capacity_kwh: Fixed,
    pub nominal_capacity_kwh: Fixed,
    pub soh: Fixed,
    pub cycle_count: Fixed,
}

/// Accumulated energy, reported.
#[derive(Clone, Copy, Debug)]
pub struct EnergyTotalsDto {
    pub grid_import_kwh: Fixed,
    pub grid_export_kwh: Fixed,
    pub battery_charge_kwh: Fixed,
    pub battery_discharge_kwh: Fixed,
    pub solar_generation_kwh: Fixed,
    pub load_consumption_kwh: Fixed,
}

/// The schedule, reported. Times are clock readings.
#[derive(Clone, Copy, Debug)]
pub struct ScheduleDto {
    pub enable_discharge: bool,
    pub enable_charge: bool,
    pub soc_reserve: Fixed,
    pub charge_target_soc: Fixed,
    pub charge_target_soc_2: Fixed,
    pub charge_target_soc_3: Fixed,
    pub charge_target_soc_4: Fixed,
    pub charge_target_soc_5: Fixed,
    pub charge_target_soc_6: Fixed,
    pub charge_target_soc_7: Fixed,
    pub charge_target_soc_8: Fixed,
    pub charge_target_soc_9: Fixed,
    pub charge_target_soc_10: Fixed,
    pub discharge_target_soc: Fixed,
    pub discharge_target_soc_2: Fixed,
    pub discharge_target_soc_3: Fixed,
    pub discharge_target_soc_4: Fixed,
    pub discharge_target_soc_5: Fixed,
    pub discharge_target_soc_6: Fixed,
    pub discharge_target_soc_7: Fixed,
    pub discharge_target_soc_8: Fixed,
    pub discharge_target_soc_9: Fixed,
    pub discharge_target_soc_10: Fixed,
    pub charge_slot_1_start: u16,
    pub charge_slot_1_end: u16,
    pub charge_slot_2_start: u16,
    pub charge_slot_2_end: u16,
    pub charge_slot_3_start: u16,
    pub charge_slot_3_end: u16,
    pub charge_slot_4_start: u16,
    pub charge_slot_4_end: u16,
    pub charge_slot_5_start: u16,
    pub charge_slot_5_end: u16,
    pub charge_slot_6_start: u16,
    pub charge_slot_6_end: u16,
    pub charge_slot_7_start: u16,
    pub charge_slot_7_end: u16,
    pub charge_slot_8_start: u16,
    pub charge_slot_8_end: u16,
    pub charge_slot_9_start: u16,
    pub charge_slot_9_end: u16,
    pub charge_slot_10_start: u16,
    pub charge_slot_10_end: u16,
    pub discharge_slot_1_start: u16,
    pub discharge_slot_1_end: u16,
    pub discharge_slot_2_start: u16,
    pub discharge_slot_2_end: u16,
    pub discharge_slot_3_start: u16,
    pub discharge_slot_3_end: u16,
    pub discharge_slot_4_start: u16,
    pub discharge_slot_4_end: u16,
    pub discharge_slot_5_start: u16,
    pub discharge_slot_5_end: u16,
    pub discharge_slot_6_start: u16,
    pub discharge_slot_6_end: u16,
    pub discharge_slot_7_start: u16,
    pub discharge_slot_7_end: u16,
    pub discharge_slot_8_start: u16,
    pub discharge_slot_8_end: u16,
    pub discharge_slot_9_start: u16,
    pub discharge_slot_9_end: u16,
    pub discharge_slot_10_start: u16,
    pub discharge_slot_10_end: u16,
    pub battery_pause_mode: u16,
    pub pause_slot_start: u16,
    pub pause_slot_end: u16,
}

/// The plant, reported.
#[derive(Clone, Debug)]
pub struct PlantStateDto {
    pub timestamp: String,
    pub inverter_mode: String,
    pub battery_mode: String,
    pub inverter_type: String,
    pub inverter_ac_power_w: Fixed,
    pub inverter_max_output_w: Fixed,
    pub inverter_temperature_celsius: Fixed,
    /// Present while the temperature is pinned.
    pub inverter_temperature_override: Option<Fixed>,
    /// Shown at HR 1063 in tenths of a watt and at HR 2071 in watts.
    pub export_limit_w: Fixed,
    pub charge_power_limit_percent: Fixed,
    pub discharge_power_limit_percent: Fixed,
    /// As HR 21 shows it.
    pub arm_firmware_version: u16,
    pub dsp_firmware_version: u16,
    pub aggregate_soc: Fixed,
    pub battery_power_kw: Fixed,
    pub battery_temperature_celsius: Fixed,
    pub battery_module_count: usize,
    pub battery_modules: Vec<BatteryModuleDto>,
    pub solar_generation_w: Fixed,
    pub solar_pv1_w: Fixed,
    pub solar_pv2_w: Fixed,
    pub pv2_peak_watts: Fixed,
    pub solar_override: Option<Fixed>,
    pub load_demand_w: Fixed,
    pub load_override: Option<Fixed>,
    pub grid_power_w: Fixed,
    pub grid_connected: bool,
    pub active_faults: Vec<String>,
    pub weather: String,
    pub energy_totals: EnergyTotalsDto,
    pub schedule: ScheduleDto,
    pub evc: EvcState,
    pub ct_meter_installed: bool,
    pub battery_self_heating: bool,
    pub manual_battery_heater: bool,
    pub enable_eps: bool,
    pub parallel_aio_num: u16,
    pub dongle_misbehaviour: String,
}

/// The first reading written to `address`, if any.
pub open spec fn raw_time(times: Seq<RawTime>, address: int) -> Option<u16>
    decreases times.len(),
{
    if times.len() == 0 {
        None
    } else if times[0].address == address {
        Some(times[0].value)
    } else {
        raw_time(times.skip(1), address)
    }
}

/// The reading that a client wrote to `address`, or else `derived`.
pub open spec fn time_or(plan: Option<&Schedule>, address: int, derived: int) -> int {
    match plan {
        Some(s) => match raw_time(s.raw_times@, address) {
            Some(v) => v as int,
            None => derived,
        },
        None => derived,
    }
}

/// The hours at which slot `i` starts or ends; zero without a schedule.
pub open spec fn hours_of(plan: Option<&Schedule>, discharge: bool, i: int, end: bool) -> int {
    match plan {
        Some(s) => {
            let slot = if discharge {
                s.discharge@[i]
            } else {
                s.charge@[i]
            };
            if end {
                slot.end@
            } else {
                slot.start@
            }
        },
        None => 0,
    }
}

/// The reported time of slot `i`: as written to `address`, or else the clock
/// reading of its hours.
pub open spec fn time_of(
    plan: Option<&Schedule>,
    address: int,
    discharge: bool,
    i: int,
    end: bool,
) -> int {
    time_or(plan, address, schedule::clock_reading(hours_of(plan, discharge, i, end)))
}

/// The reported target of slot `i`; without a schedule, full for charge slots and
/// ten percent for discharge slots.
pub open spec fn target_of(plan: Option<&Schedule>, discharge: bool, i: int) -> Fixed {
    match plan {
        Some(s) => if discharge {
            s.discharge@[i].target_soc
        } else {
            s.charge@[i].target_soc
        },
        None => if discharge {
            Fixed::of(10_000_000)
        } else {
            Fixed::of(100_000_000)
        },
    }
}

/// The reading that a client wrote to `address`, or else `derived`.
fn raw_or(plan: Option<&Schedule>, address: u16, derived: u16) -> (r: u16)
    ensures
        r == time_or(plan, address as int, derived as int),
{
    match plan {
        Some(s) => {
            let mut i: usize = 0;
            assert(s.raw_times@.skip(0) =~= s.raw_times@);
            while i < s.raw_times.len()
                invariant
                    i <= s.raw_times@.len(),
                    plan == Some(s),
                    raw_time(s.raw_times@.skip(i as int), address as int) == raw_time(
                        s.raw_times@,
                        address as int,
                    ),
                decreases s.raw_times@.len() - i,
            {
                let ghost rest = s.raw_times@.skip(i as int);
                assert(rest[0] == s.raw_times@[i as int]);
                assert(rest.skip(1) =~= s.raw_times@.skip(i + 1));
                if s.raw_times[i].address == address {
                    return s.raw_times[i].value;
                }
                i += 1;
            }
            derived
        },
        None => derived,
    }
}

/// The reported time of slot `i`.
fn time_in(plan: Option<&Schedule>, address: u16, discharge: bool, i: usize, end: bool) -> (r: u16)
    requires
        i < 10,
    ensures
        r == time_of(plan, address as int, discharge, i as int, end),
{
    let hours: i64 = match plan {
        Some(s) => {
            let slot: Slot = if discharge {
                s.discharge[i]
            } else {
                s.charge[i]
            };
            if end {
                slot.end.micros()
            } else {
                slot.start.micros()
            }
        },
        None => 0,
    };
    raw_or(plan, address, clock_reading_of(hours))
}

/// The reported target of slot `i`.
fn target_in(plan: Option<&Schedule>, discharge: bool, i: usize) -> (r: Fixed)
    requires
        i < 10,
    ensures
        r == target_of(plan, discharge, i as int),
{
    match plan {
        Some(s) => if discharge {
            s.discharge[i].target_soc
        } else {
            s.charge[i].target_soc
        },
        None => if discharge {
            Fixed::from_units(10)
        } else {
            Fixed::from_units(100)
        },
    }
}

/// Whether `r` reports the schedule `plan` of the plant `state`. The enable flags
/// are controls of their own: they do not follow from the slots.
pub open spec fn reports_schedule(r: ScheduleDto, state: PlantState, plan: Option<&Schedule>) -> bool {
    &&& r.enable_charge == (plan matches Some(s) && s.enable_charge)
    &&& r.enable_discharge == (plan matches Some(s) && s.enable_discharge)
    &&& r.soc_reserve == state.battery.min_soc_percent
    &&& r.battery_pause_mode == state.battery_pause_mode
    &&& r.pause_slot_start == state.battery_pause_slot_start
    &&& r.pause_slot_end == state.battery_pause_slot_end
    &&& r.charge_target_soc == target_of(plan, false, 0)
    &&& r.charge_target_soc_2 == target_of(plan, false, 1)
    &&& r.charge_target_soc_3 == target_of(plan, false, 2)
    &&& r.charge_target_soc_4 == target_of(plan, false, 3)
    &&& r.charge_target_soc_5 == target_of(plan, false, 4)
    &&& r.charge_target_soc_6 == target_of(plan, false, 5)
    &&& r.charge_target_soc_7 == target_of(plan, false, 6)
    &&& r.charge_target_soc_8 == target_of(plan, false, 7)
    &&& r.charge_target_soc_9 == target_of(plan, false, 8)
    &&& r.charge_target_soc_10 == target_of(plan, false, 9)
    &&& r.discharge_target_soc == target_of(plan, true, 0)
    &&& r.discharge_target_soc_2 == target_of(plan, true, 1)
    &&& r.discharge_target_soc_3 == target_of(plan, true, 2)
    &&& r.discharge_target_soc_4 == target_of(plan, true, 3)
    &&& r.discharge_target_soc_5 == target_of(plan, true, 4)
    &&& r.discharge_target_soc_6 == target_of(plan, true, 5)
    &&& r.discharge_target_soc_7 == target_of(plan, true, 6)
    &&& r.discharge_target_soc_8 == target_of(plan, true, 7)
    &&& r.discharge_target_soc_9 == target_of(plan, true, 8)
    &&& r.discharge_target_soc_10 == target_of(plan, true, 9)
    &&& r.charge_slot_1_start == time_of(plan, 94, false, 0, false)
    &&& r.charge_slot_1_end == time_of(plan, 95, false, 0, true)
    &&& r.charge_slot_2_start == time_or(plan, 243, time_of(plan, 31, false, 1, false))
    &&& r.charge_slot_2_end == time_or(plan, 244, time_of(plan, 32, false, 1, true))
    &&& r.charge_slot_3_start == time_of(plan, 246, false, 2, false)
    &&& r.charge_slot_3_end == time_of(plan, 247, false, 2, true)
    &&& r.charge_slot_4_start == time_of(plan, 249, false, 3, false)
    &&& r.charge_slot_4_end == time_of(plan, 250, false, 3, true)
    &&& r.charge_slot_5_start == time_of(plan, 252, false, 4, false)
    &&& r.charge_slot_5_end == time_of(plan, 253, false, 4, true)
    &&& r.charge_slot_6_start == time_of(plan, 255, false, 5, false)
    &&& r.charge_slot_6_end == time_of(plan, 256, false, 5, true)
    &&& r.charge_slot_7_start == time_of(plan, 258, false, 6, false)
    &&& r.charge_slot_7_end == time_of(plan, 259, false, 6, true)
    &&& r.charge_slot_8_start == time_of(plan, 261, false, 7, false)
    &&& r.charge_slot_8_end == time_of(plan, 262, false, 7, true)
    &&& r.charge_slot_9_start == time_of(plan, 264, false, 8, false)
    &&& r.charge_slot_9_end == time_of(plan, 265, false, 8, true)
    &&& r.charge_slot_10_start == time_of(plan, 267, false, 9, false)
    &&& r.charge_slot_10_end == time_of(plan, 268, false, 9, true)
    &&& r.discharge_slot_1_start == time_of(plan, 56, true, 0, false)
    &&& r.discharge_slot_1_end == time_of(plan, 57, true, 0, true)
    &&& r.discharge_slot_2_start == time_of(plan, 44, true, 1, false)
    &&& r.discharge_slot_2_end == time_of(plan, 45, true, 1, true)
    &&& r.discharge_slot_3_start == time_of(plan, 276, true, 2, false)
    &&& r.discharge_slot_3_end == time_of(plan, 277, true, 2, true)
    &&& r.discharge_slot_4_start == time_of(plan, 279, true, 3, false)
    &&& r.discharge_slot_4_end == time_of(plan, 280, true, 3, true)
    &&& r.discharge_slot_5_start == time_of(plan, 282, true, 4, false)
    &&& r.discharge_slot_5_end == time_of(plan, 283, true, 4, true)
    &&& r.discharge_slot_6_start == time_of(plan, 285, true, 5, false)
    &&& r.discharge_slot_6_end == time_of(plan, 286, true, 5, true)
    &&& r.discharge_slot_7_start == time_of(plan, 288, true, 6, false)
    &&& r.discharge_slot_7_end == time_of(plan, 289, true, 6, true)
    &&& r.discharge_slot_8_start == time_of(plan, 291, true, 7, false)
    &&& r.discharge_slot_8_end == time_of(plan, 292, true, 7, true)
    &&& r.discharge_slot_9_start == time_of(plan, 294, true, 8, false)
    &&& r.discharge_slot_9_end == time_of(plan, 295, true, 8, true)
    &&& r.discharge_slot_10_start == time_of(plan, 297, true, 9, false)
    &&& r.discharge_slot_10_end == time_of(plan, 298, true, 9, true)
}

impl ScheduleDto {
    /// The report of a schedule.
    pub fn from_state(state: &PlantState, plan: Option<&Schedule>) -> (r: ScheduleDto)
        ensures
            reports_schedule(r, *state, plan),
    {
        let enable_charge = match plan {
            Some(s) => s.enable_charge,
            None => false,
        };
        let enable_discharge = match plan {
            Some(s) => s.enable_discharge,
            None => false,
        };
        ScheduleDto {
            enable_discharge,
            enable_charge,
            soc_reserve: state.battery.min_soc_percent,
            charge_target_soc: target_in(plan, false, 0),
            charge_target_soc_2: target_in(plan, false, 1),
            charge_target_soc_3: target_in(plan, false, 2),
            charge_target_soc_4: target_in(plan, false, 3),
            charge_target_soc_5: target_in(plan, false, 4),
            charge_target_soc_6: target_in(plan, false, 5),
            charge_target_soc_7: target_in(plan, false, 6),
            charge_target_soc_8: target_in(plan, false, 7),
            charge_target_soc_9: target_in(plan, false, 8),
            charge_target_soc_10: target_in(plan, false, 9),
            discharge_target_soc: target_in(plan, true, 0),
            discharge_target_soc_2: target_in(plan, true, 1),
            discharge_target_soc_3: target_in(plan, true, 2),
            discharge_target_soc_4: target_in(plan, true, 3),
            discharge_target_soc_5: target_in(plan, true, 4),
            discharge_target_soc_6: target_in(plan, true, 5),
            discharge_target_soc_7: target_in(plan, true, 6),
            discharge_target_soc_8: target_in(plan, true, 7),
            discharge_target_soc_9: target_in(plan, true, 8),
            discharge_target_soc_10: target_in(plan, true, 9),
            charge_slot_1_start: time_in(plan, 94, false, 0, false),
            charge_slot_1_end: time_in(plan, 95, false, 0, true),
            charge_slot_2_start: raw_or(plan, 243, time_in(plan, 31, false, 1, false)),
            charge_slot_2_end: raw_or(plan, 244, time_in(plan, 32, false, 1, true)),
            charge_slot_3_start: time_in(plan, 246, false, 2, false),
            charge_slot_3_end: time_in(plan, 247, false, 2, true),
            charge_slot_4_start: time_in(plan, 249, false, 3, false),
            charge_slot_4_end: time_in(plan, 250, false, 3, true),
            charge_slot_5_start: time_in(plan, 252, false, 4, false),
            charge_slot_5_end: time_in(plan, 253, false, 4, true),
            charge_slot_6_start: time_in(plan, 255, false, 5, false),
            charge_slot_6_end: time_in(plan, 256, false, 5, true),
            charge_slot_7_start: time_in(plan, 258, false, 6, false),
            charge_slot_7_end: time_in(plan, 259, false, 6, true),
            charge_slot_8_start: time_in(plan, 261, false, 7, false),
            charge_slot_8_end: time_in(plan, 262, false, 7, true),
            charge_slot_9_start: time_in(plan, 264, false, 8, false),
            charge_slot_9_end: time_in(plan, 265, false, 8, true),
            charge_slot_10_start: time_in(plan, 267, false, 9, false),
            charge_slot_10_end: time_in(plan, 268, false, 9, true),
            discharge_slot_1_start: time_in(plan, 56, true, 0, false),
            discharge_slot_1_end: time_in(plan, 57, true, 0, true),
            discharge_slot_2_start: time_in(plan, 44, true, 1, false),
            discharge_slot_2_end: time_in(plan, 45, true, 1, true),
            discharge_slot_3_start: time_in(plan, 276, true, 2, false),
            discharge_slot_3_end: time_in(plan, 277, true, 2, true),
            discharge_slot_4_start: time_in(plan, 279, true, 3, false),
            discharge_slot_4_end: time_in(plan, 280, true, 3, true),
            discharge_slot_5_start: time_in(plan, 282, true, 4, false),
            discharge_slot_5_end: time_in(plan, 283, true, 4, true),
            discharge_slot_6_start: time_in(plan, 285, true, 5, false),
            discharge_slot_6_end: time_in(plan, 286, true, 5, true),
            discharge_slot_7_start: time_in(plan, 288, true, 6, false),
            discharge_slot_7_end: time_in(plan, 289, true, 6, true),
            discharge_slot_8_start: time_in(plan, 291, true, 7, false),
            discharge_slot_8_end: time_in(plan, 292, true, 7, true),
            discharge_slot_9_start: time_in(plan, 294, true, 8, false),
            discharge_slot_9_end: time_in(plan, 295, true, 8, true),
            discharge_slot_10_start: time_in(plan, 297, true, 9, false),
            discharge_slot_10_end: time_in(plan, 298, true, 9, true),
            battery_pause_mode: state.battery_pause_mode,
            pause_slot_start: state.battery_pause_slot_start,
            pause_slot_end: state.battery_pause_slot_end,
        }
    }
}

/// The report of a module.
pub open spec fn module_report(b: BatteryState) -> BatteryModuleDto {
    BatteryModuleDto {
        soc_percent: b.soc_percent,
        power_kw: b.power_kw,
        voltage_v: b.voltage_v,
        current_a: b.current_a,
        temperature_celsius: b.temperature_celsius,
        capacity_kwh: b.capacity_kwh,
        nominal_capacity_kwh: b.nominal_capacity_kwh,
        soh: b.soh,
        cycle_count: b.cycle_count,
    }
}

impl BatteryModuleDto {
    /// The report of a module.
    pub fn from(b: &BatteryState) -> (r: BatteryModuleDto)
        ensures
            r == module_report(*b),
    {
        BatteryModuleDto {
            soc_percent: b.soc_percent,
            power_kw: b.power_kw,
            voltage_v: b.voltage_v,
            current_a: b.current_a,
            temperature_celsius: b.temperature_celsius,
            capacity_kwh: b.capacity_kwh,
            nominal_capacity_kwh: b.nominal_capacity_kwh,
            soh: b.soh,
            cycle_count: b.cycle_count,
        }
    }
}

/// The name of an inverter mode.
pub open spec fn mode_name(m: InverterMode) -> Seq<char> {
    match m {
        InverterMode::Normal => "Normal"@,
        InverterMode::Eco => "Eco"@,
        InverterMode::ForceCharge => "ForceCharge"@,
        InverterMode::ForceDischarge => "ForceDischarge"@,
        InverterMode::ExportLimit => "ExportLimit"@,
    }
}

/// The name of an inverter mode.
pub fn mode_name_of(m: InverterMode) -> (r: &'static str)
    ensures
        r@ == mode_name(m),
{
    match m {
        InverterMode::Normal => "Normal",
        InverterMode::Eco => "Eco",
        InverterMode::ForceCharge => "ForceCharge",
        InverterMode::ForceDischarge => "ForceDischarge",
        InverterMode::ExportLimit => "ExportLimit",
    }
}

/// What the battery is doing: a scheduled window first, then what the mode says. A
/// full reserve pauses the eco mode.
pub open spec fn battery_mode(s: PlantState) -> Seq<char> {
    if s.scheduled_charge {
        "ScheduledCharge"@
    } else if s.scheduled_discharge {
        "ScheduledDischarge"@
    } else if s.inverter.effective_mode == InverterMode::Eco {
        if fixed::rounded_word(s.battery.min_soc_percent@, 1_000_000) == 100 {
            "EcoPaused"@
        } else {
            "Eco"@
        }
    } else if s.inverter.effective_mode == InverterMode::ForceCharge {
        "ForceCharge"@
    } else if s.inverter.effective_mode == InverterMode::ForceDischarge {
        "TimedExport"@
    } else {
        "ExportPaused"@
    }
}

/// What the battery is doing.
pub fn battery_mode_of(s: &PlantState) -> (r: &'static str)
    ensures
        r@ == battery_mode(*s),
{
    if s.scheduled_charge {
        "ScheduledCharge"
    } else if s.scheduled_discharge {
        "ScheduledDischarge"
    } else if s.inverter.effective_mode == InverterMode::Eco {
        if rounded_word_of(s.battery.min_soc_percent.exact(), 1_000_000) == 100 {
            "EcoPaused"
        } else {
            "Eco"
        }
    } else if s.inverter.effective_mode == InverterMode::ForceCharge {
        "ForceCharge"
    } else if s.inverter.effective_mode == InverterMode::ForceDischarge {
        "TimedExport"
    } else {
        "ExportPaused"
    }
}

/// A power limit as reported: a limit that is not positive counts as full.
pub open spec fn reported_limit(percent: Fixed) -> Fixed {
    if percent@ <= 0 {
        Fixed::of(100_000_000)
    } else {
        percent
    }
}

/// A power limit as reported.
fn reported_limit_of(percent: Fixed) -> (r: Fixed)
    ensures
        r == reported_limit(percent),
{
    if percent.micros() <= 0 {
        Fixed::from_units(100)
    } else {
        percent
    }
}

/// Whether the strings `a` spell the strings `b`.
pub open spec fn same_strings(a: Seq<String>, b: Seq<String>) -> bool {
    a.len() == b.len() && forall|i: int| 0 <= i < a.len() ==> (#[trigger] a[i])@ == b[i]@
}

/// Whether `r` reports the plant `s`, its schedule apart.
pub open spec fn reports_plant(r: PlantStateDto, s: PlantState) -> bool {
    &&& r.timestamp@ == calendar::moment_text(s.timestamp)
    &&& r.inverter_mode@ == mode_name(s.inverter.effective_mode)
    &&& r.battery_mode@ == battery_mode(s)
    &&& r.inverter_type@ == s.config.inverter_type@
    &&& r.inverter_ac_power_w == s.inverter.ac_power_w
    &&& r.inverter_max_output_w == s.config.max_ac_watts
    &&& r.inverter_temperature_celsius == s.inverter.temperature_celsius
    &&& r.inverter_temperature_override == s.inverter.temperature_override
    &&& r.export_limit_w == s.inverter.export_limit_w
    &&& r.charge_power_limit_percent == reported_limit(s.battery_charge_limit_percent)
    &&& r.discharge_power_limit_percent == reported_limit(s.battery_discharge_limit_percent)
    &&& r.arm_firmware_version == model::shown_firmware(
        s.config.inverter_type@,
        s.inverter.arm_firmware_version as int,
    )
    &&& r.dsp_firmware_version == s.inverter.dsp_firmware_version
    &&& r.aggregate_soc == s.battery.soc_percent
    &&& r.battery_power_kw == s.battery.power_kw
    &&& r.battery_temperature_celsius == s.battery.temperature_celsius
    &&& r.battery_module_count == s.batteries@.len()
    &&& r.battery_modules@ == s.batteries@.map_values(|b: BatteryState| module_report(b))
    &&& r.solar_generation_w == s.solar.generation_w
    &&& r.solar_pv1_w == s.solar.pv1_w
    &&& r.solar_pv2_w == s.solar.pv2_w
    &&& r.pv2_peak_watts == s.config.pv2_peak_watts
    &&& r.solar_override == s.solar_override
    &&& r.load_demand_w == s.load_demand_w
    &&& r.load_override == s.load_override
    &&& r.grid_power_w == s.grid.power_w
    &&& r.grid_connected == s.grid.connected
    &&& same_strings(r.active_faults@, s.active_faults@)
    &&& r.weather@ == s.weather@
    &&& r.energy_totals == (EnergyTotalsDto {
        grid_import_kwh: s.energy_totals.grid_import_kwh,
        grid_export_kwh: s.energy_totals.grid_export_kwh,
        battery_charge_kwh: s.energy_totals.battery_charge_kwh,
        battery_discharge_kwh: s.energy_totals.battery_discharge_kwh,
        solar_generation_kwh: s.energy_totals.solar_generation_kwh,
        load_consumption_kwh: s.energy_totals.load_consumption_kwh,
    })
    &&& r.evc == s.evc
    &&& r.ct_meter_installed == s.config.ct_meter_installed
    &&& r.battery_self_heating == s.inverter.battery_self_heating
    &&& r.manual_battery_heater == s.inverter.manual_battery_heater
    &&& r.enable_eps == s.enable_eps
    &&& r.parallel_aio_num == s.config.parallel_aio_num
    &&& r.dongle_misbehaviour@ == commands::dongle_name(s.dongle_misbehaviour)
}

/// A copy of the strings.
fn copied(v: &Vec<String>) -> (r: Vec<String>)
    ensures
        same_strings(r@, v@),
{
    let mut out: Vec<String> = Vec::new();
    let mut i: usize = 0;
    while i < v.len()
        invariant
            i <= v@.len(),
            out@.len() == i,
            forall|j: int| 0 <= j < i ==> (#[trigger] out@[j])@ == v@[j]@,
        decreases v@.len() - i,
    {
        out.push(v[i].clone());
        i += 1;
    }
    out
}

/// The reports of all modules.
fn module_reports(v: &Vec<BatteryState>) -> (r: Vec<BatteryModuleDto>)
    ensures
        r@ == v@.map_values(|b: BatteryState| module_report(b)),
{
    let mut out: Vec<BatteryModuleDto> = Vec::new();
    let mut i: usize = 0;
    while i < v.len()
        invariant
            i <= v@.len(),
            out@.len() == i,
            forall|j: int| 0 <= j < i ==> #[trigger] out@[j] == module_report(v@[j]),
        decreases v@.len() - i,
    {
        out.push(BatteryModuleDto::from(&v[i]));
        i += 1;
    }
    assert(out@ =~= v@.map_values(|b: BatteryState| module_report(b)));
    out
}

impl PlantStateDto {
    /// The report of a plant without a schedule.
    pub fn from(s: &PlantState) -> (r: PlantStateDto)
        requires
            calendar::exists_moment(s.timestamp),
        ensures
            reports_plant(r, *s),
            reports_schedule(r.schedule, *s, None),
    {
        PlantStateDto {
            timestamp: format_moment(&s.timestamp),
            inverter_mode: mode_name_of(s.inverter.effective_mode).to_owned(),
            battery_mode: battery_mode_of(s).to_owned(),
            inverter_type: s.config.inverter_type.clone(),
            inverter_ac_power_w: s.inverter.ac_power_w,
            inverter_max_output_w: s.config.max_ac_watts,
            inverter_temperature_celsius: s.inverter.temperature_celsius,
            inverter_temperature_override: s.inverter.temperature_override,
            export_limit_w: s.inverter.export_limit_w,
            charge_power_limit_percent: reported_limit_of(s.battery_charge_limit_percent),
            discharge_power_limit_percent: reported_limit_of(s.battery_discharge_limit_percent),
            arm_firmware_version: shown_firmware_of(
                s.config.inverter_type.as_str(),
                s.inverter.arm_firmware_version,
            ),
            dsp_firmware_version: s.inverter.dsp_firmware_version,
            aggregate_soc: s.battery.soc_percent,
            battery_power_kw: s.battery.power_kw,
            battery_temperature_celsius: s.battery.temperature_celsius,
            battery_module_count: s.batteries.len(),
            battery_modules: module_reports(&s.batteries),
            solar_generation_w: s.solar.generation_w,
            solar_pv1_w: s.solar.pv1_w,
            solar_pv2_w: s.solar.pv2_w,
            pv2_peak_watts: s.config.pv2_peak_watts,
            solar_override: s.solar_override,
            load_demand_w: s.load_demand_w,
            load_override: s.load_override,
            grid_power_w: s.grid.power_w,
            grid_connected: s.grid.connected,
            active_faults: copied(&s.active_faults),
            weather: s.weather.clone(),
            energy_totals: EnergyTotalsDto {
                grid_import_kwh: s.energy_totals.grid_import_kwh,
                grid_export_kwh: s.energy_totals.grid_export_kwh,
                battery_charge_kwh: s.energy_totals.battery_charge_kwh,
                battery_discharge_kwh: s.energy_totals.battery_discharge_kwh,
                solar_generation_kwh: s.energy_totals.solar_generation_kwh,
                load_consumption_kwh: s.energy_totals.load_consumption_kwh,
            },
            schedule: ScheduleDto::from_state(s, None),
            evc: s.evc,
            ct_meter_installed: s.config.ct_meter_installed,
            battery_self_heating: s.inverter.battery_self_heating,
            manual_battery_heater: s.inverter.manual_battery_heater,
            enable_eps: s.enable_eps,
            parallel_aio_num: s.config.parallel_aio_num,
            dongle_misbehaviour: get_dongle_misbehaviour(s.dongle_misbehaviour).to_owned(),
        }
    }

    /// The report of a plant and its schedule.
    pub fn with_schedule(s: &PlantState, plan: Option<&Schedule>) -> (r: PlantStateDto)
        requires
            calendar::exists_moment(s.timestamp),
        ensures
            reports_plant(r, *s),
            reports_schedule(r.schedule, *s, plan),
    {
        let mut dto = PlantStateDto::from(s);
        dto.schedule = ScheduleDto::from_state(s, plan);
        dto
    }
}

/// The report of the current plant, or the refusal where there is none.
pub fn get_current_state(s: Option<&PlantState>, plan: Option<&Schedule>) -> (r: Result<
    PlantStateDto,
    String,
>)
    requires
        s matches Some(p) ==> calendar::exists_moment(p.timestamp),
    ensures
        s is None ==> text::fails_with(r, "No plant created yet"@),
        s matches Some(p) ==> r matches Ok(d) && reports_plant(d, *p) && reports_schedule(
            d.schedule,
            *p,
            plan,
        ),
{
    match s {
        Some(p) => Ok(PlantStateDto::with_schedule(p, plan)),
        None => Err("No plant created yet".to_owned()),
    }
}

/// Law: the mode that a report names is the mode that the name selects.
pub proof fn law_mode_names_lead_back(m: InverterMode)
    ensures
        commands::named_mode(mode_name(m)) == Some(m),
{
    reveal_strlit("Normal");
    reveal_strlit("Eco");
    reveal_strlit("ForceCharge");
    reveal_strlit("ForceDischarge");
    reveal_strlit("ExportLimit");
    assert("Normal"@.len() == 6);
    assert("Eco"@.len() == 3);
    assert("ForceCharge"@.len() == 11);
    assert("ForceDischarge"@.len() == 14);
    assert("ExportLimit"@.len() == 11);
    assert("ForceCharge"@[0] == 'F');
    assert("ExportLimit"@[0] == 'E');
}

} // verus!
