//! What the user interface can rely on in the reports of a plant.
use crate::calendar;
use crate::dto;
use crate::dto::{BatteryModuleDto, PlantStateDto, ScheduleDto};
use crate::fixed;
use crate::schedule::{RawTime, Schedule};
use crate::schedule_laws;
use crate::showing::{plain, words};
use crate::state::{BatteryState, DongleMisbehaviourMode, InverterMode, PlantState};
use vstd::prelude::*;

verus! {

/// Law: the reading kept for a register is the first one that names it.
pub proof fn law_kept_reading(times: Seq<RawTime>, a: int, i: int)
    ensures
        dto::raw_time(times, a) is None <==> forall|j: int|
            0 <= j < times.len() ==> (#[trigger] times[j]).address != a,
        0 <= i < times.len() && times[i].address == a && (forall|j: int|
            0 <= j < i ==> (#[trigger] times[j]).address != a) ==> dto::raw_time(times, a) == Some(
            times[i].value,
        ),
    decreases times.len(),
{
    if times.len() > 0 {
        let rest = times.skip(1);
        law_kept_reading(rest, a, i - 1);
        assert forall|j: int| 0 <= j < rest.len() implies #[trigger] rest[j] == times[j + 1] by {}
        if times[0].address != a {
            if dto::raw_time(times, a) is None {
                assert forall|j: int| 0 <= j < times.len() implies (#[trigger] times[j]).address
                    != a by {
                    if j > 0 {
                        assert(rest[j - 1].address != a);
                    }
                }
            }
        }
    }
}

/// The reading of a time on its own.
proof fn lemma_reading(h: int)
    ensures
        crate::schedule::clock_reading(h) == schedule_laws::reading(h),
{
}

/// Law: the report of a schedule shows the switches, the reserve, the pause and the
/// targets.
pub proof fn law_schedule_report(s: PlantState, p: Schedule, r: ScheduleDto)
    requires
        call_ensures(ScheduleDto::from_state, (&s, Some(&p)), r),
    ensures
        r.enable_charge == p.enable_charge,
        r.enable_discharge == p.enable_discharge,
        r.soc_reserve == s.battery.min_soc_percent,
        r.battery_pause_mode == s.battery_pause_mode,
        r.pause_slot_start == s.battery_pause_slot_start,
        r.pause_slot_end == s.battery_pause_slot_end,
        r.charge_target_soc == p.charge@[0].target_soc,
        r.charge_target_soc_2 == p.charge@[1].target_soc,
        r.charge_target_soc_3 == p.charge@[2].target_soc,
        r.charge_target_soc_4 == p.charge@[3].target_soc,
        r.charge_target_soc_5 == p.charge@[4].target_soc,
        r.charge_target_soc_6 == p.charge@[5].target_soc,
        r.charge_target_soc_7 == p.charge@[6].target_soc,
        r.charge_target_soc_8 == p.charge@[7].target_soc,
        r.charge_target_soc_9 == p.charge@[8].target_soc,
        r.charge_target_soc_10 == p.charge@[9].target_soc,
        r.discharge_target_soc == p.discharge@[0].target_soc,
        r.discharge_target_soc_2 == p.discharge@[1].target_soc,
        r.discharge_target_soc_3 == p.discharge@[2].target_soc,
        r.discharge_target_soc_4 == p.discharge@[3].target_soc,
        r.discharge_target_soc_5 == p.discharge@[4].target_soc,
        r.discharge_target_soc_6 == p.discharge@[5].target_soc,
        r.discharge_target_soc_7 == p.discharge@[6].target_soc,
        r.discharge_target_soc_8 == p.discharge@[7].target_soc,
        r.discharge_target_soc_9 == p.discharge@[8].target_soc,
        r.discharge_target_soc_10 == p.discharge@[9].target_soc,
{
}

/// Law: the report shows the charge slots by their clock readings, and a reading that a
/// client wrote in its place.
#[verifier::rlimit(40)]
pub proof fn law_charge_times(s: PlantState, p: Schedule, r: ScheduleDto)
    requires
        call_ensures(ScheduleDto::from_state, (&s, Some(&p)), r),
    ensures
        r.charge_slot_1_start == (match dto::raw_time(p.raw_times@, 94) {
            Some(v) => v as int,
            None => schedule_laws::reading(p.charge@[0].start@),
        }),
        r.charge_slot_1_end == (match dto::raw_time(p.raw_times@, 95) {
            Some(v) => v as int,
            None => schedule_laws::reading(p.charge@[0].end@),
        }),
        r.charge_slot_3_start == (match dto::raw_time(p.raw_times@, 246) {
            Some(v) => v as int,
            None => schedule_laws::reading(p.charge@[2].start@),
        }),
        r.charge_slot_3_end == (match dto::raw_time(p.raw_times@, 247) {
            Some(v) => v as int,
            None => schedule_laws::reading(p.charge@[2].end@),
        }),
        r.charge_slot_4_start == (match dto::raw_time(p.raw_times@, 249) {
            Some(v) => v as int,
            None => schedule_laws::reading(p.charge@[3].start@),
        }),
        r.charge_slot_4_end == (match dto::raw_time(p.raw_times@, 250) {
            Some(v) => v as int,
            None => schedule_laws::reading(p.charge@[3].end@),
        }),
        r.charge_slot_5_start == (match dto::raw_time(p.raw_times@, 252) {
            Some(v) => v as int,
            None => schedule_laws::reading(p.charge@[4].start@),
        }),
        r.charge_slot_5_end == (match dto::raw_time(p.raw_times@, 253) {
            Some(v) => v as int,
            None => schedule_laws::reading(p.charge@[4].end@),
        }),
        r.charge_slot_6_start == (match dto::raw_time(p.raw_times@, 255) {
            Some(v) => v as int,
            None => schedule_laws::reading(p.charge@[5].start@),
        }),
        r.charge_slot_6_end == (match dto::raw_time(p.raw_times@, 256) {
            Some(v) => v as int,
            None => schedule_laws::reading(p.charge@[5].end@),
        }),
        r.charge_slot_7_start == (match dto::raw_time(p.raw_times@, 258) {
            Some(v) => v as int,
            None => schedule_laws::reading(p.charge@[6].start@),
        }),
        r.charge_slot_7_end == (match dto::raw_time(p.raw_times@, 259) {
            Some(v) => v as int,
            None => schedule_laws::reading(p.charge@[6].end@),
        }),
        r.charge_slot_8_start == (match dto::raw_time(p.raw_times@, 261) {
            Some(v) => v as int,
            None => schedule_laws::reading(p.charge@[7].start@),
        }),
        r.charge_slot_8_end == (match dto::raw_time(p.raw_times@, 262) {
            Some(v) => v as int,
            None => schedule_laws::reading(p.charge@[7].end@),
        }),
        r.charge_slot_9_start == (match dto::raw_time(p.raw_times@, 264) {
            Some(v) => v as int,
            None => schedule_laws::reading(p.charge@[8].start@),
        }),
        r.charge_slot_9_end == (match dto::raw_time(p.raw_times@, 265) {
            Some(v) => v as int,
            None => schedule_laws::reading(p.charge@[8].end@),
        }),
        r.charge_slot_10_start == (match dto::raw_time(p.raw_times@, 267) {
            Some(v) => v as int,
            None => schedule_laws::reading(p.charge@[9].start@),
        }),
        r.charge_slot_10_end == (match dto::raw_time(p.raw_times@, 268) {
            Some(v) => v as int,
            None => schedule_laws::reading(p.charge@[9].end@),
        }),
        r.charge_slot_2_start == (match dto::raw_time(p.raw_times@, 243) {
            Some(v) => v as int,
            None => match dto::raw_time(p.raw_times@, 31) {
                Some(v) => v as int,
                None => schedule_laws::reading(p.charge@[1].start@),
            },
        }),
        r.charge_slot_2_end == (match dto::raw_time(p.raw_times@, 244) {
            Some(v) => v as int,
            None => match dto::raw_time(p.raw_times@, 32) {
                Some(v) => v as int,
                None => schedule_laws::reading(p.charge@[1].end@),
            },
        }),
{
    lemma_reading(p.charge@[0].start@);
    lemma_reading(p.charge@[0].end@);
    lemma_reading(p.charge@[2].start@);
    lemma_reading(p.charge@[2].end@);
    lemma_reading(p.charge@[3].start@);
    lemma_reading(p.charge@[3].end@);
    lemma_reading(p.charge@[4].start@);
    lemma_reading(p.charge@[4].end@);
    lemma_reading(p.charge@[5].start@);
    lemma_reading(p.charge@[5].end@);
    lemma_reading(p.charge@[6].start@);
    lemma_reading(p.charge@[6].end@);
    lemma_reading(p.charge@[7].start@);
    lemma_reading(p.charge@[7].end@);
    lemma_reading(p.charge@[8].start@);
    lemma_reading(p.charge@[8].end@);
    lemma_reading(p.charge@[9].start@);
    lemma_reading(p.charge@[9].end@);
    lemma_reading(p.charge@[1].start@);
    lemma_reading(p.charge@[1].end@);
}

/// Law: the report shows the discharge slots by their clock readings, and a reading that a
/// client wrote in its place.
#[verifier::rlimit(40)]
pub proof fn law_discharge_times(s: PlantState, p: Schedule, r: ScheduleDto)
    requires
        call_ensures(ScheduleDto::from_state, (&s, Some(&p)), r),
    ensures
        r.discharge_slot_1_start == (match dto::raw_time(p.raw_times@, 56) {
            Some(v) => v as int,
            None => schedule_laws::reading(p.discharge@[0].start@),
        }),
        r.discharge_slot_1_end == (match dto::raw_time(p.raw_times@, 57) {
            Some(v) => v as int,
            None => schedule_laws::reading(p.discharge@[0].end@),
        }),
        r.discharge_slot_2_start == (match dto::raw_time(p.raw_times@, 44) {
            Some(v) => v as int,
            None => schedule_laws::reading(p.discharge@[1].start@),
        }),
        r.discharge_slot_2_end == (match dto::raw_time(p.raw_times@, 45) {
            Some(v) => v as int,
            None => schedule_laws::reading(p.discharge@[1].end@),
        }),
        r.discharge_slot_3_start == (match dto::raw_time(p.raw_times@, 276) {
            Some(v) => v as int,
            None => schedule_laws::reading(p.discharge@[2].start@),
        }),
        r.discharge_slot_3_end == (match dto::raw_time(p.raw_times@, 277) {
            Some(v) => v as int,
            None => schedule_laws::reading(p.discharge@[2].end@),
        }),
        r.discharge_slot_4_start == (match dto::raw_time(p.raw_times@, 279) {
            Some(v) => v as int,
            None => schedule_laws::reading(p.discharge@[3].start@),
        }),
        r.discharge_slot_4_end == (match dto::raw_time(p.raw_times@, 280) {
            Some(v) => v as int,
            None => schedule_laws::reading(p.discharge@[3].end@),
        }),
        r.discharge_slot_5_start == (match dto::raw_time(p.raw_times@, 282) {
            Some(v) => v as int,
            None => schedule_laws::reading(p.discharge@[4].start@),
        }),
        r.discharge_slot_5_end == (match dto::raw_time(p.raw_times@, 283) {
            Some(v) => v as int,
            None => schedule_laws::reading(p.discharge@[4].end@),
        }),
        r.discharge_slot_6_start == (match dto::raw_time(p.raw_times@, 285) {
            Some(v) => v as int,
            None => schedule_laws::reading(p.discharge@[5].start@),
        }),
        r.discharge_slot_6_end == (match dto::raw_time(p.raw_times@, 286) {
            Some(v) => v as int,
            None => schedule_laws::reading(p.discharge@[5].end@),
        }),
        r.discharge_slot_7_start == (match dto::raw_time(p.raw_times@, 288) {
            Some(v) => v as int,
            None => schedule_laws::reading(p.discharge@[6].start@),
        }),
        r.discharge_slot_7_end == (match dto::raw_time(p.raw_times@, 289) {
            Some(v) => v as int,
            None => schedule_laws::reading(p.discharge@[6].end@),
        }),
        r.discharge_slot_8_start == (match dto::raw_time(p.raw_times@, 291) {
            Some(v) => v as int,
            None => schedule_laws::reading(p.discharge@[7].start@),
        }),
        r.discharge_slot_8_end == (match dto::raw_time(p.raw_times@, 292) {
            Some(v) => v as int,
            None => schedule_laws::reading(p.discharge@[7].end@),
        }),
        r.discharge_slot_9_start == (match dto::raw_time(p.raw_times@, 294) {
            Some(v) => v as int,
            None => schedule_laws::reading(p.discharge@[8].start@),
        }),
        r.discharge_slot_9_end == (match dto::raw_time(p.raw_times@, 295) {
            Some(v) => v as int,
            None => schedule_laws::reading(p.discharge@[8].end@),
        }),
        r.discharge_slot_10_start == (match dto::raw_time(p.raw_times@, 297) {
            Some(v) => v as int,
            None => schedule_laws::reading(p.discharge@[9].start@),
        }),
        r.discharge_slot_10_end == (match dto::raw_time(p.raw_times@, 298) {
            Some(v) => v as int,
            None => schedule_laws::reading(p.discharge@[9].end@),
        }),
{
    lemma_reading(p.discharge@[0].start@);
    lemma_reading(p.discharge@[0].end@);
    lemma_reading(p.discharge@[1].start@);
    lemma_reading(p.discharge@[1].end@);
    lemma_reading(p.discharge@[2].start@);
    lemma_reading(p.discharge@[2].end@);
    lemma_reading(p.discharge@[3].start@);
    lemma_reading(p.discharge@[3].end@);
    lemma_reading(p.discharge@[4].start@);
    lemma_reading(p.discharge@[4].end@);
    lemma_reading(p.discharge@[5].start@);
    lemma_reading(p.discharge@[5].end@);
    lemma_reading(p.discharge@[6].start@);
    lemma_reading(p.discharge@[6].end@);
    lemma_reading(p.discharge@[7].start@);
    lemma_reading(p.discharge@[7].end@);
    lemma_reading(p.discharge@[8].start@);
    lemma_reading(p.discharge@[8].end@);
    lemma_reading(p.discharge@[9].start@);
    lemma_reading(p.discharge@[9].end@);
}

/// Law: without a schedule the report shows switches that are off, midnight everywhere,
/// and the default targets.
#[verifier::rlimit(40)]
pub proof fn law_no_schedule_report(s: PlantState, r: ScheduleDto)
    requires
        call_ensures(ScheduleDto::from_state, (&s, None), r),
    ensures
        !r.enable_charge,
        !r.enable_discharge,
        r.soc_reserve == s.battery.min_soc_percent,
        r.battery_pause_mode == s.battery_pause_mode,
        r.charge_target_soc@ == 100_000_000,
        r.charge_target_soc_2@ == 100_000_000,
        r.charge_target_soc_3@ == 100_000_000,
        r.charge_target_soc_4@ == 100_000_000,
        r.charge_target_soc_5@ == 100_000_000,
        r.charge_target_soc_6@ == 100_000_000,
        r.charge_target_soc_7@ == 100_000_000,
        r.charge_target_soc_8@ == 100_000_000,
        r.charge_target_soc_9@ == 100_000_000,
        r.charge_target_soc_10@ == 100_000_000,
        r.discharge_target_soc@ == 10_000_000,
        r.discharge_target_soc_2@ == 10_000_000,
        r.discharge_target_soc_3@ == 10_000_000,
        r.discharge_target_soc_4@ == 10_000_000,
        r.discharge_target_soc_5@ == 10_000_000,
        r.discharge_target_soc_6@ == 10_000_000,
        r.discharge_target_soc_7@ == 10_000_000,
        r.discharge_target_soc_8@ == 10_000_000,
        r.discharge_target_soc_9@ == 10_000_000,
        r.discharge_target_soc_10@ == 10_000_000,
        r.charge_slot_1_start == 0,
        r.charge_slot_1_end == 0,
        r.charge_slot_3_start == 0,
        r.charge_slot_3_end == 0,
        r.charge_slot_4_start == 0,
        r.charge_slot_4_end == 0,
        r.charge_slot_5_start == 0,
        r.charge_slot_5_end == 0,
        r.charge_slot_6_start == 0,
        r.charge_slot_6_end == 0,
        r.charge_slot_7_start == 0,
        r.charge_slot_7_end == 0,
        r.charge_slot_8_start == 0,
        r.charge_slot_8_end == 0,
        r.charge_slot_9_start == 0,
        r.charge_slot_9_end == 0,
        r.charge_slot_10_start == 0,
        r.charge_slot_10_end == 0,
        r.discharge_slot_1_start == 0,
        r.discharge_slot_1_end == 0,
        r.discharge_slot_2_start == 0,
        r.discharge_slot_2_end == 0,
        r.discharge_slot_3_start == 0,
        r.discharge_slot_3_end == 0,
        r.discharge_slot_4_start == 0,
        r.discharge_slot_4_end == 0,
        r.discharge_slot_5_start == 0,
        r.discharge_slot_5_end == 0,
        r.discharge_slot_6_start == 0,
        r.discharge_slot_6_end == 0,
        r.discharge_slot_7_start == 0,
        r.discharge_slot_7_end == 0,
        r.discharge_slot_8_start == 0,
        r.discharge_slot_8_end == 0,
        r.discharge_slot_9_start == 0,
        r.discharge_slot_9_end == 0,
        r.discharge_slot_10_start == 0,
        r.discharge_slot_10_end == 0,
        r.charge_slot_2_start == 0,
        r.charge_slot_2_end == 0,
{
    fixed::lemma_fixed_of(10_000_000);
    fixed::lemma_fixed_of(100_000_000);
    assert(fixed::nearest(0, 1_000_000) == 0);
}

/// Law: the report of a module shows its own readings.
pub proof fn law_module_report(b: BatteryState, r: BatteryModuleDto)
    requires
        call_ensures(BatteryModuleDto::from, (&b,), r),
    ensures
        r.soc_percent == b.soc_percent,
        r.power_kw == b.power_kw,
        r.voltage_v == b.voltage_v,
        r.current_a == b.current_a,
        r.temperature_celsius == b.temperature_celsius,
        r.capacity_kwh == b.capacity_kwh,
        r.nominal_capacity_kwh == b.nominal_capacity_kwh,
        r.soh == b.soh,
        r.cycle_count == b.cycle_count,
{
}

/// Law: the report of a plant shows each reading under its name.
pub proof fn law_plant_report(s: PlantState, r: PlantStateDto, i: int)
    requires
        call_ensures(PlantStateDto::from, (&s,), r),
    ensures
        r.inverter_ac_power_w == s.inverter.ac_power_w,
        r.inverter_max_output_w == s.config.max_ac_watts,
        r.inverter_temperature_celsius == s.inverter.temperature_celsius,
        r.inverter_temperature_override == s.inverter.temperature_override,
        r.export_limit_w == s.inverter.export_limit_w,
        r.dsp_firmware_version == s.inverter.dsp_firmware_version,
        r.aggregate_soc == s.battery.soc_percent,
        r.battery_power_kw == s.battery.power_kw,
        r.battery_temperature_celsius == s.battery.temperature_celsius,
        r.solar_generation_w == s.solar.generation_w,
        r.solar_pv1_w == s.solar.pv1_w,
        r.solar_pv2_w == s.solar.pv2_w,
        r.pv2_peak_watts == s.config.pv2_peak_watts,
        r.solar_override == s.solar_override,
        r.load_demand_w == s.load_demand_w,
        r.load_override == s.load_override,
        r.grid_power_w == s.grid.power_w,
        r.grid_connected == s.grid.connected,
        r.evc == s.evc,
        r.ct_meter_installed == s.config.ct_meter_installed,
        r.battery_self_heating == s.inverter.battery_self_heating,
        r.manual_battery_heater == s.inverter.manual_battery_heater,
        r.enable_eps == s.enable_eps,
        r.parallel_aio_num == s.config.parallel_aio_num,
        r.energy_totals.grid_import_kwh == s.energy_totals.grid_import_kwh,
        r.energy_totals.grid_export_kwh == s.energy_totals.grid_export_kwh,
        r.energy_totals.battery_charge_kwh == s.energy_totals.battery_charge_kwh,
        r.energy_totals.battery_discharge_kwh == s.energy_totals.battery_discharge_kwh,
        r.energy_totals.solar_generation_kwh == s.energy_totals.solar_generation_kwh,
        r.energy_totals.load_consumption_kwh == s.energy_totals.load_consumption_kwh,
        r.inverter_type@ == s.config.inverter_type@,
        r.weather@ == s.weather@,
        r.timestamp@ == calendar::moment_text(s.timestamp),
        r.battery_module_count == s.batteries@.len(),
        r.battery_modules@.len() == s.batteries@.len(),
        0 <= i < s.batteries@.len() ==> {
            &&& r.battery_modules@[i].soc_percent == s.batteries@[i].soc_percent
            &&& r.battery_modules@[i].power_kw == s.batteries@[i].power_kw
            &&& r.battery_modules@[i].voltage_v == s.batteries@[i].voltage_v
            &&& r.battery_modules@[i].current_a == s.batteries@[i].current_a
            &&& r.battery_modules@[i].temperature_celsius == s.batteries@[i].temperature_celsius
            &&& r.battery_modules@[i].capacity_kwh == s.batteries@[i].capacity_kwh
            &&& r.battery_modules@[i].nominal_capacity_kwh == s.batteries@[i].nominal_capacity_kwh
            &&& r.battery_modules@[i].soh == s.batteries@[i].soh
            &&& r.battery_modules@[i].cycle_count == s.batteries@[i].cycle_count
        },
        r.active_faults@.len() == s.active_faults@.len(),
        0 <= i < s.active_faults@.len() ==> r.active_faults@[i]@ == s.active_faults@[i]@,
        r.arm_firmware_version == plain::firmware(
            s.config.inverter_type@,
            s.inverter.arm_firmware_version as int,
        ),
        s.battery_charge_limit_percent@ > 0 ==> r.charge_power_limit_percent
            == s.battery_charge_limit_percent,
        s.battery_charge_limit_percent@ <= 0 ==> r.charge_power_limit_percent@ == 100_000_000,
        s.battery_discharge_limit_percent@ > 0 ==> r.discharge_power_limit_percent
            == s.battery_discharge_limit_percent,
        s.battery_discharge_limit_percent@ <= 0 ==> r.discharge_power_limit_percent@ == 100_000_000,
{
    words::lemma_types(s.config.inverter_type@);
    fixed::lemma_fixed_of(100_000_000);
}

/// Law: the report of a plant names its mode, what its battery does, and what its dongle
/// does. A schedule at work comes before the mode, and a reserve of a hundred percent
/// pauses the eco mode.
pub proof fn law_reported_names(s: PlantState, r: PlantStateDto)
    requires
        call_ensures(PlantStateDto::from, (&s,), r),
    ensures
        r.inverter_mode@ == (match s.inverter.effective_mode {
            InverterMode::Normal => "Normal"@,
            InverterMode::Eco => "Eco"@,
            InverterMode::ForceCharge => "ForceCharge"@,
            InverterMode::ForceDischarge => "ForceDischarge"@,
            InverterMode::ExportLimit => "ExportLimit"@,
        }),
        s.scheduled_charge ==> r.battery_mode@ == "ScheduledCharge"@,
        !s.scheduled_charge && s.scheduled_discharge ==> r.battery_mode@ == "ScheduledDischarge"@,
        !s.scheduled_charge && !s.scheduled_discharge ==> r.battery_mode@ == (match s.inverter.effective_mode {
            InverterMode::Normal => "ExportPaused"@,
            InverterMode::Eco => if plain::word(s.battery.min_soc_percent@, 1_000_000) == 100 {
                "EcoPaused"@
            } else {
                "Eco"@
            },
            InverterMode::ForceCharge => "ForceCharge"@,
            InverterMode::ForceDischarge => "TimedExport"@,
            InverterMode::ExportLimit => "ExportPaused"@,
        }),
        r.dongle_misbehaviour@ == (match s.dongle_misbehaviour {
            DongleMisbehaviourMode::Off => "Off"@,
            DongleMisbehaviourMode::EmptyData => "EmptyData"@,
            DongleMisbehaviourMode::StaleData => "StaleData"@,
            DongleMisbehaviourMode::GarbageData => "GarbageData"@,
            DongleMisbehaviourMode::DropConnection => "DropConnection"@,
            DongleMisbehaviourMode::Intermittent => "Intermittent"@,
        }),
{
}

/// Law: the report of a plant with its schedule shows each reading under its name, and the
/// schedule as it is reported on its own.
pub proof fn law_scheduled_report(
    s: PlantState,
    plan: Option<&Schedule>,
    r: PlantStateDto,
    q: ScheduleDto,
    i: int,
)
    requires
        call_ensures(PlantStateDto::with_schedule, (&s, plan), r),
        call_ensures(ScheduleDto::from_state, (&s, plan), q),
    ensures
        r.schedule == q,
        r.inverter_ac_power_w == s.inverter.ac_power_w,
        r.inverter_max_output_w == s.config.max_ac_watts,
        r.inverter_temperature_celsius == s.inverter.temperature_celsius,
        r.inverter_temperature_override == s.inverter.temperature_override,
        r.export_limit_w == s.inverter.export_limit_w,
        r.dsp_firmware_version == s.inverter.dsp_firmware_version,
        r.aggregate_soc == s.battery.soc_percent,
        r.battery_power_kw == s.battery.power_kw,
        r.battery_temperature_celsius == s.battery.temperature_celsius,
        r.solar_generation_w == s.solar.generation_w,
        r.solar_pv1_w == s.solar.pv1_w,
        r.solar_pv2_w == s.solar.pv2_w,
        r.pv2_peak_watts == s.config.pv2_peak_watts,
        r.solar_override == s.solar_override,
        r.load_demand_w == s.load_demand_w,
        r.load_override == s.load_override,
        r.grid_power_w == s.grid.power_w,
        r.grid_connected == s.grid.connected,
        r.evc == s.evc,
        r.ct_meter_installed == s.config.ct_meter_installed,
        r.battery_self_heating == s.inverter.battery_self_heating,
        r.manual_battery_heater == s.inverter.manual_battery_heater,
        r.enable_eps == s.enable_eps,
        r.parallel_aio_num == s.config.parallel_aio_num,
        r.energy_totals.grid_import_kwh == s.energy_totals.grid_import_kwh,
        r.energy_totals.grid_export_kwh == s.energy_totals.grid_export_kwh,
        r.energy_totals.battery_charge_kwh == s.energy_totals.battery_charge_kwh,
        r.energy_totals.battery_discharge_kwh == s.energy_totals.battery_discharge_kwh,
        r.energy_totals.solar_generation_kwh == s.energy_totals.solar_generation_kwh,
        r.energy_totals.load_consumption_kwh == s.energy_totals.load_consumption_kwh,
        r.inverter_type@ == s.config.inverter_type@,
        r.weather@ == s.weather@,
        r.timestamp@ == calendar::moment_text(s.timestamp),
        r.battery_module_count == s.batteries@.len(),
        r.battery_modules@.len() == s.batteries@.len(),
        0 <= i < s.batteries@.len() ==> {
            &&& r.battery_modules@[i].soc_percent == s.batteries@[i].soc_percent
            &&& r.battery_modules@[i].power_kw == s.batteries@[i].power_kw
            &&& r.battery_modules@[i].voltage_v == s.batteries@[i].voltage_v
            &&& r.battery_modules@[i].current_a == s.batteries@[i].current_a
            &&& r.battery_modules@[i].temperature_celsius == s.batteries@[i].temperature_celsius
            &&& r.battery_modules@[i].capacity_kwh == s.batteries@[i].capacity_kwh
            &&& r.battery_modules@[i].nominal_capacity_kwh == s.batteries@[i].nominal_capacity_kwh
            &&& r.battery_modules@[i].soh == s.batteries@[i].soh
            &&& r.battery_modules@[i].cycle_count == s.batteries@[i].cycle_count
        },
        r.active_faults@.len() == s.active_faults@.len(),
        0 <= i < s.active_faults@.len() ==> r.active_faults@[i]@ == s.active_faults@[i]@,
        r.arm_firmware_version == plain::firmware(
            s.config.inverter_type@,
            s.inverter.arm_firmware_version as int,
        ),
        s.battery_charge_limit_percent@ > 0 ==> r.charge_power_limit_percent
            == s.battery_charge_limit_percent,
        s.battery_charge_limit_percent@ <= 0 ==> r.charge_power_limit_percent@ == 100_000_000,
        s.battery_discharge_limit_percent@ > 0 ==> r.discharge_power_limit_percent
            == s.battery_discharge_limit_percent,
        s.battery_discharge_limit_percent@ <= 0 ==> r.discharge_power_limit_percent@ == 100_000_000,
{
    words::lemma_types(s.config.inverter_type@);
    fixed::lemma_fixed_of(100_000_000);
}

/// Law: the report of a plant with its schedule names its mode, what its battery does,
/// and what its dongle
/// does. A schedule at work comes before the mode, and a reserve of a hundred percent
/// pauses the eco mode.
pub proof fn law_scheduled_names(s: PlantState, plan: Option<&Schedule>, r: PlantStateDto)
    requires
        call_ensures(PlantStateDto::with_schedule, (&s, plan), r),
    ensures
        r.inverter_mode@ == (match s.inverter.effective_mode {
            InverterMode::Normal => "Normal"@,
            InverterMode::Eco => "Eco"@,
            InverterMode::ForceCharge => "ForceCharge"@,
            InverterMode::ForceDischarge => "ForceDischarge"@,
            InverterMode::ExportLimit => "ExportLimit"@,
        }),
        s.scheduled_charge ==> r.battery_mode@ == "ScheduledCharge"@,
        !s.scheduled_charge && s.scheduled_discharge ==> r.battery_mode@ == "ScheduledDischarge"@,
        !s.scheduled_charge && !s.scheduled_discharge ==> r.battery_mode@ == (match s.inverter.effective_mode {
            InverterMode::Normal => "ExportPaused"@,
            InverterMode::Eco => if plain::word(s.battery.min_soc_percent@, 1_000_000) == 100 {
                "EcoPaused"@
            } else {
                "Eco"@
            },
            InverterMode::ForceCharge => "ForceCharge"@,
            InverterMode::ForceDischarge => "TimedExport"@,
            InverterMode::ExportLimit => "ExportPaused"@,
        }),
        r.dongle_misbehaviour@ == (match s.dongle_misbehaviour {
            DongleMisbehaviourMode::Off => "Off"@,
            DongleMisbehaviourMode::EmptyData => "EmptyData"@,
            DongleMisbehaviourMode::StaleData => "StaleData"@,
            DongleMisbehaviourMode::GarbageData => "GarbageData"@,
            DongleMisbehaviourMode::DropConnection => "DropConnection"@,
            DongleMisbehaviourMode::Intermittent => "Intermittent"@,
        }),
{
}

/// Law: the current report shows each reading under its name, and the schedule.
pub proof fn law_current_report(
    s: PlantState,
    plan: Option<&Schedule>,
    current: Result<PlantStateDto,
    String>,
    r: PlantStateDto,
    q: ScheduleDto,
    i: int,
)
    requires
        call_ensures(dto::get_current_state, (Some(&s), plan), current),
        current == Ok::<PlantStateDto, String>(r),
        call_ensures(ScheduleDto::from_state, (&s, plan), q),
    ensures
        r.schedule == q,
        r.inverter_ac_power_w == s.inverter.ac_power_w,
        r.inverter_max_output_w == s.config.max_ac_watts,
        r.inverter_temperature_celsius == s.inverter.temperature_celsius,
        r.inverter_temperature_override == s.inverter.temperature_override,
        r.export_limit_w == s.inverter.export_limit_w,
        r.dsp_firmware_version == s.inverter.dsp_firmware_version,
        r.aggregate_soc == s.battery.soc_percent,
        r.battery_power_kw == s.battery.power_kw,
        r.battery_temperature_celsius == s.battery.temperature_celsius,
        r.solar_generation_w == s.solar.generation_w,
        r.solar_pv1_w == s.solar.pv1_w,
        r.solar_pv2_w == s.solar.pv2_w,
        r.pv2_peak_watts == s.config.pv2_peak_watts,
        r.solar_override == s.solar_override,
        r.load_demand_w == s.load_demand_w,
        r.load_override == s.load_override,
        r.grid_power_w == s.grid.power_w,
        r.grid_connected == s.grid.connected,
        r.evc == s.evc,
        r.ct_meter_installed == s.config.ct_meter_installed,
        r.battery_self_heating == s.inverter.battery_self_heating,
        r.manual_battery_heater == s.inverter.manual_battery_heater,
        r.enable_eps == s.enable_eps,
        r.parallel_aio_num == s.config.parallel_aio_num,
        r.energy_totals.grid_import_kwh == s.energy_totals.grid_import_kwh,
        r.energy_totals.grid_export_kwh == s.energy_totals.grid_export_kwh,
        r.energy_totals.battery_charge_kwh == s.energy_totals.battery_charge_kwh,
        r.energy_totals.battery_discharge_kwh == s.energy_totals.battery_discharge_kwh,
        r.energy_totals.solar_generation_kwh == s.energy_totals.solar_generation_kwh,
        r.energy_totals.load_consumption_kwh == s.energy_totals.load_consumption_kwh,
        r.inverter_type@ == s.config.inverter_type@,
        r.weather@ == s.weather@,
        r.timestamp@ == calendar::moment_text(s.timestamp),
        r.battery_module_count == s.batteries@.len(),
        r.battery_modules@.len() == s.batteries@.len(),
        0 <= i < s.batteries@.len() ==> {
            &&& r.battery_modules@[i].soc_percent == s.batteries@[i].soc_percent
            &&& r.battery_modules@[i].power_kw == s.batteries@[i].power_kw
            &&& r.battery_modules@[i].voltage_v == s.batteries@[i].voltage_v
            &&& r.battery_modules@[i].current_a == s.batteries@[i].current_a
            &&& r.battery_modules@[i].temperature_celsius == s.batteries@[i].temperature_celsius
            &&& r.battery_modules@[i].capacity_kwh == s.batteries@[i].capacity_kwh
            &&& r.battery_modules@[i].nominal_capacity_kwh == s.batteries@[i].nominal_capacity_kwh
            &&& r.battery_modules@[i].soh == s.batteries@[i].soh
            &&& r.battery_modules@[i].cycle_count == s.batteries@[i].cycle_count
        },
        r.active_faults@.len() == s.active_faults@.len(),
        0 <= i < s.active_faults@.len() ==> r.active_faults@[i]@ == s.active_faults@[i]@,
        r.arm_firmware_version == plain::firmware(
            s.config.inverter_type@,
            s.inverter.arm_firmware_version as int,
        ),
        s.battery_charge_limit_percent@ > 0 ==> r.charge_power_limit_percent
            == s.battery_charge_limit_percent,
        s.battery_charge_limit_percent@ <= 0 ==> r.charge_power_limit_percent@ == 100_000_000,
        s.battery_discharge_limit_percent@ > 0 ==> r.discharge_power_limit_percent
            == s.battery_discharge_limit_percent,
        s.battery_discharge_limit_percent@ <= 0 ==> r.discharge_power_limit_percent@ == 100_000_000,
{
    words::lemma_types(s.config.inverter_type@);
    fixed::lemma_fixed_of(100_000_000);
}

/// Law: there is a current report exactly where there is a plant.
pub proof fn law_current_or_none(
    s: PlantState,
    plan: Option<&Schedule>,
    with: Result<PlantStateDto, String>,
    without: Result<PlantStateDto, String>,
)
    requires
        call_ensures(dto::get_current_state, (Some(&s), plan), with),
        call_ensures(dto::get_current_state, (None, plan), without),
    ensures
        with is Ok,
        without matches Err(m) && m@ == "No plant created yet"@,
{
}

} // verus!
