//! Three-phase input registers, IR 1001-1413.
use crate::fixed;
use crate::fixed::{
    high_half_of, low_half_of, magnitude_of, positive_part_of, signed_cut_word_of, signed_wide_of,
    twos_complement_of, wide_of, MAX_MICROS,
};
use crate::model;
use crate::model::{is_three_phase_inverter, shown_firmware_of};
use crate::projection;
use crate::projection::scaled_of;
use crate::state;
use crate::state::{has_fault, module_total_of, ModuleQuantity, PlantState};
use crate::text::same;
use vstd::prelude::*;

verus! {

/// Current of the battery stack in tenths of an ampere, positive while
/// discharging, as a signed word. Without a voltage the word is at the limit of
/// its range on the side of the flow, and zero where nothing flows.
pub open spec fn stack_current(power_kw: int, voltage: int) -> int {
    if voltage > 0 {
        fixed::signed_cut_word(-(power_kw * 10_000), voltage)
    } else if voltage < 0 {
        fixed::signed_cut_word(power_kw * 10_000, -voltage)
    } else if power_kw > 0 {
        fixed::twos_complement(-32768)
    } else if power_kw < 0 {
        fixed::twos_complement(32767)
    } else {
        0
    }
}

/// Current of the battery stack as a signed word.
fn stack_current_of(s: &PlantState) -> (r: u16)
    ensures
        r == stack_current(
            s.battery.power_kw@,
            state::module_total(s.batteries@, ModuleQuantity::Voltage),
        ),
{
    let power: i128 = s.battery.power_kw.exact();
    let voltage: i128 = module_total_of(s.batteries.as_slice(), ModuleQuantity::Voltage);
    if voltage > 0 {
        signed_cut_word_of(-(power * 10_000), voltage)
    } else if voltage < 0 {
        signed_cut_word_of(power * 10_000, -voltage)
    } else if power > 0 {
        twos_complement_of(-32768)
    } else if power < 0 {
        twos_complement_of(32767)
    } else {
        0
    }
}

/// Whether `name` is one of the eight fault-word registers.
pub open spec fn is_fault_register(name: Seq<char>) -> bool {
    name == "ge_ir_threephase_fault_0"@
        || name == "ge_ir_threephase_fault_1"@
        || name == "ge_ir_threephase_fault_2"@
        || name == "ge_ir_threephase_fault_3"@
        || name == "ge_ir_threephase_fault_4"@
        || name == "ge_ir_threephase_fault_5"@
        || name == "ge_ir_threephase_fault_6"@
        || name == "ge_ir_threephase_fault_7"@
}

/// The fault word at index `i` of a three-phase inverter (IR 1300-1307). The bits
/// are those of the named-fault decoders. Single-phase units show zero here.
pub open spec fn three_phase_faults(i: int, s: PlantState) -> int {
    let faults = s.active_faults@;
    if !model::three_phase(s.config.inverter_type@) {
        0
    } else if i == 1 {
        (if state::fault_active(faults, "grid_loss"@) {
            0x1int
        } else {
            0
        }) + (if state::fault_active(faults, "comm_timeout"@) {
            0x8000int
        } else {
            0
        })
    } else if i == 5 {
        (if state::fault_active(faults, "inverter_trip"@) {
            0x10int
        } else {
            0
        }) + (if state::fault_active(faults, "sensor_drift"@) {
            0x2000int
        } else {
            0
        })
    } else if i == 7 && state::fault_active(faults, "battery_over_temp"@) {
        0x200
    } else {
        0
    }
}

/// Whether `name` is one of the eight fault-word registers.
pub fn is_fault_register_name(name: &str) -> (r: bool)
    ensures
        r == is_fault_register(name@),
{
    same(name, "ge_ir_threephase_fault_0")
        || same(name, "ge_ir_threephase_fault_1")
        || same(name, "ge_ir_threephase_fault_2")
        || same(name, "ge_ir_threephase_fault_3")
        || same(name, "ge_ir_threephase_fault_4")
        || same(name, "ge_ir_threephase_fault_5")
        || same(name, "ge_ir_threephase_fault_6")
        || same(name, "ge_ir_threephase_fault_7")
}

/// The fault word at index `i` of a three-phase inverter.
pub fn three_phase_faults_of(i: u16, s: &PlantState) -> (r: u16)
    ensures
        r == three_phase_faults(i as int, *s),
{
    if !is_three_phase_inverter(s.config.inverter_type.as_str()) {
        return 0;
    }
    let mut word: u16 = 0;
    if i == 1 {
        if has_fault(&s.active_faults, "grid_loss") {
            word = word + 0x1;
        }
        if has_fault(&s.active_faults, "comm_timeout") {
            word = word + 0x8000;
        }
    } else if i == 5 {
        if has_fault(&s.active_faults, "inverter_trip") {
            word = word + 0x10;
        }
        if has_fault(&s.active_faults, "sensor_drift") {
            word = word + 0x2000;
        }
    } else if i == 7 {
        if has_fault(&s.active_faults, "battery_over_temp") {
            word = 0x200;
        }
    }
    word
}

/// IR 1001-1190: what the register `name` shows.
pub open spec fn three_phase_power(name: Seq<char>, scale: int, s: PlantState) -> Option<int> {
    if name == "tph_ir_pv1_voltage"@ {
        Some(
            if s.solar.pv1_w@ > 0 {
                projection::scaled(350_000_000, 1, scale)
            } else {
                projection::scaled(0, 1, scale)
            },
        )
    } else if name == "tph_ir_pv2_voltage"@ {
        Some(
            if s.config.pv2_peak_watts@ > 0 {
                projection::scaled(350_000_000, 1, scale)
            } else {
                projection::scaled(0, 1, scale)
            },
        )
    } else if name == "tph_ir_pv1_current"@ {
        Some(projection::scaled(s.solar.pv1_w@, 350, scale))
    } else if name == "tph_ir_pv2_current"@ {
        Some(projection::scaled(s.solar.pv2_w@, 350, scale))
    } else if name == "tph_ir_pv1_power_high"@ {
        Some(fixed::high_half(fixed::wide(s.solar.pv1_w@, 100_000)))
    } else if name == "tph_ir_pv1_power_low"@ {
        Some(fixed::low_half(fixed::wide(s.solar.pv1_w@, 100_000)))
    } else if name == "tph_ir_pv2_power_high"@ {
        Some(fixed::high_half(fixed::wide(s.solar.pv2_w@, 100_000)))
    } else if name == "tph_ir_pv2_power_low"@ {
        Some(fixed::low_half(fixed::wide(s.solar.pv2_w@, 100_000)))
    } else if name == "tph_ir_v_ac1"@ || name == "tph_ir_v_ac2"@ || name == "tph_ir_v_ac3"@ {
        Some(
            if !s.grid.connected {
                projection::scaled(0, 1, scale)
            } else if model::three_phase(s.config.inverter_type@) {
                projection::scaled(416_000_000, 1, scale)
            } else {
                projection::scaled(240_000_000, 1, scale)
            },
        )
    } else if name == "tph_ir_i_ac1"@ || name == "tph_ir_i_ac2"@ || name == "tph_ir_i_ac3"@ {
        Some(
            if !s.grid.connected {
                projection::scaled(0, 1, scale)
            } else if model::three_phase(s.config.inverter_type@) {
                projection::scaled(fixed::magnitude(s.grid.power_w@), 720, scale)
            } else {
                projection::scaled(fixed::magnitude(s.inverter.ac_power_w@), 720, scale)
            },
        )
    } else if name == "tph_ir_f_ac1"@ {
        Some(
            if s.grid.connected {
                projection::scaled(50_000_000, 1, scale)
            } else {
                projection::scaled(0, 1, scale)
            },
        )
    } else if name == "tph_ir_power_factor"@ {
        Some(projection::scaled(10_000_000_000, 1, scale))
    } else if name == "tph_ir_p_inverter_out_high"@ {
        Some(fixed::high_half(fixed::signed_wide(s.inverter.ac_power_w@, 100_000)))
    } else if name == "tph_ir_p_inverter_out_low"@ {
        Some(fixed::low_half(fixed::signed_wide(s.inverter.ac_power_w@, 100_000)))
    } else if name == "tph_ir_p_grid_apparent_high"@ {
        Some(fixed::high_half(fixed::wide(fixed::magnitude(s.inverter.ac_power_w@), 100_000)))
    } else if name == "tph_ir_p_grid_apparent_low"@ {
        Some(fixed::low_half(fixed::wide(fixed::magnitude(s.inverter.ac_power_w@), 100_000)))
    } else if name == "tph_ir_p_meter_import_high"@ {
        Some(fixed::high_half(fixed::wide(fixed::positive_part(s.grid.power_w@), 100_000)))
    } else if name == "tph_ir_p_meter_import_low"@ {
        Some(fixed::low_half(fixed::wide(fixed::positive_part(s.grid.power_w@), 100_000)))
    } else if name == "tph_ir_p_meter_export_high"@ {
        Some(fixed::high_half(fixed::wide(fixed::positive_part(-s.grid.power_w@), 100_000)))
    } else if name == "tph_ir_p_meter_export_low"@ {
        Some(fixed::low_half(fixed::wide(fixed::positive_part(-s.grid.power_w@), 100_000)))
    } else if name == "tph_ir_p_export_high"@ {
        Some(fixed::high_half(fixed::wide(fixed::positive_part(-s.grid.power_w@), 100_000)))
    } else if name == "tph_ir_p_export_low"@ {
        Some(fixed::low_half(fixed::wide(fixed::positive_part(-s.grid.power_w@), 100_000)))
    } else if name == "tph_ir_p_meter2_high"@ || name == "tph_ir_p_meter2_low"@ {
        Some(0)
    } else if name == "tph_ir_system_mode"@ {
        Some(
            if s.active_faults@.len() > 0 {
                projection::scaled(3_000_000, 1, scale)
            } else if s.grid.connected {
                projection::scaled(2_000_000, 1, scale)
            } else {
                projection::scaled(1_000_000, 1, scale)
            },
        )
    } else if name == "tph_ir_status"@ || name == "tph_ir_dc_status"@ {
        Some(projection::scaled(1_000_000, 1, scale))
    } else if name == "tph_ir_p_load_ac1"@
        || name == "tph_ir_p_load_ac2"@
        || name == "tph_ir_p_load_ac3"@ {
        Some(projection::scaled(s.load_demand_w@, 3, scale))
    } else if name == "tph_ir_p_load_all_high"@ {
        Some(fixed::high_half(fixed::wide(s.load_demand_w@, 100_000)))
    } else if name == "tph_ir_p_load_all_low"@ {
        Some(fixed::low_half(fixed::wide(s.load_demand_w@, 100_000)))
    } else if name == "tph_ir_t_inverter"@ {
        Some(projection::scaled(s.inverter.temperature_celsius@, 1, scale))
    } else if name == "tph_ir_t_boost"@ {
        Some(projection::scaled(s.inverter.temperature_celsius@ - 2_000_000, 1, scale))
    } else if name == "tph_ir_t_buck_boost"@ {
        Some(projection::scaled(s.inverter.temperature_celsius@ + 3_000_000, 1, scale))
    } else if name == "tph_ir_v_battery_bms"@ || name == "tph_ir_v_battery_pcs"@ {
        Some(projection::scaled(state::module_total(s.batteries@, ModuleQuantity::Voltage), 1, scale))
    } else if name == "tph_ir_battery_soc"@ {
        Some(projection::scaled(s.battery.soc_percent@, 1, scale))
    } else if name == "tph_ir_p_battery_discharge_high"@ {
        Some(fixed::high_half(fixed::wide(fixed::positive_part(-s.battery.power_kw@) * 1000, 100_000)))
    } else if name == "tph_ir_p_battery_discharge_low"@ {
        Some(fixed::low_half(fixed::wide(fixed::positive_part(-s.battery.power_kw@) * 1000, 100_000)))
    } else if name == "tph_ir_p_battery_charge_high"@ {
        Some(fixed::high_half(fixed::wide(fixed::positive_part(s.battery.power_kw@) * 1000, 100_000)))
    } else if name == "tph_ir_p_battery_charge_low"@ {
        Some(fixed::low_half(fixed::wide(fixed::positive_part(s.battery.power_kw@) * 1000, 100_000)))
    } else if name == "tph_ir_v_dc_bus"@ || name == "tph_ir_v_inv_bus"@ {
        Some(projection::scaled(380_000_000, 1, scale))
    } else if name == "tph_ir_i_battery"@ {
        Some(stack_current(s.battery.power_kw@, state::module_total(s.batteries@, ModuleQuantity::Voltage)))
    } else if name == "tph_ir_f_nominal_eps"@ {
        Some(
            if s.enable_eps {
                projection::scaled(50_000_000, 1, scale)
            } else {
                projection::scaled(0, 1, scale)
            },
        )
    } else if name == "tph_ir_v_eps_ac1"@
        || name == "tph_ir_v_eps_ac2"@
        || name == "tph_ir_v_eps_ac3"@ {
        Some(
            if s.enable_eps {
                projection::scaled(240_000_000, 1, scale)
            } else {
                projection::scaled(0, 1, scale)
            },
        )
    } else if name == "tph_ir_ac_dsp_firmware_version"@
        || name == "tph_ir_dc_dsp_firmware_version"@ {
        Some(s.inverter.dsp_firmware_version as int)
    } else if name == "tph_ir_arm_firmware_version"@ {
        Some(model::shown_firmware(s.config.inverter_type@, s.inverter.arm_firmware_version as int))
    } else {
        None
    }
}

/// IR 1360-1413: what the register `name` shows.
pub open spec fn three_phase_energy(name: Seq<char>, scale: int, s: PlantState) -> Option<int> {
    if name == "tph_ir_e_pv1_today_high"@ {
        Some(fixed::high_half(fixed::wide(s.energy_totals.solar_generation_kwh@, 200_000)))
    } else if name == "tph_ir_e_pv1_today_low"@ {
        Some(fixed::low_half(fixed::wide(s.energy_totals.solar_generation_kwh@, 200_000)))
    } else if name == "tph_ir_e_pv2_today_high"@ {
        Some(fixed::high_half(fixed::wide(s.energy_totals.solar_generation_kwh@, 200_000)))
    } else if name == "tph_ir_e_pv2_today_low"@ {
        Some(fixed::low_half(fixed::wide(s.energy_totals.solar_generation_kwh@, 200_000)))
    } else if name == "tph_ir_e_pv1_total_high"@ {
        Some(fixed::high_half(fixed::wide(s.energy_totals.solar_generation_kwh@, 200_000)))
    } else if name == "tph_ir_e_pv1_total_low"@ {
        Some(fixed::low_half(fixed::wide(s.energy_totals.solar_generation_kwh@, 200_000)))
    } else if name == "tph_ir_e_pv2_total_high"@ {
        Some(fixed::high_half(fixed::wide(s.energy_totals.solar_generation_kwh@, 200_000)))
    } else if name == "tph_ir_e_pv2_total_low"@ {
        Some(fixed::low_half(fixed::wide(s.energy_totals.solar_generation_kwh@, 200_000)))
    } else if name == "tph_ir_e_import_today_high"@ {
        Some(fixed::high_half(fixed::wide(s.energy_totals.grid_import_kwh@, 100_000)))
    } else if name == "tph_ir_e_import_today_low"@ {
        Some(fixed::low_half(fixed::wide(s.energy_totals.grid_import_kwh@, 100_000)))
    } else if name == "tph_ir_e_export_today_high"@ {
        Some(fixed::high_half(fixed::wide(s.energy_totals.grid_export_kwh@, 100_000)))
    } else if name == "tph_ir_e_export_today_low"@ {
        Some(fixed::low_half(fixed::wide(s.energy_totals.grid_export_kwh@, 100_000)))
    } else if name == "tph_ir_e_battery_discharge_today_high"@ {
        Some(fixed::high_half(fixed::wide(s.energy_totals.battery_discharge_kwh@, 100_000)))
    } else if name == "tph_ir_e_battery_discharge_today_low"@ {
        Some(fixed::low_half(fixed::wide(s.energy_totals.battery_discharge_kwh@, 100_000)))
    } else if name == "tph_ir_e_battery_charge_today_high"@ {
        Some(fixed::high_half(fixed::wide(s.energy_totals.battery_charge_kwh@, 100_000)))
    } else if name == "tph_ir_e_battery_charge_today_low"@ {
        Some(fixed::low_half(fixed::wide(s.energy_totals.battery_charge_kwh@, 100_000)))
    } else if name == "tph_ir_e_load_today_high"@ {
        Some(fixed::high_half(fixed::wide(s.energy_totals.load_consumption_kwh@, 100_000)))
    } else if name == "tph_ir_e_load_today_low"@ {
        Some(fixed::low_half(fixed::wide(s.energy_totals.load_consumption_kwh@, 100_000)))
    } else if name == "tph_ir_e_load_total_high"@ {
        Some(fixed::high_half(fixed::wide(s.energy_totals.load_consumption_kwh@, 100_000)))
    } else if name == "tph_ir_e_load_total_low"@ {
        Some(fixed::low_half(fixed::wide(s.energy_totals.load_consumption_kwh@, 100_000)))
    } else if name == "tph_ir_e_inverter_out_today_high"@ {
        Some(fixed::high_half(fixed::wide(s.energy_totals.solar_generation_kwh@, 100_000)))
    } else if name == "tph_ir_e_inverter_out_today_low"@ {
        Some(fixed::low_half(fixed::wide(s.energy_totals.solar_generation_kwh@, 100_000)))
    } else if name == "tph_ir_e_inverter_out_total_high"@ {
        Some(fixed::high_half(fixed::wide(s.energy_totals.solar_generation_kwh@, 100_000)))
    } else if name == "tph_ir_e_inverter_out_total_low"@ {
        Some(fixed::low_half(fixed::wide(s.energy_totals.solar_generation_kwh@, 100_000)))
    } else if name == "tph_ir_e_pv_today_high"@ {
        Some(fixed::high_half(fixed::wide(s.energy_totals.solar_generation_kwh@, 100_000)))
    } else if name == "tph_ir_e_pv_today_low"@ {
        Some(fixed::low_half(fixed::wide(s.energy_totals.solar_generation_kwh@, 100_000)))
    } else if name == "tph_ir_e_pv_total_high"@ {
        Some(fixed::high_half(fixed::wide(s.energy_totals.solar_lifetime_kwh@, 100_000)))
    } else if name == "tph_ir_e_pv_total_low"@ {
        Some(fixed::low_half(fixed::wide(s.energy_totals.solar_lifetime_kwh@, 100_000)))
    } else if name == "tph_ir_e_ac_charge_today_high"@ {
        Some(fixed::high_half(fixed::wide(s.energy_totals.ac_charge_kwh@, 100_000)))
    } else if name == "tph_ir_e_ac_charge_today_low"@ {
        Some(fixed::low_half(fixed::wide(s.energy_totals.ac_charge_kwh@, 100_000)))
    } else if name == "tph_ir_e_ac_charge_total_high"@ {
        Some(fixed::high_half(fixed::wide(s.energy_totals.ac_charge_kwh@, 100_000)))
    } else if name == "tph_ir_e_ac_charge_total_low"@ {
        Some(fixed::low_half(fixed::wide(s.energy_totals.ac_charge_kwh@, 100_000)))
    } else if name == "tph_ir_e_import_total_high"@ {
        Some(fixed::high_half(fixed::wide(123_400_000, 100_000)))
    } else if name == "tph_ir_e_import_total_low"@ {
        Some(fixed::low_half(fixed::wide(123_400_000, 100_000)))
    } else if name == "tph_ir_e_export_total_high"@ {
        Some(fixed::high_half(fixed::wide(432_100_000, 100_000)))
    } else if name == "tph_ir_e_export_total_low"@ {
        Some(fixed::low_half(fixed::wide(432_100_000, 100_000)))
    } else if name == "tph_ir_e_battery_discharge_total_high"@ {
        Some(fixed::high_half(fixed::wide(state::module_total(s.batteries@, ModuleQuantity::Throughput), 200_000)))
    } else if name == "tph_ir_e_battery_discharge_total_low"@ {
        Some(fixed::low_half(fixed::wide(state::module_total(s.batteries@, ModuleQuantity::Throughput), 200_000)))
    } else if name == "tph_ir_e_battery_charge_total_high"@ {
        Some(fixed::high_half(fixed::wide(state::module_total(s.batteries@, ModuleQuantity::Throughput), 200_000)))
    } else if name == "tph_ir_e_battery_charge_total_low"@ {
        Some(fixed::low_half(fixed::wide(state::module_total(s.batteries@, ModuleQuantity::Throughput), 200_000)))
    } else if name == "tph_ir_e_export2_today_high"@ {
        Some(fixed::high_half(fixed::wide(s.energy_totals.grid_export_kwh@, 100_000)))
    } else if name == "tph_ir_e_export2_today_low"@ {
        Some(fixed::low_half(fixed::wide(s.energy_totals.grid_export_kwh@, 100_000)))
    } else if name == "tph_ir_e_export2_total_high"@ {
        Some(fixed::high_half(fixed::wide(s.energy_totals.grid_export_kwh@, 100_000)))
    } else if name == "tph_ir_e_export2_total_low"@ {
        Some(fixed::low_half(fixed::wide(s.energy_totals.grid_export_kwh@, 100_000)))
    } else {
        None
    }
}

/// IR 1001-1190: what the register `name` shows.
pub fn three_phase_power_of(name: &str, scale: i64, s: &PlantState) -> (r: Option<u16>)
    requires
        -MAX_MICROS <= scale <= MAX_MICROS,
    ensures
        projection::lifted(r) == three_phase_power(name@, scale as int, *s),
{
    if same(name, "tph_ir_pv1_voltage") {
        return Some(
            if s.solar.pv1_w.micros() > 0 {
                scaled_of(350_000_000, 1, scale)
            } else {
                scaled_of(0, 1, scale)
            },
        );
    }
    if same(name, "tph_ir_pv2_voltage") {
        return Some(
            if s.config.pv2_peak_watts.micros() > 0 {
                scaled_of(350_000_000, 1, scale)
            } else {
                scaled_of(0, 1, scale)
            },
        );
    }
    if same(name, "tph_ir_pv1_current") {
        return Some(scaled_of(s.solar.pv1_w.exact(), 350, scale));
    }
    if same(name, "tph_ir_pv2_current") {
        return Some(scaled_of(s.solar.pv2_w.exact(), 350, scale));
    }
    if same(name, "tph_ir_pv1_power_high") {
        return Some(high_half_of(wide_of(s.solar.pv1_w.exact(), 100_000)));
    }
    if same(name, "tph_ir_pv1_power_low") {
        return Some(low_half_of(wide_of(s.solar.pv1_w.exact(), 100_000)));
    }
    if same(name, "tph_ir_pv2_power_high") {
        return Some(high_half_of(wide_of(s.solar.pv2_w.exact(), 100_000)));
    }
    if same(name, "tph_ir_pv2_power_low") {
        return Some(low_half_of(wide_of(s.solar.pv2_w.exact(), 100_000)));
    }
    if same(name, "tph_ir_v_ac1")
        || same(name, "tph_ir_v_ac2")
        || same(name, "tph_ir_v_ac3") {
        return Some(
            if !s.grid.connected {
                scaled_of(0, 1, scale)
            } else if is_three_phase_inverter(s.config.inverter_type.as_str()) {
                scaled_of(416_000_000, 1, scale)
            } else {
                scaled_of(240_000_000, 1, scale)
            },
        );
    }
    if same(name, "tph_ir_i_ac1")
        || same(name, "tph_ir_i_ac2")
        || same(name, "tph_ir_i_ac3") {
        return Some(
            if !s.grid.connected {
                scaled_of(0, 1, scale)
            } else if is_three_phase_inverter(s.config.inverter_type.as_str()) {
                scaled_of(magnitude_of(s.grid.power_w.micros()) as i128, 720, scale)
            } else {
                scaled_of(magnitude_of(s.inverter.ac_power_w.micros()) as i128, 720, scale)
            },
        );
    }
    if same(name, "tph_ir_f_ac1") {
        return Some(
            if s.grid.connected {
                scaled_of(50_000_000, 1, scale)
            } else {
                scaled_of(0, 1, scale)
            },
        );
    }
    if same(name, "tph_ir_power_factor") {
        return Some(scaled_of(10_000_000_000, 1, scale));
    }
    if same(name, "tph_ir_p_inverter_out_high") {
        return Some(high_half_of(signed_wide_of(s.inverter.ac_power_w.exact(), 100_000)));
    }
    if same(name, "tph_ir_p_inverter_out_low") {
        return Some(low_half_of(signed_wide_of(s.inverter.ac_power_w.exact(), 100_000)));
    }
    if same(name, "tph_ir_p_grid_apparent_high") {
        return Some(high_half_of(wide_of(magnitude_of(s.inverter.ac_power_w.micros()) as i128, 100_000)));
    }
    if same(name, "tph_ir_p_grid_apparent_low") {
        return Some(low_half_of(wide_of(magnitude_of(s.inverter.ac_power_w.micros()) as i128, 100_000)));
    }
    if same(name, "tph_ir_p_meter_import_high") {
        return Some(high_half_of(wide_of(positive_part_of(s.grid.power_w.micros()) as i128, 100_000)));
    }
    if same(name, "tph_ir_p_meter_import_low") {
        return Some(low_half_of(wide_of(positive_part_of(s.grid.power_w.micros()) as i128, 100_000)));
    }
    if same(name, "tph_ir_p_meter_export_high") {
        return Some(high_half_of(wide_of(positive_part_of(-s.grid.power_w.micros()) as i128, 100_000)));
    }
    if same(name, "tph_ir_p_meter_export_low") {
        return Some(low_half_of(wide_of(positive_part_of(-s.grid.power_w.micros()) as i128, 100_000)));
    }
    if same(name, "tph_ir_p_export_high") {
        return Some(high_half_of(wide_of(positive_part_of(-s.grid.power_w.micros()) as i128, 100_000)));
    }
    if same(name, "tph_ir_p_export_low") {
        return Some(low_half_of(wide_of(positive_part_of(-s.grid.power_w.micros()) as i128, 100_000)));
    }
    if same(name, "tph_ir_p_meter2_high") || same(name, "tph_ir_p_meter2_low") {
        return Some(0);
    }
    if same(name, "tph_ir_system_mode") {
        return Some(
            if s.active_faults.len() > 0 {
                scaled_of(3_000_000, 1, scale)
            } else if s.grid.connected {
                scaled_of(2_000_000, 1, scale)
            } else {
                scaled_of(1_000_000, 1, scale)
            },
        );
    }
    if same(name, "tph_ir_status") || same(name, "tph_ir_dc_status") {
        return Some(scaled_of(1_000_000, 1, scale));
    }
    if same(name, "tph_ir_p_load_ac1")
        || same(name, "tph_ir_p_load_ac2")
        || same(name, "tph_ir_p_load_ac3") {
        return Some(scaled_of(s.load_demand_w.exact(), 3, scale));
    }
    if same(name, "tph_ir_p_load_all_high") {
        return Some(high_half_of(wide_of(s.load_demand_w.exact(), 100_000)));
    }
    if same(name, "tph_ir_p_load_all_low") {
        return Some(low_half_of(wide_of(s.load_demand_w.exact(), 100_000)));
    }
    if same(name, "tph_ir_t_inverter") {
        return Some(scaled_of(s.inverter.temperature_celsius.exact(), 1, scale));
    }
    if same(name, "tph_ir_t_boost") {
        return Some(scaled_of(s.inverter.temperature_celsius.exact() - 2_000_000, 1, scale));
    }
    if same(name, "tph_ir_t_buck_boost") {
        return Some(scaled_of(s.inverter.temperature_celsius.exact() + 3_000_000, 1, scale));
    }
    if same(name, "tph_ir_v_battery_bms") || same(name, "tph_ir_v_battery_pcs") {
        return Some(scaled_of(module_total_of(s.batteries.as_slice(), ModuleQuantity::Voltage), 1, scale));
    }
    if same(name, "tph_ir_battery_soc") {
        return Some(scaled_of(s.battery.soc_percent.exact(), 1, scale));
    }
    if same(name, "tph_ir_p_battery_discharge_high") {
        return Some(high_half_of(wide_of(positive_part_of(-s.battery.power_kw.micros()) as i128 * 1000, 100_000)));
    }
    if same(name, "tph_ir_p_battery_discharge_low") {
        return Some(low_half_of(wide_of(positive_part_of(-s.battery.power_kw.micros()) as i128 * 1000, 100_000)));
    }
    if same(name, "tph_ir_p_battery_charge_high") {
        return Some(high_half_of(wide_of(positive_part_of(s.battery.power_kw.micros()) as i128 * 1000, 100_000)));
    }
    if same(name, "tph_ir_p_battery_charge_low") {
        return Some(low_half_of(wide_of(positive_part_of(s.battery.power_kw.micros()) as i128 * 1000, 100_000)));
    }
    if same(name, "tph_ir_v_dc_bus") || same(name, "tph_ir_v_inv_bus") {
        return Some(scaled_of(380_000_000, 1, scale));
    }
    if same(name, "tph_ir_i_battery") {
        return Some(stack_current_of(s));
    }
    if same(name, "tph_ir_f_nominal_eps") {
        return Some(
            if s.enable_eps {
                scaled_of(50_000_000, 1, scale)
            } else {
                scaled_of(0, 1, scale)
            },
        );
    }
    if same(name, "tph_ir_v_eps_ac1")
        || same(name, "tph_ir_v_eps_ac2")
        || same(name, "tph_ir_v_eps_ac3") {
        return Some(
            if s.enable_eps {
                scaled_of(240_000_000, 1, scale)
            } else {
                scaled_of(0, 1, scale)
            },
        );
    }
    if same(name, "tph_ir_ac_dsp_firmware_version")
        || same(name, "tph_ir_dc_dsp_firmware_version") {
        return Some(s.inverter.dsp_firmware_version);
    }
    if same(name, "tph_ir_arm_firmware_version") {
        return Some(shown_firmware_of(s.config.inverter_type.as_str(), s.inverter.arm_firmware_version));
    }
    None
}

/// IR 1360-1413: what the register `name` shows.
pub fn three_phase_energy_of(name: &str, scale: i64, s: &PlantState) -> (r: Option<u16>)
    requires
        -MAX_MICROS <= scale <= MAX_MICROS,
    ensures
        projection::lifted(r) == three_phase_energy(name@, scale as int, *s),
{
    if same(name, "tph_ir_e_pv1_today_high") {
        return Some(high_half_of(wide_of(s.energy_totals.solar_generation_kwh.exact(), 200_000)));
    }
    if same(name, "tph_ir_e_pv1_today_low") {
        return Some(low_half_of(wide_of(s.energy_totals.solar_generation_kwh.exact(), 200_000)));
    }
    if same(name, "tph_ir_e_pv2_today_high") {
        return Some(high_half_of(wide_of(s.energy_totals.solar_generation_kwh.exact(), 200_000)));
    }
    if same(name, "tph_ir_e_pv2_today_low") {
        return Some(low_half_of(wide_of(s.energy_totals.solar_generation_kwh.exact(), 200_000)));
    }
    if same(name, "tph_ir_e_pv1_total_high") {
        return Some(high_half_of(wide_of(s.energy_totals.solar_generation_kwh.exact(), 200_000)));
    }
    if same(name, "tph_ir_e_pv1_total_low") {
        return Some(low_half_of(wide_of(s.energy_totals.solar_generation_kwh.exact(), 200_000)));
    }
    if same(name, "tph_ir_e_pv2_total_high") {
        return Some(high_half_of(wide_of(s.energy_totals.solar_generation_kwh.exact(), 200_000)));
    }
    if same(name, "tph_ir_e_pv2_total_low") {
        return Some(low_half_of(wide_of(s.energy_totals.solar_generation_kwh.exact(), 200_000)));
    }
    if same(name, "tph_ir_e_import_today_high") {
        return Some(high_half_of(wide_of(s.energy_totals.grid_import_kwh.exact(), 100_000)));
    }
    if same(name, "tph_ir_e_import_today_low") {
        return Some(low_half_of(wide_of(s.energy_totals.grid_import_kwh.exact(), 100_000)));
    }
    if same(name, "tph_ir_e_export_today_high") {
        return Some(high_half_of(wide_of(s.energy_totals.grid_export_kwh.exact(), 100_000)));
    }
    if same(name, "tph_ir_e_export_today_low") {
        return Some(low_half_of(wide_of(s.energy_totals.grid_export_kwh.exact(), 100_000)));
    }
    if same(name, "tph_ir_e_battery_discharge_today_high") {
        return Some(high_half_of(wide_of(s.energy_totals.battery_discharge_kwh.exact(), 100_000)));
    }
    if same(name, "tph_ir_e_battery_discharge_today_low") {
        return Some(low_half_of(wide_of(s.energy_totals.battery_discharge_kwh.exact(), 100_000)));
    }
    if same(name, "tph_ir_e_battery_charge_today_high") {
        return Some(high_half_of(wide_of(s.energy_totals.battery_charge_kwh.exact(), 100_000)));
    }
    if same(name, "tph_ir_e_battery_charge_today_low") {
        return Some(low_half_of(wide_of(s.energy_totals.battery_charge_kwh.exact(), 100_000)));
    }
    if same(name, "tph_ir_e_load_today_high") {
        return Some(high_half_of(wide_of(s.energy_totals.load_consumption_kwh.exact(), 100_000)));
    }
    if same(name, "tph_ir_e_load_today_low") {
        return Some(low_half_of(wide_of(s.energy_totals.load_consumption_kwh.exact(), 100_000)));
    }
    if same(name, "tph_ir_e_load_total_high") {
        return Some(high_half_of(wide_of(s.energy_totals.load_consumption_kwh.exact(), 100_000)));
    }
    if same(name, "tph_ir_e_load_total_low") {
        return Some(low_half_of(wide_of(s.energy_totals.load_consumption_kwh.exact(), 100_000)));
    }
    if same(name, "tph_ir_e_inverter_out_today_high") {
        return Some(high_half_of(wide_of(s.energy_totals.solar_generation_kwh.exact(), 100_000)));
    }
    if same(name, "tph_ir_e_inverter_out_today_low") {
        return Some(low_half_of(wide_of(s.energy_totals.solar_generation_kwh.exact(), 100_000)));
    }
    if same(name, "tph_ir_e_inverter_out_total_high") {
        return Some(high_half_of(wide_of(s.energy_totals.solar_generation_kwh.exact(), 100_000)));
    }
    if same(name, "tph_ir_e_inverter_out_total_low") {
        return Some(low_half_of(wide_of(s.energy_totals.solar_generation_kwh.exact(), 100_000)));
    }
    if same(name, "tph_ir_e_pv_today_high") {
        return Some(high_half_of(wide_of(s.energy_totals.solar_generation_kwh.exact(), 100_000)));
    }
    if same(name, "tph_ir_e_pv_today_low") {
        return Some(low_half_of(wide_of(s.energy_totals.solar_generation_kwh.exact(), 100_000)));
    }
    if same(name, "tph_ir_e_pv_total_high") {
        return Some(high_half_of(wide_of(s.energy_totals.solar_lifetime_kwh.exact(), 100_000)));
    }
    if same(name, "tph_ir_e_pv_total_low") {
        return Some(low_half_of(wide_of(s.energy_totals.solar_lifetime_kwh.exact(), 100_000)));
    }
    if same(name, "tph_ir_e_ac_charge_today_high") {
        return Some(high_half_of(wide_of(s.energy_totals.ac_charge_kwh.exact(), 100_000)));
    }
    if same(name, "tph_ir_e_ac_charge_today_low") {
        return Some(low_half_of(wide_of(s.energy_totals.ac_charge_kwh.exact(), 100_000)));
    }
    if same(name, "tph_ir_e_ac_charge_total_high") {
        return Some(high_half_of(wide_of(s.energy_totals.ac_charge_kwh.exact(), 100_000)));
    }
    if same(name, "tph_ir_e_ac_charge_total_low") {
        return Some(low_half_of(wide_of(s.energy_totals.ac_charge_kwh.exact(), 100_000)));
    }
    if same(name, "tph_ir_e_import_total_high") {
        return Some(high_half_of(wide_of(123_400_000, 100_000)));
    }
    if same(name, "tph_ir_e_import_total_low") {
        return Some(low_half_of(wide_of(123_400_000, 100_000)));
    }
    if same(name, "tph_ir_e_export_total_high") {
        return Some(high_half_of(wide_of(432_100_000, 100_000)));
    }
    if same(name, "tph_ir_e_export_total_low") {
        return Some(low_half_of(wide_of(432_100_000, 100_000)));
    }
    if same(name, "tph_ir_e_battery_discharge_total_high") {
        return Some(high_half_of(wide_of(module_total_of(s.batteries.as_slice(), ModuleQuantity::Throughput), 200_000)));
    }
    if same(name, "tph_ir_e_battery_discharge_total_low") {
        return Some(low_half_of(wide_of(module_total_of(s.batteries.as_slice(), ModuleQuantity::Throughput), 200_000)));
    }
    if same(name, "tph_ir_e_battery_charge_total_high") {
        return Some(high_half_of(wide_of(module_total_of(s.batteries.as_slice(), ModuleQuantity::Throughput), 200_000)));
    }
    if same(name, "tph_ir_e_battery_charge_total_low") {
        return Some(low_half_of(wide_of(module_total_of(s.batteries.as_slice(), ModuleQuantity::Throughput), 200_000)));
    }
    if same(name, "tph_ir_e_export2_today_high") {
        return Some(high_half_of(wide_of(s.energy_totals.grid_export_kwh.exact(), 100_000)));
    }
    if same(name, "tph_ir_e_export2_today_low") {
        return Some(low_half_of(wide_of(s.energy_totals.grid_export_kwh.exact(), 100_000)));
    }
    if same(name, "tph_ir_e_export2_total_high") {
        return Some(high_half_of(wide_of(s.energy_totals.grid_export_kwh.exact(), 100_000)));
    }
    if same(name, "tph_ir_e_export2_total_low") {
        return Some(low_half_of(wide_of(s.energy_totals.grid_export_kwh.exact(), 100_000)));
    }
    None
}

} // verus!
