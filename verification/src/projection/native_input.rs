//! Native input registers, IR 0-59 and their alternates.
use crate::fixed;
use crate::fixed::{
    cut_word_of, high_half_of, low_half_of, magnitude_of, positive_part_of, rounded_word_of,
    signed_cut_word_of, wide_of, MAX_MICROS,
};
use crate::model;
use crate::model::{is_gateway_inverter, is_three_phase_inverter};
use crate::projection;
use crate::projection::scaled_of;
use crate::state;
use crate::state::{has_fault, module_total_of, ModuleQuantity, PlantState};
use crate::text::same;
use vstd::prelude::*;

verus! {

/// The fault word of a single-phase inverter (HR 223-224, IR 39-40). The bits are
/// those of the named-fault decoders. Three-phase units show zero here.
pub open spec fn single_phase_faults(s: PlantState) -> int {
    if model::three_phase(s.config.inverter_type@) {
        0
    } else {
        let faults = s.active_faults@;
        (if state::fault_active(faults, "grid_loss"@) {
            0x80int
        } else {
            0
        }) + (if state::fault_active(faults, "inverter_trip"@) {
            0x80_0000int
        } else {
            0
        }) + (if state::fault_active(faults, "battery_over_temp"@) {
            0x1int
        } else {
            0
        }) + (if state::fault_active(faults, "comm_timeout"@) {
            0x100_0000int
        } else {
            0
        }) + (if state::fault_active(faults, "sensor_drift"@) {
            0x4000_0000int
        } else {
            0
        })
    }
}

/// The fault word of a single-phase inverter.
pub fn single_phase_faults_of(s: &PlantState) -> (r: u32)
    ensures
        r == single_phase_faults(*s),
{
    if is_three_phase_inverter(s.config.inverter_type.as_str()) {
        return 0;
    }
    let mut code: u32 = 0;
    if has_fault(&s.active_faults, "grid_loss") {
        code = code + 0x80;
    }
    if has_fault(&s.active_faults, "inverter_trip") {
        code = code + 0x80_0000;
    }
    if has_fault(&s.active_faults, "battery_over_temp") {
        code = code + 0x1;
    }
    if has_fault(&s.active_faults, "comm_timeout") {
        code = code + 0x100_0000;
    }
    if has_fault(&s.active_faults, "sensor_drift") {
        code = code + 0x4000_0000;
    }
    code
}

/// IR 0-31: what the register `name` shows.
pub open spec fn input_a(name: Seq<char>, scale: int, s: PlantState) -> Option<int> {
    if name == "ge_ir_status"@ {
        Some(
            if state::fault_active(s.active_faults@, "inverter_trip"@) {
                3
            } else {
                1
            },
        )
    } else if name == "ge_ir_pv1_voltage"@ {
        Some(
            if s.solar.pv1_w@ > 0 {
                projection::scaled(350_000_000, 1, scale)
            } else {
                projection::scaled(0, 1, scale)
            },
        )
    } else if name == "ge_ir_pv2_voltage"@ {
        Some(
            if s.solar.pv2_w@ > 0 || s.config.pv2_peak_watts@ > 0 {
                projection::scaled(350_000_000, 1, scale)
            } else {
                projection::scaled(0, 1, scale)
            },
        )
    } else if name == "ge_ir_p_bus_voltage"@ || name == "ge_ir_high_bus_voltage"@ {
        Some(
            if s.solar.generation_w@ > 0 {
                projection::scaled(380_000_000, 1, scale)
            } else {
                projection::scaled(0, 1, scale)
            },
        )
    } else if name == "ge_ir_n_bus_voltage"@ {
        Some(projection::scaled(0, 1, scale))
    } else if name == "ge_ir_grid_voltage"@ {
        Some(
            if s.grid.connected {
                projection::scaled(240_000_000, 1, scale)
            } else {
                projection::scaled(0, 1, scale)
            },
        )
    } else if name == "ge_ir_battery_throughput_high"@ {
        Some(fixed::high_half(fixed::wide(state::module_total(s.batteries@, ModuleQuantity::Throughput), 100_000)))
    } else if name == "ge_ir_battery_throughput_low"@ {
        Some(fixed::low_half(fixed::wide(state::module_total(s.batteries@, ModuleQuantity::Throughput), 100_000)))
    } else if name == "ge_ir_pv1_current"@ {
        Some(projection::scaled(s.solar.pv1_w@, 350, scale))
    } else if name == "ge_ir_pv2_current"@ {
        Some(projection::scaled(s.solar.pv2_w@, 350, scale))
    } else if name == "ge_ir_ac_current"@ {
        Some(projection::scaled(fixed::magnitude(s.inverter.ac_power_w@), 240, scale))
    } else if name == "ge_ir_pv_total_high"@ {
        Some(fixed::high_half(fixed::wide(s.energy_totals.solar_lifetime_kwh@, 100_000)))
    } else if name == "ge_ir_pv_total_low"@ {
        Some(fixed::low_half(fixed::wide(s.energy_totals.solar_lifetime_kwh@, 100_000)))
    } else if name == "ge_ir_grid_frequency"@ {
        Some(
            if s.grid.connected {
                projection::scaled(50_000_000, 1, scale)
            } else {
                projection::scaled(0, 1, scale)
            },
        )
    } else if name == "ge_ir_charge_status"@ {
        Some(
            if s.battery.power_kw@ > 10000 {
                projection::scaled(1_000_000, 1, scale)
            } else if s.battery.power_kw@ < -10000 {
                projection::scaled(2_000_000, 1, scale)
            } else {
                projection::scaled(0, 1, scale)
            },
        )
    } else if name == "ge_ir_inverter_output_pf"@ {
        Some(projection::scaled(10_000_000_000, 1, scale))
    } else if name == "ge_ir_pv1_energy_today"@ {
        Some(
            if s.config.pv2_peak_watts@ > 0 {
                projection::scaled(s.energy_totals.solar_generation_kwh@ * 45, 100, scale)
            } else {
                projection::scaled(s.energy_totals.solar_generation_kwh@, 1, scale)
            },
        )
    } else if name == "ge_ir_pv1_power"@ {
        Some(projection::scaled(s.solar.pv1_w@, 1, scale))
    } else if name == "ge_ir_pv2_energy_today"@ {
        Some(
            if s.config.pv2_peak_watts@ > 0 {
                projection::scaled(s.energy_totals.solar_generation_kwh@ * 55, 100, scale)
            } else {
                projection::scaled(0, 1, scale)
            },
        )
    } else if name == "ge_ir_pv2_power"@ {
        Some(projection::scaled(s.solar.pv2_w@, 1, scale))
    } else if name == "ge_ir_grid_export_total_high"@ {
        Some(fixed::high_half(fixed::wide(s.energy_totals.grid_export_kwh@, 100_000)))
    } else if name == "ge_ir_grid_export_total_low"@ {
        Some(fixed::low_half(fixed::wide(s.energy_totals.grid_export_kwh@, 100_000)))
    } else if name == "ge_ir_solar_diverter_energy"@ {
        Some(projection::scaled(0, 1, scale))
    } else if name == "ge_ir_inverter_terminal_power"@ {
        Some(fixed::signed_cut_word(s.inverter.ac_power_w@, 1_000_000))
    } else if name == "ge_ir_today_export_energy"@ {
        Some(projection::scaled(s.energy_totals.grid_export_kwh@, 1, scale))
    } else if name == "ge_ir_today_import_energy"@ {
        Some(projection::scaled(s.energy_totals.grid_import_kwh@, 1, scale))
    } else if name == "ge_ir_inverter_input_total_high"@ {
        Some(fixed::high_half(fixed::wide(s.energy_totals.ac_charge_kwh@, 100_000)))
    } else if name == "ge_ir_inverter_input_total_low"@ {
        Some(fixed::low_half(fixed::wide(s.energy_totals.ac_charge_kwh@, 100_000)))
    } else if name == "ge_ir_discharge_year"@ {
        Some(projection::scaled(s.energy_totals.battery_discharge_kwh@, 1, scale))
    } else if name == "ge_ir_grid_power"@ {
        Some(fixed::signed_cut_word(-s.grid.power_w@, 1_000_000))
    } else if name == "ge_ir_eps_backup_power"@ {
        Some(
            if s.enable_eps && state::fault_active(s.active_faults@, "grid_loss"@) {
                projection::scaled(fixed::positive_part(-s.battery.power_kw@) * 1000, 1, scale)
            } else {
                projection::scaled(0, 1, scale)
            },
        )
    } else {
        None
    }
}

/// IR 32-59 and the alternates: what the register `name` shows.
pub open spec fn input_b(name: Seq<char>, scale: int, s: PlantState) -> Option<int> {
    if name == "ge_ir_grid_import_total_high"@ {
        Some(fixed::high_half(fixed::wide(s.energy_totals.grid_import_kwh@, 100_000)))
    } else if name == "ge_ir_grid_import_total_low"@ {
        Some(fixed::low_half(fixed::wide(s.energy_totals.grid_import_kwh@, 100_000)))
    } else if name == "ge_ir_ac_charge_today"@ {
        Some(fixed::rounded_word(s.energy_totals.ac_charge_kwh@, 100_000))
    } else if name == "ge_ir_today_charge_energy"@ {
        Some(projection::scaled(s.energy_totals.battery_charge_kwh@, 1, scale))
    } else if name == "ge_ir_today_discharge_energy"@ {
        Some(projection::scaled(s.energy_totals.battery_discharge_kwh@, 1, scale))
    } else if name == "ge_ir_countdown"@ {
        Some(projection::scaled(0, 1, scale))
    } else if name == "ge_ir_fault_code_high"@ {
        Some(fixed::high_half(single_phase_faults(s)))
    } else if name == "ge_ir_fault_code_low"@ {
        Some(fixed::low_half(single_phase_faults(s)))
    } else if name == "ge_ir_inverter_temperature"@ || name == "ge_ir_charger_temperature"@ {
        Some(projection::scaled(s.inverter.temperature_celsius@, 1, scale))
    } else if name == "ge_ir_load_demand"@ {
        Some(projection::scaled(s.load_demand_w@, 1, scale))
    } else if name == "ge_ir_grid_apparent"@ {
        Some(
            if s.grid.connected {
                projection::scaled(fixed::magnitude(s.inverter.ac_power_w@), 1, scale)
            } else {
                projection::scaled(0, 1, scale)
            },
        )
    } else if name == "ge_ir_pv_generation_today"@ {
        Some(projection::scaled(s.energy_totals.inverter_output_kwh@, 1, scale))
    } else if name == "ge_ir_pv_generation_total_high"@ {
        Some(fixed::high_half(fixed::wide(s.energy_totals.inverter_output_kwh@, 100_000)))
    } else if name == "ge_ir_pv_generation_total_low"@ {
        Some(fixed::low_half(fixed::wide(s.energy_totals.inverter_output_kwh@, 100_000)))
    } else if name == "ge_ir_work_time_total_high"@ {
        Some(fixed::high_half(fixed::wide(s.inverter.work_time_hours@, 1_000_000)))
    } else if name == "ge_ir_work_time_total_low"@ {
        Some(fixed::low_half(fixed::wide(s.inverter.work_time_hours@, 1_000_000)))
    } else if name == "ge_ir_system_mode"@ {
        Some(
            if !s.grid.connected {
                projection::scaled(1_000_000, 1, scale)
            } else if s.active_faults@.len() > 0 {
                projection::scaled(3_000_000, 1, scale)
            } else {
                projection::scaled(2_000_000, 1, scale)
            },
        )
    } else if name == "ge_ir_battery_voltage"@ {
        Some(
            if model::gateway(s.config.inverter_type@) {
                projection::scaled(0, 1, scale)
            } else {
                projection::scaled(4_400_000_000 + s.battery.soc_percent@ * 8, 100, scale)
            },
        )
    } else if name == "ge_ir_battery_current"@ {
        Some(
            if model::gateway(s.config.inverter_type@) {
                0
            } else {
                fixed::signed_cut_word(-(s.battery.power_kw@ * 1000), 480_000)
            },
        )
    } else if name == "ge_ir_battery_power"@ {
        Some(
            if model::gateway(s.config.inverter_type@) {
                0
            } else {
                fixed::signed_cut_word(-(s.battery.power_kw@ * 1000), 1_000_000)
            },
        )
    } else if name == "ge_ir_eps_voltage"@ {
        Some(
            if s.enable_eps {
                projection::scaled(240_000_000, 1, scale)
            } else {
                projection::scaled(0, 1, scale)
            },
        )
    } else if name == "ge_ir_eps_frequency"@ {
        Some(
            if s.enable_eps {
                projection::scaled(50_000_000, 1, scale)
            } else {
                projection::scaled(0, 1, scale)
            },
        )
    } else if name == "ge_ir_battery_temperature"@ {
        Some(
            if model::gateway(s.config.inverter_type@) {
                projection::scaled(0, 1, scale)
            } else {
                projection::scaled(s.battery.temperature_celsius@, 1, scale)
            },
        )
    } else if name == "ge_ir_charger_warning_code"@ {
        Some(
            if state::fault_active(s.active_faults@, "battery_over_temp"@) {
                projection::scaled(1_000_000, 1, scale)
            } else {
                projection::scaled(0, 1, scale)
            },
        )
    } else if name == "ge_ir_grid_port_current"@ {
        Some(
            if s.grid.connected {
                projection::scaled(fixed::magnitude(s.inverter.ac_power_w@), 240, scale)
            } else {
                projection::scaled(0, 1, scale)
            },
        )
    } else if name == "ge_ir_battery_soc"@ {
        Some(
            if model::gateway(s.config.inverter_type@) {
                projection::scaled(0, 1, scale)
            } else {
                projection::scaled(s.battery.soc_percent@, 1, scale)
            },
        )
    } else if name == "ge_ir_battery_discharge_total_alt1"@
        || name == "ge_ir_battery_charge_total_alt1"@ {
        Some(projection::scaled(state::module_total(s.batteries@, ModuleQuantity::Throughput), 2, scale))
    } else if name == "ge_ir_battery_discharge_today_alt2"@ {
        Some(projection::scaled(s.energy_totals.battery_discharge_kwh@, 1, scale))
    } else if name == "ge_ir_battery_charge_today_alt2"@ {
        Some(projection::scaled(s.energy_totals.battery_charge_kwh@, 1, scale))
    } else if name == "ge_ir_combined_generation_high"@ {
        Some(fixed::high_half(fixed::wide(s.solar.generation_w@, 1_000_000)))
    } else if name == "ge_ir_combined_generation_low"@ {
        Some(fixed::low_half(fixed::wide(s.solar.generation_w@, 1_000_000)))
    } else {
        None
    }
}

/// IR 0-31: what the register `name` shows.
pub fn input_a_of(name: &str, scale: i64, s: &PlantState) -> (r: Option<u16>)
    requires
        -MAX_MICROS <= scale <= MAX_MICROS,
    ensures
        projection::lifted(r) == input_a(name@, scale as int, *s),
{
    if same(name, "ge_ir_status") {
        return Some(
            if has_fault(&s.active_faults, "inverter_trip") {
                3
            } else {
                1
            },
        );
    }
    if same(name, "ge_ir_pv1_voltage") {
        return Some(
            if s.solar.pv1_w.micros() > 0 {
                scaled_of(350_000_000, 1, scale)
            } else {
                scaled_of(0, 1, scale)
            },
        );
    }
    if same(name, "ge_ir_pv2_voltage") {
        return Some(
            if s.solar.pv2_w.micros() > 0 || s.config.pv2_peak_watts.micros() > 0 {
                scaled_of(350_000_000, 1, scale)
            } else {
                scaled_of(0, 1, scale)
            },
        );
    }
    if same(name, "ge_ir_p_bus_voltage") || same(name, "ge_ir_high_bus_voltage") {
        return Some(
            if s.solar.generation_w.micros() > 0 {
                scaled_of(380_000_000, 1, scale)
            } else {
                scaled_of(0, 1, scale)
            },
        );
    }
    if same(name, "ge_ir_n_bus_voltage") {
        return Some(scaled_of(0, 1, scale));
    }
    if same(name, "ge_ir_grid_voltage") {
        return Some(
            if s.grid.connected {
                scaled_of(240_000_000, 1, scale)
            } else {
                scaled_of(0, 1, scale)
            },
        );
    }
    if same(name, "ge_ir_battery_throughput_high") {
        return Some(high_half_of(wide_of(module_total_of(s.batteries.as_slice(), ModuleQuantity::Throughput), 100_000)));
    }
    if same(name, "ge_ir_battery_throughput_low") {
        return Some(low_half_of(wide_of(module_total_of(s.batteries.as_slice(), ModuleQuantity::Throughput), 100_000)));
    }
    if same(name, "ge_ir_pv1_current") {
        return Some(scaled_of(s.solar.pv1_w.exact(), 350, scale));
    }
    if same(name, "ge_ir_pv2_current") {
        return Some(scaled_of(s.solar.pv2_w.exact(), 350, scale));
    }
    if same(name, "ge_ir_ac_current") {
        return Some(scaled_of(magnitude_of(s.inverter.ac_power_w.micros()) as i128, 240, scale));
    }
    if same(name, "ge_ir_pv_total_high") {
        return Some(high_half_of(wide_of(s.energy_totals.solar_lifetime_kwh.exact(), 100_000)));
    }
    if same(name, "ge_ir_pv_total_low") {
        return Some(low_half_of(wide_of(s.energy_totals.solar_lifetime_kwh.exact(), 100_000)));
    }
    if same(name, "ge_ir_grid_frequency") {
        return Some(
            if s.grid.connected {
                scaled_of(50_000_000, 1, scale)
            } else {
                scaled_of(0, 1, scale)
            },
        );
    }
    if same(name, "ge_ir_charge_status") {
        return Some(
            if s.battery.power_kw.micros() > 10000 {
                scaled_of(1_000_000, 1, scale)
            } else if s.battery.power_kw.micros() < -10000 {
                scaled_of(2_000_000, 1, scale)
            } else {
                scaled_of(0, 1, scale)
            },
        );
    }
    if same(name, "ge_ir_inverter_output_pf") {
        return Some(scaled_of(10_000_000_000, 1, scale));
    }
    if same(name, "ge_ir_pv1_energy_today") {
        return Some(
            if s.config.pv2_peak_watts.micros() > 0 {
                scaled_of(s.energy_totals.solar_generation_kwh.exact() * 45, 100, scale)
            } else {
                scaled_of(s.energy_totals.solar_generation_kwh.exact(), 1, scale)
            },
        );
    }
    if same(name, "ge_ir_pv1_power") {
        return Some(scaled_of(s.solar.pv1_w.exact(), 1, scale));
    }
    if same(name, "ge_ir_pv2_energy_today") {
        return Some(
            if s.config.pv2_peak_watts.micros() > 0 {
                scaled_of(s.energy_totals.solar_generation_kwh.exact() * 55, 100, scale)
            } else {
                scaled_of(0, 1, scale)
            },
        );
    }
    if same(name, "ge_ir_pv2_power") {
        return Some(scaled_of(s.solar.pv2_w.exact(), 1, scale));
    }
    if same(name, "ge_ir_grid_export_total_high") {
        return Some(high_half_of(wide_of(s.energy_totals.grid_export_kwh.exact(), 100_000)));
    }
    if same(name, "ge_ir_grid_export_total_low") {
        return Some(low_half_of(wide_of(s.energy_totals.grid_export_kwh.exact(), 100_000)));
    }
    if same(name, "ge_ir_solar_diverter_energy") {
        return Some(scaled_of(0, 1, scale));
    }
    if same(name, "ge_ir_inverter_terminal_power") {
        return Some(signed_cut_word_of(s.inverter.ac_power_w.exact(), 1_000_000));
    }
    if same(name, "ge_ir_today_export_energy") {
        return Some(scaled_of(s.energy_totals.grid_export_kwh.exact(), 1, scale));
    }
    if same(name, "ge_ir_today_import_energy") {
        return Some(scaled_of(s.energy_totals.grid_import_kwh.exact(), 1, scale));
    }
    if same(name, "ge_ir_inverter_input_total_high") {
        return Some(high_half_of(wide_of(s.energy_totals.ac_charge_kwh.exact(), 100_000)));
    }
    if same(name, "ge_ir_inverter_input_total_low") {
        return Some(low_half_of(wide_of(s.energy_totals.ac_charge_kwh.exact(), 100_000)));
    }
    if same(name, "ge_ir_discharge_year") {
        return Some(scaled_of(s.energy_totals.battery_discharge_kwh.exact(), 1, scale));
    }
    if same(name, "ge_ir_grid_power") {
        return Some(signed_cut_word_of(-s.grid.power_w.exact(), 1_000_000));
    }
    if same(name, "ge_ir_eps_backup_power") {
        return Some(
            if s.enable_eps && has_fault(&s.active_faults, "grid_loss") {
                scaled_of(positive_part_of(-s.battery.power_kw.micros()) as i128 * 1000, 1, scale)
            } else {
                scaled_of(0, 1, scale)
            },
        );
    }
    None
}

/// IR 32-59 and the alternates: what the register `name` shows.
pub fn input_b_of(name: &str, scale: i64, s: &PlantState) -> (r: Option<u16>)
    requires
        -MAX_MICROS <= scale <= MAX_MICROS,
    ensures
        projection::lifted(r) == input_b(name@, scale as int, *s),
{
    if same(name, "ge_ir_grid_import_total_high") {
        return Some(high_half_of(wide_of(s.energy_totals.grid_import_kwh.exact(), 100_000)));
    }
    if same(name, "ge_ir_grid_import_total_low") {
        return Some(low_half_of(wide_of(s.energy_totals.grid_import_kwh.exact(), 100_000)));
    }
    if same(name, "ge_ir_ac_charge_today") {
        return Some(rounded_word_of(s.energy_totals.ac_charge_kwh.exact(), 100_000));
    }
    if same(name, "ge_ir_today_charge_energy") {
        return Some(scaled_of(s.energy_totals.battery_charge_kwh.exact(), 1, scale));
    }
    if same(name, "ge_ir_today_discharge_energy") {
        return Some(scaled_of(s.energy_totals.battery_discharge_kwh.exact(), 1, scale));
    }
    if same(name, "ge_ir_countdown") {
        return Some(scaled_of(0, 1, scale));
    }
    if same(name, "ge_ir_fault_code_high") {
        return Some(high_half_of(single_phase_faults_of(s)));
    }
    if same(name, "ge_ir_fault_code_low") {
        return Some(low_half_of(single_phase_faults_of(s)));
    }
    if same(name, "ge_ir_inverter_temperature") || same(name, "ge_ir_charger_temperature") {
        return Some(scaled_of(s.inverter.temperature_celsius.exact(), 1, scale));
    }
    if same(name, "ge_ir_load_demand") {
        return Some(scaled_of(s.load_demand_w.exact(), 1, scale));
    }
    if same(name, "ge_ir_grid_apparent") {
        return Some(
            if s.grid.connected {
                scaled_of(magnitude_of(s.inverter.ac_power_w.micros()) as i128, 1, scale)
            } else {
                scaled_of(0, 1, scale)
            },
        );
    }
    if same(name, "ge_ir_pv_generation_today") {
        return Some(scaled_of(s.energy_totals.inverter_output_kwh.exact(), 1, scale));
    }
    if same(name, "ge_ir_pv_generation_total_high") {
        return Some(high_half_of(wide_of(s.energy_totals.inverter_output_kwh.exact(), 100_000)));
    }
    if same(name, "ge_ir_pv_generation_total_low") {
        return Some(low_half_of(wide_of(s.energy_totals.inverter_output_kwh.exact(), 100_000)));
    }
    if same(name, "ge_ir_work_time_total_high") {
        return Some(high_half_of(wide_of(s.inverter.work_time_hours.exact(), 1_000_000)));
    }
    if same(name, "ge_ir_work_time_total_low") {
        return Some(low_half_of(wide_of(s.inverter.work_time_hours.exact(), 1_000_000)));
    }
    if same(name, "ge_ir_system_mode") {
        return Some(
            if !s.grid.connected {
                scaled_of(1_000_000, 1, scale)
            } else if s.active_faults.len() > 0 {
                scaled_of(3_000_000, 1, scale)
            } else {
                scaled_of(2_000_000, 1, scale)
            },
        );
    }
    if same(name, "ge_ir_battery_voltage") {
        return Some(
            if is_gateway_inverter(s.config.inverter_type.as_str()) {
                scaled_of(0, 1, scale)
            } else {
                scaled_of(4_400_000_000 + s.battery.soc_percent.exact() * 8, 100, scale)
            },
        );
    }
    if same(name, "ge_ir_battery_current") {
        return Some(
            if is_gateway_inverter(s.config.inverter_type.as_str()) {
                0
            } else {
                signed_cut_word_of(-(s.battery.power_kw.exact() * 1000), 480_000)
            },
        );
    }
    if same(name, "ge_ir_battery_power") {
        return Some(
            if is_gateway_inverter(s.config.inverter_type.as_str()) {
                0
            } else {
                signed_cut_word_of(-(s.battery.power_kw.exact() * 1000), 1_000_000)
            },
        );
    }
    if same(name, "ge_ir_eps_voltage") {
        return Some(
            if s.enable_eps {
                scaled_of(240_000_000, 1, scale)
            } else {
                scaled_of(0, 1, scale)
            },
        );
    }
    if same(name, "ge_ir_eps_frequency") {
        return Some(
            if s.enable_eps {
                scaled_of(50_000_000, 1, scale)
            } else {
                scaled_of(0, 1, scale)
            },
        );
    }
    if same(name, "ge_ir_battery_temperature") {
        return Some(
            if is_gateway_inverter(s.config.inverter_type.as_str()) {
                scaled_of(0, 1, scale)
            } else {
                scaled_of(s.battery.temperature_celsius.exact(), 1, scale)
            },
        );
    }
    if same(name, "ge_ir_charger_warning_code") {
        return Some(
            if has_fault(&s.active_faults, "battery_over_temp") {
                scaled_of(1_000_000, 1, scale)
            } else {
                scaled_of(0, 1, scale)
            },
        );
    }
    if same(name, "ge_ir_grid_port_current") {
        return Some(
            if s.grid.connected {
                scaled_of(magnitude_of(s.inverter.ac_power_w.micros()) as i128, 240, scale)
            } else {
                scaled_of(0, 1, scale)
            },
        );
    }
    if same(name, "ge_ir_battery_soc") {
        return Some(
            if is_gateway_inverter(s.config.inverter_type.as_str()) {
                scaled_of(0, 1, scale)
            } else {
                scaled_of(s.battery.soc_percent.exact(), 1, scale)
            },
        );
    }
    if same(name, "ge_ir_battery_discharge_total_alt1")
        || same(name, "ge_ir_battery_charge_total_alt1") {
        return Some(scaled_of(module_total_of(s.batteries.as_slice(), ModuleQuantity::Throughput), 2, scale));
    }
    if same(name, "ge_ir_battery_discharge_today_alt2") {
        return Some(scaled_of(s.energy_totals.battery_discharge_kwh.exact(), 1, scale));
    }
    if same(name, "ge_ir_battery_charge_today_alt2") {
        return Some(scaled_of(s.energy_totals.battery_charge_kwh.exact(), 1, scale));
    }
    if same(name, "ge_ir_combined_generation_high") {
        return Some(high_half_of(wide_of(s.solar.generation_w.exact(), 1_000_000)));
    }
    if same(name, "ge_ir_combined_generation_low") {
        return Some(low_half_of(wide_of(s.solar.generation_w.exact(), 1_000_000)));
    }
    None
}

} // verus!
