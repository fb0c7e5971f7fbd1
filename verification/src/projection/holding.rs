//! Native holding registers, HR 0-320 and HR 4107-4142.
use crate::fixed;
use crate::fixed::{high_half_of, low_half_of, rounded_word_of, wide_of, MAX_MICROS};
use crate::model;
use crate::model::{
    device_type_code, is_gateway_inverter, is_three_phase_inverter, nominal_decivolts_of,
    shown_firmware_of,
};
use crate::projection;
use crate::projection::{flag, scaled_of};
use crate::state;
use crate::state::{module_total_of, InverterMode, ModuleQuantity, PlantState};
use crate::text::same;
use vstd::prelude::*;

verus! {

/// The year as the clock register shows it.
pub open spec fn year_word(year: int) -> int {
    year % 65536
}

/// The year as the clock register shows it.
fn year_word_of(year: i32) -> (r: u16)
    ensures
        r == year_word(year as int),
{
    let shifted: i64 = year as i64 + 2147483648;
    (shifted % 65536) as u16
}

/// HR 0-54: what the register `name` shows.
pub open spec fn holding_a(name: Seq<char>, scale: int, s: PlantState) -> Option<int> {
    if name == "ge_hr_device_type"@ {
        Some(model::type_code(s.config.inverter_type@))
    } else if name == "ge_hr_module_high"@ || name == "ge_hr_module_low"@ {
        Some(0)
    } else if name == "ge_hr_mppt_phase_count"@ {
        Some(
            (if s.config.pv2_peak_watts@ > 0 {
                0x200int
            } else {
                0x100
            }) + (if model::three_phase(s.config.inverter_type@) {
                3int
            } else {
                1
            }),
        )
    } else if name == "ge_hr_enable_ammeter"@ {
        Some(1)
    } else if name == "ge_hr_first_battery_serial_0"@ {
        Some(
            if model::gateway(s.config.inverter_type@) {
                0
            } else {
                0x4241
            },
        )
    } else if name == "ge_hr_first_battery_serial_1"@ {
        Some(
            if model::gateway(s.config.inverter_type@) {
                0
            } else {
                0x5430
            },
        )
    } else if name == "ge_hr_first_battery_serial_2"@ {
        Some(
            if model::gateway(s.config.inverter_type@) {
                0
            } else {
                0x3030
            },
        )
    } else if name == "ge_hr_first_battery_serial_3"@ {
        Some(
            if model::gateway(s.config.inverter_type@) {
                0
            } else {
                0x3031
            },
        )
    } else if name == "ge_hr_first_battery_serial_4"@ {
        Some(
            if model::gateway(s.config.inverter_type@) {
                0
            } else {
                0x2020
            },
        )
    } else if name == "ge_hr_serial_0"@ {
        Some(
            if s.config.inverter_type@ == "ThreePhase11kW"@ {
                0x5a41
            } else {
                0x5349
            },
        )
    } else if name == "ge_hr_serial_1"@ {
        Some(
            if s.config.inverter_type@ == "ThreePhase11kW"@ {
                0x4141
            } else {
                0x4d30
            },
        )
    } else if name == "ge_hr_serial_2"@ {
        Some(
            if s.config.inverter_type@ == "ThreePhase11kW"@ {
                0x3131
            } else {
                0x3031
            },
        )
    } else if name == "ge_hr_serial_3"@ {
        Some(
            if s.config.inverter_type@ == "ThreePhase11kW"@ {
                0x3131
            } else {
                0x3233
            },
        )
    } else if name == "ge_hr_serial_4"@ {
        Some(
            if s.config.inverter_type@ == "ThreePhase11kW"@ {
                0x3131
            } else {
                0x3435
            },
        )
    } else if name == "ge_hr_first_battery_bms_firmware"@ {
        Some(
            if model::gateway(s.config.inverter_type@) {
                0
            } else {
                100
            },
        )
    } else if name == "ge_hr_dsp_firmware"@ {
        Some(s.inverter.dsp_firmware_version as int)
    } else if name == "ge_hr_arm_firmware"@ {
        Some(model::shown_firmware(s.config.inverter_type@, s.inverter.arm_firmware_version as int))
    } else if name == "ge_hr_usb_device_inserted"@ {
        Some(1)
    } else if name == "ge_hr_select_arm_chip"@
        || name == "ge_hr_variable_address"@
        || name == "ge_hr_variable_value"@ {
        Some(0)
    } else if name == "ge_hr_grid_port_max_power_output"@ {
        Some(projection::scaled(s.config.max_ac_watts@, 1, scale))
    } else if name == "ge_hr_battery_calibration_stage"@ {
        Some(s.calibration_stage as int)
    } else if name == "ge_hr_enable_charge_target"@ {
        Some(projection::bit(s.enable_charge_target))
    } else if name == "ge_hr_battery_power_mode"@ {
        Some(
            if s.inverter.effective_mode == InverterMode::Eco {
                1
            } else {
                0
            },
        )
    } else if name == "ge_hr_enable_60hz_freq_mode"@ {
        Some(0)
    } else if name == "ge_hr_modbus_address"@ {
        Some(0x32)
    } else if name == "ge_hr_charge_slot_2_start"@ || name == "ge_hr_charge_slot_2_end"@ {
        Some(60)
    } else if name == "ge_hr_system_time_year"@ {
        Some(year_word(s.timestamp.year as int))
    } else if name == "ge_hr_system_time_month"@ {
        Some(s.timestamp.month as int % 65536)
    } else if name == "ge_hr_system_time_day"@ {
        Some(s.timestamp.day as int % 65536)
    } else if name == "ge_hr_system_time_hour"@ {
        Some(s.timestamp.hour as int % 65536)
    } else if name == "ge_hr_system_time_minute"@ {
        Some(s.timestamp.minute as int % 65536)
    } else if name == "ge_hr_system_time_second"@ {
        Some(s.timestamp.second as int % 65536)
    } else if name == "ge_hr_user_code"@ {
        Some(0)
    } else if name == "ge_hr_modbus_version"@ {
        Some(projection::scaled(1_000_000, 1, scale))
    } else if name == "ge_hr_enable_drm_rj45_port"@ || name == "ge_hr_enable_reversed_ct_clamp"@ {
        Some(0)
    } else if name == "ge_hr_charge_discharge_soc"@ {
        Some(0x6404)
    } else if name == "ge_hr_discharge_slot_2_start"@ || name == "ge_hr_discharge_slot_2_end"@ {
        Some(60)
    } else if name == "ge_hr_bms_firmware_version"@ {
        Some(100)
    } else if name == "ge_hr_meter_type"@
        || name == "ge_hr_enable_reversed_115_meter"@
        || name == "ge_hr_enable_reversed_418_meter"@ {
        Some(0)
    } else if name == "ge_hr_active_power_rate"@ {
        Some(projection::scaled(s.active_power_rate_percent@, 1, scale))
    } else if name == "ge_hr_reactive_power_rate"@ {
        Some(projection::scaled(100_000_000, 1, scale))
    } else if name == "ge_hr_power_factor"@ {
        Some(10000)
    } else if name == "ge_hr_enable_inverter_flags"@ {
        Some(0x0101)
    } else if name == "ge_hr_battery_type"@ {
        Some(1)
    } else {
        None
    }
}

/// HR 55 and up: what the register `name` shows.
pub open spec fn holding_b(name: Seq<char>, scale: int, s: PlantState) -> Option<int> {
    if name == "ge_hr_battery_capacity_ah"@ {
        Some(fixed::rounded_word(s.battery.capacity_kwh@, model::nominal_decivolts(s.config.inverter_type@) * 100))
    } else if name == "ge_hr_discharge_slot_1_start"@ || name == "ge_hr_discharge_slot_1_end"@ {
        Some(60)
    } else if name == "ge_hr_enable_auto_judge_battery_type"@ {
        Some(1)
    } else if name == "ge_hr_enable_discharge"@ {
        Some(
            if s.inverter.effective_mode == InverterMode::ForceDischarge {
                1
            } else {
                0
            },
        )
    } else if name == "ge_hr_pv_start_voltage"@ {
        Some(projection::scaled(120_000_000, 1, scale))
    } else if name == "ge_hr_start_countdown_timer"@ || name == "ge_hr_restart_delay_time"@ {
        Some(0)
    } else if name == "ge_hr_charge_slot_1_start"@ || name == "ge_hr_charge_slot_1_end"@ {
        Some(60)
    } else if name == "ge_hr_enable_charge"@ {
        Some(
            if s.inverter.effective_mode == InverterMode::ForceCharge {
                1
            } else {
                0
            },
        )
    } else if name == "ge_hr_battery_low_voltage_protection_limit"@ {
        Some(projection::scaled(40_000_000, 1, scale))
    } else if name == "ge_hr_battery_high_voltage_protection_limit"@ {
        Some(projection::scaled(60_000_000, 1, scale))
    } else if name == "ge_hr_battery_voltage_adjust"@
        || name == "ge_hr_battery_low_force_charge_time"@ {
        Some(projection::scaled(0, 1, scale))
    } else if name == "ge_hr_enable_bms_read"@ {
        Some(1)
    } else if name == "ge_hr_battery_soc_reserve"@ {
        Some(projection::scaled(s.battery.min_soc_percent@, 1, scale))
    } else if name == "ge_hr_battery_charge_limit"@
        || name == "ge_hr_battery_charge_limit_ac"@
        || name == "tph_battery_charge_limit_ac"@ {
        Some(projection::scaled(s.battery_charge_limit_percent@, 1, scale))
    } else if name == "ge_hr_battery_discharge_limit"@
        || name == "ge_hr_battery_discharge_limit_ac"@
        || name == "tph_battery_discharge_limit_ac"@ {
        Some(projection::scaled(s.battery_discharge_limit_percent@, 1, scale))
    } else if name == "ge_hr_enable_buzzer"@ {
        Some(0)
    } else if name == "ge_hr_battery_discharge_min_power_reserve"@ {
        Some(projection::scaled(s.battery_discharge_min_power_reserve@, 1, scale))
    } else if name == "ge_hr_island_check_continue"@ {
        Some(0)
    } else if name == "ge_hr_charge_target_soc"@ {
        Some(projection::scaled(100_000_000, 1, scale))
    } else if name == "ge_hr_charge_soc_stop_2"@
        || name == "ge_hr_discharge_soc_stop_2"@
        || name == "ge_hr_charge_soc_stop_1"@
        || name == "ge_hr_discharge_soc_stop_1"@ {
        Some(100)
    } else if name == "ge_hr_enable_local_command_test"@
        || name == "ge_hr_enable_low_voltage_fault_ride_through"@
        || name == "ge_hr_enable_frequency_derating"@
        || name == "ge_hr_enable_above_6kw_system"@
        || name == "ge_hr_start_system_auto_test"@
        || name == "ge_hr_enable_spi"@ {
        Some(0)
    } else if name == "ge_hr_power_factor_function_model"@
        || name == "ge_hr_frequency_load_limit_rate"@ {
        Some(0)
    } else if name == "ge_hr_inverter_reboot"@ {
        Some(0)
    } else if name == "ge_hr_rtc_enable"@ {
        Some(projection::bit(s.enable_rtc))
    } else if name == "ge_hr_threephase_balance_mode"@
        || name == "ge_hr_threephase_abc"@
        || name == "ge_hr_threephase_balance_1"@
        || name == "ge_hr_threephase_balance_2"@
        || name == "ge_hr_threephase_balance_3"@ {
        Some(0)
    } else if name == "ge_hr_enable_battery_on_pv_or_grid"@
        || name == "ge_hr_debug_inverter"@
        || name == "ge_hr_enable_ups_mode"@
        || name == "ge_hr_enable_g100_limit_switch"@
        || name == "ge_hr_enable_battery_cable_impedance_alarm"@ {
        Some(0)
    } else if name == "ge_hr_enable_standard_self_consumption_logic"@ {
        Some(projection::bit(s.enable_inverter_parallel_mode))
    } else if name == "ge_hr_battery_pause_mode"@ {
        Some(s.battery_pause_mode as int)
    } else if name == "ge_hr_battery_pause_slot_1_start"@ {
        Some(s.battery_pause_slot_start as int)
    } else if name == "ge_hr_battery_pause_slot_1_end"@ {
        Some(s.battery_pause_slot_end as int)
    } else if name == "ge_hr_export_priority"@ {
        Some(s.export_priority as int)
    } else if name == "ge_hr_enable_eps"@ {
        Some(projection::bit(s.enable_eps))
    } else if name == "ge_hr_pv_power_setting_high"@ {
        Some(fixed::high_half(fixed::wide(s.config.solar_peak_watts@, 1_000_000)))
    } else if name == "ge_hr_pv_power_setting_low"@ {
        Some(fixed::low_half(fixed::wide(s.config.solar_peak_watts@, 1_000_000)))
    } else if name == "ge_hr_battery_discharge_total_alt2_high"@ {
        Some(fixed::high_half(fixed::wide(state::module_total(s.batteries@, ModuleQuantity::Throughput), 200_000)))
    } else if name == "ge_hr_battery_discharge_total_alt2_low"@ {
        Some(fixed::low_half(fixed::wide(state::module_total(s.batteries@, ModuleQuantity::Throughput), 200_000)))
    } else if name == "ge_hr_battery_charge_total_alt2_high"@ {
        Some(fixed::high_half(fixed::wide(state::module_total(s.batteries@, ModuleQuantity::Throughput), 200_000)))
    } else if name == "ge_hr_battery_charge_total_alt2_low"@ {
        Some(fixed::low_half(fixed::wide(state::module_total(s.batteries@, ModuleQuantity::Throughput), 200_000)))
    } else if name == "ge_hr_battery_discharge_today_alt3"@ {
        Some(projection::scaled(s.energy_totals.battery_discharge_kwh@, 1, scale))
    } else if name == "ge_hr_battery_charge_today_alt3"@ {
        Some(projection::scaled(s.energy_totals.battery_charge_kwh@, 1, scale))
    } else if name == "ge_hr_inverter_export_total_high"@ {
        Some(fixed::high_half(fixed::wide(s.energy_totals.grid_export_kwh@, 100_000)))
    } else if name == "ge_hr_inverter_export_total_low"@ {
        Some(fixed::low_half(fixed::wide(s.energy_totals.grid_export_kwh@, 100_000)))
    } else if name == "ems_plant_enable"@ {
        Some(projection::bit(s.ems_enabled))
    } else if name == "tph_p_export_limit"@ || name == "ems_export_power_limit"@ {
        Some(projection::scaled(s.inverter.export_limit_w@, 1, scale))
    } else {
        None
    }
}

/// HR 0-54: what the register `name` shows.
pub fn holding_a_of(name: &str, scale: i64, s: &PlantState) -> (r: Option<u16>)
    requires
        -MAX_MICROS <= scale <= MAX_MICROS,
    ensures
        projection::lifted(r) == holding_a(name@, scale as int, *s),
{
    if same(name, "ge_hr_device_type") {
        return Some(device_type_code(s.config.inverter_type.as_str()));
    }
    if same(name, "ge_hr_module_high") || same(name, "ge_hr_module_low") {
        return Some(0);
    }
    if same(name, "ge_hr_mppt_phase_count") {
        return Some(
            (if s.config.pv2_peak_watts.micros() > 0 {
                0x200
            } else {
                0x100
            }) + (if is_three_phase_inverter(s.config.inverter_type.as_str()) {
                3
            } else {
                1
            }),
        );
    }
    if same(name, "ge_hr_enable_ammeter") {
        return Some(1);
    }
    if same(name, "ge_hr_first_battery_serial_0") {
        return Some(
            if is_gateway_inverter(s.config.inverter_type.as_str()) {
                0
            } else {
                0x4241
            },
        );
    }
    if same(name, "ge_hr_first_battery_serial_1") {
        return Some(
            if is_gateway_inverter(s.config.inverter_type.as_str()) {
                0
            } else {
                0x5430
            },
        );
    }
    if same(name, "ge_hr_first_battery_serial_2") {
        return Some(
            if is_gateway_inverter(s.config.inverter_type.as_str()) {
                0
            } else {
                0x3030
            },
        );
    }
    if same(name, "ge_hr_first_battery_serial_3") {
        return Some(
            if is_gateway_inverter(s.config.inverter_type.as_str()) {
                0
            } else {
                0x3031
            },
        );
    }
    if same(name, "ge_hr_first_battery_serial_4") {
        return Some(
            if is_gateway_inverter(s.config.inverter_type.as_str()) {
                0
            } else {
                0x2020
            },
        );
    }
    if same(name, "ge_hr_serial_0") {
        return Some(
            if same(s.config.inverter_type.as_str(), "ThreePhase11kW") {
                0x5a41
            } else {
                0x5349
            },
        );
    }
    if same(name, "ge_hr_serial_1") {
        return Some(
            if same(s.config.inverter_type.as_str(), "ThreePhase11kW") {
                0x4141
            } else {
                0x4d30
            },
        );
    }
    if same(name, "ge_hr_serial_2") {
        return Some(
            if same(s.config.inverter_type.as_str(), "ThreePhase11kW") {
                0x3131
            } else {
                0x3031
            },
        );
    }
    if same(name, "ge_hr_serial_3") {
        return Some(
            if same(s.config.inverter_type.as_str(), "ThreePhase11kW") {
                0x3131
            } else {
                0x3233
            },
        );
    }
    if same(name, "ge_hr_serial_4") {
        return Some(
            if same(s.config.inverter_type.as_str(), "ThreePhase11kW") {
                0x3131
            } else {
                0x3435
            },
        );
    }
    if same(name, "ge_hr_first_battery_bms_firmware") {
        return Some(
            if is_gateway_inverter(s.config.inverter_type.as_str()) {
                0
            } else {
                100
            },
        );
    }
    if same(name, "ge_hr_dsp_firmware") {
        return Some(s.inverter.dsp_firmware_version);
    }
    if same(name, "ge_hr_arm_firmware") {
        return Some(shown_firmware_of(s.config.inverter_type.as_str(), s.inverter.arm_firmware_version));
    }
    if same(name, "ge_hr_usb_device_inserted") {
        return Some(1);
    }
    if same(name, "ge_hr_select_arm_chip")
        || same(name, "ge_hr_variable_address")
        || same(name, "ge_hr_variable_value") {
        return Some(0);
    }
    if same(name, "ge_hr_grid_port_max_power_output") {
        return Some(scaled_of(s.config.max_ac_watts.exact(), 1, scale));
    }
    if same(name, "ge_hr_battery_calibration_stage") {
        return Some(s.calibration_stage as u16);
    }
    if same(name, "ge_hr_enable_charge_target") {
        return Some(flag(s.enable_charge_target));
    }
    if same(name, "ge_hr_battery_power_mode") {
        return Some(
            if s.inverter.effective_mode == InverterMode::Eco {
                1
            } else {
                0
            },
        );
    }
    if same(name, "ge_hr_enable_60hz_freq_mode") {
        return Some(0);
    }
    if same(name, "ge_hr_modbus_address") {
        return Some(0x32);
    }
    if same(name, "ge_hr_charge_slot_2_start") || same(name, "ge_hr_charge_slot_2_end") {
        return Some(60);
    }
    if same(name, "ge_hr_system_time_year") {
        return Some(year_word_of(s.timestamp.year));
    }
    if same(name, "ge_hr_system_time_month") {
        return Some((s.timestamp.month % 65536) as u16);
    }
    if same(name, "ge_hr_system_time_day") {
        return Some((s.timestamp.day % 65536) as u16);
    }
    if same(name, "ge_hr_system_time_hour") {
        return Some((s.timestamp.hour % 65536) as u16);
    }
    if same(name, "ge_hr_system_time_minute") {
        return Some((s.timestamp.minute % 65536) as u16);
    }
    if same(name, "ge_hr_system_time_second") {
        return Some((s.timestamp.second % 65536) as u16);
    }
    if same(name, "ge_hr_user_code") {
        return Some(0);
    }
    if same(name, "ge_hr_modbus_version") {
        return Some(scaled_of(1_000_000, 1, scale));
    }
    if same(name, "ge_hr_enable_drm_rj45_port")
        || same(name, "ge_hr_enable_reversed_ct_clamp") {
        return Some(0);
    }
    if same(name, "ge_hr_charge_discharge_soc") {
        return Some(0x6404);
    }
    if same(name, "ge_hr_discharge_slot_2_start")
        || same(name, "ge_hr_discharge_slot_2_end") {
        return Some(60);
    }
    if same(name, "ge_hr_bms_firmware_version") {
        return Some(100);
    }
    if same(name, "ge_hr_meter_type")
        || same(name, "ge_hr_enable_reversed_115_meter")
        || same(name, "ge_hr_enable_reversed_418_meter") {
        return Some(0);
    }
    if same(name, "ge_hr_active_power_rate") {
        return Some(scaled_of(s.active_power_rate_percent.exact(), 1, scale));
    }
    if same(name, "ge_hr_reactive_power_rate") {
        return Some(scaled_of(100_000_000, 1, scale));
    }
    if same(name, "ge_hr_power_factor") {
        return Some(10000);
    }
    if same(name, "ge_hr_enable_inverter_flags") {
        return Some(0x0101);
    }
    if same(name, "ge_hr_battery_type") {
        return Some(1);
    }
    None
}

/// HR 55 and up: what the register `name` shows.
pub fn holding_b_of(name: &str, scale: i64, s: &PlantState) -> (r: Option<u16>)
    requires
        -MAX_MICROS <= scale <= MAX_MICROS,
    ensures
        projection::lifted(r) == holding_b(name@, scale as int, *s),
{
    if same(name, "ge_hr_battery_capacity_ah") {
        return Some(rounded_word_of(s.battery.capacity_kwh.exact(), nominal_decivolts_of(s.config.inverter_type.as_str()) as i128 * 100));
    }
    if same(name, "ge_hr_discharge_slot_1_start")
        || same(name, "ge_hr_discharge_slot_1_end") {
        return Some(60);
    }
    if same(name, "ge_hr_enable_auto_judge_battery_type") {
        return Some(1);
    }
    if same(name, "ge_hr_enable_discharge") {
        return Some(
            if s.inverter.effective_mode == InverterMode::ForceDischarge {
                1
            } else {
                0
            },
        );
    }
    if same(name, "ge_hr_pv_start_voltage") {
        return Some(scaled_of(120_000_000, 1, scale));
    }
    if same(name, "ge_hr_start_countdown_timer") || same(name, "ge_hr_restart_delay_time") {
        return Some(0);
    }
    if same(name, "ge_hr_charge_slot_1_start") || same(name, "ge_hr_charge_slot_1_end") {
        return Some(60);
    }
    if same(name, "ge_hr_enable_charge") {
        return Some(
            if s.inverter.effective_mode == InverterMode::ForceCharge {
                1
            } else {
                0
            },
        );
    }
    if same(name, "ge_hr_battery_low_voltage_protection_limit") {
        return Some(scaled_of(40_000_000, 1, scale));
    }
    if same(name, "ge_hr_battery_high_voltage_protection_limit") {
        return Some(scaled_of(60_000_000, 1, scale));
    }
    if same(name, "ge_hr_battery_voltage_adjust")
        || same(name, "ge_hr_battery_low_force_charge_time") {
        return Some(scaled_of(0, 1, scale));
    }
    if same(name, "ge_hr_enable_bms_read") {
        return Some(1);
    }
    if same(name, "ge_hr_battery_soc_reserve") {
        return Some(scaled_of(s.battery.min_soc_percent.exact(), 1, scale));
    }
    if same(name, "ge_hr_battery_charge_limit")
        || same(name, "ge_hr_battery_charge_limit_ac")
        || same(name, "tph_battery_charge_limit_ac") {
        return Some(scaled_of(s.battery_charge_limit_percent.exact(), 1, scale));
    }
    if same(name, "ge_hr_battery_discharge_limit")
        || same(name, "ge_hr_battery_discharge_limit_ac")
        || same(name, "tph_battery_discharge_limit_ac") {
        return Some(scaled_of(s.battery_discharge_limit_percent.exact(), 1, scale));
    }
    if same(name, "ge_hr_enable_buzzer") {
        return Some(0);
    }
    if same(name, "ge_hr_battery_discharge_min_power_reserve") {
        return Some(scaled_of(s.battery_discharge_min_power_reserve.exact(), 1, scale));
    }
    if same(name, "ge_hr_island_check_continue") {
        return Some(0);
    }
    if same(name, "ge_hr_charge_target_soc") {
        return Some(scaled_of(100_000_000, 1, scale));
    }
    if same(name, "ge_hr_charge_soc_stop_2")
        || same(name, "ge_hr_discharge_soc_stop_2")
        || same(name, "ge_hr_charge_soc_stop_1")
        || same(name, "ge_hr_discharge_soc_stop_1") {
        return Some(100);
    }
    if same(name, "ge_hr_enable_local_command_test")
        || same(name, "ge_hr_enable_low_voltage_fault_ride_through")
        || same(name, "ge_hr_enable_frequency_derating")
        || same(name, "ge_hr_enable_above_6kw_system")
        || same(name, "ge_hr_start_system_auto_test")
        || same(name, "ge_hr_enable_spi") {
        return Some(0);
    }
    if same(name, "ge_hr_power_factor_function_model")
        || same(name, "ge_hr_frequency_load_limit_rate") {
        return Some(0);
    }
    if same(name, "ge_hr_inverter_reboot") {
        return Some(0);
    }
    if same(name, "ge_hr_rtc_enable") {
        return Some(flag(s.enable_rtc));
    }
    if same(name, "ge_hr_threephase_balance_mode")
        || same(name, "ge_hr_threephase_abc")
        || same(name, "ge_hr_threephase_balance_1")
        || same(name, "ge_hr_threephase_balance_2")
        || same(name, "ge_hr_threephase_balance_3") {
        return Some(0);
    }
    if same(name, "ge_hr_enable_battery_on_pv_or_grid")
        || same(name, "ge_hr_debug_inverter")
        || same(name, "ge_hr_enable_ups_mode")
        || same(name, "ge_hr_enable_g100_limit_switch")
        || same(name, "ge_hr_enable_battery_cable_impedance_alarm") {
        return Some(0);
    }
    if same(name, "ge_hr_enable_standard_self_consumption_logic") {
        return Some(flag(s.enable_inverter_parallel_mode));
    }
    if same(name, "ge_hr_battery_pause_mode") {
        return Some(s.battery_pause_mode);
    }
    if same(name, "ge_hr_battery_pause_slot_1_start") {
        return Some(s.battery_pause_slot_start);
    }
    if same(name, "ge_hr_battery_pause_slot_1_end") {
        return Some(s.battery_pause_slot_end);
    }
    if same(name, "ge_hr_export_priority") {
        return Some(s.export_priority);
    }
    if same(name, "ge_hr_enable_eps") {
        return Some(flag(s.enable_eps));
    }
    if same(name, "ge_hr_pv_power_setting_high") {
        return Some(high_half_of(wide_of(s.config.solar_peak_watts.exact(), 1_000_000)));
    }
    if same(name, "ge_hr_pv_power_setting_low") {
        return Some(low_half_of(wide_of(s.config.solar_peak_watts.exact(), 1_000_000)));
    }
    if same(name, "ge_hr_battery_discharge_total_alt2_high") {
        return Some(high_half_of(wide_of(module_total_of(s.batteries.as_slice(), ModuleQuantity::Throughput), 200_000)));
    }
    if same(name, "ge_hr_battery_discharge_total_alt2_low") {
        return Some(low_half_of(wide_of(module_total_of(s.batteries.as_slice(), ModuleQuantity::Throughput), 200_000)));
    }
    if same(name, "ge_hr_battery_charge_total_alt2_high") {
        return Some(high_half_of(wide_of(module_total_of(s.batteries.as_slice(), ModuleQuantity::Throughput), 200_000)));
    }
    if same(name, "ge_hr_battery_charge_total_alt2_low") {
        return Some(low_half_of(wide_of(module_total_of(s.batteries.as_slice(), ModuleQuantity::Throughput), 200_000)));
    }
    if same(name, "ge_hr_battery_discharge_today_alt3") {
        return Some(scaled_of(s.energy_totals.battery_discharge_kwh.exact(), 1, scale));
    }
    if same(name, "ge_hr_battery_charge_today_alt3") {
        return Some(scaled_of(s.energy_totals.battery_charge_kwh.exact(), 1, scale));
    }
    if same(name, "ge_hr_inverter_export_total_high") {
        return Some(high_half_of(wide_of(s.energy_totals.grid_export_kwh.exact(), 100_000)));
    }
    if same(name, "ge_hr_inverter_export_total_low") {
        return Some(low_half_of(wide_of(s.energy_totals.grid_export_kwh.exact(), 100_000)));
    }
    if same(name, "ems_plant_enable") {
        return Some(flag(s.ems_enabled));
    }
    if same(name, "tph_p_export_limit") || same(name, "ems_export_power_limit") {
        return Some(scaled_of(s.inverter.export_limit_w.exact(), 1, scale));
    }
    None
}

} // verus!
