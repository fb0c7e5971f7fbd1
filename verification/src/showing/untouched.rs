//! Registers that a plant leaves alone: they hold what was written or planned there.
use crate::catalogue;
use crate::projection;
use crate::projection::{ems, holding, internal, meter, native_input, three_phase};
use crate::register_laws;
use crate::registers;
use crate::registers::Definition;
use crate::showing::{definitions, names, plain, words};
use crate::state::PlantState;
use vstd::prelude::*;

verus! {

/// A register of the catalogue that shows nothing of the plant keeps its word.
proof fn lemma_kept(values: Map<u32, u16>, s: PlantState, key: int)
    requires
        0 <= catalogue::place(key) < 639,
        projection::projected(catalogue::definition_at(key), s) is None,
        plain::gateway(s.config.inverter_type@) ==> !(1600 <= key <= 1859) && !(10_013 <= key
            <= 10_017),
    ensures
        registers::projected_values(values, catalogue::catalogue(), s).get(key as u32)
            == values.get(key as u32),
{
    catalogue::law_catalogue_well_formed();
    register_laws::law_catalogue_keys_distinct();
    words::lemma_types(s.config.inverter_type@);
    let c = catalogue::catalogue();
    let i = catalogue::place(key);
    assert(catalogue::stands_at(c[i], i));
    assert(catalogue::place(c[i].key()) == catalogue::place(key));
    assert(c[i].key() == key);
    register_laws::law_registers_show_their_words(values, c, s, i);
}

/// The second letters of the names that begin like those of a gateway.
proof fn lemma_second_letters()
    ensures
        "ge_ir_status"@[1] == 'e',
        "ge_ir_pv1_voltage"@[1] == 'e',
        "ge_ir_pv2_voltage"@[1] == 'e',
        "ge_ir_p_bus_voltage"@[1] == 'e',
        "ge_ir_high_bus_voltage"@[1] == 'e',
        "ge_ir_n_bus_voltage"@[1] == 'e',
        "ge_ir_grid_voltage"@[1] == 'e',
        "ge_ir_battery_throughput_high"@[1] == 'e',
        "ge_ir_battery_throughput_low"@[1] == 'e',
        "ge_ir_pv1_current"@[1] == 'e',
        "ge_ir_pv2_current"@[1] == 'e',
        "ge_ir_ac_current"@[1] == 'e',
        "ge_ir_pv_total_high"@[1] == 'e',
        "ge_ir_pv_total_low"@[1] == 'e',
        "ge_ir_grid_frequency"@[1] == 'e',
        "ge_ir_charge_status"@[1] == 'e',
        "ge_ir_inverter_output_pf"@[1] == 'e',
        "ge_ir_pv1_energy_today"@[1] == 'e',
        "ge_ir_pv1_power"@[1] == 'e',
        "ge_ir_pv2_energy_today"@[1] == 'e',
        "ge_ir_pv2_power"@[1] == 'e',
        "ge_ir_grid_export_total_high"@[1] == 'e',
        "ge_ir_grid_export_total_low"@[1] == 'e',
        "ge_ir_solar_diverter_energy"@[1] == 'e',
        "ge_ir_inverter_terminal_power"@[1] == 'e',
        "ge_ir_today_export_energy"@[1] == 'e',
        "ge_ir_today_import_energy"@[1] == 'e',
        "ge_ir_inverter_input_total_high"@[1] == 'e',
        "ge_ir_inverter_input_total_low"@[1] == 'e',
        "ge_ir_discharge_year"@[1] == 'e',
        "ge_ir_grid_power"@[1] == 'e',
        "ge_ir_eps_backup_power"@[1] == 'e',
        "ge_ir_grid_import_total_high"@[1] == 'e',
        "ge_ir_grid_import_total_low"@[1] == 'e',
        "ge_ir_ac_charge_today"@[1] == 'e',
        "ge_ir_today_charge_energy"@[1] == 'e',
        "ge_ir_today_discharge_energy"@[1] == 'e',
        "ge_ir_countdown"@[1] == 'e',
        "ge_ir_fault_code_high"@[1] == 'e',
        "ge_ir_fault_code_low"@[1] == 'e',
        "ge_ir_inverter_temperature"@[1] == 'e',
        "ge_ir_charger_temperature"@[1] == 'e',
        "ge_ir_load_demand"@[1] == 'e',
        "ge_ir_grid_apparent"@[1] == 'e',
        "ge_ir_pv_generation_today"@[1] == 'e',
        "ge_ir_pv_generation_total_high"@[1] == 'e',
        "ge_ir_pv_generation_total_low"@[1] == 'e',
        "ge_ir_work_time_total_high"@[1] == 'e',
        "ge_ir_work_time_total_low"@[1] == 'e',
        "ge_ir_system_mode"@[1] == 'e',
        "ge_ir_battery_voltage"@[1] == 'e',
        "ge_ir_battery_current"@[1] == 'e',
        "ge_ir_battery_power"@[1] == 'e',
        "ge_ir_eps_voltage"@[1] == 'e',
        "ge_ir_eps_frequency"@[1] == 'e',
        "ge_ir_battery_temperature"@[1] == 'e',
        "ge_ir_charger_warning_code"@[1] == 'e',
        "ge_ir_grid_port_current"@[1] == 'e',
        "ge_ir_battery_soc"@[1] == 'e',
        "ge_ir_battery_discharge_total_alt1"@[1] == 'e',
        "ge_ir_battery_charge_total_alt1"@[1] == 'e',
        "ge_ir_battery_discharge_today_alt2"@[1] == 'e',
        "ge_ir_battery_charge_today_alt2"@[1] == 'e',
        "ge_ir_combined_generation_high"@[1] == 'e',
        "ge_ir_combined_generation_low"@[1] == 'e',
        "ge_hr_device_type"@[1] == 'e',
        "ge_hr_module_high"@[1] == 'e',
        "ge_hr_module_low"@[1] == 'e',
        "ge_hr_mppt_phase_count"@[1] == 'e',
        "ge_hr_enable_ammeter"@[1] == 'e',
        "ge_hr_first_battery_serial_0"@[1] == 'e',
        "ge_hr_first_battery_serial_1"@[1] == 'e',
        "ge_hr_first_battery_serial_2"@[1] == 'e',
        "ge_hr_first_battery_serial_3"@[1] == 'e',
        "ge_hr_first_battery_serial_4"@[1] == 'e',
        "ge_hr_serial_0"@[1] == 'e',
        "ge_hr_serial_1"@[1] == 'e',
        "ge_hr_serial_2"@[1] == 'e',
        "ge_hr_serial_3"@[1] == 'e',
        "ge_hr_serial_4"@[1] == 'e',
        "ge_hr_first_battery_bms_firmware"@[1] == 'e',
        "ge_hr_dsp_firmware"@[1] == 'e',
        "ge_hr_arm_firmware"@[1] == 'e',
        "ge_hr_usb_device_inserted"@[1] == 'e',
        "ge_hr_select_arm_chip"@[1] == 'e',
        "ge_hr_variable_address"@[1] == 'e',
        "ge_hr_variable_value"@[1] == 'e',
        "ge_hr_grid_port_max_power_output"@[1] == 'e',
        "ge_hr_battery_calibration_stage"@[1] == 'e',
        "ge_hr_enable_charge_target"@[1] == 'e',
        "ge_hr_battery_power_mode"@[1] == 'e',
        "ge_hr_enable_60hz_freq_mode"@[1] == 'e',
        "ge_hr_modbus_address"@[1] == 'e',
        "ge_hr_charge_slot_2_start"@[1] == 'e',
        "ge_hr_charge_slot_2_end"@[1] == 'e',
        "ge_hr_system_time_year"@[1] == 'e',
        "ge_hr_system_time_month"@[1] == 'e',
        "ge_hr_system_time_day"@[1] == 'e',
        "ge_hr_system_time_hour"@[1] == 'e',
        "ge_hr_system_time_minute"@[1] == 'e',
        "ge_hr_system_time_second"@[1] == 'e',
        "ge_hr_user_code"@[1] == 'e',
        "ge_hr_modbus_version"@[1] == 'e',
        "ge_hr_enable_drm_rj45_port"@[1] == 'e',
        "ge_hr_enable_reversed_ct_clamp"@[1] == 'e',
        "ge_hr_charge_discharge_soc"@[1] == 'e',
        "ge_hr_discharge_slot_2_start"@[1] == 'e',
        "ge_hr_discharge_slot_2_end"@[1] == 'e',
        "ge_hr_bms_firmware_version"@[1] == 'e',
        "ge_hr_meter_type"@[1] == 'e',
        "ge_hr_enable_reversed_115_meter"@[1] == 'e',
        "ge_hr_enable_reversed_418_meter"@[1] == 'e',
        "ge_hr_active_power_rate"@[1] == 'e',
        "ge_hr_reactive_power_rate"@[1] == 'e',
        "ge_hr_power_factor"@[1] == 'e',
        "ge_hr_enable_inverter_flags"@[1] == 'e',
        "ge_hr_battery_type"@[1] == 'e',
        "ge_hr_battery_capacity_ah"@[1] == 'e',
        "ge_hr_discharge_slot_1_start"@[1] == 'e',
        "ge_hr_discharge_slot_1_end"@[1] == 'e',
        "ge_hr_enable_auto_judge_battery_type"@[1] == 'e',
        "ge_hr_enable_discharge"@[1] == 'e',
        "ge_hr_pv_start_voltage"@[1] == 'e',
        "ge_hr_start_countdown_timer"@[1] == 'e',
        "ge_hr_restart_delay_time"@[1] == 'e',
        "ge_hr_charge_slot_1_start"@[1] == 'e',
        "ge_hr_charge_slot_1_end"@[1] == 'e',
        "ge_hr_enable_charge"@[1] == 'e',
        "ge_hr_battery_low_voltage_protection_limit"@[1] == 'e',
        "ge_hr_battery_high_voltage_protection_limit"@[1] == 'e',
        "ge_hr_battery_voltage_adjust"@[1] == 'e',
        "ge_hr_battery_low_force_charge_time"@[1] == 'e',
        "ge_hr_enable_bms_read"@[1] == 'e',
        "ge_hr_battery_soc_reserve"@[1] == 'e',
        "ge_hr_battery_charge_limit"@[1] == 'e',
        "ge_hr_battery_charge_limit_ac"@[1] == 'e',
        "ge_hr_battery_discharge_limit"@[1] == 'e',
        "ge_hr_battery_discharge_limit_ac"@[1] == 'e',
        "ge_hr_enable_buzzer"@[1] == 'e',
        "ge_hr_battery_discharge_min_power_reserve"@[1] == 'e',
        "ge_hr_island_check_continue"@[1] == 'e',
        "ge_hr_charge_target_soc"@[1] == 'e',
        "ge_hr_charge_soc_stop_2"@[1] == 'e',
        "ge_hr_discharge_soc_stop_2"@[1] == 'e',
        "ge_hr_charge_soc_stop_1"@[1] == 'e',
        "ge_hr_discharge_soc_stop_1"@[1] == 'e',
        "ge_hr_enable_local_command_test"@[1] == 'e',
        "ge_hr_enable_low_voltage_fault_ride_through"@[1] == 'e',
        "ge_hr_enable_frequency_derating"@[1] == 'e',
        "ge_hr_enable_above_6kw_system"@[1] == 'e',
        "ge_hr_start_system_auto_test"@[1] == 'e',
        "ge_hr_enable_spi"@[1] == 'e',
        "ge_hr_power_factor_function_model"@[1] == 'e',
        "ge_hr_frequency_load_limit_rate"@[1] == 'e',
        "ge_hr_inverter_reboot"@[1] == 'e',
        "ge_hr_rtc_enable"@[1] == 'e',
        "ge_hr_threephase_balance_mode"@[1] == 'e',
        "ge_hr_threephase_abc"@[1] == 'e',
        "ge_hr_threephase_balance_1"@[1] == 'e',
        "ge_hr_threephase_balance_2"@[1] == 'e',
        "ge_hr_threephase_balance_3"@[1] == 'e',
        "ge_hr_enable_battery_on_pv_or_grid"@[1] == 'e',
        "ge_hr_debug_inverter"@[1] == 'e',
        "ge_hr_enable_ups_mode"@[1] == 'e',
        "ge_hr_enable_g100_limit_switch"@[1] == 'e',
        "ge_hr_enable_battery_cable_impedance_alarm"@[1] == 'e',
        "ge_hr_enable_standard_self_consumption_logic"@[1] == 'e',
        "ge_hr_battery_pause_mode"@[1] == 'e',
        "ge_hr_battery_pause_slot_1_start"@[1] == 'e',
        "ge_hr_battery_pause_slot_1_end"@[1] == 'e',
        "ge_hr_export_priority"@[1] == 'e',
        "ge_hr_enable_eps"@[1] == 'e',
        "ge_hr_pv_power_setting_high"@[1] == 'e',
        "ge_hr_pv_power_setting_low"@[1] == 'e',
        "ge_hr_battery_discharge_total_alt2_high"@[1] == 'e',
        "ge_hr_battery_discharge_total_alt2_low"@[1] == 'e',
        "ge_hr_battery_charge_total_alt2_high"@[1] == 'e',
        "ge_hr_battery_charge_total_alt2_low"@[1] == 'e',
        "ge_hr_battery_discharge_today_alt3"@[1] == 'e',
        "ge_hr_battery_charge_today_alt3"@[1] == 'e',
        "ge_hr_inverter_export_total_high"@[1] == 'e',
        "ge_hr_inverter_export_total_low"@[1] == 'e',
        "ge_hr_enable_battery_self_heating"@[1] == 'e',
        "ge_hr_enable_manual_battery_heater"@[1] == 'e',
        "ge_hr_inverter_errors_high"@[1] == 'e',
        "ge_hr_inverter_errors_low"@[1] == 'e',
        "grid_power"@[1] == 'r',
        "grid_voltage"@[1] == 'r',
        "grid_frequency"@[1] == 'r',
        "grid_connected"@[1] == 'r',
        "grid_import_kwh"@[1] == 'r',
        "grid_export_kwh"@[1] == 'r',
        "ge_ir_threephase_fault_0"@[1] == 'e',
        "ge_ir_threephase_fault_1"@[1] == 'e',
        "ge_ir_threephase_fault_2"@[1] == 'e',
        "ge_ir_threephase_fault_3"@[1] == 'e',
        "ge_ir_threephase_fault_4"@[1] == 'e',
        "ge_ir_threephase_fault_5"@[1] == 'e',
        "ge_ir_threephase_fault_6"@[1] == 'e',
        "ge_ir_threephase_fault_7"@[1] == 'e',
{
    reveal_strlit("ge_ir_status");
    reveal_strlit("ge_ir_pv1_voltage");
    reveal_strlit("ge_ir_pv2_voltage");
    reveal_strlit("ge_ir_p_bus_voltage");
    reveal_strlit("ge_ir_high_bus_voltage");
    reveal_strlit("ge_ir_n_bus_voltage");
    reveal_strlit("ge_ir_grid_voltage");
    reveal_strlit("ge_ir_battery_throughput_high");
    reveal_strlit("ge_ir_battery_throughput_low");
    reveal_strlit("ge_ir_pv1_current");
    reveal_strlit("ge_ir_pv2_current");
    reveal_strlit("ge_ir_ac_current");
    reveal_strlit("ge_ir_pv_total_high");
    reveal_strlit("ge_ir_pv_total_low");
    reveal_strlit("ge_ir_grid_frequency");
    reveal_strlit("ge_ir_charge_status");
    reveal_strlit("ge_ir_inverter_output_pf");
    reveal_strlit("ge_ir_pv1_energy_today");
    reveal_strlit("ge_ir_pv1_power");
    reveal_strlit("ge_ir_pv2_energy_today");
    reveal_strlit("ge_ir_pv2_power");
    reveal_strlit("ge_ir_grid_export_total_high");
    reveal_strlit("ge_ir_grid_export_total_low");
    reveal_strlit("ge_ir_solar_diverter_energy");
    reveal_strlit("ge_ir_inverter_terminal_power");
    reveal_strlit("ge_ir_today_export_energy");
    reveal_strlit("ge_ir_today_import_energy");
    reveal_strlit("ge_ir_inverter_input_total_high");
    reveal_strlit("ge_ir_inverter_input_total_low");
    reveal_strlit("ge_ir_discharge_year");
    reveal_strlit("ge_ir_grid_power");
    reveal_strlit("ge_ir_eps_backup_power");
    reveal_strlit("ge_ir_grid_import_total_high");
    reveal_strlit("ge_ir_grid_import_total_low");
    reveal_strlit("ge_ir_ac_charge_today");
    reveal_strlit("ge_ir_today_charge_energy");
    reveal_strlit("ge_ir_today_discharge_energy");
    reveal_strlit("ge_ir_countdown");
    reveal_strlit("ge_ir_fault_code_high");
    reveal_strlit("ge_ir_fault_code_low");
    reveal_strlit("ge_ir_inverter_temperature");
    reveal_strlit("ge_ir_charger_temperature");
    reveal_strlit("ge_ir_load_demand");
    reveal_strlit("ge_ir_grid_apparent");
    reveal_strlit("ge_ir_pv_generation_today");
    reveal_strlit("ge_ir_pv_generation_total_high");
    reveal_strlit("ge_ir_pv_generation_total_low");
    reveal_strlit("ge_ir_work_time_total_high");
    reveal_strlit("ge_ir_work_time_total_low");
    reveal_strlit("ge_ir_system_mode");
    reveal_strlit("ge_ir_battery_voltage");
    reveal_strlit("ge_ir_battery_current");
    reveal_strlit("ge_ir_battery_power");
    reveal_strlit("ge_ir_eps_voltage");
    reveal_strlit("ge_ir_eps_frequency");
    reveal_strlit("ge_ir_battery_temperature");
    reveal_strlit("ge_ir_charger_warning_code");
    reveal_strlit("ge_ir_grid_port_current");
    reveal_strlit("ge_ir_battery_soc");
    reveal_strlit("ge_ir_battery_discharge_total_alt1");
    reveal_strlit("ge_ir_battery_charge_total_alt1");
    reveal_strlit("ge_ir_battery_discharge_today_alt2");
    reveal_strlit("ge_ir_battery_charge_today_alt2");
    reveal_strlit("ge_ir_combined_generation_high");
    reveal_strlit("ge_ir_combined_generation_low");
    reveal_strlit("ge_hr_device_type");
    reveal_strlit("ge_hr_module_high");
    reveal_strlit("ge_hr_module_low");
    reveal_strlit("ge_hr_mppt_phase_count");
    reveal_strlit("ge_hr_enable_ammeter");
    reveal_strlit("ge_hr_first_battery_serial_0");
    reveal_strlit("ge_hr_first_battery_serial_1");
    reveal_strlit("ge_hr_first_battery_serial_2");
    reveal_strlit("ge_hr_first_battery_serial_3");
    reveal_strlit("ge_hr_first_battery_serial_4");
    reveal_strlit("ge_hr_serial_0");
    reveal_strlit("ge_hr_serial_1");
    reveal_strlit("ge_hr_serial_2");
    reveal_strlit("ge_hr_serial_3");
    reveal_strlit("ge_hr_serial_4");
    reveal_strlit("ge_hr_first_battery_bms_firmware");
    reveal_strlit("ge_hr_dsp_firmware");
    reveal_strlit("ge_hr_arm_firmware");
    reveal_strlit("ge_hr_usb_device_inserted");
    reveal_strlit("ge_hr_select_arm_chip");
    reveal_strlit("ge_hr_variable_address");
    reveal_strlit("ge_hr_variable_value");
    reveal_strlit("ge_hr_grid_port_max_power_output");
    reveal_strlit("ge_hr_battery_calibration_stage");
    reveal_strlit("ge_hr_enable_charge_target");
    reveal_strlit("ge_hr_battery_power_mode");
    reveal_strlit("ge_hr_enable_60hz_freq_mode");
    reveal_strlit("ge_hr_modbus_address");
    reveal_strlit("ge_hr_charge_slot_2_start");
    reveal_strlit("ge_hr_charge_slot_2_end");
    reveal_strlit("ge_hr_system_time_year");
    reveal_strlit("ge_hr_system_time_month");
    reveal_strlit("ge_hr_system_time_day");
    reveal_strlit("ge_hr_system_time_hour");
    reveal_strlit("ge_hr_system_time_minute");
    reveal_strlit("ge_hr_system_time_second");
    reveal_strlit("ge_hr_user_code");
    reveal_strlit("ge_hr_modbus_version");
    reveal_strlit("ge_hr_enable_drm_rj45_port");
    reveal_strlit("ge_hr_enable_reversed_ct_clamp");
    reveal_strlit("ge_hr_charge_discharge_soc");
    reveal_strlit("ge_hr_discharge_slot_2_start");
    reveal_strlit("ge_hr_discharge_slot_2_end");
    reveal_strlit("ge_hr_bms_firmware_version");
    reveal_strlit("ge_hr_meter_type");
    reveal_strlit("ge_hr_enable_reversed_115_meter");
    reveal_strlit("ge_hr_enable_reversed_418_meter");
    reveal_strlit("ge_hr_active_power_rate");
    reveal_strlit("ge_hr_reactive_power_rate");
    reveal_strlit("ge_hr_power_factor");
    reveal_strlit("ge_hr_enable_inverter_flags");
    reveal_strlit("ge_hr_battery_type");
    reveal_strlit("ge_hr_battery_capacity_ah");
    reveal_strlit("ge_hr_discharge_slot_1_start");
    reveal_strlit("ge_hr_discharge_slot_1_end");
    reveal_strlit("ge_hr_enable_auto_judge_battery_type");
    reveal_strlit("ge_hr_enable_discharge");
    reveal_strlit("ge_hr_pv_start_voltage");
    reveal_strlit("ge_hr_start_countdown_timer");
    reveal_strlit("ge_hr_restart_delay_time");
    reveal_strlit("ge_hr_charge_slot_1_start");
    reveal_strlit("ge_hr_charge_slot_1_end");
    reveal_strlit("ge_hr_enable_charge");
    reveal_strlit("ge_hr_battery_low_voltage_protection_limit");
    reveal_strlit("ge_hr_battery_high_voltage_protection_limit");
    reveal_strlit("ge_hr_battery_voltage_adjust");
    reveal_strlit("ge_hr_battery_low_force_charge_time");
    reveal_strlit("ge_hr_enable_bms_read");
    reveal_strlit("ge_hr_battery_soc_reserve");
    reveal_strlit("ge_hr_battery_charge_limit");
    reveal_strlit("ge_hr_battery_charge_limit_ac");
    reveal_strlit("ge_hr_battery_discharge_limit");
    reveal_strlit("ge_hr_battery_discharge_limit_ac");
    reveal_strlit("ge_hr_enable_buzzer");
    reveal_strlit("ge_hr_battery_discharge_min_power_reserve");
    reveal_strlit("ge_hr_island_check_continue");
    reveal_strlit("ge_hr_charge_target_soc");
    reveal_strlit("ge_hr_charge_soc_stop_2");
    reveal_strlit("ge_hr_discharge_soc_stop_2");
    reveal_strlit("ge_hr_charge_soc_stop_1");
    reveal_strlit("ge_hr_discharge_soc_stop_1");
    reveal_strlit("ge_hr_enable_local_command_test");
    reveal_strlit("ge_hr_enable_low_voltage_fault_ride_through");
    reveal_strlit("ge_hr_enable_frequency_derating");
    reveal_strlit("ge_hr_enable_above_6kw_system");
    reveal_strlit("ge_hr_start_system_auto_test");
    reveal_strlit("ge_hr_enable_spi");
    reveal_strlit("ge_hr_power_factor_function_model");
    reveal_strlit("ge_hr_frequency_load_limit_rate");
    reveal_strlit("ge_hr_inverter_reboot");
    reveal_strlit("ge_hr_rtc_enable");
    reveal_strlit("ge_hr_threephase_balance_mode");
    reveal_strlit("ge_hr_threephase_abc");
    reveal_strlit("ge_hr_threephase_balance_1");
    reveal_strlit("ge_hr_threephase_balance_2");
    reveal_strlit("ge_hr_threephase_balance_3");
    reveal_strlit("ge_hr_enable_battery_on_pv_or_grid");
    reveal_strlit("ge_hr_debug_inverter");
    reveal_strlit("ge_hr_enable_ups_mode");
    reveal_strlit("ge_hr_enable_g100_limit_switch");
    reveal_strlit("ge_hr_enable_battery_cable_impedance_alarm");
    reveal_strlit("ge_hr_enable_standard_self_consumption_logic");
    reveal_strlit("ge_hr_battery_pause_mode");
    reveal_strlit("ge_hr_battery_pause_slot_1_start");
    reveal_strlit("ge_hr_battery_pause_slot_1_end");
    reveal_strlit("ge_hr_export_priority");
    reveal_strlit("ge_hr_enable_eps");
    reveal_strlit("ge_hr_pv_power_setting_high");
    reveal_strlit("ge_hr_pv_power_setting_low");
    reveal_strlit("ge_hr_battery_discharge_total_alt2_high");
    reveal_strlit("ge_hr_battery_discharge_total_alt2_low");
    reveal_strlit("ge_hr_battery_charge_total_alt2_high");
    reveal_strlit("ge_hr_battery_charge_total_alt2_low");
    reveal_strlit("ge_hr_battery_discharge_today_alt3");
    reveal_strlit("ge_hr_battery_charge_today_alt3");
    reveal_strlit("ge_hr_inverter_export_total_high");
    reveal_strlit("ge_hr_inverter_export_total_low");
    reveal_strlit("ge_hr_enable_battery_self_heating");
    reveal_strlit("ge_hr_enable_manual_battery_heater");
    reveal_strlit("ge_hr_inverter_errors_high");
    reveal_strlit("ge_hr_inverter_errors_low");
    reveal_strlit("grid_power");
    reveal_strlit("grid_voltage");
    reveal_strlit("grid_frequency");
    reveal_strlit("grid_connected");
    reveal_strlit("grid_import_kwh");
    reveal_strlit("grid_export_kwh");
    reveal_strlit("ge_ir_threephase_fault_0");
    reveal_strlit("ge_ir_threephase_fault_1");
    reveal_strlit("ge_ir_threephase_fault_2");
    reveal_strlit("ge_ir_threephase_fault_3");
    reveal_strlit("ge_ir_threephase_fault_4");
    reveal_strlit("ge_ir_threephase_fault_5");
    reveal_strlit("ge_ir_threephase_fault_6");
    reveal_strlit("ge_ir_threephase_fault_7");
}

/// The projection knows no register of a gateway by its name.
proof fn lemma_gateway_name(d: Definition, s: PlantState)
    requires
        d.name[0] == 'g',
        d.name[1] == 'w',
    ensures
        projection::projected(d, s) is None,
{
    reveal(projection::projected);
    lemma_second_letters();
    names::lemma_input_a_names();
    names::lemma_input_b_names();
    names::lemma_fault_names();
    names::lemma_holding_a_names();
    names::lemma_holding_b_names();
    names::lemma_internal_names();
    names::lemma_meter_shape(d.name, d.scale, s);
    names::lemma_ems_shape(d.name, d.scale, s);
    names::lemma_three_phase_shape(d.name, d.scale, s);
    assert(native_input::input_a(d.name, d.scale, s) is None);
    assert(native_input::input_b(d.name, d.scale, s) is None);
    assert(!three_phase::is_fault_register(d.name));
    assert(meter::meter(d.name, d.scale, s) is None);
    assert(ems::ems(d.name, d.scale, s) is None);
    assert(holding::holding_a(d.name, d.scale, s) is None);
    assert(holding::holding_b(d.name, d.scale, s) is None);
    assert(internal::internal(d.name, d.scale, s) is None);
}

/// What tells the other holding registers from those of the schedule.
proof fn lemma_other_names()
    ensures
        "ge_hr_enable_ammeter"@[18] == 'e',
        "ge_hr_first_battery_serial_0"@[18] == 'y',
        "ge_hr_first_battery_serial_1"@[18] == 'y',
        "ge_hr_first_battery_serial_2"@[18] == 'y',
        "ge_hr_first_battery_serial_3"@[18] == 'y',
        "ge_hr_first_battery_serial_4"@[18] == 'y',
        "ge_hr_first_battery_bms_firmware"@[18] == 'y',
        "ge_hr_usb_device_inserted"@[18] == 'n',
        "ge_hr_select_arm_chip"@[18] == 'h',
        "ge_hr_variable_value"@[18] == 'u',
        "ge_hr_grid_port_max_power_output"@[18] == 'x',
        "ge_hr_enable_charge_target"@[18] == 'e',
        "ge_hr_enable_charge_target"@[21] == 'a',
        "ge_hr_battery_power_mode"@[18] == 'r',
        "ge_hr_enable_60hz_freq_mode"@[18] == 'f',
        "ge_hr_modbus_address"@[0] == 'g',
        "ge_hr_modbus_address"@[18] == 's',
        "ge_hr_charge_slot_2_start"@[18] == '2',
        "ge_hr_charge_slot_2_end"@[18] == '2',
        "ge_hr_system_time_month"@[18] == 'm',
        "ge_hr_system_time_day"@[18] == 'd',
        "ge_hr_system_time_minute"@[18] == 'm',
        "ge_hr_system_time_second"@[18] == 's',
        "ge_hr_modbus_version"@[18] == 'o',
        "ge_hr_enable_drm_rj45_port"@[18] == 'j',
        "ge_hr_enable_reversed_ct_clamp"@[18] == 's',
        "ge_hr_charge_discharge_soc"@[18] == 'a',
        "ge_hr_discharge_slot_2_start"@[18] == 'o',
        "ge_hr_discharge_slot_2_start"@[21] == '2',
        "ge_hr_discharge_slot_2_end"@[18] == 'o',
        "ge_hr_discharge_slot_2_end"@[21] == '2',
        "ge_hr_bms_firmware_version"@[18] == '_',
        "ge_hr_bms_firmware_version"@[21] == 'r',
        "ge_hr_active_power_rate"@[18] == '_',
        "ge_hr_reactive_power_rate"@[18] == 'e',
        "ge_hr_enable_inverter_flags"@[0] == 'g',
        "ge_hr_enable_inverter_flags"@[18] == 't',
        "ge_hr_battery_capacity_ah"@[18] == 'c',
        "ge_hr_discharge_slot_1_start"@[18] == 'o',
        "ge_hr_discharge_slot_1_start"@[21] == '1',
        "ge_hr_discharge_slot_1_end"@[18] == 'o',
        "ge_hr_discharge_slot_1_end"@[21] == '1',
        "ge_hr_start_countdown_timer"@[18] == 'o',
        "ge_hr_start_countdown_timer"@[21] == '_',
        "ge_hr_restart_delay_time"@[18] == 'y',
        "ge_hr_charge_slot_1_start"@[18] == '1',
        "ge_hr_charge_slot_1_end"@[18] == '1',
        "ge_hr_enable_charge"@[0] == 'g',
        "ge_hr_battery_voltage_adjust"@[18] == 'a',
        "ge_hr_enable_bms_read"@[0] == 'g',
        "ge_hr_enable_bms_read"@[18] == 'e',
        "ge_hr_battery_soc_reserve"@[18] == 'r',
        "ge_hr_battery_charge_limit"@[18] == 'g',
        "ge_hr_battery_charge_limit_ac"@[18] == 'g',
        "tph_battery_charge_limit_ac"@[18] == '_',
        "ge_hr_battery_discharge_limit"@[18] == 'h',
        "ge_hr_battery_discharge_limit_ac"@[18] == 'h',
        "tph_battery_discharge_limit_ac"@[18] == 'r',
        "ge_hr_enable_buzzer"@[18] == 'r',
        "ge_hr_island_check_continue"@[18] == '_',
        "ge_hr_charge_target_soc"@[18] == 't',
        "ge_hr_charge_soc_stop_2"@[18] == 't',
        "ge_hr_discharge_soc_stop_2"@[18] == 'c',
        "ge_hr_charge_soc_stop_1"@[18] == 't',
        "ge_hr_discharge_soc_stop_1"@[18] == 'c',
        "ge_hr_enable_above_6kw_system"@[18] == '_',
        "ge_hr_start_system_auto_test"@[18] == '_',
        "ge_hr_inverter_reboot"@[18] == 'o',
        "ge_hr_threephase_balance_mode"@[18] == 'a',
        "ge_hr_threephase_abc"@[18] == 'b',
        "ge_hr_threephase_balance_1"@[18] == 'a',
        "ge_hr_threephase_balance_2"@[18] == 'a',
        "ge_hr_threephase_balance_3"@[18] == 'a',
        "ge_hr_debug_inverter"@[18] == 'e',
        "ge_hr_enable_ups_mode"@[18] == 'o',
        "ge_hr_enable_g100_limit_switch"@[18] == 'l',
        "ge_hr_enable_g100_limit_switch"@[21] == 'i',
        "ge_hr_battery_pause_mode"@[18] == 'e',
        "ge_hr_battery_pause_slot_1_start"@[21] == 'l',
        "ge_hr_battery_pause_slot_1_end"@[18] == 'e',
        "ge_hr_export_priority"@[18] == 'i',
        "ge_hr_pv_power_setting_high"@[18] == 't',
        "ge_hr_pv_power_setting_high"@[21] == 'g',
        "ge_hr_pv_power_setting_low"@[18] == 't',
        "ge_hr_pv_power_setting_low"@[21] == 'g',
        "ge_hr_battery_discharge_total_alt2_high"@[18] == 'h',
        "ge_hr_inverter_export_total_high"@[18] == 'o',
        "tph_force_charge_enable"@[18] == 'n',
        "tph_force_discharge_enable"@[18] == 'e',
        "tph_force_discharge_enable"@[21] == 'n',
        "inverter_export_limit_w"@[18] == 'm',
        "inverter_temperature"@[18] == 'r',
        "battery_temperature"@[0] == 'b',
        "battery_capacity_kwh"@[18] == 'w',
        "battery_max_charge_kw"@[18] == '_',
        "battery_max_discharge_kw"@[18] == 'r',
        "battery_charge_efficiency"@[18] == 'i',
        "battery_discharge_efficiency"@[18] == 'e',
        "battery_module_count"@[18] == 'n',
        "ge_hr_inverter_errors_high"@[18] == 'o',
        "ge_hr_inverter_errors_high"@[21] == '_',
        "ge_hr_inverter_errors_low"@[18] == 'o',
        "solar_generation_kwh"@[18] == 'w',
        "battery_discharge_kwh"@[18] == 'k',
        "load_consumption_kwh"@[18] == 'w',
        "config_battery_count"@[18] == 'n',
        "config_tick_interval"@[18] == 'a',
        "schedule_charge_start"@[18] == 'a',
        "schedule_charge_end"@[18] == 'd',
        "schedule_discharge_start"@[18] == '_',
        "schedule_discharge_start"@[21] == 'a',
        "schedule_charge_target_soc"@[18] == 'r',
        "schedule_discharge_target_soc"@[18] == '_',
{
    reveal_strlit("ge_hr_enable_ammeter");
    reveal_strlit("ge_hr_first_battery_serial_0");
    reveal_strlit("ge_hr_first_battery_serial_1");
    reveal_strlit("ge_hr_first_battery_serial_2");
    reveal_strlit("ge_hr_first_battery_serial_3");
    reveal_strlit("ge_hr_first_battery_serial_4");
    reveal_strlit("ge_hr_first_battery_bms_firmware");
    reveal_strlit("ge_hr_usb_device_inserted");
    reveal_strlit("ge_hr_select_arm_chip");
    reveal_strlit("ge_hr_variable_value");
    reveal_strlit("ge_hr_grid_port_max_power_output");
    reveal_strlit("ge_hr_enable_charge_target");
    reveal_strlit("ge_hr_battery_power_mode");
    reveal_strlit("ge_hr_enable_60hz_freq_mode");
    reveal_strlit("ge_hr_modbus_address");
    reveal_strlit("ge_hr_charge_slot_2_start");
    reveal_strlit("ge_hr_charge_slot_2_end");
    reveal_strlit("ge_hr_system_time_month");
    reveal_strlit("ge_hr_system_time_day");
    reveal_strlit("ge_hr_system_time_minute");
    reveal_strlit("ge_hr_system_time_second");
    reveal_strlit("ge_hr_modbus_version");
    reveal_strlit("ge_hr_enable_drm_rj45_port");
    reveal_strlit("ge_hr_enable_reversed_ct_clamp");
    reveal_strlit("ge_hr_charge_discharge_soc");
    reveal_strlit("ge_hr_discharge_slot_2_start");
    reveal_strlit("ge_hr_discharge_slot_2_end");
    reveal_strlit("ge_hr_bms_firmware_version");
    reveal_strlit("ge_hr_active_power_rate");
    reveal_strlit("ge_hr_reactive_power_rate");
    reveal_strlit("ge_hr_enable_inverter_flags");
    reveal_strlit("ge_hr_battery_capacity_ah");
    reveal_strlit("ge_hr_discharge_slot_1_start");
    reveal_strlit("ge_hr_discharge_slot_1_end");
    reveal_strlit("ge_hr_start_countdown_timer");
    reveal_strlit("ge_hr_restart_delay_time");
    reveal_strlit("ge_hr_charge_slot_1_start");
    reveal_strlit("ge_hr_charge_slot_1_end");
    reveal_strlit("ge_hr_enable_charge");
    reveal_strlit("ge_hr_battery_voltage_adjust");
    reveal_strlit("ge_hr_enable_bms_read");
    reveal_strlit("ge_hr_battery_soc_reserve");
    reveal_strlit("ge_hr_battery_charge_limit");
    reveal_strlit("ge_hr_battery_charge_limit_ac");
    reveal_strlit("tph_battery_charge_limit_ac");
    reveal_strlit("ge_hr_battery_discharge_limit");
    reveal_strlit("ge_hr_battery_discharge_limit_ac");
    reveal_strlit("tph_battery_discharge_limit_ac");
    reveal_strlit("ge_hr_enable_buzzer");
    reveal_strlit("ge_hr_island_check_continue");
    reveal_strlit("ge_hr_charge_target_soc");
    reveal_strlit("ge_hr_charge_soc_stop_2");
    reveal_strlit("ge_hr_discharge_soc_stop_2");
    reveal_strlit("ge_hr_charge_soc_stop_1");
    reveal_strlit("ge_hr_discharge_soc_stop_1");
    reveal_strlit("ge_hr_enable_above_6kw_system");
    reveal_strlit("ge_hr_start_system_auto_test");
    reveal_strlit("ge_hr_inverter_reboot");
    reveal_strlit("ge_hr_threephase_balance_mode");
    reveal_strlit("ge_hr_threephase_abc");
    reveal_strlit("ge_hr_threephase_balance_1");
    reveal_strlit("ge_hr_threephase_balance_2");
    reveal_strlit("ge_hr_threephase_balance_3");
    reveal_strlit("ge_hr_debug_inverter");
    reveal_strlit("ge_hr_enable_ups_mode");
    reveal_strlit("ge_hr_enable_g100_limit_switch");
    reveal_strlit("ge_hr_battery_pause_mode");
    reveal_strlit("ge_hr_battery_pause_slot_1_start");
    reveal_strlit("ge_hr_battery_pause_slot_1_end");
    reveal_strlit("ge_hr_export_priority");
    reveal_strlit("ge_hr_pv_power_setting_high");
    reveal_strlit("ge_hr_pv_power_setting_low");
    reveal_strlit("ge_hr_battery_discharge_total_alt2_high");
    reveal_strlit("ge_hr_inverter_export_total_high");
    reveal_strlit("tph_force_charge_enable");
    reveal_strlit("tph_force_discharge_enable");
    reveal_strlit("inverter_export_limit_w");
    reveal_strlit("inverter_temperature");
    reveal_strlit("battery_temperature");
    reveal_strlit("battery_capacity_kwh");
    reveal_strlit("battery_max_charge_kw");
    reveal_strlit("battery_max_discharge_kw");
    reveal_strlit("battery_charge_efficiency");
    reveal_strlit("battery_discharge_efficiency");
    reveal_strlit("battery_module_count");
    reveal_strlit("ge_hr_inverter_errors_high");
    reveal_strlit("ge_hr_inverter_errors_low");
    reveal_strlit("solar_generation_kwh");
    reveal_strlit("battery_discharge_kwh");
    reveal_strlit("load_consumption_kwh");
    reveal_strlit("config_battery_count");
    reveal_strlit("config_tick_interval");
    reveal_strlit("schedule_charge_start");
    reveal_strlit("schedule_charge_end");
    reveal_strlit("schedule_discharge_start");
    reveal_strlit("schedule_charge_target_soc");
    reveal_strlit("schedule_discharge_target_soc");
}

/// Law: no plant shows in HR 242-275, where they are the schedule's or a client's.
#[verifier::spinoff_prover]
#[verifier::rlimit(60)]
pub proof fn law_hr_242_to_275_stay(values: Map<u32, u16>, s: PlantState)
    ensures
        words::holding(values, s, 242) == values.get(10242),
        words::holding(values, s, 243) == values.get(10243),
        words::holding(values, s, 244) == values.get(10244),
        words::holding(values, s, 245) == values.get(10245),
        words::holding(values, s, 272) == values.get(10272),
        words::holding(values, s, 275) == values.get(10275),
{
    definitions::lemma_native_flags();
    names::lemma_holding_a_names();
    names::lemma_holding_b_names();
    names::lemma_internal_names();
    lemma_other_names();
    reveal_strlit("ge_hr_charge_target_soc_1");
    assert("ge_hr_charge_target_soc_1"@.len() == 25);
    assert("ge_hr_charge_target_soc_1"@[0] == 'g');
    assert("ge_hr_charge_target_soc_1"@[3] == 'h');
    assert("ge_hr_charge_target_soc_1"@[4] == 'r');
    assert("ge_hr_charge_target_soc_1"@[18] == 't');
    names::lemma_holding(catalogue::definition_at(10242), s);
    lemma_kept(values, s, 10242);
    reveal_strlit("ge_hr_charge_slot_2_start_ext");
    assert("ge_hr_charge_slot_2_start_ext"@.len() == 29);
    assert("ge_hr_charge_slot_2_start_ext"@[0] == 'g');
    assert("ge_hr_charge_slot_2_start_ext"@[3] == 'h');
    assert("ge_hr_charge_slot_2_start_ext"@[4] == 'r');
    assert("ge_hr_charge_slot_2_start_ext"@[18] == '2');
    names::lemma_holding(catalogue::definition_at(10243), s);
    lemma_kept(values, s, 10243);
    reveal_strlit("ge_hr_charge_slot_2_end_ext");
    assert("ge_hr_charge_slot_2_end_ext"@.len() == 27);
    assert("ge_hr_charge_slot_2_end_ext"@[0] == 'g');
    assert("ge_hr_charge_slot_2_end_ext"@[3] == 'h');
    assert("ge_hr_charge_slot_2_end_ext"@[4] == 'r');
    assert("ge_hr_charge_slot_2_end_ext"@[18] == '2');
    names::lemma_holding(catalogue::definition_at(10244), s);
    lemma_kept(values, s, 10244);
    reveal_strlit("ge_hr_charge_target_soc_2");
    assert("ge_hr_charge_target_soc_2"@.len() == 25);
    assert("ge_hr_charge_target_soc_2"@[0] == 'g');
    assert("ge_hr_charge_target_soc_2"@[3] == 'h');
    assert("ge_hr_charge_target_soc_2"@[4] == 'r');
    assert("ge_hr_charge_target_soc_2"@[18] == 't');
    names::lemma_holding(catalogue::definition_at(10245), s);
    lemma_kept(values, s, 10245);
    reveal_strlit("ge_hr_discharge_target_soc_1");
    assert("ge_hr_discharge_target_soc_1"@.len() == 28);
    assert("ge_hr_discharge_target_soc_1"@[0] == 'g');
    assert("ge_hr_discharge_target_soc_1"@[3] == 'h');
    assert("ge_hr_discharge_target_soc_1"@[4] == 'r');
    assert("ge_hr_discharge_target_soc_1"@[18] == 'r');
    names::lemma_holding(catalogue::definition_at(10272), s);
    lemma_kept(values, s, 10272);
    reveal_strlit("ge_hr_discharge_target_soc_2");
    assert("ge_hr_discharge_target_soc_2"@.len() == 28);
    assert("ge_hr_discharge_target_soc_2"@[0] == 'g');
    assert("ge_hr_discharge_target_soc_2"@[3] == 'h');
    assert("ge_hr_discharge_target_soc_2"@[4] == 'r');
    assert("ge_hr_discharge_target_soc_2"@[18] == 'r');
    names::lemma_holding(catalogue::definition_at(10275), s);
    lemma_kept(values, s, 10275);
}

/// Law: no plant shows in HR 246-257, where they are the schedule's or a client's.
#[verifier::spinoff_prover]
#[verifier::rlimit(60)]
pub proof fn law_hr_246_to_257_stay(values: Map<u32, u16>, s: PlantState)
    ensures
        words::holding(values, s, 246) == values.get(10246),
        words::holding(values, s, 247) == values.get(10247),
        words::holding(values, s, 248) == values.get(10248),
        words::holding(values, s, 249) == values.get(10249),
        words::holding(values, s, 250) == values.get(10250),
        words::holding(values, s, 251) == values.get(10251),
        words::holding(values, s, 252) == values.get(10252),
        words::holding(values, s, 253) == values.get(10253),
        words::holding(values, s, 254) == values.get(10254),
        words::holding(values, s, 255) == values.get(10255),
        words::holding(values, s, 256) == values.get(10256),
        words::holding(values, s, 257) == values.get(10257),
{
    definitions::lemma_charge_slots();
    names::lemma_holding_a_names();
    names::lemma_holding_b_names();
    names::lemma_internal_names();
    lemma_other_names();
    reveal_strlit("ge_hr_charge_slot_3_start");
    assert("ge_hr_charge_slot_3_start"@.len() == 25);
    assert("ge_hr_charge_slot_3_start"@[0] == 'g');
    assert("ge_hr_charge_slot_3_start"@[3] == 'h');
    assert("ge_hr_charge_slot_3_start"@[4] == 'r');
    assert("ge_hr_charge_slot_3_start"@[18] == '3');
    names::lemma_holding(catalogue::definition_at(10246), s);
    lemma_kept(values, s, 10246);
    reveal_strlit("ge_hr_charge_slot_3_end");
    assert("ge_hr_charge_slot_3_end"@.len() == 23);
    assert("ge_hr_charge_slot_3_end"@[0] == 'g');
    assert("ge_hr_charge_slot_3_end"@[3] == 'h');
    assert("ge_hr_charge_slot_3_end"@[4] == 'r');
    assert("ge_hr_charge_slot_3_end"@[18] == '3');
    names::lemma_holding(catalogue::definition_at(10247), s);
    lemma_kept(values, s, 10247);
    reveal_strlit("ge_hr_charge_target_soc_3");
    assert("ge_hr_charge_target_soc_3"@.len() == 25);
    assert("ge_hr_charge_target_soc_3"@[0] == 'g');
    assert("ge_hr_charge_target_soc_3"@[3] == 'h');
    assert("ge_hr_charge_target_soc_3"@[4] == 'r');
    assert("ge_hr_charge_target_soc_3"@[18] == 't');
    names::lemma_holding(catalogue::definition_at(10248), s);
    lemma_kept(values, s, 10248);
    reveal_strlit("ge_hr_charge_slot_4_start");
    assert("ge_hr_charge_slot_4_start"@.len() == 25);
    assert("ge_hr_charge_slot_4_start"@[0] == 'g');
    assert("ge_hr_charge_slot_4_start"@[3] == 'h');
    assert("ge_hr_charge_slot_4_start"@[4] == 'r');
    assert("ge_hr_charge_slot_4_start"@[18] == '4');
    names::lemma_holding(catalogue::definition_at(10249), s);
    lemma_kept(values, s, 10249);
    reveal_strlit("ge_hr_charge_slot_4_end");
    assert("ge_hr_charge_slot_4_end"@.len() == 23);
    assert("ge_hr_charge_slot_4_end"@[0] == 'g');
    assert("ge_hr_charge_slot_4_end"@[3] == 'h');
    assert("ge_hr_charge_slot_4_end"@[4] == 'r');
    assert("ge_hr_charge_slot_4_end"@[18] == '4');
    names::lemma_holding(catalogue::definition_at(10250), s);
    lemma_kept(values, s, 10250);
    reveal_strlit("ge_hr_charge_target_soc_4");
    assert("ge_hr_charge_target_soc_4"@.len() == 25);
    assert("ge_hr_charge_target_soc_4"@[0] == 'g');
    assert("ge_hr_charge_target_soc_4"@[3] == 'h');
    assert("ge_hr_charge_target_soc_4"@[4] == 'r');
    assert("ge_hr_charge_target_soc_4"@[18] == 't');
    names::lemma_holding(catalogue::definition_at(10251), s);
    lemma_kept(values, s, 10251);
    reveal_strlit("ge_hr_charge_slot_5_start");
    assert("ge_hr_charge_slot_5_start"@.len() == 25);
    assert("ge_hr_charge_slot_5_start"@[0] == 'g');
    assert("ge_hr_charge_slot_5_start"@[3] == 'h');
    assert("ge_hr_charge_slot_5_start"@[4] == 'r');
    assert("ge_hr_charge_slot_5_start"@[18] == '5');
    names::lemma_holding(catalogue::definition_at(10252), s);
    lemma_kept(values, s, 10252);
    reveal_strlit("ge_hr_charge_slot_5_end");
    assert("ge_hr_charge_slot_5_end"@.len() == 23);
    assert("ge_hr_charge_slot_5_end"@[0] == 'g');
    assert("ge_hr_charge_slot_5_end"@[3] == 'h');
    assert("ge_hr_charge_slot_5_end"@[4] == 'r');
    assert("ge_hr_charge_slot_5_end"@[18] == '5');
    names::lemma_holding(catalogue::definition_at(10253), s);
    lemma_kept(values, s, 10253);
    reveal_strlit("ge_hr_charge_target_soc_5");
    assert("ge_hr_charge_target_soc_5"@.len() == 25);
    assert("ge_hr_charge_target_soc_5"@[0] == 'g');
    assert("ge_hr_charge_target_soc_5"@[3] == 'h');
    assert("ge_hr_charge_target_soc_5"@[4] == 'r');
    assert("ge_hr_charge_target_soc_5"@[18] == 't');
    names::lemma_holding(catalogue::definition_at(10254), s);
    lemma_kept(values, s, 10254);
    reveal_strlit("ge_hr_charge_slot_6_start");
    assert("ge_hr_charge_slot_6_start"@.len() == 25);
    assert("ge_hr_charge_slot_6_start"@[0] == 'g');
    assert("ge_hr_charge_slot_6_start"@[3] == 'h');
    assert("ge_hr_charge_slot_6_start"@[4] == 'r');
    assert("ge_hr_charge_slot_6_start"@[18] == '6');
    names::lemma_holding(catalogue::definition_at(10255), s);
    lemma_kept(values, s, 10255);
    reveal_strlit("ge_hr_charge_slot_6_end");
    assert("ge_hr_charge_slot_6_end"@.len() == 23);
    assert("ge_hr_charge_slot_6_end"@[0] == 'g');
    assert("ge_hr_charge_slot_6_end"@[3] == 'h');
    assert("ge_hr_charge_slot_6_end"@[4] == 'r');
    assert("ge_hr_charge_slot_6_end"@[18] == '6');
    names::lemma_holding(catalogue::definition_at(10256), s);
    lemma_kept(values, s, 10256);
    reveal_strlit("ge_hr_charge_target_soc_6");
    assert("ge_hr_charge_target_soc_6"@.len() == 25);
    assert("ge_hr_charge_target_soc_6"@[0] == 'g');
    assert("ge_hr_charge_target_soc_6"@[3] == 'h');
    assert("ge_hr_charge_target_soc_6"@[4] == 'r');
    assert("ge_hr_charge_target_soc_6"@[18] == 't');
    names::lemma_holding(catalogue::definition_at(10257), s);
    lemma_kept(values, s, 10257);
}

/// Law: no plant shows in HR 258-269, where they are the schedule's or a client's.
#[verifier::spinoff_prover]
#[verifier::rlimit(60)]
pub proof fn law_hr_258_to_269_stay(values: Map<u32, u16>, s: PlantState)
    ensures
        words::holding(values, s, 258) == values.get(10258),
        words::holding(values, s, 259) == values.get(10259),
        words::holding(values, s, 260) == values.get(10260),
        words::holding(values, s, 261) == values.get(10261),
        words::holding(values, s, 262) == values.get(10262),
        words::holding(values, s, 263) == values.get(10263),
        words::holding(values, s, 264) == values.get(10264),
        words::holding(values, s, 265) == values.get(10265),
        words::holding(values, s, 266) == values.get(10266),
        words::holding(values, s, 267) == values.get(10267),
        words::holding(values, s, 268) == values.get(10268),
        words::holding(values, s, 269) == values.get(10269),
{
    definitions::lemma_charge_slots();
    names::lemma_holding_a_names();
    names::lemma_holding_b_names();
    names::lemma_internal_names();
    lemma_other_names();
    reveal_strlit("ge_hr_charge_slot_7_start");
    assert("ge_hr_charge_slot_7_start"@.len() == 25);
    assert("ge_hr_charge_slot_7_start"@[0] == 'g');
    assert("ge_hr_charge_slot_7_start"@[3] == 'h');
    assert("ge_hr_charge_slot_7_start"@[4] == 'r');
    assert("ge_hr_charge_slot_7_start"@[18] == '7');
    names::lemma_holding(catalogue::definition_at(10258), s);
    lemma_kept(values, s, 10258);
    reveal_strlit("ge_hr_charge_slot_7_end");
    assert("ge_hr_charge_slot_7_end"@.len() == 23);
    assert("ge_hr_charge_slot_7_end"@[0] == 'g');
    assert("ge_hr_charge_slot_7_end"@[3] == 'h');
    assert("ge_hr_charge_slot_7_end"@[4] == 'r');
    assert("ge_hr_charge_slot_7_end"@[18] == '7');
    names::lemma_holding(catalogue::definition_at(10259), s);
    lemma_kept(values, s, 10259);
    reveal_strlit("ge_hr_charge_target_soc_7");
    assert("ge_hr_charge_target_soc_7"@.len() == 25);
    assert("ge_hr_charge_target_soc_7"@[0] == 'g');
    assert("ge_hr_charge_target_soc_7"@[3] == 'h');
    assert("ge_hr_charge_target_soc_7"@[4] == 'r');
    assert("ge_hr_charge_target_soc_7"@[18] == 't');
    names::lemma_holding(catalogue::definition_at(10260), s);
    lemma_kept(values, s, 10260);
    reveal_strlit("ge_hr_charge_slot_8_start");
    assert("ge_hr_charge_slot_8_start"@.len() == 25);
    assert("ge_hr_charge_slot_8_start"@[0] == 'g');
    assert("ge_hr_charge_slot_8_start"@[3] == 'h');
    assert("ge_hr_charge_slot_8_start"@[4] == 'r');
    assert("ge_hr_charge_slot_8_start"@[18] == '8');
    names::lemma_holding(catalogue::definition_at(10261), s);
    lemma_kept(values, s, 10261);
    reveal_strlit("ge_hr_charge_slot_8_end");
    assert("ge_hr_charge_slot_8_end"@.len() == 23);
    assert("ge_hr_charge_slot_8_end"@[0] == 'g');
    assert("ge_hr_charge_slot_8_end"@[3] == 'h');
    assert("ge_hr_charge_slot_8_end"@[4] == 'r');
    assert("ge_hr_charge_slot_8_end"@[18] == '8');
    names::lemma_holding(catalogue::definition_at(10262), s);
    lemma_kept(values, s, 10262);
    reveal_strlit("ge_hr_charge_target_soc_8");
    assert("ge_hr_charge_target_soc_8"@.len() == 25);
    assert("ge_hr_charge_target_soc_8"@[0] == 'g');
    assert("ge_hr_charge_target_soc_8"@[3] == 'h');
    assert("ge_hr_charge_target_soc_8"@[4] == 'r');
    assert("ge_hr_charge_target_soc_8"@[18] == 't');
    names::lemma_holding(catalogue::definition_at(10263), s);
    lemma_kept(values, s, 10263);
    reveal_strlit("ge_hr_charge_slot_9_start");
    assert("ge_hr_charge_slot_9_start"@.len() == 25);
    assert("ge_hr_charge_slot_9_start"@[0] == 'g');
    assert("ge_hr_charge_slot_9_start"@[3] == 'h');
    assert("ge_hr_charge_slot_9_start"@[4] == 'r');
    assert("ge_hr_charge_slot_9_start"@[18] == '9');
    names::lemma_holding(catalogue::definition_at(10264), s);
    lemma_kept(values, s, 10264);
    reveal_strlit("ge_hr_charge_slot_9_end");
    assert("ge_hr_charge_slot_9_end"@.len() == 23);
    assert("ge_hr_charge_slot_9_end"@[0] == 'g');
    assert("ge_hr_charge_slot_9_end"@[3] == 'h');
    assert("ge_hr_charge_slot_9_end"@[4] == 'r');
    assert("ge_hr_charge_slot_9_end"@[18] == '9');
    names::lemma_holding(catalogue::definition_at(10265), s);
    lemma_kept(values, s, 10265);
    reveal_strlit("ge_hr_charge_target_soc_9");
    assert("ge_hr_charge_target_soc_9"@.len() == 25);
    assert("ge_hr_charge_target_soc_9"@[0] == 'g');
    assert("ge_hr_charge_target_soc_9"@[3] == 'h');
    assert("ge_hr_charge_target_soc_9"@[4] == 'r');
    assert("ge_hr_charge_target_soc_9"@[18] == 't');
    names::lemma_holding(catalogue::definition_at(10266), s);
    lemma_kept(values, s, 10266);
    reveal_strlit("ge_hr_charge_slot_10_start");
    assert("ge_hr_charge_slot_10_start"@.len() == 26);
    assert("ge_hr_charge_slot_10_start"@[0] == 'g');
    assert("ge_hr_charge_slot_10_start"@[3] == 'h');
    assert("ge_hr_charge_slot_10_start"@[4] == 'r');
    assert("ge_hr_charge_slot_10_start"@[18] == '1');
    names::lemma_holding(catalogue::definition_at(10267), s);
    lemma_kept(values, s, 10267);
    reveal_strlit("ge_hr_charge_slot_10_end");
    assert("ge_hr_charge_slot_10_end"@.len() == 24);
    assert("ge_hr_charge_slot_10_end"@[0] == 'g');
    assert("ge_hr_charge_slot_10_end"@[3] == 'h');
    assert("ge_hr_charge_slot_10_end"@[4] == 'r');
    assert("ge_hr_charge_slot_10_end"@[18] == '1');
    names::lemma_holding(catalogue::definition_at(10268), s);
    lemma_kept(values, s, 10268);
    reveal_strlit("ge_hr_charge_target_soc_10");
    assert("ge_hr_charge_target_soc_10"@.len() == 26);
    assert("ge_hr_charge_target_soc_10"@[0] == 'g');
    assert("ge_hr_charge_target_soc_10"@[3] == 'h');
    assert("ge_hr_charge_target_soc_10"@[4] == 'r');
    assert("ge_hr_charge_target_soc_10"@[18] == 't');
    assert("ge_hr_charge_target_soc_10"@[21] == 'o');
    names::lemma_holding(catalogue::definition_at(10269), s);
    lemma_kept(values, s, 10269);
}

/// Law: no plant shows in HR 276-287, where they are the schedule's or a client's.
#[verifier::spinoff_prover]
#[verifier::rlimit(60)]
pub proof fn law_hr_276_to_287_stay(values: Map<u32, u16>, s: PlantState)
    ensures
        words::holding(values, s, 276) == values.get(10276),
        words::holding(values, s, 277) == values.get(10277),
        words::holding(values, s, 278) == values.get(10278),
        words::holding(values, s, 279) == values.get(10279),
        words::holding(values, s, 280) == values.get(10280),
        words::holding(values, s, 281) == values.get(10281),
        words::holding(values, s, 282) == values.get(10282),
        words::holding(values, s, 283) == values.get(10283),
        words::holding(values, s, 284) == values.get(10284),
        words::holding(values, s, 285) == values.get(10285),
        words::holding(values, s, 286) == values.get(10286),
        words::holding(values, s, 287) == values.get(10287),
{
    definitions::lemma_discharge_slots();
    names::lemma_holding_a_names();
    names::lemma_holding_b_names();
    names::lemma_internal_names();
    lemma_other_names();
    reveal_strlit("ge_hr_discharge_slot_3_start");
    assert("ge_hr_discharge_slot_3_start"@.len() == 28);
    assert("ge_hr_discharge_slot_3_start"@[0] == 'g');
    assert("ge_hr_discharge_slot_3_start"@[3] == 'h');
    assert("ge_hr_discharge_slot_3_start"@[4] == 'r');
    assert("ge_hr_discharge_slot_3_start"@[18] == 'o');
    assert("ge_hr_discharge_slot_3_start"@[21] == '3');
    names::lemma_holding(catalogue::definition_at(10276), s);
    lemma_kept(values, s, 10276);
    reveal_strlit("ge_hr_discharge_slot_3_end");
    assert("ge_hr_discharge_slot_3_end"@.len() == 26);
    assert("ge_hr_discharge_slot_3_end"@[0] == 'g');
    assert("ge_hr_discharge_slot_3_end"@[3] == 'h');
    assert("ge_hr_discharge_slot_3_end"@[4] == 'r');
    assert("ge_hr_discharge_slot_3_end"@[18] == 'o');
    assert("ge_hr_discharge_slot_3_end"@[21] == '3');
    names::lemma_holding(catalogue::definition_at(10277), s);
    lemma_kept(values, s, 10277);
    reveal_strlit("ge_hr_discharge_target_soc_3");
    assert("ge_hr_discharge_target_soc_3"@.len() == 28);
    assert("ge_hr_discharge_target_soc_3"@[0] == 'g');
    assert("ge_hr_discharge_target_soc_3"@[3] == 'h');
    assert("ge_hr_discharge_target_soc_3"@[4] == 'r');
    assert("ge_hr_discharge_target_soc_3"@[18] == 'r');
    names::lemma_holding(catalogue::definition_at(10278), s);
    lemma_kept(values, s, 10278);
    reveal_strlit("ge_hr_discharge_slot_4_start");
    assert("ge_hr_discharge_slot_4_start"@.len() == 28);
    assert("ge_hr_discharge_slot_4_start"@[0] == 'g');
    assert("ge_hr_discharge_slot_4_start"@[3] == 'h');
    assert("ge_hr_discharge_slot_4_start"@[4] == 'r');
    assert("ge_hr_discharge_slot_4_start"@[18] == 'o');
    assert("ge_hr_discharge_slot_4_start"@[21] == '4');
    names::lemma_holding(catalogue::definition_at(10279), s);
    lemma_kept(values, s, 10279);
    reveal_strlit("ge_hr_discharge_slot_4_end");
    assert("ge_hr_discharge_slot_4_end"@.len() == 26);
    assert("ge_hr_discharge_slot_4_end"@[0] == 'g');
    assert("ge_hr_discharge_slot_4_end"@[3] == 'h');
    assert("ge_hr_discharge_slot_4_end"@[4] == 'r');
    assert("ge_hr_discharge_slot_4_end"@[18] == 'o');
    assert("ge_hr_discharge_slot_4_end"@[21] == '4');
    names::lemma_holding(catalogue::definition_at(10280), s);
    lemma_kept(values, s, 10280);
    reveal_strlit("ge_hr_discharge_target_soc_4");
    assert("ge_hr_discharge_target_soc_4"@.len() == 28);
    assert("ge_hr_discharge_target_soc_4"@[0] == 'g');
    assert("ge_hr_discharge_target_soc_4"@[3] == 'h');
    assert("ge_hr_discharge_target_soc_4"@[4] == 'r');
    assert("ge_hr_discharge_target_soc_4"@[18] == 'r');
    names::lemma_holding(catalogue::definition_at(10281), s);
    lemma_kept(values, s, 10281);
    reveal_strlit("ge_hr_discharge_slot_5_start");
    assert("ge_hr_discharge_slot_5_start"@.len() == 28);
    assert("ge_hr_discharge_slot_5_start"@[0] == 'g');
    assert("ge_hr_discharge_slot_5_start"@[3] == 'h');
    assert("ge_hr_discharge_slot_5_start"@[4] == 'r');
    assert("ge_hr_discharge_slot_5_start"@[18] == 'o');
    assert("ge_hr_discharge_slot_5_start"@[21] == '5');
    names::lemma_holding(catalogue::definition_at(10282), s);
    lemma_kept(values, s, 10282);
    reveal_strlit("ge_hr_discharge_slot_5_end");
    assert("ge_hr_discharge_slot_5_end"@.len() == 26);
    assert("ge_hr_discharge_slot_5_end"@[0] == 'g');
    assert("ge_hr_discharge_slot_5_end"@[3] == 'h');
    assert("ge_hr_discharge_slot_5_end"@[4] == 'r');
    assert("ge_hr_discharge_slot_5_end"@[18] == 'o');
    assert("ge_hr_discharge_slot_5_end"@[21] == '5');
    names::lemma_holding(catalogue::definition_at(10283), s);
    lemma_kept(values, s, 10283);
    reveal_strlit("ge_hr_discharge_target_soc_5");
    assert("ge_hr_discharge_target_soc_5"@.len() == 28);
    assert("ge_hr_discharge_target_soc_5"@[0] == 'g');
    assert("ge_hr_discharge_target_soc_5"@[3] == 'h');
    assert("ge_hr_discharge_target_soc_5"@[4] == 'r');
    assert("ge_hr_discharge_target_soc_5"@[18] == 'r');
    names::lemma_holding(catalogue::definition_at(10284), s);
    lemma_kept(values, s, 10284);
    reveal_strlit("ge_hr_discharge_slot_6_start");
    assert("ge_hr_discharge_slot_6_start"@.len() == 28);
    assert("ge_hr_discharge_slot_6_start"@[0] == 'g');
    assert("ge_hr_discharge_slot_6_start"@[3] == 'h');
    assert("ge_hr_discharge_slot_6_start"@[4] == 'r');
    assert("ge_hr_discharge_slot_6_start"@[18] == 'o');
    assert("ge_hr_discharge_slot_6_start"@[21] == '6');
    names::lemma_holding(catalogue::definition_at(10285), s);
    lemma_kept(values, s, 10285);
    reveal_strlit("ge_hr_discharge_slot_6_end");
    assert("ge_hr_discharge_slot_6_end"@.len() == 26);
    assert("ge_hr_discharge_slot_6_end"@[0] == 'g');
    assert("ge_hr_discharge_slot_6_end"@[3] == 'h');
    assert("ge_hr_discharge_slot_6_end"@[4] == 'r');
    assert("ge_hr_discharge_slot_6_end"@[18] == 'o');
    assert("ge_hr_discharge_slot_6_end"@[21] == '6');
    names::lemma_holding(catalogue::definition_at(10286), s);
    lemma_kept(values, s, 10286);
    reveal_strlit("ge_hr_discharge_target_soc_6");
    assert("ge_hr_discharge_target_soc_6"@.len() == 28);
    assert("ge_hr_discharge_target_soc_6"@[0] == 'g');
    assert("ge_hr_discharge_target_soc_6"@[3] == 'h');
    assert("ge_hr_discharge_target_soc_6"@[4] == 'r');
    assert("ge_hr_discharge_target_soc_6"@[18] == 'r');
    names::lemma_holding(catalogue::definition_at(10287), s);
    lemma_kept(values, s, 10287);
}

/// Law: no plant shows in HR 288-299, where they are the schedule's or a client's.
#[verifier::spinoff_prover]
#[verifier::rlimit(60)]
pub proof fn law_hr_288_to_299_stay(values: Map<u32, u16>, s: PlantState)
    ensures
        words::holding(values, s, 288) == values.get(10288),
        words::holding(values, s, 289) == values.get(10289),
        words::holding(values, s, 290) == values.get(10290),
        words::holding(values, s, 291) == values.get(10291),
        words::holding(values, s, 292) == values.get(10292),
        words::holding(values, s, 293) == values.get(10293),
        words::holding(values, s, 294) == values.get(10294),
        words::holding(values, s, 295) == values.get(10295),
        words::holding(values, s, 296) == values.get(10296),
        words::holding(values, s, 297) == values.get(10297),
        words::holding(values, s, 298) == values.get(10298),
        words::holding(values, s, 299) == values.get(10299),
{
    definitions::lemma_discharge_slots();
    names::lemma_holding_a_names();
    names::lemma_holding_b_names();
    names::lemma_internal_names();
    lemma_other_names();
    reveal_strlit("ge_hr_discharge_slot_7_start");
    assert("ge_hr_discharge_slot_7_start"@.len() == 28);
    assert("ge_hr_discharge_slot_7_start"@[0] == 'g');
    assert("ge_hr_discharge_slot_7_start"@[3] == 'h');
    assert("ge_hr_discharge_slot_7_start"@[4] == 'r');
    assert("ge_hr_discharge_slot_7_start"@[18] == 'o');
    assert("ge_hr_discharge_slot_7_start"@[21] == '7');
    names::lemma_holding(catalogue::definition_at(10288), s);
    lemma_kept(values, s, 10288);
    reveal_strlit("ge_hr_discharge_slot_7_end");
    assert("ge_hr_discharge_slot_7_end"@.len() == 26);
    assert("ge_hr_discharge_slot_7_end"@[0] == 'g');
    assert("ge_hr_discharge_slot_7_end"@[3] == 'h');
    assert("ge_hr_discharge_slot_7_end"@[4] == 'r');
    assert("ge_hr_discharge_slot_7_end"@[18] == 'o');
    assert("ge_hr_discharge_slot_7_end"@[21] == '7');
    names::lemma_holding(catalogue::definition_at(10289), s);
    lemma_kept(values, s, 10289);
    reveal_strlit("ge_hr_discharge_target_soc_7");
    assert("ge_hr_discharge_target_soc_7"@.len() == 28);
    assert("ge_hr_discharge_target_soc_7"@[0] == 'g');
    assert("ge_hr_discharge_target_soc_7"@[3] == 'h');
    assert("ge_hr_discharge_target_soc_7"@[4] == 'r');
    assert("ge_hr_discharge_target_soc_7"@[18] == 'r');
    names::lemma_holding(catalogue::definition_at(10290), s);
    lemma_kept(values, s, 10290);
    reveal_strlit("ge_hr_discharge_slot_8_start");
    assert("ge_hr_discharge_slot_8_start"@.len() == 28);
    assert("ge_hr_discharge_slot_8_start"@[0] == 'g');
    assert("ge_hr_discharge_slot_8_start"@[3] == 'h');
    assert("ge_hr_discharge_slot_8_start"@[4] == 'r');
    assert("ge_hr_discharge_slot_8_start"@[18] == 'o');
    assert("ge_hr_discharge_slot_8_start"@[21] == '8');
    names::lemma_holding(catalogue::definition_at(10291), s);
    lemma_kept(values, s, 10291);
    reveal_strlit("ge_hr_discharge_slot_8_end");
    assert("ge_hr_discharge_slot_8_end"@.len() == 26);
    assert("ge_hr_discharge_slot_8_end"@[0] == 'g');
    assert("ge_hr_discharge_slot_8_end"@[3] == 'h');
    assert("ge_hr_discharge_slot_8_end"@[4] == 'r');
    assert("ge_hr_discharge_slot_8_end"@[18] == 'o');
    assert("ge_hr_discharge_slot_8_end"@[21] == '8');
    names::lemma_holding(catalogue::definition_at(10292), s);
    lemma_kept(values, s, 10292);
    reveal_strlit("ge_hr_discharge_target_soc_8");
    assert("ge_hr_discharge_target_soc_8"@.len() == 28);
    assert("ge_hr_discharge_target_soc_8"@[0] == 'g');
    assert("ge_hr_discharge_target_soc_8"@[3] == 'h');
    assert("ge_hr_discharge_target_soc_8"@[4] == 'r');
    assert("ge_hr_discharge_target_soc_8"@[18] == 'r');
    names::lemma_holding(catalogue::definition_at(10293), s);
    lemma_kept(values, s, 10293);
    reveal_strlit("ge_hr_discharge_slot_9_start");
    assert("ge_hr_discharge_slot_9_start"@.len() == 28);
    assert("ge_hr_discharge_slot_9_start"@[0] == 'g');
    assert("ge_hr_discharge_slot_9_start"@[3] == 'h');
    assert("ge_hr_discharge_slot_9_start"@[4] == 'r');
    assert("ge_hr_discharge_slot_9_start"@[18] == 'o');
    assert("ge_hr_discharge_slot_9_start"@[21] == '9');
    names::lemma_holding(catalogue::definition_at(10294), s);
    lemma_kept(values, s, 10294);
    reveal_strlit("ge_hr_discharge_slot_9_end");
    assert("ge_hr_discharge_slot_9_end"@.len() == 26);
    assert("ge_hr_discharge_slot_9_end"@[0] == 'g');
    assert("ge_hr_discharge_slot_9_end"@[3] == 'h');
    assert("ge_hr_discharge_slot_9_end"@[4] == 'r');
    assert("ge_hr_discharge_slot_9_end"@[18] == 'o');
    assert("ge_hr_discharge_slot_9_end"@[21] == '9');
    names::lemma_holding(catalogue::definition_at(10295), s);
    lemma_kept(values, s, 10295);
    reveal_strlit("ge_hr_discharge_target_soc_9");
    assert("ge_hr_discharge_target_soc_9"@.len() == 28);
    assert("ge_hr_discharge_target_soc_9"@[0] == 'g');
    assert("ge_hr_discharge_target_soc_9"@[3] == 'h');
    assert("ge_hr_discharge_target_soc_9"@[4] == 'r');
    assert("ge_hr_discharge_target_soc_9"@[18] == 'r');
    names::lemma_holding(catalogue::definition_at(10296), s);
    lemma_kept(values, s, 10296);
    reveal_strlit("ge_hr_discharge_slot_10_start");
    assert("ge_hr_discharge_slot_10_start"@.len() == 29);
    assert("ge_hr_discharge_slot_10_start"@[0] == 'g');
    assert("ge_hr_discharge_slot_10_start"@[3] == 'h');
    assert("ge_hr_discharge_slot_10_start"@[4] == 'r');
    assert("ge_hr_discharge_slot_10_start"@[18] == 'o');
    names::lemma_holding(catalogue::definition_at(10297), s);
    lemma_kept(values, s, 10297);
    reveal_strlit("ge_hr_discharge_slot_10_end");
    assert("ge_hr_discharge_slot_10_end"@.len() == 27);
    assert("ge_hr_discharge_slot_10_end"@[0] == 'g');
    assert("ge_hr_discharge_slot_10_end"@[3] == 'h');
    assert("ge_hr_discharge_slot_10_end"@[4] == 'r');
    assert("ge_hr_discharge_slot_10_end"@[18] == 'o');
    assert("ge_hr_discharge_slot_10_end"@[21] == '1');
    names::lemma_holding(catalogue::definition_at(10298), s);
    lemma_kept(values, s, 10298);
    reveal_strlit("ge_hr_discharge_target_soc_10");
    assert("ge_hr_discharge_target_soc_10"@.len() == 29);
    assert("ge_hr_discharge_target_soc_10"@[0] == 'g');
    assert("ge_hr_discharge_target_soc_10"@[3] == 'h');
    assert("ge_hr_discharge_target_soc_10"@[4] == 'r');
    assert("ge_hr_discharge_target_soc_10"@[18] == 'r');
    names::lemma_holding(catalogue::definition_at(10299), s);
    lemma_kept(values, s, 10299);
}

/// Law: no plant shows in HR 1078-1121, where they are the schedule's or a client's.
#[verifier::spinoff_prover]
#[verifier::rlimit(60)]
pub proof fn law_hr_1078_to_1121_stay(values: Map<u32, u16>, s: PlantState)
    ensures
        words::holding(values, s, 1078) == values.get(11078),
        words::holding(values, s, 1109) == values.get(11109),
        words::holding(values, s, 1111) == values.get(11111),
        words::holding(values, s, 1112) == values.get(11112),
        words::holding(values, s, 1113) == values.get(11113),
        words::holding(values, s, 1114) == values.get(11114),
        words::holding(values, s, 1115) == values.get(11115),
        words::holding(values, s, 1116) == values.get(11116),
        words::holding(values, s, 1118) == values.get(11118),
        words::holding(values, s, 1119) == values.get(11119),
        words::holding(values, s, 1120) == values.get(11120),
        words::holding(values, s, 1121) == values.get(11121),
{
    definitions::lemma_three_phase_holding();
    names::lemma_holding_a_names();
    names::lemma_holding_b_names();
    names::lemma_internal_names();
    lemma_other_names();
    reveal_strlit("tph_battery_discharge_min_power_reserve");
    assert("tph_battery_discharge_min_power_reserve"@.len() == 39);
    assert("tph_battery_discharge_min_power_reserve"@[0] == 't');
    assert("tph_battery_discharge_min_power_reserve"@[3] == '_');
    assert("tph_battery_discharge_min_power_reserve"@[4] == 'b');
    assert("tph_battery_discharge_min_power_reserve"@[18] == 'r');
    names::lemma_holding(catalogue::definition_at(11078), s);
    lemma_kept(values, s, 11078);
    reveal_strlit("tph_battery_soc_reserve");
    assert("tph_battery_soc_reserve"@.len() == 23);
    assert("tph_battery_soc_reserve"@[0] == 't');
    assert("tph_battery_soc_reserve"@[3] == '_');
    assert("tph_battery_soc_reserve"@[4] == 'b');
    assert("tph_battery_soc_reserve"@[18] == 's');
    names::lemma_holding(catalogue::definition_at(11109), s);
    lemma_kept(values, s, 11109);
    reveal_strlit("tph_charge_target_soc");
    assert("tph_charge_target_soc"@.len() == 21);
    assert("tph_charge_target_soc"@[0] == 't');
    assert("tph_charge_target_soc"@[3] == '_');
    assert("tph_charge_target_soc"@[4] == 'c');
    assert("tph_charge_target_soc"@[18] == 's');
    names::lemma_holding(catalogue::definition_at(11111), s);
    lemma_kept(values, s, 11111);
    reveal_strlit("tph_ac_charge_enable");
    assert("tph_ac_charge_enable"@.len() == 20);
    assert("tph_ac_charge_enable"@[0] == 't');
    assert("tph_ac_charge_enable"@[3] == '_');
    assert("tph_ac_charge_enable"@[4] == 'a');
    assert("tph_ac_charge_enable"@[18] == 'l');
    names::lemma_holding(catalogue::definition_at(11112), s);
    lemma_kept(values, s, 11112);
    reveal_strlit("tph_charge_slot_1_start");
    assert("tph_charge_slot_1_start"@.len() == 23);
    assert("tph_charge_slot_1_start"@[0] == 't');
    assert("tph_charge_slot_1_start"@[3] == '_');
    assert("tph_charge_slot_1_start"@[4] == 'c');
    assert("tph_charge_slot_1_start"@[18] == 's');
    names::lemma_holding(catalogue::definition_at(11113), s);
    lemma_kept(values, s, 11113);
    reveal_strlit("tph_charge_slot_1_end");
    assert("tph_charge_slot_1_end"@.len() == 21);
    assert("tph_charge_slot_1_end"@[0] == 't');
    assert("tph_charge_slot_1_end"@[3] == '_');
    assert("tph_charge_slot_1_end"@[4] == 'c');
    assert("tph_charge_slot_1_end"@[18] == 'e');
    names::lemma_holding(catalogue::definition_at(11114), s);
    lemma_kept(values, s, 11114);
    reveal_strlit("tph_charge_slot_2_start");
    assert("tph_charge_slot_2_start"@.len() == 23);
    assert("tph_charge_slot_2_start"@[0] == 't');
    assert("tph_charge_slot_2_start"@[3] == '_');
    assert("tph_charge_slot_2_start"@[4] == 'c');
    assert("tph_charge_slot_2_start"@[18] == 's');
    names::lemma_holding(catalogue::definition_at(11115), s);
    lemma_kept(values, s, 11115);
    reveal_strlit("tph_charge_slot_2_end");
    assert("tph_charge_slot_2_end"@.len() == 21);
    assert("tph_charge_slot_2_end"@[0] == 't');
    assert("tph_charge_slot_2_end"@[3] == '_');
    assert("tph_charge_slot_2_end"@[4] == 'c');
    assert("tph_charge_slot_2_end"@[18] == 'e');
    names::lemma_holding(catalogue::definition_at(11116), s);
    lemma_kept(values, s, 11116);
    reveal_strlit("tph_discharge_slot_1_start");
    assert("tph_discharge_slot_1_start"@.len() == 26);
    assert("tph_discharge_slot_1_start"@[0] == 't');
    assert("tph_discharge_slot_1_start"@[3] == '_');
    assert("tph_discharge_slot_1_start"@[4] == 'd');
    assert("tph_discharge_slot_1_start"@[18] == '_');
    assert("tph_discharge_slot_1_start"@[21] == 's');
    names::lemma_holding(catalogue::definition_at(11118), s);
    lemma_kept(values, s, 11118);
    reveal_strlit("tph_discharge_slot_1_end");
    assert("tph_discharge_slot_1_end"@.len() == 24);
    assert("tph_discharge_slot_1_end"@[0] == 't');
    assert("tph_discharge_slot_1_end"@[3] == '_');
    assert("tph_discharge_slot_1_end"@[4] == 'd');
    assert("tph_discharge_slot_1_end"@[18] == '_');
    assert("tph_discharge_slot_1_end"@[21] == 'e');
    names::lemma_holding(catalogue::definition_at(11119), s);
    lemma_kept(values, s, 11119);
    reveal_strlit("tph_discharge_slot_2_start");
    assert("tph_discharge_slot_2_start"@.len() == 26);
    assert("tph_discharge_slot_2_start"@[0] == 't');
    assert("tph_discharge_slot_2_start"@[3] == '_');
    assert("tph_discharge_slot_2_start"@[4] == 'd');
    assert("tph_discharge_slot_2_start"@[18] == '_');
    assert("tph_discharge_slot_2_start"@[21] == 's');
    names::lemma_holding(catalogue::definition_at(11120), s);
    lemma_kept(values, s, 11120);
    reveal_strlit("tph_discharge_slot_2_end");
    assert("tph_discharge_slot_2_end"@.len() == 24);
    assert("tph_discharge_slot_2_end"@[0] == 't');
    assert("tph_discharge_slot_2_end"@[3] == '_');
    assert("tph_discharge_slot_2_end"@[4] == 'd');
    assert("tph_discharge_slot_2_end"@[18] == '_');
    assert("tph_discharge_slot_2_end"@[21] == 'e');
    names::lemma_holding(catalogue::definition_at(11121), s);
    lemma_kept(values, s, 11121);
}

/// Law: no plant shows in HR 2041-2052, where they are the schedule's or a client's.
#[verifier::spinoff_prover]
#[verifier::rlimit(60)]
pub proof fn law_hr_2041_to_2052_stay(values: Map<u32, u16>, s: PlantState)
    ensures
        words::holding(values, s, 2041) == values.get(12041),
        words::holding(values, s, 2042) == values.get(12042),
        words::holding(values, s, 2043) == values.get(12043),
        words::holding(values, s, 2044) == values.get(12044),
        words::holding(values, s, 2045) == values.get(12045),
        words::holding(values, s, 2046) == values.get(12046),
        words::holding(values, s, 2047) == values.get(12047),
        words::holding(values, s, 2048) == values.get(12048),
        words::holding(values, s, 2049) == values.get(12049),
        words::holding(values, s, 2050) == values.get(12050),
        words::holding(values, s, 2051) == values.get(12051),
        words::holding(values, s, 2052) == values.get(12052),
{
    definitions::lemma_ems_holding();
    names::lemma_holding_a_names();
    names::lemma_holding_b_names();
    names::lemma_internal_names();
    lemma_other_names();
    reveal_strlit("ems_expected_inverter_count");
    assert("ems_expected_inverter_count"@.len() == 27);
    assert("ems_expected_inverter_count"@[0] == 'e');
    assert("ems_expected_inverter_count"@[3] == '_');
    assert("ems_expected_inverter_count"@[4] == 'e');
    assert("ems_expected_inverter_count"@[18] == 't');
    assert("ems_expected_inverter_count"@[21] == '_');
    names::lemma_holding(catalogue::definition_at(12041), s);
    lemma_kept(values, s, 12041);
    reveal_strlit("ems_expected_meter_count");
    assert("ems_expected_meter_count"@.len() == 24);
    assert("ems_expected_meter_count"@[0] == 'e');
    assert("ems_expected_meter_count"@[3] == '_');
    assert("ems_expected_meter_count"@[4] == 'e');
    assert("ems_expected_meter_count"@[18] == '_');
    assert("ems_expected_meter_count"@[21] == 'u');
    names::lemma_holding(catalogue::definition_at(12042), s);
    lemma_kept(values, s, 12042);
    reveal_strlit("ems_expected_car_charger_count");
    assert("ems_expected_car_charger_count"@.len() == 30);
    assert("ems_expected_car_charger_count"@[0] == 'e');
    assert("ems_expected_car_charger_count"@[3] == '_');
    assert("ems_expected_car_charger_count"@[4] == 'e');
    assert("ems_expected_car_charger_count"@[18] == 'h');
    names::lemma_holding(catalogue::definition_at(12043), s);
    lemma_kept(values, s, 12043);
    reveal_strlit("ems_discharge_slot_1_start");
    assert("ems_discharge_slot_1_start"@.len() == 26);
    assert("ems_discharge_slot_1_start"@[0] == 'e');
    assert("ems_discharge_slot_1_start"@[3] == '_');
    assert("ems_discharge_slot_1_start"@[4] == 'd');
    assert("ems_discharge_slot_1_start"@[18] == '_');
    assert("ems_discharge_slot_1_start"@[21] == 's');
    names::lemma_holding(catalogue::definition_at(12044), s);
    lemma_kept(values, s, 12044);
    reveal_strlit("ems_discharge_slot_1_end");
    assert("ems_discharge_slot_1_end"@.len() == 24);
    assert("ems_discharge_slot_1_end"@[0] == 'e');
    assert("ems_discharge_slot_1_end"@[3] == '_');
    assert("ems_discharge_slot_1_end"@[4] == 'd');
    assert("ems_discharge_slot_1_end"@[18] == '_');
    assert("ems_discharge_slot_1_end"@[21] == 'e');
    names::lemma_holding(catalogue::definition_at(12045), s);
    lemma_kept(values, s, 12045);
    reveal_strlit("ems_discharge_target_soc_1");
    assert("ems_discharge_target_soc_1"@.len() == 26);
    assert("ems_discharge_target_soc_1"@[0] == 'e');
    assert("ems_discharge_target_soc_1"@[3] == '_');
    assert("ems_discharge_target_soc_1"@[4] == 'd');
    assert("ems_discharge_target_soc_1"@[18] == 'e');
    assert("ems_discharge_target_soc_1"@[21] == 's');
    names::lemma_holding(catalogue::definition_at(12046), s);
    lemma_kept(values, s, 12046);
    reveal_strlit("ems_discharge_slot_2_start");
    assert("ems_discharge_slot_2_start"@.len() == 26);
    assert("ems_discharge_slot_2_start"@[0] == 'e');
    assert("ems_discharge_slot_2_start"@[3] == '_');
    assert("ems_discharge_slot_2_start"@[4] == 'd');
    assert("ems_discharge_slot_2_start"@[18] == '_');
    assert("ems_discharge_slot_2_start"@[21] == 's');
    names::lemma_holding(catalogue::definition_at(12047), s);
    lemma_kept(values, s, 12047);
    reveal_strlit("ems_discharge_slot_2_end");
    assert("ems_discharge_slot_2_end"@.len() == 24);
    assert("ems_discharge_slot_2_end"@[0] == 'e');
    assert("ems_discharge_slot_2_end"@[3] == '_');
    assert("ems_discharge_slot_2_end"@[4] == 'd');
    assert("ems_discharge_slot_2_end"@[18] == '_');
    assert("ems_discharge_slot_2_end"@[21] == 'e');
    names::lemma_holding(catalogue::definition_at(12048), s);
    lemma_kept(values, s, 12048);
    reveal_strlit("ems_discharge_target_soc_2");
    assert("ems_discharge_target_soc_2"@.len() == 26);
    assert("ems_discharge_target_soc_2"@[0] == 'e');
    assert("ems_discharge_target_soc_2"@[3] == '_');
    assert("ems_discharge_target_soc_2"@[4] == 'd');
    assert("ems_discharge_target_soc_2"@[18] == 'e');
    assert("ems_discharge_target_soc_2"@[21] == 's');
    names::lemma_holding(catalogue::definition_at(12049), s);
    lemma_kept(values, s, 12049);
    reveal_strlit("ems_discharge_slot_3_start");
    assert("ems_discharge_slot_3_start"@.len() == 26);
    assert("ems_discharge_slot_3_start"@[0] == 'e');
    assert("ems_discharge_slot_3_start"@[3] == '_');
    assert("ems_discharge_slot_3_start"@[4] == 'd');
    assert("ems_discharge_slot_3_start"@[18] == '_');
    assert("ems_discharge_slot_3_start"@[21] == 's');
    names::lemma_holding(catalogue::definition_at(12050), s);
    lemma_kept(values, s, 12050);
    reveal_strlit("ems_discharge_slot_3_end");
    assert("ems_discharge_slot_3_end"@.len() == 24);
    assert("ems_discharge_slot_3_end"@[0] == 'e');
    assert("ems_discharge_slot_3_end"@[3] == '_');
    assert("ems_discharge_slot_3_end"@[4] == 'd');
    assert("ems_discharge_slot_3_end"@[18] == '_');
    assert("ems_discharge_slot_3_end"@[21] == 'e');
    names::lemma_holding(catalogue::definition_at(12051), s);
    lemma_kept(values, s, 12051);
    reveal_strlit("ems_discharge_target_soc_3");
    assert("ems_discharge_target_soc_3"@.len() == 26);
    assert("ems_discharge_target_soc_3"@[0] == 'e');
    assert("ems_discharge_target_soc_3"@[3] == '_');
    assert("ems_discharge_target_soc_3"@[4] == 'd');
    assert("ems_discharge_target_soc_3"@[18] == 'e');
    assert("ems_discharge_target_soc_3"@[21] == 's');
    names::lemma_holding(catalogue::definition_at(12052), s);
    lemma_kept(values, s, 12052);
}

/// Law: no plant shows in HR 2053-2064, where they are the schedule's or a client's.
#[verifier::spinoff_prover]
#[verifier::rlimit(60)]
pub proof fn law_hr_2053_to_2064_stay(values: Map<u32, u16>, s: PlantState)
    ensures
        words::holding(values, s, 2053) == values.get(12053),
        words::holding(values, s, 2054) == values.get(12054),
        words::holding(values, s, 2055) == values.get(12055),
        words::holding(values, s, 2056) == values.get(12056),
        words::holding(values, s, 2057) == values.get(12057),
        words::holding(values, s, 2058) == values.get(12058),
        words::holding(values, s, 2059) == values.get(12059),
        words::holding(values, s, 2060) == values.get(12060),
        words::holding(values, s, 2061) == values.get(12061),
        words::holding(values, s, 2062) == values.get(12062),
        words::holding(values, s, 2063) == values.get(12063),
        words::holding(values, s, 2064) == values.get(12064),
{
    definitions::lemma_ems_holding();
    names::lemma_holding_a_names();
    names::lemma_holding_b_names();
    names::lemma_internal_names();
    lemma_other_names();
    reveal_strlit("ems_charge_slot_1_start");
    assert("ems_charge_slot_1_start"@.len() == 23);
    assert("ems_charge_slot_1_start"@[0] == 'e');
    assert("ems_charge_slot_1_start"@[3] == '_');
    assert("ems_charge_slot_1_start"@[4] == 'c');
    assert("ems_charge_slot_1_start"@[18] == 's');
    names::lemma_holding(catalogue::definition_at(12053), s);
    lemma_kept(values, s, 12053);
    reveal_strlit("ems_charge_slot_1_end");
    assert("ems_charge_slot_1_end"@.len() == 21);
    assert("ems_charge_slot_1_end"@[0] == 'e');
    assert("ems_charge_slot_1_end"@[3] == '_');
    assert("ems_charge_slot_1_end"@[4] == 'c');
    assert("ems_charge_slot_1_end"@[18] == 'e');
    names::lemma_holding(catalogue::definition_at(12054), s);
    lemma_kept(values, s, 12054);
    reveal_strlit("ems_charge_target_soc_1");
    assert("ems_charge_target_soc_1"@.len() == 23);
    assert("ems_charge_target_soc_1"@[0] == 'e');
    assert("ems_charge_target_soc_1"@[3] == '_');
    assert("ems_charge_target_soc_1"@[4] == 'c');
    assert("ems_charge_target_soc_1"@[18] == 's');
    names::lemma_holding(catalogue::definition_at(12055), s);
    lemma_kept(values, s, 12055);
    reveal_strlit("ems_charge_slot_2_start");
    assert("ems_charge_slot_2_start"@.len() == 23);
    assert("ems_charge_slot_2_start"@[0] == 'e');
    assert("ems_charge_slot_2_start"@[3] == '_');
    assert("ems_charge_slot_2_start"@[4] == 'c');
    assert("ems_charge_slot_2_start"@[18] == 's');
    names::lemma_holding(catalogue::definition_at(12056), s);
    lemma_kept(values, s, 12056);
    reveal_strlit("ems_charge_slot_2_end");
    assert("ems_charge_slot_2_end"@.len() == 21);
    assert("ems_charge_slot_2_end"@[0] == 'e');
    assert("ems_charge_slot_2_end"@[3] == '_');
    assert("ems_charge_slot_2_end"@[4] == 'c');
    assert("ems_charge_slot_2_end"@[18] == 'e');
    names::lemma_holding(catalogue::definition_at(12057), s);
    lemma_kept(values, s, 12057);
    reveal_strlit("ems_charge_target_soc_2");
    assert("ems_charge_target_soc_2"@.len() == 23);
    assert("ems_charge_target_soc_2"@[0] == 'e');
    assert("ems_charge_target_soc_2"@[3] == '_');
    assert("ems_charge_target_soc_2"@[4] == 'c');
    assert("ems_charge_target_soc_2"@[18] == 's');
    names::lemma_holding(catalogue::definition_at(12058), s);
    lemma_kept(values, s, 12058);
    reveal_strlit("ems_charge_slot_3_start");
    assert("ems_charge_slot_3_start"@.len() == 23);
    assert("ems_charge_slot_3_start"@[0] == 'e');
    assert("ems_charge_slot_3_start"@[3] == '_');
    assert("ems_charge_slot_3_start"@[4] == 'c');
    assert("ems_charge_slot_3_start"@[18] == 's');
    names::lemma_holding(catalogue::definition_at(12059), s);
    lemma_kept(values, s, 12059);
    reveal_strlit("ems_charge_slot_3_end");
    assert("ems_charge_slot_3_end"@.len() == 21);
    assert("ems_charge_slot_3_end"@[0] == 'e');
    assert("ems_charge_slot_3_end"@[3] == '_');
    assert("ems_charge_slot_3_end"@[4] == 'c');
    assert("ems_charge_slot_3_end"@[18] == 'e');
    names::lemma_holding(catalogue::definition_at(12060), s);
    lemma_kept(values, s, 12060);
    reveal_strlit("ems_charge_target_soc_3");
    assert("ems_charge_target_soc_3"@.len() == 23);
    assert("ems_charge_target_soc_3"@[0] == 'e');
    assert("ems_charge_target_soc_3"@[3] == '_');
    assert("ems_charge_target_soc_3"@[4] == 'c');
    assert("ems_charge_target_soc_3"@[18] == 's');
    names::lemma_holding(catalogue::definition_at(12061), s);
    lemma_kept(values, s, 12061);
    reveal_strlit("ems_export_slot_1_start");
    assert("ems_export_slot_1_start"@.len() == 23);
    assert("ems_export_slot_1_start"@[0] == 'e');
    assert("ems_export_slot_1_start"@[3] == '_');
    assert("ems_export_slot_1_start"@[4] == 'e');
    assert("ems_export_slot_1_start"@[18] == 's');
    names::lemma_holding(catalogue::definition_at(12062), s);
    lemma_kept(values, s, 12062);
    reveal_strlit("ems_export_slot_1_end");
    assert("ems_export_slot_1_end"@.len() == 21);
    assert("ems_export_slot_1_end"@[0] == 'e');
    assert("ems_export_slot_1_end"@[3] == '_');
    assert("ems_export_slot_1_end"@[4] == 'e');
    assert("ems_export_slot_1_end"@[18] == 'e');
    names::lemma_holding(catalogue::definition_at(12063), s);
    lemma_kept(values, s, 12063);
    reveal_strlit("ems_export_target_soc_1");
    assert("ems_export_target_soc_1"@.len() == 23);
    assert("ems_export_target_soc_1"@[0] == 'e');
    assert("ems_export_target_soc_1"@[3] == '_');
    assert("ems_export_target_soc_1"@[4] == 'e');
    assert("ems_export_target_soc_1"@[18] == 's');
    names::lemma_holding(catalogue::definition_at(12064), s);
    lemma_kept(values, s, 12064);
}

/// Law: no plant shows in HR 2065-2075, where they are the schedule's or a client's.
#[verifier::spinoff_prover]
#[verifier::rlimit(60)]
pub proof fn law_hr_2065_to_2075_stay(values: Map<u32, u16>, s: PlantState)
    ensures
        words::holding(values, s, 2065) == values.get(12065),
        words::holding(values, s, 2066) == values.get(12066),
        words::holding(values, s, 2067) == values.get(12067),
        words::holding(values, s, 2068) == values.get(12068),
        words::holding(values, s, 2069) == values.get(12069),
        words::holding(values, s, 2070) == values.get(12070),
        words::holding(values, s, 2072) == values.get(12072),
        words::holding(values, s, 2073) == values.get(12073),
        words::holding(values, s, 2074) == values.get(12074),
        words::holding(values, s, 2075) == values.get(12075),
{
    definitions::lemma_ems_holding();
    names::lemma_holding_a_names();
    names::lemma_holding_b_names();
    names::lemma_internal_names();
    lemma_other_names();
    reveal_strlit("ems_export_slot_2_start");
    assert("ems_export_slot_2_start"@.len() == 23);
    assert("ems_export_slot_2_start"@[0] == 'e');
    assert("ems_export_slot_2_start"@[3] == '_');
    assert("ems_export_slot_2_start"@[4] == 'e');
    assert("ems_export_slot_2_start"@[18] == 's');
    names::lemma_holding(catalogue::definition_at(12065), s);
    lemma_kept(values, s, 12065);
    reveal_strlit("ems_export_slot_2_end");
    assert("ems_export_slot_2_end"@.len() == 21);
    assert("ems_export_slot_2_end"@[0] == 'e');
    assert("ems_export_slot_2_end"@[3] == '_');
    assert("ems_export_slot_2_end"@[4] == 'e');
    assert("ems_export_slot_2_end"@[18] == 'e');
    names::lemma_holding(catalogue::definition_at(12066), s);
    lemma_kept(values, s, 12066);
    reveal_strlit("ems_export_target_soc_2");
    assert("ems_export_target_soc_2"@.len() == 23);
    assert("ems_export_target_soc_2"@[0] == 'e');
    assert("ems_export_target_soc_2"@[3] == '_');
    assert("ems_export_target_soc_2"@[4] == 'e');
    assert("ems_export_target_soc_2"@[18] == 's');
    names::lemma_holding(catalogue::definition_at(12067), s);
    lemma_kept(values, s, 12067);
    reveal_strlit("ems_export_slot_3_start");
    assert("ems_export_slot_3_start"@.len() == 23);
    assert("ems_export_slot_3_start"@[0] == 'e');
    assert("ems_export_slot_3_start"@[3] == '_');
    assert("ems_export_slot_3_start"@[4] == 'e');
    assert("ems_export_slot_3_start"@[18] == 's');
    names::lemma_holding(catalogue::definition_at(12068), s);
    lemma_kept(values, s, 12068);
    reveal_strlit("ems_export_slot_3_end");
    assert("ems_export_slot_3_end"@.len() == 21);
    assert("ems_export_slot_3_end"@[0] == 'e');
    assert("ems_export_slot_3_end"@[3] == '_');
    assert("ems_export_slot_3_end"@[4] == 'e');
    assert("ems_export_slot_3_end"@[18] == 'e');
    names::lemma_holding(catalogue::definition_at(12069), s);
    lemma_kept(values, s, 12069);
    reveal_strlit("ems_export_target_soc_3");
    assert("ems_export_target_soc_3"@.len() == 23);
    assert("ems_export_target_soc_3"@[0] == 'e');
    assert("ems_export_target_soc_3"@[3] == '_');
    assert("ems_export_target_soc_3"@[4] == 'e');
    assert("ems_export_target_soc_3"@[18] == 's');
    names::lemma_holding(catalogue::definition_at(12070), s);
    lemma_kept(values, s, 12070);
    reveal_strlit("ems_car_charge_mode");
    assert("ems_car_charge_mode"@.len() == 19);
    assert("ems_car_charge_mode"@[0] == 'e');
    assert("ems_car_charge_mode"@[3] == '_');
    assert("ems_car_charge_mode"@[4] == 'c');
    assert("ems_car_charge_mode"@[18] == 'e');
    names::lemma_holding(catalogue::definition_at(12072), s);
    lemma_kept(values, s, 12072);
    reveal_strlit("ems_car_charge_boost");
    assert("ems_car_charge_boost"@.len() == 20);
    assert("ems_car_charge_boost"@[0] == 'e');
    assert("ems_car_charge_boost"@[3] == '_');
    assert("ems_car_charge_boost"@[4] == 'c');
    assert("ems_car_charge_boost"@[18] == 's');
    names::lemma_holding(catalogue::definition_at(12073), s);
    lemma_kept(values, s, 12073);
    reveal_strlit("ems_plant_charge_compensation");
    assert("ems_plant_charge_compensation"@.len() == 29);
    assert("ems_plant_charge_compensation"@[0] == 'e');
    assert("ems_plant_charge_compensation"@[3] == '_');
    assert("ems_plant_charge_compensation"@[4] == 'p');
    assert("ems_plant_charge_compensation"@[18] == 'o');
    names::lemma_holding(catalogue::definition_at(12074), s);
    lemma_kept(values, s, 12074);
    reveal_strlit("ems_plant_discharge_compensation");
    assert("ems_plant_discharge_compensation"@.len() == 32);
    assert("ems_plant_discharge_compensation"@[0] == 'e');
    assert("ems_plant_discharge_compensation"@[3] == '_');
    assert("ems_plant_discharge_compensation"@[4] == 'p');
    assert("ems_plant_discharge_compensation"@[18] == 'e');
    assert("ems_plant_discharge_compensation"@[21] == 'o');
    names::lemma_holding(catalogue::definition_at(12075), s);
    lemma_kept(values, s, 12075);
}

/// Law: no plant shows in HR 554-565, where they are the schedule's or a client's.
#[verifier::spinoff_prover]
#[verifier::rlimit(60)]
pub proof fn law_hr_554_to_565_stay(values: Map<u32, u16>, s: PlantState)
    ensures
        words::holding(values, s, 554) == values.get(10554),
        words::holding(values, s, 555) == values.get(10555),
        words::holding(values, s, 556) == values.get(10556),
        words::holding(values, s, 557) == values.get(10557),
        words::holding(values, s, 558) == values.get(10558),
        words::holding(values, s, 559) == values.get(10559),
        words::holding(values, s, 560) == values.get(10560),
        words::holding(values, s, 561) == values.get(10561),
        words::holding(values, s, 562) == values.get(10562),
        words::holding(values, s, 563) == values.get(10563),
        words::holding(values, s, 564) == values.get(10564),
        words::holding(values, s, 565) == values.get(10565),
{
    definitions::lemma_smart_load();
    names::lemma_holding_a_names();
    names::lemma_holding_b_names();
    names::lemma_internal_names();
    lemma_other_names();
    reveal_strlit("ge_hr_smart_load_slot_1_start");
    assert("ge_hr_smart_load_slot_1_start"@.len() == 29);
    assert("ge_hr_smart_load_slot_1_start"@[0] == 'g');
    assert("ge_hr_smart_load_slot_1_start"@[3] == 'h');
    assert("ge_hr_smart_load_slot_1_start"@[4] == 'r');
    assert("ge_hr_smart_load_slot_1_start"@[18] == 'l');
    names::lemma_holding(catalogue::definition_at(10554), s);
    lemma_kept(values, s, 10554);
    reveal_strlit("ge_hr_smart_load_slot_1_end");
    assert("ge_hr_smart_load_slot_1_end"@.len() == 27);
    assert("ge_hr_smart_load_slot_1_end"@[0] == 'g');
    assert("ge_hr_smart_load_slot_1_end"@[3] == 'h');
    assert("ge_hr_smart_load_slot_1_end"@[4] == 'r');
    assert("ge_hr_smart_load_slot_1_end"@[18] == 'l');
    names::lemma_holding(catalogue::definition_at(10555), s);
    lemma_kept(values, s, 10555);
    reveal_strlit("ge_hr_smart_load_slot_2_start");
    assert("ge_hr_smart_load_slot_2_start"@.len() == 29);
    assert("ge_hr_smart_load_slot_2_start"@[0] == 'g');
    assert("ge_hr_smart_load_slot_2_start"@[3] == 'h');
    assert("ge_hr_smart_load_slot_2_start"@[4] == 'r');
    assert("ge_hr_smart_load_slot_2_start"@[18] == 'l');
    names::lemma_holding(catalogue::definition_at(10556), s);
    lemma_kept(values, s, 10556);
    reveal_strlit("ge_hr_smart_load_slot_2_end");
    assert("ge_hr_smart_load_slot_2_end"@.len() == 27);
    assert("ge_hr_smart_load_slot_2_end"@[0] == 'g');
    assert("ge_hr_smart_load_slot_2_end"@[3] == 'h');
    assert("ge_hr_smart_load_slot_2_end"@[4] == 'r');
    assert("ge_hr_smart_load_slot_2_end"@[18] == 'l');
    names::lemma_holding(catalogue::definition_at(10557), s);
    lemma_kept(values, s, 10557);
    reveal_strlit("ge_hr_smart_load_slot_3_start");
    assert("ge_hr_smart_load_slot_3_start"@.len() == 29);
    assert("ge_hr_smart_load_slot_3_start"@[0] == 'g');
    assert("ge_hr_smart_load_slot_3_start"@[3] == 'h');
    assert("ge_hr_smart_load_slot_3_start"@[4] == 'r');
    assert("ge_hr_smart_load_slot_3_start"@[18] == 'l');
    names::lemma_holding(catalogue::definition_at(10558), s);
    lemma_kept(values, s, 10558);
    reveal_strlit("ge_hr_smart_load_slot_3_end");
    assert("ge_hr_smart_load_slot_3_end"@.len() == 27);
    assert("ge_hr_smart_load_slot_3_end"@[0] == 'g');
    assert("ge_hr_smart_load_slot_3_end"@[3] == 'h');
    assert("ge_hr_smart_load_slot_3_end"@[4] == 'r');
    assert("ge_hr_smart_load_slot_3_end"@[18] == 'l');
    names::lemma_holding(catalogue::definition_at(10559), s);
    lemma_kept(values, s, 10559);
    reveal_strlit("ge_hr_smart_load_slot_4_start");
    assert("ge_hr_smart_load_slot_4_start"@.len() == 29);
    assert("ge_hr_smart_load_slot_4_start"@[0] == 'g');
    assert("ge_hr_smart_load_slot_4_start"@[3] == 'h');
    assert("ge_hr_smart_load_slot_4_start"@[4] == 'r');
    assert("ge_hr_smart_load_slot_4_start"@[18] == 'l');
    names::lemma_holding(catalogue::definition_at(10560), s);
    lemma_kept(values, s, 10560);
    reveal_strlit("ge_hr_smart_load_slot_4_end");
    assert("ge_hr_smart_load_slot_4_end"@.len() == 27);
    assert("ge_hr_smart_load_slot_4_end"@[0] == 'g');
    assert("ge_hr_smart_load_slot_4_end"@[3] == 'h');
    assert("ge_hr_smart_load_slot_4_end"@[4] == 'r');
    assert("ge_hr_smart_load_slot_4_end"@[18] == 'l');
    names::lemma_holding(catalogue::definition_at(10561), s);
    lemma_kept(values, s, 10561);
    reveal_strlit("ge_hr_smart_load_slot_5_start");
    assert("ge_hr_smart_load_slot_5_start"@.len() == 29);
    assert("ge_hr_smart_load_slot_5_start"@[0] == 'g');
    assert("ge_hr_smart_load_slot_5_start"@[3] == 'h');
    assert("ge_hr_smart_load_slot_5_start"@[4] == 'r');
    assert("ge_hr_smart_load_slot_5_start"@[18] == 'l');
    names::lemma_holding(catalogue::definition_at(10562), s);
    lemma_kept(values, s, 10562);
    reveal_strlit("ge_hr_smart_load_slot_5_end");
    assert("ge_hr_smart_load_slot_5_end"@.len() == 27);
    assert("ge_hr_smart_load_slot_5_end"@[0] == 'g');
    assert("ge_hr_smart_load_slot_5_end"@[3] == 'h');
    assert("ge_hr_smart_load_slot_5_end"@[4] == 'r');
    assert("ge_hr_smart_load_slot_5_end"@[18] == 'l');
    names::lemma_holding(catalogue::definition_at(10563), s);
    lemma_kept(values, s, 10563);
    reveal_strlit("ge_hr_smart_load_slot_6_start");
    assert("ge_hr_smart_load_slot_6_start"@.len() == 29);
    assert("ge_hr_smart_load_slot_6_start"@[0] == 'g');
    assert("ge_hr_smart_load_slot_6_start"@[3] == 'h');
    assert("ge_hr_smart_load_slot_6_start"@[4] == 'r');
    assert("ge_hr_smart_load_slot_6_start"@[18] == 'l');
    names::lemma_holding(catalogue::definition_at(10564), s);
    lemma_kept(values, s, 10564);
    reveal_strlit("ge_hr_smart_load_slot_6_end");
    assert("ge_hr_smart_load_slot_6_end"@.len() == 27);
    assert("ge_hr_smart_load_slot_6_end"@[0] == 'g');
    assert("ge_hr_smart_load_slot_6_end"@[3] == 'h');
    assert("ge_hr_smart_load_slot_6_end"@[4] == 'r');
    assert("ge_hr_smart_load_slot_6_end"@[18] == 'l');
    names::lemma_holding(catalogue::definition_at(10565), s);
    lemma_kept(values, s, 10565);
}

/// Law: no plant shows in HR 566-573, where they are the schedule's or a client's.
#[verifier::spinoff_prover]
#[verifier::rlimit(60)]
pub proof fn law_hr_566_to_573_stay(values: Map<u32, u16>, s: PlantState)
    ensures
        words::holding(values, s, 566) == values.get(10566),
        words::holding(values, s, 567) == values.get(10567),
        words::holding(values, s, 568) == values.get(10568),
        words::holding(values, s, 569) == values.get(10569),
        words::holding(values, s, 570) == values.get(10570),
        words::holding(values, s, 571) == values.get(10571),
        words::holding(values, s, 572) == values.get(10572),
        words::holding(values, s, 573) == values.get(10573),
{
    definitions::lemma_smart_load();
    names::lemma_holding_a_names();
    names::lemma_holding_b_names();
    names::lemma_internal_names();
    lemma_other_names();
    reveal_strlit("ge_hr_smart_load_slot_7_start");
    assert("ge_hr_smart_load_slot_7_start"@.len() == 29);
    assert("ge_hr_smart_load_slot_7_start"@[0] == 'g');
    assert("ge_hr_smart_load_slot_7_start"@[3] == 'h');
    assert("ge_hr_smart_load_slot_7_start"@[4] == 'r');
    assert("ge_hr_smart_load_slot_7_start"@[18] == 'l');
    names::lemma_holding(catalogue::definition_at(10566), s);
    lemma_kept(values, s, 10566);
    reveal_strlit("ge_hr_smart_load_slot_7_end");
    assert("ge_hr_smart_load_slot_7_end"@.len() == 27);
    assert("ge_hr_smart_load_slot_7_end"@[0] == 'g');
    assert("ge_hr_smart_load_slot_7_end"@[3] == 'h');
    assert("ge_hr_smart_load_slot_7_end"@[4] == 'r');
    assert("ge_hr_smart_load_slot_7_end"@[18] == 'l');
    names::lemma_holding(catalogue::definition_at(10567), s);
    lemma_kept(values, s, 10567);
    reveal_strlit("ge_hr_smart_load_slot_8_start");
    assert("ge_hr_smart_load_slot_8_start"@.len() == 29);
    assert("ge_hr_smart_load_slot_8_start"@[0] == 'g');
    assert("ge_hr_smart_load_slot_8_start"@[3] == 'h');
    assert("ge_hr_smart_load_slot_8_start"@[4] == 'r');
    assert("ge_hr_smart_load_slot_8_start"@[18] == 'l');
    names::lemma_holding(catalogue::definition_at(10568), s);
    lemma_kept(values, s, 10568);
    reveal_strlit("ge_hr_smart_load_slot_8_end");
    assert("ge_hr_smart_load_slot_8_end"@.len() == 27);
    assert("ge_hr_smart_load_slot_8_end"@[0] == 'g');
    assert("ge_hr_smart_load_slot_8_end"@[3] == 'h');
    assert("ge_hr_smart_load_slot_8_end"@[4] == 'r');
    assert("ge_hr_smart_load_slot_8_end"@[18] == 'l');
    names::lemma_holding(catalogue::definition_at(10569), s);
    lemma_kept(values, s, 10569);
    reveal_strlit("ge_hr_smart_load_slot_9_start");
    assert("ge_hr_smart_load_slot_9_start"@.len() == 29);
    assert("ge_hr_smart_load_slot_9_start"@[0] == 'g');
    assert("ge_hr_smart_load_slot_9_start"@[3] == 'h');
    assert("ge_hr_smart_load_slot_9_start"@[4] == 'r');
    assert("ge_hr_smart_load_slot_9_start"@[18] == 'l');
    names::lemma_holding(catalogue::definition_at(10570), s);
    lemma_kept(values, s, 10570);
    reveal_strlit("ge_hr_smart_load_slot_9_end");
    assert("ge_hr_smart_load_slot_9_end"@.len() == 27);
    assert("ge_hr_smart_load_slot_9_end"@[0] == 'g');
    assert("ge_hr_smart_load_slot_9_end"@[3] == 'h');
    assert("ge_hr_smart_load_slot_9_end"@[4] == 'r');
    assert("ge_hr_smart_load_slot_9_end"@[18] == 'l');
    names::lemma_holding(catalogue::definition_at(10571), s);
    lemma_kept(values, s, 10571);
    reveal_strlit("ge_hr_smart_load_slot_10_start");
    assert("ge_hr_smart_load_slot_10_start"@.len() == 30);
    assert("ge_hr_smart_load_slot_10_start"@[0] == 'g');
    assert("ge_hr_smart_load_slot_10_start"@[3] == 'h');
    assert("ge_hr_smart_load_slot_10_start"@[4] == 'r');
    assert("ge_hr_smart_load_slot_10_start"@[18] == 'l');
    assert("ge_hr_smart_load_slot_10_start"@[21] == '_');
    names::lemma_holding(catalogue::definition_at(10572), s);
    lemma_kept(values, s, 10572);
    reveal_strlit("ge_hr_smart_load_slot_10_end");
    assert("ge_hr_smart_load_slot_10_end"@.len() == 28);
    assert("ge_hr_smart_load_slot_10_end"@[0] == 'g');
    assert("ge_hr_smart_load_slot_10_end"@[3] == 'h');
    assert("ge_hr_smart_load_slot_10_end"@[4] == 'r');
    assert("ge_hr_smart_load_slot_10_end"@[18] == 'l');
    names::lemma_holding(catalogue::definition_at(10573), s);
    lemma_kept(values, s, 10573);
}

/// Law: without a gateway, IR 1600-1657 show nothing of the plant.
#[verifier::spinoff_prover]
#[verifier::rlimit(60)]
pub proof fn law_ir_1600_to_1657_stay(values: Map<u32, u16>, s: PlantState)
    requires
        !plain::gateway(s.config.inverter_type@),
    ensures
        words::input(values, s, 1600) == values.get(1600),
        words::input(values, s, 1601) == values.get(1601),
        words::input(values, s, 1602) == values.get(1602),
        words::input(values, s, 1603) == values.get(1603),
        words::input(values, s, 1604) == values.get(1604),
        words::input(values, s, 1608) == values.get(1608),
        words::input(values, s, 1609) == values.get(1609),
        words::input(values, s, 1610) == values.get(1610),
        words::input(values, s, 1611) == values.get(1611),
        words::input(values, s, 1612) == values.get(1612),
        words::input(values, s, 1616) == values.get(1616),
        words::input(values, s, 1617) == values.get(1617),
        words::input(values, s, 1618) == values.get(1618),
        words::input(values, s, 1619) == values.get(1619),
        words::input(values, s, 1620) == values.get(1620),
        words::input(values, s, 1621) == values.get(1621),
        words::input(values, s, 1622) == values.get(1622),
        words::input(values, s, 1623) == values.get(1623),
        words::input(values, s, 1624) == values.get(1624),
        words::input(values, s, 1625) == values.get(1625),
        words::input(values, s, 1627) == values.get(1627),
        words::input(values, s, 1628) == values.get(1628),
        words::input(values, s, 1629) == values.get(1629),
        words::input(values, s, 1630) == values.get(1630),
        words::input(values, s, 1631) == values.get(1631),
        words::input(values, s, 1640) == values.get(1640),
        words::input(values, s, 1641) == values.get(1641),
        words::input(values, s, 1642) == values.get(1642),
        words::input(values, s, 1643) == values.get(1643),
        words::input(values, s, 1644) == values.get(1644),
        words::input(values, s, 1645) == values.get(1645),
        words::input(values, s, 1646) == values.get(1646),
        words::input(values, s, 1647) == values.get(1647),
        words::input(values, s, 1648) == values.get(1648),
        words::input(values, s, 1649) == values.get(1649),
        words::input(values, s, 1650) == values.get(1650),
        words::input(values, s, 1651) == values.get(1651),
        words::input(values, s, 1652) == values.get(1652),
        words::input(values, s, 1653) == values.get(1653),
        words::input(values, s, 1654) == values.get(1654),
        words::input(values, s, 1655) == values.get(1655),
        words::input(values, s, 1656) == values.get(1656),
        words::input(values, s, 1657) == values.get(1657),
{
    definitions::lemma_gateway_system();
    reveal_strlit("gw_sw_version_0");
    assert("gw_sw_version_0"@[0] == 'g' && "gw_sw_version_0"@[1] == 'w');
    lemma_gateway_name(catalogue::definition_at(1600), s);
    lemma_kept(values, s, 1600);
    reveal_strlit("gw_sw_version_1");
    assert("gw_sw_version_1"@[0] == 'g' && "gw_sw_version_1"@[1] == 'w');
    lemma_gateway_name(catalogue::definition_at(1601), s);
    lemma_kept(values, s, 1601);
    reveal_strlit("gw_sw_version_2");
    assert("gw_sw_version_2"@[0] == 'g' && "gw_sw_version_2"@[1] == 'w');
    lemma_gateway_name(catalogue::definition_at(1602), s);
    lemma_kept(values, s, 1602);
    reveal_strlit("gw_sw_version_3");
    assert("gw_sw_version_3"@[0] == 'g' && "gw_sw_version_3"@[1] == 'w');
    lemma_gateway_name(catalogue::definition_at(1603), s);
    lemma_kept(values, s, 1603);
    reveal_strlit("gw_work_mode");
    assert("gw_work_mode"@[0] == 'g' && "gw_work_mode"@[1] == 'w');
    lemma_gateway_name(catalogue::definition_at(1604), s);
    lemma_kept(values, s, 1604);
    reveal_strlit("gw_v_grid");
    assert("gw_v_grid"@[0] == 'g' && "gw_v_grid"@[1] == 'w');
    lemma_gateway_name(catalogue::definition_at(1608), s);
    lemma_kept(values, s, 1608);
    reveal_strlit("gw_i_grid");
    assert("gw_i_grid"@[0] == 'g' && "gw_i_grid"@[1] == 'w');
    lemma_gateway_name(catalogue::definition_at(1609), s);
    lemma_kept(values, s, 1609);
    reveal_strlit("gw_v_load");
    assert("gw_v_load"@[0] == 'g' && "gw_v_load"@[1] == 'w');
    lemma_gateway_name(catalogue::definition_at(1610), s);
    lemma_kept(values, s, 1610);
    reveal_strlit("gw_i_load");
    assert("gw_i_load"@[0] == 'g' && "gw_i_load"@[1] == 'w');
    lemma_gateway_name(catalogue::definition_at(1611), s);
    lemma_kept(values, s, 1611);
    reveal_strlit("gw_i_pv");
    assert("gw_i_pv"@[0] == 'g' && "gw_i_pv"@[1] == 'w');
    lemma_gateway_name(catalogue::definition_at(1612), s);
    lemma_kept(values, s, 1612);
    reveal_strlit("gw_p_ac1");
    assert("gw_p_ac1"@[0] == 'g' && "gw_p_ac1"@[1] == 'w');
    lemma_gateway_name(catalogue::definition_at(1616), s);
    lemma_kept(values, s, 1616);
    reveal_strlit("gw_p_pv");
    assert("gw_p_pv"@[0] == 'g' && "gw_p_pv"@[1] == 'w');
    lemma_gateway_name(catalogue::definition_at(1617), s);
    lemma_kept(values, s, 1617);
    reveal_strlit("gw_p_load");
    assert("gw_p_load"@[0] == 'g' && "gw_p_load"@[1] == 'w');
    lemma_gateway_name(catalogue::definition_at(1618), s);
    lemma_kept(values, s, 1618);
    reveal_strlit("gw_p_liberty");
    assert("gw_p_liberty"@[0] == 'g' && "gw_p_liberty"@[1] == 'w');
    lemma_gateway_name(catalogue::definition_at(1619), s);
    lemma_kept(values, s, 1619);
    reveal_strlit("gw_fault_protection_hi");
    assert("gw_fault_protection_hi"@[0] == 'g' && "gw_fault_protection_hi"@[1] == 'w');
    lemma_gateway_name(catalogue::definition_at(1620), s);
    lemma_kept(values, s, 1620);
    reveal_strlit("gw_fault_protection_lo");
    assert("gw_fault_protection_lo"@[0] == 'g' && "gw_fault_protection_lo"@[1] == 'w');
    lemma_gateway_name(catalogue::definition_at(1621), s);
    lemma_kept(values, s, 1621);
    reveal_strlit("gw_fault_codes_hi");
    assert("gw_fault_codes_hi"@[0] == 'g' && "gw_fault_codes_hi"@[1] == 'w');
    lemma_gateway_name(catalogue::definition_at(1622), s);
    lemma_kept(values, s, 1622);
    reveal_strlit("gw_fault_codes_lo");
    assert("gw_fault_codes_lo"@[0] == 'g' && "gw_fault_codes_lo"@[1] == 'w');
    lemma_gateway_name(catalogue::definition_at(1623), s);
    lemma_kept(values, s, 1623);
    reveal_strlit("gw_v_grid_relay");
    assert("gw_v_grid_relay"@[0] == 'g' && "gw_v_grid_relay"@[1] == 'w');
    lemma_gateway_name(catalogue::definition_at(1624), s);
    lemma_kept(values, s, 1624);
    reveal_strlit("gw_v_inverter_relay");
    assert("gw_v_inverter_relay"@[0] == 'g' && "gw_v_inverter_relay"@[1] == 'w');
    lemma_gateway_name(catalogue::definition_at(1625), s);
    lemma_kept(values, s, 1625);
    reveal_strlit("gw_first_inv_serial_0");
    assert("gw_first_inv_serial_0"@[0] == 'g' && "gw_first_inv_serial_0"@[1] == 'w');
    lemma_gateway_name(catalogue::definition_at(1627), s);
    lemma_kept(values, s, 1627);
    reveal_strlit("gw_first_inv_serial_1");
    assert("gw_first_inv_serial_1"@[0] == 'g' && "gw_first_inv_serial_1"@[1] == 'w');
    lemma_gateway_name(catalogue::definition_at(1628), s);
    lemma_kept(values, s, 1628);
    reveal_strlit("gw_first_inv_serial_2");
    assert("gw_first_inv_serial_2"@[0] == 'g' && "gw_first_inv_serial_2"@[1] == 'w');
    lemma_gateway_name(catalogue::definition_at(1629), s);
    lemma_kept(values, s, 1629);
    reveal_strlit("gw_first_inv_serial_3");
    assert("gw_first_inv_serial_3"@[0] == 'g' && "gw_first_inv_serial_3"@[1] == 'w');
    lemma_gateway_name(catalogue::definition_at(1630), s);
    lemma_kept(values, s, 1630);
    reveal_strlit("gw_first_inv_serial_4");
    assert("gw_first_inv_serial_4"@[0] == 'g' && "gw_first_inv_serial_4"@[1] == 'w');
    lemma_gateway_name(catalogue::definition_at(1631), s);
    lemma_kept(values, s, 1631);
    reveal_strlit("gw_e_grid_import_today");
    assert("gw_e_grid_import_today"@[0] == 'g' && "gw_e_grid_import_today"@[1] == 'w');
    lemma_gateway_name(catalogue::definition_at(1640), s);
    lemma_kept(values, s, 1640);
    reveal_strlit("gw_e_grid_import_total_hi");
    assert("gw_e_grid_import_total_hi"@[0] == 'g' && "gw_e_grid_import_total_hi"@[1] == 'w');
    lemma_gateway_name(catalogue::definition_at(1641), s);
    lemma_kept(values, s, 1641);
    reveal_strlit("gw_e_grid_import_total_lo");
    assert("gw_e_grid_import_total_lo"@[0] == 'g' && "gw_e_grid_import_total_lo"@[1] == 'w');
    lemma_gateway_name(catalogue::definition_at(1642), s);
    lemma_kept(values, s, 1642);
    reveal_strlit("gw_e_pv_today");
    assert("gw_e_pv_today"@[0] == 'g' && "gw_e_pv_today"@[1] == 'w');
    lemma_gateway_name(catalogue::definition_at(1643), s);
    lemma_kept(values, s, 1643);
    reveal_strlit("gw_e_pv_total_hi");
    assert("gw_e_pv_total_hi"@[0] == 'g' && "gw_e_pv_total_hi"@[1] == 'w');
    lemma_gateway_name(catalogue::definition_at(1644), s);
    lemma_kept(values, s, 1644);
    reveal_strlit("gw_e_pv_total_lo");
    assert("gw_e_pv_total_lo"@[0] == 'g' && "gw_e_pv_total_lo"@[1] == 'w');
    lemma_gateway_name(catalogue::definition_at(1645), s);
    lemma_kept(values, s, 1645);
    reveal_strlit("gw_e_grid_export_today");
    assert("gw_e_grid_export_today"@[0] == 'g' && "gw_e_grid_export_today"@[1] == 'w');
    lemma_gateway_name(catalogue::definition_at(1646), s);
    lemma_kept(values, s, 1646);
    reveal_strlit("gw_e_grid_export_total_hi");
    assert("gw_e_grid_export_total_hi"@[0] == 'g' && "gw_e_grid_export_total_hi"@[1] == 'w');
    lemma_gateway_name(catalogue::definition_at(1647), s);
    lemma_kept(values, s, 1647);
    reveal_strlit("gw_e_grid_export_total_lo");
    assert("gw_e_grid_export_total_lo"@[0] == 'g' && "gw_e_grid_export_total_lo"@[1] == 'w');
    lemma_gateway_name(catalogue::definition_at(1648), s);
    lemma_kept(values, s, 1648);
    reveal_strlit("gw_e_aio_charge_today");
    assert("gw_e_aio_charge_today"@[0] == 'g' && "gw_e_aio_charge_today"@[1] == 'w');
    lemma_gateway_name(catalogue::definition_at(1649), s);
    lemma_kept(values, s, 1649);
    reveal_strlit("gw_e_aio_charge_total_hi");
    assert("gw_e_aio_charge_total_hi"@[0] == 'g' && "gw_e_aio_charge_total_hi"@[1] == 'w');
    lemma_gateway_name(catalogue::definition_at(1650), s);
    lemma_kept(values, s, 1650);
    reveal_strlit("gw_e_aio_charge_total_lo");
    assert("gw_e_aio_charge_total_lo"@[0] == 'g' && "gw_e_aio_charge_total_lo"@[1] == 'w');
    lemma_gateway_name(catalogue::definition_at(1651), s);
    lemma_kept(values, s, 1651);
    reveal_strlit("gw_e_aio_discharge_today");
    assert("gw_e_aio_discharge_today"@[0] == 'g' && "gw_e_aio_discharge_today"@[1] == 'w');
    lemma_gateway_name(catalogue::definition_at(1652), s);
    lemma_kept(values, s, 1652);
    reveal_strlit("gw_e_aio_discharge_total_hi");
    assert("gw_e_aio_discharge_total_hi"@[0] == 'g' && "gw_e_aio_discharge_total_hi"@[1] == 'w');
    lemma_gateway_name(catalogue::definition_at(1653), s);
    lemma_kept(values, s, 1653);
    reveal_strlit("gw_e_aio_discharge_total_lo");
    assert("gw_e_aio_discharge_total_lo"@[0] == 'g' && "gw_e_aio_discharge_total_lo"@[1] == 'w');
    lemma_gateway_name(catalogue::definition_at(1654), s);
    lemma_kept(values, s, 1654);
    reveal_strlit("gw_e_load_today");
    assert("gw_e_load_today"@[0] == 'g' && "gw_e_load_today"@[1] == 'w');
    lemma_gateway_name(catalogue::definition_at(1655), s);
    lemma_kept(values, s, 1655);
    reveal_strlit("gw_e_load_total_hi");
    assert("gw_e_load_total_hi"@[0] == 'g' && "gw_e_load_total_hi"@[1] == 'w');
    lemma_gateway_name(catalogue::definition_at(1656), s);
    lemma_kept(values, s, 1656);
    reveal_strlit("gw_e_load_total_lo");
    assert("gw_e_load_total_lo"@[0] == 'g' && "gw_e_load_total_lo"@[1] == 'w');
    lemma_gateway_name(catalogue::definition_at(1657), s);
    lemma_kept(values, s, 1657);
}

/// Law: without a gateway, IR 1700-1818 show nothing of the plant.
#[verifier::spinoff_prover]
#[verifier::rlimit(60)]
pub proof fn law_ir_1700_to_1818_stay(values: Map<u32, u16>, s: PlantState)
    requires
        !plain::gateway(s.config.inverter_type@),
    ensures
        words::input(values, s, 1700) == values.get(1700),
        words::input(values, s, 1701) == values.get(1701),
        words::input(values, s, 1702) == values.get(1702),
        words::input(values, s, 1703) == values.get(1703),
        words::input(values, s, 1704) == values.get(1704),
        words::input(values, s, 1705) == values.get(1705),
        words::input(values, s, 1706) == values.get(1706),
        words::input(values, s, 1707) == values.get(1707),
        words::input(values, s, 1708) == values.get(1708),
        words::input(values, s, 1709) == values.get(1709),
        words::input(values, s, 1710) == values.get(1710),
        words::input(values, s, 1711) == values.get(1711),
        words::input(values, s, 1712) == values.get(1712),
        words::input(values, s, 1713) == values.get(1713),
        words::input(values, s, 1750) == values.get(1750),
        words::input(values, s, 1751) == values.get(1751),
        words::input(values, s, 1752) == values.get(1752),
        words::input(values, s, 1753) == values.get(1753),
        words::input(values, s, 1754) == values.get(1754),
        words::input(values, s, 1755) == values.get(1755),
        words::input(values, s, 1756) == values.get(1756),
        words::input(values, s, 1757) == values.get(1757),
        words::input(values, s, 1758) == values.get(1758),
        words::input(values, s, 1795) == values.get(1795),
        words::input(values, s, 1796) == values.get(1796),
        words::input(values, s, 1797) == values.get(1797),
        words::input(values, s, 1798) == values.get(1798),
        words::input(values, s, 1799) == values.get(1799),
        words::input(values, s, 1800) == values.get(1800),
        words::input(values, s, 1801) == values.get(1801),
        words::input(values, s, 1802) == values.get(1802),
        words::input(values, s, 1803) == values.get(1803),
        words::input(values, s, 1816) == values.get(1816),
        words::input(values, s, 1817) == values.get(1817),
        words::input(values, s, 1818) == values.get(1818),
{
    definitions::lemma_gateway_units();
    reveal_strlit("gw_parallel_aio_num");
    assert("gw_parallel_aio_num"@[0] == 'g' && "gw_parallel_aio_num"@[1] == 'w');
    lemma_gateway_name(catalogue::definition_at(1700), s);
    lemma_kept(values, s, 1700);
    reveal_strlit("gw_parallel_aio_online_num");
    assert("gw_parallel_aio_online_num"@[0] == 'g' && "gw_parallel_aio_online_num"@[1] == 'w');
    lemma_gateway_name(catalogue::definition_at(1701), s);
    lemma_kept(values, s, 1701);
    reveal_strlit("gw_p_aio_total");
    assert("gw_p_aio_total"@[0] == 'g' && "gw_p_aio_total"@[1] == 'w');
    lemma_gateway_name(catalogue::definition_at(1702), s);
    lemma_kept(values, s, 1702);
    reveal_strlit("gw_aio_state");
    assert("gw_aio_state"@[0] == 'g' && "gw_aio_state"@[1] == 'w');
    lemma_gateway_name(catalogue::definition_at(1703), s);
    lemma_kept(values, s, 1703);
    reveal_strlit("gw_battery_firmware");
    assert("gw_battery_firmware"@[0] == 'g' && "gw_battery_firmware"@[1] == 'w');
    lemma_gateway_name(catalogue::definition_at(1704), s);
    lemma_kept(values, s, 1704);
    reveal_strlit("gw_e_aio1_charge_today");
    assert("gw_e_aio1_charge_today"@[0] == 'g' && "gw_e_aio1_charge_today"@[1] == 'w');
    lemma_gateway_name(catalogue::definition_at(1705), s);
    lemma_kept(values, s, 1705);
    reveal_strlit("gw_e_aio1_charge_total_hi");
    assert("gw_e_aio1_charge_total_hi"@[0] == 'g' && "gw_e_aio1_charge_total_hi"@[1] == 'w');
    lemma_gateway_name(catalogue::definition_at(1706), s);
    lemma_kept(values, s, 1706);
    reveal_strlit("gw_e_aio1_charge_total_lo");
    assert("gw_e_aio1_charge_total_lo"@[0] == 'g' && "gw_e_aio1_charge_total_lo"@[1] == 'w');
    lemma_gateway_name(catalogue::definition_at(1707), s);
    lemma_kept(values, s, 1707);
    reveal_strlit("gw_e_aio2_charge_today");
    assert("gw_e_aio2_charge_today"@[0] == 'g' && "gw_e_aio2_charge_today"@[1] == 'w');
    lemma_gateway_name(catalogue::definition_at(1708), s);
    lemma_kept(values, s, 1708);
    reveal_strlit("gw_e_aio2_charge_total_hi");
    assert("gw_e_aio2_charge_total_hi"@[0] == 'g' && "gw_e_aio2_charge_total_hi"@[1] == 'w');
    lemma_gateway_name(catalogue::definition_at(1709), s);
    lemma_kept(values, s, 1709);
    reveal_strlit("gw_e_aio2_charge_total_lo");
    assert("gw_e_aio2_charge_total_lo"@[0] == 'g' && "gw_e_aio2_charge_total_lo"@[1] == 'w');
    lemma_gateway_name(catalogue::definition_at(1710), s);
    lemma_kept(values, s, 1710);
    reveal_strlit("gw_e_aio3_charge_today");
    assert("gw_e_aio3_charge_today"@[0] == 'g' && "gw_e_aio3_charge_today"@[1] == 'w');
    lemma_gateway_name(catalogue::definition_at(1711), s);
    lemma_kept(values, s, 1711);
    reveal_strlit("gw_e_aio3_charge_total_hi");
    assert("gw_e_aio3_charge_total_hi"@[0] == 'g' && "gw_e_aio3_charge_total_hi"@[1] == 'w');
    lemma_gateway_name(catalogue::definition_at(1712), s);
    lemma_kept(values, s, 1712);
    reveal_strlit("gw_e_aio3_charge_total_lo");
    assert("gw_e_aio3_charge_total_lo"@[0] == 'g' && "gw_e_aio3_charge_total_lo"@[1] == 'w');
    lemma_gateway_name(catalogue::definition_at(1713), s);
    lemma_kept(values, s, 1713);
    reveal_strlit("gw_e_aio1_discharge_today");
    assert("gw_e_aio1_discharge_today"@[0] == 'g' && "gw_e_aio1_discharge_today"@[1] == 'w');
    lemma_gateway_name(catalogue::definition_at(1750), s);
    lemma_kept(values, s, 1750);
    reveal_strlit("gw_e_aio1_discharge_total_hi");
    assert("gw_e_aio1_discharge_total_hi"@[0] == 'g' && "gw_e_aio1_discharge_total_hi"@[1] == 'w');
    lemma_gateway_name(catalogue::definition_at(1751), s);
    lemma_kept(values, s, 1751);
    reveal_strlit("gw_e_aio1_discharge_total_lo");
    assert("gw_e_aio1_discharge_total_lo"@[0] == 'g' && "gw_e_aio1_discharge_total_lo"@[1] == 'w');
    lemma_gateway_name(catalogue::definition_at(1752), s);
    lemma_kept(values, s, 1752);
    reveal_strlit("gw_e_aio2_discharge_today");
    assert("gw_e_aio2_discharge_today"@[0] == 'g' && "gw_e_aio2_discharge_today"@[1] == 'w');
    lemma_gateway_name(catalogue::definition_at(1753), s);
    lemma_kept(values, s, 1753);
    reveal_strlit("gw_e_aio2_discharge_total_hi");
    assert("gw_e_aio2_discharge_total_hi"@[0] == 'g' && "gw_e_aio2_discharge_total_hi"@[1] == 'w');
    lemma_gateway_name(catalogue::definition_at(1754), s);
    lemma_kept(values, s, 1754);
    reveal_strlit("gw_e_aio2_discharge_total_lo");
    assert("gw_e_aio2_discharge_total_lo"@[0] == 'g' && "gw_e_aio2_discharge_total_lo"@[1] == 'w');
    lemma_gateway_name(catalogue::definition_at(1755), s);
    lemma_kept(values, s, 1755);
    reveal_strlit("gw_e_aio3_discharge_today");
    assert("gw_e_aio3_discharge_today"@[0] == 'g' && "gw_e_aio3_discharge_today"@[1] == 'w');
    lemma_gateway_name(catalogue::definition_at(1756), s);
    lemma_kept(values, s, 1756);
    reveal_strlit("gw_e_aio3_discharge_total_hi");
    assert("gw_e_aio3_discharge_total_hi"@[0] == 'g' && "gw_e_aio3_discharge_total_hi"@[1] == 'w');
    lemma_gateway_name(catalogue::definition_at(1757), s);
    lemma_kept(values, s, 1757);
    reveal_strlit("gw_e_aio3_discharge_total_lo");
    assert("gw_e_aio3_discharge_total_lo"@[0] == 'g' && "gw_e_aio3_discharge_total_lo"@[1] == 'w');
    lemma_gateway_name(catalogue::definition_at(1758), s);
    lemma_kept(values, s, 1758);
    reveal_strlit("gw_e_battery_charge_today");
    assert("gw_e_battery_charge_today"@[0] == 'g' && "gw_e_battery_charge_today"@[1] == 'w');
    lemma_gateway_name(catalogue::definition_at(1795), s);
    lemma_kept(values, s, 1795);
    reveal_strlit("gw_e_battery_charge_total_hi");
    assert("gw_e_battery_charge_total_hi"@[0] == 'g' && "gw_e_battery_charge_total_hi"@[1] == 'w');
    lemma_gateway_name(catalogue::definition_at(1796), s);
    lemma_kept(values, s, 1796);
    reveal_strlit("gw_e_battery_charge_total_lo");
    assert("gw_e_battery_charge_total_lo"@[0] == 'g' && "gw_e_battery_charge_total_lo"@[1] == 'w');
    lemma_gateway_name(catalogue::definition_at(1797), s);
    lemma_kept(values, s, 1797);
    reveal_strlit("gw_e_battery_discharge_today");
    assert("gw_e_battery_discharge_today"@[0] == 'g' && "gw_e_battery_discharge_today"@[1] == 'w');
    lemma_gateway_name(catalogue::definition_at(1798), s);
    lemma_kept(values, s, 1798);
    reveal_strlit("gw_e_battery_discharge_total_hi");
    assert("gw_e_battery_discharge_total_hi"@[0] == 'g' && "gw_e_battery_discharge_total_hi"@[1] == 'w');
    lemma_gateway_name(catalogue::definition_at(1799), s);
    lemma_kept(values, s, 1799);
    reveal_strlit("gw_e_battery_discharge_total_lo");
    assert("gw_e_battery_discharge_total_lo"@[0] == 'g' && "gw_e_battery_discharge_total_lo"@[1] == 'w');
    lemma_gateway_name(catalogue::definition_at(1800), s);
    lemma_kept(values, s, 1800);
    reveal_strlit("gw_aio1_soc");
    assert("gw_aio1_soc"@[0] == 'g' && "gw_aio1_soc"@[1] == 'w');
    lemma_gateway_name(catalogue::definition_at(1801), s);
    lemma_kept(values, s, 1801);
    reveal_strlit("gw_aio2_soc");
    assert("gw_aio2_soc"@[0] == 'g' && "gw_aio2_soc"@[1] == 'w');
    lemma_gateway_name(catalogue::definition_at(1802), s);
    lemma_kept(values, s, 1802);
    reveal_strlit("gw_aio3_soc");
    assert("gw_aio3_soc"@[0] == 'g' && "gw_aio3_soc"@[1] == 'w');
    lemma_gateway_name(catalogue::definition_at(1803), s);
    lemma_kept(values, s, 1803);
    reveal_strlit("gw_p_aio1_inverter");
    assert("gw_p_aio1_inverter"@[0] == 'g' && "gw_p_aio1_inverter"@[1] == 'w');
    lemma_gateway_name(catalogue::definition_at(1816), s);
    lemma_kept(values, s, 1816);
    reveal_strlit("gw_p_aio2_inverter");
    assert("gw_p_aio2_inverter"@[0] == 'g' && "gw_p_aio2_inverter"@[1] == 'w');
    lemma_gateway_name(catalogue::definition_at(1817), s);
    lemma_kept(values, s, 1817);
    reveal_strlit("gw_p_aio3_inverter");
    assert("gw_p_aio3_inverter"@[0] == 'g' && "gw_p_aio3_inverter"@[1] == 'w');
    lemma_gateway_name(catalogue::definition_at(1818), s);
    lemma_kept(values, s, 1818);
}

/// Law: without a gateway, IR 1831-1859 show nothing of the plant.
#[verifier::spinoff_prover]
#[verifier::rlimit(60)]
pub proof fn law_ir_1831_to_1859_stay(values: Map<u32, u16>, s: PlantState)
    requires
        !plain::gateway(s.config.inverter_type@),
    ensures
        words::input(values, s, 1831) == values.get(1831),
        words::input(values, s, 1832) == values.get(1832),
        words::input(values, s, 1833) == values.get(1833),
        words::input(values, s, 1834) == values.get(1834),
        words::input(values, s, 1835) == values.get(1835),
        words::input(values, s, 1836) == values.get(1836),
        words::input(values, s, 1837) == values.get(1837),
        words::input(values, s, 1838) == values.get(1838),
        words::input(values, s, 1839) == values.get(1839),
        words::input(values, s, 1840) == values.get(1840),
        words::input(values, s, 1841) == values.get(1841),
        words::input(values, s, 1842) == values.get(1842),
        words::input(values, s, 1843) == values.get(1843),
        words::input(values, s, 1844) == values.get(1844),
        words::input(values, s, 1845) == values.get(1845),
        words::input(values, s, 1846) == values.get(1846),
        words::input(values, s, 1847) == values.get(1847),
        words::input(values, s, 1848) == values.get(1848),
        words::input(values, s, 1849) == values.get(1849),
        words::input(values, s, 1850) == values.get(1850),
        words::input(values, s, 1851) == values.get(1851),
        words::input(values, s, 1852) == values.get(1852),
        words::input(values, s, 1853) == values.get(1853),
        words::input(values, s, 1854) == values.get(1854),
        words::input(values, s, 1855) == values.get(1855),
        words::input(values, s, 1856) == values.get(1856),
        words::input(values, s, 1857) == values.get(1857),
        words::input(values, s, 1858) == values.get(1858),
        words::input(values, s, 1859) == values.get(1859),
{
    definitions::lemma_gateway_serials();
    reveal_strlit("gw_serial_1831");
    assert("gw_serial_1831"@[0] == 'g' && "gw_serial_1831"@[1] == 'w');
    lemma_gateway_name(catalogue::definition_at(1831), s);
    lemma_kept(values, s, 1831);
    reveal_strlit("gw_serial_1832");
    assert("gw_serial_1832"@[0] == 'g' && "gw_serial_1832"@[1] == 'w');
    lemma_gateway_name(catalogue::definition_at(1832), s);
    lemma_kept(values, s, 1832);
    reveal_strlit("gw_serial_1833");
    assert("gw_serial_1833"@[0] == 'g' && "gw_serial_1833"@[1] == 'w');
    lemma_gateway_name(catalogue::definition_at(1833), s);
    lemma_kept(values, s, 1833);
    reveal_strlit("gw_serial_1834");
    assert("gw_serial_1834"@[0] == 'g' && "gw_serial_1834"@[1] == 'w');
    lemma_gateway_name(catalogue::definition_at(1834), s);
    lemma_kept(values, s, 1834);
    reveal_strlit("gw_serial_1835");
    assert("gw_serial_1835"@[0] == 'g' && "gw_serial_1835"@[1] == 'w');
    lemma_gateway_name(catalogue::definition_at(1835), s);
    lemma_kept(values, s, 1835);
    reveal_strlit("gw_serial_1836");
    assert("gw_serial_1836"@[0] == 'g' && "gw_serial_1836"@[1] == 'w');
    lemma_gateway_name(catalogue::definition_at(1836), s);
    lemma_kept(values, s, 1836);
    reveal_strlit("gw_serial_1837");
    assert("gw_serial_1837"@[0] == 'g' && "gw_serial_1837"@[1] == 'w');
    lemma_gateway_name(catalogue::definition_at(1837), s);
    lemma_kept(values, s, 1837);
    reveal_strlit("gw_serial_1838");
    assert("gw_serial_1838"@[0] == 'g' && "gw_serial_1838"@[1] == 'w');
    lemma_gateway_name(catalogue::definition_at(1838), s);
    lemma_kept(values, s, 1838);
    reveal_strlit("gw_serial_1839");
    assert("gw_serial_1839"@[0] == 'g' && "gw_serial_1839"@[1] == 'w');
    lemma_gateway_name(catalogue::definition_at(1839), s);
    lemma_kept(values, s, 1839);
    reveal_strlit("gw_serial_1840");
    assert("gw_serial_1840"@[0] == 'g' && "gw_serial_1840"@[1] == 'w');
    lemma_gateway_name(catalogue::definition_at(1840), s);
    lemma_kept(values, s, 1840);
    reveal_strlit("gw_serial_1841");
    assert("gw_serial_1841"@[0] == 'g' && "gw_serial_1841"@[1] == 'w');
    lemma_gateway_name(catalogue::definition_at(1841), s);
    lemma_kept(values, s, 1841);
    reveal_strlit("gw_serial_1842");
    assert("gw_serial_1842"@[0] == 'g' && "gw_serial_1842"@[1] == 'w');
    lemma_gateway_name(catalogue::definition_at(1842), s);
    lemma_kept(values, s, 1842);
    reveal_strlit("gw_serial_1843");
    assert("gw_serial_1843"@[0] == 'g' && "gw_serial_1843"@[1] == 'w');
    lemma_gateway_name(catalogue::definition_at(1843), s);
    lemma_kept(values, s, 1843);
    reveal_strlit("gw_serial_1844");
    assert("gw_serial_1844"@[0] == 'g' && "gw_serial_1844"@[1] == 'w');
    lemma_gateway_name(catalogue::definition_at(1844), s);
    lemma_kept(values, s, 1844);
    reveal_strlit("gw_serial_1845");
    assert("gw_serial_1845"@[0] == 'g' && "gw_serial_1845"@[1] == 'w');
    lemma_gateway_name(catalogue::definition_at(1845), s);
    lemma_kept(values, s, 1845);
    reveal_strlit("gw_serial_1846");
    assert("gw_serial_1846"@[0] == 'g' && "gw_serial_1846"@[1] == 'w');
    lemma_gateway_name(catalogue::definition_at(1846), s);
    lemma_kept(values, s, 1846);
    reveal_strlit("gw_serial_1847");
    assert("gw_serial_1847"@[0] == 'g' && "gw_serial_1847"@[1] == 'w');
    lemma_gateway_name(catalogue::definition_at(1847), s);
    lemma_kept(values, s, 1847);
    reveal_strlit("gw_serial_1848");
    assert("gw_serial_1848"@[0] == 'g' && "gw_serial_1848"@[1] == 'w');
    lemma_gateway_name(catalogue::definition_at(1848), s);
    lemma_kept(values, s, 1848);
    reveal_strlit("gw_serial_1849");
    assert("gw_serial_1849"@[0] == 'g' && "gw_serial_1849"@[1] == 'w');
    lemma_gateway_name(catalogue::definition_at(1849), s);
    lemma_kept(values, s, 1849);
    reveal_strlit("gw_serial_1850");
    assert("gw_serial_1850"@[0] == 'g' && "gw_serial_1850"@[1] == 'w');
    lemma_gateway_name(catalogue::definition_at(1850), s);
    lemma_kept(values, s, 1850);
    reveal_strlit("gw_serial_1851");
    assert("gw_serial_1851"@[0] == 'g' && "gw_serial_1851"@[1] == 'w');
    lemma_gateway_name(catalogue::definition_at(1851), s);
    lemma_kept(values, s, 1851);
    reveal_strlit("gw_serial_1852");
    assert("gw_serial_1852"@[0] == 'g' && "gw_serial_1852"@[1] == 'w');
    lemma_gateway_name(catalogue::definition_at(1852), s);
    lemma_kept(values, s, 1852);
    reveal_strlit("gw_serial_1853");
    assert("gw_serial_1853"@[0] == 'g' && "gw_serial_1853"@[1] == 'w');
    lemma_gateway_name(catalogue::definition_at(1853), s);
    lemma_kept(values, s, 1853);
    reveal_strlit("gw_serial_1854");
    assert("gw_serial_1854"@[0] == 'g' && "gw_serial_1854"@[1] == 'w');
    lemma_gateway_name(catalogue::definition_at(1854), s);
    lemma_kept(values, s, 1854);
    reveal_strlit("gw_serial_1855");
    assert("gw_serial_1855"@[0] == 'g' && "gw_serial_1855"@[1] == 'w');
    lemma_gateway_name(catalogue::definition_at(1855), s);
    lemma_kept(values, s, 1855);
    reveal_strlit("gw_serial_1856");
    assert("gw_serial_1856"@[0] == 'g' && "gw_serial_1856"@[1] == 'w');
    lemma_gateway_name(catalogue::definition_at(1856), s);
    lemma_kept(values, s, 1856);
    reveal_strlit("gw_serial_1857");
    assert("gw_serial_1857"@[0] == 'g' && "gw_serial_1857"@[1] == 'w');
    lemma_gateway_name(catalogue::definition_at(1857), s);
    lemma_kept(values, s, 1857);
    reveal_strlit("gw_serial_1858");
    assert("gw_serial_1858"@[0] == 'g' && "gw_serial_1858"@[1] == 'w');
    lemma_gateway_name(catalogue::definition_at(1858), s);
    lemma_kept(values, s, 1858);
    reveal_strlit("gw_serial_1859");
    assert("gw_serial_1859"@[0] == 'g' && "gw_serial_1859"@[1] == 'w');
    lemma_gateway_name(catalogue::definition_at(1859), s);
    lemma_kept(values, s, 1859);
}

} // verus!
