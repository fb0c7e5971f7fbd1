//! What clients can rely on in a bank over the whole catalogue: readings that agree
//! with each other, whatever the plant.
use crate::catalogue;
use crate::fixed;
use crate::model;
use crate::projection;
use crate::projection::{ems, gateway, holding, internal, meter, native_input, three_phase};
use crate::reading_laws;
use crate::register_laws;
use crate::registers;
use crate::registers::{Definition, RegisterSpace, HOLDING_OFFSET};
use crate::state;
use crate::state::PlantState;
use crate::text;
use vstd::prelude::*;

verus! {

/// Whether `name` is a simulator register that the laws below speak of.
pub open spec fn is_simulator_reading(name: Seq<char>) -> bool {
    ||| name == "ge_hr_inverter_errors_high"@
    ||| name == "ge_hr_inverter_errors_low"@
    ||| name == "grid_power"@
}

/// None of these readings is a native input register.
proof fn lemma_not_native(name: Seq<char>, scale: int, s: PlantState)
    requires
        is_simulator_reading(name) || name == "meter_p_active_total"@,
    ensures
        native_input::input_a(name, scale, s) is None,
        native_input::input_b(name, scale, s) is None,
{
    reveal_strlit("ge_hr_inverter_errors_high");
    assert("ge_hr_inverter_errors_high"@.len() == 26);
    reveal_strlit("ge_hr_inverter_errors_low");
    assert("ge_hr_inverter_errors_low"@.len() == 25);
    reveal_strlit("grid_power");
    assert("grid_power"@.len() == 10);
    reveal_strlit("meter_p_active_total");
    assert("meter_p_active_total"@.len() == 20);
    assert("meter_p_active_total"@[0] == 'm');
    assert("ge_hr_inverter_errors_low"@[3] == 'h');
    assert("ge_hr_inverter_errors_high"@[3] == 'h');
    reveal_strlit("ge_ir_status");
    assert("ge_ir_status"@.len() == 12);
    reveal_strlit("ge_ir_pv1_voltage");
    assert("ge_ir_pv1_voltage"@.len() == 17);
    reveal_strlit("ge_ir_pv2_voltage");
    assert("ge_ir_pv2_voltage"@.len() == 17);
    reveal_strlit("ge_ir_p_bus_voltage");
    assert("ge_ir_p_bus_voltage"@.len() == 19);
    reveal_strlit("ge_ir_high_bus_voltage");
    assert("ge_ir_high_bus_voltage"@.len() == 22);
    reveal_strlit("ge_ir_n_bus_voltage");
    assert("ge_ir_n_bus_voltage"@.len() == 19);
    reveal_strlit("ge_ir_grid_voltage");
    assert("ge_ir_grid_voltage"@.len() == 18);
    reveal_strlit("ge_ir_battery_throughput_high");
    assert("ge_ir_battery_throughput_high"@.len() == 29);
    reveal_strlit("ge_ir_battery_throughput_low");
    assert("ge_ir_battery_throughput_low"@.len() == 28);
    reveal_strlit("ge_ir_pv1_current");
    assert("ge_ir_pv1_current"@.len() == 17);
    reveal_strlit("ge_ir_pv2_current");
    assert("ge_ir_pv2_current"@.len() == 17);
    reveal_strlit("ge_ir_ac_current");
    assert("ge_ir_ac_current"@.len() == 16);
    reveal_strlit("ge_ir_pv_total_high");
    assert("ge_ir_pv_total_high"@.len() == 19);
    reveal_strlit("ge_ir_pv_total_low");
    assert("ge_ir_pv_total_low"@.len() == 18);
    reveal_strlit("ge_ir_grid_frequency");
    assert("ge_ir_grid_frequency"@[0] == 'g');
    reveal_strlit("ge_ir_charge_status");
    assert("ge_ir_charge_status"@.len() == 19);
    reveal_strlit("ge_ir_inverter_output_pf");
    assert("ge_ir_inverter_output_pf"@.len() == 24);
    reveal_strlit("ge_ir_pv1_energy_today");
    assert("ge_ir_pv1_energy_today"@.len() == 22);
    reveal_strlit("ge_ir_pv1_power");
    assert("ge_ir_pv1_power"@.len() == 15);
    reveal_strlit("ge_ir_pv2_energy_today");
    assert("ge_ir_pv2_energy_today"@.len() == 22);
    reveal_strlit("ge_ir_pv2_power");
    assert("ge_ir_pv2_power"@.len() == 15);
    reveal_strlit("ge_ir_grid_export_total_high");
    assert("ge_ir_grid_export_total_high"@.len() == 28);
    reveal_strlit("ge_ir_grid_export_total_low");
    assert("ge_ir_grid_export_total_low"@.len() == 27);
    reveal_strlit("ge_ir_solar_diverter_energy");
    assert("ge_ir_solar_diverter_energy"@.len() == 27);
    reveal_strlit("ge_ir_inverter_terminal_power");
    assert("ge_ir_inverter_terminal_power"@.len() == 29);
    reveal_strlit("ge_ir_today_export_energy");
    assert("ge_ir_today_export_energy"@[3] == 'i');
    reveal_strlit("ge_ir_today_import_energy");
    assert("ge_ir_today_import_energy"@[3] == 'i');
    reveal_strlit("ge_ir_inverter_input_total_high");
    assert("ge_ir_inverter_input_total_high"@.len() == 31);
    reveal_strlit("ge_ir_inverter_input_total_low");
    assert("ge_ir_inverter_input_total_low"@.len() == 30);
    reveal_strlit("ge_ir_discharge_year");
    assert("ge_ir_discharge_year"@[0] == 'g');
    reveal_strlit("ge_ir_grid_power");
    assert("ge_ir_grid_power"@.len() == 16);
    reveal_strlit("ge_ir_eps_backup_power");
    assert("ge_ir_eps_backup_power"@.len() == 22);
    reveal_strlit("ge_ir_grid_import_total_high");
    assert("ge_ir_grid_import_total_high"@.len() == 28);
    reveal_strlit("ge_ir_grid_import_total_low");
    assert("ge_ir_grid_import_total_low"@.len() == 27);
    reveal_strlit("ge_ir_ac_charge_today");
    assert("ge_ir_ac_charge_today"@.len() == 21);
    reveal_strlit("ge_ir_today_charge_energy");
    assert("ge_ir_today_charge_energy"@[3] == 'i');
    reveal_strlit("ge_ir_today_discharge_energy");
    assert("ge_ir_today_discharge_energy"@.len() == 28);
    reveal_strlit("ge_ir_countdown");
    assert("ge_ir_countdown"@.len() == 15);
    reveal_strlit("ge_ir_fault_code_high");
    assert("ge_ir_fault_code_high"@.len() == 21);
    reveal_strlit("ge_ir_fault_code_low");
    assert("ge_ir_fault_code_low"@[0] == 'g');
    reveal_strlit("ge_ir_inverter_temperature");
    assert("ge_ir_inverter_temperature"@[3] == 'i');
    reveal_strlit("ge_ir_charger_temperature");
    assert("ge_ir_charger_temperature"@[3] == 'i');
    reveal_strlit("ge_ir_load_demand");
    assert("ge_ir_load_demand"@.len() == 17);
    reveal_strlit("ge_ir_grid_apparent");
    assert("ge_ir_grid_apparent"@.len() == 19);
    reveal_strlit("ge_ir_pv_generation_today");
    assert("ge_ir_pv_generation_today"@[3] == 'i');
    reveal_strlit("ge_ir_pv_generation_total_high");
    assert("ge_ir_pv_generation_total_high"@.len() == 30);
    reveal_strlit("ge_ir_pv_generation_total_low");
    assert("ge_ir_pv_generation_total_low"@.len() == 29);
    reveal_strlit("ge_ir_work_time_total_high");
    assert("ge_ir_work_time_total_high"@[3] == 'i');
    reveal_strlit("ge_ir_work_time_total_low");
    assert("ge_ir_work_time_total_low"@[3] == 'i');
    reveal_strlit("ge_ir_system_mode");
    assert("ge_ir_system_mode"@.len() == 17);
    reveal_strlit("ge_ir_battery_voltage");
    assert("ge_ir_battery_voltage"@.len() == 21);
    reveal_strlit("ge_ir_battery_current");
    assert("ge_ir_battery_current"@.len() == 21);
    reveal_strlit("ge_ir_battery_power");
    assert("ge_ir_battery_power"@.len() == 19);
    reveal_strlit("ge_ir_eps_voltage");
    assert("ge_ir_eps_voltage"@.len() == 17);
    reveal_strlit("ge_ir_eps_frequency");
    assert("ge_ir_eps_frequency"@.len() == 19);
    reveal_strlit("ge_ir_battery_temperature");
    assert("ge_ir_battery_temperature"@[3] == 'i');
    reveal_strlit("ge_ir_charger_warning_code");
    assert("ge_ir_charger_warning_code"@[3] == 'i');
    reveal_strlit("ge_ir_grid_port_current");
    assert("ge_ir_grid_port_current"@.len() == 23);
    reveal_strlit("ge_ir_battery_soc");
    assert("ge_ir_battery_soc"@.len() == 17);
    reveal_strlit("ge_ir_battery_discharge_total_alt1");
    assert("ge_ir_battery_discharge_total_alt1"@.len() == 34);
    reveal_strlit("ge_ir_battery_charge_total_alt1");
    assert("ge_ir_battery_charge_total_alt1"@.len() == 31);
    reveal_strlit("ge_ir_battery_discharge_today_alt2");
    assert("ge_ir_battery_discharge_today_alt2"@.len() == 34);
    reveal_strlit("ge_ir_battery_charge_today_alt2");
    assert("ge_ir_battery_charge_today_alt2"@.len() == 31);
    reveal_strlit("ge_ir_combined_generation_high");
    assert("ge_ir_combined_generation_high"@.len() == 30);
    reveal_strlit("ge_ir_combined_generation_low");
    assert("ge_ir_combined_generation_low"@.len() == 29);
}

/// None of these readings is a fault word of a three-phase inverter.
proof fn lemma_not_fault_word(name: Seq<char>, scale: int, s: PlantState)
    requires
        is_simulator_reading(name) || name == "meter_p_active_total"@,
    ensures
        !three_phase::is_fault_register(name),
{
    reveal_strlit("ge_hr_inverter_errors_high");
    assert("ge_hr_inverter_errors_high"@.len() == 26);
    reveal_strlit("ge_hr_inverter_errors_low");
    assert("ge_hr_inverter_errors_low"@.len() == 25);
    reveal_strlit("grid_power");
    assert("grid_power"@.len() == 10);
    reveal_strlit("meter_p_active_total");
    assert("meter_p_active_total"@.len() == 20);
    reveal_strlit("ge_ir_threephase_fault_0");
    assert("ge_ir_threephase_fault_0"@.len() == 24);
    reveal_strlit("ge_ir_threephase_fault_1");
    assert("ge_ir_threephase_fault_1"@.len() == 24);
    reveal_strlit("ge_ir_threephase_fault_2");
    assert("ge_ir_threephase_fault_2"@.len() == 24);
    reveal_strlit("ge_ir_threephase_fault_3");
    assert("ge_ir_threephase_fault_3"@.len() == 24);
    reveal_strlit("ge_ir_threephase_fault_4");
    assert("ge_ir_threephase_fault_4"@.len() == 24);
    reveal_strlit("ge_ir_threephase_fault_5");
    assert("ge_ir_threephase_fault_5"@.len() == 24);
    reveal_strlit("ge_ir_threephase_fault_6");
    assert("ge_ir_threephase_fault_6"@.len() == 24);
    reveal_strlit("ge_ir_threephase_fault_7");
    assert("ge_ir_threephase_fault_7"@.len() == 24);
}

/// None of these readings belongs to the meter or to the energy management system.
proof fn lemma_not_meter_or_ems(name: Seq<char>, scale: int, s: PlantState)
    requires
        is_simulator_reading(name),
    ensures
        meter::meter(name, scale, s) is None,
        ems::ems(name, scale, s) is None,
        !text::has_prefix(name, "meter_"@),
{
    reveal_strlit("ge_hr_inverter_errors_high");
    assert("ge_hr_inverter_errors_high"@.len() == 26);
    reveal_strlit("ge_hr_inverter_errors_low");
    assert("ge_hr_inverter_errors_low"@.len() == 25);
    reveal_strlit("grid_power");
    assert("grid_power"@.len() == 10);
    assert("grid_power"@[0] == 'g');
    assert("ge_hr_inverter_errors_high"@[0] == 'g');
    reveal_strlit("meter_v_phase_1");
    assert("meter_v_phase_1"@.len() == 15);
    reveal_strlit("meter_v_phase_2");
    assert("meter_v_phase_2"@.len() == 15);
    reveal_strlit("meter_v_phase_3");
    assert("meter_v_phase_3"@.len() == 15);
    reveal_strlit("meter_i_phase_1");
    assert("meter_i_phase_1"@.len() == 15);
    reveal_strlit("meter_i_phase_2");
    assert("meter_i_phase_2"@.len() == 15);
    reveal_strlit("meter_i_phase_3");
    assert("meter_i_phase_3"@.len() == 15);
    reveal_strlit("meter_i_ln");
    assert("meter_i_ln"@[0] == 'm');
    reveal_strlit("meter_i_total");
    assert("meter_i_total"@.len() == 13);
    reveal_strlit("meter_p_active_phase_1");
    assert("meter_p_active_phase_1"@.len() == 22);
    reveal_strlit("meter_p_active_phase_2");
    assert("meter_p_active_phase_2"@.len() == 22);
    reveal_strlit("meter_p_active_phase_3");
    assert("meter_p_active_phase_3"@.len() == 22);
    reveal_strlit("meter_p_active_total");
    assert("meter_p_active_total"@.len() == 20);
    reveal_strlit("meter_p_reactive_phase_1");
    assert("meter_p_reactive_phase_1"@.len() == 24);
    reveal_strlit("meter_p_reactive_phase_2");
    assert("meter_p_reactive_phase_2"@.len() == 24);
    reveal_strlit("meter_p_reactive_phase_3");
    assert("meter_p_reactive_phase_3"@.len() == 24);
    reveal_strlit("meter_p_reactive_total");
    assert("meter_p_reactive_total"@.len() == 22);
    reveal_strlit("meter_p_apparent_phase_1");
    assert("meter_p_apparent_phase_1"@.len() == 24);
    reveal_strlit("meter_p_apparent_phase_2");
    assert("meter_p_apparent_phase_2"@.len() == 24);
    reveal_strlit("meter_p_apparent_phase_3");
    assert("meter_p_apparent_phase_3"@.len() == 24);
    reveal_strlit("meter_p_apparent_total");
    assert("meter_p_apparent_total"@.len() == 22);
    reveal_strlit("meter_pf_phase_1");
    assert("meter_pf_phase_1"@.len() == 16);
    reveal_strlit("meter_pf_total");
    assert("meter_pf_total"@.len() == 14);
    reveal_strlit("meter_pf_phase_2");
    assert("meter_pf_phase_2"@.len() == 16);
    reveal_strlit("meter_pf_phase_3");
    assert("meter_pf_phase_3"@.len() == 16);
    reveal_strlit("meter_frequency");
    assert("meter_frequency"@.len() == 15);
    reveal_strlit("meter_e_import_active");
    assert("meter_e_import_active"@.len() == 21);
    reveal_strlit("meter_e_import_reactive");
    assert("meter_e_import_reactive"@.len() == 23);
    reveal_strlit("meter_e_export_reactive");
    assert("meter_e_export_reactive"@.len() == 23);
    reveal_strlit("meter_reserved");
    assert("meter_reserved"@.len() == 14);
    reveal_strlit("meter_e_export_active");
    assert("meter_e_export_active"@.len() == 21);
    reveal_strlit("ems_ir_status");
    assert("ems_ir_status"@.len() == 13);
    reveal_strlit("ems_ir_inverter_count");
    assert("ems_ir_inverter_count"@.len() == 21);
    reveal_strlit("ems_ir_inverter_1_soc");
    assert("ems_ir_inverter_1_soc"@.len() == 21);
    reveal_strlit("ems_ir_inverter_1_power");
    assert("ems_ir_inverter_1_power"@.len() == 23);
    reveal_strlit("ems_ir_total_battery_power");
    assert("ems_ir_total_battery_power"@[0] == 'e');
    reveal_strlit("ems_ir_inverter_1_temp");
    assert("ems_ir_inverter_1_temp"@.len() == 22);
    reveal_strlit("ems_ir_grid_meter_power");
    assert("ems_ir_grid_meter_power"@.len() == 23);
    reveal_strlit("ems_ir_remaining_battery_wh");
    assert("ems_ir_remaining_battery_wh"@.len() == 27);
    reveal_strlit("meter_");
    assert("meter_"@[0] == 'm');
    reveal_strlit("ems_ir_");
    assert("ems_ir_"@[0] == 'e');
    assert(name[0] == 'g');
    assert(name.len() >= 6 ==> name.subrange(0, 6)[0] == name[0]);
    assert(name.len() >= 7 ==> name.subrange(0, 7)[0] == name[0]);
}

/// None of these readings is one of HR 0-54.
proof fn lemma_not_holding_a(name: Seq<char>, scale: int, s: PlantState)
    requires
        is_simulator_reading(name),
    ensures
        holding::holding_a(name, scale, s) is None,
{
    reveal_strlit("ge_hr_inverter_errors_high");
    assert("ge_hr_inverter_errors_high"@.len() == 26);
    reveal_strlit("ge_hr_inverter_errors_low");
    assert("ge_hr_inverter_errors_low"@.len() == 25);
    reveal_strlit("grid_power");
    assert("grid_power"@.len() == 10);
    assert("ge_hr_inverter_errors_low"@[6] == 'i');
    assert("ge_hr_inverter_errors_high"@[6] == 'i');
    reveal_strlit("ge_hr_device_type");
    assert("ge_hr_device_type"@.len() == 17);
    reveal_strlit("ge_hr_module_high");
    assert("ge_hr_module_high"@.len() == 17);
    reveal_strlit("ge_hr_module_low");
    assert("ge_hr_module_low"@.len() == 16);
    reveal_strlit("ge_hr_mppt_phase_count");
    assert("ge_hr_mppt_phase_count"@.len() == 22);
    reveal_strlit("ge_hr_enable_ammeter");
    assert("ge_hr_enable_ammeter"@.len() == 20);
    reveal_strlit("ge_hr_first_battery_serial_0");
    assert("ge_hr_first_battery_serial_0"@.len() == 28);
    reveal_strlit("ge_hr_first_battery_serial_1");
    assert("ge_hr_first_battery_serial_1"@.len() == 28);
    reveal_strlit("ge_hr_first_battery_serial_2");
    assert("ge_hr_first_battery_serial_2"@.len() == 28);
    reveal_strlit("ge_hr_first_battery_serial_3");
    assert("ge_hr_first_battery_serial_3"@.len() == 28);
    reveal_strlit("ge_hr_first_battery_serial_4");
    assert("ge_hr_first_battery_serial_4"@.len() == 28);
    reveal_strlit("ge_hr_serial_0");
    assert("ge_hr_serial_0"@.len() == 14);
    reveal_strlit("ge_hr_serial_1");
    assert("ge_hr_serial_1"@.len() == 14);
    reveal_strlit("ge_hr_serial_2");
    assert("ge_hr_serial_2"@.len() == 14);
    reveal_strlit("ge_hr_serial_3");
    assert("ge_hr_serial_3"@.len() == 14);
    reveal_strlit("ge_hr_serial_4");
    assert("ge_hr_serial_4"@.len() == 14);
    reveal_strlit("ge_hr_first_battery_bms_firmware");
    assert("ge_hr_first_battery_bms_firmware"@.len() == 32);
    reveal_strlit("ge_hr_dsp_firmware");
    assert("ge_hr_dsp_firmware"@.len() == 18);
    reveal_strlit("ge_hr_arm_firmware");
    assert("ge_hr_arm_firmware"@.len() == 18);
    reveal_strlit("ge_hr_usb_device_inserted");
    assert("ge_hr_usb_device_inserted"@[6] == 'u');
    reveal_strlit("ge_hr_select_arm_chip");
    assert("ge_hr_select_arm_chip"@.len() == 21);
    reveal_strlit("ge_hr_variable_address");
    assert("ge_hr_variable_address"@.len() == 22);
    reveal_strlit("ge_hr_variable_value");
    assert("ge_hr_variable_value"@.len() == 20);
    reveal_strlit("ge_hr_grid_port_max_power_output");
    assert("ge_hr_grid_port_max_power_output"@.len() == 32);
    reveal_strlit("ge_hr_battery_calibration_stage");
    assert("ge_hr_battery_calibration_stage"@.len() == 31);
    reveal_strlit("ge_hr_enable_charge_target");
    assert("ge_hr_enable_charge_target"@[6] == 'e');
    reveal_strlit("ge_hr_battery_power_mode");
    assert("ge_hr_battery_power_mode"@.len() == 24);
    reveal_strlit("ge_hr_enable_60hz_freq_mode");
    assert("ge_hr_enable_60hz_freq_mode"@.len() == 27);
    reveal_strlit("ge_hr_modbus_address");
    assert("ge_hr_modbus_address"@.len() == 20);
    reveal_strlit("ge_hr_charge_slot_2_start");
    assert("ge_hr_charge_slot_2_start"@[6] == 'c');
    reveal_strlit("ge_hr_charge_slot_2_end");
    assert("ge_hr_charge_slot_2_end"@.len() == 23);
    reveal_strlit("ge_hr_system_time_year");
    assert("ge_hr_system_time_year"@.len() == 22);
    reveal_strlit("ge_hr_system_time_month");
    assert("ge_hr_system_time_month"@.len() == 23);
    reveal_strlit("ge_hr_system_time_day");
    assert("ge_hr_system_time_day"@.len() == 21);
    reveal_strlit("ge_hr_system_time_hour");
    assert("ge_hr_system_time_hour"@.len() == 22);
    reveal_strlit("ge_hr_system_time_minute");
    assert("ge_hr_system_time_minute"@.len() == 24);
    reveal_strlit("ge_hr_system_time_second");
    assert("ge_hr_system_time_second"@.len() == 24);
    reveal_strlit("ge_hr_user_code");
    assert("ge_hr_user_code"@.len() == 15);
    reveal_strlit("ge_hr_modbus_version");
    assert("ge_hr_modbus_version"@.len() == 20);
    reveal_strlit("ge_hr_enable_drm_rj45_port");
    assert("ge_hr_enable_drm_rj45_port"@[6] == 'e');
    reveal_strlit("ge_hr_enable_reversed_ct_clamp");
    assert("ge_hr_enable_reversed_ct_clamp"@.len() == 30);
    reveal_strlit("ge_hr_charge_discharge_soc");
    assert("ge_hr_charge_discharge_soc"@[6] == 'c');
    reveal_strlit("ge_hr_discharge_slot_2_start");
    assert("ge_hr_discharge_slot_2_start"@.len() == 28);
    reveal_strlit("ge_hr_discharge_slot_2_end");
    assert("ge_hr_discharge_slot_2_end"@[6] == 'd');
    reveal_strlit("ge_hr_bms_firmware_version");
    assert("ge_hr_bms_firmware_version"@[6] == 'b');
    reveal_strlit("ge_hr_meter_type");
    assert("ge_hr_meter_type"@.len() == 16);
    reveal_strlit("ge_hr_enable_reversed_115_meter");
    assert("ge_hr_enable_reversed_115_meter"@.len() == 31);
    reveal_strlit("ge_hr_enable_reversed_418_meter");
    assert("ge_hr_enable_reversed_418_meter"@.len() == 31);
    reveal_strlit("ge_hr_active_power_rate");
    assert("ge_hr_active_power_rate"@.len() == 23);
    reveal_strlit("ge_hr_reactive_power_rate");
    assert("ge_hr_reactive_power_rate"@[6] == 'r');
    reveal_strlit("ge_hr_power_factor");
    assert("ge_hr_power_factor"@.len() == 18);
    reveal_strlit("ge_hr_enable_inverter_flags");
    assert("ge_hr_enable_inverter_flags"@.len() == 27);
    reveal_strlit("ge_hr_battery_type");
    assert("ge_hr_battery_type"@.len() == 18);
}

/// None of these readings is one of the later native holding registers.
proof fn lemma_not_holding_b(name: Seq<char>, scale: int, s: PlantState)
    requires
        is_simulator_reading(name),
    ensures
        holding::holding_b(name, scale, s) is None,
{
    reveal_strlit("ge_hr_inverter_errors_high");
    assert("ge_hr_inverter_errors_high"@.len() == 26);
    reveal_strlit("ge_hr_inverter_errors_low");
    assert("ge_hr_inverter_errors_low"@.len() == 25);
    reveal_strlit("grid_power");
    assert("grid_power"@.len() == 10);
    assert("ge_hr_inverter_errors_low"@[6] == 'i');
    assert("ge_hr_inverter_errors_high"@[6] == 'i');
    reveal_strlit("ge_hr_battery_capacity_ah");
    assert("ge_hr_battery_capacity_ah"@[6] == 'b');
    reveal_strlit("ge_hr_discharge_slot_1_start");
    assert("ge_hr_discharge_slot_1_start"@.len() == 28);
    reveal_strlit("ge_hr_discharge_slot_1_end");
    assert("ge_hr_discharge_slot_1_end"@[6] == 'd');
    reveal_strlit("ge_hr_enable_auto_judge_battery_type");
    assert("ge_hr_enable_auto_judge_battery_type"@.len() == 36);
    reveal_strlit("ge_hr_enable_discharge");
    assert("ge_hr_enable_discharge"@.len() == 22);
    reveal_strlit("ge_hr_pv_start_voltage");
    assert("ge_hr_pv_start_voltage"@.len() == 22);
    reveal_strlit("ge_hr_start_countdown_timer");
    assert("ge_hr_start_countdown_timer"@.len() == 27);
    reveal_strlit("ge_hr_restart_delay_time");
    assert("ge_hr_restart_delay_time"@.len() == 24);
    reveal_strlit("ge_hr_charge_slot_1_start");
    assert("ge_hr_charge_slot_1_start"@[6] == 'c');
    reveal_strlit("ge_hr_charge_slot_1_end");
    assert("ge_hr_charge_slot_1_end"@.len() == 23);
    reveal_strlit("ge_hr_enable_charge");
    assert("ge_hr_enable_charge"@.len() == 19);
    reveal_strlit("ge_hr_battery_low_voltage_protection_limit");
    assert("ge_hr_battery_low_voltage_protection_limit"@.len() == 42);
    reveal_strlit("ge_hr_battery_high_voltage_protection_limit");
    assert("ge_hr_battery_high_voltage_protection_limit"@.len() == 43);
    reveal_strlit("ge_hr_battery_voltage_adjust");
    assert("ge_hr_battery_voltage_adjust"@.len() == 28);
    reveal_strlit("ge_hr_battery_low_force_charge_time");
    assert("ge_hr_battery_low_force_charge_time"@.len() == 35);
    reveal_strlit("ge_hr_enable_bms_read");
    assert("ge_hr_enable_bms_read"@.len() == 21);
    reveal_strlit("ge_hr_battery_soc_reserve");
    assert("ge_hr_battery_soc_reserve"@[6] == 'b');
    reveal_strlit("ge_hr_battery_charge_limit");
    assert("ge_hr_battery_charge_limit"@[6] == 'b');
    reveal_strlit("ge_hr_battery_charge_limit_ac");
    assert("ge_hr_battery_charge_limit_ac"@.len() == 29);
    reveal_strlit("tph_battery_charge_limit_ac");
    assert("tph_battery_charge_limit_ac"@.len() == 27);
    reveal_strlit("ge_hr_battery_discharge_limit");
    assert("ge_hr_battery_discharge_limit"@.len() == 29);
    reveal_strlit("ge_hr_battery_discharge_limit_ac");
    assert("ge_hr_battery_discharge_limit_ac"@.len() == 32);
    reveal_strlit("tph_battery_discharge_limit_ac");
    assert("tph_battery_discharge_limit_ac"@.len() == 30);
    reveal_strlit("ge_hr_enable_buzzer");
    assert("ge_hr_enable_buzzer"@.len() == 19);
    reveal_strlit("ge_hr_battery_discharge_min_power_reserve");
    assert("ge_hr_battery_discharge_min_power_reserve"@.len() == 41);
    reveal_strlit("ge_hr_island_check_continue");
    assert("ge_hr_island_check_continue"@.len() == 27);
    reveal_strlit("ge_hr_charge_target_soc");
    assert("ge_hr_charge_target_soc"@.len() == 23);
    reveal_strlit("ge_hr_charge_soc_stop_2");
    assert("ge_hr_charge_soc_stop_2"@.len() == 23);
    reveal_strlit("ge_hr_discharge_soc_stop_2");
    assert("ge_hr_discharge_soc_stop_2"@[6] == 'd');
    reveal_strlit("ge_hr_charge_soc_stop_1");
    assert("ge_hr_charge_soc_stop_1"@.len() == 23);
    reveal_strlit("ge_hr_discharge_soc_stop_1");
    assert("ge_hr_discharge_soc_stop_1"@[6] == 'd');
    reveal_strlit("ge_hr_enable_local_command_test");
    assert("ge_hr_enable_local_command_test"@.len() == 31);
    reveal_strlit("ge_hr_enable_low_voltage_fault_ride_through");
    assert("ge_hr_enable_low_voltage_fault_ride_through"@.len() == 43);
    reveal_strlit("ge_hr_enable_frequency_derating");
    assert("ge_hr_enable_frequency_derating"@.len() == 31);
    reveal_strlit("ge_hr_enable_above_6kw_system");
    assert("ge_hr_enable_above_6kw_system"@.len() == 29);
    reveal_strlit("ge_hr_start_system_auto_test");
    assert("ge_hr_start_system_auto_test"@.len() == 28);
    reveal_strlit("ge_hr_enable_spi");
    assert("ge_hr_enable_spi"@.len() == 16);
    reveal_strlit("ge_hr_power_factor_function_model");
    assert("ge_hr_power_factor_function_model"@.len() == 33);
    reveal_strlit("ge_hr_frequency_load_limit_rate");
    assert("ge_hr_frequency_load_limit_rate"@.len() == 31);
    reveal_strlit("ge_hr_inverter_reboot");
    assert("ge_hr_inverter_reboot"@.len() == 21);
    reveal_strlit("ge_hr_rtc_enable");
    assert("ge_hr_rtc_enable"@.len() == 16);
    reveal_strlit("ge_hr_threephase_balance_mode");
    assert("ge_hr_threephase_balance_mode"@.len() == 29);
    reveal_strlit("ge_hr_threephase_abc");
    assert("ge_hr_threephase_abc"@.len() == 20);
    reveal_strlit("ge_hr_threephase_balance_1");
    assert("ge_hr_threephase_balance_1"@[6] == 't');
    reveal_strlit("ge_hr_threephase_balance_2");
    assert("ge_hr_threephase_balance_2"@[6] == 't');
    reveal_strlit("ge_hr_threephase_balance_3");
    assert("ge_hr_threephase_balance_3"@[6] == 't');
    reveal_strlit("ge_hr_enable_battery_on_pv_or_grid");
    assert("ge_hr_enable_battery_on_pv_or_grid"@.len() == 34);
    reveal_strlit("ge_hr_debug_inverter");
    assert("ge_hr_debug_inverter"@.len() == 20);
    reveal_strlit("ge_hr_enable_ups_mode");
    assert("ge_hr_enable_ups_mode"@.len() == 21);
    reveal_strlit("ge_hr_enable_g100_limit_switch");
    assert("ge_hr_enable_g100_limit_switch"@.len() == 30);
    reveal_strlit("ge_hr_enable_battery_cable_impedance_alarm");
    assert("ge_hr_enable_battery_cable_impedance_alarm"@.len() == 42);
    reveal_strlit("ge_hr_enable_standard_self_consumption_logic");
    assert("ge_hr_enable_standard_self_consumption_logic"@.len() == 44);
    reveal_strlit("ge_hr_battery_pause_mode");
    assert("ge_hr_battery_pause_mode"@.len() == 24);
    reveal_strlit("ge_hr_battery_pause_slot_1_start");
    assert("ge_hr_battery_pause_slot_1_start"@.len() == 32);
    reveal_strlit("ge_hr_battery_pause_slot_1_end");
    assert("ge_hr_battery_pause_slot_1_end"@.len() == 30);
    reveal_strlit("ge_hr_export_priority");
    assert("ge_hr_export_priority"@.len() == 21);
    reveal_strlit("ge_hr_enable_eps");
    assert("ge_hr_enable_eps"@.len() == 16);
    reveal_strlit("ge_hr_pv_power_setting_high");
    assert("ge_hr_pv_power_setting_high"@.len() == 27);
    reveal_strlit("ge_hr_pv_power_setting_low");
    assert("ge_hr_pv_power_setting_low"@[6] == 'p');
    reveal_strlit("ge_hr_battery_discharge_total_alt2_high");
    assert("ge_hr_battery_discharge_total_alt2_high"@.len() == 39);
    reveal_strlit("ge_hr_battery_discharge_total_alt2_low");
    assert("ge_hr_battery_discharge_total_alt2_low"@.len() == 38);
    reveal_strlit("ge_hr_battery_charge_total_alt2_high");
    assert("ge_hr_battery_charge_total_alt2_high"@.len() == 36);
    reveal_strlit("ge_hr_battery_charge_total_alt2_low");
    assert("ge_hr_battery_charge_total_alt2_low"@.len() == 35);
    reveal_strlit("ge_hr_battery_discharge_today_alt3");
    assert("ge_hr_battery_discharge_today_alt3"@.len() == 34);
    reveal_strlit("ge_hr_battery_charge_today_alt3");
    assert("ge_hr_battery_charge_today_alt3"@.len() == 31);
    reveal_strlit("ge_hr_inverter_export_total_high");
    assert("ge_hr_inverter_export_total_high"@.len() == 32);
    reveal_strlit("ge_hr_inverter_export_total_low");
    assert("ge_hr_inverter_export_total_low"@.len() == 31);
    reveal_strlit("ems_plant_enable");
    assert("ems_plant_enable"@.len() == 16);
    reveal_strlit("tph_p_export_limit");
    assert("tph_p_export_limit"@.len() == 18);
    reveal_strlit("ems_export_power_limit");
    assert("ems_export_power_limit"@.len() == 22);
}

/// What these simulator registers show.
proof fn lemma_internal_readings(name: Seq<char>, scale: int, s: PlantState)
    requires
        is_simulator_reading(name),
    ensures
        internal::internal(name, scale, s) == Some(
            if name == "ge_hr_inverter_errors_high"@ {
                fixed::high_half(native_input::single_phase_faults(s))
            } else if name == "ge_hr_inverter_errors_low"@ {
                fixed::low_half(native_input::single_phase_faults(s))
            } else {
                fixed::signed_cut_word(s.grid.power_w@, 1_000_000)
            },
        ),
{
    reveal_strlit("ge_hr_inverter_errors_high");
    assert("ge_hr_inverter_errors_high"@.len() == 26);
    reveal_strlit("ge_hr_inverter_errors_low");
    assert("ge_hr_inverter_errors_low"@.len() == 25);
    reveal_strlit("grid_power");
    assert("grid_power"@.len() == 10);
    assert("ge_hr_inverter_errors_high"@[0] == 'g');
    assert("ge_hr_inverter_errors_low"@[0] == 'g');
    assert("grid_power"@[0] == 'g');
    reveal_strlit("inverter_mode");
    assert("inverter_mode"@.len() == 13);
    reveal_strlit("tph_force_charge_enable");
    assert("tph_force_charge_enable"@.len() == 23);
    reveal_strlit("tph_force_discharge_enable");
    assert("tph_force_discharge_enable"@[0] == 't');
    reveal_strlit("inverter_ac_power");
    assert("inverter_ac_power"@.len() == 17);
    reveal_strlit("inverter_export_limit_w");
    assert("inverter_export_limit_w"@.len() == 23);
    reveal_strlit("inverter_temperature");
    assert("inverter_temperature"@.len() == 20);
    reveal_strlit("ge_hr_enable_battery_self_heating");
    assert("ge_hr_enable_battery_self_heating"@.len() == 33);
    reveal_strlit("ge_hr_enable_manual_battery_heater");
    assert("ge_hr_enable_manual_battery_heater"@.len() == 34);
    reveal_strlit("battery_soc");
    assert("battery_soc"@.len() == 11);
    reveal_strlit("battery_soc_2");
    assert("battery_soc_2"@.len() == 13);
    reveal_strlit("battery_soc_3");
    assert("battery_soc_3"@.len() == 13);
    reveal_strlit("battery_power");
    assert("battery_power"@.len() == 13);
    reveal_strlit("battery_voltage");
    assert("battery_voltage"@.len() == 15);
    reveal_strlit("battery_current");
    assert("battery_current"@.len() == 15);
    reveal_strlit("battery_temperature");
    assert("battery_temperature"@.len() == 19);
    reveal_strlit("battery_capacity_kwh");
    assert("battery_capacity_kwh"@.len() == 20);
    reveal_strlit("battery_max_charge_kw");
    assert("battery_max_charge_kw"@.len() == 21);
    reveal_strlit("battery_max_discharge_kw");
    assert("battery_max_discharge_kw"@.len() == 24);
    reveal_strlit("battery_min_soc");
    assert("battery_min_soc"@.len() == 15);
    reveal_strlit("battery_max_soc");
    assert("battery_max_soc"@.len() == 15);
    reveal_strlit("battery_charge_efficiency");
    assert("battery_charge_efficiency"@[0] == 'b');
    reveal_strlit("battery_discharge_efficiency");
    assert("battery_discharge_efficiency"@.len() == 28);
    reveal_strlit("battery_module_count");
    assert("battery_module_count"@.len() == 20);
    reveal_strlit("pv_generation");
    assert("pv_generation"@.len() == 13);
    reveal_strlit("pv_voltage");
    assert("pv_voltage"@[0] == 'p');
    reveal_strlit("pv_current");
    assert("pv_current"@[0] == 'p');
    reveal_strlit("pv_energy_today");
    assert("pv_energy_today"@.len() == 15);
    reveal_strlit("solar_generation_kwh");
    assert("solar_generation_kwh"@.len() == 20);
    reveal_strlit("pv_peak_capacity");
    assert("pv_peak_capacity"@.len() == 16);
}

/// What the register of the meter's total power shows.
proof fn lemma_meter_reading(scale: int, s: PlantState)
    ensures
        meter::meter("meter_p_active_total"@, scale, s) == Some(
            fixed::signed_cut_word(s.grid.power_w@, 1_000_000),
        ),
{
    reveal_strlit("meter_p_active_total");
    assert("meter_p_active_total"@.len() == 20);
    reveal_strlit("meter_v_phase_1");
    assert("meter_v_phase_1"@.len() == 15);
    reveal_strlit("meter_v_phase_2");
    assert("meter_v_phase_2"@.len() == 15);
    reveal_strlit("meter_v_phase_3");
    assert("meter_v_phase_3"@.len() == 15);
    reveal_strlit("meter_i_phase_1");
    assert("meter_i_phase_1"@.len() == 15);
    reveal_strlit("meter_i_phase_2");
    assert("meter_i_phase_2"@.len() == 15);
    reveal_strlit("meter_i_phase_3");
    assert("meter_i_phase_3"@.len() == 15);
    reveal_strlit("meter_i_ln");
    assert("meter_i_ln"@.len() == 10);
    reveal_strlit("meter_i_total");
    assert("meter_i_total"@.len() == 13);
    reveal_strlit("meter_p_active_phase_1");
    assert("meter_p_active_phase_1"@.len() == 22);
    reveal_strlit("meter_p_active_phase_2");
    assert("meter_p_active_phase_2"@.len() == 22);
    reveal_strlit("meter_p_active_phase_3");
    assert("meter_p_active_phase_3"@.len() == 22);
}

/// What a bank over the whole catalogue shows at input register `a` once the plant `s`
/// is shown.
pub open spec fn input_word(values: Map<u32, u16>, s: PlantState, a: int) -> Option<u16> {
    registers::projected_values(values, catalogue::catalogue(), s).get(
        registers::key_of(a, RegisterSpace::Input) as u32,
    )
}

/// What a bank over the whole catalogue shows at holding register `a` once the plant
/// `s` is shown.
pub open spec fn holding_word(values: Map<u32, u16>, s: PlantState, a: int) -> Option<u16> {
    registers::projected_values(values, catalogue::catalogue(), s).get(
        registers::key_of(a, RegisterSpace::Holding) as u32,
    )
}

/// Whether the laws below speak of the register with storage key `key`.
pub open spec fn covered(key: int) -> bool {
    ||| key == 30 || key == 39 || key == 40
    ||| 60 <= key <= 89
    ||| 1300 <= key <= 1307
    ||| key == HOLDING_OFFSET + 223 || key == HOLDING_OFFSET + 224 || key == HOLDING_OFFSET + 400
}

/// A covered register shows its own word on every plant, a gateway too.
proof fn lemma_covered_word(values: Map<u32, u16>, s: PlantState, key: int)
    requires
        covered(key),
        projection::projected(catalogue::definition_at(key), s) is Some,
    ensures
        registers::projected_values(values, catalogue::catalogue(), s).get(key as u32) == Some(
            projection::projected(catalogue::definition_at(key), s)->0 as u16,
        ),
{
    catalogue::law_catalogue_well_formed();
    register_laws::law_catalogue_keys_distinct();
    let c = catalogue::catalogue();
    let i = catalogue::place(key);
    assert(0 <= i < c.len());
    assert(catalogue::stands_at(c[i], i));
    assert(catalogue::place(c[i].key()) == catalogue::place(key));
    assert(c[i].key() == key);
    assert(gateway::overlay_word(key, s) is None);
    register_laws::law_registers_show_their_words(values, c, s, i);
}

/// What the registers of the faults and of the grid power show.
proof fn lemma_words(values: Map<u32, u16>, s: PlantState, a: int)
    ensures
        input_word(values, s, 39) == Some(
            fixed::high_half(native_input::single_phase_faults(s)) as u16,
        ),
        holding_word(values, s, 223) == Some(
            fixed::high_half(native_input::single_phase_faults(s)) as u16,
        ),
        input_word(values, s, 40) == Some(
            fixed::low_half(native_input::single_phase_faults(s)) as u16,
        ),
        holding_word(values, s, 224) == Some(
            fixed::low_half(native_input::single_phase_faults(s)) as u16,
        ),
        input_word(values, s, 30) == Some(
            fixed::signed_cut_word(-s.grid.power_w@, 1_000_000) as u16,
        ),
        holding_word(values, s, 400) == Some(
            fixed::signed_cut_word(s.grid.power_w@, 1_000_000) as u16,
        ),
        s.config.ct_meter_installed ==> input_word(values, s, 71) == Some(
            fixed::signed_cut_word(s.grid.power_w@, 1_000_000) as u16,
        ),
        !s.config.ct_meter_installed && 60 <= a <= 89 ==> input_word(values, s, a) == Some(0u16),
        1300 <= a <= 1307 ==> input_word(values, s, a) == Some(
            three_phase::three_phase_faults(a - 1300, s) as u16,
        ),
{
    lemma_native_words(values, s);
    lemma_simulator_words(values, s);
    lemma_other_words(values, s, a);
}

/// What the native input registers of the faults and of the grid power show.
proof fn lemma_native_words(values: Map<u32, u16>, s: PlantState)
    ensures
        input_word(values, s, 39) == Some(
            fixed::high_half(native_input::single_phase_faults(s)) as u16,
        ),
        input_word(values, s, 40) == Some(
            fixed::low_half(native_input::single_phase_faults(s)) as u16,
        ),
        input_word(values, s, 30) == Some(
            fixed::signed_cut_word(-s.grid.power_w@, 1_000_000) as u16,
        ),
{
    catalogue::lemma_known_names(39);
    reading_laws::lemma_native_readings(catalogue::definition_at(39), s);
    reading_laws::lemma_native_readings(catalogue::definition_at(40), s);
    reading_laws::lemma_native_readings(catalogue::definition_at(30), s);
    lemma_covered_word(values, s, 39);
    lemma_covered_word(values, s, 40);
    lemma_covered_word(values, s, 30);
}

/// A simulator register shows what its own block says.
proof fn lemma_simulator_reading(d: Definition, s: PlantState)
    requires
        is_simulator_reading(d.name),
    ensures
        projection::projected(d, s) == internal::internal(d.name, d.scale, s),
        projection::projected(d, s) is Some,
{
    reveal(projection::projected);
    lemma_not_native(d.name, d.scale, s);
    lemma_not_fault_word(d.name, d.scale, s);
    lemma_not_meter_or_ems(d.name, d.scale, s);
    lemma_not_holding_a(d.name, d.scale, s);
    lemma_not_holding_b(d.name, d.scale, s);
    lemma_internal_readings(d.name, d.scale, s);
}

/// What the simulator registers of the faults and of the grid power show.
proof fn lemma_simulator_words(values: Map<u32, u16>, s: PlantState)
    ensures
        holding_word(values, s, 223) == Some(
            fixed::high_half(native_input::single_phase_faults(s)) as u16,
        ),
        holding_word(values, s, 224) == Some(
            fixed::low_half(native_input::single_phase_faults(s)) as u16,
        ),
        holding_word(values, s, 400) == Some(
            fixed::signed_cut_word(s.grid.power_w@, 1_000_000) as u16,
        ),
{
    catalogue::lemma_known_names(0);
    let high = catalogue::definition_at(HOLDING_OFFSET + 223);
    let low = catalogue::definition_at(HOLDING_OFFSET + 224);
    let power = catalogue::definition_at(HOLDING_OFFSET + 400);
    lemma_simulator_reading(high, s);
    lemma_simulator_reading(low, s);
    lemma_simulator_reading(power, s);
    lemma_internal_readings(high.name, high.scale, s);
    lemma_internal_readings(low.name, low.scale, s);
    lemma_internal_readings(power.name, power.scale, s);
    reveal_strlit("ge_hr_inverter_errors_high");
    reveal_strlit("ge_hr_inverter_errors_low");
    reveal_strlit("grid_power");
    assert("ge_hr_inverter_errors_high"@.len() == 26);
    assert("ge_hr_inverter_errors_low"@.len() == 25);
    assert("grid_power"@.len() == 10);
    lemma_covered_word(values, s, HOLDING_OFFSET + 223);
    lemma_covered_word(values, s, HOLDING_OFFSET + 224);
    lemma_covered_word(values, s, HOLDING_OFFSET + 400);
}

/// What the registers of the meter and the fault words of a three-phase inverter show.
proof fn lemma_other_words(values: Map<u32, u16>, s: PlantState, a: int)
    ensures
        s.config.ct_meter_installed ==> input_word(values, s, 71) == Some(
            fixed::signed_cut_word(s.grid.power_w@, 1_000_000) as u16,
        ),
        !s.config.ct_meter_installed && 60 <= a <= 89 ==> input_word(values, s, a) == Some(0u16),
        1300 <= a <= 1307 ==> input_word(values, s, a) == Some(
            three_phase::three_phase_faults(a - 1300, s) as u16,
        ),
{
    catalogue::lemma_known_names(a);
    if s.config.ct_meter_installed {
        let d = catalogue::definition_at(71);
        assert(projection::projected(d, s) == Some(
            fixed::signed_cut_word(s.grid.power_w@, 1_000_000),
        )) by {
            reveal(projection::projected);
            lemma_not_native(d.name, d.scale, s);
            lemma_not_fault_word(d.name, d.scale, s);
            lemma_meter_reading(d.scale, s);
        }
        lemma_covered_word(values, s, 71);
    }
    if !s.config.ct_meter_installed && 60 <= a <= 89 {
        register_laws::law_no_meter_shows_zero(catalogue::definition_at(a), s);
        lemma_covered_word(values, s, a);
    }
    if 1300 <= a <= 1307 {
        let d = catalogue::definition_at(a);
        assert(d.address == a) by {
            catalogue::law_catalogue_well_formed();
            assert(catalogue::stands_at(d, catalogue::place(a)));
            assert(catalogue::place(d.key()) == catalogue::place(a));
        }
        assert(projection::projected(d, s) == Some(
            three_phase::three_phase_faults(a - 1300, s),
        )) by {
            reveal(projection::projected);
            lemma_fault_word_is_not_metered(d.name);
        }
        lemma_covered_word(values, s, a);
    }
}

/// A fault word of a three-phase inverter is no register of the meter.
proof fn lemma_fault_word_is_not_metered(name: Seq<char>)
    requires
        three_phase::is_fault_register(name),
    ensures
        !text::has_prefix(name, "meter_"@),
{
    reveal_strlit("meter_");
    assert("meter_"@[0] == 'm');
    reveal_strlit("ge_ir_threephase_fault_0");
    reveal_strlit("ge_ir_threephase_fault_1");
    reveal_strlit("ge_ir_threephase_fault_2");
    reveal_strlit("ge_ir_threephase_fault_3");
    reveal_strlit("ge_ir_threephase_fault_4");
    reveal_strlit("ge_ir_threephase_fault_5");
    reveal_strlit("ge_ir_threephase_fault_6");
    reveal_strlit("ge_ir_threephase_fault_7");
    assert(name[0] == 'g');
    assert(name.len() >= 6 ==> name.subrange(0, 6)[0] == name[0]);
}

/// Law: IR 39-40 mirror HR 223-224 on every plant. A three-phase plant shows zero in
/// all four; any other shows zero in IR 1300-1307.
pub proof fn law_fault_words_mirror(values: Map<u32, u16>, s: PlantState, a: int)
    ensures
        input_word(values, s, 39) is Some,
        input_word(values, s, 40) is Some,
        input_word(values, s, 39) == holding_word(values, s, 223),
        input_word(values, s, 40) == holding_word(values, s, 224),
        model::three_phase(s.config.inverter_type@) ==> input_word(values, s, 39) == Some(0u16)
            && input_word(values, s, 40) == Some(0u16),
        !model::three_phase(s.config.inverter_type@) && 1300 <= a <= 1307 ==> input_word(
            values,
            s,
            a,
        ) == Some(0u16),
{
    lemma_words(values, s, a);
    register_laws::law_faults_in_one_place(s, a - 1300);
}

/// Whether the fault words have a bit for the fault `id`.
pub open spec fn is_known_fault(id: Seq<char>) -> bool {
    ||| id == "grid_loss"@
    ||| id == "inverter_trip"@
    ||| id == "battery_over_temp"@
    ||| id == "comm_timeout"@
    ||| id == "sensor_drift"@
}

/// The active faults that the fault words have a bit for.
pub open spec fn known_faults(faults: Seq<String>) -> Set<Seq<char>> {
    Set::new(|id: Seq<char>| is_known_fault(id) && state::fault_active(faults, id))
}

/// Law: the order of the active faults, repeats among them and faults without a bit do
/// not matter to the known ones.
pub proof fn law_known_faults(faults: Seq<String>, other: Seq<String>, one: String)
    ensures
        faults.to_multiset() == other.to_multiset() ==> known_faults(faults) == known_faults(other),
        state::fault_active(faults, one@) || !is_known_fault(one@) ==> known_faults(
            faults.push(one),
        ) == known_faults(faults),
{
    broadcast use vstd::seq_lib::group_to_multiset_ensures;

    if faults.to_multiset() == other.to_multiset() {
        assert forall|id: Seq<char>| state::fault_active(faults, id) == state::fault_active(
            other,
            id,
        ) by {
            if state::fault_active(faults, id) {
                let i = choose|i: int| 0 <= i < faults.len() && (#[trigger] faults[i])@ == id;
                assert(faults.contains(faults[i]));
                assert(other.to_multiset().count(faults[i]) > 0);
                assert(other.contains(faults[i]));
            }
            if state::fault_active(other, id) {
                let i = choose|i: int| 0 <= i < other.len() && (#[trigger] other[i])@ == id;
                assert(other.contains(other[i]));
                assert(faults.to_multiset().count(other[i]) > 0);
                assert(faults.contains(other[i]));
            }
        }
        assert(known_faults(faults) =~= known_faults(other));
    }
    if state::fault_active(faults, one@) || !is_known_fault(one@) {
        let more = faults.push(one);
        assert forall|id: Seq<char>| is_known_fault(id) implies state::fault_active(more, id)
            == state::fault_active(faults, id) by {
            if state::fault_active(faults, id) {
                let i = choose|i: int| 0 <= i < faults.len() && (#[trigger] faults[i])@ == id;
                assert(more[i]@ == id);
            }
            if state::fault_active(more, id) {
                let i = choose|i: int| 0 <= i < more.len() && (#[trigger] more[i])@ == id;
                if i < faults.len() {
                    assert(faults[i]@ == id);
                }
            }
        }
        assert(known_faults(more) =~= known_faults(faults));
    }
}

/// Law: two plants of one inverter type with the same known faults show the same fault
/// words, whatever else differs.
pub proof fn law_fault_words_follow_known_faults(
    values: Map<u32, u16>,
    s: PlantState,
    t: PlantState,
    a: int,
)
    requires
        s.config.inverter_type@ == t.config.inverter_type@,
        known_faults(s.active_faults@) == known_faults(t.active_faults@),
    ensures
        input_word(values, s, 39) == input_word(values, t, 39),
        input_word(values, s, 40) == input_word(values, t, 40),
        holding_word(values, s, 223) == holding_word(values, t, 223),
        holding_word(values, s, 224) == holding_word(values, t, 224),
        1300 <= a <= 1307 ==> input_word(values, s, a) == input_word(values, t, a),
{
    lemma_words(values, s, a);
    lemma_words(values, t, a);
    assert forall|id: Seq<char>| is_known_fault(id) implies #[trigger] state::fault_active(
        s.active_faults@,
        id,
    ) == state::fault_active(t.active_faults@, id) by {
        assert(known_faults(s.active_faults@).contains(id) <==> state::fault_active(
            s.active_faults@,
            id,
        ));
        assert(known_faults(t.active_faults@).contains(id) <==> state::fault_active(
            t.active_faults@,
            id,
        ));
    }
    assert(is_known_fault("grid_loss"@));
    assert(is_known_fault("inverter_trip"@));
    assert(is_known_fault("battery_over_temp"@));
    assert(is_known_fault("comm_timeout"@));
    assert(is_known_fault("sensor_drift"@));
}

/// The number that a word stands for where it is signed.
pub open spec fn signed(w: u16) -> int {
    if w >= 32768 {
        w - 65536
    } else {
        w as int
    }
}

/// Law: with a meter installed, HR 400 equals IR 71, and IR 30 is its negative: the
/// first two are positive for import, IR 30 for export.
pub proof fn law_grid_power_signs(values: Map<u32, u16>, s: PlantState)
    requires
        s.config.ct_meter_installed,
    ensures
        holding_word(values, s, 400) == input_word(values, s, 71),
        -32_767_000_000 <= s.grid.power_w@ <= 32_767_000_000 ==> match (
            input_word(values, s, 30),
            input_word(values, s, 71),
        ) {
            (Some(out), Some(inward)) => {
                &&& signed(out) == -signed(inward)
                &&& signed(inward) == fixed::toward_zero(s.grid.power_w@, 1_000_000)
            },
            _ => false,
        },
{
    lemma_words(values, s, 71);
}

/// Law: IR 30 and HR 400 show the grid power whether a meter is installed or not;
/// without one IR 60-89 show zero.
pub proof fn law_grid_power_needs_no_meter(
    values: Map<u32, u16>,
    s: PlantState,
    t: PlantState,
    a: int,
)
    requires
        s.grid.power_w@ == t.grid.power_w@,
        !s.config.ct_meter_installed,
    ensures
        input_word(values, s, 30) == input_word(values, t, 30),
        holding_word(values, s, 400) == holding_word(values, t, 400),
        60 <= a <= 89 ==> input_word(values, s, a) == Some(0u16),
{
    lemma_words(values, s, a);
    lemma_words(values, t, a);
}

} // verus!
