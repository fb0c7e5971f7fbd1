//! What tells the names of the registers apart: their lengths and a few characters.
use crate::projection;
use crate::projection::{ems, holding, internal, meter, native_input, three_phase};
use crate::registers::Definition;
use crate::state::PlantState;
use crate::text;
use vstd::prelude::*;

verus! {

/// The names of the first native input registers.
pub proof fn lemma_input_a_names()
    ensures
        "ge_ir_status"@.len() == 12,
        "ge_ir_status"@[0] == 'g',
        "ge_ir_status"@[3] == 'i',
        "ge_ir_status"@[4] == 'r',
        "ge_ir_pv1_voltage"@.len() == 17,
        "ge_ir_pv1_voltage"@[0] == 'g',
        "ge_ir_pv1_voltage"@[3] == 'i',
        "ge_ir_pv1_voltage"@[4] == 'r',
        "ge_ir_pv1_voltage"@[6] == 'p',
        "ge_ir_pv1_voltage"@[8] == '1',
        "ge_ir_pv1_voltage"@[12] == 'l',
        "ge_ir_pv2_voltage"@.len() == 17,
        "ge_ir_pv2_voltage"@[0] == 'g',
        "ge_ir_pv2_voltage"@[3] == 'i',
        "ge_ir_pv2_voltage"@[4] == 'r',
        "ge_ir_pv2_voltage"@[6] == 'p',
        "ge_ir_pv2_voltage"@[8] == '2',
        "ge_ir_pv2_voltage"@[12] == 'l',
        "ge_ir_p_bus_voltage"@.len() == 19,
        "ge_ir_p_bus_voltage"@[0] == 'g',
        "ge_ir_p_bus_voltage"@[3] == 'i',
        "ge_ir_p_bus_voltage"@[4] == 'r',
        "ge_ir_p_bus_voltage"@[6] == 'p',
        "ge_ir_p_bus_voltage"@[8] == 'b',
        "ge_ir_high_bus_voltage"@.len() == 22,
        "ge_ir_high_bus_voltage"@[0] == 'g',
        "ge_ir_high_bus_voltage"@[3] == 'i',
        "ge_ir_high_bus_voltage"@[4] == 'r',
        "ge_ir_high_bus_voltage"@[6] == 'h',
        "ge_ir_n_bus_voltage"@.len() == 19,
        "ge_ir_n_bus_voltage"@[0] == 'g',
        "ge_ir_n_bus_voltage"@[3] == 'i',
        "ge_ir_n_bus_voltage"@[4] == 'r',
        "ge_ir_n_bus_voltage"@[6] == 'n',
        "ge_ir_grid_voltage"@.len() == 18,
        "ge_ir_grid_voltage"@[0] == 'g',
        "ge_ir_grid_voltage"@[3] == 'i',
        "ge_ir_grid_voltage"@[4] == 'r',
        "ge_ir_grid_voltage"@[6] == 'g',
        "ge_ir_battery_throughput_high"@.len() == 29,
        "ge_ir_battery_throughput_high"@[0] == 'g',
        "ge_ir_battery_throughput_high"@[3] == 'i',
        "ge_ir_battery_throughput_high"@[4] == 'r',
        "ge_ir_battery_throughput_high"@[6] == 'b',
        "ge_ir_battery_throughput_low"@.len() == 28,
        "ge_ir_battery_throughput_low"@[0] == 'g',
        "ge_ir_battery_throughput_low"@[3] == 'i',
        "ge_ir_battery_throughput_low"@[4] == 'r',
        "ge_ir_battery_throughput_low"@[6] == 'b',
        "ge_ir_pv1_current"@.len() == 17,
        "ge_ir_pv1_current"@[0] == 'g',
        "ge_ir_pv1_current"@[3] == 'i',
        "ge_ir_pv1_current"@[4] == 'r',
        "ge_ir_pv1_current"@[6] == 'p',
        "ge_ir_pv1_current"@[8] == '1',
        "ge_ir_pv1_current"@[12] == 'r',
        "ge_ir_pv2_current"@.len() == 17,
        "ge_ir_pv2_current"@[0] == 'g',
        "ge_ir_pv2_current"@[3] == 'i',
        "ge_ir_pv2_current"@[4] == 'r',
        "ge_ir_pv2_current"@[6] == 'p',
        "ge_ir_pv2_current"@[8] == '2',
        "ge_ir_pv2_current"@[12] == 'r',
        "ge_ir_ac_current"@.len() == 16,
        "ge_ir_ac_current"@[0] == 'g',
        "ge_ir_ac_current"@[3] == 'i',
        "ge_ir_ac_current"@[4] == 'r',
        "ge_ir_ac_current"@[6] == 'a',
        "ge_ir_pv_total_high"@.len() == 19,
        "ge_ir_pv_total_high"@[0] == 'g',
        "ge_ir_pv_total_high"@[3] == 'i',
        "ge_ir_pv_total_high"@[4] == 'r',
        "ge_ir_pv_total_high"@[6] == 'p',
        "ge_ir_pv_total_high"@[8] == '_',
        "ge_ir_pv_total_low"@.len() == 18,
        "ge_ir_pv_total_low"@[0] == 'g',
        "ge_ir_pv_total_low"@[3] == 'i',
        "ge_ir_pv_total_low"@[4] == 'r',
        "ge_ir_pv_total_low"@[6] == 'p',
        "ge_ir_grid_frequency"@.len() == 20,
        "ge_ir_grid_frequency"@[0] == 'g',
        "ge_ir_grid_frequency"@[3] == 'i',
        "ge_ir_grid_frequency"@[4] == 'r',
        "ge_ir_grid_frequency"@[6] == 'g',
        "ge_ir_charge_status"@.len() == 19,
        "ge_ir_charge_status"@[0] == 'g',
        "ge_ir_charge_status"@[3] == 'i',
        "ge_ir_charge_status"@[4] == 'r',
        "ge_ir_charge_status"@[6] == 'c',
        "ge_ir_inverter_output_pf"@.len() == 24,
        "ge_ir_inverter_output_pf"@[0] == 'g',
        "ge_ir_inverter_output_pf"@[3] == 'i',
        "ge_ir_inverter_output_pf"@[4] == 'r',
        "ge_ir_inverter_output_pf"@[6] == 'i',
        "ge_ir_pv1_energy_today"@.len() == 22,
        "ge_ir_pv1_energy_today"@[0] == 'g',
        "ge_ir_pv1_energy_today"@[3] == 'i',
        "ge_ir_pv1_energy_today"@[4] == 'r',
        "ge_ir_pv1_energy_today"@[6] == 'p',
        "ge_ir_pv1_energy_today"@[8] == '1',
        "ge_ir_pv1_power"@.len() == 15,
        "ge_ir_pv1_power"@[0] == 'g',
        "ge_ir_pv1_power"@[3] == 'i',
        "ge_ir_pv1_power"@[4] == 'r',
        "ge_ir_pv1_power"@[6] == 'p',
        "ge_ir_pv1_power"@[8] == '1',
        "ge_ir_pv2_energy_today"@.len() == 22,
        "ge_ir_pv2_energy_today"@[0] == 'g',
        "ge_ir_pv2_energy_today"@[3] == 'i',
        "ge_ir_pv2_energy_today"@[4] == 'r',
        "ge_ir_pv2_energy_today"@[6] == 'p',
        "ge_ir_pv2_energy_today"@[8] == '2',
        "ge_ir_pv2_power"@.len() == 15,
        "ge_ir_pv2_power"@[0] == 'g',
        "ge_ir_pv2_power"@[3] == 'i',
        "ge_ir_pv2_power"@[4] == 'r',
        "ge_ir_pv2_power"@[6] == 'p',
        "ge_ir_pv2_power"@[8] == '2',
        "ge_ir_grid_export_total_high"@.len() == 28,
        "ge_ir_grid_export_total_high"@[0] == 'g',
        "ge_ir_grid_export_total_high"@[3] == 'i',
        "ge_ir_grid_export_total_high"@[4] == 'r',
        "ge_ir_grid_export_total_high"@[6] == 'g',
        "ge_ir_grid_export_total_high"@[12] == 'x',
        "ge_ir_grid_export_total_low"@.len() == 27,
        "ge_ir_grid_export_total_low"@[0] == 'g',
        "ge_ir_grid_export_total_low"@[3] == 'i',
        "ge_ir_grid_export_total_low"@[4] == 'r',
        "ge_ir_grid_export_total_low"@[6] == 'g',
        "ge_ir_grid_export_total_low"@[12] == 'x',
        "ge_ir_solar_diverter_energy"@.len() == 27,
        "ge_ir_solar_diverter_energy"@[0] == 'g',
        "ge_ir_solar_diverter_energy"@[3] == 'i',
        "ge_ir_solar_diverter_energy"@[4] == 'r',
        "ge_ir_solar_diverter_energy"@[6] == 's',
        "ge_ir_inverter_terminal_power"@.len() == 29,
        "ge_ir_inverter_terminal_power"@[0] == 'g',
        "ge_ir_inverter_terminal_power"@[3] == 'i',
        "ge_ir_inverter_terminal_power"@[4] == 'r',
        "ge_ir_inverter_terminal_power"@[6] == 'i',
        "ge_ir_today_export_energy"@.len() == 25,
        "ge_ir_today_export_energy"@[0] == 'g',
        "ge_ir_today_export_energy"@[3] == 'i',
        "ge_ir_today_export_energy"@[4] == 'r',
        "ge_ir_today_export_energy"@[6] == 't',
        "ge_ir_today_export_energy"@[12] == 'e',
        "ge_ir_today_import_energy"@.len() == 25,
        "ge_ir_today_import_energy"@[0] == 'g',
        "ge_ir_today_import_energy"@[3] == 'i',
        "ge_ir_today_import_energy"@[4] == 'r',
        "ge_ir_today_import_energy"@[6] == 't',
        "ge_ir_today_import_energy"@[12] == 'i',
        "ge_ir_inverter_input_total_high"@.len() == 31,
        "ge_ir_inverter_input_total_high"@[0] == 'g',
        "ge_ir_inverter_input_total_high"@[3] == 'i',
        "ge_ir_inverter_input_total_high"@[4] == 'r',
        "ge_ir_inverter_input_total_high"@[6] == 'i',
        "ge_ir_inverter_input_total_low"@.len() == 30,
        "ge_ir_inverter_input_total_low"@[0] == 'g',
        "ge_ir_inverter_input_total_low"@[3] == 'i',
        "ge_ir_inverter_input_total_low"@[4] == 'r',
        "ge_ir_inverter_input_total_low"@[6] == 'i',
        "ge_ir_discharge_year"@.len() == 20,
        "ge_ir_discharge_year"@[0] == 'g',
        "ge_ir_discharge_year"@[3] == 'i',
        "ge_ir_discharge_year"@[4] == 'r',
        "ge_ir_discharge_year"@[6] == 'd',
        "ge_ir_grid_power"@.len() == 16,
        "ge_ir_grid_power"@[0] == 'g',
        "ge_ir_grid_power"@[3] == 'i',
        "ge_ir_grid_power"@[4] == 'r',
        "ge_ir_grid_power"@[6] == 'g',
        "ge_ir_eps_backup_power"@.len() == 22,
        "ge_ir_eps_backup_power"@[0] == 'g',
        "ge_ir_eps_backup_power"@[3] == 'i',
        "ge_ir_eps_backup_power"@[4] == 'r',
        "ge_ir_eps_backup_power"@[6] == 'e',
{
    reveal_strlit("ge_ir_status");
    reveal_strlit("ge_ir_pv1_voltage");
    reveal_strlit("ge_ir_pv2_voltage");
    reveal_strlit("ge_ir_p_bus_voltage");
    reveal_strlit("ge_ir_high_bus_voltage");
    reveal_strlit("ge_ir_n_bus_voltage");
    reveal_strlit("ge_ir_grid_voltage");
    reveal_strlit("ge_ir_battery_throughput_high");
    reveal_strlit("ge_ir_battery_throughput_low");
    reveal_strlit("ge_ir_pv1_current");
    reveal_strlit("ge_ir_pv2_current");
    reveal_strlit("ge_ir_ac_current");
    reveal_strlit("ge_ir_pv_total_high");
    reveal_strlit("ge_ir_pv_total_low");
    reveal_strlit("ge_ir_grid_frequency");
    reveal_strlit("ge_ir_charge_status");
    reveal_strlit("ge_ir_inverter_output_pf");
    reveal_strlit("ge_ir_pv1_energy_today");
    reveal_strlit("ge_ir_pv1_power");
    reveal_strlit("ge_ir_pv2_energy_today");
    reveal_strlit("ge_ir_pv2_power");
    reveal_strlit("ge_ir_grid_export_total_high");
    reveal_strlit("ge_ir_grid_export_total_low");
    reveal_strlit("ge_ir_solar_diverter_energy");
    reveal_strlit("ge_ir_inverter_terminal_power");
    reveal_strlit("ge_ir_today_export_energy");
    reveal_strlit("ge_ir_today_import_energy");
    reveal_strlit("ge_ir_inverter_input_total_high");
    reveal_strlit("ge_ir_inverter_input_total_low");
    reveal_strlit("ge_ir_discharge_year");
    reveal_strlit("ge_ir_grid_power");
    reveal_strlit("ge_ir_eps_backup_power");
}

/// The names of the later native input registers.
pub proof fn lemma_input_b_names()
    ensures
        "ge_ir_grid_import_total_high"@.len() == 28,
        "ge_ir_grid_import_total_high"@[0] == 'g',
        "ge_ir_grid_import_total_high"@[3] == 'i',
        "ge_ir_grid_import_total_high"@[4] == 'r',
        "ge_ir_grid_import_total_high"@[6] == 'g',
        "ge_ir_grid_import_total_high"@[12] == 'm',
        "ge_ir_grid_import_total_low"@.len() == 27,
        "ge_ir_grid_import_total_low"@[0] == 'g',
        "ge_ir_grid_import_total_low"@[3] == 'i',
        "ge_ir_grid_import_total_low"@[4] == 'r',
        "ge_ir_grid_import_total_low"@[6] == 'g',
        "ge_ir_grid_import_total_low"@[12] == 'm',
        "ge_ir_ac_charge_today"@.len() == 21,
        "ge_ir_ac_charge_today"@[0] == 'g',
        "ge_ir_ac_charge_today"@[3] == 'i',
        "ge_ir_ac_charge_today"@[4] == 'r',
        "ge_ir_ac_charge_today"@[6] == 'a',
        "ge_ir_today_charge_energy"@.len() == 25,
        "ge_ir_today_charge_energy"@[0] == 'g',
        "ge_ir_today_charge_energy"@[3] == 'i',
        "ge_ir_today_charge_energy"@[4] == 'r',
        "ge_ir_today_charge_energy"@[6] == 't',
        "ge_ir_today_charge_energy"@[12] == 'c',
        "ge_ir_today_discharge_energy"@.len() == 28,
        "ge_ir_today_discharge_energy"@[0] == 'g',
        "ge_ir_today_discharge_energy"@[3] == 'i',
        "ge_ir_today_discharge_energy"@[4] == 'r',
        "ge_ir_today_discharge_energy"@[6] == 't',
        "ge_ir_countdown"@.len() == 15,
        "ge_ir_countdown"@[0] == 'g',
        "ge_ir_countdown"@[3] == 'i',
        "ge_ir_countdown"@[4] == 'r',
        "ge_ir_countdown"@[6] == 'c',
        "ge_ir_fault_code_high"@.len() == 21,
        "ge_ir_fault_code_high"@[0] == 'g',
        "ge_ir_fault_code_high"@[3] == 'i',
        "ge_ir_fault_code_high"@[4] == 'r',
        "ge_ir_fault_code_high"@[6] == 'f',
        "ge_ir_fault_code_low"@.len() == 20,
        "ge_ir_fault_code_low"@[0] == 'g',
        "ge_ir_fault_code_low"@[3] == 'i',
        "ge_ir_fault_code_low"@[4] == 'r',
        "ge_ir_fault_code_low"@[6] == 'f',
        "ge_ir_inverter_temperature"@.len() == 26,
        "ge_ir_inverter_temperature"@[0] == 'g',
        "ge_ir_inverter_temperature"@[3] == 'i',
        "ge_ir_inverter_temperature"@[4] == 'r',
        "ge_ir_inverter_temperature"@[6] == 'i',
        "ge_ir_charger_temperature"@.len() == 25,
        "ge_ir_charger_temperature"@[0] == 'g',
        "ge_ir_charger_temperature"@[3] == 'i',
        "ge_ir_charger_temperature"@[4] == 'r',
        "ge_ir_charger_temperature"@[6] == 'c',
        "ge_ir_load_demand"@.len() == 17,
        "ge_ir_load_demand"@[0] == 'g',
        "ge_ir_load_demand"@[3] == 'i',
        "ge_ir_load_demand"@[4] == 'r',
        "ge_ir_load_demand"@[6] == 'l',
        "ge_ir_grid_apparent"@.len() == 19,
        "ge_ir_grid_apparent"@[0] == 'g',
        "ge_ir_grid_apparent"@[3] == 'i',
        "ge_ir_grid_apparent"@[4] == 'r',
        "ge_ir_grid_apparent"@[6] == 'g',
        "ge_ir_pv_generation_today"@.len() == 25,
        "ge_ir_pv_generation_today"@[0] == 'g',
        "ge_ir_pv_generation_today"@[3] == 'i',
        "ge_ir_pv_generation_today"@[4] == 'r',
        "ge_ir_pv_generation_today"@[6] == 'p',
        "ge_ir_pv_generation_total_high"@.len() == 30,
        "ge_ir_pv_generation_total_high"@[0] == 'g',
        "ge_ir_pv_generation_total_high"@[3] == 'i',
        "ge_ir_pv_generation_total_high"@[4] == 'r',
        "ge_ir_pv_generation_total_high"@[6] == 'p',
        "ge_ir_pv_generation_total_low"@.len() == 29,
        "ge_ir_pv_generation_total_low"@[0] == 'g',
        "ge_ir_pv_generation_total_low"@[3] == 'i',
        "ge_ir_pv_generation_total_low"@[4] == 'r',
        "ge_ir_pv_generation_total_low"@[6] == 'p',
        "ge_ir_work_time_total_high"@.len() == 26,
        "ge_ir_work_time_total_high"@[0] == 'g',
        "ge_ir_work_time_total_high"@[3] == 'i',
        "ge_ir_work_time_total_high"@[4] == 'r',
        "ge_ir_work_time_total_high"@[6] == 'w',
        "ge_ir_work_time_total_low"@.len() == 25,
        "ge_ir_work_time_total_low"@[0] == 'g',
        "ge_ir_work_time_total_low"@[3] == 'i',
        "ge_ir_work_time_total_low"@[4] == 'r',
        "ge_ir_work_time_total_low"@[6] == 'w',
        "ge_ir_system_mode"@.len() == 17,
        "ge_ir_system_mode"@[0] == 'g',
        "ge_ir_system_mode"@[3] == 'i',
        "ge_ir_system_mode"@[4] == 'r',
        "ge_ir_system_mode"@[6] == 's',
        "ge_ir_battery_voltage"@.len() == 21,
        "ge_ir_battery_voltage"@[0] == 'g',
        "ge_ir_battery_voltage"@[3] == 'i',
        "ge_ir_battery_voltage"@[4] == 'r',
        "ge_ir_battery_voltage"@[6] == 'b',
        "ge_ir_battery_voltage"@[14] == 'v',
        "ge_ir_battery_current"@.len() == 21,
        "ge_ir_battery_current"@[0] == 'g',
        "ge_ir_battery_current"@[3] == 'i',
        "ge_ir_battery_current"@[4] == 'r',
        "ge_ir_battery_current"@[6] == 'b',
        "ge_ir_battery_current"@[14] == 'c',
        "ge_ir_battery_power"@.len() == 19,
        "ge_ir_battery_power"@[0] == 'g',
        "ge_ir_battery_power"@[3] == 'i',
        "ge_ir_battery_power"@[4] == 'r',
        "ge_ir_battery_power"@[6] == 'b',
        "ge_ir_eps_voltage"@.len() == 17,
        "ge_ir_eps_voltage"@[0] == 'g',
        "ge_ir_eps_voltage"@[3] == 'i',
        "ge_ir_eps_voltage"@[4] == 'r',
        "ge_ir_eps_voltage"@[6] == 'e',
        "ge_ir_eps_frequency"@.len() == 19,
        "ge_ir_eps_frequency"@[0] == 'g',
        "ge_ir_eps_frequency"@[3] == 'i',
        "ge_ir_eps_frequency"@[4] == 'r',
        "ge_ir_eps_frequency"@[6] == 'e',
        "ge_ir_battery_temperature"@.len() == 25,
        "ge_ir_battery_temperature"@[0] == 'g',
        "ge_ir_battery_temperature"@[3] == 'i',
        "ge_ir_battery_temperature"@[4] == 'r',
        "ge_ir_battery_temperature"@[6] == 'b',
        "ge_ir_charger_warning_code"@.len() == 26,
        "ge_ir_charger_warning_code"@[0] == 'g',
        "ge_ir_charger_warning_code"@[3] == 'i',
        "ge_ir_charger_warning_code"@[4] == 'r',
        "ge_ir_charger_warning_code"@[6] == 'c',
        "ge_ir_grid_port_current"@.len() == 23,
        "ge_ir_grid_port_current"@[0] == 'g',
        "ge_ir_grid_port_current"@[3] == 'i',
        "ge_ir_grid_port_current"@[4] == 'r',
        "ge_ir_battery_soc"@.len() == 17,
        "ge_ir_battery_soc"@[0] == 'g',
        "ge_ir_battery_soc"@[3] == 'i',
        "ge_ir_battery_soc"@[4] == 'r',
        "ge_ir_battery_soc"@[6] == 'b',
        "ge_ir_battery_discharge_total_alt1"@.len() == 34,
        "ge_ir_battery_discharge_total_alt1"@[0] == 'g',
        "ge_ir_battery_discharge_total_alt1"@[3] == 'i',
        "ge_ir_battery_discharge_total_alt1"@[4] == 'r',
        "ge_ir_battery_discharge_total_alt1"@[26] == 't',
        "ge_ir_battery_charge_total_alt1"@.len() == 31,
        "ge_ir_battery_charge_total_alt1"@[0] == 'g',
        "ge_ir_battery_charge_total_alt1"@[3] == 'i',
        "ge_ir_battery_charge_total_alt1"@[4] == 'r',
        "ge_ir_battery_charge_total_alt1"@[6] == 'b',
        "ge_ir_battery_charge_total_alt1"@[23] == 't',
        "ge_ir_battery_discharge_today_alt2"@.len() == 34,
        "ge_ir_battery_discharge_today_alt2"@[0] == 'g',
        "ge_ir_battery_discharge_today_alt2"@[3] == 'i',
        "ge_ir_battery_discharge_today_alt2"@[4] == 'r',
        "ge_ir_battery_discharge_today_alt2"@[26] == 'd',
        "ge_ir_battery_charge_today_alt2"@.len() == 31,
        "ge_ir_battery_charge_today_alt2"@[0] == 'g',
        "ge_ir_battery_charge_today_alt2"@[3] == 'i',
        "ge_ir_battery_charge_today_alt2"@[4] == 'r',
        "ge_ir_battery_charge_today_alt2"@[6] == 'b',
        "ge_ir_battery_charge_today_alt2"@[23] == 'd',
        "ge_ir_combined_generation_high"@.len() == 30,
        "ge_ir_combined_generation_high"@[0] == 'g',
        "ge_ir_combined_generation_high"@[3] == 'i',
        "ge_ir_combined_generation_high"@[4] == 'r',
        "ge_ir_combined_generation_high"@[6] == 'c',
        "ge_ir_combined_generation_low"@.len() == 29,
        "ge_ir_combined_generation_low"@[0] == 'g',
        "ge_ir_combined_generation_low"@[3] == 'i',
        "ge_ir_combined_generation_low"@[4] == 'r',
        "ge_ir_combined_generation_low"@[6] == 'c',
{
    reveal_strlit("ge_ir_grid_import_total_high");
    reveal_strlit("ge_ir_grid_import_total_low");
    reveal_strlit("ge_ir_ac_charge_today");
    reveal_strlit("ge_ir_today_charge_energy");
    reveal_strlit("ge_ir_today_discharge_energy");
    reveal_strlit("ge_ir_countdown");
    reveal_strlit("ge_ir_fault_code_high");
    reveal_strlit("ge_ir_fault_code_low");
    reveal_strlit("ge_ir_inverter_temperature");
    reveal_strlit("ge_ir_charger_temperature");
    reveal_strlit("ge_ir_load_demand");
    reveal_strlit("ge_ir_grid_apparent");
    reveal_strlit("ge_ir_pv_generation_today");
    reveal_strlit("ge_ir_pv_generation_total_high");
    reveal_strlit("ge_ir_pv_generation_total_low");
    reveal_strlit("ge_ir_work_time_total_high");
    reveal_strlit("ge_ir_work_time_total_low");
    reveal_strlit("ge_ir_system_mode");
    reveal_strlit("ge_ir_battery_voltage");
    reveal_strlit("ge_ir_battery_current");
    reveal_strlit("ge_ir_battery_power");
    reveal_strlit("ge_ir_eps_voltage");
    reveal_strlit("ge_ir_eps_frequency");
    reveal_strlit("ge_ir_battery_temperature");
    reveal_strlit("ge_ir_charger_warning_code");
    reveal_strlit("ge_ir_grid_port_current");
    reveal_strlit("ge_ir_battery_soc");
    reveal_strlit("ge_ir_battery_discharge_total_alt1");
    reveal_strlit("ge_ir_battery_charge_total_alt1");
    reveal_strlit("ge_ir_battery_discharge_today_alt2");
    reveal_strlit("ge_ir_battery_charge_today_alt2");
    reveal_strlit("ge_ir_combined_generation_high");
    reveal_strlit("ge_ir_combined_generation_low");
}

/// The names of the registers of the meter.
pub proof fn lemma_meter_names()
    ensures
        "meter_v_phase_1"@.len() == 15,
        "meter_v_phase_1"@[0] == 'm',
        "meter_v_phase_1"@[3] == 'e',
        "meter_v_phase_1"@[4] == 'r',
        "meter_v_phase_1"@[6] == 'v',
        "meter_v_phase_1"@[14] == '1',
        "meter_v_phase_2"@.len() == 15,
        "meter_v_phase_2"@[0] == 'm',
        "meter_v_phase_2"@[3] == 'e',
        "meter_v_phase_2"@[4] == 'r',
        "meter_v_phase_2"@[6] == 'v',
        "meter_v_phase_2"@[14] == '2',
        "meter_v_phase_3"@.len() == 15,
        "meter_v_phase_3"@[0] == 'm',
        "meter_v_phase_3"@[3] == 'e',
        "meter_v_phase_3"@[4] == 'r',
        "meter_v_phase_3"@[6] == 'v',
        "meter_v_phase_3"@[14] == '3',
        "meter_i_phase_1"@.len() == 15,
        "meter_i_phase_1"@[0] == 'm',
        "meter_i_phase_1"@[3] == 'e',
        "meter_i_phase_1"@[4] == 'r',
        "meter_i_phase_1"@[6] == 'i',
        "meter_i_phase_1"@[14] == '1',
        "meter_i_phase_2"@.len() == 15,
        "meter_i_phase_2"@[0] == 'm',
        "meter_i_phase_2"@[3] == 'e',
        "meter_i_phase_2"@[4] == 'r',
        "meter_i_phase_2"@[6] == 'i',
        "meter_i_phase_2"@[14] == '2',
        "meter_i_phase_3"@.len() == 15,
        "meter_i_phase_3"@[0] == 'm',
        "meter_i_phase_3"@[3] == 'e',
        "meter_i_phase_3"@[4] == 'r',
        "meter_i_phase_3"@[6] == 'i',
        "meter_i_phase_3"@[14] == '3',
        "meter_i_ln"@.len() == 10,
        "meter_i_ln"@[0] == 'm',
        "meter_i_ln"@[3] == 'e',
        "meter_i_ln"@[4] == 'r',
        "meter_i_total"@.len() == 13,
        "meter_i_total"@[0] == 'm',
        "meter_i_total"@[3] == 'e',
        "meter_i_total"@[4] == 'r',
        "meter_p_active_phase_1"@.len() == 22,
        "meter_p_active_phase_1"@[0] == 'm',
        "meter_p_active_phase_1"@[3] == 'e',
        "meter_p_active_phase_1"@[4] == 'r',
        "meter_p_active_phase_1"@[8] == 'a',
        "meter_p_active_phase_1"@[14] == '_',
        "meter_p_active_phase_1"@[21] == '1',
        "meter_p_active_phase_2"@.len() == 22,
        "meter_p_active_phase_2"@[0] == 'm',
        "meter_p_active_phase_2"@[3] == 'e',
        "meter_p_active_phase_2"@[4] == 'r',
        "meter_p_active_phase_2"@[8] == 'a',
        "meter_p_active_phase_2"@[14] == '_',
        "meter_p_active_phase_2"@[21] == '2',
        "meter_p_active_phase_3"@.len() == 22,
        "meter_p_active_phase_3"@[0] == 'm',
        "meter_p_active_phase_3"@[3] == 'e',
        "meter_p_active_phase_3"@[4] == 'r',
        "meter_p_active_phase_3"@[8] == 'a',
        "meter_p_active_phase_3"@[14] == '_',
        "meter_p_active_phase_3"@[21] == '3',
        "meter_p_active_total"@.len() == 20,
        "meter_p_active_total"@[0] == 'm',
        "meter_p_active_total"@[3] == 'e',
        "meter_p_active_total"@[4] == 'r',
        "meter_p_reactive_phase_1"@.len() == 24,
        "meter_p_reactive_phase_1"@[0] == 'm',
        "meter_p_reactive_phase_1"@[3] == 'e',
        "meter_p_reactive_phase_1"@[4] == 'r',
        "meter_p_reactive_phase_1"@[8] == 'r',
        "meter_p_reactive_phase_1"@[23] == '1',
        "meter_p_reactive_phase_2"@.len() == 24,
        "meter_p_reactive_phase_2"@[0] == 'm',
        "meter_p_reactive_phase_2"@[3] == 'e',
        "meter_p_reactive_phase_2"@[4] == 'r',
        "meter_p_reactive_phase_2"@[8] == 'r',
        "meter_p_reactive_phase_2"@[23] == '2',
        "meter_p_reactive_phase_3"@.len() == 24,
        "meter_p_reactive_phase_3"@[0] == 'm',
        "meter_p_reactive_phase_3"@[3] == 'e',
        "meter_p_reactive_phase_3"@[4] == 'r',
        "meter_p_reactive_phase_3"@[8] == 'r',
        "meter_p_reactive_phase_3"@[23] == '3',
        "meter_p_reactive_total"@.len() == 22,
        "meter_p_reactive_total"@[0] == 'm',
        "meter_p_reactive_total"@[3] == 'e',
        "meter_p_reactive_total"@[4] == 'r',
        "meter_p_reactive_total"@[8] == 'r',
        "meter_p_apparent_phase_1"@.len() == 24,
        "meter_p_apparent_phase_1"@[0] == 'm',
        "meter_p_apparent_phase_1"@[3] == 'e',
        "meter_p_apparent_phase_1"@[4] == 'r',
        "meter_p_apparent_phase_1"@[8] == 'a',
        "meter_p_apparent_phase_1"@[23] == '1',
        "meter_p_apparent_phase_2"@.len() == 24,
        "meter_p_apparent_phase_2"@[0] == 'm',
        "meter_p_apparent_phase_2"@[3] == 'e',
        "meter_p_apparent_phase_2"@[4] == 'r',
        "meter_p_apparent_phase_2"@[8] == 'a',
        "meter_p_apparent_phase_2"@[23] == '2',
        "meter_p_apparent_phase_3"@.len() == 24,
        "meter_p_apparent_phase_3"@[0] == 'm',
        "meter_p_apparent_phase_3"@[3] == 'e',
        "meter_p_apparent_phase_3"@[4] == 'r',
        "meter_p_apparent_phase_3"@[8] == 'a',
        "meter_p_apparent_phase_3"@[23] == '3',
        "meter_p_apparent_total"@.len() == 22,
        "meter_p_apparent_total"@[0] == 'm',
        "meter_p_apparent_total"@[3] == 'e',
        "meter_p_apparent_total"@[4] == 'r',
        "meter_p_apparent_total"@[8] == 'a',
        "meter_p_apparent_total"@[14] == 'n',
        "meter_pf_phase_1"@.len() == 16,
        "meter_pf_phase_1"@[0] == 'm',
        "meter_pf_phase_1"@[3] == 'e',
        "meter_pf_phase_1"@[4] == 'r',
        "meter_pf_phase_1"@[15] == '1',
        "meter_pf_total"@.len() == 14,
        "meter_pf_total"@[0] == 'm',
        "meter_pf_total"@[3] == 'e',
        "meter_pf_total"@[4] == 'r',
        "meter_pf_total"@[6] == 'p',
        "meter_pf_phase_2"@.len() == 16,
        "meter_pf_phase_2"@[0] == 'm',
        "meter_pf_phase_2"@[3] == 'e',
        "meter_pf_phase_2"@[4] == 'r',
        "meter_pf_phase_2"@[15] == '2',
        "meter_pf_phase_3"@.len() == 16,
        "meter_pf_phase_3"@[0] == 'm',
        "meter_pf_phase_3"@[3] == 'e',
        "meter_pf_phase_3"@[4] == 'r',
        "meter_pf_phase_3"@[15] == '3',
        "meter_frequency"@.len() == 15,
        "meter_frequency"@[0] == 'm',
        "meter_frequency"@[3] == 'e',
        "meter_frequency"@[4] == 'r',
        "meter_frequency"@[6] == 'f',
        "meter_e_import_active"@.len() == 21,
        "meter_e_import_active"@[0] == 'm',
        "meter_e_import_active"@[3] == 'e',
        "meter_e_import_active"@[4] == 'r',
        "meter_e_import_active"@[8] == 'i',
        "meter_e_import_reactive"@.len() == 23,
        "meter_e_import_reactive"@[0] == 'm',
        "meter_e_import_reactive"@[3] == 'e',
        "meter_e_import_reactive"@[4] == 'r',
        "meter_e_import_reactive"@[8] == 'i',
        "meter_e_export_reactive"@.len() == 23,
        "meter_e_export_reactive"@[0] == 'm',
        "meter_e_export_reactive"@[3] == 'e',
        "meter_e_export_reactive"@[4] == 'r',
        "meter_e_export_reactive"@[8] == 'e',
        "meter_reserved"@.len() == 14,
        "meter_reserved"@[0] == 'm',
        "meter_reserved"@[3] == 'e',
        "meter_reserved"@[4] == 'r',
        "meter_reserved"@[6] == 'r',
        "meter_e_export_active"@.len() == 21,
        "meter_e_export_active"@[0] == 'm',
        "meter_e_export_active"@[3] == 'e',
        "meter_e_export_active"@[4] == 'r',
        "meter_e_export_active"@[8] == 'e',
{
    reveal_strlit("meter_v_phase_1");
    reveal_strlit("meter_v_phase_2");
    reveal_strlit("meter_v_phase_3");
    reveal_strlit("meter_i_phase_1");
    reveal_strlit("meter_i_phase_2");
    reveal_strlit("meter_i_phase_3");
    reveal_strlit("meter_i_ln");
    reveal_strlit("meter_i_total");
    reveal_strlit("meter_p_active_phase_1");
    reveal_strlit("meter_p_active_phase_2");
    reveal_strlit("meter_p_active_phase_3");
    reveal_strlit("meter_p_active_total");
    reveal_strlit("meter_p_reactive_phase_1");
    reveal_strlit("meter_p_reactive_phase_2");
    reveal_strlit("meter_p_reactive_phase_3");
    reveal_strlit("meter_p_reactive_total");
    reveal_strlit("meter_p_apparent_phase_1");
    reveal_strlit("meter_p_apparent_phase_2");
    reveal_strlit("meter_p_apparent_phase_3");
    reveal_strlit("meter_p_apparent_total");
    reveal_strlit("meter_pf_phase_1");
    reveal_strlit("meter_pf_total");
    reveal_strlit("meter_pf_phase_2");
    reveal_strlit("meter_pf_phase_3");
    reveal_strlit("meter_frequency");
    reveal_strlit("meter_e_import_active");
    reveal_strlit("meter_e_import_reactive");
    reveal_strlit("meter_e_export_reactive");
    reveal_strlit("meter_reserved");
    reveal_strlit("meter_e_export_active");
}

/// The names of the first native holding registers.
pub proof fn lemma_holding_a_names()
    ensures
        "ge_hr_device_type"@.len() == 17,
        "ge_hr_device_type"@[0] == 'g',
        "ge_hr_device_type"@[3] == 'h',
        "ge_hr_device_type"@[4] == 'r',
        "ge_hr_device_type"@[6] == 'd',
        "ge_hr_module_high"@.len() == 17,
        "ge_hr_module_high"@[0] == 'g',
        "ge_hr_module_high"@[3] == 'h',
        "ge_hr_module_high"@[4] == 'r',
        "ge_hr_module_high"@[6] == 'm',
        "ge_hr_module_low"@.len() == 16,
        "ge_hr_module_low"@[0] == 'g',
        "ge_hr_module_low"@[3] == 'h',
        "ge_hr_module_low"@[4] == 'r',
        "ge_hr_module_low"@[6] == 'm',
        "ge_hr_module_low"@[10] == 'l',
        "ge_hr_mppt_phase_count"@.len() == 22,
        "ge_hr_mppt_phase_count"@[0] == 'g',
        "ge_hr_mppt_phase_count"@[3] == 'h',
        "ge_hr_mppt_phase_count"@[4] == 'r',
        "ge_hr_mppt_phase_count"@[6] == 'm',
        "ge_hr_enable_ammeter"@.len() == 20,
        "ge_hr_enable_ammeter"@[0] == 'g',
        "ge_hr_enable_ammeter"@[3] == 'h',
        "ge_hr_enable_ammeter"@[4] == 'r',
        "ge_hr_enable_ammeter"@[6] == 'e',
        "ge_hr_first_battery_serial_0"@.len() == 28,
        "ge_hr_first_battery_serial_0"@[0] == 'g',
        "ge_hr_first_battery_serial_0"@[3] == 'h',
        "ge_hr_first_battery_serial_0"@[4] == 'r',
        "ge_hr_first_battery_serial_0"@[6] == 'f',
        "ge_hr_first_battery_serial_0"@[27] == '0',
        "ge_hr_first_battery_serial_1"@.len() == 28,
        "ge_hr_first_battery_serial_1"@[0] == 'g',
        "ge_hr_first_battery_serial_1"@[3] == 'h',
        "ge_hr_first_battery_serial_1"@[4] == 'r',
        "ge_hr_first_battery_serial_1"@[6] == 'f',
        "ge_hr_first_battery_serial_1"@[27] == '1',
        "ge_hr_first_battery_serial_2"@.len() == 28,
        "ge_hr_first_battery_serial_2"@[0] == 'g',
        "ge_hr_first_battery_serial_2"@[3] == 'h',
        "ge_hr_first_battery_serial_2"@[4] == 'r',
        "ge_hr_first_battery_serial_2"@[6] == 'f',
        "ge_hr_first_battery_serial_2"@[27] == '2',
        "ge_hr_first_battery_serial_3"@.len() == 28,
        "ge_hr_first_battery_serial_3"@[0] == 'g',
        "ge_hr_first_battery_serial_3"@[3] == 'h',
        "ge_hr_first_battery_serial_3"@[4] == 'r',
        "ge_hr_first_battery_serial_3"@[6] == 'f',
        "ge_hr_first_battery_serial_3"@[27] == '3',
        "ge_hr_first_battery_serial_4"@.len() == 28,
        "ge_hr_first_battery_serial_4"@[0] == 'g',
        "ge_hr_first_battery_serial_4"@[3] == 'h',
        "ge_hr_first_battery_serial_4"@[4] == 'r',
        "ge_hr_first_battery_serial_4"@[6] == 'f',
        "ge_hr_first_battery_serial_4"@[27] == '4',
        "ge_hr_serial_0"@.len() == 14,
        "ge_hr_serial_0"@[0] == 'g',
        "ge_hr_serial_0"@[3] == 'h',
        "ge_hr_serial_0"@[4] == 'r',
        "ge_hr_serial_0"@[13] == '0',
        "ge_hr_serial_1"@.len() == 14,
        "ge_hr_serial_1"@[0] == 'g',
        "ge_hr_serial_1"@[3] == 'h',
        "ge_hr_serial_1"@[4] == 'r',
        "ge_hr_serial_1"@[13] == '1',
        "ge_hr_serial_2"@.len() == 14,
        "ge_hr_serial_2"@[0] == 'g',
        "ge_hr_serial_2"@[3] == 'h',
        "ge_hr_serial_2"@[4] == 'r',
        "ge_hr_serial_2"@[13] == '2',
        "ge_hr_serial_3"@.len() == 14,
        "ge_hr_serial_3"@[0] == 'g',
        "ge_hr_serial_3"@[3] == 'h',
        "ge_hr_serial_3"@[4] == 'r',
        "ge_hr_serial_3"@[13] == '3',
        "ge_hr_serial_4"@.len() == 14,
        "ge_hr_serial_4"@[0] == 'g',
        "ge_hr_serial_4"@[3] == 'h',
        "ge_hr_serial_4"@[4] == 'r',
        "ge_hr_serial_4"@[13] == '4',
        "ge_hr_first_battery_bms_firmware"@.len() == 32,
        "ge_hr_first_battery_bms_firmware"@[0] == 'g',
        "ge_hr_first_battery_bms_firmware"@[3] == 'h',
        "ge_hr_first_battery_bms_firmware"@[4] == 'r',
        "ge_hr_first_battery_bms_firmware"@[6] == 'f',
        "ge_hr_dsp_firmware"@.len() == 18,
        "ge_hr_dsp_firmware"@[0] == 'g',
        "ge_hr_dsp_firmware"@[3] == 'h',
        "ge_hr_dsp_firmware"@[4] == 'r',
        "ge_hr_dsp_firmware"@[6] == 'd',
        "ge_hr_arm_firmware"@.len() == 18,
        "ge_hr_arm_firmware"@[0] == 'g',
        "ge_hr_arm_firmware"@[3] == 'h',
        "ge_hr_arm_firmware"@[4] == 'r',
        "ge_hr_arm_firmware"@[6] == 'a',
        "ge_hr_usb_device_inserted"@.len() == 25,
        "ge_hr_usb_device_inserted"@[0] == 'g',
        "ge_hr_usb_device_inserted"@[3] == 'h',
        "ge_hr_usb_device_inserted"@[4] == 'r',
        "ge_hr_usb_device_inserted"@[6] == 'u',
        "ge_hr_select_arm_chip"@.len() == 21,
        "ge_hr_select_arm_chip"@[0] == 'g',
        "ge_hr_select_arm_chip"@[3] == 'h',
        "ge_hr_select_arm_chip"@[4] == 'r',
        "ge_hr_select_arm_chip"@[6] == 's',
        "ge_hr_select_arm_chip"@[10] == 'c',
        "ge_hr_variable_address"@.len() == 22,
        "ge_hr_variable_address"@[0] == 'g',
        "ge_hr_variable_address"@[3] == 'h',
        "ge_hr_variable_address"@[4] == 'r',
        "ge_hr_variable_address"@[6] == 'v',
        "ge_hr_variable_value"@.len() == 20,
        "ge_hr_variable_value"@[0] == 'g',
        "ge_hr_variable_value"@[3] == 'h',
        "ge_hr_variable_value"@[4] == 'r',
        "ge_hr_variable_value"@[6] == 'v',
        "ge_hr_grid_port_max_power_output"@.len() == 32,
        "ge_hr_grid_port_max_power_output"@[0] == 'g',
        "ge_hr_grid_port_max_power_output"@[3] == 'h',
        "ge_hr_grid_port_max_power_output"@[4] == 'r',
        "ge_hr_grid_port_max_power_output"@[6] == 'g',
        "ge_hr_battery_calibration_stage"@.len() == 31,
        "ge_hr_battery_calibration_stage"@[0] == 'g',
        "ge_hr_battery_calibration_stage"@[3] == 'h',
        "ge_hr_battery_calibration_stage"@[4] == 'r',
        "ge_hr_battery_calibration_stage"@[6] == 'b',
        "ge_hr_battery_calibration_stage"@[18] == 'b',
        "ge_hr_enable_charge_target"@.len() == 26,
        "ge_hr_enable_charge_target"@[0] == 'g',
        "ge_hr_enable_charge_target"@[3] == 'h',
        "ge_hr_enable_charge_target"@[4] == 'r',
        "ge_hr_enable_charge_target"@[6] == 'e',
        "ge_hr_enable_charge_target"@[13] == 'c',
        "ge_hr_battery_power_mode"@.len() == 24,
        "ge_hr_battery_power_mode"@[0] == 'g',
        "ge_hr_battery_power_mode"@[3] == 'h',
        "ge_hr_battery_power_mode"@[4] == 'r',
        "ge_hr_battery_power_mode"@[6] == 'b',
        "ge_hr_battery_power_mode"@[18] == 'r',
        "ge_hr_enable_60hz_freq_mode"@.len() == 27,
        "ge_hr_enable_60hz_freq_mode"@[0] == 'g',
        "ge_hr_enable_60hz_freq_mode"@[3] == 'h',
        "ge_hr_enable_60hz_freq_mode"@[4] == 'r',
        "ge_hr_enable_60hz_freq_mode"@[6] == 'e',
        "ge_hr_enable_60hz_freq_mode"@[13] == '6',
        "ge_hr_modbus_address"@.len() == 20,
        "ge_hr_modbus_address"@[0] == 'g',
        "ge_hr_modbus_address"@[3] == 'h',
        "ge_hr_modbus_address"@[4] == 'r',
        "ge_hr_modbus_address"@[6] == 'm',
        "ge_hr_modbus_address"@[13] == 'a',
        "ge_hr_charge_slot_2_start"@.len() == 25,
        "ge_hr_charge_slot_2_start"@[0] == 'g',
        "ge_hr_charge_slot_2_start"@[3] == 'h',
        "ge_hr_charge_slot_2_start"@[4] == 'r',
        "ge_hr_charge_slot_2_start"@[6] == 'c',
        "ge_hr_charge_slot_2_start"@[18] == '2',
        "ge_hr_charge_slot_2_end"@.len() == 23,
        "ge_hr_charge_slot_2_end"@[0] == 'g',
        "ge_hr_charge_slot_2_end"@[3] == 'h',
        "ge_hr_charge_slot_2_end"@[4] == 'r',
        "ge_hr_charge_slot_2_end"@[6] == 'c',
        "ge_hr_charge_slot_2_end"@[13] == 's',
        "ge_hr_charge_slot_2_end"@[18] == '2',
        "ge_hr_system_time_year"@.len() == 22,
        "ge_hr_system_time_year"@[0] == 'g',
        "ge_hr_system_time_year"@[3] == 'h',
        "ge_hr_system_time_year"@[4] == 'r',
        "ge_hr_system_time_year"@[6] == 's',
        "ge_hr_system_time_year"@[18] == 'y',
        "ge_hr_system_time_month"@.len() == 23,
        "ge_hr_system_time_month"@[0] == 'g',
        "ge_hr_system_time_month"@[3] == 'h',
        "ge_hr_system_time_month"@[4] == 'r',
        "ge_hr_system_time_month"@[6] == 's',
        "ge_hr_system_time_day"@.len() == 21,
        "ge_hr_system_time_day"@[0] == 'g',
        "ge_hr_system_time_day"@[3] == 'h',
        "ge_hr_system_time_day"@[4] == 'r',
        "ge_hr_system_time_day"@[6] == 's',
        "ge_hr_system_time_day"@[10] == 'e',
        "ge_hr_system_time_hour"@.len() == 22,
        "ge_hr_system_time_hour"@[0] == 'g',
        "ge_hr_system_time_hour"@[3] == 'h',
        "ge_hr_system_time_hour"@[4] == 'r',
        "ge_hr_system_time_hour"@[6] == 's',
        "ge_hr_system_time_hour"@[18] == 'h',
        "ge_hr_system_time_minute"@.len() == 24,
        "ge_hr_system_time_minute"@[0] == 'g',
        "ge_hr_system_time_minute"@[3] == 'h',
        "ge_hr_system_time_minute"@[4] == 'r',
        "ge_hr_system_time_minute"@[6] == 's',
        "ge_hr_system_time_minute"@[18] == 'm',
        "ge_hr_system_time_second"@.len() == 24,
        "ge_hr_system_time_second"@[0] == 'g',
        "ge_hr_system_time_second"@[3] == 'h',
        "ge_hr_system_time_second"@[4] == 'r',
        "ge_hr_system_time_second"@[6] == 's',
        "ge_hr_system_time_second"@[18] == 's',
        "ge_hr_user_code"@.len() == 15,
        "ge_hr_user_code"@[0] == 'g',
        "ge_hr_user_code"@[3] == 'h',
        "ge_hr_user_code"@[4] == 'r',
        "ge_hr_modbus_version"@.len() == 20,
        "ge_hr_modbus_version"@[0] == 'g',
        "ge_hr_modbus_version"@[3] == 'h',
        "ge_hr_modbus_version"@[4] == 'r',
        "ge_hr_modbus_version"@[6] == 'm',
        "ge_hr_modbus_version"@[13] == 'v',
        "ge_hr_enable_drm_rj45_port"@.len() == 26,
        "ge_hr_enable_drm_rj45_port"@[0] == 'g',
        "ge_hr_enable_drm_rj45_port"@[3] == 'h',
        "ge_hr_enable_drm_rj45_port"@[4] == 'r',
        "ge_hr_enable_drm_rj45_port"@[6] == 'e',
        "ge_hr_enable_drm_rj45_port"@[13] == 'd',
        "ge_hr_enable_reversed_ct_clamp"@.len() == 30,
        "ge_hr_enable_reversed_ct_clamp"@[0] == 'g',
        "ge_hr_enable_reversed_ct_clamp"@[3] == 'h',
        "ge_hr_enable_reversed_ct_clamp"@[4] == 'r',
        "ge_hr_enable_reversed_ct_clamp"@[6] == 'e',
        "ge_hr_enable_reversed_ct_clamp"@[13] == 'r',
        "ge_hr_charge_discharge_soc"@.len() == 26,
        "ge_hr_charge_discharge_soc"@[0] == 'g',
        "ge_hr_charge_discharge_soc"@[3] == 'h',
        "ge_hr_charge_discharge_soc"@[4] == 'r',
        "ge_hr_charge_discharge_soc"@[6] == 'c',
        "ge_hr_discharge_slot_2_start"@.len() == 28,
        "ge_hr_discharge_slot_2_start"@[0] == 'g',
        "ge_hr_discharge_slot_2_start"@[3] == 'h',
        "ge_hr_discharge_slot_2_start"@[4] == 'r',
        "ge_hr_discharge_slot_2_start"@[6] == 'd',
        "ge_hr_discharge_slot_2_start"@[21] == '2',
        "ge_hr_discharge_slot_2_end"@.len() == 26,
        "ge_hr_discharge_slot_2_end"@[0] == 'g',
        "ge_hr_discharge_slot_2_end"@[3] == 'h',
        "ge_hr_discharge_slot_2_end"@[4] == 'r',
        "ge_hr_discharge_slot_2_end"@[6] == 'd',
        "ge_hr_discharge_slot_2_end"@[18] == 'o',
        "ge_hr_discharge_slot_2_end"@[21] == '2',
        "ge_hr_bms_firmware_version"@.len() == 26,
        "ge_hr_bms_firmware_version"@[0] == 'g',
        "ge_hr_bms_firmware_version"@[3] == 'h',
        "ge_hr_bms_firmware_version"@[4] == 'r',
        "ge_hr_bms_firmware_version"@[6] == 'b',
        "ge_hr_bms_firmware_version"@[10] == 'f',
        "ge_hr_meter_type"@.len() == 16,
        "ge_hr_meter_type"@[0] == 'g',
        "ge_hr_meter_type"@[3] == 'h',
        "ge_hr_meter_type"@[4] == 'r',
        "ge_hr_meter_type"@[6] == 'm',
        "ge_hr_meter_type"@[10] == 'r',
        "ge_hr_enable_reversed_115_meter"@.len() == 31,
        "ge_hr_enable_reversed_115_meter"@[0] == 'g',
        "ge_hr_enable_reversed_115_meter"@[3] == 'h',
        "ge_hr_enable_reversed_115_meter"@[4] == 'r',
        "ge_hr_enable_reversed_115_meter"@[6] == 'e',
        "ge_hr_enable_reversed_115_meter"@[13] == 'r',
        "ge_hr_enable_reversed_115_meter"@[22] == '1',
        "ge_hr_enable_reversed_418_meter"@.len() == 31,
        "ge_hr_enable_reversed_418_meter"@[0] == 'g',
        "ge_hr_enable_reversed_418_meter"@[3] == 'h',
        "ge_hr_enable_reversed_418_meter"@[4] == 'r',
        "ge_hr_enable_reversed_418_meter"@[6] == 'e',
        "ge_hr_enable_reversed_418_meter"@[13] == 'r',
        "ge_hr_enable_reversed_418_meter"@[22] == '4',
        "ge_hr_active_power_rate"@.len() == 23,
        "ge_hr_active_power_rate"@[0] == 'g',
        "ge_hr_active_power_rate"@[3] == 'h',
        "ge_hr_active_power_rate"@[4] == 'r',
        "ge_hr_active_power_rate"@[6] == 'a',
        "ge_hr_reactive_power_rate"@.len() == 25,
        "ge_hr_reactive_power_rate"@[0] == 'g',
        "ge_hr_reactive_power_rate"@[3] == 'h',
        "ge_hr_reactive_power_rate"@[4] == 'r',
        "ge_hr_reactive_power_rate"@[6] == 'r',
        "ge_hr_power_factor"@.len() == 18,
        "ge_hr_power_factor"@[0] == 'g',
        "ge_hr_power_factor"@[3] == 'h',
        "ge_hr_power_factor"@[4] == 'r',
        "ge_hr_power_factor"@[6] == 'p',
        "ge_hr_enable_inverter_flags"@.len() == 27,
        "ge_hr_enable_inverter_flags"@[0] == 'g',
        "ge_hr_enable_inverter_flags"@[3] == 'h',
        "ge_hr_enable_inverter_flags"@[4] == 'r',
        "ge_hr_enable_inverter_flags"@[6] == 'e',
        "ge_hr_enable_inverter_flags"@[13] == 'i',
        "ge_hr_battery_type"@.len() == 18,
        "ge_hr_battery_type"@[0] == 'g',
        "ge_hr_battery_type"@[3] == 'h',
        "ge_hr_battery_type"@[4] == 'r',
        "ge_hr_battery_type"@[6] == 'b',
{
    reveal_strlit("ge_hr_device_type");
    reveal_strlit("ge_hr_module_high");
    reveal_strlit("ge_hr_module_low");
    reveal_strlit("ge_hr_mppt_phase_count");
    reveal_strlit("ge_hr_enable_ammeter");
    reveal_strlit("ge_hr_first_battery_serial_0");
    reveal_strlit("ge_hr_first_battery_serial_1");
    reveal_strlit("ge_hr_first_battery_serial_2");
    reveal_strlit("ge_hr_first_battery_serial_3");
    reveal_strlit("ge_hr_first_battery_serial_4");
    reveal_strlit("ge_hr_serial_0");
    reveal_strlit("ge_hr_serial_1");
    reveal_strlit("ge_hr_serial_2");
    reveal_strlit("ge_hr_serial_3");
    reveal_strlit("ge_hr_serial_4");
    reveal_strlit("ge_hr_first_battery_bms_firmware");
    reveal_strlit("ge_hr_dsp_firmware");
    reveal_strlit("ge_hr_arm_firmware");
    reveal_strlit("ge_hr_usb_device_inserted");
    reveal_strlit("ge_hr_select_arm_chip");
    reveal_strlit("ge_hr_variable_address");
    reveal_strlit("ge_hr_variable_value");
    reveal_strlit("ge_hr_grid_port_max_power_output");
    reveal_strlit("ge_hr_battery_calibration_stage");
    reveal_strlit("ge_hr_enable_charge_target");
    reveal_strlit("ge_hr_battery_power_mode");
    reveal_strlit("ge_hr_enable_60hz_freq_mode");
    reveal_strlit("ge_hr_modbus_address");
    reveal_strlit("ge_hr_charge_slot_2_start");
    reveal_strlit("ge_hr_charge_slot_2_end");
    reveal_strlit("ge_hr_system_time_year");
    reveal_strlit("ge_hr_system_time_month");
    reveal_strlit("ge_hr_system_time_day");
    reveal_strlit("ge_hr_system_time_hour");
    reveal_strlit("ge_hr_system_time_minute");
    reveal_strlit("ge_hr_system_time_second");
    reveal_strlit("ge_hr_user_code");
    reveal_strlit("ge_hr_modbus_version");
    reveal_strlit("ge_hr_enable_drm_rj45_port");
    reveal_strlit("ge_hr_enable_reversed_ct_clamp");
    reveal_strlit("ge_hr_charge_discharge_soc");
    reveal_strlit("ge_hr_discharge_slot_2_start");
    reveal_strlit("ge_hr_discharge_slot_2_end");
    reveal_strlit("ge_hr_bms_firmware_version");
    reveal_strlit("ge_hr_meter_type");
    reveal_strlit("ge_hr_enable_reversed_115_meter");
    reveal_strlit("ge_hr_enable_reversed_418_meter");
    reveal_strlit("ge_hr_active_power_rate");
    reveal_strlit("ge_hr_reactive_power_rate");
    reveal_strlit("ge_hr_power_factor");
    reveal_strlit("ge_hr_enable_inverter_flags");
    reveal_strlit("ge_hr_battery_type");
}

/// The names of the later native holding registers.
pub proof fn lemma_holding_b_names()
    ensures
        "ge_hr_battery_capacity_ah"@.len() == 25,
        "ge_hr_battery_capacity_ah"@[0] == 'g',
        "ge_hr_battery_capacity_ah"@[3] == 'h',
        "ge_hr_battery_capacity_ah"@[4] == 'r',
        "ge_hr_battery_capacity_ah"@[6] == 'b',
        "ge_hr_battery_capacity_ah"@[18] == 'c',
        "ge_hr_discharge_slot_1_start"@.len() == 28,
        "ge_hr_discharge_slot_1_start"@[0] == 'g',
        "ge_hr_discharge_slot_1_start"@[3] == 'h',
        "ge_hr_discharge_slot_1_start"@[4] == 'r',
        "ge_hr_discharge_slot_1_start"@[6] == 'd',
        "ge_hr_discharge_slot_1_start"@[21] == '1',
        "ge_hr_discharge_slot_1_end"@.len() == 26,
        "ge_hr_discharge_slot_1_end"@[0] == 'g',
        "ge_hr_discharge_slot_1_end"@[3] == 'h',
        "ge_hr_discharge_slot_1_end"@[4] == 'r',
        "ge_hr_discharge_slot_1_end"@[6] == 'd',
        "ge_hr_discharge_slot_1_end"@[18] == 'o',
        "ge_hr_discharge_slot_1_end"@[21] == '1',
        "ge_hr_enable_auto_judge_battery_type"@.len() == 36,
        "ge_hr_enable_auto_judge_battery_type"@[0] == 'g',
        "ge_hr_enable_auto_judge_battery_type"@[3] == 'h',
        "ge_hr_enable_auto_judge_battery_type"@[4] == 'r',
        "ge_hr_enable_auto_judge_battery_type"@[6] == 'e',
        "ge_hr_enable_discharge"@.len() == 22,
        "ge_hr_enable_discharge"@[0] == 'g',
        "ge_hr_enable_discharge"@[3] == 'h',
        "ge_hr_enable_discharge"@[4] == 'r',
        "ge_hr_enable_discharge"@[6] == 'e',
        "ge_hr_pv_start_voltage"@.len() == 22,
        "ge_hr_pv_start_voltage"@[0] == 'g',
        "ge_hr_pv_start_voltage"@[3] == 'h',
        "ge_hr_pv_start_voltage"@[4] == 'r',
        "ge_hr_pv_start_voltage"@[6] == 'p',
        "ge_hr_start_countdown_timer"@.len() == 27,
        "ge_hr_start_countdown_timer"@[0] == 'g',
        "ge_hr_start_countdown_timer"@[3] == 'h',
        "ge_hr_start_countdown_timer"@[4] == 'r',
        "ge_hr_start_countdown_timer"@[6] == 's',
        "ge_hr_restart_delay_time"@.len() == 24,
        "ge_hr_restart_delay_time"@[0] == 'g',
        "ge_hr_restart_delay_time"@[3] == 'h',
        "ge_hr_restart_delay_time"@[4] == 'r',
        "ge_hr_restart_delay_time"@[6] == 'r',
        "ge_hr_charge_slot_1_start"@.len() == 25,
        "ge_hr_charge_slot_1_start"@[0] == 'g',
        "ge_hr_charge_slot_1_start"@[3] == 'h',
        "ge_hr_charge_slot_1_start"@[4] == 'r',
        "ge_hr_charge_slot_1_start"@[6] == 'c',
        "ge_hr_charge_slot_1_start"@[18] == '1',
        "ge_hr_charge_slot_1_end"@.len() == 23,
        "ge_hr_charge_slot_1_end"@[0] == 'g',
        "ge_hr_charge_slot_1_end"@[3] == 'h',
        "ge_hr_charge_slot_1_end"@[4] == 'r',
        "ge_hr_charge_slot_1_end"@[6] == 'c',
        "ge_hr_charge_slot_1_end"@[13] == 's',
        "ge_hr_charge_slot_1_end"@[18] == '1',
        "ge_hr_enable_charge"@.len() == 19,
        "ge_hr_enable_charge"@[0] == 'g',
        "ge_hr_enable_charge"@[3] == 'h',
        "ge_hr_enable_charge"@[4] == 'r',
        "ge_hr_enable_charge"@[13] == 'c',
        "ge_hr_battery_low_voltage_protection_limit"@.len() == 42,
        "ge_hr_battery_low_voltage_protection_limit"@[0] == 'g',
        "ge_hr_battery_low_voltage_protection_limit"@[3] == 'h',
        "ge_hr_battery_low_voltage_protection_limit"@[4] == 'r',
        "ge_hr_battery_low_voltage_protection_limit"@[6] == 'b',
        "ge_hr_battery_high_voltage_protection_limit"@.len() == 43,
        "ge_hr_battery_high_voltage_protection_limit"@[0] == 'g',
        "ge_hr_battery_high_voltage_protection_limit"@[3] == 'h',
        "ge_hr_battery_high_voltage_protection_limit"@[4] == 'r',
        "ge_hr_battery_high_voltage_protection_limit"@[6] == 'b',
        "ge_hr_battery_voltage_adjust"@.len() == 28,
        "ge_hr_battery_voltage_adjust"@[0] == 'g',
        "ge_hr_battery_voltage_adjust"@[3] == 'h',
        "ge_hr_battery_voltage_adjust"@[4] == 'r',
        "ge_hr_battery_voltage_adjust"@[6] == 'b',
        "ge_hr_battery_low_force_charge_time"@.len() == 35,
        "ge_hr_battery_low_force_charge_time"@[0] == 'g',
        "ge_hr_battery_low_force_charge_time"@[3] == 'h',
        "ge_hr_battery_low_force_charge_time"@[4] == 'r',
        "ge_hr_battery_low_force_charge_time"@[18] == 'f',
        "ge_hr_enable_bms_read"@.len() == 21,
        "ge_hr_enable_bms_read"@[0] == 'g',
        "ge_hr_enable_bms_read"@[3] == 'h',
        "ge_hr_enable_bms_read"@[4] == 'r',
        "ge_hr_enable_bms_read"@[6] == 'e',
        "ge_hr_enable_bms_read"@[10] == 'l',
        "ge_hr_enable_bms_read"@[13] == 'b',
        "ge_hr_battery_soc_reserve"@.len() == 25,
        "ge_hr_battery_soc_reserve"@[0] == 'g',
        "ge_hr_battery_soc_reserve"@[3] == 'h',
        "ge_hr_battery_soc_reserve"@[4] == 'r',
        "ge_hr_battery_soc_reserve"@[6] == 'b',
        "ge_hr_battery_soc_reserve"@[18] == 'r',
        "ge_hr_battery_charge_limit"@.len() == 26,
        "ge_hr_battery_charge_limit"@[0] == 'g',
        "ge_hr_battery_charge_limit"@[3] == 'h',
        "ge_hr_battery_charge_limit"@[4] == 'r',
        "ge_hr_battery_charge_limit"@[6] == 'b',
        "ge_hr_battery_charge_limit"@[10] == 'e',
        "ge_hr_battery_charge_limit_ac"@.len() == 29,
        "ge_hr_battery_charge_limit_ac"@[0] == 'g',
        "ge_hr_battery_charge_limit_ac"@[3] == 'h',
        "ge_hr_battery_charge_limit_ac"@[4] == 'r',
        "ge_hr_battery_charge_limit_ac"@[6] == 'b',
        "ge_hr_battery_charge_limit_ac"@[18] == 'g',
        "tph_battery_charge_limit_ac"@.len() == 27,
        "tph_battery_charge_limit_ac"@[0] == 't',
        "tph_battery_charge_limit_ac"@[3] == '_',
        "tph_battery_charge_limit_ac"@[4] == 'b',
        "ge_hr_battery_discharge_limit"@.len() == 29,
        "ge_hr_battery_discharge_limit"@[0] == 'g',
        "ge_hr_battery_discharge_limit"@[3] == 'h',
        "ge_hr_battery_discharge_limit"@[4] == 'r',
        "ge_hr_battery_discharge_limit"@[6] == 'b',
        "ge_hr_battery_discharge_limit"@[18] == 'h',
        "ge_hr_battery_discharge_limit_ac"@.len() == 32,
        "ge_hr_battery_discharge_limit_ac"@[0] == 'g',
        "ge_hr_battery_discharge_limit_ac"@[3] == 'h',
        "ge_hr_battery_discharge_limit_ac"@[4] == 'r',
        "ge_hr_battery_discharge_limit_ac"@[6] == 'b',
        "ge_hr_battery_discharge_limit_ac"@[18] == 'h',
        "tph_battery_discharge_limit_ac"@.len() == 30,
        "tph_battery_discharge_limit_ac"@[0] == 't',
        "tph_battery_discharge_limit_ac"@[3] == '_',
        "tph_battery_discharge_limit_ac"@[4] == 'b',
        "ge_hr_enable_buzzer"@.len() == 19,
        "ge_hr_enable_buzzer"@[0] == 'g',
        "ge_hr_enable_buzzer"@[3] == 'h',
        "ge_hr_enable_buzzer"@[4] == 'r',
        "ge_hr_enable_buzzer"@[13] == 'b',
        "ge_hr_battery_discharge_min_power_reserve"@.len() == 41,
        "ge_hr_battery_discharge_min_power_reserve"@[0] == 'g',
        "ge_hr_battery_discharge_min_power_reserve"@[3] == 'h',
        "ge_hr_battery_discharge_min_power_reserve"@[4] == 'r',
        "ge_hr_island_check_continue"@.len() == 27,
        "ge_hr_island_check_continue"@[0] == 'g',
        "ge_hr_island_check_continue"@[3] == 'h',
        "ge_hr_island_check_continue"@[4] == 'r',
        "ge_hr_island_check_continue"@[6] == 'i',
        "ge_hr_charge_target_soc"@.len() == 23,
        "ge_hr_charge_target_soc"@[0] == 'g',
        "ge_hr_charge_target_soc"@[3] == 'h',
        "ge_hr_charge_target_soc"@[4] == 'r',
        "ge_hr_charge_target_soc"@[6] == 'c',
        "ge_hr_charge_target_soc"@[13] == 't',
        "ge_hr_charge_soc_stop_2"@.len() == 23,
        "ge_hr_charge_soc_stop_2"@[0] == 'g',
        "ge_hr_charge_soc_stop_2"@[3] == 'h',
        "ge_hr_charge_soc_stop_2"@[4] == 'r',
        "ge_hr_charge_soc_stop_2"@[6] == 'c',
        "ge_hr_charge_soc_stop_2"@[13] == 's',
        "ge_hr_charge_soc_stop_2"@[18] == 't',
        "ge_hr_charge_soc_stop_2"@[22] == '2',
        "ge_hr_discharge_soc_stop_2"@.len() == 26,
        "ge_hr_discharge_soc_stop_2"@[0] == 'g',
        "ge_hr_discharge_soc_stop_2"@[3] == 'h',
        "ge_hr_discharge_soc_stop_2"@[4] == 'r',
        "ge_hr_discharge_soc_stop_2"@[6] == 'd',
        "ge_hr_discharge_soc_stop_2"@[18] == 'c',
        "ge_hr_discharge_soc_stop_2"@[25] == '2',
        "ge_hr_charge_soc_stop_1"@.len() == 23,
        "ge_hr_charge_soc_stop_1"@[0] == 'g',
        "ge_hr_charge_soc_stop_1"@[3] == 'h',
        "ge_hr_charge_soc_stop_1"@[4] == 'r',
        "ge_hr_charge_soc_stop_1"@[6] == 'c',
        "ge_hr_charge_soc_stop_1"@[13] == 's',
        "ge_hr_charge_soc_stop_1"@[18] == 't',
        "ge_hr_charge_soc_stop_1"@[22] == '1',
        "ge_hr_discharge_soc_stop_1"@.len() == 26,
        "ge_hr_discharge_soc_stop_1"@[0] == 'g',
        "ge_hr_discharge_soc_stop_1"@[3] == 'h',
        "ge_hr_discharge_soc_stop_1"@[4] == 'r',
        "ge_hr_discharge_soc_stop_1"@[6] == 'd',
        "ge_hr_discharge_soc_stop_1"@[18] == 'c',
        "ge_hr_discharge_soc_stop_1"@[25] == '1',
        "ge_hr_enable_local_command_test"@.len() == 31,
        "ge_hr_enable_local_command_test"@[0] == 'g',
        "ge_hr_enable_local_command_test"@[3] == 'h',
        "ge_hr_enable_local_command_test"@[4] == 'r',
        "ge_hr_enable_local_command_test"@[6] == 'e',
        "ge_hr_enable_local_command_test"@[13] == 'l',
        "ge_hr_enable_low_voltage_fault_ride_through"@.len() == 43,
        "ge_hr_enable_low_voltage_fault_ride_through"@[0] == 'g',
        "ge_hr_enable_low_voltage_fault_ride_through"@[3] == 'h',
        "ge_hr_enable_low_voltage_fault_ride_through"@[4] == 'r',
        "ge_hr_enable_low_voltage_fault_ride_through"@[6] == 'e',
        "ge_hr_enable_frequency_derating"@.len() == 31,
        "ge_hr_enable_frequency_derating"@[0] == 'g',
        "ge_hr_enable_frequency_derating"@[3] == 'h',
        "ge_hr_enable_frequency_derating"@[4] == 'r',
        "ge_hr_enable_frequency_derating"@[6] == 'e',
        "ge_hr_enable_frequency_derating"@[13] == 'f',
        "ge_hr_enable_above_6kw_system"@.len() == 29,
        "ge_hr_enable_above_6kw_system"@[0] == 'g',
        "ge_hr_enable_above_6kw_system"@[3] == 'h',
        "ge_hr_enable_above_6kw_system"@[4] == 'r',
        "ge_hr_enable_above_6kw_system"@[6] == 'e',
        "ge_hr_start_system_auto_test"@.len() == 28,
        "ge_hr_start_system_auto_test"@[0] == 'g',
        "ge_hr_start_system_auto_test"@[3] == 'h',
        "ge_hr_start_system_auto_test"@[4] == 'r',
        "ge_hr_start_system_auto_test"@[6] == 's',
        "ge_hr_enable_spi"@.len() == 16,
        "ge_hr_enable_spi"@[0] == 'g',
        "ge_hr_enable_spi"@[3] == 'h',
        "ge_hr_enable_spi"@[4] == 'r',
        "ge_hr_enable_spi"@[6] == 'e',
        "ge_hr_enable_spi"@[13] == 's',
        "ge_hr_power_factor_function_model"@.len() == 33,
        "ge_hr_power_factor_function_model"@[0] == 'g',
        "ge_hr_power_factor_function_model"@[3] == 'h',
        "ge_hr_power_factor_function_model"@[4] == 'r',
        "ge_hr_power_factor_function_model"@[6] == 'p',
        "ge_hr_frequency_load_limit_rate"@.len() == 31,
        "ge_hr_frequency_load_limit_rate"@[0] == 'g',
        "ge_hr_frequency_load_limit_rate"@[3] == 'h',
        "ge_hr_frequency_load_limit_rate"@[4] == 'r',
        "ge_hr_frequency_load_limit_rate"@[6] == 'f',
        "ge_hr_inverter_reboot"@.len() == 21,
        "ge_hr_inverter_reboot"@[0] == 'g',
        "ge_hr_inverter_reboot"@[3] == 'h',
        "ge_hr_inverter_reboot"@[4] == 'r',
        "ge_hr_inverter_reboot"@[6] == 'i',
        "ge_hr_rtc_enable"@.len() == 16,
        "ge_hr_rtc_enable"@[0] == 'g',
        "ge_hr_rtc_enable"@[3] == 'h',
        "ge_hr_rtc_enable"@[4] == 'r',
        "ge_hr_rtc_enable"@[6] == 'r',
        "ge_hr_threephase_balance_mode"@.len() == 29,
        "ge_hr_threephase_balance_mode"@[0] == 'g',
        "ge_hr_threephase_balance_mode"@[3] == 'h',
        "ge_hr_threephase_balance_mode"@[4] == 'r',
        "ge_hr_threephase_balance_mode"@[6] == 't',
        "ge_hr_threephase_abc"@.len() == 20,
        "ge_hr_threephase_abc"@[0] == 'g',
        "ge_hr_threephase_abc"@[3] == 'h',
        "ge_hr_threephase_abc"@[4] == 'r',
        "ge_hr_threephase_abc"@[6] == 't',
        "ge_hr_threephase_balance_1"@.len() == 26,
        "ge_hr_threephase_balance_1"@[0] == 'g',
        "ge_hr_threephase_balance_1"@[3] == 'h',
        "ge_hr_threephase_balance_1"@[4] == 'r',
        "ge_hr_threephase_balance_1"@[6] == 't',
        "ge_hr_threephase_balance_1"@[25] == '1',
        "ge_hr_threephase_balance_2"@.len() == 26,
        "ge_hr_threephase_balance_2"@[0] == 'g',
        "ge_hr_threephase_balance_2"@[3] == 'h',
        "ge_hr_threephase_balance_2"@[4] == 'r',
        "ge_hr_threephase_balance_2"@[6] == 't',
        "ge_hr_threephase_balance_2"@[25] == '2',
        "ge_hr_threephase_balance_3"@.len() == 26,
        "ge_hr_threephase_balance_3"@[0] == 'g',
        "ge_hr_threephase_balance_3"@[3] == 'h',
        "ge_hr_threephase_balance_3"@[4] == 'r',
        "ge_hr_threephase_balance_3"@[6] == 't',
        "ge_hr_threephase_balance_3"@[25] == '3',
        "ge_hr_enable_battery_on_pv_or_grid"@.len() == 34,
        "ge_hr_enable_battery_on_pv_or_grid"@[0] == 'g',
        "ge_hr_enable_battery_on_pv_or_grid"@[3] == 'h',
        "ge_hr_enable_battery_on_pv_or_grid"@[4] == 'r',
        "ge_hr_enable_battery_on_pv_or_grid"@[6] == 'e',
        "ge_hr_enable_battery_on_pv_or_grid"@[13] == 'b',
        "ge_hr_debug_inverter"@.len() == 20,
        "ge_hr_debug_inverter"@[0] == 'g',
        "ge_hr_debug_inverter"@[3] == 'h',
        "ge_hr_debug_inverter"@[4] == 'r',
        "ge_hr_debug_inverter"@[6] == 'd',
        "ge_hr_enable_ups_mode"@.len() == 21,
        "ge_hr_enable_ups_mode"@[0] == 'g',
        "ge_hr_enable_ups_mode"@[3] == 'h',
        "ge_hr_enable_ups_mode"@[4] == 'r',
        "ge_hr_enable_ups_mode"@[6] == 'e',
        "ge_hr_enable_ups_mode"@[10] == 'l',
        "ge_hr_enable_ups_mode"@[13] == 'u',
        "ge_hr_enable_g100_limit_switch"@.len() == 30,
        "ge_hr_enable_g100_limit_switch"@[0] == 'g',
        "ge_hr_enable_g100_limit_switch"@[3] == 'h',
        "ge_hr_enable_g100_limit_switch"@[4] == 'r',
        "ge_hr_enable_g100_limit_switch"@[6] == 'e',
        "ge_hr_enable_g100_limit_switch"@[13] == 'g',
        "ge_hr_enable_battery_cable_impedance_alarm"@.len() == 42,
        "ge_hr_enable_battery_cable_impedance_alarm"@[0] == 'g',
        "ge_hr_enable_battery_cable_impedance_alarm"@[3] == 'h',
        "ge_hr_enable_battery_cable_impedance_alarm"@[4] == 'r',
        "ge_hr_enable_battery_cable_impedance_alarm"@[6] == 'e',
        "ge_hr_enable_standard_self_consumption_logic"@.len() == 44,
        "ge_hr_enable_standard_self_consumption_logic"@[0] == 'g',
        "ge_hr_enable_standard_self_consumption_logic"@[3] == 'h',
        "ge_hr_enable_standard_self_consumption_logic"@[4] == 'r',
        "ge_hr_battery_pause_mode"@.len() == 24,
        "ge_hr_battery_pause_mode"@[0] == 'g',
        "ge_hr_battery_pause_mode"@[3] == 'h',
        "ge_hr_battery_pause_mode"@[4] == 'r',
        "ge_hr_battery_pause_mode"@[6] == 'b',
        "ge_hr_battery_pause_mode"@[18] == 'e',
        "ge_hr_battery_pause_slot_1_start"@.len() == 32,
        "ge_hr_battery_pause_slot_1_start"@[0] == 'g',
        "ge_hr_battery_pause_slot_1_start"@[3] == 'h',
        "ge_hr_battery_pause_slot_1_start"@[4] == 'r',
        "ge_hr_battery_pause_slot_1_start"@[6] == 'b',
        "ge_hr_battery_pause_slot_1_start"@[18] == 'e',
        "ge_hr_battery_pause_slot_1_end"@.len() == 30,
        "ge_hr_battery_pause_slot_1_end"@[0] == 'g',
        "ge_hr_battery_pause_slot_1_end"@[3] == 'h',
        "ge_hr_battery_pause_slot_1_end"@[4] == 'r',
        "ge_hr_battery_pause_slot_1_end"@[6] == 'b',
        "ge_hr_export_priority"@.len() == 21,
        "ge_hr_export_priority"@[0] == 'g',
        "ge_hr_export_priority"@[3] == 'h',
        "ge_hr_export_priority"@[4] == 'r',
        "ge_hr_export_priority"@[6] == 'e',
        "ge_hr_export_priority"@[10] == 'r',
        "ge_hr_enable_eps"@.len() == 16,
        "ge_hr_enable_eps"@[0] == 'g',
        "ge_hr_enable_eps"@[3] == 'h',
        "ge_hr_enable_eps"@[4] == 'r',
        "ge_hr_enable_eps"@[6] == 'e',
        "ge_hr_enable_eps"@[13] == 'e',
        "ge_hr_pv_power_setting_high"@.len() == 27,
        "ge_hr_pv_power_setting_high"@[0] == 'g',
        "ge_hr_pv_power_setting_high"@[3] == 'h',
        "ge_hr_pv_power_setting_high"@[4] == 'r',
        "ge_hr_pv_power_setting_high"@[6] == 'p',
        "ge_hr_pv_power_setting_low"@.len() == 26,
        "ge_hr_pv_power_setting_low"@[0] == 'g',
        "ge_hr_pv_power_setting_low"@[3] == 'h',
        "ge_hr_pv_power_setting_low"@[4] == 'r',
        "ge_hr_pv_power_setting_low"@[6] == 'p',
        "ge_hr_battery_discharge_total_alt2_high"@.len() == 39,
        "ge_hr_battery_discharge_total_alt2_high"@[0] == 'g',
        "ge_hr_battery_discharge_total_alt2_high"@[3] == 'h',
        "ge_hr_battery_discharge_total_alt2_high"@[4] == 'r',
        "ge_hr_battery_discharge_total_alt2_low"@.len() == 38,
        "ge_hr_battery_discharge_total_alt2_low"@[0] == 'g',
        "ge_hr_battery_discharge_total_alt2_low"@[3] == 'h',
        "ge_hr_battery_discharge_total_alt2_low"@[4] == 'r',
        "ge_hr_battery_charge_total_alt2_high"@.len() == 36,
        "ge_hr_battery_charge_total_alt2_high"@[0] == 'g',
        "ge_hr_battery_charge_total_alt2_high"@[3] == 'h',
        "ge_hr_battery_charge_total_alt2_high"@[4] == 'r',
        "ge_hr_battery_charge_total_alt2_high"@[6] == 'b',
        "ge_hr_battery_charge_total_alt2_low"@.len() == 35,
        "ge_hr_battery_charge_total_alt2_low"@[0] == 'g',
        "ge_hr_battery_charge_total_alt2_low"@[3] == 'h',
        "ge_hr_battery_charge_total_alt2_low"@[4] == 'r',
        "ge_hr_battery_charge_total_alt2_low"@[18] == 'g',
        "ge_hr_battery_discharge_today_alt3"@.len() == 34,
        "ge_hr_battery_discharge_today_alt3"@[0] == 'g',
        "ge_hr_battery_discharge_today_alt3"@[3] == 'h',
        "ge_hr_battery_discharge_today_alt3"@[4] == 'r',
        "ge_hr_battery_discharge_today_alt3"@[6] == 'b',
        "ge_hr_battery_charge_today_alt3"@.len() == 31,
        "ge_hr_battery_charge_today_alt3"@[0] == 'g',
        "ge_hr_battery_charge_today_alt3"@[3] == 'h',
        "ge_hr_battery_charge_today_alt3"@[4] == 'r',
        "ge_hr_battery_charge_today_alt3"@[6] == 'b',
        "ge_hr_battery_charge_today_alt3"@[18] == 'g',
        "ge_hr_inverter_export_total_high"@.len() == 32,
        "ge_hr_inverter_export_total_high"@[0] == 'g',
        "ge_hr_inverter_export_total_high"@[3] == 'h',
        "ge_hr_inverter_export_total_high"@[4] == 'r',
        "ge_hr_inverter_export_total_high"@[6] == 'i',
        "ge_hr_inverter_export_total_low"@.len() == 31,
        "ge_hr_inverter_export_total_low"@[0] == 'g',
        "ge_hr_inverter_export_total_low"@[3] == 'h',
        "ge_hr_inverter_export_total_low"@[4] == 'r',
        "ge_hr_inverter_export_total_low"@[6] == 'i',
        "ems_plant_enable"@.len() == 16,
        "ems_plant_enable"@[0] == 'e',
        "ems_plant_enable"@[3] == '_',
        "ems_plant_enable"@[4] == 'p',
        "tph_p_export_limit"@.len() == 18,
        "tph_p_export_limit"@[0] == 't',
        "tph_p_export_limit"@[3] == '_',
        "tph_p_export_limit"@[4] == 'p',
        "ems_export_power_limit"@.len() == 22,
        "ems_export_power_limit"@[0] == 'e',
        "ems_export_power_limit"@[3] == '_',
        "ems_export_power_limit"@[4] == 'e',
{
    reveal_strlit("ge_hr_battery_capacity_ah");
    reveal_strlit("ge_hr_discharge_slot_1_start");
    reveal_strlit("ge_hr_discharge_slot_1_end");
    reveal_strlit("ge_hr_enable_auto_judge_battery_type");
    reveal_strlit("ge_hr_enable_discharge");
    reveal_strlit("ge_hr_pv_start_voltage");
    reveal_strlit("ge_hr_start_countdown_timer");
    reveal_strlit("ge_hr_restart_delay_time");
    reveal_strlit("ge_hr_charge_slot_1_start");
    reveal_strlit("ge_hr_charge_slot_1_end");
    reveal_strlit("ge_hr_enable_charge");
    reveal_strlit("ge_hr_battery_low_voltage_protection_limit");
    reveal_strlit("ge_hr_battery_high_voltage_protection_limit");
    reveal_strlit("ge_hr_battery_voltage_adjust");
    reveal_strlit("ge_hr_battery_low_force_charge_time");
    reveal_strlit("ge_hr_enable_bms_read");
    reveal_strlit("ge_hr_battery_soc_reserve");
    reveal_strlit("ge_hr_battery_charge_limit");
    reveal_strlit("ge_hr_battery_charge_limit_ac");
    reveal_strlit("tph_battery_charge_limit_ac");
    reveal_strlit("ge_hr_battery_discharge_limit");
    reveal_strlit("ge_hr_battery_discharge_limit_ac");
    reveal_strlit("tph_battery_discharge_limit_ac");
    reveal_strlit("ge_hr_enable_buzzer");
    reveal_strlit("ge_hr_battery_discharge_min_power_reserve");
    reveal_strlit("ge_hr_island_check_continue");
    reveal_strlit("ge_hr_charge_target_soc");
    reveal_strlit("ge_hr_charge_soc_stop_2");
    reveal_strlit("ge_hr_discharge_soc_stop_2");
    reveal_strlit("ge_hr_charge_soc_stop_1");
    reveal_strlit("ge_hr_discharge_soc_stop_1");
    reveal_strlit("ge_hr_enable_local_command_test");
    reveal_strlit("ge_hr_enable_low_voltage_fault_ride_through");
    reveal_strlit("ge_hr_enable_frequency_derating");
    reveal_strlit("ge_hr_enable_above_6kw_system");
    reveal_strlit("ge_hr_start_system_auto_test");
    reveal_strlit("ge_hr_enable_spi");
    reveal_strlit("ge_hr_power_factor_function_model");
    reveal_strlit("ge_hr_frequency_load_limit_rate");
    reveal_strlit("ge_hr_inverter_reboot");
    reveal_strlit("ge_hr_rtc_enable");
    reveal_strlit("ge_hr_threephase_balance_mode");
    reveal_strlit("ge_hr_threephase_abc");
    reveal_strlit("ge_hr_threephase_balance_1");
    reveal_strlit("ge_hr_threephase_balance_2");
    reveal_strlit("ge_hr_threephase_balance_3");
    reveal_strlit("ge_hr_enable_battery_on_pv_or_grid");
    reveal_strlit("ge_hr_debug_inverter");
    reveal_strlit("ge_hr_enable_ups_mode");
    reveal_strlit("ge_hr_enable_g100_limit_switch");
    reveal_strlit("ge_hr_enable_battery_cable_impedance_alarm");
    reveal_strlit("ge_hr_enable_standard_self_consumption_logic");
    reveal_strlit("ge_hr_battery_pause_mode");
    reveal_strlit("ge_hr_battery_pause_slot_1_start");
    reveal_strlit("ge_hr_battery_pause_slot_1_end");
    reveal_strlit("ge_hr_export_priority");
    reveal_strlit("ge_hr_enable_eps");
    reveal_strlit("ge_hr_pv_power_setting_high");
    reveal_strlit("ge_hr_pv_power_setting_low");
    reveal_strlit("ge_hr_battery_discharge_total_alt2_high");
    reveal_strlit("ge_hr_battery_discharge_total_alt2_low");
    reveal_strlit("ge_hr_battery_charge_total_alt2_high");
    reveal_strlit("ge_hr_battery_charge_total_alt2_low");
    reveal_strlit("ge_hr_battery_discharge_today_alt3");
    reveal_strlit("ge_hr_battery_charge_today_alt3");
    reveal_strlit("ge_hr_inverter_export_total_high");
    reveal_strlit("ge_hr_inverter_export_total_low");
    reveal_strlit("ems_plant_enable");
    reveal_strlit("tph_p_export_limit");
    reveal_strlit("ems_export_power_limit");
}

/// The names of the registers of the simulator.
pub proof fn lemma_internal_names()
    ensures
        "inverter_mode"@.len() == 13,
        "inverter_mode"@[0] == 'i',
        "inverter_mode"@[3] == 'e',
        "inverter_mode"@[4] == 'r',
        "tph_force_charge_enable"@.len() == 23,
        "tph_force_charge_enable"@[0] == 't',
        "tph_force_charge_enable"@[3] == '_',
        "tph_force_charge_enable"@[4] == 'f',
        "tph_force_discharge_enable"@.len() == 26,
        "tph_force_discharge_enable"@[0] == 't',
        "tph_force_discharge_enable"@[3] == '_',
        "tph_force_discharge_enable"@[4] == 'f',
        "inverter_ac_power"@.len() == 17,
        "inverter_ac_power"@[0] == 'i',
        "inverter_ac_power"@[3] == 'e',
        "inverter_ac_power"@[4] == 'r',
        "inverter_export_limit_w"@.len() == 23,
        "inverter_export_limit_w"@[0] == 'i',
        "inverter_export_limit_w"@[3] == 'e',
        "inverter_export_limit_w"@[4] == 'r',
        "inverter_temperature"@.len() == 20,
        "inverter_temperature"@[0] == 'i',
        "inverter_temperature"@[3] == 'e',
        "inverter_temperature"@[4] == 'r',
        "ge_hr_enable_battery_self_heating"@.len() == 33,
        "ge_hr_enable_battery_self_heating"@[0] == 'g',
        "ge_hr_enable_battery_self_heating"@[3] == 'h',
        "ge_hr_enable_battery_self_heating"@[4] == 'r',
        "ge_hr_enable_battery_self_heating"@[6] == 'e',
        "ge_hr_enable_manual_battery_heater"@.len() == 34,
        "ge_hr_enable_manual_battery_heater"@[0] == 'g',
        "ge_hr_enable_manual_battery_heater"@[3] == 'h',
        "ge_hr_enable_manual_battery_heater"@[4] == 'r',
        "ge_hr_enable_manual_battery_heater"@[6] == 'e',
        "ge_hr_enable_manual_battery_heater"@[13] == 'm',
        "battery_soc"@.len() == 11,
        "battery_soc"@[0] == 'b',
        "battery_soc"@[3] == 't',
        "battery_soc"@[4] == 'e',
        "battery_soc_2"@.len() == 13,
        "battery_soc_2"@[0] == 'b',
        "battery_soc_2"@[3] == 't',
        "battery_soc_2"@[4] == 'e',
        "battery_soc_2"@[10] == 'c',
        "battery_soc_2"@[12] == '2',
        "battery_soc_3"@.len() == 13,
        "battery_soc_3"@[0] == 'b',
        "battery_soc_3"@[3] == 't',
        "battery_soc_3"@[4] == 'e',
        "battery_soc_3"@[10] == 'c',
        "battery_soc_3"@[12] == '3',
        "battery_power"@.len() == 13,
        "battery_power"@[0] == 'b',
        "battery_power"@[3] == 't',
        "battery_power"@[4] == 'e',
        "battery_power"@[10] == 'w',
        "battery_voltage"@.len() == 15,
        "battery_voltage"@[0] == 'b',
        "battery_voltage"@[3] == 't',
        "battery_voltage"@[4] == 'e',
        "battery_voltage"@[10] == 'l',
        "battery_current"@.len() == 15,
        "battery_current"@[0] == 'b',
        "battery_current"@[3] == 't',
        "battery_current"@[4] == 'e',
        "battery_current"@[10] == 'r',
        "battery_temperature"@.len() == 19,
        "battery_temperature"@[0] == 'b',
        "battery_temperature"@[3] == 't',
        "battery_temperature"@[4] == 'e',
        "battery_capacity_kwh"@.len() == 20,
        "battery_capacity_kwh"@[0] == 'b',
        "battery_capacity_kwh"@[3] == 't',
        "battery_capacity_kwh"@[4] == 'e',
        "battery_capacity_kwh"@[10] == 'p',
        "battery_max_charge_kw"@.len() == 21,
        "battery_max_charge_kw"@[0] == 'b',
        "battery_max_charge_kw"@[3] == 't',
        "battery_max_charge_kw"@[4] == 'e',
        "battery_max_charge_kw"@[10] == 'x',
        "battery_max_discharge_kw"@.len() == 24,
        "battery_max_discharge_kw"@[0] == 'b',
        "battery_max_discharge_kw"@[3] == 't',
        "battery_max_discharge_kw"@[4] == 'e',
        "battery_min_soc"@.len() == 15,
        "battery_min_soc"@[0] == 'b',
        "battery_min_soc"@[3] == 't',
        "battery_min_soc"@[4] == 'e',
        "battery_min_soc"@[10] == 'n',
        "battery_max_soc"@.len() == 15,
        "battery_max_soc"@[0] == 'b',
        "battery_max_soc"@[3] == 't',
        "battery_max_soc"@[4] == 'e',
        "battery_max_soc"@[10] == 'x',
        "battery_charge_efficiency"@.len() == 25,
        "battery_charge_efficiency"@[0] == 'b',
        "battery_charge_efficiency"@[3] == 't',
        "battery_charge_efficiency"@[4] == 'e',
        "battery_discharge_efficiency"@.len() == 28,
        "battery_discharge_efficiency"@[0] == 'b',
        "battery_discharge_efficiency"@[3] == 't',
        "battery_discharge_efficiency"@[4] == 'e',
        "battery_module_count"@.len() == 20,
        "battery_module_count"@[0] == 'b',
        "battery_module_count"@[3] == 't',
        "battery_module_count"@[4] == 'e',
        "battery_module_count"@[10] == 'd',
        "ge_hr_inverter_errors_high"@.len() == 26,
        "ge_hr_inverter_errors_high"@[0] == 'g',
        "ge_hr_inverter_errors_high"@[3] == 'h',
        "ge_hr_inverter_errors_high"@[4] == 'r',
        "ge_hr_inverter_errors_high"@[6] == 'i',
        "ge_hr_inverter_errors_low"@.len() == 25,
        "ge_hr_inverter_errors_low"@[0] == 'g',
        "ge_hr_inverter_errors_low"@[3] == 'h',
        "ge_hr_inverter_errors_low"@[4] == 'r',
        "ge_hr_inverter_errors_low"@[6] == 'i',
        "pv_generation"@.len() == 13,
        "pv_generation"@[0] == 'p',
        "pv_generation"@[3] == 'g',
        "pv_generation"@[4] == 'e',
        "pv_voltage"@.len() == 10,
        "pv_voltage"@[0] == 'p',
        "pv_voltage"@[3] == 'v',
        "pv_voltage"@[4] == 'o',
        "pv_current"@.len() == 10,
        "pv_current"@[0] == 'p',
        "pv_current"@[3] == 'c',
        "pv_current"@[4] == 'u',
        "pv_energy_today"@.len() == 15,
        "pv_energy_today"@[0] == 'p',
        "pv_energy_today"@[3] == 'e',
        "pv_energy_today"@[4] == 'n',
        "solar_generation_kwh"@.len() == 20,
        "solar_generation_kwh"@[0] == 's',
        "solar_generation_kwh"@[3] == 'a',
        "solar_generation_kwh"@[4] == 'r',
        "pv_peak_capacity"@.len() == 16,
        "pv_peak_capacity"@[0] == 'p',
        "pv_peak_capacity"@[3] == 'p',
        "pv_peak_capacity"@[4] == 'e',
        "grid_power"@.len() == 10,
        "grid_power"@[0] == 'g',
        "grid_power"@[3] == 'd',
        "grid_power"@[4] == '_',
        "grid_voltage"@.len() == 12,
        "grid_voltage"@[0] == 'g',
        "grid_voltage"@[3] == 'd',
        "grid_voltage"@[4] == '_',
        "grid_frequency"@.len() == 14,
        "grid_frequency"@[0] == 'g',
        "grid_frequency"@[3] == 'd',
        "grid_frequency"@[4] == '_',
        "grid_frequency"@[6] == 'r',
        "grid_connected"@.len() == 14,
        "grid_connected"@[0] == 'g',
        "grid_connected"@[3] == 'd',
        "grid_connected"@[4] == '_',
        "grid_connected"@[6] == 'o',
        "load_power"@.len() == 10,
        "load_power"@[0] == 'l',
        "load_power"@[3] == 'd',
        "load_power"@[4] == '_',
        "grid_import_kwh"@.len() == 15,
        "grid_import_kwh"@[0] == 'g',
        "grid_import_kwh"@[3] == 'd',
        "grid_import_kwh"@[4] == '_',
        "grid_import_kwh"@[6] == 'm',
        "grid_export_kwh"@.len() == 15,
        "grid_export_kwh"@[0] == 'g',
        "grid_export_kwh"@[3] == 'd',
        "grid_export_kwh"@[4] == '_',
        "grid_export_kwh"@[6] == 'x',
        "battery_charge_kwh"@.len() == 18,
        "battery_charge_kwh"@[0] == 'b',
        "battery_charge_kwh"@[3] == 't',
        "battery_charge_kwh"@[4] == 'e',
        "battery_discharge_kwh"@.len() == 21,
        "battery_discharge_kwh"@[0] == 'b',
        "battery_discharge_kwh"@[3] == 't',
        "battery_discharge_kwh"@[4] == 'e',
        "battery_discharge_kwh"@[10] == 's',
        "load_consumption_kwh"@.len() == 20,
        "load_consumption_kwh"@[0] == 'l',
        "load_consumption_kwh"@[3] == 'd',
        "load_consumption_kwh"@[4] == '_',
        "config_battery_count"@.len() == 20,
        "config_battery_count"@[0] == 'c',
        "config_battery_count"@[3] == 'f',
        "config_battery_count"@[4] == 'i',
        "config_battery_count"@[10] == 't',
        "config_tick_interval"@.len() == 20,
        "config_tick_interval"@[0] == 'c',
        "config_tick_interval"@[3] == 'f',
        "config_tick_interval"@[4] == 'i',
        "config_tick_interval"@[10] == 'k',
        "config_weather"@.len() == 14,
        "config_weather"@[0] == 'c',
        "config_weather"@[3] == 'f',
        "config_weather"@[4] == 'i',
        "schedule_charge_start"@.len() == 21,
        "schedule_charge_start"@[0] == 's',
        "schedule_charge_start"@[3] == 'e',
        "schedule_charge_start"@[4] == 'd',
        "schedule_charge_end"@.len() == 19,
        "schedule_charge_end"@[0] == 's',
        "schedule_charge_end"@[3] == 'e',
        "schedule_charge_end"@[4] == 'd',
        "schedule_discharge_start"@.len() == 24,
        "schedule_discharge_start"@[0] == 's',
        "schedule_discharge_start"@[3] == 'e',
        "schedule_discharge_start"@[4] == 'd',
        "schedule_discharge_end"@.len() == 22,
        "schedule_discharge_end"@[0] == 's',
        "schedule_discharge_end"@[3] == 'e',
        "schedule_discharge_end"@[4] == 'd',
        "schedule_charge_target_soc"@.len() == 26,
        "schedule_charge_target_soc"@[0] == 's',
        "schedule_charge_target_soc"@[3] == 'e',
        "schedule_charge_target_soc"@[4] == 'd',
        "schedule_discharge_target_soc"@.len() == 29,
        "schedule_discharge_target_soc"@[0] == 's',
        "schedule_discharge_target_soc"@[3] == 'e',
        "schedule_discharge_target_soc"@[4] == 'd',
{
    reveal_strlit("inverter_mode");
    reveal_strlit("tph_force_charge_enable");
    reveal_strlit("tph_force_discharge_enable");
    reveal_strlit("inverter_ac_power");
    reveal_strlit("inverter_export_limit_w");
    reveal_strlit("inverter_temperature");
    reveal_strlit("ge_hr_enable_battery_self_heating");
    reveal_strlit("ge_hr_enable_manual_battery_heater");
    reveal_strlit("battery_soc");
    reveal_strlit("battery_soc_2");
    reveal_strlit("battery_soc_3");
    reveal_strlit("battery_power");
    reveal_strlit("battery_voltage");
    reveal_strlit("battery_current");
    reveal_strlit("battery_temperature");
    reveal_strlit("battery_capacity_kwh");
    reveal_strlit("battery_max_charge_kw");
    reveal_strlit("battery_max_discharge_kw");
    reveal_strlit("battery_min_soc");
    reveal_strlit("battery_max_soc");
    reveal_strlit("battery_charge_efficiency");
    reveal_strlit("battery_discharge_efficiency");
    reveal_strlit("battery_module_count");
    reveal_strlit("ge_hr_inverter_errors_high");
    reveal_strlit("ge_hr_inverter_errors_low");
    reveal_strlit("pv_generation");
    reveal_strlit("pv_voltage");
    reveal_strlit("pv_current");
    reveal_strlit("pv_energy_today");
    reveal_strlit("solar_generation_kwh");
    reveal_strlit("pv_peak_capacity");
    reveal_strlit("grid_power");
    reveal_strlit("grid_voltage");
    reveal_strlit("grid_frequency");
    reveal_strlit("grid_connected");
    reveal_strlit("load_power");
    reveal_strlit("grid_import_kwh");
    reveal_strlit("grid_export_kwh");
    reveal_strlit("battery_charge_kwh");
    reveal_strlit("battery_discharge_kwh");
    reveal_strlit("load_consumption_kwh");
    reveal_strlit("config_battery_count");
    reveal_strlit("config_tick_interval");
    reveal_strlit("config_weather");
    reveal_strlit("schedule_charge_start");
    reveal_strlit("schedule_charge_end");
    reveal_strlit("schedule_discharge_start");
    reveal_strlit("schedule_discharge_end");
    reveal_strlit("schedule_charge_target_soc");
    reveal_strlit("schedule_discharge_target_soc");
}

/// The names of the three-phase readings of power.
pub proof fn lemma_three_phase_power_names()
    ensures
        "tph_ir_pv1_voltage"@.len() == 18,
        "tph_ir_pv1_voltage"@[0] == 't',
        "tph_ir_pv1_voltage"@[3] == '_',
        "tph_ir_pv1_voltage"@[4] == 'i',
        "tph_ir_pv1_voltage"@[7] == 'p',
        "tph_ir_pv1_voltage"@[9] == '1',
        "tph_ir_pv1_voltage"@[11] == 'v',
        "tph_ir_pv2_voltage"@.len() == 18,
        "tph_ir_pv2_voltage"@[0] == 't',
        "tph_ir_pv2_voltage"@[3] == '_',
        "tph_ir_pv2_voltage"@[4] == 'i',
        "tph_ir_pv2_voltage"@[7] == 'p',
        "tph_ir_pv2_voltage"@[9] == '2',
        "tph_ir_pv2_voltage"@[11] == 'v',
        "tph_ir_pv1_current"@.len() == 18,
        "tph_ir_pv1_current"@[0] == 't',
        "tph_ir_pv1_current"@[3] == '_',
        "tph_ir_pv1_current"@[4] == 'i',
        "tph_ir_pv1_current"@[7] == 'p',
        "tph_ir_pv1_current"@[9] == '1',
        "tph_ir_pv1_current"@[11] == 'c',
        "tph_ir_pv2_current"@.len() == 18,
        "tph_ir_pv2_current"@[0] == 't',
        "tph_ir_pv2_current"@[3] == '_',
        "tph_ir_pv2_current"@[4] == 'i',
        "tph_ir_pv2_current"@[7] == 'p',
        "tph_ir_pv2_current"@[9] == '2',
        "tph_ir_pv2_current"@[11] == 'c',
        "tph_ir_pv1_power_high"@.len() == 21,
        "tph_ir_pv1_power_high"@[0] == 't',
        "tph_ir_pv1_power_high"@[3] == '_',
        "tph_ir_pv1_power_high"@[4] == 'i',
        "tph_ir_pv1_power_high"@[7] == 'p',
        "tph_ir_pv1_power_high"@[9] == '1',
        "tph_ir_pv1_power_low"@.len() == 20,
        "tph_ir_pv1_power_low"@[0] == 't',
        "tph_ir_pv1_power_low"@[3] == '_',
        "tph_ir_pv1_power_low"@[4] == 'i',
        "tph_ir_pv1_power_low"@[7] == 'p',
        "tph_ir_pv1_power_low"@[9] == '1',
        "tph_ir_pv2_power_high"@.len() == 21,
        "tph_ir_pv2_power_high"@[0] == 't',
        "tph_ir_pv2_power_high"@[3] == '_',
        "tph_ir_pv2_power_high"@[4] == 'i',
        "tph_ir_pv2_power_high"@[7] == 'p',
        "tph_ir_pv2_power_high"@[9] == '2',
        "tph_ir_pv2_power_low"@.len() == 20,
        "tph_ir_pv2_power_low"@[0] == 't',
        "tph_ir_pv2_power_low"@[3] == '_',
        "tph_ir_pv2_power_low"@[4] == 'i',
        "tph_ir_pv2_power_low"@[7] == 'p',
        "tph_ir_pv2_power_low"@[9] == '2',
        "tph_ir_v_ac1"@.len() == 12,
        "tph_ir_v_ac1"@[0] == 't',
        "tph_ir_v_ac1"@[3] == '_',
        "tph_ir_v_ac1"@[4] == 'i',
        "tph_ir_v_ac1"@[7] == 'v',
        "tph_ir_v_ac1"@[11] == '1',
        "tph_ir_v_ac2"@.len() == 12,
        "tph_ir_v_ac2"@[0] == 't',
        "tph_ir_v_ac2"@[3] == '_',
        "tph_ir_v_ac2"@[4] == 'i',
        "tph_ir_v_ac2"@[7] == 'v',
        "tph_ir_v_ac2"@[11] == '2',
        "tph_ir_v_ac3"@.len() == 12,
        "tph_ir_v_ac3"@[0] == 't',
        "tph_ir_v_ac3"@[3] == '_',
        "tph_ir_v_ac3"@[4] == 'i',
        "tph_ir_v_ac3"@[7] == 'v',
        "tph_ir_v_ac3"@[11] == '3',
        "tph_ir_i_ac1"@.len() == 12,
        "tph_ir_i_ac1"@[0] == 't',
        "tph_ir_i_ac1"@[3] == '_',
        "tph_ir_i_ac1"@[4] == 'i',
        "tph_ir_i_ac1"@[7] == 'i',
        "tph_ir_i_ac1"@[11] == '1',
        "tph_ir_i_ac2"@.len() == 12,
        "tph_ir_i_ac2"@[0] == 't',
        "tph_ir_i_ac2"@[3] == '_',
        "tph_ir_i_ac2"@[4] == 'i',
        "tph_ir_i_ac2"@[7] == 'i',
        "tph_ir_i_ac2"@[11] == '2',
        "tph_ir_i_ac3"@.len() == 12,
        "tph_ir_i_ac3"@[0] == 't',
        "tph_ir_i_ac3"@[3] == '_',
        "tph_ir_i_ac3"@[4] == 'i',
        "tph_ir_i_ac3"@[7] == 'i',
        "tph_ir_i_ac3"@[11] == '3',
        "tph_ir_f_ac1"@.len() == 12,
        "tph_ir_f_ac1"@[0] == 't',
        "tph_ir_f_ac1"@[3] == '_',
        "tph_ir_f_ac1"@[4] == 'i',
        "tph_ir_f_ac1"@[7] == 'f',
        "tph_ir_power_factor"@.len() == 19,
        "tph_ir_power_factor"@[0] == 't',
        "tph_ir_power_factor"@[3] == '_',
        "tph_ir_power_factor"@[4] == 'i',
        "tph_ir_power_factor"@[7] == 'p',
        "tph_ir_power_factor"@[9] == 'w',
        "tph_ir_p_inverter_out_high"@.len() == 26,
        "tph_ir_p_inverter_out_high"@[0] == 't',
        "tph_ir_p_inverter_out_high"@[3] == '_',
        "tph_ir_p_inverter_out_high"@[4] == 'i',
        "tph_ir_p_inverter_out_high"@[7] == 'p',
        "tph_ir_p_inverter_out_high"@[9] == 'i',
        "tph_ir_p_inverter_out_low"@.len() == 25,
        "tph_ir_p_inverter_out_low"@[0] == 't',
        "tph_ir_p_inverter_out_low"@[3] == '_',
        "tph_ir_p_inverter_out_low"@[4] == 'i',
        "tph_ir_p_inverter_out_low"@[7] == 'p',
        "tph_ir_p_inverter_out_low"@[9] == 'i',
        "tph_ir_p_grid_apparent_high"@.len() == 27,
        "tph_ir_p_grid_apparent_high"@[0] == 't',
        "tph_ir_p_grid_apparent_high"@[3] == '_',
        "tph_ir_p_grid_apparent_high"@[4] == 'i',
        "tph_ir_p_grid_apparent_high"@[7] == 'p',
        "tph_ir_p_grid_apparent_high"@[9] == 'g',
        "tph_ir_p_grid_apparent_low"@.len() == 26,
        "tph_ir_p_grid_apparent_low"@[0] == 't',
        "tph_ir_p_grid_apparent_low"@[3] == '_',
        "tph_ir_p_grid_apparent_low"@[4] == 'i',
        "tph_ir_p_grid_apparent_low"@[7] == 'p',
        "tph_ir_p_grid_apparent_low"@[9] == 'g',
        "tph_ir_p_meter_import_high"@.len() == 26,
        "tph_ir_p_meter_import_high"@[0] == 't',
        "tph_ir_p_meter_import_high"@[3] == '_',
        "tph_ir_p_meter_import_high"@[4] == 'i',
        "tph_ir_p_meter_import_high"@[7] == 'p',
        "tph_ir_p_meter_import_high"@[9] == 'm',
        "tph_ir_p_meter_import_high"@[15] == 'i',
        "tph_ir_p_meter_import_low"@.len() == 25,
        "tph_ir_p_meter_import_low"@[0] == 't',
        "tph_ir_p_meter_import_low"@[3] == '_',
        "tph_ir_p_meter_import_low"@[4] == 'i',
        "tph_ir_p_meter_import_low"@[7] == 'p',
        "tph_ir_p_meter_import_low"@[9] == 'm',
        "tph_ir_p_meter_import_low"@[15] == 'i',
        "tph_ir_p_meter_export_high"@.len() == 26,
        "tph_ir_p_meter_export_high"@[0] == 't',
        "tph_ir_p_meter_export_high"@[3] == '_',
        "tph_ir_p_meter_export_high"@[4] == 'i',
        "tph_ir_p_meter_export_high"@[7] == 'p',
        "tph_ir_p_meter_export_high"@[9] == 'm',
        "tph_ir_p_meter_export_high"@[15] == 'e',
        "tph_ir_p_meter_export_low"@.len() == 25,
        "tph_ir_p_meter_export_low"@[0] == 't',
        "tph_ir_p_meter_export_low"@[3] == '_',
        "tph_ir_p_meter_export_low"@[4] == 'i',
        "tph_ir_p_meter_export_low"@[7] == 'p',
        "tph_ir_p_meter_export_low"@[9] == 'm',
        "tph_ir_p_meter_export_low"@[15] == 'e',
        "tph_ir_p_export_high"@.len() == 20,
        "tph_ir_p_export_high"@[0] == 't',
        "tph_ir_p_export_high"@[3] == '_',
        "tph_ir_p_export_high"@[4] == 'i',
        "tph_ir_p_export_high"@[7] == 'p',
        "tph_ir_p_export_high"@[9] == 'e',
        "tph_ir_p_export_low"@.len() == 19,
        "tph_ir_p_export_low"@[0] == 't',
        "tph_ir_p_export_low"@[3] == '_',
        "tph_ir_p_export_low"@[4] == 'i',
        "tph_ir_p_export_low"@[7] == 'p',
        "tph_ir_p_export_low"@[9] == 'e',
        "tph_ir_p_meter2_high"@.len() == 20,
        "tph_ir_p_meter2_high"@[0] == 't',
        "tph_ir_p_meter2_high"@[3] == '_',
        "tph_ir_p_meter2_high"@[4] == 'i',
        "tph_ir_p_meter2_high"@[7] == 'p',
        "tph_ir_p_meter2_high"@[9] == 'm',
        "tph_ir_p_meter2_low"@.len() == 19,
        "tph_ir_p_meter2_low"@[0] == 't',
        "tph_ir_p_meter2_low"@[3] == '_',
        "tph_ir_p_meter2_low"@[4] == 'i',
        "tph_ir_p_meter2_low"@[7] == 'p',
        "tph_ir_p_meter2_low"@[9] == 'm',
        "tph_ir_system_mode"@.len() == 18,
        "tph_ir_system_mode"@[0] == 't',
        "tph_ir_system_mode"@[3] == '_',
        "tph_ir_system_mode"@[4] == 'i',
        "tph_ir_system_mode"@[7] == 's',
        "tph_ir_status"@.len() == 13,
        "tph_ir_status"@[0] == 't',
        "tph_ir_status"@[3] == '_',
        "tph_ir_status"@[4] == 'i',
        "tph_ir_dc_status"@.len() == 16,
        "tph_ir_dc_status"@[0] == 't',
        "tph_ir_dc_status"@[3] == '_',
        "tph_ir_dc_status"@[4] == 'i',
        "tph_ir_dc_status"@[7] == 'd',
        "tph_ir_p_load_ac1"@.len() == 17,
        "tph_ir_p_load_ac1"@[0] == 't',
        "tph_ir_p_load_ac1"@[3] == '_',
        "tph_ir_p_load_ac1"@[4] == 'i',
        "tph_ir_p_load_ac1"@[7] == 'p',
        "tph_ir_p_load_ac1"@[16] == '1',
        "tph_ir_p_load_ac2"@.len() == 17,
        "tph_ir_p_load_ac2"@[0] == 't',
        "tph_ir_p_load_ac2"@[3] == '_',
        "tph_ir_p_load_ac2"@[4] == 'i',
        "tph_ir_p_load_ac2"@[7] == 'p',
        "tph_ir_p_load_ac2"@[16] == '2',
        "tph_ir_p_load_ac3"@.len() == 17,
        "tph_ir_p_load_ac3"@[0] == 't',
        "tph_ir_p_load_ac3"@[3] == '_',
        "tph_ir_p_load_ac3"@[4] == 'i',
        "tph_ir_p_load_ac3"@[7] == 'p',
        "tph_ir_p_load_ac3"@[16] == '3',
        "tph_ir_p_load_all_high"@.len() == 22,
        "tph_ir_p_load_all_high"@[0] == 't',
        "tph_ir_p_load_all_high"@[3] == '_',
        "tph_ir_p_load_all_high"@[4] == 'i',
        "tph_ir_p_load_all_high"@[7] == 'p',
        "tph_ir_p_load_all_low"@.len() == 21,
        "tph_ir_p_load_all_low"@[0] == 't',
        "tph_ir_p_load_all_low"@[3] == '_',
        "tph_ir_p_load_all_low"@[4] == 'i',
        "tph_ir_p_load_all_low"@[7] == 'p',
        "tph_ir_p_load_all_low"@[9] == 'l',
        "tph_ir_t_inverter"@.len() == 17,
        "tph_ir_t_inverter"@[0] == 't',
        "tph_ir_t_inverter"@[3] == '_',
        "tph_ir_t_inverter"@[4] == 'i',
        "tph_ir_t_inverter"@[7] == 't',
        "tph_ir_t_boost"@.len() == 14,
        "tph_ir_t_boost"@[0] == 't',
        "tph_ir_t_boost"@[3] == '_',
        "tph_ir_t_boost"@[4] == 'i',
        "tph_ir_t_buck_boost"@.len() == 19,
        "tph_ir_t_buck_boost"@[0] == 't',
        "tph_ir_t_buck_boost"@[3] == '_',
        "tph_ir_t_buck_boost"@[4] == 'i',
        "tph_ir_t_buck_boost"@[7] == 't',
        "tph_ir_v_battery_bms"@.len() == 20,
        "tph_ir_v_battery_bms"@[0] == 't',
        "tph_ir_v_battery_bms"@[3] == '_',
        "tph_ir_v_battery_bms"@[4] == 'i',
        "tph_ir_v_battery_bms"@[7] == 'v',
        "tph_ir_v_battery_bms"@[18] == 'm',
        "tph_ir_v_battery_pcs"@.len() == 20,
        "tph_ir_v_battery_pcs"@[0] == 't',
        "tph_ir_v_battery_pcs"@[3] == '_',
        "tph_ir_v_battery_pcs"@[4] == 'i',
        "tph_ir_v_battery_pcs"@[7] == 'v',
        "tph_ir_v_battery_pcs"@[18] == 'c',
        "tph_ir_battery_soc"@.len() == 18,
        "tph_ir_battery_soc"@[0] == 't',
        "tph_ir_battery_soc"@[3] == '_',
        "tph_ir_battery_soc"@[4] == 'i',
        "tph_ir_battery_soc"@[7] == 'b',
        "tph_ir_p_battery_discharge_high"@.len() == 31,
        "tph_ir_p_battery_discharge_high"@[0] == 't',
        "tph_ir_p_battery_discharge_high"@[3] == '_',
        "tph_ir_p_battery_discharge_high"@[4] == 'i',
        "tph_ir_p_battery_discharge_high"@[7] == 'p',
        "tph_ir_p_battery_discharge_low"@.len() == 30,
        "tph_ir_p_battery_discharge_low"@[0] == 't',
        "tph_ir_p_battery_discharge_low"@[3] == '_',
        "tph_ir_p_battery_discharge_low"@[4] == 'i',
        "tph_ir_p_battery_discharge_low"@[7] == 'p',
        "tph_ir_p_battery_charge_high"@.len() == 28,
        "tph_ir_p_battery_charge_high"@[0] == 't',
        "tph_ir_p_battery_charge_high"@[3] == '_',
        "tph_ir_p_battery_charge_high"@[4] == 'i',
        "tph_ir_p_battery_charge_high"@[7] == 'p',
        "tph_ir_p_battery_charge_low"@.len() == 27,
        "tph_ir_p_battery_charge_low"@[0] == 't',
        "tph_ir_p_battery_charge_low"@[3] == '_',
        "tph_ir_p_battery_charge_low"@[4] == 'i',
        "tph_ir_p_battery_charge_low"@[7] == 'p',
        "tph_ir_p_battery_charge_low"@[9] == 'b',
        "tph_ir_v_dc_bus"@.len() == 15,
        "tph_ir_v_dc_bus"@[0] == 't',
        "tph_ir_v_dc_bus"@[3] == '_',
        "tph_ir_v_dc_bus"@[4] == 'i',
        "tph_ir_v_inv_bus"@.len() == 16,
        "tph_ir_v_inv_bus"@[0] == 't',
        "tph_ir_v_inv_bus"@[3] == '_',
        "tph_ir_v_inv_bus"@[4] == 'i',
        "tph_ir_v_inv_bus"@[7] == 'v',
        "tph_ir_v_inv_bus"@[9] == 'i',
        "tph_ir_i_battery"@.len() == 16,
        "tph_ir_i_battery"@[0] == 't',
        "tph_ir_i_battery"@[3] == '_',
        "tph_ir_i_battery"@[4] == 'i',
        "tph_ir_i_battery"@[7] == 'i',
        "tph_ir_f_nominal_eps"@.len() == 20,
        "tph_ir_f_nominal_eps"@[0] == 't',
        "tph_ir_f_nominal_eps"@[3] == '_',
        "tph_ir_f_nominal_eps"@[4] == 'i',
        "tph_ir_f_nominal_eps"@[7] == 'f',
        "tph_ir_v_eps_ac1"@.len() == 16,
        "tph_ir_v_eps_ac1"@[0] == 't',
        "tph_ir_v_eps_ac1"@[3] == '_',
        "tph_ir_v_eps_ac1"@[4] == 'i',
        "tph_ir_v_eps_ac1"@[7] == 'v',
        "tph_ir_v_eps_ac1"@[9] == 'e',
        "tph_ir_v_eps_ac1"@[15] == '1',
        "tph_ir_v_eps_ac2"@.len() == 16,
        "tph_ir_v_eps_ac2"@[0] == 't',
        "tph_ir_v_eps_ac2"@[3] == '_',
        "tph_ir_v_eps_ac2"@[4] == 'i',
        "tph_ir_v_eps_ac2"@[7] == 'v',
        "tph_ir_v_eps_ac2"@[9] == 'e',
        "tph_ir_v_eps_ac2"@[15] == '2',
        "tph_ir_v_eps_ac3"@.len() == 16,
        "tph_ir_v_eps_ac3"@[0] == 't',
        "tph_ir_v_eps_ac3"@[3] == '_',
        "tph_ir_v_eps_ac3"@[4] == 'i',
        "tph_ir_v_eps_ac3"@[7] == 'v',
        "tph_ir_v_eps_ac3"@[9] == 'e',
        "tph_ir_v_eps_ac3"@[15] == '3',
        "tph_ir_ac_dsp_firmware_version"@.len() == 30,
        "tph_ir_ac_dsp_firmware_version"@[0] == 't',
        "tph_ir_ac_dsp_firmware_version"@[3] == '_',
        "tph_ir_ac_dsp_firmware_version"@[4] == 'i',
        "tph_ir_ac_dsp_firmware_version"@[7] == 'a',
        "tph_ir_dc_dsp_firmware_version"@.len() == 30,
        "tph_ir_dc_dsp_firmware_version"@[0] == 't',
        "tph_ir_dc_dsp_firmware_version"@[3] == '_',
        "tph_ir_dc_dsp_firmware_version"@[4] == 'i',
        "tph_ir_dc_dsp_firmware_version"@[7] == 'd',
        "tph_ir_arm_firmware_version"@.len() == 27,
        "tph_ir_arm_firmware_version"@[0] == 't',
        "tph_ir_arm_firmware_version"@[3] == '_',
        "tph_ir_arm_firmware_version"@[4] == 'i',
        "tph_ir_arm_firmware_version"@[7] == 'a',
{
    reveal_strlit("tph_ir_pv1_voltage");
    reveal_strlit("tph_ir_pv2_voltage");
    reveal_strlit("tph_ir_pv1_current");
    reveal_strlit("tph_ir_pv2_current");
    reveal_strlit("tph_ir_pv1_power_high");
    reveal_strlit("tph_ir_pv1_power_low");
    reveal_strlit("tph_ir_pv2_power_high");
    reveal_strlit("tph_ir_pv2_power_low");
    reveal_strlit("tph_ir_v_ac1");
    reveal_strlit("tph_ir_v_ac2");
    reveal_strlit("tph_ir_v_ac3");
    reveal_strlit("tph_ir_i_ac1");
    reveal_strlit("tph_ir_i_ac2");
    reveal_strlit("tph_ir_i_ac3");
    reveal_strlit("tph_ir_f_ac1");
    reveal_strlit("tph_ir_power_factor");
    reveal_strlit("tph_ir_p_inverter_out_high");
    reveal_strlit("tph_ir_p_inverter_out_low");
    reveal_strlit("tph_ir_p_grid_apparent_high");
    reveal_strlit("tph_ir_p_grid_apparent_low");
    reveal_strlit("tph_ir_p_meter_import_high");
    reveal_strlit("tph_ir_p_meter_import_low");
    reveal_strlit("tph_ir_p_meter_export_high");
    reveal_strlit("tph_ir_p_meter_export_low");
    reveal_strlit("tph_ir_p_export_high");
    reveal_strlit("tph_ir_p_export_low");
    reveal_strlit("tph_ir_p_meter2_high");
    reveal_strlit("tph_ir_p_meter2_low");
    reveal_strlit("tph_ir_system_mode");
    reveal_strlit("tph_ir_status");
    reveal_strlit("tph_ir_dc_status");
    reveal_strlit("tph_ir_p_load_ac1");
    reveal_strlit("tph_ir_p_load_ac2");
    reveal_strlit("tph_ir_p_load_ac3");
    reveal_strlit("tph_ir_p_load_all_high");
    reveal_strlit("tph_ir_p_load_all_low");
    reveal_strlit("tph_ir_t_inverter");
    reveal_strlit("tph_ir_t_boost");
    reveal_strlit("tph_ir_t_buck_boost");
    reveal_strlit("tph_ir_v_battery_bms");
    reveal_strlit("tph_ir_v_battery_pcs");
    reveal_strlit("tph_ir_battery_soc");
    reveal_strlit("tph_ir_p_battery_discharge_high");
    reveal_strlit("tph_ir_p_battery_discharge_low");
    reveal_strlit("tph_ir_p_battery_charge_high");
    reveal_strlit("tph_ir_p_battery_charge_low");
    reveal_strlit("tph_ir_v_dc_bus");
    reveal_strlit("tph_ir_v_inv_bus");
    reveal_strlit("tph_ir_i_battery");
    reveal_strlit("tph_ir_f_nominal_eps");
    reveal_strlit("tph_ir_v_eps_ac1");
    reveal_strlit("tph_ir_v_eps_ac2");
    reveal_strlit("tph_ir_v_eps_ac3");
    reveal_strlit("tph_ir_ac_dsp_firmware_version");
    reveal_strlit("tph_ir_dc_dsp_firmware_version");
    reveal_strlit("tph_ir_arm_firmware_version");
}

/// The names of the three-phase readings of energy.
pub proof fn lemma_three_phase_energy_names()
    ensures
        "tph_ir_e_pv1_today_high"@.len() == 23,
        "tph_ir_e_pv1_today_high"@[0] == 't',
        "tph_ir_e_pv1_today_high"@[3] == '_',
        "tph_ir_e_pv1_today_high"@[4] == 'i',
        "tph_ir_e_pv1_today_high"@[9] == 'p',
        "tph_ir_e_pv1_today_high"@[11] == '1',
        "tph_ir_e_pv1_today_high"@[15] == 'd',
        "tph_ir_e_pv1_today_low"@.len() == 22,
        "tph_ir_e_pv1_today_low"@[0] == 't',
        "tph_ir_e_pv1_today_low"@[3] == '_',
        "tph_ir_e_pv1_today_low"@[4] == 'i',
        "tph_ir_e_pv1_today_low"@[7] == 'e',
        "tph_ir_e_pv1_today_low"@[11] == '1',
        "tph_ir_e_pv1_today_low"@[15] == 'd',
        "tph_ir_e_pv2_today_high"@.len() == 23,
        "tph_ir_e_pv2_today_high"@[0] == 't',
        "tph_ir_e_pv2_today_high"@[3] == '_',
        "tph_ir_e_pv2_today_high"@[4] == 'i',
        "tph_ir_e_pv2_today_high"@[9] == 'p',
        "tph_ir_e_pv2_today_high"@[11] == '2',
        "tph_ir_e_pv2_today_high"@[15] == 'd',
        "tph_ir_e_pv2_today_low"@.len() == 22,
        "tph_ir_e_pv2_today_low"@[0] == 't',
        "tph_ir_e_pv2_today_low"@[3] == '_',
        "tph_ir_e_pv2_today_low"@[4] == 'i',
        "tph_ir_e_pv2_today_low"@[7] == 'e',
        "tph_ir_e_pv2_today_low"@[11] == '2',
        "tph_ir_e_pv2_today_low"@[15] == 'd',
        "tph_ir_e_pv1_total_high"@.len() == 23,
        "tph_ir_e_pv1_total_high"@[0] == 't',
        "tph_ir_e_pv1_total_high"@[3] == '_',
        "tph_ir_e_pv1_total_high"@[4] == 'i',
        "tph_ir_e_pv1_total_high"@[9] == 'p',
        "tph_ir_e_pv1_total_high"@[11] == '1',
        "tph_ir_e_pv1_total_high"@[15] == 't',
        "tph_ir_e_pv1_total_low"@.len() == 22,
        "tph_ir_e_pv1_total_low"@[0] == 't',
        "tph_ir_e_pv1_total_low"@[3] == '_',
        "tph_ir_e_pv1_total_low"@[4] == 'i',
        "tph_ir_e_pv1_total_low"@[7] == 'e',
        "tph_ir_e_pv1_total_low"@[11] == '1',
        "tph_ir_e_pv1_total_low"@[15] == 't',
        "tph_ir_e_pv2_total_high"@.len() == 23,
        "tph_ir_e_pv2_total_high"@[0] == 't',
        "tph_ir_e_pv2_total_high"@[3] == '_',
        "tph_ir_e_pv2_total_high"@[4] == 'i',
        "tph_ir_e_pv2_total_high"@[9] == 'p',
        "tph_ir_e_pv2_total_high"@[11] == '2',
        "tph_ir_e_pv2_total_high"@[15] == 't',
        "tph_ir_e_pv2_total_low"@.len() == 22,
        "tph_ir_e_pv2_total_low"@[0] == 't',
        "tph_ir_e_pv2_total_low"@[3] == '_',
        "tph_ir_e_pv2_total_low"@[4] == 'i',
        "tph_ir_e_pv2_total_low"@[7] == 'e',
        "tph_ir_e_pv2_total_low"@[11] == '2',
        "tph_ir_e_pv2_total_low"@[15] == 't',
        "tph_ir_e_import_today_high"@.len() == 26,
        "tph_ir_e_import_today_high"@[0] == 't',
        "tph_ir_e_import_today_high"@[3] == '_',
        "tph_ir_e_import_today_high"@[4] == 'i',
        "tph_ir_e_import_today_high"@[7] == 'e',
        "tph_ir_e_import_today_high"@[9] == 'i',
        "tph_ir_e_import_today_high"@[18] == 'd',
        "tph_ir_e_import_today_low"@.len() == 25,
        "tph_ir_e_import_today_low"@[0] == 't',
        "tph_ir_e_import_today_low"@[3] == '_',
        "tph_ir_e_import_today_low"@[4] == 'i',
        "tph_ir_e_import_today_low"@[7] == 'e',
        "tph_ir_e_import_today_low"@[9] == 'i',
        "tph_ir_e_import_today_low"@[18] == 'd',
        "tph_ir_e_export_today_high"@.len() == 26,
        "tph_ir_e_export_today_high"@[0] == 't',
        "tph_ir_e_export_today_high"@[3] == '_',
        "tph_ir_e_export_today_high"@[4] == 'i',
        "tph_ir_e_export_today_high"@[7] == 'e',
        "tph_ir_e_export_today_high"@[9] == 'e',
        "tph_ir_e_export_today_high"@[15] == '_',
        "tph_ir_e_export_today_high"@[18] == 'd',
        "tph_ir_e_export_today_low"@.len() == 25,
        "tph_ir_e_export_today_low"@[0] == 't',
        "tph_ir_e_export_today_low"@[3] == '_',
        "tph_ir_e_export_today_low"@[4] == 'i',
        "tph_ir_e_export_today_low"@[7] == 'e',
        "tph_ir_e_export_today_low"@[9] == 'e',
        "tph_ir_e_export_today_low"@[18] == 'd',
        "tph_ir_e_battery_discharge_today_high"@.len() == 37,
        "tph_ir_e_battery_discharge_today_high"@[0] == 't',
        "tph_ir_e_battery_discharge_today_high"@[3] == '_',
        "tph_ir_e_battery_discharge_today_high"@[4] == 'i',
        "tph_ir_e_battery_discharge_today_high"@[29] == 'd',
        "tph_ir_e_battery_discharge_today_low"@.len() == 36,
        "tph_ir_e_battery_discharge_today_low"@[0] == 't',
        "tph_ir_e_battery_discharge_today_low"@[3] == '_',
        "tph_ir_e_battery_discharge_today_low"@[4] == 'i',
        "tph_ir_e_battery_discharge_today_low"@[29] == 'd',
        "tph_ir_e_battery_charge_today_high"@.len() == 34,
        "tph_ir_e_battery_charge_today_high"@[0] == 't',
        "tph_ir_e_battery_charge_today_high"@[3] == '_',
        "tph_ir_e_battery_charge_today_high"@[4] == 'i',
        "tph_ir_e_battery_charge_today_high"@[26] == 'd',
        "tph_ir_e_battery_charge_today_low"@.len() == 33,
        "tph_ir_e_battery_charge_today_low"@[0] == 't',
        "tph_ir_e_battery_charge_today_low"@[3] == '_',
        "tph_ir_e_battery_charge_today_low"@[4] == 'i',
        "tph_ir_e_battery_charge_today_low"@[26] == 'd',
        "tph_ir_e_load_today_high"@.len() == 24,
        "tph_ir_e_load_today_high"@[0] == 't',
        "tph_ir_e_load_today_high"@[3] == '_',
        "tph_ir_e_load_today_high"@[4] == 'i',
        "tph_ir_e_load_today_high"@[16] == 'd',
        "tph_ir_e_load_today_low"@.len() == 23,
        "tph_ir_e_load_today_low"@[0] == 't',
        "tph_ir_e_load_today_low"@[3] == '_',
        "tph_ir_e_load_today_low"@[4] == 'i',
        "tph_ir_e_load_today_low"@[9] == 'l',
        "tph_ir_e_load_today_low"@[16] == 'd',
        "tph_ir_e_load_total_high"@.len() == 24,
        "tph_ir_e_load_total_high"@[0] == 't',
        "tph_ir_e_load_total_high"@[3] == '_',
        "tph_ir_e_load_total_high"@[4] == 'i',
        "tph_ir_e_load_total_high"@[16] == 't',
        "tph_ir_e_load_total_low"@.len() == 23,
        "tph_ir_e_load_total_low"@[0] == 't',
        "tph_ir_e_load_total_low"@[3] == '_',
        "tph_ir_e_load_total_low"@[4] == 'i',
        "tph_ir_e_load_total_low"@[9] == 'l',
        "tph_ir_e_load_total_low"@[16] == 't',
        "tph_ir_e_inverter_out_today_high"@.len() == 32,
        "tph_ir_e_inverter_out_today_high"@[0] == 't',
        "tph_ir_e_inverter_out_today_high"@[3] == '_',
        "tph_ir_e_inverter_out_today_high"@[4] == 'i',
        "tph_ir_e_inverter_out_today_high"@[26] == 'y',
        "tph_ir_e_inverter_out_today_low"@.len() == 31,
        "tph_ir_e_inverter_out_today_low"@[0] == 't',
        "tph_ir_e_inverter_out_today_low"@[3] == '_',
        "tph_ir_e_inverter_out_today_low"@[4] == 'i',
        "tph_ir_e_inverter_out_today_low"@[7] == 'e',
        "tph_ir_e_inverter_out_today_low"@[26] == 'y',
        "tph_ir_e_inverter_out_total_high"@.len() == 32,
        "tph_ir_e_inverter_out_total_high"@[0] == 't',
        "tph_ir_e_inverter_out_total_high"@[3] == '_',
        "tph_ir_e_inverter_out_total_high"@[4] == 'i',
        "tph_ir_e_inverter_out_total_high"@[26] == 'l',
        "tph_ir_e_inverter_out_total_low"@.len() == 31,
        "tph_ir_e_inverter_out_total_low"@[0] == 't',
        "tph_ir_e_inverter_out_total_low"@[3] == '_',
        "tph_ir_e_inverter_out_total_low"@[4] == 'i',
        "tph_ir_e_inverter_out_total_low"@[7] == 'e',
        "tph_ir_e_inverter_out_total_low"@[26] == 'l',
        "tph_ir_e_pv_today_high"@.len() == 22,
        "tph_ir_e_pv_today_high"@[0] == 't',
        "tph_ir_e_pv_today_high"@[3] == '_',
        "tph_ir_e_pv_today_high"@[4] == 'i',
        "tph_ir_e_pv_today_high"@[7] == 'e',
        "tph_ir_e_pv_today_high"@[11] == '_',
        "tph_ir_e_pv_today_high"@[16] == 'y',
        "tph_ir_e_pv_today_low"@.len() == 21,
        "tph_ir_e_pv_today_low"@[0] == 't',
        "tph_ir_e_pv_today_low"@[3] == '_',
        "tph_ir_e_pv_today_low"@[4] == 'i',
        "tph_ir_e_pv_today_low"@[7] == 'e',
        "tph_ir_e_pv_today_low"@[16] == 'y',
        "tph_ir_e_pv_total_high"@.len() == 22,
        "tph_ir_e_pv_total_high"@[0] == 't',
        "tph_ir_e_pv_total_high"@[3] == '_',
        "tph_ir_e_pv_total_high"@[4] == 'i',
        "tph_ir_e_pv_total_high"@[7] == 'e',
        "tph_ir_e_pv_total_high"@[11] == '_',
        "tph_ir_e_pv_total_high"@[16] == 'l',
        "tph_ir_e_pv_total_low"@.len() == 21,
        "tph_ir_e_pv_total_low"@[0] == 't',
        "tph_ir_e_pv_total_low"@[3] == '_',
        "tph_ir_e_pv_total_low"@[4] == 'i',
        "tph_ir_e_pv_total_low"@[7] == 'e',
        "tph_ir_e_pv_total_low"@[16] == 'l',
        "tph_ir_e_ac_charge_today_high"@.len() == 29,
        "tph_ir_e_ac_charge_today_high"@[0] == 't',
        "tph_ir_e_ac_charge_today_high"@[3] == '_',
        "tph_ir_e_ac_charge_today_high"@[4] == 'i',
        "tph_ir_e_ac_charge_today_high"@[21] == 'd',
        "tph_ir_e_ac_charge_today_low"@.len() == 28,
        "tph_ir_e_ac_charge_today_low"@[0] == 't',
        "tph_ir_e_ac_charge_today_low"@[3] == '_',
        "tph_ir_e_ac_charge_today_low"@[4] == 'i',
        "tph_ir_e_ac_charge_today_low"@[7] == 'e',
        "tph_ir_e_ac_charge_today_low"@[21] == 'd',
        "tph_ir_e_ac_charge_total_high"@.len() == 29,
        "tph_ir_e_ac_charge_total_high"@[0] == 't',
        "tph_ir_e_ac_charge_total_high"@[3] == '_',
        "tph_ir_e_ac_charge_total_high"@[4] == 'i',
        "tph_ir_e_ac_charge_total_high"@[21] == 't',
        "tph_ir_e_ac_charge_total_low"@.len() == 28,
        "tph_ir_e_ac_charge_total_low"@[0] == 't',
        "tph_ir_e_ac_charge_total_low"@[3] == '_',
        "tph_ir_e_ac_charge_total_low"@[4] == 'i',
        "tph_ir_e_ac_charge_total_low"@[7] == 'e',
        "tph_ir_e_ac_charge_total_low"@[21] == 't',
        "tph_ir_e_import_total_high"@.len() == 26,
        "tph_ir_e_import_total_high"@[0] == 't',
        "tph_ir_e_import_total_high"@[3] == '_',
        "tph_ir_e_import_total_high"@[4] == 'i',
        "tph_ir_e_import_total_high"@[7] == 'e',
        "tph_ir_e_import_total_high"@[9] == 'i',
        "tph_ir_e_import_total_high"@[18] == 't',
        "tph_ir_e_import_total_low"@.len() == 25,
        "tph_ir_e_import_total_low"@[0] == 't',
        "tph_ir_e_import_total_low"@[3] == '_',
        "tph_ir_e_import_total_low"@[4] == 'i',
        "tph_ir_e_import_total_low"@[7] == 'e',
        "tph_ir_e_import_total_low"@[9] == 'i',
        "tph_ir_e_import_total_low"@[18] == 't',
        "tph_ir_e_export_total_high"@.len() == 26,
        "tph_ir_e_export_total_high"@[0] == 't',
        "tph_ir_e_export_total_high"@[3] == '_',
        "tph_ir_e_export_total_high"@[4] == 'i',
        "tph_ir_e_export_total_high"@[7] == 'e',
        "tph_ir_e_export_total_high"@[9] == 'e',
        "tph_ir_e_export_total_high"@[15] == '_',
        "tph_ir_e_export_total_high"@[18] == 't',
        "tph_ir_e_export_total_low"@.len() == 25,
        "tph_ir_e_export_total_low"@[0] == 't',
        "tph_ir_e_export_total_low"@[3] == '_',
        "tph_ir_e_export_total_low"@[4] == 'i',
        "tph_ir_e_export_total_low"@[7] == 'e',
        "tph_ir_e_export_total_low"@[9] == 'e',
        "tph_ir_e_export_total_low"@[18] == 't',
        "tph_ir_e_battery_discharge_total_high"@.len() == 37,
        "tph_ir_e_battery_discharge_total_high"@[0] == 't',
        "tph_ir_e_battery_discharge_total_high"@[3] == '_',
        "tph_ir_e_battery_discharge_total_high"@[4] == 'i',
        "tph_ir_e_battery_discharge_total_high"@[29] == 't',
        "tph_ir_e_battery_discharge_total_low"@.len() == 36,
        "tph_ir_e_battery_discharge_total_low"@[0] == 't',
        "tph_ir_e_battery_discharge_total_low"@[3] == '_',
        "tph_ir_e_battery_discharge_total_low"@[4] == 'i',
        "tph_ir_e_battery_discharge_total_low"@[29] == 't',
        "tph_ir_e_battery_charge_total_high"@.len() == 34,
        "tph_ir_e_battery_charge_total_high"@[0] == 't',
        "tph_ir_e_battery_charge_total_high"@[3] == '_',
        "tph_ir_e_battery_charge_total_high"@[4] == 'i',
        "tph_ir_e_battery_charge_total_high"@[26] == 't',
        "tph_ir_e_battery_charge_total_low"@.len() == 33,
        "tph_ir_e_battery_charge_total_low"@[0] == 't',
        "tph_ir_e_battery_charge_total_low"@[3] == '_',
        "tph_ir_e_battery_charge_total_low"@[4] == 'i',
        "tph_ir_e_battery_charge_total_low"@[26] == 't',
        "tph_ir_e_export2_today_high"@.len() == 27,
        "tph_ir_e_export2_today_high"@[0] == 't',
        "tph_ir_e_export2_today_high"@[3] == '_',
        "tph_ir_e_export2_today_high"@[4] == 'i',
        "tph_ir_e_export2_today_high"@[7] == 'e',
        "tph_ir_e_export2_today_high"@[21] == 'y',
        "tph_ir_e_export2_today_low"@.len() == 26,
        "tph_ir_e_export2_today_low"@[0] == 't',
        "tph_ir_e_export2_today_low"@[3] == '_',
        "tph_ir_e_export2_today_low"@[4] == 'i',
        "tph_ir_e_export2_today_low"@[7] == 'e',
        "tph_ir_e_export2_today_low"@[9] == 'e',
        "tph_ir_e_export2_today_low"@[15] == '2',
        "tph_ir_e_export2_today_low"@[21] == 'y',
        "tph_ir_e_export2_total_high"@.len() == 27,
        "tph_ir_e_export2_total_high"@[0] == 't',
        "tph_ir_e_export2_total_high"@[3] == '_',
        "tph_ir_e_export2_total_high"@[4] == 'i',
        "tph_ir_e_export2_total_high"@[7] == 'e',
        "tph_ir_e_export2_total_high"@[21] == 'l',
        "tph_ir_e_export2_total_low"@.len() == 26,
        "tph_ir_e_export2_total_low"@[0] == 't',
        "tph_ir_e_export2_total_low"@[3] == '_',
        "tph_ir_e_export2_total_low"@[4] == 'i',
        "tph_ir_e_export2_total_low"@[7] == 'e',
        "tph_ir_e_export2_total_low"@[9] == 'e',
        "tph_ir_e_export2_total_low"@[15] == '2',
        "tph_ir_e_export2_total_low"@[21] == 'l',
{
    reveal_strlit("tph_ir_e_pv1_today_high");
    reveal_strlit("tph_ir_e_pv1_today_low");
    reveal_strlit("tph_ir_e_pv2_today_high");
    reveal_strlit("tph_ir_e_pv2_today_low");
    reveal_strlit("tph_ir_e_pv1_total_high");
    reveal_strlit("tph_ir_e_pv1_total_low");
    reveal_strlit("tph_ir_e_pv2_total_high");
    reveal_strlit("tph_ir_e_pv2_total_low");
    reveal_strlit("tph_ir_e_import_today_high");
    reveal_strlit("tph_ir_e_import_today_low");
    reveal_strlit("tph_ir_e_export_today_high");
    reveal_strlit("tph_ir_e_export_today_low");
    reveal_strlit("tph_ir_e_battery_discharge_today_high");
    reveal_strlit("tph_ir_e_battery_discharge_today_low");
    reveal_strlit("tph_ir_e_battery_charge_today_high");
    reveal_strlit("tph_ir_e_battery_charge_today_low");
    reveal_strlit("tph_ir_e_load_today_high");
    reveal_strlit("tph_ir_e_load_today_low");
    reveal_strlit("tph_ir_e_load_total_high");
    reveal_strlit("tph_ir_e_load_total_low");
    reveal_strlit("tph_ir_e_inverter_out_today_high");
    reveal_strlit("tph_ir_e_inverter_out_today_low");
    reveal_strlit("tph_ir_e_inverter_out_total_high");
    reveal_strlit("tph_ir_e_inverter_out_total_low");
    reveal_strlit("tph_ir_e_pv_today_high");
    reveal_strlit("tph_ir_e_pv_today_low");
    reveal_strlit("tph_ir_e_pv_total_high");
    reveal_strlit("tph_ir_e_pv_total_low");
    reveal_strlit("tph_ir_e_ac_charge_today_high");
    reveal_strlit("tph_ir_e_ac_charge_today_low");
    reveal_strlit("tph_ir_e_ac_charge_total_high");
    reveal_strlit("tph_ir_e_ac_charge_total_low");
    reveal_strlit("tph_ir_e_import_total_high");
    reveal_strlit("tph_ir_e_import_total_low");
    reveal_strlit("tph_ir_e_export_total_high");
    reveal_strlit("tph_ir_e_export_total_low");
    reveal_strlit("tph_ir_e_battery_discharge_total_high");
    reveal_strlit("tph_ir_e_battery_discharge_total_low");
    reveal_strlit("tph_ir_e_battery_charge_total_high");
    reveal_strlit("tph_ir_e_battery_charge_total_low");
    reveal_strlit("tph_ir_e_export2_today_high");
    reveal_strlit("tph_ir_e_export2_today_low");
    reveal_strlit("tph_ir_e_export2_total_high");
    reveal_strlit("tph_ir_e_export2_total_low");
}

/// The names of the fault words of a three-phase inverter.
pub proof fn lemma_fault_names()
    ensures
        "ge_ir_threephase_fault_0"@.len() == 24,
        "ge_ir_threephase_fault_0"@[0] == 'g',
        "ge_ir_threephase_fault_0"@[3] == 'i',
        "ge_ir_threephase_fault_0"@[4] == 'r',
        "ge_ir_threephase_fault_0"@[6] == 't',
        "ge_ir_threephase_fault_0"@[23] == '0',
        "ge_ir_threephase_fault_1"@.len() == 24,
        "ge_ir_threephase_fault_1"@[0] == 'g',
        "ge_ir_threephase_fault_1"@[3] == 'i',
        "ge_ir_threephase_fault_1"@[4] == 'r',
        "ge_ir_threephase_fault_1"@[6] == 't',
        "ge_ir_threephase_fault_1"@[23] == '1',
        "ge_ir_threephase_fault_2"@.len() == 24,
        "ge_ir_threephase_fault_2"@[0] == 'g',
        "ge_ir_threephase_fault_2"@[3] == 'i',
        "ge_ir_threephase_fault_2"@[4] == 'r',
        "ge_ir_threephase_fault_2"@[6] == 't',
        "ge_ir_threephase_fault_2"@[23] == '2',
        "ge_ir_threephase_fault_3"@.len() == 24,
        "ge_ir_threephase_fault_3"@[0] == 'g',
        "ge_ir_threephase_fault_3"@[3] == 'i',
        "ge_ir_threephase_fault_3"@[4] == 'r',
        "ge_ir_threephase_fault_3"@[6] == 't',
        "ge_ir_threephase_fault_3"@[23] == '3',
        "ge_ir_threephase_fault_4"@.len() == 24,
        "ge_ir_threephase_fault_4"@[0] == 'g',
        "ge_ir_threephase_fault_4"@[3] == 'i',
        "ge_ir_threephase_fault_4"@[4] == 'r',
        "ge_ir_threephase_fault_4"@[6] == 't',
        "ge_ir_threephase_fault_4"@[23] == '4',
        "ge_ir_threephase_fault_5"@.len() == 24,
        "ge_ir_threephase_fault_5"@[0] == 'g',
        "ge_ir_threephase_fault_5"@[3] == 'i',
        "ge_ir_threephase_fault_5"@[4] == 'r',
        "ge_ir_threephase_fault_5"@[6] == 't',
        "ge_ir_threephase_fault_5"@[23] == '5',
        "ge_ir_threephase_fault_6"@.len() == 24,
        "ge_ir_threephase_fault_6"@[0] == 'g',
        "ge_ir_threephase_fault_6"@[3] == 'i',
        "ge_ir_threephase_fault_6"@[4] == 'r',
        "ge_ir_threephase_fault_6"@[6] == 't',
        "ge_ir_threephase_fault_6"@[23] == '6',
        "ge_ir_threephase_fault_7"@.len() == 24,
        "ge_ir_threephase_fault_7"@[0] == 'g',
        "ge_ir_threephase_fault_7"@[3] == 'i',
        "ge_ir_threephase_fault_7"@[4] == 'r',
        "ge_ir_threephase_fault_7"@[6] == 't',
        "ge_ir_threephase_fault_7"@[23] == '7',
{
    reveal_strlit("ge_ir_threephase_fault_0");
    reveal_strlit("ge_ir_threephase_fault_1");
    reveal_strlit("ge_ir_threephase_fault_2");
    reveal_strlit("ge_ir_threephase_fault_3");
    reveal_strlit("ge_ir_threephase_fault_4");
    reveal_strlit("ge_ir_threephase_fault_5");
    reveal_strlit("ge_ir_threephase_fault_6");
    reveal_strlit("ge_ir_threephase_fault_7");
}

/// The names of the input registers of the energy management system.
pub proof fn lemma_ems_names()
    ensures
        "ems_ir_status"@.len() == 13,
        "ems_ir_status"@[0] == 'e',
        "ems_ir_status"@[3] == '_',
        "ems_ir_status"@[4] == 'i',
        "ems_ir_inverter_count"@.len() == 21,
        "ems_ir_inverter_count"@[0] == 'e',
        "ems_ir_inverter_count"@[3] == '_',
        "ems_ir_inverter_count"@[4] == 'i',
        "ems_ir_inverter_count"@[16] == 'c',
        "ems_ir_inverter_1_soc"@.len() == 21,
        "ems_ir_inverter_1_soc"@[0] == 'e',
        "ems_ir_inverter_1_soc"@[3] == '_',
        "ems_ir_inverter_1_soc"@[4] == 'i',
        "ems_ir_inverter_1_soc"@[16] == '1',
        "ems_ir_inverter_1_power"@.len() == 23,
        "ems_ir_inverter_1_power"@[0] == 'e',
        "ems_ir_inverter_1_power"@[3] == '_',
        "ems_ir_inverter_1_power"@[4] == 'i',
        "ems_ir_inverter_1_power"@[7] == 'i',
        "ems_ir_inverter_1_power"@[16] == '1',
        "ems_ir_total_battery_power"@.len() == 26,
        "ems_ir_total_battery_power"@[0] == 'e',
        "ems_ir_total_battery_power"@[3] == '_',
        "ems_ir_total_battery_power"@[4] == 'i',
        "ems_ir_total_battery_power"@[7] == 't',
        "ems_ir_inverter_1_temp"@.len() == 22,
        "ems_ir_inverter_1_temp"@[0] == 'e',
        "ems_ir_inverter_1_temp"@[3] == '_',
        "ems_ir_inverter_1_temp"@[4] == 'i',
        "ems_ir_inverter_1_temp"@[7] == 'i',
        "ems_ir_inverter_1_temp"@[16] == '1',
        "ems_ir_grid_meter_power"@.len() == 23,
        "ems_ir_grid_meter_power"@[0] == 'e',
        "ems_ir_grid_meter_power"@[3] == '_',
        "ems_ir_grid_meter_power"@[4] == 'i',
        "ems_ir_grid_meter_power"@[7] == 'g',
        "ems_ir_remaining_battery_wh"@.len() == 27,
        "ems_ir_remaining_battery_wh"@[0] == 'e',
        "ems_ir_remaining_battery_wh"@[3] == '_',
        "ems_ir_remaining_battery_wh"@[4] == 'i',
        "ems_ir_meter_count"@.len() == 18,
        "ems_ir_meter_count"@[0] == 'e',
        "ems_ir_meter_count"@[3] == '_',
        "ems_ir_meter_count"@[4] == 'i',
        "ems_ir_meter_count"@[13] == 'c',
        "ems_ir_meter_types"@.len() == 18,
        "ems_ir_meter_types"@[0] == 'e',
        "ems_ir_meter_types"@[3] == '_',
        "ems_ir_meter_types"@[4] == 'i',
        "ems_ir_meter_types"@[13] == 't',
        "ems_ir_meter_status"@.len() == 19,
        "ems_ir_meter_status"@[0] == 'e',
        "ems_ir_meter_status"@[3] == '_',
        "ems_ir_meter_status"@[4] == 'i',
        "ems_ir_inverter_status"@.len() == 22,
        "ems_ir_inverter_status"@[0] == 'e',
        "ems_ir_inverter_status"@[3] == '_',
        "ems_ir_inverter_status"@[4] == 'i',
        "ems_ir_inverter_status"@[7] == 'i',
        "ems_ir_inverter_status"@[16] == 's',
        "ems_ir_meter_1_power"@.len() == 20,
        "ems_ir_meter_1_power"@[0] == 'e',
        "ems_ir_meter_1_power"@[3] == '_',
        "ems_ir_meter_1_power"@[4] == 'i',
        "ems_ir_meter_1_power"@[13] == '1',
        "ems_ir_meter_2_power"@.len() == 20,
        "ems_ir_meter_2_power"@[0] == 'e',
        "ems_ir_meter_2_power"@[3] == '_',
        "ems_ir_meter_2_power"@[4] == 'i',
        "ems_ir_meter_2_power"@[13] == '2',
        "ems_ir_meter_3_power"@.len() == 20,
        "ems_ir_meter_3_power"@[0] == 'e',
        "ems_ir_meter_3_power"@[3] == '_',
        "ems_ir_meter_3_power"@[4] == 'i',
        "ems_ir_meter_3_power"@[13] == '3',
        "ems_ir_meter_4_power"@.len() == 20,
        "ems_ir_meter_4_power"@[0] == 'e',
        "ems_ir_meter_4_power"@[3] == '_',
        "ems_ir_meter_4_power"@[4] == 'i',
        "ems_ir_meter_4_power"@[13] == '4',
        "ems_ir_meter_5_power"@.len() == 20,
        "ems_ir_meter_5_power"@[0] == 'e',
        "ems_ir_meter_5_power"@[3] == '_',
        "ems_ir_meter_5_power"@[4] == 'i',
        "ems_ir_meter_5_power"@[13] == '5',
        "ems_ir_meter_6_power"@.len() == 20,
        "ems_ir_meter_6_power"@[0] == 'e',
        "ems_ir_meter_6_power"@[3] == '_',
        "ems_ir_meter_6_power"@[4] == 'i',
        "ems_ir_meter_6_power"@[13] == '6',
        "ems_ir_meter_7_power"@.len() == 20,
        "ems_ir_meter_7_power"@[0] == 'e',
        "ems_ir_meter_7_power"@[3] == '_',
        "ems_ir_meter_7_power"@[4] == 'i',
        "ems_ir_meter_7_power"@[13] == '7',
        "ems_ir_meter_8_power"@.len() == 20,
        "ems_ir_meter_8_power"@[0] == 'e',
        "ems_ir_meter_8_power"@[3] == '_',
        "ems_ir_meter_8_power"@[4] == 'i',
        "ems_ir_meter_8_power"@[13] == '8',
        "ems_ir_inverter_2_power"@.len() == 23,
        "ems_ir_inverter_2_power"@[0] == 'e',
        "ems_ir_inverter_2_power"@[3] == '_',
        "ems_ir_inverter_2_power"@[4] == 'i',
        "ems_ir_inverter_2_power"@[7] == 'i',
        "ems_ir_inverter_2_power"@[16] == '2',
        "ems_ir_inverter_3_power"@.len() == 23,
        "ems_ir_inverter_3_power"@[0] == 'e',
        "ems_ir_inverter_3_power"@[3] == '_',
        "ems_ir_inverter_3_power"@[4] == 'i',
        "ems_ir_inverter_3_power"@[7] == 'i',
        "ems_ir_inverter_3_power"@[16] == '3',
        "ems_ir_inverter_4_power"@.len() == 23,
        "ems_ir_inverter_4_power"@[0] == 'e',
        "ems_ir_inverter_4_power"@[3] == '_',
        "ems_ir_inverter_4_power"@[4] == 'i',
        "ems_ir_inverter_4_power"@[7] == 'i',
        "ems_ir_inverter_4_power"@[16] == '4',
        "ems_ir_inverter_2_soc"@.len() == 21,
        "ems_ir_inverter_2_soc"@[0] == 'e',
        "ems_ir_inverter_2_soc"@[3] == '_',
        "ems_ir_inverter_2_soc"@[4] == 'i',
        "ems_ir_inverter_2_soc"@[16] == '2',
        "ems_ir_inverter_3_soc"@.len() == 21,
        "ems_ir_inverter_3_soc"@[0] == 'e',
        "ems_ir_inverter_3_soc"@[3] == '_',
        "ems_ir_inverter_3_soc"@[4] == 'i',
        "ems_ir_inverter_3_soc"@[16] == '3',
        "ems_ir_inverter_4_soc"@.len() == 21,
        "ems_ir_inverter_4_soc"@[0] == 'e',
        "ems_ir_inverter_4_soc"@[3] == '_',
        "ems_ir_inverter_4_soc"@[4] == 'i',
        "ems_ir_inverter_4_soc"@[16] == '4',
        "ems_ir_inverter_2_temp"@.len() == 22,
        "ems_ir_inverter_2_temp"@[0] == 'e',
        "ems_ir_inverter_2_temp"@[3] == '_',
        "ems_ir_inverter_2_temp"@[4] == 'i',
        "ems_ir_inverter_2_temp"@[7] == 'i',
        "ems_ir_inverter_2_temp"@[16] == '2',
        "ems_ir_inverter_3_temp"@.len() == 22,
        "ems_ir_inverter_3_temp"@[0] == 'e',
        "ems_ir_inverter_3_temp"@[3] == '_',
        "ems_ir_inverter_3_temp"@[4] == 'i',
        "ems_ir_inverter_3_temp"@[7] == 'i',
        "ems_ir_inverter_3_temp"@[16] == '3',
        "ems_ir_inverter_4_temp"@.len() == 22,
        "ems_ir_inverter_4_temp"@[0] == 'e',
        "ems_ir_inverter_4_temp"@[3] == '_',
        "ems_ir_inverter_4_temp"@[4] == 'i',
        "ems_ir_inverter_4_temp"@[7] == 'i',
        "ems_ir_inverter_4_temp"@[16] == '4',
        "ems_ir_inverter_1_serial"@.len() == 24,
        "ems_ir_inverter_1_serial"@[0] == 'e',
        "ems_ir_inverter_1_serial"@[3] == '_',
        "ems_ir_inverter_1_serial"@[4] == 'i',
        "ems_ir_inverter_1_serial"@[16] == '1',
        "ems_ir_calc_load_power"@.len() == 22,
        "ems_ir_calc_load_power"@[0] == 'e',
        "ems_ir_calc_load_power"@[3] == '_',
        "ems_ir_calc_load_power"@[4] == 'i',
        "ems_ir_calc_load_power"@[7] == 'c',
        "ems_ir_measured_load_power"@.len() == 26,
        "ems_ir_measured_load_power"@[0] == 'e',
        "ems_ir_measured_load_power"@[3] == '_',
        "ems_ir_measured_load_power"@[4] == 'i',
        "ems_ir_measured_load_power"@[7] == 'm',
        "ems_ir_total_generation_load_power"@.len() == 34,
        "ems_ir_total_generation_load_power"@[0] == 'e',
        "ems_ir_total_generation_load_power"@[3] == '_',
        "ems_ir_total_generation_load_power"@[4] == 'i',
        "ems_ir_other_battery_power"@.len() == 26,
        "ems_ir_other_battery_power"@[0] == 'e',
        "ems_ir_other_battery_power"@[3] == '_',
        "ems_ir_other_battery_power"@[4] == 'i',
        "ems_ir_other_battery_power"@[7] == 'o',
        "ems_ir_inverter_2_serial"@.len() == 24,
        "ems_ir_inverter_2_serial"@[0] == 'e',
        "ems_ir_inverter_2_serial"@[3] == '_',
        "ems_ir_inverter_2_serial"@[4] == 'i',
        "ems_ir_inverter_2_serial"@[16] == '2',
        "ems_ir_inverter_3_serial"@.len() == 24,
        "ems_ir_inverter_3_serial"@[0] == 'e',
        "ems_ir_inverter_3_serial"@[3] == '_',
        "ems_ir_inverter_3_serial"@[4] == 'i',
        "ems_ir_inverter_3_serial"@[16] == '3',
        "ems_ir_inverter_4_serial"@.len() == 24,
        "ems_ir_inverter_4_serial"@[0] == 'e',
        "ems_ir_inverter_4_serial"@[3] == '_',
        "ems_ir_inverter_4_serial"@[4] == 'i',
        "ems_ir_inverter_4_serial"@[16] == '4',
{
    reveal_strlit("ems_ir_status");
    reveal_strlit("ems_ir_inverter_count");
    reveal_strlit("ems_ir_inverter_1_soc");
    reveal_strlit("ems_ir_inverter_1_power");
    reveal_strlit("ems_ir_total_battery_power");
    reveal_strlit("ems_ir_inverter_1_temp");
    reveal_strlit("ems_ir_grid_meter_power");
    reveal_strlit("ems_ir_remaining_battery_wh");
    reveal_strlit("ems_ir_meter_count");
    reveal_strlit("ems_ir_meter_types");
    reveal_strlit("ems_ir_meter_status");
    reveal_strlit("ems_ir_inverter_status");
    reveal_strlit("ems_ir_meter_1_power");
    reveal_strlit("ems_ir_meter_2_power");
    reveal_strlit("ems_ir_meter_3_power");
    reveal_strlit("ems_ir_meter_4_power");
    reveal_strlit("ems_ir_meter_5_power");
    reveal_strlit("ems_ir_meter_6_power");
    reveal_strlit("ems_ir_meter_7_power");
    reveal_strlit("ems_ir_meter_8_power");
    reveal_strlit("ems_ir_inverter_2_power");
    reveal_strlit("ems_ir_inverter_3_power");
    reveal_strlit("ems_ir_inverter_4_power");
    reveal_strlit("ems_ir_inverter_2_soc");
    reveal_strlit("ems_ir_inverter_3_soc");
    reveal_strlit("ems_ir_inverter_4_soc");
    reveal_strlit("ems_ir_inverter_2_temp");
    reveal_strlit("ems_ir_inverter_3_temp");
    reveal_strlit("ems_ir_inverter_4_temp");
    reveal_strlit("ems_ir_inverter_1_serial");
    reveal_strlit("ems_ir_calc_load_power");
    reveal_strlit("ems_ir_measured_load_power");
    reveal_strlit("ems_ir_total_generation_load_power");
    reveal_strlit("ems_ir_other_battery_power");
    reveal_strlit("ems_ir_inverter_2_serial");
    reveal_strlit("ems_ir_inverter_3_serial");
    reveal_strlit("ems_ir_inverter_4_serial");
}

/// Native input registers begin alike.
pub proof fn lemma_native_shape(name: Seq<char>, scale: int, s: PlantState)
    ensures
        native_input::input_a(name, scale, s) is Some || native_input::input_b(name, scale, s) is Some
            || three_phase::is_fault_register(name) ==> name[0] == 'g' && name[3] == 'i',
{
    lemma_input_a_names();
    lemma_input_b_names();
    lemma_fault_names();
}

/// Registers of the meter begin alike.
pub proof fn lemma_meter_shape(name: Seq<char>, scale: int, s: PlantState)
    ensures
        meter::meter(name, scale, s) is Some || text::has_prefix(name, "meter_"@) ==> name[0] == 'm',
{
    lemma_meter_names();
    reveal_strlit("meter_");
    assert("meter_"@[0] == 'm');
    assert(name.len() >= 6 ==> name.subrange(0, 6)[0] == name[0]);
}

/// Input registers of the energy management system begin alike.
pub proof fn lemma_ems_shape(name: Seq<char>, scale: int, s: PlantState)
    ensures
        ems::ems(name, scale, s) is Some ==> name[0] == 'e' && name[4] == 'i',
{
    lemma_ems_names();
    reveal_strlit("ems_ir_");
    assert("ems_ir_"@[0] == 'e' && "ems_ir_"@[4] == 'i');
    assert(name.len() >= 7 ==> name.subrange(0, 7)[0] == name[0] && name.subrange(0, 7)[4]
        == name[4]);
}

/// No native holding register and no register of the simulator begins like a
/// three-phase reading.
pub proof fn lemma_holding_shape(name: Seq<char>, scale: int, s: PlantState)
    ensures
        holding::holding_a(name, scale, s) is Some || holding::holding_b(name, scale, s) is Some
            || internal::internal(name, scale, s) is Some ==> !(name[0] == 't' && name[4] == 'i'),
{
    lemma_holding_a_names();
    lemma_holding_b_names();
    lemma_internal_names();
}

/// Three-phase readings begin alike.
pub proof fn lemma_three_phase_shape(name: Seq<char>, scale: int, s: PlantState)
    ensures
        three_phase::three_phase_power(name, scale, s) is Some || three_phase::three_phase_energy(
            name,
            scale,
            s,
        ) is Some ==> name[0] == 't' && name[4] == 'i',
{
    lemma_three_phase_power_names();
    lemma_three_phase_energy_names();
}

/// A native input register shows what its own block says.
pub proof fn lemma_native(d: Definition, s: PlantState)
    requires
        d.name[0] == 'g',
        !three_phase::is_fault_register(d.name),
        native_input::input_a(d.name, d.scale, s) is Some || native_input::input_b(
            d.name,
            d.scale,
            s,
        ) is Some,
    ensures
        projection::projected(d, s) == projection::either(
            native_input::input_a(d.name, d.scale, s),
            native_input::input_b(d.name, d.scale, s),
        ),
{
    reveal(projection::projected);
    lemma_meter_shape(d.name, d.scale, s);
}

/// A fault word of a three-phase inverter shows the faults of its place.
pub proof fn lemma_fault_word(d: Definition, s: PlantState)
    requires
        d.name[0] == 'g',
        three_phase::is_fault_register(d.name),
    ensures
        projection::projected(d, s) == Some(three_phase::three_phase_faults(d.address - 1300, s)),
{
    reveal(projection::projected);
    lemma_meter_shape(d.name, d.scale, s);
}

/// A register of the meter shows what its block says, and zero without a meter.
pub proof fn lemma_meter(d: Definition, s: PlantState)
    requires
        d.name[0] == 'm',
        text::has_prefix(d.name, "meter_"@),
        meter::meter(d.name, d.scale, s) is Some,
    ensures
        projection::projected(d, s) == (if s.config.ct_meter_installed {
            meter::meter(d.name, d.scale, s)
        } else {
            Some(0int)
        }),
{
    reveal(projection::projected);
    lemma_native_shape(d.name, d.scale, s);
}

/// An input register of the energy management system shows what its block says.
pub proof fn lemma_ems(d: Definition, s: PlantState)
    requires
        d.name[0] == 'e',
        ems::ems(d.name, d.scale, s) is Some,
    ensures
        projection::projected(d, s) == ems::ems(d.name, d.scale, s),
{
    reveal(projection::projected);
    lemma_native_shape(d.name, d.scale, s);
    lemma_meter_shape(d.name, d.scale, s);
}

/// A holding register shows what the first block that knows it says.
pub proof fn lemma_holding(d: Definition, s: PlantState)
    requires
        !(d.name[0] == 'g' && d.name[3] == 'i'),
        d.name[0] != 'm',
        !(d.name[0] == 'e' && d.name[4] == 'i'),
        !(d.name[0] == 't' && d.name[4] == 'i'),
    ensures
        projection::projected(d, s) == projection::either(
            holding::holding_a(d.name, d.scale, s),
            projection::either(
                holding::holding_b(d.name, d.scale, s),
                internal::internal(d.name, d.scale, s),
            ),
        ),
{
    reveal(projection::projected);
    lemma_native_shape(d.name, d.scale, s);
    lemma_meter_shape(d.name, d.scale, s);
    lemma_ems_shape(d.name, d.scale, s);
    lemma_three_phase_shape(d.name, d.scale, s);
}

/// A three-phase reading shows what its own blocks say.
pub proof fn lemma_three_phase(d: Definition, s: PlantState)
    requires
        d.name[0] == 't',
        d.name[4] == 'i',
    ensures
        projection::projected(d, s) == projection::either(
            three_phase::three_phase_power(d.name, d.scale, s),
            three_phase::three_phase_energy(d.name, d.scale, s),
        ),
{
    reveal(projection::projected);
    lemma_native_shape(d.name, d.scale, s);
    lemma_meter_shape(d.name, d.scale, s);
    lemma_ems_shape(d.name, d.scale, s);
    lemma_holding_shape(d.name, d.scale, s);
}

/// The names that begin with "ems_ir_".
pub proof fn lemma_ems_prefixes()
    ensures
        text::has_prefix("ems_ir_status"@, "ems_ir_"@),
        text::has_prefix("ems_ir_inverter_count"@, "ems_ir_"@),
        text::has_prefix("ems_ir_inverter_1_soc"@, "ems_ir_"@),
        text::has_prefix("ems_ir_inverter_1_power"@, "ems_ir_"@),
        text::has_prefix("ems_ir_total_battery_power"@, "ems_ir_"@),
        text::has_prefix("ems_ir_inverter_1_temp"@, "ems_ir_"@),
        text::has_prefix("ems_ir_grid_meter_power"@, "ems_ir_"@),
        text::has_prefix("ems_ir_remaining_battery_wh"@, "ems_ir_"@),
        text::has_prefix("ems_ir_meter_count"@, "ems_ir_"@),
        text::has_prefix("ems_ir_meter_types"@, "ems_ir_"@),
        text::has_prefix("ems_ir_meter_status"@, "ems_ir_"@),
        text::has_prefix("ems_ir_inverter_status"@, "ems_ir_"@),
        text::has_prefix("ems_ir_meter_1_power"@, "ems_ir_"@),
        text::has_prefix("ems_ir_meter_2_power"@, "ems_ir_"@),
        text::has_prefix("ems_ir_meter_3_power"@, "ems_ir_"@),
        text::has_prefix("ems_ir_meter_4_power"@, "ems_ir_"@),
        text::has_prefix("ems_ir_meter_5_power"@, "ems_ir_"@),
        text::has_prefix("ems_ir_meter_6_power"@, "ems_ir_"@),
        text::has_prefix("ems_ir_meter_7_power"@, "ems_ir_"@),
        text::has_prefix("ems_ir_meter_8_power"@, "ems_ir_"@),
        text::has_prefix("ems_ir_inverter_2_power"@, "ems_ir_"@),
        text::has_prefix("ems_ir_inverter_3_power"@, "ems_ir_"@),
        text::has_prefix("ems_ir_inverter_4_power"@, "ems_ir_"@),
        text::has_prefix("ems_ir_inverter_2_soc"@, "ems_ir_"@),
        text::has_prefix("ems_ir_inverter_3_soc"@, "ems_ir_"@),
        text::has_prefix("ems_ir_inverter_4_soc"@, "ems_ir_"@),
        text::has_prefix("ems_ir_inverter_2_temp"@, "ems_ir_"@),
        text::has_prefix("ems_ir_inverter_3_temp"@, "ems_ir_"@),
        text::has_prefix("ems_ir_inverter_4_temp"@, "ems_ir_"@),
        text::has_prefix("ems_ir_inverter_1_serial"@, "ems_ir_"@),
        text::has_prefix("ems_ir_calc_load_power"@, "ems_ir_"@),
        text::has_prefix("ems_ir_measured_load_power"@, "ems_ir_"@),
        text::has_prefix("ems_ir_total_generation_load_power"@, "ems_ir_"@),
        text::has_prefix("ems_ir_other_battery_power"@, "ems_ir_"@),
        text::has_prefix("ems_ir_inverter_2_serial"@, "ems_ir_"@),
        text::has_prefix("ems_ir_inverter_3_serial"@, "ems_ir_"@),
        text::has_prefix("ems_ir_inverter_4_serial"@, "ems_ir_"@),
{
    reveal_strlit("ems_ir_");
    reveal_strlit("ems_ir_status");
    assert("ems_ir_status"@.subrange(0, 7) =~= "ems_ir_"@);
    reveal_strlit("ems_ir_inverter_count");
    assert("ems_ir_inverter_count"@.subrange(0, 7) =~= "ems_ir_"@);
    reveal_strlit("ems_ir_inverter_1_soc");
    assert("ems_ir_inverter_1_soc"@.subrange(0, 7) =~= "ems_ir_"@);
    reveal_strlit("ems_ir_inverter_1_power");
    assert("ems_ir_inverter_1_power"@.subrange(0, 7) =~= "ems_ir_"@);
    reveal_strlit("ems_ir_total_battery_power");
    assert("ems_ir_total_battery_power"@.subrange(0, 7) =~= "ems_ir_"@);
    reveal_strlit("ems_ir_inverter_1_temp");
    assert("ems_ir_inverter_1_temp"@.subrange(0, 7) =~= "ems_ir_"@);
    reveal_strlit("ems_ir_grid_meter_power");
    assert("ems_ir_grid_meter_power"@.subrange(0, 7) =~= "ems_ir_"@);
    reveal_strlit("ems_ir_remaining_battery_wh");
    assert("ems_ir_remaining_battery_wh"@.subrange(0, 7) =~= "ems_ir_"@);
    reveal_strlit("ems_ir_meter_count");
    assert("ems_ir_meter_count"@.subrange(0, 7) =~= "ems_ir_"@);
    reveal_strlit("ems_ir_meter_types");
    assert("ems_ir_meter_types"@.subrange(0, 7) =~= "ems_ir_"@);
    reveal_strlit("ems_ir_meter_status");
    assert("ems_ir_meter_status"@.subrange(0, 7) =~= "ems_ir_"@);
    reveal_strlit("ems_ir_inverter_status");
    assert("ems_ir_inverter_status"@.subrange(0, 7) =~= "ems_ir_"@);
    reveal_strlit("ems_ir_meter_1_power");
    assert("ems_ir_meter_1_power"@.subrange(0, 7) =~= "ems_ir_"@);
    reveal_strlit("ems_ir_meter_2_power");
    assert("ems_ir_meter_2_power"@.subrange(0, 7) =~= "ems_ir_"@);
    reveal_strlit("ems_ir_meter_3_power");
    assert("ems_ir_meter_3_power"@.subrange(0, 7) =~= "ems_ir_"@);
    reveal_strlit("ems_ir_meter_4_power");
    assert("ems_ir_meter_4_power"@.subrange(0, 7) =~= "ems_ir_"@);
    reveal_strlit("ems_ir_meter_5_power");
    assert("ems_ir_meter_5_power"@.subrange(0, 7) =~= "ems_ir_"@);
    reveal_strlit("ems_ir_meter_6_power");
    assert("ems_ir_meter_6_power"@.subrange(0, 7) =~= "ems_ir_"@);
    reveal_strlit("ems_ir_meter_7_power");
    assert("ems_ir_meter_7_power"@.subrange(0, 7) =~= "ems_ir_"@);
    reveal_strlit("ems_ir_meter_8_power");
    assert("ems_ir_meter_8_power"@.subrange(0, 7) =~= "ems_ir_"@);
    reveal_strlit("ems_ir_inverter_2_power");
    assert("ems_ir_inverter_2_power"@.subrange(0, 7) =~= "ems_ir_"@);
    reveal_strlit("ems_ir_inverter_3_power");
    assert("ems_ir_inverter_3_power"@.subrange(0, 7) =~= "ems_ir_"@);
    reveal_strlit("ems_ir_inverter_4_power");
    assert("ems_ir_inverter_4_power"@.subrange(0, 7) =~= "ems_ir_"@);
    reveal_strlit("ems_ir_inverter_2_soc");
    assert("ems_ir_inverter_2_soc"@.subrange(0, 7) =~= "ems_ir_"@);
    reveal_strlit("ems_ir_inverter_3_soc");
    assert("ems_ir_inverter_3_soc"@.subrange(0, 7) =~= "ems_ir_"@);
    reveal_strlit("ems_ir_inverter_4_soc");
    assert("ems_ir_inverter_4_soc"@.subrange(0, 7) =~= "ems_ir_"@);
    reveal_strlit("ems_ir_inverter_2_temp");
    assert("ems_ir_inverter_2_temp"@.subrange(0, 7) =~= "ems_ir_"@);
    reveal_strlit("ems_ir_inverter_3_temp");
    assert("ems_ir_inverter_3_temp"@.subrange(0, 7) =~= "ems_ir_"@);
    reveal_strlit("ems_ir_inverter_4_temp");
    assert("ems_ir_inverter_4_temp"@.subrange(0, 7) =~= "ems_ir_"@);
    reveal_strlit("ems_ir_inverter_1_serial");
    assert("ems_ir_inverter_1_serial"@.subrange(0, 7) =~= "ems_ir_"@);
    reveal_strlit("ems_ir_calc_load_power");
    assert("ems_ir_calc_load_power"@.subrange(0, 7) =~= "ems_ir_"@);
    reveal_strlit("ems_ir_measured_load_power");
    assert("ems_ir_measured_load_power"@.subrange(0, 7) =~= "ems_ir_"@);
    reveal_strlit("ems_ir_total_generation_load_power");
    assert("ems_ir_total_generation_load_power"@.subrange(0, 7) =~= "ems_ir_"@);
    reveal_strlit("ems_ir_other_battery_power");
    assert("ems_ir_other_battery_power"@.subrange(0, 7) =~= "ems_ir_"@);
    reveal_strlit("ems_ir_inverter_2_serial");
    assert("ems_ir_inverter_2_serial"@.subrange(0, 7) =~= "ems_ir_"@);
    reveal_strlit("ems_ir_inverter_3_serial");
    assert("ems_ir_inverter_3_serial"@.subrange(0, 7) =~= "ems_ir_"@);
    reveal_strlit("ems_ir_inverter_4_serial");
    assert("ems_ir_inverter_4_serial"@.subrange(0, 7) =~= "ems_ir_"@);
}

/// The names that begin with "meter_".
pub proof fn lemma_meter_prefixes()
    ensures
        text::has_prefix("meter_v_phase_1"@, "meter_"@),
        text::has_prefix("meter_v_phase_2"@, "meter_"@),
        text::has_prefix("meter_v_phase_3"@, "meter_"@),
        text::has_prefix("meter_i_phase_1"@, "meter_"@),
        text::has_prefix("meter_i_phase_2"@, "meter_"@),
        text::has_prefix("meter_i_phase_3"@, "meter_"@),
        text::has_prefix("meter_i_ln"@, "meter_"@),
        text::has_prefix("meter_i_total"@, "meter_"@),
        text::has_prefix("meter_p_active_phase_1"@, "meter_"@),
        text::has_prefix("meter_p_active_phase_2"@, "meter_"@),
        text::has_prefix("meter_p_active_phase_3"@, "meter_"@),
        text::has_prefix("meter_p_active_total"@, "meter_"@),
        text::has_prefix("meter_p_reactive_phase_1"@, "meter_"@),
        text::has_prefix("meter_p_reactive_phase_2"@, "meter_"@),
        text::has_prefix("meter_p_reactive_phase_3"@, "meter_"@),
        text::has_prefix("meter_p_reactive_total"@, "meter_"@),
        text::has_prefix("meter_p_apparent_phase_1"@, "meter_"@),
        text::has_prefix("meter_p_apparent_phase_2"@, "meter_"@),
        text::has_prefix("meter_p_apparent_phase_3"@, "meter_"@),
        text::has_prefix("meter_p_apparent_total"@, "meter_"@),
        text::has_prefix("meter_pf_phase_1"@, "meter_"@),
        text::has_prefix("meter_pf_total"@, "meter_"@),
        text::has_prefix("meter_pf_phase_2"@, "meter_"@),
        text::has_prefix("meter_pf_phase_3"@, "meter_"@),
        text::has_prefix("meter_frequency"@, "meter_"@),
        text::has_prefix("meter_e_import_active"@, "meter_"@),
        text::has_prefix("meter_e_import_reactive"@, "meter_"@),
        text::has_prefix("meter_e_export_reactive"@, "meter_"@),
        text::has_prefix("meter_reserved"@, "meter_"@),
        text::has_prefix("meter_e_export_active"@, "meter_"@),
{
    reveal_strlit("meter_");
    reveal_strlit("meter_v_phase_1");
    assert("meter_v_phase_1"@.subrange(0, 6) =~= "meter_"@);
    reveal_strlit("meter_v_phase_2");
    assert("meter_v_phase_2"@.subrange(0, 6) =~= "meter_"@);
    reveal_strlit("meter_v_phase_3");
    assert("meter_v_phase_3"@.subrange(0, 6) =~= "meter_"@);
    reveal_strlit("meter_i_phase_1");
    assert("meter_i_phase_1"@.subrange(0, 6) =~= "meter_"@);
    reveal_strlit("meter_i_phase_2");
    assert("meter_i_phase_2"@.subrange(0, 6) =~= "meter_"@);
    reveal_strlit("meter_i_phase_3");
    assert("meter_i_phase_3"@.subrange(0, 6) =~= "meter_"@);
    reveal_strlit("meter_i_ln");
    assert("meter_i_ln"@.subrange(0, 6) =~= "meter_"@);
    reveal_strlit("meter_i_total");
    assert("meter_i_total"@.subrange(0, 6) =~= "meter_"@);
    reveal_strlit("meter_p_active_phase_1");
    assert("meter_p_active_phase_1"@.subrange(0, 6) =~= "meter_"@);
    reveal_strlit("meter_p_active_phase_2");
    assert("meter_p_active_phase_2"@.subrange(0, 6) =~= "meter_"@);
    reveal_strlit("meter_p_active_phase_3");
    assert("meter_p_active_phase_3"@.subrange(0, 6) =~= "meter_"@);
    reveal_strlit("meter_p_active_total");
    assert("meter_p_active_total"@.subrange(0, 6) =~= "meter_"@);
    reveal_strlit("meter_p_reactive_phase_1");
    assert("meter_p_reactive_phase_1"@.subrange(0, 6) =~= "meter_"@);
    reveal_strlit("meter_p_reactive_phase_2");
    assert("meter_p_reactive_phase_2"@.subrange(0, 6) =~= "meter_"@);
    reveal_strlit("meter_p_reactive_phase_3");
    assert("meter_p_reactive_phase_3"@.subrange(0, 6) =~= "meter_"@);
    reveal_strlit("meter_p_reactive_total");
    assert("meter_p_reactive_total"@.subrange(0, 6) =~= "meter_"@);
    reveal_strlit("meter_p_apparent_phase_1");
    assert("meter_p_apparent_phase_1"@.subrange(0, 6) =~= "meter_"@);
    reveal_strlit("meter_p_apparent_phase_2");
    assert("meter_p_apparent_phase_2"@.subrange(0, 6) =~= "meter_"@);
    reveal_strlit("meter_p_apparent_phase_3");
    assert("meter_p_apparent_phase_3"@.subrange(0, 6) =~= "meter_"@);
    reveal_strlit("meter_p_apparent_total");
    assert("meter_p_apparent_total"@.subrange(0, 6) =~= "meter_"@);
    reveal_strlit("meter_pf_phase_1");
    assert("meter_pf_phase_1"@.subrange(0, 6) =~= "meter_"@);
    reveal_strlit("meter_pf_total");
    assert("meter_pf_total"@.subrange(0, 6) =~= "meter_"@);
    reveal_strlit("meter_pf_phase_2");
    assert("meter_pf_phase_2"@.subrange(0, 6) =~= "meter_"@);
    reveal_strlit("meter_pf_phase_3");
    assert("meter_pf_phase_3"@.subrange(0, 6) =~= "meter_"@);
    reveal_strlit("meter_frequency");
    assert("meter_frequency"@.subrange(0, 6) =~= "meter_"@);
    reveal_strlit("meter_e_import_active");
    assert("meter_e_import_active"@.subrange(0, 6) =~= "meter_"@);
    reveal_strlit("meter_e_import_reactive");
    assert("meter_e_import_reactive"@.subrange(0, 6) =~= "meter_"@);
    reveal_strlit("meter_e_export_reactive");
    assert("meter_e_export_reactive"@.subrange(0, 6) =~= "meter_"@);
    reveal_strlit("meter_reserved");
    assert("meter_reserved"@.subrange(0, 6) =~= "meter_"@);
    reveal_strlit("meter_e_export_active");
    assert("meter_e_export_active"@.subrange(0, 6) =~= "meter_"@);
}

} // verus!
