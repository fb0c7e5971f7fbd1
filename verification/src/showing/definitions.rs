//! The definitions of the catalogue by storage key.
use crate::catalogue;
use crate::catalogue::{definition_at, row};
use crate::registers::Access as A;
use crate::registers::RegisterCategory as C;
use crate::registers::RegisterSpace as S;
use crate::registers::RegisterType as T;
use vstd::prelude::*;

verus! {

/// IR 0-58, 180-183 and 247-248: native telemetry.
pub proof fn lemma_native_telemetry()
    ensures
        definition_at(0) == row(0, "ge_ir_status"@, C::Inverter, T::U16, 1_000_000, A::ReadOnly, S::Input),
        definition_at(1) == row(1, "ge_ir_pv1_voltage"@, C::PV, T::U16, 100_000, A::ReadOnly, S::Input),
        definition_at(2) == row(2, "ge_ir_pv2_voltage"@, C::PV, T::U16, 100_000, A::ReadOnly, S::Input),
        definition_at(3) == row(3, "ge_ir_p_bus_voltage"@, C::Inverter, T::U16, 100_000, A::ReadOnly, S::Input),
        definition_at(4) == row(4, "ge_ir_n_bus_voltage"@, C::Inverter, T::U16, 100_000, A::ReadOnly, S::Input),
        definition_at(10) == row(10, "ge_ir_ac_current"@, C::Inverter, T::U16, 100_000, A::ReadOnly, S::Input),
        definition_at(14) == row(14, "ge_ir_charge_status"@, C::Inverter, T::U16, 1_000_000, A::ReadOnly, S::Input),
        definition_at(15) == row(15, "ge_ir_high_bus_voltage"@, C::Inverter, T::U16, 100_000, A::ReadOnly, S::Input),
        definition_at(16) == row(16, "ge_ir_inverter_output_pf"@, C::Inverter, T::U16, 1_000_000, A::ReadOnly, S::Input),
        definition_at(23) == row(23, "ge_ir_solar_diverter_energy"@, C::PV, T::U16, 100_000, A::ReadOnly, S::Input),
        definition_at(24) == row(24, "ge_ir_inverter_terminal_power"@, C::Inverter, T::S16, 1_000_000, A::ReadOnly, S::Input),
        definition_at(27) == row(27, "ge_ir_inverter_input_total_high"@, C::Grid, T::U16, 1_000_000, A::ReadOnly, S::Input),
        definition_at(28) == row(28, "ge_ir_inverter_input_total_low"@, C::Grid, T::U16, 1_000_000, A::ReadOnly, S::Input),
        definition_at(29) == row(29, "ge_ir_discharge_year"@, C::Battery, T::U16, 100_000, A::ReadOnly, S::Input),
        definition_at(31) == row(31, "ge_ir_eps_backup_power"@, C::Inverter, T::U16, 1_000_000, A::ReadOnly, S::Input),
        definition_at(38) == row(38, "ge_ir_countdown"@, C::Inverter, T::U16, 1_000_000, A::ReadOnly, S::Input),
        definition_at(39) == row(39, "ge_ir_fault_code_high"@, C::Inverter, T::U16, 1_000_000, A::ReadOnly, S::Input),
        definition_at(40) == row(40, "ge_ir_fault_code_low"@, C::Inverter, T::U16, 1_000_000, A::ReadOnly, S::Input),
        definition_at(42) == row(42, "ge_ir_load_demand"@, C::Grid, T::U16, 1_000_000, A::ReadOnly, S::Input),
        definition_at(43) == row(43, "ge_ir_grid_apparent"@, C::Grid, T::U16, 1_000_000, A::ReadOnly, S::Input),
        definition_at(47) == row(47, "ge_ir_work_time_total_high"@, C::Inverter, T::U16, 1_000_000, A::ReadOnly, S::Input),
        definition_at(48) == row(48, "ge_ir_work_time_total_low"@, C::Inverter, T::U16, 1_000_000, A::ReadOnly, S::Input),
        definition_at(49) == row(49, "ge_ir_system_mode"@, C::Inverter, T::U16, 1_000_000, A::ReadOnly, S::Input),
        definition_at(53) == row(53, "ge_ir_eps_voltage"@, C::Inverter, T::U16, 100_000, A::ReadOnly, S::Input),
        definition_at(54) == row(54, "ge_ir_eps_frequency"@, C::Inverter, T::U16, 10_000, A::ReadOnly, S::Input),
        definition_at(55) == row(55, "ge_ir_charger_temperature"@, C::Inverter, T::S16, 100_000, A::ReadOnly, S::Input),
        definition_at(57) == row(57, "ge_ir_charger_warning_code"@, C::Inverter, T::U16, 1_000_000, A::ReadOnly, S::Input),
        definition_at(58) == row(58, "ge_ir_grid_port_current"@, C::Grid, T::U16, 10_000, A::ReadOnly, S::Input),
        definition_at(180) == row(180, "ge_ir_battery_discharge_total_alt1"@, C::Battery, T::U16, 100_000, A::ReadOnly, S::Input),
        definition_at(181) == row(181, "ge_ir_battery_charge_total_alt1"@, C::Battery, T::U16, 100_000, A::ReadOnly, S::Input),
        definition_at(182) == row(182, "ge_ir_battery_discharge_today_alt2"@, C::Battery, T::U16, 100_000, A::ReadOnly, S::Input),
        definition_at(183) == row(183, "ge_ir_battery_charge_today_alt2"@, C::Battery, T::U16, 100_000, A::ReadOnly, S::Input),
        definition_at(247) == row(247, "ge_ir_combined_generation_high"@, C::PV, T::U16, 1_000_000, A::ReadOnly, S::Input),
        definition_at(248) == row(248, "ge_ir_combined_generation_low"@, C::PV, T::U16, 1_000_000, A::ReadOnly, S::Input),
{
    catalogue::lemma_prefixes();
    reveal(catalogue::native_telemetry_rows);
}

/// IR 5-59: native readings and totals.
pub proof fn lemma_native_totals()
    ensures
        definition_at(5) == row(5, "ge_ir_grid_voltage"@, C::Grid, T::U16, 100_000, A::ReadOnly, S::Input),
        definition_at(6) == row(6, "ge_ir_battery_throughput_high"@, C::Battery, T::U16, 1_000_000, A::ReadOnly, S::Input),
        definition_at(7) == row(7, "ge_ir_battery_throughput_low"@, C::Battery, T::U16, 1_000_000, A::ReadOnly, S::Input),
        definition_at(8) == row(8, "ge_ir_pv1_current"@, C::PV, T::U16, 100_000, A::ReadOnly, S::Input),
        definition_at(9) == row(9, "ge_ir_pv2_current"@, C::PV, T::U16, 100_000, A::ReadOnly, S::Input),
        definition_at(11) == row(11, "ge_ir_pv_total_high"@, C::PV, T::U16, 1_000_000, A::ReadOnly, S::Input),
        definition_at(12) == row(12, "ge_ir_pv_total_low"@, C::PV, T::U16, 1_000_000, A::ReadOnly, S::Input),
        definition_at(13) == row(13, "ge_ir_grid_frequency"@, C::Grid, T::U16, 10_000, A::ReadOnly, S::Input),
        definition_at(17) == row(17, "ge_ir_pv1_energy_today"@, C::PV, T::U16, 100_000, A::ReadOnly, S::Input),
        definition_at(18) == row(18, "ge_ir_pv1_power"@, C::PV, T::U16, 1_000_000, A::ReadOnly, S::Input),
        definition_at(19) == row(19, "ge_ir_pv2_energy_today"@, C::PV, T::U16, 100_000, A::ReadOnly, S::Input),
        definition_at(20) == row(20, "ge_ir_pv2_power"@, C::PV, T::U16, 1_000_000, A::ReadOnly, S::Input),
        definition_at(21) == row(21, "ge_ir_grid_export_total_high"@, C::Grid, T::U16, 1_000_000, A::ReadOnly, S::Input),
        definition_at(22) == row(22, "ge_ir_grid_export_total_low"@, C::Grid, T::U16, 1_000_000, A::ReadOnly, S::Input),
        definition_at(25) == row(25, "ge_ir_today_export_energy"@, C::Grid, T::U16, 100_000, A::ReadOnly, S::Input),
        definition_at(26) == row(26, "ge_ir_today_import_energy"@, C::Grid, T::U16, 100_000, A::ReadOnly, S::Input),
        definition_at(30) == row(30, "ge_ir_grid_power"@, C::Grid, T::S16, 1_000_000, A::ReadOnly, S::Input),
        definition_at(32) == row(32, "ge_ir_grid_import_total_high"@, C::Grid, T::U16, 1_000_000, A::ReadOnly, S::Input),
        definition_at(33) == row(33, "ge_ir_grid_import_total_low"@, C::Grid, T::U16, 1_000_000, A::ReadOnly, S::Input),
        definition_at(35) == row(35, "ge_ir_ac_charge_today"@, C::Grid, T::U16, 100_000, A::ReadOnly, S::Input),
        definition_at(36) == row(36, "ge_ir_today_charge_energy"@, C::Battery, T::U16, 100_000, A::ReadOnly, S::Input),
        definition_at(37) == row(37, "ge_ir_today_discharge_energy"@, C::Battery, T::U16, 100_000, A::ReadOnly, S::Input),
        definition_at(41) == row(41, "ge_ir_inverter_temperature"@, C::Inverter, T::S16, 100_000, A::ReadOnly, S::Input),
        definition_at(44) == row(44, "ge_ir_pv_generation_today"@, C::PV, T::U16, 100_000, A::ReadOnly, S::Input),
        definition_at(45) == row(45, "ge_ir_pv_generation_total_high"@, C::PV, T::U16, 1_000_000, A::ReadOnly, S::Input),
        definition_at(46) == row(46, "ge_ir_pv_generation_total_low"@, C::PV, T::U16, 1_000_000, A::ReadOnly, S::Input),
        definition_at(50) == row(50, "ge_ir_battery_voltage"@, C::Battery, T::U16, 10_000, A::ReadOnly, S::Input),
        definition_at(51) == row(51, "ge_ir_battery_current"@, C::Battery, T::S16, 10_000, A::ReadOnly, S::Input),
        definition_at(52) == row(52, "ge_ir_battery_power"@, C::Battery, T::S16, 1_000_000, A::ReadOnly, S::Input),
        definition_at(56) == row(56, "ge_ir_battery_temperature"@, C::Battery, T::S16, 100_000, A::ReadOnly, S::Input),
        definition_at(59) == row(59, "ge_ir_battery_soc"@, C::Battery, T::U16, 1_000_000, A::ReadOnly, S::Input),
{
    catalogue::lemma_prefixes();
    reveal(catalogue::native_totals_rows);
}

/// IR 60-89: the CT clamp meter.
pub proof fn lemma_meter()
    ensures
        definition_at(60) == row(60, "meter_v_phase_1"@, C::Grid, T::U16, 100_000, A::ReadOnly, S::Input),
        definition_at(61) == row(61, "meter_v_phase_2"@, C::Grid, T::U16, 100_000, A::ReadOnly, S::Input),
        definition_at(62) == row(62, "meter_v_phase_3"@, C::Grid, T::U16, 100_000, A::ReadOnly, S::Input),
        definition_at(63) == row(63, "meter_i_phase_1"@, C::Grid, T::U16, 10_000, A::ReadOnly, S::Input),
        definition_at(64) == row(64, "meter_i_phase_2"@, C::Grid, T::U16, 10_000, A::ReadOnly, S::Input),
        definition_at(65) == row(65, "meter_i_phase_3"@, C::Grid, T::U16, 10_000, A::ReadOnly, S::Input),
        definition_at(66) == row(66, "meter_i_ln"@, C::Grid, T::U16, 10_000, A::ReadOnly, S::Input),
        definition_at(67) == row(67, "meter_i_total"@, C::Grid, T::U16, 10_000, A::ReadOnly, S::Input),
        definition_at(68) == row(68, "meter_p_active_phase_1"@, C::Grid, T::S16, 1_000_000, A::ReadOnly, S::Input),
        definition_at(69) == row(69, "meter_p_active_phase_2"@, C::Grid, T::S16, 1_000_000, A::ReadOnly, S::Input),
        definition_at(70) == row(70, "meter_p_active_phase_3"@, C::Grid, T::S16, 1_000_000, A::ReadOnly, S::Input),
        definition_at(71) == row(71, "meter_p_active_total"@, C::Grid, T::S16, 1_000_000, A::ReadOnly, S::Input),
        definition_at(72) == row(72, "meter_p_reactive_phase_1"@, C::Grid, T::S16, 1_000_000, A::ReadOnly, S::Input),
        definition_at(73) == row(73, "meter_p_reactive_phase_2"@, C::Grid, T::S16, 1_000_000, A::ReadOnly, S::Input),
        definition_at(74) == row(74, "meter_p_reactive_phase_3"@, C::Grid, T::S16, 1_000_000, A::ReadOnly, S::Input),
        definition_at(75) == row(75, "meter_p_reactive_total"@, C::Grid, T::S16, 1_000_000, A::ReadOnly, S::Input),
        definition_at(76) == row(76, "meter_p_apparent_phase_1"@, C::Grid, T::U16, 1_000_000, A::ReadOnly, S::Input),
        definition_at(77) == row(77, "meter_p_apparent_phase_2"@, C::Grid, T::U16, 1_000_000, A::ReadOnly, S::Input),
        definition_at(78) == row(78, "meter_p_apparent_phase_3"@, C::Grid, T::U16, 1_000_000, A::ReadOnly, S::Input),
        definition_at(79) == row(79, "meter_p_apparent_total"@, C::Grid, T::U16, 1_000_000, A::ReadOnly, S::Input),
        definition_at(80) == row(80, "meter_pf_phase_1"@, C::Grid, T::S16, 1_000, A::ReadOnly, S::Input),
        definition_at(81) == row(81, "meter_pf_phase_2"@, C::Grid, T::S16, 1_000, A::ReadOnly, S::Input),
        definition_at(82) == row(82, "meter_pf_phase_3"@, C::Grid, T::S16, 1_000, A::ReadOnly, S::Input),
        definition_at(83) == row(83, "meter_pf_total"@, C::Grid, T::S16, 1_000, A::ReadOnly, S::Input),
        definition_at(84) == row(84, "meter_frequency"@, C::Grid, T::U16, 10_000, A::ReadOnly, S::Input),
        definition_at(85) == row(85, "meter_e_import_active"@, C::Grid, T::U16, 100_000, A::ReadOnly, S::Input),
        definition_at(86) == row(86, "meter_e_import_reactive"@, C::Grid, T::U16, 100_000, A::ReadOnly, S::Input),
        definition_at(87) == row(87, "meter_e_export_active"@, C::Grid, T::U16, 100_000, A::ReadOnly, S::Input),
        definition_at(88) == row(88, "meter_e_export_reactive"@, C::Grid, T::U16, 100_000, A::ReadOnly, S::Input),
        definition_at(89) == row(89, "meter_reserved"@, C::Grid, T::U16, 1_000_000, A::ReadOnly, S::Input),
{
    catalogue::lemma_prefixes();
    reveal(catalogue::meter_rows);
}

/// HR 0-40: identity, clock and slots.
pub proof fn lemma_native_identity()
    ensures
        definition_at(10000) == row(0, "ge_hr_device_type"@, C::Inverter, T::U16, 1_000_000, A::ReadOnly, S::Holding),
        definition_at(10001) == row(1, "ge_hr_module_high"@, C::Inverter, T::U16, 1_000_000, A::ReadOnly, S::Holding),
        definition_at(10002) == row(2, "ge_hr_module_low"@, C::Inverter, T::U16, 1_000_000, A::ReadOnly, S::Holding),
        definition_at(10003) == row(3, "ge_hr_mppt_phase_count"@, C::Inverter, T::U16, 1_000_000, A::ReadOnly, S::Holding),
        definition_at(10007) == row(7, "ge_hr_enable_ammeter"@, C::Configuration, T::U16, 1_000_000, A::ReadOnly, S::Holding),
        definition_at(10008) == row(8, "ge_hr_first_battery_serial_0"@, C::Battery, T::U16, 1_000_000, A::ReadOnly, S::Holding),
        definition_at(10009) == row(9, "ge_hr_first_battery_serial_1"@, C::Battery, T::U16, 1_000_000, A::ReadOnly, S::Holding),
        definition_at(10010) == row(10, "ge_hr_first_battery_serial_2"@, C::Battery, T::U16, 1_000_000, A::ReadOnly, S::Holding),
        definition_at(10011) == row(11, "ge_hr_first_battery_serial_3"@, C::Battery, T::U16, 1_000_000, A::ReadOnly, S::Holding),
        definition_at(10012) == row(12, "ge_hr_first_battery_serial_4"@, C::Battery, T::U16, 1_000_000, A::ReadOnly, S::Holding),
        definition_at(10013) == row(13, "ge_hr_serial_0"@, C::Inverter, T::U16, 1_000_000, A::ReadOnly, S::Holding),
        definition_at(10014) == row(14, "ge_hr_serial_1"@, C::Inverter, T::U16, 1_000_000, A::ReadOnly, S::Holding),
        definition_at(10015) == row(15, "ge_hr_serial_2"@, C::Inverter, T::U16, 1_000_000, A::ReadOnly, S::Holding),
        definition_at(10016) == row(16, "ge_hr_serial_3"@, C::Inverter, T::U16, 1_000_000, A::ReadOnly, S::Holding),
        definition_at(10017) == row(17, "ge_hr_serial_4"@, C::Inverter, T::U16, 1_000_000, A::ReadOnly, S::Holding),
        definition_at(10018) == row(18, "ge_hr_first_battery_bms_firmware"@, C::Battery, T::U16, 1_000_000, A::ReadOnly, S::Holding),
        definition_at(10019) == row(19, "ge_hr_dsp_firmware"@, C::Inverter, T::U16, 1_000_000, A::ReadOnly, S::Holding),
        definition_at(10020) == row(20, "ge_hr_enable_charge_target"@, C::Configuration, T::U16, 1_000_000, A::ReadWrite, S::Holding),
        definition_at(10021) == row(21, "ge_hr_arm_firmware"@, C::Inverter, T::U16, 1_000_000, A::ReadOnly, S::Holding),
        definition_at(10022) == row(22, "ge_hr_usb_device_inserted"@, C::Configuration, T::U16, 1_000_000, A::ReadOnly, S::Holding),
        definition_at(10023) == row(23, "ge_hr_select_arm_chip"@, C::Configuration, T::U16, 1_000_000, A::ReadOnly, S::Holding),
        definition_at(10024) == row(24, "ge_hr_variable_address"@, C::Configuration, T::U16, 1_000_000, A::ReadOnly, S::Holding),
        definition_at(10025) == row(25, "ge_hr_variable_value"@, C::Configuration, T::U16, 1_000_000, A::ReadOnly, S::Holding),
        definition_at(10026) == row(26, "ge_hr_grid_port_max_power_output"@, C::Inverter, T::U16, 1_000_000, A::ReadOnly, S::Holding),
        definition_at(10027) == row(27, "ge_hr_battery_power_mode"@, C::Configuration, T::U16, 1_000_000, A::ReadWrite, S::Holding),
        definition_at(10028) == row(28, "ge_hr_enable_60hz_freq_mode"@, C::Configuration, T::U16, 1_000_000, A::ReadOnly, S::Holding),
        definition_at(10029) == row(29, "ge_hr_battery_calibration_stage"@, C::Configuration, T::U16, 1_000_000, A::ReadWrite, S::Holding),
        definition_at(10030) == row(30, "ge_hr_modbus_address"@, C::Configuration, T::U16, 1_000_000, A::ReadOnly, S::Holding),
        definition_at(10031) == row(31, "ge_hr_charge_slot_2_start"@, C::Schedules, T::U16, 1_000_000, A::ReadWrite, S::Holding),
        definition_at(10032) == row(32, "ge_hr_charge_slot_2_end"@, C::Schedules, T::U16, 1_000_000, A::ReadWrite, S::Holding),
        definition_at(10035) == row(35, "ge_hr_system_time_year"@, C::Configuration, T::U16, 1_000_000, A::ReadWrite, S::Holding),
        definition_at(10036) == row(36, "ge_hr_system_time_month"@, C::Configuration, T::U16, 1_000_000, A::ReadWrite, S::Holding),
        definition_at(10037) == row(37, "ge_hr_system_time_day"@, C::Configuration, T::U16, 1_000_000, A::ReadWrite, S::Holding),
        definition_at(10038) == row(38, "ge_hr_system_time_hour"@, C::Configuration, T::U16, 1_000_000, A::ReadWrite, S::Holding),
        definition_at(10039) == row(39, "ge_hr_system_time_minute"@, C::Configuration, T::U16, 1_000_000, A::ReadWrite, S::Holding),
        definition_at(10040) == row(40, "ge_hr_system_time_second"@, C::Configuration, T::U16, 1_000_000, A::ReadWrite, S::Holding),
        definition_at(10033) == row(33, "ge_hr_user_code"@, C::Configuration, T::U16, 1_000_000, A::ReadOnly, S::Holding),
        definition_at(10034) == row(34, "ge_hr_modbus_version"@, C::Configuration, T::U16, 10_000, A::ReadOnly, S::Holding),
{
    catalogue::lemma_prefixes();
    reveal(catalogue::native_identity_rows);
}

/// HR 41-116: settings and limits.
pub proof fn lemma_native_settings()
    ensures
        definition_at(10041) == row(41, "ge_hr_enable_drm_rj45_port"@, C::Configuration, T::U16, 1_000_000, A::ReadOnly, S::Holding),
        definition_at(10042) == row(42, "ge_hr_enable_reversed_ct_clamp"@, C::Configuration, T::U16, 1_000_000, A::ReadOnly, S::Holding),
        definition_at(10043) == row(43, "ge_hr_charge_discharge_soc"@, C::Configuration, T::U16, 1_000_000, A::ReadOnly, S::Holding),
        definition_at(10044) == row(44, "ge_hr_discharge_slot_2_start"@, C::Schedules, T::U16, 1_000_000, A::ReadWrite, S::Holding),
        definition_at(10045) == row(45, "ge_hr_discharge_slot_2_end"@, C::Schedules, T::U16, 1_000_000, A::ReadWrite, S::Holding),
        definition_at(10046) == row(46, "ge_hr_bms_firmware_version"@, C::Battery, T::U16, 1_000_000, A::ReadOnly, S::Holding),
        definition_at(10047) == row(47, "ge_hr_meter_type"@, C::Configuration, T::U16, 1_000_000, A::ReadOnly, S::Holding),
        definition_at(10048) == row(48, "ge_hr_enable_reversed_115_meter"@, C::Configuration, T::U16, 1_000_000, A::ReadOnly, S::Holding),
        definition_at(10049) == row(49, "ge_hr_enable_reversed_418_meter"@, C::Configuration, T::U16, 1_000_000, A::ReadOnly, S::Holding),
        definition_at(10050) == row(50, "ge_hr_active_power_rate"@, C::Configuration, T::U16, 1_000_000, A::ReadWrite, S::Holding),
        definition_at(10051) == row(51, "ge_hr_reactive_power_rate"@, C::Configuration, T::U16, 1_000_000, A::ReadOnly, S::Holding),
        definition_at(10052) == row(52, "ge_hr_power_factor"@, C::Configuration, T::U16, 1_000_000, A::ReadOnly, S::Holding),
        definition_at(10053) == row(53, "ge_hr_enable_inverter_flags"@, C::Configuration, T::U16, 1_000_000, A::ReadOnly, S::Holding),
        definition_at(10054) == row(54, "ge_hr_battery_type"@, C::Battery, T::U16, 1_000_000, A::ReadOnly, S::Holding),
        definition_at(10055) == row(55, "ge_hr_battery_capacity_ah"@, C::Battery, T::U16, 1_000_000, A::ReadOnly, S::Holding),
        definition_at(10056) == row(56, "ge_hr_discharge_slot_1_start"@, C::Schedules, T::U16, 1_000_000, A::ReadWrite, S::Holding),
        definition_at(10057) == row(57, "ge_hr_discharge_slot_1_end"@, C::Schedules, T::U16, 1_000_000, A::ReadWrite, S::Holding),
        definition_at(10058) == row(58, "ge_hr_enable_auto_judge_battery_type"@, C::Configuration, T::U16, 1_000_000, A::ReadOnly, S::Holding),
        definition_at(10059) == row(59, "ge_hr_enable_discharge"@, C::Configuration, T::U16, 1_000_000, A::ReadWrite, S::Holding),
        definition_at(10060) == row(60, "ge_hr_pv_start_voltage"@, C::PV, T::U16, 100_000, A::ReadOnly, S::Holding),
        definition_at(10061) == row(61, "ge_hr_start_countdown_timer"@, C::Configuration, T::U16, 1_000_000, A::ReadOnly, S::Holding),
        definition_at(10062) == row(62, "ge_hr_restart_delay_time"@, C::Configuration, T::U16, 1_000_000, A::ReadOnly, S::Holding),
        definition_at(10094) == row(94, "ge_hr_charge_slot_1_start"@, C::Schedules, T::U16, 1_000_000, A::ReadWrite, S::Holding),
        definition_at(10095) == row(95, "ge_hr_charge_slot_1_end"@, C::Schedules, T::U16, 1_000_000, A::ReadWrite, S::Holding),
        definition_at(10096) == row(96, "ge_hr_enable_charge"@, C::Configuration, T::U16, 1_000_000, A::ReadWrite, S::Holding),
        definition_at(10097) == row(97, "ge_hr_battery_low_voltage_protection_limit"@, C::Battery, T::U16, 10_000, A::ReadOnly, S::Holding),
        definition_at(10098) == row(98, "ge_hr_battery_high_voltage_protection_limit"@, C::Battery, T::U16, 10_000, A::ReadOnly, S::Holding),
        definition_at(10105) == row(105, "ge_hr_battery_voltage_adjust"@, C::Battery, T::U16, 10_000, A::ReadOnly, S::Holding),
        definition_at(10108) == row(108, "ge_hr_battery_low_force_charge_time"@, C::Battery, T::U16, 1_000_000, A::ReadOnly, S::Holding),
        definition_at(10109) == row(109, "ge_hr_enable_bms_read"@, C::Battery, T::U16, 1_000_000, A::ReadOnly, S::Holding),
        definition_at(10110) == row(110, "ge_hr_battery_soc_reserve"@, C::Battery, T::U16, 1_000_000, A::ReadWrite, S::Holding),
        definition_at(10111) == row(111, "ge_hr_battery_charge_limit"@, C::Battery, T::U16, 1_000_000, A::ReadWrite, S::Holding),
        definition_at(10112) == row(112, "ge_hr_battery_discharge_limit"@, C::Battery, T::U16, 1_000_000, A::ReadWrite, S::Holding),
        definition_at(10116) == row(116, "ge_hr_charge_target_soc"@, C::Configuration, T::U16, 1_000_000, A::ReadWrite, S::Holding),
        definition_at(10113) == row(113, "ge_hr_enable_buzzer"@, C::Configuration, T::U16, 1_000_000, A::ReadOnly, S::Holding),
        definition_at(10114) == row(114, "ge_hr_battery_discharge_min_power_reserve"@, C::Battery, T::U16, 1_000_000, A::ReadWrite, S::Holding),
        definition_at(10115) == row(115, "ge_hr_island_check_continue"@, C::Configuration, T::U16, 1_000_000, A::ReadOnly, S::Holding),
{
    catalogue::lemma_prefixes();
    reveal(catalogue::native_settings_rows);
}

/// HR 117-320: flags, targets and the pause slot.
pub proof fn lemma_native_flags()
    ensures
        definition_at(10117) == row(117, "ge_hr_charge_soc_stop_2"@, C::Configuration, T::U16, 1_000_000, A::ReadOnly, S::Holding),
        definition_at(10118) == row(118, "ge_hr_discharge_soc_stop_2"@, C::Configuration, T::U16, 1_000_000, A::ReadOnly, S::Holding),
        definition_at(10119) == row(119, "ge_hr_charge_soc_stop_1"@, C::Configuration, T::U16, 1_000_000, A::ReadOnly, S::Holding),
        definition_at(10120) == row(120, "ge_hr_discharge_soc_stop_1"@, C::Configuration, T::U16, 1_000_000, A::ReadOnly, S::Holding),
        definition_at(10121) == row(121, "ge_hr_enable_local_command_test"@, C::Configuration, T::U16, 1_000_000, A::ReadOnly, S::Holding),
        definition_at(10122) == row(122, "ge_hr_power_factor_function_model"@, C::Configuration, T::U16, 1_000_000, A::ReadOnly, S::Holding),
        definition_at(10123) == row(123, "ge_hr_frequency_load_limit_rate"@, C::Configuration, T::U16, 1_000_000, A::ReadOnly, S::Holding),
        definition_at(10124) == row(124, "ge_hr_enable_low_voltage_fault_ride_through"@, C::Configuration, T::U16, 1_000_000, A::ReadOnly, S::Holding),
        definition_at(10125) == row(125, "ge_hr_enable_frequency_derating"@, C::Configuration, T::U16, 1_000_000, A::ReadOnly, S::Holding),
        definition_at(10126) == row(126, "ge_hr_enable_above_6kw_system"@, C::Configuration, T::U16, 1_000_000, A::ReadOnly, S::Holding),
        definition_at(10127) == row(127, "ge_hr_start_system_auto_test"@, C::Configuration, T::U16, 1_000_000, A::ReadOnly, S::Holding),
        definition_at(10128) == row(128, "ge_hr_enable_spi"@, C::Configuration, T::U16, 1_000_000, A::ReadOnly, S::Holding),
        definition_at(10166) == row(166, "ge_hr_rtc_enable"@, C::Configuration, T::U16, 1_000_000, A::ReadWrite, S::Holding),
        definition_at(10167) == row(167, "ge_hr_threephase_balance_mode"@, C::Configuration, T::U16, 1_000_000, A::ReadOnly, S::Holding),
        definition_at(10168) == row(168, "ge_hr_threephase_abc"@, C::Configuration, T::U16, 1_000_000, A::ReadOnly, S::Holding),
        definition_at(10169) == row(169, "ge_hr_threephase_balance_1"@, C::Configuration, T::U16, 1_000_000, A::ReadOnly, S::Holding),
        definition_at(10170) == row(170, "ge_hr_threephase_balance_2"@, C::Configuration, T::U16, 1_000_000, A::ReadOnly, S::Holding),
        definition_at(10171) == row(171, "ge_hr_threephase_balance_3"@, C::Configuration, T::U16, 1_000_000, A::ReadOnly, S::Holding),
        definition_at(10175) == row(175, "ge_hr_enable_battery_on_pv_or_grid"@, C::Configuration, T::U16, 1_000_000, A::ReadOnly, S::Holding),
        definition_at(10176) == row(176, "ge_hr_debug_inverter"@, C::Configuration, T::U16, 1_000_000, A::ReadOnly, S::Holding),
        definition_at(10177) == row(177, "ge_hr_enable_ups_mode"@, C::Configuration, T::U16, 1_000_000, A::ReadOnly, S::Holding),
        definition_at(10178) == row(178, "ge_hr_enable_g100_limit_switch"@, C::Configuration, T::U16, 1_000_000, A::ReadOnly, S::Holding),
        definition_at(10179) == row(179, "ge_hr_enable_battery_cable_impedance_alarm"@, C::Configuration, T::U16, 1_000_000, A::ReadOnly, S::Holding),
        definition_at(10199) == row(199, "ge_hr_enable_standard_self_consumption_logic"@, C::Configuration, T::U16, 1_000_000, A::ReadWrite, S::Holding),
        definition_at(10242) == row(242, "ge_hr_charge_target_soc_1"@, C::Schedules, T::U16, 1_000_000, A::ReadWrite, S::Holding),
        definition_at(10243) == row(243, "ge_hr_charge_slot_2_start_ext"@, C::Schedules, T::U16, 1_000_000, A::ReadWrite, S::Holding),
        definition_at(10244) == row(244, "ge_hr_charge_slot_2_end_ext"@, C::Schedules, T::U16, 1_000_000, A::ReadWrite, S::Holding),
        definition_at(10245) == row(245, "ge_hr_charge_target_soc_2"@, C::Schedules, T::U16, 1_000_000, A::ReadWrite, S::Holding),
        definition_at(10272) == row(272, "ge_hr_discharge_target_soc_1"@, C::Schedules, T::U16, 1_000_000, A::ReadWrite, S::Holding),
        definition_at(10275) == row(275, "ge_hr_discharge_target_soc_2"@, C::Schedules, T::U16, 1_000_000, A::ReadWrite, S::Holding),
        definition_at(10313) == row(313, "ge_hr_battery_charge_limit_ac"@, C::Battery, T::U16, 1_000_000, A::ReadWrite, S::Holding),
        definition_at(10314) == row(314, "ge_hr_battery_discharge_limit_ac"@, C::Battery, T::U16, 1_000_000, A::ReadWrite, S::Holding),
        definition_at(10163) == row(163, "ge_hr_inverter_reboot"@, C::Configuration, T::U16, 1_000_000, A::ReadWrite, S::Holding),
        definition_at(10318) == row(318, "ge_hr_battery_pause_mode"@, C::Configuration, T::U16, 1_000_000, A::ReadWrite, S::Holding),
        definition_at(10319) == row(319, "ge_hr_battery_pause_slot_1_start"@, C::Schedules, T::U16, 1_000_000, A::ReadWrite, S::Holding),
        definition_at(10320) == row(320, "ge_hr_battery_pause_slot_1_end"@, C::Schedules, T::U16, 1_000_000, A::ReadWrite, S::Holding),
{
    catalogue::lemma_prefixes();
    reveal(catalogue::native_flags_rows);
}

/// HR 246-269: charge slots 3-10.
pub proof fn lemma_charge_slots()
    ensures
        definition_at(10246) == row(246, "ge_hr_charge_slot_3_start"@, C::Schedules, T::U16, 1_000_000, A::ReadWrite, S::Holding),
        definition_at(10247) == row(247, "ge_hr_charge_slot_3_end"@, C::Schedules, T::U16, 1_000_000, A::ReadWrite, S::Holding),
        definition_at(10248) == row(248, "ge_hr_charge_target_soc_3"@, C::Schedules, T::U16, 1_000_000, A::ReadWrite, S::Holding),
        definition_at(10249) == row(249, "ge_hr_charge_slot_4_start"@, C::Schedules, T::U16, 1_000_000, A::ReadWrite, S::Holding),
        definition_at(10250) == row(250, "ge_hr_charge_slot_4_end"@, C::Schedules, T::U16, 1_000_000, A::ReadWrite, S::Holding),
        definition_at(10251) == row(251, "ge_hr_charge_target_soc_4"@, C::Schedules, T::U16, 1_000_000, A::ReadWrite, S::Holding),
        definition_at(10252) == row(252, "ge_hr_charge_slot_5_start"@, C::Schedules, T::U16, 1_000_000, A::ReadWrite, S::Holding),
        definition_at(10253) == row(253, "ge_hr_charge_slot_5_end"@, C::Schedules, T::U16, 1_000_000, A::ReadWrite, S::Holding),
        definition_at(10254) == row(254, "ge_hr_charge_target_soc_5"@, C::Schedules, T::U16, 1_000_000, A::ReadWrite, S::Holding),
        definition_at(10255) == row(255, "ge_hr_charge_slot_6_start"@, C::Schedules, T::U16, 1_000_000, A::ReadWrite, S::Holding),
        definition_at(10256) == row(256, "ge_hr_charge_slot_6_end"@, C::Schedules, T::U16, 1_000_000, A::ReadWrite, S::Holding),
        definition_at(10257) == row(257, "ge_hr_charge_target_soc_6"@, C::Schedules, T::U16, 1_000_000, A::ReadWrite, S::Holding),
        definition_at(10258) == row(258, "ge_hr_charge_slot_7_start"@, C::Schedules, T::U16, 1_000_000, A::ReadWrite, S::Holding),
        definition_at(10259) == row(259, "ge_hr_charge_slot_7_end"@, C::Schedules, T::U16, 1_000_000, A::ReadWrite, S::Holding),
        definition_at(10260) == row(260, "ge_hr_charge_target_soc_7"@, C::Schedules, T::U16, 1_000_000, A::ReadWrite, S::Holding),
        definition_at(10261) == row(261, "ge_hr_charge_slot_8_start"@, C::Schedules, T::U16, 1_000_000, A::ReadWrite, S::Holding),
        definition_at(10262) == row(262, "ge_hr_charge_slot_8_end"@, C::Schedules, T::U16, 1_000_000, A::ReadWrite, S::Holding),
        definition_at(10263) == row(263, "ge_hr_charge_target_soc_8"@, C::Schedules, T::U16, 1_000_000, A::ReadWrite, S::Holding),
        definition_at(10264) == row(264, "ge_hr_charge_slot_9_start"@, C::Schedules, T::U16, 1_000_000, A::ReadWrite, S::Holding),
        definition_at(10265) == row(265, "ge_hr_charge_slot_9_end"@, C::Schedules, T::U16, 1_000_000, A::ReadWrite, S::Holding),
        definition_at(10266) == row(266, "ge_hr_charge_target_soc_9"@, C::Schedules, T::U16, 1_000_000, A::ReadWrite, S::Holding),
        definition_at(10267) == row(267, "ge_hr_charge_slot_10_start"@, C::Schedules, T::U16, 1_000_000, A::ReadWrite, S::Holding),
        definition_at(10268) == row(268, "ge_hr_charge_slot_10_end"@, C::Schedules, T::U16, 1_000_000, A::ReadWrite, S::Holding),
        definition_at(10269) == row(269, "ge_hr_charge_target_soc_10"@, C::Schedules, T::U16, 1_000_000, A::ReadWrite, S::Holding),
{
    catalogue::lemma_prefixes();
    reveal(catalogue::charge_slots_rows);
}

/// HR 276-299: discharge slots 3-10, export priority and backup.
pub proof fn lemma_discharge_slots()
    ensures
        definition_at(10276) == row(276, "ge_hr_discharge_slot_3_start"@, C::Schedules, T::U16, 1_000_000, A::ReadWrite, S::Holding),
        definition_at(10277) == row(277, "ge_hr_discharge_slot_3_end"@, C::Schedules, T::U16, 1_000_000, A::ReadWrite, S::Holding),
        definition_at(10278) == row(278, "ge_hr_discharge_target_soc_3"@, C::Schedules, T::U16, 1_000_000, A::ReadWrite, S::Holding),
        definition_at(10279) == row(279, "ge_hr_discharge_slot_4_start"@, C::Schedules, T::U16, 1_000_000, A::ReadWrite, S::Holding),
        definition_at(10280) == row(280, "ge_hr_discharge_slot_4_end"@, C::Schedules, T::U16, 1_000_000, A::ReadWrite, S::Holding),
        definition_at(10281) == row(281, "ge_hr_discharge_target_soc_4"@, C::Schedules, T::U16, 1_000_000, A::ReadWrite, S::Holding),
        definition_at(10282) == row(282, "ge_hr_discharge_slot_5_start"@, C::Schedules, T::U16, 1_000_000, A::ReadWrite, S::Holding),
        definition_at(10283) == row(283, "ge_hr_discharge_slot_5_end"@, C::Schedules, T::U16, 1_000_000, A::ReadWrite, S::Holding),
        definition_at(10284) == row(284, "ge_hr_discharge_target_soc_5"@, C::Schedules, T::U16, 1_000_000, A::ReadWrite, S::Holding),
        definition_at(10285) == row(285, "ge_hr_discharge_slot_6_start"@, C::Schedules, T::U16, 1_000_000, A::ReadWrite, S::Holding),
        definition_at(10286) == row(286, "ge_hr_discharge_slot_6_end"@, C::Schedules, T::U16, 1_000_000, A::ReadWrite, S::Holding),
        definition_at(10287) == row(287, "ge_hr_discharge_target_soc_6"@, C::Schedules, T::U16, 1_000_000, A::ReadWrite, S::Holding),
        definition_at(10288) == row(288, "ge_hr_discharge_slot_7_start"@, C::Schedules, T::U16, 1_000_000, A::ReadWrite, S::Holding),
        definition_at(10289) == row(289, "ge_hr_discharge_slot_7_end"@, C::Schedules, T::U16, 1_000_000, A::ReadWrite, S::Holding),
        definition_at(10290) == row(290, "ge_hr_discharge_target_soc_7"@, C::Schedules, T::U16, 1_000_000, A::ReadWrite, S::Holding),
        definition_at(10291) == row(291, "ge_hr_discharge_slot_8_start"@, C::Schedules, T::U16, 1_000_000, A::ReadWrite, S::Holding),
        definition_at(10292) == row(292, "ge_hr_discharge_slot_8_end"@, C::Schedules, T::U16, 1_000_000, A::ReadWrite, S::Holding),
        definition_at(10293) == row(293, "ge_hr_discharge_target_soc_8"@, C::Schedules, T::U16, 1_000_000, A::ReadWrite, S::Holding),
        definition_at(10294) == row(294, "ge_hr_discharge_slot_9_start"@, C::Schedules, T::U16, 1_000_000, A::ReadWrite, S::Holding),
        definition_at(10295) == row(295, "ge_hr_discharge_slot_9_end"@, C::Schedules, T::U16, 1_000_000, A::ReadWrite, S::Holding),
        definition_at(10296) == row(296, "ge_hr_discharge_target_soc_9"@, C::Schedules, T::U16, 1_000_000, A::ReadWrite, S::Holding),
        definition_at(10297) == row(297, "ge_hr_discharge_slot_10_start"@, C::Schedules, T::U16, 1_000_000, A::ReadWrite, S::Holding),
        definition_at(10298) == row(298, "ge_hr_discharge_slot_10_end"@, C::Schedules, T::U16, 1_000_000, A::ReadWrite, S::Holding),
        definition_at(10299) == row(299, "ge_hr_discharge_target_soc_10"@, C::Schedules, T::U16, 1_000_000, A::ReadWrite, S::Holding),
        definition_at(10311) == row(311, "ge_hr_export_priority"@, C::Configuration, T::U16, 1_000_000, A::ReadWrite, S::Holding),
        definition_at(10317) == row(317, "ge_hr_enable_eps"@, C::Configuration, T::U16, 1_000_000, A::ReadWrite, S::Holding),
{
    catalogue::lemma_prefixes();
    reveal(catalogue::discharge_slots_rows);
}

/// HR 1063-1123: three-phase settings.
pub proof fn lemma_three_phase_holding()
    ensures
        definition_at(11063) == row(1063, "tph_p_export_limit"@, C::Configuration, T::U16, 100_000, A::ReadWrite, S::Holding),
        definition_at(11078) == row(1078, "tph_battery_discharge_min_power_reserve"@, C::Battery, T::U16, 1_000_000, A::ReadWrite, S::Holding),
        definition_at(11108) == row(1108, "tph_battery_discharge_limit_ac"@, C::Battery, T::U16, 1_000_000, A::ReadWrite, S::Holding),
        definition_at(11109) == row(1109, "tph_battery_soc_reserve"@, C::Battery, T::U16, 1_000_000, A::ReadWrite, S::Holding),
        definition_at(11110) == row(1110, "tph_battery_charge_limit_ac"@, C::Battery, T::U16, 1_000_000, A::ReadWrite, S::Holding),
        definition_at(11111) == row(1111, "tph_charge_target_soc"@, C::Schedules, T::U16, 1_000_000, A::ReadWrite, S::Holding),
        definition_at(11112) == row(1112, "tph_ac_charge_enable"@, C::Schedules, T::U16, 1_000_000, A::ReadWrite, S::Holding),
        definition_at(11113) == row(1113, "tph_charge_slot_1_start"@, C::Schedules, T::U16, 1_000_000, A::ReadWrite, S::Holding),
        definition_at(11114) == row(1114, "tph_charge_slot_1_end"@, C::Schedules, T::U16, 1_000_000, A::ReadWrite, S::Holding),
        definition_at(11115) == row(1115, "tph_charge_slot_2_start"@, C::Schedules, T::U16, 1_000_000, A::ReadWrite, S::Holding),
        definition_at(11116) == row(1116, "tph_charge_slot_2_end"@, C::Schedules, T::U16, 1_000_000, A::ReadWrite, S::Holding),
        definition_at(11118) == row(1118, "tph_discharge_slot_1_start"@, C::Schedules, T::U16, 1_000_000, A::ReadWrite, S::Holding),
        definition_at(11119) == row(1119, "tph_discharge_slot_1_end"@, C::Schedules, T::U16, 1_000_000, A::ReadWrite, S::Holding),
        definition_at(11120) == row(1120, "tph_discharge_slot_2_start"@, C::Schedules, T::U16, 1_000_000, A::ReadWrite, S::Holding),
        definition_at(11121) == row(1121, "tph_discharge_slot_2_end"@, C::Schedules, T::U16, 1_000_000, A::ReadWrite, S::Holding),
        definition_at(11122) == row(1122, "tph_force_discharge_enable"@, C::Schedules, T::U16, 1_000_000, A::ReadWrite, S::Holding),
        definition_at(11123) == row(1123, "tph_force_charge_enable"@, C::Schedules, T::U16, 1_000_000, A::ReadWrite, S::Holding),
{
    catalogue::lemma_prefixes();
    reveal(catalogue::three_phase_holding_rows);
}

/// IR 1001-1245: three-phase power.
pub proof fn lemma_three_phase_power()
    ensures
        definition_at(1001) == row(1001, "tph_ir_pv1_voltage"@, C::PV, T::U16, 100_000, A::ReadOnly, S::Input),
        definition_at(1002) == row(1002, "tph_ir_pv2_voltage"@, C::PV, T::U16, 100_000, A::ReadOnly, S::Input),
        definition_at(1009) == row(1009, "tph_ir_pv1_current"@, C::PV, T::U16, 100_000, A::ReadOnly, S::Input),
        definition_at(1010) == row(1010, "tph_ir_pv2_current"@, C::PV, T::U16, 100_000, A::ReadOnly, S::Input),
        definition_at(1017) == row(1017, "tph_ir_pv1_power_high"@, C::PV, T::U16, 100_000, A::ReadOnly, S::Input),
        definition_at(1018) == row(1018, "tph_ir_pv1_power_low"@, C::PV, T::U16, 100_000, A::ReadOnly, S::Input),
        definition_at(1019) == row(1019, "tph_ir_pv2_power_high"@, C::PV, T::U16, 100_000, A::ReadOnly, S::Input),
        definition_at(1020) == row(1020, "tph_ir_pv2_power_low"@, C::PV, T::U16, 100_000, A::ReadOnly, S::Input),
        definition_at(1061) == row(1061, "tph_ir_v_ac1"@, C::Grid, T::U16, 100_000, A::ReadOnly, S::Input),
        definition_at(1062) == row(1062, "tph_ir_v_ac2"@, C::Grid, T::U16, 100_000, A::ReadOnly, S::Input),
        definition_at(1063) == row(1063, "tph_ir_v_ac3"@, C::Grid, T::U16, 100_000, A::ReadOnly, S::Input),
        definition_at(1064) == row(1064, "tph_ir_i_ac1"@, C::Grid, T::U16, 100_000, A::ReadOnly, S::Input),
        definition_at(1065) == row(1065, "tph_ir_i_ac2"@, C::Grid, T::U16, 100_000, A::ReadOnly, S::Input),
        definition_at(1066) == row(1066, "tph_ir_i_ac3"@, C::Grid, T::U16, 100_000, A::ReadOnly, S::Input),
        definition_at(1067) == row(1067, "tph_ir_f_ac1"@, C::Grid, T::U16, 10_000, A::ReadOnly, S::Input),
        definition_at(1068) == row(1068, "tph_ir_power_factor"@, C::Grid, T::S16, 1_000_000, A::ReadOnly, S::Input),
        definition_at(1069) == row(1069, "tph_ir_p_inverter_out_high"@, C::Grid, T::S16, 100_000, A::ReadOnly, S::Input),
        definition_at(1070) == row(1070, "tph_ir_p_inverter_out_low"@, C::Grid, T::U16, 100_000, A::ReadOnly, S::Input),
        definition_at(1073) == row(1073, "tph_ir_p_grid_apparent_high"@, C::Grid, T::U16, 100_000, A::ReadOnly, S::Input),
        definition_at(1074) == row(1074, "tph_ir_p_grid_apparent_low"@, C::Grid, T::U16, 100_000, A::ReadOnly, S::Input),
        definition_at(1075) == row(1075, "tph_ir_system_mode"@, C::Inverter, T::U16, 1_000_000, A::ReadOnly, S::Input),
        definition_at(1076) == row(1076, "tph_ir_status"@, C::Inverter, T::U16, 1_000_000, A::ReadOnly, S::Input),
        definition_at(1079) == row(1079, "tph_ir_p_meter_import_high"@, C::Grid, T::U16, 100_000, A::ReadOnly, S::Input),
        definition_at(1080) == row(1080, "tph_ir_p_meter_import_low"@, C::Grid, T::U16, 100_000, A::ReadOnly, S::Input),
        definition_at(1081) == row(1081, "tph_ir_p_meter_export_high"@, C::Grid, T::U16, 100_000, A::ReadOnly, S::Input),
        definition_at(1082) == row(1082, "tph_ir_p_meter_export_low"@, C::Grid, T::U16, 100_000, A::ReadOnly, S::Input),
        definition_at(1083) == row(1083, "tph_ir_p_load_ac1"@, C::Inverter, T::U16, 100_000, A::ReadOnly, S::Input),
        definition_at(1084) == row(1084, "tph_ir_p_load_ac2"@, C::Inverter, T::U16, 100_000, A::ReadOnly, S::Input),
        definition_at(1085) == row(1085, "tph_ir_p_load_ac3"@, C::Inverter, T::U16, 100_000, A::ReadOnly, S::Input),
        definition_at(1089) == row(1089, "tph_ir_p_load_all_high"@, C::Inverter, T::U16, 100_000, A::ReadOnly, S::Input),
        definition_at(1090) == row(1090, "tph_ir_p_load_all_low"@, C::Inverter, T::U16, 100_000, A::ReadOnly, S::Input),
        definition_at(1124) == row(1124, "tph_ir_dc_status"@, C::Battery, T::U16, 1_000_000, A::ReadOnly, S::Input),
        definition_at(1128) == row(1128, "tph_ir_t_inverter"@, C::Inverter, T::U16, 100_000, A::ReadOnly, S::Input),
        definition_at(1129) == row(1129, "tph_ir_t_boost"@, C::Inverter, T::U16, 100_000, A::ReadOnly, S::Input),
        definition_at(1130) == row(1130, "tph_ir_t_buck_boost"@, C::Inverter, T::U16, 100_000, A::ReadOnly, S::Input),
        definition_at(1131) == row(1131, "tph_ir_v_battery_bms"@, C::Battery, T::U16, 100_000, A::ReadOnly, S::Input),
        definition_at(1133) == row(1133, "tph_ir_v_battery_pcs"@, C::Battery, T::U16, 100_000, A::ReadOnly, S::Input),
        definition_at(1134) == row(1134, "tph_ir_v_dc_bus"@, C::Battery, T::U16, 100_000, A::ReadOnly, S::Input),
        definition_at(1135) == row(1135, "tph_ir_v_inv_bus"@, C::Battery, T::U16, 100_000, A::ReadOnly, S::Input),
        definition_at(1132) == row(1132, "tph_ir_battery_soc"@, C::Battery, T::U16, 1_000_000, A::ReadOnly, S::Input),
        definition_at(1136) == row(1136, "tph_ir_p_battery_discharge_high"@, C::Battery, T::U16, 100_000, A::ReadOnly, S::Input),
        definition_at(1137) == row(1137, "tph_ir_p_battery_discharge_low"@, C::Battery, T::U16, 100_000, A::ReadOnly, S::Input),
        definition_at(1138) == row(1138, "tph_ir_p_battery_charge_high"@, C::Battery, T::U16, 100_000, A::ReadOnly, S::Input),
        definition_at(1139) == row(1139, "tph_ir_p_battery_charge_low"@, C::Battery, T::U16, 100_000, A::ReadOnly, S::Input),
        definition_at(1140) == row(1140, "tph_ir_i_battery"@, C::Battery, T::S16, 100_000, A::ReadOnly, S::Input),
        definition_at(1180) == row(1180, "tph_ir_f_nominal_eps"@, C::Grid, T::U16, 10_000, A::ReadOnly, S::Input),
        definition_at(1181) == row(1181, "tph_ir_v_eps_ac1"@, C::Grid, T::U16, 100_000, A::ReadOnly, S::Input),
        definition_at(1182) == row(1182, "tph_ir_v_eps_ac2"@, C::Grid, T::U16, 100_000, A::ReadOnly, S::Input),
        definition_at(1183) == row(1183, "tph_ir_v_eps_ac3"@, C::Grid, T::U16, 100_000, A::ReadOnly, S::Input),
        definition_at(1240) == row(1240, "tph_ir_p_export_high"@, C::Grid, T::U16, 100_000, A::ReadOnly, S::Input),
        definition_at(1241) == row(1241, "tph_ir_p_export_low"@, C::Grid, T::U16, 100_000, A::ReadOnly, S::Input),
        definition_at(1244) == row(1244, "tph_ir_p_meter2_high"@, C::Grid, T::U16, 100_000, A::ReadOnly, S::Input),
        definition_at(1245) == row(1245, "tph_ir_p_meter2_low"@, C::Grid, T::U16, 100_000, A::ReadOnly, S::Input),
{
    catalogue::lemma_prefixes();
    reveal(catalogue::three_phase_power_rows);
}

/// IR 1325-1413: three-phase firmware and energy.
pub proof fn lemma_three_phase_energy()
    ensures
        definition_at(1325) == row(1325, "tph_ir_ac_dsp_firmware_version"@, C::Inverter, T::U16, 1_000_000, A::ReadOnly, S::Input),
        definition_at(1326) == row(1326, "tph_ir_dc_dsp_firmware_version"@, C::Inverter, T::U16, 1_000_000, A::ReadOnly, S::Input),
        definition_at(1327) == row(1327, "tph_ir_arm_firmware_version"@, C::Inverter, T::U16, 1_000_000, A::ReadOnly, S::Input),
        definition_at(1366) == row(1366, "tph_ir_e_pv1_today_high"@, C::Grid, T::U16, 100_000, A::ReadOnly, S::Input),
        definition_at(1367) == row(1367, "tph_ir_e_pv1_today_low"@, C::Grid, T::U16, 100_000, A::ReadOnly, S::Input),
        definition_at(1370) == row(1370, "tph_ir_e_pv2_today_high"@, C::Grid, T::U16, 100_000, A::ReadOnly, S::Input),
        definition_at(1371) == row(1371, "tph_ir_e_pv2_today_low"@, C::Grid, T::U16, 100_000, A::ReadOnly, S::Input),
        definition_at(1380) == row(1380, "tph_ir_e_import_today_high"@, C::Grid, T::U16, 100_000, A::ReadOnly, S::Input),
        definition_at(1381) == row(1381, "tph_ir_e_import_today_low"@, C::Grid, T::U16, 100_000, A::ReadOnly, S::Input),
        definition_at(1384) == row(1384, "tph_ir_e_export_today_high"@, C::Grid, T::U16, 100_000, A::ReadOnly, S::Input),
        definition_at(1385) == row(1385, "tph_ir_e_export_today_low"@, C::Grid, T::U16, 100_000, A::ReadOnly, S::Input),
        definition_at(1388) == row(1388, "tph_ir_e_battery_discharge_today_high"@, C::Grid, T::U16, 100_000, A::ReadOnly, S::Input),
        definition_at(1389) == row(1389, "tph_ir_e_battery_discharge_today_low"@, C::Grid, T::U16, 100_000, A::ReadOnly, S::Input),
        definition_at(1392) == row(1392, "tph_ir_e_battery_charge_today_high"@, C::Grid, T::U16, 100_000, A::ReadOnly, S::Input),
        definition_at(1393) == row(1393, "tph_ir_e_battery_charge_today_low"@, C::Grid, T::U16, 100_000, A::ReadOnly, S::Input),
        definition_at(1396) == row(1396, "tph_ir_e_load_today_high"@, C::Grid, T::U16, 100_000, A::ReadOnly, S::Input),
        definition_at(1397) == row(1397, "tph_ir_e_load_today_low"@, C::Grid, T::U16, 100_000, A::ReadOnly, S::Input),
        definition_at(1360) == row(1360, "tph_ir_e_inverter_out_today_high"@, C::Inverter, T::U16, 100_000, A::ReadOnly, S::Input),
        definition_at(1361) == row(1361, "tph_ir_e_inverter_out_today_low"@, C::Inverter, T::U16, 100_000, A::ReadOnly, S::Input),
        definition_at(1362) == row(1362, "tph_ir_e_inverter_out_total_high"@, C::Inverter, T::U16, 100_000, A::ReadOnly, S::Input),
        definition_at(1363) == row(1363, "tph_ir_e_inverter_out_total_low"@, C::Inverter, T::U16, 100_000, A::ReadOnly, S::Input),
        definition_at(1368) == row(1368, "tph_ir_e_pv1_total_high"@, C::PV, T::U16, 100_000, A::ReadOnly, S::Input),
        definition_at(1369) == row(1369, "tph_ir_e_pv1_total_low"@, C::PV, T::U16, 100_000, A::ReadOnly, S::Input),
        definition_at(1372) == row(1372, "tph_ir_e_pv2_total_high"@, C::PV, T::U16, 100_000, A::ReadOnly, S::Input),
        definition_at(1373) == row(1373, "tph_ir_e_pv2_total_low"@, C::PV, T::U16, 100_000, A::ReadOnly, S::Input),
        definition_at(1374) == row(1374, "tph_ir_e_pv_total_high"@, C::PV, T::U16, 100_000, A::ReadOnly, S::Input),
        definition_at(1375) == row(1375, "tph_ir_e_pv_total_low"@, C::PV, T::U16, 100_000, A::ReadOnly, S::Input),
        definition_at(1376) == row(1376, "tph_ir_e_ac_charge_today_high"@, C::Grid, T::U16, 100_000, A::ReadOnly, S::Input),
        definition_at(1377) == row(1377, "tph_ir_e_ac_charge_today_low"@, C::Grid, T::U16, 100_000, A::ReadOnly, S::Input),
        definition_at(1378) == row(1378, "tph_ir_e_ac_charge_total_high"@, C::Grid, T::U16, 100_000, A::ReadOnly, S::Input),
        definition_at(1379) == row(1379, "tph_ir_e_ac_charge_total_low"@, C::Grid, T::U16, 100_000, A::ReadOnly, S::Input),
        definition_at(1382) == row(1382, "tph_ir_e_import_total_high"@, C::Grid, T::U16, 100_000, A::ReadOnly, S::Input),
        definition_at(1383) == row(1383, "tph_ir_e_import_total_low"@, C::Grid, T::U16, 100_000, A::ReadOnly, S::Input),
        definition_at(1386) == row(1386, "tph_ir_e_export_total_high"@, C::Grid, T::U16, 100_000, A::ReadOnly, S::Input),
        definition_at(1387) == row(1387, "tph_ir_e_export_total_low"@, C::Grid, T::U16, 100_000, A::ReadOnly, S::Input),
        definition_at(1390) == row(1390, "tph_ir_e_battery_discharge_total_high"@, C::Battery, T::U16, 100_000, A::ReadOnly, S::Input),
        definition_at(1391) == row(1391, "tph_ir_e_battery_discharge_total_low"@, C::Battery, T::U16, 100_000, A::ReadOnly, S::Input),
        definition_at(1394) == row(1394, "tph_ir_e_battery_charge_total_high"@, C::Battery, T::U16, 100_000, A::ReadOnly, S::Input),
        definition_at(1395) == row(1395, "tph_ir_e_battery_charge_total_low"@, C::Battery, T::U16, 100_000, A::ReadOnly, S::Input),
        definition_at(1398) == row(1398, "tph_ir_e_load_total_high"@, C::Grid, T::U16, 100_000, A::ReadOnly, S::Input),
        definition_at(1399) == row(1399, "tph_ir_e_load_total_low"@, C::Grid, T::U16, 100_000, A::ReadOnly, S::Input),
        definition_at(1400) == row(1400, "tph_ir_e_export2_today_high"@, C::Grid, T::U16, 100_000, A::ReadOnly, S::Input),
        definition_at(1401) == row(1401, "tph_ir_e_export2_today_low"@, C::Grid, T::U16, 100_000, A::ReadOnly, S::Input),
        definition_at(1402) == row(1402, "tph_ir_e_export2_total_high"@, C::Grid, T::U16, 100_000, A::ReadOnly, S::Input),
        definition_at(1403) == row(1403, "tph_ir_e_export2_total_low"@, C::Grid, T::U16, 100_000, A::ReadOnly, S::Input),
        definition_at(1412) == row(1412, "tph_ir_e_pv_today_high"@, C::PV, T::U16, 100_000, A::ReadOnly, S::Input),
        definition_at(1413) == row(1413, "tph_ir_e_pv_today_low"@, C::PV, T::U16, 100_000, A::ReadOnly, S::Input),
{
    catalogue::lemma_prefixes();
    reveal(catalogue::three_phase_energy_rows);
}

/// HR 2040-2075: plant-manager schedule.
pub proof fn lemma_ems_holding()
    ensures
        definition_at(12040) == row(2040, "ems_plant_enable"@, C::Configuration, T::U16, 1_000_000, A::ReadWrite, S::Holding),
        definition_at(12041) == row(2041, "ems_expected_inverter_count"@, C::Configuration, T::U16, 1_000_000, A::ReadWrite, S::Holding),
        definition_at(12042) == row(2042, "ems_expected_meter_count"@, C::Configuration, T::U16, 1_000_000, A::ReadWrite, S::Holding),
        definition_at(12043) == row(2043, "ems_expected_car_charger_count"@, C::Configuration, T::U16, 1_000_000, A::ReadWrite, S::Holding),
        definition_at(12044) == row(2044, "ems_discharge_slot_1_start"@, C::Schedules, T::U16, 1_000_000, A::ReadWrite, S::Holding),
        definition_at(12045) == row(2045, "ems_discharge_slot_1_end"@, C::Schedules, T::U16, 1_000_000, A::ReadWrite, S::Holding),
        definition_at(12046) == row(2046, "ems_discharge_target_soc_1"@, C::Schedules, T::U16, 1_000_000, A::ReadWrite, S::Holding),
        definition_at(12047) == row(2047, "ems_discharge_slot_2_start"@, C::Schedules, T::U16, 1_000_000, A::ReadWrite, S::Holding),
        definition_at(12048) == row(2048, "ems_discharge_slot_2_end"@, C::Schedules, T::U16, 1_000_000, A::ReadWrite, S::Holding),
        definition_at(12049) == row(2049, "ems_discharge_target_soc_2"@, C::Schedules, T::U16, 1_000_000, A::ReadWrite, S::Holding),
        definition_at(12050) == row(2050, "ems_discharge_slot_3_start"@, C::Schedules, T::U16, 1_000_000, A::ReadWrite, S::Holding),
        definition_at(12051) == row(2051, "ems_discharge_slot_3_end"@, C::Schedules, T::U16, 1_000_000, A::ReadWrite, S::Holding),
        definition_at(12052) == row(2052, "ems_discharge_target_soc_3"@, C::Schedules, T::U16, 1_000_000, A::ReadWrite, S::Holding),
        definition_at(12053) == row(2053, "ems_charge_slot_1_start"@, C::Schedules, T::U16, 1_000_000, A::ReadWrite, S::Holding),
        definition_at(12054) == row(2054, "ems_charge_slot_1_end"@, C::Schedules, T::U16, 1_000_000, A::ReadWrite, S::Holding),
        definition_at(12055) == row(2055, "ems_charge_target_soc_1"@, C::Schedules, T::U16, 1_000_000, A::ReadWrite, S::Holding),
        definition_at(12056) == row(2056, "ems_charge_slot_2_start"@, C::Schedules, T::U16, 1_000_000, A::ReadWrite, S::Holding),
        definition_at(12057) == row(2057, "ems_charge_slot_2_end"@, C::Schedules, T::U16, 1_000_000, A::ReadWrite, S::Holding),
        definition_at(12058) == row(2058, "ems_charge_target_soc_2"@, C::Schedules, T::U16, 1_000_000, A::ReadWrite, S::Holding),
        definition_at(12059) == row(2059, "ems_charge_slot_3_start"@, C::Schedules, T::U16, 1_000_000, A::ReadWrite, S::Holding),
        definition_at(12060) == row(2060, "ems_charge_slot_3_end"@, C::Schedules, T::U16, 1_000_000, A::ReadWrite, S::Holding),
        definition_at(12061) == row(2061, "ems_charge_target_soc_3"@, C::Schedules, T::U16, 1_000_000, A::ReadWrite, S::Holding),
        definition_at(12062) == row(2062, "ems_export_slot_1_start"@, C::Schedules, T::U16, 1_000_000, A::ReadWrite, S::Holding),
        definition_at(12063) == row(2063, "ems_export_slot_1_end"@, C::Schedules, T::U16, 1_000_000, A::ReadWrite, S::Holding),
        definition_at(12064) == row(2064, "ems_export_target_soc_1"@, C::Schedules, T::U16, 1_000_000, A::ReadWrite, S::Holding),
        definition_at(12065) == row(2065, "ems_export_slot_2_start"@, C::Schedules, T::U16, 1_000_000, A::ReadWrite, S::Holding),
        definition_at(12066) == row(2066, "ems_export_slot_2_end"@, C::Schedules, T::U16, 1_000_000, A::ReadWrite, S::Holding),
        definition_at(12067) == row(2067, "ems_export_target_soc_2"@, C::Schedules, T::U16, 1_000_000, A::ReadWrite, S::Holding),
        definition_at(12068) == row(2068, "ems_export_slot_3_start"@, C::Schedules, T::U16, 1_000_000, A::ReadWrite, S::Holding),
        definition_at(12069) == row(2069, "ems_export_slot_3_end"@, C::Schedules, T::U16, 1_000_000, A::ReadWrite, S::Holding),
        definition_at(12070) == row(2070, "ems_export_target_soc_3"@, C::Schedules, T::U16, 1_000_000, A::ReadWrite, S::Holding),
        definition_at(12071) == row(2071, "ems_export_power_limit"@, C::Configuration, T::U16, 1_000_000, A::ReadWrite, S::Holding),
        definition_at(12072) == row(2072, "ems_car_charge_mode"@, C::Configuration, T::U16, 1_000_000, A::ReadWrite, S::Holding),
        definition_at(12073) == row(2073, "ems_car_charge_boost"@, C::Configuration, T::U16, 1_000_000, A::ReadWrite, S::Holding),
        definition_at(12074) == row(2074, "ems_plant_charge_compensation"@, C::Configuration, T::S16, 1_000_000, A::ReadWrite, S::Holding),
        definition_at(12075) == row(2075, "ems_plant_discharge_compensation"@, C::Configuration, T::S16, 1_000_000, A::ReadWrite, S::Holding),
{
    catalogue::lemma_prefixes();
    reveal(catalogue::ems_holding_rows);
}

/// IR 2040-2094: plant-manager telemetry.
pub proof fn lemma_ems_input()
    ensures
        definition_at(2040) == row(2040, "ems_ir_status"@, C::Configuration, T::U16, 1_000_000, A::ReadOnly, S::Input),
        definition_at(2041) == row(2041, "ems_ir_meter_count"@, C::Configuration, T::U16, 1_000_000, A::ReadOnly, S::Input),
        definition_at(2042) == row(2042, "ems_ir_meter_types"@, C::Configuration, T::U16, 1_000_000, A::ReadOnly, S::Input),
        definition_at(2043) == row(2043, "ems_ir_meter_status"@, C::Configuration, T::U16, 1_000_000, A::ReadOnly, S::Input),
        definition_at(2044) == row(2044, "ems_ir_inverter_count"@, C::Configuration, T::U16, 1_000_000, A::ReadOnly, S::Input),
        definition_at(2045) == row(2045, "ems_ir_inverter_status"@, C::Configuration, T::U16, 1_000_000, A::ReadOnly, S::Input),
        definition_at(2046) == row(2046, "ems_ir_meter_1_power"@, C::Grid, T::S16, 1_000_000, A::ReadOnly, S::Input),
        definition_at(2047) == row(2047, "ems_ir_meter_2_power"@, C::Grid, T::S16, 1_000_000, A::ReadOnly, S::Input),
        definition_at(2048) == row(2048, "ems_ir_meter_3_power"@, C::Grid, T::S16, 1_000_000, A::ReadOnly, S::Input),
        definition_at(2049) == row(2049, "ems_ir_meter_4_power"@, C::Grid, T::S16, 1_000_000, A::ReadOnly, S::Input),
        definition_at(2050) == row(2050, "ems_ir_meter_5_power"@, C::Grid, T::S16, 1_000_000, A::ReadOnly, S::Input),
        definition_at(2051) == row(2051, "ems_ir_meter_6_power"@, C::Grid, T::S16, 1_000_000, A::ReadOnly, S::Input),
        definition_at(2052) == row(2052, "ems_ir_meter_7_power"@, C::Grid, T::S16, 1_000_000, A::ReadOnly, S::Input),
        definition_at(2053) == row(2053, "ems_ir_meter_8_power"@, C::Grid, T::S16, 1_000_000, A::ReadOnly, S::Input),
        definition_at(2054) == row(2054, "ems_ir_inverter_1_power"@, C::Inverter, T::S16, 1_000_000, A::ReadOnly, S::Input),
        definition_at(2055) == row(2055, "ems_ir_inverter_2_power"@, C::Inverter, T::S16, 1_000_000, A::ReadOnly, S::Input),
        definition_at(2056) == row(2056, "ems_ir_inverter_3_power"@, C::Inverter, T::S16, 1_000_000, A::ReadOnly, S::Input),
        definition_at(2057) == row(2057, "ems_ir_inverter_4_power"@, C::Inverter, T::S16, 1_000_000, A::ReadOnly, S::Input),
        definition_at(2058) == row(2058, "ems_ir_inverter_1_soc"@, C::Battery, T::U16, 1_000_000, A::ReadOnly, S::Input),
        definition_at(2059) == row(2059, "ems_ir_inverter_2_soc"@, C::Battery, T::U16, 1_000_000, A::ReadOnly, S::Input),
        definition_at(2060) == row(2060, "ems_ir_inverter_3_soc"@, C::Battery, T::U16, 1_000_000, A::ReadOnly, S::Input),
        definition_at(2061) == row(2061, "ems_ir_inverter_4_soc"@, C::Battery, T::U16, 1_000_000, A::ReadOnly, S::Input),
        definition_at(2062) == row(2062, "ems_ir_inverter_1_temp"@, C::Inverter, T::S16, 100_000, A::ReadOnly, S::Input),
        definition_at(2063) == row(2063, "ems_ir_inverter_2_temp"@, C::Inverter, T::S16, 100_000, A::ReadOnly, S::Input),
        definition_at(2064) == row(2064, "ems_ir_inverter_3_temp"@, C::Inverter, T::S16, 100_000, A::ReadOnly, S::Input),
        definition_at(2065) == row(2065, "ems_ir_inverter_4_temp"@, C::Inverter, T::S16, 100_000, A::ReadOnly, S::Input),
        definition_at(2066) == row(2066, "ems_ir_inverter_1_serial"@, C::Inverter, T::U16, 1_000_000, A::ReadOnly, S::Input),
        definition_at(2086) == row(2086, "ems_ir_calc_load_power"@, C::Grid, T::U16, 1_000_000, A::ReadOnly, S::Input),
        definition_at(2087) == row(2087, "ems_ir_measured_load_power"@, C::Grid, T::U16, 1_000_000, A::ReadOnly, S::Input),
        definition_at(2088) == row(2088, "ems_ir_total_generation_load_power"@, C::Grid, T::U16, 1_000_000, A::ReadOnly, S::Input),
        definition_at(2089) == row(2089, "ems_ir_grid_meter_power"@, C::Grid, T::S16, 1_000_000, A::ReadOnly, S::Input),
        definition_at(2090) == row(2090, "ems_ir_total_battery_power"@, C::Battery, T::S16, 1_000_000, A::ReadOnly, S::Input),
        definition_at(2091) == row(2091, "ems_ir_remaining_battery_wh"@, C::Battery, T::U16, 1_000_000, A::ReadOnly, S::Input),
        definition_at(2094) == row(2094, "ems_ir_other_battery_power"@, C::Battery, T::S16, 1_000_000, A::ReadOnly, S::Input),
        definition_at(2071) == row(2071, "ems_ir_inverter_2_serial"@, C::Inverter, T::U16, 1_000_000, A::ReadOnly, S::Input),
        definition_at(2076) == row(2076, "ems_ir_inverter_3_serial"@, C::Inverter, T::U16, 1_000_000, A::ReadOnly, S::Input),
        definition_at(2081) == row(2081, "ems_ir_inverter_4_serial"@, C::Inverter, T::U16, 1_000_000, A::ReadOnly, S::Input),
{
    catalogue::lemma_prefixes();
    reveal(catalogue::ems_input_rows);
}

/// HR 554-573 and 4107-4142: smart load slots and long counters.
pub proof fn lemma_smart_load()
    ensures
        definition_at(10554) == row(554, "ge_hr_smart_load_slot_1_start"@, C::Configuration, T::U16, 1_000_000, A::ReadWrite, S::Holding),
        definition_at(10555) == row(555, "ge_hr_smart_load_slot_1_end"@, C::Configuration, T::U16, 1_000_000, A::ReadWrite, S::Holding),
        definition_at(10556) == row(556, "ge_hr_smart_load_slot_2_start"@, C::Configuration, T::U16, 1_000_000, A::ReadWrite, S::Holding),
        definition_at(10557) == row(557, "ge_hr_smart_load_slot_2_end"@, C::Configuration, T::U16, 1_000_000, A::ReadWrite, S::Holding),
        definition_at(10558) == row(558, "ge_hr_smart_load_slot_3_start"@, C::Configuration, T::U16, 1_000_000, A::ReadWrite, S::Holding),
        definition_at(10559) == row(559, "ge_hr_smart_load_slot_3_end"@, C::Configuration, T::U16, 1_000_000, A::ReadWrite, S::Holding),
        definition_at(10560) == row(560, "ge_hr_smart_load_slot_4_start"@, C::Configuration, T::U16, 1_000_000, A::ReadWrite, S::Holding),
        definition_at(10561) == row(561, "ge_hr_smart_load_slot_4_end"@, C::Configuration, T::U16, 1_000_000, A::ReadWrite, S::Holding),
        definition_at(10562) == row(562, "ge_hr_smart_load_slot_5_start"@, C::Configuration, T::U16, 1_000_000, A::ReadWrite, S::Holding),
        definition_at(10563) == row(563, "ge_hr_smart_load_slot_5_end"@, C::Configuration, T::U16, 1_000_000, A::ReadWrite, S::Holding),
        definition_at(10564) == row(564, "ge_hr_smart_load_slot_6_start"@, C::Configuration, T::U16, 1_000_000, A::ReadWrite, S::Holding),
        definition_at(10565) == row(565, "ge_hr_smart_load_slot_6_end"@, C::Configuration, T::U16, 1_000_000, A::ReadWrite, S::Holding),
        definition_at(10566) == row(566, "ge_hr_smart_load_slot_7_start"@, C::Configuration, T::U16, 1_000_000, A::ReadWrite, S::Holding),
        definition_at(10567) == row(567, "ge_hr_smart_load_slot_7_end"@, C::Configuration, T::U16, 1_000_000, A::ReadWrite, S::Holding),
        definition_at(10568) == row(568, "ge_hr_smart_load_slot_8_start"@, C::Configuration, T::U16, 1_000_000, A::ReadWrite, S::Holding),
        definition_at(10569) == row(569, "ge_hr_smart_load_slot_8_end"@, C::Configuration, T::U16, 1_000_000, A::ReadWrite, S::Holding),
        definition_at(10570) == row(570, "ge_hr_smart_load_slot_9_start"@, C::Configuration, T::U16, 1_000_000, A::ReadWrite, S::Holding),
        definition_at(10571) == row(571, "ge_hr_smart_load_slot_9_end"@, C::Configuration, T::U16, 1_000_000, A::ReadWrite, S::Holding),
        definition_at(10572) == row(572, "ge_hr_smart_load_slot_10_start"@, C::Configuration, T::U16, 1_000_000, A::ReadWrite, S::Holding),
        definition_at(10573) == row(573, "ge_hr_smart_load_slot_10_end"@, C::Configuration, T::U16, 1_000_000, A::ReadWrite, S::Holding),
        definition_at(14107) == row(4107, "ge_hr_pv_power_setting_high"@, C::PV, T::U16, 1_000_000, A::ReadWrite, S::Holding),
        definition_at(14108) == row(4108, "ge_hr_pv_power_setting_low"@, C::PV, T::U16, 1_000_000, A::ReadWrite, S::Holding),
        definition_at(14109) == row(4109, "ge_hr_battery_discharge_total_alt2_high"@, C::Battery, T::U16, 1_000_000, A::ReadOnly, S::Holding),
        definition_at(14110) == row(4110, "ge_hr_battery_discharge_total_alt2_low"@, C::Battery, T::U16, 1_000_000, A::ReadOnly, S::Holding),
        definition_at(14111) == row(4111, "ge_hr_battery_charge_total_alt2_high"@, C::Battery, T::U16, 1_000_000, A::ReadOnly, S::Holding),
        definition_at(14112) == row(4112, "ge_hr_battery_charge_total_alt2_low"@, C::Battery, T::U16, 1_000_000, A::ReadOnly, S::Holding),
        definition_at(14113) == row(4113, "ge_hr_battery_discharge_today_alt3"@, C::Battery, T::U16, 100_000, A::ReadOnly, S::Holding),
        definition_at(14114) == row(4114, "ge_hr_battery_charge_today_alt3"@, C::Battery, T::U16, 100_000, A::ReadOnly, S::Holding),
        definition_at(14141) == row(4141, "ge_hr_inverter_export_total_high"@, C::Grid, T::U16, 1_000_000, A::ReadOnly, S::Holding),
        definition_at(14142) == row(4142, "ge_hr_inverter_export_total_low"@, C::Grid, T::U16, 1_000_000, A::ReadOnly, S::Holding),
{
    catalogue::lemma_prefixes();
    reveal(catalogue::smart_load_rows);
}

/// HR 100-705: registers of the simulator.
pub proof fn lemma_internal()
    ensures
        definition_at(10100) == row(100, "inverter_mode"@, C::Inverter, T::U16, 1_000_000, A::ReadWrite, S::Holding),
        definition_at(10101) == row(101, "inverter_ac_power"@, C::Inverter, T::S16, 1_000_000, A::ReadOnly, S::Holding),
        definition_at(10102) == row(102, "inverter_export_limit_w"@, C::Inverter, T::U16, 1_000_000, A::ReadWrite, S::Holding),
        definition_at(10103) == row(103, "inverter_temperature"@, C::Inverter, T::S16, 100_000, A::ReadOnly, S::Holding),
        definition_at(10104) == row(104, "ge_hr_enable_battery_self_heating"@, C::Battery, T::U16, 1_000_000, A::ReadOnly, S::Holding),
        definition_at(10172) == row(172, "ge_hr_enable_manual_battery_heater"@, C::Battery, T::U16, 1_000_000, A::ReadOnly, S::Holding),
        definition_at(10200) == row(200, "battery_soc"@, C::Battery, T::U16, 1_000_000, A::ReadOnly, S::Holding),
        definition_at(10201) == row(201, "battery_soc_2"@, C::Battery, T::U16, 1_000_000, A::ReadOnly, S::Holding),
        definition_at(10202) == row(202, "battery_soc_3"@, C::Battery, T::U16, 1_000_000, A::ReadOnly, S::Holding),
        definition_at(10203) == row(203, "battery_power"@, C::Battery, T::S16, 1_000_000, A::ReadOnly, S::Holding),
        definition_at(10204) == row(204, "battery_voltage"@, C::Battery, T::U16, 10_000, A::ReadOnly, S::Holding),
        definition_at(10205) == row(205, "battery_current"@, C::Battery, T::S16, 10_000, A::ReadOnly, S::Holding),
        definition_at(10206) == row(206, "battery_temperature"@, C::Battery, T::S16, 100_000, A::ReadOnly, S::Holding),
        definition_at(10207) == row(207, "battery_capacity_kwh"@, C::Battery, T::U16, 100_000, A::ReadOnly, S::Holding),
        definition_at(10208) == row(208, "battery_max_charge_kw"@, C::Battery, T::U16, 100_000, A::ReadWrite, S::Holding),
        definition_at(10209) == row(209, "battery_max_discharge_kw"@, C::Battery, T::U16, 100_000, A::ReadWrite, S::Holding),
        definition_at(10210) == row(210, "battery_min_soc"@, C::Battery, T::U16, 1_000_000, A::ReadWrite, S::Holding),
        definition_at(10211) == row(211, "battery_max_soc"@, C::Battery, T::U16, 1_000_000, A::ReadWrite, S::Holding),
        definition_at(10212) == row(212, "battery_charge_efficiency"@, C::Battery, T::U16, 10_000, A::ReadOnly, S::Holding),
        definition_at(10213) == row(213, "battery_discharge_efficiency"@, C::Battery, T::U16, 10_000, A::ReadOnly, S::Holding),
        definition_at(10214) == row(214, "battery_module_count"@, C::Battery, T::U16, 1_000_000, A::ReadOnly, S::Holding),
        definition_at(10223) == row(223, "ge_hr_inverter_errors_high"@, C::Inverter, T::U16, 1_000_000, A::ReadOnly, S::Holding),
        definition_at(10224) == row(224, "ge_hr_inverter_errors_low"@, C::Inverter, T::U16, 1_000_000, A::ReadOnly, S::Holding),
        definition_at(10300) == row(300, "pv_generation"@, C::PV, T::U16, 1_000_000, A::ReadOnly, S::Holding),
        definition_at(10301) == row(301, "pv_voltage"@, C::PV, T::U16, 100_000, A::ReadOnly, S::Holding),
        definition_at(10302) == row(302, "pv_current"@, C::PV, T::U16, 10_000, A::ReadOnly, S::Holding),
        definition_at(10303) == row(303, "pv_energy_today"@, C::PV, T::U16, 100_000, A::ReadOnly, S::Holding),
        definition_at(10304) == row(304, "pv_peak_capacity"@, C::PV, T::U16, 1_000_000, A::ReadOnly, S::Holding),
        definition_at(10400) == row(400, "grid_power"@, C::Grid, T::S16, 1_000_000, A::ReadOnly, S::Holding),
        definition_at(10401) == row(401, "grid_voltage"@, C::Grid, T::U16, 100_000, A::ReadOnly, S::Holding),
        definition_at(10402) == row(402, "grid_frequency"@, C::Grid, T::U16, 10_000, A::ReadOnly, S::Holding),
        definition_at(10403) == row(403, "grid_connected"@, C::Grid, T::U16, 1_000_000, A::ReadOnly, S::Holding),
        definition_at(10404) == row(404, "load_power"@, C::Grid, T::U16, 1_000_000, A::ReadOnly, S::Holding),
        definition_at(10500) == row(500, "grid_import_kwh"@, C::Grid, T::U16, 100_000, A::ReadOnly, S::Holding),
        definition_at(10501) == row(501, "grid_export_kwh"@, C::Grid, T::U16, 100_000, A::ReadOnly, S::Holding),
        definition_at(10502) == row(502, "battery_charge_kwh"@, C::Battery, T::U16, 100_000, A::ReadOnly, S::Holding),
        definition_at(10503) == row(503, "battery_discharge_kwh"@, C::Battery, T::U16, 100_000, A::ReadOnly, S::Holding),
        definition_at(10504) == row(504, "solar_generation_kwh"@, C::PV, T::U16, 100_000, A::ReadOnly, S::Holding),
        definition_at(10505) == row(505, "load_consumption_kwh"@, C::Grid, T::U16, 100_000, A::ReadOnly, S::Holding),
        definition_at(10600) == row(600, "config_battery_count"@, C::Configuration, T::U16, 1_000_000, A::ReadOnly, S::Holding),
        definition_at(10601) == row(601, "config_tick_interval"@, C::Configuration, T::U16, 1_000_000, A::ReadOnly, S::Holding),
        definition_at(10602) == row(602, "config_weather"@, C::Configuration, T::U16, 1_000_000, A::ReadWrite, S::Holding),
        definition_at(10700) == row(700, "schedule_charge_start"@, C::Schedules, T::U16, 1_000_000, A::ReadWrite, S::Holding),
        definition_at(10701) == row(701, "schedule_charge_end"@, C::Schedules, T::U16, 1_000_000, A::ReadWrite, S::Holding),
        definition_at(10702) == row(702, "schedule_discharge_start"@, C::Schedules, T::U16, 1_000_000, A::ReadWrite, S::Holding),
        definition_at(10703) == row(703, "schedule_discharge_end"@, C::Schedules, T::U16, 1_000_000, A::ReadWrite, S::Holding),
        definition_at(10704) == row(704, "schedule_charge_target_soc"@, C::Schedules, T::U16, 1_000_000, A::ReadWrite, S::Holding),
        definition_at(10705) == row(705, "schedule_discharge_target_soc"@, C::Schedules, T::U16, 1_000_000, A::ReadWrite, S::Holding),
{
    catalogue::lemma_prefixes();
    reveal(catalogue::internal_rows);
}

/// IR 1300-1307: three-phase fault words.
pub proof fn lemma_three_phase_faults()
    ensures
        definition_at(1300) == row(1300, "ge_ir_threephase_fault_0"@, C::Inverter, T::U16, 1_000_000, A::ReadOnly, S::Input),
        definition_at(1301) == row(1301, "ge_ir_threephase_fault_1"@, C::Inverter, T::U16, 1_000_000, A::ReadOnly, S::Input),
        definition_at(1302) == row(1302, "ge_ir_threephase_fault_2"@, C::Inverter, T::U16, 1_000_000, A::ReadOnly, S::Input),
        definition_at(1303) == row(1303, "ge_ir_threephase_fault_3"@, C::Inverter, T::U16, 1_000_000, A::ReadOnly, S::Input),
        definition_at(1304) == row(1304, "ge_ir_threephase_fault_4"@, C::Inverter, T::U16, 1_000_000, A::ReadOnly, S::Input),
        definition_at(1305) == row(1305, "ge_ir_threephase_fault_5"@, C::Inverter, T::U16, 1_000_000, A::ReadOnly, S::Input),
        definition_at(1306) == row(1306, "ge_ir_threephase_fault_6"@, C::Inverter, T::U16, 1_000_000, A::ReadOnly, S::Input),
        definition_at(1307) == row(1307, "ge_ir_threephase_fault_7"@, C::Inverter, T::U16, 1_000_000, A::ReadOnly, S::Input),
{
    catalogue::lemma_prefixes();
    reveal(catalogue::three_phase_faults_rows);
}

/// IR 1600-1657: gateway system and energy.
pub proof fn lemma_gateway_system()
    ensures
        definition_at(1600) == row(1600, "gw_sw_version_0"@, C::Gateway, T::U16, 1_000_000, A::ReadOnly, S::Input),
        definition_at(1601) == row(1601, "gw_sw_version_1"@, C::Gateway, T::U16, 1_000_000, A::ReadOnly, S::Input),
        definition_at(1602) == row(1602, "gw_sw_version_2"@, C::Gateway, T::U16, 1_000_000, A::ReadOnly, S::Input),
        definition_at(1603) == row(1603, "gw_sw_version_3"@, C::Gateway, T::U16, 1_000_000, A::ReadOnly, S::Input),
        definition_at(1604) == row(1604, "gw_work_mode"@, C::Gateway, T::U16, 1_000_000, A::ReadOnly, S::Input),
        definition_at(1608) == row(1608, "gw_v_grid"@, C::Gateway, T::U16, 100_000, A::ReadOnly, S::Input),
        definition_at(1609) == row(1609, "gw_i_grid"@, C::Gateway, T::U16, 100_000, A::ReadOnly, S::Input),
        definition_at(1610) == row(1610, "gw_v_load"@, C::Gateway, T::U16, 100_000, A::ReadOnly, S::Input),
        definition_at(1611) == row(1611, "gw_i_load"@, C::Gateway, T::U16, 100_000, A::ReadOnly, S::Input),
        definition_at(1612) == row(1612, "gw_i_pv"@, C::Gateway, T::U16, 100_000, A::ReadOnly, S::Input),
        definition_at(1616) == row(1616, "gw_p_ac1"@, C::Gateway, T::U16, 1_000_000, A::ReadOnly, S::Input),
        definition_at(1617) == row(1617, "gw_p_pv"@, C::Gateway, T::U16, 1_000_000, A::ReadOnly, S::Input),
        definition_at(1618) == row(1618, "gw_p_load"@, C::Gateway, T::U16, 1_000_000, A::ReadOnly, S::Input),
        definition_at(1619) == row(1619, "gw_p_liberty"@, C::Gateway, T::U16, 1_000_000, A::ReadOnly, S::Input),
        definition_at(1620) == row(1620, "gw_fault_protection_hi"@, C::Gateway, T::U16, 1_000_000, A::ReadOnly, S::Input),
        definition_at(1621) == row(1621, "gw_fault_protection_lo"@, C::Gateway, T::U16, 1_000_000, A::ReadOnly, S::Input),
        definition_at(1622) == row(1622, "gw_fault_codes_hi"@, C::Gateway, T::U16, 1_000_000, A::ReadOnly, S::Input),
        definition_at(1623) == row(1623, "gw_fault_codes_lo"@, C::Gateway, T::U16, 1_000_000, A::ReadOnly, S::Input),
        definition_at(1624) == row(1624, "gw_v_grid_relay"@, C::Gateway, T::U16, 100_000, A::ReadOnly, S::Input),
        definition_at(1625) == row(1625, "gw_v_inverter_relay"@, C::Gateway, T::U16, 100_000, A::ReadOnly, S::Input),
        definition_at(1627) == row(1627, "gw_first_inv_serial_0"@, C::Gateway, T::U16, 1_000_000, A::ReadOnly, S::Input),
        definition_at(1628) == row(1628, "gw_first_inv_serial_1"@, C::Gateway, T::U16, 1_000_000, A::ReadOnly, S::Input),
        definition_at(1629) == row(1629, "gw_first_inv_serial_2"@, C::Gateway, T::U16, 1_000_000, A::ReadOnly, S::Input),
        definition_at(1630) == row(1630, "gw_first_inv_serial_3"@, C::Gateway, T::U16, 1_000_000, A::ReadOnly, S::Input),
        definition_at(1631) == row(1631, "gw_first_inv_serial_4"@, C::Gateway, T::U16, 1_000_000, A::ReadOnly, S::Input),
        definition_at(1640) == row(1640, "gw_e_grid_import_today"@, C::Gateway, T::U16, 100_000, A::ReadOnly, S::Input),
        definition_at(1641) == row(1641, "gw_e_grid_import_total_hi"@, C::Gateway, T::U16, 100_000, A::ReadOnly, S::Input),
        definition_at(1642) == row(1642, "gw_e_grid_import_total_lo"@, C::Gateway, T::U16, 100_000, A::ReadOnly, S::Input),
        definition_at(1643) == row(1643, "gw_e_pv_today"@, C::Gateway, T::U16, 100_000, A::ReadOnly, S::Input),
        definition_at(1644) == row(1644, "gw_e_pv_total_hi"@, C::Gateway, T::U16, 100_000, A::ReadOnly, S::Input),
        definition_at(1645) == row(1645, "gw_e_pv_total_lo"@, C::Gateway, T::U16, 100_000, A::ReadOnly, S::Input),
        definition_at(1646) == row(1646, "gw_e_grid_export_today"@, C::Gateway, T::U16, 100_000, A::ReadOnly, S::Input),
        definition_at(1647) == row(1647, "gw_e_grid_export_total_hi"@, C::Gateway, T::U16, 100_000, A::ReadOnly, S::Input),
        definition_at(1648) == row(1648, "gw_e_grid_export_total_lo"@, C::Gateway, T::U16, 100_000, A::ReadOnly, S::Input),
        definition_at(1649) == row(1649, "gw_e_aio_charge_today"@, C::Gateway, T::U16, 100_000, A::ReadOnly, S::Input),
        definition_at(1650) == row(1650, "gw_e_aio_charge_total_hi"@, C::Gateway, T::U16, 100_000, A::ReadOnly, S::Input),
        definition_at(1651) == row(1651, "gw_e_aio_charge_total_lo"@, C::Gateway, T::U16, 100_000, A::ReadOnly, S::Input),
        definition_at(1652) == row(1652, "gw_e_aio_discharge_today"@, C::Gateway, T::U16, 100_000, A::ReadOnly, S::Input),
        definition_at(1653) == row(1653, "gw_e_aio_discharge_total_hi"@, C::Gateway, T::U16, 100_000, A::ReadOnly, S::Input),
        definition_at(1654) == row(1654, "gw_e_aio_discharge_total_lo"@, C::Gateway, T::U16, 100_000, A::ReadOnly, S::Input),
        definition_at(1655) == row(1655, "gw_e_load_today"@, C::Gateway, T::U16, 100_000, A::ReadOnly, S::Input),
        definition_at(1656) == row(1656, "gw_e_load_total_hi"@, C::Gateway, T::U16, 100_000, A::ReadOnly, S::Input),
        definition_at(1657) == row(1657, "gw_e_load_total_lo"@, C::Gateway, T::U16, 100_000, A::ReadOnly, S::Input),
{
    catalogue::lemma_prefixes();
    reveal(catalogue::gateway_system_rows);
}

/// IR 1700-1818: gateway units.
pub proof fn lemma_gateway_units()
    ensures
        definition_at(1700) == row(1700, "gw_parallel_aio_num"@, C::Gateway, T::U16, 1_000_000, A::ReadOnly, S::Input),
        definition_at(1701) == row(1701, "gw_parallel_aio_online_num"@, C::Gateway, T::U16, 1_000_000, A::ReadOnly, S::Input),
        definition_at(1702) == row(1702, "gw_p_aio_total"@, C::Gateway, T::U16, 1_000_000, A::ReadOnly, S::Input),
        definition_at(1703) == row(1703, "gw_aio_state"@, C::Gateway, T::U16, 1_000_000, A::ReadOnly, S::Input),
        definition_at(1704) == row(1704, "gw_battery_firmware"@, C::Gateway, T::U16, 1_000_000, A::ReadOnly, S::Input),
        definition_at(1705) == row(1705, "gw_e_aio1_charge_today"@, C::Gateway, T::U16, 100_000, A::ReadOnly, S::Input),
        definition_at(1706) == row(1706, "gw_e_aio1_charge_total_hi"@, C::Gateway, T::U16, 100_000, A::ReadOnly, S::Input),
        definition_at(1707) == row(1707, "gw_e_aio1_charge_total_lo"@, C::Gateway, T::U16, 100_000, A::ReadOnly, S::Input),
        definition_at(1708) == row(1708, "gw_e_aio2_charge_today"@, C::Gateway, T::U16, 100_000, A::ReadOnly, S::Input),
        definition_at(1709) == row(1709, "gw_e_aio2_charge_total_hi"@, C::Gateway, T::U16, 100_000, A::ReadOnly, S::Input),
        definition_at(1710) == row(1710, "gw_e_aio2_charge_total_lo"@, C::Gateway, T::U16, 100_000, A::ReadOnly, S::Input),
        definition_at(1711) == row(1711, "gw_e_aio3_charge_today"@, C::Gateway, T::U16, 100_000, A::ReadOnly, S::Input),
        definition_at(1712) == row(1712, "gw_e_aio3_charge_total_hi"@, C::Gateway, T::U16, 100_000, A::ReadOnly, S::Input),
        definition_at(1713) == row(1713, "gw_e_aio3_charge_total_lo"@, C::Gateway, T::U16, 100_000, A::ReadOnly, S::Input),
        definition_at(1750) == row(1750, "gw_e_aio1_discharge_today"@, C::Gateway, T::U16, 100_000, A::ReadOnly, S::Input),
        definition_at(1751) == row(1751, "gw_e_aio1_discharge_total_hi"@, C::Gateway, T::U16, 100_000, A::ReadOnly, S::Input),
        definition_at(1752) == row(1752, "gw_e_aio1_discharge_total_lo"@, C::Gateway, T::U16, 100_000, A::ReadOnly, S::Input),
        definition_at(1753) == row(1753, "gw_e_aio2_discharge_today"@, C::Gateway, T::U16, 100_000, A::ReadOnly, S::Input),
        definition_at(1754) == row(1754, "gw_e_aio2_discharge_total_hi"@, C::Gateway, T::U16, 100_000, A::ReadOnly, S::Input),
        definition_at(1755) == row(1755, "gw_e_aio2_discharge_total_lo"@, C::Gateway, T::U16, 100_000, A::ReadOnly, S::Input),
        definition_at(1756) == row(1756, "gw_e_aio3_discharge_today"@, C::Gateway, T::U16, 100_000, A::ReadOnly, S::Input),
        definition_at(1757) == row(1757, "gw_e_aio3_discharge_total_hi"@, C::Gateway, T::U16, 100_000, A::ReadOnly, S::Input),
        definition_at(1758) == row(1758, "gw_e_aio3_discharge_total_lo"@, C::Gateway, T::U16, 100_000, A::ReadOnly, S::Input),
        definition_at(1795) == row(1795, "gw_e_battery_charge_today"@, C::Gateway, T::U16, 100_000, A::ReadOnly, S::Input),
        definition_at(1796) == row(1796, "gw_e_battery_charge_total_hi"@, C::Gateway, T::U16, 100_000, A::ReadOnly, S::Input),
        definition_at(1797) == row(1797, "gw_e_battery_charge_total_lo"@, C::Gateway, T::U16, 100_000, A::ReadOnly, S::Input),
        definition_at(1798) == row(1798, "gw_e_battery_discharge_today"@, C::Gateway, T::U16, 100_000, A::ReadOnly, S::Input),
        definition_at(1799) == row(1799, "gw_e_battery_discharge_total_hi"@, C::Gateway, T::U16, 100_000, A::ReadOnly, S::Input),
        definition_at(1800) == row(1800, "gw_e_battery_discharge_total_lo"@, C::Gateway, T::U16, 100_000, A::ReadOnly, S::Input),
        definition_at(1801) == row(1801, "gw_aio1_soc"@, C::Gateway, T::U16, 1_000_000, A::ReadOnly, S::Input),
        definition_at(1802) == row(1802, "gw_aio2_soc"@, C::Gateway, T::U16, 1_000_000, A::ReadOnly, S::Input),
        definition_at(1803) == row(1803, "gw_aio3_soc"@, C::Gateway, T::U16, 1_000_000, A::ReadOnly, S::Input),
        definition_at(1816) == row(1816, "gw_p_aio1_inverter"@, C::Gateway, T::U16, 1_000_000, A::ReadOnly, S::Input),
        definition_at(1817) == row(1817, "gw_p_aio2_inverter"@, C::Gateway, T::U16, 1_000_000, A::ReadOnly, S::Input),
        definition_at(1818) == row(1818, "gw_p_aio3_inverter"@, C::Gateway, T::U16, 1_000_000, A::ReadOnly, S::Input),
{
    catalogue::lemma_prefixes();
    reveal(catalogue::gateway_units_rows);
}

/// IR 1831-1859: gateway serials, for both firmware variants.
pub proof fn lemma_gateway_serials()
    ensures
        definition_at(1831) == row(1831, "gw_serial_1831"@, C::Gateway, T::U16, 1_000_000, A::ReadOnly, S::Input),
        definition_at(1832) == row(1832, "gw_serial_1832"@, C::Gateway, T::U16, 1_000_000, A::ReadOnly, S::Input),
        definition_at(1833) == row(1833, "gw_serial_1833"@, C::Gateway, T::U16, 1_000_000, A::ReadOnly, S::Input),
        definition_at(1834) == row(1834, "gw_serial_1834"@, C::Gateway, T::U16, 1_000_000, A::ReadOnly, S::Input),
        definition_at(1835) == row(1835, "gw_serial_1835"@, C::Gateway, T::U16, 1_000_000, A::ReadOnly, S::Input),
        definition_at(1836) == row(1836, "gw_serial_1836"@, C::Gateway, T::U16, 1_000_000, A::ReadOnly, S::Input),
        definition_at(1837) == row(1837, "gw_serial_1837"@, C::Gateway, T::U16, 1_000_000, A::ReadOnly, S::Input),
        definition_at(1838) == row(1838, "gw_serial_1838"@, C::Gateway, T::U16, 1_000_000, A::ReadOnly, S::Input),
        definition_at(1839) == row(1839, "gw_serial_1839"@, C::Gateway, T::U16, 1_000_000, A::ReadOnly, S::Input),
        definition_at(1840) == row(1840, "gw_serial_1840"@, C::Gateway, T::U16, 1_000_000, A::ReadOnly, S::Input),
        definition_at(1841) == row(1841, "gw_serial_1841"@, C::Gateway, T::U16, 1_000_000, A::ReadOnly, S::Input),
        definition_at(1842) == row(1842, "gw_serial_1842"@, C::Gateway, T::U16, 1_000_000, A::ReadOnly, S::Input),
        definition_at(1843) == row(1843, "gw_serial_1843"@, C::Gateway, T::U16, 1_000_000, A::ReadOnly, S::Input),
        definition_at(1844) == row(1844, "gw_serial_1844"@, C::Gateway, T::U16, 1_000_000, A::ReadOnly, S::Input),
        definition_at(1845) == row(1845, "gw_serial_1845"@, C::Gateway, T::U16, 1_000_000, A::ReadOnly, S::Input),
        definition_at(1846) == row(1846, "gw_serial_1846"@, C::Gateway, T::U16, 1_000_000, A::ReadOnly, S::Input),
        definition_at(1847) == row(1847, "gw_serial_1847"@, C::Gateway, T::U16, 1_000_000, A::ReadOnly, S::Input),
        definition_at(1848) == row(1848, "gw_serial_1848"@, C::Gateway, T::U16, 1_000_000, A::ReadOnly, S::Input),
        definition_at(1849) == row(1849, "gw_serial_1849"@, C::Gateway, T::U16, 1_000_000, A::ReadOnly, S::Input),
        definition_at(1850) == row(1850, "gw_serial_1850"@, C::Gateway, T::U16, 1_000_000, A::ReadOnly, S::Input),
        definition_at(1851) == row(1851, "gw_serial_1851"@, C::Gateway, T::U16, 1_000_000, A::ReadOnly, S::Input),
        definition_at(1852) == row(1852, "gw_serial_1852"@, C::Gateway, T::U16, 1_000_000, A::ReadOnly, S::Input),
        definition_at(1853) == row(1853, "gw_serial_1853"@, C::Gateway, T::U16, 1_000_000, A::ReadOnly, S::Input),
        definition_at(1854) == row(1854, "gw_serial_1854"@, C::Gateway, T::U16, 1_000_000, A::ReadOnly, S::Input),
        definition_at(1855) == row(1855, "gw_serial_1855"@, C::Gateway, T::U16, 1_000_000, A::ReadOnly, S::Input),
        definition_at(1856) == row(1856, "gw_serial_1856"@, C::Gateway, T::U16, 1_000_000, A::ReadOnly, S::Input),
        definition_at(1857) == row(1857, "gw_serial_1857"@, C::Gateway, T::U16, 1_000_000, A::ReadOnly, S::Input),
        definition_at(1858) == row(1858, "gw_serial_1858"@, C::Gateway, T::U16, 1_000_000, A::ReadOnly, S::Input),
        definition_at(1859) == row(1859, "gw_serial_1859"@, C::Gateway, T::U16, 1_000_000, A::ReadOnly, S::Input),
{
    catalogue::lemma_prefixes();
    reveal(catalogue::gateway_serials_rows);
}

} // verus!
