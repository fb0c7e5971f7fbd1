//! The register catalogue.
//!
//! Each block of registers has a specification function that appends its
//! definitions to a sequence, and an executable function that appends the same
//! definitions to a vector. The catalogue is all blocks in order.
use crate::fixed::Fixed;
use crate::projection;
use crate::registers;
use crate::registers::Access as A;
use crate::registers::RegisterCategory as C;
use crate::registers::RegisterSpace as S;
use crate::registers::RegisterType as T;
use crate::registers::{Definition, RegisterDef};
use crate::text;
use vstd::prelude::*;

verus! {

/// A definition from its parts.
pub open spec fn row(
    address: int,
    name: Seq<char>,
    category: C,
    typ: T,
    scale: int,
    access: A,
    space: S,
) -> Definition {
    Definition { address, name, category, typ, scale, access, space }
}

/// Appends a definition.
fn put(
    v: &mut Vec<RegisterDef>,
    address: u16,
    name: &str,
    category: C,
    typ: T,
    scale: i64,
    access: A,
    space: S,
)
    requires
        0 < scale <= 1_000_000,
    ensures
        registers::definitions_of(final(v)@) == registers::definitions_of(old(v)@).push(
            row(address as int, name@, category, typ, scale as int, access, space),
        ),
{
    let ghost before = v@;
    let d = RegisterDef {
        address,
        name: name.to_owned(),
        category,
        typ,
        scaling_factor: Fixed::from_micros(scale),
        access,
        space,
    };
    v.push(d);
    assert(registers::definitions_of(v@) =~= registers::definitions_of(before).push(d@));
}

/// IR 0-58, 180-183 and 247-248: native telemetry.
#[verifier::opaque]
pub open spec fn native_telemetry_rows(base: Seq<Definition>) -> Seq<Definition> {
    base
        .push(row(0, "ge_ir_status"@, C::Inverter, T::U16, 1_000_000, A::ReadOnly, S::Input))
        .push(row(1, "ge_ir_pv1_voltage"@, C::PV, T::U16, 100_000, A::ReadOnly, S::Input))
        .push(row(2, "ge_ir_pv2_voltage"@, C::PV, T::U16, 100_000, A::ReadOnly, S::Input))
        .push(row(3, "ge_ir_p_bus_voltage"@, C::Inverter, T::U16, 100_000, A::ReadOnly, S::Input))
        .push(row(4, "ge_ir_n_bus_voltage"@, C::Inverter, T::U16, 100_000, A::ReadOnly, S::Input))
        .push(row(10, "ge_ir_ac_current"@, C::Inverter, T::U16, 100_000, A::ReadOnly, S::Input))
        .push(row(14, "ge_ir_charge_status"@, C::Inverter, T::U16, 1_000_000, A::ReadOnly, S::Input))
        .push(row(15, "ge_ir_high_bus_voltage"@, C::Inverter, T::U16, 100_000, A::ReadOnly, S::Input))
        .push(row(16, "ge_ir_inverter_output_pf"@, C::Inverter, T::U16, 1_000_000, A::ReadOnly, S::Input))
        .push(row(23, "ge_ir_solar_diverter_energy"@, C::PV, T::U16, 100_000, A::ReadOnly, S::Input))
        .push(row(24, "ge_ir_inverter_terminal_power"@, C::Inverter, T::S16, 1_000_000, A::ReadOnly, S::Input))
        .push(row(27, "ge_ir_inverter_input_total_high"@, C::Grid, T::U16, 1_000_000, A::ReadOnly, S::Input))
        .push(row(28, "ge_ir_inverter_input_total_low"@, C::Grid, T::U16, 1_000_000, A::ReadOnly, S::Input))
        .push(row(29, "ge_ir_discharge_year"@, C::Battery, T::U16, 100_000, A::ReadOnly, S::Input))
        .push(row(31, "ge_ir_eps_backup_power"@, C::Inverter, T::U16, 1_000_000, A::ReadOnly, S::Input))
        .push(row(38, "ge_ir_countdown"@, C::Inverter, T::U16, 1_000_000, A::ReadOnly, S::Input))
        .push(row(39, "ge_ir_fault_code_high"@, C::Inverter, T::U16, 1_000_000, A::ReadOnly, S::Input))
        .push(row(40, "ge_ir_fault_code_low"@, C::Inverter, T::U16, 1_000_000, A::ReadOnly, S::Input))
        .push(row(42, "ge_ir_load_demand"@, C::Grid, T::U16, 1_000_000, A::ReadOnly, S::Input))
        .push(row(43, "ge_ir_grid_apparent"@, C::Grid, T::U16, 1_000_000, A::ReadOnly, S::Input))
        .push(row(47, "ge_ir_work_time_total_high"@, C::Inverter, T::U16, 1_000_000, A::ReadOnly, S::Input))
        .push(row(48, "ge_ir_work_time_total_low"@, C::Inverter, T::U16, 1_000_000, A::ReadOnly, S::Input))
        .push(row(49, "ge_ir_system_mode"@, C::Inverter, T::U16, 1_000_000, A::ReadOnly, S::Input))
        .push(row(53, "ge_ir_eps_voltage"@, C::Inverter, T::U16, 100_000, A::ReadOnly, S::Input))
        .push(row(54, "ge_ir_eps_frequency"@, C::Inverter, T::U16, 10_000, A::ReadOnly, S::Input))
        .push(row(55, "ge_ir_charger_temperature"@, C::Inverter, T::S16, 100_000, A::ReadOnly, S::Input))
        .push(row(57, "ge_ir_charger_warning_code"@, C::Inverter, T::U16, 1_000_000, A::ReadOnly, S::Input))
        .push(row(58, "ge_ir_grid_port_current"@, C::Grid, T::U16, 10_000, A::ReadOnly, S::Input))
        .push(row(180, "ge_ir_battery_discharge_total_alt1"@, C::Battery, T::U16, 100_000, A::ReadOnly, S::Input))
        .push(row(181, "ge_ir_battery_charge_total_alt1"@, C::Battery, T::U16, 100_000, A::ReadOnly, S::Input))
        .push(row(182, "ge_ir_battery_discharge_today_alt2"@, C::Battery, T::U16, 100_000, A::ReadOnly, S::Input))
        .push(row(183, "ge_ir_battery_charge_today_alt2"@, C::Battery, T::U16, 100_000, A::ReadOnly, S::Input))
        .push(row(247, "ge_ir_combined_generation_high"@, C::PV, T::U16, 1_000_000, A::ReadOnly, S::Input))
        .push(row(248, "ge_ir_combined_generation_low"@, C::PV, T::U16, 1_000_000, A::ReadOnly, S::Input))
}

/// IR 0-58, 180-183 and 247-248: native telemetry.
fn put_native_telemetry(v: &mut Vec<RegisterDef>)
    ensures
        registers::definitions_of(final(v)@) == native_telemetry_rows(registers::definitions_of(old(v)@)),
{
    reveal(native_telemetry_rows);
    put(v, 0, "ge_ir_status", C::Inverter, T::U16, 1_000_000, A::ReadOnly, S::Input);
    put(v, 1, "ge_ir_pv1_voltage", C::PV, T::U16, 100_000, A::ReadOnly, S::Input);
    put(v, 2, "ge_ir_pv2_voltage", C::PV, T::U16, 100_000, A::ReadOnly, S::Input);
    put(v, 3, "ge_ir_p_bus_voltage", C::Inverter, T::U16, 100_000, A::ReadOnly, S::Input);
    put(v, 4, "ge_ir_n_bus_voltage", C::Inverter, T::U16, 100_000, A::ReadOnly, S::Input);
    put(v, 10, "ge_ir_ac_current", C::Inverter, T::U16, 100_000, A::ReadOnly, S::Input);
    put(v, 14, "ge_ir_charge_status", C::Inverter, T::U16, 1_000_000, A::ReadOnly, S::Input);
    put(v, 15, "ge_ir_high_bus_voltage", C::Inverter, T::U16, 100_000, A::ReadOnly, S::Input);
    put(v, 16, "ge_ir_inverter_output_pf", C::Inverter, T::U16, 1_000_000, A::ReadOnly, S::Input);
    put(v, 23, "ge_ir_solar_diverter_energy", C::PV, T::U16, 100_000, A::ReadOnly, S::Input);
    put(v, 24, "ge_ir_inverter_terminal_power", C::Inverter, T::S16, 1_000_000, A::ReadOnly, S::Input);
    put(v, 27, "ge_ir_inverter_input_total_high", C::Grid, T::U16, 1_000_000, A::ReadOnly, S::Input);
    put(v, 28, "ge_ir_inverter_input_total_low", C::Grid, T::U16, 1_000_000, A::ReadOnly, S::Input);
    put(v, 29, "ge_ir_discharge_year", C::Battery, T::U16, 100_000, A::ReadOnly, S::Input);
    put(v, 31, "ge_ir_eps_backup_power", C::Inverter, T::U16, 1_000_000, A::ReadOnly, S::Input);
    put(v, 38, "ge_ir_countdown", C::Inverter, T::U16, 1_000_000, A::ReadOnly, S::Input);
    put(v, 39, "ge_ir_fault_code_high", C::Inverter, T::U16, 1_000_000, A::ReadOnly, S::Input);
    put(v, 40, "ge_ir_fault_code_low", C::Inverter, T::U16, 1_000_000, A::ReadOnly, S::Input);
    put(v, 42, "ge_ir_load_demand", C::Grid, T::U16, 1_000_000, A::ReadOnly, S::Input);
    put(v, 43, "ge_ir_grid_apparent", C::Grid, T::U16, 1_000_000, A::ReadOnly, S::Input);
    put(v, 47, "ge_ir_work_time_total_high", C::Inverter, T::U16, 1_000_000, A::ReadOnly, S::Input);
    put(v, 48, "ge_ir_work_time_total_low", C::Inverter, T::U16, 1_000_000, A::ReadOnly, S::Input);
    put(v, 49, "ge_ir_system_mode", C::Inverter, T::U16, 1_000_000, A::ReadOnly, S::Input);
    put(v, 53, "ge_ir_eps_voltage", C::Inverter, T::U16, 100_000, A::ReadOnly, S::Input);
    put(v, 54, "ge_ir_eps_frequency", C::Inverter, T::U16, 10_000, A::ReadOnly, S::Input);
    put(v, 55, "ge_ir_charger_temperature", C::Inverter, T::S16, 100_000, A::ReadOnly, S::Input);
    put(v, 57, "ge_ir_charger_warning_code", C::Inverter, T::U16, 1_000_000, A::ReadOnly, S::Input);
    put(v, 58, "ge_ir_grid_port_current", C::Grid, T::U16, 10_000, A::ReadOnly, S::Input);
    put(v, 180, "ge_ir_battery_discharge_total_alt1", C::Battery, T::U16, 100_000, A::ReadOnly, S::Input);
    put(v, 181, "ge_ir_battery_charge_total_alt1", C::Battery, T::U16, 100_000, A::ReadOnly, S::Input);
    put(v, 182, "ge_ir_battery_discharge_today_alt2", C::Battery, T::U16, 100_000, A::ReadOnly, S::Input);
    put(v, 183, "ge_ir_battery_charge_today_alt2", C::Battery, T::U16, 100_000, A::ReadOnly, S::Input);
    put(v, 247, "ge_ir_combined_generation_high", C::PV, T::U16, 1_000_000, A::ReadOnly, S::Input);
    put(v, 248, "ge_ir_combined_generation_low", C::PV, T::U16, 1_000_000, A::ReadOnly, S::Input);
}

/// IR 5-59: native readings and totals.
#[verifier::opaque]
pub open spec fn native_totals_rows(base: Seq<Definition>) -> Seq<Definition> {
    base
        .push(row(5, "ge_ir_grid_voltage"@, C::Grid, T::U16, 100_000, A::ReadOnly, S::Input))
        .push(row(6, "ge_ir_battery_throughput_high"@, C::Battery, T::U16, 1_000_000, A::ReadOnly, S::Input))
        .push(row(7, "ge_ir_battery_throughput_low"@, C::Battery, T::U16, 1_000_000, A::ReadOnly, S::Input))
        .push(row(8, "ge_ir_pv1_current"@, C::PV, T::U16, 100_000, A::ReadOnly, S::Input))
        .push(row(9, "ge_ir_pv2_current"@, C::PV, T::U16, 100_000, A::ReadOnly, S::Input))
        .push(row(11, "ge_ir_pv_total_high"@, C::PV, T::U16, 1_000_000, A::ReadOnly, S::Input))
        .push(row(12, "ge_ir_pv_total_low"@, C::PV, T::U16, 1_000_000, A::ReadOnly, S::Input))
        .push(row(13, "ge_ir_grid_frequency"@, C::Grid, T::U16, 10_000, A::ReadOnly, S::Input))
        .push(row(17, "ge_ir_pv1_energy_today"@, C::PV, T::U16, 100_000, A::ReadOnly, S::Input))
        .push(row(18, "ge_ir_pv1_power"@, C::PV, T::U16, 1_000_000, A::ReadOnly, S::Input))
        .push(row(19, "ge_ir_pv2_energy_today"@, C::PV, T::U16, 100_000, A::ReadOnly, S::Input))
        .push(row(20, "ge_ir_pv2_power"@, C::PV, T::U16, 1_000_000, A::ReadOnly, S::Input))
        .push(row(21, "ge_ir_grid_export_total_high"@, C::Grid, T::U16, 1_000_000, A::ReadOnly, S::Input))
        .push(row(22, "ge_ir_grid_export_total_low"@, C::Grid, T::U16, 1_000_000, A::ReadOnly, S::Input))
        .push(row(25, "ge_ir_today_export_energy"@, C::Grid, T::U16, 100_000, A::ReadOnly, S::Input))
        .push(row(26, "ge_ir_today_import_energy"@, C::Grid, T::U16, 100_000, A::ReadOnly, S::Input))
        .push(row(30, "ge_ir_grid_power"@, C::Grid, T::S16, 1_000_000, A::ReadOnly, S::Input))
        .push(row(32, "ge_ir_grid_import_total_high"@, C::Grid, T::U16, 1_000_000, A::ReadOnly, S::Input))
        .push(row(33, "ge_ir_grid_import_total_low"@, C::Grid, T::U16, 1_000_000, A::ReadOnly, S::Input))
        .push(row(35, "ge_ir_ac_charge_today"@, C::Grid, T::U16, 100_000, A::ReadOnly, S::Input))
        .push(row(36, "ge_ir_today_charge_energy"@, C::Battery, T::U16, 100_000, A::ReadOnly, S::Input))
        .push(row(37, "ge_ir_today_discharge_energy"@, C::Battery, T::U16, 100_000, A::ReadOnly, S::Input))
        .push(row(41, "ge_ir_inverter_temperature"@, C::Inverter, T::S16, 100_000, A::ReadOnly, S::Input))
        .push(row(44, "ge_ir_pv_generation_today"@, C::PV, T::U16, 100_000, A::ReadOnly, S::Input))
        .push(row(45, "ge_ir_pv_generation_total_high"@, C::PV, T::U16, 1_000_000, A::ReadOnly, S::Input))
        .push(row(46, "ge_ir_pv_generation_total_low"@, C::PV, T::U16, 1_000_000, A::ReadOnly, S::Input))
        .push(row(50, "ge_ir_battery_voltage"@, C::Battery, T::U16, 10_000, A::ReadOnly, S::Input))
        .push(row(51, "ge_ir_battery_current"@, C::Battery, T::S16, 10_000, A::ReadOnly, S::Input))
        .push(row(52, "ge_ir_battery_power"@, C::Battery, T::S16, 1_000_000, A::ReadOnly, S::Input))
        .push(row(56, "ge_ir_battery_temperature"@, C::Battery, T::S16, 100_000, A::ReadOnly, S::Input))
        .push(row(59, "ge_ir_battery_soc"@, C::Battery, T::U16, 1_000_000, A::ReadOnly, S::Input))
}

/// IR 5-59: native readings and totals.
fn put_native_totals(v: &mut Vec<RegisterDef>)
    ensures
        registers::definitions_of(final(v)@) == native_totals_rows(registers::definitions_of(old(v)@)),
{
    reveal(native_totals_rows);
    put(v, 5, "ge_ir_grid_voltage", C::Grid, T::U16, 100_000, A::ReadOnly, S::Input);
    put(v, 6, "ge_ir_battery_throughput_high", C::Battery, T::U16, 1_000_000, A::ReadOnly, S::Input);
    put(v, 7, "ge_ir_battery_throughput_low", C::Battery, T::U16, 1_000_000, A::ReadOnly, S::Input);
    put(v, 8, "ge_ir_pv1_current", C::PV, T::U16, 100_000, A::ReadOnly, S::Input);
    put(v, 9, "ge_ir_pv2_current", C::PV, T::U16, 100_000, A::ReadOnly, S::Input);
    put(v, 11, "ge_ir_pv_total_high", C::PV, T::U16, 1_000_000, A::ReadOnly, S::Input);
    put(v, 12, "ge_ir_pv_total_low", C::PV, T::U16, 1_000_000, A::ReadOnly, S::Input);
    put(v, 13, "ge_ir_grid_frequency", C::Grid, T::U16, 10_000, A::ReadOnly, S::Input);
    put(v, 17, "ge_ir_pv1_energy_today", C::PV, T::U16, 100_000, A::ReadOnly, S::Input);
    put(v, 18, "ge_ir_pv1_power", C::PV, T::U16, 1_000_000, A::ReadOnly, S::Input);
    put(v, 19, "ge_ir_pv2_energy_today", C::PV, T::U16, 100_000, A::ReadOnly, S::Input);
    put(v, 20, "ge_ir_pv2_power", C::PV, T::U16, 1_000_000, A::ReadOnly, S::Input);
    put(v, 21, "ge_ir_grid_export_total_high", C::Grid, T::U16, 1_000_000, A::ReadOnly, S::Input);
    put(v, 22, "ge_ir_grid_export_total_low", C::Grid, T::U16, 1_000_000, A::ReadOnly, S::Input);
    put(v, 25, "ge_ir_today_export_energy", C::Grid, T::U16, 100_000, A::ReadOnly, S::Input);
    put(v, 26, "ge_ir_today_import_energy", C::Grid, T::U16, 100_000, A::ReadOnly, S::Input);
    put(v, 30, "ge_ir_grid_power", C::Grid, T::S16, 1_000_000, A::ReadOnly, S::Input);
    put(v, 32, "ge_ir_grid_import_total_high", C::Grid, T::U16, 1_000_000, A::ReadOnly, S::Input);
    put(v, 33, "ge_ir_grid_import_total_low", C::Grid, T::U16, 1_000_000, A::ReadOnly, S::Input);
    put(v, 35, "ge_ir_ac_charge_today", C::Grid, T::U16, 100_000, A::ReadOnly, S::Input);
    put(v, 36, "ge_ir_today_charge_energy", C::Battery, T::U16, 100_000, A::ReadOnly, S::Input);
    put(v, 37, "ge_ir_today_discharge_energy", C::Battery, T::U16, 100_000, A::ReadOnly, S::Input);
    put(v, 41, "ge_ir_inverter_temperature", C::Inverter, T::S16, 100_000, A::ReadOnly, S::Input);
    put(v, 44, "ge_ir_pv_generation_today", C::PV, T::U16, 100_000, A::ReadOnly, S::Input);
    put(v, 45, "ge_ir_pv_generation_total_high", C::PV, T::U16, 1_000_000, A::ReadOnly, S::Input);
    put(v, 46, "ge_ir_pv_generation_total_low", C::PV, T::U16, 1_000_000, A::ReadOnly, S::Input);
    put(v, 50, "ge_ir_battery_voltage", C::Battery, T::U16, 10_000, A::ReadOnly, S::Input);
    put(v, 51, "ge_ir_battery_current", C::Battery, T::S16, 10_000, A::ReadOnly, S::Input);
    put(v, 52, "ge_ir_battery_power", C::Battery, T::S16, 1_000_000, A::ReadOnly, S::Input);
    put(v, 56, "ge_ir_battery_temperature", C::Battery, T::S16, 100_000, A::ReadOnly, S::Input);
    put(v, 59, "ge_ir_battery_soc", C::Battery, T::U16, 1_000_000, A::ReadOnly, S::Input);
}

/// IR 60-89: the CT clamp meter.
#[verifier::opaque]
pub open spec fn meter_rows(base: Seq<Definition>) -> Seq<Definition> {
    base
        .push(row(60, "meter_v_phase_1"@, C::Grid, T::U16, 100_000, A::ReadOnly, S::Input))
        .push(row(61, "meter_v_phase_2"@, C::Grid, T::U16, 100_000, A::ReadOnly, S::Input))
        .push(row(62, "meter_v_phase_3"@, C::Grid, T::U16, 100_000, A::ReadOnly, S::Input))
        .push(row(63, "meter_i_phase_1"@, C::Grid, T::U16, 10_000, A::ReadOnly, S::Input))
        .push(row(64, "meter_i_phase_2"@, C::Grid, T::U16, 10_000, A::ReadOnly, S::Input))
        .push(row(65, "meter_i_phase_3"@, C::Grid, T::U16, 10_000, A::ReadOnly, S::Input))
        .push(row(66, "meter_i_ln"@, C::Grid, T::U16, 10_000, A::ReadOnly, S::Input))
        .push(row(67, "meter_i_total"@, C::Grid, T::U16, 10_000, A::ReadOnly, S::Input))
        .push(row(68, "meter_p_active_phase_1"@, C::Grid, T::S16, 1_000_000, A::ReadOnly, S::Input))
        .push(row(69, "meter_p_active_phase_2"@, C::Grid, T::S16, 1_000_000, A::ReadOnly, S::Input))
        .push(row(70, "meter_p_active_phase_3"@, C::Grid, T::S16, 1_000_000, A::ReadOnly, S::Input))
        .push(row(71, "meter_p_active_total"@, C::Grid, T::S16, 1_000_000, A::ReadOnly, S::Input))
        .push(row(72, "meter_p_reactive_phase_1"@, C::Grid, T::S16, 1_000_000, A::ReadOnly, S::Input))
        .push(row(73, "meter_p_reactive_phase_2"@, C::Grid, T::S16, 1_000_000, A::ReadOnly, S::Input))
        .push(row(74, "meter_p_reactive_phase_3"@, C::Grid, T::S16, 1_000_000, A::ReadOnly, S::Input))
        .push(row(75, "meter_p_reactive_total"@, C::Grid, T::S16, 1_000_000, A::ReadOnly, S::Input))
        .push(row(76, "meter_p_apparent_phase_1"@, C::Grid, T::U16, 1_000_000, A::ReadOnly, S::Input))
        .push(row(77, "meter_p_apparent_phase_2"@, C::Grid, T::U16, 1_000_000, A::ReadOnly, S::Input))
        .push(row(78, "meter_p_apparent_phase_3"@, C::Grid, T::U16, 1_000_000, A::ReadOnly, S::Input))
        .push(row(79, "meter_p_apparent_total"@, C::Grid, T::U16, 1_000_000, A::ReadOnly, S::Input))
        .push(row(80, "meter_pf_phase_1"@, C::Grid, T::S16, 1_000, A::ReadOnly, S::Input))
        .push(row(81, "meter_pf_phase_2"@, C::Grid, T::S16, 1_000, A::ReadOnly, S::Input))
        .push(row(82, "meter_pf_phase_3"@, C::Grid, T::S16, 1_000, A::ReadOnly, S::Input))
        .push(row(83, "meter_pf_total"@, C::Grid, T::S16, 1_000, A::ReadOnly, S::Input))
        .push(row(84, "meter_frequency"@, C::Grid, T::U16, 10_000, A::ReadOnly, S::Input))
        .push(row(85, "meter_e_import_active"@, C::Grid, T::U16, 100_000, A::ReadOnly, S::Input))
        .push(row(86, "meter_e_import_reactive"@, C::Grid, T::U16, 100_000, A::ReadOnly, S::Input))
        .push(row(87, "meter_e_export_active"@, C::Grid, T::U16, 100_000, A::ReadOnly, S::Input))
        .push(row(88, "meter_e_export_reactive"@, C::Grid, T::U16, 100_000, A::ReadOnly, S::Input))
        .push(row(89, "meter_reserved"@, C::Grid, T::U16, 1_000_000, A::ReadOnly, S::Input))
}

/// IR 60-89: the CT clamp meter.
fn put_meter(v: &mut Vec<RegisterDef>)
    ensures
        registers::definitions_of(final(v)@) == meter_rows(registers::definitions_of(old(v)@)),
{
    reveal(meter_rows);
    put(v, 60, "meter_v_phase_1", C::Grid, T::U16, 100_000, A::ReadOnly, S::Input);
    put(v, 61, "meter_v_phase_2", C::Grid, T::U16, 100_000, A::ReadOnly, S::Input);
    put(v, 62, "meter_v_phase_3", C::Grid, T::U16, 100_000, A::ReadOnly, S::Input);
    put(v, 63, "meter_i_phase_1", C::Grid, T::U16, 10_000, A::ReadOnly, S::Input);
    put(v, 64, "meter_i_phase_2", C::Grid, T::U16, 10_000, A::ReadOnly, S::Input);
    put(v, 65, "meter_i_phase_3", C::Grid, T::U16, 10_000, A::ReadOnly, S::Input);
    put(v, 66, "meter_i_ln", C::Grid, T::U16, 10_000, A::ReadOnly, S::Input);
    put(v, 67, "meter_i_total", C::Grid, T::U16, 10_000, A::ReadOnly, S::Input);
    put(v, 68, "meter_p_active_phase_1", C::Grid, T::S16, 1_000_000, A::ReadOnly, S::Input);
    put(v, 69, "meter_p_active_phase_2", C::Grid, T::S16, 1_000_000, A::ReadOnly, S::Input);
    put(v, 70, "meter_p_active_phase_3", C::Grid, T::S16, 1_000_000, A::ReadOnly, S::Input);
    put(v, 71, "meter_p_active_total", C::Grid, T::S16, 1_000_000, A::ReadOnly, S::Input);
    put(v, 72, "meter_p_reactive_phase_1", C::Grid, T::S16, 1_000_000, A::ReadOnly, S::Input);
    put(v, 73, "meter_p_reactive_phase_2", C::Grid, T::S16, 1_000_000, A::ReadOnly, S::Input);
    put(v, 74, "meter_p_reactive_phase_3", C::Grid, T::S16, 1_000_000, A::ReadOnly, S::Input);
    put(v, 75, "meter_p_reactive_total", C::Grid, T::S16, 1_000_000, A::ReadOnly, S::Input);
    put(v, 76, "meter_p_apparent_phase_1", C::Grid, T::U16, 1_000_000, A::ReadOnly, S::Input);
    put(v, 77, "meter_p_apparent_phase_2", C::Grid, T::U16, 1_000_000, A::ReadOnly, S::Input);
    put(v, 78, "meter_p_apparent_phase_3", C::Grid, T::U16, 1_000_000, A::ReadOnly, S::Input);
    put(v, 79, "meter_p_apparent_total", C::Grid, T::U16, 1_000_000, A::ReadOnly, S::Input);
    put(v, 80, "meter_pf_phase_1", C::Grid, T::S16, 1_000, A::ReadOnly, S::Input);
    put(v, 81, "meter_pf_phase_2", C::Grid, T::S16, 1_000, A::ReadOnly, S::Input);
    put(v, 82, "meter_pf_phase_3", C::Grid, T::S16, 1_000, A::ReadOnly, S::Input);
    put(v, 83, "meter_pf_total", C::Grid, T::S16, 1_000, A::ReadOnly, S::Input);
    put(v, 84, "meter_frequency", C::Grid, T::U16, 10_000, A::ReadOnly, S::Input);
    put(v, 85, "meter_e_import_active", C::Grid, T::U16, 100_000, A::ReadOnly, S::Input);
    put(v, 86, "meter_e_import_reactive", C::Grid, T::U16, 100_000, A::ReadOnly, S::Input);
    put(v, 87, "meter_e_export_active", C::Grid, T::U16, 100_000, A::ReadOnly, S::Input);
    put(v, 88, "meter_e_export_reactive", C::Grid, T::U16, 100_000, A::ReadOnly, S::Input);
    put(v, 89, "meter_reserved", C::Grid, T::U16, 1_000_000, A::ReadOnly, S::Input);
}

/// HR 0-40: identity, clock and slots.
#[verifier::opaque]
pub open spec fn native_identity_rows(base: Seq<Definition>) -> Seq<Definition> {
    base
        .push(row(0, "ge_hr_device_type"@, C::Inverter, T::U16, 1_000_000, A::ReadOnly, S::Holding))
        .push(row(1, "ge_hr_module_high"@, C::Inverter, T::U16, 1_000_000, A::ReadOnly, S::Holding))
        .push(row(2, "ge_hr_module_low"@, C::Inverter, T::U16, 1_000_000, A::ReadOnly, S::Holding))
        .push(row(3, "ge_hr_mppt_phase_count"@, C::Inverter, T::U16, 1_000_000, A::ReadOnly, S::Holding))
        .push(row(7, "ge_hr_enable_ammeter"@, C::Configuration, T::U16, 1_000_000, A::ReadOnly, S::Holding))
        .push(row(8, "ge_hr_first_battery_serial_0"@, C::Battery, T::U16, 1_000_000, A::ReadOnly, S::Holding))
        .push(row(9, "ge_hr_first_battery_serial_1"@, C::Battery, T::U16, 1_000_000, A::ReadOnly, S::Holding))
        .push(row(10, "ge_hr_first_battery_serial_2"@, C::Battery, T::U16, 1_000_000, A::ReadOnly, S::Holding))
        .push(row(11, "ge_hr_first_battery_serial_3"@, C::Battery, T::U16, 1_000_000, A::ReadOnly, S::Holding))
        .push(row(12, "ge_hr_first_battery_serial_4"@, C::Battery, T::U16, 1_000_000, A::ReadOnly, S::Holding))
        .push(row(13, "ge_hr_serial_0"@, C::Inverter, T::U16, 1_000_000, A::ReadOnly, S::Holding))
        .push(row(14, "ge_hr_serial_1"@, C::Inverter, T::U16, 1_000_000, A::ReadOnly, S::Holding))
        .push(row(15, "ge_hr_serial_2"@, C::Inverter, T::U16, 1_000_000, A::ReadOnly, S::Holding))
        .push(row(16, "ge_hr_serial_3"@, C::Inverter, T::U16, 1_000_000, A::ReadOnly, S::Holding))
        .push(row(17, "ge_hr_serial_4"@, C::Inverter, T::U16, 1_000_000, A::ReadOnly, S::Holding))
        .push(row(18, "ge_hr_first_battery_bms_firmware"@, C::Battery, T::U16, 1_000_000, A::ReadOnly, S::Holding))
        .push(row(19, "ge_hr_dsp_firmware"@, C::Inverter, T::U16, 1_000_000, A::ReadOnly, S::Holding))
        .push(row(20, "ge_hr_enable_charge_target"@, C::Configuration, T::U16, 1_000_000, A::ReadWrite, S::Holding))
        .push(row(21, "ge_hr_arm_firmware"@, C::Inverter, T::U16, 1_000_000, A::ReadOnly, S::Holding))
        .push(row(22, "ge_hr_usb_device_inserted"@, C::Configuration, T::U16, 1_000_000, A::ReadOnly, S::Holding))
        .push(row(23, "ge_hr_select_arm_chip"@, C::Configuration, T::U16, 1_000_000, A::ReadOnly, S::Holding))
        .push(row(24, "ge_hr_variable_address"@, C::Configuration, T::U16, 1_000_000, A::ReadOnly, S::Holding))
        .push(row(25, "ge_hr_variable_value"@, C::Configuration, T::U16, 1_000_000, A::ReadOnly, S::Holding))
        .push(row(26, "ge_hr_grid_port_max_power_output"@, C::Inverter, T::U16, 1_000_000, A::ReadOnly, S::Holding))
        .push(row(27, "ge_hr_battery_power_mode"@, C::Configuration, T::U16, 1_000_000, A::ReadWrite, S::Holding))
        .push(row(28, "ge_hr_enable_60hz_freq_mode"@, C::Configuration, T::U16, 1_000_000, A::ReadOnly, S::Holding))
        .push(row(29, "ge_hr_battery_calibration_stage"@, C::Configuration, T::U16, 1_000_000, A::ReadWrite, S::Holding))
        .push(row(30, "ge_hr_modbus_address"@, C::Configuration, T::U16, 1_000_000, A::ReadOnly, S::Holding))
        .push(row(31, "ge_hr_charge_slot_2_start"@, C::Schedules, T::U16, 1_000_000, A::ReadWrite, S::Holding))
        .push(row(32, "ge_hr_charge_slot_2_end"@, C::Schedules, T::U16, 1_000_000, A::ReadWrite, S::Holding))
        .push(row(35, "ge_hr_system_time_year"@, C::Configuration, T::U16, 1_000_000, A::ReadWrite, S::Holding))
        .push(row(36, "ge_hr_system_time_month"@, C::Configuration, T::U16, 1_000_000, A::ReadWrite, S::Holding))
        .push(row(37, "ge_hr_system_time_day"@, C::Configuration, T::U16, 1_000_000, A::ReadWrite, S::Holding))
        .push(row(38, "ge_hr_system_time_hour"@, C::Configuration, T::U16, 1_000_000, A::ReadWrite, S::Holding))
        .push(row(39, "ge_hr_system_time_minute"@, C::Configuration, T::U16, 1_000_000, A::ReadWrite, S::Holding))
        .push(row(40, "ge_hr_system_time_second"@, C::Configuration, T::U16, 1_000_000, A::ReadWrite, S::Holding))
        .push(row(33, "ge_hr_user_code"@, C::Configuration, T::U16, 1_000_000, A::ReadOnly, S::Holding))
        .push(row(34, "ge_hr_modbus_version"@, C::Configuration, T::U16, 10_000, A::ReadOnly, S::Holding))
}

/// HR 0-40: identity, clock and slots.
fn put_native_identity(v: &mut Vec<RegisterDef>)
    ensures
        registers::definitions_of(final(v)@) == native_identity_rows(registers::definitions_of(old(v)@)),
{
    reveal(native_identity_rows);
    put(v, 0, "ge_hr_device_type", C::Inverter, T::U16, 1_000_000, A::ReadOnly, S::Holding);
    put(v, 1, "ge_hr_module_high", C::Inverter, T::U16, 1_000_000, A::ReadOnly, S::Holding);
    put(v, 2, "ge_hr_module_low", C::Inverter, T::U16, 1_000_000, A::ReadOnly, S::Holding);
    put(v, 3, "ge_hr_mppt_phase_count", C::Inverter, T::U16, 1_000_000, A::ReadOnly, S::Holding);
    put(v, 7, "ge_hr_enable_ammeter", C::Configuration, T::U16, 1_000_000, A::ReadOnly, S::Holding);
    put(v, 8, "ge_hr_first_battery_serial_0", C::Battery, T::U16, 1_000_000, A::ReadOnly, S::Holding);
    put(v, 9, "ge_hr_first_battery_serial_1", C::Battery, T::U16, 1_000_000, A::ReadOnly, S::Holding);
    put(v, 10, "ge_hr_first_battery_serial_2", C::Battery, T::U16, 1_000_000, A::ReadOnly, S::Holding);
    put(v, 11, "ge_hr_first_battery_serial_3", C::Battery, T::U16, 1_000_000, A::ReadOnly, S::Holding);
    put(v, 12, "ge_hr_first_battery_serial_4", C::Battery, T::U16, 1_000_000, A::ReadOnly, S::Holding);
    put(v, 13, "ge_hr_serial_0", C::Inverter, T::U16, 1_000_000, A::ReadOnly, S::Holding);
    put(v, 14, "ge_hr_serial_1", C::Inverter, T::U16, 1_000_000, A::ReadOnly, S::Holding);
    put(v, 15, "ge_hr_serial_2", C::Inverter, T::U16, 1_000_000, A::ReadOnly, S::Holding);
    put(v, 16, "ge_hr_serial_3", C::Inverter, T::U16, 1_000_000, A::ReadOnly, S::Holding);
    put(v, 17, "ge_hr_serial_4", C::Inverter, T::U16, 1_000_000, A::ReadOnly, S::Holding);
    put(v, 18, "ge_hr_first_battery_bms_firmware", C::Battery, T::U16, 1_000_000, A::ReadOnly, S::Holding);
    put(v, 19, "ge_hr_dsp_firmware", C::Inverter, T::U16, 1_000_000, A::ReadOnly, S::Holding);
    put(v, 20, "ge_hr_enable_charge_target", C::Configuration, T::U16, 1_000_000, A::ReadWrite, S::Holding);
    put(v, 21, "ge_hr_arm_firmware", C::Inverter, T::U16, 1_000_000, A::ReadOnly, S::Holding);
    put(v, 22, "ge_hr_usb_device_inserted", C::Configuration, T::U16, 1_000_000, A::ReadOnly, S::Holding);
    put(v, 23, "ge_hr_select_arm_chip", C::Configuration, T::U16, 1_000_000, A::ReadOnly, S::Holding);
    put(v, 24, "ge_hr_variable_address", C::Configuration, T::U16, 1_000_000, A::ReadOnly, S::Holding);
    put(v, 25, "ge_hr_variable_value", C::Configuration, T::U16, 1_000_000, A::ReadOnly, S::Holding);
    put(v, 26, "ge_hr_grid_port_max_power_output", C::Inverter, T::U16, 1_000_000, A::ReadOnly, S::Holding);
    put(v, 27, "ge_hr_battery_power_mode", C::Configuration, T::U16, 1_000_000, A::ReadWrite, S::Holding);
    put(v, 28, "ge_hr_enable_60hz_freq_mode", C::Configuration, T::U16, 1_000_000, A::ReadOnly, S::Holding);
    put(v, 29, "ge_hr_battery_calibration_stage", C::Configuration, T::U16, 1_000_000, A::ReadWrite, S::Holding);
    put(v, 30, "ge_hr_modbus_address", C::Configuration, T::U16, 1_000_000, A::ReadOnly, S::Holding);
    put(v, 31, "ge_hr_charge_slot_2_start", C::Schedules, T::U16, 1_000_000, A::ReadWrite, S::Holding);
    put(v, 32, "ge_hr_charge_slot_2_end", C::Schedules, T::U16, 1_000_000, A::ReadWrite, S::Holding);
    put(v, 35, "ge_hr_system_time_year", C::Configuration, T::U16, 1_000_000, A::ReadWrite, S::Holding);
    put(v, 36, "ge_hr_system_time_month", C::Configuration, T::U16, 1_000_000, A::ReadWrite, S::Holding);
    put(v, 37, "ge_hr_system_time_day", C::Configuration, T::U16, 1_000_000, A::ReadWrite, S::Holding);
    put(v, 38, "ge_hr_system_time_hour", C::Configuration, T::U16, 1_000_000, A::ReadWrite, S::Holding);
    put(v, 39, "ge_hr_system_time_minute", C::Configuration, T::U16, 1_000_000, A::ReadWrite, S::Holding);
    put(v, 40, "ge_hr_system_time_second", C::Configuration, T::U16, 1_000_000, A::ReadWrite, S::Holding);
    put(v, 33, "ge_hr_user_code", C::Configuration, T::U16, 1_000_000, A::ReadOnly, S::Holding);
    put(v, 34, "ge_hr_modbus_version", C::Configuration, T::U16, 10_000, A::ReadOnly, S::Holding);
}

/// HR 41-116: settings and limits.
#[verifier::opaque]
pub open spec fn native_settings_rows(base: Seq<Definition>) -> Seq<Definition> {
    base
        .push(row(41, "ge_hr_enable_drm_rj45_port"@, C::Configuration, T::U16, 1_000_000, A::ReadOnly, S::Holding))
        .push(row(42, "ge_hr_enable_reversed_ct_clamp"@, C::Configuration, T::U16, 1_000_000, A::ReadOnly, S::Holding))
        .push(row(43, "ge_hr_charge_discharge_soc"@, C::Configuration, T::U16, 1_000_000, A::ReadOnly, S::Holding))
        .push(row(44, "ge_hr_discharge_slot_2_start"@, C::Schedules, T::U16, 1_000_000, A::ReadWrite, S::Holding))
        .push(row(45, "ge_hr_discharge_slot_2_end"@, C::Schedules, T::U16, 1_000_000, A::ReadWrite, S::Holding))
        .push(row(46, "ge_hr_bms_firmware_version"@, C::Battery, T::U16, 1_000_000, A::ReadOnly, S::Holding))
        .push(row(47, "ge_hr_meter_type"@, C::Configuration, T::U16, 1_000_000, A::ReadOnly, S::Holding))
        .push(row(48, "ge_hr_enable_reversed_115_meter"@, C::Configuration, T::U16, 1_000_000, A::ReadOnly, S::Holding))
        .push(row(49, "ge_hr_enable_reversed_418_meter"@, C::Configuration, T::U16, 1_000_000, A::ReadOnly, S::Holding))
        .push(row(50, "ge_hr_active_power_rate"@, C::Configuration, T::U16, 1_000_000, A::ReadWrite, S::Holding))
        .push(row(51, "ge_hr_reactive_power_rate"@, C::Configuration, T::U16, 1_000_000, A::ReadOnly, S::Holding))
        .push(row(52, "ge_hr_power_factor"@, C::Configuration, T::U16, 1_000_000, A::ReadOnly, S::Holding))
        .push(row(53, "ge_hr_enable_inverter_flags"@, C::Configuration, T::U16, 1_000_000, A::ReadOnly, S::Holding))
        .push(row(54, "ge_hr_battery_type"@, C::Battery, T::U16, 1_000_000, A::ReadOnly, S::Holding))
        .push(row(55, "ge_hr_battery_capacity_ah"@, C::Battery, T::U16, 1_000_000, A::ReadOnly, S::Holding))
        .push(row(56, "ge_hr_discharge_slot_1_start"@, C::Schedules, T::U16, 1_000_000, A::ReadWrite, S::Holding))
        .push(row(57, "ge_hr_discharge_slot_1_end"@, C::Schedules, T::U16, 1_000_000, A::ReadWrite, S::Holding))
        .push(row(58, "ge_hr_enable_auto_judge_battery_type"@, C::Configuration, T::U16, 1_000_000, A::ReadOnly, S::Holding))
        .push(row(59, "ge_hr_enable_discharge"@, C::Configuration, T::U16, 1_000_000, A::ReadWrite, S::Holding))
        .push(row(60, "ge_hr_pv_start_voltage"@, C::PV, T::U16, 100_000, A::ReadOnly, S::Holding))
        .push(row(61, "ge_hr_start_countdown_timer"@, C::Configuration, T::U16, 1_000_000, A::ReadOnly, S::Holding))
        .push(row(62, "ge_hr_restart_delay_time"@, C::Configuration, T::U16, 1_000_000, A::ReadOnly, S::Holding))
        .push(row(94, "ge_hr_charge_slot_1_start"@, C::Schedules, T::U16, 1_000_000, A::ReadWrite, S::Holding))
        .push(row(95, "ge_hr_charge_slot_1_end"@, C::Schedules, T::U16, 1_000_000, A::ReadWrite, S::Holding))
        .push(row(96, "ge_hr_enable_charge"@, C::Configuration, T::U16, 1_000_000, A::ReadWrite, S::Holding))
        .push(row(97, "ge_hr_battery_low_voltage_protection_limit"@, C::Battery, T::U16, 10_000, A::ReadOnly, S::Holding))
        .push(row(98, "ge_hr_battery_high_voltage_protection_limit"@, C::Battery, T::U16, 10_000, A::ReadOnly, S::Holding))
        .push(row(105, "ge_hr_battery_voltage_adjust"@, C::Battery, T::U16, 10_000, A::ReadOnly, S::Holding))
        .push(row(108, "ge_hr_battery_low_force_charge_time"@, C::Battery, T::U16, 1_000_000, A::ReadOnly, S::Holding))
        .push(row(109, "ge_hr_enable_bms_read"@, C::Battery, T::U16, 1_000_000, A::ReadOnly, S::Holding))
        .push(row(110, "ge_hr_battery_soc_reserve"@, C::Battery, T::U16, 1_000_000, A::ReadWrite, S::Holding))
        .push(row(111, "ge_hr_battery_charge_limit"@, C::Battery, T::U16, 1_000_000, A::ReadWrite, S::Holding))
        .push(row(112, "ge_hr_battery_discharge_limit"@, C::Battery, T::U16, 1_000_000, A::ReadWrite, S::Holding))
        .push(row(116, "ge_hr_charge_target_soc"@, C::Configuration, T::U16, 1_000_000, A::ReadWrite, S::Holding))
        .push(row(113, "ge_hr_enable_buzzer"@, C::Configuration, T::U16, 1_000_000, A::ReadOnly, S::Holding))
        .push(row(114, "ge_hr_battery_discharge_min_power_reserve"@, C::Battery, T::U16, 1_000_000, A::ReadWrite, S::Holding))
        .push(row(115, "ge_hr_island_check_continue"@, C::Configuration, T::U16, 1_000_000, A::ReadOnly, S::Holding))
}

/// HR 41-116: settings and limits.
fn put_native_settings(v: &mut Vec<RegisterDef>)
    ensures
        registers::definitions_of(final(v)@) == native_settings_rows(registers::definitions_of(old(v)@)),
{
    reveal(native_settings_rows);
    put(v, 41, "ge_hr_enable_drm_rj45_port", C::Configuration, T::U16, 1_000_000, A::ReadOnly, S::Holding);
    put(v, 42, "ge_hr_enable_reversed_ct_clamp", C::Configuration, T::U16, 1_000_000, A::ReadOnly, S::Holding);
    put(v, 43, "ge_hr_charge_discharge_soc", C::Configuration, T::U16, 1_000_000, A::ReadOnly, S::Holding);
    put(v, 44, "ge_hr_discharge_slot_2_start", C::Schedules, T::U16, 1_000_000, A::ReadWrite, S::Holding);
    put(v, 45, "ge_hr_discharge_slot_2_end", C::Schedules, T::U16, 1_000_000, A::ReadWrite, S::Holding);
    put(v, 46, "ge_hr_bms_firmware_version", C::Battery, T::U16, 1_000_000, A::ReadOnly, S::Holding);
    put(v, 47, "ge_hr_meter_type", C::Configuration, T::U16, 1_000_000, A::ReadOnly, S::Holding);
    put(v, 48, "ge_hr_enable_reversed_115_meter", C::Configuration, T::U16, 1_000_000, A::ReadOnly, S::Holding);
    put(v, 49, "ge_hr_enable_reversed_418_meter", C::Configuration, T::U16, 1_000_000, A::ReadOnly, S::Holding);
    put(v, 50, "ge_hr_active_power_rate", C::Configuration, T::U16, 1_000_000, A::ReadWrite, S::Holding);
    put(v, 51, "ge_hr_reactive_power_rate", C::Configuration, T::U16, 1_000_000, A::ReadOnly, S::Holding);
    put(v, 52, "ge_hr_power_factor", C::Configuration, T::U16, 1_000_000, A::ReadOnly, S::Holding);
    put(v, 53, "ge_hr_enable_inverter_flags", C::Configuration, T::U16, 1_000_000, A::ReadOnly, S::Holding);
    put(v, 54, "ge_hr_battery_type", C::Battery, T::U16, 1_000_000, A::ReadOnly, S::Holding);
    put(v, 55, "ge_hr_battery_capacity_ah", C::Battery, T::U16, 1_000_000, A::ReadOnly, S::Holding);
    put(v, 56, "ge_hr_discharge_slot_1_start", C::Schedules, T::U16, 1_000_000, A::ReadWrite, S::Holding);
    put(v, 57, "ge_hr_discharge_slot_1_end", C::Schedules, T::U16, 1_000_000, A::ReadWrite, S::Holding);
    put(v, 58, "ge_hr_enable_auto_judge_battery_type", C::Configuration, T::U16, 1_000_000, A::ReadOnly, S::Holding);
    put(v, 59, "ge_hr_enable_discharge", C::Configuration, T::U16, 1_000_000, A::ReadWrite, S::Holding);
    put(v, 60, "ge_hr_pv_start_voltage", C::PV, T::U16, 100_000, A::ReadOnly, S::Holding);
    put(v, 61, "ge_hr_start_countdown_timer", C::Configuration, T::U16, 1_000_000, A::ReadOnly, S::Holding);
    put(v, 62, "ge_hr_restart_delay_time", C::Configuration, T::U16, 1_000_000, A::ReadOnly, S::Holding);
    put(v, 94, "ge_hr_charge_slot_1_start", C::Schedules, T::U16, 1_000_000, A::ReadWrite, S::Holding);
    put(v, 95, "ge_hr_charge_slot_1_end", C::Schedules, T::U16, 1_000_000, A::ReadWrite, S::Holding);
    put(v, 96, "ge_hr_enable_charge", C::Configuration, T::U16, 1_000_000, A::ReadWrite, S::Holding);
    put(v, 97, "ge_hr_battery_low_voltage_protection_limit", C::Battery, T::U16, 10_000, A::ReadOnly, S::Holding);
    put(v, 98, "ge_hr_battery_high_voltage_protection_limit", C::Battery, T::U16, 10_000, A::ReadOnly, S::Holding);
    put(v, 105, "ge_hr_battery_voltage_adjust", C::Battery, T::U16, 10_000, A::ReadOnly, S::Holding);
    put(v, 108, "ge_hr_battery_low_force_charge_time", C::Battery, T::U16, 1_000_000, A::ReadOnly, S::Holding);
    put(v, 109, "ge_hr_enable_bms_read", C::Battery, T::U16, 1_000_000, A::ReadOnly, S::Holding);
    put(v, 110, "ge_hr_battery_soc_reserve", C::Battery, T::U16, 1_000_000, A::ReadWrite, S::Holding);
    put(v, 111, "ge_hr_battery_charge_limit", C::Battery, T::U16, 1_000_000, A::ReadWrite, S::Holding);
    put(v, 112, "ge_hr_battery_discharge_limit", C::Battery, T::U16, 1_000_000, A::ReadWrite, S::Holding);
    put(v, 116, "ge_hr_charge_target_soc", C::Configuration, T::U16, 1_000_000, A::ReadWrite, S::Holding);
    put(v, 113, "ge_hr_enable_buzzer", C::Configuration, T::U16, 1_000_000, A::ReadOnly, S::Holding);
    put(v, 114, "ge_hr_battery_discharge_min_power_reserve", C::Battery, T::U16, 1_000_000, A::ReadWrite, S::Holding);
    put(v, 115, "ge_hr_island_check_continue", C::Configuration, T::U16, 1_000_000, A::ReadOnly, S::Holding);
}

/// HR 117-320: flags, targets and the pause slot.
#[verifier::opaque]
pub open spec fn native_flags_rows(base: Seq<Definition>) -> Seq<Definition> {
    base
        .push(row(117, "ge_hr_charge_soc_stop_2"@, C::Configuration, T::U16, 1_000_000, A::ReadOnly, S::Holding))
        .push(row(118, "ge_hr_discharge_soc_stop_2"@, C::Configuration, T::U16, 1_000_000, A::ReadOnly, S::Holding))
        .push(row(119, "ge_hr_charge_soc_stop_1"@, C::Configuration, T::U16, 1_000_000, A::ReadOnly, S::Holding))
        .push(row(120, "ge_hr_discharge_soc_stop_1"@, C::Configuration, T::U16, 1_000_000, A::ReadOnly, S::Holding))
        .push(row(121, "ge_hr_enable_local_command_test"@, C::Configuration, T::U16, 1_000_000, A::ReadOnly, S::Holding))
        .push(row(122, "ge_hr_power_factor_function_model"@, C::Configuration, T::U16, 1_000_000, A::ReadOnly, S::Holding))
        .push(row(123, "ge_hr_frequency_load_limit_rate"@, C::Configuration, T::U16, 1_000_000, A::ReadOnly, S::Holding))
        .push(row(124, "ge_hr_enable_low_voltage_fault_ride_through"@, C::Configuration, T::U16, 1_000_000, A::ReadOnly, S::Holding))
        .push(row(125, "ge_hr_enable_frequency_derating"@, C::Configuration, T::U16, 1_000_000, A::ReadOnly, S::Holding))
        .push(row(126, "ge_hr_enable_above_6kw_system"@, C::Configuration, T::U16, 1_000_000, A::ReadOnly, S::Holding))
        .push(row(127, "ge_hr_start_system_auto_test"@, C::Configuration, T::U16, 1_000_000, A::ReadOnly, S::Holding))
        .push(row(128, "ge_hr_enable_spi"@, C::Configuration, T::U16, 1_000_000, A::ReadOnly, S::Holding))
        .push(row(166, "ge_hr_rtc_enable"@, C::Configuration, T::U16, 1_000_000, A::ReadWrite, S::Holding))
        .push(row(167, "ge_hr_threephase_balance_mode"@, C::Configuration, T::U16, 1_000_000, A::ReadOnly, S::Holding))
        .push(row(168, "ge_hr_threephase_abc"@, C::Configuration, T::U16, 1_000_000, A::ReadOnly, S::Holding))
        .push(row(169, "ge_hr_threephase_balance_1"@, C::Configuration, T::U16, 1_000_000, A::ReadOnly, S::Holding))
        .push(row(170, "ge_hr_threephase_balance_2"@, C::Configuration, T::U16, 1_000_000, A::ReadOnly, S::Holding))
        .push(row(171, "ge_hr_threephase_balance_3"@, C::Configuration, T::U16, 1_000_000, A::ReadOnly, S::Holding))
        .push(row(175, "ge_hr_enable_battery_on_pv_or_grid"@, C::Configuration, T::U16, 1_000_000, A::ReadOnly, S::Holding))
        .push(row(176, "ge_hr_debug_inverter"@, C::Configuration, T::U16, 1_000_000, A::ReadOnly, S::Holding))
        .push(row(177, "ge_hr_enable_ups_mode"@, C::Configuration, T::U16, 1_000_000, A::ReadOnly, S::Holding))
        .push(row(178, "ge_hr_enable_g100_limit_switch"@, C::Configuration, T::U16, 1_000_000, A::ReadOnly, S::Holding))
        .push(row(179, "ge_hr_enable_battery_cable_impedance_alarm"@, C::Configuration, T::U16, 1_000_000, A::ReadOnly, S::Holding))
        .push(row(199, "ge_hr_enable_standard_self_consumption_logic"@, C::Configuration, T::U16, 1_000_000, A::ReadWrite, S::Holding))
        .push(row(242, "ge_hr_charge_target_soc_1"@, C::Schedules, T::U16, 1_000_000, A::ReadWrite, S::Holding))
        .push(row(243, "ge_hr_charge_slot_2_start_ext"@, C::Schedules, T::U16, 1_000_000, A::ReadWrite, S::Holding))
        .push(row(244, "ge_hr_charge_slot_2_end_ext"@, C::Schedules, T::U16, 1_000_000, A::ReadWrite, S::Holding))
        .push(row(245, "ge_hr_charge_target_soc_2"@, C::Schedules, T::U16, 1_000_000, A::ReadWrite, S::Holding))
        .push(row(272, "ge_hr_discharge_target_soc_1"@, C::Schedules, T::U16, 1_000_000, A::ReadWrite, S::Holding))
        .push(row(275, "ge_hr_discharge_target_soc_2"@, C::Schedules, T::U16, 1_000_000, A::ReadWrite, S::Holding))
        .push(row(313, "ge_hr_battery_charge_limit_ac"@, C::Battery, T::U16, 1_000_000, A::ReadWrite, S::Holding))
        .push(row(314, "ge_hr_battery_discharge_limit_ac"@, C::Battery, T::U16, 1_000_000, A::ReadWrite, S::Holding))
        .push(row(163, "ge_hr_inverter_reboot"@, C::Configuration, T::U16, 1_000_000, A::ReadWrite, S::Holding))
        .push(row(318, "ge_hr_battery_pause_mode"@, C::Configuration, T::U16, 1_000_000, A::ReadWrite, S::Holding))
        .push(row(319, "ge_hr_battery_pause_slot_1_start"@, C::Schedules, T::U16, 1_000_000, A::ReadWrite, S::Holding))
        .push(row(320, "ge_hr_battery_pause_slot_1_end"@, C::Schedules, T::U16, 1_000_000, A::ReadWrite, S::Holding))
}

/// HR 117-320: flags, targets and the pause slot.
fn put_native_flags(v: &mut Vec<RegisterDef>)
    ensures
        registers::definitions_of(final(v)@) == native_flags_rows(registers::definitions_of(old(v)@)),
{
    reveal(native_flags_rows);
    put(v, 117, "ge_hr_charge_soc_stop_2", C::Configuration, T::U16, 1_000_000, A::ReadOnly, S::Holding);
    put(v, 118, "ge_hr_discharge_soc_stop_2", C::Configuration, T::U16, 1_000_000, A::ReadOnly, S::Holding);
    put(v, 119, "ge_hr_charge_soc_stop_1", C::Configuration, T::U16, 1_000_000, A::ReadOnly, S::Holding);
    put(v, 120, "ge_hr_discharge_soc_stop_1", C::Configuration, T::U16, 1_000_000, A::ReadOnly, S::Holding);
    put(v, 121, "ge_hr_enable_local_command_test", C::Configuration, T::U16, 1_000_000, A::ReadOnly, S::Holding);
    put(v, 122, "ge_hr_power_factor_function_model", C::Configuration, T::U16, 1_000_000, A::ReadOnly, S::Holding);
    put(v, 123, "ge_hr_frequency_load_limit_rate", C::Configuration, T::U16, 1_000_000, A::ReadOnly, S::Holding);
    put(v, 124, "ge_hr_enable_low_voltage_fault_ride_through", C::Configuration, T::U16, 1_000_000, A::ReadOnly, S::Holding);
    put(v, 125, "ge_hr_enable_frequency_derating", C::Configuration, T::U16, 1_000_000, A::ReadOnly, S::Holding);
    put(v, 126, "ge_hr_enable_above_6kw_system", C::Configuration, T::U16, 1_000_000, A::ReadOnly, S::Holding);
    put(v, 127, "ge_hr_start_system_auto_test", C::Configuration, T::U16, 1_000_000, A::ReadOnly, S::Holding);
    put(v, 128, "ge_hr_enable_spi", C::Configuration, T::U16, 1_000_000, A::ReadOnly, S::Holding);
    put(v, 166, "ge_hr_rtc_enable", C::Configuration, T::U16, 1_000_000, A::ReadWrite, S::Holding);
    put(v, 167, "ge_hr_threephase_balance_mode", C::Configuration, T::U16, 1_000_000, A::ReadOnly, S::Holding);
    put(v, 168, "ge_hr_threephase_abc", C::Configuration, T::U16, 1_000_000, A::ReadOnly, S::Holding);
    put(v, 169, "ge_hr_threephase_balance_1", C::Configuration, T::U16, 1_000_000, A::ReadOnly, S::Holding);
    put(v, 170, "ge_hr_threephase_balance_2", C::Configuration, T::U16, 1_000_000, A::ReadOnly, S::Holding);
    put(v, 171, "ge_hr_threephase_balance_3", C::Configuration, T::U16, 1_000_000, A::ReadOnly, S::Holding);
    put(v, 175, "ge_hr_enable_battery_on_pv_or_grid", C::Configuration, T::U16, 1_000_000, A::ReadOnly, S::Holding);
    put(v, 176, "ge_hr_debug_inverter", C::Configuration, T::U16, 1_000_000, A::ReadOnly, S::Holding);
    put(v, 177, "ge_hr_enable_ups_mode", C::Configuration, T::U16, 1_000_000, A::ReadOnly, S::Holding);
    put(v, 178, "ge_hr_enable_g100_limit_switch", C::Configuration, T::U16, 1_000_000, A::ReadOnly, S::Holding);
    put(v, 179, "ge_hr_enable_battery_cable_impedance_alarm", C::Configuration, T::U16, 1_000_000, A::ReadOnly, S::Holding);
    put(v, 199, "ge_hr_enable_standard_self_consumption_logic", C::Configuration, T::U16, 1_000_000, A::ReadWrite, S::Holding);
    put(v, 242, "ge_hr_charge_target_soc_1", C::Schedules, T::U16, 1_000_000, A::ReadWrite, S::Holding);
    put(v, 243, "ge_hr_charge_slot_2_start_ext", C::Schedules, T::U16, 1_000_000, A::ReadWrite, S::Holding);
    put(v, 244, "ge_hr_charge_slot_2_end_ext", C::Schedules, T::U16, 1_000_000, A::ReadWrite, S::Holding);
    put(v, 245, "ge_hr_charge_target_soc_2", C::Schedules, T::U16, 1_000_000, A::ReadWrite, S::Holding);
    put(v, 272, "ge_hr_discharge_target_soc_1", C::Schedules, T::U16, 1_000_000, A::ReadWrite, S::Holding);
    put(v, 275, "ge_hr_discharge_target_soc_2", C::Schedules, T::U16, 1_000_000, A::ReadWrite, S::Holding);
    put(v, 313, "ge_hr_battery_charge_limit_ac", C::Battery, T::U16, 1_000_000, A::ReadWrite, S::Holding);
    put(v, 314, "ge_hr_battery_discharge_limit_ac", C::Battery, T::U16, 1_000_000, A::ReadWrite, S::Holding);
    put(v, 163, "ge_hr_inverter_reboot", C::Configuration, T::U16, 1_000_000, A::ReadWrite, S::Holding);
    put(v, 318, "ge_hr_battery_pause_mode", C::Configuration, T::U16, 1_000_000, A::ReadWrite, S::Holding);
    put(v, 319, "ge_hr_battery_pause_slot_1_start", C::Schedules, T::U16, 1_000_000, A::ReadWrite, S::Holding);
    put(v, 320, "ge_hr_battery_pause_slot_1_end", C::Schedules, T::U16, 1_000_000, A::ReadWrite, S::Holding);
}

/// HR 246-269: charge slots 3-10.
#[verifier::opaque]
pub open spec fn charge_slots_rows(base: Seq<Definition>) -> Seq<Definition> {
    base
        .push(row(246, "ge_hr_charge_slot_3_start"@, C::Schedules, T::U16, 1_000_000, A::ReadWrite, S::Holding))
        .push(row(247, "ge_hr_charge_slot_3_end"@, C::Schedules, T::U16, 1_000_000, A::ReadWrite, S::Holding))
        .push(row(248, "ge_hr_charge_target_soc_3"@, C::Schedules, T::U16, 1_000_000, A::ReadWrite, S::Holding))
        .push(row(249, "ge_hr_charge_slot_4_start"@, C::Schedules, T::U16, 1_000_000, A::ReadWrite, S::Holding))
        .push(row(250, "ge_hr_charge_slot_4_end"@, C::Schedules, T::U16, 1_000_000, A::ReadWrite, S::Holding))
        .push(row(251, "ge_hr_charge_target_soc_4"@, C::Schedules, T::U16, 1_000_000, A::ReadWrite, S::Holding))
        .push(row(252, "ge_hr_charge_slot_5_start"@, C::Schedules, T::U16, 1_000_000, A::ReadWrite, S::Holding))
        .push(row(253, "ge_hr_charge_slot_5_end"@, C::Schedules, T::U16, 1_000_000, A::ReadWrite, S::Holding))
        .push(row(254, "ge_hr_charge_target_soc_5"@, C::Schedules, T::U16, 1_000_000, A::ReadWrite, S::Holding))
        .push(row(255, "ge_hr_charge_slot_6_start"@, C::Schedules, T::U16, 1_000_000, A::ReadWrite, S::Holding))
        .push(row(256, "ge_hr_charge_slot_6_end"@, C::Schedules, T::U16, 1_000_000, A::ReadWrite, S::Holding))
        .push(row(257, "ge_hr_charge_target_soc_6"@, C::Schedules, T::U16, 1_000_000, A::ReadWrite, S::Holding))
        .push(row(258, "ge_hr_charge_slot_7_start"@, C::Schedules, T::U16, 1_000_000, A::ReadWrite, S::Holding))
        .push(row(259, "ge_hr_charge_slot_7_end"@, C::Schedules, T::U16, 1_000_000, A::ReadWrite, S::Holding))
        .push(row(260, "ge_hr_charge_target_soc_7"@, C::Schedules, T::U16, 1_000_000, A::ReadWrite, S::Holding))
        .push(row(261, "ge_hr_charge_slot_8_start"@, C::Schedules, T::U16, 1_000_000, A::ReadWrite, S::Holding))
        .push(row(262, "ge_hr_charge_slot_8_end"@, C::Schedules, T::U16, 1_000_000, A::ReadWrite, S::Holding))
        .push(row(263, "ge_hr_charge_target_soc_8"@, C::Schedules, T::U16, 1_000_000, A::ReadWrite, S::Holding))
        .push(row(264, "ge_hr_charge_slot_9_start"@, C::Schedules, T::U16, 1_000_000, A::ReadWrite, S::Holding))
        .push(row(265, "ge_hr_charge_slot_9_end"@, C::Schedules, T::U16, 1_000_000, A::ReadWrite, S::Holding))
        .push(row(266, "ge_hr_charge_target_soc_9"@, C::Schedules, T::U16, 1_000_000, A::ReadWrite, S::Holding))
        .push(row(267, "ge_hr_charge_slot_10_start"@, C::Schedules, T::U16, 1_000_000, A::ReadWrite, S::Holding))
        .push(row(268, "ge_hr_charge_slot_10_end"@, C::Schedules, T::U16, 1_000_000, A::ReadWrite, S::Holding))
        .push(row(269, "ge_hr_charge_target_soc_10"@, C::Schedules, T::U16, 1_000_000, A::ReadWrite, S::Holding))
}

/// HR 246-269: charge slots 3-10.
fn put_charge_slots(v: &mut Vec<RegisterDef>)
    ensures
        registers::definitions_of(final(v)@) == charge_slots_rows(registers::definitions_of(old(v)@)),
{
    reveal(charge_slots_rows);
    put(v, 246, "ge_hr_charge_slot_3_start", C::Schedules, T::U16, 1_000_000, A::ReadWrite, S::Holding);
    put(v, 247, "ge_hr_charge_slot_3_end", C::Schedules, T::U16, 1_000_000, A::ReadWrite, S::Holding);
    put(v, 248, "ge_hr_charge_target_soc_3", C::Schedules, T::U16, 1_000_000, A::ReadWrite, S::Holding);
    put(v, 249, "ge_hr_charge_slot_4_start", C::Schedules, T::U16, 1_000_000, A::ReadWrite, S::Holding);
    put(v, 250, "ge_hr_charge_slot_4_end", C::Schedules, T::U16, 1_000_000, A::ReadWrite, S::Holding);
    put(v, 251, "ge_hr_charge_target_soc_4", C::Schedules, T::U16, 1_000_000, A::ReadWrite, S::Holding);
    put(v, 252, "ge_hr_charge_slot_5_start", C::Schedules, T::U16, 1_000_000, A::ReadWrite, S::Holding);
    put(v, 253, "ge_hr_charge_slot_5_end", C::Schedules, T::U16, 1_000_000, A::ReadWrite, S::Holding);
    put(v, 254, "ge_hr_charge_target_soc_5", C::Schedules, T::U16, 1_000_000, A::ReadWrite, S::Holding);
    put(v, 255, "ge_hr_charge_slot_6_start", C::Schedules, T::U16, 1_000_000, A::ReadWrite, S::Holding);
    put(v, 256, "ge_hr_charge_slot_6_end", C::Schedules, T::U16, 1_000_000, A::ReadWrite, S::Holding);
    put(v, 257, "ge_hr_charge_target_soc_6", C::Schedules, T::U16, 1_000_000, A::ReadWrite, S::Holding);
    put(v, 258, "ge_hr_charge_slot_7_start", C::Schedules, T::U16, 1_000_000, A::ReadWrite, S::Holding);
    put(v, 259, "ge_hr_charge_slot_7_end", C::Schedules, T::U16, 1_000_000, A::ReadWrite, S::Holding);
    put(v, 260, "ge_hr_charge_target_soc_7", C::Schedules, T::U16, 1_000_000, A::ReadWrite, S::Holding);
    put(v, 261, "ge_hr_charge_slot_8_start", C::Schedules, T::U16, 1_000_000, A::ReadWrite, S::Holding);
    put(v, 262, "ge_hr_charge_slot_8_end", C::Schedules, T::U16, 1_000_000, A::ReadWrite, S::Holding);
    put(v, 263, "ge_hr_charge_target_soc_8", C::Schedules, T::U16, 1_000_000, A::ReadWrite, S::Holding);
    put(v, 264, "ge_hr_charge_slot_9_start", C::Schedules, T::U16, 1_000_000, A::ReadWrite, S::Holding);
    put(v, 265, "ge_hr_charge_slot_9_end", C::Schedules, T::U16, 1_000_000, A::ReadWrite, S::Holding);
    put(v, 266, "ge_hr_charge_target_soc_9", C::Schedules, T::U16, 1_000_000, A::ReadWrite, S::Holding);
    put(v, 267, "ge_hr_charge_slot_10_start", C::Schedules, T::U16, 1_000_000, A::ReadWrite, S::Holding);
    put(v, 268, "ge_hr_charge_slot_10_end", C::Schedules, T::U16, 1_000_000, A::ReadWrite, S::Holding);
    put(v, 269, "ge_hr_charge_target_soc_10", C::Schedules, T::U16, 1_000_000, A::ReadWrite, S::Holding);
}

/// HR 276-299: discharge slots 3-10, export priority and backup.
#[verifier::opaque]
pub open spec fn discharge_slots_rows(base: Seq<Definition>) -> Seq<Definition> {
    base
        .push(row(276, "ge_hr_discharge_slot_3_start"@, C::Schedules, T::U16, 1_000_000, A::ReadWrite, S::Holding))
        .push(row(277, "ge_hr_discharge_slot_3_end"@, C::Schedules, T::U16, 1_000_000, A::ReadWrite, S::Holding))
        .push(row(278, "ge_hr_discharge_target_soc_3"@, C::Schedules, T::U16, 1_000_000, A::ReadWrite, S::Holding))
        .push(row(279, "ge_hr_discharge_slot_4_start"@, C::Schedules, T::U16, 1_000_000, A::ReadWrite, S::Holding))
        .push(row(280, "ge_hr_discharge_slot_4_end"@, C::Schedules, T::U16, 1_000_000, A::ReadWrite, S::Holding))
        .push(row(281, "ge_hr_discharge_target_soc_4"@, C::Schedules, T::U16, 1_000_000, A::ReadWrite, S::Holding))
        .push(row(282, "ge_hr_discharge_slot_5_start"@, C::Schedules, T::U16, 1_000_000, A::ReadWrite, S::Holding))
        .push(row(283, "ge_hr_discharge_slot_5_end"@, C::Schedules, T::U16, 1_000_000, A::ReadWrite, S::Holding))
        .push(row(284, "ge_hr_discharge_target_soc_5"@, C::Schedules, T::U16, 1_000_000, A::ReadWrite, S::Holding))
        .push(row(285, "ge_hr_discharge_slot_6_start"@, C::Schedules, T::U16, 1_000_000, A::ReadWrite, S::Holding))
        .push(row(286, "ge_hr_discharge_slot_6_end"@, C::Schedules, T::U16, 1_000_000, A::ReadWrite, S::Holding))
        .push(row(287, "ge_hr_discharge_target_soc_6"@, C::Schedules, T::U16, 1_000_000, A::ReadWrite, S::Holding))
        .push(row(288, "ge_hr_discharge_slot_7_start"@, C::Schedules, T::U16, 1_000_000, A::ReadWrite, S::Holding))
        .push(row(289, "ge_hr_discharge_slot_7_end"@, C::Schedules, T::U16, 1_000_000, A::ReadWrite, S::Holding))
        .push(row(290, "ge_hr_discharge_target_soc_7"@, C::Schedules, T::U16, 1_000_000, A::ReadWrite, S::Holding))
        .push(row(291, "ge_hr_discharge_slot_8_start"@, C::Schedules, T::U16, 1_000_000, A::ReadWrite, S::Holding))
        .push(row(292, "ge_hr_discharge_slot_8_end"@, C::Schedules, T::U16, 1_000_000, A::ReadWrite, S::Holding))
        .push(row(293, "ge_hr_discharge_target_soc_8"@, C::Schedules, T::U16, 1_000_000, A::ReadWrite, S::Holding))
        .push(row(294, "ge_hr_discharge_slot_9_start"@, C::Schedules, T::U16, 1_000_000, A::ReadWrite, S::Holding))
        .push(row(295, "ge_hr_discharge_slot_9_end"@, C::Schedules, T::U16, 1_000_000, A::ReadWrite, S::Holding))
        .push(row(296, "ge_hr_discharge_target_soc_9"@, C::Schedules, T::U16, 1_000_000, A::ReadWrite, S::Holding))
        .push(row(297, "ge_hr_discharge_slot_10_start"@, C::Schedules, T::U16, 1_000_000, A::ReadWrite, S::Holding))
        .push(row(298, "ge_hr_discharge_slot_10_end"@, C::Schedules, T::U16, 1_000_000, A::ReadWrite, S::Holding))
        .push(row(299, "ge_hr_discharge_target_soc_10"@, C::Schedules, T::U16, 1_000_000, A::ReadWrite, S::Holding))
        .push(row(311, "ge_hr_export_priority"@, C::Configuration, T::U16, 1_000_000, A::ReadWrite, S::Holding))
        .push(row(317, "ge_hr_enable_eps"@, C::Configuration, T::U16, 1_000_000, A::ReadWrite, S::Holding))
}

/// HR 276-299: discharge slots 3-10, export priority and backup.
fn put_discharge_slots(v: &mut Vec<RegisterDef>)
    ensures
        registers::definitions_of(final(v)@) == discharge_slots_rows(registers::definitions_of(old(v)@)),
{
    reveal(discharge_slots_rows);
    put(v, 276, "ge_hr_discharge_slot_3_start", C::Schedules, T::U16, 1_000_000, A::ReadWrite, S::Holding);
    put(v, 277, "ge_hr_discharge_slot_3_end", C::Schedules, T::U16, 1_000_000, A::ReadWrite, S::Holding);
    put(v, 278, "ge_hr_discharge_target_soc_3", C::Schedules, T::U16, 1_000_000, A::ReadWrite, S::Holding);
    put(v, 279, "ge_hr_discharge_slot_4_start", C::Schedules, T::U16, 1_000_000, A::ReadWrite, S::Holding);
    put(v, 280, "ge_hr_discharge_slot_4_end", C::Schedules, T::U16, 1_000_000, A::ReadWrite, S::Holding);
    put(v, 281, "ge_hr_discharge_target_soc_4", C::Schedules, T::U16, 1_000_000, A::ReadWrite, S::Holding);
    put(v, 282, "ge_hr_discharge_slot_5_start", C::Schedules, T::U16, 1_000_000, A::ReadWrite, S::Holding);
    put(v, 283, "ge_hr_discharge_slot_5_end", C::Schedules, T::U16, 1_000_000, A::ReadWrite, S::Holding);
    put(v, 284, "ge_hr_discharge_target_soc_5", C::Schedules, T::U16, 1_000_000, A::ReadWrite, S::Holding);
    put(v, 285, "ge_hr_discharge_slot_6_start", C::Schedules, T::U16, 1_000_000, A::ReadWrite, S::Holding);
    put(v, 286, "ge_hr_discharge_slot_6_end", C::Schedules, T::U16, 1_000_000, A::ReadWrite, S::Holding);
    put(v, 287, "ge_hr_discharge_target_soc_6", C::Schedules, T::U16, 1_000_000, A::ReadWrite, S::Holding);
    put(v, 288, "ge_hr_discharge_slot_7_start", C::Schedules, T::U16, 1_000_000, A::ReadWrite, S::Holding);
    put(v, 289, "ge_hr_discharge_slot_7_end", C::Schedules, T::U16, 1_000_000, A::ReadWrite, S::Holding);
    put(v, 290, "ge_hr_discharge_target_soc_7", C::Schedules, T::U16, 1_000_000, A::ReadWrite, S::Holding);
    put(v, 291, "ge_hr_discharge_slot_8_start", C::Schedules, T::U16, 1_000_000, A::ReadWrite, S::Holding);
    put(v, 292, "ge_hr_discharge_slot_8_end", C::Schedules, T::U16, 1_000_000, A::ReadWrite, S::Holding);
    put(v, 293, "ge_hr_discharge_target_soc_8", C::Schedules, T::U16, 1_000_000, A::ReadWrite, S::Holding);
    put(v, 294, "ge_hr_discharge_slot_9_start", C::Schedules, T::U16, 1_000_000, A::ReadWrite, S::Holding);
    put(v, 295, "ge_hr_discharge_slot_9_end", C::Schedules, T::U16, 1_000_000, A::ReadWrite, S::Holding);
    put(v, 296, "ge_hr_discharge_target_soc_9", C::Schedules, T::U16, 1_000_000, A::ReadWrite, S::Holding);
    put(v, 297, "ge_hr_discharge_slot_10_start", C::Schedules, T::U16, 1_000_000, A::ReadWrite, S::Holding);
    put(v, 298, "ge_hr_discharge_slot_10_end", C::Schedules, T::U16, 1_000_000, A::ReadWrite, S::Holding);
    put(v, 299, "ge_hr_discharge_target_soc_10", C::Schedules, T::U16, 1_000_000, A::ReadWrite, S::Holding);
    put(v, 311, "ge_hr_export_priority", C::Configuration, T::U16, 1_000_000, A::ReadWrite, S::Holding);
    put(v, 317, "ge_hr_enable_eps", C::Configuration, T::U16, 1_000_000, A::ReadWrite, S::Holding);
}

/// HR 1063-1123: three-phase settings.
#[verifier::opaque]
pub open spec fn three_phase_holding_rows(base: Seq<Definition>) -> Seq<Definition> {
    base
        .push(row(1063, "tph_p_export_limit"@, C::Configuration, T::U16, 100_000, A::ReadWrite, S::Holding))
        .push(row(1078, "tph_battery_discharge_min_power_reserve"@, C::Battery, T::U16, 1_000_000, A::ReadWrite, S::Holding))
        .push(row(1108, "tph_battery_discharge_limit_ac"@, C::Battery, T::U16, 1_000_000, A::ReadWrite, S::Holding))
        .push(row(1109, "tph_battery_soc_reserve"@, C::Battery, T::U16, 1_000_000, A::ReadWrite, S::Holding))
        .push(row(1110, "tph_battery_charge_limit_ac"@, C::Battery, T::U16, 1_000_000, A::ReadWrite, S::Holding))
        .push(row(1111, "tph_charge_target_soc"@, C::Schedules, T::U16, 1_000_000, A::ReadWrite, S::Holding))
        .push(row(1112, "tph_ac_charge_enable"@, C::Schedules, T::U16, 1_000_000, A::ReadWrite, S::Holding))
        .push(row(1113, "tph_charge_slot_1_start"@, C::Schedules, T::U16, 1_000_000, A::ReadWrite, S::Holding))
        .push(row(1114, "tph_charge_slot_1_end"@, C::Schedules, T::U16, 1_000_000, A::ReadWrite, S::Holding))
        .push(row(1115, "tph_charge_slot_2_start"@, C::Schedules, T::U16, 1_000_000, A::ReadWrite, S::Holding))
        .push(row(1116, "tph_charge_slot_2_end"@, C::Schedules, T::U16, 1_000_000, A::ReadWrite, S::Holding))
        .push(row(1118, "tph_discharge_slot_1_start"@, C::Schedules, T::U16, 1_000_000, A::ReadWrite, S::Holding))
        .push(row(1119, "tph_discharge_slot_1_end"@, C::Schedules, T::U16, 1_000_000, A::ReadWrite, S::Holding))
        .push(row(1120, "tph_discharge_slot_2_start"@, C::Schedules, T::U16, 1_000_000, A::ReadWrite, S::Holding))
        .push(row(1121, "tph_discharge_slot_2_end"@, C::Schedules, T::U16, 1_000_000, A::ReadWrite, S::Holding))
        .push(row(1122, "tph_force_discharge_enable"@, C::Schedules, T::U16, 1_000_000, A::ReadWrite, S::Holding))
        .push(row(1123, "tph_force_charge_enable"@, C::Schedules, T::U16, 1_000_000, A::ReadWrite, S::Holding))
}

/// HR 1063-1123: three-phase settings.
fn put_three_phase_holding(v: &mut Vec<RegisterDef>)
    ensures
        registers::definitions_of(final(v)@) == three_phase_holding_rows(registers::definitions_of(old(v)@)),
{
    reveal(three_phase_holding_rows);
    put(v, 1063, "tph_p_export_limit", C::Configuration, T::U16, 100_000, A::ReadWrite, S::Holding);
    put(v, 1078, "tph_battery_discharge_min_power_reserve", C::Battery, T::U16, 1_000_000, A::ReadWrite, S::Holding);
    put(v, 1108, "tph_battery_discharge_limit_ac", C::Battery, T::U16, 1_000_000, A::ReadWrite, S::Holding);
    put(v, 1109, "tph_battery_soc_reserve", C::Battery, T::U16, 1_000_000, A::ReadWrite, S::Holding);
    put(v, 1110, "tph_battery_charge_limit_ac", C::Battery, T::U16, 1_000_000, A::ReadWrite, S::Holding);
    put(v, 1111, "tph_charge_target_soc", C::Schedules, T::U16, 1_000_000, A::ReadWrite, S::Holding);
    put(v, 1112, "tph_ac_charge_enable", C::Schedules, T::U16, 1_000_000, A::ReadWrite, S::Holding);
    put(v, 1113, "tph_charge_slot_1_start", C::Schedules, T::U16, 1_000_000, A::ReadWrite, S::Holding);
    put(v, 1114, "tph_charge_slot_1_end", C::Schedules, T::U16, 1_000_000, A::ReadWrite, S::Holding);
    put(v, 1115, "tph_charge_slot_2_start", C::Schedules, T::U16, 1_000_000, A::ReadWrite, S::Holding);
    put(v, 1116, "tph_charge_slot_2_end", C::Schedules, T::U16, 1_000_000, A::ReadWrite, S::Holding);
    put(v, 1118, "tph_discharge_slot_1_start", C::Schedules, T::U16, 1_000_000, A::ReadWrite, S::Holding);
    put(v, 1119, "tph_discharge_slot_1_end", C::Schedules, T::U16, 1_000_000, A::ReadWrite, S::Holding);
    put(v, 1120, "tph_discharge_slot_2_start", C::Schedules, T::U16, 1_000_000, A::ReadWrite, S::Holding);
    put(v, 1121, "tph_discharge_slot_2_end", C::Schedules, T::U16, 1_000_000, A::ReadWrite, S::Holding);
    put(v, 1122, "tph_force_discharge_enable", C::Schedules, T::U16, 1_000_000, A::ReadWrite, S::Holding);
    put(v, 1123, "tph_force_charge_enable", C::Schedules, T::U16, 1_000_000, A::ReadWrite, S::Holding);
}

/// IR 1001-1245: three-phase power.
#[verifier::opaque]
pub open spec fn three_phase_power_rows(base: Seq<Definition>) -> Seq<Definition> {
    base
        .push(row(1001, "tph_ir_pv1_voltage"@, C::PV, T::U16, 100_000, A::ReadOnly, S::Input))
        .push(row(1002, "tph_ir_pv2_voltage"@, C::PV, T::U16, 100_000, A::ReadOnly, S::Input))
        .push(row(1009, "tph_ir_pv1_current"@, C::PV, T::U16, 100_000, A::ReadOnly, S::Input))
        .push(row(1010, "tph_ir_pv2_current"@, C::PV, T::U16, 100_000, A::ReadOnly, S::Input))
        .push(row(1017, "tph_ir_pv1_power_high"@, C::PV, T::U16, 100_000, A::ReadOnly, S::Input))
        .push(row(1018, "tph_ir_pv1_power_low"@, C::PV, T::U16, 100_000, A::ReadOnly, S::Input))
        .push(row(1019, "tph_ir_pv2_power_high"@, C::PV, T::U16, 100_000, A::ReadOnly, S::Input))
        .push(row(1020, "tph_ir_pv2_power_low"@, C::PV, T::U16, 100_000, A::ReadOnly, S::Input))
        .push(row(1061, "tph_ir_v_ac1"@, C::Grid, T::U16, 100_000, A::ReadOnly, S::Input))
        .push(row(1062, "tph_ir_v_ac2"@, C::Grid, T::U16, 100_000, A::ReadOnly, S::Input))
        .push(row(1063, "tph_ir_v_ac3"@, C::Grid, T::U16, 100_000, A::ReadOnly, S::Input))
        .push(row(1064, "tph_ir_i_ac1"@, C::Grid, T::U16, 100_000, A::ReadOnly, S::Input))
        .push(row(1065, "tph_ir_i_ac2"@, C::Grid, T::U16, 100_000, A::ReadOnly, S::Input))
        .push(row(1066, "tph_ir_i_ac3"@, C::Grid, T::U16, 100_000, A::ReadOnly, S::Input))
        .push(row(1067, "tph_ir_f_ac1"@, C::Grid, T::U16, 10_000, A::ReadOnly, S::Input))
        .push(row(1068, "tph_ir_power_factor"@, C::Grid, T::S16, 1_000_000, A::ReadOnly, S::Input))
        .push(row(1069, "tph_ir_p_inverter_out_high"@, C::Grid, T::S16, 100_000, A::ReadOnly, S::Input))
        .push(row(1070, "tph_ir_p_inverter_out_low"@, C::Grid, T::U16, 100_000, A::ReadOnly, S::Input))
        .push(row(1073, "tph_ir_p_grid_apparent_high"@, C::Grid, T::U16, 100_000, A::ReadOnly, S::Input))
        .push(row(1074, "tph_ir_p_grid_apparent_low"@, C::Grid, T::U16, 100_000, A::ReadOnly, S::Input))
        .push(row(1075, "tph_ir_system_mode"@, C::Inverter, T::U16, 1_000_000, A::ReadOnly, S::Input))
        .push(row(1076, "tph_ir_status"@, C::Inverter, T::U16, 1_000_000, A::ReadOnly, S::Input))
        .push(row(1079, "tph_ir_p_meter_import_high"@, C::Grid, T::U16, 100_000, A::ReadOnly, S::Input))
        .push(row(1080, "tph_ir_p_meter_import_low"@, C::Grid, T::U16, 100_000, A::ReadOnly, S::Input))
        .push(row(1081, "tph_ir_p_meter_export_high"@, C::Grid, T::U16, 100_000, A::ReadOnly, S::Input))
        .push(row(1082, "tph_ir_p_meter_export_low"@, C::Grid, T::U16, 100_000, A::ReadOnly, S::Input))
        .push(row(1083, "tph_ir_p_load_ac1"@, C::Inverter, T::U16, 100_000, A::ReadOnly, S::Input))
        .push(row(1084, "tph_ir_p_load_ac2"@, C::Inverter, T::U16, 100_000, A::ReadOnly, S::Input))
        .push(row(1085, "tph_ir_p_load_ac3"@, C::Inverter, T::U16, 100_000, A::ReadOnly, S::Input))
        .push(row(1089, "tph_ir_p_load_all_high"@, C::Inverter, T::U16, 100_000, A::ReadOnly, S::Input))
        .push(row(1090, "tph_ir_p_load_all_low"@, C::Inverter, T::U16, 100_000, A::ReadOnly, S::Input))
        .push(row(1124, "tph_ir_dc_status"@, C::Battery, T::U16, 1_000_000, A::ReadOnly, S::Input))
        .push(row(1128, "tph_ir_t_inverter"@, C::Inverter, T::U16, 100_000, A::ReadOnly, S::Input))
        .push(row(1129, "tph_ir_t_boost"@, C::Inverter, T::U16, 100_000, A::ReadOnly, S::Input))
        .push(row(1130, "tph_ir_t_buck_boost"@, C::Inverter, T::U16, 100_000, A::ReadOnly, S::Input))
        .push(row(1131, "tph_ir_v_battery_bms"@, C::Battery, T::U16, 100_000, A::ReadOnly, S::Input))
        .push(row(1133, "tph_ir_v_battery_pcs"@, C::Battery, T::U16, 100_000, A::ReadOnly, S::Input))
        .push(row(1134, "tph_ir_v_dc_bus"@, C::Battery, T::U16, 100_000, A::ReadOnly, S::Input))
        .push(row(1135, "tph_ir_v_inv_bus"@, C::Battery, T::U16, 100_000, A::ReadOnly, S::Input))
        .push(row(1132, "tph_ir_battery_soc"@, C::Battery, T::U16, 1_000_000, A::ReadOnly, S::Input))
        .push(row(1136, "tph_ir_p_battery_discharge_high"@, C::Battery, T::U16, 100_000, A::ReadOnly, S::Input))
        .push(row(1137, "tph_ir_p_battery_discharge_low"@, C::Battery, T::U16, 100_000, A::ReadOnly, S::Input))
        .push(row(1138, "tph_ir_p_battery_charge_high"@, C::Battery, T::U16, 100_000, A::ReadOnly, S::Input))
        .push(row(1139, "tph_ir_p_battery_charge_low"@, C::Battery, T::U16, 100_000, A::ReadOnly, S::Input))
        .push(row(1140, "tph_ir_i_battery"@, C::Battery, T::S16, 100_000, A::ReadOnly, S::Input))
        .push(row(1180, "tph_ir_f_nominal_eps"@, C::Grid, T::U16, 10_000, A::ReadOnly, S::Input))
        .push(row(1181, "tph_ir_v_eps_ac1"@, C::Grid, T::U16, 100_000, A::ReadOnly, S::Input))
        .push(row(1182, "tph_ir_v_eps_ac2"@, C::Grid, T::U16, 100_000, A::ReadOnly, S::Input))
        .push(row(1183, "tph_ir_v_eps_ac3"@, C::Grid, T::U16, 100_000, A::ReadOnly, S::Input))
        .push(row(1240, "tph_ir_p_export_high"@, C::Grid, T::U16, 100_000, A::ReadOnly, S::Input))
        .push(row(1241, "tph_ir_p_export_low"@, C::Grid, T::U16, 100_000, A::ReadOnly, S::Input))
        .push(row(1244, "tph_ir_p_meter2_high"@, C::Grid, T::U16, 100_000, A::ReadOnly, S::Input))
        .push(row(1245, "tph_ir_p_meter2_low"@, C::Grid, T::U16, 100_000, A::ReadOnly, S::Input))
}

/// IR 1001-1245: three-phase power.
fn put_three_phase_power(v: &mut Vec<RegisterDef>)
    ensures
        registers::definitions_of(final(v)@) == three_phase_power_rows(registers::definitions_of(old(v)@)),
{
    reveal(three_phase_power_rows);
    put(v, 1001, "tph_ir_pv1_voltage", C::PV, T::U16, 100_000, A::ReadOnly, S::Input);
    put(v, 1002, "tph_ir_pv2_voltage", C::PV, T::U16, 100_000, A::ReadOnly, S::Input);
    put(v, 1009, "tph_ir_pv1_current", C::PV, T::U16, 100_000, A::ReadOnly, S::Input);
    put(v, 1010, "tph_ir_pv2_current", C::PV, T::U16, 100_000, A::ReadOnly, S::Input);
    put(v, 1017, "tph_ir_pv1_power_high", C::PV, T::U16, 100_000, A::ReadOnly, S::Input);
    put(v, 1018, "tph_ir_pv1_power_low", C::PV, T::U16, 100_000, A::ReadOnly, S::Input);
    put(v, 1019, "tph_ir_pv2_power_high", C::PV, T::U16, 100_000, A::ReadOnly, S::Input);
    put(v, 1020, "tph_ir_pv2_power_low", C::PV, T::U16, 100_000, A::ReadOnly, S::Input);
    put(v, 1061, "tph_ir_v_ac1", C::Grid, T::U16, 100_000, A::ReadOnly, S::Input);
    put(v, 1062, "tph_ir_v_ac2", C::Grid, T::U16, 100_000, A::ReadOnly, S::Input);
    put(v, 1063, "tph_ir_v_ac3", C::Grid, T::U16, 100_000, A::ReadOnly, S::Input);
    put(v, 1064, "tph_ir_i_ac1", C::Grid, T::U16, 100_000, A::ReadOnly, S::Input);
    put(v, 1065, "tph_ir_i_ac2", C::Grid, T::U16, 100_000, A::ReadOnly, S::Input);
    put(v, 1066, "tph_ir_i_ac3", C::Grid, T::U16, 100_000, A::ReadOnly, S::Input);
    put(v, 1067, "tph_ir_f_ac1", C::Grid, T::U16, 10_000, A::ReadOnly, S::Input);
    put(v, 1068, "tph_ir_power_factor", C::Grid, T::S16, 1_000_000, A::ReadOnly, S::Input);
    put(v, 1069, "tph_ir_p_inverter_out_high", C::Grid, T::S16, 100_000, A::ReadOnly, S::Input);
    put(v, 1070, "tph_ir_p_inverter_out_low", C::Grid, T::U16, 100_000, A::ReadOnly, S::Input);
    put(v, 1073, "tph_ir_p_grid_apparent_high", C::Grid, T::U16, 100_000, A::ReadOnly, S::Input);
    put(v, 1074, "tph_ir_p_grid_apparent_low", C::Grid, T::U16, 100_000, A::ReadOnly, S::Input);
    put(v, 1075, "tph_ir_system_mode", C::Inverter, T::U16, 1_000_000, A::ReadOnly, S::Input);
    put(v, 1076, "tph_ir_status", C::Inverter, T::U16, 1_000_000, A::ReadOnly, S::Input);
    put(v, 1079, "tph_ir_p_meter_import_high", C::Grid, T::U16, 100_000, A::ReadOnly, S::Input);
    put(v, 1080, "tph_ir_p_meter_import_low", C::Grid, T::U16, 100_000, A::ReadOnly, S::Input);
    put(v, 1081, "tph_ir_p_meter_export_high", C::Grid, T::U16, 100_000, A::ReadOnly, S::Input);
    put(v, 1082, "tph_ir_p_meter_export_low", C::Grid, T::U16, 100_000, A::ReadOnly, S::Input);
    put(v, 1083, "tph_ir_p_load_ac1", C::Inverter, T::U16, 100_000, A::ReadOnly, S::Input);
    put(v, 1084, "tph_ir_p_load_ac2", C::Inverter, T::U16, 100_000, A::ReadOnly, S::Input);
    put(v, 1085, "tph_ir_p_load_ac3", C::Inverter, T::U16, 100_000, A::ReadOnly, S::Input);
    put(v, 1089, "tph_ir_p_load_all_high", C::Inverter, T::U16, 100_000, A::ReadOnly, S::Input);
    put(v, 1090, "tph_ir_p_load_all_low", C::Inverter, T::U16, 100_000, A::ReadOnly, S::Input);
    put(v, 1124, "tph_ir_dc_status", C::Battery, T::U16, 1_000_000, A::ReadOnly, S::Input);
    put(v, 1128, "tph_ir_t_inverter", C::Inverter, T::U16, 100_000, A::ReadOnly, S::Input);
    put(v, 1129, "tph_ir_t_boost", C::Inverter, T::U16, 100_000, A::ReadOnly, S::Input);
    put(v, 1130, "tph_ir_t_buck_boost", C::Inverter, T::U16, 100_000, A::ReadOnly, S::Input);
    put(v, 1131, "tph_ir_v_battery_bms", C::Battery, T::U16, 100_000, A::ReadOnly, S::Input);
    put(v, 1133, "tph_ir_v_battery_pcs", C::Battery, T::U16, 100_000, A::ReadOnly, S::Input);
    put(v, 1134, "tph_ir_v_dc_bus", C::Battery, T::U16, 100_000, A::ReadOnly, S::Input);
    put(v, 1135, "tph_ir_v_inv_bus", C::Battery, T::U16, 100_000, A::ReadOnly, S::Input);
    put(v, 1132, "tph_ir_battery_soc", C::Battery, T::U16, 1_000_000, A::ReadOnly, S::Input);
    put(v, 1136, "tph_ir_p_battery_discharge_high", C::Battery, T::U16, 100_000, A::ReadOnly, S::Input);
    put(v, 1137, "tph_ir_p_battery_discharge_low", C::Battery, T::U16, 100_000, A::ReadOnly, S::Input);
    put(v, 1138, "tph_ir_p_battery_charge_high", C::Battery, T::U16, 100_000, A::ReadOnly, S::Input);
    put(v, 1139, "tph_ir_p_battery_charge_low", C::Battery, T::U16, 100_000, A::ReadOnly, S::Input);
    put(v, 1140, "tph_ir_i_battery", C::Battery, T::S16, 100_000, A::ReadOnly, S::Input);
    put(v, 1180, "tph_ir_f_nominal_eps", C::Grid, T::U16, 10_000, A::ReadOnly, S::Input);
    put(v, 1181, "tph_ir_v_eps_ac1", C::Grid, T::U16, 100_000, A::ReadOnly, S::Input);
    put(v, 1182, "tph_ir_v_eps_ac2", C::Grid, T::U16, 100_000, A::ReadOnly, S::Input);
    put(v, 1183, "tph_ir_v_eps_ac3", C::Grid, T::U16, 100_000, A::ReadOnly, S::Input);
    put(v, 1240, "tph_ir_p_export_high", C::Grid, T::U16, 100_000, A::ReadOnly, S::Input);
    put(v, 1241, "tph_ir_p_export_low", C::Grid, T::U16, 100_000, A::ReadOnly, S::Input);
    put(v, 1244, "tph_ir_p_meter2_high", C::Grid, T::U16, 100_000, A::ReadOnly, S::Input);
    put(v, 1245, "tph_ir_p_meter2_low", C::Grid, T::U16, 100_000, A::ReadOnly, S::Input);
}

/// IR 1325-1413: three-phase firmware and energy.
#[verifier::opaque]
pub open spec fn three_phase_energy_rows(base: Seq<Definition>) -> Seq<Definition> {
    base
        .push(row(1325, "tph_ir_ac_dsp_firmware_version"@, C::Inverter, T::U16, 1_000_000, A::ReadOnly, S::Input))
        .push(row(1326, "tph_ir_dc_dsp_firmware_version"@, C::Inverter, T::U16, 1_000_000, A::ReadOnly, S::Input))
        .push(row(1327, "tph_ir_arm_firmware_version"@, C::Inverter, T::U16, 1_000_000, A::ReadOnly, S::Input))
        .push(row(1366, "tph_ir_e_pv1_today_high"@, C::Grid, T::U16, 100_000, A::ReadOnly, S::Input))
        .push(row(1367, "tph_ir_e_pv1_today_low"@, C::Grid, T::U16, 100_000, A::ReadOnly, S::Input))
        .push(row(1370, "tph_ir_e_pv2_today_high"@, C::Grid, T::U16, 100_000, A::ReadOnly, S::Input))
        .push(row(1371, "tph_ir_e_pv2_today_low"@, C::Grid, T::U16, 100_000, A::ReadOnly, S::Input))
        .push(row(1380, "tph_ir_e_import_today_high"@, C::Grid, T::U16, 100_000, A::ReadOnly, S::Input))
        .push(row(1381, "tph_ir_e_import_today_low"@, C::Grid, T::U16, 100_000, A::ReadOnly, S::Input))
        .push(row(1384, "tph_ir_e_export_today_high"@, C::Grid, T::U16, 100_000, A::ReadOnly, S::Input))
        .push(row(1385, "tph_ir_e_export_today_low"@, C::Grid, T::U16, 100_000, A::ReadOnly, S::Input))
        .push(row(1388, "tph_ir_e_battery_discharge_today_high"@, C::Grid, T::U16, 100_000, A::ReadOnly, S::Input))
        .push(row(1389, "tph_ir_e_battery_discharge_today_low"@, C::Grid, T::U16, 100_000, A::ReadOnly, S::Input))
        .push(row(1392, "tph_ir_e_battery_charge_today_high"@, C::Grid, T::U16, 100_000, A::ReadOnly, S::Input))
        .push(row(1393, "tph_ir_e_battery_charge_today_low"@, C::Grid, T::U16, 100_000, A::ReadOnly, S::Input))
        .push(row(1396, "tph_ir_e_load_today_high"@, C::Grid, T::U16, 100_000, A::ReadOnly, S::Input))
        .push(row(1397, "tph_ir_e_load_today_low"@, C::Grid, T::U16, 100_000, A::ReadOnly, S::Input))
        .push(row(1360, "tph_ir_e_inverter_out_today_high"@, C::Inverter, T::U16, 100_000, A::ReadOnly, S::Input))
        .push(row(1361, "tph_ir_e_inverter_out_today_low"@, C::Inverter, T::U16, 100_000, A::ReadOnly, S::Input))
        .push(row(1362, "tph_ir_e_inverter_out_total_high"@, C::Inverter, T::U16, 100_000, A::ReadOnly, S::Input))
        .push(row(1363, "tph_ir_e_inverter_out_total_low"@, C::Inverter, T::U16, 100_000, A::ReadOnly, S::Input))
        .push(row(1368, "tph_ir_e_pv1_total_high"@, C::PV, T::U16, 100_000, A::ReadOnly, S::Input))
        .push(row(1369, "tph_ir_e_pv1_total_low"@, C::PV, T::U16, 100_000, A::ReadOnly, S::Input))
        .push(row(1372, "tph_ir_e_pv2_total_high"@, C::PV, T::U16, 100_000, A::ReadOnly, S::Input))
        .push(row(1373, "tph_ir_e_pv2_total_low"@, C::PV, T::U16, 100_000, A::ReadOnly, S::Input))
        .push(row(1374, "tph_ir_e_pv_total_high"@, C::PV, T::U16, 100_000, A::ReadOnly, S::Input))
        .push(row(1375, "tph_ir_e_pv_total_low"@, C::PV, T::U16, 100_000, A::ReadOnly, S::Input))
        .push(row(1376, "tph_ir_e_ac_charge_today_high"@, C::Grid, T::U16, 100_000, A::ReadOnly, S::Input))
        .push(row(1377, "tph_ir_e_ac_charge_today_low"@, C::Grid, T::U16, 100_000, A::ReadOnly, S::Input))
        .push(row(1378, "tph_ir_e_ac_charge_total_high"@, C::Grid, T::U16, 100_000, A::ReadOnly, S::Input))
        .push(row(1379, "tph_ir_e_ac_charge_total_low"@, C::Grid, T::U16, 100_000, A::ReadOnly, S::Input))
        .push(row(1382, "tph_ir_e_import_total_high"@, C::Grid, T::U16, 100_000, A::ReadOnly, S::Input))
        .push(row(1383, "tph_ir_e_import_total_low"@, C::Grid, T::U16, 100_000, A::ReadOnly, S::Input))
        .push(row(1386, "tph_ir_e_export_total_high"@, C::Grid, T::U16, 100_000, A::ReadOnly, S::Input))
        .push(row(1387, "tph_ir_e_export_total_low"@, C::Grid, T::U16, 100_000, A::ReadOnly, S::Input))
        .push(row(1390, "tph_ir_e_battery_discharge_total_high"@, C::Battery, T::U16, 100_000, A::ReadOnly, S::Input))
        .push(row(1391, "tph_ir_e_battery_discharge_total_low"@, C::Battery, T::U16, 100_000, A::ReadOnly, S::Input))
        .push(row(1394, "tph_ir_e_battery_charge_total_high"@, C::Battery, T::U16, 100_000, A::ReadOnly, S::Input))
        .push(row(1395, "tph_ir_e_battery_charge_total_low"@, C::Battery, T::U16, 100_000, A::ReadOnly, S::Input))
        .push(row(1398, "tph_ir_e_load_total_high"@, C::Grid, T::U16, 100_000, A::ReadOnly, S::Input))
        .push(row(1399, "tph_ir_e_load_total_low"@, C::Grid, T::U16, 100_000, A::ReadOnly, S::Input))
        .push(row(1400, "tph_ir_e_export2_today_high"@, C::Grid, T::U16, 100_000, A::ReadOnly, S::Input))
        .push(row(1401, "tph_ir_e_export2_today_low"@, C::Grid, T::U16, 100_000, A::ReadOnly, S::Input))
        .push(row(1402, "tph_ir_e_export2_total_high"@, C::Grid, T::U16, 100_000, A::ReadOnly, S::Input))
        .push(row(1403, "tph_ir_e_export2_total_low"@, C::Grid, T::U16, 100_000, A::ReadOnly, S::Input))
        .push(row(1412, "tph_ir_e_pv_today_high"@, C::PV, T::U16, 100_000, A::ReadOnly, S::Input))
        .push(row(1413, "tph_ir_e_pv_today_low"@, C::PV, T::U16, 100_000, A::ReadOnly, S::Input))
}

/// IR 1325-1413: three-phase firmware and energy.
fn put_three_phase_energy(v: &mut Vec<RegisterDef>)
    ensures
        registers::definitions_of(final(v)@) == three_phase_energy_rows(registers::definitions_of(old(v)@)),
{
    reveal(three_phase_energy_rows);
    put(v, 1325, "tph_ir_ac_dsp_firmware_version", C::Inverter, T::U16, 1_000_000, A::ReadOnly, S::Input);
    put(v, 1326, "tph_ir_dc_dsp_firmware_version", C::Inverter, T::U16, 1_000_000, A::ReadOnly, S::Input);
    put(v, 1327, "tph_ir_arm_firmware_version", C::Inverter, T::U16, 1_000_000, A::ReadOnly, S::Input);
    put(v, 1366, "tph_ir_e_pv1_today_high", C::Grid, T::U16, 100_000, A::ReadOnly, S::Input);
    put(v, 1367, "tph_ir_e_pv1_today_low", C::Grid, T::U16, 100_000, A::ReadOnly, S::Input);
    put(v, 1370, "tph_ir_e_pv2_today_high", C::Grid, T::U16, 100_000, A::ReadOnly, S::Input);
    put(v, 1371, "tph_ir_e_pv2_today_low", C::Grid, T::U16, 100_000, A::ReadOnly, S::Input);
    put(v, 1380, "tph_ir_e_import_today_high", C::Grid, T::U16, 100_000, A::ReadOnly, S::Input);
    put(v, 1381, "tph_ir_e_import_today_low", C::Grid, T::U16, 100_000, A::ReadOnly, S::Input);
    put(v, 1384, "tph_ir_e_export_today_high", C::Grid, T::U16, 100_000, A::ReadOnly, S::Input);
    put(v, 1385, "tph_ir_e_export_today_low", C::Grid, T::U16, 100_000, A::ReadOnly, S::Input);
    put(v, 1388, "tph_ir_e_battery_discharge_today_high", C::Grid, T::U16, 100_000, A::ReadOnly, S::Input);
    put(v, 1389, "tph_ir_e_battery_discharge_today_low", C::Grid, T::U16, 100_000, A::ReadOnly, S::Input);
    put(v, 1392, "tph_ir_e_battery_charge_today_high", C::Grid, T::U16, 100_000, A::ReadOnly, S::Input);
    put(v, 1393, "tph_ir_e_battery_charge_today_low", C::Grid, T::U16, 100_000, A::ReadOnly, S::Input);
    put(v, 1396, "tph_ir_e_load_today_high", C::Grid, T::U16, 100_000, A::ReadOnly, S::Input);
    put(v, 1397, "tph_ir_e_load_today_low", C::Grid, T::U16, 100_000, A::ReadOnly, S::Input);
    put(v, 1360, "tph_ir_e_inverter_out_today_high", C::Inverter, T::U16, 100_000, A::ReadOnly, S::Input);
    put(v, 1361, "tph_ir_e_inverter_out_today_low", C::Inverter, T::U16, 100_000, A::ReadOnly, S::Input);
    put(v, 1362, "tph_ir_e_inverter_out_total_high", C::Inverter, T::U16, 100_000, A::ReadOnly, S::Input);
    put(v, 1363, "tph_ir_e_inverter_out_total_low", C::Inverter, T::U16, 100_000, A::ReadOnly, S::Input);
    put(v, 1368, "tph_ir_e_pv1_total_high", C::PV, T::U16, 100_000, A::ReadOnly, S::Input);
    put(v, 1369, "tph_ir_e_pv1_total_low", C::PV, T::U16, 100_000, A::ReadOnly, S::Input);
    put(v, 1372, "tph_ir_e_pv2_total_high", C::PV, T::U16, 100_000, A::ReadOnly, S::Input);
    put(v, 1373, "tph_ir_e_pv2_total_low", C::PV, T::U16, 100_000, A::ReadOnly, S::Input);
    put(v, 1374, "tph_ir_e_pv_total_high", C::PV, T::U16, 100_000, A::ReadOnly, S::Input);
    put(v, 1375, "tph_ir_e_pv_total_low", C::PV, T::U16, 100_000, A::ReadOnly, S::Input);
    put(v, 1376, "tph_ir_e_ac_charge_today_high", C::Grid, T::U16, 100_000, A::ReadOnly, S::Input);
    put(v, 1377, "tph_ir_e_ac_charge_today_low", C::Grid, T::U16, 100_000, A::ReadOnly, S::Input);
    put(v, 1378, "tph_ir_e_ac_charge_total_high", C::Grid, T::U16, 100_000, A::ReadOnly, S::Input);
    put(v, 1379, "tph_ir_e_ac_charge_total_low", C::Grid, T::U16, 100_000, A::ReadOnly, S::Input);
    put(v, 1382, "tph_ir_e_import_total_high", C::Grid, T::U16, 100_000, A::ReadOnly, S::Input);
    put(v, 1383, "tph_ir_e_import_total_low", C::Grid, T::U16, 100_000, A::ReadOnly, S::Input);
    put(v, 1386, "tph_ir_e_export_total_high", C::Grid, T::U16, 100_000, A::ReadOnly, S::Input);
    put(v, 1387, "tph_ir_e_export_total_low", C::Grid, T::U16, 100_000, A::ReadOnly, S::Input);
    put(v, 1390, "tph_ir_e_battery_discharge_total_high", C::Battery, T::U16, 100_000, A::ReadOnly, S::Input);
    put(v, 1391, "tph_ir_e_battery_discharge_total_low", C::Battery, T::U16, 100_000, A::ReadOnly, S::Input);
    put(v, 1394, "tph_ir_e_battery_charge_total_high", C::Battery, T::U16, 100_000, A::ReadOnly, S::Input);
    put(v, 1395, "tph_ir_e_battery_charge_total_low", C::Battery, T::U16, 100_000, A::ReadOnly, S::Input);
    put(v, 1398, "tph_ir_e_load_total_high", C::Grid, T::U16, 100_000, A::ReadOnly, S::Input);
    put(v, 1399, "tph_ir_e_load_total_low", C::Grid, T::U16, 100_000, A::ReadOnly, S::Input);
    put(v, 1400, "tph_ir_e_export2_today_high", C::Grid, T::U16, 100_000, A::ReadOnly, S::Input);
    put(v, 1401, "tph_ir_e_export2_today_low", C::Grid, T::U16, 100_000, A::ReadOnly, S::Input);
    put(v, 1402, "tph_ir_e_export2_total_high", C::Grid, T::U16, 100_000, A::ReadOnly, S::Input);
    put(v, 1403, "tph_ir_e_export2_total_low", C::Grid, T::U16, 100_000, A::ReadOnly, S::Input);
    put(v, 1412, "tph_ir_e_pv_today_high", C::PV, T::U16, 100_000, A::ReadOnly, S::Input);
    put(v, 1413, "tph_ir_e_pv_today_low", C::PV, T::U16, 100_000, A::ReadOnly, S::Input);
}

/// HR 2040-2075: plant-manager schedule.
#[verifier::opaque]
pub open spec fn ems_holding_rows(base: Seq<Definition>) -> Seq<Definition> {
    base
        .push(row(2040, "ems_plant_enable"@, C::Configuration, T::U16, 1_000_000, A::ReadWrite, S::Holding))
        .push(row(2041, "ems_expected_inverter_count"@, C::Configuration, T::U16, 1_000_000, A::ReadWrite, S::Holding))
        .push(row(2042, "ems_expected_meter_count"@, C::Configuration, T::U16, 1_000_000, A::ReadWrite, S::Holding))
        .push(row(2043, "ems_expected_car_charger_count"@, C::Configuration, T::U16, 1_000_000, A::ReadWrite, S::Holding))
        .push(row(2044, "ems_discharge_slot_1_start"@, C::Schedules, T::U16, 1_000_000, A::ReadWrite, S::Holding))
        .push(row(2045, "ems_discharge_slot_1_end"@, C::Schedules, T::U16, 1_000_000, A::ReadWrite, S::Holding))
        .push(row(2046, "ems_discharge_target_soc_1"@, C::Schedules, T::U16, 1_000_000, A::ReadWrite, S::Holding))
        .push(row(2047, "ems_discharge_slot_2_start"@, C::Schedules, T::U16, 1_000_000, A::ReadWrite, S::Holding))
        .push(row(2048, "ems_discharge_slot_2_end"@, C::Schedules, T::U16, 1_000_000, A::ReadWrite, S::Holding))
        .push(row(2049, "ems_discharge_target_soc_2"@, C::Schedules, T::U16, 1_000_000, A::ReadWrite, S::Holding))
        .push(row(2050, "ems_discharge_slot_3_start"@, C::Schedules, T::U16, 1_000_000, A::ReadWrite, S::Holding))
        .push(row(2051, "ems_discharge_slot_3_end"@, C::Schedules, T::U16, 1_000_000, A::ReadWrite, S::Holding))
        .push(row(2052, "ems_discharge_target_soc_3"@, C::Schedules, T::U16, 1_000_000, A::ReadWrite, S::Holding))
        .push(row(2053, "ems_charge_slot_1_start"@, C::Schedules, T::U16, 1_000_000, A::ReadWrite, S::Holding))
        .push(row(2054, "ems_charge_slot_1_end"@, C::Schedules, T::U16, 1_000_000, A::ReadWrite, S::Holding))
        .push(row(2055, "ems_charge_target_soc_1"@, C::Schedules, T::U16, 1_000_000, A::ReadWrite, S::Holding))
        .push(row(2056, "ems_charge_slot_2_start"@, C::Schedules, T::U16, 1_000_000, A::ReadWrite, S::Holding))
        .push(row(2057, "ems_charge_slot_2_end"@, C::Schedules, T::U16, 1_000_000, A::ReadWrite, S::Holding))
        .push(row(2058, "ems_charge_target_soc_2"@, C::Schedules, T::U16, 1_000_000, A::ReadWrite, S::Holding))
        .push(row(2059, "ems_charge_slot_3_start"@, C::Schedules, T::U16, 1_000_000, A::ReadWrite, S::Holding))
        .push(row(2060, "ems_charge_slot_3_end"@, C::Schedules, T::U16, 1_000_000, A::ReadWrite, S::Holding))
        .push(row(2061, "ems_charge_target_soc_3"@, C::Schedules, T::U16, 1_000_000, A::ReadWrite, S::Holding))
        .push(row(2062, "ems_export_slot_1_start"@, C::Schedules, T::U16, 1_000_000, A::ReadWrite, S::Holding))
        .push(row(2063, "ems_export_slot_1_end"@, C::Schedules, T::U16, 1_000_000, A::ReadWrite, S::Holding))
        .push(row(2064, "ems_export_target_soc_1"@, C::Schedules, T::U16, 1_000_000, A::ReadWrite, S::Holding))
        .push(row(2065, "ems_export_slot_2_start"@, C::Schedules, T::U16, 1_000_000, A::ReadWrite, S::Holding))
        .push(row(2066, "ems_export_slot_2_end"@, C::Schedules, T::U16, 1_000_000, A::ReadWrite, S::Holding))
        .push(row(2067, "ems_export_target_soc_2"@, C::Schedules, T::U16, 1_000_000, A::ReadWrite, S::Holding))
        .push(row(2068, "ems_export_slot_3_start"@, C::Schedules, T::U16, 1_000_000, A::ReadWrite, S::Holding))
        .push(row(2069, "ems_export_slot_3_end"@, C::Schedules, T::U16, 1_000_000, A::ReadWrite, S::Holding))
        .push(row(2070, "ems_export_target_soc_3"@, C::Schedules, T::U16, 1_000_000, A::ReadWrite, S::Holding))
        .push(row(2071, "ems_export_power_limit"@, C::Configuration, T::U16, 1_000_000, A::ReadWrite, S::Holding))
        .push(row(2072, "ems_car_charge_mode"@, C::Configuration, T::U16, 1_000_000, A::ReadWrite, S::Holding))
        .push(row(2073, "ems_car_charge_boost"@, C::Configuration, T::U16, 1_000_000, A::ReadWrite, S::Holding))
        .push(row(2074, "ems_plant_charge_compensation"@, C::Configuration, T::S16, 1_000_000, A::ReadWrite, S::Holding))
        .push(row(2075, "ems_plant_discharge_compensation"@, C::Configuration, T::S16, 1_000_000, A::ReadWrite, S::Holding))
}

/// HR 2040-2075: plant-manager schedule.
fn put_ems_holding(v: &mut Vec<RegisterDef>)
    ensures
        registers::definitions_of(final(v)@) == ems_holding_rows(registers::definitions_of(old(v)@)),
{
    reveal(ems_holding_rows);
    put(v, 2040, "ems_plant_enable", C::Configuration, T::U16, 1_000_000, A::ReadWrite, S::Holding);
    put(v, 2041, "ems_expected_inverter_count", C::Configuration, T::U16, 1_000_000, A::ReadWrite, S::Holding);
    put(v, 2042, "ems_expected_meter_count", C::Configuration, T::U16, 1_000_000, A::ReadWrite, S::Holding);
    put(v, 2043, "ems_expected_car_charger_count", C::Configuration, T::U16, 1_000_000, A::ReadWrite, S::Holding);
    put(v, 2044, "ems_discharge_slot_1_start", C::Schedules, T::U16, 1_000_000, A::ReadWrite, S::Holding);
    put(v, 2045, "ems_discharge_slot_1_end", C::Schedules, T::U16, 1_000_000, A::ReadWrite, S::Holding);
    put(v, 2046, "ems_discharge_target_soc_1", C::Schedules, T::U16, 1_000_000, A::ReadWrite, S::Holding);
    put(v, 2047, "ems_discharge_slot_2_start", C::Schedules, T::U16, 1_000_000, A::ReadWrite, S::Holding);
    put(v, 2048, "ems_discharge_slot_2_end", C::Schedules, T::U16, 1_000_000, A::ReadWrite, S::Holding);
    put(v, 2049, "ems_discharge_target_soc_2", C::Schedules, T::U16, 1_000_000, A::ReadWrite, S::Holding);
    put(v, 2050, "ems_discharge_slot_3_start", C::Schedules, T::U16, 1_000_000, A::ReadWrite, S::Holding);
    put(v, 2051, "ems_discharge_slot_3_end", C::Schedules, T::U16, 1_000_000, A::ReadWrite, S::Holding);
    put(v, 2052, "ems_discharge_target_soc_3", C::Schedules, T::U16, 1_000_000, A::ReadWrite, S::Holding);
    put(v, 2053, "ems_charge_slot_1_start", C::Schedules, T::U16, 1_000_000, A::ReadWrite, S::Holding);
    put(v, 2054, "ems_charge_slot_1_end", C::Schedules, T::U16, 1_000_000, A::ReadWrite, S::Holding);
    put(v, 2055, "ems_charge_target_soc_1", C::Schedules, T::U16, 1_000_000, A::ReadWrite, S::Holding);
    put(v, 2056, "ems_charge_slot_2_start", C::Schedules, T::U16, 1_000_000, A::ReadWrite, S::Holding);
    put(v, 2057, "ems_charge_slot_2_end", C::Schedules, T::U16, 1_000_000, A::ReadWrite, S::Holding);
    put(v, 2058, "ems_charge_target_soc_2", C::Schedules, T::U16, 1_000_000, A::ReadWrite, S::Holding);
    put(v, 2059, "ems_charge_slot_3_start", C::Schedules, T::U16, 1_000_000, A::ReadWrite, S::Holding);
    put(v, 2060, "ems_charge_slot_3_end", C::Schedules, T::U16, 1_000_000, A::ReadWrite, S::Holding);
    put(v, 2061, "ems_charge_target_soc_3", C::Schedules, T::U16, 1_000_000, A::ReadWrite, S::Holding);
    put(v, 2062, "ems_export_slot_1_start", C::Schedules, T::U16, 1_000_000, A::ReadWrite, S::Holding);
    put(v, 2063, "ems_export_slot_1_end", C::Schedules, T::U16, 1_000_000, A::ReadWrite, S::Holding);
    put(v, 2064, "ems_export_target_soc_1", C::Schedules, T::U16, 1_000_000, A::ReadWrite, S::Holding);
    put(v, 2065, "ems_export_slot_2_start", C::Schedules, T::U16, 1_000_000, A::ReadWrite, S::Holding);
    put(v, 2066, "ems_export_slot_2_end", C::Schedules, T::U16, 1_000_000, A::ReadWrite, S::Holding);
    put(v, 2067, "ems_export_target_soc_2", C::Schedules, T::U16, 1_000_000, A::ReadWrite, S::Holding);
    put(v, 2068, "ems_export_slot_3_start", C::Schedules, T::U16, 1_000_000, A::ReadWrite, S::Holding);
    put(v, 2069, "ems_export_slot_3_end", C::Schedules, T::U16, 1_000_000, A::ReadWrite, S::Holding);
    put(v, 2070, "ems_export_target_soc_3", C::Schedules, T::U16, 1_000_000, A::ReadWrite, S::Holding);
    put(v, 2071, "ems_export_power_limit", C::Configuration, T::U16, 1_000_000, A::ReadWrite, S::Holding);
    put(v, 2072, "ems_car_charge_mode", C::Configuration, T::U16, 1_000_000, A::ReadWrite, S::Holding);
    put(v, 2073, "ems_car_charge_boost", C::Configuration, T::U16, 1_000_000, A::ReadWrite, S::Holding);
    put(v, 2074, "ems_plant_charge_compensation", C::Configuration, T::S16, 1_000_000, A::ReadWrite, S::Holding);
    put(v, 2075, "ems_plant_discharge_compensation", C::Configuration, T::S16, 1_000_000, A::ReadWrite, S::Holding);
}

/// IR 2040-2094: plant-manager telemetry.
#[verifier::opaque]
pub open spec fn ems_input_rows(base: Seq<Definition>) -> Seq<Definition> {
    base
        .push(row(2040, "ems_ir_status"@, C::Configuration, T::U16, 1_000_000, A::ReadOnly, S::Input))
        .push(row(2041, "ems_ir_meter_count"@, C::Configuration, T::U16, 1_000_000, A::ReadOnly, S::Input))
        .push(row(2042, "ems_ir_meter_types"@, C::Configuration, T::U16, 1_000_000, A::ReadOnly, S::Input))
        .push(row(2043, "ems_ir_meter_status"@, C::Configuration, T::U16, 1_000_000, A::ReadOnly, S::Input))
        .push(row(2044, "ems_ir_inverter_count"@, C::Configuration, T::U16, 1_000_000, A::ReadOnly, S::Input))
        .push(row(2045, "ems_ir_inverter_status"@, C::Configuration, T::U16, 1_000_000, A::ReadOnly, S::Input))
        .push(row(2046, "ems_ir_meter_1_power"@, C::Grid, T::S16, 1_000_000, A::ReadOnly, S::Input))
        .push(row(2047, "ems_ir_meter_2_power"@, C::Grid, T::S16, 1_000_000, A::ReadOnly, S::Input))
        .push(row(2048, "ems_ir_meter_3_power"@, C::Grid, T::S16, 1_000_000, A::ReadOnly, S::Input))
        .push(row(2049, "ems_ir_meter_4_power"@, C::Grid, T::S16, 1_000_000, A::ReadOnly, S::Input))
        .push(row(2050, "ems_ir_meter_5_power"@, C::Grid, T::S16, 1_000_000, A::ReadOnly, S::Input))
        .push(row(2051, "ems_ir_meter_6_power"@, C::Grid, T::S16, 1_000_000, A::ReadOnly, S::Input))
        .push(row(2052, "ems_ir_meter_7_power"@, C::Grid, T::S16, 1_000_000, A::ReadOnly, S::Input))
        .push(row(2053, "ems_ir_meter_8_power"@, C::Grid, T::S16, 1_000_000, A::ReadOnly, S::Input))
        .push(row(2054, "ems_ir_inverter_1_power"@, C::Inverter, T::S16, 1_000_000, A::ReadOnly, S::Input))
        .push(row(2055, "ems_ir_inverter_2_power"@, C::Inverter, T::S16, 1_000_000, A::ReadOnly, S::Input))
        .push(row(2056, "ems_ir_inverter_3_power"@, C::Inverter, T::S16, 1_000_000, A::ReadOnly, S::Input))
        .push(row(2057, "ems_ir_inverter_4_power"@, C::Inverter, T::S16, 1_000_000, A::ReadOnly, S::Input))
        .push(row(2058, "ems_ir_inverter_1_soc"@, C::Battery, T::U16, 1_000_000, A::ReadOnly, S::Input))
        .push(row(2059, "ems_ir_inverter_2_soc"@, C::Battery, T::U16, 1_000_000, A::ReadOnly, S::Input))
        .push(row(2060, "ems_ir_inverter_3_soc"@, C::Battery, T::U16, 1_000_000, A::ReadOnly, S::Input))
        .push(row(2061, "ems_ir_inverter_4_soc"@, C::Battery, T::U16, 1_000_000, A::ReadOnly, S::Input))
        .push(row(2062, "ems_ir_inverter_1_temp"@, C::Inverter, T::S16, 100_000, A::ReadOnly, S::Input))
        .push(row(2063, "ems_ir_inverter_2_temp"@, C::Inverter, T::S16, 100_000, A::ReadOnly, S::Input))
        .push(row(2064, "ems_ir_inverter_3_temp"@, C::Inverter, T::S16, 100_000, A::ReadOnly, S::Input))
        .push(row(2065, "ems_ir_inverter_4_temp"@, C::Inverter, T::S16, 100_000, A::ReadOnly, S::Input))
        .push(row(2066, "ems_ir_inverter_1_serial"@, C::Inverter, T::U16, 1_000_000, A::ReadOnly, S::Input))
        .push(row(2086, "ems_ir_calc_load_power"@, C::Grid, T::U16, 1_000_000, A::ReadOnly, S::Input))
        .push(row(2087, "ems_ir_measured_load_power"@, C::Grid, T::U16, 1_000_000, A::ReadOnly, S::Input))
        .push(row(2088, "ems_ir_total_generation_load_power"@, C::Grid, T::U16, 1_000_000, A::ReadOnly, S::Input))
        .push(row(2089, "ems_ir_grid_meter_power"@, C::Grid, T::S16, 1_000_000, A::ReadOnly, S::Input))
        .push(row(2090, "ems_ir_total_battery_power"@, C::Battery, T::S16, 1_000_000, A::ReadOnly, S::Input))
        .push(row(2091, "ems_ir_remaining_battery_wh"@, C::Battery, T::U16, 1_000_000, A::ReadOnly, S::Input))
        .push(row(2094, "ems_ir_other_battery_power"@, C::Battery, T::S16, 1_000_000, A::ReadOnly, S::Input))
        .push(row(2071, "ems_ir_inverter_2_serial"@, C::Inverter, T::U16, 1_000_000, A::ReadOnly, S::Input))
        .push(row(2076, "ems_ir_inverter_3_serial"@, C::Inverter, T::U16, 1_000_000, A::ReadOnly, S::Input))
        .push(row(2081, "ems_ir_inverter_4_serial"@, C::Inverter, T::U16, 1_000_000, A::ReadOnly, S::Input))
}

/// IR 2040-2094: plant-manager telemetry.
fn put_ems_input(v: &mut Vec<RegisterDef>)
    ensures
        registers::definitions_of(final(v)@) == ems_input_rows(registers::definitions_of(old(v)@)),
{
    reveal(ems_input_rows);
    put(v, 2040, "ems_ir_status", C::Configuration, T::U16, 1_000_000, A::ReadOnly, S::Input);
    put(v, 2041, "ems_ir_meter_count", C::Configuration, T::U16, 1_000_000, A::ReadOnly, S::Input);
    put(v, 2042, "ems_ir_meter_types", C::Configuration, T::U16, 1_000_000, A::ReadOnly, S::Input);
    put(v, 2043, "ems_ir_meter_status", C::Configuration, T::U16, 1_000_000, A::ReadOnly, S::Input);
    put(v, 2044, "ems_ir_inverter_count", C::Configuration, T::U16, 1_000_000, A::ReadOnly, S::Input);
    put(v, 2045, "ems_ir_inverter_status", C::Configuration, T::U16, 1_000_000, A::ReadOnly, S::Input);
    put(v, 2046, "ems_ir_meter_1_power", C::Grid, T::S16, 1_000_000, A::ReadOnly, S::Input);
    put(v, 2047, "ems_ir_meter_2_power", C::Grid, T::S16, 1_000_000, A::ReadOnly, S::Input);
    put(v, 2048, "ems_ir_meter_3_power", C::Grid, T::S16, 1_000_000, A::ReadOnly, S::Input);
    put(v, 2049, "ems_ir_meter_4_power", C::Grid, T::S16, 1_000_000, A::ReadOnly, S::Input);
    put(v, 2050, "ems_ir_meter_5_power", C::Grid, T::S16, 1_000_000, A::ReadOnly, S::Input);
    put(v, 2051, "ems_ir_meter_6_power", C::Grid, T::S16, 1_000_000, A::ReadOnly, S::Input);
    put(v, 2052, "ems_ir_meter_7_power", C::Grid, T::S16, 1_000_000, A::ReadOnly, S::Input);
    put(v, 2053, "ems_ir_meter_8_power", C::Grid, T::S16, 1_000_000, A::ReadOnly, S::Input);
    put(v, 2054, "ems_ir_inverter_1_power", C::Inverter, T::S16, 1_000_000, A::ReadOnly, S::Input);
    put(v, 2055, "ems_ir_inverter_2_power", C::Inverter, T::S16, 1_000_000, A::ReadOnly, S::Input);
    put(v, 2056, "ems_ir_inverter_3_power", C::Inverter, T::S16, 1_000_000, A::ReadOnly, S::Input);
    put(v, 2057, "ems_ir_inverter_4_power", C::Inverter, T::S16, 1_000_000, A::ReadOnly, S::Input);
    put(v, 2058, "ems_ir_inverter_1_soc", C::Battery, T::U16, 1_000_000, A::ReadOnly, S::Input);
    put(v, 2059, "ems_ir_inverter_2_soc", C::Battery, T::U16, 1_000_000, A::ReadOnly, S::Input);
    put(v, 2060, "ems_ir_inverter_3_soc", C::Battery, T::U16, 1_000_000, A::ReadOnly, S::Input);
    put(v, 2061, "ems_ir_inverter_4_soc", C::Battery, T::U16, 1_000_000, A::ReadOnly, S::Input);
    put(v, 2062, "ems_ir_inverter_1_temp", C::Inverter, T::S16, 100_000, A::ReadOnly, S::Input);
    put(v, 2063, "ems_ir_inverter_2_temp", C::Inverter, T::S16, 100_000, A::ReadOnly, S::Input);
    put(v, 2064, "ems_ir_inverter_3_temp", C::Inverter, T::S16, 100_000, A::ReadOnly, S::Input);
    put(v, 2065, "ems_ir_inverter_4_temp", C::Inverter, T::S16, 100_000, A::ReadOnly, S::Input);
    put(v, 2066, "ems_ir_inverter_1_serial", C::Inverter, T::U16, 1_000_000, A::ReadOnly, S::Input);
    put(v, 2086, "ems_ir_calc_load_power", C::Grid, T::U16, 1_000_000, A::ReadOnly, S::Input);
    put(v, 2087, "ems_ir_measured_load_power", C::Grid, T::U16, 1_000_000, A::ReadOnly, S::Input);
    put(v, 2088, "ems_ir_total_generation_load_power", C::Grid, T::U16, 1_000_000, A::ReadOnly, S::Input);
    put(v, 2089, "ems_ir_grid_meter_power", C::Grid, T::S16, 1_000_000, A::ReadOnly, S::Input);
    put(v, 2090, "ems_ir_total_battery_power", C::Battery, T::S16, 1_000_000, A::ReadOnly, S::Input);
    put(v, 2091, "ems_ir_remaining_battery_wh", C::Battery, T::U16, 1_000_000, A::ReadOnly, S::Input);
    put(v, 2094, "ems_ir_other_battery_power", C::Battery, T::S16, 1_000_000, A::ReadOnly, S::Input);
    put(v, 2071, "ems_ir_inverter_2_serial", C::Inverter, T::U16, 1_000_000, A::ReadOnly, S::Input);
    put(v, 2076, "ems_ir_inverter_3_serial", C::Inverter, T::U16, 1_000_000, A::ReadOnly, S::Input);
    put(v, 2081, "ems_ir_inverter_4_serial", C::Inverter, T::U16, 1_000_000, A::ReadOnly, S::Input);
}

/// HR 554-573 and 4107-4142: smart load slots and long counters.
#[verifier::opaque]
pub open spec fn smart_load_rows(base: Seq<Definition>) -> Seq<Definition> {
    base
        .push(row(554, "ge_hr_smart_load_slot_1_start"@, C::Configuration, T::U16, 1_000_000, A::ReadWrite, S::Holding))
        .push(row(555, "ge_hr_smart_load_slot_1_end"@, C::Configuration, T::U16, 1_000_000, A::ReadWrite, S::Holding))
        .push(row(556, "ge_hr_smart_load_slot_2_start"@, C::Configuration, T::U16, 1_000_000, A::ReadWrite, S::Holding))
        .push(row(557, "ge_hr_smart_load_slot_2_end"@, C::Configuration, T::U16, 1_000_000, A::ReadWrite, S::Holding))
        .push(row(558, "ge_hr_smart_load_slot_3_start"@, C::Configuration, T::U16, 1_000_000, A::ReadWrite, S::Holding))
        .push(row(559, "ge_hr_smart_load_slot_3_end"@, C::Configuration, T::U16, 1_000_000, A::ReadWrite, S::Holding))
        .push(row(560, "ge_hr_smart_load_slot_4_start"@, C::Configuration, T::U16, 1_000_000, A::ReadWrite, S::Holding))
        .push(row(561, "ge_hr_smart_load_slot_4_end"@, C::Configuration, T::U16, 1_000_000, A::ReadWrite, S::Holding))
        .push(row(562, "ge_hr_smart_load_slot_5_start"@, C::Configuration, T::U16, 1_000_000, A::ReadWrite, S::Holding))
        .push(row(563, "ge_hr_smart_load_slot_5_end"@, C::Configuration, T::U16, 1_000_000, A::ReadWrite, S::Holding))
        .push(row(564, "ge_hr_smart_load_slot_6_start"@, C::Configuration, T::U16, 1_000_000, A::ReadWrite, S::Holding))
        .push(row(565, "ge_hr_smart_load_slot_6_end"@, C::Configuration, T::U16, 1_000_000, A::ReadWrite, S::Holding))
        .push(row(566, "ge_hr_smart_load_slot_7_start"@, C::Configuration, T::U16, 1_000_000, A::ReadWrite, S::Holding))
        .push(row(567, "ge_hr_smart_load_slot_7_end"@, C::Configuration, T::U16, 1_000_000, A::ReadWrite, S::Holding))
        .push(row(568, "ge_hr_smart_load_slot_8_start"@, C::Configuration, T::U16, 1_000_000, A::ReadWrite, S::Holding))
        .push(row(569, "ge_hr_smart_load_slot_8_end"@, C::Configuration, T::U16, 1_000_000, A::ReadWrite, S::Holding))
        .push(row(570, "ge_hr_smart_load_slot_9_start"@, C::Configuration, T::U16, 1_000_000, A::ReadWrite, S::Holding))
        .push(row(571, "ge_hr_smart_load_slot_9_end"@, C::Configuration, T::U16, 1_000_000, A::ReadWrite, S::Holding))
        .push(row(572, "ge_hr_smart_load_slot_10_start"@, C::Configuration, T::U16, 1_000_000, A::ReadWrite, S::Holding))
        .push(row(573, "ge_hr_smart_load_slot_10_end"@, C::Configuration, T::U16, 1_000_000, A::ReadWrite, S::Holding))
        .push(row(4107, "ge_hr_pv_power_setting_high"@, C::PV, T::U16, 1_000_000, A::ReadWrite, S::Holding))
        .push(row(4108, "ge_hr_pv_power_setting_low"@, C::PV, T::U16, 1_000_000, A::ReadWrite, S::Holding))
        .push(row(4109, "ge_hr_battery_discharge_total_alt2_high"@, C::Battery, T::U16, 1_000_000, A::ReadOnly, S::Holding))
        .push(row(4110, "ge_hr_battery_discharge_total_alt2_low"@, C::Battery, T::U16, 1_000_000, A::ReadOnly, S::Holding))
        .push(row(4111, "ge_hr_battery_charge_total_alt2_high"@, C::Battery, T::U16, 1_000_000, A::ReadOnly, S::Holding))
        .push(row(4112, "ge_hr_battery_charge_total_alt2_low"@, C::Battery, T::U16, 1_000_000, A::ReadOnly, S::Holding))
        .push(row(4113, "ge_hr_battery_discharge_today_alt3"@, C::Battery, T::U16, 100_000, A::ReadOnly, S::Holding))
        .push(row(4114, "ge_hr_battery_charge_today_alt3"@, C::Battery, T::U16, 100_000, A::ReadOnly, S::Holding))
        .push(row(4141, "ge_hr_inverter_export_total_high"@, C::Grid, T::U16, 1_000_000, A::ReadOnly, S::Holding))
        .push(row(4142, "ge_hr_inverter_export_total_low"@, C::Grid, T::U16, 1_000_000, A::ReadOnly, S::Holding))
}

/// HR 554-573 and 4107-4142: smart load slots and long counters.
fn put_smart_load(v: &mut Vec<RegisterDef>)
    ensures
        registers::definitions_of(final(v)@) == smart_load_rows(registers::definitions_of(old(v)@)),
{
    reveal(smart_load_rows);
    put(v, 554, "ge_hr_smart_load_slot_1_start", C::Configuration, T::U16, 1_000_000, A::ReadWrite, S::Holding);
    put(v, 555, "ge_hr_smart_load_slot_1_end", C::Configuration, T::U16, 1_000_000, A::ReadWrite, S::Holding);
    put(v, 556, "ge_hr_smart_load_slot_2_start", C::Configuration, T::U16, 1_000_000, A::ReadWrite, S::Holding);
    put(v, 557, "ge_hr_smart_load_slot_2_end", C::Configuration, T::U16, 1_000_000, A::ReadWrite, S::Holding);
    put(v, 558, "ge_hr_smart_load_slot_3_start", C::Configuration, T::U16, 1_000_000, A::ReadWrite, S::Holding);
    put(v, 559, "ge_hr_smart_load_slot_3_end", C::Configuration, T::U16, 1_000_000, A::ReadWrite, S::Holding);
    put(v, 560, "ge_hr_smart_load_slot_4_start", C::Configuration, T::U16, 1_000_000, A::ReadWrite, S::Holding);
    put(v, 561, "ge_hr_smart_load_slot_4_end", C::Configuration, T::U16, 1_000_000, A::ReadWrite, S::Holding);
    put(v, 562, "ge_hr_smart_load_slot_5_start", C::Configuration, T::U16, 1_000_000, A::ReadWrite, S::Holding);
    put(v, 563, "ge_hr_smart_load_slot_5_end", C::Configuration, T::U16, 1_000_000, A::ReadWrite, S::Holding);
    put(v, 564, "ge_hr_smart_load_slot_6_start", C::Configuration, T::U16, 1_000_000, A::ReadWrite, S::Holding);
    put(v, 565, "ge_hr_smart_load_slot_6_end", C::Configuration, T::U16, 1_000_000, A::ReadWrite, S::Holding);
    put(v, 566, "ge_hr_smart_load_slot_7_start", C::Configuration, T::U16, 1_000_000, A::ReadWrite, S::Holding);
    put(v, 567, "ge_hr_smart_load_slot_7_end", C::Configuration, T::U16, 1_000_000, A::ReadWrite, S::Holding);
    put(v, 568, "ge_hr_smart_load_slot_8_start", C::Configuration, T::U16, 1_000_000, A::ReadWrite, S::Holding);
    put(v, 569, "ge_hr_smart_load_slot_8_end", C::Configuration, T::U16, 1_000_000, A::ReadWrite, S::Holding);
    put(v, 570, "ge_hr_smart_load_slot_9_start", C::Configuration, T::U16, 1_000_000, A::ReadWrite, S::Holding);
    put(v, 571, "ge_hr_smart_load_slot_9_end", C::Configuration, T::U16, 1_000_000, A::ReadWrite, S::Holding);
    put(v, 572, "ge_hr_smart_load_slot_10_start", C::Configuration, T::U16, 1_000_000, A::ReadWrite, S::Holding);
    put(v, 573, "ge_hr_smart_load_slot_10_end", C::Configuration, T::U16, 1_000_000, A::ReadWrite, S::Holding);
    put(v, 4107, "ge_hr_pv_power_setting_high", C::PV, T::U16, 1_000_000, A::ReadWrite, S::Holding);
    put(v, 4108, "ge_hr_pv_power_setting_low", C::PV, T::U16, 1_000_000, A::ReadWrite, S::Holding);
    put(v, 4109, "ge_hr_battery_discharge_total_alt2_high", C::Battery, T::U16, 1_000_000, A::ReadOnly, S::Holding);
    put(v, 4110, "ge_hr_battery_discharge_total_alt2_low", C::Battery, T::U16, 1_000_000, A::ReadOnly, S::Holding);
    put(v, 4111, "ge_hr_battery_charge_total_alt2_high", C::Battery, T::U16, 1_000_000, A::ReadOnly, S::Holding);
    put(v, 4112, "ge_hr_battery_charge_total_alt2_low", C::Battery, T::U16, 1_000_000, A::ReadOnly, S::Holding);
    put(v, 4113, "ge_hr_battery_discharge_today_alt3", C::Battery, T::U16, 100_000, A::ReadOnly, S::Holding);
    put(v, 4114, "ge_hr_battery_charge_today_alt3", C::Battery, T::U16, 100_000, A::ReadOnly, S::Holding);
    put(v, 4141, "ge_hr_inverter_export_total_high", C::Grid, T::U16, 1_000_000, A::ReadOnly, S::Holding);
    put(v, 4142, "ge_hr_inverter_export_total_low", C::Grid, T::U16, 1_000_000, A::ReadOnly, S::Holding);
}

/// HR 100-705: registers of the simulator.
#[verifier::opaque]
pub open spec fn internal_rows(base: Seq<Definition>) -> Seq<Definition> {
    base
        .push(row(100, "inverter_mode"@, C::Inverter, T::U16, 1_000_000, A::ReadWrite, S::Holding))
        .push(row(101, "inverter_ac_power"@, C::Inverter, T::S16, 1_000_000, A::ReadOnly, S::Holding))
        .push(row(102, "inverter_export_limit_w"@, C::Inverter, T::U16, 1_000_000, A::ReadWrite, S::Holding))
        .push(row(103, "inverter_temperature"@, C::Inverter, T::S16, 100_000, A::ReadOnly, S::Holding))
        .push(row(104, "ge_hr_enable_battery_self_heating"@, C::Battery, T::U16, 1_000_000, A::ReadOnly, S::Holding))
        .push(row(172, "ge_hr_enable_manual_battery_heater"@, C::Battery, T::U16, 1_000_000, A::ReadOnly, S::Holding))
        .push(row(200, "battery_soc"@, C::Battery, T::U16, 1_000_000, A::ReadOnly, S::Holding))
        .push(row(201, "battery_soc_2"@, C::Battery, T::U16, 1_000_000, A::ReadOnly, S::Holding))
        .push(row(202, "battery_soc_3"@, C::Battery, T::U16, 1_000_000, A::ReadOnly, S::Holding))
        .push(row(203, "battery_power"@, C::Battery, T::S16, 1_000_000, A::ReadOnly, S::Holding))
        .push(row(204, "battery_voltage"@, C::Battery, T::U16, 10_000, A::ReadOnly, S::Holding))
        .push(row(205, "battery_current"@, C::Battery, T::S16, 10_000, A::ReadOnly, S::Holding))
        .push(row(206, "battery_temperature"@, C::Battery, T::S16, 100_000, A::ReadOnly, S::Holding))
        .push(row(207, "battery_capacity_kwh"@, C::Battery, T::U16, 100_000, A::ReadOnly, S::Holding))
        .push(row(208, "battery_max_charge_kw"@, C::Battery, T::U16, 100_000, A::ReadWrite, S::Holding))
        .push(row(209, "battery_max_discharge_kw"@, C::Battery, T::U16, 100_000, A::ReadWrite, S::Holding))
        .push(row(210, "battery_min_soc"@, C::Battery, T::U16, 1_000_000, A::ReadWrite, S::Holding))
        .push(row(211, "battery_max_soc"@, C::Battery, T::U16, 1_000_000, A::ReadWrite, S::Holding))
        .push(row(212, "battery_charge_efficiency"@, C::Battery, T::U16, 10_000, A::ReadOnly, S::Holding))
        .push(row(213, "battery_discharge_efficiency"@, C::Battery, T::U16, 10_000, A::ReadOnly, S::Holding))
        .push(row(214, "battery_module_count"@, C::Battery, T::U16, 1_000_000, A::ReadOnly, S::Holding))
        .push(row(223, "ge_hr_inverter_errors_high"@, C::Inverter, T::U16, 1_000_000, A::ReadOnly, S::Holding))
        .push(row(224, "ge_hr_inverter_errors_low"@, C::Inverter, T::U16, 1_000_000, A::ReadOnly, S::Holding))
        .push(row(300, "pv_generation"@, C::PV, T::U16, 1_000_000, A::ReadOnly, S::Holding))
        .push(row(301, "pv_voltage"@, C::PV, T::U16, 100_000, A::ReadOnly, S::Holding))
        .push(row(302, "pv_current"@, C::PV, T::U16, 10_000, A::ReadOnly, S::Holding))
        .push(row(303, "pv_energy_today"@, C::PV, T::U16, 100_000, A::ReadOnly, S::Holding))
        .push(row(304, "pv_peak_capacity"@, C::PV, T::U16, 1_000_000, A::ReadOnly, S::Holding))
        .push(row(400, "grid_power"@, C::Grid, T::S16, 1_000_000, A::ReadOnly, S::Holding))
        .push(row(401, "grid_voltage"@, C::Grid, T::U16, 100_000, A::ReadOnly, S::Holding))
        .push(row(402, "grid_frequency"@, C::Grid, T::U16, 10_000, A::ReadOnly, S::Holding))
        .push(row(403, "grid_connected"@, C::Grid, T::U16, 1_000_000, A::ReadOnly, S::Holding))
        .push(row(404, "load_power"@, C::Grid, T::U16, 1_000_000, A::ReadOnly, S::Holding))
        .push(row(500, "grid_import_kwh"@, C::Grid, T::U16, 100_000, A::ReadOnly, S::Holding))
        .push(row(501, "grid_export_kwh"@, C::Grid, T::U16, 100_000, A::ReadOnly, S::Holding))
        .push(row(502, "battery_charge_kwh"@, C::Battery, T::U16, 100_000, A::ReadOnly, S::Holding))
        .push(row(503, "battery_discharge_kwh"@, C::Battery, T::U16, 100_000, A::ReadOnly, S::Holding))
        .push(row(504, "solar_generation_kwh"@, C::PV, T::U16, 100_000, A::ReadOnly, S::Holding))
        .push(row(505, "load_consumption_kwh"@, C::Grid, T::U16, 100_000, A::ReadOnly, S::Holding))
        .push(row(600, "config_battery_count"@, C::Configuration, T::U16, 1_000_000, A::ReadOnly, S::Holding))
        .push(row(601, "config_tick_interval"@, C::Configuration, T::U16, 1_000_000, A::ReadOnly, S::Holding))
        .push(row(602, "config_weather"@, C::Configuration, T::U16, 1_000_000, A::ReadWrite, S::Holding))
        .push(row(700, "schedule_charge_start"@, C::Schedules, T::U16, 1_000_000, A::ReadWrite, S::Holding))
        .push(row(701, "schedule_charge_end"@, C::Schedules, T::U16, 1_000_000, A::ReadWrite, S::Holding))
        .push(row(702, "schedule_discharge_start"@, C::Schedules, T::U16, 1_000_000, A::ReadWrite, S::Holding))
        .push(row(703, "schedule_discharge_end"@, C::Schedules, T::U16, 1_000_000, A::ReadWrite, S::Holding))
        .push(row(704, "schedule_charge_target_soc"@, C::Schedules, T::U16, 1_000_000, A::ReadWrite, S::Holding))
        .push(row(705, "schedule_discharge_target_soc"@, C::Schedules, T::U16, 1_000_000, A::ReadWrite, S::Holding))
}

/// HR 100-705: registers of the simulator.
fn put_internal(v: &mut Vec<RegisterDef>)
    ensures
        registers::definitions_of(final(v)@) == internal_rows(registers::definitions_of(old(v)@)),
{
    reveal(internal_rows);
    put(v, 100, "inverter_mode", C::Inverter, T::U16, 1_000_000, A::ReadWrite, S::Holding);
    put(v, 101, "inverter_ac_power", C::Inverter, T::S16, 1_000_000, A::ReadOnly, S::Holding);
    put(v, 102, "inverter_export_limit_w", C::Inverter, T::U16, 1_000_000, A::ReadWrite, S::Holding);
    put(v, 103, "inverter_temperature", C::Inverter, T::S16, 100_000, A::ReadOnly, S::Holding);
    put(v, 104, "ge_hr_enable_battery_self_heating", C::Battery, T::U16, 1_000_000, A::ReadOnly, S::Holding);
    put(v, 172, "ge_hr_enable_manual_battery_heater", C::Battery, T::U16, 1_000_000, A::ReadOnly, S::Holding);
    put(v, 200, "battery_soc", C::Battery, T::U16, 1_000_000, A::ReadOnly, S::Holding);
    put(v, 201, "battery_soc_2", C::Battery, T::U16, 1_000_000, A::ReadOnly, S::Holding);
    put(v, 202, "battery_soc_3", C::Battery, T::U16, 1_000_000, A::ReadOnly, S::Holding);
    put(v, 203, "battery_power", C::Battery, T::S16, 1_000_000, A::ReadOnly, S::Holding);
    put(v, 204, "battery_voltage", C::Battery, T::U16, 10_000, A::ReadOnly, S::Holding);
    put(v, 205, "battery_current", C::Battery, T::S16, 10_000, A::ReadOnly, S::Holding);
    put(v, 206, "battery_temperature", C::Battery, T::S16, 100_000, A::ReadOnly, S::Holding);
    put(v, 207, "battery_capacity_kwh", C::Battery, T::U16, 100_000, A::ReadOnly, S::Holding);
    put(v, 208, "battery_max_charge_kw", C::Battery, T::U16, 100_000, A::ReadWrite, S::Holding);
    put(v, 209, "battery_max_discharge_kw", C::Battery, T::U16, 100_000, A::ReadWrite, S::Holding);
    put(v, 210, "battery_min_soc", C::Battery, T::U16, 1_000_000, A::ReadWrite, S::Holding);
    put(v, 211, "battery_max_soc", C::Battery, T::U16, 1_000_000, A::ReadWrite, S::Holding);
    put(v, 212, "battery_charge_efficiency", C::Battery, T::U16, 10_000, A::ReadOnly, S::Holding);
    put(v, 213, "battery_discharge_efficiency", C::Battery, T::U16, 10_000, A::ReadOnly, S::Holding);
    put(v, 214, "battery_module_count", C::Battery, T::U16, 1_000_000, A::ReadOnly, S::Holding);
    put(v, 223, "ge_hr_inverter_errors_high", C::Inverter, T::U16, 1_000_000, A::ReadOnly, S::Holding);
    put(v, 224, "ge_hr_inverter_errors_low", C::Inverter, T::U16, 1_000_000, A::ReadOnly, S::Holding);
    put(v, 300, "pv_generation", C::PV, T::U16, 1_000_000, A::ReadOnly, S::Holding);
    put(v, 301, "pv_voltage", C::PV, T::U16, 100_000, A::ReadOnly, S::Holding);
    put(v, 302, "pv_current", C::PV, T::U16, 10_000, A::ReadOnly, S::Holding);
    put(v, 303, "pv_energy_today", C::PV, T::U16, 100_000, A::ReadOnly, S::Holding);
    put(v, 304, "pv_peak_capacity", C::PV, T::U16, 1_000_000, A::ReadOnly, S::Holding);
    put(v, 400, "grid_power", C::Grid, T::S16, 1_000_000, A::ReadOnly, S::Holding);
    put(v, 401, "grid_voltage", C::Grid, T::U16, 100_000, A::ReadOnly, S::Holding);
    put(v, 402, "grid_frequency", C::Grid, T::U16, 10_000, A::ReadOnly, S::Holding);
    put(v, 403, "grid_connected", C::Grid, T::U16, 1_000_000, A::ReadOnly, S::Holding);
    put(v, 404, "load_power", C::Grid, T::U16, 1_000_000, A::ReadOnly, S::Holding);
    put(v, 500, "grid_import_kwh", C::Grid, T::U16, 100_000, A::ReadOnly, S::Holding);
    put(v, 501, "grid_export_kwh", C::Grid, T::U16, 100_000, A::ReadOnly, S::Holding);
    put(v, 502, "battery_charge_kwh", C::Battery, T::U16, 100_000, A::ReadOnly, S::Holding);
    put(v, 503, "battery_discharge_kwh", C::Battery, T::U16, 100_000, A::ReadOnly, S::Holding);
    put(v, 504, "solar_generation_kwh", C::PV, T::U16, 100_000, A::ReadOnly, S::Holding);
    put(v, 505, "load_consumption_kwh", C::Grid, T::U16, 100_000, A::ReadOnly, S::Holding);
    put(v, 600, "config_battery_count", C::Configuration, T::U16, 1_000_000, A::ReadOnly, S::Holding);
    put(v, 601, "config_tick_interval", C::Configuration, T::U16, 1_000_000, A::ReadOnly, S::Holding);
    put(v, 602, "config_weather", C::Configuration, T::U16, 1_000_000, A::ReadWrite, S::Holding);
    put(v, 700, "schedule_charge_start", C::Schedules, T::U16, 1_000_000, A::ReadWrite, S::Holding);
    put(v, 701, "schedule_charge_end", C::Schedules, T::U16, 1_000_000, A::ReadWrite, S::Holding);
    put(v, 702, "schedule_discharge_start", C::Schedules, T::U16, 1_000_000, A::ReadWrite, S::Holding);
    put(v, 703, "schedule_discharge_end", C::Schedules, T::U16, 1_000_000, A::ReadWrite, S::Holding);
    put(v, 704, "schedule_charge_target_soc", C::Schedules, T::U16, 1_000_000, A::ReadWrite, S::Holding);
    put(v, 705, "schedule_discharge_target_soc", C::Schedules, T::U16, 1_000_000, A::ReadWrite, S::Holding);
}

/// IR 1300-1307: three-phase fault words.
#[verifier::opaque]
pub open spec fn three_phase_faults_rows(base: Seq<Definition>) -> Seq<Definition> {
    base
        .push(row(1300, "ge_ir_threephase_fault_0"@, C::Inverter, T::U16, 1_000_000, A::ReadOnly, S::Input))
        .push(row(1301, "ge_ir_threephase_fault_1"@, C::Inverter, T::U16, 1_000_000, A::ReadOnly, S::Input))
        .push(row(1302, "ge_ir_threephase_fault_2"@, C::Inverter, T::U16, 1_000_000, A::ReadOnly, S::Input))
        .push(row(1303, "ge_ir_threephase_fault_3"@, C::Inverter, T::U16, 1_000_000, A::ReadOnly, S::Input))
        .push(row(1304, "ge_ir_threephase_fault_4"@, C::Inverter, T::U16, 1_000_000, A::ReadOnly, S::Input))
        .push(row(1305, "ge_ir_threephase_fault_5"@, C::Inverter, T::U16, 1_000_000, A::ReadOnly, S::Input))
        .push(row(1306, "ge_ir_threephase_fault_6"@, C::Inverter, T::U16, 1_000_000, A::ReadOnly, S::Input))
        .push(row(1307, "ge_ir_threephase_fault_7"@, C::Inverter, T::U16, 1_000_000, A::ReadOnly, S::Input))
}

/// IR 1300-1307: three-phase fault words.
fn put_three_phase_faults(v: &mut Vec<RegisterDef>)
    ensures
        registers::definitions_of(final(v)@) == three_phase_faults_rows(registers::definitions_of(old(v)@)),
{
    reveal(three_phase_faults_rows);
    put(v, 1300, "ge_ir_threephase_fault_0", C::Inverter, T::U16, 1_000_000, A::ReadOnly, S::Input);
    put(v, 1301, "ge_ir_threephase_fault_1", C::Inverter, T::U16, 1_000_000, A::ReadOnly, S::Input);
    put(v, 1302, "ge_ir_threephase_fault_2", C::Inverter, T::U16, 1_000_000, A::ReadOnly, S::Input);
    put(v, 1303, "ge_ir_threephase_fault_3", C::Inverter, T::U16, 1_000_000, A::ReadOnly, S::Input);
    put(v, 1304, "ge_ir_threephase_fault_4", C::Inverter, T::U16, 1_000_000, A::ReadOnly, S::Input);
    put(v, 1305, "ge_ir_threephase_fault_5", C::Inverter, T::U16, 1_000_000, A::ReadOnly, S::Input);
    put(v, 1306, "ge_ir_threephase_fault_6", C::Inverter, T::U16, 1_000_000, A::ReadOnly, S::Input);
    put(v, 1307, "ge_ir_threephase_fault_7", C::Inverter, T::U16, 1_000_000, A::ReadOnly, S::Input);
}

/// IR 1600-1657: gateway system and energy.
#[verifier::opaque]
pub open spec fn gateway_system_rows(base: Seq<Definition>) -> Seq<Definition> {
    base
        .push(row(1600, "gw_sw_version_0"@, C::Gateway, T::U16, 1_000_000, A::ReadOnly, S::Input))
        .push(row(1601, "gw_sw_version_1"@, C::Gateway, T::U16, 1_000_000, A::ReadOnly, S::Input))
        .push(row(1602, "gw_sw_version_2"@, C::Gateway, T::U16, 1_000_000, A::ReadOnly, S::Input))
        .push(row(1603, "gw_sw_version_3"@, C::Gateway, T::U16, 1_000_000, A::ReadOnly, S::Input))
        .push(row(1604, "gw_work_mode"@, C::Gateway, T::U16, 1_000_000, A::ReadOnly, S::Input))
        .push(row(1608, "gw_v_grid"@, C::Gateway, T::U16, 100_000, A::ReadOnly, S::Input))
        .push(row(1609, "gw_i_grid"@, C::Gateway, T::U16, 100_000, A::ReadOnly, S::Input))
        .push(row(1610, "gw_v_load"@, C::Gateway, T::U16, 100_000, A::ReadOnly, S::Input))
        .push(row(1611, "gw_i_load"@, C::Gateway, T::U16, 100_000, A::ReadOnly, S::Input))
        .push(row(1612, "gw_i_pv"@, C::Gateway, T::U16, 100_000, A::ReadOnly, S::Input))
        .push(row(1616, "gw_p_ac1"@, C::Gateway, T::U16, 1_000_000, A::ReadOnly, S::Input))
        .push(row(1617, "gw_p_pv"@, C::Gateway, T::U16, 1_000_000, A::ReadOnly, S::Input))
        .push(row(1618, "gw_p_load"@, C::Gateway, T::U16, 1_000_000, A::ReadOnly, S::Input))
        .push(row(1619, "gw_p_liberty"@, C::Gateway, T::U16, 1_000_000, A::ReadOnly, S::Input))
        .push(row(1620, "gw_fault_protection_hi"@, C::Gateway, T::U16, 1_000_000, A::ReadOnly, S::Input))
        .push(row(1621, "gw_fault_protection_lo"@, C::Gateway, T::U16, 1_000_000, A::ReadOnly, S::Input))
        .push(row(1622, "gw_fault_codes_hi"@, C::Gateway, T::U16, 1_000_000, A::ReadOnly, S::Input))
        .push(row(1623, "gw_fault_codes_lo"@, C::Gateway, T::U16, 1_000_000, A::ReadOnly, S::Input))
        .push(row(1624, "gw_v_grid_relay"@, C::Gateway, T::U16, 100_000, A::ReadOnly, S::Input))
        .push(row(1625, "gw_v_inverter_relay"@, C::Gateway, T::U16, 100_000, A::ReadOnly, S::Input))
        .push(row(1627, "gw_first_inv_serial_0"@, C::Gateway, T::U16, 1_000_000, A::ReadOnly, S::Input))
        .push(row(1628, "gw_first_inv_serial_1"@, C::Gateway, T::U16, 1_000_000, A::ReadOnly, S::Input))
        .push(row(1629, "gw_first_inv_serial_2"@, C::Gateway, T::U16, 1_000_000, A::ReadOnly, S::Input))
        .push(row(1630, "gw_first_inv_serial_3"@, C::Gateway, T::U16, 1_000_000, A::ReadOnly, S::Input))
        .push(row(1631, "gw_first_inv_serial_4"@, C::Gateway, T::U16, 1_000_000, A::ReadOnly, S::Input))
        .push(row(1640, "gw_e_grid_import_today"@, C::Gateway, T::U16, 100_000, A::ReadOnly, S::Input))
        .push(row(1641, "gw_e_grid_import_total_hi"@, C::Gateway, T::U16, 100_000, A::ReadOnly, S::Input))
        .push(row(1642, "gw_e_grid_import_total_lo"@, C::Gateway, T::U16, 100_000, A::ReadOnly, S::Input))
        .push(row(1643, "gw_e_pv_today"@, C::Gateway, T::U16, 100_000, A::ReadOnly, S::Input))
        .push(row(1644, "gw_e_pv_total_hi"@, C::Gateway, T::U16, 100_000, A::ReadOnly, S::Input))
        .push(row(1645, "gw_e_pv_total_lo"@, C::Gateway, T::U16, 100_000, A::ReadOnly, S::Input))
        .push(row(1646, "gw_e_grid_export_today"@, C::Gateway, T::U16, 100_000, A::ReadOnly, S::Input))
        .push(row(1647, "gw_e_grid_export_total_hi"@, C::Gateway, T::U16, 100_000, A::ReadOnly, S::Input))
        .push(row(1648, "gw_e_grid_export_total_lo"@, C::Gateway, T::U16, 100_000, A::ReadOnly, S::Input))
        .push(row(1649, "gw_e_aio_charge_today"@, C::Gateway, T::U16, 100_000, A::ReadOnly, S::Input))
        .push(row(1650, "gw_e_aio_charge_total_hi"@, C::Gateway, T::U16, 100_000, A::ReadOnly, S::Input))
        .push(row(1651, "gw_e_aio_charge_total_lo"@, C::Gateway, T::U16, 100_000, A::ReadOnly, S::Input))
        .push(row(1652, "gw_e_aio_discharge_today"@, C::Gateway, T::U16, 100_000, A::ReadOnly, S::Input))
        .push(row(1653, "gw_e_aio_discharge_total_hi"@, C::Gateway, T::U16, 100_000, A::ReadOnly, S::Input))
        .push(row(1654, "gw_e_aio_discharge_total_lo"@, C::Gateway, T::U16, 100_000, A::ReadOnly, S::Input))
        .push(row(1655, "gw_e_load_today"@, C::Gateway, T::U16, 100_000, A::ReadOnly, S::Input))
        .push(row(1656, "gw_e_load_total_hi"@, C::Gateway, T::U16, 100_000, A::ReadOnly, S::Input))
        .push(row(1657, "gw_e_load_total_lo"@, C::Gateway, T::U16, 100_000, A::ReadOnly, S::Input))
}

/// IR 1600-1657: gateway system and energy.
fn put_gateway_system(v: &mut Vec<RegisterDef>)
    ensures
        registers::definitions_of(final(v)@) == gateway_system_rows(registers::definitions_of(old(v)@)),
{
    reveal(gateway_system_rows);
    put(v, 1600, "gw_sw_version_0", C::Gateway, T::U16, 1_000_000, A::ReadOnly, S::Input);
    put(v, 1601, "gw_sw_version_1", C::Gateway, T::U16, 1_000_000, A::ReadOnly, S::Input);
    put(v, 1602, "gw_sw_version_2", C::Gateway, T::U16, 1_000_000, A::ReadOnly, S::Input);
    put(v, 1603, "gw_sw_version_3", C::Gateway, T::U16, 1_000_000, A::ReadOnly, S::Input);
    put(v, 1604, "gw_work_mode", C::Gateway, T::U16, 1_000_000, A::ReadOnly, S::Input);
    put(v, 1608, "gw_v_grid", C::Gateway, T::U16, 100_000, A::ReadOnly, S::Input);
    put(v, 1609, "gw_i_grid", C::Gateway, T::U16, 100_000, A::ReadOnly, S::Input);
    put(v, 1610, "gw_v_load", C::Gateway, T::U16, 100_000, A::ReadOnly, S::Input);
    put(v, 1611, "gw_i_load", C::Gateway, T::U16, 100_000, A::ReadOnly, S::Input);
    put(v, 1612, "gw_i_pv", C::Gateway, T::U16, 100_000, A::ReadOnly, S::Input);
    put(v, 1616, "gw_p_ac1", C::Gateway, T::U16, 1_000_000, A::ReadOnly, S::Input);
    put(v, 1617, "gw_p_pv", C::Gateway, T::U16, 1_000_000, A::ReadOnly, S::Input);
    put(v, 1618, "gw_p_load", C::Gateway, T::U16, 1_000_000, A::ReadOnly, S::Input);
    put(v, 1619, "gw_p_liberty", C::Gateway, T::U16, 1_000_000, A::ReadOnly, S::Input);
    put(v, 1620, "gw_fault_protection_hi", C::Gateway, T::U16, 1_000_000, A::ReadOnly, S::Input);
    put(v, 1621, "gw_fault_protection_lo", C::Gateway, T::U16, 1_000_000, A::ReadOnly, S::Input);
    put(v, 1622, "gw_fault_codes_hi", C::Gateway, T::U16, 1_000_000, A::ReadOnly, S::Input);
    put(v, 1623, "gw_fault_codes_lo", C::Gateway, T::U16, 1_000_000, A::ReadOnly, S::Input);
    put(v, 1624, "gw_v_grid_relay", C::Gateway, T::U16, 100_000, A::ReadOnly, S::Input);
    put(v, 1625, "gw_v_inverter_relay", C::Gateway, T::U16, 100_000, A::ReadOnly, S::Input);
    put(v, 1627, "gw_first_inv_serial_0", C::Gateway, T::U16, 1_000_000, A::ReadOnly, S::Input);
    put(v, 1628, "gw_first_inv_serial_1", C::Gateway, T::U16, 1_000_000, A::ReadOnly, S::Input);
    put(v, 1629, "gw_first_inv_serial_2", C::Gateway, T::U16, 1_000_000, A::ReadOnly, S::Input);
    put(v, 1630, "gw_first_inv_serial_3", C::Gateway, T::U16, 1_000_000, A::ReadOnly, S::Input);
    put(v, 1631, "gw_first_inv_serial_4", C::Gateway, T::U16, 1_000_000, A::ReadOnly, S::Input);
    put(v, 1640, "gw_e_grid_import_today", C::Gateway, T::U16, 100_000, A::ReadOnly, S::Input);
    put(v, 1641, "gw_e_grid_import_total_hi", C::Gateway, T::U16, 100_000, A::ReadOnly, S::Input);
    put(v, 1642, "gw_e_grid_import_total_lo", C::Gateway, T::U16, 100_000, A::ReadOnly, S::Input);
    put(v, 1643, "gw_e_pv_today", C::Gateway, T::U16, 100_000, A::ReadOnly, S::Input);
    put(v, 1644, "gw_e_pv_total_hi", C::Gateway, T::U16, 100_000, A::ReadOnly, S::Input);
    put(v, 1645, "gw_e_pv_total_lo", C::Gateway, T::U16, 100_000, A::ReadOnly, S::Input);
    put(v, 1646, "gw_e_grid_export_today", C::Gateway, T::U16, 100_000, A::ReadOnly, S::Input);
    put(v, 1647, "gw_e_grid_export_total_hi", C::Gateway, T::U16, 100_000, A::ReadOnly, S::Input);
    put(v, 1648, "gw_e_grid_export_total_lo", C::Gateway, T::U16, 100_000, A::ReadOnly, S::Input);
    put(v, 1649, "gw_e_aio_charge_today", C::Gateway, T::U16, 100_000, A::ReadOnly, S::Input);
    put(v, 1650, "gw_e_aio_charge_total_hi", C::Gateway, T::U16, 100_000, A::ReadOnly, S::Input);
    put(v, 1651, "gw_e_aio_charge_total_lo", C::Gateway, T::U16, 100_000, A::ReadOnly, S::Input);
    put(v, 1652, "gw_e_aio_discharge_today", C::Gateway, T::U16, 100_000, A::ReadOnly, S::Input);
    put(v, 1653, "gw_e_aio_discharge_total_hi", C::Gateway, T::U16, 100_000, A::ReadOnly, S::Input);
    put(v, 1654, "gw_e_aio_discharge_total_lo", C::Gateway, T::U16, 100_000, A::ReadOnly, S::Input);
    put(v, 1655, "gw_e_load_today", C::Gateway, T::U16, 100_000, A::ReadOnly, S::Input);
    put(v, 1656, "gw_e_load_total_hi", C::Gateway, T::U16, 100_000, A::ReadOnly, S::Input);
    put(v, 1657, "gw_e_load_total_lo", C::Gateway, T::U16, 100_000, A::ReadOnly, S::Input);
}

/// IR 1700-1818: gateway units.
#[verifier::opaque]
pub open spec fn gateway_units_rows(base: Seq<Definition>) -> Seq<Definition> {
    base
        .push(row(1700, "gw_parallel_aio_num"@, C::Gateway, T::U16, 1_000_000, A::ReadOnly, S::Input))
        .push(row(1701, "gw_parallel_aio_online_num"@, C::Gateway, T::U16, 1_000_000, A::ReadOnly, S::Input))
        .push(row(1702, "gw_p_aio_total"@, C::Gateway, T::U16, 1_000_000, A::ReadOnly, S::Input))
        .push(row(1703, "gw_aio_state"@, C::Gateway, T::U16, 1_000_000, A::ReadOnly, S::Input))
        .push(row(1704, "gw_battery_firmware"@, C::Gateway, T::U16, 1_000_000, A::ReadOnly, S::Input))
        .push(row(1705, "gw_e_aio1_charge_today"@, C::Gateway, T::U16, 100_000, A::ReadOnly, S::Input))
        .push(row(1706, "gw_e_aio1_charge_total_hi"@, C::Gateway, T::U16, 100_000, A::ReadOnly, S::Input))
        .push(row(1707, "gw_e_aio1_charge_total_lo"@, C::Gateway, T::U16, 100_000, A::ReadOnly, S::Input))
        .push(row(1708, "gw_e_aio2_charge_today"@, C::Gateway, T::U16, 100_000, A::ReadOnly, S::Input))
        .push(row(1709, "gw_e_aio2_charge_total_hi"@, C::Gateway, T::U16, 100_000, A::ReadOnly, S::Input))
        .push(row(1710, "gw_e_aio2_charge_total_lo"@, C::Gateway, T::U16, 100_000, A::ReadOnly, S::Input))
        .push(row(1711, "gw_e_aio3_charge_today"@, C::Gateway, T::U16, 100_000, A::ReadOnly, S::Input))
        .push(row(1712, "gw_e_aio3_charge_total_hi"@, C::Gateway, T::U16, 100_000, A::ReadOnly, S::Input))
        .push(row(1713, "gw_e_aio3_charge_total_lo"@, C::Gateway, T::U16, 100_000, A::ReadOnly, S::Input))
        .push(row(1750, "gw_e_aio1_discharge_today"@, C::Gateway, T::U16, 100_000, A::ReadOnly, S::Input))
        .push(row(1751, "gw_e_aio1_discharge_total_hi"@, C::Gateway, T::U16, 100_000, A::ReadOnly, S::Input))
        .push(row(1752, "gw_e_aio1_discharge_total_lo"@, C::Gateway, T::U16, 100_000, A::ReadOnly, S::Input))
        .push(row(1753, "gw_e_aio2_discharge_today"@, C::Gateway, T::U16, 100_000, A::ReadOnly, S::Input))
        .push(row(1754, "gw_e_aio2_discharge_total_hi"@, C::Gateway, T::U16, 100_000, A::ReadOnly, S::Input))
        .push(row(1755, "gw_e_aio2_discharge_total_lo"@, C::Gateway, T::U16, 100_000, A::ReadOnly, S::Input))
        .push(row(1756, "gw_e_aio3_discharge_today"@, C::Gateway, T::U16, 100_000, A::ReadOnly, S::Input))
        .push(row(1757, "gw_e_aio3_discharge_total_hi"@, C::Gateway, T::U16, 100_000, A::ReadOnly, S::Input))
        .push(row(1758, "gw_e_aio3_discharge_total_lo"@, C::Gateway, T::U16, 100_000, A::ReadOnly, S::Input))
        .push(row(1795, "gw_e_battery_charge_today"@, C::Gateway, T::U16, 100_000, A::ReadOnly, S::Input))
        .push(row(1796, "gw_e_battery_charge_total_hi"@, C::Gateway, T::U16, 100_000, A::ReadOnly, S::Input))
        .push(row(1797, "gw_e_battery_charge_total_lo"@, C::Gateway, T::U16, 100_000, A::ReadOnly, S::Input))
        .push(row(1798, "gw_e_battery_discharge_today"@, C::Gateway, T::U16, 100_000, A::ReadOnly, S::Input))
        .push(row(1799, "gw_e_battery_discharge_total_hi"@, C::Gateway, T::U16, 100_000, A::ReadOnly, S::Input))
        .push(row(1800, "gw_e_battery_discharge_total_lo"@, C::Gateway, T::U16, 100_000, A::ReadOnly, S::Input))
        .push(row(1801, "gw_aio1_soc"@, C::Gateway, T::U16, 1_000_000, A::ReadOnly, S::Input))
        .push(row(1802, "gw_aio2_soc"@, C::Gateway, T::U16, 1_000_000, A::ReadOnly, S::Input))
        .push(row(1803, "gw_aio3_soc"@, C::Gateway, T::U16, 1_000_000, A::ReadOnly, S::Input))
        .push(row(1816, "gw_p_aio1_inverter"@, C::Gateway, T::U16, 1_000_000, A::ReadOnly, S::Input))
        .push(row(1817, "gw_p_aio2_inverter"@, C::Gateway, T::U16, 1_000_000, A::ReadOnly, S::Input))
        .push(row(1818, "gw_p_aio3_inverter"@, C::Gateway, T::U16, 1_000_000, A::ReadOnly, S::Input))
}

/// IR 1700-1818: gateway units.
fn put_gateway_units(v: &mut Vec<RegisterDef>)
    ensures
        registers::definitions_of(final(v)@) == gateway_units_rows(registers::definitions_of(old(v)@)),
{
    reveal(gateway_units_rows);
    put(v, 1700, "gw_parallel_aio_num", C::Gateway, T::U16, 1_000_000, A::ReadOnly, S::Input);
    put(v, 1701, "gw_parallel_aio_online_num", C::Gateway, T::U16, 1_000_000, A::ReadOnly, S::Input);
    put(v, 1702, "gw_p_aio_total", C::Gateway, T::U16, 1_000_000, A::ReadOnly, S::Input);
    put(v, 1703, "gw_aio_state", C::Gateway, T::U16, 1_000_000, A::ReadOnly, S::Input);
    put(v, 1704, "gw_battery_firmware", C::Gateway, T::U16, 1_000_000, A::ReadOnly, S::Input);
    put(v, 1705, "gw_e_aio1_charge_today", C::Gateway, T::U16, 100_000, A::ReadOnly, S::Input);
    put(v, 1706, "gw_e_aio1_charge_total_hi", C::Gateway, T::U16, 100_000, A::ReadOnly, S::Input);
    put(v, 1707, "gw_e_aio1_charge_total_lo", C::Gateway, T::U16, 100_000, A::ReadOnly, S::Input);
    put(v, 1708, "gw_e_aio2_charge_today", C::Gateway, T::U16, 100_000, A::ReadOnly, S::Input);
    put(v, 1709, "gw_e_aio2_charge_total_hi", C::Gateway, T::U16, 100_000, A::ReadOnly, S::Input);
    put(v, 1710, "gw_e_aio2_charge_total_lo", C::Gateway, T::U16, 100_000, A::ReadOnly, S::Input);
    put(v, 1711, "gw_e_aio3_charge_today", C::Gateway, T::U16, 100_000, A::ReadOnly, S::Input);
    put(v, 1712, "gw_e_aio3_charge_total_hi", C::Gateway, T::U16, 100_000, A::ReadOnly, S::Input);
    put(v, 1713, "gw_e_aio3_charge_total_lo", C::Gateway, T::U16, 100_000, A::ReadOnly, S::Input);
    put(v, 1750, "gw_e_aio1_discharge_today", C::Gateway, T::U16, 100_000, A::ReadOnly, S::Input);
    put(v, 1751, "gw_e_aio1_discharge_total_hi", C::Gateway, T::U16, 100_000, A::ReadOnly, S::Input);
    put(v, 1752, "gw_e_aio1_discharge_total_lo", C::Gateway, T::U16, 100_000, A::ReadOnly, S::Input);
    put(v, 1753, "gw_e_aio2_discharge_today", C::Gateway, T::U16, 100_000, A::ReadOnly, S::Input);
    put(v, 1754, "gw_e_aio2_discharge_total_hi", C::Gateway, T::U16, 100_000, A::ReadOnly, S::Input);
    put(v, 1755, "gw_e_aio2_discharge_total_lo", C::Gateway, T::U16, 100_000, A::ReadOnly, S::Input);
    put(v, 1756, "gw_e_aio3_discharge_today", C::Gateway, T::U16, 100_000, A::ReadOnly, S::Input);
    put(v, 1757, "gw_e_aio3_discharge_total_hi", C::Gateway, T::U16, 100_000, A::ReadOnly, S::Input);
    put(v, 1758, "gw_e_aio3_discharge_total_lo", C::Gateway, T::U16, 100_000, A::ReadOnly, S::Input);
    put(v, 1795, "gw_e_battery_charge_today", C::Gateway, T::U16, 100_000, A::ReadOnly, S::Input);
    put(v, 1796, "gw_e_battery_charge_total_hi", C::Gateway, T::U16, 100_000, A::ReadOnly, S::Input);
    put(v, 1797, "gw_e_battery_charge_total_lo", C::Gateway, T::U16, 100_000, A::ReadOnly, S::Input);
    put(v, 1798, "gw_e_battery_discharge_today", C::Gateway, T::U16, 100_000, A::ReadOnly, S::Input);
    put(v, 1799, "gw_e_battery_discharge_total_hi", C::Gateway, T::U16, 100_000, A::ReadOnly, S::Input);
    put(v, 1800, "gw_e_battery_discharge_total_lo", C::Gateway, T::U16, 100_000, A::ReadOnly, S::Input);
    put(v, 1801, "gw_aio1_soc", C::Gateway, T::U16, 1_000_000, A::ReadOnly, S::Input);
    put(v, 1802, "gw_aio2_soc", C::Gateway, T::U16, 1_000_000, A::ReadOnly, S::Input);
    put(v, 1803, "gw_aio3_soc", C::Gateway, T::U16, 1_000_000, A::ReadOnly, S::Input);
    put(v, 1816, "gw_p_aio1_inverter", C::Gateway, T::U16, 1_000_000, A::ReadOnly, S::Input);
    put(v, 1817, "gw_p_aio2_inverter", C::Gateway, T::U16, 1_000_000, A::ReadOnly, S::Input);
    put(v, 1818, "gw_p_aio3_inverter", C::Gateway, T::U16, 1_000_000, A::ReadOnly, S::Input);
}

/// IR 1831-1859: gateway serials, for both firmware variants.
#[verifier::opaque]
pub open spec fn gateway_serials_rows(base: Seq<Definition>) -> Seq<Definition> {
    base
        .push(row(1831, "gw_serial_1831"@, C::Gateway, T::U16, 1_000_000, A::ReadOnly, S::Input))
        .push(row(1832, "gw_serial_1832"@, C::Gateway, T::U16, 1_000_000, A::ReadOnly, S::Input))
        .push(row(1833, "gw_serial_1833"@, C::Gateway, T::U16, 1_000_000, A::ReadOnly, S::Input))
        .push(row(1834, "gw_serial_1834"@, C::Gateway, T::U16, 1_000_000, A::ReadOnly, S::Input))
        .push(row(1835, "gw_serial_1835"@, C::Gateway, T::U16, 1_000_000, A::ReadOnly, S::Input))
        .push(row(1836, "gw_serial_1836"@, C::Gateway, T::U16, 1_000_000, A::ReadOnly, S::Input))
        .push(row(1837, "gw_serial_1837"@, C::Gateway, T::U16, 1_000_000, A::ReadOnly, S::Input))
        .push(row(1838, "gw_serial_1838"@, C::Gateway, T::U16, 1_000_000, A::ReadOnly, S::Input))
        .push(row(1839, "gw_serial_1839"@, C::Gateway, T::U16, 1_000_000, A::ReadOnly, S::Input))
        .push(row(1840, "gw_serial_1840"@, C::Gateway, T::U16, 1_000_000, A::ReadOnly, S::Input))
        .push(row(1841, "gw_serial_1841"@, C::Gateway, T::U16, 1_000_000, A::ReadOnly, S::Input))
        .push(row(1842, "gw_serial_1842"@, C::Gateway, T::U16, 1_000_000, A::ReadOnly, S::Input))
        .push(row(1843, "gw_serial_1843"@, C::Gateway, T::U16, 1_000_000, A::ReadOnly, S::Input))
        .push(row(1844, "gw_serial_1844"@, C::Gateway, T::U16, 1_000_000, A::ReadOnly, S::Input))
        .push(row(1845, "gw_serial_1845"@, C::Gateway, T::U16, 1_000_000, A::ReadOnly, S::Input))
        .push(row(1846, "gw_serial_1846"@, C::Gateway, T::U16, 1_000_000, A::ReadOnly, S::Input))
        .push(row(1847, "gw_serial_1847"@, C::Gateway, T::U16, 1_000_000, A::ReadOnly, S::Input))
        .push(row(1848, "gw_serial_1848"@, C::Gateway, T::U16, 1_000_000, A::ReadOnly, S::Input))
        .push(row(1849, "gw_serial_1849"@, C::Gateway, T::U16, 1_000_000, A::ReadOnly, S::Input))
        .push(row(1850, "gw_serial_1850"@, C::Gateway, T::U16, 1_000_000, A::ReadOnly, S::Input))
        .push(row(1851, "gw_serial_1851"@, C::Gateway, T::U16, 1_000_000, A::ReadOnly, S::Input))
        .push(row(1852, "gw_serial_1852"@, C::Gateway, T::U16, 1_000_000, A::ReadOnly, S::Input))
        .push(row(1853, "gw_serial_1853"@, C::Gateway, T::U16, 1_000_000, A::ReadOnly, S::Input))
        .push(row(1854, "gw_serial_1854"@, C::Gateway, T::U16, 1_000_000, A::ReadOnly, S::Input))
        .push(row(1855, "gw_serial_1855"@, C::Gateway, T::U16, 1_000_000, A::ReadOnly, S::Input))
        .push(row(1856, "gw_serial_1856"@, C::Gateway, T::U16, 1_000_000, A::ReadOnly, S::Input))
        .push(row(1857, "gw_serial_1857"@, C::Gateway, T::U16, 1_000_000, A::ReadOnly, S::Input))
        .push(row(1858, "gw_serial_1858"@, C::Gateway, T::U16, 1_000_000, A::ReadOnly, S::Input))
        .push(row(1859, "gw_serial_1859"@, C::Gateway, T::U16, 1_000_000, A::ReadOnly, S::Input))
}

/// IR 1831-1859: gateway serials, for both firmware variants.
fn put_gateway_serials(v: &mut Vec<RegisterDef>)
    ensures
        registers::definitions_of(final(v)@) == gateway_serials_rows(registers::definitions_of(old(v)@)),
{
    reveal(gateway_serials_rows);
    put(v, 1831, "gw_serial_1831", C::Gateway, T::U16, 1_000_000, A::ReadOnly, S::Input);
    put(v, 1832, "gw_serial_1832", C::Gateway, T::U16, 1_000_000, A::ReadOnly, S::Input);
    put(v, 1833, "gw_serial_1833", C::Gateway, T::U16, 1_000_000, A::ReadOnly, S::Input);
    put(v, 1834, "gw_serial_1834", C::Gateway, T::U16, 1_000_000, A::ReadOnly, S::Input);
    put(v, 1835, "gw_serial_1835", C::Gateway, T::U16, 1_000_000, A::ReadOnly, S::Input);
    put(v, 1836, "gw_serial_1836", C::Gateway, T::U16, 1_000_000, A::ReadOnly, S::Input);
    put(v, 1837, "gw_serial_1837", C::Gateway, T::U16, 1_000_000, A::ReadOnly, S::Input);
    put(v, 1838, "gw_serial_1838", C::Gateway, T::U16, 1_000_000, A::ReadOnly, S::Input);
    put(v, 1839, "gw_serial_1839", C::Gateway, T::U16, 1_000_000, A::ReadOnly, S::Input);
    put(v, 1840, "gw_serial_1840", C::Gateway, T::U16, 1_000_000, A::ReadOnly, S::Input);
    put(v, 1841, "gw_serial_1841", C::Gateway, T::U16, 1_000_000, A::ReadOnly, S::Input);
    put(v, 1842, "gw_serial_1842", C::Gateway, T::U16, 1_000_000, A::ReadOnly, S::Input);
    put(v, 1843, "gw_serial_1843", C::Gateway, T::U16, 1_000_000, A::ReadOnly, S::Input);
    put(v, 1844, "gw_serial_1844", C::Gateway, T::U16, 1_000_000, A::ReadOnly, S::Input);
    put(v, 1845, "gw_serial_1845", C::Gateway, T::U16, 1_000_000, A::ReadOnly, S::Input);
    put(v, 1846, "gw_serial_1846", C::Gateway, T::U16, 1_000_000, A::ReadOnly, S::Input);
    put(v, 1847, "gw_serial_1847", C::Gateway, T::U16, 1_000_000, A::ReadOnly, S::Input);
    put(v, 1848, "gw_serial_1848", C::Gateway, T::U16, 1_000_000, A::ReadOnly, S::Input);
    put(v, 1849, "gw_serial_1849", C::Gateway, T::U16, 1_000_000, A::ReadOnly, S::Input);
    put(v, 1850, "gw_serial_1850", C::Gateway, T::U16, 1_000_000, A::ReadOnly, S::Input);
    put(v, 1851, "gw_serial_1851", C::Gateway, T::U16, 1_000_000, A::ReadOnly, S::Input);
    put(v, 1852, "gw_serial_1852", C::Gateway, T::U16, 1_000_000, A::ReadOnly, S::Input);
    put(v, 1853, "gw_serial_1853", C::Gateway, T::U16, 1_000_000, A::ReadOnly, S::Input);
    put(v, 1854, "gw_serial_1854", C::Gateway, T::U16, 1_000_000, A::ReadOnly, S::Input);
    put(v, 1855, "gw_serial_1855", C::Gateway, T::U16, 1_000_000, A::ReadOnly, S::Input);
    put(v, 1856, "gw_serial_1856", C::Gateway, T::U16, 1_000_000, A::ReadOnly, S::Input);
    put(v, 1857, "gw_serial_1857", C::Gateway, T::U16, 1_000_000, A::ReadOnly, S::Input);
    put(v, 1858, "gw_serial_1858", C::Gateway, T::U16, 1_000_000, A::ReadOnly, S::Input);
    put(v, 1859, "gw_serial_1859", C::Gateway, T::U16, 1_000_000, A::ReadOnly, S::Input);
}

/// The whole catalogue.
pub open spec fn catalogue() -> Seq<Definition> {
    let d = Seq::<Definition>::empty();
    let d = native_telemetry_rows(d);
    let d = native_totals_rows(d);
    let d = meter_rows(d);
    let d = native_identity_rows(d);
    let d = native_settings_rows(d);
    let d = native_flags_rows(d);
    let d = charge_slots_rows(d);
    let d = discharge_slots_rows(d);
    let d = three_phase_holding_rows(d);
    let d = three_phase_power_rows(d);
    let d = three_phase_energy_rows(d);
    let d = ems_holding_rows(d);
    let d = ems_input_rows(d);
    let d = smart_load_rows(d);
    let d = internal_rows(d);
    let d = three_phase_faults_rows(d);
    let d = gateway_system_rows(d);
    let d = gateway_units_rows(d);
    let d = gateway_serials_rows(d);
    d
}

/// The catalogue of all registers.
pub fn default_register_catalogue() -> (r: Vec<RegisterDef>)
    ensures
        registers::definitions_of(r@) == catalogue(),
        well_formed(registers::definitions_of(r@)),
        r@.len() == 639,
{
    let mut v: Vec<RegisterDef> = Vec::new();
    assert(registers::definitions_of(v@) =~= Seq::<Definition>::empty());
    put_native_telemetry(&mut v);
    put_native_totals(&mut v);
    put_meter(&mut v);
    put_native_identity(&mut v);
    put_native_settings(&mut v);
    put_native_flags(&mut v);
    put_charge_slots(&mut v);
    put_discharge_slots(&mut v);
    put_three_phase_holding(&mut v);
    put_three_phase_power(&mut v);
    put_three_phase_energy(&mut v);
    put_ems_holding(&mut v);
    put_ems_input(&mut v);
    put_smart_load(&mut v);
    put_internal(&mut v);
    put_three_phase_faults(&mut v);
    put_gateway_system(&mut v);
    put_gateway_units(&mut v);
    put_gateway_serials(&mut v);
    proof {
        law_catalogue_well_formed();
    }
    v
}

/// The place in the catalogue of the register with storage key `key`.
pub open spec fn place(key: int) -> int {
    if 0 <= key <= 4 {
        key
    } else if 5 <= key <= 9 {
        key + 29
    } else if key == 10 {
        5
    } else if 11 <= key <= 13 {
        key + 28
    } else if 14 <= key <= 16 {
        key - 8
    } else if 17 <= key <= 22 {
        key + 25
    } else if 23 <= key <= 24 {
        key - 14
    } else if 25 <= key <= 26 {
        key + 23
    } else if 27 <= key <= 29 {
        key - 16
    } else if key == 30 {
        50
    } else if key == 31 {
        14
    } else if 32 <= key <= 33 {
        key + 19
    } else if 35 <= key <= 37 {
        key + 18
    } else if 38 <= key <= 40 {
        key - 23
    } else if key == 41 {
        56
    } else if 42 <= key <= 43 {
        key - 24
    } else if 44 <= key <= 46 {
        key + 13
    } else if 47 <= key <= 49 {
        key - 27
    } else if 50 <= key <= 52 {
        key + 10
    } else if 53 <= key <= 55 {
        key - 30
    } else if key == 56 {
        63
    } else if 57 <= key <= 58 {
        key - 31
    } else if 59 <= key <= 89 {
        key + 5
    } else if 180 <= key <= 183 {
        key - 152
    } else if 247 <= key <= 248 {
        key - 215
    } else if 1001 <= key <= 1002 {
        key - 728
    } else if 1009 <= key <= 1010 {
        key - 734
    } else if 1017 <= key <= 1020 {
        key - 740
    } else if 1061 <= key <= 1070 {
        key - 780
    } else if 1073 <= key <= 1076 {
        key - 782
    } else if 1079 <= key <= 1085 {
        key - 784
    } else if 1089 <= key <= 1090 {
        key - 787
    } else if key == 1124 {
        304
    } else if 1128 <= key <= 1131 {
        key - 823
    } else if key == 1132 {
        312
    } else if 1133 <= key <= 1135 {
        key - 824
    } else if 1136 <= key <= 1140 {
        key - 823
    } else if 1180 <= key <= 1183 {
        key - 862
    } else if 1240 <= key <= 1241 {
        key - 918
    } else if 1244 <= key <= 1245 {
        key - 920
    } else if 1300 <= key <= 1307 {
        key - 776
    } else if 1325 <= key <= 1327 {
        key - 999
    } else if 1360 <= key <= 1363 {
        key - 1017
    } else if 1366 <= key <= 1367 {
        key - 1037
    } else if 1368 <= key <= 1369 {
        key - 1021
    } else if 1370 <= key <= 1371 {
        key - 1039
    } else if 1372 <= key <= 1379 {
        key - 1023
    } else if 1380 <= key <= 1381 {
        key - 1047
    } else if 1382 <= key <= 1383 {
        key - 1025
    } else if 1384 <= key <= 1385 {
        key - 1049
    } else if 1386 <= key <= 1387 {
        key - 1027
    } else if 1388 <= key <= 1389 {
        key - 1051
    } else if 1390 <= key <= 1391 {
        key - 1029
    } else if 1392 <= key <= 1393 {
        key - 1053
    } else if 1394 <= key <= 1395 {
        key - 1031
    } else if 1396 <= key <= 1397 {
        key - 1055
    } else if 1398 <= key <= 1403 {
        key - 1033
    } else if 1412 <= key <= 1413 {
        key - 1041
    } else if 1600 <= key <= 1604 {
        key - 1068
    } else if 1608 <= key <= 1612 {
        key - 1071
    } else if 1616 <= key <= 1625 {
        key - 1074
    } else if 1627 <= key <= 1631 {
        key - 1075
    } else if 1640 <= key <= 1657 {
        key - 1083
    } else if 1700 <= key <= 1713 {
        key - 1125
    } else if 1750 <= key <= 1758 {
        key - 1161
    } else if 1795 <= key <= 1803 {
        key - 1197
    } else if 1816 <= key <= 1818 {
        key - 1209
    } else if 1831 <= key <= 1859 {
        key - 1221
    } else if 2040 <= key <= 2066 {
        key - 1631
    } else if key == 2071 {
        443
    } else if key == 2076 {
        444
    } else if key == 2081 {
        445
    } else if 2086 <= key <= 2091 {
        key - 1650
    } else if key == 2094 {
        442
    } else if 10000 <= key <= 10003 {
        key - 9905
    } else if 10007 <= key <= 10032 {
        key - 9908
    } else if 10033 <= key <= 10034 {
        key - 9902
    } else if 10035 <= key <= 10040 {
        key - 9910
    } else if 10041 <= key <= 10062 {
        key - 9908
    } else if 10094 <= key <= 10098 {
        key - 9939
    } else if 10100 <= key <= 10104 {
        key - 9624
    } else if key == 10105 {
        160
    } else if 10108 <= key <= 10112 {
        key - 9947
    } else if 10113 <= key <= 10115 {
        key - 9946
    } else if key == 10116 {
        166
    } else if 10117 <= key <= 10128 {
        key - 9947
    } else if key == 10163 {
        202
    } else if 10166 <= key <= 10171 {
        key - 9984
    } else if key == 10172 {
        481
    } else if 10175 <= key <= 10179 {
        key - 9987
    } else if key == 10199 {
        193
    } else if 10200 <= key <= 10214 {
        key - 9718
    } else if 10223 <= key <= 10224 {
        key - 9726
    } else if 10242 <= key <= 10245 {
        key - 10048
    } else if 10246 <= key <= 10269 {
        key - 10040
    } else if key == 10272 {
        198
    } else if key == 10275 {
        199
    } else if 10276 <= key <= 10299 {
        key - 10046
    } else if 10300 <= key <= 10304 {
        key - 9801
    } else if key == 10311 {
        254
    } else if 10313 <= key <= 10314 {
        key - 10113
    } else if key == 10317 {
        255
    } else if 10318 <= key <= 10320 {
        key - 10115
    } else if 10400 <= key <= 10404 {
        key - 9896
    } else if 10500 <= key <= 10505 {
        key - 9991
    } else if 10554 <= key <= 10573 {
        key - 10108
    } else if 10600 <= key <= 10602 {
        key - 10085
    } else if 10700 <= key <= 10705 {
        key - 10182
    } else if key == 11063 {
        256
    } else if key == 11078 {
        257
    } else if 11108 <= key <= 11116 {
        key - 10850
    } else if 11118 <= key <= 11123 {
        key - 10851
    } else if 12040 <= key <= 12075 {
        key - 11667
    } else if 14107 <= key <= 14114 {
        key - 13641
    } else if 14141 <= key <= 14142 {
        key - 13667
    } else {
        -1
    }
}

/// Whether the definitions stand at their places, with addresses below the
/// holding offset and fault words where the projection finds them.
pub open spec fn well_formed(defs: Seq<Definition>) -> bool {
    forall|i: int| 0 <= i < defs.len() ==> stands_at(#[trigger] defs[i], i)
}

/// Whether `d` stands at place `i`.
pub open spec fn stands_at(d: Definition, i: int) -> bool {
    &&& place(d.key()) == i
    &&& 0 <= d.address < registers::HOLDING_OFFSET
    &&& d.scale > 0
    &&& projection::placeable(d)
}

/// Whether `longer` begins with the definitions of `base`.
pub open spec fn extends(longer: Seq<Definition>, base: Seq<Definition>) -> bool {
    &&& base.len() <= longer.len()
    &&& forall|i: int| 0 <= i < base.len() ==> #[trigger] longer[i] == base[i]
}

/// A name that differs from the fault words in length, or in one of the
/// characters tested, is no fault word.
proof fn lemma_other_name(name: Seq<char>)
    requires
        name.len() != 24 || name[0] != 'g' || name[3] != 'i' || name[6] != 't' || name[7] != 'h',
    ensures
        !projection::three_phase::is_fault_register(name),
{
    reveal_strlit("ge_ir_threephase_fault_0");
    reveal_strlit("ge_ir_threephase_fault_1");
    reveal_strlit("ge_ir_threephase_fault_2");
    reveal_strlit("ge_ir_threephase_fault_3");
    reveal_strlit("ge_ir_threephase_fault_4");
    reveal_strlit("ge_ir_threephase_fault_5");
    reveal_strlit("ge_ir_threephase_fault_6");
    reveal_strlit("ge_ir_threephase_fault_7");
}

/// IR 0-58, 180-183 and 247-248: native telemetry: the block keeps the form.
proof fn lemma_native_telemetry(base: Seq<Definition>)
    requires
        well_formed(base),
        base.len() == 0,
    ensures
        well_formed(native_telemetry_rows(base)),
        native_telemetry_rows(base).len() == 34,
        extends(native_telemetry_rows(base), base),
{
    reveal(native_telemetry_rows);
    reveal_strlit("ge_ir_status");
    lemma_other_name("ge_ir_status"@);
    reveal_strlit("ge_ir_pv1_voltage");
    lemma_other_name("ge_ir_pv1_voltage"@);
    reveal_strlit("ge_ir_pv2_voltage");
    lemma_other_name("ge_ir_pv2_voltage"@);
    reveal_strlit("ge_ir_p_bus_voltage");
    lemma_other_name("ge_ir_p_bus_voltage"@);
    reveal_strlit("ge_ir_n_bus_voltage");
    lemma_other_name("ge_ir_n_bus_voltage"@);
    reveal_strlit("ge_ir_ac_current");
    lemma_other_name("ge_ir_ac_current"@);
    reveal_strlit("ge_ir_charge_status");
    lemma_other_name("ge_ir_charge_status"@);
    reveal_strlit("ge_ir_high_bus_voltage");
    lemma_other_name("ge_ir_high_bus_voltage"@);
    reveal_strlit("ge_ir_inverter_output_pf");
    lemma_other_name("ge_ir_inverter_output_pf"@);
    reveal_strlit("ge_ir_solar_diverter_energy");
    lemma_other_name("ge_ir_solar_diverter_energy"@);
    reveal_strlit("ge_ir_inverter_terminal_power");
    lemma_other_name("ge_ir_inverter_terminal_power"@);
    reveal_strlit("ge_ir_inverter_input_total_high");
    lemma_other_name("ge_ir_inverter_input_total_high"@);
    reveal_strlit("ge_ir_inverter_input_total_low");
    lemma_other_name("ge_ir_inverter_input_total_low"@);
    reveal_strlit("ge_ir_discharge_year");
    lemma_other_name("ge_ir_discharge_year"@);
    reveal_strlit("ge_ir_eps_backup_power");
    lemma_other_name("ge_ir_eps_backup_power"@);
    reveal_strlit("ge_ir_countdown");
    lemma_other_name("ge_ir_countdown"@);
    reveal_strlit("ge_ir_fault_code_high");
    lemma_other_name("ge_ir_fault_code_high"@);
    reveal_strlit("ge_ir_fault_code_low");
    lemma_other_name("ge_ir_fault_code_low"@);
    reveal_strlit("ge_ir_load_demand");
    lemma_other_name("ge_ir_load_demand"@);
    reveal_strlit("ge_ir_grid_apparent");
    lemma_other_name("ge_ir_grid_apparent"@);
    reveal_strlit("ge_ir_work_time_total_high");
    lemma_other_name("ge_ir_work_time_total_high"@);
    reveal_strlit("ge_ir_work_time_total_low");
    lemma_other_name("ge_ir_work_time_total_low"@);
    reveal_strlit("ge_ir_system_mode");
    lemma_other_name("ge_ir_system_mode"@);
    reveal_strlit("ge_ir_eps_voltage");
    lemma_other_name("ge_ir_eps_voltage"@);
    reveal_strlit("ge_ir_eps_frequency");
    lemma_other_name("ge_ir_eps_frequency"@);
    reveal_strlit("ge_ir_charger_temperature");
    lemma_other_name("ge_ir_charger_temperature"@);
    reveal_strlit("ge_ir_charger_warning_code");
    lemma_other_name("ge_ir_charger_warning_code"@);
    reveal_strlit("ge_ir_grid_port_current");
    lemma_other_name("ge_ir_grid_port_current"@);
    reveal_strlit("ge_ir_battery_discharge_total_alt1");
    lemma_other_name("ge_ir_battery_discharge_total_alt1"@);
    reveal_strlit("ge_ir_battery_charge_total_alt1");
    lemma_other_name("ge_ir_battery_charge_total_alt1"@);
    reveal_strlit("ge_ir_battery_discharge_today_alt2");
    lemma_other_name("ge_ir_battery_discharge_today_alt2"@);
    reveal_strlit("ge_ir_battery_charge_today_alt2");
    lemma_other_name("ge_ir_battery_charge_today_alt2"@);
    reveal_strlit("ge_ir_combined_generation_high");
    lemma_other_name("ge_ir_combined_generation_high"@);
    reveal_strlit("ge_ir_combined_generation_low");
    lemma_other_name("ge_ir_combined_generation_low"@);
}

/// IR 5-59: native readings and totals: the block keeps the form.
proof fn lemma_native_totals(base: Seq<Definition>)
    requires
        well_formed(base),
        base.len() == 34,
    ensures
        well_formed(native_totals_rows(base)),
        native_totals_rows(base).len() == 65,
        extends(native_totals_rows(base), base),
{
    reveal(native_totals_rows);
    reveal_strlit("ge_ir_grid_voltage");
    lemma_other_name("ge_ir_grid_voltage"@);
    reveal_strlit("ge_ir_battery_throughput_high");
    lemma_other_name("ge_ir_battery_throughput_high"@);
    reveal_strlit("ge_ir_battery_throughput_low");
    lemma_other_name("ge_ir_battery_throughput_low"@);
    reveal_strlit("ge_ir_pv1_current");
    lemma_other_name("ge_ir_pv1_current"@);
    reveal_strlit("ge_ir_pv2_current");
    lemma_other_name("ge_ir_pv2_current"@);
    reveal_strlit("ge_ir_pv_total_high");
    lemma_other_name("ge_ir_pv_total_high"@);
    reveal_strlit("ge_ir_pv_total_low");
    lemma_other_name("ge_ir_pv_total_low"@);
    reveal_strlit("ge_ir_grid_frequency");
    lemma_other_name("ge_ir_grid_frequency"@);
    reveal_strlit("ge_ir_pv1_energy_today");
    lemma_other_name("ge_ir_pv1_energy_today"@);
    reveal_strlit("ge_ir_pv1_power");
    lemma_other_name("ge_ir_pv1_power"@);
    reveal_strlit("ge_ir_pv2_energy_today");
    lemma_other_name("ge_ir_pv2_energy_today"@);
    reveal_strlit("ge_ir_pv2_power");
    lemma_other_name("ge_ir_pv2_power"@);
    reveal_strlit("ge_ir_grid_export_total_high");
    lemma_other_name("ge_ir_grid_export_total_high"@);
    reveal_strlit("ge_ir_grid_export_total_low");
    lemma_other_name("ge_ir_grid_export_total_low"@);
    reveal_strlit("ge_ir_today_export_energy");
    lemma_other_name("ge_ir_today_export_energy"@);
    reveal_strlit("ge_ir_today_import_energy");
    lemma_other_name("ge_ir_today_import_energy"@);
    reveal_strlit("ge_ir_grid_power");
    lemma_other_name("ge_ir_grid_power"@);
    reveal_strlit("ge_ir_grid_import_total_high");
    lemma_other_name("ge_ir_grid_import_total_high"@);
    reveal_strlit("ge_ir_grid_import_total_low");
    lemma_other_name("ge_ir_grid_import_total_low"@);
    reveal_strlit("ge_ir_ac_charge_today");
    lemma_other_name("ge_ir_ac_charge_today"@);
    reveal_strlit("ge_ir_today_charge_energy");
    lemma_other_name("ge_ir_today_charge_energy"@);
    reveal_strlit("ge_ir_today_discharge_energy");
    lemma_other_name("ge_ir_today_discharge_energy"@);
    reveal_strlit("ge_ir_inverter_temperature");
    lemma_other_name("ge_ir_inverter_temperature"@);
    reveal_strlit("ge_ir_pv_generation_today");
    lemma_other_name("ge_ir_pv_generation_today"@);
    reveal_strlit("ge_ir_pv_generation_total_high");
    lemma_other_name("ge_ir_pv_generation_total_high"@);
    reveal_strlit("ge_ir_pv_generation_total_low");
    lemma_other_name("ge_ir_pv_generation_total_low"@);
    reveal_strlit("ge_ir_battery_voltage");
    lemma_other_name("ge_ir_battery_voltage"@);
    reveal_strlit("ge_ir_battery_current");
    lemma_other_name("ge_ir_battery_current"@);
    reveal_strlit("ge_ir_battery_power");
    lemma_other_name("ge_ir_battery_power"@);
    reveal_strlit("ge_ir_battery_temperature");
    lemma_other_name("ge_ir_battery_temperature"@);
    reveal_strlit("ge_ir_battery_soc");
    lemma_other_name("ge_ir_battery_soc"@);
}

/// IR 60-89: the CT clamp meter: the block keeps the form.
proof fn lemma_meter(base: Seq<Definition>)
    requires
        well_formed(base),
        base.len() == 65,
    ensures
        well_formed(meter_rows(base)),
        meter_rows(base).len() == 95,
        extends(meter_rows(base), base),
{
    reveal(meter_rows);
    reveal_strlit("meter_v_phase_1");
    lemma_other_name("meter_v_phase_1"@);
    reveal_strlit("meter_v_phase_2");
    lemma_other_name("meter_v_phase_2"@);
    reveal_strlit("meter_v_phase_3");
    lemma_other_name("meter_v_phase_3"@);
    reveal_strlit("meter_i_phase_1");
    lemma_other_name("meter_i_phase_1"@);
    reveal_strlit("meter_i_phase_2");
    lemma_other_name("meter_i_phase_2"@);
    reveal_strlit("meter_i_phase_3");
    lemma_other_name("meter_i_phase_3"@);
    reveal_strlit("meter_i_ln");
    lemma_other_name("meter_i_ln"@);
    reveal_strlit("meter_i_total");
    lemma_other_name("meter_i_total"@);
    reveal_strlit("meter_p_active_phase_1");
    lemma_other_name("meter_p_active_phase_1"@);
    reveal_strlit("meter_p_active_phase_2");
    lemma_other_name("meter_p_active_phase_2"@);
    reveal_strlit("meter_p_active_phase_3");
    lemma_other_name("meter_p_active_phase_3"@);
    reveal_strlit("meter_p_active_total");
    lemma_other_name("meter_p_active_total"@);
    reveal_strlit("meter_p_reactive_phase_1");
    lemma_other_name("meter_p_reactive_phase_1"@);
    reveal_strlit("meter_p_reactive_phase_2");
    lemma_other_name("meter_p_reactive_phase_2"@);
    reveal_strlit("meter_p_reactive_phase_3");
    lemma_other_name("meter_p_reactive_phase_3"@);
    reveal_strlit("meter_p_reactive_total");
    lemma_other_name("meter_p_reactive_total"@);
    reveal_strlit("meter_p_apparent_phase_1");
    lemma_other_name("meter_p_apparent_phase_1"@);
    reveal_strlit("meter_p_apparent_phase_2");
    lemma_other_name("meter_p_apparent_phase_2"@);
    reveal_strlit("meter_p_apparent_phase_3");
    lemma_other_name("meter_p_apparent_phase_3"@);
    reveal_strlit("meter_p_apparent_total");
    lemma_other_name("meter_p_apparent_total"@);
    reveal_strlit("meter_pf_phase_1");
    lemma_other_name("meter_pf_phase_1"@);
    reveal_strlit("meter_pf_phase_2");
    lemma_other_name("meter_pf_phase_2"@);
    reveal_strlit("meter_pf_phase_3");
    lemma_other_name("meter_pf_phase_3"@);
    reveal_strlit("meter_pf_total");
    lemma_other_name("meter_pf_total"@);
    reveal_strlit("meter_frequency");
    lemma_other_name("meter_frequency"@);
    reveal_strlit("meter_e_import_active");
    lemma_other_name("meter_e_import_active"@);
    reveal_strlit("meter_e_import_reactive");
    lemma_other_name("meter_e_import_reactive"@);
    reveal_strlit("meter_e_export_active");
    lemma_other_name("meter_e_export_active"@);
    reveal_strlit("meter_e_export_reactive");
    lemma_other_name("meter_e_export_reactive"@);
    reveal_strlit("meter_reserved");
    lemma_other_name("meter_reserved"@);
}

/// HR 0-40: identity, clock and slots: the block keeps the form.
proof fn lemma_native_identity(base: Seq<Definition>)
    requires
        well_formed(base),
        base.len() == 95,
    ensures
        well_formed(native_identity_rows(base)),
        native_identity_rows(base).len() == 133,
        extends(native_identity_rows(base), base),
{
    reveal(native_identity_rows);
    reveal_strlit("ge_hr_device_type");
    lemma_other_name("ge_hr_device_type"@);
    reveal_strlit("ge_hr_module_high");
    lemma_other_name("ge_hr_module_high"@);
    reveal_strlit("ge_hr_module_low");
    lemma_other_name("ge_hr_module_low"@);
    reveal_strlit("ge_hr_mppt_phase_count");
    lemma_other_name("ge_hr_mppt_phase_count"@);
    reveal_strlit("ge_hr_enable_ammeter");
    lemma_other_name("ge_hr_enable_ammeter"@);
    reveal_strlit("ge_hr_first_battery_serial_0");
    lemma_other_name("ge_hr_first_battery_serial_0"@);
    reveal_strlit("ge_hr_first_battery_serial_1");
    lemma_other_name("ge_hr_first_battery_serial_1"@);
    reveal_strlit("ge_hr_first_battery_serial_2");
    lemma_other_name("ge_hr_first_battery_serial_2"@);
    reveal_strlit("ge_hr_first_battery_serial_3");
    lemma_other_name("ge_hr_first_battery_serial_3"@);
    reveal_strlit("ge_hr_first_battery_serial_4");
    lemma_other_name("ge_hr_first_battery_serial_4"@);
    reveal_strlit("ge_hr_serial_0");
    lemma_other_name("ge_hr_serial_0"@);
    reveal_strlit("ge_hr_serial_1");
    lemma_other_name("ge_hr_serial_1"@);
    reveal_strlit("ge_hr_serial_2");
    lemma_other_name("ge_hr_serial_2"@);
    reveal_strlit("ge_hr_serial_3");
    lemma_other_name("ge_hr_serial_3"@);
    reveal_strlit("ge_hr_serial_4");
    lemma_other_name("ge_hr_serial_4"@);
    reveal_strlit("ge_hr_first_battery_bms_firmware");
    lemma_other_name("ge_hr_first_battery_bms_firmware"@);
    reveal_strlit("ge_hr_dsp_firmware");
    lemma_other_name("ge_hr_dsp_firmware"@);
    reveal_strlit("ge_hr_enable_charge_target");
    lemma_other_name("ge_hr_enable_charge_target"@);
    reveal_strlit("ge_hr_arm_firmware");
    lemma_other_name("ge_hr_arm_firmware"@);
    reveal_strlit("ge_hr_usb_device_inserted");
    lemma_other_name("ge_hr_usb_device_inserted"@);
    reveal_strlit("ge_hr_select_arm_chip");
    lemma_other_name("ge_hr_select_arm_chip"@);
    reveal_strlit("ge_hr_variable_address");
    lemma_other_name("ge_hr_variable_address"@);
    reveal_strlit("ge_hr_variable_value");
    lemma_other_name("ge_hr_variable_value"@);
    reveal_strlit("ge_hr_grid_port_max_power_output");
    lemma_other_name("ge_hr_grid_port_max_power_output"@);
    reveal_strlit("ge_hr_battery_power_mode");
    lemma_other_name("ge_hr_battery_power_mode"@);
    reveal_strlit("ge_hr_enable_60hz_freq_mode");
    lemma_other_name("ge_hr_enable_60hz_freq_mode"@);
    reveal_strlit("ge_hr_battery_calibration_stage");
    lemma_other_name("ge_hr_battery_calibration_stage"@);
    reveal_strlit("ge_hr_modbus_address");
    lemma_other_name("ge_hr_modbus_address"@);
    reveal_strlit("ge_hr_charge_slot_2_start");
    lemma_other_name("ge_hr_charge_slot_2_start"@);
    reveal_strlit("ge_hr_charge_slot_2_end");
    lemma_other_name("ge_hr_charge_slot_2_end"@);
    reveal_strlit("ge_hr_system_time_year");
    lemma_other_name("ge_hr_system_time_year"@);
    reveal_strlit("ge_hr_system_time_month");
    lemma_other_name("ge_hr_system_time_month"@);
    reveal_strlit("ge_hr_system_time_day");
    lemma_other_name("ge_hr_system_time_day"@);
    reveal_strlit("ge_hr_system_time_hour");
    lemma_other_name("ge_hr_system_time_hour"@);
    reveal_strlit("ge_hr_system_time_minute");
    lemma_other_name("ge_hr_system_time_minute"@);
    reveal_strlit("ge_hr_system_time_second");
    lemma_other_name("ge_hr_system_time_second"@);
    reveal_strlit("ge_hr_user_code");
    lemma_other_name("ge_hr_user_code"@);
    reveal_strlit("ge_hr_modbus_version");
    lemma_other_name("ge_hr_modbus_version"@);
}

/// HR 41-116: settings and limits: the block keeps the form.
proof fn lemma_native_settings(base: Seq<Definition>)
    requires
        well_formed(base),
        base.len() == 133,
    ensures
        well_formed(native_settings_rows(base)),
        native_settings_rows(base).len() == 170,
        extends(native_settings_rows(base), base),
{
    reveal(native_settings_rows);
    reveal_strlit("ge_hr_enable_drm_rj45_port");
    lemma_other_name("ge_hr_enable_drm_rj45_port"@);
    reveal_strlit("ge_hr_enable_reversed_ct_clamp");
    lemma_other_name("ge_hr_enable_reversed_ct_clamp"@);
    reveal_strlit("ge_hr_charge_discharge_soc");
    lemma_other_name("ge_hr_charge_discharge_soc"@);
    reveal_strlit("ge_hr_discharge_slot_2_start");
    lemma_other_name("ge_hr_discharge_slot_2_start"@);
    reveal_strlit("ge_hr_discharge_slot_2_end");
    lemma_other_name("ge_hr_discharge_slot_2_end"@);
    reveal_strlit("ge_hr_bms_firmware_version");
    lemma_other_name("ge_hr_bms_firmware_version"@);
    reveal_strlit("ge_hr_meter_type");
    lemma_other_name("ge_hr_meter_type"@);
    reveal_strlit("ge_hr_enable_reversed_115_meter");
    lemma_other_name("ge_hr_enable_reversed_115_meter"@);
    reveal_strlit("ge_hr_enable_reversed_418_meter");
    lemma_other_name("ge_hr_enable_reversed_418_meter"@);
    reveal_strlit("ge_hr_active_power_rate");
    lemma_other_name("ge_hr_active_power_rate"@);
    reveal_strlit("ge_hr_reactive_power_rate");
    lemma_other_name("ge_hr_reactive_power_rate"@);
    reveal_strlit("ge_hr_power_factor");
    lemma_other_name("ge_hr_power_factor"@);
    reveal_strlit("ge_hr_enable_inverter_flags");
    lemma_other_name("ge_hr_enable_inverter_flags"@);
    reveal_strlit("ge_hr_battery_type");
    lemma_other_name("ge_hr_battery_type"@);
    reveal_strlit("ge_hr_battery_capacity_ah");
    lemma_other_name("ge_hr_battery_capacity_ah"@);
    reveal_strlit("ge_hr_discharge_slot_1_start");
    lemma_other_name("ge_hr_discharge_slot_1_start"@);
    reveal_strlit("ge_hr_discharge_slot_1_end");
    lemma_other_name("ge_hr_discharge_slot_1_end"@);
    reveal_strlit("ge_hr_enable_auto_judge_battery_type");
    lemma_other_name("ge_hr_enable_auto_judge_battery_type"@);
    reveal_strlit("ge_hr_enable_discharge");
    lemma_other_name("ge_hr_enable_discharge"@);
    reveal_strlit("ge_hr_pv_start_voltage");
    lemma_other_name("ge_hr_pv_start_voltage"@);
    reveal_strlit("ge_hr_start_countdown_timer");
    lemma_other_name("ge_hr_start_countdown_timer"@);
    reveal_strlit("ge_hr_restart_delay_time");
    lemma_other_name("ge_hr_restart_delay_time"@);
    reveal_strlit("ge_hr_charge_slot_1_start");
    lemma_other_name("ge_hr_charge_slot_1_start"@);
    reveal_strlit("ge_hr_charge_slot_1_end");
    lemma_other_name("ge_hr_charge_slot_1_end"@);
    reveal_strlit("ge_hr_enable_charge");
    lemma_other_name("ge_hr_enable_charge"@);
    reveal_strlit("ge_hr_battery_low_voltage_protection_limit");
    lemma_other_name("ge_hr_battery_low_voltage_protection_limit"@);
    reveal_strlit("ge_hr_battery_high_voltage_protection_limit");
    lemma_other_name("ge_hr_battery_high_voltage_protection_limit"@);
    reveal_strlit("ge_hr_battery_voltage_adjust");
    lemma_other_name("ge_hr_battery_voltage_adjust"@);
    reveal_strlit("ge_hr_battery_low_force_charge_time");
    lemma_other_name("ge_hr_battery_low_force_charge_time"@);
    reveal_strlit("ge_hr_enable_bms_read");
    lemma_other_name("ge_hr_enable_bms_read"@);
    reveal_strlit("ge_hr_battery_soc_reserve");
    lemma_other_name("ge_hr_battery_soc_reserve"@);
    reveal_strlit("ge_hr_battery_charge_limit");
    lemma_other_name("ge_hr_battery_charge_limit"@);
    reveal_strlit("ge_hr_battery_discharge_limit");
    lemma_other_name("ge_hr_battery_discharge_limit"@);
    reveal_strlit("ge_hr_charge_target_soc");
    lemma_other_name("ge_hr_charge_target_soc"@);
    reveal_strlit("ge_hr_enable_buzzer");
    lemma_other_name("ge_hr_enable_buzzer"@);
    reveal_strlit("ge_hr_battery_discharge_min_power_reserve");
    lemma_other_name("ge_hr_battery_discharge_min_power_reserve"@);
    reveal_strlit("ge_hr_island_check_continue");
    lemma_other_name("ge_hr_island_check_continue"@);
}

/// HR 117-320: flags, targets and the pause slot: the block keeps the form.
proof fn lemma_native_flags(base: Seq<Definition>)
    requires
        well_formed(base),
        base.len() == 170,
    ensures
        well_formed(native_flags_rows(base)),
        native_flags_rows(base).len() == 206,
        extends(native_flags_rows(base), base),
{
    reveal(native_flags_rows);
    reveal_strlit("ge_hr_charge_soc_stop_2");
    lemma_other_name("ge_hr_charge_soc_stop_2"@);
    reveal_strlit("ge_hr_discharge_soc_stop_2");
    lemma_other_name("ge_hr_discharge_soc_stop_2"@);
    reveal_strlit("ge_hr_charge_soc_stop_1");
    lemma_other_name("ge_hr_charge_soc_stop_1"@);
    reveal_strlit("ge_hr_discharge_soc_stop_1");
    lemma_other_name("ge_hr_discharge_soc_stop_1"@);
    reveal_strlit("ge_hr_enable_local_command_test");
    lemma_other_name("ge_hr_enable_local_command_test"@);
    reveal_strlit("ge_hr_power_factor_function_model");
    lemma_other_name("ge_hr_power_factor_function_model"@);
    reveal_strlit("ge_hr_frequency_load_limit_rate");
    lemma_other_name("ge_hr_frequency_load_limit_rate"@);
    reveal_strlit("ge_hr_enable_low_voltage_fault_ride_through");
    lemma_other_name("ge_hr_enable_low_voltage_fault_ride_through"@);
    reveal_strlit("ge_hr_enable_frequency_derating");
    lemma_other_name("ge_hr_enable_frequency_derating"@);
    reveal_strlit("ge_hr_enable_above_6kw_system");
    lemma_other_name("ge_hr_enable_above_6kw_system"@);
    reveal_strlit("ge_hr_start_system_auto_test");
    lemma_other_name("ge_hr_start_system_auto_test"@);
    reveal_strlit("ge_hr_enable_spi");
    lemma_other_name("ge_hr_enable_spi"@);
    reveal_strlit("ge_hr_rtc_enable");
    lemma_other_name("ge_hr_rtc_enable"@);
    reveal_strlit("ge_hr_threephase_balance_mode");
    lemma_other_name("ge_hr_threephase_balance_mode"@);
    reveal_strlit("ge_hr_threephase_abc");
    lemma_other_name("ge_hr_threephase_abc"@);
    reveal_strlit("ge_hr_threephase_balance_1");
    lemma_other_name("ge_hr_threephase_balance_1"@);
    reveal_strlit("ge_hr_threephase_balance_2");
    lemma_other_name("ge_hr_threephase_balance_2"@);
    reveal_strlit("ge_hr_threephase_balance_3");
    lemma_other_name("ge_hr_threephase_balance_3"@);
    reveal_strlit("ge_hr_enable_battery_on_pv_or_grid");
    lemma_other_name("ge_hr_enable_battery_on_pv_or_grid"@);
    reveal_strlit("ge_hr_debug_inverter");
    lemma_other_name("ge_hr_debug_inverter"@);
    reveal_strlit("ge_hr_enable_ups_mode");
    lemma_other_name("ge_hr_enable_ups_mode"@);
    reveal_strlit("ge_hr_enable_g100_limit_switch");
    lemma_other_name("ge_hr_enable_g100_limit_switch"@);
    reveal_strlit("ge_hr_enable_battery_cable_impedance_alarm");
    lemma_other_name("ge_hr_enable_battery_cable_impedance_alarm"@);
    reveal_strlit("ge_hr_enable_standard_self_consumption_logic");
    lemma_other_name("ge_hr_enable_standard_self_consumption_logic"@);
    reveal_strlit("ge_hr_charge_target_soc_1");
    lemma_other_name("ge_hr_charge_target_soc_1"@);
    reveal_strlit("ge_hr_charge_slot_2_start_ext");
    lemma_other_name("ge_hr_charge_slot_2_start_ext"@);
    reveal_strlit("ge_hr_charge_slot_2_end_ext");
    lemma_other_name("ge_hr_charge_slot_2_end_ext"@);
    reveal_strlit("ge_hr_charge_target_soc_2");
    lemma_other_name("ge_hr_charge_target_soc_2"@);
    reveal_strlit("ge_hr_discharge_target_soc_1");
    lemma_other_name("ge_hr_discharge_target_soc_1"@);
    reveal_strlit("ge_hr_discharge_target_soc_2");
    lemma_other_name("ge_hr_discharge_target_soc_2"@);
    reveal_strlit("ge_hr_battery_charge_limit_ac");
    lemma_other_name("ge_hr_battery_charge_limit_ac"@);
    reveal_strlit("ge_hr_battery_discharge_limit_ac");
    lemma_other_name("ge_hr_battery_discharge_limit_ac"@);
    reveal_strlit("ge_hr_inverter_reboot");
    lemma_other_name("ge_hr_inverter_reboot"@);
    reveal_strlit("ge_hr_battery_pause_mode");
    lemma_other_name("ge_hr_battery_pause_mode"@);
    reveal_strlit("ge_hr_battery_pause_slot_1_start");
    lemma_other_name("ge_hr_battery_pause_slot_1_start"@);
    reveal_strlit("ge_hr_battery_pause_slot_1_end");
    lemma_other_name("ge_hr_battery_pause_slot_1_end"@);
}

/// HR 246-269: charge slots 3-10: the block keeps the form.
proof fn lemma_charge_slots(base: Seq<Definition>)
    requires
        well_formed(base),
        base.len() == 206,
    ensures
        well_formed(charge_slots_rows(base)),
        charge_slots_rows(base).len() == 230,
        extends(charge_slots_rows(base), base),
{
    reveal(charge_slots_rows);
    reveal_strlit("ge_hr_charge_slot_3_start");
    lemma_other_name("ge_hr_charge_slot_3_start"@);
    reveal_strlit("ge_hr_charge_slot_3_end");
    lemma_other_name("ge_hr_charge_slot_3_end"@);
    reveal_strlit("ge_hr_charge_target_soc_3");
    lemma_other_name("ge_hr_charge_target_soc_3"@);
    reveal_strlit("ge_hr_charge_slot_4_start");
    lemma_other_name("ge_hr_charge_slot_4_start"@);
    reveal_strlit("ge_hr_charge_slot_4_end");
    lemma_other_name("ge_hr_charge_slot_4_end"@);
    reveal_strlit("ge_hr_charge_target_soc_4");
    lemma_other_name("ge_hr_charge_target_soc_4"@);
    reveal_strlit("ge_hr_charge_slot_5_start");
    lemma_other_name("ge_hr_charge_slot_5_start"@);
    reveal_strlit("ge_hr_charge_slot_5_end");
    lemma_other_name("ge_hr_charge_slot_5_end"@);
    reveal_strlit("ge_hr_charge_target_soc_5");
    lemma_other_name("ge_hr_charge_target_soc_5"@);
    reveal_strlit("ge_hr_charge_slot_6_start");
    lemma_other_name("ge_hr_charge_slot_6_start"@);
    reveal_strlit("ge_hr_charge_slot_6_end");
    lemma_other_name("ge_hr_charge_slot_6_end"@);
    reveal_strlit("ge_hr_charge_target_soc_6");
    lemma_other_name("ge_hr_charge_target_soc_6"@);
    reveal_strlit("ge_hr_charge_slot_7_start");
    lemma_other_name("ge_hr_charge_slot_7_start"@);
    reveal_strlit("ge_hr_charge_slot_7_end");
    lemma_other_name("ge_hr_charge_slot_7_end"@);
    reveal_strlit("ge_hr_charge_target_soc_7");
    lemma_other_name("ge_hr_charge_target_soc_7"@);
    reveal_strlit("ge_hr_charge_slot_8_start");
    lemma_other_name("ge_hr_charge_slot_8_start"@);
    reveal_strlit("ge_hr_charge_slot_8_end");
    lemma_other_name("ge_hr_charge_slot_8_end"@);
    reveal_strlit("ge_hr_charge_target_soc_8");
    lemma_other_name("ge_hr_charge_target_soc_8"@);
    reveal_strlit("ge_hr_charge_slot_9_start");
    lemma_other_name("ge_hr_charge_slot_9_start"@);
    reveal_strlit("ge_hr_charge_slot_9_end");
    lemma_other_name("ge_hr_charge_slot_9_end"@);
    reveal_strlit("ge_hr_charge_target_soc_9");
    lemma_other_name("ge_hr_charge_target_soc_9"@);
    reveal_strlit("ge_hr_charge_slot_10_start");
    lemma_other_name("ge_hr_charge_slot_10_start"@);
    reveal_strlit("ge_hr_charge_slot_10_end");
    lemma_other_name("ge_hr_charge_slot_10_end"@);
    reveal_strlit("ge_hr_charge_target_soc_10");
    lemma_other_name("ge_hr_charge_target_soc_10"@);
}

/// HR 276-299: discharge slots 3-10, export priority and backup: the block keeps the form.
proof fn lemma_discharge_slots(base: Seq<Definition>)
    requires
        well_formed(base),
        base.len() == 230,
    ensures
        well_formed(discharge_slots_rows(base)),
        discharge_slots_rows(base).len() == 256,
        extends(discharge_slots_rows(base), base),
{
    reveal(discharge_slots_rows);
    reveal_strlit("ge_hr_discharge_slot_3_start");
    lemma_other_name("ge_hr_discharge_slot_3_start"@);
    reveal_strlit("ge_hr_discharge_slot_3_end");
    lemma_other_name("ge_hr_discharge_slot_3_end"@);
    reveal_strlit("ge_hr_discharge_target_soc_3");
    lemma_other_name("ge_hr_discharge_target_soc_3"@);
    reveal_strlit("ge_hr_discharge_slot_4_start");
    lemma_other_name("ge_hr_discharge_slot_4_start"@);
    reveal_strlit("ge_hr_discharge_slot_4_end");
    lemma_other_name("ge_hr_discharge_slot_4_end"@);
    reveal_strlit("ge_hr_discharge_target_soc_4");
    lemma_other_name("ge_hr_discharge_target_soc_4"@);
    reveal_strlit("ge_hr_discharge_slot_5_start");
    lemma_other_name("ge_hr_discharge_slot_5_start"@);
    reveal_strlit("ge_hr_discharge_slot_5_end");
    lemma_other_name("ge_hr_discharge_slot_5_end"@);
    reveal_strlit("ge_hr_discharge_target_soc_5");
    lemma_other_name("ge_hr_discharge_target_soc_5"@);
    reveal_strlit("ge_hr_discharge_slot_6_start");
    lemma_other_name("ge_hr_discharge_slot_6_start"@);
    reveal_strlit("ge_hr_discharge_slot_6_end");
    lemma_other_name("ge_hr_discharge_slot_6_end"@);
    reveal_strlit("ge_hr_discharge_target_soc_6");
    lemma_other_name("ge_hr_discharge_target_soc_6"@);
    reveal_strlit("ge_hr_discharge_slot_7_start");
    lemma_other_name("ge_hr_discharge_slot_7_start"@);
    reveal_strlit("ge_hr_discharge_slot_7_end");
    lemma_other_name("ge_hr_discharge_slot_7_end"@);
    reveal_strlit("ge_hr_discharge_target_soc_7");
    lemma_other_name("ge_hr_discharge_target_soc_7"@);
    reveal_strlit("ge_hr_discharge_slot_8_start");
    lemma_other_name("ge_hr_discharge_slot_8_start"@);
    reveal_strlit("ge_hr_discharge_slot_8_end");
    lemma_other_name("ge_hr_discharge_slot_8_end"@);
    reveal_strlit("ge_hr_discharge_target_soc_8");
    lemma_other_name("ge_hr_discharge_target_soc_8"@);
    reveal_strlit("ge_hr_discharge_slot_9_start");
    lemma_other_name("ge_hr_discharge_slot_9_start"@);
    reveal_strlit("ge_hr_discharge_slot_9_end");
    lemma_other_name("ge_hr_discharge_slot_9_end"@);
    reveal_strlit("ge_hr_discharge_target_soc_9");
    lemma_other_name("ge_hr_discharge_target_soc_9"@);
    reveal_strlit("ge_hr_discharge_slot_10_start");
    lemma_other_name("ge_hr_discharge_slot_10_start"@);
    reveal_strlit("ge_hr_discharge_slot_10_end");
    lemma_other_name("ge_hr_discharge_slot_10_end"@);
    reveal_strlit("ge_hr_discharge_target_soc_10");
    lemma_other_name("ge_hr_discharge_target_soc_10"@);
    reveal_strlit("ge_hr_export_priority");
    lemma_other_name("ge_hr_export_priority"@);
    reveal_strlit("ge_hr_enable_eps");
    lemma_other_name("ge_hr_enable_eps"@);
}

/// HR 1063-1123: three-phase settings: the block keeps the form.
proof fn lemma_three_phase_holding(base: Seq<Definition>)
    requires
        well_formed(base),
        base.len() == 256,
    ensures
        well_formed(three_phase_holding_rows(base)),
        three_phase_holding_rows(base).len() == 273,
        extends(three_phase_holding_rows(base), base),
{
    reveal(three_phase_holding_rows);
    reveal_strlit("tph_p_export_limit");
    lemma_other_name("tph_p_export_limit"@);
    reveal_strlit("tph_battery_discharge_min_power_reserve");
    lemma_other_name("tph_battery_discharge_min_power_reserve"@);
    reveal_strlit("tph_battery_discharge_limit_ac");
    lemma_other_name("tph_battery_discharge_limit_ac"@);
    reveal_strlit("tph_battery_soc_reserve");
    lemma_other_name("tph_battery_soc_reserve"@);
    reveal_strlit("tph_battery_charge_limit_ac");
    lemma_other_name("tph_battery_charge_limit_ac"@);
    reveal_strlit("tph_charge_target_soc");
    lemma_other_name("tph_charge_target_soc"@);
    reveal_strlit("tph_ac_charge_enable");
    lemma_other_name("tph_ac_charge_enable"@);
    reveal_strlit("tph_charge_slot_1_start");
    lemma_other_name("tph_charge_slot_1_start"@);
    reveal_strlit("tph_charge_slot_1_end");
    lemma_other_name("tph_charge_slot_1_end"@);
    reveal_strlit("tph_charge_slot_2_start");
    lemma_other_name("tph_charge_slot_2_start"@);
    reveal_strlit("tph_charge_slot_2_end");
    lemma_other_name("tph_charge_slot_2_end"@);
    reveal_strlit("tph_discharge_slot_1_start");
    lemma_other_name("tph_discharge_slot_1_start"@);
    reveal_strlit("tph_discharge_slot_1_end");
    lemma_other_name("tph_discharge_slot_1_end"@);
    reveal_strlit("tph_discharge_slot_2_start");
    lemma_other_name("tph_discharge_slot_2_start"@);
    reveal_strlit("tph_discharge_slot_2_end");
    lemma_other_name("tph_discharge_slot_2_end"@);
    reveal_strlit("tph_force_discharge_enable");
    lemma_other_name("tph_force_discharge_enable"@);
    reveal_strlit("tph_force_charge_enable");
    lemma_other_name("tph_force_charge_enable"@);
}

/// IR 1001-1245: three-phase power: the block keeps the form.
proof fn lemma_three_phase_power(base: Seq<Definition>)
    requires
        well_formed(base),
        base.len() == 273,
    ensures
        well_formed(three_phase_power_rows(base)),
        three_phase_power_rows(base).len() == 326,
        extends(three_phase_power_rows(base), base),
{
    reveal(three_phase_power_rows);
    reveal_strlit("tph_ir_pv1_voltage");
    lemma_other_name("tph_ir_pv1_voltage"@);
    reveal_strlit("tph_ir_pv2_voltage");
    lemma_other_name("tph_ir_pv2_voltage"@);
    reveal_strlit("tph_ir_pv1_current");
    lemma_other_name("tph_ir_pv1_current"@);
    reveal_strlit("tph_ir_pv2_current");
    lemma_other_name("tph_ir_pv2_current"@);
    reveal_strlit("tph_ir_pv1_power_high");
    lemma_other_name("tph_ir_pv1_power_high"@);
    reveal_strlit("tph_ir_pv1_power_low");
    lemma_other_name("tph_ir_pv1_power_low"@);
    reveal_strlit("tph_ir_pv2_power_high");
    lemma_other_name("tph_ir_pv2_power_high"@);
    reveal_strlit("tph_ir_pv2_power_low");
    lemma_other_name("tph_ir_pv2_power_low"@);
    reveal_strlit("tph_ir_v_ac1");
    lemma_other_name("tph_ir_v_ac1"@);
    reveal_strlit("tph_ir_v_ac2");
    lemma_other_name("tph_ir_v_ac2"@);
    reveal_strlit("tph_ir_v_ac3");
    lemma_other_name("tph_ir_v_ac3"@);
    reveal_strlit("tph_ir_i_ac1");
    lemma_other_name("tph_ir_i_ac1"@);
    reveal_strlit("tph_ir_i_ac2");
    lemma_other_name("tph_ir_i_ac2"@);
    reveal_strlit("tph_ir_i_ac3");
    lemma_other_name("tph_ir_i_ac3"@);
    reveal_strlit("tph_ir_f_ac1");
    lemma_other_name("tph_ir_f_ac1"@);
    reveal_strlit("tph_ir_power_factor");
    lemma_other_name("tph_ir_power_factor"@);
    reveal_strlit("tph_ir_p_inverter_out_high");
    lemma_other_name("tph_ir_p_inverter_out_high"@);
    reveal_strlit("tph_ir_p_inverter_out_low");
    lemma_other_name("tph_ir_p_inverter_out_low"@);
    reveal_strlit("tph_ir_p_grid_apparent_high");
    lemma_other_name("tph_ir_p_grid_apparent_high"@);
    reveal_strlit("tph_ir_p_grid_apparent_low");
    lemma_other_name("tph_ir_p_grid_apparent_low"@);
    reveal_strlit("tph_ir_system_mode");
    lemma_other_name("tph_ir_system_mode"@);
    reveal_strlit("tph_ir_status");
    lemma_other_name("tph_ir_status"@);
    reveal_strlit("tph_ir_p_meter_import_high");
    lemma_other_name("tph_ir_p_meter_import_high"@);
    reveal_strlit("tph_ir_p_meter_import_low");
    lemma_other_name("tph_ir_p_meter_import_low"@);
    reveal_strlit("tph_ir_p_meter_export_high");
    lemma_other_name("tph_ir_p_meter_export_high"@);
    reveal_strlit("tph_ir_p_meter_export_low");
    lemma_other_name("tph_ir_p_meter_export_low"@);
    reveal_strlit("tph_ir_p_load_ac1");
    lemma_other_name("tph_ir_p_load_ac1"@);
    reveal_strlit("tph_ir_p_load_ac2");
    lemma_other_name("tph_ir_p_load_ac2"@);
    reveal_strlit("tph_ir_p_load_ac3");
    lemma_other_name("tph_ir_p_load_ac3"@);
    reveal_strlit("tph_ir_p_load_all_high");
    lemma_other_name("tph_ir_p_load_all_high"@);
    reveal_strlit("tph_ir_p_load_all_low");
    lemma_other_name("tph_ir_p_load_all_low"@);
    reveal_strlit("tph_ir_dc_status");
    lemma_other_name("tph_ir_dc_status"@);
    reveal_strlit("tph_ir_t_inverter");
    lemma_other_name("tph_ir_t_inverter"@);
    reveal_strlit("tph_ir_t_boost");
    lemma_other_name("tph_ir_t_boost"@);
    reveal_strlit("tph_ir_t_buck_boost");
    lemma_other_name("tph_ir_t_buck_boost"@);
    reveal_strlit("tph_ir_v_battery_bms");
    lemma_other_name("tph_ir_v_battery_bms"@);
    reveal_strlit("tph_ir_v_battery_pcs");
    lemma_other_name("tph_ir_v_battery_pcs"@);
    reveal_strlit("tph_ir_v_dc_bus");
    lemma_other_name("tph_ir_v_dc_bus"@);
    reveal_strlit("tph_ir_v_inv_bus");
    lemma_other_name("tph_ir_v_inv_bus"@);
    reveal_strlit("tph_ir_battery_soc");
    lemma_other_name("tph_ir_battery_soc"@);
    reveal_strlit("tph_ir_p_battery_discharge_high");
    lemma_other_name("tph_ir_p_battery_discharge_high"@);
    reveal_strlit("tph_ir_p_battery_discharge_low");
    lemma_other_name("tph_ir_p_battery_discharge_low"@);
    reveal_strlit("tph_ir_p_battery_charge_high");
    lemma_other_name("tph_ir_p_battery_charge_high"@);
    reveal_strlit("tph_ir_p_battery_charge_low");
    lemma_other_name("tph_ir_p_battery_charge_low"@);
    reveal_strlit("tph_ir_i_battery");
    lemma_other_name("tph_ir_i_battery"@);
    reveal_strlit("tph_ir_f_nominal_eps");
    lemma_other_name("tph_ir_f_nominal_eps"@);
    reveal_strlit("tph_ir_v_eps_ac1");
    lemma_other_name("tph_ir_v_eps_ac1"@);
    reveal_strlit("tph_ir_v_eps_ac2");
    lemma_other_name("tph_ir_v_eps_ac2"@);
    reveal_strlit("tph_ir_v_eps_ac3");
    lemma_other_name("tph_ir_v_eps_ac3"@);
    reveal_strlit("tph_ir_p_export_high");
    lemma_other_name("tph_ir_p_export_high"@);
    reveal_strlit("tph_ir_p_export_low");
    lemma_other_name("tph_ir_p_export_low"@);
    reveal_strlit("tph_ir_p_meter2_high");
    lemma_other_name("tph_ir_p_meter2_high"@);
    reveal_strlit("tph_ir_p_meter2_low");
    lemma_other_name("tph_ir_p_meter2_low"@);
}

/// IR 1325-1413: three-phase firmware and energy: the block keeps the form.
proof fn lemma_three_phase_energy(base: Seq<Definition>)
    requires
        well_formed(base),
        base.len() == 326,
    ensures
        well_formed(three_phase_energy_rows(base)),
        three_phase_energy_rows(base).len() == 373,
        extends(three_phase_energy_rows(base), base),
{
    reveal(three_phase_energy_rows);
    reveal_strlit("tph_ir_ac_dsp_firmware_version");
    lemma_other_name("tph_ir_ac_dsp_firmware_version"@);
    reveal_strlit("tph_ir_dc_dsp_firmware_version");
    lemma_other_name("tph_ir_dc_dsp_firmware_version"@);
    reveal_strlit("tph_ir_arm_firmware_version");
    lemma_other_name("tph_ir_arm_firmware_version"@);
    reveal_strlit("tph_ir_e_pv1_today_high");
    lemma_other_name("tph_ir_e_pv1_today_high"@);
    reveal_strlit("tph_ir_e_pv1_today_low");
    lemma_other_name("tph_ir_e_pv1_today_low"@);
    reveal_strlit("tph_ir_e_pv2_today_high");
    lemma_other_name("tph_ir_e_pv2_today_high"@);
    reveal_strlit("tph_ir_e_pv2_today_low");
    lemma_other_name("tph_ir_e_pv2_today_low"@);
    reveal_strlit("tph_ir_e_import_today_high");
    lemma_other_name("tph_ir_e_import_today_high"@);
    reveal_strlit("tph_ir_e_import_today_low");
    lemma_other_name("tph_ir_e_import_today_low"@);
    reveal_strlit("tph_ir_e_export_today_high");
    lemma_other_name("tph_ir_e_export_today_high"@);
    reveal_strlit("tph_ir_e_export_today_low");
    lemma_other_name("tph_ir_e_export_today_low"@);
    reveal_strlit("tph_ir_e_battery_discharge_today_high");
    lemma_other_name("tph_ir_e_battery_discharge_today_high"@);
    reveal_strlit("tph_ir_e_battery_discharge_today_low");
    lemma_other_name("tph_ir_e_battery_discharge_today_low"@);
    reveal_strlit("tph_ir_e_battery_charge_today_high");
    lemma_other_name("tph_ir_e_battery_charge_today_high"@);
    reveal_strlit("tph_ir_e_battery_charge_today_low");
    lemma_other_name("tph_ir_e_battery_charge_today_low"@);
    reveal_strlit("tph_ir_e_load_today_high");
    lemma_other_name("tph_ir_e_load_today_high"@);
    reveal_strlit("tph_ir_e_load_today_low");
    lemma_other_name("tph_ir_e_load_today_low"@);
    reveal_strlit("tph_ir_e_inverter_out_today_high");
    lemma_other_name("tph_ir_e_inverter_out_today_high"@);
    reveal_strlit("tph_ir_e_inverter_out_today_low");
    lemma_other_name("tph_ir_e_inverter_out_today_low"@);
    reveal_strlit("tph_ir_e_inverter_out_total_high");
    lemma_other_name("tph_ir_e_inverter_out_total_high"@);
    reveal_strlit("tph_ir_e_inverter_out_total_low");
    lemma_other_name("tph_ir_e_inverter_out_total_low"@);
    reveal_strlit("tph_ir_e_pv1_total_high");
    lemma_other_name("tph_ir_e_pv1_total_high"@);
    reveal_strlit("tph_ir_e_pv1_total_low");
    lemma_other_name("tph_ir_e_pv1_total_low"@);
    reveal_strlit("tph_ir_e_pv2_total_high");
    lemma_other_name("tph_ir_e_pv2_total_high"@);
    reveal_strlit("tph_ir_e_pv2_total_low");
    lemma_other_name("tph_ir_e_pv2_total_low"@);
    reveal_strlit("tph_ir_e_pv_total_high");
    lemma_other_name("tph_ir_e_pv_total_high"@);
    reveal_strlit("tph_ir_e_pv_total_low");
    lemma_other_name("tph_ir_e_pv_total_low"@);
    reveal_strlit("tph_ir_e_ac_charge_today_high");
    lemma_other_name("tph_ir_e_ac_charge_today_high"@);
    reveal_strlit("tph_ir_e_ac_charge_today_low");
    lemma_other_name("tph_ir_e_ac_charge_today_low"@);
    reveal_strlit("tph_ir_e_ac_charge_total_high");
    lemma_other_name("tph_ir_e_ac_charge_total_high"@);
    reveal_strlit("tph_ir_e_ac_charge_total_low");
    lemma_other_name("tph_ir_e_ac_charge_total_low"@);
    reveal_strlit("tph_ir_e_import_total_high");
    lemma_other_name("tph_ir_e_import_total_high"@);
    reveal_strlit("tph_ir_e_import_total_low");
    lemma_other_name("tph_ir_e_import_total_low"@);
    reveal_strlit("tph_ir_e_export_total_high");
    lemma_other_name("tph_ir_e_export_total_high"@);
    reveal_strlit("tph_ir_e_export_total_low");
    lemma_other_name("tph_ir_e_export_total_low"@);
    reveal_strlit("tph_ir_e_battery_discharge_total_high");
    lemma_other_name("tph_ir_e_battery_discharge_total_high"@);
    reveal_strlit("tph_ir_e_battery_discharge_total_low");
    lemma_other_name("tph_ir_e_battery_discharge_total_low"@);
    reveal_strlit("tph_ir_e_battery_charge_total_high");
    lemma_other_name("tph_ir_e_battery_charge_total_high"@);
    reveal_strlit("tph_ir_e_battery_charge_total_low");
    lemma_other_name("tph_ir_e_battery_charge_total_low"@);
    reveal_strlit("tph_ir_e_load_total_high");
    lemma_other_name("tph_ir_e_load_total_high"@);
    reveal_strlit("tph_ir_e_load_total_low");
    lemma_other_name("tph_ir_e_load_total_low"@);
    reveal_strlit("tph_ir_e_export2_today_high");
    lemma_other_name("tph_ir_e_export2_today_high"@);
    reveal_strlit("tph_ir_e_export2_today_low");
    lemma_other_name("tph_ir_e_export2_today_low"@);
    reveal_strlit("tph_ir_e_export2_total_high");
    lemma_other_name("tph_ir_e_export2_total_high"@);
    reveal_strlit("tph_ir_e_export2_total_low");
    lemma_other_name("tph_ir_e_export2_total_low"@);
    reveal_strlit("tph_ir_e_pv_today_high");
    lemma_other_name("tph_ir_e_pv_today_high"@);
    reveal_strlit("tph_ir_e_pv_today_low");
    lemma_other_name("tph_ir_e_pv_today_low"@);
}

/// HR 2040-2075: plant-manager schedule: the block keeps the form.
proof fn lemma_ems_holding(base: Seq<Definition>)
    requires
        well_formed(base),
        base.len() == 373,
    ensures
        well_formed(ems_holding_rows(base)),
        ems_holding_rows(base).len() == 409,
        extends(ems_holding_rows(base), base),
{
    reveal(ems_holding_rows);
    reveal_strlit("ems_plant_enable");
    lemma_other_name("ems_plant_enable"@);
    reveal_strlit("ems_expected_inverter_count");
    lemma_other_name("ems_expected_inverter_count"@);
    reveal_strlit("ems_expected_meter_count");
    lemma_other_name("ems_expected_meter_count"@);
    reveal_strlit("ems_expected_car_charger_count");
    lemma_other_name("ems_expected_car_charger_count"@);
    reveal_strlit("ems_discharge_slot_1_start");
    lemma_other_name("ems_discharge_slot_1_start"@);
    reveal_strlit("ems_discharge_slot_1_end");
    lemma_other_name("ems_discharge_slot_1_end"@);
    reveal_strlit("ems_discharge_target_soc_1");
    lemma_other_name("ems_discharge_target_soc_1"@);
    reveal_strlit("ems_discharge_slot_2_start");
    lemma_other_name("ems_discharge_slot_2_start"@);
    reveal_strlit("ems_discharge_slot_2_end");
    lemma_other_name("ems_discharge_slot_2_end"@);
    reveal_strlit("ems_discharge_target_soc_2");
    lemma_other_name("ems_discharge_target_soc_2"@);
    reveal_strlit("ems_discharge_slot_3_start");
    lemma_other_name("ems_discharge_slot_3_start"@);
    reveal_strlit("ems_discharge_slot_3_end");
    lemma_other_name("ems_discharge_slot_3_end"@);
    reveal_strlit("ems_discharge_target_soc_3");
    lemma_other_name("ems_discharge_target_soc_3"@);
    reveal_strlit("ems_charge_slot_1_start");
    lemma_other_name("ems_charge_slot_1_start"@);
    reveal_strlit("ems_charge_slot_1_end");
    lemma_other_name("ems_charge_slot_1_end"@);
    reveal_strlit("ems_charge_target_soc_1");
    lemma_other_name("ems_charge_target_soc_1"@);
    reveal_strlit("ems_charge_slot_2_start");
    lemma_other_name("ems_charge_slot_2_start"@);
    reveal_strlit("ems_charge_slot_2_end");
    lemma_other_name("ems_charge_slot_2_end"@);
    reveal_strlit("ems_charge_target_soc_2");
    lemma_other_name("ems_charge_target_soc_2"@);
    reveal_strlit("ems_charge_slot_3_start");
    lemma_other_name("ems_charge_slot_3_start"@);
    reveal_strlit("ems_charge_slot_3_end");
    lemma_other_name("ems_charge_slot_3_end"@);
    reveal_strlit("ems_charge_target_soc_3");
    lemma_other_name("ems_charge_target_soc_3"@);
    reveal_strlit("ems_export_slot_1_start");
    lemma_other_name("ems_export_slot_1_start"@);
    reveal_strlit("ems_export_slot_1_end");
    lemma_other_name("ems_export_slot_1_end"@);
    reveal_strlit("ems_export_target_soc_1");
    lemma_other_name("ems_export_target_soc_1"@);
    reveal_strlit("ems_export_slot_2_start");
    lemma_other_name("ems_export_slot_2_start"@);
    reveal_strlit("ems_export_slot_2_end");
    lemma_other_name("ems_export_slot_2_end"@);
    reveal_strlit("ems_export_target_soc_2");
    lemma_other_name("ems_export_target_soc_2"@);
    reveal_strlit("ems_export_slot_3_start");
    lemma_other_name("ems_export_slot_3_start"@);
    reveal_strlit("ems_export_slot_3_end");
    lemma_other_name("ems_export_slot_3_end"@);
    reveal_strlit("ems_export_target_soc_3");
    lemma_other_name("ems_export_target_soc_3"@);
    reveal_strlit("ems_export_power_limit");
    lemma_other_name("ems_export_power_limit"@);
    reveal_strlit("ems_car_charge_mode");
    lemma_other_name("ems_car_charge_mode"@);
    reveal_strlit("ems_car_charge_boost");
    lemma_other_name("ems_car_charge_boost"@);
    reveal_strlit("ems_plant_charge_compensation");
    lemma_other_name("ems_plant_charge_compensation"@);
    reveal_strlit("ems_plant_discharge_compensation");
    lemma_other_name("ems_plant_discharge_compensation"@);
}

/// IR 2040-2094: plant-manager telemetry: the block keeps the form.
proof fn lemma_ems_input(base: Seq<Definition>)
    requires
        well_formed(base),
        base.len() == 409,
    ensures
        well_formed(ems_input_rows(base)),
        ems_input_rows(base).len() == 446,
        extends(ems_input_rows(base), base),
{
    reveal(ems_input_rows);
    reveal_strlit("ems_ir_status");
    lemma_other_name("ems_ir_status"@);
    reveal_strlit("ems_ir_meter_count");
    lemma_other_name("ems_ir_meter_count"@);
    reveal_strlit("ems_ir_meter_types");
    lemma_other_name("ems_ir_meter_types"@);
    reveal_strlit("ems_ir_meter_status");
    lemma_other_name("ems_ir_meter_status"@);
    reveal_strlit("ems_ir_inverter_count");
    lemma_other_name("ems_ir_inverter_count"@);
    reveal_strlit("ems_ir_inverter_status");
    lemma_other_name("ems_ir_inverter_status"@);
    reveal_strlit("ems_ir_meter_1_power");
    lemma_other_name("ems_ir_meter_1_power"@);
    reveal_strlit("ems_ir_meter_2_power");
    lemma_other_name("ems_ir_meter_2_power"@);
    reveal_strlit("ems_ir_meter_3_power");
    lemma_other_name("ems_ir_meter_3_power"@);
    reveal_strlit("ems_ir_meter_4_power");
    lemma_other_name("ems_ir_meter_4_power"@);
    reveal_strlit("ems_ir_meter_5_power");
    lemma_other_name("ems_ir_meter_5_power"@);
    reveal_strlit("ems_ir_meter_6_power");
    lemma_other_name("ems_ir_meter_6_power"@);
    reveal_strlit("ems_ir_meter_7_power");
    lemma_other_name("ems_ir_meter_7_power"@);
    reveal_strlit("ems_ir_meter_8_power");
    lemma_other_name("ems_ir_meter_8_power"@);
    reveal_strlit("ems_ir_inverter_1_power");
    lemma_other_name("ems_ir_inverter_1_power"@);
    reveal_strlit("ems_ir_inverter_2_power");
    lemma_other_name("ems_ir_inverter_2_power"@);
    reveal_strlit("ems_ir_inverter_3_power");
    lemma_other_name("ems_ir_inverter_3_power"@);
    reveal_strlit("ems_ir_inverter_4_power");
    lemma_other_name("ems_ir_inverter_4_power"@);
    reveal_strlit("ems_ir_inverter_1_soc");
    lemma_other_name("ems_ir_inverter_1_soc"@);
    reveal_strlit("ems_ir_inverter_2_soc");
    lemma_other_name("ems_ir_inverter_2_soc"@);
    reveal_strlit("ems_ir_inverter_3_soc");
    lemma_other_name("ems_ir_inverter_3_soc"@);
    reveal_strlit("ems_ir_inverter_4_soc");
    lemma_other_name("ems_ir_inverter_4_soc"@);
    reveal_strlit("ems_ir_inverter_1_temp");
    lemma_other_name("ems_ir_inverter_1_temp"@);
    reveal_strlit("ems_ir_inverter_2_temp");
    lemma_other_name("ems_ir_inverter_2_temp"@);
    reveal_strlit("ems_ir_inverter_3_temp");
    lemma_other_name("ems_ir_inverter_3_temp"@);
    reveal_strlit("ems_ir_inverter_4_temp");
    lemma_other_name("ems_ir_inverter_4_temp"@);
    reveal_strlit("ems_ir_inverter_1_serial");
    lemma_other_name("ems_ir_inverter_1_serial"@);
    reveal_strlit("ems_ir_calc_load_power");
    lemma_other_name("ems_ir_calc_load_power"@);
    reveal_strlit("ems_ir_measured_load_power");
    lemma_other_name("ems_ir_measured_load_power"@);
    reveal_strlit("ems_ir_total_generation_load_power");
    lemma_other_name("ems_ir_total_generation_load_power"@);
    reveal_strlit("ems_ir_grid_meter_power");
    lemma_other_name("ems_ir_grid_meter_power"@);
    reveal_strlit("ems_ir_total_battery_power");
    lemma_other_name("ems_ir_total_battery_power"@);
    reveal_strlit("ems_ir_remaining_battery_wh");
    lemma_other_name("ems_ir_remaining_battery_wh"@);
    reveal_strlit("ems_ir_other_battery_power");
    lemma_other_name("ems_ir_other_battery_power"@);
    reveal_strlit("ems_ir_inverter_2_serial");
    lemma_other_name("ems_ir_inverter_2_serial"@);
    reveal_strlit("ems_ir_inverter_3_serial");
    lemma_other_name("ems_ir_inverter_3_serial"@);
    reveal_strlit("ems_ir_inverter_4_serial");
    lemma_other_name("ems_ir_inverter_4_serial"@);
}

/// HR 554-573 and 4107-4142: smart load slots and long counters: the block keeps the form.
proof fn lemma_smart_load(base: Seq<Definition>)
    requires
        well_formed(base),
        base.len() == 446,
    ensures
        well_formed(smart_load_rows(base)),
        smart_load_rows(base).len() == 476,
        extends(smart_load_rows(base), base),
{
    reveal(smart_load_rows);
    reveal_strlit("ge_hr_smart_load_slot_1_start");
    lemma_other_name("ge_hr_smart_load_slot_1_start"@);
    reveal_strlit("ge_hr_smart_load_slot_1_end");
    lemma_other_name("ge_hr_smart_load_slot_1_end"@);
    reveal_strlit("ge_hr_smart_load_slot_2_start");
    lemma_other_name("ge_hr_smart_load_slot_2_start"@);
    reveal_strlit("ge_hr_smart_load_slot_2_end");
    lemma_other_name("ge_hr_smart_load_slot_2_end"@);
    reveal_strlit("ge_hr_smart_load_slot_3_start");
    lemma_other_name("ge_hr_smart_load_slot_3_start"@);
    reveal_strlit("ge_hr_smart_load_slot_3_end");
    lemma_other_name("ge_hr_smart_load_slot_3_end"@);
    reveal_strlit("ge_hr_smart_load_slot_4_start");
    lemma_other_name("ge_hr_smart_load_slot_4_start"@);
    reveal_strlit("ge_hr_smart_load_slot_4_end");
    lemma_other_name("ge_hr_smart_load_slot_4_end"@);
    reveal_strlit("ge_hr_smart_load_slot_5_start");
    lemma_other_name("ge_hr_smart_load_slot_5_start"@);
    reveal_strlit("ge_hr_smart_load_slot_5_end");
    lemma_other_name("ge_hr_smart_load_slot_5_end"@);
    reveal_strlit("ge_hr_smart_load_slot_6_start");
    lemma_other_name("ge_hr_smart_load_slot_6_start"@);
    reveal_strlit("ge_hr_smart_load_slot_6_end");
    lemma_other_name("ge_hr_smart_load_slot_6_end"@);
    reveal_strlit("ge_hr_smart_load_slot_7_start");
    lemma_other_name("ge_hr_smart_load_slot_7_start"@);
    reveal_strlit("ge_hr_smart_load_slot_7_end");
    lemma_other_name("ge_hr_smart_load_slot_7_end"@);
    reveal_strlit("ge_hr_smart_load_slot_8_start");
    lemma_other_name("ge_hr_smart_load_slot_8_start"@);
    reveal_strlit("ge_hr_smart_load_slot_8_end");
    lemma_other_name("ge_hr_smart_load_slot_8_end"@);
    reveal_strlit("ge_hr_smart_load_slot_9_start");
    lemma_other_name("ge_hr_smart_load_slot_9_start"@);
    reveal_strlit("ge_hr_smart_load_slot_9_end");
    lemma_other_name("ge_hr_smart_load_slot_9_end"@);
    reveal_strlit("ge_hr_smart_load_slot_10_start");
    lemma_other_name("ge_hr_smart_load_slot_10_start"@);
    reveal_strlit("ge_hr_smart_load_slot_10_end");
    lemma_other_name("ge_hr_smart_load_slot_10_end"@);
    reveal_strlit("ge_hr_pv_power_setting_high");
    lemma_other_name("ge_hr_pv_power_setting_high"@);
    reveal_strlit("ge_hr_pv_power_setting_low");
    lemma_other_name("ge_hr_pv_power_setting_low"@);
    reveal_strlit("ge_hr_battery_discharge_total_alt2_high");
    lemma_other_name("ge_hr_battery_discharge_total_alt2_high"@);
    reveal_strlit("ge_hr_battery_discharge_total_alt2_low");
    lemma_other_name("ge_hr_battery_discharge_total_alt2_low"@);
    reveal_strlit("ge_hr_battery_charge_total_alt2_high");
    lemma_other_name("ge_hr_battery_charge_total_alt2_high"@);
    reveal_strlit("ge_hr_battery_charge_total_alt2_low");
    lemma_other_name("ge_hr_battery_charge_total_alt2_low"@);
    reveal_strlit("ge_hr_battery_discharge_today_alt3");
    lemma_other_name("ge_hr_battery_discharge_today_alt3"@);
    reveal_strlit("ge_hr_battery_charge_today_alt3");
    lemma_other_name("ge_hr_battery_charge_today_alt3"@);
    reveal_strlit("ge_hr_inverter_export_total_high");
    lemma_other_name("ge_hr_inverter_export_total_high"@);
    reveal_strlit("ge_hr_inverter_export_total_low");
    lemma_other_name("ge_hr_inverter_export_total_low"@);
}

/// HR 100-705: registers of the simulator: the block keeps the form.
proof fn lemma_internal(base: Seq<Definition>)
    requires
        well_formed(base),
        base.len() == 476,
    ensures
        well_formed(internal_rows(base)),
        internal_rows(base).len() == 524,
        extends(internal_rows(base), base),
{
    reveal(internal_rows);
    reveal_strlit("inverter_mode");
    lemma_other_name("inverter_mode"@);
    reveal_strlit("inverter_ac_power");
    lemma_other_name("inverter_ac_power"@);
    reveal_strlit("inverter_export_limit_w");
    lemma_other_name("inverter_export_limit_w"@);
    reveal_strlit("inverter_temperature");
    lemma_other_name("inverter_temperature"@);
    reveal_strlit("ge_hr_enable_battery_self_heating");
    lemma_other_name("ge_hr_enable_battery_self_heating"@);
    reveal_strlit("ge_hr_enable_manual_battery_heater");
    lemma_other_name("ge_hr_enable_manual_battery_heater"@);
    reveal_strlit("battery_soc");
    lemma_other_name("battery_soc"@);
    reveal_strlit("battery_soc_2");
    lemma_other_name("battery_soc_2"@);
    reveal_strlit("battery_soc_3");
    lemma_other_name("battery_soc_3"@);
    reveal_strlit("battery_power");
    lemma_other_name("battery_power"@);
    reveal_strlit("battery_voltage");
    lemma_other_name("battery_voltage"@);
    reveal_strlit("battery_current");
    lemma_other_name("battery_current"@);
    reveal_strlit("battery_temperature");
    lemma_other_name("battery_temperature"@);
    reveal_strlit("battery_capacity_kwh");
    lemma_other_name("battery_capacity_kwh"@);
    reveal_strlit("battery_max_charge_kw");
    lemma_other_name("battery_max_charge_kw"@);
    reveal_strlit("battery_max_discharge_kw");
    lemma_other_name("battery_max_discharge_kw"@);
    reveal_strlit("battery_min_soc");
    lemma_other_name("battery_min_soc"@);
    reveal_strlit("battery_max_soc");
    lemma_other_name("battery_max_soc"@);
    reveal_strlit("battery_charge_efficiency");
    lemma_other_name("battery_charge_efficiency"@);
    reveal_strlit("battery_discharge_efficiency");
    lemma_other_name("battery_discharge_efficiency"@);
    reveal_strlit("battery_module_count");
    lemma_other_name("battery_module_count"@);
    reveal_strlit("ge_hr_inverter_errors_high");
    lemma_other_name("ge_hr_inverter_errors_high"@);
    reveal_strlit("ge_hr_inverter_errors_low");
    lemma_other_name("ge_hr_inverter_errors_low"@);
    reveal_strlit("pv_generation");
    lemma_other_name("pv_generation"@);
    reveal_strlit("pv_voltage");
    lemma_other_name("pv_voltage"@);
    reveal_strlit("pv_current");
    lemma_other_name("pv_current"@);
    reveal_strlit("pv_energy_today");
    lemma_other_name("pv_energy_today"@);
    reveal_strlit("pv_peak_capacity");
    lemma_other_name("pv_peak_capacity"@);
    reveal_strlit("grid_power");
    lemma_other_name("grid_power"@);
    reveal_strlit("grid_voltage");
    lemma_other_name("grid_voltage"@);
    reveal_strlit("grid_frequency");
    lemma_other_name("grid_frequency"@);
    reveal_strlit("grid_connected");
    lemma_other_name("grid_connected"@);
    reveal_strlit("load_power");
    lemma_other_name("load_power"@);
    reveal_strlit("grid_import_kwh");
    lemma_other_name("grid_import_kwh"@);
    reveal_strlit("grid_export_kwh");
    lemma_other_name("grid_export_kwh"@);
    reveal_strlit("battery_charge_kwh");
    lemma_other_name("battery_charge_kwh"@);
    reveal_strlit("battery_discharge_kwh");
    lemma_other_name("battery_discharge_kwh"@);
    reveal_strlit("solar_generation_kwh");
    lemma_other_name("solar_generation_kwh"@);
    reveal_strlit("load_consumption_kwh");
    lemma_other_name("load_consumption_kwh"@);
    reveal_strlit("config_battery_count");
    lemma_other_name("config_battery_count"@);
    reveal_strlit("config_tick_interval");
    lemma_other_name("config_tick_interval"@);
    reveal_strlit("config_weather");
    lemma_other_name("config_weather"@);
    reveal_strlit("schedule_charge_start");
    lemma_other_name("schedule_charge_start"@);
    reveal_strlit("schedule_charge_end");
    lemma_other_name("schedule_charge_end"@);
    reveal_strlit("schedule_discharge_start");
    lemma_other_name("schedule_discharge_start"@);
    reveal_strlit("schedule_discharge_end");
    lemma_other_name("schedule_discharge_end"@);
    reveal_strlit("schedule_charge_target_soc");
    lemma_other_name("schedule_charge_target_soc"@);
    reveal_strlit("schedule_discharge_target_soc");
    lemma_other_name("schedule_discharge_target_soc"@);
}

/// IR 1300-1307: three-phase fault words: the block keeps the form.
proof fn lemma_three_phase_faults(base: Seq<Definition>)
    requires
        well_formed(base),
        base.len() == 524,
    ensures
        well_formed(three_phase_faults_rows(base)),
        three_phase_faults_rows(base).len() == 532,
        extends(three_phase_faults_rows(base), base),
{
    reveal(three_phase_faults_rows);
}

/// IR 1600-1657: gateway system and energy: the block keeps the form.
proof fn lemma_gateway_system(base: Seq<Definition>)
    requires
        well_formed(base),
        base.len() == 532,
    ensures
        well_formed(gateway_system_rows(base)),
        gateway_system_rows(base).len() == 575,
        extends(gateway_system_rows(base), base),
{
    reveal(gateway_system_rows);
    reveal_strlit("gw_sw_version_0");
    lemma_other_name("gw_sw_version_0"@);
    reveal_strlit("gw_sw_version_1");
    lemma_other_name("gw_sw_version_1"@);
    reveal_strlit("gw_sw_version_2");
    lemma_other_name("gw_sw_version_2"@);
    reveal_strlit("gw_sw_version_3");
    lemma_other_name("gw_sw_version_3"@);
    reveal_strlit("gw_work_mode");
    lemma_other_name("gw_work_mode"@);
    reveal_strlit("gw_v_grid");
    lemma_other_name("gw_v_grid"@);
    reveal_strlit("gw_i_grid");
    lemma_other_name("gw_i_grid"@);
    reveal_strlit("gw_v_load");
    lemma_other_name("gw_v_load"@);
    reveal_strlit("gw_i_load");
    lemma_other_name("gw_i_load"@);
    reveal_strlit("gw_i_pv");
    lemma_other_name("gw_i_pv"@);
    reveal_strlit("gw_p_ac1");
    lemma_other_name("gw_p_ac1"@);
    reveal_strlit("gw_p_pv");
    lemma_other_name("gw_p_pv"@);
    reveal_strlit("gw_p_load");
    lemma_other_name("gw_p_load"@);
    reveal_strlit("gw_p_liberty");
    lemma_other_name("gw_p_liberty"@);
    reveal_strlit("gw_fault_protection_hi");
    lemma_other_name("gw_fault_protection_hi"@);
    reveal_strlit("gw_fault_protection_lo");
    lemma_other_name("gw_fault_protection_lo"@);
    reveal_strlit("gw_fault_codes_hi");
    lemma_other_name("gw_fault_codes_hi"@);
    reveal_strlit("gw_fault_codes_lo");
    lemma_other_name("gw_fault_codes_lo"@);
    reveal_strlit("gw_v_grid_relay");
    lemma_other_name("gw_v_grid_relay"@);
    reveal_strlit("gw_v_inverter_relay");
    lemma_other_name("gw_v_inverter_relay"@);
    reveal_strlit("gw_first_inv_serial_0");
    lemma_other_name("gw_first_inv_serial_0"@);
    reveal_strlit("gw_first_inv_serial_1");
    lemma_other_name("gw_first_inv_serial_1"@);
    reveal_strlit("gw_first_inv_serial_2");
    lemma_other_name("gw_first_inv_serial_2"@);
    reveal_strlit("gw_first_inv_serial_3");
    lemma_other_name("gw_first_inv_serial_3"@);
    reveal_strlit("gw_first_inv_serial_4");
    lemma_other_name("gw_first_inv_serial_4"@);
    reveal_strlit("gw_e_grid_import_today");
    lemma_other_name("gw_e_grid_import_today"@);
    reveal_strlit("gw_e_grid_import_total_hi");
    lemma_other_name("gw_e_grid_import_total_hi"@);
    reveal_strlit("gw_e_grid_import_total_lo");
    lemma_other_name("gw_e_grid_import_total_lo"@);
    reveal_strlit("gw_e_pv_today");
    lemma_other_name("gw_e_pv_today"@);
    reveal_strlit("gw_e_pv_total_hi");
    lemma_other_name("gw_e_pv_total_hi"@);
    reveal_strlit("gw_e_pv_total_lo");
    lemma_other_name("gw_e_pv_total_lo"@);
    reveal_strlit("gw_e_grid_export_today");
    lemma_other_name("gw_e_grid_export_today"@);
    reveal_strlit("gw_e_grid_export_total_hi");
    lemma_other_name("gw_e_grid_export_total_hi"@);
    reveal_strlit("gw_e_grid_export_total_lo");
    lemma_other_name("gw_e_grid_export_total_lo"@);
    reveal_strlit("gw_e_aio_charge_today");
    lemma_other_name("gw_e_aio_charge_today"@);
    reveal_strlit("gw_e_aio_charge_total_hi");
    lemma_other_name("gw_e_aio_charge_total_hi"@);
    reveal_strlit("gw_e_aio_charge_total_lo");
    lemma_other_name("gw_e_aio_charge_total_lo"@);
    reveal_strlit("gw_e_aio_discharge_today");
    lemma_other_name("gw_e_aio_discharge_today"@);
    reveal_strlit("gw_e_aio_discharge_total_hi");
    lemma_other_name("gw_e_aio_discharge_total_hi"@);
    reveal_strlit("gw_e_aio_discharge_total_lo");
    lemma_other_name("gw_e_aio_discharge_total_lo"@);
    reveal_strlit("gw_e_load_today");
    lemma_other_name("gw_e_load_today"@);
    reveal_strlit("gw_e_load_total_hi");
    lemma_other_name("gw_e_load_total_hi"@);
    reveal_strlit("gw_e_load_total_lo");
    lemma_other_name("gw_e_load_total_lo"@);
}

/// IR 1700-1818: gateway units: the block keeps the form.
proof fn lemma_gateway_units(base: Seq<Definition>)
    requires
        well_formed(base),
        base.len() == 575,
    ensures
        well_formed(gateway_units_rows(base)),
        gateway_units_rows(base).len() == 610,
        extends(gateway_units_rows(base), base),
{
    reveal(gateway_units_rows);
    reveal_strlit("gw_parallel_aio_num");
    lemma_other_name("gw_parallel_aio_num"@);
    reveal_strlit("gw_parallel_aio_online_num");
    lemma_other_name("gw_parallel_aio_online_num"@);
    reveal_strlit("gw_p_aio_total");
    lemma_other_name("gw_p_aio_total"@);
    reveal_strlit("gw_aio_state");
    lemma_other_name("gw_aio_state"@);
    reveal_strlit("gw_battery_firmware");
    lemma_other_name("gw_battery_firmware"@);
    reveal_strlit("gw_e_aio1_charge_today");
    lemma_other_name("gw_e_aio1_charge_today"@);
    reveal_strlit("gw_e_aio1_charge_total_hi");
    lemma_other_name("gw_e_aio1_charge_total_hi"@);
    reveal_strlit("gw_e_aio1_charge_total_lo");
    lemma_other_name("gw_e_aio1_charge_total_lo"@);
    reveal_strlit("gw_e_aio2_charge_today");
    lemma_other_name("gw_e_aio2_charge_today"@);
    reveal_strlit("gw_e_aio2_charge_total_hi");
    lemma_other_name("gw_e_aio2_charge_total_hi"@);
    reveal_strlit("gw_e_aio2_charge_total_lo");
    lemma_other_name("gw_e_aio2_charge_total_lo"@);
    reveal_strlit("gw_e_aio3_charge_today");
    lemma_other_name("gw_e_aio3_charge_today"@);
    reveal_strlit("gw_e_aio3_charge_total_hi");
    lemma_other_name("gw_e_aio3_charge_total_hi"@);
    reveal_strlit("gw_e_aio3_charge_total_lo");
    lemma_other_name("gw_e_aio3_charge_total_lo"@);
    reveal_strlit("gw_e_aio1_discharge_today");
    lemma_other_name("gw_e_aio1_discharge_today"@);
    reveal_strlit("gw_e_aio1_discharge_total_hi");
    lemma_other_name("gw_e_aio1_discharge_total_hi"@);
    reveal_strlit("gw_e_aio1_discharge_total_lo");
    lemma_other_name("gw_e_aio1_discharge_total_lo"@);
    reveal_strlit("gw_e_aio2_discharge_today");
    lemma_other_name("gw_e_aio2_discharge_today"@);
    reveal_strlit("gw_e_aio2_discharge_total_hi");
    lemma_other_name("gw_e_aio2_discharge_total_hi"@);
    reveal_strlit("gw_e_aio2_discharge_total_lo");
    lemma_other_name("gw_e_aio2_discharge_total_lo"@);
    reveal_strlit("gw_e_aio3_discharge_today");
    lemma_other_name("gw_e_aio3_discharge_today"@);
    reveal_strlit("gw_e_aio3_discharge_total_hi");
    lemma_other_name("gw_e_aio3_discharge_total_hi"@);
    reveal_strlit("gw_e_aio3_discharge_total_lo");
    lemma_other_name("gw_e_aio3_discharge_total_lo"@);
    reveal_strlit("gw_e_battery_charge_today");
    lemma_other_name("gw_e_battery_charge_today"@);
    reveal_strlit("gw_e_battery_charge_total_hi");
    lemma_other_name("gw_e_battery_charge_total_hi"@);
    reveal_strlit("gw_e_battery_charge_total_lo");
    lemma_other_name("gw_e_battery_charge_total_lo"@);
    reveal_strlit("gw_e_battery_discharge_today");
    lemma_other_name("gw_e_battery_discharge_today"@);
    reveal_strlit("gw_e_battery_discharge_total_hi");
    lemma_other_name("gw_e_battery_discharge_total_hi"@);
    reveal_strlit("gw_e_battery_discharge_total_lo");
    lemma_other_name("gw_e_battery_discharge_total_lo"@);
    reveal_strlit("gw_aio1_soc");
    lemma_other_name("gw_aio1_soc"@);
    reveal_strlit("gw_aio2_soc");
    lemma_other_name("gw_aio2_soc"@);
    reveal_strlit("gw_aio3_soc");
    lemma_other_name("gw_aio3_soc"@);
    reveal_strlit("gw_p_aio1_inverter");
    lemma_other_name("gw_p_aio1_inverter"@);
    reveal_strlit("gw_p_aio2_inverter");
    lemma_other_name("gw_p_aio2_inverter"@);
    reveal_strlit("gw_p_aio3_inverter");
    lemma_other_name("gw_p_aio3_inverter"@);
}

/// IR 1831-1859: gateway serials, for both firmware variants: the block keeps the form.
proof fn lemma_gateway_serials(base: Seq<Definition>)
    requires
        well_formed(base),
        base.len() == 610,
    ensures
        well_formed(gateway_serials_rows(base)),
        gateway_serials_rows(base).len() == 639,
        extends(gateway_serials_rows(base), base),
{
    reveal(gateway_serials_rows);
    reveal_strlit("gw_serial_1831");
    lemma_other_name("gw_serial_1831"@);
    reveal_strlit("gw_serial_1832");
    lemma_other_name("gw_serial_1832"@);
    reveal_strlit("gw_serial_1833");
    lemma_other_name("gw_serial_1833"@);
    reveal_strlit("gw_serial_1834");
    lemma_other_name("gw_serial_1834"@);
    reveal_strlit("gw_serial_1835");
    lemma_other_name("gw_serial_1835"@);
    reveal_strlit("gw_serial_1836");
    lemma_other_name("gw_serial_1836"@);
    reveal_strlit("gw_serial_1837");
    lemma_other_name("gw_serial_1837"@);
    reveal_strlit("gw_serial_1838");
    lemma_other_name("gw_serial_1838"@);
    reveal_strlit("gw_serial_1839");
    lemma_other_name("gw_serial_1839"@);
    reveal_strlit("gw_serial_1840");
    lemma_other_name("gw_serial_1840"@);
    reveal_strlit("gw_serial_1841");
    lemma_other_name("gw_serial_1841"@);
    reveal_strlit("gw_serial_1842");
    lemma_other_name("gw_serial_1842"@);
    reveal_strlit("gw_serial_1843");
    lemma_other_name("gw_serial_1843"@);
    reveal_strlit("gw_serial_1844");
    lemma_other_name("gw_serial_1844"@);
    reveal_strlit("gw_serial_1845");
    lemma_other_name("gw_serial_1845"@);
    reveal_strlit("gw_serial_1846");
    lemma_other_name("gw_serial_1846"@);
    reveal_strlit("gw_serial_1847");
    lemma_other_name("gw_serial_1847"@);
    reveal_strlit("gw_serial_1848");
    lemma_other_name("gw_serial_1848"@);
    reveal_strlit("gw_serial_1849");
    lemma_other_name("gw_serial_1849"@);
    reveal_strlit("gw_serial_1850");
    lemma_other_name("gw_serial_1850"@);
    reveal_strlit("gw_serial_1851");
    lemma_other_name("gw_serial_1851"@);
    reveal_strlit("gw_serial_1852");
    lemma_other_name("gw_serial_1852"@);
    reveal_strlit("gw_serial_1853");
    lemma_other_name("gw_serial_1853"@);
    reveal_strlit("gw_serial_1854");
    lemma_other_name("gw_serial_1854"@);
    reveal_strlit("gw_serial_1855");
    lemma_other_name("gw_serial_1855"@);
    reveal_strlit("gw_serial_1856");
    lemma_other_name("gw_serial_1856"@);
    reveal_strlit("gw_serial_1857");
    lemma_other_name("gw_serial_1857"@);
    reveal_strlit("gw_serial_1858");
    lemma_other_name("gw_serial_1858"@);
    reveal_strlit("gw_serial_1859");
    lemma_other_name("gw_serial_1859"@);
}

/// Law: no two definitions of the catalogue share a storage key, every address
/// lies below the holding offset, and every scale is positive.
pub proof fn law_catalogue_well_formed()
    ensures
        well_formed(catalogue()),
        catalogue().len() == 639,
{
    let d = Seq::<Definition>::empty();
    lemma_native_telemetry(d);
    let d = native_telemetry_rows(d);
    lemma_native_totals(d);
    let d = native_totals_rows(d);
    lemma_meter(d);
    let d = meter_rows(d);
    lemma_native_identity(d);
    let d = native_identity_rows(d);
    lemma_native_settings(d);
    let d = native_settings_rows(d);
    lemma_native_flags(d);
    let d = native_flags_rows(d);
    lemma_charge_slots(d);
    let d = charge_slots_rows(d);
    lemma_discharge_slots(d);
    let d = discharge_slots_rows(d);
    lemma_three_phase_holding(d);
    let d = three_phase_holding_rows(d);
    lemma_three_phase_power(d);
    let d = three_phase_power_rows(d);
    lemma_three_phase_energy(d);
    let d = three_phase_energy_rows(d);
    lemma_ems_holding(d);
    let d = ems_holding_rows(d);
    lemma_ems_input(d);
    let d = ems_input_rows(d);
    lemma_smart_load(d);
    let d = smart_load_rows(d);
    lemma_internal(d);
    let d = internal_rows(d);
    lemma_three_phase_faults(d);
    let d = three_phase_faults_rows(d);
    lemma_gateway_system(d);
    let d = gateway_system_rows(d);
    lemma_gateway_units(d);
    let d = gateway_units_rows(d);
    lemma_gateway_serials(d);
    let d = gateway_serials_rows(d);
}

/// The definition with storage key `key`.
pub open spec fn definition_at(key: int) -> Definition {
    catalogue()[place(key)]
}

/// The fault words and the readings of the grid power have the names by which the
/// projection knows them, and so has every register of the meter.
pub proof fn lemma_known_names(key: int)
    ensures
        definition_at(30).name == "ge_ir_grid_power"@,
        definition_at(39).name == "ge_ir_fault_code_high"@,
        definition_at(40).name == "ge_ir_fault_code_low"@,
        definition_at(71).name == "meter_p_active_total"@,
        definition_at(registers::HOLDING_OFFSET + 223).name == "ge_hr_inverter_errors_high"@,
        definition_at(registers::HOLDING_OFFSET + 224).name == "ge_hr_inverter_errors_low"@,
        definition_at(registers::HOLDING_OFFSET + 400).name == "grid_power"@,
        60 <= key <= 89 ==> text::has_prefix(definition_at(key).name, "meter_"@),
        1300 <= key <= 1307 ==> projection::three_phase::is_fault_register(
            definition_at(key).name,
        ),
{
    let d0 = Seq::<Definition>::empty();
    lemma_native_telemetry(d0);
    let d1 = native_telemetry_rows(d0);
    lemma_native_totals(d1);
    let d2 = native_totals_rows(d1);
    lemma_meter(d2);
    let d3 = meter_rows(d2);
    lemma_native_identity(d3);
    let d4 = native_identity_rows(d3);
    lemma_native_settings(d4);
    let d5 = native_settings_rows(d4);
    lemma_native_flags(d5);
    let d6 = native_flags_rows(d5);
    lemma_charge_slots(d6);
    let d7 = charge_slots_rows(d6);
    lemma_discharge_slots(d7);
    let d8 = discharge_slots_rows(d7);
    lemma_three_phase_holding(d8);
    let d9 = three_phase_holding_rows(d8);
    lemma_three_phase_power(d9);
    let d10 = three_phase_power_rows(d9);
    lemma_three_phase_energy(d10);
    let d11 = three_phase_energy_rows(d10);
    lemma_ems_holding(d11);
    let d12 = ems_holding_rows(d11);
    lemma_ems_input(d12);
    let d13 = ems_input_rows(d12);
    lemma_smart_load(d13);
    let d14 = smart_load_rows(d13);
    lemma_internal(d14);
    let d15 = internal_rows(d14);
    lemma_three_phase_faults(d15);
    let d16 = three_phase_faults_rows(d15);
    lemma_gateway_system(d16);
    let d17 = gateway_system_rows(d16);
    lemma_gateway_units(d17);
    let d18 = gateway_units_rows(d17);
    lemma_gateway_serials(d18);
    let d19 = gateway_serials_rows(d18);
    lemma_telemetry_names(d0);
    lemma_totals_names(d1);
    lemma_meter_names(d2, key);
    lemma_internal_names(d14);
    lemma_fault_names(d15, key);
}

/// The names of the fault words among the native telemetry.
proof fn lemma_telemetry_names(base: Seq<Definition>)
    requires
        base.len() == 0,
    ensures
        native_telemetry_rows(base)[place(39)].name == "ge_ir_fault_code_high"@,
        native_telemetry_rows(base)[place(40)].name == "ge_ir_fault_code_low"@,
{
    reveal(native_telemetry_rows);
}

/// The name of the grid power among the native totals.
proof fn lemma_totals_names(base: Seq<Definition>)
    requires
        base.len() == 34,
    ensures
        native_totals_rows(base)[place(30)].name == "ge_ir_grid_power"@,
{
    reveal(native_totals_rows);
}

/// The names of the registers of the meter.
proof fn lemma_meter_names(base: Seq<Definition>, key: int)
    requires
        base.len() == 65,
    ensures
        meter_rows(base)[place(71)].name == "meter_p_active_total"@,
        60 <= key <= 89 ==> text::has_prefix(meter_rows(base)[place(key)].name, "meter_"@),
{
    reveal(meter_rows);
    reveal_strlit("meter_");
    reveal_strlit("meter_v_phase_1");
    assert("meter_v_phase_1"@.subrange(0, 6) =~= "meter_"@);
    reveal_strlit("meter_v_phase_2");
    assert("meter_v_phase_2"@.subrange(0, 6) =~= "meter_"@);
    reveal_strlit("meter_v_phase_3");
    assert("meter_v_phase_3"@.subrange(0, 6) =~= "meter_"@);
    reveal_strlit("meter_i_phase_1");
    assert("meter_i_phase_1"@.subrange(0, 6) =~= "meter_"@);
    reveal_strlit("meter_i_phase_2");
    assert("meter_i_phase_2"@.subrange(0, 6) =~= "meter_"@);
    reveal_strlit("meter_i_phase_3");
    assert("meter_i_phase_3"@.subrange(0, 6) =~= "meter_"@);
    reveal_strlit("meter_i_ln");
    assert("meter_i_ln"@.subrange(0, 6) =~= "meter_"@);
    reveal_strlit("meter_i_total");
    assert("meter_i_total"@.subrange(0, 6) =~= "meter_"@);
    reveal_strlit("meter_p_active_phase_1");
    assert("meter_p_active_phase_1"@.subrange(0, 6) =~= "meter_"@);
    reveal_strlit("meter_p_active_phase_2");
    assert("meter_p_active_phase_2"@.subrange(0, 6) =~= "meter_"@);
    reveal_strlit("meter_p_active_phase_3");
    assert("meter_p_active_phase_3"@.subrange(0, 6) =~= "meter_"@);
    reveal_strlit("meter_p_active_total");
    assert("meter_p_active_total"@.subrange(0, 6) =~= "meter_"@);
    reveal_strlit("meter_p_reactive_phase_1");
    assert("meter_p_reactive_phase_1"@.subrange(0, 6) =~= "meter_"@);
    reveal_strlit("meter_p_reactive_phase_2");
    assert("meter_p_reactive_phase_2"@.subrange(0, 6) =~= "meter_"@);
    reveal_strlit("meter_p_reactive_phase_3");
    assert("meter_p_reactive_phase_3"@.subrange(0, 6) =~= "meter_"@);
    reveal_strlit("meter_p_reactive_total");
    assert("meter_p_reactive_total"@.subrange(0, 6) =~= "meter_"@);
    reveal_strlit("meter_p_apparent_phase_1");
    assert("meter_p_apparent_phase_1"@.subrange(0, 6) =~= "meter_"@);
    reveal_strlit("meter_p_apparent_phase_2");
    assert("meter_p_apparent_phase_2"@.subrange(0, 6) =~= "meter_"@);
    reveal_strlit("meter_p_apparent_phase_3");
    assert("meter_p_apparent_phase_3"@.subrange(0, 6) =~= "meter_"@);
    reveal_strlit("meter_p_apparent_total");
    assert("meter_p_apparent_total"@.subrange(0, 6) =~= "meter_"@);
    reveal_strlit("meter_pf_phase_1");
    assert("meter_pf_phase_1"@.subrange(0, 6) =~= "meter_"@);
    reveal_strlit("meter_pf_phase_2");
    assert("meter_pf_phase_2"@.subrange(0, 6) =~= "meter_"@);
    reveal_strlit("meter_pf_phase_3");
    assert("meter_pf_phase_3"@.subrange(0, 6) =~= "meter_"@);
    reveal_strlit("meter_pf_total");
    assert("meter_pf_total"@.subrange(0, 6) =~= "meter_"@);
    reveal_strlit("meter_frequency");
    assert("meter_frequency"@.subrange(0, 6) =~= "meter_"@);
    reveal_strlit("meter_e_import_active");
    assert("meter_e_import_active"@.subrange(0, 6) =~= "meter_"@);
    reveal_strlit("meter_e_import_reactive");
    assert("meter_e_import_reactive"@.subrange(0, 6) =~= "meter_"@);
    reveal_strlit("meter_e_export_active");
    assert("meter_e_export_active"@.subrange(0, 6) =~= "meter_"@);
    reveal_strlit("meter_e_export_reactive");
    assert("meter_e_export_reactive"@.subrange(0, 6) =~= "meter_"@);
    reveal_strlit("meter_reserved");
    assert("meter_reserved"@.subrange(0, 6) =~= "meter_"@);
}

/// The names of the fault words and of the grid power among the registers of the
/// simulator.
proof fn lemma_internal_names(base: Seq<Definition>)
    requires
        base.len() == 476,
    ensures
        internal_rows(base)[place(10223)].name == "ge_hr_inverter_errors_high"@,
        internal_rows(base)[place(10224)].name == "ge_hr_inverter_errors_low"@,
        internal_rows(base)[place(10400)].name == "grid_power"@,
{
    reveal(internal_rows);
}

/// The names of the fault words of a three-phase inverter.
proof fn lemma_fault_names(base: Seq<Definition>, key: int)
    requires
        base.len() == 524,
    ensures
        1300 <= key <= 1307 ==> projection::three_phase::is_fault_register(
            three_phase_faults_rows(base)[place(key)].name,
        ),
{
    reveal(three_phase_faults_rows);
}

/// The catalogue up to its block native telemetry.
pub open spec fn up_to_native_telemetry() -> Seq<Definition> {
    native_telemetry_rows(Seq::<Definition>::empty())
}

/// The catalogue up to its block native totals.
pub open spec fn up_to_native_totals() -> Seq<Definition> {
    native_totals_rows(up_to_native_telemetry())
}

/// The catalogue up to its block meter.
pub open spec fn up_to_meter() -> Seq<Definition> {
    meter_rows(up_to_native_totals())
}

/// The catalogue up to its block native identity.
pub open spec fn up_to_native_identity() -> Seq<Definition> {
    native_identity_rows(up_to_meter())
}

/// The catalogue up to its block native settings.
pub open spec fn up_to_native_settings() -> Seq<Definition> {
    native_settings_rows(up_to_native_identity())
}

/// The catalogue up to its block native flags.
pub open spec fn up_to_native_flags() -> Seq<Definition> {
    native_flags_rows(up_to_native_settings())
}

/// The catalogue up to its block charge slots.
pub open spec fn up_to_charge_slots() -> Seq<Definition> {
    charge_slots_rows(up_to_native_flags())
}

/// The catalogue up to its block discharge slots.
pub open spec fn up_to_discharge_slots() -> Seq<Definition> {
    discharge_slots_rows(up_to_charge_slots())
}

/// The catalogue up to its block three phase holding.
pub open spec fn up_to_three_phase_holding() -> Seq<Definition> {
    three_phase_holding_rows(up_to_discharge_slots())
}

/// The catalogue up to its block three phase power.
pub open spec fn up_to_three_phase_power() -> Seq<Definition> {
    three_phase_power_rows(up_to_three_phase_holding())
}

/// The catalogue up to its block three phase energy.
pub open spec fn up_to_three_phase_energy() -> Seq<Definition> {
    three_phase_energy_rows(up_to_three_phase_power())
}

/// The catalogue up to its block ems holding.
pub open spec fn up_to_ems_holding() -> Seq<Definition> {
    ems_holding_rows(up_to_three_phase_energy())
}

/// The catalogue up to its block ems input.
pub open spec fn up_to_ems_input() -> Seq<Definition> {
    ems_input_rows(up_to_ems_holding())
}

/// The catalogue up to its block smart load.
pub open spec fn up_to_smart_load() -> Seq<Definition> {
    smart_load_rows(up_to_ems_input())
}

/// The catalogue up to its block internal.
pub open spec fn up_to_internal() -> Seq<Definition> {
    internal_rows(up_to_smart_load())
}

/// The catalogue up to its block three phase faults.
pub open spec fn up_to_three_phase_faults() -> Seq<Definition> {
    three_phase_faults_rows(up_to_internal())
}

/// The catalogue up to its block gateway system.
pub open spec fn up_to_gateway_system() -> Seq<Definition> {
    gateway_system_rows(up_to_three_phase_faults())
}

/// The catalogue up to its block gateway units.
pub open spec fn up_to_gateway_units() -> Seq<Definition> {
    gateway_units_rows(up_to_gateway_system())
}

/// The catalogue up to its block gateway serials.
pub open spec fn up_to_gateway_serials() -> Seq<Definition> {
    gateway_serials_rows(up_to_gateway_units())
}

/// The catalogue begins with each of its beginnings.
pub proof fn lemma_prefixes()
    ensures
        up_to_native_telemetry().len() == 34,
        extends(catalogue(), up_to_native_telemetry()),
        up_to_native_totals().len() == 65,
        extends(catalogue(), up_to_native_totals()),
        up_to_meter().len() == 95,
        extends(catalogue(), up_to_meter()),
        up_to_native_identity().len() == 133,
        extends(catalogue(), up_to_native_identity()),
        up_to_native_settings().len() == 170,
        extends(catalogue(), up_to_native_settings()),
        up_to_native_flags().len() == 206,
        extends(catalogue(), up_to_native_flags()),
        up_to_charge_slots().len() == 230,
        extends(catalogue(), up_to_charge_slots()),
        up_to_discharge_slots().len() == 256,
        extends(catalogue(), up_to_discharge_slots()),
        up_to_three_phase_holding().len() == 273,
        extends(catalogue(), up_to_three_phase_holding()),
        up_to_three_phase_power().len() == 326,
        extends(catalogue(), up_to_three_phase_power()),
        up_to_three_phase_energy().len() == 373,
        extends(catalogue(), up_to_three_phase_energy()),
        up_to_ems_holding().len() == 409,
        extends(catalogue(), up_to_ems_holding()),
        up_to_ems_input().len() == 446,
        extends(catalogue(), up_to_ems_input()),
        up_to_smart_load().len() == 476,
        extends(catalogue(), up_to_smart_load()),
        up_to_internal().len() == 524,
        extends(catalogue(), up_to_internal()),
        up_to_three_phase_faults().len() == 532,
        extends(catalogue(), up_to_three_phase_faults()),
        up_to_gateway_system().len() == 575,
        extends(catalogue(), up_to_gateway_system()),
        up_to_gateway_units().len() == 610,
        extends(catalogue(), up_to_gateway_units()),
        up_to_gateway_serials().len() == 639,
        extends(catalogue(), up_to_gateway_serials()),
{
    lemma_native_telemetry(Seq::<Definition>::empty());
    lemma_native_totals(up_to_native_telemetry());
    lemma_meter(up_to_native_totals());
    lemma_native_identity(up_to_meter());
    lemma_native_settings(up_to_native_identity());
    lemma_native_flags(up_to_native_settings());
    lemma_charge_slots(up_to_native_flags());
    lemma_discharge_slots(up_to_charge_slots());
    lemma_three_phase_holding(up_to_discharge_slots());
    lemma_three_phase_power(up_to_three_phase_holding());
    lemma_three_phase_energy(up_to_three_phase_power());
    lemma_ems_holding(up_to_three_phase_energy());
    lemma_ems_input(up_to_ems_holding());
    lemma_smart_load(up_to_ems_input());
    lemma_internal(up_to_smart_load());
    lemma_three_phase_faults(up_to_internal());
    lemma_gateway_system(up_to_three_phase_faults());
    lemma_gateway_units(up_to_gateway_system());
    lemma_gateway_serials(up_to_gateway_units());
}

} // verus!
