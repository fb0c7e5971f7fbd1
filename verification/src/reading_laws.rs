//! What clients can rely on in the readings of single registers.
use crate::fixed;
use crate::model;
use crate::projection;
use crate::projection::native_input;
use crate::register_laws;
use crate::registers::Definition;
use crate::state;
use crate::state::PlantState;
use vstd::prelude::*;

verus! {

/// Whether `name` is one of the battery readings of the identity block.
pub open spec fn is_battery_reading(name: Seq<char>) -> bool {
    ||| name == "ge_ir_battery_voltage"@
    ||| name == "ge_ir_battery_current"@
    ||| name == "ge_ir_battery_power"@
    ||| name == "ge_ir_battery_temperature"@
    ||| name == "ge_ir_battery_soc"@
}

/// What some of the native input registers show. The names are told apart by their
/// lengths and, where these agree, by a character.
pub proof fn lemma_native_readings(d: Definition, s: PlantState)
    ensures
        d.name == "ge_ir_fault_code_high"@ ==> projection::projected(d, s) == Some(
            fixed::high_half(native_input::single_phase_faults(s)),
        ),
        d.name == "ge_ir_fault_code_low"@ ==> projection::projected(d, s) == Some(
            fixed::low_half(native_input::single_phase_faults(s)),
        ),
        d.name == "ge_ir_grid_power"@ ==> projection::projected(d, s) == Some(
            fixed::signed_cut_word(-s.grid.power_w@, 1_000_000),
        ),
        d.name == "ge_ir_eps_backup_power"@ ==> projection::projected(d, s) == Some(
            if s.enable_eps && state::fault_active(s.active_faults@, "grid_loss"@) {
                projection::scaled(fixed::positive_part(-s.battery.power_kw@) * 1000, 1, d.scale)
            } else {
                projection::scaled(0, 1, d.scale)
            },
        ),
        d.name == "ge_ir_pv_total_high"@ ==> projection::projected(d, s) == Some(
            fixed::high_half(fixed::wide(s.energy_totals.solar_lifetime_kwh@, 100_000)),
        ),
        d.name == "ge_ir_pv_total_low"@ ==> projection::projected(d, s) == Some(
            fixed::low_half(fixed::wide(s.energy_totals.solar_lifetime_kwh@, 100_000)),
        ),
        d.name == "ge_ir_battery_power"@ && !model::gateway(s.config.inverter_type@)
            ==> projection::projected(d, s) == Some(
            fixed::signed_cut_word(-(s.battery.power_kw@ * 1000), 1_000_000),
        ),
        is_battery_reading(d.name) && model::gateway(s.config.inverter_type@)
            ==> projection::projected(d, s) == Some(0int) || projection::projected(d, s) == Some(
            projection::scaled(0, 1, d.scale),
        ),
{
    reveal(projection::projected);
    reveal_strlit("meter_");
    assert("meter_"@[0] == 'm');
    assert(d.name.len() >= 6 ==> d.name.subrange(0, 6)[0] == d.name[0]);
    reveal_strlit("ge_ir_status");
    reveal_strlit("ge_ir_pv1_voltage");
    reveal_strlit("ge_ir_pv2_voltage");
    reveal_strlit("ge_ir_p_bus_voltage");
    reveal_strlit("ge_ir_high_bus_voltage");
    reveal_strlit("ge_ir_n_bus_voltage");
    reveal_strlit("ge_ir_grid_voltage");
    reveal_strlit("ge_ir_battery_throughput_high");
    reveal_strlit("ge_ir_battery_throughput_low");
    reveal_strlit("ge_ir_pv1_current");
    reveal_strlit("ge_ir_pv2_current");
    reveal_strlit("ge_ir_ac_current");
    reveal_strlit("ge_ir_pv_total_high");
    reveal_strlit("ge_ir_pv_total_low");
    reveal_strlit("ge_ir_grid_frequency");
    reveal_strlit("ge_ir_charge_status");
    reveal_strlit("ge_ir_inverter_output_pf");
    reveal_strlit("ge_ir_pv1_energy_today");
    reveal_strlit("ge_ir_pv1_power");
    reveal_strlit("ge_ir_pv2_energy_today");
    reveal_strlit("ge_ir_pv2_power");
    reveal_strlit("ge_ir_grid_export_total_high");
    reveal_strlit("ge_ir_grid_export_total_low");
    reveal_strlit("ge_ir_solar_diverter_energy");
    reveal_strlit("ge_ir_inverter_terminal_power");
    reveal_strlit("ge_ir_today_export_energy");
    reveal_strlit("ge_ir_today_import_energy");
    reveal_strlit("ge_ir_inverter_input_total_high");
    reveal_strlit("ge_ir_inverter_input_total_low");
    reveal_strlit("ge_ir_discharge_year");
    reveal_strlit("ge_ir_grid_power");
    reveal_strlit("ge_ir_eps_backup_power");
    reveal_strlit("ge_ir_grid_import_total_high");
    reveal_strlit("ge_ir_grid_import_total_low");
    reveal_strlit("ge_ir_ac_charge_today");
    reveal_strlit("ge_ir_today_charge_energy");
    reveal_strlit("ge_ir_today_discharge_energy");
    reveal_strlit("ge_ir_countdown");
    reveal_strlit("ge_ir_fault_code_high");
    reveal_strlit("ge_ir_fault_code_low");
    reveal_strlit("ge_ir_inverter_temperature");
    reveal_strlit("ge_ir_charger_temperature");
    reveal_strlit("ge_ir_load_demand");
    reveal_strlit("ge_ir_grid_apparent");
    reveal_strlit("ge_ir_pv_generation_today");
    reveal_strlit("ge_ir_pv_generation_total_high");
    reveal_strlit("ge_ir_pv_generation_total_low");
    reveal_strlit("ge_ir_work_time_total_high");
    reveal_strlit("ge_ir_work_time_total_low");
    reveal_strlit("ge_ir_system_mode");
    reveal_strlit("ge_ir_battery_voltage");
    reveal_strlit("ge_ir_battery_current");
    reveal_strlit("ge_ir_battery_power");
    reveal_strlit("ge_ir_eps_voltage");
    reveal_strlit("ge_ir_eps_frequency");
    reveal_strlit("ge_ir_battery_temperature");
    reveal_strlit("ge_ir_charger_warning_code");
    reveal_strlit("ge_ir_grid_port_current");
    reveal_strlit("ge_ir_battery_soc");
    reveal_strlit("ge_ir_threephase_fault_0");
    reveal_strlit("ge_ir_threephase_fault_1");
    reveal_strlit("ge_ir_threephase_fault_2");
    reveal_strlit("ge_ir_threephase_fault_3");
    reveal_strlit("ge_ir_threephase_fault_4");
    reveal_strlit("ge_ir_threephase_fault_5");
    reveal_strlit("ge_ir_threephase_fault_6");
    reveal_strlit("ge_ir_threephase_fault_7");
    assert("ge_ir_status"@.len() == 12);
    assert("ge_ir_pv1_voltage"@.len() == 17);
    assert("ge_ir_pv2_voltage"@.len() == 17);
    assert("ge_ir_p_bus_voltage"@.len() == 19);
    assert("ge_ir_high_bus_voltage"@.len() == 22);
    assert("ge_ir_n_bus_voltage"@.len() == 19);
    assert("ge_ir_grid_voltage"@.len() == 18);
    assert("ge_ir_battery_throughput_high"@.len() == 29);
    assert("ge_ir_battery_throughput_low"@.len() == 28);
    assert("ge_ir_pv1_current"@.len() == 17);
    assert("ge_ir_pv2_current"@.len() == 17);
    assert("ge_ir_ac_current"@.len() == 16);
    assert("ge_ir_pv_total_high"@.len() == 19);
    assert("ge_ir_pv_total_low"@.len() == 18);
    assert("ge_ir_grid_frequency"@.len() == 20);
    assert("ge_ir_charge_status"@.len() == 19);
    assert("ge_ir_inverter_output_pf"@.len() == 24);
    assert("ge_ir_pv1_energy_today"@.len() == 22);
    assert("ge_ir_pv1_power"@.len() == 15);
    assert("ge_ir_pv2_energy_today"@.len() == 22);
    assert("ge_ir_pv2_power"@.len() == 15);
    assert("ge_ir_grid_export_total_high"@.len() == 28);
    assert("ge_ir_grid_export_total_low"@.len() == 27);
    assert("ge_ir_solar_diverter_energy"@.len() == 27);
    assert("ge_ir_inverter_terminal_power"@.len() == 29);
    assert("ge_ir_today_export_energy"@.len() == 25);
    assert("ge_ir_today_import_energy"@.len() == 25);
    assert("ge_ir_inverter_input_total_high"@.len() == 31);
    assert("ge_ir_inverter_input_total_low"@.len() == 30);
    assert("ge_ir_discharge_year"@.len() == 20);
    assert("ge_ir_grid_power"@.len() == 16);
    assert("ge_ir_eps_backup_power"@.len() == 22);
    assert("ge_ir_grid_import_total_high"@.len() == 28);
    assert("ge_ir_grid_import_total_low"@.len() == 27);
    assert("ge_ir_ac_charge_today"@.len() == 21);
    assert("ge_ir_today_charge_energy"@.len() == 25);
    assert("ge_ir_today_discharge_energy"@.len() == 28);
    assert("ge_ir_countdown"@.len() == 15);
    assert("ge_ir_fault_code_high"@.len() == 21);
    assert("ge_ir_fault_code_low"@.len() == 20);
    assert("ge_ir_inverter_temperature"@.len() == 26);
    assert("ge_ir_charger_temperature"@.len() == 25);
    assert("ge_ir_load_demand"@.len() == 17);
    assert("ge_ir_grid_apparent"@.len() == 19);
    assert("ge_ir_pv_generation_today"@.len() == 25);
    assert("ge_ir_pv_generation_total_high"@.len() == 30);
    assert("ge_ir_pv_generation_total_low"@.len() == 29);
    assert("ge_ir_work_time_total_high"@.len() == 26);
    assert("ge_ir_work_time_total_low"@.len() == 25);
    assert("ge_ir_system_mode"@.len() == 17);
    assert("ge_ir_battery_voltage"@.len() == 21);
    assert("ge_ir_battery_current"@.len() == 21);
    assert("ge_ir_battery_power"@.len() == 19);
    assert("ge_ir_eps_voltage"@.len() == 17);
    assert("ge_ir_eps_frequency"@.len() == 19);
    assert("ge_ir_battery_temperature"@.len() == 25);
    assert("ge_ir_charger_warning_code"@.len() == 26);
    assert("ge_ir_grid_port_current"@.len() == 23);
    assert("ge_ir_battery_soc"@.len() == 17);
    assert("ge_ir_threephase_fault_0"@.len() == 24);
    assert("ge_ir_threephase_fault_1"@.len() == 24);
    assert("ge_ir_threephase_fault_2"@.len() == 24);
    assert("ge_ir_threephase_fault_3"@.len() == 24);
    assert("ge_ir_threephase_fault_4"@.len() == 24);
    assert("ge_ir_threephase_fault_5"@.len() == 24);
    assert("ge_ir_threephase_fault_6"@.len() == 24);
    assert("ge_ir_threephase_fault_7"@.len() == 24);
    assert("ge_ir_eps_backup_power"@[0] == 'g');
    assert("ge_ir_battery_power"@[0] == 'g');
    assert("ge_ir_pv_total_high"@[0] == 'g');
    assert("ge_ir_pv_total_low"@[0] == 'g');
    assert("ge_ir_battery_voltage"@[0] == 'g');
    assert("ge_ir_battery_current"@[0] == 'g');
    assert("ge_ir_battery_temperature"@[0] == 'g');
    assert("ge_ir_battery_soc"@[0] == 'g');
    assert("ge_ir_fault_code_high"@[0] == 'g');
    assert("ge_ir_fault_code_low"@[0] == 'g');
    assert("ge_ir_grid_power"@[0] == 'g');
    assert("ge_ir_fault_code_low"@[6] == 'f');
    assert("ge_ir_grid_frequency"@[6] == 'g');
    assert("ge_ir_discharge_year"@[6] == 'd');
    assert("ge_ir_grid_power"@[6] == 'g');
    assert("ge_ir_ac_current"@[6] == 'a');
    assert("ge_ir_high_bus_voltage"@[6] == 'h');
    assert("ge_ir_eps_backup_power"@[6] == 'e');
    assert("ge_ir_pv1_energy_today"@[6] == 'p');
    assert("ge_ir_pv2_energy_today"@[6] == 'p');
    assert("ge_ir_p_bus_voltage"@[6] == 'p');
    assert("ge_ir_battery_power"@[6] == 'b');
    assert("ge_ir_n_bus_voltage"@[6] == 'n');
    assert("ge_ir_pv_total_high"@[6] == 'p');
    assert("ge_ir_charge_status"@[6] == 'c');
    assert("ge_ir_grid_apparent"@[6] == 'g');
    assert("ge_ir_p_bus_voltage"@[7] == '_');
    assert("ge_ir_pv_total_high"@[7] == 'v');
    assert("ge_ir_grid_voltage"@[6] == 'g');
    assert("ge_ir_pv_total_low"@[6] == 'p');
    assert("ge_ir_ac_charge_today"@[6] == 'a');
    assert("ge_ir_battery_voltage"@[6] == 'b');
    assert("ge_ir_fault_code_high"@[6] == 'f');
    assert("ge_ir_battery_current"@[6] == 'b');
    assert("ge_ir_battery_voltage"@[14] == 'v');
    assert("ge_ir_battery_current"@[14] == 'c');
    assert("ge_ir_today_export_energy"@[6] == 't');
    assert("ge_ir_battery_temperature"@[6] == 'b');
    assert("ge_ir_today_import_energy"@[6] == 't');
    assert("ge_ir_today_charge_energy"@[6] == 't');
    assert("ge_ir_charger_temperature"@[6] == 'c');
    assert("ge_ir_pv_generation_today"@[6] == 'p');
    assert("ge_ir_work_time_total_low"@[6] == 'w');
    assert("ge_ir_pv1_voltage"@[6] == 'p');
    assert("ge_ir_battery_soc"@[6] == 'b');
    assert("ge_ir_pv2_voltage"@[6] == 'p');
    assert("ge_ir_pv1_current"@[6] == 'p');
    assert("ge_ir_pv2_current"@[6] == 'p');
    assert("ge_ir_load_demand"@[6] == 'l');
    assert("ge_ir_system_mode"@[6] == 's');
    assert("ge_ir_eps_voltage"@[6] == 'e');
}

/// Law: the backup circuit shows power only while it is armed and the grid is lost,
/// and then only what the battery gives.
pub proof fn law_backup_power_only_in_an_outage(d: Definition, s: PlantState)
    requires
        d.name == "ge_ir_eps_backup_power"@,
        !s.enable_eps || !state::fault_active(s.active_faults@, "grid_loss"@)
            || s.battery.power_kw@ >= 0,
    ensures
        projection::projected(d, s) == Some(0int),
{
    lemma_native_readings(d, s);
    register_laws::law_zero_shows_zero(1, d.scale);
}

/// Law: the battery power reads negative while the battery charges and positive
/// while it discharges, from one watt on.
pub proof fn law_battery_power_sign(d: Definition, s: PlantState)
    requires
        d.name == "ge_ir_battery_power"@,
        !model::gateway(s.config.inverter_type@),
    ensures
        projection::projected(d, s) matches Some(w) && {
            &&& s.battery.power_kw@ >= 1_000 ==> 32768 <= w <= 65535
            &&& s.battery.power_kw@ <= -1_000 ==> 1 <= w <= 32767
            &&& -1_000 < s.battery.power_kw@ < 1_000 ==> w == 0
        },
{
    lemma_native_readings(d, s);
}

/// Law: the total of generation is that of the plant's life: the two words give its
/// tenths of a kilowatt-hour, whatever the totals of the day are.
pub proof fn law_generation_total_is_lifetime(high: Definition, low: Definition, s: PlantState)
    requires
        high.name == "ge_ir_pv_total_high"@,
        low.name == "ge_ir_pv_total_low"@,
    ensures
        match (projection::projected(high, s), projection::projected(low, s)) {
            (Some(h), Some(l)) => h * 65536 + l == fixed::wide(
                s.energy_totals.solar_lifetime_kwh@,
                100_000,
            ),
            _ => false,
        },
{
    lemma_native_readings(high, s);
    lemma_native_readings(low, s);
    fixed::law_halves_recombine(fixed::wide(s.energy_totals.solar_lifetime_kwh@, 100_000));
}

/// Law: the identity block of a gateway shows no battery: its batteries belong to
/// the units behind it.
pub proof fn law_gateway_shows_no_battery(d: Definition, s: PlantState)
    requires
        is_battery_reading(d.name),
        model::gateway(s.config.inverter_type@),
    ensures
        projection::projected(d, s) == Some(0int),
{
    lemma_native_readings(d, s);
    register_laws::law_zero_shows_zero(1, d.scale);
}

} // verus!
