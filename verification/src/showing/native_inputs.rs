//! What the native input registers show.
use crate::catalogue;
use crate::projection;
use crate::showing::{definitions, names, plain, words};
use crate::state::PlantState;
use vstd::prelude::*;

verus! {

/// Law: what IR 0-4, 10, 14-15 show of a plant.
#[verifier::spinoff_prover]
#[verifier::rlimit(60)]
pub proof fn law_ir_0_to_15(values: Map<u32, u16>, s: PlantState)
    ensures
        words::input(values, s, 0) == Some(
            (if plain::raised(s.active_faults@, "inverter_trip"@) { 3int } else { 1int }) as u16,
        ),
        words::input(values, s, 1) == Some(
            (if s.solar.pv1_w@ > 0 { 3500int } else { 0int }) as u16,
        ),
        words::input(values, s, 2) == Some(
            (if s.solar.pv2_w@ > 0 || s.config.pv2_peak_watts@ > 0 {
                3500int
            } else {
                0int
            }) as u16,
        ),
        words::input(values, s, 3) == Some(
            (if s.solar.generation_w@ > 0 { 3800int } else { 0int }) as u16,
        ),
        words::input(values, s, 4) == Some(0u16),
        words::input(values, s, 10) == Some(
            plain::word(plain::size(s.inverter.ac_power_w@), 24_000_000) as u16,
        ),
        words::input(values, s, 14) == Some(
            (if s.battery.power_kw@ > 10000 {
                1int
            } else if s.battery.power_kw@ < -10000 {
                2int
            } else {
                0int
            }) as u16,
        ),
        words::input(values, s, 15) == Some(
            (if s.solar.generation_w@ > 0 { 3800int } else { 0int }) as u16,
        ),
{
    definitions::lemma_native_telemetry();
    names::lemma_input_a_names();
    names::lemma_input_b_names();
    names::lemma_fault_names();
    words::lemma_scales();
    words::lemma_plain(s);
    names::lemma_native(catalogue::definition_at(0), s);
    words::lemma_word(values, s, 0);
    names::lemma_native(catalogue::definition_at(1), s);
    words::lemma_word(values, s, 1);
    names::lemma_native(catalogue::definition_at(2), s);
    words::lemma_word(values, s, 2);
    names::lemma_native(catalogue::definition_at(3), s);
    words::lemma_word(values, s, 3);
    names::lemma_native(catalogue::definition_at(4), s);
    words::lemma_word(values, s, 4);
    names::lemma_native(catalogue::definition_at(10), s);
    words::lemma_word(values, s, 10);
    names::lemma_native(catalogue::definition_at(14), s);
    words::lemma_word(values, s, 14);
    names::lemma_native(catalogue::definition_at(15), s);
    words::lemma_word(values, s, 15);
}

/// Law: what IR 16, 23-24, 27-29, 31, 38 show of a plant.
#[verifier::spinoff_prover]
#[verifier::rlimit(60)]
pub proof fn law_ir_16_to_38(values: Map<u32, u16>, s: PlantState)
    ensures
        words::input(values, s, 16) == Some(10000u16),
        words::input(values, s, 23) == Some(0u16),
        words::input(values, s, 24) == Some(
            plain::signed_word(s.inverter.ac_power_w@, 1_000_000) as u16,
        ),
        words::input(values, s, 27) == Some(
            plain::upper(plain::long(s.energy_totals.ac_charge_kwh@, 100_000)) as u16,
        ),
        words::input(values, s, 28) == Some(
            plain::lower(plain::long(s.energy_totals.ac_charge_kwh@, 100_000)) as u16,
        ),
        words::input(values, s, 29) == Some(
            plain::word(s.energy_totals.battery_discharge_kwh@, 100_000) as u16,
        ),
        words::input(values, s, 31) == Some(
            (if s.enable_eps && plain::raised(s.active_faults@, "grid_loss"@) {
                plain::word(plain::gain(-s.battery.power_kw@) * 1000, 1_000_000)
            } else {
                0int
            }) as u16,
        ),
        words::input(values, s, 38) == Some(0u16),
{
    definitions::lemma_native_telemetry();
    names::lemma_input_a_names();
    names::lemma_input_b_names();
    names::lemma_fault_names();
    words::lemma_scales();
    words::lemma_plain(s);
    names::lemma_native(catalogue::definition_at(16), s);
    words::lemma_word(values, s, 16);
    names::lemma_native(catalogue::definition_at(23), s);
    words::lemma_word(values, s, 23);
    names::lemma_native(catalogue::definition_at(24), s);
    words::lemma_word(values, s, 24);
    names::lemma_native(catalogue::definition_at(27), s);
    words::lemma_word(values, s, 27);
    names::lemma_native(catalogue::definition_at(28), s);
    words::lemma_word(values, s, 28);
    names::lemma_native(catalogue::definition_at(29), s);
    words::lemma_word(values, s, 29);
    names::lemma_native(catalogue::definition_at(31), s);
    words::lemma_word(values, s, 31);
    names::lemma_native(catalogue::definition_at(38), s);
    words::lemma_word(values, s, 38);
}

/// Law: what IR 39-40, 42-43, 47-49, 53 show of a plant.
#[verifier::spinoff_prover]
#[verifier::rlimit(60)]
pub proof fn law_ir_39_to_53(values: Map<u32, u16>, s: PlantState)
    ensures
        words::input(values, s, 39) == Some(plain::upper(plain::fault_bits(s)) as u16),
        words::input(values, s, 40) == Some(plain::lower(plain::fault_bits(s)) as u16),
        words::input(values, s, 42) == Some(plain::word(s.load_demand_w@, 1_000_000) as u16),
        words::input(values, s, 43) == Some(
            (if s.grid.connected {
                plain::word(plain::size(s.inverter.ac_power_w@), 1_000_000)
            } else {
                0int
            }) as u16,
        ),
        words::input(values, s, 47) == Some(
            plain::upper(plain::long(s.inverter.work_time_hours@, 1_000_000)) as u16,
        ),
        words::input(values, s, 48) == Some(
            plain::lower(plain::long(s.inverter.work_time_hours@, 1_000_000)) as u16,
        ),
        words::input(values, s, 49) == Some(
            (if !s.grid.connected {
                1int
            } else if s.active_faults@.len() > 0 {
                3int
            } else {
                2int
            }) as u16,
        ),
        words::input(values, s, 53) == Some((if s.enable_eps { 2400int } else { 0int }) as u16),
{
    definitions::lemma_native_telemetry();
    names::lemma_input_a_names();
    names::lemma_input_b_names();
    names::lemma_fault_names();
    words::lemma_scales();
    words::lemma_plain(s);
    names::lemma_native(catalogue::definition_at(39), s);
    words::lemma_word(values, s, 39);
    names::lemma_native(catalogue::definition_at(40), s);
    words::lemma_word(values, s, 40);
    names::lemma_native(catalogue::definition_at(42), s);
    words::lemma_word(values, s, 42);
    names::lemma_native(catalogue::definition_at(43), s);
    words::lemma_word(values, s, 43);
    names::lemma_native(catalogue::definition_at(47), s);
    words::lemma_word(values, s, 47);
    names::lemma_native(catalogue::definition_at(48), s);
    words::lemma_word(values, s, 48);
    names::lemma_native(catalogue::definition_at(49), s);
    words::lemma_word(values, s, 49);
    names::lemma_native(catalogue::definition_at(53), s);
    words::lemma_word(values, s, 53);
}

/// Law: what IR 54-55, 57-58, 180-183 show of a plant.
#[verifier::spinoff_prover]
#[verifier::rlimit(60)]
pub proof fn law_ir_54_to_183(values: Map<u32, u16>, s: PlantState)
    ensures
        words::input(values, s, 54) == Some((if s.enable_eps { 5000int } else { 0int }) as u16),
        words::input(values, s, 55) == Some(
            plain::word(s.inverter.temperature_celsius@, 100_000) as u16,
        ),
        words::input(values, s, 57) == Some(
            (if plain::raised(s.active_faults@, "battery_over_temp"@) {
                1int
            } else {
                0int
            }) as u16,
        ),
        words::input(values, s, 58) == Some(
            (if s.grid.connected {
                plain::word(plain::size(s.inverter.ac_power_w@), 2_400_000)
            } else {
                0int
            }) as u16,
        ),
        words::input(values, s, 180) == Some(
            plain::word(plain::throughput(s.batteries@), 200_000) as u16,
        ),
        words::input(values, s, 181) == Some(
            plain::word(plain::throughput(s.batteries@), 200_000) as u16,
        ),
        words::input(values, s, 182) == Some(
            plain::word(s.energy_totals.battery_discharge_kwh@, 100_000) as u16,
        ),
        words::input(values, s, 183) == Some(
            plain::word(s.energy_totals.battery_charge_kwh@, 100_000) as u16,
        ),
{
    definitions::lemma_native_telemetry();
    names::lemma_input_a_names();
    names::lemma_input_b_names();
    names::lemma_fault_names();
    words::lemma_scales();
    words::lemma_plain(s);
    names::lemma_native(catalogue::definition_at(54), s);
    words::lemma_word(values, s, 54);
    names::lemma_native(catalogue::definition_at(55), s);
    words::lemma_word(values, s, 55);
    names::lemma_native(catalogue::definition_at(57), s);
    words::lemma_word(values, s, 57);
    names::lemma_native(catalogue::definition_at(58), s);
    words::lemma_word(values, s, 58);
    names::lemma_native(catalogue::definition_at(180), s);
    words::lemma_word(values, s, 180);
    names::lemma_native(catalogue::definition_at(181), s);
    words::lemma_word(values, s, 181);
    names::lemma_native(catalogue::definition_at(182), s);
    words::lemma_word(values, s, 182);
    names::lemma_native(catalogue::definition_at(183), s);
    words::lemma_word(values, s, 183);
}

/// Law: what IR 247-248 show of a plant.
#[verifier::spinoff_prover]
#[verifier::rlimit(60)]
pub proof fn law_ir_247_to_248(values: Map<u32, u16>, s: PlantState)
    ensures
        words::input(values, s, 247) == Some(
            plain::upper(plain::long(s.solar.generation_w@, 1_000_000)) as u16,
        ),
        words::input(values, s, 248) == Some(
            plain::lower(plain::long(s.solar.generation_w@, 1_000_000)) as u16,
        ),
{
    definitions::lemma_native_telemetry();
    names::lemma_input_a_names();
    names::lemma_input_b_names();
    names::lemma_fault_names();
    words::lemma_scales();
    words::lemma_plain(s);
    names::lemma_native(catalogue::definition_at(247), s);
    words::lemma_word(values, s, 247);
    names::lemma_native(catalogue::definition_at(248), s);
    words::lemma_word(values, s, 248);
}

/// Law: what IR 5-9, 11-13 show of a plant.
#[verifier::spinoff_prover]
#[verifier::rlimit(60)]
pub proof fn law_ir_5_to_13(values: Map<u32, u16>, s: PlantState)
    ensures
        words::input(values, s, 5) == Some((if s.grid.connected { 2400int } else { 0int }) as u16),
        words::input(values, s, 6) == Some(
            plain::upper(plain::long(plain::throughput(s.batteries@), 100_000)) as u16,
        ),
        words::input(values, s, 7) == Some(
            plain::lower(plain::long(plain::throughput(s.batteries@), 100_000)) as u16,
        ),
        words::input(values, s, 8) == Some(plain::word(s.solar.pv1_w@, 35_000_000) as u16),
        words::input(values, s, 9) == Some(plain::word(s.solar.pv2_w@, 35_000_000) as u16),
        words::input(values, s, 11) == Some(
            plain::upper(plain::long(s.energy_totals.solar_lifetime_kwh@, 100_000)) as u16,
        ),
        words::input(values, s, 12) == Some(
            plain::lower(plain::long(s.energy_totals.solar_lifetime_kwh@, 100_000)) as u16,
        ),
        words::input(values, s, 13) == Some((if s.grid.connected { 5000int } else { 0int }) as u16),
{
    definitions::lemma_native_totals();
    names::lemma_input_a_names();
    names::lemma_input_b_names();
    names::lemma_fault_names();
    words::lemma_scales();
    words::lemma_plain(s);
    names::lemma_native(catalogue::definition_at(5), s);
    words::lemma_word(values, s, 5);
    names::lemma_native(catalogue::definition_at(6), s);
    words::lemma_word(values, s, 6);
    names::lemma_native(catalogue::definition_at(7), s);
    words::lemma_word(values, s, 7);
    names::lemma_native(catalogue::definition_at(8), s);
    words::lemma_word(values, s, 8);
    names::lemma_native(catalogue::definition_at(9), s);
    words::lemma_word(values, s, 9);
    names::lemma_native(catalogue::definition_at(11), s);
    words::lemma_word(values, s, 11);
    names::lemma_native(catalogue::definition_at(12), s);
    words::lemma_word(values, s, 12);
    names::lemma_native(catalogue::definition_at(13), s);
    words::lemma_word(values, s, 13);
}

/// Law: what IR 17-22, 25-26 show of a plant.
#[verifier::spinoff_prover]
#[verifier::rlimit(60)]
pub proof fn law_ir_17_to_26(values: Map<u32, u16>, s: PlantState)
    ensures
        words::input(values, s, 17) == Some(
            (if s.config.pv2_peak_watts@ > 0 {
                plain::word(s.energy_totals.solar_generation_kwh@ * 45, 10_000_000)
            } else {
                plain::word(s.energy_totals.solar_generation_kwh@, 100_000)
            }) as u16,
        ),
        words::input(values, s, 18) == Some(plain::word(s.solar.pv1_w@, 1_000_000) as u16),
        words::input(values, s, 19) == Some(
            (if s.config.pv2_peak_watts@ > 0 {
                plain::word(s.energy_totals.solar_generation_kwh@ * 55, 10_000_000)
            } else {
                0int
            }) as u16,
        ),
        words::input(values, s, 20) == Some(plain::word(s.solar.pv2_w@, 1_000_000) as u16),
        words::input(values, s, 21) == Some(
            plain::upper(plain::long(s.energy_totals.grid_export_kwh@, 100_000)) as u16,
        ),
        words::input(values, s, 22) == Some(
            plain::lower(plain::long(s.energy_totals.grid_export_kwh@, 100_000)) as u16,
        ),
        words::input(values, s, 25) == Some(
            plain::word(s.energy_totals.grid_export_kwh@, 100_000) as u16,
        ),
        words::input(values, s, 26) == Some(
            plain::word(s.energy_totals.grid_import_kwh@, 100_000) as u16,
        ),
{
    definitions::lemma_native_totals();
    names::lemma_input_a_names();
    names::lemma_input_b_names();
    names::lemma_fault_names();
    words::lemma_scales();
    words::lemma_plain(s);
    names::lemma_native(catalogue::definition_at(17), s);
    words::lemma_word(values, s, 17);
    names::lemma_native(catalogue::definition_at(18), s);
    words::lemma_word(values, s, 18);
    names::lemma_native(catalogue::definition_at(19), s);
    words::lemma_word(values, s, 19);
    names::lemma_native(catalogue::definition_at(20), s);
    words::lemma_word(values, s, 20);
    names::lemma_native(catalogue::definition_at(21), s);
    words::lemma_word(values, s, 21);
    names::lemma_native(catalogue::definition_at(22), s);
    words::lemma_word(values, s, 22);
    names::lemma_native(catalogue::definition_at(25), s);
    words::lemma_word(values, s, 25);
    names::lemma_native(catalogue::definition_at(26), s);
    words::lemma_word(values, s, 26);
}

/// Law: what IR 30, 32-33, 35-37, 41, 44 show of a plant.
#[verifier::spinoff_prover]
#[verifier::rlimit(60)]
pub proof fn law_ir_30_to_44(values: Map<u32, u16>, s: PlantState)
    ensures
        words::input(values, s, 30) == Some(plain::signed_word(-s.grid.power_w@, 1_000_000) as u16),
        words::input(values, s, 32) == Some(
            plain::upper(plain::long(s.energy_totals.grid_import_kwh@, 100_000)) as u16,
        ),
        words::input(values, s, 33) == Some(
            plain::lower(plain::long(s.energy_totals.grid_import_kwh@, 100_000)) as u16,
        ),
        words::input(values, s, 35) == Some(
            plain::word(s.energy_totals.ac_charge_kwh@, 100_000) as u16,
        ),
        words::input(values, s, 36) == Some(
            plain::word(s.energy_totals.battery_charge_kwh@, 100_000) as u16,
        ),
        words::input(values, s, 37) == Some(
            plain::word(s.energy_totals.battery_discharge_kwh@, 100_000) as u16,
        ),
        words::input(values, s, 41) == Some(
            plain::word(s.inverter.temperature_celsius@, 100_000) as u16,
        ),
        words::input(values, s, 44) == Some(
            plain::word(s.energy_totals.inverter_output_kwh@, 100_000) as u16,
        ),
{
    definitions::lemma_native_totals();
    names::lemma_input_a_names();
    names::lemma_input_b_names();
    names::lemma_fault_names();
    words::lemma_scales();
    words::lemma_plain(s);
    names::lemma_native(catalogue::definition_at(30), s);
    words::lemma_word(values, s, 30);
    names::lemma_native(catalogue::definition_at(32), s);
    words::lemma_word(values, s, 32);
    names::lemma_native(catalogue::definition_at(33), s);
    words::lemma_word(values, s, 33);
    names::lemma_native(catalogue::definition_at(35), s);
    words::lemma_word(values, s, 35);
    names::lemma_native(catalogue::definition_at(36), s);
    words::lemma_word(values, s, 36);
    names::lemma_native(catalogue::definition_at(37), s);
    words::lemma_word(values, s, 37);
    names::lemma_native(catalogue::definition_at(41), s);
    words::lemma_word(values, s, 41);
    names::lemma_native(catalogue::definition_at(44), s);
    words::lemma_word(values, s, 44);
}

/// Law: what IR 45-46, 50-52, 56, 59 show of a plant.
#[verifier::spinoff_prover]
#[verifier::rlimit(60)]
pub proof fn law_ir_45_to_59(values: Map<u32, u16>, s: PlantState)
    ensures
        words::input(values, s, 45) == Some(
            plain::upper(plain::long(s.energy_totals.inverter_output_kwh@, 100_000)) as u16,
        ),
        words::input(values, s, 46) == Some(
            plain::lower(plain::long(s.energy_totals.inverter_output_kwh@, 100_000)) as u16,
        ),
        words::input(values, s, 50) == Some(
            (if plain::gateway(s.config.inverter_type@) {
                0int
            } else {
                plain::word(4_400_000_000 + s.battery.soc_percent@ * 8, 1_000_000)
            }) as u16,
        ),
        words::input(values, s, 51) == Some(
            (if plain::gateway(s.config.inverter_type@) {
                0int
            } else {
                plain::signed_word(-(s.battery.power_kw@ * 1000), 480_000)
            }) as u16,
        ),
        words::input(values, s, 52) == Some(
            (if plain::gateway(s.config.inverter_type@) {
                0int
            } else {
                plain::signed_word(-(s.battery.power_kw@ * 1000), 1_000_000)
            }) as u16,
        ),
        words::input(values, s, 56) == Some(
            (if plain::gateway(s.config.inverter_type@) {
                0int
            } else {
                plain::word(s.battery.temperature_celsius@, 100_000)
            }) as u16,
        ),
        words::input(values, s, 59) == Some(
            (if plain::gateway(s.config.inverter_type@) {
                0int
            } else {
                plain::word(s.battery.soc_percent@, 1_000_000)
            }) as u16,
        ),
{
    definitions::lemma_native_totals();
    names::lemma_input_a_names();
    names::lemma_input_b_names();
    names::lemma_fault_names();
    words::lemma_scales();
    words::lemma_plain(s);
    names::lemma_native(catalogue::definition_at(45), s);
    words::lemma_word(values, s, 45);
    names::lemma_native(catalogue::definition_at(46), s);
    words::lemma_word(values, s, 46);
    names::lemma_native(catalogue::definition_at(50), s);
    words::lemma_word(values, s, 50);
    assert(projection::scaled(4_400_000_000 + s.battery.soc_percent@ * 8, 100, 10_000)
        == plain::word(4_400_000_000 + s.battery.soc_percent@ * 8, 1_000_000));
    names::lemma_native(catalogue::definition_at(51), s);
    words::lemma_word(values, s, 51);
    names::lemma_native(catalogue::definition_at(52), s);
    words::lemma_word(values, s, 52);
    names::lemma_native(catalogue::definition_at(56), s);
    words::lemma_word(values, s, 56);
    names::lemma_native(catalogue::definition_at(59), s);
    words::lemma_word(values, s, 59);
}

} // verus!
