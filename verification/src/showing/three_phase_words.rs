//! What the registers of a three-phase inverter show.
use crate::catalogue;
use crate::showing::{definitions, names, plain, words};
use crate::state::{InverterMode, PlantState};
use vstd::prelude::*;

verus! {

/// Law: what HR 1063, 1108, 1110, 1122-1123 show of a plant.
#[verifier::spinoff_prover]
#[verifier::rlimit(60)]
pub proof fn law_hr_1063_to_1123(values: Map<u32, u16>, s: PlantState)
    ensures
        words::holding(values, s, 1063) == Some(
            plain::word(s.inverter.export_limit_w@, 100_000) as u16,
        ),
        words::holding(values, s, 1108) == Some(
            plain::word(s.battery_discharge_limit_percent@, 1_000_000) as u16,
        ),
        words::holding(values, s, 1110) == Some(
            plain::word(s.battery_charge_limit_percent@, 1_000_000) as u16,
        ),
        words::holding(values, s, 1122) == Some(
            (if s.inverter.effective_mode == InverterMode::ForceDischarge {
                1int
            } else {
                0int
            }) as u16,
        ),
        words::holding(values, s, 1123) == Some(
            (if s.inverter.effective_mode == InverterMode::ForceCharge {
                1int
            } else {
                0int
            }) as u16,
        ),
{
    definitions::lemma_three_phase_holding();
    names::lemma_holding_a_names();
    names::lemma_holding_b_names();
    names::lemma_internal_names();
    words::lemma_scales();
    words::lemma_plain(s);
    names::lemma_holding(catalogue::definition_at(11063), s);
    words::lemma_word(values, s, 11063);
    names::lemma_holding(catalogue::definition_at(11108), s);
    words::lemma_word(values, s, 11108);
    names::lemma_holding(catalogue::definition_at(11110), s);
    words::lemma_word(values, s, 11110);
    names::lemma_holding(catalogue::definition_at(11122), s);
    words::lemma_word(values, s, 11122);
    names::lemma_holding(catalogue::definition_at(11123), s);
    words::lemma_word(values, s, 11123);
}

/// Law: what IR 1001-1002, 1009-1010, 1017-1020 show of a plant.
#[verifier::spinoff_prover]
#[verifier::rlimit(60)]
pub proof fn law_ir_1001_to_1020(values: Map<u32, u16>, s: PlantState)
    ensures
        words::input(values, s, 1001) == Some(
            (if s.solar.pv1_w@ > 0 { 3500int } else { 0int }) as u16,
        ),
        words::input(values, s, 1002) == Some(
            (if s.config.pv2_peak_watts@ > 0 { 3500int } else { 0int }) as u16,
        ),
        words::input(values, s, 1009) == Some(plain::word(s.solar.pv1_w@, 35_000_000) as u16),
        words::input(values, s, 1010) == Some(plain::word(s.solar.pv2_w@, 35_000_000) as u16),
        words::input(values, s, 1017) == Some(
            plain::upper(plain::long(s.solar.pv1_w@, 100_000)) as u16,
        ),
        words::input(values, s, 1018) == Some(
            plain::lower(plain::long(s.solar.pv1_w@, 100_000)) as u16,
        ),
        words::input(values, s, 1019) == Some(
            plain::upper(plain::long(s.solar.pv2_w@, 100_000)) as u16,
        ),
        words::input(values, s, 1020) == Some(
            plain::lower(plain::long(s.solar.pv2_w@, 100_000)) as u16,
        ),
{
    definitions::lemma_three_phase_power();
    names::lemma_three_phase_power_names();
    names::lemma_three_phase_energy_names();
    words::lemma_scales();
    words::lemma_plain(s);
    names::lemma_three_phase(catalogue::definition_at(1001), s);
    words::lemma_word(values, s, 1001);
    names::lemma_three_phase(catalogue::definition_at(1002), s);
    words::lemma_word(values, s, 1002);
    names::lemma_three_phase(catalogue::definition_at(1009), s);
    words::lemma_word(values, s, 1009);
    names::lemma_three_phase(catalogue::definition_at(1010), s);
    words::lemma_word(values, s, 1010);
    names::lemma_three_phase(catalogue::definition_at(1017), s);
    words::lemma_word(values, s, 1017);
    names::lemma_three_phase(catalogue::definition_at(1018), s);
    words::lemma_word(values, s, 1018);
    names::lemma_three_phase(catalogue::definition_at(1019), s);
    words::lemma_word(values, s, 1019);
    names::lemma_three_phase(catalogue::definition_at(1020), s);
    words::lemma_word(values, s, 1020);
}

/// Law: what IR 1061-1068 show of a plant.
#[verifier::spinoff_prover]
#[verifier::rlimit(60)]
pub proof fn law_ir_1061_to_1068(values: Map<u32, u16>, s: PlantState)
    ensures
        words::input(values, s, 1061) == Some(
            (if !s.grid.connected {
                0int
            } else if plain::three_phase(s.config.inverter_type@) {
                4160int
            } else {
                2400int
            }) as u16,
        ),
        words::input(values, s, 1062) == Some(
            (if !s.grid.connected {
                0int
            } else if plain::three_phase(s.config.inverter_type@) {
                4160int
            } else {
                2400int
            }) as u16,
        ),
        words::input(values, s, 1063) == Some(
            (if !s.grid.connected {
                0int
            } else if plain::three_phase(s.config.inverter_type@) {
                4160int
            } else {
                2400int
            }) as u16,
        ),
        words::input(values, s, 1064) == Some(
            (if !s.grid.connected {
                0int
            } else if plain::three_phase(s.config.inverter_type@) {
                plain::word(plain::size(s.grid.power_w@), 72_000_000)
            } else {
                plain::word(plain::size(s.inverter.ac_power_w@), 72_000_000)
            }) as u16,
        ),
        words::input(values, s, 1065) == Some(
            (if !s.grid.connected {
                0int
            } else if plain::three_phase(s.config.inverter_type@) {
                plain::word(plain::size(s.grid.power_w@), 72_000_000)
            } else {
                plain::word(plain::size(s.inverter.ac_power_w@), 72_000_000)
            }) as u16,
        ),
        words::input(values, s, 1066) == Some(
            (if !s.grid.connected {
                0int
            } else if plain::three_phase(s.config.inverter_type@) {
                plain::word(plain::size(s.grid.power_w@), 72_000_000)
            } else {
                plain::word(plain::size(s.inverter.ac_power_w@), 72_000_000)
            }) as u16,
        ),
        words::input(values, s, 1067) == Some(
            (if s.grid.connected { 5000int } else { 0int }) as u16,
        ),
        words::input(values, s, 1068) == Some(10000u16),
{
    definitions::lemma_three_phase_power();
    names::lemma_three_phase_power_names();
    names::lemma_three_phase_energy_names();
    words::lemma_scales();
    words::lemma_plain(s);
    names::lemma_three_phase(catalogue::definition_at(1061), s);
    words::lemma_word(values, s, 1061);
    names::lemma_three_phase(catalogue::definition_at(1062), s);
    words::lemma_word(values, s, 1062);
    names::lemma_three_phase(catalogue::definition_at(1063), s);
    words::lemma_word(values, s, 1063);
    names::lemma_three_phase(catalogue::definition_at(1064), s);
    words::lemma_word(values, s, 1064);
    names::lemma_three_phase(catalogue::definition_at(1065), s);
    words::lemma_word(values, s, 1065);
    names::lemma_three_phase(catalogue::definition_at(1066), s);
    words::lemma_word(values, s, 1066);
    names::lemma_three_phase(catalogue::definition_at(1067), s);
    words::lemma_word(values, s, 1067);
    names::lemma_three_phase(catalogue::definition_at(1068), s);
    words::lemma_word(values, s, 1068);
}

/// Law: what IR 1069-1070, 1073-1076, 1079-1080 show of a plant.
#[verifier::spinoff_prover]
#[verifier::rlimit(60)]
pub proof fn law_ir_1069_to_1080(values: Map<u32, u16>, s: PlantState)
    ensures
        words::input(values, s, 1069) == Some(
            plain::upper(plain::signed_long(s.inverter.ac_power_w@, 100_000)) as u16,
        ),
        words::input(values, s, 1070) == Some(
            plain::lower(plain::signed_long(s.inverter.ac_power_w@, 100_000)) as u16,
        ),
        words::input(values, s, 1073) == Some(
            plain::upper(plain::long(plain::size(s.inverter.ac_power_w@), 100_000)) as u16,
        ),
        words::input(values, s, 1074) == Some(
            plain::lower(plain::long(plain::size(s.inverter.ac_power_w@), 100_000)) as u16,
        ),
        words::input(values, s, 1075) == Some(
            (if s.active_faults@.len() > 0 {
                3int
            } else if s.grid.connected {
                2int
            } else {
                1int
            }) as u16,
        ),
        words::input(values, s, 1076) == Some(1u16),
        words::input(values, s, 1079) == Some(
            plain::upper(plain::long(plain::gain(s.grid.power_w@), 100_000)) as u16,
        ),
        words::input(values, s, 1080) == Some(
            plain::lower(plain::long(plain::gain(s.grid.power_w@), 100_000)) as u16,
        ),
{
    definitions::lemma_three_phase_power();
    names::lemma_three_phase_power_names();
    names::lemma_three_phase_energy_names();
    words::lemma_scales();
    words::lemma_plain(s);
    names::lemma_three_phase(catalogue::definition_at(1069), s);
    words::lemma_word(values, s, 1069);
    names::lemma_three_phase(catalogue::definition_at(1070), s);
    words::lemma_word(values, s, 1070);
    names::lemma_three_phase(catalogue::definition_at(1073), s);
    words::lemma_word(values, s, 1073);
    names::lemma_three_phase(catalogue::definition_at(1074), s);
    words::lemma_word(values, s, 1074);
    names::lemma_three_phase(catalogue::definition_at(1075), s);
    words::lemma_word(values, s, 1075);
    names::lemma_three_phase(catalogue::definition_at(1076), s);
    words::lemma_word(values, s, 1076);
    names::lemma_three_phase(catalogue::definition_at(1079), s);
    words::lemma_word(values, s, 1079);
    names::lemma_three_phase(catalogue::definition_at(1080), s);
    words::lemma_word(values, s, 1080);
}

/// Law: what IR 1081-1085, 1089-1090, 1124 show of a plant.
#[verifier::spinoff_prover]
#[verifier::rlimit(60)]
pub proof fn law_ir_1081_to_1124(values: Map<u32, u16>, s: PlantState)
    ensures
        words::input(values, s, 1081) == Some(
            plain::upper(plain::long(plain::gain(-s.grid.power_w@), 100_000)) as u16,
        ),
        words::input(values, s, 1082) == Some(
            plain::lower(plain::long(plain::gain(-s.grid.power_w@), 100_000)) as u16,
        ),
        words::input(values, s, 1083) == Some(plain::word(s.load_demand_w@, 300_000) as u16),
        words::input(values, s, 1084) == Some(plain::word(s.load_demand_w@, 300_000) as u16),
        words::input(values, s, 1085) == Some(plain::word(s.load_demand_w@, 300_000) as u16),
        words::input(values, s, 1089) == Some(
            plain::upper(plain::long(s.load_demand_w@, 100_000)) as u16,
        ),
        words::input(values, s, 1090) == Some(
            plain::lower(plain::long(s.load_demand_w@, 100_000)) as u16,
        ),
        words::input(values, s, 1124) == Some(1u16),
{
    definitions::lemma_three_phase_power();
    names::lemma_three_phase_power_names();
    names::lemma_three_phase_energy_names();
    words::lemma_scales();
    words::lemma_plain(s);
    names::lemma_three_phase(catalogue::definition_at(1081), s);
    words::lemma_word(values, s, 1081);
    names::lemma_three_phase(catalogue::definition_at(1082), s);
    words::lemma_word(values, s, 1082);
    names::lemma_three_phase(catalogue::definition_at(1083), s);
    words::lemma_word(values, s, 1083);
    names::lemma_three_phase(catalogue::definition_at(1084), s);
    words::lemma_word(values, s, 1084);
    names::lemma_three_phase(catalogue::definition_at(1085), s);
    words::lemma_word(values, s, 1085);
    names::lemma_three_phase(catalogue::definition_at(1089), s);
    words::lemma_word(values, s, 1089);
    names::lemma_three_phase(catalogue::definition_at(1090), s);
    words::lemma_word(values, s, 1090);
    names::lemma_three_phase(catalogue::definition_at(1124), s);
    words::lemma_word(values, s, 1124);
}

/// Law: what IR 1128-1135 show of a plant.
#[verifier::spinoff_prover]
#[verifier::rlimit(60)]
pub proof fn law_ir_1128_to_1135(values: Map<u32, u16>, s: PlantState)
    ensures
        words::input(values, s, 1128) == Some(
            plain::word(s.inverter.temperature_celsius@, 100_000) as u16,
        ),
        words::input(values, s, 1129) == Some(
            plain::word(s.inverter.temperature_celsius@ - 2_000_000, 100_000) as u16,
        ),
        words::input(values, s, 1130) == Some(
            plain::word(s.inverter.temperature_celsius@ + 3_000_000, 100_000) as u16,
        ),
        words::input(values, s, 1131) == Some(
            plain::word(plain::voltage(s.batteries@), 100_000) as u16,
        ),
        words::input(values, s, 1132) == Some(
            plain::word(s.battery.soc_percent@, 1_000_000) as u16,
        ),
        words::input(values, s, 1133) == Some(
            plain::word(plain::voltage(s.batteries@), 100_000) as u16,
        ),
        words::input(values, s, 1134) == Some(3800u16),
        words::input(values, s, 1135) == Some(3800u16),
{
    definitions::lemma_three_phase_power();
    names::lemma_three_phase_power_names();
    names::lemma_three_phase_energy_names();
    words::lemma_scales();
    words::lemma_plain(s);
    names::lemma_three_phase(catalogue::definition_at(1128), s);
    words::lemma_word(values, s, 1128);
    names::lemma_three_phase(catalogue::definition_at(1129), s);
    words::lemma_word(values, s, 1129);
    names::lemma_three_phase(catalogue::definition_at(1130), s);
    words::lemma_word(values, s, 1130);
    names::lemma_three_phase(catalogue::definition_at(1131), s);
    words::lemma_word(values, s, 1131);
    names::lemma_three_phase(catalogue::definition_at(1132), s);
    words::lemma_word(values, s, 1132);
    names::lemma_three_phase(catalogue::definition_at(1133), s);
    words::lemma_word(values, s, 1133);
    names::lemma_three_phase(catalogue::definition_at(1134), s);
    words::lemma_word(values, s, 1134);
    names::lemma_three_phase(catalogue::definition_at(1135), s);
    words::lemma_word(values, s, 1135);
}

/// Law: what IR 1136-1140, 1180-1182 show of a plant.
#[verifier::spinoff_prover]
#[verifier::rlimit(60)]
pub proof fn law_ir_1136_to_1182(values: Map<u32, u16>, s: PlantState)
    ensures
        words::input(values, s, 1136) == Some(
            plain::upper(plain::long(plain::gain(-s.battery.power_kw@) * 1000, 100_000)) as u16,
        ),
        words::input(values, s, 1137) == Some(
            plain::lower(plain::long(plain::gain(-s.battery.power_kw@) * 1000, 100_000)) as u16,
        ),
        words::input(values, s, 1138) == Some(
            plain::upper(plain::long(plain::gain(s.battery.power_kw@) * 1000, 100_000)) as u16,
        ),
        words::input(values, s, 1139) == Some(
            plain::lower(plain::long(plain::gain(s.battery.power_kw@) * 1000, 100_000)) as u16,
        ),
        words::input(values, s, 1140) == Some(
            plain::stack_current(s.battery.power_kw@, plain::voltage(s.batteries@)) as u16,
        ),
        words::input(values, s, 1180) == Some((if s.enable_eps { 5000int } else { 0int }) as u16),
        words::input(values, s, 1181) == Some((if s.enable_eps { 2400int } else { 0int }) as u16),
        words::input(values, s, 1182) == Some((if s.enable_eps { 2400int } else { 0int }) as u16),
{
    definitions::lemma_three_phase_power();
    names::lemma_three_phase_power_names();
    names::lemma_three_phase_energy_names();
    words::lemma_scales();
    words::lemma_plain(s);
    names::lemma_three_phase(catalogue::definition_at(1136), s);
    words::lemma_word(values, s, 1136);
    names::lemma_three_phase(catalogue::definition_at(1137), s);
    words::lemma_word(values, s, 1137);
    names::lemma_three_phase(catalogue::definition_at(1138), s);
    words::lemma_word(values, s, 1138);
    names::lemma_three_phase(catalogue::definition_at(1139), s);
    words::lemma_word(values, s, 1139);
    names::lemma_three_phase(catalogue::definition_at(1140), s);
    words::lemma_word(values, s, 1140);
    names::lemma_three_phase(catalogue::definition_at(1180), s);
    words::lemma_word(values, s, 1180);
    names::lemma_three_phase(catalogue::definition_at(1181), s);
    words::lemma_word(values, s, 1181);
    names::lemma_three_phase(catalogue::definition_at(1182), s);
    words::lemma_word(values, s, 1182);
}

/// Law: what IR 1183, 1240-1241, 1244-1245 show of a plant.
#[verifier::spinoff_prover]
#[verifier::rlimit(60)]
pub proof fn law_ir_1183_to_1245(values: Map<u32, u16>, s: PlantState)
    ensures
        words::input(values, s, 1183) == Some((if s.enable_eps { 2400int } else { 0int }) as u16),
        words::input(values, s, 1240) == Some(
            plain::upper(plain::long(plain::gain(-s.grid.power_w@), 100_000)) as u16,
        ),
        words::input(values, s, 1241) == Some(
            plain::lower(plain::long(plain::gain(-s.grid.power_w@), 100_000)) as u16,
        ),
        words::input(values, s, 1244) == Some(0u16),
        words::input(values, s, 1245) == Some(0u16),
{
    definitions::lemma_three_phase_power();
    names::lemma_three_phase_power_names();
    names::lemma_three_phase_energy_names();
    words::lemma_scales();
    words::lemma_plain(s);
    names::lemma_three_phase(catalogue::definition_at(1183), s);
    words::lemma_word(values, s, 1183);
    names::lemma_three_phase(catalogue::definition_at(1240), s);
    words::lemma_word(values, s, 1240);
    names::lemma_three_phase(catalogue::definition_at(1241), s);
    words::lemma_word(values, s, 1241);
    names::lemma_three_phase(catalogue::definition_at(1244), s);
    words::lemma_word(values, s, 1244);
    names::lemma_three_phase(catalogue::definition_at(1245), s);
    words::lemma_word(values, s, 1245);
}

/// Law: what IR 1325-1327, 1360-1363, 1366 show of a plant.
#[verifier::spinoff_prover]
#[verifier::rlimit(60)]
pub proof fn law_ir_1325_to_1366(values: Map<u32, u16>, s: PlantState)
    ensures
        words::input(values, s, 1325) == Some(s.inverter.dsp_firmware_version as int as u16),
        words::input(values, s, 1326) == Some(s.inverter.dsp_firmware_version as int as u16),
        words::input(values, s, 1327) == Some(
            plain::firmware(s.config.inverter_type@, s.inverter.arm_firmware_version as int) as u16,
        ),
        words::input(values, s, 1360) == Some(
            plain::upper(plain::long(s.energy_totals.solar_generation_kwh@, 100_000)) as u16,
        ),
        words::input(values, s, 1361) == Some(
            plain::lower(plain::long(s.energy_totals.solar_generation_kwh@, 100_000)) as u16,
        ),
        words::input(values, s, 1362) == Some(
            plain::upper(plain::long(s.energy_totals.solar_generation_kwh@, 100_000)) as u16,
        ),
        words::input(values, s, 1363) == Some(
            plain::lower(plain::long(s.energy_totals.solar_generation_kwh@, 100_000)) as u16,
        ),
        words::input(values, s, 1366) == Some(
            plain::upper(plain::long(s.energy_totals.solar_generation_kwh@, 200_000)) as u16,
        ),
{
    definitions::lemma_three_phase_energy();
    names::lemma_three_phase_power_names();
    names::lemma_three_phase_energy_names();
    words::lemma_scales();
    words::lemma_plain(s);
    names::lemma_three_phase(catalogue::definition_at(1325), s);
    words::lemma_word(values, s, 1325);
    names::lemma_three_phase(catalogue::definition_at(1326), s);
    words::lemma_word(values, s, 1326);
    names::lemma_three_phase(catalogue::definition_at(1327), s);
    words::lemma_word(values, s, 1327);
    names::lemma_three_phase(catalogue::definition_at(1360), s);
    words::lemma_word(values, s, 1360);
    names::lemma_three_phase(catalogue::definition_at(1361), s);
    words::lemma_word(values, s, 1361);
    names::lemma_three_phase(catalogue::definition_at(1362), s);
    words::lemma_word(values, s, 1362);
    names::lemma_three_phase(catalogue::definition_at(1363), s);
    words::lemma_word(values, s, 1363);
    names::lemma_three_phase(catalogue::definition_at(1366), s);
    words::lemma_word(values, s, 1366);
}

/// Law: what IR 1367-1374 show of a plant.
#[verifier::spinoff_prover]
#[verifier::rlimit(60)]
pub proof fn law_ir_1367_to_1374(values: Map<u32, u16>, s: PlantState)
    ensures
        words::input(values, s, 1367) == Some(
            plain::lower(plain::long(s.energy_totals.solar_generation_kwh@, 200_000)) as u16,
        ),
        words::input(values, s, 1368) == Some(
            plain::upper(plain::long(s.energy_totals.solar_generation_kwh@, 200_000)) as u16,
        ),
        words::input(values, s, 1369) == Some(
            plain::lower(plain::long(s.energy_totals.solar_generation_kwh@, 200_000)) as u16,
        ),
        words::input(values, s, 1370) == Some(
            plain::upper(plain::long(s.energy_totals.solar_generation_kwh@, 200_000)) as u16,
        ),
        words::input(values, s, 1371) == Some(
            plain::lower(plain::long(s.energy_totals.solar_generation_kwh@, 200_000)) as u16,
        ),
        words::input(values, s, 1372) == Some(
            plain::upper(plain::long(s.energy_totals.solar_generation_kwh@, 200_000)) as u16,
        ),
        words::input(values, s, 1373) == Some(
            plain::lower(plain::long(s.energy_totals.solar_generation_kwh@, 200_000)) as u16,
        ),
        words::input(values, s, 1374) == Some(
            plain::upper(plain::long(s.energy_totals.solar_lifetime_kwh@, 100_000)) as u16,
        ),
{
    definitions::lemma_three_phase_energy();
    names::lemma_three_phase_power_names();
    names::lemma_three_phase_energy_names();
    words::lemma_scales();
    words::lemma_plain(s);
    names::lemma_three_phase(catalogue::definition_at(1367), s);
    words::lemma_word(values, s, 1367);
    names::lemma_three_phase(catalogue::definition_at(1368), s);
    words::lemma_word(values, s, 1368);
    names::lemma_three_phase(catalogue::definition_at(1369), s);
    words::lemma_word(values, s, 1369);
    names::lemma_three_phase(catalogue::definition_at(1370), s);
    words::lemma_word(values, s, 1370);
    names::lemma_three_phase(catalogue::definition_at(1371), s);
    words::lemma_word(values, s, 1371);
    names::lemma_three_phase(catalogue::definition_at(1372), s);
    words::lemma_word(values, s, 1372);
    names::lemma_three_phase(catalogue::definition_at(1373), s);
    words::lemma_word(values, s, 1373);
    names::lemma_three_phase(catalogue::definition_at(1374), s);
    words::lemma_word(values, s, 1374);
}

/// Law: what IR 1375-1382 show of a plant.
#[verifier::spinoff_prover]
#[verifier::rlimit(60)]
pub proof fn law_ir_1375_to_1382(values: Map<u32, u16>, s: PlantState)
    ensures
        words::input(values, s, 1375) == Some(
            plain::lower(plain::long(s.energy_totals.solar_lifetime_kwh@, 100_000)) as u16,
        ),
        words::input(values, s, 1376) == Some(
            plain::upper(plain::long(s.energy_totals.ac_charge_kwh@, 100_000)) as u16,
        ),
        words::input(values, s, 1377) == Some(
            plain::lower(plain::long(s.energy_totals.ac_charge_kwh@, 100_000)) as u16,
        ),
        words::input(values, s, 1378) == Some(
            plain::upper(plain::long(s.energy_totals.ac_charge_kwh@, 100_000)) as u16,
        ),
        words::input(values, s, 1379) == Some(
            plain::lower(plain::long(s.energy_totals.ac_charge_kwh@, 100_000)) as u16,
        ),
        words::input(values, s, 1380) == Some(
            plain::upper(plain::long(s.energy_totals.grid_import_kwh@, 100_000)) as u16,
        ),
        words::input(values, s, 1381) == Some(
            plain::lower(plain::long(s.energy_totals.grid_import_kwh@, 100_000)) as u16,
        ),
        words::input(values, s, 1382) == Some(
            plain::upper(plain::long(123_400_000, 100_000)) as u16,
        ),
{
    definitions::lemma_three_phase_energy();
    names::lemma_three_phase_power_names();
    names::lemma_three_phase_energy_names();
    words::lemma_scales();
    words::lemma_plain(s);
    names::lemma_three_phase(catalogue::definition_at(1375), s);
    words::lemma_word(values, s, 1375);
    names::lemma_three_phase(catalogue::definition_at(1376), s);
    words::lemma_word(values, s, 1376);
    names::lemma_three_phase(catalogue::definition_at(1377), s);
    words::lemma_word(values, s, 1377);
    names::lemma_three_phase(catalogue::definition_at(1378), s);
    words::lemma_word(values, s, 1378);
    names::lemma_three_phase(catalogue::definition_at(1379), s);
    words::lemma_word(values, s, 1379);
    names::lemma_three_phase(catalogue::definition_at(1380), s);
    words::lemma_word(values, s, 1380);
    names::lemma_three_phase(catalogue::definition_at(1381), s);
    words::lemma_word(values, s, 1381);
    names::lemma_three_phase(catalogue::definition_at(1382), s);
    words::lemma_word(values, s, 1382);
}

/// Law: what IR 1383-1390 show of a plant.
#[verifier::spinoff_prover]
#[verifier::rlimit(60)]
pub proof fn law_ir_1383_to_1390(values: Map<u32, u16>, s: PlantState)
    ensures
        words::input(values, s, 1383) == Some(
            plain::lower(plain::long(123_400_000, 100_000)) as u16,
        ),
        words::input(values, s, 1384) == Some(
            plain::upper(plain::long(s.energy_totals.grid_export_kwh@, 100_000)) as u16,
        ),
        words::input(values, s, 1385) == Some(
            plain::lower(plain::long(s.energy_totals.grid_export_kwh@, 100_000)) as u16,
        ),
        words::input(values, s, 1386) == Some(
            plain::upper(plain::long(432_100_000, 100_000)) as u16,
        ),
        words::input(values, s, 1387) == Some(
            plain::lower(plain::long(432_100_000, 100_000)) as u16,
        ),
        words::input(values, s, 1388) == Some(
            plain::upper(plain::long(s.energy_totals.battery_discharge_kwh@, 100_000)) as u16,
        ),
        words::input(values, s, 1389) == Some(
            plain::lower(plain::long(s.energy_totals.battery_discharge_kwh@, 100_000)) as u16,
        ),
        words::input(values, s, 1390) == Some(
            plain::upper(plain::long(plain::throughput(s.batteries@), 200_000)) as u16,
        ),
{
    definitions::lemma_three_phase_energy();
    names::lemma_three_phase_power_names();
    names::lemma_three_phase_energy_names();
    words::lemma_scales();
    words::lemma_plain(s);
    names::lemma_three_phase(catalogue::definition_at(1383), s);
    words::lemma_word(values, s, 1383);
    names::lemma_three_phase(catalogue::definition_at(1384), s);
    words::lemma_word(values, s, 1384);
    names::lemma_three_phase(catalogue::definition_at(1385), s);
    words::lemma_word(values, s, 1385);
    names::lemma_three_phase(catalogue::definition_at(1386), s);
    words::lemma_word(values, s, 1386);
    names::lemma_three_phase(catalogue::definition_at(1387), s);
    words::lemma_word(values, s, 1387);
    names::lemma_three_phase(catalogue::definition_at(1388), s);
    words::lemma_word(values, s, 1388);
    names::lemma_three_phase(catalogue::definition_at(1389), s);
    words::lemma_word(values, s, 1389);
    names::lemma_three_phase(catalogue::definition_at(1390), s);
    words::lemma_word(values, s, 1390);
}

/// Law: what IR 1391-1398 show of a plant.
#[verifier::spinoff_prover]
#[verifier::rlimit(60)]
pub proof fn law_ir_1391_to_1398(values: Map<u32, u16>, s: PlantState)
    ensures
        words::input(values, s, 1391) == Some(
            plain::lower(plain::long(plain::throughput(s.batteries@), 200_000)) as u16,
        ),
        words::input(values, s, 1392) == Some(
            plain::upper(plain::long(s.energy_totals.battery_charge_kwh@, 100_000)) as u16,
        ),
        words::input(values, s, 1393) == Some(
            plain::lower(plain::long(s.energy_totals.battery_charge_kwh@, 100_000)) as u16,
        ),
        words::input(values, s, 1394) == Some(
            plain::upper(plain::long(plain::throughput(s.batteries@), 200_000)) as u16,
        ),
        words::input(values, s, 1395) == Some(
            plain::lower(plain::long(plain::throughput(s.batteries@), 200_000)) as u16,
        ),
        words::input(values, s, 1396) == Some(
            plain::upper(plain::long(s.energy_totals.load_consumption_kwh@, 100_000)) as u16,
        ),
        words::input(values, s, 1397) == Some(
            plain::lower(plain::long(s.energy_totals.load_consumption_kwh@, 100_000)) as u16,
        ),
        words::input(values, s, 1398) == Some(
            plain::upper(plain::long(s.energy_totals.load_consumption_kwh@, 100_000)) as u16,
        ),
{
    definitions::lemma_three_phase_energy();
    names::lemma_three_phase_power_names();
    names::lemma_three_phase_energy_names();
    words::lemma_scales();
    words::lemma_plain(s);
    names::lemma_three_phase(catalogue::definition_at(1391), s);
    words::lemma_word(values, s, 1391);
    names::lemma_three_phase(catalogue::definition_at(1392), s);
    words::lemma_word(values, s, 1392);
    names::lemma_three_phase(catalogue::definition_at(1393), s);
    words::lemma_word(values, s, 1393);
    names::lemma_three_phase(catalogue::definition_at(1394), s);
    words::lemma_word(values, s, 1394);
    names::lemma_three_phase(catalogue::definition_at(1395), s);
    words::lemma_word(values, s, 1395);
    names::lemma_three_phase(catalogue::definition_at(1396), s);
    words::lemma_word(values, s, 1396);
    names::lemma_three_phase(catalogue::definition_at(1397), s);
    words::lemma_word(values, s, 1397);
    names::lemma_three_phase(catalogue::definition_at(1398), s);
    words::lemma_word(values, s, 1398);
}

/// Law: what IR 1399-1403, 1412-1413 show of a plant.
#[verifier::spinoff_prover]
#[verifier::rlimit(60)]
pub proof fn law_ir_1399_to_1413(values: Map<u32, u16>, s: PlantState)
    ensures
        words::input(values, s, 1399) == Some(
            plain::lower(plain::long(s.energy_totals.load_consumption_kwh@, 100_000)) as u16,
        ),
        words::input(values, s, 1400) == Some(
            plain::upper(plain::long(s.energy_totals.grid_export_kwh@, 100_000)) as u16,
        ),
        words::input(values, s, 1401) == Some(
            plain::lower(plain::long(s.energy_totals.grid_export_kwh@, 100_000)) as u16,
        ),
        words::input(values, s, 1402) == Some(
            plain::upper(plain::long(s.energy_totals.grid_export_kwh@, 100_000)) as u16,
        ),
        words::input(values, s, 1403) == Some(
            plain::lower(plain::long(s.energy_totals.grid_export_kwh@, 100_000)) as u16,
        ),
        words::input(values, s, 1412) == Some(
            plain::upper(plain::long(s.energy_totals.solar_generation_kwh@, 100_000)) as u16,
        ),
        words::input(values, s, 1413) == Some(
            plain::lower(plain::long(s.energy_totals.solar_generation_kwh@, 100_000)) as u16,
        ),
{
    definitions::lemma_three_phase_energy();
    names::lemma_three_phase_power_names();
    names::lemma_three_phase_energy_names();
    words::lemma_scales();
    words::lemma_plain(s);
    names::lemma_three_phase(catalogue::definition_at(1399), s);
    words::lemma_word(values, s, 1399);
    names::lemma_three_phase(catalogue::definition_at(1400), s);
    words::lemma_word(values, s, 1400);
    names::lemma_three_phase(catalogue::definition_at(1401), s);
    words::lemma_word(values, s, 1401);
    names::lemma_three_phase(catalogue::definition_at(1402), s);
    words::lemma_word(values, s, 1402);
    names::lemma_three_phase(catalogue::definition_at(1403), s);
    words::lemma_word(values, s, 1403);
    names::lemma_three_phase(catalogue::definition_at(1412), s);
    words::lemma_word(values, s, 1412);
    names::lemma_three_phase(catalogue::definition_at(1413), s);
    words::lemma_word(values, s, 1413);
}

/// Law: what IR 1300-1307 show of a plant.
#[verifier::spinoff_prover]
#[verifier::rlimit(60)]
pub proof fn law_ir_1300_to_1307(values: Map<u32, u16>, s: PlantState)
    ensures
        words::input(values, s, 1300) == Some(0u16),
        words::input(values, s, 1301) == Some(
            (if plain::three_phase(s.config.inverter_type@) {
                plain::one_if(plain::raised(s.active_faults@, "grid_loss"@)) * 0x1
                    + plain::one_if(plain::raised(s.active_faults@, "comm_timeout"@)) * 0x8000
            } else {
                0int
            }) as u16,
        ),
        words::input(values, s, 1302) == Some(0u16),
        words::input(values, s, 1303) == Some(0u16),
        words::input(values, s, 1304) == Some(0u16),
        words::input(values, s, 1305) == Some(
            (if plain::three_phase(s.config.inverter_type@) {
                plain::one_if(plain::raised(s.active_faults@, "inverter_trip"@)) * 0x10
                    + plain::one_if(plain::raised(s.active_faults@, "sensor_drift"@)) * 0x2000
            } else {
                0int
            }) as u16,
        ),
        words::input(values, s, 1306) == Some(0u16),
        words::input(values, s, 1307) == Some(
            (if plain::three_phase(s.config.inverter_type@) {
                plain::one_if(plain::raised(s.active_faults@, "battery_over_temp"@)) * 0x200
            } else {
                0int
            }) as u16,
        ),
{
    definitions::lemma_three_phase_faults();
    names::lemma_input_a_names();
    names::lemma_input_b_names();
    names::lemma_fault_names();
    words::lemma_scales();
    words::lemma_plain(s);
    names::lemma_fault_word(catalogue::definition_at(1300), s);
    words::lemma_word(values, s, 1300);
    names::lemma_fault_word(catalogue::definition_at(1301), s);
    words::lemma_word(values, s, 1301);
    names::lemma_fault_word(catalogue::definition_at(1302), s);
    words::lemma_word(values, s, 1302);
    names::lemma_fault_word(catalogue::definition_at(1303), s);
    words::lemma_word(values, s, 1303);
    names::lemma_fault_word(catalogue::definition_at(1304), s);
    words::lemma_word(values, s, 1304);
    names::lemma_fault_word(catalogue::definition_at(1305), s);
    words::lemma_word(values, s, 1305);
    names::lemma_fault_word(catalogue::definition_at(1306), s);
    words::lemma_word(values, s, 1306);
    names::lemma_fault_word(catalogue::definition_at(1307), s);
    words::lemma_word(values, s, 1307);
}

} // verus!
