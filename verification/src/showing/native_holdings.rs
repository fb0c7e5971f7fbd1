//! What the native holding registers show.
use crate::catalogue;
use crate::model;
use crate::showing::{definitions, names, plain, words};
use crate::state::{InverterMode, PlantState};
use vstd::prelude::*;

verus! {

/// Law: what HR 0-3, 7-10 show of a plant.
#[verifier::spinoff_prover]
#[verifier::rlimit(60)]
pub proof fn law_hr_0_to_10(values: Map<u32, u16>, s: PlantState)
    ensures
        words::holding(values, s, 0) == Some(model::type_code(s.config.inverter_type@) as u16),
        words::holding(values, s, 1) == Some(0u16),
        words::holding(values, s, 2) == Some(0u16),
        words::holding(values, s, 3) == Some(
            ((if s.config.pv2_peak_watts@ > 0 { 0x200int } else { 0x100int }) + (if plain::three_phase(s.config.inverter_type@) { 3int } else { 1int })) as u16,
        ),
        words::holding(values, s, 7) == Some(1u16),
        words::holding(values, s, 8) == Some(
            (if plain::gateway(s.config.inverter_type@) { 0int } else { 0x4241int }) as u16,
        ),
        words::holding(values, s, 9) == Some(
            (if plain::gateway(s.config.inverter_type@) { 0int } else { 0x5430int }) as u16,
        ),
        words::holding(values, s, 10) == Some(
            (if plain::gateway(s.config.inverter_type@) { 0int } else { 0x3030int }) as u16,
        ),
{
    definitions::lemma_native_identity();
    names::lemma_holding_a_names();
    names::lemma_holding_b_names();
    names::lemma_internal_names();
    words::lemma_scales();
    words::lemma_plain(s);
    names::lemma_holding(catalogue::definition_at(10000), s);
    words::lemma_word(values, s, 10000);
    names::lemma_holding(catalogue::definition_at(10001), s);
    words::lemma_word(values, s, 10001);
    names::lemma_holding(catalogue::definition_at(10002), s);
    words::lemma_word(values, s, 10002);
    names::lemma_holding(catalogue::definition_at(10003), s);
    words::lemma_word(values, s, 10003);
    names::lemma_holding(catalogue::definition_at(10007), s);
    words::lemma_word(values, s, 10007);
    names::lemma_holding(catalogue::definition_at(10008), s);
    words::lemma_word(values, s, 10008);
    names::lemma_holding(catalogue::definition_at(10009), s);
    words::lemma_word(values, s, 10009);
    names::lemma_holding(catalogue::definition_at(10010), s);
    words::lemma_word(values, s, 10010);
}

/// Law: what HR 11-18 show of a plant.
#[verifier::spinoff_prover]
#[verifier::rlimit(60)]
pub proof fn law_hr_11_to_18(values: Map<u32, u16>, s: PlantState)
    ensures
        words::holding(values, s, 11) == Some(
            (if plain::gateway(s.config.inverter_type@) { 0int } else { 0x3031int }) as u16,
        ),
        words::holding(values, s, 12) == Some(
            (if plain::gateway(s.config.inverter_type@) { 0int } else { 0x2020int }) as u16,
        ),
        !plain::gateway(s.config.inverter_type@) ==> words::holding(values, s, 13) == Some(
            (if s.config.inverter_type@ == "ThreePhase11kW"@ {
                0x5a41int
            } else {
                0x5349int
            }) as u16,
        ),
        !plain::gateway(s.config.inverter_type@) ==> words::holding(values, s, 14) == Some(
            (if s.config.inverter_type@ == "ThreePhase11kW"@ {
                0x4141int
            } else {
                0x4d30int
            }) as u16,
        ),
        !plain::gateway(s.config.inverter_type@) ==> words::holding(values, s, 15) == Some(
            (if s.config.inverter_type@ == "ThreePhase11kW"@ {
                0x3131int
            } else {
                0x3031int
            }) as u16,
        ),
        !plain::gateway(s.config.inverter_type@) ==> words::holding(values, s, 16) == Some(
            (if s.config.inverter_type@ == "ThreePhase11kW"@ {
                0x3131int
            } else {
                0x3233int
            }) as u16,
        ),
        !plain::gateway(s.config.inverter_type@) ==> words::holding(values, s, 17) == Some(
            (if s.config.inverter_type@ == "ThreePhase11kW"@ {
                0x3131int
            } else {
                0x3435int
            }) as u16,
        ),
        words::holding(values, s, 18) == Some(
            (if plain::gateway(s.config.inverter_type@) { 0int } else { 100int }) as u16,
        ),
{
    definitions::lemma_native_identity();
    names::lemma_holding_a_names();
    names::lemma_holding_b_names();
    names::lemma_internal_names();
    words::lemma_scales();
    words::lemma_plain(s);
    names::lemma_holding(catalogue::definition_at(10011), s);
    words::lemma_word(values, s, 10011);
    names::lemma_holding(catalogue::definition_at(10012), s);
    words::lemma_word(values, s, 10012);
    names::lemma_holding(catalogue::definition_at(10013), s);
    if !plain::gateway(s.config.inverter_type@) {
        words::lemma_word(values, s, 10013);
    }
    names::lemma_holding(catalogue::definition_at(10014), s);
    if !plain::gateway(s.config.inverter_type@) {
        words::lemma_word(values, s, 10014);
    }
    names::lemma_holding(catalogue::definition_at(10015), s);
    if !plain::gateway(s.config.inverter_type@) {
        words::lemma_word(values, s, 10015);
    }
    names::lemma_holding(catalogue::definition_at(10016), s);
    if !plain::gateway(s.config.inverter_type@) {
        words::lemma_word(values, s, 10016);
    }
    names::lemma_holding(catalogue::definition_at(10017), s);
    if !plain::gateway(s.config.inverter_type@) {
        words::lemma_word(values, s, 10017);
    }
    names::lemma_holding(catalogue::definition_at(10018), s);
    words::lemma_word(values, s, 10018);
}

/// Law: what HR 19-26 show of a plant.
#[verifier::spinoff_prover]
#[verifier::rlimit(60)]
pub proof fn law_hr_19_to_26(values: Map<u32, u16>, s: PlantState)
    ensures
        words::holding(values, s, 19) == Some(s.inverter.dsp_firmware_version as int as u16),
        words::holding(values, s, 20) == Some(plain::one_if(s.enable_charge_target) as u16),
        words::holding(values, s, 21) == Some(
            plain::firmware(s.config.inverter_type@, s.inverter.arm_firmware_version as int) as u16,
        ),
        words::holding(values, s, 22) == Some(1u16),
        words::holding(values, s, 23) == Some(0u16),
        words::holding(values, s, 24) == Some(0u16),
        words::holding(values, s, 25) == Some(0u16),
        words::holding(values, s, 26) == Some(
            plain::word(s.config.max_ac_watts@, 1_000_000) as u16,
        ),
{
    definitions::lemma_native_identity();
    names::lemma_holding_a_names();
    names::lemma_holding_b_names();
    names::lemma_internal_names();
    words::lemma_scales();
    words::lemma_plain(s);
    names::lemma_holding(catalogue::definition_at(10019), s);
    words::lemma_word(values, s, 10019);
    names::lemma_holding(catalogue::definition_at(10020), s);
    words::lemma_word(values, s, 10020);
    names::lemma_holding(catalogue::definition_at(10021), s);
    words::lemma_word(values, s, 10021);
    names::lemma_holding(catalogue::definition_at(10022), s);
    words::lemma_word(values, s, 10022);
    names::lemma_holding(catalogue::definition_at(10023), s);
    words::lemma_word(values, s, 10023);
    names::lemma_holding(catalogue::definition_at(10024), s);
    words::lemma_word(values, s, 10024);
    names::lemma_holding(catalogue::definition_at(10025), s);
    words::lemma_word(values, s, 10025);
    names::lemma_holding(catalogue::definition_at(10026), s);
    words::lemma_word(values, s, 10026);
}

/// Law: what HR 27-34 show of a plant.
#[verifier::spinoff_prover]
#[verifier::rlimit(60)]
pub proof fn law_hr_27_to_34(values: Map<u32, u16>, s: PlantState)
    ensures
        words::holding(values, s, 27) == Some(
            (if s.inverter.effective_mode == InverterMode::Eco { 1int } else { 0int }) as u16,
        ),
        words::holding(values, s, 28) == Some(0u16),
        words::holding(values, s, 29) == Some(s.calibration_stage as int as u16),
        words::holding(values, s, 30) == Some(0x32u16),
        words::holding(values, s, 31) == Some(60u16),
        words::holding(values, s, 32) == Some(60u16),
        words::holding(values, s, 33) == Some(0u16),
        words::holding(values, s, 34) == Some(100u16),
{
    definitions::lemma_native_identity();
    names::lemma_holding_a_names();
    names::lemma_holding_b_names();
    names::lemma_internal_names();
    words::lemma_scales();
    words::lemma_plain(s);
    names::lemma_holding(catalogue::definition_at(10027), s);
    words::lemma_word(values, s, 10027);
    names::lemma_holding(catalogue::definition_at(10028), s);
    words::lemma_word(values, s, 10028);
    names::lemma_holding(catalogue::definition_at(10029), s);
    words::lemma_word(values, s, 10029);
    names::lemma_holding(catalogue::definition_at(10030), s);
    words::lemma_word(values, s, 10030);
    names::lemma_holding(catalogue::definition_at(10031), s);
    words::lemma_word(values, s, 10031);
    names::lemma_holding(catalogue::definition_at(10032), s);
    words::lemma_word(values, s, 10032);
    names::lemma_holding(catalogue::definition_at(10033), s);
    words::lemma_word(values, s, 10033);
    names::lemma_holding(catalogue::definition_at(10034), s);
    words::lemma_word(values, s, 10034);
}

/// Law: what HR 35-40 show of a plant.
#[verifier::spinoff_prover]
#[verifier::rlimit(60)]
pub proof fn law_hr_35_to_40(values: Map<u32, u16>, s: PlantState)
    ensures
        words::holding(values, s, 35) == Some((s.timestamp.year as int % 65536) as u16),
        words::holding(values, s, 36) == Some((s.timestamp.month as int % 65536) as u16),
        words::holding(values, s, 37) == Some((s.timestamp.day as int % 65536) as u16),
        words::holding(values, s, 38) == Some((s.timestamp.hour as int % 65536) as u16),
        words::holding(values, s, 39) == Some((s.timestamp.minute as int % 65536) as u16),
        words::holding(values, s, 40) == Some((s.timestamp.second as int % 65536) as u16),
{
    definitions::lemma_native_identity();
    names::lemma_holding_a_names();
    names::lemma_holding_b_names();
    names::lemma_internal_names();
    words::lemma_scales();
    words::lemma_plain(s);
    names::lemma_holding(catalogue::definition_at(10035), s);
    words::lemma_word(values, s, 10035);
    names::lemma_holding(catalogue::definition_at(10036), s);
    words::lemma_word(values, s, 10036);
    names::lemma_holding(catalogue::definition_at(10037), s);
    words::lemma_word(values, s, 10037);
    names::lemma_holding(catalogue::definition_at(10038), s);
    words::lemma_word(values, s, 10038);
    names::lemma_holding(catalogue::definition_at(10039), s);
    words::lemma_word(values, s, 10039);
    names::lemma_holding(catalogue::definition_at(10040), s);
    words::lemma_word(values, s, 10040);
}

/// Law: what HR 41-48 show of a plant.
#[verifier::spinoff_prover]
#[verifier::rlimit(60)]
pub proof fn law_hr_41_to_48(values: Map<u32, u16>, s: PlantState)
    ensures
        words::holding(values, s, 41) == Some(0u16),
        words::holding(values, s, 42) == Some(0u16),
        words::holding(values, s, 43) == Some(0x6404u16),
        words::holding(values, s, 44) == Some(60u16),
        words::holding(values, s, 45) == Some(60u16),
        words::holding(values, s, 46) == Some(100u16),
        words::holding(values, s, 47) == Some(0u16),
        words::holding(values, s, 48) == Some(0u16),
{
    definitions::lemma_native_settings();
    names::lemma_holding_a_names();
    names::lemma_holding_b_names();
    names::lemma_internal_names();
    words::lemma_scales();
    words::lemma_plain(s);
    names::lemma_holding(catalogue::definition_at(10041), s);
    words::lemma_word(values, s, 10041);
    names::lemma_holding(catalogue::definition_at(10042), s);
    words::lemma_word(values, s, 10042);
    names::lemma_holding(catalogue::definition_at(10043), s);
    words::lemma_word(values, s, 10043);
    names::lemma_holding(catalogue::definition_at(10044), s);
    words::lemma_word(values, s, 10044);
    names::lemma_holding(catalogue::definition_at(10045), s);
    words::lemma_word(values, s, 10045);
    names::lemma_holding(catalogue::definition_at(10046), s);
    words::lemma_word(values, s, 10046);
    names::lemma_holding(catalogue::definition_at(10047), s);
    words::lemma_word(values, s, 10047);
    names::lemma_holding(catalogue::definition_at(10048), s);
    words::lemma_word(values, s, 10048);
}

/// Law: what HR 49-56 show of a plant.
#[verifier::spinoff_prover]
#[verifier::rlimit(60)]
pub proof fn law_hr_49_to_56(values: Map<u32, u16>, s: PlantState)
    ensures
        words::holding(values, s, 49) == Some(0u16),
        words::holding(values, s, 50) == Some(
            plain::word(s.active_power_rate_percent@, 1_000_000) as u16,
        ),
        words::holding(values, s, 51) == Some(100u16),
        words::holding(values, s, 52) == Some(10000u16),
        words::holding(values, s, 53) == Some(0x0101u16),
        words::holding(values, s, 54) == Some(1u16),
        words::holding(values, s, 55) == Some(
            plain::word(
                s.battery.capacity_kwh@,
                plain::nominal_millivolts(s.config.inverter_type@),
            ) as u16,
        ),
        words::holding(values, s, 56) == Some(60u16),
{
    definitions::lemma_native_settings();
    names::lemma_holding_a_names();
    names::lemma_holding_b_names();
    names::lemma_internal_names();
    words::lemma_scales();
    words::lemma_plain(s);
    names::lemma_holding(catalogue::definition_at(10049), s);
    words::lemma_word(values, s, 10049);
    names::lemma_holding(catalogue::definition_at(10050), s);
    words::lemma_word(values, s, 10050);
    names::lemma_holding(catalogue::definition_at(10051), s);
    words::lemma_word(values, s, 10051);
    names::lemma_holding(catalogue::definition_at(10052), s);
    words::lemma_word(values, s, 10052);
    names::lemma_holding(catalogue::definition_at(10053), s);
    words::lemma_word(values, s, 10053);
    names::lemma_holding(catalogue::definition_at(10054), s);
    words::lemma_word(values, s, 10054);
    names::lemma_holding(catalogue::definition_at(10055), s);
    words::lemma_word(values, s, 10055);
    names::lemma_holding(catalogue::definition_at(10056), s);
    words::lemma_word(values, s, 10056);
}

/// Law: what HR 57-62, 94-95 show of a plant.
#[verifier::spinoff_prover]
#[verifier::rlimit(60)]
pub proof fn law_hr_57_to_95(values: Map<u32, u16>, s: PlantState)
    ensures
        words::holding(values, s, 57) == Some(60u16),
        words::holding(values, s, 58) == Some(1u16),
        words::holding(values, s, 59) == Some(
            (if s.inverter.effective_mode == InverterMode::ForceDischarge {
                1int
            } else {
                0int
            }) as u16,
        ),
        words::holding(values, s, 60) == Some(1200u16),
        words::holding(values, s, 61) == Some(0u16),
        words::holding(values, s, 62) == Some(0u16),
        words::holding(values, s, 94) == Some(60u16),
        words::holding(values, s, 95) == Some(60u16),
{
    definitions::lemma_native_settings();
    names::lemma_holding_a_names();
    names::lemma_holding_b_names();
    names::lemma_internal_names();
    words::lemma_scales();
    words::lemma_plain(s);
    names::lemma_holding(catalogue::definition_at(10057), s);
    words::lemma_word(values, s, 10057);
    names::lemma_holding(catalogue::definition_at(10058), s);
    words::lemma_word(values, s, 10058);
    names::lemma_holding(catalogue::definition_at(10059), s);
    words::lemma_word(values, s, 10059);
    names::lemma_holding(catalogue::definition_at(10060), s);
    words::lemma_word(values, s, 10060);
    names::lemma_holding(catalogue::definition_at(10061), s);
    words::lemma_word(values, s, 10061);
    names::lemma_holding(catalogue::definition_at(10062), s);
    words::lemma_word(values, s, 10062);
    names::lemma_holding(catalogue::definition_at(10094), s);
    words::lemma_word(values, s, 10094);
    names::lemma_holding(catalogue::definition_at(10095), s);
    words::lemma_word(values, s, 10095);
}

/// Law: what HR 96-98, 105, 108-111 show of a plant.
#[verifier::spinoff_prover]
#[verifier::rlimit(60)]
pub proof fn law_hr_96_to_111(values: Map<u32, u16>, s: PlantState)
    ensures
        words::holding(values, s, 96) == Some(
            (if s.inverter.effective_mode == InverterMode::ForceCharge {
                1int
            } else {
                0int
            }) as u16,
        ),
        words::holding(values, s, 97) == Some(4000u16),
        words::holding(values, s, 98) == Some(6000u16),
        words::holding(values, s, 105) == Some(0u16),
        words::holding(values, s, 108) == Some(0u16),
        words::holding(values, s, 109) == Some(1u16),
        words::holding(values, s, 110) == Some(
            plain::word(s.battery.min_soc_percent@, 1_000_000) as u16,
        ),
        words::holding(values, s, 111) == Some(
            plain::word(s.battery_charge_limit_percent@, 1_000_000) as u16,
        ),
{
    definitions::lemma_native_settings();
    names::lemma_holding_a_names();
    names::lemma_holding_b_names();
    names::lemma_internal_names();
    words::lemma_scales();
    words::lemma_plain(s);
    names::lemma_holding(catalogue::definition_at(10096), s);
    words::lemma_word(values, s, 10096);
    names::lemma_holding(catalogue::definition_at(10097), s);
    words::lemma_word(values, s, 10097);
    names::lemma_holding(catalogue::definition_at(10098), s);
    words::lemma_word(values, s, 10098);
    names::lemma_holding(catalogue::definition_at(10105), s);
    words::lemma_word(values, s, 10105);
    names::lemma_holding(catalogue::definition_at(10108), s);
    words::lemma_word(values, s, 10108);
    names::lemma_holding(catalogue::definition_at(10109), s);
    words::lemma_word(values, s, 10109);
    names::lemma_holding(catalogue::definition_at(10110), s);
    words::lemma_word(values, s, 10110);
    names::lemma_holding(catalogue::definition_at(10111), s);
    words::lemma_word(values, s, 10111);
}

/// Law: what HR 112-116 show of a plant.
#[verifier::spinoff_prover]
#[verifier::rlimit(60)]
pub proof fn law_hr_112_to_116(values: Map<u32, u16>, s: PlantState)
    ensures
        words::holding(values, s, 112) == Some(
            plain::word(s.battery_discharge_limit_percent@, 1_000_000) as u16,
        ),
        words::holding(values, s, 113) == Some(0u16),
        words::holding(values, s, 114) == Some(
            plain::word(s.battery_discharge_min_power_reserve@, 1_000_000) as u16,
        ),
        words::holding(values, s, 115) == Some(0u16),
        words::holding(values, s, 116) == Some(100u16),
{
    definitions::lemma_native_settings();
    names::lemma_holding_a_names();
    names::lemma_holding_b_names();
    names::lemma_internal_names();
    words::lemma_scales();
    words::lemma_plain(s);
    names::lemma_holding(catalogue::definition_at(10112), s);
    words::lemma_word(values, s, 10112);
    names::lemma_holding(catalogue::definition_at(10113), s);
    words::lemma_word(values, s, 10113);
    names::lemma_holding(catalogue::definition_at(10114), s);
    words::lemma_word(values, s, 10114);
    names::lemma_holding(catalogue::definition_at(10115), s);
    words::lemma_word(values, s, 10115);
    names::lemma_holding(catalogue::definition_at(10116), s);
    words::lemma_word(values, s, 10116);
}

/// Law: what HR 117-124 show of a plant.
#[verifier::spinoff_prover]
#[verifier::rlimit(60)]
pub proof fn law_hr_117_to_124(values: Map<u32, u16>, s: PlantState)
    ensures
        words::holding(values, s, 117) == Some(100u16),
        words::holding(values, s, 118) == Some(100u16),
        words::holding(values, s, 119) == Some(100u16),
        words::holding(values, s, 120) == Some(100u16),
        words::holding(values, s, 121) == Some(0u16),
        words::holding(values, s, 122) == Some(0u16),
        words::holding(values, s, 123) == Some(0u16),
        words::holding(values, s, 124) == Some(0u16),
{
    definitions::lemma_native_flags();
    names::lemma_holding_a_names();
    names::lemma_holding_b_names();
    names::lemma_internal_names();
    words::lemma_scales();
    words::lemma_plain(s);
    names::lemma_holding(catalogue::definition_at(10117), s);
    words::lemma_word(values, s, 10117);
    names::lemma_holding(catalogue::definition_at(10118), s);
    words::lemma_word(values, s, 10118);
    names::lemma_holding(catalogue::definition_at(10119), s);
    words::lemma_word(values, s, 10119);
    names::lemma_holding(catalogue::definition_at(10120), s);
    words::lemma_word(values, s, 10120);
    names::lemma_holding(catalogue::definition_at(10121), s);
    words::lemma_word(values, s, 10121);
    names::lemma_holding(catalogue::definition_at(10122), s);
    words::lemma_word(values, s, 10122);
    names::lemma_holding(catalogue::definition_at(10123), s);
    words::lemma_word(values, s, 10123);
    names::lemma_holding(catalogue::definition_at(10124), s);
    words::lemma_word(values, s, 10124);
}

/// Law: what HR 125-128, 163, 166-168 show of a plant.
#[verifier::spinoff_prover]
#[verifier::rlimit(60)]
pub proof fn law_hr_125_to_168(values: Map<u32, u16>, s: PlantState)
    ensures
        words::holding(values, s, 125) == Some(0u16),
        words::holding(values, s, 126) == Some(0u16),
        words::holding(values, s, 127) == Some(0u16),
        words::holding(values, s, 128) == Some(0u16),
        words::holding(values, s, 163) == Some(0u16),
        words::holding(values, s, 166) == Some(plain::one_if(s.enable_rtc) as u16),
        words::holding(values, s, 167) == Some(0u16),
        words::holding(values, s, 168) == Some(0u16),
{
    definitions::lemma_native_flags();
    names::lemma_holding_a_names();
    names::lemma_holding_b_names();
    names::lemma_internal_names();
    words::lemma_scales();
    words::lemma_plain(s);
    names::lemma_holding(catalogue::definition_at(10125), s);
    words::lemma_word(values, s, 10125);
    names::lemma_holding(catalogue::definition_at(10126), s);
    words::lemma_word(values, s, 10126);
    names::lemma_holding(catalogue::definition_at(10127), s);
    words::lemma_word(values, s, 10127);
    names::lemma_holding(catalogue::definition_at(10128), s);
    words::lemma_word(values, s, 10128);
    names::lemma_holding(catalogue::definition_at(10163), s);
    words::lemma_word(values, s, 10163);
    names::lemma_holding(catalogue::definition_at(10166), s);
    words::lemma_word(values, s, 10166);
    names::lemma_holding(catalogue::definition_at(10167), s);
    words::lemma_word(values, s, 10167);
    names::lemma_holding(catalogue::definition_at(10168), s);
    words::lemma_word(values, s, 10168);
}

/// Law: what HR 169-171, 175-179 show of a plant.
#[verifier::spinoff_prover]
#[verifier::rlimit(60)]
pub proof fn law_hr_169_to_179(values: Map<u32, u16>, s: PlantState)
    ensures
        words::holding(values, s, 169) == Some(0u16),
        words::holding(values, s, 170) == Some(0u16),
        words::holding(values, s, 171) == Some(0u16),
        words::holding(values, s, 175) == Some(0u16),
        words::holding(values, s, 176) == Some(0u16),
        words::holding(values, s, 177) == Some(0u16),
        words::holding(values, s, 178) == Some(0u16),
        words::holding(values, s, 179) == Some(0u16),
{
    definitions::lemma_native_flags();
    names::lemma_holding_a_names();
    names::lemma_holding_b_names();
    names::lemma_internal_names();
    words::lemma_scales();
    words::lemma_plain(s);
    names::lemma_holding(catalogue::definition_at(10169), s);
    words::lemma_word(values, s, 10169);
    names::lemma_holding(catalogue::definition_at(10170), s);
    words::lemma_word(values, s, 10170);
    names::lemma_holding(catalogue::definition_at(10171), s);
    words::lemma_word(values, s, 10171);
    names::lemma_holding(catalogue::definition_at(10175), s);
    words::lemma_word(values, s, 10175);
    names::lemma_holding(catalogue::definition_at(10176), s);
    words::lemma_word(values, s, 10176);
    names::lemma_holding(catalogue::definition_at(10177), s);
    words::lemma_word(values, s, 10177);
    names::lemma_holding(catalogue::definition_at(10178), s);
    words::lemma_word(values, s, 10178);
    names::lemma_holding(catalogue::definition_at(10179), s);
    words::lemma_word(values, s, 10179);
}

/// Law: what HR 199, 313-314, 318-320 show of a plant.
#[verifier::spinoff_prover]
#[verifier::rlimit(60)]
pub proof fn law_hr_199_to_320(values: Map<u32, u16>, s: PlantState)
    ensures
        words::holding(values, s, 199) == Some(
            plain::one_if(s.enable_inverter_parallel_mode) as u16,
        ),
        words::holding(values, s, 313) == Some(
            plain::word(s.battery_charge_limit_percent@, 1_000_000) as u16,
        ),
        words::holding(values, s, 314) == Some(
            plain::word(s.battery_discharge_limit_percent@, 1_000_000) as u16,
        ),
        words::holding(values, s, 318) == Some(s.battery_pause_mode as int as u16),
        words::holding(values, s, 319) == Some(s.battery_pause_slot_start as int as u16),
        words::holding(values, s, 320) == Some(s.battery_pause_slot_end as int as u16),
{
    definitions::lemma_native_flags();
    names::lemma_holding_a_names();
    names::lemma_holding_b_names();
    names::lemma_internal_names();
    words::lemma_scales();
    words::lemma_plain(s);
    names::lemma_holding(catalogue::definition_at(10199), s);
    words::lemma_word(values, s, 10199);
    names::lemma_holding(catalogue::definition_at(10313), s);
    words::lemma_word(values, s, 10313);
    names::lemma_holding(catalogue::definition_at(10314), s);
    words::lemma_word(values, s, 10314);
    names::lemma_holding(catalogue::definition_at(10318), s);
    words::lemma_word(values, s, 10318);
    names::lemma_holding(catalogue::definition_at(10319), s);
    words::lemma_word(values, s, 10319);
    names::lemma_holding(catalogue::definition_at(10320), s);
    words::lemma_word(values, s, 10320);
}

/// Law: what HR 311, 317 show of a plant.
#[verifier::spinoff_prover]
#[verifier::rlimit(60)]
pub proof fn law_hr_311_to_317(values: Map<u32, u16>, s: PlantState)
    ensures
        words::holding(values, s, 311) == Some(s.export_priority as int as u16),
        words::holding(values, s, 317) == Some(plain::one_if(s.enable_eps) as u16),
{
    definitions::lemma_discharge_slots();
    names::lemma_holding_a_names();
    names::lemma_holding_b_names();
    names::lemma_internal_names();
    words::lemma_scales();
    words::lemma_plain(s);
    names::lemma_holding(catalogue::definition_at(10311), s);
    words::lemma_word(values, s, 10311);
    names::lemma_holding(catalogue::definition_at(10317), s);
    words::lemma_word(values, s, 10317);
}

/// Law: what HR 4107-4114 show of a plant.
#[verifier::spinoff_prover]
#[verifier::rlimit(60)]
pub proof fn law_hr_4107_to_4114(values: Map<u32, u16>, s: PlantState)
    ensures
        words::holding(values, s, 4107) == Some(
            plain::upper(plain::long(s.config.solar_peak_watts@, 1_000_000)) as u16,
        ),
        words::holding(values, s, 4108) == Some(
            plain::lower(plain::long(s.config.solar_peak_watts@, 1_000_000)) as u16,
        ),
        words::holding(values, s, 4109) == Some(
            plain::upper(plain::long(plain::throughput(s.batteries@), 200_000)) as u16,
        ),
        words::holding(values, s, 4110) == Some(
            plain::lower(plain::long(plain::throughput(s.batteries@), 200_000)) as u16,
        ),
        words::holding(values, s, 4111) == Some(
            plain::upper(plain::long(plain::throughput(s.batteries@), 200_000)) as u16,
        ),
        words::holding(values, s, 4112) == Some(
            plain::lower(plain::long(plain::throughput(s.batteries@), 200_000)) as u16,
        ),
        words::holding(values, s, 4113) == Some(
            plain::word(s.energy_totals.battery_discharge_kwh@, 100_000) as u16,
        ),
        words::holding(values, s, 4114) == Some(
            plain::word(s.energy_totals.battery_charge_kwh@, 100_000) as u16,
        ),
{
    definitions::lemma_smart_load();
    names::lemma_holding_a_names();
    names::lemma_holding_b_names();
    names::lemma_internal_names();
    words::lemma_scales();
    words::lemma_plain(s);
    names::lemma_holding(catalogue::definition_at(14107), s);
    words::lemma_word(values, s, 14107);
    names::lemma_holding(catalogue::definition_at(14108), s);
    words::lemma_word(values, s, 14108);
    names::lemma_holding(catalogue::definition_at(14109), s);
    words::lemma_word(values, s, 14109);
    names::lemma_holding(catalogue::definition_at(14110), s);
    words::lemma_word(values, s, 14110);
    names::lemma_holding(catalogue::definition_at(14111), s);
    words::lemma_word(values, s, 14111);
    names::lemma_holding(catalogue::definition_at(14112), s);
    words::lemma_word(values, s, 14112);
    names::lemma_holding(catalogue::definition_at(14113), s);
    words::lemma_word(values, s, 14113);
    names::lemma_holding(catalogue::definition_at(14114), s);
    words::lemma_word(values, s, 14114);
}

/// Law: what HR 4141-4142 show of a plant.
#[verifier::spinoff_prover]
#[verifier::rlimit(60)]
pub proof fn law_hr_4141_to_4142(values: Map<u32, u16>, s: PlantState)
    ensures
        words::holding(values, s, 4141) == Some(
            plain::upper(plain::long(s.energy_totals.grid_export_kwh@, 100_000)) as u16,
        ),
        words::holding(values, s, 4142) == Some(
            plain::lower(plain::long(s.energy_totals.grid_export_kwh@, 100_000)) as u16,
        ),
{
    definitions::lemma_smart_load();
    names::lemma_holding_a_names();
    names::lemma_holding_b_names();
    names::lemma_internal_names();
    words::lemma_scales();
    words::lemma_plain(s);
    names::lemma_holding(catalogue::definition_at(14141), s);
    words::lemma_word(values, s, 14141);
    names::lemma_holding(catalogue::definition_at(14142), s);
    words::lemma_word(values, s, 14142);
}

} // verus!
