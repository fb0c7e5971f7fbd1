//! What the registers of the simulator show.
use crate::catalogue;
use crate::showing::{definitions, names, plain, words};
use crate::state::PlantState;
use vstd::prelude::*;

verus! {

/// Law: what HR 100-104, 172, 200-201 show of a plant.
#[verifier::spinoff_prover]
#[verifier::rlimit(60)]
pub proof fn law_hr_100_to_201(values: Map<u32, u16>, s: PlantState)
    ensures
        words::holding(values, s, 100) == Some(
            plain::mode_number(s.inverter.effective_mode) as u16,
        ),
        words::holding(values, s, 101) == Some(
            plain::word(s.inverter.ac_power_w@, 1_000_000) as u16,
        ),
        words::holding(values, s, 102) == Some(
            plain::word(s.inverter.export_limit_w@, 1_000_000) as u16,
        ),
        words::holding(values, s, 103) == Some(
            plain::word(s.inverter.temperature_celsius@, 100_000) as u16,
        ),
        words::holding(values, s, 104) == Some(
            plain::one_if(s.inverter.battery_self_heating) as u16,
        ),
        words::holding(values, s, 172) == Some(
            plain::one_if(s.inverter.manual_battery_heater) as u16,
        ),
        words::holding(values, s, 200) == Some(
            plain::word(s.battery.soc_percent@, 1_000_000) as u16,
        ),
        words::holding(values, s, 201) == Some(
            (if s.batteries@.len() > 1 {
                plain::word(s.batteries@[1].soc_percent@, 1_000_000)
            } else {
                0int
            }) as u16,
        ),
{
    definitions::lemma_internal();
    names::lemma_holding_a_names();
    names::lemma_holding_b_names();
    names::lemma_internal_names();
    words::lemma_scales();
    words::lemma_plain(s);
    names::lemma_holding(catalogue::definition_at(10100), s);
    words::lemma_word(values, s, 10100);
    names::lemma_holding(catalogue::definition_at(10101), s);
    words::lemma_word(values, s, 10101);
    names::lemma_holding(catalogue::definition_at(10102), s);
    words::lemma_word(values, s, 10102);
    names::lemma_holding(catalogue::definition_at(10103), s);
    words::lemma_word(values, s, 10103);
    names::lemma_holding(catalogue::definition_at(10104), s);
    words::lemma_word(values, s, 10104);
    names::lemma_holding(catalogue::definition_at(10172), s);
    words::lemma_word(values, s, 10172);
    names::lemma_holding(catalogue::definition_at(10200), s);
    words::lemma_word(values, s, 10200);
    names::lemma_holding(catalogue::definition_at(10201), s);
    words::lemma_word(values, s, 10201);
}

/// Law: what HR 202-209 show of a plant.
#[verifier::spinoff_prover]
#[verifier::rlimit(60)]
pub proof fn law_hr_202_to_209(values: Map<u32, u16>, s: PlantState)
    ensures
        words::holding(values, s, 202) == Some(
            (if s.batteries@.len() > 2 {
                plain::word(s.batteries@[2].soc_percent@, 1_000_000)
            } else {
                0int
            }) as u16,
        ),
        words::holding(values, s, 203) == Some(
            plain::signed_word(s.battery.power_kw@ * 1000, 1_000_000) as u16,
        ),
        words::holding(values, s, 204) == Some(
            plain::word(4_400_000_000 + s.battery.soc_percent@ * 8, 1_000_000) as u16,
        ),
        words::holding(values, s, 205) == Some(
            plain::signed_word(s.battery.power_kw@ * 1000, 480_000) as u16,
        ),
        words::holding(values, s, 206) == Some(
            plain::word(s.battery.temperature_celsius@, 100_000) as u16,
        ),
        words::holding(values, s, 207) == Some(
            plain::word(s.battery.capacity_kwh@, 100_000) as u16,
        ),
        words::holding(values, s, 208) == Some(
            plain::word(s.battery.max_charge_w@, 100_000_000) as u16,
        ),
        words::holding(values, s, 209) == Some(
            plain::word(s.battery.max_discharge_w@, 100_000_000) as u16,
        ),
{
    definitions::lemma_internal();
    names::lemma_holding_a_names();
    names::lemma_holding_b_names();
    names::lemma_internal_names();
    words::lemma_scales();
    words::lemma_plain(s);
    names::lemma_holding(catalogue::definition_at(10202), s);
    words::lemma_word(values, s, 10202);
    names::lemma_holding(catalogue::definition_at(10203), s);
    words::lemma_word(values, s, 10203);
    names::lemma_holding(catalogue::definition_at(10204), s);
    words::lemma_word(values, s, 10204);
    names::lemma_holding(catalogue::definition_at(10205), s);
    words::lemma_word(values, s, 10205);
    names::lemma_holding(catalogue::definition_at(10206), s);
    words::lemma_word(values, s, 10206);
    names::lemma_holding(catalogue::definition_at(10207), s);
    words::lemma_word(values, s, 10207);
    names::lemma_holding(catalogue::definition_at(10208), s);
    words::lemma_word(values, s, 10208);
    names::lemma_holding(catalogue::definition_at(10209), s);
    words::lemma_word(values, s, 10209);
}

/// Law: what HR 210-214, 223-224, 300 show of a plant.
#[verifier::spinoff_prover]
#[verifier::rlimit(60)]
pub proof fn law_hr_210_to_300(values: Map<u32, u16>, s: PlantState)
    ensures
        words::holding(values, s, 210) == Some(
            plain::word(s.battery.min_soc_percent@, 1_000_000) as u16,
        ),
        words::holding(values, s, 211) == Some(
            plain::word(s.battery.max_soc_percent@, 1_000_000) as u16,
        ),
        words::holding(values, s, 212) == Some(
            (if s.batteries@.len() > 0 {
                plain::word(s.batteries@[0].charge_efficiency@, 10_000)
            } else {
                95int
            }) as u16,
        ),
        words::holding(values, s, 213) == Some(
            (if s.batteries@.len() > 0 {
                plain::word(s.batteries@[0].discharge_efficiency@, 10_000)
            } else {
                95int
            }) as u16,
        ),
        words::holding(values, s, 214) == Some(
            (if plain::gateway(s.config.inverter_type@) {
                0int
            } else {
                s.batteries@.len() as int % 65536
            }) as u16,
        ),
        words::holding(values, s, 223) == Some(plain::upper(plain::fault_bits(s)) as u16),
        words::holding(values, s, 224) == Some(plain::lower(plain::fault_bits(s)) as u16),
        words::holding(values, s, 300) == Some(
            plain::word(s.solar.generation_w@, 1_000_000) as u16,
        ),
{
    definitions::lemma_internal();
    names::lemma_holding_a_names();
    names::lemma_holding_b_names();
    names::lemma_internal_names();
    words::lemma_scales();
    words::lemma_plain(s);
    names::lemma_holding(catalogue::definition_at(10210), s);
    words::lemma_word(values, s, 10210);
    names::lemma_holding(catalogue::definition_at(10211), s);
    words::lemma_word(values, s, 10211);
    names::lemma_holding(catalogue::definition_at(10212), s);
    words::lemma_word(values, s, 10212);
    names::lemma_holding(catalogue::definition_at(10213), s);
    words::lemma_word(values, s, 10213);
    names::lemma_holding(catalogue::definition_at(10214), s);
    words::lemma_word(values, s, 10214);
    names::lemma_holding(catalogue::definition_at(10223), s);
    words::lemma_word(values, s, 10223);
    names::lemma_holding(catalogue::definition_at(10224), s);
    words::lemma_word(values, s, 10224);
    names::lemma_holding(catalogue::definition_at(10300), s);
    words::lemma_word(values, s, 10300);
}

/// Law: what HR 301-304, 400-403 show of a plant.
#[verifier::spinoff_prover]
#[verifier::rlimit(60)]
pub proof fn law_hr_301_to_403(values: Map<u32, u16>, s: PlantState)
    ensures
        words::holding(values, s, 301) == Some(
            (if s.solar.generation_w@ > 0 { 3500int } else { 0int }) as u16,
        ),
        words::holding(values, s, 302) == Some(
            plain::word(s.solar.generation_w@, 3_500_000) as u16,
        ),
        words::holding(values, s, 303) == Some(
            plain::word(s.energy_totals.solar_generation_kwh@, 100_000) as u16,
        ),
        words::holding(values, s, 304) == Some(
            plain::word(s.config.solar_peak_watts@, 1_000_000) as u16,
        ),
        words::holding(values, s, 400) == Some(
            plain::signed_word(s.grid.power_w@, 1_000_000) as u16,
        ),
        words::holding(values, s, 401) == Some(2400u16),
        words::holding(values, s, 402) == Some(5000u16),
        words::holding(values, s, 403) == Some(plain::one_if(s.grid.connected) as u16),
{
    definitions::lemma_internal();
    names::lemma_holding_a_names();
    names::lemma_holding_b_names();
    names::lemma_internal_names();
    words::lemma_scales();
    words::lemma_plain(s);
    names::lemma_holding(catalogue::definition_at(10301), s);
    words::lemma_word(values, s, 10301);
    names::lemma_holding(catalogue::definition_at(10302), s);
    words::lemma_word(values, s, 10302);
    names::lemma_holding(catalogue::definition_at(10303), s);
    words::lemma_word(values, s, 10303);
    names::lemma_holding(catalogue::definition_at(10304), s);
    words::lemma_word(values, s, 10304);
    names::lemma_holding(catalogue::definition_at(10400), s);
    words::lemma_word(values, s, 10400);
    names::lemma_holding(catalogue::definition_at(10401), s);
    words::lemma_word(values, s, 10401);
    names::lemma_holding(catalogue::definition_at(10402), s);
    words::lemma_word(values, s, 10402);
    names::lemma_holding(catalogue::definition_at(10403), s);
    words::lemma_word(values, s, 10403);
}

/// Law: what HR 404, 500-505, 600 show of a plant.
#[verifier::spinoff_prover]
#[verifier::rlimit(60)]
pub proof fn law_hr_404_to_600(values: Map<u32, u16>, s: PlantState)
    ensures
        words::holding(values, s, 404) == Some(plain::word(s.load_demand_w@, 1_000_000) as u16),
        words::holding(values, s, 500) == Some(
            plain::word(s.energy_totals.grid_import_kwh@, 100_000) as u16,
        ),
        words::holding(values, s, 501) == Some(
            plain::word(s.energy_totals.grid_export_kwh@, 100_000) as u16,
        ),
        words::holding(values, s, 502) == Some(
            plain::word(s.energy_totals.battery_charge_kwh@, 100_000) as u16,
        ),
        words::holding(values, s, 503) == Some(
            plain::word(s.energy_totals.battery_discharge_kwh@, 100_000) as u16,
        ),
        words::holding(values, s, 504) == Some(
            plain::word(s.energy_totals.solar_generation_kwh@, 100_000) as u16,
        ),
        words::holding(values, s, 505) == Some(
            plain::word(s.energy_totals.load_consumption_kwh@, 100_000) as u16,
        ),
        words::holding(values, s, 600) == Some((s.batteries@.len() as int % 65536) as u16),
{
    definitions::lemma_internal();
    names::lemma_holding_a_names();
    names::lemma_holding_b_names();
    names::lemma_internal_names();
    words::lemma_scales();
    words::lemma_plain(s);
    names::lemma_holding(catalogue::definition_at(10404), s);
    words::lemma_word(values, s, 10404);
    names::lemma_holding(catalogue::definition_at(10500), s);
    words::lemma_word(values, s, 10500);
    names::lemma_holding(catalogue::definition_at(10501), s);
    words::lemma_word(values, s, 10501);
    names::lemma_holding(catalogue::definition_at(10502), s);
    words::lemma_word(values, s, 10502);
    names::lemma_holding(catalogue::definition_at(10503), s);
    words::lemma_word(values, s, 10503);
    names::lemma_holding(catalogue::definition_at(10504), s);
    words::lemma_word(values, s, 10504);
    names::lemma_holding(catalogue::definition_at(10505), s);
    words::lemma_word(values, s, 10505);
    names::lemma_holding(catalogue::definition_at(10600), s);
    words::lemma_word(values, s, 10600);
}

/// Law: what HR 601-602, 700-705 show of a plant.
#[verifier::spinoff_prover]
#[verifier::rlimit(60)]
pub proof fn law_hr_601_to_705(values: Map<u32, u16>, s: PlantState)
    ensures
        words::holding(values, s, 601) == Some((s.config.tick_interval_secs as int % 65536) as u16),
        words::holding(values, s, 602) == Some(plain::weather_number(s.weather@) as u16),
        words::holding(values, s, 700) == Some(0u16),
        words::holding(values, s, 701) == Some(0u16),
        words::holding(values, s, 702) == Some(0u16),
        words::holding(values, s, 703) == Some(0u16),
        words::holding(values, s, 704) == Some(100u16),
        words::holding(values, s, 705) == Some(10u16),
{
    definitions::lemma_internal();
    names::lemma_holding_a_names();
    names::lemma_holding_b_names();
    names::lemma_internal_names();
    words::lemma_scales();
    words::lemma_plain(s);
    names::lemma_holding(catalogue::definition_at(10601), s);
    words::lemma_word(values, s, 10601);
    names::lemma_holding(catalogue::definition_at(10602), s);
    words::lemma_word(values, s, 10602);
    names::lemma_holding(catalogue::definition_at(10700), s);
    words::lemma_word(values, s, 10700);
    names::lemma_holding(catalogue::definition_at(10701), s);
    words::lemma_word(values, s, 10701);
    names::lemma_holding(catalogue::definition_at(10702), s);
    words::lemma_word(values, s, 10702);
    names::lemma_holding(catalogue::definition_at(10703), s);
    words::lemma_word(values, s, 10703);
    names::lemma_holding(catalogue::definition_at(10704), s);
    words::lemma_word(values, s, 10704);
    names::lemma_holding(catalogue::definition_at(10705), s);
    words::lemma_word(values, s, 10705);
}

} // verus!
