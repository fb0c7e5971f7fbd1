//! What the registers of the plant manager show.
use crate::catalogue;
use crate::showing::{definitions, names, plain, words};
use crate::state::PlantState;
use vstd::prelude::*;

verus! {

/// Law: what HR 2040, 2071 show of a plant.
#[verifier::spinoff_prover]
#[verifier::rlimit(60)]
pub proof fn law_hr_2040_to_2071(values: Map<u32, u16>, s: PlantState)
    ensures
        words::holding(values, s, 2040) == Some(plain::one_if(s.ems_enabled) as u16),
        words::holding(values, s, 2071) == Some(
            plain::word(s.inverter.export_limit_w@, 1_000_000) as u16,
        ),
{
    definitions::lemma_ems_holding();
    names::lemma_holding_a_names();
    names::lemma_holding_b_names();
    names::lemma_internal_names();
    words::lemma_scales();
    words::lemma_plain(s);
    names::lemma_holding(catalogue::definition_at(12040), s);
    words::lemma_word(values, s, 12040);
    names::lemma_holding(catalogue::definition_at(12071), s);
    words::lemma_word(values, s, 12071);
}

/// Law: what IR 2040-2047 show of a plant.
#[verifier::spinoff_prover]
#[verifier::rlimit(60)]
pub proof fn law_ir_2040_to_2047(values: Map<u32, u16>, s: PlantState)
    ensures
        words::input(values, s, 2040) == Some(1u16),
        words::input(values, s, 2041) == Some(0u16),
        words::input(values, s, 2042) == Some(0u16),
        words::input(values, s, 2043) == Some(0u16),
        words::input(values, s, 2044) == Some(
            plain::word(s.batteries@.len() as int * 1_000_000, 1_000_000) as u16,
        ),
        words::input(values, s, 2045) == Some(0u16),
        words::input(values, s, 2046) == Some(0u16),
        words::input(values, s, 2047) == Some(0u16),
{
    definitions::lemma_ems_input();
    names::lemma_ems_names();
    names::lemma_ems_prefixes();
    words::lemma_scales();
    words::lemma_plain(s);
    names::lemma_ems(catalogue::definition_at(2040), s);
    words::lemma_word(values, s, 2040);
    names::lemma_ems(catalogue::definition_at(2041), s);
    words::lemma_word(values, s, 2041);
    names::lemma_ems(catalogue::definition_at(2042), s);
    words::lemma_word(values, s, 2042);
    names::lemma_ems(catalogue::definition_at(2043), s);
    words::lemma_word(values, s, 2043);
    names::lemma_ems(catalogue::definition_at(2044), s);
    words::lemma_word(values, s, 2044);
    names::lemma_ems(catalogue::definition_at(2045), s);
    words::lemma_word(values, s, 2045);
    names::lemma_ems(catalogue::definition_at(2046), s);
    words::lemma_word(values, s, 2046);
    names::lemma_ems(catalogue::definition_at(2047), s);
    words::lemma_word(values, s, 2047);
}

/// Law: what IR 2048-2055 show of a plant.
#[verifier::spinoff_prover]
#[verifier::rlimit(60)]
pub proof fn law_ir_2048_to_2055(values: Map<u32, u16>, s: PlantState)
    ensures
        words::input(values, s, 2048) == Some(0u16),
        words::input(values, s, 2049) == Some(0u16),
        words::input(values, s, 2050) == Some(0u16),
        words::input(values, s, 2051) == Some(0u16),
        words::input(values, s, 2052) == Some(0u16),
        words::input(values, s, 2053) == Some(0u16),
        words::input(values, s, 2054) == Some(
            plain::signed_word(s.battery.power_kw@ * 1000, 1_000_000) as u16,
        ),
        words::input(values, s, 2055) == Some(0u16),
{
    definitions::lemma_ems_input();
    names::lemma_ems_names();
    names::lemma_ems_prefixes();
    words::lemma_scales();
    words::lemma_plain(s);
    names::lemma_ems(catalogue::definition_at(2048), s);
    words::lemma_word(values, s, 2048);
    names::lemma_ems(catalogue::definition_at(2049), s);
    words::lemma_word(values, s, 2049);
    names::lemma_ems(catalogue::definition_at(2050), s);
    words::lemma_word(values, s, 2050);
    names::lemma_ems(catalogue::definition_at(2051), s);
    words::lemma_word(values, s, 2051);
    names::lemma_ems(catalogue::definition_at(2052), s);
    words::lemma_word(values, s, 2052);
    names::lemma_ems(catalogue::definition_at(2053), s);
    words::lemma_word(values, s, 2053);
    names::lemma_ems(catalogue::definition_at(2054), s);
    words::lemma_word(values, s, 2054);
    names::lemma_ems(catalogue::definition_at(2055), s);
    words::lemma_word(values, s, 2055);
}

/// Law: what IR 2056-2063 show of a plant.
#[verifier::spinoff_prover]
#[verifier::rlimit(60)]
pub proof fn law_ir_2056_to_2063(values: Map<u32, u16>, s: PlantState)
    ensures
        words::input(values, s, 2056) == Some(0u16),
        words::input(values, s, 2057) == Some(0u16),
        words::input(values, s, 2058) == Some(
            plain::word(s.battery.soc_percent@, 1_000_000) as u16,
        ),
        words::input(values, s, 2059) == Some(0u16),
        words::input(values, s, 2060) == Some(0u16),
        words::input(values, s, 2061) == Some(0u16),
        words::input(values, s, 2062) == Some(
            plain::word(s.inverter.temperature_celsius@, 100_000) as u16,
        ),
        words::input(values, s, 2063) == Some(0u16),
{
    definitions::lemma_ems_input();
    names::lemma_ems_names();
    names::lemma_ems_prefixes();
    words::lemma_scales();
    words::lemma_plain(s);
    names::lemma_ems(catalogue::definition_at(2056), s);
    words::lemma_word(values, s, 2056);
    names::lemma_ems(catalogue::definition_at(2057), s);
    words::lemma_word(values, s, 2057);
    names::lemma_ems(catalogue::definition_at(2058), s);
    words::lemma_word(values, s, 2058);
    names::lemma_ems(catalogue::definition_at(2059), s);
    words::lemma_word(values, s, 2059);
    names::lemma_ems(catalogue::definition_at(2060), s);
    words::lemma_word(values, s, 2060);
    names::lemma_ems(catalogue::definition_at(2061), s);
    words::lemma_word(values, s, 2061);
    names::lemma_ems(catalogue::definition_at(2062), s);
    words::lemma_word(values, s, 2062);
    names::lemma_ems(catalogue::definition_at(2063), s);
    words::lemma_word(values, s, 2063);
}

/// Law: what IR 2064-2066, 2071, 2076, 2081, 2086-2087 show of a plant.
#[verifier::spinoff_prover]
#[verifier::rlimit(60)]
pub proof fn law_ir_2064_to_2087(values: Map<u32, u16>, s: PlantState)
    ensures
        words::input(values, s, 2064) == Some(0u16),
        words::input(values, s, 2065) == Some(0u16),
        words::input(values, s, 2066) == Some(0u16),
        words::input(values, s, 2071) == Some(0u16),
        words::input(values, s, 2076) == Some(0u16),
        words::input(values, s, 2081) == Some(0u16),
        words::input(values, s, 2086) == Some(0u16),
        words::input(values, s, 2087) == Some(0u16),
{
    definitions::lemma_ems_input();
    names::lemma_ems_names();
    names::lemma_ems_prefixes();
    words::lemma_scales();
    words::lemma_plain(s);
    names::lemma_ems(catalogue::definition_at(2064), s);
    words::lemma_word(values, s, 2064);
    names::lemma_ems(catalogue::definition_at(2065), s);
    words::lemma_word(values, s, 2065);
    names::lemma_ems(catalogue::definition_at(2066), s);
    words::lemma_word(values, s, 2066);
    names::lemma_ems(catalogue::definition_at(2071), s);
    words::lemma_word(values, s, 2071);
    names::lemma_ems(catalogue::definition_at(2076), s);
    words::lemma_word(values, s, 2076);
    names::lemma_ems(catalogue::definition_at(2081), s);
    words::lemma_word(values, s, 2081);
    names::lemma_ems(catalogue::definition_at(2086), s);
    words::lemma_word(values, s, 2086);
    names::lemma_ems(catalogue::definition_at(2087), s);
    words::lemma_word(values, s, 2087);
}

/// Law: what IR 2088-2091, 2094 show of a plant.
#[verifier::spinoff_prover]
#[verifier::rlimit(60)]
pub proof fn law_ir_2088_to_2094(values: Map<u32, u16>, s: PlantState)
    ensures
        words::input(values, s, 2088) == Some(0u16),
        words::input(values, s, 2089) == Some(
            plain::signed_word(s.grid.power_w@, 1_000_000) as u16,
        ),
        words::input(values, s, 2090) == Some(
            plain::signed_word(s.battery.power_kw@ * 1000, 1_000_000) as u16,
        ),
        words::input(values, s, 2091) == Some(
            plain::cut_word(
                s.battery.soc_percent@ * s.battery.capacity_kwh@ * 10,
                1_000_000_000_000,
            ) as u16,
        ),
        words::input(values, s, 2094) == Some(0u16),
{
    definitions::lemma_ems_input();
    names::lemma_ems_names();
    names::lemma_ems_prefixes();
    words::lemma_scales();
    words::lemma_plain(s);
    names::lemma_ems(catalogue::definition_at(2088), s);
    words::lemma_word(values, s, 2088);
    names::lemma_ems(catalogue::definition_at(2089), s);
    words::lemma_word(values, s, 2089);
    names::lemma_ems(catalogue::definition_at(2090), s);
    words::lemma_word(values, s, 2090);
    names::lemma_ems(catalogue::definition_at(2091), s);
    words::lemma_word(values, s, 2091);
    names::lemma_ems(catalogue::definition_at(2094), s);
    words::lemma_word(values, s, 2094);
}

} // verus!
