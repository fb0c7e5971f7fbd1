//! What the registers of the CT clamp meter show.
use crate::catalogue;
use crate::showing::{definitions, names, plain, words};
use crate::state::PlantState;
use vstd::prelude::*;

verus! {

/// Law: what IR 60-67 show of a plant.
#[verifier::spinoff_prover]
#[verifier::rlimit(60)]
pub proof fn law_ir_60_to_67(values: Map<u32, u16>, s: PlantState)
    ensures
        words::input(values, s, 60) == Some(
            (if s.config.ct_meter_installed {
                if s.grid.connected { 2400int } else { 0int }
            } else {
                0int
            }) as u16,
        ),
        words::input(values, s, 61) == Some(
            (if s.config.ct_meter_installed {
                if s.grid.connected && plain::three_phase(s.config.inverter_type@) {
                    2400int
                } else {
                    0int
                }
            } else {
                0int
            }) as u16,
        ),
        words::input(values, s, 62) == Some(
            (if s.config.ct_meter_installed {
                if s.grid.connected && plain::three_phase(s.config.inverter_type@) {
                    2400int
                } else {
                    0int
                }
            } else {
                0int
            }) as u16,
        ),
        words::input(values, s, 63) == Some(
            (if s.config.ct_meter_installed {
                if plain::three_phase(s.config.inverter_type@) {
                    plain::cut_word(plain::size(s.grid.power_w@), 7_200_000)
                } else {
                    plain::cut_word(plain::size(s.grid.power_w@), 2_400_000)
                }
            } else {
                0int
            }) as u16,
        ),
        words::input(values, s, 64) == Some(
            (if s.config.ct_meter_installed {
                if plain::three_phase(s.config.inverter_type@) {
                    plain::cut_word(plain::size(s.grid.power_w@), 7_200_000)
                } else {
                    0int
                }
            } else {
                0int
            }) as u16,
        ),
        words::input(values, s, 65) == Some(
            (if s.config.ct_meter_installed {
                if plain::three_phase(s.config.inverter_type@) {
                    plain::cut_word(plain::size(s.grid.power_w@), 7_200_000)
                } else {
                    0int
                }
            } else {
                0int
            }) as u16,
        ),
        words::input(values, s, 66) == Some(0u16),
        words::input(values, s, 67) == Some(
            (if s.config.ct_meter_installed {
                plain::cut_word(plain::size(s.grid.power_w@), 2_400_000)
            } else {
                0int
            }) as u16,
        ),
{
    definitions::lemma_meter();
    names::lemma_meter_names();
    names::lemma_meter_prefixes();
    words::lemma_scales();
    words::lemma_plain(s);
    names::lemma_meter(catalogue::definition_at(60), s);
    words::lemma_word(values, s, 60);
    names::lemma_meter(catalogue::definition_at(61), s);
    words::lemma_word(values, s, 61);
    names::lemma_meter(catalogue::definition_at(62), s);
    words::lemma_word(values, s, 62);
    names::lemma_meter(catalogue::definition_at(63), s);
    words::lemma_word(values, s, 63);
    names::lemma_meter(catalogue::definition_at(64), s);
    words::lemma_word(values, s, 64);
    names::lemma_meter(catalogue::definition_at(65), s);
    words::lemma_word(values, s, 65);
    names::lemma_meter(catalogue::definition_at(66), s);
    words::lemma_word(values, s, 66);
    names::lemma_meter(catalogue::definition_at(67), s);
    words::lemma_word(values, s, 67);
}

/// Law: what IR 68-75 show of a plant.
#[verifier::spinoff_prover]
#[verifier::rlimit(60)]
pub proof fn law_ir_68_to_75(values: Map<u32, u16>, s: PlantState)
    ensures
        words::input(values, s, 68) == Some(
            (if s.config.ct_meter_installed {
                if plain::three_phase(s.config.inverter_type@) {
                    plain::signed_word(s.grid.power_w@, 3_000_000)
                } else {
                    plain::signed_word(s.grid.power_w@, 1_000_000)
                }
            } else {
                0int
            }) as u16,
        ),
        words::input(values, s, 69) == Some(
            (if s.config.ct_meter_installed {
                if plain::three_phase(s.config.inverter_type@) {
                    plain::signed_word(s.grid.power_w@, 3_000_000)
                } else {
                    0int
                }
            } else {
                0int
            }) as u16,
        ),
        words::input(values, s, 70) == Some(
            (if s.config.ct_meter_installed {
                if plain::three_phase(s.config.inverter_type@) {
                    plain::signed_word(s.grid.power_w@, 3_000_000)
                } else {
                    0int
                }
            } else {
                0int
            }) as u16,
        ),
        words::input(values, s, 71) == Some(
            (if s.config.ct_meter_installed {
                plain::signed_word(s.grid.power_w@, 1_000_000)
            } else {
                0int
            }) as u16,
        ),
        words::input(values, s, 72) == Some(0u16),
        words::input(values, s, 73) == Some(0u16),
        words::input(values, s, 74) == Some(0u16),
        words::input(values, s, 75) == Some(0u16),
{
    definitions::lemma_meter();
    names::lemma_meter_names();
    names::lemma_meter_prefixes();
    words::lemma_scales();
    words::lemma_plain(s);
    names::lemma_meter(catalogue::definition_at(68), s);
    words::lemma_word(values, s, 68);
    names::lemma_meter(catalogue::definition_at(69), s);
    words::lemma_word(values, s, 69);
    names::lemma_meter(catalogue::definition_at(70), s);
    words::lemma_word(values, s, 70);
    names::lemma_meter(catalogue::definition_at(71), s);
    words::lemma_word(values, s, 71);
    names::lemma_meter(catalogue::definition_at(72), s);
    words::lemma_word(values, s, 72);
    names::lemma_meter(catalogue::definition_at(73), s);
    words::lemma_word(values, s, 73);
    names::lemma_meter(catalogue::definition_at(74), s);
    words::lemma_word(values, s, 74);
    names::lemma_meter(catalogue::definition_at(75), s);
    words::lemma_word(values, s, 75);
}

/// Law: what IR 76-83 show of a plant.
#[verifier::spinoff_prover]
#[verifier::rlimit(60)]
pub proof fn law_ir_76_to_83(values: Map<u32, u16>, s: PlantState)
    ensures
        words::input(values, s, 76) == Some(
            (if s.config.ct_meter_installed {
                if plain::three_phase(s.config.inverter_type@) {
                    plain::cut_word(plain::size(s.grid.power_w@), 3_000_000)
                } else {
                    plain::cut_word(plain::size(s.grid.power_w@), 1_000_000)
                }
            } else {
                0int
            }) as u16,
        ),
        words::input(values, s, 77) == Some(
            (if s.config.ct_meter_installed {
                if plain::three_phase(s.config.inverter_type@) {
                    plain::cut_word(plain::size(s.grid.power_w@), 3_000_000)
                } else {
                    0int
                }
            } else {
                0int
            }) as u16,
        ),
        words::input(values, s, 78) == Some(
            (if s.config.ct_meter_installed {
                if plain::three_phase(s.config.inverter_type@) {
                    plain::cut_word(plain::size(s.grid.power_w@), 3_000_000)
                } else {
                    0int
                }
            } else {
                0int
            }) as u16,
        ),
        words::input(values, s, 79) == Some(
            (if s.config.ct_meter_installed {
                plain::cut_word(plain::size(s.grid.power_w@), 1_000_000)
            } else {
                0int
            }) as u16,
        ),
        words::input(values, s, 80) == Some(
            (if s.config.ct_meter_installed {
                if plain::size(s.grid.power_w@) > 1_000_000 { 1000int } else { 0int }
            } else {
                0int
            }) as u16,
        ),
        words::input(values, s, 81) == Some(
            (if s.config.ct_meter_installed {
                if plain::three_phase(s.config.inverter_type@) && plain::size(s.grid.power_w@) > 1_000_000 {
                    1000int
                } else {
                    0int
                }
            } else {
                0int
            }) as u16,
        ),
        words::input(values, s, 82) == Some(
            (if s.config.ct_meter_installed {
                if plain::three_phase(s.config.inverter_type@) && plain::size(s.grid.power_w@) > 1_000_000 {
                    1000int
                } else {
                    0int
                }
            } else {
                0int
            }) as u16,
        ),
        words::input(values, s, 83) == Some(
            (if s.config.ct_meter_installed {
                if plain::size(s.grid.power_w@) > 1_000_000 { 1000int } else { 0int }
            } else {
                0int
            }) as u16,
        ),
{
    definitions::lemma_meter();
    names::lemma_meter_names();
    names::lemma_meter_prefixes();
    words::lemma_scales();
    words::lemma_plain(s);
    names::lemma_meter(catalogue::definition_at(76), s);
    words::lemma_word(values, s, 76);
    names::lemma_meter(catalogue::definition_at(77), s);
    words::lemma_word(values, s, 77);
    names::lemma_meter(catalogue::definition_at(78), s);
    words::lemma_word(values, s, 78);
    names::lemma_meter(catalogue::definition_at(79), s);
    words::lemma_word(values, s, 79);
    names::lemma_meter(catalogue::definition_at(80), s);
    words::lemma_word(values, s, 80);
    names::lemma_meter(catalogue::definition_at(81), s);
    words::lemma_word(values, s, 81);
    names::lemma_meter(catalogue::definition_at(82), s);
    words::lemma_word(values, s, 82);
    names::lemma_meter(catalogue::definition_at(83), s);
    words::lemma_word(values, s, 83);
}

/// Law: what IR 84-89 show of a plant.
#[verifier::spinoff_prover]
#[verifier::rlimit(60)]
pub proof fn law_ir_84_to_89(values: Map<u32, u16>, s: PlantState)
    ensures
        words::input(values, s, 84) == Some(
            (if s.config.ct_meter_installed { 5000int } else { 0int }) as u16,
        ),
        words::input(values, s, 85) == Some(
            (if s.config.ct_meter_installed { 1234int } else { 0int }) as u16,
        ),
        words::input(values, s, 86) == Some(0u16),
        words::input(values, s, 87) == Some(
            (if s.config.ct_meter_installed { 4321int } else { 0int }) as u16,
        ),
        words::input(values, s, 88) == Some(0u16),
        words::input(values, s, 89) == Some(0u16),
{
    definitions::lemma_meter();
    names::lemma_meter_names();
    names::lemma_meter_prefixes();
    words::lemma_scales();
    words::lemma_plain(s);
    names::lemma_meter(catalogue::definition_at(84), s);
    words::lemma_word(values, s, 84);
    names::lemma_meter(catalogue::definition_at(85), s);
    words::lemma_word(values, s, 85);
    names::lemma_meter(catalogue::definition_at(86), s);
    words::lemma_word(values, s, 86);
    names::lemma_meter(catalogue::definition_at(87), s);
    words::lemma_word(values, s, 87);
    names::lemma_meter(catalogue::definition_at(88), s);
    words::lemma_word(values, s, 88);
    names::lemma_meter(catalogue::definition_at(89), s);
    words::lemma_word(values, s, 89);
}

} // verus!
