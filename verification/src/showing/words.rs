//! The words of a bank over the whole catalogue, by address.
use crate::catalogue;
use crate::model;
use crate::projection;
use crate::projection::{gateway, internal, native_input, three_phase};
use crate::register_laws;
use crate::registers;
use crate::showing::plain;
use crate::state;
use crate::state::{BatteryState, ModuleQuantity, PlantState};
use vstd::prelude::*;

verus! {

/// Input register `a` of a bank over the catalogue once it shows `s`.
pub open spec fn input(values: Map<u32, u16>, s: PlantState, a: int) -> Option<u16> {
    registers::projected_values(values, catalogue::catalogue(), s).get(a as u32)
}

/// Holding register `a` of a bank over the catalogue once it shows `s`.
pub open spec fn holding(values: Map<u32, u16>, s: PlantState, a: int) -> Option<u16> {
    registers::projected_values(values, catalogue::catalogue(), s).get((10_000 + a) as u32)
}

/// A register of the catalogue that no gateway overrides holds what the
/// projection shows there.
pub proof fn lemma_word(values: Map<u32, u16>, s: PlantState, key: int)
    requires
        0 <= catalogue::place(key) < 639,
        projection::projected(catalogue::definition_at(key), s) is Some,
        plain::gateway(s.config.inverter_type@) ==> !(1600 <= key <= 1859) && !(10_013 <= key
            <= 10_017),
    ensures
        registers::projected_values(values, catalogue::catalogue(), s).get(key as u32) == Some(
            projection::projected(catalogue::definition_at(key), s)->0 as u16,
        ),
{
    catalogue::law_catalogue_well_formed();
    register_laws::law_catalogue_keys_distinct();
    lemma_types(s.config.inverter_type@);
    let c = catalogue::catalogue();
    let i = catalogue::place(key);
    assert(catalogue::stands_at(c[i], i));
    assert(catalogue::place(c[i].key()) == catalogue::place(key));
    assert(c[i].key() == key);
    register_laws::law_registers_show_their_words(values, c, s, i);
}

/// The kinds of inverter by their names.
pub proof fn lemma_types(t: Seq<char>)
    ensures
        model::three_phase(t) == plain::three_phase(t),
        model::gateway(t) == plain::gateway(t),
{
    reveal_strlit("ThreePhase");
    reveal_strlit("Gateway");
    assert("ThreePhase"@.len() == 10);
    assert("Gateway"@.len() == 7);
    assert(t.len() >= 10 ==> t.take(10) =~= t.subrange(0, 10));
    assert(t.len() >= 7 ==> t.take(7) =~= t.subrange(0, 7));
}

/// The sums over all modules.
pub proof fn lemma_sums(b: Seq<BatteryState>)
    ensures
        state::module_total(b, ModuleQuantity::Throughput) == plain::throughput(b),
        state::module_total(b, ModuleQuantity::Voltage) == plain::voltage(b),
    decreases b.len(),
{
    if b.len() > 0 {
        lemma_sums(b.drop_last());
    }
}

/// What the projection says of a plant, in plain arithmetic.
pub proof fn lemma_plain(s: PlantState)
    ensures
        model::three_phase(s.config.inverter_type@) == plain::three_phase(s.config.inverter_type@),
        model::gateway(s.config.inverter_type@) == plain::gateway(s.config.inverter_type@),
        state::module_total(s.batteries@, ModuleQuantity::Throughput) == plain::throughput(
            s.batteries@,
        ),
        state::module_total(s.batteries@, ModuleQuantity::Voltage) == plain::voltage(s.batteries@),
        native_input::single_phase_faults(s) == plain::fault_bits(s),
        internal::weather_number(s.weather@) == plain::weather_number(s.weather@),
        model::nominal_decivolts(s.config.inverter_type@) * 100 == plain::nominal_millivolts(
            s.config.inverter_type@,
        ),
        three_phase::stack_current(s.battery.power_kw@, plain::voltage(s.batteries@))
            == plain::stack_current(s.battery.power_kw@, plain::voltage(s.batteries@)),
{
    lemma_types(s.config.inverter_type@);
    lemma_sums(s.batteries@);
    reveal_strlit("Storm");
    reveal_strlit("Overcast");
    reveal_strlit("PartlyCloudy");
    assert("Storm"@.len() == 5);
    assert("Overcast"@.len() == 8);
    assert("PartlyCloudy"@.len() == 12);
}

/// Quantities in the steps that the catalogue uses.
pub proof fn lemma_scales()
    ensures
        forall|n: int| #[trigger] projection::scaled(n, 1, 10_000) == plain::word(n, 10_000),
        forall|n: int| #[trigger] projection::scaled(n, 1, 100_000) == plain::word(n, 100_000),
        forall|n: int| #[trigger] projection::scaled(n, 1, 1_000_000) == plain::word(n, 1_000_000),
        forall|n: int| #[trigger] projection::scaled(n, 2, 100_000) == plain::word(n, 200_000),
        forall|n: int| #[trigger] projection::scaled(n, 3, 100_000) == plain::word(n, 300_000),
        forall|n: int| #[trigger] projection::scaled(n, 100, 10_000) == plain::word(n, 1_000_000),
        forall|n: int| #[trigger] projection::scaled(n, 100, 100_000) == plain::word(n, 10_000_000),
        forall|n: int| #[trigger] projection::scaled(n, 240, 10_000) == plain::word(n, 2_400_000),
        forall|n: int| #[trigger] projection::scaled(n, 240, 100_000) == plain::word(n, 24_000_000),
        forall|n: int| #[trigger] projection::scaled(n, 350, 10_000) == plain::word(n, 3_500_000),
        forall|n: int| #[trigger] projection::scaled(n, 350, 100_000) == plain::word(n, 35_000_000),
        forall|n: int| #[trigger] projection::scaled(n, 720, 100_000) == plain::word(n, 72_000_000),
        forall|n: int| #[trigger] projection::scaled(n, 1_000, 100_000)
            == plain::word(n, 100_000_000),
{
}

} // verus!
