//! Laws of the register bank: what holds of every plant, schedule and write.
use crate::catalogue;
use crate::fixed;
use crate::model;
use crate::projection;
use crate::projection::gateway;
use crate::projection::native_input;
use crate::projection::three_phase;
use crate::registers;
use crate::registers::{Definition, RegisterSpace, HOLDING_OFFSET};
use crate::schedule::Schedule;
use crate::state::PlantState;
use crate::text;
use vstd::prelude::*;

verus! {

/// Whether every definition has an address that a register can have.
pub open spec fn addressable(defs: Seq<Definition>) -> bool {
    forall|i: int| 0 <= i < defs.len() ==> 0 <= (#[trigger] defs[i]).address <= 65535
}

/// Whether the bank holds a value for every definition.
pub open spec fn complete(values: Map<u32, u16>, defs: Seq<Definition>) -> bool {
    forall|i: int|
        0 <= i < defs.len() ==> values.contains_key((#[trigger] defs[i]).key() as u32)
}

/// Whether no two definitions share a storage key.
pub open spec fn distinct_keys(defs: Seq<Definition>) -> bool {
    forall|i: int, j: int|
        0 <= i < j < defs.len() ==> (#[trigger] defs[i]).key() != (#[trigger] defs[j]).key()
}

/// The word that the definitions show under key `k`: that of the last definition
/// with the key that has one.
pub open spec fn shown_word(defs: Seq<Definition>, k: u32, s: PlantState) -> Option<int>
    decreases defs.len(),
{
    if defs.len() == 0 {
        None
    } else if defs.last().key() == k && projection::projected(defs.last(), s) is Some {
        projection::projected(defs.last(), s)
    } else {
        shown_word(defs.drop_last(), k, s)
    }
}

/// What the bank holds under a key once the definitions are shown.
proof fn lemma_shown(m: Map<u32, u16>, defs: Seq<Definition>, s: PlantState, k: u32)
    requires
        addressable(defs),
    ensures
        ({
            let after = projection::shown(m, defs, s);
            match shown_word(defs, k, s) {
                Some(w) => after.contains_key(k) && after[k] == w as u16,
                None => after.contains_key(k) == m.contains_key(k) && after[k] == m[k],
            }
        }),
    decreases defs.len(),
{
    if defs.len() > 0 {
        let d = defs.last();
        assert(d == defs[defs.len() - 1]);
        assert forall|i: int| 0 <= i < defs.drop_last().len() implies 0 <= (
        #[trigger] defs.drop_last()[i]).address <= 65535 by {
            assert(defs.drop_last()[i] == defs[i]);
        }
        lemma_shown(m, defs.drop_last(), s, k);
    }
}

/// What the bank holds under a key once a plant is shown.
proof fn lemma_projected_values(m: Map<u32, u16>, defs: Seq<Definition>, s: PlantState, k: u32)
    requires
        addressable(defs),
    ensures
        ({
            let after = registers::projected_values(m, defs, s);
            if model::gateway(s.config.inverter_type@) && gateway::overlay_word(
                k as int,
                s,
            ) is Some {
                after.contains_key(k) && after[k] == gateway::overlay_word(k as int, s)->0 as u16
            } else {
                match shown_word(defs, k, s) {
                    Some(w) => after.contains_key(k) && after[k] == w as u16,
                    None => after.contains_key(k) == m.contains_key(k) && (m.contains_key(k)
                        ==> after[k] == m[k]),
                }
            }
        }),
{
    lemma_shown(m, defs, s, k);
}

/// Where keys are distinct, the word shown under a definition's key is its own.
proof fn lemma_own_word(defs: Seq<Definition>, s: PlantState, i: int)
    requires
        distinct_keys(defs),
        addressable(defs),
        0 <= i < defs.len(),
    ensures
        shown_word(defs, defs[i].key() as u32, s) == projection::projected(defs[i], s),
    decreases defs.len(),
{
    let k = defs[i].key() as u32;
    assert(defs[i].key() == k);
    let rest = defs.drop_last();
    assert forall|a: int| 0 <= a < rest.len() implies 0 <= (#[trigger] rest[a]).address <= 65535 by {
        assert(rest[a] == defs[a]);
    }
    assert forall|a: int, b: int| 0 <= a < b < rest.len() implies (#[trigger] rest[a]).key() != (
    #[trigger] rest[b]).key() by {
        assert(rest[a] == defs[a] && rest[b] == defs[b]);
    }
    if i == defs.len() - 1 {
        if projection::projected(defs[i], s) is None {
            lemma_no_word(rest, k, s);
        }
    } else {
        assert(defs.last() == defs[defs.len() - 1]);
        assert(defs[i].key() != defs[defs.len() - 1].key());
        assert(rest[i] == defs[i]);
        lemma_own_word(rest, s, i);
    }
}

/// Definitions without a key show nothing under it.
proof fn lemma_no_word(defs: Seq<Definition>, k: u32, s: PlantState)
    requires
        forall|i: int| 0 <= i < defs.len() ==> (#[trigger] defs[i]).key() != k,
    ensures
        shown_word(defs, k, s) is None,
    decreases defs.len(),
{
    if defs.len() > 0 {
        assert(defs.last() == defs[defs.len() - 1]);
        assert forall|i: int| 0 <= i < defs.drop_last().len() implies (
        #[trigger] defs.drop_last()[i]).key() != k by {
            assert(defs.drop_last()[i] == defs[i]);
        }
        lemma_no_word(defs.drop_last(), k, s);
    }
}

/// Law: input and holding registers never collide, for addresses below the
/// holding offset.
pub proof fn law_spaces_apart(a: int, b: int)
    requires
        0 <= a < HOLDING_OFFSET,
        0 <= b < HOLDING_OFFSET,
    ensures
        registers::key_of(a, RegisterSpace::Input) != registers::key_of(b, RegisterSpace::Holding),
        a != b ==> registers::key_of(a, RegisterSpace::Input) != registers::key_of(
            b,
            RegisterSpace::Input,
        ),
        a != b ==> registers::key_of(a, RegisterSpace::Holding) != registers::key_of(
            b,
            RegisterSpace::Holding,
        ),
{
}

/// Law: a write that is accepted reads back, and touches no other register; a
/// write that is refused touches none.
pub proof fn law_write_reads_back(
    values: Map<u32, u16>,
    defs: Seq<Definition>,
    address: u16,
    value: u16,
)
    ensures
        ({
            let after = registers::written(values, defs, address as int, value);
            let key = registers::key_of(address as int, RegisterSpace::Holding) as u32;
            &&& registers::writable(defs, address as int) ==> after.get(key) == Some(value)
            &&& forall|k: u32| k != key ==> #[trigger] after.get(k) == values.get(k)
            &&& !registers::writable(defs, address as int) ==> after == values
        }),
{
}

/// Law: a fresh bank is complete and reads zero wherever it reads at all.
pub proof fn law_fresh_bank_reads_zero(defs: Seq<Definition>)
    requires
        addressable(defs),
    ensures
        complete(registers::zeroed(defs), defs),
        forall|k: u32| #[trigger]
            registers::zeroed(defs).contains_key(k) ==> registers::zeroed(defs)[k] == 0,
{
    assert forall|i: int| 0 <= i < defs.len() implies registers::zeroed(defs).contains_key(
        (#[trigger] defs[i]).key() as u32,
    ) by {
        assert(defs[i].key() == defs[i].key() as u32);
    }
}

/// Law: no operation ever removes a register, so a complete bank stays complete.
pub proof fn law_banks_stay_complete(
    values: Map<u32, u16>,
    defs: Seq<Definition>,
    s: PlantState,
    plan: Schedule,
    t: Seq<char>,
    address: u16,
    value: u16,
)
    requires
        addressable(defs),
        complete(values, defs),
    ensures
        complete(registers::projected_values(values, defs, s), defs),
        complete(registers::scheduled(values, defs, plan, t), defs),
        complete(registers::written(values, defs, address as int, value), defs),
{
    assert forall|i: int| 0 <= i < defs.len() implies registers::projected_values(
        values,
        defs,
        s,
    ).contains_key((#[trigger] defs[i]).key() as u32) by {
        lemma_projected_values(values, defs, s, defs[i].key() as u32);
    }
}

/// Law: where keys are distinct, every register shows the word that the
/// projection gives it, unless a gateway shows its own there.
pub proof fn law_registers_show_their_words(
    values: Map<u32, u16>,
    defs: Seq<Definition>,
    s: PlantState,
    i: int,
)
    requires
        distinct_keys(defs),
        addressable(defs),
        0 <= i < defs.len(),
        !(model::gateway(s.config.inverter_type@) && gateway::overlay_word(
            defs[i].key(),
            s,
        ) is Some),
    ensures
        ({
            let after = registers::projected_values(values, defs, s);
            let k = defs[i].key() as u32;
            match projection::projected(defs[i], s) {
                Some(w) => after.get(k) == Some(w as u16),
                None => after.get(k) == values.get(k),
            }
        }),
{
    let k = defs[i].key() as u32;
    assert(defs[i].key() == k);
    lemma_projected_values(values, defs, s, k);
    lemma_own_word(defs, s, i);
}

/// Law: showing the same plant twice changes nothing more than showing it once.
pub proof fn law_projection_idempotent(values: Map<u32, u16>, defs: Seq<Definition>, s: PlantState)
    requires
        addressable(defs),
    ensures
        ({
            let once = registers::projected_values(values, defs, s);
            registers::projected_values(once, defs, s) == once
        }),
{
    let once = registers::projected_values(values, defs, s);
    let twice = registers::projected_values(once, defs, s);
    assert forall|k: u32| #[trigger] twice.contains_key(k) == once.contains_key(k) && (
    once.contains_key(k) ==> twice[k] == once[k]) by {
        lemma_projected_values(values, defs, s, k);
        lemma_projected_values(once, defs, s, k);
    }
    assert(twice =~= once);
}

/// Law: what a register shows does not depend on what it showed before, where the
/// projection has a word for it.
pub proof fn law_projection_forgets(
    a: Map<u32, u16>,
    b: Map<u32, u16>,
    defs: Seq<Definition>,
    s: PlantState,
    i: int,
)
    requires
        distinct_keys(defs),
        addressable(defs),
        0 <= i < defs.len(),
        projection::projected(defs[i], s) is Some,
    ensures
        registers::projected_values(a, defs, s).get(defs[i].key() as u32)
            == registers::projected_values(b, defs, s).get(defs[i].key() as u32),
{
    let k = defs[i].key() as u32;
    lemma_projected_values(a, defs, s, k);
    lemma_projected_values(b, defs, s, k);
    lemma_own_word(defs, s, i);
}

/// Law: showing a schedule twice changes nothing more than showing it once.
pub proof fn law_schedule_idempotent(
    values: Map<u32, u16>,
    defs: Seq<Definition>,
    plan: Schedule,
    t: Seq<char>,
)
    ensures
        ({
            let once = registers::scheduled(values, defs, plan, t);
            registers::scheduled(once, defs, plan, t) == once
        }),
{
    let once = registers::scheduled(values, defs, plan, t);
    assert(registers::scheduled_word(10110, values, defs, plan, t) is None);
    assert(registers::mirrored_reserve(once) == registers::mirrored_reserve(values));
    assert(registers::scheduled(once, defs, plan, t) =~= once);
}

/// Law: without a meter every meter register shows zero.
pub proof fn law_no_meter_shows_zero(d: Definition, s: PlantState)
    requires
        text::has_prefix(d.name, "meter_"@),
        !s.config.ct_meter_installed,
    ensures
        projection::projected(d, s) == Some(0int),
{
    reveal(projection::projected);
}

/// Law: a plant shows its faults in one place only: a single-phase inverter in its
/// long fault word, a three-phase inverter in its eight words. Without faults both
/// are zero.
pub proof fn law_faults_in_one_place(s: PlantState, i: int)
    ensures
        model::three_phase(s.config.inverter_type@) ==> native_input::single_phase_faults(s) == 0,
        !model::three_phase(s.config.inverter_type@) ==> three_phase::three_phase_faults(i, s) == 0,
        s.active_faults@.len() == 0 ==> native_input::single_phase_faults(s) == 0
            && three_phase::three_phase_faults(i, s) == 0,
        0 <= native_input::single_phase_faults(s) <= 0xffff_ffff,
{
}

/// Law: a reading of zero shows as zero in every encoding, so a fresh plant reads
/// zero energy.
pub proof fn law_zero_shows_zero(d: int, scale: int)
    requires
        d > 0,
    ensures
        projection::scaled(0, d, scale) == 0,
        fixed::rounded_word(0, d) == 0,
        fixed::wide(0, d) == 0,
        fixed::signed_wide(0, d) == 0,
        fixed::cut_word(0, d) == 0,
        fixed::signed_cut_word(0, d) == 0,
{
    let unit = if scale > 0 {
        scale
    } else {
        1_000_000
    };
    assert(d * unit > 0) by (nonlinear_arith)
        requires
            d > 0,
            unit > 0,
    ;
    assert(forall|x: int| x > 0 ==> #[trigger] (x / (2 * x)) == 0) by (nonlinear_arith);
    assert((2 * 0 + d * unit) / (2 * (d * unit)) == 0);
    assert((2 * 0 + d) / (2 * d) == 0);
    assert(0int / d == 0) by (nonlinear_arith)
        requires
            d > 0,
    ;
}

/// Law: the keys of the catalogue are distinct and its addresses can be had.
pub proof fn law_catalogue_keys_distinct()
    ensures
        distinct_keys(catalogue::catalogue()),
        addressable(catalogue::catalogue()),
{
    catalogue::law_catalogue_well_formed();
    let c = catalogue::catalogue();
    assert forall|i: int, j: int| 0 <= i < j < c.len() implies (#[trigger] c[i]).key() != (
    #[trigger] c[j]).key() by {
        assert(catalogue::stands_at(c[i], i) && catalogue::stands_at(c[j], j));
    }
    assert forall|i: int| 0 <= i < c.len() implies 0 <= (#[trigger] c[i]).address <= 65535 by {
        assert(catalogue::stands_at(c[i], i));
    }
}

/// The storage keys of the definitions.
pub open spec fn keys(defs: Seq<Definition>) -> Set<u32> {
    defs.map_values(|d: Definition| d.key() as u32).to_set()
}

/// Whether the bank holds exactly the registers defined.
pub open spec fn exact(values: Map<u32, u16>, defs: Seq<Definition>) -> bool {
    values.dom() == keys(defs)
}

/// A key is that of a definition.
proof fn lemma_keys(defs: Seq<Definition>, k: u32)
    requires
        addressable(defs),
    ensures
        keys(defs).contains(k) <==> exists|i: int|
            0 <= i < defs.len() && (#[trigger] defs[i]).key() == k,
{
    let ks = defs.map_values(|d: Definition| d.key() as u32);
    if keys(defs).contains(k) {
        let i = choose|i: int| 0 <= i < ks.len() && ks[i] == k;
        assert(defs[i].key() == k);
    }
    if exists|i: int| 0 <= i < defs.len() && (#[trigger] defs[i]).key() == k {
        let i = choose|i: int| 0 <= i < defs.len() && (#[trigger] defs[i]).key() == k;
        assert(ks[i] == k);
    }
}

/// A word shown under a key comes from a definition with the key.
proof fn lemma_word_has_definition(defs: Seq<Definition>, k: u32, s: PlantState)
    ensures
        shown_word(defs, k, s) is Some ==> exists|i: int|
            0 <= i < defs.len() && (#[trigger] defs[i]).key() == k,
    decreases defs.len(),
{
    if defs.len() > 0 {
        assert(defs.last() == defs[defs.len() - 1]);
        lemma_word_has_definition(defs.drop_last(), k, s);
        if shown_word(defs.drop_last(), k, s) is Some {
            let i = choose|i: int|
                0 <= i < defs.drop_last().len() && (#[trigger] defs.drop_last()[i]).key() == k;
            assert(defs[i].key() == k);
        }
    }
}

/// Every register that a gateway overlays stands in the catalogue.
proof fn lemma_overlay_is_catalogued(k: u32, s: PlantState)
    requires
        gateway::overlay_word(k as int, s) is Some,
    ensures
        keys(catalogue::catalogue()).contains(k),
{
    catalogue::law_catalogue_well_formed();
    law_catalogue_keys_distinct();
    let c = catalogue::catalogue();
    let i = catalogue::place(k as int);
    assert(0 <= i < c.len());
    assert(catalogue::stands_at(c[i], i));
    assert(catalogue::place(c[i].key()) == catalogue::place(k as int));
    assert(c[i].key() == k);
    lemma_keys(c, k);
}

/// Law: a bank over the catalogue holds exactly the catalogued registers, and
/// showing a plant (a gateway too), showing a schedule and writing keep it so.
pub proof fn law_catalogue_bank_exact(
    values: Map<u32, u16>,
    s: PlantState,
    plan: Schedule,
    t: Seq<char>,
    address: u16,
    value: u16,
)
    requires
        exact(values, catalogue::catalogue()),
    ensures
        exact(registers::zeroed(catalogue::catalogue()), catalogue::catalogue()),
        exact(
            registers::projected_values(values, catalogue::catalogue(), s),
            catalogue::catalogue(),
        ),
        exact(registers::scheduled(values, catalogue::catalogue(), plan, t), catalogue::catalogue()),
        exact(
            registers::written(values, catalogue::catalogue(), address as int, value),
            catalogue::catalogue(),
        ),
{
    law_catalogue_keys_distinct();
    let c = catalogue::catalogue();
    assert forall|k: u32| registers::zeroed(c).contains_key(k) <==> #[trigger] keys(c).contains(
        k,
    ) by {
        lemma_keys(c, k);
    }
    assert(registers::zeroed(c).dom() =~= keys(c));
    let shown = registers::projected_values(values, c, s);
    assert forall|k: u32| shown.contains_key(k) <==> #[trigger] keys(c).contains(k) by {
        lemma_projected_values(values, c, s, k);
        lemma_word_has_definition(c, k, s);
        lemma_keys(c, k);
        if gateway::overlay_word(k as int, s) is Some {
            lemma_overlay_is_catalogued(k, s);
        }
    }
    assert(shown.dom() =~= keys(c));
    assert forall|a: int| #[trigger] registers::writable(c, a) && 0 <= a <= 65535 implies keys(
        c,
    ).contains((a + HOLDING_OFFSET) as u32) by {
        lemma_first_has_key(c, a + HOLDING_OFFSET);
        lemma_keys(c, (a + HOLDING_OFFSET) as u32);
    }
    let planned = registers::scheduled(values, c, plan, t);
    assert forall|k: u32| planned.contains_key(k) <==> #[trigger] keys(c).contains(k) by {
        if registers::scheduled_word(k as int, values, c, plan, t) is Some {
            assert(registers::writable(c, k - HOLDING_OFFSET));
        }
    }
    assert(planned.dom() =~= keys(c));
    assert(registers::written(values, c, address as int, value).dom() =~= keys(c));
}

/// The definition found by key has the key.
proof fn lemma_first_has_key(defs: Seq<Definition>, key: int)
    ensures
        0 <= registers::first_with_key(defs, key) <= defs.len(),
        registers::first_with_key(defs, key) < defs.len() ==> defs[registers::first_with_key(
            defs,
            key,
        )].key() == key,
    decreases defs.len(),
{
    if defs.len() > 0 && defs[0].key() != key {
        lemma_first_has_key(defs.skip(1), key);
    }
}

/// Law: an exact bank over the catalogue has one value for each definition, so a
/// snapshot is as long as the catalogue.
pub proof fn law_catalogue_bank_size(values: Map<u32, u16>)
    requires
        exact(values, catalogue::catalogue()),
    ensures
        values.dom().len() == catalogue::catalogue().len(),
        values.dom().finite(),
{
    law_catalogue_keys_distinct();
    let c = catalogue::catalogue();
    let ks = c.map_values(|d: Definition| d.key() as u32);
    assert(ks.no_duplicates()) by {
        assert forall|i: int, j: int| 0 <= i < ks.len() && 0 <= j < ks.len() && i != j implies ks[i]
            != ks[j] by {
            if i < j {
                assert(c[i].key() != c[j].key());
            } else {
                assert(c[j].key() != c[i].key());
            }
        }
    }
    ks.unique_seq_to_set();
}

} // verus!
