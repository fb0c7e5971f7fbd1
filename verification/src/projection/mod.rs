//! The projection of the plant onto its registers.
//!
//! Every register has a name, and the name decides what the register shows.
//! Each submodule covers one block of names: a specification function maps a
//! name and a plant to the word shown, and an executable function of the same
//! shape computes it.
use crate::fixed;
use crate::fixed::{rounded_word_of, LIMIT, MAX_MICROS};
use crate::registers::{Definition, RegisterDef};
use crate::state::PlantState;
use crate::text;
use crate::text::starts_with;
use vstd::prelude::*;

pub mod ems;
pub mod gateway;
pub mod holding;
pub mod internal;
pub mod meter;
pub mod native_input;
pub mod three_phase;

verus! {

/// An optional word as an optional number.
pub open spec fn lifted(r: Option<u16>) -> Option<int> {
    match r {
        Some(w) => Some(w as int),
        None => None,
    }
}

/// One for true, zero for false.
pub open spec fn bit(b: bool) -> int {
    if b {
        1
    } else {
        0
    }
}

/// One for true, zero for false.
pub fn flag(b: bool) -> (r: u16)
    ensures
        r == bit(b),
{
    if b {
        1
    } else {
        0
    }
}

/// The word that shows `n / d` millionths of a unit in steps of `scale`
/// millionths. A scale that is not positive counts as one unit.
pub open spec fn scaled(n: int, d: int, scale: int) -> int {
    if scale > 0 {
        fixed::rounded_word(n, d * scale)
    } else {
        fixed::rounded_word(n, d * 1_000_000)
    }
}

/// The word that shows `n / d` millionths in steps of `scale` millionths.
pub fn scaled_of(n: i128, d: i128, scale: i64) -> (r: u16)
    requires
        -LIMIT <= n <= LIMIT,
        0 < d <= 1_000_000_000,
        -MAX_MICROS <= scale <= MAX_MICROS,
    ensures
        r == scaled(n as int, d as int, scale as int),
{
    if scale > 0 {
        proof {
            assert(0 < d * scale <= 1_000_000_000 * MAX_MICROS) by (nonlinear_arith)
                requires
                    0 < d <= 1_000_000_000,
                    0 < scale <= MAX_MICROS,
            ;
        }
        rounded_word_of(n, d * scale as i128)
    } else {
        rounded_word_of(n, d * 1_000_000)
    }
}

/// The first of two optional words.
pub open spec fn either(a: Option<int>, b: Option<int>) -> Option<int> {
    match a {
        Some(w) => Some(w),
        None => b,
    }
}

/// What the register `d` shows of the plant `s`; `None` where the projection
/// leaves the register alone. Without a meter every meter register shows zero.
#[verifier::opaque]
pub open spec fn projected(d: Definition, s: PlantState) -> Option<int> {
    let n = d.name;
    let k = d.scale;
    if text::has_prefix(n, "meter_"@) && !s.config.ct_meter_installed {
        Some(0)
    } else if three_phase::is_fault_register(n) {
        Some(three_phase::three_phase_faults(d.address - 1300, s))
    } else {
        either(
            native_input::input_a(n, k, s),
            either(
                native_input::input_b(n, k, s),
                either(
                    meter::meter(n, k, s),
                    either(
                        ems::ems(n, k, s),
                        either(
                            holding::holding_a(n, k, s),
                            either(
                                holding::holding_b(n, k, s),
                                either(
                                    internal::internal(n, k, s),
                                    either(
                                        three_phase::three_phase_power(n, k, s),
                                        three_phase::three_phase_energy(n, k, s),
                                    ),
                                ),
                            ),
                        ),
                    ),
                ),
            ),
        )
    }
}

/// Whether the projection can place `d`: the fault words are found by address.
pub open spec fn placeable(d: Definition) -> bool {
    three_phase::is_fault_register(d.name) ==> 1300 <= d.address <= 1307
}

/// What the register `d` shows of the plant `s`.
pub fn projected_of(d: &RegisterDef, s: &PlantState) -> (r: Option<u16>)
    requires
        placeable(d@),
    ensures
        lifted(r) == projected(d@, *s),
{
    reveal(projected);
    let n = d.name.as_str();
    let k: i64 = d.scaling_factor.micros();
    if starts_with(n, "meter_") && !s.config.ct_meter_installed {
        return Some(0);
    }
    if three_phase::is_fault_register_name(n) {
        return Some(three_phase::three_phase_faults_of(d.address - 1300, s));
    }
    let w = native_input::input_a_of(n, k, s);
    if w.is_some() {
        return w;
    }
    let w = native_input::input_b_of(n, k, s);
    if w.is_some() {
        return w;
    }
    let w = meter::meter_of(n, k, s);
    if w.is_some() {
        return w;
    }
    let w = ems::ems_of(n, k, s);
    if w.is_some() {
        return w;
    }
    let w = holding::holding_a_of(n, k, s);
    if w.is_some() {
        return w;
    }
    let w = holding::holding_b_of(n, k, s);
    if w.is_some() {
        return w;
    }
    let w = internal::internal_of(n, k, s);
    if w.is_some() {
        return w;
    }
    let w = three_phase::three_phase_power_of(n, k, s);
    if w.is_some() {
        return w;
    }
    three_phase::three_phase_energy_of(n, k, s)
}

/// The values `m` after each register of `defs`, in order, shows its word.
pub open spec fn shown(m: Map<u32, u16>, defs: Seq<Definition>, s: PlantState) -> Map<u32, u16>
    decreases defs.len(),
{
    if defs.len() == 0 {
        m
    } else {
        let before = shown(m, defs.drop_last(), s);
        match projected(defs.last(), s) {
            Some(w) => before.insert(defs.last().key() as u32, w as u16),
            None => before,
        }
    }
}

} // verus!
