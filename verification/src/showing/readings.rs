//! How the readings of two plants relate.
use crate::projection;
use crate::showing::{native_inputs, plain, words};
use crate::state::PlantState;
use vstd::prelude::*;

verus! {

/// Law: a tenth of a kilowatt-hour more charged today raises IR 36 by one, as long
/// as it has room, and leaves IR 37 alone.
pub proof fn law_charge_counter_steps(values: Map<u32, u16>, s: PlantState, t: PlantState)
    requires
        0 <= s.energy_totals.battery_charge_kwh@ <= 6_553_000_000,
        t.energy_totals.battery_charge_kwh@ == s.energy_totals.battery_charge_kwh@ + 100_000,
        t.energy_totals.battery_discharge_kwh == s.energy_totals.battery_discharge_kwh,
    ensures
        words::input(values, s, 36) is Some,
        words::input(values, t, 36) == Some((words::input(values, s, 36)->0 + 1) as u16),
        words::input(values, t, 37) == words::input(values, s, 37),
{
    let a = s.energy_totals.battery_charge_kwh@;
    assert((2 * (a + 100_000) + 100_000) / 200_000 == (2 * a + 100_000) / 200_000 + 1);
    assert(plain::closest(a + 100_000, 100_000) == plain::closest(a, 100_000) + 1);
    assert(0 <= plain::closest(a, 100_000) <= 65_530);
    native_inputs::law_ir_30_to_44(values, s);
    native_inputs::law_ir_30_to_44(values, t);
}

/// Law: a tenth of a kilowatt-hour more discharged today raises IR 37 by one, as
/// long as it has room, and leaves IR 36 alone.
pub proof fn law_discharge_counter_steps(values: Map<u32, u16>, s: PlantState, t: PlantState)
    requires
        0 <= s.energy_totals.battery_discharge_kwh@ <= 6_553_000_000,
        t.energy_totals.battery_discharge_kwh@ == s.energy_totals.battery_discharge_kwh@ + 100_000,
        t.energy_totals.battery_charge_kwh == s.energy_totals.battery_charge_kwh,
    ensures
        words::input(values, s, 37) is Some,
        words::input(values, t, 37) == Some((words::input(values, s, 37)->0 + 1) as u16),
        words::input(values, t, 36) == words::input(values, s, 36),
{
    let a = s.energy_totals.battery_discharge_kwh@;
    assert((2 * (a + 100_000) + 100_000) / 200_000 == (2 * a + 100_000) / 200_000 + 1);
    assert(plain::closest(a + 100_000, 100_000) == plain::closest(a, 100_000) + 1);
    assert(0 <= plain::closest(a, 100_000) <= 65_530);
    native_inputs::law_ir_30_to_44(values, s);
    native_inputs::law_ir_30_to_44(values, t);
}

/// Law: a quantity shows in steps of the register's scale, and in whole units where the
/// scale is no step.
pub proof fn law_scales(n: int, d: int, scale: int)
    requires
        d > 0,
    ensures
        scale > 0 ==> projection::scaled(n, d, scale) == plain::word(n, d * scale),
        scale <= 0 ==> projection::scaled(n, d, scale) == plain::word(n, d * 1_000_000),
{
}

} // verus!
