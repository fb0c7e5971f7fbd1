//! What the authors of scenarios can rely on.
use crate::calendar;
use crate::commands;
use crate::fixed::Fixed;
use crate::modbus::Command;
use crate::numerals;
use crate::scenario;
use crate::scenario::{Expectation, Expected, ScenarioEvent, ScenarioEventInfo};
use crate::calendar::ClockTime;
use crate::showing::plain;
use crate::state::{InverterMode, PlantState, WeatherCondition};
use crate::text;
use vstd::prelude::*;

verus! {

/// The keys of the assertions differ.
proof fn lemma_keys()
    ensures
        "soc_gt"@.len() == 6,
        "soc_gt"@[4] == 'g',
        "soc_lt"@.len() == 6,
        "soc_lt"@[4] == 'l',
        "solar_gt"@.len() == 8,
        "solar_gt"@[6] == 'g',
        "solar_lt"@.len() == 8,
        "solar_lt"@[6] == 'l',
        "grid_connected"@.len() == 14,
        "grid_connected"@[5] == 'c',
        "grid_import_gt"@.len() == 14,
        "grid_import_gt"@[5] == 'i',
        "grid_export_gt"@.len() == 14,
        "grid_export_gt"@[5] == 'e',
        "battery_charging"@.len() == 16,
        "no_faults"@.len() == 9,
        "fault_active"@.len() == 12,
        "fault_active"@[0] == 'f',
        "grid_import_kwh_gt"@.len() == 18,
        "grid_import_kwh_gt"@[5] == 'i',
        "grid_export_kwh_gt"@.len() == 18,
        "grid_export_kwh_gt"@[5] == 'e',
        "solar_kwh_gt"@.len() == 12,
        "solar_kwh_gt"@[0] == 's',
        "load_kwh_gt"@.len() == 11,
{
    reveal_strlit("soc_gt");
    reveal_strlit("soc_lt");
    reveal_strlit("solar_gt");
    reveal_strlit("solar_lt");
    reveal_strlit("grid_connected");
    reveal_strlit("grid_import_gt");
    reveal_strlit("grid_export_gt");
    reveal_strlit("battery_charging");
    reveal_strlit("no_faults");
    reveal_strlit("fault_active");
    reveal_strlit("grid_import_kwh_gt");
    reveal_strlit("grid_export_kwh_gt");
    reveal_strlit("solar_kwh_gt");
    reveal_strlit("load_kwh_gt");
}

/// Whether the plant meets one expectation. A key that no assertion has, or a value of
/// a kind that its assertion does not take, expects nothing.
pub open spec fn met(x: Expectation, s: PlantState) -> bool {
    match x.value {
        Expected::Number(t) => {
            &&& x.key@ == "soc_gt"@ ==> s.battery.soc_percent@ > t@
            &&& x.key@ == "soc_lt"@ ==> s.battery.soc_percent@ < t@
            &&& x.key@ == "solar_gt"@ ==> s.solar.generation_w@ > t@
            &&& x.key@ == "solar_lt"@ ==> s.solar.generation_w@ < t@
            &&& x.key@ == "grid_import_gt"@ ==> plain::gain(s.grid.power_w@) > t@
            &&& x.key@ == "grid_export_gt"@ ==> plain::gain(-s.grid.power_w@) > t@
            &&& x.key@ == "grid_import_kwh_gt"@ ==> s.energy_totals.grid_import_kwh@ > t@
            &&& x.key@ == "grid_export_kwh_gt"@ ==> s.energy_totals.grid_export_kwh@ > t@
            &&& x.key@ == "solar_kwh_gt"@ ==> s.energy_totals.solar_generation_kwh@ > t@
            &&& x.key@ == "load_kwh_gt"@ ==> s.energy_totals.load_consumption_kwh@ > t@
            &&& x.key@ == "grid_connected"@ ==> t@ == (if s.grid.connected {
                1_000_000int
            } else {
                0
            })
        },
        Expected::Bool(b) => {
            &&& x.key@ == "battery_charging"@ ==> (b <==> s.battery.power_kw@ > 0)
            &&& x.key@ == "no_faults"@ && b ==> s.active_faults@.len() == 0
        },
        Expected::Text(id) => x.key@ == "fault_active"@ ==> plain::raised(s.active_faults@, id@),
        Expected::Other => true,
    }
}

/// What a list expects under the keys of its members.
proof fn lemma_expected(e: Seq<Expectation>, key: Seq<char>)
    requires
        forall|i: int, j: int| 0 <= i < j < e.len()
            ==> (#[trigger] e[i]).key@ != (#[trigger] e[j]).key@,
    ensures
        forall|i: int|
            0 <= i < e.len() && (#[trigger] e[i]).key@ == key ==> scenario::expected(e, key) == Some(
                e[i].value,
            ),
        scenario::expected(e, key) is Some ==> exists|i: int|
            0 <= i < e.len() && (#[trigger] e[i]).key@ == key && scenario::expected(e, key) == Some(
                e[i].value,
            ),
    decreases e.len(),
{
    if e.len() > 0 {
        let rest = e.skip(1);
        assert forall|i: int, j: int| 0 <= i < j < rest.len() implies (#[trigger] rest[i]).key@ != (
        #[trigger] rest[j]).key@ by {
            assert(rest[i] == e[i + 1] && rest[j] == e[j + 1]);
        }
        lemma_expected(rest, key);
        assert forall|i: int| 0 <= i < e.len() && (#[trigger] e[i]).key@ == key implies scenario::expected(
            e,
            key,
        ) == Some(e[i].value) by {
            if i > 0 {
                assert(rest[i - 1] == e[i]);
                assert(e[0].key@ != e[i].key@);
            }
        }
        if scenario::expected(e, key) is Some && e[0].key@ != key {
            let i = choose|i: int|
                0 <= i < rest.len() && (#[trigger] rest[i]).key@ == key && scenario::expected(
                    rest,
                    key,
                ) == Some(rest[i].value);
            assert(e[i + 1] == rest[i]);
        }
    }
}

/// A verdict that is good finds nothing wrong under any key.
proof fn lemma_no_failure(e: Seq<Expectation>, s: PlantState)
    ensures
        scenario::failures(e, s).len() == 0 <==> {
            &&& scenario::not_above(e, "soc_gt"@, s.battery.soc_percent@) is None
            &&& scenario::not_below(e, "soc_lt"@, s.battery.soc_percent@) is None
            &&& scenario::not_above(e, "solar_gt"@, s.solar.generation_w@) is None
            &&& scenario::not_below(e, "solar_lt"@, s.solar.generation_w@) is None
            &&& scenario::not_above(e, "grid_import_gt"@, plain::gain(s.grid.power_w@)) is None
            &&& scenario::not_above(e, "grid_export_gt"@, plain::gain(-s.grid.power_w@)) is None
            &&& scenario::not_above(e, "grid_import_kwh_gt"@, s.energy_totals.grid_import_kwh@) is None
            &&& scenario::not_above(e, "grid_export_kwh_gt"@, s.energy_totals.grid_export_kwh@) is None
            &&& scenario::not_above(e, "solar_kwh_gt"@, s.energy_totals.solar_generation_kwh@) is None
            &&& scenario::not_above(e, "load_kwh_gt"@, s.energy_totals.load_consumption_kwh@) is None
            &&& scenario::not_connected(e, s.grid.connected) is None
            &&& scenario::not_charging(e, s.battery.power_kw@) is None
            &&& scenario::not_faultless(e, s.active_faults@) is None
            &&& scenario::not_faulty(e, s.active_faults@) is None
        },
{
}

/// Law: the assertions of a step hold exactly when the plant meets each of them.
#[verifier::rlimit(60)]
pub proof fn law_verdict(r: Result<(), Vec<String>>, list: Vec<Expectation>, s: PlantState)
    requires
        call_ensures(scenario::check_assertions, (&list, &s), r),
        forall|i: int, j: int|
            0 <= i < j < list@.len() ==> (#[trigger] list@[i]).key@ != (#[trigger] list@[j]).key@,
    ensures
        r is Ok <==> forall|i: int| 0 <= i < list@.len() ==> met(#[trigger] list@[i], s),
{
    let e = list@;
    lemma_no_failure(e, s);
    lemma_expected(e, "soc_gt"@);
    lemma_expected(e, "soc_lt"@);
    lemma_expected(e, "solar_gt"@);
    lemma_expected(e, "solar_lt"@);
    lemma_expected(e, "grid_connected"@);
    lemma_expected(e, "grid_import_gt"@);
    lemma_expected(e, "grid_export_gt"@);
    lemma_expected(e, "battery_charging"@);
    lemma_expected(e, "no_faults"@);
    lemma_expected(e, "fault_active"@);
    lemma_expected(e, "grid_import_kwh_gt"@);
    lemma_expected(e, "grid_export_kwh_gt"@);
    lemma_expected(e, "solar_kwh_gt"@);
    lemma_expected(e, "load_kwh_gt"@);
    lemma_keys();
}

/// What a lone expectation asks for.
proof fn lemma_lone(x: Expectation, key: Seq<char>)
    ensures
        scenario::expected(seq![x], key) == (if x.key@ == key {
            Some(x.value)
        } else {
            None
        }),
{
    reveal_with_fuel(scenario::expected, 2);
    assert(seq![x].skip(1) =~= Seq::empty());
}

/// Law: a number under `soc_gt` is met exactly when the state of charge of the battery
/// lies above it,
/// whatever else the plant does. The message says what was expected and what was found.
#[verifier::rlimit(40)]
pub proof fn law_soc_above(
    r: Result<(),
    Vec<String>>,
    e: Vec<Expectation>,
    x: Expectation,
    t: Fixed,
    s: PlantState,
)
    requires
        e@ == seq![x],
        x.key@ == "soc_gt"@,
        x.value == Expected::Number(t),
        call_ensures(scenario::check_assertions, (&e, &s), r),
    ensures
        r is Ok <==> s.battery.soc_percent@ > t@,
        r matches Err(m) ==> m@.len() == 1 && m@[0]@ == "soc_gt"@ + ": expected > "@
        + numerals::shortest_text(t@) + ", got "@
            + numerals::decimal_text(s.battery.soc_percent@, 1),
{
    lemma_keys();
    lemma_lone(x, "soc_gt"@);
    lemma_lone(x, "soc_lt"@);
    lemma_lone(x, "solar_gt"@);
    lemma_lone(x, "solar_lt"@);
    lemma_lone(x, "grid_connected"@);
    lemma_lone(x, "grid_import_gt"@);
    lemma_lone(x, "grid_export_gt"@);
    lemma_lone(x, "battery_charging"@);
    lemma_lone(x, "no_faults"@);
    lemma_lone(x, "fault_active"@);
    lemma_lone(x, "grid_import_kwh_gt"@);
    lemma_lone(x, "grid_export_kwh_gt"@);
    lemma_lone(x, "solar_kwh_gt"@);
    lemma_lone(x, "load_kwh_gt"@);
    if let Err(m) = r {
        assert(text::views(m@)[0] == m@[0]@);
    }
}

/// Law: a number under `soc_lt` is met exactly when the state of charge of the battery
/// lies below it,
/// whatever else the plant does. The message says what was expected and what was found.
#[verifier::rlimit(40)]
pub proof fn law_soc_below(
    r: Result<(),
    Vec<String>>,
    e: Vec<Expectation>,
    x: Expectation,
    t: Fixed,
    s: PlantState,
)
    requires
        e@ == seq![x],
        x.key@ == "soc_lt"@,
        x.value == Expected::Number(t),
        call_ensures(scenario::check_assertions, (&e, &s), r),
    ensures
        r is Ok <==> s.battery.soc_percent@ < t@,
        r matches Err(m) ==> m@.len() == 1 && m@[0]@ == "soc_lt"@ + ": expected < "@
        + numerals::shortest_text(t@) + ", got "@
            + numerals::decimal_text(s.battery.soc_percent@, 1),
{
    lemma_keys();
    lemma_lone(x, "soc_gt"@);
    lemma_lone(x, "soc_lt"@);
    lemma_lone(x, "solar_gt"@);
    lemma_lone(x, "solar_lt"@);
    lemma_lone(x, "grid_connected"@);
    lemma_lone(x, "grid_import_gt"@);
    lemma_lone(x, "grid_export_gt"@);
    lemma_lone(x, "battery_charging"@);
    lemma_lone(x, "no_faults"@);
    lemma_lone(x, "fault_active"@);
    lemma_lone(x, "grid_import_kwh_gt"@);
    lemma_lone(x, "grid_export_kwh_gt"@);
    lemma_lone(x, "solar_kwh_gt"@);
    lemma_lone(x, "load_kwh_gt"@);
    if let Err(m) = r {
        assert(text::views(m@)[0] == m@[0]@);
    }
}

/// Law: a number under `solar_gt` is met exactly when the solar generation lies above it,
/// whatever else the plant does. The message says what was expected and what was found.
#[verifier::rlimit(40)]
pub proof fn law_solar_above(
    r: Result<(),
    Vec<String>>,
    e: Vec<Expectation>,
    x: Expectation,
    t: Fixed,
    s: PlantState,
)
    requires
        e@ == seq![x],
        x.key@ == "solar_gt"@,
        x.value == Expected::Number(t),
        call_ensures(scenario::check_assertions, (&e, &s), r),
    ensures
        r is Ok <==> s.solar.generation_w@ > t@,
        r matches Err(m) ==> m@.len() == 1 && m@[0]@ == "solar_gt"@ + ": expected > "@
        + numerals::shortest_text(t@) + ", got "@
            + numerals::decimal_text(s.solar.generation_w@, 1),
{
    lemma_keys();
    lemma_lone(x, "soc_gt"@);
    lemma_lone(x, "soc_lt"@);
    lemma_lone(x, "solar_gt"@);
    lemma_lone(x, "solar_lt"@);
    lemma_lone(x, "grid_connected"@);
    lemma_lone(x, "grid_import_gt"@);
    lemma_lone(x, "grid_export_gt"@);
    lemma_lone(x, "battery_charging"@);
    lemma_lone(x, "no_faults"@);
    lemma_lone(x, "fault_active"@);
    lemma_lone(x, "grid_import_kwh_gt"@);
    lemma_lone(x, "grid_export_kwh_gt"@);
    lemma_lone(x, "solar_kwh_gt"@);
    lemma_lone(x, "load_kwh_gt"@);
    if let Err(m) = r {
        assert(text::views(m@)[0] == m@[0]@);
    }
}

/// Law: a number under `solar_lt` is met exactly when the solar generation lies below it,
/// whatever else the plant does. The message says what was expected and what was found.
#[verifier::rlimit(40)]
pub proof fn law_solar_below(
    r: Result<(),
    Vec<String>>,
    e: Vec<Expectation>,
    x: Expectation,
    t: Fixed,
    s: PlantState,
)
    requires
        e@ == seq![x],
        x.key@ == "solar_lt"@,
        x.value == Expected::Number(t),
        call_ensures(scenario::check_assertions, (&e, &s), r),
    ensures
        r is Ok <==> s.solar.generation_w@ < t@,
        r matches Err(m) ==> m@.len() == 1 && m@[0]@ == "solar_lt"@ + ": expected < "@
        + numerals::shortest_text(t@) + ", got "@
            + numerals::decimal_text(s.solar.generation_w@, 1),
{
    lemma_keys();
    lemma_lone(x, "soc_gt"@);
    lemma_lone(x, "soc_lt"@);
    lemma_lone(x, "solar_gt"@);
    lemma_lone(x, "solar_lt"@);
    lemma_lone(x, "grid_connected"@);
    lemma_lone(x, "grid_import_gt"@);
    lemma_lone(x, "grid_export_gt"@);
    lemma_lone(x, "battery_charging"@);
    lemma_lone(x, "no_faults"@);
    lemma_lone(x, "fault_active"@);
    lemma_lone(x, "grid_import_kwh_gt"@);
    lemma_lone(x, "grid_export_kwh_gt"@);
    lemma_lone(x, "solar_kwh_gt"@);
    lemma_lone(x, "load_kwh_gt"@);
    if let Err(m) = r {
        assert(text::views(m@)[0] == m@[0]@);
    }
}

/// Law: a number under `grid_import_gt` is met exactly when the power drawn from the grid
/// lies above it,
/// whatever else the plant does. The message says what was expected and what was found.
#[verifier::rlimit(40)]
pub proof fn law_import_above(
    r: Result<(),
    Vec<String>>,
    e: Vec<Expectation>,
    x: Expectation,
    t: Fixed,
    s: PlantState,
)
    requires
        e@ == seq![x],
        x.key@ == "grid_import_gt"@,
        x.value == Expected::Number(t),
        call_ensures(scenario::check_assertions, (&e, &s), r),
    ensures
        r is Ok <==> plain::gain(s.grid.power_w@) > t@,
        r matches Err(m) ==> m@.len() == 1 && m@[0]@ == "grid_import_gt"@ + ": expected > "@
        + numerals::shortest_text(t@) + ", got "@
            + numerals::decimal_text(plain::gain(s.grid.power_w@), 1),
{
    lemma_keys();
    lemma_lone(x, "soc_gt"@);
    lemma_lone(x, "soc_lt"@);
    lemma_lone(x, "solar_gt"@);
    lemma_lone(x, "solar_lt"@);
    lemma_lone(x, "grid_connected"@);
    lemma_lone(x, "grid_import_gt"@);
    lemma_lone(x, "grid_export_gt"@);
    lemma_lone(x, "battery_charging"@);
    lemma_lone(x, "no_faults"@);
    lemma_lone(x, "fault_active"@);
    lemma_lone(x, "grid_import_kwh_gt"@);
    lemma_lone(x, "grid_export_kwh_gt"@);
    lemma_lone(x, "solar_kwh_gt"@);
    lemma_lone(x, "load_kwh_gt"@);
    if let Err(m) = r {
        assert(text::views(m@)[0] == m@[0]@);
    }
}

/// Law: a number under `grid_export_gt` is met exactly when the power fed into the grid
/// lies above it,
/// whatever else the plant does. The message says what was expected and what was found.
#[verifier::rlimit(40)]
pub proof fn law_export_above(
    r: Result<(),
    Vec<String>>,
    e: Vec<Expectation>,
    x: Expectation,
    t: Fixed,
    s: PlantState,
)
    requires
        e@ == seq![x],
        x.key@ == "grid_export_gt"@,
        x.value == Expected::Number(t),
        call_ensures(scenario::check_assertions, (&e, &s), r),
    ensures
        r is Ok <==> plain::gain(-s.grid.power_w@) > t@,
        r matches Err(m) ==> m@.len() == 1 && m@[0]@ == "grid_export_gt"@ + ": expected > "@
        + numerals::shortest_text(t@) + ", got "@
            + numerals::decimal_text(plain::gain(-s.grid.power_w@), 1),
{
    lemma_keys();
    lemma_lone(x, "soc_gt"@);
    lemma_lone(x, "soc_lt"@);
    lemma_lone(x, "solar_gt"@);
    lemma_lone(x, "solar_lt"@);
    lemma_lone(x, "grid_connected"@);
    lemma_lone(x, "grid_import_gt"@);
    lemma_lone(x, "grid_export_gt"@);
    lemma_lone(x, "battery_charging"@);
    lemma_lone(x, "no_faults"@);
    lemma_lone(x, "fault_active"@);
    lemma_lone(x, "grid_import_kwh_gt"@);
    lemma_lone(x, "grid_export_kwh_gt"@);
    lemma_lone(x, "solar_kwh_gt"@);
    lemma_lone(x, "load_kwh_gt"@);
    if let Err(m) = r {
        assert(text::views(m@)[0] == m@[0]@);
    }
}

/// Law: a number under `grid_import_kwh_gt` is met exactly when the energy drawn from the
/// grid lies above it,
/// whatever else the plant does. The message says what was expected and what was found.
#[verifier::rlimit(40)]
pub proof fn law_imported_energy_above(
    r: Result<(),
    Vec<String>>,
    e: Vec<Expectation>,
    x: Expectation,
    t: Fixed,
    s: PlantState,
)
    requires
        e@ == seq![x],
        x.key@ == "grid_import_kwh_gt"@,
        x.value == Expected::Number(t),
        call_ensures(scenario::check_assertions, (&e, &s), r),
    ensures
        r is Ok <==> s.energy_totals.grid_import_kwh@ > t@,
        r matches Err(m) ==> m@.len() == 1 && m@[0]@ == "grid_import_kwh_gt"@ + ": expected > "@
        + numerals::shortest_text(t@) + ", got "@
            + numerals::decimal_text(s.energy_totals.grid_import_kwh@, 1),
{
    lemma_keys();
    lemma_lone(x, "soc_gt"@);
    lemma_lone(x, "soc_lt"@);
    lemma_lone(x, "solar_gt"@);
    lemma_lone(x, "solar_lt"@);
    lemma_lone(x, "grid_connected"@);
    lemma_lone(x, "grid_import_gt"@);
    lemma_lone(x, "grid_export_gt"@);
    lemma_lone(x, "battery_charging"@);
    lemma_lone(x, "no_faults"@);
    lemma_lone(x, "fault_active"@);
    lemma_lone(x, "grid_import_kwh_gt"@);
    lemma_lone(x, "grid_export_kwh_gt"@);
    lemma_lone(x, "solar_kwh_gt"@);
    lemma_lone(x, "load_kwh_gt"@);
    if let Err(m) = r {
        assert(text::views(m@)[0] == m@[0]@);
    }
}

/// Law: a number under `grid_export_kwh_gt` is met exactly when the energy fed into the
/// grid lies above it,
/// whatever else the plant does. The message says what was expected and what was found.
#[verifier::rlimit(40)]
pub proof fn law_exported_energy_above(
    r: Result<(),
    Vec<String>>,
    e: Vec<Expectation>,
    x: Expectation,
    t: Fixed,
    s: PlantState,
)
    requires
        e@ == seq![x],
        x.key@ == "grid_export_kwh_gt"@,
        x.value == Expected::Number(t),
        call_ensures(scenario::check_assertions, (&e, &s), r),
    ensures
        r is Ok <==> s.energy_totals.grid_export_kwh@ > t@,
        r matches Err(m) ==> m@.len() == 1 && m@[0]@ == "grid_export_kwh_gt"@ + ": expected > "@
        + numerals::shortest_text(t@) + ", got "@
            + numerals::decimal_text(s.energy_totals.grid_export_kwh@, 1),
{
    lemma_keys();
    lemma_lone(x, "soc_gt"@);
    lemma_lone(x, "soc_lt"@);
    lemma_lone(x, "solar_gt"@);
    lemma_lone(x, "solar_lt"@);
    lemma_lone(x, "grid_connected"@);
    lemma_lone(x, "grid_import_gt"@);
    lemma_lone(x, "grid_export_gt"@);
    lemma_lone(x, "battery_charging"@);
    lemma_lone(x, "no_faults"@);
    lemma_lone(x, "fault_active"@);
    lemma_lone(x, "grid_import_kwh_gt"@);
    lemma_lone(x, "grid_export_kwh_gt"@);
    lemma_lone(x, "solar_kwh_gt"@);
    lemma_lone(x, "load_kwh_gt"@);
    if let Err(m) = r {
        assert(text::views(m@)[0] == m@[0]@);
    }
}

/// Law: a number under `solar_kwh_gt` is met exactly when the energy generated from the
/// sun lies above it,
/// whatever else the plant does. The message says what was expected and what was found.
#[verifier::rlimit(40)]
pub proof fn law_solar_energy_above(
    r: Result<(),
    Vec<String>>,
    e: Vec<Expectation>,
    x: Expectation,
    t: Fixed,
    s: PlantState,
)
    requires
        e@ == seq![x],
        x.key@ == "solar_kwh_gt"@,
        x.value == Expected::Number(t),
        call_ensures(scenario::check_assertions, (&e, &s), r),
    ensures
        r is Ok <==> s.energy_totals.solar_generation_kwh@ > t@,
        r matches Err(m) ==> m@.len() == 1 && m@[0]@ == "solar_kwh_gt"@ + ": expected > "@
        + numerals::shortest_text(t@) + ", got "@
            + numerals::decimal_text(s.energy_totals.solar_generation_kwh@, 1),
{
    lemma_keys();
    lemma_lone(x, "soc_gt"@);
    lemma_lone(x, "soc_lt"@);
    lemma_lone(x, "solar_gt"@);
    lemma_lone(x, "solar_lt"@);
    lemma_lone(x, "grid_connected"@);
    lemma_lone(x, "grid_import_gt"@);
    lemma_lone(x, "grid_export_gt"@);
    lemma_lone(x, "battery_charging"@);
    lemma_lone(x, "no_faults"@);
    lemma_lone(x, "fault_active"@);
    lemma_lone(x, "grid_import_kwh_gt"@);
    lemma_lone(x, "grid_export_kwh_gt"@);
    lemma_lone(x, "solar_kwh_gt"@);
    lemma_lone(x, "load_kwh_gt"@);
    if let Err(m) = r {
        assert(text::views(m@)[0] == m@[0]@);
    }
}

/// Law: a number under `load_kwh_gt` is met exactly when the energy that the load
/// consumed lies above it,
/// whatever else the plant does. The message says what was expected and what was found.
#[verifier::rlimit(40)]
pub proof fn law_load_energy_above(
    r: Result<(),
    Vec<String>>,
    e: Vec<Expectation>,
    x: Expectation,
    t: Fixed,
    s: PlantState,
)
    requires
        e@ == seq![x],
        x.key@ == "load_kwh_gt"@,
        x.value == Expected::Number(t),
        call_ensures(scenario::check_assertions, (&e, &s), r),
    ensures
        r is Ok <==> s.energy_totals.load_consumption_kwh@ > t@,
        r matches Err(m) ==> m@.len() == 1 && m@[0]@ == "load_kwh_gt"@ + ": expected > "@
        + numerals::shortest_text(t@) + ", got "@
            + numerals::decimal_text(s.energy_totals.load_consumption_kwh@, 1),
{
    lemma_keys();
    lemma_lone(x, "soc_gt"@);
    lemma_lone(x, "soc_lt"@);
    lemma_lone(x, "solar_gt"@);
    lemma_lone(x, "solar_lt"@);
    lemma_lone(x, "grid_connected"@);
    lemma_lone(x, "grid_import_gt"@);
    lemma_lone(x, "grid_export_gt"@);
    lemma_lone(x, "battery_charging"@);
    lemma_lone(x, "no_faults"@);
    lemma_lone(x, "fault_active"@);
    lemma_lone(x, "grid_import_kwh_gt"@);
    lemma_lone(x, "grid_export_kwh_gt"@);
    lemma_lone(x, "solar_kwh_gt"@);
    lemma_lone(x, "load_kwh_gt"@);
    if let Err(m) = r {
        assert(text::views(m@)[0] == m@[0]@);
    }
}

/// Law: a number under `grid_connected` is met exactly when it is one while the grid is
/// connected, and zero while it is not.
#[verifier::rlimit(40)]
pub proof fn law_connection(
    r: Result<(),
    Vec<String>>,
    e: Vec<Expectation>,
    x: Expectation,
    t: Fixed,
    s: PlantState,
)
    requires
        e@ == seq![x],
        x.key@ == "grid_connected"@,
        x.value == Expected::Number(t),
        call_ensures(scenario::check_assertions, (&e, &s), r),
    ensures
        r is Ok <==> (s.grid.connected && t@ == 1_000_000) || (!s.grid.connected && t@ == 0),
        r matches Err(m) ==> m@.len() == 1 && m@[0]@ == "grid_connected: expected "@
            + numerals::shortest_text(t@) + ", got "@ + numerals::shortest_text(
            if s.grid.connected {
                1_000_000
            } else {
                0
            },
        ),
{
    lemma_keys();
    lemma_lone(x, "soc_gt"@);
    lemma_lone(x, "soc_lt"@);
    lemma_lone(x, "solar_gt"@);
    lemma_lone(x, "solar_lt"@);
    lemma_lone(x, "grid_connected"@);
    lemma_lone(x, "grid_import_gt"@);
    lemma_lone(x, "grid_export_gt"@);
    lemma_lone(x, "battery_charging"@);
    lemma_lone(x, "no_faults"@);
    lemma_lone(x, "fault_active"@);
    lemma_lone(x, "grid_import_kwh_gt"@);
    lemma_lone(x, "grid_export_kwh_gt"@);
    lemma_lone(x, "solar_kwh_gt"@);
    lemma_lone(x, "load_kwh_gt"@);
    if let Err(m) = r {
        assert(text::views(m@)[0] == m@[0]@);
    }
}

/// Law: a truth value under `battery_charging` is met exactly when it says whether power
/// flows into the battery.
#[verifier::rlimit(40)]
pub proof fn law_charging(
    r: Result<(),
    Vec<String>>,
    e: Vec<Expectation>,
    x: Expectation,
    b: bool,
    s: PlantState,
)
    requires
        e@ == seq![x],
        x.key@ == "battery_charging"@,
        x.value == Expected::Bool(b),
        call_ensures(scenario::check_assertions, (&e, &s), r),
    ensures
        r is Ok <==> b == (s.battery.power_kw@ > 0),
        r matches Err(m) ==> m@.len() == 1 && m@[0]@ == "battery_charging: expected "@ + (if b {
            "true"@
        } else {
            "false"@
        }) + ", got "@ + (if s.battery.power_kw@ > 0 {
            "true"@
        } else {
            "false"@
        }) + " (total_power_kw="@ + numerals::decimal_text(s.battery.power_kw@, 2) + ")"@,
{
    lemma_keys();
    lemma_lone(x, "soc_gt"@);
    lemma_lone(x, "soc_lt"@);
    lemma_lone(x, "solar_gt"@);
    lemma_lone(x, "solar_lt"@);
    lemma_lone(x, "grid_connected"@);
    lemma_lone(x, "grid_import_gt"@);
    lemma_lone(x, "grid_export_gt"@);
    lemma_lone(x, "battery_charging"@);
    lemma_lone(x, "no_faults"@);
    lemma_lone(x, "fault_active"@);
    lemma_lone(x, "grid_import_kwh_gt"@);
    lemma_lone(x, "grid_export_kwh_gt"@);
    lemma_lone(x, "solar_kwh_gt"@);
    lemma_lone(x, "load_kwh_gt"@);
    if let Err(m) = r {
        assert(text::views(m@)[0] == m@[0]@);
    }
}

/// Law: `no_faults` is met exactly when no fault is active, and asks nothing when it is
/// false.
#[verifier::rlimit(40)]
pub proof fn law_no_faults(
    r: Result<(),
    Vec<String>>,
    e: Vec<Expectation>,
    x: Expectation,
    b: bool,
    s: PlantState,
)
    requires
        e@ == seq![x],
        x.key@ == "no_faults"@,
        x.value == Expected::Bool(b),
        call_ensures(scenario::check_assertions, (&e, &s), r),
    ensures
        r is Ok <==> !b || s.active_faults@.len() == 0,
        r matches Err(m) ==> m@.len() == 1 && m@[0]@ == "no_faults: expected none, got "@
            + scenario::fault_list(text::views(s.active_faults@)),
{
    lemma_keys();
    lemma_lone(x, "soc_gt"@);
    lemma_lone(x, "soc_lt"@);
    lemma_lone(x, "solar_gt"@);
    lemma_lone(x, "solar_lt"@);
    lemma_lone(x, "grid_connected"@);
    lemma_lone(x, "grid_import_gt"@);
    lemma_lone(x, "grid_export_gt"@);
    lemma_lone(x, "battery_charging"@);
    lemma_lone(x, "no_faults"@);
    lemma_lone(x, "fault_active"@);
    lemma_lone(x, "grid_import_kwh_gt"@);
    lemma_lone(x, "grid_export_kwh_gt"@);
    lemma_lone(x, "solar_kwh_gt"@);
    lemma_lone(x, "load_kwh_gt"@);
    if let Err(m) = r {
        assert(text::views(m@)[0] == m@[0]@);
    }
}

/// Law: a name under `fault_active` is met exactly when the fault of that name is active.
#[verifier::rlimit(40)]
pub proof fn law_fault_active(
    r: Result<(),
    Vec<String>>,
    e: Vec<Expectation>,
    x: Expectation,
    id: String,
    s: PlantState,
)
    requires
        e@ == seq![x],
        x.key@ == "fault_active"@,
        x.value == Expected::Text(id),
        call_ensures(scenario::check_assertions, (&e, &s), r),
    ensures
        r is Ok <==> exists|i: int|
            0 <= i < s.active_faults@.len() && (#[trigger] s.active_faults@[i])@ == id@,
        r matches Err(m) ==> m@.len() == 1 && m@[0]@ == "fault_active: expected '"@ + id@
            + "' to be active, got "@ + scenario::fault_list(text::views(s.active_faults@)),
{
    lemma_keys();
    lemma_lone(x, "soc_gt"@);
    lemma_lone(x, "soc_lt"@);
    lemma_lone(x, "solar_gt"@);
    lemma_lone(x, "solar_lt"@);
    lemma_lone(x, "grid_connected"@);
    lemma_lone(x, "grid_import_gt"@);
    lemma_lone(x, "grid_export_gt"@);
    lemma_lone(x, "battery_charging"@);
    lemma_lone(x, "no_faults"@);
    lemma_lone(x, "fault_active"@);
    lemma_lone(x, "grid_import_kwh_gt"@);
    lemma_lone(x, "grid_export_kwh_gt"@);
    lemma_lone(x, "solar_kwh_gt"@);
    lemma_lone(x, "load_kwh_gt"@);
    if let Err(m) = r {
        assert(text::views(m@)[0] == m@[0]@);
    }
}

/// Law: the faults in a message: in quotes, with commas, between brackets, where their
/// names are plain words.
pub proof fn law_fault_lists(a: Seq<char>, b: Seq<char>)
    requires
        scenario::plain_words(seq![a]),
        scenario::plain_words(seq![a, b]),
    ensures
        scenario::fault_list(seq![a]) == "["@ + ("\""@ + a + "\""@) + "]"@,
        scenario::fault_list(seq![a, b]) == "["@ + (("\""@ + a + "\""@) + ", "@ + ("\""@ + b
            + "\""@)) + "]"@,
{
    let quote = |s: Seq<char>| "\""@ + s + "\""@;
    assert(seq![a].map_values(quote) =~= seq![quote(a)]);
    assert(seq![a, b].map_values(quote) =~= seq![quote(a), quote(b)]);
    assert(seq![quote(a), quote(b)].drop_last() =~= seq![quote(a)]);
}

/// An event that does nothing.
pub open spec fn quiet(e: ScenarioEvent) -> bool {
    e.fault is None && e.clear_fault is None && e.mode is None && e.export_limit is None
        && e.weather is None
}

/// Law: an event without commands gives none.
pub proof fn law_quiet_event(e: ScenarioEvent)
    requires
        quiet(e),
    ensures
        scenario::event_commands(e).len() == 0,
{
}

/// Law: what each part of an event asks for, on its own.
pub proof fn law_event_parts(e: ScenarioEvent, f: String, w: Fixed, n: String)
    ensures
        quiet(ScenarioEvent { fault: None, ..e }) && e.fault == Some(f) ==> scenario::event_commands(
            e,
        ) == seq![Command::InjectFault(f)],
        quiet(ScenarioEvent { clear_fault: None, ..e }) && e.clear_fault == Some(f)
            ==> scenario::event_commands(e) == seq![Command::ClearFault(f)],
        quiet(ScenarioEvent { export_limit: None, ..e }) && e.export_limit == Some(w)
            ==> scenario::event_commands(e) == seq![Command::SetExportLimit(w)],
        quiet(ScenarioEvent { mode: None, ..e }) && e.mode == Some(n) ==> scenario::event_commands(e)
            == seq![Command::SetInverterMode(scenario::event_mode(n@))],
        quiet(ScenarioEvent { weather: None, ..e }) && e.weather == Some(n)
            ==> scenario::event_commands(e) == seq![
            Command::SetWeather(scenario::event_weather(scenario::lowercase(n@))),
        ],
{
}

/// Law: an event with everything asks for it in a fixed order: the fault, the fault to
/// clear, the mode, the export limit, the weather.
pub proof fn law_event_order(e: ScenarioEvent)
    requires
        e.fault is Some,
        e.clear_fault is Some,
        e.mode is Some,
        e.export_limit is Some,
        e.weather is Some,
    ensures
        ({
            let c = scenario::event_commands(e);
            &&& c.len() == 5
            &&& c[0] == Command::InjectFault(e.fault->0)
            &&& c[1] == Command::ClearFault(e.clear_fault->0)
            &&& c[2] is SetInverterMode
            &&& c[3] == Command::SetExportLimit(e.export_limit->0)
            &&& c[4] is SetWeather
        }),
{
}

/// Law: an event pins generation and demand, each where it says so, and nothing else of
/// the plant.
pub proof fn law_event_overrides(s: PlantState, e: ScenarioEvent)
    ensures
        ({
            let t = scenario::overridden(s, e);
            &&& e.solar is Some ==> t.solar.generation_w == e.solar->0
            &&& e.solar is None ==> t.solar.generation_w == s.solar.generation_w
            &&& e.load is Some ==> t.load_demand_w == e.load->0
            &&& e.load is None ==> t.load_demand_w == s.load_demand_w
            &&& t.solar.pv1_w == s.solar.pv1_w
            &&& t.solar.pv2_w == s.solar.pv2_w
            &&& t.battery == s.battery
            &&& t.batteries == s.batteries
            &&& t.grid == s.grid
            &&& t.inverter == s.inverter
            &&& t.energy_totals == s.energy_totals
            &&& t.config == s.config
            &&& t.timestamp == s.timestamp
            &&& t.active_faults == s.active_faults
        }),
{
}

/// The names of modes and weathers differ.
proof fn lemma_names()
    ensures
        "Normal"@.len() == 6,
        "Eco"@.len() == 3,
        "ForceCharge"@.len() == 11,
        "ForceCharge"@[0] == 'F',
        "ForceDischarge"@.len() == 14,
        "ExportLimit"@.len() == 11,
        "ExportLimit"@[0] == 'E',
        "Clear"@.len() == 5,
        "Clear"@[0] == 'C',
        "PartlyCloudy"@.len() == 12,
        "Overcast"@.len() == 8,
        "Rain"@.len() == 4,
        "Storm"@.len() == 5,
        "Storm"@[0] == 'S',
        "partlycloudy"@.len() == 12,
        "partly-cloudy"@.len() == 13,
        "partly-cloudy"@[6] == '-',
        "partly_cloudy"@.len() == 13,
        "partly_cloudy"@[6] == '_',
        "overcast"@.len() == 8,
        "rain"@.len() == 4,
        "storm"@.len() == 5,
        "clear"@.len() == 5,
        "storm"@[0] == 's',
        "clear"@[0] == 'c',
{
    reveal_strlit("Normal");
    reveal_strlit("Eco");
    reveal_strlit("ForceCharge");
    reveal_strlit("ForceDischarge");
    reveal_strlit("ExportLimit");
    reveal_strlit("Clear");
    reveal_strlit("PartlyCloudy");
    reveal_strlit("Overcast");
    reveal_strlit("Rain");
    reveal_strlit("Storm");
    reveal_strlit("partlycloudy");
    reveal_strlit("partly-cloudy");
    reveal_strlit("partly_cloudy");
    reveal_strlit("overcast");
    reveal_strlit("rain");
    reveal_strlit("storm");
    reveal_strlit("clear");
}

/// Law: the modes by their names; a name that is none of them is refused by a request
/// and means normal operation in an event.
pub proof fn law_mode_names(name: Seq<char>)
    ensures
        commands::named_mode("Normal"@) == Some(InverterMode::Normal),
        commands::named_mode("Eco"@) == Some(InverterMode::Eco),
        commands::named_mode("ForceCharge"@) == Some(InverterMode::ForceCharge),
        commands::named_mode("ForceDischarge"@) == Some(InverterMode::ForceDischarge),
        commands::named_mode("ExportLimit"@) == Some(InverterMode::ExportLimit),
        name != "Normal"@ && name != "Eco"@ && name != "ForceCharge"@ && name != "ForceDischarge"@
            && name != "ExportLimit"@ ==> commands::named_mode(name) is None
            && scenario::event_mode(name) == InverterMode::Normal,
        commands::named_mode(name) matches Some(m) ==> scenario::event_mode(name) == m,
{
    lemma_names();
}

/// Law: the weathers by their names.
pub proof fn law_weather_names(name: Seq<char>)
    ensures
        commands::named_weather("Clear"@) == Some(WeatherCondition::Clear),
        commands::named_weather("PartlyCloudy"@) == Some(WeatherCondition::PartlyCloudy),
        commands::named_weather("Overcast"@) == Some(WeatherCondition::Overcast),
        commands::named_weather("Rain"@) == Some(WeatherCondition::Rain),
        commands::named_weather("Storm"@) == Some(WeatherCondition::Storm),
        scenario::event_weather("clear"@) == WeatherCondition::Clear,
        scenario::event_weather("partlycloudy"@) == WeatherCondition::PartlyCloudy,
        scenario::event_weather("partly-cloudy"@) == WeatherCondition::PartlyCloudy,
        scenario::event_weather("partly_cloudy"@) == WeatherCondition::PartlyCloudy,
        scenario::event_weather("overcast"@) == WeatherCondition::Overcast,
        scenario::event_weather("rain"@) == WeatherCondition::Rain,
        scenario::event_weather("storm"@) == WeatherCondition::Storm,
        name != "partlycloudy"@ && name != "partly-cloudy"@ && name != "partly_cloudy"@ && name
            != "overcast"@ && name != "rain"@ && name != "storm"@ ==> scenario::event_weather(name)
            == WeatherCondition::Clear,
{
    lemma_names();
}

/// Law: what the list of events tells of each of them.
pub proof fn law_event_info(r: ScenarioEventInfo, t: ClockTime, e: ScenarioEvent)
    requires
        scenario::tells(r, t, e),
    ensures
        r.has_solar <==> e.solar is Some,
        r.has_load <==> e.load is Some,
        r.has_fault <==> e.fault is Some,
        r.has_expect <==> e.expect is Some,
        r.mode == e.mode,
        r.weather == e.weather,
        r.time@ == calendar::time_text(t.hour as int, t.minute as int, 0),
{
}

} // verus!
