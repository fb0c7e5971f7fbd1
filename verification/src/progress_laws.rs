//! What the authors of scenarios can rely on while one is read and runs.
use crate::calendar;
use crate::calendar::ClockTime;
use crate::scenario;
use crate::scenario::{
    Scenario, ScenarioDraft, ScenarioEvent, ScenarioInfo, ScenarioRun, StepOutcome,
};
use crate::state::{PlantState, Timestamp};
use vstd::prelude::*;

verus! {

/// The days that a scenario runs for: at least one.
pub open spec fn days(scenario: Scenario) -> int {
    if scenario.days >= 1 {
        scenario.days as int
    } else {
        1
    }
}

/// Whether the next event of a scenario comes at a moment.
pub open spec fn comes(run: ScenarioRun, scenario: Scenario, now: Timestamp) -> bool {
    &&& run.days_done < days(scenario)
    &&& run.next < scenario.events@.len()
    &&& ({
        let t = scenario.events@[run.next as int].0;
        now.hour * 60 + now.minute >= t.hour * 60 + t.minute
    })
    &&& match run.resting {
        Some(d) => !(d.0 == now.year && d.1 == now.month && d.2 == now.day),
        None => true,
    }
}

/// Law: an event comes once its time of day is reached, while days are left, and not on
/// the day on which the last event of a round came. It tells its index, its commands and
/// its verdict, and the scenario goes on to the next event, or to the next day.
pub proof fn law_step(
    run: &mut ScenarioRun,
    scenario: Scenario,
    s: &mut PlantState,
    r: StepOutcome,
)
    requires
        call_ensures(ScenarioRun::step, (run, &scenario, s), r),
        old(s).timestamp.minute <= 59,
        forall|i: int|
            0 <= i < scenario.events@.len() ==> (#[trigger] scenario.events@[i]).0.minute <= 59,
        old(run).days_done < u32::MAX,
    ensures
        r.event is Some <==> comes(*old(run), scenario, old(s).timestamp),
        r.event matches Some(i) ==> i == old(run).next,
        r.event is None ==> r.commands@.len() == 0 && r.verdict is None && !r.finished
            && *final(s) == *old(s) && *final(run) == *old(run),
        r.event is Some ==> ({
            let e = scenario.events@[old(run).next as int].1;
            let last = old(run).next + 1 >= scenario.events@.len();
            &&& r.commands@ == scenario::event_commands(e)
            &&& *final(s) == scenario::overridden(*old(s), e)
            &&& r.verdict is Some <==> e.expect is Some
            &&& e.expect is Some ==> scenario::verdict(r.verdict->0, e.expect->0@, *final(s))
            &&& !last ==> final(run).next == old(run).next + 1 && final(run).days_done
                == old(run).days_done && final(run).resting is None
            &&& last ==> final(run).next == 0 && final(run).days_done == old(run).days_done + 1
                && final(run).resting == Some(
                (old(s).timestamp.year, old(s).timestamp.month, old(s).timestamp.day),
            )
            &&& r.finished <==> final(run).days_done >= days(scenario)
        }),
{
    let i = old(run).next as int;
    assert(scenario.events@.len() == scenario.events.len());
    if 0 <= i < scenario.events@.len() {
        assert(scenario.events@[i].0.minute <= 59);
    }
}

/// Law: a scenario starts with its first event on its first day.
pub proof fn law_start(r: ScenarioRun)
    requires
        call_ensures(ScenarioRun::new, (), r),
    ensures
        r.next == 0,
        r.days_done == 0,
        r.resting is None,
{
}

/// Law: a scenario that is read has the days and the name that its mapping gives, one day
/// and no name otherwise, or fails with the reader's words.
pub proof fn law_scenario_fields(
    yaml: &str,
    plain: Result<ScenarioDraft, String>,
    named: Result<ScenarioDraft, String>,
)
    requires
        call_ensures(scenario::parse_scenario, (yaml,), plain),
        call_ensures(scenario::parse_named_scenario, (yaml,), named),
    ensures
        scenario::yaml_mapping(yaml@) matches Err(m) ==> (plain matches Err(e) && e@ == m) && (named
            matches Err(e) && e@ == m),
        scenario::yaml_mapping(yaml@) matches Ok(m) ==> plain is Ok && named is Ok && {
            &&& plain->Ok_0.name@ == "unnamed"@
            &&& !m.contains_key("name"@) ==> named->Ok_0.name@ == "unnamed"@
            &&& m.contains_key("name"@) && m["name"@].1 is Some ==> named->Ok_0.name@
                == m["name"@].1->0
            &&& m.contains_key("name"@) && m["name"@].1 is None ==> named->Ok_0.name@
                == "unnamed"@
            &&& plain->Ok_0.days == named->Ok_0.days
            &&& !m.contains_key("days"@) ==> named->Ok_0.days == 1
            &&& m.contains_key("days"@) && m["days"@].0 is None ==> named->Ok_0.days == 1
            &&& m.contains_key("days"@) && m["days"@].0 is Some ==> named->Ok_0.days
                == m["days"@].0->0 % 0x1_0000_0000
        },
{
}

/// Law: the events of a scenario that is read are those of its mapping whose keys are
/// times of day, and they come in the order of their times.
pub proof fn law_scenario_events(
    yaml: &str,
    r: Result<ScenarioDraft, String>,
    k: Seq<char>,
    i: int,
    j: int,
)
    requires
        call_ensures(scenario::parse_scenario, (yaml,), r),
        scenario::yaml_mapping(yaml@) is Ok,
    ensures
        ({
            let m = scenario::yaml_mapping(yaml@)->Ok_0;
            let events = r->Ok_0.events@;
            &&& m.contains_key(k) && calendar::clock_time(k) is Some ==> exists|n: int|
                0 <= n < events.len() && Some((#[trigger] events[n]).0) == calendar::clock_time(k)
                    && events[n].1@ == m[k].2
            &&& 0 <= i < events.len() ==> exists|key: Seq<char>| #[trigger]
                m.contains_key(key) && calendar::clock_time(key) == Some(events[i].0)
                    && m[key].2 == events[i].1@
            &&& 0 <= i < j < events.len() ==> events[i].0.hour * 60 + events[i].0.minute
                <= events[j].0.hour * 60 + events[j].0.minute
        }),
{
    let m = scenario::yaml_mapping(yaml@)->Ok_0;
    let events = r->Ok_0.events@;
    let keys = choose|keys: Seq<Seq<char>>| scenario::in_order(keys, m, events);
    assert(scenario::in_order(keys, m, events));
    if m.contains_key(k) && calendar::clock_time(k) is Some {
        assert(keys.contains(k));
        let n = choose|n: int| 0 <= n < keys.len() && keys[n] == k;
        assert(Some(events[n].0) == calendar::clock_time(keys[n]));
    }
    if 0 <= i < events.len() {
        assert(keys.contains(keys[i]));
        assert(Some(events[i].0) == calendar::clock_time(keys[i]));
        assert(m.contains_key(keys[i]));
    }
}

/// Law: a key is a time of day as hours and minutes.
pub proof fn law_clock_key(s: &str, r: Option<ClockTime>)
    requires
        call_ensures(calendar::parse_clock_time, (s,), r),
    ensures
        match calendar::parsed_time(s@, "%H:%M"@) {
            Some((hour, minute)) => r == Some(ClockTime { hour, minute }) && hour <= 23 && minute
                <= 59,
            None => r is None,
        },
{
}

/// Law: an event that could be read keeps its time; one that could not is dropped.
pub proof fn law_events_kept(
    times: Seq<(ClockTime, String)>,
    decoded: Seq<Option<ScenarioEvent>>,
    e: ScenarioEvent,
)
    requires
        decoded.len() < times.len(),
    ensures
        scenario::kept(times, Seq::empty()) == Seq::<(ClockTime, ScenarioEvent)>::empty(),
        scenario::kept(times, decoded.push(Some(e))) == scenario::kept(times, decoded).push(
            (times[decoded.len() as int].0, e),
        ),
        scenario::kept(times, decoded.push(None)) == scenario::kept(times, decoded),
{
    assert(decoded.push(Some(e)).drop_last() =~= decoded);
    assert(decoded.push(None).drop_last() =~= decoded);
}

/// Law: a draft that is completed keeps its name, its days and the events that could be
/// read.
pub proof fn law_completed(d: ScenarioDraft, decoded: Vec<Option<ScenarioEvent>>, r: Scenario)
    requires
        call_ensures(ScenarioDraft::complete, (d, decoded), r),
    ensures
        r.name@ == d.name@,
        r.days == d.days,
        r.events@ == scenario::kept(d.events@, decoded@),
{
}

/// Law: an event applied to a plant gives its commands and sets its powers.
pub proof fn law_applied(
    e: ScenarioEvent,
    s: &mut PlantState,
    r: Vec<crate::modbus::Command>,
)
    requires
        call_ensures(scenario::apply_event, (&e, s), r),
    ensures
        r@ == scenario::event_commands(e),
        e.solar matches Some(w) ==> final(s).solar.generation_w == w,
        e.solar is None ==> final(s).solar.generation_w == old(s).solar.generation_w,
        e.load matches Some(w) ==> final(s).load_demand_w == w,
        e.load is None ==> final(s).load_demand_w == old(s).load_demand_w,
        final(s).battery == old(s).battery,
        final(s).grid == old(s).grid,
        final(s).inverter == old(s).inverter,
        final(s).energy_totals == old(s).energy_totals,
{
}

/// Law: what is told of a scenario: its name, its days, and each event in its place.
pub proof fn law_scenario_info(scenario: Scenario, r: ScenarioInfo, i: int)
    requires
        call_ensures(scenario::load_scenario, (&scenario,), r),
        0 <= i < scenario.events@.len(),
    ensures
        r.name@ == scenario.name@,
        r.days == scenario.days,
        r.events@.len() == scenario.events@.len(),
        r.events@[i].time@ == calendar::time_text(
            scenario.events@[i].0.hour as int,
            scenario.events@[i].0.minute as int,
            0,
        ),
        r.events@[i].has_solar <==> scenario.events@[i].1.solar is Some,
        r.events@[i].has_load <==> scenario.events@[i].1.load is Some,
        r.events@[i].has_fault <==> scenario.events@[i].1.fault is Some,
        r.events@[i].has_expect <==> scenario.events@[i].1.expect is Some,
        r.events@[i].mode == scenario.events@[i].1.mode,
        r.events@[i].weather == scenario.events@[i].1.weather,
{
    assert(scenario::tells(r.events@[i], scenario.events@[i].0, scenario.events@[i].1));
}

} // verus!
