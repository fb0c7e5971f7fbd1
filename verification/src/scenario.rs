//! Scenarios: timed events and assertions, written in YAML.
//!
//! A scenario maps times of day to events. The keys `name` and `days` stand beside
//! them; any other key that is no time of day is ignored. [`parse_scenario`] and
//! [`parse_named_scenario`] read the mapping and put the events in order;
//! [`ScenarioDraft::complete`] takes what each event's own text decodes to.
use crate::calendar;
use crate::calendar::{display_time, earlier, has_reached, parse_clock_time, ClockTime};
use crate::commands;
use crate::commands::mode_named;
use crate::fixed;
use crate::fixed::{positive_part_of, Fixed, MAX_MICROS};
use crate::modbus;
use crate::modbus::Command;
use crate::numerals;
use crate::numerals::{append_micros, append_shortest};
use crate::state;
use crate::state::{
    has_fault, InverterMode, PlantState, SolarState, Timestamp, WeatherCondition,
};
use crate::text;
use crate::text::{joined, same};
use vstd::prelude::*;
use vstd::string::StringExecFns;

verus! {

/// A value that an assertion expects.
#[derive(Clone, Debug)]
pub enum Expected {
    Number(Fixed),
    Bool(bool),
    Text(String),
    /// A value that no assertion takes.
    Other,
}

/// An assertion: what is expected under a key.
#[derive(Clone, Debug)]
pub struct Expectation {
    pub key: String,
    pub value: Expected,
}

/// A single event of a scenario.
#[derive(Clone, Debug)]
pub struct ScenarioEvent {
    pub solar: Option<Fixed>,
    pub load: Option<Fixed>,
    pub fault: Option<String>,
    pub clear_fault: Option<String>,
    pub mode: Option<String>,
    pub export_limit: Option<Fixed>,
    pub weather: Option<String>,
    pub expect: Option<Vec<Expectation>>,
    pub days: Option<u32>,
}

/// A parsed scenario.
#[derive(Clone, Debug)]
pub struct Scenario {
    pub name: String,
    /// Events in the order of their times.
    pub events: Vec<(ClockTime, ScenarioEvent)>,
    /// Number of days to run. The events repeat daily.
    pub days: u32,
}

/// A scenario whose events are still text.
#[derive(Clone, Debug)]
pub struct ScenarioDraft {
    pub name: String,
    /// Each event's time and its own YAML, in the order of the times.
    pub events: Vec<(ClockTime, String)>,
    pub days: u32,
}

/// One pair of a YAML mapping.
#[derive(Clone, Debug)]
pub struct YamlEntry {
    pub key: String,
    /// The value, where it is a whole number that is not negative.
    pub number: Option<u64>,
    /// The value, where it is a string.
    pub text: Option<String>,
    /// The value as YAML of its own.
    pub body: String,
}

/// The characters of a string that may be missing.
pub open spec fn text_view(s: Option<String>) -> Option<Seq<char>> {
    match s {
        Some(x) => Some(x@),
        None => None,
    }
}

/// The value of a pair: as a whole number, as a string, as YAML.
pub open spec fn value_view(e: YamlEntry) -> (Option<u64>, Option<Seq<char>>, Seq<char>) {
    (e.number, text_view(e.text), e.body@)
}

/// Whether `v` lists the pairs of the mapping `m`, each once.
pub open spec fn lists(
    v: Seq<YamlEntry>,
    m: Map<Seq<char>, (Option<u64>, Option<Seq<char>>, Seq<char>)>,
) -> bool {
    &&& forall|i: int|
        0 <= i < v.len() ==> m.contains_key((#[trigger] v[i]).key@) && m[v[i].key@] == value_view(
            v[i],
        )
    &&& forall|k: Seq<char>| #[trigger]
        m.contains_key(k) ==> exists|i: int| 0 <= i < v.len() && (#[trigger] v[i]).key@ == k
    &&& distinct_keys(v)
}

/// Whether no key occurs twice.
pub open spec fn distinct_keys(v: Seq<YamlEntry>) -> bool {
    forall|i: int, j: int|
        0 <= i < j < v.len() ==> (#[trigger] v[i]).key@ != (#[trigger] v[j]).key@
}

/// The mapping that the pairs make up.
pub open spec fn mapping_of(
    v: Seq<YamlEntry>,
) -> Map<Seq<char>, (Option<u64>, Option<Seq<char>>, Seq<char>)> {
    Map::new(
        |k: Seq<char>| exists|i: int| 0 <= i < v.len() && (#[trigger] v[i]).key@ == k,
        |k: Seq<char>| value_view(v[choose|i: int| 0 <= i < v.len() && (#[trigger] v[i]).key@ == k]),
    )
}

/// Pairs with distinct keys list the mapping that they make up, and no other.
proof fn lemma_listed(
    v: Seq<YamlEntry>,
    m: Map<Seq<char>, (Option<u64>, Option<Seq<char>>, Seq<char>)>,
)
    ensures
        distinct_keys(v) ==> lists(v, mapping_of(v)),
        lists(v, m) ==> distinct_keys(v) && m == mapping_of(v),
{
    let made = mapping_of(v);
    if distinct_keys(v) {
        assert forall|i: int| 0 <= i < v.len() implies made.contains_key((#[trigger] v[i]).key@)
            && made[v[i].key@] == value_view(v[i]) by {
            let k = v[i].key@;
            let j = choose|j: int| 0 <= j < v.len() && (#[trigger] v[j]).key@ == k;
            assert(0 <= j < v.len() && v[j].key@ == k);
            assert(j == i);
        }
    }
    if lists(v, m) {
        assert forall|k: Seq<char>| #[trigger] m.contains_key(k) <==> made.contains_key(k) by {
            if made.contains_key(k) {
                let j = choose|j: int| 0 <= j < v.len() && (#[trigger] v[j]).key@ == k;
                assert(m.contains_key(v[j].key@));
            }
        }
        assert forall|k: Seq<char>| m.contains_key(k) implies m[k] == made[k] by {
            let j = choose|j: int| 0 <= j < v.len() && (#[trigger] v[j]).key@ == k;
            assert(0 <= j < v.len() && v[j].key@ == k);
        }
        assert(m =~= made);
    }
}

/// What `serde_yaml` reads from `yaml` as a mapping of string keys, with each value
/// as a whole number, as a string and as YAML of its own; or the text of its error.
pub uninterp spec fn yaml_mapping(yaml: Seq<char>) -> Result<
    Map<Seq<char>, (Option<u64>, Option<Seq<char>>, Seq<char>)>,
    Seq<char>,
>;

/// `serde_yaml::from_str` reads a mapping of string keys into a `HashMap`. Each
/// value is handed out by `Value::as_u64`, by `Value::as_str` and by
/// `serde_yaml::to_string`, a failure by its text. What is read depends on the YAML
/// alone and is left to the name; the order in which the pairs come is left open.
#[verifier::external_body]
fn read_mapping(yaml: &str) -> (r: Result<Vec<YamlEntry>, String>)
    ensures
        match (r, yaml_mapping(yaml@)) {
            (Ok(v), Ok(m)) => lists(v@, m),
            (Err(e), Err(t)) => e@ == t,
            _ => false,
        },
{
    match serde_yaml::from_str::<std::collections::HashMap<String, serde_yaml::Value>>(yaml) {
        Ok(m) => Ok(m.into_iter().map(|(key, v)| YamlEntry {
            key,
            number: v.as_u64(),
            text: v.as_str().map(|t| t.to_owned()),
            body: serde_yaml::to_string(&v).unwrap_or_default(),
        }).collect()),
        Err(e) => Err(e.to_string()),
    }
}

/// Whether `keys` holds the keys of `m` that are times of day, in an order in which
/// the times do not go back, and `events` the events under them.
pub open spec fn in_order(
    keys: Seq<Seq<char>>,
    m: Map<Seq<char>, (Option<u64>, Option<Seq<char>>, Seq<char>)>,
    events: Seq<(ClockTime, String)>,
) -> bool {
    &&& keys.no_duplicates()
    &&& forall|k: Seq<char>| #[trigger]
        keys.contains(k) <==> m.contains_key(k) && calendar::clock_time(k) is Some
    &&& events.len() == keys.len()
    &&& forall|i: int|
        0 <= i < keys.len() ==> Some((#[trigger] events[i]).0) == calendar::clock_time(keys[i])
            && events[i].1@ == m[keys[i]].2
    &&& forall|i: int| 0 <= i < events.len() ==> calendar::on_clock((#[trigger] events[i]).0)
    &&& times_ascend(events)
}

/// Whether the times do not go back.
pub open spec fn times_ascend(events: Seq<(ClockTime, String)>) -> bool {
    forall|i: int, j: int|
        0 <= i < j < events.len() ==> calendar::minutes_of((#[trigger] events[i]).0)
            <= calendar::minutes_of((#[trigger] events[j]).0)
}

/// Whether `events` are the events of `m`, in the order of their times. Events with
/// the same time may come in either order.
pub open spec fn holds_events(
    m: Map<Seq<char>, (Option<u64>, Option<Seq<char>>, Seq<char>)>,
    events: Seq<(ClockTime, String)>,
) -> bool {
    exists|keys: Seq<Seq<char>>| in_order(keys, m, events)
}

/// The number of days that the mapping asks for, in thirty-two bits; one if it
/// asks for none.
pub open spec fn asked_days(
    m: Map<Seq<char>, (Option<u64>, Option<Seq<char>>, Seq<char>)>,
) -> int {
    if m.contains_key("days"@) {
        match m["days"@].0 {
            Some(n) => n as int % 0x1_0000_0000,
            None => 1,
        }
    } else {
        1
    }
}

/// The name that the mapping gives, or `unnamed`.
pub open spec fn given_name(
    m: Map<Seq<char>, (Option<u64>, Option<Seq<char>>, Seq<char>)>,
) -> Seq<char> {
    if m.contains_key("name"@) {
        match m["name"@].1 {
            Some(t) => t,
            None => "unnamed"@,
        }
    } else {
        "unnamed"@
    }
}

/// The pair with a key.
fn entry_under<'a>(v: &'a Vec<YamlEntry>, key: &str) -> (r: Option<&'a YamlEntry>)
    ensures
        match r {
            Some(e) => e.key@ == key@ && exists|i: int| 0 <= i < v@.len() && v@[i] == *e,
            None => forall|i: int| 0 <= i < v@.len() ==> (#[trigger] v@[i]).key@ != key@,
        },
{
    let mut i: usize = 0;
    while i < v.len()
        invariant
            i <= v@.len(),
            forall|j: int| 0 <= j < i ==> (#[trigger] v@[j]).key@ != key@,
        decreases v@.len() - i,
    {
        if same(v[i].key.as_str(), key) {
            assert(v@[i as int].key@ == key@);
            return Some(&v[i]);
        }
        i += 1;
    }
    None
}

/// The number of days that the pairs ask for.
fn days_in(
    v: &Vec<YamlEntry>,
    Ghost(m): Ghost<Map<Seq<char>, (Option<u64>, Option<Seq<char>>, Seq<char>)>>,
) -> (r: u32)
    requires
        lists(v@, m),
    ensures
        r == asked_days(m),
{
    match entry_under(v, "days") {
        Some(e) => match e.number {
            Some(n) => {
                assert(n as u32 == n % 0x1_0000_0000) by (bit_vector);
                n as u32
            },
            None => 1,
        },
        None => 1,
    }
}

/// The events of the pairs, in the order of their times.
fn events_in(
    v: &Vec<YamlEntry>,
    Ghost(m): Ghost<Map<Seq<char>, (Option<u64>, Option<Seq<char>>, Seq<char>)>>,
) -> (r: Vec<(ClockTime, String)>)
    requires
        lists(v@, m),
    ensures
        holds_events(m, r@),
{
    let mut out: Vec<(ClockTime, String)> = Vec::new();
    let ghost mut keys: Seq<Seq<char>> = Seq::empty();
    let mut i: usize = 0;
    while i < v.len()
        invariant
            i <= v@.len(),
            lists(v@, m),
            keys.no_duplicates(),
            forall|k: Seq<char>| #[trigger]
                keys.contains(k) ==> calendar::clock_time(k) is Some && exists|j: int|
                    0 <= j < i && (#[trigger] v@[j]).key@ == k,
            forall|j: int|
                0 <= j < i && calendar::clock_time((#[trigger] v@[j]).key@) is Some
                    ==> keys.contains(v@[j].key@),
            out@.len() == keys.len(),
            forall|j: int|
                0 <= j < keys.len() ==> Some((#[trigger] out@[j]).0) == calendar::clock_time(
                    keys[j],
                ) && out@[j].1@ == m[keys[j]].2,
            forall|j: int| 0 <= j < out@.len() ==> calendar::on_clock((#[trigger] out@[j]).0),
            times_ascend(out@),
        decreases v@.len() - i,
    {
        let ghost key = v@[i as int].key@;
        if let Some(t) = parse_clock_time(v[i].key.as_str()) {
            let mut at: usize = out.len();
            while at > 0 && earlier(t, out[at - 1].0)
                invariant
                    at <= out@.len(),
                    calendar::on_clock(t),
                    forall|j: int| 0 <= j < out@.len() ==> calendar::on_clock((#[trigger] out@[j]).0),
                    times_ascend(out@),
                    forall|j: int|
                        at <= j < out@.len() ==> calendar::minutes_of(t) < calendar::minutes_of(
                            (#[trigger] out@[j]).0,
                        ),
                decreases at,
            {
                at -= 1;
            }
            let ghost old_out = out@;
            let ghost old_keys = keys;
            out.insert(at, (t, v[i].body.clone()));
            proof {
                keys = keys.insert(at as int, key);
                assert(!old_keys.contains(key));
                assert forall|k: Seq<char>| #[trigger] keys.contains(k) <==> old_keys.contains(k)
                    || k == key by {
                    if keys.contains(k) {
                        let j = choose|j: int| 0 <= j < keys.len() && keys[j] == k;
                        if j < at {
                            assert(old_keys[j] == k);
                        } else if j > at {
                            assert(old_keys[j - 1] == k);
                        }
                    }
                    if old_keys.contains(k) {
                        let j = choose|j: int| 0 <= j < old_keys.len() && old_keys[j] == k;
                        if j < at {
                            assert(keys[j] == k);
                        } else {
                            assert(keys[j + 1] == k);
                        }
                    }
                    assert(keys[at as int] == key);
                }
                assert forall|a: int, b: int|
                    0 <= a < keys.len() && 0 <= b < keys.len() && a != b implies keys[a]
                    != keys[b] by {
                    let a0 = if a < at {
                        a
                    } else {
                        a - 1
                    };
                    let b0 = if b < at {
                        b
                    } else {
                        b - 1
                    };
                    if a != at {
                        assert(keys[a] == old_keys[a0]);
                        assert(old_keys.contains(old_keys[a0]));
                    }
                    if b != at {
                        assert(keys[b] == old_keys[b0]);
                        assert(old_keys.contains(old_keys[b0]));
                    }
                }
                assert forall|j: int| 0 <= j < keys.len() implies Some((#[trigger] out@[j]).0)
                    == calendar::clock_time(keys[j]) && out@[j].1@ == m[keys[j]].2 by {
                    if j < at {
                        assert(out@[j] == old_out[j]);
                    } else if j > at {
                        assert(out@[j] == old_out[j - 1]);
                    }
                }
                assert forall|a: int, b: int| 0 <= a < b < out@.len() implies calendar::minutes_of(
                    (#[trigger] out@[a]).0,
                ) <= calendar::minutes_of((#[trigger] out@[b]).0) by {
                    if a < at && b == at {
                        assert(out@[a] == old_out[a]);
                        assert(old_out[at - 1].0 == old_out[at - 1].0);
                    } else if a == at {
                        assert(out@[b] == old_out[b - 1]);
                    } else if b < at {
                        assert(out@[a] == old_out[a]);
                        assert(out@[b] == old_out[b]);
                    } else if a < at {
                        assert(out@[a] == old_out[a]);
                        assert(out@[b] == old_out[b - 1]);
                    } else {
                        assert(out@[a] == old_out[a - 1]);
                        assert(out@[b] == old_out[b - 1]);
                    }
                }
                assert forall|j: int| 0 <= j < out@.len() implies calendar::on_clock(
                    (#[trigger] out@[j]).0,
                ) by {
                    if j < at {
                        assert(out@[j] == old_out[j]);
                    } else if j > at {
                        assert(out@[j] == old_out[j - 1]);
                    }
                }
            }
        }
        i += 1;
    }
    assert(in_order(keys, m, out@));
    out
}

/// Whether `d` is the draft of the mapping `m`, under its own name where `named`.
pub open spec fn drafted(
    d: ScenarioDraft,
    m: Map<Seq<char>, (Option<u64>, Option<Seq<char>>, Seq<char>)>,
    named: bool,
) -> bool {
    &&& d.name@ == if named {
        given_name(m)
    } else {
        "unnamed"@
    }
    &&& d.days == asked_days(m)
    &&& holds_events(m, d.events@)
}

/// Whether `r` is the draft that the YAML gives, under its own name where `named`
/// says so, or the error of reading it.
pub open spec fn drafts(r: Result<ScenarioDraft, String>, yaml: Seq<char>, named: bool) -> bool {
    match (r, yaml_mapping(yaml)) {
        (Ok(d), Ok(m)) => drafted(d, m, named),
        (Err(e), Err(t)) => e@ == t,
        _ => false,
    }
}

/// The draft of the pairs of a mapping, under its own name where `named`.
pub fn draft_of(v: &Vec<YamlEntry>, named: bool) -> (r: ScenarioDraft)
    requires
        distinct_keys(v@),
    ensures
        drafted(r, mapping_of(v@), named),
{
    let ghost m = mapping_of(v@);
    proof {
        lemma_listed(v@, m);
    }
    let name = match entry_under(v, "name") {
        Some(e) => match &e.text {
            Some(t) => if named {
                t.clone()
            } else {
                "unnamed".to_owned()
            },
            None => "unnamed".to_owned(),
        },
        None => "unnamed".to_owned(),
    };
    let days: u32 = days_in(v, Ghost(m));
    ScenarioDraft { name, events: events_in(v, Ghost(m)), days }
}

/// Reads a scenario, without a name.
pub fn parse_scenario(yaml: &str) -> (r: Result<ScenarioDraft, String>)
    ensures
        drafts(r, yaml@, false),
{
    match read_mapping(yaml) {
        Ok(v) => {
            proof {
                lemma_listed(v@, yaml_mapping(yaml@)->Ok_0);
            }
            Ok(draft_of(&v, false))
        },
        Err(e) => Err(e),
    }
}

/// Reads a scenario, with its name if it has one.
pub fn parse_named_scenario(yaml: &str) -> (r: Result<ScenarioDraft, String>)
    ensures
        drafts(r, yaml@, true),
{
    match read_mapping(yaml) {
        Ok(v) => {
            proof {
                lemma_listed(v@, yaml_mapping(yaml@)->Ok_0);
            }
            Ok(draft_of(&v, true))
        },
        Err(e) => Err(e),
    }
}

/// The events that decoded, each with its time, in the order of `times`.
pub open spec fn kept(
    times: Seq<(ClockTime, String)>,
    decoded: Seq<Option<ScenarioEvent>>,
) -> Seq<(ClockTime, ScenarioEvent)>
    decreases decoded.len(),
{
    if decoded.len() == 0 {
        Seq::empty()
    } else {
        let before = kept(times, decoded.drop_last());
        match decoded.last() {
            Some(e) => before.push((times[decoded.len() - 1].0, e)),
            None => before,
        }
    }
}

/// Whether the events are in the order of their times, and each time is one of the
/// clock.
pub open spec fn well_timed(events: Seq<(ClockTime, ScenarioEvent)>) -> bool {
    &&& forall|i: int| 0 <= i < events.len() ==> calendar::on_clock((#[trigger] events[i]).0)
    &&& forall|i: int, j: int|
        0 <= i < j < events.len() ==> calendar::minutes_of((#[trigger] events[i]).0)
            <= calendar::minutes_of((#[trigger] events[j]).0)
}

/// The events kept so far are in order, and none is later than the last one seen.
proof fn lemma_kept_in_order(times: Seq<(ClockTime, String)>, decoded: Seq<Option<ScenarioEvent>>)
    requires
        times_ascend(times),
        forall|i: int| 0 <= i < times.len() ==> calendar::on_clock((#[trigger] times[i]).0),
        decoded.len() <= times.len(),
    ensures
        well_timed(kept(times, decoded)),
        decoded.len() > 0 ==> forall|i: int|
            0 <= i < kept(times, decoded).len() ==> calendar::minutes_of(
                (#[trigger] kept(times, decoded)[i]).0,
            ) <= calendar::minutes_of(times[decoded.len() - 1].0),
    decreases decoded.len(),
{
    if decoded.len() > 0 {
        lemma_kept_in_order(times, decoded.drop_last());
        if decoded.len() > 1 {
            assert(calendar::minutes_of(times[decoded.len() - 2].0) <= calendar::minutes_of(
                times[decoded.len() - 1].0,
            ));
        }
        assert(calendar::on_clock(times[decoded.len() - 1].0));
    }
}

/// Law: the events of a scenario stand in the order of their times, whichever of a
/// draft's events decode.
pub proof fn law_events_in_order(
    m: Map<Seq<char>, (Option<u64>, Option<Seq<char>>, Seq<char>)>,
    times: Seq<(ClockTime, String)>,
    decoded: Seq<Option<ScenarioEvent>>,
)
    requires
        holds_events(m, times),
        decoded.len() == times.len(),
    ensures
        well_timed(kept(times, decoded)),
{
    lemma_kept_in_order(times, decoded);
}

/// The events that decode by `decode`, each with its time, in the order of `times`.
pub open spec fn decoded_events(
    times: Seq<(ClockTime, Seq<char>)>,
    decode: spec_fn(Seq<char>) -> Option<ScenarioEvent>,
) -> Seq<(ClockTime, ScenarioEvent)>
    decreases times.len(),
{
    if times.len() == 0 {
        Seq::empty()
    } else {
        let before = decoded_events(times.drop_last(), decode);
        match decode(times.last().1) {
            Some(e) => before.push((times.last().0, e)),
            None => before,
        }
    }
}

/// Each time with the characters of its event.
pub open spec fn event_views(events: Seq<(ClockTime, String)>) -> Seq<(ClockTime, Seq<char>)> {
    events.map_values(|e: (ClockTime, String)| (e.0, e.1@))
}

/// Decoding event by event keeps what decodes.
proof fn lemma_kept_decoded(
    times: Seq<(ClockTime, String)>,
    decoded: Seq<Option<ScenarioEvent>>,
    decode: spec_fn(Seq<char>) -> Option<ScenarioEvent>,
)
    requires
        decoded.len() <= times.len(),
        forall|i: int| 0 <= i < decoded.len() ==> #[trigger] decoded[i] == decode(times[i].1@),
    ensures
        kept(times, decoded) == decoded_events(
            event_views(times.take(decoded.len() as int)),
            decode,
        ),
    decreases decoded.len(),
{
    let n = decoded.len() as int;
    let v = event_views(times.take(n));
    if n > 0 {
        lemma_kept_decoded(times, decoded.drop_last(), decode);
        assert(v.drop_last() =~= event_views(times.take(n - 1)));
        assert(v.last() == (times[n - 1].0, times[n - 1].1@));
        assert(decoded.last() == decoded[n - 1]);
    }
}

/// Decoding goes part by part.
proof fn lemma_decoded_parts(
    a: Seq<(ClockTime, Seq<char>)>,
    b: Seq<(ClockTime, Seq<char>)>,
    decode: spec_fn(Seq<char>) -> Option<ScenarioEvent>,
)
    ensures
        decoded_events(a + b, decode) == decoded_events(a, decode) + decoded_events(b, decode),
    decreases b.len(),
{
    if b.len() == 0 {
        assert(a + b =~= a);
        assert(decoded_events(a, decode) + Seq::empty() =~= decoded_events(a, decode));
    } else {
        assert((a + b).drop_last() =~= a + b.drop_last());
        assert((a + b).last() == b.last());
        lemma_decoded_parts(a, b.drop_last(), decode);
        if let Some(e) = decode(b.last().1) {
            assert((decoded_events(a, decode) + decoded_events(b.drop_last(), decode)).push(
                (b.last().0, e),
            ) =~= decoded_events(a, decode) + decoded_events(b.drop_last(), decode).push(
                (b.last().0, e),
            ));
        }
    }
}

/// The same events in another order decode to the same events in another order.
proof fn lemma_decoded_permuted(
    a: Seq<(ClockTime, Seq<char>)>,
    b: Seq<(ClockTime, Seq<char>)>,
    decode: spec_fn(Seq<char>) -> Option<ScenarioEvent>,
)
    requires
        a.to_multiset() == b.to_multiset(),
    ensures
        decoded_events(a, decode).to_multiset() == decoded_events(b, decode).to_multiset(),
    decreases a.len(),
{
    broadcast use vstd::seq_lib::group_to_multiset_ensures;

    vstd::seq_lib::to_multiset_len(a);
    vstd::seq_lib::to_multiset_len(b);
    if a.len() > 0 {
        let x = a.last();
        assert(a.contains(x)) by {
            assert(a[a.len() - 1] == x);
        }
        assert(a.to_multiset().count(x) > 0);
        assert(b.contains(x));
        let j = choose|j: int| 0 <= j < b.len() && b[j] == x;
        let rest = b.remove(j);
        assert(a =~= a.drop_last().push(x));
        assert(a.to_multiset() =~= a.drop_last().to_multiset().insert(x));
        assert(rest.to_multiset() =~= b.to_multiset().remove(x));
        assert(a.drop_last().to_multiset() =~= rest.to_multiset());
        lemma_decoded_permuted(a.drop_last(), rest, decode);
        let head = b.take(j);
        let tail = b.skip(j + 1);
        assert(rest =~= head + tail);
        assert(b =~= head.push(x) + tail);
        lemma_decoded_parts(head, tail, decode);
        lemma_decoded_parts(head.push(x), tail, decode);
        assert(head.push(x).drop_last() =~= head);
        let p = decoded_events(head, decode);
        let q = decoded_events(tail, decode);
        vstd::seq_lib::lemma_multiset_commutative(p, q);
        if let Some(e) = decode(x.1) {
            vstd::seq_lib::lemma_multiset_commutative(p.push((x.0, e)), q);
            assert((p.push((x.0, e)) + q).to_multiset() =~= (p + q).to_multiset().insert((x.0, e)));
        }
    }
}

/// Two orders of the events of one mapping hold the same events.
proof fn lemma_orders_agree(
    m: Map<Seq<char>, (Option<u64>, Option<Seq<char>>, Seq<char>)>,
    a: Seq<(ClockTime, String)>,
    b: Seq<(ClockTime, String)>,
)
    requires
        holds_events(m, a),
        holds_events(m, b),
    ensures
        event_views(a).to_multiset() == event_views(b).to_multiset(),
{
    let ka = choose|keys: Seq<Seq<char>>| in_order(keys, m, a);
    let kb = choose|keys: Seq<Seq<char>>| in_order(keys, m, b);
    let under = |k: Seq<char>| (calendar::clock_time(k)->0, m[k].2);
    assert(event_views(a) =~= ka.map_values(under)) by {
        assert forall|i: int| 0 <= i < a.len() implies event_views(a)[i] == under(ka[i]) by {
            assert(Some(a[i].0) == calendar::clock_time(ka[i]));
        }
    }
    assert(event_views(b) =~= kb.map_values(under)) by {
        assert forall|i: int| 0 <= i < b.len() implies event_views(b)[i] == under(kb[i]) by {
            assert(Some(b[i].0) == calendar::clock_time(kb[i]));
        }
    }
    assert(ka.to_multiset() =~= kb.to_multiset()) by {
        broadcast use vstd::seq_lib::group_to_multiset_ensures;

        ka.lemma_multiset_has_no_duplicates();
        kb.lemma_multiset_has_no_duplicates();
        assert forall|k: Seq<char>| ka.to_multiset().count(k) == kb.to_multiset().count(k) by {
            assert(ka.contains(k) <==> kb.contains(k));
            assert(ka.contains(k) <==> ka.to_multiset().count(k) > 0);
            assert(kb.contains(k) <==> kb.to_multiset().count(k) > 0);
            if ka.contains(k) {
                assert(ka.to_multiset().contains(k) && kb.to_multiset().contains(k));
            }
        }
    }
    lemma_mapped_permuted(ka, kb, under);
}

/// A permuted sequence maps to a permuted sequence.
proof fn lemma_mapped_permuted(
    a: Seq<Seq<char>>,
    b: Seq<Seq<char>>,
    f: spec_fn(Seq<char>) -> (ClockTime, Seq<char>),
)
    requires
        a.to_multiset() == b.to_multiset(),
    ensures
        a.map_values(f).to_multiset() == b.map_values(f).to_multiset(),
    decreases a.len(),
{
    broadcast use vstd::seq_lib::group_to_multiset_ensures;

    vstd::seq_lib::to_multiset_len(a);
    vstd::seq_lib::to_multiset_len(b);
    if a.len() == 0 {
        assert(a.map_values(f) =~= b.map_values(f));
    } else {
        let x = a.last();
        assert(a.contains(x)) by {
            assert(a[a.len() - 1] == x);
        }
        assert(a.to_multiset().count(x) > 0);
        assert(b.contains(x));
        let j = choose|j: int| 0 <= j < b.len() && b[j] == x;
        assert(a =~= a.drop_last().push(x));
        assert(a.to_multiset() =~= a.drop_last().to_multiset().insert(x));
        assert(b.remove(j).to_multiset() =~= b.to_multiset().remove(x));
        assert(a.drop_last().to_multiset() =~= b.remove(j).to_multiset());
        lemma_mapped_permuted(a.drop_last(), b.remove(j), f);
        assert(a.map_values(f) =~= a.drop_last().map_values(f).push(f(x)));
        assert(b.remove(j).map_values(f) =~= b.map_values(f).remove(j));
        assert(b.map_values(f)[j] == f(x));
        let mb = b.map_values(f);
        assert(mb.contains(f(x)));
        assert(mb.to_multiset().count(f(x)) > 0);
        assert(mb.to_multiset() =~= mb.remove(j).to_multiset().insert(f(x)));
    }
}

/// Law: reading a text with its name and without succeeds on the same texts and gives
/// the same days and the same events up to the order of those at one time, each in the
/// order of the times; only the name differs.
pub proof fn law_readings_agree(
    yaml: Seq<char>,
    named: Result<ScenarioDraft, String>,
    plain: Result<ScenarioDraft, String>,
)
    requires
        drafts(named, yaml, true),
        drafts(plain, yaml, false),
    ensures
        named is Ok <==> plain is Ok,
        match (named, plain) {
            (Ok(n), Ok(p)) => {
                &&& n.days == p.days
                &&& p.name@ == "unnamed"@
                &&& n.name@ == given_name(yaml_mapping(yaml)->Ok_0)
                &&& event_views(n.events@).to_multiset() == event_views(p.events@).to_multiset()
                &&& times_ascend(n.events@)
                &&& times_ascend(p.events@)
            },
            (Err(e), Err(f)) => e@ == f@,
            _ => false,
        },
{
    if let (Ok(n), Ok(p)) = (named, plain) {
        lemma_orders_agree(yaml_mapping(yaml)->Ok_0, n.events@, p.events@);
    }
}

/// Law: whichever of the two readings is completed, the same events come out, up to
/// the order of those at one time, where an event's text decides what it decodes to.
pub proof fn law_completed_readings_agree(
    yaml: Seq<char>,
    named: ScenarioDraft,
    plain: ScenarioDraft,
    decode: spec_fn(Seq<char>) -> Option<ScenarioEvent>,
    decoded_named: Seq<Option<ScenarioEvent>>,
    decoded_plain: Seq<Option<ScenarioEvent>>,
)
    requires
        drafts(Ok(named), yaml, true),
        drafts(Ok(plain), yaml, false),
        decoded_named.len() == named.events@.len(),
        decoded_plain.len() == plain.events@.len(),
        forall|i: int|
            0 <= i < decoded_named.len() ==> #[trigger] decoded_named[i] == decode(
                named.events@[i].1@,
            ),
        forall|i: int|
            0 <= i < decoded_plain.len() ==> #[trigger] decoded_plain[i] == decode(
                plain.events@[i].1@,
            ),
    ensures
        kept(named.events@, decoded_named).to_multiset() == kept(
            plain.events@,
            decoded_plain,
        ).to_multiset(),
        well_timed(kept(named.events@, decoded_named)),
        well_timed(kept(plain.events@, decoded_plain)),
{
    let m = yaml_mapping(yaml)->Ok_0;
    lemma_orders_agree(m, named.events@, plain.events@);
    lemma_kept_decoded(named.events@, decoded_named, decode);
    lemma_kept_decoded(plain.events@, decoded_plain, decode);
    assert(named.events@.take(decoded_named.len() as int) =~= named.events@);
    assert(plain.events@.take(decoded_plain.len() as int) =~= plain.events@);
    lemma_decoded_permuted(event_views(named.events@), event_views(plain.events@), decode);
    law_events_in_order(m, named.events@, decoded_named);
    law_events_in_order(m, plain.events@, decoded_plain);
}

impl ScenarioDraft {
    /// The scenario with the events that decoded; an event that did not is dropped.
    pub fn complete(self, decoded: Vec<Option<ScenarioEvent>>) -> (r: Scenario)
        requires
            decoded@.len() == self.events@.len(),
        ensures
            r.name@ == self.name@,
            r.days == self.days,
            r.events@ == kept(self.events@, decoded@),
    {
        let mut events: Vec<(ClockTime, ScenarioEvent)> = Vec::new();
        let n: usize = self.events.len();
        let mut i: usize = 0;
        for d in it: decoded
            invariant
                n == self.events@.len(),
                it.seq() == decoded@,
                i == it.index(),
                decoded@.len() == self.events@.len(),
                events@ == kept(self.events@, decoded@.take(it.index())),
        {
            assert(decoded@.take(it.index() + 1).drop_last() =~= decoded@.take(it.index()));
            assert(decoded@.take(it.index() + 1).last() == d);
            if let Some(e) = d {
                events.push((self.events[i].0, e));
            }
            i += 1;
        }
        assert(decoded@.take(decoded@.len() as int) =~= decoded@);
        Scenario { name: self.name, events, days: self.days }
    }
}

// ---------------------------------------------------------------------------
// Running
// ---------------------------------------------------------------------------

/// What `str::to_lowercase` gives.
pub uninterp spec fn lowercase(s: Seq<char>) -> Seq<char>;

/// `str::to_lowercase`: of an ASCII string, the string with its letters in lower
/// case; of another, what Unicode says, which is left to the name.
#[verifier::external_body]
fn lowercase_of(s: &str) -> (r: String)
    ensures
        r@ == lowercase(s@),
        (forall|i: int| 0 <= i < s@.len() ==> (#[trigger] s@[i]) as u32 <= 127) ==> r@
            == text::lowered(s@),
{
    s.to_lowercase()
}

/// The weather that an event names, from the name in lower case.
pub open spec fn event_weather(lowered: Seq<char>) -> WeatherCondition {
    if lowered == "partlycloudy"@ || lowered == "partly-cloudy"@ || lowered == "partly_cloudy"@ {
        WeatherCondition::PartlyCloudy
    } else if lowered == "overcast"@ {
        WeatherCondition::Overcast
    } else if lowered == "rain"@ {
        WeatherCondition::Rain
    } else if lowered == "storm"@ {
        WeatherCondition::Storm
    } else {
        WeatherCondition::Clear
    }
}

/// The weather that an event names, from the name in lower case.
pub fn event_weather_of(lowered: &str) -> (r: WeatherCondition)
    ensures
        r == event_weather(lowered@),
{
    if same(lowered, "partlycloudy") || same(lowered, "partly-cloudy") || same(
        lowered,
        "partly_cloudy",
    ) {
        WeatherCondition::PartlyCloudy
    } else if same(lowered, "overcast") {
        WeatherCondition::Overcast
    } else if same(lowered, "rain") {
        WeatherCondition::Rain
    } else if same(lowered, "storm") {
        WeatherCondition::Storm
    } else {
        WeatherCondition::Clear
    }
}

/// The mode that an event names; an unknown name is that of normal operation.
pub open spec fn event_mode(name: Seq<char>) -> InverterMode {
    match commands::named_mode(name) {
        Some(m) => m,
        None => InverterMode::Normal,
    }
}

/// The commands of an event, in the order in which they take effect.
pub open spec fn event_commands(e: ScenarioEvent) -> Seq<Command> {
    let c = Seq::empty();
    let c = modbus::with(
        c,
        match e.fault {
            Some(f) => Some(Command::InjectFault(f)),
            None => None,
        },
    );
    let c = modbus::with(
        c,
        match e.clear_fault {
            Some(f) => Some(Command::ClearFault(f)),
            None => None,
        },
    );
    let c = modbus::with(
        c,
        match e.mode {
            Some(m) => Some(Command::SetInverterMode(event_mode(m@))),
            None => None,
        },
    );
    let c = modbus::with(
        c,
        match e.export_limit {
            Some(w) => Some(Command::SetExportLimit(w)),
            None => None,
        },
    );
    modbus::with(
        c,
        match e.weather {
            Some(w) => Some(Command::SetWeather(event_weather(lowercase(w@)))),
            None => None,
        },
    )
}

/// The plant with the generation and the demand that an event sets.
pub open spec fn overridden(s: PlantState, e: ScenarioEvent) -> PlantState {
    PlantState {
        solar: SolarState {
            generation_w: match e.solar {
                Some(w) => w,
                None => s.solar.generation_w,
            },
            ..s.solar
        },
        load_demand_w: match e.load {
            Some(w) => w,
            None => s.load_demand_w,
        },
        ..s
    }
}

/// Applies an event: sets generation and demand, and gives the commands that are to
/// follow.
pub fn apply_event(e: &ScenarioEvent, s: &mut PlantState) -> (r: Vec<Command>)
    ensures
        r@ == event_commands(*e),
        *final(s) == overridden(*old(s), *e),
{
    if let Some(w) = e.solar {
        s.solar.generation_w = w;
    }
    if let Some(w) = e.load {
        s.load_demand_w = w;
    }
    let mut c: Vec<Command> = Vec::new();
    if let Some(f) = &e.fault {
        c.push(Command::InjectFault(f.clone()));
    }
    if let Some(f) = &e.clear_fault {
        c.push(Command::ClearFault(f.clone()));
    }
    if let Some(m) = &e.mode {
        let mode = match mode_named(m.as_str()) {
            Some(x) => x,
            None => InverterMode::Normal,
        };
        c.push(Command::SetInverterMode(mode));
    }
    if let Some(w) = e.export_limit {
        c.push(Command::SetExportLimit(w));
    }
    if let Some(w) = &e.weather {
        let name = lowercase_of(w.as_str());
        c.push(Command::SetWeather(event_weather_of(name.as_str())));
    }
    c
}

// ---------------------------------------------------------------------------
// Assertions
// ---------------------------------------------------------------------------

/// What is expected under `key`.
pub open spec fn expected(e: Seq<Expectation>, key: Seq<char>) -> Option<Expected>
    decreases e.len(),
{
    if e.len() == 0 {
        None
    } else if e[0].key@ == key {
        Some(e[0].value)
    } else {
        expected(e.skip(1), key)
    }
}

/// What is expected under `key`.
fn expected_of<'a>(e: &'a Vec<Expectation>, key: &str) -> (r: Option<&'a Expected>)
    ensures
        match r {
            Some(v) => expected(e@, key@) == Some(*v),
            None => expected(e@, key@) is None,
        },
{
    let mut i: usize = 0;
    assert(e@.skip(0) =~= e@);
    while i < e.len()
        invariant
            i <= e@.len(),
            expected(e@, key@) == expected(e@.skip(i as int), key@),
        decreases e@.len() - i,
    {
        assert(e@.skip(i as int)[0] == e@[i as int]);
        assert(e@.skip(i as int).skip(1) =~= e@.skip(i + 1));
        if same(e[i].key.as_str(), key) {
            return Some(&e[i].value);
        }
        i += 1;
    }
    None
}

/// The failure of `actual` to lie above the threshold under `key`, if it fails.
pub open spec fn not_above(e: Seq<Expectation>, key: Seq<char>, actual: int) -> Option<Seq<char>> {
    match expected(e, key) {
        Some(Expected::Number(t)) => if actual <= t@ {
            Some(
                key + ": expected > "@ + numerals::shortest_text(t@) + ", got "@
                    + numerals::decimal_text(actual, 1),
            )
        } else {
            None
        },
        _ => None,
    }
}

/// The failure of `actual` to lie below the threshold under `key`, if it fails.
pub open spec fn not_below(e: Seq<Expectation>, key: Seq<char>, actual: int) -> Option<Seq<char>> {
    match expected(e, key) {
        Some(Expected::Number(t)) => if actual >= t@ {
            Some(
                key + ": expected < "@ + numerals::shortest_text(t@) + ", got "@
                    + numerals::decimal_text(actual, 1),
            )
        } else {
            None
        },
        _ => None,
    }
}

/// One where the grid is connected, otherwise zero.
pub open spec fn connection(connected: bool) -> int {
    if connected {
        1_000_000
    } else {
        0
    }
}

/// The failure of the grid connection, if it fails.
pub open spec fn not_connected(e: Seq<Expectation>, connected: bool) -> Option<Seq<char>> {
    match expected(e, "grid_connected"@) {
        Some(Expected::Number(t)) => if connection(connected) != t@ {
            Some(
                "grid_connected: expected "@ + numerals::shortest_text(t@) + ", got "@
                    + numerals::shortest_text(connection(connected)),
            )
        } else {
            None
        },
        _ => None,
    }
}

/// The word for a truth value.
pub open spec fn truth(b: bool) -> Seq<char> {
    if b {
        "true"@
    } else {
        "false"@
    }
}

/// The failure of the battery's direction, if it fails.
pub open spec fn not_charging(e: Seq<Expectation>, power_kw: int) -> Option<Seq<char>> {
    match expected(e, "battery_charging"@) {
        Some(Expected::Bool(b)) => if (power_kw > 0) != b {
            Some(
                "battery_charging: expected "@ + truth(b) + ", got "@ + truth(power_kw > 0)
                    + " (total_power_kw="@ + numerals::decimal_text(power_kw, 2) + ")"@,
            )
        } else {
            None
        },
        _ => None,
    }
}

/// The strings as the `Debug` form of a list.
pub uninterp spec fn debug_list(v: Seq<Seq<char>>) -> Seq<char>;

/// Whether the strings hold ASCII letters, digits and underscores only.
pub open spec fn plain_words(v: Seq<Seq<char>>) -> bool {
    forall|i: int, j: int|
        0 <= i < v.len() && 0 <= j < v[i].len() ==> {
            let c = #[trigger] v[i][j];
            'a' <= c <= 'z' || 'A' <= c <= 'Z' || '0' <= c <= '9' || c == '_'
        }
}

/// The strings in quotes, with commas, between brackets.
pub open spec fn quoted_list(v: Seq<Seq<char>>) -> Seq<char> {
    "["@ + text::join(v.map_values(|s: Seq<char>| "\""@ + s + "\""@), ", "@) + "]"@
}

/// The `Debug` form of a `Vec<String>`: the strings in quotes, with commas, between
/// brackets. How other characters than letters, digits and underscores are escaped
/// is left to the name.
#[verifier::external_body]
fn debug_list_of(v: &Vec<String>) -> (r: String)
    ensures
        r@ == debug_list(text::views(v@)),
        plain_words(text::views(v@)) ==> r@ == quoted_list(text::views(v@)),
{
    format!("{:?}", v)
}

/// The faults as a message shows them.
pub open spec fn fault_list(v: Seq<Seq<char>>) -> Seq<char> {
    if plain_words(v) {
        quoted_list(v)
    } else {
        debug_list(v)
    }
}

/// The failure of the plant to be without faults, if it fails.
pub open spec fn not_faultless(e: Seq<Expectation>, faults: Seq<String>) -> Option<Seq<char>> {
    match expected(e, "no_faults"@) {
        Some(Expected::Bool(b)) => if b && faults.len() > 0 {
            Some("no_faults: expected none, got "@ + fault_list(text::views(faults)))
        } else {
            None
        },
        _ => None,
    }
}

/// The failure of a fault to be active, if it fails.
pub open spec fn not_faulty(e: Seq<Expectation>, faults: Seq<String>) -> Option<Seq<char>> {
    match expected(e, "fault_active"@) {
        Some(Expected::Text(id)) => if !state::fault_active(faults, id@) {
            Some(
                "fault_active: expected '"@ + id@ + "' to be active, got "@ + fault_list(
                    text::views(faults),
                ),
            )
        } else {
            None
        },
        _ => None,
    }
}

/// `list` with the failure `m` added, if there is one.
pub open spec fn with_failure(list: Seq<Seq<char>>, m: Option<Seq<char>>) -> Seq<Seq<char>> {
    match m {
        Some(x) => list.push(x),
        None => list,
    }
}

/// What fails of the expectations `e` in the plant `s`, in a fixed order.
pub open spec fn failures(e: Seq<Expectation>, s: PlantState) -> Seq<Seq<char>> {
    let f = Seq::empty();
    let f = with_failure(f, not_above(e, "soc_gt"@, s.battery.soc_percent@));
    let f = with_failure(f, not_below(e, "soc_lt"@, s.battery.soc_percent@));
    let f = with_failure(f, not_above(e, "solar_gt"@, s.solar.generation_w@));
    let f = with_failure(f, not_below(e, "solar_lt"@, s.solar.generation_w@));
    let f = with_failure(f, not_connected(e, s.grid.connected));
    let f = with_failure(
        f,
        not_above(e, "grid_import_gt"@, fixed::positive_part(s.grid.power_w@)),
    );
    let f = with_failure(
        f,
        not_above(e, "grid_export_gt"@, fixed::positive_part(-s.grid.power_w@)),
    );
    let f = with_failure(f, not_charging(e, s.battery.power_kw@));
    let f = with_failure(f, not_faultless(e, s.active_faults@));
    let f = with_failure(f, not_faulty(e, s.active_faults@));
    let f = with_failure(
        f,
        not_above(e, "grid_import_kwh_gt"@, s.energy_totals.grid_import_kwh@),
    );
    let f = with_failure(
        f,
        not_above(e, "grid_export_kwh_gt"@, s.energy_totals.grid_export_kwh@),
    );
    let f = with_failure(
        f,
        not_above(e, "solar_kwh_gt"@, s.energy_totals.solar_generation_kwh@),
    );
    with_failure(f, not_above(e, "load_kwh_gt"@, s.energy_totals.load_consumption_kwh@))
}

/// Whether `r` says that the expectations hold, or gives what fails of them.
pub open spec fn verdict(r: Result<(), Vec<String>>, e: Seq<Expectation>, s: PlantState) -> bool {
    match r {
        Ok(_) => failures(e, s).len() == 0,
        Err(f) => failures(e, s).len() > 0 && text::views(f@) == failures(e, s),
    }
}

/// Adds a failure.
fn add_failure(list: &mut Vec<String>, m: String)
    ensures
        text::views(final(list)@) == text::views(old(list)@).push(m@),
{
    let ghost before = list@;
    list.push(m);
    assert(text::views(list@) =~= text::views(before).push(m@));
}

/// The message that `actual` misses the threshold `t` under `key`.
fn threshold_message(key: &str, relation: &str, t: Fixed, actual: i64) -> (r: String)
    requires
        -MAX_MICROS <= actual <= MAX_MICROS,
    ensures
        r@ == key@ + relation@ + numerals::shortest_text(t@) + ", got "@ + numerals::decimal_text(
            actual as int,
            1,
        ),
{
    let mut m = joined(key, relation);
    append_shortest(&mut m, t);
    m.append(", got ");
    append_micros(&mut m, actual, 1);
    m
}

/// Adds the failure of `actual` to lie above the threshold under `key`.
fn check_above(list: &mut Vec<String>, e: &Vec<Expectation>, key: &str, actual: i64)
    requires
        -MAX_MICROS <= actual <= MAX_MICROS,
    ensures
        text::views(final(list)@) == with_failure(
            text::views(old(list)@),
            not_above(e@, key@, actual as int),
        ),
{
    if let Some(Expected::Number(t)) = expected_of(e, key) {
        if actual <= t.micros() {
            add_failure(list, threshold_message(key, ": expected > ", *t, actual));
        }
    }
}

/// Adds the failure of `actual` to lie below the threshold under `key`.
fn check_below(list: &mut Vec<String>, e: &Vec<Expectation>, key: &str, actual: i64)
    requires
        -MAX_MICROS <= actual <= MAX_MICROS,
    ensures
        text::views(final(list)@) == with_failure(
            text::views(old(list)@),
            not_below(e@, key@, actual as int),
        ),
{
    if let Some(Expected::Number(t)) = expected_of(e, key) {
        if actual >= t.micros() {
            add_failure(list, threshold_message(key, ": expected < ", *t, actual));
        }
    }
}

/// Adds the failure of the grid connection.
fn check_connected(list: &mut Vec<String>, e: &Vec<Expectation>, connected: bool)
    ensures
        text::views(final(list)@) == with_failure(
            text::views(old(list)@),
            not_connected(e@, connected),
        ),
{
    if let Some(Expected::Number(t)) = expected_of(e, "grid_connected") {
        let actual: Fixed = if connected {
            Fixed::from_units(1)
        } else {
            Fixed::from_units(0)
        };
        if actual.micros() != t.micros() {
            let mut m = "grid_connected: expected ".to_owned();
            append_shortest(&mut m, *t);
            m.append(", got ");
            append_shortest(&mut m, actual);
            add_failure(list, m);
        }
    }
}

/// The word for a truth value.
fn truth_of(b: bool) -> (r: &'static str)
    ensures
        r@ == truth(b),
{
    if b {
        "true"
    } else {
        "false"
    }
}

/// Adds the failure of the battery's direction.
fn check_charging(list: &mut Vec<String>, e: &Vec<Expectation>, power_kw: i64)
    requires
        -MAX_MICROS <= power_kw <= MAX_MICROS,
    ensures
        text::views(final(list)@) == with_failure(
            text::views(old(list)@),
            not_charging(e@, power_kw as int),
        ),
{
    if let Some(Expected::Bool(b)) = expected_of(e, "battery_charging") {
        if (power_kw > 0) != *b {
            let mut m = joined("battery_charging: expected ", truth_of(*b));
            m.append(", got ");
            m.append(truth_of(power_kw > 0));
            m.append(" (total_power_kw=");
            append_micros(&mut m, power_kw, 2);
            m.append(")");
            add_failure(list, m);
        }
    }
}

/// Adds the failures of the expectations on faults.
fn check_faults(list: &mut Vec<String>, e: &Vec<Expectation>, faults: &Vec<String>)
    ensures
        text::views(final(list)@) == with_failure(
            with_failure(text::views(old(list)@), not_faultless(e@, faults@)),
            not_faulty(e@, faults@),
        ),
{
    if let Some(Expected::Bool(b)) = expected_of(e, "no_faults") {
        if *b && faults.len() > 0 {
            let shown = debug_list_of(faults);
            add_failure(list, joined("no_faults: expected none, got ", shown.as_str()));
        }
    }
    if let Some(Expected::Text(id)) = expected_of(e, "fault_active") {
        if !has_fault(faults, id.as_str()) {
            let mut m = joined("fault_active: expected '", id.as_str());
            m.append("' to be active, got ");
            let shown = debug_list_of(faults);
            m.append(shown.as_str());
            add_failure(list, m);
        }
    }
}

/// Holds the expectations against the plant: nothing if all are met, otherwise a
/// message for each that is not. A key that no assertion has, or a value of another
/// kind than its assertion takes, expects nothing.
pub fn check_assertions(expect: &Vec<Expectation>, s: &PlantState) -> (r: Result<(), Vec<String>>)
    ensures
        verdict(r, expect@, *s),
{
    let mut f: Vec<String> = Vec::new();
    assert(text::views(f@) =~= Seq::empty());
    let soc: i64 = s.battery.soc_percent.micros();
    let solar: i64 = s.solar.generation_w.micros();
    let grid: i64 = s.grid.power_w.micros();
    check_above(&mut f, expect, "soc_gt", soc);
    check_below(&mut f, expect, "soc_lt", soc);
    check_above(&mut f, expect, "solar_gt", solar);
    check_below(&mut f, expect, "solar_lt", solar);
    check_connected(&mut f, expect, s.grid.connected);
    check_above(&mut f, expect, "grid_import_gt", positive_part_of(grid));
    check_above(&mut f, expect, "grid_export_gt", positive_part_of(-grid));
    check_charging(&mut f, expect, s.battery.power_kw.micros());
    check_faults(&mut f, expect, &s.active_faults);
    let totals = &s.energy_totals;
    check_above(&mut f, expect, "grid_import_kwh_gt", totals.grid_import_kwh.micros());
    check_above(&mut f, expect, "grid_export_kwh_gt", totals.grid_export_kwh.micros());
    check_above(&mut f, expect, "solar_kwh_gt", totals.solar_generation_kwh.micros());
    check_above(&mut f, expect, "load_kwh_gt", totals.load_consumption_kwh.micros());
    assert(text::views(f@).len() == f@.len());
    if f.len() == 0 {
        Ok(())
    } else {
        Err(f)
    }
}

/// Law: without expectations nothing fails.
pub proof fn law_nothing_expected(s: PlantState)
    ensures
        failures(Seq::empty(), s).len() == 0,
{
}

// ---------------------------------------------------------------------------
// Progress
// ---------------------------------------------------------------------------

/// How far a scenario has run.
#[derive(Clone, Copy, Debug, PartialEq, Eq)]
pub struct ScenarioRun {
    /// Index of the event that comes next.
    pub next: usize,
    /// Number of days that are done.
    pub days_done: u32,
    /// Year, month and day on which the last event of a day came, until the first
    /// event of the day after has come.
    pub resting: Option<(i32, u32, u32)>,
}

/// Number of days that a scenario runs: at least one.
pub open spec fn run_days(days: u32) -> int {
    if days == 0 {
        1
    } else {
        days as int
    }
}

/// The date of a moment.
pub open spec fn date_of(t: Timestamp) -> (i32, u32, u32) {
    (t.year, t.month, t.day)
}

impl ScenarioRun {
    /// Whether all events of all days have come. A scenario without events never
    /// finishes.
    pub open spec fn finished(self, days: u32) -> bool {
        self.days_done >= run_days(days)
    }

    /// Whether the next event is due at the moment `now`: its time of day is reached,
    /// and the events of the same day have not all come already.
    pub open spec fn due(self, scenario: Scenario, now: Timestamp) -> bool {
        &&& !self.finished(scenario.days)
        &&& self.next < scenario.events@.len()
        &&& calendar::reached(now, scenario.events@[self.next as int].0)
        &&& self.resting != Some(date_of(now))
    }

    /// The progress once the next of `count` events has come at the moment `now`.
    pub open spec fn after_event(self, count: int, now: Timestamp) -> ScenarioRun {
        if self.next + 1 < count {
            ScenarioRun {
                next: (self.next + 1) as usize,
                days_done: self.days_done,
                resting: None,
            }
        } else {
            ScenarioRun {
                next: 0,
                days_done: (self.days_done + 1) as u32,
                resting: Some(date_of(now)),
            }
        }
    }

    /// The number of events that have come, of `count` each day.
    pub open spec fn events_done(self, count: int) -> int {
        self.days_done * count + self.next
    }

    /// The start of a scenario.
    pub fn new() -> (r: ScenarioRun)
        ensures
            r == (ScenarioRun { next: 0, days_done: 0, resting: None }),
    {
        ScenarioRun { next: 0, days_done: 0, resting: None }
    }

    /// Lets the next event come if it is due: the plant takes what the event sets,
    /// and the outcome tells the commands that are to follow, the verdict on what
    /// the event expects, and whether the scenario is done.
    pub fn step(&mut self, scenario: &Scenario, s: &mut PlantState) -> (r: StepOutcome)
        ensures
            old(self).due(*scenario, old(s).timestamp) ==> ({
                let e = scenario.events@[old(self).next as int].1;
                &&& r.event == Some(old(self).next)
                &&& r.commands@ == event_commands(e)
                &&& *final(s) == overridden(*old(s), e)
                &&& match e.expect {
                    Some(x) => match r.verdict {
                        Some(v) => verdict(v, x@, *final(s)),
                        None => false,
                    },
                    None => r.verdict is None,
                }
                &&& *final(self) == old(self).after_event(
                    scenario.events@.len() as int,
                    old(s).timestamp,
                )
                &&& r.finished == final(self).finished(scenario.days)
            }),
            !old(self).due(*scenario, old(s).timestamp) ==> {
                &&& r.event is None
                &&& r.commands@.len() == 0
                &&& r.verdict is None
                &&& !r.finished
                &&& *final(s) == *old(s)
                &&& *final(self) == *old(self)
            },
    {
        let idle = StepOutcome {
            event: None,
            commands: Vec::new(),
            verdict: None,
            finished: false,
        };
        let days: u32 = if scenario.days == 0 {
            1
        } else {
            scenario.days
        };
        if self.days_done >= days || self.next >= scenario.events.len() {
            return idle;
        }
        let index: usize = self.next;
        if !has_reached(&s.timestamp, scenario.events[index].0) {
            return idle;
        }
        if let Some(d) = self.resting {
            if d.0 == s.timestamp.year && d.1 == s.timestamp.month && d.2 == s.timestamp.day {
                return idle;
            }
        }
        let event = &scenario.events[index].1;
        let commands = apply_event(event, s);
        let verdict = match &event.expect {
            Some(x) => Some(check_assertions(x, s)),
            None => None,
        };
        if index + 1 < scenario.events.len() {
            self.next = index + 1;
            self.resting = None;
        } else {
            self.next = 0;
            self.days_done = self.days_done + 1;
            self.resting = Some((s.timestamp.year, s.timestamp.month, s.timestamp.day));
        }
        StepOutcome { event: Some(index), commands, verdict, finished: self.days_done >= days }
    }
}

/// What a step of a scenario did.
#[derive(Clone, Debug)]
pub struct StepOutcome {
    /// Index of the event that came, if one was due.
    pub event: Option<usize>,
    pub commands: Vec<Command>,
    /// The verdict on what the event expects, if it expects anything.
    pub verdict: Option<Result<(), Vec<String>>>,
    pub finished: bool,
}

/// Law: each event that comes counts once, and a scenario is finished exactly when
/// all of its events have come on each of its days.
pub proof fn law_events_repeat_daily(run: ScenarioRun, scenario: Scenario, now: Timestamp)
    requires
        run.next < scenario.events@.len(),
        run.due(scenario, now),
    ensures
        ({
            let n = scenario.events@.len() as int;
            let after = run.after_event(n, now);
            &&& after.events_done(n) == run.events_done(n) + 1
            &&& after.next < n
            &&& after.finished(scenario.days) <==> after.events_done(n) == run_days(scenario.days)
                * n
        }),
{
    let n = scenario.events@.len() as int;
    let after = run.after_event(n, now);
    let d = run.days_done as int;
    let total = run_days(scenario.days);
    assert(scenario.events.len() == n);
    assert((d + 1) * n == d * n + n) by (nonlinear_arith);
    assert(after.events_done(n) == run.events_done(n) + 1) by {
        if run.next + 1 >= n {
            assert(after.days_done == d + 1);
            assert(after.events_done(n) == (d + 1) * n);
        }
    }
    if after.finished(scenario.days) {
        assert(after.days_done == total);
        assert(after.events_done(n) == total * n);
    } else {
        let k = after.days_done as int;
        assert(k + 1 <= total);
        assert((k + 1) * n <= total * n) by (nonlinear_arith)
            requires
                k + 1 <= total,
                n > 0,
        ;
        assert((k + 1) * n == k * n + n) by (nonlinear_arith);
    }
}

/// Law: the events of a new day wait for the date to change.
pub proof fn law_days_do_not_overlap(run: ScenarioRun, scenario: Scenario, now: Timestamp, later: Timestamp)
    requires
        run.due(scenario, now),
        run.next + 1 == scenario.events@.len(),
        date_of(later) == date_of(now),
    ensures
        !run.after_event(scenario.events@.len() as int, now).due(scenario, later),
{
}

// ---------------------------------------------------------------------------
// Reports
// ---------------------------------------------------------------------------

/// What a scenario's event holds, for display.
#[derive(Clone, Debug)]
pub struct ScenarioEventInfo {
    pub time: String,
    pub has_solar: bool,
    pub has_load: bool,
    pub has_fault: bool,
    pub has_expect: bool,
    pub mode: Option<String>,
    pub weather: Option<String>,
}

/// What a scenario holds, for display.
#[derive(Clone, Debug)]
pub struct ScenarioInfo {
    pub name: String,
    pub days: u32,
    pub events: Vec<ScenarioEventInfo>,
}

/// Whether `r` tells of the event `e` at the time `t`.
pub open spec fn tells(r: ScenarioEventInfo, t: ClockTime, e: ScenarioEvent) -> bool {
    &&& r.time@ == calendar::time_text(t.hour as int, t.minute as int, 0)
    &&& r.has_solar == e.solar is Some
    &&& r.has_load == e.load is Some
    &&& r.has_fault == e.fault is Some
    &&& r.has_expect == e.expect is Some
    &&& r.mode == e.mode
    &&& r.weather == e.weather
}

/// A copy of a string that may be missing.
fn copied_text(s: &Option<String>) -> (r: Option<String>)
    ensures
        r == *s,
{
    match s {
        Some(x) => Some(x.clone()),
        None => None,
    }
}

/// What a scenario holds, for display.
pub fn load_scenario(scenario: &Scenario) -> (r: ScenarioInfo)
    requires
        forall|i: int|
            0 <= i < scenario.events@.len() ==> calendar::on_clock(
                (#[trigger] scenario.events@[i]).0,
            ),
    ensures
        r.name@ == scenario.name@,
        r.days == scenario.days,
        r.events@.len() == scenario.events@.len(),
        forall|i: int|
            0 <= i < r.events@.len() ==> tells(
                #[trigger] r.events@[i],
                scenario.events@[i].0,
                scenario.events@[i].1,
            ),
{
    let mut events: Vec<ScenarioEventInfo> = Vec::new();
    let mut i: usize = 0;
    while i < scenario.events.len()
        invariant
            i <= scenario.events@.len(),
            forall|i: int|
                0 <= i < scenario.events@.len() ==> calendar::on_clock(
                    (#[trigger] scenario.events@[i]).0,
                ),
            events@.len() == i,
            forall|j: int|
                0 <= j < i ==> tells(
                    #[trigger] events@[j],
                    scenario.events@[j].0,
                    scenario.events@[j].1,
                ),
        decreases scenario.events@.len() - i,
    {
        let e = &scenario.events[i].1;
        events.push(
            ScenarioEventInfo {
                time: display_time(scenario.events[i].0),
                has_solar: e.solar.is_some(),
                has_load: e.load.is_some(),
                has_fault: e.fault.is_some(),
                has_expect: e.expect.is_some(),
                mode: copied_text(&e.mode),
                weather: copied_text(&e.weather),
            },
        );
        i += 1;
    }
    ScenarioInfo { name: scenario.name.clone(), days: scenario.days, events }
}

/// A single assertion outcome.
#[derive(Clone, Debug)]
pub struct AssertionResult {
    pub time: String,
    pub passed: bool,
    pub messages: Vec<String>,
}

/// Result of running a full scenario.
#[derive(Clone, Debug)]
pub struct ScenarioResult {
    pub name: String,
    pub passed: usize,
    pub failed: usize,
    pub assertions: Vec<AssertionResult>,
}

impl ScenarioResult {
    /// The number of assertions.
    pub fn total(&self) -> (r: usize)
        requires
            self.passed + self.failed <= usize::MAX,
        ensures
            r == self.passed + self.failed,
    {
        self.passed + self.failed
    }

    /// Whether no assertion failed.
    pub fn is_success(&self) -> (r: bool)
        ensures
            r == (self.failed == 0),
    {
        self.failed == 0
    }
}

} // verus!
