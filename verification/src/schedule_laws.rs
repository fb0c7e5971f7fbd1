//! What clients can rely on once a bank shows a schedule.
use crate::modbus;
use crate::model;
use crate::register_laws;
use crate::registers;
use crate::registers::{Access, Definition, RegisterSpace};
use crate::schedule;
use crate::schedule::{Schedule, Slot};
use crate::showing::plain;
use vstd::prelude::*;

verus! {

/// Holding register `a` of a bank once it shows the schedule `p` of inverter type `t`.
pub open spec fn shows(
    values: Map<u32, u16>,
    defs: Seq<Definition>,
    p: Schedule,
    t: Seq<char>,
    a: int,
) -> Option<u16> {
    registers::scheduled(values, defs, p, t).get((10_000 + a) as u32)
}

/// Whether the type has more than one slot.
pub open spec fn many_slots(t: Seq<char>) -> bool {
    t != "Gen2Hybrid"@ && t != "ACCoupled"@ && t != "ACCoupled2"@
}

/// Hours and minutes of `h` millionths of an hour, to the closest minute: 530 for half
/// past five. What is no minute of the day reads 60.
pub open spec fn reading(h: int) -> int {
    let minute = plain::closest(60 * (h % 1_000_000), 1_000_000);
    if 0 <= h < 24_000_000 && minute < 60 {
        100 * (h / 1_000_000) + minute
    } else {
        60
    }
}

/// Start and end of a slot on the registers, with 60 twice for one that is off.
pub open spec fn window(slot: Slot) -> (int, int) {
    if -1_000 < slot.start@ - slot.end@ < 1_000 {
        (60, 60)
    } else {
        (reading(slot.start@), reading(slot.end@))
    }
}

/// Target of a slot on the registers, in whole percent.
pub open spec fn target(slot: Slot) -> int {
    plain::cut_word(slot.target_soc@, 1_000_000)
}

/// Whether some slot ends at another time than it starts.
pub open spec fn some_window(slots: Seq<Slot>) -> bool {
    exists|i: int| 0 <= i < slots.len() && (#[trigger] slots[i]).start@ != slots[i].end@
}

/// What the model says of a type, by its name.
proof fn lemma_slots(t: Seq<char>)
    ensures
        model::second_slot(t) == many_slots(t),
        model::extended_slots(t) == (many_slots(t) && t != "Gen1Hybrid"@),
{
}

/// A reading of a bank that shows a schedule.
proof fn lemma_shows(
    values: Map<u32, u16>,
    defs: Seq<Definition>,
    p: Schedule,
    t: Seq<char>,
    a: int,
)
    requires
        0 <= a <= 65_535,
        registers::writable(defs, a),
    ensures
        ({
            let w = schedule::schedule_word(
                a,
                p,
                model::extended_slots(t),
                model::second_slot(t),
                registers::mirrored_reserve(values),
            );
            shows(values, defs, p, t, a) == (match w {
                Some(x) => Some(x as u16),
                None => values.get((10_000 + a) as u32),
            })
        }),
{
}

/// The words of a slot in plain arithmetic.
proof fn lemma_words(slot: Slot)
    ensures
        schedule::triple_word(0, slot) == window(slot).0,
        schedule::triple_word(1, slot) == window(slot).1,
        schedule::triple_word(2, slot) == target(slot),
        schedule::target_word(slot) == target(slot),
{
}

/// Law: HR 96 and its mirror HR 1112 read one exactly while charging by schedule is
/// enabled or some charge slot has a window. Discharge slots and exports play no part.
pub proof fn law_charge_flag(
    values: Map<u32, u16>,
    defs: Seq<Definition>,
    p: Schedule,
    t: Seq<char>,
)
    ensures
        registers::writable(defs, 96) ==> shows(values, defs, p, t, 96) == Some(
            if p.enable_charge || some_window(p.charge@) {
                1u16
            } else {
                0
            },
        ),
        registers::writable(defs, 1112) ==> shows(values, defs, p, t, 1112) == Some(
            if p.enable_charge || some_window(p.charge@) {
                1u16
            } else {
                0
            },
        ),
{
    if registers::writable(defs, 96) {
        lemma_shows(values, defs, p, t, 96);
    }
    if registers::writable(defs, 1112) {
        lemma_shows(values, defs, p, t, 1112);
    }
}

/// Law: HR 59 reads one exactly while discharging by schedule is enabled or some
/// discharge slot has a window. Charge slots and exports play no part.
pub proof fn law_discharge_flag(
    values: Map<u32, u16>,
    defs: Seq<Definition>,
    p: Schedule,
    t: Seq<char>,
)
    requires
        registers::writable(defs, 59),
    ensures
        shows(values, defs, p, t, 59) == Some(
            if p.enable_discharge || some_window(p.discharge@) {
                1u16
            } else {
                0
            },
        ),
{
    lemma_shows(values, defs, p, t, 59);
}

/// Law: two schedules that charge alike show the same charge flag, and two that
/// discharge alike the same discharge flag.
pub proof fn law_flags_are_independent(
    values: Map<u32, u16>,
    defs: Seq<Definition>,
    p: Schedule,
    q: Schedule,
    t: Seq<char>,
)
    requires
        registers::writable(defs, 96),
        registers::writable(defs, 59),
    ensures
        p.enable_charge == q.enable_charge && p.charge@ == q.charge@ ==> shows(
            values,
            defs,
            p,
            t,
            96,
        ) == shows(values, defs, q, t, 96),
        p.enable_discharge == q.enable_discharge && p.discharge@ == q.discharge@ ==> shows(
            values,
            defs,
            p,
            t,
            59,
        ) == shows(values, defs, q, t, 59),
{
    law_charge_flag(values, defs, p, t);
    law_charge_flag(values, defs, q, t);
    law_discharge_flag(values, defs, p, t);
    law_discharge_flag(values, defs, q, t);
}

/// The register of the start of charge slot `i`; its end stands in the next one.
pub open spec fn charge_start(i: int, t: Seq<char>) -> int {
    if i == 0 {
        94
    } else if i == 1 {
        if t == "Gen1Hybrid"@ {
            31
        } else {
            243
        }
    } else {
        240 + 3 * i
    }
}

/// The register of the start of discharge slot `i`; its end stands in the next one.
pub open spec fn discharge_start(i: int) -> int {
    if i == 0 {
        56
    } else if i == 1 {
        44
    } else {
        270 + 3 * i
    }
}

/// Law: where the charge slots of an inverter stand, and what they show. A type with
/// one slot shows the others as off.
pub proof fn law_charge_slots(
    values: Map<u32, u16>,
    defs: Seq<Definition>,
    p: Schedule,
    t: Seq<char>,
    i: int,
)
    requires
        0 <= i < 10,
        registers::writable(defs, charge_start(i, t)),
        registers::writable(defs, charge_start(i, t) + 1),
        registers::writable(defs, 242 + 3 * i),
    ensures
        i == 0 || many_slots(t) ==> {
            &&& shows(values, defs, p, t, charge_start(i, t)) == Some(
                window(p.charge@[i]).0 as u16,
            )
            &&& shows(values, defs, p, t, charge_start(i, t) + 1) == Some(
                window(p.charge@[i]).1 as u16,
            )
            &&& shows(values, defs, p, t, 242 + 3 * i) == Some(target(p.charge@[i]) as u16)
        },
        i > 1 && !many_slots(t) ==> {
            &&& shows(values, defs, p, t, charge_start(i, t)) == Some(60u16)
            &&& shows(values, defs, p, t, charge_start(i, t) + 1) == Some(60u16)
        },
        i > 0 && !many_slots(t) ==> shows(values, defs, p, t, 242 + 3 * i) == Some(0u16),
{
    lemma_slots(t);
    lemma_shows(values, defs, p, t, charge_start(i, t));
    lemma_shows(values, defs, p, t, charge_start(i, t) + 1);
    lemma_shows(values, defs, p, t, 242 + 3 * i);
    lemma_words(p.charge@[i]);
}

/// Law: where the discharge slots of an inverter stand, and what they show. A type with
/// one slot shows the others as off.
pub proof fn law_discharge_slots(
    values: Map<u32, u16>,
    defs: Seq<Definition>,
    p: Schedule,
    t: Seq<char>,
    i: int,
)
    requires
        0 <= i < 10,
        registers::writable(defs, discharge_start(i)),
        registers::writable(defs, discharge_start(i) + 1),
        registers::writable(defs, 272 + 3 * i),
    ensures
        i == 0 || many_slots(t) ==> {
            &&& shows(values, defs, p, t, discharge_start(i)) == Some(
                window(p.discharge@[i]).0 as u16,
            )
            &&& shows(values, defs, p, t, discharge_start(i) + 1) == Some(
                window(p.discharge@[i]).1 as u16,
            )
            &&& shows(values, defs, p, t, 272 + 3 * i) == Some(target(p.discharge@[i]) as u16)
        },
        i > 0 && !many_slots(t) ==> {
            &&& shows(values, defs, p, t, discharge_start(i)) == Some(60u16)
            &&& shows(values, defs, p, t, discharge_start(i) + 1) == Some(60u16)
            &&& shows(values, defs, p, t, 272 + 3 * i) == Some(0u16)
        },
{
    lemma_slots(t);
    lemma_shows(values, defs, p, t, discharge_start(i));
    lemma_shows(values, defs, p, t, discharge_start(i) + 1);
    lemma_shows(values, defs, p, t, 272 + 3 * i);
    lemma_words(p.discharge@[i]);
}

/// Law: the three-phase block repeats the first two slots of each kind: charging from
/// HR 1113 and HR 1115, discharging from HR 1118 and HR 1120.
pub proof fn law_three_phase_slots(
    values: Map<u32, u16>,
    defs: Seq<Definition>,
    p: Schedule,
    t: Seq<char>,
    i: int,
)
    requires
        0 <= i < 2,
        registers::writable(defs, 1113 + 2 * i),
        registers::writable(defs, 1114 + 2 * i),
        registers::writable(defs, 1118 + 2 * i),
        registers::writable(defs, 1119 + 2 * i),
    ensures
        i == 0 || many_slots(t) ==> {
            &&& shows(values, defs, p, t, 1113 + 2 * i) == Some(window(p.charge@[i]).0 as u16)
            &&& shows(values, defs, p, t, 1114 + 2 * i) == Some(window(p.charge@[i]).1 as u16)
            &&& shows(values, defs, p, t, 1118 + 2 * i) == Some(window(p.discharge@[i]).0 as u16)
            &&& shows(values, defs, p, t, 1119 + 2 * i) == Some(window(p.discharge@[i]).1 as u16)
        },
{
    lemma_slots(t);
    lemma_shows(values, defs, p, t, 1113 + 2 * i);
    lemma_shows(values, defs, p, t, 1114 + 2 * i);
    lemma_shows(values, defs, p, t, 1118 + 2 * i);
    lemma_shows(values, defs, p, t, 1119 + 2 * i);
    lemma_words(p.charge@[i]);
    lemma_words(p.discharge@[i]);
}

/// Law: the target of the first charge slot stands in HR 116 and HR 1111 too.
pub proof fn law_first_target(
    values: Map<u32, u16>,
    defs: Seq<Definition>,
    p: Schedule,
    t: Seq<char>,
)
    requires
        registers::writable(defs, 116),
        registers::writable(defs, 1111),
    ensures
        shows(values, defs, p, t, 116) == Some(target(p.charge@[0]) as u16),
        shows(values, defs, p, t, 1111) == Some(target(p.charge@[0]) as u16),
{
    lemma_shows(values, defs, p, t, 116);
    lemma_shows(values, defs, p, t, 1111);
    lemma_words(p.charge@[0]);
}

/// Law: HR 1109 repeats the reserve of HR 110, and reads four where that is zero or
/// missing.
pub proof fn law_reserve_mirror(
    values: Map<u32, u16>,
    defs: Seq<Definition>,
    p: Schedule,
    t: Seq<char>,
)
    requires
        registers::writable(defs, 1109),
    ensures
        shows(values, defs, p, t, 1109) == Some(
            match values.get(10_110) {
                Some(w) => if w == 0 {
                    4u16
                } else {
                    w
                },
                None => 4,
            },
        ),
{
    lemma_shows(values, defs, p, t, 1109);
}

/// Law: the plant manager's slots, three registers each: discharging from HR 2044,
/// charging from HR 2053, exporting from HR 2062, whatever the type of inverter.
pub proof fn law_manager_slots(
    values: Map<u32, u16>,
    defs: Seq<Definition>,
    p: Schedule,
    t: Seq<char>,
    i: int,
)
    requires
        0 <= i < 3,
        forall|a: int| 2044 <= a <= 2070 ==> #[trigger] registers::writable(defs, a),
    ensures
        shows(values, defs, p, t, 2044 + 3 * i) == Some(window(p.discharge@[i]).0 as u16),
        shows(values, defs, p, t, 2045 + 3 * i) == Some(window(p.discharge@[i]).1 as u16),
        shows(values, defs, p, t, 2046 + 3 * i) == Some(target(p.discharge@[i]) as u16),
        shows(values, defs, p, t, 2053 + 3 * i) == Some(window(p.charge@[i]).0 as u16),
        shows(values, defs, p, t, 2054 + 3 * i) == Some(window(p.charge@[i]).1 as u16),
        shows(values, defs, p, t, 2055 + 3 * i) == Some(target(p.charge@[i]) as u16),
        shows(values, defs, p, t, 2062 + 3 * i) == Some(window(p.export@[i]).0 as u16),
        shows(values, defs, p, t, 2063 + 3 * i) == Some(window(p.export@[i]).1 as u16),
        shows(values, defs, p, t, 2064 + 3 * i) == Some(target(p.export@[i]) as u16),
{
    lemma_shows(values, defs, p, t, 2044 + 3 * i);
    lemma_shows(values, defs, p, t, 2045 + 3 * i);
    lemma_shows(values, defs, p, t, 2046 + 3 * i);
    lemma_shows(values, defs, p, t, 2053 + 3 * i);
    lemma_shows(values, defs, p, t, 2054 + 3 * i);
    lemma_shows(values, defs, p, t, 2055 + 3 * i);
    lemma_shows(values, defs, p, t, 2062 + 3 * i);
    lemma_shows(values, defs, p, t, 2063 + 3 * i);
    lemma_shows(values, defs, p, t, 2064 + 3 * i);
    lemma_words(p.discharge@[i]);
    lemma_words(p.charge@[i]);
    lemma_words(p.export@[i]);
}

/// Law: the simulator's own schedule registers, six to a slot from HR 700: charge
/// window, discharge window, charge target, discharge target.
pub proof fn law_simulator_slots(
    values: Map<u32, u16>,
    defs: Seq<Definition>,
    p: Schedule,
    t: Seq<char>,
    i: int,
)
    requires
        0 <= i < 4,
        i == 0 || many_slots(t),
        registers::writable(defs, 700 + 6 * i),
        registers::writable(defs, 701 + 6 * i),
        registers::writable(defs, 702 + 6 * i),
        registers::writable(defs, 703 + 6 * i),
        registers::writable(defs, 704 + 6 * i),
        registers::writable(defs, 705 + 6 * i),
    ensures
        shows(values, defs, p, t, 700 + 6 * i) == Some(window(p.charge@[i]).0 as u16),
        shows(values, defs, p, t, 701 + 6 * i) == Some(window(p.charge@[i]).1 as u16),
        shows(values, defs, p, t, 702 + 6 * i) == Some(window(p.discharge@[i]).0 as u16),
        shows(values, defs, p, t, 703 + 6 * i) == Some(window(p.discharge@[i]).1 as u16),
        shows(values, defs, p, t, 704 + 6 * i) == Some(target(p.charge@[i]) as u16),
        shows(values, defs, p, t, 705 + 6 * i) == Some(target(p.discharge@[i]) as u16),
{
    lemma_slots(t);
    lemma_shows(values, defs, p, t, 700 + 6 * i);
    lemma_shows(values, defs, p, t, 701 + 6 * i);
    lemma_shows(values, defs, p, t, 702 + 6 * i);
    lemma_shows(values, defs, p, t, 703 + 6 * i);
    lemma_shows(values, defs, p, t, 704 + 6 * i);
    lemma_shows(values, defs, p, t, 705 + 6 * i);
    lemma_words(p.charge@[i]);
    lemma_words(p.discharge@[i]);
}

/// Law: the registers whose writes go to the schedule are those that some type of
/// inverter shows of it, but for the simulator's own.
pub proof fn law_schedule_registers(p: Schedule, a: int)
    ensures
        modbus::schedule_register(a) <==> !(700 <= a <= 727) && (schedule::schedule_word(
            a,
            p,
            true,
            true,
            4,
        ) is Some || schedule::schedule_word(a, p, false, true, 4) is Some),
{
}

/// Law: a register that is not the schedule's, or that takes no writes, keeps its word
/// when the schedule is shown.
pub proof fn law_other_registers_stay(
    values: Map<u32, u16>,
    defs: Seq<Definition>,
    p: Schedule,
    t: Seq<char>,
    k: u32,
)
    requires
        k < 10_000 || !registers::writable(defs, k - 10_000) || !(modbus::schedule_register(
            k - 10_000,
        ) || 700 <= k - 10_000 <= 727),
    ensures
        registers::scheduled(values, defs, p, t).get(k) == values.get(k),
{
    law_schedule_registers(p, k - 10_000);
    assert(registers::scheduled_word(k as int, values, defs, p, t) is None);
}

/// Law: a holding register takes writes exactly where its definition says so, and one
/// without a definition takes none.
pub proof fn law_writable_registers(defs: Seq<Definition>, i: int, a: int)
    requires
        register_laws::distinct_keys(defs),
        register_laws::addressable(defs),
    ensures
        0 <= i < defs.len() && defs[i].space == RegisterSpace::Holding ==> (registers::writable(
            defs,
            defs[i].address,
        ) <==> defs[i].access == Access::ReadWrite),
        (forall|j: int| 0 <= j < defs.len() ==> (#[trigger] defs[j]).key() != 10_000 + a)
            ==> !registers::writable(defs, a),
{
    if 0 <= i < defs.len() && defs[i].space == RegisterSpace::Holding {
        registers::lemma_first_with_key(defs, defs[i].address + 10_000, i);
    }
    if forall|j: int| 0 <= j < defs.len() ==> (#[trigger] defs[j]).key() != 10_000 + a {
        registers::lemma_first_with_key(defs, a + 10_000, defs.len() as int);
    }
}

/// Law: a clock reading falls on the closest minute: a reading other than 60 is less
/// than half a minute off, or half a minute at most.
pub proof fn law_reading_is_close(h: int)
    requires
        0 <= h < 24_000_000,
        schedule::clock_reading(h) != 60,
    ensures
        ({
            let r = schedule::clock_reading(h);
            let minutes = 60 * (r / 100) + r % 100;
            -500_000 <= minutes * 1_000_000 - h * 60 <= 500_000
        }),
{
    let x = (h % 1_000_000) * 60;
    let m = (2 * x + 1_000_000) / 2_000_000;
    assert(2_000_000 * m <= 2 * x + 1_000_000 < 2_000_000 * m + 2_000_000);
    assert(h == 1_000_000 * (h / 1_000_000) + h % 1_000_000);
}

/// Law: of several definitions of a holding register, the first says whether it takes
/// writes.
pub proof fn law_first_definition_decides(defs: Seq<Definition>, i: int, a: int)
    requires
        0 <= i < defs.len(),
        defs[i].key() == 10_000 + a,
        forall|j: int| 0 <= j < i ==> (#[trigger] defs[j]).key() != 10_000 + a,
    ensures
        registers::writable(defs, a) <==> defs[i].access == Access::ReadWrite,
{
    registers::lemma_first_with_key(defs, a + 10_000, i);
}

} // verus!
