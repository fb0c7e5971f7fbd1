//! Charge, discharge and export schedules and their registers.
//!
//! A schedule holds its times in decimal hours. The registers hold clock
//! readings: 530 for half past five. The reading 60, which is no time, stands
//! for a slot that is off.
use crate::fixed;
use crate::fixed::{cut_word_of, nearest_of, Fixed, MAX_MICROS};
use crate::projection;
use vstd::prelude::*;

verus! {

/// One programmable window. It is off where start and end coincide.
#[derive(Clone, Copy, Debug)]
pub struct Slot {
    /// Decimal hours.
    pub start: Fixed,
    /// Decimal hours.
    pub end: Fixed,
    pub target_soc: Fixed,
}

/// A clock reading that a client wrote, kept as written.
#[derive(Clone, Copy, Debug)]
pub struct RawTime {
    pub address: u16,
    pub value: u16,
}

/// The schedule of a plant.
#[derive(Clone, Debug)]
pub struct Schedule {
    pub charge: [Slot; 10],
    pub discharge: [Slot; 10],
    pub export: [Slot; 3],
    pub enable_charge: bool,
    pub enable_discharge: bool,
    pub raw_times: Vec<RawTime>,
}

/// The clock reading of `h` millionths of an hour; 60 where `h` is no time of
/// day.
pub open spec fn clock_reading(h: int) -> int {
    let hours = h / 1_000_000;
    let minutes = fixed::nearest((h % 1_000_000) * 60, 1_000_000);
    if h < 0 || hours > 23 || minutes > 59 {
        60
    } else {
        hours * 100 + minutes
    }
}

/// Whether a slot is off: start and end differ by less than a thousandth of an
/// hour.
pub open spec fn is_off(slot: Slot) -> bool {
    fixed::magnitude(slot.start@ - slot.end@) < 1_000
}

/// The reading that shows the start of a slot.
pub open spec fn start_reading(slot: Slot) -> int {
    if is_off(slot) {
        60
    } else {
        clock_reading(slot.start@)
    }
}

/// The reading that shows the end of a slot.
pub open spec fn end_reading(slot: Slot) -> int {
    if is_off(slot) {
        60
    } else {
        clock_reading(slot.end@)
    }
}

/// The word that shows the target of a slot.
pub open spec fn target_word(slot: Slot) -> int {
    fixed::cut_word(slot.target_soc@, 1_000_000)
}

/// Whether some slot has an end different from its start.
pub open spec fn any_window(slots: Seq<Slot>) -> bool {
    exists|i: int| 0 <= i < slots.len() && (#[trigger] slots[i]).start@ != slots[i].end@
}

/// The word at place `place` of a slot's triple: start, end, target.
pub open spec fn triple_word(place: int, slot: Slot) -> int {
    if place == 0 {
        start_reading(slot)
    } else if place == 1 {
        end_reading(slot)
    } else {
        target_word(slot)
    }
}

/// As [`triple_word`], for a slot that only models with a second slot have.
pub open spec fn gated_word(place: int, slot: Slot, second: bool) -> int {
    if second {
        triple_word(place, slot)
    } else if place < 2 {
        60
    } else {
        0
    }
}

/// What holding register `a` shows of the schedule `s`, for the registers of the
/// schedule. `extended` says that charge slot 2 lives in the extended block,
/// `second` that the model has a second slot, and `reserve` is the reserve that
/// HR 1109 mirrors.
pub open spec fn schedule_word(
    a: int,
    s: Schedule,
    extended: bool,
    second: bool,
    reserve: int,
) -> Option<int> {
    let c = s.charge@;
    let d = s.discharge@;
    if 94 <= a <= 95 {
        Some(triple_word(a - 94, c[0]))
    } else if 31 <= a <= 32 && second && !extended {
        Some(triple_word(a - 31, c[1]))
    } else if 243 <= a <= 244 && !(second && extended) {
        None
    } else if a == 242 {
        Some(target_word(c[0]))
    } else if 245 <= a <= 269 && (a - 242) % 3 == 0 {
        Some(gated_word(2, c[(a - 242) / 3], second))
    } else if 243 <= a <= 268 {
        Some(gated_word(a % 3, c[(a - 240) / 3], second))
    } else if 56 <= a <= 57 {
        Some(triple_word(a - 56, d[0]))
    } else if 44 <= a <= 45 {
        Some(gated_word(a - 44, d[1], second))
    } else if a == 272 {
        Some(target_word(d[0]))
    } else if 275 <= a <= 299 && (a - 272) % 3 == 0 {
        Some(gated_word(2, d[(a - 272) / 3], second))
    } else if 276 <= a <= 298 {
        Some(gated_word(a % 3, d[(a - 270) / 3], second))
    } else if a == 96 || a == 1112 {
        Some(projection::bit(s.enable_charge || any_window(c)))
    } else if a == 59 {
        Some(projection::bit(s.enable_discharge || any_window(d)))
    } else if a == 116 || a == 1111 {
        Some(target_word(c[0]))
    } else if a == 1109 {
        Some(reserve)
    } else if 1113 <= a <= 1114 {
        Some(triple_word(a - 1113, c[0]))
    } else if 1115 <= a <= 1116 {
        Some(gated_word(a - 1115, c[1], second))
    } else if 1118 <= a <= 1119 {
        Some(triple_word(a - 1118, d[0]))
    } else if 1120 <= a <= 1121 {
        Some(gated_word(a - 1120, d[1], second))
    } else if 2044 <= a <= 2052 {
        Some(triple_word((a - 2044) % 3, d[(a - 2044) / 3]))
    } else if 2053 <= a <= 2061 {
        Some(triple_word((a - 2053) % 3, c[(a - 2053) / 3]))
    } else if 2062 <= a <= 2070 {
        Some(triple_word((a - 2062) % 3, s.export@[(a - 2062) / 3]))
    } else if 700 <= a <= 727 {
        let i = (a - 700) / 6;
        let place = (a - 700) % 6;
        Some(
            if place < 2 {
                gated_word(place, c[i], second || i == 0)
            } else if place < 4 {
                gated_word(place - 2, d[i], second || i == 0)
            } else if place == 4 {
                target_word(c[i])
            } else {
                target_word(d[i])
            },
        )
    } else {
        None
    }
}

/// The clock reading of decimal hours.
pub fn clock_reading_of(h: i64) -> (r: u16)
    requires
        -MAX_MICROS <= h <= MAX_MICROS,
    ensures
        r == clock_reading(h as int),
{
    if h < 0 {
        return 60;
    }
    let hours: i64 = h / 1_000_000;
    let minutes: i128 = nearest_of((h % 1_000_000) as i128 * 60, 1_000_000);
    if hours > 23 || minutes > 59 {
        60
    } else {
        hours as u16 * 100 + minutes as u16
    }
}

/// Whether a slot is off.
pub fn is_off_slot(slot: &Slot) -> (r: bool)
    ensures
        r == is_off(*slot),
{
    let gap: i64 = slot.start.micros() - slot.end.micros();
    -1_000 < gap && gap < 1_000
}

/// The word at place `place` of a slot's triple.
pub fn triple_word_of(place: u16, slot: &Slot) -> (r: u16)
    ensures
        r == triple_word(place as int, *slot),
{
    if place > 1 {
        cut_word_of(slot.target_soc.exact(), 1_000_000)
    } else if is_off_slot(slot) {
        60
    } else if place == 0 {
        clock_reading_of(slot.start.micros())
    } else {
        clock_reading_of(slot.end.micros())
    }
}

/// The word of a slot that only models with a second slot have.
pub fn gated_word_of(place: u16, slot: &Slot, second: bool) -> (r: u16)
    ensures
        r == gated_word(place as int, *slot, second),
{
    if second {
        triple_word_of(place, slot)
    } else if place < 2 {
        60
    } else {
        0
    }
}

/// Whether some slot has an end different from its start.
pub fn any_window_of(slots: &[Slot; 10]) -> (r: bool)
    ensures
        r == any_window(slots@),
{
    let mut i: usize = 0;
    while i < 10
        invariant
            i <= 10,
            forall|j: int| 0 <= j < i ==> (#[trigger] slots@[j]).start@ == slots@[j].end@,
        decreases 10 - i,
    {
        if slots[i].start.micros() != slots[i].end.micros() {
            assert(slots@[i as int].start@ != slots@[i as int].end@);
            return true;
        }
        i += 1;
    }
    false
}

/// What holding register `a` shows of the schedule `s`.
pub fn schedule_word_of(
    a: u16,
    s: &Schedule,
    extended: bool,
    second: bool,
    reserve: u16,
) -> (r: Option<u16>)
    ensures
        projection::lifted(r) == schedule_word(a as int, *s, extended, second, reserve as int),
{
    let c = &s.charge;
    let d = &s.discharge;
    if 94 <= a && a <= 95 {
        Some(triple_word_of(a - 94, &c[0]))
    } else if 31 <= a && a <= 32 && second && !extended {
        Some(triple_word_of(a - 31, &c[1]))
    } else if 243 <= a && a <= 244 && !(second && extended) {
        None
    } else if a == 242 {
        Some(triple_word_of(2, &c[0]))
    } else if 245 <= a && a <= 269 && (a - 242) % 3 == 0 {
        Some(gated_word_of(2, &c[((a - 242) / 3) as usize], second))
    } else if 243 <= a && a <= 268 {
        Some(gated_word_of(a % 3, &c[((a - 240) / 3) as usize], second))
    } else if 56 <= a && a <= 57 {
        Some(triple_word_of(a - 56, &d[0]))
    } else if 44 <= a && a <= 45 {
        Some(gated_word_of(a - 44, &d[1], second))
    } else if a == 272 {
        Some(triple_word_of(2, &d[0]))
    } else if 275 <= a && a <= 299 && (a - 272) % 3 == 0 {
        Some(gated_word_of(2, &d[((a - 272) / 3) as usize], second))
    } else if 276 <= a && a <= 298 {
        Some(gated_word_of(a % 3, &d[((a - 270) / 3) as usize], second))
    } else if a == 96 || a == 1112 {
        Some(projection::flag(s.enable_charge || any_window_of(c)))
    } else if a == 59 {
        Some(projection::flag(s.enable_discharge || any_window_of(d)))
    } else if a == 116 || a == 1111 {
        Some(triple_word_of(2, &c[0]))
    } else if a == 1109 {
        Some(reserve)
    } else if 1113 <= a && a <= 1114 {
        Some(triple_word_of(a - 1113, &c[0]))
    } else if 1115 <= a && a <= 1116 {
        Some(gated_word_of(a - 1115, &c[1], second))
    } else if 1118 <= a && a <= 1119 {
        Some(triple_word_of(a - 1118, &d[0]))
    } else if 1120 <= a && a <= 1121 {
        Some(gated_word_of(a - 1120, &d[1], second))
    } else if 2044 <= a && a <= 2052 {
        Some(triple_word_of((a - 2044) % 3, &d[((a - 2044) / 3) as usize]))
    } else if 2053 <= a && a <= 2061 {
        Some(triple_word_of((a - 2053) % 3, &c[((a - 2053) / 3) as usize]))
    } else if 2062 <= a && a <= 2070 {
        Some(triple_word_of((a - 2062) % 3, &s.export[((a - 2062) / 3) as usize]))
    } else if 700 <= a && a <= 727 {
        let i: usize = ((a - 700) / 6) as usize;
        let place: u16 = (a - 700) % 6;
        if place < 2 {
            Some(gated_word_of(place, &c[i], second || i == 0))
        } else if place < 4 {
            Some(gated_word_of(place - 2, &d[i], second || i == 0))
        } else if place == 4 {
            Some(triple_word_of(2, &c[i]))
        } else {
            Some(triple_word_of(2, &d[i]))
        }
    } else {
        None
    }
}

/// Law: every clock reading is a time of day or the reading that stands for off.
pub proof fn law_clock_reading_is_a_time(h: int)
    ensures
        clock_reading(h) == 60 || (0 <= clock_reading(h) / 100 <= 23 && 0 <= clock_reading(h) % 100
            <= 59),
{
}

/// Law: a whole minute of the day reads as its hour and minute, to the
/// precision of the hours.
pub proof fn law_clock_reading_of_minute(hour: int, minute: int)
    requires
        0 <= hour <= 23,
        0 <= minute <= 59,
    ensures
        clock_reading(hour * 1_000_000 + fixed::nearest(minute * 1_000_000, 60)) == hour * 100
            + minute,
{
    let m = fixed::nearest(minute * 1_000_000, 60);
    assert(2 * (m * 60 - minute * 1_000_000) <= 60 && -60 <= 2 * (m * 60 - minute * 1_000_000)) by {
        fixed::law_rounding_within_half(minute * 1_000_000, 60);
    }
    assert(0 <= m < 1_000_000);
    assert((hour * 1_000_000 + m) / 1_000_000 == hour);
    assert((hour * 1_000_000 + m) % 1_000_000 == m);
    let x = 2 * (m * 60) + 1_000_000;
    assert(minute * 2_000_000 <= x < (minute + 1) * 2_000_000);
    assert(x / 2_000_000 == minute);
    assert(fixed::nearest(m * 60, 1_000_000) == x / 2_000_000);
}

/// Law: a model without a second slot shows every further slot of its own as off, with
/// target zero, and never shows charge slot 2 at its own registers. The slots of the
/// energy management system, HR 2044-2061, are not the inverter's.
pub proof fn law_single_slot_models(a: int, s: Schedule, extended: bool, reserve: int)
    ensures
        ({
            let w = schedule_word(a, s, extended, false, reserve);
            &&& a == 44 || a == 45 ==> w == Some(60int)
            &&& 276 <= a <= 298 && a % 3 != 2 ==> w == Some(60int)
            &&& 275 <= a <= 299 && a % 3 == 2 ==> w == Some(0int)
            &&& 246 <= a <= 268 && a % 3 != 2 ==> w == Some(60int)
            &&& 245 <= a <= 269 && a % 3 == 2 ==> w == Some(0int)
            &&& 1115 <= a <= 1116 || 1120 <= a <= 1121 ==> w == Some(60int)
            &&& 706 <= a <= 727 && (a - 700) % 6 < 4 ==> w == Some(60int)
            &&& 31 <= a <= 32 || 243 <= a <= 244 ==> w is None
        }),
{
}

/// Law: the registers of charge slot 2 are either the classic or the extended
/// ones, never both.
pub proof fn law_slot_2_has_one_home(s: Schedule, extended: bool, second: bool, reserve: int)
    ensures
        schedule_word(31, s, extended, second, reserve) is Some <==> second && !extended,
        schedule_word(32, s, extended, second, reserve) is Some <==> second && !extended,
        schedule_word(243, s, extended, second, reserve) is Some <==> second && extended,
        schedule_word(244, s, extended, second, reserve) is Some <==> second && extended,
{
}

} // verus!
