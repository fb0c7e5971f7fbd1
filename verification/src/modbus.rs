//! Register writes of Modbus clients, turned into commands for the simulation.
use crate::calendar;
use crate::calendar::moment;
use crate::fixed::Fixed;
use crate::projection;
use crate::state::{InverterMode, PlantState, Timestamp, WeatherCondition};
use std::collections::HashMap;
use vstd::prelude::*;

verus! {

broadcast use vstd::std_specs::hash::group_hash_axioms;

/// A command for the simulation engine.
#[derive(Clone, Debug)]
pub enum Command {
    SetInverterMode(InverterMode),
    SetExportLimit(Fixed),
    SetActivePowerRate(Fixed),
    SetMinSoc(Fixed),
    SetMaxSoc(Fixed),
    SetBatteryChargeLimit(Fixed),
    SetBatteryDischargeLimit(Fixed),
    SetBatteryPause { mode: u16, start: u16, end: u16 },
    SetEnableChargeTarget(bool),
    SetEnableRtc(bool),
    SetEnableEps(bool),
    SetEnableInverterParallelMode(bool),
    SetEmsEnable(bool),
    SetExportPriority(u16),
    StartCalibration { module: Option<usize> },
    CancelCalibration,
    InverterReboot,
    SetSimulationTime(Timestamp),
    SetTickInterval(u64),
    SetWeather(WeatherCondition),
    InjectFault(String),
    ClearFault(String),
}

/// A register write that a client sent.
#[derive(Clone, Copy, Debug)]
pub struct ModbusCommand {
    pub address: u16,
    pub value: u16,
}

/// The quantity of `value` whole units.
pub open spec fn units(value: u16) -> Fixed {
    Fixed::of(value * 1_000_000)
}

/// The mode that HR 100 selects.
pub open spec fn numbered_mode(value: u16) -> InverterMode {
    if value == 1 {
        InverterMode::Eco
    } else if value == 2 {
        InverterMode::ForceCharge
    } else if value == 3 {
        InverterMode::ForceDischarge
    } else if value == 4 {
        InverterMode::ExportLimit
    } else {
        InverterMode::Normal
    }
}

/// The command that a write of `value` to holding register `address` stands for.
/// The slots, the pause window and the clock have none: they are gathered first.
pub open spec fn command_for(address: u16, value: u16) -> Option<Command> {
    if address == 20 {
        Some(Command::SetEnableChargeTarget(value != 0))
    } else if address == 27 {
        Some(
            Command::SetInverterMode(
                if value == 1 {
                    InverterMode::Eco
                } else {
                    InverterMode::Normal
                },
            ),
        )
    } else if address == 29 {
        if value == 0 {
            Some(Command::CancelCalibration)
        } else {
            Some(Command::StartCalibration { module: None })
        }
    } else if address == 50 {
        Some(Command::SetActivePowerRate(units(value)))
    } else if address == 100 {
        Some(Command::SetInverterMode(numbered_mode(value)))
    } else if address == 102 || address == 2071 {
        Some(Command::SetExportLimit(units(value)))
    } else if address == 110 || address == 210 {
        Some(Command::SetMinSoc(units(value)))
    } else if address == 111 || address == 313 || address == 1110 {
        Some(Command::SetBatteryChargeLimit(units(value)))
    } else if address == 112 || address == 314 || address == 1108 {
        Some(Command::SetBatteryDischargeLimit(units(value)))
    } else if address == 163 {
        if value == 100 {
            Some(Command::InverterReboot)
        } else {
            None
        }
    } else if address == 166 {
        Some(Command::SetEnableRtc(value != 0))
    } else if address == 199 {
        Some(Command::SetEnableInverterParallelMode(value != 0))
    } else if address == 211 {
        Some(Command::SetMaxSoc(units(value)))
    } else if address == 311 {
        Some(Command::SetExportPriority(value))
    } else if address == 317 {
        Some(Command::SetEnableEps(value != 0))
    } else if address == 1063 {
        Some(Command::SetExportLimit(Fixed::of(value * 100_000)))
    } else if address == 1122 {
        Some(
            Command::SetInverterMode(
                if value != 0 {
                    InverterMode::ForceDischarge
                } else {
                    InverterMode::Eco
                },
            ),
        )
    } else if address == 1123 {
        Some(
            Command::SetInverterMode(
                if value != 0 {
                    InverterMode::ForceCharge
                } else {
                    InverterMode::Eco
                },
            ),
        )
    } else if address == 2040 {
        Some(Command::SetEmsEnable(value != 0))
    } else {
        None
    }
}

/// The quantity of `value` whole units.
fn units_of(value: u16) -> (r: Fixed)
    ensures
        r == units(value),
{
    Fixed::from_units(value as i32)
}

/// The command that a register write stands for.
pub fn modbus_address_to_command(address: u16, value: u16) -> (r: Option<Command>)
    ensures
        r == command_for(address, value),
{
    if address == 20 {
        Some(Command::SetEnableChargeTarget(value != 0))
    } else if address == 27 {
        if value == 1 {
            Some(Command::SetInverterMode(InverterMode::Eco))
        } else {
            Some(Command::SetInverterMode(InverterMode::Normal))
        }
    } else if address == 29 {
        if value == 0 {
            Some(Command::CancelCalibration)
        } else {
            Some(Command::StartCalibration { module: None })
        }
    } else if address == 50 {
        Some(Command::SetActivePowerRate(units_of(value)))
    } else if address == 100 {
        let mode: InverterMode = if value == 1 {
            InverterMode::Eco
        } else if value == 2 {
            InverterMode::ForceCharge
        } else if value == 3 {
            InverterMode::ForceDischarge
        } else if value == 4 {
            InverterMode::ExportLimit
        } else {
            InverterMode::Normal
        };
        Some(Command::SetInverterMode(mode))
    } else if address == 102 || address == 2071 {
        Some(Command::SetExportLimit(units_of(value)))
    } else if address == 110 || address == 210 {
        Some(Command::SetMinSoc(units_of(value)))
    } else if address == 111 || address == 313 || address == 1110 {
        Some(Command::SetBatteryChargeLimit(units_of(value)))
    } else if address == 112 || address == 314 || address == 1108 {
        Some(Command::SetBatteryDischargeLimit(units_of(value)))
    } else if address == 163 {
        if value == 100 {
            Some(Command::InverterReboot)
        } else {
            None
        }
    } else if address == 166 {
        Some(Command::SetEnableRtc(value != 0))
    } else if address == 199 {
        Some(Command::SetEnableInverterParallelMode(value != 0))
    } else if address == 211 {
        Some(Command::SetMaxSoc(units_of(value)))
    } else if address == 311 {
        Some(Command::SetExportPriority(value))
    } else if address == 317 {
        Some(Command::SetEnableEps(value != 0))
    } else if address == 1063 {
        Some(Command::SetExportLimit(Fixed::from_micros(value as i64 * 100_000)))
    } else if address == 1122 {
        if value != 0 {
            Some(Command::SetInverterMode(InverterMode::ForceDischarge))
        } else {
            Some(Command::SetInverterMode(InverterMode::Eco))
        }
    } else if address == 1123 {
        if value != 0 {
            Some(Command::SetInverterMode(InverterMode::ForceCharge))
        } else {
            Some(Command::SetInverterMode(InverterMode::Eco))
        }
    } else if address == 2040 {
        Some(Command::SetEmsEnable(value != 0))
    } else {
        None
    }
}

/// Whether `a` is a holding register of the schedule.
pub open spec fn schedule_register(a: int) -> bool {
    ||| 31 <= a <= 32
    ||| 44 <= a <= 45
    ||| 56 <= a <= 57
    ||| a == 59
    ||| 94 <= a <= 96
    ||| a == 116
    ||| 242 <= a <= 269
    ||| a == 272
    ||| 275 <= a <= 299
    ||| a == 1109
    ||| 1111 <= a <= 1116
    ||| 1118 <= a <= 1121
    ||| 2044 <= a <= 2070
}

/// Whether a register belongs to the schedule. HR 2071 does not: its writes are
/// export limits.
pub fn is_schedule_register(addr: u16) -> (r: bool)
    ensures
        r == schedule_register(addr as int),
{
    (31 <= addr && addr <= 32) || (44 <= addr && addr <= 45) || (56 <= addr && addr <= 57) || addr
        == 59 || (94 <= addr && addr <= 96) || addr == 116 || (242 <= addr && addr <= 269) || addr
        == 272 || (275 <= addr && addr <= 299) || addr == 1109 || (1111 <= addr && addr <= 1116)
        || (1118 <= addr && addr <= 1121) || (2044 <= addr && addr <= 2070)
}

/// The commands that the writes stand for one by one, in order.
pub open spec fn direct_commands(writes: Seq<ModbusCommand>) -> Seq<Command>
    decreases writes.len(),
{
    if writes.len() == 0 {
        Seq::empty()
    } else {
        let before = direct_commands(writes.drop_last());
        match command_for(writes.last().address, writes.last().value) {
            Some(c) => before.push(c),
            None => before,
        }
    }
}

/// The value last written to `address`, if any.
pub open spec fn last_written(writes: Seq<ModbusCommand>, address: int) -> Option<u16>
    decreases writes.len(),
{
    if writes.len() == 0 {
        None
    } else if writes.last().address == address {
        Some(writes.last().value)
    } else {
        last_written(writes.drop_last(), address)
    }
}

/// Whether `a` is one of the pause registers.
pub open spec fn pause_register(a: int) -> bool {
    318 <= a <= 320
}

/// The last values of the schedule and pause registers that the writes name.
pub open spec fn gathered(writes: Seq<ModbusCommand>) -> Map<u16, u16>
    decreases writes.len(),
{
    if writes.len() == 0 {
        Map::empty()
    } else {
        let before = gathered(writes.drop_last());
        let a = writes.last().address;
        if schedule_register(a as int) || pause_register(a as int) {
            before.insert(a, writes.last().value)
        } else {
            before
        }
    }
}

/// Whether some write names a schedule register.
pub open spec fn touches_schedule(writes: Seq<ModbusCommand>) -> bool {
    exists|i: int| 0 <= i < writes.len() && schedule_register((#[trigger] writes[i]).address as int)
}

/// The six clock registers HR 35-40 after the writes.
pub open spec fn clock_after(
    clock: Seq<Option<u16>>,
    writes: Seq<ModbusCommand>,
) -> Seq<Option<u16>> {
    Seq::new(
        6,
        |i: int|
            match last_written(writes, 35 + i) {
                Some(v) => Some(v),
                None => clock[i],
            },
    )
}

/// Whether all six clock registers have been written.
pub open spec fn clock_full(clock: Seq<Option<u16>>) -> bool {
    forall|i: int| 0 <= i < 6 ==> (#[trigger] clock[i]) is Some
}

/// The command that a full clock leads to: none where it shows no moment.
pub open spec fn clock_command(clock: Seq<Option<u16>>) -> Option<Command> {
    let year = clock[0]->0;
    let month = clock[1]->0;
    let day = clock[2]->0;
    let hour = clock[3]->0;
    let minute = clock[4]->0;
    let second = clock[5]->0;
    if calendar::day_exists(year as int, month as int, day as int) && calendar::time_exists(
        hour as int,
        minute as int,
        second as int,
    ) {
        Some(
            Command::SetSimulationTime(
                Timestamp {
                    year: year as i32,
                    month: month as u32,
                    day: day as u32,
                    hour: hour as u32,
                    minute: minute as u32,
                    second: second as u32,
                    nanosecond: 0,
                },
            ),
        )
    } else {
        None
    }
}

/// The value written, or else the value in force.
pub open spec fn or_live(written: Option<u16>, live: u16) -> u16 {
    match written {
        Some(v) => v,
        None => live,
    }
}

/// The pause window that the writes lead to: a field that no write names keeps the
/// value in force.
pub open spec fn pause_command(writes: Seq<ModbusCommand>, s: PlantState) -> Option<Command> {
    let mode = last_written(writes, 318);
    let start = last_written(writes, 319);
    let end = last_written(writes, 320);
    if mode is None && start is None && end is None {
        None
    } else {
        Some(
            Command::SetBatteryPause {
                mode: or_live(mode, s.battery_pause_mode),
                start: or_live(start, s.battery_pause_slot_start),
                end: or_live(end, s.battery_pause_slot_end),
            },
        )
    }
}

/// A sequence with an optional element at its end.
pub open spec fn with(s: Seq<Command>, c: Option<Command>) -> Seq<Command> {
    match c {
        Some(x) => s.push(x),
        None => s,
    }
}

/// All commands that a batch of writes leads to: the direct ones, then the clock
/// once it is full, then the pause window.
pub open spec fn batch_commands(
    writes: Seq<ModbusCommand>,
    clock: Seq<Option<u16>>,
    s: PlantState,
) -> Seq<Command> {
    let after = clock_after(clock, writes);
    with(
        with(
            direct_commands(writes),
            if clock_full(after) {
                clock_command(after)
            } else {
                None
            },
        ),
        pause_command(writes, s),
    )
}

/// What a batch of writes leads to.
#[derive(Debug)]
pub struct Drained {
    /// For the engine, in order.
    pub commands: Vec<Command>,
    /// For the schedule, by address.
    pub schedule_updates: HashMap<u16, u16>,
    /// Whether the schedule changes at all.
    pub schedule_dirty: bool,
}

/// Appends an optional command.
fn push_some(v: &mut Vec<Command>, c: Option<Command>)
    ensures
        final(v)@ == with(old(v)@, c),
{
    match c {
        Some(x) => v.push(x),
        None => {},
    }
}

/// Works off a batch of register writes before a tick. `clock` keeps the clock
/// registers written so far and is emptied once all six have been.
pub fn drain_modbus_writes(
    writes: &Vec<ModbusCommand>,
    clock: &mut [Option<u16>; 6],
    s: &PlantState,
) -> (r: Drained)
    ensures
        r.commands@ == batch_commands(writes@, old(clock)@, *s),
        r.schedule_updates@ == gathered(writes@),
        r.schedule_dirty == touches_schedule(writes@),
        ({
            let after = clock_after(old(clock)@, writes@);
            final(clock)@ == (if clock_full(after) {
                Seq::new(6, |i: int| None::<u16>)
            } else {
                after
            })
        }),
{
    let mut commands: Vec<Command> = Vec::new();
    let mut updates: HashMap<u16, u16> = HashMap::new();
    let mut dirty: bool = false;
    let mut pause_mode: Option<u16> = None;
    let mut pause_start: Option<u16> = None;
    let mut pause_end: Option<u16> = None;
    let ghost first = clock@;
    let mut i: usize = 0;
    assert(writes@.take(0) =~= Seq::empty());
    assert(clock@ =~= clock_after(first, writes@.take(0)));
    while i < writes.len()
        invariant
            i <= writes.len(),
            commands@ == direct_commands(writes@.take(i as int)),
            updates@ == gathered(writes@.take(i as int)),
            dirty == touches_schedule(writes@.take(i as int)),
            pause_mode == last_written(writes@.take(i as int), 318),
            pause_start == last_written(writes@.take(i as int), 319),
            pause_end == last_written(writes@.take(i as int), 320),
            clock@ == clock_after(first, writes@.take(i as int)),
        decreases writes.len() - i,
    {
        let ghost before = writes@.take(i as int);
        let ghost now = writes@.take(i + 1);
        assert(now.drop_last() =~= before);
        assert(now.last() == writes@[i as int]);
        let a: u16 = writes[i].address;
        let v: u16 = writes[i].value;
        if 35 <= a && a <= 40 {
            clock[(a - 35) as usize] = Some(v);
        } else if a == 318 {
            pause_mode = Some(v);
        } else if a == 319 {
            pause_start = Some(v);
        } else if a == 320 {
            pause_end = Some(v);
        }
        assert(clock@ =~= clock_after(first, now));
        if is_schedule_register(a) {
            dirty = true;
        }
        proof {
            if schedule_register(a as int) {
                assert(schedule_register(now[i as int].address as int));
            }
            if touches_schedule(before) {
                let j = choose|j: int|
                    0 <= j < before.len() && schedule_register(
                        (#[trigger] before[j]).address as int,
                    );
                assert(schedule_register(now[j].address as int));
            }
            if touches_schedule(now) {
                let j = choose|j: int|
                    0 <= j < now.len() && schedule_register((#[trigger] now[j]).address as int);
                if j < i {
                    assert(schedule_register(before[j].address as int));
                }
            }
        }
        if is_schedule_register(a) || (318 <= a && a <= 320) {
            updates.insert(a, v);
        }
        push_some(&mut commands, modbus_address_to_command(a, v));
        i += 1;
    }
    assert(writes@.take(i as int) =~= writes@);
    if clock[0].is_some() && clock[1].is_some() && clock[2].is_some() && clock[3].is_some()
        && clock[4].is_some() && clock[5].is_some() {
        let at = moment(
            clock[0].unwrap() as i32,
            clock[1].unwrap() as u32,
            clock[2].unwrap() as u32,
            clock[3].unwrap() as u32,
            clock[4].unwrap() as u32,
            clock[5].unwrap() as u32,
        );
        assert(clock_full(clock@));
        match at {
            Some(t) => commands.push(Command::SetSimulationTime(t)),
            None => {},
        }
        *clock = [None, None, None, None, None, None];
        assert(clock@ =~= Seq::new(6, |i: int| None::<u16>));
    }
    if pause_mode.is_some() || pause_start.is_some() || pause_end.is_some() {
        let mode: u16 = match pause_mode {
            Some(v) => v,
            None => s.battery_pause_mode,
        };
        let start: u16 = match pause_start {
            Some(v) => v,
            None => s.battery_pause_slot_start,
        };
        let end: u16 = match pause_end {
            Some(v) => v,
            None => s.battery_pause_slot_end,
        };
        commands.push(Command::SetBatteryPause { mode, start, end });
    }
    Drained { commands, schedule_updates: updates, schedule_dirty: dirty }
}

/// Law: a register write is a command of its own or a part of the schedule, never
/// both, and the pause and clock registers are neither.
pub proof fn law_writes_are_routed_once(address: u16, value: u16)
    ensures
        schedule_register(address as int) ==> command_for(address, value) is None,
        pause_register(address as int) ==> command_for(address, value) is None
            && !schedule_register(address as int),
        35 <= address <= 40 ==> command_for(address, value) is None && !schedule_register(
            address as int,
        ),
{
}

/// Law: an export limit written to a register reads back from the register: HR 102
/// and HR 2071 in watts, HR 1063 in tenths of a watt.
pub proof fn law_export_limit_reads_back(value: u16)
    ensures
        command_for(102, value) matches Some(Command::SetExportLimit(q)) && projection::scaled(
            q@,
            1,
            1_000_000,
        ) == value,
        command_for(2071, value) matches Some(Command::SetExportLimit(q)) && projection::scaled(
            q@,
            1,
            1_000_000,
        ) == value,
        command_for(1063, value) matches Some(Command::SetExportLimit(q)) && projection::scaled(
            q@,
            1,
            100_000,
        ) == value,
{
    crate::fixed::lemma_fixed_of(value * 1_000_000);
    crate::fixed::lemma_fixed_of(value * 100_000);
    assert((2 * (value * 1_000_000) + 1_000_000) / 2_000_000int == value);
    assert((2 * (value * 100_000) + 100_000) / 200_000int == value);
    assert(crate::fixed::nearest(value * 1_000_000, 1_000_000) == value);
    assert(crate::fixed::nearest(value * 100_000, 100_000) == value);
}

/// Law: a lone write to one pause register leaves the other two fields as they
/// are.
pub proof fn law_lone_pause_write(address: u16, value: u16, s: PlantState)
    requires
        pause_register(address as int),
    ensures
        pause_command(seq![ModbusCommand { address, value }], s) == Some(
            Command::SetBatteryPause {
                mode: if address == 318 {
                    value
                } else {
                    s.battery_pause_mode
                },
                start: if address == 319 {
                    value
                } else {
                    s.battery_pause_slot_start
                },
                end: if address == 320 {
                    value
                } else {
                    s.battery_pause_slot_end
                },
            },
        ),
{
    let w = seq![ModbusCommand { address, value }];
    assert(w.last() == ModbusCommand { address, value });
    assert(w.drop_last() =~= Seq::empty());
    reveal_with_fuel(last_written, 2);
}

/// Law: writes that name neither a pause register nor a clock register lead to
/// their direct commands only.
pub proof fn law_plain_writes(
    writes: Seq<ModbusCommand>,
    clock: Seq<Option<u16>>,
    s: PlantState,
)
    requires
        clock.len() == 6,
        clock[0] is None,
        forall|i: int|
            0 <= i < writes.len() ==> !pause_register((#[trigger] writes[i]).address as int) && !(35
                <= writes[i].address <= 40),
    ensures
        batch_commands(writes, clock, s) == direct_commands(writes),
        clock_after(clock, writes) == clock,
{
    assert forall|a: int| pause_register(a) || 35 <= a <= 40 implies #[trigger] last_written(
        writes,
        a,
    ) is None by {
        lemma_not_written(writes, a);
    }
    assert(clock_after(clock, writes) =~= clock);
    assert(!clock_full(clock));
}

/// A register that no write names has no last value.
proof fn lemma_not_written(writes: Seq<ModbusCommand>, a: int)
    requires
        forall|i: int| 0 <= i < writes.len() ==> (#[trigger] writes[i]).address != a,
    ensures
        last_written(writes, a) is None,
    decreases writes.len(),
{
    if writes.len() > 0 {
        assert(writes.last() == writes[writes.len() - 1]);
        assert forall|i: int| 0 <= i < writes.drop_last().len() implies (
        #[trigger] writes.drop_last()[i]).address != a by {
            assert(writes.drop_last()[i] == writes[i]);
        }
        lemma_not_written(writes.drop_last(), a);
    }
}

} // verus!
