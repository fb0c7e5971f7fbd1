//! What clients can rely on when they write registers.
use crate::calendar;
use crate::fixed;
use crate::fixed::Fixed;
use crate::modbus;
use crate::modbus::{Command, Drained, ModbusCommand};
use crate::showing::{manager_words, native_holdings, plain, simulator_words, three_phase_words, words};
use crate::state::{InverterMode, PlantState, Timestamp};
use vstd::prelude::*;

verus! {

/// Law: a client that writes to HR 100 the word that HR 100 shows asks for the mode
/// that the plant is in.
pub proof fn law_mode_word_reads_back(values: Map<u32, u16>, s: PlantState)
    ensures
        words::holding(values, s, 100) is Some,
        modbus::command_for(100, words::holding(values, s, 100)->0) == Some(
            Command::SetInverterMode(s.inverter.effective_mode),
        ),
        modbus::command_for(100, 0) == Some(Command::SetInverterMode(InverterMode::Normal)),
        modbus::command_for(100, 1) == Some(Command::SetInverterMode(InverterMode::Eco)),
        modbus::command_for(100, 2) == Some(Command::SetInverterMode(InverterMode::ForceCharge)),
        modbus::command_for(100, 3) == Some(Command::SetInverterMode(InverterMode::ForceDischarge)),
        modbus::command_for(100, 4) == Some(Command::SetInverterMode(InverterMode::ExportLimit)),
{
    simulator_words::law_hr_100_to_201(values, s);
}

/// Law: words of HR 100 that name no mode ask for the normal one.
pub proof fn law_unknown_mode_word(value: u16)
    requires
        value > 4,
    ensures
        modbus::command_for(100, value) == Some(Command::SetInverterMode(InverterMode::Normal)),
{
}

/// A quantity of `n` whole units from a register word.
proof fn lemma_units(value: u16)
    ensures
        modbus::units(value)@ == value * 1_000_000,
        Fixed::of(value * 100_000)@ == value * 100_000,
{
    fixed::lemma_fixed_of(value * 1_000_000);
    fixed::lemma_fixed_of(value * 100_000);
}

/// Law: the quantity that each write of a limit, a rate or a reserve asks for.
pub proof fn law_written_quantities(v: u16)
    ensures
        modbus::command_for(50, v) matches Some(Command::SetActivePowerRate(q)) && q@ == v
            * 1_000_000,
        modbus::command_for(102, v) matches Some(Command::SetExportLimit(q)) && q@ == v * 1_000_000,
        modbus::command_for(2071, v) matches Some(Command::SetExportLimit(q)) && q@ == v
            * 1_000_000,
        modbus::command_for(1063, v) matches Some(Command::SetExportLimit(q)) && q@ == v * 100_000,
        modbus::command_for(110, v) matches Some(Command::SetMinSoc(q)) && q@ == v * 1_000_000,
        modbus::command_for(210, v) matches Some(Command::SetMinSoc(q)) && q@ == v * 1_000_000,
        modbus::command_for(211, v) matches Some(Command::SetMaxSoc(q)) && q@ == v * 1_000_000,
        modbus::command_for(111, v) matches Some(Command::SetBatteryChargeLimit(q)) && q@ == v
            * 1_000_000,
        modbus::command_for(313, v) matches Some(Command::SetBatteryChargeLimit(q)) && q@ == v
            * 1_000_000,
        modbus::command_for(1110, v) matches Some(Command::SetBatteryChargeLimit(q)) && q@ == v
            * 1_000_000,
        modbus::command_for(112, v) matches Some(Command::SetBatteryDischargeLimit(q)) && q@ == v
            * 1_000_000,
        modbus::command_for(314, v) matches Some(Command::SetBatteryDischargeLimit(q)) && q@ == v
            * 1_000_000,
        modbus::command_for(1108, v) matches Some(Command::SetBatteryDischargeLimit(q)) && q@ == v
            * 1_000_000,
        modbus::command_for(311, v) == Some(Command::SetExportPriority(v)),
{
    lemma_units(v);
}

/// Law: a switch is on for every word but zero.
pub proof fn law_written_switches(v: u16)
    ensures
        modbus::command_for(20, v) == Some(Command::SetEnableChargeTarget(v > 0)),
        modbus::command_for(166, v) == Some(Command::SetEnableRtc(v > 0)),
        modbus::command_for(199, v) == Some(Command::SetEnableInverterParallelMode(v > 0)),
        modbus::command_for(317, v) == Some(Command::SetEnableEps(v > 0)),
        modbus::command_for(2040, v) == Some(Command::SetEmsEnable(v > 0)),
        v > 0 ==> modbus::command_for(1122, v) == Some(
            Command::SetInverterMode(InverterMode::ForceDischarge),
        ) && modbus::command_for(1123, v) == Some(
            Command::SetInverterMode(InverterMode::ForceCharge),
        ),
        v == 0 ==> modbus::command_for(1122, v) == Some(
            Command::SetInverterMode(InverterMode::Eco),
        ) && modbus::command_for(1123, v) == Some(Command::SetInverterMode(InverterMode::Eco)),
        modbus::command_for(27, v) == Some(
            Command::SetInverterMode(
                if v == 1 {
                    InverterMode::Eco
                } else {
                    InverterMode::Normal
                },
            ),
        ),
        v == 0 ==> modbus::command_for(29, v) == Some(Command::CancelCalibration),
        v > 0 ==> modbus::command_for(29, v) == Some(Command::StartCalibration { module: None }),
        modbus::command_for(163, v) == (if v == 100 {
            Some(Command::InverterReboot)
        } else {
            None
        }),
{
}

/// Law: the registers that stand for a command on their own.
pub proof fn law_command_registers(a: u16, v: u16)
    ensures
        modbus::command_for(a, v) is Some <==> (a == 163 && v == 100) || seq![
            20u16,
            27,
            29,
            50,
            100,
            102,
            110,
            111,
            112,
            166,
            199,
            210,
            211,
            311,
            313,
            314,
            317,
            1063,
            1108,
            1110,
            1122,
            1123,
            2040,
            2071,
        ].contains(a),
{
    let known = seq![
        20u16,
        27,
        29,
        50,
        100,
        102,
        110,
        111,
        112,
        166,
        199,
        210,
        211,
        311,
        313,
        314,
        317,
        1063,
        1108,
        1110,
        1122,
        1123,
        2040,
        2071,
    ];
    assert(known[0] == 20 && known[1] == 27 && known[2] == 29 && known[3] == 50 && known[4] == 100
        && known[5] == 102 && known[6] == 110 && known[7] == 111 && known[8] == 112 && known[9]
        == 166 && known[10] == 199 && known[11] == 210 && known[12] == 211 && known[13] == 311
        && known[14] == 313 && known[15] == 314 && known[16] == 317 && known[17] == 1063
        && known[18] == 1108 && known[19] == 1110 && known[20] == 1122 && known[21] == 1123
        && known[22] == 2040 && known[23] == 2071);
}

/// Whether a quantity is a whole number of units that a word can hold.
pub open spec fn whole(q: Fixed) -> bool {
    q@ % 1_000_000 == 0 && 0 <= q@ <= 65_535_000_000
}

/// A whole quantity survives the way through a register.
proof fn lemma_whole(q: Fixed)
    requires
        whole(q),
    ensures
        modbus::units(plain::word(q@, 1_000_000) as u16) == q,
{
    let n = q@ / 1_000_000;
    assert(q@ == n * 1_000_000);
    assert((2 * (n * 1_000_000) + 1_000_000) / 2_000_000 == n);
    assert(plain::word(q@, 1_000_000) == n);
    lemma_units(n as u16);
    fixed::lemma_fixed_same(modbus::units(n as u16), q);
}

/// Law: a client that writes back the word of a limit, a rate or a reserve asks for
/// the quantity in force, where it is a whole one.
pub proof fn law_quantities_read_back(values: Map<u32, u16>, s: PlantState)
    ensures
        whole(s.active_power_rate_percent) ==> modbus::command_for(
            50,
            words::holding(values, s, 50)->0,
        ) == Some(Command::SetActivePowerRate(s.active_power_rate_percent)),
        whole(s.inverter.export_limit_w) ==> modbus::command_for(
            102,
            words::holding(values, s, 102)->0,
        ) == Some(Command::SetExportLimit(s.inverter.export_limit_w)) && modbus::command_for(
            2071,
            words::holding(values, s, 2071)->0,
        ) == Some(Command::SetExportLimit(s.inverter.export_limit_w)),
        whole(s.battery.min_soc_percent) ==> modbus::command_for(
            110,
            words::holding(values, s, 110)->0,
        ) == Some(Command::SetMinSoc(s.battery.min_soc_percent)) && modbus::command_for(
            210,
            words::holding(values, s, 210)->0,
        ) == Some(Command::SetMinSoc(s.battery.min_soc_percent)),
        whole(s.battery.max_soc_percent) ==> modbus::command_for(
            211,
            words::holding(values, s, 211)->0,
        ) == Some(Command::SetMaxSoc(s.battery.max_soc_percent)),
        whole(s.battery_charge_limit_percent) ==> modbus::command_for(
            111,
            words::holding(values, s, 111)->0,
        ) == Some(Command::SetBatteryChargeLimit(s.battery_charge_limit_percent))
            && modbus::command_for(313, words::holding(values, s, 313)->0) == Some(
            Command::SetBatteryChargeLimit(s.battery_charge_limit_percent),
        ) && modbus::command_for(1110, words::holding(values, s, 1110)->0) == Some(
            Command::SetBatteryChargeLimit(s.battery_charge_limit_percent),
        ),
        whole(s.battery_discharge_limit_percent) ==> modbus::command_for(
            112,
            words::holding(values, s, 112)->0,
        ) == Some(Command::SetBatteryDischargeLimit(s.battery_discharge_limit_percent))
            && modbus::command_for(314, words::holding(values, s, 314)->0) == Some(
            Command::SetBatteryDischargeLimit(s.battery_discharge_limit_percent),
        ) && modbus::command_for(1108, words::holding(values, s, 1108)->0) == Some(
            Command::SetBatteryDischargeLimit(s.battery_discharge_limit_percent),
        ),
        modbus::command_for(311, words::holding(values, s, 311)->0) == Some(
            Command::SetExportPriority(s.export_priority),
        ),
{
    native_holdings::law_hr_49_to_56(values, s);
    simulator_words::law_hr_100_to_201(values, s);
    manager_words::law_hr_2040_to_2071(values, s);
    native_holdings::law_hr_96_to_111(values, s);
    native_holdings::law_hr_112_to_116(values, s);
    simulator_words::law_hr_210_to_300(values, s);
    native_holdings::law_hr_199_to_320(values, s);
    native_holdings::law_hr_311_to_317(values, s);
    three_phase_words::law_hr_1063_to_1123(values, s);
    if whole(s.active_power_rate_percent) {
        lemma_whole(s.active_power_rate_percent);
    }
    if whole(s.inverter.export_limit_w) {
        lemma_whole(s.inverter.export_limit_w);
    }
    if whole(s.battery.min_soc_percent) {
        lemma_whole(s.battery.min_soc_percent);
    }
    if whole(s.battery.max_soc_percent) {
        lemma_whole(s.battery.max_soc_percent);
    }
    if whole(s.battery_charge_limit_percent) {
        lemma_whole(s.battery_charge_limit_percent);
    }
    if whole(s.battery_discharge_limit_percent) {
        lemma_whole(s.battery_discharge_limit_percent);
    }
}

/// Law: a client that writes back the word of a switch asks for the state it is in.
pub proof fn law_switches_read_back(values: Map<u32, u16>, s: PlantState)
    ensures
        modbus::command_for(20, words::holding(values, s, 20)->0) == Some(
            Command::SetEnableChargeTarget(s.enable_charge_target),
        ),
        modbus::command_for(166, words::holding(values, s, 166)->0) == Some(
            Command::SetEnableRtc(s.enable_rtc),
        ),
        modbus::command_for(199, words::holding(values, s, 199)->0) == Some(
            Command::SetEnableInverterParallelMode(s.enable_inverter_parallel_mode),
        ),
        modbus::command_for(317, words::holding(values, s, 317)->0) == Some(
            Command::SetEnableEps(s.enable_eps),
        ),
        modbus::command_for(2040, words::holding(values, s, 2040)->0) == Some(
            Command::SetEmsEnable(s.ems_enabled),
        ),
{
    native_holdings::law_hr_19_to_26(values, s);
    native_holdings::law_hr_125_to_168(values, s);
    native_holdings::law_hr_199_to_320(values, s);
    native_holdings::law_hr_311_to_317(values, s);
    manager_words::law_hr_2040_to_2071(values, s);
}

/// Law: the last write to a register counts, and writes to other registers leave it
/// alone.
pub proof fn law_last_write_counts(writes: Seq<ModbusCommand>, w: ModbusCommand, a: int)
    ensures
        modbus::last_written(Seq::empty(), a) is None,
        modbus::last_written(writes.push(w), w.address as int) == Some(w.value),
        a != w.address ==> modbus::last_written(writes.push(w), a) == modbus::last_written(
            writes,
            a,
        ),
{
    assert(writes.push(w).drop_last() =~= writes);
}

/// Law: writes lead to their commands one by one, in the order in which they came.
pub proof fn law_commands_in_order(writes: Seq<ModbusCommand>, w: ModbusCommand)
    ensures
        modbus::direct_commands(Seq::empty()) == Seq::<Command>::empty(),
        modbus::command_for(w.address, w.value) matches Some(c)
            ==> modbus::direct_commands(writes.push(w)) == modbus::direct_commands(writes).push(c),
        modbus::command_for(w.address, w.value) is None ==> modbus::direct_commands(writes.push(w))
            == modbus::direct_commands(writes),
{
    assert(writes.push(w).drop_last() =~= writes);
}

/// Law: what the schedule learns of a batch: the last word of each of its registers
/// and of the pause registers, and of no other.
pub proof fn law_gathered_words(writes: Seq<ModbusCommand>, a: u16)
    ensures
        modbus::gathered(writes).get(a) == (if modbus::schedule_register(a as int) || a == 318 || a
            == 319 || a == 320 {
            modbus::last_written(writes, a as int)
        } else {
            None
        }),
    decreases writes.len(),
{
    if writes.len() > 0 {
        law_gathered_words(writes.drop_last(), a);
    }
}

/// The six writes that set the clock.
pub open spec fn clock_writes(
    year: u16,
    month: u16,
    day: u16,
    hour: u16,
    minute: u16,
    second: u16,
) -> Seq<ModbusCommand> {
    seq![
        ModbusCommand { address: 35, value: year },
        ModbusCommand { address: 36, value: month },
        ModbusCommand { address: 37, value: day },
        ModbusCommand { address: 38, value: hour },
        ModbusCommand { address: 39, value: minute },
        ModbusCommand { address: 40, value: second },
    ]
}

/// Law: writes of year, month, day, hour, minute and second to HR 35-40 set the
/// clock to that moment, where there is one, and do nothing else.
#[verifier::rlimit(40)]
pub proof fn law_clock_writes(
    clock: Seq<Option<u16>>,
    s: PlantState,
    year: u16,
    month: u16,
    day: u16,
    hour: u16,
    minute: u16,
    second: u16,
)
    requires
        clock.len() == 6,
    ensures
        ({
            let w = clock_writes(year, month, day, hour, minute, second);
            let t = Timestamp {
                year: year as i32,
                month: month as u32,
                day: day as u32,
                hour: hour as u32,
                minute: minute as u32,
                second: second as u32,
                nanosecond: 0,
            };
            modbus::batch_commands(w, clock, s) == (if calendar::exists_moment(t) {
                seq![Command::SetSimulationTime(t)]
            } else {
                Seq::empty()
            })
        }),
{
    let w = clock_writes(year, month, day, hour, minute, second);
    reveal_with_fuel(modbus::last_written, 7);
    reveal_with_fuel(modbus::direct_commands, 7);
    let after = modbus::clock_after(clock, w);
    assert(w.drop_last().len() == 5);
    assert(after[0] == Some(year));
    assert(after[1] == Some(month));
    assert(after[2] == Some(day));
    assert(after[3] == Some(hour));
    assert(after[4] == Some(minute));
    assert(after[5] == Some(second));
    assert(modbus::clock_full(after));
    assert(modbus::direct_commands(w) =~= Seq::empty());
    assert(modbus::last_written(w, 318) is None);
    assert(modbus::last_written(w, 319) is None);
    assert(modbus::last_written(w, 320) is None);
    assert(modbus::batch_commands(w, clock, s) =~= (if calendar::day_exists(
        year as int,
        month as int,
        day as int,
    ) && calendar::time_exists(hour as int, minute as int, second as int) {
        seq![
            Command::SetSimulationTime(
                Timestamp {
                    year: year as i32,
                    month: month as u32,
                    day: day as u32,
                    hour: hour as u32,
                    minute: minute as u32,
                    second: second as u32,
                    nanosecond: 0,
                },
            ),
        ]
    } else {
        Seq::empty()
    }));
}

/// Law: while a clock register is still missing, no clock write leads to a command.
pub proof fn law_partial_clock_waits(
    writes: Seq<ModbusCommand>,
    clock: Seq<Option<u16>>,
    s: PlantState,
    i: int,
)
    requires
        clock.len() == 6,
        0 <= i < 6,
        clock[i] is None,
        modbus::last_written(writes, 35 + i) is None,
        modbus::last_written(writes, 318) is None,
        modbus::last_written(writes, 319) is None,
        modbus::last_written(writes, 320) is None,
    ensures
        modbus::batch_commands(writes, clock, s) == modbus::direct_commands(writes),
        modbus::clock_after(clock, writes)[i] is None,
{
    assert(modbus::clock_after(clock, writes)[i] is None);
}

/// Law: a write to a pause register adds one command, after all others, with the last
/// words written and the values in force for the rest.
pub proof fn law_pause_writes(
    writes: Seq<ModbusCommand>,
    clock: Seq<Option<u16>>,
    s: PlantState,
)
    requires
        modbus::last_written(writes, 318) is Some || modbus::last_written(writes, 319) is Some
            || modbus::last_written(writes, 320) is Some,
    ensures
        ({
            let all = modbus::batch_commands(writes, clock, s);
            &&& all.len() > 0
            &&& all.last() matches Command::SetBatteryPause { mode, start, end } && {
                &&& mode == (match modbus::last_written(writes, 318) {
                    Some(v) => v,
                    None => s.battery_pause_mode,
                })
                &&& start == (match modbus::last_written(writes, 319) {
                    Some(v) => v,
                    None => s.battery_pause_slot_start,
                })
                &&& end == (match modbus::last_written(writes, 320) {
                    Some(v) => v,
                    None => s.battery_pause_slot_end,
                })
            }
        }),
{
}

/// Law: a register write asks for what its command says, and HR 100 for the mode whose
/// word it shows.
pub proof fn law_mode_writes(
    values: Map<u32, u16>,
    s: PlantState,
    word: u16,
    r: Option<Command>,
    schedule: bool,
)
    requires
        words::holding(values, s, 100) == Some(word),
        call_ensures(modbus::modbus_address_to_command, (100, word), r),
        call_ensures(modbus::is_schedule_register, (100,), schedule),
    ensures
        r == Some(Command::SetInverterMode(s.inverter.effective_mode)),
        !schedule,
{
    law_mode_word_reads_back(values, s);
}

/// Law: a batch of writes leads to its commands, to the words for the schedule, and to a
/// change of the schedule exactly where some write names one of its registers. The clock
/// registers wait for each other and are forgotten once all six are there.
pub proof fn law_batch(
    writes: Vec<ModbusCommand>,
    clock: &mut [Option<u16>; 6],
    s: PlantState,
    r: Drained,
    i: int,
    a: u16,
)
    requires
        call_ensures(modbus::drain_modbus_writes, (&writes, clock, &s), r),
    ensures
        r.commands@ == modbus::batch_commands(writes@, old(clock)@, s),
        r.schedule_updates@.get(a) == (if modbus::schedule_register(a as int) || a == 318 || a
            == 319 || a == 320 {
            modbus::last_written(writes@, a as int)
        } else {
            None
        }),
        0 <= i < writes@.len() && modbus::schedule_register(writes@[i].address as int)
            ==> r.schedule_dirty,
        r.schedule_dirty ==> exists|j: int|
            0 <= j < writes@.len() && modbus::schedule_register(
                (#[trigger] writes@[j]).address as int,
            ),
        0 <= i < 6 && modbus::last_written(writes@, 35 + i) is None && old(clock)@[i] is None
            ==> final(clock)@ == modbus::clock_after(old(clock)@, writes@),
        (forall|j: int|
            0 <= j < 6 ==> modbus::last_written(writes@, 35 + j) is Some || (
            #[trigger] old(clock)@[j]) is Some) && 0 <= i < 6 ==> final(clock)@[i] is None,
{
    law_gathered_words(writes@, a);
    let after = modbus::clock_after(old(clock)@, writes@);
    if 0 <= i < 6 && modbus::last_written(writes@, 35 + i) is None && old(clock)@[i] is None {
        assert(after[i] is None);
    }
    if forall|j: int|
        0 <= j < 6 ==> modbus::last_written(writes@, 35 + j) is Some || (
        #[trigger] old(clock)@[j]) is Some {
        assert forall|j: int| 0 <= j < 6 implies (#[trigger] after[j]) is Some by {
            assert(old(clock)@[j] is Some || modbus::last_written(writes@, 35 + j) is Some);
        }
        assert(modbus::clock_full(after));
    }
}

/// Law: a batch gives its direct commands first, then the clock, then the pause.
pub proof fn law_batch_order(writes: Seq<ModbusCommand>, clock: Seq<Option<u16>>, s: PlantState)
    ensures
        ({
            let direct = modbus::direct_commands(writes);
            let all = modbus::batch_commands(writes, clock, s);
            let n = direct.len() as int;
            &&& direct.len() <= all.len() <= direct.len() + 2
            &&& all.take(n) == direct
            &&& all.len() == direct.len() + 2 ==> all[n] is SetSimulationTime && all[n + 1]
                is SetBatteryPause
            &&& all.len() == direct.len() + 1 ==> all[n] is SetSimulationTime || all[n]
                is SetBatteryPause
        }),
{
    let direct = modbus::direct_commands(writes);
    let all = modbus::batch_commands(writes, clock, s);
    assert(all.take(direct.len() as int) =~= direct);
}

} // verus!
