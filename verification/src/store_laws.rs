//! What clients of a register bank can rely on.
use crate::battery_bank_laws;
use crate::battery_banks;
use crate::catalogue;
use crate::commands;
use crate::modbus;
use crate::modbus::Command;
use crate::modbus_laws;
use crate::projection;
use crate::registers;
use crate::registers::{Definition, RegisterDef, RegisterSpace, RegisterStore};
use crate::schedule::Schedule;
use crate::schedule_laws;
use crate::showing::{native_inputs, plain};
use crate::state::{BatteryState, PlantState};
use vstd::prelude::*;

verus! {

/// Law: an input register stands under its address, a holding register ten thousand
/// above it. A read without a space prefers the holding register.
pub proof fn law_reads(
    store: RegisterStore,
    a: u16,
    input: Option<u16>,
    holding: Option<u16>,
    any: Option<u16>,
)
    requires
        call_ensures(RegisterStore::read_by_space, (&store, a, RegisterSpace::Input), input),
        call_ensures(RegisterStore::read_by_space, (&store, a, RegisterSpace::Holding), holding),
        call_ensures(RegisterStore::read, (&store, a), any),
    ensures
        input == store.values().get(a as u32),
        holding == store.values().get((10_000 + a) as u32),
        holding is Some ==> any == holding,
        holding is None ==> any == input,
{
}

/// Law: a write is taken exactly by a holding register that accepts it, reads back there,
/// and leaves all others alone.
pub proof fn law_writes(store: &mut RegisterStore, a: u16, value: u16, r: bool, k: u32)
    requires
        call_ensures(RegisterStore::write, (store, a, value), r),
    ensures
        r == registers::writable(old(store).defs(), a as int),
        r ==> final(store).values().get((10_000 + a) as u32) == Some(value),
        k != 10_000 + a || !r ==> final(store).values().get(k) == old(store).values().get(k),
        final(store).defs() == old(store).defs(),
{
}

/// Law: a snapshot holds every holding register under its address.
pub proof fn law_snapshot(store: RegisterStore, r: std::collections::HashMap<u16, u16>, a: u16)
    requires
        call_ensures(RegisterStore::snapshot_holding, (&store,), r),
    ensures
        r@.get(a) == store.values().get((10_000 + a) as u32),
{
}

/// Law: a range of addresses has a register exactly when some definition lies in it.
pub proof fn law_range(
    store: RegisterStore,
    start: u16,
    count: u16,
    space: RegisterSpace,
    r: bool,
    i: int,
)
    requires
        call_ensures(RegisterStore::has_any_def_in_range, (&store, start, count, space), r),
        start + count <= 65535,
    ensures
        0 <= i < store.defs().len() && store.defs()[i].space == space && start
            <= store.defs()[i].address < start + count ==> r,
        r ==> exists|j: int|
            0 <= j < store.defs().len() && (#[trigger] store.defs()[j]).space == space && start
                <= store.defs()[j].address && store.defs()[j].address < start + count,
        count == 0 ==> !r,
{
}

/// Law: a fresh bank over definitions reads zero at each of them and nothing elsewhere.
pub proof fn law_fresh_bank(defs: Vec<RegisterDef>, store: RegisterStore, i: int, k: u32)
    requires
        call_ensures(RegisterStore::new, (defs,), store),
    ensures
        store.defs() == registers::definitions_of(defs@),
        0 <= i < defs@.len() && k == store.defs()[i].key() ==> store.values().get(k) == Some(0u16),
        (forall|j: int| 0 <= j < store.defs().len() ==> (#[trigger] store.defs()[j]).key() != k)
            ==> store.values().get(k) is None,
{
    assert(store.defs().len() == defs@.len());
}

/// Law: the storage key of a definition, and the catalogue that the simulator uses.
pub proof fn law_keys(d: RegisterDef, key: u32, all: Vec<RegisterDef>, i: int)
    requires
        call_ensures(RegisterDef::store_key, (&d,), key),
        call_ensures(catalogue::default_register_catalogue, (), all),
    ensures
        d.space == RegisterSpace::Input ==> key == d.address,
        d.space == RegisterSpace::Holding ==> key == 10_000 + d.address,
        all@.len() == 639,
        0 <= i < 639 ==> all@[i]@ == catalogue::catalogue()[i],
{
    if 0 <= i < 639 {
        assert(registers::definitions_of(all@)[i] == all@[i]@);
    }
}

/// Law: a bank shows a plant and a schedule as the words of its registers.
pub proof fn law_projections(
    a: &mut RegisterStore,
    b: &mut RegisterStore,
    c: &mut RegisterStore,
    s: PlantState,
    p: Schedule,
    t: &str,
)
    requires
        call_ensures(RegisterStore::project_from_state, (a, &s), ()),
        call_ensures(RegisterStore::project_schedule_for, (b, &p, t), ()),
        call_ensures(RegisterStore::project_schedule, (c, &p), ()),
    ensures
        final(a).values() == registers::projected_values(old(a).values(), old(a).defs(), s),
        final(b).values() == registers::scheduled(old(b).values(), old(b).defs(), p, t@),
        final(c).values() == registers::scheduled(
            old(c).values(),
            old(c).defs(),
            p,
            Seq::empty(),
        ),
        final(a).defs() == old(a).defs(),
        final(b).defs() == old(b).defs(),
        final(c).defs() == old(c).defs(),
{
}

/// Law: the banks of the batteries, as clients read them.
pub proof fn law_battery_banks(
    store: RegisterStore,
    b: BatteryState,
    module: usize,
    all: &[BatteryState],
    clusters: usize,
    bms: [u16; 60],
    bmu: [u16; 60],
    bcu: [u16; 60],
    discovery: [u16; 5],
    i: int,
)
    requires
        call_ensures(RegisterStore::project_battery_bms, (&store, &b, module), bms),
        call_ensures(RegisterStore::project_battery_bmu, (&store, &b, module), bmu),
        call_ensures(RegisterStore::project_battery_bcu, (&store, all), bcu),
        call_ensures(RegisterStore::project_battery_bms_discovery, (&store, clusters), discovery),
    ensures
        0 <= i < 60 ==> bms@[i] == battery_banks::module_word(i, b, module),
        0 <= i < 60 ==> bmu@[i] == battery_banks::stack_module_word(i, b, module),
        0 <= i < 60 ==> bcu@[i] == battery_banks::cluster_word(i, all@),
        discovery@[0] == 1,
        clusters <= 65535 ==> discovery@[1] == clusters,
        2 <= i <= 4 ==> discovery@[i] == 0,
        0 <= b.capacity_kwh@ <= 2_000_000_000_000 && b.soc_percent@ == 100_000_000 ==> bms@[28]
            == bms@[24] && bms@[29] == bms@[25],
{
    battery_bank_laws::law_discovery_words(i, clusters as int);
    assert(discovery@[0] == battery_banks::discovery_word(0, clusters as int));
    assert(discovery@[1] == battery_banks::discovery_word(1, clusters as int));
    if 2 <= i <= 4 {
        assert(discovery@[i] == battery_banks::discovery_word(i, clusters as int));
    }
    if 0 <= b.capacity_kwh@ <= 2_000_000_000_000 && b.soc_percent@ == 100_000_000 {
        battery_bank_laws::law_remaining_capacity(b, module);
        assert(bms@[24] == battery_banks::module_word(24, b, module));
        assert(bms@[25] == battery_banks::module_word(25, b, module));
        assert(bms@[28] == battery_banks::module_word(28, b, module));
        assert(bms@[29] == battery_banks::module_word(29, b, module));
    }
}

/// Law: a refreshed bank shows the plant, and over it the schedule, if there is one.
pub proof fn law_refresh(
    a: &mut RegisterStore,
    b: &mut RegisterStore,
    s: PlantState,
    p: Schedule,
)
    requires
        call_ensures(commands::refresh_registers, (a, &s, None), ()),
        call_ensures(commands::refresh_registers, (b, &s, Some(&p)), ()),
        old(a).values() == old(b).values(),
        old(a).defs() == old(b).defs(),
    ensures
        final(a).values() == registers::projected_values(old(a).values(), old(a).defs(), s),
        final(b).values() == registers::scheduled(
            final(a).values(),
            old(a).defs(),
            p,
            s.config.inverter_type@,
        ),
        final(a).defs() == old(a).defs(),
        final(b).defs() == old(a).defs(),
{
}

/// Law: definitions show their words one after the other, so that the last one of a
/// register counts.
pub proof fn law_shown_in_order(
    values: Map<u32, u16>,
    defs: Seq<Definition>,
    d: Definition,
    s: PlantState,
)
    ensures
        projection::shown(values, Seq::empty(), s) == values,
        projection::projected(d, s) matches Some(w) ==> projection::shown(values, defs.push(d), s)
            == projection::shown(values, defs, s).insert(d.key() as u32, w as u16),
        projection::projected(d, s) is None ==> projection::shown(values, defs.push(d), s)
            == projection::shown(values, defs, s),
{
    assert(defs.push(d).drop_last() =~= defs);
}

/// Law: a full snapshot holds every value under its storage key.
pub proof fn law_full_snapshot(
    store: RegisterStore,
    r: std::collections::HashMap<u32, u16>,
    k: u32,
)
    requires
        call_ensures(RegisterStore::snapshot, (&store,), r),
    ensures
        r@.get(k) == store.values().get(k),
{
}

/// Law: a client that reads HR 96 and HR 59 once a schedule is shown learns of charging and
/// of discharging: each is on where it is enabled or some slot of its own has a window.
pub proof fn law_flag_readings(
    store: &mut RegisterStore,
    p: Schedule,
    t: &str,
    charge: Option<u16>,
    discharge: Option<u16>,
)
    requires
        registers::writable(old(store).defs(), 96),
        registers::writable(old(store).defs(), 59),
        call_ensures(RegisterStore::project_schedule_for, (store, &p, t), ()),
        call_ensures(
            RegisterStore::read_by_space,
            (&*final(store), 96u16, RegisterSpace::Holding),
            charge,
        ),
        call_ensures(
            RegisterStore::read_by_space,
            (&*final(store), 59u16, RegisterSpace::Holding),
            discharge,
        ),
    ensures
        charge == Some(1u16) <==> p.enable_charge || exists|i: int|
            0 <= i < 10 && (#[trigger] p.charge@[i]).start@ != p.charge@[i].end@,
        discharge == Some(1u16) <==> p.enable_discharge || exists|i: int|
            0 <= i < 10 && (#[trigger] p.discharge@[i]).start@ != p.discharge@[i].end@,
        charge is Some && charge->0 <= 1,
        discharge is Some && discharge->0 <= 1,
{
    schedule_laws::law_charge_flag(old(store).values(), old(store).defs(), p, t@);
    schedule_laws::law_discharge_flag(old(store).values(), old(store).defs(), p, t@);
}

/// Law: a client that reads IR 36 and IR 37 of a bank over the catalogue learns how much was
/// charged and discharged today, in tenths of a kilowatt-hour.
pub proof fn law_energy_readings(
    store: &mut RegisterStore,
    s: PlantState,
    charged: Option<u16>,
    discharged: Option<u16>,
)
    requires
        old(store).defs() == catalogue::catalogue(),
        call_ensures(RegisterStore::project_from_state, (store, &s), ()),
        call_ensures(
            RegisterStore::read_by_space,
            (&*final(store), 36u16, RegisterSpace::Input),
            charged,
        ),
        call_ensures(
            RegisterStore::read_by_space,
            (&*final(store), 37u16, RegisterSpace::Input),
            discharged,
        ),
    ensures
        charged == Some(plain::word(s.energy_totals.battery_charge_kwh@, 100_000) as u16),
        discharged == Some(plain::word(s.energy_totals.battery_discharge_kwh@, 100_000) as u16),
{
    native_inputs::law_ir_30_to_44(old(store).values(), s);
}

/// Law: a client that reads HR 100 of a bank over the catalogue and writes the word back asks
/// for the mode that the plant is in.
pub proof fn law_mode_reading_writes_back(
    store: &mut RegisterStore,
    s: PlantState,
    word: Option<u16>,
    r: Option<Command>,
)
    requires
        old(store).defs() == catalogue::catalogue(),
        call_ensures(RegisterStore::project_from_state, (store, &s), ()),
        call_ensures(
            RegisterStore::read_by_space,
            (&*final(store), 100u16, RegisterSpace::Holding),
            word,
        ),
        word is Some ==> call_ensures(modbus::modbus_address_to_command, (100u16, word->0), r),
    ensures
        word is Some,
        r == Some(Command::SetInverterMode(s.inverter.effective_mode)),
{
    modbus_laws::law_mode_word_reads_back(old(store).values(), s);
}

} // verus!
