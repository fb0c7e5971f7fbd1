//! Register definitions and the live register bank.
//!
//! Input registers and holding registers share one flat store. An input
//! register is stored under its address, a holding register under its address
//! plus 10000, so the two spaces stay apart for addresses below 10000.
use crate::battery_banks;
use crate::fixed::Fixed;
use crate::model;
use crate::model::{has_slot_2, is_gateway_inverter, uses_gen3_extended_slots};
use crate::projection;
use crate::projection::gateway;
use crate::projection::gateway::{bank_word_of, gateway_serial_of};
use crate::projection::projected_of;
use crate::schedule;
use crate::schedule::{schedule_word_of, Schedule};
use crate::state::{BatteryState, PlantState};
use std::collections::HashMap;
use vstd::prelude::*;

verus! {

broadcast use vstd::std_specs::hash::group_hash_axioms;

/// Offset of holding register keys in the flat store.
pub const HOLDING_OFFSET: u32 = 10000;

/// Data type stored in a register.
#[derive(Clone, Copy, Debug, PartialEq, Eq, Structural)]
pub enum RegisterType {
    U16,
    S16,
    U32,
    S32,
    F32,
}

/// Read and write capability.
#[derive(Clone, Copy, Debug, PartialEq, Eq, Structural)]
pub enum Access {
    ReadOnly,
    ReadWrite,
}

/// The space a register lives in.
#[derive(Clone, Copy, Debug, PartialEq, Eq, Structural)]
pub enum RegisterSpace {
    /// Input register: read-only telemetry.
    Input,
    /// Holding register: configuration and telemetry.
    Holding,
}

/// Register grouping.
#[derive(Clone, Copy, Debug, PartialEq, Eq, Structural)]
pub enum RegisterCategory {
    Inverter,
    Battery,
    PV,
    Grid,
    Configuration,
    Schedules,
    /// Aggregation bank of a gateway, IR 1600-1859.
    Gateway,
}

/// A single register definition.
#[derive(Clone, Debug)]
pub struct RegisterDef {
    pub address: u16,
    pub name: String,
    pub category: RegisterCategory,
    pub typ: RegisterType,
    /// Engineering units per step of the raw value.
    pub scaling_factor: Fixed,
    pub access: Access,
    pub space: RegisterSpace,
}

/// What a definition says.
pub struct Definition {
    pub address: int,
    pub name: Seq<char>,
    pub category: RegisterCategory,
    pub typ: RegisterType,
    /// Millionths of a unit per step.
    pub scale: int,
    pub access: Access,
    pub space: RegisterSpace,
}

impl View for RegisterDef {
    type V = Definition;

    open spec fn view(&self) -> Definition {
        Definition {
            address: self.address as int,
            name: self.name@,
            category: self.category,
            typ: self.typ,
            scale: self.scaling_factor@,
            access: self.access,
            space: self.space,
        }
    }
}

/// The storage key of address `address` in `space`.
pub open spec fn key_of(address: int, space: RegisterSpace) -> int {
    match space {
        RegisterSpace::Input => address,
        RegisterSpace::Holding => address + HOLDING_OFFSET,
    }
}

impl Definition {
    /// The storage key of the register.
    pub open spec fn key(self) -> int {
        key_of(self.address, self.space)
    }
}

/// What each of the definitions says, in order.
pub open spec fn definitions_of(defs: Seq<RegisterDef>) -> Seq<Definition> {
    defs.map_values(|d: RegisterDef| d@)
}

impl RegisterDef {
    /// The storage key of this register.
    pub fn store_key(&self) -> (r: u32)
        ensures
            r == self@.key(),
    {
        match self.space {
            RegisterSpace::Input => self.address as u32,
            RegisterSpace::Holding => self.address as u32 + HOLDING_OFFSET,
        }
    }
}

/// The values of a fresh bank: zero under the key of each definition.
pub open spec fn zeroed(defs: Seq<Definition>) -> Map<u32, u16> {
    Map::new(
        |k: u32| exists|i: int| 0 <= i < defs.len() && (#[trigger] defs[i]).key() == k,
        |k: u32| 0u16,
    )
}

/// The index of the first definition with key `key`, or the number of
/// definitions where none has it.
pub open spec fn first_with_key(defs: Seq<Definition>, key: int) -> int
    decreases defs.len(),
{
    if defs.len() == 0 || defs[0].key() == key {
        0
    } else {
        1 + first_with_key(defs.skip(1), key)
    }
}

/// Whether the holding register at `address` accepts writes: the first
/// definition under its key says so.
pub open spec fn writable(defs: Seq<Definition>, address: int) -> bool {
    let i = first_with_key(defs, address + HOLDING_OFFSET);
    i < defs.len() && defs[i].access == Access::ReadWrite
}

/// The values after a write of `value` to the holding register at `address`: a
/// register that does not accept it keeps its value.
pub open spec fn written(
    values: Map<u32, u16>,
    defs: Seq<Definition>,
    address: int,
    value: u16,
) -> Map<u32, u16> {
    if writable(defs, address) {
        values.insert((address + HOLDING_OFFSET) as u32, value)
    } else {
        values
    }
}

/// The values after the plant `s` is shown: each register its word, and over it
/// the bank of a gateway.
pub open spec fn projected_values(
    values: Map<u32, u16>,
    defs: Seq<Definition>,
    s: PlantState,
) -> Map<u32, u16> {
    gateway::overlaid(projection::shown(values, defs, s), s)
}

/// The reserve that HR 1109 mirrors: HR 110, or 4 where that is absent or zero.
pub open spec fn mirrored_reserve(values: Map<u32, u16>) -> int {
    if values.contains_key(10110) && values[10110] != 0 {
        values[10110] as int
    } else {
        4
    }
}

/// What a bank with `values` and `defs` shows under `key` of the schedule `s` of
/// inverter type `t`.
pub open spec fn scheduled_word(
    key: int,
    values: Map<u32, u16>,
    defs: Seq<Definition>,
    s: Schedule,
    t: Seq<char>,
) -> Option<int> {
    if key >= HOLDING_OFFSET && writable(defs, key - HOLDING_OFFSET) {
        schedule::schedule_word(
            key - HOLDING_OFFSET,
            s,
            model::extended_slots(t),
            model::second_slot(t),
            mirrored_reserve(values),
        )
    } else {
        None
    }
}

/// The values after the schedule `s` is shown.
pub open spec fn scheduled(
    values: Map<u32, u16>,
    defs: Seq<Definition>,
    s: Schedule,
    t: Seq<char>,
) -> Map<u32, u16> {
    values.union_prefer_right(
        Map::new(
            |k: u32| scheduled_word(k as int, values, defs, s, t) is Some,
            |k: u32| scheduled_word(k as int, values, defs, s, t)->0 as u16,
        ),
    )
}

/// The live register bank: a raw value under each storage key.
#[derive(Clone, Debug)]
pub struct RegisterStore {
    values: HashMap<u32, u16>,
    defs: Vec<RegisterDef>,
}

/// The index found by [`first_with_key`], characterised.
pub proof fn lemma_first_with_key(defs: Seq<Definition>, key: int, i: int)
    requires
        0 <= i <= defs.len(),
        forall|j: int| 0 <= j < i ==> (#[trigger] defs[j]).key() != key,
        i < defs.len() ==> defs[i].key() == key,
    ensures
        first_with_key(defs, key) == i,
    decreases defs.len(),
{
    if i > 0 {
        assert forall|j: int| 0 <= j < i - 1 implies (#[trigger] defs.skip(1)[j]).key() != key by {
            assert(defs.skip(1)[j] == defs[j + 1]);
        }
        assert(i < defs.len() ==> defs.skip(1)[i - 1] == defs[i]);
        lemma_first_with_key(defs.skip(1), key, i - 1);
    }
}

impl RegisterStore {
    /// The raw values by storage key.
    pub closed spec fn values(&self) -> Map<u32, u16> {
        self.values@
    }

    /// The definitions.
    pub closed spec fn defs(&self) -> Seq<Definition> {
        definitions_of(self.defs@)
    }

    /// A bank for the given definitions, all values zero.
    pub fn new(defs: Vec<RegisterDef>) -> (r: RegisterStore)
        ensures
            r.defs() == definitions_of(defs@),
            r.values() == zeroed(definitions_of(defs@)),
    {
        let mut values: HashMap<u32, u16> = HashMap::new();
        let ghost all = definitions_of(defs@);
        let mut i: usize = 0;
        while i < defs.len()
            invariant
                i <= defs.len(),
                all == definitions_of(defs@),
                forall|k: u32| #[trigger]
                    values@.contains_key(k) <==> exists|j: int|
                        0 <= j < i && (#[trigger] all[j]).key() == k,
                forall|k: u32| #[trigger] values@.contains_key(k) ==> values@[k] == 0,
            decreases defs.len() - i,
        {
            let key: u32 = defs[i].store_key();
            let ghost before = values@;
            values.insert(key, 0);
            proof {
                assert(all[i as int].key() == key);
                assert forall|k: u32| #[trigger] values@.contains_key(k) implies exists|j: int|
                    0 <= j < i + 1 && (#[trigger] all[j]).key() == k by {
                    if before.contains_key(k) {
                        let j = choose|j: int| 0 <= j < i && (#[trigger] all[j]).key() == k;
                        assert(all[j].key() == k);
                    } else {
                        assert(k == key);
                    }
                }
            }
            i += 1;
        }
        assert(values@ =~= zeroed(all));
        RegisterStore { values, defs }
    }

    /// The value of a register, if the bank holds it.
    pub fn read_by_space(&self, address: u16, space: RegisterSpace) -> (r: Option<u16>)
        ensures
            r == self.values().get(key_of(address as int, space) as u32),
    {
        let key: u32 = match space {
            RegisterSpace::Input => address as u32,
            RegisterSpace::Holding => address as u32 + HOLDING_OFFSET,
        };
        match self.values.get(&key) {
            Some(v) => Some(*v),
            None => None,
        }
    }

    /// The value of a holding register or, where there is none, of the input
    /// register at the same address.
    pub fn read(&self, address: u16) -> (r: Option<u16>)
        ensures
            r == (match self.values().get((address + HOLDING_OFFSET) as u32) {
                Some(v) => Some(v),
                None => self.values().get(address as u32),
            }),
    {
        match self.read_by_space(address, RegisterSpace::Holding) {
            Some(v) => Some(v),
            None => self.read_by_space(address, RegisterSpace::Input),
        }
    }

    /// Writes a holding register. Returns whether the register exists and
    /// accepts writes; nothing changes where it does not.
    pub fn write(&mut self, address: u16, value: u16) -> (r: bool)
        ensures
            r == writable(old(self).defs(), address as int),
            final(self).defs() == old(self).defs(),
            final(self).values() == written(
                old(self).values(),
                old(self).defs(),
                address as int,
                value,
            ),
    {
        let key: u32 = address as u32 + HOLDING_OFFSET;
        let mut i: usize = 0;
        while i < self.defs.len()
            invariant
                i <= self.defs.len(),
                key == address + HOLDING_OFFSET,
                *self == *old(self),
                forall|j: int| 0 <= j < i ==> (#[trigger] self.defs()[j]).key() != key,
            decreases self.defs.len() - i,
        {
            let found: u32 = self.defs[i].store_key();
            if found == key {
                proof {
                    lemma_first_with_key(self.defs(), key as int, i as int);
                }
                if self.defs[i].access == Access::ReadWrite {
                    self.values.insert(key, value);
                    return true;
                }
                return false;
            }
            i += 1;
        }
        proof {
            lemma_first_with_key(self.defs(), key as int, i as int);
        }
        false
    }

    /// Whether any definition lies in `start..start + count` of `space`.
    pub fn has_any_def_in_range(&self, start: u16, count: u16, space: RegisterSpace) -> (r: bool)
        requires
            start + count <= 65535,
        ensures
            r == exists|i: int|
                0 <= i < self.defs().len() && (#[trigger] self.defs()[i]).space == space && start
                    <= self.defs()[i].address < start + count,
    {
        let mut i: usize = 0;
        while i < self.defs.len()
            invariant
                i <= self.defs.len(),
                start + count <= 65535,
                forall|j: int|
                    0 <= j < i ==> !((#[trigger] self.defs()[j]).space == space && start
                        <= self.defs()[j].address < start + count),
            decreases self.defs.len() - i,
        {
            let d = &self.defs[i];
            if d.space == space && start <= d.address && d.address < start + count {
                assert(self.defs()[i as int].space == space);
                return true;
            }
            i += 1;
        }
        false
    }

    /// Updates all values from the plant: each register shows its word, and a
    /// gateway overlays its bank. Energy totals are shown as they are, so a fresh
    /// plant reads zero.
    pub fn project_from_state(&mut self, s: &PlantState)
        requires
            forall|i: int|
                0 <= i < old(self).defs().len() ==> projection::placeable(
                    #[trigger] old(self).defs()[i],
                ),
        ensures
            final(self).defs() == old(self).defs(),
            final(self).values() == projected_values(old(self).values(), old(self).defs(), *s),
    {
        let ghost start = self.values();
        let ghost defs = self.defs();
        let mut i: usize = 0;
        assert(defs.take(0) =~= Seq::empty());
        while i < self.defs.len()
            invariant
                i <= self.defs.len(),
                self.defs() == defs,
                defs.len() == self.defs@.len(),
                forall|j: int| 0 <= j < defs.len() ==> projection::placeable(#[trigger] defs[j]),
                self.values() == projection::shown(start, defs.take(i as int), *s),
            decreases self.defs.len() - i,
        {
            assert(defs.take(i + 1).drop_last() =~= defs.take(i as int));
            assert(defs.take(i + 1).last() == defs[i as int]);
            assert(defs[i as int] == self.defs@[i as int]@);
            let key: u32 = self.defs[i].store_key();
            let w: Option<u16> = projected_of(&self.defs[i], s);
            match w {
                Some(v) => {
                    self.values.insert(key, v);
                },
                None => {},
            }
            i += 1;
        }
        assert(defs.take(i as int) =~= defs);
        self.project_gateway_bank(s);
    }

    /// Overlays the aggregation bank and the serial of a gateway. Other inverters
    /// leave the bank alone.
    fn project_gateway_bank(&mut self, s: &PlantState)
        ensures
            final(self).defs() == old(self).defs(),
            final(self).values() == gateway::overlaid(old(self).values(), *s),
    {
        if !is_gateway_inverter(s.config.inverter_type.as_str()) {
            return;
        }
        let ghost start = self.values();
        let ghost defs = self.defs();
        let mut a: u16 = 1600;
        while a < 1860
            invariant
                1600 <= a <= 1860,
                self.defs() == defs,
                forall|k: u32| #[trigger]
                    self.values@.contains_key(k) <==> start.contains_key(k) || (1600 <= k < a
                        && gateway::bank_word(k as int, *s) is Some),
                forall|k: u32| #[trigger]
                    self.values@.contains_key(k) ==> self.values@[k] == (if 1600 <= k < a
                        && gateway::bank_word(k as int, *s) is Some {
                        gateway::bank_word(k as int, *s)->0 as u16
                    } else {
                        start[k]
                    }),
            decreases 1860 - a,
        {
            let w: Option<u16> = bank_word_of(a, s);
            match w {
                Some(v) => {
                    self.values.insert(a as u32, v);
                },
                None => {},
            }
            a += 1;
        }
        let ghost banked = self.values();
        let mut i: u16 = 0;
        while i < 5
            invariant
                i <= 5,
                self.defs() == defs,
                forall|k: u32| #[trigger]
                    self.values@.contains_key(k) <==> banked.contains_key(k) || 10013 <= k < 10013
                        + i,
                forall|k: u32| #[trigger]
                    self.values@.contains_key(k) ==> self.values@[k] == (if 10013 <= k < 10013 + i {
                        gateway::gateway_serial(k - 10013) as u16
                    } else {
                        banked[k]
                    }),
            decreases 5 - i,
        {
            self.values.insert(10013 + i as u32, gateway_serial_of(i));
            i += 1;
        }
        assert(self.values() =~= gateway::overlaid(start, *s));
    }

    /// Shows a schedule, as [`RegisterStore::project_schedule_for`] does for a type
    /// without peculiarities.
    pub fn project_schedule(&mut self, s: &Schedule)
        ensures
            final(self).defs() == old(self).defs(),
            final(self).values() == scheduled(
                old(self).values(),
                old(self).defs(),
                *s,
                Seq::empty(),
            ),
    {
        proof {
            reveal_strlit("");
            assert(""@ =~= Seq::<char>::empty());
        }
        self.project_schedule_for(s, "");
    }

    /// Shows a schedule on the holding registers of an inverter type, replacing the
    /// readings that stand for off. Registers that do not exist or refuse writes
    /// stay as they are.
    pub fn project_schedule_for(&mut self, s: &Schedule, inverter_type: &str)
        ensures
            final(self).defs() == old(self).defs(),
            final(self).values() == scheduled(
                old(self).values(),
                old(self).defs(),
                *s,
                inverter_type@,
            ),
    {
        let extended: bool = uses_gen3_extended_slots(inverter_type);
        let second: bool = has_slot_2(inverter_type);
        let reserve: u16 = match self.read_by_space(110, RegisterSpace::Holding) {
            Some(v) => if v != 0 {
                v
            } else {
                4
            },
            None => 4,
        };
        let ghost start = self.values();
        let ghost defs = self.defs();
        let ghost word = |k: int|
            schedule::schedule_word(k - HOLDING_OFFSET, *s, extended, second, reserve as int);
        let mut a: u16 = 0;
        while a < 2071
            invariant
                a <= 2071,
                self.defs() == defs,
                word == (|k: int|
                    schedule::schedule_word(
                        k - HOLDING_OFFSET,
                        *s,
                        extended,
                        second,
                        reserve as int,
                    )),
                forall|k: u32| #[trigger]
                    self.values().contains_key(k) <==> start.contains_key(k) || (HOLDING_OFFSET <= k
                        < a + HOLDING_OFFSET && writable(defs, k - HOLDING_OFFSET) && word(
                        k as int,
                    ) is Some),
                forall|k: u32| #[trigger]
                    self.values().contains_key(k) ==> self.values()[k] == (if HOLDING_OFFSET <= k
                        < a + HOLDING_OFFSET && writable(defs, k - HOLDING_OFFSET) && word(
                        k as int,
                    ) is Some {
                        word(k as int)->0 as u16
                    } else {
                        start[k]
                    }),
            decreases 2071 - a,
        {
            let w: Option<u16> = schedule_word_of(a, s, extended, second, reserve);
            match w {
                Some(v) => {
                    self.write(a, v);
                },
                None => {},
            }
            a += 1;
        }
        assert(self.values() =~= scheduled(start, defs, *s, inverter_type@));
    }

    /// The sixty words that describe one battery module, IR 60-119.
    pub fn project_battery_bms(&self, battery: &BatteryState, module_index: usize) -> (r: [u16; 60])
        requires
            module_index < usize::MAX,
        ensures
            forall|i: int|
                0 <= i < 60 ==> #[trigger] r@[i] == battery_banks::module_word(
                    i,
                    *battery,
                    module_index,
                ),
    {
        battery_banks::module_bank(battery, module_index)
    }

    /// The five words from which a client learns how many clusters there are,
    /// IR 60-64.
    pub fn project_battery_bms_discovery(&self, num_bcus: usize) -> (r: [u16; 5])
        ensures
            forall|i: int|
                0 <= i < 5 ==> #[trigger] r@[i] == battery_banks::discovery_word(
                    i,
                    num_bcus as int,
                ),
    {
        battery_banks::discovery_bank(num_bcus)
    }

    /// The sixty words that describe a high-voltage stack as one cluster,
    /// IR 60-119.
    pub fn project_battery_bcu(&self, batteries: &[BatteryState]) -> (r: [u16; 60])
        ensures
            forall|i: int|
                0 <= i < 60 ==> #[trigger] r@[i] == battery_banks::cluster_word(i, batteries@),
    {
        battery_banks::cluster_bank(batteries)
    }

    /// The sixty words that describe one module of a high-voltage stack,
    /// IR 60-119.
    pub fn project_battery_bmu(&self, battery: &BatteryState, module_index: usize) -> (r: [u16; 60])
        requires
            module_index < usize::MAX,
        ensures
            forall|i: int|
                0 <= i < 60 ==> #[trigger] r@[i] == battery_banks::stack_module_word(
                    i,
                    *battery,
                    module_index,
                ),
    {
        battery_banks::stack_module_bank(battery, module_index)
    }

    /// All definitions.
    pub fn definitions(&self) -> (r: &[RegisterDef])
        ensures
            definitions_of(r@) == self.defs(),
    {
        self.defs.as_slice()
    }

    /// A copy of all values by storage key.
    pub fn snapshot(&self) -> (r: HashMap<u32, u16>)
        ensures
            r@ == self.values(),
    {
        self.values.clone()
    }

    /// A copy of the values stored from the holding offset up, by address.
    pub fn snapshot_holding(&self) -> (r: HashMap<u16, u16>)
        ensures
            r@ == holding_part(self.values()),
    {
        let mut out: HashMap<u16, u16> = HashMap::new();
        let mut a: u32 = 0;
        while a < 65536
            invariant
                a <= 65536,
                forall|k: u16| #[trigger]
                    out@.contains_key(k) <==> k < a && self.values@.contains_key(
                        (k + HOLDING_OFFSET) as u32,
                    ),
                forall|k: u16| #[trigger]
                    out@.contains_key(k) ==> out@[k] == self.values@[(k + HOLDING_OFFSET) as u32],
            decreases 65536 - a,
        {
            let key: u32 = a + HOLDING_OFFSET;
            match self.values.get(&key) {
                Some(v) => {
                    out.insert(a as u16, *v);
                },
                None => {},
            }
            a += 1;
        }
        assert(out@ =~= holding_part(self.values()));
        out
    }
}

/// The values under keys from the holding offset up, by address.
pub open spec fn holding_part(values: Map<u32, u16>) -> Map<u16, u16> {
    Map::new(
        |a: u16| values.contains_key((a + HOLDING_OFFSET) as u32),
        |a: u16| values[(a + HOLDING_OFFSET) as u32],
    )
}

} // verus!
