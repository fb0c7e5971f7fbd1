//! The plant: the values that the registers, the reports and the commands read.
//!
//! The physics that moves these values forward lives elsewhere; here they are
//! plain data. What the battery model derives from its modules (the aggregate
//! state of charge, the effective limits) stands in [`BatterySummary`].
use crate::fixed::{Fixed, MAX_MICROS};
use vstd::prelude::*;

verus! {

/// A moment of the plant's own clock.
#[derive(Clone, Copy, Debug, PartialEq, Eq)]
pub struct Timestamp {
    pub year: i32,
    pub month: u32,
    pub day: u32,
    pub hour: u32,
    pub minute: u32,
    pub second: u32,
    /// From a thousand million on, within the leap second after `second`.
    pub nanosecond: u32,
}

/// Operating mode of the inverter.
#[derive(Clone, Copy, Debug, PartialEq, Eq, Structural)]
pub enum InverterMode {
    Normal,
    Eco,
    ForceCharge,
    ForceDischarge,
    ExportLimit,
}

/// Weather that drives the solar model.
#[derive(Clone, Copy, Debug, PartialEq, Eq, Structural)]
pub enum WeatherCondition {
    Clear,
    PartlyCloudy,
    Overcast,
    Rain,
    Storm,
}

/// How the Wi-Fi dongle misbehaves, if it does.
#[derive(Clone, Copy, Debug, PartialEq, Eq, Structural)]
pub enum DongleMisbehaviourMode {
    Off,
    EmptyData,
    StaleData,
    GarbageData,
    DropConnection,
    Intermittent,
}

/// Static configuration of the plant.
#[derive(Clone, Debug)]
pub struct PlantConfig {
    pub inverter_type: String,
    pub ct_meter_installed: bool,
    pub solar_peak_watts: Fixed,
    pub pv2_peak_watts: Fixed,
    pub max_ac_watts: Fixed,
    pub latitude: Fixed,
    pub tick_interval_secs: u64,
    /// Gateway firmware: below 10 is the first variant.
    pub gateway_fw_version: u16,
    /// Number of All-in-One units behind a gateway.
    pub parallel_aio_num: u16,
}

/// The inverter.
#[derive(Clone, Debug)]
pub struct InverterState {
    /// The mode last set.
    pub mode: InverterMode,
    /// The mode in force, which can differ from the one set.
    pub effective_mode: InverterMode,
    pub ac_power_w: Fixed,
    pub export_limit_w: Fixed,
    pub temperature_celsius: Fixed,
    pub temperature_override: Option<Fixed>,
    pub work_time_hours: Fixed,
    pub dsp_firmware_version: u16,
    /// Zero where the version follows from the inverter type.
    pub arm_firmware_version: u16,
    pub battery_self_heating: bool,
    pub manual_battery_heater: bool,
}

/// One battery module. Positive power and current charge it.
#[derive(Clone, Copy, Debug)]
pub struct BatteryState {
    pub soc_percent: Fixed,
    pub power_kw: Fixed,
    pub voltage_v: Fixed,
    pub current_a: Fixed,
    pub temperature_celsius: Fixed,
    pub capacity_kwh: Fixed,
    pub nominal_capacity_kwh: Fixed,
    /// State of health, one when new.
    pub soh: Fixed,
    pub cycle_count: Fixed,
    pub throughput_kwh: Fixed,
    pub max_charge_kw: Fixed,
    pub max_discharge_kw: Fixed,
    pub charge_efficiency: Fixed,
    pub discharge_efficiency: Fixed,
}

/// What the battery model derives from all modules together.
#[derive(Clone, Copy, Debug)]
pub struct BatterySummary {
    pub soc_percent: Fixed,
    pub power_kw: Fixed,
    pub temperature_celsius: Fixed,
    pub capacity_kwh: Fixed,
    pub max_charge_w: Fixed,
    pub max_discharge_w: Fixed,
    pub min_soc_percent: Fixed,
    pub max_soc_percent: Fixed,
}

/// The battery as the engine last recorded it, apart from what the modules add up to.
#[derive(Clone, Copy, Debug)]
pub struct BatteryRecord {
    pub soc_percent: Fixed,
    pub power_kw: Fixed,
}

/// Solar generation.
#[derive(Clone, Copy, Debug)]
pub struct SolarState {
    pub generation_w: Fixed,
    pub pv1_w: Fixed,
    pub pv2_w: Fixed,
}

/// The grid connection. Positive power imports.
#[derive(Clone, Copy, Debug)]
pub struct GridState {
    pub power_w: Fixed,
    pub connected: bool,
}

/// Accumulated energy.
#[derive(Clone, Copy, Debug)]
pub struct EnergyTotals {
    pub grid_import_kwh: Fixed,
    pub grid_export_kwh: Fixed,
    pub battery_charge_kwh: Fixed,
    pub battery_discharge_kwh: Fixed,
    pub solar_generation_kwh: Fixed,
    pub solar_lifetime_kwh: Fixed,
    pub load_consumption_kwh: Fixed,
    pub ac_charge_kwh: Fixed,
    pub inverter_output_kwh: Fixed,
}

/// The electric vehicle charger.
#[derive(Clone, Copy, Debug)]
pub struct EvcState {
    pub enabled: bool,
    /// 0 ready, 1 start, 2 stop.
    pub charge_control: u16,
    /// Tenths of an ampere.
    pub charge_current_limit: u16,
    pub plug_and_go: u16,
    /// 0 unplugged, 1 plugged in.
    pub connection_status: u16,
    pub charging_state: u16,
    pub active_power_w: Fixed,
    pub active_power_l1: Fixed,
    pub active_power_l2: Fixed,
    pub active_power_l3: Fixed,
    pub current_l1: Fixed,
    pub current_l2: Fixed,
    pub current_l3: Fixed,
    pub session_energy_kwh: Fixed,
    pub session_duration_secs: u64,
}

/// The whole plant at one moment.
#[derive(Clone, Debug)]
pub struct PlantState {
    pub timestamp: Timestamp,
    pub config: PlantConfig,
    pub inverter: InverterState,
    pub batteries: Vec<BatteryState>,
    pub battery: BatterySummary,
    pub battery_record: BatteryRecord,
    pub solar: SolarState,
    pub load_demand_w: Fixed,
    pub grid: GridState,
    pub energy_totals: EnergyTotals,
    pub evc: EvcState,
    pub active_faults: Vec<String>,
    pub weather: String,
    pub solar_override: Option<Fixed>,
    pub load_override: Option<Fixed>,
    pub active_power_rate_percent: Fixed,
    pub battery_charge_limit_percent: Fixed,
    pub battery_discharge_limit_percent: Fixed,
    pub battery_discharge_min_power_reserve: Fixed,
    pub battery_pause_mode: u16,
    /// Clock readings such as 530 for half past five.
    pub battery_pause_slot_start: u16,
    pub battery_pause_slot_end: u16,
    pub export_priority: u16,
    pub calibration_stage: u8,
    /// Ticks for which a state of charge set by hand is held.
    pub manual_soc_hold_ticks: u32,
    pub scheduled_charge: bool,
    pub scheduled_discharge: bool,
    pub enable_charge_target: bool,
    pub enable_rtc: bool,
    pub enable_eps: bool,
    pub enable_inverter_parallel_mode: bool,
    pub ems_enabled: bool,
    pub dongle_misbehaviour: DongleMisbehaviourMode,
}

/// A quantity that every battery module has.
#[derive(Clone, Copy, Debug, PartialEq, Eq, Structural)]
pub enum ModuleQuantity {
    Soc,
    Power,
    Voltage,
    Temperature,
    Soh,
    Cycles,
    Throughput,
}

/// The quantity `q` of one module.
pub open spec fn module_value(b: BatteryState, q: ModuleQuantity) -> int {
    match q {
        ModuleQuantity::Soc => b.soc_percent@,
        ModuleQuantity::Power => b.power_kw@,
        ModuleQuantity::Voltage => b.voltage_v@,
        ModuleQuantity::Temperature => b.temperature_celsius@,
        ModuleQuantity::Soh => b.soh@,
        ModuleQuantity::Cycles => b.cycle_count@,
        ModuleQuantity::Throughput => b.throughput_kwh@,
    }
}

/// The sum of quantity `q` over all modules.
pub open spec fn module_total(b: Seq<BatteryState>, q: ModuleQuantity) -> int
    decreases b.len(),
{
    if b.len() == 0 {
        0
    } else {
        module_total(b.drop_last(), q) + module_value(b.last(), q)
    }
}

/// Bound on the sum of a quantity over as many modules as memory can hold.
pub const MAX_TOTAL: i128 = 18_446_744_073_709_551_616_000_000_000_000_000_000;

/// The quantity `q` of one module.
pub fn module_value_of(b: &BatteryState, q: ModuleQuantity) -> (r: i128)
    ensures
        r == module_value(*b, q),
        -MAX_MICROS <= r <= MAX_MICROS,
{
    match q {
        ModuleQuantity::Soc => b.soc_percent.exact(),
        ModuleQuantity::Power => b.power_kw.exact(),
        ModuleQuantity::Voltage => b.voltage_v.exact(),
        ModuleQuantity::Temperature => b.temperature_celsius.exact(),
        ModuleQuantity::Soh => b.soh.exact(),
        ModuleQuantity::Cycles => b.cycle_count.exact(),
        ModuleQuantity::Throughput => b.throughput_kwh.exact(),
    }
}

/// The sum of quantity `q` over all modules.
pub fn module_total_of(b: &[BatteryState], q: ModuleQuantity) -> (r: i128)
    ensures
        r == module_total(b@, q),
        -MAX_TOTAL <= r <= MAX_TOTAL,
        r <= b@.len() * MAX_MICROS,
{
    let mut acc: i128 = 0;
    let mut i: usize = 0;
    while i < b.len()
        invariant
            i <= b.len(),
            acc == module_total(b@.subrange(0, i as int), q),
            -(MAX_MICROS * i) <= acc <= MAX_MICROS * i,
        decreases b.len() - i,
    {
        let ghost before = b@.subrange(0, i as int);
        let ghost after = b@.subrange(0, i + 1);
        assert(after.drop_last() =~= before);
        assert(after.last() == b@[i as int]);
        acc = acc + module_value_of(&b[i], q);
        i += 1;
    }
    assert(b@.subrange(0, b.len() as int) =~= b@);
    acc
}

/// Whether the fault `name` is active.
pub open spec fn fault_active(faults: Seq<String>, name: Seq<char>) -> bool {
    exists|i: int| 0 <= i < faults.len() && (#[trigger] faults[i])@ == name
}

/// Whether the fault `name` is active.
pub fn has_fault(faults: &Vec<String>, name: &str) -> (r: bool)
    ensures
        r == fault_active(faults@, name@),
{
    let mut i: usize = 0;
    while i < faults.len()
        invariant
            i <= faults.len(),
            forall|j: int| 0 <= j < i ==> (#[trigger] faults@[j])@ != name@,
        decreases faults.len() - i,
    {
        if crate::text::same(faults[i].as_str(), name) {
            assert(faults@[i as int]@ == name@);
            return true;
        }
        i += 1;
    }
    false
}

} // verus!
