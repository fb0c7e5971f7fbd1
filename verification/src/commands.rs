//! Requests of the user interface: what each one asks for and when it is refused.
//!
//! Each function computes what a request leads to: a command for the engine, a
//! change of the plant, or a refusal. Reaching the engine and the window is left
//! to the caller.
use crate::fixed;
use crate::fixed::{rounded_of, Fixed, MAX_MICROS};
use crate::modbus::Command;
use crate::model;
use crate::model::GridPortPowerFamily;
use crate::numerals;
use crate::numerals::append_shortest;
use crate::registers;
use crate::registers::RegisterStore;
use crate::schedule::Schedule;
use crate::state::{
    BatteryState, DongleMisbehaviourMode, EvcState, InverterMode, InverterState, PlantConfig,
    PlantState, WeatherCondition,
};
use crate::text;
use crate::text::{append_decimal, joined, same};
use vstd::prelude::*;
use vstd::string::StringExecFns;

verus! {

// ---------------------------------------------------------------------------
// Requests
// ---------------------------------------------------------------------------

/// One battery module of a new plant.
#[derive(Clone, Copy, Debug)]
pub struct BatteryModuleConfig {
    pub capacity_kwh: Fixed,
    /// State of health, one when new.
    pub soh: Fixed,
}

/// A request for a new plant. Every field has a default.
#[derive(Clone, Debug)]
pub struct CreatePlantParams {
    pub battery_count: Option<usize>,
    /// Modules one by one; they override the count.
    pub battery_modules: Option<Vec<BatteryModuleConfig>>,
    pub peak_watts: Option<Fixed>,
    pub pv2_peak_watts: Option<Fixed>,
    pub latitude: Option<Fixed>,
    pub load_profile: Option<String>,
    pub tick_interval: Option<u64>,
    pub inverter_type: Option<String>,
    pub ct_meter_installed: Option<bool>,
}

/// A request to load a scenario file.
#[derive(Clone, Debug)]
pub struct LoadScenarioParams {
    pub path: String,
}

/// A request to start the simulation.
#[derive(Clone, Debug)]
pub struct StartSimulationParams {
    /// Ticks a second.
    pub speed: Option<Fixed>,
    pub scenario_path: Option<String>,
}

/// A request to inject a fault.
#[derive(Clone, Debug)]
pub struct InjectFaultParams {
    pub fault_id: String,
}

/// A request to clear a fault.
#[derive(Clone, Debug)]
pub struct ClearFaultParams {
    pub fault_id: String,
}

/// A request for an inverter mode by name.
#[derive(Clone, Debug)]
pub struct SetModeParams {
    pub mode: String,
}

/// A request for a weather by name.
#[derive(Clone, Debug)]
pub struct SetWeatherParams {
    pub weather: String,
}

/// A request to pin a power, or to release it.
#[derive(Clone, Copy, Debug)]
pub struct SetOverrideParams {
    pub watts: Option<Fixed>,
}

/// A request to install or remove the CT meter.
#[derive(Clone, Copy, Debug)]
pub struct SetCtMeterParams {
    pub enabled: bool,
}

/// A request to set the state of charge of a module.
#[derive(Clone, Copy, Debug)]
pub struct SetBatterySocParams {
    pub module: usize,
    pub soc: Fixed,
}

/// A request to set the state of health of a module.
#[derive(Clone, Copy, Debug)]
pub struct SetBatterySohParams {
    pub module: usize,
    pub soh: Fixed,
}

/// A request to calibrate one module, or all.
#[derive(Clone, Copy, Debug)]
pub struct StartCalibrationParams {
    pub module: Option<usize>,
}

/// A request for a tick interval.
#[derive(Clone, Copy, Debug)]
pub struct SetTickIntervalParams {
    pub interval_secs: u64,
}

/// A request to export the recording.
#[derive(Clone, Debug)]
pub struct ExportRecordingParams {
    pub path: String,
    pub format: String,
}

// ---------------------------------------------------------------------------
// New plants
// ---------------------------------------------------------------------------

/// The state of health of a module that names none.
pub fn default_soh() -> (r: Fixed)
    ensures
        r == Fixed::of(1_000_000),
{
    Fixed::from_units(1)
}

/// `q` held to `0..=1`.
pub open spec fn unit_clamped(q: Fixed) -> Fixed {
    Fixed::of(fixed::saturate(q@, 0, 1_000_000))
}

/// `q` held to `0..=1`.
fn unit_clamp(q: Fixed) -> (r: Fixed)
    ensures
        r == unit_clamped(q),
        0 <= r@ <= 1_000_000,
{
    let m: i64 = q.micros();
    if m < 0 {
        Fixed::from_micros(0)
    } else if m > 1_000_000 {
        Fixed::from_micros(1_000_000)
    } else {
        Fixed::from_micros(m)
    }
}

/// The energy that a module of `nominal` capacity has put through by the time its
/// health is `soh`: a cycle costs two hundredths of a percent.
pub open spec fn throughput(soh: Fixed, nominal: Fixed) -> Fixed {
    Fixed::of(fixed::nearest((1_000_000 - soh@) * nominal@, 200))
}

/// Whether a quantity can hold the energy that a module has put through.
pub open spec fn throughput_fits(soh: Fixed, nominal: Fixed) -> bool {
    -MAX_MICROS <= fixed::nearest((1_000_000 - soh@) * nominal@, 200) <= MAX_MICROS
}

/// Largest nominal capacity of a module, in millionths of a kilowatt-hour, whose
/// throughput a quantity can hold at any health.
pub const MAX_NOMINAL_MICROS: i64 = 200_000_000_000_000;

/// The energy that a module has put through by the time its health is `soh`.
pub fn throughput_from_soh(soh: Fixed, nominal_capacity_kwh: Fixed) -> (r: Fixed)
    requires
        throughput_fits(soh, nominal_capacity_kwh),
    ensures
        r == throughput(soh, nominal_capacity_kwh),
{
    let worn: i128 = 1_000_000 - soh.exact();
    let nominal: i128 = nominal_capacity_kwh.exact();
    proof {
        assert(-2_000_000_000_000_000_000 * MAX_MICROS <= worn * nominal
            <= 2_000_000_000_000_000_000 * MAX_MICROS) by (nonlinear_arith)
            requires
                -2_000_000_000_000_000_000 <= worn <= 2_000_000_000_000_000_000,
                -MAX_MICROS <= nominal <= MAX_MICROS,
        ;
    }
    rounded_of(worn * nominal, 200)
}

/// A module of no more than the largest capacity has a throughput that fits.
proof fn lemma_throughput_fits(soh: Fixed, nominal: Fixed)
    requires
        0 <= soh@ <= 1_000_000,
        -MAX_NOMINAL_MICROS <= nominal@ <= MAX_NOMINAL_MICROS,
    ensures
        throughput_fits(soh, nominal),
{
    let worn = 1_000_000 - soh@;
    assert(-200_000_000_000_000_000_000 <= worn * nominal@ <= 200_000_000_000_000_000_000)
        by (nonlinear_arith)
        requires
            0 <= worn <= 1_000_000,
            -200_000_000_000_000 <= nominal@ <= 200_000_000_000_000,
    ;
    let x = worn * nominal@;
    assert(x >= 0 ==> (2 * x + 200) / 400 <= 1_000_000_000_000_000_000);
    assert(x < 0 ==> (2 * (-x) + 200) / 400 <= 1_000_000_000_000_000_000);
}

/// The product of two quantities.
pub open spec fn product(a: Fixed, b: Fixed) -> Fixed {
    fixed::rounded(a@ * b@, 1_000_000)
}

/// The product of two quantities.
fn product_of(a: Fixed, b: Fixed) -> (r: Fixed)
    ensures
        r == product(a, b),
{
    let x: i128 = a.exact();
    let y: i128 = b.exact();
    proof {
        fixed::lemma_product_bound(x as int, y as int);
    }
    rounded_of(x * y, 1_000_000)
}

/// The smaller of two quantities.
pub open spec fn smaller(a: Fixed, b: Fixed) -> Fixed {
    if b@ < a@ {
        b
    } else {
        a
    }
}

/// The smaller of two quantities.
fn smaller_of(a: Fixed, b: Fixed) -> (r: Fixed)
    ensures
        r == smaller(a, b),
{
    if b.micros() < a.micros() {
        b
    } else {
        a
    }
}

/// The power limit in kilowatts of a module of `capacity`: seven tenths of its
/// capacity an hour, at most ten kilowatts, and at most its share of `total_w`
/// watts among `count` modules.
pub open spec fn module_limit(capacity: Fixed, total_w: Fixed, count: int) -> Fixed {
    smaller(
        smaller(fixed::rounded(capacity@ * 7, 10), Fixed::of(10_000_000)),
        fixed::rounded(total_w@, count * 1000),
    )
}

/// The power limit of a module.
fn module_limit_of(capacity: Fixed, total_w: Fixed, count: usize) -> (r: Fixed)
    requires
        count > 0,
    ensures
        r == module_limit(capacity, total_w, count as int),
{
    let rate = rounded_of(capacity.exact() * 7, 10);
    let share = rounded_of(total_w.exact(), count as i128 * 1000);
    smaller_of(smaller_of(rate, Fixed::from_units(10)), share)
}

/// How batteries wear.
#[derive(Clone, Copy, Debug)]
pub struct WearModel {
    /// Health lost in one cycle.
    pub degradation_per_cycle: Fixed,
    pub cycles_per_year: Fixed,
}

/// A battery module to create.
#[derive(Clone, Copy, Debug)]
pub struct ModuleSeed {
    pub capacity_kwh: Fixed,
    pub nominal_capacity_kwh: Fixed,
    /// The nominal voltage, where it differs from the default.
    pub voltage_v: Option<Fixed>,
    /// The age in years that throughput and health follow from; the default age
    /// where there is none.
    pub age_years: Option<Fixed>,
    pub max_charge_kw: Fixed,
    pub max_discharge_kw: Fixed,
}

/// The age at which a module reaches the health `soh`; none for a module as new.
pub open spec fn age_at(soh: Fixed, wear: WearModel) -> Option<Fixed> {
    if soh@ < 1_000_000 {
        Some(
            fixed::rounded(
                (1_000_000 - soh@) * 1_000_000_000_000,
                wear.degradation_per_cycle@ * wear.cycles_per_year@,
            ),
        )
    } else {
        None
    }
}

/// The age at which a module reaches the health `soh`.
fn age_at_of(soh: Fixed, wear: &WearModel) -> (r: Option<Fixed>)
    requires
        0 <= soh@ <= 1_000_000,
        0 < wear.degradation_per_cycle@,
        0 < wear.cycles_per_year@,
    ensures
        r == age_at(soh, *wear),
{
    let s: i128 = soh.exact();
    if s < 1_000_000 {
        let d: i128 = wear.degradation_per_cycle.exact();
        let c: i128 = wear.cycles_per_year.exact();
        proof {
            fixed::lemma_product_bound(d as int, c as int);
            assert(d * c > 0) by (nonlinear_arith)
                requires
                    d > 0,
                    c > 0,
            ;
        }
        Some(rounded_of((1_000_000 - s) * 1_000_000_000_000, d * c))
    } else {
        None
    }
}

/// The module that a request for `m` leads to, one of `count` behind an inverter
/// whose battery power is `max_batt_w`.
pub open spec fn requested_module(
    m: BatteryModuleConfig,
    max_batt_w: Fixed,
    count: int,
    wear: WearModel,
) -> ModuleSeed {
    let soh = unit_clamped(m.soh);
    let nominal = if m.capacity_kwh@ < 1_000_000 {
        Fixed::of(1_000_000)
    } else {
        m.capacity_kwh
    };
    let capacity = product(nominal, soh);
    let limit = module_limit(capacity, max_batt_w, count);
    ModuleSeed {
        capacity_kwh: capacity,
        nominal_capacity_kwh: nominal,
        voltage_v: None,
        age_years: age_at(soh, wear),
        max_charge_kw: limit,
        max_discharge_kw: limit,
    }
}

/// A module of the stack of three behind a gateway: 3.4 kWh at 51.2 V.
pub open spec fn gateway_module(max_batt_w: Fixed) -> ModuleSeed {
    let limit = module_limit(Fixed::of(3_400_000), max_batt_w, 3);
    ModuleSeed {
        capacity_kwh: Fixed::of(3_400_000),
        nominal_capacity_kwh: Fixed::of(3_400_000),
        voltage_v: Some(Fixed::of(51_200_000)),
        age_years: None,
        max_charge_kw: limit,
        max_discharge_kw: limit,
    }
}

/// The batteries of a new plant.
#[derive(Clone, Debug)]
pub enum BatteryPlan {
    /// These modules.
    Modules(Vec<ModuleSeed>),
    /// So many modules of the default kind.
    Count(usize),
}

/// Household load of a new plant.
#[derive(Clone, Copy, Debug, PartialEq, Eq, Structural)]
pub enum LoadProfile {
    Minimal,
    Family,
    EV,
    HeatPump,
}

/// The load profile with a name; an unknown name means a family.
pub open spec fn named_profile(name: Seq<char>) -> LoadProfile {
    if name == "minimal"@ {
        LoadProfile::Minimal
    } else if name == "ev"@ {
        LoadProfile::EV
    } else if name == "heatpump"@ {
        LoadProfile::HeatPump
    } else {
        LoadProfile::Family
    }
}

/// The load profile with a name; an unknown name means a family.
pub fn load_profile_named(name: &str) -> (r: LoadProfile)
    ensures
        r == named_profile(name@),
{
    if same(name, "minimal") {
        LoadProfile::Minimal
    } else if same(name, "ev") {
        LoadProfile::EV
    } else if same(name, "heatpump") {
        LoadProfile::HeatPump
    } else {
        LoadProfile::Family
    }
}

/// The name of a load profile.
pub open spec fn profile_name(p: LoadProfile) -> Seq<char> {
    match p {
        LoadProfile::Minimal => "minimal"@,
        LoadProfile::Family => "family"@,
        LoadProfile::EV => "ev"@,
        LoadProfile::HeatPump => "heatpump"@,
    }
}

/// The name of a load profile, under which it is saved with the plant.
pub fn load_profile_name(p: LoadProfile) -> (r: &'static str)
    ensures
        r@ == profile_name(p),
{
    match p {
        LoadProfile::Minimal => "minimal",
        LoadProfile::Family => "family",
        LoadProfile::EV => "ev",
        LoadProfile::HeatPump => "heatpump",
    }
}

/// Law: the name of a load profile leads back to it, so that a plant is restored with
/// the profile it was saved with.
pub proof fn law_profile_names_lead_back(p: LoadProfile)
    ensures
        named_profile(profile_name(p)) == p,
{
    reveal_strlit("minimal");
    reveal_strlit("family");
    reveal_strlit("ev");
    reveal_strlit("heatpump");
    assert("minimal"@.len() == 7);
    assert("family"@.len() == 6);
    assert("ev"@.len() == 2);
    assert("heatpump"@.len() == 8);
}

/// A plant to create.
#[derive(Clone, Debug)]
pub struct PlantPlan {
    pub inverter_type: String,
    pub load_profile: LoadProfile,
    pub solar_peak_watts: Fixed,
    pub pv2_peak_watts: Fixed,
    pub latitude: Fixed,
    pub tick_interval_secs: u64,
    pub ct_meter_installed: bool,
    /// Set for a gateway, which has one unit behind it.
    pub parallel_aio_num: Option<u16>,
    pub batteries: BatteryPlan,
}

/// The inverter type that a request leads to.
pub open spec fn chosen_type(p: CreatePlantParams) -> Seq<char> {
    match p.inverter_type {
        Some(t) => t@,
        None => "Gen3Hybrid"@,
    }
}

/// The inverter type that a request leads to.
pub fn chosen_inverter_type(p: &CreatePlantParams) -> (r: String)
    ensures
        r@ == chosen_type(*p),
{
    match &p.inverter_type {
        Some(t) => t.clone(),
        None => "Gen3Hybrid".to_owned(),
    }
}

/// `n` held to the number of modules that a plant can have, one to six.
pub open spec fn module_count(n: int) -> int {
    fixed::saturate(n, 1, 6)
}

/// Whether `plan` has the batteries that a request leads to.
pub open spec fn batteries_follow(
    plan: BatteryPlan,
    p: CreatePlantParams,
    max_batt_w: Fixed,
    wear: WearModel,
) -> bool {
    if model::gateway(chosen_type(p)) {
        plan matches BatteryPlan::Modules(v) && v@ == seq![
            gateway_module(max_batt_w),
            gateway_module(max_batt_w),
            gateway_module(max_batt_w),
        ]
    } else {
        match p.battery_modules {
            Some(ms) => {
                let kept = if ms@.len() > 6 {
                    ms@.take(6)
                } else {
                    ms@
                };
                plan matches BatteryPlan::Modules(v) && v@ == kept.map_values(
                    |m: BatteryModuleConfig|
                        requested_module(m, max_batt_w, module_count(ms@.len() as int), wear),
                )
            },
            None => plan == BatteryPlan::Count(
                module_count(
                    match p.battery_count {
                        Some(n) => n as int,
                        None => 1,
                    },
                ) as usize,
            ),
        }
    }
}

/// The module that a request leads to.
fn requested_module_of(
    m: &BatteryModuleConfig,
    max_batt_w: Fixed,
    count: usize,
    wear: &WearModel,
) -> (r: ModuleSeed)
    requires
        count > 0,
        0 < wear.degradation_per_cycle@,
        0 < wear.cycles_per_year@,
    ensures
        r == requested_module(*m, max_batt_w, count as int, *wear),
{
    let soh = unit_clamp(m.soh);
    let nominal = if m.capacity_kwh.micros() < 1_000_000 {
        Fixed::from_units(1)
    } else {
        m.capacity_kwh
    };
    let capacity = product_of(nominal, soh);
    let limit = module_limit_of(capacity, max_batt_w, count);
    ModuleSeed {
        capacity_kwh: capacity,
        nominal_capacity_kwh: nominal,
        voltage_v: None,
        age_years: age_at_of(soh, wear),
        max_charge_kw: limit,
        max_discharge_kw: limit,
    }
}

/// The batteries that a request leads to. A gateway always has its stack, whatever
/// modules the request names.
fn planned_batteries(p: &CreatePlantParams, max_batt_w: Fixed, wear: &WearModel) -> (r: BatteryPlan)
    requires
        0 < wear.degradation_per_cycle@,
        0 < wear.cycles_per_year@,
    ensures
        batteries_follow(r, *p, max_batt_w, *wear),
{
    let t = chosen_inverter_type(p);
    if model::is_gateway_inverter(t.as_str()) {
        let capacity = Fixed::from_micros(3_400_000);
        let limit = module_limit_of(capacity, max_batt_w, 3);
        let m = ModuleSeed {
            capacity_kwh: capacity,
            nominal_capacity_kwh: capacity,
            voltage_v: Some(Fixed::from_micros(51_200_000)),
            age_years: None,
            max_charge_kw: limit,
            max_discharge_kw: limit,
        };
        let mut v: Vec<ModuleSeed> = Vec::new();
        v.push(m);
        v.push(m);
        v.push(m);
        assert(v@ =~= seq![
            gateway_module(max_batt_w),
            gateway_module(max_batt_w),
            gateway_module(max_batt_w),
        ]);
        return BatteryPlan::Modules(v);
    }
    match &p.battery_modules {
        Some(ms) => {
            let count: usize = if ms.len() < 1 {
                1
            } else if ms.len() > 6 {
                6
            } else {
                ms.len()
            };
            let kept: usize = if ms.len() > 6 {
                6
            } else {
                ms.len()
            };
            let ghost f = |m: BatteryModuleConfig|
                requested_module(m, max_batt_w, count as int, *wear);
            let mut v: Vec<ModuleSeed> = Vec::new();
            let mut i: usize = 0;
            while i < kept
                invariant
                    i <= kept <= ms@.len(),
                    count > 0,
                    0 < wear.degradation_per_cycle@,
                    0 < wear.cycles_per_year@,
                    f == (|m: BatteryModuleConfig|
                        requested_module(m, max_batt_w, count as int, *wear)),
                    v@.len() == i,
                    forall|j: int| 0 <= j < i ==> #[trigger] v@[j] == f(ms@[j]),
                decreases kept - i,
            {
                v.push(requested_module_of(&ms[i], max_batt_w, count, wear));
                i += 1;
            }
            assert(v@ =~= (if ms@.len() > 6 {
                ms@.take(6)
            } else {
                ms@
            }).map_values(f));
            BatteryPlan::Modules(v)
        },
        None => {
            let n: usize = match p.battery_count {
                Some(n) => n,
                None => 1,
            };
            if n < 1 {
                BatteryPlan::Count(1)
            } else if n > 6 {
                BatteryPlan::Count(6)
            } else {
                BatteryPlan::Count(n)
            }
        },
    }
}

/// A value or its default.
pub open spec fn or_default(q: Option<Fixed>, micros: int) -> Fixed {
    match q {
        Some(v) => v,
        None => Fixed::of(micros),
    }
}

/// A value or its default.
fn or_default_of(q: Option<Fixed>, micros: i64) -> (r: Fixed)
    requires
        -MAX_MICROS <= micros <= MAX_MICROS,
    ensures
        r == or_default(q, micros as int),
{
    match q {
        Some(v) => v,
        None => Fixed::from_micros(micros),
    }
}

/// The plant that a request leads to. `max_batt_w` is the battery power of the
/// chosen inverter type.
pub fn create_plant(p: &CreatePlantParams, max_batt_w: Fixed, wear: &WearModel) -> (r: PlantPlan)
    requires
        0 < wear.degradation_per_cycle@,
        0 < wear.cycles_per_year@,
    ensures
        r.inverter_type@ == chosen_type(*p),
        r.load_profile == named_profile(
            match p.load_profile {
                Some(n) => n@,
                None => "family"@,
            },
        ),
        r.solar_peak_watts == or_default(p.peak_watts, 5_000_000_000),
        r.pv2_peak_watts == or_default(p.pv2_peak_watts, 0),
        r.latitude == or_default(p.latitude, 51_500_000),
        r.tick_interval_secs == (match p.tick_interval {
            Some(n) => n,
            None => 1,
        }),
        r.ct_meter_installed == (match p.ct_meter_installed {
            Some(b) => b,
            None => true,
        }),
        r.parallel_aio_num == (if model::gateway(chosen_type(*p)) {
            Some(1u16)
        } else {
            None
        }),
        batteries_follow(r.batteries, *p, max_batt_w, *wear),
{
    let inverter_type = chosen_inverter_type(p);
    let load_profile = load_profile_named(
        match &p.load_profile {
            Some(n) => n.as_str(),
            None => "family",
        },
    );
    let parallel_aio_num = if model::is_gateway_inverter(inverter_type.as_str()) {
        Some(1u16)
    } else {
        None
    };
    let tick_interval_secs: u64 = match p.tick_interval {
        Some(n) => n,
        None => 1,
    };
    let ct_meter_installed = match p.ct_meter_installed {
        Some(b) => b,
        None => true,
    };
    PlantPlan {
        inverter_type,
        load_profile,
        solar_peak_watts: or_default_of(p.peak_watts, 5_000_000_000),
        pv2_peak_watts: or_default_of(p.pv2_peak_watts, 0),
        latitude: or_default_of(p.latitude, 51_500_000),
        tick_interval_secs,
        ct_meter_installed,
        parallel_aio_num,
        batteries: planned_batteries(p, max_batt_w, wear),
    }
}

/// Law: a plant planned from modules has at most six, and no module is given more
/// power than ten kilowatts.
pub proof fn law_planned_modules(
    plan: BatteryPlan,
    p: CreatePlantParams,
    max_batt_w: Fixed,
    wear: WearModel,
)
    requires
        batteries_follow(plan, p, max_batt_w, wear),
    ensures
        plan matches BatteryPlan::Modules(v) ==> v@.len() <= 6 && forall|i: int|
            0 <= i < v@.len() ==> (#[trigger] v@[i]).max_charge_kw@ <= 10_000_000
                && v@[i].max_discharge_kw == v@[i].max_charge_kw,
        plan matches BatteryPlan::Count(n) ==> 1 <= n <= 6,
{
    fixed::lemma_fixed_of(10_000_000);
}

// ---------------------------------------------------------------------------
// Running
// ---------------------------------------------------------------------------

/// A device model of the simulation.
#[derive(Clone, Copy, Debug, PartialEq, Eq, Structural)]
pub enum Device {
    Schedule,
    Solar,
    Load,
    Evc,
    Inverter,
    Faults,
    Battery,
    EnergyTracker,
}

/// The device models in the order in which each tick runs them. The charger comes
/// after the load, which sets the demand anew, and before the inverter, which then
/// serves the charger's draw as part of the demand.
pub open spec fn devices(scheduled: bool) -> Seq<Device> {
    let always = seq![
        Device::Solar,
        Device::Load,
        Device::Evc,
        Device::Inverter,
        Device::Faults,
        Device::Battery,
        Device::EnergyTracker,
    ];
    if scheduled {
        seq![Device::Schedule] + always
    } else {
        always
    }
}

/// The device models in the order in which each tick runs them.
pub fn device_order(scheduled: bool) -> (r: Vec<Device>)
    ensures
        r@ == devices(scheduled),
{
    let mut r: Vec<Device> = Vec::new();
    if scheduled {
        r.push(Device::Schedule);
    }
    r.push(Device::Solar);
    r.push(Device::Load);
    r.push(Device::Evc);
    r.push(Device::Inverter);
    r.push(Device::Faults);
    r.push(Device::Battery);
    r.push(Device::EnergyTracker);
    assert(r@ =~= devices(scheduled));
    r
}

/// How a simulation runs.
#[derive(Clone, Copy, Debug)]
pub struct RunPlan {
    /// Pause between two ticks.
    pub tick_delay_ms: u64,
    /// Whether the plant's clock follows the clock of the host.
    pub real_time: bool,
}

/// The pause between two ticks at `speed` ticks a second; a speed of zero never
/// ticks, a negative one does not pause.
pub open spec fn tick_delay(speed: Fixed) -> int {
    if speed@ < 0 {
        0
    } else if speed@ == 0 {
        u64::MAX as int
    } else {
        fixed::toward_zero(1_000_000_000, speed@)
    }
}

/// How the simulation runs, with the scenario read for it, or why it does not start.
/// `running` says whether the simulation runs: a start that fails, for whatever
/// reason, leaves it as it was.
pub fn start_simulation<T>(
    has_plant: bool,
    running: &mut bool,
    p: &StartSimulationParams,
    scenario: Result<T, String>,
) -> (r: Result<(RunPlan, T), String>)
    ensures
        !has_plant ==> text::fails_with(r, "No plant exists — create or load a plant first"@),
        has_plant && *old(running) ==> text::fails_with(r, "Simulation already running"@),
        has_plant && !*old(running) ==> match scenario {
            Err(e) => r == Err::<(RunPlan, T), String>(e),
            Ok(t) => r matches Ok(started) && started.1 == t,
        },
        r matches Ok(started) ==> {
            let speed = or_default(p.speed, 10_000_000);
            &&& started.0.tick_delay_ms == tick_delay(speed)
            &&& started.0.real_time == (speed@ <= 1_000_000)
        },
        *final(running) == (*old(running) || r is Ok),
{
    if !has_plant {
        return Err("No plant exists — create or load a plant first".to_owned());
    }
    if *running {
        return Err("Simulation already running".to_owned());
    }
    let read = match scenario {
        Ok(t) => t,
        Err(e) => return Err(e),
    };
    let speed: i64 = or_default_of(p.speed, 10_000_000).micros();
    let tick_delay_ms: u64 = if speed < 0 {
        0
    } else if speed == 0 {
        u64::MAX
    } else {
        proof {
            assert(0 <= 1_000_000_000int / (speed as int) <= 1_000_000_000) by (nonlinear_arith)
                requires
                    speed > 0,
            ;
        }
        (1_000_000_000 / speed) as u64
    };
    *running = true;
    Ok((RunPlan { tick_delay_ms, real_time: speed <= 1_000_000 }, read))
}

/// The command for a request to inject a fault.
pub fn inject_fault(p: InjectFaultParams) -> (r: Command)
    ensures
        r == Command::InjectFault(p.fault_id),
{
    Command::InjectFault(p.fault_id)
}

/// The command for a request to clear a fault.
pub fn clear_fault(p: ClearFaultParams) -> (r: Command)
    ensures
        r == Command::ClearFault(p.fault_id),
{
    Command::ClearFault(p.fault_id)
}

/// The inverter mode with a name.
pub open spec fn named_mode(name: Seq<char>) -> Option<InverterMode> {
    if name == "Normal"@ {
        Some(InverterMode::Normal)
    } else if name == "Eco"@ {
        Some(InverterMode::Eco)
    } else if name == "ForceCharge"@ {
        Some(InverterMode::ForceCharge)
    } else if name == "ForceDischarge"@ {
        Some(InverterMode::ForceDischarge)
    } else if name == "ExportLimit"@ {
        Some(InverterMode::ExportLimit)
    } else {
        None
    }
}

/// The inverter mode with a name.
pub fn mode_named(name: &str) -> (r: Option<InverterMode>)
    ensures
        r == named_mode(name@),
{
    if same(name, "Normal") {
        Some(InverterMode::Normal)
    } else if same(name, "Eco") {
        Some(InverterMode::Eco)
    } else if same(name, "ForceCharge") {
        Some(InverterMode::ForceCharge)
    } else if same(name, "ForceDischarge") {
        Some(InverterMode::ForceDischarge)
    } else if same(name, "ExportLimit") {
        Some(InverterMode::ExportLimit)
    } else {
        None
    }
}

/// The command for a mode by name, or the refusal of an unknown name.
pub fn set_mode(p: &SetModeParams) -> (r: Result<Command, String>)
    ensures
        match named_mode(p.mode@) {
            Some(m) => r == Ok::<Command, String>(Command::SetInverterMode(m)),
            None => text::fails_with(r, "Unknown mode: "@ + p.mode@),
        },
{
    match mode_named(p.mode.as_str()) {
        Some(m) => Ok(Command::SetInverterMode(m)),
        None => Err(joined("Unknown mode: ", p.mode.as_str())),
    }
}

/// The weather with a name.
pub open spec fn named_weather(name: Seq<char>) -> Option<WeatherCondition> {
    if name == "Clear"@ {
        Some(WeatherCondition::Clear)
    } else if name == "PartlyCloudy"@ {
        Some(WeatherCondition::PartlyCloudy)
    } else if name == "Overcast"@ {
        Some(WeatherCondition::Overcast)
    } else if name == "Rain"@ {
        Some(WeatherCondition::Rain)
    } else if name == "Storm"@ {
        Some(WeatherCondition::Storm)
    } else {
        None
    }
}

/// The command for a weather by name, or the refusal of an unknown name.
pub fn set_weather(p: &SetWeatherParams) -> (r: Result<Command, String>)
    ensures
        match named_weather(p.weather@) {
            Some(w) => r == Ok::<Command, String>(Command::SetWeather(w)),
            None => text::fails_with(r, "Unknown weather: "@ + p.weather@),
        },
{
    let name = p.weather.as_str();
    if same(name, "Clear") {
        Ok(Command::SetWeather(WeatherCondition::Clear))
    } else if same(name, "PartlyCloudy") {
        Ok(Command::SetWeather(WeatherCondition::PartlyCloudy))
    } else if same(name, "Overcast") {
        Ok(Command::SetWeather(WeatherCondition::Overcast))
    } else if same(name, "Rain") {
        Ok(Command::SetWeather(WeatherCondition::Rain))
    } else if same(name, "Storm") {
        Ok(Command::SetWeather(WeatherCondition::Storm))
    } else {
        Err(joined("Unknown weather: ", name))
    }
}

/// The command for a request to calibrate.
pub fn start_calibration(p: &StartCalibrationParams) -> (r: Command)
    ensures
        r == (Command::StartCalibration { module: p.module }),
{
    Command::StartCalibration { module: p.module }
}

/// The command that ends a calibration.
pub fn cancel_calibration() -> (r: Command)
    ensures
        r == Command::CancelCalibration,
{
    Command::CancelCalibration
}

/// The command for a tick interval: at least one second.
pub fn set_tick_interval(p: &SetTickIntervalParams) -> (r: Command)
    ensures
        r == Command::SetTickInterval(
            if p.interval_secs < 1 {
                1
            } else {
                p.interval_secs
            },
        ),
{
    if p.interval_secs < 1 {
        Command::SetTickInterval(1)
    } else {
        Command::SetTickInterval(p.interval_secs)
    }
}

/// A file format of the recording.
#[derive(Clone, Copy, Debug, PartialEq, Eq, Structural)]
pub enum ExportFormat {
    Csv,
    Jsonl,
    Json,
}

/// The format with a name, or the refusal of an unknown name.
pub fn export_format(p: &ExportRecordingParams) -> (r: Result<ExportFormat, String>)
    ensures
        p.format@ == "csv"@ ==> r == Ok::<ExportFormat, String>(ExportFormat::Csv),
        p.format@ != "csv"@ && p.format@ == "jsonl"@ ==> r == Ok::<ExportFormat, String>(
            ExportFormat::Jsonl,
        ),
        p.format@ != "csv"@ && p.format@ != "jsonl"@ && p.format@ == "json"@ ==> r == Ok::<
            ExportFormat,
            String,
        >(ExportFormat::Json),
        p.format@ != "csv"@ && p.format@ != "jsonl"@ && p.format@ != "json"@
            ==> text::fails_with(r, "Unknown format: "@ + p.format@),
{
    let name = p.format.as_str();
    if same(name, "csv") {
        Ok(ExportFormat::Csv)
    } else if same(name, "jsonl") {
        Ok(ExportFormat::Jsonl)
    } else if same(name, "json") {
        Ok(ExportFormat::Json)
    } else {
        Err(joined("Unknown format: ", name))
    }
}

// ---------------------------------------------------------------------------
// Changes of the plant
// ---------------------------------------------------------------------------

/// Shows a plant and its schedule, if it has one, on the registers.
pub fn refresh_registers(store: &mut RegisterStore, s: &PlantState, plan: Option<&Schedule>)
    requires
        forall|i: int|
            0 <= i < old(store).defs().len() ==> crate::projection::placeable(
                #[trigger] old(store).defs()[i],
            ),
    ensures
        final(store).defs() == old(store).defs(),
        ({
            let shown = registers::projected_values(old(store).values(), old(store).defs(), *s);
            final(store).values() == (match plan {
                Some(p) => registers::scheduled(
                    shown,
                    old(store).defs(),
                    *p,
                    s.config.inverter_type@,
                ),
                None => shown,
            })
        }),
{
    store.project_from_state(s);
    match plan {
        Some(p) => store.project_schedule_for(p, s.config.inverter_type.as_str()),
        None => {},
    }
}

/// Pins the solar power, or releases it.
pub fn set_solar_override(s: &mut PlantState, p: &SetOverrideParams)
    ensures
        *final(s) == (PlantState { solar_override: p.watts, ..*old(s) }),
{
    s.solar_override = p.watts;
}

/// Pins the load, or releases it.
pub fn set_load_override(s: &mut PlantState, p: &SetOverrideParams)
    ensures
        *final(s) == (PlantState { load_override: p.watts, ..*old(s) }),
{
    s.load_override = p.watts;
}

/// Installs or removes the CT meter.
pub fn set_ct_meter(s: &mut PlantState, p: &SetCtMeterParams)
    ensures
        *final(s) == (PlantState {
            config: PlantConfig { ct_meter_installed: p.enabled, ..old(s).config },
            ..*old(s)
        }),
{
    s.config.ct_meter_installed = p.enabled;
}

/// The module after its state of charge is set by hand: held to `0..=100`, at
/// rest.
pub open spec fn recharged(b: BatteryState, soc: Fixed) -> BatteryState {
    BatteryState {
        soc_percent: Fixed::of(fixed::saturate(soc@, 0, 100_000_000)),
        power_kw: Fixed::of(0),
        current_a: Fixed::of(0),
        ..b
    }
}

/// Sets the state of charge of a module and holds it for two hundred ticks; the
/// battery summary is left to the battery model. A module that does not exist is
/// refused by its number.
pub fn set_battery_soc(s: &mut PlantState, p: &SetBatterySocParams) -> (r: Result<(), String>)
    requires
        p.module < usize::MAX,
    ensures
        p.module < old(s).batteries@.len() ==> {
            &&& r == Ok::<(), String>(())
            &&& *final(s) == (PlantState {
                batteries: final(s).batteries,
                manual_soc_hold_ticks: 200,
                ..*old(s)
            })
            &&& final(s).batteries@ == old(s).batteries@.update(
                p.module as int,
                recharged(old(s).batteries@[p.module as int], p.soc),
            )
        },
        p.module >= old(s).batteries@.len() ==> {
            &&& text::fails_with(
                r,
                "Battery module "@ + text::decimal((p.module + 1) as nat) + " does not exist"@,
            )
            &&& *final(s) == *old(s)
        },
{
    if p.module >= s.batteries.len() {
        let mut e = "Battery module ".to_owned();
        append_decimal(&mut e, p.module as u64 + 1);
        e.append(" does not exist");
        return Err(e);
    }
    let soc: i64 = p.soc.micros();
    let mut b: BatteryState = s.batteries[p.module];
    b.soc_percent = if soc < 0 {
        Fixed::from_units(0)
    } else if soc > 100_000_000 {
        Fixed::from_units(100)
    } else {
        Fixed::from_micros(soc)
    };
    b.power_kw = Fixed::from_units(0);
    b.current_a = Fixed::from_units(0);
    s.batteries.set(p.module, b);
    s.manual_soc_hold_ticks = 200;
    Ok(())
}

/// The module after its state of health is set by hand, one of `count` behind an
/// inverter of `max_ac_watts`. Capacity, throughput and limits follow the health.
pub open spec fn aged(b: BatteryState, soh: Fixed, max_ac_watts: Fixed, count: int) -> BatteryState {
    let health = unit_clamped(soh);
    let capacity = product(b.nominal_capacity_kwh, health);
    let limit = module_limit(capacity, max_ac_watts, count);
    BatteryState {
        soh: health,
        capacity_kwh: capacity,
        throughput_kwh: throughput(health, b.nominal_capacity_kwh),
        max_charge_kw: limit,
        max_discharge_kw: limit,
        ..b
    }
}

/// Sets the state of health of a module. A module that does not exist changes
/// nothing.
pub fn set_battery_soh(s: &mut PlantState, p: &SetBatterySohParams)
    requires
        p.module < old(s).batteries@.len() ==> -MAX_NOMINAL_MICROS
            <= old(s).batteries@[p.module as int].nominal_capacity_kwh@ <= MAX_NOMINAL_MICROS,
    ensures
        *final(s) == (PlantState { batteries: final(s).batteries, ..*old(s) }),
        final(s).batteries@ == (if p.module < old(s).batteries@.len() {
            old(s).batteries@.update(
                p.module as int,
                aged(
                    old(s).batteries@[p.module as int],
                    p.soh,
                    old(s).config.max_ac_watts,
                    old(s).batteries@.len() as int,
                ),
            )
        } else {
            old(s).batteries@
        }),
{
    if p.module < s.batteries.len() {
        let count: usize = s.batteries.len();
        let mut b: BatteryState = s.batteries[p.module];
        let health = unit_clamp(p.soh);
        let capacity = product_of(b.nominal_capacity_kwh, health);
        let limit = module_limit_of(capacity, s.config.max_ac_watts, count);
        b.soh = health;
        b.capacity_kwh = capacity;
        proof {
            lemma_throughput_fits(health, b.nominal_capacity_kwh);
        }
        b.throughput_kwh = throughput_from_soh(health, b.nominal_capacity_kwh);
        b.max_charge_kw = limit;
        b.max_discharge_kw = limit;
        s.batteries.set(p.module, b);
    }
}

/// Overrides the DSP firmware version.
pub fn set_dsp_firmware(s: &mut PlantState, version: u16)
    ensures
        *final(s) == (PlantState {
            inverter: InverterState { dsp_firmware_version: version, ..old(s).inverter },
            ..*old(s)
        }),
{
    s.inverter.dsp_firmware_version = version;
}

/// Overrides the ARM firmware version; zero restores that of the type.
pub fn set_arm_firmware(s: &mut PlantState, version: u16)
    ensures
        *final(s) == (PlantState {
            inverter: InverterState { arm_firmware_version: version, ..old(s).inverter },
            ..*old(s)
        }),
{
    s.inverter.arm_firmware_version = version;
}

/// Pins the inverter temperature, held to -10..80 degrees, or releases it to the
/// thermal model.
pub fn set_inverter_temperature(s: &mut PlantState, celsius: Option<Fixed>)
    ensures
        *final(s) == (PlantState {
            inverter: InverterState {
                temperature_override: celsius,
                temperature_celsius: match celsius {
                    Some(v) => Fixed::of(fixed::saturate(v@, -10_000_000, 80_000_000)),
                    None => old(s).inverter.temperature_celsius,
                },
                ..old(s).inverter
            },
            ..*old(s)
        }),
{
    s.inverter.temperature_override = celsius;
    match celsius {
        Some(v) => {
            let m: i64 = v.micros();
            s.inverter.temperature_celsius = if m < -10_000_000 {
                Fixed::from_micros(-10_000_000)
            } else if m > 80_000_000 {
                Fixed::from_micros(80_000_000)
            } else {
                Fixed::from_micros(m)
            };
        },
        None => {},
    }
}

// ---------------------------------------------------------------------------
// Vehicle charger
// ---------------------------------------------------------------------------

/// Switches the charger on or off.
pub fn set_evc_enabled(evc: &mut EvcState, enabled: bool)
    ensures
        *final(evc) == (EvcState { enabled, ..*old(evc) }),
{
    evc.enabled = enabled;
}

/// Sets the charge control: 0 ready, 1 start, 2 stop; a larger value means stop.
pub fn set_evc_charge_control(evc: &mut EvcState, mode: u16)
    ensures
        *final(evc) == (EvcState {
            charge_control: if mode > 2 {
                2
            } else {
                mode
            },
            ..*old(evc)
        }),
{
    evc.charge_control = if mode > 2 {
        2
    } else {
        mode
    };
}

/// Sets the current limit in tenths of an ampere, held to 6..32 amperes.
pub fn set_evc_charge_current(evc: &mut EvcState, deci_amps: u16)
    ensures
        *final(evc) == (EvcState {
            charge_current_limit: fixed::saturate(deci_amps as int, 60, 320) as u16,
            ..*old(evc)
        }),
{
    evc.charge_current_limit = if deci_amps < 60 {
        60
    } else if deci_amps > 320 {
        320
    } else {
        deci_amps
    };
}

/// Sets the energy of the session, held to what its register can show.
pub fn set_evc_session_energy(evc: &mut EvcState, kwh: Fixed)
    ensures
        *final(evc) == (EvcState {
            session_energy_kwh: Fixed::of(fixed::saturate(kwh@, 0, 6_553_500_000)),
            ..*old(evc)
        }),
{
    let m: i64 = kwh.micros();
    evc.session_energy_kwh = if m < 0 {
        Fixed::from_micros(0)
    } else if m > 6_553_500_000 {
        Fixed::from_micros(6_553_500_000)
    } else {
        Fixed::from_micros(m)
    };
}

/// The charger after its cable is pulled: idle, without flow or session.
pub open spec fn unplugged(evc: EvcState) -> EvcState {
    EvcState {
        connection_status: 0,
        charging_state: 1,
        active_power_w: Fixed::of(0),
        active_power_l1: Fixed::of(0),
        active_power_l2: Fixed::of(0),
        active_power_l3: Fixed::of(0),
        current_l1: Fixed::of(0),
        current_l2: Fixed::of(0),
        current_l3: Fixed::of(0),
        session_energy_kwh: Fixed::of(0),
        session_duration_secs: 0,
        ..evc
    }
}

/// Plugs the cable in or pulls it, and gives the status that the plant sees.
pub fn set_evc_cable_status(evc: &mut EvcState, status: u16) -> (r: u16)
    ensures
        r == (if status == 0 {
            0
        } else {
            1int
        }),
        *final(evc) == (if status == 0 {
            unplugged(*old(evc))
        } else {
            EvcState { connection_status: 1, ..*old(evc) }
        }),
{
    if status == 0 {
        let zero = Fixed::from_units(0);
        evc.connection_status = 0;
        evc.charging_state = 1;
        evc.active_power_w = zero;
        evc.active_power_l1 = zero;
        evc.active_power_l2 = zero;
        evc.active_power_l3 = zero;
        evc.current_l1 = zero;
        evc.current_l2 = zero;
        evc.current_l3 = zero;
        evc.session_energy_kwh = zero;
        evc.session_duration_secs = 0;
        0
    } else {
        evc.connection_status = 1;
        1
    }
}

/// Takes over before a tick what clients set on the shared charger.
pub fn sync_evc(live: &mut EvcState, shared: &EvcState)
    ensures
        *final(live) == (EvcState {
            charge_control: shared.charge_control,
            charge_current_limit: shared.charge_current_limit,
            plug_and_go: shared.plug_and_go,
            enabled: shared.enabled,
            connection_status: shared.connection_status,
            ..*old(live)
        }),
{
    live.charge_control = shared.charge_control;
    live.charge_current_limit = shared.charge_current_limit;
    live.plug_and_go = shared.plug_and_go;
    live.enabled = shared.enabled;
    live.connection_status = shared.connection_status;
}

/// The port for the charger's server, or the refusal of port zero.
pub fn set_evc_port(port: u16) -> (r: Result<u16, String>)
    ensures
        port != 0 ==> r == Ok::<u16, String>(port),
        port == 0 ==> text::fails_with(r, "Port must be >= 1"@),
{
    if port == 0 {
        Err("Port must be >= 1".to_owned())
    } else {
        Ok(port)
    }
}

// ---------------------------------------------------------------------------
// Dongle
// ---------------------------------------------------------------------------

/// The name of a misbehaviour.
pub open spec fn dongle_name(m: DongleMisbehaviourMode) -> Seq<char> {
    match m {
        DongleMisbehaviourMode::Off => "Off"@,
        DongleMisbehaviourMode::EmptyData => "EmptyData"@,
        DongleMisbehaviourMode::StaleData => "StaleData"@,
        DongleMisbehaviourMode::GarbageData => "GarbageData"@,
        DongleMisbehaviourMode::DropConnection => "DropConnection"@,
        DongleMisbehaviourMode::Intermittent => "Intermittent"@,
    }
}

/// The name of a misbehaviour.
pub fn get_dongle_misbehaviour(m: DongleMisbehaviourMode) -> (r: &'static str)
    ensures
        r@ == dongle_name(m),
{
    match m {
        DongleMisbehaviourMode::Off => "Off",
        DongleMisbehaviourMode::EmptyData => "EmptyData",
        DongleMisbehaviourMode::StaleData => "StaleData",
        DongleMisbehaviourMode::GarbageData => "GarbageData",
        DongleMisbehaviourMode::DropConnection => "DropConnection",
        DongleMisbehaviourMode::Intermittent => "Intermittent",
    }
}

/// The misbehaviour with a name.
pub open spec fn named_dongle(name: Seq<char>) -> Option<DongleMisbehaviourMode> {
    if name == "Off"@ {
        Some(DongleMisbehaviourMode::Off)
    } else if name == "EmptyData"@ {
        Some(DongleMisbehaviourMode::EmptyData)
    } else if name == "StaleData"@ {
        Some(DongleMisbehaviourMode::StaleData)
    } else if name == "GarbageData"@ {
        Some(DongleMisbehaviourMode::GarbageData)
    } else if name == "DropConnection"@ {
        Some(DongleMisbehaviourMode::DropConnection)
    } else if name == "Intermittent"@ {
        Some(DongleMisbehaviourMode::Intermittent)
    } else {
        None
    }
}

/// The misbehaviour with a name, or the refusal of an unknown name.
pub fn set_dongle_misbehaviour(mode: &str) -> (r: Result<DongleMisbehaviourMode, String>)
    ensures
        match named_dongle(mode@) {
            Some(m) => r == Ok::<DongleMisbehaviourMode, String>(m),
            None => text::fails_with(r, "Unknown dongle misbehaviour mode: "@ + mode@),
        },
{
    if same(mode, "Off") {
        Ok(DongleMisbehaviourMode::Off)
    } else if same(mode, "EmptyData") {
        Ok(DongleMisbehaviourMode::EmptyData)
    } else if same(mode, "StaleData") {
        Ok(DongleMisbehaviourMode::StaleData)
    } else if same(mode, "GarbageData") {
        Ok(DongleMisbehaviourMode::GarbageData)
    } else if same(mode, "DropConnection") {
        Ok(DongleMisbehaviourMode::DropConnection)
    } else if same(mode, "Intermittent") {
        Ok(DongleMisbehaviourMode::Intermittent)
    } else {
        Err(joined("Unknown dongle misbehaviour mode: ", mode))
    }
}

/// Law: the name of a misbehaviour leads back to it.
pub proof fn law_dongle_names_lead_back(m: DongleMisbehaviourMode)
    ensures
        named_dongle(dongle_name(m)) == Some(m),
{
    reveal_strlit("Off");
    reveal_strlit("EmptyData");
    reveal_strlit("StaleData");
    reveal_strlit("GarbageData");
    reveal_strlit("DropConnection");
    reveal_strlit("Intermittent");
    assert("Off"@[0] == 'O');
    assert("EmptyData"@[0] == 'E');
    assert("StaleData"@[0] == 'S');
    assert("GarbageData"@[0] == 'G');
    assert("DropConnection"@[0] == 'D');
    assert("Intermittent"@[0] == 'I');
}

// ---------------------------------------------------------------------------
// Grid port
// ---------------------------------------------------------------------------

/// The power limit of the grid port: the physical output of a single-phase
/// inverter, the export limit of the others.
pub fn get_grid_port_max_power(s: Option<&PlantState>) -> (r: Result<Fixed, String>)
    ensures
        s matches Some(p) ==> r == Ok::<Fixed, String>(
            if model::grid_port_family(p.config.inverter_type@)
                == GridPortPowerFamily::SinglePhase {
                p.config.max_ac_watts
            } else {
                p.inverter.export_limit_w
            },
        ),
        s is None ==> text::fails_with(r, "No plant created"@),
{
    match s {
        None => Err("No plant created".to_owned()),
        Some(p) => match GridPortPowerFamily::from_inverter_type(p.config.inverter_type.as_str()) {
            GridPortPowerFamily::SinglePhase => Ok(p.config.max_ac_watts),
            GridPortPowerFamily::ThreePhase => Ok(p.inverter.export_limit_w),
            GridPortPowerFamily::Ems => Ok(p.inverter.export_limit_w),
        },
    }
}

/// Why a power limit is refused.
#[derive(Clone, Copy, Debug, PartialEq, Eq)]
pub enum LimitRefusal {
    /// A limit is no negative number.
    Negative { watts: Fixed },
    NoPlant,
    /// The register of a single-phase inverter takes no writes.
    ReadOnly,
}

impl LimitRefusal {
    /// The refusal in words.
    pub fn text(self) -> (r: String)
        ensures
            r@ == (match self {
                LimitRefusal::Negative { watts } =>
                    "Watts must be a non-negative finite number, got "@
                    + numerals::shortest_text(watts@),
                LimitRefusal::NoPlant => "No plant created"@,
                LimitRefusal::ReadOnly => model::family_label(GridPortPowerFamily::SinglePhase)
                    + " is read-only on the wire (givenergy-modbus defines no setter). Change the inverter's max AC output via the plant configuration instead."@,
            }),
    {
        match self {
            LimitRefusal::Negative { watts } => {
                let mut m = "Watts must be a non-negative finite number, got ".to_owned();
                append_shortest(&mut m, watts);
                m
            },
            LimitRefusal::NoPlant => "No plant created".to_owned(),
            LimitRefusal::ReadOnly => joined(
                GridPortPowerFamily::SinglePhase.label(),
                " is read-only on the wire (givenergy-modbus defines no setter). Change the inverter's max AC output via the plant configuration instead.",
            ),
        }
    }
}

/// The family addressed and the command for a limit of the grid port, or the
/// refusal: of a negative limit first, then without a plant, then by a
/// single-phase inverter.
pub fn set_grid_port_max_power(s: Option<&PlantState>, watts: Fixed) -> (r: Result<
    (GridPortPowerFamily, Command),
    LimitRefusal,
>)
    ensures
        r == (if watts@ < 0 {
            Err(LimitRefusal::Negative { watts })
        } else {
            match s {
                None => Err(LimitRefusal::NoPlant),
                Some(p) => {
                    let f = model::grid_port_family(p.config.inverter_type@);
                    if f == GridPortPowerFamily::SinglePhase {
                        Err(LimitRefusal::ReadOnly)
                    } else {
                        Ok(
                            (
                                f,
                                Command::SetExportLimit(
                                    Fixed::of(model::clamped_watts(f, watts@)),
                                ),
                            ),
                        )
                    }
                },
            }
        }),
{
    if watts.micros() < 0 {
        return Err(LimitRefusal::Negative { watts });
    }
    match s {
        None => Err(LimitRefusal::NoPlant),
        Some(p) => {
            let f = GridPortPowerFamily::from_inverter_type(p.config.inverter_type.as_str());
            match f {
                GridPortPowerFamily::SinglePhase => Err(LimitRefusal::ReadOnly),
                _ => {
                    let limit = f.clamp_watts(watts);
                    proof {
                        fixed::lemma_fixed_of(model::clamped_watts(f, watts@));
                        fixed::lemma_fixed_same(
                            limit,
                            Fixed::of(model::clamped_watts(f, watts@)),
                        );
                    }
                    Ok((f, Command::SetExportLimit(limit)))
                },
            }
        },
    }
}

/// The command for the export limit of the site, or the refusal without a plant, which
/// names a negative limit first. A single-phase site may set any limit; a negative one
/// counts as zero.
pub fn set_grid_export_limit(s: Option<&PlantState>, watts: Fixed) -> (r: Result<
    Command,
    LimitRefusal,
>)
    ensures
        r == (match s {
            None => if watts@ < 0 {
                Err(LimitRefusal::Negative { watts })
            } else {
                Err(LimitRefusal::NoPlant)
            },
            Some(p) => Ok(
                Command::SetExportLimit(
                    Fixed::of(
                        model::export_limit(
                            model::grid_port_family(p.config.inverter_type@),
                            watts@,
                        ),
                    ),
                ),
            ),
        }),
{
    match s {
        None => if watts.micros() < 0 {
            Err(LimitRefusal::Negative { watts })
        } else {
            Err(LimitRefusal::NoPlant)
        },
        Some(p) => {
            let f = GridPortPowerFamily::from_inverter_type(p.config.inverter_type.as_str());
            Ok(Command::SetExportLimit(f.export_limit_for(watts)))
        },
    }
}

} // verus!
