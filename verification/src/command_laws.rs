//! What the user interface can rely on when it makes a request.
use crate::commands;
use crate::commands::{
    BatteryModuleConfig, BatteryPlan, ClearFaultParams, CreatePlantParams, Device, ExportFormat,
    ExportRecordingParams, InjectFaultParams, LimitRefusal, LoadProfile, PlantPlan, RunPlan,
    SetBatterySocParams, SetBatterySohParams, SetCtMeterParams, SetModeParams, SetOverrideParams,
    SetTickIntervalParams, SetWeatherParams, StartCalibrationParams, StartSimulationParams,
    WearModel,
};
use crate::fixed;
use crate::fixed::Fixed;
use crate::modbus::Command;
use crate::model::GridPortPowerFamily;
use crate::numerals;
use crate::showing::{plain, words};
use crate::state::{DongleMisbehaviourMode, EvcState, InverterMode, PlantState, WeatherCondition};
use crate::text;
use vstd::prelude::*;

verus! {

/// The quantity of `micros` millionths.
proof fn lemma_of(micros: int)
    requires
        -1_000_000_000_000_000_000 <= micros <= 1_000_000_000_000_000_000,
    ensures
        Fixed::of(micros)@ == micros,
{
    fixed::lemma_fixed_of(micros);
}

/// Law: the energy put through by a module of a given health: the health lost times the
/// nominal capacity, over two ten-thousandths, rounded.
pub proof fn law_throughput(soh: Fixed, nominal: Fixed, r: Fixed)
    requires
        0 <= soh@ <= 1_000_000,
        0 <= nominal@ <= 200_000_000_000_000,
        call_ensures(commands::throughput_from_soh, (soh, nominal), r),
    ensures
        -100 <= r@ * 200 - (1_000_000 - soh@) * nominal@ <= 100,
        soh@ == 1_000_000 ==> r@ == 0,
        soh@ == 0 ==> r@ == 5_000 * nominal@,
{
    let x = (1_000_000 - soh@) * nominal@;
    assert(0 <= x <= 1_000_000 * 200_000_000_000_000) by (nonlinear_arith)
        requires
            0 <= soh@ <= 1_000_000,
            0 <= nominal@ <= 200_000_000_000_000,
            x == (1_000_000 - soh@) * nominal@,
    ;
    let q = (2 * x + 200) / 400;
    assert(fixed::nearest(x, 200) == q);
    lemma_of(q);
    if soh@ == 1_000_000 {
        assert(x == 0) by (nonlinear_arith)
            requires
                soh@ == 1_000_000,
                x == (1_000_000 - soh@) * nominal@,
        ;
    }
    if soh@ == 0 {
        assert(x == 1_000_000 * nominal@) by (nonlinear_arith)
            requires
                soh@ == 0,
                x == (1_000_000 - soh@) * nominal@,
        ;
    }
}

/// A rounded quantity that fits.
proof fn lemma_rounded(n: int, d: int)
    requires
        d > 0,
        0 <= n <= 100_000_000_000_000_000 * d,
    ensures
        -d <= 2 * (fixed::rounded(n, d)@ * d - n) <= d,
        fixed::rounded(n, d)@ >= 0,
{
    let q = (2 * n + d) / (2 * d);
    vstd::arithmetic::div_mod::lemma_fundamental_div_mod(2 * n + d, 2 * d);
    vstd::arithmetic::div_mod::lemma_mod_bound(2 * n + d, 2 * d);
    assert(2 * d * q <= 2 * n + d < 2 * d * q + 2 * d);
    assert(0 <= q <= 100_000_000_000_000_000) by (nonlinear_arith)
        requires
            2 * d * q <= 2 * n + d < 2 * d * q + 2 * d,
            0 <= n <= 100_000_000_000_000_000 * d,
            d > 0,
    ;
    assert(2 * (q * d - n) == 2 * d * q - 2 * n) by (nonlinear_arith);
    lemma_of(q);
}

/// Law: the power limit of a module is the smallest of three: seven tenths of its
/// capacity an hour, ten kilowatts, and its share of the total.
pub proof fn law_module_limit(capacity: Fixed, total_w: Fixed, count: int)
    requires
        0 <= capacity@ <= 1_000_000_000_000_000,
        0 <= total_w@ <= 1_000_000_000_000_000,
        1 <= count <= 1_000,
    ensures
        ({
            let limit = commands::module_limit(capacity, total_w, count)@;
            &&& limit >= 0
            &&& limit <= 10_000_000
            &&& 10 * limit <= 7 * capacity@ + 5
            &&& 1_000 * count * limit <= total_w@ + 500 * count
            &&& limit == 10_000_000 || 10 * limit >= 7 * capacity@ - 5 || 1_000 * count * limit
                >= total_w@ - 500 * count
        }),
{
    lemma_rounded(capacity@ * 7, 10);
    assert(total_w@ <= 100_000_000_000_000_000 * (count * 1000)) by (nonlinear_arith)
        requires
            total_w@ <= 1_000_000_000_000_000,
            count >= 1,
    ;
    lemma_rounded(total_w@, count * 1000);
    lemma_of(10_000_000);
    let share = fixed::rounded(total_w@, count * 1000)@;
    let rate = fixed::rounded(capacity@ * 7, 10)@;
    let limit = commands::module_limit(capacity, total_w, count)@;
    assert(share * (count * 1000) == 1_000 * count * share) by (nonlinear_arith);
    assert(1_000 * count * limit <= 1_000 * count * share) by (nonlinear_arith)
        requires
            limit <= share,
            count >= 1,
    ;
}

/// Law: a module as new has no age; a worn one is as old as its loss of health divided
/// by the loss of a year.
pub proof fn law_age(soh: Fixed, wear: WearModel)
    requires
        0 <= soh@,
        1_000_000 <= wear.degradation_per_cycle@ * wear.cycles_per_year@,
    ensures
        soh@ >= 1_000_000 ==> commands::age_at(soh, wear) is None,
        soh@ < 1_000_000 ==> commands::age_at(soh, wear) is Some && ({
            let year = wear.degradation_per_cycle@ * wear.cycles_per_year@;
            let age = commands::age_at(soh, wear)->0@;
            -year <= 2 * (age * year - (1_000_000 - soh@) * 1_000_000_000_000) <= year
        }),
{
    if soh@ < 1_000_000 {
        let year = wear.degradation_per_cycle@ * wear.cycles_per_year@;
        let n = (1_000_000 - soh@) * 1_000_000_000_000;
        assert(n <= 100_000_000_000_000_000 * year) by (nonlinear_arith)
            requires
                n <= 1_000_000_000_000_000_000,
                year >= 1_000_000,
        ;
        lemma_rounded(n, year);
    }
}

/// Law: a module that is asked for has at least a kilowatt-hour, its health held to
/// what a module can have, the capacity that its health leaves of the nominal one, and
/// the same limit both ways.
pub proof fn law_requested_module(
    m: BatteryModuleConfig,
    max_batt_w: Fixed,
    count: int,
    wear: WearModel,
)
    requires
        0 <= m.capacity_kwh@ <= 1_000_000_000_000_000,
    ensures
        ({
            let seed = commands::requested_module(m, max_batt_w, count, wear);
            let health = plain::within(m.soh@, 0, 1_000_000);
            &&& m.capacity_kwh@ >= 1_000_000 ==> seed.nominal_capacity_kwh == m.capacity_kwh
            &&& m.capacity_kwh@ < 1_000_000 ==> seed.nominal_capacity_kwh@ == 1_000_000
            &&& -500_000 <= seed.capacity_kwh@ * 1_000_000 - seed.nominal_capacity_kwh@ * health
                <= 500_000
            &&& seed.voltage_v is None
            &&& seed.age_years is Some <==> m.soh@ < 1_000_000
            &&& seed.max_charge_kw == commands::module_limit(seed.capacity_kwh, max_batt_w, count)
            &&& seed.max_discharge_kw == seed.max_charge_kw
        }),
{
    lemma_of(1_000_000);
    let health = plain::within(m.soh@, 0, 1_000_000);
    lemma_of(health);
    let nominal = if m.capacity_kwh@ < 1_000_000 {
        Fixed::of(1_000_000)
    } else {
        m.capacity_kwh
    };
    assert(0 <= nominal@ * health <= 100_000_000_000_000_000 * 1_000_000) by (nonlinear_arith)
        requires
            0 <= nominal@ <= 1_000_000_000_000_000,
            0 <= health <= 1_000_000,
    ;
    lemma_rounded(nominal@ * health, 1_000_000);
}

/// Law: a module behind a gateway holds 3.4 kWh at 51.2 V, as new, and draws no more
/// than its third of the total.
pub proof fn law_gateway_module(max_batt_w: Fixed)
    ensures
        ({
            let seed = commands::gateway_module(max_batt_w);
            &&& seed.capacity_kwh@ == 3_400_000
            &&& seed.nominal_capacity_kwh@ == 3_400_000
            &&& seed.voltage_v matches Some(v) && v@ == 51_200_000
            &&& seed.age_years is None
            &&& seed.max_charge_kw == commands::module_limit(seed.capacity_kwh, max_batt_w, 3)
            &&& seed.max_discharge_kw == seed.max_charge_kw
        }),
{
    lemma_of(3_400_000);
    lemma_of(51_200_000);
}

/// Law: a new plant takes what the request says, and the defaults for the rest: a hybrid
/// of the third generation, a family, five kilowatts of sun on one string, London's
/// latitude, a tick a second, a meter.
pub proof fn law_new_plant(p: CreatePlantParams, max_batt_w: Fixed, wear: WearModel, r: PlantPlan)
    requires
        call_ensures(commands::create_plant, (&p, max_batt_w, &wear), r),
    ensures
        p.inverter_type matches Some(t) ==> r.inverter_type@ == t@,
        p.inverter_type is None ==> r.inverter_type@ == "Gen3Hybrid"@,
        p.peak_watts matches Some(w) ==> r.solar_peak_watts == w,
        p.peak_watts is None ==> r.solar_peak_watts@ == 5_000_000_000,
        p.pv2_peak_watts matches Some(w) ==> r.pv2_peak_watts == w,
        p.pv2_peak_watts is None ==> r.pv2_peak_watts@ == 0,
        p.latitude matches Some(d) ==> r.latitude == d,
        p.latitude is None ==> r.latitude@ == 51_500_000,
        p.tick_interval matches Some(n) ==> r.tick_interval_secs == n,
        p.tick_interval is None ==> r.tick_interval_secs == 1,
        p.ct_meter_installed matches Some(b) ==> r.ct_meter_installed == b,
        p.ct_meter_installed is None ==> r.ct_meter_installed,
        plain::gateway(r.inverter_type@) ==> r.parallel_aio_num == Some(1u16),
        !plain::gateway(r.inverter_type@) ==> r.parallel_aio_num is None,
        p.load_profile is None ==> r.load_profile == LoadProfile::Family,
        p.load_profile matches Some(n) ==> r.load_profile == (if n@ == "minimal"@ {
            LoadProfile::Minimal
        } else if n@ == "ev"@ {
            LoadProfile::EV
        } else if n@ == "heatpump"@ {
            LoadProfile::HeatPump
        } else {
            LoadProfile::Family
        }),
{
    lemma_of(5_000_000_000);
    lemma_of(0);
    lemma_of(51_500_000);
    words::lemma_types(r.inverter_type@);
    reveal_strlit("family");
    reveal_strlit("minimal");
    reveal_strlit("ev");
    reveal_strlit("heatpump");
    assert("family"@.len() == 6);
    assert("minimal"@.len() == 7);
    assert("ev"@.len() == 2);
    assert("heatpump"@.len() == 8);
}

/// Law: the batteries of a new plant. A gateway has three of its own. Otherwise the
/// first six modules that the request lists, or so many of the default kind as it counts,
/// from one to six.
pub proof fn law_new_batteries(
    p: CreatePlantParams,
    max_batt_w: Fixed,
    wear: WearModel,
    r: PlantPlan,
    i: int,
)
    requires
        call_ensures(commands::create_plant, (&p, max_batt_w, &wear), r),
    ensures
        plain::gateway(r.inverter_type@) ==> (r.batteries matches BatteryPlan::Modules(v)
            && v@.len() == 3 && (0 <= i < 3 ==> v@[i] == commands::gateway_module(max_batt_w))),
        !plain::gateway(r.inverter_type@) && p.battery_modules is Some ==> ({
            let asked = p.battery_modules->0@;
            let n = plain::within(asked.len() as int, 1, 6);
            &&& r.batteries matches BatteryPlan::Modules(v) && v@.len() == (if asked.len() < 6 {
                asked.len()
            } else {
                6
            }) && (0 <= i < v@.len() ==> v@[i] == commands::requested_module(
                asked[i],
                max_batt_w,
                n,
                wear,
            ))
        }),
        !plain::gateway(r.inverter_type@) && p.battery_modules is None ==> (r.batteries
            matches BatteryPlan::Count(n) && n == (match p.battery_count {
            Some(c) => plain::within(c as int, 1, 6),
            None => 1,
        })),
{
    words::lemma_types(r.inverter_type@);
}

/// Law: the devices of a tick in their order. The charger comes after the load and
/// before the inverter.
pub proof fn law_device_order(scheduled: bool, r: Vec<Device>)
    requires
        call_ensures(commands::device_order, (scheduled,), r),
    ensures
        ({
            let k: int = if scheduled {
                1
            } else {
                0
            };
            &&& r@.len() == 7 + k
            &&& scheduled ==> r@[0] == Device::Schedule
            &&& r@[k] == Device::Solar
            &&& r@[k + 1] == Device::Load
            &&& r@[k + 2] == Device::Evc
            &&& r@[k + 3] == Device::Inverter
            &&& r@[k + 4] == Device::Faults
            &&& r@[k + 5] == Device::Battery
            &&& r@[k + 6] == Device::EnergyTracker
        }),
{
}

/// Law: the pause between two ticks, in milliseconds, is as long as the speed allows
/// and no longer.
pub proof fn law_tick_delay(speed: Fixed)
    ensures
        speed@ < 0 ==> commands::tick_delay(speed) == 0,
        speed@ == 0 ==> commands::tick_delay(speed) == 0xffff_ffff_ffff_ffff,
        speed@ > 0 ==> commands::tick_delay(speed) * speed@ <= 1_000_000_000 < (
        commands::tick_delay(speed) + 1) * speed@,
{
    if speed@ > 0 {
        let q = 1_000_000_000int / speed@;
        vstd::arithmetic::div_mod::lemma_fundamental_div_mod(1_000_000_000, speed@);
        vstd::arithmetic::div_mod::lemma_mod_bound(1_000_000_000, speed@);
        assert(q * speed@ <= 1_000_000_000 < (q + 1) * speed@) by (nonlinear_arith)
            requires
                1_000_000_000 == speed@ * q + 1_000_000_000int % speed@,
                0 <= 1_000_000_000int % speed@ < speed@,
        ;
    }
}

/// Law: requests for commands ask for what they say.
pub proof fn law_command_requests(
    calibration: StartCalibrationParams,
    interval: SetTickIntervalParams,
    a: Command,
    b: Command,
    c: Command,
)
    requires
        call_ensures(commands::start_calibration, (&calibration,), a),
        call_ensures(commands::cancel_calibration, (), b),
        call_ensures(commands::set_tick_interval, (&interval,), c),
    ensures
        a == (Command::StartCalibration { module: calibration.module }),
        b == Command::CancelCalibration,
        interval.interval_secs > 0 ==> c == Command::SetTickInterval(interval.interval_secs),
        interval.interval_secs == 0 ==> c == Command::SetTickInterval(1),
{
}

/// Law: a request for a mode by name leads to the mode of that name or is refused.
pub proof fn law_mode_request(p: SetModeParams, r: Result<Command, String>)
    requires
        call_ensures(commands::set_mode, (&p,), r),
    ensures
        p.mode@ == "Normal"@ ==> r == Ok::<Command, String>(
            Command::SetInverterMode(InverterMode::Normal),
        ),
        p.mode@ == "Eco"@ ==> r == Ok::<Command, String>(
            Command::SetInverterMode(InverterMode::Eco),
        ),
        p.mode@ == "ForceCharge"@ ==> r == Ok::<Command, String>(
            Command::SetInverterMode(InverterMode::ForceCharge),
        ),
        p.mode@ == "ForceDischarge"@ ==> r == Ok::<Command, String>(
            Command::SetInverterMode(InverterMode::ForceDischarge),
        ),
        p.mode@ == "ExportLimit"@ ==> r == Ok::<Command, String>(
            Command::SetInverterMode(InverterMode::ExportLimit),
        ),
        r matches Err(m) ==> m@ == "Unknown mode: "@ + p.mode@,
        r is Ok ==> p.mode@ == "Normal"@ || p.mode@ == "Eco"@ || p.mode@ == "ForceCharge"@
            || p.mode@ == "ForceDischarge"@ || p.mode@ == "ExportLimit"@,
{
    reveal_strlit("Normal");
    reveal_strlit("Eco");
    reveal_strlit("ForceCharge");
    reveal_strlit("ForceDischarge");
    reveal_strlit("ExportLimit");
    assert("Normal"@.len() == 6);
    assert("Eco"@.len() == 3);
    assert("ForceCharge"@.len() == 11 && "ForceCharge"@[0] == 'F');
    assert("ForceDischarge"@.len() == 14);
    assert("ExportLimit"@.len() == 11 && "ExportLimit"@[0] == 'E');
}

/// Law: a request for a weather by name leads to the weather of that name or is refused.
pub proof fn law_weather_request(p: SetWeatherParams, r: Result<Command, String>)
    requires
        call_ensures(commands::set_weather, (&p,), r),
    ensures
        p.weather@ == "Clear"@ ==> r == Ok::<Command, String>(
            Command::SetWeather(WeatherCondition::Clear),
        ),
        p.weather@ == "PartlyCloudy"@ ==> r == Ok::<Command, String>(
            Command::SetWeather(WeatherCondition::PartlyCloudy),
        ),
        p.weather@ == "Overcast"@ ==> r == Ok::<Command, String>(
            Command::SetWeather(WeatherCondition::Overcast),
        ),
        p.weather@ == "Rain"@ ==> r == Ok::<Command, String>(
            Command::SetWeather(WeatherCondition::Rain),
        ),
        p.weather@ == "Storm"@ ==> r == Ok::<Command, String>(
            Command::SetWeather(WeatherCondition::Storm),
        ),
        r matches Err(m) ==> m@ == "Unknown weather: "@ + p.weather@,
        r is Ok ==> p.weather@ == "Clear"@ || p.weather@ == "PartlyCloudy"@ || p.weather@
            == "Overcast"@ || p.weather@ == "Rain"@ || p.weather@ == "Storm"@,
{
    reveal_strlit("Clear");
    reveal_strlit("PartlyCloudy");
    reveal_strlit("Overcast");
    reveal_strlit("Rain");
    reveal_strlit("Storm");
    assert("Clear"@.len() == 5 && "Clear"@[0] == 'C');
    assert("PartlyCloudy"@.len() == 12);
    assert("Overcast"@.len() == 8);
    assert("Rain"@.len() == 4);
    assert("Storm"@.len() == 5 && "Storm"@[0] == 'S');
}

/// Law: the formats of a recording by their names.
pub proof fn law_export_formats(p: ExportRecordingParams, r: Result<ExportFormat, String>)
    requires
        call_ensures(commands::export_format, (&p,), r),
    ensures
        r == Ok::<ExportFormat, String>(ExportFormat::Csv) <==> p.format@ == "csv"@,
        r == Ok::<ExportFormat, String>(ExportFormat::Jsonl) <==> p.format@ == "jsonl"@,
        r == Ok::<ExportFormat, String>(ExportFormat::Json) <==> p.format@ == "json"@,
        r matches Err(m) ==> m@ == "Unknown format: "@ + p.format@,
{
    reveal_strlit("csv");
    reveal_strlit("jsonl");
    reveal_strlit("json");
    assert("csv"@.len() == 3);
    assert("jsonl"@.len() == 5);
    assert("json"@.len() == 4);
}

/// Law: the names of misbehaviours.
pub proof fn law_dongle_names(mode: &str, r: Result<DongleMisbehaviourMode, String>)
    requires
        call_ensures(commands::set_dongle_misbehaviour, (mode,), r),
    ensures
        mode@ == "Off"@ ==> r == Ok::<_, String>(DongleMisbehaviourMode::Off),
        mode@ == "EmptyData"@ ==> r == Ok::<_, String>(DongleMisbehaviourMode::EmptyData),
        mode@ == "StaleData"@ ==> r == Ok::<_, String>(DongleMisbehaviourMode::StaleData),
        mode@ == "GarbageData"@ ==> r == Ok::<_, String>(DongleMisbehaviourMode::GarbageData),
        mode@ == "DropConnection"@ ==> r == Ok::<_, String>(DongleMisbehaviourMode::DropConnection),
        mode@ == "Intermittent"@ ==> r == Ok::<_, String>(DongleMisbehaviourMode::Intermittent),
        r matches Err(m) ==> m@ == "Unknown dongle misbehaviour mode: "@ + mode@,
        r matches Ok(m) ==> mode@ == commands::dongle_name(m),
        commands::dongle_name(DongleMisbehaviourMode::Off) == "Off"@,
        commands::dongle_name(DongleMisbehaviourMode::EmptyData) == "EmptyData"@,
        commands::dongle_name(DongleMisbehaviourMode::StaleData) == "StaleData"@,
        commands::dongle_name(DongleMisbehaviourMode::GarbageData) == "GarbageData"@,
        commands::dongle_name(DongleMisbehaviourMode::DropConnection) == "DropConnection"@,
        commands::dongle_name(DongleMisbehaviourMode::Intermittent) == "Intermittent"@,
{
    commands::law_dongle_names_lead_back(DongleMisbehaviourMode::Off);
    commands::law_dongle_names_lead_back(DongleMisbehaviourMode::EmptyData);
    commands::law_dongle_names_lead_back(DongleMisbehaviourMode::StaleData);
    commands::law_dongle_names_lead_back(DongleMisbehaviourMode::GarbageData);
    commands::law_dongle_names_lead_back(DongleMisbehaviourMode::DropConnection);
    commands::law_dongle_names_lead_back(DongleMisbehaviourMode::Intermittent);
}

/// Law: the names of load profiles.
pub proof fn law_profile_names(name: Seq<char>)
    ensures
        commands::profile_name(LoadProfile::Minimal) == "minimal"@,
        commands::profile_name(LoadProfile::Family) == "family"@,
        commands::profile_name(LoadProfile::EV) == "ev"@,
        commands::profile_name(LoadProfile::HeatPump) == "heatpump"@,
        commands::named_profile(name) == LoadProfile::Minimal <==> name == "minimal"@,
        commands::named_profile(name) == LoadProfile::EV <==> name == "ev"@,
        commands::named_profile(name) == LoadProfile::HeatPump <==> name == "heatpump"@,
{
    reveal_strlit("minimal");
    reveal_strlit("ev");
    reveal_strlit("heatpump");
    assert("minimal"@.len() == 7);
    assert("ev"@.len() == 2);
    assert("heatpump"@.len() == 8);
}

/// Law: a power is pinned or released, and nothing else changes.
pub proof fn law_solar_override(s: &mut PlantState, p: SetOverrideParams)
    requires
        call_ensures(commands::set_solar_override, (s, &p), ()),
    ensures
        final(s).solar_override == p.watts,
        *final(s) == (PlantState { solar_override: final(s).solar_override, ..*old(s) }),
{
}

/// Law: a load is pinned or released, and nothing else changes.
pub proof fn law_load_override(s: &mut PlantState, p: SetOverrideParams)
    requires
        call_ensures(commands::set_load_override, (s, &p), ()),
    ensures
        final(s).load_override == p.watts,
        *final(s) == (PlantState { load_override: final(s).load_override, ..*old(s) }),
{
}

/// Law: the meter is there or not, and nothing else changes.
pub proof fn law_ct_meter(s: &mut PlantState, p: SetCtMeterParams)
    requires
        call_ensures(commands::set_ct_meter, (s, &p), ()),
    ensures
        final(s).config.ct_meter_installed == p.enabled,
        final(s).config.inverter_type == old(s).config.inverter_type,
        final(s).batteries == old(s).batteries,
        final(s).inverter == old(s).inverter,
        final(s).energy_totals == old(s).energy_totals,
{
}

/// Law: a state of charge set by hand is that of the module, held to a percentage. The
/// module rests, its health and its capacity stay, and so do the other modules.
pub proof fn law_charge_by_hand(
    s: &mut PlantState,
    p: SetBatterySocParams,
    r: Result<(), String>,
    i: int,
)
    requires
        call_ensures(commands::set_battery_soc, (s, &p), r),
        0 <= i < old(s).batteries@.len(),
    ensures
        r is Ok <==> p.module < old(s).batteries@.len(),
        r is Err ==> *final(s) == *old(s),
        r matches Err(m) ==> m@ == "Battery module "@ + text::decimal((p.module + 1) as nat)
            + " does not exist"@,
        r is Ok ==> {
            let b = final(s).batteries@[p.module as int];
            let a = old(s).batteries@[p.module as int];
            &&& final(s).manual_soc_hold_ticks == 200
            &&& 0 <= p.soc@ <= 100_000_000 ==> b.soc_percent@ == p.soc@
            &&& p.soc@ < 0 ==> b.soc_percent@ == 0
            &&& p.soc@ > 100_000_000 ==> b.soc_percent@ == 100_000_000
            &&& b.power_kw@ == 0
            &&& b.current_a@ == 0
            &&& b.soh == a.soh
            &&& b.capacity_kwh == a.capacity_kwh
            &&& b.nominal_capacity_kwh == a.nominal_capacity_kwh
            &&& b.voltage_v == a.voltage_v
            &&& b.temperature_celsius == a.temperature_celsius
            &&& b.throughput_kwh == a.throughput_kwh
            &&& b.cycle_count == a.cycle_count
            &&& final(s).batteries@.len() == old(s).batteries@.len()
            &&& i != p.module ==> final(s).batteries@[i] == old(s).batteries@[i]
            &&& final(s).battery == old(s).battery
            &&& final(s).energy_totals == old(s).energy_totals
        },
{
    lemma_of(plain::within(p.soc@, 0, 100_000_000));
    lemma_of(0);
}

/// Law: a health set by hand is that of the module, held to what a module can have. The
/// capacity, the throughput and the limits follow; the charge and the nominal capacity
/// stay, and so do the other modules.
pub proof fn law_health_by_hand(s: &mut PlantState, p: SetBatterySohParams, i: int)
    requires
        call_ensures(commands::set_battery_soh, (s, &p), ()),
        0 <= i < old(s).batteries@.len(),
        p.module < old(s).batteries@.len(),
        0 <= old(s).batteries@[p.module as int].nominal_capacity_kwh@ <= 200_000_000_000_000,
    ensures
        ({
            let b = final(s).batteries@[p.module as int];
            let a = old(s).batteries@[p.module as int];
            let health = plain::within(p.soh@, 0, 1_000_000);
            &&& b.soh@ == health
            &&& -500_000 <= b.capacity_kwh@ * 1_000_000 - a.nominal_capacity_kwh@ * health
                <= 500_000
            &&& -100 <= b.throughput_kwh@ * 200 - (1_000_000 - health) * a.nominal_capacity_kwh@
                <= 100
            &&& b.max_charge_kw == commands::module_limit(
                b.capacity_kwh,
                old(s).config.max_ac_watts,
                old(s).batteries@.len() as int,
            )
            &&& b.max_discharge_kw == b.max_charge_kw
            &&& b.nominal_capacity_kwh == a.nominal_capacity_kwh
            &&& b.soc_percent == a.soc_percent
            &&& b.cycle_count == a.cycle_count
            &&& b.voltage_v == a.voltage_v
            &&& final(s).batteries@.len() == old(s).batteries@.len()
            &&& i != p.module ==> final(s).batteries@[i] == old(s).batteries@[i]
            &&& final(s).config == old(s).config
            &&& final(s).battery == old(s).battery
        }),
{
    let a = old(s).batteries@[p.module as int];
    let health = plain::within(p.soh@, 0, 1_000_000);
    lemma_of(health);
    assert(0 <= a.nominal_capacity_kwh@ * health <= 100_000_000_000_000_000 * 1_000_000)
        by (nonlinear_arith)
        requires
            0 <= a.nominal_capacity_kwh@ <= 200_000_000_000_000,
            0 <= health <= 1_000_000,
    ;
    lemma_rounded(a.nominal_capacity_kwh@ * health, 1_000_000);
    let x = (1_000_000 - health) * a.nominal_capacity_kwh@;
    assert(0 <= x <= 1_000_000 * 200_000_000_000_000) by (nonlinear_arith)
        requires
            0 <= health <= 1_000_000,
            0 <= a.nominal_capacity_kwh@ <= 200_000_000_000_000,
            x == (1_000_000 - health) * a.nominal_capacity_kwh@,
    ;
    lemma_of((2 * x + 200) / 400);
    assert(fixed::nearest(x, 200) == (2 * x + 200) / 400);
}

/// Law: firmware versions and temperature set by hand.
pub proof fn law_inverter_by_hand(
    a: &mut PlantState,
    b: &mut PlantState,
    c: &mut PlantState,
    version: u16,
    celsius: Option<Fixed>,
)
    requires
        call_ensures(commands::set_dsp_firmware, (a, version), ()),
        call_ensures(commands::set_arm_firmware, (b, version), ()),
        call_ensures(commands::set_inverter_temperature, (c, celsius), ()),
    ensures
        final(a).inverter.dsp_firmware_version == version,
        final(a).inverter.arm_firmware_version == old(a).inverter.arm_firmware_version,
        final(b).inverter.arm_firmware_version == version,
        final(b).inverter.dsp_firmware_version == old(b).inverter.dsp_firmware_version,
        final(c).inverter.temperature_override == celsius,
        celsius matches Some(v) ==> final(c).inverter.temperature_celsius@ == plain::within(
            v@,
            -10_000_000,
            80_000_000,
        ),
        celsius is None ==> final(c).inverter.temperature_celsius
            == old(c).inverter.temperature_celsius,
        final(a).inverter.effective_mode == old(a).inverter.effective_mode,
        final(b).inverter.effective_mode == old(b).inverter.effective_mode,
        final(c).inverter.effective_mode == old(c).inverter.effective_mode,
{
    if let Some(v) = celsius {
        lemma_of(plain::within(v@, -10_000_000, 80_000_000));
    }
}

/// Law: what the settings of the vehicle charger are held to.
pub proof fn law_charger_settings(
    a: &mut EvcState,
    b: &mut EvcState,
    c: &mut EvcState,
    d: &mut EvcState,
    enabled: bool,
    mode: u16,
    deci_amps: u16,
    kwh: Fixed,
)
    requires
        call_ensures(commands::set_evc_enabled, (a, enabled), ()),
        call_ensures(commands::set_evc_charge_control, (b, mode), ()),
        call_ensures(commands::set_evc_charge_current, (c, deci_amps), ()),
        call_ensures(commands::set_evc_session_energy, (d, kwh), ()),
    ensures
        final(a).enabled == enabled,
        final(b).charge_control == (if mode <= 2 {
            mode
        } else {
            2
        }),
        final(c).charge_current_limit == plain::within(deci_amps as int, 60, 320),
        final(d).session_energy_kwh@ == plain::within(kwh@, 0, 6_553_500_000),
        final(a).charge_control == old(a).charge_control,
        final(b).enabled == old(b).enabled,
        final(c).charge_control == old(c).charge_control,
        final(d).charge_current_limit == old(d).charge_current_limit,
{
    lemma_of(plain::within(kwh@, 0, 6_553_500_000));
}

/// Law: pulling the cable ends the session and all flow, and keeps the settings;
/// plugging it in only connects it.
pub proof fn law_charger_cable(evc: &mut EvcState, status: u16, r: u16)
    requires
        call_ensures(commands::set_evc_cable_status, (evc, status), r),
    ensures
        status == 0 ==> {
            &&& r == 0
            &&& final(evc).connection_status == 0
            &&& final(evc).charging_state == 1
            &&& final(evc).active_power_w@ == 0
            &&& final(evc).active_power_l1@ == 0
            &&& final(evc).active_power_l2@ == 0
            &&& final(evc).active_power_l3@ == 0
            &&& final(evc).current_l1@ == 0
            &&& final(evc).current_l2@ == 0
            &&& final(evc).current_l3@ == 0
            &&& final(evc).session_energy_kwh@ == 0
            &&& final(evc).session_duration_secs == 0
        },
        status != 0 ==> {
            &&& r == 1
            &&& final(evc).connection_status == 1
            &&& final(evc).charging_state == old(evc).charging_state
            &&& final(evc).session_energy_kwh == old(evc).session_energy_kwh
            &&& final(evc).session_duration_secs == old(evc).session_duration_secs
            &&& final(evc).active_power_w == old(evc).active_power_w
        },
        final(evc).enabled == old(evc).enabled,
        final(evc).charge_control == old(evc).charge_control,
        final(evc).charge_current_limit == old(evc).charge_current_limit,
        final(evc).plug_and_go == old(evc).plug_and_go,
{
    lemma_of(0);
}

/// Law: a tick takes the clients' settings over and keeps the measurements.
pub proof fn law_charger_sync(live: &mut EvcState, shared: EvcState)
    requires
        call_ensures(commands::sync_evc, (live, &shared), ()),
    ensures
        final(live).charge_control == shared.charge_control,
        final(live).charge_current_limit == shared.charge_current_limit,
        final(live).plug_and_go == shared.plug_and_go,
        final(live).enabled == shared.enabled,
        final(live).connection_status == shared.connection_status,
        final(live).charging_state == old(live).charging_state,
        final(live).active_power_w == old(live).active_power_w,
        final(live).session_energy_kwh == old(live).session_energy_kwh,
        final(live).session_duration_secs == old(live).session_duration_secs,
{
}

/// Law: the charger's server takes every port but zero.
pub proof fn law_charger_port(port: u16, r: Result<u16, String>)
    requires
        call_ensures(commands::set_evc_port, (port,), r),
    ensures
        r is Ok <==> port > 0,
        r matches Ok(p) ==> p == port,
        r matches Err(m) ==> m@ == "Port must be >= 1"@,
{
}

/// The family of an inverter by its name.
pub open spec fn family(t: Seq<char>) -> GridPortPowerFamily {
    if plain::three_phase(t) {
        GridPortPowerFamily::ThreePhase
    } else if t == "Gateway12kW"@ || t == "EMS"@ || t == "EmsCommercial"@ {
        GridPortPowerFamily::Ems
    } else {
        GridPortPowerFamily::SinglePhase
    }
}

/// Law: the power limit of the grid port: a single-phase inverter shows its output, the
/// others their export limit.
pub proof fn law_grid_port_reading(s: PlantState, r: Result<Fixed, String>)
    requires
        call_ensures(commands::get_grid_port_max_power, (Some(&s),), r),
    ensures
        r is Ok,
        family(s.config.inverter_type@) == GridPortPowerFamily::SinglePhase ==> r->Ok_0
            == s.config.max_ac_watts,
        family(s.config.inverter_type@) != GridPortPowerFamily::SinglePhase ==> r->Ok_0
            == s.inverter.export_limit_w,
{
    words::lemma_types(s.config.inverter_type@);
}

/// Law: a limit of the grid port is refused where it is negative, and by a single-phase
/// inverter. Others are held to what the family takes: 6500 W on three phases, 65535 W
/// for a plant manager.
pub proof fn law_grid_port_limit(
    s: PlantState,
    watts: Fixed,
    r: Result<(GridPortPowerFamily, Command), LimitRefusal>,
    without: Result<(GridPortPowerFamily, Command), LimitRefusal>,
)
    requires
        call_ensures(commands::set_grid_port_max_power, (Some(&s), watts), r),
        call_ensures(commands::set_grid_port_max_power, (None, watts), without),
    ensures
        ({
            let f = family(s.config.inverter_type@);
            &&& watts@ < 0 ==> r == Err::<(GridPortPowerFamily, Command), _>(
                LimitRefusal::Negative { watts },
            ) && without == r
            &&& watts@ >= 0 ==> without == Err::<(GridPortPowerFamily, Command), _>(
                LimitRefusal::NoPlant,
            )
            &&& watts@ >= 0 && f == GridPortPowerFamily::SinglePhase ==> r == Err::<
                (GridPortPowerFamily, Command),
                _,
            >(LimitRefusal::ReadOnly)
            &&& watts@ >= 0 && f == GridPortPowerFamily::ThreePhase ==> (r matches Ok((g, Command::SetExportLimit(w)))
                && g == f && w@ == plain::within(watts@, 0, 6_500_000_000))
            &&& watts@ >= 0 && f == GridPortPowerFamily::Ems ==> (r matches Ok((g, Command::SetExportLimit(w)))
                && g == f && w@ == plain::within(watts@, 0, 65_535_000_000))
        }),
{
    words::lemma_types(s.config.inverter_type@);
    lemma_of(plain::within(watts@, 0, 6_500_000_000));
    lemma_of(plain::within(watts@, 0, 65_535_000_000));
}

/// Law: the export limit of a site: any limit on one phase, the family's limits on
/// others, and never below zero.
pub proof fn law_export_limit(
    s: PlantState,
    watts: Fixed,
    r: Result<Command, LimitRefusal>,
    without: Result<Command, LimitRefusal>,
)
    requires
        -1_000_000_000_000_000_000 <= watts@ <= 1_000_000_000_000_000_000,
        call_ensures(commands::set_grid_export_limit, (Some(&s), watts), r),
        call_ensures(commands::set_grid_export_limit, (None, watts), without),
    ensures
        r matches Ok(Command::SetExportLimit(w)) && w@ == (match family(
            s.config.inverter_type@,
        ) {
            GridPortPowerFamily::SinglePhase => plain::gain(watts@),
            GridPortPowerFamily::ThreePhase => plain::within(watts@, 0, 6_500_000_000),
            GridPortPowerFamily::Ems => plain::within(watts@, 0, 65_535_000_000),
        }),
        watts@ < 0 ==> without == Err::<Command, _>(LimitRefusal::Negative { watts }),
        watts@ >= 0 ==> without == Err::<Command, _>(LimitRefusal::NoPlant),
{
    words::lemma_types(s.config.inverter_type@);
    lemma_of(plain::within(watts@, 0, 6_500_000_000));
    lemma_of(plain::within(watts@, 0, 65_535_000_000));
    lemma_of(plain::gain(watts@));
}

/// Law: a simulation starts where there is a plant, it does not run yet, and its scenario
/// could be read. A start that fails changes nothing.
pub proof fn law_start(
    has_plant: bool,
    running: &mut bool,
    p: StartSimulationParams,
    scenario: Result<u64, String>,
    r: Result<(RunPlan, u64), String>,
)
    requires
        call_ensures(commands::start_simulation::<u64>, (has_plant, running, &p, scenario), r),
    ensures
        r is Ok <==> has_plant && !*old(running) && scenario is Ok,
        r is Ok ==> *final(running),
        r is Err ==> *final(running) == *old(running),
        !has_plant ==> (r matches Err(m) && m@ == "No plant exists — create or load a plant first"@),
        has_plant && *old(running) ==> (r matches Err(m) && m@ == "Simulation already running"@),
        has_plant && !*old(running) && scenario is Err ==> r->Err_0 == scenario->Err_0,
        r matches Ok((plan, read)) ==> scenario == Ok::<u64, String>(read) && {
            &&& p.speed is None ==> plan.tick_delay_ms == 100 && !plan.real_time
            &&& p.speed matches Some(speed) ==> plan.tick_delay_ms == commands::tick_delay(speed)
                && (plan.real_time <==> speed@ <= 1_000_000)
        },
{
    lemma_of(10_000_000);
    if p.speed is None {
        law_tick_delay(Fixed::of(10_000_000));
        assert(1_000_000_000int / 10_000_000 == 100);
        assert(fixed::toward_zero(1_000_000_000, 10_000_000) == 1_000_000_000int / 10_000_000);
    }
}

/// Law: faults are injected and cleared by their names.
pub proof fn law_fault_requests(p: InjectFaultParams, q: ClearFaultParams, a: Command, b: Command)
    requires
        call_ensures(commands::inject_fault, (p,), a),
        call_ensures(commands::clear_fault, (q,), b),
    ensures
        a == Command::InjectFault(p.fault_id),
        b == Command::ClearFault(q.fault_id),
{
}

/// Law: a module is as new unless its health is given.
pub proof fn law_default_health(r: Fixed)
    requires
        call_ensures(commands::default_soh, (), r),
    ensures
        r@ == 1_000_000,
{
    lemma_of(1_000_000);
}

/// Law: why a limit is refused, in words.
pub proof fn law_refusals(refusal: LimitRefusal, r: String)
    requires
        call_ensures(LimitRefusal::text, (refusal,), r),
    ensures
        refusal matches LimitRefusal::Negative { watts } ==> r@
        == "Watts must be a non-negative finite number, got "@ + numerals::shortest_text(watts@),
        refusal is NoPlant ==> r@ == "No plant created"@,
        refusal is ReadOnly ==> r@ == "Inverter Max AC Output (HR 26, read-only)"@
        + " is read-only on the wire (givenergy-modbus defines no setter). Change the inverter's max AC output via the plant configuration instead."@,
{
}

/// Law: the limits of a family of grid ports.
pub proof fn law_family_limits(
    f: GridPortPowerFamily,
    watts: Fixed,
    top: Fixed,
    held: Fixed,
    asked: Fixed,
    t: &str,
    g: GridPortPowerFamily,
    label: &'static str,
)
    requires
        call_ensures(GridPortPowerFamily::max_w, (f,), top),
        call_ensures(GridPortPowerFamily::clamp_watts, (f, watts), held),
        call_ensures(GridPortPowerFamily::export_limit_for, (f, watts), asked),
        call_ensures(GridPortPowerFamily::from_inverter_type, (t,), g),
        call_ensures(GridPortPowerFamily::label, (f,), label),
    ensures
        top@ == (match f {
            GridPortPowerFamily::SinglePhase => 0int,
            GridPortPowerFamily::ThreePhase => 6_500_000_000,
            GridPortPowerFamily::Ems => 65_535_000_000,
        }),
        held@ == plain::within(watts@, 0, top@),
        f == GridPortPowerFamily::SinglePhase ==> asked@ == plain::gain(watts@),
        f != GridPortPowerFamily::SinglePhase ==> asked@ == held@,
        g == family(t@),
        label@ == (match f {
            GridPortPowerFamily::SinglePhase => "Inverter Max AC Output (HR 26, read-only)"@,
            GridPortPowerFamily::ThreePhase => "Grid Port Export Limit (HR 1063, ×0.1 dW)"@,
            GridPortPowerFamily::Ems => "Grid Port Export Limit (HR 2071, raw W)"@,
        }),
{
    words::lemma_types(t@);
}

/// Law: quantities from whole units and from millionths, held to what a quantity can be.
pub proof fn law_quantities(units: i32, micros: i64, a: Fixed, b: Fixed, c: i64)
    requires
        call_ensures(Fixed::from_units, (units,), a),
        call_ensures(Fixed::from_micros, (micros,), b),
        call_ensures(Fixed::micros, (&b,), c),
    ensures
        a@ == units * 1_000_000,
        b@ == plain::within(
            micros as int,
            -1_000_000_000_000_000_000,
            1_000_000_000_000_000_000,
        ),
        c == b@,
{
}

} // verus!
