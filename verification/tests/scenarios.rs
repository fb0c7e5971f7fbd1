//! Scenarios, their assertions, and the recordings of runs.
use givenergy_sim::atomic_write::{after_rename, creates_parent, tmp_path, AfterRename};
use givenergy_sim::calendar::{parse_clock_time, ClockTime};
use givenergy_sim::fixed::Fixed;
use givenergy_sim::modbus::Command;
use givenergy_sim::recording::{
    diff_recordings, gather_frames, read_frames, save_recording, write_csv, write_frame, write_json_report,
    write_junit_xml, xml_escape, RecordingFrame,
};
use givenergy_sim::scenario::{
    apply_event, check_assertions, draft_of, event_weather_of, load_scenario, parse_named_scenario,
    parse_scenario, AssertionResult, Expectation, Expected, Scenario, ScenarioDraft,
    ScenarioEvent, ScenarioResult, ScenarioRun, YamlEntry,
};
use givenergy_sim::state::{
    BatteryRecord, BatteryState, BatterySummary, DongleMisbehaviourMode, EnergyTotals, EvcState, GridState,
    InverterMode, InverterState, PlantConfig, PlantState, SolarState, Timestamp, WeatherCondition,
};
use std::collections::HashMap;

/// A quantity from a decimal number.
fn fx(v: f64) -> Fixed {
    Fixed::from_micros((v * 1_000_000.0).round() as i64)
}

/// A module as plants start with it: three years old.
fn module() -> BatteryState {
    BatteryState {
        soc_percent: fx(50.0),
        power_kw: fx(0.0),
        voltage_v: fx(51.2),
        current_a: fx(0.0),
        temperature_celsius: fx(25.0),
        capacity_kwh: fx(7.619),
        nominal_capacity_kwh: fx(9.5),
        soh: fx(0.802),
        cycle_count: fx(0.0),
        throughput_kwh: fx(9405.0),
        max_charge_kw: fx(3.6),
        max_discharge_kw: fx(3.6),
        charge_efficiency: fx(0.95),
        discharge_efficiency: fx(0.95),
    }
}

/// Derives the battery's summary from its modules.
fn sync(s: &mut PlantState) {
    let mut capacity: f64 = 0.0;
    let mut charge: f64 = 0.0;
    let mut power: f64 = 0.0;
    let mut heat: f64 = 0.0;
    let mut limit: f64 = 0.0;
    for b in &s.batteries {
        capacity += val(b.capacity_kwh);
        charge += val(b.soc_percent) * val(b.capacity_kwh);
        power += val(b.power_kw);
        heat += val(b.temperature_celsius);
        limit += val(b.max_charge_kw) * 1000.0;
    }
    s.battery = BatterySummary {
        soc_percent: fx(charge / capacity),
        power_kw: fx(power),
        temperature_celsius: fx(heat / s.batteries.len() as f64),
        capacity_kwh: fx(capacity),
        max_charge_w: fx(limit),
        max_discharge_w: fx(limit),
        min_soc_percent: fx(4.0),
        max_soc_percent: fx(100.0),
    };
    s.battery_record =
        BatteryRecord { soc_percent: s.battery.soc_percent, power_kw: s.battery.power_kw };
}

/// A quantity as a decimal number.
fn val(q: Fixed) -> f64 {
    q.micros() as f64 / 1_000_000.0
}

/// A new plant with so many modules, at noon of the first of June 2025.
fn plant_with(count: usize) -> PlantState {
    let zero = fx(0.0);
    let mut s = PlantState {
        timestamp: Timestamp { year: 2025, month: 6, day: 1, hour: 12, minute: 0, second: 0, nanosecond: 0 },
        config: PlantConfig {
            inverter_type: "Gen3Hybrid".to_string(),
            ct_meter_installed: false,
            solar_peak_watts: fx(5000.0),
            pv2_peak_watts: zero,
            max_ac_watts: fx(5000.0),
            latitude: fx(51.5),
            tick_interval_secs: 60,
            gateway_fw_version: 9,
            parallel_aio_num: 1,
        },
        inverter: InverterState {
            mode: InverterMode::Normal,
            effective_mode: InverterMode::Normal,
            ac_power_w: zero,
            export_limit_w: zero,
            temperature_celsius: fx(35.0),
            temperature_override: None,
            work_time_hours: fx(26_280.0),
            dsp_firmware_version: 449,
            arm_firmware_version: 0,
            battery_self_heating: false,
            manual_battery_heater: false,
        },
        batteries: vec![module(); count],
        battery: BatterySummary {
            soc_percent: zero,
            power_kw: zero,
            temperature_celsius: zero,
            capacity_kwh: zero,
            max_charge_w: zero,
            max_discharge_w: zero,
            min_soc_percent: zero,
            max_soc_percent: zero,
        },
        battery_record: BatteryRecord { soc_percent: zero, power_kw: zero },
        solar: SolarState { generation_w: zero, pv1_w: zero, pv2_w: zero },
        load_demand_w: zero,
        grid: GridState { power_w: zero, connected: true },
        energy_totals: EnergyTotals {
            grid_import_kwh: zero,
            grid_export_kwh: zero,
            battery_charge_kwh: zero,
            battery_discharge_kwh: zero,
            solar_generation_kwh: zero,
            solar_lifetime_kwh: zero,
            load_consumption_kwh: zero,
            ac_charge_kwh: zero,
            inverter_output_kwh: zero,
        },
        evc: EvcState {
            enabled: false,
            charge_control: 0,
            charge_current_limit: 320,
            plug_and_go: 0,
            connection_status: 0,
            charging_state: 0,
            active_power_w: zero,
            active_power_l1: zero,
            active_power_l2: zero,
            active_power_l3: zero,
            current_l1: zero,
            current_l2: zero,
            current_l3: zero,
            session_energy_kwh: zero,
            session_duration_secs: 0,
        },
        active_faults: Vec::new(),
        weather: "Clear".to_string(),
        solar_override: None,
        load_override: None,
        active_power_rate_percent: fx(100.0),
        battery_charge_limit_percent: fx(100.0),
        battery_discharge_limit_percent: fx(100.0),
        battery_discharge_min_power_reserve: fx(4.0),
        battery_pause_mode: 0,
        battery_pause_slot_start: 60,
        battery_pause_slot_end: 60,
        export_priority: 0,
        calibration_stage: 0,
        manual_soc_hold_ticks: 0,
        scheduled_charge: false,
        scheduled_discharge: false,
        enable_charge_target: false,
        enable_rtc: false,
        enable_eps: false,
        enable_inverter_parallel_mode: false,
        ems_enabled: false,
        dongle_misbehaviour: DongleMisbehaviourMode::Off,
    };
    sync(&mut s);
    s
}

/// A new plant with one module.
fn plant() -> PlantState {
    plant_with(1)
}

/// An event that does nothing.
fn quiet() -> ScenarioEvent {
    ScenarioEvent {
        solar: None,
        load: None,
        fault: None,
        clear_fault: None,
        mode: None,
        export_limit: None,
        weather: None,
        expect: None,
        days: None,
    }
}

/// The expectation that a YAML value stands for.
fn expected(v: &serde_yaml::Value) -> Expected {
    if let Some(b) = v.as_bool() {
        Expected::Bool(b)
    } else if let Some(n) = v.as_f64() {
        Expected::Number(fx(n))
    } else if let Some(s) = v.as_str() {
        Expected::Text(s.to_string())
    } else {
        Expected::Other
    }
}

/// The event that the YAML of a draft stands for.
fn decode(body: &str) -> Option<ScenarioEvent> {
    let value: serde_yaml::Value = serde_yaml::from_str(body).ok()?;
    let map = value.as_mapping()?;
    let mut e = quiet();
    for (k, v) in map {
        match k.as_str()? {
            "solar" => e.solar = Some(fx(v.as_f64()?)),
            "load" => e.load = Some(fx(v.as_f64()?)),
            "fault" => e.fault = Some(v.as_str()?.to_string()),
            "clear_fault" => e.clear_fault = Some(v.as_str()?.to_string()),
            "mode" => e.mode = Some(v.as_str()?.to_string()),
            "export_limit" => e.export_limit = Some(fx(v.as_f64()?)),
            "weather" => e.weather = Some(v.as_str()?.to_string()),
            "expect" => {
                let mut list = Vec::new();
                for (key, value) in v.as_mapping()? {
                    list.push(Expectation {
                        key: key.as_str()?.to_string(),
                        value: expected(value),
                    });
                }
                e.expect = Some(list);
            }
            _ => {}
        }
    }
    Some(e)
}

/// The scenario of a draft.
fn completed(draft: ScenarioDraft) -> Scenario {
    let decoded = draft.events.iter().map(|(_, body)| decode(body)).collect();
    draft.complete(decoded)
}

fn expect(key: &str, value: Expected) -> Vec<Expectation> {
    vec![Expectation { key: key.to_string(), value }]
}

fn number(v: i32) -> Expected {
    Expected::Number(Fixed::from_units(v))
}

fn at(hour: u32, minute: u32) -> ClockTime {
    ClockTime { hour, minute }
}

#[test]
fn parse_basic_scenario() {
    let yaml = r#"
08:00:
  solar: 3500
09:00:
  fault: grid_loss
10:00:
  expect:
    soc_gt: 50
"#;
    let scenario = completed(parse_scenario(yaml).unwrap());
    assert_eq!(scenario.events.len(), 3);
    assert_eq!(scenario.events[0].1.solar, Some(fx(3500.0)));
    assert_eq!(scenario.events[1].1.fault.as_deref(), Some("grid_loss"));
}

#[test]
fn parse_named_scenario_works() {
    let yaml = r#"
name: grid outage test
08:00:
  solar: 3500
09:00:
  fault: grid_loss
10:00:
  clear_fault: grid_loss
  expect:
    grid_connected: 1
"#;
    let scenario = completed(parse_named_scenario(yaml).unwrap());
    assert_eq!(scenario.name, "grid outage test");
    assert_eq!(scenario.events.len(), 3);
}

#[test]
fn both_readings_hold_the_same_events() {
    let yaml = "name: twice\ndays: 2\n10:00:\n  load: 1\n08:00:\n  solar: 5\nnote: 3\n09:30: no event\n";
    let named = parse_named_scenario(yaml).unwrap();
    let plain = parse_scenario(yaml).unwrap();
    assert_eq!((named.name.as_str(), plain.name.as_str()), ("twice", "unnamed"));
    assert_eq!((named.days, plain.days), (2, 2));
    assert_eq!(named.events, plain.events);
    let (named, plain) = (completed(named), completed(plain));
    assert_eq!(named.events.len(), 2);
    assert_eq!(plain.events.len(), 2);
    assert_eq!(named.events[0].0, at(8, 0));
    assert_eq!(plain.events[1].1.load, Some(fx(1.0)));
    assert_eq!(parse_scenario("- 1").unwrap_err(), parse_named_scenario("- 1").unwrap_err());
}

#[test]
fn parse_mode_command() {
    let yaml = r#"
08:00:
  mode: ForceCharge
"#;
    let scenario = completed(parse_scenario(yaml).unwrap());
    assert_eq!(scenario.events[0].1.mode.as_deref(), Some("ForceCharge"));
}

#[test]
fn assertion_soc_gt_passes() {
    let mut state = plant();
    state.batteries[0].soc_percent = fx(75.0);
    sync(&mut state);
    assert!(check_assertions(&expect("soc_gt", number(50)), &state).is_ok());
}

#[test]
fn assertion_soc_gt_fails() {
    let state = plant();
    assert!(check_assertions(&expect("soc_gt", number(80)), &state).is_err());
}

#[test]
fn assertion_battery_charging() {
    let mut state = plant();
    state.batteries[0].power_kw = fx(2.5);
    sync(&mut state);
    assert!(check_assertions(&expect("battery_charging", Expected::Bool(true)), &state).is_ok());
}

#[test]
fn assertion_no_faults() {
    let state = plant();
    assert!(check_assertions(&expect("no_faults", Expected::Bool(true)), &state).is_ok());
}

#[test]
fn assertion_fault_active() {
    let mut state = plant();
    state.active_faults.push("grid_loss".into());
    let e = expect("fault_active", Expected::Text("grid_loss".into()));
    assert!(check_assertions(&e, &state).is_ok());
}

#[test]
fn assertion_grid_export() {
    let mut state = plant();
    state.grid.power_w = fx(-2000.0);
    assert!(check_assertions(&expect("grid_export_gt", number(1000)), &state).is_ok());
}

#[test]
fn parse_multi_day_scenario() {
    let yaml = r#"
name: two day test
days: 2
08:00:
  solar: 3000
20:00:
  expect:
    soc_lt: 50
"#;
    let scenario = completed(parse_named_scenario(yaml).unwrap());
    assert_eq!(scenario.name, "two day test");
    assert_eq!(scenario.days, 2);
    assert_eq!(scenario.events.len(), 2);
}

#[test]
fn energy_totals_assertions() {
    let mut state = plant();
    state.energy_totals.solar_generation_kwh = fx(30.0);
    state.energy_totals.grid_export_kwh = fx(15.0);
    let mut e = expect("solar_kwh_gt", number(25));
    e.extend(expect("grid_export_kwh_gt", number(10)));
    assert!(check_assertions(&e, &state).is_ok());
}

#[test]
fn a_scenario_without_a_name_is_unnamed_and_runs_a_day() {
    let d = parse_named_scenario("08:00:\n  load: 1\n").unwrap();
    assert_eq!(d.name, "unnamed");
    assert_eq!(d.days, 1);
    let d = parse_scenario("name: given\n08:00:\n  load: 1\n").unwrap();
    assert_eq!(d.name, "unnamed");
    let d = parse_named_scenario("name: 7\ndays: many\n").unwrap();
    assert_eq!(d.name, "unnamed");
    assert_eq!(d.days, 1);
    assert_eq!(d.events.len(), 0);
}

#[test]
fn a_draft_follows_from_its_pairs() {
    let pair = |key: &str, number: Option<u64>, text: Option<&str>, body: &str| YamlEntry {
        key: key.to_string(),
        number,
        text: text.map(|t| t.to_string()),
        body: body.to_string(),
    };
    let pairs = vec![
        pair("21:00", None, None, "late"),
        pair("days", Some(3), None, "3"),
        pair("name", None, Some("pairs"), "pairs"),
        pair("06:30", Some(4), None, "early"),
        pair("whenever", None, Some("x"), "x"),
    ];
    let d = draft_of(&pairs, true);
    assert_eq!(d.name, "pairs");
    assert_eq!(d.days, 3);
    assert_eq!(
        d.events,
        vec![(at(6, 30), "early".to_string()), (at(21, 0), "late".to_string())]
    );
    assert_eq!(draft_of(&pairs, false).name, "unnamed");
}

#[test]
fn days_keep_their_low_thirty_two_bits() {
    assert_eq!(parse_scenario("days: 4294967298\n").unwrap().days, 2);
    assert_eq!(parse_scenario("days: 0\n").unwrap().days, 0);
    assert_eq!(parse_scenario("days: -3\n").unwrap().days, 1);
}

#[test]
fn events_come_in_the_order_of_their_times() {
    let yaml = "20:15:\n  load: 3\n06:00:\n  load: 1\n9:30:\n  load: 2\nnoon:\n  load: 9\n25:00:\n  load: 9\n";
    let d = parse_scenario(yaml).unwrap();
    let times: Vec<(u32, u32)> = d.events.iter().map(|(t, _)| (t.hour, t.minute)).collect();
    assert_eq!(times, vec![(6, 0), (9, 30), (20, 15)]);
    let s = completed(d);
    let loads: Vec<f64> = s.events.iter().map(|(_, e)| val(e.load.unwrap())).collect();
    assert_eq!(loads, vec![1.0, 2.0, 3.0]);
}

#[test]
fn an_event_that_does_not_decode_is_dropped() {
    let d = parse_scenario("06:00:\n  load: 1\n07:00: 5\n08:00:\n  load: 2\n").unwrap();
    assert_eq!(d.events.len(), 3);
    let s = completed(d);
    assert_eq!(s.events.len(), 2);
    assert_eq!(s.events[1].0, at(8, 0));
}

#[test]
fn text_that_is_no_mapping_is_refused() {
    assert!(parse_scenario("- 1\n- 2\n").is_err());
    let e = parse_named_scenario("a: b: c").unwrap_err();
    assert!(!e.is_empty());
}

#[test]
fn clock_times_are_hours_and_minutes() {
    assert_eq!(parse_clock_time("08:05"), Some(at(8, 5)));
    assert_eq!(parse_clock_time("23:59"), Some(at(23, 59)));
    assert_eq!(parse_clock_time("24:00"), None);
    assert_eq!(parse_clock_time("name"), None);
}

#[test]
fn failures_are_told_in_a_fixed_order() {
    let mut s = plant();
    s.active_faults.push("grid_loss".to_string());
    s.solar.generation_w = fx(1234.56);
    s.grid.power_w = fx(-2000.0);
    s.grid.connected = false;
    s.batteries[0].power_kw = fx(-1.25);
    sync(&mut s);
    s.energy_totals.load_consumption_kwh = fx(2.25);
    let mut e = Vec::new();
    e.extend(expect("load_kwh_gt", Expected::Number(fx(2.5))));
    e.extend(expect("solar_kwh_gt", number(1)));
    e.extend(expect("grid_export_kwh_gt", number(1)));
    e.extend(expect("grid_import_kwh_gt", number(1)));
    e.extend(expect("fault_active", Expected::Text("inverter_trip".to_string())));
    e.extend(expect("no_faults", Expected::Bool(true)));
    e.extend(expect("battery_charging", Expected::Bool(true)));
    e.extend(expect("grid_export_gt", number(2000)));
    e.extend(expect("grid_import_gt", number(0)));
    e.extend(expect("grid_connected", number(1)));
    e.extend(expect("solar_lt", number(1000)));
    e.extend(expect("solar_gt", number(5000)));
    e.extend(expect("soc_lt", number(50)));
    e.extend(expect("soc_gt", Expected::Number(fx(50.5))));
    let f = check_assertions(&e, &s).unwrap_err();
    assert_eq!(
        f,
        vec![
            "soc_gt: expected > 50.5, got 50.0",
            "soc_lt: expected < 50, got 50.0",
            "solar_gt: expected > 5000, got 1234.6",
            "solar_lt: expected < 1000, got 1234.6",
            "grid_connected: expected 1, got 0",
            "grid_import_gt: expected > 0, got 0.0",
            "grid_export_gt: expected > 2000, got 2000.0",
            "battery_charging: expected true, got false (total_power_kw=-1.25)",
            "no_faults: expected none, got [\"grid_loss\"]",
            "fault_active: expected 'inverter_trip' to be active, got [\"grid_loss\"]",
            "grid_import_kwh_gt: expected > 1, got 0.0",
            "grid_export_kwh_gt: expected > 1, got 0.0",
            "solar_kwh_gt: expected > 1, got 0.0",
            "load_kwh_gt: expected > 2.5, got 2.2",
        ]
    );
}

#[test]
fn values_of_another_kind_expect_nothing() {
    let mut s = plant();
    s.active_faults.push("grid_loss".to_string());
    let mut e = expect("soc_gt", Expected::Text("99".to_string()));
    e.extend(expect("no_faults", number(1)));
    e.extend(expect("fault_active", Expected::Bool(true)));
    e.extend(expect("unheard_of", number(1)));
    e.extend(expect("solar_gt", Expected::Other));
    assert!(check_assertions(&e, &s).is_ok());
    assert!(check_assertions(&expect("no_faults", Expected::Bool(false)), &s).is_ok());
    assert!(check_assertions(&Vec::new(), &s).is_ok());
}

#[test]
fn an_event_sets_the_plant_and_gives_commands() {
    let mut s = plant();
    let e = ScenarioEvent {
        solar: Some(fx(3500.0)),
        load: Some(fx(800.0)),
        fault: Some("grid_loss".to_string()),
        clear_fault: Some("inverter_trip".to_string()),
        mode: Some("Eco".to_string()),
        export_limit: Some(fx(1000.0)),
        weather: Some("PARTLY-Cloudy".to_string()),
        ..quiet()
    };
    let c = apply_event(&e, &mut s);
    assert_eq!(s.solar.generation_w, fx(3500.0));
    assert_eq!(s.load_demand_w, fx(800.0));
    assert_eq!(c.len(), 5);
    assert!(matches!(&c[0], Command::InjectFault(f) if f == "grid_loss"));
    assert!(matches!(&c[1], Command::ClearFault(f) if f == "inverter_trip"));
    assert!(matches!(c[2], Command::SetInverterMode(InverterMode::Eco)));
    assert!(matches!(c[3], Command::SetExportLimit(w) if w == fx(1000.0)));
    assert!(matches!(c[4], Command::SetWeather(WeatherCondition::PartlyCloudy)));
}

#[test]
fn unknown_names_in_events_mean_the_usual() {
    let mut s = plant();
    let e = ScenarioEvent {
        mode: Some("eco".to_string()),
        weather: Some("Sunny".to_string()),
        ..quiet()
    };
    let c = apply_event(&e, &mut s);
    assert!(matches!(c[0], Command::SetInverterMode(InverterMode::Normal)));
    assert!(matches!(c[1], Command::SetWeather(WeatherCondition::Clear)));
    assert_eq!(event_weather_of("partly_cloudy"), WeatherCondition::PartlyCloudy);
    assert_eq!(event_weather_of("overcast"), WeatherCondition::Overcast);
    assert_eq!(event_weather_of("storm"), WeatherCondition::Storm);
    assert_eq!(event_weather_of("rain"), WeatherCondition::Rain);
    assert_eq!(event_weather_of("Storm"), WeatherCondition::Clear);
    let e = ScenarioEvent { weather: Some("STORM".to_string()), ..quiet() };
    assert!(matches!(
        apply_event(&e, &mut s)[0],
        Command::SetWeather(WeatherCondition::Storm)
    ));
}

/// A plant at a day of June 2025.
fn plant_at(day: u32, hour: u32, minute: u32) -> PlantState {
    let mut s = plant();
    s.timestamp.day = day;
    s.timestamp.hour = hour;
    s.timestamp.minute = minute;
    s
}

#[test]
fn a_scenario_of_two_days_repeats_its_events() {
    let scenario = Scenario {
        name: "two days".to_string(),
        events: vec![(at(8, 0), quiet()), (at(20, 0), quiet())],
        days: 2,
    };
    let mut run = ScenarioRun::new();
    let mut step = |day: u32, hour: u32, minute: u32| {
        let o = run.step(&scenario, &mut plant_at(day, hour, minute));
        (o.event, o.finished)
    };
    assert_eq!(step(1, 7, 59), (None, false));
    assert_eq!(step(1, 8, 0), (Some(0), false));
    assert_eq!(step(1, 8, 1), (None, false));
    assert_eq!(step(1, 20, 30), (Some(1), false));
    assert_eq!(step(1, 20, 31), (None, false));
    assert_eq!(step(2, 7, 0), (None, false));
    assert_eq!(step(2, 8, 0), (Some(0), false));
    assert_eq!(step(2, 20, 0), (Some(1), true));
    assert_eq!(step(3, 20, 0), (None, false));
}

#[test]
fn a_scenario_without_events_never_finishes() {
    let scenario = Scenario { name: String::new(), events: Vec::new(), days: 1 };
    let mut run = ScenarioRun::new();
    let o = run.step(&scenario, &mut plant());
    assert!(o.event.is_none() && !o.finished);
}

#[test]
fn a_step_judges_what_the_event_expects() {
    let mut e = quiet();
    e.solar = Some(fx(10.0));
    e.expect = Some(expect("solar_gt", number(20)));
    let scenario = Scenario { name: String::new(), events: vec![(at(12, 0), e)], days: 0 };
    let mut run = ScenarioRun::new();
    let mut s = plant();
    let o = run.step(&scenario, &mut s);
    assert!(o.finished);
    assert_eq!(
        o.verdict,
        Some(Err(vec!["solar_gt: expected > 20, got 10.0".to_string()]))
    );
    assert_eq!(run.days_done, 1);
}

#[test]
fn scenario_info_tells_what_events_hold() {
    let mut e = quiet();
    e.solar = Some(fx(1.0));
    e.mode = Some("Eco".to_string());
    let scenario = Scenario {
        name: "shown".to_string(),
        events: vec![(at(8, 5), e), (at(23, 59), quiet())],
        days: 3,
    };
    let info = load_scenario(&scenario);
    assert_eq!(info.name, "shown");
    assert_eq!(info.days, 3);
    assert_eq!(info.events[0].time, "08:05:00");
    assert!(info.events[0].has_solar && !info.events[0].has_load);
    assert_eq!(info.events[0].mode.as_deref(), Some("Eco"));
    assert_eq!(info.events[1].time, "23:59:00");
    assert!(!info.events[1].has_fault && !info.events[1].has_expect);
    assert_eq!(info.events[1].weather, None);
}

#[test]
fn results_count_their_assertions() {
    let r = ScenarioResult { name: String::new(), passed: 3, failed: 0, assertions: Vec::new() };
    assert_eq!(r.total(), 3);
    assert!(r.is_success());
    let r = ScenarioResult { failed: 2, ..r };
    assert_eq!(r.total(), 5);
    assert!(!r.is_success());
}

fn frame(hour: u32) -> RecordingFrame {
    let s = plant_at(1, hour, 0);
    RecordingFrame {
        timestamp: s.timestamp,
        plant_state: s,
        register_snapshot: HashMap::new(),
    }
}

#[test]
fn roundtrip_frames() {
    let json = "{\"timestamp\":\"2025-06-01T12:00:00\"}";
    let buf = write_frame(json);
    let frames = read_frames(&buf);
    assert_eq!(frames.len(), 1);
    assert_eq!(frames[0], json);
}

#[test]
fn csv_output_has_header() {
    let frames = vec![frame(12)];
    let output = write_csv(&frames);
    let first_line = output.lines().next().unwrap();
    assert!(first_line.starts_with("timestamp"));
    assert!(first_line.contains("soc_percent"));
}

#[test]
fn junit_xml_valid_structure() {
    let result = ScenarioResult {
        name: "test_scenario".into(),
        passed: 1,
        failed: 1,
        assertions: vec![
            AssertionResult { time: "10:00:00".into(), passed: true, messages: vec![] },
            AssertionResult {
                time: "12:00:00".into(),
                passed: false,
                messages: vec!["soc_gt: expected > 80, got 50".into()],
            },
        ],
    };
    let xml = write_junit_xml(&result);
    assert!(xml.contains("<?xml"));
    assert!(xml.contains("<testsuite"));
    assert!(xml.contains("<failure"));
}

#[test]
fn junit_xml_to_the_letter() {
    let result = ScenarioResult {
        name: "a & b".into(),
        passed: 1,
        failed: 1,
        assertions: vec![
            AssertionResult { time: "10:00:00".into(), passed: true, messages: vec![] },
            AssertionResult {
                time: "12:00:00".into(),
                passed: false,
                messages: vec!["x > 1".into(), "y".into()],
            },
        ],
    };
    let expected = "<?xml version=\"1.0\" encoding=\"UTF-8\"?>\n\
        <testsuites><testsuite name=\"a &amp; b\" tests=\"2\" failures=\"1\">\n\
        \u{20} <testcase name=\"assertion @ 10:00:00\" classname=\"a &amp; b\"/>\n\
        \u{20} <testcase name=\"assertion @ 12:00:00\" classname=\"a &amp; b\">\n\
        \u{20}   <failure message=\"x &gt; 1; y\">x &gt; 1\ny</failure>\n\
        \u{20} </testcase>\n\
        </testsuite></testsuites>\n";
    assert_eq!(write_junit_xml(&result), expected);
}

#[test]
fn xml_escapes_five_characters() {
    assert_eq!(xml_escape("<a b=\"c\">'&'</a>"), "&lt;a b=&quot;c&quot;&gt;&apos;&amp;&apos;&lt;/a&gt;");
    assert_eq!(xml_escape("&amp;"), "&amp;amp;");
    assert_eq!(xml_escape("plain ü"), "plain ü");
}

#[test]
fn csv_rows_to_the_letter() {
    let mut f = frame(9);
    f.plant_state.batteries[0].soc_percent = fx(62.345);
    f.plant_state.batteries[0].power_kw = fx(-1.005);
    sync(&mut f.plant_state);
    f.plant_state.battery.soc_percent = fx(11.0);
    f.plant_state.battery.power_kw = fx(3.0);
    f.plant_state.solar.generation_w = fx(1500.5);
    f.plant_state.load_demand_w = fx(2501.5);
    f.plant_state.grid.power_w = fx(-0.25);
    f.plant_state.inverter.mode = InverterMode::ForceCharge;
    f.plant_state.inverter.effective_mode = InverterMode::Eco;
    f.plant_state.active_faults = vec!["grid_loss".to_string(), "sensor_drift".to_string()];
    let text = write_csv(&[f, frame(10)]);
    let rows: Vec<&str> = text.lines().collect();
    assert_eq!(rows.len(), 3);
    assert_eq!(
        rows[1],
        "2025-06-01 09:00:00,62.34,-1.00,1500,2502,-0,1,ForceCharge,\"grid_loss;sensor_drift\""
    );
    assert_eq!(rows[2], "2025-06-01 10:00:00,50.00,0.00,0,0,0,1,Normal,\"\"");
}

#[test]
fn csv_times_show_the_fraction_of_a_second() {
    let shown = |second: u32, nanosecond: u32| -> String {
        let mut f = frame(9);
        f.timestamp.second = second;
        f.timestamp.nanosecond = nanosecond;
        let text = write_csv(&[f]);
        let row = text.lines().nth(1).unwrap().to_string();
        row.split(',').next().unwrap().to_string()
    };
    assert_eq!(shown(7, 0), "2025-06-01 09:00:07");
    assert_eq!(shown(7, 250_000_000), "2025-06-01 09:00:07.250");
    assert_eq!(shown(7, 250_001_000), "2025-06-01 09:00:07.250001");
    assert_eq!(shown(7, 1), "2025-06-01 09:00:07.000000001");
    assert_eq!(shown(59, 1_500_000_000), "2025-06-01 09:00:60.500");
}

#[test]
fn frames_read_back_or_fail_as_a_whole() {
    let read = |recording: &str| -> Result<Vec<u32>, String> {
        gather_frames(
            read_frames(recording)
                .iter()
                .map(|line| line.parse::<u32>().map_err(|_| format!("bad {line}")))
                .collect(),
        )
    };
    let mut text = write_frame("1");
    text.push_str("\n \t\r\n");
    text.push_str(&write_frame("22"));
    assert_eq!(read(&text), Ok(vec![1, 22]));
    assert_eq!(read("\n\n  \n"), Ok(vec![]));
    text.push_str("x\ny\n3\n");
    assert_eq!(read(&text), Err("bad x".to_string()));
}

#[test]
fn a_recording_reads_back() {
    let frames = vec!["{\"a\":1}".to_string(), "{\"b\":2}".to_string(), "[]".to_string()];
    assert_eq!(read_frames(&save_recording(&frames)), frames);
    assert_eq!(save_recording(&[]), "");
}

#[test]
fn blank_lines_and_carriage_returns_are_skipped() {
    assert_eq!(read_frames("{1}\r\n\n  \t\n{2}\n"), vec!["{1}", "{2}"]);
    assert_eq!(read_frames("{1}\n{2}"), vec!["{1}", "{2}"]);
    assert_eq!(read_frames("{1}\r"), vec!["{1}\r"]);
    assert!(read_frames("").is_empty());
}

#[test]
fn a_report_ends_with_a_line_feed() {
    assert_eq!(write_json_report("{}"), "{}\n");
}

#[test]
fn recordings_differ_where_their_states_do() {
    let v = |s: &[&str]| -> Vec<String> { s.iter().map(|x| x.to_string()).collect() };
    let a = v(&["1", "2", "3"]);
    let b = v(&["1", "x", "3", "4", "5"]);
    assert_eq!(diff_recordings(&a, &b), vec![1, 3, 4]);
    assert_eq!(diff_recordings(&b, &a), vec![1, 3, 4]);
    assert!(diff_recordings(&a, &a).is_empty());
}

#[test]
fn a_write_is_tried_four_times() {
    assert_eq!(tmp_path("/data/plant.json"), "/data/plant.json.tmp");
    assert_eq!(after_rename(0, true), AfterRename::Done);
    assert_eq!(after_rename(0, false), AfterRename::Retry { pause_ms: 10, attempt: 1 });
    assert_eq!(after_rename(1, false), AfterRename::Retry { pause_ms: 20, attempt: 2 });
    assert_eq!(after_rename(2, false), AfterRename::Retry { pause_ms: 30, attempt: 3 });
    assert_eq!(after_rename(3, false), AfterRename::GiveUp);
    assert!(creates_parent("data", false));
    assert!(!creates_parent("data", true));
    assert!(!creates_parent("", false));
}
