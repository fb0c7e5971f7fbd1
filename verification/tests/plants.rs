//! Commands, register writes and the reports of the plant.
use givenergy_sim::calendar::moment;
use givenergy_sim::catalogue::default_register_catalogue;
use givenergy_sim::commands::{
    cancel_calibration, clear_fault, create_plant, default_soh, device_order, export_format,
    get_dongle_misbehaviour, get_grid_port_max_power, inject_fault, refresh_registers,
    set_arm_firmware, set_battery_soc, set_battery_soh, set_ct_meter, set_dongle_misbehaviour,
    set_dsp_firmware, set_evc_cable_status, set_evc_charge_control, set_evc_charge_current,
    set_evc_enabled, set_evc_port, set_evc_session_energy, set_grid_export_limit,
    set_grid_port_max_power, set_inverter_temperature, set_load_override, set_mode,
    set_solar_override, set_tick_interval, set_weather, start_calibration, start_simulation,
    sync_evc, throughput_from_soh, BatteryModuleConfig, BatteryPlan, ClearFaultParams,
    CreatePlantParams, Device, ExportFormat, ExportRecordingParams, InjectFaultParams,
    load_profile_name, load_profile_named, LimitRefusal, LoadProfile, SetBatterySocParams,
    SetBatterySohParams, SetCtMeterParams, SetModeParams, SetOverrideParams,
    SetTickIntervalParams, SetWeatherParams, StartCalibrationParams, StartSimulationParams, WearModel,
};
use givenergy_sim::dto::{get_current_state, PlantStateDto, ScheduleDto};
use givenergy_sim::fixed::Fixed;
use givenergy_sim::modbus::{
    drain_modbus_writes, is_schedule_register, modbus_address_to_command, Command, ModbusCommand,
};
use givenergy_sim::model::{
    device_type_code, has_slot_2, is_gateway_inverter, is_three_phase_inverter,
    uses_gen3_extended_slots, GridPortPowerFamily,
};
use givenergy_sim::registers::{RegisterSpace, RegisterStore};
use givenergy_sim::schedule::{RawTime, Schedule, Slot};
use givenergy_sim::state::{
    BatteryRecord, BatteryState, BatterySummary, DongleMisbehaviourMode, EnergyTotals, EvcState, GridState,
    InverterMode, InverterState, PlantConfig, PlantState, SolarState, Timestamp,
    WeatherCondition,
};

/// A quantity from a decimal number.
fn fx(v: f64) -> Fixed {
    Fixed::from_micros((v * 1_000_000.0).round() as i64)
}

/// A module as plants start with it: three years old.
fn module() -> BatteryState {
    BatteryState {
        soc_percent: fx(50.0),
        power_kw: fx(0.0),
        voltage_v: fx(51.2),
        current_a: fx(0.0),
        temperature_celsius: fx(25.0),
        capacity_kwh: fx(7.619),
        nominal_capacity_kwh: fx(9.5),
        soh: fx(0.802),
        cycle_count: fx(0.0),
        throughput_kwh: fx(9405.0),
        max_charge_kw: fx(3.6),
        max_discharge_kw: fx(3.6),
        charge_efficiency: fx(0.95),
        discharge_efficiency: fx(0.95),
    }
}

/// Derives the battery's summary from its modules.
fn sync(s: &mut PlantState) {
    let mut capacity: f64 = 0.0;
    let mut charge: f64 = 0.0;
    let mut power: f64 = 0.0;
    let mut heat: f64 = 0.0;
    let mut limit: f64 = 0.0;
    for b in &s.batteries {
        capacity += val(b.capacity_kwh);
        charge += val(b.soc_percent) * val(b.capacity_kwh);
        power += val(b.power_kw);
        heat += val(b.temperature_celsius);
        limit += val(b.max_charge_kw) * 1000.0;
    }
    s.battery = BatterySummary {
        soc_percent: fx(charge / capacity),
        power_kw: fx(power),
        temperature_celsius: fx(heat / s.batteries.len() as f64),
        capacity_kwh: fx(capacity),
        max_charge_w: fx(limit),
        max_discharge_w: fx(limit),
        min_soc_percent: fx(4.0),
        max_soc_percent: fx(100.0),
    };
    s.battery_record =
        BatteryRecord { soc_percent: s.battery.soc_percent, power_kw: s.battery.power_kw };
}

/// A quantity as a decimal number.
fn val(q: Fixed) -> f64 {
    q.micros() as f64 / 1_000_000.0
}

/// A new plant with so many modules, at noon of the first of June 2025.
fn plant_with(count: usize) -> PlantState {
    let zero = fx(0.0);
    let mut s = PlantState {
        timestamp: Timestamp { year: 2025, month: 6, day: 1, hour: 12, minute: 0, second: 0, nanosecond: 0 },
        config: PlantConfig {
            inverter_type: "Gen3Hybrid".to_string(),
            ct_meter_installed: false,
            solar_peak_watts: fx(5000.0),
            pv2_peak_watts: zero,
            max_ac_watts: fx(5000.0),
            latitude: fx(51.5),
            tick_interval_secs: 60,
            gateway_fw_version: 9,
            parallel_aio_num: 1,
        },
        inverter: InverterState {
            mode: InverterMode::Normal,
            effective_mode: InverterMode::Normal,
            ac_power_w: zero,
            export_limit_w: zero,
            temperature_celsius: fx(35.0),
            temperature_override: None,
            work_time_hours: fx(26_280.0),
            dsp_firmware_version: 449,
            arm_firmware_version: 0,
            battery_self_heating: false,
            manual_battery_heater: false,
        },
        batteries: vec![module(); count],
        battery: BatterySummary {
            soc_percent: zero,
            power_kw: zero,
            temperature_celsius: zero,
            capacity_kwh: zero,
            max_charge_w: zero,
            max_discharge_w: zero,
            min_soc_percent: zero,
            max_soc_percent: zero,
        },
        battery_record: BatteryRecord { soc_percent: zero, power_kw: zero },
        solar: SolarState { generation_w: zero, pv1_w: zero, pv2_w: zero },
        load_demand_w: zero,
        grid: GridState { power_w: zero, connected: true },
        energy_totals: EnergyTotals {
            grid_import_kwh: zero,
            grid_export_kwh: zero,
            battery_charge_kwh: zero,
            battery_discharge_kwh: zero,
            solar_generation_kwh: zero,
            solar_lifetime_kwh: zero,
            load_consumption_kwh: zero,
            ac_charge_kwh: zero,
            inverter_output_kwh: zero,
        },
        evc: EvcState {
            enabled: false,
            charge_control: 0,
            charge_current_limit: 320,
            plug_and_go: 0,
            connection_status: 0,
            charging_state: 0,
            active_power_w: zero,
            active_power_l1: zero,
            active_power_l2: zero,
            active_power_l3: zero,
            current_l1: zero,
            current_l2: zero,
            current_l3: zero,
            session_energy_kwh: zero,
            session_duration_secs: 0,
        },
        active_faults: Vec::new(),
        weather: "Clear".to_string(),
        solar_override: None,
        load_override: None,
        active_power_rate_percent: fx(100.0),
        battery_charge_limit_percent: fx(100.0),
        battery_discharge_limit_percent: fx(100.0),
        battery_discharge_min_power_reserve: fx(4.0),
        battery_pause_mode: 0,
        battery_pause_slot_start: 60,
        battery_pause_slot_end: 60,
        export_priority: 0,
        calibration_stage: 0,
        manual_soc_hold_ticks: 0,
        scheduled_charge: false,
        scheduled_discharge: false,
        enable_charge_target: false,
        enable_rtc: false,
        enable_eps: false,
        enable_inverter_parallel_mode: false,
        ems_enabled: false,
        dongle_misbehaviour: DongleMisbehaviourMode::Off,
    };
    sync(&mut s);
    s
}

/// A new plant with one module.
fn plant() -> PlantState {
    plant_with(1)
}

/// A schedule without any window.
fn default_schedule() -> Schedule {
    let charge = Slot { start: fx(0.0), end: fx(0.0), target_soc: fx(100.0) };
    let discharge = Slot { start: fx(0.0), end: fx(0.0), target_soc: fx(4.0) };
    Schedule {
        charge: [charge; 10],
        discharge: [discharge; 10],
        export: [discharge; 3],
        enable_charge: false,
        enable_discharge: false,
        raw_times: Vec::new(),
    }
}

fn no_params() -> CreatePlantParams {
    CreatePlantParams {
        battery_count: None,
        battery_modules: None,
        peak_watts: None,
        pv2_peak_watts: None,
        latitude: None,
        load_profile: None,
        tick_interval: None,
        inverter_type: None,
        ct_meter_installed: None,
    }
}

fn wear() -> WearModel {
    WearModel { degradation_per_cycle: fx(0.0002), cycles_per_year: fx(330.0) }
}

#[test]
fn test_throughput_from_soh_calculation() {
    let throughput = val(throughput_from_soh(fx(0.781), fx(9.5)));
    assert!((throughput - 10402.5).abs() < 1.0, "Expected ~10402.5, got {}", throughput);

    let throughput_new = val(throughput_from_soh(fx(1.0), fx(9.5)));
    assert_eq!(throughput_new, 0.0, "New battery should have 0 throughput");

    let throughput_huge = val(throughput_from_soh(fx(0.0), fx(10_000_000.0)));
    assert_eq!(throughput_huge, 50_000_000_000.0);

    let throughput_eol = val(throughput_from_soh(fx(0.5), fx(9.5)));
    let expected_eol = (1.0 - 0.5) / 0.0002 * 9.5;
    assert!((throughput_eol - expected_eol).abs() < 1.0);
}

#[test]
fn grid_port_power_family_classifies_inverter_types() {
    for inv in ["ThreePhase", "ThreePhase8kW", "ThreePhase10kW", "ThreePhase11kW", "ACThreePhase"] {
        assert_eq!(
            GridPortPowerFamily::from_inverter_type(inv),
            GridPortPowerFamily::ThreePhase
        );
    }
    for inv in ["EMS", "EmsCommercial", "Gateway12kW"] {
        assert_eq!(
            GridPortPowerFamily::from_inverter_type(inv),
            GridPortPowerFamily::Ems
        );
    }
    for inv in [
        "Gen1Hybrid",
        "Gen2Hybrid",
        "Gen3Hybrid",
        "Gen3Hybrid8kW",
        "Gen3Hybrid10kW",
        "Gen4Hybrid6kW",
        "Gen3Plus6kW",
        "Gen3Plus4600",
        "Gen3Plus3600",
        "Gen3Plus6kW2",
        "Gen3Plus7kW",
        "Gen3Plus8kW",
        "ACCoupled",
        "ACCoupled2",
        "Hybrid4600",
        "Hybrid3600",
        "Polar5kW",
        "Polar4600",
        "Polar3600",
        "Polar6kW",
        "Polar7kW",
        "PVInverter5kW",
        "PVInverter4600",
        "PVInverter3600",
        "PVInverter6kW",
        "AllInOne",
        "AllInOne6",
        "AllInOne5",
        "AIO6kW",
        "AIO8kW",
        "AIO10kW",
        "AIOHybrid6kW",
        "AIOHybrid8kW",
        "AIOHybrid10kW",
        "AIOHybrid12kW",
    ] {
        assert_eq!(
            GridPortPowerFamily::from_inverter_type(inv),
            GridPortPowerFamily::SinglePhase,
            "expected {inv} to be classified as SinglePhase"
        );
    }
}

#[test]
fn grid_port_power_family_labels_are_distinct() {
    let labels = [
        GridPortPowerFamily::SinglePhase.label(),
        GridPortPowerFamily::ThreePhase.label(),
        GridPortPowerFamily::Ems.label(),
    ];
    for i in 0..labels.len() {
        for j in 0..labels.len() {
            if i != j {
                assert_ne!(labels[i], labels[j], "family labels must be distinct");
            }
        }
    }
    assert!(labels[0].contains("HR 26"));
    assert!(labels[1].contains("HR 1063"));
    assert!(labels[2].contains("HR 2071"));
}

#[test]
fn grid_port_power_family_clamp_per_family_max() {
    let three = GridPortPowerFamily::ThreePhase;
    let ems = GridPortPowerFamily::Ems;
    assert_eq!(three.max_w(), fx(6500.0));
    assert_eq!(ems.max_w(), fx(65535.0));
    assert_eq!(three.clamp_watts(fx(6500.0)), fx(6500.0));
    assert_eq!(ems.clamp_watts(fx(6500.0)), fx(6500.0));
    assert_eq!(three.clamp_watts(fx(7000.0)), fx(6500.0));
    assert_eq!(ems.clamp_watts(fx(7000.0)), fx(7000.0));
    assert_eq!(three.clamp_watts(fx(70000.0)), fx(6500.0));
    assert_eq!(ems.clamp_watts(fx(70000.0)), fx(65535.0));
    assert_eq!(three.clamp_watts(fx(-100.0)), fx(0.0));
    assert_eq!(ems.clamp_watts(fx(-100.0)), fx(0.0));
}

#[test]
fn grid_export_limit_clamping_by_family() {
    let clamp = |fam: GridPortPowerFamily, watts: f64| -> f64 { val(fam.export_limit_for(fx(watts))) };
    assert_eq!(
        clamp(GridPortPowerFamily::SinglePhase, 3680.0),
        3680.0,
        "single-phase should accept the UK G98 3680 W default"
    );
    assert_eq!(
        clamp(GridPortPowerFamily::SinglePhase, 10000.0),
        10000.0,
        "single-phase accepts any positive value (hardware caps it later)"
    );
    assert_eq!(
        clamp(GridPortPowerFamily::SinglePhase, -1.0),
        0.0,
        "negative inputs pin to 0"
    );
    assert_eq!(clamp(GridPortPowerFamily::ThreePhase, 6500.0), 6500.0);
    assert_eq!(clamp(GridPortPowerFamily::ThreePhase, 7000.0), 6500.0);
    assert_eq!(clamp(GridPortPowerFamily::ThreePhase, -5.0), 0.0);
    assert_eq!(clamp(GridPortPowerFamily::Ems, 65535.0), 65535.0);
    assert_eq!(clamp(GridPortPowerFamily::Ems, 70000.0), 65535.0);
}

#[test]
fn dto_exposes_limits_and_inverter_max_output() {
    let mut state = plant();
    state.config.max_ac_watts = fx(8000.0);
    state.battery_charge_limit_percent = fx(80.0);
    state.battery_discharge_limit_percent = fx(70.0);

    let dto = PlantStateDto::from(&state);

    assert_eq!(dto.inverter_max_output_w, fx(8000.0));
    assert_eq!(dto.charge_power_limit_percent, fx(80.0));
    assert_eq!(dto.discharge_power_limit_percent, fx(70.0));
}

#[test]
fn dto_treats_zero_power_limits_as_100_percent_default() {
    let mut state = plant();
    state.battery_charge_limit_percent = fx(0.0);
    state.battery_discharge_limit_percent = fx(0.0);

    let dto = PlantStateDto::from(&state);

    assert_eq!(dto.charge_power_limit_percent, fx(100.0));
    assert_eq!(dto.discharge_power_limit_percent, fx(100.0));
}

#[test]
fn ac_coupled_schedule_dto_exposes_discharge_slot_1() {
    let mut state = plant();
    state.config.inverter_type = "ACCoupled".to_string();
    let mut sched = default_schedule();
    sched.discharge[0].start = fx(17.0);
    sched.discharge[0].end = fx(21.0);
    sched.discharge[0].target_soc = fx(25.0);
    sched.enable_discharge = true;

    let dto = ScheduleDto::from_state(&state, Some(&sched));

    assert!(dto.enable_discharge);
    assert_eq!(dto.discharge_slot_1_start, 1700);
    assert_eq!(dto.discharge_slot_1_end, 2100);
    assert_eq!(dto.discharge_target_soc, fx(25.0));
}

#[test]
fn schedule_dto_keeps_disabled_flag_and_stored_raw_times_independent() {
    let state = plant();
    let mut schedule = default_schedule();
    schedule.charge[0].start = fx(1.0);
    schedule.charge[0].end = fx(4.0);
    schedule.enable_charge = false;
    schedule.raw_times = vec![
        RawTime { address: 94, value: 2360 },
        RawTime { address: 95, value: u16::MAX },
    ];

    let dto = ScheduleDto::from_state(&state, Some(&schedule));

    assert!(!dto.enable_charge);
    assert_eq!(dto.charge_slot_1_start, 2360);
    assert_eq!(dto.charge_slot_1_end, u16::MAX);
}

#[test]
fn schedule_dto_reflects_live_pause_slot_state() {
    let mut state = plant();
    state.battery_pause_mode = 2;
    state.battery_pause_slot_start = 400; // 04:00
    state.battery_pause_slot_end = 300; // 03:00

    let dto = ScheduleDto::from_state(&state, None);

    assert_eq!(dto.battery_pause_mode, 2);
    assert_eq!(dto.pause_slot_start, 400);
    assert_eq!(dto.pause_slot_end, 300);
}

#[test]
fn schedule_dto_pause_slot_defaults_when_unset() {
    let state = plant();
    let dto = ScheduleDto::from_state(&state, None);

    assert_eq!(dto.battery_pause_mode, 0);
    assert_eq!(dto.pause_slot_start, 60);
    assert_eq!(dto.pause_slot_end, 60);
}

#[test]
fn gateway_aio_battery_defaults() {
    let mut params = no_params();
    params.inverter_type = Some("Gateway12kW".to_string());
    let plan = create_plant(&params, fx(6000.0), &wear());
    assert_eq!(plan.parallel_aio_num, Some(1));
    let seeds = match plan.batteries {
        BatteryPlan::Modules(v) => v,
        BatteryPlan::Count(_) => panic!("a gateway has modules of its own"),
    };
    let mut batts = Vec::new();
    for m in &seeds {
        let mut b = module();
        b.capacity_kwh = m.capacity_kwh;
        b.nominal_capacity_kwh = m.nominal_capacity_kwh;
        b.voltage_v = m.voltage_v.unwrap();
        b.soh = fx(1.0);
        b.max_charge_kw = m.max_charge_kw;
        b.max_discharge_kw = m.max_discharge_kw;
        batts.push(b);
    }

    assert_eq!(batts.len(), 3, "must create 3 HV modules");
    for (i, b) in batts.iter().enumerate() {
        assert_eq!(b.capacity_kwh, fx(3.4), "module {i}: capacity_kwh must be 3.4");
        assert_eq!(
            b.nominal_capacity_kwh,
            fx(3.4),
            "module {i}: nominal_capacity_kwh must be 3.4"
        );
        assert_eq!(b.voltage_v, fx(51.2), "module {i}: voltage_v must be 51.2 (HV 16S)");
        assert!(
            val(b.max_charge_kw) > 0.0,
            "module {i}: max_charge_kw must be positive"
        );
        assert_eq!(b.max_charge_kw, fx(2.0));
    }

    let total_cap: f64 = batts.iter().map(|b| val(b.capacity_kwh)).sum();
    assert!(
        (total_cap - 10.2).abs() < 0.01,
        "total stack capacity must be 10.2 kWh, got {total_cap}"
    );

    let mut state = plant();
    state.batteries = batts;
    sync(&mut state);

    let dto = PlantStateDto::from(&state);
    assert_eq!(dto.battery_modules.len(), 3, "DTO must have 3 modules");
    assert_eq!(dto.battery_modules[0].capacity_kwh, fx(3.4));
    assert_eq!(dto.battery_modules[0].nominal_capacity_kwh, fx(3.4));
    assert_eq!(dto.battery_modules[0].voltage_v, fx(51.2));
    let display = format!(
        "{:.1} / {:.1} kWh",
        val(dto.battery_modules[0].capacity_kwh),
        val(dto.battery_modules[0].nominal_capacity_kwh)
    );
    assert_eq!(display, "3.4 / 3.4 kWh", "UI display must match");
}

#[test]
fn the_report_of_a_plant() {
    let mut s = plant();
    s.inverter.effective_mode = InverterMode::ForceDischarge;
    s.batteries[0].power_kw = fx(-1.0);
    sync(&mut s);
    s.active_faults = vec!["grid_loss".to_string()];
    s.timestamp.second = 7;
    let dto = get_current_state(Some(&s), None).unwrap();
    assert_eq!(dto.timestamp, "2025-06-01T12:00:07");
    assert_eq!(dto.inverter_mode, "ForceDischarge");
    assert_eq!(dto.active_faults, vec!["grid_loss"]);
    assert_eq!(dto.battery_module_count, 1);
    assert_eq!(dto.arm_firmware_version, 318);
    assert_eq!(dto.dongle_misbehaviour, "Off");
    assert_eq!(get_current_state(None, None).unwrap_err(), "No plant created yet");
}

#[test]
fn the_reported_firmware_is_that_of_the_register() {
    let mut s = plant();
    s.config.inverter_type = "ThreePhase11kW".to_string();
    assert_eq!(PlantStateDto::from(&s).arm_firmware_version, 612);
    set_arm_firmware(&mut s, 700);
    assert_eq!(PlantStateDto::from(&s).arm_firmware_version, 700);
    set_dsp_firmware(&mut s, 701);
    let mut store = RegisterStore::new(default_register_catalogue());
    refresh_registers(&mut store, &s, None);
    assert_eq!(store.read_by_space(21, RegisterSpace::Holding), Some(700));
    assert_eq!(store.read_by_space(19, RegisterSpace::Holding), Some(701));
}

#[test]
fn moments_are_those_of_the_calendar() {
    assert!(moment(2024, 2, 29, 0, 0, 0).is_some());
    assert!(moment(2025, 2, 29, 0, 0, 0).is_none());
    assert!(moment(2100, 2, 29, 0, 0, 0).is_none());
    assert!(moment(2000, 2, 29, 23, 59, 59).is_some());
    assert!(moment(2025, 4, 31, 0, 0, 0).is_none());
    assert!(moment(2025, 13, 1, 0, 0, 0).is_none());
    assert!(moment(2025, 1, 1, 24, 0, 0).is_none());
    assert!(moment(2025, 1, 1, 0, 60, 0).is_none());
    assert!(moment(2025, 1, 1, 0, 0, 60).is_none());
    assert!(moment(262_143, 1, 1, 0, 0, 0).is_none());
    assert!(moment(262_142, 1, 1, 0, 0, 0).is_some());
    assert!(moment(-262_143, 1, 1, 0, 0, 0).is_some());
}

#[test]
fn years_beyond_four_digits_are_signed() {
    let mut s = plant();
    s.timestamp.year = 12345;
    assert_eq!(PlantStateDto::from(&s).timestamp, "+12345-06-01T12:00:00");
    s.timestamp.year = -5;
    assert_eq!(PlantStateDto::from(&s).timestamp, "-0005-06-01T12:00:00");
    s.timestamp.year = 476;
    assert_eq!(PlantStateDto::from(&s).timestamp, "0476-06-01T12:00:00");
}

#[test]
fn defaults_of_a_new_plant() {
    let plan = create_plant(&no_params(), fx(3600.0), &wear());
    assert_eq!(plan.inverter_type, "Gen3Hybrid");
    assert_eq!(plan.load_profile, LoadProfile::Family);
    assert_eq!(plan.solar_peak_watts, fx(5000.0));
    assert_eq!(plan.latitude, fx(51.5));
    assert_eq!(plan.tick_interval_secs, 1);
    assert!(plan.ct_meter_installed);
    assert!(matches!(plan.batteries, BatteryPlan::Count(1)));
    let mut p = no_params();
    p.load_profile = Some("heatpump".to_string());
    assert_eq!(create_plant(&p, fx(3600.0), &wear()).load_profile, LoadProfile::HeatPump);
    p.load_profile = Some("castle".to_string());
    assert_eq!(create_plant(&p, fx(3600.0), &wear()).load_profile, LoadProfile::Family);
}

#[test]
fn requested_modules_follow_their_health() {
    let mut p = no_params();
    let m = BatteryModuleConfig { capacity_kwh: fx(9.5), soh: fx(0.8) };
    p.battery_modules = Some(vec![m; 8]);
    let seeds = match create_plant(&p, fx(6000.0), &wear()).batteries {
        BatteryPlan::Modules(v) => v,
        BatteryPlan::Count(_) => panic!("modules were asked for"),
    };
    assert_eq!(seeds.len(), 6);
    assert_eq!(seeds[0].nominal_capacity_kwh, fx(9.5));
    assert_eq!(seeds[0].capacity_kwh, fx(7.6));
    assert_eq!(seeds[0].max_charge_kw, fx(1.0));
    assert_eq!(seeds[0].age_years, Some(fx(3.030303)));
    assert_eq!(default_soh(), fx(1.0));
}

#[test]
fn the_charger_runs_between_load_and_inverter() {
    let d = device_order(true);
    assert_eq!(d.len(), 8);
    assert_eq!(d[0], Device::Schedule);
    let place = |x: Device| d.iter().position(|y| *y == x).unwrap();
    assert!(place(Device::Load) < place(Device::Evc));
    assert!(place(Device::Evc) < place(Device::Inverter));
    assert_eq!(&d[1..], &device_order(false)[..]);
}

#[test]
fn a_simulation_starts_once_there_is_a_plant() {
    let p = StartSimulationParams { speed: None, scenario_path: None };
    let none: Result<Option<u8>, String> = Ok(None);
    let mut running = true;
    assert_eq!(
        start_simulation(false, &mut running, &p, none.clone()).unwrap_err(),
        "No plant exists — create or load a plant first"
    );
    assert_eq!(
        start_simulation(true, &mut running, &p, none.clone()).unwrap_err(),
        "Simulation already running"
    );
    assert!(running);
    running = false;
    let (plan, scenario) = start_simulation(true, &mut running, &p, none.clone()).unwrap();
    assert!(running);
    assert_eq!(scenario, None);
    assert_eq!(plan.tick_delay_ms, 100);
    assert!(!plan.real_time);
    let p = StartSimulationParams { speed: Some(fx(1.0)), scenario_path: None };
    running = false;
    let (plan, _) = start_simulation(true, &mut running, &p, none).unwrap();
    assert_eq!(plan.tick_delay_ms, 1000);
    assert!(plan.real_time);
}

#[test]
fn a_scenario_that_cannot_be_read_starts_nothing() {
    let p = StartSimulationParams { speed: None, scenario_path: Some("gone.yaml".to_string()) };
    let mut running = false;
    let unread: Result<u8, String> = Err("no such file".to_string());
    assert_eq!(start_simulation(true, &mut running, &p, unread).unwrap_err(), "no such file");
    assert!(!running);
    let (_, scenario) = start_simulation(true, &mut running, &p, Ok(7u8)).unwrap();
    assert!(running);
    assert_eq!(scenario, 7);
}

#[test]
fn load_profiles_go_by_name() {
    for p in [LoadProfile::Minimal, LoadProfile::Family, LoadProfile::EV, LoadProfile::HeatPump] {
        assert_eq!(load_profile_named(load_profile_name(p)), p);
    }
    assert_eq!(load_profile_name(LoadProfile::EV), "ev");
    assert_eq!(load_profile_named("castle"), LoadProfile::Family);
}

#[test]
fn modes_and_weather_go_by_name() {
    let c = set_mode(&SetModeParams { mode: "ForceCharge".to_string() }).unwrap();
    assert!(matches!(c, Command::SetInverterMode(InverterMode::ForceCharge)));
    let e = set_mode(&SetModeParams { mode: "Turbo".to_string() }).unwrap_err();
    assert_eq!(e, "Unknown mode: Turbo");
    let c = set_weather(&SetWeatherParams { weather: "Storm".to_string() }).unwrap();
    assert!(matches!(c, Command::SetWeather(WeatherCondition::Storm)));
    let c = set_weather(&SetWeatherParams { weather: "Rain".to_string() }).unwrap();
    assert!(matches!(c, Command::SetWeather(WeatherCondition::Rain)));
    let e = set_weather(&SetWeatherParams { weather: "storm".to_string() }).unwrap_err();
    assert_eq!(e, "Unknown weather: storm");
}

#[test]
fn plain_requests_become_commands() {
    let c = inject_fault(InjectFaultParams { fault_id: "grid_loss".to_string() });
    assert!(matches!(c, Command::InjectFault(f) if f == "grid_loss"));
    let c = clear_fault(ClearFaultParams { fault_id: "grid_loss".to_string() });
    assert!(matches!(c, Command::ClearFault(f) if f == "grid_loss"));
    let c = start_calibration(&StartCalibrationParams { module: Some(2) });
    assert!(matches!(c, Command::StartCalibration { module: Some(2) }));
    assert!(matches!(cancel_calibration(), Command::CancelCalibration));
    let c = set_tick_interval(&SetTickIntervalParams { interval_secs: 0 });
    assert!(matches!(c, Command::SetTickInterval(1)));
    let c = set_tick_interval(&SetTickIntervalParams { interval_secs: 60 });
    assert!(matches!(c, Command::SetTickInterval(60)));
}

#[test]
fn export_formats_go_by_name() {
    let f = |s: &str| {
        export_format(&ExportRecordingParams { path: String::new(), format: s.to_string() })
    };
    assert_eq!(f("csv"), Ok(ExportFormat::Csv));
    assert_eq!(f("jsonl"), Ok(ExportFormat::Jsonl));
    assert_eq!(f("json"), Ok(ExportFormat::Json));
    assert_eq!(f("xml"), Err("Unknown format: xml".to_string()));
}

#[test]
fn overrides_change_the_plant() {
    let mut s = plant();
    set_solar_override(&mut s, &SetOverrideParams { watts: Some(fx(10.0)) });
    set_load_override(&mut s, &SetOverrideParams { watts: Some(fx(20.0)) });
    set_ct_meter(&mut s, &SetCtMeterParams { enabled: true });
    assert_eq!(s.solar_override, Some(fx(10.0)));
    assert_eq!(s.load_override, Some(fx(20.0)));
    assert!(s.config.ct_meter_installed);
    set_inverter_temperature(&mut s, Some(fx(95.0)));
    assert_eq!(s.inverter.temperature_celsius, fx(80.0));
    assert_eq!(s.inverter.temperature_override, Some(fx(95.0)));
    set_inverter_temperature(&mut s, Some(fx(-20.0)));
    assert_eq!(s.inverter.temperature_celsius, fx(-10.0));
    set_inverter_temperature(&mut s, None);
    assert_eq!(s.inverter.temperature_celsius, fx(-10.0));
    assert_eq!(s.inverter.temperature_override, None);
}

#[test]
fn a_state_of_charge_set_by_hand_is_held() {
    let mut s = plant_with(2);
    s.batteries[1].power_kw = fx(1.0);
    set_battery_soc(&mut s, &SetBatterySocParams { module: 1, soc: fx(120.0) }).unwrap();
    assert_eq!(s.batteries[1].soc_percent, fx(100.0));
    assert_eq!(s.batteries[1].power_kw, fx(0.0));
    assert_eq!(s.batteries[0].soc_percent, fx(50.0));
    assert_eq!(s.manual_soc_hold_ticks, 200);
    let e = set_battery_soc(&mut s, &SetBatterySocParams { module: 2, soc: fx(1.0) });
    assert_eq!(e.unwrap_err(), "Battery module 3 does not exist");
}

#[test]
fn health_set_by_hand_moves_capacity_and_throughput() {
    let mut s = plant();
    set_battery_soh(&mut s, &SetBatterySohParams { module: 0, soh: fx(0.8) });
    assert_eq!(s.batteries[0].soh, fx(0.8));
    assert_eq!(s.batteries[0].capacity_kwh, fx(7.6));
    assert_eq!(s.batteries[0].throughput_kwh, fx(9500.0));
    assert_eq!(s.batteries[0].max_charge_kw, fx(5.0));
    let before = s.batteries.len();
    set_battery_soh(&mut s, &SetBatterySohParams { module: 9, soh: fx(0.1) });
    assert_eq!(s.batteries.len(), before);
    assert_eq!(s.batteries[0].soh, fx(0.8));
}

#[test]
fn the_charger_keeps_its_bounds() {
    let mut evc = plant().evc;
    set_evc_enabled(&mut evc, true);
    assert!(evc.enabled);
    set_evc_charge_control(&mut evc, 9);
    assert_eq!(evc.charge_control, 2);
    set_evc_charge_control(&mut evc, 1);
    assert_eq!(evc.charge_control, 1);
    set_evc_charge_current(&mut evc, 10);
    assert_eq!(evc.charge_current_limit, 60);
    set_evc_charge_current(&mut evc, 1000);
    assert_eq!(evc.charge_current_limit, 320);
    set_evc_session_energy(&mut evc, fx(7000.0));
    assert_eq!(evc.session_energy_kwh, fx(6553.5));
    set_evc_session_energy(&mut evc, fx(-1.0));
    assert_eq!(evc.session_energy_kwh, fx(0.0));
    assert_eq!(set_evc_port(0), Err("Port must be >= 1".to_string()));
    assert_eq!(set_evc_port(502), Ok(502));
}

#[test]
fn unplugging_ends_the_session() {
    let mut evc = plant().evc;
    evc.connection_status = 1;
    evc.charging_state = 4;
    evc.active_power_w = fx(7000.0);
    set_evc_cable_status(&mut evc, 0);
    assert_eq!(evc.connection_status, 0);
    assert_eq!(evc.active_power_w, fx(0.0));
    set_evc_cable_status(&mut evc, 5);
    assert_eq!(evc.connection_status, 1);
}

#[test]
fn client_settings_reach_the_live_charger() {
    let mut live = plant().evc;
    live.session_energy_kwh = fx(3.0);
    let mut shared = plant().evc;
    shared.charge_control = 1;
    shared.plug_and_go = 1;
    shared.enabled = true;
    sync_evc(&mut live, &shared);
    assert_eq!(live.charge_control, 1);
    assert_eq!(live.plug_and_go, 1);
    assert!(live.enabled);
    assert_eq!(live.session_energy_kwh, fx(3.0));
}

#[test]
fn dongle_modes_lead_back_to_their_names() {
    for name in ["Off", "EmptyData", "StaleData", "GarbageData", "DropConnection", "Intermittent"] {
        let m = set_dongle_misbehaviour(name).unwrap();
        assert_eq!(get_dongle_misbehaviour(m), name);
    }
    assert_eq!(
        set_dongle_misbehaviour("off").unwrap_err(),
        "Unknown dongle misbehaviour mode: off"
    );
}

#[test]
fn the_grid_port_goes_by_family() {
    let mut s = plant();
    s.inverter.export_limit_w = fx(1234.0);
    assert_eq!(get_grid_port_max_power(Some(&s)), Ok(fx(5000.0)));
    assert_eq!(get_grid_port_max_power(None), Err("No plant created".to_string()));
    assert_eq!(
        set_grid_port_max_power(Some(&s), fx(1.0)).unwrap_err(),
        LimitRefusal::ReadOnly
    );
    assert!(LimitRefusal::ReadOnly.text().contains("HR 26"));
    assert_eq!(set_grid_port_max_power(None, fx(1.0)).unwrap_err(), LimitRefusal::NoPlant);
    let e = set_grid_port_max_power(None, fx(-1.5)).unwrap_err();
    assert_eq!(e, LimitRefusal::Negative { watts: fx(-1.5) });
    assert_eq!(e.text(), "Watts must be a non-negative finite number, got -1.5");
    let e = set_grid_export_limit(None, fx(-2.0)).unwrap_err();
    assert_eq!(e.text(), "Watts must be a non-negative finite number, got -2");
    s.config.inverter_type = "ThreePhase".to_string();
    assert_eq!(get_grid_port_max_power(Some(&s)), Ok(fx(1234.0)));
    let (f, c) = set_grid_port_max_power(Some(&s), fx(9000.0)).unwrap();
    assert_eq!(f, GridPortPowerFamily::ThreePhase);
    assert!(matches!(c, Command::SetExportLimit(w) if w == fx(6500.0)));
    let c = set_grid_export_limit(Some(&s), fx(9000.0)).unwrap();
    assert!(matches!(c, Command::SetExportLimit(w) if w == fx(6500.0)));
    s.config.inverter_type = "Gen3Hybrid".to_string();
    let c = set_grid_export_limit(Some(&s), fx(9000.0)).unwrap();
    assert!(matches!(c, Command::SetExportLimit(w) if w == fx(9000.0)));
    let c = set_grid_export_limit(Some(&s), fx(-1.0)).unwrap();
    assert!(matches!(c, Command::SetExportLimit(w) if w == fx(0.0)));
    s.config.inverter_type = "ThreePhase".to_string();
    let c = set_grid_export_limit(Some(&s), fx(-5.0)).unwrap();
    assert!(matches!(c, Command::SetExportLimit(w) if w == fx(0.0)));
    assert_eq!(set_grid_export_limit(None, fx(1.0)).unwrap_err(), LimitRefusal::NoPlant);
}

#[test]
fn the_export_limit_shows_on_its_registers() {
    let mut s = plant();
    s.inverter.export_limit_w = fx(3680.0);
    let mut store = RegisterStore::new(default_register_catalogue());
    store.project_from_state(&s);
    assert_eq!(store.read_by_space(1063, RegisterSpace::Holding), Some(36800));
    assert_eq!(store.read_by_space(2071, RegisterSpace::Holding), Some(3680));
    let c = modbus_address_to_command(2071, 3680).unwrap();
    assert!(matches!(c, Command::SetExportLimit(w) if w == fx(3680.0)));
}

#[test]
fn inverter_types_are_told_apart() {
    assert_eq!(device_type_code("AllInOne"), 0x8002);
    assert!(is_three_phase_inverter("ACThreePhase"));
    assert!(!is_three_phase_inverter("Gen3Hybrid"));
    assert!(is_gateway_inverter("Gateway12kW"));
    assert!(!has_slot_2("Gen2Hybrid"));
    assert!(has_slot_2("Gen1Hybrid"));
    assert!(!uses_gen3_extended_slots("Gen1Hybrid"));
    assert!(uses_gen3_extended_slots("Polar5kW"));
}

fn write(address: u16, value: u16) -> ModbusCommand {
    ModbusCommand { address, value }
}

#[test]
fn register_writes_become_commands() {
    let c = |a: u16, v: u16| modbus_address_to_command(a, v);
    assert!(matches!(c(27, 1), Some(Command::SetInverterMode(InverterMode::Eco))));
    assert!(matches!(c(27, 7), Some(Command::SetInverterMode(InverterMode::Normal))));
    assert!(matches!(c(20, 1), Some(Command::SetEnableChargeTarget(true))));
    assert!(c(5, 1).is_none());
    assert!(is_schedule_register(94));
    assert!(!is_schedule_register(27));
}

#[test]
fn a_lone_pause_write_keeps_the_other_fields() {
    let mut s = plant();
    s.battery_pause_slot_start = 100;
    s.battery_pause_slot_end = 200;
    let mut clock: [Option<u16>; 6] = [None; 6];
    let d = drain_modbus_writes(&vec![write(318, 2)], &mut clock, &s);
    assert!(matches!(
        d.commands.last(),
        Some(Command::SetBatteryPause { mode: 2, start: 100, end: 200 })
    ));
    assert!(!d.schedule_dirty);
    assert_eq!(d.schedule_updates.get(&318), Some(&2));
}

#[test]
fn the_clock_waits_for_all_of_its_registers() {
    let s = plant();
    let mut clock: [Option<u16>; 6] = [None; 6];
    let d = drain_modbus_writes(
        &vec![write(35, 2025), write(36, 6), write(37, 1), write(38, 13)],
        &mut clock,
        &s,
    );
    assert!(d.commands.is_empty());
    assert_eq!(clock[3], Some(13));
    let d = drain_modbus_writes(&vec![write(39, 5), write(40, 9)], &mut clock, &s);
    assert!(matches!(
        d.commands.last(),
        Some(Command::SetSimulationTime(t)) if t.hour == 13 && t.minute == 5 && t.second == 9
    ));
    assert_eq!(clock, [None; 6]);
}

#[test]
fn a_clock_that_does_not_exist_is_dropped() {
    let s = plant();
    let mut clock: [Option<u16>; 6] = [Some(2025), Some(2), Some(30), Some(0), Some(0), None];
    let d = drain_modbus_writes(&vec![write(40, 0)], &mut clock, &s);
    assert!(d.commands.is_empty());
    assert_eq!(clock, [None; 6]);
}

#[test]
fn schedule_writes_are_gathered() {
    let s = plant();
    let mut clock: [Option<u16>; 6] = [None; 6];
    let d = drain_modbus_writes(
        &vec![write(94, 100), write(94, 130), write(95, 500)],
        &mut clock,
        &s,
    );
    assert!(d.schedule_dirty);
    assert_eq!(d.schedule_updates.get(&94), Some(&130));
    assert_eq!(d.schedule_updates.len(), 2);
}
