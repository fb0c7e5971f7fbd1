//! The register bank against plants, schedules and battery modules.
use givenergy_sim::catalogue::default_register_catalogue;
use givenergy_sim::commands::{create_plant, BatteryPlan, CreatePlantParams, WearModel};
use givenergy_sim::fixed::Fixed;
use givenergy_sim::registers::{Access, RegisterSpace, RegisterStore};
use givenergy_sim::schedule::{Schedule, Slot};
use givenergy_sim::state::{
    BatteryRecord, BatteryState, BatterySummary, DongleMisbehaviourMode, EnergyTotals, EvcState, GridState,
    InverterMode, InverterState, PlantConfig, PlantState, SolarState, Timestamp,
};

/// A quantity from a decimal number.
fn fx(v: f64) -> Fixed {
    Fixed::from_micros((v * 1_000_000.0).round() as i64)
}

/// A module as plants start with it: three years old.
fn module() -> BatteryState {
    BatteryState {
        soc_percent: fx(50.0),
        power_kw: fx(0.0),
        voltage_v: fx(51.2),
        current_a: fx(0.0),
        temperature_celsius: fx(25.0),
        capacity_kwh: fx(7.619),
        nominal_capacity_kwh: fx(9.5),
        soh: fx(0.802),
        cycle_count: fx(0.0),
        throughput_kwh: fx(9405.0),
        max_charge_kw: fx(3.6),
        max_discharge_kw: fx(3.6),
        charge_efficiency: fx(0.95),
        discharge_efficiency: fx(0.95),
    }
}

/// Derives the battery's summary from its modules.
fn sync(s: &mut PlantState) {
    let mut capacity: f64 = 0.0;
    let mut charge: f64 = 0.0;
    let mut power: f64 = 0.0;
    let mut heat: f64 = 0.0;
    let mut limit: f64 = 0.0;
    for b in &s.batteries {
        capacity += val(b.capacity_kwh);
        charge += val(b.soc_percent) * val(b.capacity_kwh);
        power += val(b.power_kw);
        heat += val(b.temperature_celsius);
        limit += val(b.max_charge_kw) * 1000.0;
    }
    s.battery = BatterySummary {
        soc_percent: fx(charge / capacity),
        power_kw: fx(power),
        temperature_celsius: fx(heat / s.batteries.len() as f64),
        capacity_kwh: fx(capacity),
        max_charge_w: fx(limit),
        max_discharge_w: fx(limit),
        min_soc_percent: fx(4.0),
        max_soc_percent: fx(100.0),
    };
    s.battery_record =
        BatteryRecord { soc_percent: s.battery.soc_percent, power_kw: s.battery.power_kw };
}

/// A quantity as a decimal number.
fn val(q: Fixed) -> f64 {
    q.micros() as f64 / 1_000_000.0
}

/// A new plant with so many modules, at noon of the first of June 2025.
fn plant_with(count: usize) -> PlantState {
    let zero = fx(0.0);
    let mut s = PlantState {
        timestamp: Timestamp { year: 2025, month: 6, day: 1, hour: 12, minute: 0, second: 0, nanosecond: 0 },
        config: PlantConfig {
            inverter_type: "Gen3Hybrid".to_string(),
            ct_meter_installed: false,
            solar_peak_watts: fx(5000.0),
            pv2_peak_watts: zero,
            max_ac_watts: fx(5000.0),
            latitude: fx(51.5),
            tick_interval_secs: 60,
            gateway_fw_version: 9,
            parallel_aio_num: 1,
        },
        inverter: InverterState {
            mode: InverterMode::Normal,
            effective_mode: InverterMode::Normal,
            ac_power_w: zero,
            export_limit_w: zero,
            temperature_celsius: fx(35.0),
            temperature_override: None,
            work_time_hours: fx(26_280.0),
            dsp_firmware_version: 449,
            arm_firmware_version: 0,
            battery_self_heating: false,
            manual_battery_heater: false,
        },
        batteries: vec![module(); count],
        battery: BatterySummary {
            soc_percent: zero,
            power_kw: zero,
            temperature_celsius: zero,
            capacity_kwh: zero,
            max_charge_w: zero,
            max_discharge_w: zero,
            min_soc_percent: zero,
            max_soc_percent: zero,
        },
        battery_record: BatteryRecord { soc_percent: zero, power_kw: zero },
        solar: SolarState { generation_w: zero, pv1_w: zero, pv2_w: zero },
        load_demand_w: zero,
        grid: GridState { power_w: zero, connected: true },
        energy_totals: EnergyTotals {
            grid_import_kwh: zero,
            grid_export_kwh: zero,
            battery_charge_kwh: zero,
            battery_discharge_kwh: zero,
            solar_generation_kwh: zero,
            solar_lifetime_kwh: zero,
            load_consumption_kwh: zero,
            ac_charge_kwh: zero,
            inverter_output_kwh: zero,
        },
        evc: EvcState {
            enabled: false,
            charge_control: 0,
            charge_current_limit: 320,
            plug_and_go: 0,
            connection_status: 0,
            charging_state: 0,
            active_power_w: zero,
            active_power_l1: zero,
            active_power_l2: zero,
            active_power_l3: zero,
            current_l1: zero,
            current_l2: zero,
            current_l3: zero,
            session_energy_kwh: zero,
            session_duration_secs: 0,
        },
        active_faults: Vec::new(),
        weather: "Clear".to_string(),
        solar_override: None,
        load_override: None,
        active_power_rate_percent: fx(100.0),
        battery_charge_limit_percent: fx(100.0),
        battery_discharge_limit_percent: fx(100.0),
        battery_discharge_min_power_reserve: fx(4.0),
        battery_pause_mode: 0,
        battery_pause_slot_start: 60,
        battery_pause_slot_end: 60,
        export_priority: 0,
        calibration_stage: 0,
        manual_soc_hold_ticks: 0,
        scheduled_charge: false,
        scheduled_discharge: false,
        enable_charge_target: false,
        enable_rtc: false,
        enable_eps: false,
        enable_inverter_parallel_mode: false,
        ems_enabled: false,
        dongle_misbehaviour: DongleMisbehaviourMode::Off,
    };
    sync(&mut s);
    s
}

/// A new plant with one module.
fn plant() -> PlantState {
    plant_with(1)
}

/// A schedule without any window.
fn default_schedule() -> Schedule {
    let charge = Slot { start: fx(0.0), end: fx(0.0), target_soc: fx(100.0) };
    let discharge = Slot { start: fx(0.0), end: fx(0.0), target_soc: fx(4.0) };
    Schedule {
        charge: [charge; 10],
        discharge: [discharge; 10],
        export: [discharge; 3],
        enable_charge: false,
        enable_discharge: false,
        raw_times: Vec::new(),
    }
}

/// The number of modules of a plant for which so many are asked.
fn planned_modules(count: usize) -> usize {
    let params = CreatePlantParams {
        battery_count: Some(count),
        battery_modules: None,
        peak_watts: None,
        pv2_peak_watts: None,
        latitude: None,
        load_profile: None,
        tick_interval: None,
        inverter_type: None,
        ct_meter_installed: None,
    };
    let wear = WearModel { degradation_per_cycle: fx(0.0002), cycles_per_year: fx(330.0) };
    match create_plant(&params, fx(3600.0), &wear).batteries {
        BatteryPlan::Count(n) => n,
        BatteryPlan::Modules(v) => v.len(),
    }
}

#[test]
fn project_maps_state_to_registers() {
    let mut state = plant();
    state.solar.generation_w = fx(3500.0);
    state.batteries[0].soc_percent = fx(75.0);
    sync(&mut state);

    let mut store = RegisterStore::new(default_register_catalogue());
    store.project_from_state(&state);

    assert_eq!(store.read(300), Some(3500)); // pv_generation
    assert_eq!(store.read(200), Some(75)); // battery_soc (aggregate)
}

#[test]
fn write_respects_access_control() {
    let mut store = RegisterStore::new(default_register_catalogue());
    assert!(store.write(100, 2)); // inverter_mode = ReadWrite
    assert!(!store.write(200, 50)); // battery_soc = ReadOnly
}

#[test]
fn snapshot_captures_all_registers() {
    let state = plant();

    let mut store = RegisterStore::new(default_register_catalogue());
    store.project_from_state(&state);

    let snap = store.snapshot();
    assert_eq!(snap.len(), default_register_catalogue().len());
}

#[test]
fn project_maps_inverter_mode() {
    let mut state = plant();
    state.inverter.effective_mode = InverterMode::ForceCharge;

    let mut store = RegisterStore::new(default_register_catalogue());
    store.project_from_state(&state);

    assert_eq!(store.read(100), Some(2)); // ForceCharge = 2
}

#[test]
fn project_maps_negative_grid_power() {
    let mut state = plant();
    state.grid.power_w = fx(-1500.0);

    let mut store = RegisterStore::new(default_register_catalogue());
    store.project_from_state(&state);

    let raw = store.read(400).unwrap();
    let signed = raw as i16;
    assert!(signed < 0, "Expected negative grid power, got {signed}");
}

#[test]
fn multi_battery_registers() {
    let mut state = plant_with(3);
    state.batteries[0].soc_percent = fx(60.0);
    state.batteries[1].soc_percent = fx(70.0);
    state.batteries[2].soc_percent = fx(80.0);
    sync(&mut state);

    let mut store = RegisterStore::new(default_register_catalogue());
    store.project_from_state(&state);

    assert_eq!(store.read(200), Some(70)); // aggregate SOC-weighted avg
    assert_eq!(store.read(201), Some(70)); // battery 2 SOC
    assert_eq!(store.read(202), Some(80)); // battery 3 SOC
}

#[test]
fn supports_up_to_six_battery_modules() {
    let state = plant_with(6);
    assert_eq!(state.batteries.len(), 6, "6 modules should be created");
    assert_eq!(planned_modules(6), 6);
    assert_eq!(planned_modules(99), 6);

    let store = RegisterStore::new(default_register_catalogue());
    for i in 0..6 {
        let bms = store.project_battery_bms(&state.batteries[i], i);
        assert_ne!(bms[0], 0, "module {i} BMS data must be populated");
    }
}

#[test]
fn hv_bms_discovery_reports_one_bcu() {
    let store = RegisterStore::new(default_register_catalogue());
    let bms = store.project_battery_bms_discovery(1);
    assert_eq!(bms[0], 1, "IR(60) BMS version nibble must be non-zero");
    assert_eq!(bms[1], 1, "IR(61) must report 1 BCU for a single stack");
}

#[test]
fn hv_bcu_cluster_decodes_valid_and_aggregates_modules() {
    let mut state = plant_with(5);
    for b in &mut state.batteries {
        b.soc_percent = fx(60.0);
        b.voltage_v = fx(51.2);
        b.soh = fx(0.95);
        b.nominal_capacity_kwh = fx(3.4);
        b.capacity_kwh = fx(val(b.nominal_capacity_kwh) * val(b.soh));
    }
    sync(&mut state);

    let store = RegisterStore::new(default_register_catalogue());
    let bcu = store.project_battery_bcu(&state.batteries);

    let prefix = [bcu[0], bcu[1]]
        .iter()
        .flat_map(|v| v.to_be_bytes())
        .map(|b| b as char)
        .collect::<String>();
    assert_eq!(prefix, "HV00", "version prefix must be non-blank");

    assert_eq!(bcu[4], 5, "IR(64) must report 5 modules");
    assert_eq!(bcu[5], 24, "IR(65) must report 24 cells/module");
    assert_eq!(
        bcu[13], 2560,
        "IR(73) stack voltage must sum module voltages"
    );
    assert_eq!(bcu[20], (60 << 8) | 60, "IR(80) SOC max/min");
    assert_eq!(bcu[21], 95, "IR(81) SOH");
    assert_eq!(bcu[38], 443, "IR(98) per-module nominal Ah from 3.4 kWh");
    assert_eq!(bcu[39], 266, "IR(99) remaining capacity scales with SOC");
}

#[test]
fn hv_bmu_per_module_decodes_valid_serial_and_cells() {
    let state = plant_with(5);
    let store = RegisterStore::new(default_register_catalogue());

    for m in 0..5 {
        let bmu = store.project_battery_bmu(&state.batteries[m], m);
        for (i, &v) in bmu.iter().take(24).enumerate() {
            assert_ne!(v, 0, "module {m} cell {i} voltage must be non-zero");
        }
        for (i, &v) in bmu.iter().skip(30).take(24).enumerate() {
            assert_ne!(v, 0, "module {m} cell {i} temp must be non-zero");
        }
        let sn_bytes: Vec<u8> = (0..5).flat_map(|r| bmu[54 + r].to_be_bytes()).collect();
        assert!(
            sn_bytes.iter().any(|&b| b != b' ' && b != 0),
            "module {m} serial must be non-blank for Bmu.is_valid()"
        );
    }
}

#[test]
fn givenergy_input_registers_populated() {
    let mut state = plant();
    state.solar.generation_w = fx(4000.0);
    state.solar.pv1_w = fx(4000.0);
    state.solar.pv2_w = fx(0.0);
    state.grid.power_w = fx(-500.0);
    state.batteries[0].soc_percent = fx(65.0);
    sync(&mut state);

    let mut store = RegisterStore::new(default_register_catalogue());
    store.project_from_state(&state);

    assert_eq!(store.read_by_space(0, RegisterSpace::Input), Some(1)); // status
    assert_eq!(store.read_by_space(1, RegisterSpace::Input), Some(3500)); // PV1 voltage ×0.1
    assert_eq!(store.read_by_space(18, RegisterSpace::Input), Some(4000)); // PV1 power (4000W on array 1)
    assert_eq!(store.read_by_space(59, RegisterSpace::Input), Some(65)); // SOC
}

#[test]
fn givenergy_holding_registers_populated() {
    let mut state = plant();
    state.inverter.effective_mode = InverterMode::Eco;

    let mut store = RegisterStore::new(default_register_catalogue());
    store.project_from_state(&state);

    assert_eq!(store.read_by_space(27, RegisterSpace::Holding), Some(1));
    assert_eq!(store.read_by_space(0, RegisterSpace::Holding), Some(0x2001));
}

#[test]
fn input_and_holding_dont_collide() {
    let state = plant();
    let mut store = RegisterStore::new(default_register_catalogue());
    store.project_from_state(&state);

    let ir0 = store.read_by_space(0, RegisterSpace::Input);
    let hr0 = store.read_by_space(0, RegisterSpace::Holding);
    assert_eq!(ir0, Some(1));
    assert_eq!(hr0, Some(0x2001));
    assert_ne!(ir0, hr0, "IR 0 and HR 0 must not collide");
}

#[test]
fn ge_input_reference_energy_registers_project() {
    let mut state = plant();
    state.energy_totals.solar_generation_kwh = fx(12.5);
    state.energy_totals.solar_lifetime_kwh = fx(12.5);
    state.energy_totals.inverter_output_kwh = fx(12.5);
    state.energy_totals.grid_export_kwh = fx(3.0);
    state.energy_totals.grid_import_kwh = fx(1.5);
    state.energy_totals.ac_charge_kwh = fx(0.7);
    state.batteries[0].throughput_kwh = fx(8.4);
    sync(&mut state);

    let mut store = RegisterStore::new(default_register_catalogue());
    store.project_from_state(&state);

    assert_eq!(store.read_by_space(6, RegisterSpace::Input), Some(0));
    assert_eq!(store.read_by_space(7, RegisterSpace::Input), Some(84));
    assert_eq!(store.read_by_space(11, RegisterSpace::Input), Some(0));
    assert_eq!(store.read_by_space(12, RegisterSpace::Input), Some(125));
    assert_eq!(store.read_by_space(21, RegisterSpace::Input), Some(0));
    assert_eq!(store.read_by_space(22, RegisterSpace::Input), Some(30));
    assert_eq!(store.read_by_space(32, RegisterSpace::Input), Some(0));
    assert_eq!(store.read_by_space(33, RegisterSpace::Input), Some(15));
    assert_eq!(store.read_by_space(35, RegisterSpace::Input), Some(7));
    assert_eq!(store.read_by_space(44, RegisterSpace::Input), Some(125));
    assert_eq!(store.read_by_space(45, RegisterSpace::Input), Some(0));
    assert_eq!(store.read_by_space(46, RegisterSpace::Input), Some(125));
}

#[test]
fn ir_11_12_pv_total_reads_lifetime_not_daily() {
    let mut state = plant();
    state.energy_totals.solar_generation_kwh = fx(0.0); // today is empty
    state.energy_totals.solar_lifetime_kwh = fx(12345.0); // baseline + prior days

    let mut store = RegisterStore::new(default_register_catalogue());
    store.project_from_state(&state);

    let raw = (12345.0_f64 * 10.0).round() as u32; // ×0.1 kWh scaling
    assert_eq!(
        store.read_by_space(11, RegisterSpace::Input),
        Some((raw >> 16) as u16)
    );
    assert_eq!(
        store.read_by_space(12, RegisterSpace::Input),
        Some((raw & 0xFFFF) as u16)
    );
}

#[test]
fn ir_1374_1375_tph_pv_total_reads_lifetime_not_daily() {
    let mut state = plant();
    state.config.inverter_type = "ThreePhase11kW".to_string();
    state.energy_totals.solar_generation_kwh = fx(0.0);
    state.energy_totals.solar_lifetime_kwh = fx(12345.0);

    let mut store = RegisterStore::new(default_register_catalogue());
    store.project_from_state(&state);

    let raw = (12345.0_f64 * 10.0).round() as u32;
    assert_eq!(
        store.read_by_space(1374, RegisterSpace::Input),
        Some((raw >> 16) as u16)
    );
    assert_eq!(
        store.read_by_space(1375, RegisterSpace::Input),
        Some((raw & 0xFFFF) as u16)
    );
}

#[test]
fn zero_energy_state_projects_zero_energy_registers_for_all_inverter_types() {
    let inverter_types = [
        "Gen1Hybrid",
        "Gen2Hybrid",
        "Gen3Hybrid",
        "Gen3Hybrid8kW",
        "Gen3Hybrid10kW",
        "Gen3Plus6kW",
        "Gen3Plus4600",
        "Gen3Plus3600",
        "Gen3Plus6kW2",
        "ACCoupled",
        "ACCoupled2",
        "ThreePhase",
        "ThreePhase8kW",
        "ThreePhase10kW",
        "ThreePhase11kW",
        "ACThreePhase",
        "AllInOne6",
        "AllInOne",
        "AllInOne5",
        "AIO8kW",
        "AIO10kW",
        "AIOHybrid6kW",
        "AIOHybrid8kW",
        "AIOHybrid10kW",
    ];

    for inv_type in inverter_types {
        let mut state = plant();
        state.config.inverter_type = inv_type.to_string();
        let mut store = RegisterStore::new(default_register_catalogue());
        store.project_from_state(&state);

        assert_eq!(
            store.read_by_space(17, RegisterSpace::Input).unwrap_or(0),
            0,
            "{inv_type}: PV today should be zero when no energy has been generated"
        );
        assert_eq!(
            store.read_by_space(25, RegisterSpace::Input).unwrap_or(0),
            0,
            "{inv_type}: grid export today should be zero"
        );
        assert_eq!(
            store.read_by_space(26, RegisterSpace::Input).unwrap_or(0),
            0,
            "{inv_type}: grid import today should be zero"
        );
        assert_eq!(
            store.read_by_space(36, RegisterSpace::Input).unwrap_or(0),
            0,
            "{inv_type}: battery charge today should be zero"
        );
        assert_eq!(
            store.read_by_space(37, RegisterSpace::Input).unwrap_or(0),
            0,
            "{inv_type}: battery discharge today should be zero"
        );
        assert_eq!(
            store.read_by_space(44, RegisterSpace::Input).unwrap_or(0),
            0,
            "{inv_type}: PV generation today should be zero"
        );

        if inv_type.starts_with("ThreePhase") || inv_type == "ACThreePhase" {
            assert_eq!(
                read_u32_ir(&store, 1366, 1367),
                0,
                "{inv_type}: 3-phase PV1 today should be zero"
            );
            assert_eq!(
                read_u32_ir(&store, 1380, 1381),
                0,
                "{inv_type}: 3-phase grid import today should be zero"
            );
            assert_eq!(
                read_u32_ir(&store, 1384, 1385),
                0,
                "{inv_type}: 3-phase grid export today should be zero"
            );
            assert_eq!(
                read_u32_ir(&store, 1388, 1389),
                0,
                "{inv_type}: 3-phase battery discharge today should be zero"
            );
            assert_eq!(
                read_u32_ir(&store, 1392, 1393),
                0,
                "{inv_type}: 3-phase battery charge today should be zero"
            );
            assert_eq!(
                read_u32_ir(&store, 1396, 1397),
                0,
                "{inv_type}: 3-phase load today should be zero"
            );
        }
    }
}

#[test]
fn gen1_hybrid_uses_real_hybrid_dtc_with_gen1_firmware_century() {
    let mut s = plant();
    s.config.inverter_type = "Gen1Hybrid".to_string();
    let mut store = RegisterStore::new(default_register_catalogue());
    store.project_from_state(&s);
    assert_eq!(store.read_by_space(0, RegisterSpace::Holding), Some(0x2001));
    assert_eq!(store.read_by_space(21, RegisterSpace::Holding), Some(252));
}

#[test]
fn gen2_hybrid_shares_family_dtc_but_reports_century_8_firmware() {
    let mut s = plant();
    s.config.inverter_type = "Gen2Hybrid".to_string();
    let mut store = RegisterStore::new(default_register_catalogue());
    store.project_from_state(&s);
    assert_eq!(store.read_by_space(0, RegisterSpace::Holding), Some(0x2001));
    assert_eq!(store.read_by_space(21, RegisterSpace::Holding), Some(852));
}

#[test]
fn dsp_firmware_projects_from_inverter_state() {
    let mut s = plant();
    s.inverter.dsp_firmware_version = 1234;
    let mut store = RegisterStore::new(default_register_catalogue());
    store.project_from_state(&s);
    assert_eq!(store.read_by_space(19, RegisterSpace::Holding), Some(1234));
}

#[test]
fn arm_firmware_override_takes_precedence_over_type_default() {
    let mut s = plant();
    s.config.inverter_type = "Gen3Hybrid".to_string();
    s.inverter.arm_firmware_version = 852;
    let mut store = RegisterStore::new(default_register_catalogue());
    store.project_from_state(&s);
    assert_eq!(store.read_by_space(21, RegisterSpace::Holding), Some(852));
}

#[test]
fn arm_firmware_falls_back_to_type_default_when_zero() {
    let mut s = plant();
    s.config.inverter_type = "Gen3Hybrid".to_string();
    s.inverter.arm_firmware_version = 0; // sentinel: use type default
    let mut store = RegisterStore::new(default_register_catalogue());
    store.project_from_state(&s);
    assert_eq!(store.read_by_space(21, RegisterSpace::Holding), Some(318));
}

#[test]
fn extended_givtcp_schedule_registers_are_catalogued_and_projected() {
    let mut store = RegisterStore::new(default_register_catalogue());
    let mut sched = default_schedule();
    sched.charge[0].start = fx(1.5);
    sched.charge[0].end = fx(2.5);
    sched.charge[1].start = fx(3.0);
    sched.charge[1].end = fx(4.0);
    sched.charge[0].target_soc = fx(80.0);
    sched.charge[1].target_soc = fx(90.0);
    sched.discharge[0].start = fx(18.0);
    sched.discharge[0].end = fx(19.0);
    sched.discharge[1].start = fx(20.0);
    sched.discharge[1].end = fx(21.0);
    sched.discharge[0].target_soc = fx(20.0);
    sched.discharge[1].target_soc = fx(30.0);
    sched.enable_charge = true;
    sched.enable_discharge = true;

    store.project_schedule(&sched);

    for addr in [
        242, 243, 244, 245, 272, 275, 1109, 1111, 1112, 1113, 1114, 1115, 1116, 1118, 1119,
        1120, 1121, 1122, 1123,
    ] {
        assert!(
            store.write(addr, 42),
            "HR {addr} should be catalogued ReadWrite"
        );
    }
    store.project_schedule(&sched);
    assert_eq!(store.read_by_space(242, RegisterSpace::Holding), Some(80));
    assert_eq!(store.read_by_space(243, RegisterSpace::Holding), Some(300));
    assert_eq!(store.read_by_space(244, RegisterSpace::Holding), Some(400));
    assert_eq!(store.read_by_space(245, RegisterSpace::Holding), Some(90));
    assert_eq!(store.read_by_space(272, RegisterSpace::Holding), Some(20));
    assert_eq!(store.read_by_space(275, RegisterSpace::Holding), Some(30));
    assert_eq!(store.read_by_space(1109, RegisterSpace::Holding), Some(4));
    assert_eq!(store.read_by_space(1111, RegisterSpace::Holding), Some(80));
    assert_eq!(store.read_by_space(1113, RegisterSpace::Holding), Some(130));
    assert_eq!(store.read_by_space(1115, RegisterSpace::Holding), Some(300));
    assert_eq!(store.read_by_space(1122, RegisterSpace::Holding), Some(42));
    assert_eq!(store.read_by_space(1123, RegisterSpace::Holding), Some(42));
}

fn make_state() -> PlantState {
    let mut s = plant();
    s.solar.generation_w = fx(4000.0);
    s.grid.power_w = fx(-800.0);
    s.batteries[0].soc_percent = fx(75.0);
    sync(&mut s);
    s
}

#[test]
fn ge_holding_system_time_registers() {
    let state = make_state();
    let mut store = RegisterStore::new(default_register_catalogue());
    store.project_from_state(&state);
    assert_eq!(store.read_by_space(35, RegisterSpace::Holding), Some(2025));
    assert_eq!(store.read_by_space(36, RegisterSpace::Holding), Some(6));
    assert_eq!(store.read_by_space(37, RegisterSpace::Holding), Some(1));
    assert_eq!(store.read_by_space(38, RegisterSpace::Holding), Some(12));
    assert_eq!(store.read_by_space(39, RegisterSpace::Holding), Some(0));
    assert_eq!(store.read_by_space(40, RegisterSpace::Holding), Some(0));
}

#[test]
fn ge_holding_schedule_slots_disabled_by_default() {
    let state = make_state();
    let mut store = RegisterStore::new(default_register_catalogue());
    store.project_from_state(&state);
    for addr in [31, 32, 44, 45, 56, 57, 94, 95] {
        assert_eq!(
            store.read_by_space(addr, RegisterSpace::Holding),
            Some(60),
            "HR {addr} should be 60 (disabled)"
        );
    }
}

#[test]
fn ge_holding_pause_mode_disabled() {
    let state = make_state();
    let mut store = RegisterStore::new(default_register_catalogue());
    store.project_from_state(&state);
    assert_eq!(store.read_by_space(318, RegisterSpace::Holding), Some(0));
    assert_eq!(store.read_by_space(319, RegisterSpace::Holding), Some(60));
    assert_eq!(store.read_by_space(320, RegisterSpace::Holding), Some(60));
}

#[test]
fn ge_holding_calibration_and_reboot() {
    let state = make_state();
    let mut store = RegisterStore::new(default_register_catalogue());
    store.project_from_state(&state);
    assert_eq!(store.read_by_space(29, RegisterSpace::Holding), Some(0));
    assert_eq!(store.read_by_space(163, RegisterSpace::Holding), Some(0));
}

#[test]
fn power_limit_registers_default_to_100_percent() {
    let state = plant();
    let mut store = RegisterStore::new(default_register_catalogue());
    store.project_from_state(&state);
    assert_eq!(store.read_by_space(111, RegisterSpace::Holding), Some(100));
    assert_eq!(store.read_by_space(112, RegisterSpace::Holding), Some(100));
    assert_eq!(store.read_by_space(313, RegisterSpace::Holding), Some(100));
    assert_eq!(store.read_by_space(314, RegisterSpace::Holding), Some(100));
    assert_eq!(store.read_by_space(1108, RegisterSpace::Holding), Some(100));
    assert_eq!(store.read_by_space(1110, RegisterSpace::Holding), Some(100));
}

#[test]
fn new_reference_input_registers_project_from_state() {
    let mut state = make_state();
    state.inverter.ac_power_w = fx(3200.0);
    state.load_demand_w = fx(1250.0);
    state.inverter.work_time_hours = fx(1234.0);
    state.solar.generation_w = fx(4321.0);
    state.energy_totals.battery_charge_kwh = fx(5.5);
    state.energy_totals.battery_discharge_kwh = fx(4.4);
    state.active_faults.push("grid_loss".to_string());

    let mut store = RegisterStore::new(default_register_catalogue());
    store.project_from_state(&state);

    assert_eq!(store.read_by_space(24, RegisterSpace::Input), Some(3200));
    assert_eq!(store.read_by_space(42, RegisterSpace::Input), Some(1250));
    assert_eq!(store.read_by_space(43, RegisterSpace::Input), Some(3200));
    assert_eq!(store.read_by_space(47, RegisterSpace::Input), Some(0));
    assert_eq!(store.read_by_space(48, RegisterSpace::Input), Some(1234));
    let seeded_throughput_kwh = val(state.batteries[0].throughput_kwh);
    let alt1_raw = (seeded_throughput_kwh / 2.0 * 10.0).round() as u16;
    assert_eq!(
        store.read_by_space(180, RegisterSpace::Input),
        Some(alt1_raw)
    );
    assert_eq!(
        store.read_by_space(181, RegisterSpace::Input),
        Some(alt1_raw)
    );
    assert_eq!(store.read_by_space(182, RegisterSpace::Input), Some(44));
    assert_eq!(store.read_by_space(183, RegisterSpace::Input), Some(55));
    assert_eq!(store.read_by_space(247, RegisterSpace::Input), Some(0));
    assert_eq!(store.read_by_space(248, RegisterSpace::Input), Some(4321));

    let fault_code = ((store.read_by_space(39, RegisterSpace::Input).unwrap() as u32) << 16)
        | store.read_by_space(40, RegisterSpace::Input).unwrap() as u32;
    assert_ne!(fault_code, 0, "active faults should project into IR 39-40");
}

#[test]
fn inverter_parallel_mode_register_is_projected_and_writable() {
    let mut state = make_state();
    state.enable_inverter_parallel_mode = true;
    let mut store = RegisterStore::new(default_register_catalogue());
    store.project_from_state(&state);
    assert_eq!(store.read_by_space(199, RegisterSpace::Holding), Some(1));
    assert!(store.write(199, 0));
}

#[test]
fn high_energy_alt_holding_registers_project() {
    let mut state = make_state();
    state.config.solar_peak_watts = fx(6000.0);
    state.energy_totals.battery_charge_kwh = fx(2.5);
    state.energy_totals.battery_discharge_kwh = fx(3.5);
    state.energy_totals.grid_export_kwh = fx(4.5);
    let mut store = RegisterStore::new(default_register_catalogue());
    store.project_from_state(&state);

    assert_eq!(store.read_by_space(4107, RegisterSpace::Holding), Some(0));
    assert_eq!(
        store.read_by_space(4108, RegisterSpace::Holding),
        Some(6000)
    );
    let seeded_throughput_kwh = val(state.batteries[0].throughput_kwh);
    let alt2_raw = (seeded_throughput_kwh / 2.0 * 10.0).round() as u16;
    assert_eq!(store.read_by_space(4109, RegisterSpace::Holding), Some(0));
    assert_eq!(
        store.read_by_space(4110, RegisterSpace::Holding),
        Some(alt2_raw)
    );
    assert_eq!(store.read_by_space(4111, RegisterSpace::Holding), Some(0));
    assert_eq!(
        store.read_by_space(4112, RegisterSpace::Holding),
        Some(alt2_raw)
    );
    assert_eq!(store.read_by_space(4113, RegisterSpace::Holding), Some(35));
    assert_eq!(store.read_by_space(4114, RegisterSpace::Holding), Some(25));
    assert_eq!(store.read_by_space(4141, RegisterSpace::Holding), Some(0));
    assert_eq!(store.read_by_space(4142, RegisterSpace::Holding), Some(45));
}

#[test]
fn ge_holding_all_safe_write_regs_accept_writes() {
    let mut store = RegisterStore::new(default_register_catalogue());
    let addrs: &[u16] = &[
        20, 27, 29, 31, 32, 35, 36, 37, 38, 39, 40, 44, 45, 50, 56, 57, 59, 94, 95, 96, 110,
        111, 112, 116, 163, 318, 319, 320,
    ];
    for &addr in addrs {
        assert!(store.write(addr, 42), "HR {addr} should accept writes");
        assert_eq!(store.read(addr), Some(42), "HR {addr} should read back");
    }
}

#[test]
fn ge_input_battery_power_negative_when_charging() {
    let mut state = make_state();
    state.batteries[0].power_kw = fx(2.0);
    sync(&mut state);
    let mut store = RegisterStore::new(default_register_catalogue());
    store.project_from_state(&state);
    let raw = store.read_by_space(52, RegisterSpace::Input).unwrap();
    assert!((raw as i16) < 0, "IR 52 should be negative when charging");
}

#[test]
fn ge_input_battery_current_negative_when_charging() {
    let mut state = make_state();
    state.batteries[0].power_kw = fx(2.0);
    sync(&mut state);
    let mut store = RegisterStore::new(default_register_catalogue());
    store.project_from_state(&state);
    let raw = store.read_by_space(51, RegisterSpace::Input).unwrap();
    assert!((raw as i16) < 0, "IR 51 should be negative when charging");
}

#[test]
fn ge_input_battery_power_positive_when_discharging() {
    let mut state = make_state();
    state.batteries[0].power_kw = fx(-2.0);
    sync(&mut state);
    let mut store = RegisterStore::new(default_register_catalogue());
    store.project_from_state(&state);
    let raw = store.read_by_space(52, RegisterSpace::Input).unwrap();
    assert!(
        (raw as i16) > 0,
        "IR 52 should be positive when discharging"
    );
}

#[test]
fn catalogue_contains_all_safe_write_registers() {
    let cat = default_register_catalogue();
    let addrs: &[u16] = &[
        20, 27, 29, 31, 32, 35, 36, 37, 38, 39, 40, 44, 45, 50, 56, 57, 59, 94, 95, 96, 110,
        111, 112, 116, 163, 318, 319, 320,
    ];
    for &addr in addrs {
        let found = cat
            .iter()
            .any(|d| d.address == addr && d.access == Access::ReadWrite);
        assert!(found, "HR {addr} must be in catalogue as ReadWrite");
    }
}

#[test]
fn battery_bms_projects_valid_data() {
    let state = make_state();
    let bms = RegisterStore::new(default_register_catalogue());
    let result = bms.project_battery_bms(&state.batteries[0], 0);
    assert_eq!(result[40], val(state.batteries[0].soc_percent).round() as u16);
    assert_eq!(result[37], 16);
    let v = ((result[22] as u32) << 16) | result[23] as u32;
    assert!(
        v > 40000 && v < 60000,
        "Voltage should be 40-60V, got {v} mV"
    );
    assert_eq!(result[36], 0);
    assert!(
        result[50] > 0 || result[51] > 0,
        "Serial should be non-empty"
    );
}

#[test]
fn battery_bms_projects_status_cap_design2_and_usb() {
    let mut state = make_state();
    state.batteries[0].power_kw = fx(1.2);
    state.batteries[0].nominal_capacity_kwh = fx(9.5);
    sync(&mut state);
    let bms = RegisterStore::new(default_register_catalogue());
    let result = bms.project_battery_bms(&state.batteries[0], 0);

    assert_eq!(
        result[30] >> 8,
        1,
        "IR 90 status_1 should indicate charging"
    );
    assert_eq!(result[31], 0x0E10, "IR 91 status_3/status_4 default");
    assert_eq!(result[34], 0, "IR 94 warnings default healthy");
    let cap_design = ((result[26] as u32) << 16) | result[27] as u32;
    let cap_design2 = ((result[41] as u32) << 16) | result[42] as u32;
    assert_eq!(
        cap_design2, cap_design,
        "IR 101-102 mirrors design capacity"
    );
    assert_eq!(
        result[55], 1,
        "IR 115 usb_device_inserted defaults to WiFi/raw 1"
    );
}

#[test]
fn battery_bms_projects_multi_module() {
    let mut state = make_state();
    let mut b2 = state.batteries[0].clone();
    b2.soc_percent = fx(30.0);
    b2.voltage_v = fx(46.0);
    state.batteries.push(b2);
    sync(&mut state);

    let bms = RegisterStore::new(default_register_catalogue());
    let bms0 = bms.project_battery_bms(&state.batteries[0], 0);
    let bms1 = bms.project_battery_bms(&state.batteries[1], 1);
    assert_eq!(bms0[40], 75); // module 0 SOC
    assert_eq!(bms1[40], 30); // module 1 SOC
    assert_ne!(bms0[53], bms1[53], "Serials should differ");
}

#[test]
fn inverter_dtc_projects_correctly() {

    let mut s = plant();
    s.config.inverter_type = "Gen3Hybrid".to_string();
    let mut store = RegisterStore::new(default_register_catalogue());
    store.project_from_state(&s);
    assert_eq!(store.read_by_space(0, RegisterSpace::Holding), Some(0x2001));

    s.config.inverter_type = "AllInOne".to_string();
    let mut store = RegisterStore::new(default_register_catalogue());
    store.project_from_state(&s);
    assert_eq!(store.read_by_space(0, RegisterSpace::Holding), Some(0x8002));

    s.config.inverter_type = "ThreePhase".to_string();
    let mut store = RegisterStore::new(default_register_catalogue());
    store.project_from_state(&s);
    assert_eq!(store.read_by_space(0, RegisterSpace::Holding), Some(0x4001));
}

#[test]
fn battery_capacity_ah_reflects_total_kwh() {
    let mut s = plant();
    s.batteries[0].capacity_kwh = fx(9.5);
    s.config.inverter_type = "Gen3Hybrid".to_string();
    sync(&mut s);
    let mut store = RegisterStore::new(default_register_catalogue());
    store.project_from_state(&s);
    let ah = store.read_by_space(55, RegisterSpace::Holding).unwrap_or(0);
    assert!(
        ah > 150 && ah < 220,
        "Expected ~185 Ah for 9.5kWh @ 51.2V, got {ah}"
    );
}

#[test]
fn serial_number_registers_populated() {
    let mut store = RegisterStore::new(default_register_catalogue());
    store.project_from_state(&plant());
    for addr in 13..=17 {
        let val = store.read_by_space(addr, RegisterSpace::Holding);
        assert!(
            val.is_some() && val.unwrap() > 0,
            "HR {addr} should have serial data"
        );
    }
}

#[test]
fn firmware_version_register_populated() {
    let mut store = RegisterStore::new(default_register_catalogue());
    store.project_from_state(&plant());
    let fw = store.read_by_space(21, RegisterSpace::Holding).unwrap_or(0);
    assert!(fw > 0, "HR 21 should have firmware version");
}

fn three_phase_11kw_state() -> PlantState {
    let mut s = plant();
    s.config.inverter_type = "ThreePhase11kW".to_string();
    s.config.max_ac_watts = fx(11000.0);
    s.inverter.dsp_firmware_version = 11043;
    s.batteries[0].capacity_kwh = fx(9.5);
    s.batteries[0].soc_percent = fx(50.0);
    sync(&mut s);
    s
}

#[test]
fn threephase_11kw_projects_correct_dtc() {
    let s = three_phase_11kw_state();
    let mut store = RegisterStore::new(default_register_catalogue());
    store.project_from_state(&s);
    assert_eq!(store.read_by_space(0, RegisterSpace::Holding), Some(0x4004));
}

#[test]
fn threephase_11kw_reports_three_phases_byte() {
    let s = three_phase_11kw_state();
    let mut store = RegisterStore::new(default_register_catalogue());
    store.project_from_state(&s);
    let v = store.read_by_space(3, RegisterSpace::Holding).unwrap_or(0);
    assert_eq!(
        v & 0xFF,
        3,
        "low byte should be 3 (three phase), got {v:#x}"
    );
}

#[test]
fn threephase_11kw_battery_capacity_uses_76v_nominal() {
    let s = three_phase_11kw_state();
    let mut store = RegisterStore::new(default_register_catalogue());
    store.project_from_state(&s);
    let ah = store.read_by_space(55, RegisterSpace::Holding).unwrap_or(0);
    assert!(
        (120..=130).contains(&ah),
        "Expected ~124 Ah @ 76.8V, got {ah}"
    );
}

#[test]
fn threephase_11kw_battery_limit_mirrors_default_to_100_percent() {
    let s = three_phase_11kw_state();
    let mut store = RegisterStore::new(default_register_catalogue());
    store.project_from_state(&s);
    assert_eq!(store.read_by_space(1108, RegisterSpace::Holding), Some(100));
    assert_eq!(store.read_by_space(1110, RegisterSpace::Holding), Some(100));
}

#[test]
fn threephase_11kw_schedule_mirrors_slots_1_and_2() {
    let mut store = RegisterStore::new(default_register_catalogue());
    let mut sched = default_schedule();
    sched.charge[0].start = fx(1.5);
    sched.charge[0].end = fx(5.0);
    sched.charge[1].start = fx(10.0);
    sched.charge[1].end = fx(12.0);
    sched.discharge[0].start = fx(16.0);
    sched.discharge[0].end = fx(19.0);
    sched.discharge[1].start = fx(21.0);
    sched.discharge[1].end = fx(23.0);
    store.project_schedule_for(&sched, "ThreePhase11kW");

    assert_eq!(store.read_by_space(94, RegisterSpace::Holding), Some(130));
    assert_eq!(store.read_by_space(95, RegisterSpace::Holding), Some(500));
    assert_eq!(store.read_by_space(1113, RegisterSpace::Holding), Some(130));
    assert_eq!(store.read_by_space(1114, RegisterSpace::Holding), Some(500));

    assert_eq!(store.read_by_space(243, RegisterSpace::Holding), Some(1000));
    assert_eq!(store.read_by_space(244, RegisterSpace::Holding), Some(1200));
    assert_eq!(
        store.read_by_space(1115, RegisterSpace::Holding),
        Some(1000)
    );
    assert_eq!(
        store.read_by_space(1116, RegisterSpace::Holding),
        Some(1200)
    );

    assert_eq!(store.read_by_space(56, RegisterSpace::Holding), Some(1600));
    assert_eq!(store.read_by_space(57, RegisterSpace::Holding), Some(1900));
    assert_eq!(
        store.read_by_space(1118, RegisterSpace::Holding),
        Some(1600)
    );
    assert_eq!(
        store.read_by_space(1119, RegisterSpace::Holding),
        Some(1900)
    );

    assert_eq!(store.read_by_space(44, RegisterSpace::Holding), Some(2100));
    assert_eq!(store.read_by_space(45, RegisterSpace::Holding), Some(2300));
    assert_eq!(
        store.read_by_space(1120, RegisterSpace::Holding),
        Some(2100)
    );
    assert_eq!(
        store.read_by_space(1121, RegisterSpace::Holding),
        Some(2300)
    );
}

#[test]
fn threephase_11kw_charge_target_soc_mirrored_at_hr_1111() {
    let mut store = RegisterStore::new(default_register_catalogue());
    let mut sched = default_schedule();
    sched.charge[0].target_soc = fx(87.0);
    store.project_schedule_for(&sched, "ThreePhase11kW");
    assert_eq!(store.read_by_space(116, RegisterSpace::Holding), Some(87));
    assert_eq!(store.read_by_space(1111, RegisterSpace::Holding), Some(87));
}

fn read_u32_ir(store: &RegisterStore, hi: u16, lo: u16) -> u32 {
    ((store.read_by_space(hi, RegisterSpace::Input).unwrap_or(0) as u32) << 16)
        | store.read_by_space(lo, RegisterSpace::Input).unwrap_or(0) as u32
}

#[test]
fn threephase_11kw_publishes_live_data_on_tph_input_registers() {
    let mut s = three_phase_11kw_state();
    s.config.pv2_peak_watts = fx(3000.0);
    s.solar.pv1_w = fx(2100.0);
    s.solar.pv2_w = fx(1900.0);
    s.solar.generation_w = fx(4000.0);
    s.inverter.ac_power_w = fx(3300.0);
    s.grid.power_w = fx(1800.0); // internal positive = importing
    s.load_demand_w = fx(2700.0);
    s.batteries[0].power_kw = fx(1.5);
    s.batteries[0].soc_percent = fx(62.0);
    s.batteries[0].voltage_v = fx(77.4);
    sync(&mut s);
    s.inverter.dsp_firmware_version = 612;
    s.inverter.arm_firmware_version = 318;
    s.energy_totals.solar_generation_kwh = fx(12.0);
    s.energy_totals.solar_lifetime_kwh = fx(12.0);
    s.energy_totals.grid_import_kwh = fx(3.0);
    s.energy_totals.grid_export_kwh = fx(4.0);
    s.energy_totals.battery_charge_kwh = fx(5.0);
    s.energy_totals.battery_discharge_kwh = fx(6.0);
    s.energy_totals.load_consumption_kwh = fx(7.0);

    let mut store = RegisterStore::new(default_register_catalogue());
    store.project_from_state(&s);

    assert_eq!(store.read_by_space(1001, RegisterSpace::Input), Some(3500));
    assert_eq!(store.read_by_space(1002, RegisterSpace::Input), Some(3500));
    assert_eq!(read_u32_ir(&store, 1017, 1018), 21000); // 2100W at ×0.1W
    assert_eq!(read_u32_ir(&store, 1019, 1020), 19000);

    assert_eq!(store.read_by_space(1061, RegisterSpace::Input), Some(4160));
    assert_eq!(store.read_by_space(1062, RegisterSpace::Input), Some(4160));
    assert_eq!(store.read_by_space(1063, RegisterSpace::Input), Some(4160));
    assert_eq!(store.read_by_space(1064, RegisterSpace::Input), Some(25));
    assert_eq!(store.read_by_space(1083, RegisterSpace::Input), Some(9000));
    assert_eq!(read_u32_ir(&store, 1089, 1090), 27000);
    assert_eq!(read_u32_ir(&store, 1079, 1080), 18000); // CT/meter import — real-time 1800W
    assert_eq!(read_u32_ir(&store, 1081, 1082), 0); // CT/meter export — 0 (importing)
    assert_eq!(read_u32_ir(&store, 1240, 1241), 0); // export mirror — 0 (importing)
    assert_eq!(read_u32_ir(&store, 1244, 1245), 0); // second meter absent

    assert_eq!(store.read_by_space(1128, RegisterSpace::Input), Some(350)); // t_inverter 35.0°C
    assert_eq!(store.read_by_space(1129, RegisterSpace::Input), Some(330)); // t_boost 33.0°C
    assert_eq!(store.read_by_space(1130, RegisterSpace::Input), Some(380)); // t_buck_boost 38.0°C
    assert_eq!(store.read_by_space(1131, RegisterSpace::Input), Some(774)); // v_battery_bms 77.4V
    assert_eq!(store.read_by_space(1132, RegisterSpace::Input), Some(62));
    assert_eq!(read_u32_ir(&store, 1138, 1139), 15000); // charging 1.5kW at ×0.1W
    assert_eq!(read_u32_ir(&store, 1136, 1137), 0);
    assert!((store.read_by_space(1140, RegisterSpace::Input).unwrap() as i16) < 0);
    assert_eq!(store.read_by_space(1133, RegisterSpace::Input), Some(774)); // v_battery_pcs 77.4V
    assert_eq!(store.read_by_space(1134, RegisterSpace::Input), Some(3800)); // v_dc_bus 380.0V
    assert_eq!(store.read_by_space(1135, RegisterSpace::Input), Some(3800)); // v_inv_bus 380.0V
    assert_eq!(store.read_by_space(1325, RegisterSpace::Input), Some(612));
    assert_eq!(store.read_by_space(1326, RegisterSpace::Input), Some(612));
    assert_eq!(store.read_by_space(1327, RegisterSpace::Input), Some(318)); // overridden in test
    assert_eq!(store.read_by_space(19, RegisterSpace::Holding), Some(612));
    assert_eq!(store.read_by_space(21, RegisterSpace::Holding), Some(318)); // override propagates

    assert_eq!(read_u32_ir(&store, 1366, 1367), 60); // PV1 half of 12.0kWh, ×0.1kWh
    assert_eq!(read_u32_ir(&store, 1370, 1371), 60); // PV2 half
    assert_eq!(read_u32_ir(&store, 1380, 1381), 30);
    assert_eq!(read_u32_ir(&store, 1384, 1385), 40);
    assert_eq!(read_u32_ir(&store, 1388, 1389), 60);
    assert_eq!(read_u32_ir(&store, 1392, 1393), 50);
    assert_eq!(read_u32_ir(&store, 1396, 1397), 70);
    assert_eq!(read_u32_ir(&store, 1360, 1361), 120); // e_inverter_out_today = solar(12.0)
    assert_eq!(read_u32_ir(&store, 1362, 1363), 120); // e_inverter_out_total
    assert_eq!(read_u32_ir(&store, 1368, 1369), 60); // e_pv1_total = half
    assert_eq!(read_u32_ir(&store, 1372, 1373), 60); // e_pv2_total = half
    assert_eq!(read_u32_ir(&store, 1374, 1375), 120); // e_pv_total
    assert_eq!(read_u32_ir(&store, 1382, 1383), 1234); // e_import_total — hardcoded CT lifetime
    assert_eq!(read_u32_ir(&store, 1386, 1387), 4321); // e_export_total — hardcoded CT lifetime
    let seeded_throughput_kwh = val(s.batteries[0].throughput_kwh);
    let alt1_raw = ((seeded_throughput_kwh / 2.0) * 10.0).round() as u32;
    assert_eq!(read_u32_ir(&store, 1390, 1391), alt1_raw); // e_battery_discharge_total
    assert_eq!(read_u32_ir(&store, 1394, 1395), alt1_raw); // e_battery_charge_total
    assert_eq!(read_u32_ir(&store, 1398, 1399), 70); // e_load_total
    assert_eq!(read_u32_ir(&store, 1400, 1401), 40); // e_export2_today
    assert_eq!(read_u32_ir(&store, 1402, 1403), 40); // e_export2_total
    assert_eq!(read_u32_ir(&store, 1412, 1413), 120); // e_pv_today (combined)
}

#[test]
fn threephase_11kw_firmware_registers_have_correct_defaults() {
    let s = three_phase_11kw_state();
    let mut store = RegisterStore::new(default_register_catalogue());
    store.project_from_state(&s);

    assert_eq!(store.read_by_space(19, RegisterSpace::Holding), Some(11043));
    assert_eq!(store.read_by_space(21, RegisterSpace::Holding), Some(612));
    assert_eq!(store.read_by_space(1325, RegisterSpace::Input), Some(11043));
    assert_eq!(store.read_by_space(1326, RegisterSpace::Input), Some(11043));
    assert_eq!(store.read_by_space(1327, RegisterSpace::Input), Some(612));
}

#[test]
fn threephase_11kw_ct_meter_power_registers_follow_grid() {
    let s = three_phase_11kw_state();
    let mut store = RegisterStore::new(default_register_catalogue());
    store.project_from_state(&s);

    assert_eq!(read_u32_ir(&store, 1079, 1080), 0); // import: 0W (no grid flow)
    assert_eq!(read_u32_ir(&store, 1081, 1082), 0); // export: 0W (no grid flow)
    assert_eq!(read_u32_ir(&store, 1240, 1241), 0); // export mirror: 0W
}

#[test]
fn ct_meter_input_registers_project_correctly() {
    let mut s = plant();
    s.grid.power_w = fx(2400.0); // 2.4 kW import
    s.config.inverter_type = "Gen3Hybrid".to_string();
    s.config.ct_meter_installed = true;
    let mut store = RegisterStore::new(default_register_catalogue());
    store.project_from_state(&s);

    let space = RegisterSpace::Input;

    assert_eq!(store.read_by_space(60, space), Some(2400));
    assert_eq!(store.read_by_space(63, space), Some(1000));
    assert_eq!(store.read_by_space(67, space), Some(1000));
    assert_eq!(store.read_by_space(68, space), Some(2400));
    assert_eq!(store.read_by_space(71, space), Some(2400));
    assert_eq!(store.read_by_space(76, space), Some(2400));
    assert_eq!(store.read_by_space(79, space), Some(2400));
    assert_eq!(store.read_by_space(80, space), Some(1000));
    assert_eq!(store.read_by_space(83, space), Some(1000));
    assert_eq!(store.read_by_space(84, space), Some(5000));
}

#[test]
fn ct_meter_data_zero_when_grid_power_zero() {
    let mut s = plant();
    s.grid.power_w = fx(0.0);
    s.config.ct_meter_installed = true;
    let mut store = RegisterStore::new(default_register_catalogue());
    store.project_from_state(&s);

    let space = RegisterSpace::Input;
    assert_eq!(store.read_by_space(67, space), Some(0));
    assert_eq!(store.read_by_space(79, space), Some(0));
    assert_eq!(store.read_by_space(83, space), Some(0));
}

#[test]
fn gen3_hybrid_writes_charge_slot_2_to_extended_holding_registers() {
    let mut store = RegisterStore::new(default_register_catalogue());
    let mut sched = default_schedule();
    sched.charge[0].start = fx(1.0);
    sched.charge[0].end = fx(5.0);
    sched.charge[1].start = fx(10.0);
    sched.charge[1].end = fx(14.0);
    sched.charge[0].target_soc = fx(80.0);
    sched.enable_charge = true;
    store.project_schedule_for(&sched, "Gen3Hybrid");

    assert_eq!(store.read_by_space(94, RegisterSpace::Holding), Some(100));
    assert_eq!(store.read_by_space(95, RegisterSpace::Holding), Some(500));

    assert_eq!(store.read_by_space(243, RegisterSpace::Holding), Some(1000));
    assert_eq!(store.read_by_space(244, RegisterSpace::Holding), Some(1400));

    assert_eq!(store.read_by_space(31, RegisterSpace::Holding), Some(0));
    assert_eq!(store.read_by_space(32, RegisterSpace::Holding), Some(0));
}

#[test]
fn gen3_hybrid_with_state_projection_leaves_hr_31_32_at_disabled_sentinel() {
    let mut s = plant();
    s.config.inverter_type = "Gen3Hybrid".to_string();
    let mut store = RegisterStore::new(default_register_catalogue());
    store.project_from_state(&s);

    let mut sched = default_schedule();
    sched.charge[1].start = fx(10.0);
    sched.charge[1].end = fx(14.0);
    store.project_schedule_for(&sched, "Gen3Hybrid");

    assert_eq!(store.read_by_space(31, RegisterSpace::Holding), Some(60));
    assert_eq!(store.read_by_space(32, RegisterSpace::Holding), Some(60));
    assert_eq!(store.read_by_space(243, RegisterSpace::Holding), Some(1000));
    assert_eq!(store.read_by_space(244, RegisterSpace::Holding), Some(1400));
}

#[test]
fn gen1_hybrid_writes_charge_slot_2_to_classic_holding_registers() {
    let mut store = RegisterStore::new(default_register_catalogue());
    let mut sched = default_schedule();
    sched.charge[0].start = fx(1.0);
    sched.charge[0].end = fx(5.0);
    sched.charge[1].start = fx(10.0);
    sched.charge[1].end = fx(14.0);
    sched.enable_charge = true;
    store.project_schedule_for(&sched, "Gen1Hybrid");

    assert_eq!(store.read_by_space(94, RegisterSpace::Holding), Some(100));
    assert_eq!(store.read_by_space(95, RegisterSpace::Holding), Some(500));

    assert_eq!(store.read_by_space(31, RegisterSpace::Holding), Some(1000));
    assert_eq!(store.read_by_space(32, RegisterSpace::Holding), Some(1400));

    assert_eq!(store.read_by_space(243, RegisterSpace::Holding), Some(0));
    assert_eq!(store.read_by_space(244, RegisterSpace::Holding), Some(0));
}

#[test]
fn gen2_hybrid_has_no_charge_slot_2() {
    let mut store = RegisterStore::new(default_register_catalogue());
    let mut sched = default_schedule();
    sched.charge[0].start = fx(1.0);
    sched.charge[0].end = fx(5.0);
    sched.charge[1].start = fx(22.0);
    sched.charge[1].end = fx(6.0);
    store.project_schedule_for(&sched, "Gen2Hybrid");

    assert_eq!(store.read_by_space(94, RegisterSpace::Holding), Some(100));
    assert_eq!(store.read_by_space(95, RegisterSpace::Holding), Some(500));
    assert_eq!(store.read_by_space(31, RegisterSpace::Holding), Some(0));
    assert_eq!(store.read_by_space(32, RegisterSpace::Holding), Some(0));
    assert_eq!(store.read_by_space(243, RegisterSpace::Holding), Some(0));
    assert_eq!(store.read_by_space(244, RegisterSpace::Holding), Some(0));
}

#[test]
fn gen2_hybrid_has_no_discharge_slot_2_or_extended_slots() {
    let mut store = RegisterStore::new(default_register_catalogue());
    let mut sched = default_schedule();
    sched.discharge[0].start = fx(17.0);
    sched.discharge[0].end = fx(21.0);
    sched.discharge[1].start = fx(10.0);
    sched.discharge[1].end = fx(14.0);
    sched.discharge[2].start = fx(8.0);
    sched.discharge[2].end = fx(9.0);
    store.project_schedule_for(&sched, "Gen2Hybrid");

    assert_eq!(store.read_by_space(56, RegisterSpace::Holding), Some(1700));
    assert_eq!(store.read_by_space(57, RegisterSpace::Holding), Some(2100));
    assert_eq!(store.read_by_space(44, RegisterSpace::Holding), Some(60));
    assert_eq!(store.read_by_space(45, RegisterSpace::Holding), Some(60));
    assert_eq!(store.read_by_space(276, RegisterSpace::Holding), Some(60));
    assert_eq!(store.read_by_space(277, RegisterSpace::Holding), Some(60));
}

#[test]
fn ac_coupled_has_basic_charge_and_discharge_slot_1_only() {
    let mut store = RegisterStore::new(default_register_catalogue());
    let mut sched = default_schedule();
    sched.charge[0].start = fx(1.0);
    sched.charge[0].end = fx(5.0);
    sched.charge[1].start = fx(10.0);
    sched.charge[1].end = fx(14.0);
    sched.discharge[0].start = fx(17.0);
    sched.discharge[0].end = fx(21.0);
    sched.discharge[1].start = fx(10.0);
    sched.discharge[1].end = fx(14.0);
    sched.discharge[0].target_soc = fx(25.0);
    sched.discharge[1].target_soc = fx(30.0);
    store.project_schedule_for(&sched, "ACCoupled");

    assert_eq!(store.read_by_space(94, RegisterSpace::Holding), Some(100));
    assert_eq!(store.read_by_space(95, RegisterSpace::Holding), Some(500));
    assert_eq!(store.read_by_space(56, RegisterSpace::Holding), Some(1700));
    assert_eq!(store.read_by_space(57, RegisterSpace::Holding), Some(2100));
    assert_eq!(store.read_by_space(59, RegisterSpace::Holding), Some(1));
    assert_eq!(store.read_by_space(272, RegisterSpace::Holding), Some(25));
    assert_eq!(store.read_by_space(31, RegisterSpace::Holding), Some(0));
    assert_eq!(store.read_by_space(32, RegisterSpace::Holding), Some(0));
    assert_eq!(store.read_by_space(243, RegisterSpace::Holding), Some(0));
    assert_eq!(store.read_by_space(244, RegisterSpace::Holding), Some(0));
    assert_eq!(store.read_by_space(44, RegisterSpace::Holding), Some(60));
    assert_eq!(store.read_by_space(45, RegisterSpace::Holding), Some(60));
    assert_eq!(store.read_by_space(275, RegisterSpace::Holding), Some(0));
    assert_eq!(store.read_by_space(276, RegisterSpace::Holding), Some(60));
    assert_eq!(store.read_by_space(277, RegisterSpace::Holding), Some(60));
}

#[test]
fn all_in_one_uses_gen3_extended_charge_slot_2() {
    for inv_type in &[
        "AllInOne",
        "AllInOne5",
        "AllInOne6",
        "AIO6kW",
        "AIO8kW",
        "AIO10kW",
        "AIOHybrid6kW",
        "AIOHybrid8kW",
        "AIOHybrid10kW",
    ] {
        let mut store = RegisterStore::new(default_register_catalogue());
        let mut sched = default_schedule();
        sched.charge[1].start = fx(11.0);
        sched.charge[1].end = fx(13.0);
        store.project_schedule_for(&sched, inv_type);

        assert_eq!(
            store.read_by_space(243, RegisterSpace::Holding),
            Some(1100),
            "Slot 2 start should be at HR 243 for {inv_type}"
        );
        assert_eq!(
            store.read_by_space(244, RegisterSpace::Holding),
            Some(1300),
            "Slot 2 end should be at HR 244 for {inv_type}"
        );
    }
}

#[test]
fn gen3_extended_models_skip_hr_31_32() {
    for inv_type in &[
        "Gen3Hybrid",
        "Gen3Hybrid8kW",
        "Gen3Hybrid10kW",
        "Gen3Plus6kW",
        "Gen3Plus8kW",
        "ThreePhase",
        "ThreePhase8kW",
        "ThreePhase10kW",
        "ThreePhase11kW",
        "AllInOne",
        "AIO8kW",
        "AIOHybrid8kW",
        "Polar5kW",
        "Polar8kW",
        "EMS",
        "Gateway12kW",
    ] {
        let mut store = RegisterStore::new(default_register_catalogue());
        let mut sched = default_schedule();
        sched.charge[1].start = fx(10.0);
        sched.charge[1].end = fx(14.0);
        store.project_schedule_for(&sched, inv_type);

        assert_eq!(
            store.read_by_space(31, RegisterSpace::Holding),
            Some(0),
            "HR 31 should NOT be written for {inv_type}"
        );
        assert_eq!(
            store.read_by_space(32, RegisterSpace::Holding),
            Some(0),
            "HR 32 should NOT be written for {inv_type}"
        );
        assert_eq!(
            store.read_by_space(243, RegisterSpace::Holding),
            Some(1000),
            "HR 243 should have slot 2 start for {inv_type}"
        );
        assert_eq!(
            store.read_by_space(244, RegisterSpace::Holding),
            Some(1400),
            "HR 244 should have slot 2 end for {inv_type}"
        );
    }
}

#[test]
fn meter_registers_nonzero_after_realistic_tick() {
    let mut s = plant();
    s.solar.generation_w = fx(4000.0);
    s.solar.pv1_w = fx(4000.0);
    s.load_demand_w = fx(2000.0);
    s.grid.power_w = fx(-2000.0);
    s.batteries[0].soc_percent = fx(50.0);
    sync(&mut s);
    s.config.inverter_type = "ACCoupled".to_string();
    s.config.ct_meter_installed = true;

    let mut store = RegisterStore::new(default_register_catalogue());
    store.project_from_state(&s);

    let space = RegisterSpace::Input;
    let i_total = store.read_by_space(67, space);
    let p_apparent = store.read_by_space(79, space);
    let pf = store.read_by_space(83, space);

    assert_ne!(i_total, Some(0), "IR 67 i_total should be non-zero");
    assert_ne!(
        p_apparent,
        Some(0),
        "IR 79 p_apparent_total should be non-zero"
    );
    assert_ne!(pf, Some(0), "IR 83 pf_total should be non-zero");
    assert_eq!(i_total, Some(833), "IR 67: expected 833 (8.33A)");
    assert_eq!(p_apparent, Some(2000), "IR 79: expected 2000 VA");
    assert_eq!(pf, Some(1000), "IR 83: expected 1000 (1.000)");
}

fn gateway_state() -> PlantState {
    let mut s = plant();
    s.config.inverter_type = "Gateway12kW".to_string();
    s.solar.generation_w = fx(3000.0);
    s.solar.pv1_w = fx(3000.0);
    s.load_demand_w = fx(800.0);
    s.grid.power_w = fx(500.0); // importing
    s.grid.connected = true;
    s.batteries[0].soc_percent = fx(65.0);
    s.batteries[0].power_kw = fx(2.0); // charging (+ = charging internal)
    sync(&mut s);
    s.energy_totals.grid_import_kwh = fx(100.0);
    s.energy_totals.solar_generation_kwh = fx(200.0);
    s.energy_totals.battery_charge_kwh = fx(50.0);
    s.energy_totals.battery_discharge_kwh = fx(30.0);
    s.energy_totals.load_consumption_kwh = fx(80.0);
    s.energy_totals.grid_export_kwh = fx(10.0);
    s
}

#[test]
fn gateway_bank_populated_for_gateway_inverter() {
    let s = gateway_state();
    let mut store = RegisterStore::new(default_register_catalogue());
    store.project_from_state(&s);

    let ir = |a: u16| store.read_by_space(a, RegisterSpace::Input).unwrap_or(0);

    assert_eq!(ir(1600), (b'G' as u16) << 8 | b'A' as u16);
    assert_eq!(ir(1603), 9, "IR(1603) must select V1 (< 10)");
    assert_eq!(ir(1604), 2);
    assert_eq!(ir(1700), 1, "parallel_aio_num = 1");
    assert_eq!(ir(1701), 1, "parallel_aio_online_num = 1");
    assert_eq!(ir(1617), 3000, "p_pv = solar generation");
    assert_eq!(ir(1618), 800, "p_load = household demand");
    assert_eq!(ir(1801), 65, "aio1_soc = aggregate SOC");
    assert_eq!(ir(1802), 0, "aio2_soc empty for single-AIO");
}

#[test]
fn gateway_bank_zero_for_non_gateway_inverter() {
    let mut s = plant();
    s.config.inverter_type = "Gen3Hybrid".to_string();
    let mut store = RegisterStore::new(default_register_catalogue());
    store.project_from_state(&s);

    assert_eq!(
        store.read_by_space(1600, RegisterSpace::Input),
        Some(0),
        "non-gateway must not populate gateway version"
    );
    assert_eq!(
        store.read_by_space(1603, RegisterSpace::Input),
        Some(0),
        "IR(1603) zero → variant selector sees no gateway"
    );
    assert_eq!(
        store.read_by_space(1700, RegisterSpace::Input),
        Some(0),
        "parallel_aio_num zero for non-gateway"
    );
}

#[test]
fn gateway_serial_has_gw_prefix() {
    let s = gateway_state();
    let mut store = RegisterStore::new(default_register_catalogue());
    store.project_from_state(&s);

    let r0 = store.read_by_space(13, RegisterSpace::Holding).unwrap();
    let r1 = store.read_by_space(14, RegisterSpace::Holding).unwrap();
    let hi = (r0 >> 8) as u8;
    let lo = (r0 & 0xFF) as u8;
    assert_eq!(hi, b'G', "serial byte 0 must be 'G'");
    assert_eq!(lo, b'W', "serial byte 1 must be 'W'");
    let mut chars = Vec::new();
    for addr in 13..=17 {
        let v = store.read_by_space(addr, RegisterSpace::Holding).unwrap();
        chars.push((v >> 8) as u8);
        chars.push((v & 0xFF) as u8);
    }
    assert_eq!(&chars[..], b"GW2423G192");
    let _ = r1;
}

#[test]
fn gateway_aio_power_sign_convention() {
    let s = gateway_state(); // battery charging at 2kW → wire value POSITIVE
    let mut store = RegisterStore::new(default_register_catalogue());
    store.project_from_state(&s);

    let ir = |a: u16| store.read_by_space(a, RegisterSpace::Input).unwrap_or(0) as i16;
    assert!(
        ir(1616) > 0,
        "p_ac1 must be positive while charging (Gateway convention), got {}",
        ir(1616)
    );
    assert_eq!(ir(1616), ir(1702), "p_ac1 == p_aio_total for single-AIO");
    assert_eq!(
        ir(1702),
        ir(1816),
        "p_aio_total == p_aio1_inverter for single-AIO"
    );
    assert_eq!(store.read_by_space(1703, RegisterSpace::Input), Some(1));
}

#[test]
fn gateway_aio_power_discharge_positive() {
    let mut s = gateway_state();
    s.batteries[0].power_kw = fx(-1.5); // discharging
    sync(&mut s);
    let mut store = RegisterStore::new(default_register_catalogue());
    store.project_from_state(&s);

    let ir = |a: u16| store.read_by_space(a, RegisterSpace::Input).unwrap_or(0) as i16;
    assert!(
        ir(1816) < 0,
        "p_aio1_inverter must be negative while discharging (Gateway convention), got {}",
        ir(1816)
    );
    assert_eq!(store.read_by_space(1703, RegisterSpace::Input), Some(2));
}

#[test]
fn gateway_energy_totals_v1_byte_order() {
    let s = gateway_state();
    let mut store = RegisterStore::new(default_register_catalogue());
    store.project_from_state(&s);

    let ir = |a: u16| store.read_by_space(a, RegisterSpace::Input).unwrap_or(0);
    assert_eq!(ir(1640), 1000, "e_grid_import_today = 100kWh * 10");
    assert_eq!(ir(1641), 0, "V1 high word first");
    assert_eq!(ir(1642), 1000, "V1 low word second");
    assert_eq!(ir(1705), 500, "e_aio1_charge_today = 50kWh * 10");
    assert_eq!(ir(1706), 0);
    assert_eq!(ir(1707), 500);
}

#[test]
fn gateway_aio_serials_populated() {
    let s = gateway_state();
    let mut store = RegisterStore::new(default_register_catalogue());
    store.project_from_state(&s);

    let ir = |a: u16| store.read_by_space(a, RegisterSpace::Input).unwrap_or(0);
    let mut chars = Vec::new();
    for addr in [1831, 1832, 1833, 1834, 1835] {
        let v = ir(addr);
        chars.push((v >> 8) as u8);
        chars.push((v & 0xFF) as u8);
    }
    assert_eq!(&chars[..], b"SA24230001", "aio1 serial must round-trip");
    let mut first = Vec::new();
    for addr in [1627, 1628, 1629, 1630, 1631] {
        let v = ir(addr);
        first.push((v >> 8) as u8);
        first.push((v & 0xFF) as u8);
    }
    assert_eq!(
        &first[..],
        b"SA24230001",
        "first_inverter_serial must round-trip"
    );
    assert_eq!(ir(1838), 0, "aio2 serial empty for single-AIO");
    assert_eq!(ir(1845), 0, "aio3 serial empty for single-AIO");
}

#[test]
fn gateway_multi_aio_populates_all_registers() {
    let mut s = gateway_state();
    s.config.parallel_aio_num = 3;
    let b2 = s.batteries[0].clone();
    let b3 = s.batteries[0].clone();
    s.batteries.push(b2);
    s.batteries.push(b3);
    sync(&mut s);
    let mut store = RegisterStore::new(default_register_catalogue());
    store.project_from_state(&s);

    let ir = |a: u16| store.read_by_space(a, RegisterSpace::Input).unwrap_or(0);
    let i16 = |a: u16| ir(a) as i16;

    assert_eq!(ir(1700), 3, "parallel_aio_num = 3");
    assert_eq!(ir(1701), 3, "parallel_aio_online_num = 3");

    for aio_i in 0..3 {
        let power_reg = 1816u16 + aio_i as u16;
        let p = i16(power_reg);
        assert_eq!(
            p,
            2000,
            "AIO{} inverter power must be +2000W (charging, Gateway convention), got {}",
            aio_i + 1,
            p
        );
    }

    assert_eq!(ir(1801), 65, "aio1_soc");
    assert_eq!(ir(1802), 65, "aio2_soc shared");
    assert_eq!(ir(1803), 65, "aio3_soc shared");

    assert_eq!(ir(1705), 167, "aio1_charge_today");
    assert_eq!(ir(1708), 167, "aio2_charge_today");
    assert_eq!(ir(1711), 167, "aio3_charge_today");

    assert_eq!(ir(1750), 100, "aio1_discharge_today");
    assert_eq!(ir(1753), 100, "aio2_discharge_today");
    assert_eq!(ir(1756), 100, "aio3_discharge_today");

    let aio_serial = |base: u16| -> Vec<u8> {
        let mut chars = Vec::new();
        for addr in base..base + 5 {
            let v = ir(addr);
            chars.push((v >> 8) as u8);
            chars.push((v & 0xFF) as u8);
        }
        chars
    };
    assert_eq!(&aio_serial(1831)[..], b"SA24230001", "aio1 serial");
    assert_eq!(&aio_serial(1838)[..], b"SA24230002", "aio2 serial");
    assert_eq!(&aio_serial(1845)[..], b"SA24230003", "aio3 serial");

    let mut first = Vec::new();
    for addr in [1627, 1628, 1629, 1630, 1631] {
        let v = ir(addr);
        first.push((v >> 8) as u8);
        first.push((v & 0xFF) as u8);
    }
    assert_eq!(&first[..], b"SA24230001");
}

#[test]
fn gateway_identity_block_shows_zero_batteries() {
    let s = gateway_state();
    let mut store = RegisterStore::new(default_register_catalogue());
    store.project_from_state(&s);

    let ir = |a: u16| store.read_by_space(a, RegisterSpace::Input).unwrap_or(0);
    let hr = |a: u16| store.read_by_space(a, RegisterSpace::Holding).unwrap_or(0);

    assert_eq!(ir(50), 0, "gateway battery voltage must be 0");
    assert_eq!(ir(51), 0, "gateway battery current must be 0");
    assert_eq!(ir(52), 0, "gateway battery power must be 0");
    assert_eq!(ir(56), 0, "gateway battery temp must be 0");
    assert_eq!(ir(59), 0, "gateway battery SOC must be 0");
    for a in 8..=12 {
        assert_eq!(hr(a), 0, "gateway battery serial HR({a}) must be 0");
    }
    assert_eq!(hr(18), 0, "gateway battery BMS fw must be 0");
    assert_eq!(
        store.read(214).unwrap_or(0),
        0,
        "gateway battery_module_count must be 0"
    );

    assert_eq!(ir(1801), 65, "aio1_soc must still be in aggregation bank");
}

#[test]
fn non_gateway_identity_block_still_has_battery_data() {
    let mut s = plant();
    s.config.inverter_type = "Gen3Hybrid".to_string();
    s.batteries[0].soc_percent = fx(65.0);
    s.batteries[0].power_kw = fx(1.0);
    sync(&mut s);
    let mut store = RegisterStore::new(default_register_catalogue());
    store.project_from_state(&s);

    let ir = |a: u16| store.read_by_space(a, RegisterSpace::Input).unwrap_or(0);
    let hr = |a: u16| store.read_by_space(a, RegisterSpace::Holding).unwrap_or(0);

    assert_eq!(ir(59), 65, "non-gateway battery SOC must be preserved");
    assert_ne!(hr(8), 0, "non-gateway battery serial must be non-zero");
    assert_eq!(hr(18), 100, "non-gateway battery BMS fw must be preserved");
    assert_eq!(
        store.read(214).unwrap_or(0),
        1,
        "non-gateway battery_module_count must be 1"
    );
}

#[test]
fn gateway_control_writes_accepted() {
    let s = gateway_state();
    let mut store = RegisterStore::new(default_register_catalogue());
    store.project_from_state(&s);

    assert!(
        store.write(59, 1),
        "HR 59 enable_discharge must accept write"
    );
    assert!(
        store.write(94, 930),
        "HR 94 charge_slot_1_start must accept"
    );
    assert!(store.write(95, 1630), "HR 95 charge_slot_1_end must accept");
    assert!(store.write(96, 1), "HR 96 enable_charge must accept write");
    assert!(store.write(110, 15), "HR 110 soc_reserve must accept write");
    assert!(
        store.write(111, 95),
        "HR 111 charge_limit must accept write"
    );
    assert!(store.write(112, 80), "HR 112 discharge_limit must accept");
    assert!(
        store.write(116, 100),
        "HR 116 charge_target_soc must accept"
    );
    assert!(
        store.write(56, 800),
        "HR 56 discharge_slot_1_start must accept"
    );
    assert!(
        store.write(57, 2000),
        "HR 57 discharge_slot_1_end must accept"
    );

    assert_eq!(store.read(59), Some(1));
    assert_eq!(store.read(94), Some(930));
    assert_eq!(store.read(110), Some(15));
    assert_eq!(store.read(116), Some(100));
    assert_eq!(store.read(56), Some(800));
    assert_eq!(store.read(57), Some(2000));

    assert!(store.write(35, 2025), "HR 35 year must accept write");
    assert!(store.write(36, 6), "HR 36 month must accept write");
    assert_eq!(store.read(35), Some(2025));
}

#[test]
fn gateway_snapshot_includes_bank() {
    let s = gateway_state();
    let mut store = RegisterStore::new(default_register_catalogue());
    store.project_from_state(&s);
    assert_eq!(
        store.snapshot().len(),
        default_register_catalogue().len(),
        "every projected gateway value must have a catalogue def"
    );
}

fn gateway_v2_state() -> PlantState {
    let mut s = gateway_state();
    s.config.gateway_fw_version = 10;
    s
}

#[test]
fn gateway_v2_version_selector() {
    let s = gateway_v2_state();
    let mut store = RegisterStore::new(default_register_catalogue());
    store.project_from_state(&s);

    let ir = |a: u16| store.read_by_space(a, RegisterSpace::Input).unwrap_or(0);
    assert_eq!(ir(1600), (b'G' as u16) << 8 | b'A' as u16);
    assert_eq!(ir(1601), (b'0' as u16) << 8 | b'0' as u16);
    assert_eq!(ir(1602), 0x0000);
    assert_eq!(ir(1603), 10, "IR(1603) must be >= 10 for V2");
    assert_eq!(ir(1604), 2);
}

#[test]
fn gateway_v2_energy_totals_swapped_byte_order() {
    let s = gateway_v2_state();
    let mut store = RegisterStore::new(default_register_catalogue());
    store.project_from_state(&s);

    let ir = |a: u16| store.read_by_space(a, RegisterSpace::Input).unwrap_or(0);
    assert_eq!(ir(1640), 1000, "e_grid_import_today = 100kWh * 10");
    assert_eq!(ir(1641), 1000, "V2: e_grid_import_total_lo first");
    assert_eq!(ir(1642), 0, "V2: e_grid_import_total_hi second");
    assert_eq!(ir(1705), 500, "e_aio1_charge_today unchanged");
    assert_eq!(ir(1706), 500, "V2: e_aio1_charge_total_lo first");
    assert_eq!(ir(1707), 0, "V2: e_aio1_charge_total_hi second");
    assert_eq!(ir(1796), 500, "V2: e_battery_charge_total_lo first");
    assert_eq!(ir(1797), 0, "V2: e_battery_charge_total_hi second");
}

#[test]
fn gateway_v1_energy_totals_unchanged_by_v2_code() {
    let s = gateway_state(); // V1 default (fw_version = 9)
    let mut store = RegisterStore::new(default_register_catalogue());
    store.project_from_state(&s);

    let ir = |a: u16| store.read_by_space(a, RegisterSpace::Input).unwrap_or(0);
    assert_eq!(ir(1641), 0, "V1: e_grid_import_total_hi first");
    assert_eq!(ir(1642), 1000, "V1: e_grid_import_total_lo second");
    assert_eq!(ir(1706), 0, "V1: e_aio1_charge_total_hi first");
    assert_eq!(ir(1707), 500, "V1: e_aio1_charge_total_lo second");
    assert_eq!(ir(1796), 0, "V1: e_battery_charge_total_hi first");
    assert_eq!(ir(1797), 500, "V1: e_battery_charge_total_lo second");
}

#[test]
fn gateway_v2_serial_at_v2_addresses() {
    let s = gateway_v2_state();
    let mut store = RegisterStore::new(default_register_catalogue());
    store.project_from_state(&s);

    let ir = |a: u16| store.read_by_space(a, RegisterSpace::Input).unwrap_or(0);
    let mut chars = Vec::new();
    for addr in [1841, 1842, 1843, 1844, 1845] {
        let v = ir(addr);
        chars.push((v >> 8) as u8);
        chars.push((v & 0xFF) as u8);
    }
    assert_eq!(&chars[..], b"SA24230001", "V2 aio1 serial at 1841-1845");
    for addr in [1831, 1832, 1833, 1834, 1835] {
        assert_eq!(ir(addr), 0, "V2: V1 serial addr {addr} must be zero");
    }
    let mut first = Vec::new();
    for addr in [1627, 1628, 1629, 1630, 1631] {
        let v = ir(addr);
        first.push((v >> 8) as u8);
        first.push((v & 0xFF) as u8);
    }
    assert_eq!(
        &first[..],
        b"SA24230001",
        "first_inverter_serial must round-trip (V2)"
    );
}

#[test]
fn gateway_v2_snapshot_includes_bank() {
    let s = gateway_v2_state();
    let mut store = RegisterStore::new(default_register_catalogue());
    store.project_from_state(&s);
    assert_eq!(
        store.snapshot().len(),
        default_register_catalogue().len(),
        "every projected V2 gateway value must have a catalogue def"
    );
}

fn decode_single_phase_faults(word: u32) -> Vec<&'static str> {
    const FAULTS: [Option<&str>; 32] = [
        None,
        None,
        None,
        Some("Backup Overload Fault"),
        None,
        None,
        Some("Grid Monitor Comm Fault"),
        Some("ARM Comms Fault"),
        Some("Consistent Fault"),
        Some("EEPROM Fault"),
        None,
        None,
        None,
        None,
        None,
        None,
        Some("Inverter Frequency Fault"),
        Some("Relay Fault"),
        Some("Inverter Voltage Fault"),
        Some("GFCI Fault"),
        Some("Hail Sensor Fault"),
        Some("DSP Comms Fault"),
        Some("Bus over voltage"),
        Some("Inverter Current Fault"),
        Some("No Utility"),
        Some("PV Isolation Fault"),
        Some("Current leak high"),
        Some("DCI high"),
        Some("PV Over voltage"),
        Some("Grid voltage Fault"),
        Some("Grid Frequency Fault"),
        Some("Inverter NTC Fault"),
    ];
    let mut out = Vec::new();
    for (i, name) in FAULTS.iter().enumerate() {
        if word & (1 << (31 - i)) != 0 {
            if let Some(n) = name {
                out.push(*n);
            }
        }
    }
    out
}

fn projected_fault_word(state: &PlantState) -> u32 {
    let mut store = RegisterStore::new(default_register_catalogue());
    store.project_from_state(state);
    let hi = store.read_by_space(223, RegisterSpace::Holding).unwrap() as u32;
    let lo = store.read_by_space(224, RegisterSpace::Holding).unwrap() as u32;
    (hi << 16) | lo
}

#[test]
fn gen3_grid_loss_decodes_to_no_utility() {
    let mut state = make_state();
    state.active_faults = vec!["grid_loss".into()];
    let word = projected_fault_word(&state);
    assert_eq!(
        decode_single_phase_faults(word),
        vec!["No Utility"],
        "grid_loss must decode to exactly [No Utility] (word={word:#010x})"
    );
    assert_eq!(store_hr224(&state), 0x0080);
    assert_eq!(store_hr223(&state), 0);
}

#[test]
fn gen3_inverter_trip_decodes_to_consistent_fault() {
    let mut state = make_state();
    state.active_faults = vec!["inverter_trip".into()];
    let word = projected_fault_word(&state);
    assert_eq!(
        decode_single_phase_faults(word),
        vec!["Consistent Fault"],
        "inverter_trip must decode to exactly [Consistent Fault] (word={word:#010x})"
    );
    assert_eq!(store_hr223(&state), 0x0080);
    assert_eq!(store_hr224(&state), 0);
    assert_eq!(store_ir0(&state), 3);
}

#[test]
fn gen3_battery_over_temp_decodes_to_inverter_ntc_fault() {
    let mut state = make_state();
    state.active_faults = vec!["battery_over_temp".into()];
    let word = projected_fault_word(&state);
    assert_eq!(
        decode_single_phase_faults(word),
        vec!["Inverter NTC Fault"],
        "battery_over_temp must decode to [Inverter NTC Fault] (word={word:#010x})"
    );
    assert_eq!(store_hr224(&state), 0x0001);
    assert_eq!(store_ir57(&state), 1);
}

#[test]
fn gen3_all_faults_combine_into_named_word() {
    let mut state = make_state();
    state.active_faults = vec![
        "grid_loss".into(),
        "inverter_trip".into(),
        "battery_over_temp".into(),
        "comm_timeout".into(),
    ];
    let word = projected_fault_word(&state);
    let mut names = decode_single_phase_faults(word);
    names.sort();
    let mut expected = vec![
        "No Utility",
        "Consistent Fault",
        "Inverter NTC Fault",
        "ARM Comms Fault",
    ];
    expected.sort();
    assert_eq!(names, expected, "combined faults (word={word:#010x})");
}

#[test]
fn ir_39_40_mirrors_hr_223_224_for_single_phase() {
    let mut state = make_state();
    state.active_faults = vec!["grid_loss".into(), "inverter_trip".into()];
    let mut store = RegisterStore::new(default_register_catalogue());
    store.project_from_state(&state);
    let ir39 = store.read_by_space(39, RegisterSpace::Input).unwrap() as u32;
    let ir40 = store.read_by_space(40, RegisterSpace::Input).unwrap() as u32;
    let ir_word = (ir39 << 16) | ir40;
    let hr_word = projected_fault_word(&state);
    assert_eq!(ir_word, hr_word, "IR 39-40 must mirror HR 223-224");
}

#[test]
fn single_phase_leaves_threephase_fault_words_zero() {
    let mut state = make_state(); // Gen3 (single-phase)
    state.active_faults = vec!["grid_loss".into(), "battery_over_temp".into()];
    let mut store = RegisterStore::new(default_register_catalogue());
    store.project_from_state(&state);
    for addr in 1300..=1307 {
        assert_eq!(
            store.read_by_space(addr, RegisterSpace::Input),
            Some(0),
            "single-phase must leave IR {addr} at zero"
        );
    }
}

#[test]
fn three_phase_grid_loss_uses_ir_1301_no_grid_connection() {
    let mut state = make_state();
    state.config.inverter_type = "ThreePhase".into();
    state.active_faults = vec!["grid_loss".into()];
    let mut store = RegisterStore::new(default_register_catalogue());
    store.project_from_state(&state);
    assert_eq!(
        store.read_by_space(1301, RegisterSpace::Input),
        Some(0x0001)
    );
    assert_eq!(store.read_by_space(223, RegisterSpace::Holding), Some(0));
    assert_eq!(store.read_by_space(224, RegisterSpace::Holding), Some(0));
    assert_eq!(store.read_by_space(39, RegisterSpace::Input), Some(0));
}

#[test]
fn three_phase_inverter_trip_uses_ir_1305_relay_fault() {
    let mut state = make_state();
    state.config.inverter_type = "ThreePhase10kW".into();
    state.active_faults = vec!["inverter_trip".into()];
    let mut store = RegisterStore::new(default_register_catalogue());
    store.project_from_state(&state);
    assert_eq!(
        store.read_by_space(1305, RegisterSpace::Input),
        Some(0x0010)
    );
}

#[test]
fn three_phase_battery_over_temp_uses_ir_1307() {
    let mut state = make_state();
    state.config.inverter_type = "ACThreePhase".into();
    state.active_faults = vec!["battery_over_temp".into()];
    let mut store = RegisterStore::new(default_register_catalogue());
    store.project_from_state(&state);
    assert_eq!(
        store.read_by_space(1307, RegisterSpace::Input),
        Some(0x0200)
    );
}

#[test]
fn three_phase_combined_fault_words() {
    let mut state = make_state();
    state.config.inverter_type = "ThreePhase".into();
    state.active_faults = vec![
        "grid_loss".into(),
        "inverter_trip".into(),
        "battery_over_temp".into(),
        "comm_timeout".into(),
        "sensor_drift".into(),
    ];
    let mut store = RegisterStore::new(default_register_catalogue());
    store.project_from_state(&state);
    assert_eq!(
        store.read_by_space(1301, RegisterSpace::Input),
        Some(0x8001)
    );
    assert_eq!(
        store.read_by_space(1305, RegisterSpace::Input),
        Some(0x2010)
    );
    assert_eq!(
        store.read_by_space(1307, RegisterSpace::Input),
        Some(0x0200)
    );
    for addr in [1300, 1302, 1303, 1304, 1306] {
        assert_eq!(store.read_by_space(addr, RegisterSpace::Input), Some(0));
    }
}

#[test]
fn ir31_eps_backup_power_zero_when_eps_disabled() {
    let state = make_state();
    assert_eq!(store_ir31(&state), 0);
}

#[test]
fn ir31_eps_backup_power_zero_when_eps_armed_but_grid_healthy() {
    let mut state = make_state();
    state.enable_eps = true;
    assert!(state.grid.connected);
    assert_eq!(store_ir31(&state), 0);
}

#[test]
fn ir31_eps_backup_power_reflects_battery_discharge_during_grid_loss() {
    let mut state = make_state();
    state.enable_eps = true;
    state.active_faults.push("grid_loss".into());
    state.batteries[0].power_kw = fx(-2.5);
    sync(&mut state);
    assert_eq!(store_ir31(&state), 2500);
}

#[test]
fn ir31_eps_backup_power_zero_during_grid_loss_when_eps_not_enabled() {
    let mut state = make_state();
    state.enable_eps = false;
    state.active_faults.push("grid_loss".into());
    state.batteries[0].power_kw = fx(-1.0);
    sync(&mut state);
    assert_eq!(store_ir31(&state), 0);
}

#[test]
fn ir31_eps_backup_power_clamps_negative_during_grid_loss_charging() {
    let mut state = make_state();
    state.enable_eps = true;
    state.active_faults.push("grid_loss".into());
    state.batteries[0].power_kw = fx(1.5); // charging
    sync(&mut state);
    assert_eq!(store_ir31(&state), 0);
}

#[test]
fn ir_6_7_throughput_reflects_seeded_three_year_pack() {
    let state = plant();
    let mut store = RegisterStore::new(default_register_catalogue());
    store.project_from_state(&state);

    let total_kwh = val(state.batteries[0].throughput_kwh);
    assert!(
        total_kwh > 0.0,
        "plant creation must seed throughput_kwh to a realistic value, got {total_kwh}",
    );

    let raw = (total_kwh / 0.1).round() as u32;
    let ir6 = store.read_by_space(6, RegisterSpace::Input).unwrap() as u32;
    let ir7 = store.read_by_space(7, RegisterSpace::Input).unwrap() as u32;
    let recombined = (ir6 << 16) | ir7;
    assert_eq!(
        recombined, raw,
        "IR(6-7) {ir6:#06x}::{ir7:#06x} = {recombined} (kWh*10) must match seed raw {raw}",
    );
}

#[test]
fn ir_47_48_work_time_reflects_seeded_three_year_runtime() {
    let state = plant();
    let mut store = RegisterStore::new(default_register_catalogue());
    store.project_from_state(&state);

    let hours = val(state.inverter.work_time_hours);
    assert!(
        hours > 0.0,
        "plant creation must seed work_time_hours to a realistic value, got {hours}",
    );

    let raw = hours.round() as u32;
    let ir47 = store.read_by_space(47, RegisterSpace::Input).unwrap() as u32;
    let ir48 = store.read_by_space(48, RegisterSpace::Input).unwrap() as u32;
    let recombined = (ir47 << 16) | ir48;
    assert_eq!(
        recombined, raw,
        "IR(47-48) {ir47:#06x}::{ir48:#06x} = {recombined} h must match seed raw {raw}",
    );
}

fn store_hr223(state: &PlantState) -> u16 {
    let mut s = RegisterStore::new(default_register_catalogue());
    s.project_from_state(state);
    s.read_by_space(223, RegisterSpace::Holding).unwrap()
}
fn store_hr224(state: &PlantState) -> u16 {
    let mut s = RegisterStore::new(default_register_catalogue());
    s.project_from_state(state);
    s.read_by_space(224, RegisterSpace::Holding).unwrap()
}
fn store_ir0(state: &PlantState) -> u16 {
    let mut s = RegisterStore::new(default_register_catalogue());
    s.project_from_state(state);
    s.read_by_space(0, RegisterSpace::Input).unwrap()
}
fn store_ir57(state: &PlantState) -> u16 {
    let mut s = RegisterStore::new(default_register_catalogue());
    s.project_from_state(state);
    s.read_by_space(57, RegisterSpace::Input).unwrap()
}
fn store_ir31(state: &PlantState) -> u16 {
    let mut s = RegisterStore::new(default_register_catalogue());
    s.project_from_state(state);
    s.read_by_space(31, RegisterSpace::Input).unwrap()
}

#[test]
fn definitions_are_found_by_range() {
    let store = RegisterStore::new(default_register_catalogue());
    assert!(store.has_any_def_in_range(0, 60, RegisterSpace::Input));
    assert!(store.has_any_def_in_range(1600, 1, RegisterSpace::Input));
    assert!(!store.has_any_def_in_range(9000, 100, RegisterSpace::Input));
    assert!(!store.has_any_def_in_range(0, 0, RegisterSpace::Holding));
    assert_eq!(store.definitions().len(), default_register_catalogue().len());
}

#[test]
fn the_holding_snapshot_holds_holding_registers() {
    let mut store = RegisterStore::new(default_register_catalogue());
    store.project_from_state(&plant());
    let all = store.snapshot_holding();
    assert_eq!(all.get(&0), Some(&0x2001));
    assert_eq!(all.get(&35), Some(&2025));
    assert!(all.len() < store.snapshot().len());
}

#[test]
fn projecting_twice_changes_nothing() {
    let s = gateway_state();
    let mut store = RegisterStore::new(default_register_catalogue());
    store.project_from_state(&s);
    let once = store.snapshot();
    store.project_from_state(&s);
    assert_eq!(store.snapshot(), once);
    let mut other = RegisterStore::new(default_register_catalogue());
    other.project_from_state(&plant());
    other.project_from_state(&s);
    assert_eq!(other.snapshot(), once);
}

#[test]
fn a_write_reads_back_until_the_next_projection() {
    let mut store = RegisterStore::new(default_register_catalogue());
    assert_eq!(store.read(94), Some(0));
    assert!(store.write(94, 1234));
    assert_eq!(store.read(94), Some(1234));
    assert_eq!(store.read_by_space(94, RegisterSpace::Holding), Some(1234));
    assert!(!store.write(9999, 1));
    assert_eq!(store.read(9999), None);
}

#[test]
fn no_meter_shows_zeros() {
    let mut s = plant();
    s.grid.power_w = fx(2400.0);
    s.config.ct_meter_installed = false;
    let mut store = RegisterStore::new(default_register_catalogue());
    store.project_from_state(&s);
    for a in 60..=89 {
        assert_eq!(store.read_by_space(a, RegisterSpace::Input).unwrap_or(0), 0);
    }
}

#[test]
fn a_schedule_shown_twice_is_shown_once() {
    let mut sched = default_schedule();
    sched.charge[0].start = fx(1.5);
    sched.charge[0].end = fx(5.0);
    let mut store = RegisterStore::new(default_register_catalogue());
    store.project_schedule_for(&sched, "Gen3Hybrid");
    let once = store.snapshot();
    store.project_schedule_for(&sched, "Gen3Hybrid");
    assert_eq!(store.snapshot(), once);
    assert_eq!(store.read(94), Some(130));
}

#[test]
fn single_slot_models_show_no_further_charge_slot() {
    let mut sched = default_schedule();
    for i in 0..10 {
        sched.charge[i].start = fx(8.0);
        sched.charge[i].end = fx(9.0);
        sched.charge[i].target_soc = fx(70.0);
    }
    for model in ["ACCoupled", "ACCoupled2", "Gen2Hybrid"] {
        let mut store = RegisterStore::new(default_register_catalogue());
        store.project_schedule_for(&sched, model);
        let shown = |a: u16| store.read_by_space(a, RegisterSpace::Holding);
        assert_eq!((shown(94), shown(95)), (Some(800), Some(900)));
        assert_eq!((shown(1113), shown(1114)), (Some(800), Some(900)));
        assert_eq!(shown(242), Some(70));
        assert_eq!((shown(31), shown(243)), (Some(0), Some(0)));
        assert_eq!(shown(245), Some(0));
        for slot in 3..=10 {
            let a: u16 = 240 + 3 * (slot - 1);
            assert_eq!((shown(a), shown(a + 1), shown(a + 2)), (Some(60), Some(60), Some(0)));
        }
        assert_eq!((shown(1115), shown(1116)), (Some(60), Some(60)));
    }
    let mut store = RegisterStore::new(default_register_catalogue());
    store.project_schedule_for(&sched, "Gen3Hybrid");
    let shown = |a: u16| store.read_by_space(a, RegisterSpace::Holding);
    assert_eq!((shown(246), shown(247), shown(248)), (Some(800), Some(900), Some(70)));
    assert_eq!((shown(267), shown(268), shown(269)), (Some(800), Some(900), Some(70)));
    assert_eq!((shown(1115), shown(1116), shown(245)), (Some(800), Some(900), Some(70)));
}

#[test]
fn fault_words_agree_whatever_the_order() {
    let list = |ids: &[&str]| -> Vec<String> { ids.iter().map(|x| x.to_string()).collect() };
    let words = |model: &str, faults: Vec<String>| -> Vec<Option<u16>> {
        let mut s = plant();
        s.config.inverter_type = model.to_string();
        s.active_faults = faults;
        let mut store = RegisterStore::new(default_register_catalogue());
        store.project_from_state(&s);
        let mut v = vec![
            store.read_by_space(39, RegisterSpace::Input),
            store.read_by_space(40, RegisterSpace::Input),
            store.read_by_space(223, RegisterSpace::Holding),
            store.read_by_space(224, RegisterSpace::Holding),
        ];
        v.extend((1300..=1307).map(|a| store.read_by_space(a, RegisterSpace::Input)));
        v
    };
    for model in ["Gen3Hybrid", "ThreePhase", "Gateway12kW"] {
        let a = words(model, list(&["grid_loss", "sensor_drift", "comm_timeout"]));
        let b = words(
            model,
            list(&["comm_timeout", "meteor", "grid_loss", "sensor_drift", "grid_loss"]),
        );
        assert_eq!(a, b);
        assert_eq!((a[0], a[1]), (a[2], a[3]));
        assert_eq!(a[..4].iter().all(|w| *w == Some(0)), model == "ThreePhase");
        assert_eq!(a[4..].iter().all(|w| *w == Some(0)), model != "ThreePhase");
    }
}

#[test]
fn grid_power_reads_alike_with_and_without_a_meter() {
    let read = |watts: f64, meter: bool| -> (i16, i16, i16) {
        let mut s = plant();
        s.grid.power_w = fx(watts);
        s.config.ct_meter_installed = meter;
        let mut store = RegisterStore::new(default_register_catalogue());
        store.project_from_state(&s);
        (
            store.read_by_space(30, RegisterSpace::Input).unwrap() as i16,
            store.read_by_space(71, RegisterSpace::Input).unwrap() as i16,
            store.read_by_space(400, RegisterSpace::Holding).unwrap() as i16,
        )
    };
    assert_eq!(read(1500.7, true), (-1500, 1500, 1500));
    assert_eq!(read(-32767.0, true), (32767, -32767, -32767));
    assert_eq!(read(1500.7, false), (-1500, 0, 1500));
}

#[test]
fn the_registers_show_the_mode_in_force() {
    let mut s = plant();
    s.inverter.mode = InverterMode::Eco;
    s.inverter.effective_mode = InverterMode::ForceDischarge;
    let mut store = RegisterStore::new(default_register_catalogue());
    store.project_from_state(&s);
    assert_eq!(store.read(100), Some(3));
}

#[test]
fn battery_current_shows_hundredths_of_an_ampere() {
    let mut s = plant();
    s.batteries[0].power_kw = fx(2.4);
    sync(&mut s);
    let mut store = RegisterStore::new(default_register_catalogue());
    store.project_from_state(&s);
    assert_eq!(store.read_by_space(51, RegisterSpace::Input).unwrap() as i16, -5000);
    assert_eq!(store.read_by_space(205, RegisterSpace::Holding).unwrap() as i16, 5000);
    s.batteries[0].power_kw = fx(-0.001);
    sync(&mut s);
    store.project_from_state(&s);
    assert_eq!(store.read_by_space(51, RegisterSpace::Input).unwrap() as i16, 2);
}
