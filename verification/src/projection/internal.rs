//! Registers of the simulator itself, HR 100-729.
use crate::fixed;
use crate::fixed::{high_half_of, low_half_of, signed_cut_word_of, MAX_MICROS};
use crate::model;
use crate::model::is_gateway_inverter;
use crate::projection;
use crate::projection::native_input;
use crate::projection::native_input::single_phase_faults_of;
use crate::projection::{flag, scaled_of};
use crate::state::{InverterMode, PlantState};
use crate::text::same;
use vstd::prelude::*;

verus! {

/// The number of an inverter mode.
pub open spec fn mode_number(m: InverterMode) -> int {
    match m {
        InverterMode::Normal => 0,
        InverterMode::Eco => 1,
        InverterMode::ForceCharge => 2,
        InverterMode::ForceDischarge => 3,
        InverterMode::ExportLimit => 4,
    }
}

/// The number of an inverter mode.
fn mode_number_of(m: InverterMode) -> (r: u16)
    ensures
        r == mode_number(m),
{
    match m {
        InverterMode::Normal => 0,
        InverterMode::Eco => 1,
        InverterMode::ForceCharge => 2,
        InverterMode::ForceDischarge => 3,
        InverterMode::ExportLimit => 4,
    }
}

/// The number of a weather; rain and unknown names show as clear weather does.
pub open spec fn weather_number(weather: Seq<char>) -> int {
    if weather == "PartlyCloudy"@ {
        1
    } else if weather == "Overcast"@ {
        2
    } else if weather == "Storm"@ {
        3
    } else {
        0
    }
}

/// The number of a weather.
fn weather_number_of(weather: &str) -> (r: u16)
    ensures
        r == weather_number(weather@),
{
    if same(weather, "PartlyCloudy") {
        1
    } else if same(weather, "Overcast") {
        2
    } else if same(weather, "Storm") {
        3
    } else {
        0
    }
}

/// What the simulator register `name` shows.
pub open spec fn internal(name: Seq<char>, scale: int, s: PlantState) -> Option<int> {
    if name == "inverter_mode"@ {
        Some(mode_number(s.inverter.effective_mode))
    } else if name == "tph_force_charge_enable"@ {
        Some(
            if s.inverter.effective_mode == InverterMode::ForceCharge {
                1
            } else {
                0
            },
        )
    } else if name == "tph_force_discharge_enable"@ {
        Some(
            if s.inverter.effective_mode == InverterMode::ForceDischarge {
                1
            } else {
                0
            },
        )
    } else if name == "inverter_ac_power"@ {
        Some(projection::scaled(s.inverter.ac_power_w@, 1, scale))
    } else if name == "inverter_export_limit_w"@ {
        Some(projection::scaled(s.inverter.export_limit_w@, 1, scale))
    } else if name == "inverter_temperature"@ {
        Some(projection::scaled(s.inverter.temperature_celsius@, 1, scale))
    } else if name == "ge_hr_enable_battery_self_heating"@ {
        Some(projection::bit(s.inverter.battery_self_heating))
    } else if name == "ge_hr_enable_manual_battery_heater"@ {
        Some(projection::bit(s.inverter.manual_battery_heater))
    } else if name == "battery_soc"@ {
        Some(projection::scaled(s.battery.soc_percent@, 1, scale))
    } else if name == "battery_soc_2"@ {
        Some(
            if s.batteries@.len() > 1 {
                projection::scaled(s.batteries@[1].soc_percent@, 1, scale)
            } else {
                projection::scaled(0, 1, scale)
            },
        )
    } else if name == "battery_soc_3"@ {
        Some(
            if s.batteries@.len() > 2 {
                projection::scaled(s.batteries@[2].soc_percent@, 1, scale)
            } else {
                projection::scaled(0, 1, scale)
            },
        )
    } else if name == "battery_power"@ {
        Some(fixed::signed_cut_word(s.battery.power_kw@ * 1000, 1_000_000))
    } else if name == "battery_voltage"@ {
        Some(projection::scaled(4_400_000_000 + s.battery.soc_percent@ * 8, 100, scale))
    } else if name == "battery_current"@ {
        Some(fixed::signed_cut_word(s.battery.power_kw@ * 1000, 480_000))
    } else if name == "battery_temperature"@ {
        Some(projection::scaled(s.battery.temperature_celsius@, 1, scale))
    } else if name == "battery_capacity_kwh"@ {
        Some(projection::scaled(s.battery.capacity_kwh@, 1, scale))
    } else if name == "battery_max_charge_kw"@ {
        Some(projection::scaled(s.battery.max_charge_w@, 1000, scale))
    } else if name == "battery_max_discharge_kw"@ {
        Some(projection::scaled(s.battery.max_discharge_w@, 1000, scale))
    } else if name == "battery_min_soc"@ {
        Some(projection::scaled(s.battery.min_soc_percent@, 1, scale))
    } else if name == "battery_max_soc"@ {
        Some(projection::scaled(s.battery.max_soc_percent@, 1, scale))
    } else if name == "battery_charge_efficiency"@ {
        Some(
            if s.batteries@.len() > 0 {
                projection::scaled(s.batteries@[0].charge_efficiency@, 1, scale)
            } else {
                projection::scaled(950_000, 1, scale)
            },
        )
    } else if name == "battery_discharge_efficiency"@ {
        Some(
            if s.batteries@.len() > 0 {
                projection::scaled(s.batteries@[0].discharge_efficiency@, 1, scale)
            } else {
                projection::scaled(950_000, 1, scale)
            },
        )
    } else if name == "battery_module_count"@ {
        Some(
            if model::gateway(s.config.inverter_type@) {
                0
            } else {
                s.batteries@.len() as int % 65536
            },
        )
    } else if name == "ge_hr_inverter_errors_high"@ {
        Some(fixed::high_half(native_input::single_phase_faults(s)))
    } else if name == "ge_hr_inverter_errors_low"@ {
        Some(fixed::low_half(native_input::single_phase_faults(s)))
    } else if name == "pv_generation"@ {
        Some(projection::scaled(s.solar.generation_w@, 1, scale))
    } else if name == "pv_voltage"@ {
        Some(
            if s.solar.generation_w@ > 0 {
                projection::scaled(350_000_000, 1, scale)
            } else {
                projection::scaled(0, 1, scale)
            },
        )
    } else if name == "pv_current"@ {
        Some(projection::scaled(s.solar.generation_w@, 350, scale))
    } else if name == "pv_energy_today"@ || name == "solar_generation_kwh"@ {
        Some(projection::scaled(s.energy_totals.solar_generation_kwh@, 1, scale))
    } else if name == "pv_peak_capacity"@ {
        Some(projection::scaled(s.config.solar_peak_watts@, 1, scale))
    } else if name == "grid_power"@ {
        Some(fixed::signed_cut_word(s.grid.power_w@, 1_000_000))
    } else if name == "grid_voltage"@ {
        Some(projection::scaled(240_000_000, 1, scale))
    } else if name == "grid_frequency"@ {
        Some(projection::scaled(50_000_000, 1, scale))
    } else if name == "grid_connected"@ {
        Some(projection::bit(s.grid.connected))
    } else if name == "load_power"@ {
        Some(projection::scaled(s.load_demand_w@, 1, scale))
    } else if name == "grid_import_kwh"@ {
        Some(projection::scaled(s.energy_totals.grid_import_kwh@, 1, scale))
    } else if name == "grid_export_kwh"@ {
        Some(projection::scaled(s.energy_totals.grid_export_kwh@, 1, scale))
    } else if name == "battery_charge_kwh"@ {
        Some(projection::scaled(s.energy_totals.battery_charge_kwh@, 1, scale))
    } else if name == "battery_discharge_kwh"@ {
        Some(projection::scaled(s.energy_totals.battery_discharge_kwh@, 1, scale))
    } else if name == "load_consumption_kwh"@ {
        Some(projection::scaled(s.energy_totals.load_consumption_kwh@, 1, scale))
    } else if name == "config_battery_count"@ {
        Some(s.batteries@.len() as int % 65536)
    } else if name == "config_tick_interval"@ {
        Some(s.config.tick_interval_secs as int % 65536)
    } else if name == "config_weather"@ {
        Some(weather_number(s.weather@))
    } else if name == "schedule_charge_start"@
        || name == "schedule_charge_end"@
        || name == "schedule_discharge_start"@
        || name == "schedule_discharge_end"@ {
        Some(0)
    } else if name == "schedule_charge_target_soc"@ {
        Some(100)
    } else if name == "schedule_discharge_target_soc"@ {
        Some(10)
    } else {
        None
    }
}

/// What the simulator register `name` shows.
pub fn internal_of(name: &str, scale: i64, s: &PlantState) -> (r: Option<u16>)
    requires
        -MAX_MICROS <= scale <= MAX_MICROS,
    ensures
        projection::lifted(r) == internal(name@, scale as int, *s),
{
    if same(name, "inverter_mode") {
        return Some(mode_number_of(s.inverter.effective_mode));
    }
    if same(name, "tph_force_charge_enable") {
        return Some(
            if s.inverter.effective_mode == InverterMode::ForceCharge {
                1
            } else {
                0
            },
        );
    }
    if same(name, "tph_force_discharge_enable") {
        return Some(
            if s.inverter.effective_mode == InverterMode::ForceDischarge {
                1
            } else {
                0
            },
        );
    }
    if same(name, "inverter_ac_power") {
        return Some(scaled_of(s.inverter.ac_power_w.exact(), 1, scale));
    }
    if same(name, "inverter_export_limit_w") {
        return Some(scaled_of(s.inverter.export_limit_w.exact(), 1, scale));
    }
    if same(name, "inverter_temperature") {
        return Some(scaled_of(s.inverter.temperature_celsius.exact(), 1, scale));
    }
    if same(name, "ge_hr_enable_battery_self_heating") {
        return Some(flag(s.inverter.battery_self_heating));
    }
    if same(name, "ge_hr_enable_manual_battery_heater") {
        return Some(flag(s.inverter.manual_battery_heater));
    }
    if same(name, "battery_soc") {
        return Some(scaled_of(s.battery.soc_percent.exact(), 1, scale));
    }
    if same(name, "battery_soc_2") {
        return Some(
            if s.batteries.len() > 1 {
                scaled_of(s.batteries[1].soc_percent.exact(), 1, scale)
            } else {
                scaled_of(0, 1, scale)
            },
        );
    }
    if same(name, "battery_soc_3") {
        return Some(
            if s.batteries.len() > 2 {
                scaled_of(s.batteries[2].soc_percent.exact(), 1, scale)
            } else {
                scaled_of(0, 1, scale)
            },
        );
    }
    if same(name, "battery_power") {
        return Some(signed_cut_word_of(s.battery.power_kw.exact() * 1000, 1_000_000));
    }
    if same(name, "battery_voltage") {
        return Some(scaled_of(4_400_000_000 + s.battery.soc_percent.exact() * 8, 100, scale));
    }
    if same(name, "battery_current") {
        return Some(signed_cut_word_of(s.battery.power_kw.exact() * 1000, 480_000));
    }
    if same(name, "battery_temperature") {
        return Some(scaled_of(s.battery.temperature_celsius.exact(), 1, scale));
    }
    if same(name, "battery_capacity_kwh") {
        return Some(scaled_of(s.battery.capacity_kwh.exact(), 1, scale));
    }
    if same(name, "battery_max_charge_kw") {
        return Some(scaled_of(s.battery.max_charge_w.exact(), 1000, scale));
    }
    if same(name, "battery_max_discharge_kw") {
        return Some(scaled_of(s.battery.max_discharge_w.exact(), 1000, scale));
    }
    if same(name, "battery_min_soc") {
        return Some(scaled_of(s.battery.min_soc_percent.exact(), 1, scale));
    }
    if same(name, "battery_max_soc") {
        return Some(scaled_of(s.battery.max_soc_percent.exact(), 1, scale));
    }
    if same(name, "battery_charge_efficiency") {
        return Some(
            if s.batteries.len() > 0 {
                scaled_of(s.batteries[0].charge_efficiency.exact(), 1, scale)
            } else {
                scaled_of(950_000, 1, scale)
            },
        );
    }
    if same(name, "battery_discharge_efficiency") {
        return Some(
            if s.batteries.len() > 0 {
                scaled_of(s.batteries[0].discharge_efficiency.exact(), 1, scale)
            } else {
                scaled_of(950_000, 1, scale)
            },
        );
    }
    if same(name, "battery_module_count") {
        return Some(
            if is_gateway_inverter(s.config.inverter_type.as_str()) {
                0
            } else {
                (s.batteries.len() % 65536) as u16
            },
        );
    }
    if same(name, "ge_hr_inverter_errors_high") {
        return Some(high_half_of(single_phase_faults_of(s)));
    }
    if same(name, "ge_hr_inverter_errors_low") {
        return Some(low_half_of(single_phase_faults_of(s)));
    }
    if same(name, "pv_generation") {
        return Some(scaled_of(s.solar.generation_w.exact(), 1, scale));
    }
    if same(name, "pv_voltage") {
        return Some(
            if s.solar.generation_w.micros() > 0 {
                scaled_of(350_000_000, 1, scale)
            } else {
                scaled_of(0, 1, scale)
            },
        );
    }
    if same(name, "pv_current") {
        return Some(scaled_of(s.solar.generation_w.exact(), 350, scale));
    }
    if same(name, "pv_energy_today") || same(name, "solar_generation_kwh") {
        return Some(scaled_of(s.energy_totals.solar_generation_kwh.exact(), 1, scale));
    }
    if same(name, "pv_peak_capacity") {
        return Some(scaled_of(s.config.solar_peak_watts.exact(), 1, scale));
    }
    if same(name, "grid_power") {
        return Some(signed_cut_word_of(s.grid.power_w.exact(), 1_000_000));
    }
    if same(name, "grid_voltage") {
        return Some(scaled_of(240_000_000, 1, scale));
    }
    if same(name, "grid_frequency") {
        return Some(scaled_of(50_000_000, 1, scale));
    }
    if same(name, "grid_connected") {
        return Some(flag(s.grid.connected));
    }
    if same(name, "load_power") {
        return Some(scaled_of(s.load_demand_w.exact(), 1, scale));
    }
    if same(name, "grid_import_kwh") {
        return Some(scaled_of(s.energy_totals.grid_import_kwh.exact(), 1, scale));
    }
    if same(name, "grid_export_kwh") {
        return Some(scaled_of(s.energy_totals.grid_export_kwh.exact(), 1, scale));
    }
    if same(name, "battery_charge_kwh") {
        return Some(scaled_of(s.energy_totals.battery_charge_kwh.exact(), 1, scale));
    }
    if same(name, "battery_discharge_kwh") {
        return Some(scaled_of(s.energy_totals.battery_discharge_kwh.exact(), 1, scale));
    }
    if same(name, "load_consumption_kwh") {
        return Some(scaled_of(s.energy_totals.load_consumption_kwh.exact(), 1, scale));
    }
    if same(name, "config_battery_count") {
        return Some((s.batteries.len() % 65536) as u16);
    }
    if same(name, "config_tick_interval") {
        return Some((s.config.tick_interval_secs % 65536) as u16);
    }
    if same(name, "config_weather") {
        return Some(weather_number_of(s.weather.as_str()));
    }
    if same(name, "schedule_charge_start")
        || same(name, "schedule_charge_end")
        || same(name, "schedule_discharge_start")
        || same(name, "schedule_discharge_end") {
        return Some(0);
    }
    if same(name, "schedule_charge_target_soc") {
        return Some(100);
    }
    if same(name, "schedule_discharge_target_soc") {
        return Some(10);
    }
    None
}

} // verus!
