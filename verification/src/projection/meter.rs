//! CT clamp meter input registers, IR 60-89.
//!
//! A single-phase site carries all power on phase 1; a three-phase site splits it
//! evenly. Positive power imports.
use crate::fixed;
use crate::fixed::{cut_word_of, magnitude_of, signed_cut_word_of, MAX_MICROS};
use crate::model;
use crate::model::is_three_phase_inverter;
use crate::projection;
use crate::projection::scaled_of;
use crate::state::PlantState;
use crate::text::same;
use vstd::prelude::*;

verus! {

/// What the meter register `name` shows while a meter is installed.
pub open spec fn meter(name: Seq<char>, scale: int, s: PlantState) -> Option<int> {
    if name == "meter_v_phase_1"@ {
        Some(
            if s.grid.connected {
                projection::scaled(240_000_000, 1, scale)
            } else {
                projection::scaled(0, 1, scale)
            },
        )
    } else if name == "meter_v_phase_2"@ || name == "meter_v_phase_3"@ {
        Some(
            if s.grid.connected && model::three_phase(s.config.inverter_type@) {
                projection::scaled(240_000_000, 1, scale)
            } else {
                projection::scaled(0, 1, scale)
            },
        )
    } else if name == "meter_i_phase_1"@ {
        Some(
            if model::three_phase(s.config.inverter_type@) {
                fixed::cut_word(fixed::magnitude(s.grid.power_w@), 7_200_000)
            } else {
                fixed::cut_word(fixed::magnitude(s.grid.power_w@), 2_400_000)
            },
        )
    } else if name == "meter_i_phase_2"@ || name == "meter_i_phase_3"@ {
        Some(
            if model::three_phase(s.config.inverter_type@) {
                fixed::cut_word(fixed::magnitude(s.grid.power_w@), 7_200_000)
            } else {
                0
            },
        )
    } else if name == "meter_i_ln"@ {
        Some(0)
    } else if name == "meter_i_total"@ {
        Some(fixed::cut_word(fixed::magnitude(s.grid.power_w@), 2_400_000))
    } else if name == "meter_p_active_phase_1"@ {
        Some(
            if model::three_phase(s.config.inverter_type@) {
                fixed::signed_cut_word(s.grid.power_w@, 3_000_000)
            } else {
                fixed::signed_cut_word(s.grid.power_w@, 1_000_000)
            },
        )
    } else if name == "meter_p_active_phase_2"@ || name == "meter_p_active_phase_3"@ {
        Some(
            if model::three_phase(s.config.inverter_type@) {
                fixed::signed_cut_word(s.grid.power_w@, 3_000_000)
            } else {
                0
            },
        )
    } else if name == "meter_p_active_total"@ {
        Some(fixed::signed_cut_word(s.grid.power_w@, 1_000_000))
    } else if name == "meter_p_reactive_phase_1"@
        || name == "meter_p_reactive_phase_2"@
        || name == "meter_p_reactive_phase_3"@
        || name == "meter_p_reactive_total"@ {
        Some(0)
    } else if name == "meter_p_apparent_phase_1"@ {
        Some(
            if model::three_phase(s.config.inverter_type@) {
                fixed::cut_word(fixed::magnitude(s.grid.power_w@), 3_000_000)
            } else {
                fixed::cut_word(fixed::magnitude(s.grid.power_w@), 1_000_000)
            },
        )
    } else if name == "meter_p_apparent_phase_2"@ || name == "meter_p_apparent_phase_3"@ {
        Some(
            if model::three_phase(s.config.inverter_type@) {
                fixed::cut_word(fixed::magnitude(s.grid.power_w@), 3_000_000)
            } else {
                0
            },
        )
    } else if name == "meter_p_apparent_total"@ {
        Some(fixed::cut_word(fixed::magnitude(s.grid.power_w@), 1_000_000))
    } else if name == "meter_pf_phase_1"@ || name == "meter_pf_total"@ {
        Some(
            if fixed::magnitude(s.grid.power_w@) > 1_000_000 {
                1000
            } else {
                0
            },
        )
    } else if name == "meter_pf_phase_2"@ || name == "meter_pf_phase_3"@ {
        Some(
            if model::three_phase(s.config.inverter_type@) && fixed::magnitude(s.grid.power_w@) > 1_000_000 {
                1000
            } else {
                0
            },
        )
    } else if name == "meter_frequency"@ {
        Some(projection::scaled(50_000_000, 1, scale))
    } else if name == "meter_e_import_active"@ {
        Some(projection::scaled(123_400_000, 1, scale))
    } else if name == "meter_e_import_reactive"@
        || name == "meter_e_export_reactive"@
        || name == "meter_reserved"@ {
        Some(projection::scaled(0, 1, scale))
    } else if name == "meter_e_export_active"@ {
        Some(projection::scaled(432_100_000, 1, scale))
    } else {
        None
    }
}

/// What the meter register `name` shows while a meter is installed.
pub fn meter_of(name: &str, scale: i64, s: &PlantState) -> (r: Option<u16>)
    requires
        -MAX_MICROS <= scale <= MAX_MICROS,
    ensures
        projection::lifted(r) == meter(name@, scale as int, *s),
{
    if same(name, "meter_v_phase_1") {
        return Some(
            if s.grid.connected {
                scaled_of(240_000_000, 1, scale)
            } else {
                scaled_of(0, 1, scale)
            },
        );
    }
    if same(name, "meter_v_phase_2") || same(name, "meter_v_phase_3") {
        return Some(
            if s.grid.connected && is_three_phase_inverter(s.config.inverter_type.as_str()) {
                scaled_of(240_000_000, 1, scale)
            } else {
                scaled_of(0, 1, scale)
            },
        );
    }
    if same(name, "meter_i_phase_1") {
        return Some(
            if is_three_phase_inverter(s.config.inverter_type.as_str()) {
                cut_word_of(magnitude_of(s.grid.power_w.micros()) as i128, 7_200_000)
            } else {
                cut_word_of(magnitude_of(s.grid.power_w.micros()) as i128, 2_400_000)
            },
        );
    }
    if same(name, "meter_i_phase_2") || same(name, "meter_i_phase_3") {
        return Some(
            if is_three_phase_inverter(s.config.inverter_type.as_str()) {
                cut_word_of(magnitude_of(s.grid.power_w.micros()) as i128, 7_200_000)
            } else {
                0
            },
        );
    }
    if same(name, "meter_i_ln") {
        return Some(0);
    }
    if same(name, "meter_i_total") {
        return Some(cut_word_of(magnitude_of(s.grid.power_w.micros()) as i128, 2_400_000));
    }
    if same(name, "meter_p_active_phase_1") {
        return Some(
            if is_three_phase_inverter(s.config.inverter_type.as_str()) {
                signed_cut_word_of(s.grid.power_w.exact(), 3_000_000)
            } else {
                signed_cut_word_of(s.grid.power_w.exact(), 1_000_000)
            },
        );
    }
    if same(name, "meter_p_active_phase_2") || same(name, "meter_p_active_phase_3") {
        return Some(
            if is_three_phase_inverter(s.config.inverter_type.as_str()) {
                signed_cut_word_of(s.grid.power_w.exact(), 3_000_000)
            } else {
                0
            },
        );
    }
    if same(name, "meter_p_active_total") {
        return Some(signed_cut_word_of(s.grid.power_w.exact(), 1_000_000));
    }
    if same(name, "meter_p_reactive_phase_1")
        || same(name, "meter_p_reactive_phase_2")
        || same(name, "meter_p_reactive_phase_3")
        || same(name, "meter_p_reactive_total") {
        return Some(0);
    }
    if same(name, "meter_p_apparent_phase_1") {
        return Some(
            if is_three_phase_inverter(s.config.inverter_type.as_str()) {
                cut_word_of(magnitude_of(s.grid.power_w.micros()) as i128, 3_000_000)
            } else {
                cut_word_of(magnitude_of(s.grid.power_w.micros()) as i128, 1_000_000)
            },
        );
    }
    if same(name, "meter_p_apparent_phase_2") || same(name, "meter_p_apparent_phase_3") {
        return Some(
            if is_three_phase_inverter(s.config.inverter_type.as_str()) {
                cut_word_of(magnitude_of(s.grid.power_w.micros()) as i128, 3_000_000)
            } else {
                0
            },
        );
    }
    if same(name, "meter_p_apparent_total") {
        return Some(cut_word_of(magnitude_of(s.grid.power_w.micros()) as i128, 1_000_000));
    }
    if same(name, "meter_pf_phase_1") || same(name, "meter_pf_total") {
        return Some(
            if magnitude_of(s.grid.power_w.micros()) > 1_000_000 {
                1000
            } else {
                0
            },
        );
    }
    if same(name, "meter_pf_phase_2") || same(name, "meter_pf_phase_3") {
        return Some(
            if is_three_phase_inverter(s.config.inverter_type.as_str()) && magnitude_of(s.grid.power_w.micros()) > 1_000_000 {
                1000
            } else {
                0
            },
        );
    }
    if same(name, "meter_frequency") {
        return Some(scaled_of(50_000_000, 1, scale));
    }
    if same(name, "meter_e_import_active") {
        return Some(scaled_of(123_400_000, 1, scale));
    }
    if same(name, "meter_e_import_reactive")
        || same(name, "meter_e_export_reactive")
        || same(name, "meter_reserved") {
        return Some(scaled_of(0, 1, scale));
    }
    if same(name, "meter_e_export_active") {
        return Some(scaled_of(432_100_000, 1, scale));
    }
    None
}

} // verus!
