//! Quantities, their words and their text.
use givenergy_sim::battery_banks::{cell_voltage_factor, FACTOR_ONE};
use givenergy_sim::calendar::{earlier, has_reached, ClockTime};
use givenergy_sim::fixed::{
    cut_word_of, high_half_of, low_half_of, magnitude_of, nearest_of, positive_part_of,
    rounded_of, rounded_word_of, saturate_to, signed_cut_word_of, signed_rounded_word_of,
    signed_wide_of, toward_zero_of, wide_of, Fixed,
};
use givenergy_sim::model::{nominal_decivolts_of, shipped_firmware_of, shown_firmware_of};
use givenergy_sim::numerals::{append_micros, append_padded, append_shortest};
use givenergy_sim::schedule::{clock_reading_of, is_off_slot, Slot};
use givenergy_sim::state::{has_fault, Timestamp};
use givenergy_sim::text::{
    append_decimal, characters, join_of, joined, lowered_of, push_hex, same, starts_with,
    string_between,
};

#[test]
fn quantities_keep_to_their_range() {
    assert_eq!(Fixed::from_units(-3).micros(), -3_000_000);
    assert_eq!(Fixed::from_micros(i64::MAX).micros(), 1_000_000_000_000_000_000);
    assert_eq!(Fixed::from_micros(i64::MIN).micros(), -1_000_000_000_000_000_000);
    assert_eq!(Fixed::from_micros(7).exact(), 7);
}

#[test]
fn halves_round_away_from_zero() {
    assert_eq!(nearest_of(5, 2), 3);
    assert_eq!(nearest_of(-5, 2), -3);
    assert_eq!(nearest_of(4, 3), 1);
    assert_eq!(toward_zero_of(5, 2), 2);
    assert_eq!(toward_zero_of(-5, 2), -2);
    assert_eq!(saturate_to(9, 0, 5), 5);
    assert_eq!(saturate_to(-9, 0, 5), 0);
    assert_eq!(magnitude_of(-4), 4);
    assert_eq!(positive_part_of(-4), 0);
    assert_eq!(positive_part_of(4), 4);
    assert_eq!(rounded_of(7, 2), Fixed::from_micros(4));
}

#[test]
fn a_rounded_word_lies_within_half_a_step() {
    for n in [0i128, 1, 49, 50, 51, 12_345, 6_553_449] {
        let w = rounded_word_of(n, 100) as i128;
        assert!((2 * (w * 100 - n)).abs() <= 100, "{n}");
    }
    assert_eq!(rounded_word_of(7_000_000, 100), 65535);
    assert_eq!(rounded_word_of(-7, 1), 0);
    assert_eq!(cut_word_of(199, 100), 1);
}

#[test]
fn signed_words_read_back() {
    for x in [-32768i128, -1500, -1, 0, 1, 1500, 32767] {
        assert_eq!(signed_cut_word_of(x, 1) as i16 as i128, x);
        assert_eq!(signed_rounded_word_of(x, 1) as i16 as i128, x);
    }
    assert_eq!(signed_cut_word_of(-15, 10) as i16, -1);
    assert_eq!(signed_rounded_word_of(-15, 10) as i16, -2);
    assert_eq!(signed_cut_word_of(99_999, 1), 32767);
}

#[test]
fn halves_recombine() {
    for raw in [0u32, 65535, 65536, 123_450, u32::MAX] {
        let both = (high_half_of(raw) as u32) << 16 | low_half_of(raw) as u32;
        assert_eq!(both, raw);
    }
    assert_eq!(wide_of(12_345_000_000, 100_000), 123_450);
    assert_eq!(wide_of(-1, 1), 0);
    assert_eq!(signed_wide_of(-1, 1), u32::MAX);
}

fn shown(micros: i64, places: u64) -> String {
    let mut s = String::new();
    append_micros(&mut s, micros, places);
    s
}

fn shortest(micros: i64) -> String {
    let mut s = String::new();
    append_shortest(&mut s, Fixed::from_micros(micros));
    s
}

#[test]
fn decimals_are_those_of_the_double() {
    assert_eq!(shown(2_500_000, 0), "2");
    assert_eq!(shown(3_500_000, 0), "4");
    assert_eq!(shown(250_000, 1), "0.2");
    assert_eq!(shown(350_000, 1), "0.3");
    assert_eq!(shown(50_005_000, 2), "50.01");
    assert_eq!(shown(62_345_000, 2), "62.34");
    assert_eq!(shown(1_005_000, 2), "1.00");
    assert_eq!(shown(-1_250_000, 2), "-1.25");
    assert_eq!(shown(1_050_000, 2), "1.05");
    assert_eq!(shown(-1, 1), "-0.0");
    assert_eq!(shown(999_999, 2), "1.00");
}

#[test]
fn texts_are_those_of_the_standard_library() {
    let mut tried: Vec<i64> = vec![0, 1, -1, 8_589_934_592_000_001, 999_999_999_999_999_999];
    let mut x: u64 = 1;
    for i in 0..3000u32 {
        x = x.wrapping_mul(6_364_136_223_846_793_005).wrapping_add(1_442_695_040_888_963_407);
        let m = (x % 1_000_000_000_000_000_000) as i64 >> (i % 60);
        tried.push(m);
        tried.push(-(m / 1_000 * 1_000 + 500));
        tried.push(m / 100_000 * 100_000 + 50_000);
        tried.push(m % 100_000_000_000 / 10_000 * 10_000 + 5_000);
    }
    for m in tried {
        let v = m as f64 / 1_000_000.0;
        if m.abs() < 1 << 53 {
            assert_eq!(shown(m, 0), format!("{v:.0}"), "{m}");
            assert_eq!(shown(m, 1), format!("{v:.1}"), "{m}");
            assert_eq!(shown(m, 2), format!("{v:.2}"), "{m}");
            assert_eq!(shortest(m), format!("{v}"), "{m}");
        }
    }
    assert_eq!(shown(999_999_999_999_994_999, 2), format!("{:.2}", 999999999999.994999f64));
    assert_eq!(shortest(999_999_999_999_994_999), format!("{}", 999999999999.994999f64));
    assert_eq!(shortest(8_589_934_592_000_001), format!("{}", 8589934592.000001f64));
    assert_eq!(shortest(123_456_789_012_345_678), format!("{}", 123456789012.345678f64));
}

#[test]
fn shortest_text_has_no_zeros_at_its_end() {
    assert_eq!(shortest(80_000_000), "80");
    assert_eq!(shortest(-500_000), "-0.5");
    assert_eq!(shortest(1_000_001), "1.000001");
    assert_eq!(shortest(0), "0");
    let mut s = "t".to_string();
    append_padded(&mut s, 1234, 3);
    assert_eq!(s, "t234");
}

#[test]
fn strings_are_compared_and_built() {
    assert!(same("é", "é"));
    assert!(!same("e", "é"));
    assert!(starts_with("Gateway12kW", "Gateway"));
    assert!(!starts_with("Gate", "Gateway"));
    assert_eq!(joined("a", "b"), "ab");
    assert_eq!(lowered_of("AbÉ"), "abÉ");
    let v = characters("aéz");
    assert_eq!(string_between(&v, 1, 3), "éz");
    let parts = vec!["x".to_string(), "y".to_string(), String::new()];
    assert_eq!(join_of(&parts, ";"), "x;y;");
    assert_eq!(join_of(&Vec::new(), ";"), "");
    let mut s = String::new();
    append_decimal(&mut s, u64::MAX);
    assert_eq!(s, "18446744073709551615");
    let mut b = Vec::new();
    push_hex(&mut b, 0x2af, 4);
    assert_eq!(b, b"02AF");
    assert!(has_fault(&parts, "y"));
    assert!(!has_fault(&parts, "z"));
}

#[test]
fn clock_readings_are_times() {
    assert_eq!(clock_reading_of(5_500_000), 530);
    assert_eq!(clock_reading_of(0), 0);
    assert_eq!(clock_reading_of(23_983_333), 2359);
    assert_eq!(clock_reading_of(23_999_000), 60);
    assert_eq!(clock_reading_of(24_000_000), 60);
    assert_eq!(clock_reading_of(-1), 60);
    let slot = |a: i64, b: i64| Slot {
        start: Fixed::from_micros(a),
        end: Fixed::from_micros(b),
        target_soc: Fixed::from_units(0),
    };
    assert!(is_off_slot(&slot(1_000_000, 1_000_999)));
    assert!(!is_off_slot(&slot(1_000_000, 1_001_000)));
}

#[test]
fn times_of_day_are_ordered() {
    let t = |hour: u32, minute: u32| ClockTime { hour, minute };
    assert!(earlier(t(7, 59), t(8, 0)));
    assert!(!earlier(t(8, 0), t(8, 0)));
    let now = Timestamp { year: 2025, month: 1, day: 1, hour: 8, minute: 0, second: 59, nanosecond: 0 };
    assert!(has_reached(&now, t(8, 0)));
    assert!(!has_reached(&now, t(8, 1)));
}

#[test]
fn firmware_and_voltage_follow_the_type() {
    assert_eq!(shipped_firmware_of("Gen1Hybrid"), 252);
    assert_eq!(shown_firmware_of("ThreePhase", 0), 612);
    assert_eq!(shown_firmware_of("ThreePhase", 7), 7);
    assert_eq!(nominal_decivolts_of("ThreePhase"), 768);
    assert_eq!(nominal_decivolts_of("AllInOne"), 3070);
    assert_eq!(nominal_decivolts_of("Gen3Hybrid"), 512);
}

#[test]
fn cells_stray_by_a_percent_at_most() {
    for m in 0..6 {
        for c in 0..24 {
            let f = cell_voltage_factor(m, c) as f64 / FACTOR_ONE as f64;
            assert!((0.99..=1.01).contains(&f));
            let mut h = (m as u64).wrapping_mul(0x9E3779B97F4A7C15)
                ^ (c as u64).wrapping_mul(0x517CC1B727220A95);
            h ^= h >> 33;
            h = h.wrapping_mul(0xFF51AFD7ED558CCD);
            h ^= h >> 33;
            let part = (h >> 11) as f64 / (1u64 << 53) as f64;
            let expected = 1.0 + (part * 2.0 - 1.0) * 0.01;
            assert!((f - expected).abs() < 1e-12);
        }
    }
}
