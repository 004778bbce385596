use rgbcal::knob::{DEAD_ZONE_HIGH, DEAD_ZONE_LOW, RAW_MAX};
use rgbcal::{Knob, LEVELS};

fn float_level(raw: i16) -> u32 {
    let raw = raw.clamp(0, 0x7fff) as u16;
    let scaled = raw as f32 / 10_000.0;
    let result = ((LEVELS + 2) as f32 * scaled - 2.0)
        .clamp(0.0, (LEVELS - 1) as f32)
        .floor();
    result as u32
}

#[test]
fn measure_agrees_with_the_float_formula_on_every_code() {
    for raw in i16::MIN..=i16::MAX {
        assert_eq!(Knob::measure(raw), float_level(raw), "raw = {}", raw);
    }
}

#[test]
fn measure_stays_in_range() {
    for raw in i16::MIN..=i16::MAX {
        assert!(Knob::measure(raw) < LEVELS);
    }
}

#[test]
fn measure_never_decreases() {
    let mut last = Knob::measure(i16::MIN);
    for raw in i16::MIN..=i16::MAX {
        let level = Knob::measure(raw);
        assert!(level >= last, "raw = {}", raw);
        last = level;
    }
}

#[test]
fn measure_exact_values() {
    assert_eq!(Knob::measure(0), 0);
    assert_eq!(Knob::measure(2000), 1);
    assert_eq!(Knob::measure(4999), 6);
    assert_eq!(Knob::measure(5000), 7);
    assert_eq!(Knob::measure(5555), 7);
    assert_eq!(Knob::measure(5556), 8);
    assert_eq!(Knob::measure(9000), 14);
    assert_eq!(Knob::measure(10_000), 15);
}

#[test]
fn measure_negative_codes_count_as_zero() {
    assert_eq!(Knob::measure(-1), 0);
    assert_eq!(Knob::measure(i16::MIN), 0);
}

#[test]
fn measure_top_code() {
    assert_eq!(RAW_MAX, 0x7fff);
    assert_eq!(Knob::measure(RAW_MAX), 15);
}

#[test]
fn measure_low_dead_zone() {
    assert_eq!(DEAD_ZONE_LOW, 1666);
    for raw in 0..=DEAD_ZONE_LOW {
        assert_eq!(Knob::measure(raw), 0);
    }
    assert_eq!(Knob::measure(DEAD_ZONE_LOW + 1), 1);
}

#[test]
fn measure_high_dead_zone() {
    assert_eq!(DEAD_ZONE_HIGH, 9445);
    for raw in DEAD_ZONE_HIGH..=RAW_MAX {
        assert_eq!(Knob::measure(raw), 15);
    }
    assert_eq!(Knob::measure(DEAD_ZONE_HIGH - 1), 14);
}

#[test]
fn measure_raw_16000_is_top_level() {
    assert_eq!(Knob::measure(16_000), 15);
}
