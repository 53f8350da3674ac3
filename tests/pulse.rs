use rust_stm32f4_discovery::tilt::{advance, increments, polled_mask, polled_pattern, pulse_tick, toggle_mask, PulseAccumulators, Toggles, CEILING};
use rust_stm32f4_discovery::indicator::{pattern_mask, set_pattern};

#[test]
fn increments_at_class_edges() {
    assert_eq!(increments(0x00), (60, 1));
    assert_eq!(increments(0x7F), (1, 1));
    assert_eq!(increments(0x80), (1, 1));
    assert_eq!(increments(0xFF), (1, 60));
    assert_eq!(increments(0x40), (30, 1));
    assert_eq!(increments(0xC0), (1, 30));
}

#[test]
fn every_raw_value_has_increments() {
    for v in 0..=255u8 {
        let (low, high) = increments(v);
        assert!(low >= 1 && low <= CEILING);
        assert!(high >= 1 && high <= CEILING);
        if v <= 0x7F {
            assert_eq!(high, 1);
        } else {
            assert_eq!(low, 1);
        }
    }
}

#[test]
fn advance_resets_on_ceiling() {
    assert_eq!(advance(58, 1), (59, false));
    assert_eq!(advance(59, 1), (0, true));
    assert_eq!(advance(59, 60), (0, true));
    assert_eq!(advance(0, 60), (0, true));
}

#[test]
fn accumulators_stay_below_ceiling() {
    let mut acc = PulseAccumulators::new();
    let mut v: u8 = 7;
    for _ in 0..1000 {
        v = v.wrapping_mul(31).wrapping_add(17);
        acc.tick(v, v.wrapping_add(101));
        assert!(acc.x_low < CEILING && acc.x_high < CEILING);
        assert!(acc.y_low < CEILING && acc.y_high < CEILING);
    }
}

#[test]
fn full_low_tilt_fires_every_tick() {
    let mut acc = PulseAccumulators::new();
    for _ in 0..120 {
        let t = acc.tick(0x00, 0x7F);
        assert!(t.x_low);
        assert_eq!(acc.x_low, 0);
    }
}

#[test]
fn level_axis_fires_once_per_ceiling() {
    let mut acc = PulseAccumulators::new();
    let mut fired = 0;
    for _ in 0..600 {
        if acc.tick(0x7F, 0x7F).x_low {
            fired += 1;
        }
    }
    assert_eq!(fired, 10);
}

#[test]
fn pulse_tick_word_flips_fired_leds() {
    let mut acc = PulseAccumulators::new();
    let (t, w) = pulse_tick(&mut acc, 0x00, 0xFF, 0x8000);
    assert_eq!(t, Toggles { x_low: true, x_high: false, y_low: false, y_high: true });
    assert_eq!(toggle_mask(t), 0x9);
    assert_eq!(w, 0x8000_1000);
}

#[test]
fn polled_thresholds() {
    assert_eq!(polled_mask(0x00, 0xFF), 0x8 | 0x1);
    assert_eq!(polled_mask(0x40, 0xA0), 0x8 | 0x1);
    assert_eq!(polled_mask(0x41, 0x9F), 0);
    assert_eq!(polled_mask(0xA0, 0x40), 0x2 | 0x4);
    assert_eq!(pattern_mask(polled_pattern(0x10, 0x50)), 0x8);
    assert_eq!(set_pattern(polled_pattern(0x60, 0x60)), 0xF000_0000);
}
