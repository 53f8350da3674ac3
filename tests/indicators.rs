use rust_stm32f4_discovery::indicator::{apply_set_reset, pattern_mask, pin, set_pattern, toggle_word, Led, Pattern};
use rust_stm32f4_discovery::mode::{next_color, ButtonLatch, Foreground, Mode};

#[test]
fn pins_of_leds() {
    assert_eq!(pin(Led::Green), 12);
    assert_eq!(pin(Led::Orange), 13);
    assert_eq!(pin(Led::Red), 14);
    assert_eq!(pin(Led::Blue), 15);
}

#[test]
fn pattern_words() {
    assert_eq!(set_pattern(Pattern::AllOn), 0x0000_F000);
    assert_eq!(set_pattern(Pattern::AllOff), 0xF000_0000);
    assert_eq!(set_pattern(Pattern::Single(Led::Red)), 0xB000_4000);
    assert_eq!(set_pattern(Pattern::Mask(0x15)), 0xA000_5000);
    assert_eq!(pattern_mask(Pattern::Mask(0xFF)), 0xF);
}

#[test]
fn set_pattern_twice_is_no_op() {
    let levels: u32 = 0x5A3C;
    for p in [Pattern::AllOn, Pattern::AllOff, Pattern::Single(Led::Blue), Pattern::Mask(0x9)] {
        let w = set_pattern(p);
        let once = apply_set_reset(levels, w);
        let twice = apply_set_reset(once, w);
        assert_eq!(once, twice);
        assert_eq!((once >> 12) & 0xF, pattern_mask(p));
        assert_eq!(once & 0x0FFF, levels & 0x0FFF);
    }
}

#[test]
fn toggle_flips_only_masked_leds() {
    let levels: u32 = 0xA123;
    let w = toggle_word(levels, 0x3);
    assert_eq!(w, 0x2000_1000);
    assert_eq!(apply_set_reset(levels, w), 0x9123);
}

#[test]
fn rest_level_stays_idle() {
    let mut latch = ButtonLatch::new();
    let mut fg = Foreground::new();
    for _ in 0..100 {
        latch.on_edge(false);
        fg.step(latch.armed);
        assert_eq!(fg.mode, Mode::Idle);
        assert_eq!(latch.mode(), Mode::Idle);
    }
}

#[test]
fn bounce_gives_one_activation() {
    let mut latch = ButtonLatch::new();
    let mut fg = Foreground::new();
    let mut activations = 0;
    let mut previous = fg.mode;
    for iteration in 0..10 {
        if iteration == 3 {
            for level in [true, false, true, false, true] {
                latch.on_edge(level);
            }
        }
        fg.step(latch.armed);
        if previous == Mode::Idle && fg.mode == Mode::Active {
            activations += 1;
        }
        previous = fg.mode;
    }
    assert_eq!(activations, 1);
    assert_eq!(fg.mode, Mode::Active);
}

#[test]
fn idle_blinks_and_active_cycles_colours() {
    let mut fg = Foreground::new();
    assert_eq!(fg.step(false), Pattern::AllOn);
    assert_eq!(fg.step(false), Pattern::AllOff);
    assert_eq!(fg.step(true), Pattern::Single(Led::Green));
    assert_eq!(fg.step(true), Pattern::Single(Led::Orange));
    assert_eq!(fg.step(true), Pattern::Single(Led::Red));
    assert_eq!(fg.step(true), Pattern::Single(Led::Blue));
    assert_eq!(fg.step(true), Pattern::Single(Led::Green));
    assert_eq!(fg.step(false), Pattern::AllOn);
    assert_eq!(next_color(Led::Blue), Led::Green);
}
