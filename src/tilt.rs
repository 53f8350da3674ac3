//! Tilt-to-indicator mapping.
//!
//! Two designs share the raw axis bytes read from the sensor. The pulse
//! design keeps one accumulator per indicator: every tick each grows by an
//! amount set by the tilt, and one that reaches `CEILING` restarts at zero
//! and flips its indicator, so the flip rate follows the tilt. The polled
//! design lights indicators from fixed bounds on each axis.
use vstd::prelude::*;
use crate::indicator::{ALL_LEDS, bit, led_bit, mask_of, toggle_word, toggle_word_of, Led, Pattern};

verus! {

/// Accumulator ceiling, in ticks: also the number of ticks per timebase.
pub const CEILING: u8 = 60;

/// Last raw value of the low class; the high class starts right after it.
pub const LOW_CLASS_MAX: u8 = 0x7F;

/// First raw value of the high class.
pub const HIGH_CLASS_MIN: u8 = 0x80;

/// Width of each class, the divisor of the proportional increment.
pub const CLASS_SPAN: u8 = 0x7F;

/// Polled design: an axis at or below this bound lights its low indicator.
pub const POLL_LOW_BOUND: u8 = 0x40;

/// Polled design: an axis at or above this bound lights its high indicator.
/// Values strictly between the two bounds light neither.
pub const POLL_HIGH_BOUND: u8 = 0xA0;

/// Increment for a channel at `distance` from the neutral end of its class:
/// one at distance 0, `CEILING` at the far end, proportional in between.
pub open spec fn duty_step(distance: int) -> int {
    1 + ((CEILING - 1) * distance) / (CLASS_SPAN as int)
}

/// Whether a raw axis value falls in the low class.
pub open spec fn in_low_class(v: u8) -> bool {
    v <= LOW_CLASS_MAX
}

/// Whether a raw axis value falls in the high class.
pub open spec fn in_high_class(v: u8) -> bool {
    HIGH_CLASS_MIN <= v
}

/// The increments of the (low, high) channels of one axis for a raw value:
/// the channel of the value's class grows with the tilt, the other by one.
pub open spec fn increments_of(v: u8) -> (int, int) {
    if in_low_class(v) {
        (duty_step(LOW_CLASS_MAX - v), 1)
    } else {
        (1, duty_step(v - HIGH_CLASS_MIN))
    }
}

/// One accumulator after a tick: it either grows or, on reaching the
/// ceiling, restarts at zero and fires (second component).
pub open spec fn advanced(count: int, inc: int) -> (int, bool) {
    if count + inc >= CEILING {
        (0, true)
    } else {
        (count + inc, false)
    }
}

proof fn lemma_duty_step_range(distance: int)
    requires
        0 <= distance <= CLASS_SPAN,
    ensures
        1 <= duty_step(distance) <= CEILING,
        distance == 0 ==> duty_step(distance) == 1,
        distance == CLASS_SPAN ==> duty_step(distance) == CEILING,
{
    assert(0 <= 59 * distance <= 59 * 127) by (nonlinear_arith)
        requires
            0 <= distance <= 127,
    ;
    assert(0 <= (59 * distance) / 127 <= 59) by (nonlinear_arith)
        requires
            0 <= 59 * distance <= 59 * 127,
    ;
}

/// Every raw value falls in exactly one of the two classes, and both
/// channels of its axis get an increment between one and the ceiling.
pub proof fn lemma_increments_total(v: u8)
    ensures
        in_low_class(v) != in_high_class(v),
        1 <= increments_of(v).0 <= CEILING,
        1 <= increments_of(v).1 <= CEILING,
{
    if in_low_class(v) {
        lemma_duty_step_range(LOW_CLASS_MAX - v);
    } else {
        lemma_duty_step_range(v - HIGH_CLASS_MIN);
    }
}

/// The (low, high) channel increments of one axis for a raw value.
pub fn increments(v: u8) -> (r: (u8, u8))
    ensures
        r.0 as int == increments_of(v).0,
        r.1 as int == increments_of(v).1,
{
    proof {
        lemma_increments_total(v);
    }
    if v <= LOW_CLASS_MAX {
        let d = (LOW_CLASS_MAX - v) as u32;
        let step = 1 + ((CEILING as u32 - 1) * d) / (CLASS_SPAN as u32);
        (step as u8, 1)
    } else {
        let d = (v - HIGH_CLASS_MIN) as u32;
        let step = 1 + ((CEILING as u32 - 1) * d) / (CLASS_SPAN as u32);
        (1, step as u8)
    }
}

/// One accumulator after a tick with increment `inc`, and whether it fired.
pub fn advance(count: u8, inc: u8) -> (r: (u8, bool))
    requires
        count < CEILING,
        1 <= inc <= CEILING,
    ensures
        r.0 as int == advanced(count as int, inc as int).0,
        r.1 == advanced(count as int, inc as int).1,
        r.0 < CEILING,
{
    let sum = count + inc;
    if sum >= CEILING {
        (0, true)
    } else {
        (sum, false)
    }
}

/// The four pulse accumulators, one per indicator: low and high channel of
/// the X axis, low and high channel of the Y axis.
#[derive(Clone, Copy, Debug, PartialEq, Eq, Structural)]
pub struct PulseAccumulators {
    pub x_low: u8,
    pub x_high: u8,
    pub y_low: u8,
    pub y_high: u8,
}

/// Which accumulators fired during a tick.
#[derive(Clone, Copy, Debug, PartialEq, Eq, Structural)]
pub struct Toggles {
    pub x_low: bool,
    pub x_high: bool,
    pub y_low: bool,
    pub y_high: bool,
}

/// The indicator each channel drives.
pub open spec fn channel_leds(t: Toggles) -> u32 {
    (if t.x_low { led_bit(Led::Blue) } else { 0 }) | (if t.x_high {
        led_bit(Led::Orange)
    } else {
        0
    }) | (if t.y_low { led_bit(Led::Red) } else { 0 }) | (if t.y_high {
        led_bit(Led::Green)
    } else {
        0
    })
}

impl PulseAccumulators {
    /// Every accumulator is below the ceiling.
    pub open spec fn wf(self) -> bool {
        self.x_low < CEILING && self.x_high < CEILING && self.y_low < CEILING && self.y_high
            < CEILING
    }

    /// All accumulators at zero.
    pub fn new() -> (r: Self)
        ensures
            r.wf(),
            r.x_low == 0 && r.x_high == 0 && r.y_low == 0 && r.y_high == 0,
    {
        PulseAccumulators { x_low: 0, x_high: 0, y_low: 0, y_high: 0 }
    }

    /// Accumulators and toggles after one tick with raw axis values `x`
    /// and `y`.
    pub open spec fn ticked(self, x: u8, y: u8) -> (PulseAccumulators, Toggles) {
        let xl = advanced(self.x_low as int, increments_of(x).0);
        let xh = advanced(self.x_high as int, increments_of(x).1);
        let yl = advanced(self.y_low as int, increments_of(y).0);
        let yh = advanced(self.y_high as int, increments_of(y).1);
        (
            PulseAccumulators {
                x_low: xl.0 as u8,
                x_high: xh.0 as u8,
                y_low: yl.0 as u8,
                y_high: yh.0 as u8,
            },
            Toggles { x_low: xl.1, x_high: xh.1, y_low: yl.1, y_high: yh.1 },
        )
    }

    /// One sampling tick with raw axis values `x` and `y`: each accumulator
    /// grows by its channel's increment, and one that reaches the ceiling
    /// restarts at zero and fires in the same step.
    pub fn tick(&mut self, x: u8, y: u8) -> (t: Toggles)
        requires
            old(self).wf(),
        ensures
            final(self).wf(),
            (*final(self), t) == old(self).ticked(x, y),
    {
        proof {
            lemma_increments_total(x);
            lemma_increments_total(y);
        }
        let (x_low_inc, x_high_inc) = increments(x);
        let (y_low_inc, y_high_inc) = increments(y);
        let (xl, fire_xl) = advance(self.x_low, x_low_inc);
        let (xh, fire_xh) = advance(self.x_high, x_high_inc);
        let (yl, fire_yl) = advance(self.y_low, y_low_inc);
        let (yh, fire_yh) = advance(self.y_high, y_high_inc);
        self.x_low = xl;
        self.x_high = xh;
        self.y_low = yl;
        self.y_high = yh;
        Toggles { x_low: fire_xl, x_high: fire_xh, y_low: fire_yl, y_high: fire_yh }
    }
}

/// The LED mask of the indicators whose accumulators fired.
pub fn toggle_mask(t: Toggles) -> (m: u32)
    ensures
        m == channel_leds(t),
{
    let xl: u32 = if t.x_low { bit(Led::Blue) } else { 0 };
    let xh: u32 = if t.x_high { bit(Led::Orange) } else { 0 };
    let yl: u32 = if t.y_low { bit(Led::Red) } else { 0 };
    let yh: u32 = if t.y_high { bit(Led::Green) } else { 0 };
    xl | xh | yl | yh
}

/// One tick of the pulse design, given the raw axis values and the
/// indicator pin levels just read: advances the accumulators and returns
/// which fired with the one set/reset word that flips their indicators.
pub fn pulse_tick(acc: &mut PulseAccumulators, x: u8, y: u8, levels: u32) -> (r: (Toggles, u32))
    requires
        old(acc).wf(),
    ensures
        final(acc).wf(),
        (*final(acc), r.0) == old(acc).ticked(x, y),
        r.1 == toggle_word_of(levels, channel_leds(r.0)),
{
    let t = acc.tick(x, y);
    let w = toggle_word(levels, toggle_mask(t));
    (t, w)
}

/// At full tilt toward the low end (raw 0x00) the low channel fires on
/// every tick, whatever its accumulator held; at full tilt toward the high
/// end (raw 0xFF) the high channel does.
pub proof fn lemma_full_tilt_fires_every_tick(count: u8)
    requires
        count < CEILING,
    ensures
        advanced(count as int, increments_of(0x00).0) == (0int, true),
        advanced(count as int, increments_of(0xFF).1) == (0int, true),
{
    lemma_duty_step_range(CLASS_SPAN as int);
}

/// Near level (raw 0x7F) both channels of the axis grow by one per tick,
/// the smallest increment: a channel fires only from `CEILING - 1`, that
/// is once every `CEILING` ticks.
pub proof fn lemma_level_fires_at_minimum_rate(count: u8)
    requires
        count < CEILING,
    ensures
        increments_of(0x7F) == (1int, 1int),
        advanced(count as int, 1).1 <==> count == CEILING - 1,
{
    lemma_duty_step_range(0);
}

/// The accumulators after one tick per pair of raw values `(xs[i], ys[i])`.
pub open spec fn after_ticks(acc: PulseAccumulators, xs: Seq<u8>, ys: Seq<u8>) -> PulseAccumulators
    recommends
        xs.len() == ys.len(),
    decreases xs.len(),
{
    if xs.len() == 0 || ys.len() == 0 {
        acc
    } else {
        after_ticks(acc.ticked(xs[0], ys[0]).0, xs.drop_first(), ys.drop_first())
    }
}

/// In one tick every accumulator stays below the ceiling, and one that
/// fires is at exactly zero after that tick.
pub proof fn lemma_tick_keeps_range(acc: PulseAccumulators, x: u8, y: u8)
    requires
        acc.wf(),
    ensures
        acc.ticked(x, y).0.wf(),
        acc.ticked(x, y).1.x_low ==> acc.ticked(x, y).0.x_low == 0,
        acc.ticked(x, y).1.x_high ==> acc.ticked(x, y).0.x_high == 0,
        acc.ticked(x, y).1.y_low ==> acc.ticked(x, y).0.y_low == 0,
        acc.ticked(x, y).1.y_high ==> acc.ticked(x, y).0.y_high == 0,
{
    lemma_increments_total(x);
    lemma_increments_total(y);
}

/// Over any sequence of ticks, every accumulator stays in `[0, CEILING)`.
pub proof fn lemma_ticks_keep_range(acc: PulseAccumulators, xs: Seq<u8>, ys: Seq<u8>)
    requires
        acc.wf(),
        xs.len() == ys.len(),
    ensures
        after_ticks(acc, xs, ys).wf(),
    decreases xs.len(),
{
    if xs.len() > 0 {
        lemma_tick_keeps_range(acc, xs[0], ys[0]);
        lemma_ticks_keep_range(acc.ticked(xs[0], ys[0]).0, xs.drop_first(), ys.drop_first());
    }
}

/// The low/high indicator mask of one axis in the polled design.
pub open spec fn polled_axis(v: u8, low_led: Led, high_led: Led) -> u32 {
    if v <= POLL_LOW_BOUND {
        led_bit(low_led)
    } else if v >= POLL_HIGH_BOUND {
        led_bit(high_led)
    } else {
        0
    }
}

/// Polled design: the indicators lit for one sample, from bounds on the X
/// axis (blue low, orange high) and the Y axis (red low, green high).
pub open spec fn polled_mask_of(x: u8, y: u8) -> u32 {
    polled_axis(x, Led::Blue, Led::Orange) | polled_axis(y, Led::Red, Led::Green)
}

fn polled_axis_mask(v: u8, low_led: Led, high_led: Led) -> (m: u32)
    ensures
        m == polled_axis(v, low_led, high_led),
{
    if v <= POLL_LOW_BOUND {
        bit(low_led)
    } else if v >= POLL_HIGH_BOUND {
        bit(high_led)
    } else {
        0
    }
}

/// Polled design: the LED mask to render for raw axis values `x` and `y`.
pub fn polled_mask(x: u8, y: u8) -> (m: u32)
    ensures
        m == polled_mask_of(x, y),
        m <= ALL_LEDS,
{
    let mx = polled_axis_mask(x, Led::Blue, Led::Orange);
    let my = polled_axis_mask(y, Led::Red, Led::Green);
    assert(mx <= 8 && my <= 8 && (mx == 0 || mx == 2 || mx == 8) && (my == 0 || my == 1 || my == 4)
        ==> mx | my <= 0xF) by (bit_vector);
    mx | my
}

/// Polled design: the pattern to render for raw axis values `x` and `y`.
pub fn polled_pattern(x: u8, y: u8) -> (p: Pattern)
    ensures
        mask_of(p) == polled_mask_of(x, y),
{
    let m = polled_mask(x, y);
    let b = m as u8;
    assert(m <= 0xFu32 ==> ((m as u8) as u32) & 0xFu32 == m) by (bit_vector);
    Pattern::Mask(b)
}

} // verus!
