//! The four indicator outputs and the words that drive them.
//!
//! The outputs sit on pins `FIRST_LED_PIN ..= FIRST_LED_PIN + 3` of one GPIO
//! bank. A 4-bit LED mask holds one bit per LED, bit `i` for pin
//! `FIRST_LED_PIN + i`. Every pattern is rendered as one set/reset word
//! (the bank's BSRR register): the low half sets pins, the high half clears
//! them, and both take effect in the same write.
use vstd::prelude::*;

verus! {

/// Pin of the first indicator (green); the others follow it.
pub const FIRST_LED_PIN: u32 = 12;

/// Mask holding every indicator.
pub const ALL_LEDS: u32 = 0xF;

/// One of the four indicator outputs.
#[derive(Clone, Copy, Debug, PartialEq, Eq, Structural)]
pub enum Led {
    Green,
    Orange,
    Red,
    Blue,
}

/// Position of an indicator in a LED mask.
pub open spec fn led_index(led: Led) -> nat {
    match led {
        Led::Green => 0,
        Led::Orange => 1,
        Led::Red => 2,
        Led::Blue => 3,
    }
}

/// The mask holding one indicator.
pub open spec fn led_bit(led: Led) -> u32 {
    match led {
        Led::Green => 0x1,
        Led::Orange => 0x2,
        Led::Red => 0x4,
        Led::Blue => 0x8,
    }
}

/// A named activation pattern of the four indicators.
#[derive(Clone, Copy, Debug, PartialEq, Eq, Structural)]
pub enum Pattern {
    /// Only the given indicator is lit.
    Single(Led),
    /// All four are lit.
    AllOn,
    /// All four are dark.
    AllOff,
    /// The indicators whose bits are set in the low four bits are lit.
    Mask(u8),
}

/// Which indicators a pattern lights.
pub open spec fn mask_of(p: Pattern) -> u32 {
    match p {
        Pattern::Single(led) => led_bit(led),
        Pattern::AllOn => ALL_LEDS,
        Pattern::AllOff => 0,
        Pattern::Mask(m) => (m as u32) & ALL_LEDS,
    }
}

/// The set/reset word that lights exactly the indicators of `mask` and
/// darkens the other three, leaving every other pin alone.
pub open spec fn set_reset_word(mask: u32) -> u32 {
    (mask << 12u32) | ((mask ^ 0xFu32) << 28u32)
}

/// Pin levels after a set/reset word is written: set bits win over reset
/// bits, pins named by neither keep their level.
pub open spec fn applied(levels: u32, word: u32) -> u32 {
    ((levels & !(word >> 16u32)) | (word & 0xFFFFu32)) & 0xFFFFu32
}

/// The indicator part of the pin levels, as a LED mask.
pub open spec fn leds_of(levels: u32) -> u32 {
    (levels >> 12u32) & 0xFu32
}

/// The set/reset word that flips the indicators of `mask` from the levels
/// just read, leaving the others alone.
pub open spec fn toggle_word_of(levels: u32, mask: u32) -> u32 {
    let t = mask << 12u32;
    (t & !levels) | ((t & levels) << 16u32)
}

/// Pin number of an indicator.
pub fn pin(led: Led) -> (r: u32)
    ensures
        r == FIRST_LED_PIN + led_index(led),
{
    match led {
        Led::Green => FIRST_LED_PIN,
        Led::Orange => FIRST_LED_PIN + 1,
        Led::Red => FIRST_LED_PIN + 2,
        Led::Blue => FIRST_LED_PIN + 3,
    }
}

/// The mask holding one indicator.
pub fn bit(led: Led) -> (r: u32)
    ensures
        r == led_bit(led),
{
    match led {
        Led::Green => 0x1,
        Led::Orange => 0x2,
        Led::Red => 0x4,
        Led::Blue => 0x8,
    }
}

/// Which indicators a pattern lights.
pub fn pattern_mask(p: Pattern) -> (r: u32)
    ensures
        r == mask_of(p),
        r <= ALL_LEDS,
{
    match p {
        Pattern::Single(led) => bit(led),
        Pattern::AllOn => ALL_LEDS,
        Pattern::AllOff => 0,
        Pattern::Mask(m) => {
            let r = (m as u32) & ALL_LEDS;
            assert(r <= 0xF) by (bit_vector)
                requires
                    r == (m as u32) & 0xFu32,
            ;
            r
        },
    }
}

/// The one word that renders a pattern: it sets the pattern's indicators
/// and clears the others together, so no intermediate state is visible.
pub fn set_pattern(p: Pattern) -> (w: u32)
    ensures
        w == set_reset_word(mask_of(p)),
{
    let m = pattern_mask(p);
    (m << 12u32) | ((m ^ 0xFu32) << 28u32)
}

/// Pin levels after the set/reset word `word` is written over `levels`.
pub fn apply_set_reset(levels: u32, word: u32) -> (r: u32)
    ensures
        r == applied(levels, word),
{
    ((levels & !(word >> 16u32)) | (word & 0xFFFFu32)) & 0xFFFFu32
}

/// The set/reset word that flips the indicators of `mask`, given the pin
/// levels just read.
pub fn toggle_word(levels: u32, mask: u32) -> (w: u32)
    ensures
        w == toggle_word_of(levels, mask),
{
    let t = mask << 12u32;
    (t & !levels) | ((t & levels) << 16u32)
}

/// Writing the same set/reset word a second time changes nothing: in
/// particular, rendering a pattern twice leaves the outputs as the first
/// rendering left them.
pub proof fn lemma_set_reset_idempotent(levels: u32, word: u32)
    ensures
        applied(applied(levels, word), word) == applied(levels, word),
{
    assert(((((levels & !(word >> 16u32)) | (word & 0xFFFFu32)) & 0xFFFFu32) & !(word >> 16u32)
        | (word & 0xFFFFu32)) & 0xFFFFu32 == ((levels & !(word >> 16u32)) | (word & 0xFFFFu32))
        & 0xFFFFu32) by (bit_vector);
}

/// Rendering a pattern lights exactly its indicators and leaves every
/// other pin of the bank at its level.
pub proof fn lemma_set_pattern_shows(levels: u32, p: Pattern)
    ensures
        leds_of(applied(levels, set_reset_word(mask_of(p)))) == mask_of(p),
        applied(levels, set_reset_word(mask_of(p))) & 0x0FFFu32 == levels & 0x0FFFu32,
{
    let m = mask_of(p);
    assert(m <= 0xF) by {
        match p {
            Pattern::Mask(b) => {
                let bb = b as u32;
                assert(bb & 0xFu32 <= 0xFu32) by (bit_vector);
            },
            _ => {},
        }
    }
    assert(m <= 0xFu32 ==> (((((levels & !(((m << 12u32) | ((m ^ 0xFu32) << 28u32)) >> 16u32))
        | (((m << 12u32) | ((m ^ 0xFu32) << 28u32)) & 0xFFFFu32)) & 0xFFFFu32) >> 12u32) & 0xFu32
        == m)) by (bit_vector);
    assert(m <= 0xFu32 ==> ((((levels & !(((m << 12u32) | ((m ^ 0xFu32) << 28u32)) >> 16u32))
        | (((m << 12u32) | ((m ^ 0xFu32) << 28u32)) & 0xFFFFu32)) & 0xFFFFu32) & 0x0FFFu32
        == levels & 0x0FFFu32)) by (bit_vector);
}

/// Writing the toggle word flips exactly the indicators of the mask.
pub proof fn lemma_toggle_flips(levels: u32, mask: u32)
    requires
        mask <= ALL_LEDS,
        levels <= 0xFFFF,
    ensures
        applied(levels, toggle_word_of(levels, mask)) == levels ^ (mask << 12u32),
{
    assert(mask <= 0xFu32 && levels <= 0xFFFFu32 ==> ((((levels & !((((mask << 12u32) & !levels)
        | (((mask << 12u32) & levels) << 16u32)) >> 16u32)) | ((((mask << 12u32) & !levels)
        | (((mask << 12u32) & levels) << 16u32)) & 0xFFFFu32)) & 0xFFFFu32) == levels ^ (mask
        << 12u32))) by (bit_vector);
}

} // verus!
