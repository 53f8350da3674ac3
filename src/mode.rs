//! Display mode, driven by the push-button.
//!
//! The button's edge interrupt only says that something changed. Its
//! handler clears the pending flag, reads the settled input level and
//! records it in a `ButtonLatch`; it is the latch's only writer. The
//! foreground loop reads the latch once per iteration: while it is armed
//! the display steps through the colour cycle, one colour per iteration;
//! otherwise all indicators blink together.
use vstd::prelude::*;
use crate::indicator::{Led, Pattern};

verus! {

/// The display mode.
#[derive(Clone, Copy, Debug, PartialEq, Eq, Structural)]
pub enum Mode {
    /// All indicators blink together.
    Idle,
    /// The indicators light one at a time, in the colour cycle.
    Active,
}

/// The mode that a latch level selects.
pub open spec fn mode_for(armed: bool) -> Mode {
    if armed {
        Mode::Active
    } else {
        Mode::Idle
    }
}

/// The latch level after edges whose settled input levels were `levels`,
/// in order, starting from `armed`.
pub open spec fn after_edges(armed: bool, levels: Seq<bool>) -> bool
    decreases levels.len(),
{
    if levels.len() == 0 {
        armed
    } else {
        after_edges(levels[0], levels.drop_first())
    }
}

/// Colour that follows `c` in the cycle green, orange, red, blue.
pub open spec fn color_after(c: Led) -> Led {
    match c {
        Led::Green => Led::Orange,
        Led::Orange => Led::Red,
        Led::Red => Led::Blue,
        Led::Blue => Led::Green,
    }
}

/// The flag recorded by the button's edge handler.
#[derive(Clone, Copy, Debug, PartialEq, Eq, Structural)]
pub struct ButtonLatch {
    pub armed: bool,
}

impl ButtonLatch {
    /// Not armed: the button starts at its rest level.
    pub fn new() -> (r: Self)
        ensures
            !r.armed,
    {
        ButtonLatch { armed: false }
    }

    /// Records the input level read after an edge; the edge's direction
    /// plays no part.
    pub fn on_edge(&mut self, level: bool)
        ensures
            final(self).armed == level,
    {
        self.armed = level;
    }

    /// The mode that the latch selects.
    pub fn mode(&self) -> (m: Mode)
        ensures
            m == mode_for(self.armed),
    {
        if self.armed {
            Mode::Active
        } else {
            Mode::Idle
        }
    }
}

/// Colour that follows `c` in the cycle.
pub fn next_color(c: Led) -> (r: Led)
    ensures
        r == color_after(c),
{
    match c {
        Led::Green => Led::Orange,
        Led::Orange => Led::Red,
        Led::Red => Led::Blue,
        Led::Blue => Led::Green,
    }
}

/// What the foreground loop keeps between iterations.
#[derive(Clone, Copy, Debug, PartialEq, Eq, Structural)]
pub struct Foreground {
    /// Mode seen at the last iteration.
    pub mode: Mode,
    /// Colour last shown in the cycle.
    pub color: Led,
    /// Whether the last blink lit the indicators.
    pub blink_on: bool,
}

impl Foreground {
    /// Idle and dark; the first colour shown will be green.
    pub fn new() -> (r: Self)
        ensures
            r.mode == Mode::Idle,
            r.color == Led::Blue,
            !r.blink_on,
    {
        Foreground { mode: Mode::Idle, color: Led::Blue, blink_on: false }
    }

    /// One foreground iteration, given the latch level sampled for it:
    /// returns the pattern to render.
    pub fn step(&mut self, armed: bool) -> (p: Pattern)
        ensures
            final(self).mode == mode_for(armed),
            armed ==> final(self).color == color_after(old(self).color) && final(self).blink_on
                == old(self).blink_on && p == Pattern::Single(final(self).color),
            !armed ==> final(self).color == old(self).color && final(self).blink_on
                == !old(self).blink_on && p == (if final(self).blink_on {
                Pattern::AllOn
            } else {
                Pattern::AllOff
            }),
    {
        if armed {
            self.mode = Mode::Active;
            self.color = next_color(self.color);
            Pattern::Single(self.color)
        } else {
            self.mode = Mode::Idle;
            self.blink_on = !self.blink_on;
            if self.blink_on {
                Pattern::AllOn
            } else {
                Pattern::AllOff
            }
        }
    }
}

/// However the input bounces, the latch ends at the last level read, and
/// the mode it selects is one of the two modes.
pub proof fn lemma_bounce_settles(armed: bool, levels: Seq<bool>)
    ensures
        after_edges(armed, levels) == (if levels.len() == 0 {
            armed
        } else {
            levels.last()
        }),
        mode_for(after_edges(armed, levels)) == Mode::Idle || mode_for(after_edges(armed, levels))
            == Mode::Active,
    decreases levels.len(),
{
    if levels.len() > 0 {
        lemma_bounce_settles(levels[0], levels.drop_first());
        if levels.len() > 1 {
            assert(levels.drop_first().last() == levels.last());
        }
    }
}

/// A button left at its rest level never leaves `Idle`: any number of
/// edges that all read the rest level keep the latch unarmed.
pub proof fn lemma_rest_stays_idle(levels: Seq<bool>)
    requires
        forall|i: int| 0 <= i < levels.len() ==> !#[trigger] levels[i],
    ensures
        mode_for(after_edges(false, levels)) == Mode::Idle,
    decreases levels.len(),
{
    if levels.len() > 0 {
        assert forall|i: int| 0 <= i < levels.drop_first().len() implies !#[trigger] levels.drop_first()[i] by {
            assert(levels.drop_first()[i] == levels[i + 1]);
        }
        lemma_rest_stays_idle(levels.drop_first());
    }
}

} // verus!
