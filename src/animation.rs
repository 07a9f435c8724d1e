use vstd::prelude::*;

use crate::glyph::{blank_frame, ch_to_matrix, is_glyph, Frame};

verus! {

/// The step a glyph starts its life at.
pub const MAX_STEP: u8 = 24;

/// The step at which a glyph has faded out and is forgotten.
pub const MIN_STEP: u8 = 3;

/// The brightest level a cell can have.
pub const FULL_BRIGHTNESS: u8 = 9;

/// Brightness at a given step: full for the first steps, then falling by
/// one each tick over the last nine.
pub open spec fn level_at(step: u8) -> u8 {
    if step <= 8 {
        step
    } else {
        FULL_BRIGHTNESS
    }
}

/// The fade of the glyph on display: which byte is remembered and how far
/// its step counter has run down.
#[derive(Clone, Copy, Debug, PartialEq, Eq, Structural)]
pub struct FadeState {
    pub step: u8,
    pub ch: Option<u8>,
}

impl FadeState {
    /// The step counter never exceeds the top of the ramp.
    pub open spec fn wf(&self) -> bool {
        self.step <= MAX_STEP
    }
}

/// The fade has run out: the tick forgets the glyph and restarts the
/// step, whether or not a new byte arrived.
pub open spec fn resets(s: FadeState, input: Option<u8>) -> bool {
    s.step <= MIN_STEP
}

/// The step a tick draws at: a new byte, or a reset, starts over at the
/// top of the ramp.
pub open spec fn tick_step(s: FadeState, input: Option<u8>) -> u8 {
    if input is Some || resets(s, input) {
        MAX_STEP
    } else {
        s.step
    }
}

/// The brightness a tick draws at.
pub open spec fn tick_level(s: FadeState, input: Option<u8>) -> u8 {
    level_at(tick_step(s, input))
}

/// The byte remembered once a reset, if any, has been applied.
pub open spec fn kept(s: FadeState, input: Option<u8>) -> Option<u8> {
    if resets(s, input) {
        None
    } else {
        s.ch
    }
}

/// The new byte is the one already remembered: the tick blinks.
pub open spec fn repeats(s: FadeState, input: Option<u8>) -> bool {
    input == kept(s, input)
}

/// The byte whose glyph the tick draws; `None` for a blank frame.
pub open spec fn tick_shows(s: FadeState, input: Option<u8>) -> Option<u8> {
    if repeats(s, input) {
        None
    } else if input is Some {
        input
    } else {
        kept(s, input)
    }
}

/// The fade after a tick.
pub open spec fn next_fade(s: FadeState, input: Option<u8>) -> FadeState {
    FadeState {
        step: (tick_step(s, input) - 1) as u8,
        ch: if !repeats(s, input) && input is Some {
            input
        } else {
            kept(s, input)
        },
    }
}

/// The brightness for a step of the fade.
pub fn brightness(step: u8) -> (r: u8)
    requires
        step <= MAX_STEP,
    ensures
        r == level_at(step),
{
    if step <= 8 {
        9 - (9 - step)
    } else {
        FULL_BRIGHTNESS
    }
}

impl FadeState {
    /// No glyph, at the top of the ramp.
    pub fn new() -> (r: FadeState)
        ensures
            r.step == MAX_STEP,
            r.ch is None,
            r.wf(),
    {
        FadeState { step: MAX_STEP, ch: None }
    }

    /// One animation tick, given the byte taken from the mailbox, if any.
    ///
    /// A fade that has run down to the last step forgets its glyph and
    /// restarts the step, whatever arrived. A new byte then restarts the ramp
    /// at full brightness. A byte equal to the one still remembered gives one
    /// blank frame; any other new byte becomes the remembered one. The frame shows the remembered glyph at the brightness
    /// of the step, and the step then moves down by one.
    pub fn tick(&mut self, input: Option<u8>) -> (f: Frame)
        requires
            old(self).wf(),
        ensures
            final(self).wf(),
            *final(self) == next_fade(*old(self), input),
            is_glyph(f, tick_shows(*old(self), input), tick_level(*old(self), input)),
    {
        if self.step <= MIN_STEP {
            self.step = MAX_STEP;
            self.ch = None;
        }
        if input.is_some() {
            self.step = MAX_STEP;
        }
        let level = brightness(self.step);
        let f = if input == self.ch {
            blank_frame()
        } else {
            if input.is_some() {
                self.ch = input;
            }
            ch_to_matrix(self.ch, level)
        };
        self.step = self.step - 1;
        f
    }
}

/// Every tick draws at a level between dark and full brightness.
pub proof fn lemma_level_at_most_full(s: FadeState, input: Option<u8>)
    requires
        s.wf(),
    ensures
        0 <= tick_level(s, input) <= FULL_BRIGHTNESS,
{
}

/// Between resets the brightness of a remembered glyph never rises from one
/// tick to the next, and the glyph stays the same while no byte arrives.
pub proof fn lemma_fade_never_brightens(s: FadeState, input: Option<u8>)
    requires
        s.wf(),
        next_fade(s, input).step > MIN_STEP,
    ensures
        next_fade(s, input).wf(),
        tick_level(next_fade(s, input), None) <= tick_level(s, input),
        next_fade(next_fade(s, input), None).ch == next_fade(s, input).ch,
{
}

/// Striking the remembered byte again before its fade runs out blanks the
/// next frame; the tick after that draws the same byte at full brightness.
pub proof fn lemma_repeat_blinks(s: FadeState, c: u8)
    requires
        s.wf(),
        s.step > MIN_STEP,
        s.ch == Some(c),
    ensures
        tick_shows(s, Some(c)) is None,
        next_fade(s, Some(c)).ch == Some(c),
        tick_shows(next_fade(s, Some(c)), None) == Some(c),
        tick_level(next_fade(s, Some(c)), None) == FULL_BRIGHTNESS,
{
}

} // verus!
