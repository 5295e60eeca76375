use vstd::prelude::*;

use crate::line::{driven_to, OutputLine, PinLevel};

verus! {

/// A color that an RGB LED can show.
#[derive(Clone, Copy, PartialEq, Eq, Structural, Debug)]
pub enum Color {
    Off,
    Red,
    Green,
    Blue,
    Yellow,
    Cyan,
    Magenta,
    White,
}

/// Whether the red, green and blue lines are high for `color`.
pub open spec fn color_channels(color: Color) -> (bool, bool, bool) {
    match color {
        Color::Off => (false, false, false),
        Color::Red => (true, false, false),
        Color::Green => (false, true, false),
        Color::Blue => (false, false, true),
        Color::Yellow => (true, true, false),
        Color::Cyan => (false, true, true),
        Color::Magenta => (true, false, true),
        Color::White => (true, true, true),
    }
}

/// The level of a line that is on when `on` holds.
pub open spec fn level_of(on: bool) -> PinLevel {
    if on {
        PinLevel::High
    } else {
        PinLevel::Low
    }
}

/// No two colors light the same lines.
pub proof fn lemma_colors_distinct(a: Color, b: Color)
    ensures
        color_channels(a) == color_channels(b) <==> a == b,
{
}

/// An LED with one line each for red, green and blue.
pub struct RgbLed {
    r_pin: OutputLine,
    g_pin: OutputLine,
    b_pin: OutputLine,
}

impl RgbLed {
    pub closed spec fn r(&self) -> OutputLine {
        self.r_pin
    }

    pub closed spec fn g(&self) -> OutputLine {
        self.g_pin
    }

    pub closed spec fn b(&self) -> OutputLine {
        self.b_pin
    }

    /// `after` is `before` with each line driven once, to the levels of `color`.
    pub open spec fn shows(before: RgbLed, after: RgbLed, color: Color) -> bool {
        let (r, g, b) = color_channels(color);
        &&& driven_to(before.r(), after.r(), level_of(r))
        &&& driven_to(before.g(), after.g(), level_of(g))
        &&& driven_to(before.b(), after.b(), level_of(b))
    }

    pub fn new(r_pin: OutputLine, g_pin: OutputLine, b_pin: OutputLine) -> (r: Self)
        ensures
            r.r() == r_pin,
            r.g() == g_pin,
            r.b() == b_pin,
    {
        RgbLed { r_pin, g_pin, b_pin }
    }

    /// Drives all three lines low.
    pub fn off(&mut self)
        ensures
            RgbLed::shows(*old(self), *final(self), Color::Off),
    {
        self.r_pin.set_low();
        self.g_pin.set_low();
        self.b_pin.set_low();
    }

    /// Drives each line to the level that `color` gives it.
    pub fn show_color(&mut self, color: Color)
        ensures
            RgbLed::shows(*old(self), *final(self), color),
    {
        match color {
            Color::Off => self.off(),
            Color::Red => {
                self.r_pin.set_high();
                self.g_pin.set_low();
                self.b_pin.set_low();
            },
            Color::Green => {
                self.r_pin.set_low();
                self.g_pin.set_high();
                self.b_pin.set_low();
            },
            Color::Blue => {
                self.r_pin.set_low();
                self.g_pin.set_low();
                self.b_pin.set_high();
            },
            Color::Yellow => {
                self.r_pin.set_high();
                self.g_pin.set_high();
                self.b_pin.set_low();
            },
            Color::Cyan => {
                self.r_pin.set_low();
                self.g_pin.set_high();
                self.b_pin.set_high();
            },
            Color::Magenta => {
                self.r_pin.set_high();
                self.g_pin.set_low();
                self.b_pin.set_high();
            },
            Color::White => {
                self.r_pin.set_high();
                self.g_pin.set_high();
                self.b_pin.set_high();
            },
        }
    }

    /// Hands over the writes of the three lines that the platform has not yet
    /// been given, as `(red, green, blue)`.
    pub fn take_pending(&mut self) -> (r: (Vec<PinLevel>, Vec<PinLevel>, Vec<PinLevel>))
        ensures
            r.0@ == old(self).r().pending(),
            r.1@ == old(self).g().pending(),
            r.2@ == old(self).b().pending(),
            final(self).r().pending() == Seq::<PinLevel>::empty(),
            final(self).g().pending() == Seq::<PinLevel>::empty(),
            final(self).b().pending() == Seq::<PinLevel>::empty(),
            final(self).r().level() == old(self).r().level(),
            final(self).g().level() == old(self).g().level(),
            final(self).b().level() == old(self).b().level(),
    {
        (self.r_pin.take_pending(), self.g_pin.take_pending(), self.b_pin.take_pending())
    }
}

} // verus!
