use vstd::prelude::*;

use core::marker::PhantomData;

use crate::line::{driven_to, OutputLine, PinLevel};
use crate::motor::{Direction, Motor};

verus! {

/// How the chip's control mode is chosen: by its wiring, or by a mode line
/// that the driver sets.
pub trait ModeSelectorMarker {
    /// Whether a pin bundle of this kind holds a mode line.
    spec fn has_mode_pin() -> bool;
}

/// The mode is fixed by the board's wiring; there is no mode line.
pub struct HardWired;

/// The mode is chosen at run time through a mode line.
pub struct ModePin;

impl ModeSelectorMarker for HardWired {
    open spec fn has_mode_pin() -> bool {
        false
    }
}

impl ModeSelectorMarker for ModePin {
    open spec fn has_mode_pin() -> bool {
        true
    }
}

/// A control mode that a driver has been fixed to.
pub trait ModeMarker {}

/// IN/IN mode: each input drives one half-bridge.
pub struct InIn;

/// PHASE/ENABLE mode: one input selects the direction, the other enables drive.
pub struct PhaseEnable;

/// A driver whose mode line has not been set yet: no channel can be used.
pub struct Undetermined;

impl ModeMarker for InIn {}

impl ModeMarker for PhaseEnable {}

/// The lines of a dual-channel driver chip: two control lines per channel and,
/// when the mode is selectable, the mode line.
pub struct Drv8835Pins<S: ModeSelectorMarker> {
    in1a_pin: OutputLine,
    in2a_pin: OutputLine,
    in1b_pin: OutputLine,
    in2b_pin: OutputLine,
    mode_selector: PhantomData<S>,
    mode_pin: Option<OutputLine>,
}

impl<S: ModeSelectorMarker> Drv8835Pins<S> {
    /// A hard-wired bundle holds no mode line and a selectable one holds one;
    /// the constructors establish it and nothing removes the line.
    pub open spec fn wf(&self) -> bool {
        self.mode_pin() is Some <==> S::has_mode_pin()
    }

    pub closed spec fn in1a(&self) -> OutputLine {
        self.in1a_pin
    }

    pub closed spec fn in2a(&self) -> OutputLine {
        self.in2a_pin
    }

    pub closed spec fn in1b(&self) -> OutputLine {
        self.in1b_pin
    }

    pub closed spec fn in2b(&self) -> OutputLine {
        self.in2b_pin
    }

    pub closed spec fn mode_pin(&self) -> Option<OutputLine> {
        self.mode_pin
    }

    /// `self` and `other` hold the same four control lines.
    pub open spec fn same_control_lines<T: ModeSelectorMarker>(
        &self,
        other: Drv8835Pins<T>,
    ) -> bool {
        &&& self.in1a() == other.in1a()
        &&& self.in2a() == other.in2a()
        &&& self.in1b() == other.in1b()
        &&& self.in2b() == other.in2b()
    }
}

impl Drv8835Pins<ModePin> {
    pub fn new_with_mode_pin(
        in1a_pin: OutputLine,
        in2a_pin: OutputLine,
        in1b_pin: OutputLine,
        in2b_pin: OutputLine,
        mode_pin: OutputLine,
    ) -> (r: Drv8835Pins<ModePin>)
        ensures
            r.in1a() == in1a_pin,
            r.in2a() == in2a_pin,
            r.in1b() == in1b_pin,
            r.in2b() == in2b_pin,
            r.mode_pin() == Some(mode_pin),
            r.wf(),
    {
        Drv8835Pins {
            in1a_pin,
            in2a_pin,
            in1b_pin,
            in2b_pin,
            mode_selector: PhantomData,
            mode_pin: Some(mode_pin),
        }
    }
}

impl Drv8835Pins<HardWired> {
    pub fn new_without_mode_pin(
        in1a_pin: OutputLine,
        in2a_pin: OutputLine,
        in1b_pin: OutputLine,
        in2b_pin: OutputLine,
    ) -> (r: Drv8835Pins<HardWired>)
        ensures
            r.in1a() == in1a_pin,
            r.in2a() == in2a_pin,
            r.in1b() == in1b_pin,
            r.in2b() == in2b_pin,
            r.mode_pin() is None,
            r.wf(),
    {
        Drv8835Pins {
            in1a_pin,
            in2a_pin,
            in1b_pin,
            in2b_pin,
            mode_selector: PhantomData,
            mode_pin: None,
        }
    }
}

/// A dual-channel driver chip in mode `M`, whose mode is chosen as `S` says.
///
/// A hard-wired chip is made in the mode its wiring gives, with `from`. A chip
/// with a mode line starts `Undetermined`, and `into_in_in_mode` or
/// `into_phase_enable_mode` sets the line once and fixes the mode.
pub struct Drv8835<M, S: ModeSelectorMarker> {
    pins: Drv8835Pins<S>,
    mode_marker: PhantomData<M>,
    mode_selector: PhantomData<S>,
}

impl<M, S: ModeSelectorMarker> Drv8835<M, S> {
    pub closed spec fn pins(&self) -> Drv8835Pins<S> {
        self.pins
    }
}

impl<M: ModeMarker> From<Drv8835Pins<HardWired>> for Drv8835<M, HardWired> {
    fn from(pins: Drv8835Pins<HardWired>) -> (r: Self)
        ensures
            r.pins() == pins,
    {
        Drv8835 { pins, mode_marker: PhantomData, mode_selector: PhantomData }
    }
}

impl<M: ModeMarker> vstd::std_specs::convert::FromSpecImpl<Drv8835Pins<HardWired>> for Drv8835<M, HardWired> {
    open spec fn obeys_from_spec() -> bool {
        true
    }

    closed spec fn from_spec(pins: Drv8835Pins<HardWired>) -> Self {
        Drv8835 { pins, mode_marker: PhantomData, mode_selector: PhantomData }
    }
}

impl From<Drv8835Pins<ModePin>> for Drv8835<Undetermined, ModePin> {
    fn from(pins: Drv8835Pins<ModePin>) -> (r: Self)
        ensures
            r.pins() == pins,
    {
        Drv8835 { pins, mode_marker: PhantomData, mode_selector: PhantomData }
    }
}

impl vstd::std_specs::convert::FromSpecImpl<Drv8835Pins<ModePin>> for Drv8835<Undetermined, ModePin> {
    open spec fn obeys_from_spec() -> bool {
        true
    }

    closed spec fn from_spec(pins: Drv8835Pins<ModePin>) -> Self {
        Drv8835 { pins, mode_marker: PhantomData, mode_selector: PhantomData }
    }
}

impl<M: ModeMarker, S: ModeSelectorMarker> Drv8835<M, S> {
    /// Splits the chip into its two channels: channel A on lines 1a and 2a,
    /// channel B on lines 1b and 2b, both fixed to mode `M`.
    pub fn into_driver_pair(self) -> (r: (Drv8835Driver<M>, Drv8835Driver<M>))
        ensures
            r.0.in1() == self.pins().in1a(),
            r.0.in2() == self.pins().in2a(),
            r.1.in1() == self.pins().in1b(),
            r.1.in2() == self.pins().in2b(),
    {
        let pins = self.pins;
        let Drv8835Pins { in1a_pin, in2a_pin, in1b_pin, in2b_pin, .. } = pins;
        (
            Drv8835Driver::new(in1a_pin, in2a_pin, PhantomData::<M>),
            Drv8835Driver::new(in1b_pin, in2b_pin, PhantomData::<M>),
        )
    }
}

impl<M, S: ModeSelectorMarker> Drv8835<M, S> {
    /// Hands over the writes of the mode line that the platform has not yet
    /// been given; a chip without a mode line has none.
    pub fn take_mode_pin_pending(&mut self) -> (r: Vec<PinLevel>)
        ensures
            final(self).pins().same_control_lines(old(self).pins()),
            final(self).pins().wf() == old(self).pins().wf(),
            match old(self).pins().mode_pin() {
                Some(line) => {
                    &&& r@ == line.pending()
                    &&& final(self).pins().mode_pin() matches Some(after)
                    &&& after.pending() == Seq::<PinLevel>::empty()
                    &&& after.level() == line.level()
                },
                None => r@ == Seq::<PinLevel>::empty() && final(self).pins().mode_pin() is None,
            },
    {
        match &mut self.pins.mode_pin {
            Some(line) => line.take_pending(),
            None => Vec::new(),
        }
    }
}

impl Drv8835<Undetermined, ModePin> {
    /// Drives the mode line low, once, and fixes the chip to IN/IN mode.
    pub fn into_in_in_mode(self) -> (r: Drv8835<InIn, ModePin>)
        ensures
            r.pins().wf() == self.pins().wf(),
            self.pins().mode_pin() matches Some(before) ==> r.pins().mode_pin() matches Some(
                after,
            ) && driven_to(before, after, PinLevel::Low),
            r.pins().same_control_lines(self.pins()),
    {
        let mut pins = self.pins;
        if let Some(ref mut line) = pins.mode_pin {
            line.set_low();
        }
        Drv8835 { pins, mode_marker: PhantomData, mode_selector: PhantomData }
    }

    /// Drives the mode line high, once, and fixes the chip to PHASE/ENABLE mode.
    pub fn into_phase_enable_mode(self) -> (r: Drv8835<PhaseEnable, ModePin>)
        ensures
            r.pins().wf() == self.pins().wf(),
            self.pins().mode_pin() matches Some(before) ==> r.pins().mode_pin() matches Some(
                after,
            ) && driven_to(before, after, PinLevel::High),
            r.pins().same_control_lines(self.pins()),
    {
        let mut pins = self.pins;
        if let Some(ref mut line) = pins.mode_pin {
            line.set_high();
        }
        Drv8835 { pins, mode_marker: PhantomData, mode_selector: PhantomData }
    }
}

/// One channel of the chip, fixed to mode `M`, driving its two control lines.
pub struct Drv8835Driver<M: ModeMarker> {
    in1_pin: OutputLine,
    in2_pin: OutputLine,
    mode: PhantomData<M>,
}

impl<M: ModeMarker> Drv8835Driver<M> {
    pub closed spec fn in1(&self) -> OutputLine {
        self.in1_pin
    }

    pub closed spec fn in2(&self) -> OutputLine {
        self.in2_pin
    }

    pub fn new(in1_pin: OutputLine, in2_pin: OutputLine, mode: PhantomData<M>) -> (r: Self)
        ensures
            r.in1() == in1_pin,
            r.in2() == in2_pin,
    {
        Drv8835Driver { in1_pin, in2_pin, mode }
    }

    /// Hands over the writes of both lines that the platform has not yet been
    /// given, as `(in1, in2)`.
    pub fn take_pending(&mut self) -> (r: (Vec<PinLevel>, Vec<PinLevel>))
        ensures
            r.0@ == old(self).in1().pending(),
            r.1@ == old(self).in2().pending(),
            final(self).in1().pending() == Seq::<PinLevel>::empty(),
            final(self).in2().pending() == Seq::<PinLevel>::empty(),
            final(self).in1().level() == old(self).in1().level(),
            final(self).in2().level() == old(self).in2().level(),
    {
        (self.in1_pin.take_pending(), self.in2_pin.take_pending())
    }
}

/// The levels `(in1, in2)` of an IN/IN channel that turns in `dir`.
pub open spec fn in_in_run_levels(dir: Direction) -> (PinLevel, PinLevel) {
    match dir {
        Direction::Cw => (PinLevel::Low, PinLevel::High),
        Direction::Ccw => (PinLevel::High, PinLevel::Low),
    }
}

/// The phase level of a PHASE/ENABLE channel that turns in `dir`.
pub open spec fn phase_level(dir: Direction) -> PinLevel {
    match dir {
        Direction::Cw => PinLevel::High,
        Direction::Ccw => PinLevel::Low,
    }
}

impl Drv8835Driver<InIn> {
    /// This channel, seen only as a motor.
    pub fn into_motor(self) -> impl Motor {
        self
    }
}

impl Drv8835Driver<PhaseEnable> {
    /// The line that selects the direction.
    pub open spec fn phase_line(&self) -> OutputLine {
        self.in1()
    }

    /// The line that enables drive current.
    pub open spec fn enable_line(&self) -> OutputLine {
        self.in2()
    }

    /// `after` is `before` with drive disabled and the phase set low, each line
    /// written once. Both `stop` and `coast` leave the channel so.
    pub open spec fn brought_to_rest(before: Self, after: Self) -> bool {
        &&& driven_to(before.enable_line(), after.enable_line(), PinLevel::Low)
        &&& driven_to(before.phase_line(), after.phase_line(), PinLevel::Low)
    }

    /// This channel, seen only as a motor.
    pub fn into_motor(self) -> impl Motor {
        self
    }
}

/// `stop` and `coast` of a PHASE/ENABLE channel give the same pin pattern: from
/// one starting state, any two ways of bringing it to rest agree on the level
/// and the writes of both lines.
pub proof fn lemma_rest_is_unique(
    before: Drv8835Driver<PhaseEnable>,
    a: Drv8835Driver<PhaseEnable>,
    b: Drv8835Driver<PhaseEnable>,
)
    requires
        Drv8835Driver::brought_to_rest(before, a),
        Drv8835Driver::brought_to_rest(before, b),
    ensures
        a.enable_line().level() == Some(PinLevel::Low),
        b.enable_line().level() == Some(PinLevel::Low),
        a.phase_line().level() == Some(PinLevel::Low),
        b.phase_line().level() == Some(PinLevel::Low),
        a.enable_line().pending() == b.enable_line().pending(),
        a.phase_line().pending() == b.phase_line().pending(),
{
}

impl Motor for Drv8835Driver<InIn> {
    /// Drives one input high and the other low; `speed` is not applied yet.
    fn run(&mut self, dir: Direction, speed: u8)
        ensures
            driven_to(old(self).in1(), final(self).in1(), in_in_run_levels(dir).0),
            driven_to(old(self).in2(), final(self).in2(), in_in_run_levels(dir).1),
    {
        match dir {
            Direction::Cw => {
                self.in1_pin.set_low();
                self.in2_pin.set_high();
            },
            Direction::Ccw => {
                self.in1_pin.set_high();
                self.in2_pin.set_low();
            },
        }
    }

    /// Drives both inputs low.
    fn coast(&mut self)
        ensures
            driven_to(old(self).in1(), final(self).in1(), PinLevel::Low),
            driven_to(old(self).in2(), final(self).in2(), PinLevel::Low),
    {
        self.in1_pin.set_low();
        self.in2_pin.set_low();
    }

    /// Drives both inputs high, which brakes.
    fn stop(&mut self)
        ensures
            driven_to(old(self).in1(), final(self).in1(), PinLevel::High),
            driven_to(old(self).in2(), final(self).in2(), PinLevel::High),
    {
        self.in1_pin.set_high();
        self.in2_pin.set_high();
    }
}

impl Motor for Drv8835Driver<PhaseEnable> {
    /// Enables drive and sets the phase for `dir`; `speed` is not applied yet.
    fn run(&mut self, dir: Direction, speed: u8)
        ensures
            driven_to(old(self).enable_line(), final(self).enable_line(), PinLevel::High),
            driven_to(old(self).phase_line(), final(self).phase_line(), phase_level(dir)),
    {
        self.in2_pin.set_high();
        match dir {
            Direction::Cw => {
                self.in1_pin.set_high();
            },
            Direction::Ccw => {
                self.in1_pin.set_low();
            },
        }
    }

    /// The same as `stop`: with only phase and enable the outputs cannot be
    /// left open.
    fn coast(&mut self)
        ensures
            Drv8835Driver::brought_to_rest(*old(self), *final(self)),
    {
        self.stop();
    }

    /// Disables drive; the phase, which then does not matter, is set low so
    /// that the rest state is always the same.
    fn stop(&mut self)
        ensures
            Drv8835Driver::brought_to_rest(*old(self), *final(self)),
    {
        self.in2_pin.set_low();
        self.in1_pin.set_low();
    }
}

} // verus!
