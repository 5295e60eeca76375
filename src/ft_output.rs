use vstd::prelude::*;

verus! {

/// The intensity percentage for the high voltage level (Vcc).
pub const HIGH_INTENSITY: u8 = 100;

/// The intensity percentage for the low voltage level (GND).
pub const LOW_INTENSITY: u8 = 0;

/// A command for an output.
#[derive(Clone, Copy, PartialEq, Eq, Structural, Debug)]
pub enum FtOutputCommand {
    /// Turn the output on with a specific intensity (in percent).
    On(u8),
    /// Turn the output off by opening the circuit.
    Off,
    /// Connect the output to the high voltage level (Vcc): `On(HIGH_INTENSITY)`.
    High,
    /// Connect the output to the low voltage level (GND): `On(LOW_INTENSITY)`.
    ///
    /// This differs from `Off`, where the circuit is open.
    Low,
}

/// What an output is doing: driven at an intensity, or open.
#[derive(Clone, Copy, PartialEq, Eq, Structural, Debug)]
pub enum OutputState {
    On(u8),
    Off,
}

/// The state an output is in after it carried out `cmd`.
pub open spec fn command_state(cmd: FtOutputCommand) -> OutputState {
    match cmd {
        FtOutputCommand::On(intensity) => OutputState::On(intensity),
        FtOutputCommand::Off => OutputState::Off,
        FtOutputCommand::High => OutputState::On(HIGH_INTENSITY),
        FtOutputCommand::Low => OutputState::On(LOW_INTENSITY),
    }
}

/// An output that can be switched on at an intensity, or off; each switch may
/// fail with an error of type `E`.
///
/// Implementors describe their current state through `state`, and promise that
/// a switch that returns `Ok` left the output in the requested state.
pub trait FtOutput<E> {
    spec fn state(&self) -> OutputState;

    fn turn_on(&mut self, intensity: u8) -> (r: Result<(), E>)
        ensures
            r is Ok ==> final(self).state() == OutputState::On(intensity),
    ;

    fn turn_off(&mut self) -> (r: Result<(), E>)
        ensures
            r is Ok ==> final(self).state() == OutputState::Off,
    ;

    /// Carries out `cmd` with one call of `turn_on` or `turn_off`.
    fn set_output(&mut self, cmd: FtOutputCommand) -> (r: Result<(), E>)
        ensures
            r is Ok ==> final(self).state() == command_state(cmd),
    {
        match cmd {
            FtOutputCommand::On(intensity) => self.turn_on(intensity),
            FtOutputCommand::Off => self.turn_off(),
            FtOutputCommand::High => self.turn_on(HIGH_INTENSITY),
            FtOutputCommand::Low => self.turn_on(LOW_INTENSITY),
        }
    }
}

} // verus!
