use vstd::prelude::*;

use core::marker::PhantomData;

use crate::ft_motor::{validate_speed, FtMotor, FtMotorCommand, MAX_SPEED};
use crate::ft_output::{FtOutput, FtOutputCommand, OutputState, LOW_INTENSITY};

verus! {

/// Why a motor made of two outputs failed.
#[derive(Clone, Copy, PartialEq, Eq, Debug)]
pub enum MotorError<OUT1Error, OUT2Error> {
    /// The speed was above `MAX_SPEED`; no output was touched.
    InvalidSpeed,
    /// The first output failed; the second was not touched.
    Output1Error(OUT1Error),
    /// The second output failed, after the first was switched.
    Output2Error(OUT2Error),
}

/// A pair of outputs used as one motor: the motor turns one way when the first
/// output is on and the second low, and the other way when they swap.
pub struct FtOutputPair<O1, O2, E1, E2> where O1: FtOutput<E1>, O2: FtOutput<E2> {
    output1: O1,
    output2: O2,
    _err1: PhantomData<E1>,
    _err2: PhantomData<E2>,
}

impl<O1, O2, E1, E2> FtOutputPair<O1, O2, E1, E2> where O1: FtOutput<E1>, O2: FtOutput<E2> {
    /// The first output.
    pub closed spec fn output1(&self) -> O1 {
        self.output1
    }

    /// The second output.
    pub closed spec fn output2(&self) -> O2 {
        self.output2
    }

    pub fn new(output1: O1, output2: O2) -> (r: Self)
        ensures
            r.output1() == output1,
            r.output2() == output2,
    {
        FtOutputPair { output1, output2, _err1: PhantomData, _err2: PhantomData }
    }

    /// This pair, seen only as a motor.
    pub fn into_motor(self) -> impl FtMotor<MotorError<E1, E2>> {
        self
    }
}

impl<O1, O2, E1, E2> FtMotor<MotorError<E1, E2>> for FtOutputPair<O1, O2, E1, E2> where
    O1: FtOutput<E1>,
    O2: FtOutput<E2>,
 {
    /// Forward: the first output on at the speed, the second low. Backward: the
    /// mirror. Stop: both low (braking). Coast: both off (open circuit).
    open spec fn carries_out(&self, cmd: FtMotorCommand) -> bool {
        let low = OutputState::On(LOW_INTENSITY);
        match cmd {
            FtMotorCommand::Forward(speed) => self.output1().state() == OutputState::On(speed)
                && self.output2().state() == low,
            FtMotorCommand::Backward(speed) => self.output1().state() == low
                && self.output2().state() == OutputState::On(speed),
            FtMotorCommand::Stop => self.output1().state() == low && self.output2().state() == low,
            FtMotorCommand::Coast => self.output1().state() == OutputState::Off
                && self.output2().state() == OutputState::Off,
        }
    }

    fn forward(&mut self, speed: u8) -> (r: Result<(), MotorError<E1, E2>>)
        ensures
            speed > MAX_SPEED ==> r == Err::<(), MotorError<E1, E2>>(MotorError::InvalidSpeed)
                && *final(self) == *old(self),
            speed <= MAX_SPEED ==> !(r matches Err(MotorError::InvalidSpeed)),
            r matches Err(MotorError::Output1Error(_)) ==> final(self).output2() == old(
                self,
            ).output2(),
            r matches Err(MotorError::Output2Error(_)) ==> final(self).output1().state()
                == OutputState::On(speed),
    {
        if validate_speed(speed).is_err() {
            return Err(MotorError::InvalidSpeed);
        }
        match self.output1.turn_on(speed) {
            Ok(()) => {},
            Err(e) => return Err(MotorError::Output1Error(e)),
        }
        match self.output2.set_output(FtOutputCommand::Low) {
            Ok(()) => Ok(()),
            Err(e) => Err(MotorError::Output2Error(e)),
        }
    }

    fn backward(&mut self, speed: u8) -> (r: Result<(), MotorError<E1, E2>>)
        ensures
            speed > MAX_SPEED ==> r == Err::<(), MotorError<E1, E2>>(MotorError::InvalidSpeed)
                && *final(self) == *old(self),
            speed <= MAX_SPEED ==> !(r matches Err(MotorError::InvalidSpeed)),
            r matches Err(MotorError::Output1Error(_)) ==> final(self).output2() == old(
                self,
            ).output2(),
            r matches Err(MotorError::Output2Error(_)) ==> final(self).output1().state()
                == OutputState::On(LOW_INTENSITY),
    {
        if validate_speed(speed).is_err() {
            return Err(MotorError::InvalidSpeed);
        }
        match self.output1.set_output(FtOutputCommand::Low) {
            Ok(()) => {},
            Err(e) => return Err(MotorError::Output1Error(e)),
        }
        match self.output2.turn_on(speed) {
            Ok(()) => Ok(()),
            Err(e) => Err(MotorError::Output2Error(e)),
        }
    }

    fn coast(&mut self) -> (r: Result<(), MotorError<E1, E2>>)
        ensures
            !(r matches Err(MotorError::InvalidSpeed)),
            r matches Err(MotorError::Output1Error(_)) ==> final(self).output2() == old(
                self,
            ).output2(),
            r matches Err(MotorError::Output2Error(_)) ==> final(self).output1().state()
                == OutputState::Off,
    {
        match self.output1.turn_off() {
            Ok(()) => {},
            Err(e) => return Err(MotorError::Output1Error(e)),
        }
        match self.output2.turn_off() {
            Ok(()) => Ok(()),
            Err(e) => Err(MotorError::Output2Error(e)),
        }
    }

    fn stop(&mut self) -> (r: Result<(), MotorError<E1, E2>>)
        ensures
            !(r matches Err(MotorError::InvalidSpeed)),
            r matches Err(MotorError::Output1Error(_)) ==> final(self).output2() == old(
                self,
            ).output2(),
            r matches Err(MotorError::Output2Error(_)) ==> final(self).output1().state()
                == OutputState::On(LOW_INTENSITY),
    {
        match self.output1.set_output(FtOutputCommand::Low) {
            Ok(()) => {},
            Err(e) => return Err(MotorError::Output1Error(e)),
        }
        match self.output2.set_output(FtOutputCommand::Low) {
            Ok(()) => Ok(()),
            Err(e) => Err(MotorError::Output2Error(e)),
        }
    }
}

} // verus!
