use vstd::prelude::*;

verus! {

/// The highest speed a motor accepts, in percent.
pub const MAX_SPEED: u8 = 100;

/// Checks that `speed` is a percentage no larger than `MAX_SPEED`.
pub fn validate_speed(speed: u8) -> (r: Result<(), ()>)
    ensures
        r is Ok <==> speed <= MAX_SPEED,
{
    if speed > MAX_SPEED {
        Err(())
    } else {
        Ok(())
    }
}

/// A command for a motor.
#[derive(Clone, Copy, PartialEq, Eq, Structural, Debug)]
pub enum FtMotorCommand {
    /// Drive forward with a speed (in percent).
    Forward(u8),
    /// Drive backward with a speed (in percent).
    Backward(u8),
    /// Stop the motor by actively braking.
    Stop,
    /// Stop the motor by coasting.
    Coast,
}

/// A motor whose operations may fail with an error of type `E`.
///
/// `carries_out(cmd)` says that the motor's outputs are in the state that
/// realises `cmd`; an operation that returns `Ok` leaves the motor so.
pub trait FtMotor<E> {
    spec fn carries_out(&self, cmd: FtMotorCommand) -> bool;

    fn forward(&mut self, speed: u8) -> (r: Result<(), E>)
        ensures
            r is Ok ==> final(self).carries_out(FtMotorCommand::Forward(speed)),
    ;

    fn backward(&mut self, speed: u8) -> (r: Result<(), E>)
        ensures
            r is Ok ==> final(self).carries_out(FtMotorCommand::Backward(speed)),
    ;

    fn coast(&mut self) -> (r: Result<(), E>)
        ensures
            r is Ok ==> final(self).carries_out(FtMotorCommand::Coast),
    ;

    fn stop(&mut self) -> (r: Result<(), E>)
        ensures
            r is Ok ==> final(self).carries_out(FtMotorCommand::Stop),
    ;

    /// Carries out `cmd` with the matching one of the four operations.
    fn drive(&mut self, cmd: FtMotorCommand) -> (r: Result<(), E>)
        ensures
            r is Ok ==> final(self).carries_out(cmd),
    {
        match cmd {
            FtMotorCommand::Forward(speed) => self.forward(speed),
            FtMotorCommand::Backward(speed) => self.backward(speed),
            FtMotorCommand::Stop => self.stop(),
            FtMotorCommand::Coast => self.coast(),
        }
    }
}

} // verus!
