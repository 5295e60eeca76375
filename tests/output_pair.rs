use std::cell::RefCell;
use std::rc::Rc;

use ft_hal::ft_motor::{validate_speed, FtMotor, FtMotorCommand, MAX_SPEED};
use ft_hal::ft_output::{FtOutput, FtOutputCommand, OutputState};
use ft_hal::ft_output_pair::{FtOutputPair, MotorError};

#[derive(Clone, Copy, PartialEq, Debug)]
enum Call {
    On(u8),
    Off,
}

/// An output that records every switch and fails each one when told to.
struct Recorder {
    calls: Rc<RefCell<Vec<Call>>>,
    fails: bool,
    code: u32,
}

impl FtOutput<u32> for Recorder {
    fn state(&self) -> OutputState {
        match self.calls.borrow().last() {
            Some(Call::On(i)) => OutputState::On(*i),
            _ => OutputState::Off,
        }
    }

    fn turn_on(&mut self, intensity: u8) -> Result<(), u32> {
        if self.fails {
            return Err(self.code);
        }
        self.calls.borrow_mut().push(Call::On(intensity));
        Ok(())
    }

    fn turn_off(&mut self) -> Result<(), u32> {
        if self.fails {
            return Err(self.code);
        }
        self.calls.borrow_mut().push(Call::Off);
        Ok(())
    }
}

type Log = Rc<RefCell<Vec<Call>>>;

fn recorder(fails: bool, code: u32) -> (Recorder, Log) {
    let calls = Rc::new(RefCell::new(Vec::new()));
    (Recorder { calls: calls.clone(), fails, code }, calls)
}

fn pair(fail1: bool, fail2: bool) -> (FtOutputPair<Recorder, Recorder, u32, u32>, Log, Log) {
    let (o1, l1) = recorder(fail1, 1);
    let (o2, l2) = recorder(fail2, 2);
    (FtOutputPair::new(o1, o2), l1, l2)
}

#[test]
fn validate_speed_accepts_up_to_max() {
    assert_eq!(MAX_SPEED, 100);
    assert_eq!(validate_speed(0), Ok(()));
    assert_eq!(validate_speed(100), Ok(()));
    assert_eq!(validate_speed(101), Err(()));
    assert_eq!(validate_speed(255), Err(()));
}

#[test]
fn set_output_maps_commands() {
    let (mut o, log) = recorder(false, 0);
    assert_eq!(o.set_output(FtOutputCommand::On(42)), Ok(()));
    assert_eq!(o.set_output(FtOutputCommand::Off), Ok(()));
    assert_eq!(o.set_output(FtOutputCommand::High), Ok(()));
    assert_eq!(o.set_output(FtOutputCommand::Low), Ok(()));
    assert_eq!(*log.borrow(), vec![Call::On(42), Call::Off, Call::On(100), Call::On(0)]);
}

#[test]
fn forward_and_backward_succeed_for_every_valid_speed() {
    for speed in 0..=100u8 {
        let (mut p, l1, l2) = pair(false, false);
        assert_eq!(p.forward(speed), Ok(()));
        assert_eq!(*l1.borrow(), vec![Call::On(speed)]);
        assert_eq!(*l2.borrow(), vec![Call::On(0)]);
        let (mut p, l1, l2) = pair(false, false);
        assert_eq!(p.backward(speed), Ok(()));
        assert_eq!(*l1.borrow(), vec![Call::On(0)]);
        assert_eq!(*l2.borrow(), vec![Call::On(speed)]);
    }
}

#[test]
fn invalid_speed_writes_nothing() {
    for speed in 101..=255u8 {
        let (mut p, l1, l2) = pair(false, false);
        assert_eq!(p.forward(speed), Err(MotorError::InvalidSpeed));
        assert_eq!(p.backward(speed), Err(MotorError::InvalidSpeed));
        assert!(l1.borrow().is_empty());
        assert!(l2.borrow().is_empty());
    }
}

#[test]
fn invalid_speed_wins_over_failing_outputs() {
    let (mut p, _, _) = pair(true, true);
    assert_eq!(p.forward(101), Err(MotorError::InvalidSpeed));
}

#[test]
fn stop_drives_both_low() {
    let (mut p, l1, l2) = pair(false, false);
    assert_eq!(p.stop(), Ok(()));
    assert_eq!(*l1.borrow(), vec![Call::On(0)]);
    assert_eq!(*l2.borrow(), vec![Call::On(0)]);
}

#[test]
fn coast_turns_both_off() {
    let (mut p, l1, l2) = pair(false, false);
    assert_eq!(p.coast(), Ok(()));
    assert_eq!(*l1.borrow(), vec![Call::Off]);
    assert_eq!(*l2.borrow(), vec![Call::Off]);
}

#[test]
fn drive_dispatches_each_command() {
    let (mut p, l1, l2) = pair(false, false);
    assert_eq!(p.drive(FtMotorCommand::Forward(30)), Ok(()));
    assert_eq!(p.drive(FtMotorCommand::Backward(60)), Ok(()));
    assert_eq!(p.drive(FtMotorCommand::Stop), Ok(()));
    assert_eq!(p.drive(FtMotorCommand::Coast), Ok(()));
    assert_eq!(p.drive(FtMotorCommand::Forward(200)), Err(MotorError::InvalidSpeed));
    assert_eq!(*l1.borrow(), vec![Call::On(30), Call::On(0), Call::On(0), Call::Off]);
    assert_eq!(*l2.borrow(), vec![Call::On(0), Call::On(60), Call::On(0), Call::Off]);
}

#[test]
fn first_output_error_stops_before_second() {
    let (mut p, _, l2) = pair(true, false);
    assert_eq!(p.forward(50), Err(MotorError::Output1Error(1)));
    assert_eq!(p.backward(50), Err(MotorError::Output1Error(1)));
    assert_eq!(p.stop(), Err(MotorError::Output1Error(1)));
    assert_eq!(p.coast(), Err(MotorError::Output1Error(1)));
    assert!(l2.borrow().is_empty());
}

#[test]
fn second_output_error_after_first_switched() {
    let (mut p, l1, _) = pair(false, true);
    assert_eq!(p.forward(70), Err(MotorError::Output2Error(2)));
    assert_eq!(*l1.borrow(), vec![Call::On(70)]);
    assert_eq!(p.coast(), Err(MotorError::Output2Error(2)));
    assert_eq!(*l1.borrow(), vec![Call::On(70), Call::Off]);
}

#[test]
fn into_motor_keeps_the_outputs() {
    let (p, l1, l2) = pair(false, false);
    let mut m = p.into_motor();
    assert!(m.forward(10).is_ok());
    assert_eq!(*l1.borrow(), vec![Call::On(10)]);
    assert_eq!(*l2.borrow(), vec![Call::On(0)]);
}
