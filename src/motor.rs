use vstd::prelude::*;

verus! {

/// The direction in which a motor turns.
#[derive(Clone, Copy, PartialEq, Eq, Structural, Debug)]
pub enum Direction {
    /// Clockwise, or backward.
    Cw,
    /// Counter-clockwise, or forward.
    Ccw,
}

/// A motor whose control lines cannot fail to switch.
///
/// The `speed` of `run` is a percentage; it is accepted but not yet applied,
/// since the lines are driven fully on until intensity modulation exists.
pub trait Motor {
    fn run(&mut self, dir: Direction, speed: u8);

    fn coast(&mut self);

    fn stop(&mut self);
}

} // verus!
