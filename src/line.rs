use vstd::prelude::*;

verus! {

/// A logic level of a digital line.
#[derive(Clone, Copy, PartialEq, Eq, Structural, Debug)]
pub enum PinLevel {
    Low,
    High,
}

/// A digital output line owned by a driver.
///
/// It knows the level it was last driven to (none before its first write) and
/// keeps the writes that the platform has not yet been handed, oldest first.
/// The platform takes them with `take_pending` and applies them in order.
pub struct OutputLine {
    level: Option<PinLevel>,
    pending: Vec<PinLevel>,
}

/// `after` is `before` driven once more, to `level`.
pub open spec fn driven_to(before: OutputLine, after: OutputLine, level: PinLevel) -> bool {
    &&& after.level() == Some(level)
    &&& after.pending() == before.pending().push(level)
}

impl OutputLine {
    /// The level the line was last driven to.
    pub closed spec fn level(&self) -> Option<PinLevel> {
        self.level
    }

    /// The writes not yet handed to the platform, oldest first.
    pub closed spec fn pending(&self) -> Seq<PinLevel> {
        self.pending@
    }

    /// A line that has never been driven.
    pub fn new() -> (r: Self)
        ensures
            r.level() is None,
            r.pending() == Seq::<PinLevel>::empty(),
    {
        OutputLine { level: None, pending: Vec::new() }
    }

    /// Drives the line to `level`.
    pub fn set_level(&mut self, level: PinLevel)
        ensures
            driven_to(*old(self), *final(self), level),
    {
        self.level = Some(level);
        self.pending.push(level);
    }

    pub fn set_high(&mut self)
        ensures
            driven_to(*old(self), *final(self), PinLevel::High),
    {
        self.set_level(PinLevel::High);
    }

    pub fn set_low(&mut self)
        ensures
            driven_to(*old(self), *final(self), PinLevel::Low),
    {
        self.set_level(PinLevel::Low);
    }

    /// The level the line was last driven to.
    pub fn current_level(&self) -> (r: Option<PinLevel>)
        ensures
            r == self.level(),
    {
        self.level
    }

    /// Hands over the pending writes; the line keeps its level.
    pub fn take_pending(&mut self) -> (r: Vec<PinLevel>)
        ensures
            r@ == old(self).pending(),
            final(self).pending() == Seq::<PinLevel>::empty(),
            final(self).level() == old(self).level(),
    {
        let mut taken: Vec<PinLevel> = Vec::new();
        std::mem::swap(&mut taken, &mut self.pending);
        taken
    }
}

} // verus!
