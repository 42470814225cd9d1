//! The enable line of the bridge driver.
use vstd::prelude::*;
use crate::gpio::Pin;

verus! {

/// The driver's enable line. While it is low the driver sleeps and the
/// speaker winding carries no current.
#[derive(Debug)]
pub struct PowerGate {
    line: Pin,
    raised: bool,
}

impl PowerGate {
    /// Whether the enable line is high.
    pub closed spec fn view(&self) -> bool {
        self.raised
    }

    /// The line that is driven, as it was handed over.
    pub closed spec fn line(&self) -> Pin {
        self.line
    }

    /// Takes the enable line and owns it from here on. The line starts low.
    pub fn new(line: Pin) -> (gate: Self)
        requires
            line.mode is PushPullOutput,
        ensures
            gate.line() == line,
            !gate@,
    {
        PowerGate { line, raised: false }
    }

    /// Raises the enable line.
    pub fn enable(&mut self)
        ensures
            final(self)@,
            final(self).line() == old(self).line(),
    {
        self.raised = true;
    }

    /// Lowers the enable line.
    pub fn disable(&mut self)
        ensures
            !final(self)@,
            final(self).line() == old(self).line(),
    {
        self.raised = false;
    }

    /// Whether the enable line is high.
    pub fn is_enabled(&self) -> (raised: bool)
        ensures
            raised == self@,
    {
        self.raised
    }

    /// Number of the port line that is driven.
    pub fn line_number(&self) -> (number: u8)
        ensures
            number == self.line().number,
    {
        self.line.number
    }
}

} // verus!
