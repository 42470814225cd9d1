//! The serial port.
use vstd::prelude::*;
use crate::gpio::Pin;

verus! {

/// The lines a serial port uses. Flow control is optional.
#[derive(Debug)]
pub struct Pins {
    /// Receive data.
    pub rxd: Pin,
    /// Transmit data.
    pub txd: Pin,
    /// Clear to send.
    pub cts: Option<Pin>,
    /// Request to send.
    pub rts: Option<Pin>,
}

} // verus!
