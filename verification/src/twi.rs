//! The two-wire bus.
use vstd::prelude::*;
use crate::gpio::Pin;

verus! {

/// The lines a two-wire bus master drives.
#[derive(Debug)]
pub struct Pins {
    /// Serial clock.
    pub scl: Pin,
    /// Serial data.
    pub sda: Pin,
}

} // verus!
