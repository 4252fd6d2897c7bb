use vstd::prelude::*;

verus! {

/// Number of stop bits per character.
#[derive(Clone, Copy, Debug, PartialEq, Eq, Structural)]
pub enum StopBits {
    One,
    Two,
}

/// Parity bit mode.
#[derive(Clone, Copy, Debug, PartialEq, Eq, Structural)]
pub enum Parity {
    No,
    Odd,
    Even,
}

/// Number of data bits per character.
#[derive(Clone, Copy, Debug, PartialEq, Eq, Structural)]
pub enum DataBits {
    Seven,
    Eight,
}

/// Line settings applied when the device is opened and on each
/// reconfiguration request. Checking that the hardware supports them is
/// left to the driver.
#[derive(Clone, Copy, Debug, PartialEq, Eq, Structural)]
pub struct SerialParams {
    pub baud: u32,
    pub data_bits: DataBits,
    pub stop_bits: StopBits,
    pub parity: Parity,
}

} // verus!
