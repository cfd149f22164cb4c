//! Status codes for unrecoverable faults, reported through the signal
//! encoder as a blink pattern.

use vstd::prelude::*;

verus! {

/// A fault condition with no recovery path. Each code is rendered by the
/// signal encoder as a 4-pulse blink pattern, read least-significant bit
/// first: a set bit is a long pulse, a clear bit a short one.
#[derive(Clone, Copy, Debug, PartialEq, Eq, Structural)]
pub enum StatusCode {
    /// The accelerometer could not be initialised at boot.
    AccelerometerInitFailure,
    /// A serial write failed with an error other than would-block.
    UsbWriteError,
    /// A serial write reported would-block (fatal only in legacy wirings).
    UsbWriteWouldBlock,
    /// A serial flush reported would-block (fatal only in legacy wirings).
    UsbFlushWouldBlock,
    /// A serial flush failed with an error other than would-block.
    UsbFlushError,
    /// The radio could not be initialised at boot.
    RadioSetupFailure,
    /// A serial read failed with an error other than would-block.
    UsbReadError,
}

impl StatusCode {
    /// The numeric code whose low bits form the blink pattern.
    pub open spec fn spec_code(self) -> u8 {
        match self {
            StatusCode::AccelerometerInitFailure => 1,
            StatusCode::UsbWriteError => 2,
            StatusCode::UsbWriteWouldBlock => 3,
            StatusCode::UsbFlushWouldBlock => 4,
            StatusCode::UsbFlushError => 5,
            StatusCode::RadioSetupFailure => 6,
            StatusCode::UsbReadError => 7,
        }
    }

    /// The numeric code whose low bits form the blink pattern.
    pub fn code(&self) -> (c: u8)
        ensures
            c == self.spec_code(),
    {
        match self {
            StatusCode::AccelerometerInitFailure => 1,
            StatusCode::UsbWriteError => 2,
            StatusCode::UsbWriteWouldBlock => 3,
            StatusCode::UsbFlushWouldBlock => 4,
            StatusCode::UsbFlushError => 5,
            StatusCode::RadioSetupFailure => 6,
            StatusCode::UsbReadError => 7,
        }
    }

    /// Every status code is blinked with this many pulses.
    pub fn bit_length(&self) -> (n: usize)
        ensures
            n == 4,
    {
        4
    }
}

} // verus!
