//! Plain value types: the error taxonomy and the closed selector sets.

use vstd::prelude::*;

verus! {

/// All possible errors of the driver.
#[derive(Debug)]
pub enum Error<E> {
    /// The serial bus failed a transfer.
    Spi(E),
    /// The chip-select line could not be driven.
    CSPinError(E),
    /// A value does not fit the bit width of its field.
    InvalidArgument,
}

/// One of the two frequency registers.
#[derive(Debug, Clone, Copy, PartialEq, Eq, Structural)]
pub enum FrequencyRegister {
    /// Frequency register 0
    F0,
    /// Frequency register 1
    F1,
}

/// One of the two phase registers.
#[derive(Debug, Clone, Copy, PartialEq, Eq, Structural)]
pub enum PhaseRegister {
    /// Phase register 0
    P0,
    /// Phase register 1
    P1,
}

/// Shape of the generated waveform.
#[derive(Debug, Clone, Copy, PartialEq, Eq, Structural)]
pub enum OutputWaveform {
    /// Sine wave
    Sinusoidal,
    /// Triangle wave
    Triangle,
    /// Square wave with the frequency of the most significant DAC bit
    SquareMsbOfDac,
    /// Square wave with half that frequency
    SquareMsbOfDacDiv2,
}

/// Parts of the device that are powered down.
#[derive(Debug, Clone, Copy, PartialEq, Eq, Structural)]
pub enum PoweredDown {
    /// Everything is running.
    Nothing,
    /// The DAC is powered down.
    Dac,
    /// The internal clock is disabled.
    InternalClock,
    /// Both the DAC and the internal clock are off.
    DacAndInternalClock,
}

/// A payload of one serial transfer, by width.
#[derive(Debug, Clone, Copy, PartialEq, Eq, Structural)]
pub enum DataFormat {
    /// One byte
    U8(u8),
    /// One 16-bit word
    U16(u16),
    /// One 32-bit word
    U32(u32),
}

} // verus!
