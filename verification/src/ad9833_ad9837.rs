//! What is particular to the AD9833 and AD9837: their constructors and the
//! choice of the output waveform.

use vstd::prelude::*;
use crate::device::Ad983x;
use crate::interface::{BusEvent, SelectLine, SerialBus};
use crate::marker;
use crate::register::{BitFlags, Config};
use crate::types::{Error, OutputWaveform};

verus! {

impl<DEV, CS, E> Ad983x<DEV, CS, marker::Ad9833Ad9837> where
    DEV: SerialBus<Error = E>,
    CS: SelectLine<Error = E>,
 {
    /// Creates a handle on an AD9833.
    ///
    /// The handle takes the device to be held in reset and does not touch
    /// it: call `reset` before using the device after power up.
    pub fn new_ad9833(spi: DEV, cs: CS) -> (r: Self)
        ensures
            r.control() == Config::reset_asserted(),
            r.trace() == Seq::<BusEvent<E>>::empty(),
            r.bus() == spi,
            r.select_line() == cs,
    {
        Self::create(spi, cs)
    }

    /// Creates a handle on an AD9837, which behaves as the AD9833 does.
    ///
    /// The handle takes the device to be held in reset and does not touch
    /// it: call `reset` before using the device after power up.
    pub fn new_ad9837(spi: DEV, cs: CS) -> (r: Self)
        ensures
            r.control() == Config::reset_asserted(),
            r.trace() == Seq::<BusEvent<E>>::empty(),
            r.bus() == spi,
            r.select_line() == cs,
    {
        Self::create(spi, cs)
    }

    /// Sets the output waveform. The control word is sent whether or not it
    /// changes anything.
    pub fn set_output_waveform(&mut self, waveform: OutputWaveform) -> (r: Result<(), Error<E>>)
        ensures
            final(self).wrote_control(*old(self), old(self).control().generating(waveform), r),
    {
        let cached = self.cached_control();
        let control = match waveform {
            OutputWaveform::Sinusoidal => cached.with_low(BitFlags::OPBITEN).with_low(
                BitFlags::MODE,
            ),
            OutputWaveform::Triangle => cached.with_low(BitFlags::OPBITEN).with_high(
                BitFlags::MODE,
            ),
            OutputWaveform::SquareMsbOfDac => cached.with_high(BitFlags::OPBITEN).with_low(
                BitFlags::MODE,
            ).with_high(BitFlags::DIV2),
            OutputWaveform::SquareMsbOfDacDiv2 => cached.with_high(BitFlags::OPBITEN).with_low(
                BitFlags::MODE,
            ).with_low(BitFlags::DIV2),
        };
        proof {
            let bits = cached.bits;
            assert(((bits & !0x0020u16) & !0x0002u16) == ((bits & !0x0022u16) | 0u16))
                by (bit_vector);
            assert(((bits & !0x0020u16) | 0x0002u16) == ((bits & !0x0022u16) | 0x0002u16))
                by (bit_vector);
            assert((((bits | 0x0020u16) & !0x0002u16) | 0x0008u16) == ((bits & !0x002Au16)
                | 0x0028u16)) by (bit_vector);
            assert((((bits | 0x0020u16) & !0x0002u16) & !0x0008u16) == ((bits & !0x002Au16)
                | 0x0020u16)) by (bit_vector);
        }
        self.write_control(control)
    }
}

} // verus!
