//! The device handle and the operations shared by every device family.

use core::marker::PhantomData;
use vstd::arithmetic::power2::lemma2_to64;
use vstd::bits::{lemma_u32_pow2_no_overflow, lemma_u32_shl_is_mul};
use vstd::prelude::*;
use crate::interface::{BusEvent, SelectLine, SerialBus, SpiInterface};
use crate::protocol::{
    control_frame, control_update_result, frame_result, frequency_frame, half_frame,
    is_control_update, is_frame, is_load, lemma_load_completed, lemma_load_stopped, load_control,
    load_result, phase_frame, Frame,
};
use crate::register::{BitFlags, Config};
use crate::types::{DataFormat, Error, FrequencyRegister, PhaseRegister, PoweredDown};
use crate::wire::{fits, frequency_tag, long_word_bytes, word_bytes};

verus! {

/// A direct digital synthesizer of the AD983x series.
///
/// The handle owns the transport and caches the control register value that
/// was last written with success. `IC` tags the device family.
pub struct Ad983x<DEV: SerialBus, CS, IC> {
    iface: SpiInterface<DEV, CS>,
    control: Config,
    _ic: PhantomData<IC>,
}

impl<DEV: SerialBus, CS, IC> Ad983x<DEV, CS, IC> {
    /// The cached control register value.
    pub closed spec fn control(&self) -> Config {
        self.control
    }

    /// Every request that this handle has made of its transport, oldest
    /// first, each with the answer it got.
    pub closed spec fn trace(&self) -> Seq<BusEvent<DEV::Error>> {
        self.iface.trace()
    }

    /// The bus in its current state.
    pub closed spec fn bus(&self) -> DEV {
        self.iface.bus()
    }

    /// The select line in its current state.
    pub closed spec fn select_line(&self) -> CS {
        self.iface.line()
    }

    /// Whether the trace of this handle starts with the whole trace of
    /// `earlier`.
    pub open spec fn continues(&self, earlier: Self) -> bool {
        earlier.trace().is_prefix_of(self.trace())
    }

    /// The requests made after those of `earlier`.
    pub open spec fn issued_since(&self, earlier: Self) -> Seq<BusEvent<DEV::Error>> {
        self.trace().skip(earlier.trace().len() as int)
    }

    /// This handle is `earlier` after one frame with the payload `frame`
    /// that reported `r`; the cached control value is untouched.
    pub open spec fn sent_frame(
        &self,
        earlier: Self,
        frame: Frame,
        r: Result<(), Error<DEV::Error>>,
    ) -> bool {
        &&& self.continues(earlier)
        &&& is_frame(self.issued_since(earlier), frame)
        &&& r == frame_result(self.issued_since(earlier), frame)
        &&& self.control() == earlier.control()
    }

    /// This handle is `earlier` after an unconditional control write of
    /// `target` that reported `r`: one frame with the control word of
    /// `target`, and `target` cached if and only if the write succeeded.
    pub open spec fn wrote_control(
        &self,
        earlier: Self,
        target: Config,
        r: Result<(), Error<DEV::Error>>,
    ) -> bool {
        &&& self.continues(earlier)
        &&& is_frame(self.issued_since(earlier), control_frame(target))
        &&& r == frame_result(self.issued_since(earlier), control_frame(target))
        &&& self.control() == if r is Ok {
            target
        } else {
            earlier.control()
        }
    }

    /// This handle is `earlier` after a control update to `target` that
    /// reported `r`: nothing at all if `target` was cached already, else as
    /// `wrote_control`.
    pub open spec fn updated_control(
        &self,
        earlier: Self,
        target: Config,
        r: Result<(), Error<DEV::Error>>,
    ) -> bool {
        &&& self.continues(earlier)
        &&& is_control_update(self.issued_since(earlier), earlier.control(), target)
        &&& r == control_update_result(self.issued_since(earlier), earlier.control(), target)
        &&& self.control() == if r is Ok {
            target
        } else {
            earlier.control()
        }
        &&& target == earlier.control() ==> *self == earlier
    }

    /// This handle is `earlier` after a register load that reported `r`: a
    /// control update to `target` and, if that succeeded, one frame with the
    /// payload `data`.
    pub open spec fn loaded(
        &self,
        earlier: Self,
        target: Config,
        data: Frame,
        r: Result<(), Error<DEV::Error>>,
    ) -> bool {
        &&& self.continues(earlier)
        &&& is_load(self.issued_since(earlier), earlier.control(), target, data)
        &&& r == load_result(self.issued_since(earlier), earlier.control(), target, data)
        &&& self.control() == load_control(self.issued_since(earlier), earlier.control(), target)
    }

    /// A handle on a device that is held in reset; the transport has not been
    /// used.
    pub(crate) fn create(spi: DEV, cs: CS) -> (r: Self)
        ensures
            r.control() == Config::reset_asserted(),
            r.trace() == Seq::<BusEvent<DEV::Error>>::empty(),
            r.bus() == spi,
            r.select_line() == cs,
    {
        Ad983x {
            iface: SpiInterface::new(spi, cs),
            control: Config { bits: BitFlags::RESET },
            _ic: PhantomData,
        }
    }

    /// The cached control register value.
    pub fn cached_control(&self) -> (r: Config)
        ensures
            r == self.control(),
    {
        self.control
    }

    /// Destroys the handle and gives the bus and the select line back. The
    /// device itself is not touched.
    pub fn destroy(self) -> (r: (DEV, CS))
        ensures
            r.0 == self.bus(),
            r.1 == self.select_line(),
    {
        self.iface.release()
    }
}

impl<DEV, CS, IC, E> Ad983x<DEV, CS, IC> where
    DEV: SerialBus<Error = E>,
    CS: SelectLine<Error = E>,
 {
    /// Writes `control` to the control register: its low fourteen bits under
    /// the address tag `00`, as one frame. The value is cached only once the
    /// frame has gone through.
    pub fn write_control(&mut self, control: Config) -> (r: Result<(), Error<E>>)
        ensures
            final(self).wrote_control(*old(self), control, r),
    {
        let bits: u16 = control.bits;
        let payload: u16 = bits & 0b0011_1111_1111_1111;
        match self.write(DataFormat::U16(payload)) {
            Ok(()) => {},
            Err(e) => {
                return Err(e);
            },
        }
        self.control = control;
        Ok(())
    }

    /// Writes `control` to the control register unless it is the cached
    /// value, in which case nothing is sent.
    pub fn write_control_if_different(&mut self, control: Config) -> (r: Result<(), Error<E>>)
        ensures
            final(self).updated_control(*old(self), control, r),
    {
        if control != self.control {
            self.write_control(control)
        } else {
            assert(self.trace().skip(self.trace().len() as int) =~= Seq::empty());
            Ok(())
        }
    }

    /// Resets the internal registers and leaves the device disabled: the same
    /// as `disable`.
    pub fn reset(&mut self) -> (r: Result<(), Error<E>>)
        ensures
            final(self).wrote_control(*old(self), old(self).control().disabled(), r),
    {
        self.disable()
    }

    /// Disables the device by holding it in reset, which also resets its
    /// internal registers. The control word is sent whether or not the reset
    /// bit was set before.
    pub fn disable(&mut self) -> (r: Result<(), Error<E>>)
        ensures
            final(self).wrote_control(*old(self), old(self).control().disabled(), r),
    {
        let control = self.control.with_high(BitFlags::RESET);
        self.write_control(control)
    }

    /// Enables the device by releasing it from reset. The control word is
    /// sent whether or not the reset bit was clear before.
    pub fn enable(&mut self) -> (r: Result<(), Error<E>>)
        ensures
            final(self).wrote_control(*old(self), old(self).control().enabled(), r),
    {
        let control = self.control.with_low(BitFlags::RESET);
        self.write_control(control)
    }

    /// Accepts `value` if it is below two to the power of `bit_count`, and
    /// so rejects that power itself.
    pub fn check_value_fits(value: u32, bit_count: u32) -> (r: Result<(), Error<E>>)
        requires
            bit_count < 32,
        ensures
            fits(value, bit_count) ==> r == Ok::<(), Error<E>>(()),
            !fits(value, bit_count) ==> r == Err::<(), Error<E>>(Error::InvalidArgument),
    {
        proof {
            lemma_u32_pow2_no_overflow(bit_count as nat);
            lemma_u32_shl_is_mul(1, bit_count);
        }
        if value >= (1u32 << bit_count) {
            Err(Error::InvalidArgument)
        } else {
            Ok(())
        }
    }

    /// Sets a frequency register to a 28-bit word.
    ///
    /// A `value` of two to the power of 28 or more is rejected before the
    /// transport is used. Otherwise the device is switched to the mode that
    /// loads both halves, unless it is in that mode already, and the low and
    /// the high half are sent in one frame.
    pub fn set_frequency(&mut self, register: FrequencyRegister, value: u32) -> (r: Result<
        (),
        Error<E>,
    >)
        ensures
            (r matches Err(Error::InvalidArgument)) <==> value >= 0x1000_0000,
            value >= 0x1000_0000 ==> *final(self) == *old(self),
            value < 0x1000_0000 ==> final(self).loaded(
                *old(self),
                old(self).control().loading_both_halves(),
                frequency_frame(frequency_tag(register), value),
                r,
            ),
    {
        proof {
            lemma2_to64();
        }
        match Self::check_value_fits(value, 28) {
            Ok(()) => {},
            Err(e) => {
                return Err(e);
            },
        }
        let ghost before = *self;
        let control = self.control.with_high(BitFlags::B28);
        match self.write_control_if_different(control) {
            Ok(()) => {},
            Err(e) => {
                proof {
                    lemma_load_stopped(self.issued_since(before), before.control(), control);
                }
                return Err(e);
            },
        }
        let ghost between = *self;
        let reg = Self::get_freq_register_bits(register);
        let r = self.write_data(reg, value);
        proof {
            lemma_load_completed(
                before.trace(),
                between.trace(),
                self.trace(),
                before.control(),
                control,
            );
        }
        r
    }

    /// The address tag of a frequency register.
    pub fn get_freq_register_bits(register: FrequencyRegister) -> (r: u16)
        ensures
            r == frequency_tag(register),
    {
        match register {
            FrequencyRegister::F0 => BitFlags::D14,
            FrequencyRegister::F1 => BitFlags::D15,
        }
    }

    /// Sets the high half of a frequency register to a 14-bit word.
    ///
    /// A `value` of two to the power of 14 or more is rejected before the
    /// transport is used. Otherwise the device is switched to the mode in
    /// which a single word loads the high half, unless it is in that mode
    /// already, and the tagged word is sent as one frame.
    pub fn set_frequency_msb(&mut self, register: FrequencyRegister, value: u16) -> (r: Result<
        (),
        Error<E>,
    >)
        ensures
            (r matches Err(Error::InvalidArgument)) <==> value >= 0x4000,
            value >= 0x4000 ==> *final(self) == *old(self),
            value < 0x4000 ==> final(self).loaded(
                *old(self),
                old(self).control().loading_high_half(),
                half_frame(frequency_tag(register), value),
                r,
            ),
    {
        proof {
            lemma2_to64();
        }
        match Self::check_value_fits(value as u32, 14) {
            Ok(()) => {},
            Err(e) => {
                return Err(e);
            },
        }
        let ghost before = *self;
        let control = self.control.with_low(BitFlags::B28).with_high(BitFlags::HLB);
        proof {
            let bits = before.control().bits;
            assert(((bits & !0x2000u16) | 0x1000u16) == ((bits & !0x3000u16) | 0x1000u16))
                by (bit_vector);
        }
        match self.write_control_if_different(control) {
            Ok(()) => {},
            Err(e) => {
                proof {
                    lemma_load_stopped(self.issued_since(before), before.control(), control);
                }
                return Err(e);
            },
        }
        let ghost between = *self;
        let reg = Self::get_freq_register_bits(register);
        let r = self.write(DataFormat::U16(reg | value));
        proof {
            lemma_load_completed(
                before.trace(),
                between.trace(),
                self.trace(),
                before.control(),
                control,
            );
        }
        r
    }

    /// Sets the low half of a frequency register to a 14-bit word.
    ///
    /// A `value` of two to the power of 14 or more is rejected before the
    /// transport is used. Otherwise the device is switched to the mode in
    /// which a single word loads the low half, unless it is in that mode
    /// already, and the tagged word is sent as one frame.
    pub fn set_frequency_lsb(&mut self, register: FrequencyRegister, value: u16) -> (r: Result<
        (),
        Error<E>,
    >)
        ensures
            (r matches Err(Error::InvalidArgument)) <==> value >= 0x4000,
            value >= 0x4000 ==> *final(self) == *old(self),
            value < 0x4000 ==> final(self).loaded(
                *old(self),
                old(self).control().loading_low_half(),
                half_frame(frequency_tag(register), value),
                r,
            ),
    {
        proof {
            lemma2_to64();
        }
        match Self::check_value_fits(value as u32, 14) {
            Ok(()) => {},
            Err(e) => {
                return Err(e);
            },
        }
        let ghost before = *self;
        let control = self.control.with_low(BitFlags::B28).with_low(BitFlags::HLB);
        proof {
            let bits = before.control().bits;
            assert(((bits & !0x2000u16) & !0x1000u16) == ((bits & !0x3000u16) | 0u16))
                by (bit_vector);
        }
        match self.write_control_if_different(control) {
            Ok(()) => {},
            Err(e) => {
                proof {
                    lemma_load_stopped(self.issued_since(before), before.control(), control);
                }
                return Err(e);
            },
        }
        let ghost between = *self;
        let reg = Self::get_freq_register_bits(register);
        let r = self.write(DataFormat::U16(reg | value));
        proof {
            lemma_load_completed(
                before.trace(),
                between.trace(),
                self.trace(),
                before.control(),
                control,
            );
        }
        r
    }

    /// Selects the frequency register that drives the output. The control
    /// word is sent whether or not that register was selected before.
    pub fn select_frequency(&mut self, register: FrequencyRegister) -> (r: Result<(), Error<E>>)
        ensures
            final(self).wrote_control(
                *old(self),
                old(self).control().selecting_frequency(register),
                r,
            ),
    {
        let control = match register {
            FrequencyRegister::F0 => self.control.with_low(BitFlags::FSELECT),
            FrequencyRegister::F1 => self.control.with_high(BitFlags::FSELECT),
        };
        self.write_control(control)
    }

    /// Sets a phase register to a 12-bit word.
    ///
    /// A `value` of two to the power of 12 or more is rejected before the
    /// transport is used. Otherwise the tagged word is sent as one frame; the
    /// control register plays no part.
    pub fn set_phase(&mut self, register: PhaseRegister, value: u16) -> (r: Result<(), Error<E>>)
        ensures
            (r matches Err(Error::InvalidArgument)) <==> value >= 0x1000,
            value >= 0x1000 ==> *final(self) == *old(self),
            value < 0x1000 ==> final(self).sent_frame(*old(self), phase_frame(register, value), r),
    {
        proof {
            lemma2_to64();
        }
        match Self::check_value_fits(value as u32, 12) {
            Ok(()) => {},
            Err(e) => {
                return Err(e);
            },
        }
        let tagged: u16 = value | BitFlags::D14 | BitFlags::D15;
        let word: u16 = match register {
            PhaseRegister::P0 => tagged,
            PhaseRegister::P1 => tagged | BitFlags::D13,
        };
        proof {
            assert((value | 0x4000u16 | 0x8000u16) == (0xC000u16 | value)) by (bit_vector);
            assert(((value | 0x4000u16 | 0x8000u16) | 0x2000u16) == (0xE000u16 | value))
                by (bit_vector);
        }
        self.write(DataFormat::U16(word))
    }

    /// Selects the phase register that drives the output. The control word
    /// is sent whether or not that register was selected before.
    pub fn select_phase(&mut self, register: PhaseRegister) -> (r: Result<(), Error<E>>)
        ensures
            final(self).wrote_control(*old(self), old(self).control().selecting_phase(register), r),
    {
        let control = match register {
            PhaseRegister::P0 => self.control.with_low(BitFlags::PSELECT),
            PhaseRegister::P1 => self.control.with_high(BitFlags::PSELECT),
        };
        self.write_control(control)
    }

    /// Powers parts of the device down or up again: exactly the parts named
    /// by `config` are down afterwards. The control word is sent whether or
    /// not it changes anything.
    pub fn set_powered_down(&mut self, config: PoweredDown) -> (r: Result<(), Error<E>>)
        ensures
            final(self).wrote_control(*old(self), old(self).control().powered_down(config), r),
    {
        let control = match config {
            PoweredDown::Nothing => self.control.with_low(BitFlags::SLEEP_MCLK).with_low(
                BitFlags::SLEEP_DAC,
            ),
            PoweredDown::Dac => self.control.with_low(BitFlags::SLEEP_MCLK).with_high(
                BitFlags::SLEEP_DAC,
            ),
            PoweredDown::InternalClock => self.control.with_high(BitFlags::SLEEP_MCLK).with_low(
                BitFlags::SLEEP_DAC,
            ),
            PoweredDown::DacAndInternalClock => self.control.with_high(
                BitFlags::SLEEP_MCLK,
            ).with_high(BitFlags::SLEEP_DAC),
        };
        proof {
            let bits = self.control.bits;
            assert(((bits & !0x0080u16) & !0x0040u16) == ((bits & !0x00C0u16) | 0u16))
                by (bit_vector);
            assert(((bits & !0x0080u16) | 0x0040u16) == ((bits & !0x00C0u16) | 0x0040u16))
                by (bit_vector);
            assert(((bits | 0x0080u16) & !0x0040u16) == ((bits & !0x00C0u16) | 0x0080u16))
                by (bit_vector);
            assert(((bits | 0x0080u16) | 0x0040u16) == ((bits & !0x00C0u16) | 0x00C0u16))
                by (bit_vector);
        }
        self.write_control(control)
    }

    /// Sends `payload` as one frame: its big-endian bytes in a single
    /// transfer between selecting and releasing the line.
    pub fn write(&mut self, payload: DataFormat) -> (r: Result<(), Error<E>>)
        ensures
            final(self).sent_frame(*old(self), Frame::Single(payload.bytes()), r),
    {
        let ghost before = self.trace();
        match self.iface.select() {
            Ok(()) => {},
            Err(e) => {
                assert(self.trace().skip(before.len() as int) =~= seq![self.trace().last()]);
                return Err(Error::CSPinError(e));
            },
        }
        let sent = match payload {
            DataFormat::U32(data) => {
                let d2s = long_word_bytes(data);
                self.iface.transfer(d2s.as_slice())
            },
            DataFormat::U16(data) => {
                let d2s = word_bytes(data);
                self.iface.transfer(d2s.as_slice())
            },
            DataFormat::U8(data) => {
                let d2s: [u8; 1] = [data];
                assert(d2s@ =~= seq![data]);
                self.iface.transfer(d2s.as_slice())
            },
        };
        let released = self.iface.deselect();
        proof {
            let after = self.trace();
            let n = before.len() as int;
            assert(after.skip(n) =~= seq![after[n], after[n + 1], after[n + 2]]);
        }
        match released {
            Ok(()) => {},
            Err(e) => {
                return Err(Error::CSPinError(e));
            },
        }
        match sent {
            Ok(()) => Ok(()),
            Err(e) => Err(Error::Spi(e)),
        }
    }

    /// Loads the 28-bit `payload` into the register tagged `reg`: the low
    /// half and then the high half, each as one tagged word, within a single
    /// frame. Bits of `payload` above the 28th are ignored.
    pub fn write_data(&mut self, reg: u16, payload: u32) -> (r: Result<(), Error<E>>)
        ensures
            final(self).sent_frame(*old(self), frequency_frame(reg, payload), r),
    {
        let ghost before = self.trace();
        let ghost n = before.len() as int;
        match self.iface.select() {
            Ok(()) => {},
            Err(e) => {
                assert(self.trace().skip(n) =~= seq![self.trace()[n]]);
                return Err(Error::CSPinError(e));
            },
        }
        assert((payload & 0x0FFF_C000) >> 14 == payload / 0x4000 % 0x4000) by (bit_vector);
        assert(payload & 0x0000_3FFF == payload % 0x4000) by (bit_vector);
        let mut msb: u16 = ((payload & 0x0FFF_C000) >> 14) as u16;
        msb = reg | msb;
        let mut lsb: u16 = (payload & 0x0000_3FFF) as u16;
        lsb = reg | lsb;
        let low = word_bytes(lsb);
        match self.iface.transfer(low.as_slice()) {
            Ok(()) => {},
            Err(e) => {
                assert(self.trace().skip(n) =~= seq![self.trace()[n], self.trace()[n + 1]]);
                return Err(Error::Spi(e));
            },
        }
        let high = word_bytes(msb);
        match self.iface.transfer(high.as_slice()) {
            Ok(()) => {},
            Err(e) => {
                assert(self.trace().skip(n) =~= seq![
                    self.trace()[n],
                    self.trace()[n + 1],
                    self.trace()[n + 2],
                ]);
                return Err(Error::Spi(e));
            },
        }
        let released = self.iface.deselect();
        assert(self.trace().skip(n) =~= seq![
            self.trace()[n],
            self.trace()[n + 1],
            self.trace()[n + 2],
            self.trace()[n + 3],
        ]);
        match released {
            Ok(()) => Ok(()),
            Err(e) => Err(Error::CSPinError(e)),
        }
    }
}

} // verus!
