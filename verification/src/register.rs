//! The 16-bit control register: named bit positions and an immutable
//! bitfield value from which every new register state is derived.

use vstd::prelude::*;
use crate::types::{FrequencyRegister, OutputWaveform, PhaseRegister, PoweredDown};

verus! {

/// Bit masks of the control register and of the register-address tags.
pub struct BitFlags;

impl BitFlags {
    /// Address tag bit 15.
    pub const D15: u16 = 0x8000;
    /// Address tag bit 14.
    pub const D14: u16 = 0x4000;
    /// Bit 13 of a data word (second phase register).
    pub const D13: u16 = 0x2000;
    /// 28-bit frequency-write mode.
    pub const B28: u16 = 0x2000;
    /// The next 14-bit frequency write targets the most significant half.
    pub const HLB: u16 = 0x1000;
    /// Active frequency register.
    pub const FSELECT: u16 = 0x0800;
    /// Active phase register.
    pub const PSELECT: u16 = 0x0400;
    /// Pin or software control source.
    pub const PIN_SW: u16 = 0x0200;
    /// Internal registers held in reset, output disabled.
    pub const RESET: u16 = 0x0100;
    /// Internal clock disabled.
    pub const SLEEP_MCLK: u16 = 0x0080;
    /// DAC powered down.
    pub const SLEEP_DAC: u16 = 0x0040;
    /// Digital (square wave) output path enabled.
    pub const OPBITEN: u16 = 0x0020;
    /// Sign bit output source.
    pub const SIGN_PIB: u16 = 0x0010;
    /// Square wave at the full rate rather than divided by two.
    pub const DIV2: u16 = 0x0008;
    /// Triangle rather than sine output.
    pub const MODE: u16 = 0x0002;
    /// The bits of a word that carry payload once the address tag is removed.
    pub const PAYLOAD: u16 = 0x3FFF;
}

/// A value of the control register.
///
/// A value is never changed in place: `with_high` and `with_low` give a new
/// one, so whether an operation changes the register is a plain comparison.
#[derive(Debug, Clone, Copy, PartialEq, Eq, Structural)]
pub struct Config {
    pub bits: u16,
}

impl Config {
    /// The value in which exactly the bits of `mask` are replaced by those of
    /// `value`; `value` lies within `mask`.
    pub open spec fn with_field(self, mask: u16, value: u16) -> Config {
        Config { bits: (self.bits & !mask) | value }
    }

    /// Whether every bit of `mask` is set.
    pub open spec fn has(self, mask: u16) -> bool {
        self.bits & mask == mask
    }

    pub open spec fn spec_with_high(self, mask: u16) -> Config {
        Config { bits: self.bits | mask }
    }

    pub open spec fn spec_with_low(self, mask: u16) -> Config {
        Config { bits: self.bits & !mask }
    }

    /// The value with the bits of `mask` set and all others kept.
    #[verifier::when_used_as_spec(spec_with_high)]
    pub fn with_high(self, mask: u16) -> (r: Self)
        ensures
            r == self.spec_with_high(mask),
            r == self.with_field(mask, mask),
    {
        let bits: u16 = self.bits;
        assert(bits | mask == (bits & !mask) | mask) by (bit_vector);
        Config { bits: bits | mask }
    }

    /// The value with the bits of `mask` cleared and all others kept.
    #[verifier::when_used_as_spec(spec_with_low)]
    pub fn with_low(self, mask: u16) -> (r: Self)
        ensures
            r == self.spec_with_low(mask),
            r == self.with_field(mask, 0),
    {
        let bits: u16 = self.bits;
        assert(bits & !mask == (bits & !mask) | 0) by (bit_vector);
        Config { bits: bits & !mask }
    }
}

/// The bit that selects the active frequency register, as it stands for
/// `register`.
pub open spec fn frequency_select_bits(register: FrequencyRegister) -> u16 {
    match register {
        FrequencyRegister::F0 => 0,
        FrequencyRegister::F1 => BitFlags::FSELECT,
    }
}

/// The bit that selects the active phase register, as it stands for
/// `register`.
pub open spec fn phase_select_bits(register: PhaseRegister) -> u16 {
    match register {
        PhaseRegister::P0 => 0,
        PhaseRegister::P1 => BitFlags::PSELECT,
    }
}

/// The two sleep bits as they stand for `mode`.
pub open spec fn powered_down_bits(mode: PoweredDown) -> u16 {
    match mode {
        PoweredDown::Nothing => 0,
        PoweredDown::Dac => BitFlags::SLEEP_DAC,
        PoweredDown::InternalClock => BitFlags::SLEEP_MCLK,
        PoweredDown::DacAndInternalClock => 0x00C0,
    }
}

/// The bits that choosing `waveform` decides. The divider bit belongs to the
/// square waves only: a sine or a triangle leaves it as it is.
pub open spec fn waveform_mask(waveform: OutputWaveform) -> u16 {
    match waveform {
        OutputWaveform::Sinusoidal | OutputWaveform::Triangle => 0x0022,
        OutputWaveform::SquareMsbOfDac | OutputWaveform::SquareMsbOfDacDiv2 => 0x002A,
    }
}

/// The bits of `waveform_mask` as they stand for `waveform`.
pub open spec fn waveform_bits(waveform: OutputWaveform) -> u16 {
    match waveform {
        OutputWaveform::Sinusoidal => 0,
        OutputWaveform::Triangle => BitFlags::MODE,
        OutputWaveform::SquareMsbOfDac => 0x0028,
        OutputWaveform::SquareMsbOfDacDiv2 => BitFlags::OPBITEN,
    }
}

impl Config {
    /// The value that a new handle starts from: the device held in reset and
    /// every other bit clear.
    pub open spec fn reset_asserted() -> Config {
        Config { bits: BitFlags::RESET }
    }

    /// This value with the device held in reset.
    pub open spec fn disabled(self) -> Config {
        self.with_field(BitFlags::RESET, BitFlags::RESET)
    }

    /// This value with the device released from reset.
    pub open spec fn enabled(self) -> Config {
        self.with_field(BitFlags::RESET, 0)
    }

    /// This value with `register` as the active frequency register.
    pub open spec fn selecting_frequency(self, register: FrequencyRegister) -> Config {
        self.with_field(BitFlags::FSELECT, frequency_select_bits(register))
    }

    /// This value with `register` as the active phase register.
    pub open spec fn selecting_phase(self, register: PhaseRegister) -> Config {
        self.with_field(BitFlags::PSELECT, phase_select_bits(register))
    }

    /// This value with exactly the parts named by `mode` powered down.
    pub open spec fn powered_down(self, mode: PoweredDown) -> Config {
        self.with_field(0x00C0, powered_down_bits(mode))
    }

    /// This value with the output shaped as `waveform`.
    pub open spec fn generating(self, waveform: OutputWaveform) -> Config {
        self.with_field(waveform_mask(waveform), waveform_bits(waveform))
    }

    /// This value in the mode in which a frequency is loaded as two
    /// consecutive words.
    pub open spec fn loading_both_halves(self) -> Config {
        self.with_field(BitFlags::B28, BitFlags::B28)
    }

    /// This value in the mode in which one word loads the high half of a
    /// frequency.
    pub open spec fn loading_high_half(self) -> Config {
        self.with_field(0x3000, BitFlags::HLB)
    }

    /// This value in the mode in which one word loads the low half of a
    /// frequency.
    pub open spec fn loading_low_half(self) -> Config {
        self.with_field(0x3000, 0)
    }
}

impl Default for Config {
    /// The all-zero register value.
    fn default() -> (r: Self)
        ensures
            r.bits == 0,
    {
        Config { bits: 0 }
    }
}

} // verus!
