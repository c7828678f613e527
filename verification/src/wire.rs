//! The wire format: big-endian words whose top two bits address a register
//! and whose low fourteen bits carry the payload.

use vstd::arithmetic::power2::pow2;
use vstd::prelude::*;
use crate::register::{BitFlags, Config};
use crate::types::{DataFormat, FrequencyRegister, PhaseRegister};

verus! {

/// Whether `value` fits a field of `bit_count` bits.
pub open spec fn fits(value: u32, bit_count: u32) -> bool {
    value < pow2(bit_count as nat)
}

/// The big-endian bytes of an 8-bit value.
pub open spec fn be_bytes_u8(x: u8) -> Seq<u8> {
    seq![x]
}

/// The big-endian bytes of a 16-bit value.
pub open spec fn be_bytes_u16(x: u16) -> Seq<u8> {
    seq![(x / 0x100) as u8, (x % 0x100) as u8]
}

/// The big-endian bytes of a 32-bit value.
pub open spec fn be_bytes_u32(x: u32) -> Seq<u8> {
    seq![
        (x / 0x100_0000) as u8,
        (x / 0x1_0000 % 0x100) as u8,
        (x / 0x100 % 0x100) as u8,
        (x % 0x100) as u8,
    ]
}

/// The number that a byte sequence denotes when read most significant byte
/// first.
pub open spec fn be_value(bytes: Seq<u8>) -> nat
    decreases bytes.len(),
{
    if bytes.len() == 0 {
        0
    } else {
        be_value(bytes.drop_last()) * 0x100 + bytes.last() as nat
    }
}

impl DataFormat {
    /// The bytes that go over the wire for this payload.
    pub open spec fn bytes(self) -> Seq<u8> {
        match self {
            DataFormat::U8(x) => be_bytes_u8(x),
            DataFormat::U16(x) => be_bytes_u16(x),
            DataFormat::U32(x) => be_bytes_u32(x),
        }
    }
}

/// The word that carries a control register value: the address tag `00` and
/// the low fourteen bits of the value.
pub open spec fn control_word(control: Config) -> u16 {
    control.bits & BitFlags::PAYLOAD
}

/// The address tag of a frequency register.
pub open spec fn frequency_tag(register: FrequencyRegister) -> u16 {
    match register {
        FrequencyRegister::F0 => BitFlags::D14,
        FrequencyRegister::F1 => BitFlags::D15,
    }
}

/// The low fourteen bits of a frequency value.
pub open spec fn low_half(value: u32) -> u16 {
    (value % 0x4000) as u16
}

/// Bits 14 to 27 of a frequency value.
pub open spec fn high_half(value: u32) -> u16 {
    (value / 0x4000 % 0x4000) as u16
}

/// The word that loads the low half of `value` into the register tagged
/// `tag`.
pub open spec fn frequency_low_word(tag: u16, value: u32) -> u16 {
    tag | low_half(value)
}

/// The word that loads the high half of `value` into the register tagged
/// `tag`.
pub open spec fn frequency_high_word(tag: u16, value: u32) -> u16 {
    tag | high_half(value)
}

/// The payload of a word: what is left once the address tag is removed.
pub open spec fn payload_of(word: u16) -> nat {
    (word % 0x4000) as nat
}

/// The value that the chip assembles from a low word followed by a high
/// word.
pub open spec fn frequency_of_words(low: u16, high: u16) -> nat {
    payload_of(high) * 0x4000 + payload_of(low)
}

/// The address tag of a phase register: `110` for the first, `111` for the
/// second, in the top three bits.
pub open spec fn phase_tag(register: PhaseRegister) -> u16 {
    match register {
        PhaseRegister::P0 => 0xC000,
        PhaseRegister::P1 => 0xE000,
    }
}

/// The word that loads a 12-bit `value` into a phase register.
pub open spec fn phase_word(register: PhaseRegister, value: u16) -> u16 {
    phase_tag(register) | value
}

/// The big-endian bytes of a 16-bit word.
pub fn word_bytes(word: u16) -> (r: [u8; 2])
    ensures
        r@ == be_bytes_u16(word),
{
    let high: u8 = (word >> 8) as u8;
    let low: u8 = (word & 0xFF) as u8;
    assert(word >> 8 == word / 0x100) by (bit_vector);
    assert(word & 0xFF == word % 0x100) by (bit_vector);
    let r: [u8; 2] = [high, low];
    assert(r@ =~= be_bytes_u16(word));
    r
}

/// The big-endian bytes of a 32-bit word.
pub fn long_word_bytes(word: u32) -> (r: [u8; 4])
    ensures
        r@ == be_bytes_u32(word),
{
    let b0: u8 = (word >> 24) as u8;
    let b1: u8 = ((word >> 16) & 0xFF) as u8;
    let b2: u8 = ((word >> 8) & 0xFF) as u8;
    let b3: u8 = (word & 0xFF) as u8;
    assert(word >> 24 == word / 0x100_0000) by (bit_vector);
    assert((word >> 16) & 0xFF == word / 0x1_0000 % 0x100) by (bit_vector);
    assert((word >> 8) & 0xFF == word / 0x100 % 0x100) by (bit_vector);
    assert(word & 0xFF == word % 0x100) by (bit_vector);
    let r: [u8; 4] = [b0, b1, b2, b3];
    assert(r@ =~= be_bytes_u32(word));
    r
}

} // verus!
