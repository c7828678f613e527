//! A driver for the AD9833 and AD9837 low-power programmable waveform
//! generators (direct digital synthesizers), which are written to over a
//! serial bus framed by a chip-select line.
//!
//! Every operation of a handle computes the control register value that it
//! wants and then writes it, or a data word, as big-endian 16-bit words. The
//! contracts state which requests reach the transport, in which order, and
//! what the handle holds afterwards, whatever the transport answers.

pub mod ad9833_ad9837;
pub mod device;
pub mod interface;
pub mod laws;
pub mod marker;
pub mod protocol;
pub mod register;
pub mod types;
pub mod wire;

pub use crate::device::Ad983x;
pub use crate::interface::{SelectLine, SerialBus, SpiInterface};
pub use crate::register::{BitFlags, Config};
pub use crate::types::{
    DataFormat, Error, FrequencyRegister, OutputWaveform, PhaseRegister, PoweredDown,
};
