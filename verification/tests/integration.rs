use ad983x::marker::Ad9833Ad9837;
use ad983x::{Ad983x, Error, FrequencyRegister as FreqReg, PhaseRegister, SelectLine, SerialBus};
use embedded_hal::digital::OutputPin;
use embedded_hal::spi::{ErrorKind, SpiBus};
use embedded_hal_mock::eh1::digital::{Mock as PinMock, State as PinState, Transaction as PinTrans};
use embedded_hal_mock::eh1::spi::{Mock as SpiMock, Transaction as SpiTrans};
use embedded_hal_mock::eh1::MockError;

pub struct BF;
impl BF {
    pub const B28: u8 = 1 << 5;
    pub const FSELECT: u8 = 1 << 3;
    pub const RESET: u8 = 1;
    pub const FREQ0: u8 = 1 << 6;
    pub const FREQ1: u8 = 1 << 7;
}

/// The mocked bus, which checks every transfer against its expectations.
pub struct Bus(SpiMock<u8>);

impl SerialBus for Bus {
    type Error = ErrorKind;

    fn transfer(&mut self, bytes: &[u8]) -> Result<(), ErrorKind> {
        self.0.write(bytes)
    }
}

/// A select line that never fails and tells whether it is asserted.
pub struct Line {
    asserted: bool,
}

impl SelectLine for Line {
    type Error = ErrorKind;

    fn select(&mut self) -> Result<(), ErrorKind> {
        assert!(!self.asserted);
        self.asserted = true;
        Ok(())
    }

    fn deselect(&mut self) -> Result<(), ErrorKind> {
        assert!(self.asserted);
        self.asserted = false;
        Ok(())
    }
}

type Device = Ad983x<Bus, Line, Ad9833Ad9837>;

fn new_ad9833(transactions: &[SpiTrans<u8>]) -> Device {
    Ad983x::new_ad9833(Bus(SpiMock::new(transactions)), Line { asserted: false })
}

fn destroy(device: Device) {
    let (mut bus, line) = device.destroy();
    assert!(!line.asserted);
    bus.0.done()
}

#[test]
fn can_create_and_destroy() {
    let dev = new_ad9833(&[]);
    destroy(dev);
}

#[test]
fn can_enable() {
    let transitions = [SpiTrans::write_vec(vec![0, 0])];
    let mut dev = new_ad9833(&transitions);
    dev.enable().unwrap();
    destroy(dev);
}

#[test]
fn can_disable() {
    let transitions = [SpiTrans::write_vec(vec![BF::RESET, 0])];
    let mut dev = new_ad9833(&transitions);
    dev.disable().unwrap();
    destroy(dev);
}

#[test]
fn can_reset() {
    let transitions = [SpiTrans::write_vec(vec![BF::RESET, 0])];
    let mut dev = new_ad9833(&transitions);
    dev.reset().unwrap();
    destroy(dev);
}

#[test]
fn cannot_set_too_fast_frequency() {
    let mut dev = new_ad9833(&[]);
    dev.set_frequency(FreqReg::F0, 1 << 28)
        .expect_err("Should return error");
    destroy(dev);
}

#[test]
fn can_set_freq0() {
    let transitions = [
        SpiTrans::write_vec(vec![BF::B28 | BF::RESET, 0]),
        SpiTrans::write_vec(vec![BF::FREQ0 | 0xD, 0xEF]),
        SpiTrans::write_vec(vec![BF::FREQ0 | 0x26, 0xAF]),
    ];
    let mut dev = new_ad9833(&transitions);
    dev.set_frequency(FreqReg::F0, 0x9AB_CDEF).unwrap();
    destroy(dev);
}

#[test]
fn can_set_freq1() {
    let transitions = [
        SpiTrans::write_vec(vec![BF::B28 | BF::RESET, 0]),
        SpiTrans::write_vec(vec![BF::FREQ1 | 0xD, 0xEF]),
        SpiTrans::write_vec(vec![BF::FREQ1 | 0x26, 0xAF]),
    ];
    let mut dev = new_ad9833(&transitions);
    dev.set_frequency(FreqReg::F1, 0x9AB_CDEF).unwrap();
    destroy(dev);
}

#[test]
fn can_select_freq0() {
    let transitions = [SpiTrans::write_vec(vec![BF::RESET, 0])];
    let mut dev = new_ad9833(&transitions);
    dev.select_frequency(FreqReg::F0).unwrap();
    destroy(dev);
}

#[test]
fn can_select_freq1() {
    let transitions = [SpiTrans::write_vec(vec![BF::FSELECT | BF::RESET, 0])];
    let mut dev = new_ad9833(&transitions);
    dev.select_frequency(FreqReg::F1).unwrap();
    destroy(dev);
}

/// The mocked pin as the select line, which is asserted by driving it low.
pub struct Pin(PinMock);

impl SelectLine for Pin {
    type Error = ErrorKind;

    fn select(&mut self) -> Result<(), ErrorKind> {
        self.0.set_low().map_err(|_| ErrorKind::ChipSelectFault)
    }

    fn deselect(&mut self) -> Result<(), ErrorKind> {
        self.0.set_high().map_err(|_| ErrorKind::ChipSelectFault)
    }
}

fn finish(device: Ad983x<Bus, Pin, Ad9833Ad9837>) {
    let (mut bus, mut pin) = device.destroy();
    bus.0.done();
    pin.0.done();
}

#[test]
fn every_write_is_framed_by_the_select_pin() {
    let spi = [
        SpiTrans::write_vec(vec![BF::B28 | BF::RESET, 0]),
        SpiTrans::write_vec(vec![BF::FREQ0 | 0xD, 0xEF]),
        SpiTrans::write_vec(vec![BF::FREQ0 | 0x26, 0xAF]),
        SpiTrans::write_vec(vec![0xE0 | 0x0F, 0xFF]),
    ];
    let pin = [
        PinTrans::set(PinState::Low),
        PinTrans::set(PinState::High),
        PinTrans::set(PinState::Low),
        PinTrans::set(PinState::High),
        PinTrans::set(PinState::Low),
        PinTrans::set(PinState::High),
    ];
    let mut dev = Ad983x::new_ad9833(Bus(SpiMock::new(&spi)), Pin(PinMock::new(&pin)));
    dev.set_frequency(FreqReg::F0, 0x9AB_CDEF).unwrap();
    dev.set_phase(PhaseRegister::P1, 0xFFF).unwrap();
    finish(dev);
}

#[test]
fn a_select_pin_fault_stops_the_write() {
    let fault = MockError::Io(std::io::ErrorKind::NotConnected);
    let pin = [PinTrans::set(PinState::Low).with_error(fault)];
    let mut dev = Ad983x::new_ad9833(Bus(SpiMock::new(&[])), Pin(PinMock::new(&pin)));
    let r = dev.enable();
    assert!(matches!(r, Err(Error::CSPinError(ErrorKind::ChipSelectFault))));
    finish(dev);
}

#[test]
fn a_rejected_phase_leaves_the_transport_alone() {
    let mut dev = Ad983x::new_ad9833(Bus(SpiMock::new(&[])), Pin(PinMock::new(&[])));
    let r = dev.set_phase(PhaseRegister::P1, 0x1000);
    assert!(matches!(r, Err(Error::InvalidArgument)));
    finish(dev);
}
