use ads1263::bus::{Level, Operation, Request, Response, Step};
use ads1263::command::Command;
use ads1263::driver::ADS1263;
use ads1263::frame::{Frame, InterfaceConfig};
use ads1263::ready::READY_RETRIES;
use ads1263::register::bitfield::BitField;
use ads1263::register::inpmux::{NegativeInpmux, PositiveInpmux};
use ads1263::register::interface::{ChecksumByte, StatusByte};
use ads1263::register::mode2::PGAGain;
use ads1263::register::register::Register;
use ads1263::{Checksum, Error};

#[derive(Debug, Clone, Copy, PartialEq, Eq)]
struct BusFault(u32);

#[derive(Debug, Clone, Copy, PartialEq, Eq)]
struct PinFault(u32);

type Failure = Error<BusFault, PinFault>;

/// A device on a bench: a register file behind a bus, a select line, a
/// data-ready line and a clock, each of which can be told to fail.
struct Bench {
    registers: [u8; 27],
    selected: bool,
    /// Every request, in order.
    log: Vec<Request>,
    /// The bytes of every transfer, in order.
    wire: Vec<Vec<u8>>,
    /// Opcodes of the commands received.
    commands: Vec<u8>,
    delays: Vec<u32>,
    /// The select line fails on its n-th use, counted from 1.
    select_fails_at: Option<usize>,
    selects: usize,
    /// The bus fails on its n-th transfer, counted from 1.
    bus_fails_at: Option<usize>,
    transfers: usize,
    /// The ready line fails on its n-th sample, counted from 1.
    ready_fails_at: Option<usize>,
    /// The ready line is active from this sample on, counted from 1.
    ready_at: Option<usize>,
    samples: usize,
    /// The conversion that the device holds.
    conversion: [u8; 4],
    /// The new-data flag is set from this conversion read on, counted from 1.
    fresh_at: Option<usize>,
    conversions: usize,
    /// What self-calibration leaves in the offset registers.
    measured: [u8; 3],
}

impl Bench {
    fn new() -> Bench {
        Bench {
            registers: [0; 27],
            selected: false,
            log: Vec::new(),
            wire: Vec::new(),
            commands: Vec::new(),
            delays: Vec::new(),
            select_fails_at: None,
            selects: 0,
            bus_fails_at: None,
            transfers: 0,
            ready_fails_at: None,
            ready_at: Some(1),
            samples: 0,
            conversion: [0; 4],
            fresh_at: Some(1),
            conversions: 0,
            measured: [0; 3],
        }
    }

    fn register(&self, register: Register) -> u8 {
        self.registers[register.address() as usize]
    }

    fn set_register(&mut self, register: Register, value: u8) {
        self.registers[register.address() as usize] = value;
    }

    fn exchange(&mut self, tx: &[u8]) -> Vec<u8> {
        assert!(self.selected, "bytes moved while the device was not selected");
        let head = tx[0];
        if head & 0xE0 == 0x20 {
            assert_eq!(tx.len(), 3);
            assert_eq!(tx[1], 0, "more than one register asked for");
            vec![0xFF, head, self.registers[(head & 0x1F) as usize]]
        } else if head & 0xE0 == 0x40 {
            assert_eq!(tx.len(), 3);
            assert_eq!(tx[1], 0, "more than one register written");
            self.registers[(head & 0x1F) as usize] = tx[2];
            vec![0xFF, head, 0]
        } else if head == 0x12 {
            self.conversions += 1;
            let interface = self.register(Register::INTERFACE);
            let mut rx = vec![0xFF];
            if interface & 0b100 != 0 {
                let fresh = self.fresh_at.map_or(false, |at| self.conversions >= at);
                rx.push(if fresh { 0b0100_0000 } else { 0 });
            }
            rx.extend_from_slice(&self.conversion);
            match interface & 0b11 {
                0 => {}
                1 => rx.push(
                    self.conversion.iter().fold(0x9Bu8, |sum, byte| sum.wrapping_add(*byte)),
                ),
                _ => rx.push(0xA5),
            }
            assert_eq!(tx.len(), rx.len(), "the transfer is not as long as the frame");
            assert!(tx[1..].iter().all(|byte| *byte == 0));
            rx
        } else {
            assert_eq!(tx.len(), 1);
            self.commands.push(head);
            if head == 0x19 {
                self.registers[7..10].copy_from_slice(&self.measured);
            }
            vec![0xFF]
        }
    }

    fn perform(&mut self, request: &Request) -> Response<BusFault, PinFault> {
        self.log.push(*request);
        match request {
            Request::Select(level) => {
                self.selects += 1;
                if self.select_fails_at == Some(self.selects) {
                    Response::Selected(Err(PinFault(self.selects as u32)))
                } else {
                    self.selected = *level == Level::Low;
                    Response::Selected(Ok(()))
                }
            }
            Request::Transfer(frame) => {
                self.transfers += 1;
                let tx = frame.bytes();
                self.wire.push(tx.clone());
                if self.bus_fails_at == Some(self.transfers) {
                    Response::Transferred(Err(BusFault(self.transfers as u32)))
                } else {
                    Response::Transferred(Ok(self.exchange(&tx)))
                }
            }
            Request::PollReady => {
                self.samples += 1;
                if self.ready_fails_at == Some(self.samples) {
                    Response::Sampled(Err(PinFault(self.samples as u32)))
                } else {
                    Response::Sampled(Ok(self.ready_at.map_or(false, |at| self.samples >= at)))
                }
            }
            Request::Delay(ms) => {
                self.delays.push(*ms);
                Response::Delayed
            }
        }
    }

    /// Carries an operation through, as the owner of the hardware does.
    fn run<M: Operation<BusFault, PinFault>>(
        &mut self,
        mut step: Step<M, M::Output, BusFault, PinFault>,
    ) -> Result<M::Output, Failure> {
        loop {
            match step {
                Step::Finished(result) => return result,
                Step::Pending(operation, request) => {
                    let response = self.perform(&request);
                    assert!(response.is_answer_to(&request));
                    step = operation.resume(response);
                }
            }
        }
    }
}

fn framed(frame: Frame) -> Vec<Request> {
    vec![Request::Select(Level::Low), Request::Transfer(frame), Request::Select(Level::High)]
}

fn driver() -> ADS1263 {
    ADS1263::new(true)
}

#[test]
fn send_command_is_one_framed_byte() {
    let mut bench = Bench::new();
    assert_eq!(bench.run(driver().send_command(Command::START1)), Ok(()));
    assert_eq!(bench.log, framed(Frame::Command(Command::START1)));
    assert_eq!(bench.wire, vec![vec![0x08]]);
    assert_eq!(bench.commands, vec![0x08]);
    assert!(!bench.selected);
}

#[test]
fn read_register_returns_the_third_byte() {
    let mut bench = Bench::new();
    bench.set_register(Register::MODE2, 0x5C);
    assert_eq!(bench.run(driver().read_register(Register::MODE2)), Ok(0x5C));
    assert_eq!(bench.log, framed(Frame::ReadRegister(Register::MODE2)));
    assert_eq!(bench.wire, vec![vec![0x25, 0, 0]]);
    assert!(!bench.selected);
}

#[test]
fn write_register_sends_the_value_last() {
    let mut bench = Bench::new();
    assert_eq!(bench.run(driver().write_register(Register::REFMUX, 0x24)), Ok(()));
    assert_eq!(bench.log, framed(Frame::WriteRegister(Register::REFMUX, 0x24)));
    assert_eq!(bench.wire, vec![vec![0x4F, 0, 0x24]]);
    assert_eq!(bench.register(Register::REFMUX), 0x24);
    assert!(!bench.selected);
}

#[test]
fn select_failure_before_the_transfer_moves_no_byte() {
    let mut bench = Bench::new();
    bench.select_fails_at = Some(1);
    bench.set_register(Register::ID, 0x23);
    assert_eq!(
        bench.run(driver().read_register(Register::ID)),
        Err(Error::PinError(PinFault(1)))
    );
    assert_eq!(bench.log, vec![Request::Select(Level::Low)]);
    assert!(bench.wire.is_empty());
}

#[test]
fn select_failure_mid_read_gives_no_value() {
    let mut bench = Bench::new();
    bench.select_fails_at = Some(2);
    bench.set_register(Register::ID, 0x23);
    assert_eq!(
        bench.run(driver().read_register(Register::ID)),
        Err(Error::PinError(PinFault(2)))
    );
    assert_eq!(bench.log, framed(Frame::ReadRegister(Register::ID)));
}

#[test]
fn bus_failure_still_releases_the_device() {
    let mut bench = Bench::new();
    bench.bus_fails_at = Some(1);
    assert_eq!(
        bench.run(driver().read_register(Register::ID)),
        Err(Error::SpiError(BusFault(1)))
    );
    assert_eq!(bench.log, framed(Frame::ReadRegister(Register::ID)));
    assert!(!bench.selected);

    let mut bench = Bench::new();
    bench.bus_fails_at = Some(1);
    assert_eq!(
        bench.run(driver().write_register(Register::MODE0, 1)),
        Err(Error::SpiError(BusFault(1)))
    );
    assert_eq!(bench.log.last(), Some(&Request::Select(Level::High)));
    assert!(!bench.selected);

    let mut bench = Bench::new();
    bench.bus_fails_at = Some(1);
    assert_eq!(
        bench.run(driver().send_command(Command::RESET)),
        Err(Error::SpiError(BusFault(1)))
    );
    assert_eq!(bench.log.last(), Some(&Request::Select(Level::High)));
    assert!(!bench.selected);
}

#[test]
fn bus_failure_is_reported_even_if_the_release_fails_too() {
    let mut bench = Bench::new();
    bench.bus_fails_at = Some(1);
    bench.select_fails_at = Some(2);
    assert_eq!(
        bench.run(driver().read_register(Register::ID)),
        Err(Error::SpiError(BusFault(1)))
    );
    assert_eq!(bench.log, framed(Frame::ReadRegister(Register::ID)));
}

#[test]
fn write_bitfield_changes_only_its_field() {
    let mut bench = Bench::new();
    bench.set_register(Register::MODE2, 0b1010_1010);
    assert_eq!(bench.run(driver().write_bitfield(PGAGain::GAIN_32)), Ok(()));
    assert_eq!(bench.register(Register::MODE2), 0b1101_1010);
    let mut expected = framed(Frame::ReadRegister(Register::MODE2));
    expected.extend(framed(Frame::WriteRegister(Register::MODE2, 0b1101_1010)));
    assert_eq!(bench.log, expected);
    assert_eq!(bench.wire, vec![vec![0x25, 0, 0], vec![0x45, 0, 0b1101_1010]]);
}

#[test]
fn write_bitfield_keeps_other_bits_for_every_register_value() {
    for current in 0..=255u8 {
        let mut bench = Bench::new();
        bench.set_register(Register::INTERFACE, current);
        assert_eq!(bench.run(driver().write_bitfield(ChecksumByte::CRC)), Ok(()));
        let after = bench.register(Register::INTERFACE);
        assert_eq!(after & 0b1111_1100, current & 0b1111_1100);
        assert_eq!(after & 0b0000_0011, 0b10);
    }
}

#[test]
fn write_bitfield_writes_nothing_when_the_read_fails() {
    let mut bench = Bench::new();
    bench.set_register(Register::MODE2, 0x0F);
    bench.bus_fails_at = Some(1);
    assert_eq!(
        bench.run(driver().write_bitfield(PGAGain::GAIN_2)),
        Err(Error::SpiError(BusFault(1)))
    );
    assert_eq!(bench.transfers, 1);
    assert_eq!(bench.register(Register::MODE2), 0x0F);

    let mut bench = Bench::new();
    bench.select_fails_at = Some(2);
    assert_eq!(
        bench.run(driver().write_bitfield(PGAGain::GAIN_2)),
        Err(Error::PinError(PinFault(2)))
    );
    assert_eq!(bench.transfers, 1);
}

#[test]
fn plain_conversion_read_transfers_five_bytes() {
    let mut bench = Bench::new();
    bench.set_register(Register::INTERFACE, 0b0000);
    bench.conversion = [0x12, 0x34, 0x56, 0x78];
    assert_eq!(bench.run(driver().read_data1()), Ok((None, 0x12345678, None)));
    assert_eq!(bench.wire, vec![vec![0x22, 0, 0], vec![0x12, 0, 0, 0, 0]]);
    let config = InterfaceConfig::from_register(0);
    let mut expected = framed(Frame::ReadRegister(Register::INTERFACE));
    expected.extend(framed(Frame::ReadData(config)));
    assert_eq!(bench.log, expected);
}

#[test]
fn conversion_read_with_status_and_checksum_transfers_seven_bytes() {
    let mut bench = Bench::new();
    bench.set_register(Register::INTERFACE, 0b0101);
    bench.conversion = [0x00, 0x00, 0x01, 0x02];
    assert_eq!(
        bench.run(driver().read_data1()),
        Ok((Some(0b0100_0000), 0x0102, Some(Checksum::Checksum(0x9E))))
    );
    assert_eq!(bench.wire[1], vec![0x12, 0, 0, 0, 0, 0, 0]);
}

#[test]
fn conversion_read_in_crc_mode_tags_a_crc() {
    let mut bench = Bench::new();
    bench.set_register(Register::INTERFACE, 0b0010);
    bench.conversion = [0xDE, 0xAD, 0xBE, 0xEF];
    assert_eq!(
        bench.run(driver().read_data1()),
        Ok((None, 0xDEADBEEF, Some(Checksum::CRC(0xA5))))
    );
    assert_eq!(bench.wire[1].len(), 6);
}

#[test]
fn conversion_read_follows_a_changed_configuration() {
    let mut bench = Bench::new();
    bench.conversion = [0, 0, 0, 7];
    bench.set_register(Register::INTERFACE, 0b0000);
    assert_eq!(bench.run(driver().read_data1()), Ok((None, 7, None)));
    bench.set_register(Register::INTERFACE, 0b0100);
    assert_eq!(bench.run(driver().read_data1()), Ok((Some(0b0100_0000), 7, None)));
    assert_eq!(bench.wire[1].len(), 5);
    assert_eq!(bench.wire[3].len(), 6);
}

#[test]
fn reserved_checksum_mode_is_an_invalid_response() {
    for interface in [0b0011u8, 0b0111] {
        let mut bench = Bench::new();
        bench.set_register(Register::INTERFACE, interface);
        bench.conversion = [1, 2, 3, 4];
        assert_eq!(bench.run(driver().read_data1()), Err(Error::InvalidResponseFromDevice));
        assert!(!bench.selected);
    }
}

#[test]
fn conversion_read_stops_at_the_first_failure() {
    let mut bench = Bench::new();
    bench.bus_fails_at = Some(1);
    assert_eq!(bench.run(driver().read_data1()), Err(Error::SpiError(BusFault(1))));
    assert_eq!(bench.transfers, 1);

    let mut bench = Bench::new();
    bench.bus_fails_at = Some(2);
    assert_eq!(bench.run(driver().read_data1()), Err(Error::SpiError(BusFault(2))));
    assert_eq!(bench.log.last(), Some(&Request::Select(Level::High)));

    let mut bench = Bench::new();
    bench.select_fails_at = Some(4);
    bench.conversion = [9, 9, 9, 9];
    assert_eq!(bench.run(driver().read_data1()), Err(Error::PinError(PinFault(4))));
}

#[test]
fn wait_succeeds_on_the_first_active_sample() {
    let mut bench = Bench::new();
    bench.ready_at = Some(1);
    assert_eq!(bench.run(driver().wait_for_pin_data_ready()), Ok(()));
    assert_eq!(bench.samples, 1);

    let mut bench = Bench::new();
    bench.ready_at = Some(17);
    assert_eq!(bench.run(driver().wait_for_pin_data_ready()), Ok(()));
    assert_eq!(bench.samples, 17);
    assert!(bench.log.iter().all(|request| *request == Request::PollReady));
}

#[test]
fn wait_succeeds_on_the_last_retry() {
    let mut bench = Bench::new();
    bench.ready_at = Some(40001);
    assert_eq!(bench.run(driver().wait_for_pin_data_ready()), Ok(()));
    assert_eq!(bench.samples, 40001);
}

#[test]
fn wait_times_out_exactly_when_the_retries_are_used() {
    assert_eq!(READY_RETRIES, 40000);
    let mut bench = Bench::new();
    bench.ready_at = None;
    assert_eq!(bench.run(driver().wait_for_pin_data_ready()), Err(Error::DataReadyTimeoutError));
    assert_eq!(bench.samples, 40001);

    let mut bench = Bench::new();
    bench.ready_at = Some(40002);
    assert_eq!(bench.run(driver().wait_for_pin_data_ready()), Err(Error::DataReadyTimeoutError));
    assert_eq!(bench.samples, 40001);
}

#[test]
fn wait_reports_a_failing_ready_line() {
    let mut bench = Bench::new();
    bench.ready_at = None;
    bench.ready_fails_at = Some(3);
    assert_eq!(
        bench.run(driver().wait_for_pin_data_ready()),
        Err(Error::PinError(PinFault(3)))
    );
    assert_eq!(bench.samples, 3);
}

#[test]
fn wait_without_a_ready_line_is_a_configuration_error() {
    let mut bench = Bench::new();
    let unwired = ADS1263::new(false);
    assert!(!unwired.has_ready_line());
    assert!(driver().has_ready_line());
    assert_eq!(bench.run(unwired.wait_for_pin_data_ready()), Err(Error::DRDYPinNotConfigured));
    assert!(bench.log.is_empty());
}

#[test]
fn read_adc1_with_a_ready_line() {
    let mut bench = Bench::new();
    bench.set_register(Register::INPMUX, 0x01);
    bench.set_register(Register::INTERFACE, 0b0000);
    bench.conversion = [0x12, 0x34, 0x56, 0x78];
    bench.ready_at = Some(3);
    assert_eq!(
        bench.run(driver().read_adc1(PositiveInpmux::AIN2, NegativeInpmux::AINCOM)),
        Ok(0x12345678)
    );
    assert_eq!(bench.register(Register::INPMUX), 0x2A);
    assert_eq!(bench.register(Register::INTERFACE), 0b0000);
    assert_eq!(bench.samples, 3);
    assert_eq!(
        bench.wire,
        vec![
            vec![0x26, 0, 0],
            vec![0x46, 0, 0x21],
            vec![0x26, 0, 0],
            vec![0x46, 0, 0x2A],
            vec![0x22, 0, 0],
            vec![0x12, 0, 0, 0, 0],
        ]
    );
    let mut expected = Vec::new();
    expected.extend(framed(Frame::ReadRegister(Register::INPMUX)));
    expected.extend(framed(Frame::WriteRegister(Register::INPMUX, 0x21)));
    expected.extend(framed(Frame::ReadRegister(Register::INPMUX)));
    expected.extend(framed(Frame::WriteRegister(Register::INPMUX, 0x2A)));
    expected.extend([Request::PollReady; 3]);
    expected.extend(framed(Frame::ReadRegister(Register::INTERFACE)));
    expected.extend(framed(Frame::ReadData(InterfaceConfig::from_register(0))));
    assert_eq!(bench.log, expected);
}

#[test]
fn read_adc1_with_a_ready_line_times_out() {
    let mut bench = Bench::new();
    bench.ready_at = None;
    assert_eq!(
        bench.run(driver().read_adc1(PositiveInpmux::AIN0, NegativeInpmux::AIN1)),
        Err(Error::DataReadyTimeoutError)
    );
    assert_eq!(bench.samples, 40001);
    assert_eq!(bench.conversions, 0);
}

#[test]
fn read_adc1_without_a_ready_line_polls_the_status_byte() {
    let mut bench = Bench::new();
    bench.set_register(Register::INTERFACE, 0b0001);
    bench.conversion = [0, 0, 0xAB, 0xCD];
    bench.fresh_at = Some(4);
    let unwired = ADS1263::new(false);
    assert_eq!(
        bench.run(unwired.read_adc1(PositiveInpmux::AIN6, NegativeInpmux::AIN7)),
        Ok(0xABCD)
    );
    assert_eq!(bench.register(Register::INPMUX), 0x67);
    assert_eq!(bench.register(Register::INTERFACE), 0b0101);
    assert_eq!(bench.conversions, 4);
    assert_eq!(bench.samples, 0);
    assert_eq!(bench.wire[4], vec![0x22, 0, 0]);
    assert_eq!(bench.wire[5], vec![0x42, 0, 0b0101]);
    assert_eq!(bench.wire[7], vec![0x12, 0, 0, 0, 0, 0, 0]);
}

/// The status-byte wait is bounded by the same retry ceiling as the wait on
/// the data-ready line: a device that never flags new data ends the read
/// with a timeout.
#[test]
fn read_adc1_without_a_ready_line_gives_up_after_the_retries() {
    let mut bench = Bench::new();
    bench.fresh_at = None;
    let unwired = ADS1263::new(false);
    assert_eq!(
        bench.run(unwired.read_adc1(PositiveInpmux::AIN0, NegativeInpmux::AIN1)),
        Err(Error::DataReadyTimeoutError)
    );
    assert_eq!(bench.conversions, 40001);

    let mut bench = Bench::new();
    bench.fresh_at = Some(40001);
    bench.conversion = [0, 0, 0, 5];
    assert_eq!(
        bench.run(unwired.read_adc1(PositiveInpmux::AIN0, NegativeInpmux::AIN1)),
        Ok(5)
    );
    assert_eq!(bench.conversions, 40001);
}

#[test]
fn read_adc1_stops_at_the_first_failure() {
    for (fails_at, transfers) in [(1, 1), (2, 2), (3, 3), (4, 4), (5, 5), (6, 6)] {
        let mut bench = Bench::new();
        bench.bus_fails_at = Some(fails_at);
        assert_eq!(
            bench.run(driver().read_adc1(PositiveInpmux::AIN0, NegativeInpmux::AIN1)),
            Err(Error::SpiError(BusFault(fails_at as u32)))
        );
        assert_eq!(bench.transfers, transfers);
        assert!(!bench.selected);
    }
    let mut bench = Bench::new();
    bench.set_register(Register::INTERFACE, 0b0011);
    assert_eq!(
        bench.run(driver().read_adc1(PositiveInpmux::AIN0, NegativeInpmux::AIN1)),
        Err(Error::InvalidResponseFromDevice)
    );
}

#[test]
fn self_calibration_floats_the_inputs_and_reads_the_offset() {
    let mut bench = Bench::new();
    bench.set_register(Register::INPMUX, 0x01);
    bench.measured = [0x11, 0x22, 0x33];
    assert_eq!(bench.run(driver().calibrate_self_offset1()), Ok([0x11, 0x22, 0x33]));
    assert_eq!(bench.register(Register::INPMUX), 0xFF);
    assert_eq!(bench.commands, vec![0x19]);
    assert_eq!(bench.delays, vec![10, 50]);
    let mut expected = Vec::new();
    expected.extend(framed(Frame::ReadRegister(Register::INPMUX)));
    expected.extend(framed(Frame::WriteRegister(Register::INPMUX, 0xF1)));
    expected.extend(framed(Frame::ReadRegister(Register::INPMUX)));
    expected.extend(framed(Frame::WriteRegister(Register::INPMUX, 0xFF)));
    expected.push(Request::Delay(10));
    expected.extend(framed(Frame::Command(Command::SFOCAL1)));
    expected.push(Request::Delay(50));
    expected.extend(framed(Frame::ReadRegister(Register::OFCAL0)));
    expected.extend(framed(Frame::ReadRegister(Register::OFCAL1)));
    expected.extend(framed(Frame::ReadRegister(Register::OFCAL2)));
    assert_eq!(bench.log, expected);
}

#[test]
fn self_calibration_stops_at_the_first_failure() {
    let mut bench = Bench::new();
    bench.bus_fails_at = Some(5);
    assert_eq!(
        bench.run(driver().calibrate_self_offset1()),
        Err(Error::SpiError(BusFault(5)))
    );
    assert_eq!(bench.delays, vec![10]);
    assert!(bench.commands.is_empty());

    let mut bench = Bench::new();
    bench.select_fails_at = Some(13);
    assert_eq!(
        bench.run(driver().calibrate_self_offset1()),
        Err(Error::PinError(PinFault(13)))
    );
    assert_eq!(bench.delays, vec![10, 50]);
    assert_eq!(bench.transfers, 6);
}

#[test]
fn restored_offset_reads_back_unchanged() {
    for ofcal in [[0x00, 0x00, 0x00], [0x12, 0x34, 0x56], [0xFF, 0xFF, 0xFF], [0x80, 0x01, 0x7F]] {
        let mut bench = Bench::new();
        bench.registers = [0xEE; 27];
        assert_eq!(bench.run(driver().load_calibration_offset1(ofcal)), Ok(()));
        assert_eq!(bench.run(driver().read_register(Register::OFCAL0)), Ok(ofcal[0]));
        assert_eq!(bench.run(driver().read_register(Register::OFCAL1)), Ok(ofcal[1]));
        assert_eq!(bench.run(driver().read_register(Register::OFCAL2)), Ok(ofcal[2]));
        assert_eq!(bench.register(Register::INPMUX), 0xEE);
        assert_eq!(bench.register(Register::FSCAL0), 0xEE);
        assert_eq!(
            bench.wire[..3],
            [vec![0x47, 0, ofcal[0]], vec![0x48, 0, ofcal[1]], vec![0x49, 0, ofcal[2]]]
        );
    }
}

#[test]
fn calibrated_offset_survives_a_restore() {
    let mut bench = Bench::new();
    bench.measured = [0xA1, 0xB2, 0xC3];
    let captured = bench.run(driver().calibrate_self_offset1()).unwrap();
    let mut other = Bench::new();
    assert_eq!(other.run(driver().load_calibration_offset1(captured)), Ok(()));
    assert_eq!(other.registers[7..10], [0xA1, 0xB2, 0xC3]);
}

#[test]
fn restore_stops_at_the_first_failure() {
    let mut bench = Bench::new();
    bench.bus_fails_at = Some(2);
    assert_eq!(
        bench.run(driver().load_calibration_offset1([1, 2, 3])),
        Err(Error::SpiError(BusFault(2)))
    );
    assert_eq!(bench.registers[7..10], [1, 0, 0]);
    assert!(!bench.selected);
}

#[test]
fn an_answer_is_matched_against_its_request() {
    let selected: Response<BusFault, PinFault> = Response::Selected(Ok(()));
    let short: Response<BusFault, PinFault> = Response::Transferred(Ok(vec![0, 0]));
    let whole: Response<BusFault, PinFault> = Response::Transferred(Ok(vec![0, 0, 0]));
    let failed: Response<BusFault, PinFault> = Response::Transferred(Err(BusFault(0)));
    let sampled: Response<BusFault, PinFault> = Response::Sampled(Ok(true));
    let delayed: Response<BusFault, PinFault> = Response::Delayed;
    let transfer = Request::Transfer(Frame::ReadRegister(Register::ID));
    assert!(selected.is_answer_to(&Request::Select(Level::Low)));
    assert!(selected.is_answer_to(&Request::Select(Level::High)));
    assert!(!selected.is_answer_to(&transfer));
    assert!(!short.is_answer_to(&transfer));
    assert!(whole.is_answer_to(&transfer));
    assert!(failed.is_answer_to(&transfer));
    assert!(!whole.is_answer_to(&Request::PollReady));
    assert!(sampled.is_answer_to(&Request::PollReady));
    assert!(!sampled.is_answer_to(&Request::Delay(10)));
    assert!(delayed.is_answer_to(&Request::Delay(10)));
    assert!(!delayed.is_answer_to(&Request::Select(Level::Low)));
}

#[test]
fn status_byte_field_is_what_the_fallback_sets() {
    assert_eq!(StatusByte::ENABLED.register(), Register::INTERFACE);
    assert_eq!(StatusByte::ENABLED.merge_into(0b0000_0010), 0b0000_0110);
}
