//! Offset self-calibration, and putting a captured offset back.

use vstd::prelude::*;
use crate::access::WriteBitfield;
use crate::bus::{
    Level, Operation, Request, Response, Step, after_answer, after_transfer, transfers,
};
use crate::device::{device_sends, registers_after};
use crate::frame::Frame;
use crate::transfer::read_start;
use crate::command::Command;
use crate::ready::with_field;
use crate::register::inpmux::{NegativeInpmux, PositiveInpmux};
use crate::register::register::Register;
use crate::transfer::{RegisterRead, RegisterWrite, SendCommand};

verus! {

/// How long the floated inputs are left to settle, in milliseconds.
pub const SETTLE_MS: u32 = 10;

/// How long the device is given to finish calibrating, in milliseconds.
pub const CALIBRATE_MS: u32 = 50;

/// An offset self-calibration in progress.
#[derive(Debug, PartialEq, Eq)]
pub enum CalibrateSelfOffset1<S> {
    /// The positive input is being floated.
    Positive(WriteBitfield<PositiveInpmux, S>),
    /// The negative input is being floated.
    Negative(WriteBitfield<NegativeInpmux, S>),
    /// The inputs are settling.
    Settling,
    /// The calibration command is being sent.
    Commanding(SendCommand<S>),
    /// The device is calibrating.
    Calibrating,
    /// The first offset register is being read.
    Reading0(RegisterRead<S>),
    /// The second offset register is being read; the first byte is kept.
    Reading1(RegisterRead<S>, u8),
    /// The third offset register is being read; two bytes are kept.
    Reading2(RegisterRead<S>, u8, u8),
}

impl<S> CalibrateSelfOffset1<S> {
    /// The operation before anything was asked of the hardware.
    pub open spec fn initial() -> CalibrateSelfOffset1<S> {
        CalibrateSelfOffset1::Positive(WriteBitfield::initial(PositiveInpmux::FLOAT))
    }

    /// Begins a self-calibration: the first transfer reads the input
    /// multiplexer's register.
    pub fn start() -> (start: (CalibrateSelfOffset1<S>, Request))
        ensures
            start == (CalibrateSelfOffset1::<S>::initial(), Request::Select(Level::Low)),
    {
        let (write, request) = WriteBitfield::start(PositiveInpmux::FLOAT);
        (CalibrateSelfOffset1::Positive(write), request)
    }
}

impl<S, P> Operation<S, P> for CalibrateSelfOffset1<S> {
    type Output = [u8; 3];

    open spec fn awaits(self) -> Request {
        match self {
            CalibrateSelfOffset1::Positive(write) => Operation::<S, P>::awaits(write),
            CalibrateSelfOffset1::Negative(write) => Operation::<S, P>::awaits(write),
            CalibrateSelfOffset1::Settling => Request::Delay(SETTLE_MS),
            CalibrateSelfOffset1::Commanding(send) => Operation::<S, P>::awaits(send),
            CalibrateSelfOffset1::Calibrating => Request::Delay(CALIBRATE_MS),
            CalibrateSelfOffset1::Reading0(read) => Operation::<S, P>::awaits(read),
            CalibrateSelfOffset1::Reading1(read, _) => Operation::<S, P>::awaits(read),
            CalibrateSelfOffset1::Reading2(read, _, _) => Operation::<S, P>::awaits(read),
        }
    }

    /// Both inputs are floated, positive first, and left to settle. The
    /// calibration command is sent and the device is given time to finish.
    /// Then the three offset registers are read, lowest first, and their
    /// values are the result. The first failure ends the operation.
    open spec fn next(self, response: Response<S, P>) -> Step<Self, [u8; 3], S, P> {
        match self {
            CalibrateSelfOffset1::Positive(write) => match write.next(response) {
                Step::Pending(write, request) => Step::Pending(
                    CalibrateSelfOffset1::Positive(write),
                    request,
                ),
                Step::Finished(Ok(_)) => Step::Pending(
                    CalibrateSelfOffset1::Negative(WriteBitfield::initial(NegativeInpmux::FLOAT)),
                    Request::Select(Level::Low),
                ),
                Step::Finished(Err(error)) => Step::Finished(Err(error)),
            },
            CalibrateSelfOffset1::Negative(write) => match write.next(response) {
                Step::Pending(write, request) => Step::Pending(
                    CalibrateSelfOffset1::Negative(write),
                    request,
                ),
                Step::Finished(Ok(_)) => Step::Pending(
                    CalibrateSelfOffset1::Settling,
                    Request::Delay(SETTLE_MS),
                ),
                Step::Finished(Err(error)) => Step::Finished(Err(error)),
            },
            CalibrateSelfOffset1::Settling => match response {
                Response::Delayed => Step::Pending(
                    CalibrateSelfOffset1::Commanding(SendCommand::initial(Command::SFOCAL1)),
                    Request::Select(Level::Low),
                ),
                _ => Step::Pending(CalibrateSelfOffset1::Settling, Request::Delay(SETTLE_MS)),
            },
            CalibrateSelfOffset1::Commanding(send) => match send.next(response) {
                Step::Pending(send, request) => Step::Pending(
                    CalibrateSelfOffset1::Commanding(send),
                    request,
                ),
                Step::Finished(Ok(_)) => Step::Pending(
                    CalibrateSelfOffset1::Calibrating,
                    Request::Delay(CALIBRATE_MS),
                ),
                Step::Finished(Err(error)) => Step::Finished(Err(error)),
            },
            CalibrateSelfOffset1::Calibrating => match response {
                Response::Delayed => Step::Pending(
                    CalibrateSelfOffset1::Reading0(RegisterRead::initial(Register::OFCAL0)),
                    Request::Select(Level::Low),
                ),
                _ => Step::Pending(CalibrateSelfOffset1::Calibrating, Request::Delay(CALIBRATE_MS)),
            },
            CalibrateSelfOffset1::Reading0(read) => match read.next(response) {
                Step::Pending(read, request) => Step::Pending(
                    CalibrateSelfOffset1::Reading0(read),
                    request,
                ),
                Step::Finished(Ok(ofcal0)) => Step::Pending(
                    CalibrateSelfOffset1::Reading1(RegisterRead::initial(Register::OFCAL1), ofcal0),
                    Request::Select(Level::Low),
                ),
                Step::Finished(Err(error)) => Step::Finished(Err(error)),
            },
            CalibrateSelfOffset1::Reading1(read, ofcal0) => match read.next(response) {
                Step::Pending(read, request) => Step::Pending(
                    CalibrateSelfOffset1::Reading1(read, ofcal0),
                    request,
                ),
                Step::Finished(Ok(ofcal1)) => Step::Pending(
                    CalibrateSelfOffset1::Reading2(
                        RegisterRead::initial(Register::OFCAL2),
                        ofcal0,
                        ofcal1,
                    ),
                    Request::Select(Level::Low),
                ),
                Step::Finished(Err(error)) => Step::Finished(Err(error)),
            },
            CalibrateSelfOffset1::Reading2(read, ofcal0, ofcal1) => match read.next(response) {
                Step::Pending(read, request) => Step::Pending(
                    CalibrateSelfOffset1::Reading2(read, ofcal0, ofcal1),
                    request,
                ),
                Step::Finished(Ok(ofcal2)) => Step::Finished(Ok([ofcal0, ofcal1, ofcal2])),
                Step::Finished(Err(error)) => Step::Finished(Err(error)),
            },
        }
    }

    fn resume(self, response: Response<S, P>) -> Step<Self, [u8; 3], S, P> {
        match self {
            CalibrateSelfOffset1::Positive(write) => match write.resume(response) {
                Step::Pending(write, request) => Step::Pending(
                    CalibrateSelfOffset1::Positive(write),
                    request,
                ),
                Step::Finished(Ok(_)) => {
                    let (write, request) = WriteBitfield::start(NegativeInpmux::FLOAT);
                    Step::Pending(CalibrateSelfOffset1::Negative(write), request)
                },
                Step::Finished(Err(error)) => Step::Finished(Err(error)),
            },
            CalibrateSelfOffset1::Negative(write) => match write.resume(response) {
                Step::Pending(write, request) => Step::Pending(
                    CalibrateSelfOffset1::Negative(write),
                    request,
                ),
                Step::Finished(Ok(_)) => Step::Pending(
                    CalibrateSelfOffset1::Settling,
                    Request::Delay(SETTLE_MS),
                ),
                Step::Finished(Err(error)) => Step::Finished(Err(error)),
            },
            CalibrateSelfOffset1::Settling => match response {
                Response::Delayed => {
                    let (send, request) = SendCommand::start(Command::SFOCAL1);
                    Step::Pending(CalibrateSelfOffset1::Commanding(send), request)
                },
                _ => Step::Pending(CalibrateSelfOffset1::Settling, Request::Delay(SETTLE_MS)),
            },
            CalibrateSelfOffset1::Commanding(send) => match send.resume(response) {
                Step::Pending(send, request) => Step::Pending(
                    CalibrateSelfOffset1::Commanding(send),
                    request,
                ),
                Step::Finished(Ok(_)) => Step::Pending(
                    CalibrateSelfOffset1::Calibrating,
                    Request::Delay(CALIBRATE_MS),
                ),
                Step::Finished(Err(error)) => Step::Finished(Err(error)),
            },
            CalibrateSelfOffset1::Calibrating => match response {
                Response::Delayed => {
                    let (read, request) = RegisterRead::start(Register::OFCAL0);
                    Step::Pending(CalibrateSelfOffset1::Reading0(read), request)
                },
                _ => Step::Pending(CalibrateSelfOffset1::Calibrating, Request::Delay(CALIBRATE_MS)),
            },
            CalibrateSelfOffset1::Reading0(read) => match read.resume(response) {
                Step::Pending(read, request) => Step::Pending(
                    CalibrateSelfOffset1::Reading0(read),
                    request,
                ),
                Step::Finished(Ok(ofcal0)) => {
                    let (read, request) = RegisterRead::start(Register::OFCAL1);
                    Step::Pending(CalibrateSelfOffset1::Reading1(read, ofcal0), request)
                },
                Step::Finished(Err(error)) => Step::Finished(Err(error)),
            },
            CalibrateSelfOffset1::Reading1(read, ofcal0) => match read.resume(response) {
                Step::Pending(read, request) => Step::Pending(
                    CalibrateSelfOffset1::Reading1(read, ofcal0),
                    request,
                ),
                Step::Finished(Ok(ofcal1)) => {
                    let (read, request) = RegisterRead::start(Register::OFCAL2);
                    Step::Pending(CalibrateSelfOffset1::Reading2(read, ofcal0, ofcal1), request)
                },
                Step::Finished(Err(error)) => Step::Finished(Err(error)),
            },
            CalibrateSelfOffset1::Reading2(read, ofcal0, ofcal1) => match read.resume(response) {
                Step::Pending(read, request) => Step::Pending(
                    CalibrateSelfOffset1::Reading2(read, ofcal0, ofcal1),
                    request,
                ),
                Step::Finished(Ok(ofcal2)) => Step::Finished(Ok([ofcal0, ofcal1, ofcal2])),
                Step::Finished(Err(error)) => Step::Finished(Err(error)),
            },
        }
    }
}

/// Putting a captured offset back into the device, in progress.
#[derive(Debug, PartialEq, Eq)]
pub enum LoadCalibrationOffset1<S> {
    /// The first offset register is being written; the other two bytes wait.
    Writing0(RegisterWrite<S>, u8, u8),
    /// The second offset register is being written; the third byte waits.
    Writing1(RegisterWrite<S>, u8),
    /// The third offset register is being written.
    Writing2(RegisterWrite<S>),
}

impl<S> LoadCalibrationOffset1<S> {
    /// The operation before anything was asked of the hardware.
    pub open spec fn initial(ofcal: [u8; 3]) -> LoadCalibrationOffset1<S> {
        LoadCalibrationOffset1::Writing0(
            RegisterWrite::initial(Register::OFCAL0, ofcal[0]),
            ofcal[1],
            ofcal[2],
        )
    }

    /// Begins putting an offset back: the first transfer writes its first
    /// byte to the first offset register.
    pub fn start(ofcal: [u8; 3]) -> (start: (LoadCalibrationOffset1<S>, Request))
        ensures
            start == (LoadCalibrationOffset1::<S>::initial(ofcal), Request::Select(Level::Low)),
    {
        let (write, request) = RegisterWrite::start(Register::OFCAL0, ofcal[0]);
        (LoadCalibrationOffset1::Writing0(write, ofcal[1], ofcal[2]), request)
    }
}

impl<S, P> Operation<S, P> for LoadCalibrationOffset1<S> {
    type Output = ();

    open spec fn awaits(self) -> Request {
        match self {
            LoadCalibrationOffset1::Writing0(write, _, _) => Operation::<S, P>::awaits(write),
            LoadCalibrationOffset1::Writing1(write, _) => Operation::<S, P>::awaits(write),
            LoadCalibrationOffset1::Writing2(write) => Operation::<S, P>::awaits(write),
        }
    }

    /// The three bytes are written to the three offset registers in order,
    /// lowest first. The first failure ends the operation.
    open spec fn next(self, response: Response<S, P>) -> Step<Self, (), S, P> {
        match self {
            LoadCalibrationOffset1::Writing0(write, ofcal1, ofcal2) => match write.next(response) {
                Step::Pending(write, request) => Step::Pending(
                    LoadCalibrationOffset1::Writing0(write, ofcal1, ofcal2),
                    request,
                ),
                Step::Finished(Ok(_)) => Step::Pending(
                    LoadCalibrationOffset1::Writing1(
                        RegisterWrite::initial(Register::OFCAL1, ofcal1),
                        ofcal2,
                    ),
                    Request::Select(Level::Low),
                ),
                Step::Finished(Err(error)) => Step::Finished(Err(error)),
            },
            LoadCalibrationOffset1::Writing1(write, ofcal2) => match write.next(response) {
                Step::Pending(write, request) => Step::Pending(
                    LoadCalibrationOffset1::Writing1(write, ofcal2),
                    request,
                ),
                Step::Finished(Ok(_)) => Step::Pending(
                    LoadCalibrationOffset1::Writing2(
                        RegisterWrite::initial(Register::OFCAL2, ofcal2),
                    ),
                    Request::Select(Level::Low),
                ),
                Step::Finished(Err(error)) => Step::Finished(Err(error)),
            },
            LoadCalibrationOffset1::Writing2(write) => match write.next(response) {
                Step::Pending(write, request) => Step::Pending(
                    LoadCalibrationOffset1::Writing2(write),
                    request,
                ),
                Step::Finished(outcome) => Step::Finished(outcome),
            },
        }
    }

    fn resume(self, response: Response<S, P>) -> Step<Self, (), S, P> {
        match self {
            LoadCalibrationOffset1::Writing0(write, ofcal1, ofcal2) => match write.resume(
                response,
            ) {
                Step::Pending(write, request) => Step::Pending(
                    LoadCalibrationOffset1::Writing0(write, ofcal1, ofcal2),
                    request,
                ),
                Step::Finished(Ok(_)) => {
                    let (write, request) = RegisterWrite::start(Register::OFCAL1, ofcal1);
                    Step::Pending(LoadCalibrationOffset1::Writing1(write, ofcal2), request)
                },
                Step::Finished(Err(error)) => Step::Finished(Err(error)),
            },
            LoadCalibrationOffset1::Writing1(write, ofcal2) => match write.resume(response) {
                Step::Pending(write, request) => Step::Pending(
                    LoadCalibrationOffset1::Writing1(write, ofcal2),
                    request,
                ),
                Step::Finished(Ok(_)) => {
                    let (write, request) = RegisterWrite::start(Register::OFCAL2, ofcal2);
                    Step::Pending(LoadCalibrationOffset1::Writing2(write), request)
                },
                Step::Finished(Err(error)) => Step::Finished(Err(error)),
            },
            LoadCalibrationOffset1::Writing2(write) => match write.resume(response) {
                Step::Pending(write, request) => Step::Pending(
                    LoadCalibrationOffset1::Writing2(write),
                    request,
                ),
                Step::Finished(outcome) => Step::Finished(outcome),
            },
        }
    }
}

/// The first step of putting an offset back.
pub open spec fn load_start<S, P>(ofcal: [u8; 3]) -> Step<LoadCalibrationOffset1<S>, (), S, P> {
    Step::Pending(LoadCalibrationOffset1::initial(ofcal), Request::Select(Level::Low))
}

/// Where putting an offset back stands after so many of its writes went
/// through, the device having sent `echo` during each.
pub open spec fn load_after<S, P>(ofcal: [u8; 3], echo: Vec<u8>, writes: nat) -> Step<
    LoadCalibrationOffset1<S>,
    (),
    S,
    P,
>
    decreases writes,
{
    if writes == 0 {
        load_start(ofcal)
    } else {
        after_transfer(load_after(ofcal, echo, (writes - 1) as nat), Ok(echo), Ok(()))
    }
}

/// Putting an offset back is three framed writes, of its bytes in order to
/// the three offset registers in order, and ends well when all three went
/// through.
pub proof fn lemma_load_calibration_offset1<S, P>(ofcal: [u8; 3], echo: Vec<u8>)
    ensures
        transfers(
            load_after::<S, P>(ofcal, echo, 0),
            Frame::WriteRegister(Register::OFCAL0, ofcal[0]),
            Ok::<Vec<u8>, S>(echo),
        ),
        transfers(
            load_after::<S, P>(ofcal, echo, 1),
            Frame::WriteRegister(Register::OFCAL1, ofcal[1]),
            Ok::<Vec<u8>, S>(echo),
        ),
        transfers(
            load_after::<S, P>(ofcal, echo, 2),
            Frame::WriteRegister(Register::OFCAL2, ofcal[2]),
            Ok::<Vec<u8>, S>(echo),
        ),
        load_after::<S, P>(ofcal, echo, 3) == Step::<LoadCalibrationOffset1<S>, (), S, P>::Finished(
            Ok(()),
        ),
{
    reveal_with_fuel(load_after, 4);
}

/// The registers of a device after an offset was put back into it.
pub open spec fn offset_stored(registers: Map<Register, u8>, ofcal: [u8; 3]) -> Map<Register, u8> {
    registers_after(
        registers_after(
            registers_after(registers, Frame::WriteRegister(Register::OFCAL0, ofcal[0])),
            Frame::WriteRegister(Register::OFCAL1, ofcal[1]),
        ),
        Frame::WriteRegister(Register::OFCAL2, ofcal[2]),
    )
}

/// An offset that was put back into a device which keeps what is written to
/// it is read back unchanged, byte for byte, by plain reads of the three
/// offset registers.
pub proof fn lemma_offset_round_trip<S, P>(
    registers: Map<Register, u8>,
    ofcal: [u8; 3],
    rx0: Vec<u8>,
    rx1: Vec<u8>,
    rx2: Vec<u8>,
)
    requires
        device_sends(
            offset_stored(registers, ofcal),
            Frame::ReadRegister(Register::OFCAL0),
            rx0@,
        ),
        device_sends(
            offset_stored(registers, ofcal),
            Frame::ReadRegister(Register::OFCAL1),
            rx1@,
        ),
        device_sends(
            offset_stored(registers, ofcal),
            Frame::ReadRegister(Register::OFCAL2),
            rx2@,
        ),
    ensures
        after_transfer(read_start::<S, P>(Register::OFCAL0), Ok(rx0), Ok(())) == Step::<
            RegisterRead<S>,
            u8,
            S,
            P,
        >::Finished(Ok(ofcal[0])),
        after_transfer(read_start::<S, P>(Register::OFCAL1), Ok(rx1), Ok(())) == Step::<
            RegisterRead<S>,
            u8,
            S,
            P,
        >::Finished(Ok(ofcal[1])),
        after_transfer(read_start::<S, P>(Register::OFCAL2), Ok(rx2), Ok(())) == Step::<
            RegisterRead<S>,
            u8,
            S,
            P,
        >::Finished(Ok(ofcal[2])),
{
}

/// The first step of a self-calibration.
pub open spec fn calibrate_start<S, P>() -> Step<CalibrateSelfOffset1<S>, [u8; 3], S, P> {
    Step::Pending(CalibrateSelfOffset1::initial(), Request::Select(Level::Low))
}

/// A self-calibration whose inputs are floated and settling.
pub open spec fn calibrate_settling<S, P>() -> Step<CalibrateSelfOffset1<S>, [u8; 3], S, P> {
    Step::Pending(CalibrateSelfOffset1::Settling, Request::Delay(SETTLE_MS))
}

/// A self-calibration begins by floating the positive input and then the
/// negative one, each by a read of the multiplexer's register and a write of
/// the value read with the floating option merged in. Then it waits for the
/// inputs to settle.
pub proof fn lemma_calibrate_floats_inputs<S, P>(first: Vec<u8>, second: Vec<u8>, echo: Vec<u8>)
    ensures
        ({
            let start = calibrate_start::<S, P>();
            let read = after_transfer(start, Ok(first), Ok(()));
            let floated = after_transfer(read, Ok(echo), Ok(()));
            let read_again = after_transfer(floated, Ok(second), Ok(()));
            &&& transfers(start, Frame::ReadRegister(Register::INPMUX), Ok::<Vec<u8>, S>(first))
            &&& transfers(
                read,
                Frame::WriteRegister(
                    Register::INPMUX,
                    with_field(PositiveInpmux::FLOAT, first@[2]),
                ),
                Ok::<Vec<u8>, S>(echo),
            )
            &&& transfers(floated, Frame::ReadRegister(Register::INPMUX), Ok::<Vec<u8>, S>(second))
            &&& transfers(
                read_again,
                Frame::WriteRegister(
                    Register::INPMUX,
                    with_field(NegativeInpmux::FLOAT, second@[2]),
                ),
                Ok::<Vec<u8>, S>(echo),
            )
            &&& after_transfer(read_again, Ok(echo), Ok(())) == calibrate_settling::<S, P>()
        }),
{
}

/// Once the inputs have settled, a self-calibration sends the calibration
/// command, waits for the device to finish, and reads the three offset
/// registers, lowest first. Their values, in that order, are its result.
pub proof fn lemma_calibrate_measures<S, P>(
    echo: Vec<u8>,
    rx0: Vec<u8>,
    rx1: Vec<u8>,
    rx2: Vec<u8>,
)
    ensures
        ({
            let settled = after_answer(calibrate_settling::<S, P>(), Response::Delayed);
            let commanded = after_transfer(settled, Ok(echo), Ok(()));
            let calibrated = after_answer(commanded, Response::Delayed);
            let read0 = after_transfer(calibrated, Ok(rx0), Ok(()));
            let read1 = after_transfer(read0, Ok(rx1), Ok(()));
            let read2 = after_transfer(read1, Ok(rx2), Ok(()));
            &&& transfers(settled, Frame::Command(Command::SFOCAL1), Ok::<Vec<u8>, S>(echo))
            &&& commanded.request() == Some(Request::Delay(CALIBRATE_MS))
            &&& transfers(calibrated, Frame::ReadRegister(Register::OFCAL0), Ok::<Vec<u8>, S>(rx0))
            &&& transfers(read0, Frame::ReadRegister(Register::OFCAL1), Ok::<Vec<u8>, S>(rx1))
            &&& transfers(read1, Frame::ReadRegister(Register::OFCAL2), Ok::<Vec<u8>, S>(rx2))
            &&& read2 matches Step::Finished(Ok(ofcal))
            &&& ofcal[0] == rx0@[2]
            &&& ofcal[1] == rx1@[2]
            &&& ofcal[2] == rx2@[2]
        }),
{
}

} // verus!
