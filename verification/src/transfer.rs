//! The three plain transfers: a command, a register read, a register write.
//! Each is one frame between select-low and select-high.

use vstd::prelude::*;
use crate::bus::{
    Exchange, Level, Operation, Request, Response, Signal, Step, after_answer, after_transfer,
    transfers,
};
use crate::Error;
use crate::command::Command;
use crate::frame::Frame;
use crate::register::register::Register;

verus! {

/// What an answer means to a transfer that reads nothing from the bytes it
/// receives.
pub open spec fn plain_signal<S, P>(response: Response<S, P>) -> Signal<(), S, P> {
    match response {
        Response::Selected(outcome) => Signal::Selected(outcome),
        Response::Transferred(Ok(_)) => Signal::Transferred(Ok(())),
        Response::Transferred(Err(fault)) => Signal::Transferred(Err(fault)),
        _ => Signal::Stray,
    }
}

fn read_plain<S, P>(response: Response<S, P>) -> (signal: Signal<(), S, P>)
    ensures
        signal == plain_signal(response),
{
    match response {
        Response::Selected(outcome) => Signal::Selected(outcome),
        Response::Transferred(Ok(_)) => Signal::Transferred(Ok(())),
        Response::Transferred(Err(fault)) => Signal::Transferred(Err(fault)),
        _ => Signal::Stray,
    }
}

/// Sending one command to the device.
#[derive(Debug, PartialEq, Eq)]
pub struct SendCommand<S> {
    pub command: Command,
    pub exchange: Exchange<(), S>,
}

impl<S> SendCommand<S> {
    /// The operation before anything was asked of the hardware.
    pub open spec fn initial(command: Command) -> SendCommand<S> {
        SendCommand { command, exchange: Exchange::Selecting }
    }

    /// Begins sending a command: the one byte that goes out is its opcode.
    pub fn start(command: Command) -> (start: (SendCommand<S>, Request))
        ensures
            start == (SendCommand::<S>::initial(command), Request::Select(Level::Low)),
    {
        let (exchange, request) = Exchange::begin();
        (SendCommand { command, exchange }, request)
    }
}

impl<S, P> Operation<S, P> for SendCommand<S> {
    type Output = ();

    open spec fn awaits(self) -> Request {
        self.exchange.awaits(Frame::Command(self.command))
    }

    open spec fn next(self, response: Response<S, P>) -> Step<Self, (), S, P> {
        match self.exchange.next(Frame::Command(self.command), plain_signal(response)) {
            Step::Pending(exchange, request) => Step::Pending(
                SendCommand { command: self.command, exchange },
                request,
            ),
            Step::Finished(outcome) => Step::Finished(outcome),
        }
    }

    fn resume(self, response: Response<S, P>) -> Step<Self, (), S, P> {
        let command = self.command;
        match self.exchange.advance(Frame::Command(command), read_plain(response)) {
            Step::Pending(exchange, request) => Step::Pending(
                SendCommand { command, exchange },
                request,
            ),
            Step::Finished(outcome) => Step::Finished(outcome),
        }
    }
}

/// Writing one register of the device.
#[derive(Debug, PartialEq, Eq)]
pub struct RegisterWrite<S> {
    pub register: Register,
    pub value: u8,
    pub exchange: Exchange<(), S>,
}

impl<S> RegisterWrite<S> {
    /// The operation before anything was asked of the hardware.
    pub open spec fn initial(register: Register, value: u8) -> RegisterWrite<S> {
        RegisterWrite { register, value, exchange: Exchange::Selecting }
    }

    /// Begins writing a value to a register.
    pub fn start(register: Register, value: u8) -> (start: (RegisterWrite<S>, Request))
        ensures
            start == (RegisterWrite::<S>::initial(register, value), Request::Select(Level::Low)),
    {
        let (exchange, request) = Exchange::begin();
        (RegisterWrite { register, value, exchange }, request)
    }
}

impl<S, P> Operation<S, P> for RegisterWrite<S> {
    type Output = ();

    open spec fn awaits(self) -> Request {
        self.exchange.awaits(Frame::WriteRegister(self.register, self.value))
    }

    open spec fn next(self, response: Response<S, P>) -> Step<Self, (), S, P> {
        match self.exchange.next(
            Frame::WriteRegister(self.register, self.value),
            plain_signal(response),
        ) {
            Step::Pending(exchange, request) => Step::Pending(
                RegisterWrite { register: self.register, value: self.value, exchange },
                request,
            ),
            Step::Finished(outcome) => Step::Finished(outcome),
        }
    }

    fn resume(self, response: Response<S, P>) -> Step<Self, (), S, P> {
        let register = self.register;
        let value = self.value;
        match self.exchange.advance(Frame::WriteRegister(register, value), read_plain(response)) {
            Step::Pending(exchange, request) => Step::Pending(
                RegisterWrite { register, value, exchange },
                request,
            ),
            Step::Finished(outcome) => Step::Finished(outcome),
        }
    }
}

/// What an answer means to a register read: of the three bytes received, the
/// first two echo the transfer's head and the third is the register's value.
pub open spec fn register_signal<S, P>(response: Response<S, P>) -> Signal<u8, S, P> {
    match response {
        Response::Selected(outcome) => Signal::Selected(outcome),
        Response::Transferred(Ok(rx)) => Signal::Transferred(Ok(rx@[2])),
        Response::Transferred(Err(fault)) => Signal::Transferred(Err(fault)),
        _ => Signal::Stray,
    }
}

/// Reading one register of the device.
#[derive(Debug, PartialEq, Eq)]
pub struct RegisterRead<S> {
    pub register: Register,
    pub exchange: Exchange<u8, S>,
}

impl<S> RegisterRead<S> {
    /// The operation before anything was asked of the hardware.
    pub open spec fn initial(register: Register) -> RegisterRead<S> {
        RegisterRead { register, exchange: Exchange::Selecting }
    }

    /// Begins reading a register.
    pub fn start(register: Register) -> (start: (RegisterRead<S>, Request))
        ensures
            start == (RegisterRead::<S>::initial(register), Request::Select(Level::Low)),
    {
        let (exchange, request) = Exchange::begin();
        (RegisterRead { register, exchange }, request)
    }
}

impl<S, P> Operation<S, P> for RegisterRead<S> {
    type Output = u8;

    open spec fn awaits(self) -> Request {
        self.exchange.awaits(Frame::ReadRegister(self.register))
    }

    open spec fn next(self, response: Response<S, P>) -> Step<Self, u8, S, P> {
        match self.exchange.next(Frame::ReadRegister(self.register), register_signal(response)) {
            Step::Pending(exchange, request) => Step::Pending(
                RegisterRead { register: self.register, exchange },
                request,
            ),
            Step::Finished(outcome) => Step::Finished(outcome),
        }
    }

    fn resume(self, response: Response<S, P>) -> Step<Self, u8, S, P> {
        let register = self.register;
        let signal = match response {
            Response::Selected(outcome) => Signal::Selected(outcome),
            Response::Transferred(Ok(rx)) => Signal::Transferred(Ok(rx[2])),
            Response::Transferred(Err(fault)) => Signal::Transferred(Err(fault)),
            _ => Signal::Stray,
        };
        match self.exchange.advance(Frame::ReadRegister(register), signal) {
            Step::Pending(exchange, request) => Step::Pending(
                RegisterRead { register, exchange },
                request,
            ),
            Step::Finished(outcome) => Step::Finished(outcome),
        }
    }
}

/// The first step of a command, a register read or a register write.
pub open spec fn command_start<S, P>(command: Command) -> Step<SendCommand<S>, (), S, P> {
    Step::Pending(SendCommand::initial(command), Request::Select(Level::Low))
}

pub open spec fn read_start<S, P>(register: Register) -> Step<RegisterRead<S>, u8, S, P> {
    Step::Pending(RegisterRead::initial(register), Request::Select(Level::Low))
}

pub open spec fn write_start<S, P>(register: Register, value: u8) -> Step<
    RegisterWrite<S>,
    (),
    S,
    P,
> {
    Step::Pending(RegisterWrite::initial(register, value), Request::Select(Level::Low))
}

/// Sending a command is one framed transfer of the opcode alone. It gives
/// nothing back. If the device cannot be selected, no byte moves. If the bus
/// fails, the device is still released and the bus's failure is reported. If
/// only the release fails, that is reported.
pub proof fn lemma_send_command<S, P>(
    command: Command,
    outcome: Result<Vec<u8>, S>,
    released: Result<(), P>,
    fault: P,
)
    ensures
        Frame::Command(command).wire() == seq![command.code()],
        transfers(command_start::<S, P>(command), Frame::Command(command), outcome),
        after_answer(command_start::<S, P>(command), Response::Selected(Err(fault))) == Step::<
            SendCommand<S>,
            (),
            S,
            P,
        >::Finished(Err(Error::PinError(fault))),
        after_transfer(command_start::<S, P>(command), outcome, released) == Step::<
            SendCommand<S>,
            (),
            S,
            P,
        >::Finished(
            match (outcome, released) {
                (Err(bus_fault), _) => Err(Error::SpiError(bus_fault)),
                (Ok(_), Err(pin_fault)) => Err(Error::PinError(pin_fault)),
                (Ok(_), Ok(_)) => Ok(()),
            },
        ),
{
}

/// Reading a register is one framed transfer of three bytes, and gives the
/// third byte received. If the device cannot be selected, no byte moves. If
/// the bus fails, the device is still released and the bus's failure is
/// reported. If only the release fails, that is reported and no value is
/// given.
pub proof fn lemma_read_register<S, P>(
    register: Register,
    outcome: Result<Vec<u8>, S>,
    released: Result<(), P>,
    fault: P,
)
    ensures
        Frame::ReadRegister(register).wire() == seq![
            Command::RREG.code() | register.addr(),
            0u8,
            0u8,
        ],
        transfers(read_start::<S, P>(register), Frame::ReadRegister(register), outcome),
        after_answer(read_start::<S, P>(register), Response::Selected(Err(fault))) == Step::<
            RegisterRead<S>,
            u8,
            S,
            P,
        >::Finished(Err(Error::PinError(fault))),
        after_transfer(read_start::<S, P>(register), outcome, released) == Step::<
            RegisterRead<S>,
            u8,
            S,
            P,
        >::Finished(
            match (outcome, released) {
                (Err(bus_fault), _) => Err(Error::SpiError(bus_fault)),
                (Ok(_), Err(pin_fault)) => Err(Error::PinError(pin_fault)),
                (Ok(rx), Ok(_)) => Ok(rx@[2]),
            },
        ),
{
}

/// Writing a register is one framed transfer of three bytes, the value last.
/// It gives nothing back, and fails as a register read does.
pub proof fn lemma_write_register<S, P>(
    register: Register,
    value: u8,
    outcome: Result<Vec<u8>, S>,
    released: Result<(), P>,
    fault: P,
)
    ensures
        Frame::WriteRegister(register, value).wire() == seq![
            Command::WREG.code() | register.addr(),
            0u8,
            value,
        ],
        transfers(
            write_start::<S, P>(register, value),
            Frame::WriteRegister(register, value),
            outcome,
        ),
        after_answer(write_start::<S, P>(register, value), Response::Selected(Err(fault))) == Step::<
            RegisterWrite<S>,
            (),
            S,
            P,
        >::Finished(Err(Error::PinError(fault))),
        after_transfer(write_start::<S, P>(register, value), outcome, released) == Step::<
            RegisterWrite<S>,
            (),
            S,
            P,
        >::Finished(
            match (outcome, released) {
                (Err(bus_fault), _) => Err(Error::SpiError(bus_fault)),
                (Ok(_), Err(pin_fault)) => Err(Error::PinError(pin_fault)),
                (Ok(_), Ok(_)) => Ok(()),
            },
        ),
{
}

} // verus!
