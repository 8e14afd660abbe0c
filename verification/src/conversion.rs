//! Reading one conversion. The shape of the frame depends on the device's
//! interface configuration, which can change between reads, so every read
//! starts by fetching the INTERFACE register.

use vstd::prelude::*;
use crate::bus::{
    Exchange, Level, Operation, Request, Response, Signal, Step, after_transfer, transfers,
};
use crate::frame::{ChecksumMode, Frame, InterfaceConfig, conversion_of, decode_conversion};
use crate::register::register::Register;
use crate::transfer::RegisterRead;
use crate::{Checksum, Error};

verus! {

/// What an answer means to a conversion transfer under a configuration: the
/// received bytes are read as a conversion frame of that shape.
pub open spec fn conversion_signal<S, P>(config: InterfaceConfig, response: Response<S, P>) -> Signal<
    Result<(Option<u8>, u32, Option<Checksum>), Error<S, P>>,
    S,
    P,
> {
    match response {
        Response::Selected(outcome) => Signal::Selected(outcome),
        Response::Transferred(Ok(rx)) => Signal::Transferred(Ok(conversion_of(config, rx@))),
        Response::Transferred(Err(fault)) => Signal::Transferred(Err(fault)),
        _ => Signal::Stray,
    }
}

/// Reading one conversion in progress.
#[derive(Debug, PartialEq, Eq)]
pub enum ReadData<S, P> {
    /// The INTERFACE register is being read.
    Configuring(RegisterRead<S>),
    /// The conversion frame is being transferred, in the shape that the
    /// configuration gives it.
    Reading(
        InterfaceConfig,
        Exchange<Result<(Option<u8>, u32, Option<Checksum>), Error<S, P>>, S>,
    ),
}

impl<S, P> ReadData<S, P> {
    /// The operation before anything was asked of the hardware.
    pub open spec fn initial() -> ReadData<S, P> {
        ReadData::Configuring(RegisterRead::initial(Register::INTERFACE))
    }

    /// Begins reading a conversion: the first transfer reads the INTERFACE
    /// register.
    pub fn start() -> (start: (ReadData<S, P>, Request))
        ensures
            start == (ReadData::<S, P>::initial(), Request::Select(Level::Low)),
    {
        let (read, request) = RegisterRead::start(Register::INTERFACE);
        (ReadData::Configuring(read), request)
    }
}

impl<S, P> Operation<S, P> for ReadData<S, P> {
    type Output = (Option<u8>, u32, Option<Checksum>);

    open spec fn awaits(self) -> Request {
        match self {
            ReadData::Configuring(read) => Operation::<S, P>::awaits(read),
            ReadData::Reading(config, exchange) => exchange.awaits(Frame::ReadData(config)),
        }
    }

    open spec fn next(self, response: Response<S, P>) -> Step<
        Self,
        (Option<u8>, u32, Option<Checksum>),
        S,
        P,
    > {
        match self {
            ReadData::Configuring(read) => match read.next(response) {
                Step::Pending(read, request) => Step::Pending(ReadData::Configuring(read), request),
                Step::Finished(Ok(interface)) => Step::Pending(
                    ReadData::Reading(InterfaceConfig::of(interface), Exchange::Selecting),
                    Request::Select(Level::Low),
                ),
                Step::Finished(Err(error)) => Step::Finished(Err(error)),
            },
            ReadData::Reading(config, exchange) => match exchange.next(
                Frame::ReadData(config),
                conversion_signal(config, response),
            ) {
                Step::Pending(exchange, request) => Step::Pending(
                    ReadData::Reading(config, exchange),
                    request,
                ),
                Step::Finished(Ok(decoded)) => Step::Finished(decoded),
                Step::Finished(Err(error)) => Step::Finished(Err(error)),
            },
        }
    }

    fn resume(self, response: Response<S, P>) -> Step<
        Self,
        (Option<u8>, u32, Option<Checksum>),
        S,
        P,
    > {
        match self {
            ReadData::Configuring(read) => match read.resume(response) {
                Step::Pending(read, request) => Step::Pending(ReadData::Configuring(read), request),
                Step::Finished(Ok(interface)) => {
                    let (exchange, request) = Exchange::begin();
                    Step::Pending(
                        ReadData::Reading(InterfaceConfig::from_register(interface), exchange),
                        request,
                    )
                },
                Step::Finished(Err(error)) => Step::Finished(Err(error)),
            },
            ReadData::Reading(config, exchange) => {
                let signal = match response {
                    Response::Selected(outcome) => Signal::Selected(outcome),
                    Response::Transferred(Ok(rx)) => Signal::Transferred(
                        Ok(decode_conversion(&config, rx.as_slice())),
                    ),
                    Response::Transferred(Err(fault)) => Signal::Transferred(Err(fault)),
                    _ => Signal::Stray,
                };
                match exchange.advance(Frame::ReadData(config), signal) {
                    Step::Pending(exchange, request) => Step::Pending(
                        ReadData::Reading(config, exchange),
                        request,
                    ),
                    Step::Finished(Ok(decoded)) => Step::Finished(decoded),
                    Step::Finished(Err(error)) => Step::Finished(Err(error)),
                }
            },
        }
    }
}

/// The first step of reading a conversion.
pub open spec fn data_start<S, P>() -> Step<
    ReadData<S, P>,
    (Option<u8>, u32, Option<Checksum>),
    S,
    P,
> {
    Step::Pending(ReadData::initial(), Request::Select(Level::Low))
}

/// Reading a conversion is two framed transfers: a read of the INTERFACE
/// register, and a transfer of the read-data opcode that is as long as the
/// frame which the value just read announces. The result is what the
/// received bytes hold under that configuration. If the first read fails,
/// no conversion is transferred.
pub proof fn lemma_read_data<S, P>(
    interface: Vec<u8>,
    data: Vec<u8>,
    released: Result<(), P>,
    bus_fault: S,
    pin_fault: P,
)
    ensures
        transfers(
            data_start::<S, P>(),
            Frame::ReadRegister(Register::INTERFACE),
            Ok::<Vec<u8>, S>(interface),
        ),
        after_transfer(data_start::<S, P>(), Err(bus_fault), released) == Step::<
            ReadData<S, P>,
            (Option<u8>, u32, Option<Checksum>),
            S,
            P,
        >::Finished(Err(Error::SpiError(bus_fault))),
        after_transfer(data_start::<S, P>(), Ok(interface), Err(pin_fault)) == Step::<
            ReadData<S, P>,
            (Option<u8>, u32, Option<Checksum>),
            S,
            P,
        >::Finished(Err(Error::PinError(pin_fault))),
        ({
            let config = InterfaceConfig::of(interface@[2]);
            let configured = after_transfer(data_start::<S, P>(), Ok(interface), Ok(()));
            &&& Frame::ReadData(config).wire().len() == config.len()
            &&& transfers(configured, Frame::ReadData(config), Ok::<Vec<u8>, S>(data))
            &&& after_transfer(configured, Ok(data), Ok(())) == Step::<
                ReadData<S, P>,
                (Option<u8>, u32, Option<Checksum>),
                S,
                P,
            >::Finished(conversion_of(config, data@))
            &&& after_transfer(configured, Err(bus_fault), released) == Step::<
                ReadData<S, P>,
                (Option<u8>, u32, Option<Checksum>),
                S,
                P,
            >::Finished(Err(Error::SpiError(bus_fault)))
            &&& after_transfer(configured, Ok(data), Err(pin_fault)) == Step::<
                ReadData<S, P>,
                (Option<u8>, u32, Option<Checksum>),
                S,
                P,
            >::Finished(Err(Error::PinError(pin_fault)))
        }),
{
}

/// When both integrity bits of the INTERFACE register are set, a conversion
/// read that the bus and the select line carry through gives the
/// invalid-response error, whatever bytes the device sent.
pub proof fn lemma_reserved_mode_is_refused<S, P>(interface: Vec<u8>, data: Vec<u8>)
    requires
        interface@[2] & 0b11 == 0b11,
    ensures
        InterfaceConfig::of(interface@[2]).checksum_mode == ChecksumMode::Invalid,
        conversion_of::<S, P>(InterfaceConfig::of(interface@[2]), data@) == Err::<
            (Option<u8>, u32, Option<Checksum>),
            Error<S, P>,
        >(Error::InvalidResponseFromDevice),
        after_transfer(
            after_transfer(data_start::<S, P>(), Ok(interface), Ok(())),
            Ok(data),
            Ok(()),
        ) == Step::<ReadData<S, P>, (Option<u8>, u32, Option<Checksum>), S, P>::Finished(
            Err(Error::InvalidResponseFromDevice),
        ),
{
    lemma_read_data::<S, P>(interface, data, Ok(()), arbitrary(), arbitrary());
}

} // verus!
