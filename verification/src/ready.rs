//! Waiting for a new conversion, and the read of one input pair built on it.
//!
//! With a data-ready line the driver samples the line until it is active.
//! Without one it enables the status byte and reads conversions until one is
//! flagged as new. Both waits give up after the same number of retries.

use vstd::prelude::*;
use crate::access::WriteBitfield;
use crate::bus::{Level, Operation, Request, Response, Step, after_transfer, run, transfers};
use crate::conversion::ReadData;
use crate::frame::{Frame, InterfaceConfig, conversion_of, is_new_data, new_data};
use crate::register::bitfield::{BitField, merged_byte};
use crate::register::register::Register;
use crate::register::inpmux::{NegativeInpmux, PositiveInpmux};
use crate::register::interface::StatusByte;
use crate::Error;

verus! {

/// How many times a wait for new data tries again after its first attempt.
pub const READY_RETRIES: u32 = 40000;

/// Waiting on the data-ready line. `polls` counts the samples taken so far,
/// all of which found the line inactive.
#[derive(Debug, PartialEq, Eq)]
pub struct WaitReady {
    pub polls: u32,
}

impl WaitReady {
    /// Begins waiting on the data-ready line, if one is wired.
    pub fn begin<S, P>(ready_wired: bool) -> (step: Step<WaitReady, (), S, P>)
        ensures
            step == if ready_wired {
                Step::<WaitReady, (), S, P>::Pending(WaitReady { polls: 0 }, Request::PollReady)
            } else {
                Step::<WaitReady, (), S, P>::Finished(Err(Error::DRDYPinNotConfigured))
            },
    {
        if ready_wired {
            Step::Pending(WaitReady { polls: 0 }, Request::PollReady)
        } else {
            Step::Finished(Err(Error::DRDYPinNotConfigured))
        }
    }
}

impl<S, P> Operation<S, P> for WaitReady {
    type Output = ();

    open spec fn awaits(self) -> Request {
        Request::PollReady
    }

    /// An active sample ends the wait at once. An inactive one is followed
    /// by another sample, unless all retries have been used.
    open spec fn next(self, response: Response<S, P>) -> Step<Self, (), S, P> {
        match response {
            Response::Sampled(Ok(active)) => if active {
                Step::Finished(Ok(()))
            } else if self.polls >= READY_RETRIES {
                Step::Finished(Err(Error::DataReadyTimeoutError))
            } else {
                Step::Pending(WaitReady { polls: (self.polls + 1) as u32 }, Request::PollReady)
            },
            Response::Sampled(Err(fault)) => Step::Finished(Err(Error::PinError(fault))),
            _ => Step::Pending(self, Request::PollReady),
        }
    }

    fn resume(self, response: Response<S, P>) -> Step<Self, (), S, P> {
        match response {
            Response::Sampled(Ok(active)) => if active {
                Step::Finished(Ok(()))
            } else if self.polls >= READY_RETRIES {
                Step::Finished(Err(Error::DataReadyTimeoutError))
            } else {
                Step::Pending(WaitReady { polls: self.polls + 1 }, Request::PollReady)
            },
            Response::Sampled(Err(fault)) => Step::Finished(Err(Error::PinError(fault))),
            _ => Step::Pending(self, Request::PollReady),
        }
    }
}

/// The first step of a wait on a wired data-ready line.
pub open spec fn wait_start<S, P>() -> Step<WaitReady, (), S, P> {
    Step::Pending(WaitReady { polls: 0 }, Request::PollReady)
}

/// The answers of a data-ready line that was sampled without failure.
pub open spec fn sampled<S, P>(samples: Seq<bool>) -> Seq<Response<S, P>> {
    Seq::new(samples.len(), |i: int| Response::Sampled(Ok(samples[i])))
}

/// A wait on the data-ready line succeeds with the first active sample. As
/// long as the samples are inactive it samples again, up to the first
/// attempt and all its retries; when the last of these is inactive too, and
/// not before, it fails with a timeout.
pub proof fn lemma_wait_for_ready<S, P>(samples: Seq<bool>)
    requires
        1 <= samples.len() <= READY_RETRIES + 1,
        forall|i: int| 0 <= i < samples.len() - 1 ==> !samples[i],
    ensures
        run(wait_start::<S, P>(), sampled(samples)) == if samples.last() {
            Step::<WaitReady, (), S, P>::Finished(Ok(()))
        } else if samples.len() == READY_RETRIES + 1 {
            Step::<WaitReady, (), S, P>::Finished(Err(Error::DataReadyTimeoutError))
        } else {
            Step::<WaitReady, (), S, P>::Pending(
                WaitReady { polls: samples.len() as u32 },
                Request::PollReady,
            )
        },
    decreases samples.len(),
{
    let answers = sampled::<S, P>(samples);
    let earlier = samples.drop_last();
    assert(answers.drop_last() =~= sampled::<S, P>(earlier));
    assert(answers.last() == Response::<S, P>::Sampled(Ok(samples.last())));
    if samples.len() == 1 {
        assert(run(wait_start::<S, P>(), answers.drop_last()) == wait_start::<S, P>());
    } else {
        lemma_wait_for_ready::<S, P>(earlier);
        assert(!earlier.last());
    }
}

/// Reading the voltage between two pins in progress.
#[derive(Debug, PartialEq, Eq)]
pub enum ReadAdc1<S, P> {
    /// The positive input is being set. The negative input and the wiring of
    /// the data-ready line are kept for later.
    Positive(WriteBitfield<PositiveInpmux, S>, NegativeInpmux, bool),
    /// The negative input is being set.
    Negative(WriteBitfield<NegativeInpmux, S>, bool),
    /// The data-ready line is being watched.
    Waiting(WaitReady),
    /// The conversion that the line announced is being read.
    Reading(ReadData<S, P>),
    /// No data-ready line is wired: the status byte is being enabled.
    Enabling(WriteBitfield<StatusByte, S>),
    /// Conversions are being read until one is flagged as new. The number
    /// counts the conversions read so far, none of them new.
    Polling(ReadData<S, P>, u32),
}

impl<S, P> ReadAdc1<S, P> {
    /// The operation before anything was asked of the hardware.
    pub open spec fn initial(
        positive_pin: PositiveInpmux,
        negative_pin: NegativeInpmux,
        ready_wired: bool,
    ) -> ReadAdc1<S, P> {
        ReadAdc1::Positive(WriteBitfield::initial(positive_pin), negative_pin, ready_wired)
    }

    /// Begins a read of the voltage between two pins: the first transfer
    /// reads the input multiplexer's register.
    pub fn start(positive_pin: PositiveInpmux, negative_pin: NegativeInpmux, ready_wired: bool) -> (start:
        (ReadAdc1<S, P>, Request))
        ensures
            start == (
                ReadAdc1::<S, P>::initial(positive_pin, negative_pin, ready_wired),
                Request::Select(Level::Low),
            ),
    {
        let (write, request) = WriteBitfield::start(positive_pin);
        (ReadAdc1::Positive(write, negative_pin, ready_wired), request)
    }
}

impl<S, P> Operation<S, P> for ReadAdc1<S, P> {
    type Output = u32;

    open spec fn awaits(self) -> Request {
        match self {
            ReadAdc1::Positive(write, _, _) => Operation::<S, P>::awaits(write),
            ReadAdc1::Negative(write, _) => Operation::<S, P>::awaits(write),
            ReadAdc1::Waiting(wait) => Operation::<S, P>::awaits(wait),
            ReadAdc1::Reading(read) => Operation::<S, P>::awaits(read),
            ReadAdc1::Enabling(write) => Operation::<S, P>::awaits(write),
            ReadAdc1::Polling(read, _) => Operation::<S, P>::awaits(read),
        }
    }

    /// Both inputs are set, positive first. With a data-ready line the
    /// driver then waits on it and reads one conversion. Without one it
    /// enables the status byte and reads conversions until the status byte
    /// of one has the new-data flag, giving up with a timeout once the
    /// retries are used. The first failure ends the operation.
    open spec fn next(self, response: Response<S, P>) -> Step<Self, u32, S, P> {
        match self {
            ReadAdc1::Positive(write, negative_pin, ready_wired) => match write.next(response) {
                Step::Pending(write, request) => Step::Pending(
                    ReadAdc1::Positive(write, negative_pin, ready_wired),
                    request,
                ),
                Step::Finished(Ok(_)) => Step::Pending(
                    ReadAdc1::Negative(WriteBitfield::initial(negative_pin), ready_wired),
                    Request::Select(Level::Low),
                ),
                Step::Finished(Err(error)) => Step::Finished(Err(error)),
            },
            ReadAdc1::Negative(write, ready_wired) => match write.next(response) {
                Step::Pending(write, request) => Step::Pending(
                    ReadAdc1::Negative(write, ready_wired),
                    request,
                ),
                Step::Finished(Ok(_)) => if ready_wired {
                    Step::Pending(ReadAdc1::Waiting(WaitReady { polls: 0 }), Request::PollReady)
                } else {
                    Step::Pending(
                        ReadAdc1::Enabling(WriteBitfield::initial(StatusByte::ENABLED)),
                        Request::Select(Level::Low),
                    )
                },
                Step::Finished(Err(error)) => Step::Finished(Err(error)),
            },
            ReadAdc1::Waiting(wait) => match wait.next(response) {
                Step::Pending(wait, request) => Step::Pending(ReadAdc1::Waiting(wait), request),
                Step::Finished(Ok(_)) => Step::Pending(
                    ReadAdc1::Reading(ReadData::initial()),
                    Request::Select(Level::Low),
                ),
                Step::Finished(Err(error)) => Step::Finished(Err(error)),
            },
            ReadAdc1::Reading(read) => match read.next(response) {
                Step::Pending(read, request) => Step::Pending(ReadAdc1::Reading(read), request),
                Step::Finished(Ok(conversion)) => Step::Finished(Ok(conversion.1)),
                Step::Finished(Err(error)) => Step::Finished(Err(error)),
            },
            ReadAdc1::Enabling(write) => match write.next(response) {
                Step::Pending(write, request) => Step::Pending(ReadAdc1::Enabling(write), request),
                Step::Finished(Ok(_)) => Step::Pending(
                    ReadAdc1::Polling(ReadData::initial(), 0),
                    Request::Select(Level::Low),
                ),
                Step::Finished(Err(error)) => Step::Finished(Err(error)),
            },
            ReadAdc1::Polling(read, polls) => match read.next(response) {
                Step::Pending(read, request) => Step::Pending(
                    ReadAdc1::Polling(read, polls),
                    request,
                ),
                Step::Finished(Ok(conversion)) => if conversion.0 matches Some(status)
                    && is_new_data(status) {
                    Step::Finished(Ok(conversion.1))
                } else if polls >= READY_RETRIES {
                    Step::Finished(Err(Error::DataReadyTimeoutError))
                } else {
                    Step::Pending(
                        ReadAdc1::Polling(ReadData::initial(), (polls + 1) as u32),
                        Request::Select(Level::Low),
                    )
                },
                Step::Finished(Err(error)) => Step::Finished(Err(error)),
            },
        }
    }

    fn resume(self, response: Response<S, P>) -> Step<Self, u32, S, P> {
        match self {
            ReadAdc1::Positive(write, negative_pin, ready_wired) => match write.resume(response) {
                Step::Pending(write, request) => Step::Pending(
                    ReadAdc1::Positive(write, negative_pin, ready_wired),
                    request,
                ),
                Step::Finished(Ok(_)) => {
                    let (write, request) = WriteBitfield::start(negative_pin);
                    Step::Pending(ReadAdc1::Negative(write, ready_wired), request)
                },
                Step::Finished(Err(error)) => Step::Finished(Err(error)),
            },
            ReadAdc1::Negative(write, ready_wired) => match write.resume(response) {
                Step::Pending(write, request) => Step::Pending(
                    ReadAdc1::Negative(write, ready_wired),
                    request,
                ),
                Step::Finished(Ok(_)) => if ready_wired {
                    Step::Pending(ReadAdc1::Waiting(WaitReady { polls: 0 }), Request::PollReady)
                } else {
                    let (write, request) = WriteBitfield::start(StatusByte::ENABLED);
                    Step::Pending(ReadAdc1::Enabling(write), request)
                },
                Step::Finished(Err(error)) => Step::Finished(Err(error)),
            },
            ReadAdc1::Waiting(wait) => match wait.resume(response) {
                Step::Pending(wait, request) => Step::Pending(ReadAdc1::Waiting(wait), request),
                Step::Finished(Ok(_)) => {
                    let (read, request) = ReadData::start();
                    Step::Pending(ReadAdc1::Reading(read), request)
                },
                Step::Finished(Err(error)) => Step::Finished(Err(error)),
            },
            ReadAdc1::Reading(read) => match read.resume(response) {
                Step::Pending(read, request) => Step::Pending(ReadAdc1::Reading(read), request),
                Step::Finished(Ok(conversion)) => Step::Finished(Ok(conversion.1)),
                Step::Finished(Err(error)) => Step::Finished(Err(error)),
            },
            ReadAdc1::Enabling(write) => match write.resume(response) {
                Step::Pending(write, request) => Step::Pending(ReadAdc1::Enabling(write), request),
                Step::Finished(Ok(_)) => {
                    let (read, request) = ReadData::start();
                    Step::Pending(ReadAdc1::Polling(read, 0), request)
                },
                Step::Finished(Err(error)) => Step::Finished(Err(error)),
            },
            ReadAdc1::Polling(read, polls) => match read.resume(response) {
                Step::Pending(read, request) => Step::Pending(
                    ReadAdc1::Polling(read, polls),
                    request,
                ),
                Step::Finished(Ok(conversion)) => {
                    let fresh = match conversion.0 {
                        Some(status) => new_data(status),
                        None => false,
                    };
                    if fresh {
                        Step::Finished(Ok(conversion.1))
                    } else if polls >= READY_RETRIES {
                        Step::Finished(Err(Error::DataReadyTimeoutError))
                    } else {
                        let (read, request) = ReadData::start();
                        Step::Pending(ReadAdc1::Polling(read, polls + 1), request)
                    }
                },
                Step::Finished(Err(error)) => Step::Finished(Err(error)),
            },
        }
    }
}

/// The first step of a read of the voltage between two pins.
pub open spec fn adc1_start<S, P>(
    positive_pin: PositiveInpmux,
    negative_pin: NegativeInpmux,
    ready_wired: bool,
) -> Step<ReadAdc1<S, P>, u32, S, P> {
    Step::Pending(
        ReadAdc1::initial(positive_pin, negative_pin, ready_wired),
        Request::Select(Level::Low),
    )
}

/// A register byte with a field merged in.
pub open spec fn with_field<B: BitField>(field: B, current: u8) -> u8 {
    merged_byte(field.start_bit(), field.end_bit(), field.bits(), current)
}

/// Where a read of two pins stands once the positive input is set: the
/// multiplexer's register was read as `first` and written back.
pub open spec fn adc1_positive_set<S, P>(
    positive_pin: PositiveInpmux,
    negative_pin: NegativeInpmux,
    ready_wired: bool,
    first: Vec<u8>,
    echo: Vec<u8>,
) -> Step<ReadAdc1<S, P>, u32, S, P> {
    after_transfer(
        after_transfer(adc1_start(positive_pin, negative_pin, ready_wired), Ok(first), Ok(())),
        Ok(echo),
        Ok(()),
    )
}

/// A read of two pins begins by setting the positive input and then the
/// negative one, each by a read of the multiplexer's register and a write of
/// the value read with the input merged in. After that it samples the
/// data-ready line if one is wired, and begins to enable the status byte if
/// none is.
pub proof fn lemma_read_adc1_sets_inputs<S, P>(
    positive_pin: PositiveInpmux,
    negative_pin: NegativeInpmux,
    ready_wired: bool,
    first: Vec<u8>,
    second: Vec<u8>,
    echo: Vec<u8>,
)
    ensures
        ({
            let start = adc1_start::<S, P>(positive_pin, negative_pin, ready_wired);
            let read = after_transfer(start, Ok(first), Ok(()));
            let set = adc1_positive_set::<S, P>(
                positive_pin,
                negative_pin,
                ready_wired,
                first,
                echo,
            );
            let read_again = after_transfer(set, Ok(second), Ok(()));
            &&& transfers(start, Frame::ReadRegister(Register::INPMUX), Ok::<Vec<u8>, S>(first))
            &&& transfers(
                read,
                Frame::WriteRegister(Register::INPMUX, with_field(positive_pin, first@[2])),
                Ok::<Vec<u8>, S>(echo),
            )
            &&& transfers(set, Frame::ReadRegister(Register::INPMUX), Ok::<Vec<u8>, S>(second))
            &&& transfers(
                read_again,
                Frame::WriteRegister(Register::INPMUX, with_field(negative_pin, second@[2])),
                Ok::<Vec<u8>, S>(echo),
            )
            &&& after_transfer(read_again, Ok(echo), Ok(())) == if ready_wired {
                Step::<ReadAdc1<S, P>, u32, S, P>::Pending(
                    ReadAdc1::Waiting(WaitReady { polls: 0 }),
                    Request::PollReady,
                )
            } else {
                Step::<ReadAdc1<S, P>, u32, S, P>::Pending(
                    ReadAdc1::Enabling(WriteBitfield::initial(StatusByte::ENABLED)),
                    Request::Select(Level::Low),
                )
            }
        }),
{
}

/// A read of two pins that is watching the data-ready line.
pub open spec fn adc1_waiting<S, P>() -> Step<ReadAdc1<S, P>, u32, S, P> {
    Step::Pending(ReadAdc1::Waiting(WaitReady { polls: 0 }), Request::PollReady)
}

/// While a read of two pins watches the data-ready line it does what a wait
/// on that line does: with the first active sample it goes on to read the
/// conversion, and after the last retry it fails with a timeout.
pub proof fn lemma_read_adc1_waits<S, P>(samples: Seq<bool>)
    requires
        1 <= samples.len() <= READY_RETRIES + 1,
        forall|i: int| 0 <= i < samples.len() - 1 ==> !samples[i],
    ensures
        run(adc1_waiting::<S, P>(), sampled(samples)) == if samples.last() {
            Step::<ReadAdc1<S, P>, u32, S, P>::Pending(
                ReadAdc1::Reading(ReadData::initial()),
                Request::Select(Level::Low),
            )
        } else if samples.len() == READY_RETRIES + 1 {
            Step::<ReadAdc1<S, P>, u32, S, P>::Finished(Err(Error::DataReadyTimeoutError))
        } else {
            Step::<ReadAdc1<S, P>, u32, S, P>::Pending(
                ReadAdc1::Waiting(WaitReady { polls: samples.len() as u32 }),
                Request::PollReady,
            )
        },
    decreases samples.len(),
{
    let answers = sampled::<S, P>(samples);
    let earlier = samples.drop_last();
    assert(answers.drop_last() =~= sampled::<S, P>(earlier));
    assert(answers.last() == Response::<S, P>::Sampled(Ok(samples.last())));
    if samples.len() == 1 {
        assert(run(adc1_waiting::<S, P>(), answers.drop_last()) == adc1_waiting::<S, P>());
    } else {
        lemma_read_adc1_waits::<S, P>(earlier);
        assert(!earlier.last());
    }
}

/// A read of two pins that is about to read the conversion which the
/// data-ready line announced.
pub open spec fn adc1_reading<S, P>() -> Step<ReadAdc1<S, P>, u32, S, P> {
    Step::Pending(ReadAdc1::Reading(ReadData::initial()), Request::Select(Level::Low))
}

/// Once the data-ready line was active, a read of two pins reads one
/// conversion, in the shape that the INTERFACE register announces, and gives
/// its value.
pub proof fn lemma_read_adc1_reads<S, P>(interface: Vec<u8>, data: Vec<u8>)
    ensures
        ({
            let config = InterfaceConfig::of(interface@[2]);
            let configured = after_transfer(adc1_reading::<S, P>(), Ok(interface), Ok(()));
            &&& transfers(
                adc1_reading::<S, P>(),
                Frame::ReadRegister(Register::INTERFACE),
                Ok::<Vec<u8>, S>(interface),
            )
            &&& transfers(configured, Frame::ReadData(config), Ok::<Vec<u8>, S>(data))
            &&& after_transfer(configured, Ok(data), Ok(())) == Step::<
                ReadAdc1<S, P>,
                u32,
                S,
                P,
            >::Finished(
                match conversion_of::<S, P>(config, data@) {
                    Ok(conversion) => Ok(conversion.1),
                    Err(error) => Err(error),
                },
            )
        }),
{
}

/// A read of two pins, without a data-ready line, that is about to enable
/// the status byte.
pub open spec fn adc1_enabling<S, P>() -> Step<ReadAdc1<S, P>, u32, S, P> {
    Step::Pending(
        ReadAdc1::Enabling(WriteBitfield::initial(StatusByte::ENABLED)),
        Request::Select(Level::Low),
    )
}

/// A read of two pins, without a data-ready line, that is about to read a
/// conversion after `polls` conversions that were not new.
pub open spec fn adc1_polling<S, P>(polls: u32) -> Step<ReadAdc1<S, P>, u32, S, P> {
    Step::Pending(ReadAdc1::Polling(ReadData::initial(), polls), Request::Select(Level::Low))
}

/// Without a data-ready line, a read of two pins enables the status byte by
/// a read and a write of the INTERFACE register, and then reads conversions.
pub proof fn lemma_read_adc1_enables_status<S, P>(interface: Vec<u8>, echo: Vec<u8>)
    ensures
        ({
            let read = after_transfer(adc1_enabling::<S, P>(), Ok(interface), Ok(()));
            &&& transfers(
                adc1_enabling::<S, P>(),
                Frame::ReadRegister(Register::INTERFACE),
                Ok::<Vec<u8>, S>(interface),
            )
            &&& transfers(
                read,
                Frame::WriteRegister(
                    Register::INTERFACE,
                    with_field(StatusByte::ENABLED, interface@[2]),
                ),
                Ok::<Vec<u8>, S>(echo),
            )
            &&& after_transfer(read, Ok(echo), Ok(())) == adc1_polling::<S, P>(0)
        }),
{
}

/// Without a data-ready line, each conversion that a read of two pins reads
/// decides how it goes on. A conversion whose status byte has the new-data
/// flag ends the read with its value. One without the flag, or without a
/// status byte, is followed by another read, unless all retries are used:
/// the read of two pins fails with a timeout after the first attempt and
/// all its retries, and not before.
pub proof fn lemma_read_adc1_polls<S, P>(polls: u32, interface: Vec<u8>, data: Vec<u8>)
    ensures
        ({
            let config = InterfaceConfig::of(interface@[2]);
            let configured = after_transfer(adc1_polling::<S, P>(polls), Ok(interface), Ok(()));
            &&& transfers(
                adc1_polling::<S, P>(polls),
                Frame::ReadRegister(Register::INTERFACE),
                Ok::<Vec<u8>, S>(interface),
            )
            &&& transfers(configured, Frame::ReadData(config), Ok::<Vec<u8>, S>(data))
            &&& after_transfer(configured, Ok(data), Ok(())) == match conversion_of::<S, P>(
                config,
                data@,
            ) {
                Ok(conversion) => if conversion.0 matches Some(status) && is_new_data(status) {
                    Step::<ReadAdc1<S, P>, u32, S, P>::Finished(Ok(conversion.1))
                } else if polls >= READY_RETRIES {
                    Step::<ReadAdc1<S, P>, u32, S, P>::Finished(Err(Error::DataReadyTimeoutError))
                } else {
                    adc1_polling::<S, P>((polls + 1) as u32)
                },
                Err(error) => Step::<ReadAdc1<S, P>, u32, S, P>::Finished(Err(error)),
            }
        }),
{
}

} // verus!
