//! The boundary between the driver and the hardware: what the driver asks
//! for, what the hardware answers, and the chip-select framing that wraps
//! every transfer.

use vstd::prelude::*;
use crate::frame::Frame;
use crate::Error;

verus! {

/// A logic level of the chip-select line. The device listens while it is low.
#[derive(Clone, Copy, Debug, PartialEq, Eq, Structural)]
pub enum Level {
    Low,
    High,
}

/// One thing the driver asks of the hardware.
#[derive(Clone, Copy, Debug, PartialEq, Eq, Structural)]
pub enum Request {
    /// Drive the chip-select line to a level.
    Select(Level),
    /// Exchange the frame's bytes with the device, full duplex.
    Transfer(Frame),
    /// Sample the data-ready line.
    PollReady,
    /// Wait for a number of milliseconds.
    Delay(u32),
}

/// The hardware's answer to one request.
#[derive(Debug, PartialEq, Eq)]
pub enum Response<S, P> {
    /// The chip-select line was driven, or failed.
    Selected(Result<(), P>),
    /// The bytes received during a transfer, or the bus's failure.
    Transferred(Result<Vec<u8>, S>),
    /// Whether the data-ready line is active (low), or the line's failure.
    Sampled(Result<bool, P>),
    /// The delay has passed.
    Delayed,
}

impl<S, P> Response<S, P> {
    /// Whether this is an answer to the request: of its kind, and, for a
    /// transfer that went through, as long as what was sent.
    pub open spec fn answers(self, request: Request) -> bool {
        match request {
            Request::Select(_) => self is Selected,
            Request::Transfer(frame) => match self {
                Response::Transferred(Ok(rx)) => rx@.len() == frame.wire().len(),
                Response::Transferred(Err(_)) => true,
                _ => false,
            },
            Request::PollReady => self is Sampled,
            Request::Delay(_) => self is Delayed,
        }
    }

    /// Whether this is an answer to the request.
    pub fn is_answer_to(&self, request: &Request) -> (fits: bool)
        ensures
            fits == self.answers(*request),
    {
        match request {
            Request::Select(_) => match self {
                Response::Selected(_) => true,
                _ => false,
            },
            Request::Transfer(frame) => match self {
                Response::Transferred(Ok(rx)) => rx.len() == frame.len(),
                Response::Transferred(Err(_)) => true,
                _ => false,
            },
            Request::PollReady => match self {
                Response::Sampled(_) => true,
                _ => false,
            },
            Request::Delay(_) => match self {
                Response::Delayed => true,
                _ => false,
            },
        }
    }
}

/// Where an operation stands after a step: waiting for the answer to a
/// request, or finished with its result.
#[derive(Debug, PartialEq, Eq)]
pub enum Step<M, T, S, P> {
    Pending(M, Request),
    Finished(Result<T, Error<S, P>>),
}

/// An operation in progress. It always has one request outstanding and moves
/// on when it is resumed with the answer.
pub trait Operation<S, P>: Sized {
    /// What the operation yields when it succeeds.
    type Output;

    /// The request whose answer the operation is waiting for.
    spec fn awaits(self) -> Request;

    /// Where the operation stands once the hardware has given an answer. An
    /// answer of a kind that the outstanding request never gets changes
    /// nothing: the request stands.
    spec fn next(self, response: Response<S, P>) -> Step<Self, Self::Output, S, P>;

    /// Takes the answer to the outstanding request and moves on. The answer
    /// must be one to that request; `Response::is_answer_to` tells.
    fn resume(self, response: Response<S, P>) -> (step: Step<Self, Self::Output, S, P>)
        requires
            response.answers(self.awaits()),
        ensures
            step == self.next(response),
            step matches Step::Pending(operation, request) ==> operation.awaits() == request,
    ;
}

impl<M, T, S, P> Step<M, T, S, P> {
    /// The request that is outstanding, if the operation has not finished.
    pub open spec fn request(self) -> Option<Request> {
        match self {
            Step::Pending(_, request) => Some(request),
            Step::Finished(_) => None,
        }
    }
}

/// Where an operation stands after one more answer. A finished operation
/// stays finished.
pub open spec fn after_answer<M: Operation<S, P>, S, P>(
    step: Step<M, M::Output, S, P>,
    answer: Response<S, P>,
) -> Step<M, M::Output, S, P> {
    match step {
        Step::Pending(operation, _) => operation.next(answer),
        Step::Finished(_) => step,
    }
}

/// Where an operation stands after the hardware has given these answers in
/// turn.
pub open spec fn run<M: Operation<S, P>, S, P>(
    step: Step<M, M::Output, S, P>,
    answers: Seq<Response<S, P>>,
) -> Step<M, M::Output, S, P>
    decreases answers.len(),
{
    if answers.len() == 0 {
        step
    } else {
        after_answer(run(step, answers.drop_last()), answers.last())
    }
}

/// The operation's next three requests are one framed transfer of the frame:
/// select the device, exchange the frame, and, whatever the bus did, release
/// the device.
pub open spec fn transfers<M: Operation<S, P>, S, P>(
    step: Step<M, M::Output, S, P>,
    frame: Frame,
    outcome: Result<Vec<u8>, S>,
) -> bool {
    &&& step.request() == Some(Request::Select(Level::Low))
    &&& after_answer(step, Response::Selected(Ok(()))).request() == Some(Request::Transfer(frame))
    &&& after_answer(after_answer(step, Response::Selected(Ok(()))), Response::Transferred(outcome)).request()
        == Some(Request::Select(Level::High))
}

/// Where an operation stands after one framed transfer: the device was
/// selected, the bus gave `outcome`, and releasing the device gave `released`.
pub open spec fn after_transfer<M: Operation<S, P>, S, P>(
    step: Step<M, M::Output, S, P>,
    outcome: Result<Vec<u8>, S>,
    released: Result<(), P>,
) -> Step<M, M::Output, S, P> {
    after_answer(
        after_answer(after_answer(step, Response::Selected(Ok(()))), Response::Transferred(outcome)),
        Response::Selected(released),
    )
}

/// The answer to a request of a framed transfer, its received bytes already
/// read as what the transfer was for.
pub enum Signal<T, S, P> {
    Selected(Result<(), P>),
    Transferred(Result<T, S>),
    /// An answer to something a transfer never asks.
    Stray,
}

/// A framed transfer in progress: select the device, exchange one frame,
/// release the device.
#[derive(Debug, PartialEq, Eq)]
pub enum Exchange<T, S> {
    /// The select line is being driven low.
    Selecting,
    /// The device is selected and the frame is on the bus.
    Transferring,
    /// The transfer is over, with what it gave or how it failed, and the
    /// select line is being driven high.
    Releasing(Result<T, S>),
}

impl<T, S> Exchange<T, S> {
    /// The request that the transfer of a frame has outstanding.
    pub open spec fn awaits(self, frame: Frame) -> Request {
        match self {
            Exchange::Selecting => Request::Select(Level::Low),
            Exchange::Transferring => Request::Transfer(frame),
            Exchange::Releasing(_) => Request::Select(Level::High),
        }
    }

    /// The framing rule. A failure to select ends the transfer before any
    /// byte moves. Once the device is selected it is released whatever the
    /// bus did, and the outcome is reported after that: the bus's failure if
    /// there was one, else the select line's, else what was received. A
    /// stray answer changes nothing.
    pub open spec fn next<P>(self, frame: Frame, signal: Signal<T, S, P>) -> Step<
        Exchange<T, S>,
        T,
        S,
        P,
    > {
        match (self, signal) {
            (Exchange::Selecting, Signal::Selected(Ok(_))) => Step::Pending(
                Exchange::Transferring,
                Request::Transfer(frame),
            ),
            (Exchange::Selecting, Signal::Selected(Err(fault))) => Step::Finished(
                Err(Error::PinError(fault)),
            ),
            (Exchange::Transferring, Signal::Transferred(outcome)) => Step::Pending(
                Exchange::Releasing(outcome),
                Request::Select(Level::High),
            ),
            (Exchange::Releasing(Err(fault)), Signal::Selected(_)) => Step::Finished(
                Err(Error::SpiError(fault)),
            ),
            (Exchange::Releasing(Ok(_)), Signal::Selected(Err(fault))) => Step::Finished(
                Err(Error::PinError(fault)),
            ),
            (Exchange::Releasing(Ok(received)), Signal::Selected(Ok(_))) => Step::Finished(
                Ok(received),
            ),
            (waiting, _) => Step::Pending(waiting, waiting.awaits(frame)),
        }
    }

    /// Begins a transfer: the first request is to select the device.
    pub fn begin() -> (start: (Exchange<T, S>, Request))
        ensures
            start == (Exchange::<T, S>::Selecting, Request::Select(Level::Low)),
    {
        (Exchange::Selecting, Request::Select(Level::Low))
    }

    /// Moves the transfer of a frame on by one answer.
    pub fn advance<P>(self, frame: Frame, signal: Signal<T, S, P>) -> (step: Step<
        Exchange<T, S>,
        T,
        S,
        P,
    >)
        ensures
            step == self.next(frame, signal),
            step matches Step::Pending(exchange, request) ==> exchange.awaits(frame) == request,
    {
        match self {
            Exchange::Selecting => match signal {
                Signal::Selected(Ok(_)) => Step::Pending(
                    Exchange::Transferring,
                    Request::Transfer(frame),
                ),
                Signal::Selected(Err(fault)) => Step::Finished(Err(Error::PinError(fault))),
                _ => Step::Pending(Exchange::Selecting, Request::Select(Level::Low)),
            },
            Exchange::Transferring => match signal {
                Signal::Transferred(outcome) => Step::Pending(
                    Exchange::Releasing(outcome),
                    Request::Select(Level::High),
                ),
                _ => Step::Pending(Exchange::Transferring, Request::Transfer(frame)),
            },
            Exchange::Releasing(outcome) => match signal {
                Signal::Selected(released) => match outcome {
                    Err(fault) => Step::Finished(Err(Error::SpiError(fault))),
                    Ok(received) => match released {
                        Err(fault) => Step::Finished(Err(Error::PinError(fault))),
                        Ok(_) => Step::Finished(Ok(received)),
                    },
                },
                _ => Step::Pending(Exchange::Releasing(outcome), Request::Select(Level::High)),
            },
        }
    }
}

} // verus!
