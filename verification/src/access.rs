//! Read-modify-write of one configuration field: the owning register is read,
//! the field is merged into the value, and the value is written back.

use vstd::prelude::*;
use crate::bus::{Level, Operation, Request, Response, Step, after_transfer, transfers};
use crate::frame::Frame;
use crate::register::bitfield::{field_mask, lemma_merge_preserves_outside};
use crate::Error;
use crate::register::bitfield::{BitField, merged_byte};
use crate::transfer::{RegisterRead, RegisterWrite};

verus! {

/// Setting one configuration field in progress.
#[derive(Debug, PartialEq, Eq)]
pub enum WriteBitfield<B, S> {
    /// The field's register is being read.
    Reading(B, RegisterRead<S>),
    /// The merged value is being written back.
    Writing(B, RegisterWrite<S>),
}

impl<B: BitField, S> WriteBitfield<B, S> {
    /// The operation before anything was asked of the hardware.
    pub open spec fn initial(field: B) -> WriteBitfield<B, S> {
        WriteBitfield::Reading(field, RegisterRead::initial(field.owner()))
    }

    /// Begins setting a field: the first transfer reads the field's register.
    pub fn start(field: B) -> (start: (WriteBitfield<B, S>, Request))
        ensures
            start == (WriteBitfield::<B, S>::initial(field), Request::Select(Level::Low)),
    {
        let (read, request) = RegisterRead::start(field.register());
        (WriteBitfield::Reading(field, read), request)
    }
}

impl<B: BitField, S, P> Operation<S, P> for WriteBitfield<B, S> {
    type Output = ();

    open spec fn awaits(self) -> Request {
        match self {
            WriteBitfield::Reading(_, read) => Operation::<S, P>::awaits(read),
            WriteBitfield::Writing(_, write) => Operation::<S, P>::awaits(write),
        }
    }

    open spec fn next(self, response: Response<S, P>) -> Step<Self, (), S, P> {
        match self {
            WriteBitfield::Reading(field, read) => match read.next(response) {
                Step::Pending(read, request) => Step::Pending(
                    WriteBitfield::Reading(field, read),
                    request,
                ),
                Step::Finished(Ok(current)) => Step::Pending(
                    WriteBitfield::Writing(
                        field,
                        RegisterWrite::initial(
                            field.owner(),
                            merged_byte(field.start_bit(), field.end_bit(), field.bits(), current),
                        ),
                    ),
                    Request::Select(Level::Low),
                ),
                Step::Finished(Err(error)) => Step::Finished(Err(error)),
            },
            WriteBitfield::Writing(field, write) => match write.next(response) {
                Step::Pending(write, request) => Step::Pending(
                    WriteBitfield::Writing(field, write),
                    request,
                ),
                Step::Finished(outcome) => Step::Finished(outcome),
            },
        }
    }

    fn resume(self, response: Response<S, P>) -> Step<Self, (), S, P> {
        match self {
            WriteBitfield::Reading(field, read) => match read.resume(response) {
                Step::Pending(read, request) => Step::Pending(
                    WriteBitfield::Reading(field, read),
                    request,
                ),
                Step::Finished(Ok(current)) => {
                    let merged = field.merge_into(current);
                    let (write, request) = RegisterWrite::start(field.register(), merged);
                    Step::Pending(WriteBitfield::Writing(field, write), request)
                },
                Step::Finished(Err(error)) => Step::Finished(Err(error)),
            },
            WriteBitfield::Writing(field, write) => match write.resume(response) {
                Step::Pending(write, request) => Step::Pending(
                    WriteBitfield::Writing(field, write),
                    request,
                ),
                Step::Finished(outcome) => Step::Finished(outcome),
            },
        }
    }
}

/// The first step of setting a field.
pub open spec fn field_start<B: BitField, S, P>(field: B) -> Step<WriteBitfield<B, S>, (), S, P> {
    Step::Pending(WriteBitfield::initial(field), Request::Select(Level::Low))
}

/// Setting a field is two framed transfers: a read of the field's register,
/// and a write of the value read with the field merged in, which differs
/// from the value read only inside the field's mask. If the read fails,
/// nothing is written.
pub proof fn lemma_write_bitfield<B: BitField, S, P>(
    field: B,
    current: Vec<u8>,
    released: Result<(), P>,
    outcome: Result<Vec<u8>, S>,
    bus_fault: S,
    pin_fault: P,
)
    ensures
        transfers(
            field_start::<B, S, P>(field),
            Frame::ReadRegister(field.owner()),
            Ok::<Vec<u8>, S>(current),
        ),
        after_transfer(field_start::<B, S, P>(field), Err(bus_fault), released) == Step::<
            WriteBitfield<B, S>,
            (),
            S,
            P,
        >::Finished(Err(Error::SpiError(bus_fault))),
        after_transfer(field_start::<B, S, P>(field), Ok(current), Err(pin_fault)) == Step::<
            WriteBitfield<B, S>,
            (),
            S,
            P,
        >::Finished(Err(Error::PinError(pin_fault))),
        ({
            let merged = merged_byte(field.start_bit(), field.end_bit(), field.bits(), current@[2]);
            let mask = field_mask(field.start_bit(), field.end_bit());
            let read = after_transfer(field_start::<B, S, P>(field), Ok(current), Ok(()));
            &&& merged & !mask == current@[2] & !mask
            &&& merged & mask == field.bits() << field.start_bit()
            &&& transfers(read, Frame::WriteRegister(field.owner(), merged), outcome)
            &&& after_transfer(read, outcome, released) == Step::<
                WriteBitfield<B, S>,
                (),
                S,
                P,
            >::Finished(
                match (outcome, released) {
                    (Err(fault), _) => Err(Error::SpiError(fault)),
                    (Ok(_), Err(fault)) => Err(Error::PinError(fault)),
                    (Ok(_), Ok(_)) => Ok(()),
                },
            )
        }),
{
    lemma_merge_preserves_outside(field, current@[2]);
}

} // verus!
