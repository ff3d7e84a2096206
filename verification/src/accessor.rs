//! Reading and writing one register.
//!
//! The bus itself is not part of this crate. An access is therefore split in
//! two: a function that checks the register and frames the request to put on
//! the bus, and a function that takes what the bus answered and turns it into
//! the result of the access. Whoever owns the bus performs the transfer in
//! between, once, without retrying.

use vstd::prelude::*;
use crate::error::{Error, TransportError};
use crate::schema::{DescriptorView, RegisterDescriptor};
use crate::wire::{decode_word, encode_word, fits, le_bytes, raw_value};

verus! {

/// The bus address of one actuator. It is handed through as the caller gave it.
pub type DeviceId = u8;

/// A read to put on the bus: `length` bytes at `address` of `device`.
#[derive(Clone, Copy, Debug, PartialEq, Eq, Structural)]
pub struct ReadRequest {
    pub device: DeviceId,
    pub address: u16,
    pub length: u16,
}

/// A write to put on the bus: `bytes` at `address` of `device`.
#[derive(Clone, Debug, PartialEq, Eq)]
pub struct WriteRequest {
    pub device: DeviceId,
    pub address: u16,
    pub bytes: Vec<u8>,
}

/// Whether the converter of the register, if it has one, works on words of
/// the register's width.
pub open spec fn converter_agrees(register: DescriptorView) -> bool {
    match register.codec {
        Some(converter) => converter.spec_raw_width() == register.width,
        None => true,
    }
}

/// Checks that the converter of the register, if any, fits its width.
pub fn check_converter(register: &RegisterDescriptor) -> (result: Result<(), Error>)
    ensures
        converter_agrees(register@) ==> result == Ok::<(), Error>(()),
        !converter_agrees(register@) ==> result == Err::<(), Error>(Error::Domain),
{
    match register.codec() {
        Some(converter) => {
            if converter.raw_width() == register.width() {
                Ok(())
            } else {
                Err(Error::Domain)
            }
        },
        None => Ok(()),
    }
}

/// Frames the read of a register: exactly its width, at its address.
///
/// A register that may not be read gives `AccessViolation`; one whose
/// converter expects another width gives `Domain`. In both cases nothing is to
/// be put on the bus.
pub fn read_request(register: &RegisterDescriptor, device: DeviceId) -> (result: Result<
    ReadRequest,
    Error,
>)
    requires
        register.wf(),
    ensures
        !register@.access.allows_read() ==> result == Err::<ReadRequest, Error>(
            Error::AccessViolation,
        ),
        register@.access.allows_read() && !converter_agrees(register@) ==> result == Err::<
            ReadRequest,
            Error,
        >(Error::Domain),
        register@.access.allows_read() && converter_agrees(register@) ==> result == Ok::<
            ReadRequest,
            Error,
        >(
            (ReadRequest {
                device,
                address: register@.address as u16,
                length: register@.width as u16,
            }),
        ),
{
    if !register.access().can_read() {
        return Err(Error::AccessViolation);
    }
    match check_converter(register) {
        Ok(_) => Ok(
            ReadRequest { device, address: register.address(), length: register.width() as u16 },
        ),
        Err(e) => Err(e),
    }
}

/// Turns the answer to a register read into the raw value of the register:
/// the first `width` bytes of the buffer, read as a little-endian integer of
/// the register's signedness. A transport failure is passed on unchanged.
pub fn read_response(register: &RegisterDescriptor, response: Result<Vec<u8>, TransportError>) -> (result:
    Result<i64, Error>)
    requires
        register.wf(),
        response is Ok ==> response->Ok_0@.len() >= register@.width,
    ensures
        response is Err ==> result == Err::<i64, Error>(Error::Transport(response->Err_0)),
        response is Ok ==> result is Ok && result->Ok_0 == raw_value(
            response->Ok_0@.subrange(0, register@.width as int),
            register@.signed,
        ),
{
    match response {
        Ok(buffer) => Ok(
            decode_word(buffer.as_slice(), 0, register.width() as usize, register.is_signed()),
        ),
        Err(failure) => Err(Error::Transport(failure)),
    }
}

/// Frames the write of a raw value to a register: the value as `width`
/// little-endian bytes, at the register's address.
///
/// A register that may not be written gives `AccessViolation`; a converter
/// of another width, or a value that the register cannot hold, gives `Domain`.
/// In each of these cases nothing is to be put on the bus.
pub fn write_request(register: &RegisterDescriptor, device: DeviceId, raw: i64) -> (result: Result<
    WriteRequest,
    Error,
>)
    requires
        register.wf(),
    ensures
        !register@.access.allows_write() ==> result == Err::<WriteRequest, Error>(
            Error::AccessViolation,
        ),
        register@.access.allows_write() && !writable(register@, raw as int) ==> result == Err::<
            WriteRequest,
            Error,
        >(Error::Domain),
        register@.access.allows_write() && writable(register@, raw as int) ==> result is Ok && {
            &&& result->Ok_0.device == device
            &&& result->Ok_0.address == register@.address
            &&& result->Ok_0.bytes@ == le_bytes(raw as int, register@.width)
        },
{
    if !register.access().can_write() {
        return Err(Error::AccessViolation);
    }
    match check_converter(register) {
        Ok(_) => {},
        Err(e) => {
            return Err(e);
        },
    }
    match encode_word(raw, register.width() as usize, register.is_signed()) {
        Ok(bytes) => Ok(WriteRequest { device, address: register.address(), bytes }),
        Err(e) => Err(e),
    }
}

/// Whether `raw` can be written to the register as far as its value goes: the
/// converter agrees with the width and the value fits the register.
pub open spec fn writable(register: DescriptorView, raw: int) -> bool {
    converter_agrees(register) && fits(raw, register.width, register.signed)
}

/// Turns the answer to a register write into the result of the access. A
/// transport failure is passed on unchanged.
pub fn write_response(response: Result<(), TransportError>) -> (result: Result<(), Error>)
    ensures
        response is Ok ==> result == Ok::<(), Error>(()),
        response is Err ==> result == Err::<(), Error>(Error::Transport(response->Err_0)),
{
    match response {
        Ok(_) => Ok(()),
        Err(failure) => Err(Error::Transport(failure)),
    }
}

} // verus!
