//! The command that sets the clock of the SWD and JTAG pins.

use crate::bytes::le_bytes;
use crate::probe::cmsisdap::commands::{Category, Request, SendError, Status};
use scroll::Pwrite;
use vstd::prelude::*;

verus! {

/// The request to clock the pins at a frequency, in Hz. Its payload is the
/// frequency, least significant byte first.
#[derive(Clone, Copy, Debug, PartialEq, Eq, Structural)]
pub struct SWJClockRequest(pub u32);

/// The response to a request to set the clock: whether the probe did.
#[derive(Clone, Copy, Debug, PartialEq, Eq, Structural)]
pub struct SWJClockResponse(pub Status);

#[verifier::external_type_specification]
#[verifier::external_body]
pub struct ExScrollError(scroll::Error);

/// `scroll::Pwrite::pwrite_with` for a `u32` in little-endian order on a
/// byte slice.
///
/// Where `buffer` has four bytes from `offset` on, they become the bytes of
/// `value`, least significant first, the rest of `buffer` stays, and the
/// result is the four bytes written. Where it has not, `buffer` stays as it
/// is and the result is an error.
#[verifier::external_body]
fn pwrite_u32_le(buffer: &mut [u8], value: u32, offset: usize) -> (written: Result<
    usize,
    scroll::Error,
>)
    ensures
        final(buffer)@.len() == old(buffer)@.len(),
        match written {
            Ok(size) => {
                &&& size == 4
                &&& offset + 4 <= old(buffer)@.len()
                &&& final(buffer)@ == old(buffer)@.subrange(0, offset as int) + le_bytes(value)
                    + old(buffer)@.skip(offset + 4)
            },
            Err(_) => offset + 4 > old(buffer)@.len() && final(buffer)@ == old(buffer)@,
        },
{
    buffer.pwrite_with(value, offset, scroll::LE)
}

impl Request for SWJClockRequest {
    const CATEGORY: Category = 0x11;

    type Response = SWJClockResponse;

    open spec fn payload(&self) -> Seq<u8> {
        le_bytes(self.0)
    }

    open spec fn response(&self, buffer: Seq<u8>) -> Result<SWJClockResponse, SendError> {
        match Status::from_byte(buffer[0]) {
            Ok(status) => Ok(SWJClockResponse(status)),
            Err(error) => Err(error),
        }
    }

    fn to_bytes(&self, buffer: &mut [u8]) -> (written: Result<usize, SendError>) {
        match pwrite_u32_le(buffer, self.0, 0) {
            Ok(size) => {
                assert(buffer@ =~= le_bytes(self.0) + old(buffer)@.skip(4));
                Ok(size)
            },
            Err(_) => Err(SendError::NotEnoughSpace),
        }
    }

    fn from_bytes(&self, buffer: &[u8]) -> (response: Result<SWJClockResponse, SendError>) {
        Ok(SWJClockResponse(Status::from_byte(buffer[0])?))
    }
}

} // verus!
