//! The command that takes the probe off the target.

use crate::probe::cmsisdap::commands::{Category, Request, SendError, Status};
use vstd::prelude::*;

verus! {

/// The request to disconnect. It has no payload.
#[derive(Clone, Copy, Debug, PartialEq, Eq, Structural)]
pub struct DisconnectRequest;

/// The response to a request to disconnect: whether the probe did.
#[derive(Clone, Copy, Debug, PartialEq, Eq, Structural)]
pub struct DisconnectResponse(pub Status);

impl Request for DisconnectRequest {
    const CATEGORY: Category = 0x03;

    type Response = DisconnectResponse;

    open spec fn payload(&self) -> Seq<u8> {
        Seq::empty()
    }

    open spec fn response(&self, buffer: Seq<u8>) -> Result<DisconnectResponse, SendError> {
        match Status::from_byte(buffer[0]) {
            Ok(status) => Ok(DisconnectResponse(status)),
            Err(error) => Err(error),
        }
    }

    fn to_bytes(&self, buffer: &mut [u8]) -> (written: Result<usize, SendError>) {
        assert(buffer@.skip(0) =~= buffer@);
        assert(Seq::<u8>::empty() + buffer@ =~= buffer@);
        Ok(0)
    }

    fn from_bytes(&self, buffer: &[u8]) -> (response: Result<DisconnectResponse, SendError>) {
        Ok(DisconnectResponse(Status::from_byte(buffer[0])?))
    }
}

} // verus!
