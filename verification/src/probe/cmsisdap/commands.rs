//! The commands of CMSIS-DAP: how each request is laid out in bytes, and how
//! the bytes of its response are read.

pub mod general;
pub mod swj;

use vstd::prelude::*;

verus! {

/// The byte that names a command on the wire.
pub type Category = u8;

/// Why a command could not be sent, or its response not be read.
#[derive(Clone, Copy, Debug, PartialEq, Eq, Structural)]
pub enum SendError {
    /// The buffer has no room for the request.
    NotEnoughSpace,
    /// The response says something that the command has no meaning for.
    UnexpectedAnswer,
}

/// Whether the probe carried a command out.
#[derive(Clone, Copy, Debug, PartialEq, Eq, Structural)]
pub enum Status {
    /// The command was carried out.
    DAPOk,
    /// The command failed.
    DAPError,
}

impl Status {
    /// The status that the byte `value` of a response stands for: 0x00 is
    /// success and 0xFF is failure; no other byte is a status.
    pub open spec fn spec_from_byte(value: u8) -> Result<Status, SendError> {
        if value == 0x00 {
            Ok(Status::DAPOk)
        } else if value == 0xFF {
            Ok(Status::DAPError)
        } else {
            Err(SendError::UnexpectedAnswer)
        }
    }

    /// Reads the status byte of a response.
    #[verifier::when_used_as_spec(spec_from_byte)]
    pub fn from_byte(value: u8) -> (status: Result<Status, SendError>)
        ensures
            status == Self::spec_from_byte(value),
    {
        match value {
            0x00 => Ok(Status::DAPOk),
            0xFF => Ok(Status::DAPError),
            _ => Err(SendError::UnexpectedAnswer),
        }
    }
}

/// A command: a request that is laid out in a buffer after its category
/// byte, and a response that is read from the bytes after the category byte.
pub trait Request {
    /// The byte that names the command.
    const CATEGORY: Category;

    /// What the response to the command holds.
    type Response;

    /// The bytes of the request.
    spec fn payload(&self) -> Seq<u8>;

    /// What the bytes `buffer` of a response say.
    spec fn response(&self, buffer: Seq<u8>) -> Result<Self::Response, SendError>;

    /// Lays the request out at the start of `buffer` and gives its length.
    /// The rest of `buffer` is left as it is.
    fn to_bytes(&self, buffer: &mut [u8]) -> (written: Result<usize, SendError>)
        requires
            old(buffer)@.len() >= self.payload().len(),
        ensures
            written == Ok::<usize, SendError>(self.payload().len() as usize),
            final(buffer)@ == self.payload() + old(buffer)@.skip(self.payload().len() as int),
    ;

    /// Reads the response from `buffer`.
    fn from_bytes(&self, buffer: &[u8]) -> (response: Result<Self::Response, SendError>)
        requires
            buffer@.len() >= 1,
        ensures
            response == self.response(buffer@),
    ;
}

} // verus!
