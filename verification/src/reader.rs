//! The way to read a device, and what is asked and answered on it.

use crate::error::{DogiError, ErrorKind};
use vstd::prelude::*;

verus! {

/// What reads a device. Nothing is claimed of what it answers.
pub trait DeviceReader {
    /// Asks the device at an index, with a function and these bytes.
    fn read(&mut self, index: u8, function: u8, payload: &[u8]) -> Result<Vec<u8>, DogiError>;
}

/// A question to a device, and the answer to it.
#[verifier::ext_equal]
pub struct Exchange {
    pub index: u8,
    pub function: u8,
    pub payload: Seq<u8>,
    pub reply: Result<Seq<u8>, (ErrorKind, Seq<char>)>,
}

impl Exchange {
    /// Whether this is what was asked.
    pub open spec fn asks(self, index: u8, function: u8, payload: Seq<u8>) -> bool {
        self.index == index && self.function == function && self.payload == payload
    }
}

/// What an answer says.
pub open spec fn reply_view(reply: Result<Vec<u8>, DogiError>) -> Result<
    Seq<u8>,
    (ErrorKind, Seq<char>),
> {
    match reply {
        Ok(bytes) => Ok(bytes@),
        Err(error) => Err(error@),
    }
}

}
