//! The requests the console sends its host over the serial line, each a
//! one-byte code.

use vstd::prelude::*;

verus! {

#[derive(Clone, Copy, PartialEq, Eq, Structural, Debug)]
pub enum SerialRequest {
    Active,
    SaveState,
    LoadState,
    SaveRAM,
    LoadRAM,
    PlaySound,
}

/// The request a code stands for; codes 0 and 6 and those above 7 stand
/// for none.
pub open spec fn spec_request_of(code: u8) -> Option<SerialRequest> {
    if code == 1 {
        Some(SerialRequest::Active)
    } else if code == 2 {
        Some(SerialRequest::SaveState)
    } else if code == 3 {
        Some(SerialRequest::LoadState)
    } else if code == 4 {
        Some(SerialRequest::SaveRAM)
    } else if code == 5 {
        Some(SerialRequest::LoadRAM)
    } else if code == 7 {
        Some(SerialRequest::PlaySound)
    } else {
        None
    }
}

impl SerialRequest {
    pub open spec fn spec_code(self) -> u8 {
        match self {
            SerialRequest::Active => 1,
            SerialRequest::SaveState => 2,
            SerialRequest::LoadState => 3,
            SerialRequest::SaveRAM => 4,
            SerialRequest::LoadRAM => 5,
            SerialRequest::PlaySound => 7,
        }
    }

    /// The byte sent for the request.
    pub fn code(&self) -> (r: u8)
        ensures
            r == self.spec_code(),
    {
        match self {
            SerialRequest::Active => 1,
            SerialRequest::SaveState => 2,
            SerialRequest::LoadState => 3,
            SerialRequest::SaveRAM => 4,
            SerialRequest::LoadRAM => 5,
            SerialRequest::PlaySound => 7,
        }
    }

    /// The request a received byte stands for, if any.
    pub fn from_code(code: u8) -> (r: Option<SerialRequest>)
        ensures
            r == spec_request_of(code),
    {
        match code {
            1 => Some(SerialRequest::Active),
            2 => Some(SerialRequest::SaveState),
            3 => Some(SerialRequest::LoadState),
            4 => Some(SerialRequest::SaveRAM),
            5 => Some(SerialRequest::LoadRAM),
            7 => Some(SerialRequest::PlaySound),
            _ => None,
        }
    }
}

/// Each request is read back from its code, and a code that stands for a
/// request is that request's code.
pub proof fn lemma_request_code_roundtrip(q: SerialRequest, code: u8)
    ensures
        spec_request_of(q.spec_code()) == Some(q),
        spec_request_of(code) matches Some(p) ==> p.spec_code() == code,
{
}

} // verus!
