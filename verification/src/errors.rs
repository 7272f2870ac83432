use vstd::prelude::*;

verus! {

/// Why an operation on the reader did not deliver its result.
#[derive(Clone, Copy, Debug, PartialEq, Eq, Structural)]
pub enum RFIDError {
    /// The serial transport failed.
    CommunicationError,
    /// The chip did not raise the awaited flag within the polling bound, or
    /// the cards kept colliding beyond the retry bound.
    Timeout,
    /// The answer is too short; or an answer-to-request is all zero; or a
    /// select acknowledge on the third cascade level has the cascade bit set,
    /// where no level follows; or a number that should name a cascade level
    /// is not 1, 2 or 3.
    InvalidResponse,
    /// The checksum of a select acknowledge does not match.
    CrcError,
    /// The buffer offered for the answer is too small.
    NoRoom,
    /// A collision was reported without a position to retry from.
    Collision,
}

impl RFIDError {
    /// The text that stands for the error in a log or on a console.
    pub open spec fn name_of(self) -> Seq<char> {
        match self {
            RFIDError::CommunicationError => "CommunicationError"@,
            RFIDError::Timeout => "Timeout"@,
            RFIDError::InvalidResponse => "InvalidResponse"@,
            RFIDError::CrcError => "CrcError"@,
            RFIDError::NoRoom => "No room or we"@,
            RFIDError::Collision => "Collision i guess"@,
        }
    }

    /// Gives the text that stands for the error in a log or on a console.
    /// Four kinds go by the name of their variant; a lack of room reads
    /// `No room or we`, and a collision reads `Collision i guess`.
    pub fn name(&self) -> (text: &'static str)
        ensures
            text@ == self.name_of(),
    {
        match self {
            RFIDError::CommunicationError => "CommunicationError",
            RFIDError::Timeout => "Timeout",
            RFIDError::InvalidResponse => "InvalidResponse",
            RFIDError::CrcError => "CrcError",
            RFIDError::NoRoom => "No room or we",
            RFIDError::Collision => "Collision i guess",
        }
    }
}

} // verus!
