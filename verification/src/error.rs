//! The closed set of failures a claim can end in, and their numeric codes.

use vstd::prelude::*;

verus! {

/// A business failure of the registry. The host reports it by its code.
/// The names date from a time when the handler counted ballots.
#[derive(Clone, Copy, Debug, PartialEq, Eq, Structural)]
pub enum VoteError {
    /// A candidate selector that is neither 1 nor 2.
    UnexpectedCandidate,
    /// The counter or the claim record does not belong to the handler.
    IncorrectOwner,
    /// The claim record does not hold the balance that keeps it for ever.
    AccountNotRentExempt,
    /// The claim record is not the one that belongs to the name.
    AccountNotCheckAccount,
    /// The name has been claimed before.
    AlreadyVoted,
}

impl VoteError {
    /// The code of each failure: its position in the declaration, from 0.
    pub open spec fn spec_code(self) -> u32 {
        match self {
            VoteError::UnexpectedCandidate => 0,
            VoteError::IncorrectOwner => 1,
            VoteError::AccountNotRentExempt => 2,
            VoteError::AccountNotCheckAccount => 3,
            VoteError::AlreadyVoted => 4,
        }
    }

    /// The failure that a code stands for, if it stands for one.
    pub open spec fn spec_from_code(code: u32) -> Option<VoteError> {
        if code == 0 {
            Some(VoteError::UnexpectedCandidate)
        } else if code == 1 {
            Some(VoteError::IncorrectOwner)
        } else if code == 2 {
            Some(VoteError::AccountNotRentExempt)
        } else if code == 3 {
            Some(VoteError::AccountNotCheckAccount)
        } else if code == 4 {
            Some(VoteError::AlreadyVoted)
        } else {
            None
        }
    }

    /// The stable code under which the host reports this failure.
    pub fn code(&self) -> (c: u32)
        ensures
            c == self.spec_code(),
    {
        match self {
            VoteError::UnexpectedCandidate => 0,
            VoteError::IncorrectOwner => 1,
            VoteError::AccountNotRentExempt => 2,
            VoteError::AccountNotCheckAccount => 3,
            VoteError::AlreadyVoted => 4,
        }
    }

    /// Reads a code back into the failure it stands for.
    pub fn from_code(code: u32) -> (e: Option<VoteError>)
        ensures
            e == Self::spec_from_code(code),
    {
        if code == 0 {
            Some(VoteError::UnexpectedCandidate)
        } else if code == 1 {
            Some(VoteError::IncorrectOwner)
        } else if code == 2 {
            Some(VoteError::AccountNotRentExempt)
        } else if code == 3 {
            Some(VoteError::AccountNotCheckAccount)
        } else if code == 4 {
            Some(VoteError::AlreadyVoted)
        } else {
            None
        }
    }

    /// The text shown for this failure.
    pub fn message(&self) -> (text: &'static str)
        ensures
            text@ == match *self {
                VoteError::UnexpectedCandidate => "Unexpected Candidate"@,
                VoteError::IncorrectOwner => "Incorrect Owner"@,
                VoteError::AccountNotRentExempt => "Account Not Rent Exempt"@,
                VoteError::AccountNotCheckAccount => "Account Not Check Account"@,
                VoteError::AlreadyVoted => "Already Voted"@,
            },
    {
        match self {
            VoteError::UnexpectedCandidate => "Unexpected Candidate",
            VoteError::IncorrectOwner => "Incorrect Owner",
            VoteError::AccountNotRentExempt => "Account Not Rent Exempt",
            VoteError::AccountNotCheckAccount => "Account Not Check Account",
            VoteError::AlreadyVoted => "Already Voted",
        }
    }

    /// The name under which the host files failures of this kind.
    pub fn type_of() -> (name: &'static str)
        ensures
            name@ == "Vote Error"@,
    {
        "Vote Error"
    }
}

/// Codes and failures correspond one to one: a failure is read back from its
/// code, and a code that stands for a failure is that failure's code.
pub proof fn lemma_code_round_trip(e: VoteError, code: u32)
    ensures
        VoteError::spec_from_code(e.spec_code()) == Some(e),
        VoteError::spec_from_code(code) matches Some(f) ==> f.spec_code() == code,
        VoteError::spec_from_code(code) is Some <==> code <= 4,
{
}

/// How a request ends when it does not succeed: a business failure of the
/// registry, or one of the host's structural failures.
#[derive(Clone, Copy, Debug, PartialEq, Eq, Structural)]
pub enum ClaimError {
    /// A business failure, reported to the host by its code.
    Custom(VoteError),
    /// The attestation record does not decode.
    InvalidArgument,
    /// A record does not hold what its role asks for.
    InvalidAccountData,
    /// The requester did not authorize the request.
    MissingRequiredSignature,
    /// Fewer records were supplied than the request needs.
    NotEnoughAccountKeys,
    /// The counter and the claim record are one and the same record.
    AccountBorrowFailed,
    /// The tag of the derived address is too long.
    MaxSeedLengthExceeded,
    /// The seeds give no valid address.
    InvalidSeeds,
    /// The handler's identity may not own a derived address.
    IllegalOwner,
}

impl ClaimError {
    /// Wraps a business failure.
    pub fn from_vote_error(e: VoteError) -> (r: ClaimError)
        ensures
            r == ClaimError::Custom(e),
    {
        ClaimError::Custom(e)
    }

    /// The numeric code of a business failure; the host's own failures have
    /// none.
    pub fn custom_code(&self) -> (c: Option<u32>)
        ensures
            c == match *self {
                ClaimError::Custom(e) => Some(e.spec_code()),
                _ => None,
            },
    {
        match self {
            ClaimError::Custom(e) => Some(e.code()),
            _ => None,
        }
    }
}

} // verus!
