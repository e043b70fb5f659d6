use nameserver::error::{ClaimError, VoteError};

const ALL: [VoteError; 5] = [
    VoteError::UnexpectedCandidate,
    VoteError::IncorrectOwner,
    VoteError::AccountNotRentExempt,
    VoteError::AccountNotCheckAccount,
    VoteError::AlreadyVoted,
];

#[test]
fn codes_follow_the_declaration() {
    for (i, e) in ALL.iter().enumerate() {
        assert_eq!(e.code(), i as u32);
    }
}

#[test]
fn codes_read_back() {
    for e in ALL {
        assert_eq!(VoteError::from_code(e.code()), Some(e));
    }
    assert_eq!(VoteError::from_code(5), None);
    assert_eq!(VoteError::from_code(u32::MAX), None);
}

#[test]
fn messages() {
    assert_eq!(VoteError::UnexpectedCandidate.message(), "Unexpected Candidate");
    assert_eq!(VoteError::IncorrectOwner.message(), "Incorrect Owner");
    assert_eq!(VoteError::AccountNotRentExempt.message(), "Account Not Rent Exempt");
    assert_eq!(VoteError::AccountNotCheckAccount.message(), "Account Not Check Account");
    assert_eq!(VoteError::AlreadyVoted.message(), "Already Voted");
    assert_eq!(VoteError::type_of(), "Vote Error");
}

#[test]
fn only_business_failures_have_a_code() {
    assert_eq!(ClaimError::from_vote_error(VoteError::AlreadyVoted).custom_code(), Some(4));
    assert_eq!(ClaimError::Custom(VoteError::UnexpectedCandidate).custom_code(), Some(0));
    assert_eq!(ClaimError::MissingRequiredSignature.custom_code(), None);
    assert_eq!(ClaimError::NotEnoughAccountKeys.custom_code(), None);
}
