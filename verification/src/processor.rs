//! The handler of claim requests: every check a request passes through, in
//! order, and the two writes that a successful claim makes.

use crate::account::{record_views, same_address, AccountRecord, AccountView, Address};
use crate::endian::{le_u32, u32_le_bytes};
use crate::error::{ClaimError, VoteError};
use crate::host::{
    create_with_seed, is_marked_owner, is_rent_sysvar, rent_exemption, rent_in_range, rent_rate,
    rent_sysvar_exempt, rent_sysvar_id, rent_sysvar_rate, seeded_address, sha256, sha256_digest,
    ACCOUNT_STORAGE_OVERHEAD,
};
use crate::state::{all_zero, Metadata, ServerData};
use vstd::prelude::*;
use vstd::string::{is_ascii_spec_bytes, StringSliceAdditionalSpecFns};

verus! {

/// What the host's terms of permanence say of the claim record.
#[derive(Clone, Copy, Debug, PartialEq, Eq, Structural)]
pub enum Permanence {
    /// The attestation record holds no terms that decode.
    NoTerms,
    /// The terms are beyond what the host's calculation can answer.
    OutOfRange,
    /// The claim record is kept for ever.
    Exempt,
    /// The claim record is not kept for ever.
    NotExempt,
}

/// How a request ends.
pub enum Outcome {
    /// The request is malformed beyond what the handler answers: the claim or
    /// the counter record has the wrong size, the counter is at its limit, or
    /// the terms of permanence are out of range. Nothing is written.
    Unanswered,
    /// The request is refused with a failure. Nothing is written.
    Rejected(ClaimError),
    /// The claim is granted: the counter record and the claim record get new
    /// bytes.
    Claimed { counter: Seq<u8>, claim: Seq<u8> },
}

/// The outcome of a request, check by check. The records come in the order
/// counter, claim, attestation, requester; more than four are ignored.
/// `expected` is the address derived from the name, `permanence` what the
/// host's terms say of the claim record.
pub open spec fn claim_outcome(
    program_id: Seq<u8>,
    accounts: Seq<AccountView>,
    expected: Result<Seq<u8>, ClaimError>,
    permanence: Permanence,
) -> Outcome {
    if accounts.len() < 1 {
        Outcome::Rejected(ClaimError::NotEnoughAccountKeys)
    } else if accounts[0].owner != program_id {
        Outcome::Rejected(ClaimError::Custom(VoteError::IncorrectOwner))
    } else if accounts.len() < 2 {
        Outcome::Rejected(ClaimError::NotEnoughAccountKeys)
    } else if accounts[1].owner != program_id {
        Outcome::Rejected(ClaimError::Custom(VoteError::IncorrectOwner))
    } else if accounts.len() < 3 {
        Outcome::Rejected(ClaimError::NotEnoughAccountKeys)
    } else if accounts[2].key != rent_sysvar_id() {
        Outcome::Rejected(ClaimError::InvalidAccountData)
    } else if permanence == Permanence::NoTerms {
        Outcome::Rejected(ClaimError::InvalidArgument)
    } else if permanence == Permanence::OutOfRange {
        Outcome::Unanswered
    } else if permanence == Permanence::NotExempt {
        Outcome::Rejected(ClaimError::Custom(VoteError::AccountNotRentExempt))
    } else if accounts.len() < 4 {
        Outcome::Rejected(ClaimError::NotEnoughAccountKeys)
    } else if !accounts[3].is_signer {
        Outcome::Rejected(ClaimError::MissingRequiredSignature)
    } else if expected is Err {
        Outcome::Rejected(expected->Err_0)
    } else if expected->Ok_0 != accounts[1].key {
        Outcome::Rejected(ClaimError::Custom(VoteError::AccountNotCheckAccount))
    } else if accounts[1].data.len() != 32 {
        Outcome::Unanswered
    } else if !all_zero(accounts[1].data) {
        Outcome::Rejected(ClaimError::Custom(VoteError::AlreadyVoted))
    } else if accounts[0].key == accounts[1].key {
        Outcome::Rejected(ClaimError::AccountBorrowFailed)
    } else if accounts[0].data.len() != 4 {
        Outcome::Unanswered
    } else if le_u32(accounts[0].data) == u32::MAX {
        Outcome::Unanswered
    } else {
        Outcome::Claimed {
            counter: u32_le_bytes((le_u32(accounts[0].data) + 1) as u32),
            claim: accounts[3].key,
        }
    }
}

/// The records as a request leaves them: a granted claim rewrites the bytes
/// of the counter and of the claim record, and nothing else changes.
pub open spec fn records_after(accounts: Seq<AccountView>, outcome: Outcome) -> Seq<AccountView> {
    match outcome {
        Outcome::Claimed { counter, claim } => accounts.update(
            0,
            AccountView { data: counter, ..accounts[0] },
        ).update(1, AccountView { data: claim, ..accounts[1] }),
        _ => accounts,
    }
}

/// What the handler returns for an outcome.
pub open spec fn reply(outcome: Outcome) -> Option<Result<(), ClaimError>> {
    match outcome {
        Outcome::Unanswered => None,
        Outcome::Rejected(e) => Some(Err(e)),
        Outcome::Claimed { .. } => Some(Ok(())),
    }
}

/// The address in `expected`, by its view.
pub open spec fn expected_view(expected: Result<Address, ClaimError>) -> Result<
    Seq<u8>,
    ClaimError,
> {
    match expected {
        Ok(k) => Ok(k@),
        Err(e) => Err(e),
    }
}

/// Decides a request on what the host has said of it, and writes the counter
/// and the claim record where the claim is granted. `expected` is the address
/// derived from the name, `permanence` what the host's terms say of the claim
/// record. Any other outcome leaves every record as it was.
pub fn settle_claim(
    program_id: &Address,
    accounts: &mut Vec<AccountRecord>,
    expected: &Result<Address, ClaimError>,
    permanence: Permanence,
) -> (r: Option<Result<(), ClaimError>>)
    ensures
        r == reply(
            claim_outcome(
                program_id@,
                record_views(old(accounts)@),
                expected_view(*expected),
                permanence,
            ),
        ),
        record_views(final(accounts)@) == records_after(
            record_views(old(accounts)@),
            claim_outcome(
                program_id@,
                record_views(old(accounts)@),
                expected_view(*expected),
                permanence,
            ),
        ),
{
    if accounts.len() < 1 {
        return Some(Err(ClaimError::NotEnoughAccountKeys));
    }
    if !same_address(&accounts[0].owner, program_id) {
        return Some(Err(ClaimError::from_vote_error(VoteError::IncorrectOwner)));
    }
    if accounts.len() < 2 {
        return Some(Err(ClaimError::NotEnoughAccountKeys));
    }
    if !same_address(&accounts[1].owner, program_id) {
        return Some(Err(ClaimError::from_vote_error(VoteError::IncorrectOwner)));
    }
    if accounts.len() < 3 {
        return Some(Err(ClaimError::NotEnoughAccountKeys));
    }
    if !is_rent_sysvar(&accounts[2].key) {
        return Some(Err(ClaimError::InvalidAccountData));
    }
    match permanence {
        Permanence::NoTerms => {
            return Some(Err(ClaimError::InvalidArgument));
        },
        Permanence::OutOfRange => {
            return None;
        },
        Permanence::NotExempt => {
            return Some(Err(ClaimError::from_vote_error(VoteError::AccountNotRentExempt)));
        },
        Permanence::Exempt => {},
    }
    if accounts.len() < 4 {
        return Some(Err(ClaimError::NotEnoughAccountKeys));
    }
    if !accounts[3].is_signer {
        return Some(Err(ClaimError::MissingRequiredSignature));
    }
    let expected_key: Address = match expected {
        Ok(k) => *k,
        Err(e) => {
            return Some(Err(*e));
        },
    };
    if !same_address(&expected_key, &accounts[1].key) {
        return Some(Err(ClaimError::from_vote_error(VoteError::AccountNotCheckAccount)));
    }
    let mut metadata_check = match Metadata::unpack_unchecked(accounts[1].data.as_slice()) {
        Ok(m) => m,
        Err(_) => {
            return None;
        },
    };
    if !metadata_check.is_unclaimed() {
        return Some(Err(ClaimError::from_vote_error(VoteError::AlreadyVoted)));
    }
    if same_address(&accounts[0].key, &accounts[1].key) {
        return Some(Err(ClaimError::AccountBorrowFailed));
    }
    let mut server_data = match ServerData::unpack_unchecked(accounts[0].data.as_slice()) {
        Ok(s) => s,
        Err(_) => {
            return None;
        },
    };
    if server_data.name_count == u32::MAX {
        return None;
    }
    server_data.name_count = server_data.name_count + 1;
    metadata_check.acct_id = accounts[3].key;

    // Both records have their exact length here, so neither write is refused.
    let _ = ServerData::pack(server_data, accounts[0].data.as_mut_slice());
    let _ = Metadata::pack(metadata_check, accounts[1].data.as_mut_slice());
    proof {
        assert(record_views(accounts@) =~= records_after(
            record_views(old(accounts)@),
            claim_outcome(
                program_id@,
                record_views(old(accounts)@),
                expected_view(*expected),
                permanence,
            ),
        ));
    }
    Some(Ok(()))
}

/// The bytes of the tag under which the claim record of a name is derived.
pub open spec fn metadata_seed() -> Seq<u8> {
    seq![109u8, 101u8, 116u8, 97u8, 100u8, 97u8, 116u8, 97u8]
}

/// The address of the claim record of `name` under the handler `program_id`:
/// the address derived from the digest of the name, the tag and the handler,
/// unless the host refuses the handler as an owner.
pub open spec fn spec_claim_address(program_id: Seq<u8>, name: Seq<u8>) -> Result<
    Seq<u8>,
    ClaimError,
> {
    if is_marked_owner(program_id) {
        Err(ClaimError::IllegalOwner)
    } else {
        Ok(seeded_address(sha256_digest(name), metadata_seed(), program_id))
    }
}

/// What the host's terms, read from the attestation record, say of the claim
/// record.
pub open spec fn spec_permanence(attestation: AccountView, claim: AccountView) -> Permanence {
    match rent_sysvar_rate(attestation.key, attestation.data) {
        None => Permanence::NoTerms,
        Some(rate) => if !rent_in_range(rate, claim.data.len()) {
            Permanence::OutOfRange
        } else if rent_sysvar_exempt(
            attestation.key,
            attestation.data,
            claim.lamports,
            claim.data.len(),
        ) == Some(true) {
            Permanence::Exempt
        } else {
            Permanence::NotExempt
        },
    }
}

/// The outcome of a request for `name`, as a function of the records alone.
pub open spec fn request_outcome(
    program_id: Seq<u8>,
    accounts: Seq<AccountView>,
    name: Seq<u8>,
) -> Outcome {
    claim_outcome(
        program_id,
        accounts,
        spec_claim_address(program_id, name),
        if accounts.len() >= 3 {
            spec_permanence(accounts[2], accounts[1])
        } else {
            Permanence::NoTerms
        },
    )
}

/// Computes the address at which the claim record of `name` must stand.
pub fn claim_address(program_id: &Address, name: &[u8]) -> (r: Result<Address, ClaimError>)
    ensures
        expected_view(r) == spec_claim_address(program_id@, name@),
{
    let name_hash = sha256(name);
    let seed = "metadata";
    proof {
        reveal_strlit("metadata");
        is_ascii_spec_bytes(seed);
        assert(seed.spec_bytes() =~= metadata_seed());
    }
    create_with_seed(&name_hash, seed, program_id)
}

/// Asks the host's terms, read from the attestation record, whether the claim
/// record is kept for ever.
pub fn permanence_of(attestation: &AccountRecord, claim: &AccountRecord) -> (p: Permanence)
    ensures
        p == spec_permanence(attestation@, claim@),
{
    let rate: u64 = match rent_rate(&attestation.key, attestation.data.as_slice()) {
        Some(rate) => rate,
        None => {
            return Permanence::NoTerms;
        },
    };
    let data_len: usize = claim.data.len();
    let in_range = match ACCOUNT_STORAGE_OVERHEAD.checked_add(data_len as u64) {
        Some(bytes) => bytes.checked_mul(rate).is_some(),
        None => false,
    };
    if !in_range {
        return Permanence::OutOfRange;
    }
    match rent_exemption(&attestation.key, attestation.data.as_slice(), claim.lamports, data_len) {
        Some(true) => Permanence::Exempt,
        _ => Permanence::NotExempt,
    }
}

/// Handles one request to claim the name in `instruction_data`. The records
/// come in the order counter, claim, attestation, requester. The checks run
/// in a fixed order and the first that fails ends the request with its
/// failure. A granted claim adds one to the counter and writes the
/// requester's identity into the claim record, so that no later claim on the
/// name is granted. Any other outcome leaves every record as it was.
pub fn process_instruction(
    program_id: &Address,
    accounts: &mut Vec<AccountRecord>,
    instruction_data: &[u8],
) -> (r: Option<Result<(), ClaimError>>)
    ensures
        r == reply(
            request_outcome(program_id@, record_views(old(accounts)@), instruction_data@),
        ),
        record_views(final(accounts)@) == records_after(
            record_views(old(accounts)@),
            request_outcome(program_id@, record_views(old(accounts)@), instruction_data@),
        ),
{
    let expected = claim_address(program_id, instruction_data);
    let permanence = if accounts.len() >= 3 {
        permanence_of(&accounts[2], &accounts[1])
    } else {
        Permanence::NoTerms
    };
    settle_claim(program_id, accounts, &expected, permanence)
}

} // verus!
