//! What holds of the handler over all requests, proved from its outcome.

use crate::account::AccountView;
use crate::endian::{le_u32, lemma_le_u32_of_bytes};
use crate::error::{ClaimError, VoteError};
use crate::host::rent_sysvar_id;
use crate::processor::{
    claim_outcome, records_after, request_outcome, spec_claim_address, spec_permanence, Outcome,
    Permanence,
};
use crate::state::all_zero;
use vstd::prelude::*;

verus! {

/// Whether a request gets past the checks on the records themselves: four
/// records are there, the counter and the claim record belong to the handler,
/// the attestation record is the host's, the claim record is kept for ever
/// and the requester authorized the request.
pub open spec fn admitted(program_id: Seq<u8>, accounts: Seq<AccountView>) -> bool {
    &&& accounts.len() >= 4
    &&& accounts[0].owner == program_id
    &&& accounts[1].owner == program_id
    &&& accounts[2].key == rent_sysvar_id()
    &&& spec_permanence(accounts[2], accounts[1]) == Permanence::Exempt
    &&& accounts[3].is_signer
}

/// One request: the handler's identity, the records and the name.
pub struct Request {
    pub program_id: Seq<u8>,
    pub accounts: Seq<AccountView>,
    pub name: Seq<u8>,
}

impl Request {
    /// The outcome of the request.
    pub open spec fn outcome(self) -> Outcome {
        request_outcome(self.program_id, self.accounts, self.name)
    }

    /// The records as the request leaves them.
    pub open spec fn after(self) -> Seq<AccountView> {
        records_after(self.accounts, self.outcome())
    }
}

/// Whether every request of the sequence is granted and each finds the
/// counter as the one before left it.
pub open spec fn granted_in_turn(requests: Seq<Request>) -> bool {
    &&& forall|i: int| 0 <= i < requests.len() ==> (#[trigger] requests[i]).outcome() is Claimed
    &&& forall|i: int|
        0 <= i < requests.len() - 1 ==> (#[trigger] requests[i + 1]).accounts[0].data
            == requests[i].after()[0].data
}

/// A request that is not granted writes nothing: every record is left as it
/// was.
pub proof fn lemma_refusal_writes_nothing(
    program_id: Seq<u8>,
    accounts: Seq<AccountView>,
    name: Seq<u8>,
)
    requires
        !(request_outcome(program_id, accounts, name) is Claimed),
    ensures
        records_after(accounts, request_outcome(program_id, accounts, name)) == accounts,
{
}

/// A granted claim touches the bytes of the counter and of the claim record
/// only: the counter goes up by one, the claim record holds the requester's
/// identity, and all else is as it was.
pub proof fn lemma_granted_claim_writes(
    program_id: Seq<u8>,
    accounts: Seq<AccountView>,
    name: Seq<u8>,
)
    requires
        request_outcome(program_id, accounts, name) is Claimed,
    ensures
        ({
            let after = records_after(accounts, request_outcome(program_id, accounts, name));
            &&& after.len() == accounts.len()
            &&& after[0].data.len() == 4
            &&& le_u32(after[0].data) == le_u32(accounts[0].data) + 1
            &&& after[1].data == accounts[3].key
            &&& after[0] == (AccountView { data: after[0].data, ..accounts[0] })
            &&& after[1] == (AccountView { data: after[1].data, ..accounts[1] })
            &&& forall|i: int| 2 <= i < accounts.len() ==> after[i] == accounts[i]
        }),
{
    lemma_le_u32_of_bytes((le_u32(accounts[0].data) + 1) as u32);
}

/// A claim record that holds anything but 32 zero bytes is never granted
/// again, whoever asks, for whatever name.
pub proof fn lemma_claimed_record_is_closed(
    program_id: Seq<u8>,
    accounts: Seq<AccountView>,
    name: Seq<u8>,
)
    requires
        accounts.len() >= 2,
        !all_zero(accounts[1].data) || accounts[1].data.len() != 32,
    ensures
        !(request_outcome(program_id, accounts, name) is Claimed),
{
}

/// A name is claimed once. After a claim of `name` was granted to a requester
/// whose identity is not all zero, the same request from any requester who
/// authorizes it, on the records as the first claim left them, is refused as
/// already claimed, and the counter stays where the first claim put it.
pub proof fn lemma_second_claim_is_refused(
    program_id: Seq<u8>,
    accounts: Seq<AccountView>,
    name: Seq<u8>,
    other: AccountView,
)
    requires
        request_outcome(program_id, accounts, name) is Claimed,
        accounts[3].well_formed(),
        !all_zero(accounts[3].key),
        other.is_signer,
    ensures
        ({
            let left = records_after(accounts, request_outcome(program_id, accounts, name));
            let second = left.update(3, other);
            &&& request_outcome(program_id, second, name) == Outcome::Rejected(
                ClaimError::Custom(VoteError::AlreadyVoted),
            )
            &&& records_after(second, request_outcome(program_id, second, name)) == second
        }),
{
    let left = records_after(accounts, request_outcome(program_id, accounts, name));
    let second = left.update(3, other);
    lemma_granted_claim_writes(program_id, accounts, name);
    assert(admitted(program_id, accounts));
    assert(accounts[1].data.len() == 32);
    assert(second[2] == accounts[2]);
    assert(second[1].lamports == accounts[1].lamports);
    assert(second[1].data.len() == accounts[1].data.len());
    assert(spec_permanence(second[2], second[1]) == spec_permanence(accounts[2], accounts[1]));
    assert(admitted(program_id, second));
    assert(spec_claim_address(program_id, name) == Ok::<Seq<u8>, ClaimError>(second[1].key));
    assert(!all_zero(second[1].data));
}

/// The counter counts the claims granted: after any number of requests that
/// are granted one after the other, it stands at its first value plus their
/// number.
pub proof fn lemma_counter_counts_claims(requests: Seq<Request>)
    requires
        requests.len() >= 1,
        granted_in_turn(requests),
    ensures
        le_u32(requests.last().after()[0].data) == le_u32(requests[0].accounts[0].data)
            + requests.len(),
    decreases requests.len(),
{
    let last = requests.last();
    lemma_granted_claim_writes(last.program_id, last.accounts, last.name);
    if requests.len() > 1 {
        let front = requests.drop_last();
        assert(granted_in_turn(front)) by {
            assert forall|i: int| 0 <= i < front.len() implies (#[trigger] front[i]).outcome()
                is Claimed by {
                assert(front[i] == requests[i]);
            }
            assert forall|i: int| 0 <= i < front.len() - 1 implies (#[trigger] front[i
                + 1]).accounts[0].data == front[i].after()[0].data by {
                assert(front[i + 1] == requests[i + 1]);
                assert(front[i] == requests[i]);
            }
        }
        lemma_counter_counts_claims(front);
        let k = requests.len() - 2;
        assert(requests[k + 1].accounts[0].data == requests[k].after()[0].data);
        assert(front.last() == requests[k]);
    }
}

/// A claim record that does not stand at the address derived from the name
/// is never granted; a request that is admitted is then refused as not being
/// the record of the name.
pub proof fn lemma_address_binding(program_id: Seq<u8>, accounts: Seq<AccountView>, name: Seq<u8>)
    requires
        accounts.len() >= 2,
        spec_claim_address(program_id, name) != Ok::<Seq<u8>, ClaimError>(accounts[1].key),
    ensures
        !(request_outcome(program_id, accounts, name) is Claimed),
        admitted(program_id, accounts) && spec_claim_address(program_id, name) is Ok
            ==> request_outcome(program_id, accounts, name) == Outcome::Rejected(
            ClaimError::Custom(VoteError::AccountNotCheckAccount),
        ),
{
}

/// The claim record of one name does not serve a claim of another: where the
/// addresses derived from two names differ, an admitted request that names
/// the one and presents the record of the other is refused.
pub proof fn lemma_record_of_another_name(
    program_id: Seq<u8>,
    accounts: Seq<AccountView>,
    name: Seq<u8>,
    another: Seq<u8>,
)
    requires
        admitted(program_id, accounts),
        spec_claim_address(program_id, name) is Ok,
        spec_claim_address(program_id, name) != spec_claim_address(program_id, another),
        spec_claim_address(program_id, another) == Ok::<Seq<u8>, ClaimError>(accounts[1].key),
    ensures
        request_outcome(program_id, accounts, name) == Outcome::Rejected(
            ClaimError::Custom(VoteError::AccountNotCheckAccount),
        ),
{
}

/// A request that its requester did not authorize is never granted and writes
/// nothing; where the checks before get that far, it is refused for the
/// missing signature.
pub proof fn lemma_unauthorized_is_refused(
    program_id: Seq<u8>,
    accounts: Seq<AccountView>,
    name: Seq<u8>,
)
    requires
        accounts.len() >= 4,
        !accounts[3].is_signer,
    ensures
        !(request_outcome(program_id, accounts, name) is Claimed),
        records_after(accounts, request_outcome(program_id, accounts, name)) == accounts,
        admitted(program_id, accounts.update(3, AccountView { is_signer: true, ..accounts[3] }))
            ==> request_outcome(program_id, accounts, name) == Outcome::Rejected(
            ClaimError::MissingRequiredSignature,
        ),
{
}

/// A claim record that the host's terms do not keep for ever is never
/// granted, whatever else the request holds; where the counter, the claim
/// record and the attestation record are the right ones, the request is
/// refused for that reason.
pub proof fn lemma_permanence_gate(program_id: Seq<u8>, accounts: Seq<AccountView>, name: Seq<u8>)
    requires
        accounts.len() >= 3,
        spec_permanence(accounts[2], accounts[1]) == Permanence::NotExempt,
    ensures
        !(request_outcome(program_id, accounts, name) is Claimed),
        accounts[0].owner == program_id && accounts[1].owner == program_id && accounts[2].key
            == rent_sysvar_id() ==> request_outcome(program_id, accounts, name)
            == Outcome::Rejected(ClaimError::Custom(VoteError::AccountNotRentExempt)),
{
}

} // verus!
