//! The fixed-width records of the registry and their byte layouts.

use crate::endian::{
    le_u32, lemma_bytes_of_le_u32, lemma_le_u32_of_bytes, read_u32_le, u32_le_bytes, write_u32_le,
};
use crate::error::{ClaimError, VoteError};
use vstd::prelude::*;

verus! {

/// The count of names claimed so far: four bytes, little-endian.
#[derive(Clone, Copy, Debug, PartialEq, Eq, Structural)]
pub struct ServerData {
    pub name_count: u32,
}

impl ServerData {
    /// The length of the record in bytes.
    pub const LEN: usize = 4;

    /// The record that the first four bytes of `src` hold.
    pub open spec fn spec_unpack(src: Seq<u8>) -> ServerData {
        ServerData { name_count: le_u32(src) as u32 }
    }

    /// The bytes of the record.
    pub open spec fn spec_pack(self) -> Seq<u8> {
        u32_le_bytes(self.name_count)
    }

    /// Decodes the record from the first four bytes of `src`; every value of
    /// them is legal.
    pub fn unpack_from_slice(src: &[u8]) -> (r: Result<ServerData, ClaimError>)
        requires
            src@.len() >= 4,
        ensures
            r == Ok::<ServerData, ClaimError>(Self::spec_unpack(src@)),
    {
        Ok(ServerData { name_count: read_u32_le(src) })
    }

    /// Encodes the record into the first four bytes of `dst`.
    pub fn pack_into_slice(&self, dst: &mut [u8])
        requires
            old(dst)@.len() >= 4,
        ensures
            final(dst)@ == self.spec_pack() + old(dst)@.subrange(4, old(dst)@.len() as int),
    {
        write_u32_le(dst, self.name_count);
    }

    /// Decodes a buffer of exactly the record's length, and refuses any other.
    pub fn unpack_unchecked(input: &[u8]) -> (r: Result<ServerData, ClaimError>)
        ensures
            input@.len() == 4 ==> r == Ok::<ServerData, ClaimError>(Self::spec_unpack(input@)),
            input@.len() != 4 ==> r == Err::<ServerData, ClaimError>(
                ClaimError::InvalidAccountData,
            ),
    {
        if input.len() != Self::LEN {
            return Err(ClaimError::InvalidAccountData);
        }
        Self::unpack_from_slice(input)
    }

    /// Encodes into a buffer of exactly the record's length, and refuses any
    /// other without touching it.
    pub fn pack(src: ServerData, dst: &mut [u8]) -> (r: Result<(), ClaimError>)
        ensures
            old(dst)@.len() == 4 ==> r == Ok::<(), ClaimError>(()) && final(dst)@
                == src.spec_pack(),
            old(dst)@.len() != 4 ==> r == Err::<(), ClaimError>(ClaimError::InvalidAccountData)
                && final(dst)@ == old(dst)@,
    {
        if dst.len() != Self::LEN {
            return Err(ClaimError::InvalidAccountData);
        }
        src.pack_into_slice(dst);
        Ok(())
    }
}

/// The tally record of the ballot-counting days: four bytes, little-endian,
/// zero where no ballot was cast.
#[derive(Clone, Copy, Debug, PartialEq, Eq, Structural)]
pub struct VoterCheck {
    pub voted_for: u32,
}

impl VoterCheck {
    /// The length of the record in bytes.
    pub const LEN: usize = 4;

    /// The record that the first four bytes of `src` hold.
    pub open spec fn spec_unpack(src: Seq<u8>) -> VoterCheck {
        VoterCheck { voted_for: le_u32(src) as u32 }
    }

    /// The bytes of the record.
    pub open spec fn spec_pack(self) -> Seq<u8> {
        u32_le_bytes(self.voted_for)
    }

    /// Decodes the record from the first four bytes of `src`; every value of
    /// them is legal.
    pub fn unpack_from_slice(src: &[u8]) -> (r: Result<VoterCheck, ClaimError>)
        requires
            src@.len() >= 4,
        ensures
            r == Ok::<VoterCheck, ClaimError>(Self::spec_unpack(src@)),
    {
        Ok(VoterCheck { voted_for: read_u32_le(src) })
    }

    /// Encodes the record into the first four bytes of `dst`.
    pub fn pack_into_slice(&self, dst: &mut [u8])
        requires
            old(dst)@.len() >= 4,
        ensures
            final(dst)@ == self.spec_pack() + old(dst)@.subrange(4, old(dst)@.len() as int),
    {
        write_u32_le(dst, self.voted_for);
    }
}

/// The candidate selector of the ballot-counting days: one byte, 1 or 2.
#[derive(Clone, Copy, Debug, PartialEq, Eq, Structural)]
pub struct Vote {
    pub candidate: u8,
}

impl Vote {
    /// The length of the record in bytes.
    pub const LEN: usize = 1;

    /// Whether the selector names one of the two candidates.
    pub open spec fn well_formed(self) -> bool {
        self.candidate == 1 || self.candidate == 2
    }

    /// Decodes the selector from the first byte of `src`, and refuses a byte
    /// other than 1 and 2.
    pub fn unpack_from_slice(src: &[u8]) -> (r: Result<Vote, ClaimError>)
        requires
            src@.len() >= 1,
        ensures
            r matches Ok(vote) ==> vote.well_formed(),
            (src@[0] == 1 || src@[0] == 2) ==> r == Ok::<Vote, ClaimError>(
                Vote { candidate: src@[0] },
            ),
            !(src@[0] == 1 || src@[0] == 2) ==> r == Err::<Vote, ClaimError>(
                ClaimError::Custom(VoteError::UnexpectedCandidate),
            ),
    {
        let candidate: u8 = src[0];
        if candidate != 1 && candidate != 2 {
            return Err(ClaimError::from_vote_error(VoteError::UnexpectedCandidate));
        }
        Ok(Vote { candidate })
    }

    /// Encodes the selector into the first byte of `dst`.
    pub fn pack_into_slice(&self, dst: &mut [u8])
        requires
            old(dst)@.len() >= 1,
        ensures
            final(dst)@ == old(dst)@.update(0, self.candidate),
    {
        dst[0] = self.candidate;
    }
}

/// Whether all bytes of `b` are zero.
pub open spec fn all_zero(b: Seq<u8>) -> bool {
    forall|i: int| 0 <= i < b.len() ==> b[i] == 0
}

/// The claim on one name: the 32 bytes of the claimant's identity, or 32 zero
/// bytes while nobody has claimed the name.
#[derive(Clone, Copy, Debug)]
pub struct Metadata {
    pub acct_id: [u8; 32],
}

impl Metadata {
    /// The length of the record in bytes.
    pub const LEN: usize = 32;

    /// Whether the record is still unclaimed.
    pub open spec fn spec_is_unclaimed(self) -> bool {
        all_zero(self.acct_id@)
    }

    /// Decodes the record; any 32 bytes are legal.
    pub fn unpack_from_slice(src: &[u8]) -> (r: Result<Metadata, ClaimError>)
        requires
            src@.len() == 32,
        ensures
            r matches Ok(m) && m.acct_id@ == src@,
    {
        let mut acct_id: [u8; 32] = [0u8; 32];
        let mut i: usize = 0;
        while i < 32
            invariant
                i <= 32,
                src@.len() == 32,
                forall|j: int| 0 <= j < i ==> acct_id@[j] == src@[j],
            decreases 32 - i,
        {
            acct_id[i] = src[i];
            i = i + 1;
        }
        assert(acct_id@ =~= src@);
        Ok(Metadata { acct_id })
    }

    /// Encodes the record into `dst`.
    pub fn pack_into_slice(&self, dst: &mut [u8])
        requires
            old(dst)@.len() == 32,
        ensures
            final(dst)@ == self.acct_id@,
    {
        let mut i: usize = 0;
        while i < 32
            invariant
                i <= 32,
                dst@.len() == 32,
                forall|j: int| 0 <= j < i ==> dst@[j] == self.acct_id@[j],
            decreases 32 - i,
        {
            dst[i] = self.acct_id[i];
            i = i + 1;
        }
        assert(dst@ =~= self.acct_id@);
    }

    /// Decodes a buffer of exactly the record's length, and refuses any other.
    pub fn unpack_unchecked(input: &[u8]) -> (r: Result<Metadata, ClaimError>)
        ensures
            input@.len() == 32 ==> (r matches Ok(m) && m.acct_id@ == input@),
            input@.len() != 32 ==> (r matches Err(e) && e == ClaimError::InvalidAccountData),
    {
        if input.len() != Self::LEN {
            return Err(ClaimError::InvalidAccountData);
        }
        Self::unpack_from_slice(input)
    }

    /// Encodes into a buffer of exactly the record's length, and refuses any
    /// other without touching it.
    pub fn pack(src: Metadata, dst: &mut [u8]) -> (r: Result<(), ClaimError>)
        ensures
            old(dst)@.len() == 32 ==> r == Ok::<(), ClaimError>(()) && final(dst)@
                == src.acct_id@,
            old(dst)@.len() != 32 ==> r == Err::<(), ClaimError>(ClaimError::InvalidAccountData)
                && final(dst)@ == old(dst)@,
    {
        if dst.len() != Self::LEN {
            return Err(ClaimError::InvalidAccountData);
        }
        src.pack_into_slice(dst);
        Ok(())
    }

    /// Whether nobody has claimed the name yet: whether all 32 bytes are zero.
    pub fn is_unclaimed(&self) -> (r: bool)
        ensures
            r == self.spec_is_unclaimed(),
    {
        let mut i: usize = 0;
        while i < 32
            invariant
                i <= 32,
                forall|j: int| 0 <= j < i ==> self.acct_id@[j] == 0,
            decreases 32 - i,
        {
            if self.acct_id[i] != 0 {
                return false;
            }
            i = i + 1;
        }
        true
    }
}

/// The counter record and its four bytes correspond one to one: decoding what
/// was encoded gives the record back, and encoding what four bytes decode to
/// gives the bytes back.
pub proof fn lemma_server_data_round_trip(record: ServerData, bytes: Seq<u8>)
    requires
        bytes.len() == 4,
    ensures
        record.spec_pack().len() == 4,
        ServerData::spec_unpack(record.spec_pack()) == record,
        ServerData::spec_unpack(bytes).spec_pack() == bytes,
{
    lemma_le_u32_of_bytes(record.name_count);
    lemma_bytes_of_le_u32(bytes);
}

/// The tally record and its four bytes correspond one to one.
pub proof fn lemma_voter_check_round_trip(record: VoterCheck, bytes: Seq<u8>)
    requires
        bytes.len() == 4,
    ensures
        record.spec_pack().len() == 4,
        VoterCheck::spec_unpack(record.spec_pack()) == record,
        VoterCheck::spec_unpack(bytes).spec_pack() == bytes,
{
    lemma_le_u32_of_bytes(record.voted_for);
    lemma_bytes_of_le_u32(bytes);
}

} // verus!
