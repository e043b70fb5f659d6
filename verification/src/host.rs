//! What the registry has from the host's library: the hash of a name, the
//! address derived from it, the identity of the attestation record and the
//! terms of permanence. Verus takes the contracts in this file on trust.

use crate::account::Address;
use crate::error::ClaimError;
use solana_sdk::account_info::AccountInfo;
use solana_sdk::hash::hash;
use solana_sdk::pubkey::{Pubkey, PubkeyError};
use solana_sdk::rent::Rent;
use solana_sdk::sysvar::Sysvar;
use vstd::prelude::*;
use vstd::string::StringSliceAdditionalSpecFns;

verus! {

/// The SHA-256 digest of a byte string.
pub uninterp spec fn sha256_digest(data: Seq<u8>) -> Seq<u8>;

/// The address that the host derives from a base address, the bytes of a
/// tag and an owner, where it derives one.
pub uninterp spec fn seeded_address(base: Seq<u8>, seed: Seq<u8>, owner: Seq<u8>) -> Seq<u8>;

/// The yearly rate per byte in the terms of permanence that the record at
/// `key` with the bytes `data` decodes to, if it decodes.
pub uninterp spec fn rent_sysvar_rate(key: Seq<u8>, data: Seq<u8>) -> Option<u64>;

/// Whether a record of `data_len` bytes with the balance `balance` is kept
/// for ever under the terms that the record at `key` with the bytes `data`
/// decodes to, if it decodes.
pub uninterp spec fn rent_sysvar_exempt(
    key: Seq<u8>,
    data: Seq<u8>,
    balance: u64,
    data_len: nat,
) -> Option<bool>;

/// The address of the host's record of the terms of permanence.
pub open spec fn rent_sysvar_id() -> Seq<u8> {
    seq![
        6u8, 167u8, 213u8, 23u8, 25u8, 44u8, 92u8, 81u8,
        33u8, 140u8, 201u8, 76u8, 61u8, 74u8, 241u8, 127u8,
        88u8, 218u8, 238u8, 8u8, 155u8, 161u8, 253u8, 68u8,
        227u8, 219u8, 217u8, 138u8, 0u8, 0u8, 0u8, 0u8,
    ]
}

/// The 21 bytes that mark an identity as one derived for a program; the host
/// refuses to derive an address for an owner that ends in them.
pub open spec fn derived_marker() -> Seq<u8> {
    seq![
        80u8, 114u8, 111u8, 103u8, 114u8, 97u8, 109u8,
        68u8, 101u8, 114u8, 105u8, 118u8, 101u8, 100u8,
        65u8, 100u8, 100u8, 114u8, 101u8, 115u8, 115u8,
    ]
}

/// Whether an owner ends in the marker of derived identities.
pub open spec fn is_marked_owner(owner: Seq<u8>) -> bool {
    owner.len() >= 21 && owner.subrange(owner.len() - 21, owner.len() as int) == derived_marker()
}

/// The number of bytes that the host counts for a record besides its data.
pub const ACCOUNT_STORAGE_OVERHEAD: u64 = 128;

/// Whether the host's rent calculation stays within 64 bits for a record of
/// `data_len` bytes at the yearly rate `rate`.
pub open spec fn rent_in_range(rate: u64, data_len: nat) -> bool {
    &&& ACCOUNT_STORAGE_OVERHEAD + data_len <= u64::MAX
    &&& (ACCOUNT_STORAGE_OVERHEAD + data_len) * rate <= u64::MAX
}

/// The failure with which the host refuses to derive an address.
pub open spec fn derive_refusal(seed: Seq<u8>) -> ClaimError {
    if seed.len() > 32 {
        ClaimError::MaxSeedLengthExceeded
    } else {
        ClaimError::IllegalOwner
    }
}

/// `solana_sdk::hash::hash`: the SHA-256 digest of `data`.
#[verifier::external_body]
pub(crate) fn sha256(data: &[u8]) -> (digest: Address)
    ensures
        digest@ == sha256_digest(data@),
{
    hash(data).to_bytes()
}

/// `solana_sdk::pubkey::Pubkey::create_with_seed`: refuses a seed of more
/// than 32 bytes, then an owner that ends in the marker of derived
/// identities, and else derives an address from the three.
#[verifier::external_body]
pub(crate) fn create_with_seed(base: &Address, seed: &str, owner: &Address) -> (r: Result<Address, ClaimError>)
    ensures
        r is Ok <==> (seed.spec_bytes().len() <= 32 && !is_marked_owner(owner@)),
        r matches Ok(k) ==> k@ == seeded_address(base@, seed.spec_bytes(), owner@),
        r matches Err(e) ==> e == derive_refusal(seed.spec_bytes()),
{
    let base = Pubkey::new_from_array(*base);
    let owner = Pubkey::new_from_array(*owner);
    match Pubkey::create_with_seed(&base, seed, &owner) {
        Ok(key) => Ok(key.to_bytes()),
        Err(PubkeyError::MaxSeedLengthExceeded) => Err(ClaimError::MaxSeedLengthExceeded),
        Err(PubkeyError::InvalidSeeds) => Err(ClaimError::InvalidSeeds),
        Err(PubkeyError::IllegalOwner) => Err(ClaimError::IllegalOwner),
    }
}

/// `solana_sdk::sysvar::rent::check_id`: whether `key` is the address of the
/// host's record of the terms of permanence.
#[verifier::external_body]
pub(crate) fn is_rent_sysvar(key: &Address) -> (r: bool)
    ensures
        r == (key@ == rent_sysvar_id()),
{
    solana_sdk::sysvar::rent::check_id(&Pubkey::new_from_array(*key))
}

/// `solana_sdk::sysvar::Sysvar::from_account_info` for `Rent`, and the
/// yearly rate of what it decodes: the terms of permanence are read from the
/// record at `key` with the bytes `data`, and from nothing else of it.
#[verifier::external_body]
pub(crate) fn rent_rate(key: &Address, data: &[u8]) -> (r: Option<u64>)
    ensures
        r == rent_sysvar_rate(key@, data@),
{
    let key = Pubkey::new_from_array(*key);
    let owner = Pubkey::default();
    let mut lamports: u64 = 0;
    let mut bytes = data.to_vec();
    let info = AccountInfo::new(&key, false, false, &mut lamports, &mut bytes, &owner, false, 0);
    match Rent::from_account_info(&info) {
        Ok(rent) => Some(rent.lamports_per_byte_year),
        Err(_) => None,
    }
}

/// `solana_sdk::rent::Rent::is_exempt` on the terms that the record at `key`
/// with the bytes `data` decodes to: whether `balance` covers the minimum
/// balance of a record of `data_len` bytes. There is an answer exactly where
/// the record decodes. The host adds the overhead to the length and
/// multiplies the sum by the yearly rate, both in 64 bits, and panics where
/// either overflows, which the precondition leaves out.
#[verifier::external_body]
pub(crate) fn rent_exemption(key: &Address, data: &[u8], balance: u64, data_len: usize) -> (r:
    Option<bool>)
    requires
        rent_sysvar_rate(key@, data@) matches Some(rate) ==> rent_in_range(rate, data_len as nat),
    ensures
        r == rent_sysvar_exempt(key@, data@, balance, data_len as nat),
        r is Some <==> rent_sysvar_rate(key@, data@) is Some,
{
    let key = Pubkey::new_from_array(*key);
    let owner = Pubkey::default();
    let mut lamports: u64 = 0;
    let mut bytes = data.to_vec();
    let info = AccountInfo::new(&key, false, false, &mut lamports, &mut bytes, &owner, false, 0);
    match Rent::from_account_info(&info) {
        Ok(rent) => Some(rent.is_exempt(balance, data_len)),
        Err(_) => None,
    }
}

} // verus!
