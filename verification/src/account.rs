//! The plain values that stand for what the host supplies with a request.

use vstd::prelude::*;

verus! {

/// A 32-byte identity or address.
pub type Address = [u8; 32];

/// One record of the ledger, as the host hands it to the handler.
#[derive(Clone, Debug, PartialEq, Eq)]
pub struct AccountRecord {
    /// The address of the record.
    pub key: Address,
    /// The identity that owns the record.
    pub owner: Address,
    /// Whether the record's identity authorized the request.
    pub is_signer: bool,
    /// The balance of the record.
    pub lamports: u64,
    /// The bytes of the record.
    pub data: Vec<u8>,
}

/// What a record holds, as mathematical values.
pub struct AccountView {
    pub key: Seq<u8>,
    pub owner: Seq<u8>,
    pub is_signer: bool,
    pub lamports: u64,
    pub data: Seq<u8>,
}

impl AccountView {
    /// Whether the address and the owner are 32 bytes each, as they are in
    /// every record.
    pub open spec fn well_formed(self) -> bool {
        self.key.len() == 32 && self.owner.len() == 32
    }
}

impl View for AccountRecord {
    type V = AccountView;

    open spec fn view(&self) -> AccountView {
        AccountView {
            key: self.key@,
            owner: self.owner@,
            is_signer: self.is_signer,
            lamports: self.lamports,
            data: self.data@,
        }
    }
}

/// The records of a list, each by its view.
pub open spec fn record_views(records: Seq<AccountRecord>) -> Seq<AccountView> {
    Seq::new(records.len(), |i: int| records[i]@)
}

/// The view of a record is well formed.
pub proof fn lemma_record_view_well_formed(record: AccountRecord)
    ensures
        record@.well_formed(),
{
}

/// Whether two addresses are the same, byte for byte.
pub fn same_address(a: &Address, b: &Address) -> (r: bool)
    ensures
        r == (a@ == b@),
{
    let mut i: usize = 0;
    while i < 32
        invariant
            i <= 32,
            forall|j: int| 0 <= j < i ==> a@[j] == b@[j],
        decreases 32 - i,
    {
        if a[i] != b[i] {
            return false;
        }
        i = i + 1;
    }
    assert(a@ =~= b@);
    true
}

} // verus!
