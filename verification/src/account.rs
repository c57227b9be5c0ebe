//! Plain-value model of the ledger accounts the vault logic decides over.
//!
//! The host environment hands the program an ordered list of accounts; the
//! logic only ever reads an account's address, its balance and whether it
//! signed the invocation, so those three are what the model holds.

use vstd::prelude::*;

verus! {

/// A 32-byte account address.
#[derive(Clone, Copy, Debug, PartialEq, Eq)]
pub struct AccountId {
    pub bytes: [u8; 32],
}

impl View for AccountId {
    type V = Seq<u8>;

    open spec fn view(&self) -> Seq<u8> {
        self.bytes@
    }
}

impl AccountId {
    pub fn new(bytes: [u8; 32]) -> (r: AccountId)
        ensures
            r@ == bytes@,
    {
        AccountId { bytes }
    }
}

/// Address equality, decided byte by byte.
pub fn key_eq(a: &AccountId, b: &AccountId) -> (r: bool)
    ensures
        r <==> a@ == b@,
{
    let mut i: usize = 0;
    while i < 32
        invariant
            0 <= i <= 32,
            forall|j: int| 0 <= j < i ==> a.bytes@[j] == b.bytes@[j],
        decreases 32 - i,
    {
        if a.bytes[i] != b.bytes[i] {
            return false;
        }
        i += 1;
    }
    proof {
        assert(a@ =~= b@);
    }
    true
}

/// One entry of the account list of an invocation: its address, its balance
/// in lamports, and whether it signed the invocation.
#[derive(Clone, Copy, Debug, PartialEq, Eq)]
pub struct Account {
    pub id: AccountId,
    pub lamports: u64,
    pub is_signer: bool,
}

} // verus!
