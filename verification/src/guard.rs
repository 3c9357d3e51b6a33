//! The checks that every instruction runs before it changes anything.

use vstd::prelude::*;
use crate::error::RecordError;

verus! {

/// What an instruction sees of one account.
#[derive(Clone, Debug, PartialEq, Eq)]
pub struct AccountSlot {
    /// The account's address.
    pub key: [u8; 32],
    /// Whether the account signed the instruction.
    pub is_signer: bool,
    /// The account's balance.
    pub lamports: u64,
    /// The account's storage; empty while none is allocated.
    pub data: Vec<u8>,
}

/// An account as a mathematical value.
pub struct AccountView {
    pub key: Seq<u8>,
    pub is_signer: bool,
    pub lamports: u64,
    pub data: Seq<u8>,
}

impl View for AccountSlot {
    type V = AccountView;

    open spec fn view(&self) -> AccountView {
        AccountView {
            key: self.key@,
            is_signer: self.is_signer,
            lamports: self.lamports,
            data: self.data@,
        }
    }
}

/// The views of a list of accounts, in order.
pub open spec fn account_views(accounts: Seq<AccountSlot>) -> Seq<AccountView> {
    Seq::new(accounts.len(), |i: int| accounts[i]@)
}

/// `Ok` where the condition holds, the given error where it does not.
pub open spec fn ok_if(condition: bool, error: RecordError) -> Result<(), RecordError> {
    if condition {
        Ok(())
    } else {
        Err(error)
    }
}

/// Whether two 32-byte values are the same.
pub fn same_bytes(a: &[u8; 32], b: &[u8; 32]) -> (same: bool)
    ensures
        same == (a@ == b@),
{
    let mut i: usize = 0;
    while i < 32
        invariant
            i <= 32,
            forall|j: int| 0 <= j < i ==> a@[j] == b@[j],
        decreases 32 - i,
    {
        if a[i] != b[i] {
            assert(a@[i as int] != b@[i as int]);
            return false;
        }
        i += 1;
    }
    assert(a@ =~= b@);
    true
}

/// The account must have signed the instruction.
pub fn require_signer(account: &AccountSlot) -> (result: Result<(), RecordError>)
    ensures
        result == ok_if(account.is_signer, RecordError::Authorization),
{
    if account.is_signer {
        Ok(())
    } else {
        Err(RecordError::Authorization)
    }
}

/// The account must hold no storage yet.
pub fn require_empty(account: &AccountSlot) -> (result: Result<(), RecordError>)
    ensures
        result == ok_if(account.data@.len() == 0, RecordError::AlreadyInitialized),
{
    if account.data.len() == 0 {
        Ok(())
    } else {
        Err(RecordError::AlreadyInitialized)
    }
}

/// The account must hold storage.
pub fn require_non_empty(account: &AccountSlot) -> (result: Result<(), RecordError>)
    ensures
        result == ok_if(account.data@.len() != 0, RecordError::NotInitialized),
{
    if account.data.len() != 0 {
        Ok(())
    } else {
        Err(RecordError::NotInitialized)
    }
}

/// The address an account is found at must be the one that was derived for it.
pub fn require_address_match(expected: &[u8; 32], actual: &[u8; 32]) -> (result: Result<
    (),
    RecordError,
>)
    ensures
        result == ok_if(expected@ == actual@, RecordError::AddressDerivation),
{
    if same_bytes(expected, actual) {
        Ok(())
    } else {
        Err(RecordError::AddressDerivation)
    }
}

/// The owner that a payload names must be the signer itself.
pub fn require_owner_equals(payload_owner: &[u8; 32], signer: &[u8; 32]) -> (result: Result<
    (),
    RecordError,
>)
    ensures
        result == ok_if(payload_owner@ == signer@, RecordError::OwnerMismatch),
{
    if same_bytes(payload_owner, signer) {
        Ok(())
    } else {
        Err(RecordError::OwnerMismatch)
    }
}

} // verus!
