//! The ways an instruction can fail.

use vstd::prelude::*;

verus! {

/// Why an instruction was refused. Every error is final for the instruction:
/// the first failing check is returned and nothing is written.
#[derive(Clone, Copy, Debug, PartialEq, Eq, Structural, Hash)]
pub enum RecordError {
    /// The account list does not have the expected number of entries.
    AccountShape,
    /// The payer did not sign the instruction.
    Authorization,
    /// The owner named in the payload is not the payer.
    OwnerMismatch,
    /// The record slot already holds storage.
    AlreadyInitialized,
    /// The record slot holds no storage.
    NotInitialized,
    /// The record slot is not at the address derived for the owner.
    AddressDerivation,
    /// A byte buffer is not a well-laid-out value of the expected kind.
    Layout,
    /// The payer cannot fund a rent-exempt allocation.
    Funding,
}

impl RecordError {
    /// The numeric code under which the host reports this error.
    pub open spec fn code_spec(self) -> u32 {
        match self {
            RecordError::AccountShape => 0,
            RecordError::Authorization => 1,
            RecordError::OwnerMismatch => 2,
            RecordError::AlreadyInitialized => 3,
            RecordError::NotInitialized => 4,
            RecordError::AddressDerivation => 5,
            RecordError::Layout => 6,
            RecordError::Funding => 7,
        }
    }

    /// The numeric code under which the host reports this error; distinct
    /// errors have distinct codes.
    pub fn code(self) -> (c: u32)
        ensures
            c == self.code_spec(),
    {
        match self {
            RecordError::AccountShape => 0,
            RecordError::Authorization => 1,
            RecordError::OwnerMismatch => 2,
            RecordError::AlreadyInitialized => 3,
            RecordError::NotInitialized => 4,
            RecordError::AddressDerivation => 5,
            RecordError::Layout => 6,
            RecordError::Funding => 7,
        }
    }
}

} // verus!
