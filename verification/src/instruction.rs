//! The instruction envelope: a one-byte selector and a fixed payload.

use vstd::prelude::*;
use crate::error::RecordError;
use crate::state::{append, read32, SchemaVersion};

verus! {

/// Length of the payload of an initialize instruction.
pub const INITIALIZE_LEN: usize = 64;

/// Length of the payload of an update instruction.
pub const UPDATE_LEN: usize = 32;

/// What an instruction asks for.
#[derive(Clone, Copy, Debug, PartialEq, Eq, Structural, Hash)]
pub enum Operation {
    Initialize,
    Update,
}

/// The payload of an initialize instruction: the owner, then the data.
#[derive(Clone, Copy, Debug, PartialEq, Eq, Hash)]
pub struct InitializeMyStateIxData {
    pub owner: [u8; 32],
    pub data: [u8; 32],
}

/// The payload of an update instruction: the new data.
#[derive(Clone, Copy, Debug, PartialEq, Eq, Hash)]
pub struct UpdateMyStateIxData {
    pub data: [u8; 32],
}

/// The operation and layout that a selector stands for: 0 and 1 initialize,
/// 2 and 3 update; the even selector of each pair is the first layout.
pub open spec fn route_spec(selector: u8) -> Option<(Operation, SchemaVersion)> {
    if selector == 0 {
        Some((Operation::Initialize, SchemaVersion::V1))
    } else if selector == 1 {
        Some((Operation::Initialize, SchemaVersion::V2))
    } else if selector == 2 {
        Some((Operation::Update, SchemaVersion::V1))
    } else if selector == 3 {
        Some((Operation::Update, SchemaVersion::V2))
    } else {
        None
    }
}

/// The operation and layout that a selector stands for, if it stands for any.
pub fn route(selector: u8) -> (routed: Option<(Operation, SchemaVersion)>)
    ensures
        routed == route_spec(selector),
{
    if selector == 0 {
        Some((Operation::Initialize, SchemaVersion::V1))
    } else if selector == 1 {
        Some((Operation::Initialize, SchemaVersion::V2))
    } else if selector == 2 {
        Some((Operation::Update, SchemaVersion::V1))
    } else if selector == 3 {
        Some((Operation::Update, SchemaVersion::V2))
    } else {
        None
    }
}

impl Operation {
    /// The payload length that the operation implies.
    pub open spec fn payload_len_spec(self) -> nat {
        match self {
            Operation::Initialize => 64,
            Operation::Update => 32,
        }
    }

    /// The payload length that the operation implies.
    pub fn payload_len(self) -> (n: usize)
        ensures
            n == self.payload_len_spec(),
    {
        match self {
            Operation::Initialize => INITIALIZE_LEN,
            Operation::Update => UPDATE_LEN,
        }
    }
}

impl InitializeMyStateIxData {
    /// The payload's bytes.
    pub open spec fn bytes_spec(self) -> Seq<u8> {
        self.owner@ + self.data@
    }

    /// Reads the payload. The buffer must be exactly 64 bytes long.
    pub fn from_bytes(bytes: &[u8]) -> (result: Result<InitializeMyStateIxData, RecordError>)
        ensures
            result is Ok <==> bytes@.len() == 64,
            result is Err ==> result == Err::<InitializeMyStateIxData, RecordError>(
                RecordError::Layout,
            ),
            result is Ok ==> result.unwrap().owner@ == bytes@.subrange(0, 32),
            result is Ok ==> result.unwrap().data@ == bytes@.subrange(32, 64),
    {
        if bytes.len() != INITIALIZE_LEN {
            return Err(RecordError::Layout);
        }
        let owner = read32(bytes, 0);
        let data = read32(bytes, 32);
        Ok(InitializeMyStateIxData { owner, data })
    }

    /// The payload's bytes: the owner, then the data.
    pub fn to_bytes(&self) -> (out: Vec<u8>)
        ensures
            out@ == self.bytes_spec(),
            out@.len() == 64,
    {
        let mut out: Vec<u8> = Vec::new();
        append(&mut out, self.owner.as_slice());
        append(&mut out, self.data.as_slice());
        out
    }
}

impl UpdateMyStateIxData {
    /// Reads the payload. The buffer must be exactly 32 bytes long.
    pub fn from_bytes(bytes: &[u8]) -> (result: Result<UpdateMyStateIxData, RecordError>)
        ensures
            result is Ok <==> bytes@.len() == 32,
            result is Err ==> result == Err::<UpdateMyStateIxData, RecordError>(
                RecordError::Layout,
            ),
            result is Ok ==> result.unwrap().data@ == bytes@,
    {
        if bytes.len() != UPDATE_LEN {
            return Err(RecordError::Layout);
        }
        let data = read32(bytes, 0);
        assert(bytes@.subrange(0, 32) =~= bytes@);
        Ok(UpdateMyStateIxData { data })
    }

    /// The payload's bytes.
    pub fn to_bytes(&self) -> (out: Vec<u8>)
        ensures
            out@ == self.data@,
    {
        let mut out: Vec<u8> = Vec::new();
        append(&mut out, self.data.as_slice());
        out
    }
}

} // verus!
