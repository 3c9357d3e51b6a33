//! The persistent record and its two fixed-size byte layouts.
//!
//! Both layouts start with the same 75 bytes:
//!
//! ```text
//! initialized(1) | owner(32) | state(1) | payload(32) | update_count(8, little endian) | bump(1)
//! ```
//!
//! The second layout adds one reserved byte at the end, so the two differ in
//! length and a buffer of one is never accepted as the other.

use vstd::prelude::*;
use vstd::bytes::{
    spec_u64_from_le_bytes, spec_u64_to_le_bytes, u64_from_le_bytes, u64_to_le_bytes,
    lemma_auto_spec_u64_to_from_le_bytes,
};
use vstd::slice::slice_subrange;
use crate::error::RecordError;

verus! {

/// Length of the fields that both layouts share.
pub const BASE_LEN: usize = 75;

/// Offset of the state marker.
pub const STATE_OFFSET: usize = 33;

/// Offset of the payload.
pub const PAYLOAD_OFFSET: usize = 34;

/// Offset of the update counter.
pub const COUNT_OFFSET: usize = 66;

/// Offset of the bump.
pub const BUMP_OFFSET: usize = 74;

/// Which byte layout a record is stored in.
#[derive(Clone, Copy, Debug, PartialEq, Eq, Structural, Hash)]
pub enum SchemaVersion {
    /// The state marker is a tagged value; there is no reserved byte.
    V1,
    /// The state marker is a raw byte, and one reserved byte ends the record.
    V2,
}

/// Where a record is in its life.
#[derive(Clone, Copy, Debug, PartialEq, Eq, Structural, Hash)]
pub enum State {
    Uninitialized,
    Initialized,
    Updated,
}

/// The persistent record.
#[derive(Clone, Copy, Debug, PartialEq, Eq, Hash)]
pub struct Record {
    pub initialized: bool,
    pub owner: [u8; 32],
    pub state: State,
    pub payload: [u8; 32],
    pub update_count: u64,
    pub bump: u8,
    /// The reserved byte of the second layout; zero in the first.
    pub reserved: u8,
}

/// A record as a mathematical value.
pub struct RecordView {
    pub initialized: bool,
    pub owner: Seq<u8>,
    pub state: State,
    pub payload: Seq<u8>,
    pub update_count: u64,
    pub bump: u8,
    pub reserved: u8,
}

impl SchemaVersion {
    /// The fixed length of a record in this layout.
    pub open spec fn record_len_spec(self) -> nat {
        match self {
            SchemaVersion::V1 => 75,
            SchemaVersion::V2 => 76,
        }
    }

    /// The fixed length of a record in this layout.
    pub fn record_len(self) -> (n: usize)
        ensures
            n == self.record_len_spec(),
    {
        match self {
            SchemaVersion::V1 => BASE_LEN,
            SchemaVersion::V2 => BASE_LEN + 1,
        }
    }
}

impl State {
    /// The byte that stands for this marker in either layout.
    pub open spec fn marker_spec(self) -> u8 {
        match self {
            State::Uninitialized => 0,
            State::Initialized => 1,
            State::Updated => 2,
        }
    }

    /// The marker that a byte stands for, if any.
    pub open spec fn from_marker_spec(b: u8) -> Option<State> {
        if b == 0 {
            Some(State::Uninitialized)
        } else if b == 1 {
            Some(State::Initialized)
        } else if b == 2 {
            Some(State::Updated)
        } else {
            None
        }
    }

    /// The byte that stands for this marker in either layout.
    pub fn marker(self) -> (b: u8)
        ensures
            b == self.marker_spec(),
    {
        match self {
            State::Uninitialized => 0,
            State::Initialized => 1,
            State::Updated => 2,
        }
    }

    /// The marker that a byte stands for, if any.
    pub fn from_marker(b: u8) -> (s: Option<State>)
        ensures
            s == State::from_marker_spec(b),
    {
        if b == 0 {
            Some(State::Uninitialized)
        } else if b == 1 {
            Some(State::Initialized)
        } else if b == 2 {
            Some(State::Updated)
        } else {
            None
        }
    }
}

impl RecordView {
    /// A record that a layout can hold: both 32-byte fields have their
    /// length, and the first layout, which has no reserved byte, keeps it zero.
    pub open spec fn well_formed(self, version: SchemaVersion) -> bool {
        &&& self.owner.len() == 32
        &&& self.payload.len() == 32
        &&& version == SchemaVersion::V1 ==> self.reserved == 0
    }
}

impl View for Record {
    type V = RecordView;

    open spec fn view(&self) -> RecordView {
        RecordView {
            initialized: self.initialized,
            owner: self.owner@,
            state: self.state,
            payload: self.payload@,
            update_count: self.update_count,
            bump: self.bump,
            reserved: self.reserved,
        }
    }
}

/// The byte of the `initialized` flag.
pub open spec fn flag_byte(b: bool) -> u8 {
    if b {
        1
    } else {
        0
    }
}

/// The bytes of a record in the given layout.
pub open spec fn encode_spec(r: RecordView, version: SchemaVersion) -> Seq<u8> {
    let base = seq![flag_byte(r.initialized)] + r.owner + seq![r.state.marker_spec()] + r.payload
        + spec_u64_to_le_bytes(r.update_count) + seq![r.bump];
    match version {
        SchemaVersion::V1 => base,
        SchemaVersion::V2 => base + seq![r.reserved],
    }
}

/// Whether a buffer is a record of the given layout: it has exactly the
/// layout's length, its flag byte is 0 or 1, and its state byte is a marker.
pub open spec fn layout_ok(bytes: Seq<u8>, version: SchemaVersion) -> bool {
    &&& bytes.len() == version.record_len_spec()
    &&& bytes[0] <= 1
    &&& bytes[33] <= 2
}

/// What a buffer decodes to in the given layout.
pub open spec fn decode_spec(bytes: Seq<u8>, version: SchemaVersion) -> Result<
    RecordView,
    RecordError,
> {
    if layout_ok(bytes, version) {
        Ok(
            RecordView {
                initialized: bytes[0] == 1,
                owner: bytes.subrange(1, 33),
                state: State::from_marker_spec(bytes[33]).unwrap(),
                payload: bytes.subrange(34, 66),
                update_count: spec_u64_from_le_bytes(bytes.subrange(66, 74)),
                bump: bytes[74],
                reserved: match version {
                    SchemaVersion::V1 => 0,
                    SchemaVersion::V2 => bytes[75],
                },
            },
        )
    } else {
        Err(RecordError::Layout)
    }
}

/// The view of what `decode` returns.
pub open spec fn decoded_view(r: Result<Record, RecordError>) -> Result<RecordView, RecordError> {
    match r {
        Ok(rec) => Ok(rec@),
        Err(e) => Err(e),
    }
}

/// Copies 32 bytes out of a buffer.
pub fn read32(src: &[u8], start: usize) -> (out: [u8; 32])
    requires
        start + 32 <= src@.len(),
    ensures
        out@ == src@.subrange(start as int, start + 32),
{
    let n = src.len();
    let mut out = [0u8; 32];
    let mut i: usize = 0;
    while i < 32
        invariant
            i <= 32,
            n == src@.len(),
            start + 32 <= n,
            forall|j: int| 0 <= j < i ==> out@[j] == src@[start + j],
        decreases 32 - i,
    {
        out[i] = src[start + i];
        i += 1;
    }
    assert(out@ =~= src@.subrange(start as int, start + 32));
    out
}

/// Appends a buffer to a vector.
pub fn append(out: &mut Vec<u8>, src: &[u8])
    ensures
        final(out)@ == old(out)@ + src@,
{
    let ghost before = out@;
    let mut i: usize = 0;
    while i < src.len()
        invariant
            i <= src@.len(),
            out@ == before + src@.subrange(0, i as int),
        decreases src@.len() - i,
    {
        out.push(src[i]);
        i += 1;
        assert(out@ =~= before + src@.subrange(0, i as int));
    }
    assert(src@.subrange(0, i as int) =~= src@);
}

impl Record {
    /// Whether the layout can hold the record as it is: the first layout has
    /// no reserved byte, so there the record's must be zero.
    pub fn fits(&self, version: SchemaVersion) -> (fits: bool)
        ensures
            fits == self@.well_formed(version),
    {
        match version {
            SchemaVersion::V1 => self.reserved == 0,
            SchemaVersion::V2 => true,
        }
    }

    /// The bytes of the record in the given layout. The first layout has no
    /// reserved byte, so there `reserved` is left out.
    pub fn encode(&self, version: SchemaVersion) -> (out: Vec<u8>)
        ensures
            out@ == encode_spec(self@, version),
            out@.len() == version.record_len_spec(),
    {
        proof {
            lemma_auto_spec_u64_to_from_le_bytes();
        }
        let mut out: Vec<u8> = Vec::new();
        out.push(if self.initialized { 1u8 } else { 0u8 });
        append(&mut out, self.owner.as_slice());
        out.push(self.state.marker());
        append(&mut out, self.payload.as_slice());
        let count = u64_to_le_bytes(self.update_count);
        append(&mut out, count.as_slice());
        out.push(self.bump);
        match version {
            SchemaVersion::V1 => {},
            SchemaVersion::V2 => {
                out.push(self.reserved);
            },
        }
        assert(out@ =~= encode_spec(self@, version));
        out
    }

    /// Reads a record of the given layout. The buffer must have exactly the
    /// layout's length and hold a flag byte and a state marker that the layout
    /// knows; anything else is a layout error. Nothing outside the buffer is
    /// read.
    pub fn decode(bytes: &[u8], version: SchemaVersion) -> (result: Result<Record, RecordError>)
        ensures
            decoded_view(result) == decode_spec(bytes@, version),
            result is Ok ==> result.unwrap()@.well_formed(version),
    {
        if bytes.len() != version.record_len() {
            return Err(RecordError::Layout);
        }
        if bytes[0] > 1 {
            return Err(RecordError::Layout);
        }
        let state = match State::from_marker(bytes[STATE_OFFSET]) {
            Some(s) => s,
            None => {
                return Err(RecordError::Layout);
            },
        };
        let owner = read32(bytes, 1);
        let payload = read32(bytes, PAYLOAD_OFFSET);
        let update_count = u64_from_le_bytes(slice_subrange(bytes, COUNT_OFFSET, BUMP_OFFSET));
        let reserved: u8 = match version {
            SchemaVersion::V1 => 0,
            SchemaVersion::V2 => bytes[BASE_LEN],
        };
        Ok(
            Record {
                initialized: bytes[0] == 1,
                owner,
                state,
                payload,
                update_count,
                bump: bytes[BUMP_OFFSET],
                reserved,
            },
        )
    }
}

/// The bytes of a record have exactly the layout's length.
pub proof fn lemma_encoded_len(r: RecordView, version: SchemaVersion)
    requires
        r.owner.len() == 32,
        r.payload.len() == 32,
    ensures
        encode_spec(r, version).len() == version.record_len_spec(),
{
    lemma_auto_spec_u64_to_from_le_bytes();
}

/// Decoding what was encoded gives the record back, in either layout.
pub proof fn lemma_round_trip(r: RecordView, version: SchemaVersion)
    requires
        r.well_formed(version),
    ensures
        decode_spec(encode_spec(r, version), version) == Ok::<RecordView, RecordError>(r),
{
    lemma_auto_spec_u64_to_from_le_bytes();
    let bytes = encode_spec(r, version);
    let count = spec_u64_to_le_bytes(r.update_count);
    assert(bytes.len() == version.record_len_spec());
    assert(bytes.subrange(1, 33) =~= r.owner);
    assert(bytes.subrange(34, 66) =~= r.payload);
    assert(bytes.subrange(66, 74) =~= count);
    assert(bytes[33] == r.state.marker_spec());
    assert(bytes[74] == r.bump);
}

/// The two layouts do not mix: the bytes of a record in one layout are
/// refused by the codec of the other.
pub proof fn lemma_schema_isolation(r: RecordView, written: SchemaVersion, read: SchemaVersion)
    requires
        r.well_formed(written),
        written != read,
    ensures
        decode_spec(encode_spec(r, written), read) == Err::<RecordView, RecordError>(
            RecordError::Layout,
        ),
{
    lemma_encoded_len(r, written);
}

} // verus!
