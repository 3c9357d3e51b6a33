//! Updating a record: decode, overwrite the payload, count, encode.

use vstd::prelude::*;
use crate::error::RecordError;
use crate::guard::{account_views, require_non_empty, require_signer, AccountSlot, AccountView};
use crate::instruction::UpdateMyStateIxData;
use crate::lifecycle::{initialize_outcome, lemma_plan_shape};
use crate::state::{
    decode_spec, encode_spec, lemma_encoded_len, lemma_round_trip, Record, RecordView,
    SchemaVersion, State,
};

verus! {

/// Number of accounts of an update instruction: the payer and the record slot.
pub const UPDATE_ACCOUNTS: usize = 2;

/// The counter after one more update; it wraps at the width of 64 bits.
pub open spec fn next_count(count: u64) -> u64 {
    if count == u64::MAX {
        0
    } else {
        (count + 1) as u64
    }
}

/// The record after an update with the given data: the payload is replaced,
/// the state is `Updated`, the counter has advanced by one, and everything
/// else is as before.
pub open spec fn updated_spec(r: RecordView, data: Seq<u8>) -> RecordView {
    RecordView { state: State::Updated, payload: data, update_count: next_count(r.update_count), ..r }
}

/// The record after a run of updates, one for each payload, in order.
pub open spec fn after_updates(r: RecordView, payloads: Seq<Seq<u8>>) -> RecordView
    decreases payloads.len(),
{
    if payloads.len() == 0 {
        r
    } else {
        updated_spec(after_updates(r, payloads.drop_last()), payloads.last())
    }
}

/// What an update instruction comes to. The checks run in this order: the
/// shape of the account list, the payer's signature, storage in the record
/// slot, the payload's length, the layout of what is stored. Then the new
/// bytes of the record are the result.
pub open spec fn update_outcome(accounts: Seq<AccountView>, data: Seq<u8>, version: SchemaVersion)
    -> Result<Seq<u8>, RecordError> {
    if accounts.len() != 2 {
        Err(RecordError::AccountShape)
    } else if !accounts[0].is_signer {
        Err(RecordError::Authorization)
    } else if accounts[1].data.len() == 0 {
        Err(RecordError::NotInitialized)
    } else if data.len() != 32 {
        Err(RecordError::Layout)
    } else {
        match decode_spec(accounts[1].data, version) {
            Err(e) => Err(e),
            Ok(record) => Ok(encode_spec(updated_spec(record, data), version)),
        }
    }
}

/// The view of what an update returns.
pub open spec fn bytes_view(result: Result<Vec<u8>, RecordError>) -> Result<Seq<u8>, RecordError> {
    match result {
        Ok(bytes) => Ok(bytes@),
        Err(e) => Err(e),
    }
}

impl Record {
    /// Applies one update: replaces the payload, marks the record as updated
    /// and advances the counter by one, wrapping at 64 bits.
    pub fn apply_update(&mut self, data: &[u8; 32])
        ensures
            final(self)@ == updated_spec(old(self)@, data@),
    {
        self.payload = *data;
        self.state = State::Updated;
        self.update_count = if self.update_count == u64::MAX {
            0
        } else {
            self.update_count + 1
        };
    }
}

/// Handles an update instruction and returns the bytes that replace the
/// record's storage. Nothing is returned to write unless every check passed.
pub fn process_update_state(accounts: &[AccountSlot], data: &[u8], version: SchemaVersion) -> (result:
    Result<Vec<u8>, RecordError>)
    ensures
        bytes_view(result) == update_outcome(account_views(accounts@), data@, version),
        result is Ok ==> result.unwrap()@.len() == version.record_len_spec(),
{
    if accounts.len() != UPDATE_ACCOUNTS {
        return Err(RecordError::AccountShape);
    }
    let payer = &accounts[0];
    let slot = &accounts[1];
    assert(account_views(accounts@)[0] == payer@);
    assert(account_views(accounts@)[1] == slot@);
    match require_signer(payer) {
        Err(e) => {
            return Err(e);
        },
        Ok(_) => {},
    }
    match require_non_empty(slot) {
        Err(e) => {
            return Err(e);
        },
        Ok(_) => {},
    }
    let ix = match UpdateMyStateIxData::from_bytes(data) {
        Err(e) => {
            return Err(e);
        },
        Ok(ix) => ix,
    };
    let mut record = match Record::decode(slot.data.as_slice(), version) {
        Err(e) => {
            return Err(e);
        },
        Ok(record) => record,
    };
    record.apply_update(&ix.data);
    Ok(record.encode(version))
}

/// An update of a stored record stores the updated record: where the record
/// slot holds the bytes of `r`, a signed update with 32 bytes of data returns
/// the bytes of `r` after that update.
pub proof fn lemma_update_of_encoded(
    accounts: Seq<AccountView>,
    data: Seq<u8>,
    version: SchemaVersion,
    r: RecordView,
)
    requires
        accounts.len() == 2,
        accounts[0].is_signer,
        data.len() == 32,
        r.well_formed(version),
        accounts[1].data == encode_spec(r, version),
    ensures
        update_outcome(accounts, data, version) == Ok::<Seq<u8>, RecordError>(
            encode_spec(updated_spec(r, data), version),
        ),
        updated_spec(r, data).well_formed(version),
{
    lemma_round_trip(r, version);
    lemma_encoded_len(r, version);
}

/// The accounts of an update: the payer, and the record slot holding `bytes`.
pub open spec fn update_accounts(payer: AccountView, slot: AccountView, bytes: Seq<u8>) -> Seq<
    AccountView,
> {
    seq![payer, AccountView { data: bytes, ..slot }]
}

/// What the record slot holds after a run of update instructions, one for
/// each payload in order, each written back before the next; the first error
/// ends the run.
pub open spec fn stored_after(
    payer: AccountView,
    slot: AccountView,
    bytes: Seq<u8>,
    payloads: Seq<Seq<u8>>,
    version: SchemaVersion,
) -> Result<Seq<u8>, RecordError>
    decreases payloads.len(),
{
    if payloads.len() == 0 {
        Ok(bytes)
    } else {
        match stored_after(payer, slot, bytes, payloads.drop_last(), version) {
            Err(e) => Err(e),
            Ok(previous) => update_outcome(
                update_accounts(payer, slot, previous),
                payloads.last(),
                version,
            ),
        }
    }
}

/// A run of signed updates on a stored record succeeds and stores the record
/// after those updates: the slot then holds the bytes of `after_updates`.
pub proof fn lemma_updates_of_encoded(
    payer: AccountView,
    slot: AccountView,
    r: RecordView,
    payloads: Seq<Seq<u8>>,
    version: SchemaVersion,
)
    requires
        payer.is_signer,
        r.well_formed(version),
        forall|i: int| 0 <= i < payloads.len() ==> (#[trigger] payloads[i]).len() == 32,
    ensures
        stored_after(payer, slot, encode_spec(r, version), payloads, version) == Ok::<
            Seq<u8>,
            RecordError,
        >(encode_spec(after_updates(r, payloads), version)),
        after_updates(r, payloads).well_formed(version),
    decreases payloads.len(),
{
    if payloads.len() > 0 {
        let earlier = payloads.drop_last();
        lemma_updates_of_encoded(payer, slot, r, earlier, version);
        let before = after_updates(r, earlier);
        lemma_update_of_encoded(
            update_accounts(payer, slot, encode_spec(before, version)),
            payloads.last(),
            version,
            before,
        );
    }
}

/// The counter counts the updates: after a run of updates it has advanced by
/// their number, modulo 2^64, so a record created with a counter of zero shows
/// exactly the number of updates while that number fits in 64 bits. The
/// payload is the data of the latest update; owner, bump, flag and reserved
/// byte never change.
pub proof fn lemma_update_counter(r: RecordView, payloads: Seq<Seq<u8>>)
    ensures
        after_updates(r, payloads).update_count as int == (r.update_count + payloads.len())
            % 0x1_0000_0000_0000_0000,
        r.update_count == 0 && payloads.len() <= u64::MAX ==> after_updates(
            r,
            payloads,
        ).update_count == payloads.len(),
        payloads.len() > 0 ==> after_updates(r, payloads).payload == payloads.last(),
        payloads.len() > 0 ==> after_updates(r, payloads).state == State::Updated,
        after_updates(r, payloads).owner == r.owner,
        after_updates(r, payloads).bump == r.bump,
        after_updates(r, payloads).initialized == r.initialized,
        after_updates(r, payloads).reserved == r.reserved,
    decreases payloads.len(),
{
    if payloads.len() > 0 {
        lemma_update_counter(r, payloads.drop_last());
    }
}

/// From creation on, the counter is the number of updates: where a creation
/// was planned and its bytes were stored, a run of signed updates leaves the
/// record with a counter equal to the length of the run and with the data of
/// the latest update, still owned by the payer that created it.
pub proof fn lemma_counter_from_creation(
    accounts: Seq<AccountView>,
    data: Seq<u8>,
    version: SchemaVersion,
    tag: Seq<u8>,
    program_id: Seq<u8>,
    rent_minimum: u64,
    derived: Option<(Seq<u8>, u8)>,
    payer: AccountView,
    slot: AccountView,
    payloads: Seq<Seq<u8>>,
)
    requires
        initialize_outcome(accounts, data, version, tag, program_id, rent_minimum, derived) is Ok,
        payer.is_signer,
        payloads.len() <= u64::MAX,
        forall|i: int| 0 <= i < payloads.len() ==> (#[trigger] payloads[i]).len() == 32,
    ensures
        ({
            let plan = initialize_outcome(
                accounts,
                data,
                version,
                tag,
                program_id,
                rent_minimum,
                derived,
            ).unwrap();
            let last = after_updates(plan.record, payloads);
            &&& stored_after(payer, slot, plan.bytes, payloads, version) == Ok::<
                Seq<u8>,
                RecordError,
            >(encode_spec(last, version))
            &&& last.update_count == payloads.len()
            &&& payloads.len() > 0 ==> last.payload == payloads.last()
            &&& last.owner == accounts[0].key
            &&& last.bump == plan.bump
        }),
{
    let plan = initialize_outcome(
        accounts,
        data,
        version,
        tag,
        program_id,
        rent_minimum,
        derived,
    ).unwrap();
    lemma_plan_shape(accounts, data, version, tag, program_id, rent_minimum, derived);
    lemma_updates_of_encoded(payer, slot, plan.record, payloads, version);
    lemma_update_counter(plan.record, payloads);
}

} // verus!
