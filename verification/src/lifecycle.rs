//! Creating a record: every check, then the plan of what to allocate and write.

use vstd::prelude::*;
use crate::address::{
    address_view, derive_record_address, found_program_address, record_seeds, RecordAddress,
};
use crate::error::RecordError;
use crate::guard::{
    account_views, require_address_match, require_empty, require_owner_equals, require_signer,
    AccountSlot, AccountView,
};
use crate::instruction::InitializeMyStateIxData;
use crate::state::{
    append, decode_spec, encode_spec, lemma_encoded_len, lemma_round_trip, Record, RecordView,
    SchemaVersion, State,
};

verus! {

/// Number of accounts of an initialize instruction: the payer, the record
/// slot, the rent reference and the allocation primitive.
pub const INITIALIZE_ACCOUNTS: usize = 4;

/// What the host has to carry out to create a record. Nothing has been
/// changed when a plan is returned; all checks have passed.
#[derive(Clone, Debug, PartialEq, Eq)]
pub struct CreatePlan {
    /// Balance to move from the payer to the new account.
    pub lamports: u64,
    /// Bytes of storage to allocate.
    pub space: u64,
    /// The program that alone may write to the new account.
    pub program_id: [u8; 32],
    /// The namespace tag, first of the signer seeds.
    pub tag: Vec<u8>,
    /// The bump, last of the signer seeds `[tag, owner, bump]`.
    pub bump: u8,
    /// The record to persist.
    pub record: Record,
    /// The record's bytes, to be written to the new storage.
    pub bytes: Vec<u8>,
}

/// A plan as a mathematical value.
pub struct CreatePlanView {
    pub lamports: u64,
    pub space: u64,
    pub program_id: Seq<u8>,
    pub tag: Seq<u8>,
    pub bump: u8,
    pub record: RecordView,
    pub bytes: Seq<u8>,
}

impl CreatePlanView {
    /// The seeds with which the program signs for the record's address: the
    /// namespace tag, the owner, and the bump as a seed of one byte.
    pub open spec fn signer_seeds(self) -> Seq<Seq<u8>> {
        seq![self.tag, self.record.owner, seq![self.bump]]
    }
}

impl View for CreatePlan {
    type V = CreatePlanView;

    open spec fn view(&self) -> CreatePlanView {
        CreatePlanView {
            lamports: self.lamports,
            space: self.space,
            program_id: self.program_id@,
            tag: self.tag@,
            bump: self.bump,
            record: self.record@,
            bytes: self.bytes@,
        }
    }
}

/// The view of what planning returns.
pub open spec fn plan_view(result: Result<CreatePlan, RecordError>) -> Result<
    CreatePlanView,
    RecordError,
> {
    match result {
        Ok(plan) => Ok(plan@),
        Err(e) => Err(e),
    }
}

/// The record that creation persists.
pub open spec fn initial_record(owner: Seq<u8>, data: Seq<u8>, bump: u8) -> RecordView {
    RecordView {
        initialized: true,
        owner,
        state: State::Initialized,
        payload: data,
        update_count: 0,
        bump,
        reserved: 0,
    }
}

/// The owner that a payload names.
pub open spec fn payload_owner(data: Seq<u8>) -> Seq<u8> {
    data.subrange(0, 32)
}

/// The checks on the accounts alone, in their order: the shape of the list,
/// the payer's signature, the empty record slot.
pub open spec fn accounts_check_spec(accounts: Seq<AccountView>) -> Result<(), RecordError> {
    if accounts.len() != 4 {
        Err(RecordError::AccountShape)
    } else if !accounts[0].is_signer {
        Err(RecordError::Authorization)
    } else if accounts[1].data.len() != 0 {
        Err(RecordError::AlreadyInitialized)
    } else {
        Ok(())
    }
}

/// The checks that need no derivation, in their order: those on the accounts,
/// then the payload's length, then the payload's owner being the payer.
pub open spec fn precheck_spec(accounts: Seq<AccountView>, data: Seq<u8>) -> Result<
    (),
    RecordError,
> {
    if accounts_check_spec(accounts) is Err {
        accounts_check_spec(accounts)
    } else if data.len() != 64 {
        Err(RecordError::Layout)
    } else if payload_owner(data) != accounts[0].key {
        Err(RecordError::OwnerMismatch)
    } else {
        Ok(())
    }
}

/// What an initialize instruction comes to, given what the derivation of the
/// owner's address returned. After the checks of `precheck_spec`, the record
/// slot must be at the derived address, and the payer must hold the
/// rent-exempt minimum; then the plan allocates the layout's length, funded
/// with that minimum and written to by the program alone, names the tag and
/// the bump to sign with, and persists the initial record.
pub open spec fn initialize_outcome(
    accounts: Seq<AccountView>,
    data: Seq<u8>,
    version: SchemaVersion,
    tag: Seq<u8>,
    program_id: Seq<u8>,
    rent_minimum: u64,
    derived: Option<(Seq<u8>, u8)>,
) -> Result<CreatePlanView, RecordError> {
    match precheck_spec(accounts, data) {
        Err(e) => Err(e),
        Ok(_) => match derived {
            None => Err(RecordError::AddressDerivation),
            Some((address, bump)) => {
                if address != accounts[1].key {
                    Err(RecordError::AddressDerivation)
                } else if accounts[0].lamports < rent_minimum {
                    Err(RecordError::Funding)
                } else {
                    let record = initial_record(payload_owner(data), data.subrange(32, 64), bump);
                    Ok(
                        CreatePlanView {
                            lamports: rent_minimum,
                            space: version.record_len_spec() as u64,
                            program_id,
                            tag,
                            bump,
                            record,
                            bytes: encode_spec(record, version),
                        },
                    )
                }
            },
        },
    }
}

/// Runs the checks on the accounts alone.
pub fn check_initialize_accounts(accounts: &[AccountSlot]) -> (result: Result<(), RecordError>)
    ensures
        result == accounts_check_spec(account_views(accounts@)),
{
    if accounts.len() != INITIALIZE_ACCOUNTS {
        return Err(RecordError::AccountShape);
    }
    let payer = &accounts[0];
    let slot = &accounts[1];
    assert(account_views(accounts@)[0] == payer@);
    assert(account_views(accounts@)[1] == slot@);
    match require_signer(payer) {
        Err(e) => {
            return Err(e);
        },
        Ok(_) => {},
    }
    require_empty(slot)
}

/// Runs the checks that need no derivation and reads the payload.
pub fn check_initialize(accounts: &[AccountSlot], data: &[u8]) -> (result: Result<
    InitializeMyStateIxData,
    RecordError,
>)
    ensures
        match result {
            Ok(ix) => {
                &&& precheck_spec(account_views(accounts@), data@) is Ok
                &&& ix.owner@ == payload_owner(data@)
                &&& ix.data@ == data@.subrange(32, 64)
            },
            Err(e) => precheck_spec(account_views(accounts@), data@) == Err::<(), RecordError>(e),
        },
{
    match check_initialize_accounts(accounts) {
        Err(e) => {
            return Err(e);
        },
        Ok(_) => {},
    }
    let payer = &accounts[0];
    assert(account_views(accounts@)[0] == payer@);
    let ix = match InitializeMyStateIxData::from_bytes(data) {
        Err(e) => {
            return Err(e);
        },
        Ok(ix) => ix,
    };
    match require_owner_equals(&ix.owner, &payer.key) {
        Err(e) => {
            return Err(e);
        },
        Ok(_) => {},
    }
    Ok(ix)
}

/// The second half of creation: binds the record slot to the derived address,
/// checks the funding, and writes the plan.
fn bind_and_plan(
    accounts: &[AccountSlot],
    data: Ghost<Seq<u8>>,
    ix: InitializeMyStateIxData,
    version: SchemaVersion,
    tag: &[u8],
    program_id: &[u8; 32],
    rent_minimum: u64,
    derived: Option<RecordAddress>,
) -> (result: Result<CreatePlan, RecordError>)
    requires
        precheck_spec(account_views(accounts@), data@) is Ok,
        ix.owner@ == payload_owner(data@),
        ix.data@ == data@.subrange(32, 64),
    ensures
        plan_view(result) == initialize_outcome(
            account_views(accounts@),
            data@,
            version,
            tag@,
            program_id@,
            rent_minimum,
            address_view(derived),
        ),
        result is Ok ==> result.unwrap().bytes@.len() == version.record_len_spec(),
{
    let payer = &accounts[0];
    let slot = &accounts[1];
    assert(account_views(accounts@)[0] == payer@);
    assert(account_views(accounts@)[1] == slot@);
    let found = match derived {
        None => {
            return Err(RecordError::AddressDerivation);
        },
        Some(found) => found,
    };
    match require_address_match(&found.address, &slot.key) {
        Err(e) => {
            return Err(e);
        },
        Ok(_) => {},
    }
    if payer.lamports < rent_minimum {
        return Err(RecordError::Funding);
    }
    let record = Record {
        initialized: true,
        owner: ix.owner,
        state: State::Initialized,
        payload: ix.data,
        update_count: 0,
        bump: found.bump,
        reserved: 0,
    };
    let bytes = record.encode(version);
    let space = version.record_len() as u64;
    let mut plan_tag: Vec<u8> = Vec::new();
    append(&mut plan_tag, tag);
    Ok(
        CreatePlan {
            lamports: rent_minimum,
            space,
            program_id: *program_id,
            tag: plan_tag,
            bump: found.bump,
            record,
            bytes,
        },
    )
}

/// Plans the creation of a record from what the derivation of the owner's
/// address returned. The checks run in order and the first that fails is the
/// error; a plan is returned only when all have passed.
pub fn plan_initialize(
    accounts: &[AccountSlot],
    data: &[u8],
    version: SchemaVersion,
    tag: &[u8],
    program_id: &[u8; 32],
    rent_minimum: u64,
    derived: Option<RecordAddress>,
) -> (result: Result<CreatePlan, RecordError>)
    ensures
        plan_view(result) == initialize_outcome(
            account_views(accounts@),
            data@,
            version,
            tag@,
            program_id@,
            rent_minimum,
            address_view(derived),
        ),
        result is Ok ==> result.unwrap().bytes@.len() == version.record_len_spec(),
{
    match check_initialize(accounts, data) {
        Err(e) => Err(e),
        Ok(ix) => bind_and_plan(
            accounts,
            Ghost(data@),
            ix,
            version,
            tag,
            program_id,
            rent_minimum,
            derived,
        ),
    }
}

/// Handles an initialize instruction: checks the accounts and the payload,
/// derives the address of the owner's record under `tag` and `program_id`,
/// and plans the creation as `plan_initialize` does from that derivation.
pub fn process_initilaize_state(
    accounts: &[AccountSlot],
    data: &[u8],
    version: SchemaVersion,
    tag: &[u8],
    program_id: &[u8; 32],
    rent_minimum: u64,
) -> (result: Result<CreatePlan, RecordError>)
    ensures
        plan_view(result) == initialize_outcome(
            account_views(accounts@),
            data@,
            version,
            tag@,
            program_id@,
            rent_minimum,
            found_program_address(record_seeds(tag@, payload_owner(data@)), program_id@),
        ),
        result is Ok ==> result.unwrap().bytes@.len() == version.record_len_spec(),
{
    match check_initialize(accounts, data) {
        Err(e) => Err(e),
        Ok(ix) => {
            let derived = derive_record_address(tag, &ix.owner, program_id);
            bind_and_plan(
                accounts,
                Ghost(data@),
                ix,
                version,
                tag,
                program_id,
                rent_minimum,
                derived,
            )
        },
    }
}

/// A record is created once: after a creation has been planned and its bytes
/// stand in the record slot, every further initialize instruction on those
/// accounts is refused as already initialized, whatever its payload, and so
/// plans nothing: the record stays as the first creation left it.
pub proof fn lemma_single_creation(
    accounts: Seq<AccountView>,
    data: Seq<u8>,
    version: SchemaVersion,
    tag: Seq<u8>,
    program_id: Seq<u8>,
    rent_minimum: u64,
    derived: Option<(Seq<u8>, u8)>,
    after: Seq<AccountView>,
    second_data: Seq<u8>,
    second_version: SchemaVersion,
    second_rent: u64,
    second_derived: Option<(Seq<u8>, u8)>,
)
    requires
        initialize_outcome(accounts, data, version, tag, program_id, rent_minimum, derived) is Ok,
        after.len() == accounts.len(),
        after[0].is_signer == accounts[0].is_signer,
        after[1].data == initialize_outcome(
            accounts,
            data,
            version,
            tag,
            program_id,
            rent_minimum,
            derived,
        ).unwrap().bytes,
    ensures
        initialize_outcome(
            after,
            second_data,
            second_version,
            tag,
            program_id,
            second_rent,
            second_derived,
        ) == Err::<CreatePlanView, RecordError>(RecordError::AlreadyInitialized),
{
    let plan = initialize_outcome(
        accounts,
        data,
        version,
        tag,
        program_id,
        rent_minimum,
        derived,
    ).unwrap();
    lemma_encoded_len(plan.record, version);
}

/// Creation is self-service: where the payload names an owner other than the
/// payer, the instruction is refused as an owner mismatch and nothing is
/// planned, whatever was derived and whatever the payer holds.
pub proof fn lemma_owner_mismatch_refused(
    accounts: Seq<AccountView>,
    data: Seq<u8>,
    version: SchemaVersion,
    tag: Seq<u8>,
    program_id: Seq<u8>,
    rent_minimum: u64,
    derived: Option<(Seq<u8>, u8)>,
)
    requires
        accounts_check_spec(accounts) is Ok,
        data.len() == 64,
        payload_owner(data) != accounts[0].key,
    ensures
        initialize_outcome(accounts, data, version, tag, program_id, rent_minimum, derived) == Err::<
            CreatePlanView,
            RecordError,
        >(RecordError::OwnerMismatch),
{
}

/// The record slot is bound to the derived address: where the earlier checks
/// pass and the slot is anywhere else, the instruction is refused as an
/// address mismatch, before the payer's balance is even looked at.
pub proof fn lemma_address_binding(
    accounts: Seq<AccountView>,
    data: Seq<u8>,
    version: SchemaVersion,
    tag: Seq<u8>,
    program_id: Seq<u8>,
    rent_minimum: u64,
    derived: Option<(Seq<u8>, u8)>,
)
    requires
        precheck_spec(accounts, data) is Ok,
        derived is None || derived.unwrap().0 != accounts[1].key,
    ensures
        initialize_outcome(accounts, data, version, tag, program_id, rent_minimum, derived) == Err::<
            CreatePlanView,
            RecordError,
        >(RecordError::AddressDerivation),
{
}

/// A plan, where there is one, creates exactly the record that was asked for:
/// owned by the payer, carrying the payload's data and the derived bump, not
/// yet updated, in storage of the layout's length at the derived address.
pub proof fn lemma_plan_shape(
    accounts: Seq<AccountView>,
    data: Seq<u8>,
    version: SchemaVersion,
    tag: Seq<u8>,
    program_id: Seq<u8>,
    rent_minimum: u64,
    derived: Option<(Seq<u8>, u8)>,
)
    requires
        initialize_outcome(accounts, data, version, tag, program_id, rent_minimum, derived) is Ok,
    ensures
        ({
            let plan = initialize_outcome(
                accounts,
                data,
                version,
                tag,
                program_id,
                rent_minimum,
                derived,
            ).unwrap();
            &&& derived == Some((accounts[1].key, plan.bump))
            &&& plan.record.owner == accounts[0].key
            &&& plan.record.well_formed(version)
            &&& plan.record.update_count == 0
            &&& plan.record.initialized
            &&& plan.record.state == State::Initialized
            &&& plan.bytes.len() == version.record_len_spec()
            &&& plan.space == plan.bytes.len()
            &&& decode_spec(plan.bytes, version) == Ok::<RecordView, RecordError>(plan.record)
            &&& plan.lamports <= accounts[0].lamports
        }),
{
    let plan = initialize_outcome(
        accounts,
        data,
        version,
        tag,
        program_id,
        rent_minimum,
        derived,
    ).unwrap();
    lemma_encoded_len(plan.record, version);
    lemma_round_trip(plan.record, version);
}

} // verus!
