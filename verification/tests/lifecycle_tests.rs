use solana_pinocchio_starter::address::{
    check_claimed_address, derive_record_address, verify_record_address, RecordAddress,
};
use solana_pinocchio_starter::error::RecordError;
use solana_pinocchio_starter::guard::{
    require_address_match, require_empty, require_non_empty, require_owner_equals, require_signer,
    same_bytes, AccountSlot,
};
use solana_pinocchio_starter::instruction::{
    route, InitializeMyStateIxData, Operation, UpdateMyStateIxData,
};
use solana_pinocchio_starter::lifecycle::{
    check_initialize, check_initialize_accounts, plan_initialize, process_initilaize_state,
    CreatePlan,
};
use solana_pinocchio_starter::state::{Record, SchemaVersion, State};
use solana_pinocchio_starter::update::process_update_state;

const LAMPORTS_PER_SOL: u64 = 1_000_000_000;
const TAG: &[u8] = b"mystate";

fn program() -> [u8; 32] {
    pinocchio_pubkey::from_str("3F5q36zsGX3Lcd8FQb7vTYmphvxHY8TFdBJVZzzepz31")
}

fn rent_id() -> [u8; 32] {
    pinocchio_pubkey::from_str("SysvarRent111111111111111111111111111111111")
}

fn payer_key() -> [u8; 32] {
    pinocchio_pubkey::from_str("41LzznNicELmc5iCR9Jxke62a3v1VhzpBYodQF5AQwHX")
}

fn system_program() -> [u8; 32] {
    [0u8; 32]
}

fn derived(fill: u8, bump: u8) -> RecordAddress {
    RecordAddress { address: [fill; 32], bump }
}

fn payer_account() -> AccountSlot {
    AccountSlot { key: payer_key(), is_signer: true, lamports: LAMPORTS_PER_SOL, data: Vec::new() }
}

fn empty_slot(key: [u8; 32]) -> AccountSlot {
    AccountSlot { key, is_signer: false, lamports: 0, data: Vec::new() }
}

fn initialize_accounts(slot_key: [u8; 32]) -> Vec<AccountSlot> {
    vec![
        payer_account(),
        empty_slot(slot_key),
        AccountSlot { key: rent_id(), is_signer: false, lamports: 1_009_200, data: vec![0u8; 17] },
        AccountSlot { key: system_program(), is_signer: false, lamports: 1, data: Vec::new() },
    ]
}

fn plan_with(
    accounts: &[AccountSlot],
    data: &[u8],
    version: SchemaVersion,
    rent_minimum: u64,
    derived: Option<RecordAddress>,
) -> Result<CreatePlan, RecordError> {
    plan_initialize(accounts, data, version, TAG, &program(), rent_minimum, derived)
}

fn initialize_payload(owner: [u8; 32], data: [u8; 32]) -> Vec<u8> {
    InitializeMyStateIxData { owner, data }.to_bytes()
}

#[test]
fn test_initialize_mystate() {
    let pda_v1 = derived(0x51, 254);
    let pda_v2 = derived(0x52, 255);
    let accounts_v1 = initialize_accounts(pda_v1.address);
    let accounts_v2 = initialize_accounts(pda_v2.address);

    let ix_data_v1 = InitializeMyStateIxData { owner: payer_key(), data: [1; 32] };
    let ix_data_v2 = InitializeMyStateIxData { owner: payer_key(), data: [1; 32] };
    let mut ser_ix_data_v1 = vec![0u8];
    let mut ser_ix_data_v2 = vec![1u8];
    ser_ix_data_v1.extend_from_slice(&ix_data_v1.to_bytes());
    ser_ix_data_v2.extend_from_slice(&ix_data_v2.to_bytes());

    let (op_v1, version_v1) = route(ser_ix_data_v1[0]).unwrap();
    let (op_v2, version_v2) = route(ser_ix_data_v2[0]).unwrap();
    assert_eq!(op_v1, Operation::Initialize);
    assert_eq!(op_v2, Operation::Initialize);

    let init_res_v1 =
        plan_with(&accounts_v1, &ser_ix_data_v1[1..], version_v1, 1_461_600, Some(pda_v1));
    let init_res_v2 =
        plan_with(&accounts_v2, &ser_ix_data_v2[1..], version_v2, 1_468_560, Some(pda_v2));

    assert!(init_res_v1.is_ok());
    assert!(init_res_v2.is_ok());
}

#[test]
fn test_update_mystate() {
    let pda_v1 = derived(0x51, 254);
    let pda_v2 = derived(0x52, 255);

    let my_state_v1 = Record {
        initialized: true,
        owner: payer_key(),
        state: State::Initialized,
        payload: [1; 32],
        update_count: 0,
        bump: pda_v1.bump,
        reserved: 0,
    };
    let my_state_v2 = Record {
        initialized: true,
        owner: payer_key(),
        state: State::Initialized,
        payload: [1; 32],
        update_count: 0,
        bump: pda_v2.bump,
        reserved: 1,
    };

    let mut mystate_account_v1 = empty_slot(pda_v1.address);
    let mut mystate_account_v2 = empty_slot(pda_v2.address);
    mystate_account_v1.data = my_state_v1.encode(SchemaVersion::V1);
    mystate_account_v2.data = my_state_v2.encode(SchemaVersion::V2);

    let accounts_v1 = vec![payer_account(), mystate_account_v1];
    let accounts_v2 = vec![payer_account(), mystate_account_v2];

    let ix_data_v1 = UpdateMyStateIxData { data: [1; 32] };
    let ix_data_v2 = UpdateMyStateIxData { data: [1; 32] };
    let mut ser_ix_data_v1 = vec![2u8];
    let mut ser_ix_data_v2 = vec![3u8];
    ser_ix_data_v1.extend_from_slice(&ix_data_v1.to_bytes());
    ser_ix_data_v2.extend_from_slice(&ix_data_v2.to_bytes());

    let (op_v1, version_v1) = route(ser_ix_data_v1[0]).unwrap();
    let (op_v2, version_v2) = route(ser_ix_data_v2[0]).unwrap();
    assert_eq!(op_v1, Operation::Update);
    assert_eq!(op_v2, Operation::Update);

    let update_res_v1 = process_update_state(&accounts_v1, &ser_ix_data_v1[1..], version_v1);
    let update_res_v2 = process_update_state(&accounts_v2, &ser_ix_data_v2[1..], version_v2);

    assert!(update_res_v1.is_ok());
    assert!(update_res_v2.is_ok());
}

#[test]
fn initialize_plans_the_initial_record() {
    let pda = derived(0x33, 251);
    let accounts = initialize_accounts(pda.address);
    let payload = initialize_payload(payer_key(), [9; 32]);
    let plan = plan_with(&accounts, &payload, SchemaVersion::V1, 1_461_600, Some(pda))
        .unwrap();
    assert_eq!(plan.lamports, 1_461_600);
    assert_eq!(plan.space, 75);
    assert_eq!(plan.program_id, program());
    assert_eq!(plan.tag, TAG.to_vec());
    assert_eq!(plan.bump, 251);
    assert_eq!(
        plan.record,
        Record {
            initialized: true,
            owner: payer_key(),
            state: State::Initialized,
            payload: [9; 32],
            update_count: 0,
            bump: 251,
            reserved: 0,
        }
    );
    assert_eq!(plan.bytes, plan.record.encode(SchemaVersion::V1));
    assert_eq!(plan.bytes.len(), 75);

    let plan_v2 = plan_with(&accounts, &payload, SchemaVersion::V2, 1_468_560, Some(pda))
        .unwrap();
    assert_eq!(plan_v2.space, 76);
    assert_eq!(plan_v2.bytes.len(), 76);
    assert_eq!(plan_v2.bytes[..75], plan.bytes[..]);
    assert_eq!(plan_v2.bytes[75], 0);
}

#[test]
fn initialize_refuses_a_wrong_account_list() {
    let pda = derived(0x33, 251);
    let payload = initialize_payload(payer_key(), [9; 32]);
    let mut accounts = initialize_accounts(pda.address);
    accounts.pop();
    assert_eq!(
        plan_with(&accounts, &payload, SchemaVersion::V1, 10, Some(pda)),
        Err(RecordError::AccountShape)
    );
    let mut accounts = initialize_accounts(pda.address);
    accounts.push(empty_slot([7; 32]));
    assert_eq!(
        plan_with(&accounts, &payload, SchemaVersion::V1, 10, Some(pda)),
        Err(RecordError::AccountShape)
    );
    assert_eq!(
        plan_with(&[], &payload, SchemaVersion::V1, 10, Some(pda)),
        Err(RecordError::AccountShape)
    );
}

#[test]
fn initialize_refuses_a_payer_that_did_not_sign() {
    let pda = derived(0x33, 251);
    let payload = initialize_payload(payer_key(), [9; 32]);
    let mut accounts = initialize_accounts(pda.address);
    accounts[0].is_signer = false;
    assert_eq!(
        plan_with(&accounts, &payload, SchemaVersion::V1, 10, Some(pda)),
        Err(RecordError::Authorization)
    );
    // The signature is looked at before the slot.
    accounts[1].data = vec![1, 2, 3];
    assert_eq!(
        plan_with(&accounts, &payload, SchemaVersion::V1, 10, Some(pda)),
        Err(RecordError::Authorization)
    );
}

#[test]
fn initialize_twice_fails_the_second_time() {
    let pda = derived(0x33, 251);
    let payload = initialize_payload(payer_key(), [9; 32]);
    let mut accounts = initialize_accounts(pda.address);
    let plan = plan_with(&accounts, &payload, SchemaVersion::V2, 1_468_560, Some(pda))
        .unwrap();
    accounts[0].lamports -= plan.lamports;
    accounts[1].lamports += plan.lamports;
    accounts[1].data = plan.bytes.clone();
    let stored = accounts[1].data.clone();

    let second = plan_with(&accounts, &payload, SchemaVersion::V2, 1_468_560, Some(pda));
    assert_eq!(second, Err(RecordError::AlreadyInitialized));
    let other = initialize_payload(payer_key(), [0xee; 32]);
    let third = plan_with(&accounts, &other, SchemaVersion::V1, 1_461_600, Some(pda));
    assert_eq!(third, Err(RecordError::AlreadyInitialized));
    assert_eq!(accounts[1].data, stored);
    assert_eq!(Record::decode(&accounts[1].data, SchemaVersion::V2), Ok(plan.record));
}

#[test]
fn initialize_refuses_a_payload_of_the_wrong_length() {
    let pda = derived(0x33, 251);
    let accounts = initialize_accounts(pda.address);
    let mut payload = initialize_payload(payer_key(), [9; 32]);
    payload.pop();
    assert_eq!(
        plan_with(&accounts, &payload, SchemaVersion::V1, 10, Some(pda)),
        Err(RecordError::Layout)
    );
    payload.push(0);
    payload.push(0);
    assert_eq!(
        plan_with(&accounts, &payload, SchemaVersion::V1, 10, Some(pda)),
        Err(RecordError::Layout)
    );
    assert_eq!(
        plan_with(&accounts, &[], SchemaVersion::V1, 10, Some(pda)),
        Err(RecordError::Layout)
    );
}

#[test]
fn initialize_on_behalf_of_another_owner_is_refused() {
    let pda = derived(0x33, 251);
    let accounts = initialize_accounts(pda.address);
    let mut other = payer_key();
    other[31] ^= 1;
    let payload = initialize_payload(other, [9; 32]);
    assert_eq!(
        plan_with(&accounts, &payload, SchemaVersion::V1, 10, Some(pda)),
        Err(RecordError::OwnerMismatch)
    );
    // No derivation and no balance changes the verdict.
    assert_eq!(
        plan_with(&accounts, &payload, SchemaVersion::V2, u64::MAX, None),
        Err(RecordError::OwnerMismatch)
    );
    assert_eq!(
        process_initilaize_state(&accounts, &payload, SchemaVersion::V1, TAG, &program(), 10),
        Err(RecordError::OwnerMismatch)
    );
}

#[test]
fn initialize_at_another_address_is_refused() {
    let pda = derived(0x33, 251);
    let mut spoofed = pda.address;
    spoofed[0] ^= 0x80;
    let accounts = initialize_accounts(spoofed);
    let payload = initialize_payload(payer_key(), [9; 32]);
    assert_eq!(
        plan_with(&accounts, &payload, SchemaVersion::V1, 10, Some(pda)),
        Err(RecordError::AddressDerivation)
    );
    // The address is looked at before the funding.
    assert_eq!(
        plan_with(&accounts, &payload, SchemaVersion::V1, u64::MAX, Some(pda)),
        Err(RecordError::AddressDerivation)
    );
    // Nothing derived binds nothing.
    assert_eq!(
        plan_with(&accounts, &payload, SchemaVersion::V1, 10, None),
        Err(RecordError::AddressDerivation)
    );
}

#[test]
fn initialize_needs_the_rent_exempt_minimum() {
    let pda = derived(0x33, 251);
    let mut accounts = initialize_accounts(pda.address);
    let payload = initialize_payload(payer_key(), [9; 32]);
    accounts[0].lamports = 1_461_599;
    assert_eq!(
        plan_with(&accounts, &payload, SchemaVersion::V1, 1_461_600, Some(pda)),
        Err(RecordError::Funding)
    );
    accounts[0].lamports = 1_461_600;
    let plan = plan_with(&accounts, &payload, SchemaVersion::V1, 1_461_600, Some(pda));
    assert_eq!(plan.unwrap().lamports, 1_461_600);
}

#[test]
fn check_initialize_reads_the_payload() {
    let accounts = initialize_accounts([4; 32]);
    let payload = initialize_payload(payer_key(), [9; 32]);
    assert_eq!(
        check_initialize(&accounts, &payload),
        Ok(InitializeMyStateIxData { owner: payer_key(), data: [9; 32] })
    );
    assert_eq!(check_initialize(&accounts[..2], &payload), Err(RecordError::AccountShape));
    assert_eq!(check_initialize(&accounts, &payload[..10]), Err(RecordError::Layout));
    assert_eq!(check_initialize_accounts(&accounts), Ok(()));
    assert_eq!(check_initialize_accounts(&accounts[..3]), Err(RecordError::AccountShape));
}

#[test]
fn derivation_gives_the_same_answer_every_time() {
    let owner = payer_key();
    let first = derive_record_address(TAG, &owner, &program());
    let second = derive_record_address(TAG, &owner, &program());
    assert_eq!(first, second);
    // Away from the ledger the platform's search is not there to be asked.
    assert_eq!(first, None);
}

#[test]
fn process_initialize_binds_to_the_derivation() {
    let accounts = initialize_accounts([0x33; 32]);
    let payload = initialize_payload(payer_key(), [9; 32]);
    let derived_here = derive_record_address(TAG, &payer_key(), &program());
    let through = process_initilaize_state(
        &accounts,
        &payload,
        SchemaVersion::V1,
        TAG,
        &program(),
        1_461_600,
    );
    let planned =
        plan_with(&accounts, &payload, SchemaVersion::V1, 1_461_600, derived_here);
    assert_eq!(through, planned);
    assert_eq!(through, Err(RecordError::AddressDerivation));
}

#[test]
fn a_claimed_bump_is_never_trusted() {
    let canonical = derived(0x44, 254);
    assert_eq!(check_claimed_address(Some(canonical), &[0x44; 32], 254), Ok(()));
    assert_eq!(
        check_claimed_address(Some(canonical), &[0x44; 32], 253),
        Err(RecordError::AddressDerivation)
    );
    assert_eq!(
        check_claimed_address(Some(canonical), &[0x45; 32], 254),
        Err(RecordError::AddressDerivation)
    );
    assert_eq!(
        check_claimed_address(None, &[0x44; 32], 254),
        Err(RecordError::AddressDerivation)
    );
    assert_eq!(
        verify_record_address(TAG, &payer_key(), &program(), &[0x44; 32], 254),
        Err(RecordError::AddressDerivation)
    );
}

#[test]
fn guards_answer_with_their_own_error() {
    let mut account = payer_account();
    assert_eq!(require_signer(&account), Ok(()));
    assert_eq!(require_empty(&account), Ok(()));
    assert_eq!(require_non_empty(&account), Err(RecordError::NotInitialized));
    account.is_signer = false;
    account.data = vec![0];
    assert_eq!(require_signer(&account), Err(RecordError::Authorization));
    assert_eq!(require_empty(&account), Err(RecordError::AlreadyInitialized));
    assert_eq!(require_non_empty(&account), Ok(()));

    let mut other = [5u8; 32];
    assert_eq!(require_address_match(&[5; 32], &other), Ok(()));
    assert_eq!(require_owner_equals(&[5; 32], &other), Ok(()));
    assert!(same_bytes(&[5; 32], &other));
    other[31] = 6;
    assert_eq!(require_address_match(&[5; 32], &other), Err(RecordError::AddressDerivation));
    assert_eq!(require_owner_equals(&[5; 32], &other), Err(RecordError::OwnerMismatch));
    assert!(!same_bytes(&[5; 32], &other));
    other[31] = 5;
    other[0] = 6;
    assert!(!same_bytes(&[5; 32], &other));
}

#[test]
fn a_created_record_counts_its_updates() {
    let pda = derived(0x33, 251);
    let mut accounts = initialize_accounts(pda.address);
    let payload = initialize_payload(payer_key(), [9; 32]);
    let plan = plan_with(&accounts, &payload, SchemaVersion::V2, 1_468_560, Some(pda)).unwrap();
    accounts[1].data = plan.bytes;
    accounts.truncate(2);
    for n in 1u8..=3 {
        accounts[1].data =
            process_update_state(&accounts, &[0x10 + n; 32], SchemaVersion::V2).unwrap();
    }
    let now = Record::decode(&accounts[1].data, SchemaVersion::V2).unwrap();
    assert_eq!(now.update_count, 3);
    assert_eq!(now.payload, [0x13; 32]);
    assert_eq!(now.owner, payer_key());
    assert_eq!(now.bump, 251);
    assert_eq!(now.state, State::Updated);
}
