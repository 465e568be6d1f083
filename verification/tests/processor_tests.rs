use baldcoin::account::{BaldcoinAccount, Identity};
use baldcoin::codec::{decode_account, encode_account, encode_instruction};
use baldcoin::instruction::{BaldcoinInstruction, LedgerError};
use baldcoin::processor::{
    process_initialize_account, process_instruction, process_transfer, ContextSlot,
};

fn ident(seed: u8) -> Identity {
    Identity::new(vec![seed; 32])
}

fn record_bytes(is_initialized: bool, owner_seed: u8, balance: u64) -> Vec<u8> {
    let a = BaldcoinAccount {
        is_initialized,
        owner: ident(owner_seed),
        balance,
    };
    encode_account(&a)
}

fn slot(data: Vec<u8>, namespace_seed: u8, identity_seed: u8, is_signer: bool) -> ContextSlot {
    ContextSlot {
        data,
        namespace: ident(namespace_seed),
        identity: ident(identity_seed),
        is_signer,
    }
}

const NS: u8 = 0x11;

fn program_id() -> Identity {
    ident(NS)
}

/// Slots for a transfer: from = {initialized, owner X=1, balance 100},
/// to = {initialized, owner Y=2, balance 5}, owner slot holds `signer_seed`.
fn transfer_slots(signer_seed: u8, is_signer: bool) -> Vec<ContextSlot> {
    vec![
        slot(record_bytes(true, 1, 100), NS, 0, false),
        slot(record_bytes(true, 2, 5), NS, 0, false),
        slot(Vec::new(), NS, signer_seed, is_signer),
    ]
}

#[test]
fn initialize_sets_flag_owner_and_zero_balance() {
    let mut accounts = vec![
        slot(record_bytes(false, 0, 0), NS, 0, false),
        slot(Vec::new(), NS, 9, false),
    ];
    let r = process_initialize_account(&program_id(), &mut accounts);
    assert_eq!(r, Ok(()));
    let rec = decode_account(&accounts[0].data).unwrap();
    assert_eq!(rec.is_initialized, true);
    assert_eq!(rec.owner.bytes, vec![9u8; 32]);
    assert_eq!(rec.balance, 0);
    // the owner slot itself is untouched
    assert!(accounts[1].data.is_empty());
}

#[test]
fn initialize_twice_fails_and_leaves_bytes_unchanged() {
    let mut accounts = vec![
        slot(record_bytes(false, 0, 0), NS, 0, false),
        slot(Vec::new(), NS, 9, false),
    ];
    assert_eq!(process_initialize_account(&program_id(), &mut accounts), Ok(()));
    let after_first = accounts[0].data.clone();
    // a second initialization, even with another owner, is refused
    accounts[1].identity = ident(8);
    let r = process_initialize_account(&program_id(), &mut accounts);
    assert_eq!(r, Err(LedgerError::AlreadyInitialized));
    assert_eq!(accounts[0].data, after_first);
}

#[test]
fn initialize_rejects_foreign_namespace() {
    let mut accounts = vec![
        slot(record_bytes(false, 0, 0), 0x22, 0, false),
        slot(Vec::new(), NS, 9, false),
    ];
    let before = accounts[0].data.clone();
    let r = process_initialize_account(&program_id(), &mut accounts);
    assert_eq!(r, Err(LedgerError::IncorrectNamespace));
    assert_eq!(accounts[0].data, before);
}

#[test]
fn initialize_rejects_missing_accounts() {
    let mut accounts = vec![slot(record_bytes(false, 0, 0), NS, 0, false)];
    let r = process_initialize_account(&program_id(), &mut accounts);
    assert_eq!(r, Err(LedgerError::MissingAccount));
}

#[test]
fn initialize_rejects_undecodable_record() {
    let mut accounts = vec![
        slot(vec![3u8; 41], NS, 0, false),
        slot(Vec::new(), NS, 9, false),
    ];
    let r = process_initialize_account(&program_id(), &mut accounts);
    assert_eq!(r, Err(LedgerError::RecordDecodeError));
}

#[test]
fn transfer_moves_amount_and_conserves_total() {
    let mut accounts = transfer_slots(1, true);
    let r = process_transfer(&program_id(), &mut accounts, 30);
    assert_eq!(r, Ok(()));
    let from = decode_account(&accounts[0].data).unwrap();
    let to = decode_account(&accounts[1].data).unwrap();
    assert_eq!(from.balance, 70);
    assert_eq!(to.balance, 35);
    assert_eq!(from.balance + to.balance, 105);
    // owners and flags are untouched
    assert_eq!(from.owner.bytes, vec![1u8; 32]);
    assert_eq!(to.owner.bytes, vec![2u8; 32]);
    assert!(from.is_initialized);
    assert!(to.is_initialized);
}

#[test]
fn transfer_of_whole_balance_empties_source() {
    let mut accounts = transfer_slots(1, true);
    assert_eq!(process_transfer(&program_id(), &mut accounts, 100), Ok(()));
    let from = decode_account(&accounts[0].data).unwrap();
    let to = decode_account(&accounts[1].data).unwrap();
    assert_eq!(from.balance, 0);
    assert_eq!(to.balance, 105);
}

#[test]
fn transfer_of_zero_changes_no_balance() {
    let mut accounts = transfer_slots(1, true);
    assert_eq!(process_transfer(&program_id(), &mut accounts, 0), Ok(()));
    let from = decode_account(&accounts[0].data).unwrap();
    let to = decode_account(&accounts[1].data).unwrap();
    assert_eq!(from.balance, 100);
    assert_eq!(to.balance, 5);
}

#[test]
fn transfer_rejects_insufficient_funds_unchanged() {
    let mut accounts = transfer_slots(1, true);
    let before_from = accounts[0].data.clone();
    let before_to = accounts[1].data.clone();
    let r = process_transfer(&program_id(), &mut accounts, 101);
    assert_eq!(r, Err(LedgerError::InsufficientFunds));
    assert_eq!(accounts[0].data, before_from);
    assert_eq!(accounts[1].data, before_to);
}

#[test]
fn transfer_rejects_illegal_owner_unchanged() {
    // signer seed 3 = Z, not the source owner X = 1, signature attested
    let mut accounts = transfer_slots(3, true);
    let before_from = accounts[0].data.clone();
    let before_to = accounts[1].data.clone();
    let r = process_transfer(&program_id(), &mut accounts, 10);
    assert_eq!(r, Err(LedgerError::IllegalOwner));
    assert_eq!(accounts[0].data, before_from);
    assert_eq!(accounts[1].data, before_to);
}

#[test]
fn transfer_rejects_missing_signature_even_for_true_owner() {
    let mut accounts = transfer_slots(1, false);
    let before_from = accounts[0].data.clone();
    let r = process_transfer(&program_id(), &mut accounts, 10);
    assert_eq!(r, Err(LedgerError::MissingSignature));
    assert_eq!(accounts[0].data, before_from);
}

#[test]
fn transfer_rejects_foreign_namespace() {
    let mut accounts = transfer_slots(1, true);
    accounts[1].namespace = ident(0x22);
    let r = process_transfer(&program_id(), &mut accounts, 10);
    assert_eq!(r, Err(LedgerError::IncorrectNamespace));
}

#[test]
fn transfer_rejects_missing_accounts() {
    let mut accounts = vec![
        slot(record_bytes(true, 1, 100), NS, 0, false),
        slot(record_bytes(true, 2, 5), NS, 0, false),
    ];
    let r = process_transfer(&program_id(), &mut accounts, 10);
    assert_eq!(r, Err(LedgerError::MissingAccount));
}

#[test]
fn transfer_rejects_undecodable_source() {
    let mut accounts = transfer_slots(1, true);
    accounts[0].data = vec![9u8; 41];
    let r = process_transfer(&program_id(), &mut accounts, 10);
    assert_eq!(r, Err(LedgerError::RecordDecodeError));
}

#[test]
fn transfer_rejects_uninitialized_destination() {
    let mut accounts = transfer_slots(1, true);
    accounts[1].data = record_bytes(false, 2, 5);
    let before_to = accounts[1].data.clone();
    let r = process_transfer(&program_id(), &mut accounts, 10);
    assert_eq!(r, Err(LedgerError::UninitializedDestination));
    assert_eq!(accounts[1].data, before_to);
}

#[test]
fn transfer_rejects_overflowing_credit() {
    let mut accounts = transfer_slots(1, true);
    accounts[1].data = record_bytes(true, 2, u64::MAX);
    let before_from = accounts[0].data.clone();
    let before_to = accounts[1].data.clone();
    let r = process_transfer(&program_id(), &mut accounts, 1);
    assert_eq!(r, Err(LedgerError::BalanceOverflow));
    assert_eq!(accounts[0].data, before_from);
    assert_eq!(accounts[1].data, before_to);
}

#[test]
fn instruction_dispatch_initializes() {
    let mut accounts = vec![
        slot(record_bytes(false, 0, 0), NS, 0, false),
        slot(Vec::new(), NS, 9, false),
    ];
    let payload = encode_instruction(&BaldcoinInstruction::InitializeAccount);
    let r = process_instruction(&program_id(), &mut accounts, &payload);
    assert_eq!(r, Ok(()));
    let rec = decode_account(&accounts[0].data).unwrap();
    assert!(rec.is_initialized);
    assert_eq!(rec.owner.bytes, vec![9u8; 32]);
    assert_eq!(rec.balance, 0);
}

#[test]
fn instruction_dispatch_transfers() {
    let mut accounts = transfer_slots(1, true);
    let payload = encode_instruction(&BaldcoinInstruction::Transfer { amount: 30 });
    let r = process_instruction(&program_id(), &mut accounts, &payload);
    assert_eq!(r, Ok(()));
    assert_eq!(decode_account(&accounts[0].data).unwrap().balance, 70);
    assert_eq!(decode_account(&accounts[1].data).unwrap().balance, 35);
}

#[test]
fn instruction_rejects_malformed_payload_before_touching_accounts() {
    let mut accounts = transfer_slots(1, true);
    let before_from = accounts[0].data.clone();
    let r = process_instruction(&program_id(), &mut accounts, &[7u8, 7]);
    assert_eq!(r, Err(LedgerError::MalformedInstruction));
    assert_eq!(accounts[0].data, before_from);
}
