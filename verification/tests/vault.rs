use pda_vault::Account;
use pda_vault::AccountId;
use pda_vault::DEPOSIT_AMOUNT;
use pda_vault::VaultError;
use pda_vault::initialize_vault;
use pda_vault::process_instruction;
use pda_vault::vault_address;
use pda_vault::withdraw_from_vault;

fn id_from(byte: u8) -> AccountId {
    AccountId::new([byte; 32])
}

fn account(byte: u8, lamports: u64, is_signer: bool) -> Account {
    Account { id: id_from(byte), lamports, is_signer }
}

fn vault_account_for(program_id: &AccountId, lamports: u64) -> Account {
    let (vault_id, _bump) = vault_address(program_id).unwrap();
    Account { id: vault_id, lamports, is_signer: false }
}

#[test]
fn derive_is_deterministic() {
    let program_id = id_from(7);
    let (addr1, bump1) = vault_address(&program_id).unwrap();
    let (addr2, bump2) = vault_address(&program_id).unwrap();
    assert_eq!(addr1, addr2);
    assert_eq!(bump1, bump2);
    // the derived address is a new address, not the program identity echoed back
    assert_ne!(addr1, program_id);
}

#[test]
fn derive_depends_on_program_identity() {
    let (addr1, _) = vault_address(&id_from(7)).unwrap();
    let (addr2, _) = vault_address(&id_from(8)).unwrap();
    assert_ne!(addr1, addr2);
}

#[test]
fn initialize_rejects_wrong_vault_account() {
    let program_id = id_from(7);
    let mut accounts = vec![
        account(1, 5_000_000, true),
        account(2, 0, false),
        account(3, 1, false),
    ];
    let before = accounts.clone();
    let r = initialize_vault(&program_id, &mut accounts);
    assert_eq!(r, Err(VaultError::AccountMismatch));
    assert_eq!(accounts, before);
}

#[test]
fn initialize_moves_fixed_amount_and_accumulates() {
    let program_id = id_from(7);
    let mut accounts = vec![
        account(1, 5_000_000, true),
        vault_account_for(&program_id, 0),
        account(3, 1, false),
    ];
    let r = initialize_vault(&program_id, &mut accounts);
    assert_eq!(r, Ok(()));
    assert_eq!(accounts[0].lamports, 5_000_000 - DEPOSIT_AMOUNT);
    assert_eq!(accounts[1].lamports, DEPOSIT_AMOUNT);
    assert_eq!(accounts[2].lamports, 1);

    let r = initialize_vault(&program_id, &mut accounts);
    assert_eq!(r, Ok(()));
    assert_eq!(accounts[0].lamports, 5_000_000 - 2 * DEPOSIT_AMOUNT);
    assert_eq!(accounts[1].lamports, 2 * DEPOSIT_AMOUNT);
    assert_eq!(accounts[2].lamports, 1);
}

#[test]
fn initialize_rejects_insufficient_funds() {
    let program_id = id_from(7);
    let mut accounts = vec![
        account(1, DEPOSIT_AMOUNT - 1, true),
        vault_account_for(&program_id, 0),
        account(3, 1, false),
    ];
    let before = accounts.clone();
    let r = initialize_vault(&program_id, &mut accounts);
    assert_eq!(r, Err(VaultError::InsufficientFunds));
    assert_eq!(accounts, before);
}

#[test]
fn initialize_rejects_overflowing_vault() {
    let program_id = id_from(7);
    let mut accounts = vec![
        account(1, 5_000_000, true),
        vault_account_for(&program_id, u64::MAX - DEPOSIT_AMOUNT + 1),
        account(3, 1, false),
    ];
    let before = accounts.clone();
    let r = initialize_vault(&program_id, &mut accounts);
    assert_eq!(r, Err(VaultError::BalanceOverflow));
    assert_eq!(accounts, before);
}

#[test]
fn initialize_rejects_short_account_list() {
    let program_id = id_from(7);
    let mut accounts = vec![account(1, 5_000_000, true), vault_account_for(&program_id, 0)];
    let before = accounts.clone();
    let r = initialize_vault(&program_id, &mut accounts);
    assert_eq!(r, Err(VaultError::NotEnoughAccounts));
    assert_eq!(accounts, before);
}

#[test]
fn withdraw_requires_signature() {
    let program_id = id_from(7);
    let mut accounts = vec![
        account(1, 50, false),
        vault_account_for(&program_id, 900),
        account(3, 10, false),
    ];
    let before = accounts.clone();
    let r = withdraw_from_vault(&program_id, &mut accounts);
    assert_eq!(r, Err(VaultError::MissingSignature));
    assert_eq!(accounts, before);
}

#[test]
fn withdraw_rejects_wrong_vault_account() {
    let program_id = id_from(7);
    let mut accounts = vec![
        account(1, 50, true),
        account(2, 900, false),
        account(3, 10, false),
    ];
    let before = accounts.clone();
    let r = withdraw_from_vault(&program_id, &mut accounts);
    assert_eq!(r, Err(VaultError::AccountMismatch));
    assert_eq!(accounts, before);
}

#[test]
fn withdraw_empties_vault_and_is_repeat_safe() {
    let program_id = id_from(7);
    let mut accounts = vec![
        account(1, 50, true),
        vault_account_for(&program_id, 900),
        account(3, 10, false),
    ];
    let r = withdraw_from_vault(&program_id, &mut accounts);
    assert_eq!(r, Ok(()));
    assert_eq!(accounts[0].lamports, 50);
    assert_eq!(accounts[1].lamports, 0);
    assert_eq!(accounts[2].lamports, 910);

    let after_first = accounts.clone();
    let r = withdraw_from_vault(&program_id, &mut accounts);
    assert_eq!(r, Ok(()));
    assert_eq!(accounts, after_first);
}

#[test]
fn withdraw_rejects_overflowing_recipient() {
    let program_id = id_from(7);
    let mut accounts = vec![
        account(1, 50, true),
        vault_account_for(&program_id, 900),
        account(3, u64::MAX - 899, false),
    ];
    let before = accounts.clone();
    let r = withdraw_from_vault(&program_id, &mut accounts);
    assert_eq!(r, Err(VaultError::BalanceOverflow));
    assert_eq!(accounts, before);
}

#[test]
fn unrecognized_opcode_changes_nothing() {
    let program_id = id_from(7);
    let mut accounts = vec![
        account(1, 5_000_000, true),
        vault_account_for(&program_id, 900),
        account(3, 10, false),
    ];
    let before = accounts.clone();
    let r = process_instruction(&program_id, &mut accounts, &[2]);
    assert_eq!(r, Err(VaultError::UnrecognizedOpcode));
    assert_eq!(accounts, before);
}

#[test]
fn dispatch_routes_opcodes() {
    let program_id = id_from(7);
    let mut accounts = vec![
        account(1, 5_000_000, true),
        vault_account_for(&program_id, 0),
        account(3, 1, false),
    ];
    let r = process_instruction(&program_id, &mut accounts, &[0]);
    assert_eq!(r, Ok(()));
    assert_eq!(accounts[1].lamports, DEPOSIT_AMOUNT);

    let mut accounts = vec![
        account(1, 50, true),
        vault_account_for(&program_id, DEPOSIT_AMOUNT),
        account(3, 10, false),
    ];
    let r = process_instruction(&program_id, &mut accounts, &[1]);
    assert_eq!(r, Ok(()));
    assert_eq!(accounts[1].lamports, 0);
    assert_eq!(accounts[2].lamports, 10 + DEPOSIT_AMOUNT);
}

#[test]
fn end_to_end_deposit_then_withdraw() {
    let program_id = id_from(9);
    let initializer = account(1, 3_000_000, true);
    let vault = vault_account_for(&program_id, 0);
    let authority = account(3, 1, false);

    let mut accounts = vec![initializer, vault, authority];
    let r = process_instruction(&program_id, &mut accounts, &[0]);
    assert_eq!(r, Ok(()));
    assert_eq!(accounts[0].lamports, 3_000_000 - DEPOSIT_AMOUNT);
    assert_eq!(accounts[1].lamports, DEPOSIT_AMOUNT);

    let funded_vault = accounts[1];
    let owner = account(4, 20, true);
    let recipient = account(5, 100, false);
    let mut accounts = vec![owner, funded_vault, recipient];
    let r = process_instruction(&program_id, &mut accounts, &[1]);
    assert_eq!(r, Ok(()));
    assert_eq!(accounts[1].lamports, 0);
    assert_eq!(accounts[2].lamports, 100 + DEPOSIT_AMOUNT);
}

#[test]
fn key_eq_compares_every_byte() {
    let a = id_from(1);
    let mut almost = [1u8; 32];
    almost[31] = 2;
    let b = AccountId::new(almost);
    assert!(pda_vault::key_eq(&a, &a));
    assert!(!pda_vault::key_eq(&a, &b));
}
