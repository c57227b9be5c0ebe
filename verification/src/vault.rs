//! The vault's state-transition logic: a dispatcher over a one-byte opcode
//! and the two handlers, deposit and withdraw.
//!
//! Each invocation is a pure step over the invocation's account list: either
//! the step succeeds and the balances move as specified, or it fails with a
//! typed error and every balance is left unchanged. The host environment is
//! trusted to apply the step atomically.

use vstd::prelude::*;
use crate::account::Account;
use crate::account::AccountId;
use crate::account::key_eq;
use crate::pda::has_vault_key;
use crate::pda::spec_vault_key;
use crate::pda::vault_address;

verus! {

/// The fixed amount, in lamports, that each deposit moves into the vault.
pub const DEPOSIT_AMOUNT: u64 = 1000000;

/// Why an invocation failed. Every failure leaves all balances unchanged.
#[derive(Clone, Copy, Debug, PartialEq, Eq, Structural)]
pub enum VaultError {
    /// The payload's first byte is not a known opcode.
    UnrecognizedOpcode,
    /// The account list holds fewer accounts than the opcode needs.
    NotEnoughAccounts,
    /// No vault address can be derived for this program identity.
    NoVaultAddress,
    /// The supplied vault account's address is not the derived address.
    AccountMismatch,
    /// A required signer did not sign the invocation.
    MissingSignature,
    /// The source account's balance does not cover the transfer.
    InsufficientFunds,
    /// The destination balance would not fit in its 64-bit representation.
    BalanceOverflow,
}

/// What the deposit handler does with the account list
/// `[initializer, vault, transfer authority]`: move `DEPOSIT_AMOUNT` from the
/// initializer into the vault once the vault account matches the derived
/// address, or fail and change nothing.
pub open spec fn spec_initialize(program_id: Seq<u8>, accounts: Seq<Account>) -> Result<
    Seq<Account>,
    VaultError,
> {
    if accounts.len() < 3 {
        Err(VaultError::NotEnoughAccounts)
    } else if !has_vault_key(program_id) {
        Err(VaultError::NoVaultAddress)
    } else if accounts[1].id@ != spec_vault_key(program_id) {
        Err(VaultError::AccountMismatch)
    } else if accounts[0].lamports < DEPOSIT_AMOUNT {
        Err(VaultError::InsufficientFunds)
    } else if accounts[1].lamports + DEPOSIT_AMOUNT > u64::MAX {
        Err(VaultError::BalanceOverflow)
    } else {
        Ok(
            accounts.update(
                0,
                Account {
                    id: accounts[0].id,
                    lamports: (accounts[0].lamports - DEPOSIT_AMOUNT) as u64,
                    is_signer: accounts[0].is_signer,
                },
            ).update(
                1,
                Account {
                    id: accounts[1].id,
                    lamports: (accounts[1].lamports + DEPOSIT_AMOUNT) as u64,
                    is_signer: accounts[1].is_signer,
                },
            ),
        )
    }
}

/// What the withdraw handler does with the account list
/// `[owner, vault, recipient]`: once the vault account matches the derived
/// address and the owner signed, empty the vault into the recipient, or fail
/// and change nothing. An empty vault withdraws zero without error.
pub open spec fn spec_withdraw(program_id: Seq<u8>, accounts: Seq<Account>) -> Result<
    Seq<Account>,
    VaultError,
> {
    if accounts.len() < 3 {
        Err(VaultError::NotEnoughAccounts)
    } else if !has_vault_key(program_id) {
        Err(VaultError::NoVaultAddress)
    } else if accounts[1].id@ != spec_vault_key(program_id) {
        Err(VaultError::AccountMismatch)
    } else if !accounts[0].is_signer {
        Err(VaultError::MissingSignature)
    } else if accounts[2].lamports + accounts[1].lamports > u64::MAX {
        Err(VaultError::BalanceOverflow)
    } else {
        Ok(
            accounts.update(
                1,
                Account { id: accounts[1].id, lamports: 0u64, is_signer: accounts[1].is_signer },
            ).update(
                2,
                Account {
                    id: accounts[2].id,
                    lamports: (accounts[2].lamports + accounts[1].lamports) as u64,
                    is_signer: accounts[2].is_signer,
                },
            ),
        )
    }
}

/// What one invocation does: route on the payload's first byte, `0` for
/// deposit and `1` for withdraw; any other value is rejected untouched.
pub open spec fn spec_step(
    program_id: Seq<u8>,
    accounts: Seq<Account>,
    instruction_data: Seq<u8>,
) -> Result<Seq<Account>, VaultError> {
    if instruction_data.len() == 0 {
        Err(VaultError::UnrecognizedOpcode)
    } else if instruction_data[0] == 0 {
        spec_initialize(program_id, accounts)
    } else if instruction_data[0] == 1 {
        spec_withdraw(program_id, accounts)
    } else {
        Err(VaultError::UnrecognizedOpcode)
    }
}

/// Deposit handler: validates the vault account against the derived address
/// and moves `DEPOSIT_AMOUNT` from the initializer into the vault. Repeating
/// the call simply deposits the fixed amount again.
pub fn initialize_vault(program_id: &AccountId, accounts: &mut Vec<Account>) -> (r: Result<
    (),
    VaultError,
>)
    ensures
        (match r {
            Ok(()) => spec_initialize(program_id@, old(accounts)@) == Ok::<Seq<Account>, VaultError>(
                final(accounts)@,
            ),
            Err(e) => {
                &&& spec_initialize(program_id@, old(accounts)@) == Err::<Seq<Account>, VaultError>(
                    e,
                )
                &&& final(accounts)@ == old(accounts)@
            },
        }),
{
    if accounts.len() < 3 {
        return Err(VaultError::NotEnoughAccounts);
    }
    let derived = match vault_address(program_id) {
        Some(d) => d,
        None => {
            return Err(VaultError::NoVaultAddress);
        },
    };
    if !key_eq(&derived.0, &accounts[1].id) {
        return Err(VaultError::AccountMismatch);
    }
    let initializer = accounts[0];
    let vault = accounts[1];
    if initializer.lamports < DEPOSIT_AMOUNT {
        return Err(VaultError::InsufficientFunds);
    }
    if vault.lamports > u64::MAX - DEPOSIT_AMOUNT {
        return Err(VaultError::BalanceOverflow);
    }
    accounts.set(
        0,
        Account {
            id: initializer.id,
            lamports: initializer.lamports - DEPOSIT_AMOUNT,
            is_signer: initializer.is_signer,
        },
    );
    accounts.set(
        1,
        Account {
            id: vault.id,
            lamports: vault.lamports + DEPOSIT_AMOUNT,
            is_signer: vault.is_signer,
        },
    );
    Ok(())
}

/// Withdraw handler: validates the vault account against the derived address,
/// requires the owner's signature, then moves the vault's whole balance to
/// the recipient. Withdrawing from an empty vault moves zero and succeeds.
pub fn withdraw_from_vault(program_id: &AccountId, accounts: &mut Vec<Account>) -> (r: Result<
    (),
    VaultError,
>)
    ensures
        (match r {
            Ok(()) => spec_withdraw(program_id@, old(accounts)@) == Ok::<Seq<Account>, VaultError>(
                final(accounts)@,
            ),
            Err(e) => {
                &&& spec_withdraw(program_id@, old(accounts)@) == Err::<Seq<Account>, VaultError>(e)
                &&& final(accounts)@ == old(accounts)@
            },
        }),
{
    if accounts.len() < 3 {
        return Err(VaultError::NotEnoughAccounts);
    }
    let derived = match vault_address(program_id) {
        Some(d) => d,
        None => {
            return Err(VaultError::NoVaultAddress);
        },
    };
    if !key_eq(&derived.0, &accounts[1].id) {
        return Err(VaultError::AccountMismatch);
    }
    let owner = accounts[0];
    if !owner.is_signer {
        return Err(VaultError::MissingSignature);
    }
    let vault = accounts[1];
    let recipient = accounts[2];
    if recipient.lamports > u64::MAX - vault.lamports {
        return Err(VaultError::BalanceOverflow);
    }
    accounts.set(1, Account { id: vault.id, lamports: 0, is_signer: vault.is_signer });
    accounts.set(
        2,
        Account {
            id: recipient.id,
            lamports: recipient.lamports + vault.lamports,
            is_signer: recipient.is_signer,
        },
    );
    Ok(())
}

/// The program's entry step: reads the opcode from the payload's first byte
/// and runs the matching handler over the account list. On success the list
/// holds the moved balances; on failure it is unchanged and the error says
/// exactly why.
pub fn process_instruction(
    program_id: &AccountId,
    accounts: &mut Vec<Account>,
    instruction_data: &[u8],
) -> (r: Result<(), VaultError>)
    requires
        instruction_data@.len() >= 1,
    ensures
        (match r {
            Ok(()) => spec_step(program_id@, old(accounts)@, instruction_data@) == Ok::<
                Seq<Account>,
                VaultError,
            >(final(accounts)@),
            Err(e) => {
                &&& spec_step(program_id@, old(accounts)@, instruction_data@) == Err::<
                    Seq<Account>,
                    VaultError,
                >(e)
                &&& final(accounts)@ == old(accounts)@
            },
        }),
{
    let opcode = instruction_data[0];
    match opcode {
        0u8 => initialize_vault(program_id, accounts),
        1u8 => withdraw_from_vault(program_id, accounts),
        _ => Err(VaultError::UnrecognizedOpcode),
    }
}

} // verus!
