//! The vault's guarantees, stated and proved once over the specification
//! functions that the handlers' contracts use.

use vstd::prelude::*;
use crate::account::Account;
use crate::pda::has_vault_key;
use crate::pda::spec_vault_key;
use crate::pda::vault_derivation_of;
use crate::vault::DEPOSIT_AMOUNT;
use crate::vault::VaultError;
use crate::vault::spec_initialize;
use crate::vault::spec_step;
use crate::vault::spec_withdraw;

verus! {

/// Address derivation is deterministic: two results of deriving the vault
/// address for the same program identity are the same address and the same
/// bump byte.
pub proof fn lemma_derivation_deterministic(
    program_id: Seq<u8>,
    r1: Option<(Seq<u8>, u8)>,
    r2: Option<(Seq<u8>, u8)>,
)
    requires
        r1 == vault_derivation_of(program_id),
        r2 == vault_derivation_of(program_id),
    ensures
        r1 == r2,
{
}

/// A deposit whose vault account is not the derived address fails with an
/// account mismatch; the handler's contract then leaves every balance
/// unchanged.
pub proof fn lemma_initialize_mismatch(program_id: Seq<u8>, accounts: Seq<Account>)
    requires
        accounts.len() >= 3,
        has_vault_key(program_id),
        accounts[1].id@ != spec_vault_key(program_id),
    ensures
        spec_initialize(program_id, accounts) == Err::<Seq<Account>, VaultError>(
            VaultError::AccountMismatch,
        ),
{
}

/// A deposit with the derived vault address and a sufficiently funded
/// initializer moves exactly `DEPOSIT_AMOUNT` from the initializer to the
/// vault and touches nothing else.
pub proof fn lemma_initialize_success(program_id: Seq<u8>, accounts: Seq<Account>)
    requires
        accounts.len() >= 3,
        has_vault_key(program_id),
        accounts[1].id@ == spec_vault_key(program_id),
        accounts[0].lamports >= DEPOSIT_AMOUNT,
        accounts[1].lamports + DEPOSIT_AMOUNT <= u64::MAX,
    ensures
        spec_initialize(program_id, accounts) matches Ok(r) && {
            &&& r.len() == accounts.len()
            &&& r[0].lamports == accounts[0].lamports - DEPOSIT_AMOUNT
            &&& r[1].lamports == accounts[1].lamports + DEPOSIT_AMOUNT
            &&& r[0].id == accounts[0].id
            &&& r[1].id == accounts[1].id
            &&& r[0].is_signer == accounts[0].is_signer
            &&& r[1].is_signer == accounts[1].is_signer
            &&& forall|i: int| 2 <= i < accounts.len() ==> r[i] == accounts[i]
        },
{
}

/// Deposits accumulate: run twice on the same account list, the initializer
/// pays the fixed amount twice and the vault gains it twice.
pub proof fn lemma_initialize_twice(program_id: Seq<u8>, accounts: Seq<Account>)
    requires
        accounts.len() >= 3,
        has_vault_key(program_id),
        accounts[1].id@ == spec_vault_key(program_id),
        accounts[0].lamports >= 2 * DEPOSIT_AMOUNT,
        accounts[1].lamports + 2 * DEPOSIT_AMOUNT <= u64::MAX,
    ensures
        spec_initialize(program_id, accounts) matches Ok(mid) && spec_initialize(program_id, mid)
            matches Ok(r) && {
            &&& r[0].lamports == accounts[0].lamports - 2 * DEPOSIT_AMOUNT
            &&& r[1].lamports == accounts[1].lamports + 2 * DEPOSIT_AMOUNT
        },
{
}

/// A withdraw whose owner did not sign fails with a missing signature; the
/// handler's contract then leaves every balance unchanged.
pub proof fn lemma_withdraw_unsigned(program_id: Seq<u8>, accounts: Seq<Account>)
    requires
        accounts.len() >= 3,
        has_vault_key(program_id),
        accounts[1].id@ == spec_vault_key(program_id),
        !accounts[0].is_signer,
    ensures
        spec_withdraw(program_id, accounts) == Err::<Seq<Account>, VaultError>(
            VaultError::MissingSignature,
        ),
{
}

/// A signed withdraw with the derived vault address empties the vault into
/// the recipient: the vault ends at zero and the recipient gains exactly the
/// vault's prior balance.
pub proof fn lemma_withdraw_success(program_id: Seq<u8>, accounts: Seq<Account>)
    requires
        accounts.len() >= 3,
        has_vault_key(program_id),
        accounts[1].id@ == spec_vault_key(program_id),
        accounts[0].is_signer,
        accounts[2].lamports + accounts[1].lamports <= u64::MAX,
    ensures
        spec_withdraw(program_id, accounts) matches Ok(r) && {
            &&& r.len() == accounts.len()
            &&& r[1].lamports == 0
            &&& r[2].lamports == accounts[2].lamports + accounts[1].lamports
            &&& r[0] == accounts[0]
            &&& r[1].id == accounts[1].id
            &&& r[2].id == accounts[2].id
            &&& forall|i: int| 3 <= i < accounts.len() ==> r[i] == accounts[i]
        },
{
}

/// Withdrawing twice in a row is safe: the second withdraw finds an empty
/// vault, moves zero, and changes nothing.
pub proof fn lemma_withdraw_twice(program_id: Seq<u8>, accounts: Seq<Account>)
    requires
        accounts.len() >= 3,
        has_vault_key(program_id),
        accounts[1].id@ == spec_vault_key(program_id),
        accounts[0].is_signer,
        accounts[2].lamports + accounts[1].lamports <= u64::MAX,
    ensures
        spec_withdraw(program_id, accounts) matches Ok(mid) && spec_withdraw(program_id, mid)
            == Ok::<Seq<Account>, VaultError>(mid),
{
    let mid = spec_withdraw(program_id, accounts)->Ok_0;
    let r = spec_withdraw(program_id, mid)->Ok_0;
    assert(r =~= mid);
}

/// A payload whose first byte is no known opcode is rejected as
/// unrecognized, whatever the account list holds; the entry step's contract
/// then leaves every balance unchanged.
pub proof fn lemma_unrecognized_opcode(
    program_id: Seq<u8>,
    accounts: Seq<Account>,
    instruction_data: Seq<u8>,
)
    requires
        instruction_data.len() >= 1,
        instruction_data[0] != 0,
        instruction_data[0] != 1,
    ensures
        spec_step(program_id, accounts, instruction_data) == Err::<Seq<Account>, VaultError>(
            VaultError::UnrecognizedOpcode,
        ),
{
}

/// End to end: depositing into an empty vault at the derived address leaves
/// it holding exactly `DEPOSIT_AMOUNT`, and a signed withdraw of that vault
/// then empties it and credits the recipient with exactly that amount.
pub proof fn lemma_end_to_end(
    program_id: Seq<u8>,
    deposit_accounts: Seq<Account>,
    withdraw_accounts: Seq<Account>,
)
    requires
        deposit_accounts.len() >= 3,
        has_vault_key(program_id),
        deposit_accounts[1].id@ == spec_vault_key(program_id),
        deposit_accounts[1].lamports == 0,
        deposit_accounts[0].lamports >= DEPOSIT_AMOUNT,
        withdraw_accounts.len() >= 3,
        withdraw_accounts[1].id@ == spec_vault_key(program_id),
        withdraw_accounts[1].lamports == DEPOSIT_AMOUNT,
        withdraw_accounts[0].is_signer,
        withdraw_accounts[2].lamports + DEPOSIT_AMOUNT <= u64::MAX,
    ensures
        spec_initialize(program_id, deposit_accounts) matches Ok(v) && v[1].lamports
            == DEPOSIT_AMOUNT,
        spec_withdraw(program_id, withdraw_accounts) matches Ok(w) && {
            &&& w[1].lamports == 0
            &&& w[2].lamports == withdraw_accounts[2].lamports + DEPOSIT_AMOUNT
        },
{
}

} // verus!
