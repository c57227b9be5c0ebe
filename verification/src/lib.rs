//! A minimal custodial vault kept at a program-derived address: one fixed
//! deposit operation that funds the vault, and one withdraw operation that
//! empties it into a recipient.
//!
//! The library is the program's state-transition logic, verified: address
//! derivation checks, authorization checks, and the exact balance moves of
//! each step. The host environment that parses invocations, persists
//! balances and commits each step atomically stays outside; the one call
//! into it, deriving the vault's address, stands behind a single trusted
//! wrapper.

pub mod account;
pub mod laws;
pub mod pda;
pub mod vault;

pub use account::Account;
pub use account::AccountId;
pub use account::key_eq;
pub use pda::vault_address;
pub use vault::DEPOSIT_AMOUNT;
pub use vault::VaultError;
pub use vault::initialize_vault;
pub use vault::process_instruction;
pub use vault::withdraw_from_vault;
