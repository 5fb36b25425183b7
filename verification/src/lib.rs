//! A minimal account-balance ledger.
//!
//! The crate tracks how many fungible units each account holds and offers
//! operations to issue new units ([`ledger::Erc20Token::mint`]), move units
//! between accounts ([`ledger::Erc20Token::transfer`]), and move units into
//! and out of a per-caller holding area ([`vault::Wallet::deposit`],
//! [`vault::Wallet::withdraw`]). Every operation either applies completely
//! or leaves the state untouched, balances never go negative, and the
//! ledger's conservation invariant (total supply equals the sum of all
//! balances) is preserved by every successful operation.

pub mod balances;
pub mod errors;
pub mod ledger;
pub mod vault;
