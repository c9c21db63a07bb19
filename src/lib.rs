//! A ledger of two independent per-account running balances: liquidity
//! supplied and loans taken.

use vstd::prelude::*;

pub mod account;
pub mod balance_map;
pub mod laws;
pub mod ledger;

verus! {

/// Amount of liquidity or loan, in the host's base unit.
pub type Balance = u128;

} // verus!
