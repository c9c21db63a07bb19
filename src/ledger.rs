//! The ledger: two independent balance maps, one for liquidity supplied and
//! one for loans taken, with the four operations that read or increase them.

use vstd::prelude::*;

use crate::account::AccountId;
use crate::balance_map::{balance_in, credited, BalanceMap};
use crate::Balance;

verus! {

/// The state of a ledger: the liquidity and the loan balance of each account
/// that has an entry.
pub struct LedgerView {
    pub liquidity: Map<Seq<u8>, Balance>,
    pub loans: Map<Seq<u8>, Balance>,
}

impl LedgerView {
    /// A ledger with no entries.
    pub open spec fn empty() -> LedgerView {
        LedgerView { liquidity: Map::empty(), loans: Map::empty() }
    }

    /// The ledger after `caller` supplies `amount` of liquidity.
    pub open spec fn record_liquidity(self, caller: Seq<u8>, amount: Balance) -> LedgerView {
        LedgerView { liquidity: credited(self.liquidity, caller, amount), loans: self.loans }
    }

    /// The ledger after `caller` takes a loan of `amount`.
    pub open spec fn record_loan(self, caller: Seq<u8>, amount: Balance) -> LedgerView {
        LedgerView { liquidity: self.liquidity, loans: credited(self.loans, caller, amount) }
    }

    /// The ledger after `call`.
    pub open spec fn apply(self, call: LedgerCall) -> LedgerView {
        match call {
            LedgerCall::ProvideLiquidity { caller, amount } => self.record_liquidity(
                caller@,
                amount,
            ),
            LedgerCall::TakeLoan { caller, amount } => self.record_loan(caller@, amount),
        }
    }
}

/// One of the two calls that change a ledger.
#[derive(Clone, Copy, Debug)]
pub enum LedgerCall {
    ProvideLiquidity { caller: AccountId, amount: Balance },
    TakeLoan { caller: AccountId, amount: Balance },
}

/// The state of a freshly constructed ledger after `calls`, in order.
pub open spec fn replay(calls: Seq<LedgerCall>) -> LedgerView
    decreases calls.len(),
{
    if calls.len() == 0 {
        LedgerView::empty()
    } else {
        replay(calls.drop_last()).apply(calls.last())
    }
}

/// Per-account balances of liquidity supplied and of loans taken.
///
/// Balances only grow, and saturate at `Balance::MAX` rather than overflow.
/// An account has no entry in a ledger until its first increment there.
pub struct LiquidityLoanContract {
    liquidity_provided: BalanceMap,
    loan_taken: BalanceMap,
}

impl View for LiquidityLoanContract {
    type V = LedgerView;

    closed spec fn view(&self) -> LedgerView {
        LedgerView { liquidity: self.liquidity_provided@, loans: self.loan_taken@ }
    }
}

impl LiquidityLoanContract {
    /// Both balance maps are well formed.
    pub closed spec fn wf(&self) -> bool {
        self.liquidity_provided.wf() && self.loan_taken.wf()
    }

    /// A ledger in which no account has an entry.
    pub fn new() -> (r: LiquidityLoanContract)
        ensures
            r.wf(),
            r@ == LedgerView::empty(),
    {
        LiquidityLoanContract { liquidity_provided: BalanceMap::new(), loan_taken: BalanceMap::new() }
    }

    /// `caller` supplies `amount` of liquidity: its liquidity balance, zero if
    /// it had none, grows by `amount`, saturating at `Balance::MAX`.
    pub fn provide_liquidity(&mut self, caller: AccountId, amount: Balance)
        requires
            old(self).wf(),
        ensures
            final(self).wf(),
            final(self)@ == old(self)@.record_liquidity(caller@, amount),
    {
        self.liquidity_provided.credit(caller, amount);
    }

    /// `caller` takes a loan of `amount`: its loan balance, zero if it had
    /// none, grows by `amount`, saturating at `Balance::MAX`.
    pub fn take_loan(&mut self, caller: AccountId, amount: Balance)
        requires
            old(self).wf(),
        ensures
            final(self).wf(),
            final(self)@ == old(self)@.record_loan(caller@, amount),
    {
        self.loan_taken.credit(caller, amount);
    }

    /// The liquidity supplied by `address`, or `None` if it never supplied any.
    pub fn get_liquidity_provided(&self, address: AccountId) -> (r: Option<Balance>)
        requires
            self.wf(),
        ensures
            r == balance_in(self@.liquidity, address@),
    {
        self.liquidity_provided.get(&address)
    }

    /// The loans taken by `address`, or `None` if it never took one.
    pub fn get_loan_taken(&self, address: AccountId) -> (r: Option<Balance>)
        requires
            self.wf(),
        ensures
            r == balance_in(self@.loans, address@),
    {
        self.loan_taken.get(&address)
    }
}

} // verus!
