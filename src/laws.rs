//! Properties of the ledger that relate several calls, proved over its model.

use vstd::prelude::*;

use crate::account::AccountId;
use crate::balance_map::{balance_in, saturating_sum};
use crate::ledger::{replay, LedgerCall, LedgerView};
use crate::Balance;

verus! {

/// `call` supplies liquidity for `a`.
pub open spec fn supplies_for(call: LedgerCall, a: Seq<u8>) -> bool {
    match call {
        LedgerCall::ProvideLiquidity { caller, .. } => caller@ == a,
        LedgerCall::TakeLoan { .. } => false,
    }
}

/// `call` records a loan for `a`.
pub open spec fn borrows_for(call: LedgerCall, a: Seq<u8>) -> bool {
    match call {
        LedgerCall::ProvideLiquidity { .. } => false,
        LedgerCall::TakeLoan { caller, .. } => caller@ == a,
    }
}

/// The mathematical sum of `xs`.
pub open spec fn total(xs: Seq<Balance>) -> int
    decreases xs.len(),
{
    if xs.len() == 0 {
        0
    } else {
        total(xs.drop_last()) + xs.last()
    }
}

/// `t`, held at `Balance::MAX` where it does not fit.
pub open spec fn capped(t: int) -> Balance {
    if t > Balance::MAX {
        Balance::MAX
    } else {
        t as Balance
    }
}

/// `a` supplying each of `amounts` in turn.
pub open spec fn supplies(a: AccountId, amounts: Seq<Balance>) -> Seq<LedgerCall> {
    Seq::new(
        amounts.len(),
        |i: int| LedgerCall::ProvideLiquidity { caller: a, amount: amounts[i] },
    )
}

/// `a` borrowing each of `amounts` in turn.
pub open spec fn borrowings(a: AccountId, amounts: Seq<Balance>) -> Seq<LedgerCall> {
    Seq::new(amounts.len(), |i: int| LedgerCall::TakeLoan { caller: a, amount: amounts[i] })
}

/// An account that never supplied liquidity has no liquidity entry, and one
/// that never took a loan has no loan entry, whatever else was recorded.
pub proof fn lemma_unrecorded_account_absent(calls: Seq<LedgerCall>, a: AccountId)
    ensures
        (forall|i: int| 0 <= i < calls.len() ==> !supplies_for(#[trigger] calls[i], a@))
            ==> balance_in(replay(calls).liquidity, a@) == None::<Balance>,
        (forall|i: int| 0 <= i < calls.len() ==> !borrows_for(#[trigger] calls[i], a@))
            ==> balance_in(replay(calls).loans, a@) == None::<Balance>,
    decreases calls.len(),
{
    if calls.len() > 0 {
        let prefix = calls.drop_last();
        lemma_unrecorded_account_absent(prefix, a);
        if forall|i: int| 0 <= i < calls.len() ==> !supplies_for(#[trigger] calls[i], a@) {
            assert forall|i: int| 0 <= i < prefix.len() implies !supplies_for(
                #[trigger] prefix[i],
                a@,
            ) by {
                assert(prefix[i] == calls[i]);
            }
            assert(!supplies_for(calls[calls.len() - 1], a@));
        }
        if forall|i: int| 0 <= i < calls.len() ==> !borrows_for(#[trigger] calls[i], a@) {
            assert forall|i: int| 0 <= i < prefix.len() implies !borrows_for(
                #[trigger] prefix[i],
                a@,
            ) by {
                assert(prefix[i] == calls[i]);
            }
            assert(!borrows_for(calls[calls.len() - 1], a@));
        }
    }
}

/// Holding a running sum at the maximum step by step is the same as holding
/// the whole sum at the maximum once.
proof fn lemma_capped_step(xs: Seq<Balance>)
    requires
        xs.len() > 0,
    ensures
        capped(total(xs)) == saturating_sum(
            if xs.len() == 1 {
                0
            } else {
                capped(total(xs.drop_last()))
            },
            xs.last(),
        ),
    decreases xs.len(),
{
    if xs.len() == 1 {
        assert(xs.drop_last().len() == 0);
        assert(total(xs.drop_last()) == 0);
    } else {
        lemma_total_nonneg(xs.drop_last());
    }
}

/// A sum of balances is never negative.
proof fn lemma_total_nonneg(xs: Seq<Balance>)
    ensures
        total(xs) >= 0,
    decreases xs.len(),
{
    if xs.len() > 0 {
        lemma_total_nonneg(xs.drop_last());
    }
}

/// After a fresh ledger records the non-empty `amounts` in order as liquidity
/// supplied by `a`, the liquidity of `a` is their sum, held at
/// `Balance::MAX`; the same holds of loans.
pub proof fn lemma_balance_is_sum(a: AccountId, amounts: Seq<Balance>)
    requires
        amounts.len() > 0,
    ensures
        balance_in(replay(supplies(a, amounts)).liquidity, a@) == Some(capped(total(amounts))),
        balance_in(replay(borrowings(a, amounts)).loans, a@) == Some(capped(total(amounts))),
    decreases amounts.len(),
{
    let prefix = amounts.drop_last();
    assert(supplies(a, amounts).drop_last() =~= supplies(a, prefix));
    assert(borrowings(a, amounts).drop_last() =~= borrowings(a, prefix));
    lemma_capped_step(amounts);
    if amounts.len() > 1 {
        lemma_balance_is_sum(a, prefix);
    } else {
        assert(prefix.len() == 0);
    }
}

/// Recording a loan leaves every liquidity balance as it was, and supplying
/// liquidity leaves every loan balance as it was.
pub proof fn lemma_ledgers_independent(v: LedgerView, a: AccountId, amount: Balance, b: AccountId)
    ensures
        balance_in(v.record_loan(a@, amount).liquidity, b@) == balance_in(v.liquidity, b@),
        balance_in(v.record_liquidity(a@, amount).loans, b@) == balance_in(v.loans, b@),
{
}

/// Recording an amount for one account leaves the balances of every other
/// account as they were.
pub proof fn lemma_accounts_independent(v: LedgerView, a: AccountId, amount: Balance, b: AccountId)
    requires
        a@ != b@,
    ensures
        balance_in(v.record_liquidity(a@, amount).liquidity, b@) == balance_in(v.liquidity, b@),
        balance_in(v.record_loan(a@, amount).loans, b@) == balance_in(v.loans, b@),
{
}

/// Recording zero leaves an existing balance as it was, and creates an entry
/// of zero for an account that had none.
pub proof fn lemma_zero_amount(v: LedgerView, a: AccountId)
    ensures
        v.liquidity.contains_key(a@) ==> v.record_liquidity(a@, 0).liquidity == v.liquidity,
        !v.liquidity.contains_key(a@) ==> balance_in(v.record_liquidity(a@, 0).liquidity, a@)
            == Some(0 as Balance),
        v.loans.contains_key(a@) ==> v.record_loan(a@, 0).loans == v.loans,
        !v.loans.contains_key(a@) ==> balance_in(v.record_loan(a@, 0).loans, a@) == Some(
            0 as Balance,
        ),
{
    if v.liquidity.contains_key(a@) {
        assert(v.record_liquidity(a@, 0).liquidity =~= v.liquidity);
    }
    if v.loans.contains_key(a@) {
        assert(v.record_loan(a@, 0).loans =~= v.loans);
    }
}

} // verus!
