use liquidity_loan::account::AccountId;
use liquidity_loan::ledger::LiquidityLoanContract;

fn account(byte: u8) -> AccountId {
    AccountId::from([byte; 32])
}

#[test]
fn provide_liquidity_works() {
    let mut contract = LiquidityLoanContract::new();
    contract.provide_liquidity(account(0x1), 100);
    assert_eq!(contract.get_liquidity_provided(AccountId::from([0x1; 32])), Some(100));
}

#[test]
fn take_loan_works() {
    let mut contract = LiquidityLoanContract::new();
    contract.take_loan(account(0x2), 50);
    assert_eq!(contract.get_loan_taken(AccountId::from([0x2; 32])), Some(50));
}

#[test]
fn liquidity_does_not_show_as_loan() {
    let x = account(0xa1);
    let mut contract = LiquidityLoanContract::new();
    contract.provide_liquidity(x, 100);
    assert_eq!(contract.get_liquidity_provided(x), Some(100));
    assert_eq!(contract.get_loan_taken(x), None);
}

#[test]
fn loan_does_not_show_as_liquidity() {
    let y = account(0xb2);
    let mut contract = LiquidityLoanContract::new();
    contract.take_loan(y, 50);
    assert_eq!(contract.get_loan_taken(y), Some(50));
    assert_eq!(contract.get_liquidity_provided(y), None);
}

#[test]
fn liquidity_accumulates() {
    let x = account(0xa1);
    let mut contract = LiquidityLoanContract::new();
    contract.provide_liquidity(x, 30);
    contract.provide_liquidity(x, 70);
    assert_eq!(contract.get_liquidity_provided(x), Some(100));
}

#[test]
fn unused_account_is_absent() {
    let contract = LiquidityLoanContract::new();
    assert_eq!(contract.get_liquidity_provided(account(0x5a)), None);
    assert_eq!(contract.get_loan_taken(account(0x5a)), None);
}

#[test]
fn account_without_liquidity_stays_absent() {
    let a = account(1);
    let mut contract = LiquidityLoanContract::new();
    contract.provide_liquidity(account(2), 10);
    contract.take_loan(a, 20);
    contract.take_loan(account(3), 30);
    assert_eq!(contract.get_liquidity_provided(a), None);
    assert_eq!(contract.get_loan_taken(account(2)), None);
}

#[test]
fn balances_are_running_sums() {
    let a = account(7);
    let mut contract = LiquidityLoanContract::new();
    for x in [5u128, 0, 12, 1_000_000, 3] {
        contract.provide_liquidity(a, x);
        contract.take_loan(a, 2 * x);
    }
    assert_eq!(contract.get_liquidity_provided(a), Some(1_000_020));
    assert_eq!(contract.get_loan_taken(a), Some(2_000_040));
}

#[test]
fn balances_saturate_at_max() {
    let a = account(9);
    let mut contract = LiquidityLoanContract::new();
    contract.provide_liquidity(a, u128::MAX - 1);
    contract.provide_liquidity(a, 5);
    assert_eq!(contract.get_liquidity_provided(a), Some(u128::MAX));
    contract.take_loan(a, u128::MAX);
    contract.take_loan(a, u128::MAX);
    assert_eq!(contract.get_loan_taken(a), Some(u128::MAX));
}

#[test]
fn loans_leave_liquidity_alone() {
    let a = account(4);
    let mut contract = LiquidityLoanContract::new();
    contract.provide_liquidity(a, 40);
    contract.take_loan(a, 400);
    contract.take_loan(a, 1);
    assert_eq!(contract.get_liquidity_provided(a), Some(40));
    contract.provide_liquidity(a, 2);
    assert_eq!(contract.get_loan_taken(a), Some(401));
}

#[test]
fn accounts_are_independent() {
    let a = account(1);
    let mut b_bytes = [1u8; 32];
    b_bytes[31] = 2;
    let b = AccountId::from(b_bytes);
    let mut contract = LiquidityLoanContract::new();
    contract.provide_liquidity(a, 11);
    contract.take_loan(b, 22);
    contract.provide_liquidity(b, 33);
    assert_eq!(contract.get_liquidity_provided(a), Some(11));
    assert_eq!(contract.get_loan_taken(a), None);
    assert_eq!(contract.get_liquidity_provided(b), Some(33));
    assert_eq!(contract.get_loan_taken(b), Some(22));
}

#[test]
fn repeated_queries_agree() {
    let a = account(6);
    let mut contract = LiquidityLoanContract::new();
    contract.take_loan(a, 8);
    assert_eq!(contract.get_loan_taken(a), contract.get_loan_taken(a));
    assert_eq!(contract.get_loan_taken(a), Some(8));
    assert_eq!(contract.get_liquidity_provided(a), contract.get_liquidity_provided(a));
    assert_eq!(contract.get_liquidity_provided(a), None);
}

#[test]
fn zero_amount_creates_entry() {
    let a = account(3);
    let mut contract = LiquidityLoanContract::new();
    contract.provide_liquidity(a, 0);
    assert_eq!(contract.get_liquidity_provided(a), Some(0));
    contract.take_loan(a, 0);
    assert_eq!(contract.get_loan_taken(a), Some(0));
}

#[test]
fn zero_amount_keeps_balance() {
    let a = account(3);
    let mut contract = LiquidityLoanContract::new();
    contract.provide_liquidity(a, 25);
    contract.provide_liquidity(a, 0);
    assert_eq!(contract.get_liquidity_provided(a), Some(25));
    contract.take_loan(a, 15);
    contract.take_loan(a, 0);
    assert_eq!(contract.get_loan_taken(a), Some(15));
}

#[test]
fn account_equality_compares_all_bytes() {
    let mut bytes = [0x42u8; 32];
    assert!(AccountId::from(bytes) == account(0x42));
    bytes[31] = 0;
    assert!(AccountId::from(bytes) != account(0x42));
    bytes[31] = 0x42;
    bytes[0] = 0;
    assert!(AccountId::from(bytes) != account(0x42));
}
