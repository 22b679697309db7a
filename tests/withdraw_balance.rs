use actor_core::address::Address;
use actor_core::beneficiary::{BeneficiaryTerm, ChainEpoch};
use actor_core::withdraw::{ActorBalanceState, WithdrawError};

const BIG_BALANCE: u128 = 1_000_000_000_000_000_000_000_000u128;
const ONE_PERCENT_BALANCE: u128 = BIG_BALANCE / 100;
const PERIOD_OFFSET: ChainEpoch = 100;
const OWNER_ID: u64 = 100;

fn new_state() -> ActorBalanceState {
    ActorBalanceState::new(BIG_BALANCE, Address::new_id(OWNER_ID))
}

fn owner() -> Address {
    Address::new_id(OWNER_ID)
}

fn approve(st: &mut ActorBalanceState, beneficiary: Address, term: BeneficiaryTerm) {
    st.approve_beneficiary(beneficiary, term.quota, term.expiration);
}

#[test]
fn happy_path_withdraws_funds() {
    let mut st = new_state();
    let r = st.withdraw_balance(&owner(), ONE_PERCENT_BALANCE, 0);
    assert_eq!(r, Ok(ONE_PERCENT_BALANCE));
    assert_eq!(st.balance, BIG_BALANCE - ONE_PERCENT_BALANCE);
    assert_eq!(st.fee_debt, 0);
}

#[test]
fn fails_if_miner_cant_repay_fee_debt() {
    let mut st = new_state();
    st.fee_debt = st.balance + 1_000_000_000_000_000_000u128;
    let r = st.withdraw_balance(&owner(), ONE_PERCENT_BALANCE, 0);
    assert_eq!(r, Err(WithdrawError::InsufficientFunds));
    assert!(r.unwrap_err().message().contains("unlocked balance can not repay fee debt"));
    assert_eq!(st.balance, BIG_BALANCE);
    assert_eq!(st.fee_debt, BIG_BALANCE + 1_000_000_000_000_000_000u128);
}

#[test]
fn withdraw_only_what_we_can_after_fee_debt() {
    let mut st = new_state();
    let fee_debt = BIG_BALANCE - ONE_PERCENT_BALANCE;
    st.fee_debt = fee_debt;
    let requested = st.balance;
    let expected_withdraw = requested - fee_debt;
    let r = st.withdraw_balance(&owner(), requested, 0);
    assert_eq!(r, Ok(expected_withdraw));
    assert_eq!(st.fee_debt, fee_debt);
    assert_eq!(st.balance, BIG_BALANCE - ONE_PERCENT_BALANCE);
}

#[test]
fn successfully_withdraw() {
    let mut st = new_state();
    let one: u128 = 1;
    assert_eq!(st.withdraw_balance(&owner(), one, 0), Ok(one));

    let first_beneficiary_id = Address::new_id(999);
    let quota = ONE_PERCENT_BALANCE;
    approve(&mut st, first_beneficiary_id, BeneficiaryTerm::new(quota, 0, PERIOD_OFFSET + 100));
    assert_eq!(st.withdraw_balance(&owner(), one, 0), Ok(one));
    let beneficiary = st.beneficiary.duplicate();
    assert_eq!(st.withdraw_balance(&beneficiary, one, 0), Ok(one));
    assert_eq!(st.balance, BIG_BALANCE - 3);
    assert_eq!(st.beneficiary_term.used_quota, 1);
}

#[test]
fn successfully_withdraw_allow_zero() {
    let mut st = new_state();
    let first_beneficiary_id = Address::new_id(999);
    approve(&mut st, first_beneficiary_id.duplicate(), BeneficiaryTerm::new(1, 0, PERIOD_OFFSET + 100));
    assert_eq!(st.withdraw_balance(&first_beneficiary_id, 0, 0), Ok(0));
    assert_eq!(st.balance, BIG_BALANCE);
    assert_eq!(st.beneficiary_term.used_quota, 0);
}

#[test]
fn successfully_withdraw_limited_to_quota() {
    let mut st = new_state();
    let first_beneficiary_id = Address::new_id(999);
    let quota = ONE_PERCENT_BALANCE;
    approve(&mut st, first_beneficiary_id, BeneficiaryTerm::new(quota, 0, PERIOD_OFFSET + 100));

    let withdraw_amount = ONE_PERCENT_BALANCE * 2;
    let beneficiary = st.beneficiary.duplicate();
    assert_eq!(st.withdraw_balance(&beneficiary, withdraw_amount, 0), Ok(quota));
    assert_eq!(st.beneficiary_term.used_quota, quota);
    assert_eq!(st.balance, BIG_BALANCE - quota);
}

#[test]
fn allow_withdraw_but_no_send_when_beneficiary_not_efficient() {
    let mut st = new_state();
    let first_beneficiary_id = Address::new_id(999);
    let quota = ONE_PERCENT_BALANCE;
    approve(&mut st, first_beneficiary_id, BeneficiaryTerm::new(quota, 0, PERIOD_OFFSET - 10));
    assert_eq!(PERIOD_OFFSET - 10, st.beneficiary_term.expiration);
    let epoch: ChainEpoch = 100;
    let beneficiary = st.beneficiary.duplicate();
    assert_eq!(st.withdraw_balance(&beneficiary, quota, epoch), Ok(0));
    assert_eq!(st.balance, BIG_BALANCE);
    assert_eq!(st.beneficiary_term.used_quota, 0);
}

#[test]
fn fail_withdraw_from_non_beneficiary() {
    let mut st = new_state();
    let first_beneficiary_id = Address::new_id(999);
    let another_actor = Address::new_id(1000);
    let quota = ONE_PERCENT_BALANCE;
    let one: u128 = 1;

    assert_eq!(st.withdraw_balance(&first_beneficiary_id, one, 0), Err(WithdrawError::Forbidden));

    approve(&mut st, first_beneficiary_id.duplicate(), BeneficiaryTerm::new(quota, 0, PERIOD_OFFSET - 10));

    assert_eq!(st.withdraw_balance(&another_actor, one, 0), Err(WithdrawError::Forbidden));

    // the owner may withdraw
    assert_eq!(st.withdraw_balance(&owner(), one, 0), Ok(one));
    // so may the beneficiary
    assert_eq!(st.withdraw_balance(&first_beneficiary_id, one, 0), Ok(one));
    assert_eq!(st.balance, BIG_BALANCE - 2);
}

#[test]
fn owner_blocked_by_fee_debt_leaves_state() {
    let mut st = ActorBalanceState::new(50, owner());
    st.fee_debt = 51;
    assert_eq!(st.withdraw_balance(&owner(), 0, 0), Err(WithdrawError::InsufficientFunds));
    assert_eq!(st.withdraw_balance(&owner(), 7, 0), Err(WithdrawError::InsufficientFunds));
    assert_eq!((st.balance, st.fee_debt), (50, 51));
}

#[test]
fn owner_takes_min_of_request_and_available() {
    let mut st = ActorBalanceState::new(100, owner());
    st.fee_debt = 30;
    assert_eq!(st.withdraw_balance(&owner(), 20, 0), Ok(20));
    assert_eq!(st.balance, 80);
    assert_eq!(st.withdraw_balance(&owner(), 1000, 0), Ok(50));
    assert_eq!(st.balance, 30);
    assert_eq!(st.fee_debt, 30);
    assert_eq!(st.withdraw_balance(&owner(), 1000, 0), Ok(0));
}

#[test]
fn owner_ignores_beneficiary_quota() {
    let mut st = ActorBalanceState::new(100, owner());
    st.approve_beneficiary(Address::new_id(999), 5, 10);
    assert_eq!(st.withdraw_balance(&owner(), 60, 50), Ok(60));
    assert_eq!(st.beneficiary_term.used_quota, 0);
}

#[test]
fn beneficiary_capped_by_available_then_quota() {
    let b = Address::new_id(999);
    let mut st = ActorBalanceState::new(100, owner());
    st.fee_debt = 90;
    st.approve_beneficiary(b.duplicate(), 40, 10);
    // available (10) is the tightest bound
    assert_eq!(st.withdraw_balance(&b, 25, 0), Ok(10));
    assert_eq!(st.beneficiary_term.used_quota, 10);
    st.fee_debt = 0;
    // remaining quota (30) is the tightest bound
    assert_eq!(st.withdraw_balance(&b, 80, 0), Ok(30));
    assert_eq!(st.beneficiary_term.used_quota, 40);
    // quota exhausted: repeated requests never pass it
    assert_eq!(st.withdraw_balance(&b, 80, 0), Ok(0));
    assert_eq!(st.beneficiary_term.used_quota, 40);
    assert_eq!(st.balance, 60);
}

#[test]
fn expired_term_sends_nothing_at_expiration_epoch() {
    let b = Address::new_id(999);
    let mut st = ActorBalanceState::new(100, owner());
    st.approve_beneficiary(b.duplicate(), 40, 10);
    assert_eq!(st.withdraw_balance(&b, 5, 10), Ok(0));
    assert_eq!(st.withdraw_balance(&b, 5, 9), Ok(5));
    assert_eq!(st.balance, 95);
}

#[test]
fn stranger_forbidden_for_any_amount() {
    let mut st = ActorBalanceState::new(100, owner());
    let stranger = Address::new_id(7);
    assert_eq!(st.withdraw_balance(&stranger, 0, 0), Err(WithdrawError::Forbidden));
    assert_eq!(st.withdraw_balance(&stranger, u128::MAX, 0), Err(WithdrawError::Forbidden));
    assert_eq!(
        WithdrawError::Forbidden.message(),
        "caller is not the owner or beneficiary".to_string()
    );
    assert_eq!(st.balance, 100);
}

#[test]
fn beneficiary_term_available() {
    let t = BeneficiaryTerm::new(10, 4, 20);
    assert_eq!(t.available(19), 6);
    assert_eq!(t.available(20), 0);
    assert!(t.is_expired(20));
    assert!(!t.is_expired(19));
    let u = BeneficiaryTerm::unset();
    assert_eq!((u.quota, u.used_quota, u.expiration), (0, 0, 0));
}
