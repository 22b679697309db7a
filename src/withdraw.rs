use vstd::prelude::*;

use crate::address::{Address, AddressView};
use crate::beneficiary::{BeneficiaryTerm, ChainEpoch};

verus! {

/// Why a withdrawal was refused.
#[derive(Clone, Copy, Debug, PartialEq, Eq, Structural)]
pub enum WithdrawError {
    /// The caller is neither the owner nor the beneficiary.
    Forbidden,
    /// The fee debt exceeds the balance: unlocked balance can not repay fee debt.
    InsufficientFunds,
}

impl WithdrawError {
    /// A human-readable description of the refusal.
    pub fn message(&self) -> (r: String)
        ensures
            *self == WithdrawError::Forbidden ==> r@ == "caller is not the owner or beneficiary"@,
            *self == WithdrawError::InsufficientFunds ==> r@
                == "unlocked balance can not repay fee debt"@,
    {
        match self {
            WithdrawError::Forbidden => "caller is not the owner or beneficiary".to_owned(),
            WithdrawError::InsufficientFunds => "unlocked balance can not repay fee debt".to_owned(),
        }
    }
}

/// The balance record of an actor.
#[derive(Debug)]
pub struct ActorBalanceState {
    pub balance: u128,
    pub fee_debt: u128,
    pub owner: Address,
    /// Equal to `owner` while no other beneficiary is set.
    pub beneficiary: Address,
    pub beneficiary_term: BeneficiaryTerm,
}

pub open spec fn min(a: int, b: int) -> int {
    if a <= b {
        a
    } else {
        b
    }
}

/// Whether `caller` may withdraw from `s`.
pub open spec fn authorized(s: ActorBalanceState, caller: AddressView) -> bool {
    caller == s.owner@ || caller == s.beneficiary@
}

/// What an authorised caller receives when the fee debt is covered: the owner up
/// to the balance left after the debt; another beneficiary also up to what its
/// term still allows.
pub open spec fn withdrawable(
    s: ActorBalanceState,
    caller: AddressView,
    requested: u128,
    current_epoch: ChainEpoch,
) -> int {
    let available = s.balance - s.fee_debt;
    if caller == s.owner@ {
        min(requested as int, available)
    } else {
        min(min(requested as int, available), s.beneficiary_term.spec_available(current_epoch))
    }
}

/// The record after `caller` has been sent `actual`.
pub open spec fn after_withdrawal(
    s: ActorBalanceState,
    caller: AddressView,
    actual: u128,
) -> ActorBalanceState {
    ActorBalanceState {
        balance: (s.balance - actual) as u128,
        beneficiary_term: if caller == s.owner@ {
            s.beneficiary_term
        } else {
            BeneficiaryTerm {
                used_quota: (s.beneficiary_term.used_quota + actual) as u128,
                ..s.beneficiary_term
            }
        },
        ..s
    }
}

/// The result of a withdrawal request and the record after it.
pub open spec fn withdraw_outcome(
    s: ActorBalanceState,
    caller: AddressView,
    requested: u128,
    current_epoch: ChainEpoch,
) -> (Result<u128, WithdrawError>, ActorBalanceState) {
    if !authorized(s, caller) {
        (Err(WithdrawError::Forbidden), s)
    } else if s.fee_debt > s.balance {
        (Err(WithdrawError::InsufficientFunds), s)
    } else {
        let actual = withdrawable(s, caller, requested, current_epoch) as u128;
        (Ok(actual), after_withdrawal(s, caller, actual))
    }
}

/// When the fee debt exceeds the balance, every request by the owner fails with
/// `InsufficientFunds` and leaves the record as it was.
pub proof fn lemma_owner_blocked_by_fee_debt(
    s: ActorBalanceState,
    requested: u128,
    current_epoch: ChainEpoch,
)
    requires
        s.fee_debt > s.balance,
    ensures
        withdraw_outcome(s, s.owner@, requested, current_epoch) == (
        Err::<u128, WithdrawError>(WithdrawError::InsufficientFunds),
        s,
        ),
{
}

/// When the fee debt is covered, the owner receives the smaller of the request
/// and the balance left after the debt; the balance drops by that amount and the
/// fee debt stays as it was.
pub proof fn lemma_owner_withdrawal(
    s: ActorBalanceState,
    requested: u128,
    current_epoch: ChainEpoch,
)
    requires
        s.fee_debt <= s.balance,
    ensures
        ({
            let (r, t) = withdraw_outcome(s, s.owner@, requested, current_epoch);
            let actual = min(requested as int, s.balance - s.fee_debt);
            &&& r == Ok::<u128, WithdrawError>(actual as u128)
            &&& t.balance == s.balance - actual
            &&& t.fee_debt == s.fee_debt
            &&& t.beneficiary_term == s.beneficiary_term
        }),
{
}

/// A beneficiary other than the owner, within its term and with the fee debt
/// covered, receives the smallest of the request, the balance left after the
/// debt and the unused quota; its used quota grows by that amount and never
/// passes the quota.
pub proof fn lemma_beneficiary_withdrawal(
    s: ActorBalanceState,
    caller: AddressView,
    requested: u128,
    current_epoch: ChainEpoch,
)
    requires
        s.wf(),
        caller == s.beneficiary@,
        caller != s.owner@,
        s.fee_debt <= s.balance,
        !s.beneficiary_term.spec_is_expired(current_epoch),
    ensures
        ({
            let (r, t) = withdraw_outcome(s, caller, requested, current_epoch);
            let q = s.beneficiary_term.quota;
            let u = s.beneficiary_term.used_quota;
            let actual = min(min(requested as int, s.balance - s.fee_debt), q - u);
            &&& r == Ok::<u128, WithdrawError>(actual as u128)
            &&& t.balance == s.balance - actual
            &&& t.beneficiary_term.used_quota == u + actual
            &&& t.beneficiary_term.used_quota <= q
        }),
{
}

/// Every request, by any caller, keeps the used quota within the quota; so no
/// run of withdrawals pushes it above the quota.
pub proof fn lemma_withdrawal_keeps_quota(
    s: ActorBalanceState,
    caller: AddressView,
    requested: u128,
    current_epoch: ChainEpoch,
)
    requires
        s.wf(),
    ensures
        withdraw_outcome(s, caller, requested, current_epoch).1.wf(),
        withdraw_outcome(s, caller, requested, current_epoch).1.beneficiary_term.quota
            == s.beneficiary_term.quota,
{
}

/// Once the term has expired, a beneficiary other than the owner receives
/// nothing, without an error, and the record stays as it was (the fee debt
/// being covered).
pub proof fn lemma_expired_term_is_inert(
    s: ActorBalanceState,
    caller: AddressView,
    requested: u128,
    current_epoch: ChainEpoch,
)
    requires
        s.wf(),
        caller == s.beneficiary@,
        caller != s.owner@,
        s.fee_debt <= s.balance,
        s.beneficiary_term.spec_is_expired(current_epoch),
    ensures
        withdraw_outcome(s, caller, requested, current_epoch) == (Ok::<u128, WithdrawError>(0), s),
{
    let t = withdraw_outcome(s, caller, requested, current_epoch).1;
    assert(t.beneficiary_term == s.beneficiary_term);
}

/// A request for nothing by an authorised caller succeeds, sends nothing and
/// leaves the record as it was (the fee debt being covered).
pub proof fn lemma_zero_request_is_inert(
    s: ActorBalanceState,
    caller: AddressView,
    current_epoch: ChainEpoch,
)
    requires
        s.wf(),
        authorized(s, caller),
        s.fee_debt <= s.balance,
    ensures
        withdraw_outcome(s, caller, 0, current_epoch) == (Ok::<u128, WithdrawError>(0), s),
{
    let t = withdraw_outcome(s, caller, 0, current_epoch).1;
    assert(t.beneficiary_term == s.beneficiary_term);
}

/// A caller that is neither the owner nor the beneficiary fails with
/// `Forbidden`, whatever it asks for, and the record stays as it was.
pub proof fn lemma_stranger_forbidden(
    s: ActorBalanceState,
    caller: AddressView,
    requested: u128,
    current_epoch: ChainEpoch,
)
    requires
        !authorized(s, caller),
    ensures
        withdraw_outcome(s, caller, requested, current_epoch) == (
        Err::<u128, WithdrawError>(WithdrawError::Forbidden),
        s,
        ),
{
}

impl ActorBalanceState {
    pub open spec fn wf(&self) -> bool {
        self.beneficiary_term.wf()
    }

    /// A record holding `balance`, with no fee debt and the owner as its own
    /// beneficiary.
    pub fn new(balance: u128, owner: Address) -> (r: ActorBalanceState)
        ensures
            r.wf(),
            r.balance == balance,
            r.fee_debt == 0,
            r.owner@ == owner@,
            r.beneficiary@ == owner@,
            r.beneficiary_term == BeneficiaryTerm::unset_spec(),
    {
        let beneficiary = owner.duplicate();
        ActorBalanceState {
            balance,
            fee_debt: 0,
            owner,
            beneficiary,
            beneficiary_term: BeneficiaryTerm::unset(),
        }
    }

    /// Sets a new beneficiary and its term, as an approved proposal does: the
    /// used quota starts again from zero.
    pub fn approve_beneficiary(
        &mut self,
        beneficiary: Address,
        quota: u128,
        expiration: ChainEpoch,
    )
        ensures
            final(self).wf(),
            final(self).beneficiary == beneficiary,
            final(self).beneficiary_term == (BeneficiaryTerm {
                quota,
                used_quota: 0,
                expiration,
            }),
            final(self).balance == old(self).balance,
            final(self).fee_debt == old(self).fee_debt,
            final(self).owner == old(self).owner,
    {
        self.beneficiary = beneficiary;
        self.beneficiary_term = BeneficiaryTerm::new(quota, 0, expiration);
    }

    /// Withdraws up to `requested` for `caller` at `current_epoch`, and returns
    /// the amount to be sent to `caller`; zero means that nothing is sent.
    pub fn withdraw_balance(
        &mut self,
        caller: &Address,
        requested: u128,
        current_epoch: ChainEpoch,
    ) -> (r: Result<u128, WithdrawError>)
        requires
            old(self).wf(),
        ensures
            final(self).wf(),
            (r, *final(self)) == withdraw_outcome(*old(self), caller@, requested, current_epoch),
    {
        let is_owner = caller.equals(&self.owner);
        if !is_owner && !caller.equals(&self.beneficiary) {
            return Err(WithdrawError::Forbidden);
        }
        if self.fee_debt > self.balance {
            return Err(WithdrawError::InsufficientFunds);
        }
        let available = self.balance - self.fee_debt;
        let mut actual: u128 = if requested <= available {
            requested
        } else {
            available
        };
        if !is_owner {
            let remaining = self.beneficiary_term.available(current_epoch);
            if remaining < actual {
                actual = remaining;
            }
            self.beneficiary_term.used_quota = self.beneficiary_term.used_quota + actual;
        }
        self.balance = self.balance - actual;
        Ok(actual)
    }
}

} // verus!
