use vstd::prelude::*;

verus! {

/// Chain epoch number.
pub type ChainEpoch = i64;

/// What a beneficiary may withdraw, and until when.
#[derive(Clone, Copy, Debug, PartialEq, Eq, Structural)]
pub struct BeneficiaryTerm {
    /// The most the beneficiary may withdraw during this term.
    pub quota: u128,
    /// What the beneficiary has withdrawn during this term so far.
    pub used_quota: u128,
    /// The first epoch at which the term no longer applies.
    pub expiration: ChainEpoch,
}

impl BeneficiaryTerm {
    /// Used quota never exceeds the quota.
    pub open spec fn wf(&self) -> bool {
        self.used_quota <= self.quota
    }

    pub open spec fn spec_is_expired(&self, current_epoch: ChainEpoch) -> bool {
        current_epoch >= self.expiration
    }

    /// What the beneficiary may still withdraw at `current_epoch`.
    pub open spec fn spec_available(&self, current_epoch: ChainEpoch) -> int {
        if self.spec_is_expired(current_epoch) {
            0
        } else {
            self.quota - self.used_quota
        }
    }

    pub fn new(quota: u128, used_quota: u128, expiration: ChainEpoch) -> (r: BeneficiaryTerm)
        requires
            used_quota <= quota,
        ensures
            r == (BeneficiaryTerm { quota, used_quota, expiration }),
            r.wf(),
    {
        BeneficiaryTerm { quota, used_quota, expiration }
    }

    pub open spec fn unset_spec() -> BeneficiaryTerm {
        BeneficiaryTerm { quota: 0, used_quota: 0, expiration: 0 }
    }

    /// The term in effect while no beneficiary other than the owner is set.
    pub fn unset() -> (r: BeneficiaryTerm)
        ensures
            r == Self::unset_spec(),
            r.wf(),
    {
        BeneficiaryTerm { quota: 0, used_quota: 0, expiration: 0 }
    }

    pub fn is_expired(&self, current_epoch: ChainEpoch) -> (r: bool)
        ensures
            r == self.spec_is_expired(current_epoch),
    {
        current_epoch >= self.expiration
    }

    /// What the beneficiary may still withdraw at `current_epoch`: nothing once
    /// the term has expired, the unused quota before.
    pub fn available(&self, current_epoch: ChainEpoch) -> (r: u128)
        requires
            self.wf(),
        ensures
            r == self.spec_available(current_epoch),
    {
        if self.is_expired(current_epoch) {
            0
        } else {
            self.quota - self.used_quota
        }
    }
}

} // verus!
