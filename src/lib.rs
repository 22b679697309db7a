//! Balance withdrawal for a collateralised actor and the invariant audit of
//! the address registry that maps chain addresses to actor identifiers.
pub mod address;
pub mod beneficiary;
pub mod withdraw;
pub mod invariants;
