//! Verified core of the veNEAR staking contracts: the growth of veNEAR balances,
//! the lockup's veNEAR accounting, account records, and the approval of voting proposals.

pub mod fraction;
pub mod growth;
pub mod lockup_types;
pub mod lockup;
pub mod review;
pub mod account;
