//! The operations of the market, each on a snapshot of the accounts it is
//! given: the checks it makes, the state it leaves, and what is to be
//! settled afterwards.

pub mod buy;
pub mod create_bonding_curve;
pub mod initialize;
pub mod sell;
