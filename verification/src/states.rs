//! The persistent state of the market: its configuration and its curves.

pub mod bonding_curve;
pub mod global;
