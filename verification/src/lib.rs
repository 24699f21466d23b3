//! Pricing and reserve accounting for a constant-product bonding-curve
//! market.
//!
//! A curve trades one token against lamports. It prices every trade from its
//! virtual reserves, settles it against its real reserves, and completes once
//! a buy has taken the last real tokens.
//!
//! - [`pricing`] holds the formulas, over mathematical integers.
//! - [`states`] holds the configuration and the curve: quotes, and the
//!   booking of trades.
//! - [`instructions`] holds the operations of the market on snapshots of the
//!   accounts they are given.
//! - [`trades`] holds what is proved of trades and of runs of trades.
//!
//! The library moves no value: it says what is to be moved.

pub mod address;
pub mod errors;
pub mod instructions;
pub mod pricing;
pub mod states;
pub mod trades;
