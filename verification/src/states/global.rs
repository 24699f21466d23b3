//! The market-wide configuration that new curves are seeded from.

use crate::address::Address;
use vstd::prelude::*;

verus! {

/// The market-wide configuration: the seed values of new curves, the decimal
/// precision of their mints and where fees go.
#[derive(Clone, Copy, Debug, PartialEq, Eq)]
pub struct Global {
    /// Set once, when the configuration is first written.
    pub initialized: bool,
    pub global_authority: Address,
    pub migration_authority: Address,
    pub migrate_fee_amount: u64,
    pub migration_token_allocation: u64,
    /// The account entitled to trade fees.
    pub fee_receiver: Address,
    pub initial_virtual_token_reserves: u64,
    pub initial_virtual_sol_reserves: u64,
    pub initial_real_token_reserves: u64,
    /// Tokens minted once for each curve.
    pub token_total_supply: u64,
    /// Decimal precision of the token mints.
    pub mint_decimals: u8,
    pub lp_config: Address,
}

/// The tunable part of the configuration, as an authority hands it in.
#[derive(Clone, Copy, Debug, PartialEq, Eq)]
pub struct GlobalSettingsInput {
    pub initial_virtual_token_reserves: u64,
    pub initial_virtual_sol_reserves: u64,
    pub initial_real_token_reserves: u64,
    pub token_total_supply: u64,
    pub mint_decimals: u8,
    pub migrate_fee_amount: u64,
    pub migration_token_allocation: u64,
    pub fee_receiver: Address,
    pub lp_config: Address,
}

impl Global {
    /// The configuration that holds `params` as its settings and keeps the
    /// flag and the authorities of `self`.
    pub open spec fn with_settings(self, params: GlobalSettingsInput) -> Global {
        Global {
            initialized: self.initialized,
            global_authority: self.global_authority,
            migration_authority: self.migration_authority,
            migrate_fee_amount: params.migrate_fee_amount,
            migration_token_allocation: params.migration_token_allocation,
            fee_receiver: params.fee_receiver,
            initial_virtual_token_reserves: params.initial_virtual_token_reserves,
            initial_virtual_sol_reserves: params.initial_virtual_sol_reserves,
            initial_real_token_reserves: params.initial_real_token_reserves,
            token_total_supply: params.token_total_supply,
            mint_decimals: params.mint_decimals,
            lp_config: params.lp_config,
        }
    }

    /// Overwrites every tunable field with the value in `params`. Nothing is
    /// validated beyond what the types allow; the flag and the authorities
    /// stay as they are.
    pub fn update_settings(&mut self, params: GlobalSettingsInput)
        ensures
            *final(self) == old(self).with_settings(params),
    {
        self.initial_virtual_token_reserves = params.initial_virtual_token_reserves;
        self.initial_virtual_sol_reserves = params.initial_virtual_sol_reserves;
        self.initial_real_token_reserves = params.initial_real_token_reserves;
        self.token_total_supply = params.token_total_supply;
        self.mint_decimals = params.mint_decimals;
        self.migrate_fee_amount = params.migrate_fee_amount;
        self.migration_token_allocation = params.migration_token_allocation;
        self.fee_receiver = params.fee_receiver;
        self.lp_config = params.lp_config;
    }
}

} // verus!
