//! Creating the curve of a token.

use crate::address::Address;
use crate::errors::ContractError;
use crate::states::bonding_curve::BondingCurve;
use crate::states::global::Global;
use vstd::prelude::*;

verus! {

/// The accounts of a curve's creation, as far as the rules read them.
#[derive(Clone, Copy, Debug, PartialEq, Eq)]
pub struct CreateBondingCurve {
    /// The token to trade.
    pub mint: Address,
    /// Decimal precision of the mint.
    pub mint_decimals: u8,
    /// Who may mint the token, if anyone.
    pub mint_authority: Option<Address>,
    /// Who creates the curve.
    pub creator: Address,
    /// Where the curve's state is kept.
    pub bonding_curve_address: Address,
    /// The curve's state, to be written.
    pub bonding_curve: BondingCurve,
    pub global: Global,
    /// The bump of the curve's address.
    pub bump: u8,
}

impl CreateBondingCurve {
    /// Whether the curve itself is the mint's authority.
    pub open spec fn curve_is_mint_authority(self) -> bool {
        self.mint_authority matches Some(authority) && authority@ == self.bonding_curve_address@
    }

    /// Why the creation is refused, if it is: the first of these that holds.
    pub open spec fn refusal(self) -> Option<ContractError> {
        if self.mint_decimals != self.global.mint_decimals {
            Some(ContractError::InvalidMintDecimals)
        } else if !self.curve_is_mint_authority() {
            Some(ContractError::WrongAuthority)
        } else if !self.global.initialized {
            Some(ContractError::NotInitialized)
        } else {
            None
        }
    }

    /// Writes the state of the new curve from the configuration and returns
    /// the number of tokens to mint into the curve's token account: the
    /// configured total supply.
    ///
    /// The mint must have the configured decimals and the curve as its
    /// authority, and the configuration must be initialized; else the state
    /// is left as it was.
    pub fn handler(&mut self) -> (minted: Result<u64, ContractError>)
        ensures
            match old(self).refusal() {
                Some(e) => minted == Err::<u64, ContractError>(e) && *final(self) == *old(self),
                None => {
                    &&& minted == Ok::<u64, ContractError>(old(self).global.token_total_supply)
                    &&& *final(self) == CreateBondingCurve {
                        bonding_curve: BondingCurve::created(
                            old(self).mint,
                            old(self).creator,
                            old(self).global,
                            old(self).bump,
                        ),
                        ..*old(self)
                    }
                    &&& final(self).bonding_curve.well_formed()
                },
            },
    {
        if self.mint_decimals != self.global.mint_decimals {
            return Err(ContractError::InvalidMintDecimals);
        }
        let authorized: bool = match self.mint_authority {
            Some(authority) => authority == self.bonding_curve_address,
            None => false,
        };
        if !authorized {
            return Err(ContractError::WrongAuthority);
        }
        if !self.global.initialized {
            return Err(ContractError::NotInitialized);
        }
        self.bonding_curve.update_from_params(self.mint, self.creator, &self.global, self.bump);
        Ok(self.bonding_curve.token_total_supply)
    }
}

} // verus!
