//! Selling tokens back to a curve.

use crate::address::Address;
use crate::errors::ContractError;
use crate::states::bonding_curve::BondingCurve;
use crate::states::global::Global;
use vstd::prelude::*;

verus! {

/// Lamports that every sale pays to the fee receiver, and that are held back
/// from what the seller is paid.
pub const SELL_FEE_LAMPORTS: u64 = 1_000_000;

/// The accounts of a sale, as far as the rules read them.
#[derive(Clone, Copy, Debug, PartialEq, Eq)]
pub struct Sell {
    /// Lamports that the seller holds.
    pub user_lamports: u64,
    /// Tokens that the seller holds.
    pub user_token_amount: u64,
    /// The account offered to receive the fee.
    pub fee_receiver: Address,
    /// Lamports that an account without data must keep to be exempt from rent.
    pub min_rent: u64,
    pub global: Global,
    /// The curve to sell to.
    pub bonding_curve: BondingCurve,
}

/// What is to be moved once a sale is booked.
#[derive(Clone, Copy, Debug, PartialEq, Eq, Structural)]
pub struct SellSettlement {
    /// Tokens to move from the seller to the curve.
    pub token_amount: u64,
    /// Lamports that have left the curve's reserves.
    pub sol_amount: u64,
    /// Lamports to pay to the seller out of the curve's escrow: `sol_amount`
    /// less the fee.
    pub sell_amount_minus_fee: u64,
    /// Lamports to move from the seller to the fee receiver.
    pub fee_lamports: u64,
}

impl Sell {
    /// What [`Sell::validate`] answers: the first refusal that applies, in
    /// this order, or `Ok`.
    pub open spec fn spec_validate(self, amount: u64) -> Result<(), ContractError> {
        if amount == 0 {
            Err(ContractError::MinSell)
        } else if self.fee_receiver@ != self.global.fee_receiver@ {
            Err(ContractError::InvalidFeeReceiver)
        } else if self.user_token_amount < amount {
            Err(ContractError::InsufficientUserTokens)
        } else if self.user_lamports < amount + self.min_rent {
            Err(ContractError::InsufficientUserSOL)
        } else {
            Ok(())
        }
    }

    /// What [`Sell::handler`] answers and the accounts it leaves: on success
    /// the curve has the sale booked, and nothing else has changed. A sale
    /// that releases less than the fee is refused.
    pub open spec fn spec_handler(self, token_amount: u64) -> Result<
        (Sell, SellSettlement),
        ContractError,
    > {
        if !self.global.initialized {
            Err(ContractError::NotInitialized)
        } else if self.bonding_curve.complete {
            Err(ContractError::BondingCurveComplete)
        } else {
            match self.spec_validate(token_amount) {
                Err(e) => Err(e),
                Ok(_) => match self.bonding_curve.spec_sell(token_amount) {
                    Err(e) => Err(e),
                    Ok((curve, sol)) => if sol < SELL_FEE_LAMPORTS {
                        Err(ContractError::CalculationError)
                    } else {
                        Ok(
                            (
                                Sell { bonding_curve: curve, ..self },
                                SellSettlement {
                                    token_amount,
                                    sol_amount: sol,
                                    sell_amount_minus_fee: (sol - SELL_FEE_LAMPORTS) as u64,
                                    fee_lamports: SELL_FEE_LAMPORTS,
                                },
                            ),
                        )
                    },
                },
            }
        }
    }

    /// Checks a sale of `amount` tokens against the accounts: the amount is
    /// not zero, the fee goes to the configured receiver, the seller holds
    /// the tokens, and the seller's lamports cover the amount and the
    /// rent-exempt minimum.
    pub fn validate(&self, amount: u64) -> (checked: Result<(), ContractError>)
        ensures
            checked == self.spec_validate(amount),
    {
        if amount == 0 {
            return Err(ContractError::MinSell);
        }
        if self.fee_receiver != self.global.fee_receiver {
            return Err(ContractError::InvalidFeeReceiver);
        }
        if self.user_token_amount < amount {
            return Err(ContractError::InsufficientUserTokens);
        }
        let covered: bool = match amount.checked_add(self.min_rent) {
            Some(needed) => self.user_lamports >= needed,
            None => false,
        };
        if !covered {
            return Err(ContractError::InsufficientUserSOL);
        }
        Ok(())
    }

    /// Sells `token_amount` tokens: checks the accounts, quotes the sale,
    /// takes the fee off what the seller is paid, and books the sale on the
    /// curve. What comes back is to be settled: the tokens to take from the
    /// seller, the lamports to pay out, and the fee.
    ///
    /// On an error the accounts are left as they were.
    pub fn handler(&mut self, token_amount: u64) -> (settlement: Result<
        SellSettlement,
        ContractError,
    >)
        ensures
            match old(self).spec_handler(token_amount) {
                Ok((accounts, s)) => settlement == Ok::<SellSettlement, ContractError>(s)
                    && *final(self) == accounts,
                Err(e) => settlement == Err::<SellSettlement, ContractError>(e) && *final(self)
                    == *old(self),
            },
            settlement matches Ok(s) ==> {
                &&& s.token_amount == token_amount
                &&& s.fee_lamports == SELL_FEE_LAMPORTS
                &&& s.sell_amount_minus_fee == s.sol_amount - SELL_FEE_LAMPORTS
            },
            old(self).bonding_curve.well_formed() ==> final(self).bonding_curve.well_formed(),
    {
        if !self.global.initialized {
            return Err(ContractError::NotInitialized);
        }
        if self.bonding_curve.complete {
            return Err(ContractError::BondingCurveComplete);
        }
        self.validate(token_amount)?;
        let mut curve: BondingCurve = self.bonding_curve;
        let sol_amount: u64 = curve.sell(token_amount)?;
        let sell_amount_minus_fee: u64 = sol_amount.checked_sub(SELL_FEE_LAMPORTS).ok_or(
            ContractError::CalculationError,
        )?;
        self.bonding_curve = curve;
        Ok(
            SellSettlement {
                token_amount,
                sol_amount,
                sell_amount_minus_fee,
                fee_lamports: SELL_FEE_LAMPORTS,
            },
        )
    }
}

} // verus!
