//! Buying tokens from a curve.

use crate::address::Address;
use crate::errors::ContractError;
use crate::states::bonding_curve::{BondingCurve, BuyQuote};
use crate::states::global::Global;
use vstd::prelude::*;

verus! {

/// Lamports that every buy pays to the fee receiver, on top of its price.
pub const BUY_FEE_LAMPORTS: u64 = 1_000_000_000;

/// The accounts of a buy, as far as the rules read them.
#[derive(Clone, Copy, Debug, PartialEq, Eq)]
pub struct Buy {
    /// Lamports that the buyer holds.
    pub user_lamports: u64,
    /// The account offered to receive the fee.
    pub fee_receiver: Address,
    /// Lamports that an account without data must keep to be exempt from rent.
    pub min_rent: u64,
    pub global: Global,
    /// The curve to buy from.
    pub bonding_curve: BondingCurve,
}

/// What is to be moved once a buy is booked.
#[derive(Clone, Copy, Debug, PartialEq, Eq, Structural)]
pub struct BuySettlement {
    /// Tokens to hand to the buyer.
    pub token_amount: u64,
    /// Lamports to move from the buyer into the curve's escrow.
    pub sol_amount: u64,
    /// Lamports to move from the buyer to the fee receiver.
    pub fee_lamports: u64,
    /// Whether the buy has completed the curve.
    pub last_buy: bool,
}

impl Buy {
    /// What is to be moved for a quoted buy: what the quote says, and the
    /// fee on top.
    pub open spec fn settlement(quote: BuyQuote) -> BuySettlement {
        BuySettlement {
            token_amount: quote.token_amount,
            sol_amount: quote.sol_amount,
            fee_lamports: BUY_FEE_LAMPORTS,
            last_buy: quote.last_buy,
        }
    }

    /// What [`Buy::validate`] answers: the first refusal that applies, in
    /// this order, or `Ok`.
    pub open spec fn spec_validate(self, amount: u64) -> Result<(), ContractError> {
        if amount == 0 {
            Err(ContractError::MinBuy)
        } else if self.fee_receiver@ != self.global.fee_receiver@ {
            Err(ContractError::InvalidFeeReceiver)
        } else if self.user_lamports < amount + self.min_rent {
            Err(ContractError::InsufficientUserSOL)
        } else {
            Ok(())
        }
    }

    /// What [`Buy::handler`] answers and the accounts it leaves: on success
    /// the curve has the buy booked, and nothing else has changed.
    pub open spec fn spec_handler(self, sol_amount: u64) -> Result<
        (Buy, BuySettlement),
        ContractError,
    > {
        if !self.global.initialized {
            Err(ContractError::NotInitialized)
        } else if self.bonding_curve.complete {
            Err(ContractError::BondingCurveComplete)
        } else {
            match self.spec_validate(sol_amount) {
                Err(e) => Err(e),
                Ok(_) => match self.bonding_curve.spec_buy(sol_amount) {
                    Err(e) => Err(e),
                    Ok((curve, quote)) => Ok(
                        (Buy { bonding_curve: curve, ..self }, Self::settlement(quote)),
                    ),
                },
            }
        }
    }

    /// Checks a buy of `amount` lamports against the accounts: the amount is
    /// not zero, the fee goes to the configured receiver, and the buyer holds
    /// the amount and the rent-exempt minimum besides.
    pub fn validate(&self, amount: u64) -> (checked: Result<(), ContractError>)
        ensures
            checked == self.spec_validate(amount),
    {
        if amount == 0 {
            return Err(ContractError::MinBuy);
        }
        if self.fee_receiver != self.global.fee_receiver {
            return Err(ContractError::InvalidFeeReceiver);
        }
        let covered: bool = match amount.checked_add(self.min_rent) {
            Some(needed) => self.user_lamports >= needed,
            None => false,
        };
        if !covered {
            return Err(ContractError::InsufficientUserSOL);
        }
        Ok(())
    }

    /// Buys with `sol_amount` lamports: checks the accounts, quotes the buy
    /// and books it on the curve. What comes back is to be settled: the
    /// tokens to hand to the buyer, the lamports to move into the curve's
    /// escrow, and the fee to pay on top.
    ///
    /// On an error the accounts are left as they were.
    pub fn handler(&mut self, sol_amount: u64) -> (settlement: Result<BuySettlement, ContractError>)
        ensures
            match old(self).spec_handler(sol_amount) {
                Ok((accounts, s)) => settlement == Ok::<BuySettlement, ContractError>(s)
                    && *final(self) == accounts,
                Err(e) => settlement == Err::<BuySettlement, ContractError>(e) && *final(self)
                    == *old(self),
            },
            settlement matches Ok(s) ==> s.fee_lamports == BUY_FEE_LAMPORTS,
            old(self).bonding_curve.well_formed() ==> final(self).bonding_curve.well_formed(),
    {
        if !self.global.initialized {
            return Err(ContractError::NotInitialized);
        }
        if self.bonding_curve.complete {
            return Err(ContractError::BondingCurveComplete);
        }
        self.validate(sol_amount)?;
        let quote: BuyQuote = self.bonding_curve.buy(sol_amount)?;
        Ok(
            BuySettlement {
                token_amount: quote.token_amount,
                sol_amount: quote.sol_amount,
                fee_lamports: BUY_FEE_LAMPORTS,
                last_buy: quote.last_buy,
            },
        )
    }
}

} // verus!
