//! The state of one curve, the quotes it gives and the trades it books.

use crate::address::Address;
use crate::errors::ContractError;
use crate::pricing::{
    constant_product, lemma_scale_up_exact, lemma_sol_out_bounded, lemma_tokens_out_bounded,
    sol_for_last_buy, sol_out_for_tokens, tokens_out_for_sol, FINAL_VIRTUAL_SOL_RESERVES,
    SOL_BASIS, TOKEN_BASIS,
};
use crate::states::global::Global;
use vstd::prelude::*;

verus! {

/// The state of the curve of one token.
///
/// Prices come from the virtual reserves; what can be settled, and whether
/// the curve has completed, from the real ones.
#[derive(Clone, Copy, Debug, PartialEq, Eq)]
pub struct BondingCurve {
    /// The token that the curve trades. Set at creation.
    pub mint: Address,
    /// Who created the curve. Set at creation.
    pub creator: Address,
    /// The real token reserves at creation.
    pub initial_real_token_reserves: u64,
    pub virtual_sol_reserves: u64,
    pub virtual_token_reserves: u64,
    pub real_sol_reserves: u64,
    pub real_token_reserves: u64,
    /// Tokens minted for the curve. Set at creation.
    pub token_total_supply: u64,
    /// Set by the buy that takes the last real tokens, and never cleared.
    pub complete: bool,
    pub bump: u8,
}

/// What a buy releases and what it charges.
#[derive(Clone, Copy, Debug, PartialEq, Eq, Structural)]
pub struct BuyQuote {
    /// Tokens to release to the buyer.
    pub token_amount: u64,
    /// Lamports to charge and to book into the reserves.
    pub sol_amount: u64,
    /// Whether the buy takes the last real tokens and completes the curve.
    pub last_buy: bool,
}

impl BondingCurve {
    /// The curve as it stands at creation: reserves seeded from `global`, no
    /// lamports held, open for trading.
    pub open spec fn created(mint: Address, creator: Address, global: Global, bump: u8) -> BondingCurve {
        BondingCurve {
            mint,
            creator,
            initial_real_token_reserves: global.initial_real_token_reserves,
            virtual_sol_reserves: global.initial_virtual_sol_reserves,
            virtual_token_reserves: global.initial_virtual_token_reserves,
            real_sol_reserves: 0,
            real_token_reserves: global.initial_real_token_reserves,
            token_total_supply: global.token_total_supply,
            complete: false,
            bump,
        }
    }

    /// What holds of a curve from its creation through every trade: once it
    /// is complete, no real tokens are left.
    pub open spec fn well_formed(self) -> bool {
        self.complete ==> self.real_token_reserves == 0
    }

    /// Whether the constant product of the virtual reserves fits the 128-bit
    /// intermediate that pricing computes in.
    pub open spec fn product_fits(self) -> bool {
        constant_product(self.virtual_sol_reserves as int, self.virtual_token_reserves as int)
            <= u128::MAX
    }

    /// Tokens that `sol_amount` lamports buy at the current virtual reserves.
    pub open spec fn spec_tokens_for_buy(self, sol_amount: u64) -> Option<u64> {
        if sol_amount == 0 || !self.product_fits() {
            None
        } else {
            Some(
                tokens_out_for_sol(
                    self.virtual_sol_reserves as int,
                    self.virtual_token_reserves as int,
                    sol_amount as int,
                ) as u64,
            )
        }
    }

    /// Lamports that `token_amount` tokens sell for at the current virtual
    /// reserves.
    pub open spec fn spec_sol_for_sale(self, token_amount: u64) -> Option<u64> {
        if token_amount == 0 || !self.product_fits() {
            None
        } else {
            Some(
                sol_out_for_tokens(
                    self.virtual_sol_reserves as int,
                    self.virtual_token_reserves as int,
                    token_amount as int,
                ) as u64,
            )
        }
    }

    /// The curve that the last buy is priced on: the remaining real tokens
    /// taken out of the virtual token reserves, and the virtual lamport
    /// reserves at their final value.
    pub open spec fn at_last_buy(self) -> BondingCurve {
        BondingCurve {
            virtual_sol_reserves: FINAL_VIRTUAL_SOL_RESERVES,
            virtual_token_reserves: (self.virtual_token_reserves - self.real_token_reserves) as u64,
            ..self
        }
    }

    /// Lamports charged by the buy that takes all remaining real tokens.
    pub open spec fn spec_sol_for_last_buy(self) -> Option<u64> {
        if self.real_token_reserves == 0 || self.real_token_reserves > self.virtual_token_reserves {
            None
        } else {
            Some(
                sol_for_last_buy(
                    FINAL_VIRTUAL_SOL_RESERVES as int,
                    self.virtual_token_reserves as int,
                    self.real_token_reserves as int,
                ) as u64,
            )
        }
    }

    /// The answer to a request to buy with `sol_amount` lamports.
    ///
    /// A completed curve quotes nothing, and an amount of zero buys nothing.
    /// Where the formula releases fewer tokens than the real reserves hold,
    /// those tokens go for the amount offered. Where it releases as many or
    /// more, the buy is the last one: it takes exactly the real reserves, for
    /// the lamports of [`BondingCurve::spec_sol_for_last_buy`].
    pub open spec fn spec_quote_buy(self, sol_amount: u64) -> Result<BuyQuote, ContractError> {
        if self.complete {
            Err(ContractError::BondingCurveComplete)
        } else if sol_amount == 0 {
            Err(ContractError::MinBuy)
        } else {
            match self.spec_tokens_for_buy(sol_amount) {
                None => Err(ContractError::CalculationError),
                Some(tokens) => if tokens < self.real_token_reserves {
                    Ok(BuyQuote { token_amount: tokens, sol_amount, last_buy: false })
                } else {
                    match self.spec_sol_for_last_buy() {
                        None => Err(ContractError::CalculationError),
                        Some(sol) => Ok(
                            BuyQuote {
                                token_amount: self.real_token_reserves,
                                sol_amount: sol,
                                last_buy: true,
                            },
                        ),
                    }
                },
            }
        }
    }

    /// The answer to a request to sell `token_amount` tokens: the lamports
    /// released. A completed curve quotes nothing, and an amount of zero
    /// sells nothing.
    pub open spec fn spec_quote_sell(self, token_amount: u64) -> Result<u64, ContractError> {
        if self.complete {
            Err(ContractError::BondingCurveComplete)
        } else if token_amount == 0 {
            Err(ContractError::MinSell)
        } else {
            match self.spec_sol_for_sale(token_amount) {
                None => Err(ContractError::CalculationError),
                Some(sol) => Ok(sol),
            }
        }
    }

    /// The reserves once a buy of `token_amount` tokens for `sol_amount`
    /// lamports is booked; `None` where one of the four reserves would leave
    /// the 64-bit range.
    pub open spec fn spec_after_buy(self, token_amount: u64, sol_amount: u64) -> Option<BondingCurve> {
        if token_amount <= self.virtual_token_reserves && token_amount <= self.real_token_reserves
            && self.virtual_sol_reserves + sol_amount <= u64::MAX && self.real_sol_reserves
            + sol_amount <= u64::MAX {
            Some(
                BondingCurve {
                    virtual_token_reserves: (self.virtual_token_reserves - token_amount) as u64,
                    real_token_reserves: (self.real_token_reserves - token_amount) as u64,
                    virtual_sol_reserves: (self.virtual_sol_reserves + sol_amount) as u64,
                    real_sol_reserves: (self.real_sol_reserves + sol_amount) as u64,
                    ..self
                },
            )
        } else {
            None
        }
    }

    /// The reserves once a sale of `token_amount` tokens for `sol_amount`
    /// lamports is booked; `None` where one of the four reserves would leave
    /// the 64-bit range.
    pub open spec fn spec_after_sell(self, token_amount: u64, sol_amount: u64) -> Option<BondingCurve> {
        if self.virtual_token_reserves + token_amount <= u64::MAX && self.real_token_reserves
            + token_amount <= u64::MAX && sol_amount <= self.virtual_sol_reserves && sol_amount
            <= self.real_sol_reserves {
            Some(
                BondingCurve {
                    virtual_token_reserves: (self.virtual_token_reserves + token_amount) as u64,
                    real_token_reserves: (self.real_token_reserves + token_amount) as u64,
                    virtual_sol_reserves: (self.virtual_sol_reserves - sol_amount) as u64,
                    real_sol_reserves: (self.real_sol_reserves - sol_amount) as u64,
                    ..self
                },
            )
        } else {
            None
        }
    }

    /// A whole buy: the quote, and the curve with the quote booked and, after
    /// the last buy, marked complete.
    pub open spec fn spec_buy(self, sol_amount: u64) -> Result<(BondingCurve, BuyQuote), ContractError> {
        match self.spec_quote_buy(sol_amount) {
            Err(e) => Err(e),
            Ok(quote) => match self.spec_after_buy(quote.token_amount, quote.sol_amount) {
                None => Err(ContractError::CalculationError),
                Some(booked) => Ok((BondingCurve { complete: quote.last_buy, ..booked }, quote)),
            },
        }
    }

    /// A whole sale: the lamports released, and the curve with the sale
    /// booked.
    pub open spec fn spec_sell(self, token_amount: u64) -> Result<(BondingCurve, u64), ContractError> {
        match self.spec_quote_sell(token_amount) {
            Err(e) => Err(e),
            Ok(sol) => match self.spec_after_sell(token_amount, sol) {
                None => Err(ContractError::CalculationError),
                Some(booked) => Ok((booked, sol)),
            },
        }
    }

    /// Writes the state of a newly created curve: see [`BondingCurve::created`].
    /// Whatever the state was before is gone.
    pub fn update_from_params(
        &mut self,
        mint: Address,
        creator: Address,
        global: &Global,
        bump: u8,
    ) -> (curve: &mut Self)
        ensures
            *curve == Self::created(mint, creator, *global, bump),
            curve.well_formed(),
            *final(self) == *final(curve),
    {
        *self = BondingCurve {
            mint,
            creator,
            initial_real_token_reserves: global.initial_real_token_reserves,
            virtual_sol_reserves: global.initial_virtual_sol_reserves,
            virtual_token_reserves: global.initial_virtual_token_reserves,
            real_sol_reserves: 0,
            real_token_reserves: global.initial_real_token_reserves,
            token_total_supply: global.token_total_supply,
            complete: false,
            bump,
        };
        self
    }

    /// Tokens to be received for depositing `sol_amount` lamports.
    ///
    /// `None` for an amount of zero, and where the constant product does not
    /// fit 128 bits; no other step can fail.
    pub fn get_tokens_for_buy_with_sol(&self, sol_amount: u64) -> (tokens: Option<u64>)
        ensures
            tokens == self.spec_tokens_for_buy(sol_amount),
            tokens is None <==> sol_amount == 0 || !self.product_fits(),
            tokens matches Some(t) ==> t == tokens_out_for_sol(
                self.virtual_sol_reserves as int,
                self.virtual_token_reserves as int,
                sol_amount as int,
            ) && t <= self.virtual_token_reserves,
    {
        if sol_amount == 0 {
            return None;
        }
        proof {
            lemma_scale_up_exact(self.virtual_token_reserves as int);
            lemma_tokens_out_bounded(
                self.virtual_sol_reserves as int,
                self.virtual_token_reserves as int,
                sol_amount as int,
            );
        }
        // Both sides in the nine-decimal basis.
        let current_sol: u128 = self.virtual_sol_reserves as u128;
        let current_tokens: u128 = (self.virtual_token_reserves as u128).checked_mul(
            SOL_BASIS,
        )?.checked_div(TOKEN_BASIS)?;
        // The reserves that keep the product.
        let new_sol: u128 = current_sol.checked_add(sol_amount as u128)?;
        let new_tokens: u128 = current_sol.checked_mul(current_tokens)?.checked_div(new_sol)?;
        let tokens_out: u128 = current_tokens.checked_sub(new_tokens)?;
        // Back to token units.
        let tokens_out: u128 = tokens_out.checked_mul(TOKEN_BASIS)?.checked_div(SOL_BASIS)?;
        u64::try_from(tokens_out).ok()
    }

    /// Lamports to be received for depositing `token_amount` tokens.
    ///
    /// `None` for an amount of zero, and where the constant product does not
    /// fit 128 bits; no other step can fail.
    pub fn get_sol_for_sale_on_tokens(&self, token_amount: u64) -> (sol: Option<u64>)
        ensures
            sol == self.spec_sol_for_sale(token_amount),
            sol is None <==> token_amount == 0 || !self.product_fits(),
            sol matches Some(s) ==> s == sol_out_for_tokens(
                self.virtual_sol_reserves as int,
                self.virtual_token_reserves as int,
                token_amount as int,
            ) && s <= self.virtual_sol_reserves,
    {
        if token_amount == 0 {
            return None;
        }
        proof {
            lemma_scale_up_exact(self.virtual_token_reserves as int);
            lemma_scale_up_exact(token_amount as int);
            lemma_sol_out_bounded(
                self.virtual_sol_reserves as int,
                self.virtual_token_reserves as int,
                token_amount as int,
            );
        }
        // Both sides in the nine-decimal basis.
        let current_sol: u128 = self.virtual_sol_reserves as u128;
        let current_tokens: u128 = (self.virtual_token_reserves as u128).checked_mul(
            SOL_BASIS,
        )?.checked_div(TOKEN_BASIS)?;
        // The reserves that keep the product.
        let tokens_in: u128 = (token_amount as u128).checked_mul(SOL_BASIS)?.checked_div(
            TOKEN_BASIS,
        )?;
        let new_tokens: u128 = current_tokens.checked_add(tokens_in)?;
        let new_sol: u128 = current_sol.checked_mul(current_tokens)?.checked_div(new_tokens)?;
        let sol_out: u128 = current_sol.checked_sub(new_sol)?;
        u64::try_from(sol_out).ok()
    }

    /// Lamports to charge for the buy that takes all remaining real tokens:
    /// what their sale would release on the curve [`BondingCurve::at_last_buy`].
    /// That curve is a copy made for the purpose; `self` is only read.
    ///
    /// `None` where no real tokens remain, and where they exceed the virtual
    /// token reserves.
    pub fn recompute_sol_amount_for_last_buy(&self) -> (sol: Option<u64>)
        ensures
            sol == self.spec_sol_for_last_buy(),
            sol is None <==> self.real_token_reserves == 0 || self.real_token_reserves
                > self.virtual_token_reserves,
            sol is Some ==> sol == self.at_last_buy().spec_sol_for_sale(self.real_token_reserves),
            sol matches Some(s) ==> s == sol_for_last_buy(
                FINAL_VIRTUAL_SOL_RESERVES as int,
                self.virtual_token_reserves as int,
                self.real_token_reserves as int,
            ) && s <= FINAL_VIRTUAL_SOL_RESERVES,
    {
        let token_amount: u64 = self.real_token_reserves;
        let remaining: u64 = self.virtual_token_reserves.checked_sub(token_amount)?;
        let snapshot = BondingCurve {
            mint: self.mint,
            creator: self.creator,
            initial_real_token_reserves: self.initial_real_token_reserves,
            virtual_sol_reserves: FINAL_VIRTUAL_SOL_RESERVES,
            virtual_token_reserves: remaining,
            real_sol_reserves: self.real_sol_reserves,
            real_token_reserves: self.real_token_reserves,
            token_total_supply: self.token_total_supply,
            complete: self.complete,
            bump: self.bump,
        };
        proof {
            lemma_scale_up_exact(remaining as int);
            assert(snapshot == self.at_last_buy());
            assert(snapshot.product_fits());
        }
        snapshot.get_sol_for_sale_on_tokens(token_amount)
    }

    /// Quotes a buy with `sol_amount` lamports: the tokens to release, the
    /// lamports to charge, and whether the buy completes the curve. The curve
    /// is only read, so asking again gives the same answer.
    ///
    /// See [`BondingCurve::spec_quote_buy`] for each refusal. The buy is the
    /// last one exactly when the formula reaches the real token reserves.
    pub fn quote_buy(&self, sol_amount: u64) -> (quote: Result<BuyQuote, ContractError>)
        ensures
            quote == self.spec_quote_buy(sol_amount),
            self.complete ==> quote == Err::<BuyQuote, ContractError>(
                ContractError::BondingCurveComplete,
            ),
            !self.complete && sol_amount == 0 ==> quote == Err::<BuyQuote, ContractError>(
                ContractError::MinBuy,
            ),
            quote matches Ok(q) ==> {
                &&& q.last_buy <==> tokens_out_for_sol(
                    self.virtual_sol_reserves as int,
                    self.virtual_token_reserves as int,
                    sol_amount as int,
                ) >= self.real_token_reserves
                &&& q.last_buy ==> q.token_amount == self.real_token_reserves
                &&& !q.last_buy ==> q.sol_amount == sol_amount
                &&& q.token_amount <= self.real_token_reserves
                &&& q.token_amount <= self.virtual_token_reserves
            },
    {
        if self.complete {
            return Err(ContractError::BondingCurveComplete);
        }
        if sol_amount == 0 {
            return Err(ContractError::MinBuy);
        }
        let tokens: u64 = self.get_tokens_for_buy_with_sol(sol_amount).ok_or(
            ContractError::CalculationError,
        )?;
        if tokens >= self.real_token_reserves {
            // The last buy takes what is left, at the price recomputed for it.
            let sol: u64 = self.recompute_sol_amount_for_last_buy().ok_or(
                ContractError::CalculationError,
            )?;
            Ok(BuyQuote { token_amount: self.real_token_reserves, sol_amount: sol, last_buy: true })
        } else {
            Ok(BuyQuote { token_amount: tokens, sol_amount, last_buy: false })
        }
    }

    /// Quotes a sale of `token_amount` tokens: the lamports to release. The
    /// curve is only read, so asking again gives the same answer.
    ///
    /// See [`BondingCurve::spec_quote_sell`] for each refusal.
    pub fn quote_sell(&self, token_amount: u64) -> (quote: Result<u64, ContractError>)
        ensures
            quote == self.spec_quote_sell(token_amount),
            self.complete ==> quote == Err::<u64, ContractError>(
                ContractError::BondingCurveComplete,
            ),
            !self.complete && token_amount == 0 ==> quote == Err::<u64, ContractError>(
                ContractError::MinSell,
            ),
            quote matches Ok(sol) ==> sol == sol_out_for_tokens(
                self.virtual_sol_reserves as int,
                self.virtual_token_reserves as int,
                token_amount as int,
            ) && sol <= self.virtual_sol_reserves,
    {
        if self.complete {
            return Err(ContractError::BondingCurveComplete);
        }
        if token_amount == 0 {
            return Err(ContractError::MinSell);
        }
        self.get_sol_for_sale_on_tokens(token_amount).ok_or(ContractError::CalculationError)
    }

    /// Books a buy: `token_amount` tokens leave the virtual and the real
    /// token reserves, `sol_amount` lamports enter the virtual and the real
    /// lamport reserves. Either all four change or, on `None`, nothing does.
    /// `complete` is never touched here.
    pub fn update_reserves_after_buy(&mut self, token_amount: u64, sol_amount: u64) -> (done: Option<()>)
        ensures
            match old(self).spec_after_buy(token_amount, sol_amount) {
                Some(booked) => done is Some && *final(self) == booked,
                None => done is None && *final(self) == *old(self),
            },
            done is Some ==> {
                &&& final(self).virtual_token_reserves == old(self).virtual_token_reserves
                    - token_amount
                &&& final(self).real_token_reserves == old(self).real_token_reserves - token_amount
                &&& final(self).virtual_sol_reserves == old(self).virtual_sol_reserves + sol_amount
                &&& final(self).real_sol_reserves == old(self).real_sol_reserves + sol_amount
            },
            old(self).well_formed() ==> final(self).well_formed(),
    {
        let new_virtual_token_reserves: u64 = self.virtual_token_reserves.checked_sub(
            token_amount,
        )?;
        let new_real_token_reserves: u64 = self.real_token_reserves.checked_sub(token_amount)?;
        let new_virtual_sol_reserves: u64 = self.virtual_sol_reserves.checked_add(sol_amount)?;
        let new_real_sol_reserves: u64 = self.real_sol_reserves.checked_add(sol_amount)?;

        self.virtual_token_reserves = new_virtual_token_reserves;
        self.real_token_reserves = new_real_token_reserves;
        self.virtual_sol_reserves = new_virtual_sol_reserves;
        self.real_sol_reserves = new_real_sol_reserves;
        Some(())
    }

    /// Books a sale: `token_amount` tokens enter the virtual and the real
    /// token reserves, `sol_amount` lamports leave the virtual and the real
    /// lamport reserves. Either all four change or, on `None`, nothing does.
    /// `complete` is never touched here.
    pub fn update_reserves_after_sell(&mut self, token_amount: u64, sol_amount: u64) -> (done: Option<()>)
        ensures
            match old(self).spec_after_sell(token_amount, sol_amount) {
                Some(booked) => done is Some && *final(self) == booked,
                None => done is None && *final(self) == *old(self),
            },
            done is Some ==> {
                &&& final(self).virtual_token_reserves == old(self).virtual_token_reserves
                    + token_amount
                &&& final(self).real_token_reserves == old(self).real_token_reserves + token_amount
                &&& final(self).virtual_sol_reserves == old(self).virtual_sol_reserves - sol_amount
                &&& final(self).real_sol_reserves == old(self).real_sol_reserves - sol_amount
            },
            old(self).well_formed() && !old(self).complete ==> final(self).well_formed(),
    {
        let new_virtual_token_reserves: u64 = self.virtual_token_reserves.checked_add(
            token_amount,
        )?;
        let new_real_token_reserves: u64 = self.real_token_reserves.checked_add(token_amount)?;
        let new_virtual_sol_reserves: u64 = self.virtual_sol_reserves.checked_sub(sol_amount)?;
        let new_real_sol_reserves: u64 = self.real_sol_reserves.checked_sub(sol_amount)?;

        self.virtual_token_reserves = new_virtual_token_reserves;
        self.real_token_reserves = new_real_token_reserves;
        self.virtual_sol_reserves = new_virtual_sol_reserves;
        self.real_sol_reserves = new_real_sol_reserves;
        Some(())
    }

    /// Trades `sol_amount` lamports for tokens: quotes the buy, books it, and
    /// after the last buy marks the curve complete. On an error the curve is
    /// left as it was.
    pub fn buy(&mut self, sol_amount: u64) -> (quote: Result<BuyQuote, ContractError>)
        ensures
            match old(self).spec_buy(sol_amount) {
                Ok((traded, q)) => quote == Ok::<BuyQuote, ContractError>(q) && *final(self)
                    == traded,
                Err(e) => quote == Err::<BuyQuote, ContractError>(e) && *final(self) == *old(self),
            },
            old(self).complete ==> quote == Err::<BuyQuote, ContractError>(
                ContractError::BondingCurveComplete,
            ),
            quote matches Ok(q) ==> {
                &&& final(self).real_token_reserves == old(self).real_token_reserves
                    - q.token_amount
                &&& final(self).complete == q.last_buy
                &&& final(self).complete <==> final(self).real_token_reserves == 0
            },
            old(self).well_formed() ==> final(self).well_formed(),
    {
        let quote: BuyQuote = self.quote_buy(sol_amount)?;
        self.update_reserves_after_buy(quote.token_amount, quote.sol_amount).ok_or(
            ContractError::CalculationError,
        )?;
        if quote.last_buy {
            // The curve completes only once the buy is booked.
            self.complete = true;
        }
        Ok(quote)
    }

    /// Trades `token_amount` tokens for lamports: quotes the sale and books
    /// it. On an error the curve is left as it was.
    pub fn sell(&mut self, token_amount: u64) -> (sol: Result<u64, ContractError>)
        ensures
            match old(self).spec_sell(token_amount) {
                Ok((traded, s)) => sol == Ok::<u64, ContractError>(s) && *final(self) == traded,
                Err(e) => sol == Err::<u64, ContractError>(e) && *final(self) == *old(self),
            },
            old(self).complete ==> sol == Err::<u64, ContractError>(
                ContractError::BondingCurveComplete,
            ),
            sol is Ok ==> final(self).real_token_reserves == old(self).real_token_reserves
                + token_amount && !final(self).complete,
            old(self).well_formed() ==> final(self).well_formed(),
    {
        let sol: u64 = self.quote_sell(token_amount)?;
        self.update_reserves_after_sell(token_amount, sol).ok_or(
            ContractError::CalculationError,
        )?;
        Ok(sol)
    }
}

} // verus!
