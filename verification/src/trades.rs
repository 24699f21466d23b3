//! Trades one after another, and what holds of every curve they lead to.

use crate::errors::ContractError;
use crate::pricing::{
    constant_product, lemma_buy_keeps_product, lemma_scale_down_floor, lemma_scale_up_exact,
    lemma_sell_keeps_product, lemma_sol_out_bounded, lemma_tokens_out_bounded, scale_up,
    tokens_after_buy, tokens_out_for_sol,
};
use crate::states::bonding_curve::{BondingCurve, BuyQuote};
use vstd::prelude::*;

verus! {

/// One trade against a curve.
#[derive(Clone, Copy, Debug, PartialEq, Eq, Structural)]
pub enum Trade {
    /// Lamports offered for tokens.
    Buy { sol_amount: u64 },
    /// Tokens offered for lamports.
    Sell { token_amount: u64 },
}

/// The curve after `trade`; `None` where the trade is refused.
pub open spec fn after_trade(curve: BondingCurve, trade: Trade) -> Option<BondingCurve> {
    match trade {
        Trade::Buy { sol_amount } => match curve.spec_buy(sol_amount) {
            Ok((next, _)) => Some(next),
            Err(_) => None,
        },
        Trade::Sell { token_amount } => match curve.spec_sell(token_amount) {
            Ok((next, _)) => Some(next),
            Err(_) => None,
        },
    }
}

/// Tokens that `trade` takes out of the curve; negative where it puts
/// tokens in, zero where it is refused.
pub open spec fn tokens_released(curve: BondingCurve, trade: Trade) -> int {
    match trade {
        Trade::Buy { sol_amount } => match curve.spec_buy(sol_amount) {
            Ok((_, quote)) => quote.token_amount as int,
            Err(_) => 0,
        },
        Trade::Sell { token_amount } => match curve.spec_sell(token_amount) {
            Ok(_) => -(token_amount as int),
            Err(_) => 0,
        },
    }
}

/// Lamports that `trade` brings into the curve; negative where it takes
/// lamports out, zero where it is refused.
pub open spec fn lamports_taken(curve: BondingCurve, trade: Trade) -> int {
    match trade {
        Trade::Buy { sol_amount } => match curve.spec_buy(sol_amount) {
            Ok((_, quote)) => quote.sol_amount as int,
            Err(_) => 0,
        },
        Trade::Sell { token_amount } => match curve.spec_sell(token_amount) {
            Ok((_, sol)) => -(sol as int),
            Err(_) => 0,
        },
    }
}

/// The curve after all of `trades`, in order; `None` as soon as one of them
/// is refused.
pub open spec fn after_trades(curve: BondingCurve, trades: Seq<Trade>) -> Option<BondingCurve>
    decreases trades.len(),
{
    if trades.len() == 0 {
        Some(curve)
    } else {
        match after_trades(curve, trades.drop_last()) {
            Some(before) => after_trade(before, trades.last()),
            None => None,
        }
    }
}

/// Tokens that `trades` take out of the curve in all, each trade counted at
/// the curve it meets.
pub open spec fn total_tokens_released(curve: BondingCurve, trades: Seq<Trade>) -> int
    decreases trades.len(),
{
    if trades.len() == 0 {
        0
    } else {
        match after_trades(curve, trades.drop_last()) {
            Some(before) => total_tokens_released(curve, trades.drop_last()) + tokens_released(
                before,
                trades.last(),
            ),
            None => total_tokens_released(curve, trades.drop_last()),
        }
    }
}

/// Lamports that `trades` bring into the curve in all, each trade counted at
/// the curve it meets.
pub open spec fn total_lamports_taken(curve: BondingCurve, trades: Seq<Trade>) -> int
    decreases trades.len(),
{
    if trades.len() == 0 {
        0
    } else {
        match after_trades(curve, trades.drop_last()) {
            Some(before) => total_lamports_taken(curve, trades.drop_last()) + lamports_taken(
                before,
                trades.last(),
            ),
            None => total_lamports_taken(curve, trades.drop_last()),
        }
    }
}

/// Whether `trade` is a buy that the curve accepts and that releases at
/// least one token.
pub open spec fn is_releasing_buy(curve: BondingCurve, trade: Trade) -> bool {
    trade matches Trade::Buy { sol_amount } && curve.spec_buy(sol_amount) matches Ok((_, quote))
        && quote.token_amount > 0
}

/// Whether every one of `trades` is a buy that the curve it meets accepts
/// and that releases at least one token.
pub open spec fn releasing_buys(curve: BondingCurve, trades: Seq<Trade>) -> bool
    decreases trades.len(),
{
    trades.len() == 0 || {
        &&& releasing_buys(curve, trades.drop_last())
        &&& after_trades(curve, trades.drop_last()) matches Some(before) && is_releasing_buy(
            before,
            trades.last(),
        )
    }
}

/// What a quoted buy is made of. The tokens are those of the formula unless
/// the formula reaches the real reserves; then, and only then, the buy is the
/// last one and takes exactly the real reserves. A quoted buy never takes
/// more than the real or the virtual reserves hold, and a curve without real
/// tokens quotes no buy.
pub proof fn lemma_quoted_buy(curve: BondingCurve, sol_amount: u64)
    requires
        curve.spec_quote_buy(sol_amount) is Ok,
    ensures
        ({
            let quote = curve.spec_quote_buy(sol_amount)->Ok_0;
            let tokens = tokens_out_for_sol(
                curve.virtual_sol_reserves as int,
                curve.virtual_token_reserves as int,
                sol_amount as int,
            );
            &&& !curve.complete
            &&& sol_amount > 0
            &&& curve.real_token_reserves > 0
            &&& 0 <= tokens <= curve.virtual_token_reserves
            &&& quote.last_buy <==> tokens >= curve.real_token_reserves
            &&& quote.last_buy ==> quote.token_amount == curve.real_token_reserves
            &&& !quote.last_buy ==> quote.token_amount == tokens && quote.sol_amount == sol_amount
            &&& quote.token_amount <= curve.real_token_reserves
            &&& quote.token_amount <= curve.virtual_token_reserves
        }),
{
    lemma_tokens_out_bounded(
        curve.virtual_sol_reserves as int,
        curve.virtual_token_reserves as int,
        sol_amount as int,
    );
}

/// A buy whose formula releases exactly the real reserves is the last buy:
/// it is quoted, takes exactly those reserves and completes the curve. (A
/// curve without real tokens is left out: it quotes no buy at all.)
pub proof fn lemma_exhausting_buy_is_last(curve: BondingCurve, sol_amount: u64)
    requires
        !curve.complete,
        curve.real_token_reserves > 0,
        curve.spec_tokens_for_buy(sol_amount) == Some(curve.real_token_reserves),
    ensures
        curve.spec_quote_buy(sol_amount) matches Ok(quote) && quote.last_buy && quote.token_amount
            == curve.real_token_reserves,
        curve.spec_buy(sol_amount) matches Ok((next, _)) ==> next.complete
            && next.real_token_reserves == 0,
{
    lemma_tokens_out_bounded(
        curve.virtual_sol_reserves as int,
        curve.virtual_token_reserves as int,
        sol_amount as int,
    );
}

/// A quote depends on the virtual reserves, the real token reserves and the
/// flag, and on nothing else: two curves that agree on these give the same
/// quote for the same amount, however often they are asked.
pub proof fn lemma_quote_reads_reserves_only(first: BondingCurve, second: BondingCurve, amount: u64)
    requires
        first.virtual_sol_reserves == second.virtual_sol_reserves,
        first.virtual_token_reserves == second.virtual_token_reserves,
        first.real_token_reserves == second.real_token_reserves,
        first.complete == second.complete,
    ensures
        first.spec_quote_buy(amount) == second.spec_quote_buy(amount),
        first.spec_quote_sell(amount) == second.spec_quote_sell(amount),
{
}

/// A completed curve refuses every quote and every trade.
pub proof fn lemma_completed_curve_refuses(curve: BondingCurve, amount: u64)
    requires
        curve.complete,
    ensures
        curve.spec_quote_buy(amount) == Err::<BuyQuote, ContractError>(
            ContractError::BondingCurveComplete,
        ),
        curve.spec_quote_sell(amount) == Err::<u64, ContractError>(
            ContractError::BondingCurveComplete,
        ),
        curve.spec_buy(amount) is Err,
        curve.spec_sell(amount) is Err,
        after_trade(curve, Trade::Buy { sol_amount: amount }) is None,
        after_trade(curve, Trade::Sell { token_amount: amount }) is None,
{
}

/// A buy draws the real token reserves down by exactly the tokens it
/// releases: strictly, where it releases any. The curve is complete after
/// the buy exactly if no real tokens are left, which is exactly after the
/// last buy.
pub proof fn lemma_buy_draws_down(curve: BondingCurve, sol_amount: u64)
    requires
        curve.spec_buy(sol_amount) is Ok,
    ensures
        ({
            let (next, quote) = curve.spec_buy(sol_amount)->Ok_0;
            &&& next.real_token_reserves == curve.real_token_reserves - quote.token_amount
            &&& quote.token_amount > 0 ==> next.real_token_reserves < curve.real_token_reserves
            &&& next.complete <==> next.real_token_reserves == 0
            &&& next.complete <==> quote.last_buy
        }),
{
    lemma_quoted_buy(curve, sol_amount);
}

/// A trade books exactly what it quotes, in whole numbers: the real and the
/// virtual reserves move by the same tokens and the same lamports, and what
/// was set at creation stays.
pub proof fn lemma_trade_books_exactly(curve: BondingCurve, trade: Trade)
    requires
        after_trade(curve, trade) is Some,
    ensures
        ({
            let next = after_trade(curve, trade)->Some_0;
            let tokens = tokens_released(curve, trade);
            let lamports = lamports_taken(curve, trade);
            &&& !curve.complete
            &&& next.real_token_reserves == curve.real_token_reserves - tokens
            &&& next.virtual_token_reserves == curve.virtual_token_reserves - tokens
            &&& next.real_sol_reserves == curve.real_sol_reserves + lamports
            &&& next.virtual_sol_reserves == curve.virtual_sol_reserves + lamports
            &&& next.mint == curve.mint
            &&& next.creator == curve.creator
            &&& next.initial_real_token_reserves == curve.initial_real_token_reserves
            &&& next.token_total_supply == curve.token_total_supply
            &&& next.bump == curve.bump
            &&& next.complete <==> next.real_token_reserves == 0
            &&& next.well_formed()
        }),
{
    match trade {
        Trade::Buy { sol_amount } => {
            lemma_buy_draws_down(curve, sol_amount);
        },
        Trade::Sell { token_amount } => {
            lemma_sol_out_bounded(
                curve.virtual_sol_reserves as int,
                curve.virtual_token_reserves as int,
                token_amount as int,
            );
        },
    }
}

/// A sale never raises the constant product of the virtual reserves, and
/// lowers it by less than one unit of the new scaled token reserves: the
/// product is kept up to the rounding of one division.
pub proof fn lemma_sale_keeps_product(curve: BondingCurve, token_amount: u64)
    requires
        curve.spec_sell(token_amount) is Ok,
    ensures
        ({
            let next = curve.spec_sell(token_amount)->Ok_0.0;
            let before = constant_product(
                curve.virtual_sol_reserves as int,
                curve.virtual_token_reserves as int,
            );
            let after = constant_product(
                next.virtual_sol_reserves as int,
                next.virtual_token_reserves as int,
            );
            after <= before < after + scale_up(next.virtual_token_reserves as int)
        }),
{
    lemma_sol_out_bounded(
        curve.virtual_sol_reserves as int,
        curve.virtual_token_reserves as int,
        token_amount as int,
    );
    lemma_sell_keeps_product(
        curve.virtual_sol_reserves as int,
        curve.virtual_token_reserves as int,
        token_amount as int,
    );
}

/// A buy other than the last keeps the constant product of the virtual
/// reserves up to rounding. The division of the formula lowers it by less
/// than one unit of the new lamport reserves; rounding the tokens released
/// down to whole token units raises it again, by less than a thousand such
/// units. (The last buy is priced apart and is left out.)
pub proof fn lemma_buy_keeps_product_nearly(curve: BondingCurve, sol_amount: u64)
    requires
        curve.spec_buy(sol_amount) is Ok,
        !curve.spec_buy(sol_amount)->Ok_0.1.last_buy,
    ensures
        ({
            let next = curve.spec_buy(sol_amount)->Ok_0.0;
            let before = constant_product(
                curve.virtual_sol_reserves as int,
                curve.virtual_token_reserves as int,
            );
            let after = constant_product(
                next.virtual_sol_reserves as int,
                next.virtual_token_reserves as int,
            );
            before - next.virtual_sol_reserves < after <= before + 999 * next.virtual_sol_reserves
        }),
{
    let virtual_sol = curve.virtual_sol_reserves as int;
    let virtual_token = curve.virtual_token_reserves as int;
    let next = curve.spec_buy(sol_amount)->Ok_0.0;
    lemma_quoted_buy(curve, sol_amount);
    lemma_buy_keeps_product(virtual_sol, virtual_token, sol_amount as int);
    lemma_scale_up_exact(virtual_token);
    lemma_scale_up_exact(next.virtual_token_reserves as int);
    let kept = tokens_after_buy(virtual_sol, virtual_token, sol_amount as int);
    lemma_scale_down_floor(scale_up(virtual_token) - kept);
    let new_sol = next.virtual_sol_reserves as int;
    let new_tokens = scale_up(next.virtual_token_reserves as int);
    assert(kept <= new_tokens <= kept + 999);
    assert(new_sol * kept <= new_sol * new_tokens <= new_sol * kept + 999 * new_sol)
        by (nonlinear_arith)
        requires
            0 <= new_sol,
            kept <= new_tokens <= kept + 999,
    ;
}

/// Where a run of trades is accepted, so is every beginning of it.
pub proof fn lemma_beginning_is_accepted(curve: BondingCurve, trades: Seq<Trade>, n: int)
    requires
        after_trades(curve, trades) is Some,
        0 <= n <= trades.len(),
    ensures
        after_trades(curve, trades.take(n)) is Some,
    decreases trades.len(),
{
    if n == trades.len() {
        assert(trades.take(n) =~= trades);
    } else {
        lemma_beginning_is_accepted(curve, trades.drop_last(), n);
        assert(trades.drop_last().take(n) =~= trades.take(n));
    }
}

/// After every run of accepted trades the real reserves are what the curve
/// started with, less the tokens released and plus the lamports taken, added
/// up in whole numbers: no step of the run has taken them below zero. The
/// virtual reserves have moved in step with the real ones, and what was set
/// at creation stays.
pub proof fn lemma_reserves_follow_trades(curve: BondingCurve, trades: Seq<Trade>)
    requires
        after_trades(curve, trades) is Some,
    ensures
        ({
            let end = after_trades(curve, trades)->Some_0;
            let tokens = total_tokens_released(curve, trades);
            let lamports = total_lamports_taken(curve, trades);
            &&& end.real_token_reserves == curve.real_token_reserves - tokens
            &&& end.real_sol_reserves == curve.real_sol_reserves + lamports
            &&& curve.real_token_reserves - tokens >= 0
            &&& curve.real_sol_reserves + lamports >= 0
            &&& end.virtual_token_reserves - end.real_token_reserves
                == curve.virtual_token_reserves - curve.real_token_reserves
            &&& end.virtual_sol_reserves - end.real_sol_reserves == curve.virtual_sol_reserves
                - curve.real_sol_reserves
            &&& end.mint == curve.mint
            &&& end.creator == curve.creator
            &&& end.initial_real_token_reserves == curve.initial_real_token_reserves
            &&& end.token_total_supply == curve.token_total_supply
            &&& end.bump == curve.bump
            &&& trades.len() > 0 ==> (end.complete <==> end.real_token_reserves == 0)
            &&& curve.well_formed() ==> end.well_formed()
        }),
    decreases trades.len(),
{
    if trades.len() > 0 {
        lemma_reserves_follow_trades(curve, trades.drop_last());
        let before = after_trades(curve, trades.drop_last())->Some_0;
        lemma_trade_books_exactly(before, trades.last());
    }
}

/// At every step of a run of accepted trades, the curve is as
/// [`lemma_reserves_follow_trades`] says of the trades up to that step: the
/// real reserves are the whole-number balance of what was traded so far, and
/// that balance is not negative.
pub proof fn lemma_reserves_at_every_step(curve: BondingCurve, trades: Seq<Trade>, n: int)
    requires
        after_trades(curve, trades) is Some,
        0 <= n <= trades.len(),
    ensures
        ({
            let so_far = trades.take(n);
            let tokens = total_tokens_released(curve, so_far);
            let lamports = total_lamports_taken(curve, so_far);
            &&& after_trades(curve, so_far) matches Some(at) && {
                &&& at.real_token_reserves == curve.real_token_reserves - tokens
                &&& at.real_sol_reserves == curve.real_sol_reserves + lamports
                &&& curve.well_formed() ==> at.well_formed()
            }
            &&& curve.real_token_reserves - tokens >= 0
            &&& curve.real_sol_reserves + lamports >= 0
        }),
{
    lemma_beginning_is_accepted(curve, trades, n);
    lemma_reserves_follow_trades(curve, trades.take(n));
}

/// Where every trade of a run is a buy that releases tokens, so is every
/// trade of each beginning of the run.
pub proof fn lemma_beginning_of_releasing_buys(curve: BondingCurve, trades: Seq<Trade>, n: int)
    requires
        releasing_buys(curve, trades),
        0 <= n <= trades.len(),
    ensures
        releasing_buys(curve, trades.take(n)),
        after_trades(curve, trades.take(n)) is Some,
    decreases trades.len(),
{
    if n == trades.len() {
        assert(trades.take(n) =~= trades);
        if trades.len() > 0 {
            let before = after_trades(curve, trades.drop_last())->Some_0;
            assert(is_releasing_buy(before, trades.last()));
        }
    } else {
        lemma_beginning_of_releasing_buys(curve, trades.drop_last(), n);
        assert(trades.drop_last().take(n) =~= trades.take(n));
    }
}

/// Buys that release tokens, one after another, draw the real token reserves
/// down strictly: after `later` of them the curve holds fewer real tokens
/// than after `earlier` of them. The curve is complete exactly when none are
/// left, and then quotes nothing more. (A buy that releases no token is left
/// out: it is accepted and changes no token reserve.)
pub proof fn lemma_buys_draw_down(curve: BondingCurve, trades: Seq<Trade>, earlier: int, later: int)
    requires
        releasing_buys(curve, trades),
        0 <= earlier < later <= trades.len(),
    ensures
        ({
            let at_earlier = after_trades(curve, trades.take(earlier));
            let at_later = after_trades(curve, trades.take(later));
            &&& at_earlier is Some
            &&& at_later is Some
            &&& at_later->Some_0.real_token_reserves < at_earlier->Some_0.real_token_reserves
            &&& at_later->Some_0.complete <==> at_later->Some_0.real_token_reserves == 0
            &&& at_later->Some_0.complete ==> forall|amount: u64|
                #![trigger at_later->Some_0.spec_quote_buy(amount)]
                #![trigger at_later->Some_0.spec_quote_sell(amount)]
                at_later->Some_0.spec_quote_buy(amount) == Err::<BuyQuote, ContractError>(
                    ContractError::BondingCurveComplete,
                ) && at_later->Some_0.spec_quote_sell(amount) == Err::<u64, ContractError>(
                    ContractError::BondingCurveComplete,
                )
        }),
    decreases later - earlier,
{
    let upto = trades.take(later);
    lemma_beginning_of_releasing_buys(curve, trades, later);
    lemma_beginning_of_releasing_buys(curve, trades, later - 1);
    lemma_beginning_of_releasing_buys(curve, trades, earlier);
    assert(upto.drop_last() =~= trades.take(later - 1));
    let before = after_trades(curve, upto.drop_last())->Some_0;
    assert(is_releasing_buy(before, upto.last()));
    let sol_amount = upto.last()->Buy_sol_amount;
    lemma_buy_draws_down(before, sol_amount);
    if earlier < later - 1 {
        lemma_buys_draw_down(curve, trades, earlier, later - 1);
    }
}

} // verus!
