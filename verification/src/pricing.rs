//! The constant-product formulas of the curve, stated over mathematical
//! integers, and the arithmetic facts the executable code rests on.
//!
//! Lamports carry nine decimals, token units six. Every formula works in
//! the nine-decimal basis: token quantities are scaled up on the way in and
//! scaled back down on the way out, and every division rounds down.

use vstd::arithmetic::div_mod::{
    lemma_div_is_ordered, lemma_div_multiples_vanish, lemma_div_pos_is_pos,
    lemma_fundamental_div_mod, lemma_mod_bound,
};
use vstd::prelude::*;

verus! {

/// Units per whole coin in the common basis of the formulas (nine decimals).
pub const SOL_BASIS: u128 = 1_000_000_000;

/// Units per whole token as the mint counts them (six decimals).
pub const TOKEN_BASIS: u128 = 1_000_000;

/// Virtual lamport reserves at which a curve is designed to complete: the
/// price anchor of the buy that takes the last tokens.
pub const FINAL_VIRTUAL_SOL_RESERVES: u64 = 115_005_359_056;

/// A token quantity in the nine-decimal basis.
pub open spec fn scale_up(tokens: int) -> int {
    tokens * (SOL_BASIS as int) / (TOKEN_BASIS as int)
}

/// A nine-decimal quantity in token units, rounded down.
pub open spec fn scale_down(scaled: int) -> int {
    scaled * (TOKEN_BASIS as int) / (SOL_BASIS as int)
}

/// The product that pricing holds constant: virtual lamports times virtual
/// tokens, the tokens in the nine-decimal basis.
pub open spec fn constant_product(virtual_sol: int, virtual_token: int) -> int {
    virtual_sol * scale_up(virtual_token)
}

/// Scaled token reserves that keep the product once `sol_in` lamports have
/// been added to the lamport side, rounded down.
pub open spec fn tokens_after_buy(virtual_sol: int, virtual_token: int, sol_in: int) -> int {
    constant_product(virtual_sol, virtual_token) / (virtual_sol + sol_in)
}

/// Tokens released for a deposit of `sol_in` lamports, in token units.
pub open spec fn tokens_out_for_sol(virtual_sol: int, virtual_token: int, sol_in: int) -> int {
    scale_down(scale_up(virtual_token) - tokens_after_buy(virtual_sol, virtual_token, sol_in))
}

/// Lamport reserves that keep the product once `tokens_in` tokens have been
/// added to the token side, rounded down.
pub open spec fn sol_after_sell(virtual_sol: int, virtual_token: int, tokens_in: int) -> int {
    constant_product(virtual_sol, virtual_token) / (scale_up(virtual_token) + scale_up(tokens_in))
}

/// Lamports released for a deposit of `tokens_in` tokens.
pub open spec fn sol_out_for_tokens(virtual_sol: int, virtual_token: int, tokens_in: int) -> int {
    virtual_sol - sol_after_sell(virtual_sol, virtual_token, tokens_in)
}

/// Lamports charged by the buy that takes all `real_token` remaining tokens:
/// what a sale of those tokens would release from a curve that stands at
/// `anchor_sol` virtual lamports with the tokens already taken out.
pub open spec fn sol_for_last_buy(anchor_sol: int, virtual_token: int, real_token: int) -> int {
    sol_out_for_tokens(anchor_sol, virtual_token - real_token, real_token)
}

/// Scaling up multiplies by a thousand, exactly.
pub proof fn lemma_scale_up_exact(tokens: int)
    ensures
        scale_up(tokens) == 1000 * tokens,
{
}

/// Scaling down divides by a thousand, rounding down.
pub proof fn lemma_scale_down_floor(scaled: int)
    ensures
        scale_down(scaled) == scaled / 1000,
        1000 * scale_down(scaled) <= scaled < 1000 * scale_down(scaled) + 1000,
{
}

/// A floor quotient, multiplied back, misses the dividend by less than the
/// divisor and never exceeds it.
pub proof fn lemma_floor_product(dividend: int, divisor: int)
    requires
        0 < divisor,
    ensures
        divisor * (dividend / divisor) <= dividend < divisor * (dividend / divisor) + divisor,
{
    lemma_fundamental_div_mod(dividend, divisor);
    lemma_mod_bound(dividend, divisor);
}

/// The share `part / whole` of a non-negative amount, rounded down, lies
/// between zero and the amount.
pub proof fn lemma_share_bounded(part: int, amount: int, whole: int)
    requires
        0 <= part <= whole,
        0 < whole,
        0 <= amount,
    ensures
        0 <= part * amount / whole <= amount,
{
    assert(0 <= part * amount <= whole * amount) by (nonlinear_arith)
        requires
            0 <= part <= whole,
            0 <= amount,
    ;
    lemma_div_pos_is_pos(part * amount, whole);
    lemma_div_is_ordered(part * amount, whole * amount, whole);
    lemma_div_multiples_vanish(amount, whole);
}

/// A buy releases between zero tokens and the whole virtual token reserve.
pub proof fn lemma_tokens_out_bounded(virtual_sol: int, virtual_token: int, sol_in: int)
    requires
        0 <= virtual_sol,
        0 <= virtual_token,
        0 < sol_in,
    ensures
        0 <= tokens_after_buy(virtual_sol, virtual_token, sol_in) <= scale_up(virtual_token),
        0 <= tokens_out_for_sol(virtual_sol, virtual_token, sol_in) <= virtual_token,
{
    lemma_scale_up_exact(virtual_token);
    lemma_share_bounded(virtual_sol, scale_up(virtual_token), virtual_sol + sol_in);
    lemma_scale_down_floor(
        scale_up(virtual_token) - tokens_after_buy(virtual_sol, virtual_token, sol_in),
    );
}

/// A sale releases between zero lamports and the whole virtual lamport
/// reserve.
pub proof fn lemma_sol_out_bounded(virtual_sol: int, virtual_token: int, tokens_in: int)
    requires
        0 <= virtual_sol,
        0 <= virtual_token,
        0 < tokens_in,
    ensures
        0 <= sol_after_sell(virtual_sol, virtual_token, tokens_in) <= virtual_sol,
        0 <= sol_out_for_tokens(virtual_sol, virtual_token, tokens_in) <= virtual_sol,
{
    lemma_scale_up_exact(virtual_token);
    lemma_scale_up_exact(tokens_in);
    let tokens = scale_up(virtual_token);
    let whole = tokens + scale_up(tokens_in);
    lemma_share_bounded(tokens, virtual_sol, whole);
    assert(tokens * virtual_sol == virtual_sol * tokens) by (nonlinear_arith);
}

/// A buy keeps the constant product up to rounding: the reserves that the
/// formula arrives at multiply to no more than the product before, and fall
/// short of it by less than one unit of the new lamport reserves.
pub proof fn lemma_buy_keeps_product(virtual_sol: int, virtual_token: int, sol_in: int)
    requires
        0 <= virtual_sol,
        0 <= virtual_token,
        0 < sol_in,
    ensures
        ({
            let product = constant_product(virtual_sol, virtual_token);
            let new_sol = virtual_sol + sol_in;
            let new_tokens = tokens_after_buy(virtual_sol, virtual_token, sol_in);
            new_sol * new_tokens <= product < new_sol * new_tokens + new_sol
        }),
{
    lemma_floor_product(constant_product(virtual_sol, virtual_token), virtual_sol + sol_in);
}

/// A sale keeps the constant product up to rounding: the reserves that the
/// formula arrives at multiply to no more than the product before, and fall
/// short of it by less than one unit of the new scaled token reserves.
pub proof fn lemma_sell_keeps_product(virtual_sol: int, virtual_token: int, tokens_in: int)
    requires
        0 <= virtual_sol,
        0 <= virtual_token,
        0 < tokens_in,
    ensures
        ({
            let product = constant_product(virtual_sol, virtual_token);
            let new_tokens = scale_up(virtual_token) + scale_up(tokens_in);
            let new_sol = sol_after_sell(virtual_sol, virtual_token, tokens_in);
            &&& new_tokens == scale_up(virtual_token + tokens_in)
            &&& new_sol * new_tokens <= product < new_sol * new_tokens + new_tokens
        }),
{
    lemma_scale_up_exact(virtual_token);
    lemma_scale_up_exact(tokens_in);
    lemma_scale_up_exact(virtual_token + tokens_in);
    let new_tokens = scale_up(virtual_token) + scale_up(tokens_in);
    let new_sol = sol_after_sell(virtual_sol, virtual_token, tokens_in);
    lemma_floor_product(constant_product(virtual_sol, virtual_token), new_tokens);
    assert(new_sol * new_tokens == new_tokens * new_sol) by (nonlinear_arith);
}

} // verus!
