use bonding_curve::address::Address;
use bonding_curve::errors::ContractError;
use bonding_curve::instructions::buy::{Buy, BuySettlement, BUY_FEE_LAMPORTS};
use bonding_curve::instructions::create_bonding_curve::CreateBondingCurve;
use bonding_curve::instructions::initialize::{initialize, Initialize};
use bonding_curve::instructions::sell::{Sell, SellSettlement, SELL_FEE_LAMPORTS};
use bonding_curve::states::bonding_curve::BondingCurve;
use bonding_curve::states::global::{Global, GlobalSettingsInput};

const RENT: u64 = 890_880;

fn key(byte: u8) -> Address {
    Address { bytes: [byte; 32] }
}

fn config() -> Global {
    Global {
        initialized: true,
        global_authority: key(7),
        migration_authority: key(7),
        migrate_fee_amount: 0,
        migration_token_allocation: 0,
        fee_receiver: key(9),
        initial_virtual_token_reserves: 1_073_000_000_000_000,
        initial_virtual_sol_reserves: 30_000_000_000,
        initial_real_token_reserves: 793_100_000_000_000,
        token_total_supply: 1_000_000_000_000_000,
        mint_decimals: 6,
        lp_config: key(0),
    }
}

fn blank_curve() -> BondingCurve {
    BondingCurve {
        mint: key(0),
        creator: key(0),
        initial_real_token_reserves: 0,
        virtual_sol_reserves: 0,
        virtual_token_reserves: 0,
        real_sol_reserves: 0,
        real_token_reserves: 0,
        token_total_supply: 0,
        complete: false,
        bump: 0,
    }
}

fn new_curve() -> BondingCurve {
    let mut curve = blank_curve();
    curve.update_from_params(key(1), key(2), &config(), 254);
    curve
}

fn traded_curve() -> BondingCurve {
    let mut curve = new_curve();
    curve.buy(1_000_000_000).unwrap();
    curve
}

fn buy_accounts() -> Buy {
    Buy {
        user_lamports: 5_000_000_000,
        fee_receiver: key(9),
        min_rent: RENT,
        global: config(),
        bonding_curve: new_curve(),
    }
}

fn sell_accounts() -> Sell {
    Sell {
        user_lamports: 2_000_000_000_000,
        user_token_amount: 1_000_000_000_000,
        fee_receiver: key(9),
        min_rent: RENT,
        global: config(),
        bonding_curve: traded_curve(),
    }
}

fn create_accounts() -> CreateBondingCurve {
    CreateBondingCurve {
        mint: key(1),
        mint_decimals: 6,
        mint_authority: Some(key(3)),
        creator: key(2),
        bonding_curve_address: key(3),
        bonding_curve: blank_curve(),
        global: config(),
        bump: 254,
    }
}

fn settings() -> GlobalSettingsInput {
    GlobalSettingsInput {
        initial_virtual_token_reserves: 11,
        initial_virtual_sol_reserves: 12,
        initial_real_token_reserves: 13,
        token_total_supply: 14,
        mint_decimals: 5,
        migrate_fee_amount: 16,
        migration_token_allocation: 17,
        fee_receiver: key(18),
        lp_config: key(19),
    }
}

#[test]
fn the_fees_are_one_sol_for_a_buy_and_a_thousandth_for_a_sale() {
    assert_eq!(BUY_FEE_LAMPORTS, 1_000_000_000);
    assert_eq!(SELL_FEE_LAMPORTS, 1_000_000);
}

#[test]
fn initializing_writes_every_field() {
    let mut ctx = Initialize {
        authority: key(42),
        global: Global { initialized: false, global_authority: key(0), migration_authority: key(0), ..config() },
    };
    assert_eq!(initialize(&mut ctx, settings()), Ok(()));
    assert_eq!(
        ctx.global,
        Global {
            initialized: true,
            global_authority: key(42),
            migration_authority: key(42),
            migrate_fee_amount: 16,
            migration_token_allocation: 17,
            fee_receiver: key(18),
            initial_virtual_token_reserves: 11,
            initial_virtual_sol_reserves: 12,
            initial_real_token_reserves: 13,
            token_total_supply: 14,
            mint_decimals: 5,
            lp_config: key(19),
        }
    );
    assert_eq!(ctx.authority, key(42));
}

#[test]
fn creating_a_curve_seeds_it_from_the_configuration() {
    let mut ctx = create_accounts();
    assert_eq!(ctx.handler(), Ok(1_000_000_000_000_000));
    assert_eq!(
        ctx.bonding_curve,
        BondingCurve {
            mint: key(1),
            creator: key(2),
            initial_real_token_reserves: 793_100_000_000_000,
            virtual_sol_reserves: 30_000_000_000,
            virtual_token_reserves: 1_073_000_000_000_000,
            real_sol_reserves: 0,
            real_token_reserves: 793_100_000_000_000,
            token_total_supply: 1_000_000_000_000_000,
            complete: false,
            bump: 254,
        }
    );
    assert_eq!(ctx, CreateBondingCurve { bonding_curve: new_curve(), ..create_accounts() });
}

#[test]
fn creating_over_an_old_state_starts_afresh() {
    let mut ctx = CreateBondingCurve {
        bonding_curve: BondingCurve { complete: true, real_sol_reserves: 5, ..traded_curve() },
        ..create_accounts()
    };
    assert_eq!(ctx.handler(), Ok(1_000_000_000_000_000));
    assert_eq!(ctx.bonding_curve, new_curve());
}

#[test]
fn a_mint_with_other_decimals_is_refused() {
    let mut ctx = CreateBondingCurve { mint_decimals: 9, ..create_accounts() };
    let before = ctx;
    assert_eq!(ctx.handler(), Err(ContractError::InvalidMintDecimals));
    assert_eq!(ctx, before);
}

#[test]
fn a_mint_under_another_authority_is_refused() {
    let mut ctx = CreateBondingCurve { mint_authority: Some(key(4)), ..create_accounts() };
    let before = ctx;
    assert_eq!(ctx.handler(), Err(ContractError::WrongAuthority));
    assert_eq!(ctx, before);

    let mut last_byte = [3u8; 32];
    last_byte[31] = 4;
    let mut ctx =
        CreateBondingCurve { mint_authority: Some(Address { bytes: last_byte }), ..create_accounts() };
    assert_eq!(ctx.handler(), Err(ContractError::WrongAuthority));
}

#[test]
fn a_mint_without_an_authority_is_refused() {
    let mut ctx = CreateBondingCurve { mint_authority: None, ..create_accounts() };
    let before = ctx;
    assert_eq!(ctx.handler(), Err(ContractError::WrongAuthority));
    assert_eq!(ctx, before);
}

#[test]
fn a_curve_needs_an_initialized_configuration() {
    let mut ctx =
        CreateBondingCurve { global: Global { initialized: false, ..config() }, ..create_accounts() };
    let before = ctx;
    assert_eq!(ctx.handler(), Err(ContractError::NotInitialized));
    assert_eq!(ctx, before);
}

#[test]
fn creation_checks_the_mint_before_the_configuration() {
    let uninitialized = Global { initialized: false, ..config() };
    let mut ctx = CreateBondingCurve {
        mint_decimals: 9,
        mint_authority: None,
        global: uninitialized,
        ..create_accounts()
    };
    assert_eq!(ctx.handler(), Err(ContractError::InvalidMintDecimals));
    let mut ctx =
        CreateBondingCurve { mint_authority: None, global: uninitialized, ..create_accounts() };
    assert_eq!(ctx.handler(), Err(ContractError::WrongAuthority));
}

#[test]
fn a_buy_is_quoted_and_booked() {
    let mut ctx = buy_accounts();
    assert_eq!(
        ctx.handler(1_000_000_000),
        Ok(BuySettlement {
            token_amount: 34_612_903_225_806,
            sol_amount: 1_000_000_000,
            fee_lamports: 1_000_000_000,
            last_buy: false
        })
    );
    assert_eq!(ctx.bonding_curve, traded_curve());
    assert_eq!(ctx.bonding_curve.virtual_sol_reserves, 31_000_000_000);
    assert_eq!(ctx.bonding_curve.virtual_token_reserves, 1_038_387_096_774_194);
    assert_eq!(ctx.bonding_curve.real_sol_reserves, 1_000_000_000);
    assert_eq!(ctx.bonding_curve.real_token_reserves, 758_487_096_774_194);
    assert_eq!(ctx, Buy { bonding_curve: traded_curve(), ..buy_accounts() });
}

#[test]
fn the_last_buy_completes_the_curve_through_the_handler() {
    let mut ctx = Buy { user_lamports: 200_000_000_000, ..buy_accounts() };
    assert_eq!(
        ctx.handler(100_000_000_000),
        Ok(BuySettlement {
            token_amount: 793_100_000_000_000,
            sol_amount: 85_005_359_057,
            fee_lamports: 1_000_000_000,
            last_buy: true
        })
    );
    assert!(ctx.bonding_curve.complete);
    assert_eq!(ctx.bonding_curve.real_token_reserves, 0);
    assert_eq!(ctx.handler(1_000_000_000), Err(ContractError::BondingCurveComplete));
}

#[test]
fn a_buy_needs_an_initialized_configuration() {
    let mut ctx = Buy {
        global: Global { initialized: false, ..config() },
        bonding_curve: BondingCurve { complete: true, ..new_curve() },
        fee_receiver: key(1),
        ..buy_accounts()
    };
    let before = ctx;
    assert_eq!(ctx.handler(0), Err(ContractError::NotInitialized));
    assert_eq!(ctx, before);
}

#[test]
fn a_buy_from_a_completed_curve_is_refused() {
    let mut ctx = Buy {
        bonding_curve: BondingCurve { complete: true, ..new_curve() },
        fee_receiver: key(1),
        ..buy_accounts()
    };
    let before = ctx;
    assert_eq!(ctx.handler(0), Err(ContractError::BondingCurveComplete));
    assert_eq!(ctx, before);
}

#[test]
fn a_buy_of_nothing_is_refused() {
    let mut ctx = Buy { fee_receiver: key(1), user_lamports: 0, ..buy_accounts() };
    let before = ctx;
    assert_eq!(ctx.validate(0), Err(ContractError::MinBuy));
    assert_eq!(ctx.handler(0), Err(ContractError::MinBuy));
    assert_eq!(ctx, before);
}

#[test]
fn a_buy_with_a_foreign_fee_receiver_is_refused() {
    let mut ctx = Buy { fee_receiver: key(1), user_lamports: 0, ..buy_accounts() };
    let before = ctx;
    assert_eq!(ctx.validate(1_000_000_000), Err(ContractError::InvalidFeeReceiver));
    assert_eq!(ctx.handler(1_000_000_000), Err(ContractError::InvalidFeeReceiver));
    assert_eq!(ctx, before);
}

#[test]
fn a_buyer_must_hold_the_amount_and_the_rent() {
    let short = Buy { user_lamports: 1_000_000_000 + RENT - 1, ..buy_accounts() };
    assert_eq!(short.validate(1_000_000_000), Err(ContractError::InsufficientUserSOL));
    let mut ctx = short;
    assert_eq!(ctx.handler(1_000_000_000), Err(ContractError::InsufficientUserSOL));
    assert_eq!(ctx, short);

    let exact = Buy { user_lamports: 1_000_000_000 + RENT, ..buy_accounts() };
    assert_eq!(exact.validate(1_000_000_000), Ok(()));
}

#[test]
fn nobody_holds_more_than_the_lamports_there_are() {
    let rich = Buy { user_lamports: u64::MAX, min_rent: 1, ..buy_accounts() };
    assert_eq!(rich.validate(u64::MAX), Err(ContractError::InsufficientUserSOL));
    assert_eq!(rich.validate(u64::MAX - 1), Ok(()));
}

#[test]
fn a_buy_that_cannot_be_priced_is_a_calculation_error() {
    let mut ctx = Buy {
        bonding_curve: BondingCurve {
            virtual_sol_reserves: u64::MAX,
            virtual_token_reserves: u64::MAX,
            ..new_curve()
        },
        ..buy_accounts()
    };
    let before = ctx;
    assert_eq!(ctx.handler(1_000_000_000), Err(ContractError::CalculationError));
    assert_eq!(ctx, before);
}

#[test]
fn a_sale_is_quoted_and_booked_and_pays_less_the_fee() {
    let mut ctx = sell_accounts();
    assert_eq!(
        ctx.handler(1_000_000_000_000),
        Ok(SellSettlement {
            token_amount: 1_000_000_000_000,
            sol_amount: 29_825_270,
            sell_amount_minus_fee: 28_825_270,
            fee_lamports: 1_000_000
        })
    );
    assert_eq!(ctx.bonding_curve.virtual_sol_reserves, 30_970_174_730);
    assert_eq!(ctx.bonding_curve.virtual_token_reserves, 1_039_387_096_774_194);
    assert_eq!(ctx.bonding_curve.real_sol_reserves, 970_174_730);
    assert_eq!(ctx.bonding_curve.real_token_reserves, 759_487_096_774_194);
    assert!(!ctx.bonding_curve.complete);
    let mut curve = traded_curve();
    curve.sell(1_000_000_000_000).unwrap();
    assert_eq!(ctx, Sell { bonding_curve: curve, ..sell_accounts() });
}

#[test]
fn a_sale_worth_the_fee_pays_nothing() {
    let mut ctx = sell_accounts();
    assert_eq!(ctx.bonding_curve.quote_sell(33_497_405_025), Ok(1_000_000));
    assert_eq!(ctx.bonding_curve.quote_sell(33_497_405_024), Ok(999_999));
    assert_eq!(
        ctx.handler(33_497_405_025),
        Ok(SellSettlement {
            token_amount: 33_497_405_025,
            sol_amount: 1_000_000,
            sell_amount_minus_fee: 0,
            fee_lamports: 1_000_000
        })
    );
}

#[test]
fn a_sale_worth_less_than_the_fee_is_refused() {
    let mut ctx = sell_accounts();
    let before = ctx;
    assert_eq!(ctx.bonding_curve.quote_sell(30_000_000_000), Ok(895_594));
    assert_eq!(ctx.handler(30_000_000_000), Err(ContractError::CalculationError));
    assert_eq!(ctx, before);
}

#[test]
fn a_sale_that_the_curve_cannot_pay_is_refused() {
    let mut ctx = Sell { bonding_curve: new_curve(), ..sell_accounts() };
    let before = ctx;
    assert_eq!(ctx.handler(1_000_000_000_000), Err(ContractError::CalculationError));
    assert_eq!(ctx, before);
}

#[test]
fn a_sale_needs_an_initialized_configuration() {
    let mut ctx = Sell {
        global: Global { initialized: false, ..config() },
        bonding_curve: BondingCurve { complete: true, ..traded_curve() },
        ..sell_accounts()
    };
    let before = ctx;
    assert_eq!(ctx.handler(0), Err(ContractError::NotInitialized));
    assert_eq!(ctx, before);
}

#[test]
fn a_sale_to_a_completed_curve_is_refused() {
    let mut ctx =
        Sell { bonding_curve: BondingCurve { complete: true, ..traded_curve() }, ..sell_accounts() };
    let before = ctx;
    assert_eq!(ctx.handler(0), Err(ContractError::BondingCurveComplete));
    assert_eq!(ctx.handler(1_000_000_000_000), Err(ContractError::BondingCurveComplete));
    assert_eq!(ctx, before);
}

#[test]
fn a_sale_of_nothing_is_refused() {
    let mut ctx = Sell { fee_receiver: key(1), user_token_amount: 0, ..sell_accounts() };
    let before = ctx;
    assert_eq!(ctx.validate(0), Err(ContractError::MinSell));
    assert_eq!(ctx.handler(0), Err(ContractError::MinSell));
    assert_eq!(ctx, before);
}

#[test]
fn a_sale_with_a_foreign_fee_receiver_is_refused() {
    let mut ctx = Sell { fee_receiver: key(1), user_token_amount: 0, ..sell_accounts() };
    let before = ctx;
    assert_eq!(ctx.validate(5), Err(ContractError::InvalidFeeReceiver));
    assert_eq!(ctx.handler(5), Err(ContractError::InvalidFeeReceiver));
    assert_eq!(ctx, before);
}

#[test]
fn a_seller_must_hold_the_tokens() {
    let mut ctx = Sell { user_token_amount: 999_999_999_999, user_lamports: 0, ..sell_accounts() };
    let before = ctx;
    assert_eq!(ctx.validate(1_000_000_000_000), Err(ContractError::InsufficientUserTokens));
    assert_eq!(ctx.handler(1_000_000_000_000), Err(ContractError::InsufficientUserTokens));
    assert_eq!(ctx, before);
}

#[test]
fn a_seller_must_hold_lamports_for_the_amount_and_the_rent() {
    let mut ctx = Sell { user_lamports: 1_000_000_000_000 + RENT - 1, ..sell_accounts() };
    let before = ctx;
    assert_eq!(ctx.validate(1_000_000_000_000), Err(ContractError::InsufficientUserSOL));
    assert_eq!(ctx.handler(1_000_000_000_000), Err(ContractError::InsufficientUserSOL));
    assert_eq!(ctx, before);

    let exact = Sell { user_lamports: 1_000_000_000_000 + RENT, ..sell_accounts() };
    assert_eq!(exact.validate(1_000_000_000_000), Ok(()));

    let rich = Sell { user_lamports: u64::MAX, user_token_amount: u64::MAX, ..sell_accounts() };
    assert_eq!(rich.validate(u64::MAX), Err(ContractError::InsufficientUserSOL));
}
