use bonding_curve::address::Address;
use bonding_curve::states::bonding_curve::BondingCurve;

fn reserves(virtual_sol: u64, virtual_token: u64, real_sol: u64, real_token: u64) -> BondingCurve {
    BondingCurve {
        mint: Address { bytes: [1; 32] },
        creator: Address { bytes: [2; 32] },
        initial_real_token_reserves: 793_100_000_000_000,
        virtual_sol_reserves: virtual_sol,
        virtual_token_reserves: virtual_token,
        real_sol_reserves: real_sol,
        real_token_reserves: real_token,
        token_total_supply: 1_000_000_000_000_000,
        complete: false,
        bump: 254,
    }
}

#[test]
fn booking_a_buy_moves_all_four_reserves() {
    let mut c = reserves(30_000_000_000, 1_073_000_000_000_000, 5, 793_100_000_000_000);
    assert_eq!(c.update_reserves_after_buy(34_612_903_225_806, 1_000_000_000), Some(()));
    assert_eq!(c, reserves(31_000_000_000, 1_038_387_096_774_194, 1_000_000_005, 758_487_096_774_194));
}

#[test]
fn booking_a_sale_moves_all_four_reserves() {
    let mut c = reserves(31_000_000_000, 1_038_387_096_774_194, 1_000_000_000, 758_487_096_774_194);
    assert_eq!(c.update_reserves_after_sell(1_000_000_000_000, 29_825_270), Some(()));
    assert_eq!(c, reserves(30_970_174_730, 1_039_387_096_774_194, 970_174_730, 759_487_096_774_194));
}

#[test]
fn booking_nothing_changes_nothing() {
    let mut c = reserves(7, 8, 9, 10);
    assert_eq!(c.update_reserves_after_buy(0, 0), Some(()));
    assert_eq!(c, reserves(7, 8, 9, 10));
    assert_eq!(c.update_reserves_after_sell(0, 0), Some(()));
    assert_eq!(c, reserves(7, 8, 9, 10));
}

#[test]
fn a_buy_can_take_the_reserves_to_their_bounds() {
    let mut c = reserves(u64::MAX - 3, 10, u64::MAX - 3, 10);
    assert_eq!(c.update_reserves_after_buy(10, 3), Some(()));
    assert_eq!(c, reserves(u64::MAX, 0, u64::MAX, 0));
}

#[test]
fn a_buy_beyond_the_virtual_tokens_books_nothing() {
    let mut c = reserves(100, 10, 100, 20);
    assert_eq!(c.update_reserves_after_buy(11, 1), None);
    assert_eq!(c, reserves(100, 10, 100, 20));
}

#[test]
fn a_buy_beyond_the_real_tokens_books_nothing() {
    let mut c = reserves(100, 20, 100, 10);
    assert_eq!(c.update_reserves_after_buy(11, 1), None);
    assert_eq!(c, reserves(100, 20, 100, 10));
}

#[test]
fn a_buy_that_overflows_the_virtual_lamports_books_nothing() {
    let mut c = reserves(u64::MAX - 3, 20, 100, 10);
    assert_eq!(c.update_reserves_after_buy(5, 4), None);
    assert_eq!(c, reserves(u64::MAX - 3, 20, 100, 10));
}

#[test]
fn a_buy_that_overflows_the_real_lamports_books_nothing() {
    let mut c = reserves(100, 20, u64::MAX - 3, 10);
    assert_eq!(c.update_reserves_after_buy(5, 4), None);
    assert_eq!(c, reserves(100, 20, u64::MAX - 3, 10));
}

#[test]
fn a_sale_can_take_the_reserves_to_their_bounds() {
    let mut c = reserves(3, u64::MAX - 10, 3, u64::MAX - 10);
    assert_eq!(c.update_reserves_after_sell(10, 3), Some(()));
    assert_eq!(c, reserves(0, u64::MAX, 0, u64::MAX));
}

#[test]
fn a_sale_that_overflows_the_virtual_tokens_books_nothing() {
    let mut c = reserves(100, u64::MAX - 3, 100, 10);
    assert_eq!(c.update_reserves_after_sell(4, 1), None);
    assert_eq!(c, reserves(100, u64::MAX - 3, 100, 10));
}

#[test]
fn a_sale_that_overflows_the_real_tokens_books_nothing() {
    let mut c = reserves(100, 10, 100, u64::MAX - 3);
    assert_eq!(c.update_reserves_after_sell(4, 1), None);
    assert_eq!(c, reserves(100, 10, 100, u64::MAX - 3));
}

#[test]
fn a_sale_beyond_the_virtual_lamports_books_nothing() {
    let mut c = reserves(10, 20, 100, 20);
    assert_eq!(c.update_reserves_after_sell(1, 11), None);
    assert_eq!(c, reserves(10, 20, 100, 20));
}

#[test]
fn a_sale_beyond_the_real_lamports_books_nothing() {
    let mut c = reserves(100, 20, 10, 20);
    assert_eq!(c.update_reserves_after_sell(1, 11), None);
    assert_eq!(c, reserves(100, 20, 10, 20));
}

#[test]
fn booking_never_touches_the_flag() {
    let mut open = reserves(100, 20, 10, 5);
    assert_eq!(open.update_reserves_after_buy(5, 1), Some(()));
    assert_eq!(open.real_token_reserves, 0);
    assert!(!open.complete);

    let mut done = BondingCurve { complete: true, ..reserves(100, 20, 10, 0) };
    assert_eq!(done.update_reserves_after_sell(1, 1), Some(()));
    assert!(done.complete);
    assert_eq!(done.update_reserves_after_buy(1, 1), Some(()));
    assert!(done.complete);
}
