use amm::curve::{quote, ConstantProduct, CurveError, LiquidityPair, SwapResult};
use amm::errors::{AmmError, TransferError};
use amm::state::{initialize, Config};
use amm::swap::{swap, Swap};

fn pool(fee: u16, vault_x: u64, vault_y: u64, user_x: u64, user_y: u64) -> Swap {
    let config: Config = initialize(7, fee, None, [1u8; 32], [2u8; 32], 254, 253).unwrap();
    Swap { config, vault_x, vault_y, user_x, user_y, lp_supply: 1000 }
}

fn balances(s: &Swap) -> (u64, u64, u64, u64) {
    (s.vault_x, s.vault_y, s.user_x, s.user_y)
}

#[test]
fn example_fee_thirty_pays_ninety_one() {
    let mut s = pool(30, 1000, 1000, 500, 0);
    assert_eq!(s.swap(true, 100, 90), Ok(SwapResult { deposit: 100, withdraw: 91, fee: 1 }));
    assert_eq!(balances(&s), (1100, 909, 400, 91));
}

#[test]
fn example_fee_thirty_floor_above_output() {
    let mut s = pool(30, 1000, 1000, 500, 0);
    assert_eq!(
        s.swap(true, 100, 92),
        Err(AmmError::Curve(CurveError::SlippageExceeded))
    );
    assert_eq!(balances(&s), (1000, 1000, 500, 0));
}

#[test]
fn quote_of_example_keeps_truncation_as_fee() {
    let q = quote(1000, 1000, 30, 100, 0).unwrap();
    assert_eq!(q, SwapResult { deposit: 100, withdraw: 91, fee: 1 });
}

#[test]
fn zero_amount_is_invalid() {
    for (vx, vy) in [(0u64, 0u64), (1000, 1000), (0, 1000), (u64::MAX, 1)] {
        let mut s = pool(30, vx, vy, 10, 10);
        assert_eq!(s.swap(true, 0, 0), Err(AmmError::InvalidAmount));
        assert_eq!(s.swap(false, 0, 0), Err(AmmError::InvalidAmount));
        assert_eq!(balances(&s), (vx, vy, 10, 10));
    }
}

#[test]
fn locked_pool_refuses_every_swap() {
    let mut s = pool(30, 1000, 1000, 500, 500);
    s.config.locked = true;
    assert_eq!(s.swap(true, 100, 0), Err(AmmError::PoolLocked));
    assert_eq!(s.swap(false, 0, 0), Err(AmmError::PoolLocked));
    assert_eq!(s.swap(true, u64::MAX, u64::MAX), Err(AmmError::PoolLocked));
    assert_eq!(balances(&s), (1000, 1000, 500, 500));
}

#[test]
fn drained_side_is_empty_pool() {
    let mut s = pool(30, 0, 1000, 500, 500);
    assert_eq!(s.swap(true, 100, 0), Err(AmmError::Curve(CurveError::EmptyPool)));
    assert_eq!(s.swap(false, 100, 0), Err(AmmError::Curve(CurveError::EmptyPool)));
    assert_eq!(balances(&s), (0, 1000, 500, 500));
}

#[test]
fn unit_trade_at_scale_without_fee() {
    let config = initialize(1, 0, None, [3u8; 32], [4u8; 32], 1, 2).unwrap();
    let mut s = Swap {
        config,
        vault_x: 1_000_000_000,
        vault_y: 1_000_000_000,
        user_x: 1,
        user_y: 0,
        lp_supply: 1_000_000_000,
    };
    assert_eq!(s.swap(true, 1, 0), Ok(SwapResult { deposit: 1, withdraw: 1, fee: 0 }));
    assert_eq!(s.user_y, 1);
    assert_eq!(balances(&s), (1_000_000_001, 999_999_999, 0, 1));
}

#[test]
fn product_grows_with_fee_on_exact_division() {
    let mut s = pool(2000, 100, 100, 32, 0);
    assert_eq!(s.swap(true, 32, 0), Ok(SwapResult { deposit: 32, withdraw: 20, fee: 7 }));
    assert_eq!(balances(&s), (132, 80, 0, 20));
    assert!(132u128 * 80 > 100u128 * 100);
}

#[test]
fn product_kept_without_fee_on_exact_division() {
    let mut s = pool(0, 100, 100, 25, 0);
    assert_eq!(s.swap(true, 25, 0), Ok(SwapResult { deposit: 25, withdraw: 20, fee: 0 }));
    assert_eq!(balances(&s), (125, 80, 0, 20));
    assert_eq!(125u128 * 80, 100u128 * 100);
}

#[test]
fn round_trip_pays_back_no_more() {
    let mut s = pool(30, 1000, 1000, 100, 0);
    assert_eq!(s.swap(true, 100, 0), Ok(SwapResult { deposit: 100, withdraw: 91, fee: 1 }));
    assert_eq!(s.user_y, 91);
    assert_eq!(s.swap(false, 91, 0), Ok(SwapResult { deposit: 91, withdraw: 100, fee: 1 }));
    assert_eq!(balances(&s), (1000, 1000, 100, 0));
    assert!(s.user_x <= 100);
}

#[test]
fn swap_in_y_direction() {
    let mut s = pool(30, 1000, 1000, 0, 100);
    assert_eq!(swap(&mut s, false, 100, 91), Ok(SwapResult { deposit: 100, withdraw: 91, fee: 1 }));
    assert_eq!(balances(&s), (909, 1100, 91, 0));
}

#[test]
fn fee_eats_tiny_input() {
    let mut s = pool(30, 1000, 1000, 5, 0);
    assert_eq!(s.swap(true, 1, 0), Err(AmmError::InvalidAmount));
    assert_eq!(balances(&s), (1000, 1000, 5, 0));
}

#[test]
fn input_reserve_overflow() {
    let mut s = pool(30, u64::MAX, 1000, 5, 0);
    assert_eq!(s.swap(true, 1, 0), Err(AmmError::Curve(CurveError::Overflow)));
}

#[test]
fn draining_the_output_side_is_refused() {
    let mut s = pool(0, 1, 1, 5, 0);
    assert_eq!(s.swap(true, 1, 0), Err(AmmError::Curve(CurveError::Overflow)));
    assert_eq!(balances(&s), (1, 1, 5, 0));
}

#[test]
fn trader_short_of_funds() {
    let mut s = pool(30, 1000, 1000, 50, 0);
    assert_eq!(
        s.swap(true, 100, 0),
        Err(AmmError::Transfer(TransferError::InsufficientFunds))
    );
    assert_eq!(balances(&s), (1000, 1000, 50, 0));
}

#[test]
fn failed_payout_rolls_back_deposit() {
    let mut s = pool(30, 1000, 1000, 500, u64::MAX);
    assert_eq!(
        s.swap(true, 100, 0),
        Err(AmmError::Transfer(TransferError::Overflow))
    );
    assert_eq!(balances(&s), (1000, 1000, 500, u64::MAX));
}

#[test]
fn deposit_and_withdraw_move_balances() {
    let mut s = pool(30, 10, 20, 5, 6);
    assert_eq!(s.deposite_token(true, 5), Ok(())); 
    assert_eq!(balances(&s), (15, 20, 0, 6));
    assert_eq!(s.withdraw_token(false, 20), Ok(())); 
    assert_eq!(balances(&s), (15, 0, 0, 26));
    assert_eq!(
        s.withdraw_token(false, 1),
        Err(AmmError::Transfer(TransferError::InsufficientFunds))
    );
    assert_eq!(
        s.deposite_token(false, 27),
        Err(AmmError::Transfer(TransferError::InsufficientFunds))
    );
    assert_eq!(balances(&s), (15, 0, 0, 26));
}

#[test]
fn initialize_refuses_fee_above_whole() {
    assert_eq!(
        initialize(1, 10001, None, [0u8; 32], [0u8; 32], 0, 0),
        Err(AmmError::InvalidFee)
    );
    let c = initialize(9, 10000, Some([5u8; 32]), [1u8; 32], [2u8; 32], 3, 4).unwrap();
    assert_eq!(c.fee, 10000);
    assert!(!c.locked);
    assert_eq!(c.seed, 9);
    assert_eq!(c.authority, Some([5u8; 32]));
}

#[test]
fn full_fee_leaves_nothing_to_pay_out() {
    let mut s = pool(10000, 1000, 1000, 500, 0);
    assert_eq!(s.swap(true, 100, 0), Err(AmmError::InvalidAmount));
}

#[test]
fn curve_quotes_either_side() {
    let c = ConstantProduct::init(1000, 2000, 10, 0);
    let x = c.swap(LiquidityPair::X, 100, 0).unwrap();
    assert_eq!(x.withdraw, 2000 - 2_000_000 / 1100);
    let y = c.swap(LiquidityPair::Y, 100, 0).unwrap();
    assert_eq!(y.withdraw, 1000 - 2_000_000 / 2100);
}
