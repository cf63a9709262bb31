use dutch_auction::pricing::linear_decrease;
use dutch_auction::pricing::saturating_mul_u128;
use dutch_auction::AccountId;
use dutch_auction::DutchAuction;

const OWNER: AccountId = AccountId(1);
const ASSET: AccountId = AccountId(10);
const PAYMENT: AccountId = AccountId(11);

fn schedule() -> DutchAuction {
    // start_price 1000, min_price 100, start block 0, end block 100
    DutchAuction::new(ASSET, PAYMENT, 1000, 100, 100, OWNER, 0)
}

#[test]
fn price_at_start_is_start_price() {
    let a = schedule();
    assert_eq!(a.price(0), 1000);
}

#[test]
fn price_at_midpoint() {
    let a = schedule();
    assert_eq!(a.price(50), 550);
}

#[test]
fn price_at_and_after_end_is_min_price() {
    let a = schedule();
    assert_eq!(a.price(100), 100);
    assert_eq!(a.price(250), 100);
    assert_eq!(a.price(u32::MAX), 100);
}

#[test]
fn price_is_monotone_and_bounded() {
    let a = schedule();
    let mut last: u128 = a.price(0);
    let mut now: u32 = 0;
    while now <= 120 {
        let p = a.price(now);
        assert!(p <= last);
        assert!(100 <= p && p <= 1000);
        last = p;
        now += 1;
    }
}

#[test]
fn steep_schedule_drops_by_units_per_block() {
    // price span 900 over 100 blocks: 9 units per block, truncating
    assert_eq!(linear_decrease(0, 1000, 100, 100, 1), 991);
    assert_eq!(linear_decrease(0, 1000, 100, 100, 99), 109);
}

#[test]
fn shallow_schedule_drops_by_blocks_per_unit() {
    // price span 50 over 100 blocks: one unit every 2 blocks, truncating
    assert_eq!(linear_decrease(0, 100, 100, 50, 30), 85);
    assert_eq!(linear_decrease(0, 100, 100, 50, 31), 85);
}

#[test]
fn shallow_line_may_dip_below_floor_but_price_does_not() {
    // blocks per unit truncates 5/3 down to 1, so the raw line reaches
    // 10 - 4 = 6 one block before the end, under the end value 7
    assert_eq!(linear_decrease(0, 10, 5, 7, 4), 6);
    let a = DutchAuction::new(ASSET, PAYMENT, 10, 7, 5, OWNER, 0);
    assert_eq!(a.price(4), 7);
}

#[test]
fn zero_length_schedule_prices_at_endpoints() {
    // start and end at block 10: the start price before, the floor from then on
    let a = DutchAuction::new(ASSET, PAYMENT, 1000, 100, 10, OWNER, 10);
    assert_eq!(a.price(5), 1000);
    assert_eq!(a.price(10), 100);
    assert_eq!(a.price(15), 100);
}

#[test]
fn equal_prices_schedule_is_constant() {
    let a = DutchAuction::new(ASSET, PAYMENT, 500, 500, 100, OWNER, 0);
    assert_eq!(a.price(0), 500);
    assert_eq!(a.price(50), 500);
    assert_eq!(a.price(100), 500);
}

#[test]
fn inverted_prices_schedule_stays_at_min() {
    // a minimum above the starting price never decreases and the floor wins
    let a = DutchAuction::new(ASSET, PAYMENT, 100, 1200, 100, OWNER, 0);
    assert_eq!(a.price(0), 1200);
    assert_eq!(a.price(50), 1200);
    assert_eq!(a.price(100), 1200);
}

#[test]
fn price_recomputes_after_min_price_lowered() {
    let mut a = schedule();
    assert_eq!(a.set_min_price(OWNER, 0), Ok(()));
    // span 1000 over 100 blocks: 10 units per block
    assert_eq!(a.price(50), 500);
    assert_eq!(a.price(100), 0);
}

#[test]
fn price_stays_at_min_raised_mid_schedule() {
    let mut a = schedule();
    assert_eq!(a.set_min_price(OWNER, 2000), Ok(()));
    // the raised floor lies above the whole line
    assert_eq!(a.price(50), 2000);
    assert_eq!(a.price(0), 2000);
}

#[test]
fn saturating_mul_clamps_at_max() {
    assert_eq!(saturating_mul_u128(u128::MAX, 2), u128::MAX);
    assert_eq!(saturating_mul_u128(1 << 64, 1 << 64), u128::MAX);
    assert_eq!(saturating_mul_u128(550, 2), 1100);
    assert_eq!(saturating_mul_u128(u128::MAX, 0), 0);
}

#[test]
fn extreme_schedule_saturates_instead_of_overflowing() {
    // the steep branch multiplies elapsed blocks by units per block; with the
    // widest possible price span it stays clamped inside the u128 range
    let a = DutchAuction::new(ASSET, PAYMENT, u128::MAX, 0, 100, OWNER, 0);
    let unit = u128::MAX / 100;
    assert_eq!(a.price(1), u128::MAX - unit);
    assert_eq!(a.price(100), 0);
}
