use dutch_auction::AccountId;
use dutch_auction::DutchAuction;
use dutch_auction::Error;

const OWNER: AccountId = AccountId(1);
const STRANGER: AccountId = AccountId(2);
const ASSET: AccountId = AccountId(10);
const PAYMENT: AccountId = AccountId(11);

fn schedule() -> DutchAuction {
    // start_price 1000, min_price 100, start block 5, end block 100
    DutchAuction::new(ASSET, PAYMENT, 1000, 100, 100, OWNER, 5)
}

#[test]
fn construction_fixes_the_schedule() {
    let a = schedule();
    assert_eq!(a.start_block(), 5);
    assert_eq!(a.end_time(), 100);
    assert_eq!(a.min_price(), 100);
}

#[test]
fn check_owner_accepts_only_the_owner() {
    let a = schedule();
    assert_eq!(a.check_owner(OWNER), Ok(()));
    assert_eq!(a.check_owner(STRANGER), Err(Error::NotAuctionOwner));
}

#[test]
fn set_min_price_is_owner_only() {
    let mut a = schedule();
    let r = a.set_min_price(STRANGER, 7);
    assert_eq!(r.unwrap_err(), Error::NotAuctionOwner);
    assert_eq!(a.min_price(), 100);
    assert_eq!(a.set_min_price(OWNER, 7), Ok(()));
    assert_eq!(a.min_price(), 7);
}

#[test]
fn set_end_time_is_owner_only() {
    let mut a = schedule();
    let r = a.set_end_time(STRANGER, 400);
    assert_eq!(r.unwrap_err(), Error::NotAuctionOwner);
    assert_eq!(a.end_time(), 100);
    assert_eq!(a.set_end_time(OWNER, 400), Ok(()));
    assert_eq!(a.end_time(), 400);
}

#[test]
fn terminate_is_owner_only_and_pays_the_owner() {
    let a = schedule();
    let r = a.terminate(STRANGER);
    assert_eq!(r.unwrap_err(), Error::NotAuctionOwner);
    assert_eq!(a.terminate(OWNER), Ok(OWNER));
}

#[test]
fn rejected_mutation_leaves_prices_unchanged() {
    let mut a = schedule();
    let before = a.price(50);
    let _ = a.set_min_price(STRANGER, 0);
    let _ = a.set_end_time(STRANGER, 10);
    assert_eq!(a.price(50), before);
}
