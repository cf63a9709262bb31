//! The auction engine: its state, its owner-gated lifecycle operations, and
//! the purchase protocol.

use crate::errors::Error;
use crate::errors::TokenError;
use crate::pricing::clamped_mul;
use crate::pricing::linear_decrease;
use crate::pricing::lemma_floored_price_after_end;
use crate::pricing::lemma_floored_price_at_least_min;
use crate::pricing::lemma_floored_price_before_start;
use crate::pricing::lemma_floored_price_bounds;
use crate::pricing::lemma_floored_price_monotone;
use crate::pricing::spec_floored_price;
use vstd::prelude::*;

verus! {

/// The identity of an account, as the host chain hands it to the engine. The
/// engine never looks inside an identity; it only compares identities and
/// routes transfers between them.
#[derive(Clone, Copy, Debug, Eq, Hash, PartialEq, Structural)]
pub struct AccountId(pub u128);

/// The state of one Dutch auction: one asset/payment token pair and one
/// linear decay schedule, owned by the identity that created it.
pub struct DutchAuction {
    auction_owner: AccountId,
    asset_token: AccountId,
    payment_token: AccountId,
    start_price: u128,
    min_price: u128,
    start_time: u32,
    end_time: u32,
}

impl DutchAuction {
    /// The identity permitted to perform administrative actions.
    pub closed spec fn spec_owner(&self) -> AccountId {
        self.auction_owner
    }

    /// The token contract holding the asset on sale.
    pub closed spec fn spec_asset_token(&self) -> AccountId {
        self.asset_token
    }

    /// The token contract payments are made in.
    pub closed spec fn spec_payment_token(&self) -> AccountId {
        self.payment_token
    }

    /// The price at the start of the schedule.
    pub closed spec fn spec_start_price(&self) -> u128 {
        self.start_price
    }

    /// The price floor.
    pub closed spec fn spec_min_price(&self) -> u128 {
        self.min_price
    }

    /// The block at which the auction started.
    pub closed spec fn spec_start_time(&self) -> u32 {
        self.start_time
    }

    /// The block after which the price no longer decreases.
    pub closed spec fn spec_end_time(&self) -> u32 {
        self.end_time
    }

    /// The unit price the auction charges at block `now`: the decaying line
    /// from `(start_time, start_price)` to `(end_time, min_price)`, floored
    /// at `min_price`.
    pub closed spec fn spec_price(&self, now: int) -> int {
        spec_floored_price(
            self.start_time as int,
            self.start_price as int,
            self.end_time as int,
            self.min_price as int,
            now,
        )
    }

    /// Creates an auction. The creating identity becomes the owner and the
    /// creation-time block number becomes the start of the schedule; neither
    /// can change afterwards. No relation is demanded between the two prices
    /// or the two block numbers: a degenerate schedule is allowed and prices
    /// accordingly.
    pub fn new(
        asset_token: AccountId,
        payment_token: AccountId,
        start_price: u128,
        min_price: u128,
        end_time: u32,
        caller: AccountId,
        start_time: u32,
    ) -> (auction: Self)
        ensures
            auction.spec_owner() == caller,
            auction.spec_asset_token() == asset_token,
            auction.spec_payment_token() == payment_token,
            auction.spec_start_price() == start_price,
            auction.spec_min_price() == min_price,
            auction.spec_start_time() == start_time,
            auction.spec_end_time() == end_time,
    {
        Self {
            auction_owner: caller,
            asset_token,
            payment_token,
            start_price,
            min_price,
            start_time,
            end_time,
        }
    }

    /// The block after which the price will no longer decrease. The auction
    /// does not end there: the asset stays on sale at the minimum price.
    pub fn end_time(&self) -> (r: u32)
        ensures
            r == self.spec_end_time(),
    {
        self.end_time
    }

    /// The block at which the auction started.
    pub fn start_block(&self) -> (r: u32)
        ensures
            r == self.spec_start_time(),
    {
        self.start_time
    }

    /// The minimal price the auction allows.
    pub fn min_price(&self) -> (r: u128)
        ensures
            r == self.spec_min_price(),
    {
        self.min_price
    }

    /// The unit price the auction charges when buying at block `now`. It is
    /// never below the minimum price.
    pub fn price(&self, now: u32) -> (r: u128)
        ensures
            r == self.spec_price(now as int),
            r >= self.spec_min_price(),
    {
        self.current_price(now)
    }

    /// The decaying line evaluated at `now`, floored at the minimum price.
    /// The floor is redundant while the minimum lies below the line, but
    /// keeps the price from sinking under a minimum raised mid-schedule.
    fn current_price(&self, now: u32) -> (r: u128)
        ensures
            r == self.spec_price(now as int),
            r >= self.spec_min_price(),
    {
        let line: u128 = linear_decrease(
            self.start_time as u128,
            self.start_price,
            self.end_time as u128,
            self.min_price,
            now as u128,
        );
        if line >= self.min_price {
            line
        } else {
            self.min_price
        }
    }

    /// Fails with [`Error::NotAuctionOwner`] exactly when `account` is not
    /// the auction owner. Never has side effects of its own.
    pub fn check_owner(&self, account: AccountId) -> (r: Result<(), Error>)
        ensures
            account == self.spec_owner() ==> r == Ok::<(), Error>(()),
            account != self.spec_owner() ==> r == Err::<(), Error>(Error::NotAuctionOwner),
    {
        if account != self.auction_owner {
            return Err(Error::NotAuctionOwner);
        }
        Ok(())
    }

    /// Replaces the minimum price, unconditionally: no validation against the
    /// starting price or the running schedule. Owner-only; any other caller
    /// receives [`Error::NotAuctionOwner`] and the state is unchanged.
    pub fn set_min_price(&mut self, caller: AccountId, value: u128) -> (r: Result<(), Error>)
        ensures
            caller == old(self).spec_owner() ==> r == Ok::<(), Error>(())
                && final(self).spec_min_price() == value
                && final(self).spec_owner() == old(self).spec_owner()
                && final(self).spec_asset_token() == old(self).spec_asset_token()
                && final(self).spec_payment_token() == old(self).spec_payment_token()
                && final(self).spec_start_price() == old(self).spec_start_price()
                && final(self).spec_start_time() == old(self).spec_start_time()
                && final(self).spec_end_time() == old(self).spec_end_time(),
            caller != old(self).spec_owner() ==> r == Err::<(), Error>(Error::NotAuctionOwner)
                && *final(self) == *old(self),
    {
        if let Err(e) = self.check_owner(caller) {
            return Err(e);
        }
        self.min_price = value;
        Ok(())
    }

    /// Replaces the end of the schedule, unconditionally: no validation
    /// against the start. Owner-only; any other caller receives
    /// [`Error::NotAuctionOwner`] and the state is unchanged.
    pub fn set_end_time(&mut self, caller: AccountId, end_time: u32) -> (r: Result<(), Error>)
        ensures
            caller == old(self).spec_owner() ==> r == Ok::<(), Error>(())
                && final(self).spec_end_time() == end_time
                && final(self).spec_owner() == old(self).spec_owner()
                && final(self).spec_asset_token() == old(self).spec_asset_token()
                && final(self).spec_payment_token() == old(self).spec_payment_token()
                && final(self).spec_start_price() == old(self).spec_start_price()
                && final(self).spec_min_price() == old(self).spec_min_price()
                && final(self).spec_start_time() == old(self).spec_start_time(),
            caller != old(self).spec_owner() ==> r == Err::<(), Error>(Error::NotAuctionOwner)
                && *final(self) == *old(self),
    {
        if let Err(e) = self.check_owner(caller) {
            return Err(e);
        }
        self.end_time = end_time;
        Ok(())
    }

    /// Owner-gated termination. On success the host must destroy the
    /// contract and hand its residual balance to the returned identity — the
    /// caller, who is then known to be the owner. Any other caller receives
    /// [`Error::NotAuctionOwner`] and nothing is destroyed.
    pub fn terminate(&self, caller: AccountId) -> (r: Result<AccountId, Error>)
        ensures
            caller == self.spec_owner() ==> r == Ok::<AccountId, Error>(caller),
            caller != self.spec_owner() ==> r == Err::<AccountId, Error>(Error::NotAuctionOwner),
    {
        if let Err(e) = self.check_owner(caller) {
            return Err(e);
        }
        Ok(caller)
    }

    /// Validates a purchase of `amount` asset tokens by `caller` at block
    /// `now`, against the available asset balance the asset token reported,
    /// and fixes the total price.
    ///
    /// Fails with [`Error::InsufficientSupplyToken`] exactly when `amount` is
    /// zero or exceeds `available`; otherwise fails with
    /// [`Error::MaxPriceExceeded`] exactly when a ceiling was given and the
    /// total (the unit price at `now` times `amount`, saturating) exceeds it.
    /// Otherwise the purchase may proceed: payment is to be collected first,
    /// and the asset disbursed only after the payment outcome is recorded as
    /// a success.
    pub fn buy(
        &self,
        caller: AccountId,
        now: u32,
        available: u128,
        amount: u128,
        max_price: Option<u128>,
    ) -> (r: Result<Purchase, Error>)
        ensures
            (r == Err::<Purchase, Error>(Error::InsufficientSupplyToken)) <==> (amount < 1
                || available < amount),
            (r == Err::<Purchase, Error>(Error::MaxPriceExceeded)) <==> (1 <= amount <= available
                && (max_price matches Some(m) && clamped_mul(
                self.spec_price(now as int),
                amount as int,
            ) > m)),
            (r is Ok) <==> (1 <= amount <= available && (max_price matches Some(m)
                ==> clamped_mul(self.spec_price(now as int), amount as int) <= m)),
            r matches Ok(p) ==> p.spec_buyer() == caller && p.spec_amount() == amount
                && p.spec_total_price() == clamped_mul(self.spec_price(now as int), amount as int)
                && !p.spec_paid(),
    {
        if available < amount || amount < 1 {
            return Err(Error::InsufficientSupplyToken);
        }

        let unit: u128 = self.current_price(now);
        let total: u128 = crate::pricing::saturating_mul_u128(unit, amount);
        if let Some(m) = max_price {
            if total > m {
                return Err(Error::MaxPriceExceeded);
            }
        }

        Ok(Purchase { buyer: caller, total_price: total, amount, paid: false })
    }

    /// At any block and in any state, the price never lies below the minimum
    /// price — also immediately after the minimum was changed mid-schedule,
    /// since the price is computed live from the state.
    pub proof fn lemma_price_at_least_min(&self, now: u32)
        ensures
            self.spec_price(now as int) >= self.spec_min_price(),
    {
        lemma_floored_price_at_least_min(
            self.start_time as int,
            self.start_price as int,
            self.end_time as int,
            self.min_price as int,
            now as int,
        );
    }

    /// At or before the start of a schedule that runs forward and whose
    /// minimum does not exceed its starting price, the price is exactly the
    /// starting price.
    pub proof fn lemma_price_before_start(&self, now: u32)
        requires
            self.spec_min_price() <= self.spec_start_price(),
            self.spec_start_time() < self.spec_end_time(),
            now <= self.spec_start_time(),
        ensures
            self.spec_price(now as int) == self.spec_start_price(),
    {
        lemma_floored_price_before_start(
            self.start_time as int,
            self.start_price as int,
            self.end_time as int,
            self.min_price as int,
            now as int,
        );
    }

    /// At or after the end of the schedule the price is exactly the minimum
    /// price, whatever the rest of the state.
    pub proof fn lemma_price_after_end(&self, now: u32)
        requires
            now >= self.spec_end_time(),
        ensures
            self.spec_price(now as int) == self.spec_min_price(),
    {
        lemma_floored_price_after_end(
            self.start_time as int,
            self.start_price as int,
            self.end_time as int,
            self.min_price as int,
            now as int,
        );
    }

    /// While the minimum does not exceed the starting price, the price lies
    /// between the two at every block.
    pub proof fn lemma_price_bounds(&self, now: u32)
        requires
            self.spec_min_price() <= self.spec_start_price(),
        ensures
            self.spec_min_price() <= self.spec_price(now as int) <= self.spec_start_price(),
    {
        lemma_floored_price_bounds(
            self.start_time as int,
            self.start_price as int,
            self.end_time as int,
            self.min_price as int,
            now as int,
        );
    }

    /// While the minimum does not exceed the starting price, the price is
    /// monotonically non-increasing as the block number increases.
    pub proof fn lemma_price_monotone(&self, earlier: u32, later: u32)
        requires
            self.spec_min_price() <= self.spec_start_price(),
            earlier <= later,
        ensures
            self.spec_price(later as int) <= self.spec_price(earlier as int),
    {
        lemma_floored_price_monotone(
            self.start_time as int,
            self.start_price as int,
            self.end_time as int,
            self.min_price as int,
            earlier as int,
            later as int,
        );
    }

    /// The transfer the host must perform to collect payment for `p`: the
    /// buyer pays the total price, in the payment token, to the auction
    /// owner. The outcome is to be recorded with [`Purchase::record_payment`].
    pub fn take_payment(&self, p: &Purchase) -> (t: PaymentCollection)
        requires
            !p.spec_paid(),
        ensures
            t.token == self.spec_payment_token(),
            t.from == p.spec_buyer(),
            t.to == self.spec_owner(),
            t.amount == p.spec_total_price(),
    {
        PaymentCollection {
            token: self.payment_token,
            from: p.buyer,
            to: self.auction_owner,
            amount: p.total_price,
        }
    }

    /// The transfer the host must perform to disburse the asset for `p`: the
    /// purchased amount, in the asset token, out of the contract's own
    /// holding to the buyer. Only a purchase whose payment was collected can
    /// reach this step, so a failed payment collection never moves any asset.
    pub fn give_asset(&self, p: &Purchase) -> (t: AssetDisbursal)
        requires
            p.spec_paid(),
        ensures
            t.token == self.spec_asset_token(),
            t.to == p.spec_buyer(),
            t.amount == p.spec_amount(),
    {
        AssetDisbursal { token: self.asset_token, to: p.buyer, amount: p.amount }
    }
}

/// A validated purchase in progress: created by [`DutchAuction::buy`], driven
/// to completion by the outcomes of the two token transfers.
#[derive(Debug)]
pub struct Purchase {
    buyer: AccountId,
    total_price: u128,
    amount: u128,
    paid: bool,
}

impl Purchase {
    /// The identity buying the asset.
    pub closed spec fn spec_buyer(&self) -> AccountId {
        self.buyer
    }

    /// The total the buyer pays: unit price at the purchase block times the
    /// amount, saturating.
    pub closed spec fn spec_total_price(&self) -> u128 {
        self.total_price
    }

    /// The amount of asset tokens bought.
    pub closed spec fn spec_amount(&self) -> u128 {
        self.amount
    }

    /// Whether the payment collection succeeded.
    pub closed spec fn spec_paid(&self) -> bool {
        self.paid
    }

    /// The identity buying the asset.
    pub fn buyer(&self) -> (r: AccountId)
        ensures
            r == self.spec_buyer(),
    {
        self.buyer
    }

    /// The total the buyer pays.
    pub fn total_price(&self) -> (r: u128)
        ensures
            r == self.spec_total_price(),
    {
        self.total_price
    }

    /// The amount of asset tokens bought.
    pub fn amount(&self) -> (r: u128)
        ensures
            r == self.spec_amount(),
    {
        self.amount
    }

    /// Whether the payment collection succeeded.
    pub fn paid(&self) -> (r: bool)
        ensures
            r == self.spec_paid(),
    {
        self.paid
    }

    /// Records the outcome of the payment collection. A failure wraps the
    /// token error and leaves the purchase unpaid, so the asset disbursal can
    /// never be requested for it; a success marks the purchase paid and
    /// changes nothing else.
    pub fn record_payment(&mut self, outcome: Result<(), TokenError>) -> (r: Result<(), Error>)
        requires
            !old(self).spec_paid(),
        ensures
            outcome is Ok ==> r == Ok::<(), Error>(()) && final(self).spec_paid()
                && final(self).spec_buyer() == old(self).spec_buyer()
                && final(self).spec_total_price() == old(self).spec_total_price()
                && final(self).spec_amount() == old(self).spec_amount(),
            outcome matches Err(e) ==> r == Err::<(), Error>(Error::PSP22TokenCall(e))
                && *final(self) == *old(self),
    {
        match outcome {
            Err(token_err) => Err(Error::from(token_err)),
            Ok(()) => {
                self.paid = true;
                Ok(())
            },
        }
    }

    /// Records the outcome of the asset disbursal, consuming the purchase. A
    /// failure wraps the token error; a success yields the purchase record to
    /// emit.
    pub fn record_disbursal(self, outcome: Result<(), TokenError>) -> (r: Result<
        AssetBought,
        Error,
    >)
        requires
            self.spec_paid(),
        ensures
            outcome is Ok ==> r == Ok::<AssetBought, Error>(
                (AssetBought {
                    by: self.spec_buyer(),
                    price: self.spec_total_price(),
                    amount: self.spec_amount(),
                }),
            ),
            outcome matches Err(e) ==> r == Err::<AssetBought, Error>(Error::PSP22TokenCall(e)),
    {
        match outcome {
            Err(token_err) => Err(Error::from(token_err)),
            Ok(()) => Ok(
                AssetBought { by: self.buyer, price: self.total_price, amount: self.amount },
            ),
        }
    }
}

/// A payment collection the host must perform: `amount` units of `token`
/// moved from `from` to `to`, on the strength of `from`'s prior allowance.
#[derive(Clone, Copy, Debug, Eq, PartialEq, Structural)]
pub struct PaymentCollection {
    /// The payment token to instruct.
    pub token: AccountId,
    /// The paying account.
    pub from: AccountId,
    /// The receiving account.
    pub to: AccountId,
    /// How many units to move.
    pub amount: u128,
}

/// An asset disbursal the host must perform: `amount` units of `token` moved
/// out of the contract's own holding to `to`.
#[derive(Clone, Copy, Debug, Eq, PartialEq, Structural)]
pub struct AssetDisbursal {
    /// The asset token to instruct.
    pub token: AccountId,
    /// The receiving account.
    pub to: AccountId,
    /// How many units to move.
    pub amount: u128,
}

/// The record emitted for each completed purchase: who bought, what was
/// paid in total, and how much was bought.
#[derive(Clone, Debug, Eq, PartialEq)]
pub struct AssetBought {
    /// The buying identity.
    pub by: AccountId,
    /// The total price paid.
    pub price: u128,
    /// The amount of asset tokens bought.
    pub amount: u128,
}

} // verus!
