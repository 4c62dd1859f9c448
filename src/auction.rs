use vstd::prelude::*;

use crate::address::{same_address, Address};
use crate::error::AuctioneerError;

verus! {

/// The leading bid of a listing: its amount and the bidder's trade state.
#[derive(Clone, Copy, Debug)]
pub struct Bid {
    pub amount: u64,
    pub buyer_trade_state: Address,
}

/// The auction rules that accompany a sell order.
#[derive(Clone, Copy, Debug)]
pub struct ListingConfig {
    pub start_time: i64,
    pub end_time: i64,
    pub reserve_price: Option<u64>,
    pub min_bid_increment: Option<u64>,
    pub time_ext_period: Option<u32>,
    pub time_ext_delta: Option<u32>,
    pub highest_bid: Option<Bid>,
}

/// Opens the listing of a sell order, with no bid yet.
pub fn new_listing(
    start_time: i64,
    end_time: i64,
    reserve_price: Option<u64>,
    min_bid_increment: Option<u64>,
    time_ext_period: Option<u32>,
    time_ext_delta: Option<u32>,
) -> (r: ListingConfig)
    ensures
        r == (ListingConfig {
            start_time,
            end_time,
            reserve_price,
            min_bid_increment,
            time_ext_period,
            time_ext_delta,
            highest_bid: None,
        }),
{
    ListingConfig {
        start_time,
        end_time,
        reserve_price,
        min_bid_increment,
        time_ext_period,
        time_ext_delta,
        highest_bid: None,
    }
}

/// The amount of the leading bid; zero where there is none.
pub open spec fn highest_amount(l: ListingConfig) -> int {
    match l.highest_bid {
        Some(b) => b.amount as int,
        None => 0,
    }
}

/// The least price that beats the leading bid: its amount plus the minimum
/// increment (zero where unset).
pub open spec fn required_price(b: Bid, increment: Option<u64>) -> int {
    b.amount + match increment {
        Some(i) => i as int,
        None => 0,
    }
}

/// The end time after a bid at `now`: extended by the delta where the bid
/// comes within the extension period of the end.
pub open spec fn extended_end(l: ListingConfig, now: i64) -> int {
    match (l.time_ext_period, l.time_ext_delta) {
        (Some(p), Some(d)) => if now >= l.end_time - p {
            l.end_time + d
        } else {
            l.end_time as int
        },
        _ => l.end_time as int,
    }
}

/// A bid of `price` at time `now` from the trade state `trade_state`: refused
/// outside `[start, end)`, below the reserve, or below the leading bid plus
/// the increment; else it leads, and the end may be extended.
pub open spec fn bid_outcome(l: ListingConfig, now: i64, price: u64, trade_state: Address) -> Result<ListingConfig, AuctioneerError> {
    if now < l.start_time {
        Err(AuctioneerError::AuctionNotStarted)
    } else if now >= l.end_time {
        Err(AuctioneerError::AuctionEnded)
    } else if l.reserve_price is Some && price < l.reserve_price->Some_0 {
        Err(AuctioneerError::BelowReservePrice)
    } else if l.highest_bid is Some && price < required_price(l.highest_bid->Some_0, l.min_bid_increment) {
        Err(AuctioneerError::BelowBidIncrement)
    } else if extended_end(l, now) > i64::MAX {
        Err(AuctioneerError::NumericalOverflow)
    } else {
        Ok(
            ListingConfig {
                end_time: extended_end(l, now) as i64,
                highest_bid: Some(Bid { amount: price, buyer_trade_state: trade_state }),
                ..l
            },
        )
    }
}

impl ListingConfig {
    /// Applies the listing's bidding rules to a bid of `price` at `now` from
    /// `trade_state`; a refused bid leaves the listing as it was.
    pub fn place_bid(&mut self, now: i64, price: u64, trade_state: &Address) -> (r: Result<(), AuctioneerError>)
        ensures
            match bid_outcome(*old(self), now, price, *trade_state) {
                Ok(l) => r is Ok && *final(self) == l,
                Err(e) => r == Err::<(), AuctioneerError>(e) && *final(self) == *old(self),
            },
    {
        if now < self.start_time {
            return Err(AuctioneerError::AuctionNotStarted);
        }
        if now >= self.end_time {
            return Err(AuctioneerError::AuctionEnded);
        }
        if let Some(reserve) = self.reserve_price {
            if price < reserve {
                return Err(AuctioneerError::BelowReservePrice);
            }
        }
        if let Some(b) = self.highest_bid {
            let increment: u64 = match self.min_bid_increment {
                Some(i) => i,
                None => 0,
            };
            if (price as u128) < (b.amount as u128) + (increment as u128) {
                return Err(AuctioneerError::BelowBidIncrement);
            }
        }
        let mut end = self.end_time;
        if let (Some(p), Some(d)) = (self.time_ext_period, self.time_ext_delta) {
            if (now as i128) >= (self.end_time as i128) - (p as i128) {
                if (self.end_time as i128) + (d as i128) > i64::MAX as i128 {
                    return Err(AuctioneerError::NumericalOverflow);
                }
                end = self.end_time + d as i64;
            }
        }
        self.end_time = end;
        self.highest_bid = Some(Bid { amount: price, buyer_trade_state: *trade_state });
        Ok(())
    }

    /// Refuses with `CannotCancelHighestBid` to cancel the leading bid's trade state.
    pub fn check_cancel(&self, trade_state: &Address) -> (r: Result<(), AuctioneerError>)
        ensures
            (self.highest_bid is Some && self.highest_bid->Some_0.buyer_trade_state@ == trade_state@) ==> r
                == Err::<(), AuctioneerError>(AuctioneerError::CannotCancelHighestBid),
            !(self.highest_bid is Some && self.highest_bid->Some_0.buyer_trade_state@ == trade_state@) ==> r is Ok,
    {
        match &self.highest_bid {
            Some(b) => {
                if same_address(&b.buyer_trade_state, trade_state) {
                    Err(AuctioneerError::CannotCancelHighestBid)
                } else {
                    Ok(())
                }
            },
            None => Ok(()),
        }
    }

    /// Refuses with `NotHighestBidder` to settle with any trade state but the
    /// leading bid's.
    pub fn check_highest_bidder(&self, trade_state: &Address) -> (r: Result<(), AuctioneerError>)
        ensures
            (self.highest_bid is Some && self.highest_bid->Some_0.buyer_trade_state@ == trade_state@) ==> r is Ok,
            !(self.highest_bid is Some && self.highest_bid->Some_0.buyer_trade_state@ == trade_state@) ==> r
                == Err::<(), AuctioneerError>(AuctioneerError::NotHighestBidder),
    {
        match &self.highest_bid {
            Some(b) => {
                if same_address(&b.buyer_trade_state, trade_state) {
                    Ok(())
                } else {
                    Err(AuctioneerError::NotHighestBidder)
                }
            },
            None => Err(AuctioneerError::NotHighestBidder),
        }
    }
}

/// One bid: the time, the price, and the bidder's trade state.
pub struct BidAttempt {
    pub now: i64,
    pub price: u64,
    pub trade_state: Address,
}

/// The listing after the bids `bids`, in order; a refused bid changes nothing.
pub open spec fn listing_run(l: ListingConfig, bids: Seq<BidAttempt>) -> ListingConfig
    decreases bids.len(),
{
    if bids.len() == 0 {
        l
    } else {
        let next = match bid_outcome(l, bids[0].now, bids[0].price, bids[0].trade_state) {
            Ok(l2) => l2,
            Err(_) => l,
        };
        listing_run(next, bids.drop_first())
    }
}

/// Over any sequence of bids on one listing, the leading amount and the end
/// time never decrease, and each refused bid leaves the listing unchanged.
pub proof fn lemma_auction_monotonic(l: ListingConfig, bids: Seq<BidAttempt>)
    ensures
        highest_amount(listing_run(l, bids)) >= highest_amount(l),
        listing_run(l, bids).end_time >= l.end_time,
        forall|now: i64, price: u64, ts: Address|
            #[trigger] bid_outcome(l, now, price, ts) is Ok ==> highest_amount(bid_outcome(l, now, price, ts)->Ok_0)
                >= highest_amount(l) && bid_outcome(l, now, price, ts)->Ok_0.end_time >= l.end_time,
    decreases bids.len(),
{
    if bids.len() > 0 {
        let next = match bid_outcome(l, bids[0].now, bids[0].price, bids[0].trade_state) {
            Ok(l2) => l2,
            Err(_) => l,
        };
        lemma_auction_monotonic(next, bids.drop_first());
    }
}

} // verus!
