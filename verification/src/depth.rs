//! The order book of an asset, as the bot feeds it.
use crate::types::Real;
use vstd::prelude::*;

verus! {

/// A book of price levels that a strategy supplies for each asset.
///
/// Each implementation says itself, in `bid_updated` and `ask_updated`, what an update makes of
/// its book; one that does not say so promises nothing. The bot fixes which updates reach which book, with which values and in which order.
pub trait L2MarketDepth: Sized {
    /// The book may become `post` when the bid quantity at price `px` changes to `qty`.
    open spec fn bid_updated(pre: Self, px: Real, qty: Real, timestamp: i64, post: Self) -> bool {
        true
    }

    /// The book may become `post` when the ask quantity at price `px` changes to `qty`.
    open spec fn ask_updated(pre: Self, px: Real, qty: Real, timestamp: i64, post: Self) -> bool {
        true
    }

    /// The bid quantity at price `px` is now `qty`.
    fn update_bid_depth(&mut self, px: Real, qty: Real, timestamp: i64)
        ensures
            Self::bid_updated(*old(self), px, qty, timestamp, *final(self)),
    ;

    /// The ask quantity at price `px` is now `qty`.
    fn update_ask_depth(&mut self, px: Real, qty: Real, timestamp: i64)
        ensures
            Self::ask_updated(*old(self), px, qty, timestamp, *final(self)),
    ;
}

} // verus!
