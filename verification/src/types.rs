//! The values that the bot stores, receives and publishes.
use vstd::prelude::*;

verus! {

/// Identifies an order of one asset.
pub type OrderId = u64;

/// A price, a quantity or a size, as the bits of an IEEE 754 double.
///
/// The bot takes such values in, keeps them and hands them on; it computes nothing with them.
#[derive(Clone, Copy, Debug, PartialEq, Eq, Structural)]
pub struct Real {
    pub bits: u64,
}

impl Real {
    /// The double `0.0`.
    pub fn zero() -> (r: Real)
        ensures
            r == (Real { bits: 0 }),
    {
        Real { bits: 0 }
    }
}

/// The state of an order, or of a request about an order.
#[derive(Clone, Copy, Debug, PartialEq, Eq, Structural)]
pub enum Status {
    /// No request is pending.
    Nothing,
    New,
    Expired,
    Filled,
    Canceled,
    PartiallyFilled,
}

impl Status {
    /// No response changes an order that has reached this status.
    pub open spec fn terminal(self) -> bool {
        self is Canceled || self is Expired || self is Filled
    }

    /// Whether the status is a final one.
    pub fn is_terminal(self) -> (r: bool)
        ensures
            r == self.terminal(),
    {
        self == Status::Canceled || self == Status::Expired || self == Status::Filled
    }
}

#[derive(Clone, Copy, Debug, PartialEq, Eq, Structural)]
pub enum Side {
    Buy,
    Sell,
}

#[derive(Clone, Copy, Debug, PartialEq, Eq, Structural)]
pub enum TimeInForce {
    GTC,
    GTX,
    FOK,
    IOC,
}

#[derive(Clone, Copy, Debug, PartialEq, Eq, Structural)]
pub enum OrdType {
    Limit,
    Market,
}

/// An order as the bot knows it.
#[derive(Clone, Copy, Debug, PartialEq, Eq, Structural)]
pub struct Order {
    pub order_id: OrderId,
    pub price_tick: i64,
    pub qty: Real,
    pub leaves_qty: Real,
    pub tick_size: Real,
    pub side: Side,
    pub time_in_force: TimeInForce,
    pub order_type: OrdType,
    pub status: Status,
    /// When the bot issued the last request about this order.
    pub local_timestamp: i64,
    /// The request that awaits a response, `Status::Nothing` if there is none.
    pub req: Status,
    pub exec_price_tick: i64,
    /// When the exchange last processed this order.
    pub exch_timestamp: i64,
    pub exec_qty: Real,
    pub maker: bool,
}

impl Order {
    /// The order rests in the market.
    pub open spec fn is_active(self) -> bool {
        self.status is New || self.status is PartiallyFilled
    }

    /// The order rests in the market and no request about it is pending.
    pub open spec fn is_cancellable(self) -> bool {
        self.is_active() && self.req is Nothing
    }

    /// Whether the order rests in the market.
    pub fn active(&self) -> (r: bool)
        ensures
            r == self.is_active(),
    {
        self.status == Status::New || self.status == Status::PartiallyFilled
    }

    /// Whether the order can be cancelled: it rests in the market, and no request about it is
    /// pending.
    pub fn cancellable(&self) -> (r: bool)
        ensures
            r == self.is_cancellable(),
    {
        self.active() && self.req == Status::Nothing
    }

    /// Takes over what a response says of this order.
    pub fn update(&mut self, order: &Order)
        ensures
            *final(self) == *order,
    {
        *self = *order;
    }
}

/// What a strategy asks for when it submits an order; `price_tick` is the price in ticks.
#[derive(Clone, Copy, Debug, PartialEq, Eq, Structural)]
pub struct OrderRequest {
    pub order_id: OrderId,
    pub price_tick: i64,
    pub qty: Real,
    pub side: Side,
    pub time_in_force: TimeInForce,
    pub order_type: OrdType,
}

/// A change of a price level, in the low byte of [`Event::ev`].
pub const DEPTH_EVENT: u64 = 0x1;

/// A trade, in the low byte of [`Event::ev`].
pub const TRADE_EVENT: u64 = 0x2;

/// The event concerns the sell side.
pub const SELL_EVENT: u64 = 0x1000_0000;

/// The event concerns the buy side.
pub const BUY_EVENT: u64 = 0x2000_0000;

/// The event is valid to the local processor.
pub const LOCAL_EVENT: u64 = 0x4000_0000;

pub const LOCAL_BID_DEPTH_EVENT: u64 = DEPTH_EVENT | LOCAL_EVENT | BUY_EVENT;

pub const LOCAL_ASK_DEPTH_EVENT: u64 = DEPTH_EVENT | LOCAL_EVENT | SELL_EVENT;

pub const LOCAL_BUY_TRADE_EVENT: u64 = TRADE_EVENT | LOCAL_EVENT | BUY_EVENT;

pub const LOCAL_SELL_TRADE_EVENT: u64 = TRADE_EVENT | LOCAL_EVENT | SELL_EVENT;

/// One item of a market feed.
#[derive(Clone, Copy, Debug, PartialEq, Eq, Structural)]
pub struct Event {
    /// What happened: flags, and the kind in the low byte.
    pub ev: u64,
    pub exch_ts: i64,
    pub local_ts: i64,
    pub px: Real,
    pub qty: Real,
}

impl Event {
    /// Every flag of `event` is set, and the kinds agree where `event` has one.
    pub open spec fn matches_kind(self, event: u64) -> bool {
        &&& self.ev & event == event
        &&& event & 0xff == 0 || self.ev & 0xff == event & 0xff
    }

    /// The event is a trade, of either side.
    pub open spec fn is_trade(self) -> bool {
        self.matches_kind(LOCAL_BUY_TRADE_EVENT) || self.matches_kind(LOCAL_SELL_TRADE_EVENT)
    }

    /// Whether this is an event of the given sort.
    pub fn is(&self, event: u64) -> (r: bool)
        ensures
            r == self.matches_kind(event),
    {
        if (self.ev & event) != event {
            false
        } else {
            let kind: u64 = event & 0xff;
            kind == 0 || self.ev & 0xff == kind
        }
    }
}

/// An event is never both a change of a price level and a trade.
pub proof fn depth_events_are_no_trades(event: Event)
    ensures
        event.matches_kind(LOCAL_BID_DEPTH_EVENT) ==> !event.is_trade(),
        event.matches_kind(LOCAL_ASK_DEPTH_EVENT) ==> !event.is_trade(),
{
    assert(LOCAL_BID_DEPTH_EVENT & 0xff == 1 && LOCAL_ASK_DEPTH_EVENT & 0xff == 1
        && LOCAL_BUY_TRADE_EVENT & 0xff == 2 && LOCAL_SELL_TRADE_EVENT & 0xff == 2) by (bit_vector);
}

/// An instrument that the bot trades.
#[derive(Debug)]
pub struct Asset {
    pub asset_no: usize,
    pub symbol: String,
    /// The minimum price fluctuation.
    pub tick_size: Real,
    /// The minimum trade size.
    pub lot_size: Real,
}

/// An error that a connector reports.
#[derive(Clone, Debug)]
pub struct LiveError {
    pub message: String,
}

/// What a connector sends to the bot.
#[derive(Clone, Debug)]
pub enum LiveEvent {
    FeedBatch { asset_no: usize, events: Vec<Event> },
    Feed { asset_no: usize, event: Event },
    Order { asset_no: usize, order: Order },
    Position { asset_no: usize, qty: Real },
    Error(LiveError),
}

impl LiveEvent {
    /// The market data or the position that the event carries belongs to one of `assets` assets.
    /// An order response may name any asset: the bot refuses an unknown one itself.
    pub open spec fn addressed_within(self, assets: nat) -> bool {
        match self {
            LiveEvent::FeedBatch { asset_no, events } => events@.len() == 0 || asset_no < assets,
            LiveEvent::Feed { asset_no, .. } => asset_no < assets,
            LiveEvent::Order { .. } => true,
            LiveEvent::Position { asset_no, .. } => asset_no < assets,
            LiveEvent::Error(_) => true,
        }
    }

    /// Whether the event can be handed to a bot with this many assets.
    pub fn fits(&self, assets: usize) -> (r: bool)
        ensures
            r == self.addressed_within(assets as nat),
    {
        match self {
            LiveEvent::FeedBatch { asset_no, events } => events.len() == 0 || *asset_no < assets,
            LiveEvent::Feed { asset_no, .. } => *asset_no < assets,
            LiveEvent::Order { .. } => true,
            LiveEvent::Position { asset_no, .. } => *asset_no < assets,
            LiveEvent::Error(_) => true,
        }
    }
}

/// What the bot sends to a connector.
#[derive(Clone, Copy, Debug, PartialEq, Eq, Structural)]
pub enum Request {
    Order { asset_no: usize, order: Order },
}

/// What the bot tracks of the holdings in one asset.
#[derive(Clone, Copy, Debug, PartialEq, Eq, Structural)]
pub struct StateValues {
    pub position: Real,
}

impl Default for StateValues {
    fn default() -> (r: Self)
        ensures
            r == (StateValues { position: Real { bits: 0 } }),
    {
        StateValues { position: Real::zero() }
    }
}

/// Which order response ends a wait.
#[derive(Clone, Copy, Debug, PartialEq, Eq, Structural)]
pub enum WaitOrderResponse {
    Never,
    Any,
    Specified { asset_no: usize, order_id: OrderId },
}

impl WaitOrderResponse {
    /// A response about this order ends the wait.
    pub open spec fn awaits(self, asset_no: usize, order_id: OrderId) -> bool {
        match self {
            WaitOrderResponse::Never => false,
            WaitOrderResponse::Any => true,
            WaitOrderResponse::Specified { asset_no: a, order_id: o } => a == asset_no && o
                == order_id,
        }
    }

    /// Whether a response about the given order ends the wait.
    pub fn is_answered_by(&self, asset_no: usize, order_id: OrderId) -> (r: bool)
        ensures
            r == self.awaits(asset_no, order_id),
    {
        match *self {
            WaitOrderResponse::Never => false,
            WaitOrderResponse::Any => true,
            WaitOrderResponse::Specified { asset_no: a, order_id: o } => o == order_id && a
                == asset_no,
        }
    }
}

/// A message of at most 1024 bytes.
#[derive(Debug)]
pub struct BinPayload {
    pub data: [u8; 1024],
    pub len: usize,
}

impl Default for BinPayload {
    fn default() -> (r: Self)
        ensures
            r.len == 0,
            forall|i: int| 0 <= i < 1024 ==> r.data@[i] == 0,
    {
        BinPayload { data: [0; 1024], len: 0 }
    }
}

} // verus!
