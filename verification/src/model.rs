//! The state of a bot as mathematics, and what each occurrence makes of it.
use crate::depth::L2MarketDepth;
use crate::errors::{BotError, PubSubError};
use crate::run::{Outgoing, Step, Sweep};
use crate::types::{
    Asset, Event, LiveError, LiveEvent, Order, OrderId, OrderRequest, Real, Request,
    StateValues, Status, WaitOrderResponse, LOCAL_ASK_DEPTH_EVENT, LOCAL_BID_DEPTH_EVENT,
};
use vstd::prelude::*;

verus! {

/// The state of a bot. Each sequence but `assets` itself holds one element per asset.
#[verifier::ext_equal]
pub struct BotModel<MD, H, K> {
    /// Each asset with the name of the connector through which it is traded.
    pub assets: Seq<(String, Asset)>,
    /// The channel of each asset, as its place among the distinct connectors.
    pub pubsub: Seq<usize>,
    pub depth: Seq<MD>,
    pub orders: Seq<Map<OrderId, Order>>,
    pub trade: Seq<Seq<Event>>,
    pub last_trades_capacity: usize,
    pub error_handler: Option<H>,
    pub order_hook: Option<K>,
    pub last_feed_latency: Seq<Option<(i64, i64)>>,
    pub last_order_latency: Seq<Option<(i64, i64, i64)>>,
    pub state: Seq<StateValues>,
}

/// The names of the connectors, one per asset.
pub open spec fn connector_names(assets: Seq<(String, Asset)>) -> Seq<Seq<char>> {
    assets.map_values(|asset: (String, Asset)| asset.0@)
}

/// The distinct names, in the order of their first use.
pub open spec fn distinct(names: Seq<Seq<char>>) -> Seq<Seq<char>>
    decreases names.len(),
{
    if names.len() == 0 {
        Seq::empty()
    } else {
        let before = distinct(names.drop_last());
        if before.contains(names.last()) {
            before
        } else {
            before.push(names.last())
        }
    }
}

/// No name is repeated among the distinct ones, and none is missing.
pub proof fn distinct_is_exact(names: Seq<Seq<char>>)
    ensures
        distinct(names).no_duplicates(),
        forall|name: Seq<char>| distinct(names).contains(name) <==> names.contains(name),
    decreases names.len(),
{
    if names.len() > 0 {
        let before = distinct(names.drop_last());
        let last = names.last();
        distinct_is_exact(names.drop_last());
        assert(names =~= names.drop_last().push(last));
        assert forall|name: Seq<char>| distinct(names).contains(name) <==> names.contains(name) by {
            assert(before.contains(name) <==> names.drop_last().contains(name));
            if before.contains(name) {
                assert(distinct(names)[before.index_of(name)] == name);
                assert(names[names.drop_last().index_of(name)] == name);
            } else if name == last {
                assert(distinct(names).last() == name);
                assert(names[names.len() - 1] == name);
            } else {
                if names.contains(name) {
                    assert(names.drop_last()[names.index_of(name)] == name);
                }
                if distinct(names).contains(name) {
                    assert(before[distinct(names).index_of(name)] == name);
                }
            }
        }
    }
}

/// Assets are numbered in the order in which they were added.
pub open spec fn numbered(assets: Seq<(String, Asset)>) -> bool {
    forall|i: int| 0 <= i < assets.len() ==> (#[trigger] assets[i]).1.asset_no == i
}

/// The channel of every asset is that of its connector.
pub open spec fn wired(assets: Seq<(String, Asset)>, pubsub: Seq<usize>) -> bool {
    let names = connector_names(assets);
    let channels = distinct(names);
    &&& pubsub.len() == assets.len()
    &&& forall|i: int|
        0 <= i < pubsub.len() ==> (#[trigger] pubsub[i]) < channels.len() && channels[pubsub[i] as int]
            == names[i]
}

/// Every order is filed under its own id.
pub open spec fn filed(orders: Map<OrderId, Order>) -> bool {
    forall|id: OrderId| #[trigger] orders.contains_key(id) ==> orders[id].order_id == id
}

impl<MD, H, K> BotModel<MD, H, K> where
    MD: L2MarketDepth,
    H: Fn(LiveError) -> Result<(), BotError>,
    K: Fn(&Order, &Order) -> Result<(), BotError>,
 {
    /// What holds of every bot between two operations.
    pub open spec fn wf(self) -> bool {
        &&& numbered(self.assets)
        &&& wired(self.assets, self.pubsub)
        &&& self.depth.len() == self.assets.len()
        &&& self.orders.len() == self.assets.len()
        &&& self.trade.len() == self.assets.len()
        &&& self.last_feed_latency.len() == self.assets.len()
        &&& self.last_order_latency.len() == self.assets.len()
        &&& self.state.len() == self.assets.len()
        &&& forall|i: int| 0 <= i < self.orders.len() ==> filed(#[trigger] self.orders[i])
        &&& forall|i: int|
            0 <= i < self.trade.len() ==> (#[trigger] self.trade[i]).len()
                <= self.last_trades_capacity
        &&& self.error_handler matches Some(handler) ==> forall|error: LiveError|
            call_requires(handler, (error,))
        &&& self.order_hook matches Some(hook) ==> forall|known: Order, response: Order|
            call_requires(hook, (&known, &response))
    }
}

/// A bot that has just been built: no orders, no trades, no positions, nothing received.
pub open spec fn fresh<MD, H, K>(
    assets: Seq<(String, Asset)>,
    pubsub: Seq<usize>,
    depth: Seq<MD>,
    last_trades_capacity: usize,
    error_handler: Option<H>,
    order_hook: Option<K>,
) -> BotModel<MD, H, K> {
    let n = assets.len();
    BotModel {
        assets,
        pubsub,
        depth,
        orders: Seq::new(n, |i: int| Map::empty()),
        trade: Seq::new(n, |i: int| Seq::empty()),
        last_trades_capacity,
        error_handler,
        order_hook,
        last_feed_latency: Seq::new(n, |i: int| None),
        last_order_latency: Seq::new(n, |i: int| None),
        state: Seq::new(n, |i: int| StateValues { position: Real { bits: 0 } }),
    }
}

/// What one event of a feed makes of the book of its asset.
pub open spec fn book_step<MD: L2MarketDepth>(pre: MD, event: Event, post: MD) -> bool {
    if event.matches_kind(LOCAL_BID_DEPTH_EVENT) {
        MD::bid_updated(pre, event.px, event.qty, event.exch_ts, post)
    } else if event.matches_kind(LOCAL_ASK_DEPTH_EVENT) {
        MD::ask_updated(pre, event.px, event.qty, event.exch_ts, post)
    } else {
        pre == post
    }
}

/// `books` are the states that a book goes through as the events are applied in turn.
pub open spec fn book_history<MD: L2MarketDepth>(books: Seq<MD>, events: Seq<Event>) -> bool {
    &&& books.len() == events.len() + 1
    &&& forall|i: int|
        0 <= i < events.len() ==> book_step(books[i], #[trigger] events[i], books[i + 1])
}

/// What the events, applied in turn, make of the book of their asset.
pub open spec fn book_run<MD: L2MarketDepth>(pre: MD, events: Seq<Event>, post: MD) -> bool {
    exists|books: Seq<MD>| #[trigger]
        book_history(books, events) && books.first() == pre && books.last() == post
}

/// The trades among the events.
pub open spec fn trades_of(events: Seq<Event>) -> Seq<Event> {
    events.filter(|event: Event| event.is_trade())
}

/// The last `capacity` of the trades, or all of them where they are fewer.
pub open spec fn kept(trades: Seq<Event>, capacity: nat) -> Seq<Event> {
    if trades.len() <= capacity {
        trades
    } else {
        trades.skip(trades.len() - capacity)
    }
}

/// Trades that come later push out the same ones, whether or not those before them were cut down
/// already.
pub proof fn kept_in_turn(first: Seq<Event>, second: Seq<Event>, capacity: nat)
    ensures
        kept(kept(first, capacity) + second, capacity) == kept(first + second, capacity),
{
    assert(kept(kept(first, capacity) + second, capacity) =~= kept(first + second, capacity));
}

/// Market data of one asset arrives: the last event gives the feed latency, the events go into the
/// book of the asset in turn, and of its trades the most recent are kept, as many as the bot keeps.
pub open spec fn fed<MD: L2MarketDepth, H, K>(
    pre: BotModel<MD, H, K>,
    asset_no: int,
    events: Seq<Event>,
    post: BotModel<MD, H, K>,
) -> bool {
    if events.len() == 0 {
        post == pre
    } else {
        &&& book_run(pre.depth[asset_no], events, post.depth[asset_no])
        &&& post == (BotModel {
            depth: pre.depth.update(asset_no, post.depth[asset_no]),
            trade: pre.trade.update(
                asset_no,
                kept(
                    pre.trade[asset_no] + trades_of(events),
                    pre.last_trades_capacity as nat,
                ),
            ),
            last_feed_latency: pre.last_feed_latency.update(
                asset_no,
                Some((events.last().exch_ts, events.last().local_ts)),
            ),
            ..pre
        })
    }
}

/// What a response makes of the order that the bot knows: a response that is older than what is
/// known, or that comes after a final status, changes nothing.
pub open spec fn merged(known: Order, response: Order) -> Order {
    if response.exch_timestamp >= known.exch_timestamp && !known.status.terminal() {
        response
    } else {
        known
    }
}

/// What a response makes of the orders of its asset. One about an unknown order adds the order.
pub open spec fn responded(orders: Map<OrderId, Order>, response: Order) -> Map<OrderId, Order> {
    if orders.contains_key(response.order_id) {
        orders.insert(response.order_id, merged(orders[response.order_id], response))
    } else {
        orders.insert(response.order_id, response)
    }
}

impl<MD, H, K> BotModel<MD, H, K> {
    /// An order response arrives at time `now`. Its timestamps are noted in any case; it reaches
    /// the orders of the asset unless the order hook vetoes it.
    pub open spec fn order_received(
        self,
        asset_no: int,
        response: Order,
        now: i64,
        vetoed: bool,
    ) -> Self {
        BotModel {
            last_order_latency: self.last_order_latency.update(
                asset_no,
                Some((response.local_timestamp, response.exch_timestamp, now)),
            ),
            orders: if vetoed {
                self.orders
            } else {
                self.orders.update(asset_no, responded(self.orders[asset_no], response))
            },
            ..self
        }
    }

    /// The position in an asset is now `qty`.
    pub open spec fn position_received(self, asset_no: int, qty: Real) -> Self {
        BotModel {
            state: self.state.update(
                asset_no,
                StateValues { position: qty, ..self.state[asset_no] },
            ),
            ..self
        }
    }
}

/// The answer of a handler, which the bot passes on where it is an error.
pub open spec fn passed_on<T>(answer: Result<(), BotError>, otherwise: T) -> Result<T, BotError> {
    match answer {
        Ok(_) => Ok(otherwise),
        Err(error) => Err(error),
    }
}

/// An order response arrives at time `now`: the hook, if there is one, sees the known order and the
/// response first, and its refusal is handed to the caller.
pub open spec fn order_handled<MD, H, K: Fn(&Order, &Order) -> Result<(), BotError>>(
    pre: BotModel<MD, H, K>,
    asset_no: int,
    response: Order,
    now: i64,
    post: BotModel<MD, H, K>,
    result: Result<(), BotError>,
) -> bool {
    let orders = pre.orders[asset_no];
    if pre.order_hook is Some && orders.contains_key(response.order_id) {
        &&& call_ensures(pre.order_hook->0, (&orders[response.order_id], &response), result)
        &&& post == pre.order_received(asset_no, response, now, result is Err)
    } else {
        &&& result is Ok
        &&& post == pre.order_received(asset_no, response, now, false)
    }
}

/// What the clock shows: a reading that it gave, of a time that is not before the epoch, or of none
/// that can be counted.
pub open spec fn shown_by_clock(reading: Option<i64>) -> bool {
    &&& crate::clock::given(reading)
    &&& reading matches Some(now) ==> now >= 0
}

/// An order response arrives when the clock shows `reading`. One for an unknown asset is refused,
/// and so is one that comes at a time that cannot be counted.
pub open spec fn order_read<MD, H, K: Fn(&Order, &Order) -> Result<(), BotError>>(
    pre: BotModel<MD, H, K>,
    asset_no: usize,
    response: Order,
    reading: Option<i64>,
    post: BotModel<MD, H, K>,
    result: Result<(), BotError>,
) -> bool {
    if asset_no >= pre.assets.len() {
        post == pre && result == Err::<(), BotError>(BotError::AssetNotFound)
    } else {
        match reading {
            Some(now) => order_handled(pre, asset_no as int, response, now, post, result),
            None => post == pre && result == Err::<(), BotError>(BotError::ClockOutOfRange),
        }
    }
}

/// A connector's event reaches the bot. The result says whether the event ends the wait.
pub open spec fn event_handled<
    MD: L2MarketDepth,
    H: Fn(LiveError) -> Result<(), BotError>,
    K: Fn(&Order, &Order) -> Result<(), BotError>,
>(
    pre: BotModel<MD, H, K>,
    event: LiveEvent,
    wait_next_feed: bool,
    wait_order_response: WaitOrderResponse,
    post: BotModel<MD, H, K>,
    result: Result<bool, BotError>,
) -> bool {
    match event {
        LiveEvent::FeedBatch { asset_no, events } => {
            &&& fed(pre, asset_no as int, events@, post)
            &&& result == Ok::<bool, BotError>(wait_next_feed)
        },
        LiveEvent::Feed { asset_no, event } => {
            &&& fed(pre, asset_no as int, seq![event], post)
            &&& result == Ok::<bool, BotError>(false)
        },
        LiveEvent::Order { asset_no, order } => exists|
            reading: Option<i64>,
            answer: Result<(), BotError>,
        |
            shown_by_clock(reading) && #[trigger] order_read(
                pre,
                asset_no,
                order,
                reading,
                post,
                answer,
            ) && result == passed_on(
                answer,
                wait_order_response.awaits(asset_no, order.order_id),
            ),
        LiveEvent::Position { asset_no, qty } => {
            &&& post == pre.position_received(asset_no as int, qty)
            &&& result == Ok::<bool, BotError>(false)
        },
        LiveEvent::Error(error) => {
            &&& post == pre
            &&& match pre.error_handler {
                Some(handler) => exists|answer: Result<(), BotError>| #[trigger]
                    call_ensures(handler, (error,), answer) && result == passed_on(answer, false),
                None => result == Ok::<bool, BotError>(false),
            }
        },
    }
}

/// Something was received, or not, for the asset whose turn it is.
pub open spec fn processed<
    MD: L2MarketDepth,
    H: Fn(LiveError) -> Result<(), BotError>,
    K: Fn(&Order, &Order) -> Result<(), BotError>,
>(
    pre: BotModel<MD, H, K>,
    sweep: Sweep,
    received: Result<Option<LiveEvent>, PubSubError>,
    post: BotModel<MD, H, K>,
    result: Result<Step, BotError>,
) -> bool {
    match received {
        Err(error) => post == pre && result == Err::<Step, BotError>(BotError::PubSub(error)),
        Ok(None) => post == pre && result == Ok::<Step, BotError>(
            sweep.after(true, pre.assets.len()),
        ),
        Ok(Some(event)) => exists|ended: Result<bool, BotError>| #[trigger]
            event_handled(
                pre,
                event,
                sweep.run.wait_next_feed,
                sweep.run.wait_order_response,
                post,
                ended,
            ) && result == match ended {
                Ok(true) => Ok::<Step, BotError>(Step::Return(true)),
                Ok(false) => Ok::<Step, BotError>(sweep.after(false, pre.assets.len())),
                Err(error) => Err::<Step, BotError>(error),
            },
    }
}

/// A new order, as the bot files and publishes it at time `now`.
pub open spec fn new_order(asset: Asset, wanted: OrderRequest, now: i64) -> Order {
    Order {
        order_id: wanted.order_id,
        price_tick: wanted.price_tick,
        qty: wanted.qty,
        leaves_qty: wanted.qty,
        tick_size: asset.tick_size,
        side: wanted.side,
        time_in_force: wanted.time_in_force,
        order_type: wanted.order_type,
        status: Status::New,
        local_timestamp: now,
        req: Status::New,
        exec_price_tick: 0,
        exch_timestamp: 0,
        exec_qty: Real { bits: 0 },
        maker: false,
    }
}

/// An order for which a cancellation was requested at time `now`.
pub open spec fn cancelling(order: Order, now: i64) -> Order {
    Order { req: Status::Canceled, local_timestamp: now, ..order }
}

/// The orders that rest in the market.
pub open spec fn active_only(orders: Map<OrderId, Order>) -> Map<OrderId, Order> {
    orders.restrict(Set::new(|id: OrderId| orders[id].is_active()))
}

impl<MD, H, K> BotModel<MD, H, K> {
    /// Why a new order with this id is refused, if it is.
    pub open spec fn submit_refusal(self, asset_no: usize, order_id: OrderId) -> Option<BotError> {
        if asset_no >= self.assets.len() {
            Some(BotError::AssetNotFound)
        } else if self.orders[asset_no as int].contains_key(order_id) {
            Some(BotError::OrderIdExist)
        } else {
            None
        }
    }

    /// Why the cancellation of this order is refused, if it is.
    pub open spec fn cancel_refusal(self, asset_no: usize, order_id: OrderId) -> Option<BotError> {
        if asset_no >= self.assets.len() {
            Some(BotError::AssetNotFound)
        } else if !self.orders[asset_no as int].contains_key(order_id) {
            Some(BotError::OrderNotFound)
        } else if !self.orders[asset_no as int][order_id].is_cancellable() {
            Some(BotError::InvalidOrderStatus)
        } else {
            None
        }
    }

    /// `order` is filed among the orders of its asset, in place of one with the same id.
    pub open spec fn file_order(self, asset_no: int, order: Order) -> Self {
        BotModel {
            orders: self.orders.update(
                asset_no,
                self.orders[asset_no].insert(order.order_id, order),
            ),
            ..self
        }
    }

    /// What is published when `order` goes out.
    pub open spec fn outgoing(self, asset_no: usize, order: Order, wait: bool) -> Outgoing {
        Outgoing {
            channel: self.pubsub[asset_no as int],
            request: Request::Order { asset_no, order },
            wait,
        }
    }

    /// A new order is submitted at time `now`.
    pub open spec fn submitted(self, asset_no: usize, wanted: OrderRequest, now: i64) -> Self {
        self.file_order(
            asset_no as int,
            new_order(self.assets[asset_no as int].1, wanted, now),
        )
    }

    /// The cancellation of an order is requested at time `now`.
    pub open spec fn cancelled(self, asset_no: usize, order_id: OrderId, now: i64) -> Self {
        self.file_order(
            asset_no as int,
            cancelling(self.orders[asset_no as int][order_id], now),
        )
    }

    /// The orders that no longer rest in the market are forgotten, of one asset or of all.
    pub open spec fn inactive_cleared(self, asset_no: Option<usize>) -> Self {
        BotModel {
            orders: match asset_no {
                Some(a) => if a < self.orders.len() {
                    self.orders.update(a as int, active_only(self.orders[a as int]))
                } else {
                    self.orders
                },
                None => self.orders.map_values(|orders: Map<OrderId, Order>| active_only(orders)),
            },
            ..self
        }
    }

    /// The trades that were kept are forgotten, of one asset or of all.
    pub open spec fn trades_cleared(self, asset_no: Option<usize>) -> Self {
        BotModel {
            trade: match asset_no {
                Some(a) => self.trade.update(a as int, Seq::empty()),
                None => Seq::new(self.trade.len(), |i: int| Seq::empty()),
            },
            ..self
        }
    }
}

/// What the submission of an order at time `now` does and returns.
pub open spec fn submitted_at<MD, H, K>(
    pre: BotModel<MD, H, K>,
    asset_no: usize,
    wanted: OrderRequest,
    wait: bool,
    now: i64,
    post: BotModel<MD, H, K>,
    result: Result<Outgoing, BotError>,
) -> bool {
    match pre.submit_refusal(asset_no, wanted.order_id) {
        Some(refusal) => result == Err::<Outgoing, BotError>(refusal) && post == pre,
        None => {
            &&& post == pre.submitted(asset_no, wanted, now)
            &&& result == Ok::<Outgoing, BotError>(
                pre.outgoing(
                    asset_no,
                    new_order(pre.assets[asset_no as int].1, wanted, now),
                    wait,
                ),
            )
        },
    }
}

/// What the request to cancel an order at time `now` does and returns.
pub open spec fn cancelled_at<MD, H, K>(
    pre: BotModel<MD, H, K>,
    asset_no: usize,
    order_id: OrderId,
    wait: bool,
    now: i64,
    post: BotModel<MD, H, K>,
    result: Result<Outgoing, BotError>,
) -> bool {
    match pre.cancel_refusal(asset_no, order_id) {
        Some(refusal) => result == Err::<Outgoing, BotError>(refusal) && post == pre,
        None => {
            &&& post == pre.cancelled(asset_no, order_id, now)
            &&& result == Ok::<Outgoing, BotError>(
                pre.outgoing(
                    asset_no,
                    cancelling(pre.orders[asset_no as int][order_id], now),
                    wait,
                ),
            )
        },
    }
}

/// What the submission of an order does and returns when the clock shows `reading`. A time that cannot be
/// counted keeps an order from going out, and only one that would not be refused anyway.
pub open spec fn submitted_on<MD, H, K>(
    pre: BotModel<MD, H, K>,
    asset_no: usize,
    wanted: OrderRequest,
    wait: bool,
    reading: Option<i64>,
    post: BotModel<MD, H, K>,
    result: Result<Outgoing, BotError>,
) -> bool {
    match reading {
        Some(now) => submitted_at(pre, asset_no, wanted, wait, now, post, result),
        None => {
            &&& post == pre
            &&& result == Err::<Outgoing, BotError>(
                match pre.submit_refusal(asset_no, wanted.order_id) {
                    Some(refusal) => refusal,
                    None => BotError::ClockOutOfRange,
                },
            )
        },
    }
}

/// The submission of an order at whatever time the clock shows. What is refused is refused whatever it
/// shows.
pub open spec fn submit_handled<MD, H, K>(
    pre: BotModel<MD, H, K>,
    asset_no: usize,
    wanted: OrderRequest,
    wait: bool,
    post: BotModel<MD, H, K>,
    result: Result<Outgoing, BotError>,
) -> bool {
    match pre.submit_refusal(asset_no, wanted.order_id) {
        Some(refusal) => result == Err::<Outgoing, BotError>(refusal) && post == pre,
        None => exists|reading: Option<i64>|
            shown_by_clock(reading) && #[trigger] submitted_on(
                pre,
                asset_no,
                wanted,
                wait,
                reading,
                post,
                result,
            ),
    }
}

/// What the request to cancel an order does and returns when the clock shows `reading`. A time that cannot be
/// counted keeps a request from going out, and only one that would not be refused anyway.
pub open spec fn cancelled_on<MD, H, K>(
    pre: BotModel<MD, H, K>,
    asset_no: usize,
    order_id: OrderId,
    wait: bool,
    reading: Option<i64>,
    post: BotModel<MD, H, K>,
    result: Result<Outgoing, BotError>,
) -> bool {
    match reading {
        Some(now) => cancelled_at(pre, asset_no, order_id, wait, now, post, result),
        None => {
            &&& post == pre
            &&& result == Err::<Outgoing, BotError>(
                match pre.cancel_refusal(asset_no, order_id) {
                    Some(refusal) => refusal,
                    None => BotError::ClockOutOfRange,
                },
            )
        },
    }
}

/// The request to cancel an order at whatever time the clock shows. What is refused is refused whatever it
/// shows.
pub open spec fn cancel_handled<MD, H, K>(
    pre: BotModel<MD, H, K>,
    asset_no: usize,
    order_id: OrderId,
    wait: bool,
    post: BotModel<MD, H, K>,
    result: Result<Outgoing, BotError>,
) -> bool {
    match pre.cancel_refusal(asset_no, order_id) {
        Some(refusal) => result == Err::<Outgoing, BotError>(refusal) && post == pre,
        None => exists|reading: Option<i64>|
            shown_by_clock(reading) && #[trigger] cancelled_on(
                pre,
                asset_no,
                order_id,
                wait,
                reading,
                post,
                result,
            ),
    }
}

} // verus!
