//! The live trading bot.
use crate::builder::{BuilderModel, LiveBotBuilder2};
use crate::clock::read_clock;
use crate::depth::L2MarketDepth;
use crate::errors::{BotError, PubSubError};
use crate::model;
use crate::model::BotModel;
use crate::run::{Outgoing, Run, Step, Sweep};
use crate::types::{
    Asset, Event, LiveError, LiveEvent, OrdType, Order, OrderId, OrderRequest, Real, Request, Side,
    StateValues, Status, TimeInForce, WaitOrderResponse,
    LOCAL_ASK_DEPTH_EVENT, LOCAL_BID_DEPTH_EVENT, LOCAL_BUY_TRADE_EVENT, LOCAL_SELL_TRADE_EVENT,
};
use std::collections::hash_map::Entry;
use std::collections::HashMap;
use vstd::prelude::*;

verus! {

broadcast use vstd::std_specs::hash::group_hash_axioms;

/// A live trading bot.
///
/// `MD` is the order book that it keeps of each asset, `H` the handler of connectors' errors, and
/// `K` the hook that sees order responses before they are applied.
pub struct LiveBot2<MD, H, K> {
    pubsub: Vec<usize>,
    depth: Vec<MD>,
    orders: Vec<HashMap<OrderId, Order>>,
    trade: Vec<Vec<Event>>,
    last_trades_capacity: usize,
    assets: Vec<(String, Asset)>,
    error_handler: Option<H>,
    order_hook: Option<K>,
    last_feed_latency: Vec<Option<(i64, i64)>>,
    last_order_latency: Vec<Option<(i64, i64, i64)>>,
    state: Vec<StateValues>,
}

impl<MD, H, K> View for LiveBot2<MD, H, K> {
    type V = BotModel<MD, H, K>;

    closed spec fn view(&self) -> BotModel<MD, H, K> {
        BotModel {
            assets: self.assets@,
            pubsub: self.pubsub@,
            depth: self.depth@,
            orders: self.orders@.map_values(|orders: HashMap<OrderId, Order>| orders@),
            trade: self.trade@.map_values(|trades: Vec<Event>| trades@),
            last_trades_capacity: self.last_trades_capacity,
            error_handler: self.error_handler,
            order_hook: self.order_hook,
            last_feed_latency: self.last_feed_latency@,
            last_order_latency: self.last_order_latency@,
            state: self.state@,
        }
    }
}

impl<MD, H, K> LiveBot2<MD, H, K> where
    MD: L2MarketDepth,
    H: Fn(LiveError) -> Result<(), BotError>,
    K: Fn(&Order, &Order) -> Result<(), BotError>,
 {
    /// Builder to construct [`LiveBot2`] instances.
    pub fn builder<B: Fn(&Asset) -> MD>() -> (r: LiveBotBuilder2<MD, H, K, B>)
        ensures
            r@.wf::<MD>(),
            r@ == (BuilderModel::<H, K, B> {
                assets: Seq::empty(),
                error_handler: None,
                order_hook: None,
                depth_builder: None,
                last_trades_capacity: 0,
            }),
    {
        LiveBotBuilder2::new()
    }

    /// A bot that has received nothing yet.
    pub(crate) fn new(
        assets: Vec<(String, Asset)>,
        pubsub: Vec<usize>,
        depth: Vec<MD>,
        last_trades_capacity: usize,
        error_handler: Option<H>,
        order_hook: Option<K>,
    ) -> (r: Self)
        requires
            model::numbered(assets@),
            model::wired(assets@, pubsub@),
            depth@.len() == assets@.len(),
            error_handler matches Some(handler) ==> forall|error: LiveError|
                call_requires(handler, (error,)),
            order_hook matches Some(hook) ==> forall|known: Order, response: Order|
                call_requires(hook, (&known, &response)),
        ensures
            r@.wf(),
            r@ == model::fresh(
                assets@,
                pubsub@,
                depth@,
                last_trades_capacity,
                error_handler,
                order_hook,
            ),
    {
        let n: usize = assets.len();
        let mut orders: Vec<HashMap<OrderId, Order>> = Vec::new();
        let mut trade: Vec<Vec<Event>> = Vec::new();
        let mut last_feed_latency: Vec<Option<(i64, i64)>> = Vec::new();
        let mut last_order_latency: Vec<Option<(i64, i64, i64)>> = Vec::new();
        let mut state: Vec<StateValues> = Vec::new();
        for i in 0..n
            invariant
                orders@.len() == i,
                trade@.len() == i,
                last_feed_latency@.len() == i,
                last_order_latency@.len() == i,
                state@.len() == i,
                forall|j: int|
                    0 <= j < i ==> (#[trigger] orders@[j])@ == Map::<OrderId, Order>::empty(),
                forall|j: int| 0 <= j < i ==> (#[trigger] trade@[j])@ == Seq::<Event>::empty(),
                forall|j: int| 0 <= j < i ==> (#[trigger] last_feed_latency@[j]) is None,
                forall|j: int| 0 <= j < i ==> (#[trigger] last_order_latency@[j]) is None,
                forall|j: int|
                    0 <= j < i ==> (#[trigger] state@[j]) == (StateValues {
                        position: Real { bits: 0 },
                    }),
        {
            orders.push(HashMap::new());
            let mut trades: Vec<Event> = Vec::new();
            // Where there is no such room, the trades are stored as they come.
            let _ = trades.try_reserve(last_trades_capacity);
            trade.push(trades);
            last_feed_latency.push(None);
            last_order_latency.push(None);
            state.push(StateValues::default());
        }
        let bot = LiveBot2 {
            pubsub,
            depth,
            orders,
            trade,
            last_trades_capacity,
            assets,
            error_handler,
            order_hook,
            last_feed_latency,
            last_order_latency,
            state,
        };
        assert(bot@ =~= model::fresh(
            assets@,
            pubsub@,
            depth@,
            last_trades_capacity,
            error_handler,
            order_hook,
        ));
        bot
    }

    /// Applies one event of the feed of an asset.
    fn feed_event(&mut self, asset_no: usize, event: &Event)
        requires
            old(self)@.wf(),
            asset_no < old(self)@.assets.len(),
        ensures
            final(self)@.wf(),
            model::fed(old(self)@, asset_no as int, seq![*event], final(self)@),
    {
        self.last_feed_latency[asset_no] = Some((event.exch_ts, event.local_ts));
        if event.is(LOCAL_BID_DEPTH_EVENT) {
            self.depth[asset_no].update_bid_depth(event.px, event.qty, event.exch_ts);
        } else if event.is(LOCAL_ASK_DEPTH_EVENT) {
            self.depth[asset_no].update_ask_depth(event.px, event.qty, event.exch_ts);
        } else if (event.is(LOCAL_BUY_TRADE_EVENT) || event.is(LOCAL_SELL_TRADE_EVENT))
            && self.last_trades_capacity > 0 {
            if self.trade[asset_no].len() >= self.last_trades_capacity {
                self.trade[asset_no].remove(0);
            }
            self.trade[asset_no].push(*event);
        }
        proof {
            crate::types::depth_events_are_no_trades(*event);
            let a = asset_no as int;
            let events = seq![*event];
            let books = seq![old(self)@.depth[a], self@.depth[a]];
            assert(model::book_history(books, events));
            assert(model::trades_of(events) =~= if event.is_trade() {
                seq![*event]
            } else {
                Seq::empty()
            }) by {
                reveal_with_fuel(Seq::filter, 2);
                assert(events.drop_last() =~= Seq::<Event>::empty());
            }
            assert(self@.depth =~= old(self)@.depth.update(a, self@.depth[a]));
            assert(self@.orders =~= old(self)@.orders);
            let trades = old(self)@.trade[a];
            let capacity = old(self)@.last_trades_capacity as nat;
            assert(self@.trade[a] =~= model::kept(trades + model::trades_of(events), capacity));
            assert(self@.trade =~= old(self)@.trade.update(a, self@.trade[a]));
        }
    }

    /// Applies a batch of events of the feed of an asset, in turn.
    fn feed_events(&mut self, asset_no: usize, events: &Vec<Event>)
        requires
            old(self)@.wf(),
            events@.len() == 0 || asset_no < old(self)@.assets.len(),
        ensures
            final(self)@.wf(),
            model::fed(old(self)@, asset_no as int, events@, final(self)@),
    {
        for i in 0..events.len()
            invariant
                old(self)@.wf(),
                self@.wf(),
                events@.len() == 0 || asset_no < old(self)@.assets.len(),
                self@.assets == old(self)@.assets,
                model::fed(old(self)@, asset_no as int, events@.take(i as int), self@),
        {
            let ghost before = self@;
            self.feed_event(asset_no, &events[i]);
            proof {
                let event = events@[i as int];
                crate::laws::batches_join(
                    old(self)@,
                    asset_no as int,
                    events@.take(i as int),
                    before,
                    seq![event],
                    self@,
                );
                assert(events@.take(i as int) + seq![event] =~= events@.take(i + 1));
            }
        }
        assert(events@.take(events@.len() as int) =~= events@);
    }

    /// Applies an order response that arrived at time `now`. `answer` is what the order hook said
    /// of it, `Ok` where no hook was asked: a refusal keeps the response from the orders and is
    /// handed back.
    pub fn settle_order(
        &mut self,
        asset_no: usize,
        order: Order,
        now: i64,
        answer: Result<(), BotError>,
    ) -> (r: Result<(), BotError>)
        requires
            old(self)@.wf(),
            asset_no < old(self)@.assets.len(),
        ensures
            final(self)@.wf(),
            r == answer,
            final(self)@ == old(self)@.order_received(asset_no as int, order, now, answer is Err),
    {
        self.last_order_latency[asset_no] = Some(
            (order.local_timestamp, order.exch_timestamp, now),
        );
        if let Ok(()) = answer {
            match self.orders[asset_no].entry(order.order_id) {
                Entry::Occupied(mut entry) => {
                    let known = entry.get_mut();
                    if order.exch_timestamp >= known.exch_timestamp {
                        // Once the status is final, the order does not change any more.
                        if !known.status.is_terminal() {
                            known.update(&order);
                        }
                    }
                },
                Entry::Vacant(entry) => {
                    // Nobody submitted this order here. It is kept all the same.
                    entry.insert(order);
                },
            }
        }
        proof {
            let a = asset_no as int;
            assert(self@.trade =~= old(self)@.trade);
            if answer is Ok {
                assert(self@.orders[a] =~= model::responded(old(self)@.orders[a], order));
                assert(self@.orders =~= old(self)@.orders.update(a, self@.orders[a]));
            } else {
                assert(self@.orders =~= old(self)@.orders);
            }
        }
        answer
    }

    /// Applies an order response that arrived at time `now`, after the order hook has seen it if
    /// it concerns an order that the bot knows.
    pub fn receive_order(&mut self, asset_no: usize, order: Order, now: i64) -> (r: Result<
        (),
        BotError,
    >)
        requires
            old(self)@.wf(),
        ensures
            final(self)@.wf(),
            asset_no >= old(self)@.assets.len() ==> final(self)@ == old(self)@ && r == Err::<
                (),
                BotError,
            >(BotError::AssetNotFound),
            asset_no < old(self)@.assets.len() ==> model::order_handled(
                old(self)@,
                asset_no as int,
                order,
                now,
                final(self)@,
                r,
            ),
    {
        if asset_no >= self.orders.len() {
            return Err(BotError::AssetNotFound);
        }
        let answer = match (&self.order_hook, self.orders[asset_no].get(&order.order_id)) {
            (Some(hook), Some(known)) => hook(known, &order),
            _ => Ok(()),
        };
        self.settle_order(asset_no, order, now, answer)
    }

    /// Applies an order response that arrived when the clock showed `reading`.
    pub fn receive_order_on(&mut self, asset_no: usize, order: Order, reading: Option<i64>) -> (r:
        Result<(), BotError>)
        requires
            old(self)@.wf(),
        ensures
            final(self)@.wf(),
            model::order_read(old(self)@, asset_no, order, reading, final(self)@, r),
    {
        if asset_no >= self.orders.len() {
            return Err(BotError::AssetNotFound);
        }
        match reading {
            Some(now) => self.receive_order(asset_no, order, now),
            None => Err(BotError::ClockOutOfRange),
        }
    }

    /// Handles an event of a connector. The result says whether the event ends a wait, be it for
    /// the next feed or for an order response.
    pub fn handle_event(
        &mut self,
        event: LiveEvent,
        wait_next_feed: bool,
        wait_order_response: WaitOrderResponse,
    ) -> (r: Result<bool, BotError>)
        requires
            old(self)@.wf(),
            event.addressed_within(old(self)@.assets.len()),
        ensures
            final(self)@.wf(),
            model::event_handled(
                old(self)@,
                event,
                wait_next_feed,
                wait_order_response,
                final(self)@,
                r,
            ),
    {
        match event {
            LiveEvent::FeedBatch { asset_no, events } => {
                self.feed_events(asset_no, &events);
                Ok(wait_next_feed)
            },
            LiveEvent::Feed { asset_no, event } => {
                self.feed_event(asset_no, &event);
                Ok(false)
            },
            LiveEvent::Order { asset_no, order } => {
                let reading = read_clock();
                match self.receive_order_on(asset_no, order, reading) {
                    Ok(()) => Ok(wait_order_response.is_answered_by(asset_no, order.order_id)),
                    Err(error) => Err(error),
                }
            },
            LiveEvent::Position { asset_no, qty } => {
                self.state[asset_no].position = qty;
                proof {
                    assert(self@.orders =~= old(self)@.orders);
                    assert(self@.trade =~= old(self)@.trade);
                }
                Ok(false)
            },
            LiveEvent::Error(error) => {
                if let Some(handler) = &self.error_handler {
                    match handler(error) {
                        Ok(()) => {},
                        Err(error) => {
                            return Err(error);
                        },
                    }
                }
                Ok(false)
            },
        }
    }

    /// Goes on with a look at the channels: takes what was received for the asset whose turn it
    /// is, and says what to do next.
    pub fn process_event(
        &mut self,
        sweep: Sweep,
        received: Result<Option<LiveEvent>, PubSubError>,
    ) -> (r: Result<Step, BotError>)
        requires
            old(self)@.wf(),
            sweep.wf(old(self)@.assets.len()),
            received matches Ok(Some(event)) ==> event.addressed_within(old(self)@.assets.len()),
        ensures
            final(self)@.wf(),
            final(self)@.assets == old(self)@.assets,
            model::processed(old(self)@, sweep, received, final(self)@, r),
            r matches Ok(step) ==> step.wf(final(self)@.assets.len()),
    {
        let assets: usize = self.pubsub.len();
        match received {
            Err(error) => Err(BotError::PubSub(error)),
            Ok(None) => Ok(sweep.advance(true, assets)),
            Ok(Some(event)) => {
                match self.handle_event(
                    event,
                    sweep.run.wait_next_feed,
                    sweep.run.wait_order_response,
                ) {
                    Ok(true) => Ok(Step::Return(true)),
                    Ok(false) => Ok(sweep.advance(false, assets)),
                    Err(error) => Err(error),
                }
            },
        }
    }

    /// Begins a wait of `duration` nanoseconds. A batch of market data ends it early if
    /// `WAIT_NEXT_FEED`, and so does the order response that is waited for.
    fn elapse_<const WAIT_NEXT_FEED: bool>(
        &self,
        duration: i64,
        wait_order_response: WaitOrderResponse,
    ) -> (r: Step)
        ensures
            r == (Run {
                wait_next_feed: WAIT_NEXT_FEED,
                duration,
                wait_order_response,
            }).first(),
            r.wf(self@.assets.len()),
    {
        Run { wait_next_feed: WAIT_NEXT_FEED, duration, wait_order_response }.start()
    }

    /// Begins a wait for the response to a request about an order.
    pub fn wait_order_response(&self, asset_no: usize, order_id: OrderId, timeout: i64) -> (r: Step)
        ensures
            r == (Run {
                wait_next_feed: false,
                duration: timeout,
                wait_order_response: WaitOrderResponse::Specified { asset_no, order_id },
            }).first(),
            r.wf(self@.assets.len()),
    {
        self.elapse_::<false>(timeout, WaitOrderResponse::Specified { asset_no, order_id })
    }

    /// Begins a wait for the next batch of market data, or also for any order response.
    pub fn wait_next_feed(&self, include_order_resp: bool, timeout: i64) -> (r: Step)
        ensures
            r == (Run {
                wait_next_feed: true,
                duration: timeout,
                wait_order_response: if include_order_resp {
                    WaitOrderResponse::Any
                } else {
                    WaitOrderResponse::Never
                },
            }).first(),
            r.wf(self@.assets.len()),
    {
        if include_order_resp {
            self.elapse_::<true>(timeout, WaitOrderResponse::Any)
        } else {
            self.elapse_::<true>(timeout, WaitOrderResponse::Never)
        }
    }

    /// Begins a wait that only time ends.
    pub fn elapse(&self, duration: i64) -> (r: Step)
        ensures
            r == (Run {
                wait_next_feed: false,
                duration,
                wait_order_response: WaitOrderResponse::Never,
            }).first(),
            r.wf(self@.assets.len()),
    {
        self.elapse_::<false>(duration, WaitOrderResponse::Never)
    }

    /// Time passes in a backtest only: nothing to do for a live bot.
    pub fn elapse_bt(&mut self, _duration: i64) -> (r: Result<bool, BotError>)
        ensures
            r == Ok::<bool, BotError>(true),
            *final(self) == *old(self),
    {
        Ok(true)
    }

    /// Ends the session: nothing to do for a live bot.
    pub fn close(&mut self) -> (r: Result<(), BotError>)
        ensures
            r == Ok::<(), BotError>(()),
            *final(self) == *old(self),
    {
        Ok(())
    }

    /// Submits an order at time `now`: files it and says what is to be published, and whether the
    /// caller waits for the response. An id that is still on file cannot be used again.
    pub fn submit_order_at(
        &mut self,
        asset_no: usize,
        order: OrderRequest,
        wait: bool,
        now: i64,
    ) -> (r: Result<Outgoing, BotError>)
        requires
            old(self)@.wf(),
        ensures
            final(self)@.wf(),
            model::submitted_at(old(self)@, asset_no, order, wait, now, final(self)@, r),
    {
        if asset_no >= self.orders.len() {
            return Err(BotError::AssetNotFound);
        }
        if self.orders[asset_no].contains_key(&order.order_id) {
            return Err(BotError::OrderIdExist);
        }
        let order = Order {
            order_id: order.order_id,
            price_tick: order.price_tick,
            qty: order.qty,
            leaves_qty: order.qty,
            tick_size: self.assets[asset_no].1.tick_size,
            side: order.side,
            time_in_force: order.time_in_force,
            order_type: order.order_type,
            status: Status::New,
            local_timestamp: now,
            req: Status::New,
            exec_price_tick: 0,
            exch_timestamp: 0,
            exec_qty: Real::zero(),
            maker: false,
        };
        self.orders[asset_no].insert(order.order_id, order);
        proof {
            assert(self@.orders =~= old(self)@.file_order(asset_no as int, order).orders);
            assert(self@.trade =~= old(self)@.trade);
        }
        Ok(
            Outgoing {
                channel: self.pubsub[asset_no],
                request: Request::Order { asset_no, order },
                wait,
            },
        )
    }

    /// Requests the cancellation of an order at time `now`: notes the request and says what is to
    /// be published, and whether the caller waits for the response.
    pub fn cancel_at(&mut self, asset_no: usize, order_id: OrderId, wait: bool, now: i64) -> (r:
        Result<Outgoing, BotError>)
        requires
            old(self)@.wf(),
        ensures
            final(self)@.wf(),
            model::cancelled_at(old(self)@, asset_no, order_id, wait, now, final(self)@, r),
    {
        if asset_no >= self.orders.len() {
            return Err(BotError::AssetNotFound);
        }
        let mut order = match self.orders[asset_no].get(&order_id) {
            Some(order) => *order,
            None => {
                return Err(BotError::OrderNotFound);
            },
        };
        if !order.cancellable() {
            return Err(BotError::InvalidOrderStatus);
        }
        order.req = Status::Canceled;
        order.local_timestamp = now;
        self.orders[asset_no].insert(order_id, order);
        proof {
            assert(self@.orders =~= old(self)@.file_order(asset_no as int, order).orders);
            assert(self@.trade =~= old(self)@.trade);
        }
        Ok(
            Outgoing {
                channel: self.pubsub[asset_no],
                request: Request::Order { asset_no, order },
                wait,
            },
        )
    }

    /// Submits an order when the clock shows `reading`. At a time that cannot be counted no order
    /// goes out.
    pub fn submit_order_on(
        &mut self,
        asset_no: usize,
        order: OrderRequest,
        wait: bool,
        reading: Option<i64>,
    ) -> (r: Result<Outgoing, BotError>)
        requires
            old(self)@.wf(),
        ensures
            final(self)@.wf(),
            model::submitted_on(old(self)@, asset_no, order, wait, reading, final(self)@, r),
    {
        match reading {
            Some(now) => self.submit_order_at(asset_no, order, wait, now),
            None => {
                if asset_no >= self.orders.len() {
                    Err(BotError::AssetNotFound)
                } else if self.orders[asset_no].contains_key(&order.order_id) {
                    Err(BotError::OrderIdExist)
                } else {
                    Err(BotError::ClockOutOfRange)
                }
            },
        }
    }

    /// Requests the cancellation of an order when the clock shows `reading`. At a time that cannot
    /// be counted no request goes out.
    pub fn cancel_on(
        &mut self,
        asset_no: usize,
        order_id: OrderId,
        wait: bool,
        reading: Option<i64>,
    ) -> (r: Result<Outgoing, BotError>)
        requires
            old(self)@.wf(),
        ensures
            final(self)@.wf(),
            model::cancelled_on(old(self)@, asset_no, order_id, wait, reading, final(self)@, r),
    {
        match reading {
            Some(now) => self.cancel_at(asset_no, order_id, wait, now),
            None => {
                if asset_no >= self.orders.len() {
                    return Err(BotError::AssetNotFound);
                }
                match self.orders[asset_no].get(&order_id) {
                    Some(order) => if order.cancellable() {
                        Err(BotError::ClockOutOfRange)
                    } else {
                        Err(BotError::InvalidOrderStatus)
                    },
                    None => Err(BotError::OrderNotFound),
                }
            },
        }
    }

    /// Submits an order now. What is refused is refused whatever the clock says.
    pub fn submit_order(&mut self, asset_no: usize, order: OrderRequest, wait: bool) -> (r: Result<
        Outgoing,
        BotError,
    >)
        requires
            old(self)@.wf(),
        ensures
            final(self)@.wf(),
            model::submit_handled(old(self)@, asset_no, order, wait, final(self)@, r),
    {
        if asset_no >= self.orders.len() {
            return Err(BotError::AssetNotFound);
        }
        if self.orders[asset_no].contains_key(&order.order_id) {
            return Err(BotError::OrderIdExist);
        }
        let reading = read_clock();
        self.submit_order_on(asset_no, order, wait, reading)
    }

    /// Submits a buy order now; `price_tick` is the price in ticks.
    pub fn submit_buy_order(
        &mut self,
        asset_no: usize,
        order_id: OrderId,
        price_tick: i64,
        qty: Real,
        time_in_force: TimeInForce,
        order_type: OrdType,
        wait: bool,
    ) -> (r: Result<Outgoing, BotError>)
        requires
            old(self)@.wf(),
        ensures
            final(self)@.wf(),
            model::submit_handled(
                old(self)@,
                asset_no,
                (OrderRequest {
                    order_id,
                    price_tick,
                    qty,
                    side: Side::Buy,
                    time_in_force,
                    order_type,
                }),
                wait,
                final(self)@,
                r,
            ),
            r matches Ok(outgoing) ==> (outgoing.request matches Request::Order { order, .. }
                ==> order.side == Side::Buy),
    {
        let order = OrderRequest {
            order_id,
            price_tick,
            qty,
            side: Side::Buy,
            time_in_force,
            order_type,
        };
        self.submit_order(asset_no, order, wait)
    }

    /// Submits a sell order now; `price_tick` is the price in ticks.
    pub fn submit_sell_order(
        &mut self,
        asset_no: usize,
        order_id: OrderId,
        price_tick: i64,
        qty: Real,
        time_in_force: TimeInForce,
        order_type: OrdType,
        wait: bool,
    ) -> (r: Result<Outgoing, BotError>)
        requires
            old(self)@.wf(),
        ensures
            final(self)@.wf(),
            model::submit_handled(
                old(self)@,
                asset_no,
                (OrderRequest {
                    order_id,
                    price_tick,
                    qty,
                    side: Side::Sell,
                    time_in_force,
                    order_type,
                }),
                wait,
                final(self)@,
                r,
            ),
            r matches Ok(outgoing) ==> (outgoing.request matches Request::Order { order, .. }
                ==> order.side == Side::Sell),
    {
        let order = OrderRequest {
            order_id,
            price_tick,
            qty,
            side: Side::Sell,
            time_in_force,
            order_type,
        };
        self.submit_order(asset_no, order, wait)
    }

    /// Requests the cancellation of an order now. What is refused is refused whatever the clock
    /// says.
    pub fn cancel(&mut self, asset_no: usize, order_id: OrderId, wait: bool) -> (r: Result<
        Outgoing,
        BotError,
    >)
        requires
            old(self)@.wf(),
        ensures
            final(self)@.wf(),
            model::cancel_handled(old(self)@, asset_no, order_id, wait, final(self)@, r),
    {
        if asset_no >= self.orders.len() {
            return Err(BotError::AssetNotFound);
        }
        match self.orders[asset_no].get(&order_id) {
            Some(order) => {
                if !order.cancellable() {
                    return Err(BotError::InvalidOrderStatus);
                }
            },
            None => {
                return Err(BotError::OrderNotFound);
            },
        }
        let reading = read_clock();
        self.cancel_on(asset_no, order_id, wait, reading)
    }

    /// Forgets the orders that no longer rest in the market, of one asset or of all. Nothing
    /// happens where the asset is unknown.
    pub fn clear_inactive_orders(&mut self, asset_no: Option<usize>)
        requires
            old(self)@.wf(),
        ensures
            final(self)@.wf(),
            final(self)@ == old(self)@.inactive_cleared(asset_no),
    {
        match asset_no {
            Some(asset_no) => {
                if asset_no < self.orders.len() {
                    retain_active(&mut self.orders[asset_no]);
                }
            },
            None => {
                let n: usize = self.orders.len();
                for i in 0..n
                    invariant
                        n == self.orders@.len(),
                        n == old(self).orders@.len(),
                        forall|j: int|
                            0 <= j < i ==> (#[trigger] self.orders@[j])@ == model::active_only(
                                old(self).orders@[j]@,
                            ),
                        forall|j: int|
                            i <= j < self.orders@.len() ==> (#[trigger] self.orders@[j]) == old(
                                self,
                            ).orders@[j],
                        *self == (LiveBot2 { orders: self.orders, ..*old(self) }),
                {
                    retain_active(&mut self.orders[i]);
                }
            },
        }
        proof {
            assert(self@.orders =~= old(self)@.inactive_cleared(asset_no).orders);
            assert(self@.trade =~= old(self)@.trade);
        }
    }

    /// Forgets the trades that were kept, of one asset or of all.
    pub fn clear_last_trades(&mut self, asset_no: Option<usize>)
        requires
            old(self)@.wf(),
            asset_no matches Some(a) ==> a < old(self)@.assets.len(),
        ensures
            final(self)@.wf(),
            final(self)@ == old(self)@.trades_cleared(asset_no),
    {
        match asset_no {
            Some(asset_no) => {
                self.trade[asset_no].clear();
            },
            None => {
                let n: usize = self.trade.len();
                for i in 0..n
                    invariant
                        n == self.trade@.len(),
                        n == old(self).trade@.len(),
                        forall|j: int|
                            0 <= j < i ==> (#[trigger] self.trade@[j])@ == Seq::<Event>::empty(),
                        *self == (LiveBot2 { trade: self.trade, ..*old(self) }),
                {
                    self.trade[i].clear();
                }
            },
        }
        proof {
            assert(self@.orders =~= old(self)@.orders);
            assert(self@.trade =~= old(self)@.trades_cleared(asset_no).trade);
        }
    }

    /// The current time in nanoseconds since the Unix epoch, as the system clock shows it; `None`
    /// when the clock shows a time that cannot be counted so.
    pub fn current_timestamp(&self) -> (r: Option<i64>)
        ensures
            crate::clock::given(r),
            r matches Some(now) ==> now >= 0,
    {
        read_clock()
    }

    /// The number of assets.
    pub fn num_assets(&self) -> (r: usize)
        requires
            self@.wf(),
        ensures
            r == self@.assets.len(),
    {
        self.state.len()
    }

    /// The position in an asset.
    pub fn position(&self, asset_no: usize) -> (r: Real)
        requires
            self@.wf(),
            asset_no < self@.assets.len(),
        ensures
            r == self@.state[asset_no as int].position,
    {
        self.state_values(asset_no).position
    }

    /// What the bot tracks of the holdings in an asset.
    pub fn state_values(&self, asset_no: usize) -> (r: &StateValues)
        requires
            self@.wf(),
            asset_no < self@.assets.len(),
        ensures
            *r == self@.state[asset_no as int],
    {
        &self.state[asset_no]
    }

    /// The order book of an asset.
    pub fn depth(&self, asset_no: usize) -> (r: &MD)
        requires
            self@.wf(),
            asset_no < self@.assets.len(),
        ensures
            *r == self@.depth[asset_no as int],
    {
        &self.depth[asset_no]
    }

    /// The trades of an asset that were kept.
    pub fn last_trades(&self, asset_no: usize) -> (r: &[Event])
        requires
            self@.wf(),
            asset_no < self@.assets.len(),
        ensures
            r@ == self@.trade[asset_no as int],
    {
        self.trade[asset_no].as_slice()
    }

    /// The orders of an asset.
    pub fn orders(&self, asset_no: usize) -> (r: &HashMap<OrderId, Order>)
        requires
            self@.wf(),
            asset_no < self@.assets.len(),
        ensures
            r@ == self@.orders[asset_no as int],
    {
        &self.orders[asset_no]
    }

    /// The exchange's and the local time of the last market data of an asset.
    pub fn feed_latency(&self, asset_no: usize) -> (r: Option<(i64, i64)>)
        requires
            self@.wf(),
            asset_no < self@.assets.len(),
        ensures
            r == self@.last_feed_latency[asset_no as int],
    {
        self.last_feed_latency[asset_no]
    }

    /// When the last order response of an asset was requested, processed and received.
    pub fn order_latency(&self, asset_no: usize) -> (r: Option<(i64, i64, i64)>)
        requires
            self@.wf(),
            asset_no < self@.assets.len(),
        ensures
            r == self@.last_order_latency[asset_no as int],
    {
        self.last_order_latency[asset_no]
    }

    /// The minimum price fluctuation of an asset, by which a price is turned into ticks.
    pub fn tick_size(&self, asset_no: usize) -> (r: Result<Real, BotError>)
        requires
            self@.wf(),
        ensures
            r == if asset_no < self@.assets.len() {
                Ok::<Real, BotError>(self@.assets[asset_no as int].1.tick_size)
            } else {
                Err::<Real, BotError>(BotError::AssetNotFound)
            },
    {
        if asset_no < self.assets.len() {
            Ok(self.assets[asset_no].1.tick_size)
        } else {
            Err(BotError::AssetNotFound)
        }
    }

    /// The channel of an asset, as its place among the distinct connectors.
    pub fn channel(&self, asset_no: usize) -> (r: usize)
        requires
            self@.wf(),
            asset_no < self@.assets.len(),
        ensures
            r == self@.pubsub[asset_no as int],
    {
        self.pubsub[asset_no]
    }
}

/// Drops the orders that no longer rest in the market.
fn retain_active(orders: &mut HashMap<OrderId, Order>)
    ensures
        final(orders)@ == model::active_only(old(orders)@),
{
    let ghost before = orders@;
    let mut stale: Vec<OrderId> = Vec::new();
    for id in it: orders.keys()
        invariant
            orders@ == before,
            it.seq().unref().to_set() == before.dom(),
            forall|i: int|
                0 <= i < it.index() ==> before[*#[trigger] it.seq()[i]].is_active()
                    || stale@.contains(*it.seq()[i]),
            forall|j: int|
                0 <= j < stale@.len() ==> before.contains_key(#[trigger] stale@[j])
                    && !before[stale@[j]].is_active(),
    {
        let ghost kept = stale@;
        assert(it.seq().unref()[it.index()] == *id);
        assert(before.dom().contains(*id));
        if let Some(order) = orders.get(id) {
            if !order.active() {
                stale.push(*id);
                assert(stale@.last() == *id);
                assert forall|other: OrderId| kept.contains(other) implies stale@.contains(other) by {
                    assert(stale@[kept.index_of(other)] == other);
                }
            }
        }
    }
    assert forall|id: OrderId| before.contains_key(id) && !before[id].is_active() implies
        stale@.contains(id) by {}
    let n: usize = stale.len();
    for i in 0..n
        invariant
            n == stale@.len(),
            forall|id: OrderId| #[trigger]
                orders@.contains_key(id) ==> before.contains_key(id) && orders@[id] == before[id],
            forall|id: OrderId|
                before.contains_key(id) && before[id].is_active() ==> #[trigger] orders@.contains_key(
                    id,
                ),
            forall|j: int| 0 <= j < i ==> !orders@.contains_key(#[trigger] stale@[j]),
            forall|j: int|
                0 <= j < stale@.len() ==> before.contains_key(#[trigger] stale@[j])
                    && !before[stale@[j]].is_active(),
    {
        orders.remove(&stale[i]);
    }
    assert(orders@ =~= model::active_only(before));
}

} // verus!
