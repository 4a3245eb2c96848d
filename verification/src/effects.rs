//! What each operation does, told by what goes in, what comes out and what is left behind.
use crate::builder;
use crate::depth::L2MarketDepth;
use crate::errors::{BotError, PubSubError};
use crate::model;
use crate::model::BotModel;
use crate::run::{CycleEnd, Outgoing, Pause, Run, Step, Sweep, SweepStart, Wakeup};
use crate::types::{
    Asset, Event, LiveError, LiveEvent, Order, OrderId, OrderRequest, Real, Request, Status,
    WaitOrderResponse, BUY_EVENT, DEPTH_EVENT, LOCAL_ASK_DEPTH_EVENT,
    LOCAL_BID_DEPTH_EVENT, LOCAL_BUY_TRADE_EVENT, LOCAL_EVENT, LOCAL_SELL_TRADE_EVENT, SELL_EVENT,
    TRADE_EVENT,
};
use vstd::prelude::*;

verus! {

/// What the flags and the low byte of an event make of it.
pub proof fn sorts_of_events(event: Event)
    ensures
        event.matches_kind(LOCAL_BID_DEPTH_EVENT) <==> {
            &&& event.ev & LOCAL_EVENT == LOCAL_EVENT
            &&& event.ev & BUY_EVENT == BUY_EVENT
            &&& event.ev & 0xff == DEPTH_EVENT
        },
        event.matches_kind(LOCAL_ASK_DEPTH_EVENT) <==> {
            &&& event.ev & LOCAL_EVENT == LOCAL_EVENT
            &&& event.ev & SELL_EVENT == SELL_EVENT
            &&& event.ev & 0xff == DEPTH_EVENT
        },
        event.matches_kind(LOCAL_BUY_TRADE_EVENT) <==> {
            &&& event.ev & LOCAL_EVENT == LOCAL_EVENT
            &&& event.ev & BUY_EVENT == BUY_EVENT
            &&& event.ev & 0xff == TRADE_EVENT
        },
        event.matches_kind(LOCAL_SELL_TRADE_EVENT) <==> {
            &&& event.ev & LOCAL_EVENT == LOCAL_EVENT
            &&& event.ev & SELL_EVENT == SELL_EVENT
            &&& event.ev & 0xff == TRADE_EVENT
        },
{
    let ev = event.ev;
    assert(ev & LOCAL_BID_DEPTH_EVENT == LOCAL_BID_DEPTH_EVENT && ev & 0xff
        == LOCAL_BID_DEPTH_EVENT & 0xff <==> ev & LOCAL_EVENT == LOCAL_EVENT && ev & BUY_EVENT
        == BUY_EVENT && ev & 0xff == DEPTH_EVENT) by (bit_vector);
    assert(ev & LOCAL_ASK_DEPTH_EVENT == LOCAL_ASK_DEPTH_EVENT && ev & 0xff
        == LOCAL_ASK_DEPTH_EVENT & 0xff <==> ev & LOCAL_EVENT == LOCAL_EVENT && ev & SELL_EVENT
        == SELL_EVENT && ev & 0xff == DEPTH_EVENT) by (bit_vector);
    assert(ev & LOCAL_BUY_TRADE_EVENT == LOCAL_BUY_TRADE_EVENT && ev & 0xff
        == LOCAL_BUY_TRADE_EVENT & 0xff <==> ev & LOCAL_EVENT == LOCAL_EVENT && ev & BUY_EVENT
        == BUY_EVENT && ev & 0xff == TRADE_EVENT) by (bit_vector);
    assert(ev & LOCAL_SELL_TRADE_EVENT == LOCAL_SELL_TRADE_EVENT && ev & 0xff
        == LOCAL_SELL_TRADE_EVENT & 0xff <==> ev & LOCAL_EVENT == LOCAL_EVENT && ev & SELL_EVENT
        == SELL_EVENT && ev & 0xff == TRADE_EVENT) by (bit_vector);
    assert(LOCAL_BID_DEPTH_EVENT & 0xff != 0 && LOCAL_ASK_DEPTH_EVENT & 0xff != 0
        && LOCAL_BUY_TRADE_EVENT & 0xff != 0 && LOCAL_SELL_TRADE_EVENT & 0xff != 0) by (bit_vector);
}

/// Where an event says what it is: bit 30 makes it a local one, bit 29 one of the buy side and bit 28
/// one of the sell side; its low byte is 1 for a change of a price level and 2 for a trade.
pub proof fn places_of_the_bits(event: Event)
    ensures
        ({
            let local = (event.ev >> 30) % 2 == 1;
            let buy = (event.ev >> 29) % 2 == 1;
            let sell = (event.ev >> 28) % 2 == 1;
            &&& event.matches_kind(LOCAL_BID_DEPTH_EVENT) <==> local && buy && event.ev % 256 == 1
            &&& event.matches_kind(LOCAL_ASK_DEPTH_EVENT) <==> local && sell && event.ev % 256 == 1
            &&& event.matches_kind(LOCAL_BUY_TRADE_EVENT) <==> local && buy && event.ev % 256 == 2
            &&& event.matches_kind(LOCAL_SELL_TRADE_EVENT) <==> local && sell && event.ev % 256 == 2
        }),
{
    let ev = event.ev;
    sorts_of_events(event);
    assert(ev & LOCAL_EVENT == LOCAL_EVENT <==> (ev >> 30) % 2 == 1) by (bit_vector);
    assert(ev & BUY_EVENT == BUY_EVENT <==> (ev >> 29) % 2 == 1) by (bit_vector);
    assert(ev & SELL_EVENT == SELL_EVENT <==> (ev >> 28) % 2 == 1) by (bit_vector);
    assert(ev & 0xff == ev % 256) by (bit_vector);
}

/// An event is of a sort if every bit of the sort is set and the low byte is that of the sort; a
/// sort whose low byte is zero leaves the low byte open.
pub proof fn bits_of_events(event: Event, sort: u64)
    ensures
        event.matches_kind(sort) <==> event.ev | sort == event.ev && (sort & 0xff == 0
            || event.ev & 0xff == sort & 0xff),
{
    let ev = event.ev;
    assert(ev & sort == sort <==> ev | sort == ev) by (bit_vector);
}

/// A single event of a feed, whatever its price, quantity and time. A change of a bid goes into the
/// book of the asset as a change of a bid, any other change of an ask as a change of an ask, with
/// the event's own values; nothing else touches a book. A trade becomes the last of the trades that
/// are stored and pushes out the oldest where there is no room; nothing else touches the trades.
/// The times of the event become the feed latency. It never ends a wait.
pub proof fn feed_reaches_the_asset<
    MD: L2MarketDepth,
    H: Fn(LiveError) -> Result<(), BotError>,
    K: Fn(&Order, &Order) -> Result<(), BotError>,
>(
    pre: BotModel<MD, H, K>,
    asset_no: usize,
    event: Event,
    wait_next_feed: bool,
    wait_order_response: WaitOrderResponse,
    post: BotModel<MD, H, K>,
    result: Result<bool, BotError>,
)
    requires
        pre.wf(),
        asset_no < pre.assets.len(),
        model::event_handled(
            pre,
            (LiveEvent::Feed { asset_no, event }),
            wait_next_feed,
            wait_order_response,
            post,
            result,
        ),
    ensures
        post.wf(),
        result == Ok::<bool, BotError>(false),
        ({
            let a = asset_no as int;
            let local = event.ev & LOCAL_EVENT == LOCAL_EVENT;
            let buy = event.ev & BUY_EVENT == BUY_EVENT;
            let sell = event.ev & SELL_EVENT == SELL_EVENT;
            let bid = local && buy && event.ev & 0xff == DEPTH_EVENT;
            let ask = local && sell && event.ev & 0xff == DEPTH_EVENT;
            let trade = local && (buy || sell) && event.ev & 0xff == TRADE_EVENT;
            let (before, after) = (pre.trade[a], post.trade[a]);
            &&& bid ==> MD::bid_updated(
                pre.depth[a],
                event.px,
                event.qty,
                event.exch_ts,
                post.depth[a],
            )
            &&& ask && !bid ==> MD::ask_updated(
                pre.depth[a],
                event.px,
                event.qty,
                event.exch_ts,
                post.depth[a],
            )
            &&& !bid && !ask ==> post.depth[a] == pre.depth[a]
            &&& post.depth == pre.depth.update(a, post.depth[a])
            &&& trade && before.len() < pre.last_trades_capacity ==> after == before.push(event)
            &&& trade && before.len() == pre.last_trades_capacity > 0 ==> after
                == before.drop_first().push(event)
            &&& !trade || pre.last_trades_capacity == 0 ==> after == before
            &&& post.trade == pre.trade.update(a, after)
            &&& post.last_feed_latency == pre.last_feed_latency.update(
                a,
                Some((event.exch_ts, event.local_ts)),
            )
        }),
        post == (BotModel {
            depth: post.depth,
            trade: post.trade,
            last_feed_latency: post.last_feed_latency,
            ..pre
        }),
{
    sorts_of_events(event);
    reveal_with_fuel(Seq::filter, 2);
    let a = asset_no as int;
    let events = seq![event];
    assert(events.drop_last() =~= Seq::<Event>::empty());
    let books = choose|books: Seq<MD>| #[trigger]
        model::book_history(books, events) && books.first() == pre.depth[a] && books.last()
            == post.depth[a];
    assert(model::book_step(books[0], events[0], books[1]));
    assert(post.trade =~= pre.trade.update(a, post.trade[a]));
    assert(model::trades_of(events) =~= if event.is_trade() {
        seq![event]
    } else {
        Seq::empty()
    });
    let after = pre.trade[a] + model::trades_of(events);
    if event.is_trade() {
        assert(after =~= pre.trade[a].push(event));
        if pre.trade[a].len() == pre.last_trades_capacity && pre.last_trades_capacity > 0 {
            assert(post.trade[a] =~= pre.trade[a].drop_first().push(event));
        }
        if pre.last_trades_capacity == 0 {
            assert(post.trade[a] =~= pre.trade[a]);
        }
    } else {
        assert(after =~= pre.trade[a]);
    }
}

/// A batch does what its events do when they are received one by one in their order, each from the
/// state that the one before it left; `states` are these states. The batch ends a wait for market
/// data and no other.
pub proof fn batch_is_its_events<
    MD: L2MarketDepth,
    H: Fn(LiveError) -> Result<(), BotError>,
    K: Fn(&Order, &Order) -> Result<(), BotError>,
>(
    pre: BotModel<MD, H, K>,
    asset_no: usize,
    events: Vec<Event>,
    wait_next_feed: bool,
    wait_order_response: WaitOrderResponse,
    post: BotModel<MD, H, K>,
    result: Result<bool, BotError>,
) -> (states: Seq<BotModel<MD, H, K>>)
    requires
        pre.wf(),
        events@.len() == 0 || asset_no < pre.assets.len(),
        model::event_handled(
            pre,
            (LiveEvent::FeedBatch { asset_no, events }),
            wait_next_feed,
            wait_order_response,
            post,
            result,
        ),
    ensures
        result == Ok::<bool, BotError>(wait_next_feed),
        states.len() == events@.len() + 1,
        states.first() == pre,
        states.last() == post,
        forall|i: int|
            0 <= i < events@.len() ==> model::event_handled(
                states[i],
                (LiveEvent::Feed { asset_no, event: #[trigger] events@[i] }),
                wait_next_feed,
                wait_order_response,
                states[i + 1],
                Ok(false),
            ),
        forall|i: int| 0 <= i < states.len() ==> (#[trigger] states[i]).wf() && states[i].assets
            == pre.assets,
{
    one_by_one(pre, asset_no as int, events@, post)
}

/// The states that a batch goes through.
proof fn one_by_one<
    MD: L2MarketDepth,
    H: Fn(LiveError) -> Result<(), BotError>,
    K: Fn(&Order, &Order) -> Result<(), BotError>,
>(pre: BotModel<MD, H, K>, asset_no: int, events: Seq<Event>, post: BotModel<MD, H, K>) -> (states: Seq<
    BotModel<MD, H, K>,
>)
    requires
        pre.wf(),
        events.len() == 0 || 0 <= asset_no < pre.assets.len(),
        model::fed(pre, asset_no, events, post),
    ensures
        states.len() == events.len() + 1,
        states.first() == pre,
        states.last() == post,
        forall|i: int|
            0 <= i < events.len() ==> model::fed(
                states[i],
                asset_no,
                seq![#[trigger] events[i]],
                states[i + 1],
            ),
        forall|i: int| 0 <= i < states.len() ==> (#[trigger] states[i]).wf() && states[i].assets
            == pre.assets,
    decreases events.len(),
{
    if events.len() == 0 {
        seq![pre]
    } else {
        let before = events.drop_last();
        assert(before + seq![events.last()] =~= events);
        let mid = crate::laws::batches_split(pre, asset_no, before, seq![events.last()], post);
        let states = one_by_one(pre, asset_no, before, mid);
        let all = states.push(post);
        assert forall|i: int| 0 <= i < events.len() implies model::fed(
            all[i],
            asset_no,
            seq![#[trigger] events[i]],
            all[i + 1],
        ) by {
            if i < before.len() {
                assert(before[i] == events[i]);
            }
        }
        all
    }
}

/// What a response leaves behind. It is noted in the order latency in any case. If it is vetoed, no
/// order changes. Otherwise it is filed, in every field as it came, if nothing is known of the order
/// or if what is known is neither newer nor final; and no order changes if what is known is newer,
/// or is canceled, expired or filled.
pub proof fn responses_are_taken_over<MD, H, K>(
    pre: BotModel<MD, H, K>,
    asset_no: int,
    response: Order,
    now: i64,
    vetoed: bool,
    post: BotModel<MD, H, K>,
)
    requires
        0 <= asset_no < pre.orders.len(),
        post == pre.order_received(asset_no, response, now, vetoed),
    ensures
        post.last_order_latency == pre.last_order_latency.update(
            asset_no,
            Some((response.local_timestamp, response.exch_timestamp, now)),
        ),
        vetoed ==> post.orders == pre.orders,
        ({
            let orders = pre.orders[asset_no];
            let id = response.order_id;
            let known = orders[id];
            let is_final = known.status == Status::Canceled || known.status == Status::Expired
                || known.status == Status::Filled;
            let filed = pre.orders.update(asset_no, orders.insert(id, response));
            &&& !vetoed && !orders.contains_key(id) ==> post.orders == filed
            &&& !vetoed && orders.contains_key(id) && !is_final && response.exch_timestamp
                >= known.exch_timestamp ==> post.orders == filed && post.orders[asset_no][id]
                == response && post.orders[asset_no][id].leaves_qty == response.leaves_qty
                && post.orders[asset_no][id].exec_qty == response.exec_qty
            &&& orders.contains_key(id) && (is_final || response.exch_timestamp
                < known.exch_timestamp) ==> post.orders == pre.orders
        }),
        post == (BotModel {
            orders: post.orders,
            last_order_latency: post.last_order_latency,
            ..pre
        }),
{
    let orders = pre.orders[asset_no];
    let id = response.order_id;
    if orders.contains_key(id) {
        assert(orders.insert(id, orders[id]) =~= orders);
    }
    assert(pre.orders.update(asset_no, orders) =~= pre.orders);
}

/// Who decides on a response. Where a hook is set and the order is known, the hook is shown what is
/// known and what has come, its answer is the result, and its refusal vetoes the response. In every
/// other case the response is accepted.
pub proof fn hooks_decide_on_responses<
    MD: L2MarketDepth,
    H: Fn(LiveError) -> Result<(), BotError>,
    K: Fn(&Order, &Order) -> Result<(), BotError>,
>(
    pre: BotModel<MD, H, K>,
    asset_no: int,
    response: Order,
    now: i64,
    post: BotModel<MD, H, K>,
    result: Result<(), BotError>,
)
    requires
        pre.wf(),
        0 <= asset_no < pre.assets.len(),
        model::order_handled(pre, asset_no, response, now, post, result),
    ensures
        post == pre.order_received(asset_no, response, now, result is Err),
        match pre.order_hook {
            Some(hook) => if pre.orders[asset_no].contains_key(response.order_id) {
                call_ensures(
                    hook,
                    (&pre.orders[asset_no][response.order_id], &response),
                    result,
                )
            } else {
                result is Ok
            },
            None => result is Ok,
        },
        ({
            let known = pre.orders[asset_no][response.order_id];
            &&& result is Ok && pre.orders[asset_no].contains_key(response.order_id)
                && known.status != Status::Canceled && known.status != Status::Expired
                && known.status != Status::Filled && response.exch_timestamp
                >= known.exch_timestamp ==> post.orders[asset_no][response.order_id] == response
        }),
{
}

/// An order response as a connector sends it. One for an unknown asset is refused. Otherwise the
/// clock is asked: at a time that cannot be counted the response is refused, and at any other it is
/// handled at that time. If the hook does not refuse it, it ends the wait exactly if any response
/// is waited for, or one about this very order of this asset.
pub proof fn responses_end_their_waits<
    MD: L2MarketDepth,
    H: Fn(LiveError) -> Result<(), BotError>,
    K: Fn(&Order, &Order) -> Result<(), BotError>,
>(
    pre: BotModel<MD, H, K>,
    asset_no: usize,
    order: Order,
    wait_next_feed: bool,
    wait_order_response: WaitOrderResponse,
    post: BotModel<MD, H, K>,
    result: Result<bool, BotError>,
)
    requires
        model::event_handled(
            pre,
            (LiveEvent::Order { asset_no, order }),
            wait_next_feed,
            wait_order_response,
            post,
            result,
        ),
    ensures
        asset_no >= pre.assets.len() ==> post == pre && result == Err::<bool, BotError>(
            BotError::AssetNotFound,
        ),
        asset_no < pre.assets.len() ==> exists|reading: Option<i64>| #[trigger]
            crate::clock::given(reading) && match reading {
                None => post == pre && result == Err::<bool, BotError>(BotError::ClockOutOfRange),
                Some(now) => exists|answer: Result<(), BotError>| #[trigger]
                    model::order_handled(pre, asset_no as int, order, now, post, answer) && (
                    answer is Ok <==> result is Ok) && (answer matches Err(error) ==> result == Err::<
                        bool,
                        BotError,
                    >(error)),
            },
        result matches Ok(ended) ==> ended == (wait_order_response == WaitOrderResponse::Any
            || wait_order_response == (WaitOrderResponse::Specified {
            asset_no,
            order_id: order.order_id,
        })),
{
    if asset_no < pre.assets.len() {
        let (reading, answer) = choose|reading: Option<i64>, answer: Result<(), BotError>|
            model::shown_by_clock(reading) && #[trigger] model::order_read(
                pre,
                asset_no,
                order,
                reading,
                post,
                answer,
            ) && result == model::passed_on(
                answer,
                wait_order_response.awaits(asset_no, order.order_id),
            );
        assert(crate::clock::given(reading));
    }
}

/// A response that a connector sends reaches the order that it is about: unless what is known of the
/// order is newer or final, what is known afterwards is the response as it came, in every field.
pub proof fn responses_reach_their_orders<
    MD: L2MarketDepth,
    H: Fn(LiveError) -> Result<(), BotError>,
    K: Fn(&Order, &Order) -> Result<(), BotError>,
>(
    pre: BotModel<MD, H, K>,
    asset_no: usize,
    order: Order,
    wait_next_feed: bool,
    wait_order_response: WaitOrderResponse,
    post: BotModel<MD, H, K>,
    ended: bool,
)
    requires
        pre.wf(),
        asset_no < pre.assets.len(),
        model::event_handled(
            pre,
            (LiveEvent::Order { asset_no, order }),
            wait_next_feed,
            wait_order_response,
            post,
            Ok(ended),
        ),
    ensures
        ({
            let (before, after) = (pre.orders[asset_no as int], post.orders[asset_no as int]);
            let known = before[order.order_id];
            let kept = before.contains_key(order.order_id) && (known.exch_timestamp
                > order.exch_timestamp || known.status == Status::Canceled || known.status
                == Status::Expired || known.status == Status::Filled);
            &&& after.contains_key(order.order_id)
            &&& after[order.order_id] == if kept {
                known
            } else {
                order
            }
            &&& after.remove(order.order_id) == before.remove(order.order_id)
        }),
{
    assert(post.orders[asset_no as int].remove(order.order_id)
        =~= pre.orders[asset_no as int].remove(order.order_id));
}

/// An order response when the clock shows `reading`.
pub proof fn responses_need_a_time<
    MD: L2MarketDepth,
    H: Fn(LiveError) -> Result<(), BotError>,
    K: Fn(&Order, &Order) -> Result<(), BotError>,
>(
    pre: BotModel<MD, H, K>,
    asset_no: usize,
    order: Order,
    reading: Option<i64>,
    post: BotModel<MD, H, K>,
    result: Result<(), BotError>,
)
    requires
        model::order_read(pre, asset_no, order, reading, post, result),
    ensures
        asset_no >= pre.assets.len() ==> post == pre && result == Err::<(), BotError>(
            BotError::AssetNotFound,
        ),
        asset_no < pre.assets.len() ==> match reading {
            None => post == pre && result == Err::<(), BotError>(BotError::ClockOutOfRange),
            Some(now) => model::order_handled(pre, asset_no as int, order, now, post, result),
        },
{
}

/// A position that a connector reports becomes the position in that asset, and nothing else changes.
pub proof fn positions_are_taken_over<
    MD: L2MarketDepth,
    H: Fn(LiveError) -> Result<(), BotError>,
    K: Fn(&Order, &Order) -> Result<(), BotError>,
>(
    pre: BotModel<MD, H, K>,
    asset_no: usize,
    qty: Real,
    wait_next_feed: bool,
    wait_order_response: WaitOrderResponse,
    post: BotModel<MD, H, K>,
    result: Result<bool, BotError>,
)
    requires
        pre.wf(),
        asset_no < pre.assets.len(),
        model::event_handled(
            pre,
            (LiveEvent::Position { asset_no, qty }),
            wait_next_feed,
            wait_order_response,
            post,
            result,
        ),
    ensures
        result == Ok::<bool, BotError>(false),
        post.state[asset_no as int].position == qty,
        post.state == pre.state.update(asset_no as int, post.state[asset_no as int]),
        post == (BotModel { state: post.state, ..pre }),
{
}

/// An error that a connector reports changes nothing. It is shown to the handler, if there is one,
/// whose refusal becomes the result.
pub proof fn errors_go_to_the_handler<
    MD: L2MarketDepth,
    H: Fn(LiveError) -> Result<(), BotError>,
    K: Fn(&Order, &Order) -> Result<(), BotError>,
>(
    pre: BotModel<MD, H, K>,
    error: LiveError,
    wait_next_feed: bool,
    wait_order_response: WaitOrderResponse,
    post: BotModel<MD, H, K>,
    result: Result<bool, BotError>,
)
    requires
        model::event_handled(
            pre,
            LiveEvent::Error(error),
            wait_next_feed,
            wait_order_response,
            post,
            result,
        ),
    ensures
        post == pre,
        result != Ok::<bool, BotError>(true),
        pre.error_handler is None ==> result == Ok::<bool, BotError>(false),
        pre.error_handler matches Some(handler) ==> exists|answer: Result<(), BotError>| #[trigger]
            call_ensures(handler, (error,), answer) && match answer {
                Ok(_) => result == Ok::<bool, BotError>(false),
                Err(refusal) => result == Err::<bool, BotError>(refusal),
            },
{
}

/// What is received for an asset during a look at the channels. A fault of the transport is
/// reported, and silence changes nothing. An event is handled on the terms of the wait: an error is
/// reported, an event that ends the wait ends it, and any other leads on to the next channel.
pub proof fn channels_are_worked_off<
    MD: L2MarketDepth,
    H: Fn(LiveError) -> Result<(), BotError>,
    K: Fn(&Order, &Order) -> Result<(), BotError>,
>(
    pre: BotModel<MD, H, K>,
    sweep: Sweep,
    received: Result<Option<LiveEvent>, PubSubError>,
    post: BotModel<MD, H, K>,
    result: Result<Step, BotError>,
)
    requires
        model::processed(pre, sweep, received, post, result),
    ensures
        received matches Err(fault) ==> post == pre && result == Err::<Step, BotError>(
            BotError::PubSub(fault),
        ),
        received matches Ok(None) ==> post == pre && result == Ok::<Step, BotError>(
            sweep.after(true, pre.assets.len()),
        ),
        received matches Ok(Some(event)) ==> match result {
            Err(error) => model::event_handled(
                pre,
                event,
                sweep.run.wait_next_feed,
                sweep.run.wait_order_response,
                post,
                Err(error),
            ),
            Ok(Step::Return(value)) => value && model::event_handled(
                pre,
                event,
                sweep.run.wait_next_feed,
                sweep.run.wait_order_response,
                post,
                Ok(true),
            ),
            Ok(step) => step == sweep.after(false, pre.assets.len()) && model::event_handled(
                pre,
                event,
                sweep.run.wait_next_feed,
                sweep.run.wait_order_response,
                post,
                Ok(false),
            ),
        },
{
}

/// A submission at time `now`. It is refused for an unknown asset, and for an id that is on file for
/// that asset; then nothing changes. Otherwise an order goes out on the channel of the asset that is
/// what was asked for, field by field, whatever its type and side: with all of its quantity left,
/// the tick size of the asset, and the request noted at that time. The very same order is filed, and
/// nothing else changes.
pub proof fn submissions_go_out_as_asked<
    MD: L2MarketDepth,
    H: Fn(LiveError) -> Result<(), BotError>,
    K: Fn(&Order, &Order) -> Result<(), BotError>,
>(
    pre: BotModel<MD, H, K>,
    asset_no: usize,
    wanted: OrderRequest,
    wait: bool,
    now: i64,
    post: BotModel<MD, H, K>,
    result: Result<Outgoing, BotError>,
)
    requires
        pre.wf(),
        model::submitted_at(pre, asset_no, wanted, wait, now, post, result),
    ensures
        asset_no >= pre.assets.len() ==> post == pre && result == Err::<Outgoing, BotError>(
            BotError::AssetNotFound,
        ),
        asset_no < pre.assets.len() && pre.orders[asset_no as int].contains_key(wanted.order_id)
            ==> post == pre && result == Err::<Outgoing, BotError>(BotError::OrderIdExist),
        asset_no < pre.assets.len() && !pre.orders[asset_no as int].contains_key(wanted.order_id)
            ==> {
            let a = asset_no as int;
            let order = post.orders[a][wanted.order_id];
            &&& order.order_id == wanted.order_id
            &&& order.price_tick == wanted.price_tick
            &&& order.qty == wanted.qty
            &&& order.leaves_qty == wanted.qty
            &&& order.tick_size == pre.assets[a].1.tick_size
            &&& order.side == wanted.side
            &&& order.time_in_force == wanted.time_in_force
            &&& order.order_type == wanted.order_type
            &&& order.status == Status::New
            &&& order.local_timestamp == now
            &&& order.req == Status::New
            &&& order.exec_price_tick == 0
            &&& order.exch_timestamp == 0
            &&& order.exec_qty.bits == 0
            &&& !order.maker
            &&& post == (BotModel {
                orders: pre.orders.update(a, pre.orders[a].insert(wanted.order_id, order)),
                ..pre
            })
            &&& result == Ok::<Outgoing, BotError>(
                Outgoing {
                    channel: pre.pubsub[a],
                    request: Request::Order { asset_no, order },
                    wait,
                },
            )
        },
{
}

/// A submission when the clock shows `reading`: it happens at that time, and where the time cannot
/// be counted, one that would go out otherwise is refused and nothing changes.
pub proof fn submissions_need_a_time<MD, H, K>(
    pre: BotModel<MD, H, K>,
    asset_no: usize,
    wanted: OrderRequest,
    wait: bool,
    reading: Option<i64>,
    post: BotModel<MD, H, K>,
    result: Result<Outgoing, BotError>,
)
    requires
        model::submitted_on(pre, asset_no, wanted, wait, reading, post, result),
    ensures
        reading matches Some(now) ==> model::submitted_at(
            pre,
            asset_no,
            wanted,
            wait,
            now,
            post,
            result,
        ),
        reading is None ==> post == pre && result == Err::<Outgoing, BotError>(
            if asset_no >= pre.assets.len() {
                BotError::AssetNotFound
            } else if pre.orders[asset_no as int].contains_key(wanted.order_id) {
                BotError::OrderIdExist
            } else {
                BotError::ClockOutOfRange
            },
        ),
{
}

/// A submission happens at the time that the clock gave when it was asked: there is such a reading,
/// and what is done is what is done on that reading.
pub proof fn submissions_ask_the_clock<MD, H, K>(
    pre: BotModel<MD, H, K>,
    asset_no: usize,
    wanted: OrderRequest,
    wait: bool,
    post: BotModel<MD, H, K>,
    result: Result<Outgoing, BotError>,
)
    requires
        model::submit_handled(pre, asset_no, wanted, wait, post, result),
    ensures
        asset_no >= pre.assets.len() ==> post == pre && result == Err::<Outgoing, BotError>(
            BotError::AssetNotFound,
        ),
        asset_no < pre.assets.len() && pre.orders[asset_no as int].contains_key(wanted.order_id)
            ==> post == pre && result == Err::<Outgoing, BotError>(BotError::OrderIdExist),
        asset_no < pre.assets.len() && !pre.orders[asset_no as int].contains_key(wanted.order_id)
            ==> exists|reading: Option<i64>| #[trigger]
            crate::clock::given(reading) && match reading {
                Some(now) => result is Ok && model::submitted_at(
                    pre,
                    asset_no,
                    wanted,
                    wait,
                    now,
                    post,
                    result,
                ),
                None => post == pre && result == Err::<Outgoing, BotError>(
                    BotError::ClockOutOfRange,
                ),
            },
{
    if pre.submit_refusal(asset_no, wanted.order_id) is None {
        let reading = choose|reading: Option<i64>|
            model::shown_by_clock(reading) && #[trigger] model::submitted_on(
                pre,
                asset_no,
                wanted,
                wait,
                reading,
                post,
                result,
            );
        assert(crate::clock::given(reading));
    }
}

/// What is published of a submission is what was asked for: the order, on the channel of its asset,
/// with the id, the price, the quantity, the side, the time in force and the type of the request, at
/// a time that the clock gave.
pub proof fn published_orders_are_as_asked<
    MD: L2MarketDepth,
    H: Fn(LiveError) -> Result<(), BotError>,
    K: Fn(&Order, &Order) -> Result<(), BotError>,
>(
    pre: BotModel<MD, H, K>,
    asset_no: usize,
    wanted: OrderRequest,
    wait: bool,
    post: BotModel<MD, H, K>,
    outgoing: Outgoing,
)
    requires
        pre.wf(),
        model::submit_handled(pre, asset_no, wanted, wait, post, Ok(outgoing)),
    ensures
        outgoing.channel == pre.pubsub[asset_no as int],
        outgoing.wait == wait,
        outgoing.request matches Request::Order { asset_no: a, order } && {
            &&& a == asset_no
            &&& order.order_id == wanted.order_id
            &&& order.price_tick == wanted.price_tick
            &&& order.qty == wanted.qty
            &&& order.leaves_qty == wanted.qty
            &&& order.side == wanted.side
            &&& order.time_in_force == wanted.time_in_force
            &&& order.order_type == wanted.order_type
            &&& order.tick_size == pre.assets[asset_no as int].1.tick_size
            &&& order.status == Status::New
            &&& order.req == Status::New
            &&& crate::clock::given(Some(order.local_timestamp))
        },
{
}

/// A cancellation at time `now`. It is refused for an unknown asset, for an unknown order, and for
/// one that does not rest in the market or has a request pending; then nothing changes. Otherwise
/// the order goes out on the channel of the asset with the cancellation noted at that time, and is
/// else as it was. The very same order is filed, and nothing else changes.
pub proof fn cancellations_go_out_as_asked<
    MD: L2MarketDepth,
    H: Fn(LiveError) -> Result<(), BotError>,
    K: Fn(&Order, &Order) -> Result<(), BotError>,
>(
    pre: BotModel<MD, H, K>,
    asset_no: usize,
    order_id: OrderId,
    wait: bool,
    now: i64,
    post: BotModel<MD, H, K>,
    result: Result<Outgoing, BotError>,
)
    requires
        pre.wf(),
        model::cancelled_at(pre, asset_no, order_id, wait, now, post, result),
    ensures
        asset_no >= pre.assets.len() ==> post == pre && result == Err::<Outgoing, BotError>(
            BotError::AssetNotFound,
        ),
        asset_no < pre.assets.len() && !pre.orders[asset_no as int].contains_key(order_id) ==> post
            == pre && result == Err::<Outgoing, BotError>(BotError::OrderNotFound),
        asset_no < pre.assets.len() && pre.orders[asset_no as int].contains_key(order_id) ==> {
            let a = asset_no as int;
            let known = pre.orders[a][order_id];
            let order = Order { req: Status::Canceled, local_timestamp: now, ..known };
            if (known.status == Status::New || known.status == Status::PartiallyFilled) && known.req
                == Status::Nothing {
                &&& post == (BotModel {
                    orders: pre.orders.update(a, pre.orders[a].insert(order_id, order)),
                    ..pre
                })
                &&& result == Ok::<Outgoing, BotError>(
                    Outgoing {
                        channel: pre.pubsub[a],
                        request: Request::Order { asset_no, order },
                        wait,
                    },
                )
            } else {
                post == pre && result == Err::<Outgoing, BotError>(BotError::InvalidOrderStatus)
            }
        },
{
}

/// A cancellation when the clock shows `reading`: it happens at that time, and where the time cannot
/// be counted, one that would go out otherwise is refused and nothing changes.
pub proof fn cancellations_need_a_time<MD, H, K>(
    pre: BotModel<MD, H, K>,
    asset_no: usize,
    order_id: OrderId,
    wait: bool,
    reading: Option<i64>,
    post: BotModel<MD, H, K>,
    result: Result<Outgoing, BotError>,
)
    requires
        model::cancelled_on(pre, asset_no, order_id, wait, reading, post, result),
    ensures
        reading matches Some(now) ==> model::cancelled_at(
            pre,
            asset_no,
            order_id,
            wait,
            now,
            post,
            result,
        ),
        reading is None ==> post == pre && result == Err::<Outgoing, BotError>(
            if asset_no >= pre.assets.len() {
                BotError::AssetNotFound
            } else if !pre.orders[asset_no as int].contains_key(order_id) {
                BotError::OrderNotFound
            } else if (pre.orders[asset_no as int][order_id].status == Status::New
                || pre.orders[asset_no as int][order_id].status == Status::PartiallyFilled)
                && pre.orders[asset_no as int][order_id].req == Status::Nothing {
                BotError::ClockOutOfRange
            } else {
                BotError::InvalidOrderStatus
            },
        ),
{
}

/// A cancellation happens at the time that the clock gave when it was asked: there is such a
/// reading, and what is done is what is done on that reading. What can be cancelled is cancelled
/// whenever the clock gave a time, whether or not the response is waited for.
pub proof fn cancellations_ask_the_clock<MD, H, K>(
    pre: BotModel<MD, H, K>,
    asset_no: usize,
    order_id: OrderId,
    wait: bool,
    post: BotModel<MD, H, K>,
    result: Result<Outgoing, BotError>,
)
    requires
        model::cancel_handled(pre, asset_no, order_id, wait, post, result),
    ensures
        ({
            let known = pre.orders[asset_no as int][order_id];
            if asset_no < pre.assets.len() && pre.orders[asset_no as int].contains_key(order_id) && (
            known.status == Status::New || known.status == Status::PartiallyFilled) && known.req
                == Status::Nothing {
                exists|reading: Option<i64>| #[trigger]
                    crate::clock::given(reading) && match reading {
                        Some(now) => result is Ok && model::cancelled_at(
                            pre,
                            asset_no,
                            order_id,
                            wait,
                            now,
                            post,
                            result,
                        ),
                        None => post == pre && result == Err::<Outgoing, BotError>(
                            BotError::ClockOutOfRange,
                        ),
                    }
            } else {
                post == pre && result == Err::<Outgoing, BotError>(
                    if asset_no >= pre.assets.len() {
                        BotError::AssetNotFound
                    } else if !pre.orders[asset_no as int].contains_key(order_id) {
                        BotError::OrderNotFound
                    } else {
                        BotError::InvalidOrderStatus
                    },
                )
            }
        }),
{
    if pre.cancel_refusal(asset_no, order_id) is None {
        let reading = choose|reading: Option<i64>|
            model::shown_by_clock(reading) && #[trigger] model::cancelled_on(
                pre,
                asset_no,
                order_id,
                wait,
                reading,
                post,
                result,
            );
        assert(crate::clock::given(reading));
    }
}

/// What is published of a cancellation is the order as it is known, on the channel of its asset, with
/// the cancellation noted at a time that the clock gave.
pub proof fn published_cancellations_are_as_asked<
    MD: L2MarketDepth,
    H: Fn(LiveError) -> Result<(), BotError>,
    K: Fn(&Order, &Order) -> Result<(), BotError>,
>(
    pre: BotModel<MD, H, K>,
    asset_no: usize,
    order_id: OrderId,
    wait: bool,
    post: BotModel<MD, H, K>,
    outgoing: Outgoing,
)
    requires
        pre.wf(),
        model::cancel_handled(pre, asset_no, order_id, wait, post, Ok(outgoing)),
    ensures
        outgoing.channel == pre.pubsub[asset_no as int],
        outgoing.wait == wait,
        outgoing.request matches Request::Order { asset_no: a, order } && {
            &&& a == asset_no
            &&& order == (Order {
                req: Status::Canceled,
                local_timestamp: order.local_timestamp,
                ..pre.orders[asset_no as int][order_id]
            })
            &&& order.order_id == order_id
            &&& crate::clock::given(Some(order.local_timestamp))
        },
{
}

/// Clearing inactive orders keeps, of every asset that is meant, the orders that are new or partially
/// filled as they are, and no others. The orders of other assets, and everything else, stay.
pub proof fn clearing_keeps_what_rests<MD, H, K>(
    pre: BotModel<MD, H, K>,
    cleared: Option<usize>,
    post: BotModel<MD, H, K>,
    asset_no: int,
    order_id: OrderId,
)
    requires
        post == pre.inactive_cleared(cleared),
        0 <= asset_no < pre.orders.len(),
    ensures
        post == (BotModel { orders: post.orders, ..pre }),
        post.orders.len() == pre.orders.len(),
        ({
            let (before, after) = (pre.orders[asset_no], post.orders[asset_no]);
            let meant = match cleared {
                Some(a) => a == asset_no,
                None => true,
            };
            let rests = before[order_id].status == Status::New || before[order_id].status
                == Status::PartiallyFilled;
            &&& after.contains_key(order_id) <==> before.contains_key(order_id) && (rests || !meant)
            &&& after.contains_key(order_id) ==> after[order_id] == before[order_id]
            &&& !meant ==> after == before
        }),
{
}

/// Clearing trades leaves none of every asset that is meant. The trades of other assets, and
/// everything else, stay.
pub proof fn clearing_trades_leaves_none<MD, H, K>(
    pre: BotModel<MD, H, K>,
    cleared: Option<usize>,
    post: BotModel<MD, H, K>,
    asset_no: int,
)
    requires
        post == pre.trades_cleared(cleared),
        cleared matches Some(a) ==> a < pre.trade.len(),
        0 <= asset_no < pre.trade.len(),
    ensures
        post == (BotModel { trade: post.trade, ..pre }),
        post.trade.len() == pre.trade.len(),
        cleared is None || cleared->0 == asset_no ==> post.trade[asset_no].len() == 0,
        cleared is Some && cleared->0 != asset_no ==> post.trade[asset_no] == pre.trade[asset_no],
{
}

/// What can be relied on of every bot: it keeps one of everything per asset, assets are numbered as
/// they were added, orders are filed under their ids, and no more trades are stored than it was
/// built to store.
pub proof fn bots_are_in_order<
    MD: L2MarketDepth,
    H: Fn(LiveError) -> Result<(), BotError>,
    K: Fn(&Order, &Order) -> Result<(), BotError>,
>(bot: BotModel<MD, H, K>, asset_no: int, order_id: OrderId)
    requires
        bot.wf(),
        0 <= asset_no < bot.assets.len(),
    ensures
        bot.pubsub.len() == bot.assets.len(),
        bot.depth.len() == bot.assets.len(),
        bot.orders.len() == bot.assets.len(),
        bot.trade.len() == bot.assets.len(),
        bot.last_feed_latency.len() == bot.assets.len(),
        bot.last_order_latency.len() == bot.assets.len(),
        bot.state.len() == bot.assets.len(),
        bot.assets[asset_no].1.asset_no == asset_no,
        bot.orders[asset_no].contains_key(order_id) ==> bot.orders[asset_no][order_id].order_id
            == order_id,
        bot.trade[asset_no].len() <= bot.last_trades_capacity,
{
}

/// A bot that has just been built knows no orders and no trades, has received nothing and holds
/// nothing; everything else is what it was given.
pub proof fn new_bots_know_nothing<MD, H, K>(
    assets: Seq<(String, Asset)>,
    pubsub: Seq<usize>,
    depth: Seq<MD>,
    last_trades_capacity: usize,
    error_handler: Option<H>,
    order_hook: Option<K>,
    asset_no: int,
)
    requires
        0 <= asset_no < assets.len(),
    ensures
        ({
            let bot = model::fresh(
                assets,
                pubsub,
                depth,
                last_trades_capacity,
                error_handler,
                order_hook,
            );
            &&& bot.assets == assets
            &&& bot.pubsub == pubsub
            &&& bot.depth == depth
            &&& bot.last_trades_capacity == last_trades_capacity
            &&& bot.error_handler == error_handler
            &&& bot.order_hook == order_hook
            &&& bot.orders[asset_no] == Map::<OrderId, Order>::empty()
            &&& bot.trade[asset_no] == Seq::<Event>::empty()
            &&& bot.last_feed_latency[asset_no] == None::<(i64, i64)>
            &&& bot.last_order_latency[asset_no] == None::<(i64, i64, i64)>
            &&& bot.state[asset_no].position.bits == 0
        }),
{
}

/// Assets are told apart by connector and symbol, joined by a slash: which are distinct, which come
/// a second time, and which of those comes first.
pub proof fn assets_are_told_apart(assets: Seq<(String, Asset)>, i: int)
    ensures
        builder::all_distinct(assets) <==> forall|j: int, k: int|
            0 <= j < k < assets.len() ==> (#[trigger] assets[j]).0@ + "/"@ + assets[j].1.symbol@ != (
            #[trigger] assets[k]).0@ + "/"@ + assets[k].1.symbol@,
        builder::duplicate_at(assets, i) <==> exists|j: int|
            0 <= j < i && (#[trigger] assets[j]).0@ + "/"@ + assets[j].1.symbol@ == assets[i].0@
                + "/"@ + assets[i].1.symbol@,
        builder::first_duplicate(assets, i) <==> 0 <= i < assets.len() && builder::duplicate_at(
            assets,
            i,
        ) && !(exists|j: int| 0 <= j < i && #[trigger] builder::duplicate_at(assets, j)),
        builder::first_of_connector(assets, i) <==> !(exists|j: int|
            0 <= j < i && (#[trigger] assets[j]).0@ == assets[i].0@),
{
    if builder::all_distinct(assets) {
        assert forall|j: int, k: int| 0 <= j < k < assets.len() implies (#[trigger] assets[j]).0@
            + "/"@ + assets[j].1.symbol@ != (#[trigger] assets[k]).0@ + "/"@
            + assets[k].1.symbol@ by {
            assert(builder::asset_key(assets[j]) != builder::asset_key(assets[k]));
        }
    }
}

/// Channels are numbered as their connectors are first used: the channel of an asset whose connector
/// no earlier asset has comes right after those of the earlier assets, which leave no number out.
pub proof fn channels_are_numbered_by_first_use<
    MD: L2MarketDepth,
    H: Fn(LiveError) -> Result<(), BotError>,
    K: Fn(&Order, &Order) -> Result<(), BotError>,
>(bot: BotModel<MD, H, K>, i: int, channel: usize)
    requires
        bot.wf(),
        0 <= i < bot.assets.len(),
        forall|j: int| 0 <= j < i ==> (#[trigger] bot.assets[j]).0@ != bot.assets[i].0@,
    ensures
        forall|j: int| 0 <= j < i ==> (#[trigger] bot.pubsub[j]) < bot.pubsub[i],
        channel < bot.pubsub[i] ==> exists|j: int|
            0 <= j < i && #[trigger] bot.pubsub[j] == channel,
{
    let names = model::connector_names(bot.assets);
    let before = names.take(i);
    let all = model::distinct(names);
    let known = model::distinct(before);
    model::distinct_is_exact(names);
    model::distinct_is_exact(before);
    distinct_grows(names, i);
    distinct_grows(names, i + 1);
    crate::laws::channels_open_in_order(bot.assets, i);
    assert(builder::first_of_connector(bot.assets, i));
    let next = model::distinct(names.take(i + 1));
    assert(next == known.push(names[i]));
    assert(next[known.len() as int] == names[i]);
    assert(all[known.len() as int] == names[i]);
    assert(bot.pubsub[i] == known.len());
    assert forall|j: int| 0 <= j < i implies (#[trigger] bot.pubsub[j]) < bot.pubsub[i] by {
        assert(before[j] == names[j]);
        assert(before.contains(names[j]));
        assert(known.contains(names[j]));
        let k = known.index_of(names[j]);
        assert(all[k] == names[j]);
    }
    if channel < bot.pubsub[i] {
        let name = known[channel as int];
        assert(known.contains(name));
        assert(before.contains(name));
        let j = before.index_of(name);
        assert(names[j] == name);
        assert(all[channel as int] == name);
        assert(bot.pubsub[j] == channel);
    }
}

/// The distinct names of the first ones are the first of the distinct names.
proof fn distinct_grows(names: Seq<Seq<char>>, n: int)
    requires
        0 <= n <= names.len(),
    ensures
        model::distinct(names.take(n)).len() <= model::distinct(names).len(),
        forall|k: int|
            0 <= k < model::distinct(names.take(n)).len() ==> model::distinct(names)[k]
                == #[trigger] model::distinct(names.take(n))[k],
    decreases names.len(),
{
    if n == names.len() {
        assert(names.take(n) =~= names);
    } else {
        distinct_grows(names.drop_last(), n);
        assert(names.drop_last().take(n) =~= names.take(n));
    }
}

/// How long a pause is: a thousand nanoseconds, or what is left where that is less; the latter does
/// not count once it is negative. A wait begins with such a pause.
pub proof fn pauses_are_exact(run: Run, remaining: int)
    ensures
        run.pause(remaining) matches Step::Pause(pause) && pause.run == run && (if remaining < 0
            || remaining > 1000 {
            pause.nanos == 1000
        } else {
            pause.nanos == remaining
        }),
        run.first() matches Step::Pause(pause) && pause.run == run && (if run.duration < 0
            || run.duration > 1000 {
            pause.nanos == 1000
        } else {
            pause.nanos == run.duration
        }),
{
}

/// After a pause a tick leads to the channels, and anything else ends the wait with `false`. Before
/// the channels are looked at, a time that is over ends the wait with `true`; otherwise the first
/// channel is asked, if there is one. After a look at channels that were all silent, a time that is
/// over ends the wait with `true`; otherwise a pause follows that leaves time for no more.
pub proof fn steps_follow_each_other(run: Run, nanos: u64, wakeup: Wakeup, elapsed: u128, assets: nat)
    ensures
        ({
            let over = (elapsed as i64) > run.duration;
            let left = run.duration - (elapsed as i64);
            let pause = Pause { run, nanos };
            let start = SweepStart { run };
            let end = CycleEnd { run };
            &&& pause.after(wakeup) == if wakeup == Wakeup::Tick {
                Step::ReadElapsed(start)
            } else {
                Step::Return(false)
            }
            &&& start.after(elapsed, assets) == if over {
                Step::Return(true)
            } else if assets == 0 {
                Step::ReadRemaining(end)
            } else {
                Step::Receive(Sweep { run, next: 0, no_data: 0 })
            }
            &&& over ==> end.after(elapsed) == Step::Return(true)
            &&& !over ==> (end.after(elapsed) matches Step::Pause(next) && next.run == run
                && next.nanos == if left > 1000 {
                1000int
            } else {
                left
            })
        }),
{
}

/// Where a look at the channels goes on: with the next asset, and after the last one either to the
/// end of the cycle, if none of the assets had anything, or to another look.
pub proof fn looks_go_on(sweep: Sweep, silent: bool, assets: nat)
    requires
        sweep.no_data <= sweep.next < assets <= usize::MAX,
    ensures
        sweep.next + 1 < assets ==> (sweep.after(silent, assets) matches Step::Receive(next)
            && next.run == sweep.run && next.next == sweep.next + 1 && next.no_data - sweep.no_data
            == if silent {
            1int
        } else {
            0
        }),
        sweep.next + 1 == assets ==> sweep.after(silent, assets) == if silent && sweep.no_data
            == sweep.next {
            Step::ReadRemaining(CycleEnd { run: sweep.run })
        } else {
            Step::ReadElapsed(SweepStart { run: sweep.run })
        },
{
}

/// The wait for the response to a request is for that order of that asset and nothing else, and lasts
/// sixty seconds.
pub proof fn responses_are_waited_for(outgoing: Outgoing, asset_no: usize, order: Order)
    requires
        outgoing.request == (Request::Order { asset_no, order }),
    ensures
        outgoing.response_run() == (Run {
            wait_next_feed: false,
            duration: 60_000_000_000,
            wait_order_response: WaitOrderResponse::Specified {
                asset_no,
                order_id: order.order_id,
            },
        }),
{
}

/// What can be handed to a bot: market data and positions of the assets that it has, and order
/// responses and errors without condition.
pub proof fn events_name_their_assets(event: LiveEvent, assets: nat)
    ensures
        event.addressed_within(assets) <==> match event {
            LiveEvent::FeedBatch { asset_no, events } => asset_no < assets || events@.len() == 0,
            LiveEvent::Feed { asset_no, event } => asset_no < assets,
            LiveEvent::Position { asset_no, qty } => asset_no < assets,
            LiveEvent::Order { asset_no, order } => true,
            LiveEvent::Error(error) => true,
        },
{
}

/// The states of an order: which are final, which rest in the market, and which can be cancelled.
/// No status is both final and resting.
pub proof fn states_of_orders(order: Order)
    ensures
        order.status.terminal() <==> order.status == Status::Canceled || order.status
            == Status::Expired || order.status == Status::Filled,
        order.is_active() <==> order.status == Status::New || order.status
            == Status::PartiallyFilled,
        order.is_cancellable() <==> (order.status == Status::New || order.status
            == Status::PartiallyFilled) && order.req == Status::Nothing,
        !(order.is_active() && order.status.terminal()),
{
}

/// Which response a wait is for.
pub proof fn awaited_responses(wait: WaitOrderResponse, asset_no: usize, order_id: OrderId)
    ensures
        wait.awaits(asset_no, order_id) <==> wait == WaitOrderResponse::Any || wait == (
        WaitOrderResponse::Specified { asset_no, order_id }),
{
}

/// The texts of the errors.
pub proof fn texts_of_errors(fault: String, error: PubSubError)
    ensures
        BotError::OrderIdExist.text() == "order id already exists"@,
        BotError::AssetNotFound.text() == "asset not found"@,
        BotError::OrderNotFound.text() == "order not found"@,
        BotError::InvalidOrderStatus.text() == "order status is invalid"@,
        BotError::ClockOutOfRange.text() == "current time is out of range"@,
        BotError::Custom(fault).text() == fault@,
        PubSubError::SubscriberReceive(fault).fault() == fault@,
        PubSubError::PublisherLoan(fault).fault() == fault@,
        PubSubError::PublisherSend(fault).fault() == fault@,
        PubSubError::Decode(fault).fault() == fault@,
        PubSubError::Encode(fault).fault() == fault@,
        PubSubError::SubscriberReceive(fault).kind() == "SubscriberReceive"@,
        PubSubError::PublisherLoan(fault).kind() == "PublisherLoan"@,
        PubSubError::PublisherSend(fault).kind() == "PublisherSend"@,
        PubSubError::Decode(fault).kind() == "Decode"@,
        PubSubError::Encode(fault).kind() == "Encode"@,
        BotError::PubSub(error).text() == error.kind() + "("@ + error.fault() + ")"@,
{
}

} // verus!
