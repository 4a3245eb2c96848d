//! What holds of the bot across its operations.
use crate::builder;
use crate::depth::L2MarketDepth;
use crate::errors::{BotError, PubSubError};
use crate::model;
use crate::model::BotModel;
use crate::run::{
    CycleEnd, Outgoing, Pause, Run, Step, Sweep, SweepStart, Wakeup, CYCLE_NANOS,
};
use crate::types::{
    Asset, Event, LiveError, LiveEvent, Order, OrderId, OrderRequest, Request, WaitOrderResponse,
};
use vstd::prelude::*;

verus! {

/// Market data may be split at will: two batches for an asset, one after the other, do what one
/// batch with the events of both does.
pub proof fn batches_join<
    MD: L2MarketDepth,
    H: Fn(LiveError) -> Result<(), BotError>,
    K: Fn(&Order, &Order) -> Result<(), BotError>,
>(
    pre: BotModel<MD, H, K>,
    asset_no: int,
    first: Seq<Event>,
    mid: BotModel<MD, H, K>,
    second: Seq<Event>,
    post: BotModel<MD, H, K>,
)
    requires
        pre.wf(),
        0 <= asset_no < pre.assets.len(),
        model::fed(pre, asset_no, first, mid),
        model::fed(mid, asset_no, second, post),
    ensures
        model::fed(pre, asset_no, first + second, post),
{
    if first.len() == 0 {
        assert(first + second =~= second);
    } else if second.len() == 0 {
        assert(first + second =~= first);
    } else {
        let events = first + second;
        let books1 = choose|books: Seq<MD>| #[trigger]
            model::book_history(books, first) && books.first() == pre.depth[asset_no]
                && books.last() == mid.depth[asset_no];
        let books2 = choose|books: Seq<MD>| #[trigger]
            model::book_history(books, second) && books.first() == mid.depth[asset_no]
                && books.last() == post.depth[asset_no];
        let books = books1 + books2.skip(1);
        assert forall|i: int| 0 <= i < events.len() implies model::book_step(
            books[i],
            #[trigger] events[i],
            books[i + 1],
        ) by {
            if i < first.len() {
                assert(events[i] == first[i]);
            } else {
                let j = i - first.len();
                assert(events[i] == second[j]);
                assert(books[i] == books2[j]);
                assert(books[i + 1] == books2[j + 1]);
            }
        }
        assert(model::book_history(books, events));
        assert(books.first() == pre.depth[asset_no]);
        assert(books.last() == post.depth[asset_no]);
        let is_trade = |event: Event| event.is_trade();
        Seq::filter_distributes_over_add(first, second, is_trade);
        let trades = pre.trade[asset_no];
        let capacity = pre.last_trades_capacity as nat;
        assert(trades + model::trades_of(first) + model::trades_of(second) =~= trades
            + model::trades_of(events));
        model::kept_in_turn(trades + model::trades_of(first), model::trades_of(second), capacity);
        assert(events.last() == second.last());
        assert(post =~= BotModel {
            depth: pre.depth.update(asset_no, post.depth[asset_no]),
            trade: pre.trade.update(
                asset_no,
                model::kept(trades + model::trades_of(events), capacity),
            ),
            last_feed_latency: pre.last_feed_latency.update(
                asset_no,
                Some((events.last().exch_ts, events.last().local_ts)),
            ),
            ..pre
        });
    }
}

/// Market data may be split at will: what one batch does, two batches do that hold its events in
/// the same order, and the state between them is one that the first of them leads to.
pub proof fn batches_split<
    MD: L2MarketDepth,
    H: Fn(LiveError) -> Result<(), BotError>,
    K: Fn(&Order, &Order) -> Result<(), BotError>,
>(
    pre: BotModel<MD, H, K>,
    asset_no: int,
    first: Seq<Event>,
    second: Seq<Event>,
    post: BotModel<MD, H, K>,
) -> (mid: BotModel<MD, H, K>)
    requires
        pre.wf(),
        0 <= asset_no < pre.assets.len(),
        model::fed(pre, asset_no, first + second, post),
    ensures
        model::fed(pre, asset_no, first, mid),
        model::fed(mid, asset_no, second, post),
{
    if first.len() == 0 {
        assert(first + second =~= second);
        pre
    } else if second.len() == 0 {
        assert(first + second =~= first);
        post
    } else {
        let events = first + second;
        let n = first.len() as int;
        let books = choose|books: Seq<MD>| #[trigger]
            model::book_history(books, events) && books.first() == pre.depth[asset_no]
                && books.last() == post.depth[asset_no];
        let books1 = books.take(n + 1);
        let books2 = books.skip(n);
        assert forall|i: int| 0 <= i < first.len() implies model::book_step(
            books1[i],
            #[trigger] first[i],
            books1[i + 1],
        ) by {
            assert(events[i] == first[i]);
        }
        assert forall|i: int| 0 <= i < second.len() implies model::book_step(
            books2[i],
            #[trigger] second[i],
            books2[i + 1],
        ) by {
            assert(events[n + i] == second[i]);
        }
        assert(model::book_history(books1, first));
        assert(model::book_history(books2, second));
        let mid = BotModel {
            depth: pre.depth.update(asset_no, books[n]),
            trade: pre.trade.update(
                asset_no,
                model::kept(
                    pre.trade[asset_no] + model::trades_of(first),
                    pre.last_trades_capacity as nat,
                ),
            ),
            last_feed_latency: pre.last_feed_latency.update(
                asset_no,
                Some((first.last().exch_ts, first.last().local_ts)),
            ),
            ..pre
        };
        assert(model::book_run(pre.depth[asset_no], first, mid.depth[asset_no]));
        assert(model::book_run(mid.depth[asset_no], second, post.depth[asset_no]));
        let is_trade = |event: Event| event.is_trade();
        Seq::filter_distributes_over_add(first, second, is_trade);
        let trades = pre.trade[asset_no];
        let capacity = pre.last_trades_capacity as nat;
        assert(trades + model::trades_of(first) + model::trades_of(second) =~= trades
            + model::trades_of(events));
        model::kept_in_turn(trades + model::trades_of(first), model::trades_of(second), capacity);
        assert(events.last() == second.last());
        assert(post =~= BotModel {
            depth: mid.depth.update(asset_no, post.depth[asset_no]),
            trade: mid.trade.update(
                asset_no,
                model::kept(mid.trade[asset_no] + model::trades_of(second), capacity),
            ),
            last_feed_latency: mid.last_feed_latency.update(
                asset_no,
                Some((second.last().exch_ts, second.last().local_ts)),
            ),
            ..mid
        });
        mid
    }
}

/// One operation of the bot that forgets no orders leads from `pre` to `post`.
pub open spec fn traded<
    MD: L2MarketDepth,
    H: Fn(LiveError) -> Result<(), BotError>,
    K: Fn(&Order, &Order) -> Result<(), BotError>,
>(pre: BotModel<MD, H, K>, post: BotModel<MD, H, K>) -> bool {
    ||| exists|
        event: LiveEvent,
        wait_next_feed: bool,
        wait_order_response: WaitOrderResponse,
        result: Result<bool, BotError>,
    |
        event.addressed_within(pre.assets.len()) && #[trigger] model::event_handled(
            pre,
            event,
            wait_next_feed,
            wait_order_response,
            post,
            result,
        )
    ||| exists|
        asset_no: usize,
        wanted: OrderRequest,
        wait: bool,
        result: Result<Outgoing, BotError>,
    | #[trigger]
        model::submit_handled(pre, asset_no, wanted, wait, post, result)
    ||| exists|
        asset_no: usize,
        order_id: OrderId,
        wait: bool,
        result: Result<Outgoing, BotError>,
    | #[trigger]
        model::cancel_handled(pre, asset_no, order_id, wait, post, result)
    ||| exists|asset_no: Option<usize>|
        (asset_no matches Some(a) ==> a < pre.assets.len()) && post
            == #[trigger] pre.trades_cleared(asset_no)
}

/// One operation of the bot leads from `pre` to `post`.
pub open spec fn operated<
    MD: L2MarketDepth,
    H: Fn(LiveError) -> Result<(), BotError>,
    K: Fn(&Order, &Order) -> Result<(), BotError>,
>(pre: BotModel<MD, H, K>, post: BotModel<MD, H, K>) -> bool {
    ||| traded(pre, post)
    ||| exists|asset_no: Option<usize>| post == #[trigger] pre.inactive_cleared(asset_no)
}

/// Every operation keeps what holds of every bot, and how the bot was set up.
pub proof fn operations_keep_the_invariant<
    MD: L2MarketDepth,
    H: Fn(LiveError) -> Result<(), BotError>,
    K: Fn(&Order, &Order) -> Result<(), BotError>,
>(pre: BotModel<MD, H, K>, post: BotModel<MD, H, K>)
    requires
        pre.wf(),
        operated(pre, post),
    ensures
        post.wf(),
        post.assets == pre.assets,
        post.pubsub == pre.pubsub,
        post.last_trades_capacity == pre.last_trades_capacity,
        post.error_handler == pre.error_handler,
        post.order_hook == pre.order_hook,
{
}

/// Whatever happens to a bot, it never stores more trades of an asset than it was built to store.
pub proof fn trades_never_exceed_capacity<
    MD: L2MarketDepth,
    H: Fn(LiveError) -> Result<(), BotError>,
    K: Fn(&Order, &Order) -> Result<(), BotError>,
>(history: Seq<BotModel<MD, H, K>>, asset_no: int)
    requires
        history.len() > 0,
        history.first().wf(),
        forall|i: int|
            0 <= i < history.len() - 1 ==> operated(#[trigger] history[i], history[i + 1]),
        0 <= asset_no < history.first().assets.len(),
    ensures
        history.last().wf(),
        history.last().assets == history.first().assets,
        history.last().last_trades_capacity == history.first().last_trades_capacity,
        history.last().trade[asset_no].len() <= history.first().last_trades_capacity,
    decreases history.len(),
{
    if history.len() > 1 {
        let before = history.drop_last();
        assert forall|i: int| 0 <= i < before.len() - 1 implies operated(
            #[trigger] before[i],
            before[i + 1],
        ) by {
            assert(operated(history[i], history[i + 1]));
        }
        trades_never_exceed_capacity(before, asset_no);
        let n = history.len() as int;
        assert(operated(history[n - 2], history[n - 1]));
        operations_keep_the_invariant(before.last(), history.last());
    }
}

/// One operation that forgets no orders keeps every order that the bot knows, never sets its
/// exchange timestamp back, and does not touch one whose status is final.
proof fn trading_keeps_orders<
    MD: L2MarketDepth,
    H: Fn(LiveError) -> Result<(), BotError>,
    K: Fn(&Order, &Order) -> Result<(), BotError>,
>(pre: BotModel<MD, H, K>, post: BotModel<MD, H, K>, asset_no: int, order_id: OrderId)
    requires
        pre.wf(),
        traded(pre, post),
        0 <= asset_no < pre.assets.len(),
        pre.orders[asset_no].contains_key(order_id),
    ensures
        post.orders[asset_no].contains_key(order_id),
        post.orders[asset_no][order_id].exch_timestamp
            >= pre.orders[asset_no][order_id].exch_timestamp,
        pre.orders[asset_no][order_id].status.terminal() ==> post.orders[asset_no][order_id]
            == pre.orders[asset_no][order_id],
{
}

/// Until inactive orders are cleared, and whatever happens meanwhile, every order that the bot
/// knows stays known, its exchange timestamp never goes back, and once its status is final it does
/// not change any more.
pub proof fn orders_stay_until_cleared<
    MD: L2MarketDepth,
    H: Fn(LiveError) -> Result<(), BotError>,
    K: Fn(&Order, &Order) -> Result<(), BotError>,
>(history: Seq<BotModel<MD, H, K>>, asset_no: int, order_id: OrderId)
    requires
        history.len() > 0,
        history.first().wf(),
        forall|i: int|
            0 <= i < history.len() - 1 ==> traded(#[trigger] history[i], history[i + 1]),
        0 <= asset_no < history.first().assets.len(),
        history.first().orders[asset_no].contains_key(order_id),
    ensures
        history.last().wf(),
        history.last().assets == history.first().assets,
        history.last().orders[asset_no].contains_key(order_id),
        history.last().orders[asset_no][order_id].exch_timestamp
            >= history.first().orders[asset_no][order_id].exch_timestamp,
        history.first().orders[asset_no][order_id].status.terminal()
            ==> history.last().orders[asset_no][order_id]
            == history.first().orders[asset_no][order_id],
    decreases history.len(),
{
    if history.len() > 1 {
        let before = history.drop_last();
        assert forall|i: int| 0 <= i < before.len() - 1 implies traded(
            #[trigger] before[i],
            before[i + 1],
        ) by {
            assert(traded(history[i], history[i + 1]));
        }
        orders_stay_until_cleared(before, asset_no, order_id);
        let n = history.len() as int;
        assert(traded(history[n - 2], history[n - 1]));
        operations_keep_the_invariant(before.last(), history.last());
        trading_keeps_orders(before.last(), history.last(), asset_no, order_id);
    }
}

/// An event about one asset leaves everything else as it was: what the bot keeps of the other
/// assets, and how it was set up.
pub proof fn events_touch_one_asset<
    MD: L2MarketDepth,
    H: Fn(LiveError) -> Result<(), BotError>,
    K: Fn(&Order, &Order) -> Result<(), BotError>,
>(
    pre: BotModel<MD, H, K>,
    event: LiveEvent,
    wait_next_feed: bool,
    wait_order_response: WaitOrderResponse,
    post: BotModel<MD, H, K>,
    result: Result<bool, BotError>,
    other: int,
)
    requires
        pre.wf(),
        event.addressed_within(pre.assets.len()),
        model::event_handled(pre, event, wait_next_feed, wait_order_response, post, result),
        0 <= other < pre.assets.len(),
        match event {
            LiveEvent::FeedBatch { asset_no, .. } => asset_no != other,
            LiveEvent::Feed { asset_no, .. } => asset_no != other,
            LiveEvent::Order { asset_no, .. } => asset_no != other,
            LiveEvent::Position { asset_no, .. } => asset_no != other,
            LiveEvent::Error(_) => true,
        },
    ensures
        post.depth[other] == pre.depth[other],
        post.orders[other] == pre.orders[other],
        post.trade[other] == pre.trade[other],
        post.last_feed_latency[other] == pre.last_feed_latency[other],
        post.last_order_latency[other] == pre.last_order_latency[other],
        post.state[other] == pre.state[other],
        post.assets == pre.assets,
        post.pubsub == pre.pubsub,
        post.last_trades_capacity == pre.last_trades_capacity,
        post.error_handler == pre.error_handler,
        post.order_hook == pre.order_hook,
{
}

/// Nothing that a connector sends ends a wait that only time is to end.
pub proof fn only_time_ends_elapse<
    MD: L2MarketDepth,
    H: Fn(LiveError) -> Result<(), BotError>,
    K: Fn(&Order, &Order) -> Result<(), BotError>,
>(
    pre: BotModel<MD, H, K>,
    event: LiveEvent,
    post: BotModel<MD, H, K>,
    result: Result<bool, BotError>,
)
    requires
        model::event_handled(pre, event, false, WaitOrderResponse::Never, post, result),
    ensures
        result != Ok::<bool, BotError>(true),
{
}

/// A wait for the response about one order is ended by nothing else that a connector sends.
pub proof fn only_the_response_ends_its_wait<
    MD: L2MarketDepth,
    H: Fn(LiveError) -> Result<(), BotError>,
    K: Fn(&Order, &Order) -> Result<(), BotError>,
>(
    pre: BotModel<MD, H, K>,
    event: LiveEvent,
    asset_no: usize,
    order_id: OrderId,
    post: BotModel<MD, H, K>,
    result: Result<bool, BotError>,
)
    requires
        model::event_handled(
            pre,
            event,
            false,
            (WaitOrderResponse::Specified { asset_no, order_id }),
            post,
            result,
        ),
        result == Ok::<bool, BotError>(true),
    ensures
        event matches LiveEvent::Order { asset_no: a, order } && a == asset_no && order.order_id
            == order_id,
{
}

/// A response that is older than one already seen changes nothing, in whichever order the two
/// arrive.
pub proof fn older_responses_change_nothing(
    orders: Map<OrderId, Order>,
    newer: Order,
    older: Order,
)
    requires
        newer.order_id == older.order_id,
        older.exch_timestamp < newer.exch_timestamp,
    ensures
        model::responded(model::responded(orders, newer), older) == model::responded(orders, newer),
{
    let once = model::responded(orders, newer);
    assert(model::responded(once, older) =~= once);
}

/// A response that arrives twice does what it does once.
pub proof fn repeated_responses_change_nothing(orders: Map<OrderId, Order>, response: Order)
    ensures
        model::responded(model::responded(orders, response), response) == model::responded(
            orders,
            response,
        ),
{
    let once = model::responded(orders, response);
    assert(model::responded(once, response) =~= once);
}

/// After an order was submitted its id is taken, and until a response comes it cannot be
/// cancelled.
pub proof fn submitted_order_is_pending<MD, H, K>(
    pre: BotModel<MD, H, K>,
    asset_no: usize,
    wanted: OrderRequest,
    now: i64,
) where
    MD: L2MarketDepth,
    H: Fn(LiveError) -> Result<(), BotError>,
    K: Fn(&Order, &Order) -> Result<(), BotError>,

    requires
        pre.wf(),
        pre.submit_refusal(asset_no, wanted.order_id) is None,
    ensures
        pre.submitted(asset_no, wanted, now).submit_refusal(asset_no, wanted.order_id) == Some(
            BotError::OrderIdExist,
        ),
        pre.submitted(asset_no, wanted, now).cancel_refusal(asset_no, wanted.order_id) == Some(
            BotError::InvalidOrderStatus,
        ),
{
}

/// A cancellation is requested once: until a response comes, another one is refused.
pub proof fn cancelled_order_is_pending<MD, H, K>(
    pre: BotModel<MD, H, K>,
    asset_no: usize,
    order_id: OrderId,
    now: i64,
) where
    MD: L2MarketDepth,
    H: Fn(LiveError) -> Result<(), BotError>,
    K: Fn(&Order, &Order) -> Result<(), BotError>,

    requires
        pre.wf(),
        pre.cancel_refusal(asset_no, order_id) is None,
    ensures
        pre.cancelled(asset_no, order_id, now).cancel_refusal(asset_no, order_id) == Some(
            BotError::InvalidOrderStatus,
        ),
        pre.cancelled(asset_no, order_id, now).submit_refusal(asset_no, order_id) == Some(
            BotError::OrderIdExist,
        ),
{
}

/// What is published is what is on file: the order that goes out when one is submitted is the one
/// that the bot then knows, and it goes out on the channel of its asset. No other order changes.
pub proof fn submitted_order_is_on_file<MD, H, K>(
    pre: BotModel<MD, H, K>,
    asset_no: usize,
    wanted: OrderRequest,
    wait: bool,
    post: BotModel<MD, H, K>,
    outgoing: Outgoing,
) where
    MD: L2MarketDepth,
    H: Fn(LiveError) -> Result<(), BotError>,
    K: Fn(&Order, &Order) -> Result<(), BotError>,

    requires
        pre.wf(),
        model::submit_handled(pre, asset_no, wanted, wait, post, Ok(outgoing)),
    ensures
        asset_no < pre.assets.len(),
        outgoing.channel == pre.pubsub[asset_no as int],
        post.orders[asset_no as int].contains_key(wanted.order_id),
        outgoing.request == (Request::Order {
            asset_no,
            order: post.orders[asset_no as int][wanted.order_id],
        }),
        post.orders[asset_no as int].remove(wanted.order_id) == pre.orders[asset_no as int],
        forall|other: int|
            0 <= other < pre.assets.len() && other != asset_no ==> post.orders[other]
                == pre.orders[other],
{
    assert(post.orders[asset_no as int].remove(wanted.order_id)
        =~= pre.orders[asset_no as int]);
}

/// What is published is what is on file: the order that goes out when a cancellation is requested
/// is the one that the bot then knows, and it goes out on the channel of its asset. No other order
/// changes.
pub proof fn cancelled_order_is_on_file<MD, H, K>(
    pre: BotModel<MD, H, K>,
    asset_no: usize,
    order_id: OrderId,
    wait: bool,
    post: BotModel<MD, H, K>,
    outgoing: Outgoing,
) where
    MD: L2MarketDepth,
    H: Fn(LiveError) -> Result<(), BotError>,
    K: Fn(&Order, &Order) -> Result<(), BotError>,

    requires
        pre.wf(),
        model::cancel_handled(pre, asset_no, order_id, wait, post, Ok(outgoing)),
    ensures
        asset_no < pre.assets.len(),
        outgoing.channel == pre.pubsub[asset_no as int],
        post.orders[asset_no as int].contains_key(order_id),
        outgoing.request == (Request::Order {
            asset_no,
            order: post.orders[asset_no as int][order_id],
        }),
        post.orders[asset_no as int].remove(order_id) == pre.orders[asset_no as int].remove(
            order_id,
        ),
        forall|other: int|
            0 <= other < pre.assets.len() && other != asset_no ==> post.orders[other]
                == pre.orders[other],
{
    assert(post.orders[asset_no as int].remove(order_id) =~= pre.orders[asset_no as int].remove(
        order_id,
    ));
}

/// When inactive orders are cleared, the active ones stay as they are, and the ids of the others
/// can be used again.
pub proof fn cleared_ids_are_free<MD, H, K>(
    pre: BotModel<MD, H, K>,
    cleared: Option<usize>,
    asset_no: usize,
    order_id: OrderId,
) where
    MD: L2MarketDepth,
    H: Fn(LiveError) -> Result<(), BotError>,
    K: Fn(&Order, &Order) -> Result<(), BotError>,

    requires
        pre.wf(),
        asset_no < pre.assets.len(),
        pre.orders[asset_no as int].contains_key(order_id),
        cleared is None || cleared == Some(asset_no),
    ensures
        ({
            let order = pre.orders[asset_no as int][order_id];
            let post = pre.inactive_cleared(cleared);
            if order.is_active() {
                &&& post.orders[asset_no as int].contains_key(order_id)
                &&& post.orders[asset_no as int][order_id] == order
            } else {
                post.submit_refusal(asset_no, order_id) is None
            }
        }),
{
}

/// Clearing inactive orders twice does what clearing them once does, and clearing them of all
/// assets does to each asset what clearing them of that asset does.
pub proof fn clearing_is_idempotent<MD, H, K>(pre: BotModel<MD, H, K>, asset_no: Option<usize>)
    ensures
        pre.inactive_cleared(asset_no).inactive_cleared(asset_no) == pre.inactive_cleared(asset_no),
        forall|i: usize|
            i < pre.orders.len() ==> pre.inactive_cleared(None).orders[i as int]
                == #[trigger] pre.inactive_cleared(Some(i)).orders[i as int],
{
    let once = pre.inactive_cleared(asset_no);
    assert forall|i: int| 0 <= i < pre.orders.len() implies model::active_only(
        model::active_only(#[trigger] pre.orders[i]),
    ) == model::active_only(pre.orders[i]) by {
        assert(model::active_only(model::active_only(pre.orders[i])) =~= model::active_only(
            pre.orders[i],
        ));
    }
    assert(once.inactive_cleared(asset_no).orders =~= once.orders);
}

/// Once the trades of an asset were cleared, what is kept are the most recent of the trades among
/// the events that came since, as many as the bot keeps.
pub proof fn trades_since_clearing<
    MD: L2MarketDepth,
    H: Fn(LiveError) -> Result<(), BotError>,
    K: Fn(&Order, &Order) -> Result<(), BotError>,
>(
    pre: BotModel<MD, H, K>,
    asset_no: usize,
    events: Seq<Event>,
    post: BotModel<MD, H, K>,
)
    requires
        pre.wf(),
        asset_no < pre.assets.len(),
        model::fed(pre.trades_cleared(Some(asset_no)), asset_no as int, events, post),
    ensures
        post.trade[asset_no as int] == model::kept(
            model::trades_of(events),
            pre.last_trades_capacity as nat,
        ),
{
    reveal(Seq::filter);
    assert(Seq::<Event>::empty() + model::trades_of(events) =~= model::trades_of(events));
}

/// Two assets share a channel exactly if they are traded through the same connector.
pub proof fn channels_are_shared_by_connector<MD, H, K>(
    bot: BotModel<MD, H, K>,
    i: int,
    j: int,
) where
    MD: L2MarketDepth,
    H: Fn(LiveError) -> Result<(), BotError>,
    K: Fn(&Order, &Order) -> Result<(), BotError>,

    requires
        bot.wf(),
        0 <= i < bot.assets.len(),
        0 <= j < bot.assets.len(),
    ensures
        bot.pubsub[i] == bot.pubsub[j] <==> bot.assets[i].0@ == bot.assets[j].0@,
{
    let names = model::connector_names(bot.assets);
    model::distinct_is_exact(names);
    assert(names[i] == bot.assets[i].0@);
    assert(names[j] == bot.assets[j].0@);
}

/// When a channel is opened for every asset that is the first of its connector, in turn, the
/// channels stand in the order by which the bot numbers them.
pub proof fn channels_open_in_order(assets: Seq<(String, Asset)>, i: int)
    requires
        0 <= i < assets.len(),
    ensures
        ({
            let names = model::connector_names(assets);
            model::distinct(names.take(i + 1)) == if builder::first_of_connector(assets, i) {
                model::distinct(names.take(i)).push(assets[i].0@)
            } else {
                model::distinct(names.take(i))
            }
        }),
{
    let names = model::connector_names(assets);
    let before = names.take(i);
    model::distinct_is_exact(before);
    assert(names.take(i + 1).drop_last() =~= before);
    assert(names.take(i + 1).last() == assets[i].0@);
    if builder::first_of_connector(assets, i) {
        if before.contains(assets[i].0@) {
            let j = before.index_of(assets[i].0@);
            assert(assets[j].0@ == assets[i].0@);
        }
    } else {
        let j = choose|j: int| 0 <= j < i && (#[trigger] assets[j]).0@ == assets[i].0@;
        assert(before[j] == assets[i].0@);
        assert(before.contains(assets[i].0@));
    }
}

/// Assets are refused as duplicates exactly if two of them have the same key.
pub proof fn duplicates_are_found(assets: Seq<(String, Asset)>)
    ensures
        builder::all_distinct(assets) <==> !(exists|i: int| builder::first_duplicate(assets, i)),
{
    if builder::all_distinct(assets) {
        assert forall|i: int| !builder::first_duplicate(assets, i) by {}
    } else {
        let (i, j) = choose|i: int, j: int|
            0 <= i < j < assets.len() && builder::asset_key(#[trigger] assets[i])
                == builder::asset_key(#[trigger] assets[j]);
        assert(builder::duplicate_at(assets, j));
        least_duplicate(assets, j);
    }
}

/// If there is a duplicate, there is a first one.
proof fn least_duplicate(assets: Seq<(String, Asset)>, i: int)
    requires
        0 <= i < assets.len(),
        builder::duplicate_at(assets, i),
    ensures
        exists|k: int| builder::first_duplicate(assets, k),
    decreases i,
{
    if exists|j: int| 0 <= j < i && builder::duplicate_at(assets, j) {
        let j = choose|j: int| 0 <= j < i && builder::duplicate_at(assets, j);
        least_duplicate(assets, j);
    } else {
        assert(builder::first_duplicate(assets, i));
    }
}

/// Where a look at the channels stands when so many of them are done, each of which was silent or
/// had something that does not end the wait.
pub open spec fn sweep_after(run: Run, assets: nat, silent: Seq<bool>) -> Step
    decreases silent.len(),
{
    if silent.len() == 0 {
        if assets == 0 {
            Step::ReadRemaining(CycleEnd { run })
        } else {
            Step::Receive(Sweep { run, next: 0, no_data: 0 })
        }
    } else {
        match sweep_after(run, assets, silent.drop_last()) {
            Step::Receive(sweep) => sweep.after(silent.last(), assets),
            step => step,
        }
    }
}

/// A look at the channels asks the one of every asset once, in the order of the assets. It is
/// followed by a pause exactly if every channel was silent, and otherwise by another look at once.
pub proof fn every_channel_is_asked_once(run: Run, assets: nat, silent: Seq<bool>)
    requires
        silent.len() <= assets <= usize::MAX,
    ensures
        silent.len() < assets ==> {
            &&& sweep_after(run, assets, silent) matches Step::Receive(sweep)
            &&& sweep.run == run
            &&& sweep.next == silent.len()
            &&& sweep.no_data == silent.filter(|s: bool| s).len()
        },
        silent.len() == assets ==> sweep_after(run, assets, silent) == if forall|i: int|
            0 <= i < silent.len() ==> silent[i] {
            Step::ReadRemaining(CycleEnd { run })
        } else {
            Step::ReadElapsed(SweepStart { run })
        },
    decreases silent.len(),
{
    reveal(Seq::filter);
    let is_silent = |s: bool| s;
    if silent.len() > 0 {
        let before = silent.drop_last();
        every_channel_is_asked_once(run, assets, before);
        before.lemma_filter_len(is_silent);
        silent_channels_are_counted(silent);
    }
}

/// All were silent exactly if as many were silent as there are.
proof fn silent_channels_are_counted(silent: Seq<bool>)
    ensures
        silent.filter(|s: bool| s).len() <= silent.len(),
        silent.filter(|s: bool| s).len() == silent.len() <==> forall|i: int|
            0 <= i < silent.len() ==> silent[i],
    decreases silent.len(),
{
    reveal(Seq::filter);
    if silent.len() > 0 {
        let before = silent.drop_last();
        silent_channels_are_counted(before);
        assert forall|i: int| 0 <= i < before.len() implies before[i] == silent[i] by {}
        if forall|i: int| 0 <= i < before.len() ==> before[i] {
            if silent.last() {
                assert(forall|i: int| 0 <= i < silent.len() ==> silent[i]);
            }
        } else {
            let i = choose|i: int| 0 <= i < before.len() && !before[i];
            assert(!silent[i]);
        }
    }
}

/// A wait begins its look at the channels where it asks the first one, unless its time is over;
/// once the time is over the wait ends at either reading of the clock.
pub proof fn time_ends_a_wait(run: Run, elapsed: u128, assets: nat)
    ensures
        (elapsed as i64) > run.duration ==> {
            &&& (SweepStart { run }).after(elapsed, assets) == Step::Return(true)
            &&& (CycleEnd { run }).after(elapsed) == Step::Return(true)
        },
        (elapsed as i64) <= run.duration ==> {
            &&& (SweepStart { run }).after(elapsed, assets) == sweep_after(
                run,
                assets,
                Seq::empty(),
            )
            &&& (CycleEnd { run }).after(elapsed) == run.pause(run.duration - (elapsed as i64))
        },
{
}

/// No pause is longer than a cycle, nor, while there is time left, longer than that.
pub proof fn pauses_are_short(run: Run, remaining: int)
    ensures
        run.pause(remaining) matches Step::Pause(pause) && pause.run == run && pause.nanos
            <= CYCLE_NANOS && (remaining >= 0 ==> pause.nanos <= remaining),
{
}

/// The step is one of the given wait, or the end of one.
pub open spec fn step_of(step: Step, run: Run) -> bool {
    match step {
        Step::Pause(pause) => pause.run == run,
        Step::ReadElapsed(start) => start.run == run,
        Step::Receive(sweep) => sweep.run == run,
        Step::ReadRemaining(end) => end.run == run,
        Step::Return(_) => true,
    }
}

/// A wait keeps to its terms from the first step to the last, whatever happens in between.
pub proof fn waits_keep_their_terms<
    MD: L2MarketDepth,
    H: Fn(LiveError) -> Result<(), BotError>,
    K: Fn(&Order, &Order) -> Result<(), BotError>,
>(
    pause: Pause,
    wakeup: Wakeup,
    start: SweepStart,
    elapsed: u128,
    assets: nat,
    pre: BotModel<MD, H, K>,
    sweep: Sweep,
    received: Result<Option<LiveEvent>, PubSubError>,
    post: BotModel<MD, H, K>,
    result: Result<Step, BotError>,
    end: CycleEnd,
    run: Run,
)
    requires
        model::processed(pre, sweep, received, post, result),
    ensures
        step_of(run.first(), run),
        step_of(pause.after(wakeup), pause.run),
        step_of(start.after(elapsed, assets), start.run),
        result matches Ok(step) ==> step_of(step, sweep.run),
        step_of(end.after(elapsed), end.run),
{
}

/// A wait comes to `false` only on a signal to stop.
pub proof fn only_signals_return_false<
    MD: L2MarketDepth,
    H: Fn(LiveError) -> Result<(), BotError>,
    K: Fn(&Order, &Order) -> Result<(), BotError>,
>(
    pause: Pause,
    wakeup: Wakeup,
    start: SweepStart,
    elapsed: u128,
    assets: nat,
    pre: BotModel<MD, H, K>,
    sweep: Sweep,
    received: Result<Option<LiveEvent>, PubSubError>,
    post: BotModel<MD, H, K>,
    result: Result<Step, BotError>,
    end: CycleEnd,
)
    requires
        model::processed(pre, sweep, received, post, result),
    ensures
        pause.after(wakeup) == Step::Return(false) <==> wakeup != Wakeup::Tick,
        start.after(elapsed, assets) != Step::Return(false),
        result != Ok::<Step, BotError>(Step::Return(false)),
        end.after(elapsed) != Step::Return(false),
{
}

/// What the driver reports of a step that it carried out.
pub enum Outcome {
    Woken(Wakeup),
    Elapsed(u128),
    Received(Result<Option<LiveEvent>, PubSubError>),
}

/// A step that was carried out with this outcome leads to `result`, and the bot from `pre` to
/// `post`. The end of a wait leads nowhere.
pub open spec fn leads<
    MD: L2MarketDepth,
    H: Fn(LiveError) -> Result<(), BotError>,
    K: Fn(&Order, &Order) -> Result<(), BotError>,
>(
    pre: BotModel<MD, H, K>,
    step: Step,
    outcome: Outcome,
    post: BotModel<MD, H, K>,
    result: Result<Step, BotError>,
) -> bool {
    match (step, outcome) {
        (Step::Pause(pause), Outcome::Woken(wakeup)) => post == pre && result == Ok::<
            Step,
            BotError,
        >(pause.after(wakeup)),
        (Step::ReadElapsed(start), Outcome::Elapsed(elapsed)) => post == pre && result == Ok::<
            Step,
            BotError,
        >(start.after(elapsed, pre.assets.len())),
        (Step::Receive(sweep), Outcome::Received(received)) => model::processed(
            pre,
            sweep,
            received,
            post,
            result,
        ),
        (Step::ReadRemaining(end), Outcome::Elapsed(elapsed)) => post == pre && result == Ok::<
            Step,
            BotError,
        >(end.after(elapsed)),
        _ => false,
    }
}

/// The steps of a wait from its first one on, with the outcome of each but the last, and the states
/// of the bot in which they are taken.
pub open spec fn course<
    MD: L2MarketDepth,
    H: Fn(LiveError) -> Result<(), BotError>,
    K: Fn(&Order, &Order) -> Result<(), BotError>,
>(
    run: Run,
    steps: Seq<Step>,
    outcomes: Seq<Outcome>,
    states: Seq<BotModel<MD, H, K>>,
) -> bool {
    &&& steps.len() == outcomes.len() + 1
    &&& states.len() == steps.len()
    &&& steps.first() == run.first()
    &&& forall|i: int|
        0 <= i < outcomes.len() ==> leads(
            states[i],
            steps[i],
            #[trigger] outcomes[i],
            states[i + 1],
            Ok(steps[i + 1]),
        )
}

/// The outcome is one that the wait is for: its time is over, or what it waits for has come.
pub open spec fn fulfils(outcome: Outcome, run: Run) -> bool {
    match outcome {
        Outcome::Woken(_) => false,
        Outcome::Elapsed(elapsed) => (elapsed as i64) > run.duration,
        Outcome::Received(Ok(Some(LiveEvent::FeedBatch { .. }))) => run.wait_next_feed,
        Outcome::Received(Ok(Some(LiveEvent::Order { asset_no, order }))) => {
            ||| run.wait_order_response == WaitOrderResponse::Any
            ||| run.wait_order_response == (WaitOrderResponse::Specified {
                asset_no,
                order_id: order.order_id,
            })
        },
        Outcome::Received(_) => false,
    }
}

/// The outcome is a signal to stop.
pub open spec fn stops(outcome: Outcome) -> bool {
    outcome matches Outcome::Woken(wakeup) && wakeup != Wakeup::Tick
}

/// Every step of a wait is one of that wait.
proof fn course_keeps_its_terms<
    MD: L2MarketDepth,
    H: Fn(LiveError) -> Result<(), BotError>,
    K: Fn(&Order, &Order) -> Result<(), BotError>,
>(
    run: Run,
    steps: Seq<Step>,
    outcomes: Seq<Outcome>,
    states: Seq<BotModel<MD, H, K>>,
    i: int,
)
    requires
        course(run, steps, outcomes, states),
        0 <= i < steps.len(),
    ensures
        step_of(steps[i], run),
    decreases i,
{
    if i > 0 {
        course_keeps_its_terms(run, steps, outcomes, states, i - 1);
        assert(leads(states[i - 1], steps[i - 1], outcomes[i - 1], states[i], Ok(steps[i])));
    }
}

/// How a wait goes, from its first step on. It comes to `false` exactly when it was just woken by a
/// signal to stop. It comes to `true` exactly when what it is for has just happened: its time is
/// over, or a batch of market data or an order response has come that it waits for. Until then it
/// goes on, and then it is over: nothing is waited for, read or received any more.
pub proof fn waits_end_as_asked<
    MD: L2MarketDepth,
    H: Fn(LiveError) -> Result<(), BotError>,
    K: Fn(&Order, &Order) -> Result<(), BotError>,
>(
    run: Run,
    steps: Seq<Step>,
    outcomes: Seq<Outcome>,
    states: Seq<BotModel<MD, H, K>>,
)
    requires
        course(run, steps, outcomes, states),
    ensures
        steps.last() == Step::Return(false) <==> outcomes.len() > 0 && stops(outcomes.last()),
        steps.last() == Step::Return(true) <==> outcomes.len() > 0 && fulfils(
            outcomes.last(),
            run,
        ),
        forall|i: int| 0 <= i < outcomes.len() ==> !((#[trigger] steps[i]) is Return),
        forall|i: int|
            0 <= i < outcomes.len() - 1 ==> !fulfils(#[trigger] outcomes[i], run) && !stops(
                outcomes[i],
            ),
{
    assert forall|i: int| 0 <= i < outcomes.len() implies {
        &&& !((#[trigger] steps[i]) is Return)
        &&& steps[i + 1] == Step::Return(false) <==> stops(outcomes[i])
        &&& steps[i + 1] == Step::Return(true) <==> fulfils(outcomes[i], run)
    } by {
        course_keeps_its_terms(run, steps, outcomes, states, i);
        assert(leads(states[i], steps[i], outcomes[i], states[i + 1], Ok(steps[i + 1])));
    }
    assert forall|i: int| 0 <= i < outcomes.len() - 1 implies !fulfils(
        #[trigger] outcomes[i],
        run,
    ) && !stops(outcomes[i]) by {
        assert(!(steps[i + 1] is Return));
        assert(!(steps[i] is Return));
    }
    if outcomes.len() > 0 {
        let last = outcomes.len() - 1;
        assert(!(steps[last] is Return));
        assert(steps[last + 1] == steps.last());
    }
}

/// A wait fails only over something that was received.
pub proof fn only_receiving_fails<
    MD: L2MarketDepth,
    H: Fn(LiveError) -> Result<(), BotError>,
    K: Fn(&Order, &Order) -> Result<(), BotError>,
>(
    pre: BotModel<MD, H, K>,
    step: Step,
    outcome: Outcome,
    post: BotModel<MD, H, K>,
    error: BotError,
)
    requires
        leads(pre, step, outcome, post, Err(error)),
    ensures
        step is Receive,
        !(outcome matches Outcome::Received(Ok(None))),
{
}

} // verus!
