use live_bot::bot::LiveBot2;
use live_bot::depth::L2MarketDepth;
use live_bot::errors::{BotError, PubSubError};
use live_bot::run::{Outgoing, Run, Step};
use live_bot::types::{
    Asset, LiveError, OrdType, Order, OrderId, OrderRequest, Real, Request, Side, Status,
    TimeInForce, WaitOrderResponse,
};

struct Book;

impl L2MarketDepth for Book {
    fn update_bid_depth(&mut self, _px: Real, _qty: Real, _timestamp: i64) {}

    fn update_ask_depth(&mut self, _px: Real, _qty: Real, _timestamp: i64) {}
}

type Handler = fn(LiveError) -> Result<(), BotError>;
type Hook = fn(&Order, &Order) -> Result<(), BotError>;
type Bot = LiveBot2<Book, Handler, Hook>;

fn num(value: f64) -> Real {
    Real { bits: value.to_bits() }
}

fn bot() -> Bot {
    Bot::builder()
        .add("first", "x", num(0.5), num(1.0))
        .add("second", "y", num(0.25), num(1.0))
        .depth(|_: &Asset| Book)
        .build()
        .unwrap()
}

fn wanted(order_id: OrderId) -> OrderRequest {
    OrderRequest {
        order_id,
        price_tick: 201,
        qty: num(3.0),
        side: Side::Sell,
        time_in_force: TimeInForce::GTX,
        order_type: OrdType::Limit,
    }
}

fn acknowledged(order_id: OrderId, status: Status, exch_timestamp: i64) -> Order {
    Order {
        order_id,
        price_tick: 201,
        qty: num(3.0),
        leaves_qty: num(3.0),
        tick_size: num(0.25),
        side: Side::Sell,
        time_in_force: TimeInForce::GTX,
        order_type: OrdType::Limit,
        status,
        local_timestamp: 1000,
        req: Status::Nothing,
        exec_price_tick: 0,
        exch_timestamp,
        exec_qty: num(0.0),
        maker: false,
    }
}

#[test]
fn a_submitted_order_is_filed_and_published() {
    let mut bot = bot();
    let outgoing = bot.submit_order_at(1, wanted(7), true, 1000).unwrap();
    let order = Order {
        order_id: 7,
        price_tick: 201,
        qty: num(3.0),
        leaves_qty: num(3.0),
        tick_size: num(0.25),
        side: Side::Sell,
        time_in_force: TimeInForce::GTX,
        order_type: OrdType::Limit,
        status: Status::New,
        local_timestamp: 1000,
        req: Status::New,
        exec_price_tick: 0,
        exch_timestamp: 0,
        exec_qty: num(0.0),
        maker: false,
    };
    assert_eq!(
        outgoing,
        Outgoing { channel: 1, request: Request::Order { asset_no: 1, order }, wait: true }
    );
    assert_eq!(bot.orders(1).get(&7), Some(&order));
    assert_eq!(bot.orders(1).len(), 1);
    assert!(bot.orders(0).is_empty());
}

#[test]
fn submissions_are_refused() {
    let mut bot = bot();
    let r = bot.submit_order_at(2, wanted(7), false, 1000);
    assert!(matches!(r, Err(BotError::AssetNotFound)));
    let r = bot.submit_order(2, wanted(7), false);
    assert!(matches!(r, Err(BotError::AssetNotFound)));
    bot.submit_order_at(0, wanted(7), false, 1000).unwrap();
    let r = bot.submit_order_at(0, wanted(7), false, 1001);
    assert!(matches!(r, Err(BotError::OrderIdExist)));
    let r = bot.submit_order(0, wanted(7), false);
    assert!(matches!(r, Err(BotError::OrderIdExist)));
    assert_eq!(bot.orders(0)[&7].local_timestamp, 1000);
    // The same id may be used for another asset.
    assert!(bot.submit_order_at(1, wanted(7), false, 1000).is_ok());
}

#[test]
fn buy_and_sell_orders_have_their_side() {
    let mut bot = bot();
    let before = chrono::Utc::now().timestamp_nanos_opt().unwrap();
    let bought = bot
        .submit_buy_order(0, 1, 100, num(1.0), TimeInForce::IOC, OrdType::Market, false)
        .unwrap();
    let sold = bot
        .submit_sell_order(1, 2, 101, num(2.0), TimeInForce::FOK, OrdType::Limit, true)
        .unwrap();
    let after = chrono::Utc::now().timestamp_nanos_opt().unwrap();
    let Request::Order { asset_no, order } = bought.request;
    assert_eq!((asset_no, bought.channel, bought.wait), (0, 0, false));
    assert_eq!(order.side, Side::Buy);
    assert_eq!((order.order_id, order.price_tick, order.qty), (1, 100, num(1.0)));
    assert_eq!((order.time_in_force, order.order_type), (TimeInForce::IOC, OrdType::Market));
    assert_eq!(order.tick_size, num(0.5));
    assert!(before <= order.local_timestamp && order.local_timestamp <= after);
    let Request::Order { asset_no, order } = sold.request;
    assert_eq!((asset_no, sold.channel, sold.wait), (1, 1, true));
    assert_eq!(order.side, Side::Sell);
    assert_eq!((order.order_id, order.price_tick, order.qty), (2, 101, num(2.0)));
    assert!(before <= order.local_timestamp && order.local_timestamp <= after);
}

#[test]
fn the_current_time_is_that_of_the_clock() {
    let before = chrono::Utc::now().timestamp_nanos_opt().unwrap();
    let now = bot().current_timestamp().unwrap();
    let after = chrono::Utc::now().timestamp_nanos_opt().unwrap();
    assert!(0 <= now && before <= now && now <= after);
}

#[test]
fn a_pending_order_cannot_be_cancelled() {
    let mut bot = bot();
    bot.submit_order_at(0, wanted(7), false, 1000).unwrap();
    let r = bot.cancel_at(0, 7, false, 1001);
    assert!(matches!(r, Err(BotError::InvalidOrderStatus)));
    let r = bot.cancel(0, 7, false);
    assert!(matches!(r, Err(BotError::InvalidOrderStatus)));
}

#[test]
fn cancellations_are_refused() {
    let mut bot = bot();
    assert!(matches!(bot.cancel_at(2, 7, false, 1), Err(BotError::AssetNotFound)));
    assert!(matches!(bot.cancel(2, 7, false), Err(BotError::AssetNotFound)));
    assert!(matches!(bot.cancel_at(0, 7, false, 1), Err(BotError::OrderNotFound)));
    assert!(matches!(bot.cancel(0, 7, false), Err(BotError::OrderNotFound)));
    bot.receive_order(0, acknowledged(7, Status::Filled, 10), 11).unwrap();
    assert!(matches!(bot.cancel_at(0, 7, false, 1), Err(BotError::InvalidOrderStatus)));
    assert_eq!(bot.orders(0)[&7], acknowledged(7, Status::Filled, 10));
}

#[test]
fn a_cancellation_is_noted_and_published() {
    let mut bot = bot();
    bot.submit_order_at(1, wanted(7), false, 1000).unwrap();
    bot.receive_order(1, acknowledged(7, Status::PartiallyFilled, 1500), 1600).unwrap();
    let outgoing = bot.cancel_at(1, 7, true, 2000).unwrap();
    let order = Order {
        req: Status::Canceled,
        local_timestamp: 2000,
        ..acknowledged(7, Status::PartiallyFilled, 1500)
    };
    assert_eq!(
        outgoing,
        Outgoing { channel: 1, request: Request::Order { asset_no: 1, order }, wait: true }
    );
    assert_eq!(bot.orders(1)[&7], order);
    // Only one cancellation at a time.
    assert!(matches!(bot.cancel_at(1, 7, true, 2001), Err(BotError::InvalidOrderStatus)));
    bot.receive_order(1, acknowledged(7, Status::PartiallyFilled, 2500), 2600).unwrap();
    let before = chrono::Utc::now().timestamp_nanos_opt().unwrap();
    bot.cancel(1, 7, false).unwrap();
    let after = chrono::Utc::now().timestamp_nanos_opt().unwrap();
    let stamped = bot.orders(1)[&7].local_timestamp;
    assert!(before <= stamped && stamped <= after);
}

#[test]
fn inactive_orders_are_cleared() {
    let mut bot = bot();
    for asset_no in 0..2 {
        for (id, status) in [
            (1, Status::New),
            (2, Status::PartiallyFilled),
            (3, Status::Filled),
            (4, Status::Canceled),
            (5, Status::Expired),
            (6, Status::Nothing),
        ] {
            bot.receive_order(asset_no, acknowledged(id, status, 10), 11).unwrap();
        }
    }
    bot.clear_inactive_orders(Some(9));
    assert_eq!((bot.orders(0).len(), bot.orders(1).len()), (6, 6));
    bot.clear_inactive_orders(Some(1));
    assert_eq!((bot.orders(0).len(), bot.orders(1).len()), (6, 2));
    bot.clear_inactive_orders(None);
    bot.clear_inactive_orders(None);
    for asset_no in 0..2 {
        assert_eq!(bot.orders(asset_no).len(), 2);
        assert_eq!(bot.orders(asset_no)[&1], acknowledged(1, Status::New, 10));
        assert_eq!(bot.orders(asset_no)[&2], acknowledged(2, Status::PartiallyFilled, 10));
    }
    // The id of an order that was cleared is free again.
    assert!(bot.submit_order_at(0, wanted(3), false, 20).is_ok());
    assert!(matches!(
        bot.submit_order_at(0, wanted(1), false, 20),
        Err(BotError::OrderIdExist)
    ));
}

#[test]
fn sending_leads_to_a_wait_or_to_the_end() {
    let mut bot = bot();
    let quiet = bot.submit_order_at(0, wanted(7), false, 1000).unwrap();
    assert!(matches!(quiet.sent(Ok(())), Ok(Step::Return(true))));
    let waiting = bot.submit_order_at(1, wanted(8), true, 1000).unwrap();
    match waiting.sent(Ok(())) {
        Ok(Step::Pause(pause)) => {
            assert_eq!(pause.nanos, 1000);
            assert_eq!(
                pause.run,
                Run {
                    wait_next_feed: false,
                    duration: 60_000_000_000,
                    wait_order_response: WaitOrderResponse::Specified { asset_no: 1, order_id: 8 },
                }
            );
        }
        _ => panic!("no wait"),
    }
    let failed = waiting.sent(Err(PubSubError::PublisherSend("ConnectionCorrupted".to_string())));
    match failed {
        Err(BotError::PubSub(PubSubError::PublisherSend(fault))) => {
            assert_eq!(fault, "ConnectionCorrupted")
        }
        _ => panic!("the fault was lost"),
    }
    // The order stays on file though it was not sent.
    assert!(bot.orders(1).contains_key(&8));
}

#[test]
fn live_bots_ignore_backtest_time_and_close() {
    let mut bot = bot();
    assert!(matches!(bot.elapse_bt(5), Ok(true)));
    assert!(bot.close().is_ok());
}

#[test]
fn a_final_order_stays_until_it_is_cleared() {
    let mut bot = bot();
    let filled = acknowledged(7, Status::Filled, 100);
    bot.receive_order(0, filled, 110).unwrap();
    assert!(bot.submit_order_at(0, wanted(7), false, 120).is_err());
    assert!(bot.cancel_at(0, 7, false, 130).is_err());
    bot.receive_order(0, acknowledged(7, Status::New, 140), 150).unwrap();
    bot.submit_order_at(0, wanted(8), false, 160).unwrap();
    bot.clear_last_trades(None);
    assert_eq!(bot.orders(0)[&7], filled);
    bot.clear_inactive_orders(None);
    assert!(!bot.orders(0).contains_key(&7));
    assert!(bot.orders(0).contains_key(&8));
}

#[test]
fn the_reading_of_the_clock_decides_on_requests() {
    let mut bot = bot();
    let r = bot.submit_order_on(2, wanted(7), false, None);
    assert!(matches!(r, Err(BotError::AssetNotFound)));
    let r = bot.submit_order_on(0, wanted(7), false, None);
    assert!(matches!(r, Err(BotError::ClockOutOfRange)));
    assert!(bot.orders(0).is_empty());
    bot.submit_order_on(0, wanted(7), false, Some(1000)).unwrap();
    assert_eq!(bot.orders(0)[&7].local_timestamp, 1000);
    let r = bot.submit_order_on(0, wanted(7), false, None);
    assert!(matches!(r, Err(BotError::OrderIdExist)));

    let r = bot.cancel_on(2, 7, false, None);
    assert!(matches!(r, Err(BotError::AssetNotFound)));
    let r = bot.cancel_on(0, 8, false, None);
    assert!(matches!(r, Err(BotError::OrderNotFound)));
    let r = bot.cancel_on(0, 7, false, None);
    assert!(matches!(r, Err(BotError::InvalidOrderStatus)));
    bot.receive_order(0, acknowledged(7, Status::New, 1500), 1600).unwrap();
    let r = bot.cancel_on(0, 7, false, None);
    assert!(matches!(r, Err(BotError::ClockOutOfRange)));
    assert_eq!(bot.orders(0)[&7], acknowledged(7, Status::New, 1500));
    let outgoing = bot.cancel_on(0, 7, true, Some(2000)).unwrap();
    assert!(outgoing.wait);
    assert_eq!(bot.orders(0)[&7].local_timestamp, 2000);
    assert_eq!(bot.orders(0)[&7].req, Status::Canceled);
}
