use live_bot::bot::LiveBot2;
use live_bot::depth::L2MarketDepth;
use live_bot::errors::BotError;
use live_bot::types::{
    Asset, Event, LiveError, LiveEvent, OrdType, Order, OrderId, Real, Side, Status, TimeInForce,
    WaitOrderResponse, BUY_EVENT, DEPTH_EVENT, LOCAL_ASK_DEPTH_EVENT, LOCAL_BID_DEPTH_EVENT,
    LOCAL_BUY_TRADE_EVENT, LOCAL_EVENT, LOCAL_SELL_TRADE_EVENT, SELL_EVENT, TRADE_EVENT,
};

#[derive(Clone, Copy, Debug, PartialEq)]
enum Update {
    Bid(f64, f64, i64),
    Ask(f64, f64, i64),
}

#[derive(Debug, Default)]
struct Book {
    updates: Vec<Update>,
}

impl L2MarketDepth for Book {
    fn update_bid_depth(&mut self, px: Real, qty: Real, timestamp: i64) {
        self.updates.push(Update::Bid(f64::from_bits(px.bits), f64::from_bits(qty.bits), timestamp));
    }

    fn update_ask_depth(&mut self, px: Real, qty: Real, timestamp: i64) {
        self.updates.push(Update::Ask(f64::from_bits(px.bits), f64::from_bits(qty.bits), timestamp));
    }
}

type Handler = fn(LiveError) -> Result<(), BotError>;
type Hook = fn(&Order, &Order) -> Result<(), BotError>;
type Bot = LiveBot2<Book, Handler, Hook>;

fn make_book(_asset: &Asset) -> Book {
    Book::default()
}

fn bot_with(trades: usize, handler: Option<Handler>, hook: Option<Hook>) -> Bot {
    let mut builder = Bot::builder()
        .add("connector", "x", num(0.5), num(1.0))
        .add("connector", "y", num(0.5), num(1.0))
        .last_trades_capacity(trades)
        .depth(make_book as fn(&Asset) -> Book);
    if let Some(handler) = handler {
        builder = builder.error_handler(handler);
    }
    if let Some(hook) = hook {
        builder = builder.order_recv_hook(hook);
    }
    builder.build().unwrap()
}

fn bot() -> Bot {
    bot_with(16, None, None)
}

fn num(value: f64) -> Real {
    Real { bits: value.to_bits() }
}

fn event(ev: u64, px: f64, qty: f64, ts: i64) -> Event {
    Event { ev, exch_ts: ts, local_ts: ts + 5, px: num(px), qty: num(qty) }
}

fn order(order_id: OrderId, status: Status, exch_timestamp: i64) -> Order {
    Order {
        order_id,
        price_tick: 100,
        qty: num(2.0),
        leaves_qty: num(2.0),
        tick_size: num(0.5),
        side: Side::Buy,
        time_in_force: TimeInForce::GTC,
        order_type: OrdType::Limit,
        status,
        local_timestamp: exch_timestamp - 1,
        req: Status::Nothing,
        exec_price_tick: 0,
        exch_timestamp,
        exec_qty: num(0.0),
        maker: false,
    }
}

fn feed(bot: &mut Bot, asset_no: usize, event: Event) -> bool {
    bot.handle_event(LiveEvent::Feed { asset_no, event }, true, WaitOrderResponse::Never)
        .unwrap()
}

#[test]
fn depth_events_reach_the_book_of_their_asset() {
    let mut bot = bot();
    assert!(!feed(&mut bot, 1, event(LOCAL_BID_DEPTH_EVENT, 10.0, 1.0, 100)));
    assert!(!feed(&mut bot, 1, event(LOCAL_ASK_DEPTH_EVENT, 11.0, 2.0, 101)));
    assert!(bot.depth(0).updates.is_empty());
    assert_eq!(
        bot.depth(1).updates,
        vec![Update::Bid(10.0, 1.0, 100), Update::Ask(11.0, 2.0, 101)]
    );
    assert_eq!(bot.feed_latency(0), None);
    assert_eq!(bot.feed_latency(1), Some((101, 106)));
    assert!(bot.last_trades(1).is_empty());
}

#[test]
fn trades_are_kept_in_order() {
    let mut bot = bot();
    let first = event(LOCAL_BUY_TRADE_EVENT, 10.0, 1.0, 100);
    let second = event(LOCAL_SELL_TRADE_EVENT, 9.5, 3.0, 102);
    feed(&mut bot, 0, first);
    feed(&mut bot, 0, event(LOCAL_BID_DEPTH_EVENT, 10.0, 1.0, 101));
    feed(&mut bot, 0, second);
    assert_eq!(bot.last_trades(0), &[first, second]);
    assert!(bot.last_trades(1).is_empty());
    assert_eq!(bot.depth(0).updates, vec![Update::Bid(10.0, 1.0, 101)]);
}

#[test]
fn only_the_last_trades_are_stored() {
    let trade = |i| event(LOCAL_BUY_TRADE_EVENT, 10.0, 1.0, i);
    let mut one = bot_with(1, None, None);
    feed(&mut one, 0, trade(0));
    feed(&mut one, 0, trade(1));
    assert_eq!(one.last_trades(0), &[trade(1)]);
    let mut three = bot_with(3, None, None);
    for i in 0..5 {
        feed(&mut three, 0, trade(i));
        assert_eq!(three.last_trades(0).len(), std::cmp::min(i as usize + 1, 3));
    }
    assert_eq!(three.last_trades(0), &[trade(2), trade(3), trade(4)]);
    // A batch that is longer than what is stored leaves its last trades.
    let batch = LiveEvent::FeedBatch { asset_no: 0, events: (5..12).map(trade).collect() };
    three.handle_event(batch, false, WaitOrderResponse::Never).unwrap();
    assert_eq!(three.last_trades(0), &[trade(9), trade(10), trade(11)]);
    three.clear_last_trades(Some(0));
    feed(&mut three, 0, trade(12));
    assert_eq!(three.last_trades(0), &[trade(12)]);
}

#[test]
fn no_trades_are_kept_without_capacity() {
    let mut bot = bot_with(0, None, None);
    feed(&mut bot, 0, event(LOCAL_BUY_TRADE_EVENT, 10.0, 1.0, 100));
    assert!(bot.last_trades(0).is_empty());
    assert_eq!(bot.feed_latency(0), Some((100, 105)));
}

#[test]
fn other_events_only_set_the_latency() {
    let mut bot = bot();
    feed(&mut bot, 0, event(DEPTH_EVENT | BUY_EVENT, 10.0, 1.0, 100));
    feed(&mut bot, 0, event(LOCAL_EVENT | BUY_EVENT | 0x3, 10.0, 1.0, 101));
    assert!(bot.depth(0).updates.is_empty());
    assert!(bot.last_trades(0).is_empty());
    assert_eq!(bot.feed_latency(0), Some((101, 106)));
}

#[test]
fn event_kinds_are_told_apart() {
    let bid = event(LOCAL_BID_DEPTH_EVENT, 1.0, 1.0, 1);
    assert!(bid.is(LOCAL_BID_DEPTH_EVENT));
    assert!(bid.is(LOCAL_EVENT));
    assert!(bid.is(BUY_EVENT));
    assert!(!bid.is(LOCAL_ASK_DEPTH_EVENT));
    assert!(!bid.is(LOCAL_BUY_TRADE_EVENT));
    // The kind is compared as a whole: 3 has the bits of 1 and of 2, and is neither.
    let other = event(LOCAL_EVENT | BUY_EVENT | 0x3, 1.0, 1.0, 1);
    assert!(!other.is(LOCAL_BID_DEPTH_EVENT));
    assert!(!other.is(LOCAL_BUY_TRADE_EVENT));
    let both = event(LOCAL_EVENT | BUY_EVENT | SELL_EVENT | TRADE_EVENT, 1.0, 1.0, 1);
    assert!(both.is(LOCAL_BUY_TRADE_EVENT));
    assert!(both.is(LOCAL_SELL_TRADE_EVENT));
    assert_eq!(LOCAL_BID_DEPTH_EVENT, 0x6000_0001);
    assert_eq!(LOCAL_ASK_DEPTH_EVENT, 0x5000_0001);
    assert_eq!(LOCAL_BUY_TRADE_EVENT, 0x6000_0002);
    assert_eq!(LOCAL_SELL_TRADE_EVENT, 0x5000_0002);
}

#[test]
fn a_batch_does_what_its_events_do_in_turn() {
    let events = vec![
        event(LOCAL_BID_DEPTH_EVENT, 10.0, 1.0, 100),
        event(LOCAL_BUY_TRADE_EVENT, 10.0, 1.0, 101),
        event(LOCAL_BID_DEPTH_EVENT, 10.0, 0.0, 102),
        event(LOCAL_SELL_TRADE_EVENT, 9.0, 1.0, 103),
    ];
    let mut batched = bot();
    let ended = batched
        .handle_event(
            LiveEvent::FeedBatch { asset_no: 0, events: events.clone() },
            true,
            WaitOrderResponse::Never,
        )
        .unwrap();
    assert!(ended);
    let mut single = bot();
    for event in events {
        assert!(!feed(&mut single, 0, event));
    }
    assert_eq!(batched.depth(0).updates, single.depth(0).updates);
    assert_eq!(batched.last_trades(0), single.last_trades(0));
    assert_eq!(batched.feed_latency(0), single.feed_latency(0));
    assert_eq!(batched.feed_latency(0), Some((103, 108)));
}

#[test]
fn a_batch_ends_only_a_wait_for_the_feed() {
    let mut bot = bot();
    let batch = || LiveEvent::FeedBatch {
        asset_no: 0,
        events: vec![event(LOCAL_BID_DEPTH_EVENT, 10.0, 1.0, 100)],
    };
    assert!(!bot.handle_event(batch(), false, WaitOrderResponse::Any).unwrap());
    assert!(bot.handle_event(batch(), true, WaitOrderResponse::Never).unwrap());
}

#[test]
fn an_empty_batch_changes_nothing() {
    let mut bot = bot();
    let empty = LiveEvent::FeedBatch { asset_no: 9, events: vec![] };
    assert!(empty.fits(2));
    assert!(bot.handle_event(empty, true, WaitOrderResponse::Never).unwrap());
    assert_eq!(bot.feed_latency(0), None);
}

#[test]
fn events_that_fit_name_an_asset() {
    let some = event(LOCAL_BID_DEPTH_EVENT, 1.0, 1.0, 1);
    assert!(LiveEvent::Feed { asset_no: 1, event: some }.fits(2));
    assert!(!LiveEvent::Feed { asset_no: 2, event: some }.fits(2));
    assert!(!LiveEvent::FeedBatch { asset_no: 2, events: vec![some] }.fits(2));
    assert!(!LiveEvent::Position { asset_no: 2, qty: num(1.0) }.fits(2));
    assert!(LiveEvent::Order { asset_no: 2, order: order(1, Status::New, 1) }.fits(2));
    assert!(LiveEvent::Error(LiveError { message: "down".to_string() }).fits(0));
}

#[test]
fn positions_are_set() {
    let mut bot = bot();
    let ended = bot
        .handle_event(
            LiveEvent::Position { asset_no: 1, qty: num(-2.5) },
            true,
            WaitOrderResponse::Any,
        )
        .unwrap();
    assert!(!ended);
    assert_eq!(bot.position(0), num(0.0));
    assert_eq!(bot.position(1), num(-2.5));
}

#[test]
fn responses_update_known_orders() {
    let mut bot = bot();
    bot.receive_order(0, order(7, Status::New, 100), 110).unwrap();
    assert_eq!(bot.orders(0).get(&7), Some(&order(7, Status::New, 100)));
    assert_eq!(bot.order_latency(0), Some((99, 100, 110)));
    bot.receive_order(0, order(7, Status::PartiallyFilled, 100), 120).unwrap();
    assert_eq!(bot.orders(0).get(&7), Some(&order(7, Status::PartiallyFilled, 100)));
    assert_eq!(bot.order_latency(0), Some((99, 100, 120)));
    assert!(bot.orders(1).is_empty());
    assert_eq!(bot.order_latency(1), None);
}

#[test]
fn older_responses_are_ignored() {
    let mut bot = bot();
    bot.receive_order(0, order(7, Status::PartiallyFilled, 100), 110).unwrap();
    bot.receive_order(0, order(7, Status::New, 99), 120).unwrap();
    assert_eq!(bot.orders(0).get(&7), Some(&order(7, Status::PartiallyFilled, 100)));
    assert_eq!(bot.order_latency(0), Some((98, 99, 120)));
}

#[test]
fn final_statuses_stay() {
    for status in [Status::Canceled, Status::Expired, Status::Filled] {
        let mut bot = bot();
        bot.receive_order(0, order(7, status, 100), 110).unwrap();
        bot.receive_order(0, order(7, Status::New, 200), 210).unwrap();
        assert_eq!(bot.orders(0).get(&7), Some(&order(7, status, 100)));
        assert_eq!(bot.order_latency(0), Some((199, 200, 210)));
    }
}

#[test]
fn repeated_responses_are_harmless() {
    let mut bot = bot();
    let response = order(7, Status::Filled, 100);
    bot.receive_order(0, response, 110).unwrap();
    bot.receive_order(0, response, 111).unwrap();
    assert_eq!(bot.orders(0).len(), 1);
    assert_eq!(bot.orders(0).get(&7), Some(&response));
}

#[test]
fn responses_for_unknown_assets_are_refused() {
    let mut bot = bot();
    let r = bot.receive_order(2, order(7, Status::New, 100), 110);
    assert!(matches!(r, Err(BotError::AssetNotFound)));
    let event = LiveEvent::Order { asset_no: 2, order: order(7, Status::New, 100) };
    let r = bot.handle_event(event, true, WaitOrderResponse::Any);
    assert!(matches!(r, Err(BotError::AssetNotFound)));
}

fn veto(known: &Order, response: &Order) -> Result<(), BotError> {
    if known.status == Status::New && response.status == Status::Filled {
        Err(BotError::Custom("vetoed".to_string()))
    } else {
        Ok(())
    }
}

#[test]
fn the_hook_sees_the_known_order_and_the_response() {
    let mut bot = bot_with(0, None, Some(veto));
    // Nothing is known yet, so the hook is not asked.
    bot.receive_order(0, order(7, Status::New, 100), 110).unwrap();
    match bot.receive_order(0, order(7, Status::Filled, 200), 210) {
        Err(BotError::Custom(message)) => assert_eq!(message, "vetoed"),
        _ => panic!("the hook was not asked"),
    }
    assert_eq!(bot.orders(0).get(&7), Some(&order(7, Status::New, 100)));
    assert_eq!(bot.order_latency(0), Some((199, 200, 210)));
    bot.receive_order(0, order(7, Status::PartiallyFilled, 300), 310).unwrap();
    assert_eq!(bot.orders(0).get(&7), Some(&order(7, Status::PartiallyFilled, 300)));
}

#[test]
fn the_answer_of_the_hook_decides() {
    let mut bot = bot();
    bot.receive_order(0, order(7, Status::New, 100), 110).unwrap();
    let r = bot.settle_order(0, order(7, Status::Filled, 200), 210, Err(BotError::OrderNotFound));
    assert!(matches!(r, Err(BotError::OrderNotFound)));
    assert_eq!(bot.orders(0).get(&7), Some(&order(7, Status::New, 100)));
    assert!(bot.settle_order(0, order(7, Status::Filled, 200), 220, Ok(())).is_ok());
    assert_eq!(bot.orders(0).get(&7), Some(&order(7, Status::Filled, 200)));
    assert_eq!(bot.order_latency(0), Some((199, 200, 220)));
}

fn refuse(error: LiveError) -> Result<(), BotError> {
    if error.message == "fatal" {
        Err(BotError::Custom(error.message))
    } else {
        Ok(())
    }
}

#[test]
fn the_error_handler_is_asked() {
    let error = |text: &str| LiveEvent::Error(LiveError { message: text.to_string() });
    let mut bot = bot_with(0, Some(refuse), None);
    assert!(!bot.handle_event(error("minor"), true, WaitOrderResponse::Any).unwrap());
    match bot.handle_event(error("fatal"), true, WaitOrderResponse::Any) {
        Err(BotError::Custom(message)) => assert_eq!(message, "fatal"),
        _ => panic!("the handler was not asked"),
    }
    let mut silent = bot_with(0, None, None);
    assert!(!silent.handle_event(error("fatal"), true, WaitOrderResponse::Any).unwrap());
}

#[test]
fn only_the_awaited_response_ends_a_wait() {
    let mut bot = bot();
    let mut handle = |wait| {
        let event = LiveEvent::Order { asset_no: 1, order: order(7, Status::New, 100) };
        bot.handle_event(event, true, wait).unwrap()
    };
    assert!(!handle(WaitOrderResponse::Never));
    assert!(handle(WaitOrderResponse::Any));
    assert!(handle(WaitOrderResponse::Specified { asset_no: 1, order_id: 7 }));
    assert!(!handle(WaitOrderResponse::Specified { asset_no: 0, order_id: 7 }));
    assert!(!handle(WaitOrderResponse::Specified { asset_no: 1, order_id: 8 }));
}

#[test]
fn a_response_is_stamped_with_the_current_time() {
    let mut bot = bot();
    let before = chrono::Utc::now().timestamp_nanos_opt().unwrap();
    let event = LiveEvent::Order { asset_no: 1, order: order(7, Status::New, 100) };
    bot.handle_event(event, false, WaitOrderResponse::Never).unwrap();
    let after = chrono::Utc::now().timestamp_nanos_opt().unwrap();
    let (local, exch, received) = bot.order_latency(1).unwrap();
    assert_eq!((local, exch), (99, 100));
    assert!(before <= received && received <= after);
}

#[test]
fn the_reading_of_the_clock_decides_on_responses() {
    let mut bot = bot();
    let response = order(7, Status::New, 100);
    let r = bot.receive_order_on(2, response, Some(110));
    assert!(matches!(r, Err(BotError::AssetNotFound)));
    let r = bot.receive_order_on(2, response, None);
    assert!(matches!(r, Err(BotError::AssetNotFound)));
    let r = bot.receive_order_on(0, response, None);
    assert!(matches!(r, Err(BotError::ClockOutOfRange)));
    assert!(bot.orders(0).is_empty());
    assert_eq!(bot.order_latency(0), None);
    assert!(bot.receive_order_on(0, response, Some(110)).is_ok());
    assert_eq!(bot.orders(0).get(&7), Some(&response));
    assert_eq!(bot.order_latency(0), Some((99, 100, 110)));
}
