use live_bot::bot::LiveBot2;
use live_bot::depth::L2MarketDepth;
use live_bot::errors::{BotError, BuildError, PubSubError};
use live_bot::run::{CycleEnd, Pause, Run, Step, Sweep, SweepStart, Wakeup};
use live_bot::types::{
    Asset, BinPayload, Event, LiveError, LiveEvent, Order, Real, StateValues, WaitOrderResponse,
    LOCAL_BUY_TRADE_EVENT,
};

struct Book;

impl L2MarketDepth for Book {
    fn update_bid_depth(&mut self, _px: Real, _qty: Real, _timestamp: i64) {}

    fn update_ask_depth(&mut self, _px: Real, _qty: Real, _timestamp: i64) {}
}

type Handler = fn(LiveError) -> Result<(), BotError>;
type Hook = fn(&Order, &Order) -> Result<(), BotError>;
type Bot = LiveBot2<Book, Handler, Hook>;

fn num(value: f64) -> Real {
    Real { bits: value.to_bits() }
}

fn bot(assets: usize) -> Bot {
    let mut builder = Bot::builder().depth(|_: &Asset| Book).last_trades_capacity(4);
    for i in 0..assets {
        builder = builder.add("connector", &format!("symbol{}", i), num(0.5), num(1.0));
    }
    builder.build().unwrap()
}

fn run(duration: i64) -> Run {
    Run { wait_next_feed: true, duration, wait_order_response: WaitOrderResponse::Never }
}

fn batch() -> LiveEvent {
    let trade = Event {
        ev: LOCAL_BUY_TRADE_EVENT,
        exch_ts: 1,
        local_ts: 2,
        px: num(10.0),
        qty: num(1.0),
    };
    LiveEvent::FeedBatch { asset_no: 0, events: vec![trade] }
}

fn position() -> LiveEvent {
    LiveEvent::Position { asset_no: 0, qty: num(1.0) }
}

#[test]
fn pauses_are_a_cycle_or_what_is_left() {
    for (duration, nanos) in [
        (5000, 1000),
        (1000, 1000),
        (999, 999),
        (1, 1),
        (0, 0),
        (-1, 1000),
        (i64::MAX, 1000),
        (i64::MIN, 1000),
    ] {
        assert_eq!(run(duration).start(), Step::Pause(Pause { run: run(duration), nanos }));
    }
}

#[test]
fn waits_are_for_what_was_asked() {
    let bot = bot(1);
    let asked = |step| match step {
        Step::Pause(pause) => pause.run,
        _ => panic!("a wait begins with a pause"),
    };
    assert_eq!(
        asked(bot.elapse(10)),
        Run { wait_next_feed: false, duration: 10, wait_order_response: WaitOrderResponse::Never }
    );
    assert_eq!(
        asked(bot.wait_next_feed(true, 20)),
        Run { wait_next_feed: true, duration: 20, wait_order_response: WaitOrderResponse::Any }
    );
    assert_eq!(
        asked(bot.wait_next_feed(false, 30)),
        Run { wait_next_feed: true, duration: 30, wait_order_response: WaitOrderResponse::Never }
    );
    assert_eq!(
        asked(bot.wait_order_response(3, 4, 40)),
        Run {
            wait_next_feed: false,
            duration: 40,
            wait_order_response: WaitOrderResponse::Specified { asset_no: 3, order_id: 4 },
        }
    );
}

#[test]
fn signals_end_a_wait() {
    let pause = Pause { run: run(10), nanos: 10 };
    assert_eq!(pause.woken(Wakeup::Tick), Step::ReadElapsed(SweepStart { run: run(10) }));
    assert_eq!(pause.woken(Wakeup::TerminationRequest), Step::Return(false));
    assert_eq!(pause.woken(Wakeup::InterruptSignal), Step::Return(false));
}

#[test]
fn time_ends_a_wait() {
    let start = SweepStart { run: run(100) };
    assert_eq!(start.begin(101, 2), Step::Return(true));
    assert_eq!(
        start.begin(100, 2),
        Step::Receive(Sweep { run: run(100), next: 0, no_data: 0 })
    );
    assert_eq!(start.begin(100, 0), Step::ReadRemaining(CycleEnd { run: run(100) }));
    let end = CycleEnd { run: run(5000) };
    assert_eq!(end.rest(5001), Step::Return(true));
    assert_eq!(end.rest(5000), Step::Pause(Pause { run: run(5000), nanos: 0 }));
    assert_eq!(end.rest(4400), Step::Pause(Pause { run: run(5000), nanos: 600 }));
    assert_eq!(end.rest(10), Step::Pause(Pause { run: run(5000), nanos: 1000 }));
    // What does not fit into 64 bits wraps around.
    assert_eq!(start.begin((1u128 << 64) + 101, 2), Step::Return(true));
    assert_eq!(
        start.begin((1u128 << 64) + 99, 2),
        Step::Receive(Sweep { run: run(100), next: 0, no_data: 0 })
    );
}

#[test]
fn silent_channels_lead_to_a_pause() {
    let mut bot = bot(3);
    let mut step = SweepStart { run: run(100) }.begin(0, bot.num_assets());
    for i in 0..3 {
        match step {
            Step::Receive(sweep) => {
                assert_eq!((sweep.next, sweep.no_data), (i, i));
                step = bot.process_event(sweep, Ok(None)).unwrap();
            }
            _ => panic!("a channel was left out"),
        }
    }
    assert_eq!(step, Step::ReadRemaining(CycleEnd { run: run(100) }));
}

#[test]
fn data_leads_to_another_look() {
    for talkative in 0..3 {
        let mut bot = bot(3);
        let mut step = SweepStart { run: run(100) }.begin(0, bot.num_assets());
        for i in 0..3 {
            let received = if i == talkative { Some(position()) } else { None };
            match step {
                Step::Receive(sweep) => step = bot.process_event(sweep, Ok(received)).unwrap(),
                _ => panic!("a channel was left out"),
            }
        }
        assert_eq!(step, Step::ReadElapsed(SweepStart { run: run(100) }));
        assert_eq!(bot.position(0), num(1.0));
    }
}

#[test]
fn an_awaited_batch_ends_the_wait() {
    let mut bot = bot(2);
    let sweep = Sweep { run: run(100), next: 0, no_data: 0 };
    assert_eq!(bot.process_event(sweep, Ok(Some(batch()))).unwrap(), Step::Return(true));
    assert_eq!(bot.last_trades(0).len(), 1);
    let other = Run { wait_next_feed: false, ..run(100) };
    let sweep = Sweep { run: other, next: 0, no_data: 0 };
    assert_eq!(
        bot.process_event(sweep, Ok(Some(batch()))).unwrap(),
        Step::Receive(Sweep { run: other, next: 1, no_data: 0 })
    );
    assert_eq!(bot.last_trades(0).len(), 2);
}

#[test]
fn faults_of_the_transport_are_reported() {
    let mut bot = bot(1);
    let sweep = Sweep { run: run(100), next: 0, no_data: 0 };
    let fault = PubSubError::SubscriberReceive("ExceedsMaxBorrowedSamples".to_string());
    match bot.process_event(sweep, Err(fault)) {
        Err(BotError::PubSub(error)) => {
            assert_eq!(error.message(), "ExceedsMaxBorrowedSamples");
        }
        _ => panic!("the fault was lost"),
    }
}

#[test]
fn errors_of_handlers_are_reported() {
    fn fail(_error: LiveError) -> Result<(), BotError> {
        Err(BotError::OrderNotFound)
    }
    let mut bot: Bot = Bot::builder()
        .add("connector", "symbol", num(0.5), num(1.0))
        .depth(|_: &Asset| Book)
        .error_handler(fail)
        .build()
        .unwrap();
    let sweep = Sweep { run: run(100), next: 0, no_data: 0 };
    let event = LiveEvent::Error(LiveError { message: "down".to_string() });
    let r = bot.process_event(sweep, Ok(Some(event)));
    assert!(matches!(r, Err(BotError::OrderNotFound)));
}

#[test]
fn trades_are_cleared() {
    let mut bot = bot(2);
    let sweep = Sweep { run: run(100), next: 0, no_data: 0 };
    bot.process_event(sweep, Ok(Some(batch()))).unwrap();
    bot.clear_last_trades(Some(1));
    assert_eq!(bot.last_trades(0).len(), 1);
    bot.clear_last_trades(Some(0));
    assert!(bot.last_trades(0).is_empty());
    bot.process_event(sweep, Ok(Some(batch()))).unwrap();
    bot.clear_last_trades(None);
    assert!(bot.last_trades(0).is_empty());
    bot.process_event(sweep, Ok(Some(batch()))).unwrap();
    assert_eq!(bot.last_trades(0).len(), 1);
}

#[test]
fn error_texts() {
    assert_eq!(BotError::OrderIdExist.message(), "order id already exists");
    assert_eq!(BotError::AssetNotFound.message(), "asset not found");
    assert_eq!(BotError::OrderNotFound.message(), "order not found");
    assert_eq!(BotError::InvalidOrderStatus.message(), "order status is invalid");
    assert_eq!(BotError::ClockOutOfRange.message(), "current time is out of range");
    assert_eq!(BotError::Custom("text".to_string()).message(), "text");
    for (fault, text) in [
        (PubSubError::SubscriberReceive("A".to_string()), "SubscriberReceive(A)"),
        (PubSubError::PublisherLoan("OutOfMemory".to_string()), "PublisherLoan(OutOfMemory)"),
        (PubSubError::PublisherSend("C".to_string()), "PublisherSend(C)"),
        (PubSubError::Decode("D".to_string()), "Decode(D)"),
        (PubSubError::Encode("E".to_string()), "Encode(E)"),
    ] {
        assert_eq!(fault.describe(), text);
        assert_eq!(BotError::PubSub(fault).message(), text);
    }
    let duplicate = BuildError::Duplicate("a".to_string(), "b".to_string());
    assert!(format!("{:?}", duplicate).contains("Duplicate"));
}

#[test]
fn default_values() {
    let payload = BinPayload::default();
    assert_eq!(payload.len, 0);
    assert!(payload.data.iter().all(|byte| *byte == 0));
    assert_eq!(payload.data.len(), 1024);
    assert_eq!(StateValues::default().position, num(0.0));
    assert_eq!(Real::zero(), num(0.0));
}

/// Carries out a wait: the clock shows the given times in turn, the channels hold the given events,
/// and the last pause ends with a signal when no ticks are left. Returns the result, how many times
/// were read and how many channels were looked at.
fn carry_out(
    bot: &mut Bot,
    first: Step,
    mut ticks: usize,
    times: &[u128],
    events: Vec<Option<LiveEvent>>,
) -> (bool, usize, usize) {
    let mut events = events.into_iter();
    let (mut read, mut asked) = (0, 0);
    let mut step = first;
    loop {
        step = match step {
            Step::Pause(pause) => {
                if ticks == 0 {
                    pause.woken(Wakeup::InterruptSignal)
                } else {
                    ticks -= 1;
                    pause.woken(Wakeup::Tick)
                }
            }
            Step::ReadElapsed(start) => {
                read += 1;
                start.begin(times[read - 1], bot.num_assets())
            }
            Step::Receive(sweep) => {
                asked += 1;
                bot.process_event(sweep, Ok(events.next().unwrap())).unwrap()
            }
            Step::ReadRemaining(end) => {
                read += 1;
                end.rest(times[read - 1])
            }
            Step::Return(value) => return (value, read, asked),
        };
    }
}

#[test]
fn whole_waits_end_as_asked() {
    // Time is up before the channels are looked at.
    let mut two = bot(2);
    let step = two.elapse(100);
    assert_eq!(carry_out(&mut two, step, 1, &[101], vec![]), (true, 1, 0));

    // Time is up after channels that were all silent.
    let step = two.elapse(100);
    assert_eq!(carry_out(&mut two, step, 1, &[50, 101], vec![None, None]), (true, 2, 2));

    // Data leads to another look; a batch does not end a wait that is for time only.
    let step = two.elapse(100);
    let events = vec![Some(batch()), None, None, Some(position())];
    assert_eq!(carry_out(&mut two, step, 1, &[10, 20, 101], events), (true, 3, 4));

    // The batch that is waited for ends the wait, and the second channel is not asked any more.
    let step = two.wait_next_feed(false, 100);
    let events = vec![None, None, Some(batch())];
    assert_eq!(carry_out(&mut two, step, 2, &[10, 20, 30], events), (true, 3, 3));

    // A signal ends the wait.
    let step = two.wait_next_feed(true, 100);
    assert_eq!(carry_out(&mut two, step, 1, &[10, 20], vec![None, None]), (false, 2, 2));
}
