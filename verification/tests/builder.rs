use live_bot::bot::LiveBot2;
use live_bot::builder::LiveBotBuilder2;
use live_bot::channel::{from_bot, to_bot};
use live_bot::depth::L2MarketDepth;
use live_bot::errors::{BotError, BuildError};
use live_bot::types::{Asset, LiveError, Order, Real};

#[derive(Debug)]
struct Book {
    tick_size: Real,
    lot_size: Real,
    symbol: String,
}

impl L2MarketDepth for Book {
    fn update_bid_depth(&mut self, _px: Real, _qty: Real, _timestamp: i64) {}

    fn update_ask_depth(&mut self, _px: Real, _qty: Real, _timestamp: i64) {}
}

type Handler = fn(LiveError) -> Result<(), BotError>;
type Hook = fn(&Order, &Order) -> Result<(), BotError>;
type Maker = fn(&Asset) -> Book;
type Builder = LiveBotBuilder2<Book, Handler, Hook, Maker>;

fn num(value: f64) -> Real {
    Real { bits: value.to_bits() }
}

fn make_book(asset: &Asset) -> Book {
    Book {
        tick_size: asset.tick_size,
        lot_size: asset.lot_size,
        symbol: asset.symbol.clone(),
    }
}

fn builder() -> Builder {
    LiveBot2::builder()
}

#[test]
fn documented_example_builds() {
    let bot = builder()
        .add("connector_name", "symbol", num(0.1), num(0.001))
        .depth(make_book)
        .build()
        .unwrap();
    assert_eq!(bot.num_assets(), 1);
    assert_eq!(bot.depth(0).tick_size, num(0.1));
    assert_eq!(bot.depth(0).lot_size, num(0.001));
    assert_eq!(bot.depth(0).symbol, "symbol");
}

#[test]
fn a_fresh_bot_knows_nothing() {
    let bot = builder()
        .add("a", "x", num(0.1), num(1.0))
        .add("a", "y", num(0.5), num(2.0))
        .depth(make_book)
        .last_trades_capacity(8)
        .build()
        .unwrap();
    assert_eq!(bot.num_assets(), 2);
    for asset_no in 0..2 {
        assert!(bot.orders(asset_no).is_empty());
        assert!(bot.last_trades(asset_no).is_empty());
        assert_eq!(bot.position(asset_no), num(0.0));
        assert_eq!(bot.state_values(asset_no).position, num(0.0));
        assert_eq!(bot.feed_latency(asset_no), None);
        assert_eq!(bot.order_latency(asset_no), None);
    }
    assert_eq!(bot.tick_size(0).unwrap(), num(0.1));
    assert_eq!(bot.tick_size(1).unwrap(), num(0.5));
    assert!(matches!(bot.tick_size(2), Err(BotError::AssetNotFound)));
    assert_eq!(bot.depth(1).symbol, "y");
}

#[test]
fn a_bot_without_assets_can_be_built() {
    let bot = builder().depth(make_book).build().unwrap();
    assert_eq!(bot.num_assets(), 0);
}

#[test]
fn assets_of_one_connector_share_a_channel() {
    let builder = builder()
        .add("one", "x", num(0.1), num(1.0))
        .add("two", "x", num(0.1), num(1.0))
        .add("one", "y", num(0.1), num(1.0))
        .add("three", "x", num(0.1), num(1.0))
        .add("two", "y", num(0.1), num(1.0))
        .depth(make_book);
    assert_eq!(builder.num_assets(), 5);
    assert_eq!(builder.connector(3), "three");
    let opens: Vec<bool> = (0..5).map(|i| builder.opens_channel(i).unwrap()).collect();
    assert_eq!(opens, vec![true, true, false, true, false]);
    let bot = builder.build().unwrap();
    let channels: Vec<usize> = (0..5).map(|i| bot.channel(i)).collect();
    assert_eq!(channels, vec![0, 1, 0, 2, 1]);
}

#[test]
fn an_asset_cannot_be_added_twice() {
    let builder = builder()
        .add("one", "x", num(0.1), num(1.0))
        .add("two", "x", num(0.1), num(1.0))
        .add("one", "x", num(0.2), num(2.0))
        .add("two", "x", num(0.2), num(2.0))
        .depth(make_book);
    assert!(builder.opens_channel(1).unwrap());
    assert!(matches!(builder.opens_channel(2), Err(BuildError::Duplicate(_, _))));
    match builder.build() {
        Err(BuildError::Duplicate(name, symbol)) => {
            assert_eq!(name, "one");
            assert_eq!(symbol, "x");
        }
        _ => panic!("a duplicate was accepted"),
    }
}

#[test]
fn assets_are_told_apart_by_the_joined_names() {
    let result = builder()
        .add("a/b", "c", num(0.1), num(1.0))
        .add("a", "b/c", num(0.1), num(1.0))
        .depth(make_book)
        .build();
    match result {
        Err(BuildError::Duplicate(name, symbol)) => {
            assert_eq!(name, "a");
            assert_eq!(symbol, "b/c");
        }
        _ => panic!("a duplicate was accepted"),
    }
}

#[test]
fn a_builder_needs_a_way_to_make_books() {
    let result = builder().add("a", "x", num(0.1), num(1.0)).build();
    match result {
        Err(BuildError::BuilderIncomplete(missing)) => assert_eq!(missing, "depth"),
        _ => panic!("built without books"),
    }
}

#[test]
fn a_duplicate_is_reported_before_what_is_missing() {
    let result = builder()
        .add("a", "x", num(0.1), num(1.0))
        .add("a", "x", num(0.1), num(1.0))
        .build();
    assert!(matches!(result, Err(BuildError::Duplicate(_, _))));
}

#[test]
fn assets_are_numbered_as_they_are_added() {
    fn numbered(asset: &Asset) -> Book {
        Book {
            tick_size: Real { bits: asset.asset_no as u64 },
            lot_size: asset.lot_size,
            symbol: asset.symbol.clone(),
        }
    }
    let bot = builder()
        .add("a", "x", num(0.1), num(1.0))
        .add("b", "y", num(0.1), num(1.0))
        .add("a", "z", num(0.1), num(1.0))
        .depth(numbered)
        .build()
        .unwrap();
    for asset_no in 0..3 {
        assert_eq!(bot.depth(asset_no).tick_size, Real { bits: asset_no as u64 });
    }
}

#[test]
fn a_channel_has_a_service_for_each_direction() {
    let inbound = to_bot("connector_name");
    assert_eq!(inbound.name, "connector_name/ToBot");
    assert_eq!((inbound.max_publishers, inbound.max_subscribers), (1, 1000));
    let outbound = from_bot("connector_name");
    assert_eq!(outbound.name, "connector_name/FromBot");
    assert_eq!((outbound.max_publishers, outbound.max_subscribers), (1000, 1));
}

#[test]
fn room_for_trades_that_cannot_be_had_is_not_needed() {
    let bot = builder()
        .add("a", "x", num(0.1), num(1.0))
        .depth(make_book)
        .last_trades_capacity(usize::MAX)
        .build()
        .unwrap();
    assert!(bot.last_trades(0).is_empty());
}
