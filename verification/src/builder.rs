//! Construction of a bot.
use crate::bot::LiveBot2;
use crate::depth::L2MarketDepth;
use crate::errors::{BotError, BuildError};
use crate::model;
use crate::types::{Asset, LiveError, Order, Real};
use std::marker::PhantomData;
use vstd::prelude::*;

verus! {

/// What was registered with a builder.
#[verifier::ext_equal]
pub struct BuilderModel<H, K, B> {
    /// Each asset with the name of the connector through which it is to be traded.
    pub assets: Seq<(String, Asset)>,
    pub error_handler: Option<H>,
    pub order_hook: Option<K>,
    pub depth_builder: Option<B>,
    pub last_trades_capacity: usize,
}

/// Collects what a [`LiveBot2`] is made of.
///
/// `B` makes the order book of an asset; the other parameters are those of the bot.
pub struct LiveBotBuilder2<MD, H, K, B> {
    assets: Vec<(String, Asset)>,
    error_handler: Option<H>,
    order_hook: Option<K>,
    depth_builder: Option<B>,
    last_trades_capacity: usize,
    books: PhantomData<MD>,
}

impl<MD, H, K, B> View for LiveBotBuilder2<MD, H, K, B> {
    type V = BuilderModel<H, K, B>;

    closed spec fn view(&self) -> BuilderModel<H, K, B> {
        BuilderModel {
            assets: self.assets@,
            error_handler: self.error_handler,
            order_hook: self.order_hook,
            depth_builder: self.depth_builder,
            last_trades_capacity: self.last_trades_capacity,
        }
    }
}

/// By which assets are told apart: the connector and the symbol.
pub open spec fn asset_key(asset: (String, Asset)) -> Seq<char> {
    asset.0@ + "/"@ + asset.1.symbol@
}

/// An earlier asset has the same key.
pub open spec fn duplicate_at(assets: Seq<(String, Asset)>, i: int) -> bool {
    exists|j: int| 0 <= j < i && asset_key(#[trigger] assets[j]) == asset_key(assets[i])
}

/// The first asset whose key an earlier one has.
pub open spec fn first_duplicate(assets: Seq<(String, Asset)>, i: int) -> bool {
    &&& 0 <= i < assets.len()
    &&& duplicate_at(assets, i)
    &&& forall|j: int| 0 <= j < i ==> !duplicate_at(assets, j)
}

/// No two assets have the same key.
pub open spec fn all_distinct(assets: Seq<(String, Asset)>) -> bool {
    forall|i: int, j: int|
        0 <= i < j < assets.len() ==> asset_key(#[trigger] assets[i]) != asset_key(
            #[trigger] assets[j],
        )
}

/// No earlier asset is traded through the connector of this one.
pub open spec fn first_of_connector(assets: Seq<(String, Asset)>, i: int) -> bool {
    forall|j: int| 0 <= j < i ==> (#[trigger] assets[j]).0@ != assets[i].0@
}

impl<H, K, B> BuilderModel<H, K, B> {
    /// What holds of every builder whose books are of type `MD`.
    pub open spec fn wf<MD>(self) -> bool where
        H: Fn(LiveError) -> Result<(), BotError>,
        K: Fn(&Order, &Order) -> Result<(), BotError>,
        B: Fn(&Asset) -> MD,
     {
        &&& model::numbered(self.assets)
        &&& self.error_handler matches Some(handler) ==> forall|error: LiveError|
            call_requires(handler, (error,))
        &&& self.order_hook matches Some(hook) ==> forall|known: Order, response: Order|
            call_requires(hook, (&known, &response))
        &&& self.depth_builder matches Some(builder) ==> forall|asset: Asset|
            call_requires(builder, (&asset,))
    }
}

impl<MD, H, K, B> LiveBotBuilder2<MD, H, K, B> where
    MD: L2MarketDepth,
    H: Fn(LiveError) -> Result<(), BotError>,
    K: Fn(&Order, &Order) -> Result<(), BotError>,
    B: Fn(&Asset) -> MD,
 {
    /// A builder with which nothing is registered.
    pub(crate) fn new() -> (r: Self)
        ensures
            r@.wf::<MD>(),
            r@ == (BuilderModel::<H, K, B> {
                assets: Seq::empty(),
                error_handler: None,
                order_hook: None,
                depth_builder: None,
                last_trades_capacity: 0,
            }),
    {
        LiveBotBuilder2 {
            assets: Vec::new(),
            error_handler: None,
            order_hook: None,
            depth_builder: None,
            last_trades_capacity: 0,
            books: PhantomData,
        }
    }

    /// Adds an asset.
    ///
    /// * `name` - Name of the connector through which this asset will be traded.
    /// * `symbol` - Symbol of the asset, in the symbology of the connector.
    /// * `tick_size` - The minimum price fluctuation.
    /// * `lot_size` - The minimum trade size.
    pub fn add(self, name: &str, symbol: &str, tick_size: Real, lot_size: Real) -> (r: Self)
        requires
            self@.wf::<MD>(),
        ensures
            r@.wf::<MD>(),
            r@ == (BuilderModel { assets: r@.assets, ..self@ }),
            r@.assets == self@.assets.push(r@.assets.last()),
            ({
                let (connector, asset) = r@.assets.last();
                &&& connector@ == name@
                &&& asset.asset_no == self@.assets.len()
                &&& asset.symbol@ == symbol@
                &&& asset.tick_size == tick_size
                &&& asset.lot_size == lot_size
            }),
    {
        let asset_no: usize = self.assets.len();
        let mut assets = self.assets;
        assets.push(
            (name.to_string(), Asset { asset_no, symbol: symbol.to_string(), tick_size, lot_size }),
        );
        LiveBotBuilder2 { assets, ..self }
    }

    /// Registers the error handler to deal with an error from connectors.
    pub fn error_handler(self, handler: H) -> (r: Self)
        requires
            self@.wf::<MD>(),
            forall|error: LiveError| call_requires(handler, (error,)),
        ensures
            r@.wf::<MD>(),
            r@ == (BuilderModel { error_handler: Some(handler), ..self@ }),
    {
        LiveBotBuilder2 { error_handler: Some(handler), ..self }
    }

    /// Registers the hook that sees an order response, after the order as it is known.
    pub fn order_recv_hook(self, hook: K) -> (r: Self)
        requires
            self@.wf::<MD>(),
            forall|known: Order, response: Order| call_requires(hook, (&known, &response)),
        ensures
            r@.wf::<MD>(),
            r@ == (BuilderModel { order_hook: Some(hook), ..self@ }),
    {
        LiveBotBuilder2 { order_hook: Some(hook), ..self }
    }

    /// Sets the function that makes the order book of an asset.
    pub fn depth(self, builder: B) -> (r: Self)
        requires
            self@.wf::<MD>(),
            forall|asset: Asset| call_requires(builder, (&asset,)),
        ensures
            r@.wf::<MD>(),
            r@ == (BuilderModel { depth_builder: Some(builder), ..self@ }),
    {
        LiveBotBuilder2 { depth_builder: Some(builder), ..self }
    }

    /// Sets the length of market trades to be stored for each asset: the most recent ones are kept.
    /// The default value is `0`, with which no trades are stored.
    pub fn last_trades_capacity(self, last_trades_capacity: usize) -> (r: Self)
        requires
            self@.wf::<MD>(),
        ensures
            r@.wf::<MD>(),
            r@ == (BuilderModel { last_trades_capacity, ..self@ }),
    {
        LiveBotBuilder2 { last_trades_capacity, ..self }
    }

    /// The number of assets that were added.
    pub fn num_assets(&self) -> (r: usize)
        ensures
            r == self@.assets.len(),
    {
        self.assets.len()
    }

    /// The connector of an asset that was added.
    pub fn connector(&self, asset_no: usize) -> (r: &str)
        requires
            asset_no < self@.assets.len(),
        ensures
            r@ == self@.assets[asset_no as int].0@,
    {
        self.assets[asset_no].0.as_str()
    }

    /// Whether an asset needs a channel of its own, being the first of its connector. An asset that
    /// was added before is refused.
    pub fn opens_channel(&self, asset_no: usize) -> (r: Result<bool, BuildError>)
        requires
            asset_no < self@.assets.len(),
        ensures
            match r {
                Ok(opens) => {
                    &&& !duplicate_at(self@.assets, asset_no as int)
                    &&& opens == first_of_connector(self@.assets, asset_no as int)
                },
                Err(BuildError::Duplicate(name, symbol)) => {
                    &&& duplicate_at(self@.assets, asset_no as int)
                    &&& name == self@.assets[asset_no as int].0
                    &&& symbol == self@.assets[asset_no as int].1.symbol
                },
                Err(_) => false,
            },
    {
        let (name, asset) = &self.assets[asset_no];
        let key = key_of(name, asset);
        let mut opens = true;
        for j in 0..asset_no
            invariant
                asset_no < self.assets@.len(),
                key@ == asset_key(self.assets@[asset_no as int]),
                *name == self.assets@[asset_no as int].0,
                forall|i: int|
                    0 <= i < j ==> asset_key(#[trigger] self.assets@[i]) != asset_key(
                        self.assets@[asset_no as int],
                    ),
                opens == (forall|i: int| 0 <= i < j ==> (#[trigger] self.assets@[i]).0@ != name@),
                *asset == self.assets@[asset_no as int].1,
        {
            let (other_name, other_asset) = &self.assets[j];
            if key_of(other_name, other_asset) == key {
                return Err(BuildError::Duplicate(name.clone(), asset.symbol.clone()));
            }
            if *other_name == *name {
                opens = false;
            }
        }
        Ok(opens)
    }

    /// Builds a live [`LiveBot2`] based on the registered assets. The bot trades assets of the same
    /// connector through the same channel.
    pub fn build(self) -> (r: Result<LiveBot2<MD, H, K>, BuildError>)
        requires
            self@.wf::<MD>(),
        ensures
            match r {
                Ok(bot) => {
                    &&& all_distinct(self@.assets)
                    &&& self@.depth_builder matches Some(builder)
                    &&& bot@.depth.len() == self@.assets.len()
                    &&& forall|i: int|
                        0 <= i < self@.assets.len() ==> call_ensures(
                            builder,
                            (&(#[trigger] self@.assets[i]).1,),
                            bot@.depth[i],
                        )
                    &&& bot@.wf()
                    &&& bot@ == model::fresh(
                        self@.assets,
                        bot@.pubsub,
                        bot@.depth,
                        self@.last_trades_capacity,
                        self@.error_handler,
                        self@.order_hook,
                    )
                },
                Err(BuildError::Duplicate(name, symbol)) => exists|i: int| #[trigger]
                    first_duplicate(self@.assets, i) && name == self@.assets[i].0 && symbol
                        == self@.assets[i].1.symbol,
                Err(BuildError::BuilderIncomplete(missing)) => {
                    &&& all_distinct(self@.assets)
                    &&& self@.depth_builder is None
                    &&& missing@ == "depth"@
                },
            },
    {
        let n: usize = self.assets.len();
        let ghost names = model::connector_names(self.assets@);
        let mut connectors: Vec<String> = Vec::new();
        let mut pubsub: Vec<usize> = Vec::new();
        assert(names.take(0) =~= Seq::empty());
        for i in 0..n
            invariant
                n == self.assets@.len(),
                names == model::connector_names(self.assets@),
                forall|j: int| 0 <= j < i ==> !duplicate_at(self.assets@, j),
                connectors@.map_values(|name: String| name@) == model::distinct(
                    names.take(i as int),
                ),
                pubsub@.len() == i,
                forall|j: int|
                    0 <= j < i ==> (#[trigger] pubsub@[j]) < connectors@.len()
                        && connectors@[pubsub@[j] as int]@ == names[j],
        {
            let opens = match self.opens_channel(i) {
                Ok(opens) => opens,
                Err(error) => {
                    assert(first_duplicate(self.assets@, i as int));
                    return Err(error);
                },
            };
            let name = &self.assets[i].0;
            let ghost before = names.take(i as int);
            proof {
                assert(names.take(i + 1).drop_last() =~= before);
                assert(names.take(i + 1).last() == name@);
                model::distinct_is_exact(before);
                if opens {
                    if before.contains(name@) {
                        let j = before.index_of(name@);
                        assert(self.assets@[j].0@ == name@);
                    }
                } else {
                    let j = choose|j: int|
                        0 <= j < i && (#[trigger] self.assets@[j]).0@ == name@;
                    assert(before[j] == name@);
                }
            }
            if opens {
                connectors.push(name.clone());
                pubsub.push(connectors.len() - 1);
                assert(connectors@.map_values(|name: String| name@) =~= model::distinct(
                    before,
                ).push(name@));
            } else {
                let mut k: usize = 0;
                assert(before.contains(name@));
                assert(model::distinct(before).contains(name@));
                let ghost l = model::distinct(before).index_of(name@);
                assert(connectors@[l]@ == name@);
                while !(connectors[k] == *name)
                    invariant
                        k < connectors.len(),
                        exists|l: int| k <= l < connectors@.len() && (#[trigger] connectors@[l])@
                            == name@,
                    decreases connectors@.len() - k,
                {
                    k = k + 1;
                }
                pubsub.push(k);
            }
        }
        assert(names.take(n as int) =~= names);
        assert forall|i: int, j: int| 0 <= i < j < self.assets@.len() implies asset_key(
            #[trigger] self.assets@[i],
        ) != asset_key(#[trigger] self.assets@[j]) by {
            assert(!duplicate_at(self.assets@, j));
        }
        let builder = match self.depth_builder {
            Some(builder) => builder,
            None => {
                return Err(BuildError::BuilderIncomplete("depth"));
            },
        };
        let mut depth: Vec<MD> = Vec::new();
        for i in 0..n
            invariant
                n == self.assets@.len(),
                forall|asset: Asset| call_requires(builder, (&asset,)),
                depth@.len() == i,
                forall|j: int|
                    0 <= j < i ==> call_ensures(
                        builder,
                        (&(#[trigger] self.assets@[j]).1,),
                        depth@[j],
                    ),
        {
            let book = builder(&self.assets[i].1);
            depth.push(book);
        }
        Ok(
            LiveBot2::new(
                self.assets,
                pubsub,
                depth,
                self.last_trades_capacity,
                self.error_handler,
                self.order_hook,
            ),
        )
    }
}

/// The key of an asset as a string.
fn key_of(name: &String, asset: &Asset) -> (r: String)
    ensures
        r@ == asset_key((*name, *asset)),
{
    name.clone().concat("/").concat(asset.symbol.as_str())
}

} // verus!
