use crate::asset::Asset;
use crate::candlestick::Candlestick;
use crate::error::Error;
use crate::interval::Interval;
use crate::market::Market;
use crate::order::Order;
use crate::order::OrderError;
use crate::order::OrderResponse;
use crate::price::Price;
use crate::quantity::Quantity;
use crate::registry::Listing;
use crate::registry::Registry;
use crate::subscription::Subscription;
use vstd::prelude::*;
use vstd::utf8::encode_utf8;

pub mod model;

verus! {

/// Where the venue answers requests.
pub const ENDPOINT: &'static str = "https://www.binance.com/api/v3/";

/// Where the venue streams live samples.
pub const WS_ENDPOINT: &'static str = "wss://stream.binance.com:9443/ws/";

/// The most bytes that the address of a request and its parameters may have
/// together.
pub const REQUEST_LIMIT: usize = 0x1000_0000;

/// The text of the URL that `reqwest::Url::parse_with_params` makes of an
/// address and the pairs of a query, or `None` where it takes the address
/// for no URL.
pub uninterp spec fn url_with_params(input: Seq<char>, params: Seq<(Seq<char>, Seq<char>)>) -> Option<
    Seq<char>,
>;

/// The pairs of a query as plain text.
pub open spec fn texts(params: Seq<(String, String)>) -> Seq<(Seq<char>, Seq<char>)> {
    params.map_values(|pair: (String, String)| (pair.0@, pair.1@))
}

/// The number of bytes that a query takes: those of its keys and values,
/// and two more for each pair, which is written with a sign between key and
/// value and a sign before the next pair.
pub open spec fn query_bytes(params: Seq<(Seq<char>, Seq<char>)>) -> nat
    decreases params.len(),
{
    if params.len() == 0 {
        0
    } else {
        query_bytes(params.drop_last()) + encode_utf8(params.last().0).len() + encode_utf8(
            params.last().1,
        ).len() + 2
    }
}

/// `reqwest::Url::parse_with_params`, which is `Url::parse_with_params` of
/// the `url` crate: it parses `input` as an absolute URL and appends the
/// pairs of `params`, in their order, to its query. What comes back here is
/// the text of that URL, or `None` where the address did not parse.
///
/// The URL is a function of the address and the pairs alone, and
/// `url_with_params` is its name. The function keeps places in the URL as
/// 32-bit numbers and stops the program on a URL that is too long for
/// them. A URL is at most a few times as long as what it is made of, and
/// the bound asked for here leaves room for sixteen times.
#[verifier::external_body]
fn parse_with_params(input: &str, params: &Vec<(String, String)>) -> (url: Option<String>)
    requires
        encode_utf8(input@).len() + query_bytes(texts(params@)) <= REQUEST_LIMIT,
    ensures
        match url {
            Some(text) => url_with_params(input@, texts(params@)) == Some(text@),
            None => url_with_params(input@, texts(params@)) is None,
        },
{
    reqwest::Url::parse_with_params(
        input,
        params.iter().map(|pair| (pair.0.as_str(), pair.1.as_str())),
    ).ok().map(String::from)
}

/// The part of the venue's integration that decides and computes: the
/// credentials, and the assets and markets that the venue is known to
/// trade. Sending requests and reading the stream is left to the caller.
pub struct Binance {
    key: String,
    secret: String,
    registry: Registry,
}

/// The pairs of base and quote asset that the venue's answer lists, in its
/// order.
pub open spec fn listed_pairs(info: model::ExchangeInfo) -> Seq<(Seq<char>, Seq<char>)> {
    info.symbols@.map_values(|symbol: model::Symbol| (symbol.base_asset@, symbol.quote_asset@))
}

impl Binance {
    /// The key that goes with each request.
    pub closed spec fn key_text(&self) -> Seq<char> {
        self.key@
    }

    /// The secret that requests are signed with.
    pub closed spec fn secret_text(&self) -> Seq<char> {
        self.secret@
    }

    /// The assets and markets known.
    pub closed spec fn registry(&self) -> Registry {
        self.registry
    }

    /// An integration with the given credentials that knows no market yet.
    pub fn new(key: String, secret: String) -> (binance: Binance)
        ensures
            binance.key_text() == key@,
            binance.secret_text() == secret@,
            binance.registry()@ == Listing::empty(),
    {
        Binance { key, secret, registry: Registry::new() }
    }

    /// The key that goes with each request.
    pub fn key(&self) -> (key: &str)
        ensures
            key@ == self.key_text(),
    {
        self.key.as_str()
    }

    /// The secret that requests are signed with.
    pub fn secret(&self) -> (secret: &str)
        ensures
            secret@ == self.secret_text(),
    {
        self.secret.as_str()
    }

    /// Takes in what the venue told of itself: the market of every pair
    /// listed, with its two assets, each where it is not known yet. What was
    /// known stays known, at its place, and nothing is held twice.
    pub fn absorb(&mut self, info: &model::ExchangeInfo)
        ensures
            final(self).registry()@ == old(self).registry()@.with_markets(listed_pairs(*info)),
            old(self).registry().assets().is_prefix_of(final(self).registry().assets()),
            old(self).registry().markets().is_prefix_of(final(self).registry().markets()),
            final(self).key_text() == old(self).key_text(),
            final(self).secret_text() == old(self).secret_text(),
    {
        let ghost pairs = listed_pairs(*info);
        let mut i: usize = 0;
        assert(pairs.skip(0) =~= pairs);
        while i < info.symbols.len()
            invariant
                i <= info.symbols.len(),
                pairs == listed_pairs(*info),
                self.registry@.with_markets(pairs.skip(i as int)) == old(self).registry@.with_markets(
                    pairs,
                ),
                old(self).registry.assets().is_prefix_of(self.registry.assets()),
                old(self).registry.markets().is_prefix_of(self.registry.markets()),
                self.key == old(self).key,
                self.secret == old(self).secret,
            decreases info.symbols.len() - i,
        {
            let symbol = &info.symbols[i];
            let base = Asset::from(symbol.base_asset.clone());
            let quote = Asset::from(symbol.quote_asset.clone());
            proof {
                assert(pairs.skip(i as int).skip(1) =~= pairs.skip(i + 1));
            }
            self.registry.market(base, quote);
            i += 1;
        }
    }

    /// All markets known, each once.
    pub fn get_markets(&self) -> (markets: &Vec<&'static Market>)
        ensures
            markets@ == self.registry().markets(),
            self.registry()@.well_formed(),
    {
        self.registry.get_markets()
    }

    /// All assets known, each once.
    pub fn get_assets(&self) -> (assets: &Vec<&'static Asset>)
        ensures
            assets@ == self.registry().assets(),
            self.registry()@.well_formed(),
    {
        self.registry.get_assets()
    }

    /// Orders are not sent to the venue yet: each is answered as if the
    /// venue could not be reached.
    pub fn order(&mut self, order: Order) -> (outcome: Result<OrderResponse, OrderError>)
        ensures
            *final(self) == *old(self),
            outcome == Err::<OrderResponse, OrderError>(OrderError::Other(Error::ConnectionError)),
    {
        Err(OrderError::Other(Error::ConnectionError))
    }

    /// The parameters of the request for the recorded samples of a market
    /// and timeframe.
    pub fn klines_query(market: &Market, interval: Interval) -> (params: Vec<(String, String)>)
        ensures
            texts(params@) == seq![("symbol"@, market.symbol()), ("interval"@, interval@)],
    {
        let mut params: Vec<(String, String)> = Vec::new();
        params.push((String::from_str("symbol"), market.to_string()));
        params.push((String::from_str("interval"), interval.to_string()));
        params
    }

    /// The number of bytes that the query of `params` takes, or `None` where
    /// it takes more than `REQUEST_LIMIT`.
    fn query_size(params: &Vec<(String, String)>) -> (size: Option<usize>)
        ensures
            match size {
                Some(bytes) => bytes == query_bytes(texts(params@)) && bytes <= REQUEST_LIMIT,
                None => query_bytes(texts(params@)) > REQUEST_LIMIT,
            },
    {
        let mut bytes: usize = 0;
        let mut i: usize = 0;
        while i < params.len()
            invariant
                i <= params.len(),
                bytes == query_bytes(texts(params@).take(i as int)),
                bytes <= REQUEST_LIMIT,
            decreases params.len() - i,
        {
            let key = params[i].0.as_str().as_bytes().len();
            let value = params[i].1.as_str().as_bytes().len();
            proof {
                let front = texts(params@).take(i + 1);
                assert(front.drop_last() =~= texts(params@).take(i as int));
                lemma_query_bytes_grow(front, texts(params@));
            }
            if key > REQUEST_LIMIT || value > REQUEST_LIMIT || bytes + key + value + 2 > REQUEST_LIMIT {
                return None;
            }
            bytes = bytes + key + value + 2;
            i += 1;
        }
        assert(texts(params@).take(i as int) =~= texts(params@));
        Some(bytes)
    }

    /// The URL of a request to the venue: the address of `path` below
    /// `ENDPOINT`, with `params` as its query. `None` where address and
    /// parameters are longer than `REQUEST_LIMIT`, or make no URL.
    pub fn request_url(path: &str, params: &Vec<(String, String)>) -> (url: Option<String>)
        ensures
            match url {
                Some(text) => {
                    &&& request_size(path@, texts(params@)) <= REQUEST_LIMIT
                    &&& url_with_params(ENDPOINT@ + path@, texts(params@)) == Some(text@)
                },
                None => {
                    ||| request_size(path@, texts(params@)) > REQUEST_LIMIT
                    ||| url_with_params(ENDPOINT@ + path@, texts(params@)) is None
                },
            },
    {
        let input = String::from_str(ENDPOINT).concat(path);
        let address = input.as_str().as_bytes().len();
        match Self::query_size(params) {
            None => None,
            Some(query) => {
                if address > REQUEST_LIMIT || address + query > REQUEST_LIMIT {
                    None
                } else {
                    parse_with_params(input.as_str(), params)
                }
            },
        }
    }

    /// The URL of the venue's live stream of a market and timeframe.
    pub fn stream_url(market: &Market, interval: Interval) -> (url: String)
        ensures
            url@ == WS_ENDPOINT@ + market.symbol() + "@kline_"@ + interval@,
    {
        let symbol = market.to_string();
        String::from_str(WS_ENDPOINT).concat(symbol.as_str()).concat("@kline_").concat(
            interval.as_str(),
        )
    }

    /// The sample that stands in where the venue's own is not read yet: of
    /// the market, with every time, price, amount and count at zero.
    pub fn placeholder(market: &'static Market) -> (sample: Candlestick)
        ensures
            sample.market == market,
            sample.open_time == 0,
            sample.close_time == 0,
            sample.high == (Price { price: 0, market }),
            sample.low == (Price { price: 0, market }),
            sample.open == (Price { price: 0, market }),
            sample.close == (Price { price: 0, market }),
            sample.volume == (Quantity { quantity: 0, asset: market.base }),
            sample.trades == 0,
    {
        Candlestick {
            market,
            open_time: 0,
            close_time: 0,
            high: Price { price: 0, market },
            low: Price { price: 0, market },
            open: Price { price: 0, market },
            close: Price { price: 0, market },
            volume: Quantity { quantity: 0, asset: market.base },
            trades: 0,
        }
    }
}

/// The number of bytes that the address of `path` below `ENDPOINT` and the
/// query of `params` take together.
pub open spec fn request_size(path: Seq<char>, params: Seq<(Seq<char>, Seq<char>)>) -> nat {
    encode_utf8(ENDPOINT@ + path).len() + query_bytes(params)
}

/// A query takes no fewer bytes than its front part.
proof fn lemma_query_bytes_grow(front: Seq<(Seq<char>, Seq<char>)>, whole: Seq<(Seq<char>, Seq<char>)>)
    requires
        front.len() <= whole.len(),
        front == whole.take(front.len() as int),
    ensures
        query_bytes(front) <= query_bytes(whole),
    decreases whole.len(),
{
    if front.len() < whole.len() {
        assert(whole.drop_last().take(front.len() as int) =~= front);
        lemma_query_bytes_grow(front, whole.drop_last());
    } else {
        assert(front =~= whole);
    }
}

} // verus!
