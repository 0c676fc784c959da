use crate::asset::Asset;
use crate::error::Error;
use crate::exchange::Api;
use crate::interval::Interval;
use crate::market::Market;
use crate::order::Order;
use crate::order::OrderError;
use crate::order::OrderResponse;
use crate::subscription::Subscription;
use std::marker::PhantomData;
use vstd::prelude::*;

verus! {

/// An integration laid around another for trading on paper: what concerns
/// markets, assets and samples goes to the integration inside, as it is, and
/// no order reaches it.
pub struct Simulated<API, S> where API: Api<S> {
    api: API,
    _phantom: PhantomData<S>,
}

impl<API, S> Simulated<API, S> where API: Api<S> {
    /// The integration inside.
    pub closed spec fn inner(self) -> API {
        self.api
    }

    /// Lays the simulation around `api`.
    pub fn new(api: API) -> (simulated: Self)
        ensures
            simulated.inner() == api,
    {
        Simulated { api, _phantom: PhantomData }
    }

    /// Takes the simulation off again.
    pub fn into_inner(self) -> (api: API)
        ensures
            api == self.inner(),
    {
        self.api
    }
}

impl<API, S> Api<S> for Simulated<API, S> where API: Api<S> {
    /// An update is the update of the integration inside.
    open spec fn refreshed(before: Self, after: Self, outcome: Result<(), Error>) -> bool {
        API::refreshed(before.inner(), after.inner(), outcome)
    }

    /// The markets are those of the integration inside.
    open spec fn lists_markets(&self, markets: Seq<&'static Market>) -> bool {
        self.inner().lists_markets(markets)
    }

    /// The assets are those of the integration inside.
    open spec fn lists_assets(&self, assets: Seq<&'static Asset>) -> bool {
        self.inner().lists_assets(assets)
    }

    /// A subscription is one of the integration inside.
    open spec fn subscribed(
        &self,
        market: &'static Market,
        interval: Interval,
        subscription: Subscription<S>,
    ) -> bool {
        self.inner().subscribed(market, interval, subscription)
    }

    /// No order is taken: each is answered as if the venue could not be
    /// reached, and nothing changes.
    open spec fn placed(
        before: Self,
        order: Order,
        after: Self,
        outcome: Result<OrderResponse, OrderError>,
    ) -> bool {
        after == before && outcome == Err::<OrderResponse, OrderError>(
            OrderError::Other(Error::ConnectionError),
        )
    }

    fn update(&mut self) -> (outcome: Result<(), Error>) {
        self.api.update()
    }

    fn get_markets(&self) -> (markets: &Vec<&'static Market>) {
        self.api.get_markets()
    }

    fn get_assets(&self) -> (assets: &Vec<&'static Asset>) {
        self.api.get_assets()
    }

    fn subscribe(&self, market: &'static Market, interval: Interval) -> (subscription: Subscription<S>) {
        self.api.subscribe(market, interval)
    }

    fn order(&mut self, order: Order) -> (outcome: Result<OrderResponse, OrderError>) {
        Err(OrderError::Other(Error::ConnectionError))
    }
}

} // verus!
