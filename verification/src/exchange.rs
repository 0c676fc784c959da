use crate::asset::Asset;
use crate::error::Error;
use crate::interval::Interval;
use crate::market::Market;
use crate::order::Order;
use crate::order::OrderError;
use crate::order::OrderResponse;
use crate::order::Side;
use crate::position::entering_order;
use crate::position::leaving_order;
use crate::position::position_fault;
use crate::position::position_outcome;
use crate::position::validate_position;
use crate::position::PositionError;
use crate::position::PositionResponse;
use crate::price::Price;
use crate::quantity::Quantity;
use crate::subscription::Subscription;
use vstd::prelude::*;

verus! {

/// What every integration of a venue offers, and what a consumer may rely on.
///
/// `S` is the live source of the integration's subscriptions.
///
/// What a call of an integration does is the integration's own matter. One
/// that states it does so in the relation that belongs to the call
/// (`refreshed`, `lists_markets`, `lists_assets`, `subscribed`, `placed`);
/// of one that states nothing, nothing is known.
pub trait Api<S>: Sized {
    /// The name of the venue.
    const NAME: &'static str = "";

    /// What a call of `update` may do: the integration before and after the
    /// call, and what the call returned.
    open spec fn refreshed(before: Self, after: Self, outcome: Result<(), Error>) -> bool {
        true
    }

    /// What a call of `get_markets` may return.
    open spec fn lists_markets(&self, markets: Seq<&'static Market>) -> bool {
        true
    }

    /// What a call of `get_assets` may return.
    open spec fn lists_assets(&self, assets: Seq<&'static Asset>) -> bool {
        true
    }

    /// What a call of `subscribe` may return.
    open spec fn subscribed(
        &self,
        market: &'static Market,
        interval: Interval,
        subscription: Subscription<S>,
    ) -> bool {
        true
    }

    /// What a call of `order` may do: the integration before the call, the
    /// order, the integration after the call, and what the call returned.
    open spec fn placed(
        before: Self,
        order: Order,
        after: Self,
        outcome: Result<OrderResponse, OrderError>,
    ) -> bool {
        true
    }

    /// Brings what the integration knows of the venue's markets and assets
    /// up to date.
    fn update(&mut self) -> (outcome: Result<(), Error>)
        ensures
            Self::refreshed(*old(self), *final(self), outcome),
    ;

    /// All markets known.
    fn get_markets(&self) -> (markets: &Vec<&'static Market>)
        ensures
            self.lists_markets(markets@),
    ;

    /// All assets known.
    fn get_assets(&self) -> (assets: &Vec<&'static Asset>)
        ensures
            self.lists_assets(assets@),
    ;

    /// Subscribes to the samples of a market and timeframe.
    fn subscribe(&self, market: &'static Market, interval: Interval) -> (subscription: Subscription<S>)
        ensures
            self.subscribed(market, interval, subscription),
    ;

    /// Hands one order to the venue.
    ///
    /// To enter a position, `enter_position` is the better way: it checks
    /// the intent first and sets the bracket.
    fn order(&mut self, order: Order) -> (outcome: Result<OrderResponse, OrderError>)
        ensures
            Self::placed(*old(self), order, *final(self), outcome),
    ;

    /// Enters a position: opens it with a limit order and sets a bracket
    /// order of take-profit and stop-loss against it.
    ///
    /// The intent is checked first, and an intent that fails a check leaves
    /// the integration untouched. The two orders are two calls of `order`:
    /// where the first is taken and the second is not, the position is open
    /// without a bracket, and the error of the second is all that is returned.
    fn enter_position(
        &mut self,
        side: Side,
        enter_quantity: Quantity,
        enter_price: Price,
        take_profit: Price,
        stop_loss: Price,
    ) -> (outcome: Result<PositionResponse, PositionError>)
        ensures
            entered(
                |before: Self, order: Order, after: Self, outcome: Result<OrderResponse, OrderError>|
                    Self::placed(before, order, after, outcome),
                *old(self),
                side,
                enter_quantity,
                enter_price,
                take_profit,
                stop_loss,
                *final(self),
                outcome,
            ),
    {
        match validate_position(side, enter_quantity, enter_price, take_profit, stop_loss) {
            Err(fault) => {
                return Err(fault);
            },
            Ok(()) => {},
        }
        let reverse = side.reverse();
        let ghost placed = |before: Self, order: Order, after: Self, outcome: Result<OrderResponse, OrderError>|
            Self::placed(before, order, after, outcome);
        let ghost before = *self;
        let entering = self.order(Order::Limit(side, enter_quantity, enter_price));
        let ghost between = *self;
        assert(placed(before, entering_order(side, enter_quantity, enter_price), between, entering));
        let entering_response = match entering {
            Err(error) => {
                return Err(PositionError::from_order(error));
            },
            Ok(response) => response,
        };
        let leaving = self.order(
            Order::Oco(reverse, entering_response.executed_quantity, stop_loss, take_profit),
        );
        let outcome = match leaving {
            Err(error) => Err(PositionError::from_order(error)),
            Ok(leaving_response) => Ok(PositionResponse::compose(entering_response, leaving_response)),
        };
        assert(placed(between, leaving_order(side, entering_response, take_profit, stop_loss), *self, leaving));
        outcome
    }
}

/// The second half of entering a position: what follows the venue's answer
/// `entering` to the opening order. Where the order was refused, nothing
/// more is placed. Where it was taken, the bracket order is placed, over the
/// quantity that the opening order executed, and the venue's answer to it
/// decides.
///
/// `placed` is the integration's relation of that name.
pub open spec fn bracketed<A>(
    placed: spec_fn(A, Order, A, Result<OrderResponse, OrderError>) -> bool,
    between: A,
    side: Side,
    take_profit: Price,
    stop_loss: Price,
    entering: Result<OrderResponse, OrderError>,
    after: A,
    outcome: Result<PositionResponse, PositionError>,
) -> bool {
    match entering {
        Err(error) => after == between && outcome == position_outcome(entering, entering),
        Ok(response) => exists|leaving: Result<OrderResponse, OrderError>|
            {
                &&& #[trigger] placed(
                    between,
                    leaving_order(side, response, take_profit, stop_loss),
                    after,
                    leaving,
                )
                &&& outcome == position_outcome(entering, leaving)
            },
    }
}

/// What `enter_position` does: the integration before the call, the intent,
/// the integration after the call, and what the call returned.
///
/// An intent that fails a check is answered with that fault, and the
/// integration is as it was: no order was placed. Else the opening order is
/// placed, and `bracketed` says what follows.
///
/// `placed` is the integration's relation of that name.
pub open spec fn entered<A>(
    placed: spec_fn(A, Order, A, Result<OrderResponse, OrderError>) -> bool,
    before: A,
    side: Side,
    enter_quantity: Quantity,
    enter_price: Price,
    take_profit: Price,
    stop_loss: Price,
    after: A,
    outcome: Result<PositionResponse, PositionError>,
) -> bool {
    match position_fault(side, enter_quantity, enter_price, take_profit, stop_loss) {
        Some(fault) => after == before && outcome == Err::<PositionResponse, PositionError>(fault),
        None => exists|between: A, entering: Result<OrderResponse, OrderError>|
            {
                &&& #[trigger] placed(
                    before,
                    entering_order(side, enter_quantity, enter_price),
                    between,
                    entering,
                )
                &&& bracketed(placed, between, side, take_profit, stop_loss, entering, after, outcome)
            },
    }
}

} // verus!
