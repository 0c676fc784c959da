use crate::error::Error;
use crate::price::Price;
use crate::quantity::Quantity;
use vstd::prelude::*;

verus! {

/// The direction of a trade.
#[derive(Clone, Copy, Debug, PartialEq, Eq, Structural)]
pub enum Side {
    Buy,
    Sell,
}

impl Side {
    /// The opposite direction.
    pub open spec fn reversed(self) -> Side {
        match self {
            Side::Buy => Side::Sell,
            Side::Sell => Side::Buy,
        }
    }

    /// The opposite direction: buying turns into selling and selling into buying.
    pub fn reverse(&self) -> (other: Side)
        ensures
            other == self.reversed(),
    {
        match self {
            Side::Buy => Side::Sell,
            Side::Sell => Side::Buy,
        }
    }
}

/// An order as it is handed to a venue.
#[derive(Clone, Copy, Debug)]
pub enum Order {
    /// Trade the quantity at the price or better.
    Limit(Side, Quantity, Price),
    /// A bracket of two orders of which the venue cancels one when the other
    /// fills: the quantity, the stop price, and the take-profit price.
    Oco(Side, Quantity, Price, Price),
}

/// A trading filter of a venue: it passes a candidate order on, as it is or
/// adjusted, or refuses it.
pub trait Filter: Send + Sync {
    fn apply(&self, order: Order) -> Result<Order, ()>;
}

/// What a venue reports of an order that it took.
#[derive(Clone, Copy, Debug)]
pub struct OrderResponse {
    pub executed_quantity: Quantity,
}

/// Why a venue did not take an order.
#[derive(Clone, Copy, Debug, PartialEq, Eq, Structural)]
pub enum OrderError {
    Other(Error),
}

} // verus!
