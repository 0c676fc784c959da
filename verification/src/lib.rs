//! A typed model of trading on an exchange: assets, markets, prices and
//! quantities that cannot be mixed up, the samples of a market and the
//! subscription that hands them out in order, orders, and the entering of a
//! position as two orders that depend on each other.
//!
//! What talks to a venue is left to the caller. The library decides and
//! computes: it says which order to place next and takes the venue's answer,
//! it says where the next sample is to come from and takes what arrived.

use vstd::prelude::*;

pub mod asset;
pub mod binance;
pub mod candlestick;
pub mod error;
pub mod exchange;
pub mod interval;
pub mod market;
pub mod order;
pub mod position;
pub mod price;
pub mod quantity;
pub mod registry;
pub mod simulated;
pub mod subscription;

pub use asset::Asset;
pub use candlestick::Candlestick;
pub use error::Error;
pub use exchange::Api;
pub use interval::Interval;
pub use market::Market;
pub use order::Filter;
pub use order::Order;
pub use order::OrderError;
pub use order::OrderResponse;
pub use order::Side;
pub use position::PositionError;
pub use position::PositionResponse;
pub use price::Price;
pub use quantity::Quantity;
pub use registry::Registry;
pub use simulated::Simulated;
pub use subscription::Subscription;

verus! {

/// An amount of money, counted in whole steps of the smallest amount that
/// is told apart.
pub type Monetary = i64;

} // verus!
