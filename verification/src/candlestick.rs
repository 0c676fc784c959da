use crate::error::Error;
use crate::market::Market;
use crate::price::Price;
use crate::quantity::Quantity;
use vstd::prelude::*;

verus! {

/// What happened in one market between `open_time` and `close_time` (the
/// first included, the second not): the first, highest, lowest and last
/// price, the volume traded and the number of trades.
#[derive(Clone, Copy, Debug)]
pub struct Candlestick {
    pub market: &'static Market,
    pub open_time: u64,
    pub close_time: u64,
    pub high: Price,
    pub low: Price,
    pub open: Price,
    pub close: Price,
    pub volume: Quantity,
    pub trades: u64,
}

impl Candlestick {
    /// Hands the sample to the record of past samples. No record is kept
    /// yet, so there is nothing to do and nothing that can fail.
    pub fn insert(&self) -> (done: Result<(), Error>)
        ensures
            done == Ok::<(), Error>(()),
    {
        Ok(())
    }
}

} // verus!
