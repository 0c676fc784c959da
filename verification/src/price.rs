use crate::market::Market;
use crate::Monetary;
use std::cmp::Ordering;
use vstd::prelude::*;
use vstd::std_specs::cmp::PartialEqSpecImpl;
use vstd::std_specs::cmp::PartialOrdSpecImpl;

verus! {

/// What one unit of a market's base asset costs, in units of its quote asset.
///
/// Prices are equal, and ordered, by their amounts alone. Comparing prices of
/// two different markets is left to the caller to avoid: the comparison itself
/// does not look at the market.
#[derive(Clone, Copy, Debug)]
pub struct Price {
    pub price: Monetary,
    pub market: &'static Market,
}

impl PartialEq for Price {
    fn eq(&self, other: &Self) -> (same: bool) {
        self.price == other.price
    }
}

impl PartialEqSpecImpl for Price {
    open spec fn obeys_eq_spec() -> bool {
        true
    }

    open spec fn eq_spec(&self, other: &Self) -> bool {
        self.price == other.price
    }
}

impl PartialOrd for Price {
    fn partial_cmp(&self, other: &Self) -> (order: Option<Ordering>) {
        if self.price < other.price {
            Some(Ordering::Less)
        } else if self.price > other.price {
            Some(Ordering::Greater)
        } else {
            Some(Ordering::Equal)
        }
    }
}

impl PartialOrdSpecImpl for Price {
    open spec fn obeys_partial_cmp_spec() -> bool {
        true
    }

    open spec fn partial_cmp_spec(&self, other: &Self) -> Option<Ordering> {
        if self.price < other.price {
            Some(Ordering::Less)
        } else if self.price > other.price {
            Some(Ordering::Greater)
        } else {
            Some(Ordering::Equal)
        }
    }
}

} // verus!
