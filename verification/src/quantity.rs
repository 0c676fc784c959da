use crate::asset::Asset;
use crate::price::Price;
use crate::Monetary;
use std::cmp::Ordering;
use std::ops::Add;
use std::ops::Mul;
use vstd::pervasive::runtime_assert;
use vstd::prelude::*;
use vstd::std_specs::cmp::PartialEqSpecImpl;
use vstd::std_specs::cmp::PartialOrdSpecImpl;
use vstd::std_specs::ops::AddSpecImpl;
use vstd::std_specs::ops::MulSpecImpl;

verus! {

/// An amount of one asset.
///
/// Quantities are equal, and ordered, by their amounts alone.
#[derive(Clone, Copy, Debug)]
pub struct Quantity {
    pub quantity: Monetary,
    pub asset: &'static Asset,
}

impl Quantity {
    /// Whether `self` and `other` can be added: both are amounts of one
    /// asset, and their sum is an amount that can be held.
    pub open spec fn can_add(self, other: Quantity) -> bool {
        &&& self.asset@ == other.asset@
        &&& Monetary::MIN <= self.quantity + other.quantity <= Monetary::MAX
    }

    /// The sum of two amounts of one asset.
    pub open spec fn sum(self, other: Quantity) -> Quantity {
        Quantity { quantity: (self.quantity + other.quantity) as Monetary, asset: self.asset }
    }

    /// Whether `self` can be converted at `price`: `self` is an amount of the
    /// base asset of the price's market, and the product is an amount that can
    /// be held.
    pub open spec fn can_convert(self, price: Price) -> bool {
        &&& self.asset@ == price.market.base@
        &&& Monetary::MIN <= self.quantity * price.price <= Monetary::MAX
    }

    /// An amount of a market's base asset, converted at `price` into the
    /// market's quote asset.
    pub open spec fn converted(self, price: Price) -> Quantity {
        Quantity { quantity: (self.quantity * price.price) as Monetary, asset: price.market.quote }
    }

    /// The sum of `self` and `other`, or `None` where the two are amounts of
    /// different assets or the sum cannot be held.
    pub fn checked_add(self, other: Quantity) -> (sum: Option<Quantity>)
        ensures
            sum == (if self.can_add(other) {
                Some(self.sum(other))
            } else {
                None
            }),
    {
        if self.asset.same(other.asset) {
            match self.quantity.checked_add(other.quantity) {
                Some(quantity) => Some(Quantity { quantity, asset: self.asset }),
                None => None,
            }
        } else {
            None
        }
    }

    /// `self` converted at `price`, or `None` where `self` is not an amount
    /// of the base asset of the price's market or the product cannot be held.
    pub fn checked_mul(self, price: Price) -> (product: Option<Quantity>)
        ensures
            product == (if self.can_convert(price) {
                Some(self.converted(price))
            } else {
                None
            }),
    {
        if self.asset.same(price.market.base) {
            match self.quantity.checked_mul(price.price) {
                Some(quantity) => Some(Quantity { quantity, asset: price.market.quote }),
                None => None,
            }
        } else {
            None
        }
    }
}

impl Add for Quantity {
    type Output = Quantity;

    /// The sum of two amounts of one asset. Amounts of different assets
    /// cannot be added: a call that tries all the same stops the program.
    fn add(self, other: Quantity) -> (sum: Quantity) {
        let sum = self.checked_add(other);
        runtime_assert(sum.is_some());
        sum.unwrap()
    }
}

impl AddSpecImpl for Quantity {
    open spec fn obeys_add_spec() -> bool {
        true
    }

    open spec fn add_req(self, other: Quantity) -> bool {
        self.can_add(other)
    }

    open spec fn add_spec(self, other: Quantity) -> Quantity {
        self.sum(other)
    }
}

impl Mul<Price> for Quantity {
    type Output = Quantity;

    /// An amount of the base asset of the price's market, converted into the
    /// market's quote asset. An amount of any other asset cannot be
    /// converted at that price: a call that tries all the same stops the
    /// program.
    fn mul(self, price: Price) -> (product: Quantity) {
        let product = self.checked_mul(price);
        runtime_assert(product.is_some());
        product.unwrap()
    }
}

impl MulSpecImpl<Price> for Quantity {
    open spec fn obeys_mul_spec() -> bool {
        true
    }

    open spec fn mul_req(self, price: Price) -> bool {
        self.can_convert(price)
    }

    open spec fn mul_spec(self, price: Price) -> Quantity {
        self.converted(price)
    }
}

impl PartialEq for Quantity {
    fn eq(&self, other: &Self) -> (same: bool) {
        self.quantity == other.quantity
    }
}

impl PartialEqSpecImpl for Quantity {
    open spec fn obeys_eq_spec() -> bool {
        true
    }

    open spec fn eq_spec(&self, other: &Self) -> bool {
        self.quantity == other.quantity
    }
}

impl PartialOrd for Quantity {
    fn partial_cmp(&self, other: &Self) -> (order: Option<Ordering>) {
        if self.quantity < other.quantity {
            Some(Ordering::Less)
        } else if self.quantity > other.quantity {
            Some(Ordering::Greater)
        } else {
            Some(Ordering::Equal)
        }
    }
}

impl PartialOrdSpecImpl for Quantity {
    open spec fn obeys_partial_cmp_spec() -> bool {
        true
    }

    open spec fn partial_cmp_spec(&self, other: &Self) -> Option<Ordering> {
        if self.quantity < other.quantity {
            Some(Ordering::Less)
        } else if self.quantity > other.quantity {
            Some(Ordering::Greater)
        } else {
            Some(Ordering::Equal)
        }
    }
}

} // verus!
