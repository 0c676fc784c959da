use crate::asset::Asset;
use vstd::prelude::*;
use vstd::std_specs::cmp::PartialEqSpecImpl;
use vstd::std_specs::convert::FromSpecImpl;

verus! {

/// A trading pair: the asset that is traded (`base`) and the asset that it is
/// priced in (`quote`).
///
/// A market is told from another by its pair of assets alone.
#[derive(Clone, Copy, Debug, Hash)]
pub struct Market {
    pub base: &'static Asset,
    pub quote: &'static Asset,
}

impl View for Market {
    type V = (Seq<char>, Seq<char>);

    /// The codes of the base and of the quote asset, in this order.
    open spec fn view(&self) -> (Seq<char>, Seq<char>) {
        (self.base@, self.quote@)
    }
}

impl Market {
    /// The symbol of the pair: the code of the base asset followed by the
    /// code of the quote asset.
    pub open spec fn symbol(&self) -> Seq<char> {
        self.base@ + self.quote@
    }

    /// Whether `self` and `other` are one market: whether they pair the same
    /// base asset with the same quote asset.
    pub fn same(&self, other: &Market) -> (same: bool)
        ensures
            same == (self@ == other@),
    {
        self.base.same(other.base) && self.quote.same(other.quote)
    }

    /// The symbol of the pair, as it is shown to a reader.
    pub fn to_string(&self) -> (text: String)
        ensures
            text@ == self.symbol(),
    {
        let quote = self.quote.to_string();
        self.base.to_string().concat(quote.as_str())
    }
}

impl PartialEq for Market {
    fn eq(&self, other: &Self) -> (same: bool) {
        self.same(other)
    }
}

impl PartialEqSpecImpl for Market {
    open spec fn obeys_eq_spec() -> bool {
        true
    }

    open spec fn eq_spec(&self, other: &Self) -> bool {
        self@ == other@
    }
}

impl Eq for Market {

}

impl From<(&'static Asset, &'static Asset)> for Market {
    /// The market of a base and a quote asset.
    fn from(pair: (&'static Asset, &'static Asset)) -> (market: Market) {
        Market { base: pair.0, quote: pair.1 }
    }
}

impl FromSpecImpl<(&'static Asset, &'static Asset)> for Market {
    open spec fn obeys_from_spec() -> bool {
        true
    }

    open spec fn from_spec(pair: (&'static Asset, &'static Asset)) -> Market {
        Market { base: pair.0, quote: pair.1 }
    }
}

} // verus!
