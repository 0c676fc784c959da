use vstd::prelude::*;
use vstd::std_specs::cmp::PartialEqSpec;
use vstd::std_specs::cmp::PartialEqSpecImpl;
use vstd::std_specs::convert::FromSpec;
use vstd::std_specs::convert::FromSpecImpl;

verus! {

/// A tradable currency or token, known by its code (for example `BTC`).
///
/// Two assets are the same asset exactly when their codes are the same text.
#[derive(Debug, Hash)]
pub struct Asset(String);

impl View for Asset {
    type V = Seq<char>;

    /// The code of the asset.
    closed spec fn view(&self) -> Seq<char> {
        self.0@
    }
}

impl Asset {
    /// Whether `self` and `other` are one asset: whether their codes are the
    /// same text.
    pub fn same(&self, other: &Asset) -> (same: bool)
        ensures
            same == (self@ == other@),
    {
        self.0 == other.0
    }

    /// The code of the asset, as it is shown to a reader.
    pub fn to_string(&self) -> (text: String)
        ensures
            text@ == self@,
    {
        self.0.clone()
    }
}

impl Clone for Asset {
    fn clone(&self) -> (copy: Self)
        ensures
            copy@ == self@,
    {
        Asset(self.0.clone())
    }
}

impl PartialEq for Asset {
    fn eq(&self, other: &Self) -> (same: bool) {
        self.same(other)
    }
}

impl PartialEqSpecImpl for Asset {
    open spec fn obeys_eq_spec() -> bool {
        true
    }

    open spec fn eq_spec(&self, other: &Self) -> bool {
        self@ == other@
    }
}

impl Eq for Asset {

}

impl From<String> for Asset {
    fn from(string: String) -> (asset: Asset)
        ensures
            asset@ == string@,
    {
        Asset(string)
    }
}

impl FromSpecImpl<String> for Asset {
    open spec fn obeys_from_spec() -> bool {
        true
    }

    closed spec fn from_spec(string: String) -> Asset {
        Asset(string)
    }
}

/// An asset made of a code has that code, and two assets made of the same
/// code are equal.
pub proof fn lemma_same_code_same_asset(first: String, second: String)
    requires
        first@ == second@,
    ensures
        <Asset as FromSpec<String>>::from_spec(first)@ == first@,
        <Asset as PartialEqSpec>::eq_spec(
            &<Asset as FromSpec<String>>::from_spec(first),
            &<Asset as FromSpec<String>>::from_spec(second),
        ),
{
}

} // verus!
