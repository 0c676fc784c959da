use vstd::prelude::*;

verus! {

/// The timeframe that one candlestick covers.
#[derive(Clone, Copy, Debug, PartialEq, Eq, Structural)]
pub enum Interval {
    I1m,
    I5m,
}

impl View for Interval {
    type V = Seq<char>;

    /// The short name of the timeframe: the one text that stands for it both
    /// where it is shown and where a channel or a query names it.
    open spec fn view(&self) -> Seq<char> {
        match self {
            Interval::I1m => seq!['1', 'm'],
            Interval::I5m => seq!['5', 'm'],
        }
    }
}

impl Interval {
    /// The short name of the timeframe.
    pub fn as_str(&self) -> (name: &'static str)
        ensures
            name@ == self@,
    {
        proof {
            reveal_strlit("1m");
            reveal_strlit("5m");
        }
        match self {
            Interval::I1m => "1m",
            Interval::I5m => "5m",
        }
    }

    /// The short name of the timeframe, as an owned text.
    pub fn to_string(&self) -> (name: String)
        ensures
            name@ == self@,
    {
        String::from_str(self.as_str())
    }
}

} // verus!
