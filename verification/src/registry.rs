use crate::asset::Asset;
use crate::market::Market;
use vstd::prelude::*;

verus! {

/// `Box::leak`: the boxed value is kept for the rest of the program's life,
/// and the reference that comes back points to it. Only that the value
/// behind the reference is the one that was in the box is stated here.
#[verifier::external_body]
fn leak<T: 'static>(boxed: Box<T>) -> (kept: &'static T)
    ensures
        *kept == *boxed,
{
    Box::leak(boxed)
}

/// The codes of `codes`, with `code` added at the end where it is not among
/// them yet.
pub open spec fn with_code(codes: Seq<Seq<char>>, code: Seq<char>) -> Seq<Seq<char>> {
    if codes.contains(code) {
        codes
    } else {
        codes.push(code)
    }
}

/// The pairs of `pairs`, with `pair` added at the end where it is not among
/// them yet.
pub open spec fn with_pair(
    pairs: Seq<(Seq<char>, Seq<char>)>,
    pair: (Seq<char>, Seq<char>),
) -> Seq<(Seq<char>, Seq<char>)> {
    if pairs.contains(pair) {
        pairs
    } else {
        pairs.push(pair)
    }
}

/// Adding a code keeps what was there, holds the code afterwards, and
/// brings nothing in twice.
proof fn lemma_with_code(codes: Seq<Seq<char>>, code: Seq<char>)
    ensures
        with_code(codes, code).contains(code),
        codes.is_prefix_of(with_code(codes, code)),
        forall|other: Seq<char>| codes.contains(other) ==> with_code(codes, code).contains(other),
        codes.no_duplicates() ==> with_code(codes, code).no_duplicates(),
{
    let grown = with_code(codes, code);
    if !codes.contains(code) {
        assert(grown[codes.len() as int] == code);
        assert forall|other: Seq<char>| codes.contains(other) implies grown.contains(other) by {
            let i = choose|i: int| 0 <= i < codes.len() && codes[i] == other;
            assert(grown[i] == other);
        }
    }
}

/// What a registry holds: the codes of its assets and the pairs of its
/// markets, each in the order in which they came in.
pub struct Listing {
    pub codes: Seq<Seq<char>>,
    pub pairs: Seq<(Seq<char>, Seq<char>)>,
}

impl Listing {
    /// The listing with nothing in it.
    pub open spec fn empty() -> Listing {
        Listing { codes: Seq::empty(), pairs: Seq::empty() }
    }

    /// Whether nothing is listed twice, and both assets of every market are
    /// listed.
    pub open spec fn well_formed(self) -> bool {
        &&& self.codes.no_duplicates()
        &&& self.pairs.no_duplicates()
        &&& forall|i: int|
            0 <= i < self.pairs.len() ==> self.codes.contains(#[trigger] self.pairs[i].0)
                && self.codes.contains(self.pairs[i].1)
    }

    /// The listing after the market of `pair` was asked for: its base asset,
    /// its quote asset and the market itself are added, each where it is not
    /// listed yet.
    pub open spec fn with_market(self, pair: (Seq<char>, Seq<char>)) -> Listing {
        Listing {
            codes: with_code(with_code(self.codes, pair.0), pair.1),
            pairs: with_pair(self.pairs, pair),
        }
    }

    /// The listing after the markets of `pairs` were asked for, first to last.
    pub open spec fn with_markets(self, pairs: Seq<(Seq<char>, Seq<char>)>) -> Listing
        decreases pairs.len(),
    {
        if pairs.len() == 0 {
            self
        } else {
            self.with_market(pairs[0]).with_markets(pairs.skip(1))
        }
    }
}

/// Adding a pair keeps what was there, holds the pair afterwards, and
/// brings nothing in twice.
proof fn lemma_with_pair(pairs: Seq<(Seq<char>, Seq<char>)>, pair: (Seq<char>, Seq<char>))
    ensures
        with_pair(pairs, pair).contains(pair),
        pairs.is_prefix_of(with_pair(pairs, pair)),
        forall|other: (Seq<char>, Seq<char>)|
            pairs.contains(other) ==> with_pair(pairs, pair).contains(other),
        pairs.no_duplicates() ==> with_pair(pairs, pair).no_duplicates(),
{
    let grown = with_pair(pairs, pair);
    if !pairs.contains(pair) {
        assert(grown[pairs.len() as int] == pair);
        assert forall|other: (Seq<char>, Seq<char>)| pairs.contains(other) implies grown.contains(
            other,
        ) by {
            let i = choose|i: int| 0 <= i < pairs.len() && pairs[i] == other;
            assert(grown[i] == other);
        }
    }
}

/// An asset that is asked for twice is held once: the second asking finds
/// the code where the first put it, and changes nothing. No code is
/// listed at two places.
pub proof fn lemma_interning_unique(codes: Seq<Seq<char>>, code: Seq<char>)
    requires
        codes.no_duplicates(),
    ensures
        with_code(codes, code).contains(code),
        with_code(codes, code).no_duplicates(),
        with_code(with_code(codes, code), code) == with_code(codes, code),
        with_code(with_code(codes, code), code).index_of(code) == with_code(codes, code).index_of(
            code,
        ),
{
    lemma_with_code(codes, code);
}

/// Asking for a market keeps a well-formed listing well-formed, keeps
/// every code and pair that was listed at its place, and lists the pair and
/// both its codes.
pub proof fn lemma_with_market(listing: Listing, pair: (Seq<char>, Seq<char>))
    requires
        listing.well_formed(),
    ensures
        listing.with_market(pair).well_formed(),
        listing.codes.is_prefix_of(listing.with_market(pair).codes),
        listing.pairs.is_prefix_of(listing.with_market(pair).pairs),
        listing.with_market(pair).pairs.contains(pair),
        listing.with_market(pair).codes.contains(pair.0),
        listing.with_market(pair).codes.contains(pair.1),
        forall|code: Seq<char>|
            listing.codes.contains(code) ==> listing.with_market(pair).codes.contains(code),
        forall|other: (Seq<char>, Seq<char>)|
            listing.pairs.contains(other) ==> listing.with_market(pair).pairs.contains(other),
{
    lemma_with_code(listing.codes, pair.0);
    lemma_with_code(with_code(listing.codes, pair.0), pair.1);
    lemma_with_pair(listing.pairs, pair);
}

/// Asking for markets keeps a well-formed listing well-formed, keeps every
/// code and pair that was listed at its place, and lists every pair that
/// was asked for.
pub proof fn lemma_with_markets(listing: Listing, pairs: Seq<(Seq<char>, Seq<char>)>)
    requires
        listing.well_formed(),
    ensures
        listing.with_markets(pairs).well_formed(),
        listing.codes.is_prefix_of(listing.with_markets(pairs).codes),
        listing.pairs.is_prefix_of(listing.with_markets(pairs).pairs),
        forall|code: Seq<char>|
            listing.codes.contains(code) ==> listing.with_markets(pairs).codes.contains(code),
        forall|other: (Seq<char>, Seq<char>)|
            listing.pairs.contains(other) ==> listing.with_markets(pairs).pairs.contains(other),
        forall|i: int|
            0 <= i < pairs.len() ==> listing.with_markets(pairs).pairs.contains(#[trigger] pairs[i]),
    decreases pairs.len(),
{
    if pairs.len() > 0 {
        let next = listing.with_market(pairs[0]);
        lemma_with_market(listing, pairs[0]);
        lemma_with_markets(next, pairs.skip(1));
        assert forall|i: int| 0 <= i < pairs.len() implies listing.with_markets(pairs).pairs.contains(
            #[trigger] pairs[i],
        ) by {
            if i > 0 {
                assert(pairs.skip(1)[i - 1] == pairs[i]);
            }
        }
    }
}

/// Asking for markets that are all listed changes nothing.
proof fn lemma_known_markets(listing: Listing, pairs: Seq<(Seq<char>, Seq<char>)>)
    requires
        listing.well_formed(),
        forall|i: int| 0 <= i < pairs.len() ==> listing.pairs.contains(#[trigger] pairs[i]),
    ensures
        listing.with_markets(pairs) == listing,
    decreases pairs.len(),
{
    if pairs.len() > 0 {
        let pair = pairs[0];
        let place = choose|i: int| 0 <= i < listing.pairs.len() && listing.pairs[i] == pair;
        assert(listing.codes.contains(listing.pairs[place].0));
        lemma_known_markets(listing, pairs.skip(1));
    }
}

/// Taking in the same markets a second time changes nothing: what an update
/// has made known, the same update finds known.
pub proof fn lemma_update_idempotent(listing: Listing, pairs: Seq<(Seq<char>, Seq<char>)>)
    requires
        listing.well_formed(),
    ensures
        listing.with_markets(pairs).with_markets(pairs) == listing.with_markets(pairs),
{
    lemma_with_markets(listing, pairs);
    lemma_known_markets(listing.with_markets(pairs), pairs);
}

/// The assets and markets that are known, each held once.
///
/// An asset or a market is made known by asking for it. The first time
/// it is asked for, it is taken in and kept for the rest of the program's
/// life; every later time the one that was kept is handed out again.
pub struct Registry {
    tables: Tables,
}

/// The two tables of a registry.
struct Tables {
    assets: Vec<&'static Asset>,
    markets: Vec<&'static Market>,
}

impl Tables {
    fn new() -> (tables: Tables)
        ensures
            tables.assets@.len() == 0,
            tables.markets@.len() == 0,
    {
        Tables { assets: Vec::new(), markets: Vec::new() }
    }
}

impl View for Registry {
    type V = Listing;

    /// The codes of the assets and the pairs of the markets that are kept,
    /// place by place.
    open spec fn view(&self) -> Listing {
        Listing {
            codes: self.assets().map_values(|asset: &'static Asset| asset@),
            pairs: self.markets().map_values(|market: &'static Market| market@),
        }
    }
}

impl Registry {
    #[verifier::type_invariant]
    spec fn listed_once(self) -> bool {
        &&& self@.well_formed()
        &&& forall|i: int|
            0 <= i < self.tables.markets@.len() ==> self.tables.assets@.contains(
                (#[trigger] self.tables.markets@[i]).base,
            ) && self.tables.assets@.contains(self.tables.markets@[i].quote)
    }

    /// The assets that are kept, in the order in which they came in.
    pub closed spec fn assets(&self) -> Seq<&'static Asset> {
        self.tables.assets@
    }

    /// The markets that are kept, in the order in which they came in.
    pub closed spec fn markets(&self) -> Seq<&'static Market> {
        self.tables.markets@
    }

    /// A registry that knows nothing yet.
    pub fn new() -> (registry: Registry)
        ensures
            registry@ == Listing::empty(),
            registry.assets() == Seq::<&'static Asset>::empty(),
            registry.markets() == Seq::<&'static Market>::empty(),
    {
        let registry = Registry { tables: Tables::new() };
        assert(registry@.codes =~= Seq::empty());
        assert(registry@.pairs =~= Seq::empty());
        registry
    }

    /// All assets known, each once.
    pub fn get_assets(&self) -> (assets: &Vec<&'static Asset>)
        ensures
            assets@ == self.assets(),
            self@.well_formed(),
    {
        proof {
            use_type_invariant(self);
        }
        &self.tables.assets
    }

    /// All markets known, each once.
    pub fn get_markets(&self) -> (markets: &Vec<&'static Market>)
        ensures
            markets@ == self.markets(),
            self@.well_formed(),
    {
        proof {
            use_type_invariant(self);
        }
        &self.tables.markets
    }

    /// The place of the asset with the code of `asset`, if it is known.
    fn find_asset(&self, asset: &Asset) -> (place: Option<usize>)
        ensures
            match place {
                Some(i) => i < self.tables.assets@.len() && self.tables.assets@[i as int]@ == asset@,
                None => !self@.codes.contains(asset@),
            },
    {
        let mut i: usize = 0;
        while i < self.tables.assets.len()
            invariant
                i <= self.tables.assets.len(),
                forall|j: int| 0 <= j < i ==> self.tables.assets@[j]@ != asset@,
            decreases self.tables.assets.len() - i,
        {
            if self.tables.assets[i].same(asset) {
                return Some(i);
            }
            i += 1;
        }
        None
    }

    /// The place of the market with the pair of `market`, if it is known.
    fn find_market(&self, market: &Market) -> (place: Option<usize>)
        ensures
            match place {
                Some(i) => i < self.tables.markets@.len() && self.tables.markets@[i as int]@ == market@,
                None => !self@.pairs.contains(market@),
            },
    {
        let mut i: usize = 0;
        while i < self.tables.markets.len()
            invariant
                i <= self.tables.markets.len(),
                forall|j: int| 0 <= j < i ==> self.tables.markets@[j]@ != market@,
            decreases self.tables.markets.len() - i,
        {
            if self.tables.markets[i].same(market) {
                return Some(i);
            }
            i += 1;
        }
        None
    }

    /// The one asset that is kept for the code of `asset`.
    ///
    /// Where the code is known, the registry stays as it is and the asset
    /// that was kept for it comes back. Where it is not, `asset` is taken in,
    /// behind all that are known.
    pub fn asset(&mut self, asset: Asset) -> (kept: &'static Asset)
        ensures
            kept@ == asset@,
            final(self)@.codes == with_code(old(self)@.codes, asset@),
            final(self)@.pairs == old(self)@.pairs,
            final(self).markets() == old(self).markets(),
            final(self).assets().contains(kept),
            old(self)@.codes.contains(asset@) ==> final(self).assets() == old(self).assets(),
            !old(self)@.codes.contains(asset@) ==> final(self).assets() == old(self).assets().push(kept),
    {
        proof {
            use_type_invariant(&*self);
        }
        match self.find_asset(&asset) {
            Some(i) => {
                let kept = self.tables.assets[i];
                assert(self@.codes[i as int] == asset@);
                kept
            },
            None => {
                let kept = leak(Box::new(asset));
                let ghost before = self.tables.assets@;
                let mut tables = Tables::new();
                std::mem::swap(&mut tables, &mut self.tables);
                tables.assets.push(kept);
                proof {
                    let codes = before.map_values(|asset: &'static Asset| asset@);
                    let grown = tables.assets@.map_values(|asset: &'static Asset| asset@);
                    assert(grown =~= codes.push(kept@));
                    assert(tables.assets@[before.len() as int] == kept);
                    assert forall|code: Seq<char>| codes.contains(code) implies grown.contains(
                        code,
                    ) by {
                        let i = choose|i: int| 0 <= i < codes.len() && codes[i] == code;
                        assert(grown[i] == code);
                    }
                    assert forall|known: &'static Asset| before.contains(known) implies tables.assets@.contains(
                        known,
                    ) by {
                        let i = choose|i: int| 0 <= i < before.len() && before[i] == known;
                        assert(tables.assets@[i] == known);
                    }
                }
                self.tables = tables;
                kept
            },
        }
    }

    /// The one market that is kept for the pair of `base` and `quote`.
    ///
    /// Both assets are asked for first, `base` before `quote`, so the market
    /// that comes back pairs the assets that are kept. Where the pair is
    /// known, the market that was kept for it comes back. Where it is not,
    /// the market is taken in, behind all that are known.
    pub fn market(&mut self, base: Asset, quote: Asset) -> (kept: &'static Market)
        ensures
            kept@ == (base@, quote@),
            final(self)@ == old(self)@.with_market((base@, quote@)),
            old(self).assets().is_prefix_of(final(self).assets()),
            final(self).assets().contains(kept.base),
            final(self).assets().contains(kept.quote),
            final(self).markets().contains(kept),
            old(self)@.pairs.contains((base@, quote@)) ==> final(self).markets() == old(
                self,
            ).markets(),
            !old(self)@.pairs.contains((base@, quote@)) ==> final(self).markets() == old(
                self,
            ).markets().push(kept),
    {
        let ghost pair = (base@, quote@);
        let base = self.asset(base);
        let ghost between = self.assets();
        let quote = self.asset(quote);
        proof {
            use_type_invariant(&*self);
            let place = choose|i: int| 0 <= i < between.len() && between[i] == base;
            assert(self.assets()[place] == base);
            lemma_with_code(old(self)@.codes, pair.0);
            lemma_with_code(with_code(old(self)@.codes, pair.0), pair.1);
        }
        let market = Market { base, quote };
        match self.find_market(&market) {
            Some(i) => {
                let kept = self.tables.markets[i];
                assert(self@.pairs[i as int] == pair);
                kept
            },
            None => {
                let kept = leak(Box::new(market));
                let ghost before = self.tables.markets@;
                let mut tables = Tables::new();
                std::mem::swap(&mut tables, &mut self.tables);
                tables.markets.push(kept);
                proof {
                    let pairs = before.map_values(|market: &'static Market| market@);
                    let grown = tables.markets@.map_values(|market: &'static Market| market@);
                    assert(grown =~= pairs.push(kept@));
                    assert(tables.markets@[before.len() as int] == kept);
                }
                self.tables = tables;
                kept
            },
        }
    }
}

} // verus!
