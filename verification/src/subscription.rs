use crate::candlestick::Candlestick;
use crate::error::Error;
use crate::interval::Interval;
use crate::market::Market;
use std::collections::VecDeque;
use vstd::prelude::*;

verus! {

/// Why a subscription hands out no more samples.
#[derive(Clone, Copy, Debug, PartialEq, Eq, Structural)]
pub enum Ending {
    /// The live source closed.
    Closed,
    /// The live source failed.
    Failed(Error),
}

/// What the live source gave when it was asked for its next sample.
#[derive(Clone, Copy, Debug)]
pub enum Arrival {
    Sample(Candlestick),
    Closed,
    Failed(Error),
}

/// What a consumer that asks for the next sample is to do.
#[derive(Clone, Copy, Debug)]
pub enum Demand {
    /// Take this sample: it is the oldest recorded one not handed out yet.
    Ready(Candlestick),
    /// Ask the live source, and hand what it gives to `arrive`.
    Live,
    /// Stop: no sample will come any more.
    Finished,
}

/// Where a subscription stands: the recorded samples that it has not handed
/// out yet, oldest first, and why it ended, once it has.
pub struct Feed {
    pub pending: Seq<Candlestick>,
    pub ending: Option<Ending>,
}

impl Feed {
    /// Whether the next sample is to come from the live source.
    pub open spec fn awaits_live(self) -> bool {
        self.pending.len() == 0 && self.ending is None
    }

    /// The feed after a consumer asked for the next sample, and what the
    /// consumer is told: recorded samples go out first, oldest first; after
    /// them the live source is asked, until it has closed or failed.
    pub open spec fn pulled(self) -> (Feed, Demand) {
        if self.pending.len() > 0 {
            (Feed { pending: self.pending.skip(1), ending: self.ending }, Demand::Ready(self.pending[0]))
        } else if self.ending is Some {
            (self, Demand::Finished)
        } else {
            (self, Demand::Live)
        }
    }

    /// The feed after the live source answered, and the sample that goes to
    /// the consumer at once.
    ///
    /// A sample that arrives goes to the consumer, unless recorded samples
    /// are still to be handed out: then it waits behind them. That the source
    /// closed or failed ends the feed, and nothing goes to the consumer. An
    /// answer that arrives after the end of the feed is dropped.
    pub open spec fn arrived(self, arrival: Arrival) -> (Feed, Option<Candlestick>) {
        if self.ending is Some {
            (self, None)
        } else {
            match arrival {
                Arrival::Sample(sample) => if self.pending.len() == 0 {
                    (self, Some(sample))
                } else {
                    (Feed { pending: self.pending.push(sample), ending: self.ending }, None)
                },
                Arrival::Closed => (
                    Feed { pending: self.pending, ending: Some(Ending::Closed) },
                    None,
                ),
                Arrival::Failed(error) => (
                    Feed { pending: self.pending, ending: Some(Ending::Failed(error)) },
                    None,
                ),
            }
        }
    }

    /// The samples that a consumer receives, in the order in which it
    /// receives them, when it asks again and again and the live source
    /// answers with `live`, one answer each time it is asked.
    pub open spec fn handed_out(self, live: Seq<Arrival>) -> Seq<Candlestick>
        decreases self.pending.len() + live.len(),
    {
        let (next, demand) = self.pulled();
        match demand {
            Demand::Ready(sample) => seq![sample] + next.handed_out(live),
            Demand::Finished => Seq::empty(),
            Demand::Live => if live.len() == 0 {
                Seq::empty()
            } else {
                let (after, sample) = next.arrived(live[0]);
                match sample {
                    Some(sample) => seq![sample] + after.handed_out(live.skip(1)),
                    None => after.handed_out(live.skip(1)),
                }
            },
        }
    }
}

/// The samples at the front of `live`, up to the first answer that is not a
/// sample.
pub open spec fn samples_before_end(live: Seq<Arrival>) -> Seq<Candlestick>
    decreases live.len(),
{
    if live.len() == 0 {
        Seq::empty()
    } else {
        match live[0] {
            Arrival::Sample(sample) => seq![sample] + samples_before_end(live.skip(1)),
            _ => Seq::empty(),
        }
    }
}

/// Whether each sample opens no earlier than the one before it.
pub open spec fn ascending(samples: Seq<Candlestick>) -> bool {
    forall|i: int, j: int| 0 <= i <= j < samples.len() ==> samples[i].open_time <= samples[j].open_time
}

/// A consumer receives the recorded samples, first to last, and then the
/// samples of the live source in the order in which they arrive, up to the
/// first answer of the source that is not a sample. No sample is left out,
/// none comes twice, and none changes its place.
pub proof fn lemma_backlog_then_live(backlog: Seq<Candlestick>, live: Seq<Arrival>)
    ensures
        (Feed { pending: backlog, ending: None }).handed_out(live) == backlog + samples_before_end(
            live,
        ),
    decreases backlog.len() + live.len(),
{
    let feed = Feed { pending: backlog, ending: None };
    if backlog.len() > 0 {
        lemma_backlog_then_live(backlog.skip(1), live);
    } else if live.len() > 0 {
        match live[0] {
            Arrival::Sample(sample) => {
                lemma_backlog_then_live(backlog, live.skip(1));
            },
            _ => {
                lemma_nothing_after_the_end(feed.arrived(live[0]).0, live.skip(1));
            },
        }
    }
}

/// Once the live source has closed or failed and the recorded samples are
/// handed out, a consumer receives nothing more, whatever the source still
/// answers.
pub proof fn lemma_nothing_after_the_end(feed: Feed, live: Seq<Arrival>)
    requires
        feed.ending is Some,
        feed.pending.len() == 0,
    ensures
        feed.handed_out(live) == Seq::<Candlestick>::empty(),
{
}

/// Where each recorded sample opens no earlier than the one before it, each
/// live sample likewise, and the first live sample no earlier than the last
/// recorded one, a consumer receives the samples in that order: none opens
/// earlier than one that it received before.
pub proof fn lemma_handed_out_ascending(backlog: Seq<Candlestick>, live: Seq<Arrival>)
    requires
        ascending(backlog + samples_before_end(live)),
    ensures
        ascending((Feed { pending: backlog, ending: None }).handed_out(live)),
{
    lemma_backlog_then_live(backlog, live);
}

/// What a subscription is made of and where it stands.
pub struct SubscriptionView<S> {
    pub market: &'static Market,
    pub interval: Interval,
    pub stream: S,
    pub feed: Feed,
}

/// The one channel through which the samples of a market and timeframe
/// reach a consumer: first the recorded samples, oldest first, then those of
/// the live source `stream`, which the subscription owns and which is
/// released with it.
///
/// The subscription decides what comes next; asking the live source is left
/// to the consumer's side, which hands the answer in.
pub struct Subscription<S> {
    pub market: &'static Market,
    pub interval: Interval,
    pub stream: S,
    backlog: VecDeque<Candlestick>,
    ending: Option<Ending>,
}

impl<S> View for Subscription<S> {
    type V = SubscriptionView<S>;

    closed spec fn view(&self) -> SubscriptionView<S> {
        SubscriptionView {
            market: self.market,
            interval: self.interval,
            stream: self.stream,
            feed: Feed { pending: self.backlog@, ending: self.ending },
        }
    }
}

impl<S> Subscription<S> {
    /// The name of the channel: the market's symbol, `@`, and the short name
    /// of the timeframe.
    pub open spec fn name(market: &'static Market, interval: Interval) -> Seq<char> {
        market.symbol() + seq!['@'] + interval@
    }

    /// A subscription to the live source alone, with no recorded sample
    /// before it.
    pub fn new(market: &'static Market, interval: Interval, stream: S) -> (subscription: Self)
        ensures
            subscription@ == (SubscriptionView {
                market,
                interval,
                stream,
                feed: Feed { pending: Seq::empty(), ending: None },
            }),
    {
        Subscription { market, interval, stream, backlog: VecDeque::new(), ending: None }
    }

    /// A subscription that hands out the recorded samples of `backlog`,
    /// first to last, before those of the live source.
    pub fn with_backlog(
        market: &'static Market,
        interval: Interval,
        backlog: Vec<Candlestick>,
        stream: S,
    ) -> (subscription: Self)
        ensures
            subscription@ == (SubscriptionView {
                market,
                interval,
                stream,
                feed: Feed { pending: backlog@, ending: None },
            }),
    {
        let mut queue: VecDeque<Candlestick> = VecDeque::new();
        let mut i: usize = 0;
        while i < backlog.len()
            invariant
                i <= backlog.len(),
                queue@ == backlog@.take(i as int),
            decreases backlog.len() - i,
        {
            queue.push_back(backlog[i]);
            i += 1;
        }
        assert(backlog@.take(backlog.len() as int) =~= backlog@);
        Subscription { market, interval, stream, backlog: queue, ending: None }
    }

    /// The name of the channel, as it is shown to a reader.
    pub fn to_string(&self) -> (text: String)
        ensures
            text@ == Self::name(self@.market, self@.interval),
    {
        let symbol = self.market.to_string();
        let with_at = symbol.concat("@");
        proof {
            reveal_strlit("@");
        }
        with_at.concat(self.interval.as_str())
    }

    /// Why the subscription ended, or `None` while it has not.
    pub fn ending(&self) -> (ending: Option<Ending>)
        ensures
            ending == self@.feed.ending,
    {
        self.ending
    }

    /// Whether the next sample is to come from the live source.
    pub fn awaits_live(&self) -> (live: bool)
        ensures
            live == self@.feed.awaits_live(),
    {
        self.backlog.len() == 0 && self.ending.is_none()
    }

    /// Asks for the next sample.
    pub fn pull(&mut self) -> (demand: Demand)
        ensures
            final(self)@.market == old(self)@.market,
            final(self)@.interval == old(self)@.interval,
            final(self)@.stream == old(self)@.stream,
            (final(self)@.feed, demand) == old(self)@.feed.pulled(),
    {
        match self.backlog.pop_front() {
            Some(sample) => Demand::Ready(sample),
            None => {
                if self.ending.is_some() {
                    Demand::Finished
                } else {
                    Demand::Live
                }
            },
        }
    }

    /// Takes what the live source gave when it was asked, and gives back the
    /// sample that goes to the consumer at once, if any.
    pub fn arrive(&mut self, arrival: Arrival) -> (sample: Option<Candlestick>)
        ensures
            final(self)@.market == old(self)@.market,
            final(self)@.interval == old(self)@.interval,
            final(self)@.stream == old(self)@.stream,
            (final(self)@.feed, sample) == old(self)@.feed.arrived(arrival),
    {
        if self.ending.is_some() {
            return None;
        }
        match arrival {
            Arrival::Sample(sample) => {
                if self.backlog.len() == 0 {
                    Some(sample)
                } else {
                    self.backlog.push_back(sample);
                    None
                }
            },
            Arrival::Closed => {
                self.ending = Some(Ending::Closed);
                None
            },
            Arrival::Failed(error) => {
                self.ending = Some(Ending::Failed(error));
                None
            },
        }
    }
}

} // verus!
