use api::subscription::Arrival;
use api::subscription::Demand;
use api::subscription::Ending;
use api::Asset;
use api::Candlestick;
use api::Error;
use api::Interval;
use api::Market;
use api::Price;
use api::Quantity;
use api::Subscription;
use std::cell::Cell;
use std::rc::Rc;

fn keep<T>(value: T) -> &'static T {
    Box::leak(Box::new(value))
}

fn market() -> &'static Market {
    let btc = keep(Asset::from("BTC".to_string()));
    let usdt = keep(Asset::from("USDT".to_string()));
    keep(Market::from((btc, usdt)))
}

fn sample(market: &'static Market, open_time: u64) -> Candlestick {
    Candlestick {
        market,
        open_time,
        close_time: open_time + 60,
        high: Price { price: 4, market },
        low: Price { price: 1, market },
        open: Price { price: 2, market },
        close: Price { price: 3, market },
        volume: Quantity { quantity: 9, asset: market.base },
        trades: 5,
    }
}

/// Pulls until the subscription is finished or the live source has nothing
/// more, answering each demand for a live sample with the next of `live`.
fn drain<S>(subscription: &mut Subscription<S>, live: Vec<Arrival>) -> Vec<u64> {
    let mut live = live.into_iter();
    let mut received = Vec::new();
    loop {
        match subscription.pull() {
            Demand::Ready(sample) => received.push(sample.open_time),
            Demand::Finished => return received,
            Demand::Live => {
                assert!(subscription.awaits_live());
                match live.next() {
                    None => return received,
                    Some(arrival) => {
                        if let Some(sample) = subscription.arrive(arrival) {
                            received.push(sample.open_time);
                        }
                    }
                }
            }
        }
    }
}

#[test]
fn backlog_comes_before_live_samples() {
    let market = market();
    let backlog = vec![sample(market, 0), sample(market, 60), sample(market, 120)];
    let mut subscription = Subscription::with_backlog(market, Interval::I1m, backlog, ());
    assert!(!subscription.awaits_live());
    let live = vec![
        Arrival::Sample(sample(market, 180)),
        Arrival::Sample(sample(market, 240)),
        Arrival::Closed,
    ];
    assert_eq!(drain(&mut subscription, live), vec![0, 60, 120, 180, 240]);
    assert_eq!(subscription.ending(), Some(Ending::Closed));
    assert!(matches!(subscription.pull(), Demand::Finished));
    assert!(matches!(subscription.pull(), Demand::Finished));
    assert!(!subscription.awaits_live());
    assert_eq!(drain(&mut subscription, vec![Arrival::Sample(sample(market, 300))]), Vec::<u64>::new());
}

#[test]
fn subscription_without_backlog_asks_the_live_source_at_once() {
    let market = market();
    let mut subscription = Subscription::new(market, Interval::I5m, ());
    assert!(subscription.awaits_live());
    assert!(subscription.ending().is_none());
    assert!(matches!(subscription.pull(), Demand::Live));
    let arrived = subscription.arrive(Arrival::Sample(sample(market, 300))).unwrap();
    assert_eq!(arrived.open_time, 300);
    assert_eq!(arrived.close_time, 360);
    assert_eq!(arrived.trades, 5);
    assert!(subscription.awaits_live());
    assert!(matches!(subscription.pull(), Demand::Live));
}

#[test]
fn empty_backlog_is_no_backlog() {
    let market = market();
    let mut subscription = Subscription::with_backlog(market, Interval::I5m, Vec::new(), ());
    assert!(subscription.awaits_live());
    assert!(matches!(subscription.pull(), Demand::Live));
}

#[test]
fn backlog_is_handed_out_even_when_it_is_not_in_order() {
    let market = market();
    let backlog = vec![sample(market, 120), sample(market, 0), sample(market, 120)];
    let mut subscription = Subscription::with_backlog(market, Interval::I1m, backlog, ());
    assert_eq!(drain(&mut subscription, vec![Arrival::Closed]), vec![120, 0, 120]);
}

#[test]
fn sample_that_arrives_early_waits_behind_the_backlog() {
    let market = market();
    let backlog = vec![sample(market, 0), sample(market, 60)];
    let mut subscription = Subscription::with_backlog(market, Interval::I1m, backlog, ());
    assert!(subscription.arrive(Arrival::Sample(sample(market, 120))).is_none());
    assert!(subscription.ending().is_none());
    assert!(subscription.arrive(Arrival::Closed).is_none());
    assert_eq!(subscription.ending(), Some(Ending::Closed));
    assert_eq!(drain(&mut subscription, Vec::new()), vec![0, 60, 120]);
    assert!(matches!(subscription.pull(), Demand::Finished));
}

#[test]
fn answer_after_the_end_is_dropped() {
    let market = market();
    let mut subscription = Subscription::new(market, Interval::I1m, ());
    assert!(subscription.arrive(Arrival::Failed(Error::ConnectionError)).is_none());
    assert!(subscription.arrive(Arrival::Sample(sample(market, 0))).is_none());
    assert!(subscription.arrive(Arrival::Closed).is_none());
    assert_eq!(subscription.ending(), Some(Ending::Failed(Error::ConnectionError)));
    assert!(matches!(subscription.pull(), Demand::Finished));
}

#[test]
fn failure_is_told_from_the_end() {
    let market = market();
    let mut failed = Subscription::with_backlog(market, Interval::I1m, vec![sample(market, 0)], ());
    assert_eq!(
        drain(&mut failed, vec![Arrival::Failed(Error::ConnectionError), Arrival::Sample(sample(market, 60))]),
        vec![0]
    );
    assert_eq!(failed.ending(), Some(Ending::Failed(Error::ConnectionError)));
    assert!(matches!(failed.pull(), Demand::Finished));
    let mut closed = Subscription::new(market, Interval::I1m, ());
    assert!(matches!(closed.pull(), Demand::Live));
    assert!(closed.arrive(Arrival::Closed).is_none());
    assert_eq!(closed.ending(), Some(Ending::Closed));
}

#[test]
fn subscription_is_named_after_market_and_interval() {
    let market = market();
    let subscription = Subscription::new(market, Interval::I5m, ());
    assert_eq!(subscription.to_string(), "BTCUSDT@5m");
    assert!(std::ptr::eq(subscription.market, market));
    assert_eq!(subscription.interval, Interval::I5m);
    let other = Subscription::with_backlog(market, Interval::I1m, Vec::new(), 3u8);
    assert_eq!(other.to_string(), "BTCUSDT@1m");
    assert_eq!(other.stream, 3);
}

struct Connection {
    open: Rc<Cell<usize>>,
}

impl Connection {
    fn open(open: &Rc<Cell<usize>>) -> Connection {
        open.set(open.get() + 1);
        Connection { open: open.clone() }
    }
}

impl Drop for Connection {
    fn drop(&mut self) {
        self.open.set(self.open.get() - 1);
    }
}

#[test]
fn abandoned_subscription_releases_its_source() {
    let market = market();
    let open = Rc::new(Cell::new(0));
    let backlog = vec![sample(market, 0), sample(market, 60)];
    let mut subscription =
        Subscription::with_backlog(market, Interval::I1m, backlog, Connection::open(&open));
    assert_eq!(open.get(), 1);
    assert!(matches!(subscription.pull(), Demand::Ready(_)));
    assert_eq!(open.get(), 1);
    drop(subscription);
    assert_eq!(open.get(), 0);
}

#[test]
fn insert_has_nothing_to_do() {
    let market = market();
    assert_eq!(sample(market, 0).insert(), Ok(()));
}
