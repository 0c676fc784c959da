use crate::error::Error;
use crate::order::Order;
use crate::order::OrderError;
use crate::order::OrderResponse;
use crate::order::Side;
use crate::price::Price;
use crate::quantity::Quantity;
use vstd::prelude::*;
use vstd::std_specs::convert::FromSpecImpl;

verus! {

/// What entering a position reports once the venue took both orders.
///
/// `executed_quantity` is what the order that opened the position executed.
/// What the bracket order executed is reported beside it, in
/// `leaving_quantity`, and takes no part in `executed_quantity`.
#[derive(Clone, Copy, Debug)]
pub struct PositionResponse {
    pub executed_quantity: Quantity,
    pub leaving_quantity: Quantity,
}

impl PositionResponse {
    /// The report of a position whose opening order was answered with
    /// `entering` and whose bracket order with `leaving`.
    pub open spec fn composed(entering: OrderResponse, leaving: OrderResponse) -> PositionResponse {
        PositionResponse {
            executed_quantity: entering.executed_quantity,
            leaving_quantity: leaving.executed_quantity,
        }
    }

    /// The report of a position from the response to the order that opened
    /// it and the response to its bracket order.
    pub fn compose(entering: OrderResponse, leaving: OrderResponse) -> (response: PositionResponse)
        ensures
            response == PositionResponse::composed(entering, leaving),
    {
        PositionResponse {
            executed_quantity: entering.executed_quantity,
            leaving_quantity: leaving.executed_quantity,
        }
    }
}

impl From<(OrderResponse, OrderResponse)> for PositionResponse {
    /// The report of a position from the response to the order that opened it
    /// and the response to its bracket order, in this order.
    fn from(responses: (OrderResponse, OrderResponse)) -> (response: PositionResponse) {
        PositionResponse::compose(responses.0, responses.1)
    }
}

impl FromSpecImpl<(OrderResponse, OrderResponse)> for PositionResponse {
    open spec fn obeys_from_spec() -> bool {
        true
    }

    open spec fn from_spec(responses: (OrderResponse, OrderResponse)) -> PositionResponse {
        PositionResponse::composed(responses.0, responses.1)
    }
}

/// Why a position was not entered.
///
/// The first three are found before anything is sent to the venue. `Other`
/// is what the venue, or the way to it, reported of an order that was sent.
#[derive(Clone, Copy, Debug, PartialEq, Eq, Structural)]
pub enum PositionError {
    /// The three prices are not all prices of one market.
    DifferentMarkets,
    /// The take-profit and the stop-loss price do not lie on the right sides
    /// of the entering price.
    PriceRestrictions,
    /// The quantity is not an amount of the asset that the side calls for.
    WrongAsset,
    Other(Error),
}

impl PositionError {
    /// The error of an order, as the error of the position that the order
    /// was placed for.
    pub open spec fn of_order(error: OrderError) -> PositionError {
        match error {
            OrderError::Other(error) => PositionError::Other(error),
        }
    }

    /// The error of an order, as the error of the position that the order
    /// was placed for.
    pub fn from_order(error: OrderError) -> (wrapped: PositionError)
        ensures
            wrapped == PositionError::of_order(error),
    {
        match error {
            OrderError::Other(error) => PositionError::Other(error),
        }
    }
}

impl From<Error> for PositionError {
    fn from(error: Error) -> (wrapped: PositionError) {
        PositionError::Other(error)
    }
}

impl FromSpecImpl<Error> for PositionError {
    open spec fn obeys_from_spec() -> bool {
        true
    }

    open spec fn from_spec(error: Error) -> PositionError {
        PositionError::Other(error)
    }
}

impl From<OrderError> for PositionError {
    fn from(error: OrderError) -> (wrapped: PositionError) {
        PositionError::from_order(error)
    }
}

impl FromSpecImpl<OrderError> for PositionError {
    open spec fn obeys_from_spec() -> bool {
        true
    }

    open spec fn from_spec(error: OrderError) -> PositionError {
        PositionError::of_order(error)
    }
}

/// Whether the take-profit and the stop-loss price lie on the right sides of
/// the entering price: for a buy the take-profit above and the stop-loss
/// below, for a sell the other way round.
pub open spec fn prices_in_order(
    side: Side,
    enter_price: Price,
    take_profit: Price,
    stop_loss: Price,
) -> bool {
    match side {
        Side::Buy => take_profit.price > enter_price.price && enter_price.price > stop_loss.price,
        Side::Sell => take_profit.price < enter_price.price && enter_price.price < stop_loss.price,
    }
}

/// Whether the quantity is an amount of the asset that the side names: the
/// base asset of the market for a buy, the quote asset for a sell.
pub open spec fn asset_matches(side: Side, enter_quantity: Quantity, enter_price: Price) -> bool {
    match side {
        Side::Buy => enter_quantity.asset@ == enter_price.market.base@,
        Side::Sell => enter_quantity.asset@ == enter_price.market.quote@,
    }
}

/// What is wrong with the intent to enter a position, if anything: the first
/// that fails of the three checks, made in this order: one market, prices in
/// order, matching asset.
pub open spec fn position_fault(
    side: Side,
    enter_quantity: Quantity,
    enter_price: Price,
    take_profit: Price,
    stop_loss: Price,
) -> Option<PositionError> {
    if !(take_profit.market@ == enter_price.market@ && stop_loss.market@ == enter_price.market@) {
        Some(PositionError::DifferentMarkets)
    } else if !prices_in_order(side, enter_price, take_profit, stop_loss) {
        Some(PositionError::PriceRestrictions)
    } else if !asset_matches(side, enter_quantity, enter_price) {
        Some(PositionError::WrongAsset)
    } else {
        None
    }
}

/// The order that opens a position.
pub open spec fn entering_order(side: Side, enter_quantity: Quantity, enter_price: Price) -> Order {
    Order::Limit(side, enter_quantity, enter_price)
}

/// The bracket order that closes a position: on the opposite side, over the
/// quantity that the opening order executed.
pub open spec fn leaving_order(
    side: Side,
    entering: OrderResponse,
    take_profit: Price,
    stop_loss: Price,
) -> Order {
    Order::Oco(side.reversed(), entering.executed_quantity, stop_loss, take_profit)
}

/// What entering a position comes to, from the venue's answer to the
/// opening order and its answer to the bracket order: the error of the first
/// order that the venue refused, or the report of the two responses. Where
/// the opening order was refused there is no bracket order, and `leaving`
/// is not looked at.
pub open spec fn position_outcome(
    entering: Result<OrderResponse, OrderError>,
    leaving: Result<OrderResponse, OrderError>,
) -> Result<PositionResponse, PositionError> {
    match entering {
        Err(error) => Err(PositionError::of_order(error)),
        Ok(entering_response) => match leaving {
            Err(error) => Err(PositionError::of_order(error)),
            Ok(leaving_response) => Ok(
                PositionResponse::composed(entering_response, leaving_response),
            ),
        },
    }
}

/// Checks the intent to enter a position before anything is sent to a venue.
pub fn validate_position(
    side: Side,
    enter_quantity: Quantity,
    enter_price: Price,
    take_profit: Price,
    stop_loss: Price,
) -> (checked: Result<(), PositionError>)
    ensures
        checked == (match position_fault(side, enter_quantity, enter_price, take_profit, stop_loss) {
            Some(fault) => Err::<(), PositionError>(fault),
            None => Ok::<(), PositionError>(()),
        }),
{
    if !(take_profit.market.same(enter_price.market) && stop_loss.market.same(enter_price.market)) {
        return Err(PositionError::DifferentMarkets);
    }
    let in_order = match side {
        Side::Buy => take_profit.price > enter_price.price && enter_price.price > stop_loss.price,
        Side::Sell => take_profit.price < enter_price.price && enter_price.price < stop_loss.price,
    };
    if !in_order {
        return Err(PositionError::PriceRestrictions);
    }
    let matching = match side {
        Side::Buy => enter_quantity.asset.same(enter_price.market.base),
        Side::Sell => enter_quantity.asset.same(enter_price.market.quote),
    };
    if !matching {
        return Err(PositionError::WrongAsset);
    }
    Ok(())
}

/// Where the entering of a position stands.
///
/// Entering a position takes two orders, one after the other, and the venue
/// answers each in its own time. The entry is the part that decides: it
/// says which order is to be placed next, and takes the venue's answer to
/// it. Placing the order is left to the caller.
///
/// Nothing is undone: where the bracket order is refused after the opening
/// order was taken, the entry has failed and the position stays open without
/// a bracket. `Failed` then holds the response to the opening order, so
/// that the caller can see what is in the market.
#[derive(Clone, Copy, Debug)]
pub enum PositionEntry {
    /// The opening order is with the venue.
    Entering { side: Side, take_profit: Price, stop_loss: Price },
    /// The opening order was taken, and the bracket order is with the venue.
    Bracketing { entering: OrderResponse },
    /// Both orders were taken.
    Active(PositionResponse),
    /// The entry has failed. `entered` is the response to the opening order
    /// where that order was taken.
    Failed { error: PositionError, entered: Option<OrderResponse> },
}

impl PositionEntry {
    /// The entry of an intent, and the order to place first. An intent that
    /// fails a check has failed at once, with nothing to place.
    pub open spec fn begun(
        side: Side,
        enter_quantity: Quantity,
        enter_price: Price,
        take_profit: Price,
        stop_loss: Price,
    ) -> (PositionEntry, Option<Order>) {
        match position_fault(side, enter_quantity, enter_price, take_profit, stop_loss) {
            Some(error) => (PositionEntry::Failed { error, entered: None }, None),
            None => (
                PositionEntry::Entering { side, take_profit, stop_loss },
                Some(entering_order(side, enter_quantity, enter_price)),
            ),
        }
    }

    /// The entry after the venue answered the order that was placed last,
    /// and the order to place next, if any. An entry that is active or has
    /// failed has no order with the venue, and stays as it is.
    pub open spec fn advanced(self, answer: Result<OrderResponse, OrderError>) -> (
        PositionEntry,
        Option<Order>,
    ) {
        match self {
            PositionEntry::Entering { side, take_profit, stop_loss } => match answer {
                Ok(entering) => (
                    PositionEntry::Bracketing { entering },
                    Some(leaving_order(side, entering, take_profit, stop_loss)),
                ),
                Err(error) => (
                    PositionEntry::Failed { error: PositionError::of_order(error), entered: None },
                    None,
                ),
            },
            PositionEntry::Bracketing { entering } => match answer {
                Ok(leaving) => (
                    PositionEntry::Active(PositionResponse::composed(entering, leaving)),
                    None,
                ),
                Err(error) => (
                    PositionEntry::Failed {
                        error: PositionError::of_order(error),
                        entered: Some(entering),
                    },
                    None,
                ),
            },
            _ => (self, None),
        }
    }

    /// What the entry has come to, or `None` while an order is with the
    /// venue.
    pub open spec fn concluded(self) -> Option<Result<PositionResponse, PositionError>> {
        match self {
            PositionEntry::Active(response) => Some(Ok(response)),
            PositionEntry::Failed { error, entered } => Some(Err(error)),
            _ => None,
        }
    }

    /// Begins the entry of an intent.
    pub fn begin(
        side: Side,
        enter_quantity: Quantity,
        enter_price: Price,
        take_profit: Price,
        stop_loss: Price,
    ) -> (start: (PositionEntry, Option<Order>))
        ensures
            start == PositionEntry::begun(side, enter_quantity, enter_price, take_profit, stop_loss),
    {
        match validate_position(side, enter_quantity, enter_price, take_profit, stop_loss) {
            Err(error) => (PositionEntry::Failed { error, entered: None }, None),
            Ok(()) => (
                PositionEntry::Entering { side, take_profit, stop_loss },
                Some(Order::Limit(side, enter_quantity, enter_price)),
            ),
        }
    }

    /// Takes the venue's answer to the order that was placed last.
    pub fn advance(self, answer: Result<OrderResponse, OrderError>) -> (next: (
        PositionEntry,
        Option<Order>,
    ))
        ensures
            next == self.advanced(answer),
    {
        match self {
            PositionEntry::Entering { side, take_profit, stop_loss } => match answer {
                Ok(entering) => (
                    PositionEntry::Bracketing { entering },
                    Some(Order::Oco(side.reverse(), entering.executed_quantity, stop_loss, take_profit)),
                ),
                Err(error) => (
                    PositionEntry::Failed { error: PositionError::from_order(error), entered: None },
                    None,
                ),
            },
            PositionEntry::Bracketing { entering } => match answer {
                Ok(leaving) => (PositionEntry::Active(PositionResponse::compose(entering, leaving)), None),
                Err(error) => (
                    PositionEntry::Failed {
                        error: PositionError::from_order(error),
                        entered: Some(entering),
                    },
                    None,
                ),
            },
            PositionEntry::Active(response) => (PositionEntry::Active(response), None),
            PositionEntry::Failed { error, entered } => (PositionEntry::Failed { error, entered }, None),
        }
    }

    /// What the entry has come to, or `None` while an order is with the
    /// venue.
    pub fn conclusion(&self) -> (conclusion: Option<Result<PositionResponse, PositionError>>)
        ensures
            conclusion == self.concluded(),
    {
        match self {
            PositionEntry::Active(response) => Some(Ok(*response)),
            PositionEntry::Failed { error, entered } => Some(Err(*error)),
            _ => None,
        }
    }
}

/// An entry has an order to place exactly while it has not come to its
/// conclusion.
pub proof fn lemma_order_or_conclusion(
    side: Side,
    enter_quantity: Quantity,
    enter_price: Price,
    take_profit: Price,
    stop_loss: Price,
    entry: PositionEntry,
    answer: Result<OrderResponse, OrderError>,
)
    ensures
        PositionEntry::begun(side, enter_quantity, enter_price, take_profit, stop_loss).1 is None
            <==> PositionEntry::begun(
            side,
            enter_quantity,
            enter_price,
            take_profit,
            stop_loss,
        ).0.concluded() is Some,
        entry.advanced(answer).1 is None <==> entry.advanced(answer).0.concluded() is Some,
{
}

/// An intent that fails a check places no order and has failed at once,
/// with the fault of the check.
pub proof fn lemma_fault_places_nothing(
    side: Side,
    enter_quantity: Quantity,
    enter_price: Price,
    take_profit: Price,
    stop_loss: Price,
)
    requires
        position_fault(side, enter_quantity, enter_price, take_profit, stop_loss) is Some,
    ensures
        PositionEntry::begun(side, enter_quantity, enter_price, take_profit, stop_loss).1 is None,
        PositionEntry::begun(side, enter_quantity, enter_price, take_profit, stop_loss).0.concluded()
            == Some(
            Err::<PositionResponse, PositionError>(
                position_fault(side, enter_quantity, enter_price, take_profit, stop_loss).unwrap(),
            ),
        ),
{
}

/// An intent that passes the checks places the opening order, and after
/// it, where the venue took it, the bracket order over what the opening
/// order executed, and nothing else. What the entry comes to is what
/// `position_outcome` makes of the venue's two answers.
pub proof fn lemma_entry_runs(
    side: Side,
    enter_quantity: Quantity,
    enter_price: Price,
    take_profit: Price,
    stop_loss: Price,
    entering: Result<OrderResponse, OrderError>,
    leaving: Result<OrderResponse, OrderError>,
)
    requires
        position_fault(side, enter_quantity, enter_price, take_profit, stop_loss) is None,
    ensures
        ({
            let (first, opening) = PositionEntry::begun(
                side,
                enter_quantity,
                enter_price,
                take_profit,
                stop_loss,
            );
            let (second, bracket) = first.advanced(entering);
            let (third, last) = second.advanced(leaving);
            &&& opening == Some(entering_order(side, enter_quantity, enter_price))
            &&& first.concluded() is None
            &&& match entering {
                Err(error) => bracket is None && second.concluded() == Some(
                    position_outcome(entering, leaving),
                ),
                Ok(response) => {
                    &&& bracket == Some(leaving_order(side, response, take_profit, stop_loss))
                    &&& second.concluded() is None
                    &&& last is None
                    &&& third.concluded() == Some(position_outcome(entering, leaving))
                },
            }
        }),
{
}

/// The quantity that a position reports as executed is the quantity that
/// its opening order executed, whatever the bracket order executed.
pub proof fn lemma_position_reports_entering(entering: OrderResponse, leaving: OrderResponse)
    ensures
        PositionResponse::composed(entering, leaving).executed_quantity
            == entering.executed_quantity,
{
}

} // verus!
