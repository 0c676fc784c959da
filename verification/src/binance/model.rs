use vstd::prelude::*;

verus! {

/// What the venue answers in place of a result when it refuses a request.
#[derive(Clone, Debug)]
pub struct Error {
    pub code: i64,
    pub msg: String,
}

/// What the venue tells of itself: the pairs that it trades.
#[derive(Clone, Debug)]
pub struct ExchangeInfo {
    pub symbols: Vec<Symbol>,
}

/// One pair as the venue describes it.
#[derive(Clone, Debug)]
pub struct Symbol {
    pub symbol: String,
    pub status: String,
    pub base_asset: String,
    pub base_asset_precision: u64,
    pub quote_asset: String,
    pub quote_precision: u64,
    pub order_types: Vec<String>,
    pub iceberg_allowed: bool,
    pub filters: Vec<SymbolFilter>,
}

/// One rule that the venue sets for the orders of a pair. Amounts and
/// prices are held as the venue writes them, in decimal text.
#[derive(Clone, Debug)]
pub enum SymbolFilter {
    LotSize { min_qty: String, max_qty: String, step_size: String },
    MarketLotSize { min_qty: String, max_qty: String, step_size: String },
    PriceFilter { min_price: String, max_price: String, tick_size: String },
    PercentPrice { multiplier_up: String, multiplier_down: String, avg_price_mins: u64 },
    MinNotional { min_notional: String },
    MaxPosition { max_position: String },
    MaxNumAlgoOrders { max_num_algo_orders: u64 },
    MaxNumIcebergOrders { max_num_iceberg_orders: u64 },
    MaxNumOrders { max_num_orders: u64 },
    IcebergParts { limit: u64 },
}

/// One field of a sample as the venue sends it: a whole number, or a
/// decimal number written as text.
#[derive(Clone, Debug)]
pub enum Value {
    Integer(i64),
    Float(String),
}

/// A whole number read as an unsigned one: itself where it is not negative,
/// and else counted down from two to the power of 64.
pub open spec fn unsigned(value: i64) -> u64 {
    if value >= 0 {
        value as u64
    } else {
        (value + 0x1_0000_0000_0000_0000) as u64
    }
}

impl Value {
    /// The whole number that the field holds, read as an unsigned one, or
    /// `None` where the field holds decimal text.
    pub fn as_u64(&self) -> (number: Option<u64>)
        ensures
            number == (match *self {
                Value::Integer(value) => Some(unsigned(value)),
                Value::Float(_) => None,
            }),
    {
        if let Value::Integer(value) = self {
            let value: i64 = *value;
            assert(value < 0 ==> value as u64 == value + 0x1_0000_0000_0000_0000) by (bit_vector);
            Some(value as u64)
        } else {
            None
        }
    }

    /// The decimal text that the field holds, or `None` where the field
    /// holds a whole number.
    pub fn as_text(&self) -> (text: Option<&String>)
        ensures
            text == (match *self {
                Value::Integer(_) => None,
                Value::Float(text) => Some(&text),
            }),
    {
        if let Value::Float(text) = self {
            Some(text)
        } else {
            None
        }
    }
}

/// One recorded sample as the venue sends it: a row of fields, each known
/// by its place.
pub type IntoCandlestick = Vec<Value>;

/// One recorded sample of the venue, field by field. Prices and volumes are
/// held as the venue writes them, in decimal text.
#[derive(Clone, Debug)]
pub struct Candlestick {
    pub open_time: u64,
    pub open: String,
    pub high: String,
    pub low: String,
    pub close: String,
    pub volume: String,
    pub close_time: u64,
    pub quote_asset_volume: String,
    pub number_of_trades: u64,
    pub taker_buy_base_asset_volume: String,
    pub taker_buy_quote_asset_volume: String,
}

/// Whether the field at `place` is a whole number.
pub open spec fn number_at(row: Seq<Value>, place: int) -> bool {
    0 <= place < row.len() && row[place] is Integer
}

/// Whether the field at `place` is decimal text.
pub open spec fn text_at(row: Seq<Value>, place: int) -> bool {
    0 <= place < row.len() && row[place] is Float
}

/// Whether a row has the fields of a sample: whole numbers at the places
/// of the two times and of the number of trades, decimal text at the eight
/// others. Fields behind the eleventh are not looked at.
pub open spec fn sample_shaped(row: Seq<Value>) -> bool {
    &&& number_at(row, 0)
    &&& text_at(row, 1)
    &&& text_at(row, 2)
    &&& text_at(row, 3)
    &&& text_at(row, 4)
    &&& text_at(row, 5)
    &&& number_at(row, 6)
    &&& text_at(row, 7)
    &&& number_at(row, 8)
    &&& text_at(row, 9)
    &&& text_at(row, 10)
}

/// Whether `sample` holds the fields of `row`, each at its place.
pub open spec fn sample_of(row: Seq<Value>, sample: Candlestick) -> bool {
    &&& sample_shaped(row)
    &&& sample.open_time == unsigned(row[0]->Integer_0)
    &&& sample.open@ == row[1]->Float_0@
    &&& sample.high@ == row[2]->Float_0@
    &&& sample.low@ == row[3]->Float_0@
    &&& sample.close@ == row[4]->Float_0@
    &&& sample.volume@ == row[5]->Float_0@
    &&& sample.close_time == unsigned(row[6]->Integer_0)
    &&& sample.quote_asset_volume@ == row[7]->Float_0@
    &&& sample.number_of_trades == unsigned(row[8]->Integer_0)
    &&& sample.taker_buy_base_asset_volume@ == row[9]->Float_0@
    &&& sample.taker_buy_quote_asset_volume@ == row[10]->Float_0@
}

/// The whole number at `place`, read as an unsigned one.
fn number(row: &Vec<Value>, place: usize) -> (number: Option<u64>)
    ensures
        number == (if number_at(row@, place as int) {
            Some(unsigned(row@[place as int]->Integer_0))
        } else {
            None
        }),
{
    if place < row.len() {
        row[place].as_u64()
    } else {
        None
    }
}

/// The decimal text at `place`.
fn text(row: &Vec<Value>, place: usize) -> (text: Option<String>)
    ensures
        match text {
            Some(text) => text_at(row@, place as int) && text@ == row@[place as int]->Float_0@,
            None => !text_at(row@, place as int),
        },
{
    if place < row.len() {
        match row[place].as_text() {
            Some(text) => Some(text.clone()),
            None => None,
        }
    } else {
        None
    }
}

impl Candlestick {
    /// The sample that a row of fields stands for, or `None` where the row
    /// has not the fields of a sample.
    pub fn from_values(row: &IntoCandlestick) -> (sample: Option<Candlestick>)
        ensures
            match sample {
                Some(sample) => sample_of(row@, sample),
                None => !sample_shaped(row@),
            },
    {
        let open_time = number(row, 0)?;
        let open = text(row, 1)?;
        let high = text(row, 2)?;
        let low = text(row, 3)?;
        let close = text(row, 4)?;
        let volume = text(row, 5)?;
        let close_time = number(row, 6)?;
        let quote_asset_volume = text(row, 7)?;
        let number_of_trades = number(row, 8)?;
        let taker_buy_base_asset_volume = text(row, 9)?;
        let taker_buy_quote_asset_volume = text(row, 10)?;
        Some(
            Candlestick {
                open_time,
                open,
                high,
                low,
                close,
                volume,
                close_time,
                quote_asset_volume,
                number_of_trades,
                taker_buy_base_asset_volume,
                taker_buy_quote_asset_volume,
            },
        )
    }
}

/// The samples that the venue sends in one answer.
pub type Candlesticks = Vec<Candlestick>;

} // verus!
