//! The historical backfill: where to ask for past candles, and what the
//! venue's answer holds.
//!
//! The request itself is the program's. The library composes the URL before
//! it and reads the body after it.

use vstd::prelude::*;
use vstd::string::StringExecFns;
use crate::json::{Json, JsonView};
use crate::models::{Candle, Decimal, Exchange, MarketType};
use crate::text::{decimal, decimal_text, parse_u64, to_uppercase, u64_of_digits, uppercase};

verus! {

/// Why a backfill gave no candles.
#[derive(Debug, Copy, PartialEq, Eq, Structural)]
pub enum HistoryError {
    /// The venue has no history endpoint for the market type.
    UnsupportedMarket,
    /// The body is not JSON.
    Malformed,
    /// The body is JSON but not an array.
    InvalidResponse,
    /// An entry of the array is not an array itself.
    InvalidCandle,
}

impl Clone for HistoryError {
    fn clone(&self) -> (r: Self)
        ensures
            r == *self,
    {
        *self
    }
}

impl HistoryError {
    /// The error in words.
    pub open spec fn message(self) -> Seq<char> {
        match self {
            HistoryError::UnsupportedMarket => "Unsupported market type for REST"@,
            HistoryError::Malformed => "JSON Parse Error"@,
            HistoryError::InvalidResponse => "Invalid response format: Expected array"@,
            HistoryError::InvalidCandle => "Invalid candle format"@,
        }
    }

    /// The error in words.
    pub fn to_string(&self) -> (text: String)
        ensures
            text@ == self.message(),
    {
        match self {
            HistoryError::UnsupportedMarket => "Unsupported market type for REST".to_owned(),
            HistoryError::Malformed => "JSON Parse Error".to_owned(),
            HistoryError::InvalidResponse => "Invalid response format: Expected array".to_owned(),
            HistoryError::InvalidCandle => "Invalid candle format".to_owned(),
        }
    }
}

/// The venues whose history can be fetched.
#[derive(Debug, Copy, PartialEq, Eq, Structural)]
pub enum RestClient {
    Binance,
}

impl Clone for RestClient {
    fn clone(&self) -> (r: Self)
        ensures
            r == *self,
    {
        *self
    }
}

/// The history client of a venue; only the first venue has one.
pub fn get_client(exchange: Exchange) -> (client: Option<RestClient>)
    ensures
        client == (if exchange == Exchange::Binance {
            Some(RestClient::Binance)
        } else {
            None
        }),
{
    match exchange {
        Exchange::Binance => Some(RestClient::Binance),
        _ => None,
    }
}

/// The host and path of a market type's candle endpoint; an option market
/// has none.
pub open spec fn history_endpoint(market: MarketType) -> Option<Seq<char>> {
    match market {
        MarketType::Spot => Some("https://api.binance.com/api/v3/klines"@),
        MarketType::LinearFuture => Some("https://fapi.binance.com/fapi/v1/klines"@),
        MarketType::InverseFuture => Some("https://dapi.binance.com/dapi/v1/klines"@),
        MarketType::Option => None,
    }
}

/// The URL that asks the endpoint for the last `limit` candles of an
/// interval of a symbol, which is upper-cased.
pub open spec fn history_query(
    endpoint: Seq<char>,
    symbol: Seq<char>,
    interval: Seq<char>,
    limit: nat,
) -> Seq<char> {
    history_query_of(endpoint, uppercase(symbol), interval, limit)
}

/// The URL to get the last `limit` candles of `interval` of `symbol` from.
pub fn history_url(symbol: &str, market: MarketType, interval: &str, limit: usize) -> (url: Result<
    String,
    HistoryError,
>)
    ensures
        match url {
            Ok(u) => history_endpoint(market) matches Some(endpoint) && u@ == history_query(
                endpoint,
                symbol@,
                interval@,
                limit as nat,
            ),
            Err(error) => error == HistoryError::UnsupportedMarket && history_endpoint(
                market,
            ).is_none(),
        },
{
    compose_history_url(to_uppercase(symbol).as_str(), market, interval, limit)
}

/// The URL that asks the endpoint for the last `limit` candles of an
/// interval of a symbol, which is written as it is given.
pub open spec fn history_query_of(
    endpoint: Seq<char>,
    symbol: Seq<char>,
    interval: Seq<char>,
    limit: nat,
) -> Seq<char> {
    endpoint + "?symbol="@ + symbol + "&interval="@ + interval + "&limit="@ + decimal_text(limit)
}

/// The URL to get the last `limit` candles of `interval` from, for a symbol
/// that is in upper case already.
pub fn compose_history_url(symbol: &str, market: MarketType, interval: &str, limit: usize) -> (url:
    Result<String, HistoryError>)
    ensures
        match url {
            Ok(u) => history_endpoint(market) matches Some(endpoint) && u@ == history_query_of(
                endpoint,
                symbol@,
                interval@,
                limit as nat,
            ),
            Err(error) => error == HistoryError::UnsupportedMarket && history_endpoint(
                market,
            ).is_none(),
        },
{
    let mut url = match market {
        MarketType::Spot => "https://api.binance.com/api/v3/klines".to_owned(),
        MarketType::LinearFuture => "https://fapi.binance.com/fapi/v1/klines".to_owned(),
        MarketType::InverseFuture => "https://dapi.binance.com/dapi/v1/klines".to_owned(),
        MarketType::Option => return Err(HistoryError::UnsupportedMarket),
    };
    url.append("?symbol=");
    url.append(symbol);
    url.append("&interval=");
    url.append(interval);
    url.append("&limit=");
    url.append(decimal(limit as u64).as_str());
    Ok(url)
}

/// A numeric member as a decimal: the text of a string, the digits of a
/// number, and zero for anything else.
pub open spec fn decimal_or_zero(value: JsonView) -> Seq<char> {
    match value {
        JsonView::Str(text) => text,
        JsonView::Number { unsigned, text } => text,
        _ => "0"@,
    }
}

/// A time member: the number where it is an unsigned integer, or a string
/// of decimal digits that write one; zero for anything else.
pub open spec fn time_or_zero(value: JsonView) -> u64 {
    match value {
        JsonView::Number { unsigned, text } => match unsigned {
            Some(t) => t,
            None => 0,
        },
        JsonView::Str(digits) => match u64_of_digits(digits) {
            Some(t) => t,
            None => 0,
        },
        _ => 0,
    }
}

/// Whether an entry of the answer is long enough to be a candle: open time,
/// open, high, low, close, volume and close time.
pub open spec fn is_kline_row(row: JsonView) -> bool {
    row.as_array() matches Some(cells) && cells.len() >= 7
}

/// Whether `candle` is what the row holds, for `symbol` and `interval`. A
/// candle of the past is closed.
pub open spec fn kline_matches(
    candle: Candle,
    row: JsonView,
    symbol: Seq<char>,
    interval: Seq<char>,
) -> bool {
    row.as_array() matches Some(cells) && cells.len() >= 7 && {
        &&& candle.symbol@ == symbol
        &&& candle.interval@ == interval
        &&& candle.start_time == time_or_zero(cells[0])
        &&& candle.open.text@ == decimal_or_zero(cells[1])
        &&& candle.high.text@ == decimal_or_zero(cells[2])
        &&& candle.low.text@ == decimal_or_zero(cells[3])
        &&& candle.close.text@ == decimal_or_zero(cells[4])
        &&& candle.volume.text@ == decimal_or_zero(cells[5])
        &&& candle.close_time == time_or_zero(cells[6])
        &&& candle.is_closed
    }
}

/// The test for an entry that is long enough to be a candle.
pub open spec fn long_enough() -> spec_fn(JsonView) -> bool {
    |row: JsonView| is_kline_row(row)
}

/// Whether `candles` are, one for one and in order, what the rows that are
/// long enough hold; shorter rows are passed over.
pub open spec fn klines_match(
    candles: Seq<Candle>,
    rows: Seq<JsonView>,
    symbol: Seq<char>,
    interval: Seq<char>,
) -> bool {
    let kept = rows.filter(long_enough());
    candles.len() == kept.len() && forall|i: int|
        0 <= i < kept.len() ==> kline_matches(#[trigger] candles[i], kept[i], symbol, interval)
}

/// Whether every entry is an array.
pub open spec fn all_rows(rows: Seq<JsonView>) -> bool {
    forall|i: int| 0 <= i < rows.len() ==> (#[trigger] rows[i]).as_array().is_some()
}

fn tolerant_decimal(value: &Json) -> (d: Decimal)
    ensures
        d.text@ == decimal_or_zero(value@),
{
    match value {
        Json::Str(text) => Decimal { text: text.clone() },
        Json::Number(n) => Decimal { text: n.text.clone() },
        _ => Decimal { text: "0".to_owned() },
    }
}

fn tolerant_time(value: &Json) -> (t: u64)
    ensures
        t == time_or_zero(value@),
{
    match value {
        Json::Number(n) => match n.unsigned {
            Some(t) => t,
            None => 0,
        },
        Json::Str(digits) => match parse_u64(digits.as_str()) {
            Some(t) => t,
            None => 0,
        },
        _ => 0,
    }
}

/// Reads the candles of `interval` of `symbol` from the venue's answer: an
/// array of rows, each an array that starts with open time, open, high, low,
/// close, volume and close time. A row with fewer than seven entries is
/// passed over. The answer is refused as a whole where it is not an array or
/// one of its rows is not.
pub fn parse_kline_array(symbol: &str, interval: &str, json: &Json) -> (parsed: Result<
    Vec<Candle>,
    HistoryError,
>)
    ensures
        match parsed {
            Ok(candles) => json@.as_array() matches Some(rows) && all_rows(rows) && klines_match(
                candles@,
                rows,
                symbol@,
                interval@,
            ),
            Err(error) => match json@.as_array() {
                None => error == HistoryError::InvalidResponse,
                Some(rows) => error == HistoryError::InvalidCandle && !all_rows(rows),
            },
        },
{
    let raw_list = match json.as_array() {
        Some(items) => items,
        None => return Err(HistoryError::InvalidResponse),
    };
    let ghost rows = json@.as_array().unwrap();
    let ghost keep = long_enough();
    let mut candles: Vec<Candle> = Vec::new();
    let mut i: usize = 0;
    proof {
        reveal(Seq::filter);
        assert(rows.subrange(0, 0).filter(keep) =~= Seq::<JsonView>::empty());
    }
    while i < raw_list.len()
        invariant
            i <= raw_list@.len(),
            json@.as_array() == Some(rows),
            rows.len() == raw_list@.len(),
            keep == long_enough(),
            forall|j: int| 0 <= j < raw_list@.len() ==> rows[j] == (#[trigger] raw_list@[j])@,
            forall|j: int| 0 <= j < i ==> (#[trigger] rows[j]).as_array().is_some(),
            klines_match(candles@, rows.subrange(0, i as int), symbol@, interval@),
        decreases raw_list@.len() - i,
    {
        let ghost head = rows.subrange(0, i as int);
        let ghost next = rows.subrange(0, i + 1);
        proof {
            reveal(Seq::filter);
            assert(next.drop_last() == head);
            assert(next.last() == rows[i as int]);
            assert(rows[i as int] == raw_list@[i as int]@);
        }
        let arr = match raw_list[i].as_array() {
            Some(cells) => cells,
            None => {
                assert(!all_rows(rows));
                return Err(HistoryError::InvalidCandle);
            },
        };
        if arr.len() >= 7 {
            let candle = Candle {
                symbol: symbol.to_owned(),
                interval: interval.to_owned(),
                start_time: tolerant_time(&arr[0]),
                open: tolerant_decimal(&arr[1]),
                high: tolerant_decimal(&arr[2]),
                low: tolerant_decimal(&arr[3]),
                close: tolerant_decimal(&arr[4]),
                volume: tolerant_decimal(&arr[5]),
                close_time: tolerant_time(&arr[6]),
                is_closed: true,
            };
            proof {
                assert(kline_matches(candle, rows[i as int], symbol@, interval@));
                assert(next.filter(keep) == head.filter(keep).push(rows[i as int]));
            }
            let ghost before = candles@;
            candles.push(candle);
            proof {
                let kept = next.filter(keep);
                assert forall|j: int| 0 <= j < kept.len() implies kline_matches(
                    #[trigger] candles@[j],
                    kept[j],
                    symbol@,
                    interval@,
                ) by {
                    if j < before.len() {
                        assert(candles@[j] == before[j]);
                        assert(kept[j] == head.filter(keep)[j]);
                    }
                }
            }
        } else {
            proof {
                assert(next.filter(keep) == head.filter(keep));
            }
        }
        i = i + 1;
    }
    proof {
        assert(rows.subrange(0, i as int) == rows);
    }
    Ok(candles)
}

} // verus!
