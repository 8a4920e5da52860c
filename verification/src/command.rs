//! Client commands on the wire: a JSON object with an action, a channel and
//! a few optional members. A text that is not such an object is no command,
//! and the server passes it over.

use vstd::prelude::*;
use crate::json::{json_of_text, parse, Json, JsonView};
use crate::models::{
    Command, CommandAction, CommandView, Exchange, MarketType, StreamConfig, StreamConfigView,
};
use crate::text::same_text;

verus! {

/// The action a word names.
pub open spec fn action_of(word: Seq<char>) -> Option<CommandAction> {
    if word == "subscribe"@ {
        Some(CommandAction::Subscribe)
    } else if word == "unsubscribe"@ {
        Some(CommandAction::Unsubscribe)
    } else if word == "fetchhistory"@ {
        Some(CommandAction::FetchHistory)
    } else {
        None
    }
}

/// The venue a word names.
pub open spec fn exchange_of(word: Seq<char>) -> Option<Exchange> {
    if word == "BINANCE"@ {
        Some(Exchange::Binance)
    } else if word == "BYBIT"@ {
        Some(Exchange::Bybit)
    } else if word == "COINBASE"@ {
        Some(Exchange::Coinbase)
    } else {
        None
    }
}

/// The market type a word names.
pub open spec fn market_of(word: Seq<char>) -> Option<MarketType> {
    if word == "SPOT"@ {
        Some(MarketType::Spot)
    } else if word == "LINEAR_FUTURE"@ {
        Some(MarketType::LinearFuture)
    } else if word == "INVERSE_FUTURE"@ {
        Some(MarketType::InverseFuture)
    } else if word == "OPTION"@ {
        Some(MarketType::Option)
    } else {
        None
    }
}

/// A switch that may be left out: off where the member is missing, the
/// member's value where it is a boolean, and an error otherwise.
pub open spec fn optional_flag(json: JsonView, name: Seq<char>) -> Option<bool> {
    match json.field(name) {
        None => Some(false),
        Some(value) => value.as_bool(),
    }
}

/// Whether every item is a string.
pub open spec fn all_strings(items: Seq<JsonView>) -> bool {
    forall|i: int| 0 <= i < items.len() ==> (#[trigger] items[i]).as_str().is_some()
}

/// The texts of items that are all strings.
pub open spec fn strings_of(items: Seq<JsonView>) -> Seq<Seq<char>> {
    Seq::new(items.len(), |i: int| items[i].as_str().unwrap())
}

/// Whether an object has what a stream configuration is read from: the
/// three basic switches, the list of intervals, and nothing but booleans in
/// the switches that may be left out.
pub open spec fn is_stream_config(json: JsonView) -> bool {
    &&& json.bool_field("raw_trades"@).is_some()
    &&& json.bool_field("agg_trades"@).is_some()
    &&& json.bool_field("order_book"@).is_some()
    &&& json.array_field("kline_intervals"@) matches Some(items) && all_strings(items)
    &&& optional_flag(json, "ticker"@).is_some()
    &&& optional_flag(json, "book_ticker"@).is_some()
    &&& optional_flag(json, "mark_price"@).is_some()
    &&& optional_flag(json, "index_price"@).is_some()
    &&& optional_flag(json, "liquidation"@).is_some()
    &&& optional_flag(json, "funding_rate"@).is_some()
    &&& optional_flag(json, "open_interest"@).is_some()
    &&& optional_flag(json, "greeks"@).is_some()
}

/// The stream configuration an object holds.
pub open spec fn stream_config_of(json: JsonView) -> Option<StreamConfigView> {
    if is_stream_config(json) {
        Some(
            StreamConfigView {
                raw_trades: json.bool_field("raw_trades"@).unwrap(),
                agg_trades: json.bool_field("agg_trades"@).unwrap(),
                order_book: json.bool_field("order_book"@).unwrap(),
                kline_intervals: strings_of(json.array_field("kline_intervals"@).unwrap()),
                ticker: optional_flag(json, "ticker"@).unwrap(),
                book_ticker: optional_flag(json, "book_ticker"@).unwrap(),
                mark_price: optional_flag(json, "mark_price"@).unwrap(),
                index_price: optional_flag(json, "index_price"@).unwrap(),
                liquidation: optional_flag(json, "liquidation"@).unwrap(),
                funding_rate: optional_flag(json, "funding_rate"@).unwrap(),
                open_interest: optional_flag(json, "open_interest"@).unwrap(),
                greeks: optional_flag(json, "greeks"@).unwrap(),
            },
        )
    } else {
        None
    }
}

/// The venue of a command: the first venue where none is named.
pub open spec fn command_exchange(json: JsonView) -> Option<Exchange> {
    match json.field("exchange"@) {
        None => Some(Exchange::Binance),
        Some(value) => match value.as_str() {
            Some(word) => exchange_of(word),
            None => None,
        },
    }
}

/// The market type of a command: spot where none is named.
pub open spec fn command_market(json: JsonView) -> Option<MarketType> {
    match json.field("market_type"@) {
        None => Some(MarketType::Spot),
        Some(value) => match value.as_str() {
            Some(word) => market_of(word),
            None => None,
        },
    }
}

/// The end time of a command; the outer `None` is an error.
pub open spec fn command_end_time(json: JsonView) -> Option<Option<u64>> {
    if json.lacks("end_time"@) {
        Some(None)
    } else {
        match json.u64_field("end_time"@) {
            Some(t) => Some(Some(t)),
            None => None,
        }
    }
}

/// The stream configuration of a command; the outer `None` is an error.
pub open spec fn command_config(json: JsonView) -> Option<Option<StreamConfigView>> {
    if json.lacks("config"@) {
        Some(None)
    } else {
        match stream_config_of(json.field("config"@).unwrap()) {
            Some(c) => Some(Some(c)),
            None => None,
        }
    }
}

/// Whether a JSON value is a command.
pub open spec fn is_command(json: JsonView) -> bool {
    &&& json.str_field("action"@) matches Some(word) && action_of(word).is_some()
    &&& json.str_field("channel"@).is_some()
    &&& command_exchange(json).is_some()
    &&& command_market(json).is_some()
    &&& command_end_time(json).is_some()
    &&& command_config(json).is_some()
}

/// The command a JSON value holds.
pub open spec fn command_of(json: JsonView) -> Option<CommandView> {
    if is_command(json) {
        Some(
            CommandView {
                action: action_of(json.str_field("action"@).unwrap()).unwrap(),
                channel: json.str_field("channel"@).unwrap(),
                exchange: command_exchange(json).unwrap(),
                market_type: command_market(json).unwrap(),
                end_time: command_end_time(json).unwrap(),
                config: command_config(json).unwrap(),
            },
        )
    } else {
        None
    }
}

fn read_action(word: &str) -> (action: Option<CommandAction>)
    ensures
        action == action_of(word@),
{
    if same_text(word, "subscribe") {
        Some(CommandAction::Subscribe)
    } else if same_text(word, "unsubscribe") {
        Some(CommandAction::Unsubscribe)
    } else if same_text(word, "fetchhistory") {
        Some(CommandAction::FetchHistory)
    } else {
        None
    }
}

fn read_exchange(word: &str) -> (exchange: Option<Exchange>)
    ensures
        exchange == exchange_of(word@),
{
    if same_text(word, "BINANCE") {
        Some(Exchange::Binance)
    } else if same_text(word, "BYBIT") {
        Some(Exchange::Bybit)
    } else if same_text(word, "COINBASE") {
        Some(Exchange::Coinbase)
    } else {
        None
    }
}

fn read_market(word: &str) -> (market: Option<MarketType>)
    ensures
        market == market_of(word@),
{
    if same_text(word, "SPOT") {
        Some(MarketType::Spot)
    } else if same_text(word, "LINEAR_FUTURE") {
        Some(MarketType::LinearFuture)
    } else if same_text(word, "INVERSE_FUTURE") {
        Some(MarketType::InverseFuture)
    } else if same_text(word, "OPTION") {
        Some(MarketType::Option)
    } else {
        None
    }
}

fn read_flag(json: &Json, name: &str) -> (flag: Option<bool>)
    ensures
        flag == optional_flag(json@, name@),
{
    match json.get(name) {
        None => Some(false),
        Some(value) => value.as_bool(),
    }
}

fn read_strings(items: &Vec<Json>) -> (texts: Option<Vec<String>>)
    ensures
        match texts {
            Some(t) => all_strings(crate::normalize::views_of(items@)) && crate::models::texts(t@)
                == strings_of(crate::normalize::views_of(items@)),
            None => !all_strings(crate::normalize::views_of(items@)),
        },
{
    let ghost views = crate::normalize::views_of(items@);
    let mut out: Vec<String> = Vec::new();
    let mut i: usize = 0;
    while i < items.len()
        invariant
            i <= items@.len(),
            views == crate::normalize::views_of(items@),
            out@.len() == i,
            forall|j: int| 0 <= j < i ==> (#[trigger] views[j]).as_str() == Some(out@[j]@),
        decreases items@.len() - i,
    {
        assert(views[i as int] == items@[i as int]@);
        match items[i].as_str() {
            Some(s) => out.push(s.clone()),
            None => return None,
        }
        i = i + 1;
    }
    proof {
        assert(crate::models::texts(out@) =~= strings_of(views));
    }
    Some(out)
}

/// Reads a stream configuration from a JSON object.
pub fn decode_stream_config(json: &Json) -> (config: Option<StreamConfig>)
    ensures
        match config {
            Some(c) => stream_config_of(json@) == Some(c@),
            None => stream_config_of(json@).is_none(),
        },
{
    let raw_trades = match json.bool_field("raw_trades") {
        Some(v) => v,
        None => return None,
    };
    let agg_trades = match json.bool_field("agg_trades") {
        Some(v) => v,
        None => return None,
    };
    let order_book = match json.bool_field("order_book") {
        Some(v) => v,
        None => return None,
    };
    let items = match json.get("kline_intervals") {
        Some(v) => match v.as_array() {
            Some(items) => items,
            None => return None,
        },
        None => return None,
    };
    proof {
        assert(json@.array_field("kline_intervals"@).unwrap() =~= crate::normalize::views_of(
            items@,
        ));
    }
    let kline_intervals = match read_strings(items) {
        Some(v) => v,
        None => return None,
    };
    let ticker = match read_flag(json, "ticker") {
        Some(v) => v,
        None => return None,
    };
    let book_ticker = match read_flag(json, "book_ticker") {
        Some(v) => v,
        None => return None,
    };
    let mark_price = match read_flag(json, "mark_price") {
        Some(v) => v,
        None => return None,
    };
    let index_price = match read_flag(json, "index_price") {
        Some(v) => v,
        None => return None,
    };
    let liquidation = match read_flag(json, "liquidation") {
        Some(v) => v,
        None => return None,
    };
    let funding_rate = match read_flag(json, "funding_rate") {
        Some(v) => v,
        None => return None,
    };
    let open_interest = match read_flag(json, "open_interest") {
        Some(v) => v,
        None => return None,
    };
    let greeks = match read_flag(json, "greeks") {
        Some(v) => v,
        None => return None,
    };
    Some(
        StreamConfig {
            raw_trades,
            agg_trades,
            order_book,
            kline_intervals,
            ticker,
            book_ticker,
            mark_price,
            index_price,
            liquidation,
            funding_rate,
            open_interest,
            greeks,
        },
    )
}

/// Reads a command from a parsed text.
pub fn decode_command(json: &Json) -> (command: Option<Command>)
    ensures
        match command {
            Some(c) => command_of(json@) == Some(c@),
            None => command_of(json@).is_none(),
        },
{
    let action = match json.str_field("action") {
        Some(word) => match read_action(word.as_str()) {
            Some(a) => a,
            None => return None,
        },
        None => return None,
    };
    let channel = match json.str_field("channel") {
        Some(s) => s.clone(),
        None => return None,
    };
    let exchange = match json.get("exchange") {
        None => Exchange::Binance,
        Some(value) => match value.as_str() {
            Some(word) => match read_exchange(word.as_str()) {
                Some(e) => e,
                None => return None,
            },
            None => return None,
        },
    };
    let market_type = match json.get("market_type") {
        None => MarketType::Spot,
        Some(value) => match value.as_str() {
            Some(word) => match read_market(word.as_str()) {
                Some(m) => m,
                None => return None,
            },
            None => return None,
        },
    };
    let end_time = match json.get("end_time") {
        None => None,
        Some(value) => {
            if value.is_null() {
                None
            } else {
                match value.as_u64() {
                    Some(t) => Some(t),
                    None => return None,
                }
            }
        },
    };
    let config = match json.get("config") {
        None => None,
        Some(value) => {
            if value.is_null() {
                None
            } else {
                match decode_stream_config(value) {
                    Some(c) => Some(c),
                    None => return None,
                }
            }
        },
    };
    Some(Command { action, channel, exchange, market_type, end_time, config })
}

/// The venue an operator's word names: the first venue for any word but
/// `BYBIT`.
pub open spec fn operator_exchange(word: Seq<char>) -> Exchange {
    if word == "BYBIT"@ {
        Exchange::Bybit
    } else {
        Exchange::Binance
    }
}

/// The market type an operator's word names: spot for any word but
/// `FUTURE` and `LINEAR`.
pub open spec fn operator_market(word: Seq<char>) -> MarketType {
    if word == "FUTURE"@ || word == "LINEAR"@ {
        MarketType::LinearFuture
    } else {
        MarketType::Spot
    }
}

/// What an operator asks to be ingested. `parts` are the parts of the
/// upper-cased line `input` between its colons: three parts are venue,
/// market type and symbol, and any other line is a symbol of the first
/// venue's spot market as a whole.
pub fn operator_target(parts: &Vec<String>, input: &str) -> (target: (Exchange, MarketType, String))
    ensures
        parts@.len() == 3 ==> target.0 == operator_exchange(parts@[0]@) && target.1
            == operator_market(parts@[1]@) && target.2@ == parts@[2]@,
        parts@.len() != 3 ==> target.0 == Exchange::Binance && target.1 == MarketType::Spot
            && target.2@ == input@,
{
    if parts.len() == 3 {
        let exchange = if same_text(parts[0].as_str(), "BYBIT") {
            Exchange::Bybit
        } else {
            Exchange::Binance
        };
        let market = if same_text(parts[1].as_str(), "FUTURE") || same_text(
            parts[1].as_str(),
            "LINEAR",
        ) {
            MarketType::LinearFuture
        } else {
            MarketType::Spot
        };
        (exchange, market, parts[2].clone())
    } else {
        (Exchange::Binance, MarketType::Spot, input.to_owned())
    }
}

/// What a text frame of a client holds: the command, or `None` where the
/// text is not JSON or the JSON is no command.
pub open spec fn command_of_text(text: Seq<char>) -> Option<CommandView> {
    match json_of_text(text) {
        Some(json) => command_of(json),
        None => None,
    }
}

/// Reads a command from a text frame of a client.
pub fn parse_command(text: &str) -> (command: Option<Command>)
    ensures
        match command {
            Some(c) => command_of_text(text@) == Some(c@),
            None => command_of_text(text@).is_none(),
        },
{
    match parse(text) {
        Some(json) => decode_command(&json),
        None => None,
    }
}

} // verus!
