//! Text helpers: case conversion, substring search, decimal digits, and the
//! composite topic id.

use vstd::prelude::*;
use vstd::string::{StrSliceExecFns, StringExecFns};
use crate::models::{Exchange, MarketType};

verus! {

/// What `str::to_uppercase` makes of a text.
pub uninterp spec fn uppercase(text: Seq<char>) -> Seq<char>;

/// What `str::to_lowercase` makes of a text.
pub uninterp spec fn lowercase(text: Seq<char>) -> Seq<char>;

/// Calls `str::to_uppercase`. The result is a function of the text alone,
/// given by Unicode's case tables; the contract names it and says no more.
#[verifier::external_body]
pub(crate) fn to_uppercase(text: &str) -> (upper: String)
    ensures
        upper@ == uppercase(text@),
{
    text.to_uppercase()
}

/// Calls `str::to_lowercase`. The result is a function of the text alone,
/// given by Unicode's case tables; the contract names it and says no more.
#[verifier::external_body]
pub(crate) fn to_lowercase(text: &str) -> (lower: String)
    ensures
        lower@ == lowercase(text@),
{
    text.to_lowercase()
}

/// Whether `needle` occurs in `text` as a run of consecutive characters.
pub open spec fn occurs_in(needle: Seq<char>, text: Seq<char>) -> bool {
    exists|i: int|
        0 <= i && i + needle.len() <= text.len() && #[trigger] text.subrange(
            i,
            i + needle.len(),
        ) == needle
}

/// Calls `str::contains` with a string pattern, which is true exactly when
/// the pattern matches a sub-slice of the text.
#[verifier::external_body]
pub(crate) fn contains(text: &str, needle: &str) -> (found: bool)
    ensures
        found == occurs_in(needle@, text@),
{
    text.contains(needle)
}

/// Compares two string slices with `==`, which holds exactly when they are
/// the same text.
#[verifier::external_body]
pub(crate) fn same_text(a: &str, b: &str) -> (same: bool)
    ensures
        same == (a@ == b@),
{
    a == b
}

/// The character of a decimal digit.
pub open spec fn digit_char(digit: nat) -> char {
    if digit == 0 {
        '0'
    } else if digit == 1 {
        '1'
    } else if digit == 2 {
        '2'
    } else if digit == 3 {
        '3'
    } else if digit == 4 {
        '4'
    } else if digit == 5 {
        '5'
    } else if digit == 6 {
        '6'
    } else if digit == 7 {
        '7'
    } else if digit == 8 {
        '8'
    } else {
        '9'
    }
}

/// A number in decimal digits, without sign or leading zeros.
pub open spec fn decimal_text(n: nat) -> Seq<char>
    decreases n,
{
    if n < 10 {
        seq![digit_char(n)]
    } else {
        decimal_text(n / 10).push(digit_char(n % 10))
    }
}

fn digit_str(digit: u64) -> (s: &'static str)
    requires
        digit < 10,
    ensures
        s@ == seq![digit_char(digit as nat)],
{
    proof {
        reveal_strlit("0");
        reveal_strlit("1");
        reveal_strlit("2");
        reveal_strlit("3");
        reveal_strlit("4");
        reveal_strlit("5");
        reveal_strlit("6");
        reveal_strlit("7");
        reveal_strlit("8");
        reveal_strlit("9");
    }
    let s = if digit == 0 {
        "0"
    } else if digit == 1 {
        "1"
    } else if digit == 2 {
        "2"
    } else if digit == 3 {
        "3"
    } else if digit == 4 {
        "4"
    } else if digit == 5 {
        "5"
    } else if digit == 6 {
        "6"
    } else if digit == 7 {
        "7"
    } else if digit == 8 {
        "8"
    } else {
        "9"
    };
    assert(s@ =~= seq![digit_char(digit as nat)]);
    s
}

/// The decimal digits of `n`.
pub fn decimal(n: u64) -> (text: String)
    ensures
        text@ == decimal_text(n as nat),
    decreases n,
{
    if n < 10 {
        digit_str(n).to_owned()
    } else {
        let mut text = decimal(n / 10);
        text.append(digit_str(n % 10));
        assert(text@ =~= decimal_text(n as nat));
        text
    }
}

/// The value of a decimal digit; `None` for any other character.
pub open spec fn digit_value(c: char) -> Option<nat> {
    if '0' <= c <= '9' {
        Some((c as int - '0' as int) as nat)
    } else {
        None
    }
}

/// The number that a run of decimal digits writes; `None` for the empty
/// text and for a text that holds anything but digits.
pub open spec fn digits_value(text: Seq<char>) -> Option<nat>
    decreases text.len(),
{
    if text.len() == 0 {
        None
    } else {
        match digit_value(text.last()) {
            None => None,
            Some(d) => if text.len() == 1 {
                Some(d)
            } else {
                match digits_value(text.drop_last()) {
                    Some(v) => Some(v * 10 + d),
                    None => None,
                }
            },
        }
    }
}

/// The number that a run of decimal digits writes, where it fits 64 bits.
pub open spec fn u64_of_digits(text: Seq<char>) -> Option<u64> {
    match digits_value(text) {
        Some(v) => if v <= u64::MAX {
            Some(v as u64)
        } else {
            None
        },
        None => None,
    }
}

/// A text that holds a character that is no digit writes no number.
pub proof fn lemma_not_all_digits(text: Seq<char>, k: int)
    requires
        0 <= k < text.len(),
        digit_value(text[k]).is_none(),
    ensures
        digits_value(text).is_none(),
    decreases text.len(),
{
    if k < text.len() - 1 {
        assert(text.drop_last()[k] == text[k]);
        lemma_not_all_digits(text.drop_last(), k);
    }
}

/// A run of digits writes a number no smaller than any of its beginnings
/// writes.
pub proof fn lemma_digits_grow(text: Seq<char>, k: int)
    requires
        1 <= k <= text.len(),
        digits_value(text).is_some(),
    ensures
        digits_value(text.subrange(0, k)) matches Some(p) && p <= digits_value(text).unwrap(),
    decreases text.len(),
{
    if k == text.len() {
        assert(text.subrange(0, k) == text);
    } else {
        let front = text.drop_last();
        assert(front.subrange(0, k) == text.subrange(0, k));
        lemma_digits_grow(front, k);
    }
}

/// Reading the digits that write a number gives the number back.
pub proof fn lemma_digits_round_trip(n: nat)
    ensures
        digits_value(decimal_text(n)) == Some(n),
    decreases n,
{
    if n < 10 {
        assert(decimal_text(n).last() == digit_char(n));
    } else {
        lemma_digits_round_trip(n / 10);
        let text = decimal_text(n);
        assert(text.last() == digit_char(n % 10));
        assert(text.drop_last() == decimal_text(n / 10));
        assert(decimal_text(n / 10).len() >= 1);
    }
}

/// Reads an unsigned number written in decimal digits, and in nothing but
/// digits: no sign, no blanks. The answer is `None` for any other text and
/// for a number too large for 64 bits.
pub fn parse_u64(text: &str) -> (value: Option<u64>)
    ensures
        value == u64_of_digits(text@),
{
    if !text.is_ascii() {
        proof {
            assert(!vstd::utf8::is_ascii_chars(text@));
            assert(exists|k: int|
                0 <= k < text@.len() && !('\0' <= #[trigger] text@[k] <= '\u{7f}'));
            let k = choose|k: int|
                0 <= k < text@.len() && !('\0' <= #[trigger] text@[k] <= '\u{7f}');
            assert(text@[k] < '\0' || text@[k] > '\u{7f}');
            lemma_not_all_digits(text@, k);
        }
        return None;
    }
    let n = text.unicode_len();
    let mut acc: u64 = 0;
    let mut i: usize = 0;
    while i < n
        invariant
            i <= n,
            n == text@.len(),
            text.is_ascii(),
            i == 0 ==> acc == 0,
            i > 0 ==> digits_value(text@.subrange(0, i as int)) == Some(acc as nat),
        decreases n - i,
    {
        let b = text.get_ascii(i);
        let ghost c = text@[i as int];
        let ghost next = text@.subrange(0, i + 1);
        proof {
            assert('\0' <= c <= '\u{7f}');
            assert(c as int == b as int);
            assert('0' as int == 48 && '9' as int == 57);
            assert(next.last() == c);
            assert(next.drop_last() == text@.subrange(0, i as int));
        }
        if b < 48 || b > 57 {
            proof {
                lemma_not_all_digits(text@, i as int);
            }
            return None;
        }
        let d: u64 = (b - 48) as u64;
        if acc > (u64::MAX - d) / 10 {
            proof {
                assert(acc as nat * 10 + d as nat > u64::MAX);
                if digits_value(text@).is_some() {
                    lemma_digits_grow(text@, i + 1);
                }
            }
            return None;
        }
        acc = acc * 10 + d;
        i = i + 1;
    }
    proof {
        assert(text@.subrange(0, n as int) == text@);
    }
    if n == 0 {
        None
    } else {
        Some(acc)
    }
}

impl Exchange {
    /// The venue's name.
    pub open spec fn name(self) -> Seq<char> {
        match self {
            Exchange::Binance => "Binance"@,
            Exchange::Bybit => "Bybit"@,
            Exchange::Coinbase => "Coinbase"@,
        }
    }

    /// The venue's name.
    pub fn to_string(&self) -> (name: String)
        ensures
            name@ == self.name(),
    {
        match self {
            Exchange::Binance => "Binance".to_owned(),
            Exchange::Bybit => "Bybit".to_owned(),
            Exchange::Coinbase => "Coinbase".to_owned(),
        }
    }
}

impl MarketType {
    /// The market type's name.
    pub open spec fn name(self) -> Seq<char> {
        match self {
            MarketType::Spot => "Spot"@,
            MarketType::LinearFuture => "LinearFuture"@,
            MarketType::InverseFuture => "InverseFuture"@,
            MarketType::Option => "Option"@,
        }
    }

    /// The market type's name.
    pub fn to_string(&self) -> (name: String)
        ensures
            name@ == self.name(),
    {
        match self {
            MarketType::Spot => "Spot".to_owned(),
            MarketType::LinearFuture => "LinearFuture".to_owned(),
            MarketType::InverseFuture => "InverseFuture".to_owned(),
            MarketType::Option => "Option".to_owned(),
        }
    }
}

/// The composite id of a topic: venue, market type and symbol, joined by
/// underscores and upper-cased as a whole.
pub open spec fn topic_id(exchange: Exchange, market_type: MarketType, symbol: Seq<char>) -> Seq<
    char,
> {
    uppercase(exchange.name() + "_"@ + market_type.name() + "_"@ + symbol)
}

/// Venue, market type and symbol joined by underscores, in the case they
/// come in.
pub fn joined_id(exchange: Exchange, market_type: MarketType, symbol: &str) -> (id: String)
    ensures
        id@ == exchange.name() + "_"@ + market_type.name() + "_"@ + symbol@,
{
    let mut joined = exchange.to_string();
    joined.append("_");
    joined.append(market_type.to_string().as_str());
    joined.append("_");
    joined.append(symbol);
    joined
}

/// The composite id under which a symbol of a venue and market type is kept,
/// and which every event of it carries.
pub fn unique_id(exchange: Exchange, market_type: MarketType, symbol: &str) -> (id: String)
    ensures
        id@ == topic_id(exchange, market_type, symbol@),
{
    to_uppercase(joined_id(exchange, market_type, symbol).as_str())
}

} // verus!
