//! Decoding a quote from the JSON text StockFighter sends.

use vstd::prelude::*;
use crate::json::{
    Json, get_member, member, json_u64, json_string, json_members, parsed_json,
};
use crate::model::{QuoteM, TheseQuotes, BidStruct, AskStruct};
use crate::newtypes::{Ask, AskDepth, AskSize, Bid, BidDepth, BidSize, Last, LastSize, Symbol, Venue};
use crate::time::{DTUTC, utc_instant};

verus! {

/// The non-negative integer under `key`, where there is one.
pub open spec fn u64_member(members: Seq<(String, Json)>, key: Seq<char>) -> Option<u64> {
    match member(members, key) {
        Some(j) => json_u64(j),
        None => None,
    }
}

/// The string under `key`, where there is one.
pub open spec fn string_member(members: Seq<(String, Json)>, key: Seq<char>) -> Option<String> {
    match member(members, key) {
        Some(j) => json_string(j),
        None => None,
    }
}

/// The instant written as a string under `key`, where there is one.
pub open spec fn instant_member(members: Seq<(String, Json)>, key: Seq<char>) -> Option<DTUTC> {
    match string_member(members, key) {
        Some(s) => utc_instant(s@),
        None => None,
    }
}

/// The bid side read from the bid value and the quote's `bidSize` and `bidDepth`.
pub open spec fn bid_side(bid: Json, q: Seq<(String, Json)>) -> Option<BidStruct> {
    match (json_u64(bid), u64_member(q, "bidSize"@), u64_member(q, "bidDepth"@)) {
        (Some(b), Some(size), Some(depth)) => Some(
            BidStruct { bid: Bid(b), bid_size: BidSize(size), bid_depth: BidDepth(depth) },
        ),
        _ => None,
    }
}

/// The ask side read from the ask value and the quote's `askSize` and `askDepth`.
pub open spec fn ask_side(ask: Json, q: Seq<(String, Json)>) -> Option<AskStruct> {
    match (json_u64(ask), u64_member(q, "askSize"@), u64_member(q, "askDepth"@)) {
        (Some(a), Some(size), Some(depth)) => Some(
            AskStruct { ask: Ask(a), ask_size: AskSize(size), ask_depth: AskDepth(depth) },
        ),
        _ => None,
    }
}

/// The sides of a quote: chosen by which of `bid` and `ask` are present.
pub open spec fn quote_sides(q: Seq<(String, Json)>) -> Option<TheseQuotes> {
    match (member(q, "bid"@), member(q, "ask"@)) {
        (None, None) => Some(TheseQuotes::Empty),
        (None, Some(a)) => match ask_side(a, q) {
            Some(s) => Some(TheseQuotes::ThatAsk(s)),
            None => None,
        },
        (Some(b), None) => match bid_side(b, q) {
            Some(s) => Some(TheseQuotes::ThisBid(s)),
            None => None,
        },
        (Some(b), Some(a)) => match (bid_side(b, q), ask_side(a, q)) {
            (Some(x), Some(y)) => Some(TheseQuotes::TheseQuotes(x, y)),
            _ => None,
        },
    }
}

/// The quote held by the members of a quote object.
pub open spec fn quote_of_members(q: Seq<(String, Json)>) -> Option<QuoteM> {
    match (
        quote_sides(q),
        string_member(q, "symbol"@),
        string_member(q, "venue"@),
        u64_member(q, "last"@),
        u64_member(q, "lastSize"@),
        instant_member(q, "lastTrade"@),
        instant_member(q, "quoteTime"@),
    ) {
        (Some(sides), Some(symbol), Some(venue), Some(last), Some(last_size), Some(last_trade), Some(quote_time)) => Some(QuoteM {
            symbol: Symbol(symbol),
            venue: Venue(venue),
            these_quotes: sides,
            last: Last(last),
            last_size: LastSize(last_size),
            last_trade: last_trade,
            quote_time: quote_time,
        }),
        _ => None,
    }
}

/// The quote held by a JSON document: an object whose `quote` member is an
/// object with the quote's fields.
pub open spec fn quote_of_json(j: Json) -> Option<QuoteM> {
    match json_members(j) {
        Some(top) => match member(top, "quote"@) {
            Some(qv) => match json_members(qv) {
                Some(q) => quote_of_members(q),
                None => None,
            },
            None => None,
        },
        None => None,
    }
}

/// The quote held by a JSON text.
pub open spec fn quote_of_text(text: Seq<char>) -> Option<QuoteM> {
    match parsed_json(text) {
        Some(j) => quote_of_json(j),
        None => None,
    }
}

fn u64_at(q: &Vec<(String, Json)>, key: &str) -> (r: Option<u64>)
    ensures
        r == u64_member(q@, key@),
{
    match get_member(q, key) {
        Some(j) => j.as_u64(),
        None => None,
    }
}

fn string_at(q: &Vec<(String, Json)>, key: &str) -> (r: Option<String>)
    ensures
        r == string_member(q@, key@),
{
    match get_member(q, key) {
        Some(j) => match j.as_str() {
            Some(s) => Some(s.clone()),
            None => None,
        },
        None => None,
    }
}

fn instant_at(q: &Vec<(String, Json)>, key: &str) -> (r: Option<DTUTC>)
    ensures
        r == instant_member(q@, key@),
{
    match string_at(q, key) {
        Some(s) => DTUTC::try_parse(s.as_str()),
        None => None,
    }
}

fn bid_of(bid: &Json, q: &Vec<(String, Json)>) -> (r: Option<BidStruct>)
    ensures
        r == bid_side(*bid, q@),
{
    match (bid.as_u64(), u64_at(q, "bidSize"), u64_at(q, "bidDepth")) {
        (Some(b), Some(size), Some(depth)) => Some(
            BidStruct { bid: Bid(b), bid_size: BidSize(size), bid_depth: BidDepth(depth) },
        ),
        _ => None,
    }
}

fn ask_of(ask: &Json, q: &Vec<(String, Json)>) -> (r: Option<AskStruct>)
    ensures
        r == ask_side(*ask, q@),
{
    match (ask.as_u64(), u64_at(q, "askSize"), u64_at(q, "askDepth")) {
        (Some(a), Some(size), Some(depth)) => Some(
            AskStruct { ask: Ask(a), ask_size: AskSize(size), ask_depth: AskDepth(depth) },
        ),
        _ => None,
    }
}

/// Reads the bid side of a quote; the bid value and the quote's `bidSize`
/// and `bidDepth` must be non-negative integers.
pub fn parse_bid(bid: &Json, q: &Vec<(String, Json)>) -> (r: BidStruct)
    requires
        bid_side(*bid, q@) is Some,
    ensures
        bid_side(*bid, q@) == Some(r),
{
    match bid_of(bid, q) {
        Some(b) => b,
        None => BidStruct { bid: Bid(0), bid_size: BidSize(0), bid_depth: BidDepth(0) },
    }
}

/// Reads the ask side of a quote; the ask value and the quote's `askSize`
/// and `askDepth` must be non-negative integers.
pub fn parse_ask(ask: &Json, q: &Vec<(String, Json)>) -> (r: AskStruct)
    requires
        ask_side(*ask, q@) is Some,
    ensures
        ask_side(*ask, q@) == Some(r),
{
    match ask_of(ask, q) {
        Some(a) => a,
        None => AskStruct { ask: Ask(0), ask_size: AskSize(0), ask_depth: AskDepth(0) },
    }
}

fn sides_of(q: &Vec<(String, Json)>) -> (r: Option<TheseQuotes>)
    ensures
        r == quote_sides(q@),
{
    match (get_member(q, "bid"), get_member(q, "ask")) {
        (None, None) => Some(TheseQuotes::Empty),
        (None, Some(a)) => match ask_of(a, q) {
            Some(s) => Some(TheseQuotes::ThatAsk(s)),
            None => None,
        },
        (Some(b), None) => match bid_of(b, q) {
            Some(s) => Some(TheseQuotes::ThisBid(s)),
            None => None,
        },
        (Some(b), Some(a)) => match (bid_of(b, q), ask_of(a, q)) {
            (Some(x), Some(y)) => Some(TheseQuotes::TheseQuotes(x, y)),
            _ => None,
        },
    }
}

fn quote_of(q: &Vec<(String, Json)>) -> (r: Option<QuoteM>)
    ensures
        r == quote_of_members(q@),
{
    match (
        sides_of(q),
        string_at(q, "symbol"),
        string_at(q, "venue"),
        u64_at(q, "last"),
        u64_at(q, "lastSize"),
        instant_at(q, "lastTrade"),
        instant_at(q, "quoteTime"),
    ) {
        (Some(sides), Some(symbol), Some(venue), Some(last), Some(last_size), Some(last_trade), Some(quote_time)) => Some(QuoteM {
            symbol: Symbol(symbol),
            venue: Venue(venue),
            these_quotes: sides,
            last: Last(last),
            last_size: LastSize(last_size),
            last_trade: last_trade,
            quote_time: quote_time,
        }),
        _ => None,
    }
}

/// Reads a quote from a JSON document: `None` where the document is not an
/// object whose `quote` member holds every field of a quote.
pub fn quote_from_json(j: &Json) -> (r: Option<QuoteM>)
    ensures
        r == quote_of_json(*j),
{
    match j.as_object() {
        Some(top) => match get_member(top, "quote") {
            Some(qv) => match qv.as_object() {
                Some(q) => quote_of(q),
                None => None,
            },
            None => None,
        },
        None => None,
    }
}

/// Reads a quote from JSON text; the text must hold one.
pub fn str_to_quote(s: &str) -> (r: QuoteM)
    requires
        quote_of_text(s@) is Some,
    ensures
        quote_of_text(s@) == Some(r),
{
    match Json::parse(s) {
        Some(j) => match quote_from_json(&j) {
            Some(q) => q,
            None => vstd::pervasive::unreached(),
        },
        None => vstd::pervasive::unreached(),
    }
}

/// Reads a quote from JSON text, or gives `None` where the text holds none.
pub fn try_str_to_quote(s: &str) -> (r: Option<QuoteM>)
    ensures
        r == quote_of_text(s@),
{
    match Json::parse(s) {
        Some(j) => match quote_from_json(&j) {
            Some(_) => Some(str_to_quote(s)),
            None => None,
        },
        None => None,
    }
}

} // verus!
