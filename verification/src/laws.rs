//! Properties that hold across the library's functions.

use vstd::prelude::*;
use crate::api::{
    Endpoint, Method, Request, api_base, endpoint_url, is_request_for, new_order_json, stock_url,
    ws_base, feed_url,
};
use crate::decimal::{decimal, law_decimal_injective};
use crate::json::json_string_literal;
use crate::model::NewOrder;
use crate::json::{Json, JsonNumber, member};
use crate::model::TheseQuotes;
use crate::newtypes::{Account, OrderId, Symbol, Venue};
use crate::orders::{Direction, OrderType, direction_name, direction_named, order_type_name, order_type_named};
use crate::quote::{quote_of_json, quote_of_members, quote_of_text, quote_sides};
use crate::json::parsed_json;
use crate::newtypes::bool_text;
use crate::orders::unknown_variant_message;
use crate::time::utc_instant;

verus! {

/// Reading back the wire name of a direction gives the direction, and a
/// name read as a direction is that direction's wire name.
pub proof fn law_direction_wire_names(d: Direction, s: Seq<char>)
    ensures
        direction_named(direction_name(d)) == Some(d),
        direction_named(s) == Some(d) ==> direction_name(d) == s,
{
    reveal_strlit("buy");
    reveal_strlit("sell");
    assert(direction_name(Direction::Buy).len() != direction_name(Direction::Sell).len());
}

/// Reading back the wire name of an order type gives the order type, and a
/// name read as an order type is that type's wire name.
pub proof fn law_order_type_wire_names(t: OrderType, s: Seq<char>)
    ensures
        order_type_named(order_type_name(t)) == Some(t),
        order_type_named(s) == Some(t) ==> order_type_name(t) == s,
{
    reveal_strlit("limit");
    reveal_strlit("market");
    reveal_strlit("fill-or-kill");
    reveal_strlit("immediate-or-cancel");
    assert(order_type_name(OrderType::Limit).len() == 5);
    assert(order_type_name(OrderType::Market).len() == 6);
    assert(order_type_name(OrderType::FillOrKill).len() == 12);
    assert(order_type_name(OrderType::ImmediateOrCancel).len() == 19);
}

proof fn lemma_prefix_of_concat(a: Seq<char>, b: Seq<char>)
    ensures
        a.is_prefix_of(a + b),
{
    assert((a + b).subrange(0, a.len() as int) =~= a);
}

/// Every REST endpoint is called under the API root.
pub proof fn law_rest_urls_under_api_base(e: Endpoint)
    ensures
        api_base().is_prefix_of(endpoint_url(e)),
{
    let u = endpoint_url(e);
    let tail = u.subrange(api_base().len() as int, u.len() as int);
    let t: Seq<char> = match e {
        Endpoint::ApiHeartbeat => "heartbeat"@,
        Endpoint::VenueHeartbeat(v) => "venues/"@ + v.0@ + "/heartbeat"@,
        Endpoint::StocksOnVenue(v) => "venues/"@ + v.0@ + "/stocks"@,
        Endpoint::Orderbook(v, s) => "venues/"@ + v.0@ + "/stocks/"@ + s.0@,
        Endpoint::NewOrder(o) => "venues/"@ + o.venue.0@ + "/stocks/"@ + o.stock.0@ + "/orders"@,
        Endpoint::Quote(v, s) => "venues/"@ + v.0@ + "/stocks/"@ + s.0@ + "/quote"@,
        Endpoint::StatusForExistingOrder(id, v, s) =>
            "venues/"@ + v.0@ + "/stocks/"@ + s.0@ + "/orders/"@ + decimal(id.0 as nat),
        Endpoint::CancelOrder(v, s, id) =>
            "venues/"@ + v.0@ + "/stocks/"@ + s.0@ + "/orders/"@ + decimal(id.0 as nat),
        Endpoint::StatusForAllOrders(v, a) => "venues/"@ + v.0@ + "/accounts/"@ + a.0@ + "/orders"@,
        Endpoint::StatusForAllOrdersInAStock(v, a, s) =>
            "venues/"@ + v.0@ + "/accounts/"@ + a.0@ + "/stocks/"@ + s.0@ + "/orders"@,
    };
    assert(u =~= api_base() + t);
    lemma_prefix_of_concat(api_base(), t);
}

/// Every websocket feed is opened under the feed root.
pub proof fn law_feeds_under_ws_base(account: Account, venue: Venue)
    ensures
        ws_base().is_prefix_of(feed_url(account, venue)),
{
    let t = account.0@ + "/venues/"@ + venue.0@;
    assert(feed_url(account, venue) =~= ws_base() + t);
    lemma_prefix_of_concat(ws_base(), t);
}

/// The API key goes with every request except the two heartbeats, and
/// what goes is the client's key.
pub proof fn law_key_sent_except_to_heartbeats(r: Request, key: Seq<char>, e: Endpoint)
    requires
        is_request_for(r, key, e),
    ensures
        (r.authorization is None) == (e is ApiHeartbeat || e is VenueHeartbeat),
        r.authorization matches Some(k) ==> k@ == key,
{
}

/// Two different orders of a stock are never addressed by the same URL:
/// the order's status and its cancellation name the order id itself.
pub proof fn law_order_urls_distinguish_ids(a: OrderId, b: OrderId, v: Venue, s: Symbol)
    requires
        endpoint_url(Endpoint::StatusForExistingOrder(a, v, s))
            == endpoint_url(Endpoint::StatusForExistingOrder(b, v, s))
        || endpoint_url(Endpoint::CancelOrder(v, s, a)) == endpoint_url(Endpoint::CancelOrder(v, s, b)),
    ensures
        a == b,
{
    let p = stock_url(v, s) + "/orders/"@;
    let ua = p + decimal(a.0 as nat);
    let ub = p + decimal(b.0 as nat);
    assert(ua.subrange(p.len() as int, ua.len() as int) =~= decimal(a.0 as nat));
    assert(ub.subrange(p.len() as int, ub.len() as int) =~= decimal(b.0 as nat));
    law_decimal_injective(a.0 as nat, b.0 as nat);
}

/// The sides a quote reports are exactly the sides its JSON holds: a bid
/// side where there is a `bid` member, an ask side where there is an `ask`.
pub proof fn law_quote_sides_follow_members(q: Seq<(String, Json)>)
    requires
        quote_sides(q) is Some,
    ensures
        quote_sides(q) matches Some(t) && ({
            let has_bid = member(q, "bid"@) is Some;
            let has_ask = member(q, "ask"@) is Some;
            &&& (t is Empty) == (!has_bid && !has_ask)
            &&& (t is ThisBid) == (has_bid && !has_ask)
            &&& (t is ThatAsk) == (!has_bid && has_ask)
            &&& (t is TheseQuotes) == (has_bid && has_ask)
        }),
{
}

/// The number held by a member that is a non-negative integer.
pub open spec fn holds_u64(q: Seq<(String, Json)>, key: Seq<char>, n: u64) -> bool {
    member(q, key) == Some(Json::Number(JsonNumber::PosInt(n)))
}

/// Whether a member is a non-negative integer.
pub open spec fn has_u64(q: Seq<(String, Json)>, key: Seq<char>) -> bool {
    member(q, key) matches Some(Json::Number(JsonNumber::PosInt(_)))
}

/// Whether a member is a string that chrono reads as `t`.
pub open spec fn holds_instant(q: Seq<(String, Json)>, key: Seq<char>, t: crate::time::DTUTC) -> bool {
    member(q, key) matches Some(Json::Str(s)) && utc_instant(s@) == Some(t)
}

/// Whether a member is a string that chrono reads as an instant.
pub open spec fn has_instant(q: Seq<(String, Json)>, key: Seq<char>) -> bool {
    member(q, key) matches Some(Json::Str(s)) && utc_instant(s@) is Some
}

/// Every field of a decoded quote is the member of the quote object that
/// bears its name: `symbol` and `venue` are its strings, `last` and
/// `lastSize` its numbers, `lastTrade` and `quoteTime` the instants its
/// strings denote; a bid side is `bid`, `bidSize` and `bidDepth`, an ask
/// side `ask`, `askSize` and `askDepth`, and a side is there exactly where
/// its price member is. Conversely, a quote object with all of these, well
/// typed, always decodes.
pub proof fn law_quote_fields_come_from_their_members(q: Seq<(String, Json)>)
    ensures
        quote_of_members(q) matches Some(m) ==> {
            &&& member(q, "symbol"@) == Some(Json::Str(m.symbol.0))
            &&& member(q, "venue"@) == Some(Json::Str(m.venue.0))
            &&& holds_u64(q, "last"@, m.last.0)
            &&& holds_u64(q, "lastSize"@, m.last_size.0)
            &&& holds_instant(q, "lastTrade"@, m.last_trade)
            &&& holds_instant(q, "quoteTime"@, m.quote_time)
            &&& match m.these_quotes {
                TheseQuotes::ThisBid(b) => {
                    &&& holds_u64(q, "bid"@, b.bid.0)
                    &&& holds_u64(q, "bidSize"@, b.bid_size.0)
                    &&& holds_u64(q, "bidDepth"@, b.bid_depth.0)
                    &&& member(q, "ask"@) is None
                },
                TheseQuotes::ThatAsk(a) => {
                    &&& holds_u64(q, "ask"@, a.ask.0)
                    &&& holds_u64(q, "askSize"@, a.ask_size.0)
                    &&& holds_u64(q, "askDepth"@, a.ask_depth.0)
                    &&& member(q, "bid"@) is None
                },
                TheseQuotes::TheseQuotes(b, a) => {
                    &&& holds_u64(q, "bid"@, b.bid.0)
                    &&& holds_u64(q, "bidSize"@, b.bid_size.0)
                    &&& holds_u64(q, "bidDepth"@, b.bid_depth.0)
                    &&& holds_u64(q, "ask"@, a.ask.0)
                    &&& holds_u64(q, "askSize"@, a.ask_size.0)
                    &&& holds_u64(q, "askDepth"@, a.ask_depth.0)
                },
                TheseQuotes::Empty => member(q, "bid"@) is None && member(q, "ask"@) is None,
            }
        },
        ({
            &&& member(q, "symbol"@) matches Some(Json::Str(_))
            &&& member(q, "venue"@) matches Some(Json::Str(_))
            &&& has_u64(q, "last"@)
            &&& has_u64(q, "lastSize"@)
            &&& has_instant(q, "lastTrade"@)
            &&& has_instant(q, "quoteTime"@)
            &&& member(q, "bid"@) is Some ==> has_u64(q, "bid"@) && has_u64(q, "bidSize"@) && has_u64(q, "bidDepth"@)
            &&& member(q, "ask"@) is Some ==> has_u64(q, "ask"@) && has_u64(q, "askSize"@) && has_u64(q, "askDepth"@)
        }) ==> quote_of_members(q) is Some,
{
}

/// A quote is decoded from a JSON document exactly where the document is an
/// object whose `quote` member is an object that decodes, and it is that
/// object's quote.
pub proof fn law_quote_is_read_from_the_quote_member(j: Json)
    ensures
        quote_of_json(j) matches Some(m) ==> (j matches Json::Object(top)
            && member(top@, "quote"@) matches Some(Json::Object(qv)) && quote_of_members(qv@) == Some(m)),
        (j matches Json::Object(top) && member(top@, "quote"@) matches Some(Json::Object(qv))
            && quote_of_members(qv@) is Some) ==> quote_of_json(j) is Some,
{
}

/// Only placing an order is sent with POST and only cancelling one with
/// DELETE; every other call is a GET. Only placing an order has a body.
pub proof fn law_request_methods(r: Request, key: Seq<char>, e: Endpoint)
    requires
        is_request_for(r, key, e),
    ensures
        (r.method == Method::Post) <==> (e is NewOrder),
        (r.method == Method::Delete) <==> (e is CancelOrder),
        (r.method == Method::Get) <==> !(e is NewOrder || e is CancelOrder),
        (r.body is Some) <==> (e is NewOrder),
        e matches Endpoint::NewOrder(o) ==> r.body matches Some(b) && b@ == new_order_json(o),
{
}

/// The URL of each call, written out: the API root, then the venue, the
/// stock, the account and the order id in the places the API reads them.
pub proof fn law_request_urls(r: Request, key: Seq<char>, e: Endpoint)
    requires
        is_request_for(r, key, e),
    ensures
        r.url@ == match e {
            Endpoint::ApiHeartbeat => "https://api.stockfighter.io/ob/api/"@ + "heartbeat"@,
            Endpoint::VenueHeartbeat(v) =>
                "https://api.stockfighter.io/ob/api/"@ + "venues/"@ + v.0@ + "/heartbeat"@,
            Endpoint::StocksOnVenue(v) =>
                "https://api.stockfighter.io/ob/api/"@ + "venues/"@ + v.0@ + "/stocks"@,
            Endpoint::Orderbook(v, s) =>
                "https://api.stockfighter.io/ob/api/"@ + "venues/"@ + v.0@ + "/stocks/"@ + s.0@,
            Endpoint::NewOrder(o) =>
                "https://api.stockfighter.io/ob/api/"@ + "venues/"@ + o.venue.0@ + "/stocks/"@
                    + o.stock.0@ + "/orders"@,
            Endpoint::Quote(v, s) =>
                "https://api.stockfighter.io/ob/api/"@ + "venues/"@ + v.0@ + "/stocks/"@ + s.0@
                    + "/quote"@,
            Endpoint::StatusForExistingOrder(id, v, s) =>
                "https://api.stockfighter.io/ob/api/"@ + "venues/"@ + v.0@ + "/stocks/"@ + s.0@
                    + "/orders/"@ + decimal(id.0 as nat),
            Endpoint::CancelOrder(v, s, id) =>
                "https://api.stockfighter.io/ob/api/"@ + "venues/"@ + v.0@ + "/stocks/"@ + s.0@
                    + "/orders/"@ + decimal(id.0 as nat),
            Endpoint::StatusForAllOrders(v, a) =>
                "https://api.stockfighter.io/ob/api/"@ + "venues/"@ + v.0@ + "/accounts/"@ + a.0@
                    + "/orders"@,
            Endpoint::StatusForAllOrdersInAStock(v, a, s) =>
                "https://api.stockfighter.io/ob/api/"@ + "venues/"@ + v.0@ + "/accounts/"@ + a.0@
                    + "/stocks/"@ + s.0@ + "/orders"@,
        },
{
    assert(r.url@ =~= endpoint_url(e));
}

/// A feed URL is the websocket root, the whole account id, `/venues/` and
/// the whole venue name.
pub proof fn law_feed_urls(account: Account, venue: Venue)
    ensures
        feed_url(account, venue) == "wss://api.stockfighter.io/ob/api/ws/"@ + account.0@ + "/venues/"@ + venue.0@,
{
}

/// The wire names, written out: `buy`, `sell`, `limit`, `market`,
/// `fill-or-kill` and `immediate-or-cancel`.
pub proof fn law_wire_names()
    ensures
        direction_name(Direction::Buy) == "buy"@,
        direction_name(Direction::Sell) == "sell"@,
        order_type_name(OrderType::Limit) == "limit"@,
        order_type_name(OrderType::Market) == "market"@,
        order_type_name(OrderType::FillOrKill) == "fill-or-kill"@,
        order_type_name(OrderType::ImmediateOrCancel) == "immediate-or-cancel"@,
{
}

/// The body that places an order is a JSON object with its members in
/// declaration order: the account, venue and stock as JSON strings, the
/// quantity and price in decimal, and the direction and order type as the
/// JSON strings of whatever wire names read back as them.
pub proof fn law_new_order_body(o: NewOrder, d: Seq<char>, t: Seq<char>)
    requires
        direction_named(d) == Some(o.direction),
        order_type_named(t) == Some(o.order_type),
    ensures
        new_order_json(o) == "{\"account\":"@ + json_string_literal(o.account.0@)
            + ",\"venue\":"@ + json_string_literal(o.venue.0@)
            + ",\"stock\":"@ + json_string_literal(o.stock.0@)
            + ",\"qty\":"@ + decimal(o.qty.0 as nat)
            + ",\"price\":"@ + decimal(o.price.0 as nat)
            + ",\"direction\":"@ + json_string_literal(d)
            + ",\"orderType\":"@ + json_string_literal(t)
            + "}"@,
{
    law_direction_wire_names(o.direction, d);
    law_order_type_wire_names(o.order_type, t);
}

/// A quote is decoded from JSON text exactly where serde_json reads the
/// text as a document that holds a quote, and it is that document's quote.
pub proof fn law_quote_text_is_read_by_serde(text: Seq<char>)
    ensures
        quote_of_text(text) matches Some(m) ==> (parsed_json(text) matches Some(j) && quote_of_json(j) == Some(m)),
        (parsed_json(text) matches Some(j) && quote_of_json(j) is Some) ==> quote_of_text(text) is Some,
{
}

/// Booleans are written `true` and `false`.
pub proof fn law_bool_text()
    ensures
        bool_text(true) == "true"@,
        bool_text(false) == "false"@,
{
}

/// The message of a refused wire name quotes the text and names the type.
pub proof fn law_unknown_variant_message(text: Seq<char>, kind_name: Seq<char>)
    ensures
        unknown_variant_message(text, kind_name)
            == "`"@ + text + "` is not a known `"@ + kind_name + "` variant"@,
{
}

} // verus!
