//! The StockFighter REST endpoints and websocket feeds: which request each
//! call sends.

use vstd::prelude::*;
use crate::decimal::{decimal, usize_to_decimal};
use crate::json::{json_string_literal, serde_string_literal};
use crate::model::NewOrder;
use crate::newtypes::{Account, OrderId, Symbol, Venue};
use crate::orders::{direction_name, order_type_name};

verus! {

/// The root of every REST endpoint.
pub open spec fn api_base() -> Seq<char> {
    "https://api.stockfighter.io/ob/api/"@
}

/// The root of every websocket feed.
pub open spec fn ws_base() -> Seq<char> {
    "wss://api.stockfighter.io/ob/api/ws/"@
}

/// The name of the header that carries the API key.
pub open spec fn auth_header_name() -> Seq<char> {
    "X-Starfighter-Authorization"@
}

/// The HTTP method of a request.
#[derive(Debug, PartialEq, Eq, Clone, Copy, Structural)]
pub enum Method {
    Get,
    Post,
    Delete,
}

/// A request ready to be sent: method, full URL, the API key where the
/// endpoint wants one (sent in the `X-Starfighter-Authorization` header) and
/// the JSON body where there is one.
#[derive(Debug, PartialEq, Clone)]
pub struct Request {
    pub method: Method,
    pub url: String,
    pub authorization: Option<String>,
    pub body: Option<String>,
}

/// One call of the REST API, with its arguments.
#[derive(Debug, PartialEq, Clone)]
pub enum Endpoint {
    ApiHeartbeat,
    VenueHeartbeat(Venue),
    StocksOnVenue(Venue),
    Orderbook(Venue, Symbol),
    NewOrder(NewOrder),
    Quote(Venue, Symbol),
    StatusForExistingOrder(OrderId, Venue, Symbol),
    CancelOrder(Venue, Symbol, OrderId),
    StatusForAllOrders(Venue, Account),
    StatusForAllOrdersInAStock(Venue, Account, Symbol),
}

/// The JSON body that places `o`: its fields in declaration order, strings
/// written as serde_json writes them, numbers in decimal, direction and order
/// type by their wire names.
pub open spec fn new_order_json(o: NewOrder) -> Seq<char> {
    "{\"account\":"@ + json_string_literal(o.account.0@)
        + ",\"venue\":"@ + json_string_literal(o.venue.0@)
        + ",\"stock\":"@ + json_string_literal(o.stock.0@)
        + ",\"qty\":"@ + decimal(o.qty.0 as nat)
        + ",\"price\":"@ + decimal(o.price.0 as nat)
        + ",\"direction\":"@ + json_string_literal(direction_name(o.direction))
        + ",\"orderType\":"@ + json_string_literal(order_type_name(o.order_type))
        + "}"@
}

/// The path of a venue.
pub open spec fn venue_url(venue: Venue) -> Seq<char> {
    api_base() + "venues/"@ + venue.0@
}

/// The path of a stock on a venue.
pub open spec fn stock_url(venue: Venue, stock: Symbol) -> Seq<char> {
    venue_url(venue) + "/stocks/"@ + stock.0@
}

/// The path of an account on a venue.
pub open spec fn account_url(venue: Venue, account: Account) -> Seq<char> {
    venue_url(venue) + "/accounts/"@ + account.0@
}

/// The URL each endpoint is called at.
pub open spec fn endpoint_url(e: Endpoint) -> Seq<char> {
    match e {
        Endpoint::ApiHeartbeat => api_base() + "heartbeat"@,
        Endpoint::VenueHeartbeat(v) => venue_url(v) + "/heartbeat"@,
        Endpoint::StocksOnVenue(v) => venue_url(v) + "/stocks"@,
        Endpoint::Orderbook(v, s) => stock_url(v, s),
        Endpoint::NewOrder(o) => stock_url(o.venue, o.stock) + "/orders"@,
        Endpoint::Quote(v, s) => stock_url(v, s) + "/quote"@,
        Endpoint::StatusForExistingOrder(id, v, s) => stock_url(v, s) + "/orders/"@ + decimal(id.0 as nat),
        Endpoint::CancelOrder(v, s, id) => stock_url(v, s) + "/orders/"@ + decimal(id.0 as nat),
        Endpoint::StatusForAllOrders(v, a) => account_url(v, a) + "/orders"@,
        Endpoint::StatusForAllOrdersInAStock(v, a, s) => account_url(v, a) + "/stocks/"@ + s.0@ + "/orders"@,
    }
}

/// The method each endpoint is called with.
pub open spec fn endpoint_method(e: Endpoint) -> Method {
    match e {
        Endpoint::NewOrder(_) => Method::Post,
        Endpoint::CancelOrder(..) => Method::Delete,
        _ => Method::Get,
    }
}

/// Whether the endpoint wants the API key: all but the two heartbeats.
pub open spec fn endpoint_needs_key(e: Endpoint) -> bool {
    match e {
        Endpoint::ApiHeartbeat => false,
        Endpoint::VenueHeartbeat(_) => false,
        _ => true,
    }
}

/// The body each endpoint is called with: only a new order has one.
pub open spec fn endpoint_body(e: Endpoint) -> Option<Seq<char>> {
    match e {
        Endpoint::NewOrder(o) => Some(new_order_json(o)),
        _ => None,
    }
}

/// Whether `r` is the request that calls `e` with the API key `key`.
pub open spec fn is_request_for(r: Request, key: Seq<char>, e: Endpoint) -> bool {
    &&& r.method == endpoint_method(e)
    &&& r.url@ == endpoint_url(e)
    &&& match r.authorization {
        Some(k) => endpoint_needs_key(e) && k@ == key,
        None => !endpoint_needs_key(e),
    }
    &&& match r.body {
        Some(b) => endpoint_body(e) == Some(b@),
        None => endpoint_body(e) is None,
    }
}

impl NewOrder {
    /// The JSON body that places this order.
    pub fn to_json(&self) -> (r: String)
        ensures
            r@ == new_order_json(*self),
    {
        let mut s = String::from_str("{\"account\":");
        s.append(serde_string_literal(self.account.0.as_str()).as_str());
        s.append(",\"venue\":");
        s.append(serde_string_literal(self.venue.0.as_str()).as_str());
        s.append(",\"stock\":");
        s.append(serde_string_literal(self.stock.0.as_str()).as_str());
        s.append(",\"qty\":");
        s.append(usize_to_decimal(self.qty.0).as_str());
        s.append(",\"price\":");
        s.append(usize_to_decimal(self.price.0).as_str());
        s.append(",\"direction\":");
        s.append(serde_string_literal(self.direction.as_str()).as_str());
        s.append(",\"orderType\":");
        s.append(serde_string_literal(self.order_type.as_str()).as_str());
        s.append("}");
        assert(s@ =~= new_order_json(*self));
        s
    }
}

fn venue_url_of(venue: &Venue) -> (r: String)
    ensures
        r@ == venue_url(*venue),
{
    let mut s = String::from_str("https://api.stockfighter.io/ob/api/");
    s.append("venues/");
    s.append(venue.0.as_str());
    s
}

fn stock_url_of(venue: &Venue, stock: &Symbol) -> (r: String)
    ensures
        r@ == stock_url(*venue, *stock),
{
    let mut s = venue_url_of(venue);
    s.append("/stocks/");
    s.append(stock.0.as_str());
    s
}

fn account_url_of(venue: &Venue, account: &Account) -> (r: String)
    ensures
        r@ == account_url(*venue, *account),
{
    let mut s = venue_url_of(venue);
    s.append("/accounts/");
    s.append(account.0.as_str());
    s
}

fn url_of(e: &Endpoint) -> (r: String)
    ensures
        r@ == endpoint_url(*e),
{
    match e {
        Endpoint::ApiHeartbeat => String::from_str("https://api.stockfighter.io/ob/api/").concat("heartbeat"),
        Endpoint::VenueHeartbeat(v) => venue_url_of(v).concat("/heartbeat"),
        Endpoint::StocksOnVenue(v) => venue_url_of(v).concat("/stocks"),
        Endpoint::Orderbook(v, s) => stock_url_of(v, s),
        Endpoint::NewOrder(o) => stock_url_of(&o.venue, &o.stock).concat("/orders"),
        Endpoint::Quote(v, s) => stock_url_of(v, s).concat("/quote"),
        Endpoint::StatusForExistingOrder(id, v, s) => {
            let u = stock_url_of(v, s).concat("/orders/");
            u.concat(usize_to_decimal(id.0).as_str())
        },
        Endpoint::CancelOrder(v, s, id) => {
            let u = stock_url_of(v, s).concat("/orders/");
            u.concat(usize_to_decimal(id.0).as_str())
        },
        Endpoint::StatusForAllOrders(v, a) => account_url_of(v, a).concat("/orders"),
        Endpoint::StatusForAllOrdersInAStock(v, a, s) => {
            let u = account_url_of(v, a).concat("/stocks/");
            u.concat(s.0.as_str()).concat("/orders")
        },
    }
}

/// A client's credentials: the API key that authorised endpoints are sent.
pub struct StockFighter {
    api_key: String,
}

impl StockFighter {
    /// The API key this client sends.
    pub closed spec fn key(&self) -> Seq<char> {
        self.api_key@
    }

    /// A client that sends `api_key`.
    pub fn new(api_key: String) -> (r: StockFighter)
        ensures
            r.key() == api_key@,
    {
        StockFighter { api_key }
    }

    /// The API key this client sends.
    pub fn api_key(&self) -> (r: &str)
        ensures
            r@ == self.key(),
    {
        self.api_key.as_str()
    }

    /// The request that calls `e`.
    pub fn request(&self, e: &Endpoint) -> (r: Request)
        ensures
            is_request_for(r, self.key(), *e),
            (r.method == Method::Post) <==> (*e is NewOrder),
            (r.method == Method::Delete) <==> (*e is CancelOrder),
    {
        let method = match e {
            Endpoint::NewOrder(_) => Method::Post,
            Endpoint::CancelOrder(..) => Method::Delete,
            _ => Method::Get,
        };
        let authorization = match e {
            Endpoint::ApiHeartbeat => None,
            Endpoint::VenueHeartbeat(_) => None,
            _ => Some(self.api_key.clone()),
        };
        let body = match e {
            Endpoint::NewOrder(o) => Some(o.to_json()),
            _ => None,
        };
        Request { method, url: url_of(e), authorization, body }
    }
}

/// The header that carries the API key.
pub fn auth_header() -> (r: &'static str)
    ensures
        r@ == auth_header_name(),
{
    "X-Starfighter-Authorization"
}

/// The feed root of an account on a venue.
pub open spec fn feed_url(account: Account, venue: Venue) -> Seq<char> {
    ws_base() + account.0@ + "/venues/"@ + venue.0@
}

fn feed_url_of(account: &Account, venue: &Venue) -> (r: String)
    ensures
        r@ == feed_url(*account, *venue),
{
    let mut s = String::from_str("wss://api.stockfighter.io/ob/api/ws/");
    s.append(account.0.as_str());
    s.append("/venues/");
    s.append(venue.0.as_str());
    s
}

/// The quotes feed of every stock on a venue.
pub fn quotes_ws_url(account: &Account, venue: &Venue) -> (r: String)
    ensures
        r@ == "wss://api.stockfighter.io/ob/api/ws/"@ + account.0@ + "/venues/"@ + venue.0@ + "/tickertape"@,
{
    feed_url_of(account, venue).concat("/tickertape")
}

/// The quotes feed of one stock on a venue.
pub fn quotes_stock_ws_url(account: &Account, venue: &Venue, stock: &Symbol) -> (r: String)
    ensures
        r@ == "wss://api.stockfighter.io/ob/api/ws/"@ + account.0@ + "/venues/"@ + venue.0@ + "/tickertape/stocks/"@
            + stock.0@,
{
    feed_url_of(account, venue).concat("/tickertape/stocks/").concat(stock.0.as_str())
}

/// The executions feed of an account on a venue.
pub fn fills_ws_url(account: &Account, venue: &Venue) -> (r: String)
    ensures
        r@ == "wss://api.stockfighter.io/ob/api/ws/"@ + account.0@ + "/venues/"@ + venue.0@ + "/executions"@,
{
    feed_url_of(account, venue).concat("/executions")
}

/// The executions feed of an account for one stock on a venue.
pub fn fills_stock_ws_url(account: &Account, venue: &Venue, stock: &Symbol) -> (r: String)
    ensures
        r@ == "wss://api.stockfighter.io/ob/api/ws/"@ + account.0@ + "/venues/"@ + venue.0@ + "/executions/stocks/"@
            + stock.0@,
{
    feed_url_of(account, venue).concat("/executions/stocks/").concat(stock.0.as_str())
}

} // verus!
