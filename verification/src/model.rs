//! The records that StockFighter sends and receives.

use vstd::prelude::*;
use crate::newtypes::{
    Account, Ask, AskDepth, AskSize, Bid, BidDepth, BidSize, Filled, IncomingComplete, IncomingId,
    IsBuy, Last, LastSize, OrderId, OrderOpen, OriginalQty, Price, Qty, StandingComplete, StandingId,
    Symbol, TotalFilled, Venue,
};
use crate::orders::{Direction, OrderType};
use crate::time::DTUTC;
use vstd::std_specs::convert::FromSpecImpl;

verus! {

/// A reply that only says whether the call went well, and why not.
#[derive(Debug, PartialEq, Clone)]
pub struct ErrMsg {
    pub ok: bool,
    pub error: String,
}

/// The reply to the API heartbeat.
#[derive(Debug, PartialEq, Clone)]
pub struct ApiHeartbeat(pub ErrMsg);

/// The reply to a venue heartbeat when the venue is up.
#[derive(Debug, PartialEq, Clone)]
pub struct VenueOk {
    pub ok: bool,
    pub venue: Venue,
}

/// The stocks traded on a venue.
#[derive(Debug, PartialEq, Clone)]
pub struct Stocks {
    pub ok: bool,
    pub symbols: Vec<SymbolName>,
}

/// A stock's full name and its ticker symbol.
#[derive(Debug, PartialEq, Clone)]
pub struct SymbolName {
    pub name: String,
    pub symbol: Symbol,
}

/// The order book of one stock on one venue.
#[derive(Debug, PartialEq, Clone)]
pub struct Orderbook {
    pub ok: bool,
    pub venue: Venue,
    pub symbol: Symbol,
    pub bids: Bids,
    pub asks: Asks,
    pub ts: DTUTC,
}

/// The bid side of a book.
#[derive(Debug, PartialEq, Clone)]
pub struct Bids(pub Vec<Position>);

/// The ask side of a book.
#[derive(Debug, PartialEq, Clone)]
pub struct Asks(pub Vec<Position>);

/// One level of a book.
#[derive(Debug, PartialEq, Clone)]
pub struct Position {
    pub price: Price,
    pub qty: Qty,
    pub is_buy: IsBuy,
}

/// An order as the venue reports it.
#[derive(Debug, PartialEq, Clone)]
pub struct Order {
    pub ok: bool,
    pub symbol: Symbol,
    pub venue: Venue,
    pub direction: Direction,
    pub original_qty: OriginalQty,
    pub qty: Qty,
    pub price: Price,
    pub order_type: OrderType,
    pub id: OrderId,
    pub account: Account,
    pub ts: DTUTC,
    pub fills: Vec<Fill>,
    pub total_filled: TotalFilled,
    pub open: OrderOpen,
}

/// One execution against an order.
#[derive(Debug, PartialEq, Clone)]
pub struct Fill {
    pub price: Price,
    pub qty: Qty,
    pub ts: DTUTC,
}

/// The order that is sent to place a new order.
#[derive(Debug, PartialEq, Clone)]
pub struct NewOrder {
    pub account: Account,
    pub venue: Venue,
    pub stock: Symbol,
    pub qty: Qty,
    pub price: Price,
    pub direction: Direction,
    pub order_type: OrderType,
}

/// The orders of an account on a venue.
#[derive(Debug, PartialEq, Clone)]
pub struct Status {
    pub ok: bool,
    pub venue: Venue,
    pub orders: Vec<Order>,
}

/// A quote for a stock.
#[derive(Debug, PartialEq, Clone)]
pub struct QuoteM {
    pub symbol: Symbol,
    pub venue: Venue,
    pub these_quotes: TheseQuotes,
    pub last: Last,
    pub last_size: LastSize,
    pub last_trade: DTUTC,
    pub quote_time: DTUTC,
}

/// Which sides of the book a quote has: a bid, an ask, both, or neither.
#[derive(Debug, PartialEq, Clone)]
pub enum TheseQuotes {
    ThisBid(BidStruct),
    ThatAsk(AskStruct),
    TheseQuotes(BidStruct, AskStruct),
    Empty,
}

/// The bid side of a quote.
#[derive(Debug, PartialEq, Clone, Copy, Structural)]
pub struct BidStruct {
    pub bid: Bid,
    pub bid_size: BidSize,
    pub bid_depth: BidDepth,
}

/// The ask side of a quote.
#[derive(Debug, PartialEq, Clone, Copy, Structural)]
pub struct AskStruct {
    pub ask: Ask,
    pub ask_size: AskSize,
    pub ask_depth: AskDepth,
}

/// A fill as the executions feed reports it.
#[derive(Debug, PartialEq, Clone)]
pub struct FillsWS {
    pub ok: bool,
    pub account: Account,
    pub venue: Venue,
    pub symbol: Symbol,
    pub order: Order,
    pub standing_id: StandingId,
    pub incoming_id: IncomingId,
    pub price: Price,
    pub filled: Filled,
    pub filled_at: DTUTC,
    pub standing_complete: StandingComplete,
    pub incoming_complete: IncomingComplete,
}

impl core::ops::Deref for ApiHeartbeat {
    type Target = ErrMsg;

    fn deref(&self) -> (r: &ErrMsg)
        ensures
            *r == self.0,
    {
        &self.0
    }
}

impl From<ErrMsg> for ApiHeartbeat {
    fn from(v: ErrMsg) -> (r: ApiHeartbeat) {
        ApiHeartbeat(v)
    }
}

impl FromSpecImpl<ErrMsg> for ApiHeartbeat {
    open spec fn obeys_from_spec() -> bool {
        true
    }

    open spec fn from_spec(v: ErrMsg) -> ApiHeartbeat {
        ApiHeartbeat(v)
    }
}

impl From<ApiHeartbeat> for ErrMsg {
    fn from(v: ApiHeartbeat) -> (r: ErrMsg) {
        v.0
    }
}

impl FromSpecImpl<ApiHeartbeat> for ErrMsg {
    open spec fn obeys_from_spec() -> bool {
        true
    }

    open spec fn from_spec(v: ApiHeartbeat) -> ErrMsg {
        v.0
    }
}

impl core::ops::Deref for Bids {
    type Target = Vec<Position>;

    fn deref(&self) -> (r: &Vec<Position>)
        ensures
            *r == self.0,
    {
        &self.0
    }
}

impl From<Vec<Position>> for Bids {
    fn from(v: Vec<Position>) -> (r: Bids) {
        Bids(v)
    }
}

impl FromSpecImpl<Vec<Position>> for Bids {
    open spec fn obeys_from_spec() -> bool {
        true
    }

    open spec fn from_spec(v: Vec<Position>) -> Bids {
        Bids(v)
    }
}

impl From<Bids> for Vec<Position> {
    fn from(v: Bids) -> (r: Vec<Position>) {
        v.0
    }
}

impl FromSpecImpl<Bids> for Vec<Position> {
    open spec fn obeys_from_spec() -> bool {
        true
    }

    open spec fn from_spec(v: Bids) -> Vec<Position> {
        v.0
    }
}

impl core::ops::Deref for Asks {
    type Target = Vec<Position>;

    fn deref(&self) -> (r: &Vec<Position>)
        ensures
            *r == self.0,
    {
        &self.0
    }
}

impl From<Vec<Position>> for Asks {
    fn from(v: Vec<Position>) -> (r: Asks) {
        Asks(v)
    }
}

impl FromSpecImpl<Vec<Position>> for Asks {
    open spec fn obeys_from_spec() -> bool {
        true
    }

    open spec fn from_spec(v: Vec<Position>) -> Asks {
        Asks(v)
    }
}

impl From<Asks> for Vec<Position> {
    fn from(v: Asks) -> (r: Vec<Position>) {
        v.0
    }
}

impl FromSpecImpl<Asks> for Vec<Position> {
    open spec fn obeys_from_spec() -> bool {
        true
    }

    open spec fn from_spec(v: Asks) -> Vec<Position> {
        v.0
    }
}

} // verus!
