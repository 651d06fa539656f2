//! A verified core for the StockFighter trading-game API: the request each
//! call sends, the reply variant each status selects, the JSON body of a new
//! order, and the decoding of quotes.
//!
//! Sending requests and reading replies is left to the caller: this crate
//! says what to send and how to read what comes back.

pub mod text;
pub mod decimal;
pub mod orders;
pub mod newtypes;
pub mod time;
pub mod json;
pub mod model;
pub mod quote;
pub mod api;
pub mod responses;
pub mod laws;

pub use api::{
    Endpoint, Method, Request, StockFighter, auth_header, fills_stock_ws_url, fills_ws_url,
    quotes_stock_ws_url, quotes_ws_url,
};
pub use json::{Json, JsonNumber};
pub use model::{
    ApiHeartbeat, AskStruct, Asks, BidStruct, Bids, ErrMsg, Fill, FillsWS, NewOrder, Order,
    Orderbook, Position, QuoteM, Status, Stocks, SymbolName, TheseQuotes, VenueOk,
};
pub use newtypes::{
    Account, Ask, AskDepth, AskSize, Bid, BidDepth, BidSize, Filled, IncomingComplete, IncomingId,
    IsBuy, Last, LastSize, OrderId, OrderOpen, OriginalQty, Price, Qty, StandingComplete,
    StandingId, Symbol, TotalFilled, Venue,
};
pub use orders::{Direction, EError, OrderType};
pub use quote::{parse_ask, parse_bid, quote_from_json, str_to_quote, try_str_to_quote};
pub use responses::{
    CancelAnOrder, HyperResult, NewOrderForAStock, OrderbookForAStock, QuoteForAStock,
    StatusForAllOrders, StatusForAllOrdersInAStock, StatusForAnExistingOrder, StocksOnVenue,
    VenueHeartbeat,
};
pub use time::DTUTC;
