//! The replies of each endpoint: which variant a status code selects, and
//! the variant accessors.

use vstd::prelude::*;
use crate::model::{ApiHeartbeat, ErrMsg, Order, Orderbook, QuoteM, Status, Stocks, VenueOk};
use crate::quote::{quote_of_text, str_to_quote, try_str_to_quote};

verus! {

/// hyper's error for a request that could not be made or answered.
#[verifier::external_type_specification]
#[verifier::external_body]
pub struct ExHyperError(hyper::Error);

/// The outcome of a call: `Err` where the request itself failed; `Ok(Err(s))`
/// where the server answered with a status `s` the endpoint does not
/// anticipate; `Ok(Ok(reply))` otherwise.
pub struct HyperResult<T>(pub Result<Result<T, u16>, hyper::Error>);

impl<T> HyperResult<T> {
    /// The reply of a call that went through and got an anticipated status.
    pub fn all_ok(self) -> (r: T)
        requires
            self.0 matches Ok(Ok(_)),
        ensures
            self.0 matches Ok(Ok(x)) && x == r,
    {
        match self.0 {
            Ok(Ok(res)) => res,
            _ => vstd::pervasive::unreached(),
        }
    }
}

impl ApiHeartbeat {
    /// Status 200 gives the body read by `ok`; any other status is handed
    /// back as the error.
    pub fn from_reply<F>(status: u16, body: &str, ok: F) -> (r: Result<ApiHeartbeat, u16>)
        where
            F: Fn(&str) -> ApiHeartbeat,
        requires
            status == 200 ==> ok.requires((body,)),
        ensures
            match r {
                Ok(h) => status == 200 && ok.ensures((body,), h),
                Err(s) => s == status && status != 200,
            },
    {
        if status == 200 {
            Ok(ok(body))
        } else {
            Err(status)
        }
    }
}

/// The reply to a venue heartbeat.
#[derive(Debug, PartialEq, Clone)]
pub enum VenueHeartbeat {
    R200(VenueOk),
    R500(ErrMsg),
    R404(ErrMsg),
}

impl VenueHeartbeat {
    /// Selects the variant by status: 200 gives `R200`, 500 gives `R500`, 404 gives `R404`, each with the body read by
    /// `ok` (for 200) or `err`; any other status is handed back as the error.
    pub fn from_reply<F, G>(status: u16, body: &str, ok: F, err: G) -> (r: Result<VenueHeartbeat, u16>)
        where
            F: Fn(&str) -> VenueOk,
            G: Fn(&str) -> ErrMsg,
        requires
            status == 200 ==> ok.requires((body,)),
            status == 500 || status == 404 ==> err.requires((body,)),
        ensures
            match r {
                Ok(VenueHeartbeat::R200(x)) => status == 200 && ok.ensures((body,), x),
                Ok(VenueHeartbeat::R500(x)) => status == 500 && err.ensures((body,), x),
                Ok(VenueHeartbeat::R404(x)) => status == 404 && err.ensures((body,), x),
                Err(s) => s == status && status != 200 && status != 500 && status != 404,
            },
    {
        if status == 200 {
            Ok(VenueHeartbeat::R200(ok(body)))
        } else if status == 500 {
            Ok(VenueHeartbeat::R500(err(body)))
        } else if status == 404 {
            Ok(VenueHeartbeat::R404(err(body)))
        } else {
            Err(status)
        }
    }

    /// The body of a 200 reply; the reply must be one.
    pub fn from_200(self) -> (r: VenueOk)
        requires
            self is R200,
        ensures
            self == VenueHeartbeat::R200(r),
    {
        match self {
            VenueHeartbeat::R200(s) => s,
            _ => vstd::pervasive::unreached(),
        }
    }

    /// The body of a 500 reply; the reply must be one.
    pub fn from_500(self) -> (r: ErrMsg)
        requires
            self is R500,
        ensures
            self == VenueHeartbeat::R500(r),
    {
        match self {
            VenueHeartbeat::R500(s) => s,
            _ => vstd::pervasive::unreached(),
        }
    }

    /// The body of a 404 reply; the reply must be one.
    pub fn from_404(self) -> (r: ErrMsg)
        requires
            self is R404,
        ensures
            self == VenueHeartbeat::R404(r),
    {
        match self {
            VenueHeartbeat::R404(s) => s,
            _ => vstd::pervasive::unreached(),
        }
    }
}

/// The reply listing the stocks of a venue.
#[derive(Debug, PartialEq, Clone)]
pub enum StocksOnVenue {
    R200(Stocks),
    R404(ErrMsg),
}

impl StocksOnVenue {
    /// Selects the variant by status: 200 gives `R200`, 404 gives `R404`, each with the body read by
    /// `ok` (for 200) or `err`; any other status is handed back as the error.
    pub fn from_reply<F, G>(status: u16, body: &str, ok: F, err: G) -> (r: Result<StocksOnVenue, u16>)
        where
            F: Fn(&str) -> Stocks,
            G: Fn(&str) -> ErrMsg,
        requires
            status == 200 ==> ok.requires((body,)),
            status == 404 ==> err.requires((body,)),
        ensures
            match r {
                Ok(StocksOnVenue::R200(x)) => status == 200 && ok.ensures((body,), x),
                Ok(StocksOnVenue::R404(x)) => status == 404 && err.ensures((body,), x),
                Err(s) => s == status && status != 200 && status != 404,
            },
    {
        if status == 200 {
            Ok(StocksOnVenue::R200(ok(body)))
        } else if status == 404 {
            Ok(StocksOnVenue::R404(err(body)))
        } else {
            Err(status)
        }
    }

    /// The body of a 200 reply; the reply must be one.
    pub fn from_200(self) -> (r: Stocks)
        requires
            self is R200,
        ensures
            self == StocksOnVenue::R200(r),
    {
        match self {
            StocksOnVenue::R200(s) => s,
            _ => vstd::pervasive::unreached(),
        }
    }

    /// The body of a 404 reply; the reply must be one.
    pub fn from_404(self) -> (r: ErrMsg)
        requires
            self is R404,
        ensures
            self == StocksOnVenue::R404(r),
    {
        match self {
            StocksOnVenue::R404(s) => s,
            _ => vstd::pervasive::unreached(),
        }
    }
}

/// The reply holding the order book of a stock.
#[derive(Debug, PartialEq, Clone)]
pub enum OrderbookForAStock {
    R200(Orderbook),
    R404(ErrMsg),
}

impl OrderbookForAStock {
    /// Selects the variant by status: 200 gives `R200`, 404 gives `R404`, each with the body read by
    /// `ok` (for 200) or `err`; any other status is handed back as the error.
    pub fn from_reply<F, G>(status: u16, body: &str, ok: F, err: G) -> (r: Result<OrderbookForAStock, u16>)
        where
            F: Fn(&str) -> Orderbook,
            G: Fn(&str) -> ErrMsg,
        requires
            status == 200 ==> ok.requires((body,)),
            status == 404 ==> err.requires((body,)),
        ensures
            match r {
                Ok(OrderbookForAStock::R200(x)) => status == 200 && ok.ensures((body,), x),
                Ok(OrderbookForAStock::R404(x)) => status == 404 && err.ensures((body,), x),
                Err(s) => s == status && status != 200 && status != 404,
            },
    {
        if status == 200 {
            Ok(OrderbookForAStock::R200(ok(body)))
        } else if status == 404 {
            Ok(OrderbookForAStock::R404(err(body)))
        } else {
            Err(status)
        }
    }

    /// The body of a 200 reply; the reply must be one.
    pub fn from_200(self) -> (r: Orderbook)
        requires
            self is R200,
        ensures
            self == OrderbookForAStock::R200(r),
    {
        match self {
            OrderbookForAStock::R200(s) => s,
            _ => vstd::pervasive::unreached(),
        }
    }

    /// The body of a 404 reply; the reply must be one.
    pub fn from_404(self) -> (r: ErrMsg)
        requires
            self is R404,
        ensures
            self == OrderbookForAStock::R404(r),
    {
        match self {
            OrderbookForAStock::R404(s) => s,
            _ => vstd::pervasive::unreached(),
        }
    }
}

/// The reply holding the status of one order.
#[derive(Debug, PartialEq, Clone)]
pub enum StatusForAnExistingOrder {
    R200(Order),
    R401(ErrMsg),
}

impl StatusForAnExistingOrder {
    /// Selects the variant by status: 200 gives `R200`, 401 gives `R401`, each with the body read by
    /// `ok` (for 200) or `err`; any other status is handed back as the error.
    pub fn from_reply<F, G>(status: u16, body: &str, ok: F, err: G) -> (r: Result<StatusForAnExistingOrder, u16>)
        where
            F: Fn(&str) -> Order,
            G: Fn(&str) -> ErrMsg,
        requires
            status == 200 ==> ok.requires((body,)),
            status == 401 ==> err.requires((body,)),
        ensures
            match r {
                Ok(StatusForAnExistingOrder::R200(x)) => status == 200 && ok.ensures((body,), x),
                Ok(StatusForAnExistingOrder::R401(x)) => status == 401 && err.ensures((body,), x),
                Err(s) => s == status && status != 200 && status != 401,
            },
    {
        if status == 200 {
            Ok(StatusForAnExistingOrder::R200(ok(body)))
        } else if status == 401 {
            Ok(StatusForAnExistingOrder::R401(err(body)))
        } else {
            Err(status)
        }
    }

    /// The body of a 200 reply; the reply must be one.
    pub fn from_200(self) -> (r: Order)
        requires
            self is R200,
        ensures
            self == StatusForAnExistingOrder::R200(r),
    {
        match self {
            StatusForAnExistingOrder::R200(s) => s,
            _ => vstd::pervasive::unreached(),
        }
    }

    /// The body of a 401 reply; the reply must be one.
    pub fn from_401(self) -> (r: ErrMsg)
        requires
            self is R401,
        ensures
            self == StatusForAnExistingOrder::R401(r),
    {
        match self {
            StatusForAnExistingOrder::R401(s) => s,
            _ => vstd::pervasive::unreached(),
        }
    }
}

/// The reply to cancelling an order.
#[derive(Debug, PartialEq, Clone)]
pub enum CancelAnOrder {
    R200(Order),
    R401(ErrMsg),
}

impl CancelAnOrder {
    /// Selects the variant by status: 200 gives `R200`, 401 gives `R401`, each with the body read by
    /// `ok` (for 200) or `err`; any other status is handed back as the error.
    pub fn from_reply<F, G>(status: u16, body: &str, ok: F, err: G) -> (r: Result<CancelAnOrder, u16>)
        where
            F: Fn(&str) -> Order,
            G: Fn(&str) -> ErrMsg,
        requires
            status == 200 ==> ok.requires((body,)),
            status == 401 ==> err.requires((body,)),
        ensures
            match r {
                Ok(CancelAnOrder::R200(x)) => status == 200 && ok.ensures((body,), x),
                Ok(CancelAnOrder::R401(x)) => status == 401 && err.ensures((body,), x),
                Err(s) => s == status && status != 200 && status != 401,
            },
    {
        if status == 200 {
            Ok(CancelAnOrder::R200(ok(body)))
        } else if status == 401 {
            Ok(CancelAnOrder::R401(err(body)))
        } else {
            Err(status)
        }
    }

    /// The body of a 200 reply; the reply must be one.
    pub fn from_200(self) -> (r: Order)
        requires
            self is R200,
        ensures
            self == CancelAnOrder::R200(r),
    {
        match self {
            CancelAnOrder::R200(s) => s,
            _ => vstd::pervasive::unreached(),
        }
    }

    /// The body of a 401 reply; the reply must be one.
    pub fn from_401(self) -> (r: ErrMsg)
        requires
            self is R401,
        ensures
            self == CancelAnOrder::R401(r),
    {
        match self {
            CancelAnOrder::R401(s) => s,
            _ => vstd::pervasive::unreached(),
        }
    }
}

/// The reply holding the orders of an account on a venue.
#[derive(Debug, PartialEq, Clone)]
pub enum StatusForAllOrders {
    R200(Status),
    R401(ErrMsg),
}

impl StatusForAllOrders {
    /// Selects the variant by status: 200 gives `R200`, 401 gives `R401`, each with the body read by
    /// `ok` (for 200) or `err`; any other status is handed back as the error.
    pub fn from_reply<F, G>(status: u16, body: &str, ok: F, err: G) -> (r: Result<StatusForAllOrders, u16>)
        where
            F: Fn(&str) -> Status,
            G: Fn(&str) -> ErrMsg,
        requires
            status == 200 ==> ok.requires((body,)),
            status == 401 ==> err.requires((body,)),
        ensures
            match r {
                Ok(StatusForAllOrders::R200(x)) => status == 200 && ok.ensures((body,), x),
                Ok(StatusForAllOrders::R401(x)) => status == 401 && err.ensures((body,), x),
                Err(s) => s == status && status != 200 && status != 401,
            },
    {
        if status == 200 {
            Ok(StatusForAllOrders::R200(ok(body)))
        } else if status == 401 {
            Ok(StatusForAllOrders::R401(err(body)))
        } else {
            Err(status)
        }
    }

    /// The body of a 200 reply; the reply must be one.
    pub fn from_200(self) -> (r: Status)
        requires
            self is R200,
        ensures
            self == StatusForAllOrders::R200(r),
    {
        match self {
            StatusForAllOrders::R200(s) => s,
            _ => vstd::pervasive::unreached(),
        }
    }

    /// The body of a 401 reply; the reply must be one.
    pub fn from_401(self) -> (r: ErrMsg)
        requires
            self is R401,
        ensures
            self == StatusForAllOrders::R401(r),
    {
        match self {
            StatusForAllOrders::R401(s) => s,
            _ => vstd::pervasive::unreached(),
        }
    }
}

/// The reply holding the orders of an account in one stock.
#[derive(Debug, PartialEq, Clone)]
pub enum StatusForAllOrdersInAStock {
    R200(Status),
    R401(ErrMsg),
}

impl StatusForAllOrdersInAStock {
    /// Selects the variant by status: 200 gives `R200`, 401 gives `R401`, each with the body read by
    /// `ok` (for 200) or `err`; any other status is handed back as the error.
    pub fn from_reply<F, G>(status: u16, body: &str, ok: F, err: G) -> (r: Result<StatusForAllOrdersInAStock, u16>)
        where
            F: Fn(&str) -> Status,
            G: Fn(&str) -> ErrMsg,
        requires
            status == 200 ==> ok.requires((body,)),
            status == 401 ==> err.requires((body,)),
        ensures
            match r {
                Ok(StatusForAllOrdersInAStock::R200(x)) => status == 200 && ok.ensures((body,), x),
                Ok(StatusForAllOrdersInAStock::R401(x)) => status == 401 && err.ensures((body,), x),
                Err(s) => s == status && status != 200 && status != 401,
            },
    {
        if status == 200 {
            Ok(StatusForAllOrdersInAStock::R200(ok(body)))
        } else if status == 401 {
            Ok(StatusForAllOrdersInAStock::R401(err(body)))
        } else {
            Err(status)
        }
    }

    /// The body of a 200 reply; the reply must be one.
    pub fn from_200(self) -> (r: Status)
        requires
            self is R200,
        ensures
            self == StatusForAllOrdersInAStock::R200(r),
    {
        match self {
            StatusForAllOrdersInAStock::R200(s) => s,
            _ => vstd::pervasive::unreached(),
        }
    }

    /// The body of a 401 reply; the reply must be one.
    pub fn from_401(self) -> (r: ErrMsg)
        requires
            self is R401,
        ensures
            self == StatusForAllOrdersInAStock::R401(r),
    {
        match self {
            StatusForAllOrdersInAStock::R401(s) => s,
            _ => vstd::pervasive::unreached(),
        }
    }
}

/// The reply to placing an order.
#[derive(Debug, PartialEq, Clone)]
pub enum NewOrderForAStock {
    R200(Order),
    R404(ErrMsg),
    R200Err(ErrMsg),
}

impl NewOrderForAStock {
    /// Selects the variant by status: 400 gives `R404` with the body read by
    /// `err`; 200 gives `R200` with the order `order` reads from the body,
    /// or `R200Err` with the body read by `err` where `order` reads none; any
    /// other status is handed back as the error.
    pub fn from_reply<F, G>(status: u16, body: &str, order: F, err: G) -> (r: Result<NewOrderForAStock, u16>)
        where
            F: Fn(&str) -> Option<Order>,
            G: Fn(&str) -> ErrMsg,
        requires
            status == 200 ==> order.requires((body,)),
            status == 400 ==> err.requires((body,)),
            status == 200 ==> forall|o: Option<Order>|
                #[trigger] order.ensures((body,), o) && o is None ==> err.requires((body,)),
        ensures
            match r {
                Ok(NewOrderForAStock::R200(o)) => status == 200 && order.ensures((body,), Some(o)),
                Ok(NewOrderForAStock::R200Err(e)) => status == 200 && order.ensures((body,), None::<Order>)
                    && err.ensures((body,), e),
                Ok(NewOrderForAStock::R404(e)) => status == 400 && err.ensures((body,), e),
                Err(s) => s == status && status != 200 && status != 400,
            },
    {
        if status == 400 {
            Ok(NewOrderForAStock::R404(err(body)))
        } else if status == 200 {
            match order(body) {
                Some(o) => Ok(NewOrderForAStock::R200(o)),
                None => Ok(NewOrderForAStock::R200Err(err(body))),
            }
        } else {
            Err(status)
        }
    }


    /// The body of a 200 reply that holds an order; the reply must be one.
    pub fn from_200(self) -> (r: Order)
        requires
            self is R200,
        ensures
            self == NewOrderForAStock::R200(r),
    {
        match self {
            NewOrderForAStock::R200(s) => s,
            _ => vstd::pervasive::unreached(),
        }
    }

    /// The body of a 400 reply (the `R404` variant); the reply must be one.
    pub fn from_404(self) -> (r: ErrMsg)
        requires
            self is R404,
        ensures
            self == NewOrderForAStock::R404(r),
    {
        match self {
            NewOrderForAStock::R404(s) => s,
            _ => vstd::pervasive::unreached(),
        }
    }

    /// The body of a 200 reply that holds an error message; the reply must be one.
    pub fn from_200_err(self) -> (r: ErrMsg)
        requires
            self is R200Err,
        ensures
            self == NewOrderForAStock::R200Err(r),
    {
        match self {
            NewOrderForAStock::R200Err(s) => s,
            _ => vstd::pervasive::unreached(),
        }
    }
}

/// The reply holding a quote for a stock.
#[derive(Debug, PartialEq, Clone)]
pub enum QuoteForAStock {
    R200(QuoteM),
    R404(ErrMsg),
}

impl QuoteForAStock {
    /// Selects the variant by status: 200 gives `R200` with the quote the
    /// body holds (it must hold one), 404 gives `R404` with the body read by
    /// `err`; any other status is handed back as the error.
    pub fn from_reply<G>(status: u16, body: &str, err: G) -> (r: Result<QuoteForAStock, u16>)
        where
            G: Fn(&str) -> ErrMsg,
        requires
            status == 200 ==> quote_of_text(body@) is Some,
            status == 404 ==> err.requires((body,)),
        ensures
            match r {
                Ok(QuoteForAStock::R200(q)) => status == 200 && quote_of_text(body@) == Some(q),
                Ok(QuoteForAStock::R404(e)) => status == 404 && err.ensures((body,), e),
                Err(s) => s == status && status != 200 && status != 404,
            },
    {
        if status == 200 {
            Ok(QuoteForAStock::R200(str_to_quote(body)))
        } else if status == 404 {
            Ok(QuoteForAStock::R404(err(body)))
        } else {
            Err(status)
        }
    }

    /// As `from_reply`, but gives `None` where a 200 body holds no quote.
    pub fn try_from_reply<G>(status: u16, body: &str, err: G) -> (r: Option<Result<QuoteForAStock, u16>>)
        where
            G: Fn(&str) -> ErrMsg,
        requires
            status == 404 ==> err.requires((body,)),
        ensures
            match r {
                None => status == 200 && quote_of_text(body@) is None,
                Some(Ok(QuoteForAStock::R200(q))) => status == 200 && quote_of_text(body@) == Some(q),
                Some(Ok(QuoteForAStock::R404(e))) => status == 404 && err.ensures((body,), e),
                Some(Err(s)) => s == status && status != 200 && status != 404,
            },
    {
        if status == 200 {
            match try_str_to_quote(body) {
                Some(_) => Some(QuoteForAStock::from_reply(status, body, err)),
                None => None,
            }
        } else {
            Some(QuoteForAStock::from_reply(status, body, err))
        }
    }

    /// The body of a 200 reply; the reply must be one.
    pub fn from_200(self) -> (r: QuoteM)
        requires
            self is R200,
        ensures
            self == QuoteForAStock::R200(r),
    {
        match self {
            QuoteForAStock::R200(s) => s,
            _ => vstd::pervasive::unreached(),
        }
    }

    /// The body of a 404 reply; the reply must be one.
    pub fn from_404(self) -> (r: ErrMsg)
        requires
            self is R404,
        ensures
            self == QuoteForAStock::R404(r),
    {
        match self {
            QuoteForAStock::R404(s) => s,
            _ => vstd::pervasive::unreached(),
        }
    }
}


} // verus!
