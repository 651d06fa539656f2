use stockfighter::{
    Account, ApiHeartbeat, CancelAnOrder, DTUTC, Direction, ErrMsg, HyperResult, NewOrderForAStock,
    Order, OrderId, OrderOpen, OrderType, Orderbook, OrderbookForAStock, OriginalQty, Price, Qty,
    QuoteForAStock, QuoteM, Status, StatusForAllOrders, StatusForAllOrdersInAStock,
    StatusForAnExistingOrder, Stocks, StocksOnVenue, Symbol, TheseQuotes, TotalFilled, Venue,
    VenueHeartbeat, VenueOk, Bids, Asks, Last, LastSize,
};

fn err_of(body: &str) -> ErrMsg {
    ErrMsg { ok: false, error: body.to_string() }
}

fn venue_ok(body: &str) -> VenueOk {
    VenueOk { ok: true, venue: Venue(body.to_string()) }
}

fn order_of(body: &str) -> Order {
    Order {
        ok: true,
        symbol: Symbol("CWI".to_string()),
        venue: Venue("CSJBEX".to_string()),
        direction: Direction::Sell,
        original_qty: OriginalQty(10),
        qty: Qty(0),
        price: Price(6000),
        order_type: OrderType::Limit,
        id: OrderId(body.len()),
        account: Account("BFB42332882".to_string()),
        ts: DTUTC { seconds: 1460643508, nanos: 579888777 },
        fills: vec![],
        total_filled: TotalFilled(10),
        open: OrderOpen(false),
    }
}

fn status_of(body: &str) -> Status {
    Status { ok: true, venue: Venue(body.to_string()), orders: vec![] }
}

#[test]
fn venue_heartbeat_statuses() {
    assert_eq!(
        VenueHeartbeat::from_reply(200, "TESTEX", venue_ok, err_of),
        Ok(VenueHeartbeat::R200(venue_ok("TESTEX")))
    );
    assert_eq!(
        VenueHeartbeat::from_reply(500, "down", venue_ok, err_of),
        Ok(VenueHeartbeat::R500(err_of("down")))
    );
    assert_eq!(
        VenueHeartbeat::from_reply(404, "no venue", venue_ok, err_of),
        Ok(VenueHeartbeat::R404(err_of("no venue")))
    );
    assert_eq!(VenueHeartbeat::from_reply(401, "x", venue_ok, err_of), Err(401));
    assert_eq!(VenueHeartbeat::from_reply(201, "x", venue_ok, err_of), Err(201));
    assert_eq!(VenueHeartbeat::R200(venue_ok("A")).from_200(), venue_ok("A"));
    assert_eq!(VenueHeartbeat::R500(err_of("B")).from_500(), err_of("B"));
    assert_eq!(VenueHeartbeat::R404(err_of("C")).from_404(), err_of("C"));
}

#[test]
fn api_heartbeat_statuses() {
    let ok = |b: &str| ApiHeartbeat(ErrMsg { ok: true, error: b.to_string() });
    assert_eq!(ApiHeartbeat::from_reply(200, "", ok), Ok(ApiHeartbeat(ErrMsg { ok: true, error: String::new() })));
    assert_eq!(ApiHeartbeat::from_reply(503, "", ok), Err(503));
}

#[test]
fn stocks_and_orderbook_statuses() {
    let stocks = |_: &str| Stocks { ok: true, symbols: vec![] };
    assert_eq!(StocksOnVenue::from_reply(200, "", stocks, err_of), Ok(StocksOnVenue::R200(stocks(""))));
    assert_eq!(StocksOnVenue::from_reply(404, "gone", stocks, err_of), Ok(StocksOnVenue::R404(err_of("gone"))));
    assert_eq!(StocksOnVenue::from_reply(500, "gone", stocks, err_of), Err(500));
    assert_eq!(StocksOnVenue::R404(err_of("z")).from_404(), err_of("z"));
    assert_eq!(StocksOnVenue::R200(stocks("")).from_200(), stocks(""));

    let book = |_: &str| Orderbook {
        ok: true,
        venue: Venue("V".to_string()),
        symbol: Symbol("S".to_string()),
        bids: Bids(vec![]),
        asks: Asks(vec![]),
        ts: DTUTC { seconds: 0, nanos: 0 },
    };
    assert_eq!(OrderbookForAStock::from_reply(200, "", book, err_of), Ok(OrderbookForAStock::R200(book(""))));
    assert_eq!(OrderbookForAStock::from_reply(404, "q", book, err_of), Ok(OrderbookForAStock::R404(err_of("q"))));
    assert_eq!(OrderbookForAStock::from_reply(401, "q", book, err_of), Err(401));
    assert_eq!(OrderbookForAStock::R200(book("")).from_200(), book(""));
    assert_eq!(OrderbookForAStock::R404(err_of("q")).from_404(), err_of("q"));
}

#[test]
fn new_order_statuses() {
    let order = |b: &str| if b.starts_with('{') { Some(order_of(b)) } else { None };
    assert_eq!(
        NewOrderForAStock::from_reply(200, "{}", order, err_of),
        Ok(NewOrderForAStock::R200(order_of("{}")))
    );
    assert_eq!(
        NewOrderForAStock::from_reply(200, "oops", order, err_of),
        Ok(NewOrderForAStock::R200Err(err_of("oops")))
    );
    assert_eq!(
        NewOrderForAStock::from_reply(400, "bad", order, err_of),
        Ok(NewOrderForAStock::R404(err_of("bad")))
    );
    assert_eq!(NewOrderForAStock::from_reply(404, "bad", order, err_of), Err(404));
    assert_eq!(NewOrderForAStock::R200(order_of("x")).from_200(), order_of("x"));
    assert_eq!(NewOrderForAStock::R404(err_of("x")).from_404(), err_of("x"));
    assert_eq!(NewOrderForAStock::R200Err(err_of("y")).from_200_err(), err_of("y"));
}

const QUOTE: &str = r#"{"ok":true,"quote":{"symbol":"FAC","venue":"OGEX","last":5125,"lastSize":52,"lastTrade":"2015-07-13T05:38:17.33640392Z","quoteTime":"2015-07-13T05:38:17.33640392Z"}}"#;

#[test]
fn quote_statuses() {
    let q = QuoteM {
        symbol: Symbol("FAC".to_string()),
        venue: Venue("OGEX".to_string()),
        these_quotes: TheseQuotes::Empty,
        last: Last(5125),
        last_size: LastSize(52),
        last_trade: DTUTC { seconds: 1436765897, nanos: 336403920 },
        quote_time: DTUTC { seconds: 1436765897, nanos: 336403920 },
    };
    assert_eq!(QuoteForAStock::from_reply(200, QUOTE, err_of), Ok(QuoteForAStock::R200(q.clone())));
    assert_eq!(QuoteForAStock::from_reply(404, "n", err_of), Ok(QuoteForAStock::R404(err_of("n"))));
    assert_eq!(QuoteForAStock::from_reply(400, "n", err_of), Err(400));
    assert_eq!(QuoteForAStock::try_from_reply(200, "no quote", err_of), None);
    assert_eq!(QuoteForAStock::try_from_reply(200, QUOTE, err_of), Some(Ok(QuoteForAStock::R200(q.clone()))));
    assert_eq!(QuoteForAStock::try_from_reply(500, "no quote", err_of), Some(Err(500)));
    assert_eq!(QuoteForAStock::R200(q.clone()).from_200(), q);
    assert_eq!(QuoteForAStock::R404(err_of("n")).from_404(), err_of("n"));
}

#[test]
fn order_status_statuses() {
    assert_eq!(
        StatusForAnExistingOrder::from_reply(200, "abc", order_of, err_of),
        Ok(StatusForAnExistingOrder::R200(order_of("abc")))
    );
    assert_eq!(
        StatusForAnExistingOrder::from_reply(401, "not yours", order_of, err_of),
        Ok(StatusForAnExistingOrder::R401(err_of("not yours")))
    );
    assert_eq!(StatusForAnExistingOrder::from_reply(404, "", order_of, err_of), Err(404));
    assert_eq!(StatusForAnExistingOrder::R401(err_of("a")).from_401(), err_of("a"));
    assert_eq!(StatusForAnExistingOrder::R200(order_of("a")).from_200(), order_of("a"));

    assert_eq!(CancelAnOrder::from_reply(200, "ab", order_of, err_of), Ok(CancelAnOrder::R200(order_of("ab"))));
    assert_eq!(CancelAnOrder::from_reply(401, "no", order_of, err_of), Ok(CancelAnOrder::R401(err_of("no"))));
    assert_eq!(CancelAnOrder::from_reply(500, "no", order_of, err_of), Err(500));
    assert_eq!(CancelAnOrder::R200(order_of("q")).from_200(), order_of("q"));
    assert_eq!(CancelAnOrder::R401(err_of("q")).from_401(), err_of("q"));
}

#[test]
fn account_status_statuses() {
    assert_eq!(StatusForAllOrders::from_reply(200, "V", status_of, err_of), Ok(StatusForAllOrders::R200(status_of("V"))));
    assert_eq!(StatusForAllOrders::from_reply(401, "no", status_of, err_of), Ok(StatusForAllOrders::R401(err_of("no"))));
    assert_eq!(StatusForAllOrders::from_reply(404, "no", status_of, err_of), Err(404));
    assert_eq!(StatusForAllOrders::R200(status_of("V")).from_200(), status_of("V"));
    assert_eq!(StatusForAllOrders::R401(err_of("V")).from_401(), err_of("V"));

    assert_eq!(
        StatusForAllOrdersInAStock::from_reply(200, "W", status_of, err_of),
        Ok(StatusForAllOrdersInAStock::R200(status_of("W")))
    );
    assert_eq!(
        StatusForAllOrdersInAStock::from_reply(401, "W", status_of, err_of),
        Ok(StatusForAllOrdersInAStock::R401(err_of("W")))
    );
    assert_eq!(StatusForAllOrdersInAStock::from_reply(302, "W", status_of, err_of), Err(302));
    assert_eq!(StatusForAllOrdersInAStock::R200(status_of("W")).from_200(), status_of("W"));
    assert_eq!(StatusForAllOrdersInAStock::R401(err_of("W")).from_401(), err_of("W"));
}

#[test]
fn all_ok_unwraps_a_good_reply() {
    let r: HyperResult<u32> = HyperResult(Ok(Ok(7)));
    assert_eq!(r.all_ok(), 7);
}
