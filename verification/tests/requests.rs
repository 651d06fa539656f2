use stockfighter::{
    Account, Direction, Endpoint, Method, NewOrder, OrderId, OrderType, Price, Qty, StockFighter,
    Symbol, Venue, auth_header, fills_stock_ws_url, fills_ws_url, quotes_stock_ws_url,
    quotes_ws_url,
};

fn sf() -> StockFighter {
    StockFighter::new("KEY123".to_string())
}

fn v(s: &str) -> Venue {
    Venue(s.to_string())
}

fn s(x: &str) -> Symbol {
    Symbol(x.to_string())
}

#[test]
fn api_heartbeat_request_has_no_key() {
    let r = sf().request(&Endpoint::ApiHeartbeat);
    assert_eq!(r.method, Method::Get);
    assert_eq!(r.url, "https://api.stockfighter.io/ob/api/heartbeat");
    assert_eq!(r.authorization, None);
    assert_eq!(r.body, None);
}

#[test]
fn venue_heartbeat_request_has_no_key() {
    let r = sf().request(&Endpoint::VenueHeartbeat(v("TESTEX")));
    assert_eq!(r.method, Method::Get);
    assert_eq!(r.url, "https://api.stockfighter.io/ob/api/venues/TESTEX/heartbeat");
    assert_eq!(r.authorization, None);
}

#[test]
fn stocks_on_venue_request() {
    let r = sf().request(&Endpoint::StocksOnVenue(v("TESTEX")));
    assert_eq!(r.method, Method::Get);
    assert_eq!(r.url, "https://api.stockfighter.io/ob/api/venues/TESTEX/stocks");
    assert_eq!(r.authorization, Some("KEY123".to_string()));
    assert_eq!(r.body, None);
}

#[test]
fn orderbook_request() {
    let r = sf().request(&Endpoint::Orderbook(v("TESTEX"), s("FOOBAR")));
    assert_eq!(r.url, "https://api.stockfighter.io/ob/api/venues/TESTEX/stocks/FOOBAR");
    assert_eq!(r.method, Method::Get);
    assert_eq!(r.authorization, Some("KEY123".to_string()));
}

#[test]
fn quote_request() {
    let r = sf().request(&Endpoint::Quote(v("TESTEX"), s("FOOBAR")));
    assert_eq!(r.url, "https://api.stockfighter.io/ob/api/venues/TESTEX/stocks/FOOBAR/quote");
    assert_eq!(r.method, Method::Get);
}

#[test]
fn existing_order_and_cancel_requests() {
    let r = sf().request(&Endpoint::StatusForExistingOrder(OrderId(1834), v("CSJBEX"), s("CWI")));
    assert_eq!(r.url, "https://api.stockfighter.io/ob/api/venues/CSJBEX/stocks/CWI/orders/1834");
    assert_eq!(r.method, Method::Get);
    let c = sf().request(&Endpoint::CancelOrder(v("CSJBEX"), s("CWI"), OrderId(0)));
    assert_eq!(c.url, "https://api.stockfighter.io/ob/api/venues/CSJBEX/stocks/CWI/orders/0");
    assert_eq!(c.method, Method::Delete);
    assert_eq!(c.authorization, Some("KEY123".to_string()));
}

#[test]
fn account_order_requests() {
    let r = sf().request(&Endpoint::StatusForAllOrders(v("TESTEX"), Account("EXB123456".to_string())));
    assert_eq!(r.url, "https://api.stockfighter.io/ob/api/venues/TESTEX/accounts/EXB123456/orders");
    let r2 = sf().request(&Endpoint::StatusForAllOrdersInAStock(
        v("TESTEX"),
        Account("EXB123456".to_string()),
        s("FOOBAR"),
    ));
    assert_eq!(
        r2.url,
        "https://api.stockfighter.io/ob/api/venues/TESTEX/accounts/EXB123456/stocks/FOOBAR/orders"
    );
    assert_eq!(r2.method, Method::Get);
}

fn sample_order() -> NewOrder {
    NewOrder {
        account: Account("EXB123456".to_string()),
        venue: v("TESTEX"),
        stock: s("FOOBAR"),
        qty: Qty(100),
        price: Price(5100),
        direction: Direction::Buy,
        order_type: OrderType::Limit,
    }
}

#[test]
fn new_order_request_posts_json_body() {
    let r = sf().request(&Endpoint::NewOrder(sample_order()));
    assert_eq!(r.method, Method::Post);
    assert_eq!(r.url, "https://api.stockfighter.io/ob/api/venues/TESTEX/stocks/FOOBAR/orders");
    assert_eq!(r.authorization, Some("KEY123".to_string()));
    assert_eq!(
        r.body,
        Some(
            "{\"account\":\"EXB123456\",\"venue\":\"TESTEX\",\"stock\":\"FOOBAR\",\"qty\":100,\"price\":5100,\"direction\":\"buy\",\"orderType\":\"limit\"}"
                .to_string()
        )
    );
}

#[test]
fn new_order_body_escapes_strings() {
    let mut o = sample_order();
    o.account = Account("a\"b\\c".to_string());
    o.direction = Direction::Sell;
    o.order_type = OrderType::ImmediateOrCancel;
    o.qty = Qty(0);
    assert_eq!(
        o.to_json(),
        "{\"account\":\"a\\\"b\\\\c\",\"venue\":\"TESTEX\",\"stock\":\"FOOBAR\",\"qty\":0,\"price\":5100,\"direction\":\"sell\",\"orderType\":\"immediate-or-cancel\"}"
    );
}

#[test]
fn api_key_is_kept() {
    assert_eq!(sf().api_key(), "KEY123");
    assert_eq!(auth_header(), "X-Starfighter-Authorization");
}

#[test]
fn websocket_urls() {
    let a = Account("ACC".to_string());
    let ven = v("VEN");
    let st = s("STK");
    assert_eq!(quotes_ws_url(&a, &ven), "wss://api.stockfighter.io/ob/api/ws/ACC/venues/VEN/tickertape");
    assert_eq!(
        quotes_stock_ws_url(&a, &ven, &st),
        "wss://api.stockfighter.io/ob/api/ws/ACC/venues/VEN/tickertape/stocks/STK"
    );
    assert_eq!(fills_ws_url(&a, &ven), "wss://api.stockfighter.io/ob/api/ws/ACC/venues/VEN/executions");
    assert_eq!(
        fills_stock_ws_url(&a, &ven, &st),
        "wss://api.stockfighter.io/ob/api/ws/ACC/venues/VEN/executions/stocks/STK"
    );
}

#[test]
fn different_orders_have_different_urls() {
    let a = sf().request(&Endpoint::StatusForExistingOrder(OrderId(12), v("X"), s("Y")));
    let b = sf().request(&Endpoint::StatusForExistingOrder(OrderId(123), v("X"), s("Y")));
    let c = sf().request(&Endpoint::CancelOrder(v("X"), s("Y"), OrderId(1)));
    assert_ne!(a.url, b.url);
    assert!(b.url.ends_with("/orders/123"));
    assert!(c.url.ends_with("/orders/1"));
}

#[test]
fn every_rest_url_is_under_the_api_root() {
    let o = sample_order();
    let all = vec![
        Endpoint::ApiHeartbeat,
        Endpoint::VenueHeartbeat(v("A")),
        Endpoint::StocksOnVenue(v("A")),
        Endpoint::Orderbook(v("A"), s("B")),
        Endpoint::NewOrder(o),
        Endpoint::Quote(v("A"), s("B")),
        Endpoint::StatusForExistingOrder(OrderId(5), v("A"), s("B")),
        Endpoint::CancelOrder(v("A"), s("B"), OrderId(5)),
        Endpoint::StatusForAllOrders(v("A"), Account("C".to_string())),
        Endpoint::StatusForAllOrdersInAStock(v("A"), Account("C".to_string()), s("B")),
    ];
    for e in all {
        let heartbeat = matches!(e, Endpoint::ApiHeartbeat | Endpoint::VenueHeartbeat(_));
        let r = sf().request(&e);
        assert!(r.url.starts_with("https://api.stockfighter.io/ob/api/"));
        assert_eq!(r.authorization.is_none(), heartbeat);
    }
}

#[test]
fn new_order_body_escapes_control_characters() {
    let mut o = sample_order();
    o.account = Account("A\u{1}\u{1f}\t\u{8}\u{c}\r\n\u{7f}é/".to_string());
    assert_eq!(
        o.to_json(),
        "{\"account\":\"A\\u0001\\u001f\\t\\b\\f\\r\\n\u{7f}é/\",\"venue\":\"TESTEX\",\"stock\":\"FOOBAR\",\"qty\":100,\"price\":5100,\"direction\":\"buy\",\"orderType\":\"limit\"}"
    );
}
