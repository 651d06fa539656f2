use stockfighter::{ApiHeartbeat, Asks, Bids, ErrMsg};
use stockfighter::decimal::{u64_to_decimal, usize_to_decimal};
use stockfighter::{
    Account, Ask, Bid, Direction, EError, IsBuy, Last, OrderId, OrderOpen, OrderType, Price, Qty,
    Venue, DTUTC,
};

#[test]
fn decimal_notation() {
    assert_eq!(u64_to_decimal(0), "0");
    assert_eq!(u64_to_decimal(7), "7");
    assert_eq!(u64_to_decimal(10), "10");
    assert_eq!(u64_to_decimal(1834), "1834");
    assert_eq!(u64_to_decimal(u64::MAX), "18446744073709551615");
    assert_eq!(usize_to_decimal(6000), "6000");
}

#[test]
fn direction_wire_names() {
    assert_eq!(Direction::Buy.as_str(), "buy");
    assert_eq!(Direction::Sell.as_str(), "sell");
    assert_eq!(Direction::from_str("buy"), Ok(Direction::Buy));
    assert_eq!(Direction::from_str("sell"), Ok(Direction::Sell));
    assert_eq!(
        Direction::from_str("Buy"),
        Err(EError::Parse("`Buy` is not a known `Direction` variant".to_string()))
    );
    for d in [Direction::Buy, Direction::Sell] {
        assert_eq!(Direction::from_str(d.as_str()), Ok(d));
    }
}

#[test]
fn order_type_wire_names() {
    assert_eq!(OrderType::Limit.as_str(), "limit");
    assert_eq!(OrderType::Market.as_str(), "market");
    assert_eq!(OrderType::FillOrKill.as_str(), "fill-or-kill");
    assert_eq!(OrderType::ImmediateOrCancel.as_str(), "immediate-or-cancel");
    assert_eq!(OrderType::from_str("fill-or-kill"), Ok(OrderType::FillOrKill));
    assert_eq!(
        OrderType::from_str(""),
        Err(EError::Parse("`` is not a known `OrderType` variant".to_string()))
    );
    for t in [OrderType::Limit, OrderType::Market, OrderType::FillOrKill, OrderType::ImmediateOrCancel] {
        assert_eq!(OrderType::from_str(t.as_str()), Ok(t));
    }
}

#[test]
fn parse_error_text() {
    let e = EError::Parse("`x\"y` is not a known `Direction` variant".to_string());
    assert_eq!(e.to_string(), "Parse(\"`x\\\"y` is not a known `Direction` variant\")");
    assert_eq!(e.to_string(), format!("{:?}", e));
}

#[test]
fn newtype_arithmetic() {
    assert_eq!(Price(3241) * Price(1748), Price(5665268));
    assert_eq!(Qty(10) + Qty(5), Qty(15));
    assert_eq!(Qty(10) - Qty(4), Qty(6));
    assert_eq!(Price(100) / Price(7), Price(14));
    assert_eq!(Price(100) % Price(7), Price(2));
    assert_eq!(Bid(5) + Bid(6), Bid(11));
    assert_eq!(Last(9) % Last(4), Last(1));
}

#[test]
fn newtype_conversions() {
    let q: Qty = Qty::from(42);
    assert_eq!(q, Qty(42));
    let n: usize = q.into();
    assert_eq!(n, 42);
    let a: u64 = Ask(3).into();
    assert_eq!(a, 3);
    let name: String = Venue::from("TESTEX".to_string()).into();
    assert_eq!(name, "TESTEX");
    let open: bool = OrderOpen(true).into();
    assert!(open);
}

#[test]
fn newtype_display_text() {
    assert_eq!(Price(6120).to_string(), "6120");
    assert_eq!(OrderId(1834).to_string(), "1834");
    assert_eq!(Account("BFB42332882".to_string()).to_string(), "BFB42332882");
    assert_eq!(IsBuy(true).to_string(), "true");
    assert_eq!(OrderOpen(false).to_string(), "false");
}

#[test]
fn timestamps() {
    assert_eq!(
        DTUTC::parse("2015-07-13T05:38:17.33640392Z"),
        DTUTC { seconds: 1436765897, nanos: 336403920 }
    );
    assert_eq!(
        DTUTC::try_parse("2016-04-14T14:18:28.579888777Z"),
        Some(DTUTC { seconds: 1460643508, nanos: 579888777 })
    );
    assert_eq!(DTUTC::try_parse("yesterday"), None);
    assert!(DTUTC::parse("2015-07-13T05:38:17Z") < DTUTC::parse("2015-07-13T05:38:17.5Z"));
}

#[test]
fn newtypes_dereference_to_what_they_wrap() {
    assert_eq!(*Qty(4), 4);
    assert_eq!(*Bid(9), 9);
    assert_eq!(Venue("TESTEX".to_string()).len(), 6);
    assert!(*IsBuy(true));
}

#[test]
fn wire_names_parse_through_from_str() {
    assert_eq!("sell".parse::<Direction>(), Ok(Direction::Sell));
    assert_eq!("market".parse::<OrderType>(), Ok(OrderType::Market));
    assert!("limit ".parse::<OrderType>().is_err());
}

#[test]
fn decimal_notation_reads_back() {
    for n in [0u64, 9, 10, 99, 100, 1834, 4294967296, u64::MAX] {
        assert_eq!(u64_to_decimal(n).parse::<u64>(), Ok(n));
    }
}

#[test]
fn account_and_last_display() {
    assert_eq!(Last(5125).to_string(), "5125");
    assert_eq!(Ask(0).to_string(), "0");
}

#[test]
fn record_newtypes_dereference() {
    let h = ApiHeartbeat(ErrMsg { ok: true, error: String::new() });
    assert!(h.ok);
    assert!(Bids(vec![]).is_empty());
    assert_eq!(Asks(vec![]).len(), 0);
}
