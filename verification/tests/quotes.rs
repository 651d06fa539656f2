use stockfighter::json::get_member;
use stockfighter::{
    Ask, AskDepth, AskSize, AskStruct, Bid, BidDepth, BidSize, BidStruct, DTUTC, Json, JsonNumber,
    Last, LastSize, Symbol, TheseQuotes, Venue, parse_ask, parse_bid, quote_from_json, str_to_quote,
    try_str_to_quote,
};

const FULL: &str = r#"{"ok":true,"quote":{"symbol":"FAC","venue":"OGEX","bid":5100,"ask":5125,"bidSize":392,"askSize":711,"bidDepth":2748,"askDepth":2237,"last":5125,"lastSize":52,"lastTrade":"2015-07-13T05:38:17.33640392Z","quoteTime":"2015-07-13T05:38:17.33640392Z"}}"#;

fn t() -> DTUTC {
    DTUTC { seconds: 1436765897, nanos: 336403920 }
}

#[test]
fn full_quote() {
    let q = str_to_quote(FULL);
    assert_eq!(q.symbol, Symbol("FAC".to_string()));
    assert_eq!(q.venue, Venue("OGEX".to_string()));
    assert_eq!(
        q.these_quotes,
        TheseQuotes::TheseQuotes(
            BidStruct { bid: Bid(5100), bid_size: BidSize(392), bid_depth: BidDepth(2748) },
            AskStruct { ask: Ask(5125), ask_size: AskSize(711), ask_depth: AskDepth(2237) },
        )
    );
    assert_eq!(q.last, Last(5125));
    assert_eq!(q.last_size, LastSize(52));
    assert_eq!(q.last_trade, t());
    assert_eq!(q.quote_time, t());
}

#[test]
fn quote_with_bid_only() {
    let text = r#"{"quote":{"symbol":"A","venue":"B","bid":1,"bidSize":2,"bidDepth":3,"last":4,"lastSize":5,"lastTrade":"2015-07-13T05:38:17.33640392Z","quoteTime":"2016-04-14T14:18:28.579888777Z"}}"#;
    let q = str_to_quote(text);
    assert_eq!(
        q.these_quotes,
        TheseQuotes::ThisBid(BidStruct { bid: Bid(1), bid_size: BidSize(2), bid_depth: BidDepth(3) })
    );
    assert_eq!(q.quote_time, DTUTC { seconds: 1460643508, nanos: 579888777 });
}

#[test]
fn quote_with_ask_only() {
    let text = r#"{"quote":{"symbol":"A","venue":"B","ask":9,"askSize":8,"askDepth":7,"last":4,"lastSize":5,"lastTrade":"2015-07-13T05:38:17.33640392Z","quoteTime":"2015-07-13T05:38:17.33640392Z"}}"#;
    assert_eq!(
        str_to_quote(text).these_quotes,
        TheseQuotes::ThatAsk(AskStruct { ask: Ask(9), ask_size: AskSize(8), ask_depth: AskDepth(7) })
    );
}

#[test]
fn quote_with_no_side() {
    let text = r#"{"quote":{"symbol":"A","venue":"B","last":4,"lastSize":5,"lastTrade":"2015-07-13T05:38:17.33640392Z","quoteTime":"2015-07-13T05:38:17.33640392Z"}}"#;
    let q = try_str_to_quote(text).unwrap();
    assert_eq!(q.these_quotes, TheseQuotes::Empty);
    assert_eq!(q.symbol, Symbol("A".to_string()));
}

#[test]
fn refused_quotes() {
    assert_eq!(try_str_to_quote("not json"), None);
    assert_eq!(try_str_to_quote("[1,2]"), None);
    assert_eq!(try_str_to_quote(r#"{"symbol":"A"}"#), None);
    // a bid without its size
    let no_size = r#"{"quote":{"symbol":"A","venue":"B","bid":1,"bidDepth":3,"last":4,"lastSize":5,"lastTrade":"2015-07-13T05:38:17Z","quoteTime":"2015-07-13T05:38:17Z"}}"#;
    assert_eq!(try_str_to_quote(no_size), None);
    // a negative price
    let negative = r#"{"quote":{"symbol":"A","venue":"B","last":-4,"lastSize":5,"lastTrade":"2015-07-13T05:38:17Z","quoteTime":"2015-07-13T05:38:17Z"}}"#;
    assert_eq!(try_str_to_quote(negative), None);
    // a timestamp that is not one
    let bad_time = r#"{"quote":{"symbol":"A","venue":"B","last":4,"lastSize":5,"lastTrade":"noon","quoteTime":"2015-07-13T05:38:17Z"}}"#;
    assert_eq!(try_str_to_quote(bad_time), None);
}

#[test]
fn json_model() {
    let j = Json::parse(r#"{"b":[true,null,-3,1.5,"x"],"a":7}"#).unwrap();
    let members = j.as_object().unwrap();
    assert_eq!(members.len(), 2);
    assert_eq!(get_member(members, "a"), Some(&Json::Number(JsonNumber::PosInt(7))));
    assert_eq!(
        get_member(members, "b"),
        Some(&Json::Array(vec![
            Json::Bool(true),
            Json::Null,
            Json::Number(JsonNumber::NegInt(-3)),
            Json::Number(JsonNumber::Other("1.5".to_string())),
            Json::Str("x".to_string()),
        ]))
    );
    assert_eq!(get_member(members, "c"), None);
    assert_eq!(Json::parse("{"), None);
}

#[test]
fn bid_and_ask_readers() {
    let j = Json::parse(FULL).unwrap();
    let top = j.as_object().unwrap();
    let q = get_member(top, "quote").unwrap().as_object().unwrap();
    let bid = get_member(q, "bid").unwrap();
    let ask = get_member(q, "ask").unwrap();
    assert_eq!(
        parse_bid(bid, q),
        BidStruct { bid: Bid(5100), bid_size: BidSize(392), bid_depth: BidDepth(2748) }
    );
    assert_eq!(
        parse_ask(ask, q),
        AskStruct { ask: Ask(5125), ask_size: AskSize(711), ask_depth: AskDepth(2237) }
    );
    assert_eq!(quote_from_json(&j), Some(str_to_quote(FULL)));
}
