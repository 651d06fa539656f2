//! Order direction and order type, with their wire names.

use vstd::prelude::*;
use crate::text::{str_equal, concat3};

verus! {

/// The error returned when a wire name does not name a known variant.
#[derive(Debug, PartialEq, Eq)]
pub enum EError {
    Parse(String),
}

/// The text that `{:?}` writes for the string `s`: `s` between double
/// quotes, with its special characters escaped.
pub uninterp spec fn debug_quoted(s: Seq<char>) -> Seq<char>;

/// Calls the standard `Debug` formatting of a string slice (`format!("{:?}", s)`).
/// Claimed: the result is `debug_quoted` of the string.
#[verifier::external_body]
fn std_debug_quoted(s: &str) -> (r: String)
    ensures
        r@ == debug_quoted(s@),
{
    format!("{:?}", s)
}

impl EError {
    /// The text `Display` writes for the error: its `Debug` form,
    /// `Parse("...")`.
    pub fn to_string(&self) -> (r: String)
        ensures
            match self {
                EError::Parse(m) => r@ == "Parse("@ + debug_quoted(m@) + ")"@,
            },
    {
        match self {
            EError::Parse(m) => {
                let s = String::from_str("Parse(").concat(std_debug_quoted(m.as_str()).as_str());
                s.concat(")")
            },
        }
    }
}

/// Buy or sell.
#[derive(Debug, PartialEq, Eq, Clone, Copy, Structural)]
pub enum Direction {
    /// Buy
    Buy,
    /// Sell
    Sell,
}

/// The wire name of a direction.
pub open spec fn direction_name(d: Direction) -> Seq<char> {
    match d {
        Direction::Buy => "buy"@,
        Direction::Sell => "sell"@,
    }
}

/// The direction whose wire name is `s`, if any.
pub open spec fn direction_named(s: Seq<char>) -> Option<Direction> {
    if s == direction_name(Direction::Buy) {
        Some(Direction::Buy)
    } else if s == direction_name(Direction::Sell) {
        Some(Direction::Sell)
    } else {
        None
    }
}

/// The message carried by a parse error for `text` and the type named `kind_name`.
pub open spec fn unknown_variant_message(text: Seq<char>, kind_name: Seq<char>) -> Seq<char> {
    "`"@ + text + "` is not a known `"@ + kind_name + "` variant"@
}

impl Direction {
    /// The wire name: `"buy"` or `"sell"`.
    pub fn as_str(&self) -> (r: &'static str)
        ensures
            r@ == direction_name(*self),
    {
        match self {
            Direction::Buy => "buy",
            Direction::Sell => "sell",
        }
    }

    /// Parses a wire name; any other text is refused with a message naming it.
    pub fn from_str(s: &str) -> (r: Result<Direction, EError>)
        ensures
            match direction_named(s@) {
                Some(d) => r == Ok::<Direction, EError>(d),
                None => r matches Err(EError::Parse(m))
                    && m@ == unknown_variant_message(s@, "Direction"@),
            },
    {
        if str_equal(s, "buy") {
            Ok(Direction::Buy)
        } else if str_equal(s, "sell") {
            Ok(Direction::Sell)
        } else {
            let m = concat3("`", s, "` is not a known `").concat("Direction").concat("` variant");
            assert(m@ =~= unknown_variant_message(s@, "Direction"@));
            Err(EError::Parse(m))
        }
    }
}

impl core::str::FromStr for Direction {
    type Err = EError;

    fn from_str(s: &str) -> (r: Result<Direction, EError>)
        ensures
            match direction_named(s@) {
                Some(d) => r == Ok::<Direction, EError>(d),
                None => r matches Err(EError::Parse(m))
                    && m@ == unknown_variant_message(s@, "Direction"@),
            },
    {
        Direction::from_str(s)
    }
}

/// How an order is executed.
#[derive(Debug, PartialEq, Eq, Clone, Copy, Structural)]
pub enum OrderType {
    /// Limit
    Limit,
    /// Market
    Market,
    /// Fill or Kill
    FillOrKill,
    /// Immediate or Cancel
    ImmediateOrCancel,
}

/// The wire name of an order type.
pub open spec fn order_type_name(t: OrderType) -> Seq<char> {
    match t {
        OrderType::Limit => "limit"@,
        OrderType::Market => "market"@,
        OrderType::FillOrKill => "fill-or-kill"@,
        OrderType::ImmediateOrCancel => "immediate-or-cancel"@,
    }
}

/// The order type whose wire name is `s`, if any.
pub open spec fn order_type_named(s: Seq<char>) -> Option<OrderType> {
    if s == order_type_name(OrderType::Limit) {
        Some(OrderType::Limit)
    } else if s == order_type_name(OrderType::Market) {
        Some(OrderType::Market)
    } else if s == order_type_name(OrderType::FillOrKill) {
        Some(OrderType::FillOrKill)
    } else if s == order_type_name(OrderType::ImmediateOrCancel) {
        Some(OrderType::ImmediateOrCancel)
    } else {
        None
    }
}

impl OrderType {
    /// The wire name: `"limit"`, `"market"`, `"fill-or-kill"` or `"immediate-or-cancel"`.
    pub fn as_str(&self) -> (r: &'static str)
        ensures
            r@ == order_type_name(*self),
    {
        match self {
            OrderType::Limit => "limit",
            OrderType::Market => "market",
            OrderType::FillOrKill => "fill-or-kill",
            OrderType::ImmediateOrCancel => "immediate-or-cancel",
        }
    }

    /// Parses a wire name; any other text is refused with a message naming it.
    pub fn from_str(s: &str) -> (r: Result<OrderType, EError>)
        ensures
            match order_type_named(s@) {
                Some(t) => r == Ok::<OrderType, EError>(t),
                None => r matches Err(EError::Parse(m))
                    && m@ == unknown_variant_message(s@, "OrderType"@),
            },
    {
        if str_equal(s, "limit") {
            Ok(OrderType::Limit)
        } else if str_equal(s, "market") {
            Ok(OrderType::Market)
        } else if str_equal(s, "fill-or-kill") {
            Ok(OrderType::FillOrKill)
        } else if str_equal(s, "immediate-or-cancel") {
            Ok(OrderType::ImmediateOrCancel)
        } else {
            let m = concat3("`", s, "` is not a known `").concat("OrderType").concat("` variant");
            assert(m@ =~= unknown_variant_message(s@, "OrderType"@));
            Err(EError::Parse(m))
        }
    }
}

impl core::str::FromStr for OrderType {
    type Err = EError;

    fn from_str(s: &str) -> (r: Result<OrderType, EError>)
        ensures
            match order_type_named(s@) {
                Some(t) => r == Ok::<OrderType, EError>(t),
                None => r matches Err(EError::Parse(m))
                    && m@ == unknown_variant_message(s@, "OrderType"@),
            },
    {
        OrderType::from_str(s)
    }
}

} // verus!
