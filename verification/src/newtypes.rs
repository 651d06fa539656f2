//! Newtypes that keep semantically distinct values apart: a price is never
//! passed where a quantity is expected. Each converts to and from what it
//! wraps and dereferences to it; the numeric ones that the API adds up also
//! have arithmetic, which stays within the type.

use vstd::prelude::*;
use crate::decimal::{decimal, u64_to_decimal, usize_to_decimal};
use vstd::std_specs::convert::FromSpecImpl;
use vstd::std_specs::ops::{AddSpecImpl, DivSpecImpl, MulSpecImpl, RemSpecImpl, SubSpecImpl};
use vstd::std_specs::ops::{AddSpec, DivSpec, MulSpec, RemSpec, SubSpec};

verus! {

/// The text `Display` writes for a boolean.
pub open spec fn bool_text(b: bool) -> Seq<char> {
    if b { "true"@ } else { "false"@ }
}

fn bool_to_string(b: bool) -> (r: String)
    ensures
        r@ == bool_text(b),
{
    if b { String::from_str("true") } else { String::from_str("false") }
}

/// A number of shares.
#[derive(Debug, PartialEq, Eq, PartialOrd, Ord, Clone, Copy, Structural)]
pub struct Qty(pub usize);

impl core::ops::Deref for Qty {
    type Target = usize;

    fn deref(&self) -> (r: &usize)
        ensures
            *r == self.0,
    {
        &self.0
    }
}

impl From<usize> for Qty {
    fn from(v: usize) -> (r: Qty)
        ensures
            r.0 == v,
    {
        Qty(v)
    }
}

impl FromSpecImpl<usize> for Qty {
    open spec fn obeys_from_spec() -> bool {
        true
    }

    open spec fn from_spec(v: usize) -> Qty {
        Qty(v)
    }
}

impl From<Qty> for usize {
    fn from(v: Qty) -> (r: usize)
        ensures
            r == v.0,
    {
        v.0
    }
}

impl FromSpecImpl<Qty> for usize {
    open spec fn obeys_from_spec() -> bool {
        true
    }

    open spec fn from_spec(v: Qty) -> usize {
        v.0
    }
}

impl core::ops::Add for Qty {
    type Output = Qty;

    fn add(self, rhs: Qty) -> (r: Qty)
        ensures
            r.0 == self.0 + rhs.0,
    {
        Qty(self.0 + rhs.0)
    }
}

impl AddSpecImpl for Qty {
    open spec fn obeys_add_spec() -> bool {
        true
    }

    open spec fn add_req(self, rhs: Qty) -> bool {
        self.0 + rhs.0 <= usize::MAX
    }

    open spec fn add_spec(self, rhs: Qty) -> Qty {
        Qty((self.0 + rhs.0) as usize)
    }
}

impl core::ops::Sub for Qty {
    type Output = Qty;

    fn sub(self, rhs: Qty) -> (r: Qty)
        ensures
            r.0 == self.0 - rhs.0,
    {
        Qty(self.0 - rhs.0)
    }
}

impl SubSpecImpl for Qty {
    open spec fn obeys_sub_spec() -> bool {
        true
    }

    open spec fn sub_req(self, rhs: Qty) -> bool {
        self.0 >= rhs.0
    }

    open spec fn sub_spec(self, rhs: Qty) -> Qty {
        Qty((self.0 - rhs.0) as usize)
    }
}

impl core::ops::Mul for Qty {
    type Output = Qty;

    fn mul(self, rhs: Qty) -> (r: Qty)
        ensures
            r.0 == self.0 * rhs.0,
    {
        Qty(self.0 * rhs.0)
    }
}

impl MulSpecImpl for Qty {
    open spec fn obeys_mul_spec() -> bool {
        true
    }

    open spec fn mul_req(self, rhs: Qty) -> bool {
        self.0 * rhs.0 <= usize::MAX
    }

    open spec fn mul_spec(self, rhs: Qty) -> Qty {
        Qty((self.0 * rhs.0) as usize)
    }
}

impl core::ops::Div for Qty {
    type Output = Qty;

    fn div(self, rhs: Qty) -> (r: Qty)
        ensures
            r.0 == self.0 / rhs.0,
    {
        Qty(self.0 / rhs.0)
    }
}

impl DivSpecImpl for Qty {
    open spec fn obeys_div_spec() -> bool {
        true
    }

    open spec fn div_req(self, rhs: Qty) -> bool {
        rhs.0 != 0
    }

    open spec fn div_spec(self, rhs: Qty) -> Qty {
        Qty((self.0 / rhs.0) as usize)
    }
}

impl core::ops::Rem for Qty {
    type Output = Qty;

    fn rem(self, rhs: Qty) -> (r: Qty)
        ensures
            r.0 == self.0 % rhs.0,
    {
        Qty(self.0 % rhs.0)
    }
}

impl RemSpecImpl for Qty {
    open spec fn obeys_rem_spec() -> bool {
        true
    }

    open spec fn rem_req(self, rhs: Qty) -> bool {
        rhs.0 != 0
    }

    open spec fn rem_spec(self, rhs: Qty) -> Qty {
        Qty((self.0 % rhs.0) as usize)
    }
}

/// Arithmetic on `Qty` is arithmetic on the numbers it wraps: each
/// operator is allowed exactly where the plain operation stays in range
/// (and, for division and remainder, the divisor is not zero), and its
/// result wraps the plain result.
pub proof fn law_qty_arithmetic(a: Qty, b: Qty)
    ensures
        AddSpec::add_req(a, b) <==> a.0 + b.0 <= usize::MAX,
        a.0 + b.0 <= usize::MAX ==> AddSpec::add_spec(a, b).0 == a.0 + b.0,
        SubSpec::sub_req(a, b) <==> a.0 >= b.0,
        a.0 >= b.0 ==> SubSpec::sub_spec(a, b).0 == a.0 - b.0,
        MulSpec::mul_req(a, b) <==> a.0 * b.0 <= usize::MAX,
        a.0 * b.0 <= usize::MAX ==> MulSpec::mul_spec(a, b).0 == a.0 * b.0,
        DivSpec::div_req(a, b) <==> b.0 != 0,
        b.0 != 0 ==> DivSpec::div_spec(a, b).0 == a.0 / b.0,
        RemSpec::rem_req(a, b) <==> b.0 != 0,
        b.0 != 0 ==> RemSpec::rem_spec(a, b).0 == a.0 % b.0,
{
}

impl Qty {
    /// The text `Display` writes for the wrapped value.
    pub fn to_string(&self) -> (r: String)
        ensures
            r@ == decimal(self.0 as nat),
    {
        usize_to_decimal(self.0)
    }
}

/// A price in cents.
#[derive(Debug, PartialEq, Eq, PartialOrd, Ord, Clone, Copy, Structural)]
pub struct Price(pub usize);

impl core::ops::Deref for Price {
    type Target = usize;

    fn deref(&self) -> (r: &usize)
        ensures
            *r == self.0,
    {
        &self.0
    }
}

impl From<usize> for Price {
    fn from(v: usize) -> (r: Price)
        ensures
            r.0 == v,
    {
        Price(v)
    }
}

impl FromSpecImpl<usize> for Price {
    open spec fn obeys_from_spec() -> bool {
        true
    }

    open spec fn from_spec(v: usize) -> Price {
        Price(v)
    }
}

impl From<Price> for usize {
    fn from(v: Price) -> (r: usize)
        ensures
            r == v.0,
    {
        v.0
    }
}

impl FromSpecImpl<Price> for usize {
    open spec fn obeys_from_spec() -> bool {
        true
    }

    open spec fn from_spec(v: Price) -> usize {
        v.0
    }
}

impl core::ops::Add for Price {
    type Output = Price;

    fn add(self, rhs: Price) -> (r: Price)
        ensures
            r.0 == self.0 + rhs.0,
    {
        Price(self.0 + rhs.0)
    }
}

impl AddSpecImpl for Price {
    open spec fn obeys_add_spec() -> bool {
        true
    }

    open spec fn add_req(self, rhs: Price) -> bool {
        self.0 + rhs.0 <= usize::MAX
    }

    open spec fn add_spec(self, rhs: Price) -> Price {
        Price((self.0 + rhs.0) as usize)
    }
}

impl core::ops::Sub for Price {
    type Output = Price;

    fn sub(self, rhs: Price) -> (r: Price)
        ensures
            r.0 == self.0 - rhs.0,
    {
        Price(self.0 - rhs.0)
    }
}

impl SubSpecImpl for Price {
    open spec fn obeys_sub_spec() -> bool {
        true
    }

    open spec fn sub_req(self, rhs: Price) -> bool {
        self.0 >= rhs.0
    }

    open spec fn sub_spec(self, rhs: Price) -> Price {
        Price((self.0 - rhs.0) as usize)
    }
}

impl core::ops::Mul for Price {
    type Output = Price;

    fn mul(self, rhs: Price) -> (r: Price)
        ensures
            r.0 == self.0 * rhs.0,
    {
        Price(self.0 * rhs.0)
    }
}

impl MulSpecImpl for Price {
    open spec fn obeys_mul_spec() -> bool {
        true
    }

    open spec fn mul_req(self, rhs: Price) -> bool {
        self.0 * rhs.0 <= usize::MAX
    }

    open spec fn mul_spec(self, rhs: Price) -> Price {
        Price((self.0 * rhs.0) as usize)
    }
}

impl core::ops::Div for Price {
    type Output = Price;

    fn div(self, rhs: Price) -> (r: Price)
        ensures
            r.0 == self.0 / rhs.0,
    {
        Price(self.0 / rhs.0)
    }
}

impl DivSpecImpl for Price {
    open spec fn obeys_div_spec() -> bool {
        true
    }

    open spec fn div_req(self, rhs: Price) -> bool {
        rhs.0 != 0
    }

    open spec fn div_spec(self, rhs: Price) -> Price {
        Price((self.0 / rhs.0) as usize)
    }
}

impl core::ops::Rem for Price {
    type Output = Price;

    fn rem(self, rhs: Price) -> (r: Price)
        ensures
            r.0 == self.0 % rhs.0,
    {
        Price(self.0 % rhs.0)
    }
}

impl RemSpecImpl for Price {
    open spec fn obeys_rem_spec() -> bool {
        true
    }

    open spec fn rem_req(self, rhs: Price) -> bool {
        rhs.0 != 0
    }

    open spec fn rem_spec(self, rhs: Price) -> Price {
        Price((self.0 % rhs.0) as usize)
    }
}

/// Arithmetic on `Price` is arithmetic on the numbers it wraps: each
/// operator is allowed exactly where the plain operation stays in range
/// (and, for division and remainder, the divisor is not zero), and its
/// result wraps the plain result.
pub proof fn law_price_arithmetic(a: Price, b: Price)
    ensures
        AddSpec::add_req(a, b) <==> a.0 + b.0 <= usize::MAX,
        a.0 + b.0 <= usize::MAX ==> AddSpec::add_spec(a, b).0 == a.0 + b.0,
        SubSpec::sub_req(a, b) <==> a.0 >= b.0,
        a.0 >= b.0 ==> SubSpec::sub_spec(a, b).0 == a.0 - b.0,
        MulSpec::mul_req(a, b) <==> a.0 * b.0 <= usize::MAX,
        a.0 * b.0 <= usize::MAX ==> MulSpec::mul_spec(a, b).0 == a.0 * b.0,
        DivSpec::div_req(a, b) <==> b.0 != 0,
        b.0 != 0 ==> DivSpec::div_spec(a, b).0 == a.0 / b.0,
        RemSpec::rem_req(a, b) <==> b.0 != 0,
        b.0 != 0 ==> RemSpec::rem_spec(a, b).0 == a.0 % b.0,
{
}

impl Price {
    /// The text `Display` writes for the wrapped value.
    pub fn to_string(&self) -> (r: String)
        ensures
            r@ == decimal(self.0 as nat),
    {
        usize_to_decimal(self.0)
    }
}

/// The name of a trading venue, such as `TESTEX`.
#[derive(Debug, PartialEq, Eq, PartialOrd, Ord, Clone)]
pub struct Venue(pub String);

impl core::ops::Deref for Venue {
    type Target = String;

    fn deref(&self) -> (r: &String)
        ensures
            *r == self.0,
    {
        &self.0
    }
}

impl From<String> for Venue {
    fn from(v: String) -> (r: Venue)
        ensures
            r.0 == v,
    {
        Venue(v)
    }
}

impl FromSpecImpl<String> for Venue {
    open spec fn obeys_from_spec() -> bool {
        true
    }

    open spec fn from_spec(v: String) -> Venue {
        Venue(v)
    }
}

impl From<Venue> for String {
    fn from(v: Venue) -> (r: String)
        ensures
            r == v.0,
    {
        v.0
    }
}

impl FromSpecImpl<Venue> for String {
    open spec fn obeys_from_spec() -> bool {
        true
    }

    open spec fn from_spec(v: Venue) -> String {
        v.0
    }
}

impl Venue {
    /// The text `Display` writes for the wrapped value.
    pub fn to_string(&self) -> (r: String)
        ensures
            r@ == self.0@,
    {
        self.0.clone()
    }
}

/// A stock ticker symbol, such as `FOOBAR`.
#[derive(Debug, PartialEq, Eq, PartialOrd, Ord, Clone)]
pub struct Symbol(pub String);

impl core::ops::Deref for Symbol {
    type Target = String;

    fn deref(&self) -> (r: &String)
        ensures
            *r == self.0,
    {
        &self.0
    }
}

impl From<String> for Symbol {
    fn from(v: String) -> (r: Symbol)
        ensures
            r.0 == v,
    {
        Symbol(v)
    }
}

impl FromSpecImpl<String> for Symbol {
    open spec fn obeys_from_spec() -> bool {
        true
    }

    open spec fn from_spec(v: String) -> Symbol {
        Symbol(v)
    }
}

impl From<Symbol> for String {
    fn from(v: Symbol) -> (r: String)
        ensures
            r == v.0,
    {
        v.0
    }
}

impl FromSpecImpl<Symbol> for String {
    open spec fn obeys_from_spec() -> bool {
        true
    }

    open spec fn from_spec(v: Symbol) -> String {
        v.0
    }
}

impl Symbol {
    /// The text `Display` writes for the wrapped value.
    pub fn to_string(&self) -> (r: String)
        ensures
            r@ == self.0@,
    {
        self.0.clone()
    }
}

/// A trading account identifier.
#[derive(Debug, PartialEq, Eq, PartialOrd, Ord, Clone)]
pub struct Account(pub String);

impl core::ops::Deref for Account {
    type Target = String;

    fn deref(&self) -> (r: &String)
        ensures
            *r == self.0,
    {
        &self.0
    }
}

impl From<String> for Account {
    fn from(v: String) -> (r: Account)
        ensures
            r.0 == v,
    {
        Account(v)
    }
}

impl FromSpecImpl<String> for Account {
    open spec fn obeys_from_spec() -> bool {
        true
    }

    open spec fn from_spec(v: String) -> Account {
        Account(v)
    }
}

impl From<Account> for String {
    fn from(v: Account) -> (r: String)
        ensures
            r == v.0,
    {
        v.0
    }
}

impl FromSpecImpl<Account> for String {
    open spec fn obeys_from_spec() -> bool {
        true
    }

    open spec fn from_spec(v: Account) -> String {
        v.0
    }
}

impl Account {
    /// The text `Display` writes for the wrapped value.
    pub fn to_string(&self) -> (r: String)
        ensures
            r@ == self.0@,
    {
        self.0.clone()
    }
}

/// Whether a book position is on the buy side.
#[derive(Debug, PartialEq, Eq, Clone, Copy, Structural)]
pub struct IsBuy(pub bool);

impl core::ops::Deref for IsBuy {
    type Target = bool;

    fn deref(&self) -> (r: &bool)
        ensures
            *r == self.0,
    {
        &self.0
    }
}

impl From<bool> for IsBuy {
    fn from(v: bool) -> (r: IsBuy)
        ensures
            r.0 == v,
    {
        IsBuy(v)
    }
}

impl FromSpecImpl<bool> for IsBuy {
    open spec fn obeys_from_spec() -> bool {
        true
    }

    open spec fn from_spec(v: bool) -> IsBuy {
        IsBuy(v)
    }
}

impl From<IsBuy> for bool {
    fn from(v: IsBuy) -> (r: bool)
        ensures
            r == v.0,
    {
        v.0
    }
}

impl FromSpecImpl<IsBuy> for bool {
    open spec fn obeys_from_spec() -> bool {
        true
    }

    open spec fn from_spec(v: IsBuy) -> bool {
        v.0
    }
}

impl IsBuy {
    /// The text `Display` writes for the wrapped value.
    pub fn to_string(&self) -> (r: String)
        ensures
            r@ == bool_text(self.0),
    {
        bool_to_string(self.0)
    }
}

/// The quantity an order was placed for.
#[derive(Debug, PartialEq, Eq, PartialOrd, Ord, Clone, Copy, Structural)]
pub struct OriginalQty(pub usize);

impl core::ops::Deref for OriginalQty {
    type Target = usize;

    fn deref(&self) -> (r: &usize)
        ensures
            *r == self.0,
    {
        &self.0
    }
}

impl From<usize> for OriginalQty {
    fn from(v: usize) -> (r: OriginalQty)
        ensures
            r.0 == v,
    {
        OriginalQty(v)
    }
}

impl FromSpecImpl<usize> for OriginalQty {
    open spec fn obeys_from_spec() -> bool {
        true
    }

    open spec fn from_spec(v: usize) -> OriginalQty {
        OriginalQty(v)
    }
}

impl From<OriginalQty> for usize {
    fn from(v: OriginalQty) -> (r: usize)
        ensures
            r == v.0,
    {
        v.0
    }
}

impl FromSpecImpl<OriginalQty> for usize {
    open spec fn obeys_from_spec() -> bool {
        true
    }

    open spec fn from_spec(v: OriginalQty) -> usize {
        v.0
    }
}

impl core::ops::Add for OriginalQty {
    type Output = OriginalQty;

    fn add(self, rhs: OriginalQty) -> (r: OriginalQty)
        ensures
            r.0 == self.0 + rhs.0,
    {
        OriginalQty(self.0 + rhs.0)
    }
}

impl AddSpecImpl for OriginalQty {
    open spec fn obeys_add_spec() -> bool {
        true
    }

    open spec fn add_req(self, rhs: OriginalQty) -> bool {
        self.0 + rhs.0 <= usize::MAX
    }

    open spec fn add_spec(self, rhs: OriginalQty) -> OriginalQty {
        OriginalQty((self.0 + rhs.0) as usize)
    }
}

impl core::ops::Sub for OriginalQty {
    type Output = OriginalQty;

    fn sub(self, rhs: OriginalQty) -> (r: OriginalQty)
        ensures
            r.0 == self.0 - rhs.0,
    {
        OriginalQty(self.0 - rhs.0)
    }
}

impl SubSpecImpl for OriginalQty {
    open spec fn obeys_sub_spec() -> bool {
        true
    }

    open spec fn sub_req(self, rhs: OriginalQty) -> bool {
        self.0 >= rhs.0
    }

    open spec fn sub_spec(self, rhs: OriginalQty) -> OriginalQty {
        OriginalQty((self.0 - rhs.0) as usize)
    }
}

impl core::ops::Mul for OriginalQty {
    type Output = OriginalQty;

    fn mul(self, rhs: OriginalQty) -> (r: OriginalQty)
        ensures
            r.0 == self.0 * rhs.0,
    {
        OriginalQty(self.0 * rhs.0)
    }
}

impl MulSpecImpl for OriginalQty {
    open spec fn obeys_mul_spec() -> bool {
        true
    }

    open spec fn mul_req(self, rhs: OriginalQty) -> bool {
        self.0 * rhs.0 <= usize::MAX
    }

    open spec fn mul_spec(self, rhs: OriginalQty) -> OriginalQty {
        OriginalQty((self.0 * rhs.0) as usize)
    }
}

impl core::ops::Div for OriginalQty {
    type Output = OriginalQty;

    fn div(self, rhs: OriginalQty) -> (r: OriginalQty)
        ensures
            r.0 == self.0 / rhs.0,
    {
        OriginalQty(self.0 / rhs.0)
    }
}

impl DivSpecImpl for OriginalQty {
    open spec fn obeys_div_spec() -> bool {
        true
    }

    open spec fn div_req(self, rhs: OriginalQty) -> bool {
        rhs.0 != 0
    }

    open spec fn div_spec(self, rhs: OriginalQty) -> OriginalQty {
        OriginalQty((self.0 / rhs.0) as usize)
    }
}

impl core::ops::Rem for OriginalQty {
    type Output = OriginalQty;

    fn rem(self, rhs: OriginalQty) -> (r: OriginalQty)
        ensures
            r.0 == self.0 % rhs.0,
    {
        OriginalQty(self.0 % rhs.0)
    }
}

impl RemSpecImpl for OriginalQty {
    open spec fn obeys_rem_spec() -> bool {
        true
    }

    open spec fn rem_req(self, rhs: OriginalQty) -> bool {
        rhs.0 != 0
    }

    open spec fn rem_spec(self, rhs: OriginalQty) -> OriginalQty {
        OriginalQty((self.0 % rhs.0) as usize)
    }
}

/// Arithmetic on `OriginalQty` is arithmetic on the numbers it wraps: each
/// operator is allowed exactly where the plain operation stays in range
/// (and, for division and remainder, the divisor is not zero), and its
/// result wraps the plain result.
pub proof fn law_original_qty_arithmetic(a: OriginalQty, b: OriginalQty)
    ensures
        AddSpec::add_req(a, b) <==> a.0 + b.0 <= usize::MAX,
        a.0 + b.0 <= usize::MAX ==> AddSpec::add_spec(a, b).0 == a.0 + b.0,
        SubSpec::sub_req(a, b) <==> a.0 >= b.0,
        a.0 >= b.0 ==> SubSpec::sub_spec(a, b).0 == a.0 - b.0,
        MulSpec::mul_req(a, b) <==> a.0 * b.0 <= usize::MAX,
        a.0 * b.0 <= usize::MAX ==> MulSpec::mul_spec(a, b).0 == a.0 * b.0,
        DivSpec::div_req(a, b) <==> b.0 != 0,
        b.0 != 0 ==> DivSpec::div_spec(a, b).0 == a.0 / b.0,
        RemSpec::rem_req(a, b) <==> b.0 != 0,
        b.0 != 0 ==> RemSpec::rem_spec(a, b).0 == a.0 % b.0,
{
}

impl OriginalQty {
    /// The text `Display` writes for the wrapped value.
    pub fn to_string(&self) -> (r: String)
        ensures
            r@ == decimal(self.0 as nat),
    {
        usize_to_decimal(self.0)
    }
}

/// The identifier the venue gave an order.
#[derive(Debug, PartialEq, Eq, Clone, Copy, Structural)]
pub struct OrderId(pub usize);

impl core::ops::Deref for OrderId {
    type Target = usize;

    fn deref(&self) -> (r: &usize)
        ensures
            *r == self.0,
    {
        &self.0
    }
}

impl From<usize> for OrderId {
    fn from(v: usize) -> (r: OrderId)
        ensures
            r.0 == v,
    {
        OrderId(v)
    }
}

impl FromSpecImpl<usize> for OrderId {
    open spec fn obeys_from_spec() -> bool {
        true
    }

    open spec fn from_spec(v: usize) -> OrderId {
        OrderId(v)
    }
}

impl From<OrderId> for usize {
    fn from(v: OrderId) -> (r: usize)
        ensures
            r == v.0,
    {
        v.0
    }
}

impl FromSpecImpl<OrderId> for usize {
    open spec fn obeys_from_spec() -> bool {
        true
    }

    open spec fn from_spec(v: OrderId) -> usize {
        v.0
    }
}

impl OrderId {
    /// The text `Display` writes for the wrapped value.
    pub fn to_string(&self) -> (r: String)
        ensures
            r@ == decimal(self.0 as nat),
    {
        usize_to_decimal(self.0)
    }
}

/// The quantity of an order filled so far.
#[derive(Debug, PartialEq, Eq, PartialOrd, Ord, Clone, Copy, Structural)]
pub struct TotalFilled(pub usize);

impl core::ops::Deref for TotalFilled {
    type Target = usize;

    fn deref(&self) -> (r: &usize)
        ensures
            *r == self.0,
    {
        &self.0
    }
}

impl From<usize> for TotalFilled {
    fn from(v: usize) -> (r: TotalFilled)
        ensures
            r.0 == v,
    {
        TotalFilled(v)
    }
}

impl FromSpecImpl<usize> for TotalFilled {
    open spec fn obeys_from_spec() -> bool {
        true
    }

    open spec fn from_spec(v: usize) -> TotalFilled {
        TotalFilled(v)
    }
}

impl From<TotalFilled> for usize {
    fn from(v: TotalFilled) -> (r: usize)
        ensures
            r == v.0,
    {
        v.0
    }
}

impl FromSpecImpl<TotalFilled> for usize {
    open spec fn obeys_from_spec() -> bool {
        true
    }

    open spec fn from_spec(v: TotalFilled) -> usize {
        v.0
    }
}

impl core::ops::Add for TotalFilled {
    type Output = TotalFilled;

    fn add(self, rhs: TotalFilled) -> (r: TotalFilled)
        ensures
            r.0 == self.0 + rhs.0,
    {
        TotalFilled(self.0 + rhs.0)
    }
}

impl AddSpecImpl for TotalFilled {
    open spec fn obeys_add_spec() -> bool {
        true
    }

    open spec fn add_req(self, rhs: TotalFilled) -> bool {
        self.0 + rhs.0 <= usize::MAX
    }

    open spec fn add_spec(self, rhs: TotalFilled) -> TotalFilled {
        TotalFilled((self.0 + rhs.0) as usize)
    }
}

impl core::ops::Sub for TotalFilled {
    type Output = TotalFilled;

    fn sub(self, rhs: TotalFilled) -> (r: TotalFilled)
        ensures
            r.0 == self.0 - rhs.0,
    {
        TotalFilled(self.0 - rhs.0)
    }
}

impl SubSpecImpl for TotalFilled {
    open spec fn obeys_sub_spec() -> bool {
        true
    }

    open spec fn sub_req(self, rhs: TotalFilled) -> bool {
        self.0 >= rhs.0
    }

    open spec fn sub_spec(self, rhs: TotalFilled) -> TotalFilled {
        TotalFilled((self.0 - rhs.0) as usize)
    }
}

impl core::ops::Mul for TotalFilled {
    type Output = TotalFilled;

    fn mul(self, rhs: TotalFilled) -> (r: TotalFilled)
        ensures
            r.0 == self.0 * rhs.0,
    {
        TotalFilled(self.0 * rhs.0)
    }
}

impl MulSpecImpl for TotalFilled {
    open spec fn obeys_mul_spec() -> bool {
        true
    }

    open spec fn mul_req(self, rhs: TotalFilled) -> bool {
        self.0 * rhs.0 <= usize::MAX
    }

    open spec fn mul_spec(self, rhs: TotalFilled) -> TotalFilled {
        TotalFilled((self.0 * rhs.0) as usize)
    }
}

impl core::ops::Div for TotalFilled {
    type Output = TotalFilled;

    fn div(self, rhs: TotalFilled) -> (r: TotalFilled)
        ensures
            r.0 == self.0 / rhs.0,
    {
        TotalFilled(self.0 / rhs.0)
    }
}

impl DivSpecImpl for TotalFilled {
    open spec fn obeys_div_spec() -> bool {
        true
    }

    open spec fn div_req(self, rhs: TotalFilled) -> bool {
        rhs.0 != 0
    }

    open spec fn div_spec(self, rhs: TotalFilled) -> TotalFilled {
        TotalFilled((self.0 / rhs.0) as usize)
    }
}

impl core::ops::Rem for TotalFilled {
    type Output = TotalFilled;

    fn rem(self, rhs: TotalFilled) -> (r: TotalFilled)
        ensures
            r.0 == self.0 % rhs.0,
    {
        TotalFilled(self.0 % rhs.0)
    }
}

impl RemSpecImpl for TotalFilled {
    open spec fn obeys_rem_spec() -> bool {
        true
    }

    open spec fn rem_req(self, rhs: TotalFilled) -> bool {
        rhs.0 != 0
    }

    open spec fn rem_spec(self, rhs: TotalFilled) -> TotalFilled {
        TotalFilled((self.0 % rhs.0) as usize)
    }
}

/// Arithmetic on `TotalFilled` is arithmetic on the numbers it wraps: each
/// operator is allowed exactly where the plain operation stays in range
/// (and, for division and remainder, the divisor is not zero), and its
/// result wraps the plain result.
pub proof fn law_total_filled_arithmetic(a: TotalFilled, b: TotalFilled)
    ensures
        AddSpec::add_req(a, b) <==> a.0 + b.0 <= usize::MAX,
        a.0 + b.0 <= usize::MAX ==> AddSpec::add_spec(a, b).0 == a.0 + b.0,
        SubSpec::sub_req(a, b) <==> a.0 >= b.0,
        a.0 >= b.0 ==> SubSpec::sub_spec(a, b).0 == a.0 - b.0,
        MulSpec::mul_req(a, b) <==> a.0 * b.0 <= usize::MAX,
        a.0 * b.0 <= usize::MAX ==> MulSpec::mul_spec(a, b).0 == a.0 * b.0,
        DivSpec::div_req(a, b) <==> b.0 != 0,
        b.0 != 0 ==> DivSpec::div_spec(a, b).0 == a.0 / b.0,
        RemSpec::rem_req(a, b) <==> b.0 != 0,
        b.0 != 0 ==> RemSpec::rem_spec(a, b).0 == a.0 % b.0,
{
}

impl TotalFilled {
    /// The text `Display` writes for the wrapped value.
    pub fn to_string(&self) -> (r: String)
        ensures
            r@ == decimal(self.0 as nat),
    {
        usize_to_decimal(self.0)
    }
}

/// Whether an order is still open.
#[derive(Debug, PartialEq, Eq, Clone, Copy, Structural)]
pub struct OrderOpen(pub bool);

impl core::ops::Deref for OrderOpen {
    type Target = bool;

    fn deref(&self) -> (r: &bool)
        ensures
            *r == self.0,
    {
        &self.0
    }
}

impl From<bool> for OrderOpen {
    fn from(v: bool) -> (r: OrderOpen)
        ensures
            r.0 == v,
    {
        OrderOpen(v)
    }
}

impl FromSpecImpl<bool> for OrderOpen {
    open spec fn obeys_from_spec() -> bool {
        true
    }

    open spec fn from_spec(v: bool) -> OrderOpen {
        OrderOpen(v)
    }
}

impl From<OrderOpen> for bool {
    fn from(v: OrderOpen) -> (r: bool)
        ensures
            r == v.0,
    {
        v.0
    }
}

impl FromSpecImpl<OrderOpen> for bool {
    open spec fn obeys_from_spec() -> bool {
        true
    }

    open spec fn from_spec(v: OrderOpen) -> bool {
        v.0
    }
}

impl OrderOpen {
    /// The text `Display` writes for the wrapped value.
    pub fn to_string(&self) -> (r: String)
        ensures
            r@ == bool_text(self.0),
    {
        bool_to_string(self.0)
    }
}

/// Best bid price.
#[derive(Debug, PartialEq, Eq, PartialOrd, Ord, Clone, Copy, Structural)]
pub struct Bid(pub u64);

impl core::ops::Deref for Bid {
    type Target = u64;

    fn deref(&self) -> (r: &u64)
        ensures
            *r == self.0,
    {
        &self.0
    }
}

impl From<u64> for Bid {
    fn from(v: u64) -> (r: Bid)
        ensures
            r.0 == v,
    {
        Bid(v)
    }
}

impl FromSpecImpl<u64> for Bid {
    open spec fn obeys_from_spec() -> bool {
        true
    }

    open spec fn from_spec(v: u64) -> Bid {
        Bid(v)
    }
}

impl From<Bid> for u64 {
    fn from(v: Bid) -> (r: u64)
        ensures
            r == v.0,
    {
        v.0
    }
}

impl FromSpecImpl<Bid> for u64 {
    open spec fn obeys_from_spec() -> bool {
        true
    }

    open spec fn from_spec(v: Bid) -> u64 {
        v.0
    }
}

impl core::ops::Add for Bid {
    type Output = Bid;

    fn add(self, rhs: Bid) -> (r: Bid)
        ensures
            r.0 == self.0 + rhs.0,
    {
        Bid(self.0 + rhs.0)
    }
}

impl AddSpecImpl for Bid {
    open spec fn obeys_add_spec() -> bool {
        true
    }

    open spec fn add_req(self, rhs: Bid) -> bool {
        self.0 + rhs.0 <= u64::MAX
    }

    open spec fn add_spec(self, rhs: Bid) -> Bid {
        Bid((self.0 + rhs.0) as u64)
    }
}

impl core::ops::Sub for Bid {
    type Output = Bid;

    fn sub(self, rhs: Bid) -> (r: Bid)
        ensures
            r.0 == self.0 - rhs.0,
    {
        Bid(self.0 - rhs.0)
    }
}

impl SubSpecImpl for Bid {
    open spec fn obeys_sub_spec() -> bool {
        true
    }

    open spec fn sub_req(self, rhs: Bid) -> bool {
        self.0 >= rhs.0
    }

    open spec fn sub_spec(self, rhs: Bid) -> Bid {
        Bid((self.0 - rhs.0) as u64)
    }
}

impl core::ops::Mul for Bid {
    type Output = Bid;

    fn mul(self, rhs: Bid) -> (r: Bid)
        ensures
            r.0 == self.0 * rhs.0,
    {
        Bid(self.0 * rhs.0)
    }
}

impl MulSpecImpl for Bid {
    open spec fn obeys_mul_spec() -> bool {
        true
    }

    open spec fn mul_req(self, rhs: Bid) -> bool {
        self.0 * rhs.0 <= u64::MAX
    }

    open spec fn mul_spec(self, rhs: Bid) -> Bid {
        Bid((self.0 * rhs.0) as u64)
    }
}

impl core::ops::Div for Bid {
    type Output = Bid;

    fn div(self, rhs: Bid) -> (r: Bid)
        ensures
            r.0 == self.0 / rhs.0,
    {
        Bid(self.0 / rhs.0)
    }
}

impl DivSpecImpl for Bid {
    open spec fn obeys_div_spec() -> bool {
        true
    }

    open spec fn div_req(self, rhs: Bid) -> bool {
        rhs.0 != 0
    }

    open spec fn div_spec(self, rhs: Bid) -> Bid {
        Bid((self.0 / rhs.0) as u64)
    }
}

impl core::ops::Rem for Bid {
    type Output = Bid;

    fn rem(self, rhs: Bid) -> (r: Bid)
        ensures
            r.0 == self.0 % rhs.0,
    {
        Bid(self.0 % rhs.0)
    }
}

impl RemSpecImpl for Bid {
    open spec fn obeys_rem_spec() -> bool {
        true
    }

    open spec fn rem_req(self, rhs: Bid) -> bool {
        rhs.0 != 0
    }

    open spec fn rem_spec(self, rhs: Bid) -> Bid {
        Bid((self.0 % rhs.0) as u64)
    }
}

/// Arithmetic on `Bid` is arithmetic on the numbers it wraps: each
/// operator is allowed exactly where the plain operation stays in range
/// (and, for division and remainder, the divisor is not zero), and its
/// result wraps the plain result.
pub proof fn law_bid_arithmetic(a: Bid, b: Bid)
    ensures
        AddSpec::add_req(a, b) <==> a.0 + b.0 <= u64::MAX,
        a.0 + b.0 <= u64::MAX ==> AddSpec::add_spec(a, b).0 == a.0 + b.0,
        SubSpec::sub_req(a, b) <==> a.0 >= b.0,
        a.0 >= b.0 ==> SubSpec::sub_spec(a, b).0 == a.0 - b.0,
        MulSpec::mul_req(a, b) <==> a.0 * b.0 <= u64::MAX,
        a.0 * b.0 <= u64::MAX ==> MulSpec::mul_spec(a, b).0 == a.0 * b.0,
        DivSpec::div_req(a, b) <==> b.0 != 0,
        b.0 != 0 ==> DivSpec::div_spec(a, b).0 == a.0 / b.0,
        RemSpec::rem_req(a, b) <==> b.0 != 0,
        b.0 != 0 ==> RemSpec::rem_spec(a, b).0 == a.0 % b.0,
{
}

impl Bid {
    /// The text `Display` writes for the wrapped value.
    pub fn to_string(&self) -> (r: String)
        ensures
            r@ == decimal(self.0 as nat),
    {
        u64_to_decimal(self.0)
    }
}

/// Best ask price.
#[derive(Debug, PartialEq, Eq, PartialOrd, Ord, Clone, Copy, Structural)]
pub struct Ask(pub u64);

impl core::ops::Deref for Ask {
    type Target = u64;

    fn deref(&self) -> (r: &u64)
        ensures
            *r == self.0,
    {
        &self.0
    }
}

impl From<u64> for Ask {
    fn from(v: u64) -> (r: Ask)
        ensures
            r.0 == v,
    {
        Ask(v)
    }
}

impl FromSpecImpl<u64> for Ask {
    open spec fn obeys_from_spec() -> bool {
        true
    }

    open spec fn from_spec(v: u64) -> Ask {
        Ask(v)
    }
}

impl From<Ask> for u64 {
    fn from(v: Ask) -> (r: u64)
        ensures
            r == v.0,
    {
        v.0
    }
}

impl FromSpecImpl<Ask> for u64 {
    open spec fn obeys_from_spec() -> bool {
        true
    }

    open spec fn from_spec(v: Ask) -> u64 {
        v.0
    }
}

impl core::ops::Add for Ask {
    type Output = Ask;

    fn add(self, rhs: Ask) -> (r: Ask)
        ensures
            r.0 == self.0 + rhs.0,
    {
        Ask(self.0 + rhs.0)
    }
}

impl AddSpecImpl for Ask {
    open spec fn obeys_add_spec() -> bool {
        true
    }

    open spec fn add_req(self, rhs: Ask) -> bool {
        self.0 + rhs.0 <= u64::MAX
    }

    open spec fn add_spec(self, rhs: Ask) -> Ask {
        Ask((self.0 + rhs.0) as u64)
    }
}

impl core::ops::Sub for Ask {
    type Output = Ask;

    fn sub(self, rhs: Ask) -> (r: Ask)
        ensures
            r.0 == self.0 - rhs.0,
    {
        Ask(self.0 - rhs.0)
    }
}

impl SubSpecImpl for Ask {
    open spec fn obeys_sub_spec() -> bool {
        true
    }

    open spec fn sub_req(self, rhs: Ask) -> bool {
        self.0 >= rhs.0
    }

    open spec fn sub_spec(self, rhs: Ask) -> Ask {
        Ask((self.0 - rhs.0) as u64)
    }
}

impl core::ops::Mul for Ask {
    type Output = Ask;

    fn mul(self, rhs: Ask) -> (r: Ask)
        ensures
            r.0 == self.0 * rhs.0,
    {
        Ask(self.0 * rhs.0)
    }
}

impl MulSpecImpl for Ask {
    open spec fn obeys_mul_spec() -> bool {
        true
    }

    open spec fn mul_req(self, rhs: Ask) -> bool {
        self.0 * rhs.0 <= u64::MAX
    }

    open spec fn mul_spec(self, rhs: Ask) -> Ask {
        Ask((self.0 * rhs.0) as u64)
    }
}

impl core::ops::Div for Ask {
    type Output = Ask;

    fn div(self, rhs: Ask) -> (r: Ask)
        ensures
            r.0 == self.0 / rhs.0,
    {
        Ask(self.0 / rhs.0)
    }
}

impl DivSpecImpl for Ask {
    open spec fn obeys_div_spec() -> bool {
        true
    }

    open spec fn div_req(self, rhs: Ask) -> bool {
        rhs.0 != 0
    }

    open spec fn div_spec(self, rhs: Ask) -> Ask {
        Ask((self.0 / rhs.0) as u64)
    }
}

impl core::ops::Rem for Ask {
    type Output = Ask;

    fn rem(self, rhs: Ask) -> (r: Ask)
        ensures
            r.0 == self.0 % rhs.0,
    {
        Ask(self.0 % rhs.0)
    }
}

impl RemSpecImpl for Ask {
    open spec fn obeys_rem_spec() -> bool {
        true
    }

    open spec fn rem_req(self, rhs: Ask) -> bool {
        rhs.0 != 0
    }

    open spec fn rem_spec(self, rhs: Ask) -> Ask {
        Ask((self.0 % rhs.0) as u64)
    }
}

/// Arithmetic on `Ask` is arithmetic on the numbers it wraps: each
/// operator is allowed exactly where the plain operation stays in range
/// (and, for division and remainder, the divisor is not zero), and its
/// result wraps the plain result.
pub proof fn law_ask_arithmetic(a: Ask, b: Ask)
    ensures
        AddSpec::add_req(a, b) <==> a.0 + b.0 <= u64::MAX,
        a.0 + b.0 <= u64::MAX ==> AddSpec::add_spec(a, b).0 == a.0 + b.0,
        SubSpec::sub_req(a, b) <==> a.0 >= b.0,
        a.0 >= b.0 ==> SubSpec::sub_spec(a, b).0 == a.0 - b.0,
        MulSpec::mul_req(a, b) <==> a.0 * b.0 <= u64::MAX,
        a.0 * b.0 <= u64::MAX ==> MulSpec::mul_spec(a, b).0 == a.0 * b.0,
        DivSpec::div_req(a, b) <==> b.0 != 0,
        b.0 != 0 ==> DivSpec::div_spec(a, b).0 == a.0 / b.0,
        RemSpec::rem_req(a, b) <==> b.0 != 0,
        b.0 != 0 ==> RemSpec::rem_spec(a, b).0 == a.0 % b.0,
{
}

impl Ask {
    /// The text `Display` writes for the wrapped value.
    pub fn to_string(&self) -> (r: String)
        ensures
            r@ == decimal(self.0 as nat),
    {
        u64_to_decimal(self.0)
    }
}

/// Size at the best bid.
#[derive(Debug, PartialEq, Eq, PartialOrd, Ord, Clone, Copy, Structural)]
pub struct BidSize(pub u64);

impl core::ops::Deref for BidSize {
    type Target = u64;

    fn deref(&self) -> (r: &u64)
        ensures
            *r == self.0,
    {
        &self.0
    }
}

impl From<u64> for BidSize {
    fn from(v: u64) -> (r: BidSize)
        ensures
            r.0 == v,
    {
        BidSize(v)
    }
}

impl FromSpecImpl<u64> for BidSize {
    open spec fn obeys_from_spec() -> bool {
        true
    }

    open spec fn from_spec(v: u64) -> BidSize {
        BidSize(v)
    }
}

impl From<BidSize> for u64 {
    fn from(v: BidSize) -> (r: u64)
        ensures
            r == v.0,
    {
        v.0
    }
}

impl FromSpecImpl<BidSize> for u64 {
    open spec fn obeys_from_spec() -> bool {
        true
    }

    open spec fn from_spec(v: BidSize) -> u64 {
        v.0
    }
}

impl core::ops::Add for BidSize {
    type Output = BidSize;

    fn add(self, rhs: BidSize) -> (r: BidSize)
        ensures
            r.0 == self.0 + rhs.0,
    {
        BidSize(self.0 + rhs.0)
    }
}

impl AddSpecImpl for BidSize {
    open spec fn obeys_add_spec() -> bool {
        true
    }

    open spec fn add_req(self, rhs: BidSize) -> bool {
        self.0 + rhs.0 <= u64::MAX
    }

    open spec fn add_spec(self, rhs: BidSize) -> BidSize {
        BidSize((self.0 + rhs.0) as u64)
    }
}

impl core::ops::Sub for BidSize {
    type Output = BidSize;

    fn sub(self, rhs: BidSize) -> (r: BidSize)
        ensures
            r.0 == self.0 - rhs.0,
    {
        BidSize(self.0 - rhs.0)
    }
}

impl SubSpecImpl for BidSize {
    open spec fn obeys_sub_spec() -> bool {
        true
    }

    open spec fn sub_req(self, rhs: BidSize) -> bool {
        self.0 >= rhs.0
    }

    open spec fn sub_spec(self, rhs: BidSize) -> BidSize {
        BidSize((self.0 - rhs.0) as u64)
    }
}

impl core::ops::Mul for BidSize {
    type Output = BidSize;

    fn mul(self, rhs: BidSize) -> (r: BidSize)
        ensures
            r.0 == self.0 * rhs.0,
    {
        BidSize(self.0 * rhs.0)
    }
}

impl MulSpecImpl for BidSize {
    open spec fn obeys_mul_spec() -> bool {
        true
    }

    open spec fn mul_req(self, rhs: BidSize) -> bool {
        self.0 * rhs.0 <= u64::MAX
    }

    open spec fn mul_spec(self, rhs: BidSize) -> BidSize {
        BidSize((self.0 * rhs.0) as u64)
    }
}

impl core::ops::Div for BidSize {
    type Output = BidSize;

    fn div(self, rhs: BidSize) -> (r: BidSize)
        ensures
            r.0 == self.0 / rhs.0,
    {
        BidSize(self.0 / rhs.0)
    }
}

impl DivSpecImpl for BidSize {
    open spec fn obeys_div_spec() -> bool {
        true
    }

    open spec fn div_req(self, rhs: BidSize) -> bool {
        rhs.0 != 0
    }

    open spec fn div_spec(self, rhs: BidSize) -> BidSize {
        BidSize((self.0 / rhs.0) as u64)
    }
}

impl core::ops::Rem for BidSize {
    type Output = BidSize;

    fn rem(self, rhs: BidSize) -> (r: BidSize)
        ensures
            r.0 == self.0 % rhs.0,
    {
        BidSize(self.0 % rhs.0)
    }
}

impl RemSpecImpl for BidSize {
    open spec fn obeys_rem_spec() -> bool {
        true
    }

    open spec fn rem_req(self, rhs: BidSize) -> bool {
        rhs.0 != 0
    }

    open spec fn rem_spec(self, rhs: BidSize) -> BidSize {
        BidSize((self.0 % rhs.0) as u64)
    }
}

/// Arithmetic on `BidSize` is arithmetic on the numbers it wraps: each
/// operator is allowed exactly where the plain operation stays in range
/// (and, for division and remainder, the divisor is not zero), and its
/// result wraps the plain result.
pub proof fn law_bid_size_arithmetic(a: BidSize, b: BidSize)
    ensures
        AddSpec::add_req(a, b) <==> a.0 + b.0 <= u64::MAX,
        a.0 + b.0 <= u64::MAX ==> AddSpec::add_spec(a, b).0 == a.0 + b.0,
        SubSpec::sub_req(a, b) <==> a.0 >= b.0,
        a.0 >= b.0 ==> SubSpec::sub_spec(a, b).0 == a.0 - b.0,
        MulSpec::mul_req(a, b) <==> a.0 * b.0 <= u64::MAX,
        a.0 * b.0 <= u64::MAX ==> MulSpec::mul_spec(a, b).0 == a.0 * b.0,
        DivSpec::div_req(a, b) <==> b.0 != 0,
        b.0 != 0 ==> DivSpec::div_spec(a, b).0 == a.0 / b.0,
        RemSpec::rem_req(a, b) <==> b.0 != 0,
        b.0 != 0 ==> RemSpec::rem_spec(a, b).0 == a.0 % b.0,
{
}

impl BidSize {
    /// The text `Display` writes for the wrapped value.
    pub fn to_string(&self) -> (r: String)
        ensures
            r@ == decimal(self.0 as nat),
    {
        u64_to_decimal(self.0)
    }
}

/// Size at the best ask.
#[derive(Debug, PartialEq, Eq, PartialOrd, Ord, Clone, Copy, Structural)]
pub struct AskSize(pub u64);

impl core::ops::Deref for AskSize {
    type Target = u64;

    fn deref(&self) -> (r: &u64)
        ensures
            *r == self.0,
    {
        &self.0
    }
}

impl From<u64> for AskSize {
    fn from(v: u64) -> (r: AskSize)
        ensures
            r.0 == v,
    {
        AskSize(v)
    }
}

impl FromSpecImpl<u64> for AskSize {
    open spec fn obeys_from_spec() -> bool {
        true
    }

    open spec fn from_spec(v: u64) -> AskSize {
        AskSize(v)
    }
}

impl From<AskSize> for u64 {
    fn from(v: AskSize) -> (r: u64)
        ensures
            r == v.0,
    {
        v.0
    }
}

impl FromSpecImpl<AskSize> for u64 {
    open spec fn obeys_from_spec() -> bool {
        true
    }

    open spec fn from_spec(v: AskSize) -> u64 {
        v.0
    }
}

impl core::ops::Add for AskSize {
    type Output = AskSize;

    fn add(self, rhs: AskSize) -> (r: AskSize)
        ensures
            r.0 == self.0 + rhs.0,
    {
        AskSize(self.0 + rhs.0)
    }
}

impl AddSpecImpl for AskSize {
    open spec fn obeys_add_spec() -> bool {
        true
    }

    open spec fn add_req(self, rhs: AskSize) -> bool {
        self.0 + rhs.0 <= u64::MAX
    }

    open spec fn add_spec(self, rhs: AskSize) -> AskSize {
        AskSize((self.0 + rhs.0) as u64)
    }
}

impl core::ops::Sub for AskSize {
    type Output = AskSize;

    fn sub(self, rhs: AskSize) -> (r: AskSize)
        ensures
            r.0 == self.0 - rhs.0,
    {
        AskSize(self.0 - rhs.0)
    }
}

impl SubSpecImpl for AskSize {
    open spec fn obeys_sub_spec() -> bool {
        true
    }

    open spec fn sub_req(self, rhs: AskSize) -> bool {
        self.0 >= rhs.0
    }

    open spec fn sub_spec(self, rhs: AskSize) -> AskSize {
        AskSize((self.0 - rhs.0) as u64)
    }
}

impl core::ops::Mul for AskSize {
    type Output = AskSize;

    fn mul(self, rhs: AskSize) -> (r: AskSize)
        ensures
            r.0 == self.0 * rhs.0,
    {
        AskSize(self.0 * rhs.0)
    }
}

impl MulSpecImpl for AskSize {
    open spec fn obeys_mul_spec() -> bool {
        true
    }

    open spec fn mul_req(self, rhs: AskSize) -> bool {
        self.0 * rhs.0 <= u64::MAX
    }

    open spec fn mul_spec(self, rhs: AskSize) -> AskSize {
        AskSize((self.0 * rhs.0) as u64)
    }
}

impl core::ops::Div for AskSize {
    type Output = AskSize;

    fn div(self, rhs: AskSize) -> (r: AskSize)
        ensures
            r.0 == self.0 / rhs.0,
    {
        AskSize(self.0 / rhs.0)
    }
}

impl DivSpecImpl for AskSize {
    open spec fn obeys_div_spec() -> bool {
        true
    }

    open spec fn div_req(self, rhs: AskSize) -> bool {
        rhs.0 != 0
    }

    open spec fn div_spec(self, rhs: AskSize) -> AskSize {
        AskSize((self.0 / rhs.0) as u64)
    }
}

impl core::ops::Rem for AskSize {
    type Output = AskSize;

    fn rem(self, rhs: AskSize) -> (r: AskSize)
        ensures
            r.0 == self.0 % rhs.0,
    {
        AskSize(self.0 % rhs.0)
    }
}

impl RemSpecImpl for AskSize {
    open spec fn obeys_rem_spec() -> bool {
        true
    }

    open spec fn rem_req(self, rhs: AskSize) -> bool {
        rhs.0 != 0
    }

    open spec fn rem_spec(self, rhs: AskSize) -> AskSize {
        AskSize((self.0 % rhs.0) as u64)
    }
}

/// Arithmetic on `AskSize` is arithmetic on the numbers it wraps: each
/// operator is allowed exactly where the plain operation stays in range
/// (and, for division and remainder, the divisor is not zero), and its
/// result wraps the plain result.
pub proof fn law_ask_size_arithmetic(a: AskSize, b: AskSize)
    ensures
        AddSpec::add_req(a, b) <==> a.0 + b.0 <= u64::MAX,
        a.0 + b.0 <= u64::MAX ==> AddSpec::add_spec(a, b).0 == a.0 + b.0,
        SubSpec::sub_req(a, b) <==> a.0 >= b.0,
        a.0 >= b.0 ==> SubSpec::sub_spec(a, b).0 == a.0 - b.0,
        MulSpec::mul_req(a, b) <==> a.0 * b.0 <= u64::MAX,
        a.0 * b.0 <= u64::MAX ==> MulSpec::mul_spec(a, b).0 == a.0 * b.0,
        DivSpec::div_req(a, b) <==> b.0 != 0,
        b.0 != 0 ==> DivSpec::div_spec(a, b).0 == a.0 / b.0,
        RemSpec::rem_req(a, b) <==> b.0 != 0,
        b.0 != 0 ==> RemSpec::rem_spec(a, b).0 == a.0 % b.0,
{
}

impl AskSize {
    /// The text `Display` writes for the wrapped value.
    pub fn to_string(&self) -> (r: String)
        ensures
            r@ == decimal(self.0 as nat),
    {
        u64_to_decimal(self.0)
    }
}

/// Total size on the bid side of the book.
#[derive(Debug, PartialEq, Eq, PartialOrd, Ord, Clone, Copy, Structural)]
pub struct BidDepth(pub u64);

impl core::ops::Deref for BidDepth {
    type Target = u64;

    fn deref(&self) -> (r: &u64)
        ensures
            *r == self.0,
    {
        &self.0
    }
}

impl From<u64> for BidDepth {
    fn from(v: u64) -> (r: BidDepth)
        ensures
            r.0 == v,
    {
        BidDepth(v)
    }
}

impl FromSpecImpl<u64> for BidDepth {
    open spec fn obeys_from_spec() -> bool {
        true
    }

    open spec fn from_spec(v: u64) -> BidDepth {
        BidDepth(v)
    }
}

impl From<BidDepth> for u64 {
    fn from(v: BidDepth) -> (r: u64)
        ensures
            r == v.0,
    {
        v.0
    }
}

impl FromSpecImpl<BidDepth> for u64 {
    open spec fn obeys_from_spec() -> bool {
        true
    }

    open spec fn from_spec(v: BidDepth) -> u64 {
        v.0
    }
}

impl core::ops::Add for BidDepth {
    type Output = BidDepth;

    fn add(self, rhs: BidDepth) -> (r: BidDepth)
        ensures
            r.0 == self.0 + rhs.0,
    {
        BidDepth(self.0 + rhs.0)
    }
}

impl AddSpecImpl for BidDepth {
    open spec fn obeys_add_spec() -> bool {
        true
    }

    open spec fn add_req(self, rhs: BidDepth) -> bool {
        self.0 + rhs.0 <= u64::MAX
    }

    open spec fn add_spec(self, rhs: BidDepth) -> BidDepth {
        BidDepth((self.0 + rhs.0) as u64)
    }
}

impl core::ops::Sub for BidDepth {
    type Output = BidDepth;

    fn sub(self, rhs: BidDepth) -> (r: BidDepth)
        ensures
            r.0 == self.0 - rhs.0,
    {
        BidDepth(self.0 - rhs.0)
    }
}

impl SubSpecImpl for BidDepth {
    open spec fn obeys_sub_spec() -> bool {
        true
    }

    open spec fn sub_req(self, rhs: BidDepth) -> bool {
        self.0 >= rhs.0
    }

    open spec fn sub_spec(self, rhs: BidDepth) -> BidDepth {
        BidDepth((self.0 - rhs.0) as u64)
    }
}

impl core::ops::Mul for BidDepth {
    type Output = BidDepth;

    fn mul(self, rhs: BidDepth) -> (r: BidDepth)
        ensures
            r.0 == self.0 * rhs.0,
    {
        BidDepth(self.0 * rhs.0)
    }
}

impl MulSpecImpl for BidDepth {
    open spec fn obeys_mul_spec() -> bool {
        true
    }

    open spec fn mul_req(self, rhs: BidDepth) -> bool {
        self.0 * rhs.0 <= u64::MAX
    }

    open spec fn mul_spec(self, rhs: BidDepth) -> BidDepth {
        BidDepth((self.0 * rhs.0) as u64)
    }
}

impl core::ops::Div for BidDepth {
    type Output = BidDepth;

    fn div(self, rhs: BidDepth) -> (r: BidDepth)
        ensures
            r.0 == self.0 / rhs.0,
    {
        BidDepth(self.0 / rhs.0)
    }
}

impl DivSpecImpl for BidDepth {
    open spec fn obeys_div_spec() -> bool {
        true
    }

    open spec fn div_req(self, rhs: BidDepth) -> bool {
        rhs.0 != 0
    }

    open spec fn div_spec(self, rhs: BidDepth) -> BidDepth {
        BidDepth((self.0 / rhs.0) as u64)
    }
}

impl core::ops::Rem for BidDepth {
    type Output = BidDepth;

    fn rem(self, rhs: BidDepth) -> (r: BidDepth)
        ensures
            r.0 == self.0 % rhs.0,
    {
        BidDepth(self.0 % rhs.0)
    }
}

impl RemSpecImpl for BidDepth {
    open spec fn obeys_rem_spec() -> bool {
        true
    }

    open spec fn rem_req(self, rhs: BidDepth) -> bool {
        rhs.0 != 0
    }

    open spec fn rem_spec(self, rhs: BidDepth) -> BidDepth {
        BidDepth((self.0 % rhs.0) as u64)
    }
}

/// Arithmetic on `BidDepth` is arithmetic on the numbers it wraps: each
/// operator is allowed exactly where the plain operation stays in range
/// (and, for division and remainder, the divisor is not zero), and its
/// result wraps the plain result.
pub proof fn law_bid_depth_arithmetic(a: BidDepth, b: BidDepth)
    ensures
        AddSpec::add_req(a, b) <==> a.0 + b.0 <= u64::MAX,
        a.0 + b.0 <= u64::MAX ==> AddSpec::add_spec(a, b).0 == a.0 + b.0,
        SubSpec::sub_req(a, b) <==> a.0 >= b.0,
        a.0 >= b.0 ==> SubSpec::sub_spec(a, b).0 == a.0 - b.0,
        MulSpec::mul_req(a, b) <==> a.0 * b.0 <= u64::MAX,
        a.0 * b.0 <= u64::MAX ==> MulSpec::mul_spec(a, b).0 == a.0 * b.0,
        DivSpec::div_req(a, b) <==> b.0 != 0,
        b.0 != 0 ==> DivSpec::div_spec(a, b).0 == a.0 / b.0,
        RemSpec::rem_req(a, b) <==> b.0 != 0,
        b.0 != 0 ==> RemSpec::rem_spec(a, b).0 == a.0 % b.0,
{
}

impl BidDepth {
    /// The text `Display` writes for the wrapped value.
    pub fn to_string(&self) -> (r: String)
        ensures
            r@ == decimal(self.0 as nat),
    {
        u64_to_decimal(self.0)
    }
}

/// Total size on the ask side of the book.
#[derive(Debug, PartialEq, Eq, PartialOrd, Ord, Clone, Copy, Structural)]
pub struct AskDepth(pub u64);

impl core::ops::Deref for AskDepth {
    type Target = u64;

    fn deref(&self) -> (r: &u64)
        ensures
            *r == self.0,
    {
        &self.0
    }
}

impl From<u64> for AskDepth {
    fn from(v: u64) -> (r: AskDepth)
        ensures
            r.0 == v,
    {
        AskDepth(v)
    }
}

impl FromSpecImpl<u64> for AskDepth {
    open spec fn obeys_from_spec() -> bool {
        true
    }

    open spec fn from_spec(v: u64) -> AskDepth {
        AskDepth(v)
    }
}

impl From<AskDepth> for u64 {
    fn from(v: AskDepth) -> (r: u64)
        ensures
            r == v.0,
    {
        v.0
    }
}

impl FromSpecImpl<AskDepth> for u64 {
    open spec fn obeys_from_spec() -> bool {
        true
    }

    open spec fn from_spec(v: AskDepth) -> u64 {
        v.0
    }
}

impl core::ops::Add for AskDepth {
    type Output = AskDepth;

    fn add(self, rhs: AskDepth) -> (r: AskDepth)
        ensures
            r.0 == self.0 + rhs.0,
    {
        AskDepth(self.0 + rhs.0)
    }
}

impl AddSpecImpl for AskDepth {
    open spec fn obeys_add_spec() -> bool {
        true
    }

    open spec fn add_req(self, rhs: AskDepth) -> bool {
        self.0 + rhs.0 <= u64::MAX
    }

    open spec fn add_spec(self, rhs: AskDepth) -> AskDepth {
        AskDepth((self.0 + rhs.0) as u64)
    }
}

impl core::ops::Sub for AskDepth {
    type Output = AskDepth;

    fn sub(self, rhs: AskDepth) -> (r: AskDepth)
        ensures
            r.0 == self.0 - rhs.0,
    {
        AskDepth(self.0 - rhs.0)
    }
}

impl SubSpecImpl for AskDepth {
    open spec fn obeys_sub_spec() -> bool {
        true
    }

    open spec fn sub_req(self, rhs: AskDepth) -> bool {
        self.0 >= rhs.0
    }

    open spec fn sub_spec(self, rhs: AskDepth) -> AskDepth {
        AskDepth((self.0 - rhs.0) as u64)
    }
}

impl core::ops::Mul for AskDepth {
    type Output = AskDepth;

    fn mul(self, rhs: AskDepth) -> (r: AskDepth)
        ensures
            r.0 == self.0 * rhs.0,
    {
        AskDepth(self.0 * rhs.0)
    }
}

impl MulSpecImpl for AskDepth {
    open spec fn obeys_mul_spec() -> bool {
        true
    }

    open spec fn mul_req(self, rhs: AskDepth) -> bool {
        self.0 * rhs.0 <= u64::MAX
    }

    open spec fn mul_spec(self, rhs: AskDepth) -> AskDepth {
        AskDepth((self.0 * rhs.0) as u64)
    }
}

impl core::ops::Div for AskDepth {
    type Output = AskDepth;

    fn div(self, rhs: AskDepth) -> (r: AskDepth)
        ensures
            r.0 == self.0 / rhs.0,
    {
        AskDepth(self.0 / rhs.0)
    }
}

impl DivSpecImpl for AskDepth {
    open spec fn obeys_div_spec() -> bool {
        true
    }

    open spec fn div_req(self, rhs: AskDepth) -> bool {
        rhs.0 != 0
    }

    open spec fn div_spec(self, rhs: AskDepth) -> AskDepth {
        AskDepth((self.0 / rhs.0) as u64)
    }
}

impl core::ops::Rem for AskDepth {
    type Output = AskDepth;

    fn rem(self, rhs: AskDepth) -> (r: AskDepth)
        ensures
            r.0 == self.0 % rhs.0,
    {
        AskDepth(self.0 % rhs.0)
    }
}

impl RemSpecImpl for AskDepth {
    open spec fn obeys_rem_spec() -> bool {
        true
    }

    open spec fn rem_req(self, rhs: AskDepth) -> bool {
        rhs.0 != 0
    }

    open spec fn rem_spec(self, rhs: AskDepth) -> AskDepth {
        AskDepth((self.0 % rhs.0) as u64)
    }
}

/// Arithmetic on `AskDepth` is arithmetic on the numbers it wraps: each
/// operator is allowed exactly where the plain operation stays in range
/// (and, for division and remainder, the divisor is not zero), and its
/// result wraps the plain result.
pub proof fn law_ask_depth_arithmetic(a: AskDepth, b: AskDepth)
    ensures
        AddSpec::add_req(a, b) <==> a.0 + b.0 <= u64::MAX,
        a.0 + b.0 <= u64::MAX ==> AddSpec::add_spec(a, b).0 == a.0 + b.0,
        SubSpec::sub_req(a, b) <==> a.0 >= b.0,
        a.0 >= b.0 ==> SubSpec::sub_spec(a, b).0 == a.0 - b.0,
        MulSpec::mul_req(a, b) <==> a.0 * b.0 <= u64::MAX,
        a.0 * b.0 <= u64::MAX ==> MulSpec::mul_spec(a, b).0 == a.0 * b.0,
        DivSpec::div_req(a, b) <==> b.0 != 0,
        b.0 != 0 ==> DivSpec::div_spec(a, b).0 == a.0 / b.0,
        RemSpec::rem_req(a, b) <==> b.0 != 0,
        b.0 != 0 ==> RemSpec::rem_spec(a, b).0 == a.0 % b.0,
{
}

impl AskDepth {
    /// The text `Display` writes for the wrapped value.
    pub fn to_string(&self) -> (r: String)
        ensures
            r@ == decimal(self.0 as nat),
    {
        u64_to_decimal(self.0)
    }
}

/// Price of the last trade.
#[derive(Debug, PartialEq, Eq, PartialOrd, Ord, Clone, Copy, Structural)]
pub struct Last(pub u64);

impl core::ops::Deref for Last {
    type Target = u64;

    fn deref(&self) -> (r: &u64)
        ensures
            *r == self.0,
    {
        &self.0
    }
}

impl From<u64> for Last {
    fn from(v: u64) -> (r: Last)
        ensures
            r.0 == v,
    {
        Last(v)
    }
}

impl FromSpecImpl<u64> for Last {
    open spec fn obeys_from_spec() -> bool {
        true
    }

    open spec fn from_spec(v: u64) -> Last {
        Last(v)
    }
}

impl From<Last> for u64 {
    fn from(v: Last) -> (r: u64)
        ensures
            r == v.0,
    {
        v.0
    }
}

impl FromSpecImpl<Last> for u64 {
    open spec fn obeys_from_spec() -> bool {
        true
    }

    open spec fn from_spec(v: Last) -> u64 {
        v.0
    }
}

impl core::ops::Add for Last {
    type Output = Last;

    fn add(self, rhs: Last) -> (r: Last)
        ensures
            r.0 == self.0 + rhs.0,
    {
        Last(self.0 + rhs.0)
    }
}

impl AddSpecImpl for Last {
    open spec fn obeys_add_spec() -> bool {
        true
    }

    open spec fn add_req(self, rhs: Last) -> bool {
        self.0 + rhs.0 <= u64::MAX
    }

    open spec fn add_spec(self, rhs: Last) -> Last {
        Last((self.0 + rhs.0) as u64)
    }
}

impl core::ops::Sub for Last {
    type Output = Last;

    fn sub(self, rhs: Last) -> (r: Last)
        ensures
            r.0 == self.0 - rhs.0,
    {
        Last(self.0 - rhs.0)
    }
}

impl SubSpecImpl for Last {
    open spec fn obeys_sub_spec() -> bool {
        true
    }

    open spec fn sub_req(self, rhs: Last) -> bool {
        self.0 >= rhs.0
    }

    open spec fn sub_spec(self, rhs: Last) -> Last {
        Last((self.0 - rhs.0) as u64)
    }
}

impl core::ops::Mul for Last {
    type Output = Last;

    fn mul(self, rhs: Last) -> (r: Last)
        ensures
            r.0 == self.0 * rhs.0,
    {
        Last(self.0 * rhs.0)
    }
}

impl MulSpecImpl for Last {
    open spec fn obeys_mul_spec() -> bool {
        true
    }

    open spec fn mul_req(self, rhs: Last) -> bool {
        self.0 * rhs.0 <= u64::MAX
    }

    open spec fn mul_spec(self, rhs: Last) -> Last {
        Last((self.0 * rhs.0) as u64)
    }
}

impl core::ops::Div for Last {
    type Output = Last;

    fn div(self, rhs: Last) -> (r: Last)
        ensures
            r.0 == self.0 / rhs.0,
    {
        Last(self.0 / rhs.0)
    }
}

impl DivSpecImpl for Last {
    open spec fn obeys_div_spec() -> bool {
        true
    }

    open spec fn div_req(self, rhs: Last) -> bool {
        rhs.0 != 0
    }

    open spec fn div_spec(self, rhs: Last) -> Last {
        Last((self.0 / rhs.0) as u64)
    }
}

impl core::ops::Rem for Last {
    type Output = Last;

    fn rem(self, rhs: Last) -> (r: Last)
        ensures
            r.0 == self.0 % rhs.0,
    {
        Last(self.0 % rhs.0)
    }
}

impl RemSpecImpl for Last {
    open spec fn obeys_rem_spec() -> bool {
        true
    }

    open spec fn rem_req(self, rhs: Last) -> bool {
        rhs.0 != 0
    }

    open spec fn rem_spec(self, rhs: Last) -> Last {
        Last((self.0 % rhs.0) as u64)
    }
}

/// Arithmetic on `Last` is arithmetic on the numbers it wraps: each
/// operator is allowed exactly where the plain operation stays in range
/// (and, for division and remainder, the divisor is not zero), and its
/// result wraps the plain result.
pub proof fn law_last_arithmetic(a: Last, b: Last)
    ensures
        AddSpec::add_req(a, b) <==> a.0 + b.0 <= u64::MAX,
        a.0 + b.0 <= u64::MAX ==> AddSpec::add_spec(a, b).0 == a.0 + b.0,
        SubSpec::sub_req(a, b) <==> a.0 >= b.0,
        a.0 >= b.0 ==> SubSpec::sub_spec(a, b).0 == a.0 - b.0,
        MulSpec::mul_req(a, b) <==> a.0 * b.0 <= u64::MAX,
        a.0 * b.0 <= u64::MAX ==> MulSpec::mul_spec(a, b).0 == a.0 * b.0,
        DivSpec::div_req(a, b) <==> b.0 != 0,
        b.0 != 0 ==> DivSpec::div_spec(a, b).0 == a.0 / b.0,
        RemSpec::rem_req(a, b) <==> b.0 != 0,
        b.0 != 0 ==> RemSpec::rem_spec(a, b).0 == a.0 % b.0,
{
}

impl Last {
    /// The text `Display` writes for the wrapped value.
    pub fn to_string(&self) -> (r: String)
        ensures
            r@ == decimal(self.0 as nat),
    {
        u64_to_decimal(self.0)
    }
}

/// Size of the last trade.
#[derive(Debug, PartialEq, Eq, PartialOrd, Ord, Clone, Copy, Structural)]
pub struct LastSize(pub u64);

impl core::ops::Deref for LastSize {
    type Target = u64;

    fn deref(&self) -> (r: &u64)
        ensures
            *r == self.0,
    {
        &self.0
    }
}

impl From<u64> for LastSize {
    fn from(v: u64) -> (r: LastSize)
        ensures
            r.0 == v,
    {
        LastSize(v)
    }
}

impl FromSpecImpl<u64> for LastSize {
    open spec fn obeys_from_spec() -> bool {
        true
    }

    open spec fn from_spec(v: u64) -> LastSize {
        LastSize(v)
    }
}

impl From<LastSize> for u64 {
    fn from(v: LastSize) -> (r: u64)
        ensures
            r == v.0,
    {
        v.0
    }
}

impl FromSpecImpl<LastSize> for u64 {
    open spec fn obeys_from_spec() -> bool {
        true
    }

    open spec fn from_spec(v: LastSize) -> u64 {
        v.0
    }
}

impl core::ops::Add for LastSize {
    type Output = LastSize;

    fn add(self, rhs: LastSize) -> (r: LastSize)
        ensures
            r.0 == self.0 + rhs.0,
    {
        LastSize(self.0 + rhs.0)
    }
}

impl AddSpecImpl for LastSize {
    open spec fn obeys_add_spec() -> bool {
        true
    }

    open spec fn add_req(self, rhs: LastSize) -> bool {
        self.0 + rhs.0 <= u64::MAX
    }

    open spec fn add_spec(self, rhs: LastSize) -> LastSize {
        LastSize((self.0 + rhs.0) as u64)
    }
}

impl core::ops::Sub for LastSize {
    type Output = LastSize;

    fn sub(self, rhs: LastSize) -> (r: LastSize)
        ensures
            r.0 == self.0 - rhs.0,
    {
        LastSize(self.0 - rhs.0)
    }
}

impl SubSpecImpl for LastSize {
    open spec fn obeys_sub_spec() -> bool {
        true
    }

    open spec fn sub_req(self, rhs: LastSize) -> bool {
        self.0 >= rhs.0
    }

    open spec fn sub_spec(self, rhs: LastSize) -> LastSize {
        LastSize((self.0 - rhs.0) as u64)
    }
}

impl core::ops::Mul for LastSize {
    type Output = LastSize;

    fn mul(self, rhs: LastSize) -> (r: LastSize)
        ensures
            r.0 == self.0 * rhs.0,
    {
        LastSize(self.0 * rhs.0)
    }
}

impl MulSpecImpl for LastSize {
    open spec fn obeys_mul_spec() -> bool {
        true
    }

    open spec fn mul_req(self, rhs: LastSize) -> bool {
        self.0 * rhs.0 <= u64::MAX
    }

    open spec fn mul_spec(self, rhs: LastSize) -> LastSize {
        LastSize((self.0 * rhs.0) as u64)
    }
}

impl core::ops::Div for LastSize {
    type Output = LastSize;

    fn div(self, rhs: LastSize) -> (r: LastSize)
        ensures
            r.0 == self.0 / rhs.0,
    {
        LastSize(self.0 / rhs.0)
    }
}

impl DivSpecImpl for LastSize {
    open spec fn obeys_div_spec() -> bool {
        true
    }

    open spec fn div_req(self, rhs: LastSize) -> bool {
        rhs.0 != 0
    }

    open spec fn div_spec(self, rhs: LastSize) -> LastSize {
        LastSize((self.0 / rhs.0) as u64)
    }
}

impl core::ops::Rem for LastSize {
    type Output = LastSize;

    fn rem(self, rhs: LastSize) -> (r: LastSize)
        ensures
            r.0 == self.0 % rhs.0,
    {
        LastSize(self.0 % rhs.0)
    }
}

impl RemSpecImpl for LastSize {
    open spec fn obeys_rem_spec() -> bool {
        true
    }

    open spec fn rem_req(self, rhs: LastSize) -> bool {
        rhs.0 != 0
    }

    open spec fn rem_spec(self, rhs: LastSize) -> LastSize {
        LastSize((self.0 % rhs.0) as u64)
    }
}

/// Arithmetic on `LastSize` is arithmetic on the numbers it wraps: each
/// operator is allowed exactly where the plain operation stays in range
/// (and, for division and remainder, the divisor is not zero), and its
/// result wraps the plain result.
pub proof fn law_last_size_arithmetic(a: LastSize, b: LastSize)
    ensures
        AddSpec::add_req(a, b) <==> a.0 + b.0 <= u64::MAX,
        a.0 + b.0 <= u64::MAX ==> AddSpec::add_spec(a, b).0 == a.0 + b.0,
        SubSpec::sub_req(a, b) <==> a.0 >= b.0,
        a.0 >= b.0 ==> SubSpec::sub_spec(a, b).0 == a.0 - b.0,
        MulSpec::mul_req(a, b) <==> a.0 * b.0 <= u64::MAX,
        a.0 * b.0 <= u64::MAX ==> MulSpec::mul_spec(a, b).0 == a.0 * b.0,
        DivSpec::div_req(a, b) <==> b.0 != 0,
        b.0 != 0 ==> DivSpec::div_spec(a, b).0 == a.0 / b.0,
        RemSpec::rem_req(a, b) <==> b.0 != 0,
        b.0 != 0 ==> RemSpec::rem_spec(a, b).0 == a.0 % b.0,
{
}

impl LastSize {
    /// The text `Display` writes for the wrapped value.
    pub fn to_string(&self) -> (r: String)
        ensures
            r@ == decimal(self.0 as nat),
    {
        u64_to_decimal(self.0)
    }
}

/// The identifier of the standing order in a fill.
#[derive(Debug, PartialEq, Eq, Clone, Copy, Structural)]
pub struct StandingId(pub usize);

impl core::ops::Deref for StandingId {
    type Target = usize;

    fn deref(&self) -> (r: &usize)
        ensures
            *r == self.0,
    {
        &self.0
    }
}

impl From<usize> for StandingId {
    fn from(v: usize) -> (r: StandingId)
        ensures
            r.0 == v,
    {
        StandingId(v)
    }
}

impl FromSpecImpl<usize> for StandingId {
    open spec fn obeys_from_spec() -> bool {
        true
    }

    open spec fn from_spec(v: usize) -> StandingId {
        StandingId(v)
    }
}

impl From<StandingId> for usize {
    fn from(v: StandingId) -> (r: usize)
        ensures
            r == v.0,
    {
        v.0
    }
}

impl FromSpecImpl<StandingId> for usize {
    open spec fn obeys_from_spec() -> bool {
        true
    }

    open spec fn from_spec(v: StandingId) -> usize {
        v.0
    }
}

/// The identifier of the incoming order in a fill.
#[derive(Debug, PartialEq, Eq, Clone, Copy, Structural)]
pub struct IncomingId(pub usize);

impl core::ops::Deref for IncomingId {
    type Target = usize;

    fn deref(&self) -> (r: &usize)
        ensures
            *r == self.0,
    {
        &self.0
    }
}

impl From<usize> for IncomingId {
    fn from(v: usize) -> (r: IncomingId)
        ensures
            r.0 == v,
    {
        IncomingId(v)
    }
}

impl FromSpecImpl<usize> for IncomingId {
    open spec fn obeys_from_spec() -> bool {
        true
    }

    open spec fn from_spec(v: usize) -> IncomingId {
        IncomingId(v)
    }
}

impl From<IncomingId> for usize {
    fn from(v: IncomingId) -> (r: usize)
        ensures
            r == v.0,
    {
        v.0
    }
}

impl FromSpecImpl<IncomingId> for usize {
    open spec fn obeys_from_spec() -> bool {
        true
    }

    open spec fn from_spec(v: IncomingId) -> usize {
        v.0
    }
}

/// The quantity exchanged in a fill.
#[derive(Debug, PartialEq, Eq, PartialOrd, Ord, Clone, Copy, Structural)]
pub struct Filled(pub usize);

impl core::ops::Deref for Filled {
    type Target = usize;

    fn deref(&self) -> (r: &usize)
        ensures
            *r == self.0,
    {
        &self.0
    }
}

impl From<usize> for Filled {
    fn from(v: usize) -> (r: Filled)
        ensures
            r.0 == v,
    {
        Filled(v)
    }
}

impl FromSpecImpl<usize> for Filled {
    open spec fn obeys_from_spec() -> bool {
        true
    }

    open spec fn from_spec(v: usize) -> Filled {
        Filled(v)
    }
}

impl From<Filled> for usize {
    fn from(v: Filled) -> (r: usize)
        ensures
            r == v.0,
    {
        v.0
    }
}

impl FromSpecImpl<Filled> for usize {
    open spec fn obeys_from_spec() -> bool {
        true
    }

    open spec fn from_spec(v: Filled) -> usize {
        v.0
    }
}

impl core::ops::Add for Filled {
    type Output = Filled;

    fn add(self, rhs: Filled) -> (r: Filled)
        ensures
            r.0 == self.0 + rhs.0,
    {
        Filled(self.0 + rhs.0)
    }
}

impl AddSpecImpl for Filled {
    open spec fn obeys_add_spec() -> bool {
        true
    }

    open spec fn add_req(self, rhs: Filled) -> bool {
        self.0 + rhs.0 <= usize::MAX
    }

    open spec fn add_spec(self, rhs: Filled) -> Filled {
        Filled((self.0 + rhs.0) as usize)
    }
}

impl core::ops::Sub for Filled {
    type Output = Filled;

    fn sub(self, rhs: Filled) -> (r: Filled)
        ensures
            r.0 == self.0 - rhs.0,
    {
        Filled(self.0 - rhs.0)
    }
}

impl SubSpecImpl for Filled {
    open spec fn obeys_sub_spec() -> bool {
        true
    }

    open spec fn sub_req(self, rhs: Filled) -> bool {
        self.0 >= rhs.0
    }

    open spec fn sub_spec(self, rhs: Filled) -> Filled {
        Filled((self.0 - rhs.0) as usize)
    }
}

impl core::ops::Mul for Filled {
    type Output = Filled;

    fn mul(self, rhs: Filled) -> (r: Filled)
        ensures
            r.0 == self.0 * rhs.0,
    {
        Filled(self.0 * rhs.0)
    }
}

impl MulSpecImpl for Filled {
    open spec fn obeys_mul_spec() -> bool {
        true
    }

    open spec fn mul_req(self, rhs: Filled) -> bool {
        self.0 * rhs.0 <= usize::MAX
    }

    open spec fn mul_spec(self, rhs: Filled) -> Filled {
        Filled((self.0 * rhs.0) as usize)
    }
}

impl core::ops::Div for Filled {
    type Output = Filled;

    fn div(self, rhs: Filled) -> (r: Filled)
        ensures
            r.0 == self.0 / rhs.0,
    {
        Filled(self.0 / rhs.0)
    }
}

impl DivSpecImpl for Filled {
    open spec fn obeys_div_spec() -> bool {
        true
    }

    open spec fn div_req(self, rhs: Filled) -> bool {
        rhs.0 != 0
    }

    open spec fn div_spec(self, rhs: Filled) -> Filled {
        Filled((self.0 / rhs.0) as usize)
    }
}

impl core::ops::Rem for Filled {
    type Output = Filled;

    fn rem(self, rhs: Filled) -> (r: Filled)
        ensures
            r.0 == self.0 % rhs.0,
    {
        Filled(self.0 % rhs.0)
    }
}

impl RemSpecImpl for Filled {
    open spec fn obeys_rem_spec() -> bool {
        true
    }

    open spec fn rem_req(self, rhs: Filled) -> bool {
        rhs.0 != 0
    }

    open spec fn rem_spec(self, rhs: Filled) -> Filled {
        Filled((self.0 % rhs.0) as usize)
    }
}

/// Arithmetic on `Filled` is arithmetic on the numbers it wraps: each
/// operator is allowed exactly where the plain operation stays in range
/// (and, for division and remainder, the divisor is not zero), and its
/// result wraps the plain result.
pub proof fn law_filled_arithmetic(a: Filled, b: Filled)
    ensures
        AddSpec::add_req(a, b) <==> a.0 + b.0 <= usize::MAX,
        a.0 + b.0 <= usize::MAX ==> AddSpec::add_spec(a, b).0 == a.0 + b.0,
        SubSpec::sub_req(a, b) <==> a.0 >= b.0,
        a.0 >= b.0 ==> SubSpec::sub_spec(a, b).0 == a.0 - b.0,
        MulSpec::mul_req(a, b) <==> a.0 * b.0 <= usize::MAX,
        a.0 * b.0 <= usize::MAX ==> MulSpec::mul_spec(a, b).0 == a.0 * b.0,
        DivSpec::div_req(a, b) <==> b.0 != 0,
        b.0 != 0 ==> DivSpec::div_spec(a, b).0 == a.0 / b.0,
        RemSpec::rem_req(a, b) <==> b.0 != 0,
        b.0 != 0 ==> RemSpec::rem_spec(a, b).0 == a.0 % b.0,
{
}

/// Whether the standing order of a fill is complete.
#[derive(Debug, PartialEq, Eq, Clone, Copy, Structural)]
pub struct StandingComplete(pub bool);

impl core::ops::Deref for StandingComplete {
    type Target = bool;

    fn deref(&self) -> (r: &bool)
        ensures
            *r == self.0,
    {
        &self.0
    }
}

impl From<bool> for StandingComplete {
    fn from(v: bool) -> (r: StandingComplete)
        ensures
            r.0 == v,
    {
        StandingComplete(v)
    }
}

impl FromSpecImpl<bool> for StandingComplete {
    open spec fn obeys_from_spec() -> bool {
        true
    }

    open spec fn from_spec(v: bool) -> StandingComplete {
        StandingComplete(v)
    }
}

impl From<StandingComplete> for bool {
    fn from(v: StandingComplete) -> (r: bool)
        ensures
            r == v.0,
    {
        v.0
    }
}

impl FromSpecImpl<StandingComplete> for bool {
    open spec fn obeys_from_spec() -> bool {
        true
    }

    open spec fn from_spec(v: StandingComplete) -> bool {
        v.0
    }
}

/// Whether the incoming order of a fill is complete.
#[derive(Debug, PartialEq, Eq, Clone, Copy, Structural)]
pub struct IncomingComplete(pub bool);

impl core::ops::Deref for IncomingComplete {
    type Target = bool;

    fn deref(&self) -> (r: &bool)
        ensures
            *r == self.0,
    {
        &self.0
    }
}

impl From<bool> for IncomingComplete {
    fn from(v: bool) -> (r: IncomingComplete)
        ensures
            r.0 == v,
    {
        IncomingComplete(v)
    }
}

impl FromSpecImpl<bool> for IncomingComplete {
    open spec fn obeys_from_spec() -> bool {
        true
    }

    open spec fn from_spec(v: bool) -> IncomingComplete {
        IncomingComplete(v)
    }
}

impl From<IncomingComplete> for bool {
    fn from(v: IncomingComplete) -> (r: bool)
        ensures
            r == v.0,
    {
        v.0
    }
}

impl FromSpecImpl<IncomingComplete> for bool {
    open spec fn obeys_from_spec() -> bool {
        true
    }

    open spec fn from_spec(v: IncomingComplete) -> bool {
        v.0
    }
}

} // verus!
