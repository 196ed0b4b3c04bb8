use vstd::prelude::*;

verus! {

/// An enum describing the ticker's market.
#[derive(Clone, Copy, Debug, PartialEq, Eq, Structural)]
pub enum Market {
    /// The stock market.
    Stocks,
    /// The indices market.
    Indices,
    /// The foreign exchange market.
    ForeignExchange,
}

/// The wire name of a market.
pub open spec fn market_name(m: Market) -> Seq<char> {
    match m {
        Market::Stocks => "STOCKS"@,
        Market::Indices => "INDEX"@,
        Market::ForeignExchange => "FX"@,
    }
}

impl Market {
    /// The wire name of this market.
    pub fn as_ref(&self) -> (r: &'static str)
        ensures
            r@ == market_name(*self),
    {
        match self {
            Market::Stocks => "STOCKS",
            Market::Indices => "INDEX",
            Market::ForeignExchange => "FX",
        }
    }

    /// The market with the wire name `name`, if there is one.
    pub fn from_name(name: &str) -> (r: Option<Market>)
        ensures
            r matches Some(m) ==> market_name(m) == name@,
            r is None ==> forall|m: Market| market_name(m) != name@,
    {
        proof {
            reveal_strlit("STOCKS");
            reveal_strlit("INDEX");
            reveal_strlit("FX");
        }
        if crate::text::same_text(name, "STOCKS") {
            Some(Market::Stocks)
        } else if crate::text::same_text(name, "INDEX") {
            Some(Market::Indices)
        } else if crate::text::same_text(name, "FX") {
            Some(Market::ForeignExchange)
        } else {
            None
        }
    }
}

/// The type of a ticker.
///
/// Please note that not all types are made available, as the reference
/// set of types can be inquired dynamically.
#[derive(Clone, Copy, Debug, PartialEq, Eq, Structural)]
pub enum Type {
    /// The ticker represents a common stock.
    CommonStock,
    /// Any other type.
    Other,
}

impl Type {
    /// The wire name of this type; `Other` has none.
    pub fn as_str(&self) -> (r: Option<&'static str>)
        ensures
            *self == Type::CommonStock ==> (r matches Some(s) && s@ == "CS"@),
            *self == Type::Other ==> r is None,
    {
        match self {
            Type::CommonStock => Some("CS"),
            Type::Other => None,
        }
    }

    /// The type with the wire name `name`: `CS`, or any other.
    pub fn from_name(name: &str) -> (r: Type)
        ensures
            r == Type::CommonStock <==> name@ == "CS"@,
    {
        if crate::text::same_text(name, "CS") {
            Type::CommonStock
        } else {
            Type::Other
        }
    }
}

/// A ticker as returned by the `/v2/reference/tickers/<ticker>` endpoint.
///
/// Please note that not all fields available in a response are
/// represented here.
#[derive(Clone, Debug, PartialEq)]
pub struct Ticker {
    /// The ticker.
    pub ticker: String,
    /// The ticker's name.
    pub name: String,
    /// The ticker's market.
    pub market: Market,
    /// The locale.
    pub locale: String,
    /// The ticker's currency.
    pub currency: String,
    /// Whether the ticker is still active.
    pub active: bool,
    /// The ticker's type.
    pub type_: Option<Type>,
}

/// The response of the `/v2/reference/tickers/<ticker>` endpoint.
#[derive(Clone, Debug, PartialEq)]
pub struct TickerResp {
    /// The ticker information.
    pub ticker: Ticker,
}

/// The path of the endpoint for the ticker `symbol`.
pub fn path(symbol: &str) -> (r: String)
    ensures
        r@ == "/v2/reference/tickers/"@ + symbol@,
{
    String::from_str("/v2/reference/tickers/").concat(symbol)
}

} // verus!
