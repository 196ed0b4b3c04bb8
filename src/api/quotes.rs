use vstd::prelude::*;

use num_decimal::Num;

use crate::text::appended;
use crate::text::append_pair;

verus! {

/// Filters quote data based on the timestamp in the given direction of
/// time.
#[derive(Clone, Copy, Debug, PartialEq, Eq, Structural)]
pub enum QuoteTimespanFilter {
    /// Filter for data older than the given timestamp.
    LessThan,
    /// Filter for data older than, or as old as, the given timestamp.
    LessThanEqual,
    /// Filter for data newer than the given timestamp.
    GreaterThan,
    /// Filter for data newer than, or as new as, the given timestamp.
    GreaterThanEqual,
}

/// The wire name of a timestamp comparator.
pub open spec fn filter_name(f: QuoteTimespanFilter) -> Seq<char> {
    match f {
        QuoteTimespanFilter::LessThan => "lt"@,
        QuoteTimespanFilter::LessThanEqual => "lte"@,
        QuoteTimespanFilter::GreaterThan => "gt"@,
        QuoteTimespanFilter::GreaterThanEqual => "gte"@,
    }
}

impl QuoteTimespanFilter {
    /// The wire name of this comparator.
    pub fn as_ref(&self) -> (r: &'static str)
        ensures
            r@ == filter_name(*self),
    {
        match self {
            QuoteTimespanFilter::LessThan => "lt",
            QuoteTimespanFilter::LessThanEqual => "lte",
            QuoteTimespanFilter::GreaterThan => "gt",
            QuoteTimespanFilter::GreaterThanEqual => "gte",
        }
    }
}

/// Specifies the sort order of the quotes, using the key specified in
/// `sort`.
#[derive(Clone, Copy, Debug, PartialEq, Eq, Structural)]
pub enum QuoteOrder {
    /// Order quotes oldest to newest.
    Ascending,
    /// Order quotes newest to oldest.
    Descending,
}

/// The wire name of an order.
pub open spec fn order_name(o: QuoteOrder) -> Seq<char> {
    match o {
        QuoteOrder::Ascending => "asc"@,
        QuoteOrder::Descending => "desc"@,
    }
}

impl QuoteOrder {
    /// The wire name of this order.
    pub fn as_ref(&self) -> (r: &'static str)
        ensures
            r@ == order_name(*self),
    {
        match self {
            QuoteOrder::Ascending => "asc",
            QuoteOrder::Descending => "desc",
        }
    }
}

/// Specifies the sort key of the quotes, especially relevant for ordering
/// (see `QuoteOrder`).
#[derive(Clone, Copy, Debug, PartialEq, Eq, Structural)]
pub enum QuoteSortBy {
    /// Sort quotes by timestamp.
    Timestamp,
}

impl QuoteSortBy {
    /// The wire name of this sort key.
    pub fn as_ref(&self) -> (r: &'static str)
        ensures
            r@ == "timestamp"@,
    {
        match self {
            QuoteSortBy::Timestamp => "timestamp",
        }
    }
}

/// A GET request to be made to the `/v3/quotes/<symbol>` endpoint.
#[derive(Clone, Debug, PartialEq)]
pub struct QuotesReq {
    /// The ticker symbol to request quote data for.
    pub symbol: String,
    /// A date with the format YYYY-MM-DD or a nanosecond timestamp.
    pub timestamp: String,
    /// The optional timespan filter to use.
    pub filter: Option<QuoteTimespanFilter>,
    /// The optional ordering of the quotes.
    pub order: Option<QuoteOrder>,
    /// The optional sorting of the quotes.
    pub sort: Option<QuoteSortBy>,
}

/// A quote as returned by the `/v3/quotes/<symbol>` endpoint.
#[derive(Clone, Debug, PartialEq)]
pub struct Quote {
    /// The id of the exchange where this ask originates from.
    pub ask_exchange: Num,
    /// The ask price.
    pub ask_price: Num,
    /// The ask size.
    pub ask_size: Num,
    /// The id of the exchange where this bid originates from.
    pub bid_exchange: Num,
    /// The bid price.
    pub bid_price: Num,
    /// The bid size.
    pub bid_size: Num,
    /// The participant timestamp.
    pub timestamp: Num,
}

/// The path of the quotes endpoint for a request.
pub fn path(input: &QuotesReq) -> (r: String)
    ensures
        r@ == "/v3/quotes/"@ + input.symbol@,
{
    String::from_str("/v3/quotes/").concat(input.symbol.as_str())
}

/// The name of the timestamp parameter: `timestamp`, or
/// `timestamp.<comparator>` under a filter.
pub open spec fn timestamp_param(filter: Option<QuoteTimespanFilter>) -> Seq<char> {
    match filter {
        Some(f) => "timestamp."@ + filter_name(f),
        None => "timestamp"@,
    }
}

/// The query string of a quotes request: the timestamp, compared as the
/// filter says, then the order and the sort key where they are set.
pub open spec fn quotes_query(req: QuotesReq) -> Seq<char> {
    let q1 = appended(Seq::empty(), timestamp_param(req.filter), req.timestamp@);
    let q2 = match req.order {
        Some(o) => appended(q1, "order"@, order_name(o)),
        None => q1,
    };
    match req.sort {
        Some(_) => appended(q2, "sort"@, "timestamp"@),
        None => q2,
    }
}

/// The query string of a quotes request.
pub fn query(input: &QuotesReq) -> (r: String)
    ensures
        r@ == quotes_query(*input),
{
    let name = match input.filter {
        Some(filter) => String::from_str("timestamp.").concat(filter.as_ref()),
        None => String::from_str("timestamp"),
    };
    let mut query = append_pair(String::new(), name.as_str(), input.timestamp.as_str());
    if let Some(order) = input.order {
        query = append_pair(query, "order", order.as_ref());
    }
    if let Some(sort) = input.sort {
        query = append_pair(query, "sort", sort.as_ref());
    }
    query
}

} // verus!
