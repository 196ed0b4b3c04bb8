use vstd::prelude::*;

use crate::api::ticker::Market;
use crate::api::ticker::Ticker;
use crate::api::ticker::Type;
use crate::api::ticker::market_name;
use crate::api::response::response_error_prefix;
use crate::api::response::status_delayed;
use crate::api::response::status_ok;
use crate::error::Error;
use crate::text::same_text;
use crate::text::appended;
use crate::text::append_pair;
use crate::text::decimal;
use crate::text::decimal_string;

verus! {

/// A GET request to be made to the `/v2/reference/tickers` endpoint.
#[derive(Clone, Copy, Debug, PartialEq, Eq, Structural)]
pub struct TickerReq {
    /// The market a ticker should be traded on.
    pub market: Option<Market>,
    /// The type to filter for.
    pub type_: Option<Type>,
    /// Whether to return only active/inactive tickers.
    pub active: Option<bool>,
    /// The page to show.
    ///
    /// Pages start at 1.
    pub page: usize,
}

impl Default for TickerReq {
    fn default() -> (r: TickerReq)
        ensures
            r.market is None,
            r.type_ is None,
            r.active is None,
            r.page == 1,
    {
        TickerReq { market: None, type_: None, active: None, page: 1 }
    }
}

/// The path of the tickers endpoint.
pub const PATH: &'static str = "/v2/reference/tickers";

/// The query string of a request for a page of tickers: the filters that
/// are set, then the sort key and the page.
pub open spec fn tickers_query(req: TickerReq) -> Seq<char> {
    let q1 = match req.market {
        Some(m) => appended(Seq::empty(), "market"@, market_name(m)),
        None => Seq::empty(),
    };
    let q2 = match req.type_ {
        Some(Type::CommonStock) => appended(q1, "type"@, "CS"@),
        _ => q1,
    };
    let q3 = match req.active {
        Some(true) => appended(q2, "active"@, "true"@),
        Some(false) => appended(q2, "active"@, "false"@),
        None => q2,
    };
    appended(appended(q3, "sort"@, "ticker"@), "page"@, decimal(req.page as nat))
}

/// The query string of a request for a page of tickers.
pub fn query(input: &TickerReq) -> (r: String)
    ensures
        r@ == tickers_query(*input),
{
    let mut query = String::new();
    if let Some(market) = input.market {
        query = append_pair(query, "market", market.as_ref());
    }
    if let Some(type_) = input.type_ {
        if let Some(s) = type_.as_str() {
            query = append_pair(query, "type", s);
        }
    }
    if let Some(active) = input.active {
        query = append_pair(
            query,
            "active",
            if active {
                "true"
            } else {
                "false"
            },
        );
    }
    query = append_pair(query, "sort", "ticker");
    let page = decimal_string(input.page as u64);
    query = append_pair(query, "page", page.as_str());
    query
}

/// An object representing a single page of a response.
#[derive(Clone, Debug, PartialEq)]
pub struct Page {
    /// The status message associated with this response.
    pub status: String,
    /// The page being retrieved.
    pub page: usize,
    /// The maximum number of results contained in one page.
    pub per_page: usize,
    /// The total result count.
    pub count: usize,
    /// The actual tickers.
    pub tickers: Vec<Ticker>,
}

impl Page {
    /// Convert a `Page` into a `Result`: its tickers where the status is
    /// `OK` or `DELAYED` (delayed data counts as success), and otherwise an
    /// error that names the status.
    pub fn into_result(self) -> (r: Result<Vec<Ticker>, Error>)
        ensures
            (self.status@ == status_ok() || self.status@ == status_delayed()) ==> r == Ok::<
                Vec<Ticker>,
                Error,
            >(self.tickers),
            !(self.status@ == status_ok() || self.status@ == status_delayed()) ==> (r matches Err(
                Error::Str(s),
            ) && s@ == response_error_prefix() + self.status@),
    {
        if same_text(self.status.as_str(), "OK") || same_text(self.status.as_str(), "DELAYED") {
            Ok(self.tickers)
        } else {
            let text = String::from_str("response did not indicate success: ");
            Err(Error::Str(text.concat(self.status.as_str())))
        }
    }
}

} // verus!
