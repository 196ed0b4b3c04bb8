use vstd::prelude::*;

use crate::message::Timestamp;
use crate::text::appended;
use crate::text::append_pair;
use crate::text::decimal;
use crate::text::decimal_string;

verus! {

/// A GET request to be made to the `/v1/meta/symbols/<ticker>/news`
/// endpoint.
#[derive(Clone, Debug, PartialEq)]
pub struct NewsReq {
    /// A ticker symbol.
    pub symbol: String,
    /// The page being retrieved.
    pub page: usize,
    /// The maximum number of results contained in one page.
    pub per_page: usize,
}

/// A ticker news item as returned by the `/v1/meta/symbols/<ticker>/news`
/// endpoint.
#[derive(Clone, Debug, PartialEq)]
pub struct News {
    /// The time the news item was published.
    pub timestamp: Timestamp,
    /// The ticker symbols this news item relates to.
    pub symbols: Vec<String>,
    /// The title of the news item.
    pub title: String,
    /// The URL of the news item.
    pub url: String,
    /// The source of the news item.
    pub source: String,
    /// Keywords describing the news item.
    pub keywords: Vec<String>,
}

/// The path of the news endpoint for a request.
pub fn path(input: &NewsReq) -> (r: String)
    ensures
        r@ == "/v1/meta/symbols/"@ + input.symbol@ + "/news"@,
{
    String::from_str("/v1/meta/symbols/").concat(input.symbol.as_str()).concat("/news")
}

/// The query string of a news request: the page size, then the page.
pub fn query(input: &NewsReq) -> (r: String)
    ensures
        r@ == appended(
            appended(Seq::empty(), "perpage"@, decimal(input.per_page as nat)),
            "page"@,
            decimal(input.page as nat),
        ),
{
    let per_page = decimal_string(input.per_page as u64);
    let page = decimal_string(input.page as u64);
    let query = append_pair(String::new(), "perpage", per_page.as_str());
    append_pair(query, "page", page.as_str())
}

} // verus!
